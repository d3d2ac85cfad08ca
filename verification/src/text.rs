//! Texts: decimal numbers in messages, and wide strings from the system.
use vstd::prelude::*;
use widestring::U16CStr;

verus! {

/// The decimal digit for `d`.
pub open spec fn digit(d: int) -> char {
    (48 + d) as char
}

/// The decimal notation of `n`, without leading zeros.
pub open spec fn decimal(n: nat) -> Seq<char>
    decreases n,
{
    if n < 10 {
        seq![digit(n as int)]
    } else {
        decimal(n / 10).push(digit((n % 10) as int))
    }
}

/// The text of one decimal digit.
fn digit_text(d: u64) -> (r: &'static str)
    requires
        d < 10,
    ensures
        r@ == seq![digit(d as int)],
{
    proof {
        reveal_strlit("0");
        reveal_strlit("1");
        reveal_strlit("2");
        reveal_strlit("3");
        reveal_strlit("4");
        reveal_strlit("5");
        reveal_strlit("6");
        reveal_strlit("7");
        reveal_strlit("8");
        reveal_strlit("9");
    }
    match d {
        0 => "0",
        1 => "1",
        2 => "2",
        3 => "3",
        4 => "4",
        5 => "5",
        6 => "6",
        7 => "7",
        8 => "8",
        _ => "9",
    }
}

/// Appends `n` in decimal notation to `out`.
pub(crate) fn append_decimal(out: &mut String, n: u64)
    ensures
        final(out)@ == old(out)@ + decimal(n as nat),
    decreases n,
{
    if n >= 10 {
        append_decimal(out, n / 10);
    }
    out.append(digit_text(n % 10));
}

/// `n` in decimal notation.
pub(crate) fn decimal_text(n: u64) -> (r: String)
    ensures
        r@ == decimal(n as nat),
{
    let mut out = String::new();
    append_decimal(&mut out, n);
    assert(out@ =~= decimal(n as nat));
    out
}

/// The text `before`, then `first`, `between` and `second`, the numbers in decimal notation.
pub(crate) fn two_numbers(before: &str, first: u64, between: &str, second: u64) -> (r: String)
    ensures
        r@ == before@ + decimal(first as nat) + between@ + decimal(second as nat),
{
    let mut out = before.to_owned();
    append_decimal(&mut out, first);
    out.append(between);
    append_decimal(&mut out, second);
    out
}

/// `u` is the first half of a surrogate pair.
pub open spec fn is_high_surrogate(u: u16) -> bool {
    0xD800 <= u < 0xDC00
}

/// `u` is the second half of a surrogate pair.
pub open spec fn is_low_surrogate(u: u16) -> bool {
    0xDC00 <= u < 0xE000
}

/// The character that a surrogate pair stands for.
pub open spec fn surrogate_pair(high: u16, low: u16) -> char {
    (0x10000 + (high - 0xD800) * 0x400 + (low - 0xDC00)) as char
}

/// The text that `units` hold in UTF-16, with U+FFFD for each surrogate that has no partner.
pub open spec fn utf16_text(units: Seq<u16>) -> Seq<char>
    decreases units.len(),
{
    if units.len() == 0 {
        Seq::empty()
    } else if is_high_surrogate(units[0]) && units.len() > 1 && is_low_surrogate(units[1]) {
        seq![surrogate_pair(units[0], units[1])] + utf16_text(units.skip(2))
    } else if is_high_surrogate(units[0]) || is_low_surrogate(units[0]) {
        seq!['\u{FFFD}'] + utf16_text(units.skip(1))
    } else {
        seq![units[0] as char] + utf16_text(units.skip(1))
    }
}

/// The units before the first nul.
pub open spec fn until_nul(units: Seq<u16>) -> Seq<u16>
    decreases units.len(),
{
    if units.len() == 0 || units[0] == 0 {
        Seq::empty()
    } else {
        seq![units[0]] + until_nul(units.skip(1))
    }
}

/// The text of a nul-terminated wide string.
pub open spec fn wide_text(units: Seq<u16>) -> Seq<char> {
    utf16_text(until_nul(units))
}

/// Decodes a nul-terminated wide string.
///
/// Calls `U16CStr::from_slice_truncate`, which cuts the slice at its first nul and succeeds
/// where there is one, and `U16CStr::to_string_lossy`, which decodes the units before the nul
/// as UTF-16 and puts U+FFFD for what is not valid there.
#[verifier::external_body]
pub(crate) fn decode_wide(units: &[u16]) -> (r: String)
    requires
        units@.contains(0u16),
    ensures
        r@ == wide_text(units@),
{
    U16CStr::from_slice_truncate(units).unwrap().to_string_lossy()
}

/// The number that a text of decimal digits denotes.
pub open spec fn decimal_value(text: Seq<char>) -> int
    decreases text.len(),
{
    if text.len() == 0 {
        0
    } else {
        10 * decimal_value(text.drop_last()) + (text.last() as int - '0' as int)
    }
}

/// A number reads back from its decimal notation, which has digits only and starts with a zero
/// only if it is that of zero.
pub proof fn law_decimal_reads_back(n: nat)
    ensures
        decimal_value(decimal(n)) == n,
        decimal(n).len() > 0,
        forall|i: int|
            0 <= i < decimal(n).len() ==> '0' as int <= #[trigger] decimal(n)[i] as int
                <= '9' as int,
        decimal(n)[0] == '0' <==> n == 0,
        n == 0 ==> decimal(n).len() == 1,
    decreases n,
{
    reveal_with_fuel(decimal_value, 2);
    if n < 10 {
        assert(decimal(n).drop_last() =~= Seq::empty());
    } else {
        law_decimal_reads_back(n / 10);
        assert(decimal(n).drop_last() =~= decimal(n / 10));
    }
}

/// The UTF-16 units of a text.
pub open spec fn utf16_units(text: Seq<char>) -> Seq<u16>
    decreases text.len(),
{
    if text.len() == 0 {
        Seq::empty()
    } else {
        let c = text[0] as int;
        let first = if c < 0x10000 {
            seq![c as u16]
        } else {
            seq![
                (0xD800 + (c - 0x10000) / 0x400) as u16,
                (0xDC00 + (c - 0x10000) % 0x400) as u16,
            ]
        };
        first + utf16_units(text.skip(1))
    }
}

/// A character is a scalar value: at most U+10FFFF, and no surrogate.
proof fn lemma_scalar_value(c: char)
    ensures
        0 <= c as int <= 0x10FFFF,
        !(0xD800 <= c as int <= 0xDFFF),
{
}

/// Decoding gives back every text that was encoded.
pub proof fn law_encoded_text_decodes(text: Seq<char>)
    ensures
        utf16_text(utf16_units(text)) == text,
    decreases text.len(),
{
    if text.len() > 0 {
        let rest = utf16_units(text.skip(1));
        law_encoded_text_decodes(text.skip(1));
        let units = utf16_units(text);
        let c = text[0];
        lemma_scalar_value(c);
        if (c as int) < 0x10000 {
            assert(units.skip(1) =~= rest);
            assert(units[0] == c as int);
        } else {
            let above = c as int - 0x10000;
            assert(units.skip(2) =~= rest);
            assert(units[0] == 0xD800 + above / 0x400);
            assert(units[1] == 0xDC00 + above % 0x400);
            assert(surrogate_pair(units[0], units[1]) == c);
        }
        assert(seq![text[0]] + text.skip(1) =~= text);
    }
}

/// Two wide strings in a row decode to their texts in a row, unless a surrogate pair is split
/// between them.
pub proof fn law_text_splits(a: Seq<u16>, b: Seq<u16>)
    requires
        !(a.len() > 0 && 0xD800 <= a.last() < 0xDC00 && b.len() > 0 && 0xDC00 <= b[0] < 0xE000),
    ensures
        utf16_text(a + b) == utf16_text(a) + utf16_text(b),
    decreases a.len(),
{
    let ab = a + b;
    if a.len() == 0 {
        assert(ab =~= b);
        assert(utf16_text(a) + utf16_text(b) =~= utf16_text(b));
    } else {
        let pair = is_high_surrogate(a[0]) && a.len() > 1 && is_low_surrogate(a[1]);
        let k: int = if pair {
            2
        } else {
            1
        };
        assert(ab.skip(k) =~= a.skip(k) + b);
        law_text_splits(a.skip(k), b);
        assert(utf16_text(ab) =~= utf16_text(a) + utf16_text(b));
    }
}

/// A surrogate that stands alone decodes to the replacement character.
pub proof fn law_lone_surrogate_is_replaced(unit: u16)
    requires
        0xD800 <= unit < 0xE000,
    ensures
        utf16_text(seq![unit]) == seq!['\u{FFFD}'],
{
    reveal_with_fuel(utf16_text, 2);
    assert(seq![unit].skip(1) =~= Seq::empty());
    assert(utf16_text(seq![unit]) =~= seq!['\u{FFFD}']);
}

/// What stands before the first nul is a beginning of the units without a nul, and goes on to
/// the first nul, or to the end if there is none.
pub proof fn law_until_nul_is_up_to_the_first_nul(units: Seq<u16>)
    ensures
        ({
            let n = until_nul(units).len() as int;
            &&& n <= units.len()
            &&& until_nul(units) == units.take(n)
            &&& forall|i: int| 0 <= i < n ==> #[trigger] units[i] != 0
            &&& n < units.len() ==> units[n] == 0
        }),
    decreases units.len(),
{
    if units.len() > 0 && units[0] != 0 {
        let rest = units.skip(1);
        law_until_nul_is_up_to_the_first_nul(rest);
        let n = until_nul(units).len() as int;
        assert(until_nul(units) =~= units.take(n));
        assert forall|i: int| 0 <= i < n implies #[trigger] units[i] != 0 by {
            if i > 0 {
                assert(rest[i - 1] == units[i]);
            }
        }
    } else {
        assert(until_nul(units) =~= units.take(0));
    }
}

/// A text without a nul has no nul among its units.
proof fn lemma_units_without_nul(text: Seq<char>)
    requires
        !text.contains('\0'),
    ensures
        !utf16_units(text).contains(0u16),
    decreases text.len(),
{
    if text.len() > 0 {
        assert(text[0] != '\0');
        let rest = text.skip(1);
        assert(!rest.contains('\0')) by {
            if rest.contains('\0') {
                let i = choose|i: int| 0 <= i < rest.len() && rest[i] == '\0';
                assert(text[i + 1] == '\0');
            }
        }
        lemma_units_without_nul(rest);
        let tail = utf16_units(rest);
        let units = utf16_units(text);
        let k = units.len() - tail.len();
        lemma_scalar_value(text[0]);
        assert(units[0] != 0);
        assert(k == 2 ==> units[1] != 0);
        if units.contains(0u16) {
            let i = choose|i: int| 0 <= i < units.len() && units[i] == 0u16;
            if i >= k {
                assert(tail[i - k] == 0u16);
            }
            assert(false);
        }
    }
}

/// A wide string is read up to its first nul, whatever follows that.
pub proof fn law_wide_text_ends_at_the_nul(units: Seq<u16>, behind: Seq<u16>)
    requires
        !units.contains(0u16),
    ensures
        wide_text(units + seq![0u16] + behind) == utf16_text(units),
{
    let stored = units + seq![0u16] + behind;
    law_until_nul_is_up_to_the_first_nul(stored);
    let n = until_nul(stored).len() as int;
    assert(stored[units.len() as int] == 0);
    if n < units.len() {
        assert(units[n] == stored[n]);
        assert(units.contains(0u16));
    }
    assert(stored.take(n) =~= units);
}

/// A text that is stored as a wide string with a nul behind it reads back, whatever follows the
/// nul.
pub proof fn law_wide_text_reads_back(text: Seq<char>, behind: Seq<u16>)
    requires
        !text.contains('\0'),
    ensures
        wide_text(utf16_units(text) + seq![0u16] + behind) == text,
{
    lemma_units_without_nul(text);
    law_wide_text_ends_at_the_nul(utf16_units(text), behind);
    law_encoded_text_decodes(text);
}

} // verus!
