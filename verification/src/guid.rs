//! Globally unique identifiers.
use vstd::prelude::*;
use windows::runtime::GUID;

verus! {

/// A globally unique identifier.
#[derive(Clone, Copy, Debug, PartialEq, Eq, Structural)]
pub struct Guid {
    pub data1: u32,
    pub data2: u16,
    pub data3: u16,
    /// The last eight bytes, the first of them in the highest place.
    pub data4: u64,
}

/// Sub-format of integer samples.
#[verifier::allow_in_spec]
pub fn ksdataformat_subtype_pcm() -> Guid
    returns
        (Guid { data1: 1, data2: 0, data3: 0x0010, data4: 0x8000_00AA_0038_9B71 }),
{
    Guid { data1: 1, data2: 0, data3: 0x0010, data4: 0x8000_00AA_0038_9B71 }
}

/// Sub-format of floating-point samples.
#[verifier::allow_in_spec]
pub fn ksdataformat_subtype_ieee_float() -> Guid
    returns
        (Guid { data1: 3, data2: 0, data3: 0x0010, data4: 0x8000_00AA_0038_9B71 }),
{
    Guid { data1: 3, data2: 0, data3: 0x0010, data4: 0x8000_00AA_0038_9B71 }
}

/// The hexadecimal digit for `d`, in upper case.
pub open spec fn hex_digit(d: int) -> char {
    if d < 10 {
        (48 + d) as char
    } else {
        (55 + d) as char
    }
}

/// The last `width` hexadecimal digits of `n`.
pub open spec fn hex(n: nat, width: nat) -> Seq<char>
    decreases width,
{
    if width == 0 {
        Seq::empty()
    } else {
        hex(n / 16, (width - 1) as nat).push(hex_digit((n % 16) as int))
    }
}

impl Guid {
    /// The usual notation: hexadecimal digits in groups of 8, 4, 4, 4 and 12.
    pub open spec fn notation(self) -> Seq<char> {
        hex(self.data1 as nat, 8) + seq!['-'] + hex(self.data2 as nat, 4) + seq!['-'] + hex(
            self.data3 as nat,
            4,
        ) + seq!['-'] + hex((self.data4 / 0x1_0000_0000_0000) as nat, 4) + seq!['-'] + hex(
            (self.data4 % 0x1_0000_0000_0000) as nat,
            12,
        )
    }
}

/// The identifier in its usual notation.
///
/// Formats a `GUID` with its `Debug` impl, which writes the parts with all their hexadecimal
/// digits in upper case, and the first two of the last eight bytes as a group of their own.
#[verifier::external_body]
pub(crate) fn guid_text(id: &Guid) -> (r: String)
    ensures
        r@ == id.notation(),
{
    format!("{:?}", GUID::from_values(id.data1, id.data2, id.data3, id.data4.to_be_bytes()))
}

/// The number that a text of hexadecimal digits in upper case denotes.
pub open spec fn hex_value(text: Seq<char>) -> int
    decreases text.len(),
{
    if text.len() == 0 {
        0
    } else {
        let c = text.last() as int;
        16 * hex_value(text.drop_last()) + (if c <= '9' as int {
            c - '0' as int
        } else {
            c - 'A' as int + 10
        })
    }
}

/// `c` is a hexadecimal digit in upper case.
pub open spec fn is_hex_digit(c: char) -> bool {
    '0' as int <= c as int <= '9' as int || 'A' as int <= c as int <= 'F' as int
}

/// How many numbers have at most `width` hexadecimal digits.
pub open spec fn hex_count(width: nat) -> nat
    decreases width,
{
    if width == 0 {
        1
    } else {
        16 * hex_count((width - 1) as nat)
    }
}

/// A number reads back from its hexadecimal notation if that is wide enough.
pub proof fn law_hex_reads_back(n: nat, width: nat)
    requires
        n < hex_count(width),
    ensures
        hex(n, width).len() == width,
        hex_value(hex(n, width)) == n,
        forall|i: int| 0 <= i < width ==> is_hex_digit(#[trigger] hex(n, width)[i]),
    decreases width,
{
    if width > 0 {
        law_hex_reads_back(n / 16, (width - 1) as nat);
        assert(hex(n, width).drop_last() =~= hex(n / 16, (width - 1) as nat));
    }
}

/// The notation of an identifier has 36 characters: hexadecimal digits in upper case, but for
/// the dashes between the five groups. The groups hold the parts of the identifier, the last two
/// of them its last part.
pub proof fn law_notation_reads_back(id: Guid)
    ensures
        id.notation().len() == 36,
        forall|i: int|
            0 <= i < 36 ==> if i == 8 || i == 13 || i == 18 || i == 23 {
                #[trigger] id.notation()[i] == '-'
            } else {
                is_hex_digit(id.notation()[i])
            },
        hex_value(id.notation().subrange(0, 8)) == id.data1,
        hex_value(id.notation().subrange(9, 13)) == id.data2,
        hex_value(id.notation().subrange(14, 18)) == id.data3,
        0x1_0000_0000_0000 * hex_value(id.notation().subrange(19, 23)) + hex_value(
            id.notation().subrange(24, 36),
        ) == id.data4,
{
    reveal_with_fuel(hex_count, 13);
    let high = (id.data4 / 0x1_0000_0000_0000) as nat;
    let low = (id.data4 % 0x1_0000_0000_0000) as nat;
    law_hex_reads_back(id.data1 as nat, 8);
    law_hex_reads_back(id.data2 as nat, 4);
    law_hex_reads_back(id.data3 as nat, 4);
    law_hex_reads_back(high, 4);
    law_hex_reads_back(low, 12);
    let t = id.notation();
    assert(t.subrange(0, 8) =~= hex(id.data1 as nat, 8));
    assert(t.subrange(9, 13) =~= hex(id.data2 as nat, 4));
    assert(t.subrange(14, 18) =~= hex(id.data3 as nat, 4));
    assert(t.subrange(19, 23) =~= hex(high, 4));
    assert(t.subrange(24, 36) =~= hex(low, 12));
    assert forall|i: int| 0 <= i < 36 implies if i == 8 || i == 13 || i == 18 || i == 23 {
        #[trigger] t[i] == '-'
    } else {
        is_hex_digit(t[i])
    } by {
        if i < 8 {
            assert(t[i] == hex(id.data1 as nat, 8)[i]);
        } else if 8 < i < 13 {
            assert(t[i] == hex(id.data2 as nat, 4)[i - 9]);
        } else if 13 < i < 18 {
            assert(t[i] == hex(id.data3 as nat, 4)[i - 14]);
        } else if 18 < i < 23 {
            assert(t[i] == hex(high, 4)[i - 19]);
        } else if 23 < i {
            assert(t[i] == hex(low, 12)[i - 24]);
        }
    }
}

} // verus!
