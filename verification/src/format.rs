//! Wave formats: the basic descriptor, the extensible one, and the conversion between them.
use crate::error::WasapiError;
use crate::guid::{guid_text, ksdataformat_subtype_ieee_float, ksdataformat_subtype_pcm, Guid};
use crate::text::decimal_text;
use vstd::prelude::*;

verus! {

/// Format tag of integer samples.
pub const WAVE_FORMAT_PCM: u32 = 1;

/// Format tag of floating-point samples.
pub const WAVE_FORMAT_IEEE_FLOAT: u32 = 3;

/// Format tag of a descriptor that is extended by a sub-format.
pub const WAVE_FORMAT_EXTENSIBLE: u32 = 65534;

/// The size of what an extensible descriptor adds to the basic one.
pub const EXTENSION_SIZE: u16 = 22;

/// Sample type, float or integer
#[derive(Clone, Copy, Debug, PartialEq, Eq, Structural)]
pub enum SampleType {
    Float,
    Int,
}

/// The fields of a `WAVEFORMATEX` descriptor.
#[derive(Clone, Copy, Debug, PartialEq, Eq, Structural)]
pub struct WaveFormatEx {
    pub format_tag: u16,
    pub channels: u16,
    pub samples_per_sec: u32,
    pub avg_bytes_per_sec: u32,
    pub block_align: u16,
    pub bits_per_sample: u16,
    pub cb_size: u16,
}

/// The fields of a `WAVEFORMATEXTENSIBLE` descriptor.
#[derive(Clone, Copy, Debug, PartialEq, Eq, Structural)]
pub struct WaveFormatExtensible {
    pub format: WaveFormatEx,
    pub valid_bits_per_sample: u16,
    pub channel_mask: u32,
    pub sub_format: Guid,
}

/// A format, held as a `WAVEFORMATEXTENSIBLE` descriptor.
#[derive(Clone, Copy, PartialEq, Eq, Structural)]
pub struct WaveFormat {
    pub wave_fmt: WaveFormatExtensible,
}

/// The lowest 16 bits of `n`.
pub open spec fn low16(n: int) -> u16 {
    (n % 0x1_0000) as u16
}

/// The lowest 32 bits of `n`.
pub open spec fn low32(n: int) -> u32 {
    (n % 0x1_0000_0000) as u32
}

/// The bytes of one frame.
pub open spec fn frame_bytes(storebits: int, channels: int) -> int {
    channels * storebits / 8
}

/// The sub-format for a sample type.
pub open spec fn sub_format_of(sample_type: SampleType) -> Guid {
    match sample_type {
        SampleType::Float => ksdataformat_subtype_ieee_float(),
        SampleType::Int => ksdataformat_subtype_pcm(),
    }
}

/// The descriptor for the given parameters. Fields that are too narrow for their value keep
/// its lowest bits; the channel mask has one bit for each channel.
pub open spec fn extensible_format(
    storebits: int,
    validbits: int,
    sample_type: SampleType,
    samplerate: int,
    channels: int,
) -> WaveFormatExtensible {
    WaveFormatExtensible {
        format: WaveFormatEx {
            format_tag: WAVE_FORMAT_EXTENSIBLE as u16,
            channels: low16(channels),
            samples_per_sec: low32(samplerate),
            avg_bytes_per_sec: low32(samplerate * frame_bytes(storebits, channels)),
            block_align: low16(frame_bytes(storebits, channels)),
            bits_per_sample: low16(storebits),
            cb_size: EXTENSION_SIZE,
        },
        valid_bits_per_sample: low16(validbits),
        channel_mask: (vstd::arithmetic::power2::pow2(channels as nat) - 1) as u32,
        sub_format: sub_format_of(sample_type),
    }
}

impl WaveFormatEx {
    /// The sample type that the format tag tells, if it tells one.
    pub open spec fn sample_type(self) -> Option<SampleType> {
        if self.format_tag == WAVE_FORMAT_PCM {
            Some(SampleType::Int)
        } else if self.format_tag == WAVE_FORMAT_IEEE_FLOAT {
            Some(SampleType::Float)
        } else {
            None
        }
    }

    /// The bits that a frame has for each channel.
    pub open spec fn store_bits(self) -> int {
        8 * self.block_align as int / self.channels as int
    }

    /// An extensible descriptor can be computed from this one, or it is rejected for its tag:
    /// there are one to 32 channels, and the bytes of one second can be counted.
    pub open spec fn convertible(self) -> bool {
        self.sample_type() is Some ==> {
            &&& 0 < self.channels <= 32
            &&& self.samples_per_sec * frame_bytes(self.store_bits(), self.channels as int)
                <= usize::MAX
        }
    }

    /// The extensible descriptor of the same format.
    pub open spec fn converted(self) -> WaveFormatExtensible {
        extensible_format(
            self.store_bits(),
            self.bits_per_sample as int,
            self.sample_type()->0,
            self.samples_per_sec as int,
            self.channels as int,
        )
    }

    /// This descriptor is the head of an extensible one.
    pub open spec fn extended(self) -> bool {
        self.cb_size == EXTENSION_SIZE && self.format_tag == WAVE_FORMAT_EXTENSIBLE
    }

    /// Tests whether this is the head of an extensible descriptor, so that there is more to
    /// read behind it.
    pub fn is_extended(&self) -> (r: bool)
        ensures
            r == self.extended(),
    {
        self.cb_size == EXTENSION_SIZE && self.format_tag as u32 == WAVE_FORMAT_EXTENSIBLE
    }

    /// Tests whether `WaveFormat::from_waveformatex` takes this descriptor.
    pub fn is_convertible(&self) -> (r: bool)
        ensures
            r == self.convertible(),
    {
        let tag = self.format_tag as u32;
        if tag != WAVE_FORMAT_PCM && tag != WAVE_FORMAT_IEEE_FLOAT {
            return true;
        }
        if self.channels == 0 || self.channels > 32 {
            return false;
        }
        let channels = self.channels as u64;
        let storebits = 8 * self.block_align as u64 / channels;
        proof {
            lemma_rounded_frame(self.block_align as int, channels as int);
        }
        let blockalign = channels * storebits / 8;
        proof {
            assert(0 <= self.samples_per_sec * blockalign <= 0xffff_ffff * 0xffff) by (nonlinear_arith)
                requires
                    0 <= self.samples_per_sec <= 0xffff_ffff,
                    0 <= blockalign <= 0xffff,
            ;
        }
        self.samples_per_sec as u64 * blockalign <= usize::MAX as u64
    }
}

/// What is to be done with a descriptor whose head was read from the system.
pub enum FormatStep {
    /// The format is known.
    Ready(WaveFormat),
    /// The head belongs to an extensible descriptor: read that as a whole.
    ReadExtensible,
}

/// Spreading a frame over its channels in whole bits never makes it longer.
proof fn lemma_rounded_frame(block_align: int, channels: int)
    requires
        0 <= block_align,
        0 < channels,
    ensures
        0 <= 8 * block_align / channels <= 8 * block_align,
        0 <= channels * (8 * block_align / channels) <= 8 * block_align,
{
    let total = 8 * block_align;
    assert(0 <= total / channels <= total && 0 <= channels * (total / channels) <= total)
        by (nonlinear_arith)
        requires
            0 <= total,
            0 < channels,
    ;
}

/// A cast to a narrower type keeps the lowest bits.
pub(crate) proof fn lemma_low_bits(n: usize)
    ensures
        n as u16 == low16(n as int),
        n as u32 == low32(n as int),
{
    assert(n as u16 == (n % 0x1_0000) as u16) by (bit_vector);
    assert(n as u32 == (n as u64 % 0x1_0000_0000) as u32) by (bit_vector);
}

/// The mask with the lowest `channels` bits set.
fn channel_mask(channels: usize) -> (r: u32)
    requires
        channels <= 32,
    ensures
        r == vstd::arithmetic::power2::pow2(channels as nat) - 1,
{
    let mut mask: u32 = 0;
    proof {
        vstd::arithmetic::power2::lemma2_to64();
    }
    for n in 0..channels
        invariant
            channels <= 32,
            mask == vstd::arithmetic::power2::pow2(n as nat) - 1,
    {
        proof {
            vstd::arithmetic::power2::lemma2_to64();
            vstd::arithmetic::power2::lemma_pow2_unfold((n + 1) as nat);
            vstd::bits::lemma_u32_pow2_no_overflow(n as nat);
            vstd::bits::lemma_u32_shl_is_mul(1, n as u32);
            if n < 31 {
                vstd::bits::lemma_u32_pow2_no_overflow((n + 1) as nat);
            }
        }
        mask += 1u32 << (n as u32);
    }
    mask
}

impl WaveFormat {
    /// Build a WAVEFORMATEXTENSIBLE struct for the given parameters
    pub fn new(
        storebits: usize,
        validbits: usize,
        sample_type: &SampleType,
        samplerate: usize,
        channels: usize,
    ) -> (r: Self)
        requires
            channels * storebits <= usize::MAX,
            samplerate * frame_bytes(storebits as int, channels as int) <= usize::MAX,
            channels <= 32,
        ensures
            r.wave_fmt == extensible_format(
                storebits as int,
                validbits as int,
                *sample_type,
                samplerate as int,
                channels as int,
            ),
    {
        let blockalign = channels * storebits / 8;
        let byterate = samplerate * blockalign;
        proof {
            lemma_low_bits(byterate);
            lemma_low_bits(blockalign);
            lemma_low_bits(channels);
            lemma_low_bits(samplerate);
            lemma_low_bits(storebits);
            lemma_low_bits(validbits);
        }
        let format = WaveFormatEx {
            cb_size: EXTENSION_SIZE,
            avg_bytes_per_sec: byterate as u32,
            block_align: blockalign as u16,
            channels: channels as u16,
            samples_per_sec: samplerate as u32,
            bits_per_sample: storebits as u16,
            format_tag: WAVE_FORMAT_EXTENSIBLE as u16,
        };
        let sub_format = match sample_type {
            SampleType::Float => ksdataformat_subtype_ieee_float(),
            SampleType::Int => ksdataformat_subtype_pcm(),
        };
        let channel_mask = channel_mask(channels);
        WaveFormat {
            wave_fmt: WaveFormatExtensible {
                format,
                valid_bits_per_sample: validbits as u16,
                sub_format,
                channel_mask,
            },
        }
    }

    /// Create from a WAVEFORMATEX structure
    pub fn from_waveformatex(wavefmt: WaveFormatEx) -> (r: Result<Self, WasapiError>)
        requires
            wavefmt.convertible(),
        ensures
            match r {
                Ok(f) => wavefmt.sample_type() is Some && f.wave_fmt == wavefmt.converted(),
                Err(e) => wavefmt.sample_type() is None && e@ == "Unsupported format"@,
            },
    {
        let validbits = wavefmt.bits_per_sample as usize;
        let blockalign = wavefmt.block_align as usize;
        let samplerate = wavefmt.samples_per_sec as usize;
        let channels = wavefmt.channels as usize;
        let sample_type = match wavefmt.format_tag as u32 {
            WAVE_FORMAT_PCM => SampleType::Int,
            WAVE_FORMAT_IEEE_FLOAT => SampleType::Float,
            _ => {
                return Err(WasapiError::new("Unsupported format"));
            },
        };
        let storebits = 8 * blockalign / channels;
        proof {
            lemma_rounded_frame(blockalign as int, channels as int);
        }
        Ok(WaveFormat::new(storebits, validbits, &sample_type, samplerate, channels))
    }

    /// What is to be done with a descriptor that has this head, `None` if it is not supported.
    pub open spec fn header_step(header: WaveFormatEx) -> Option<FormatStep> {
        if header.extended() {
            Some(FormatStep::ReadExtensible)
        } else if header.sample_type() is Some {
            Some(FormatStep::Ready(WaveFormat { wave_fmt: header.converted() }))
        } else {
            None
        }
    }

    /// Takes the head of a descriptor that the system holds. An extensible one is still to be
    /// read as a whole; any other is converted.
    pub fn from_header(header: WaveFormatEx) -> (r: Result<FormatStep, WasapiError>)
        requires
            header.convertible(),
        ensures
            match r {
                Ok(step) => Self::header_step(header) == Some(step),
                Err(e) => Self::header_step(header) is None && e@ == "Unsupported format"@,
            },
    {
        if header.is_extended() {
            Ok(FormatStep::ReadExtensible)
        } else {
            match WaveFormat::from_waveformatex(header) {
                Ok(format) => Ok(FormatStep::Ready(format)),
                Err(e) => Err(e),
            }
        }
    }

    /// The format of an extensible descriptor, which is kept as it stands.
    pub fn from_extensible(wave_fmt: WaveFormatExtensible) -> (r: Self)
        ensures
            r.wave_fmt == wave_fmt,
    {
        WaveFormat { wave_fmt }
    }

    /// The format of a descriptor that the system holds, which has what belongs to an extensible
    /// one behind its head. `None` if it is not supported.
    pub open spec fn of_descriptor(descriptor: WaveFormatExtensible) -> Option<WaveFormat> {
        match Self::header_step(descriptor.format) {
            Some(FormatStep::ReadExtensible) => Some(WaveFormat { wave_fmt: descriptor }),
            Some(FormatStep::Ready(format)) => Some(format),
            None => None,
        }
    }

    /// The basic descriptor at the head of this format, as a reader sees it that does not know
    /// of extensions.
    pub fn as_waveformatex_ptr(&self) -> (r: &WaveFormatEx)
        ensures
            *r == self.wave_fmt.format,
    {
        &self.wave_fmt.format
    }

    /// Read nBlockAlign.
    pub fn get_blockalign(&self) -> (r: u32)
        ensures
            r == self.wave_fmt.format.block_align,
    {
        self.wave_fmt.format.block_align as u32
    }

    /// Read nAvgBytesPerSec.
    pub fn get_avgbytespersec(&self) -> (r: u32)
        ensures
            r == self.wave_fmt.format.avg_bytes_per_sec,
    {
        self.wave_fmt.format.avg_bytes_per_sec
    }

    /// Read wBitsPerSample.
    pub fn get_bitspersample(&self) -> (r: u16)
        ensures
            r == self.wave_fmt.format.bits_per_sample,
    {
        self.wave_fmt.format.bits_per_sample
    }

    /// Read wValidBitsPerSample.
    pub fn get_validbitspersample(&self) -> (r: u16)
        ensures
            r == self.wave_fmt.valid_bits_per_sample,
    {
        self.wave_fmt.valid_bits_per_sample
    }

    /// Read nSamplesPerSec.
    pub fn get_samplespersec(&self) -> (r: u32)
        ensures
            r == self.wave_fmt.format.samples_per_sec,
    {
        self.wave_fmt.format.samples_per_sec
    }

    /// Read nChannels.
    pub fn get_nchannels(&self) -> (r: u16)
        ensures
            r == self.wave_fmt.format.channels,
    {
        self.wave_fmt.format.channels
    }

    /// Read dwChannelMask.
    pub fn get_dwchannelmask(&self) -> (r: u32)
        ensures
            r == self.wave_fmt.channel_mask,
    {
        self.wave_fmt.channel_mask
    }

    /// Read SubFormat.
    pub fn get_subformat(&self) -> (r: Result<SampleType, WasapiError>)
        ensures
            match r {
                Ok(t) => self.wave_fmt.sub_format == sub_format_of(t),
                Err(e) => {
                    &&& self.wave_fmt.sub_format != sub_format_of(SampleType::Float)
                    &&& self.wave_fmt.sub_format != sub_format_of(SampleType::Int)
                    &&& e@ == "Unknown subformat "@ + self.wave_fmt.sub_format.notation()
                },
            },
    {
        if self.wave_fmt.sub_format == ksdataformat_subtype_ieee_float() {
            Ok(SampleType::Float)
        } else if self.wave_fmt.sub_format == ksdataformat_subtype_pcm() {
            Ok(SampleType::Int)
        } else {
            let mut desc = "Unknown subformat ".to_owned();
            desc.append(guid_text(&self.wave_fmt.sub_format).as_str());
            Err(WasapiError::new(desc.as_str()))
        }
    }

    /// The fields that describe the format to a developer, with their values as texts.
    pub open spec fn described(self) -> Seq<(Seq<char>, Seq<char>)> {
        let f = self.wave_fmt.format;
        seq![
            ("nAvgBytesPerSec"@, crate::text::decimal(f.avg_bytes_per_sec as nat)),
            ("cbSize"@, crate::text::decimal(f.cb_size as nat)),
            ("nBlockAlign"@, crate::text::decimal(f.block_align as nat)),
            ("wBitsPerSample"@, crate::text::decimal(f.bits_per_sample as nat)),
            ("nSamplesPerSec"@, crate::text::decimal(f.samples_per_sec as nat)),
            ("wFormatTag"@, crate::text::decimal(f.format_tag as nat)),
            (
                "wValidBitsPerSample"@,
                crate::text::decimal(self.wave_fmt.valid_bits_per_sample as nat),
            ),
            ("SubFormat"@, self.wave_fmt.sub_format.notation()),
            ("nChannel"@, crate::text::decimal(f.channels as nat)),
            ("dwChannelMask"@, crate::text::decimal(self.wave_fmt.channel_mask as nat)),
        ]
    }

    /// The fields of the format for a debug output, each with its value as a text, in the order
    /// in which they are shown.
    pub fn debug_fields(&self) -> (r: Vec<(&'static str, String)>)
        ensures
            field_texts(r@) == self.described(),
    {
        let f = &self.wave_fmt.format;
        let mut fields: Vec<(&'static str, String)> = Vec::new();
        fields.push(("nAvgBytesPerSec", decimal_text(f.avg_bytes_per_sec as u64)));
        fields.push(("cbSize", decimal_text(f.cb_size as u64)));
        fields.push(("nBlockAlign", decimal_text(f.block_align as u64)));
        fields.push(("wBitsPerSample", decimal_text(f.bits_per_sample as u64)));
        fields.push(("nSamplesPerSec", decimal_text(f.samples_per_sec as u64)));
        fields.push(("wFormatTag", decimal_text(f.format_tag as u64)));
        fields.push((
            "wValidBitsPerSample",
            decimal_text(self.wave_fmt.valid_bits_per_sample as u64),
        ));
        fields.push(("SubFormat", guid_text(&self.wave_fmt.sub_format)));
        fields.push(("nChannel", decimal_text(f.channels as u64)));
        fields.push(("dwChannelMask", decimal_text(self.wave_fmt.channel_mask as u64)));
        assert(field_texts(fields@) =~= self.described());
        fields
    }

    /// The debug output of the format on one line.
    pub fn debug_text(&self) -> (r: String)
        ensures
            r@ == "WaveFormat { "@ + joined(self.described()) + " }"@,
    {
        let fields = self.debug_fields();
        let mut out = "WaveFormat { ".to_owned();
        let ghost texts = field_texts(fields@);
        assert(texts.take(0) =~= seq![]);
        for i in 0..fields.len()
            invariant
                texts == field_texts(fields@),
                out@ == "WaveFormat { "@ + joined(texts.take(i as int)),
        {
            let (name, value) = &fields[i];
            if i > 0 {
                out.append(", ");
            }
            out.append(name);
            out.append(": ");
            out.append(value.as_str());
            proof {
                let more = texts.take(i + 1);
                assert(more.drop_last() =~= texts.take(i as int));
                assert(more.last() == (name@, value@));
                assert(out@ =~= "WaveFormat { "@ + joined(more));
            }
        }
        assert(texts.take(fields.len() as int) =~= texts);
        out.append(" }");
        out
    }
}

/// The names and values of debug fields as texts.
pub open spec fn field_texts(fields: Seq<(&'static str, String)>) -> Seq<(Seq<char>, Seq<char>)> {
    fields.map_values(|f: (&'static str, String)| (f.0@, f.1@))
}

/// The fields as `name: value`, separated by commas.
pub open spec fn joined(fields: Seq<(Seq<char>, Seq<char>)>) -> Seq<char>
    decreases fields.len(),
{
    if fields.len() == 0 {
        Seq::empty()
    } else {
        let last = fields.last().0 + ": "@ + fields.last().1;
        if fields.len() == 1 {
            last
        } else {
            joined(fields.drop_last()) + ", "@ + last
        }
    }
}

/// A format made by `WaveFormat::new` gives its parameters back, each as long as its field is
/// wide enough: the bytes of a frame and of a second follow from them.
pub proof fn law_parameters_read_back(
    storebits: nat,
    validbits: nat,
    sample_type: SampleType,
    samplerate: nat,
    channels: nat,
)
    ensures
        ({
            let f = extensible_format(
                storebits as int,
                validbits as int,
                sample_type,
                samplerate as int,
                channels as int,
            );
            let block = channels * storebits / 8;
            &&& storebits <= u16::MAX ==> f.format.bits_per_sample == storebits
            &&& validbits <= u16::MAX ==> f.valid_bits_per_sample == validbits
            &&& samplerate <= u32::MAX ==> f.format.samples_per_sec == samplerate
            &&& channels <= u16::MAX ==> f.format.channels == channels
            &&& block <= u16::MAX ==> f.format.block_align == block
            &&& samplerate * block <= u32::MAX ==> f.format.avg_bytes_per_sec == samplerate * block
            &&& samplerate * block <= u32::MAX && block <= u16::MAX && samplerate <= u32::MAX
                ==> f.format.avg_bytes_per_sec == f.format.samples_per_sec * f.format.block_align
        }),
{
    let block = channels * storebits / 8;
    assert(0 <= samplerate * block) by (nonlinear_arith);
    assert(0 <= block) by {
        assert(0 <= channels * storebits) by (nonlinear_arith);
    }
}

/// The sub-format tells the sample type: what `WaveFormat::new` was given,
/// `WaveFormat::get_subformat` returns.
pub proof fn law_subformat_tells_sample_type(a: SampleType, b: SampleType)
    ensures
        sub_format_of(a) == sub_format_of(b) <==> a == b,
{
}

/// Every format made by `WaveFormat::new` has the head of an extensible descriptor. So when its
/// head is taken in again, it is read as a whole and never converted.
pub proof fn law_new_format_is_extended(
    storebits: int,
    validbits: int,
    sample_type: SampleType,
    samplerate: int,
    channels: int,
)
    ensures
        WaveFormat::header_step(
            extensible_format(storebits, validbits, sample_type, samplerate, channels).format,
        ) == Some(FormatStep::ReadExtensible),
{
}

/// A descriptor that the system holds, such as the one of the mix format, is the format as it
/// stands if its head is that of an extensible one. Any other is converted if its tag tells a
/// sample type, and is not supported if it tells none.
pub proof fn law_descriptor_is_kept_or_converted(descriptor: WaveFormatExtensible)
    ensures
        WaveFormat::of_descriptor(descriptor) == (if descriptor.format.extended() {
            Some(WaveFormat { wave_fmt: descriptor })
        } else if descriptor.format.sample_type() is Some {
            Some(WaveFormat { wave_fmt: descriptor.format.converted() })
        } else {
            None
        }),
{
}

/// The channel mask has a bit for each of the first `channels` speakers and for no other.
pub proof fn law_mask_has_one_bit_per_channel(
    storebits: int,
    validbits: int,
    sample_type: SampleType,
    samplerate: int,
    channels: nat,
    speaker: u32,
)
    requires
        channels <= 32,
        speaker < 32,
    ensures
        (extensible_format(
            storebits,
            validbits,
            sample_type,
            samplerate,
            channels as int,
        ).channel_mask >> speaker) & 1 == 1 <==> speaker < channels,
{
    let f = extensible_format(storebits, validbits, sample_type, samplerate, channels as int);
    let mask = f.channel_mask;
    let n = channels as u64;
    vstd::bits::lemma_u64_pow2_no_overflow(channels);
    vstd::bits::lemma_u64_shl_is_mul(1, n);
    vstd::arithmetic::power2::lemma2_to64();
    if channels < 32 {
        vstd::arithmetic::power2::lemma_pow2_strictly_increases(channels, 32);
    }
    vstd::arithmetic::power2::lemma_pow2_pos(channels);
    assert(mask == (1u64 << n) - 1);
    assert((mask >> speaker) & 1 == 1 <==> speaker < n) by (bit_vector)
        requires
            mask == (1u64 << n) - 1,
            n <= 32,
            speaker < 32,
    ;
}

/// Converting a basic descriptor keeps the number of channels, the sample rate and the sample
/// type, and makes its bits per sample the valid bits. Where the frame divides into whole bits
/// for each channel, it keeps the size of a frame too.
pub proof fn law_conversion_keeps_the_format(w: WaveFormatEx)
    requires
        w.convertible(),
        w.sample_type() is Some,
    ensures
        w.converted().format.channels == w.channels,
        w.converted().format.samples_per_sec == w.samples_per_sec,
        w.converted().sub_format == sub_format_of(w.sample_type()->0),
        w.converted().valid_bits_per_sample == w.bits_per_sample,
        w.converted().format.block_align <= w.block_align,
        (8 * w.block_align) % w.channels as int == 0 ==> {
            &&& w.converted().format.block_align == w.block_align
            &&& w.converted().format.avg_bytes_per_sec == low32(w.samples_per_sec * w.block_align)
        },
{
    let total = 8 * w.block_align as int;
    let channels = w.channels as int;
    lemma_rounded_frame(w.block_align as int, channels);
    if total % channels == 0 {
        assert(channels * (total / channels) == total) by (nonlinear_arith)
            requires
                total % channels == 0,
                0 < channels,
        ;
    }
}

/// The sub-format of a sample type has the format tag of that type as its first part: 3 for
/// floating-point samples, 1 for integers. The other parts are those of every sub-format that
/// comes from a format tag.
pub proof fn law_subformat_holds_the_tag(sample_type: SampleType)
    ensures
        sub_format_of(sample_type).data1 == (match sample_type {
            SampleType::Float => 3u32,
            SampleType::Int => 1u32,
        }),
        sub_format_of(sample_type).data2 == 0,
        sub_format_of(sample_type).data3 == 0x0010,
        sub_format_of(sample_type).data4 == 0x8000_00AA_0038_9B71,
        sub_format_of(SampleType::Float) == ksdataformat_subtype_ieee_float(),
        sub_format_of(SampleType::Int) == ksdataformat_subtype_pcm(),
{
}

/// What `WaveFormat::new` returns, field by field. It has the tag and the size of an extensible
/// descriptor. The parameters, and the bytes of a frame and of a second that follow from them,
/// stand in their fields up to a multiple of what a field can tell apart. The sub-format is the
/// one for the sample type, and the mask has a bit for each of the first `channels` speakers and
/// for no other.
pub proof fn law_new_fills_the_fields(
    storebits: usize,
    validbits: usize,
    sample_type: SampleType,
    samplerate: usize,
    channels: usize,
    r: WaveFormat,
    speaker: u32,
)
    requires
        call_ensures(
            WaveFormat::new,
            (storebits, validbits, &sample_type, samplerate, channels),
            r,
        ),
        channels <= 32,
        speaker < 32,
    ensures
        r.wave_fmt.format.format_tag == 65534,
        r.wave_fmt.format.cb_size == 22,
        r.wave_fmt.format.channels == channels,
        (samplerate - r.wave_fmt.format.samples_per_sec) % 0x1_0000_0000 == 0,
        (storebits - r.wave_fmt.format.bits_per_sample) % 0x1_0000 == 0,
        (validbits - r.wave_fmt.valid_bits_per_sample) % 0x1_0000 == 0,
        (channels * storebits / 8 - r.wave_fmt.format.block_align) % 0x1_0000 == 0,
        (samplerate * (channels * storebits / 8) - r.wave_fmt.format.avg_bytes_per_sec)
            % 0x1_0000_0000 == 0,
        r.wave_fmt.sub_format.data1 == (if sample_type is Float {
            3u32
        } else {
            1u32
        }),
        r.wave_fmt.sub_format.data2 == 0,
        r.wave_fmt.sub_format.data3 == 0x0010,
        r.wave_fmt.sub_format.data4 == 0x8000_00AA_0038_9B71,
        (r.wave_fmt.channel_mask >> speaker) & 1 == 1 <==> speaker < channels,
{
    law_mask_has_one_bit_per_channel(
        storebits as int,
        validbits as int,
        sample_type,
        samplerate as int,
        channels as nat,
        speaker,
    );
}

/// The getters give back what `WaveFormat::new` was given, for every parameter that its field is
/// wide enough for.
pub proof fn law_getters_read_new_back(
    storebits: usize,
    validbits: usize,
    sample_type: SampleType,
    samplerate: usize,
    channels: usize,
    format: WaveFormat,
    blockalign: u32,
    avgbytespersec: u32,
    bitspersample: u16,
    validbitspersample: u16,
    samplespersec: u32,
    nchannels: u16,
    subformat: Result<SampleType, WasapiError>,
)
    requires
        call_ensures(
            WaveFormat::new,
            (storebits, validbits, &sample_type, samplerate, channels),
            format,
        ),
        call_ensures(WaveFormat::get_blockalign, (&format,), blockalign),
        call_ensures(WaveFormat::get_avgbytespersec, (&format,), avgbytespersec),
        call_ensures(WaveFormat::get_bitspersample, (&format,), bitspersample),
        call_ensures(WaveFormat::get_validbitspersample, (&format,), validbitspersample),
        call_ensures(WaveFormat::get_samplespersec, (&format,), samplespersec),
        call_ensures(WaveFormat::get_nchannels, (&format,), nchannels),
        call_ensures(WaveFormat::get_subformat, (&format,), subformat),
    ensures
        channels * storebits / 8 <= u16::MAX ==> blockalign == channels * storebits / 8,
        samplerate * (channels * storebits / 8) <= u32::MAX ==> avgbytespersec == samplerate * (
        channels * storebits / 8),
        storebits <= u16::MAX ==> bitspersample == storebits,
        validbits <= u16::MAX ==> validbitspersample == validbits,
        samplerate <= u32::MAX ==> samplespersec == samplerate,
        channels <= u16::MAX ==> nchannels == channels,
        subformat == Ok::<SampleType, WasapiError>(sample_type),
{
    law_parameters_read_back(
        storebits as nat,
        validbits as nat,
        sample_type,
        samplerate as nat,
        channels as nat,
    );
}

/// The getters give the fields of any format, whatever it came from.
pub proof fn law_getters_read_the_fields(
    format: WaveFormat,
    head: WaveFormatEx,
    blockalign: u32,
    avgbytespersec: u32,
    bitspersample: u16,
    validbitspersample: u16,
    samplespersec: u32,
    nchannels: u16,
    mask: u32,
)
    requires
        call_ensures(WaveFormat::as_waveformatex_ptr, (&format,), &head),
        call_ensures(WaveFormat::get_blockalign, (&format,), blockalign),
        call_ensures(WaveFormat::get_avgbytespersec, (&format,), avgbytespersec),
        call_ensures(WaveFormat::get_bitspersample, (&format,), bitspersample),
        call_ensures(WaveFormat::get_validbitspersample, (&format,), validbitspersample),
        call_ensures(WaveFormat::get_samplespersec, (&format,), samplespersec),
        call_ensures(WaveFormat::get_nchannels, (&format,), nchannels),
        call_ensures(WaveFormat::get_dwchannelmask, (&format,), mask),
    ensures
        head == format.wave_fmt.format,
        head.block_align == blockalign,
        head.avg_bytes_per_sec == avgbytespersec,
        head.bits_per_sample == bitspersample,
        head.samples_per_sec == samplespersec,
        head.channels == nchannels,
        format.wave_fmt.valid_bits_per_sample == validbitspersample,
        format.wave_fmt.channel_mask == mask,
{
}

/// `WaveFormat::get_subformat` knows exactly two sub-formats, which differ in their first part:
/// 3 for floating-point samples and 1 for integers. Any other it names in its error.
pub proof fn law_subformat_is_read_from_its_parts(
    format: WaveFormat,
    r: Result<SampleType, WasapiError>,
)
    requires
        call_ensures(WaveFormat::get_subformat, (&format,), r),
    ensures
        ({
            let id = format.wave_fmt.sub_format;
            let from_tag = id.data2 == 0 && id.data3 == 0x0010 && id.data4
                == 0x8000_00AA_0038_9B71;
            &&& r == Ok::<SampleType, WasapiError>(SampleType::Float) <==> from_tag && id.data1 == 3
            &&& r == Ok::<SampleType, WasapiError>(SampleType::Int) <==> from_tag && id.data1 == 1
            &&& r matches Err(e) ==> e@ == "Unknown subformat "@ + id.notation()
        }),
{
    let id = format.wave_fmt.sub_format;
    if id.data2 == 0 && id.data3 == 0x0010 && id.data4 == 0x8000_00AA_0038_9B71 {
        if id.data1 == 3 {
            assert(id == sub_format_of(SampleType::Float));
        }
        if id.data1 == 1 {
            assert(id == sub_format_of(SampleType::Int));
        }
    }
}

/// What `WaveFormat::from_waveformatex` returns: an error exactly if the tag is neither that of
/// integers nor that of floating-point samples. The format it returns has the channels and the
/// rate of the basic descriptor, the bits that a frame has for each channel, the frame that is
/// made of those, and as valid bits the bits per sample. Its sub-format has the tag as its first
/// part, and its mask has a bit for each of the channels and for no other speaker.
pub proof fn law_conversion_fills_the_fields(
    w: WaveFormatEx,
    r: Result<WaveFormat, WasapiError>,
    speaker: u32,
)
    requires
        call_ensures(WaveFormat::from_waveformatex, (w,), r),
        speaker < 32,
    ensures
        r is Ok <==> w.format_tag == 1 || w.format_tag == 3,
        r matches Err(e) ==> e@ == "Unsupported format"@,
        0 < w.channels <= 32 ==> (r matches Ok(f) ==> {
            let bits = 8 * w.block_align as int / w.channels as int;
            let frame = w.channels * bits / 8;
            &&& f.wave_fmt.format.format_tag == 65534
            &&& f.wave_fmt.format.cb_size == 22
            &&& f.wave_fmt.format.channels == w.channels
            &&& f.wave_fmt.format.samples_per_sec == w.samples_per_sec
            &&& f.wave_fmt.format.bits_per_sample == bits % 0x1_0000
            &&& f.wave_fmt.format.block_align == frame
            &&& f.wave_fmt.format.avg_bytes_per_sec == (w.samples_per_sec * frame) % 0x1_0000_0000
            &&& f.wave_fmt.valid_bits_per_sample == w.bits_per_sample
            &&& f.wave_fmt.sub_format.data1 == w.format_tag
            &&& f.wave_fmt.sub_format.data2 == 0
            &&& f.wave_fmt.sub_format.data3 == 0x0010
            &&& f.wave_fmt.sub_format.data4 == 0x8000_00AA_0038_9B71
            &&& (f.wave_fmt.channel_mask >> speaker) & 1 == 1 <==> speaker < w.channels
        }),
{
    if 0 < w.channels <= 32 {
        lemma_rounded_frame(w.block_align as int, w.channels as int);
        law_converted_mask_has_one_bit_per_channel(w, speaker);
    }
}

/// The mask of a converted descriptor has a bit for each of its channels and for no other
/// speaker.
pub proof fn law_converted_mask_has_one_bit_per_channel(w: WaveFormatEx, speaker: u32)
    requires
        w.channels <= 32,
        speaker < 32,
    ensures
        (w.converted().channel_mask >> speaker) & 1 == 1 <==> speaker < w.channels,
{
    law_mask_has_one_bit_per_channel(
        w.store_bits(),
        w.bits_per_sample as int,
        w.sample_type()->0,
        w.samples_per_sec as int,
        w.channels as nat,
        speaker,
    );
}

/// A descriptor is converted to the format that `WaveFormat::new` makes of its parameters.
pub proof fn law_conversion_is_a_new_format(
    w: WaveFormatEx,
    storebits: usize,
    sample_type: SampleType,
    converted: Result<WaveFormat, WasapiError>,
    made: WaveFormat,
)
    requires
        0 < w.channels,
        storebits == 8 * w.block_align as int / w.channels as int,
        w.format_tag == (if sample_type is Float {
            3u16
        } else {
            1u16
        }),
        call_ensures(WaveFormat::from_waveformatex, (w,), converted),
        call_ensures(
            WaveFormat::new,
            (
                storebits,
                w.bits_per_sample as usize,
                &sample_type,
                w.samples_per_sec as usize,
                w.channels as usize,
            ),
            made,
        ),
    ensures
        converted == Ok::<WaveFormat, WasapiError>(made),
{
}

/// `WaveFormatEx::is_convertible` leaves out exactly the descriptors with the tag of integers or
/// of floating-point samples that have no channel, more than 32 of them, or more bytes in a
/// second than can be counted.
pub proof fn law_convertible_unless_out_of_range(w: WaveFormatEx, r: bool)
    requires
        call_ensures(WaveFormatEx::is_convertible, (&w,), r),
    ensures
        r == w.convertible(),
        !r <==> {
            &&& w.format_tag == 1 || w.format_tag == 3
            &&& w.channels == 0 || w.channels > 32 || w.samples_per_sec * (w.channels * (8
                * w.block_align as int / w.channels as int) / 8) > usize::MAX
        },
{
}

/// The head of a descriptor asks for the whole of it exactly if it has the size and the tag of
/// an extensible one. Otherwise the tags of integers and of floating-point samples give a
/// format, the one that the head is converted to, and any other tag gives none.
pub proof fn law_header_step_follows_size_and_tag(h: WaveFormatEx)
    ensures
        WaveFormat::header_step(h) == Some(FormatStep::ReadExtensible) <==> h.cb_size == 22
            && h.format_tag == 65534,
        WaveFormat::header_step(h) matches Some(FormatStep::Ready(_)) <==> h.format_tag == 1
            || h.format_tag == 3,
        WaveFormat::header_step(h) is None <==> !(h.cb_size == 22 && h.format_tag == 65534)
            && h.format_tag != 1 && h.format_tag != 3,
{
}

/// What `WaveFormat::from_header` makes of the head of a descriptor. It is to be read as a whole
/// exactly if it has the size and the tag of an extensible one, which is what
/// `WaveFormatEx::is_extended` tells. Any other head gives what `WaveFormat::from_waveformatex`
/// makes of it, and its error.
pub proof fn law_header_is_extended_or_converted(
    h: WaveFormatEx,
    extended: bool,
    r: Result<FormatStep, WasapiError>,
    converted: Result<WaveFormat, WasapiError>,
)
    requires
        call_ensures(WaveFormatEx::is_extended, (&h,), extended),
        call_ensures(WaveFormat::from_header, (h,), r),
        call_ensures(WaveFormat::from_waveformatex, (h,), converted),
    ensures
        extended <==> h.cb_size == 22 && h.format_tag == 65534,
        r == Ok::<FormatStep, WasapiError>(FormatStep::ReadExtensible) <==> extended,
        !extended ==> match converted {
            Ok(f) => r == Ok::<FormatStep, WasapiError>(FormatStep::Ready(f)),
            Err(e) => r matches Err(e2) && e2@ == e@ && e@ == "Unsupported format"@,
        },
{
}

/// A descriptor that was read as a whole is kept in every field.
pub proof fn law_extensible_is_kept(wave_fmt: WaveFormatExtensible, r: WaveFormat)
    requires
        call_ensures(WaveFormat::from_extensible, (wave_fmt,), r),
    ensures
        r.wave_fmt == wave_fmt,
        WaveFormat::of_descriptor(wave_fmt) == Some(r) <== wave_fmt.format.cb_size == 22
            && wave_fmt.format.format_tag == 65534,
{
}

/// The format tag tells integers if it is 1 and floating-point samples if it is 3.
pub proof fn law_tag_tells_the_sample_type(w: WaveFormatEx)
    ensures
        w.sample_type() == Some(SampleType::Int) <==> w.format_tag == 1,
        w.sample_type() == Some(SampleType::Float) <==> w.format_tag == 3,
{
}

/// The debug fields name the fields of the descriptor, each with its value: the numbers in
/// decimal notation and the sub-format in its usual one.
pub proof fn law_debug_fields_show_the_format(
    format: WaveFormat,
    r: Vec<(&'static str, String)>,
)
    requires
        call_ensures(WaveFormat::debug_fields, (&format,), r),
    ensures
        r@.len() == 10,
        r@[0].0@ == "nAvgBytesPerSec"@,
        r@[1].0@ == "cbSize"@,
        r@[2].0@ == "nBlockAlign"@,
        r@[3].0@ == "wBitsPerSample"@,
        r@[4].0@ == "nSamplesPerSec"@,
        r@[5].0@ == "wFormatTag"@,
        r@[6].0@ == "wValidBitsPerSample"@,
        r@[7].0@ == "SubFormat"@,
        r@[8].0@ == "nChannel"@,
        r@[9].0@ == "dwChannelMask"@,
        crate::text::decimal_value(r@[0].1@) == format.wave_fmt.format.avg_bytes_per_sec,
        crate::text::decimal_value(r@[1].1@) == format.wave_fmt.format.cb_size,
        crate::text::decimal_value(r@[2].1@) == format.wave_fmt.format.block_align,
        crate::text::decimal_value(r@[3].1@) == format.wave_fmt.format.bits_per_sample,
        crate::text::decimal_value(r@[4].1@) == format.wave_fmt.format.samples_per_sec,
        crate::text::decimal_value(r@[5].1@) == format.wave_fmt.format.format_tag,
        crate::text::decimal_value(r@[6].1@) == format.wave_fmt.valid_bits_per_sample,
        r@[7].1@ == format.wave_fmt.sub_format.notation(),
        crate::text::decimal_value(r@[8].1@) == format.wave_fmt.format.channels,
        crate::text::decimal_value(r@[9].1@) == format.wave_fmt.channel_mask,
        forall|i: int| #![trigger r@[i]]
            0 <= i < 10 && i != 7 ==> r@[i].1@ == crate::text::decimal(
                crate::text::decimal_value(r@[i].1@) as nat,
            ),
{
    let f = format.wave_fmt.format;
    let texts = format.described();
    assert(field_texts(r@).len() == r@.len());
    assert forall|i: int| #![trigger r@[i]] 0 <= i < 10 implies r@[i].0@ == texts[i].0 && r@[i].1@
        == texts[i].1 by {
        assert(field_texts(r@)[i] == (r@[i].0@, r@[i].1@));
    }
    crate::text::law_decimal_reads_back(f.avg_bytes_per_sec as nat);
    crate::text::law_decimal_reads_back(f.cb_size as nat);
    crate::text::law_decimal_reads_back(f.block_align as nat);
    crate::text::law_decimal_reads_back(f.bits_per_sample as nat);
    crate::text::law_decimal_reads_back(f.samples_per_sec as nat);
    crate::text::law_decimal_reads_back(f.format_tag as nat);
    crate::text::law_decimal_reads_back(format.wave_fmt.valid_bits_per_sample as nat);
    crate::text::law_decimal_reads_back(f.channels as nat);
    crate::text::law_decimal_reads_back(format.wave_fmt.channel_mask as nat);
}

/// Fields are joined one after the other: each as its name, a colon and its value, and with a
/// comma between what comes first and what follows.
pub proof fn law_joined_fields_follow_each_other(
    name: Seq<char>,
    value: Seq<char>,
    a: Seq<(Seq<char>, Seq<char>)>,
    b: Seq<(Seq<char>, Seq<char>)>,
)
    ensures
        joined(seq![(name, value)]) == name + ": "@ + value,
        a.len() > 0 && b.len() > 0 ==> joined(a + b) == joined(a) + ", "@ + joined(b),
        b.len() == 0 ==> joined(b) == Seq::<char>::empty(),
    decreases b.len(),
{
    let last = b.last().0 + ": "@ + b.last().1;
    if a.len() > 0 && b.len() == 1 {
        assert((a + b).drop_last() =~= a);
    } else if a.len() > 0 && b.len() > 1 {
        law_joined_fields_follow_each_other(name, value, a, b.drop_last());
        assert((a + b).drop_last() =~= a + b.drop_last());
        assert(joined(a + b) =~= joined(a) + ", "@ + joined(b));
    }
}

/// The debug output holds the debug fields in their order, between the name of the type with an
/// opening brace and a closing brace.
pub proof fn law_debug_text_joins_the_fields(
    format: WaveFormat,
    fields: Vec<(&'static str, String)>,
    r: String,
)
    requires
        call_ensures(WaveFormat::debug_fields, (&format,), fields),
        call_ensures(WaveFormat::debug_text, (&format,), r),
    ensures
        r@ == "WaveFormat { "@ + joined(field_texts(fields@)) + " }"@,
        field_texts(fields@).len() == fields@.len(),
        forall|i: int|
            0 <= i < fields@.len() ==> #[trigger] field_texts(fields@)[i] == (
                fields@[i].0@,
                fields@[i].1@,
            ),
{
}

} // verus!
