use wasapi::format::{
    EXTENSION_SIZE, WAVE_FORMAT_EXTENSIBLE, WAVE_FORMAT_IEEE_FLOAT, WAVE_FORMAT_PCM,
};
use wasapi::guid::{ksdataformat_subtype_ieee_float, ksdataformat_subtype_pcm};
use wasapi::{FormatStep, Guid, SampleType, WaveFormat, WaveFormatEx, WaveFormatExtensible};
use windows::Win32::Media::Audio::CoreAudio as core_audio;
use windows::Win32::Media::Multimedia as multimedia;

fn basic(tag: u16, channels: u16, rate: u32, block: u16, bits: u16) -> WaveFormatEx {
    WaveFormatEx {
        format_tag: tag,
        channels,
        samples_per_sec: rate,
        avg_bytes_per_sec: rate * block as u32,
        block_align: block,
        bits_per_sample: bits,
        cb_size: 0,
    }
}

fn guid_of(id: windows::runtime::GUID) -> Guid {
    Guid {
        data1: id.data1,
        data2: id.data2,
        data3: id.data3,
        data4: u64::from_be_bytes(id.data4),
    }
}

#[test]
fn constants_agree_with_the_system() {
    assert_eq!(WAVE_FORMAT_PCM, multimedia::WAVE_FORMAT_PCM);
    assert_eq!(WAVE_FORMAT_IEEE_FLOAT, multimedia::WAVE_FORMAT_IEEE_FLOAT);
    assert_eq!(WAVE_FORMAT_EXTENSIBLE, core_audio::WAVE_FORMAT_EXTENSIBLE);
    assert_eq!(ksdataformat_subtype_pcm(), guid_of(multimedia::KSDATAFORMAT_SUBTYPE_PCM));
    assert_eq!(
        ksdataformat_subtype_ieee_float(),
        guid_of(multimedia::KSDATAFORMAT_SUBTYPE_IEEE_FLOAT)
    );
    let head = std::mem::size_of::<multimedia::WAVEFORMATEX>();
    let whole = std::mem::size_of::<multimedia::WAVEFORMATEXTENSIBLE>();
    assert_eq!(EXTENSION_SIZE as usize, whole - head);
}

#[test]
fn new_format_reads_back() {
    let f = WaveFormat::new(32, 24, &SampleType::Int, 44100, 2);
    assert_eq!(f.get_blockalign(), 8);
    assert_eq!(f.get_avgbytespersec(), 352800);
    assert_eq!(f.get_bitspersample(), 32);
    assert_eq!(f.get_validbitspersample(), 24);
    assert_eq!(f.get_samplespersec(), 44100);
    assert_eq!(f.get_nchannels(), 2);
    assert_eq!(f.get_dwchannelmask(), 3);
    assert!(matches!(f.get_subformat(), Ok(SampleType::Int)));
    let head = f.as_waveformatex_ptr();
    assert_eq!(head.cb_size, 22);
    assert_eq!(head.format_tag, 0xFFFE);
    assert!(head.is_extended());
}

#[test]
fn float_format_has_the_float_subformat() {
    let f = WaveFormat::new(32, 32, &SampleType::Float, 48000, 6);
    assert!(matches!(f.get_subformat(), Ok(SampleType::Float)));
    assert_eq!(f.get_blockalign(), 24);
    assert_eq!(f.get_avgbytespersec(), 1152000);
    assert_eq!(f.get_dwchannelmask(), 0b111111);
}

#[test]
fn frame_is_rounded_down_to_whole_bytes() {
    let f = WaveFormat::new(12, 12, &SampleType::Int, 8000, 1);
    assert_eq!(f.get_blockalign(), 1);
    assert_eq!(f.get_avgbytespersec(), 8000);
}

#[test]
fn mask_for_no_channel_and_for_all() {
    assert_eq!(WaveFormat::new(16, 16, &SampleType::Int, 44100, 0).get_dwchannelmask(), 0);
    assert_eq!(
        WaveFormat::new(16, 16, &SampleType::Int, 44100, 32).get_dwchannelmask(),
        0xFFFF_FFFF
    );
    let mask = WaveFormat::new(16, 16, &SampleType::Int, 44100, 5).get_dwchannelmask();
    for speaker in 0..32u32 {
        assert_eq!((mask >> speaker) & 1 == 1, speaker < 5);
    }
}

#[test]
fn narrow_fields_keep_the_lowest_bits() {
    let f = WaveFormat::new(0x1_0010, 0x1_0018, &SampleType::Int, 0x1_0000_AC44, 1);
    assert_eq!(f.get_bitspersample(), 0x10);
    assert_eq!(f.get_validbitspersample(), 0x18);
    assert_eq!(f.get_samplespersec(), 44100);
    assert_eq!(f.get_blockalign(), 0x2002);
    let rate = 0x1_0000_AC44usize * 0x2002;
    assert_eq!(f.get_avgbytespersec() as usize, rate % 0x1_0000_0000);
}

#[test]
fn integer_descriptor_is_converted() {
    let w = basic(1, 2, 44100, 8, 24);
    assert!(w.is_convertible());
    let f = WaveFormat::from_waveformatex(w).unwrap();
    assert!(matches!(f.get_subformat(), Ok(SampleType::Int)));
    assert_eq!(f.get_bitspersample(), 32);
    assert_eq!(f.get_validbitspersample(), 24);
    assert_eq!(f.get_blockalign(), 8);
    assert_eq!(f.get_nchannels(), 2);
    assert_eq!(f.get_samplespersec(), 44100);
    assert_eq!(f.get_avgbytespersec(), 352800);
    assert!(f.as_waveformatex_ptr().is_extended());
}

#[test]
fn float_descriptor_is_converted() {
    let f = WaveFormat::from_waveformatex(basic(3, 1, 48000, 4, 32)).unwrap();
    assert!(matches!(f.get_subformat(), Ok(SampleType::Float)));
    assert!(f == WaveFormat::new(32, 32, &SampleType::Float, 48000, 1));
}

#[test]
fn uneven_frame_is_cut() {
    let f = WaveFormat::from_waveformatex(basic(1, 3, 44100, 4, 8)).unwrap();
    assert_eq!(f.get_bitspersample(), 10);
    assert_eq!(f.get_blockalign(), 3);
}

#[test]
fn other_tags_are_not_converted() {
    let w = basic(6, 0, 8000, 1, 8);
    assert!(w.is_convertible());
    let e = WaveFormat::from_waveformatex(w).err().unwrap();
    assert_eq!(e.description(), "Unsupported format");
    let own = WaveFormat::new(16, 16, &SampleType::Int, 44100, 2);
    let head = *own.as_waveformatex_ptr();
    assert!(WaveFormat::from_waveformatex(head).is_err());
}

#[test]
fn convertible_needs_one_to_32_channels() {
    assert!(!basic(1, 0, 44100, 4, 16).is_convertible());
    assert!(basic(1, 32, 44100, 64, 16).is_convertible());
    assert!(!basic(1, 33, 44100, 66, 16).is_convertible());
    assert!(!basic(3, 0, 44100, 4, 32).is_convertible());
}

#[test]
fn head_decides_how_to_go_on() {
    let own = WaveFormat::new(16, 16, &SampleType::Int, 44100, 2);
    let step = WaveFormat::from_header(*own.as_waveformatex_ptr());
    assert!(matches!(step, Ok(FormatStep::ReadExtensible)));

    match WaveFormat::from_header(basic(1, 2, 44100, 4, 16)) {
        Ok(FormatStep::Ready(f)) => assert!(f == own),
        _ => panic!(),
    }

    let mut odd = *own.as_waveformatex_ptr();
    odd.cb_size = 24;
    let e = WaveFormat::from_header(odd).err().unwrap();
    assert_eq!(e.description(), "Unsupported format");
}

#[test]
fn unknown_subformat_is_named() {
    let mut wave_fmt: WaveFormatExtensible =
        WaveFormat::new(16, 16, &SampleType::Int, 44100, 2).wave_fmt;
    wave_fmt.sub_format =
        Guid { data1: 0xDEADBEEF, data2: 0x0102, data3: 0xA0B, data4: 0x0123_4567_89AB_CDEF };
    let e = WaveFormat { wave_fmt }.get_subformat().err().unwrap();
    assert_eq!(e.description(), "Unknown subformat DEADBEEF-0102-0A0B-0123-456789ABCDEF");
}

#[test]
fn debug_output_shows_all_fields() {
    let f = WaveFormat::new(16, 16, &SampleType::Int, 44100, 2);
    assert_eq!(
        f.debug_text(),
        "WaveFormat { nAvgBytesPerSec: 176400, cbSize: 22, nBlockAlign: 4, wBitsPerSample: 16, \
         nSamplesPerSec: 44100, wFormatTag: 65534, wValidBitsPerSample: 16, \
         SubFormat: 00000001-0000-0010-8000-00AA00389B71, nChannel: 2, dwChannelMask: 3 }"
    );
    let fields = f.debug_fields();
    assert_eq!(fields.len(), 10);
    assert_eq!(fields[0].0, "nAvgBytesPerSec");
    assert_eq!(fields[9].1, "3");
}
