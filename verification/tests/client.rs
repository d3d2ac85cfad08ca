use wasapi::client::{
    SpaceStep, SupportStep, AUDCLNT_SHAREMODE_EXCLUSIVE, AUDCLNT_SHAREMODE_SHARED,
    AUDCLNT_STREAMFLAGS_AUTOCONVERTPCM, AUDCLNT_STREAMFLAGS_EVENTCALLBACK,
    AUDCLNT_STREAMFLAGS_LOOPBACK, AUDCLNT_STREAMFLAGS_SRC_DEFAULT_QUALITY, WAIT_OBJECT_0,
};
use wasapi::{
    AudioClient, Direction, Failure, FormatStep, Handle, SampleType, ShareMode, WaveFormat,
    WaveFormatEx,
};
use windows::Win32::Media::Audio::CoreAudio as core_audio;

fn client(direction: Direction, sharemode: Option<ShareMode>) -> AudioClient<u8> {
    AudioClient { client: 9, direction, sharemode }
}

fn cd() -> WaveFormat {
    WaveFormat::new(16, 16, &SampleType::Int, 44100, 2)
}

fn basic(tag: u16) -> WaveFormatEx {
    WaveFormatEx {
        format_tag: tag,
        channels: 2,
        samples_per_sec: 44100,
        avg_bytes_per_sec: 176400,
        block_align: 4,
        bits_per_sample: 16,
        cb_size: 0,
    }
}

#[test]
fn client_constants_agree_with_the_system() {
    assert_eq!(AUDCLNT_SHAREMODE_SHARED, core_audio::AUDCLNT_SHAREMODE_SHARED.0);
    assert_eq!(AUDCLNT_SHAREMODE_EXCLUSIVE, core_audio::AUDCLNT_SHAREMODE_EXCLUSIVE.0);
    assert_eq!(AUDCLNT_STREAMFLAGS_LOOPBACK, core_audio::AUDCLNT_STREAMFLAGS_LOOPBACK);
    assert_eq!(AUDCLNT_STREAMFLAGS_EVENTCALLBACK, core_audio::AUDCLNT_STREAMFLAGS_EVENTCALLBACK);
    assert_eq!(
        AUDCLNT_STREAMFLAGS_AUTOCONVERTPCM,
        core_audio::AUDCLNT_STREAMFLAGS_AUTOCONVERTPCM
    );
    assert_eq!(
        AUDCLNT_STREAMFLAGS_SRC_DEFAULT_QUALITY,
        core_audio::AUDCLNT_STREAMFLAGS_SRC_DEFAULT_QUALITY
    );
    assert_eq!(WAIT_OBJECT_0, windows::Win32::System::Threading::WAIT_OBJECT_0);
}

#[test]
fn playback_is_initialized() {
    let mut c = client(Direction::Render, None);
    let r = c.initialize_client(&cd(), 1000, &Direction::Render, &ShareMode::Exclusive, false);
    let r = r.unwrap();
    assert_eq!(r.mode, 1);
    assert_eq!(r.streamflags, 0x40000);
    assert_eq!(r.buffer_duration, 1000);
    assert_eq!(r.periodicity, 1000);
    assert!(r.format == cd());
    assert_eq!(c.sharemode, Some(ShareMode::Exclusive));
    assert_eq!(c.client, 9);
    assert_eq!(c.direction, Direction::Render);
}

#[test]
fn conversion_adds_its_flags() {
    let mut c = client(Direction::Capture, None);
    let r = c.initialize_client(&cd(), 5, &Direction::Capture, &ShareMode::Shared, true).unwrap();
    assert_eq!(r.mode, 0);
    assert_eq!(r.streamflags, 0x8804_0000);
    assert_eq!(c.sharemode, Some(ShareMode::Shared));
}

#[test]
fn loopback_is_shared() {
    let mut c = client(Direction::Render, None);
    let r = c.initialize_client(&cd(), 5, &Direction::Capture, &ShareMode::Shared, false).unwrap();
    assert_eq!(r.streamflags, 0x60000);
    let r = c.initialize_client(&cd(), 5, &Direction::Capture, &ShareMode::Shared, true).unwrap();
    assert_eq!(r.streamflags, 0x8806_0000);
}

#[test]
fn refused_streams_leave_the_client_alone() {
    let mut c = client(Direction::Render, None);
    let e = c.initialize_client(&cd(), 5, &Direction::Capture, &ShareMode::Exclusive, false);
    assert_eq!(e.err().unwrap().description(), "Cant use Loopback with exclusive mode");
    assert!(c.sharemode.is_none());

    let mut c = client(Direction::Capture, Some(ShareMode::Shared));
    for mode in [ShareMode::Shared, ShareMode::Exclusive] {
        let e = c.initialize_client(&cd(), 5, &Direction::Render, &mode, true);
        assert_eq!(e.err().unwrap().description(), "Cant render to a capture device");
        assert_eq!(c.sharemode, Some(ShareMode::Shared));
    }
}

#[test]
fn free_space_excludes_padding_in_both_modes() {
    for mode in [ShareMode::Exclusive, ShareMode::Shared] {
        let step = client(Direction::Render, Some(mode)).get_available_space_in_frames().unwrap();
        assert!(matches!(step, SpaceStep::AskPadding));
        assert_eq!(step.padding(Err(-4)).err(), Some(-4));
        let step = step.padding::<i32>(Ok(100)).unwrap();
        assert_eq!(step.buffer_size::<i32>(Ok(480)), Ok(380));
        assert_eq!(step.buffer_size::<i32>(Ok(100)), Ok(0));
        assert_eq!(step.buffer_size(Err(-1)), Err(-1));
    }
}

#[test]
fn free_space_without_padding_is_the_buffer() {
    for mode in [ShareMode::Exclusive, ShareMode::Shared] {
        let step = client(Direction::Render, Some(mode)).get_available_space_in_frames().unwrap();
        let step = step.padding::<i32>(Ok(0)).unwrap();
        assert_eq!(step.buffer_size::<i32>(Ok(480)), Ok(480));
    }
}

#[test]
fn free_space_needs_an_initialized_client() {
    let e = client(Direction::Render, None).get_available_space_in_frames().err().unwrap();
    assert_eq!(e.description(), "Client has not been initialized");
}

#[test]
fn exclusive_format_is_supported_as_it_is() {
    let q = client(Direction::Render, None).is_supported(&cd(), &ShareMode::Exclusive);
    assert_eq!(q.mode(), 1);
    assert!(q.format == cd());
    assert!(matches!(q.answer::<i32>(Ok(false)), Ok(SupportStep::Done(None))));
    assert!(matches!(q.answer::<i32>(Ok(true)), Ok(SupportStep::Done(None))));
    assert_eq!(q.answer(Err(-8)).err(), Some(-8));
}

#[test]
fn shared_format_may_be_replaced() {
    let q = client(Direction::Render, None).is_supported(&cd(), &ShareMode::Shared);
    assert_eq!(q.mode(), 0);
    assert!(matches!(q.answer::<i32>(Ok(false)), Ok(SupportStep::Done(None))));
    assert!(matches!(q.answer::<i32>(Ok(true)), Ok(SupportStep::ReadHeader)));
    assert_eq!(q.answer(Err(-8)).err(), Some(-8));

    match q.header(basic(1)) {
        Ok(SupportStep::Done(Some(f))) => assert!(f == cd()),
        _ => panic!(),
    }
    assert_eq!(q.header(basic(2)).err().unwrap().description(), "Unsupported format");

    let other = WaveFormat::new(32, 32, &SampleType::Float, 48000, 2);
    assert!(matches!(
        q.header(*other.as_waveformatex_ptr()),
        Ok(SupportStep::ReadExtensible)
    ));
    match q.extensible(other.wave_fmt) {
        SupportStep::Done(Some(f)) => assert!(f == other),
        _ => panic!(),
    }
}

#[test]
fn mix_format_is_read_or_converted() {
    let c = client(Direction::Render, None);
    let own = *cd().as_waveformatex_ptr();
    assert!(matches!(c.get_mixformat::<i32>(Ok(own)), Ok(FormatStep::ReadExtensible)));
    assert!(WaveFormat::from_extensible(cd().wave_fmt) == cd());
    match c.get_mixformat::<i32>(Ok(basic(1))) {
        Ok(FormatStep::Ready(f)) => assert!(f == cd()),
        _ => panic!(),
    }
    match c.get_mixformat::<i32>(Ok(basic(7))) {
        Err(Failure::Wasapi(e)) => assert_eq!(e.description(), "Unsupported format"),
        _ => panic!(),
    }
    assert!(matches!(c.get_mixformat(Err(-2)), Err(Failure::System(-2))));
}

#[test]
fn services_are_wrapped() {
    let c = client(Direction::Capture, Some(ShareMode::Exclusive));
    assert_eq!(c.get_audiorenderclient::<_, i32>(Ok(Some(5u8))).ok().unwrap().client, 5);
    let capture = c.get_audiocaptureclient::<_, i32>(Ok(Some(6u8))).ok().unwrap();
    assert_eq!(capture.client, 6);
    assert_eq!(capture.sharemode, Some(ShareMode::Exclusive));
    assert_eq!(c.get_audiosessioncontrol::<_, i32>(Ok(Some(7u8))).ok().unwrap().control, 7);
}

fn text<T>(r: Result<T, Failure<i32>>) -> String {
    match r {
        Ok(_) => "ok".to_string(),
        Err(Failure::Wasapi(e)) => e.description().to_string(),
        Err(Failure::System(code)) => format!("system {}", code),
    }
}

#[test]
fn missing_services_are_reported() {
    let c = client(Direction::Capture, None);
    assert_eq!(
        text(c.get_audiorenderclient::<u8, _>(Ok(None))),
        "Failed getting IAudioCaptureClient"
    );
    assert_eq!(
        text(c.get_audiocaptureclient::<u8, _>(Ok(None))),
        "Failed getting IAudioCaptureClient"
    );
    assert_eq!(
        text(c.get_audiosessioncontrol::<u8, _>(Ok(None))),
        "Failed getting IAudioSessionControl"
    );
    assert_eq!(text(c.get_audiorenderclient::<u8, _>(Err(1))), "system 1");
    assert_eq!(text(c.get_audiocaptureclient::<u8, _>(Err(2))), "system 2");
    assert_eq!(text(c.get_audiosessioncontrol::<u8, _>(Err(3))), "system 3");
}

#[test]
fn wait_succeeds_only_when_signaled() {
    let h = Handle { handle: 1u8 };
    assert!(h.wait_for_event(0).is_ok());
    for retval in [0x80, 0x102, 0xFFFF_FFFF] {
        assert_eq!(h.wait_for_event(retval).err().unwrap().description(), "Wait timed out");
    }
}
