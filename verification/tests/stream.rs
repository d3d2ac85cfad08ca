use std::collections::VecDeque;
use wasapi::capture::{DequeRead, PacketCopy, PacketStep, ReadStep};
use wasapi::{AudioCaptureClient, AudioRenderClient, Failure, ShareMode};

fn render() -> AudioRenderClient<u8> {
    AudioRenderClient { client: 1 }
}

fn capture(sharemode: Option<ShareMode>) -> AudioCaptureClient<u8> {
    AudioCaptureClient { client: 1, sharemode }
}

#[test]
fn slice_is_written() {
    let data = [1, 2, 3, 4, 5, 6];
    let client = render();
    let write = client.write_to_device(3, 2, &data).unwrap();
    assert_eq!(write.frames, 3);
    assert_eq!(write.flags, 0);
    let mut buffer = [0u8; 6];
    write.fill(&mut buffer);
    assert_eq!(buffer, data);
}

#[test]
fn slice_must_have_the_right_length() {
    let e = render().write_to_device(3, 4, &[0; 10]).err().unwrap();
    assert_eq!(e.description(), "Wrong length of data, got 10, expected 12");
    let e = render().write_to_device(0, 4, &[0; 1]).err().unwrap();
    assert_eq!(e.description(), "Wrong length of data, got 1, expected 0");
    let e = render().write_to_device(1, 1, &[]).err().unwrap();
    assert_eq!(e.description(), "Wrong length of data, got 0, expected 1");
    assert!(render().write_to_device(0, 4, &[]).is_ok());
}

#[test]
fn frame_count_keeps_its_lowest_bits() {
    let write = render();
    let write = write.write_to_device(0x1_0000_0002, 0, &[]).unwrap();
    assert_eq!(write.frames, 2);
}

#[test]
fn deque_is_written_from_the_front() {
    let mut data: VecDeque<u8> = (1..=7).collect();
    let write = render().write_to_device_from_deque(2, 2, &data).unwrap();
    assert_eq!((write.frames, write.bytes, write.flags), (2, 4, 0));
    let mut buffer = [0u8; 4];
    write.fill(&mut buffer, &mut data);
    assert_eq!(buffer, [1, 2, 3, 4]);
    assert_eq!(data, [5, 6, 7]);
}

#[test]
fn deque_must_have_enough_data() {
    let data: VecDeque<u8> = (0..105).collect();
    let e = render().write_to_device_from_deque(53, 2, &data).err().unwrap();
    assert_eq!(e.description(), "To little data, got 105, need 106");
    assert!(render().write_to_device_from_deque(52, 2, &data).is_ok());
}

#[test]
fn writes_add_up() {
    let mut parts: VecDeque<u8> = (0..10).collect();
    let mut whole = parts.clone();
    let mut first = [0u8; 3];
    let mut second = [0u8; 4];
    let mut both = [0u8; 7];
    render().write_to_device_from_deque(3, 1, &parts).unwrap().fill(&mut first, &mut parts);
    render().write_to_device_from_deque(4, 1, &parts).unwrap().fill(&mut second, &mut parts);
    render().write_to_device_from_deque(7, 1, &whole).unwrap().fill(&mut both, &mut whole);
    assert_eq!([&first[..], &second[..]].concat(), both);
    assert_eq!(parts, whole);
}

#[test]
fn deque_keeps_the_order_from_capture_to_render() {
    let mut data: VecDeque<u8> = VecDeque::from(vec![1, 2]);
    let read = capture(None).read_from_device_to_deque::<i32>(2, Ok(2)).unwrap();
    assert_eq!(read, DequeRead { frames: 2, bytes: 4 });
    read.append(&[3, 4, 5, 6], &mut data);
    assert_eq!(data, [1, 2, 3, 4, 5, 6]);
    let mut buffer = [0u8; 5];
    render().write_to_device_from_deque(5, 1, &data).unwrap().fill(&mut buffer, &mut data);
    assert_eq!(buffer, [1, 2, 3, 4, 5]);
    assert_eq!(data, [6]);
}

#[test]
fn empty_packet_is_appended_to_a_deque() {
    let mut data: VecDeque<u8> = VecDeque::from(vec![8]);
    let read = capture(None).read_from_device_to_deque::<i32>(4, Ok(0)).unwrap();
    assert_eq!(read, DequeRead { frames: 0, bytes: 0 });
    read.append(&[], &mut data);
    assert_eq!(data, [8]);
    assert_eq!(capture(None).read_from_device_to_deque(4, Err(-1)).err(), Some(-1));
}

#[test]
fn fitting_packet_is_copied() {
    let mut data = [9u8; 7];
    let read = capture(None).read_from_device(2, &data);
    let step = read.packet::<i32>(Ok(2)).unwrap();
    assert_eq!(step, ReadStep::Copy(PacketCopy { frames: 2, bytes: 4 }));
    if let ReadStep::Copy(copy) = step {
        copy.copy(&[1, 2, 3, 4], &mut data);
    }
    assert_eq!(data, [1, 2, 3, 4, 9, 9, 9]);
    assert_eq!(step.to_release(), Some(2));
    assert!(matches!(read.released::<i32>(&step, Ok(())), Ok(2)));
    assert!(matches!(read.released(&step, Err(-6)), Err(Failure::System(-6))));
}

#[test]
fn packet_may_fill_the_slice() {
    let read = capture(None).read_from_device(3, &[0; 6]);
    assert_eq!(read.packet::<i32>(Ok(2)), Ok(ReadStep::Copy(PacketCopy { frames: 2, bytes: 6 })));
    assert_eq!(read.packet::<i32>(Ok(3)), Ok(ReadStep::Discard { frames: 3 }));
    let read = capture(None).read_from_device(3, &[0; 5]);
    assert_eq!(read.packet::<i32>(Ok(2)), Ok(ReadStep::Discard { frames: 2 }));
}

#[test]
fn long_packet_is_discarded() {
    let read = capture(None).read_from_device(4, &[0; 10]);
    let step = read.packet::<i32>(Ok(3)).unwrap();
    assert_eq!(step, ReadStep::Discard { frames: 3 });
    assert_eq!(step.to_release(), Some(3));
    match read.released::<i32>(&step, Ok(())) {
        Err(Failure::Wasapi(e)) => assert_eq!(
            e.description(),
            "Wrong length of data, got 2 frames, expected at least 3 frames"
        ),
        _ => panic!(),
    }
    assert!(matches!(read.released(&step, Err(-7)), Err(Failure::System(-7))));
}

#[test]
fn no_packet_reads_nothing() {
    let read = capture(None).read_from_device(4, &[]);
    let step = read.packet::<i32>(Ok(0)).unwrap();
    assert_eq!(step, ReadStep::Done(0));
    assert_eq!(step.to_release(), None);
    assert_eq!(read.packet(Err(-3)), Err(-3));
}

#[test]
fn packet_size_is_asked_for_unless_exclusive() {
    let step = capture(Some(ShareMode::Exclusive)).get_next_nbr_frames();
    assert!(matches!(step, PacketStep::Done(None)));
    for mode in [None, Some(ShareMode::Shared)] {
        let step = capture(mode).get_next_nbr_frames();
        assert!(matches!(step, PacketStep::AskPacketSize));
        assert!(matches!(step.packet_size::<i32>(Ok(12)), Ok(PacketStep::Done(Some(12)))));
        assert_eq!(step.packet_size(Err(-1)).err(), Some(-1));
    }
}
