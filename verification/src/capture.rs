//! Reading from a capture device.
use crate::client::ShareMode;
use crate::error::{Failure, WasapiError, WasapiRes};
use crate::text::two_numbers;
use std::collections::VecDeque;
use vstd::prelude::*;

verus! {

/// An IAudioCaptureClient of type `C`, with the share mode of the client that it came from.
#[derive(Debug)]
pub struct AudioCaptureClient<C> {
    pub client: C,
    pub sharemode: Option<ShareMode>,
}

/// Where a query for the frames in the next packet stands.
#[derive(Clone, Copy, Debug)]
pub enum PacketStep {
    /// The answer, `None` if the share mode has no packets.
    Done(Option<u32>),
    /// Ask for the size of the next packet.
    AskPacketSize,
}

impl PacketStep {
    /// Takes the size of the next packet.
    pub fn packet_size<E>(&self, size: Result<u32, E>) -> (r: Result<PacketStep, E>)
        requires
            self is AskPacketSize,
        ensures
            match size {
                Ok(frames) => r == Ok::<PacketStep, E>(PacketStep::Done(Some(frames))),
                Err(e) => r == Err::<PacketStep, E>(e),
            },
    {
        match size {
            Ok(frames) => Ok(PacketStep::Done(Some(frames))),
            Err(e) => Err(e),
        }
    }
}

/// A read into a slice. Get a packet from the device and hand its number of frames to `packet`.
#[derive(Clone, Copy, Debug, PartialEq, Eq, Structural)]
pub struct SliceRead {
    pub bytes_per_frame: usize,
    /// The number of bytes in the slice.
    pub room: usize,
}

/// What is to be done with a packet.
#[derive(Clone, Copy, Debug, PartialEq, Eq, Structural)]
pub enum ReadStep {
    /// The read ends with this number of frames, and nothing is to be released.
    Done(u32),
    /// The slice is too short: release the packet of this many frames.
    Discard { frames: u32 },
    /// Copy the packet, and release its frames.
    Copy(PacketCopy),
}

impl ReadStep {
    /// The number of frames to release, if there is anything to release.
    pub open spec fn held(self) -> Option<u32> {
        match self {
            ReadStep::Done(_) => None,
            ReadStep::Discard { frames } => Some(frames),
            ReadStep::Copy(copy) => Some(copy.frames),
        }
    }

    /// The number of frames to release before the read ends, `None` if it has ended.
    pub fn to_release(&self) -> (r: Option<u32>)
        ensures
            r == self.held(),
    {
        match self {
            ReadStep::Done(_) => None,
            ReadStep::Discard { frames } => Some(*frames),
            ReadStep::Copy(copy) => Some(copy.frames),
        }
    }
}

/// A packet to be copied to the front of a slice.
#[derive(Clone, Copy, Debug, PartialEq, Eq, Structural)]
pub struct PacketCopy {
    pub frames: u32,
    pub bytes: usize,
}

impl SliceRead {
    /// A frame has at least a byte.
    pub open spec fn valid(self) -> bool {
        self.bytes_per_frame > 0
    }

    /// The number of whole frames that the slice holds.
    pub open spec fn capacity(self) -> int {
        self.room as int / self.bytes_per_frame as int
    }

    /// What is to be done with a packet of `frames` frames.
    pub open spec fn plan(self, frames: u32) -> ReadStep {
        if frames == 0 {
            ReadStep::Done(0)
        } else if self.capacity() < frames {
            ReadStep::Discard { frames }
        } else {
            ReadStep::Copy(
                PacketCopy { frames, bytes: (frames * self.bytes_per_frame) as usize },
            )
        }
    }

    /// Takes the number of frames of the packet that the device gave.
    pub fn packet<E>(&self, frames: Result<u32, E>) -> (r: Result<ReadStep, E>)
        requires
            self.valid(),
        ensures
            match frames {
                Ok(frames) => {
                    &&& r == Ok::<ReadStep, E>(self.plan(frames))
                    &&& self.plan(frames) matches ReadStep::Copy(copy) ==> {
                        &&& copy.bytes == frames * self.bytes_per_frame
                        &&& copy.bytes <= self.room
                    }
                },
                Err(e) => r == Err::<ReadStep, E>(e),
            },
    {
        match frames {
            Ok(frames) => {
                if frames == 0 {
                    return Ok(ReadStep::Done(0));
                }
                let data_len_in_frames = self.room / self.bytes_per_frame;
                if (data_len_in_frames as u64) < frames as u64 {
                    return Ok(ReadStep::Discard { frames });
                }
                proof {
                    lemma_frames_fit(frames as int, self.bytes_per_frame as int, self.room as int);
                }
                let bytes = frames as usize * self.bytes_per_frame;
                Ok(ReadStep::Copy(PacketCopy { frames, bytes }))
            },
            Err(e) => Err(e),
        }
    }

    /// Ends the read after the packet was released: with the number of frames read, or with the
    /// error that the slice is too short. An error of the release comes first.
    pub fn released<E>(&self, step: &ReadStep, released: Result<(), E>) -> (r: WasapiRes<u32, E>)
        requires
            self.valid(),
            step.held() is Some,
        ensures
            match released {
                Ok(_) => match *step {
                    ReadStep::Copy(copy) => r == Ok::<u32, Failure<E>>(copy.frames),
                    ReadStep::Discard { frames } => r matches Err(e) && e.says(
                        "Wrong length of data, got "@ + crate::text::decimal(
                            self.capacity() as nat,
                        ) + " frames, expected at least "@ + crate::text::decimal(frames as nat)
                            + " frames"@,
                    ),
                    ReadStep::Done(_) => true,
                },
                Err(e) => r == Err::<u32, Failure<E>>(Failure::System(e)),
            },
    {
        match released {
            Ok(_) => match step {
                ReadStep::Copy(copy) => Ok(copy.frames),
                ReadStep::Discard { frames } => {
                    let mut desc = two_numbers(
                        "Wrong length of data, got ",
                        (self.room / self.bytes_per_frame) as u64,
                        " frames, expected at least ",
                        *frames as u64,
                    );
                    desc.append(" frames");
                    Err(Failure::Wasapi(WasapiError::new(desc.as_str())))
                },
                ReadStep::Done(frames) => Ok(*frames),
            },
            Err(e) => Err(Failure::System(e)),
        }
    }
}

/// As many frames as a slice holds have no more bytes than the slice.
proof fn lemma_frames_fit(frames: int, bytes_per_frame: int, room: int)
    requires
        0 <= frames <= room / bytes_per_frame,
        0 < bytes_per_frame,
        0 <= room,
    ensures
        0 <= frames * bytes_per_frame <= room,
{
    assert(0 <= frames * bytes_per_frame <= room) by (nonlinear_arith)
        requires
            0 <= frames <= room / bytes_per_frame,
            0 < bytes_per_frame,
            0 <= room,
    ;
}

/// The contents of a slice after a packet was copied to its front.
pub open spec fn with_packet(data: Seq<u8>, packet: Seq<u8>) -> Seq<u8> {
    packet + data.skip(packet.len() as int)
}

impl PacketCopy {
    /// Copies the packet to the front of a slice. If the slice is longer than needed, the unused
    /// elements will not be modified.
    pub fn copy(&self, packet: &[u8], data: &mut [u8])
        requires
            packet@.len() == self.bytes,
            self.bytes <= old(data)@.len(),
        ensures
            final(data)@ == with_packet(old(data)@, packet@),
    {
        let ghost before = data@;
        for i in 0..self.bytes
            invariant
                self.bytes == packet@.len(),
                self.bytes <= before.len(),
                data@.len() == before.len(),
                forall|j: int| 0 <= j < i ==> data@[j] == packet@[j],
                forall|j: int| i <= j < before.len() ==> data@[j] == before[j],
        {
            data[i] = packet[i];
        }
        assert(data@ =~= with_packet(before, packet@));
    }
}

/// A read into a deque: append the packet, `bytes` long, and release its frames.
#[derive(Clone, Copy, Debug, PartialEq, Eq, Structural)]
pub struct DequeRead {
    pub frames: u32,
    pub bytes: usize,
}

impl DequeRead {
    /// The contents of a deque that held `data` after the packet was read into it.
    pub open spec fn appended(self, data: Seq<u8>, packet: Seq<u8>) -> Seq<u8> {
        data + packet
    }

    /// Appends the packet to a deque.
    pub fn append(&self, packet: &[u8], data: &mut VecDeque<u8>)
        requires
            packet@.len() == self.bytes,
        ensures
            final(data)@ == self.appended(old(data)@, packet@),
    {
        let ghost before = data@;
        for i in 0..self.bytes
            invariant
                self.bytes == packet@.len(),
                data@ == before + packet@.take(i as int),
        {
            data.push_back(packet[i]);
            assert(data@ =~= before + packet@.take(i + 1));
        }
        assert(packet@.take(self.bytes as int) =~= packet@);
    }
}

impl<C> AudioCaptureClient<C> {
    /// Get number of frames in next packet when in shared mode.
    /// In exclusive mode the answer is None, instead use `get_bufferframecount()` on the
    /// AudioClient.
    pub fn get_next_nbr_frames(&self) -> (r: PacketStep)
        ensures
            r == (if self.sharemode == Some(ShareMode::Exclusive) {
                PacketStep::Done(None)
            } else {
                PacketStep::AskPacketSize
            }),
    {
        match self.sharemode {
            Some(ShareMode::Exclusive) => PacketStep::Done(None),
            _ => PacketStep::AskPacketSize,
        }
    }

    /// Read raw bytes from a device into a slice, to learn the number of frames read.
    /// The slice must be large enough to hold all data.
    /// If it is longer than needed, the unused elements will not be modified.
    pub fn read_from_device(&self, bytes_per_frame: usize, data: &[u8]) -> (r: SliceRead)
        requires
            bytes_per_frame > 0,
        ensures
            r.bytes_per_frame == bytes_per_frame,
            r.room == data@.len(),
            r.valid(),
    {
        SliceRead { bytes_per_frame, room: data.len() }
    }

    /// Read raw bytes data from a device into a deque, given the number of frames of the packet
    /// that the device gave.
    pub fn read_from_device_to_deque<E>(
        &self,
        bytes_per_frame: usize,
        frames: Result<u32, E>,
    ) -> (r: Result<DequeRead, E>)
        requires
            frames matches Ok(n) ==> n * bytes_per_frame <= usize::MAX,
        ensures
            match frames {
                Ok(n) => r matches Ok(read) && read.frames == n && read.bytes == n
                    * bytes_per_frame,
                Err(e) => r == Err::<DequeRead, E>(e),
            },
    {
        match frames {
            Ok(frames) => Ok(DequeRead { frames, bytes: frames as usize * bytes_per_frame }),
            Err(e) => Err(e),
        }
    }
}

/// A packet is copied exactly if it has frames and its bytes fit into the slice. It is discarded
/// exactly if they do not fit.
pub proof fn law_packet_is_copied_if_it_fits(read: SliceRead, frames: u32)
    requires
        read.valid(),
    ensures
        read.plan(frames) is Done <==> frames == 0,
        read.plan(frames) is Copy <==> frames > 0 && frames * read.bytes_per_frame <= read.room,
        read.plan(frames) is Discard <==> frames * read.bytes_per_frame > read.room,
        read.plan(frames) matches ReadStep::Copy(copy) ==> copy == (PacketCopy {
            frames,
            bytes: (frames * read.bytes_per_frame) as usize,
        }),
{
    let room = read.room as int;
    let per_frame = read.bytes_per_frame as int;
    let n = frames as int;
    assert(n * per_frame <= room <==> n <= room / per_frame) by (nonlinear_arith)
        requires
            0 < per_frame,
            0 <= n,
            0 <= room,
    ;
    if n == 0 {
        assert(n * per_frame == 0) by (nonlinear_arith)
            requires
                n == 0,
        ;
    }
}

/// Every packet that the device gave is released as a whole, whether it is copied or not. Only
/// where there was no packet is nothing released, and nothing read.
pub proof fn law_every_packet_is_released(read: SliceRead, frames: u32)
    ensures
        frames > 0 ==> read.plan(frames).held() == Some(frames),
        frames == 0 ==> read.plan(frames).held() is None && read.plan(frames) == ReadStep::Done(0),
{
}

/// A copied packet stands at the front of the slice. The slice keeps its length, and what is
/// behind the packet is as it was.
pub proof fn law_copied_packet_reads_back(data: Seq<u8>, packet: Seq<u8>)
    requires
        packet.len() <= data.len(),
    ensures
        with_packet(data, packet).len() == data.len(),
        with_packet(data, packet).take(packet.len() as int) == packet,
        with_packet(data, packet).skip(packet.len() as int) == data.skip(packet.len() as int),
{
    assert(with_packet(data, packet).take(packet.len() as int) =~= packet);
    assert(with_packet(data, packet).skip(packet.len() as int) =~= data.skip(packet.len() as int));
}

/// The frames that a slice holds are as many whole ones as fit into it.
pub proof fn law_capacity_is_all_that_fits(read: SliceRead)
    requires
        read.bytes_per_frame > 0,
    ensures
        read.valid(),
        0 <= read.capacity(),
        read.capacity() * read.bytes_per_frame <= read.room,
        read.room < (read.capacity() + 1) * read.bytes_per_frame,
{
    let room = read.room as int;
    let per_frame = read.bytes_per_frame as int;
    assert(0 <= room / per_frame && (room / per_frame) * per_frame <= room && room < (room
        / per_frame + 1) * per_frame) by (nonlinear_arith)
        requires
            0 < per_frame,
            0 <= room,
    ;
}

/// The number of frames in the next packet is asked for unless the stream is exclusive, also
/// before the share mode is known. The answer of the system is the answer, and so is its error.
pub proof fn law_packets_are_counted_unless_exclusive<C, E>(
    client: AudioCaptureClient<C>,
    first: PacketStep,
    size: Result<u32, E>,
    r: Result<PacketStep, E>,
)
    requires
        call_ensures(AudioCaptureClient::<C>::get_next_nbr_frames, (&client,), first),
        call_ensures(PacketStep::packet_size::<E>, (&first, size), r),
    ensures
        first == PacketStep::Done(None) <==> client.sharemode == Some(ShareMode::Exclusive),
        first is AskPacketSize <==> client.sharemode is None || client.sharemode == Some(
            ShareMode::Shared,
        ),
        match size {
            Ok(frames) => r == Ok::<PacketStep, E>(PacketStep::Done(Some(frames))),
            Err(e) => r == Err::<PacketStep, E>(e),
        },
{
    if let Some(mode) = client.sharemode {
        assert(mode is Shared || mode is Exclusive);
    }
}

/// A whole read into a slice, step by step. An error of the system ends it as it came. A packet
/// without frames ends it with 0, and nothing is released. Otherwise all frames of the packet are
/// released. If its bytes fit into the slice they are copied, and the read ends with the number
/// of its frames; if not, it ends with an error that names the frames that the slice holds and
/// those of the packet.
pub proof fn law_slice_read_from_start_to_end<C, E>(
    client: AudioCaptureClient<C>,
    bytes_per_frame: usize,
    data: &[u8],
    read: SliceRead,
    frames: Result<u32, E>,
    step: Result<ReadStep, E>,
    to_release: Option<u32>,
    released: Result<(), E>,
    r: WasapiRes<u32, E>,
)
    requires
        bytes_per_frame > 0,
        call_ensures(
            AudioCaptureClient::<C>::read_from_device,
            (&client, bytes_per_frame, data),
            read,
        ),
        call_ensures(SliceRead::packet::<E>, (&read, frames), step),
        step matches Ok(s) ==> call_ensures(ReadStep::to_release, (&s,), to_release),
        step matches Ok(s) ==> call_ensures(SliceRead::released::<E>, (&read, &s, released), r),
    ensures
        read.bytes_per_frame == bytes_per_frame,
        read.room == data@.len(),
        match frames {
            Err(e) => step == Err::<ReadStep, E>(e),
            Ok(n) => {
                let whole = data@.len() as int / bytes_per_frame as int;
                &&& step is Ok
                &&& n == 0 ==> to_release is None && step->Ok_0 == ReadStep::Done(0)
                &&& n > 0 ==> to_release == Some(n)
                &&& n > 0 && n * bytes_per_frame <= data@.len() ==> {
                    &&& step->Ok_0 matches ReadStep::Copy(copy) && copy.bytes == n
                        * bytes_per_frame
                    &&& released is Ok ==> r == Ok::<u32, Failure<E>>(n)
                }
                &&& n * bytes_per_frame > data@.len() ==> {
                    &&& step->Ok_0 is Discard
                    &&& released is Ok ==> (r matches Err(Failure::Wasapi(e)) && e@
                        == "Wrong length of data, got "@ + crate::text::decimal(whole as nat)
                        + " frames, expected at least "@ + crate::text::decimal(n as nat)
                        + " frames"@)
                }
                &&& released matches Err(e) ==> r == Err::<u32, Failure<E>>(Failure::System(e))
            },
        },
{
    if let Ok(n) = frames {
        law_packet_is_copied_if_it_fits(read, n);
        law_every_packet_is_released(read, n);
        if n == 0 {
            assert(n * bytes_per_frame == 0) by (nonlinear_arith)
                requires
                    n == 0,
            ;
        }
        assert(0 <= n * bytes_per_frame) by (nonlinear_arith);
    }
}

/// A copied packet stands byte by byte at the front of the slice, which is as it was behind it.
pub proof fn law_copy_changes_the_front_only(
    copy: PacketCopy,
    packet: &[u8],
    data: &mut [u8],
)
    requires
        packet@.len() == copy.bytes,
        copy.bytes <= old(data)@.len(),
        call_ensures(PacketCopy::copy, (&copy, packet, data), ()),
    ensures
        final(data)@.len() == old(data)@.len(),
        forall|i: int|
            0 <= i < old(data)@.len() ==> #[trigger] final(data)@[i] == (if i < copy.bytes {
                packet@[i]
            } else {
                old(data)@[i]
            }),
{
}

/// A packet that is read into a deque has the bytes of all its frames, and stands behind what the
/// deque held. An error of the system ends the read as it came.
pub proof fn law_deque_read_appends_the_packet<C, E>(
    client: AudioCaptureClient<C>,
    bytes_per_frame: usize,
    frames: Result<u32, E>,
    read: Result<DequeRead, E>,
    packet: &[u8],
    data: &mut VecDeque<u8>,
)
    requires
        call_ensures(
            AudioCaptureClient::<C>::read_from_device_to_deque::<E>,
            (&client, bytes_per_frame, frames),
            read,
        ),
        read matches Ok(d) ==> packet@.len() == d.bytes && call_ensures(
            DequeRead::append,
            (&d, packet, data),
            (),
        ),
    ensures
        match frames {
            Err(e) => read == Err::<DequeRead, E>(e),
            Ok(n) => {
                &&& read is Ok
                &&& read->Ok_0.frames == n
                &&& read->Ok_0.bytes == n * bytes_per_frame
                &&& final(data)@.len() == old(data)@.len() + n * bytes_per_frame
                &&& forall|i: int|
                    0 <= i < old(data)@.len() ==> #[trigger] final(data)@[i] == old(data)@[i]
                &&& forall|i: int|
                    0 <= i < packet@.len() ==> final(data)@[old(data)@.len() + i]
                        == #[trigger] packet@[i]
            },
        },
{
}

} // verus!
