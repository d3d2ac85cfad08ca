//! Writing to a playback device.
use crate::capture::DequeRead;
use crate::error::WasapiError;
use crate::text::two_numbers;
use std::collections::VecDeque;
use vstd::prelude::*;

verus! {

/// An IAudioRenderClient of type `R`.
#[derive(Debug)]
pub struct AudioRenderClient<R> {
    pub client: R,
}

/// A write of the bytes of a slice. Get a buffer for `frames` frames from the device, `fill` it,
/// and release it with the same number of frames and `flags`.
#[derive(Debug)]
pub struct SliceWrite<'a> {
    pub frames: u32,
    pub data: &'a [u8],
    pub flags: u32,
}

impl<'a> SliceWrite<'a> {
    /// Copies the data into the buffer of the device.
    pub fn fill(&self, buffer: &mut [u8])
        requires
            old(buffer)@.len() == self.data@.len(),
        ensures
            final(buffer)@ == self.data@,
    {
        let len = buffer.len();
        for i in 0..len
            invariant
                len == buffer@.len(),
                len == self.data@.len(),
                forall|j: int| 0 <= j < i ==> buffer@[j] == self.data@[j],
        {
            buffer[i] = self.data[i];
        }
        assert(buffer@ =~= self.data@);
    }
}

/// A write of bytes from the front of a deque. Get a buffer for `frames` frames from the device,
/// `fill` its first `bytes` bytes, and release it with the same number of frames and `flags`.
#[derive(Clone, Copy, Debug, PartialEq, Eq, Structural)]
pub struct DequeWrite {
    pub frames: u32,
    pub bytes: usize,
    pub flags: u32,
}

impl DequeWrite {
    /// What is written of a deque with the contents `data`.
    pub open spec fn written(self, data: Seq<u8>) -> Seq<u8> {
        data.take(self.bytes as int)
    }

    /// What is left in a deque that had the contents `data`.
    pub open spec fn left(self, data: Seq<u8>) -> Seq<u8> {
        data.skip(self.bytes as int)
    }

    /// Moves the first bytes of the deque into the buffer of the device.
    pub fn fill(&self, buffer: &mut [u8], data: &mut VecDeque<u8>)
        requires
            old(buffer)@.len() == self.bytes,
            self.bytes <= old(data)@.len(),
        ensures
            final(buffer)@ == self.written(old(data)@),
            final(data)@ == self.left(old(data)@),
    {
        let len = buffer.len();
        let ghost all = data@;
        for i in 0..len
            invariant
                len == buffer@.len(),
                len <= all.len(),
                data@ == all.skip(i as int),
                forall|j: int| 0 <= j < i ==> buffer@[j] == all[j],
        {
            match data.pop_front() {
                Some(element) => {
                    buffer[i] = element;
                },
                None => {},
            }
            assert(data@ =~= all.skip(i + 1));
        }
        assert(buffer@ =~= all.take(len as int));
    }
}

impl<R> AudioRenderClient<R> {
    /// Write raw bytes data to a device from a slice.
    /// The number of frames to write should first be checked with the
    /// `get_available_space_in_frames()` method on the `AudioClient`.
    pub fn write_to_device<'a>(
        &self,
        nbr_frames: usize,
        byte_per_frame: usize,
        data: &'a [u8],
    ) -> (r: Result<SliceWrite<'a>, WasapiError>)
        requires
            nbr_frames * byte_per_frame <= usize::MAX,
        ensures
            match r {
                Ok(write) => {
                    &&& nbr_frames * byte_per_frame == data@.len()
                    &&& write.frames == crate::format::low32(nbr_frames as int)
                    &&& write.data@ == data@
                    &&& write.flags == 0
                },
                Err(e) => {
                    &&& nbr_frames * byte_per_frame != data@.len()
                    &&& e@ == "Wrong length of data, got "@ + crate::text::decimal(data@.len())
                        + ", expected "@ + crate::text::decimal(
                        (nbr_frames * byte_per_frame) as nat,
                    )
                },
            },
    {
        let nbr_bytes = nbr_frames * byte_per_frame;
        if nbr_bytes != data.len() {
            let desc = two_numbers(
                "Wrong length of data, got ",
                data.len() as u64,
                ", expected ",
                nbr_bytes as u64,
            );
            return Err(WasapiError::new(desc.as_str()));
        }
        proof {
            crate::format::lemma_low_bits(nbr_frames);
        }
        Ok(SliceWrite { frames: nbr_frames as u32, data, flags: 0 })
    }

    /// Write raw bytes data to a device from a deque.
    /// The number of frames to write should first be checked with the
    /// `get_available_space_in_frames()` method on the `AudioClient`.
    pub fn write_to_device_from_deque(
        &self,
        nbr_frames: usize,
        byte_per_frame: usize,
        data: &VecDeque<u8>,
    ) -> (r: Result<DequeWrite, WasapiError>)
        requires
            nbr_frames * byte_per_frame <= usize::MAX,
        ensures
            match r {
                Ok(write) => {
                    &&& nbr_frames * byte_per_frame <= data@.len()
                    &&& write.frames == crate::format::low32(nbr_frames as int)
                    &&& write.bytes == nbr_frames * byte_per_frame
                    &&& write.flags == 0
                },
                Err(e) => {
                    &&& nbr_frames * byte_per_frame > data@.len()
                    &&& e@ == "To little data, got "@ + crate::text::decimal(data@.len())
                        + ", need "@ + crate::text::decimal((nbr_frames * byte_per_frame) as nat)
                },
            },
    {
        let nbr_bytes = nbr_frames * byte_per_frame;
        if nbr_bytes > data.len() {
            let desc = two_numbers(
                "To little data, got ",
                data.len() as u64,
                ", need ",
                nbr_bytes as u64,
            );
            return Err(WasapiError::new(desc.as_str()));
        }
        proof {
            crate::format::lemma_low_bits(nbr_frames);
        }
        Ok(DequeWrite { frames: nbr_frames as u32, bytes: nbr_bytes, flags: 0 })
    }
}

/// Bytes leave a deque in the order in which they came, and none is lost: where a packet is read
/// into a deque and bytes are then written from it, what was in the deque before and the packet
/// after it are what is written and what is left after that.
pub proof fn law_deque_is_a_queue(
    read: DequeRead,
    packet: Seq<u8>,
    before: Seq<u8>,
    write: DequeWrite,
)
    requires
        packet.len() == read.bytes,
        write.bytes <= before.len() + packet.len(),
    ensures
        ({
            let data = read.appended(before, packet);
            &&& write.written(data) + write.left(data) == before + packet
            &&& write.bytes <= before.len() ==> write.written(data) == write.written(before)
            &&& write.bytes >= before.len() ==> write.written(data) == before + packet.take(
                write.bytes - before.len(),
            )
        }),
{
    let data = read.appended(before, packet);
    let bytes = write.bytes as int;
    assert(write.written(data) + write.left(data) =~= before + packet);
    if bytes <= before.len() {
        assert(write.written(data) =~= write.written(before));
    }
    if bytes >= before.len() {
        assert(write.written(data) =~= before + packet.take(bytes - before.len()));
    }
}

/// Two writes from a deque write what one write of both their lengths does, and leave the same.
pub proof fn law_writes_add_up(
    data: Seq<u8>,
    first: DequeWrite,
    second: DequeWrite,
    both: DequeWrite,
)
    requires
        both.bytes == first.bytes + second.bytes,
        both.bytes <= data.len(),
    ensures
        first.written(data) + second.written(first.left(data)) == both.written(data),
        second.left(first.left(data)) == both.left(data),
{
    assert(first.written(data) + second.written(first.left(data)) =~= both.written(data));
    assert(second.left(first.left(data)) =~= both.left(data));
}

/// What is written from a deque and what is left in it make up its contents, and as many bytes
/// are written as the write asks for.
pub proof fn law_write_takes_from_the_front(write: DequeWrite, data: Seq<u8>)
    requires
        write.bytes <= data.len(),
    ensures
        write.written(data).len() == write.bytes,
        write.written(data) + write.left(data) == data,
{
    assert(write.written(data) + write.left(data) =~= data);
}

/// A write from a slice is made exactly if the slice has the bytes of all the frames. It hands
/// the slice on as it is, with the number of frames up to a multiple of what the system can tell
/// apart. Otherwise the error names the bytes that came and those that were expected.
pub proof fn law_slice_is_written_if_its_length_is_right<R>(
    client: AudioRenderClient<R>,
    nbr_frames: usize,
    byte_per_frame: usize,
    data: &[u8],
    r: Result<SliceWrite, WasapiError>,
)
    requires
        call_ensures(
            AudioRenderClient::<R>::write_to_device,
            (&client, nbr_frames, byte_per_frame, data),
            r,
        ),
    ensures
        r is Ok <==> data@.len() == nbr_frames * byte_per_frame,
        r matches Ok(write) ==> {
            &&& write.data@ == data@
            &&& write.flags == 0
            &&& (nbr_frames - write.frames) % 0x1_0000_0000 == 0
            &&& nbr_frames <= u32::MAX ==> write.frames == nbr_frames
        },
        r matches Err(e) ==> exists|got: Seq<char>, expected: Seq<char>|
            #![trigger crate::text::decimal_value(got), crate::text::decimal_value(expected)]
            {
                &&& e@ == "Wrong length of data, got "@ + got + ", expected "@ + expected
                &&& crate::text::decimal_value(got) == data@.len()
                &&& crate::text::decimal_value(expected) == nbr_frames * byte_per_frame
                &&& got == crate::text::decimal(data@.len())
                &&& expected == crate::text::decimal((nbr_frames * byte_per_frame) as nat)
            },
{
    if r is Err {
        assert(0 <= nbr_frames * byte_per_frame) by (nonlinear_arith);
        let need = (nbr_frames * byte_per_frame) as nat;
        crate::text::law_decimal_reads_back(data@.len());
        crate::text::law_decimal_reads_back(need);
        assert(crate::text::decimal_value(crate::text::decimal(data@.len())) == data@.len());
        assert(crate::text::decimal_value(crate::text::decimal(need)) == need);
    }
}

/// A write from a deque is made exactly if the deque has at least the bytes of all the frames,
/// and takes that many bytes. Otherwise the error names the bytes that there are and those that
/// are needed.
pub proof fn law_deque_is_written_if_it_has_enough<R>(
    client: AudioRenderClient<R>,
    nbr_frames: usize,
    byte_per_frame: usize,
    data: VecDeque<u8>,
    r: Result<DequeWrite, WasapiError>,
)
    requires
        call_ensures(
            AudioRenderClient::<R>::write_to_device_from_deque,
            (&client, nbr_frames, byte_per_frame, &data),
            r,
        ),
    ensures
        r is Ok <==> nbr_frames * byte_per_frame <= data@.len(),
        r matches Ok(write) ==> {
            &&& write.bytes == nbr_frames * byte_per_frame
            &&& write.flags == 0
            &&& (nbr_frames - write.frames) % 0x1_0000_0000 == 0
            &&& nbr_frames <= u32::MAX ==> write.frames == nbr_frames
        },
        r matches Err(e) ==> exists|got: Seq<char>, need: Seq<char>|
            #![trigger crate::text::decimal_value(got), crate::text::decimal_value(need)]
            {
                &&& e@ == "To little data, got "@ + got + ", need "@ + need
                &&& crate::text::decimal_value(got) == data@.len()
                &&& crate::text::decimal_value(need) == nbr_frames * byte_per_frame
                &&& got == crate::text::decimal(data@.len())
                &&& need == crate::text::decimal((nbr_frames * byte_per_frame) as nat)
            },
{
    if r is Err {
        assert(0 <= nbr_frames * byte_per_frame) by (nonlinear_arith);
        let all = (nbr_frames * byte_per_frame) as nat;
        crate::text::law_decimal_reads_back(data@.len());
        crate::text::law_decimal_reads_back(all);
        assert(crate::text::decimal_value(crate::text::decimal(data@.len())) == data@.len());
        assert(crate::text::decimal_value(crate::text::decimal(all)) == all);
    }
}

/// Filling the buffer of the device: from a slice, byte by byte the same. From a deque, the
/// buffer and what is left in the deque are together what the deque held.
pub proof fn law_buffer_gets_the_data(
    from_slice: &SliceWrite,
    slice_buffer: &mut [u8],
    from_deque: DequeWrite,
    deque_buffer: &mut [u8],
    data: &mut VecDeque<u8>,
)
    requires
        old(slice_buffer)@.len() == from_slice.data@.len(),
        call_ensures(SliceWrite::fill, (from_slice, slice_buffer), ()),
        old(deque_buffer)@.len() == from_deque.bytes,
        from_deque.bytes <= old(data)@.len(),
        call_ensures(DequeWrite::fill, (&from_deque, deque_buffer, data), ()),
    ensures
        final(slice_buffer)@.len() == old(slice_buffer)@.len(),
        forall|i: int|
            0 <= i < from_slice.data@.len() ==> final(slice_buffer)@[i]
                == #[trigger] from_slice.data@[i],
        final(deque_buffer)@.len() == old(deque_buffer)@.len(),
        final(deque_buffer)@ + final(data)@ == old(data)@,
{
    law_write_takes_from_the_front(from_deque, old(data)@);
}

} // verus!
