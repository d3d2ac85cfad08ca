//! The audio client: formats, initialization, buffer space and services.
use crate::capture::AudioCaptureClient;
use crate::device::Direction;
use crate::error::{Failure, WasapiError, WasapiRes};
use crate::format::{FormatStep, WaveFormat, WaveFormatEx, WaveFormatExtensible};
use crate::render::AudioRenderClient;
use crate::session::AudioSessionControl;
use vstd::prelude::*;

verus! {

/// Share mode of a stream that is mixed with others.
pub const AUDCLNT_SHAREMODE_SHARED: i32 = 0;

/// Share mode of a stream that has the device for itself.
pub const AUDCLNT_SHAREMODE_EXCLUSIVE: i32 = 1;

/// Stream flag: capture what a playback device plays.
pub const AUDCLNT_STREAMFLAGS_LOOPBACK: u32 = 0x0002_0000;

/// Stream flag: an event is signaled when a buffer is ready.
pub const AUDCLNT_STREAMFLAGS_EVENTCALLBACK: u32 = 0x0004_0000;

/// Stream flag: a sample rate converter with better quality.
pub const AUDCLNT_STREAMFLAGS_SRC_DEFAULT_QUALITY: u32 = 0x0800_0000;

/// Stream flag: convert formats and sample rates.
pub const AUDCLNT_STREAMFLAGS_AUTOCONVERTPCM: u32 = 0x8000_0000;

/// The reply of a wait that ended because the event was signaled.
pub const WAIT_OBJECT_0: u32 = 0;

/// Sharemode for device
#[derive(Clone, Copy, Debug, PartialEq, Eq, Structural)]
pub enum ShareMode {
    Shared,
    Exclusive,
}

impl ShareMode {
    /// The number that stands for a share mode in system calls.
    pub open spec fn code(self) -> i32 {
        match self {
            ShareMode::Exclusive => AUDCLNT_SHAREMODE_EXCLUSIVE,
            ShareMode::Shared => AUDCLNT_SHAREMODE_SHARED,
        }
    }

    /// The number to name in system calls.
    pub fn mode(&self) -> (r: i32)
        ensures
            r == self.code(),
    {
        match self {
            ShareMode::Exclusive => AUDCLNT_SHAREMODE_EXCLUSIVE,
            ShareMode::Shared => AUDCLNT_SHAREMODE_SHARED,
        }
    }
}

/// An IAudioClient of type `A`, with the direction of its device and the share mode that it was
/// last initialized for.
#[derive(Debug)]
pub struct AudioClient<A> {
    pub client: A,
    pub direction: Direction,
    pub sharemode: Option<ShareMode>,
}

/// Arguments for `IAudioClient::IsFormatSupported`, and what its reply is taken for.
#[derive(Clone, Copy)]
pub struct FormatQuery {
    pub sharemode: ShareMode,
    pub format: WaveFormat,
}

/// Where a format query stands.
pub enum SupportStep {
    /// The answer: `None` if the format is supported, else a similar one that is.
    Done(Option<WaveFormat>),
    /// Read the head of the descriptor that the system pointed to.
    ReadHeader,
    /// Read the extensible descriptor that the system pointed to.
    ReadExtensible,
}

impl FormatQuery {
    /// The step after the call, which pointed to the descriptor of a similar format or did not.
    pub open spec fn after_answer(self, pointed: bool) -> SupportStep {
        if self.sharemode is Shared && pointed {
            SupportStep::ReadHeader
        } else {
            SupportStep::Done(None)
        }
    }

    /// The step after the head of the descriptor was read, `None` if it is not supported.
    pub open spec fn after_header(self, header: WaveFormatEx) -> Option<SupportStep> {
        match WaveFormat::header_step(header) {
            Some(FormatStep::ReadExtensible) => Some(SupportStep::ReadExtensible),
            Some(FormatStep::Ready(format)) => Some(SupportStep::Done(Some(format))),
            None => None,
        }
    }

    /// The step after an extensible descriptor was read.
    pub open spec fn after_extensible(self, wave_fmt: WaveFormatExtensible) -> SupportStep {
        SupportStep::Done(Some(WaveFormat { wave_fmt }))
    }

    /// The last step where the system points to the given descriptor, or to none. `None` if the
    /// descriptor is not supported.
    pub open spec fn last_step(self, pointed: Option<WaveFormatExtensible>) -> Option<SupportStep> {
        match self.after_answer(pointed is Some) {
            SupportStep::ReadHeader => match self.after_header(pointed->0.format) {
                Some(SupportStep::ReadExtensible) => Some(self.after_extensible(pointed->0)),
                step => step,
            },
            step => Some(step),
        }
    }

    /// The share mode to name in the call.
    pub fn mode(&self) -> (r: i32)
        ensures
            r == self.sharemode.code(),
    {
        self.sharemode.mode()
    }

    /// Takes the reply of the call: whether the system pointed to the descriptor of a similar
    /// format. In exclusive mode there is none to look for.
    pub fn answer<E>(&self, pointed: Result<bool, E>) -> (r: Result<SupportStep, E>)
        ensures
            match pointed {
                Ok(pointed) => r == Ok::<SupportStep, E>(self.after_answer(pointed)),
                Err(e) => r == Err::<SupportStep, E>(e),
            },
    {
        match pointed {
            Ok(pointed) => match self.sharemode {
                ShareMode::Exclusive => Ok(SupportStep::Done(None)),
                ShareMode::Shared => {
                    if pointed {
                        Ok(SupportStep::ReadHeader)
                    } else {
                        // Nothing was pointed to: the format is supported as it is.
                        Ok(SupportStep::Done(None))
                    }
                },
            },
            Err(e) => Err(e),
        }
    }

    /// Takes the head of the descriptor that the system pointed to.
    pub fn header(&self, header: WaveFormatEx) -> (r: Result<SupportStep, WasapiError>)
        requires
            header.convertible(),
        ensures
            match r {
                Ok(step) => self.after_header(header) == Some(step),
                Err(e) => self.after_header(header) is None && e@ == "Unsupported format"@,
            },
    {
        match WaveFormat::from_header(header) {
            Ok(FormatStep::ReadExtensible) => Ok(SupportStep::ReadExtensible),
            Ok(FormatStep::Ready(format)) => Ok(SupportStep::Done(Some(format))),
            Err(e) => Err(e),
        }
    }

    /// Takes the extensible descriptor that the system pointed to.
    pub fn extensible(&self, wave_fmt: WaveFormatExtensible) -> (r: SupportStep)
        ensures
            r == self.after_extensible(wave_fmt),
    {
        SupportStep::Done(Some(WaveFormat::from_extensible(wave_fmt)))
    }
}

/// Arguments for `IAudioClient::Initialize`. The session is the default one.
#[derive(Clone, Copy)]
pub struct InitializeRequest {
    pub mode: i32,
    pub streamflags: u32,
    pub buffer_duration: i64,
    pub periodicity: i64,
    pub format: WaveFormat,
}

/// The flags of a stream in direction `direction` on a device of direction `device`.
pub open spec fn stream_flags(device: Direction, direction: Direction, convert: bool) -> u32 {
    let base = if device is Render && direction is Capture {
        AUDCLNT_STREAMFLAGS_EVENTCALLBACK | AUDCLNT_STREAMFLAGS_LOOPBACK
    } else {
        AUDCLNT_STREAMFLAGS_EVENTCALLBACK
    };
    if convert {
        base | (AUDCLNT_STREAMFLAGS_AUTOCONVERTPCM | AUDCLNT_STREAMFLAGS_SRC_DEFAULT_QUALITY)
    } else {
        base
    }
}

/// Why a stream in direction `direction` cannot be had on a device of direction `device`.
pub open spec fn refusal(device: Direction, direction: Direction, sharemode: ShareMode) -> Option<
    Seq<char>,
> {
    match (device, direction, sharemode) {
        (Direction::Render, Direction::Capture, ShareMode::Exclusive) => Some(
            "Cant use Loopback with exclusive mode"@,
        ),
        (Direction::Capture, Direction::Render, _) => Some("Cant render to a capture device"@),
        _ => None,
    }
}

/// Where a query for the free space in the buffer stands.
#[derive(Clone, Copy, Debug)]
pub enum SpaceStep {
    /// Ask for the current padding.
    AskPadding,
    /// Ask for the size of the buffer, of which `padding` frames are taken.
    AskBufferSize { padding: u32 },
}

/// The first step of a query for free space, `None` for a client that is not initialized.
pub open spec fn space_query(sharemode: Option<ShareMode>) -> Option<SpaceStep> {
    match sharemode {
        Some(_) => Some(SpaceStep::AskPadding),
        None => None,
    }
}

impl SpaceStep {
    /// The step after the padding was asked for.
    pub open spec fn after_padding(self, padding: u32) -> SpaceStep {
        SpaceStep::AskBufferSize { padding }
    }

    /// The free frames in a buffer of `size` frames.
    pub open spec fn free_frames(self, size: u32) -> int {
        size - self->padding
    }

    /// Takes the current padding.
    pub fn padding<E>(&self, padding: Result<u32, E>) -> (r: Result<SpaceStep, E>)
        requires
            self is AskPadding,
        ensures
            match padding {
                Ok(padding) => r == Ok::<SpaceStep, E>(self.after_padding(padding)),
                Err(e) => r == Err::<SpaceStep, E>(e),
            },
    {
        match padding {
            Ok(padding) => Ok(SpaceStep::AskBufferSize { padding }),
            Err(e) => Err(e),
        }
    }

    /// Takes the size of the buffer, and returns how many frames are free.
    pub fn buffer_size<E>(&self, size: Result<u32, E>) -> (r: Result<u32, E>)
        requires
            self is AskBufferSize,
            size matches Ok(size) ==> self->padding <= size,
        ensures
            match size {
                Ok(size) => r matches Ok(frames) && frames == self.free_frames(size),
                Err(e) => r == Err::<u32, E>(e),
            },
    {
        let padding: u32 = match self {
            SpaceStep::AskBufferSize { padding } => *padding,
            SpaceStep::AskPadding => 0,
        };
        match size {
            Ok(size) => Ok(size - padding),
            Err(e) => Err(e),
        }
    }
}

impl<A> AudioClient<A> {
    /// Get MixFormat of the device. This is the format the device uses in shared mode and should
    /// always be accepted. Takes the head of the descriptor that the system returned. Where that
    /// is to be read as a whole, `WaveFormat::from_extensible` gives the format.
    pub fn get_mixformat<E>(&self, header: Result<WaveFormatEx, E>) -> (r: WasapiRes<FormatStep, E>)
        requires
            header matches Ok(h) ==> h.convertible(),
        ensures
            match header {
                Ok(h) => match r {
                    Ok(step) => WaveFormat::header_step(h) == Some(step),
                    Err(e) => {
                        &&& WaveFormat::header_step(h) is None
                        &&& e.says("Unsupported format"@)
                    },
                },
                Err(e) => r == Err::<FormatStep, Failure<E>>(Failure::System(e)),
            },
    {
        match header {
            Ok(h) => match WaveFormat::from_header(h) {
                Ok(step) => Ok(step),
                Err(e) => Err(Failure::Wasapi(e)),
            },
            Err(e) => Err(Failure::System(e)),
        }
    }

    /// Check if a format is supported.
    /// If it's directly supported, the answer is None. If not, but a similar format is, then the
    /// answer is the supported format.
    pub fn is_supported(&self, wave_fmt: &WaveFormat, sharemode: &ShareMode) -> (r: FormatQuery)
        ensures
            r == (FormatQuery { sharemode: *sharemode, format: *wave_fmt }),
    {
        FormatQuery { sharemode: *sharemode, format: *wave_fmt }
    }

    /// Initialize an IAudioClient for the given direction, sharemode and format.
    /// Setting `convert` to true enables automatic samplerate and format conversion, meaning that
    /// almost any format will be accepted.
    ///
    /// Returns the call to make. The share mode is noted before the call, whatever comes of it;
    /// a refused stream leaves the client as it was.
    pub fn initialize_client(
        &mut self,
        wavefmt: &WaveFormat,
        period: i64,
        direction: &Direction,
        sharemode: &ShareMode,
        convert: bool,
    ) -> (r: Result<InitializeRequest, WasapiError>)
        ensures
            match r {
                Ok(request) => {
                    &&& refusal(old(self).direction, *direction, *sharemode) is None
                    &&& request == (InitializeRequest {
                        mode: sharemode.code(),
                        streamflags: stream_flags(old(self).direction, *direction, convert),
                        buffer_duration: period,
                        periodicity: period,
                        format: *wavefmt,
                    })
                    &&& *final(self) == (AudioClient { sharemode: Some(*sharemode), ..*old(self) })
                },
                Err(e) => {
                    &&& refusal(old(self).direction, *direction, *sharemode) == Some(e@)
                    &&& *final(self) == *old(self)
                },
            },
    {
        let mut streamflags: u32 = match (self.direction, *direction, *sharemode) {
            (Direction::Render, Direction::Capture, ShareMode::Shared) => {
                AUDCLNT_STREAMFLAGS_EVENTCALLBACK | AUDCLNT_STREAMFLAGS_LOOPBACK
            },
            (Direction::Render, Direction::Capture, ShareMode::Exclusive) => {
                return Err(WasapiError::new("Cant use Loopback with exclusive mode"));
            },
            (Direction::Capture, Direction::Render, _) => {
                return Err(WasapiError::new("Cant render to a capture device"));
            },
            _ => AUDCLNT_STREAMFLAGS_EVENTCALLBACK,
        };
        if convert {
            streamflags = streamflags | (AUDCLNT_STREAMFLAGS_AUTOCONVERTPCM
                | AUDCLNT_STREAMFLAGS_SRC_DEFAULT_QUALITY);
        }
        self.sharemode = Some(*sharemode);
        Ok(
            InitializeRequest {
                mode: sharemode.mode(),
                streamflags,
                buffer_duration: period,
                periodicity: period,
                format: *wavefmt,
            },
        )
    }

    /// Get buffer size minus padding in frames.
    /// Use this to find out how much free space is available in the buffer.
    pub fn get_available_space_in_frames(&self) -> (r: Result<SpaceStep, WasapiError>)
        ensures
            match r {
                Ok(step) => space_query(self.sharemode) == Some(step),
                Err(e) => {
                    &&& space_query(self.sharemode) is None
                    &&& e@ == "Client has not been initialized"@
                },
            },
    {
        match self.sharemode {
            Some(_) => Ok(SpaceStep::AskPadding),
            None => Err(WasapiError::new("Client has not been initialized")),
        }
    }

    /// Get a rendering (playback) client, from the service that the system returned, `None` if it
    /// returned a null pointer.
    pub fn get_audiorenderclient<R, E>(&self, service: Result<Option<R>, E>) -> (r: WasapiRes<
        AudioRenderClient<R>,
        E,
    >)
        ensures
            match service {
                Ok(Some(client)) => r == Ok::<AudioRenderClient<R>, Failure<E>>(
                    AudioRenderClient { client },
                ),
                Ok(None) => r matches Err(e) && e.says("Failed getting IAudioCaptureClient"@),
                Err(e) => r == Err::<AudioRenderClient<R>, Failure<E>>(Failure::System(e)),
            },
    {
        match service {
            Ok(Some(client)) => Ok(AudioRenderClient { client }),
            Ok(None) => Err(
                Failure::Wasapi(WasapiError::new("Failed getting IAudioCaptureClient")),
            ),
            Err(e) => Err(Failure::System(e)),
        }
    }

    /// Get a capture client, from the service that the system returned, `None` if it returned a
    /// null pointer. It keeps the share mode that this client has now.
    pub fn get_audiocaptureclient<C, E>(&self, service: Result<Option<C>, E>) -> (r: WasapiRes<
        AudioCaptureClient<C>,
        E,
    >)
        ensures
            match service {
                Ok(Some(client)) => r == Ok::<AudioCaptureClient<C>, Failure<E>>(
                    AudioCaptureClient { client, sharemode: self.sharemode },
                ),
                Ok(None) => r matches Err(e) && e.says("Failed getting IAudioCaptureClient"@),
                Err(e) => r == Err::<AudioCaptureClient<C>, Failure<E>>(Failure::System(e)),
            },
    {
        match service {
            Ok(Some(client)) => Ok(AudioCaptureClient { client, sharemode: self.sharemode }),
            Ok(None) => Err(
                Failure::Wasapi(WasapiError::new("Failed getting IAudioCaptureClient")),
            ),
            Err(e) => Err(Failure::System(e)),
        }
    }

    /// Get the AudioSessionControl, from the service that the system returned, `None` if it
    /// returned a null pointer.
    pub fn get_audiosessioncontrol<S, E>(&self, service: Result<Option<S>, E>) -> (r: WasapiRes<
        AudioSessionControl<S>,
        E,
    >)
        ensures
            match service {
                Ok(Some(control)) => r == Ok::<AudioSessionControl<S>, Failure<E>>(
                    AudioSessionControl { control },
                ),
                Ok(None) => r matches Err(e) && e.says("Failed getting IAudioSessionControl"@),
                Err(e) => r == Err::<AudioSessionControl<S>, Failure<E>>(Failure::System(e)),
            },
    {
        match service {
            Ok(Some(control)) => Ok(AudioSessionControl { control }),
            Ok(None) => Err(
                Failure::Wasapi(WasapiError::new("Failed getting IAudioSessionControl")),
            ),
            Err(e) => Err(Failure::System(e)),
        }
    }
}

/// An event handle of type `H`.
#[derive(Debug)]
pub struct Handle<H> {
    pub handle: H,
}

impl<H> Handle<H> {
    /// Wait for an event on a handle: takes the reply of the wait.
    pub fn wait_for_event(&self, retval: u32) -> (r: Result<(), WasapiError>)
        ensures
            match r {
                Ok(_) => retval == WAIT_OBJECT_0,
                Err(e) => retval != WAIT_OBJECT_0 && e@ == "Wait timed out"@,
            },
    {
        if retval != WAIT_OBJECT_0 {
            Err(WasapiError::new("Wait timed out"))
        } else {
            Ok(())
        }
    }
}

/// The flags of a stream: it signals events in any case, captures what is played exactly if it
/// captures from a playback device, and converts exactly if that is asked for. There are no
/// other flags.
pub proof fn law_stream_flags(device: Direction, direction: Direction, convert: bool)
    ensures
        ({
            let flags = stream_flags(device, direction, convert);
            &&& flags & AUDCLNT_STREAMFLAGS_EVENTCALLBACK != 0
            &&& flags & AUDCLNT_STREAMFLAGS_LOOPBACK != 0 <==> device is Render && direction
                is Capture
            &&& flags & AUDCLNT_STREAMFLAGS_AUTOCONVERTPCM != 0 <==> convert
            &&& flags & AUDCLNT_STREAMFLAGS_SRC_DEFAULT_QUALITY != 0 <==> convert
            &&& flags & !(AUDCLNT_STREAMFLAGS_EVENTCALLBACK | AUDCLNT_STREAMFLAGS_LOOPBACK
                | AUDCLNT_STREAMFLAGS_AUTOCONVERTPCM | AUDCLNT_STREAMFLAGS_SRC_DEFAULT_QUALITY) == 0
        }),
{
    let flags = stream_flags(device, direction, convert);
    let loopback = device is Render && direction is Capture;
    assert({
        &&& flags & AUDCLNT_STREAMFLAGS_EVENTCALLBACK != 0
        &&& flags & AUDCLNT_STREAMFLAGS_LOOPBACK != 0 <==> loopback
        &&& flags & AUDCLNT_STREAMFLAGS_AUTOCONVERTPCM != 0 <==> convert
        &&& flags & AUDCLNT_STREAMFLAGS_SRC_DEFAULT_QUALITY != 0 <==> convert
        &&& flags & !(AUDCLNT_STREAMFLAGS_EVENTCALLBACK | AUDCLNT_STREAMFLAGS_LOOPBACK
            | AUDCLNT_STREAMFLAGS_AUTOCONVERTPCM | AUDCLNT_STREAMFLAGS_SRC_DEFAULT_QUALITY) == 0
    }) by (bit_vector)
        requires
            flags == {
                let base = if loopback {
                    AUDCLNT_STREAMFLAGS_EVENTCALLBACK | AUDCLNT_STREAMFLAGS_LOOPBACK
                } else {
                    AUDCLNT_STREAMFLAGS_EVENTCALLBACK
                };
                if convert {
                    base | (AUDCLNT_STREAMFLAGS_AUTOCONVERTPCM
                        | AUDCLNT_STREAMFLAGS_SRC_DEFAULT_QUALITY)
                } else {
                    base
                }
            },
    ;
}

/// A stream that captures what is played is always shared: no request captures from a playback
/// device in exclusive mode, and none plays to a capture device.
pub proof fn law_loopback_is_shared(device: Direction, direction: Direction, sharemode: ShareMode)
    requires
        refusal(device, direction, sharemode) is None,
    ensures
        device is Render && direction is Capture ==> sharemode is Shared,
        device is Capture ==> direction is Capture,
{
}

/// A format is taken as supported exactly in exclusive mode, or if the system points to no
/// other. If it points to an extensible descriptor, that is the answer as it stands; any other
/// descriptor is converted.
pub proof fn law_supported_unless_pointed_elsewhere(
    query: FormatQuery,
    pointed: Option<WaveFormatExtensible>,
)
    ensures
        query.last_step(pointed) == Some(SupportStep::Done(None)) <==> query.sharemode is Exclusive
            || pointed is None,
        query.sharemode is Shared && pointed is Some ==> query.last_step(pointed) == (
        if pointed->0.format.extended() {
            Some(SupportStep::Done(Some(WaveFormat { wave_fmt: pointed->0 })))
        } else if pointed->0.format.sample_type() is Some {
            Some(
                SupportStep::Done(
                    Some(WaveFormat { wave_fmt: pointed->0.format.converted() }),
                ),
            )
        } else {
            None
        }),
{
}

/// Before a client is initialized, the free space is unknown. After that, it is what the padding
/// leaves of the buffer, whatever the share mode.
pub proof fn law_free_space(sharemode: Option<ShareMode>, padding: u32, size: u32)
    requires
        padding <= size,
    ensures
        match sharemode {
            None => space_query(sharemode) is None,
            Some(_) => {
                &&& space_query(sharemode) == Some(SpaceStep::AskPadding)
                &&& space_query(sharemode)->0.after_padding(padding).free_frames(size) == size
                    - padding
            },
        },
{
}

/// A share mode is named by 0 if it is shared and by 1 if it is exclusive, also in a query.
pub proof fn law_share_mode_codes(query: FormatQuery, mode: i32, queried: i32)
    requires
        call_ensures(ShareMode::mode, (&query.sharemode,), mode),
        call_ensures(FormatQuery::mode, (&query,), queried),
    ensures
        query.sharemode is Shared ==> mode == 0,
        query.sharemode is Exclusive ==> mode == 1,
        queried == mode,
        query.sharemode.code() == mode,
{
}

/// A stream is refused exactly if it captures from a playback device in exclusive mode, or plays
/// to a capture device. Each of the two has its text.
pub proof fn law_refused_exactly_if_impossible(
    device: Direction,
    direction: Direction,
    sharemode: ShareMode,
)
    ensures
        refusal(device, direction, sharemode) is Some <==> (device is Render && direction is Capture
            && sharemode is Exclusive) || (device is Capture && direction is Render),
        refusal(device, direction, sharemode) matches Some(text) ==> text == (
        if direction is Capture {
            "Cant use Loopback with exclusive mode"@
        } else {
            "Cant render to a capture device"@
        }),
{
}

/// The stream flags have no bit in common, so they add up.
proof fn lemma_flags_add_up()
    ensures
        0x0004_0000u32 | 0x0002_0000u32 == 0x0006_0000u32,
        0x8000_0000u32 | 0x0800_0000u32 == 0x8800_0000u32,
        0x0006_0000u32 | 0x8800_0000u32 == 0x8806_0000u32,
        0x0004_0000u32 | 0x8800_0000u32 == 0x8804_0000u32,
{
    assert(0x0004_0000u32 | 0x0002_0000u32 == 0x0006_0000u32) by (bit_vector);
    assert(0x8000_0000u32 | 0x0800_0000u32 == 0x8800_0000u32) by (bit_vector);
    assert(0x0006_0000u32 | 0x8800_0000u32 == 0x8806_0000u32) by (bit_vector);
    assert(0x0004_0000u32 | 0x8800_0000u32 == 0x8804_0000u32) by (bit_vector);
}

/// What `AudioClient::initialize_client` asks of the system. It refuses exactly the streams that
/// capture from a playback device in exclusive mode and those that play to a capture device, and
/// leaves the client as it was. For any other stream, the call is made in the given mode, with
/// the period as duration and as periodicity, and with the format as it is. The flags are that
/// for events, and those for loopback and for conversion exactly where they are called for. The
/// client keeps all but its share mode, which is the given one.
pub proof fn law_initialization_is_as_asked<A>(
    client: &mut AudioClient<A>,
    wavefmt: WaveFormat,
    period: i64,
    direction: Direction,
    sharemode: ShareMode,
    convert: bool,
    r: Result<InitializeRequest, WasapiError>,
)
    requires
        call_ensures(
            AudioClient::<A>::initialize_client,
            (client, &wavefmt, period, &direction, &sharemode, convert),
            r,
        ),
    ensures
        r is Err <==> (old(client).direction is Render && direction is Capture && sharemode
            is Exclusive) || (old(client).direction is Capture && direction is Render),
        r matches Err(e) ==> {
            &&& *final(client) == *old(client)
            &&& direction is Capture ==> e@ == "Cant use Loopback with exclusive mode"@
            &&& direction is Render ==> e@ == "Cant render to a capture device"@
        },
        r matches Ok(request) ==> {
            let loopback = old(client).direction is Render && direction is Capture;
            &&& request.mode == (if sharemode is Exclusive {
                1int
            } else {
                0int
            })
            &&& request.streamflags == 0x0004_0000 + (if loopback {
                0x0002_0000int
            } else {
                0int
            }) + (if convert {
                0x8800_0000int
            } else {
                0int
            })
            &&& request.buffer_duration == period
            &&& request.periodicity == period
            &&& request.format == wavefmt
            &&& final(client).sharemode == Some(sharemode)
            &&& final(client).direction == old(client).direction
            &&& final(client).client == old(client).client
        },
{
    lemma_flags_add_up();
}

/// Asking for conversion adds the same flags to every stream.
pub proof fn law_conversion_only_adds_flags(device: Direction, direction: Direction)
    ensures
        stream_flags(device, direction, true) - stream_flags(device, direction, false)
            == 0x8800_0000,
{
    lemma_flags_add_up();
}

/// What comes of the mix format: an error of the system as it came; the request to read the
/// whole descriptor exactly if its head has the size and the tag of an extensible one; otherwise
/// what `WaveFormat::from_waveformatex` makes of the head.
pub proof fn law_mix_format_is_read_or_converted<A, E>(
    client: AudioClient<A>,
    header: Result<WaveFormatEx, E>,
    r: WasapiRes<FormatStep, E>,
    converted: Result<WaveFormat, WasapiError>,
)
    requires
        call_ensures(AudioClient::<A>::get_mixformat::<E>, (&client, header), r),
        header matches Ok(h) ==> call_ensures(WaveFormat::from_waveformatex, (h,), converted),
    ensures
        match header {
            Err(e) => r == Err::<FormatStep, Failure<E>>(Failure::System(e)),
            Ok(h) => if h.cb_size == 22 && h.format_tag == 65534 {
                r == Ok::<FormatStep, Failure<E>>(FormatStep::ReadExtensible)
            } else {
                match converted {
                    Ok(f) => r == Ok::<FormatStep, Failure<E>>(FormatStep::Ready(f)),
                    Err(_) => r matches Err(Failure::Wasapi(e)) && e@ == "Unsupported format"@,
                }
            },
        },
{
}

/// A query holds what `AudioClient::is_supported` was given. Its answer is an error of the
/// system as it came. In shared mode, a format that the system pointed to is to be read; in
/// every other case the format is supported.
pub proof fn law_answer_depends_on_the_share_mode<A, E>(
    client: AudioClient<A>,
    wave_fmt: WaveFormat,
    sharemode: ShareMode,
    query: FormatQuery,
    pointed: Result<bool, E>,
    r: Result<SupportStep, E>,
)
    requires
        call_ensures(AudioClient::<A>::is_supported, (&client, &wave_fmt, &sharemode), query),
        call_ensures(FormatQuery::answer::<E>, (&query, pointed), r),
    ensures
        query.format == wave_fmt,
        query.sharemode == sharemode,
        r == (match pointed {
            Err(e) => Err::<SupportStep, E>(e),
            Ok(true) => if sharemode is Shared {
                Ok::<SupportStep, E>(SupportStep::ReadHeader)
            } else {
                Ok::<SupportStep, E>(SupportStep::Done(None))
            },
            Ok(false) => Ok::<SupportStep, E>(SupportStep::Done(None)),
        }),
{
}

/// A descriptor that the system pointed to is taken as any other that the system holds: its head
/// asks for the whole of it, or gives a similar format, or an error, exactly as with
/// `WaveFormat::from_header`. What was read as a whole is the answer in every field.
pub proof fn law_similar_format_is_read_or_converted(
    query: FormatQuery,
    h: WaveFormatEx,
    r: Result<SupportStep, WasapiError>,
    converted: Result<WaveFormat, WasapiError>,
    wave_fmt: WaveFormatExtensible,
    whole: SupportStep,
)
    requires
        call_ensures(FormatQuery::header, (&query, h), r),
        call_ensures(WaveFormat::from_waveformatex, (h,), converted),
        call_ensures(FormatQuery::extensible, (&query, wave_fmt), whole),
    ensures
        if h.cb_size == 22 && h.format_tag == 65534 {
            r == Ok::<SupportStep, WasapiError>(SupportStep::ReadExtensible)
        } else {
            match converted {
                Ok(f) => r == Ok::<SupportStep, WasapiError>(SupportStep::Done(Some(f))),
                Err(_) => r matches Err(e) && e@ == "Unsupported format"@,
            }
        },
        whole matches SupportStep::Done(Some(f)) && f.wave_fmt == wave_fmt,
{
}

/// The three steps of a query for free space, taken one after the other: a client that was never
/// initialized gives an error. Otherwise an error of the system ends the query as it came, and
/// the free space is the size of the buffer without its padding.
pub proof fn law_free_space_is_size_without_padding<A, E>(
    client: AudioClient<A>,
    first: Result<SpaceStep, WasapiError>,
    padding: Result<u32, E>,
    second: Result<SpaceStep, E>,
    size: Result<u32, E>,
    r: Result<u32, E>,
)
    requires
        call_ensures(AudioClient::<A>::get_available_space_in_frames, (&client,), first),
        first matches Ok(step) ==> call_ensures(SpaceStep::padding::<E>, (&step, padding), second),
        first is Ok ==> (second matches Ok(step) ==> call_ensures(
            SpaceStep::buffer_size::<E>,
            (&step, size),
            r,
        )),
    ensures
        first is Err <==> client.sharemode is None,
        first matches Err(e) ==> e@ == "Client has not been initialized"@,
        first is Ok ==> first->Ok_0 is AskPadding,
        first is Ok ==> match padding {
            Err(e) => second == Err::<SpaceStep, E>(e),
            Ok(taken) => {
                &&& second matches Ok(step) && step is AskBufferSize && step->padding == taken
                &&& match size {
                    Err(e) => r == Err::<u32, E>(e),
                    Ok(all) => r is Ok && r->Ok_0 + taken == all,
                }
            },
        },
{
}

/// A service that the system returned is held as it is. A null pointer gives an error with a
/// text, and an error of the system stays as it came. A capture client takes over the share mode.
pub proof fn law_services_are_handed_on<A, S, E>(
    client: AudioClient<A>,
    service: Result<Option<S>, E>,
    render: WasapiRes<AudioRenderClient<S>, E>,
    capture: WasapiRes<AudioCaptureClient<S>, E>,
    control: WasapiRes<AudioSessionControl<S>, E>,
)
    requires
        call_ensures(AudioClient::<A>::get_audiorenderclient::<S, E>, (&client, service), render),
        call_ensures(AudioClient::<A>::get_audiocaptureclient::<S, E>, (&client, service), capture),
        call_ensures(
            AudioClient::<A>::get_audiosessioncontrol::<S, E>,
            (&client, service),
            control,
        ),
    ensures
        match service {
            Ok(Some(s)) => {
                &&& render matches Ok(c) && c.client == s
                &&& capture matches Ok(c) && c.client == s && c.sharemode == client.sharemode
                &&& control matches Ok(c) && c.control == s
            },
            Ok(None) => {
                &&& render matches Err(Failure::Wasapi(e)) && e@
                    == "Failed getting IAudioCaptureClient"@
                &&& capture matches Err(Failure::Wasapi(e)) && e@
                    == "Failed getting IAudioCaptureClient"@
                &&& control matches Err(Failure::Wasapi(e)) && e@
                    == "Failed getting IAudioSessionControl"@
            },
            Err(error) => {
                &&& render matches Err(Failure::System(e)) && e == error
                &&& capture matches Err(Failure::System(e)) && e == error
                &&& control matches Err(Failure::System(e)) && e == error
            },
        },
{
}

/// A wait succeeds exactly if its reply is 0. Every other reply counts as a time out.
pub proof fn law_wait_ends_with_the_event<H>(
    handle: Handle<H>,
    retval: u32,
    r: Result<(), WasapiError>,
)
    requires
        call_ensures(Handle::<H>::wait_for_event, (&handle, retval), r),
    ensures
        r is Ok <==> retval == 0,
        r matches Err(e) ==> e@ == "Wait timed out"@,
{
}

} // verus!
