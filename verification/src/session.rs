//! Audio sessions: their state, and notifications about their changes.
use crate::error::{Failure, WasapiError, WasapiRes};
use crate::text::decode_wide;
use vstd::prelude::*;

verus! {

/// The code of a session that has streams, none of them running.
pub const AUDIO_SESSION_STATE_INACTIVE: i32 = 0;

/// The code of a session with a running stream.
pub const AUDIO_SESSION_STATE_ACTIVE: i32 = 1;

/// The code of a session without streams.
pub const AUDIO_SESSION_STATE_EXPIRED: i32 = 2;

/// The code for a device that was removed.
pub const DISCONNECT_REASON_DEVICE_REMOVAL: i32 = 0;

/// The code for an audio service that stopped.
pub const DISCONNECT_REASON_SERVER_SHUTDOWN: i32 = 1;

/// The code for a stream format that changed.
pub const DISCONNECT_REASON_FORMAT_CHANGED: i32 = 2;

/// The code for a user who logged off.
pub const DISCONNECT_REASON_SESSION_LOGOFF: i32 = 3;

/// The code for a remote session that was disconnected.
pub const DISCONNECT_REASON_SESSION_DISCONNECTED: i32 = 4;

/// The code for a shared stream that made way for an exclusive one.
pub const DISCONNECT_REASON_EXCLUSIVE_MODE_OVERRIDE: i32 = 5;

/// States of an AudioSession
#[derive(Clone, Copy, Debug, PartialEq, Eq, Structural)]
pub enum SessionState {
    Active,
    Inactive,
    Expired,
}

impl SessionState {
    /// The code of a state.
    pub open spec fn code(self) -> i32 {
        match self {
            SessionState::Active => AUDIO_SESSION_STATE_ACTIVE,
            SessionState::Inactive => AUDIO_SESSION_STATE_INACTIVE,
            SessionState::Expired => AUDIO_SESSION_STATE_EXPIRED,
        }
    }

    /// The state with this code, if there is one.
    pub open spec fn of_code(code: i32) -> Option<SessionState> {
        if code == AUDIO_SESSION_STATE_ACTIVE {
            Some(SessionState::Active)
        } else if code == AUDIO_SESSION_STATE_INACTIVE {
            Some(SessionState::Inactive)
        } else if code == AUDIO_SESSION_STATE_EXPIRED {
            Some(SessionState::Expired)
        } else {
            None
        }
    }

    /// The state with this code, if there is one.
    pub fn from_code(code: i32) -> (r: Option<SessionState>)
        ensures
            r == SessionState::of_code(code),
    {
        match code {
            AUDIO_SESSION_STATE_ACTIVE => Some(SessionState::Active),
            AUDIO_SESSION_STATE_INACTIVE => Some(SessionState::Inactive),
            AUDIO_SESSION_STATE_EXPIRED => Some(SessionState::Expired),
            _ => None,
        }
    }
}

/// Reason for session disconnect
#[derive(Clone, Copy, Debug, PartialEq, Eq, Structural)]
pub enum DisconnectReason {
    DeviceRemoval,
    ServerShutdown,
    FormatChanged,
    SessionLogoff,
    SessionDisconnected,
    ExclusiveModeOverride,
    Unknown,
}

impl DisconnectReason {
    /// The reason that a code stands for.
    pub open spec fn of_code(code: i32) -> DisconnectReason {
        if code == DISCONNECT_REASON_DEVICE_REMOVAL {
            DisconnectReason::DeviceRemoval
        } else if code == DISCONNECT_REASON_SERVER_SHUTDOWN {
            DisconnectReason::ServerShutdown
        } else if code == DISCONNECT_REASON_FORMAT_CHANGED {
            DisconnectReason::FormatChanged
        } else if code == DISCONNECT_REASON_SESSION_LOGOFF {
            DisconnectReason::SessionLogoff
        } else if code == DISCONNECT_REASON_SESSION_DISCONNECTED {
            DisconnectReason::SessionDisconnected
        } else if code == DISCONNECT_REASON_EXCLUSIVE_MODE_OVERRIDE {
            DisconnectReason::ExclusiveModeOverride
        } else {
            DisconnectReason::Unknown
        }
    }

    /// The reason that a code stands for, `Unknown` for any other code.
    pub fn from_code(code: i32) -> (r: DisconnectReason)
        ensures
            r == DisconnectReason::of_code(code),
    {
        match code {
            DISCONNECT_REASON_DEVICE_REMOVAL => DisconnectReason::DeviceRemoval,
            DISCONNECT_REASON_SERVER_SHUTDOWN => DisconnectReason::ServerShutdown,
            DISCONNECT_REASON_FORMAT_CHANGED => DisconnectReason::FormatChanged,
            DISCONNECT_REASON_SESSION_LOGOFF => DisconnectReason::SessionLogoff,
            DISCONNECT_REASON_SESSION_DISCONNECTED => DisconnectReason::SessionDisconnected,
            DISCONNECT_REASON_EXCLUSIVE_MODE_OVERRIDE => DisconnectReason::ExclusiveModeOverride,
            _ => DisconnectReason::Unknown,
        }
    }
}

/// An IAudioSessionControl of type `S`.
#[derive(Debug)]
pub struct AudioSessionControl<S> {
    pub control: S,
}

impl<S> AudioSessionControl<S> {
    /// Get the current state, from the code that the system returned.
    pub fn get_state<E>(&self, state: Result<i32, E>) -> (r: WasapiRes<SessionState, E>)
        ensures
            match state {
                Ok(code) => match r {
                    Ok(s) => SessionState::of_code(code) == Some(s),
                    Err(e) => {
                        &&& SessionState::of_code(code) is None
                        &&& e.says("Got an illegal state"@)
                    },
                },
                Err(e) => r == Err::<SessionState, Failure<E>>(Failure::System(e)),
            },
    {
        match state {
            Ok(code) => match SessionState::from_code(code) {
                Some(s) => Ok(s),
                None => Err(Failure::Wasapi(WasapiError::new("Got an illegal state"))),
            },
            Err(e) => Err(Failure::System(e)),
        }
    }

    /// Register to receive notifications: takes the reply of the registration, a failure with
    /// its text.
    pub fn register_session_notification(&self, registered: Result<(), String>) -> (r: Result<
        (),
        WasapiError,
    >)
        ensures
            match registered {
                Ok(_) => r is Ok,
                Err(text) => r matches Err(e) && e@ == "Failed to register notifications, "@ + text@,
            },
    {
        match registered {
            Ok(_) => Ok(()),
            Err(text) => {
                let mut desc = "Failed to register notifications, ".to_owned();
                desc.append(text.as_str());
                Err(WasapiError::new(desc.as_str()))
            },
        }
    }
}

/// A structure holding the callbacks for notifications. Each kind of notification has a type of
/// callback of its own.
#[derive(Debug)]
pub struct EventCallbacks<SV, CV, ST, DC, IP, DN, GP> {
    pub simple_volume: Option<SV>,
    pub channel_volume: Option<CV>,
    pub state: Option<ST>,
    pub disconnected: Option<DC>,
    pub iconpath: Option<IP>,
    pub displayname: Option<DN>,
    pub groupingparam: Option<GP>,
}

impl<SV, CV, ST, DC, IP, DN, GP> Default for EventCallbacks<SV, CV, ST, DC, IP, DN, GP> {
    fn default() -> (r: Self)
        ensures
            r == EventCallbacks::<SV, CV, ST, DC, IP, DN, GP>::none(),
    {
        Self::new()
    }
}

impl<SV, CV, ST, DC, IP, DN, GP> EventCallbacks<SV, CV, ST, DC, IP, DN, GP> {
    /// No callback at all.
    pub open spec fn none() -> Self {
        EventCallbacks {
            simple_volume: None,
            channel_volume: None,
            state: None,
            disconnected: None,
            iconpath: None,
            displayname: None,
            groupingparam: None,
        }
    }

    /// Create a new EventCallbacks with no callbacks set
    pub fn new() -> (r: Self)
        ensures
            r == Self::none(),
    {
        EventCallbacks {
            simple_volume: None,
            channel_volume: None,
            state: None,
            disconnected: None,
            iconpath: None,
            displayname: None,
            groupingparam: None,
        }
    }

    /// Set a callback for OnSimpleVolumeChanged notifications
    pub fn set_simple_volume_callback(&mut self, c: SV)
        ensures
            *final(self) == (EventCallbacks { simple_volume: Some(c), ..*old(self) }),
    {
        self.simple_volume = Some(c);
    }

    /// Remove a callback for OnSimpleVolumeChanged notifications
    pub fn unset_simple_volume_callback(&mut self)
        ensures
            *final(self) == (EventCallbacks { simple_volume: None, ..*old(self) }),
    {
        self.simple_volume = None;
    }

    /// Set a callback for OnChannelVolumeChanged notifications
    pub fn set_channel_volume_callback(&mut self, c: CV)
        ensures
            *final(self) == (EventCallbacks { channel_volume: Some(c), ..*old(self) }),
    {
        self.channel_volume = Some(c);
    }

    /// Remove a callback for OnChannelVolumeChanged notifications
    pub fn unset_channel_volume_callback(&mut self)
        ensures
            *final(self) == (EventCallbacks { channel_volume: None, ..*old(self) }),
    {
        self.channel_volume = None;
    }

    /// Set a callback for OnSessionDisconnected notifications
    pub fn set_disconnected_callback(&mut self, c: DC)
        ensures
            *final(self) == (EventCallbacks { disconnected: Some(c), ..*old(self) }),
    {
        self.disconnected = Some(c);
    }

    /// Remove a callback for OnSessionDisconnected notifications
    pub fn unset_disconnected_callback(&mut self)
        ensures
            *final(self) == (EventCallbacks { disconnected: None, ..*old(self) }),
    {
        self.disconnected = None;
    }

    /// Set a callback for OnStateChanged notifications
    pub fn set_state_callback(&mut self, c: ST)
        ensures
            *final(self) == (EventCallbacks { state: Some(c), ..*old(self) }),
    {
        self.state = Some(c);
    }

    /// Remove a callback for OnStateChanged notifications
    pub fn unset_state_callback(&mut self)
        ensures
            *final(self) == (EventCallbacks { state: None, ..*old(self) }),
    {
        self.state = None;
    }

    /// Set a callback for OnIconPathChanged notifications
    pub fn set_iconpath_callback(&mut self, c: IP)
        ensures
            *final(self) == (EventCallbacks { iconpath: Some(c), ..*old(self) }),
    {
        self.iconpath = Some(c);
    }

    /// Remove a callback for OnIconPathChanged notifications
    pub fn unset_iconpath_callback(&mut self)
        ensures
            *final(self) == (EventCallbacks { iconpath: None, ..*old(self) }),
    {
        self.iconpath = None;
    }

    /// Set a callback for OnDisplayNameChanged notifications
    pub fn set_displayname_callback(&mut self, c: DN)
        ensures
            *final(self) == (EventCallbacks { displayname: Some(c), ..*old(self) }),
    {
        self.displayname = Some(c);
    }

    /// Remove a callback for OnDisplayNameChanged notifications
    pub fn unset_displayname_callback(&mut self)
        ensures
            *final(self) == (EventCallbacks { displayname: None, ..*old(self) }),
    {
        self.displayname = None;
    }

    /// Set a callback for OnGroupingParamChanged notifications
    pub fn set_groupingparam_callback(&mut self, c: GP)
        ensures
            *final(self) == (EventCallbacks { groupingparam: Some(c), ..*old(self) }),
    {
        self.groupingparam = Some(c);
    }

    /// Remove a callback for OnGroupingParamChanged notifications
    pub fn unset_groupingparam_callback(&mut self)
        ensures
            *final(self) == (EventCallbacks { groupingparam: None, ..*old(self) }),
    {
        self.groupingparam = None;
    }
}

/// Receiver of session events, with the callbacks if their owner still has them. Each event
/// gives the callback that is to be called, and the arguments for it in their order; `None` if no
/// callback is to be called. Volumes, contexts and grouping parameters are handed on as they are.
pub struct AudioSessionEvents<'a, SV, CV, ST, DC, IP, DN, GP> {
    pub callbacks: Option<&'a EventCallbacks<SV, CV, ST, DC, IP, DN, GP>>,
}

impl<'a, SV, CV, ST, DC, IP, DN, GP> AudioSessionEvents<'a, SV, CV, ST, DC, IP, DN, GP> {
    /// Create a new AudioSessionEvents instance.
    pub fn new(callbacks: Option<&'a EventCallbacks<SV, CV, ST, DC, IP, DN, GP>>) -> (r: Self)
        ensures
            r.callbacks == callbacks,
    {
        AudioSessionEvents { callbacks }
    }

    /// The callbacks that are left: none if their owner has dropped them.
    pub open spec fn current(self) -> EventCallbacks<SV, CV, ST, DC, IP, DN, GP> {
        match self.callbacks {
            Some(callbacks) => *callbacks,
            None => EventCallbacks::none(),
        }
    }

    /// The state of the session changed to the one with this code.
    pub fn OnStateChanged(&self, newstate: i32) -> (r: Option<(&'a ST, SessionState)>)
        ensures
            match r {
                Some((callback, state)) => {
                    &&& self.current().state == Some(*callback)
                    &&& SessionState::of_code(newstate) == Some(state)
                },
                None => self.current().state is None || SessionState::of_code(newstate) is None,
            },
    {
        let sessionstate = match SessionState::from_code(newstate) {
            Some(state) => state,
            None => {
                return None;
            },
        };
        if let Some(callbacks) = self.callbacks {
            if let Some(callback) = &callbacks.state {
                return Some((callback, sessionstate));
            }
        }
        None
    }

    /// The session was disconnected for the reason with this code.
    pub fn OnSessionDisconnected(&self, disconnectreason: i32) -> (r: Option<
        (&'a DC, DisconnectReason),
    >)
        ensures
            match r {
                Some((callback, reason)) => {
                    &&& self.current().disconnected == Some(*callback)
                    &&& reason == DisconnectReason::of_code(disconnectreason)
                },
                None => self.current().disconnected is None,
            },
    {
        let reason = DisconnectReason::from_code(disconnectreason);
        if let Some(callbacks) = self.callbacks {
            if let Some(callback) = &callbacks.disconnected {
                return Some((callback, reason));
            }
        }
        None
    }

    /// The session has a new display name, given as a wide string.
    pub fn OnDisplayNameChanged<G>(&self, newdisplayname: &[u16], eventcontext: G) -> (r: Option<
        (&'a DN, String, G),
    >)
        requires
            newdisplayname@.contains(0u16),
        ensures
            match r {
                Some((callback, name, context)) => {
                    &&& self.current().displayname == Some(*callback)
                    &&& name@ == crate::text::wide_text(newdisplayname@)
                    &&& context == eventcontext
                },
                None => self.current().displayname is None,
            },
    {
        let name = decode_wide(newdisplayname);
        if let Some(callbacks) = self.callbacks {
            if let Some(callback) = &callbacks.displayname {
                return Some((callback, name, eventcontext));
            }
        }
        None
    }

    /// The session has a new icon path, given as a wide string.
    pub fn OnIconPathChanged<G>(&self, newiconpath: &[u16], eventcontext: G) -> (r: Option<
        (&'a IP, String, G),
    >)
        requires
            newiconpath@.contains(0u16),
        ensures
            match r {
                Some((callback, path, context)) => {
                    &&& self.current().iconpath == Some(*callback)
                    &&& path@ == crate::text::wide_text(newiconpath@)
                    &&& context == eventcontext
                },
                None => self.current().iconpath is None,
            },
    {
        let path = decode_wide(newiconpath);
        if let Some(callbacks) = self.callbacks {
            if let Some(callback) = &callbacks.iconpath {
                return Some((callback, path, eventcontext));
            }
        }
        None
    }

    /// The session has a new volume, and is mute if `newmute` is not 0.
    pub fn OnSimpleVolumeChanged<V, G>(
        &self,
        newvolume: V,
        newmute: i32,
        eventcontext: G,
    ) -> (r: Option<(&'a SV, V, bool, G)>)
        ensures
            match r {
                Some((callback, volume, mute, context)) => {
                    &&& self.current().simple_volume == Some(*callback)
                    &&& volume == newvolume
                    &&& mute == (newmute != 0)
                    &&& context == eventcontext
                },
                None => self.current().simple_volume is None,
            },
    {
        if let Some(callbacks) = self.callbacks {
            if let Some(callback) = &callbacks.simple_volume {
                return Some((callback, newvolume, newmute != 0, eventcontext));
            }
        }
        None
    }

    /// The volume of a channel changed. The volumes of all channels are given.
    pub fn OnChannelVolumeChanged<V: Copy, G>(
        &self,
        newchannelvolumes: &[V],
        changedchannel: u32,
        eventcontext: G,
    ) -> (r: Option<(&'a CV, usize, V, G)>)
        requires
            changedchannel < newchannelvolumes@.len(),
        ensures
            match r {
                Some((callback, channel, volume, context)) => {
                    &&& self.current().channel_volume == Some(*callback)
                    &&& channel == changedchannel
                    &&& volume == newchannelvolumes@[changedchannel as int]
                    &&& context == eventcontext
                },
                None => self.current().channel_volume is None,
            },
    {
        let newvol = newchannelvolumes[changedchannel as usize];
        if let Some(callbacks) = self.callbacks {
            if let Some(callback) = &callbacks.channel_volume {
                return Some((callback, changedchannel as usize, newvol, eventcontext));
            }
        }
        None
    }

    /// The session has a new grouping parameter.
    pub fn OnGroupingParamChanged<G>(&self, newgroupingparam: G, eventcontext: G) -> (r: Option<
        (&'a GP, G, G),
    >)
        ensures
            match r {
                Some((callback, grouping, context)) => {
                    &&& self.current().groupingparam == Some(*callback)
                    &&& grouping == newgroupingparam
                    &&& context == eventcontext
                },
                None => self.current().groupingparam is None,
            },
    {
        if let Some(callbacks) = self.callbacks {
            if let Some(callback) = &callbacks.groupingparam {
                return Some((callback, newgroupingparam, eventcontext));
            }
        }
        None
    }
}

/// Each state has one code, and a code is illegal exactly if no state has it. So the states that
/// `AudioSessionControl::get_state` returns are those that `AudioSessionEvents` passes on.
pub proof fn law_states_and_codes_match(code: i32, state: SessionState)
    ensures
        SessionState::of_code(code) == Some(state) <==> state.code() == code,
        SessionState::of_code(code) is None <==> !exists|s: SessionState| s.code() == code,
{
    if let Some(s) = SessionState::of_code(code) {
        assert(s.code() == code);
    }
}

/// Of the reasons for a disconnection, all but `Unknown` have one code each.
pub proof fn law_reason_codes_differ(a: i32, b: i32)
    ensures
        DisconnectReason::of_code(a) == DisconnectReason::of_code(b) ==> a == b
            || DisconnectReason::of_code(a) == DisconnectReason::Unknown,
        DisconnectReason::of_code(a) == DisconnectReason::Unknown <==> !(
        DISCONNECT_REASON_DEVICE_REMOVAL <= a <= DISCONNECT_REASON_EXCLUSIVE_MODE_OVERRIDE),
{
}

/// Unsetting a callback leaves the same as if it had never been set, and undoes setting it where
/// there was none before.
pub proof fn law_unset_undoes_set<SV, CV, ST, DC, IP, DN, GP>(
    c: EventCallbacks<SV, CV, ST, DC, IP, DN, GP>,
    new: EventCallbacks<SV, CV, ST, DC, IP, DN, GP>,
)
    ensures
        ({
            let set = EventCallbacks { simple_volume: new.simple_volume, ..c };
            let unset = EventCallbacks { simple_volume: None, ..set };
            &&& unset == (EventCallbacks { simple_volume: None, ..c })
            &&& c.simple_volume is None ==> unset == c
        }),
        ({
            let set = EventCallbacks { channel_volume: new.channel_volume, ..c };
            let unset = EventCallbacks { channel_volume: None, ..set };
            &&& unset == (EventCallbacks { channel_volume: None, ..c })
            &&& c.channel_volume is None ==> unset == c
        }),
        ({
            let set = EventCallbacks { state: new.state, ..c };
            let unset = EventCallbacks { state: None, ..set };
            &&& unset == (EventCallbacks { state: None, ..c })
            &&& c.state is None ==> unset == c
        }),
        ({
            let set = EventCallbacks { disconnected: new.disconnected, ..c };
            let unset = EventCallbacks { disconnected: None, ..set };
            &&& unset == (EventCallbacks { disconnected: None, ..c })
            &&& c.disconnected is None ==> unset == c
        }),
        ({
            let set = EventCallbacks { iconpath: new.iconpath, ..c };
            let unset = EventCallbacks { iconpath: None, ..set };
            &&& unset == (EventCallbacks { iconpath: None, ..c })
            &&& c.iconpath is None ==> unset == c
        }),
        ({
            let set = EventCallbacks { displayname: new.displayname, ..c };
            let unset = EventCallbacks { displayname: None, ..set };
            &&& unset == (EventCallbacks { displayname: None, ..c })
            &&& c.displayname is None ==> unset == c
        }),
        ({
            let set = EventCallbacks { groupingparam: new.groupingparam, ..c };
            let unset = EventCallbacks { groupingparam: None, ..set };
            &&& unset == (EventCallbacks { groupingparam: None, ..c })
            &&& c.groupingparam is None ==> unset == c
        }),
{
}

/// The states have the codes 1, 0 and 2, and the reasons for a disconnection the codes from 0 to
/// 5. Every other code is illegal for a state, and unknown for a reason.
pub proof fn law_codes_of_states_and_reasons(
    code: i32,
    state: Option<SessionState>,
    reason: DisconnectReason,
)
    requires
        call_ensures(SessionState::from_code, (code,), state),
        call_ensures(DisconnectReason::from_code, (code,), reason),
    ensures
        state == Some(SessionState::Inactive) <==> code == 0,
        state == Some(SessionState::Active) <==> code == 1,
        state == Some(SessionState::Expired) <==> code == 2,
        reason == DisconnectReason::DeviceRemoval <==> code == 0,
        reason == DisconnectReason::ServerShutdown <==> code == 1,
        reason == DisconnectReason::FormatChanged <==> code == 2,
        reason == DisconnectReason::SessionLogoff <==> code == 3,
        reason == DisconnectReason::SessionDisconnected <==> code == 4,
        reason == DisconnectReason::ExclusiveModeOverride <==> code == 5,
        SessionState::of_code(code) == state,
        DisconnectReason::of_code(code) == reason,
{
}

/// The state of a session is that of its code: 0 for inactive, 1 for active and 2 for expired.
/// Any other code is an error of its own, and an error of the system stays as it came.
pub proof fn law_state_is_that_of_the_code<S, E>(
    control: AudioSessionControl<S>,
    state: Result<i32, E>,
    r: WasapiRes<SessionState, E>,
)
    requires
        call_ensures(AudioSessionControl::<S>::get_state::<E>, (&control, state), r),
    ensures
        match state {
            Err(e) => r == Err::<SessionState, Failure<E>>(Failure::System(e)),
            Ok(code) => {
                &&& code == 0 ==> r == Ok::<SessionState, Failure<E>>(SessionState::Inactive)
                &&& code == 1 ==> r == Ok::<SessionState, Failure<E>>(SessionState::Active)
                &&& code == 2 ==> r == Ok::<SessionState, Failure<E>>(SessionState::Expired)
                &&& !(0 <= code <= 2) ==> (r matches Err(Failure::Wasapi(e)) && e@
                    == "Got an illegal state"@)
            },
        },
{
}

/// A registration succeeds exactly if the system accepts it. Otherwise its text is in the error.
pub proof fn law_registration_fails_with_the_text<S>(
    control: AudioSessionControl<S>,
    registered: Result<(), String>,
    r: Result<(), WasapiError>,
)
    requires
        call_ensures(
            AudioSessionControl::<S>::register_session_notification,
            (&control, registered),
            r,
        ),
    ensures
        r is Ok <==> registered is Ok,
        registered matches Err(text) ==> r->Err_0@ == "Failed to register notifications, "@ + text@,
{
}

/// New callbacks are all unset.
pub proof fn law_new_callbacks_are_unset<SV, CV, ST, DC, IP, DN, GP>(
    new: EventCallbacks<SV, CV, ST, DC, IP, DN, GP>,
    default: EventCallbacks<SV, CV, ST, DC, IP, DN, GP>,
)
    requires
        call_ensures(EventCallbacks::<SV, CV, ST, DC, IP, DN, GP>::new, (), new),
        call_ensures(EventCallbacks::<SV, CV, ST, DC, IP, DN, GP>::default, (), default),
    ensures
        new.simple_volume is None,
        new.channel_volume is None,
        new.state is None,
        new.disconnected is None,
        new.iconpath is None,
        new.displayname is None,
        new.groupingparam is None,
        default == new,
        new == EventCallbacks::<SV, CV, ST, DC, IP, DN, GP>::none(),
{
}

/// A receiver has the callbacks of their owner, each as it is. Once the owner has dropped them,
/// it has none.
pub proof fn law_receiver_has_the_callbacks_of_the_owner<'a, SV, CV, ST, DC, IP, DN, GP>(
    callbacks: Option<&'a EventCallbacks<SV, CV, ST, DC, IP, DN, GP>>,
    events: AudioSessionEvents<'a, SV, CV, ST, DC, IP, DN, GP>,
)
    requires
        call_ensures(
            AudioSessionEvents::<'a, SV, CV, ST, DC, IP, DN, GP>::new,
            (callbacks,),
            events,
        ),
    ensures
        events.callbacks == callbacks,
        callbacks matches Some(c) ==> {
            &&& events.current() == *c
            &&& events.current().simple_volume == c.simple_volume
            &&& events.current().channel_volume == c.channel_volume
            &&& events.current().state == c.state
            &&& events.current().disconnected == c.disconnected
            &&& events.current().iconpath == c.iconpath
            &&& events.current().displayname == c.displayname
            &&& events.current().groupingparam == c.groupingparam
        },
        callbacks is None ==> {
            &&& events.current().simple_volume is None
            &&& events.current().channel_volume is None
            &&& events.current().state is None
            &&& events.current().disconnected is None
            &&& events.current().iconpath is None
            &&& events.current().displayname is None
            &&& events.current().groupingparam is None
        },
{
}

/// A change of the state calls the callback for it exactly if the owner has one and the code is
/// that of a state, and hands it that state.
pub proof fn law_state_changes_reach_their_callback<'a, SV, CV, ST, DC, IP, DN, GP>(
    events: AudioSessionEvents<'a, SV, CV, ST, DC, IP, DN, GP>,
    code: i32,
    r: Option<(&'a ST, SessionState)>,
)
    requires
        call_ensures(
            AudioSessionEvents::<'a, SV, CV, ST, DC, IP, DN, GP>::OnStateChanged,
            (&events, code),
            r,
        ),
    ensures
        r is Some <==> events.callbacks is Some && events.callbacks->0.state is Some && 0 <= code
            <= 2,
        r matches Some((callback, state)) ==> {
            &&& Some(*callback) == events.callbacks->0.state
            &&& state == (if code == 0 {
                SessionState::Inactive
            } else if code == 1 {
                SessionState::Active
            } else {
                SessionState::Expired
            })
        },
{
}

/// A disconnection calls the callback for it exactly if the owner has one, and hands it the
/// reason with the code, which is unknown for a code without a reason.
pub proof fn law_disconnections_reach_their_callback<'a, SV, CV, ST, DC, IP, DN, GP>(
    events: AudioSessionEvents<'a, SV, CV, ST, DC, IP, DN, GP>,
    code: i32,
    r: Option<(&'a DC, DisconnectReason)>,
)
    requires
        call_ensures(
            AudioSessionEvents::<'a, SV, CV, ST, DC, IP, DN, GP>::OnSessionDisconnected,
            (&events, code),
            r,
        ),
    ensures
        r is Some <==> events.callbacks is Some && events.callbacks->0.disconnected is Some,
        r matches Some((callback, reason)) ==> {
            &&& Some(*callback) == events.callbacks->0.disconnected
            &&& reason is DeviceRemoval <==> code == 0
            &&& reason is ServerShutdown <==> code == 1
            &&& reason is FormatChanged <==> code == 2
            &&& reason is SessionLogoff <==> code == 3
            &&& reason is SessionDisconnected <==> code == 4
            &&& reason is ExclusiveModeOverride <==> code == 5
        },
{
}

/// A new display name calls the callback for it exactly if the owner has one, and hands it the text
/// of the units in front of the nul, and the context of the event. So a text in UTF-16 reads back.
pub proof fn law_display_names_reach_their_callback<'a, SV, CV, ST, DC, IP, DN, GP, G>(
    events: AudioSessionEvents<'a, SV, CV, ST, DC, IP, DN, GP>,
    units: &[u16],
    before: Seq<u16>,
    behind: Seq<u16>,
    text: Seq<char>,
    context: G,
    r: Option<(&'a DN, String, G)>,
)
    requires
        !before.contains(0u16),
        units@ == before + seq![0u16] + behind,
        call_ensures(
            AudioSessionEvents::<'a, SV, CV, ST, DC, IP, DN, GP>::OnDisplayNameChanged::<G>,
            (&events, units, context),
            r,
        ),
    ensures
        r is Some <==> events.callbacks is Some && events.callbacks->0.displayname is Some,
        r matches Some((callback, told, told_context)) ==> {
            &&& Some(*callback) == events.callbacks->0.displayname
            &&& told@ == crate::text::utf16_text(before)
            &&& before == crate::text::utf16_units(text) ==> told@ == text
            &&& told_context == context
        },
{
    crate::text::law_wide_text_ends_at_the_nul(before, behind);
    crate::text::law_encoded_text_decodes(text);
}

/// A new icon path calls the callback for it exactly if the owner has one, and hands it the text
/// of the units in front of the nul, and the context of the event. So a text in UTF-16 reads back.
pub proof fn law_icon_paths_reach_their_callback<'a, SV, CV, ST, DC, IP, DN, GP, G>(
    events: AudioSessionEvents<'a, SV, CV, ST, DC, IP, DN, GP>,
    units: &[u16],
    before: Seq<u16>,
    behind: Seq<u16>,
    text: Seq<char>,
    context: G,
    r: Option<(&'a IP, String, G)>,
)
    requires
        !before.contains(0u16),
        units@ == before + seq![0u16] + behind,
        call_ensures(
            AudioSessionEvents::<'a, SV, CV, ST, DC, IP, DN, GP>::OnIconPathChanged::<G>,
            (&events, units, context),
            r,
        ),
    ensures
        r is Some <==> events.callbacks is Some && events.callbacks->0.iconpath is Some,
        r matches Some((callback, told, told_context)) ==> {
            &&& Some(*callback) == events.callbacks->0.iconpath
            &&& told@ == crate::text::utf16_text(before)
            &&& before == crate::text::utf16_units(text) ==> told@ == text
            &&& told_context == context
        },
{
    crate::text::law_wide_text_ends_at_the_nul(before, behind);
    crate::text::law_encoded_text_decodes(text);
}

/// A new volume calls the callback for it exactly if the owner has one, and hands it the volume,
/// whether the session is mute, which it is for every number but 0, and the context.
pub proof fn law_volumes_reach_their_callback<'a, SV, CV, ST, DC, IP, DN, GP, V, G>(
    events: AudioSessionEvents<'a, SV, CV, ST, DC, IP, DN, GP>,
    volume: V,
    mute: i32,
    context: G,
    r: Option<(&'a SV, V, bool, G)>,
)
    requires
        call_ensures(
            AudioSessionEvents::<'a, SV, CV, ST, DC, IP, DN, GP>::OnSimpleVolumeChanged::<V, G>,
            (&events, volume, mute, context),
            r,
        ),
    ensures
        r is Some <==> events.callbacks is Some && events.callbacks->0.simple_volume is Some,
        r matches Some((callback, told, told_mute, told_context)) ==> {
            &&& Some(*callback) == events.callbacks->0.simple_volume
            &&& told == volume
            &&& !told_mute <==> mute == 0
            &&& told_context == context
        },
{
}

/// A new volume of a channel calls the callback for it exactly if the owner has one, and hands
/// it the number of the channel, the volume of that channel and the context.
pub proof fn law_channel_volumes_reach_their_callback<'a, SV, CV, ST, DC, IP, DN, GP, V: Copy, G>(
    events: AudioSessionEvents<'a, SV, CV, ST, DC, IP, DN, GP>,
    volumes: &[V],
    changed: u32,
    context: G,
    r: Option<(&'a CV, usize, V, G)>,
)
    requires
        changed < volumes@.len(),
        call_ensures(
            AudioSessionEvents::<'a, SV, CV, ST, DC, IP, DN, GP>::OnChannelVolumeChanged::<V, G>,
            (&events, volumes, changed, context),
            r,
        ),
    ensures
        r is Some <==> events.callbacks is Some && events.callbacks->0.channel_volume is Some,
        r matches Some((callback, channel, volume, told_context)) ==> {
            &&& Some(*callback) == events.callbacks->0.channel_volume
            &&& channel == changed
            &&& volume == volumes@[channel as int]
            &&& told_context == context
        },
{
}

/// A new grouping parameter calls the callback for it exactly if the owner has one, and hands it
/// the parameter first and the context after it.
pub proof fn law_grouping_parameters_reach_their_callback<'a, SV, CV, ST, DC, IP, DN, GP, G>(
    events: AudioSessionEvents<'a, SV, CV, ST, DC, IP, DN, GP>,
    parameter: G,
    context: G,
    r: Option<(&'a GP, G, G)>,
)
    requires
        call_ensures(
            AudioSessionEvents::<'a, SV, CV, ST, DC, IP, DN, GP>::OnGroupingParamChanged::<G>,
            (&events, parameter, context),
            r,
        ),
    ensures
        r is Some <==> events.callbacks is Some && events.callbacks->0.groupingparam is Some,
        r matches Some((callback, told, told_context)) ==> {
            &&& Some(*callback) == events.callbacks->0.groupingparam
            &&& told == parameter
            &&& told_context == context
        },
{
}

/// Setting the `simple_volume` callback sets it to the given one, and unsetting it leaves none. The
/// other callbacks stay as they were.
pub proof fn law_simple_volume_callback_is_set_alone<SV, CV, ST, DC, IP, DN, GP>(
    set: &mut EventCallbacks<SV, CV, ST, DC, IP, DN, GP>,
    c: SV,
    unset: &mut EventCallbacks<SV, CV, ST, DC, IP, DN, GP>,
)
    requires
        call_ensures(
            EventCallbacks::<SV, CV, ST, DC, IP, DN, GP>::set_simple_volume_callback,
            (set, c),
            (),
        ),
        call_ensures(
            EventCallbacks::<SV, CV, ST, DC, IP, DN, GP>::unset_simple_volume_callback,
            (unset,),
            (),
        ),
    ensures
        final(set).simple_volume == Some(c),
        final(unset).simple_volume is None,
        final(set).channel_volume == old(set).channel_volume,
        final(unset).channel_volume == old(unset).channel_volume,
        final(set).state == old(set).state,
        final(unset).state == old(unset).state,
        final(set).disconnected == old(set).disconnected,
        final(unset).disconnected == old(unset).disconnected,
        final(set).iconpath == old(set).iconpath,
        final(unset).iconpath == old(unset).iconpath,
        final(set).displayname == old(set).displayname,
        final(unset).displayname == old(unset).displayname,
        final(set).groupingparam == old(set).groupingparam,
        final(unset).groupingparam == old(unset).groupingparam,
{
}

/// Setting the `channel_volume` callback sets it to the given one, and unsetting it leaves none. The
/// other callbacks stay as they were.
pub proof fn law_channel_volume_callback_is_set_alone<SV, CV, ST, DC, IP, DN, GP>(
    set: &mut EventCallbacks<SV, CV, ST, DC, IP, DN, GP>,
    c: CV,
    unset: &mut EventCallbacks<SV, CV, ST, DC, IP, DN, GP>,
)
    requires
        call_ensures(
            EventCallbacks::<SV, CV, ST, DC, IP, DN, GP>::set_channel_volume_callback,
            (set, c),
            (),
        ),
        call_ensures(
            EventCallbacks::<SV, CV, ST, DC, IP, DN, GP>::unset_channel_volume_callback,
            (unset,),
            (),
        ),
    ensures
        final(set).channel_volume == Some(c),
        final(unset).channel_volume is None,
        final(set).simple_volume == old(set).simple_volume,
        final(unset).simple_volume == old(unset).simple_volume,
        final(set).state == old(set).state,
        final(unset).state == old(unset).state,
        final(set).disconnected == old(set).disconnected,
        final(unset).disconnected == old(unset).disconnected,
        final(set).iconpath == old(set).iconpath,
        final(unset).iconpath == old(unset).iconpath,
        final(set).displayname == old(set).displayname,
        final(unset).displayname == old(unset).displayname,
        final(set).groupingparam == old(set).groupingparam,
        final(unset).groupingparam == old(unset).groupingparam,
{
}

/// Setting the `state` callback sets it to the given one, and unsetting it leaves none. The
/// other callbacks stay as they were.
pub proof fn law_state_callback_is_set_alone<SV, CV, ST, DC, IP, DN, GP>(
    set: &mut EventCallbacks<SV, CV, ST, DC, IP, DN, GP>,
    c: ST,
    unset: &mut EventCallbacks<SV, CV, ST, DC, IP, DN, GP>,
)
    requires
        call_ensures(
            EventCallbacks::<SV, CV, ST, DC, IP, DN, GP>::set_state_callback,
            (set, c),
            (),
        ),
        call_ensures(
            EventCallbacks::<SV, CV, ST, DC, IP, DN, GP>::unset_state_callback,
            (unset,),
            (),
        ),
    ensures
        final(set).state == Some(c),
        final(unset).state is None,
        final(set).simple_volume == old(set).simple_volume,
        final(unset).simple_volume == old(unset).simple_volume,
        final(set).channel_volume == old(set).channel_volume,
        final(unset).channel_volume == old(unset).channel_volume,
        final(set).disconnected == old(set).disconnected,
        final(unset).disconnected == old(unset).disconnected,
        final(set).iconpath == old(set).iconpath,
        final(unset).iconpath == old(unset).iconpath,
        final(set).displayname == old(set).displayname,
        final(unset).displayname == old(unset).displayname,
        final(set).groupingparam == old(set).groupingparam,
        final(unset).groupingparam == old(unset).groupingparam,
{
}

/// Setting the `disconnected` callback sets it to the given one, and unsetting it leaves none. The
/// other callbacks stay as they were.
pub proof fn law_disconnected_callback_is_set_alone<SV, CV, ST, DC, IP, DN, GP>(
    set: &mut EventCallbacks<SV, CV, ST, DC, IP, DN, GP>,
    c: DC,
    unset: &mut EventCallbacks<SV, CV, ST, DC, IP, DN, GP>,
)
    requires
        call_ensures(
            EventCallbacks::<SV, CV, ST, DC, IP, DN, GP>::set_disconnected_callback,
            (set, c),
            (),
        ),
        call_ensures(
            EventCallbacks::<SV, CV, ST, DC, IP, DN, GP>::unset_disconnected_callback,
            (unset,),
            (),
        ),
    ensures
        final(set).disconnected == Some(c),
        final(unset).disconnected is None,
        final(set).simple_volume == old(set).simple_volume,
        final(unset).simple_volume == old(unset).simple_volume,
        final(set).channel_volume == old(set).channel_volume,
        final(unset).channel_volume == old(unset).channel_volume,
        final(set).state == old(set).state,
        final(unset).state == old(unset).state,
        final(set).iconpath == old(set).iconpath,
        final(unset).iconpath == old(unset).iconpath,
        final(set).displayname == old(set).displayname,
        final(unset).displayname == old(unset).displayname,
        final(set).groupingparam == old(set).groupingparam,
        final(unset).groupingparam == old(unset).groupingparam,
{
}

/// Setting the `iconpath` callback sets it to the given one, and unsetting it leaves none. The
/// other callbacks stay as they were.
pub proof fn law_iconpath_callback_is_set_alone<SV, CV, ST, DC, IP, DN, GP>(
    set: &mut EventCallbacks<SV, CV, ST, DC, IP, DN, GP>,
    c: IP,
    unset: &mut EventCallbacks<SV, CV, ST, DC, IP, DN, GP>,
)
    requires
        call_ensures(
            EventCallbacks::<SV, CV, ST, DC, IP, DN, GP>::set_iconpath_callback,
            (set, c),
            (),
        ),
        call_ensures(
            EventCallbacks::<SV, CV, ST, DC, IP, DN, GP>::unset_iconpath_callback,
            (unset,),
            (),
        ),
    ensures
        final(set).iconpath == Some(c),
        final(unset).iconpath is None,
        final(set).simple_volume == old(set).simple_volume,
        final(unset).simple_volume == old(unset).simple_volume,
        final(set).channel_volume == old(set).channel_volume,
        final(unset).channel_volume == old(unset).channel_volume,
        final(set).state == old(set).state,
        final(unset).state == old(unset).state,
        final(set).disconnected == old(set).disconnected,
        final(unset).disconnected == old(unset).disconnected,
        final(set).displayname == old(set).displayname,
        final(unset).displayname == old(unset).displayname,
        final(set).groupingparam == old(set).groupingparam,
        final(unset).groupingparam == old(unset).groupingparam,
{
}

/// Setting the `displayname` callback sets it to the given one, and unsetting it leaves none. The
/// other callbacks stay as they were.
pub proof fn law_displayname_callback_is_set_alone<SV, CV, ST, DC, IP, DN, GP>(
    set: &mut EventCallbacks<SV, CV, ST, DC, IP, DN, GP>,
    c: DN,
    unset: &mut EventCallbacks<SV, CV, ST, DC, IP, DN, GP>,
)
    requires
        call_ensures(
            EventCallbacks::<SV, CV, ST, DC, IP, DN, GP>::set_displayname_callback,
            (set, c),
            (),
        ),
        call_ensures(
            EventCallbacks::<SV, CV, ST, DC, IP, DN, GP>::unset_displayname_callback,
            (unset,),
            (),
        ),
    ensures
        final(set).displayname == Some(c),
        final(unset).displayname is None,
        final(set).simple_volume == old(set).simple_volume,
        final(unset).simple_volume == old(unset).simple_volume,
        final(set).channel_volume == old(set).channel_volume,
        final(unset).channel_volume == old(unset).channel_volume,
        final(set).state == old(set).state,
        final(unset).state == old(unset).state,
        final(set).disconnected == old(set).disconnected,
        final(unset).disconnected == old(unset).disconnected,
        final(set).iconpath == old(set).iconpath,
        final(unset).iconpath == old(unset).iconpath,
        final(set).groupingparam == old(set).groupingparam,
        final(unset).groupingparam == old(unset).groupingparam,
{
}

/// Setting the `groupingparam` callback sets it to the given one, and unsetting it leaves none. The
/// other callbacks stay as they were.
pub proof fn law_groupingparam_callback_is_set_alone<SV, CV, ST, DC, IP, DN, GP>(
    set: &mut EventCallbacks<SV, CV, ST, DC, IP, DN, GP>,
    c: GP,
    unset: &mut EventCallbacks<SV, CV, ST, DC, IP, DN, GP>,
)
    requires
        call_ensures(
            EventCallbacks::<SV, CV, ST, DC, IP, DN, GP>::set_groupingparam_callback,
            (set, c),
            (),
        ),
        call_ensures(
            EventCallbacks::<SV, CV, ST, DC, IP, DN, GP>::unset_groupingparam_callback,
            (unset,),
            (),
        ),
    ensures
        final(set).groupingparam == Some(c),
        final(unset).groupingparam is None,
        final(set).simple_volume == old(set).simple_volume,
        final(unset).simple_volume == old(unset).simple_volume,
        final(set).channel_volume == old(set).channel_volume,
        final(unset).channel_volume == old(unset).channel_volume,
        final(set).state == old(set).state,
        final(unset).state == old(unset).state,
        final(set).disconnected == old(set).disconnected,
        final(unset).disconnected == old(unset).disconnected,
        final(set).iconpath == old(set).iconpath,
        final(unset).iconpath == old(unset).iconpath,
        final(set).displayname == old(set).displayname,
        final(unset).displayname == old(unset).displayname,
{
}

} // verus!
