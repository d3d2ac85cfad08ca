use wasapi::session::{
    AUDIO_SESSION_STATE_ACTIVE, AUDIO_SESSION_STATE_EXPIRED, AUDIO_SESSION_STATE_INACTIVE,
    DISCONNECT_REASON_DEVICE_REMOVAL, DISCONNECT_REASON_EXCLUSIVE_MODE_OVERRIDE,
    DISCONNECT_REASON_FORMAT_CHANGED, DISCONNECT_REASON_SERVER_SHUTDOWN,
    DISCONNECT_REASON_SESSION_DISCONNECTED, DISCONNECT_REASON_SESSION_LOGOFF,
};
use wasapi::{
    AudioSessionControl, AudioSessionEvents, DisconnectReason, EventCallbacks, Failure,
    SessionState, WasapiError,
};
use windows::Win32::Media::Audio::CoreAudio as core_audio;

type Callbacks = EventCallbacks<u8, u8, u8, u8, u8, u8, u8>;

fn all_set() -> Callbacks {
    let mut c = Callbacks::new();
    c.set_simple_volume_callback(1);
    c.set_channel_volume_callback(2);
    c.set_state_callback(3);
    c.set_disconnected_callback(4);
    c.set_iconpath_callback(5);
    c.set_displayname_callback(6);
    c.set_groupingparam_callback(7);
    c
}

fn slots(c: &Callbacks) -> [Option<u8>; 7] {
    [
        c.simple_volume,
        c.channel_volume,
        c.state,
        c.disconnected,
        c.iconpath,
        c.displayname,
        c.groupingparam,
    ]
}

#[test]
fn session_constants_agree_with_the_system() {
    assert_eq!(AUDIO_SESSION_STATE_INACTIVE, core_audio::AudioSessionStateInactive.0);
    assert_eq!(AUDIO_SESSION_STATE_ACTIVE, core_audio::AudioSessionStateActive.0);
    assert_eq!(AUDIO_SESSION_STATE_EXPIRED, core_audio::AudioSessionStateExpired.0);
    assert_eq!(DISCONNECT_REASON_DEVICE_REMOVAL, core_audio::DisconnectReasonDeviceRemoval.0);
    assert_eq!(DISCONNECT_REASON_SERVER_SHUTDOWN, core_audio::DisconnectReasonServerShutdown.0);
    assert_eq!(DISCONNECT_REASON_FORMAT_CHANGED, core_audio::DisconnectReasonFormatChanged.0);
    assert_eq!(DISCONNECT_REASON_SESSION_LOGOFF, core_audio::DisconnectReasonSessionLogoff.0);
    assert_eq!(
        DISCONNECT_REASON_SESSION_DISCONNECTED,
        core_audio::DisconnectReasonSessionDisconnected.0
    );
    assert_eq!(
        DISCONNECT_REASON_EXCLUSIVE_MODE_OVERRIDE,
        core_audio::DisconnectReasonExclusiveModeOverride.0
    );
}

#[test]
fn error_keeps_its_description() {
    assert_eq!(WasapiError::new("Something").description(), "Something");
    assert_eq!(WasapiError::new("").description(), "");
}

#[test]
fn session_state_is_decoded() {
    let control = AudioSessionControl { control: 1u8 };
    assert!(matches!(control.get_state::<i32>(Ok(1)), Ok(SessionState::Active)));
    assert!(matches!(control.get_state::<i32>(Ok(0)), Ok(SessionState::Inactive)));
    assert!(matches!(control.get_state::<i32>(Ok(2)), Ok(SessionState::Expired)));
    for code in [-1, 3, i32::MAX] {
        match control.get_state::<i32>(Ok(code)) {
            Err(Failure::Wasapi(e)) => assert_eq!(e.description(), "Got an illegal state"),
            _ => panic!(),
        }
    }
    assert!(matches!(control.get_state(Err(-9)), Err(Failure::System(-9))));
}

#[test]
fn registration_failure_is_described() {
    let control = AudioSessionControl { control: 1u8 };
    assert!(control.register_session_notification(Ok(())).is_ok());
    let e = control.register_session_notification(Err("denied".to_string())).err().unwrap();
    assert_eq!(e.description(), "Failed to register notifications, denied");
}

#[test]
fn callbacks_start_empty_and_are_set_one_by_one() {
    assert_eq!(slots(&Callbacks::new()), [None; 7]);
    assert_eq!(slots(&Callbacks::default()), [None; 7]);
    assert_eq!(
        slots(&all_set()),
        [Some(1), Some(2), Some(3), Some(4), Some(5), Some(6), Some(7)]
    );
}

#[test]
fn unset_undoes_set_and_touches_nothing_else() {
    let mut c = all_set();
    c.set_state_callback(30);
    c.unset_state_callback();
    assert_eq!(slots(&c), [Some(1), Some(2), None, Some(4), Some(5), Some(6), Some(7)]);
    c.unset_simple_volume_callback();
    c.unset_channel_volume_callback();
    assert_eq!(slots(&c), [None, None, None, Some(4), Some(5), Some(6), Some(7)]);
    c.unset_disconnected_callback();
    c.unset_iconpath_callback();
    assert_eq!(slots(&c), [None, None, None, None, None, Some(6), Some(7)]);
    c.unset_displayname_callback();
    c.unset_groupingparam_callback();
    assert_eq!(slots(&c), [None; 7]);
}

#[test]
fn state_events_call_the_state_callback() {
    let c = all_set();
    let events = AudioSessionEvents::new(Some(&c));
    assert_eq!(events.OnStateChanged(1), Some((&3, SessionState::Active)));
    assert_eq!(events.OnStateChanged(0), Some((&3, SessionState::Inactive)));
    assert_eq!(events.OnStateChanged(2), Some((&3, SessionState::Expired)));
    assert_eq!(events.OnStateChanged(3), None);
    assert_eq!(events.OnStateChanged(-1), None);
}

#[test]
fn every_disconnect_reason_is_told() {
    let c = all_set();
    let events = AudioSessionEvents::new(Some(&c));
    let reasons = [
        DisconnectReason::DeviceRemoval,
        DisconnectReason::ServerShutdown,
        DisconnectReason::FormatChanged,
        DisconnectReason::SessionLogoff,
        DisconnectReason::SessionDisconnected,
        DisconnectReason::ExclusiveModeOverride,
        DisconnectReason::Unknown,
    ];
    for (code, reason) in reasons.iter().enumerate() {
        assert_eq!(events.OnSessionDisconnected(code as i32), Some((&4, *reason)));
    }
    assert_eq!(events.OnSessionDisconnected(-1), Some((&4, DisconnectReason::Unknown)));
}

#[test]
fn other_events_carry_their_values() {
    let c = all_set();
    let events = AudioSessionEvents::new(Some(&c));
    let text = [0x57u16, 0x41, 0x56, 0, 0x58];
    assert_eq!(events.OnDisplayNameChanged(&text, 'c'), Some((&6, "WAV".to_string(), 'c')));
    assert_eq!(events.OnIconPathChanged(&text, 'd'), Some((&5, "WAV".to_string(), 'd')));
    assert_eq!(
        events.OnChannelVolumeChanged(&[0.1f32, 0.2, 0.3], 1, 'e'),
        Some((&2, 1usize, 0.2f32, 'e'))
    );
    assert_eq!(
        events.OnGroupingParamChanged("grouping", "context"),
        Some((&7, "grouping", "context"))
    );
}

#[test]
fn any_nonzero_number_mutes() {
    let c = all_set();
    let events = AudioSessionEvents::new(Some(&c));
    for number in [0, 1, 2, -1, i32::MIN, i32::MAX] {
        let mute = bool::from(windows::Win32::Foundation::BOOL(number));
        assert_eq!(mute, number != 0);
        assert_eq!(
            events.OnSimpleVolumeChanged(0.25f32, number, 'f'),
            Some((&1, 0.25f32, mute, 'f'))
        );
    }
}

#[test]
fn unset_callbacks_are_not_called() {
    let c = Callbacks::new();
    for events in [AudioSessionEvents::new(Some(&c)), AudioSessionEvents::new(None)] {
        assert_eq!(events.OnStateChanged(1), None);
        assert_eq!(events.OnSessionDisconnected(0), None);
        assert_eq!(events.OnDisplayNameChanged(&[0], 'c'), None);
        assert_eq!(events.OnIconPathChanged(&[0], 'c'), None);
        assert_eq!(events.OnSimpleVolumeChanged(1.0f32, 0, 'c'), None);
        assert_eq!(events.OnChannelVolumeChanged(&[1.0f32], 0, 'c'), None);
        assert_eq!(events.OnGroupingParamChanged('p', 'c'), None);
    }
}
