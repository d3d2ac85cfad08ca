use wasapi::device::{
    default_endpoint_query, device_property, DefaultEndpointQuery, EndpointsQuery, PropertyKey,
    DEVICE_STATE_ACTIVE, E_CAPTURE, E_CONSOLE, E_RENDER, STGM_READ,
};
use wasapi::{get_default_device, Device, DeviceCollection, Direction};
use windows::Win32::Media::Audio::CoreAudio as core_audio;
use windows::Win32::System::PropertiesSystem::PROPERTYKEY;
use windows::Win32::System::SystemServices as services;

fn key_is(key: PropertyKey, system: PROPERTYKEY) {
    assert_eq!(key.fmtid.data1, system.fmtid.data1);
    assert_eq!(key.fmtid.data2, system.fmtid.data2);
    assert_eq!(key.fmtid.data3, system.fmtid.data3);
    assert_eq!(key.fmtid.data4.to_be_bytes(), system.fmtid.data4);
    assert_eq!(key.pid, system.pid);
}

fn wide(text: &str) -> Vec<u16> {
    widestring::U16CString::from_str(text).unwrap().into_vec_with_nul()
}

#[test]
fn device_constants_agree_with_the_system() {
    assert_eq!(E_RENDER, core_audio::eRender.0);
    assert_eq!(E_CAPTURE, core_audio::eCapture.0);
    assert_eq!(E_CONSOLE, core_audio::eConsole.0);
    assert_eq!(DEVICE_STATE_ACTIVE, core_audio::DEVICE_STATE_ACTIVE);
    assert_eq!(
        STGM_READ,
        windows::Win32::Storage::StructuredStorage::STGM_READ as u32
    );
    key_is(Device::<u8>::friendlyname_key(), services::DEVPKEY_Device_FriendlyName);
    key_is(Device::<u8>::description_key(), services::DEVPKEY_Device_DeviceDesc);
    assert_eq!(device_property(14), Device::<u8>::friendlyname_key());
}

#[test]
fn default_device_has_the_direction() {
    assert_eq!(
        default_endpoint_query(&Direction::Capture),
        DefaultEndpointQuery { data_flow: 1, role: 0 }
    );
    assert_eq!(
        default_endpoint_query(&Direction::Render),
        DefaultEndpointQuery { data_flow: 0, role: 0 }
    );
    let device = get_default_device::<_, i32>(&Direction::Capture, Ok("mic")).unwrap();
    assert_eq!(device.device, "mic");
    assert_eq!(device.direction, Direction::Capture);
    assert_eq!(get_default_device::<u8, _>(&Direction::Render, Err(-5)).err(), Some(-5));
}

#[test]
fn collection_hands_its_direction_to_devices() {
    assert_eq!(
        DeviceCollection::<u8>::endpoints_query(&Direction::Render),
        EndpointsQuery { data_flow: 0, state_mask: 1 }
    );
    let c = DeviceCollection::new::<i32>(&Direction::Capture, Ok("list")).unwrap();
    assert_eq!(c.collection, "list");
    let d = c.get_device_at_index::<_, i32>(Ok(7u8)).unwrap();
    assert_eq!(d.device, 7);
    assert_eq!(d.direction, Direction::Capture);
    assert_eq!(c.get_device_at_index::<u8, _>(Err(3)).err(), Some(3));
    assert_eq!(DeviceCollection::<u8>::new(&Direction::Capture, Err(4)).err(), Some(4));
}

#[test]
fn client_of_a_device_is_not_initialized() {
    let d = Device { device: 1u8, direction: Direction::Render };
    let client = d.get_iaudioclient::<_, i32>(Ok("client")).unwrap();
    assert_eq!(client.client, "client");
    assert_eq!(client.direction, Direction::Render);
    assert!(client.sharemode.is_none());
    assert_eq!(d.get_iaudioclient::<u8, _>(Err(9)).err(), Some(9));
}

#[test]
fn names_are_decoded() {
    let d = Device { device: 1u8, direction: Direction::Render };
    let name = wide("H\u{f6}rer \u{1F3A7}");
    assert_eq!(d.get_friendlyname::<i32>(Ok(&name)).unwrap(), "H\u{f6}rer \u{1F3A7}");
    assert_eq!(d.get_description::<i32>(Ok(&wide("Speakers"))).unwrap(), "Speakers");
    assert_eq!(d.get_id::<i32>(Ok(&wide("{0.0.0}"))).unwrap(), "{0.0.0}");
    assert_eq!(d.get_friendlyname(Err(-1)).err(), Some(-1));
    assert_eq!(d.get_description(Err(-2)).err(), Some(-2));
    assert_eq!(d.get_id(Err(-3)).err(), Some(-3));
}

#[test]
fn text_ends_at_the_first_nul_and_keeps_no_lone_surrogate() {
    let d = Device { device: 1u8, direction: Direction::Render };
    let units = [0x41, 0xD800, 0x42, 0xDC00, 0xD83C, 0xDFA7, 0xD801, 0, 0x43, 0];
    assert_eq!(
        d.get_friendlyname::<i32>(Ok(&units)).unwrap(),
        "A\u{FFFD}B\u{FFFD}\u{1F3A7}\u{FFFD}"
    );
    assert_eq!(d.get_friendlyname::<i32>(Ok(&[0, 0x41])).unwrap(), "");
}

fn search(names: &[&str], wanted: &str) -> Result<u32, String> {
    let c = DeviceCollection { collection: 1u8, direction: Direction::Render };
    let mut s = c.get_device_with_name::<i32>(wanted, Ok(names.len() as u32)).unwrap();
    loop {
        match s.next_index() {
            Ok(n) => {
                if s.is_match(&names[n as usize].to_string()) {
                    return Ok(n);
                }
            }
            Err(e) => return Err(e.description().to_string()),
        }
    }
}

#[test]
fn search_finds_the_first_match() {
    assert_eq!(search(&["a", "b", "c", "b"], "b"), Ok(1));
    assert_eq!(search(&["a"], "a"), Ok(0));
    assert_eq!(search(&["a", "b"], "B"), Err("Unable to find device B".to_string()));
    assert_eq!(search(&[], "x"), Err("Unable to find device x".to_string()));
}

#[test]
fn search_needs_the_number_of_devices() {
    let c = DeviceCollection { collection: 1u8, direction: Direction::Render };
    assert_eq!(c.get_device_with_name("a", Err(6)).err(), Some(6));
}

#[test]
fn matched_device_stays_current() {
    let c = DeviceCollection { collection: 1u8, direction: Direction::Render };
    let mut s = c.get_device_with_name::<i32>("a", Ok(2)).unwrap();
    assert!(s.is_match(&"a".to_string()));
    assert_eq!(s.next_index().unwrap(), 0);
    assert!(!s.is_match(&"b".to_string()));
    assert_eq!(s.next_index().unwrap(), 1);
}
