//! Audio endpoints: choosing, listing and finding devices.
use crate::client::AudioClient;
use crate::error::WasapiError;
use crate::guid::Guid;
use crate::text::decode_wide;
use vstd::prelude::*;

verus! {

/// Data flow of playback endpoints.
pub const E_RENDER: i32 = 0;

/// Data flow of capture endpoints.
pub const E_CAPTURE: i32 = 1;

/// Role of the endpoint that interacts with the user in general.
pub const E_CONSOLE: i32 = 0;

/// State mask of endpoints that are present and enabled.
pub const DEVICE_STATE_ACTIVE: u32 = 1;

/// Storage access mode for reading properties.
pub const STGM_READ: u32 = 0;

/// Audio direction, playback or capture.
#[derive(Clone, Copy, Debug, PartialEq, Eq, Structural)]
pub enum Direction {
    Render,
    Capture,
}

impl Direction {
    /// The data flow that stands for a direction in system calls.
    pub open spec fn flow(self) -> i32 {
        match self {
            Direction::Capture => E_CAPTURE,
            Direction::Render => E_RENDER,
        }
    }

    /// The data flow to name in system calls.
    pub fn data_flow(&self) -> (r: i32)
        ensures
            r == self.flow(),
    {
        match self {
            Direction::Capture => E_CAPTURE,
            Direction::Render => E_RENDER,
        }
    }
}

/// Arguments for `IMMDeviceEnumerator::GetDefaultAudioEndpoint`.
#[derive(Clone, Copy, Debug, PartialEq, Eq, Structural)]
pub struct DefaultEndpointQuery {
    pub data_flow: i32,
    pub role: i32,
}

/// The call that finds the default device for a direction.
pub fn default_endpoint_query(direction: &Direction) -> (r: DefaultEndpointQuery)
    ensures
        r == (DefaultEndpointQuery { data_flow: direction.flow(), role: E_CONSOLE }),
{
    DefaultEndpointQuery { data_flow: direction.data_flow(), role: E_CONSOLE }
}

/// Get the default playback or capture device, from the endpoint that the system named for
/// `default_endpoint_query`.
pub fn get_default_device<D, E>(direction: &Direction, endpoint: Result<D, E>) -> (r: Result<
    Device<D>,
    E,
>)
    ensures
        match endpoint {
            Ok(device) => r == Ok::<Device<D>, E>(Device { device, direction: *direction }),
            Err(e) => r == Err::<Device<D>, E>(e),
        },
{
    match endpoint {
        Ok(device) => Ok(Device { device, direction: *direction }),
        Err(e) => Err(e),
    }
}

/// Arguments for `IMMDeviceEnumerator::EnumAudioEndpoints`.
#[derive(Clone, Copy, Debug, PartialEq, Eq, Structural)]
pub struct EndpointsQuery {
    pub data_flow: i32,
    pub state_mask: u32,
}

/// An IMMDeviceCollection of type `C`, with the direction of its devices.
#[derive(Debug)]
pub struct DeviceCollection<C> {
    pub collection: C,
    pub direction: Direction,
}

impl<C> DeviceCollection<C> {
    /// The call that lists the devices for a direction.
    pub fn endpoints_query(direction: &Direction) -> (r: EndpointsQuery)
        ensures
            r == (EndpointsQuery { data_flow: direction.flow(), state_mask: DEVICE_STATE_ACTIVE }),
    {
        EndpointsQuery { data_flow: direction.data_flow(), state_mask: DEVICE_STATE_ACTIVE }
    }

    /// Get an IMMDeviceCollection of all active playback or capture devices, from the list that
    /// the system made for `endpoints_query`.
    pub fn new<E>(direction: &Direction, endpoints: Result<C, E>) -> (r: Result<Self, E>)
        ensures
            match endpoints {
                Ok(collection) => r == Ok::<DeviceCollection<C>, E>(
                    DeviceCollection { collection, direction: *direction },
                ),
                Err(e) => r == Err::<DeviceCollection<C>, E>(e),
            },
    {
        match endpoints {
            Ok(collection) => Ok(DeviceCollection { collection, direction: *direction }),
            Err(e) => Err(e),
        }
    }

    /// Get a device from an IMMDeviceCollection, from the item that the system returned for an
    /// index.
    pub fn get_device_at_index<D, E>(&self, item: Result<D, E>) -> (r: Result<Device<D>, E>)
        ensures
            match item {
                Ok(device) => r == Ok::<Device<D>, E>(
                    Device { device, direction: self.direction },
                ),
                Err(e) => r == Err::<Device<D>, E>(e),
            },
    {
        match item {
            Ok(device) => Ok(Device { device, direction: self.direction }),
            Err(e) => Err(e),
        }
    }

    /// Get a device from an IMMDeviceCollection using name: starts the search, given the number
    /// of devices that the system reported.
    pub fn get_device_with_name<E>(&self, name: &str, count: Result<u32, E>) -> (r: Result<
        NameSearch,
        E,
    >)
        ensures
            match count {
                Ok(n) => r matches Ok(s) && s@ == (Search { name: name@, count: n as nat, next: 0 }),
                Err(e) => r == Err::<NameSearch, E>(e),
            },
    {
        match count {
            Ok(count) => Ok(NameSearch { name: name.to_owned(), count, next: 0 }),
            Err(e) => Err(e),
        }
    }
}

/// A search for the first device with a given name. While `next_index` gives an index, get that
/// device and its friendly name and hand the name to `is_match`: the search ends with that
/// device if it matches. An error on the way ends the search with that error.
#[derive(Debug)]
pub struct NameSearch {
    name: String,
    count: u32,
    next: u32,
}

/// The state of a search: the wanted name, the number of devices, and the index of the device to
/// look at next.
pub struct Search {
    pub name: Seq<char>,
    pub count: nat,
    pub next: nat,
}

/// How a search ends.
pub enum SearchEnd {
    /// With the device at this index.
    Found(nat),
    /// With the error that the device at this index gave.
    Failed(nat),
    /// With no device.
    NotFound,
}

impl Search {
    /// The device to look at, if one is left.
    pub open spec fn index(self) -> Option<nat> {
        if self.next < self.count {
            Some(self.next)
        } else {
            None
        }
    }

    /// Whether a device named `devname` is the wanted one, and the search after looking at it.
    pub open spec fn look_at(self, devname: Seq<char>) -> (bool, Search) {
        if devname == self.name {
            (true, self)
        } else {
            (false, Search { next: self.next + 1, ..self })
        }
    }

    /// The end of the search where the devices have the given names, `None` for a device that
    /// cannot be got or whose name cannot be read.
    pub open spec fn end(self, names: Seq<Option<Seq<char>>>) -> SearchEnd
        decreases self.count - self.next,
    {
        match self.index() {
            None => SearchEnd::NotFound,
            Some(n) => match names[n as int] {
                None => SearchEnd::Failed(n),
                Some(devname) => {
                    let (found, rest) = self.look_at(devname);
                    if found {
                        SearchEnd::Found(n)
                    } else {
                        rest.end(names)
                    }
                },
            },
        }
    }
}

impl View for NameSearch {
    type V = Search;

    closed spec fn view(&self) -> Search {
        Search { name: self.name@, count: self.count as nat, next: self.next as nat }
    }
}

impl NameSearch {
    /// The index of the device to look at, or the error that no device is left.
    pub fn next_index(&self) -> (r: Result<u32, WasapiError>)
        ensures
            match r {
                Ok(n) => self@.index() == Some(n as nat),
                Err(e) => self@.index() is None && e@ == "Unable to find device "@ + self@.name,
            },
    {
        if self.next < self.count {
            Ok(self.next)
        } else {
            let mut desc = "Unable to find device ".to_owned();
            desc.append(self.name.as_str());
            Err(WasapiError::new(desc.as_str()))
        }
    }

    /// Compares the name of the device at `next_index` with the wanted one. If they differ, the
    /// search moves on to the following device.
    pub fn is_match(&mut self, devname: &String) -> (r: bool)
        requires
            old(self)@.index() is Some,
        ensures
            (r, final(self)@) == old(self)@.look_at(devname@),
    {
        if self.name == *devname {
            true
        } else {
            self.next = self.next + 1;
            false
        }
    }
}

/// No device before index `n` ends a search for `name`.
pub open spec fn passed(names: Seq<Option<Seq<char>>>, name: Seq<char>, n: int) -> bool {
    forall|i: int| 0 <= i < n ==> (#[trigger] names[i] matches Some(devname) && devname != name)
}

/// The end of a search that has passed the devices before `s.next`.
proof fn lemma_search_end(s: Search, names: Seq<Option<Seq<char>>>)
    requires
        names.len() == s.count,
        s.next <= s.count,
        passed(names, s.name, s.next as int),
    ensures
        match s.end(names) {
            SearchEnd::Found(n) => {
                &&& n < s.count
                &&& names[n as int] == Some(s.name)
                &&& passed(names, s.name, n as int)
            },
            SearchEnd::Failed(n) => {
                &&& n < s.count
                &&& names[n as int] is None
                &&& passed(names, s.name, n as int)
            },
            SearchEnd::NotFound => passed(names, s.name, s.count as int),
        },
    decreases s.count - s.next,
{
    if s.next < s.count {
        match names[s.next as int] {
            None => {},
            Some(devname) => {
                let (found, rest) = s.look_at(devname);
                if !found {
                    lemma_search_end(rest, names);
                }
            },
        }
    }
}

/// A search finds the first device with the wanted name. It ends with an error of the system
/// only at a device that comes before any such device, and reports that there is no such device
/// only if the names of all devices were read and differ from the wanted one.
pub proof fn law_search_finds_the_first(name: Seq<char>, names: Seq<Option<Seq<char>>>)
    ensures
        match (Search { name, count: names.len(), next: 0 }).end(names) {
            SearchEnd::Found(n) => {
                &&& n < names.len()
                &&& names[n as int] == Some(name)
                &&& passed(names, name, n as int)
            },
            SearchEnd::Failed(n) => {
                &&& n < names.len()
                &&& names[n as int] is None
                &&& passed(names, name, n as int)
            },
            SearchEnd::NotFound => passed(names, name, names.len() as int),
        },
{
    lemma_search_end(Search { name, count: names.len(), next: 0 }, names);
}

/// A property of a device, in the way the system names it.
#[derive(Clone, Copy, Debug, PartialEq, Eq, Structural)]
pub struct PropertyKey {
    pub fmtid: Guid,
    pub pid: u32,
}

/// The property number `pid` among those that describe a device.
#[verifier::allow_in_spec]
pub fn device_property(pid: u32) -> PropertyKey
    returns
        (PropertyKey {
            fmtid: Guid {
                data1: 0xA45C254E,
                data2: 0xDF1C,
                data3: 0x4EFD,
                data4: 0x8020_67D1_46A8_50E0,
            },
            pid,
        }),
{
    let fmtid = Guid {
        data1: 0xA45C254E,
        data2: 0xDF1C,
        data3: 0x4EFD,
        data4: 0x8020_67D1_46A8_50E0,
    };
    PropertyKey { fmtid, pid }
}

/// An IMMDevice of type `D`, with its direction.
#[derive(Debug)]
pub struct Device<D> {
    pub device: D,
    pub direction: Direction,
}

impl<D> Device<D> {
    /// Get an IAudioClient from an IMMDevice, from what activating the device returned. The
    /// client has no share mode before it is initialized.
    pub fn get_iaudioclient<A, E>(&self, activated: Result<A, E>) -> (r: Result<AudioClient<A>, E>)
        ensures
            match activated {
                Ok(client) => r == Ok::<AudioClient<A>, E>(
                    AudioClient { client, direction: self.direction, sharemode: None },
                ),
                Err(e) => r == Err::<AudioClient<A>, E>(e),
            },
    {
        match activated {
            Ok(client) => Ok(AudioClient { client, direction: self.direction, sharemode: None }),
            Err(e) => Err(e),
        }
    }

    /// The property that holds the FriendlyName of a device. Open the store of the properties
    /// with `STGM_READ`.
    pub fn friendlyname_key() -> (r: PropertyKey)
        ensures
            r == device_property(14),
    {
        device_property(14)
    }

    /// The property that holds the Description of a device. Open the store of the properties
    /// with `STGM_READ`.
    pub fn description_key() -> (r: PropertyKey)
        ensures
            r == device_property(2),
    {
        device_property(2)
    }

    /// Read the FriendlyName of an IMMDevice, from the wide string that the property
    /// `friendlyname_key` holds.
    pub fn get_friendlyname<E>(&self, value: Result<&[u16], E>) -> (r: Result<String, E>)
        requires
            value matches Ok(units) ==> units@.contains(0u16),
        ensures
            match value {
                Ok(units) => r matches Ok(name) && name@ == crate::text::wide_text(units@),
                Err(e) => r == Err::<String, E>(e),
            },
    {
        match value {
            Ok(units) => Ok(decode_wide(units)),
            Err(e) => Err(e),
        }
    }

    /// Read the Description of an IMMDevice, from the wide string that the property
    /// `description_key` holds.
    pub fn get_description<E>(&self, value: Result<&[u16], E>) -> (r: Result<String, E>)
        requires
            value matches Ok(units) ==> units@.contains(0u16),
        ensures
            match value {
                Ok(units) => r matches Ok(desc) && desc@ == crate::text::wide_text(units@),
                Err(e) => r == Err::<String, E>(e),
            },
    {
        match value {
            Ok(units) => Ok(decode_wide(units)),
            Err(e) => Err(e),
        }
    }

    /// Get the Id of an IMMDevice, from the wide string that the system returned for it.
    pub fn get_id<E>(&self, value: Result<&[u16], E>) -> (r: Result<String, E>)
        requires
            value matches Ok(units) ==> units@.contains(0u16),
        ensures
            match value {
                Ok(units) => r matches Ok(id) && id@ == crate::text::wide_text(units@),
                Err(e) => r == Err::<String, E>(e),
            },
    {
        match value {
            Ok(units) => Ok(decode_wide(units)),
            Err(e) => Err(e),
        }
    }
}

/// The direction is named by 0 for playback and by 1 for capture, in every query. The default
/// device is that for the console, and only active devices are listed.
pub proof fn law_queries_name_the_direction<C>(
    direction: Direction,
    flow: i32,
    default: DefaultEndpointQuery,
    list: EndpointsQuery,
)
    requires
        call_ensures(Direction::data_flow, (&direction,), flow),
        call_ensures(default_endpoint_query, (&direction,), default),
        call_ensures(DeviceCollection::<C>::endpoints_query, (&direction,), list),
    ensures
        direction is Render ==> flow == 0,
        direction is Capture ==> flow == 1,
        direction.flow() == flow,
        default.data_flow == flow,
        default.role == 0,
        list.data_flow == flow,
        list.state_mask == 1,
{
}

/// A device has the direction that it was asked for, and its client has the direction of the
/// device and no share mode. What the system returned is held as it is, and its errors are
/// handed on as they came.
pub proof fn law_direction_is_handed_on<C, D, A, E>(
    direction: Direction,
    endpoints: Result<C, E>,
    collection: Result<DeviceCollection<C>, E>,
    item: Result<D, E>,
    listed: Result<Device<D>, E>,
    default: Result<Device<D>, E>,
    activated: Result<A, E>,
    client: Result<AudioClient<A>, E>,
)
    requires
        call_ensures(DeviceCollection::<C>::new::<E>, (&direction, endpoints), collection),
        collection matches Ok(c) ==> call_ensures(
            DeviceCollection::<C>::get_device_at_index::<D, E>,
            (&c, item),
            listed,
        ),
        call_ensures(get_default_device::<D, E>, (&direction, item), default),
        default matches Ok(d) ==> call_ensures(
            Device::<D>::get_iaudioclient::<A, E>,
            (&d, activated),
            client,
        ),
    ensures
        match endpoints {
            Ok(c) => collection matches Ok(made) && made.collection == c && made.direction
                == direction,
            Err(e) => collection == Err::<DeviceCollection<C>, E>(e),
        },
        match item {
            Ok(d) => {
                &&& collection is Ok ==> (listed matches Ok(device) && device.device == d
                    && device.direction == direction)
                &&& default matches Ok(device) && device.device == d && device.direction
                    == direction
                &&& match activated {
                    Ok(a) => client matches Ok(c) && c.client == a && c.direction == direction
                        && c.sharemode is None,
                    Err(e) => client == Err::<AudioClient<A>, E>(e),
                }
            },
            Err(e) => {
                &&& collection is Ok ==> listed == Err::<Device<D>, E>(e)
                &&& default == Err::<Device<D>, E>(e)
            },
        },
{
}

/// A search looks at the devices from the first on, one after the other: it stays at a device
/// exactly if that has the wanted name, and otherwise goes on to the following one.
pub proof fn law_search_goes_on_by_one(s: Search, devname: Seq<char>)
    ensures
        s.index() == Some(s.next) <==> s.next < s.count,
        s.index() is None <==> s.next >= s.count,
        s.look_at(devname).0 <==> devname == s.name,
        s.look_at(devname).1.name == s.name,
        s.look_at(devname).1.count == s.count,
        s.look_at(devname).1.next == (if devname == s.name {
            s.next
        } else {
            s.next + 1
        }),
{
}

/// A new search starts with the first device, or reports at once that there is none if the
/// system has no device. An error of the system is handed on as it came.
pub proof fn law_search_starts_with_the_first<C, E>(
    collection: DeviceCollection<C>,
    name: &str,
    count: Result<u32, E>,
    search: Result<NameSearch, E>,
    first: Result<u32, WasapiError>,
)
    requires
        call_ensures(
            DeviceCollection::<C>::get_device_with_name::<E>,
            (&collection, name, count),
            search,
        ),
        search matches Ok(s) ==> call_ensures(NameSearch::next_index, (&s,), first),
    ensures
        match count {
            Err(e) => search == Err::<NameSearch, E>(e),
            Ok(n) => {
                &&& search is Ok
                &&& n > 0 ==> first == Ok::<u32, WasapiError>(0)
                &&& n == 0 ==> (first matches Err(e) && e@ == "Unable to find device "@ + name@)
            },
        },
{
}

/// Looking at a device: it matches exactly if its name is the wanted one, and the search stays
/// where it is then. Otherwise it goes on with the following device, and after the last one it
/// reports that no device has the wanted name.
pub proof fn law_search_tries_each_device_once(
    search: &mut NameSearch,
    devname: String,
    matched: bool,
    before: Result<u32, WasapiError>,
    after: Result<u32, WasapiError>,
)
    requires
        call_ensures(NameSearch::next_index, (&*old(search),), before),
        call_ensures(NameSearch::is_match, (search, &devname), matched),
        call_ensures(NameSearch::next_index, (&*final(search),), after),
        before is Ok,
    ensures
        final(search)@.name == old(search)@.name,
        final(search)@.count == old(search)@.count,
        matched <==> devname@ == old(search)@.name,
        matched ==> after == before,
        !matched && before->Ok_0 + 1 < old(search)@.count ==> (after matches Ok(n) && n
            == before->Ok_0 + 1),
        !matched && before->Ok_0 + 1 >= old(search)@.count ==> (after matches Err(e) && e@
            == "Unable to find device "@ + old(search)@.name),
{
}

/// A search always ends with the first device that decides it: the first one whose name is the
/// wanted one or cannot be read. If none decides it, it ends with no device.
pub proof fn law_search_ends_at_the_first_decision(
    name: Seq<char>,
    names: Seq<Option<Seq<char>>>,
    n: nat,
)
    requires
        n < names.len(),
        names[n as int] is None || names[n as int] == Some(name),
        forall|i: int| 0 <= i < n ==> (#[trigger] names[i] is Some && names[i] != Some(name)),
    ensures
        (Search { name, count: names.len(), next: 0 }).end(names) == (if names[n as int] is None {
            SearchEnd::Failed(n)
        } else {
            SearchEnd::Found(n)
        }),
{
    law_search_finds_the_first(name, names);
    match (Search { name, count: names.len(), next: 0 }).end(names) {
        SearchEnd::Found(m) => {
            assert(names[m as int] == Some(name));
            if n < m {
                assert(names[n as int] matches Some(devname) && devname != name);
            }
        },
        SearchEnd::Failed(m) => {
            assert(names[m as int] is None);
            if n < m {
                assert(names[n as int] matches Some(devname) && devname != name);
            }
        },
        SearchEnd::NotFound => {
            assert(names[n as int] matches Some(devname) && devname != name);
        },
    }
}

/// The friendly name is the property number 14 and the description number 2, both of the
/// properties that describe a device.
pub proof fn law_property_keys<D>(name: PropertyKey, description: PropertyKey)
    requires
        call_ensures(Device::<D>::friendlyname_key, (), name),
        call_ensures(Device::<D>::description_key, (), description),
    ensures
        name.pid == 14,
        description.pid == 2,
        name.fmtid == description.fmtid,
        name.fmtid.data1 == 0xA45C254E,
        name.fmtid.data2 == 0xDF1C,
        name.fmtid.data3 == 0x4EFD,
        name.fmtid.data4 == 0x8020_67D1_46A8_50E0,
{
}

/// The units in front of the nul are what is read as the name, the description or the id of a
/// device, whatever follows the nul. So a text that the system holds in UTF-16 reads back. Errors
/// of the system are handed on as they came.
pub proof fn law_device_texts_read_back<D, E>(
    device: Device<D>,
    before: Seq<u16>,
    behind: Seq<u16>,
    text: Seq<char>,
    value: Result<&[u16], E>,
    name: Result<String, E>,
    description: Result<String, E>,
    id: Result<String, E>,
)
    requires
        !before.contains(0u16),
        value matches Ok(units) ==> units@ == before + seq![0u16] + behind,
        call_ensures(Device::<D>::get_friendlyname::<E>, (&device, value), name),
        call_ensures(Device::<D>::get_description::<E>, (&device, value), description),
        call_ensures(Device::<D>::get_id::<E>, (&device, value), id),
    ensures
        match value {
            Ok(_) => {
                &&& name matches Ok(s) && s@ == crate::text::utf16_text(before)
                &&& description matches Ok(s) && s@ == crate::text::utf16_text(before)
                &&& id matches Ok(s) && s@ == crate::text::utf16_text(before)
                &&& before == crate::text::utf16_units(text) ==> name->Ok_0@ == text
                    && description->Ok_0@ == text && id->Ok_0@ == text
            },
            Err(e) => {
                &&& name == Err::<String, E>(e)
                &&& description == Err::<String, E>(e)
                &&& id == Err::<String, E>(e)
            },
        },
{
    crate::text::law_wide_text_ends_at_the_nul(before, behind);
    crate::text::law_encoded_text_decodes(text);
}

} // verus!
