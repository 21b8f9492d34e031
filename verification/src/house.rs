//! A house: a named, ordered collection of rooms, with name-based lookups.
//!
//! Lookups are linear and first-match: neither room nor device names are
//! required to be unique, and every resolution takes the first room (or
//! device) with the requested name, in insertion order.

use vstd::prelude::*;

use crate::dev::Device;
use crate::provider::DeviceInfoProvider;
use crate::room::Room;
use crate::room::RoomView;

verus! {

/// The one failure a lookup can report: no room (or device) of the requested
/// name exists.
#[derive(Debug)]
pub enum SmartHouseError {
    ErrNotFound,
}

/// The place a device was found: the names of the house and of the room.
#[derive(Debug)]
pub struct Location {
    pub house: String,
    pub room: String,
}

/// The mathematical value of a location.
pub struct LocationView {
    pub house: Seq<char>,
    pub room: Seq<char>,
}

impl View for Location {
    type V = LocationView;

    open spec fn view(&self) -> LocationView {
        LocationView { house: self.house@, room: self.room@ }
    }
}

impl PartialEq for Location {
    fn eq(&self, other: &Location) -> (r: bool) {
        self.house == other.house && self.room == other.room
    }
}

impl vstd::std_specs::cmp::PartialEqSpecImpl for Location {
    open spec fn obeys_eq_spec() -> bool {
        true
    }

    open spec fn eq_spec(&self, other: &Location) -> bool {
        self@ == other@
    }
}

/// The mathematical value of a house: its name and the values of its rooms,
/// in insertion order.
pub struct HouseView {
    pub name: Seq<char>,
    pub rooms: Seq<RoomView>,
}

impl HouseView {
    /// The room names, in insertion order.
    pub open spec fn room_names(self) -> Seq<Seq<char>> {
        self.rooms.map_values(|r: RoomView| r.name)
    }

    /// The index of the first room named `room`, if any.
    pub open spec fn find_room(self, room: Seq<char>) -> Option<int> {
        self.room_names().index_of_first(room)
    }

    /// The device names of the first room named `room`, if any.
    pub open spec fn devices_in(self, room: Seq<char>) -> Option<Seq<Seq<char>>> {
        match self.find_room(room) {
            Some(i) => Some(self.rooms[i].devices),
            None => None,
        }
    }

    /// Whether the first room named `room` exists and lists a device named
    /// `dev`.
    pub open spec fn locates(self, room: Seq<char>, dev: Seq<char>) -> bool {
        match self.devices_in(room) {
            Some(ds) => ds.contains(dev),
            None => false,
        }
    }
}

/// What `House::devices` returns, as a mathematical value.
pub open spec fn devices_result_view(r: Result<Vec<String>, SmartHouseError>) -> Result<
    Seq<Seq<char>>,
    SmartHouseError,
> {
    match r {
        Ok(v) => Ok(v.deep_view()),
        Err(e) => Err(e),
    }
}

/// The exact outcome `House::devices` owes on house `h` and room name `room`:
/// the device names of the first room so named, else `ErrNotFound`.
pub open spec fn devices_post(
    h: HouseView,
    room: Seq<char>,
    r: Result<Seq<Seq<char>>, SmartHouseError>,
) -> bool {
    match h.devices_in(room) {
        Some(ds) => r == Ok::<Seq<Seq<char>>, SmartHouseError>(ds),
        None => r == Err::<Seq<Seq<char>>, SmartHouseError>(SmartHouseError::ErrNotFound),
    }
}

/// What `House::dev_location` returns, as a mathematical value.
pub open spec fn location_result_view(r: Result<Location, SmartHouseError>) -> Result<
    LocationView,
    SmartHouseError,
> {
    match r {
        Ok(l) => Ok(l@),
        Err(e) => Err(e),
    }
}

/// The exact outcome `House::dev_location` owes: the house and room names
/// exactly when the house locates `dev` in `room`, else `ErrNotFound`.
pub open spec fn location_post(
    h: HouseView,
    room: Seq<char>,
    dev: Seq<char>,
    r: Result<LocationView, SmartHouseError>,
) -> bool {
    if h.locates(room, dev) {
        r == Ok::<LocationView, SmartHouseError>(LocationView { house: h.name, room: room })
    } else {
        r == Err::<LocationView, SmartHouseError>(SmartHouseError::ErrNotFound)
    }
}

/// If the rooms before `i` are not named `room` and room `i` is, then `i` is
/// the first match.
pub proof fn lemma_find_room_at(h: HouseView, room: Seq<char>, i: int)
    requires
        0 <= i < h.rooms.len(),
        h.rooms[i].name == room,
        forall|j: int| 0 <= j < i ==> h.rooms[j].name != room,
    ensures
        h.find_room(room) == Some(i),
{
    let names = h.room_names();
    names.index_of_first_ensures(room);
    assert(names[i] == room);
}

/// If no room is named `room`, the search finds none.
pub proof fn lemma_find_room_none(h: HouseView, room: Seq<char>)
    requires
        forall|j: int| 0 <= j < h.rooms.len() ==> h.rooms[j].name != room,
    ensures
        h.find_room(room) == None::<int>,
{
    let names = h.room_names();
    names.index_of_first_ensures(room);
    if names.index_of_first(room) is Some {
        let i = names.index_of_first(room)->0;
        assert(h.rooms[i].name != room);
    }
}

/// A house with no rooms has no room names: listing the rooms of a freshly
/// built house yields the empty sequence.
pub proof fn lemma_no_rooms_no_names(h: HouseView)
    requires
        h.rooms.len() == 0,
    ensures
        h.room_names() == Seq::<Seq<char>>::empty(),
{
    assert(h.room_names() =~= Seq::<Seq<char>>::empty());
}

/// Adding a room appends its name to the room-name listing: every room's
/// name stays at the position of its insertion.
pub proof fn lemma_room_names_after_add(h: HouseView, r: RoomView)
    ensures
        (HouseView { name: h.name, rooms: h.rooms.push(r) }).room_names() == h.room_names().push(
            r.name,
        ),
{
    assert((HouseView { name: h.name, rooms: h.rooms.push(r) }).room_names()
        =~= h.room_names().push(r.name));
}

/// After adding a room under a name no other room carries, that room's
/// device list is what `devices` resolves for the name.
pub proof fn lemma_devices_of_new_room(h: HouseView, r: RoomView)
    requires
        !h.room_names().contains(r.name),
    ensures
        (HouseView { name: h.name, rooms: h.rooms.push(r) }).devices_in(r.name) == Some(r.devices),
{
    let h2 = HouseView { name: h.name, rooms: h.rooms.push(r) };
    let n = h.rooms.len() as int;
    assert forall|j: int| 0 <= j < n implies h2.rooms[j].name != r.name by {
        assert(h.room_names()[j] == h.rooms[j].name);
    }
    lemma_find_room_at(h2, r.name, n);
}

/// Attaching a device to the room that a name resolves to leaves the
/// resolution in place and appends the device's name to that room's listing.
pub proof fn lemma_attach_device_lists_it(
    h: HouseView,
    room: Seq<char>,
    dev: Seq<char>,
    i: int,
    h2: HouseView,
)
    requires
        h.find_room(room) == Some(i),
        h2.name == h.name,
        0 <= i < h.rooms.len(),
        h2.rooms == h.rooms.update(
            i,
            (RoomView { name: h.rooms[i].name, devices: h.rooms[i].devices.push(dev) }),
        ),
    ensures
        h2.devices_in(room) == Some(h.rooms[i].devices.push(dev)),
{
    h.room_names().index_of_first_ensures(room);
    assert(h2.room_names() =~= h.room_names());
    assert(h2.find_room(room) == Some(i));
}

/// Two outcomes that both meet `devices_post` are the same outcome: without
/// mutation, `devices` answers identically every time.
pub proof fn lemma_devices_deterministic(
    h: HouseView,
    room: Seq<char>,
    r1: Result<Seq<Seq<char>>, SmartHouseError>,
    r2: Result<Seq<Seq<char>>, SmartHouseError>,
)
    requires
        devices_post(h, room, r1),
        devices_post(h, room, r2),
    ensures
        r1 == r2,
{
}

/// Two outcomes that both meet `location_post` are the same outcome: without
/// mutation, `dev_location` answers identically every time.
pub proof fn lemma_dev_location_deterministic(
    h: HouseView,
    room: Seq<char>,
    dev: Seq<char>,
    r1: Result<LocationView, SmartHouseError>,
    r2: Result<LocationView, SmartHouseError>,
)
    requires
        location_post(h, room, dev, r1),
        location_post(h, room, dev, r2),
    ensures
        r1 == r2,
{
}

/// A named house owning an ordered list of rooms.
pub struct House {
    name: String,
    rooms: Vec<Room>,
}

impl View for House {
    type V = HouseView;

    closed spec fn view(&self) -> HouseView {
        HouseView { name: self.name@, rooms: self.rooms@.map_values(|r: Room| r@) }
    }
}

impl House {
    /// Constructs a house with no rooms.
    pub fn new(name: &str) -> (r: Self)
        ensures
            r@.name == name@,
            r@.rooms == Seq::<RoomView>::empty(),
    {
        let r = House { name: String::from_str(name), rooms: Vec::new() };
        proof {
            assert(r@.rooms =~= Seq::<RoomView>::empty());
        }
        r
    }

    /// The house's name.
    pub fn get_name(&self) -> (r: &str)
        ensures
            r@ == self@.name,
    {
        self.name.as_str()
    }

    /// The room names, in insertion order.
    pub fn get_rooms(&self) -> (r: Vec<String>)
        ensures
            r.deep_view() == self@.room_names(),
    {
        let mut out: Vec<String> = Vec::new();
        let mut i: usize = 0;
        while i < self.rooms.len()
            invariant
                i <= self.rooms.len(),
                out.deep_view() =~= self@.room_names().subrange(0, i as int),
            decreases self.rooms.len() - i,
        {
            let ghost prev = out.deep_view();
            let name = String::from_str(self.rooms[i].get_name());
            proof {
                assert(name@ == self@.room_names()[i as int]);
            }
            out.push(name);
            i = i + 1;
            proof {
                assert(out.deep_view() =~= prev.push(name@));
                assert(out.deep_view() =~= self@.room_names().subrange(0, i as int));
            }
        }
        proof {
            assert(out.deep_view() =~= self@.room_names());
        }
        out
    }

    /// Appends the room; always succeeds, duplicate names are kept.
    pub fn add_room(&mut self, room: Room)
        ensures
            final(self)@.name == old(self)@.name,
            final(self)@.rooms == old(self)@.rooms.push(room@),
    {
        self.rooms.push(room);
        proof {
            assert(self@.rooms =~= old(self)@.rooms.push(room@));
        }
    }

    /// Attaches the device to the first room named `name`: that room's device
    /// list gains the device's name, every other room is untouched. When no
    /// room is so named, fails with `ErrNotFound` and changes nothing.
    pub fn add_dev<D: Device>(&mut self, name: &str, dev: &D) -> (r: Result<
        (),
        SmartHouseError,
    >)
        ensures
            (match old(self)@.find_room(name@) {
                Some(i) => {
                    &&& r == Ok::<(), SmartHouseError>(())
                    &&& final(self)@.name == old(self)@.name
                    &&& final(self)@.rooms == old(self)@.rooms.update(
                        i,
                        (RoomView {
                            name: old(self)@.rooms[i].name,
                            devices: old(self)@.rooms[i].devices.push(dev.spec_name()),
                        }),
                    )
                },
                None => {
                    &&& r == Err::<(), SmartHouseError>(SmartHouseError::ErrNotFound)
                    &&& final(self)@ == old(self)@
                },
            }),
    {
        let mut i: usize = 0;
        while i < self.rooms.len()
            invariant
                i <= self.rooms.len(),
                *self == *old(self),
                forall|j: int| 0 <= j < i ==> self@.rooms[j].name != name@,
            decreases self.rooms.len() - i,
        {
            if crate::text::str_eq(self.rooms[i].get_name(), name) {
                proof {
                    lemma_find_room_at(self@, name@, i as int);
                }
                let ghost pre = self@;
                self.rooms[i].add_dev(dev);
                proof {
                    assert(self@.rooms =~= pre.rooms.update(
                        i as int,
                        (RoomView {
                            name: pre.rooms[i as int].name,
                            devices: pre.rooms[i as int].devices.push(dev.spec_name()),
                        }),
                    ));
                }
                return Ok(());
            }
            i = i + 1;
        }
        proof {
            lemma_find_room_none(self@, name@);
        }
        Err(SmartHouseError::ErrNotFound)
    }

    /// The device names of the first room named `room`, in insertion order;
    /// `ErrNotFound` when no room is so named.
    pub fn devices(&self, room: &str) -> (r: Result<Vec<String>, SmartHouseError>)
        ensures
            devices_post(self@, room@, devices_result_view(r)),
    {
        let mut i: usize = 0;
        while i < self.rooms.len()
            invariant
                i <= self.rooms.len(),
                forall|j: int| 0 <= j < i ==> self@.rooms[j].name != room@,
            decreases self.rooms.len() - i,
        {
            if crate::text::str_eq(room, self.rooms[i].get_name()) {
                proof {
                    lemma_find_room_at(self@, room@, i as int);
                }
                return Ok(self.rooms[i].devices());
            }
            i = i + 1;
        }
        proof {
            lemma_find_room_none(self@, room@);
        }
        Err(SmartHouseError::ErrNotFound)
    }

    /// Resolves where a device stands: `Location` with the house's name and
    /// `room` exactly when the first room named `room` lists `dev`;
    /// `ErrNotFound` when the room is missing or does not list `dev`.
    pub fn dev_location(&self, room: &str, dev: &str) -> (r: Result<Location, SmartHouseError>)
        ensures
            location_post(self@, room@, dev@, location_result_view(r)),
    {
        match self.devices(room) {
            Ok(devs) => {
                let ghost ds = self@.devices_in(room@)->0;
                let mut i: usize = 0;
                while i < devs.len()
                    invariant
                        i <= devs.len(),
                        devs.deep_view() == ds,
                        self@.devices_in(room@) == Some(ds),
                        forall|j: int| 0 <= j < i ==> ds[j] != dev@,
                    decreases devs.len() - i,
                {
                    if crate::text::str_eq(devs[i].as_str(), dev) {
                        proof {
                            assert(ds[i as int] == dev@);
                            assert(self@.locates(room@, dev@));
                        }
                        return Ok(
                            Location {
                                house: String::from_str(self.get_name()),
                                room: String::from_str(room),
                            },
                        );
                    }
                    i = i + 1;
                }
                proof {
                    assert(forall|j: int| 0 <= j < ds.len() ==> ds[j] != dev@);
                    assert(!ds.contains(dev@));
                }
                Err(SmartHouseError::ErrNotFound)
            },
            Err(err) => Err(err),
        }
    }

    /// Asks the provider to describe this house: the report is whatever the
    /// provider's own contract promises for it.
    pub fn create_report<P: DeviceInfoProvider>(&self, reporter: &P) -> (r: String)
        ensures
            r@ == reporter.spec_report(self@),
    {
        reporter.create_report(self)
    }
}

} // verus!
