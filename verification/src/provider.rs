//! Report providers: policy objects that pick which devices a house report
//! covers, and the report-building algorithm they share.

use vstd::prelude::*;

use crate::dev::Device;
use crate::house::House;
use crate::house::HouseView;
use crate::socket::Socket;
use crate::thermometer::Thermometer;

verus! {

/// One report line: where the device was detected, and its own report.
pub open spec fn report_line(
    house_name: Seq<char>,
    room_name: Seq<char>,
    dev_report: Seq<char>,
) -> Seq<char> {
    "Device was detected in "@ + house_name + ", "@ + room_name + ", dev: "@ + dev_report + "\n"@
}

/// The report lines for the first `n` room names of the house: one line per
/// name under which the house locates the device, in room order; nothing for
/// the names under which it does not.
pub open spec fn report_upto(
    h: HouseView,
    n: int,
    dev_name: Seq<char>,
    dev_report: Seq<char>,
) -> Seq<char>
    decreases n,
{
    if n <= 0 {
        Seq::empty()
    } else {
        report_upto(h, n - 1, dev_name, dev_report) + (if h.locates(
            h.rooms[n - 1].name,
            dev_name,
        ) {
            report_line(h.name, h.rooms[n - 1].name, dev_report)
        } else {
            Seq::<char>::empty()
        })
    }
}

/// The full report a house gives for one device: the lines for all its room
/// names. Lookup failures contribute nothing; a device located nowhere gives
/// the empty text.
pub open spec fn device_report_text(
    h: HouseView,
    dev_name: Seq<char>,
    dev_report: Seq<char>,
) -> Seq<char> {
    report_upto(h, h.rooms.len() as int, dev_name, dev_report)
}

/// A device that no room of the house lists yields the empty report text:
/// the failure is swallowed, never surfaced.
pub proof fn lemma_unplaced_device_reports_nothing(
    h: HouseView,
    dev_name: Seq<char>,
    dev_report: Seq<char>,
)
    requires
        forall|i: int| 0 <= i < h.rooms.len() ==> !h.rooms[i].devices.contains(dev_name),
    ensures
        device_report_text(h, dev_name, dev_report) == Seq::<char>::empty(),
{
    lemma_report_upto_empty(h, h.rooms.len() as int, dev_name, dev_report);
}

proof fn lemma_report_upto_empty(h: HouseView, n: int, dev_name: Seq<char>, dev_report: Seq<char>)
    requires
        forall|i: int| 0 <= i < h.rooms.len() ==> !h.rooms[i].devices.contains(dev_name),
        n <= h.rooms.len(),
    ensures
        report_upto(h, n, dev_name, dev_report) == Seq::<char>::empty(),
    decreases n,
{
    if n > 0 {
        lemma_report_upto_empty(h, n - 1, dev_name, dev_report);
        let room = h.rooms[n - 1].name;
        if h.locates(room, dev_name) {
            let i = h.find_room(room)->0;
            h.room_names().index_of_first_ensures(room);
            assert(!h.rooms[i].devices.contains(dev_name));
        }
        assert(report_upto(h, n, dev_name, dev_report) =~= Seq::<char>::empty());
    }
}

/// A provider describes a house: which devices it reports on, and in what
/// combination, is fixed by `spec_report`.
pub trait DeviceInfoProvider {
    /// The exact text this provider's report holds for the given house.
    spec fn spec_report(&self, house: HouseView) -> Seq<char>;

    /// Builds the report; text only, never an error.
    fn create_report(&self, house: &House) -> (r: String)
        ensures
            r@ == self.spec_report(house@),
    ;
}

/// Builds the house's report for one device: walks the room names in order
/// and emits a line for each under which the house locates the device.
pub fn build_report<D: Device>(house: &House, dev: &D) -> (r: String)
    ensures
        r@ == device_report_text(house@, dev.spec_name(), dev.spec_report()),
{
    let rooms = house.get_rooms();
    let mut report = String::new();
    let mut i: usize = 0;
    while i < rooms.len()
        invariant
            i <= rooms.len(),
            rooms.deep_view() == house@.room_names(),
            report@ == report_upto(house@, i as int, dev.spec_name(), dev.spec_report()),
        decreases rooms.len() - i,
    {
        proof {
            assert(rooms.deep_view().len() == house@.rooms.len());
            assert(rooms.deep_view()[i as int] == rooms@[i as int]@);
            assert(house@.room_names()[i as int] == house@.rooms[i as int].name);
        }
        match house.dev_location(rooms[i].as_str(), dev.get_name()) {
            Ok(loc) => {
                report.append("Device was detected in ");
                report.append(loc.house.as_str());
                report.append(", ");
                report.append(loc.room.as_str());
                report.append(", dev: ");
                let dev_report = dev.report();
                report.append(dev_report.as_str());
                report.append("\n");
                proof {
                    assert(report@ =~= report_upto(
                        house@,
                        i as int + 1,
                        dev.spec_name(),
                        dev.spec_report(),
                    ));
                }
            },
            Err(_) => {
                proof {
                    assert(report@ =~= report_upto(
                        house@,
                        i as int + 1,
                        dev.spec_name(),
                        dev.spec_report(),
                    ));
                }
            },
        }
        i = i + 1;
    }
    proof {
        assert(rooms.deep_view().len() == house@.rooms.len());
        assert(i as int == house@.rooms.len());
    }
    report
}

/// A provider that owns the one socket it reports on.
pub struct OwningDeviceInfoProvider {
    pub socket: Socket,
}

impl DeviceInfoProvider for OwningDeviceInfoProvider {
    /// The socket's report segment alone.
    open spec fn spec_report(&self, house: HouseView) -> Seq<char> {
        device_report_text(house, self.socket.spec_name(), self.socket.spec_report())
    }

    fn create_report(&self, house: &House) -> (r: String) {
        build_report(house, &self.socket)
    }
}

/// A provider that borrows the socket and the thermometer it reports on.
pub struct BorrowingDeviceInfoProvider<'a, 'b> {
    pub socket: &'a Socket,
    pub thermo: &'b Thermometer,
}

impl<'a, 'b> DeviceInfoProvider for BorrowingDeviceInfoProvider<'a, 'b> {
    /// The socket's report segment followed by the thermometer's, in that
    /// fixed order, even when both resolve to the same room.
    open spec fn spec_report(&self, house: HouseView) -> Seq<char> {
        device_report_text(house, self.socket.spec_name(), self.socket.spec_report())
            + device_report_text(house, self.thermo.spec_name(), self.thermo.spec_report())
    }

    fn create_report(&self, house: &House) -> (r: String) {
        let mut report = build_report(house, self.socket);
        let rest = build_report(house, self.thermo);
        report.append(rest.as_str());
        report
    }
}

} // verus!
