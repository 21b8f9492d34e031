use smart_house::house::House;
use smart_house::provider::{BorrowingDeviceInfoProvider, DeviceInfoProvider, OwningDeviceInfoProvider};
use smart_house::room::Room;
use smart_house::socket::Socket;
use smart_house::thermometer::Thermometer;

#[test]
fn simple_report() {
    let mut hs = House::new("name");
    hs.add_room(Room::new("room"));
    let socket = Socket::new("name");
    assert!(matches!(hs.add_dev("room", &socket), Ok(())));

    let provider = OwningDeviceInfoProvider {
        socket: socket.clone(),
    };

    let actual = provider.create_report(&hs);

    assert_eq!(
        format!("Device was detected in name, room, dev: socket name is off\n").to_string(),
        actual
    )
}

#[test]
fn unplaced_device_empty_report() {
    let mut hs = House::new("name");
    hs.add_room(Room::new("room"));
    let socket = Socket::new("name");

    let provider = OwningDeviceInfoProvider { socket };
    assert_eq!("", hs.create_report(&provider));
}

#[test]
fn borrowing_report_order() {
    let mut hs = House::new("name");
    hs.add_room(Room::new("room"));
    let socket = Socket::new("s");
    let thermo = Thermometer::new("t");
    assert!(matches!(hs.add_dev("room", &socket), Ok(())));
    assert!(matches!(hs.add_dev("room", &thermo), Ok(())));

    let provider = BorrowingDeviceInfoProvider {
        socket: &socket,
        thermo: &thermo,
    };

    let expected = "Device was detected in name, room, dev: socket s is off\n\
                    Device was detected in name, room, dev: thermometer t - 0 c\n";
    assert_eq!(expected, hs.create_report(&provider));
}

#[test]
fn device_in_two_rooms_reports_twice() {
    let mut hs = House::new("name");
    hs.add_room(Room::new("hall"));
    hs.add_room(Room::new("room"));
    let socket = Socket::new("s");
    assert!(matches!(hs.add_dev("hall", &socket), Ok(())));
    assert!(matches!(hs.add_dev("room", &socket), Ok(())));

    let provider = OwningDeviceInfoProvider { socket };
    let expected = "Device was detected in name, hall, dev: socket s is off\n\
                    Device was detected in name, room, dev: socket s is off\n";
    assert_eq!(expected, hs.create_report(&provider));
}

#[test]
fn powered_socket_report_line() {
    let mut hs = House::new("name");
    hs.add_room(Room::new("room"));
    let mut socket = Socket::new("s");
    socket._plug_in();
    assert!(matches!(hs.add_dev("room", &socket), Ok(())));

    let provider = OwningDeviceInfoProvider { socket };
    assert_eq!(
        "Device was detected in name, room, dev: socket s - 0 mw\n",
        hs.create_report(&provider)
    );
}
