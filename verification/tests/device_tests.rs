use smart_house::dev::Device;
use smart_house::socket::Socket;
use smart_house::text::{str_eq, u64_to_dec};
use smart_house::thermometer::Thermometer;

#[test]
fn mod_valid_name() {
    let name = "name";
    let socket = Socket::new(name);
    assert_eq!(name, socket.get_name())
}

#[test]
fn plug_out_report() {
    let expected = "socket name is off";
    let socket = Socket::new("name");
    assert_eq!(expected, socket.report())
}

#[test]
fn plug_in_report() {
    let expected = "socket name - 0 mw";
    let mut socket = Socket::new("name");
    socket._plug_in();
    assert_eq!(expected, socket.report())
}

#[test]
fn valid_name() {
    let name = "name";
    let dev = Thermometer::new(name);
    assert_eq!(name, dev.get_name())
}

#[test]
fn report() {
    let expected = "thermometer name - 0 c";
    let socket = Thermometer::new("name");
    assert_eq!(expected, socket.report())
}

#[test]
fn plug_out_after_plug_in_report() {
    let mut socket = Socket::new("name");
    socket._plug_in();
    socket._plug_out();
    assert_eq!("socket name is off", socket.report())
}

#[test]
fn wattage_reading_defaults_to_zero() {
    let socket = Socket::new("name");
    assert_eq!(0, socket._wattage().val);
}

#[test]
fn temperature_reading_defaults_to_zero() {
    let thermo = Thermometer::new("name");
    assert_eq!(0, thermo._temperature().val);
}

#[test]
fn decimal_rendering() {
    assert_eq!("0", u64_to_dec(0));
    assert_eq!("7", u64_to_dec(7));
    assert_eq!("10", u64_to_dec(10));
    assert_eq!("105", u64_to_dec(105));
    assert_eq!("18446744073709551615", u64_to_dec(u64::MAX));
}

#[test]
fn string_equality() {
    assert!(str_eq("room", "room"));
    assert!(!str_eq("room", "room2"));
    assert!(!str_eq("", "room"));
    assert!(str_eq("", ""));
}
