use smart_house::house::{House, Location, SmartHouseError};
use smart_house::room::Room;
use smart_house::socket::Socket;

#[test]
fn house_valid_name() {
    let expected = "name";
    let room = House::new(expected);
    assert_eq!(expected, room.get_name());
}

#[test]
fn empty_rooms() {
    let hs = House::new("name");
    assert_eq!(true, hs.get_rooms().is_empty());
}

#[test]
fn mod_add_and_check() {
    let mut hs = House::new("name");
    hs.add_room(Room::new("room"));

    assert_eq!(vec!["room"], hs.get_rooms());
}

#[test]
fn add_dev() {
    let mut hs = House::new("name");
    hs.add_room(Room::new("room"));
    let socket = Socket::new("socket");
    let err = hs.add_dev("room2", &socket).err().unwrap();
    assert!(matches!(err, SmartHouseError::ErrNotFound));
    assert!(matches!(
        hs.add_dev("room2", &socket),
        Err(SmartHouseError::ErrNotFound)
    ));
    assert!(matches!(hs.add_dev("room", &socket), Ok(())));

    assert_eq!(vec!["socket"], hs.devices("room").unwrap());
    assert_eq!(
        Location {
            house: "name".to_string(),
            room: "room".to_string(),
        },
        hs.dev_location("room", "socket").unwrap(),
    );
}

#[test]
fn room_valid_name() {
    let expected = "name";
    let room = Room::new(expected);
    assert_eq!(expected, room.get_name());
}

#[test]
fn empty_dev() {
    let room = Room::new("name");
    assert_eq!(true, room.devices().is_empty());
}

#[test]
fn add_and_check() {
    let socket = Socket::new("socket");
    let mut room = Room::new("name");
    room.add_dev(&socket);

    assert_eq!(vec!["socket"], room.devices());
}

#[test]
fn room_order_preserved() {
    let mut hs = House::new("name");
    hs.add_room(Room::new("a"));
    hs.add_room(Room::new("b"));
    hs.add_room(Room::new("a"));
    assert_eq!(vec!["a", "b", "a"], hs.get_rooms());
}

#[test]
fn add_dev_missing_room_changes_nothing() {
    let mut hs = House::new("name");
    hs.add_room(Room::new("room"));
    let socket = Socket::new("socket");
    assert!(matches!(
        hs.add_dev("hall", &socket),
        Err(SmartHouseError::ErrNotFound)
    ));
    assert_eq!(Vec::<String>::new(), hs.devices("room").unwrap());
}

#[test]
fn devices_missing_room() {
    let hs = House::new("name");
    assert!(matches!(hs.devices("room"), Err(SmartHouseError::ErrNotFound)));
}

#[test]
fn dev_location_missing_device() {
    let mut hs = House::new("name");
    hs.add_room(Room::new("room"));
    assert!(matches!(
        hs.dev_location("room", "socket"),
        Err(SmartHouseError::ErrNotFound)
    ));
    assert!(matches!(
        hs.dev_location("hall", "socket"),
        Err(SmartHouseError::ErrNotFound)
    ));
}

#[test]
fn lookups_idempotent() {
    let mut hs = House::new("name");
    hs.add_room(Room::new("room"));
    let socket = Socket::new("socket");
    assert!(matches!(hs.add_dev("room", &socket), Ok(())));

    assert_eq!(hs.devices("room").unwrap(), hs.devices("room").unwrap());
    assert_eq!(
        hs.dev_location("room", "socket").unwrap(),
        hs.dev_location("room", "socket").unwrap(),
    );
}

#[test]
fn duplicate_room_names_first_match() {
    let mut hs = House::new("name");
    hs.add_room(Room::new("room"));
    hs.add_room(Room::new("room"));
    let socket = Socket::new("socket");
    assert!(matches!(hs.add_dev("room", &socket), Ok(())));
    assert_eq!(vec!["socket"], hs.devices("room").unwrap());
}

#[test]
fn duplicate_device_names_kept() {
    let socket = Socket::new("socket");
    let mut room = Room::new("name");
    room.add_dev(&socket);
    room.add_dev(&socket);
    assert_eq!(vec!["socket", "socket"], room.devices());
}
