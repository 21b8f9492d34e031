//! A room: a named container listing the devices placed in it.
//!
//! Devices are owned by the caller; a room records only their names, in
//! insertion order, so several rooms and providers may share one device.

use vstd::prelude::*;

use crate::dev::Device;

verus! {

/// The mathematical value of a room: its name and the names of its devices,
/// in insertion order.
pub struct RoomView {
    pub name: Seq<char>,
    pub devices: Seq<Seq<char>>,
}

/// A named room listing the names of the devices placed in it.
pub struct Room {
    name: String,
    devices: Vec<String>,
}

impl View for Room {
    type V = RoomView;

    closed spec fn view(&self) -> RoomView {
        RoomView { name: self.name@, devices: self.devices.deep_view() }
    }
}

impl Room {
    /// Constructs a room with an empty device list.
    pub fn new(name: &str) -> (r: Self)
        ensures
            r@.name == name@,
            r@.devices == Seq::<Seq<char>>::empty(),
    {
        let r = Room { name: String::from_str(name), devices: Vec::new() };
        proof {
            assert(r@.devices =~= Seq::<Seq<char>>::empty());
        }
        r
    }

    /// The room's name.
    pub fn get_name(&self) -> (r: &str)
        ensures
            r@ == self@.name,
    {
        self.name.as_str()
    }

    /// Appends the device's name to the room's list; always succeeds,
    /// duplicates are kept.
    pub fn add_dev<D: Device>(&mut self, dev: &D)
        ensures
            final(self)@.name == old(self)@.name,
            final(self)@.devices == old(self)@.devices.push(dev.spec_name()),
    {
        let name = String::from_str(dev.get_name());
        self.devices.push(name);
        proof {
            assert(self@.devices =~= old(self)@.devices.push(dev.spec_name()));
        }
    }

    /// The names of the room's devices, in insertion order.
    pub fn devices(&self) -> (r: Vec<String>)
        ensures
            r.deep_view() == self@.devices,
    {
        let mut out: Vec<String> = Vec::new();
        let mut i: usize = 0;
        while i < self.devices.len()
            invariant
                i <= self.devices.len(),
                out.deep_view() =~= self@.devices.subrange(0, i as int),
            decreases self.devices.len() - i,
        {
            let ghost prev = out.deep_view();
            let d = self.devices[i].clone();
            proof {
                assert(d@ == self@.devices[i as int]);
            }
            out.push(d);
            i = i + 1;
            proof {
                assert(out.deep_view() =~= prev.push(d@));
                assert(out.deep_view() =~= self@.devices.subrange(0, i as int));
            }
        }
        proof {
            assert(out.deep_view() =~= self@.devices);
        }
        out
    }
}

} // verus!
