//! A power socket: named, on or off, with a wattage reading.

use vstd::prelude::*;

use crate::dev::Device;
use crate::text::dec_seq;

verus! {

/// The unit a socket's wattage is measured in.
#[non_exhaustive]
#[derive(Clone, Copy)]
pub enum WattageUnit {
    MW,
    GW,
}

/// How a wattage unit renders inside a report.
pub open spec fn wattage_unit_text(u: WattageUnit) -> Seq<char> {
    match u {
        WattageUnit::MW => "mw"@,
        WattageUnit::GW => "gw"@,
    }
}

impl WattageUnit {
    /// The unit's rendering: `"mw"` or `"gw"`.
    pub fn text(&self) -> (r: &'static str)
        ensures
            r@ == wattage_unit_text(*self),
    {
        proof {
            reveal_strlit("mw");
            reveal_strlit("gw");
        }
        match self {
            WattageUnit::MW => "mw",
            WattageUnit::GW => "gw",
        }
    }
}

/// A wattage reading: a value and its unit.
#[derive(Clone, Copy)]
pub struct Wattage {
    pub val: u64,
    pub unit: WattageUnit,
}

/// The mathematical value of a socket: its name, whether it is powered on,
/// and its wattage reading.
pub struct SocketView {
    pub name: Seq<char>,
    pub on: bool,
    pub wattage_val: u64,
    pub wattage_unit: WattageUnit,
}

impl SocketView {
    /// A socket is well formed when its name is non-empty.
    pub open spec fn wf(self) -> bool {
        self.name.len() != 0
    }
}

/// The report text for a socket in state `v`: when powered on, the name with
/// the wattage reading; when off, the name marked off.
pub open spec fn socket_report_text(v: SocketView) -> Seq<char> {
    if v.on {
        "socket "@ + v.name + " - "@ + dec_seq(v.wattage_val as nat) + " "@ + wattage_unit_text(
            v.wattage_unit,
        )
    } else {
        "socket "@ + v.name + " is off"@
    }
}

/// A named socket that is either powered on, reporting its wattage, or off.
#[derive(Clone)]
pub struct Socket {
    name: String,
    on: bool,
    wattage: Wattage,
}

impl View for Socket {
    type V = SocketView;

    closed spec fn view(&self) -> SocketView {
        SocketView {
            name: self.name@,
            on: self.on,
            wattage_val: self.wattage.val,
            wattage_unit: self.wattage.unit,
        }
    }
}

impl Socket {
    /// Constructs a socket that is off, with a zero milliwatt reading.
    pub fn new(name: &str) -> (r: Self)
        requires
            name@.len() != 0,
        ensures
            r@ == (SocketView {
                name: name@,
                on: false,
                wattage_val: 0,
                wattage_unit: WattageUnit::MW,
            }),
            r@.wf(),
    {
        Self {
            name: String::from_str(name),
            on: false,
            wattage: Wattage { val: 0, unit: WattageUnit::MW },
        }
    }

    /// Powers the socket on; everything else is unchanged.
    pub fn _plug_in(&mut self)
        ensures
            final(self)@ == (SocketView { on: true, ..old(self)@ }),
    {
        self.on = true;
    }

    /// Powers the socket off; everything else is unchanged.
    pub fn _plug_out(&mut self)
        ensures
            final(self)@ == (SocketView { on: false, ..old(self)@ }),
    {
        self.on = false;
    }

    /// The current wattage reading.
    pub fn _wattage(&self) -> (r: Wattage)
        ensures
            r.val == self@.wattage_val,
            r.unit == self@.wattage_unit,
    {
        self.wattage
    }
}

impl Device for Socket {
    open spec fn spec_name(&self) -> Seq<char> {
        self@.name
    }

    open spec fn spec_report(&self) -> Seq<char> {
        socket_report_text(self@)
    }

    fn report(&self) -> (r: String) {
        let mut r = String::from_str("socket ");
        r.append(self.name.as_str());
        if self.on {
            r.append(" - ");
            let watts = crate::text::u64_to_dec(self.wattage.val);
            r.append(watts.as_str());
            r.append(" ");
            r.append(self.wattage.unit.text());
            proof {
                assert(r@ =~= socket_report_text(self@));
            }
        } else {
            r.append(" is off");
            proof {
                assert(r@ =~= socket_report_text(self@));
            }
        }
        r
    }

    fn get_name(&self) -> (r: &str) {
        self.name.as_str()
    }
}

} // verus!
