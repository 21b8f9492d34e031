//! A thermometer: named, with a temperature reading.

use vstd::prelude::*;

use crate::dev::Device;
use crate::text::dec_seq;

verus! {

/// The unit a thermometer's temperature is measured in.
#[non_exhaustive]
#[derive(Clone, Copy)]
pub enum TemperatureUnit {
    Fahrenheit,
    Celsius,
}

/// How a temperature unit renders inside a report.
pub open spec fn temperature_unit_text(u: TemperatureUnit) -> Seq<char> {
    match u {
        TemperatureUnit::Fahrenheit => "f"@,
        TemperatureUnit::Celsius => "c"@,
    }
}

impl TemperatureUnit {
    /// The unit's rendering: `"f"` or `"c"`.
    pub fn text(&self) -> (r: &'static str)
        ensures
            r@ == temperature_unit_text(*self),
    {
        proof {
            reveal_strlit("f");
            reveal_strlit("c");
        }
        match self {
            TemperatureUnit::Fahrenheit => "f",
            TemperatureUnit::Celsius => "c",
        }
    }
}

/// A temperature reading: a value and its unit.
#[derive(Clone, Copy)]
pub struct Temperature {
    pub val: u64,
    pub unit: TemperatureUnit,
}

/// The mathematical value of a thermometer: its name and its reading.
pub struct ThermometerView {
    pub name: Seq<char>,
    pub temp_val: u64,
    pub temp_unit: TemperatureUnit,
}

impl ThermometerView {
    /// A thermometer is well formed when its name is non-empty.
    pub open spec fn wf(self) -> bool {
        self.name.len() != 0
    }
}

/// The report text for a thermometer in state `v`: the name with the
/// temperature reading.
pub open spec fn thermometer_report_text(v: ThermometerView) -> Seq<char> {
    "thermometer "@ + v.name + " - "@ + dec_seq(v.temp_val as nat) + " "@
        + temperature_unit_text(v.temp_unit)
}

/// A named thermometer holding a temperature reading.
pub struct Thermometer {
    name: String,
    temp: Temperature,
}

impl View for Thermometer {
    type V = ThermometerView;

    closed spec fn view(&self) -> ThermometerView {
        ThermometerView { name: self.name@, temp_val: self.temp.val, temp_unit: self.temp.unit }
    }
}

impl Thermometer {
    /// Constructs a thermometer with a reading of zero degrees Celsius.
    pub fn new(name: &str) -> (r: Self)
        requires
            name@.len() != 0,
        ensures
            r@ == (ThermometerView {
                name: name@,
                temp_val: 0,
                temp_unit: TemperatureUnit::Celsius,
            }),
            r@.wf(),
    {
        Thermometer {
            name: String::from_str(name),
            temp: Temperature { val: 0, unit: TemperatureUnit::Celsius },
        }
    }

    /// The current temperature reading.
    pub fn _temperature(&self) -> (r: Temperature)
        ensures
            r.val == self@.temp_val,
            r.unit == self@.temp_unit,
    {
        self.temp
    }
}

impl Device for Thermometer {
    open spec fn spec_name(&self) -> Seq<char> {
        self@.name
    }

    open spec fn spec_report(&self) -> Seq<char> {
        thermometer_report_text(self@)
    }

    fn report(&self) -> (r: String) {
        let mut r = String::from_str("thermometer ");
        r.append(self.name.as_str());
        r.append(" - ");
        let degrees = crate::text::u64_to_dec(self.temp.val);
        r.append(degrees.as_str());
        r.append(" ");
        r.append(self.temp.unit.text());
        proof {
            assert(r@ =~= thermometer_report_text(self@));
        }
        r
    }

    fn get_name(&self) -> (r: &str) {
        self.name.as_str()
    }
}

} // verus!
