use vstd::prelude::*;

verus! {

/// One physical reading decoded from a sensor advertisement.
///
/// Each variant carries its value as a fixed-point integer in millionths of
/// the unit that the tag names: micro-percent for `Humidity` and `Battery`,
/// micro-degrees-Celsius for `Temperature`, and microvolts for `Voltage`.
/// The tag fully determines the unit; `Battery` is a charge percentage while
/// `Voltage` is a battery potential, and the two are never conflated.
#[derive(Clone, Copy, Debug, PartialEq, Eq, Structural)]
pub enum Measurement {
    Humidity(i64),
    Temperature(i64),
    Battery(i64),
    Voltage(i64),
}

/// The lowercase wire name of a measurement's kind, as used in topic strings
/// and serialized readings.
pub open spec fn spec_kind_name(m: Measurement) -> Seq<char> {
    match m {
        Measurement::Humidity(_) => "humidity"@,
        Measurement::Temperature(_) => "temperature"@,
        Measurement::Battery(_) => "battery"@,
        Measurement::Voltage(_) => "voltage"@,
    }
}

/// The value a measurement carries, in millionths of its unit.
pub open spec fn spec_value_micros(m: Measurement) -> i64 {
    match m {
        Measurement::Humidity(v) => v,
        Measurement::Temperature(v) => v,
        Measurement::Battery(v) => v,
        Measurement::Voltage(v) => v,
    }
}

impl Measurement {
    /// The measurement kind as its lowercase name.
    pub fn kind(&self) -> (r: &'static str)
        ensures
            r@ == spec_kind_name(*self),
    {
        match self {
            Measurement::Humidity(_) => "humidity",
            Measurement::Temperature(_) => "temperature",
            Measurement::Battery(_) => "battery",
            Measurement::Voltage(_) => "voltage",
        }
    }

    /// The carried value in millionths of the variant's unit.
    pub fn value_micros(&self) -> (r: i64)
        ensures
            r == spec_value_micros(*self),
    {
        match self {
            Measurement::Humidity(v) => *v,
            Measurement::Temperature(v) => *v,
            Measurement::Battery(v) => *v,
            Measurement::Voltage(v) => *v,
        }
    }
}

} // verus!
