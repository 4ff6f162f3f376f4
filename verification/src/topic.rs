use crate::measurement::spec_kind_name;
use crate::pipeline::DeviceReading;
use vstd::prelude::*;
use vstd::string::StringExecFns;

verus! {

/// The topic a reading with the given measurement kind and device name is
/// published under: the kind and name joined onto a fixed prefix by literal
/// concatenation.  No escaping is applied, so a device name containing the
/// separator character produces extra topic levels; that is a known
/// limitation of the topic scheme.
pub open spec fn spec_topic(kind: Seq<char>, name: Seq<char>) -> Seq<char> {
    "device_reading/"@ + kind + "/"@ + name
}

/// Builds the topic string for a measurement kind and device name.  Pure
/// and total: defined for every pair, with the result fixed by the inputs.
pub fn topic_for(kind: &str, name: &str) -> (r: String)
    ensures
        r@ == spec_topic(kind@, name@),
{
    let mut r = String::new();
    r.append("device_reading/");
    r.append(kind);
    r.append("/");
    r.append(name);
    proof {
        assert(r@ =~= spec_topic(kind@, name@));
    }
    r
}

/// The topic string a reading is published under, computed from its
/// measurement kind and its device's name.
pub fn reading_topic(reading: &DeviceReading) -> (r: String)
    ensures
        r@ == spec_topic(spec_kind_name(reading.measurement), reading.device_id.device_name@),
{
    topic_for(reading.measurement.kind(), reading.device_id.device_name.as_str())
}

} // verus!
