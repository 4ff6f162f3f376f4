use crate::measurement::Measurement;
use ruuvi_sensor_protocol::BatteryPotential;
use ruuvi_sensor_protocol::Humidity;
use ruuvi_sensor_protocol::SensorValues;
use ruuvi_sensor_protocol::Temperature;
use vstd::prelude::*;

verus! {

/// The raw integer readings carried by one vendor-specific advertisement:
/// relative humidity in parts per million, temperature in thousandths of a
/// degree Celsius, and battery potential in millivolts.  Each field is
/// absent when the advertisement does not carry that reading.
#[derive(Clone, Copy, Debug, PartialEq, Eq)]
pub struct RuuviRaw {
    pub humidity_ppm: Option<u32>,
    pub temperature_millicelsius: Option<i32>,
    pub battery_millivolts: Option<u16>,
}

/// What the vendor decoder yields for a vendor id and payload bytes: `None`
/// for an unrecognized vendor id, unsupported format version or truncated
/// payload, and the raw readings otherwise.  The result depends on the
/// arguments alone.
pub uninterp spec fn ruuvi_values_of(id: u16, data: Seq<u8>) -> Option<RuuviRaw>;

/// Relies on `ruuvi_sensor_protocol::SensorValues::from_manufacturer_specific_data`
/// and its accessors `humidity_as_ppm`, `temperature_as_millicelsius` and
/// `battery_potential_as_millivolts` to decode one fixed-layout vendor
/// advertisement; the decode is a pure function of the vendor id and bytes.
#[verifier::external_body]
fn ruuvi_decode(id: u16, data: &Vec<u8>) -> (r: Option<RuuviRaw>)
    ensures
        r == ruuvi_values_of(id, data@),
        id != 0x0499 ==> r is None,
        data@.len() == 0 ==> r is None,
{
    match SensorValues::from_manufacturer_specific_data(id, data.as_slice()) {
        Ok(v) => Some(
            RuuviRaw {
                humidity_ppm: v.humidity_as_ppm(),
                temperature_millicelsius: v.temperature_as_millicelsius(),
                battery_millivolts: v.battery_potential_as_millivolts(),
            },
        ),
        Err(_) => None,
    }
}

/// A sequence holding just the given measurement, or nothing.
pub open spec fn opt_measurement_seq(m: Option<Measurement>) -> Seq<Measurement> {
    match m {
        Some(x) => seq![x],
        None => Seq::empty(),
    }
}

/// The measurements one decoded vendor advertisement projects to, with the
/// fixed unit conversions: parts per million to micro-percent, millidegrees
/// to micro-degrees, and millivolts to microvolts.  The battery potential is
/// reported as a voltage, not as a battery percentage.
pub open spec fn spec_ruuvi_measurements(raw: RuuviRaw) -> Seq<Measurement> {
    opt_measurement_seq(
        match raw.humidity_ppm {
            Some(p) => Some(Measurement::Humidity((p * 100) as i64)),
            None => None,
        },
    ) + opt_measurement_seq(
        match raw.temperature_millicelsius {
            Some(t) => Some(Measurement::Temperature((t * 1000) as i64)),
            None => None,
        },
    ) + opt_measurement_seq(
        match raw.battery_millivolts {
            Some(v) => Some(Measurement::Voltage((v * 1000) as i64)),
            None => None,
        },
    )
}

/// Converts the raw readings of one vendor advertisement into measurements,
/// in decode order: humidity, then temperature, then battery potential.
pub fn measurements_from_ruuvi(raw: &RuuviRaw) -> (r: Vec<Measurement>)
    ensures
        r@ == spec_ruuvi_measurements(*raw),
{
    let mut out: Vec<Measurement> = Vec::new();
    if let Some(p) = raw.humidity_ppm {
        out.push(Measurement::Humidity((p as i64) * 100));
    }
    if let Some(t) = raw.temperature_millicelsius {
        out.push(Measurement::Temperature((t as i64) * 1000));
    }
    if let Some(v) = raw.battery_millivolts {
        out.push(Measurement::Voltage((v as i64) * 1000));
    }
    proof {
        assert(out@ =~= spec_ruuvi_measurements(*raw));
    }
    out
}

/// The measurements contributed by one vendor-id entry of a
/// manufacturer-data map: none when the entry does not decode.
pub open spec fn spec_manufacturer_entry(id: u16, data: Seq<u8>) -> Seq<Measurement> {
    match ruuvi_values_of(id, data) {
        Some(raw) => spec_ruuvi_measurements(raw),
        None => Seq::empty(),
    }
}

/// The measurements of all entries at position `i` and later, concatenated
/// in entry order.
pub open spec fn manufacturer_measurements_from(
    entries: Seq<(u16, Seq<u8>)>,
    i: int,
) -> Seq<Measurement>
    decreases entries.len() - i,
{
    if i < 0 || i >= entries.len() {
        Seq::empty()
    } else {
        spec_manufacturer_entry(entries[i].0, entries[i].1) + manufacturer_measurements_from(
            entries,
            i + 1,
        )
    }
}

/// All measurements a manufacturer-data map decodes to, entry by entry.
pub open spec fn spec_manufacturer_measurements(entries: Seq<(u16, Seq<u8>)>) -> Seq<Measurement> {
    manufacturer_measurements_from(entries, 0)
}

/// The mathematical value of a manufacturer-data payload map.
pub open spec fn manufacturer_entries_view(v: Seq<(u16, Vec<u8>)>) -> Seq<(u16, Seq<u8>)> {
    v.map_values(|p: (u16, Vec<u8>)| (p.0, p.1@))
}

/// Entries beyond a map's first part decode to the same measurements
/// whether or not the first part precedes them.
proof fn lemma_manufacturer_measurements_shift(
    s1: Seq<(u16, Seq<u8>)>,
    s2: Seq<(u16, Seq<u8>)>,
    j: int,
)
    requires
        0 <= j <= s2.len(),
    ensures
        manufacturer_measurements_from(s1 + s2, s1.len() + j) == manufacturer_measurements_from(
            s2,
            j,
        ),
    decreases s2.len() - j,
{
    if j < s2.len() {
        assert((s1 + s2)[s1.len() + j] == s2[j]);
        lemma_manufacturer_measurements_shift(s1, s2, j + 1);
    }
}

/// Entry independence: the measurements of a manufacturer-data map split
/// over any division of its entries.  In particular, an unresolvable or
/// truncated payload for one vendor id contributes an empty part and never
/// suppresses the correctly decodable entries around it.
pub proof fn lemma_manufacturer_entries_independent(
    s1: Seq<(u16, Seq<u8>)>,
    s2: Seq<(u16, Seq<u8>)>,
)
    ensures
        spec_manufacturer_measurements(s1 + s2) == spec_manufacturer_measurements(s1)
            + spec_manufacturer_measurements(s2),
{
    lemma_manufacturer_concat_from(s1, s2, 0);
}

proof fn lemma_manufacturer_concat_from(s1: Seq<(u16, Seq<u8>)>, s2: Seq<(u16, Seq<u8>)>, i: int)
    requires
        0 <= i <= s1.len(),
    ensures
        manufacturer_measurements_from(s1 + s2, i) == manufacturer_measurements_from(s1, i)
            + spec_manufacturer_measurements(s2),
    decreases s1.len() - i,
{
    if i < s1.len() {
        assert((s1 + s2)[i] == s1[i]);
        lemma_manufacturer_concat_from(s1, s2, i + 1);
        let entry = spec_manufacturer_entry(s1[i].0, s1[i].1);
        let tail = manufacturer_measurements_from(s1, i + 1);
        assert(entry + (tail + spec_manufacturer_measurements(s2)) =~= (entry + tail)
            + spec_manufacturer_measurements(s2));
    } else {
        lemma_manufacturer_measurements_shift(s1, s2, 0);
        assert(Seq::<Measurement>::empty() + spec_manufacturer_measurements(s2)
            =~= spec_manufacturer_measurements(s2));
    }
}

/// Decoding is deterministic: two manufacturer-data maps holding the same
/// vendor ids and payload bytes decode to the same measurement sequence,
/// whatever distinct buffers carry them.  With the decoder's contract this
/// pins down that decoding the same bytes twice yields identical results.
pub proof fn lemma_manufacturer_decode_deterministic(
    a: Seq<(u16, Vec<u8>)>,
    b: Seq<(u16, Vec<u8>)>,
)
    requires
        manufacturer_entries_view(a) == manufacturer_entries_view(b),
    ensures
        spec_manufacturer_measurements(manufacturer_entries_view(a))
            == spec_manufacturer_measurements(manufacturer_entries_view(b)),
{
}

/// Decodes every vendor-id entry of a manufacturer-data map independently:
/// an entry that fails to decode contributes nothing and never suppresses
/// the other entries.
pub fn measurements_from_manufacturer_data(entries: &Vec<(u16, Vec<u8>)>) -> (r: Vec<Measurement>)
    ensures
        r@ == spec_manufacturer_measurements(manufacturer_entries_view(entries@)),
{
    let ghost ev = manufacturer_entries_view(entries@);
    let mut out: Vec<Measurement> = Vec::new();
    let n = entries.len();
    let mut i: usize = 0;
    proof {
        assert(Seq::<Measurement>::empty() + manufacturer_measurements_from(ev, 0)
            =~= manufacturer_measurements_from(ev, 0));
    }
    while i < n
        invariant
            n == entries.len(),
            i <= n,
            ev == manufacturer_entries_view(entries@),
            out@ + manufacturer_measurements_from(ev, i as int) == spec_manufacturer_measurements(
                ev,
            ),
        decreases n - i,
    {
        let ghost out0 = out@;
        let ghost rest = manufacturer_measurements_from(ev, i as int + 1);
        proof {
            assert(ev[i as int] == (entries@[i as int].0, entries@[i as int].1@));
        }
        match ruuvi_decode(entries[i].0, &entries[i].1) {
            Some(raw) => {
                let mut ms = measurements_from_ruuvi(&raw);
                let ghost msv = ms@;
                out.append(&mut ms);
                proof {
                    assert(msv == spec_manufacturer_entry(ev[i as int].0, ev[i as int].1));
                    assert((out0 + msv) + rest =~= out0 + (msv + rest));
                }
            },
            None => {
                proof {
                    assert(Seq::<Measurement>::empty() + rest =~= rest);
                }
            },
        }
        proof {
            assert(out@ + manufacturer_measurements_from(ev, i as int + 1)
                == spec_manufacturer_measurements(ev));
        }
        i = i + 1;
    }
    out
}

} // verus!
