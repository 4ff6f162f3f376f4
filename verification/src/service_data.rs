use crate::measurement::Measurement;
use btsensor::Reading;
use btsensor::bthome::v2::Element;
use std::collections::HashMap;
use uuid::Uuid;
use vstd::prelude::*;

verus! {

/// One element of a decoded structured advertisement envelope, reduced to
/// the raw integer it carries.  Only the element kinds this pipeline
/// projects to measurements are distinguished; every other element is
/// `Other` and is dropped without error.
///
/// The raw scales follow the envelope format: `Humidity` and
/// `TemperatureSmall` carry hundredths of a unit, `Temperature` tenths,
/// `HumidityShort` and `Battery` whole units.
#[derive(Clone, Copy, Debug, PartialEq, Eq, Structural)]
pub enum BtElement {
    Humidity(u16),
    HumidityShort(u8),
    Temperature(i16),
    TemperatureSmall(i16),
    Battery(u8),
    Other,
}

/// The service id under which devices broadcast the structured envelope
/// format this pipeline decodes.
pub const ENVELOPE_SERVICE_ID: u128 = 0x0000fcd2_0000_1000_8000_00805f9b34fb;

/// What the structured-envelope decoder yields for a service-data map: the
/// element sequence of a well-formed envelope keyed under the envelope
/// format's service id, or `None` for a missing key, malformed envelope or
/// unknown envelope version.  The result depends on the map contents alone.
pub uninterp spec fn bthome_v2_of(entries: Seq<(u128, Seq<u8>)>) -> Option<Seq<BtElement>>;

/// The mathematical value of a service-data payload map.
pub open spec fn service_entries_view(v: Seq<(u128, Vec<u8>)>) -> Seq<(u128, Seq<u8>)> {
    v.map_values(|p: (u128, Vec<u8>)| (p.0, p.1@))
}

/// The entries at position `i` and later that can hold an envelope: those
/// keyed by the envelope's service id with a nonempty payload, in order.
pub open spec fn envelope_entries_from(
    v: Seq<(u128, Seq<u8>)>,
    i: int,
) -> Seq<(u128, Seq<u8>)>
    decreases v.len() - i,
{
    if i < 0 || i >= v.len() {
        Seq::empty()
    } else if v[i].0 == ENVELOPE_SERVICE_ID && v[i].1.len() >= 1 {
        seq![v[i]] + envelope_entries_from(v, i + 1)
    } else {
        envelope_entries_from(v, i + 1)
    }
}

/// The entries of a service-data map that participate in envelope decoding.
/// Entries under any other service id carry formats this pipeline never
/// projects measurements from, and an empty payload cannot hold an
/// envelope; both are discarded before the decoder runs.
pub open spec fn envelope_entries(v: Seq<(u128, Seq<u8>)>) -> Seq<(u128, Seq<u8>)> {
    envelope_entries_from(v, 0)
}

/// The view of an optional decoded element list.
pub open spec fn opt_elements_view(o: Option<Vec<BtElement>>) -> Option<Seq<BtElement>> {
    match o {
        Some(v) => Some(v@),
        None => None,
    }
}

/// Relies on `btsensor::Reading::decode` to decode a service-data map as a
/// structured multi-element envelope, and on the public variants of
/// `btsensor::bthome::v2::Element` to expose each element's raw integer;
/// the decode is a pure function of the map contents.  The caller keeps out
/// entries under other service ids and empty payloads, on which the
/// decoder's other format paths can panic.
#[verifier::external_body]
fn decode_service_envelope(entries: &Vec<(u128, Vec<u8>)>) -> (r: Option<Vec<BtElement>>)
    requires
        forall|k: int|
            0 <= k < entries@.len() ==> (entries@[k].0 == ENVELOPE_SERVICE_ID
                && entries@[k].1@.len() >= 1),
    ensures
        opt_elements_view(r) == bthome_v2_of(service_entries_view(entries@)),
        entries@.len() == 0 ==> r is None,
{
    let map: HashMap<Uuid, Vec<u8>> =
        entries.iter().map(|p| (Uuid::from_u128(p.0), p.1.clone())).collect();
    match Reading::decode(&map) {
        Some(Reading::BtHomeV2(v2)) => Some(v2.elements.iter().map(|e| match e {
            Element::Humidity(v) => BtElement::Humidity(*v),
            Element::HumidityShort(v) => BtElement::HumidityShort(*v),
            Element::Temperature(v) => BtElement::Temperature(*v),
            Element::TemperatureSmall(v) => BtElement::TemperatureSmall(*v),
            Element::Battery(v) => BtElement::Battery(*v),
            _ => BtElement::Other,
        }).collect()),
        _ => None,
    }
}

/// The measurement one envelope element projects to, if any: humidity and
/// temperature elements scaled to millionths of a percent or of a degree
/// Celsius, battery elements widened from whole percent.  Elements of any
/// other kind project to nothing.
pub open spec fn spec_element_measurement(e: BtElement) -> Option<Measurement> {
    match e {
        BtElement::Humidity(v) => Some(Measurement::Humidity((v * 10000) as i64)),
        BtElement::HumidityShort(v) => Some(Measurement::Humidity((v * 1000000) as i64)),
        BtElement::Temperature(v) => Some(Measurement::Temperature((v * 100000) as i64)),
        BtElement::TemperatureSmall(v) => Some(Measurement::Temperature((v * 10000) as i64)),
        BtElement::Battery(v) => Some(Measurement::Battery((v * 1000000) as i64)),
        BtElement::Other => None,
    }
}

/// The measurements of all elements at position `i` and later, in element
/// order.
pub open spec fn element_measurements_from(s: Seq<BtElement>, i: int) -> Seq<Measurement>
    decreases s.len() - i,
{
    if i < 0 || i >= s.len() {
        Seq::empty()
    } else {
        (match spec_element_measurement(s[i]) {
            Some(m) => seq![m],
            None => Seq::empty(),
        }) + element_measurements_from(s, i + 1)
    }
}

/// All measurements a decoded element sequence projects to, in order.
pub open spec fn spec_element_measurements(s: Seq<BtElement>) -> Seq<Measurement> {
    element_measurements_from(s, 0)
}

/// All measurements a service-data map decodes to: those of the envelope
/// decoded from its envelope-capable entries, or none when no envelope
/// decodes.
pub open spec fn spec_service_measurements(entries: Seq<(u128, Seq<u8>)>) -> Seq<Measurement> {
    match bthome_v2_of(envelope_entries(entries)) {
        Some(elements) => spec_element_measurements(elements),
        None => Seq::empty(),
    }
}

/// Projects a decoded element sequence onto measurements, preserving
/// element order and dropping elements of unrecognized kinds.
pub fn measurements_from_elements(elements: &Vec<BtElement>) -> (r: Vec<Measurement>)
    ensures
        r@ == spec_element_measurements(elements@),
{
    let mut out: Vec<Measurement> = Vec::new();
    let n = elements.len();
    let mut i: usize = 0;
    proof {
        assert(Seq::<Measurement>::empty() + element_measurements_from(elements@, 0)
            =~= element_measurements_from(elements@, 0));
    }
    while i < n
        invariant
            n == elements.len(),
            i <= n,
            out@ + element_measurements_from(elements@, i as int) == spec_element_measurements(
                elements@,
            ),
        decreases n - i,
    {
        let ghost out0 = out@;
        let ghost rest = element_measurements_from(elements@, i as int + 1);
        match elements[i] {
            BtElement::Humidity(v) => out.push(Measurement::Humidity((v as i64) * 10000)),
            BtElement::HumidityShort(v) => out.push(Measurement::Humidity((v as i64) * 1000000)),
            BtElement::Temperature(v) => out.push(Measurement::Temperature((v as i64) * 100000)),
            BtElement::TemperatureSmall(v) => out.push(
                Measurement::Temperature((v as i64) * 10000),
            ),
            BtElement::Battery(v) => out.push(Measurement::Battery((v as i64) * 1000000)),
            BtElement::Other => {},
        }
        proof {
            match spec_element_measurement(elements@[i as int]) {
                Some(m) => {
                    assert((out0 + seq![m]) + rest =~= out0 + (seq![m] + rest));
                },
                None => {
                    assert(Seq::<Measurement>::empty() + rest =~= rest);
                },
            }
            assert(out@ + element_measurements_from(elements@, i as int + 1)
                == spec_element_measurements(elements@));
        }
        i = i + 1;
    }
    out
}

/// Decoding is deterministic: two service-data maps holding the same
/// selector keys and payload bytes decode to the same measurement sequence,
/// whatever distinct buffers carry them.  With the decoder's contract this
/// pins down that decoding the same bytes twice yields identical results.
pub proof fn lemma_service_decode_deterministic(
    a: Seq<(u128, Vec<u8>)>,
    b: Seq<(u128, Vec<u8>)>,
)
    requires
        service_entries_view(a) == service_entries_view(b),
    ensures
        spec_service_measurements(service_entries_view(a)) == spec_service_measurements(
            service_entries_view(b),
        ),
{
}

/// Decodes a service-data map as a structured envelope and projects its
/// elements onto measurements.  A map without a well-formed envelope yields
/// no measurements and no error: unknown or future envelope variants are
/// expected in the wild and are silently skipped.
pub fn measurements_from_service_data(entries: &Vec<(u128, Vec<u8>)>) -> (r: Vec<Measurement>)
    ensures
        r@ == spec_service_measurements(service_entries_view(entries@)),
{
    let ghost ev = service_entries_view(entries@);
    let mut keep: Vec<(u128, Vec<u8>)> = Vec::new();
    let n = entries.len();
    let mut i: usize = 0;
    proof {
        assert(Seq::<(u128, Seq<u8>)>::empty() + envelope_entries_from(ev, 0) =~= envelope_entries_from(
            ev,
            0,
        ));
        assert(service_entries_view(keep@) =~= Seq::<(u128, Seq<u8>)>::empty());
    }
    while i < n
        invariant
            n == entries.len(),
            i <= n,
            ev == service_entries_view(entries@),
            forall|k: int|
                0 <= k < keep@.len() ==> (keep@[k].0 == ENVELOPE_SERVICE_ID && keep@[k].1@.len()
                    >= 1),
            service_entries_view(keep@) + envelope_entries_from(ev, i as int) == envelope_entries(
                ev,
            ),
        decreases n - i,
    {
        let ghost keep0 = keep@;
        let ghost rest = envelope_entries_from(ev, i as int + 1);
        proof {
            assert(ev[i as int] == (entries@[i as int].0, entries@[i as int].1@));
        }
        if entries[i].0 == ENVELOPE_SERVICE_ID && entries[i].1.len() >= 1 {
            let payload = entries[i].1.clone();
            proof {
                assert(payload@ =~= entries@[i as int].1@);
            }
            keep.push((entries[i].0, payload));
            proof {
                assert(service_entries_view(keep@) =~= service_entries_view(keep0).push(
                    ev[i as int],
                ));
                assert((service_entries_view(keep0).push(ev[i as int])) + rest
                    =~= service_entries_view(keep0) + (seq![ev[i as int]] + rest));
            }
        } else {
            proof {
                assert(envelope_entries_from(ev, i as int) == rest);
            }
        }
        i = i + 1;
    }
    proof {
        assert(service_entries_view(keep@) + Seq::<(u128, Seq<u8>)>::empty() =~= service_entries_view(
            keep@,
        ));
    }
    match decode_service_envelope(&keep) {
        Some(elements) => measurements_from_elements(&elements),
        None => Vec::new(),
    }
}

} // verus!
