use crate::identity::DeviceId;
use crate::identity::DeviceIdView;
use crate::identity::IdentityCache;
use crate::identity::lemma_observe_preserves_others;
use crate::identity::opt_name_view;
use crate::identity::spec_lookup;
use crate::identity::spec_observe;
use crate::manufacturer_data::manufacturer_entries_view;
use crate::manufacturer_data::measurements_from_manufacturer_data;
use crate::manufacturer_data::spec_manufacturer_measurements;
use crate::measurement::Measurement;
use crate::service_data::measurements_from_service_data;
use crate::service_data::service_entries_view;
use crate::service_data::spec_service_measurements;
use vstd::prelude::*;

verus! {

/// One raw event from the scanning stack, tagged by the transient handle the
/// stack assigned to the device.  Events that carry no measurement
/// information for this pipeline are `Other`.
pub enum RawEvent {
    Discovered { handle: u128, name: Option<String> },
    ServiceData { handle: u128, service_data: Vec<(u128, Vec<u8>)> },
    ManufacturerData { handle: u128, manufacturer_data: Vec<(u16, Vec<u8>)> },
    Other,
}

/// The mathematical value of a raw event.
pub ghost enum RawEventView {
    Discovered { handle: u128, name: Option<Seq<char>> },
    ServiceData { handle: u128, entries: Seq<(u128, Seq<u8>)> },
    ManufacturerData { handle: u128, entries: Seq<(u16, Seq<u8>)> },
    Other,
}

impl View for RawEvent {
    type V = RawEventView;

    open spec fn view(&self) -> RawEventView {
        match self {
            RawEvent::Discovered { handle, name } => RawEventView::Discovered {
                handle: *handle,
                name: opt_name_view(*name),
            },
            RawEvent::ServiceData { handle, service_data } => RawEventView::ServiceData {
                handle: *handle,
                entries: service_entries_view(service_data@),
            },
            RawEvent::ManufacturerData { handle, manufacturer_data } => RawEventView::ManufacturerData {
                handle: *handle,
                entries: manufacturer_entries_view(manufacturer_data@),
            },
            RawEvent::Other => RawEventView::Other,
        }
    }
}

/// A raw advertisement whose handle the identity cache resolved: the same
/// payload map, attributed to a stable device identity.
pub enum DeviceEvent {
    ManufacturerDataAdvertisement {
        device_id: DeviceId,
        manufacturer_data: Vec<(u16, Vec<u8>)>,
    },
    ServiceDataAdvertisement { device_id: DeviceId, service_data: Vec<(u128, Vec<u8>)> },
}

/// The mathematical value of an identity-attributed event.
pub ghost enum DeviceEventView {
    ManufacturerData { device_id: DeviceIdView, entries: Seq<(u16, Seq<u8>)> },
    ServiceData { device_id: DeviceIdView, entries: Seq<(u128, Seq<u8>)> },
}

impl View for DeviceEvent {
    type V = DeviceEventView;

    open spec fn view(&self) -> DeviceEventView {
        match self {
            DeviceEvent::ManufacturerDataAdvertisement { device_id, manufacturer_data } => DeviceEventView::ManufacturerData {
                device_id: device_id@,
                entries: manufacturer_entries_view(manufacturer_data@),
            },
            DeviceEvent::ServiceDataAdvertisement { device_id, service_data } => DeviceEventView::ServiceData {
                device_id: device_id@,
                entries: service_entries_view(service_data@),
            },
        }
    }
}

/// One decoded measurement paired with the identity of the device that
/// advertised it; each reading is independent and individually publishable.
pub struct DeviceReading {
    pub device_id: DeviceId,
    pub measurement: Measurement,
}

/// The mathematical value of a device reading.
pub ghost struct DeviceReadingView {
    pub device_id: DeviceIdView,
    pub measurement: Measurement,
}

impl View for DeviceReading {
    type V = DeviceReadingView;

    open spec fn view(&self) -> DeviceReadingView {
        DeviceReadingView { device_id: self.device_id@, measurement: self.measurement }
    }
}

/// The view of an optional emitted device event.
pub open spec fn opt_event_view(o: Option<DeviceEvent>) -> Option<DeviceEventView> {
    match o {
        Some(e) => Some(e@),
        None => None,
    }
}

/// The view of a sequence of readings.
pub open spec fn readings_view(s: Seq<DeviceReading>) -> Seq<DeviceReadingView> {
    s.map_values(|r: DeviceReading| r@)
}

/// What one raw event does to the identity cache: a discovery is recorded,
/// every other event leaves the cache untouched.
pub open spec fn spec_step_cache(c: Seq<DeviceIdView>, e: RawEventView) -> Seq<DeviceIdView> {
    match e {
        RawEventView::Discovered { handle, name } => spec_observe(c, handle, name),
        _ => c,
    }
}

/// The device event one raw event normalizes to under a given cache state:
/// an advertisement for a resolved handle becomes an identity-attributed
/// event, one for an unresolved handle is dropped, and every other raw
/// event produces nothing.
pub open spec fn spec_emitted(c: Seq<DeviceIdView>, e: RawEventView) -> Option<DeviceEventView> {
    match e {
        RawEventView::ServiceData { handle, entries } => match spec_lookup(c, handle) {
            Some(d) => Some(DeviceEventView::ServiceData { device_id: d, entries }),
            None => None,
        },
        RawEventView::ManufacturerData { handle, entries } => match spec_lookup(c, handle) {
            Some(d) => Some(DeviceEventView::ManufacturerData { device_id: d, entries }),
            None => None,
        },
        _ => None,
    }
}

/// Applies one raw event to the identity cache and, for an advertisement
/// whose handle resolves, re-shapes it into an identity-attributed event.
/// Advertisements for unresolved handles are dropped silently: a reading
/// with no identity is useless to the consumer, and the device is expected
/// to be rediscovered.
pub fn normalize_event(cache: &mut IdentityCache, event: RawEvent) -> (r: Option<DeviceEvent>)
    ensures
        final(cache)@ == spec_step_cache(old(cache)@, event@),
        opt_event_view(r) == spec_emitted(old(cache)@, event@),
{
    match event {
        RawEvent::Discovered { handle, name } => {
            cache.observe_discovery(handle, name);
            None
        },
        RawEvent::ServiceData { handle, service_data } => {
            match cache.resolve(handle) {
                Some(device_id) => Some(
                    DeviceEvent::ServiceDataAdvertisement { device_id, service_data },
                ),
                None => None,
            }
        },
        RawEvent::ManufacturerData { handle, manufacturer_data } => {
            match cache.resolve(handle) {
                Some(device_id) => Some(
                    DeviceEvent::ManufacturerDataAdvertisement { device_id, manufacturer_data },
                ),
                None => None,
            }
        },
        RawEvent::Other => None,
    }
}

/// The readings an identity-attributed event projects to: each measurement
/// its payload decodes to, paired with the event's identity, in decode
/// order.
pub open spec fn spec_project(e: DeviceEventView) -> Seq<DeviceReadingView> {
    match e {
        DeviceEventView::ServiceData { device_id, entries } => spec_paired(
            device_id,
            spec_service_measurements(entries),
        ),
        DeviceEventView::ManufacturerData { device_id, entries } => spec_paired(
            device_id,
            spec_manufacturer_measurements(entries),
        ),
    }
}

/// Pairs every measurement with one identity, preserving order.
pub open spec fn spec_paired(d: DeviceIdView, ms: Seq<Measurement>) -> Seq<DeviceReadingView> {
    ms.map_values(|m: Measurement| DeviceReadingView { device_id: d, measurement: m })
}

/// Pairs each measurement of a decoded payload with the identity that
/// advertised it.
fn pair_readings(device_id: &DeviceId, ms: Vec<Measurement>) -> (r: Vec<DeviceReading>)
    ensures
        readings_view(r@) == spec_paired(device_id@, ms@),
{
    let mut out: Vec<DeviceReading> = Vec::new();
    let n = ms.len();
    let mut i: usize = 0;
    while i < n
        invariant
            n == ms.len(),
            i <= n,
            out@.len() == i,
            forall|k: int|
                0 <= k < i ==> out@[k]@ == (DeviceReadingView {
                    device_id: device_id@,
                    measurement: ms@[k],
                }),
        decreases n - i,
    {
        out.push(DeviceReading { device_id: device_id.clone(), measurement: ms[i] });
        i = i + 1;
    }
    proof {
        assert(readings_view(out@) =~= spec_paired(device_id@, ms@));
    }
    out
}

/// Dispatches an identity-attributed event to the decoder its payload kind
/// selects and flattens the result into independent readings.
pub fn project_event(event: &DeviceEvent) -> (r: Vec<DeviceReading>)
    ensures
        readings_view(r@) == spec_project(event@),
{
    match event {
        DeviceEvent::ServiceDataAdvertisement { device_id, service_data } => {
            let ms = measurements_from_service_data(service_data);
            pair_readings(device_id, ms)
        },
        DeviceEvent::ManufacturerDataAdvertisement { device_id, manufacturer_data } => {
            let ms = measurements_from_manufacturer_data(manufacturer_data);
            pair_readings(device_id, ms)
        },
    }
}

/// The readings one raw event yields under a given cache state.
pub open spec fn spec_step_readings(
    c: Seq<DeviceIdView>,
    e: RawEventView,
) -> Seq<DeviceReadingView> {
    match spec_emitted(c, e) {
        Some(de) => spec_project(de),
        None => Seq::empty(),
    }
}

/// One full pipeline step: normalize a raw event against the identity cache
/// and project the surviving event onto readings.  An event that drops out
/// at any stage — unresolved handle, undecodable payload, an event kind with
/// no measurement content — yields no readings and no error.
pub fn process_raw_event(cache: &mut IdentityCache, event: RawEvent) -> (r: Vec<DeviceReading>)
    ensures
        final(cache)@ == spec_step_cache(old(cache)@, event@),
        readings_view(r@) == spec_step_readings(old(cache)@, event@),
{
    match normalize_event(cache, event) {
        Some(device_event) => project_event(&device_event),
        None => {
            let r: Vec<DeviceReading> = Vec::new();
            proof {
                assert(readings_view(r@) =~= Seq::<DeviceReadingView>::empty());
            }
            r
        },
    }
}

/// The identity cache after the events at positions `i` and later have been
/// applied, in order, starting from cache state `c`.
pub open spec fn spec_cache_after(
    c: Seq<DeviceIdView>,
    events: Seq<RawEventView>,
    i: int,
) -> Seq<DeviceIdView>
    decreases events.len() - i,
{
    if i < 0 || i >= events.len() {
        c
    } else {
        spec_cache_after(spec_step_cache(c, events[i]), events, i + 1)
    }
}

/// Whether a raw event is an advertisement referencing the given handle.
pub open spec fn references_handle(e: RawEventView, h: u128) -> bool {
    match e {
        RawEventView::ServiceData { handle, entries } => handle == h,
        RawEventView::ManufacturerData { handle, entries } => handle == h,
        _ => false,
    }
}

/// Whether a raw event is a discovery for the given handle.
pub open spec fn discovers_handle(e: RawEventView, h: u128) -> bool {
    match e {
        RawEventView::Discovered { handle, name } => handle == h,
        _ => false,
    }
}

/// A handle that no event discovers stays unresolved through any run of the
/// pipeline.
pub proof fn lemma_undiscovered_stays_unresolved(
    c: Seq<DeviceIdView>,
    events: Seq<RawEventView>,
    h: u128,
    i: int,
)
    requires
        spec_lookup(c, h) is None,
        forall|j: int| i <= j < events.len() ==> !discovers_handle(events[j], h),
    ensures
        spec_lookup(spec_cache_after(c, events, i), h) is None,
    decreases events.len() - i,
{
    if 0 <= i < events.len() {
        let c1 = spec_step_cache(c, events[i]);
        match events[i] {
            RawEventView::Discovered { handle, name } => {
                lemma_observe_preserves_others(c, handle, name, h);
            },
            _ => {},
        }
        assert(spec_lookup(c1, h) is None);
        lemma_undiscovered_stays_unresolved(c1, events, h, i + 1);
    }
}

/// For all raw advertisement events referencing a handle never seen in a
/// discovery event, the normalizer emits no device event — however many
/// other events, for any handles, came before.
pub proof fn lemma_unseen_handle_emits_nothing(
    events: Seq<RawEventView>,
    h: u128,
    k: int,
)
    requires
        forall|j: int| 0 <= j < events.len() ==> !discovers_handle(events[j], h),
        0 <= k < events.len(),
        references_handle(events[k], h),
    ensures
        spec_emitted(
            spec_cache_after(Seq::<DeviceIdView>::empty(), events.subrange(0, k), 0),
            events[k],
        ) is None,
{
    let prefix = events.subrange(0, k);
    assert(forall|j: int| 0 <= j < prefix.len() ==> !discovers_handle(prefix[j], h));
    lemma_undiscovered_stays_unresolved(Seq::<DeviceIdView>::empty(), prefix, h, 0);
}

/// A discovery event carrying no name leaves the identity cache unchanged:
/// it neither creates nor overwrites an entry.
pub proof fn lemma_nameless_discovery_no_op(c: Seq<DeviceIdView>, h: u128)
    ensures
        spec_step_cache(
            c,
            (RawEventView::Discovered { handle: h, name: None::<Seq<char>> }),
        ) == c,
{
}

/// Advertisements and ignorable events never change the identity cache;
/// only discovery events do.
pub proof fn lemma_advertisements_leave_cache_unchanged(c: Seq<DeviceIdView>, e: RawEventView)
    requires
        !(e matches RawEventView::Discovered { .. }),
    ensures
        spec_step_cache(c, e) == c,
{
}

/// Failure isolation: whatever one advertisement event was — malformed,
/// undecodable, or for an unknown device — processing it does not change
/// what the next event yields.
pub proof fn lemma_decode_failure_isolated(
    c: Seq<DeviceIdView>,
    first: RawEventView,
    second: RawEventView,
)
    requires
        !(first matches RawEventView::Discovered { .. }),
    ensures
        spec_step_readings(spec_step_cache(c, first), second) == spec_step_readings(c, second),
{
    lemma_advertisements_leave_cache_unchanged(c, first);
}

} // verus!
