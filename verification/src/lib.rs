//! Event-normalization and decoding pipeline for ambient wireless sensors.
//!
//! The crate turns raw scan events — each tagged only by a transient device
//! handle and carrying vendor- or service-keyed byte payloads — into a
//! uniform sequence of identity-attributed readings.  An identity cache
//! learns device names from discovery events, a normalizer resolves
//! advertisement events against that cache, two decoder families translate
//! payload bytes into typed measurements, and a projector pairs every
//! measurement with the device identity it belongs to.

mod identity;
mod manufacturer_data;
mod measurement;
mod pipeline;
mod service_data;
mod topic;

pub use identity::DeviceId;
pub use identity::DeviceIdView;
pub use identity::IdentityCache;
pub use identity::lemma_observe_preserves_others;
pub use identity::lemma_observe_then_lookup;
pub use manufacturer_data::RuuviRaw;
pub use manufacturer_data::measurements_from_manufacturer_data;
pub use manufacturer_data::lemma_manufacturer_decode_deterministic;
pub use manufacturer_data::lemma_manufacturer_entries_independent;
pub use manufacturer_data::measurements_from_ruuvi;
pub use measurement::Measurement;
pub use pipeline::DeviceEvent;
pub use pipeline::DeviceReading;
pub use pipeline::RawEvent;
pub use pipeline::lemma_decode_failure_isolated;
pub use pipeline::lemma_nameless_discovery_no_op;
pub use pipeline::lemma_unseen_handle_emits_nothing;
pub use pipeline::normalize_event;
pub use pipeline::process_raw_event;
pub use pipeline::project_event;
pub use service_data::BtElement;
pub use service_data::ENVELOPE_SERVICE_ID;
pub use service_data::lemma_service_decode_deterministic;
pub use service_data::measurements_from_elements;
pub use service_data::measurements_from_service_data;
pub use topic::reading_topic;
pub use topic::topic_for;
