use sensor_bridge::DeviceEvent;
use sensor_bridge::DeviceId;
use sensor_bridge::IdentityCache;
use sensor_bridge::ENVELOPE_SERVICE_ID as ENVELOPE_UUID;
use sensor_bridge::Measurement;
use sensor_bridge::RawEvent;
use sensor_bridge::normalize_event;
use sensor_bridge::process_raw_event;
use sensor_bridge::project_event;


fn envelope_bytes() -> Vec<u8> {
    vec![64, 0, 126, 1, 100, 2, 124, 7, 3, 60, 15]
}

fn service_event(handle: u128) -> RawEvent {
    RawEvent::ServiceData {
        handle,
        service_data: vec![(ENVELOPE_UUID, envelope_bytes())],
    }
}

#[test]
fn advertisement_for_unseen_handle_emits_nothing() {
    let mut cache = IdentityCache::new();
    let readings = process_raw_event(&mut cache, service_event(42));
    assert!(readings.is_empty());

    let readings = process_raw_event(
        &mut cache,
        RawEvent::ManufacturerData {
            handle: 42,
            manufacturer_data: vec![(
                0x0499,
                vec![0x03, 78, 19, 16, 0x35, 0x58, 0x03, 0xE8, 0x04, 0xE7, 0x05, 0xE6, 0x0C, 0xE4],
            )],
        },
    );
    assert!(readings.is_empty());
}

#[test]
fn discovery_then_advertisement_emits_readings() {
    let mut cache = IdentityCache::new();
    let none = process_raw_event(
        &mut cache,
        RawEvent::Discovered { handle: 42, name: Some("attic".to_string()) },
    );
    assert!(none.is_empty());

    let readings = process_raw_event(&mut cache, service_event(42));
    assert_eq!(readings.len(), 3);
    for reading in readings.iter() {
        assert_eq!(reading.device_id.peripheral_id, 42);
        assert_eq!(reading.device_id.device_name, "attic");
    }
    assert_eq!(readings[0].measurement, Measurement::Battery(100_000_000));
    assert_eq!(readings[1].measurement, Measurement::Temperature(19_160_000));
    assert_eq!(readings[2].measurement, Measurement::Humidity(39_000_000));
}

#[test]
fn nameless_discovery_leaves_cache_unchanged() {
    let mut cache = IdentityCache::new();
    process_raw_event(&mut cache, RawEvent::Discovered { handle: 7, name: None });
    assert!(cache.resolve(7).is_none());
    assert!(process_raw_event(&mut cache, service_event(7)).is_empty());

    // A nameless rediscovery must not overwrite a learned name either.
    process_raw_event(&mut cache, RawEvent::Discovered { handle: 7, name: Some("shed".to_string()) });
    process_raw_event(&mut cache, RawEvent::Discovered { handle: 7, name: None });
    assert_eq!(cache.resolve(7).unwrap().device_name, "shed");
}

#[test]
fn later_discovery_overwrites_name() {
    let mut cache = IdentityCache::new();
    process_raw_event(&mut cache, RawEvent::Discovered { handle: 7, name: Some("old".to_string()) });
    process_raw_event(&mut cache, RawEvent::Discovered { handle: 7, name: Some("new".to_string()) });
    let id = cache.resolve(7).unwrap();
    assert_eq!(id.peripheral_id, 7);
    assert_eq!(id.device_name, "new");
}

#[test]
fn decode_error_does_not_block_next_event() {
    let mut cache = IdentityCache::new();
    process_raw_event(
        &mut cache,
        RawEvent::Discovered { handle: 1, name: Some("porch".to_string()) },
    );

    // Event N: resolved device, but a payload nothing can decode.
    let failed = process_raw_event(
        &mut cache,
        RawEvent::ServiceData { handle: 1, service_data: vec![(ENVELOPE_UUID, vec![64, 2, 124])] },
    );
    assert!(failed.is_empty());

    // Event N + 1 still yields its readings.
    let readings = process_raw_event(&mut cache, service_event(1));
    assert_eq!(readings.len(), 3);
}

#[test]
fn other_events_are_consumed_silently() {
    let mut cache = IdentityCache::new();
    assert!(process_raw_event(&mut cache, RawEvent::Other).is_empty());
    let out = normalize_event(&mut cache, RawEvent::Other);
    assert!(out.is_none());
}

#[test]
fn normalize_attaches_identity_to_service_data() {
    let mut cache = IdentityCache::new();
    cache.observe_discovery(9, Some("cellar".to_string()));
    let out = normalize_event(&mut cache, service_event(9));
    match out {
        Some(DeviceEvent::ServiceDataAdvertisement { device_id, service_data }) => {
            assert_eq!(device_id.peripheral_id, 9);
            assert_eq!(device_id.device_name, "cellar");
            assert_eq!(service_data, vec![(ENVELOPE_UUID, envelope_bytes())]);
        }
        _ => panic!("expected a service-data device event"),
    }
}

#[test]
fn project_event_pairs_identity_with_each_measurement() {
    let event = DeviceEvent::ManufacturerDataAdvertisement {
        device_id: DeviceId { peripheral_id: 3, device_name: "roof".to_string() },
        manufacturer_data: vec![(
            0x0499,
            vec![0x03, 78, 19, 16, 0x35, 0x58, 0x03, 0xE8, 0x04, 0xE7, 0x05, 0xE6, 0x0C, 0xE4],
        )],
    };
    let readings = project_event(&event);
    assert_eq!(readings.len(), 3);
    for reading in readings.iter() {
        assert_eq!(reading.device_id.peripheral_id, 3);
        assert_eq!(reading.device_id.device_name, "roof");
    }
    assert_eq!(readings[2].measurement, Measurement::Voltage(3_300_000));
}

#[test]
fn resolve_unknown_handle_is_none() {
    let cache = IdentityCache::new();
    assert!(cache.resolve(5).is_none());
}
