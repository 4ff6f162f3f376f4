use sensor_bridge::ENVELOPE_SERVICE_ID as ENVELOPE_UUID;
use sensor_bridge::Measurement;
use sensor_bridge::RuuviRaw;
use sensor_bridge::measurements_from_manufacturer_data;
use sensor_bridge::measurements_from_ruuvi;
use sensor_bridge::measurements_from_service_data;


/// A well-formed structured envelope: battery 100 %, temperature 19.16 °C,
/// humidity 39.0 %.
fn envelope_bytes() -> Vec<u8> {
    vec![64, 0, 126, 1, 100, 2, 124, 7, 3, 60, 15]
}

/// A vendor advertisement in the fixed 14-byte layout: humidity 39.0 %
/// (raw 78 half-percent), temperature 19.16 °C (integer 19, centi 16),
/// battery 3.300 V (0x0CE4 millivolts).
fn vendor_bytes() -> Vec<u8> {
    vec![0x03, 78, 19, 16, 0x35, 0x58, 0x03, 0xE8, 0x04, 0xE7, 0x05, 0xE6, 0x0C, 0xE4]
}

#[test]
fn test_measurements_from_service_data() {
    let sd: Vec<(u128, Vec<u8>)> = vec![(
        ENVELOPE_UUID,
        vec![64, 0, 126, 1, 100, 2, 124, 7, 3, 60, 15],
    )];

    for measurement in measurements_from_service_data(&sd).iter() {
        match measurement {
            Measurement::Humidity(v) => assert_eq!((*v as f64) / 1e6, 39.0f64),
            Measurement::Temperature(v) => assert_eq!((*v as f64) / 1e6, 19.16f64),
            Measurement::Battery(v) => assert_eq!((*v as f64) / 1e6, 100.0f64),
            Measurement::Voltage(_) => {}
        }
    }
}

#[test]
fn service_data_exact_order_and_values() {
    let sd: Vec<(u128, Vec<u8>)> = vec![(ENVELOPE_UUID, envelope_bytes())];
    let ms = measurements_from_service_data(&sd);
    assert_eq!(
        ms,
        vec![
            Measurement::Battery(100_000_000),
            Measurement::Temperature(19_160_000),
            Measurement::Humidity(39_000_000),
        ]
    );
}

#[test]
fn service_data_decode_is_deterministic() {
    let sd: Vec<(u128, Vec<u8>)> = vec![(ENVELOPE_UUID, envelope_bytes())];
    let first = measurements_from_service_data(&sd);
    let second = measurements_from_service_data(&sd);
    assert_eq!(first, second);
}

#[test]
fn service_data_unknown_envelope_version_yields_nothing() {
    // Version bits (the top three) say 1, not the supported envelope version.
    let sd: Vec<(u128, Vec<u8>)> = vec![(ENVELOPE_UUID, vec![0x21, 1, 100])];
    assert_eq!(measurements_from_service_data(&sd), vec![]);
}

#[test]
fn service_data_truncated_element_yields_nothing() {
    // Object 0x02 wants two value bytes; only one follows.
    let sd: Vec<(u128, Vec<u8>)> = vec![(ENVELOPE_UUID, vec![64, 2, 124])];
    assert_eq!(measurements_from_service_data(&sd), vec![]);
}

#[test]
fn service_data_unknown_object_yields_nothing() {
    let sd: Vec<(u128, Vec<u8>)> = vec![(ENVELOPE_UUID, vec![64, 0xEE, 1])];
    assert_eq!(measurements_from_service_data(&sd), vec![]);
}

#[test]
fn service_data_other_service_id_yields_nothing() {
    let sd: Vec<(u128, Vec<u8>)> = vec![(0x1234, envelope_bytes())];
    assert_eq!(measurements_from_service_data(&sd), vec![]);
}

#[test]
fn service_data_empty_payload_yields_nothing() {
    let sd: Vec<(u128, Vec<u8>)> = vec![(ENVELOPE_UUID, vec![])];
    assert_eq!(measurements_from_service_data(&sd), vec![]);
}

#[test]
fn service_data_empty_map_yields_nothing() {
    let sd: Vec<(u128, Vec<u8>)> = vec![];
    assert_eq!(measurements_from_service_data(&sd), vec![]);
}

#[test]
fn ruuvi_unit_conversions_are_exact() {
    let raw = RuuviRaw {
        humidity_ppm: Some(390_000),
        temperature_millicelsius: Some(19_160),
        battery_millivolts: Some(3_300),
    };
    let ms = measurements_from_ruuvi(&raw);
    assert_eq!(
        ms,
        vec![
            Measurement::Humidity(39_000_000),
            Measurement::Temperature(19_160_000),
            Measurement::Voltage(3_300_000),
        ]
    );
    assert_eq!((ms[0].value_micros() as f64) / 1e6, 39.0f64);
    assert_eq!((ms[1].value_micros() as f64) / 1e6, 19.16f64);
    assert_eq!((ms[2].value_micros() as f64) / 1e6, 3.3f64);
}

#[test]
fn ruuvi_battery_is_voltage_not_battery() {
    let raw = RuuviRaw {
        humidity_ppm: None,
        temperature_millicelsius: None,
        battery_millivolts: Some(3_300),
    };
    let ms = measurements_from_ruuvi(&raw);
    assert_eq!(ms, vec![Measurement::Voltage(3_300_000)]);
    assert_eq!(ms[0].kind(), "voltage");
}

#[test]
fn ruuvi_absent_fields_are_skipped_in_order() {
    let raw = RuuviRaw {
        humidity_ppm: Some(115_000),
        temperature_millicelsius: None,
        battery_millivolts: Some(2_182),
    };
    let ms = measurements_from_ruuvi(&raw);
    assert_eq!(
        ms,
        vec![Measurement::Humidity(11_500_000), Measurement::Voltage(2_182_000)]
    );
}

#[test]
fn manufacturer_data_decodes_vendor_payload() {
    let md: Vec<(u16, Vec<u8>)> = vec![(0x0499, vendor_bytes())];
    let ms = measurements_from_manufacturer_data(&md);
    assert_eq!(
        ms,
        vec![
            Measurement::Humidity(39_000_000),
            Measurement::Temperature(19_160_000),
            Measurement::Voltage(3_300_000),
        ]
    );
}

#[test]
fn manufacturer_data_unknown_vendor_yields_nothing() {
    let md: Vec<(u16, Vec<u8>)> = vec![(0x1111, vendor_bytes())];
    assert_eq!(measurements_from_manufacturer_data(&md), vec![]);
}

#[test]
fn manufacturer_data_truncated_payload_yields_nothing() {
    let md: Vec<(u16, Vec<u8>)> = vec![(0x0499, vec![0x03, 78, 19])];
    assert_eq!(measurements_from_manufacturer_data(&md), vec![]);
}

#[test]
fn manufacturer_data_bad_entry_does_not_suppress_good_one() {
    let bad_then_good: Vec<(u16, Vec<u8>)> =
        vec![(0x0499, vec![0x03, 78]), (0x0499, vendor_bytes())];
    let good_then_bad: Vec<(u16, Vec<u8>)> =
        vec![(0x0499, vendor_bytes()), (0x1111, vec![1, 2, 3])];
    let expected = vec![
        Measurement::Humidity(39_000_000),
        Measurement::Temperature(19_160_000),
        Measurement::Voltage(3_300_000),
    ];
    assert_eq!(measurements_from_manufacturer_data(&bad_then_good), expected);
    assert_eq!(measurements_from_manufacturer_data(&good_then_bad), expected);
}

#[test]
fn manufacturer_data_decode_is_deterministic() {
    let md: Vec<(u16, Vec<u8>)> = vec![(0x0499, vendor_bytes()), (0x1111, vec![9])];
    assert_eq!(
        measurements_from_manufacturer_data(&md),
        measurements_from_manufacturer_data(&md)
    );
}
