use sensor_bridge::DeviceId;
use sensor_bridge::DeviceReading;
use sensor_bridge::Measurement;
use sensor_bridge::reading_topic;
use sensor_bridge::topic_for;

#[test]
fn topic_is_literal_concatenation() {
    assert_eq!(topic_for("humidity", "attic"), "device_reading/humidity/attic");
    assert_eq!(topic_for("", ""), "device_reading//");
}

#[test]
fn topic_does_not_escape_separators_in_names() {
    // Known limitation: a separator inside a device name produces extra
    // topic levels.
    assert_eq!(topic_for("voltage", "attic/north"), "device_reading/voltage/attic/north");
}

#[test]
fn reading_topic_uses_kind_and_device_name() {
    let reading = DeviceReading {
        device_id: DeviceId { peripheral_id: 1, device_name: "attic".to_string() },
        measurement: Measurement::Temperature(19_160_000),
    };
    assert_eq!(reading_topic(&reading), "device_reading/temperature/attic");
}

#[test]
fn measurement_kinds_are_lowercase_names() {
    assert_eq!(Measurement::Humidity(0).kind(), "humidity");
    assert_eq!(Measurement::Temperature(0).kind(), "temperature");
    assert_eq!(Measurement::Battery(0).kind(), "battery");
    assert_eq!(Measurement::Voltage(0).kind(), "voltage");
}

#[test]
fn value_micros_returns_carried_value() {
    assert_eq!(Measurement::Humidity(39_000_000).value_micros(), 39_000_000);
    assert_eq!(Measurement::Temperature(-5_000_000).value_micros(), -5_000_000);
}
