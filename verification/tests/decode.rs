use blea::models::Parser;
use blea::parsers::qingping;
use blea::parsers::responses::Responses;
use blea::parsers::xiaomi;
use blea::registry::route;

#[test]
fn variant_a_battery_unknown_device() {
    // FrameControl: HasEvent only; device code unknown; event 0x100a at the
    // base offset 5; one byte at offset+3 = 90.
    let data = vec![0x40, 0x00, 0x00, 0x00, 0x00, 0x0a, 0x10, 0x00, 90];
    let p = xiaomi::get_parser();
    assert_eq!(p.parse(&data), Responses::BatteryStatusResponse { charge: 90 });
}

#[test]
fn variant_a_decode_is_deterministic() {
    let data = vec![0x40, 0x00, 0x00, 0x00, 0x00, 0x0a, 0x10, 0x00, 90];
    let p = xiaomi::get_parser();
    assert_eq!(p.parse(&data), p.parse(&data));
}

#[test]
fn variant_a_encrypted_yields_empty() {
    // Encrypted and HasEvent both set: the event code is recognized, yet the
    // payload cannot be decoded without a key.
    let data = vec![0x48, 0x00, 0x00, 0x00, 0x00, 0x0a, 0x10, 0x00, 90];
    let p = xiaomi::get_parser();
    assert_eq!(p.parse(&data), Responses::Empty);
}

#[test]
fn variant_a_no_event_yields_empty() {
    let data = vec![0x00, 0x00, 0x00, 0x00, 0x00, 0x0a, 0x10, 0x00, 90];
    let p = xiaomi::get_parser();
    assert_eq!(p.parse(&data), Responses::Empty);
}

#[test]
fn variant_a_short_payload_yields_empty() {
    let p = xiaomi::get_parser();
    // Too short even for the frame header.
    assert_eq!(p.parse(&vec![0x40, 0x00, 0x5B]), Responses::Empty);
    // Known device (0x055B) with a MAC address: the event offset becomes 11,
    // and 12 bytes cannot hold a two-byte event code there.
    let data = vec![0x50, 0x00, 0x5B, 0x05, 0, 1, 2, 3, 4, 5, 6, 7];
    assert_eq!(p.parse(&data), Responses::Empty);
}

#[test]
fn variant_a_temperature_and_humidity_known_device() {
    // Known device 0x055B with a MAC address: event code 0x100d at offset 11,
    // temperature 23.2 (232 tenths) and humidity 55.6 (556 tenths) after the
    // event-length byte.
    let data = vec![
        0x50, 0x00, 0x5B, 0x05, 0x00, 1, 2, 3, 4, 5, 6, 0x0d, 0x10, 0x04, 0xE8, 0x00, 0x2C, 0x02,
    ];
    let p = xiaomi::get_parser();
    assert_eq!(
        p.parse(&data),
        Responses::TemperatureAndHumidityResponse { temperature: 232, humidity: 556 }
    );
}

#[test]
fn variant_a_capabilities_shift_offset() {
    // Known device with MAC address and capabilities: the event offset is 12.
    let data = vec![
        0x70, 0x00, 0x5B, 0x05, 0x00, 1, 2, 3, 4, 5, 6, 0x0F, 0x0a, 0x10, 0x01, 77,
    ];
    let p = xiaomi::get_parser();
    assert_eq!(p.parse(&data), Responses::BatteryStatusResponse { charge: 77 });
}

#[test]
fn variant_a_unknown_device_keeps_base_offset() {
    // The same flags as above, but the device code is not in the catalog:
    // the offset stays at 5, where the event code now stands.
    let data = vec![0x70, 0x00, 0xFE, 0xCA, 0x00, 0x0a, 0x10, 0x00, 55];
    let p = xiaomi::get_parser();
    assert_eq!(p.parse(&data), Responses::BatteryStatusResponse { charge: 55 });
}

#[test]
fn variant_a_temperature_only_negative() {
    // Signed 16-bit little-endian: 0xFFFF is -1 tenth of a degree.
    let data = vec![0x40, 0x00, 0x00, 0x00, 0x00, 0x04, 0x10, 0x00, 0xFF, 0xFF];
    let p = xiaomi::get_parser();
    assert_eq!(p.parse(&data), Responses::TemperatureResponse { temperature: -1 });
}

#[test]
fn variant_a_humidity_only() {
    let data = vec![0x40, 0x00, 0x00, 0x00, 0x00, 0x06, 0x10, 0x00, 0x2C, 0x02];
    let p = xiaomi::get_parser();
    assert_eq!(p.parse(&data), Responses::HumidityResponse { humidity: 556 });
}

#[test]
fn variant_a_unrecognized_event_yields_empty() {
    // 0x1015 is broadcast by smoke sensors, which this catalog does not
    // decode.
    let data = vec![0x40, 0x00, 0x00, 0x00, 0x00, 0x15, 0x10, 0x00, 5];
    let p = xiaomi::get_parser();
    assert_eq!(p.parse(&data), Responses::Empty);
}

#[test]
fn variant_a_field_out_of_range_yields_empty() {
    // The event code is recognized, but its one field lies past the payload.
    let data = vec![0x40, 0x00, 0x00, 0x00, 0x00, 0x0a, 0x10];
    let p = xiaomi::get_parser();
    assert_eq!(p.parse(&data), Responses::Empty);
}

#[test]
fn variant_b_battery() {
    // Event-type byte 0x02 at offset 8, charge byte 78 at offset 10.
    let data = vec![0, 0, 0, 0, 0, 0xAA, 0xBB, 0xCC, 0x02, 0xDD, 78];
    let p = qingping::get_parser();
    assert_eq!(p.parse(&data), Responses::BatteryStatusResponse { charge: 78 });
}

#[test]
fn variant_b_temperature_and_humidity() {
    // Event-type byte 0x01 at offset 8; bytes at offset 10..14 give
    // temperature 232 tenths (23.2) and humidity 556 tenths (55.6).
    let data = vec![0, 0, 0, 0, 0, 1, 2, 3, 0x01, 0, 0xE8, 0x00, 0x2C, 0x02];
    let p = qingping::get_parser();
    assert_eq!(
        p.parse(&data),
        Responses::TemperatureAndHumidityResponse { temperature: 232, humidity: 556 }
    );
}

#[test]
fn variant_b_pressure() {
    // Unsigned 16-bit little-endian at offset 10, unscaled.
    let data = vec![0, 0, 0, 0, 0, 1, 2, 3, 0x07, 0, 0xE8, 0x03];
    let p = qingping::get_parser();
    assert_eq!(p.parse(&data), Responses::PressureStatusResponse { pressure: 1000 });
}

#[test]
fn variant_b_unrecognized_event_yields_empty() {
    let data = vec![0, 0, 0, 0, 0, 1, 2, 3, 0x09, 0, 0xE8, 0x03];
    let p = qingping::get_parser();
    assert_eq!(p.parse(&data), Responses::Empty);
}

#[test]
fn variant_b_short_payload_yields_empty() {
    let p = qingping::get_parser();
    // Too short for the event-type byte.
    assert_eq!(p.parse(&vec![0, 0, 0, 0, 0, 1, 2, 3]), Responses::Empty);
    // The battery event is recognized, but its field lies past the payload.
    assert_eq!(p.parse(&vec![0, 0, 0, 0, 0, 1, 2, 3, 0x02, 0]), Responses::Empty);
}

#[test]
fn route_to_variant_a() {
    let data = vec![0x40, 0x00, 0x00, 0x00, 0x00, 0x0a, 0x10, 0x00, 90];
    let out = route("0000fe95-0000-1000-8000-00805f9b34fb", &data);
    assert_eq!(out, vec![Responses::BatteryStatusResponse { charge: 90 }]);
}

#[test]
fn route_to_variant_b() {
    let data = vec![0, 0, 0, 0, 0, 0xAA, 0xBB, 0xCC, 0x02, 0xDD, 78];
    let out = route("0000fdcd-0000-1000-8000-00805f9b34fb", &data);
    assert_eq!(out, vec![Responses::BatteryStatusResponse { charge: 78 }]);
}

#[test]
fn route_unclaimed_identifier_yields_nothing() {
    let data = vec![0x40, 0x00, 0x00, 0x00, 0x00, 0x0a, 0x10, 0x00, 90];
    let out = route("0000dead-0000-1000-8000-00805f9b34fb", &data);
    assert_eq!(out, vec![]);
}

#[test]
fn device_catalog_lookup() {
    assert_eq!(xiaomi::device_name(0x01AA), Some("LYWSDCGQ"));
    assert_eq!(xiaomi::device_name(0x055B), Some("LYWSD03MMC"));
    assert_eq!(xiaomi::device_name(0xFFFF), None);
    assert!(xiaomi::is_known_device(0x0347));
    assert!(!xiaomi::is_known_device(0x0000));
}
