use blea::mac::render_mac;
use blea::models::Parser;
use blea::parsers::qingping;
use blea::parsers::xiaomi;

#[test]
fn claims_code_embedded_in_full_identifier() {
    let p = xiaomi::get_parser();
    assert!(p.is_parseable("0000fe95-0000-1000-8000-00805f9b34fb"));
    // Position-insensitive: the code may stand anywhere, as long as a
    // separator follows.
    assert!(p.is_parseable("xfe95-y"));
    assert!(p.is_parseable("fe95-"));
}

#[test]
fn does_not_claim_absent_code() {
    let p = xiaomi::get_parser();
    assert!(!p.is_parseable("0000fe96-0000-1000-8000-00805f9b34fb"));
    assert!(!p.is_parseable(""));
    // The code alone, without the separator after it, does not match.
    assert!(!p.is_parseable("0000fe95"));
}

#[test]
fn claims_either_of_two_codes() {
    let p = qingping::get_parser();
    assert!(p.is_parseable("0000fff9-0000-1000-8000-00805f9b34fb"));
    assert!(p.is_parseable("0000fdcd-0000-1000-8000-00805f9b34fb"));
    assert!(!p.is_parseable("0000fe95-0000-1000-8000-00805f9b34fb"));
}

#[test]
fn mac_rendering_reverses_and_hex_encodes() {
    let data = vec![0xAA, 0xBB, 0xCC, 0xDD, 0xEE, 0xFF];
    let s = render_mac(&data, 0);
    assert_eq!(s, "ffeeddccbbaa");
    assert_eq!(s.len(), 12);
}

#[test]
fn mac_rendering_at_payload_offset() {
    // The MAC address of a Qingping payload stands at offset 5.
    let data = vec![0, 0, 0, 0, 0, 0x12, 0x34, 0x56, 0x78, 0x9A, 0xBC];
    assert_eq!(render_mac(&data, 5), "bc9a78563412");
}

#[test]
fn mac_rendering_twice_reversed_is_identity() {
    let data = vec![0x12, 0x34, 0x56, 0x78, 0x9A, 0xBC];
    let once = render_mac(&data, 0);
    // Rendering the reversed bytes reverses again: the original byte order.
    let mut reversed = data.clone();
    reversed.reverse();
    let twice = render_mac(&reversed, 0);
    assert_eq!(once, "bc9a78563412");
    assert_eq!(twice, "123456789abc");
}
