//! The Xiaomi frame decoder: a variable-length layout driven by a 16-bit
//! frame-control bitmask in the first two payload bytes, with a device-type
//! code in the next two and a flag-dependent event region after them.

use vstd::prelude::*;

use crate::bytes::{le_i16_of, le_u16_of, read_i16_le, read_u16_le};
use crate::models::{claims_any, BleaParserBase, Parser};
use crate::parsers::responses::Responses;

verus! {

// FrameControl: bit i of the little-endian 16-bit header, in declared order.
pub const FC_FACTORY_NEW: u16 = 0x0001;

pub const FC_CONNECTED: u16 = 0x0002;

pub const FC_CENTRAL: u16 = 0x0004;

pub const FC_ENCRYPTED: u16 = 0x0008;

pub const FC_HAS_MAC_ADDRESS: u16 = 0x0010;

pub const FC_HAS_CAPABILITIES: u16 = 0x0020;

pub const FC_HAS_EVENT: u16 = 0x0040;

pub const FC_HAS_CUSTOM_DATA: u16 = 0x0080;

pub const FC_HAS_SUBTITLE: u16 = 0x0100;

pub const FC_HAS_BINDING: u16 = 0x0200;

// Recognized event-type codes.
pub const EVENT_TEMPERATURE: u16 = 0x1004;

pub const EVENT_HUMIDITY: u16 = 0x1006;

pub const EVENT_BATTERY: u16 = 0x100a;

pub const EVENT_TEMPERATURE_AND_HUMIDITY: u16 = 0x100d;

/// A frame-control flag is set in the header.
pub open spec fn flag_set(frame_control: u16, mask: u16) -> bool {
    frame_control & mask != 0
}

/// The device catalog: the device-type codes with a known model name.
pub open spec fn spec_known_device(code: u16) -> bool {
    ||| code == 0x01AA
    ||| code == 0x045B
    ||| code == 0x055B
    ||| code == 0x0098
    ||| code == 0x03BC
    ||| code == 0x015D
    ||| code == 0x040A
    ||| code == 0x098B
    ||| code == 0x0083
    ||| code == 0x0113
    ||| code == 0x045C
    ||| code == 0x0863
    ||| code == 0x07F6
    ||| code == 0x03DD
    ||| code == 0x0A8D
    ||| code == 0x00DB
    ||| code == 0x0489
    ||| code == 0x0C3C
    ||| code == 0x0576
    ||| code == 0x066F
    ||| code == 0x0347
    ||| code == 0x0B48
    ||| code == 0x03D6
    ||| code == 0x0A83
    ||| code == 0x06D3
    ||| code == 0x0387
    ||| code == 0x02DF
    ||| code == 0x0997
    ||| code == 0x1568
    ||| code == 0x1569
    ||| code == 0x0DFD
    ||| code == 0x07BF
    ||| code == 0x0153
    ||| code == 0x068E
    ||| code == 0x04E6
    ||| code == 0x03BF
    ||| code == 0x03B6
    ||| code == 0x069E
    ||| code == 0x069F
}

/// Model name for a device-type code, `None` for one outside the catalog.
/// The names serve diagnostics and identification only; decoding reads no
/// more of the catalog than membership.
pub fn device_name(code: u16) -> (r: Option<&'static str>)
    ensures
        (r is Some) == spec_known_device(code),
{
    match code {
        0x01AA => Some("LYWSDCGQ"),
        0x045B => Some("LYWSD02"),
        0x055B => Some("LYWSD03MMC"),
        0x0098 => Some("HHCCJCY01"),
        0x03BC => Some("GCLS002"),
        0x015D => Some("HHCCPOT002"),
        0x040A => Some("WX08ZM"),
        0x098B => Some("MCCGQ02HL"),
        0x0083 => Some("YM-K1501"),
        0x0113 => Some("YM-K1501EU"),
        0x045C => Some("V-SK152"),
        0x0863 => Some("SJWS01LM"),
        0x07F6 => Some("MJYD02YL"),
        0x03DD => Some("MUE4094RT"),
        0x0A8D => Some("RTCGQ02LM"),
        0x00DB => Some("MMC-T201-1"),
        0x0489 => Some("M1S-T500"),
        0x0C3C => Some("CGC1"),
        0x0576 => Some("CGD1"),
        0x066F => Some("CGDK2"),
        0x0347 => Some("CGG1"),
        0x0B48 => Some("CGG1-ENCRYPTED"),
        0x03D6 => Some("CGH1"),
        0x0A83 => Some("CGPR1"),
        0x06D3 => Some("MHO-C303"),
        0x0387 => Some("MHO-C401"),
        0x02DF => Some("JQJCY01YM"),
        0x0997 => Some("JTYJGD03MI"),
        0x1568 => Some("K9B-1BTN"),
        0x1569 => Some("K9B-2BTN"),
        0x0DFD => Some("K9B-3BTN"),
        0x07BF => Some("YLAI003"),
        0x0153 => Some("YLYK01YL"),
        0x068E => Some("YLYK01YL-FANCL"),
        0x04E6 => Some("YLYK01YL-VENFAN"),
        0x03BF => Some("YLYB01YL-BHFRC"),
        0x03B6 => Some("YLKG07YL/YLKG08YL"),
        0x069E => Some("ZNMS16LM"),
        0x069F => Some("ZNMS17LM"),
        _ => None,
    }
}

/// True exactly when the device-type code is in the device catalog.
pub fn is_known_device(code: u16) -> (r: bool)
    ensures
        r == spec_known_device(code),
{
    device_name(code).is_some()
}

/// The event-field offset. It starts from the base offset; only for a
/// device-type code present in the catalog is it recomputed to 11 when a MAC
/// address is present, plus 1 more when capabilities are present. An unknown
/// device keeps the base offset whatever the flags say.
pub open spec fn spec_event_offset(frame_control: u16, device: u16) -> int {
    if spec_known_device(device) {
        (if flag_set(frame_control, FC_HAS_MAC_ADDRESS) {
            11int
        } else {
            5int
        }) + (if flag_set(frame_control, FC_HAS_CAPABILITIES) {
            1int
        } else {
            0int
        })
    } else {
        5int
    }
}

/// The event catalog: what reading an event-type code at offset `o` yields.
/// The fields stand 3 bytes past the event-type offset (past the two-byte
/// event-type code and a one-byte event-length field). A byte range that
/// does not lie within the payload yields `Empty`, never a fault.
pub open spec fn spec_event_reading(event: u16, data: Seq<u8>, o: int) -> Responses {
    if event == EVENT_BATTERY {
        if o + 4 <= data.len() {
            Responses::BatteryStatusResponse { charge: data[o + 3] }
        } else {
            Responses::Empty
        }
    } else if event == EVENT_TEMPERATURE_AND_HUMIDITY {
        if o + 7 <= data.len() {
            Responses::TemperatureAndHumidityResponse {
                temperature: le_i16_of(data[o + 3], data[o + 4]),
                humidity: le_u16_of(data[o + 5], data[o + 6]),
            }
        } else {
            Responses::Empty
        }
    } else if event == EVENT_TEMPERATURE {
        if o + 5 <= data.len() {
            Responses::TemperatureResponse { temperature: le_i16_of(data[o + 3], data[o + 4]) }
        } else {
            Responses::Empty
        }
    } else if event == EVENT_HUMIDITY {
        if o + 5 <= data.len() {
            Responses::HumidityResponse { humidity: le_u16_of(data[o + 3], data[o + 4]) }
        } else {
            Responses::Empty
        }
    } else {
        Responses::Empty
    }
}

/// The whole Xiaomi decode, as a function of the payload bytes.
pub open spec fn xiaomi_decode(data: Seq<u8>) -> Responses {
    if data.len() < 4 {
        Responses::Empty
    } else {
        let frame_control = le_u16_of(data[0], data[1]);
        let device = le_u16_of(data[2], data[3]);
        if flag_set(frame_control, FC_ENCRYPTED) || !flag_set(frame_control, FC_HAS_EVENT) {
            Responses::Empty
        } else {
            let o = spec_event_offset(frame_control, device);
            if data.len() < o + 2 {
                Responses::Empty
            } else {
                spec_event_reading(le_u16_of(data[o], data[o + 1]), data, o)
            }
        }
    }
}

/// The Xiaomi frame decoder.
pub struct XiaomiParser {
    base: BleaParserBase,
}

impl XiaomiParser {
    /// The decoder's service codes.
    pub closed spec fn codes(&self) -> Seq<Seq<char>> {
        self.base.codes()
    }
}

/// Builds the Xiaomi decoder with its one known service code.
pub fn get_parser() -> (p: XiaomiParser)
    ensures
        p.codes() == seq!["fe95"@],
{
    let mut ids: Vec<String> = Vec::new();
    ids.push(String::from_str("fe95"));
    let p = XiaomiParser {
        base: BleaParserBase { name: String::from_str("xiaomi"), service_advertisement_ids: ids },
    };
    proof {
        assert(p.codes() =~= seq!["fe95"@]);
    }
    p
}

impl Parser for XiaomiParser {
    open spec fn claims_spec(&self, id: Seq<char>) -> bool {
        claims_any(self.codes(), id)
    }

    open spec fn decode_spec(&self, data: Seq<u8>) -> Responses {
        xiaomi_decode(data)
    }

    fn is_parseable(&self, id: &str) -> (r: bool) {
        self.base.claims(id)
    }

    fn parse(&self, data: &Vec<u8>) -> (r: Responses) {
        let n = data.len();
        if n < 4 {
            return Responses::Empty;
        }
        let frame_control = read_u16_le(data[0], data[1]);
        let device = read_u16_le(data[2], data[3]);
        if frame_control & FC_ENCRYPTED != 0 || frame_control & FC_HAS_EVENT == 0 {
            return Responses::Empty;
        }
        let mut offset: usize = 5;
        if is_known_device(device) {
            if frame_control & FC_HAS_MAC_ADDRESS != 0 {
                offset = 11;
            }
            if frame_control & FC_HAS_CAPABILITIES != 0 {
                offset += 1;
            }
        }
        if n < offset + 2 {
            return Responses::Empty;
        }
        let event = read_u16_le(data[offset], data[offset + 1]);
        if event == EVENT_BATTERY {
            if n >= offset + 4 {
                Responses::BatteryStatusResponse { charge: data[offset + 3] }
            } else {
                Responses::Empty
            }
        } else if event == EVENT_TEMPERATURE_AND_HUMIDITY {
            if n >= offset + 7 {
                Responses::TemperatureAndHumidityResponse {
                    temperature: read_i16_le(data[offset + 3], data[offset + 4]),
                    humidity: read_u16_le(data[offset + 5], data[offset + 6]),
                }
            } else {
                Responses::Empty
            }
        } else if event == EVENT_TEMPERATURE {
            if n >= offset + 5 {
                Responses::TemperatureResponse {
                    temperature: read_i16_le(data[offset + 3], data[offset + 4]),
                }
            } else {
                Responses::Empty
            }
        } else if event == EVENT_HUMIDITY {
            if n >= offset + 5 {
                Responses::HumidityResponse {
                    humidity: read_u16_le(data[offset + 3], data[offset + 4]),
                }
            } else {
                Responses::Empty
            }
        } else {
            Responses::Empty
        }
    }
}

/// Law: decoding is a pure function of the payload bytes — identical input
/// bytes always yield an identical reading, in particular for unencrypted
/// event-carrying payloads with a recognized event-type code.
pub proof fn lemma_decode_deterministic(d1: Seq<u8>, d2: Seq<u8>)
    requires
        d1 == d2,
    ensures
        xiaomi_decode(d1) == xiaomi_decode(d2),
{
}

/// Law: a payload with the Encrypted flag set decodes to `Empty`, whatever
/// the other bits and the event-type code say.
pub proof fn lemma_encrypted_yields_empty(data: Seq<u8>)
    requires
        data.len() >= 2,
        flag_set(le_u16_of(data[0], data[1]), FC_ENCRYPTED),
    ensures
        xiaomi_decode(data) == Responses::Empty,
{
}

/// Law: a payload without the HasEvent flag decodes to `Empty`.
pub proof fn lemma_no_event_yields_empty(data: Seq<u8>)
    requires
        data.len() >= 2,
        !flag_set(le_u16_of(data[0], data[1]), FC_HAS_EVENT),
    ensures
        xiaomi_decode(data) == Responses::Empty,
{
}

/// Law: any event-type code outside the catalog decodes to `Empty`.
pub proof fn lemma_unrecognized_event_yields_empty(data: Seq<u8>, o: int)
    requires
        data.len() >= 4,
        o == spec_event_offset(le_u16_of(data[0], data[1]), le_u16_of(data[2], data[3])),
        data.len() >= o + 2,
        le_u16_of(data[o], data[o + 1]) != EVENT_BATTERY,
        le_u16_of(data[o], data[o + 1]) != EVENT_TEMPERATURE_AND_HUMIDITY,
        le_u16_of(data[o], data[o + 1]) != EVENT_TEMPERATURE,
        le_u16_of(data[o], data[o + 1]) != EVENT_HUMIDITY,
    ensures
        xiaomi_decode(data) == Responses::Empty,
{
}

/// Law: a payload shorter than the minimum length required by the computed
/// event offset decodes to `Empty` (never an out-of-range fault).
pub proof fn lemma_short_payload_yields_empty(data: Seq<u8>)
    requires
        data.len() < 4 || data.len() < spec_event_offset(
            le_u16_of(data[0], data[1]),
            le_u16_of(data[2], data[3]),
        ) + 2,
    ensures
        xiaomi_decode(data) == Responses::Empty,
{
}

} // verus!
