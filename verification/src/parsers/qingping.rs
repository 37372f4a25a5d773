//! The Qingping frame decoder: a positionally fixed layout, whatever the
//! flags say. The MAC address stands at offset 5, the one-byte event-type
//! code at offset 8, and the event fields begin at offset 10.

use vstd::prelude::*;

use crate::bytes::{le_i16_of, le_u16_of, read_i16_le, read_u16_le};
use crate::models::{claims_any, BleaParserBase, Parser};
use crate::parsers::responses::Responses;

verus! {

// Recognized event-type codes (one byte, unlike the Xiaomi decoder's two).
pub const EVENT_TEMPERATURE_AND_HUMIDITY: u8 = 0x01;

pub const EVENT_BATTERY: u8 = 0x02;

pub const EVENT_PRESSURE: u8 = 0x07;

/// The event-type byte stands at this fixed offset.
pub const EVENT_OFFSET: usize = 8;

/// The event fields begin at this fixed offset.
pub const DATA_OFFSET: usize = 10;

/// The whole Qingping decode, as a function of the payload bytes. Every
/// byte range is validated against the payload length before it is read; a
/// payload too short for a field yields `Empty`, never a fault.
pub open spec fn qingping_decode(data: Seq<u8>) -> Responses {
    if data.len() < EVENT_OFFSET + 1 {
        Responses::Empty
    } else {
        let event = data[EVENT_OFFSET as int];
        if event == EVENT_TEMPERATURE_AND_HUMIDITY {
            if data.len() >= DATA_OFFSET + 4 {
                Responses::TemperatureAndHumidityResponse {
                    temperature: le_i16_of(data[DATA_OFFSET as int], data[DATA_OFFSET + 1]),
                    humidity: le_u16_of(data[DATA_OFFSET + 2], data[DATA_OFFSET + 3]),
                }
            } else {
                Responses::Empty
            }
        } else if event == EVENT_BATTERY {
            if data.len() >= DATA_OFFSET + 1 {
                Responses::BatteryStatusResponse { charge: data[DATA_OFFSET as int] }
            } else {
                Responses::Empty
            }
        } else if event == EVENT_PRESSURE {
            if data.len() >= DATA_OFFSET + 2 {
                Responses::PressureStatusResponse {
                    pressure: le_u16_of(data[DATA_OFFSET as int], data[DATA_OFFSET + 1]),
                }
            } else {
                Responses::Empty
            }
        } else {
            Responses::Empty
        }
    }
}

/// The Qingping frame decoder.
pub struct QingPingParser {
    base: BleaParserBase,
}

impl QingPingParser {
    /// The decoder's service codes.
    pub closed spec fn codes(&self) -> Seq<Seq<char>> {
        self.base.codes()
    }
}

/// Builds the Qingping decoder with its two known service codes.
pub fn get_parser() -> (p: QingPingParser)
    ensures
        p.codes() == seq!["fff9"@, "fdcd"@],
{
    let mut ids: Vec<String> = Vec::new();
    ids.push(String::from_str("fff9"));
    ids.push(String::from_str("fdcd"));
    let p = QingPingParser {
        base: BleaParserBase {
            name: String::from_str("qingping"),
            service_advertisement_ids: ids,
        },
    };
    proof {
        assert(p.codes() =~= seq!["fff9"@, "fdcd"@]);
    }
    p
}

impl Parser for QingPingParser {
    open spec fn claims_spec(&self, id: Seq<char>) -> bool {
        claims_any(self.codes(), id)
    }

    open spec fn decode_spec(&self, data: Seq<u8>) -> Responses {
        qingping_decode(data)
    }

    fn is_parseable(&self, id: &str) -> (r: bool) {
        self.base.claims(id)
    }

    fn parse(&self, data: &Vec<u8>) -> (r: Responses) {
        let n = data.len();
        if n < EVENT_OFFSET + 1 {
            return Responses::Empty;
        }
        let event = data[EVENT_OFFSET];
        if event == EVENT_TEMPERATURE_AND_HUMIDITY {
            if n >= DATA_OFFSET + 4 {
                Responses::TemperatureAndHumidityResponse {
                    temperature: read_i16_le(data[DATA_OFFSET], data[DATA_OFFSET + 1]),
                    humidity: read_u16_le(data[DATA_OFFSET + 2], data[DATA_OFFSET + 3]),
                }
            } else {
                Responses::Empty
            }
        } else if event == EVENT_BATTERY {
            if n >= DATA_OFFSET + 1 {
                Responses::BatteryStatusResponse { charge: data[DATA_OFFSET] }
            } else {
                Responses::Empty
            }
        } else if event == EVENT_PRESSURE {
            if n >= DATA_OFFSET + 2 {
                Responses::PressureStatusResponse {
                    pressure: read_u16_le(data[DATA_OFFSET], data[DATA_OFFSET + 1]),
                }
            } else {
                Responses::Empty
            }
        } else {
            Responses::Empty
        }
    }
}

/// Law: a payload too short to hold the event-type byte decodes to `Empty`
/// (never an out-of-range fault).
pub proof fn lemma_short_payload_yields_empty(data: Seq<u8>)
    requires
        data.len() < EVENT_OFFSET + 1,
    ensures
        qingping_decode(data) == Responses::Empty,
{
}

/// Law: any event-type code outside the catalog decodes to `Empty`.
pub proof fn lemma_unrecognized_event_yields_empty(data: Seq<u8>)
    requires
        data.len() > EVENT_OFFSET,
        data[EVENT_OFFSET as int] != EVENT_TEMPERATURE_AND_HUMIDITY,
        data[EVENT_OFFSET as int] != EVENT_BATTERY,
        data[EVENT_OFFSET as int] != EVENT_PRESSURE,
    ensures
        qingping_decode(data) == Responses::Empty,
{
}

} // verus!
