//! The normalized output of decoding: one sensor measurement, or an explicit
//! empty result.

use vstd::prelude::*;

verus! {

/// One decoded sensor reading. Temperature and humidity values are carried
/// as the raw transmitted integers, in tenths of a unit (a temperature of
/// 232 stands for 23.2 degrees); dividing by ten is presentation, left to
/// the caller. `Empty` is the valid terminal outcome for a payload that
/// carries no recognized event: it is not an error.
#[derive(Clone, Copy, Debug, PartialEq, Eq, Structural)]
pub enum Responses {
    TemperatureAndHumidityResponse { temperature: i16, humidity: u16 },
    TemperatureResponse { temperature: i16 },
    HumidityResponse { humidity: u16 },
    BatteryStatusResponse { charge: u8 },
    PressureStatusResponse { pressure: u16 },
    SoilConductivityResponse { conductivity: i16 },
    MoistureResponse { moisture: i8 },
    IlluminanceResponse { illuminance: i32 },
    Empty,
}

} // verus!
