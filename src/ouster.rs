//! Data types of the Ouster sensor's TCP configuration protocol.
use vstd::prelude::*;

use crate::error::Error;

verus! {

/// The rotation rate and column count of an Ouster sensor.
#[derive(Clone, Copy, Debug, PartialEq, Eq, Structural)]
pub enum LidarMode {
    Mode512x10,
    Mode512x20,
    Mode1024x10,
    Mode1024x20,
    Mode2048x10,
}

/// Where the sensor takes its time from.
#[derive(Clone, Copy, Debug, PartialEq, Eq, Structural)]
pub enum TimestampMode {
    TimeFromInternalOsc,
    TimeFromSyncPulseIn,
    TimeFromPtp1588,
}

/// What the multipurpose I/O port does.
#[derive(Clone, Copy, Debug, PartialEq, Eq, Structural)]
pub enum MultipurposeIoMode {
    Off,
    InputNmeaUart,
    OutputFromInternalOsc,
    OutputFromSyncPulseIn,
    OutputFromPtp1588,
    OutputFromEncoderAngle,
}

/// Signal polarity.
#[derive(Clone, Copy, Debug, PartialEq, Eq, Structural)]
pub enum Polarity {
    ActiveHigh,
    ActiveLow,
}

/// Baud rate of the NMEA input.
#[derive(Clone, Copy, Debug, PartialEq, Eq, Structural)]
pub enum NmeaBaudRate {
    Baud9600,
    Baud115200,
}

/// On or off.
#[derive(Clone, Copy, Debug, PartialEq, Eq, Structural)]
pub enum OnOffMode {
    On,
    Off,
}

#[derive(Clone, Copy, Debug, PartialEq, Eq, Structural)]
pub struct SyncPulseOutInfo {
    pub frequency_hz: u64,
    pub angle_deg: u64,
    pub pulse_width_ms: u64,
    pub polarity: Polarity,
}

#[derive(Clone, Copy, Debug, PartialEq, Eq, Structural)]
pub struct SyncPulseInDiagnosticsInfo {
    pub count_unfiltered: u64,
    pub last_period_nsec: u64,
    pub count: u64,
}

#[derive(Clone, Copy, Debug, PartialEq, Eq, Structural)]
pub struct SyncPulseInInfo {
    pub diagnostics: SyncPulseInDiagnosticsInfo,
    pub polarity: Polarity,
    pub locked: bool,
}

#[derive(Clone, Copy, Debug, PartialEq, Eq, Structural)]
pub struct NmeaIoChecksInfo {
    pub bit_count: u64,
    pub start_char_count: u64,
    pub bit_count_unfilterd: u64,
    pub char_count: u64,
}

#[derive(Clone, Debug, PartialEq, Eq)]
pub struct NmeaDecodingInfo {
    pub not_valid_count: u64,
    pub last_read_message: String,
    pub utc_decoded_count: u64,
    pub date_decoded_count: u64,
}

#[derive(Clone, Debug, PartialEq, Eq)]
pub struct NmeaDiagnosticsInfo {
    pub io_checks: NmeaIoChecksInfo,
    pub decoding: NmeaDecodingInfo,
}

#[derive(Clone, Debug, PartialEq, Eq)]
pub struct NmeaInfo {
    pub polarity: Polarity,
    pub baud_rate: NmeaBaudRate,
    pub diagnostics: NmeaDiagnosticsInfo,
    pub leap_seconds: u64,
    pub ignore_valid_char: bool,
    pub locked: bool,
}

#[derive(Clone, Debug, PartialEq, Eq)]
pub struct MultiPurposeIo {
    pub mode: OnOffMode,
    pub sync_pulse_out: SyncPulseOutInfo,
    pub nmea: NmeaInfo,
}

#[derive(Clone, Copy, Debug, PartialEq, Eq, Structural)]
pub struct TimeOptionsInfo {
    pub ptp_1588: u64,
    pub sync_pulse_in: bool,
    pub internal_osc: u64,
}

/// The protocol writes some flags as the integers 0 and 1: the flag that an
/// integer stands for, `ProtocolUnexpected` for any other integer.
pub fn bool_from_int(value: u64) -> (r: Result<bool, Error>)
    ensures
        value == 0 ==> r == Ok::<bool, Error>(false),
        value == 1 ==> r == Ok::<bool, Error>(true),
        value > 1 ==> r == Err::<bool, Error>(Error::ProtocolUnexpected),
{
    if value == 1 {
        Ok(true)
    } else if value == 0 {
        Ok(false)
    } else {
        Err(Error::ProtocolUnexpected)
    }
}

/// The integer that the protocol writes for a flag.
pub fn bool_to_int(value: bool) -> (r: u64)
    ensures
        r == if value {
            1u64
        } else {
            0u64
        },
{
    if value {
        1
    } else {
        0
    }
}

} // verus!
