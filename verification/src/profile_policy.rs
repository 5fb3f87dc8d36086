//! Profile cadence and periodic-record policy.

use vstd::prelude::*;
use vstd::string::*;

use crate::profile_status::LORA_CONFIG_REPEAT_INTERVAL_SCANS;
use crate::protocol::OutputRoute;
use crate::text::parse_decimal;

verus! {

pub const HEALTH_INTERVAL_SCANS: u32 = 6;

/// Largest scan interval whose milliseconds fit a 32-bit field.
pub const MAX_SCAN_INTERVAL_SECONDS: u32 = 4_294_967;

pub open spec fn repeat_interval(route: OutputRoute) -> u16 {
    match route {
        OutputRoute::UartCobsCrc32 => 1,
        OutputRoute::LoraP2p => LORA_CONFIG_REPEAT_INTERVAL_SCANS,
    }
}

/// A radio node repeats its configuration every six scans. The high-rate UART
/// training stream repeats it every scan so each laboratory capture is fully
/// self-describing even when recording begins late.
#[must_use]
pub fn config_repeat_interval_scans(route: OutputRoute) -> (scans: u16)
    ensures
        scans == repeat_interval(route),
{
    match route {
        OutputRoute::UartCobsCrc32 => 1,
        OutputRoute::LoraP2p => LORA_CONFIG_REPEAT_INTERVAL_SCANS,
    }
}

#[must_use]
pub fn parse_decimal_u32(value: &str) -> (parsed: u32)
    requires
        crate::text::is_decimal(value.spec_bytes()),
        crate::text::decimal_value(value.spec_bytes()) <= u32::MAX,
    ensures
        parsed == crate::text::decimal_value(value.spec_bytes()),
{
    parse_decimal(value.as_bytes(), u32::MAX)
}

/// The scan interval in the milliseconds that records carry.
#[must_use]
pub fn scan_interval_ms(scan_interval_seconds: u32) -> (interval_ms: u32)
    requires
        scan_interval_seconds <= MAX_SCAN_INTERVAL_SECONDS,
    ensures
        interval_ms == scan_interval_seconds * 1_000,
{
    scan_interval_seconds * 1_000
}

/// Why a requested scan interval cannot be built.
#[derive(Clone, Copy, Debug, PartialEq, Eq, Structural)]
pub enum ScanIntervalError {
    /// UART needs the bounded collection window; the radio is capped to protect
    /// the EU868 1% duty-cycle budget.
    BelowMinimum { minimum: u32 },
    /// The interval does not fit the protocol's milliseconds.
    TooLarge,
}

/// Shortest scan interval of a profile build.
pub open spec fn minimum_interval(uart_training: bool) -> u32 {
    if uart_training {
        15
    } else {
        180
    }
}

/// Scan interval of a build that asks for none.
pub open spec fn default_interval(uart_training: bool) -> u32 {
    if uart_training {
        15
    } else {
        300
    }
}

/// Choose the scan interval of a build. The profile cadence never changes
/// whether the deployed v1 image builds: it keeps its own fixed policy, so a
/// request is considered only for a profile build.
pub fn scan_interval(
    profile_v2: bool,
    uart_training: bool,
    requested_seconds: Option<u32>,
) -> (result: Result<u32, ScanIntervalError>)
    ensures
        ({
            let wanted = match requested_seconds {
                Some(seconds) => if profile_v2 {
                    seconds
                } else {
                    default_interval(uart_training)
                },
                None => default_interval(uart_training),
            };
            result == if profile_v2 && wanted < minimum_interval(uart_training) {
                Err::<u32, ScanIntervalError>(
                    ScanIntervalError::BelowMinimum { minimum: minimum_interval(uart_training) },
                )
            } else if profile_v2 && wanted > MAX_SCAN_INTERVAL_SECONDS {
                Err(ScanIntervalError::TooLarge)
            } else {
                Ok(wanted)
            }
        }),
        result matches Ok(seconds) ==> seconds <= MAX_SCAN_INTERVAL_SECONDS,
{
    let fallback: u32 = if uart_training {
        15
    } else {
        300
    };
    let wanted: u32 = if profile_v2 {
        match requested_seconds {
            Some(seconds) => seconds,
            None => fallback,
        }
    } else {
        fallback
    };
    if profile_v2 {
        let minimum: u32 = if uart_training {
            15
        } else {
            180
        };
        if wanted < minimum {
            return Err(ScanIntervalError::BelowMinimum { minimum });
        }
        if wanted > MAX_SCAN_INTERVAL_SECONDS {
            return Err(ScanIntervalError::TooLarge);
        }
    }
    Ok(wanted)
}

/// Symbols that a LoRa packet of `len` bytes takes after its preamble, at
/// spreading factor 7 and coding rate 4/5 with explicit header and PHY CRC.
pub open spec fn payload_symbols(len: int) -> int {
    8 + (8 * len + 16 + 27) / 28 * 5
}

/// Airtime of a LoRa packet of `len` bytes at 125 kHz, in microseconds: twelve
/// and a quarter preamble symbols and the payload symbols, 1024 us each.
pub open spec fn airtime_us(len: int) -> int {
    (49 * 1_024) / 4 + payload_symbols(len) * 1_024
}

/// Airtime of six complete profiles with their four fragments, one
/// configuration record and one health record.
pub open spec fn six_scan_airtime_us() -> int {
    6 * (3 * airtime_us(231) + airtime_us(137)) + airtime_us(231) + airtime_us(102)
}

/// Every scan interval that a radio profile build accepts keeps complete
/// profiles and their periodic records within a duty cycle of one percent, and
/// every accepted interval fits the milliseconds of the records.
pub proof fn accepted_radio_interval_keeps_duty_cycle(seconds: u32)
    requires
        minimum_interval(false) <= seconds <= MAX_SCAN_INTERVAL_SECONDS,
    ensures
        airtime_us(231) == 363_776,
        airtime_us(137) == 225_536,
        airtime_us(102) == 174_336,
        100 * six_scan_airtime_us() <= 6 * seconds * 1_000_000,
        seconds * 1_000 <= u32::MAX,
{
}

} // verus!
