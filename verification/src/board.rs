//! Decisions of board bring-up: the reset cause and the sensor probe.

use vstd::prelude::*;

verus! {

pub const SENSOR_STARTUP_DELAY_MS: u64 = 10;

/// Chip-ID register that the probe reads.
pub const CHIP_ID_REGISTER: u8 = 0xd0;

/// STM32 reset status captured before Embassy changes or clears RCC state.
#[derive(Clone, Copy, Debug, PartialEq, Eq, Structural)]
pub struct ResetCause {
    /// Exact 32-bit RCC CSR snapshot. Low bits hold clock/radio state in
    /// addition to the reset flags in bits 24..31.
    pub raw: u32,
    /// Stable protocol flags: radio-illegal, option-byte, pin, BOR, software,
    /// independent-watchdog, window-watchdog, and low-power reset.
    pub flags: u16,
}

/// The reset flags of the RCC status register.
#[derive(Clone, Copy, Debug, PartialEq, Eq, Structural)]
pub struct ResetStatus {
    pub radio_illegal: bool,
    pub option_byte: bool,
    pub pin: bool,
    pub brown_out: bool,
    pub software: bool,
    pub independent_watchdog: bool,
    pub window_watchdog: bool,
    pub low_power: bool,
}

pub open spec fn bit_value(set: bool, value: int) -> int {
    if set {
        value
    } else {
        0
    }
}

fn bit(set: bool, value: u16) -> (bits: u16)
    ensures
        bits == bit_value(set, value as int),
{
    if set {
        value
    } else {
        0
    }
}

impl ResetStatus {
    /// The protocol flags: one bit for each reset flag, from the lowest bit up.
    pub open spec fn spec_flags(self) -> int {
        bit_value(self.radio_illegal, 1) + bit_value(self.option_byte, 2) + bit_value(self.pin, 4)
            + bit_value(self.brown_out, 8) + bit_value(self.software, 16) + bit_value(
            self.independent_watchdog,
            32,
        ) + bit_value(self.window_watchdog, 64) + bit_value(self.low_power, 128)
    }
}

impl ResetCause {
    /// The reset cause that a status register snapshot stands for.
    #[must_use]
    pub fn capture(raw: u32, status: ResetStatus) -> (cause: Self)
        ensures
            cause.raw == raw,
            cause.flags == status.spec_flags(),
    {
        ResetCause {
            raw,
            flags: bit(status.radio_illegal, 1) + bit(status.option_byte, 2) + bit(status.pin, 4)
                + bit(status.brown_out, 8) + bit(status.software, 16) + bit(
                status.independent_watchdog,
                32,
            ) + bit(status.window_watchdog, 64) + bit(status.low_power, 128),
        }
    }
}

/// Different reset flags never share a protocol flag word.
pub proof fn reset_flags_are_distinct(left: ResetStatus, right: ResetStatus)
    requires
        left.spec_flags() == right.spec_flags(),
    ensures
        left == right,
{
}

/// I2C address at which the sensor answered.
#[derive(Clone, Copy, Debug, PartialEq, Eq, Structural)]
pub enum SensorAddress {
    Low,
    High,
}

impl SensorAddress {
    pub open spec fn spec_byte(self) -> u8 {
        match self {
            SensorAddress::Low => 0x76,
            SensorAddress::High => 0x77,
        }
    }

    #[must_use]
    pub fn address_byte(self) -> (address: u8)
        ensures
            address == self.spec_byte(),
    {
        match self {
            SensorAddress::Low => 0x76,
            SensorAddress::High => 0x77,
        }
    }
}

/// Where the search for the sensor stands.
#[derive(Debug, PartialEq, Eq)]
pub enum ProbeStage<E> {
    /// Read the chip ID at the wired address.
    TryLow,
    /// Read the chip ID at the diagnostic address.
    TryHigh { low_error: E },
    /// A sensor answered.
    Found { address: SensorAddress, chip_id: u8 },
    /// Neither address answered.
    Failed { low_error: E, high_error: E },
}

impl<E> ProbeStage<E> {
    /// The address to read next, unless the search is over.
    pub open spec fn spec_address(self) -> Option<SensorAddress> {
        match self {
            ProbeStage::TryLow => Some(SensorAddress::Low),
            ProbeStage::TryHigh { .. } => Some(SensorAddress::High),
            _ => None,
        }
    }

    #[must_use]
    pub fn address(&self) -> (address: Option<SensorAddress>)
        ensures
            address == self.spec_address(),
    {
        match self {
            ProbeStage::TryLow => Some(SensorAddress::Low),
            ProbeStage::TryHigh { .. } => Some(SensorAddress::High),
            _ => None,
        }
    }

    /// Take the chip ID read at the current address, or the error that the read
    /// ended in. The wired address is tried first; both errors of a failed
    /// search are kept.
    #[must_use]
    pub fn probe_bme688(self, read: Result<u8, E>) -> (next: Self)
        ensures
            next == match (self, read) {
                (ProbeStage::TryLow, Ok(chip_id)) => ProbeStage::Found {
                    address: SensorAddress::Low,
                    chip_id,
                },
                (ProbeStage::TryLow, Err(low_error)) => ProbeStage::TryHigh { low_error },
                (ProbeStage::TryHigh { .. }, Ok(chip_id)) => ProbeStage::Found {
                    address: SensorAddress::High,
                    chip_id,
                },
                (ProbeStage::TryHigh { low_error }, Err(high_error)) => ProbeStage::Failed {
                    low_error,
                    high_error,
                },
                (finished, _) => finished,
            },
    {
        match (self, read) {
            (ProbeStage::TryLow, Ok(chip_id)) => ProbeStage::Found {
                address: SensorAddress::Low,
                chip_id,
            },
            (ProbeStage::TryLow, Err(low_error)) => ProbeStage::TryHigh { low_error },
            (ProbeStage::TryHigh { .. }, Ok(chip_id)) => ProbeStage::Found {
                address: SensorAddress::High,
                chip_id,
            },
            (ProbeStage::TryHigh { low_error }, Err(high_error)) => ProbeStage::Failed {
                low_error,
                high_error,
            },
            (finished, _) => finished,
        }
    }
}

} // verus!
