//! Canonical raw-LoRa configuration metadata, independent of the radio driver.

use vstd::prelude::*;

verus! {

pub const FREQUENCY_HZ: u32 = 868_100_000;

pub const TX_POWER_DBM: i32 = 5;

pub const SPREADING_FACTOR: u8 = 7;

pub const BANDWIDTH_HZ: u32 = 125_000;

pub const CODING_RATE_NUMERATOR: u8 = 4;

pub const CODING_RATE_DENOMINATOR: u8 = 5;

pub const PREAMBLE_SYMBOLS: u16 = 8;

pub const SYNC_WORD: u16 = 0x1424;

} // verus!
