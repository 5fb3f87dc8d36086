//! Target-independent definition of Bosch's neutral HP-354 exploratory profile.
//!
//! Documentary source: Bosch Sensortec, BME AI-Studio Manual,
//! BST-BME688-AN001-00 v1.6.0, HP-354 profile JSON (page 70):
//! <https://www.bosch-sensortec.com/media/boschsensortec/downloads/application_notes_1/bst-bme688-an001.pdf>

use vstd::prelude::*;

verus! {

pub const PROFILE_ID: u16 = 0x0354;

pub const PROFILE_VERSION: u16 = 1;

pub const PROFILE_STEP_COUNT: u8 = 10;

pub const PROFILE_TEMPERATURES_CELSIUS: [u16; 10] = [
    320,
    100,
    100,
    100,
    200,
    200,
    200,
    320,
    320,
    320,
];

pub const PROFILE_REPETITION_MULTIPLIERS: [u8; 10] = [5, 2, 10, 30, 5, 5, 5, 5, 5, 5];

/// Bosch's example requests 140 ms minus integer TPHG milliseconds. With this
/// configuration TPHG is 41,590 us, producing a requested shared wait of 99 ms.
pub const REQUESTED_SHARED_DURATION_MS: u16 = 99;

/// `99 ms` encodes to raw shared-wait register `0x73`, which decodes to
/// 97,308 us. Every nonzero multiplier repeats shared-wait + TPHG.
pub const PROGRAMMED_SHARED_DURATION_RAW: u8 = 0x73;

pub const PROGRAMMED_SHARED_DURATION_US: u32 = 97_308;

pub const TPHG_DURATION_US: u32 = 41_590;

pub const BASE_STEP_DURATION_US: u32 = PROGRAMMED_SHARED_DURATION_US + TPHG_DURATION_US;

pub const EXPECTED_STEP_DURATION_US: [u32; 10] = [
    694_490,
    277_796,
    1_388_980,
    4_166_940,
    694_490,
    694_490,
    694_490,
    694_490,
    694_490,
    694_490,
];

pub const EXPECTED_PROFILE_DURATION_US: u32 = 10_695_146;

/// Which independent bound ended collection after the driver reported its
/// generic timeout finish state.
#[derive(Clone, Copy, Debug, PartialEq, Eq, Structural)]
pub enum TimeoutBound {
    /// The monotonic 15-second deadline elapsed before the poll counter filled.
    Deadline,
    /// The configured number of 100-ms poll attempts was exhausted.
    PollBudget,
}

pub open spec fn spec_timeout_bound(poll_count: u16, maximum_poll_count: u16) -> TimeoutBound {
    if poll_count >= maximum_poll_count {
        TimeoutBound::PollBudget
    } else {
        TimeoutBound::Deadline
    }
}

/// Classify the generic collector timeout without losing which firmware bound
/// actually fired. If both are reached together, the explicit poll budget is
/// reported because its threshold is directly observable in telemetry.
#[must_use]
pub fn timeout_bound(poll_count: u16, maximum_poll_count: u16) -> (bound: TimeoutBound)
    ensures
        bound == spec_timeout_bound(poll_count, maximum_poll_count),
{
    if poll_count >= maximum_poll_count {
        TimeoutBound::PollBudget
    } else {
        TimeoutBound::Deadline
    }
}

/// Time that the first `count` steps of the profile take with the given
/// shared-wait register.
pub open spec fn steps_duration_us(register: u8, count: nat) -> int
    decreases count,
{
    if count == 0 {
        0
    } else {
        steps_duration_us(register, (count - 1) as nat) + crate::driver::step_duration_us(
            PROFILE_REPETITION_MULTIPLIERS@[count - 1],
            register,
            TPHG_DURATION_US,
        )
    }
}

/// The programmed register stands for the documented shared wait, each step
/// takes its documented time, and the whole profile takes 10,695,146 us.
pub proof fn profile_timing_is_exact()
    ensures
        crate::driver::shared_wait_us(PROGRAMMED_SHARED_DURATION_RAW)
            == PROGRAMMED_SHARED_DURATION_US,
        forall|i: int|
            0 <= i < 10 ==> crate::driver::step_duration_us(
                #[trigger] PROFILE_REPETITION_MULTIPLIERS@[i],
                PROGRAMMED_SHARED_DURATION_RAW,
                TPHG_DURATION_US,
            ) == EXPECTED_STEP_DURATION_US@[i],
        steps_duration_us(PROGRAMMED_SHARED_DURATION_RAW, 10) == EXPECTED_PROFILE_DURATION_US,
{
    reveal_with_fuel(steps_duration_us, 11);
}

} // verus!
