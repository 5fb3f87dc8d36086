use vesta::profile_definition::{
    BASE_STEP_DURATION_US, EXPECTED_PROFILE_DURATION_US, EXPECTED_STEP_DURATION_US,
    PROFILE_REPETITION_MULTIPLIERS, PROFILE_TEMPERATURES_CELSIUS, PROGRAMMED_SHARED_DURATION_US,
    TimeoutBound, timeout_bound,
};

#[test]
fn hp354_has_ten_exact_ordered_steps() {
    assert_eq!(PROFILE_TEMPERATURES_CELSIUS.len(), 10);
    assert_eq!(PROFILE_REPETITION_MULTIPLIERS.len(), 10);
    assert_eq!(PROFILE_REPETITION_MULTIPLIERS.iter().sum::<u8>(), 77);
}

#[test]
fn hp354_timing_uses_quantized_register_not_requested_milliseconds() {
    let mut total = 0_u32;
    for (index, multiplier) in PROFILE_REPETITION_MULTIPLIERS.iter().enumerate() {
        let duration = u32::from(*multiplier) * BASE_STEP_DURATION_US;
        assert_eq!(duration, EXPECTED_STEP_DURATION_US[index]);
        total += duration;
    }
    assert_eq!(total, EXPECTED_PROFILE_DURATION_US);
    assert_ne!(PROGRAMMED_SHARED_DURATION_US, 99_000);
}

#[test]
fn timeout_reason_distinguishes_deadline_from_poll_budget() {
    assert_eq!(timeout_bound(149, 150), TimeoutBound::Deadline);
    assert_eq!(timeout_bound(150, 150), TimeoutBound::PollBudget);
    assert_eq!(timeout_bound(151, 150), TimeoutBound::PollBudget);
}

#[test]
fn temperatures_are_those_of_the_published_profile() {
    assert_eq!(
        PROFILE_TEMPERATURES_CELSIUS,
        [320, 100, 100, 100, 200, 200, 200, 320, 320, 320]
    );
    assert_eq!(
        PROFILE_REPETITION_MULTIPLIERS,
        [5, 2, 10, 30, 5, 5, 5, 5, 5, 5]
    );
}
