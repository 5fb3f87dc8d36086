//! What a boot and a build settle, told by what they find.

use vstd::prelude::*;
use vstd::string::*;

use crate::bme688::{Operation, SensorError, SensorStage};
use crate::board::{ProbeStage, ResetCause, ResetStatus, SensorAddress};
use crate::driver::DriverError;
use crate::identity::{DeviceIdentity, FirmwareBuild};
use crate::profile_policy::ScanIntervalError;
use crate::protocol::OutputRoute;

verus! {

/// Each reset flag has its own bit of the protocol's flag word, in the order
/// radio-illegal, option byte, pin, brown-out, software, independent watchdog,
/// window watchdog and low power from the lowest bit up, and no other bit is set.
pub proof fn reset_flags_have_their_bits(status: ResetStatus)
    ensures
        0 <= status.spec_flags() < 256,
        status.spec_flags() % 2 == 1 <==> status.radio_illegal,
        status.spec_flags() / 2 % 2 == 1 <==> status.option_byte,
        status.spec_flags() / 4 % 2 == 1 <==> status.pin,
        status.spec_flags() / 8 % 2 == 1 <==> status.brown_out,
        status.spec_flags() / 16 % 2 == 1 <==> status.software,
        status.spec_flags() / 32 % 2 == 1 <==> status.independent_watchdog,
        status.spec_flags() / 64 % 2 == 1 <==> status.window_watchdog,
        status.spec_flags() / 128 % 2 == 1 <==> status.low_power,
{
}

/// A reset cause keeps the status register as it was read, and flags it.
pub proof fn reset_cause_keeps_the_register(raw: u32, status: ResetStatus, cause: ResetCause)
    requires
        call_ensures(ResetCause::capture, (raw, status), cause),
    ensures
        cause.raw == raw,
        cause.flags % 2 == 1 <==> status.radio_illegal,
        cause.flags / 2 % 2 == 1 <==> status.option_byte,
        cause.flags / 4 % 2 == 1 <==> status.pin,
        cause.flags / 8 % 2 == 1 <==> status.brown_out,
        cause.flags / 16 % 2 == 1 <==> status.software,
        cause.flags / 32 % 2 == 1 <==> status.independent_watchdog,
        cause.flags / 64 % 2 == 1 <==> status.window_watchdog,
        cause.flags / 128 % 2 == 1 <==> status.low_power,
        cause.flags < 256,
{
    reset_flags_have_their_bits(status);
}

/// The two reads of a probe find the sensor at the first address that answers,
/// 0x76 before 0x77, with the chip ID it answered with; if neither does, both
/// errors are kept apart.
pub proof fn probe_finds_the_first_address_that_answers<E>(
    low: Result<u8, E>,
    high: Result<u8, E>,
    tried: ProbeStage<E>,
    ended: ProbeStage<E>,
)
    requires
        call_ensures(
            ProbeStage::<E>::probe_bme688,
            (ProbeStage::<E>::TryLow, low),
            tried,
        ),
        call_ensures(ProbeStage::<E>::probe_bme688, (tried, high), ended),
    ensures
        ProbeStage::<E>::TryLow.spec_address() == Some(SensorAddress::Low),
        SensorAddress::Low.spec_byte() == 0x76,
        SensorAddress::High.spec_byte() == 0x77,
        low is Err ==> tried.spec_address() == Some(SensorAddress::High),
        low is Ok ==> tried.spec_address() is None,
        ended.spec_address() is None,
        low matches Ok(id) ==> (ended matches ProbeStage::Found { address, chip_id }
            && address.spec_byte() == 0x76 && chip_id == id),
        low is Err ==> (high matches Ok(id) ==> (ended matches ProbeStage::Found { address, chip_id }
            && address.spec_byte() == 0x77 && chip_id == id)),
        low matches Err(first) ==> (high matches Err(second) ==> (
        ended matches ProbeStage::Failed { low_error, high_error } && low_error == first
            && high_error == second)),
{
}

/// The hash of a sequence starts at the 64-bit offset basis and takes each byte
/// in by exclusive or and a multiplication with the 64-bit prime, modulo 2^64.
pub proof fn node_hash_takes_in_byte_after_byte(bytes: Seq<u8>, byte: u8)
    ensures
        crate::identity::fnv1a(Seq::<u8>::empty()) == 14_695_981_039_346_656_037,
        crate::identity::fnv1a(bytes.push(byte)) as int == ((crate::identity::fnv1a(bytes) ^ (
        byte as u64)) * 1_099_511_628_211) % 0x1_0000_0000_0000_0000,
{
    assert(bytes.push(byte).drop_last() == bytes);
}

/// Two hardware IDs that differ in their last byte alone give different nodes.
pub proof fn node_hash_tells_last_bytes_apart(bytes: Seq<u8>, left: u8, right: u8)
    requires
        left != right,
    ensures
        crate::identity::fnv1a(bytes.push(left)) != crate::identity::fnv1a(bytes.push(right)),
{
    node_hash_takes_in_byte_after_byte(bytes, left);
    node_hash_takes_in_byte_after_byte(bytes, right);
    let hash = crate::identity::fnv1a(bytes);
    let a = hash ^ (left as u64);
    let b = hash ^ (right as u64);
    assert(left != right ==> hash ^ (left as u64) != hash ^ (right as u64)) by (bit_vector);
    lemma_prime_multiples_differ(a, b);
}

/// Multiplication with the prime is injective modulo 2^64: it has an inverse.
proof fn lemma_prime_multiples_differ(left: u64, right: u64)
    requires
        left != right,
    ensures
        (left * 1_099_511_628_211) % 0x1_0000_0000_0000_0000 != (right * 1_099_511_628_211)
            % 0x1_0000_0000_0000_0000,
{
    assert(left != right ==> (left * 1_099_511_628_211u64) % 0x1_0000_0000_0000_0000 != (right
        * 1_099_511_628_211u64) % 0x1_0000_0000_0000_0000) by (bit_vector);
}

/// A boot is named by the hash of its hardware ID, and by the nonce of the
/// hardware generator read as eight bytes, most significant first, if there is
/// one. Without a nonce the boot ID is zero and marked as missing.
pub proof fn boot_is_named_by_its_nonce(
    uid: [u8; 12],
    nonce: Option<[u8; 8]>,
    identity: DeviceIdentity,
)
    requires
        call_ensures(crate::identity::establish, (&uid, nonce), identity),
    ensures
        identity.node_id == crate::identity::fnv1a(uid@),
        identity.boot_id_valid <==> nonce is Some,
        identity.boot_id_from_hardware_rng <==> nonce is Some,
        nonce is None ==> identity.boot_id == 0,
        nonce matches Some(bytes) ==> identity.boot_id == crate::output::eight_bytes(bytes@, 0),
{
    if let Some(bytes) = nonce {
        crate::output::lemma_value_of_eight(bytes@);
    }
}

/// Another attempt at a nonce is due until one was filled or three were made.
pub proof fn nonce_is_attempted_three_times(attempts: usize, filled: bool, due: bool)
    requires
        call_ensures(crate::identity::nonce_attempt_due, (attempts, filled), due),
    ensures
        filled ==> !due,
        !filled ==> (due <==> attempts <= 2),
{
}

/// A digit appended to decimal text makes its value ten times as large and adds
/// the digit; the same holds for hexadecimal text with sixteen, modulo 2^64.
pub proof fn appended_digits_shift_the_value(bytes: Seq<u8>, digit: u8)
    ensures
        crate::text::decimal_value(Seq::<u8>::empty()) == 0,
        crate::text::decimal_value(bytes.push(digit)) == 10 * crate::text::decimal_value(bytes) + (
        digit - 0x30),
        crate::text::hex_value(Seq::<u8>::empty()) == 0,
        crate::text::hex_value(bytes.push(digit)) == (16 * crate::text::hex_value(bytes))
            % 0x1_0000_0000_0000_0000 + crate::text::hex_digit(digit),
{
    assert(bytes.push(digit).drop_last() == bytes);
}

/// The hexadecimal digits are those of `0` to `9`, of `a` to `f` and of `A` to
/// `F`, from zero and from ten up; both cases mean the same, and anything else
/// counts as zero.
pub proof fn hexadecimal_digits_have_their_values(digit: u8)
    ensures
        forall|k: int|
            #![trigger crate::text::hex_digit((0x30 + k) as u8)]
            0 <= k < 10 ==> crate::text::hex_digit((0x30 + k) as u8) == k,
        forall|k: int|
            #![trigger crate::text::hex_digit((0x61 + k) as u8)]
            0 <= k < 6 ==> crate::text::hex_digit((0x61 + k) as u8) == 10 + k
                && crate::text::hex_digit((0x41 + k) as u8) == 10 + k,
        0 <= crate::text::hex_digit(digit) <= 15,
        crate::text::hex_digit(digit) != 0 ==> 0x31 <= digit <= 0x39 || 0x61 <= digit <= 0x66
            || 0x41 <= digit <= 0x46,
        crate::text::is_decimal_digit(digit) <==> 0x30 <= digit <= 0x39,
{
}

/// A build is described by its three version numbers in their order, its build
/// ID if the text of it is not empty, and a dirty mark unless that is zero.
pub proof fn build_is_described_by_its_texts(
    major: &str,
    minor: &str,
    patch: &str,
    build_id_hex: &str,
    build_dirty: &str,
    debug_sleep: bool,
    build: FirmwareBuild,
)
    requires
        call_ensures(
            FirmwareBuild::from_build,
            (major, minor, patch, build_id_hex, build_dirty, debug_sleep),
            build,
        ),
    ensures
        build.version@[0] == crate::text::decimal_value(major.spec_bytes()),
        build.version@[1] == crate::text::decimal_value(minor.spec_bytes()),
        build.version@[2] == crate::text::decimal_value(patch.spec_bytes()),
        build.build_id == crate::text::hex_value(build_id_hex.spec_bytes()),
        build.build_id_valid <==> build_id_hex.spec_bytes().len() > 0,
        !build.dirty <==> crate::text::decimal_value(build_dirty.spec_bytes()) == 0,
        build.debug_sleep <==> debug_sleep,
{
}

/// A profile build accepts a requested interval exactly if it is at least 15
/// seconds over the UART or 180 over the radio, and its milliseconds fit 32
/// bits; without a request it takes 15 or 300 seconds. Any other build keeps its
/// own policy whatever is requested.
pub proof fn scan_interval_is_bounded(
    profile_v2: bool,
    uart_training: bool,
    requested_seconds: Option<u32>,
    result: Result<u32, ScanIntervalError>,
)
    requires
        call_ensures(
            crate::profile_policy::scan_interval,
            (profile_v2, uart_training, requested_seconds),
            result,
        ),
    ensures
        !profile_v2 || requested_seconds is None ==> (result matches Ok(seconds) && seconds
            == if uart_training {
            15int
        } else {
            300
        }),
        profile_v2 ==> (requested_seconds matches Some(wanted) ==> {
            let minimum = if uart_training {
                15int
            } else {
                180
            };
            &&& result matches Ok(seconds) ==> seconds == wanted
            &&& result is Ok <==> minimum <= wanted && wanted * 1_000 <= 0xffff_ffff
            &&& wanted < minimum ==> (result matches Err(ScanIntervalError::BelowMinimum {
                minimum: found,
            }) && found == minimum)
            &&& wanted * 1_000 > 0xffff_ffff ==> (result matches Err(
                ScanIntervalError::TooLarge,
            ))
        }),
{
}

/// A radio node repeats its configuration every sixth scan, a training node with
/// every scan, and an interval has a thousand milliseconds to the second.
pub proof fn cadence_follows_the_route(
    route: OutputRoute,
    scans: u16,
    seconds: u32,
    interval_ms: u32,
)
    requires
        call_ensures(crate::profile_policy::config_repeat_interval_scans, (route,), scans),
        call_ensures(crate::profile_policy::scan_interval_ms, (seconds,), interval_ms),
    ensures
        scans == if route is LoraP2p {
            6int
        } else {
            1
        },
        interval_ms == 1_000 * seconds,
{
}

/// An absolute path stands for itself. Any other is found below its directory:
/// the joined path begins with the directory, ends with the path, and has exactly
/// one separator more than the two unless the directory is empty or ends in one.
pub proof fn joined_path_ends_with_its_component(base: Seq<char>, component: Seq<char>)
    ensures
        ({
            let path = crate::provenance::joined(base, component);
            let absolute = component.len() > 0 && component[0] == '/';
            let separated = base.len() == 0 || base[base.len() - 1] == '/';
            &&& absolute ==> path == component
            &&& !absolute ==> {
                &&& path.len() == base.len() + component.len() + if separated {
                    0int
                } else {
                    1
                }
                &&& path.take(base.len() as int) == base
                &&& path.skip(path.len() - component.len()) == component
                &&& !separated ==> path[base.len() as int] == '/'
            }
        }),
{
    let path = crate::provenance::joined(base, component);
    if !(component.len() > 0 && component[0] == '/') {
        assert(path.take(base.len() as int) == base);
        assert(path.skip(path.len() - component.len()) == component);
    }
}

/// The status command that tells a dirty work tree reports untracked files too,
/// and a build runs again when its sources, its manifest, its lock file, its
/// build script or its target configuration change.
pub proof fn build_watches_what_it_depends_on(
    args: [&'static str; 2],
    inputs: [&'static str; 5],
)
    requires
        call_ensures(crate::provenance::git_dirty_status_args, (), args),
        call_ensures(crate::provenance::build_provenance_inputs, (), inputs),
    ensures
        args@[0]@ == "status"@,
        args@[1]@ == "--porcelain"@,
        inputs@[0]@ == "src"@,
        inputs@[1]@ == "Cargo.toml"@,
        inputs@[2]@ == "Cargo.lock"@,
        inputs@[3]@ == "build.rs"@,
        inputs@[4]@ == ".cargo/config.toml"@,
{
}

/// Each operation of a forced measurement goes by its own name.
pub proof fn forced_operations_go_by_their_names(operation: Operation, label: &'static str)
    requires
        call_ensures(Operation::label, (operation,), label),
    ensures
        operation is Initialization ==> label@ == "initialization"@,
        operation is Configuration ==> label@ == "configuration"@,
        operation is HeaterConfiguration ==> label@ == "heater configuration"@,
        operation is ForcedModeTrigger ==> label@ == "forced-mode trigger"@,
        operation is DataRead ==> label@ == "data read"@,
{
}

/// A build runs again for a commit of its own worktree, of the shared repository
/// and, where one is checked out, of the branch; it records the commit only if
/// that is abbreviated to sixteen digits, and dirt only if the status command
/// worked and printed any.
pub proof fn build_records_its_commit<'a>(
    git_dir: &str,
    common_dir: &str,
    symbolic_head: Option<&str>,
    inputs: Vec<String>,
    abbreviated_commit: Option<&'a str>,
    build_id: &'a str,
    status_output: Option<&[u8]>,
    dirty: u8,
)
    requires
        call_ensures(
            crate::provenance::git_rerun_inputs,
            (git_dir, common_dir, symbolic_head),
            inputs,
        ),
        call_ensures(crate::provenance::recorded_build_id, (abbreviated_commit,), build_id),
        call_ensures(crate::provenance::recorded_dirty, (status_output,), dirty),
    ensures
        inputs@.len() == 3 || inputs@.len() == 4,
        inputs@.len() == 4 <==> symbolic_head is Some,
        inputs@[0]@ == crate::provenance::joined(git_dir@, "HEAD"@),
        inputs@[1]@ == crate::provenance::joined(git_dir@, "index"@),
        inputs@[2]@ == crate::provenance::joined(common_dir@, "packed-refs"@),
        symbolic_head matches Some(branch) ==> inputs@[3]@ == crate::provenance::joined(
            common_dir@,
            branch@,
        ),
        abbreviated_commit is None ==> build_id@ == ""@,
        abbreviated_commit matches Some(commit) ==> {
            &&& commit.spec_bytes().len() == 16 ==> build_id@ == commit@
            &&& commit.spec_bytes().len() != 16 ==> build_id@ == ""@
        },
        dirty <= 1,
        dirty == 1 <==> status_output is Some && status_output->Some_0@.len() > 0,
{
}

/// A forced measurement configures the sensor, then its heater, then triggers
/// and reads in turn. A failure is reported as that of the stage it came from;
/// only failures to configure are final, after any other the next trigger is due.
pub proof fn forced_measurements_take_turns(
    stage: SensorStage,
    outcome: Result<(), DriverError>,
    result: Result<SensorStage, SensorError>,
    retry: Option<SensorStage>,
)
    requires
        call_ensures(SensorStage::next, (stage, outcome), result),
        call_ensures(SensorStage::after_failure, (stage,), retry),
    ensures
        outcome is Ok <==> result is Ok,
        result matches Ok(next) ==> {
            &&& next is ConfigureHeater <==> stage is Configure
            &&& next is Trigger <==> stage is ConfigureHeater || stage is Read
            &&& next is Read <==> stage is Trigger
        },
        result matches Err(error) ==> {
            &&& error.source == outcome->Err_0
            &&& error.operation is Configuration <==> stage is Configure
            &&& error.operation is HeaterConfiguration <==> stage is ConfigureHeater
            &&& error.operation is ForcedModeTrigger <==> stage is Trigger
            &&& error.operation is DataRead <==> stage is Read
        },
        retry is None <==> stage is Configure || stage is ConfigureHeater,
        retry matches Some(next) ==> next is Trigger,
{
}

/// A forced measurement samples humidity sixteen times, temperature twice and
/// pressure once, unfiltered, which with the switching and wake-up times takes
/// 42,590 us, and waits for that, the 100 ms of the heater and 5 ms more.
pub proof fn forced_measurement_waits_for_its_conversions(wait_us: u64)
    requires
        call_ensures(crate::bme688::conversion_wait_us, (), wait_us),
    ensures
        ({
            let environment = crate::bme688::forced_configuration();
            let conversion_us = crate::driver::conversion_duration_us(
                1,
                environment.temperature_oversampling.spec_register_value(),
                environment.pressure_oversampling.spec_register_value(),
                environment.humidity_oversampling.spec_register_value(),
            );
            &&& environment.humidity_oversampling is X16
            &&& environment.temperature_oversampling is X2
            &&& environment.pressure_oversampling is X1
            &&& environment.filter is Off
            &&& environment.standby_time is NoStandby
            &&& conversion_us == 42_590
            &&& wait_us == conversion_us + 100_000 + 5_000
        }),
{
}

} // verus!
