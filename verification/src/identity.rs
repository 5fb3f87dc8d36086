//! Stable device identity plus a per-boot hardware-random nonce.

use vstd::prelude::*;
use vstd::string::*;

use crate::bytes::u64_from_be_bytes;
use crate::text::{parse_decimal, parse_hex};

verus! {

pub const RNG_TIMEOUT_MS: u64 = 100;

pub const RNG_ATTEMPTS: usize = 3;

/// Identity metadata established once at boot.
#[derive(Clone, Copy, Debug, PartialEq, Eq, Structural)]
pub struct DeviceIdentity {
    pub node_id: u64,
    pub boot_id: u64,
    pub boot_id_valid: bool,
    pub boot_id_from_hardware_rng: bool,
}

/// One step of the 64-bit FNV-1a hash.
pub open spec fn fnv1a_step(hash: u64, byte: u8) -> u64 {
    (((hash ^ (byte as u64)) * 0x0000_0100_0000_01b3) % 0x1_0000_0000_0000_0000) as u64
}

/// The 64-bit FNV-1a hash of `bytes`.
pub open spec fn fnv1a(bytes: Seq<u8>) -> u64
    decreases bytes.len(),
{
    if bytes.len() == 0 {
        0xcbf2_9ce4_8422_2325
    } else {
        fnv1a_step(fnv1a(bytes.drop_last()), bytes.last())
    }
}

/// Hash all 96 hardware-UID bits into the stable v1/v2 node identifier.
/// FNV-1a is identity compaction, not authentication or secrecy.
#[must_use]
pub fn stable_node_id(uid: &[u8; 12]) -> (node_id: u64)
    ensures
        node_id == fnv1a(uid@),
{
    let mut hash: u64 = 0xcbf2_9ce4_8422_2325;
    let mut index: usize = 0;
    while index < 12
        invariant
            index <= 12,
            hash == fnv1a(uid@.take(index as int)),
        decreases 12 - index,
    {
        assert(uid@.take(index + 1).drop_last() == uid@.take(index as int));
        hash = hash ^ (uid[index] as u64);
        hash = hash.wrapping_mul(0x0000_0100_0000_01b3);
        index += 1;
    }
    assert(uid@.take(12) == uid@);
    hash
}

/// Whether another attempt to fill the boot nonce is due, after `attempts`
/// attempts of which the last did or did not fill it.
#[must_use]
pub fn nonce_attempt_due(attempts: usize, filled: bool) -> (due: bool)
    ensures
        due == (!filled && attempts < RNG_ATTEMPTS),
{
    !filled && attempts < RNG_ATTEMPTS
}

/// The identity of a boot, from the hardware UID and the nonce of the hardware
/// generator.
///
/// No deterministic value is presented as a nonce if all bounded attempts
/// fail. Such a boot remains observable with `boot_id_valid = false` and zero
/// on the wire rather than fabricating uniqueness.
#[must_use]
pub fn establish(uid: &[u8; 12], nonce: Option<[u8; 8]>) -> (identity: DeviceIdentity)
    ensures
        identity.node_id == fnv1a(uid@),
        identity.boot_id_valid == (nonce is Some),
        identity.boot_id_from_hardware_rng == (nonce is Some),
        identity.boot_id == match nonce {
            Some(bytes) => crate::bytes::be_value(bytes@),
            None => 0,
        },
{
    let node_id: u64 = stable_node_id(uid);
    match nonce {
        Some(bytes) => DeviceIdentity {
            node_id,
            boot_id: u64_from_be_bytes(&bytes),
            boot_id_valid: true,
            boot_id_from_hardware_rng: true,
        },
        None => DeviceIdentity {
            node_id,
            boot_id: 0,
            boot_id_valid: false,
            boot_id_from_hardware_rng: false,
        },
    }
}

#[must_use]
pub fn parse_decimal_u8(value: &str) -> (parsed: u8)
    requires
        crate::text::is_decimal(value.spec_bytes()),
        crate::text::decimal_value(value.spec_bytes()) <= u8::MAX,
    ensures
        parsed == crate::text::decimal_value(value.spec_bytes()),
{
    parse_decimal(value.as_bytes(), 255) as u8
}

#[must_use]
pub fn parse_hex_u64(value: &str) -> (parsed: u64)
    ensures
        parsed == crate::text::hex_value(value.spec_bytes()),
{
    parse_hex(value.as_bytes())
}

/// Provenance of the running firmware.
#[derive(Clone, Copy, Debug, PartialEq, Eq)]
pub struct FirmwareBuild {
    pub version: [u8; 3],
    pub build_id: u64,
    pub build_id_valid: bool,
    pub dirty: bool,
    pub debug_sleep: bool,
}

impl FirmwareBuild {
    /// Read the provenance that the build recorded: the build ID is known if
    /// its text is not empty, and the build is dirty unless its mark is zero.
    #[must_use]
    pub fn from_build(
        major: &str,
        minor: &str,
        patch: &str,
        build_id_hex: &str,
        build_dirty: &str,
        debug_sleep: bool,
    ) -> (build: Self)
        requires
            crate::text::is_decimal(major.spec_bytes()),
            crate::text::is_decimal(minor.spec_bytes()),
            crate::text::is_decimal(patch.spec_bytes()),
            crate::text::is_decimal(build_dirty.spec_bytes()),
            crate::text::decimal_value(major.spec_bytes()) <= u8::MAX,
            crate::text::decimal_value(minor.spec_bytes()) <= u8::MAX,
            crate::text::decimal_value(patch.spec_bytes()) <= u8::MAX,
            crate::text::decimal_value(build_dirty.spec_bytes()) <= u8::MAX,
        ensures
            build.version@[0] == crate::text::decimal_value(major.spec_bytes()),
            build.version@[1] == crate::text::decimal_value(minor.spec_bytes()),
            build.version@[2] == crate::text::decimal_value(patch.spec_bytes()),
            build.build_id == crate::text::hex_value(build_id_hex.spec_bytes()),
            build.build_id_valid == (build_id_hex.spec_bytes().len() != 0),
            build.dirty == (crate::text::decimal_value(build_dirty.spec_bytes()) != 0),
            build.debug_sleep == debug_sleep,
    {
        FirmwareBuild {
            version: [parse_decimal_u8(major), parse_decimal_u8(minor), parse_decimal_u8(patch)],
            build_id: parse_hex_u64(build_id_hex),
            build_id_valid: build_id_hex.as_bytes().len() != 0,
            dirty: parse_decimal_u8(build_dirty) != 0,
            debug_sleep,
        }
    }
}

} // verus!
