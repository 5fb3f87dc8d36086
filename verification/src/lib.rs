//! Verified logic of the Vesta sensor node.

pub mod account_laws;
pub mod acquisition_laws;
pub mod bme688;
pub mod bme688_profile;
pub mod board;
pub mod boot_laws;
pub mod bytes;
pub mod degraded_health;
pub mod driver;
pub mod framing;
pub mod health;
pub mod identity;
pub mod output;
pub mod output_v2;
pub mod payload;
pub mod profile_definition;
pub mod profile_policy;
pub mod profile_status;
pub mod protocol;
pub mod provenance;
pub mod radio;
pub mod radio_config;
pub mod record_laws;
pub mod rf_switch;
pub mod runtime;
pub mod scan_laws;
pub mod telemetry_v2;
pub mod text;
pub mod transport_laws;
