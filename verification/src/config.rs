//! The add-on's options as the server's logic reads them.

use vstd::prelude::*;

verus! {

/// Options set in Home Assistant. Coordinates and the radius are
/// kilometres and degrees held as IEEE-754 bit patterns of `f64`; the
/// library carries them without computing with them.
#[derive(Debug)]
pub struct AppConfig {
    pub ssh_port: u16,
    pub webhook_url: String,
    pub home_latitude_bits: u64,
    pub home_longitude_bits: u64,
    pub geofence_radius_km_bits: u64,
    pub geofence_override_timeout_sec: u64,
    pub tofu_timeout_sec: u64,
    pub untrusted_key_retention_days: u64,
    pub expected_json_version: String,
    pub log_level: String,
    /// PEM-encoded host key, kept in the options for backup and migration;
    /// empty until one is generated or loaded.
    pub host_key_pem: String,
}

} // verus!
