//! The connection log: what happened on each SSH connection.

use vstd::prelude::*;
use vstd::string::*;
use crate::payload::ClientPayload;
use crate::time::Timestamp;

verus! {

/// How a connection ended. Distances are kilometres held as the IEEE-754
/// bit pattern of an `f64`; the library never computes with them.
#[derive(Debug)]
pub enum ConnectionResult {
    Success,
    UntrustedKey,
    InvalidJson(String),
    VersionMismatch { expected: String, got: String },
    OutsideGeofence { distance_km_bits: u64 },
    GeofenceOverrideSuccess { distance_km_bits: u64 },
    TofuTrusted,
    Error(String),
}

/// The text shown for a result; `distance` is the distance already written
/// with one decimal.
pub open spec fn result_text(r: ConnectionResult, distance: Seq<char>) -> Seq<char> {
    match r {
        ConnectionResult::Success => "SUCCESS"@,
        ConnectionResult::UntrustedKey => "UNTRUSTED_KEY"@,
        ConnectionResult::InvalidJson(e) => "INVALID_JSON: "@ + e@,
        ConnectionResult::VersionMismatch { expected, got } => "VERSION_MISMATCH: expected="@
            + expected@ + ", got="@ + got@,
        ConnectionResult::OutsideGeofence { .. } => "OUTSIDE_GEOFENCE: "@ + distance + "km away"@,
        ConnectionResult::GeofenceOverrideSuccess { .. } => "GEOFENCE_OVERRIDE_SUCCESS: "@
            + distance + "km away"@,
        ConnectionResult::TofuTrusted => "TOFU_TRUSTED"@,
        ConnectionResult::Error(e) => "ERROR: "@ + e@,
    }
}

impl ConnectionResult {
    /// The text shown for this result in the log; for the
    /// two geofence results, `distance` is the distance written with one
    /// decimal (`{:.1}`).
    pub fn describe(&self, distance: &str) -> (r: String)
        ensures
            r@ == result_text(*self, distance@),
    {
        match self {
            ConnectionResult::Success => {
                proof { reveal_strlit("SUCCESS"); }
                String::from_str("SUCCESS")
            },
            ConnectionResult::UntrustedKey => {
                proof { reveal_strlit("UNTRUSTED_KEY"); }
                String::from_str("UNTRUSTED_KEY")
            },
            ConnectionResult::InvalidJson(e) => {
                let mut s = String::from_str("INVALID_JSON: ");
                s.append(e.as_str());
                s
            },
            ConnectionResult::VersionMismatch { expected, got } => {
                let mut s = String::from_str("VERSION_MISMATCH: expected=");
                s.append(expected.as_str());
                s.append(", got=");
                s.append(got.as_str());
                s
            },
            ConnectionResult::OutsideGeofence { .. } => {
                let mut s = String::from_str("OUTSIDE_GEOFENCE: ");
                s.append(distance);
                s.append("km away");
                s
            },
            ConnectionResult::GeofenceOverrideSuccess { .. } => {
                let mut s = String::from_str("GEOFENCE_OVERRIDE_SUCCESS: ");
                s.append(distance);
                s.append("km away");
                s
            },
            ConnectionResult::TofuTrusted => {
                proof { reveal_strlit("TOFU_TRUSTED"); }
                String::from_str("TOFU_TRUSTED")
            },
            ConnectionResult::Error(e) => {
                let mut s = String::from_str("ERROR: ");
                s.append(e.as_str());
                s
            },
        }
    }

    /// A variant-by-variant copy.
    pub fn duplicate(&self) -> (r: ConnectionResult)
        ensures
            r == *self,
    {
        match self {
            ConnectionResult::Success => ConnectionResult::Success,
            ConnectionResult::UntrustedKey => ConnectionResult::UntrustedKey,
            ConnectionResult::InvalidJson(e) => ConnectionResult::InvalidJson(e.clone()),
            ConnectionResult::VersionMismatch { expected, got } => ConnectionResult::VersionMismatch {
                expected: expected.clone(),
                got: got.clone(),
            },
            ConnectionResult::OutsideGeofence { distance_km_bits } => ConnectionResult::OutsideGeofence {
                distance_km_bits: *distance_km_bits,
            },
            ConnectionResult::GeofenceOverrideSuccess { distance_km_bits } =>
                ConnectionResult::GeofenceOverrideSuccess { distance_km_bits: *distance_km_bits },
            ConnectionResult::TofuTrusted => ConnectionResult::TofuTrusted,
            ConnectionResult::Error(e) => ConnectionResult::Error(e.clone()),
        }
    }
}

/// One logged connection attempt.
#[derive(Debug)]
pub struct ConnectionLogEntry {
    pub timestamp: Timestamp,
    pub fingerprint: String,
    pub ssh_username: String,
    pub result: ConnectionResult,
    pub client_ip: String,
    pub payload: Option<ClientPayload>,
}

impl ConnectionLogEntry {
    /// A field-by-field copy.
    pub fn duplicate(&self) -> (r: ConnectionLogEntry)
        ensures
            r == *self,
    {
        ConnectionLogEntry {
            timestamp: self.timestamp,
            fingerprint: self.fingerprint.clone(),
            ssh_username: self.ssh_username.clone(),
            result: self.result.duplicate(),
            client_ip: self.client_ip.clone(),
            payload: match &self.payload {
                Some(p) => Some(p.duplicate()),
                None => None,
            },
        }
    }
}

} // verus!
