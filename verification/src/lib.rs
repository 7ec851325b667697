//! Verified core of an SSH-triggered garage door opener: the key store, trust on
//! first use, geofence overrides, client payload parsing and the decisions
//! taken for each SSH connection.

pub mod time;
pub mod text;
pub mod sanitize;
pub mod json;
pub mod payload;
pub mod tofu;
pub mod overrides;
pub mod keys;
pub mod log;
pub mod state;
pub mod config;
pub mod connection;
pub mod session;
pub mod webhook;
pub mod web;
pub mod keypair;
pub mod hostkey;
pub mod laws;
