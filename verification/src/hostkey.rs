//! The SSH host key: taken from the add-on options, from the key file, or
//! generated, and kept in the options for backup and migration.

use vstd::prelude::*;
use crate::config::AppConfig;
use crate::keypair::{decode_secret_key, encode_pkcs8_pem, generate_ed25519, pem_public_key, SshKeyPair};

verus! {

/// Where the host key comes from.
#[derive(Debug, Clone, Copy, PartialEq, Eq, Structural)]
pub enum HostKeySource {
    /// The PEM in the add-on options (a migration or a restored backup).
    Configured,
    /// The key file written on an earlier start.
    StoredFile,
    /// A fresh Ed25519 key.
    Generated,
}

/// The source for the host key: the options' PEM when it is set, else the
/// key file when it exists, else a new key.
pub open spec fn source_for(config_pem: Seq<char>, file_exists: bool) -> HostKeySource {
    if config_pem.len() > 0 {
        HostKeySource::Configured
    } else if file_exists {
        HostKeySource::StoredFile
    } else {
        HostKeySource::Generated
    }
}

/// Picks the source of the host key.
pub fn host_key_source(config: &AppConfig, file_exists: bool) -> (r: HostKeySource)
    ensures
        r == source_for(config.host_key_pem@, file_exists),
{
    if !config.host_key_pem.as_str().is_empty() {
        HostKeySource::Configured
    } else if file_exists {
        HostKeySource::StoredFile
    } else {
        HostKeySource::Generated
    }
}

/// Whether the key's PEM is (re)written to the key file: for a configured
/// key, so that later starts find it, and for a generated one.
pub fn writes_key_file(source: HostKeySource) -> (r: bool)
    ensures
        r == (source != HostKeySource::StoredFile),
{
    match source {
        HostKeySource::StoredFile => false,
        _ => true,
    }
}

/// Whether the key's PEM is saved into the add-on options: whenever it was
/// not taken from them.
pub fn saves_to_options(source: HostKeySource) -> (r: bool)
    ensures
        r == (source != HostKeySource::Configured),
{
    match source {
        HostKeySource::Configured => false,
        _ => true,
    }
}

/// A host key ready for the SSH server: the key pair, its public key in
/// SSH wire form, its PEM and where it came from.
pub struct HostKey {
    pub key: SshKeyPair,
    pub public_key: Vec<u8>,
    pub pem: String,
    pub source: HostKeySource,
}

/// Why no host key could be had: the PEM could not be decoded.
pub enum HostKeyError {
    Decode(russh_keys::Error),
}

/// What loading the host key yields, given the options' PEM and the key
/// file's content (when the file exists): the key comes from the source
/// `source_for` picks; for the options or the file, its PEM is that text,
/// and loading succeeds exactly when the text decodes; a loaded key's PEM
/// is never empty and decodes to the public key of the pair returned.
pub open spec fn host_key_loaded(
    config_pem: Seq<char>,
    stored_pem: Option<Seq<char>>,
    r: Result<HostKey, HostKeyError>,
) -> bool {
    let source = source_for(config_pem, stored_pem is Some);
    let pem = match source {
        HostKeySource::Configured => config_pem,
        _ => match stored_pem {
            Some(p) => p,
            None => Seq::empty(),
        },
    };
    match r {
        Ok(k) => {
            &&& k.source == source
            &&& k.pem@.len() > 0
            &&& pem_public_key(k.pem@) == Some(k.public_key@)
            &&& k.key.public_key() == k.public_key@
            &&& source != HostKeySource::Generated ==> k.pem@ == pem
        },
        Err(HostKeyError::Decode(_)) => source != HostKeySource::Generated && pem_public_key(pem)
            is None,
    }
}

/// Loads or generates the host key. `stored_pem` is the key file's content
/// where the file exists and the options hold no PEM (the caller reads the
/// file only then). The PEM comes from the options when they hold one, else
/// from the file, else from a newly generated key; a PEM that does not
/// decode is an error.
pub fn load_or_generate_host_key(config: &AppConfig, stored_pem: Option<String>) -> (r: Result<
    HostKey,
    HostKeyError,
>)
    ensures
        host_key_loaded(
            config.host_key_pem@,
            match stored_pem {
                Some(p) => Some(p@),
                None => None,
            },
            r,
        ),
{
    let source = host_key_source(config, stored_pem.is_some());
    match source {
        HostKeySource::Configured => {
            let pem = config.host_key_pem.clone();
            match decode_secret_key(pem.as_str()) {
                Ok(key) => {
                    let public_key = key.public_key_bytes().clone();
                    Ok(HostKey { key, public_key, pem, source })
                },
                Err(e) => Err(HostKeyError::Decode(e)),
            }
        },
        HostKeySource::StoredFile => {
            let pem = match stored_pem {
                Some(p) => p,
                None => String::new(),
            };
            match decode_secret_key(pem.as_str()) {
                Ok(key) => {
                    let public_key = key.public_key_bytes().clone();
                    Ok(HostKey { key, public_key, pem, source })
                },
                Err(e) => Err(HostKeyError::Decode(e)),
            }
        },
        HostKeySource::Generated => {
            let key = generate_ed25519().unwrap();
            let pem = encode_pkcs8_pem(&key).unwrap();
            let public_key = key.public_key_bytes().clone();
            Ok(HostKey { key, public_key, pem, source })
        },
    }
}

/// Keeps the host key's PEM in the options, for backup and migration.
pub fn remember_host_key(config: &mut AppConfig, pem: &str)
    ensures
        final(config).host_key_pem@ == pem@,
        final(config).ssh_port == old(config).ssh_port,
        final(config).webhook_url == old(config).webhook_url,
        final(config).home_latitude_bits == old(config).home_latitude_bits,
        final(config).home_longitude_bits == old(config).home_longitude_bits,
        final(config).geofence_radius_km_bits == old(config).geofence_radius_km_bits,
        final(config).geofence_override_timeout_sec == old(config).geofence_override_timeout_sec,
        final(config).tofu_timeout_sec == old(config).tofu_timeout_sec,
        final(config).untrusted_key_retention_days == old(config).untrusted_key_retention_days,
        final(config).expected_json_version == old(config).expected_json_version,
        final(config).log_level == old(config).log_level,
{
    config.host_key_pem = pem.to_owned();
}

} // verus!
