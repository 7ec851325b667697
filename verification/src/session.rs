//! The per-connection SSH session: what the client authenticated with and
//! the data it sent, up to the moment the connection is processed.

use vstd::prelude::*;
use vstd::string::*;
use crate::connection::ConnectionAttempt;
use crate::keys::{
    compute_fingerprint, encode_public_key, fingerprint_text, key_kind_text, key_type_string,
    public_key_text, KeyKind,
};
use crate::sanitize::{sanitizable, sanitized, try_sanitize_short_string, MAX_SHORT_TEXT_BYTES};

verus! {

/// Data received on a channel is kept while less than this many bytes have
/// accumulated.
pub const MAX_STDIN_BYTES: usize = 65536;

/// A client's SSH connection as the server tracks it.
#[derive(Debug)]
pub struct SshSession {
    pub client_ip: String,
    pub authenticated_fingerprint: Option<String>,
    pub ssh_username: String,
    pub public_key_str: String,
    pub key_type: String,
    pub stdin_data: Vec<u8>,
}

/// The answer to an authentication request.
#[derive(Debug, Clone, Copy, PartialEq, Eq, Structural)]
pub enum AuthReply {
    /// Refused; the client may go on with public-key authentication only.
    RejectPublicKeyOnly,
    Accept,
}

/// What processing a connection starts with.
#[derive(Debug)]
pub enum ProcessStart {
    /// No key was authenticated: send `response` and stop.
    NotAuthenticated { response: String },
    /// Process this attempt.
    Ready(ConnectionAttempt),
}

/// The label of a client: its address, or "unknown".
pub open spec fn peer_label(peer: Option<Seq<char>>) -> Seq<char> {
    match peer {
        Some(a) => a,
        None => "unknown"@,
    }
}

/// The effect `begin_processing` states: without an authenticated key the
/// client is told so and nothing changes; otherwise the attempt is handed
/// out and the fingerprint taken.
pub open spec fn processing_started(s0: SshSession, s1: SshSession, r: ProcessStart) -> bool {
    match s0.authenticated_fingerprint {
        None => {
            &&& r matches ProcessStart::NotAuthenticated { response } && response@
                == "ERROR: No key authenticated\n"@
            &&& s1 == s0
        },
        Some(fp) => {
            &&& r matches ProcessStart::Ready(a) && a == (ConnectionAttempt {
                fingerprint: fp,
                public_key: s0.public_key_str,
                key_type: s0.key_type,
                ssh_username: s0.ssh_username,
                client_ip: s0.client_ip,
            })
            &&& s1.authenticated_fingerprint is None
            &&& s1.stdin_data == s0.stdin_data
            &&& s1.ssh_username == s0.ssh_username
            &&& s1.client_ip == s0.client_ip
        },
    }
}

impl SshSession {
    /// A session for a new client connecting from `peer_addr`.
    pub fn new(peer_addr: Option<String>) -> (r: SshSession)
        ensures
            r.client_ip@ == peer_label(
                match peer_addr {
                    Some(a) => Some(a@),
                    None => None,
                },
            ),
            r.authenticated_fingerprint is None,
            r.ssh_username@ == Seq::<char>::empty(),
            r.public_key_str@ == Seq::<char>::empty(),
            r.key_type@ == Seq::<char>::empty(),
            r.stdin_data@ == Seq::<u8>::empty(),
    {
        let client_ip = match peer_addr {
            Some(a) => a,
            None => {
                proof { reveal_strlit("unknown"); }
                String::from_str("unknown")
            },
        };
        SshSession {
            client_ip,
            authenticated_fingerprint: None,
            ssh_username: String::new(),
            public_key_str: String::new(),
            key_type: String::new(),
            stdin_data: Vec::new(),
        }
    }

    /// Authentication without credentials: the sanitized user name is
    /// remembered and the request refused. `None` (nothing changed) where
    /// the name cannot be sanitized without cutting a character.
    pub fn auth_none(&mut self, user: &str) -> (r: Option<AuthReply>)
        ensures
            r is Some <==> sanitizable(user@, MAX_SHORT_TEXT_BYTES as nat),
            r is Some ==> r == Some(AuthReply::RejectPublicKeyOnly) && final(self).ssh_username@
                == sanitized(user@, MAX_SHORT_TEXT_BYTES as nat),
            r is None ==> *final(self) == *old(self),
            final(self).authenticated_fingerprint == old(self).authenticated_fingerprint,
            final(self).stdin_data == old(self).stdin_data,
            final(self).public_key_str == old(self).public_key_str,
            final(self).key_type == old(self).key_type,
            final(self).client_ip == old(self).client_ip,
    {
        match try_sanitize_short_string(user) {
            Some(name) => {
                self.ssh_username = name;
                Some(AuthReply::RejectPublicKeyOnly)
            },
            None => None,
        }
    }

    /// Password authentication: never accepted; the sanitized user name is
    /// remembered. `None` (nothing changed) where the name cannot be
    /// sanitized.
    pub fn auth_password(&mut self, user: &str, _password: &str) -> (r: Option<AuthReply>)
        ensures
            r is Some <==> sanitizable(user@, MAX_SHORT_TEXT_BYTES as nat),
            r is Some ==> r == Some(AuthReply::RejectPublicKeyOnly) && final(self).ssh_username@
                == sanitized(user@, MAX_SHORT_TEXT_BYTES as nat),
            r is None ==> *final(self) == *old(self),
            final(self).authenticated_fingerprint == old(self).authenticated_fingerprint,
            final(self).stdin_data == old(self).stdin_data,
            final(self).public_key_str == old(self).public_key_str,
            final(self).key_type == old(self).key_type,
            final(self).client_ip == old(self).client_ip,
    {
        self.auth_none(user)
    }

    /// Public-key authentication: always accepted (trust is decided when the
    /// data is processed); the sanitized user name, the key's fingerprint,
    /// its authorized_keys form and its type are remembered. `None` (nothing
    /// changed) where the name cannot be sanitized.
    pub fn auth_publickey(&mut self, user: &str, kind: KeyKind, key_bytes: &[u8]) -> (r: Option<
        AuthReply,
    >)
        ensures
            r is Some <==> sanitizable(user@, MAX_SHORT_TEXT_BYTES as nat),
            r is None ==> *final(self) == *old(self),
            r is Some ==> {
                &&& r == Some(AuthReply::Accept)
                &&& final(self).ssh_username@ == sanitized(user@, MAX_SHORT_TEXT_BYTES as nat)
                &&& final(self).authenticated_fingerprint matches Some(fp) && fp@ == fingerprint_text(
                    key_bytes@,
                )
                &&& final(self).public_key_str@ == public_key_text(kind, key_bytes@)
                &&& final(self).key_type@ == key_kind_text(kind)
                &&& final(self).stdin_data == old(self).stdin_data
                &&& final(self).client_ip == old(self).client_ip
            },
    {
        match try_sanitize_short_string(user) {
            Some(name) => {
                self.ssh_username = name;
                let fingerprint = compute_fingerprint(key_bytes);
                self.public_key_str = encode_public_key(kind, key_bytes);
                self.key_type = key_type_string(kind);
                self.authenticated_fingerprint = Some(fingerprint);
                Some(AuthReply::Accept)
            },
            None => None,
        }
    }

    /// Data on the channel: appended while less than 64 KiB have been kept.
    pub fn data(&mut self, data: &[u8])
        ensures
            final(self).stdin_data@ == if old(self).stdin_data@.len() < MAX_STDIN_BYTES {
                old(self).stdin_data@ + data@
            } else {
                old(self).stdin_data@
            },
            final(self).authenticated_fingerprint == old(self).authenticated_fingerprint,
            final(self).ssh_username == old(self).ssh_username,
            final(self).public_key_str == old(self).public_key_str,
            final(self).key_type == old(self).key_type,
            final(self).client_ip == old(self).client_ip,
    {
        if self.stdin_data.len() < MAX_STDIN_BYTES {
            self.stdin_data.extend_from_slice(data);
            assert(self.stdin_data@ =~= old(self).stdin_data@ + data@);
        }
    }

    /// Data sent with an exec request: always appended.
    pub fn exec_request(&mut self, data: &[u8])
        ensures
            final(self).stdin_data@ == old(self).stdin_data@ + data@,
            final(self).authenticated_fingerprint == old(self).authenticated_fingerprint,
            final(self).ssh_username == old(self).ssh_username,
            final(self).public_key_str == old(self).public_key_str,
            final(self).key_type == old(self).key_type,
            final(self).client_ip == old(self).client_ip,
    {
        self.stdin_data.extend_from_slice(data);
        assert(self.stdin_data@ =~= old(self).stdin_data@ + data@);
    }

    /// Whether the end of the client's data should trigger processing: only
    /// once a key is authenticated.
    pub fn process_on_eof(&self) -> (r: bool)
        ensures
            r == self.authenticated_fingerprint is Some,
    {
        self.authenticated_fingerprint.is_some()
    }

    /// Starts processing the connection: without an authenticated key the
    /// client is told so; otherwise the fingerprint is taken, so that the
    /// connection is processed only once.
    pub fn begin_processing(&mut self) -> (r: ProcessStart)
        ensures
            processing_started(*old(self), *final(self), r),
    {
        match self.authenticated_fingerprint.take() {
            None => ProcessStart::NotAuthenticated {
                response: String::from_str("ERROR: No key authenticated\n"),
            },
            Some(fp) => ProcessStart::Ready(
                ConnectionAttempt {
                    fingerprint: fp,
                    public_key: self.public_key_str.clone(),
                    key_type: self.key_type.clone(),
                    ssh_username: self.ssh_username.clone(),
                    client_ip: self.client_ip.clone(),
                },
            ),
        }
    }
}

} // verus!
