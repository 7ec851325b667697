//! The server's persistent state: trusted and pending keys, the connection
//! log, trust on first use and geofence overrides.

use vstd::prelude::*;
use vstd::string::*;
use crate::keys::{
    distinct_fingerprints, index_of, lemma_index_contains, new_key_id, trusted_fingerprints,
    trusted_index, untrusted_fingerprints, untrusted_index, uuid_v4, TrustedKey, UntrustedKey,
};
use crate::log::ConnectionLogEntry;
use crate::overrides::{kept_after, OverrideTable};
use crate::payload::ClientPayload;
use crate::time::{
    clock_reading, current_timestamp, days_before, days_cutoff, seconds_before, seconds_cutoff,
    whole_seconds_between, whole_seconds_since, wrap_i64, wrapped_as_i64, Timestamp,
};
use crate::tofu::{TofuState, DEFAULT_TOFU_TIMEOUT_SECS};
use crate::connection::lemma_recorded_present;
use crate::laws::law_recording_keeps_fingerprints_distinct;

verus! {

/// Number of most recent log entries the state keeps.
pub const MAX_LOG_ENTRIES: usize = 10000;

/// Persistent application state.
#[derive(Debug)]
pub struct AppState {
    pub trusted_keys: Vec<TrustedKey>,
    pub untrusted_keys: Vec<UntrustedKey>,
    pub connection_log: Vec<ConnectionLogEntry>,
    pub tofu: TofuState,
    pub geofence_overrides: OverrideTable,
}

/// Why a key operation did not apply; each carries the fingerprint asked
/// for.
#[derive(Debug)]
pub enum StateError {
    KeyNotFound(String),
    TrustedKeyNotFound(String),
    UntrustedKeyNotFound(String),
}

/// The message of a key operation error.
pub open spec fn state_error_text(e: StateError) -> Seq<char> {
    match e {
        StateError::KeyNotFound(fp) => "Key not found: "@ + fp@,
        StateError::TrustedKeyNotFound(fp) => "Trusted key not found: "@ + fp@,
        StateError::UntrustedKeyNotFound(fp) => "Untrusted key not found: "@ + fp@,
    }
}

impl StateError {
    /// The error's message.
    pub fn message(&self) -> (r: String)
        ensures
            r@ == state_error_text(*self),
    {
        match self {
            StateError::KeyNotFound(fp) => {
                let mut s = String::from_str("Key not found: ");
                s.append(fp.as_str());
                s
            },
            StateError::TrustedKeyNotFound(fp) => {
                let mut s = String::from_str("Trusted key not found: ");
                s.append(fp.as_str());
                s
            },
            StateError::UntrustedKeyNotFound(fp) => {
                let mut s = String::from_str("Untrusted key not found: ");
                s.append(fp.as_str());
                s
            },
        }
    }
}

/// The pending keys after a connection by `fingerprint`: a known key has
/// its last sighting, attempt count, user name and (when one came) payload
/// updated; an unknown key is appended.
pub open spec fn recorded_keys(
    keys: Seq<UntrustedKey>,
    fingerprint: String,
    public_key: String,
    key_type: String,
    ssh_username: String,
    payload: Option<ClientPayload>,
    now: Timestamp,
    id: u128,
) -> Seq<UntrustedKey> {
    match index_of(untrusted_fingerprints(keys), fingerprint@) {
        Some(i) => keys.update(
            i,
            UntrustedKey {
                id: keys[i].id,
                fingerprint: keys[i].fingerprint,
                public_key: keys[i].public_key,
                key_type: keys[i].key_type,
                ssh_username,
                first_seen: keys[i].first_seen,
                last_seen: now,
                attempt_count: (keys[i].attempt_count + 1) as u64,
                last_payload: if payload is Some {
                    payload
                } else {
                    keys[i].last_payload
                },
            },
        ),
        None => keys.push(
            UntrustedKey {
                id,
                fingerprint,
                public_key,
                key_type,
                ssh_username,
                first_seen: now,
                last_seen: now,
                attempt_count: 1,
                last_payload: payload,
            },
        ),
    }
}

/// Recording a known key raises its attempt count, which must not be at
/// its maximum.
pub open spec fn can_record(keys: Seq<UntrustedKey>, fingerprint: Seq<char>) -> bool {
    match index_of(untrusted_fingerprints(keys), fingerprint) {
        Some(i) => keys[i].attempt_count < u64::MAX,
        None => true,
    }
}

/// The trusted record made from a pending key.
pub open spec fn trusted_from(
    k: UntrustedKey,
    username: String,
    device_name: String,
    now: Timestamp,
    id: u128,
) -> TrustedKey {
    TrustedKey {
        id,
        fingerprint: k.fingerprint,
        public_key: k.public_key,
        key_type: k.key_type,
        username,
        device_name,
        trusted_at: now,
        last_used: None,
        use_count: 0,
    }
}

/// The log after appending `entry`: only the last 10000 entries are kept.
pub open spec fn appended_log(log: Seq<ConnectionLogEntry>, entry: ConnectionLogEntry) -> Seq<
    ConnectionLogEntry,
> {
    let l = log.push(entry);
    if l.len() > MAX_LOG_ENTRIES {
        l.subrange(l.len() - MAX_LOG_ENTRIES, l.len() as int)
    } else {
        l
    }
}

/// The pending keys last seen strictly after `cutoff`, in order.
pub open spec fn keys_seen_after(keys: Seq<UntrustedKey>, cutoff: Timestamp) -> Seq<UntrustedKey>
    decreases keys.len(),
{
    if keys.len() == 0 {
        Seq::empty()
    } else {
        let rest = keys_seen_after(keys.drop_last(), cutoff);
        if cutoff.precedes(keys.last().last_seen) {
            rest.push(keys.last())
        } else {
            rest
        }
    }
}

/// The trusted keys after a successful connection by `fingerprint`: the
/// first such key has its last use set to `now` and its use count raised.
pub open spec fn keys_after_use(keys: Seq<TrustedKey>, fingerprint: Seq<char>, now: Timestamp) -> Seq<
    TrustedKey,
> {
    match index_of(trusted_fingerprints(keys), fingerprint) {
        Some(i) => keys.update(
            i,
            TrustedKey {
                last_used: Some(now),
                use_count: (keys[i].use_count + 1) as u64,
                ..keys[i]
            },
        ),
        None => keys,
    }
}

/// Recording a use raises the key's use count, which must not be at its
/// maximum.
pub open spec fn can_record_use(keys: Seq<TrustedKey>, fingerprint: Seq<char>) -> bool {
    match index_of(trusted_fingerprints(keys), fingerprint) {
        Some(i) => keys[i].use_count < u64::MAX,
        None => true,
    }
}

/// A geofence override check: expired first attempts are dropped at
/// `cleanup_at`; a first attempt still recorded for the key that lies fewer
/// than `timeout_sec` whole seconds before `check_at` grants the override
/// and is consumed; otherwise the attempt is recorded at `record_at`.
pub open spec fn override_decision(
    table: Map<Seq<char>, Timestamp>,
    fingerprint: Seq<char>,
    timeout_sec: u64,
    cleanup_at: Timestamp,
    check_at: Timestamp,
    record_at: Timestamp,
) -> (bool, Map<Seq<char>, Timestamp>) {
    let kept = kept_after(table, seconds_before(cleanup_at, timeout_sec)->0);
    if kept.dom().contains(fingerprint) && whole_seconds_between(check_at, kept[fingerprint])
        < wrap_i64(timeout_sec) {
        (true, kept.remove(fingerprint))
    } else {
        (false, kept.insert(fingerprint, record_at))
    }
}

impl AppState {
    /// An empty state: no keys, no log, trust on first use off.
    pub fn new() -> (r: AppState)
        ensures
            r.trusted_keys@ == Seq::<TrustedKey>::empty(),
            r.untrusted_keys@ == Seq::<UntrustedKey>::empty(),
            r.connection_log@ == Seq::<ConnectionLogEntry>::empty(),
            r.tofu == (TofuState { active: false, activated_at: None, timeout_sec: DEFAULT_TOFU_TIMEOUT_SECS }),
            r.geofence_overrides@ == Map::<Seq<char>, Timestamp>::empty(),
    {
        AppState {
            trusted_keys: Vec::new(),
            untrusted_keys: Vec::new(),
            connection_log: Vec::new(),
            tofu: TofuState::default(),
            geofence_overrides: OverrideTable::new(),
        }
    }

    /// The first trusted key with the given fingerprint.
    pub fn find_trusted_key(&self, fingerprint: &str) -> (r: Option<&TrustedKey>)
        ensures
            match index_of(trusted_fingerprints(self.trusted_keys@), fingerprint@) {
                Some(i) => r == Some(&self.trusted_keys@[i]),
                None => r is None,
            },
    {
        match trusted_index(&self.trusted_keys, fingerprint) {
            Some(i) => Some(&self.trusted_keys[i]),
            None => None,
        }
    }

    /// The first trusted key with the given fingerprint, for updating in
    /// place.
    pub fn find_trusted_key_mut(&mut self, fingerprint: &str) -> (r: Option<&mut TrustedKey>)
        ensures
            match index_of(trusted_fingerprints(old(self).trusted_keys@), fingerprint@) {
                Some(i) => {
                    &&& r is Some
                    &&& *r->0 == old(self).trusted_keys@[i]
                    &&& final(self).trusted_keys@ == old(self).trusted_keys@.update(i, *final(r->0))
                },
                None => r is None && final(self).trusted_keys == old(self).trusted_keys,
            },
            final(self).untrusted_keys == old(self).untrusted_keys,
            final(self).connection_log == old(self).connection_log,
            final(self).tofu == old(self).tofu,
            final(self).geofence_overrides == old(self).geofence_overrides,
    {
        match trusted_index(&self.trusted_keys, fingerprint) {
            Some(i) => Some(&mut self.trusted_keys[i]),
            None => None,
        }
    }

    /// The first pending key with the given fingerprint.
    pub fn find_untrusted_key(&self, fingerprint: &str) -> (r: Option<&UntrustedKey>)
        ensures
            match index_of(untrusted_fingerprints(self.untrusted_keys@), fingerprint@) {
                Some(i) => r == Some(&self.untrusted_keys@[i]),
                None => r is None,
            },
    {
        match untrusted_index(&self.untrusted_keys, fingerprint) {
            Some(i) => Some(&self.untrusted_keys[i]),
            None => None,
        }
    }
}

impl AppState {
    /// Records a connection by a key: a known pending key has its last
    /// sighting, attempt count, user name and (when one came) payload
    /// updated; an unknown key is added with identifier `id`.
    pub fn record_untrusted_key_at(
        &mut self,
        fingerprint: String,
        public_key: String,
        key_type: String,
        ssh_username: String,
        payload: Option<ClientPayload>,
        now: Timestamp,
        id: u128,
    )
        requires
            can_record(old(self).untrusted_keys@, fingerprint@),
        ensures
            final(self).untrusted_keys@ == recorded_keys(
                old(self).untrusted_keys@,
                fingerprint,
                public_key,
                key_type,
                ssh_username,
                payload,
                now,
                id,
            ),
            untrusted_fingerprints(final(self).untrusted_keys@).contains(fingerprint@),
            distinct_fingerprints(untrusted_fingerprints(old(self).untrusted_keys@))
                ==> distinct_fingerprints(untrusted_fingerprints(final(self).untrusted_keys@)),
            final(self).trusted_keys == old(self).trusted_keys,
            final(self).connection_log == old(self).connection_log,
            final(self).tofu == old(self).tofu,
            final(self).geofence_overrides == old(self).geofence_overrides,
    {
        proof {
            lemma_recorded_present(
                old(self).untrusted_keys@,
                fingerprint,
                public_key,
                key_type,
                ssh_username,
                payload,
                now,
                id,
            );
            lemma_index_contains(
                untrusted_fingerprints(
                    recorded_keys(
                        old(self).untrusted_keys@,
                        fingerprint,
                        public_key,
                        key_type,
                        ssh_username,
                        payload,
                        now,
                        id,
                    ),
                ),
                fingerprint@,
            );
            if distinct_fingerprints(untrusted_fingerprints(old(self).untrusted_keys@)) {
                law_recording_keeps_fingerprints_distinct(
                    old(self).untrusted_keys@,
                    fingerprint,
                    public_key,
                    key_type,
                    ssh_username,
                    payload,
                    now,
                    id,
                );
            }
        }
        match untrusted_index(&self.untrusted_keys, fingerprint.as_str()) {
            Some(i) => {
                let ghost k = self.untrusted_keys@[i as int];
                let count = self.untrusted_keys[i].attempt_count;
                self.untrusted_keys[i].last_seen = now;
                self.untrusted_keys[i].attempt_count = count + 1;
                self.untrusted_keys[i].ssh_username = ssh_username;
                if payload.is_some() {
                    self.untrusted_keys[i].last_payload = payload;
                }
                assert(self.untrusted_keys@ =~= recorded_keys(
                    old(self).untrusted_keys@,
                    fingerprint,
                    public_key,
                    key_type,
                    ssh_username,
                    payload,
                    now,
                    id,
                ));
            },
            None => {
                self.untrusted_keys.push(
                    UntrustedKey {
                        id,
                        fingerprint,
                        public_key,
                        key_type,
                        ssh_username,
                        first_seen: now,
                        last_seen: now,
                        attempt_count: 1,
                        last_payload: payload,
                    },
                );
            },
        }
    }

    /// Records a connection by a key, at the current time; a new key gets a
    /// fresh random identifier.
    pub fn record_untrusted_key(
        &mut self,
        fingerprint: String,
        public_key: String,
        key_type: String,
        ssh_username: String,
        payload: Option<ClientPayload>,
    )
        requires
            can_record(old(self).untrusted_keys@, fingerprint@),
        ensures
            exists|now: Timestamp, id: u128|
                clock_reading(now) && uuid_v4(id) && final(self).untrusted_keys@ == recorded_keys(
                    old(self).untrusted_keys@,
                    fingerprint,
                    public_key,
                    key_type,
                    ssh_username,
                    payload,
                    now,
                    id,
                ),
            untrusted_fingerprints(final(self).untrusted_keys@).contains(fingerprint@),
            distinct_fingerprints(untrusted_fingerprints(old(self).untrusted_keys@))
                ==> distinct_fingerprints(untrusted_fingerprints(final(self).untrusted_keys@)),
            final(self).trusted_keys == old(self).trusted_keys,
            final(self).connection_log == old(self).connection_log,
            final(self).tofu == old(self).tofu,
            final(self).geofence_overrides == old(self).geofence_overrides,
    {
        let now = current_timestamp();
        let id = new_key_id();
        self.record_untrusted_key_at(fingerprint, public_key, key_type, ssh_username, payload, now, id);
    }

    /// Moves the first pending key with `fingerprint` to the trusted keys,
    /// under the given user and device names, trusted at `now` with
    /// identifier `id`.
    pub fn trust_key_at(
        &mut self,
        fingerprint: &str,
        username: String,
        device_name: String,
        now: Timestamp,
        id: u128,
    ) -> (r: Result<(), StateError>)
        ensures
            match index_of(untrusted_fingerprints(old(self).untrusted_keys@), fingerprint@) {
                Some(i) => {
                    &&& r is Ok
                    &&& final(self).untrusted_keys@ == old(self).untrusted_keys@.remove(i)
                    &&& final(self).trusted_keys@ == old(self).trusted_keys@.push(
                        trusted_from(old(self).untrusted_keys@[i], username, device_name, now, id),
                    )
                },
                None => {
                    &&& r matches Err(StateError::KeyNotFound(fp)) && fp@ == fingerprint@
                    &&& final(self).untrusted_keys == old(self).untrusted_keys
                    &&& final(self).trusted_keys == old(self).trusted_keys
                },
            },
            final(self).connection_log == old(self).connection_log,
            final(self).tofu == old(self).tofu,
            final(self).geofence_overrides == old(self).geofence_overrides,
    {
        match untrusted_index(&self.untrusted_keys, fingerprint) {
            Some(i) => {
                let key = self.untrusted_keys.remove(i);
                self.trusted_keys.push(
                    TrustedKey {
                        id,
                        fingerprint: key.fingerprint,
                        public_key: key.public_key,
                        key_type: key.key_type,
                        username,
                        device_name,
                        trusted_at: now,
                        last_used: None,
                        use_count: 0,
                    },
                );
                Ok(())
            },
            None => Err(StateError::KeyNotFound(fingerprint.to_owned())),
        }
    }

    /// Moves the first pending key with `fingerprint` to the trusted keys,
    /// trusted now with a fresh random identifier.
    pub fn trust_key(&mut self, fingerprint: &str, username: String, device_name: String) -> (r:
        Result<(), StateError>)
        ensures
            match index_of(untrusted_fingerprints(old(self).untrusted_keys@), fingerprint@) {
                Some(i) => {
                    &&& r is Ok
                    &&& final(self).untrusted_keys@ == old(self).untrusted_keys@.remove(i)
                    &&& exists|now: Timestamp, id: u128|
                        clock_reading(now) && uuid_v4(id) && final(self).trusted_keys@
                            == old(self).trusted_keys@.push(
                            trusted_from(
                                old(self).untrusted_keys@[i],
                                username,
                                device_name,
                                now,
                                id,
                            ),
                        )
                },
                None => {
                    &&& r matches Err(StateError::KeyNotFound(fp)) && fp@ == fingerprint@
                    &&& final(self).untrusted_keys == old(self).untrusted_keys
                    &&& final(self).trusted_keys == old(self).trusted_keys
                },
            },
            final(self).connection_log == old(self).connection_log,
            final(self).tofu == old(self).tofu,
            final(self).geofence_overrides == old(self).geofence_overrides,
    {
        if untrusted_index(&self.untrusted_keys, fingerprint).is_none() {
            return Err(StateError::KeyNotFound(fingerprint.to_owned()));
        }
        let id = new_key_id();
        let now = current_timestamp();
        self.trust_key_at(fingerprint, username, device_name, now, id)
    }

    /// Removes the first trusted key with `fingerprint`.
    pub fn revoke_key(&mut self, fingerprint: &str) -> (r: Result<(), StateError>)
        ensures
            match index_of(trusted_fingerprints(old(self).trusted_keys@), fingerprint@) {
                Some(i) => r is Ok && final(self).trusted_keys@ == old(self).trusted_keys@.remove(i),
                None => {
                    &&& r matches Err(StateError::TrustedKeyNotFound(fp)) && fp@ == fingerprint@
                    &&& final(self).trusted_keys == old(self).trusted_keys
                },
            },
            final(self).untrusted_keys == old(self).untrusted_keys,
            final(self).connection_log == old(self).connection_log,
            final(self).tofu == old(self).tofu,
            final(self).geofence_overrides == old(self).geofence_overrides,
    {
        match trusted_index(&self.trusted_keys, fingerprint) {
            Some(i) => {
                self.trusted_keys.remove(i);
                Ok(())
            },
            None => Err(StateError::TrustedKeyNotFound(fingerprint.to_owned())),
        }
    }

    /// Removes the first pending key with `fingerprint`.
    pub fn delete_untrusted_key(&mut self, fingerprint: &str) -> (r: Result<(), StateError>)
        ensures
            match index_of(untrusted_fingerprints(old(self).untrusted_keys@), fingerprint@) {
                Some(i) => r is Ok && final(self).untrusted_keys@ == old(
                    self,
                ).untrusted_keys@.remove(i),
                None => {
                    &&& r matches Err(StateError::UntrustedKeyNotFound(fp)) && fp@ == fingerprint@
                    &&& final(self).untrusted_keys == old(self).untrusted_keys
                },
            },
            final(self).trusted_keys == old(self).trusted_keys,
            final(self).connection_log == old(self).connection_log,
            final(self).tofu == old(self).tofu,
            final(self).geofence_overrides == old(self).geofence_overrides,
    {
        match untrusted_index(&self.untrusted_keys, fingerprint) {
            Some(i) => {
                self.untrusted_keys.remove(i);
                Ok(())
            },
            None => Err(StateError::UntrustedKeyNotFound(fingerprint.to_owned())),
        }
    }

    /// Appends an entry to the connection log, keeping the last 10000.
    pub fn log_connection(&mut self, entry: ConnectionLogEntry)
        ensures
            final(self).connection_log@ == appended_log(old(self).connection_log@, entry),
            final(self).trusted_keys == old(self).trusted_keys,
            final(self).untrusted_keys == old(self).untrusted_keys,
            final(self).tofu == old(self).tofu,
            final(self).geofence_overrides == old(self).geofence_overrides,
    {
        self.connection_log.push(entry);
        let len = self.connection_log.len();
        if len > MAX_LOG_ENTRIES {
            let kept = self.connection_log.split_off(len - MAX_LOG_ENTRIES);
            self.connection_log = kept;
        }
    }

    /// Removes the pending keys not seen after `now` minus `retention_days`
    /// days.
    pub fn cleanup_expired_keys_at(&mut self, retention_days: u64, now: Timestamp)
        requires
            days_before(now, retention_days) is Some,
        ensures
            final(self).untrusted_keys@ == keys_seen_after(
                old(self).untrusted_keys@,
                days_before(now, retention_days)->0,
            ),
            final(self).trusted_keys == old(self).trusted_keys,
            final(self).connection_log == old(self).connection_log,
            final(self).tofu == old(self).tofu,
            final(self).geofence_overrides == old(self).geofence_overrides,
    {
        let cutoff = match days_cutoff(now, retention_days) {
            Some(c) => c,
            None => return,
        };
        let ghost orig = self.untrusted_keys@;
        let mut src: Vec<UntrustedKey> = Vec::new();
        std::mem::swap(&mut src, &mut self.untrusted_keys);
        let mut out: Vec<UntrustedKey> = Vec::new();
        let ghost mut k: int = 0;
        while src.len() > 0
            invariant
                0 <= k <= orig.len(),
                src@ == orig.subrange(k, orig.len() as int),
                out@ == keys_seen_after(orig.subrange(0, k), cutoff),
            decreases src.len(),
        {
            let key = src.remove(0);
            assert(key == orig[k]);
            assert(orig.subrange(0, k + 1).drop_last() =~= orig.subrange(0, k));
            if cutoff.is_before(&key.last_seen) {
                out.push(key);
            }
            proof {
                k = k + 1;
            }
        }
        assert(orig.subrange(0, k) =~= orig);
        self.untrusted_keys = out;
    }

    /// Removes the pending keys not seen within the last `retention_days`
    /// days, by the system clock.
    pub fn cleanup_expired_keys(&mut self, retention_days: u64)
        requires
            forall|t: Timestamp| clock_reading(t) ==> days_before(t, retention_days) is Some,
        ensures
            exists|now: Timestamp|
                clock_reading(now) && final(self).untrusted_keys@ == keys_seen_after(
                    old(self).untrusted_keys@,
                    days_before(now, retention_days)->0,
                ),
            final(self).trusted_keys == old(self).trusted_keys,
            final(self).connection_log == old(self).connection_log,
            final(self).tofu == old(self).tofu,
            final(self).geofence_overrides == old(self).geofence_overrides,
    {
        let now = current_timestamp();
        self.cleanup_expired_keys_at(retention_days, now);
    }

    /// Drops geofence first attempts not made after `now` minus
    /// `timeout_sec` seconds.
    pub fn cleanup_geofence_overrides_at(&mut self, timeout_sec: u64, now: Timestamp)
        requires
            seconds_before(now, timeout_sec) is Some,
        ensures
            final(self).geofence_overrides@ == kept_after(
                old(self).geofence_overrides@,
                seconds_before(now, timeout_sec)->0,
            ),
            final(self).trusted_keys == old(self).trusted_keys,
            final(self).untrusted_keys == old(self).untrusted_keys,
            final(self).connection_log == old(self).connection_log,
            final(self).tofu == old(self).tofu,
    {
        match seconds_cutoff(now, timeout_sec) {
            Some(cutoff) => self.geofence_overrides.retain_after(cutoff),
            None => {},
        }
    }

    /// Drops geofence first attempts older than `timeout_sec` seconds, by
    /// the system clock.
    pub fn cleanup_geofence_overrides(&mut self, timeout_sec: u64)
        requires
            forall|t: Timestamp| clock_reading(t) ==> seconds_before(t, timeout_sec) is Some,
        ensures
            exists|now: Timestamp|
                clock_reading(now) && final(self).geofence_overrides@ == kept_after(
                    old(self).geofence_overrides@,
                    seconds_before(now, timeout_sec)->0,
                ),
            final(self).trusted_keys == old(self).trusted_keys,
            final(self).untrusted_keys == old(self).untrusted_keys,
            final(self).connection_log == old(self).connection_log,
            final(self).tofu == old(self).tofu,
    {
        let now = current_timestamp();
        self.cleanup_geofence_overrides_at(timeout_sec, now);
    }

    fn override_step(
        &mut self,
        fingerprint: &str,
        timeout_sec: u64,
        cleanup_at: Timestamp,
        check_at: Timestamp,
        record_at: Timestamp,
    ) -> (r: bool)
        requires
            seconds_before(cleanup_at, timeout_sec) is Some,
            check_at.wf(),
            record_at.wf(),
        ensures
            (r, final(self).geofence_overrides@) == override_decision(
                old(self).geofence_overrides@,
                fingerprint@,
                timeout_sec,
                cleanup_at,
                check_at,
                record_at,
            ),
            final(self).trusted_keys == old(self).trusted_keys,
            final(self).untrusted_keys == old(self).untrusted_keys,
            final(self).connection_log == old(self).connection_log,
            final(self).tofu == old(self).tofu,
    {
        self.cleanup_geofence_overrides_at(timeout_sec, cleanup_at);
        if let Some(first_attempt) = self.geofence_overrides.get(fingerprint) {
            let elapsed = whole_seconds_since(check_at, first_attempt);
            if (elapsed as i128) < wrapped_as_i64(timeout_sec) {
                self.geofence_overrides.remove(fingerprint);
                return true;
            }
        }
        self.geofence_overrides.insert(fingerprint.to_owned(), record_at);
        false
    }

    /// Decides a geofence override at `now`: expired first attempts are
    /// dropped; a first attempt by the key fewer than `timeout_sec` whole
    /// seconds ago grants the override (and is consumed); otherwise this
    /// attempt is recorded as the key's first.
    pub fn check_geofence_override_at(&mut self, fingerprint: &str, timeout_sec: u64, now: Timestamp) -> (r:
        bool)
        requires
            seconds_before(now, timeout_sec) is Some,
            now.wf(),
        ensures
            (r, final(self).geofence_overrides@) == override_decision(
                old(self).geofence_overrides@,
                fingerprint@,
                timeout_sec,
                now,
                now,
                now,
            ),
            final(self).trusted_keys == old(self).trusted_keys,
            final(self).untrusted_keys == old(self).untrusted_keys,
            final(self).connection_log == old(self).connection_log,
            final(self).tofu == old(self).tofu,
    {
        self.override_step(fingerprint, timeout_sec, now, now, now)
    }

    /// Decides a geofence override by the system clock, read once to drop
    /// expired attempts, once to measure the elapsed time and once to record
    /// a new first attempt.
    pub fn check_geofence_override(&mut self, fingerprint: &str, timeout_sec: u64) -> (r: bool)
        requires
            forall|t: Timestamp| clock_reading(t) ==> seconds_before(t, timeout_sec) is Some,
        ensures
            exists|t1: Timestamp, t2: Timestamp, t3: Timestamp|
                clock_reading(t1) && clock_reading(t2) && clock_reading(t3) && (
                r,
                final(self).geofence_overrides@,
            ) == override_decision(
                old(self).geofence_overrides@,
                fingerprint@,
                timeout_sec,
                t1,
                t2,
                t3,
            ),
            final(self).trusted_keys == old(self).trusted_keys,
            final(self).untrusted_keys == old(self).untrusted_keys,
            final(self).connection_log == old(self).connection_log,
            final(self).tofu == old(self).tofu,
    {
        let t1 = current_timestamp();
        let t2 = current_timestamp();
        let t3 = current_timestamp();
        self.override_step(fingerprint, timeout_sec, t1, t2, t3)
    }

    /// Notes a successful use of the first trusted key with `fingerprint`:
    /// last used at `now`, use count raised by one.
    pub fn record_key_use_at(&mut self, fingerprint: &str, now: Timestamp)
        requires
            can_record_use(old(self).trusted_keys@, fingerprint@),
        ensures
            final(self).trusted_keys@ == keys_after_use(old(self).trusted_keys@, fingerprint@, now),
            final(self).untrusted_keys == old(self).untrusted_keys,
            final(self).connection_log == old(self).connection_log,
            final(self).tofu == old(self).tofu,
            final(self).geofence_overrides == old(self).geofence_overrides,
    {
        if let Some(i) = trusted_index(&self.trusted_keys, fingerprint) {
            let count = self.trusted_keys[i].use_count;
            self.trusted_keys[i].last_used = Some(now);
            self.trusted_keys[i].use_count = count + 1;
            assert(self.trusted_keys@ =~= keys_after_use(old(self).trusted_keys@, fingerprint@, now));
        }
    }
}

} // verus!
