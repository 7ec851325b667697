//! The decisions taken when an authenticated SSH connection delivers its
//! data: record the key, check the payload, trust, trust on first use and
//! the geofence, log, and tell the client.

use vstd::prelude::*;
use vstd::string::*;
use crate::config::AppConfig;
use crate::keys::{
    index_of, new_key_id, trusted_fingerprints, uuid_v4, trusted_index, untrusted_fingerprints,
    UntrustedKey,
};
use crate::log::{ConnectionLogEntry, ConnectionResult};
use crate::payload::{read_client_payload, outcome_view, payload_outcome, utf8_lossy, payload_sanitizable, ClientPayload};
use crate::state::{
    appended_log, can_record, can_record_use, keys_after_use, override_decision, recorded_keys,
    trusted_from, AppState,
};
use crate::text::contains;
use crate::time::{clock_reading, current_timestamp, seconds_before, Timestamp};

verus! {

/// What the SSH session knows of an authenticated connection.
#[derive(Debug)]
pub struct ConnectionAttempt {
    pub fingerprint: String,
    pub public_key: String,
    pub key_type: String,
    pub ssh_username: String,
    pub client_ip: String,
}

/// The first decision on a connection's data.
#[derive(Debug)]
pub enum Admission {
    /// Refused; the key record and the log are updated. Send `response`,
    /// save the state and close the channel.
    Rejected { response: String },
    /// The key may open the garage door; the geofence is to be checked next.
    Admitted { payload: Option<ClientPayload> },
}

/// The outcome of the geofence test, which the caller computes from the
/// payload's position and the configured home.
#[derive(Debug, Clone, Copy)]
pub enum GeofenceCheck {
    /// No position was sent, or no home is configured.
    NotChecked,
    Inside,
    Outside { distance_km_bits: u64 },
}

/// The final decision on an admitted connection.
#[derive(Debug)]
pub enum Completion {
    /// Outside the geofence and no override: tell the client how far it is
    /// (see `outside_geofence_message`), save and close.
    OutsideGeofence { distance_km_bits: u64 },
    /// Logged as a success: save, fire the webhook and report its outcome.
    Accepted,
}

/// The payload recorded with a key: the one that was read, if any.
pub open spec fn recorded_payload(p: Result<Option<ClientPayload>, String>) -> Option<ClientPayload> {
    match p {
        Ok(Some(x)) => Some(x),
        _ => None,
    }
}

/// The log entry for a connection.
pub open spec fn attempt_entry(
    now: Timestamp,
    attempt: ConnectionAttempt,
    result: ConnectionResult,
    payload: Option<ClientPayload>,
) -> ConnectionLogEntry {
    ConnectionLogEntry {
        timestamp: now,
        fingerprint: attempt.fingerprint,
        ssh_username: attempt.ssh_username,
        result,
        client_ip: attempt.client_ip,
        payload,
    }
}

/// The logged result of a payload error: a version mismatch when the
/// message says so, invalid JSON otherwise.
pub open spec fn payload_error_result(message: String, expected: String) -> ConnectionResult {
    if crate::text::contains_text(message@, "version mismatch"@) {
        ConnectionResult::VersionMismatch { expected, got: message }
    } else {
        ConnectionResult::InvalidJson(message)
    }
}

/// Whether a pending record of the key was first seen before trust on
/// first use was switched on (or the activation instant is unknown).
pub open spec fn pending_before(
    keys: Seq<UntrustedKey>,
    fingerprint: Seq<char>,
    activated_at: Option<Timestamp>,
) -> bool {
    exists|i: int|
        0 <= i < keys.len() && #[trigger] keys[i].fingerprint@ == fingerprint && match activated_at {
            Some(at) => keys[i].first_seen.precedes(at),
            None => true,
        }
}

/// The device name given to a key trusted on first use.
pub open spec fn device_name_or_unknown(p: Option<ClientPayload>) -> Seq<char> {
    match p {
        Some(x) => match x.device_name {
            Some(n) => n@,
            None => "Unknown Device"@,
        },
        None => "Unknown Device"@,
    }
}

/// Response to a client whose key is not trusted.
pub open spec fn not_trusted_text() -> Seq<char> {
    "FAIL: Key not trusted. Please ask the administrator to trust your key.\n"@
}

/// Response to a client whose key was pending before trust on first use.
pub open spec fn pending_before_tofu_text() -> Seq<char> {
    "FAIL: Key was already pending before TOFU mode. Please ask the admin to trust it manually.\n"@
}

fn pending_before_exec(keys: &Vec<UntrustedKey>, fingerprint: &str, activated_at: Option<Timestamp>) -> (r: bool)
    ensures
        r == pending_before(keys@, fingerprint@, activated_at),
{
    let fp = fingerprint.to_owned();
    let mut i: usize = 0;
    while i < keys.len()
        invariant
            fp@ == fingerprint@,
            i <= keys@.len(),
            forall|j: int|
                0 <= j < i ==> !(#[trigger] keys@[j].fingerprint@ == fingerprint@ && match activated_at {
                    Some(at) => keys@[j].first_seen.precedes(at),
                    None => true,
                }),
        decreases keys.len() - i,
    {
        if keys[i].fingerprint == fp {
            let before = match activated_at {
                Some(at) => keys[i].first_seen.is_before(&at),
                None => true,
            };
            if before {
                return true;
            }
        }
        i = i + 1;
    }
    false
}

fn copy_payload(p: &Option<ClientPayload>) -> (r: Option<ClientPayload>)
    ensures
        r == *p,
{
    match p {
        Some(x) => Some(x.duplicate()),
        None => None,
    }
}

fn entry_for(
    now: Timestamp,
    attempt: &ConnectionAttempt,
    result: ConnectionResult,
    payload: Option<ClientPayload>,
) -> (r: ConnectionLogEntry)
    ensures
        r == attempt_entry(now, *attempt, result, payload),
{
    ConnectionLogEntry {
        timestamp: now,
        fingerprint: attempt.fingerprint.clone(),
        ssh_username: attempt.ssh_username.clone(),
        result,
        client_ip: attempt.client_ip.clone(),
        payload,
    }
}

/// The first decision on a connection whose payload was read as `payload`,
/// at `now`. The key is always recorded as pending first (a new record gets
/// `record_id`). A payload error refuses the connection; a trusted key is
/// admitted; an untrusted key is refused unless trust on first use is open
/// and the key was not pending before it opened, in which case the key is
/// trusted (with `trust_id`) and admitted.
pub fn admit_connection(
    state: &mut AppState,
    config: &AppConfig,
    attempt: &ConnectionAttempt,
    payload: Result<Option<ClientPayload>, String>,
    now: Timestamp,
    record_id: u128,
    trust_id: u128,
) -> (r: Admission)
    requires
        can_record(old(state).untrusted_keys@, attempt.fingerprint@),
        old(state).tofu.wf(),
        now.wf(),
    ensures
        admission_taken(*old(state), *final(state), *config, *attempt, payload, now, record_id, trust_id, r),
{
    let recorded = match &payload {
        Ok(p) => copy_payload(p),
        Err(_) => None,
    };
    state.record_untrusted_key_at(
        attempt.fingerprint.clone(),
        attempt.public_key.clone(),
        attempt.key_type.clone(),
        attempt.ssh_username.clone(),
        recorded,
        now,
        record_id,
    );
    let parsed = match payload {
        Ok(p) => p,
        Err(msg) => {
            let result = if contains(msg.as_str(), "version mismatch") {
                ConnectionResult::VersionMismatch {
                    expected: config.expected_json_version.clone(),
                    got: msg.clone(),
                }
            } else {
                ConnectionResult::InvalidJson(msg.clone())
            };
            state.log_connection(entry_for(now, attempt, result, None));
            let mut response = String::from_str("FAIL: ");
            response.append(msg.as_str());
            response.append("\n");
            return Admission::Rejected { response };
        },
    };
    let is_trusted = trusted_index(&state.trusted_keys, attempt.fingerprint.as_str()).is_some();
    let tofu_active = state.tofu.is_active_at(now);
    let tofu_activated_at = state.tofu.activated_at;
    if !is_trusted && tofu_active {
        if pending_before_exec(&state.untrusted_keys, attempt.fingerprint.as_str(), tofu_activated_at) {
            state.log_connection(
                entry_for(now, attempt, ConnectionResult::UntrustedKey, copy_payload(&parsed)),
            );
            let response = String::from_str(
                "FAIL: Key was already pending before TOFU mode. Please ask the admin to trust it manually.\n",
            );
            return Admission::Rejected { response };
        }
        let device_name = match &parsed {
            Some(p) => match &p.device_name {
                Some(n) => n.clone(),
                None => {
                    proof { reveal_strlit("Unknown Device"); }
                    String::from_str("Unknown Device")
                },
            },
            None => {
                proof { reveal_strlit("Unknown Device"); }
                String::from_str("Unknown Device")
            },
        };
        let ghost keys1 = state.untrusted_keys@;
        proof {
            assert(index_of(untrusted_fingerprints(keys1), attempt.fingerprint@) is Some) by {
                lemma_recorded_present(
                    old(state).untrusted_keys@,
                    attempt.fingerprint,
                    attempt.public_key,
                    attempt.key_type,
                    attempt.ssh_username,
                    recorded_payload(Ok::<Option<ClientPayload>, String>(parsed)),
                    now,
                    record_id,
                );
            }
        }
        let _ = state.trust_key_at(
            attempt.fingerprint.as_str(),
            attempt.ssh_username.clone(),
            device_name,
            now,
            trust_id,
        );
        let ghost trusted_now = state.trusted_keys@;
        assert(trusted_now.drop_last() =~= old(state).trusted_keys@);
        assert(trusted_now.last().device_name@ == device_name_or_unknown(parsed));
        state.log_connection(
            entry_for(now, attempt, ConnectionResult::TofuTrusted, copy_payload(&parsed)),
        );
        assert(state.trusted_keys@ == trusted_now);
        return Admission::Admitted { payload: parsed };
    } else if !is_trusted && !tofu_active {
        state.log_connection(
            entry_for(now, attempt, ConnectionResult::UntrustedKey, copy_payload(&parsed)),
        );
        let response = String::from_str(
            "FAIL: Key not trusted. Please ask the administrator to trust your key.\n",
        );
        return Admission::Rejected { response };
    }
    Admission::Admitted { payload: parsed }
}

/// Recording a key leaves a pending record with its fingerprint.
pub proof fn lemma_recorded_present(
    keys: Seq<UntrustedKey>,
    fingerprint: String,
    public_key: String,
    key_type: String,
    ssh_username: String,
    payload: Option<ClientPayload>,
    now: Timestamp,
    id: u128,
)
    ensures
        index_of(
            untrusted_fingerprints(
                recorded_keys(keys, fingerprint, public_key, key_type, ssh_username, payload, now, id),
            ),
            fingerprint@,
        ) is Some,
{
    let fps = untrusted_fingerprints(keys);
    let keys1 = recorded_keys(keys, fingerprint, public_key, key_type, ssh_username, payload, now, id);
    let fps1 = untrusted_fingerprints(keys1);
    match index_of(fps, fingerprint@) {
        Some(i) => {
            let i0 = choose|c: int| crate::keys::first_index_of(fps, fingerprint@, c);
            assert(fps1 =~= fps);
            assert(crate::keys::first_index_of(fps1, fingerprint@, i0));
        },
        None => {
            assert(forall|c: int| !crate::keys::first_index_of(fps, fingerprint@, c));
            assert forall|j: int| 0 <= j < keys.len() implies fps1[j] != fingerprint@ by {
                assert(fps1[j] == fps[j]);
                if fps[j] == fingerprint@ {
                    crate::keys::lemma_first_index_exists(fps, fingerprint@, j);
                }
            }
            assert(crate::keys::first_index_of(fps1, fingerprint@, keys.len() as int));
        },
    }
}

/// The final decision on an admitted connection at `now`. Outside the
/// geofence, the override rule decides: a granted override is logged and
/// the connection proceeds, otherwise the refusal is logged. A connection
/// that proceeds marks the key as used and is logged as a success.
pub fn complete_connection(
    state: &mut AppState,
    config: &AppConfig,
    attempt: &ConnectionAttempt,
    payload: Option<ClientPayload>,
    geofence: GeofenceCheck,
    now: Timestamp,
) -> (r: Completion)
    requires
        now.wf(),
        can_record_use(old(state).trusted_keys@, attempt.fingerprint@),
        geofence is Outside ==> seconds_before(now, config.geofence_override_timeout_sec) is Some,
    ensures
        completion_taken(*old(state), *final(state), *config, *attempt, payload, geofence, now, r),
{
    if let GeofenceCheck::Outside { distance_km_bits } = geofence {
        let granted = state.check_geofence_override_at(
            attempt.fingerprint.as_str(),
            config.geofence_override_timeout_sec,
            now,
        );
        if granted {
            state.log_connection(
                entry_for(
                    now,
                    attempt,
                    ConnectionResult::GeofenceOverrideSuccess { distance_km_bits },
                    copy_payload(&payload),
                ),
            );
        } else {
            state.log_connection(
                entry_for(now, attempt, ConnectionResult::OutsideGeofence { distance_km_bits }, payload),
            );
            return Completion::OutsideGeofence { distance_km_bits };
        }
    }
    state.record_key_use_at(attempt.fingerprint.as_str(), now);
    state.log_connection(entry_for(now, attempt, ConnectionResult::Success, payload));
    Completion::Accepted
}

/// The decision `complete_connection` states, as a relation between the
/// state before and after.
pub open spec fn completion_taken(
    s0: AppState,
    s1: AppState,
    config: AppConfig,
    attempt: ConnectionAttempt,
    payload: Option<ClientPayload>,
    geofence: GeofenceCheck,
    now: Timestamp,
    r: Completion,
) -> bool {
    &&& s1.untrusted_keys == s0.untrusted_keys
    &&& s1.tofu == s0.tofu
    &&& match geofence {
        GeofenceCheck::Outside { distance_km_bits } => {
            let (granted, table) = override_decision(
                s0.geofence_overrides@,
                attempt.fingerprint@,
                config.geofence_override_timeout_sec,
                now,
                now,
                now,
            );
            &&& s1.geofence_overrides@ == table
            &&& if granted {
                &&& r == Completion::Accepted
                &&& s1.trusted_keys@ == keys_after_use(
                    s0.trusted_keys@,
                    attempt.fingerprint@,
                    now,
                )
                &&& s1.connection_log@ == appended_log(
                    appended_log(
                        s0.connection_log@,
                        attempt_entry(
                            now,
                            attempt,
                            ConnectionResult::GeofenceOverrideSuccess { distance_km_bits },
                            payload,
                        ),
                    ),
                    attempt_entry(now, attempt, ConnectionResult::Success, payload),
                )
            } else {
                &&& r == Completion::OutsideGeofence { distance_km_bits }
                &&& s1.trusted_keys == s0.trusted_keys
                &&& s1.connection_log@ == appended_log(
                    s0.connection_log@,
                    attempt_entry(
                        now,
                        attempt,
                        ConnectionResult::OutsideGeofence { distance_km_bits },
                        payload,
                    ),
                )
            }
        },
        _ => {
            &&& r == Completion::Accepted
            &&& s1.geofence_overrides == s0.geofence_overrides
            &&& s1.trusted_keys@ == keys_after_use(
                s0.trusted_keys@,
                attempt.fingerprint@,
                now,
            )
            &&& s1.connection_log@ == appended_log(
                s0.connection_log@,
                attempt_entry(now, attempt, ConnectionResult::Success, payload),
            )
        },
    }
}

/// The response to a client refused for being outside the geofence.
pub open spec fn outside_geofence_text(distance: Seq<char>, radius: Seq<char>, timeout_sec: u64) -> Seq<char> {
    "FAIL: You are "@ + distance + " km away from the garage (max: "@ + radius
        + " km).\nIf this is intentional, run the shortcut again within "@
        + crate::text::decimal(timeout_sec as nat) + " seconds to override.\n"@
}

/// Tells a client how far it is from the garage and how to override;
/// `distance` is written with one decimal and `radius` as configured.
pub fn outside_geofence_message(distance: &str, radius: &str, timeout_sec: u64) -> (r: String)
    ensures
        r@ == outside_geofence_text(distance@, radius@, timeout_sec),
{
    let mut s = String::from_str("FAIL: You are ");
    s.append(distance);
    s.append(" km away from the garage (max: ");
    s.append(radius);
    s.append(" km).\nIf this is intentional, run the shortcut again within ");
    let t = crate::text::decimal_text(timeout_sec);
    s.append(t.as_str());
    s.append(" seconds to override.\n");
    s
}

/// Reads the connection's data as a payload and takes the first decision
/// on it at `now`; `None` where sanitizing the payload would cut a text
/// inside a character, which a byte-range slice cannot do (nothing is
/// changed then).
pub fn process_connection(
    state: &mut AppState,
    config: &AppConfig,
    attempt: &ConnectionAttempt,
    stdin_data: &[u8],
    now: Timestamp,
    record_id: u128,
    trust_id: u128,
) -> (r: Option<Admission>)
    requires
        can_record(old(state).untrusted_keys@, attempt.fingerprint@),
        old(state).tofu.wf(),
        now.wf(),
    ensures
        r is None <==> !payload_sanitizable(utf8_lossy(stdin_data@)),
        r is None ==> *final(state) == *old(state),
        r is Some ==> exists|p: Result<Option<ClientPayload>, String>|
            outcome_view(p) == payload_outcome(
                utf8_lossy(stdin_data@),
                config.expected_json_version@,
            ) && admission_taken(*old(state), *final(state), *config, *attempt, p, now, record_id, trust_id, r->0),
{
    match read_client_payload(stdin_data, config.expected_json_version.as_str()) {
        None => None,
        Some(p) => {
            let ghost p0 = p;
            let ghost before = *state;
            let a = admit_connection(state, config, attempt, p, now, record_id, trust_id);
            assert(admission_taken(before, *state, *config, *attempt, p0, now, record_id, trust_id, a));
            Some(a)
        },
    }
}

/// Reads the connection's data as a payload and takes the first decision on
/// it now, by the system clock; a new pending record and a key trusted on
/// first use get fresh random version-4 UUIDs as identifiers. Returns the
/// decision with the instant it was taken at, or `None` (nothing changed)
/// where sanitizing the payload would cut a text inside a character.
pub fn process_connection_now(
    state: &mut AppState,
    config: &AppConfig,
    attempt: &ConnectionAttempt,
    stdin_data: &[u8],
) -> (r: Option<(Admission, Timestamp)>)
    requires
        can_record(old(state).untrusted_keys@, attempt.fingerprint@),
        old(state).tofu.wf(),
    ensures
        r is None <==> !payload_sanitizable(utf8_lossy(stdin_data@)),
        r is None ==> *final(state) == *old(state),
        r matches Some((a, now)) ==> clock_reading(now) && exists|
            p: Result<Option<ClientPayload>, String>,
            record_id: u128,
            trust_id: u128,
        |
            uuid_v4(record_id) && uuid_v4(trust_id) && outcome_view(p) == payload_outcome(
                utf8_lossy(stdin_data@),
                config.expected_json_version@,
            ) && admission_taken(
                *old(state),
                *final(state),
                *config,
                *attempt,
                p,
                now,
                record_id,
                trust_id,
                a,
            ),
{
    let now = current_timestamp();
    let record_id = new_key_id();
    let trust_id = new_key_id();
    match process_connection(state, config, attempt, stdin_data, now, record_id, trust_id) {
        Some(a) => {
            proof {
                let p = choose|p: Result<Option<ClientPayload>, String>|
                    outcome_view(p) == payload_outcome(
                        utf8_lossy(stdin_data@),
                        config.expected_json_version@,
                    ) && admission_taken(
                        *old(state),
                        *state,
                        *config,
                        *attempt,
                        p,
                        now,
                        record_id,
                        trust_id,
                        a,
                    );
                assert(exists|
                    p: Result<Option<ClientPayload>, String>,
                    record_id: u128,
                    trust_id: u128,
                |
                    uuid_v4(record_id) && uuid_v4(trust_id) && outcome_view(p) == payload_outcome(
                        utf8_lossy(stdin_data@),
                        config.expected_json_version@,
                    ) && admission_taken(
                        *old(state),
                        *state,
                        *config,
                        *attempt,
                        p,
                        now,
                        record_id,
                        trust_id,
                        a,
                    )) by {
                    assert(outcome_view(p) == payload_outcome(
                        utf8_lossy(stdin_data@),
                        config.expected_json_version@,
                    ));
                    assert(admission_taken(
                        *old(state),
                        *state,
                        *config,
                        *attempt,
                        p,
                        now,
                        record_id,
                        trust_id,
                        a,
                    ));
                }
            }
            Some((a, now))
        },
        None => None,
    }
}

/// The decision `admit_connection` states, as a relation between the state
/// before and after.
pub open spec fn admission_taken(
    s0: AppState,
    s1: AppState,
    config: AppConfig,
    attempt: ConnectionAttempt,
    payload: Result<Option<ClientPayload>, String>,
    now: Timestamp,
    record_id: u128,
    trust_id: u128,
    r: Admission,
) -> bool {
    let keys1 = recorded_keys(
        s0.untrusted_keys@,
        attempt.fingerprint,
        attempt.public_key,
        attempt.key_type,
        attempt.ssh_username,
        recorded_payload(payload),
        now,
        record_id,
    );
    let trusted = index_of(trusted_fingerprints(s0.trusted_keys@), attempt.fingerprint@) is Some;
    let tofu_open = s0.tofu.active_at(now);
    &&& s1.tofu == s0.tofu
    &&& s1.geofence_overrides == s0.geofence_overrides
    &&& match payload {
        Err(msg) => {
            &&& r matches Admission::Rejected { response } && response@ == "FAIL: "@ + msg@ + "\n"@
            &&& s1.untrusted_keys@ == keys1
            &&& s1.trusted_keys == s0.trusted_keys
            &&& s1.connection_log@ == appended_log(
                s0.connection_log@,
                attempt_entry(now, attempt, payload_error_result(msg, config.expected_json_version), None),
            )
        },
        Ok(p) => if trusted {
            &&& r == Admission::Admitted { payload: p }
            &&& s1.untrusted_keys@ == keys1
            &&& s1.trusted_keys == s0.trusted_keys
            &&& s1.connection_log == s0.connection_log
        } else if !tofu_open {
            &&& r matches Admission::Rejected { response } && response@ == not_trusted_text()
            &&& s1.untrusted_keys@ == keys1
            &&& s1.trusted_keys == s0.trusted_keys
            &&& s1.connection_log@ == appended_log(
                s0.connection_log@,
                attempt_entry(now, attempt, ConnectionResult::UntrustedKey, p),
            )
        } else if pending_before(keys1, attempt.fingerprint@, s0.tofu.activated_at) {
            &&& r matches Admission::Rejected { response } && response@ == pending_before_tofu_text()
            &&& s1.untrusted_keys@ == keys1
            &&& s1.trusted_keys == s0.trusted_keys
            &&& s1.connection_log@ == appended_log(
                s0.connection_log@,
                attempt_entry(now, attempt, ConnectionResult::UntrustedKey, p),
            )
        } else {
            let j = index_of(untrusted_fingerprints(keys1), attempt.fingerprint@)->0;
            &&& r == Admission::Admitted { payload: p }
            &&& index_of(untrusted_fingerprints(keys1), attempt.fingerprint@) is Some
            &&& s1.untrusted_keys@ == keys1.remove(j)
            &&& s1.trusted_keys@.len() == s0.trusted_keys@.len() + 1
            &&& s1.trusted_keys@.drop_last() == s0.trusted_keys@
            &&& s1.trusted_keys@.last().device_name@ == device_name_or_unknown(p)
            &&& s1.trusted_keys@.last() == trusted_from(
                keys1[j],
                attempt.ssh_username,
                s1.trusted_keys@.last().device_name,
                now,
                trust_id,
            )
            &&& s1.connection_log@ == appended_log(
                s0.connection_log@,
                attempt_entry(now, attempt, ConnectionResult::TofuTrusted, p),
            )
        },
    }
}

} // verus!
