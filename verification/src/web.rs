//! What the management web interface computes: state summaries, replies to
//! key operations, trust-on-first-use status and the recent log.

use vstd::prelude::*;
use vstd::string::*;
use crate::keys::{index_of, trusted_fingerprints, untrusted_fingerprints, uuid_v4};
use crate::log::ConnectionLogEntry;
use crate::sanitize::{sanitizable, sanitized, try_sanitize_short_string, MAX_SHORT_TEXT_BYTES};
use crate::state::{state_error_text, AppState, StateError};
use crate::text::{decimal, decimal_text};
use crate::time::{
    clock_reading, current_timestamp, whole_seconds_between, whole_seconds_since, wrap_i64,
    wrapped_as_i64, Timestamp,
};
use crate::tofu::TofuState;

verus! {

/// Number of log entries the log view shows.
pub const RECENT_LOG_ENTRIES: usize = 200;

/// A reply of the management API: HTTP status, success flag, message.
#[derive(Debug)]
pub struct ApiReply {
    pub status: u16,
    pub success: bool,
    pub message: String,
}

/// The reply to a key operation, and whether the state must be saved
/// before sending it (a failed save replaces it by `save_failed_reply`).
#[derive(Debug)]
pub struct KeyActionReply {
    pub reply: ApiReply,
    pub save_first: bool,
}

/// Counts shown on the status page.
#[derive(Debug, Clone, Copy)]
pub struct StateSummary {
    pub trusted_keys_count: usize,
    pub untrusted_keys_count: usize,
    pub log_entries_count: usize,
    pub tofu_active: bool,
}

/// Trust-on-first-use status: whether the window is open and the seconds
/// left in it.
#[derive(Debug, Clone, Copy)]
pub struct TofuStatus {
    pub active: bool,
    pub remaining_seconds: Option<i64>,
}

/// Whether a key operation's reply carries this status, flag, message and
/// need to save.
pub open spec fn reply_is(a: KeyActionReply, status: u16, success: bool, message: Seq<char>, save_first: bool) -> bool {
    &&& a.reply.status == status
    &&& a.reply.success == success
    &&& a.reply.message@ == message
    &&& a.save_first == save_first
}

/// The reply for a key operation that succeeded or failed.
pub open spec fn key_action_reply(outcome: Result<(), StateError>, success_text: Seq<char>) -> (
    u16,
    bool,
    Seq<char>,
    bool,
) {
    match outcome {
        Ok(()) => (200, true, success_text, true),
        Err(e) => (404, false, "Error: "@ + state_error_text(e), false),
    }
}

fn reply_for(outcome: Result<(), StateError>, success_text: &str) -> (r: KeyActionReply)
    ensures
        (r.reply.status, r.reply.success, r.reply.message@, r.save_first) == key_action_reply(
            outcome,
            success_text@,
        ),
{
    match outcome {
        Ok(()) => KeyActionReply {
            reply: ApiReply { status: 200, success: true, message: String::from_str(success_text) },
            save_first: true,
        },
        Err(e) => {
            let mut m = String::from_str("Error: ");
            let text = e.message();
            m.append(text.as_str());
            KeyActionReply { reply: ApiReply { status: 404, success: false, message: m }, save_first: false }
        },
    }
}

/// The reply when saving the state failed; `error` is the failure's message.
pub fn save_failed_reply(error: &str) -> (r: ApiReply)
    ensures
        r.status == 500,
        !r.success,
        r.message@ == "Failed to save: "@ + error@,
{
    let mut m = String::from_str("Failed to save: ");
    m.append(error);
    ApiReply { status: 500, success: false, message: m }
}

/// Trusts a pending key from the web interface: the user and device names
/// are sanitized, then the key is moved to the trusted keys. `None`
/// (nothing changed) where a name cannot be sanitized without cutting a
/// character.
pub fn api_trust_key(state: &mut AppState, fingerprint: &str, username: &str, device_name: &str) -> (r:
    Option<KeyActionReply>)
    ensures
        r is Some <==> sanitizable(username@, MAX_SHORT_TEXT_BYTES as nat) && sanitizable(
            device_name@,
            MAX_SHORT_TEXT_BYTES as nat,
        ),
        r is None ==> *final(state) == *old(state),
        r matches Some(a) ==> match index_of(
            untrusted_fingerprints(old(state).untrusted_keys@),
            fingerprint@,
        ) {
            Some(i) => {
                &&& reply_is(a, 200, true, "Key trusted successfully"@, true)
                &&& final(state).untrusted_keys@ == old(state).untrusted_keys@.remove(i)
                &&& final(state).trusted_keys@.drop_last() == old(state).trusted_keys@
                &&& final(state).trusted_keys@.len() == old(state).trusted_keys@.len() + 1
                &&& final(state).trusted_keys@.last().fingerprint == old(
                    state,
                ).untrusted_keys@[i].fingerprint
                &&& final(state).trusted_keys@.last().public_key == old(
                    state,
                ).untrusted_keys@[i].public_key
                &&& final(state).trusted_keys@.last().key_type == old(
                    state,
                ).untrusted_keys@[i].key_type
                &&& clock_reading(final(state).trusted_keys@.last().trusted_at)
                &&& uuid_v4(final(state).trusted_keys@.last().id)
                &&& final(state).trusted_keys@.last().last_used is None
                &&& final(state).trusted_keys@.last().use_count == 0
                &&& final(state).trusted_keys@.last().username@ == sanitized(
                    username@,
                    MAX_SHORT_TEXT_BYTES as nat,
                )
                &&& final(state).trusted_keys@.last().device_name@ == sanitized(
                    device_name@,
                    MAX_SHORT_TEXT_BYTES as nat,
                )
            },
            None => {
                &&& reply_is(a, 404, false, "Error: Key not found: "@ + fingerprint@, false)
                &&& final(state).untrusted_keys == old(state).untrusted_keys
                &&& final(state).trusted_keys == old(state).trusted_keys
            },
        },
        final(state).connection_log == old(state).connection_log,
        final(state).tofu == old(state).tofu,
        final(state).geofence_overrides == old(state).geofence_overrides,
{
    let user = match try_sanitize_short_string(username) {
        Some(u) => u,
        None => return None,
    };
    let device = match try_sanitize_short_string(device_name) {
        Some(d) => d,
        None => return None,
    };
    let ghost before = *state;
    let outcome = state.trust_key(fingerprint, user, device);
    let reply = reply_for(outcome, "Key trusted successfully");
    proof {
        reveal_strlit("Error: ");
        reveal_strlit("Key not found: ");
        reveal_strlit("Error: Key not found: ");
        match index_of(untrusted_fingerprints(before.untrusted_keys@), fingerprint@) {
            Some(i) => {
                let (now, id) = choose|now: Timestamp, id: u128|
                    clock_reading(now) && uuid_v4(id) && state.trusted_keys@ == before.trusted_keys@.push(
                        crate::state::trusted_from(before.untrusted_keys@[i], user, device, now, id),
                    );
                assert(state.trusted_keys@.drop_last() =~= before.trusted_keys@);
            },
            None => {
                assert(reply.reply.message@ =~= "Error: Key not found: "@ + fingerprint@);
            },
        }
    }
    Some(reply)
}

/// Revokes a trusted key from the web interface.
pub fn api_revoke_key(state: &mut AppState, fingerprint: &str) -> (r: KeyActionReply)
    ensures
        match index_of(trusted_fingerprints(old(state).trusted_keys@), fingerprint@) {
            Some(i) => {
                &&& reply_is(r, 200, true, "Key revoked successfully"@, true)
                &&& final(state).trusted_keys@ == old(state).trusted_keys@.remove(i)
            },
            None => {
                &&& reply_is(r, 404, false, "Error: Trusted key not found: "@ + fingerprint@, false)
                &&& final(state).trusted_keys == old(state).trusted_keys
            },
        },
        final(state).untrusted_keys == old(state).untrusted_keys,
        final(state).connection_log == old(state).connection_log,
        final(state).tofu == old(state).tofu,
        final(state).geofence_overrides == old(state).geofence_overrides,
{
    let ghost before = *state;
    let outcome = state.revoke_key(fingerprint);
    let reply = reply_for(outcome, "Key revoked successfully");
    proof {
        reveal_strlit("Error: ");
        reveal_strlit("Trusted key not found: ");
        reveal_strlit("Error: Trusted key not found: ");
        if index_of(trusted_fingerprints(before.trusted_keys@), fingerprint@) is None {
            assert(reply.reply.message@ =~= "Error: Trusted key not found: "@ + fingerprint@);
        }
    }
    reply
}

/// Deletes a pending key from the web interface.
pub fn api_delete_untrusted_key(state: &mut AppState, fingerprint: &str) -> (r: KeyActionReply)
    ensures
        match index_of(untrusted_fingerprints(old(state).untrusted_keys@), fingerprint@) {
            Some(i) => {
                &&& reply_is(r, 200, true, "Untrusted key deleted"@, true)
                &&& final(state).untrusted_keys@ == old(state).untrusted_keys@.remove(i)
            },
            None => {
                &&& reply_is(r, 404, false, "Error: Untrusted key not found: "@ + fingerprint@, false)
                &&& final(state).untrusted_keys == old(state).untrusted_keys
            },
        },
        final(state).trusted_keys == old(state).trusted_keys,
        final(state).connection_log == old(state).connection_log,
        final(state).tofu == old(state).tofu,
        final(state).geofence_overrides == old(state).geofence_overrides,
{
    let ghost before = *state;
    let outcome = state.delete_untrusted_key(fingerprint);
    let reply = reply_for(outcome, "Untrusted key deleted");
    proof {
        reveal_strlit("Error: ");
        reveal_strlit("Untrusted key not found: ");
        reveal_strlit("Error: Untrusted key not found: ");
        if index_of(untrusted_fingerprints(before.untrusted_keys@), fingerprint@) is None {
            assert(reply.reply.message@ =~= "Error: Untrusted key not found: "@ + fingerprint@);
        }
    }
    reply
}

/// The message sent when the trust-on-first-use window is opened.
pub open spec fn tofu_activated_text(timeout_sec: u64) -> Seq<char> {
    "TOFU mode activated for "@ + decimal(timeout_sec as nat) + " seconds"@
}

/// Opens the trust-on-first-use window from the web interface, at `now`,
/// for `timeout_sec` seconds. A failed save is only logged, so the reply
/// is always a success.
pub fn api_activate_tofu_at(state: &mut AppState, timeout_sec: u64, now: Timestamp) -> (r: ApiReply)
    ensures
        final(state).tofu == (TofuState { active: true, activated_at: Some(now), timeout_sec }),
        r.status == 200,
        r.success,
        r.message@ == tofu_activated_text(timeout_sec),
        final(state).trusted_keys == old(state).trusted_keys,
        final(state).untrusted_keys == old(state).untrusted_keys,
        final(state).connection_log == old(state).connection_log,
        final(state).geofence_overrides == old(state).geofence_overrides,
{
    state.tofu.activate_at(timeout_sec, now);
    let mut m = String::from_str("TOFU mode activated for ");
    let n = decimal_text(timeout_sec);
    m.append(n.as_str());
    m.append(" seconds");
    ApiReply { status: 200, success: true, message: m }
}

/// Opens the trust-on-first-use window from the web interface, now by the
/// system clock, for `timeout_sec` seconds.
pub fn api_activate_tofu(state: &mut AppState, timeout_sec: u64) -> (r: ApiReply)
    ensures
        final(state).tofu.active,
        final(state).tofu.timeout_sec == timeout_sec,
        final(state).tofu.activated_at matches Some(t) && clock_reading(t),
        r.status == 200,
        r.success,
        r.message@ == tofu_activated_text(timeout_sec),
        final(state).trusted_keys == old(state).trusted_keys,
        final(state).untrusted_keys == old(state).untrusted_keys,
        final(state).connection_log == old(state).connection_log,
        final(state).geofence_overrides == old(state).geofence_overrides,
{
    let now = current_timestamp();
    api_activate_tofu_at(state, timeout_sec, now)
}

/// Closes the trust-on-first-use window from the web interface.
pub fn api_deactivate_tofu(state: &mut AppState) -> (r: ApiReply)
    ensures
        final(state).tofu == (TofuState {
            active: false,
            activated_at: None,
            timeout_sec: old(state).tofu.timeout_sec,
        }),
        r.status == 200,
        r.success,
        r.message@ == "TOFU mode deactivated"@,
        final(state).trusted_keys == old(state).trusted_keys,
        final(state).untrusted_keys == old(state).untrusted_keys,
        final(state).connection_log == old(state).connection_log,
        final(state).geofence_overrides == old(state).geofence_overrides,
{
    state.tofu.deactivate();
    ApiReply { status: 200, success: true, message: String::from_str("TOFU mode deactivated") }
}

/// The trust-on-first-use status as the status request computes it: open
/// or not by the clock reading `first`; while open, the seconds left by the
/// reading `second` (never below zero).
pub open spec fn tofu_status_between(tofu: TofuState, first: Timestamp, second: Timestamp) -> (
    bool,
    Option<int>,
) {
    if tofu.active_at(first) {
        let left = wrap_i64(tofu.timeout_sec) - whole_seconds_between(second, tofu.activated_at->0);
        (
            true,
            Some(
                if left > 0 {
                    left
                } else {
                    0
                },
            ),
        )
    } else {
        (false, None)
    }
}

/// Whether the seconds left can be counted at `second` without leaving
/// `i64`.
pub open spec fn remaining_fits(tofu: TofuState, second: Timestamp) -> bool {
    tofu.activated_at matches Some(at) ==> wrap_i64(tofu.timeout_sec) - whole_seconds_between(
        second,
        at,
    ) <= i64::MAX
}

/// The trust-on-first-use status, with the window checked at `first` and
/// the seconds left counted at `second`.
pub fn tofu_status_at(tofu: &TofuState, first: Timestamp, second: Timestamp) -> (r: TofuStatus)
    requires
        tofu.wf(),
        first.wf(),
        second.wf(),
        tofu.active_at(first) ==> remaining_fits(*tofu, second),
    ensures
        (r.active, match r.remaining_seconds {
            Some(x) => Some(x as int),
            None => None,
        }) == tofu_status_between(*tofu, first, second),
{
    let active = tofu.is_active_at(first);
    if !active {
        return TofuStatus { active: false, remaining_seconds: None };
    }
    match tofu.activated_at {
        Some(at) => {
            let elapsed = whole_seconds_since(second, at);
            let left: i128 = wrapped_as_i64(tofu.timeout_sec) - elapsed as i128;
            let remaining: i64 = if left > 0 {
                left as i64
            } else {
                0
            };
            TofuStatus { active: true, remaining_seconds: Some(remaining) }
        },
        None => TofuStatus { active: true, remaining_seconds: None },
    }
}

/// The trust-on-first-use status now: the system clock is read once to
/// decide whether the window is open and once more to count the seconds
/// left.
pub fn tofu_status(tofu: &TofuState) -> (r: TofuStatus)
    requires
        tofu.wf(),
        forall|t: Timestamp| clock_reading(t) ==> remaining_fits(*tofu, t),
    ensures
        exists|first: Timestamp, second: Timestamp|
            clock_reading(first) && clock_reading(second) && (r.active, match r.remaining_seconds {
                Some(x) => Some(x as int),
                None => None,
            }) == tofu_status_between(*tofu, first, second),
{
    let first = current_timestamp();
    let second = current_timestamp();
    tofu_status_at(tofu, first, second)
}

/// The status page's counts, with the window checked at `now`.
pub fn state_summary_at(state: &AppState, now: Timestamp) -> (r: StateSummary)
    requires
        state.tofu.wf(),
        now.wf(),
    ensures
        r.trusted_keys_count == state.trusted_keys@.len(),
        r.untrusted_keys_count == state.untrusted_keys@.len(),
        r.log_entries_count == state.connection_log@.len(),
        r.tofu_active == state.tofu.active_at(now),
{
    StateSummary {
        trusted_keys_count: state.trusted_keys.len(),
        untrusted_keys_count: state.untrusted_keys.len(),
        log_entries_count: state.connection_log.len(),
        tofu_active: state.tofu.is_active_at(now),
    }
}

/// The status page's counts, with the window checked by the system clock.
pub fn state_summary(state: &AppState) -> (r: StateSummary)
    requires
        state.tofu.wf(),
    ensures
        r.trusted_keys_count == state.trusted_keys@.len(),
        r.untrusted_keys_count == state.untrusted_keys@.len(),
        r.log_entries_count == state.connection_log@.len(),
        exists|now: Timestamp| clock_reading(now) && r.tofu_active == state.tofu.active_at(now),
{
    let now = current_timestamp();
    state_summary_at(state, now)
}

/// The log view: the last `RECENT_LOG_ENTRIES` entries, most recent first.
pub open spec fn recent_entries(log: Seq<ConnectionLogEntry>) -> Seq<ConnectionLogEntry> {
    let n = if log.len() < RECENT_LOG_ENTRIES {
        log.len() as int
    } else {
        RECENT_LOG_ENTRIES as int
    };
    Seq::new(n as nat, |i: int| log[log.len() - 1 - i])
}

/// Copies the entries the log view shows, most recent first.
pub fn recent_logs(log: &Vec<ConnectionLogEntry>) -> (r: Vec<ConnectionLogEntry>)
    ensures
        r@ == recent_entries(log@),
{
    let mut out: Vec<ConnectionLogEntry> = Vec::new();
    let mut i: usize = log.len();
    while i > 0 && out.len() < RECENT_LOG_ENTRIES
        invariant
            i <= log.len(),
            out.len() == log.len() - i,
            out.len() <= RECENT_LOG_ENTRIES,
            forall|j: int| 0 <= j < out.len() ==> out@[j] == log@[log.len() - 1 - j],
        decreases i,
    {
        i = i - 1;
        out.push(log[i].duplicate());
    }
    assert(out@ =~= recent_entries(log@));
    out
}

} // verus!
