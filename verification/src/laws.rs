//! Properties of the server that hold across its operations: what the key
//! store keeps, what trust and revocation do to each other, how the log and
//! the pending keys are bounded, and how geofence overrides and trust on
//! first use behave over time.

use vstd::prelude::*;
use vstd::utf8::*;
use crate::json::{
    insert_member, lemma_items_sanitizable, lemma_members_sanitizable, min_len,
    sanitized_items, sanitized_members, sanitized_tree, tree_sanitizable, JsonTree,
    MAX_ARRAY_ITEMS, MAX_OBJECT_MEMBERS,
};
use crate::sanitize::{lemma_cut_fits, html_clean, sanitized, MAX_SHORT_TEXT_BYTES, MAX_TEXT_BYTES};
use crate::keys::{
    distinct_fingerprints,
    index_of, first_index_of, lemma_first_index_exists, trusted_fingerprints,
    untrusted_fingerprints, TrustedKey, UntrustedKey,
};
use crate::config::AppConfig;
use crate::session::{processing_started, ProcessStart, SshSession};
use crate::hostkey::{host_key_loaded, HostKey, HostKeyError, HostKeySource};
use crate::connection::{
    admission_taken, completion_taken, lemma_recorded_present, not_trusted_text, pending_before,
    pending_before_tofu_text, recorded_payload, Admission, Completion, ConnectionAttempt,
    GeofenceCheck,
};
use crate::log::{ConnectionLogEntry, ConnectionResult};
use crate::payload::ClientPayload;
use crate::overrides::kept_after;
use crate::state::{
    AppState, appended_log, keys_after_use, keys_seen_after, override_decision, recorded_keys, trusted_from, MAX_LOG_ENTRIES,
};
use crate::time::{
    days_before, seconds_before, trunc_div, whole_seconds_between, wrap_i64, Timestamp,
};
use crate::tofu::TofuState;

verus! {

proof fn lemma_absent(s: Seq<Seq<char>>, x: Seq<char>)
    requires
        index_of(s, x) is None,
    ensures
        !s.contains(x),
{
    if s.contains(x) {
        let j = choose|j: int| 0 <= j < s.len() && s[j] == x;
        lemma_first_index_exists(s, x, j);
    }
}

proof fn lemma_present(s: Seq<Seq<char>>, x: Seq<char>)
    requires
        index_of(s, x) is Some,
    ensures
        first_index_of(s, x, index_of(s, x)->0),
{
}

/// Recording a connection keeps the pending keys' fingerprints distinct,
/// and leaves the connecting key among them exactly once.
pub proof fn law_recording_keeps_fingerprints_distinct(
    keys: Seq<UntrustedKey>,
    fingerprint: String,
    public_key: String,
    key_type: String,
    ssh_username: String,
    payload: Option<ClientPayload>,
    now: Timestamp,
    id: u128,
)
    requires
        distinct_fingerprints(untrusted_fingerprints(keys)),
    ensures
        ({
            let after = untrusted_fingerprints(
                recorded_keys(keys, fingerprint, public_key, key_type, ssh_username, payload, now, id),
            );
            &&& distinct_fingerprints(after)
            &&& after.contains(fingerprint@)
            &&& forall|i: int, j: int|
                0 <= i < after.len() && 0 <= j < after.len() && after[i] == fingerprint@ && after[j]
                    == fingerprint@ ==> i == j
        }),
{
    let fps = untrusted_fingerprints(keys);
    let keys1 = recorded_keys(keys, fingerprint, public_key, key_type, ssh_username, payload, now, id);
    let fps1 = untrusted_fingerprints(keys1);
    match index_of(fps, fingerprint@) {
        Some(i) => {
            lemma_present(fps, fingerprint@);
            assert(fps1 =~= fps);
            assert(fps1[i] == fingerprint@);
        },
        None => {
            lemma_absent(fps, fingerprint@);
            assert(fps1 =~= fps.push(fingerprint@));
            assert forall|i: int, j: int| 0 <= i < j < fps1.len() implies fps1[i] != fps1[j] by {
                if j == fps.len() {
                    assert(fps[i] != fingerprint@);
                }
            }
            assert(fps1[fps.len() as int] == fingerprint@);
        },
    }
}

/// Trusting a pending key moves it: afterwards its fingerprint is among the
/// trusted keys and, pending fingerprints being distinct, no longer pending.
pub proof fn law_trust_moves_key(
    untrusted: Seq<UntrustedKey>,
    trusted: Seq<TrustedKey>,
    fingerprint: Seq<char>,
    username: String,
    device_name: String,
    now: Timestamp,
    id: u128,
)
    requires
        distinct_fingerprints(untrusted_fingerprints(untrusted)),
        index_of(untrusted_fingerprints(untrusted), fingerprint) is Some,
    ensures
        ({
            let i = index_of(untrusted_fingerprints(untrusted), fingerprint)->0;
            let trusted1 = trusted.push(trusted_from(untrusted[i], username, device_name, now, id));
            &&& trusted_fingerprints(trusted1).contains(fingerprint)
            &&& !untrusted_fingerprints(untrusted.remove(i)).contains(fingerprint)
            &&& distinct_fingerprints(untrusted_fingerprints(untrusted.remove(i)))
        }),
{
    let fps = untrusted_fingerprints(untrusted);
    lemma_present(fps, fingerprint);
    let i = index_of(fps, fingerprint)->0;
    let trusted1 = trusted.push(trusted_from(untrusted[i], username, device_name, now, id));
    assert(trusted_fingerprints(trusted1)[trusted.len() as int] == fingerprint);
    let fps1 = untrusted_fingerprints(untrusted.remove(i));
    assert(fps1 =~= fps.remove(i));
    assert forall|j: int| 0 <= j < fps1.len() implies fps1[j] != fingerprint by {
        if j < i {
            assert(fps1[j] == fps[j]);
        } else {
            assert(fps1[j] == fps[j + 1]);
        }
    }
    assert forall|a: int, b: int| 0 <= a < b < fps1.len() implies fps1[a] != fps1[b] by {
        let a0 = if a < i { a } else { a + 1 };
        let b0 = if b < i { b } else { b + 1 };
        assert(fps1[a] == fps[a0]);
        assert(fps1[b] == fps[b0]);
    }
}

/// Revoking a key right after trusting it restores the trusted keys, when
/// no trusted key had its fingerprint before.
pub proof fn law_revoke_undoes_trust(
    trusted: Seq<TrustedKey>,
    key: UntrustedKey,
    username: String,
    device_name: String,
    now: Timestamp,
    id: u128,
)
    requires
        !trusted_fingerprints(trusted).contains(key.fingerprint@),
    ensures
        ({
            let trusted1 = trusted.push(trusted_from(key, username, device_name, now, id));
            &&& index_of(trusted_fingerprints(trusted1), key.fingerprint@) == Some(trusted.len() as int)
            &&& trusted1.remove(trusted.len() as int) == trusted
        }),
{
    let fps = trusted_fingerprints(trusted);
    let trusted1 = trusted.push(trusted_from(key, username, device_name, now, id));
    let fps1 = trusted_fingerprints(trusted1);
    assert(fps1 =~= fps.push(key.fingerprint@));
    assert forall|j: int| 0 <= j < trusted.len() implies fps1[j] != key.fingerprint@ by {
        assert(fps1[j] == fps[j]);
    }
    assert(first_index_of(fps1, key.fingerprint@, trusted.len() as int));
    let c = choose|c: int| first_index_of(fps1, key.fingerprint@, c);
    assert(c == trusted.len()) by {
        if c < trusted.len() {
            assert(fps1[c] == fps[c]);
        }
    }
    assert(trusted1.remove(trusted.len() as int) =~= trusted);
}

/// The log never holds more than 10000 entries after an append: it ends
/// with the new entry and keeps the most recent of the others, in order.
pub proof fn law_log_bounded(log: Seq<ConnectionLogEntry>, entry: ConnectionLogEntry)
    ensures
        ({
            let after = appended_log(log, entry);
            let all = log.push(entry);
            &&& after.len() == if all.len() < MAX_LOG_ENTRIES {
                all.len()
            } else {
                MAX_LOG_ENTRIES as nat
            }
            &&& after.last() == entry
            &&& after == all.subrange(all.len() - after.len(), all.len() as int)
        }),
{
    let all = log.push(entry);
    if all.len() <= MAX_LOG_ENTRIES {
        assert(all.subrange(0, all.len() as int) =~= all);
    }
}

/// Cleaning up pending keys keeps exactly the keys last seen after the
/// cut-off.
pub proof fn law_cleanup_keeps_recent_keys(keys: Seq<UntrustedKey>, cutoff: Timestamp)
    ensures
        forall|k: UntrustedKey| #[trigger]
            keys_seen_after(keys, cutoff).contains(k) <==> keys.contains(k) && cutoff.precedes(
                k.last_seen,
            ),
    decreases keys.len(),
{
    if keys.len() > 0 {
        let rest = keys.drop_last();
        law_cleanup_keeps_recent_keys(rest, cutoff);
        let kept = keys_seen_after(keys, cutoff);
        let kept_rest = keys_seen_after(rest, cutoff);
        assert(keys =~= rest.push(keys.last()));
        assert forall|k: UntrustedKey| #[trigger]
            kept.contains(k) <==> keys.contains(k) && cutoff.precedes(k.last_seen) by {
            if cutoff.precedes(keys.last().last_seen) {
                assert(kept == kept_rest.push(keys.last()));
                if kept.contains(k) {
                    let j = choose|j: int| 0 <= j < kept.len() && kept[j] == k;
                    if j < kept_rest.len() {
                        assert(kept_rest[j] == k);
                        assert(kept_rest.contains(k));
                    }
                }
                if keys.contains(k) && cutoff.precedes(k.last_seen) {
                    let j = choose|j: int| 0 <= j < keys.len() && keys[j] == k;
                    if j < rest.len() {
                        assert(rest[j] == k);
                        assert(kept_rest.contains(k));
                        let m = choose|m: int| 0 <= m < kept_rest.len() && kept_rest[m] == k;
                        assert(kept[m] == k);
                    } else {
                        assert(kept[kept_rest.len() as int] == k);
                    }
                }
            } else {
                assert(kept == kept_rest);
                if keys.contains(k) && cutoff.precedes(k.last_seen) {
                    let j = choose|j: int| 0 <= j < keys.len() && keys[j] == k;
                    assert(j < rest.len());
                    assert(rest[j] == k);
                }
                if kept.contains(k) {
                    assert(rest.contains(k));
                    let j = choose|j: int| 0 <= j < rest.len() && rest[j] == k;
                    assert(keys[j] == k);
                }
            }
        }
    }
}

/// For instants with nanoseconds below a second, chronological order is
/// the order of their nanosecond counts.
proof fn lemma_precedes_total(a: Timestamp, b: Timestamp)
    requires
        a.nanos < 1_000_000_000,
        b.nanos < 1_000_000_000,
    ensures
        a.precedes(b) <==> a.total_nanos() < b.total_nanos(),
{
    if a.secs < b.secs {
        assert(a.secs * 1_000_000_000 + 1_000_000_000 <= b.secs * 1_000_000_000) by (nonlinear_arith)
            requires
                a.secs < b.secs,
        ;
    } else if a.secs > b.secs {
        assert(b.secs * 1_000_000_000 + 1_000_000_000 <= a.secs * 1_000_000_000) by (nonlinear_arith)
            requires
                b.secs < a.secs,
        ;
    }
}

/// An attempt from outside the geofence that is refused is recorded, so
/// that a second attempt by the same key fewer than `timeout_sec` whole
/// seconds later is granted; the grant consumes the record.
pub proof fn law_override_second_attempt(
    table: Map<Seq<char>, Timestamp>,
    fingerprint: Seq<char>,
    timeout_sec: u64,
    first: Timestamp,
    second: Timestamp,
)
    requires
        first.wf(),
        second.wf(),
        seconds_before(first, timeout_sec) is Some,
        seconds_before(second, timeout_sec) is Some,
        whole_seconds_between(second, first) < wrap_i64(timeout_sec),
    ensures
        ({
            let (granted1, table1) = override_decision(
                table,
                fingerprint,
                timeout_sec,
                first,
                first,
                first,
            );
            let (granted2, table2) = override_decision(
                table1,
                fingerprint,
                timeout_sec,
                second,
                second,
                second,
            );
            !granted1 ==> granted2 && !table2.dom().contains(fingerprint)
        }),
{
    let (granted1, table1) = override_decision(table, fingerprint, timeout_sec, first, first, first);
    if !granted1 {
        assert(table1.dom().contains(fingerprint) && table1[fingerprint] == first);
        let cutoff = seconds_before(second, timeout_sec)->0;
        let d = second.total_nanos() - first.total_nanos();
        let t = wrap_i64(timeout_sec);
        assert(trunc_div(d, 1_000_000_000) < t);
        assert(d < t * 1_000_000_000) by (nonlinear_arith)
            requires
                trunc_div(d, 1_000_000_000) < t,
                d >= 0 ==> trunc_div(d, 1_000_000_000) == d / 1_000_000_000,
                d < 0 ==> trunc_div(d, 1_000_000_000) == -((-d) / 1_000_000_000),
        ;
        assert(cutoff.total_nanos() == second.total_nanos() - t * 1_000_000_000) by (nonlinear_arith)
            requires
                cutoff.secs == second.secs - t,
                cutoff.nanos == second.nanos,
        ;
        lemma_precedes_total(cutoff, first);
        let kept = kept_after(table1, cutoff);
        assert(kept.dom().contains(fingerprint));
    }
}

/// Once trust on first use is switched on at `at` for `timeout_sec`
/// seconds, it is open at any later instant fewer than `timeout_sec` whole
/// seconds after `at`, and closed from then on; switched off, it is closed.
pub proof fn law_tofu_window(tofu: TofuState, timeout_sec: u64, at: Timestamp, now: Timestamp)
    ensures
        (TofuState { active: true, activated_at: Some(at), timeout_sec }).active_at(now) <==> (
        whole_seconds_between(now, at) < wrap_i64(timeout_sec)),
        !(TofuState { active: false, activated_at: None, timeout_sec: tofu.timeout_sec }).active_at(
            now,
        ),
{
}

/// Whether a JSON tree stays within the sanitizer's limits at every level:
/// texts of at most 1024 bytes, arrays of at most 100 elements, objects of
/// at most 50 members with keys of at most 256 bytes.
pub open spec fn tree_bounded(t: JsonTree) -> bool
    decreases t, 0nat,
{
    match t {
        JsonTree::Str(s) => encode_utf8(s).len() <= MAX_TEXT_BYTES,
        JsonTree::Array(items) => items.len() <= MAX_ARRAY_ITEMS && items_bounded(items, items.len()),
        JsonTree::Object(members) => members.len() <= MAX_OBJECT_MEMBERS && members_bounded(
            members,
            members.len(),
        ),
        _ => true,
    }
}

/// The first `n` items are within the limits.
pub open spec fn items_bounded(items: Seq<JsonTree>, n: nat) -> bool
    decreases items, n,
{
    if n == 0 || n > items.len() {
        true
    } else {
        items_bounded(items, (n - 1) as nat) && tree_bounded(items[n - 1])
    }
}

/// The first `n` members have short keys and values within the limits.
pub open spec fn members_bounded(members: Seq<(Seq<char>, JsonTree)>, n: nat) -> bool
    decreases members, n,
{
    if n == 0 || n > members.len() {
        true
    } else {
        &&& members_bounded(members, (n - 1) as nat)
        &&& encode_utf8(members[n - 1].0).len() <= MAX_SHORT_TEXT_BYTES
        &&& tree_bounded(members[n - 1].1)
    }
}

proof fn lemma_items_bounded(items: Seq<JsonTree>, n: nat)
    requires
        n <= items.len(),
        forall|i: int| 0 <= i < n ==> #[trigger] tree_bounded(items[i]),
    ensures
        items_bounded(items, n),
    decreases n,
{
    if n > 0 {
        lemma_items_bounded(items, (n - 1) as nat);
        assert(tree_bounded(items[n - 1]));
    }
}

proof fn lemma_members_bounded(members: Seq<(Seq<char>, JsonTree)>, n: nat)
    requires
        n <= members.len(),
        forall|i: int|
            0 <= i < n ==> encode_utf8(#[trigger] members[i].0).len() <= MAX_SHORT_TEXT_BYTES
                && tree_bounded(members[i].1),
    ensures
        members_bounded(members, n),
    decreases n,
{
    if n > 0 {
        lemma_members_bounded(members, (n - 1) as nat);
        assert(encode_utf8(members[n - 1].0).len() <= MAX_SHORT_TEXT_BYTES);
    }
}

proof fn lemma_sanitized_items_shape(items: Seq<JsonTree>, n: nat)
    requires
        n <= items.len(),
    ensures
        sanitized_items(items, n).len() == n,
        forall|k: int| 0 <= k < n ==> #[trigger] sanitized_items(items, n)[k] == sanitized_tree(items[k]),
    decreases n,
{
    if n > 0 {
        lemma_sanitized_items_shape(items, (n - 1) as nat);
    }
}

proof fn lemma_sanitized_members_shape(members: Seq<(Seq<char>, JsonTree)>, n: nat)
    requires
        n <= members.len(),
    ensures
        sanitized_members(members, n).len() <= n,
        forall|k: int|
            0 <= k < sanitized_members(members, n).len() ==> exists|j: int|
                0 <= j < n && #[trigger] sanitized_members(members, n)[k] == (
                    sanitized(members[j].0, MAX_SHORT_TEXT_BYTES as nat),
                    sanitized_tree(members[j].1),
                ),
    decreases n,
{
    if n > 0 {
        let m = (n - 1) as nat;
        lemma_sanitized_members_shape(members, m);
        let prev = sanitized_members(members, m);
        let key = sanitized(members[m as int].0, MAX_SHORT_TEXT_BYTES as nat);
        let val = sanitized_tree(members[m as int].1);
        let cur = sanitized_members(members, n);
        assert(cur == insert_member(prev, key, val));
        assert forall|k: int| 0 <= k < cur.len() implies exists|j: int|
            0 <= j < n && #[trigger] cur[k] == (
                sanitized(members[j].0, MAX_SHORT_TEXT_BYTES as nat),
                sanitized_tree(members[j].1),
            ) by {
            if cur[k] == (key, val) {
                assert(cur[k] == (
                    sanitized(members[m as int].0, MAX_SHORT_TEXT_BYTES as nat),
                    sanitized_tree(members[m as int].1),
                ));
            } else {
                assert(k < prev.len());
                assert(cur[k] == prev[k]);
            }
        }
    }
}

/// Sanitizing a client's JSON document (where it is possible without
/// cutting a character) yields a tree within the sanitizer's limits.
pub proof fn law_sanitized_json_bounded(t: JsonTree)
    requires
        tree_sanitizable(t),
    ensures
        tree_bounded(sanitized_tree(t)),
    decreases t, 0nat,
{
    match t {
        JsonTree::Str(s) => {
            lemma_cut_fits(html_clean(s), MAX_TEXT_BYTES as nat);
        },
        JsonTree::Array(items) => {
            let n = min_len(items.len(), MAX_ARRAY_ITEMS as nat);
            lemma_items_sanitizable(items, n);
            lemma_sanitized_items_shape(items, n);
            let out = sanitized_items(items, n);
            assert forall|i: int| 0 <= i < out.len() implies #[trigger] tree_bounded(out[i]) by {
                assert(out[i] == sanitized_tree(items[i]));
                law_sanitized_json_bounded(items[i]);
            }
            lemma_items_bounded(out, out.len());
        },
        JsonTree::Object(members) => {
            let n = min_len(members.len(), MAX_OBJECT_MEMBERS as nat);
            lemma_members_sanitizable(members, n);
            lemma_sanitized_members_shape(members, n);
            let out = sanitized_members(members, n);
            assert forall|i: int| 0 <= i < out.len() implies encode_utf8(#[trigger] out[i].0).len()
                <= MAX_SHORT_TEXT_BYTES && tree_bounded(out[i].1) by {
                let j = choose|j: int|
                    0 <= j < n && #[trigger] out[i] == (
                        sanitized(members[j].0, MAX_SHORT_TEXT_BYTES as nat),
                        sanitized_tree(members[j].1),
                    );
                lemma_cut_fits(html_clean(members[j].0), MAX_SHORT_TEXT_BYTES as nat);
                law_sanitized_json_bounded(members[j].1);
            }
            lemma_members_bounded(out, out.len());
        },
        _ => {},
    }
}

/// The pending keys a connection leaves behind hold its key.
proof fn lemma_connection_recorded(s0: AppState, attempt: ConnectionAttempt, payload: Result<
    Option<ClientPayload>,
    String,
>, now: Timestamp, record_id: u128)
    ensures
        untrusted_fingerprints(
            recorded_keys(
                s0.untrusted_keys@,
                attempt.fingerprint,
                attempt.public_key,
                attempt.key_type,
                attempt.ssh_username,
                recorded_payload(payload),
                now,
                record_id,
            ),
        ).contains(attempt.fingerprint@),
{
    let keys1 = recorded_keys(
        s0.untrusted_keys@,
        attempt.fingerprint,
        attempt.public_key,
        attempt.key_type,
        attempt.ssh_username,
        recorded_payload(payload),
        now,
        record_id,
    );
    lemma_recorded_present(
        s0.untrusted_keys@,
        attempt.fingerprint,
        attempt.public_key,
        attempt.key_type,
        attempt.ssh_username,
        recorded_payload(payload),
        now,
        record_id,
    );
    lemma_present(untrusted_fingerprints(keys1), attempt.fingerprint@);
}

/// A refused connection changes no trusted key, leaves the key pending,
/// and is the last entry of the log.
pub proof fn law_refused_connection_recorded(
    s0: AppState,
    s1: AppState,
    config: AppConfig,
    attempt: ConnectionAttempt,
    payload: Result<Option<ClientPayload>, String>,
    now: Timestamp,
    record_id: u128,
    trust_id: u128,
    r: Admission,
)
    requires
        admission_taken(s0, s1, config, attempt, payload, now, record_id, trust_id, r),
        r is Rejected,
    ensures
        s1.trusted_keys == s0.trusted_keys,
        untrusted_fingerprints(s1.untrusted_keys@).contains(attempt.fingerprint@),
        s1.connection_log@.len() > 0,
        s1.connection_log@.last().fingerprint == attempt.fingerprint,
        s1.connection_log@.last().client_ip == attempt.client_ip,
{
    lemma_connection_recorded(s0, attempt, payload, now, record_id);
    match payload {
        Err(msg) => {
            law_log_bounded(
                s0.connection_log@,
                crate::connection::attempt_entry(
                    now,
                    attempt,
                    crate::connection::payload_error_result(msg, config.expected_json_version),
                    None,
                ),
            );
        },
        Ok(p) => {
            law_log_bounded(
                s0.connection_log@,
                crate::connection::attempt_entry(now, attempt, ConnectionResult::UntrustedKey, p),
            );
        },
    }
}

/// Only a trusted key is let through: an admitted connection's key is among
/// the trusted keys afterwards.
pub proof fn law_admitted_key_is_trusted(
    s0: AppState,
    s1: AppState,
    config: AppConfig,
    attempt: ConnectionAttempt,
    payload: Result<Option<ClientPayload>, String>,
    now: Timestamp,
    record_id: u128,
    trust_id: u128,
    r: Admission,
)
    requires
        admission_taken(s0, s1, config, attempt, payload, now, record_id, trust_id, r),
        r is Admitted,
    ensures
        trusted_fingerprints(s1.trusted_keys@).contains(attempt.fingerprint@),
{
    let fps0 = trusted_fingerprints(s0.trusted_keys@);
    if index_of(fps0, attempt.fingerprint@) is Some {
        lemma_present(fps0, attempt.fingerprint@);
        let i = index_of(fps0, attempt.fingerprint@)->0;
        assert(fps0[i] == attempt.fingerprint@);
    } else {
        let keys1 = recorded_keys(
            s0.untrusted_keys@,
            attempt.fingerprint,
            attempt.public_key,
            attempt.key_type,
            attempt.ssh_username,
            recorded_payload(payload),
            now,
            record_id,
        );
        let fps1 = untrusted_fingerprints(keys1);
        lemma_present(fps1, attempt.fingerprint@);
        let j = index_of(fps1, attempt.fingerprint@)->0;
        let fps = trusted_fingerprints(s1.trusted_keys@);
        let last = s1.trusted_keys@.len() - 1;
        assert(s1.trusted_keys@[last] == s1.trusted_keys@.last());
        assert(fps[last] == s1.trusted_keys@.last().fingerprint@);
        assert(fps1[j] == keys1[j].fingerprint@);
    }
}

/// A key that is not trusted is refused, with the message asking for trust,
/// while trust on first use is closed.
pub proof fn law_untrusted_refused_without_tofu(
    s0: AppState,
    s1: AppState,
    config: AppConfig,
    attempt: ConnectionAttempt,
    p: Option<ClientPayload>,
    now: Timestamp,
    record_id: u128,
    trust_id: u128,
    r: Admission,
)
    requires
        admission_taken(s0, s1, config, attempt, Ok(p), now, record_id, trust_id, r),
        !trusted_fingerprints(s0.trusted_keys@).contains(attempt.fingerprint@),
        !s0.tofu.active_at(now),
    ensures
        r matches Admission::Rejected { response } && response@ == not_trusted_text(),
        s1.trusted_keys == s0.trusted_keys,
        s1.connection_log@.len() > 0,
        s1.connection_log@.last().result == ConnectionResult::UntrustedKey,
        s1.connection_log@.last().fingerprint == attempt.fingerprint,
        s1.connection_log@.last().timestamp == now,
        s1.connection_log@.last().payload == p,
{
    let fps0 = trusted_fingerprints(s0.trusted_keys@);
    if index_of(fps0, attempt.fingerprint@) is Some {
        lemma_present(fps0, attempt.fingerprint@);
    }
    law_log_bounded(
        s0.connection_log@,
        crate::connection::attempt_entry(now, attempt, ConnectionResult::UntrustedKey, p),
    );
}

/// While trust on first use is open, a key that was not pending and not
/// trusted is trusted on its first connection (opened no later than now)
/// and let through.
pub proof fn law_tofu_trusts_new_key(
    s0: AppState,
    s1: AppState,
    config: AppConfig,
    attempt: ConnectionAttempt,
    p: Option<ClientPayload>,
    now: Timestamp,
    record_id: u128,
    trust_id: u128,
    r: Admission,
)
    requires
        admission_taken(s0, s1, config, attempt, Ok(p), now, record_id, trust_id, r),
        !trusted_fingerprints(s0.trusted_keys@).contains(attempt.fingerprint@),
        !untrusted_fingerprints(s0.untrusted_keys@).contains(attempt.fingerprint@),
        s0.tofu.active_at(now),
        !now.precedes(s0.tofu.activated_at->0),
    ensures
        r == (Admission::Admitted { payload: p }),
        trusted_fingerprints(s1.trusted_keys@).contains(attempt.fingerprint@),
        s1.connection_log@.last().result == ConnectionResult::TofuTrusted,
{
    let fps0 = trusted_fingerprints(s0.trusted_keys@);
    if index_of(fps0, attempt.fingerprint@) is Some {
        lemma_present(fps0, attempt.fingerprint@);
    }
    let ufps0 = untrusted_fingerprints(s0.untrusted_keys@);
    if index_of(ufps0, attempt.fingerprint@) is Some {
        lemma_present(ufps0, attempt.fingerprint@);
    }
    let keys1 = recorded_keys(
        s0.untrusted_keys@,
        attempt.fingerprint,
        attempt.public_key,
        attempt.key_type,
        attempt.ssh_username,
        recorded_payload(Ok::<Option<ClientPayload>, String>(p)),
        now,
        record_id,
    );
    let at = s0.tofu.activated_at->0;
    assert(!pending_before(keys1, attempt.fingerprint@, s0.tofu.activated_at)) by {
        assert forall|i: int|
            0 <= i < keys1.len() && #[trigger] keys1[i].fingerprint@ == attempt.fingerprint@
                implies !keys1[i].first_seen.precedes(at) by {
            if i < s0.untrusted_keys@.len() {
                assert(keys1[i] == s0.untrusted_keys@[i]);
                assert(ufps0[i] == attempt.fingerprint@);
            }
        }
    }
    law_admitted_key_is_trusted(s0, s1, config, attempt, Ok(p), now, record_id, trust_id, r);
    law_log_bounded(
        s0.connection_log@,
        crate::connection::attempt_entry(now, attempt, ConnectionResult::TofuTrusted, p),
    );
}

/// While trust on first use is open, a key that was already pending before
/// it opened is not trusted automatically: it is refused and no trusted key
/// changes.
pub proof fn law_tofu_skips_earlier_pending_key(
    s0: AppState,
    s1: AppState,
    config: AppConfig,
    attempt: ConnectionAttempt,
    p: Option<ClientPayload>,
    now: Timestamp,
    record_id: u128,
    trust_id: u128,
    r: Admission,
    i: int,
)
    requires
        admission_taken(s0, s1, config, attempt, Ok(p), now, record_id, trust_id, r),
        !trusted_fingerprints(s0.trusted_keys@).contains(attempt.fingerprint@),
        s0.tofu.active_at(now),
        0 <= i < s0.untrusted_keys@.len(),
        s0.untrusted_keys@[i].fingerprint@ == attempt.fingerprint@,
        s0.untrusted_keys@[i].first_seen.precedes(s0.tofu.activated_at->0),
    ensures
        r matches Admission::Rejected { response } && response@ == pending_before_tofu_text(),
        s1.trusted_keys == s0.trusted_keys,
        s1.connection_log@.len() > 0,
        s1.connection_log@.last().result == ConnectionResult::UntrustedKey,
        s1.connection_log@.last().fingerprint == attempt.fingerprint,
        s1.connection_log@.last().timestamp == now,
        s1.connection_log@.last().payload == p,
{
    law_log_bounded(
        s0.connection_log@,
        crate::connection::attempt_entry(now, attempt, ConnectionResult::UntrustedKey, p),
    );
    let fps0 = trusted_fingerprints(s0.trusted_keys@);
    if index_of(fps0, attempt.fingerprint@) is Some {
        lemma_present(fps0, attempt.fingerprint@);
    }
    let ufps0 = untrusted_fingerprints(s0.untrusted_keys@);
    assert(ufps0[i] == attempt.fingerprint@);
    lemma_first_index_exists(ufps0, attempt.fingerprint@, i);
    let j = index_of(ufps0, attempt.fingerprint@)->0;
    let keys1 = recorded_keys(
        s0.untrusted_keys@,
        attempt.fingerprint,
        attempt.public_key,
        attempt.key_type,
        attempt.ssh_username,
        recorded_payload(Ok::<Option<ClientPayload>, String>(p)),
        now,
        record_id,
    );
    assert(keys1[i].fingerprint@ == attempt.fingerprint@ && keys1[i].first_seen
        == s0.untrusted_keys@[i].first_seen) by {
        if i != j {
            assert(keys1[i] == s0.untrusted_keys@[i]);
        } else {
            assert(ufps0[j] == s0.untrusted_keys@[j].fingerprint@);
        }
    }
    assert(pending_before(keys1, attempt.fingerprint@, s0.tofu.activated_at));
}

/// A payload that cannot be read is refused with its message, the key
/// still recorded as pending.
pub proof fn law_payload_error_refused(
    s0: AppState,
    s1: AppState,
    config: AppConfig,
    attempt: ConnectionAttempt,
    msg: String,
    now: Timestamp,
    record_id: u128,
    trust_id: u128,
    r: Admission,
)
    requires
        admission_taken(s0, s1, config, attempt, Err(msg), now, record_id, trust_id, r),
    ensures
        r matches Admission::Rejected { response } && response@ == "FAIL: "@ + msg@ + "\n"@,
        s1.trusted_keys == s0.trusted_keys,
        untrusted_fingerprints(s1.untrusted_keys@).contains(attempt.fingerprint@),
        s1.connection_log@.len() > 0,
        s1.connection_log@.last().fingerprint == attempt.fingerprint,
        s1.connection_log@.last().timestamp == now,
        s1.connection_log@.last().payload is None,
        crate::text::contains_text(msg@, "version mismatch"@) ==> s1.connection_log@.last().result
            == (ConnectionResult::VersionMismatch { expected: config.expected_json_version, got: msg }),
        !crate::text::contains_text(msg@, "version mismatch"@) ==> s1.connection_log@.last().result
            == ConnectionResult::InvalidJson(msg),
{
    lemma_connection_recorded(s0, attempt, Err(msg), now, record_id);
    law_log_bounded(
        s0.connection_log@,
        crate::connection::attempt_entry(
            now,
            attempt,
            crate::connection::payload_error_result(msg, config.expected_json_version),
            None,
        ),
    );
}

/// A trusted key with a readable payload is let through, and no key record
/// changes but the pending one.
pub proof fn law_trusted_key_admitted(
    s0: AppState,
    s1: AppState,
    config: AppConfig,
    attempt: ConnectionAttempt,
    p: Option<ClientPayload>,
    now: Timestamp,
    record_id: u128,
    trust_id: u128,
    r: Admission,
)
    requires
        admission_taken(s0, s1, config, attempt, Ok(p), now, record_id, trust_id, r),
        trusted_fingerprints(s0.trusted_keys@).contains(attempt.fingerprint@),
    ensures
        r == (Admission::Admitted { payload: p }),
        s1.trusted_keys == s0.trusted_keys,
        s1.connection_log == s0.connection_log,
{
    let fps0 = trusted_fingerprints(s0.trusted_keys@);
    let k = choose|k: int| 0 <= k < fps0.len() && fps0[k] == attempt.fingerprint@;
    lemma_first_index_exists(fps0, attempt.fingerprint@, k);
}

/// A second attempt from outside the geofence that comes `timeout_sec` or
/// more whole seconds after a refused first one is refused too, and becomes
/// the key's new first attempt.
pub proof fn law_override_expired(
    table: Map<Seq<char>, Timestamp>,
    fingerprint: Seq<char>,
    timeout_sec: u64,
    first: Timestamp,
    second: Timestamp,
)
    requires
        first.wf(),
        second.wf(),
        seconds_before(first, timeout_sec) is Some,
        seconds_before(second, timeout_sec) is Some,
        whole_seconds_between(second, first) >= wrap_i64(timeout_sec),
    ensures
        ({
            let (granted1, table1) = override_decision(
                table,
                fingerprint,
                timeout_sec,
                first,
                first,
                first,
            );
            let (granted2, table2) = override_decision(
                table1,
                fingerprint,
                timeout_sec,
                second,
                second,
                second,
            );
            !granted1 ==> !granted2 && table2.dom().contains(fingerprint) && table2[fingerprint]
                == second
        }),
{
}

/// Every admitted connection ends in the log: its last entry is the
/// attempt, a success when the door is to be opened and a refusal for the
/// distance otherwise; only a refused override leaves the trusted keys as
/// they were.
pub proof fn law_completed_connection_logged(
    s0: AppState,
    s1: AppState,
    config: AppConfig,
    attempt: ConnectionAttempt,
    payload: Option<ClientPayload>,
    geofence: GeofenceCheck,
    now: Timestamp,
    r: Completion,
)
    requires
        completion_taken(s0, s1, config, attempt, payload, geofence, now, r),
    ensures
        s1.connection_log@.len() > 0,
        s1.connection_log@.last().fingerprint == attempt.fingerprint,
        s1.connection_log@.last().timestamp == now,
        r == Completion::Accepted ==> s1.connection_log@.last().result == ConnectionResult::Success,
        r matches Completion::OutsideGeofence { distance_km_bits } ==> {
            &&& s1.connection_log@.last().result == (ConnectionResult::OutsideGeofence {
                distance_km_bits,
            })
            &&& s1.trusted_keys == s0.trusted_keys
        },
{
    let success = crate::connection::attempt_entry(now, attempt, ConnectionResult::Success, payload);
    match geofence {
        GeofenceCheck::Outside { distance_km_bits } => {
            let override_entry = crate::connection::attempt_entry(
                now,
                attempt,
                ConnectionResult::GeofenceOverrideSuccess { distance_km_bits },
                payload,
            );
            let refused = crate::connection::attempt_entry(
                now,
                attempt,
                ConnectionResult::OutsideGeofence { distance_km_bits },
                payload,
            );
            law_log_bounded(s0.connection_log@, refused);
            law_log_bounded(appended_log(s0.connection_log@, override_entry), success);
        },
        _ => {
            law_log_bounded(s0.connection_log@, success);
        },
    }
}

/// The host key survives a restart, a restored backup and a migration:
/// once a key was loaded or generated, options holding its PEM (as they do
/// after it is kept there) load the same key again, and so does a key file
/// holding its PEM when the options hold none.
pub proof fn law_host_key_survives_restart(
    config_pem: Seq<char>,
    stored_pem: Option<Seq<char>>,
    k: HostKey,
    later_stored_pem: Option<Seq<char>>,
    from_options: Result<HostKey, HostKeyError>,
    from_file: Result<HostKey, HostKeyError>,
)
    requires
        host_key_loaded(config_pem, stored_pem, Ok(k)),
        host_key_loaded(k.pem@, later_stored_pem, from_options),
        host_key_loaded(Seq::empty(), Some(k.pem@), from_file),
    ensures
        from_options matches Ok(k2) && k2.source == HostKeySource::Configured && k2.public_key@
            == k.public_key@ && k2.key.public_key() == k.key.public_key() && k2.pem@ == k.pem@,
        from_file matches Ok(k3) && k3.source == HostKeySource::StoredFile && k3.public_key@
            == k.public_key@ && k3.key.public_key() == k.key.public_key() && k3.pem@ == k.pem@,
{
}

/// A geofence override is granted once: after a refused first attempt and
/// a granted second one within `timeout_sec` whole seconds, a third attempt
/// is refused (and becomes a new first attempt).
pub proof fn law_override_granted_once(
    table: Map<Seq<char>, Timestamp>,
    fingerprint: Seq<char>,
    timeout_sec: u64,
    first: Timestamp,
    second: Timestamp,
    third: Timestamp,
)
    requires
        first.wf(),
        second.wf(),
        third.wf(),
        seconds_before(first, timeout_sec) is Some,
        seconds_before(second, timeout_sec) is Some,
        seconds_before(third, timeout_sec) is Some,
        whole_seconds_between(second, first) < wrap_i64(timeout_sec),
    ensures
        ({
            let (granted1, table1) = override_decision(
                table,
                fingerprint,
                timeout_sec,
                first,
                first,
                first,
            );
            let (granted2, table2) = override_decision(
                table1,
                fingerprint,
                timeout_sec,
                second,
                second,
                second,
            );
            let (granted3, table3) = override_decision(
                table2,
                fingerprint,
                timeout_sec,
                third,
                third,
                third,
            );
            !granted1 ==> granted2 && !granted3 && table3[fingerprint] == third
        }),
{
    law_override_second_attempt(table, fingerprint, timeout_sec, first, second);
}

/// A connection is processed at most once: once processing has started,
/// starting it again only tells the client that no key is authenticated,
/// and changes nothing.
pub proof fn law_processed_once(
    s0: SshSession,
    s1: SshSession,
    r1: ProcessStart,
    s2: SshSession,
    r2: ProcessStart,
)
    requires
        processing_started(s0, s1, r1),
        processing_started(s1, s2, r2),
    ensures
        r2 matches ProcessStart::NotAuthenticated { response } && response@
            == "ERROR: No key authenticated\n"@,
        s2 == s1,
{
}

/// The door is opened only for a trusted key: a connection that is admitted
/// and then accepted had a readable payload, and its key was trusted before
/// or trust on first use was open and the key was not pending from before
/// it opened; afterwards the key is trusted and the success is the last
/// log entry.
pub proof fn law_door_opens_only_for_trusted(
    s0: AppState,
    s1: AppState,
    s2: AppState,
    config: AppConfig,
    attempt: ConnectionAttempt,
    payload: Result<Option<ClientPayload>, String>,
    p: Option<ClientPayload>,
    now: Timestamp,
    record_id: u128,
    trust_id: u128,
    geofence: GeofenceCheck,
    later: Timestamp,
)
    requires
        admission_taken(
            s0,
            s1,
            config,
            attempt,
            payload,
            now,
            record_id,
            trust_id,
            Admission::Admitted { payload: p },
        ),
        completion_taken(s1, s2, config, attempt, p, geofence, later, Completion::Accepted),
    ensures
        payload == Ok::<Option<ClientPayload>, String>(p),
        trusted_fingerprints(s0.trusted_keys@).contains(attempt.fingerprint@) || {
            &&& s0.tofu.active_at(now)
            &&& forall|i: int|
                0 <= i < s0.untrusted_keys@.len() && #[trigger] s0.untrusted_keys@[i].fingerprint@
                    == attempt.fingerprint@ ==> !s0.untrusted_keys@[i].first_seen.precedes(
                    s0.tofu.activated_at->0,
                )
        },
        trusted_fingerprints(s2.trusted_keys@).contains(attempt.fingerprint@),
        s2.connection_log@.last().result == ConnectionResult::Success,
{
    let r = Admission::Admitted { payload: p };
    match payload {
        Err(msg) => {
            law_payload_error_refused(s0, s1, config, attempt, msg, now, record_id, trust_id, r);
        },
        Ok(q) => {
            if !trusted_fingerprints(s0.trusted_keys@).contains(attempt.fingerprint@) {
                if !s0.tofu.active_at(now) {
                    law_untrusted_refused_without_tofu(
                        s0, s1, config, attempt, q, now, record_id, trust_id, r);
                }
                assert forall|i: int|
                    0 <= i < s0.untrusted_keys@.len() && #[trigger] s0.untrusted_keys@[i].fingerprint@
                        == attempt.fingerprint@ implies !s0.untrusted_keys@[i].first_seen.precedes(
                        s0.tofu.activated_at->0,
                    ) by {
                    if s0.untrusted_keys@[i].first_seen.precedes(s0.tofu.activated_at->0) {
                        law_tofu_skips_earlier_pending_key(
                            s0, s1, config, attempt, q, now, record_id, trust_id, r, i);
                    }
                }
            }
        },
    }
    law_admitted_key_is_trusted(s0, s1, config, attempt, payload, now, record_id, trust_id, r);
    let fps1 = trusted_fingerprints(s1.trusted_keys@);
    let k = choose|k: int| 0 <= k < fps1.len() && fps1[k] == attempt.fingerprint@;
    let used = keys_after_use(s1.trusted_keys@, attempt.fingerprint@, later);
    assert(trusted_fingerprints(used)[k] == attempt.fingerprint@);
    law_completed_connection_logged(s1, s2, config, attempt, p, geofence, later, Completion::Accepted);
}

/// Outside the geofence, a key without a pending override is refused on its
/// first connection, which is recorded; the same key outside the geofence
/// again fewer than `geofence_override_timeout_sec` whole seconds later is
/// let through, logged as an override and then a success.
pub proof fn law_override_across_connections(
    s0: AppState,
    s1: AppState,
    between: AppState,
    s2: AppState,
    config: AppConfig,
    attempt: ConnectionAttempt,
    p1: Option<ClientPayload>,
    d1: u64,
    first: Timestamp,
    r1: Completion,
    p2: Option<ClientPayload>,
    d2: u64,
    second: Timestamp,
    r2: Completion,
)
    requires
        first.wf(),
        second.wf(),
        seconds_before(first, config.geofence_override_timeout_sec) is Some,
        seconds_before(second, config.geofence_override_timeout_sec) is Some,
        whole_seconds_between(second, first) < wrap_i64(config.geofence_override_timeout_sec),
        !s0.geofence_overrides@.dom().contains(attempt.fingerprint@),
        completion_taken(
            s0,
            s1,
            config,
            attempt,
            p1,
            GeofenceCheck::Outside { distance_km_bits: d1 },
            first,
            r1,
        ),
        between.geofence_overrides == s1.geofence_overrides,
        completion_taken(
            between,
            s2,
            config,
            attempt,
            p2,
            GeofenceCheck::Outside { distance_km_bits: d2 },
            second,
            r2,
        ),
    ensures
        r1 == (Completion::OutsideGeofence { distance_km_bits: d1 }),
        s1.geofence_overrides@[attempt.fingerprint@] == first,
        s1.trusted_keys == s0.trusted_keys,
        s1.connection_log@.last().result == (ConnectionResult::OutsideGeofence {
            distance_km_bits: d1,
        }),
        r2 == Completion::Accepted,
        !s2.geofence_overrides@.dom().contains(attempt.fingerprint@),
        s2.connection_log@ == appended_log(
            appended_log(
                between.connection_log@,
                crate::connection::attempt_entry(
                    second,
                    attempt,
                    ConnectionResult::GeofenceOverrideSuccess { distance_km_bits: d2 },
                    p2,
                ),
            ),
            crate::connection::attempt_entry(second, attempt, ConnectionResult::Success, p2),
        ),
{
    law_override_second_attempt(
        s0.geofence_overrides@,
        attempt.fingerprint@,
        config.geofence_override_timeout_sec,
        first,
        second,
    );
    law_completed_connection_logged(
        s0,
        s1,
        config,
        attempt,
        p1,
        GeofenceCheck::Outside { distance_km_bits: d1 },
        first,
        r1,
    );
}

/// Where the geofence is not checked (no position, or no home) or the
/// client is inside it, an admitted connection is accepted: the first
/// trusted key with its fingerprint is marked used at `now` (use count up
/// by one), no other trusted key changes, and the success is logged last.
pub proof fn law_unrefused_connection_accepted(
    s0: AppState,
    s1: AppState,
    config: AppConfig,
    attempt: ConnectionAttempt,
    payload: Option<ClientPayload>,
    geofence: GeofenceCheck,
    now: Timestamp,
    r: Completion,
)
    requires
        completion_taken(s0, s1, config, attempt, payload, geofence, now, r),
        !(geofence is Outside),
    ensures
        r == Completion::Accepted,
        s1.geofence_overrides == s0.geofence_overrides,
        s1.trusted_keys@.len() == s0.trusted_keys@.len(),
        s1.connection_log@.len() > 0,
        s1.connection_log@.last().result == ConnectionResult::Success,
        s1.connection_log@.last().fingerprint == attempt.fingerprint,
        s1.connection_log@.last().timestamp == now,
        forall|i: int|
            0 <= i < s0.trusted_keys@.len() && !first_index_of(
                trusted_fingerprints(s0.trusted_keys@),
                attempt.fingerprint@,
                i,
            ) ==> #[trigger] s1.trusted_keys@[i] == s0.trusted_keys@[i],
        forall|i: int|
            #![trigger s1.trusted_keys@[i]]
            first_index_of(trusted_fingerprints(s0.trusted_keys@), attempt.fingerprint@, i)
                && s0.trusted_keys@[i].use_count < u64::MAX ==> {
                &&& s1.trusted_keys@[i].use_count == s0.trusted_keys@[i].use_count + 1
                &&& s1.trusted_keys@[i].last_used == Some(now)
                &&& s1.trusted_keys@[i].fingerprint == s0.trusted_keys@[i].fingerprint
                &&& s1.trusted_keys@[i].username == s0.trusted_keys@[i].username
                &&& s1.trusted_keys@[i].device_name == s0.trusted_keys@[i].device_name
                &&& s1.trusted_keys@[i].trusted_at == s0.trusted_keys@[i].trusted_at
            },
{
    let fps = trusted_fingerprints(s0.trusted_keys@);
    law_log_bounded(
        s0.connection_log@,
        crate::connection::attempt_entry(now, attempt, ConnectionResult::Success, payload),
    );
    if index_of(fps, attempt.fingerprint@) is Some {
        lemma_present(fps, attempt.fingerprint@);
        let j = index_of(fps, attempt.fingerprint@)->0;
        assert forall|i: int| first_index_of(fps, attempt.fingerprint@, i) implies i == j by {
            if i < j {
                assert(fps[i] == attempt.fingerprint@);
            } else if i > j {
                assert(fps[j] == attempt.fingerprint@);
            }
        }
    } else {
        assert forall|i: int| !first_index_of(fps, attempt.fingerprint@, i) by {}
    }
}

/// The retention cut-off lies exactly `retention_days` days of 86400
/// seconds before `now` (the day count read as chrono's `i64`), at the same
/// sub-second; cleaning up keeps exactly the pending keys last seen strictly
/// after it.
pub proof fn law_retention_cutoff(keys: Seq<UntrustedKey>, now: Timestamp, retention_days: u64)
    requires
        days_before(now, retention_days) is Some,
    ensures
        days_before(now, retention_days)->0.secs == now.secs - wrap_i64(retention_days) * 86400,
        days_before(now, retention_days)->0.nanos == now.nanos,
        forall|k: UntrustedKey| #[trigger]
            keys_seen_after(keys, days_before(now, retention_days)->0).contains(k) <==> keys.contains(k)
                && (k.last_seen.secs > now.secs - wrap_i64(retention_days) * 86400 || (k.last_seen.secs
                == now.secs - wrap_i64(retention_days) * 86400 && k.last_seen.nanos > now.nanos)),
{
    law_cleanup_keeps_recent_keys(keys, days_before(now, retention_days)->0);
}

/// Recording a connection by a key updates the first pending record with
/// its fingerprint: last seen at `now`, one more attempt, the new user
/// name, the new payload when one came (the old one otherwise), and the
/// rest kept; other records stay. A key without a record gets a new one at
/// the end: first and last seen at `now`, one attempt, the payload given.
pub proof fn law_recording_a_key(
    keys: Seq<UntrustedKey>,
    fingerprint: String,
    public_key: String,
    key_type: String,
    ssh_username: String,
    payload: Option<ClientPayload>,
    now: Timestamp,
    id: u128,
)
    ensures
        ({
            let after = recorded_keys(
                keys,
                fingerprint,
                public_key,
                key_type,
                ssh_username,
                payload,
                now,
                id,
            );
            let fps = untrusted_fingerprints(keys);
            if fps.contains(fingerprint@) {
                let i = index_of(fps, fingerprint@)->0;
                &&& 0 <= i < keys.len()
                &&& keys[i].fingerprint@ == fingerprint@
                &&& forall|j: int| 0 <= j < i ==> keys[j].fingerprint@ != fingerprint@
                &&& after.len() == keys.len()
                &&& forall|j: int| 0 <= j < keys.len() && j != i ==> #[trigger] after[j] == keys[j]
                &&& after[i].last_seen == now
                &&& keys[i].attempt_count < u64::MAX ==> after[i].attempt_count == keys[i].attempt_count
                    + 1
                &&& after[i].ssh_username == ssh_username
                &&& (payload is Some ==> after[i].last_payload == payload)
                &&& (payload is None ==> after[i].last_payload == keys[i].last_payload)
                &&& after[i].id == keys[i].id
                &&& after[i].fingerprint == keys[i].fingerprint
                &&& after[i].public_key == keys[i].public_key
                &&& after[i].key_type == keys[i].key_type
                &&& after[i].first_seen == keys[i].first_seen
            } else {
                &&& after.len() == keys.len() + 1
                &&& after.drop_last() == keys
                &&& after.last().id == id
                &&& after.last().fingerprint == fingerprint
                &&& after.last().public_key == public_key
                &&& after.last().key_type == key_type
                &&& after.last().ssh_username == ssh_username
                &&& after.last().first_seen == now
                &&& after.last().last_seen == now
                &&& after.last().attempt_count == 1
                &&& after.last().last_payload == payload
            }
        }),
{
    let fps = untrusted_fingerprints(keys);
    let after = recorded_keys(keys, fingerprint, public_key, key_type, ssh_username, payload, now, id);
    if fps.contains(fingerprint@) {
        let k = choose|k: int| 0 <= k < fps.len() && fps[k] == fingerprint@;
        lemma_first_index_exists(fps, fingerprint@, k);
        let i = index_of(fps, fingerprint@)->0;
        assert(fps[i] == keys[i].fingerprint@);
        assert forall|j: int| 0 <= j < i implies keys[j].fingerprint@ != fingerprint@ by {
            assert(fps[j] == keys[j].fingerprint@);
        }
    } else {
        if index_of(fps, fingerprint@) is Some {
            lemma_present(fps, fingerprint@);
            let i = index_of(fps, fingerprint@)->0;
            assert(fps[i] == fingerprint@);
        }
        assert(after.drop_last() =~= keys);
    }
}

} // verus!
