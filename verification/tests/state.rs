use garage_ssh_gate::keys::{TrustedKey, UntrustedKey};
use garage_ssh_gate::log::{ConnectionLogEntry, ConnectionResult};
use garage_ssh_gate::overrides::OverrideTable;
use garage_ssh_gate::state::{AppState, StateError, MAX_LOG_ENTRIES};
use garage_ssh_gate::time::{
    days_cutoff, seconds_cutoff, whole_seconds_since, Timestamp,
};
use garage_ssh_gate::tofu::{TofuState, DEFAULT_TOFU_TIMEOUT_SECS};

fn at(secs: i64) -> Timestamp {
    Timestamp { secs, nanos: 0 }
}

fn pending(fp: &str, first_seen: i64) -> UntrustedKey {
    UntrustedKey {
        id: 7,
        fingerprint: fp.to_string(),
        public_key: format!("ed25519 {}", fp),
        key_type: "ed25519".to_string(),
        ssh_username: "max".to_string(),
        first_seen: at(first_seen),
        last_seen: at(first_seen),
        attempt_count: 1,
        last_payload: None,
    }
}

fn entry(n: usize) -> ConnectionLogEntry {
    ConnectionLogEntry {
        timestamp: at(n as i64),
        fingerprint: format!("fp{}", n),
        ssh_username: "u".to_string(),
        result: ConnectionResult::Success,
        client_ip: "1.2.3.4:5".to_string(),
        payload: None,
    }
}

#[test]
fn new_state_is_empty() {
    let s = AppState::new();
    assert!(s.trusted_keys.is_empty());
    assert!(s.untrusted_keys.is_empty());
    assert!(s.connection_log.is_empty());
    assert!(!s.tofu.active);
    assert_eq!(s.tofu.timeout_sec, DEFAULT_TOFU_TIMEOUT_SECS);
    assert_eq!(s.tofu.timeout_sec, 45);
    assert!(s.geofence_overrides.to_entries().is_empty());
}

#[test]
fn recording_a_known_key_updates_it() {
    let mut s = AppState::new();
    s.record_untrusted_key_at("SHA256:aa".into(), "pk".into(), "ed25519".into(), "max".into(), None, at(100), 11);
    s.record_untrusted_key_at("SHA256:aa".into(), "pk2".into(), "rsa".into(), "moritz".into(), None, at(200), 12);
    assert_eq!(s.untrusted_keys.len(), 1);
    let k = &s.untrusted_keys[0];
    assert_eq!(k.id, 11);
    assert_eq!(k.public_key, "pk");
    assert_eq!(k.key_type, "ed25519");
    assert_eq!(k.ssh_username, "moritz");
    assert_eq!(k.first_seen, at(100));
    assert_eq!(k.last_seen, at(200));
    assert_eq!(k.attempt_count, 2);
}

#[test]
fn recording_a_new_key_appends_it() {
    let mut s = AppState::new();
    s.record_untrusted_key_at("a".into(), "pa".into(), "ed25519".into(), "u".into(), None, at(1), 1);
    s.record_untrusted_key_at("b".into(), "pb".into(), "ed25519".into(), "u".into(), None, at(2), 2);
    assert_eq!(s.untrusted_keys.len(), 2);
    assert_eq!(s.untrusted_keys[1].fingerprint, "b");
    assert_eq!(s.untrusted_keys[1].attempt_count, 1);
    assert_eq!(s.find_untrusted_key("b").map(|k| k.id), Some(2));
    assert!(s.find_untrusted_key("c").is_none());
}

#[test]
fn trust_moves_a_pending_key() {
    let mut s = AppState::new();
    s.untrusted_keys.push(pending("fp1", 10));
    s.untrusted_keys.push(pending("fp2", 20));
    assert!(s.trust_key_at("fp1", "Max".into(), "iPhone".into(), at(30), 99).is_ok());
    assert_eq!(s.untrusted_keys.len(), 1);
    assert_eq!(s.untrusted_keys[0].fingerprint, "fp2");
    assert_eq!(s.trusted_keys.len(), 1);
    let t: &TrustedKey = &s.trusted_keys[0];
    assert_eq!(t.fingerprint, "fp1");
    assert_eq!(t.public_key, "ed25519 fp1");
    assert_eq!(t.username, "Max");
    assert_eq!(t.device_name, "iPhone");
    assert_eq!(t.trusted_at, at(30));
    assert_eq!(t.id, 99);
    assert_eq!(t.use_count, 0);
    assert!(t.last_used.is_none());
    assert!(s.find_trusted_key("fp1").is_some());
}

#[test]
fn keys_recorded_by_clock_get_version_4_ids() {
    let mut s = AppState::new();
    s.record_untrusted_key("a".into(), "pa".into(), "ed25519".into(), "u".into(), None);
    s.record_untrusted_key("a".into(), "pa".into(), "ed25519".into(), "v".into(), None);
    assert_eq!(s.untrusted_keys.len(), 1);
    let id = s.untrusted_keys[0].id;
    assert_eq!(id & 0xf000_0000_0000_0000_0000, 0x4000_0000_0000_0000_0000);
    assert_eq!(id & 0xc000_0000_0000_0000, 0x8000_0000_0000_0000);
    assert_eq!(s.untrusted_keys[0].attempt_count, 2);
    assert!(s.trust_key("a", "Max".into(), "iPad".into()).is_ok());
    let tid = s.trusted_keys[0].id;
    assert_eq!(tid & 0xf000_0000_0000_0000_0000, 0x4000_0000_0000_0000_0000);
    assert_eq!(s.trusted_keys[0].key_type, "ed25519");
}

#[test]
fn trust_of_unknown_key_fails() {
    let mut s = AppState::new();
    match s.trust_key("nope", "a".into(), "b".into()) {
        Err(StateError::KeyNotFound(fp)) => assert_eq!(fp, "nope"),
        other => panic!("unexpected {:?}", other),
    }
    assert_eq!(StateError::KeyNotFound("nope".into()).message(), "Key not found: nope");
}

#[test]
fn trust_by_clock_moves_the_key() {
    let mut s = AppState::new();
    s.untrusted_keys.push(pending("fp1", 10));
    assert!(s.trust_key("fp1", "Max".into(), "iPad".into()).is_ok());
    assert_eq!(s.trusted_keys.len(), 1);
    assert!(s.untrusted_keys.is_empty());
    assert!(s.trusted_keys[0].trusted_at.secs > 1_600_000_000);
}

#[test]
fn revoke_after_trust_restores_the_trusted_keys() {
    let mut s = AppState::new();
    s.untrusted_keys.push(pending("fp1", 10));
    s.trust_key_at("fp1", "Max".into(), "iPhone".into(), at(30), 1).unwrap();
    assert!(s.revoke_key("fp1").is_ok());
    assert!(s.trusted_keys.is_empty());
    match s.revoke_key("fp1") {
        Err(e) => assert_eq!(e.message(), "Trusted key not found: fp1"),
        Ok(()) => panic!("revoked twice"),
    }
}

#[test]
fn delete_untrusted_key_removes_it() {
    let mut s = AppState::new();
    s.untrusted_keys.push(pending("fp1", 10));
    assert!(s.delete_untrusted_key("fp1").is_ok());
    assert!(s.untrusted_keys.is_empty());
    match s.delete_untrusted_key("fp1") {
        Err(e) => assert_eq!(e.message(), "Untrusted key not found: fp1"),
        Ok(()) => panic!("deleted twice"),
    }
}

#[test]
fn log_keeps_the_last_10000_entries() {
    let mut s = AppState::new();
    for i in 0..10_001 {
        s.log_connection(entry(i));
    }
    assert_eq!(s.connection_log.len(), MAX_LOG_ENTRIES);
    assert_eq!(s.connection_log[0].fingerprint, "fp1");
    assert_eq!(s.connection_log[9_999].fingerprint, "fp10000");
}

#[test]
fn cleanup_keeps_keys_seen_after_the_cutoff() {
    let mut s = AppState::new();
    let day = 86_400;
    let now = 100 * day;
    s.untrusted_keys.push(pending("old", now - 30 * day));
    s.untrusted_keys.push(pending("edge", now - 21 * day));
    s.untrusted_keys.push(pending("new", now - day));
    s.cleanup_expired_keys_at(21, at(now));
    let left: Vec<&str> = s.untrusted_keys.iter().map(|k| k.fingerprint.as_str()).collect();
    assert_eq!(left, vec!["new"]);
}

#[test]
fn cleanup_by_clock_keeps_recent_keys() {
    let mut s = AppState::new();
    s.untrusted_keys.push(pending("ancient", 1000));
    s.untrusted_keys.push(pending("future", 9_000_000_000));
    s.cleanup_expired_keys(21);
    assert_eq!(s.untrusted_keys.len(), 1);
    assert_eq!(s.untrusted_keys[0].fingerprint, "future");
}

#[test]
fn geofence_override_needs_a_second_attempt_in_time() {
    let mut s = AppState::new();
    assert!(!s.check_geofence_override_at("fp", 45, at(1000)));
    assert_eq!(s.geofence_overrides.get("fp"), Some(at(1000)));
    assert!(s.check_geofence_override_at("fp", 45, at(1044)));
    assert_eq!(s.geofence_overrides.get("fp"), None);
    // The grant was consumed: a third attempt starts over.
    assert!(!s.check_geofence_override_at("fp", 45, at(1050)));
}

#[test]
fn geofence_override_expires() {
    let mut s = AppState::new();
    assert!(!s.check_geofence_override_at("fp", 45, at(1000)));
    assert!(!s.check_geofence_override_at("fp", 45, at(1045)));
    assert_eq!(s.geofence_overrides.get("fp"), Some(at(1045)));
}

#[test]
fn cleanup_of_overrides_drops_old_attempts() {
    let mut s = AppState::new();
    s.geofence_overrides.insert("a".into(), at(100));
    s.geofence_overrides.insert("b".into(), at(150));
    s.cleanup_geofence_overrides_at(45, at(160));
    assert_eq!(s.geofence_overrides.get("a"), None);
    assert_eq!(s.geofence_overrides.get("b"), Some(at(150)));
}

#[test]
fn key_use_is_recorded() {
    let mut s = AppState::new();
    s.untrusted_keys.push(pending("fp1", 10));
    s.trust_key_at("fp1", "Max".into(), "iPhone".into(), at(30), 1).unwrap();
    s.record_key_use_at("fp1", at(40));
    s.record_key_use_at("fp1", at(50));
    assert_eq!(s.trusted_keys[0].use_count, 2);
    assert_eq!(s.trusted_keys[0].last_used, Some(at(50)));
    if let Some(k) = s.find_trusted_key_mut("fp1") {
        k.device_name = "Car".into();
    }
    assert_eq!(s.trusted_keys[0].device_name, "Car");
}

#[test]
fn override_table_round_trips_through_entries() {
    let mut t = OverrideTable::new();
    t.insert("x".into(), at(5));
    t.insert("y".into(), at(6));
    t.insert("x".into(), at(7));
    let mut entries = t.to_entries();
    entries.sort_by(|a, b| a.0.cmp(&b.0));
    assert_eq!(entries, vec![("x".to_string(), at(7)), ("y".to_string(), at(6))]);
    let back = OverrideTable::from_entries(vec![("x".into(), at(1)), ("x".into(), at(2))]);
    assert_eq!(back.get("x"), Some(at(2)));
    let mut t2 = back;
    t2.remove("x");
    assert_eq!(t2.get("x"), None);
}

#[test]
fn tofu_window_opens_and_closes() {
    let mut t = TofuState::default();
    assert!(!t.is_active_at(at(0)));
    t.activate_at(45, at(1000));
    assert!(t.is_active_at(at(1000)));
    assert!(t.is_active_at(Timestamp { secs: 1044, nanos: 999_999_999 }));
    assert!(!t.is_active_at(at(1045)));
    t.deactivate();
    assert!(!t.active);
    assert!(t.activated_at.is_none());
    assert_eq!(t.timeout_sec, 45);
    assert!(!t.is_active_at(at(1001)));
}

#[test]
fn tofu_activate_by_clock_is_active() {
    let mut t = TofuState::default();
    t.activate(60);
    assert!(t.is_active());
    assert_eq!(t.timeout_sec, 60);
}

#[test]
fn time_arithmetic() {
    assert_eq!(whole_seconds_since(Timestamp { secs: 10, nanos: 5 }, Timestamp { secs: 8, nanos: 10 }), 1);
    assert_eq!(whole_seconds_since(Timestamp { secs: 8, nanos: 10 }, Timestamp { secs: 10, nanos: 5 }), -1);
    assert_eq!(days_cutoff(at(200_000), 1), Some(at(200_000 - 86_400)));
    assert_eq!(seconds_cutoff(at(100), 45), Some(at(55)));
    assert_eq!(seconds_cutoff(at(100), u64::MAX), Some(at(101)));
    assert_eq!(days_cutoff(at(0), u64::MAX / 2), None);
    assert!(at(1).is_before(&at(2)));
    assert!(!at(2).is_before(&at(2)));
}
