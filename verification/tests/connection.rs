use garage_ssh_gate::config::AppConfig;
use garage_ssh_gate::connection::{
    admit_connection, complete_connection, outside_geofence_message, process_connection,
    process_connection_now,
    Admission, Completion, ConnectionAttempt, GeofenceCheck,
};
use garage_ssh_gate::keys::UntrustedKey;
use garage_ssh_gate::log::ConnectionResult;
use garage_ssh_gate::payload::{parse_client_payload, read_client_payload, version_mismatch_message};
use garage_ssh_gate::state::AppState;
use garage_ssh_gate::time::Timestamp;

fn at(secs: i64) -> Timestamp {
    Timestamp { secs, nanos: 0 }
}

fn config() -> AppConfig {
    AppConfig {
        ssh_port: 2242,
        webhook_url: "http://ha.local/api/webhook/garage".to_string(),
        home_latitude_bits: 52.52f64.to_bits(),
        home_longitude_bits: 13.405f64.to_bits(),
        geofence_radius_km_bits: 15.0f64.to_bits(),
        geofence_override_timeout_sec: 45,
        tofu_timeout_sec: 45,
        untrusted_key_retention_days: 21,
        expected_json_version: "1.0.1".to_string(),
        log_level: "info".to_string(),
        host_key_pem: String::new(),
    }
}

fn attempt(fp: &str) -> ConnectionAttempt {
    ConnectionAttempt {
        fingerprint: fp.to_string(),
        public_key: "ed25519 AAAA".to_string(),
        key_type: "ed25519".to_string(),
        ssh_username: "max".to_string(),
        client_ip: "10.0.0.2:50000".to_string(),
    }
}

const PAYLOAD: &str = r#"{
  "time": {"value": "2026-03-06T08:00:00+01:00", "format": "ISO 8601"},
  "device": {"version": "17.4", "model": "iPhone", "hostname": "maxs-iphone",
             "name": "Max's iPhone", "os": "iOS", "build": "21E219"},
  "position": {"longitude": 13.405, "latitude": 52.52, "altitude": 34.5},
  "version": "1.0.1"
}"#;

fn trusted_state(fp: &str) -> AppState {
    let mut s = AppState::new();
    s.untrusted_keys.push(UntrustedKey {
        id: 1,
        fingerprint: fp.to_string(),
        public_key: "ed25519 AAAA".to_string(),
        key_type: "ed25519".to_string(),
        ssh_username: "max".to_string(),
        first_seen: at(10),
        last_seen: at(10),
        attempt_count: 1,
        last_payload: None,
    });
    s.trust_key_at(fp, "Max".into(), "iPhone".into(), at(20), 2).unwrap();
    s
}

#[test]
fn payload_fields_are_read() {
    let p = parse_client_payload(PAYLOAD, "1.0.1").unwrap().unwrap();
    assert_eq!(p.device_name.as_deref(), Some("Max's iPhone"));
    assert_eq!(p.device_model.as_deref(), Some("iPhone"));
    assert_eq!(p.device_hostname.as_deref(), Some("maxs-iphone"));
    assert_eq!(p.device_os.as_deref(), Some("iOS"));
    assert_eq!(p.device_version.as_deref(), Some("17.4"));
    assert_eq!(p.time.as_deref(), Some("2026-03-06T08:00:00+01:00"));
    assert_eq!(p.version.as_deref(), Some("1.0.1"));
    assert_eq!(p.latitude.as_ref().map(|n| n.repr.as_str()), Some("52.52"));
    assert_eq!(p.longitude.as_ref().map(|n| n.repr.as_str()), Some("13.405"));
    assert_eq!(p.altitude.as_ref().map(|n| n.repr.as_str()), Some("34.5"));
    assert!(p.raw_sanitized.starts_with("{\"device\":{"));
    assert!(p.raw_sanitized.contains("\"version\":\"1.0.1\""));
}

#[test]
fn blank_payload_is_no_payload() {
    assert!(matches!(parse_client_payload("  \n\t ", "1.0.1"), Ok(None)));
    assert!(matches!(read_client_payload(b"", "1.0.1"), Some(Ok(None))));
}

#[test]
fn invalid_json_is_an_error() {
    match parse_client_payload("{not json", "1.0.1") {
        Err(e) => assert!(e.starts_with("Invalid JSON: "), "{}", e),
        other => panic!("unexpected {:?}", other),
    }
}

#[test]
fn wrong_version_is_an_error() {
    let doc = r#"{"version": "0.9"}"#;
    match parse_client_payload(doc, "1.0.1") {
        Err(e) => assert_eq!(e, "version mismatch: expected '1.0.1', got '0.9'"),
        other => panic!("unexpected {:?}", other),
    }
    assert_eq!(version_mismatch_message("a", "b"), "version mismatch: expected 'a', got 'b'");
}

#[test]
fn payload_without_version_is_accepted() {
    let p = parse_client_payload(r#"{"device": {"name": "<b>Pixel</b><script>x</script>"}}"#, "1.0.1")
        .unwrap()
        .unwrap();
    assert_eq!(p.device_name.as_deref(), Some("<b>Pixel</b>"));
    assert!(p.version.is_none());
    assert!(p.latitude.is_none());
}

#[test]
fn invalid_utf8_is_replaced() {
    let bytes = b"{\"device\": {\"name\": \"A\xffB\"}}";
    let p = read_client_payload(bytes, "1.0.1").unwrap().unwrap().unwrap();
    assert_eq!(p.device_name.as_deref(), Some("A\u{FFFD}B"));
}

#[test]
fn trusted_key_is_admitted_and_recorded() {
    let mut s = trusted_state("fpT");
    let a = process_connection(&mut s, &config(), &attempt("fpT"), PAYLOAD.as_bytes(), at(100), 5, 6)
        .unwrap();
    match a {
        Admission::Admitted { payload } => {
            assert_eq!(payload.unwrap().device_name.as_deref(), Some("Max's iPhone"))
        }
        other => panic!("unexpected {:?}", other),
    }
    assert_eq!(s.untrusted_keys.len(), 1);
    assert_eq!(s.untrusted_keys[0].fingerprint, "fpT");
    assert_eq!(s.untrusted_keys[0].id, 5);
    assert!(s.connection_log.is_empty());
}

#[test]
fn untrusted_key_is_refused_without_tofu() {
    let mut s = AppState::new();
    let a = process_connection(&mut s, &config(), &attempt("fpU"), PAYLOAD.as_bytes(), at(100), 5, 6)
        .unwrap();
    match a {
        Admission::Rejected { response } => assert_eq!(
            response,
            "FAIL: Key not trusted. Please ask the administrator to trust your key.\n"
        ),
        other => panic!("unexpected {:?}", other),
    }
    assert_eq!(s.untrusted_keys.len(), 1);
    assert_eq!(s.untrusted_keys[0].fingerprint, "fpU");
    assert_eq!(
        s.untrusted_keys[0].last_payload.as_ref().and_then(|p| p.device_name.clone()).as_deref(),
        Some("Max's iPhone")
    );
    assert!(s.trusted_keys.is_empty());
    assert_eq!(s.connection_log.len(), 1);
    assert!(matches!(s.connection_log[0].result, ConnectionResult::UntrustedKey));
    assert_eq!(s.connection_log[0].client_ip, "10.0.0.2:50000");
}

#[test]
fn tofu_trusts_a_new_key() {
    let mut s = AppState::new();
    s.tofu.activate_at(45, at(1000));
    let a = admit_connection(&mut s, &config(), &attempt("fpN"), Ok(None), at(1010), 5, 6);
    assert!(matches!(a, Admission::Admitted { payload: None }));
    assert_eq!(s.trusted_keys.len(), 1);
    assert_eq!(s.trusted_keys[0].fingerprint, "fpN");
    assert_eq!(s.trusted_keys[0].device_name, "Unknown Device");
    assert_eq!(s.trusted_keys[0].username, "max");
    assert_eq!(s.trusted_keys[0].id, 6);
    assert!(s.untrusted_keys.is_empty());
    assert!(matches!(s.connection_log[0].result, ConnectionResult::TofuTrusted));
}

#[test]
fn tofu_uses_the_device_name() {
    let mut s = AppState::new();
    s.tofu.activate_at(45, at(1000));
    let a = process_connection(&mut s, &config(), &attempt("fpN"), PAYLOAD.as_bytes(), at(1010), 5, 6)
        .unwrap();
    assert!(matches!(a, Admission::Admitted { .. }));
    assert_eq!(s.trusted_keys[0].device_name, "Max's iPhone");
}

#[test]
fn tofu_skips_keys_pending_before_it() {
    let mut s = AppState::new();
    s.record_untrusted_key_at("fpP".into(), "pk".into(), "ed25519".into(), "max".into(), None, at(900), 1);
    s.tofu.activate_at(45, at(1000));
    let a = admit_connection(&mut s, &config(), &attempt("fpP"), Ok(None), at(1010), 5, 6);
    match a {
        Admission::Rejected { response } => assert_eq!(
            response,
            "FAIL: Key was already pending before TOFU mode. Please ask the admin to trust it manually.\n"
        ),
        other => panic!("unexpected {:?}", other),
    }
    assert!(s.trusted_keys.is_empty());
    assert_eq!(s.untrusted_keys[0].attempt_count, 2);
}

#[test]
fn expired_tofu_refuses() {
    let mut s = AppState::new();
    s.tofu.activate_at(45, at(1000));
    let a = admit_connection(&mut s, &config(), &attempt("fpN"), Ok(None), at(1045), 5, 6);
    assert!(matches!(a, Admission::Rejected { .. }));
    assert!(s.trusted_keys.is_empty());
}

#[test]
fn payload_errors_are_refused_and_logged() {
    let mut s = AppState::new();
    let a = process_connection(
        &mut s,
        &config(),
        &attempt("fpE"),
        br#"{"version": "2.0"}"#,
        at(100),
        5,
        6,
    )
    .unwrap();
    match a {
        Admission::Rejected { response } => {
            assert_eq!(response, "FAIL: version mismatch: expected '1.0.1', got '2.0'\n")
        }
        other => panic!("unexpected {:?}", other),
    }
    assert_eq!(s.untrusted_keys.len(), 1);
    assert!(s.untrusted_keys[0].last_payload.is_none());
    match &s.connection_log[0].result {
        ConnectionResult::VersionMismatch { expected, got } => {
            assert_eq!(expected, "1.0.1");
            assert_eq!(got, "version mismatch: expected '1.0.1', got '2.0'");
        }
        other => panic!("unexpected {:?}", other),
    }
    let a = admit_connection(&mut s, &config(), &attempt("fpE"), Err("Invalid JSON: x".into()), at(101), 5, 6);
    assert!(matches!(a, Admission::Rejected { .. }));
    assert!(matches!(&s.connection_log[1].result, ConnectionResult::InvalidJson(m) if m == "Invalid JSON: x"));
}

#[test]
fn geofence_override_lets_the_second_attempt_through() {
    let mut s = trusted_state("fpG");
    let cfg = config();
    let outside = GeofenceCheck::Outside { distance_km_bits: 20.5f64.to_bits() };
    let c1 = complete_connection(&mut s, &cfg, &attempt("fpG"), None, outside, at(1000));
    assert!(matches!(c1, Completion::OutsideGeofence { .. }));
    assert!(matches!(s.connection_log[0].result, ConnectionResult::OutsideGeofence { .. }));
    assert_eq!(s.trusted_keys[0].use_count, 0);
    let c2 = complete_connection(&mut s, &cfg, &attempt("fpG"), None, outside, at(1030));
    assert!(matches!(c2, Completion::Accepted));
    assert!(matches!(s.connection_log[1].result, ConnectionResult::GeofenceOverrideSuccess { .. }));
    assert!(matches!(s.connection_log[2].result, ConnectionResult::Success));
    assert_eq!(s.trusted_keys[0].use_count, 1);
    assert_eq!(s.trusted_keys[0].last_used, Some(at(1030)));
}

#[test]
fn inside_the_geofence_is_accepted() {
    let mut s = trusted_state("fpI");
    let c = complete_connection(&mut s, &config(), &attempt("fpI"), None, GeofenceCheck::Inside, at(50));
    assert!(matches!(c, Completion::Accepted));
    assert_eq!(s.connection_log.len(), 1);
    assert_eq!(s.trusted_keys[0].use_count, 1);
}

#[test]
fn outside_message_text() {
    assert_eq!(
        outside_geofence_message("20.5", "15", 45),
        "FAIL: You are 20.5 km away from the garage (max: 15 km).\nIf this is intentional, run the shortcut again within 45 seconds to override.\n"
    );
}

#[test]
fn connection_by_the_clock_records_a_fresh_key() {
    let mut s = AppState::new();
    let (a, when) =
        process_connection_now(&mut s, &config(), &attempt("fpC"), b"").unwrap();
    assert!(matches!(a, Admission::Rejected { .. }));
    assert!(when.secs > 1_600_000_000);
    assert_eq!(s.untrusted_keys[0].first_seen, when);
    assert_eq!(s.untrusted_keys[0].id & 0xf000_0000_0000_0000_0000, 0x4000_0000_0000_0000_0000);
    assert_eq!(s.connection_log[0].timestamp, when);
}
