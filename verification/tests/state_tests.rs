use acp::state::{format_duration_ago, format_duration_between, ServiceState};
use std::time::{SystemTime, UNIX_EPOCH};

#[test]
fn test_service_state_default() {
    let state = ServiceState::default();
    assert!(state.last_check_timestamp.is_none());
    assert!(state.last_successful_login_timestamp.is_none());
    assert!(state.last_portal_detected.is_none());
}

#[test]
fn test_format_duration_ago_seconds() {
    let now = SystemTime::now()
        .duration_since(UNIX_EPOCH)
        .unwrap()
        .as_secs();
    let timestamp = now - 30;
    let result = format_duration_ago(timestamp);
    assert_eq!(result, "30 seconds ago");
}

#[test]
fn test_format_duration_ago_one_minute() {
    let now = SystemTime::now()
        .duration_since(UNIX_EPOCH)
        .unwrap()
        .as_secs();
    let timestamp = now - 60;
    let result = format_duration_ago(timestamp);
    assert_eq!(result, "1 minute ago");
}

#[test]
fn test_format_duration_ago_minutes() {
    let now = SystemTime::now()
        .duration_since(UNIX_EPOCH)
        .unwrap()
        .as_secs();
    let timestamp = now - 300; // 5 minutes
    let result = format_duration_ago(timestamp);
    assert_eq!(result, "5 minutes ago");
}

#[test]
fn test_format_duration_ago_one_hour() {
    let now = SystemTime::now()
        .duration_since(UNIX_EPOCH)
        .unwrap()
        .as_secs();
    let timestamp = now - 3600;
    let result = format_duration_ago(timestamp);
    assert_eq!(result, "1 hour ago");
}

#[test]
fn test_format_duration_ago_hours() {
    let now = SystemTime::now()
        .duration_since(UNIX_EPOCH)
        .unwrap()
        .as_secs();
    let timestamp = now - 7200; // 2 hours
    let result = format_duration_ago(timestamp);
    assert_eq!(result, "2 hours ago");
}

#[test]
fn test_format_duration_ago_one_day() {
    let now = SystemTime::now()
        .duration_since(UNIX_EPOCH)
        .unwrap()
        .as_secs();
    let timestamp = now - 86400;
    let result = format_duration_ago(timestamp);
    assert_eq!(result, "1 day ago");
}

#[test]
fn test_format_duration_ago_days() {
    let now = SystemTime::now()
        .duration_since(UNIX_EPOCH)
        .unwrap()
        .as_secs();
    let timestamp = now - 172800; // 2 days
    let result = format_duration_ago(timestamp);
    assert_eq!(result, "2 days ago");
}

#[test]
fn test_format_duration_ago_future_timestamp() {
    let now = SystemTime::now()
        .duration_since(UNIX_EPOCH)
        .unwrap()
        .as_secs();
    let timestamp = now + 100; // Future timestamp
    let result = format_duration_ago(timestamp);
    assert_eq!(result, "just now");
}

#[test]
fn test_format_duration_ago_zero_seconds() {
    let now = SystemTime::now()
        .duration_since(UNIX_EPOCH)
        .unwrap()
        .as_secs();
    let result = format_duration_ago(now);
    assert_eq!(result, "0 seconds ago");
}

#[test]
fn test_state_timestamp_boundaries() {
    // Test edge case with very old timestamp
    let result = format_duration_ago(0);
    assert!(result.contains("day"));

    // Test with timestamp 1 second ago
    let now = SystemTime::now()
        .duration_since(UNIX_EPOCH)
        .unwrap()
        .as_secs();
    let result = format_duration_ago(now - 1);
    assert_eq!(result, "1 seconds ago");
}

#[test]
fn test_service_state_serialization() {
    let state = ServiceState {
        last_check_timestamp: Some(1234567890),
        last_successful_login_timestamp: Some(1234567891),
        last_portal_detected: Some("https://portal.test.com".to_string()),
    };

    let mut fields = serde_json::Map::new();
    fields.insert(
        "last_check_timestamp".to_string(),
        serde_json::to_value(state.last_check_timestamp).unwrap(),
    );
    fields.insert(
        "last_successful_login_timestamp".to_string(),
        serde_json::to_value(state.last_successful_login_timestamp).unwrap(),
    );
    fields.insert(
        "last_portal_detected".to_string(),
        serde_json::to_value(&state.last_portal_detected).unwrap(),
    );
    let json = serde_json::to_string(&serde_json::Value::Object(fields));
    assert!(json.is_ok());

    let deserialized: Result<serde_json::Value, _> = serde_json::from_str(&json.unwrap());
    assert!(deserialized.is_ok());

    let value = deserialized.unwrap();
    let deserialized_state = ServiceState {
        last_check_timestamp: value["last_check_timestamp"].as_u64(),
        last_successful_login_timestamp: value["last_successful_login_timestamp"].as_u64(),
        last_portal_detected: value["last_portal_detected"].as_str().map(|s| s.to_string()),
    };
    assert_eq!(
        deserialized_state.last_check_timestamp,
        Some(1234567890)
    );
    assert_eq!(
        deserialized_state.last_successful_login_timestamp,
        Some(1234567891)
    );
    assert_eq!(
        deserialized_state.last_portal_detected,
        Some("https://portal.test.com".to_string())
    );
    assert_eq!(deserialized_state, state);
}

#[test]
fn duration_between_exact_texts() {
    let cases: [(u64, u64, &str); 18] = [
        (100, 100, "0 seconds ago"),
        (100, 99, "1 seconds ago"),
        (100, 41, "59 seconds ago"),
        (100, 40, "1 minute ago"),
        (219, 100, "1 minute ago"),
        (220, 100, "2 minutes ago"),
        (3699, 100, "59 minutes ago"),
        (3700, 100, "1 hour ago"),
        (7299, 100, "1 hour ago"),
        (7300, 100, "2 hours ago"),
        (86499, 100, "23 hours ago"),
        (86500, 100, "1 day ago"),
        (172899, 100, "1 day ago"),
        (172900, 100, "2 days ago"),
        (1_700_000_000, 0, "19675 days ago"),
        (u64::MAX, 0, "213503982334601 days ago"),
        (99, 100, "just now"),
        (0, u64::MAX, "just now"),
    ];
    for (now, timestamp, text) in cases {
        assert_eq!(format_duration_between(now, timestamp), text);
    }
}

#[test]
fn record_notes_check_login_and_portal() {
    let mut state = ServiceState::default();
    state.record(1000, Some("https://portal.example.com"), false);
    assert_eq!(state.last_check_timestamp, Some(1000));
    assert_eq!(state.last_successful_login_timestamp, None);
    assert_eq!(state.last_portal_detected, Some("https://portal.example.com".to_string()));

    state.record(2000, None, true);
    assert_eq!(state.last_check_timestamp, Some(2000));
    assert_eq!(state.last_successful_login_timestamp, Some(2000));
    assert_eq!(state.last_portal_detected, Some("https://portal.example.com".to_string()));
}

#[test]
fn record_keeps_what_is_not_noted_anew() {
    let mut state = ServiceState {
        last_check_timestamp: Some(5),
        last_successful_login_timestamp: Some(4),
        last_portal_detected: Some("https://first.com".to_string()),
    };
    state.record(9, None, false);
    assert_eq!(state.last_check_timestamp, Some(9));
    assert_eq!(state.last_successful_login_timestamp, Some(4));
    assert_eq!(state.last_portal_detected, Some("https://first.com".to_string()));

    state.record(10, Some("https://second.com"), true);
    assert_eq!(
        state,
        ServiceState {
            last_check_timestamp: Some(10),
            last_successful_login_timestamp: Some(10),
            last_portal_detected: Some("https://second.com".to_string()),
        }
    );
}
