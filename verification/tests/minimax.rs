use codenotch::credentials::CredentialFile;
use codenotch::json::JsonNode;
use codenotch::minimax::{
    absent_snapshot, after_fallback, after_primary, fetch_error_text, parse_remains_response,
    remains_snapshot, resolve_api_key, FetchError, ModelRemain, RemainsResponse,
};
use codenotch::usage::{Status, UsageSnapshot};
use serde_json::Value;

fn micros(x: f64) -> i64 {
    (x * 1e6).round() as i64
}

fn fraction(snap: &UsageSnapshot, i: usize) -> f64 {
    snap.windows[i].used.num as f64 / snap.windows[i].used.den as f64
}

fn count(v: &Value, key: &str) -> Option<i64> {
    v.get(key).and_then(|x| x.as_f64()).map(micros)
}

fn time(v: &Value, key: &str) -> Option<u64> {
    v.get(key).and_then(|x| x.as_u64())
}

fn remains_from_json(text: &str) -> RemainsResponse {
    let v: Value = serde_json::from_str(text).expect("valid json");
    let mut model_remains = Vec::new();
    if let Some(items) = v.get("model_remains").and_then(|m| m.as_array()) {
        for item in items {
            model_remains.push(ModelRemain {
                start_time: time(item, "start_time"),
                end_time: time(item, "end_time"),
                remains_time: time(item, "remains_time"),
                current_interval_total_count: count(item, "current_interval_total_count"),
                current_interval_usage_count: count(item, "current_interval_usage_count"),
                model_name: item.get("model_name").and_then(|x| x.as_str()).map(String::from),
                current_weekly_total_count: count(item, "current_weekly_total_count"),
                current_weekly_usage_count: count(item, "current_weekly_usage_count"),
                weekly_start_time: time(item, "weekly_start_time"),
                weekly_end_time: time(item, "weekly_end_time"),
                weekly_remains_time: time(item, "weekly_remains_time"),
            });
        }
    }
    RemainsResponse { model_remains, base_resp: None }
}

#[test]
fn parses_token_plan_remains_json() {
    let json = r#"{
        "model_remains": [
            {
                "start_time": 1778616000000,
                "end_time": 1778630400000,
                "remains_time": 12241883,
                "current_interval_total_count": 1500,
                "current_interval_usage_count": 150,
                "model_name": "MiniMax-Text-01",
                "current_weekly_total_count": 10000,
                "current_weekly_usage_count": 500,
                "weekly_start_time": 1778457600000,
                "weekly_end_time": 1779062400000,
                "weekly_remains_time": 444241883
            }
        ],
        "base_resp": {
            "status_code": 0,
            "status_msg": "success"
        }
    }"#;

    let resp = remains_from_json(json);
    let snap = parse_remains_response(&resp);

    assert_eq!(snap.status, Status::Live);
    assert_eq!(snap.windows.len(), 2);
    assert!((fraction(&snap, 0) - 0.10).abs() < 1e-4);
    assert_eq!(snap.windows[0].resets_at, Some(1778630400000));
    assert!((fraction(&snap, 1) - 0.05).abs() < 1e-4);
    assert_eq!(snap.windows[1].resets_at, Some(1779062400000));
}

#[test]
fn handles_empty_token_plan_gracefully() {
    let resp = RemainsResponse::default();
    let snap = parse_remains_response(&resp);
    assert_eq!(snap.status, Status::Live);
    assert_eq!(snap.windows.len(), 1);
    assert!(snap.windows[0].derived);
    assert_eq!(fraction(&snap, 0), 0.0);
}

fn one_model(total: Option<f64>, used: Option<f64>, name: Option<&str>) -> RemainsResponse {
    let mut m = ModelRemain::default();
    m.current_interval_total_count = total.map(micros);
    m.current_interval_usage_count = used.map(micros);
    m.model_name = name.map(String::from);
    RemainsResponse { model_remains: vec![m], base_resp: None }
}

#[test]
fn interval_window_labels_counts_and_note() {
    let snap = remains_snapshot(&one_model(Some(1500.0), Some(150.0), Some("M2")), 42);
    assert_eq!(snap.fetched_at, 42);
    assert_eq!(snap.windows.len(), 1);
    assert_eq!(snap.windows[0].id, "interval");
    assert_eq!(snap.windows[0].label, "Interval limit (M2)");
    assert_eq!(snap.windows[0].count, Some(150));
    assert_eq!(snap.windows[0].group.as_deref(), Some("M2"));
    assert_eq!(snap.note, "M2 Token Plan active");
}

#[test]
fn unnamed_model_is_called_minimax() {
    let snap = remains_snapshot(&one_model(Some(10.0), Some(1.0), None), 1);
    assert_eq!(snap.windows[0].label, "Interval limit (MiniMax)");
    assert_eq!(snap.note, "MiniMax Token Plan active");
}

#[test]
fn zero_total_gives_no_window_and_pay_as_you_go_note() {
    let snap = remains_snapshot(&one_model(Some(0.0), Some(5.0), Some("M2")), 1);
    assert_eq!(snap.status, Status::Live);
    assert!(snap.windows.is_empty());
    assert_eq!(snap.note, "M2 · Pay-As-You-Go (No Token Plan active)");
    let snap = remains_snapshot(&one_model(Some(100.0), None, Some("M2")), 1);
    assert!(snap.windows.is_empty());
}

#[test]
fn usage_beyond_total_is_clamped_to_full() {
    let snap = remains_snapshot(&one_model(Some(100.0), Some(250.0), None), 1);
    assert_eq!(fraction(&snap, 0), 1.0);
    assert_eq!(snap.windows[0].count, Some(250));
    let snap = remains_snapshot(&one_model(Some(100.0), Some(-3.0), None), 1);
    assert_eq!(fraction(&snap, 0), 0.0);
    assert_eq!(snap.windows[0].count, Some(-3));
}

#[test]
fn pay_as_you_go_account_window() {
    let snap = remains_snapshot(&RemainsResponse::default(), 9);
    assert_eq!(snap.windows[0].id, "minimax-account");
    assert_eq!(snap.windows[0].label, "MiniMax Pay-As-You-Go");
    assert_eq!(snap.note, "MiniMax Connected · Pay-As-You-Go");
}

#[test]
fn rejected_key_needs_auth_without_fallback() {
    for code in [401u16, 403] {
        let snap = after_primary(Err(FetchError::Status(code)), 5).expect("decided");
        assert_eq!(snap.status, Status::NeedsAuth);
        assert_eq!(snap.note, "MiniMax API key rejected — check your API key");
        assert!(snap.windows.is_empty());
    }
}

#[test]
fn other_failures_try_the_fallback() {
    assert!(after_primary(Err(FetchError::Status(500)), 5).is_none());
    assert!(after_primary(Err(FetchError::Transport("timeout".to_string())), 5).is_none());
    assert!(after_primary(Ok(RemainsResponse::default()), 5).is_some());
}

#[test]
fn fallback_failure_is_an_error_with_its_message() {
    let snap = after_fallback(Err(FetchError::Status(502)), 5);
    assert_eq!(snap.status, Status::Error);
    assert_eq!(snap.note, "MiniMax API error: HTTP 502");
    let snap = after_fallback(Err(FetchError::Malformed("bad json".to_string())), 5);
    assert_eq!(snap.note, "MiniMax API error: bad json");
}

#[test]
fn fetch_error_texts() {
    assert_eq!(fetch_error_text(&FetchError::Status(403)), "auth_rejected");
    assert_eq!(fetch_error_text(&FetchError::Status(429)), "HTTP 429");
    assert_eq!(fetch_error_text(&FetchError::Status(0)), "HTTP 0");
    assert_eq!(fetch_error_text(&FetchError::Transport("x".to_string())), "x");
}

#[test]
fn minimax_absent_report() {
    let snap = absent_snapshot(3);
    assert_eq!(snap.status, Status::Absent);
    assert!(snap.windows.is_empty());
    assert_eq!(
        snap.note,
        "Configure MINIMAX_API_KEY or %APPDATA%\\codenotch\\minimax.key to see usage."
    );
}

fn file(text: &str, json: Option<JsonNode>) -> Option<CredentialFile> {
    Some(CredentialFile { text: text.to_string(), json })
}

fn object(entries: Vec<(&str, JsonNode)>) -> JsonNode {
    JsonNode::Object(entries.into_iter().map(|(k, v)| (k.to_string(), v)).collect())
}

fn text(s: &str) -> JsonNode {
    JsonNode::Text(s.to_string())
}

#[test]
fn minimax_key_sources_in_order() {
    let files = vec![None, file("{}", Some(object(vec![("key", text("  from-json \n"))])))];
    assert_eq!(
        resolve_api_key(Some(" env-key ".to_string()), &files, Some("kf".to_string())).as_deref(),
        Some("env-key")
    );
    assert_eq!(
        resolve_api_key(Some("   ".to_string()), &files, Some("kf".to_string())).as_deref(),
        Some("from-json")
    );
    let bare = vec![file("  sk-bare\n", None)];
    assert_eq!(resolve_api_key(None, &bare, None).as_deref(), Some("sk-bare"));
    assert_eq!(resolve_api_key(None, &vec![], Some(" kf \n".to_string())).as_deref(), Some("kf"));
    assert_eq!(resolve_api_key(None, &vec![], Some(" \n".to_string())), None);
}

#[test]
fn minimax_json_file_without_string_key_gives_no_key() {
    // `api_key` that is not a string hides `key`; a JSON number is no key.
    let files = vec![
        file("{}", Some(object(vec![("api_key", JsonNode::Number), ("key", text("k"))]))),
        file("12345", Some(JsonNode::Number)),
    ];
    assert_eq!(resolve_api_key(None, &files, None), None);
}
