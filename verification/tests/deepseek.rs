use codenotch::credentials::CredentialFile;
use codenotch::deepseek::{
    absent_snapshot, balance_snapshot, failure_snapshot, malformed_snapshot, resolve_api_key,
    BalanceInfo, BalanceResponse,
};
use codenotch::json::JsonNode;
use codenotch::usage::{micros_to_cents, HttpFailure, Status, UsageSnapshot};

fn micros(text: &str) -> i64 {
    (text.parse::<f64>().unwrap_or(0.0) * 1e6).round() as i64
}

fn info(currency: &str, total: &str, granted: &str, topped: &str) -> BalanceInfo {
    BalanceInfo {
        currency: currency.to_string(),
        total_balance: total.to_string(),
        total: micros(total),
        granted: micros(granted),
        topped_up: micros(topped),
    }
}

fn fraction(snap: &UsageSnapshot, i: usize) -> f64 {
    snap.windows[i].used.num as f64 / snap.windows[i].used.den as f64
}

#[test]
fn balance_windows_per_currency() {
    let resp = BalanceResponse {
        is_available: true,
        balance_infos: vec![info("CNY", "110.00", "10.00", "100.00"), info("USD", "0.00", "0", "0")],
    };
    let snap = balance_snapshot(&resp, 77);
    assert_eq!(snap.status, Status::Live);
    assert_eq!(snap.fetched_at, 77);
    let ids: Vec<&str> = snap.windows.iter().map(|w| w.id.as_str()).collect();
    assert_eq!(ids, vec!["deepseek-cny", "deepseek-cny-topped", "deepseek-cny-granted", "deepseek-usd"]);
    assert_eq!(snap.windows[0].label, "Saldo CNY");
    assert_eq!(snap.windows[0].count, Some(11000));
    assert_eq!(fraction(&snap, 0), 0.0);
    assert_eq!(snap.windows[1].label, "Recarregado (CNY)");
    assert_eq!(snap.windows[1].count, Some(10000));
    assert_eq!(snap.windows[2].label, "Concedido (CNY)");
    assert_eq!(snap.windows[2].count, Some(1000));
    assert_eq!(snap.windows[2].group.as_deref(), Some("DeepSeek"));
    // A balance that is not positive shows as depleted.
    assert_eq!(fraction(&snap, 3), 1.0);
    assert_eq!(snap.note, "Total: CNY 110.00");
}

#[test]
fn unparsable_amount_counts_as_zero() {
    let resp = BalanceResponse { is_available: true, balance_infos: vec![info("EUR", "n/a", "x", "y")] };
    let snap = balance_snapshot(&resp, 1);
    assert_eq!(snap.windows.len(), 1);
    assert_eq!(snap.windows[0].count, Some(0));
    assert_eq!(fraction(&snap, 0), 1.0);
    assert_eq!(snap.note, "Total: EUR n/a");
}

#[test]
fn no_balance_is_an_error() {
    let snap = balance_snapshot(&BalanceResponse { is_available: false, balance_infos: vec![] }, 1);
    assert_eq!(snap.status, Status::Error);
    assert!(snap.windows.is_empty());
    assert_eq!(snap.note, "DeepSeek account balance unavailable");
}

fn failure(status: Option<u16>, message: &str) -> HttpFailure {
    HttpFailure { status, message: message.to_string(), body: String::new() }
}

#[test]
fn deepseek_failures() {
    let snap = failure_snapshot(&failure(Some(401), "denied"), 1);
    assert_eq!(snap.status, Status::NeedsAuth);
    assert_eq!(snap.note, "DeepSeek API key invalid (401/403): denied");
    assert_eq!(failure_snapshot(&failure(Some(403), "x"), 1).status, Status::NeedsAuth);
    let snap = failure_snapshot(&failure(Some(429), "slow"), 1);
    assert_eq!(snap.status, Status::Error);
    assert_eq!(snap.note, "DeepSeek API rate limited (429): slow");
    let snap = failure_snapshot(&failure(Some(500), "boom"), 1);
    assert_eq!(snap.note, "Failed to reach DeepSeek API: boom");
    let snap = failure_snapshot(&failure(None, "dns"), 1);
    assert_eq!(snap.status, Status::Error);
    assert_eq!(snap.note, "Failed to reach DeepSeek API: dns");
    let snap = malformed_snapshot("eof", 1);
    assert_eq!(snap.note, "Malformed DeepSeek balance payload: eof");
    let snap = absent_snapshot(1);
    assert_eq!(snap.status, Status::Absent);
    assert_eq!(snap.note, "No DEEPSEEK_API_KEY or %APPDATA%\\codenotch\\deepseek.key found");
}

#[test]
fn cents_round_half_away_from_zero() {
    assert_eq!(micros_to_cents(5_000), 1);
    assert_eq!(micros_to_cents(4_999), 0);
    assert_eq!(micros_to_cents(-5_000), -1);
    assert_eq!(micros_to_cents(-4_999), 0);
    assert_eq!(micros_to_cents(i64::MIN), -922337203685478);
    assert_eq!(micros_to_cents(123_456_789), 12346);
}

#[test]
fn deepseek_key_ignores_bare_text_files() {
    let files = vec![
        Some(CredentialFile { text: "sk-plain".to_string(), json: None }),
        Some(CredentialFile {
            text: "{}".to_string(),
            json: Some(JsonNode::Object(vec![(
                "api_key".to_string(),
                JsonNode::Text(" sk-json ".to_string()),
            )])),
        }),
    ];
    assert_eq!(resolve_api_key(None, &files, None).as_deref(), Some("sk-json"));
    let plain = vec![Some(CredentialFile { text: "sk-plain".to_string(), json: None })];
    assert_eq!(
        resolve_api_key(None, &plain, Some("sk-file\r\n".to_string())).as_deref(),
        Some("sk-file")
    );
}
