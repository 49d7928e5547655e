use codenotch::refresh::RefreshSignal;
use codenotch::text::{concat2, contains_text, decimal_text, remove_char};
use codenotch::usage::{
    clamp_ratio, micros_to_units, restore_persisted, should_persist, LimitWindow, Ratio, Status,
    UsageSnapshot,
};
use codenotch::{deepseek, minimax, muse, opencode};

fn window() -> LimitWindow {
    LimitWindow {
        id: "w".to_string(),
        label: "W".to_string(),
        used: Ratio { num: 1, den: 2 },
        resets_at: Some(9),
        count: Some(3),
        derived: false,
        group: None,
    }
}

#[test]
fn restoring_marks_readings_stale() {
    let saved = UsageSnapshot { status: Status::Live, windows: vec![window()], fetched_at: 12, note: "n".to_string() };
    let s = restore_persisted(Some(saved));
    assert_eq!(s.status, Status::Stale);
    assert_eq!(s.windows.len(), 1);
    assert_eq!(s.fetched_at, 12);
    assert_eq!(s.note, "n");
    let saved = UsageSnapshot { status: Status::NeedsAuth, windows: vec![], fetched_at: 12, note: "n".to_string() };
    assert_eq!(restore_persisted(Some(saved)).status, Status::NeedsAuth);
    let s = restore_persisted(None);
    assert_eq!(s.status, Status::Unset);
    assert!(s.windows.is_empty());
    assert_eq!(s.fetched_at, 0);
    assert_eq!(s.note, "");
}

#[test]
fn restoring_twice_is_restoring_once() {
    let saved = UsageSnapshot { status: Status::Live, windows: vec![window()], fetched_at: 1, note: String::new() };
    let once = restore_persisted(Some(saved));
    let twice = restore_persisted(Some(UsageSnapshot { status: once.status, windows: vec![window()], fetched_at: once.fetched_at, note: once.note.clone() }));
    assert_eq!(twice.status, once.status);
}

#[test]
fn absent_reports_are_not_saved() {
    assert!(!should_persist(&deepseek::absent_snapshot(1)));
    assert!(!should_persist(&minimax::absent_snapshot(1)));
    assert!(!should_persist(&muse::absent_snapshot(1)));
    assert!(should_persist(&UsageSnapshot { status: Status::Error, windows: vec![], fetched_at: 1, note: String::new() }));
}

#[test]
fn refresh_signal_is_taken_once() {
    let signal = RefreshSignal::new();
    assert!(!signal.take());
    deepseek::request_refresh(&signal);
    assert!(signal.take());
    assert!(!signal.take());
    minimax::request_refresh(&signal);
    muse::request_refresh(&signal);
    opencode::request_refresh(&signal);
    assert!(signal.take());
}

#[test]
fn ratios_and_units() {
    assert_eq!(clamp_ratio(5, 10), Ratio { num: 5, den: 10 });
    assert_eq!(clamp_ratio(50, 10), Ratio { num: 10, den: 10 });
    assert_eq!(clamp_ratio(-5, 10), Ratio { num: 0, den: 10 });
    assert_eq!(Ratio::zero(), Ratio { num: 0, den: 1 });
    assert_eq!(Ratio::one(), Ratio { num: 1, den: 1 });
    assert_eq!(micros_to_units(2_999_999), 2);
    assert_eq!(micros_to_units(-2_999_999), -2);
    assert_eq!(micros_to_units(i64::MIN), -9223372036854);
}

#[test]
fn text_helpers() {
    assert_eq!(decimal_text(0), "0");
    assert_eq!(decimal_text(18446744073709551615), "18446744073709551615");
    assert_eq!(concat2("a", "bc"), "abc");
    assert!(contains_text("hello world", "o w"));
    assert!(contains_text("abc", ""));
    assert!(!contains_text("ab", "abc"));
    assert!(!contains_text("aab", "abb"));
    assert_eq!(remove_char("a$b$", '$'), "ab");
}

#[test]
fn clock_reads_after_the_epoch() {
    // 2020-01-01T00:00:00Z; the clock of any machine running this is later.
    assert!(codenotch::clock::now_ms() > 1_577_836_800_000);
}

#[test]
fn trim_removes_unicode_whitespace_like_std() {
    for s in ["  a b \n", "\u{3000}x\u{85}", "\t\r\n", "", "no-space", "\u{200b}z\u{200b}", " \u{a0}y\u{2029}"] {
        let key = codenotch::minimax::resolve_api_key(Some(s.to_string()), &vec![], None);
        let expected = s.trim();
        if expected.is_empty() {
            assert_eq!(key, None);
        } else {
            assert_eq!(key.as_deref(), Some(expected));
        }
    }
}
