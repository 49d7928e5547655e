use codenotch::muse::{
    absent_snapshot, choose_config_dir, choose_usage_file, ConfigDir, muse_snapshot, AuthFile, MetaProviderAuth, MuseFiles,
    MuseUsageStore, ProviderEntry, SettingsFile, UsageFile, WindowData,
};
use codenotch::usage::{Status, UsageSnapshot};

fn percent_micros(p: f64) -> i64 {
    (p * 1e6).round() as i64
}

fn files(email: Option<&str>, model: Option<&str>, usage: Option<MuseUsageStore>) -> MuseFiles {
    MuseFiles {
        auth: email.map(|e| AuthFile {
            providers: vec![
                ProviderEntry {
                    name: "other".to_string(),
                    auth: MetaProviderAuth { user_email: Some("x@y".to_string()), mechanism: None, obtained_via: None },
                },
                ProviderEntry {
                    name: "meta".to_string(),
                    auth: MetaProviderAuth { user_email: Some(e.to_string()), mechanism: None, obtained_via: None },
                },
            ],
        }),
        settings: Some(SettingsFile { provider: None, model: model.map(String::from) }),
        usage,
    }
}

fn store(tier: Option<&str>, session: Option<f64>, weekly: Option<f64>) -> MuseUsageStore {
    MuseUsageStore {
        tier: tier.map(String::from),
        session: session.map(|p| WindowData { used_percent: percent_micros(p), resets_at_ms: Some(111) }),
        weekly: weekly.map(|p| WindowData { used_percent: percent_micros(p), resets_at_ms: None }),
    }
}

#[test]
fn muse_snapshot_does_not_invent_percentages() {
    // What the poller can report: the configuration missing (as on this
    // machine), or read with or without telemetry, percentages out of range.
    let snaps: Vec<UsageSnapshot> = vec![
        absent_snapshot(1),
        muse_snapshot(&files(None, None, None), 1),
        muse_snapshot(&files(Some("me@meta.com"), None, Some(store(None, Some(150.0), Some(-20.0)))), 1),
        muse_snapshot(&files(None, Some("m"), Some(store(Some("Pro"), Some(42.5), None))), 1),
    ];
    for snap in &snaps {
        for w in &snap.windows {
            if w.id == "session" || w.id == "weekly" {
                let used = w.used.num as f64 / w.used.den as f64;
                assert!(used >= 0.0 && used <= 1.0, "Usage percentage must be in range [0, 1]");
            }
        }
    }
}

#[test]
fn telemetry_windows_and_account_line() {
    let snap = muse_snapshot(&files(Some("me@meta.com"), Some("muse-x"), Some(store(Some("Pro"), Some(42.5), Some(7.0)))), 5);
    assert_eq!(snap.status, Status::Live);
    assert_eq!(snap.fetched_at, 5);
    let ids: Vec<&str> = snap.windows.iter().map(|w| w.id.as_str()).collect();
    assert_eq!(ids, vec!["session", "weekly", "muse-account"]);
    assert_eq!(snap.windows[0].label, "Current usage (5h)");
    assert_eq!(snap.windows[0].resets_at, Some(111));
    assert!((snap.windows[0].used.num as f64 / snap.windows[0].used.den as f64 - 0.425).abs() < 1e-12);
    assert_eq!(snap.windows[1].label, "Weekly limit");
    assert_eq!(snap.windows[2].label, "me@meta.com • muse-x");
    assert!(snap.windows[2].derived);
    assert_eq!(snap.windows[2].group.as_deref(), Some("Pro"));
    assert_eq!(snap.note, "me@meta.com • Pro");
}

#[test]
fn no_telemetry_means_no_quota_note() {
    let snap = muse_snapshot(&files(Some("me@meta.com"), None, None), 5);
    assert_eq!(snap.windows.len(), 1);
    assert_eq!(snap.windows[0].label, "me@meta.com • muse-spark-1.3");
    assert_eq!(snap.note, "me@meta.com · Meta publishes no quota for this account");
    let snap = muse_snapshot(&files(None, Some("muse-y"), None), 5);
    assert!(snap.windows.is_empty());
    assert_eq!(snap.note, "muse-y · Meta publishes no quota for this account");
    let snap = muse_snapshot(&files(None, None, Some(store(None, None, Some(10.0)))), 5);
    assert_eq!(snap.note, "Meta Muse CLI");
    assert_eq!(snap.windows[0].group.as_deref(), Some("Meta Muse CLI"));
}

#[test]
fn muse_absent_report() {
    let snap = absent_snapshot(2);
    assert_eq!(snap.status, Status::Absent);
    assert!(snap.windows.is_empty());
    assert_eq!(snap.note, "Meta Muse configuration not found (~/.config/muse)");
}

#[test]
fn usage_file_choice() {
    assert_eq!(choose_usage_file(true, true, true), Some(UsageFile::AppData));
    assert_eq!(choose_usage_file(true, false, true), Some(UsageFile::ConfigDir));
    assert_eq!(choose_usage_file(true, false, false), Some(UsageFile::AppData));
    assert_eq!(choose_usage_file(false, false, true), Some(UsageFile::ConfigDir));
    assert_eq!(choose_usage_file(false, false, false), None);
}

#[test]
fn config_dir_choice() {
    assert_eq!(choose_config_dir(true, true), Some(ConfigDir::DotConfig));
    assert_eq!(choose_config_dir(false, true), Some(ConfigDir::DotMuse));
    assert_eq!(choose_config_dir(false, false), None);
}
