//! Meta Muse CLI adapter.
//!
//! The CLI keeps its sign-in in `auth.json` and the chosen model in
//! `settings.json`; telemetry may leave a usage file with the session (5h)
//! and weekly percentages. Meta publishes no quota itself, so no
//! percentage is ever made up: windows come only from the usage file.
//! Percentages enter the library in millionths of a percent.

use crate::refresh::RefreshSignal;
use crate::text::{concat2, concat3};
use crate::usage::{
    bare_snapshot, bare_view, clamp_ratio, clamped_ratio, is_clamped_share, windows_view, LimitWindow, Ratio,
    SnapshotView, Status, UsageSnapshot, WindowView,
};
use vstd::prelude::*;

verus! {

/// Asks the Meta Muse poller to refresh now.
pub fn request_refresh(signal: &RefreshSignal) {
    signal.request();
}

/// The sign-in of one provider in `auth.json`.
pub struct MetaProviderAuth {
    pub user_email: Option<String>,
    pub mechanism: Option<String>,
    pub obtained_via: Option<String>,
}

/// One entry of the `providers` object of `auth.json`.
pub struct ProviderEntry {
    pub name: String,
    pub auth: MetaProviderAuth,
}

/// `auth.json`: the providers, in the file's order, each name once.
pub struct AuthFile {
    pub providers: Vec<ProviderEntry>,
}

/// `settings.json`.
pub struct SettingsFile {
    pub provider: Option<String>,
    pub model: Option<String>,
}

/// One window of the usage file. `used_percent` is in millionths of a
/// percent (0 when the file gives none).
pub struct WindowData {
    pub used_percent: i64,
    pub resets_at_ms: Option<u64>,
}

/// The usage file.
pub struct MuseUsageStore {
    pub tier: Option<String>,
    pub session: Option<WindowData>,
    pub weekly: Option<WindowData>,
}

/// What was read from the configuration directory: each file that could
/// be read and parsed.
pub struct MuseFiles {
    pub auth: Option<AuthFile>,
    pub settings: Option<SettingsFile>,
    pub usage: Option<MuseUsageStore>,
}

/// The Muse configuration directory that is read.
#[derive(Clone, Copy, Debug, PartialEq, Eq, Structural)]
pub enum ConfigDir {
    /// `~/.config/muse`.
    DotConfig,
    /// `~/.muse`.
    DotMuse,
}

/// Which configuration directory is read: the first of `~/.config/muse`
/// and `~/.muse` that is present (it exists, or its `auth.json` does).
pub open spec fn config_dir_of(dot_config_present: bool, dot_muse_present: bool) -> Option<ConfigDir> {
    if dot_config_present {
        Some(ConfigDir::DotConfig)
    } else if dot_muse_present {
        Some(ConfigDir::DotMuse)
    } else {
        None
    }
}

/// Computes `config_dir_of`.
pub fn choose_config_dir(dot_config_present: bool, dot_muse_present: bool) -> (r: Option<ConfigDir>)
    ensures
        r == config_dir_of(dot_config_present, dot_muse_present),
{
    if dot_config_present {
        Some(ConfigDir::DotConfig)
    } else if dot_muse_present {
        Some(ConfigDir::DotMuse)
    } else {
        None
    }
}

/// The usage file that is read.
#[derive(Clone, Copy, Debug, PartialEq, Eq, Structural)]
pub enum UsageFile {
    /// `muse-usage.json` in the application's data folder.
    AppData,
    /// `usage.json` in the Muse configuration directory.
    ConfigDir,
}

/// Which usage file is read: the data folder's when it exists, else the
/// configuration directory's when it exists, else the data folder's when
/// there is a data folder at all.
pub open spec fn usage_file_of(appdata_known: bool, appdata_exists: bool, config_exists: bool) -> Option<
    UsageFile,
> {
    if appdata_known && appdata_exists {
        Some(UsageFile::AppData)
    } else if config_exists {
        Some(UsageFile::ConfigDir)
    } else if appdata_known {
        Some(UsageFile::AppData)
    } else {
        None
    }
}

/// Computes `usage_file_of`.
pub fn choose_usage_file(appdata_known: bool, appdata_exists: bool, config_exists: bool) -> (r:
    Option<UsageFile>)
    ensures
        r == usage_file_of(appdata_known, appdata_exists, config_exists),
{
    if appdata_known && appdata_exists {
        Some(UsageFile::AppData)
    } else if config_exists {
        Some(UsageFile::ConfigDir)
    } else if appdata_known {
        Some(UsageFile::AppData)
    } else {
        None
    }
}

/// The first provider named "meta".
pub open spec fn find_meta(ps: Seq<ProviderEntry>) -> Option<ProviderEntry>
    decreases ps.len(),
{
    if ps.len() == 0 {
        None
    } else if ps[0].name@ == "meta"@ {
        Some(ps[0])
    } else {
        find_meta(ps.drop_first())
    }
}

/// The signed-in e-mail of the "meta" provider; empty when unknown.
pub open spec fn email_of(files: MuseFiles) -> Seq<char> {
    match files.auth {
        Some(a) => match find_meta(a.providers@) {
            Some(p) => match p.auth.user_email {
                Some(e) => e@,
                None => Seq::empty(),
            },
            None => Seq::empty(),
        },
        None => Seq::empty(),
    }
}

/// The configured model, "muse-spark-1.3" by default.
pub open spec fn model_of(files: MuseFiles) -> Seq<char> {
    match files.settings {
        Some(s) => match s.model {
            Some(m) => m@,
            None => "muse-spark-1.3"@,
        },
        None => "muse-spark-1.3"@,
    }
}

/// The subscription tier, "Meta Muse CLI" by default.
pub open spec fn tier_of(files: MuseFiles) -> Seq<char> {
    match files.usage {
        Some(u) => match u.tier {
            Some(t) => t@,
            None => "Meta Muse CLI"@,
        },
        None => "Meta Muse CLI"@,
    }
}

pub open spec fn session_of(files: MuseFiles) -> Option<WindowData> {
    match files.usage {
        Some(u) => u.session,
        None => None,
    }
}

pub open spec fn weekly_of(files: MuseFiles) -> Option<WindowData> {
    match files.usage {
        Some(u) => u.weekly,
        None => None,
    }
}

/// A telemetry window: its percentage as a fraction clamped into `[0, 1]`.
pub open spec fn telemetry_window(w: Option<WindowData>, id: Seq<char>, label: Seq<char>, tier: Seq<char>) -> Seq<
    WindowView,
> {
    match w {
        Some(d) => seq![
            WindowView {
                id,
                label,
                used: clamped_ratio(d.used_percent, 100_000_000),
                resets_at: d.resets_at_ms,
                count: None,
                derived: false,
                group: Some(tier),
            },
        ],
        None => Seq::empty(),
    }
}

/// The account line, shown when the e-mail is known.
pub open spec fn account_window(email: Seq<char>, model: Seq<char>, tier: Seq<char>) -> Seq<WindowView> {
    if email.len() > 0 {
        seq![
            WindowView {
                id: "muse-account"@,
                label: email + " • "@ + model,
                used: Ratio::spec_zero(),
                resets_at: None,
                count: None,
                derived: true,
                group: Some(tier),
            },
        ]
    } else {
        Seq::empty()
    }
}

/// The snapshot of the configuration read at time `now`.
pub open spec fn muse_view(files: MuseFiles, now: u64) -> SnapshotView {
    let email = email_of(files);
    let model = model_of(files);
    let tier = tier_of(files);
    let windows = telemetry_window(session_of(files), "session"@, "Current usage (5h)"@, tier)
        + telemetry_window(weekly_of(files), "weekly"@, "Weekly limit"@, tier) + account_window(
        email,
        model,
        tier,
    );
    SnapshotView {
        status: Status::Live,
        windows,
        fetched_at: now,
        note: if windows.len() == 0 || (session_of(files) is None && weekly_of(files) is None) {
            if email.len() > 0 {
                email + " · Meta publishes no quota for this account"@
            } else {
                model + " · Meta publishes no quota for this account"@
            }
        } else if email.len() > 0 {
            email + " • "@ + tier
        } else {
            tier
        },
    }
}

/// No percentage is made up: without a usage file the snapshot has no
/// quota window, at most the account line, which uses nothing.
pub proof fn lemma_no_usage_file_no_quota(files: MuseFiles, now: u64)
    requires
        files.usage is None,
    ensures
        muse_view(files, now).windows == account_window(email_of(files), model_of(files), tier_of(files)),
        forall|i: int|
            0 <= i < muse_view(files, now).windows.len() ==> (#[trigger] muse_view(files, now).windows[i]).derived
                && muse_view(files, now).windows[i].used == Ratio::spec_zero(),
{
    assert(muse_view(files, now).windows =~= account_window(email_of(files), model_of(files), tier_of(files)));
}

/// The telemetry is shown as it is: a session entry gives the "session"
/// window and a weekly entry the "weekly" window, each using its
/// percentage's share of the quota (held to `[0, 100]` percent) and
/// resetting when the entry says.
pub proof fn lemma_telemetry_shown_as_reported(files: MuseFiles, now: u64)
    ensures
        ({
            let ws = muse_view(files, now).windows;
            &&& (files.usage is Some && files.usage->0.session is Some) ==> exists|k: int|
                0 <= k < ws.len() && ws[k].id == "session"@ && is_clamped_share(
                    ws[k].used,
                    files.usage->0.session->0.used_percent,
                    100_000_000,
                ) && ws[k].resets_at == files.usage->0.session->0.resets_at_ms
            &&& (files.usage is Some && files.usage->0.weekly is Some) ==> exists|k: int|
                0 <= k < ws.len() && ws[k].id == "weekly"@ && is_clamped_share(
                    ws[k].used,
                    files.usage->0.weekly->0.used_percent,
                    100_000_000,
                ) && ws[k].resets_at == files.usage->0.weekly->0.resets_at_ms
        }),
{
    let tier = tier_of(files);
    let a = telemetry_window(session_of(files), "session"@, "Current usage (5h)"@, tier);
    let b = telemetry_window(weekly_of(files), "weekly"@, "Weekly limit"@, tier);
    let c = account_window(email_of(files), model_of(files), tier);
    let ws = muse_view(files, now).windows;
    assert(ws == a + b + c);
    if a.len() > 0 {
        assert(ws[0] == a[0]);
    }
    if b.len() > 0 {
        assert(ws[a.len() as int] == b[0]);
    }
}

/// The report when the configuration directory is not found.
pub open spec fn absent_view(now: u64) -> SnapshotView {
    bare_view(Status::Absent, "Meta Muse configuration not found (~/.config/muse)"@, now)
}

/// Builds `absent_view(now)`.
pub fn absent_snapshot(now: u64) -> (s: UsageSnapshot)
    ensures
        s@ == absent_view(now),
{
    bare_snapshot(
        Status::Absent,
        String::from_str("Meta Muse configuration not found (~/.config/muse)"),
        now,
    )
}

proof fn lemma_find_meta_skip(ps: Seq<ProviderEntry>, i: int)
    requires
        0 <= i <= ps.len(),
        forall|k: int| 0 <= k < i ==> ps[k].name@ != "meta"@,
    ensures
        find_meta(ps) == find_meta(ps.skip(i)),
    decreases i,
{
    if i > 0 {
        lemma_find_meta_skip(ps.drop_first(), i - 1);
        assert(ps.drop_first().skip(i - 1) =~= ps.skip(i));
    } else {
        assert(ps.skip(0) =~= ps);
    }
}

fn meta_email(files: &MuseFiles) -> (e: String)
    ensures
        e@ == email_of(*files),
{
    match &files.auth {
        Some(a) => {
            let meta = String::from_str("meta");
            let ps = &a.providers;
            let mut i: usize = 0;
            while i < ps.len()
                invariant
                    meta@ == "meta"@,
                    files.auth == Some(*a),
                    ps == &a.providers,
                    i <= ps.len(),
                    forall|k: int| 0 <= k < i ==> ps@[k].name@ != "meta"@,
                decreases ps.len() - i,
            {
                if ps[i].name == meta {
                    proof {
                        lemma_find_meta_skip(ps@, i as int);
                        assert(ps@.skip(i as int)[0] == ps@[i as int]);
                    }
                    return match &ps[i].auth.user_email {
                        Some(m) => m.clone(),
                        None => String::new(),
                    };
                }
                i = i + 1;
            }
            proof {
                lemma_find_meta_skip(ps@, i as int);
            }
            String::new()
        },
        None => String::new(),
    }
}

fn telemetry(w: &Option<WindowData>, id: &str, label: &str, tier: &String) -> (r: Option<LimitWindow>)
    ensures
        match r {
            Some(x) => seq![x@],
            None => Seq::<WindowView>::empty(),
        } == telemetry_window(*w, id@, label@, tier@),
        r matches Some(x) ==> x.used.wf(),
{
    match w {
        Some(d) => {
            let x = LimitWindow {
                id: String::from_str(id),
                label: String::from_str(label),
                used: clamp_ratio(d.used_percent, 100_000_000),
                resets_at: d.resets_at_ms,
                count: None,
                derived: false,
                group: Some(tier.clone()),
            };
            Some(x)
        },
        None => None,
    }
}

/// Builds the snapshot of the configuration read at time `now`.
pub fn muse_snapshot(files: &MuseFiles, now: u64) -> (s: UsageSnapshot)
    ensures
        s@ == muse_view(*files, now),
        s@.wf(),
{
    let email = meta_email(files);
    let model = match &files.settings {
        Some(st) => match &st.model {
            Some(m) => m.clone(),
            None => String::from_str("muse-spark-1.3"),
        },
        None => String::from_str("muse-spark-1.3"),
    };
    let tier = match &files.usage {
        Some(u) => match &u.tier {
            Some(t) => t.clone(),
            None => String::from_str("Meta Muse CLI"),
        },
        None => String::from_str("Meta Muse CLI"),
    };
    let no_session: Option<WindowData> = None;
    let no_weekly: Option<WindowData> = None;
    let (session, weekly) = match &files.usage {
        Some(u) => (&u.session, &u.weekly),
        None => (&no_session, &no_weekly),
    };
    let mut windows: Vec<LimitWindow> = Vec::new();
    match telemetry(session, "session", "Current usage (5h)", &tier) {
        Some(w) => windows.push(w),
        None => {},
    }
    match telemetry(weekly, "weekly", "Weekly limit", &tier) {
        Some(w) => windows.push(w),
        None => {},
    }
    let has_email = !email.as_str().is_empty();
    if has_email {
        windows.push(
            LimitWindow {
                id: String::from_str("muse-account"),
                label: concat3(email.as_str(), " • ", model.as_str()),
                used: Ratio::zero(),
                resets_at: None,
                count: None,
                derived: true,
                group: Some(tier.clone()),
            },
        );
    }
    let no_telemetry = session.is_none() && weekly.is_none();
    let note = if windows.len() == 0 || no_telemetry {
        if has_email {
            concat2(email.as_str(), " · Meta publishes no quota for this account")
        } else {
            concat2(model.as_str(), " · Meta publishes no quota for this account")
        }
    } else if has_email {
        concat3(email.as_str(), " • ", tier.as_str())
    } else {
        tier
    };
    let s = UsageSnapshot { status: Status::Live, windows, fetched_at: now, note };
    assert(s@.windows =~= muse_view(*files, now).windows);
    assert(s@.wf()) by {
        assert forall|i: int| 0 <= i < s@.windows.len() implies (#[trigger] s@.windows[i]).used.wf() by {
            assert(s@.windows[i] == s.windows@[i]@);
        }
    }
    s
}

} // verus!
