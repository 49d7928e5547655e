//! MiniMax usage adapter (Token Plan).
//!
//! The service answers `GET /v1/token_plan/remains` (primary host, then a
//! fallback host) with the remaining quota of the token plan: the interval
//! (session) window and the weekly window of the first model. Counts enter
//! the library in millionths.

use crate::clock::now_ms;
use crate::credentials::{first_key, first_usable_key, layered_candidates, layered_candidates_of, CredentialFile};
use crate::refresh::RefreshSignal;
use crate::text::{concat2, concat3, decimal, decimal_text, trimmed};
use crate::usage::{
    bare_snapshot, bare_view, clamp_ratio, is_clamped_share, clamped_ratio, micros_to_units, opt_snapshot_view, opt_text,
    units_toward_zero, windows_view, LimitWindow, Ratio, SnapshotView, Status, UsageSnapshot,
    WindowView,
};
use vstd::prelude::*;

verus! {

/// Asks the MiniMax poller to refresh now.
pub fn request_refresh(signal: &RefreshSignal) {
    signal.request();
}

/// Finds the MiniMax API key: `MINIMAX_API_KEY` (`env`), then the files
/// `~/.config/minimax/key.txt`, `~/.config/minimax/auth.json`,
/// `~/.minimax/credentials.json` and `~/.minimax/key.txt` (`files`, in that
/// order; a file that is not JSON counts as the bare key), then the
/// application's `minimax.key` file.
pub fn resolve_api_key(
    env: Option<String>,
    files: &Vec<Option<CredentialFile>>,
    key_file: Option<String>,
) -> (r: Option<String>)
    ensures
        opt_text(r) == first_key(layered_candidates(env, files@, key_file, true)),
        r matches Some(k) ==> k@.len() > 0 && trimmed(k@) == k@,
{
    let cands = layered_candidates_of(env, files, key_file, true);
    first_usable_key(&cands)
}

/// The remaining quota of one model. Counts are in millionths.
pub struct ModelRemain {
    pub start_time: Option<u64>,
    pub end_time: Option<u64>,
    pub remains_time: Option<u64>,
    pub current_interval_total_count: Option<i64>,
    pub current_interval_usage_count: Option<i64>,
    pub model_name: Option<String>,
    pub current_weekly_total_count: Option<i64>,
    pub current_weekly_usage_count: Option<i64>,
    pub weekly_start_time: Option<u64>,
    pub weekly_end_time: Option<u64>,
    pub weekly_remains_time: Option<u64>,
}

/// The status part of a MiniMax reply.
pub struct BaseResp {
    pub status_code: Option<i32>,
    pub status_msg: Option<String>,
}

/// A MiniMax `token_plan/remains` reply.
pub struct RemainsResponse {
    pub model_remains: Vec<ModelRemain>,
    pub base_resp: Option<BaseResp>,
}

impl Default for ModelRemain {
    fn default() -> (m: ModelRemain)
        ensures
            m.start_time is None && m.end_time is None && m.remains_time is None,
            m.current_interval_total_count is None && m.current_interval_usage_count is None,
            m.model_name is None,
            m.current_weekly_total_count is None && m.current_weekly_usage_count is None,
            m.weekly_start_time is None && m.weekly_end_time is None,
            m.weekly_remains_time is None,
    {
        ModelRemain {
            start_time: None,
            end_time: None,
            remains_time: None,
            current_interval_total_count: None,
            current_interval_usage_count: None,
            model_name: None,
            current_weekly_total_count: None,
            current_weekly_usage_count: None,
            weekly_start_time: None,
            weekly_end_time: None,
            weekly_remains_time: None,
        }
    }
}

impl Default for BaseResp {
    fn default() -> (b: BaseResp)
        ensures
            b.status_code is None && b.status_msg is None,
    {
        BaseResp { status_code: None, status_msg: None }
    }
}

impl Default for RemainsResponse {
    fn default() -> (r: RemainsResponse)
        ensures
            r.model_remains@.len() == 0,
            r.base_resp is None,
    {
        RemainsResponse { model_remains: Vec::new(), base_resp: None }
    }
}

/// The window of one quota: present when both counts are there and the
/// total is positive; its used fraction is the clamped ratio of the counts.
pub open spec fn quota_window(
    total: Option<i64>,
    used: Option<i64>,
    id: Seq<char>,
    label: Seq<char>,
    resets_at: Option<u64>,
    model: Seq<char>,
) -> Seq<WindowView> {
    match (total, used) {
        (Some(t), Some(u)) => if t > 0 {
            seq![
                WindowView {
                    id,
                    label,
                    used: clamped_ratio(u, t),
                    resets_at,
                    count: Some(units_toward_zero(u) as i64),
                    derived: false,
                    group: Some(model),
                },
            ]
        } else {
            Seq::empty()
        },
        _ => Seq::empty(),
    }
}

/// The model's name, or "MiniMax" when the reply names none.
pub open spec fn model_label(item: ModelRemain) -> Seq<char> {
    match item.model_name {
        Some(n) => n@,
        None => "MiniMax"@,
    }
}

/// The windows of the first model: interval first, then weekly.
pub open spec fn plan_windows(item: ModelRemain) -> Seq<WindowView> {
    let model = model_label(item);
    quota_window(
        item.current_interval_total_count,
        item.current_interval_usage_count,
        "interval"@,
        "Interval limit ("@ + model + ")"@,
        item.end_time,
        model,
    ) + quota_window(
        item.current_weekly_total_count,
        item.current_weekly_usage_count,
        "weekly"@,
        "Weekly limit"@,
        item.weekly_end_time,
        model,
    )
}

/// The window shown for an account without a token plan.
pub open spec fn pay_as_you_go_window() -> WindowView {
    WindowView {
        id: "minimax-account"@,
        label: "MiniMax Pay-As-You-Go"@,
        used: Ratio::spec_zero(),
        resets_at: None,
        count: None,
        derived: true,
        group: Some("MiniMax"@),
    }
}

/// The snapshot a reply stands for, read at time `now`.
pub open spec fn remains_view(resp: RemainsResponse, now: u64) -> SnapshotView {
    if resp.model_remains@.len() > 0 {
        let item = resp.model_remains@[0];
        let model = model_label(item);
        let windows = plan_windows(item);
        SnapshotView {
            status: Status::Live,
            windows,
            fetched_at: now,
            note: if windows.len() == 0 {
                model + " · Pay-As-You-Go (No Token Plan active)"@
            } else {
                model + " Token Plan active"@
            },
        }
    } else {
        SnapshotView {
            status: Status::Live,
            windows: seq![pay_as_you_go_window()],
            fetched_at: now,
            note: "MiniMax Connected · Pay-As-You-Go"@,
        }
    }
}

/// Each quota of the first model gets its window whatever the other one
/// holds: when both counts of a quota are there and its total is positive,
/// the snapshot has that quota's window, with the used share of the total,
/// the quota's reset time and the used count in whole units, and the note
/// says a token plan is active.
pub proof fn lemma_each_quota_has_its_window(resp: RemainsResponse, now: u64)
    requires
        resp.model_remains@.len() > 0,
    ensures
        ({
            let item = resp.model_remains@[0];
            let s = remains_view(resp, now);
            &&& (item.current_interval_total_count is Some && item.current_interval_total_count->0 > 0
                && item.current_interval_usage_count is Some) ==> exists|k: int|
                0 <= k < s.windows.len() && s.windows[k].id == "interval"@ && is_clamped_share(
                    s.windows[k].used,
                    item.current_interval_usage_count->0,
                    item.current_interval_total_count->0,
                ) && s.windows[k].resets_at == item.end_time && s.windows[k].count == Some(
                    units_toward_zero(item.current_interval_usage_count->0) as i64,
                ) && s.note == model_label(item) + " Token Plan active"@
            &&& (item.current_weekly_total_count is Some && item.current_weekly_total_count->0 > 0
                && item.current_weekly_usage_count is Some) ==> exists|k: int|
                0 <= k < s.windows.len() && s.windows[k].id == "weekly"@ && is_clamped_share(
                    s.windows[k].used,
                    item.current_weekly_usage_count->0,
                    item.current_weekly_total_count->0,
                ) && s.windows[k].resets_at == item.weekly_end_time && s.windows[k].count == Some(
                    units_toward_zero(item.current_weekly_usage_count->0) as i64,
                ) && s.note == model_label(item) + " Token Plan active"@
        }),
{
    let item = resp.model_remains@[0];
    let model = model_label(item);
    let a = quota_window(
        item.current_interval_total_count,
        item.current_interval_usage_count,
        "interval"@,
        "Interval limit ("@ + model + ")"@,
        item.end_time,
        model,
    );
    let b = quota_window(
        item.current_weekly_total_count,
        item.current_weekly_usage_count,
        "weekly"@,
        "Weekly limit"@,
        item.weekly_end_time,
        model,
    );
    let s = remains_view(resp, now);
    assert(s.windows == a + b);
    if a.len() > 0 {
        assert(s.windows[0] == a[0]);
    }
    if b.len() > 0 {
        assert(s.windows[a.len() as int] == b[0]);
    }
}

pub open spec fn opt_window_view(o: Option<LimitWindow>) -> Seq<WindowView> {
    match o {
        Some(w) => seq![w@],
        None => Seq::empty(),
    }
}

fn make_quota_window(
    total: Option<i64>,
    used: Option<i64>,
    id: &str,
    label: String,
    resets_at: Option<u64>,
    model: &String,
) -> (r: Option<LimitWindow>)
    ensures
        opt_window_view(r) == quota_window(total, used, id@, label@, resets_at, model@),
        r matches Some(w) ==> w.used.wf(),
{
    match (total, used) {
        (Some(t), Some(u)) => {
            if t > 0 {
                let w = LimitWindow {
                    id: String::from_str(id),
                    label,
                    used: clamp_ratio(u, t),
                    resets_at,
                    count: Some(micros_to_units(u)),
                    derived: false,
                    group: Some(model.clone()),
                };
                assert(opt_window_view(Some(w)) =~= quota_window(
                    total,
                    used,
                    id@,
                    label@,
                    resets_at,
                    model@,
                ));
                Some(w)
            } else {
                None
            }
        },
        _ => None,
    }
}

/// Builds the snapshot of a reply read at time `now`.
pub fn remains_snapshot(resp: &RemainsResponse, now: u64) -> (s: UsageSnapshot)
    ensures
        s@ == remains_view(*resp, now),
        s@.wf(),
{
    if resp.model_remains.len() > 0 {
        let item = &resp.model_remains[0];
        let model = match &item.model_name {
            Some(n) => n.clone(),
            None => String::from_str("MiniMax"),
        };
        assert(model@ == model_label(*item));
        let interval = make_quota_window(
            item.current_interval_total_count,
            item.current_interval_usage_count,
            "interval",
            concat3("Interval limit (", model.as_str(), ")"),
            item.end_time,
            &model,
        );
        let weekly = make_quota_window(
            item.current_weekly_total_count,
            item.current_weekly_usage_count,
            "weekly",
            String::from_str("Weekly limit"),
            item.weekly_end_time,
            &model,
        );
        let mut windows: Vec<LimitWindow> = Vec::new();
        match interval {
            Some(w) => windows.push(w),
            None => {},
        }
        match weekly {
            Some(w) => windows.push(w),
            None => {},
        }
        assert(windows_view(windows@) =~= plan_windows(*item));
        let note = if windows.len() == 0 {
            concat2(model.as_str(), " · Pay-As-You-Go (No Token Plan active)")
        } else {
            concat2(model.as_str(), " Token Plan active")
        };
        let s = UsageSnapshot { status: Status::Live, windows, fetched_at: now, note };
        assert(s@.wf()) by {
            assert forall|i: int| 0 <= i < s@.windows.len() implies (#[trigger] s@.windows[i]).used.wf() by {
                assert(s@.windows[i] == s.windows@[i]@);
            }
        }
        s
    } else {
        let w = LimitWindow {
            id: String::from_str("minimax-account"),
            label: String::from_str("MiniMax Pay-As-You-Go"),
            used: Ratio::zero(),
            resets_at: None,
            count: None,
            derived: true,
            group: Some(String::from_str("MiniMax")),
        };
        let mut windows: Vec<LimitWindow> = Vec::new();
        windows.push(w);
        let s = UsageSnapshot {
            status: Status::Live,
            windows,
            fetched_at: now,
            note: String::from_str("MiniMax Connected · Pay-As-You-Go"),
        };
        assert(s@.windows =~= seq![pay_as_you_go_window()]);
        s
    }
}

/// Builds the snapshot of a reply, stamped with the current time.
pub fn parse_remains_response(resp: &RemainsResponse) -> (s: UsageSnapshot)
    ensures
        s@ == remains_view(*resp, s.fetched_at),
        s@.wf(),
{
    let now = now_ms();
    remains_snapshot(resp, now)
}

/// Why a request to a MiniMax endpoint gave no reply: an error status, a
/// transport failure, or a body that is not a reply (with the error text).
pub enum FetchError {
    Status(u16),
    Transport(String),
    Malformed(String),
}

/// The text a failed request is reported by; "auth_rejected" for 401/403.
pub open spec fn fetch_error_message(e: FetchError) -> Seq<char> {
    match e {
        FetchError::Status(code) => if code == 401 || code == 403 {
            "auth_rejected"@
        } else {
            "HTTP "@ + decimal(code as nat)
        },
        FetchError::Transport(m) => m@,
        FetchError::Malformed(m) => m@,
    }
}

/// Computes `fetch_error_message(e)`.
pub fn fetch_error_text(e: &FetchError) -> (t: String)
    ensures
        t@ == fetch_error_message(*e),
{
    match e {
        FetchError::Status(code) => {
            if *code == 401 || *code == 403 {
                String::from_str("auth_rejected")
            } else {
                let digits = decimal_text(*code as u64);
                concat2("HTTP ", digits.as_str())
            }
        },
        FetchError::Transport(m) => m.clone(),
        FetchError::Malformed(m) => m.clone(),
    }
}

/// The report when no API key is configured.
pub open spec fn absent_view(now: u64) -> SnapshotView {
    bare_view(
        Status::Absent,
        "Configure MINIMAX_API_KEY or %APPDATA%\\codenotch\\minimax.key to see usage."@,
        now,
    )
}

/// Builds `absent_view(now)`.
pub fn absent_snapshot(now: u64) -> (s: UsageSnapshot)
    ensures
        s@ == absent_view(now),
{
    bare_snapshot(
        Status::Absent,
        String::from_str(
            "Configure MINIMAX_API_KEY or %APPDATA%\\codenotch\\minimax.key to see usage.",
        ),
        now,
    )
}

/// What the primary endpoint's outcome decides: a reply is reported; a
/// rejected key is reported as needing sign-in; any other failure
/// (`None`) sends the request to the fallback endpoint.
pub open spec fn primary_outcome(r: Result<RemainsResponse, FetchError>, now: u64) -> Option<
    SnapshotView,
> {
    match r {
        Ok(resp) => Some(remains_view(resp, now)),
        Err(e) => if fetch_error_message(e) == "auth_rejected"@ {
            Some(bare_view(Status::NeedsAuth, "MiniMax API key rejected — check your API key"@, now))
        } else {
            None
        },
    }
}

/// What the fallback endpoint's outcome is reported as.
pub open spec fn fallback_outcome(r: Result<RemainsResponse, FetchError>, now: u64) -> SnapshotView {
    match r {
        Ok(resp) => remains_view(resp, now),
        Err(e) => bare_view(Status::Error, "MiniMax API error: "@ + fetch_error_message(e), now),
    }
}

/// A key that the primary endpoint rejects (401/403) is reported as
/// needing sign-in; the fallback endpoint is not tried.
pub proof fn lemma_rejected_key_is_not_retried(code: u16, now: u64)
    requires
        code == 401 || code == 403,
    ensures
        primary_outcome(Err(FetchError::Status(code)), now) == Some(
            bare_view(Status::NeedsAuth, "MiniMax API key rejected — check your API key"@, now),
        ),
{
}

/// Any other error status of the primary endpoint sends the request to the
/// fallback endpoint.
pub proof fn lemma_other_status_tries_fallback(code: u16, now: u64)
    requires
        code != 401 && code != 403,
    ensures
        primary_outcome(Err(FetchError::Status(code)), now) is None,
{
    reveal_strlit("HTTP ");
    reveal_strlit("auth_rejected");
    assert(("HTTP "@ + decimal(code as nat))[0] == 'H');
    assert("auth_rejected"@[0] == 'a');
}

/// Decides on the primary endpoint's outcome; `None` asks for the fallback.
pub fn after_primary(r: Result<RemainsResponse, FetchError>, now: u64) -> (s: Option<UsageSnapshot>)
    ensures
        opt_snapshot_view(s) == primary_outcome(r, now),
        s matches Some(snap) ==> snap@.wf(),
{
    match r {
        Ok(resp) => Some(remains_snapshot(&resp, now)),
        Err(e) => {
            let text = fetch_error_text(&e);
            let rejected = String::from_str("auth_rejected");
            if text == rejected {
                Some(
                    bare_snapshot(
                        Status::NeedsAuth,
                        String::from_str("MiniMax API key rejected — check your API key"),
                        now,
                    ),
                )
            } else {
                None
            }
        },
    }
}

/// Reports the fallback endpoint's outcome.
pub fn after_fallback(r: Result<RemainsResponse, FetchError>, now: u64) -> (s: UsageSnapshot)
    ensures
        s@ == fallback_outcome(r, now),
        s@.wf(),
{
    match r {
        Ok(resp) => remains_snapshot(&resp, now),
        Err(e) => {
            let text = fetch_error_text(&e);
            bare_snapshot(Status::Error, concat2("MiniMax API error: ", text.as_str()), now)
        },
    }
}

} // verus!
