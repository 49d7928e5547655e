//! OpenCode Go usage adapter (official API).
//!
//! `GET /zen/go/v1/usage` answers with the rolling (5h), weekly and monthly
//! windows of the Go subscription, either nested under `usage` or at the
//! top level, and possibly the extra API balance in USD. Each window's
//! `percent` is a percentage (4 means 4%). Numbers enter the library in
//! millionths.

use crate::credentials::{
    candidates_view, first_key, first_usable_key, lemma_first_key_skip, CredentialFile,
};
use crate::json::{as_text, get_member, member, text_of, JsonNode};
use crate::refresh::RefreshSignal;
use crate::text::{concat2, contains_text, occurs_in, remove_char, trim_text, trimmed, without_char};
use crate::usage::{
    bare_snapshot, bare_view, clamp_ratio, clamped_ratio, hundredths_rounded, micros_to_cents, opt_text,
    windows_view, HttpFailure, LimitWindow, Ratio, SnapshotView, Status, UsageSnapshot,
    WindowView,
};
use vstd::prelude::*;

verus! {

/// Asks the OpenCode poller to refresh now.
pub fn request_refresh(signal: &RefreshSignal) {
    signal.request();
}

/// The key of the `opencode-go` entry of an auth document: its `key`
/// member when present, else its `apiKey` member; only a string counts.
pub open spec fn go_key(doc: JsonNode) -> Option<Seq<char>> {
    match member(doc, "opencode-go"@) {
        Some(go) => match member(go, "key"@) {
            Some(v) => text_of(Some(v)),
            None => text_of(member(go, "apiKey"@)),
        },
        None => None,
    }
}

/// The key of one stored account: its credential's `key`, for an account
/// of the `opencode-go` service only.
pub open spec fn account_key(acc: JsonNode) -> Option<Seq<char>> {
    if text_of(member(acc, "serviceID"@)) == Some("opencode-go"@) {
        match member(acc, "credential"@) {
            Some(c) => text_of(member(c, "key"@)),
            None => None,
        }
    } else {
        None
    }
}

/// The candidates of the `accounts` object, in its order.
pub open spec fn accounts_keys(doc: JsonNode) -> Seq<Option<Seq<char>>> {
    match member(doc, "accounts"@) {
        Some(JsonNode::Object(entries)) => entries@.map_values(
            |e: (String, JsonNode)| account_key(e.1),
        ),
        _ => Seq::empty(),
    }
}

/// The candidates of one auth file: none unless it is JSON; then the
/// `opencode-go` key, then each stored account's key.
pub open spec fn file_candidates(f: Option<CredentialFile>) -> Seq<Option<Seq<char>>> {
    match f {
        Some(cf) => match cf.json {
            Some(doc) => seq![go_key(doc)] + accounts_keys(doc),
            None => Seq::empty(),
        },
        None => Seq::empty(),
    }
}

/// The candidates of all auth files, in order.
pub open spec fn all_file_candidates(files: Seq<Option<CredentialFile>>) -> Seq<Option<Seq<char>>>
    decreases files.len(),
{
    if files.len() == 0 {
        Seq::empty()
    } else {
        all_file_candidates(files.drop_last()) + file_candidates(files.last())
    }
}

/// Where the OpenCode key is looked for: the environment variables
/// `OPENCODE_API_KEY`, `OPENCODE_GO_KEY` and `OPENCODE_KEY` (`env`, in that
/// order), the application's `opencode.key` file, then the auth files of
/// the OpenCode client (`files`, in order).
pub open spec fn key_candidates(
    env: Seq<Option<String>>,
    key_file: Option<String>,
    files: Seq<Option<CredentialFile>>,
) -> Seq<Option<Seq<char>>> {
    candidates_view(env) + seq![opt_text(key_file)] + all_file_candidates(files)
}

/// The sources are tried in order: the first environment variable that
/// holds a non-blank key gives the key; when none does, a non-blank key in
/// the application's key file is the key, whatever the auth files hold.
pub proof fn lemma_key_sources_in_order(
    env: Seq<Option<String>>,
    key_file: Option<String>,
    files: Seq<Option<CredentialFile>>,
)
    ensures
        forall|i: int|
            #![trigger env[i]]
            0 <= i < env.len() && (env[i] matches Some(e) && trimmed(e@).len() > 0) && (forall|
                j: int,
            |
                0 <= j < i ==> match #[trigger] env[j] {
                    Some(e) => trimmed(e@).len() == 0,
                    None => true,
                }) ==> first_key(key_candidates(env, key_file, files)) == Some(
                trimmed(env[i]->0@),
            ),
        ((forall|j: int|
            0 <= j < env.len() ==> match #[trigger] env[j] {
                Some(e) => trimmed(e@).len() == 0,
                None => true,
            }) && (key_file matches Some(k) && trimmed(k@).len() > 0)) ==> first_key(
            key_candidates(env, key_file, files),
        ) == Some(trimmed(key_file->0@)),
{
    let cands = key_candidates(env, key_file, files);
    let n = env.len() as int;
    assert forall|i: int|
        #![trigger env[i]]
        0 <= i < env.len() && (env[i] matches Some(e) && trimmed(e@).len() > 0) && (forall|j: int|
            0 <= j < i ==> match #[trigger] env[j] {
                Some(e) => trimmed(e@).len() == 0,
                None => true,
            }) implies first_key(cands) == Some(trimmed(env[i]->0@)) by {
        assert forall|j: int| 0 <= j < i implies match #[trigger] cands[j] {
            Some(c) => trimmed(c).len() == 0,
            None => true,
        } by {
            assert(cands[j] == opt_text(env[j]));
            assert(match env[j] {
                Some(e) => trimmed(e@).len() == 0,
                None => true,
            });
        }
        lemma_first_key_skip(cands, i);
        assert(cands.skip(i)[0] == cands[i]);
        assert(cands[i] == opt_text(env[i]));
    }
    if (forall|j: int|
        0 <= j < env.len() ==> match #[trigger] env[j] {
            Some(e) => trimmed(e@).len() == 0,
            None => true,
        }) && (key_file matches Some(k) && trimmed(k@).len() > 0) {
        assert forall|j: int| 0 <= j < n implies match #[trigger] cands[j] {
            Some(c) => trimmed(c).len() == 0,
            None => true,
        } by {
            assert(cands[j] == opt_text(env[j]));
            assert(match env[j] {
                Some(e) => trimmed(e@).len() == 0,
                None => true,
            });
        }
        lemma_first_key_skip(cands, n);
        assert(cands.skip(n)[0] == cands[n]);
        assert(cands[n] == opt_text(key_file));
    }
}

fn push_text(c: &mut Vec<Option<String>>, t: Option<String>)
    ensures
        candidates_view(final(c)@) == candidates_view(old(c)@).push(opt_text(t)),
{
    let ghost t0 = t;
    c.push(t);
    assert(candidates_view(c@) =~= candidates_view(old(c)@).push(opt_text(t0)));
}

fn go_key_of(doc: &JsonNode) -> (r: Option<String>)
    ensures
        opt_text(r) == go_key(*doc),
{
    let r = match get_member(doc, "opencode-go") {
        Some(go) => match get_member(go, "key") {
            Some(v) => as_text(Some(v)),
            None => as_text(get_member(go, "apiKey")),
        },
        None => None,
    };
    assert(r.deep_view() == opt_text(r));
    r
}

fn account_key_of(acc: &JsonNode) -> (r: Option<String>)
    ensures
        opt_text(r) == account_key(*acc),
{
    let service = as_text(get_member(acc, "serviceID"));
    assert(service.deep_view() == opt_text(service));
    let wanted = String::from_str("opencode-go");
    let matches = match &service {
        Some(s) => *s == wanted,
        None => false,
    };
    if matches {
        let r = match get_member(acc, "credential") {
            Some(c) => as_text(get_member(c, "key")),
            None => None,
        };
        assert(r.deep_view() == opt_text(r));
        r
    } else {
        None
    }
}

fn push_file_candidates(c: &mut Vec<Option<String>>, f: &Option<CredentialFile>)
    ensures
        candidates_view(final(c)@) == candidates_view(old(c)@) + file_candidates(*f),
{
    let ghost start = candidates_view(c@);
    match f {
        Some(cf) => match &cf.json {
            Some(doc) => {
                push_text(c, go_key_of(doc));
                let ghost after_go = candidates_view(c@);
                match get_member(doc, "accounts") {
                    Some(JsonNode::Object(entries)) => {
                        let ghost per = |e: (String, JsonNode)| account_key(e.1);
                        let mut i: usize = 0;
                        while i < entries.len()
                            invariant
                                i <= entries.len(),
                                per == (|e: (String, JsonNode)| account_key(e.1)),
                                candidates_view(c@) == after_go + entries@.take(i as int).map_values(
                                    per,
                                ),
                            decreases entries.len() - i,
                        {
                            let k = account_key_of(&entries[i].1);
                            assert(opt_text(k) == per(entries@[i as int]));
                            push_text(c, k);
                            assert(entries@.take(i + 1).map_values(per) =~= entries@.take(
                                i as int,
                            ).map_values(per).push(per(entries@[i as int])));
                            i = i + 1;
                        }
                        assert(entries@.take(entries.len() as int) =~= entries@);
                    },
                    _ => {},
                }
                assert(candidates_view(c@) =~= start + file_candidates(*f));
            },
            None => {
                assert(candidates_view(c@) =~= start + file_candidates(*f));
            },
        },
        None => {
            assert(candidates_view(c@) =~= start + file_candidates(*f));
        },
    }
}

/// Finds the OpenCode API key among the candidates of `key_candidates`.
pub fn resolve_api_key(
    env: Vec<Option<String>>,
    key_file: Option<String>,
    files: &Vec<Option<CredentialFile>>,
) -> (r: Option<String>)
    ensures
        opt_text(r) == first_key(key_candidates(env@, key_file, files@)),
        r matches Some(k) ==> k@.len() > 0 && trimmed(k@) == k@,
{
    let ghost env0 = env@;
    let mut c = env;
    push_text(&mut c, key_file);
    let ghost base = candidates_view(c@);
    let mut i: usize = 0;
    assert(all_file_candidates(files@.take(0)) =~= Seq::<Option<Seq<char>>>::empty());
    assert(candidates_view(c@) =~= base + all_file_candidates(files@.take(0)));
    while i < files.len()
        invariant
            i <= files.len(),
            candidates_view(c@) == base + all_file_candidates(files@.take(i as int)),
        decreases files.len() - i,
    {
        push_file_candidates(&mut c, &files[i]);
        assert(files@.take(i + 1).drop_last() =~= files@.take(i as int));
        assert(candidates_view(c@) =~= base + all_file_candidates(files@.take(i + 1)));
        i = i + 1;
    }
    assert(files@.take(files.len() as int) =~= files@);
    assert(candidates_view(c@) =~= key_candidates(env0, key_file, files@));
    first_usable_key(&c)
}

/// One usage window of the reply. `percent` is in millionths.
pub struct UsageWindowPayload {
    pub status: Option<String>,
    pub percent: Option<i64>,
    pub resets_at: Option<String>,
    pub reset_in_sec: Option<u64>,
}

/// The windows nested under `usage`.
pub struct UsageGroup {
    pub rolling: Option<UsageWindowPayload>,
    pub weekly: Option<UsageWindowPayload>,
    pub monthly: Option<UsageWindowPayload>,
}

/// An OpenCode usage reply. `extra_balance` is in millionths of a dollar.
pub struct OpenCodeUsageResponse {
    pub usage: Option<UsageGroup>,
    pub rolling: Option<UsageWindowPayload>,
    pub weekly: Option<UsageWindowPayload>,
    pub monthly: Option<UsageWindowPayload>,
    pub extra_balance: Option<i64>,
    pub note: Option<String>,
}

/// What chrono's RFC 3339 parser makes of a text: the instant's
/// milliseconds since the Unix epoch, or `None` when the text is not an
/// RFC 3339 date-time.
pub uninterp spec fn rfc3339_millis(text: Seq<char>) -> Option<i64>;

/// Calls `chrono::DateTime::parse_from_rfc3339` and turns the parsed
/// instant into milliseconds since the epoch (`timestamp_millis`); the
/// result is the one named by `rfc3339_millis`.
#[verifier::external_body]
fn rfc3339_timestamp_millis(text: &str) -> (r: Option<i64>)
    ensures
        r == rfc3339_millis(text@),
{
    match chrono::DateTime::parse_from_rfc3339(text) {
        Ok(dt) => Some(dt.timestamp_millis()),
        Err(_) => None,
    }
}

/// An RFC 3339 date-time as milliseconds since the epoch, as an unsigned
/// number (a date before the epoch wraps around).
pub open spec fn iso_millis(text: Seq<char>) -> Option<u64> {
    match rfc3339_millis(text) {
        Some(m) => Some(m as u64),
        None => None,
    }
}

/// Computes `iso_millis(text@)`.
pub fn parse_iso_ms(text: &str) -> (r: Option<u64>)
    ensures
        r == iso_millis(text@),
{
    match rfc3339_timestamp_millis(text) {
        Some(m) => Some(m as u64),
        None => None,
    }
}

/// The used fraction of a window: its percentage divided by 100, clamped
/// into `[0, 1]`; no percentage counts as 0.
pub open spec fn used_fraction(percent: Option<i64>) -> Ratio {
    let p = match percent {
        Some(p) => p,
        None => 0,
    };
    clamped_ratio(p, 100_000_000)
}

/// When a window resets: its RFC 3339 time when that parses, else `now`
/// plus the seconds until reset (in wrapping arithmetic), else unknown.
pub open spec fn reset_time(w: UsageWindowPayload, now: u64) -> Option<u64> {
    let later = match w.reset_in_sec {
        Some(secs) => Some(now.wrapping_add(secs.wrapping_mul(1000))),
        None => None,
    };
    match w.resets_at {
        Some(t) => match iso_millis(t@) {
            Some(ms) => Some(ms),
            None => later,
        },
        None => later,
    }
}

/// The window of one subscription quota.
pub open spec fn quota_view(w: UsageWindowPayload, id: Seq<char>, label: Seq<char>, now: u64) -> WindowView {
    WindowView {
        id,
        label,
        used: used_fraction(w.percent),
        resets_at: reset_time(w, now),
        count: None,
        derived: false,
        group: Some("OpenCode Go — Cotas"@),
    }
}

pub open spec fn opt_quota(
    w: Option<UsageWindowPayload>,
    id: Seq<char>,
    label: Seq<char>,
    now: u64,
) -> Seq<WindowView> {
    match w {
        Some(w) => seq![quota_view(w, id, label, now)],
        None => Seq::empty(),
    }
}

/// The first of two optional windows that is present.
pub open spec fn either(
    first: Option<UsageWindowPayload>,
    second: Option<UsageWindowPayload>,
) -> Option<UsageWindowPayload> {
    match first {
        Some(w) => Some(w),
        None => second,
    }
}

/// The rolling window: the nested one, else the top-level one.
pub open spec fn rolling_of(resp: OpenCodeUsageResponse) -> Option<UsageWindowPayload> {
    match resp.usage {
        Some(g) => either(g.rolling, resp.rolling),
        None => resp.rolling,
    }
}

/// The weekly window: the nested one, else the top-level one.
pub open spec fn weekly_of(resp: OpenCodeUsageResponse) -> Option<UsageWindowPayload> {
    match resp.usage {
        Some(g) => either(g.weekly, resp.weekly),
        None => resp.weekly,
    }
}

/// The monthly window: the nested one, else the top-level one.
pub open spec fn monthly_of(resp: OpenCodeUsageResponse) -> Option<UsageWindowPayload> {
    match resp.usage {
        Some(g) => either(g.monthly, resp.monthly),
        None => resp.monthly,
    }
}

/// A reset time given as an RFC 3339 date-time wins: when the session
/// window's `resets_at` text parses, the window resets at that instant,
/// whatever `reset_in_sec` holds; otherwise it resets the given number of
/// seconds after `now`.
pub proof fn lemma_parsed_reset_time_wins(
    resp: OpenCodeUsageResponse,
    file_balance: Option<i64>,
    now: u64,
    w: UsageWindowPayload,
)
    requires
        (resp.usage is Some && resp.usage->0.rolling == Some(w)) || (resp.rolling == Some(w) && !(
        resp.usage is Some && resp.usage->0.rolling is Some)),
    ensures
        ({
            let first = usage_view(resp, file_balance, now).windows[0];
            &&& first.id == "opencode-session"@
            &&& (w.resets_at is Some && rfc3339_millis(w.resets_at->0@) is Some) ==> first.resets_at
                == Some(rfc3339_millis(w.resets_at->0@)->0 as u64)
            &&& (!(w.resets_at is Some && rfc3339_millis(w.resets_at->0@) is Some)
                && w.reset_in_sec is Some) ==> first.resets_at == Some(
                ((now + w.reset_in_sec->0 * 1000) % 0x1_0000_0000_0000_0000) as u64,
            )
        }),
{
    assert(rolling_of(resp) == Some(w));
    let first = usage_view(resp, file_balance, now).windows[0];
    assert(first == quota_view(w, "opencode-session"@, "Sessão 5h"@, now));
    if w.reset_in_sec is Some {
        let secs = w.reset_in_sec->0;
        assert(now.wrapping_add(secs.wrapping_mul(1000)) == ((now + secs * 1000) % 0x1_0000_0000_0000_0000) as u64) by {
            assert(secs.wrapping_mul(1000) == ((secs * 1000) % 0x1_0000_0000_0000_0000) as u64);
        }
    }
}

/// The extra balance window, fully used when the balance is not positive.
pub open spec fn extra_view(extra: i64) -> WindowView {
    WindowView {
        id: "opencode-extra-usd"@,
        label: "Saldo Extra API (USD)"@,
        used: if extra <= 0 {
            Ratio::spec_one()
        } else {
            Ratio::spec_zero()
        },
        resets_at: None,
        count: Some(hundredths_rounded(extra) as i64),
        derived: false,
        group: Some("OpenCode — Saldo Extra"@),
    }
}

/// The extra balance: the reply's, else the one kept in the balance file.
pub open spec fn extra_balance_of(resp: OpenCodeUsageResponse, file_balance: Option<i64>) -> Option<i64> {
    match resp.extra_balance {
        Some(b) => Some(b),
        None => file_balance,
    }
}

/// The snapshot a reply stands for, read at time `now`, given the balance
/// from the balance file (consulted only when the reply has none).
pub open spec fn usage_view(resp: OpenCodeUsageResponse, file_balance: Option<i64>, now: u64) -> SnapshotView {
    SnapshotView {
        status: Status::Live,
        windows: opt_quota(rolling_of(resp), "opencode-session"@, "Sessão 5h"@, now) + opt_quota(
            weekly_of(resp),
            "opencode-weekly"@,
            "Semanal"@,
            now,
        ) + opt_quota(monthly_of(resp), "opencode-monthly"@, "Mensal"@, now) + match extra_balance_of(
            resp,
            file_balance,
        ) {
            Some(e) => seq![extra_view(e)],
            None => Seq::empty(),
        },
        fetched_at: now,
        note: match resp.note {
            Some(n) => n@,
            None => "OpenCode Go ativo"@,
        },
    }
}

/// Whether the balance file is needed: the reply carries no balance.
pub fn needs_balance_file(resp: &OpenCodeUsageResponse) -> (b: bool)
    ensures
        b == (resp.extra_balance is None),
{
    resp.extra_balance.is_none()
}

/// The number text of the balance file's content: trimmed, without `$`.
pub open spec fn balance_text(content: Seq<char>) -> Seq<char> {
    without_char(trimmed(content), '$')
}

/// Computes `balance_text(content@)`.
pub fn balance_file_text(content: &str) -> (r: String)
    ensures
        r@ == balance_text(content@),
{
    let t = trim_text(content);
    remove_char(t.as_str(), '$')
}

fn used_of(percent: Option<i64>) -> (r: Ratio)
    ensures
        r == used_fraction(percent),
        r.wf(),
{
    let p: i64 = match percent {
        Some(p) => p,
        None => 0,
    };
    clamp_ratio(p, 100_000_000)
}

fn reset_of(w: &UsageWindowPayload, now: u64) -> (r: Option<u64>)
    ensures
        r == reset_time(*w, now),
{
    let later = match w.reset_in_sec {
        Some(secs) => Some(now.wrapping_add(secs.wrapping_mul(1000))),
        None => None,
    };
    match &w.resets_at {
        Some(t) => match parse_iso_ms(t.as_str()) {
            Some(ms) => Some(ms),
            None => later,
        },
        None => later,
    }
}

fn push_quota(
    windows: &mut Vec<LimitWindow>,
    w: &Option<UsageWindowPayload>,
    id: &str,
    label: &str,
    now: u64,
)
    ensures
        windows_view(final(windows)@) == windows_view(old(windows)@) + opt_quota(*w, id@, label@, now),
        final(windows)@.len() >= old(windows)@.len(),
        forall|i: int| 0 <= i < old(windows)@.len() ==> final(windows)@[i] == old(windows)@[i],
        forall|i: int|
            old(windows)@.len() <= i < final(windows)@.len() ==> (#[trigger] final(windows)@[i]).used.wf(),
{
    match w {
        Some(p) => {
            windows.push(
                LimitWindow {
                    id: String::from_str(id),
                    label: String::from_str(label),
                    used: used_of(p.percent),
                    resets_at: reset_of(p, now),
                    count: None,
                    derived: false,
                    group: Some(String::from_str("OpenCode Go — Cotas")),
                },
            );
        },
        None => {},
    }
    assert(windows_view(windows@) =~= windows_view(old(windows)@) + opt_quota(*w, id@, label@, now));
}

fn pick<'a>(
    first: &'a Option<UsageWindowPayload>,
    second: &'a Option<UsageWindowPayload>,
) -> (r: &'a Option<UsageWindowPayload>)
    ensures
        *r == either(*first, *second),
{
    match first {
        Some(_) => first,
        None => second,
    }
}

/// Builds the snapshot of a reply read at time `now`.
pub fn usage_snapshot(resp: &OpenCodeUsageResponse, file_balance: Option<i64>, now: u64) -> (s:
    UsageSnapshot)
    ensures
        s@ == usage_view(*resp, file_balance, now),
        s@.wf(),
{
    let (rolling, weekly, monthly) = match &resp.usage {
        Some(g) => (
            pick(&g.rolling, &resp.rolling),
            pick(&g.weekly, &resp.weekly),
            pick(&g.monthly, &resp.monthly),
        ),
        None => (&resp.rolling, &resp.weekly, &resp.monthly),
    };
    let mut windows: Vec<LimitWindow> = Vec::new();
    push_quota(&mut windows, rolling, "opencode-session", "Sessão 5h", now);
    push_quota(&mut windows, weekly, "opencode-weekly", "Semanal", now);
    push_quota(&mut windows, monthly, "opencode-monthly", "Mensal", now);
    let extra = match resp.extra_balance {
        Some(b) => Some(b),
        None => file_balance,
    };
    let ghost before = windows@;
    match extra {
        Some(e) => {
            let used = if e <= 0 {
                Ratio::one()
            } else {
                Ratio::zero()
            };
            windows.push(
                LimitWindow {
                    id: String::from_str("opencode-extra-usd"),
                    label: String::from_str("Saldo Extra API (USD)"),
                    used,
                    resets_at: None,
                    count: Some(micros_to_cents(e)),
                    derived: false,
                    group: Some(String::from_str("OpenCode — Saldo Extra")),
                },
            );
        },
        None => {},
    }
    let note = match &resp.note {
        Some(n) => n.clone(),
        None => String::from_str("OpenCode Go ativo"),
    };
    let s = UsageSnapshot { status: Status::Live, windows, fetched_at: now, note };
    assert(s@.windows =~= usage_view(*resp, file_balance, now).windows);
    assert(s@.wf()) by {
        assert forall|i: int| 0 <= i < s@.windows.len() implies (#[trigger] s@.windows[i]).used.wf() by {
            assert(s@.windows[i] == s.windows@[i]@);
        }
    }
    s
}

/// The report when no API key is configured.
pub open spec fn absent_view(now: u64) -> SnapshotView {
    bare_view(Status::Absent, "Configure OPENCODE_API_KEY or %APPDATA%\\codenotch\\opencode.key"@, now)
}

/// Builds `absent_view(now)`.
pub fn absent_snapshot(now: u64) -> (s: UsageSnapshot)
    ensures
        s@ == absent_view(now),
{
    bare_snapshot(
        Status::Absent,
        String::from_str("Configure OPENCODE_API_KEY or %APPDATA%\\codenotch\\opencode.key"),
        now,
    )
}

/// The report of a reply that is not a usage reply.
pub open spec fn malformed_view(message: Seq<char>, now: u64) -> SnapshotView {
    bare_view(Status::Error, "Malformed OpenCode usage payload: "@ + message, now)
}

/// Builds `malformed_view(message, now)`.
pub fn malformed_snapshot(message: &str, now: u64) -> (s: UsageSnapshot)
    ensures
        s@ == malformed_view(message@, now),
{
    bare_snapshot(Status::Error, concat2("Malformed OpenCode usage payload: ", message), now)
}

/// What a failed request leads to: a report that needs sign-in, or keeping
/// the previous reading under a note.
pub enum FailureAction {
    Report(UsageSnapshot),
    KeepPrevious(String),
}

/// The note of a refused request (403): a missing subscription when the
/// reply's body says so.
pub open spec fn denied_note(body: Seq<char>) -> Seq<char> {
    if occurs_in(body, "subscription required"@) || occurs_in(body, "EntitlementError"@) {
        "OpenCode Go subscription required. Ative em opencode.ai/auth"@
    } else {
        "OpenCode API access denied (403)"@
    }
}

/// What a failed request means: 401 and 403 are reported as needing
/// sign-in; on rate limiting (429) and any other failure the previous
/// reading is kept, under the note given.
pub open spec fn failure_meaning(f: HttpFailure, now: u64) -> Result<SnapshotView, Seq<char>> {
    match f.status {
        Some(code) => if code == 401 {
            Ok(bare_view(Status::NeedsAuth, "OpenCode API key invalid (401)"@, now))
        } else if code == 403 {
            Ok(bare_view(Status::NeedsAuth, denied_note(f.body@), now))
        } else if code == 429 {
            Err("OpenCode API rate limited (429)"@)
        } else {
            Err("Failed to reach OpenCode Go API: "@ + f.message@)
        },
        None => Err("Failed to reach OpenCode Go API: "@ + f.message@),
    }
}

pub open spec fn action_meaning(a: FailureAction) -> Result<SnapshotView, Seq<char>> {
    match a {
        FailureAction::Report(s) => Ok(s@),
        FailureAction::KeepPrevious(note) => Err(note@),
    }
}

/// Decides what a failed request leads to.
pub fn on_failure(f: &HttpFailure, now: u64) -> (a: FailureAction)
    ensures
        action_meaning(a) == failure_meaning(*f, now),
{
    match f.status {
        Some(code) => {
            if code == 401 {
                FailureAction::Report(
                    bare_snapshot(Status::NeedsAuth, String::from_str("OpenCode API key invalid (401)"), now),
                )
            } else if code == 403 {
                let body = f.body.as_str();
                let note = if contains_text(body, "subscription required") || contains_text(
                    body,
                    "EntitlementError",
                ) {
                    String::from_str("OpenCode Go subscription required. Ative em opencode.ai/auth")
                } else {
                    String::from_str("OpenCode API access denied (403)")
                };
                FailureAction::Report(bare_snapshot(Status::NeedsAuth, note, now))
            } else if code == 429 {
                FailureAction::KeepPrevious(String::from_str("OpenCode API rate limited (429)"))
            } else {
                FailureAction::KeepPrevious(
                    concat2("Failed to reach OpenCode Go API: ", f.message.as_str()),
                )
            }
        },
        None => FailureAction::KeepPrevious(
            concat2("Failed to reach OpenCode Go API: ", f.message.as_str()),
        ),
    }
}

/// Rate limiting and unreachable servers never erase a reading: the
/// previous windows are kept, marked stale when there are any.
pub proof fn lemma_failure_keeps_reading(f: HttpFailure, previous: SnapshotView, now: u64)
    requires
        f.status != Some(401u16) && f.status != Some(403u16),
    ensures
        failure_meaning(f, now) matches Err(note) && kept_view(previous, note, now).windows
            == previous.windows && (kept_view(previous, note, now).status == Status::Stale
            <==> previous.windows.len() > 0),
{
}

/// The reading kept after a failure: the previous windows, stale when
/// there are any, an error otherwise.
pub open spec fn kept_view(previous: SnapshotView, note: Seq<char>, now: u64) -> SnapshotView {
    SnapshotView {
        status: if previous.windows.len() > 0 {
            Status::Stale
        } else {
            Status::Error
        },
        windows: previous.windows,
        fetched_at: now,
        note,
    }
}

/// Keeps the previous reading (as restored from disk) under `note`.
pub fn keep_previous(previous: UsageSnapshot, note: String, now: u64) -> (s: UsageSnapshot)
    ensures
        s@ == kept_view(previous@, note@, now),
        previous@.wf() ==> s@.wf(),
{
    let status = if previous.windows.len() > 0 {
        Status::Stale
    } else {
        Status::Error
    };
    UsageSnapshot { status, windows: previous.windows, fetched_at: now, note }
}

/// Whether a finished poll is saved: not when absent, and only when it has
/// windows or needs sign-in.
pub fn should_persist(s: &UsageSnapshot) -> (b: bool)
    ensures
        b == (s.status != Status::Absent && (s.windows@.len() > 0 || s.status == Status::NeedsAuth)),
{
    s.status != Status::Absent && (s.windows.len() > 0 || s.status == Status::NeedsAuth)
}

} // verus!
