//! DeepSeek usage adapter (official API).
//!
//! `GET /user/balance` answers with one balance per currency: the total
//! balance, the manually funded part and the granted (promotional) part.
//! Each balance becomes a window; the funded and granted parts get windows
//! of their own when they are positive. Amounts enter the library in
//! millionths and are shown as counts of cents.

use crate::credentials::{first_key, first_usable_key, layered_candidates, layered_candidates_of, CredentialFile};
use crate::refresh::RefreshSignal;
use crate::text::{concat2, concat3, lowercase_text, lowercased, trimmed};
use crate::usage::{
    bare_snapshot, bare_view, hundredths_rounded, opt_text, micros_to_cents, windows_view, HttpFailure,
    LimitWindow, Ratio, SnapshotView, Status, UsageSnapshot, WindowView,
};
use vstd::prelude::*;

verus! {

/// Asks the DeepSeek poller to refresh now.
pub fn request_refresh(signal: &RefreshSignal) {
    signal.request();
}

/// Finds the DeepSeek API key: `DEEPSEEK_API_KEY` (`env`), then the JSON
/// credential files `~/.deepseek/credentials.json` and
/// `~/.deepseek/config.json` (`files`, in that order; a file that is not
/// JSON is passed over), then the application's `deepseek.key` file.
pub fn resolve_api_key(
    env: Option<String>,
    files: &Vec<Option<CredentialFile>>,
    key_file: Option<String>,
) -> (r: Option<String>)
    ensures
        opt_text(r) == first_key(layered_candidates(env, files@, key_file, false)),
        r matches Some(k) ==> k@.len() > 0 && trimmed(k@) == k@,
{
    let cands = layered_candidates_of(env, files, key_file, false);
    first_usable_key(&cands)
}

/// One balance of the account. `total_balance` is the reply's text of the
/// total; `total`, `granted` and `topped_up` are the three amounts in
/// millionths, as read from the reply's decimal texts (0 for a text that
/// is not a number).
pub struct BalanceInfo {
    pub currency: String,
    pub total_balance: String,
    pub total: i64,
    pub granted: i64,
    pub topped_up: i64,
}

/// A DeepSeek balance reply.
pub struct BalanceResponse {
    pub is_available: bool,
    pub balance_infos: Vec<BalanceInfo>,
}

/// A balance window of the "DeepSeek" group that is not a depletion signal.
pub open spec fn detail_window(id: Seq<char>, label: Seq<char>, amount: i64) -> WindowView {
    WindowView {
        id,
        label,
        used: Ratio::spec_zero(),
        resets_at: None,
        count: Some(hundredths_rounded(amount) as i64),
        derived: false,
        group: Some("DeepSeek"@),
    }
}

/// The windows of one balance: the total (fully used when it is not
/// positive), then the funded part and the granted part when positive.
pub open spec fn info_windows(info: BalanceInfo) -> Seq<WindowView> {
    let cur = info.currency@;
    let key = "deepseek-"@ + lowercased(cur);
    seq![
        WindowView {
            id: key,
            label: "Saldo "@ + cur,
            used: if info.total <= 0 {
                Ratio::spec_one()
            } else {
                Ratio::spec_zero()
            },
            resets_at: None,
            count: Some(hundredths_rounded(info.total) as i64),
            derived: false,
            group: Some("DeepSeek"@),
        },
    ] + (if info.topped_up > 0 {
        seq![detail_window(key + "-topped"@, "Recarregado ("@ + cur + ")"@, info.topped_up)]
    } else {
        Seq::empty()
    }) + (if info.granted > 0 {
        seq![detail_window(key + "-granted"@, "Concedido ("@ + cur + ")"@, info.granted)]
    } else {
        Seq::empty()
    })
}

/// The windows of all balances, in order.
pub open spec fn balance_windows(infos: Seq<BalanceInfo>) -> Seq<WindowView>
    decreases infos.len(),
{
    if infos.len() == 0 {
        Seq::empty()
    } else {
        balance_windows(infos.drop_last()) + info_windows(infos.last())
    }
}

/// The snapshot a reply stands for, read at time `now`: an error when the
/// reply lists no balance.
pub open spec fn balance_view(resp: BalanceResponse, now: u64) -> SnapshotView {
    let infos = resp.balance_infos@;
    if infos.len() == 0 {
        bare_view(Status::Error, "DeepSeek account balance unavailable"@, now)
    } else {
        SnapshotView {
            status: Status::Live,
            windows: balance_windows(infos),
            fetched_at: now,
            note: "Total: "@ + infos[0].currency@ + " "@ + infos[0].total_balance@,
        }
    }
}

proof fn lemma_windows_prefix(infos: Seq<BalanceInfo>, i: int, j: int)
    requires
        0 <= i <= j <= infos.len(),
    ensures
        balance_windows(infos.take(i)).len() <= balance_windows(infos.take(j)).len(),
        forall|k: int|
            0 <= k < balance_windows(infos.take(i)).len() ==> balance_windows(infos.take(j))[k]
                == balance_windows(infos.take(i))[k],
    decreases j - i,
{
    if i < j {
        lemma_windows_prefix(infos, i, j - 1);
        assert(infos.take(j).drop_last() =~= infos.take(j - 1));
    }
}

/// Every balance gets its windows whatever the others hold: the total's
/// window (depleted exactly when the total is not positive), a funded
/// window when the funded part is positive, and a granted window when the
/// granted part is positive, each counting its amount in cents.
pub proof fn lemma_each_balance_has_its_windows(resp: BalanceResponse, now: u64, i: int)
    requires
        0 <= i < resp.balance_infos@.len(),
    ensures
        ({
            let info = resp.balance_infos@[i];
            let cur = info.currency@;
            let key = "deepseek-"@ + lowercased(cur);
            let ws = balance_view(resp, now).windows;
            &&& exists|k: int|
                0 <= k < ws.len() && ws[k].id == key && ws[k].label == "Saldo "@ + cur
                    && ws[k].count == Some(hundredths_rounded(info.total) as i64) && (ws[k].used
                    == Ratio::spec_one() <==> info.total <= 0)
            &&& info.topped_up > 0 ==> exists|k: int|
                0 <= k < ws.len() && ws[k].id == key + "-topped"@ && ws[k].label
                    == "Recarregado ("@ + cur + ")"@ && ws[k].count == Some(
                    hundredths_rounded(info.topped_up) as i64,
                )
            &&& info.granted > 0 ==> exists|k: int|
                0 <= k < ws.len() && ws[k].id == key + "-granted"@ && ws[k].label
                    == "Concedido ("@ + cur + ")"@ && ws[k].count == Some(
                    hundredths_rounded(info.granted) as i64,
                )
        }),
{
    let infos = resp.balance_infos@;
    let info = infos[i];
    let n = infos.len();
    lemma_windows_prefix(infos, i + 1, n as int);
    assert(infos.take(n as int) =~= infos);
    assert(infos.take(i + 1).drop_last() =~= infos.take(i));
    let before = balance_windows(infos.take(i));
    let mine = info_windows(info);
    let upto = balance_windows(infos.take(i + 1));
    assert(upto == before + mine);
    let ws = balance_view(resp, now).windows;
    assert(ws == balance_windows(infos));
    let b: int = before.len() as int;
    assert(ws[b] == upto[b]);
    assert(upto[b] == mine[0]);
    let t: int = if info.topped_up > 0 {
        1
    } else {
        0
    };
    if info.topped_up > 0 {
        assert(ws[b + 1] == upto[b + 1]);
        assert(upto[b + 1] == mine[1]);
    }
    if info.granted > 0 {
        assert(ws[b + 1 + t] == upto[b + 1 + t]);
        assert(upto[b + 1 + t] == mine[1 + t]);
    }
}

proof fn lemma_balance_windows_wf(infos: Seq<BalanceInfo>)
    ensures
        forall|i: int|
            0 <= i < balance_windows(infos).len() ==> (#[trigger] balance_windows(infos)[i]).used.wf(),
    decreases infos.len(),
{
    if infos.len() > 0 {
        lemma_balance_windows_wf(infos.drop_last());
        let a = balance_windows(infos.drop_last());
        let b = info_windows(infos.last());
        assert forall|i: int| 0 <= i < b.len() implies (#[trigger] b[i]).used.wf() by {}
        assert forall|i: int|
            0 <= i < balance_windows(infos).len() implies (#[trigger] balance_windows(
            infos,
        )[i]).used.wf() by {
            if i < a.len() {
                assert(balance_windows(infos)[i] == a[i]);
            } else {
                assert(balance_windows(infos)[i] == b[i - a.len()]);
            }
        }
    }
}

fn detail(id: String, label: String, amount: i64) -> (w: LimitWindow)
    ensures
        w@ == detail_window(id@, label@, amount),
{
    LimitWindow {
        id,
        label,
        used: Ratio::zero(),
        resets_at: None,
        count: Some(micros_to_cents(amount)),
        derived: false,
        group: Some(String::from_str("DeepSeek")),
    }
}

fn push_info_windows(windows: &mut Vec<LimitWindow>, info: &BalanceInfo)
    ensures
        windows_view(final(windows)@) == windows_view(old(windows)@) + info_windows(*info),
{
    let ghost start = windows_view(windows@);
    let lower = lowercase_text(info.currency.as_str());
    let key = concat2("deepseek-", lower.as_str());
    let used = if info.total <= 0 {
        Ratio::one()
    } else {
        Ratio::zero()
    };
    windows.push(
        LimitWindow {
            id: key.clone(),
            label: concat2("Saldo ", info.currency.as_str()),
            used,
            resets_at: None,
            count: Some(micros_to_cents(info.total)),
            derived: false,
            group: Some(String::from_str("DeepSeek")),
        },
    );
    let ghost first = windows_view(windows@);
    assert(first =~= start + info_windows(*info).take(1));
    if info.topped_up > 0 {
        windows.push(
            detail(
                concat2(key.as_str(), "-topped"),
                concat3("Recarregado (", info.currency.as_str(), ")"),
                info.topped_up,
            ),
        );
    }
    let ghost second = windows_view(windows@);
    let ghost n2: int = if info.topped_up > 0 {
        2
    } else {
        1
    };
    assert(second =~= start + info_windows(*info).take(n2));
    if info.granted > 0 {
        windows.push(
            detail(
                concat2(key.as_str(), "-granted"),
                concat3("Concedido (", info.currency.as_str(), ")"),
                info.granted,
            ),
        );
    }
    assert(windows_view(windows@) =~= start + info_windows(*info));
}

/// Builds the snapshot of a reply read at time `now`.
pub fn balance_snapshot(resp: &BalanceResponse, now: u64) -> (s: UsageSnapshot)
    ensures
        s@ == balance_view(*resp, now),
        s@.wf(),
{
    let infos = &resp.balance_infos;
    if infos.len() == 0 {
        return bare_snapshot(
            Status::Error,
            String::from_str("DeepSeek account balance unavailable"),
            now,
        );
    }
    let mut windows: Vec<LimitWindow> = Vec::new();
    let mut i: usize = 0;
    assert(windows_view(windows@) =~= balance_windows(infos@.take(0)));
    while i < infos.len()
        invariant
            i <= infos.len(),
            windows_view(windows@) == balance_windows(infos@.take(i as int)),
        decreases infos.len() - i,
    {
        push_info_windows(&mut windows, &infos[i]);
        assert(infos@.take(i + 1).drop_last() =~= infos@.take(i as int));
        i = i + 1;
    }
    assert(infos@.take(infos.len() as int) =~= infos@);
    let first = &infos[0];
    let mut note = concat3("Total: ", first.currency.as_str(), " ");
    note.append(first.total_balance.as_str());
    let s = UsageSnapshot { status: Status::Live, windows, fetched_at: now, note };
    proof {
        lemma_balance_windows_wf(infos@);
    }
    s
}

/// The report when no API key is configured.
pub open spec fn absent_view(now: u64) -> SnapshotView {
    bare_view(
        Status::Absent,
        "No DEEPSEEK_API_KEY or %APPDATA%\\codenotch\\deepseek.key found"@,
        now,
    )
}

/// Builds `absent_view(now)`.
pub fn absent_snapshot(now: u64) -> (s: UsageSnapshot)
    ensures
        s@ == absent_view(now),
{
    bare_snapshot(
        Status::Absent,
        String::from_str("No DEEPSEEK_API_KEY or %APPDATA%\\codenotch\\deepseek.key found"),
        now,
    )
}

/// The report of a failed request: a rejected key (401/403) needs
/// sign-in; rate limiting and other failures are errors.
pub open spec fn failure_view(f: HttpFailure, now: u64) -> SnapshotView {
    match f.status {
        Some(code) => if code == 401 || code == 403 {
            bare_view(Status::NeedsAuth, "DeepSeek API key invalid (401/403): "@ + f.message@, now)
        } else if code == 429 {
            bare_view(Status::Error, "DeepSeek API rate limited (429): "@ + f.message@, now)
        } else {
            bare_view(Status::Error, "Failed to reach DeepSeek API: "@ + f.message@, now)
        },
        None => bare_view(Status::Error, "Failed to reach DeepSeek API: "@ + f.message@, now),
    }
}

/// Builds `failure_view(f, now)`.
pub fn failure_snapshot(f: &HttpFailure, now: u64) -> (s: UsageSnapshot)
    ensures
        s@ == failure_view(*f, now),
{
    let msg = f.message.as_str();
    match f.status {
        Some(code) => {
            if code == 401 || code == 403 {
                bare_snapshot(
                    Status::NeedsAuth,
                    concat2("DeepSeek API key invalid (401/403): ", msg),
                    now,
                )
            } else if code == 429 {
                bare_snapshot(Status::Error, concat2("DeepSeek API rate limited (429): ", msg), now)
            } else {
                bare_snapshot(Status::Error, concat2("Failed to reach DeepSeek API: ", msg), now)
            }
        },
        None => bare_snapshot(Status::Error, concat2("Failed to reach DeepSeek API: ", msg), now),
    }
}

/// The report of a reply that is not a balance reply.
pub open spec fn malformed_view(message: Seq<char>, now: u64) -> SnapshotView {
    bare_view(Status::Error, "Malformed DeepSeek balance payload: "@ + message, now)
}

/// Builds `malformed_view(message, now)`.
pub fn malformed_snapshot(message: &str, now: u64) -> (s: UsageSnapshot)
    ensures
        s@ == malformed_view(message@, now),
{
    bare_snapshot(Status::Error, concat2("Malformed DeepSeek balance payload: ", message), now)
}

} // verus!
