//! The usage snapshot that every provider reports, and the rules shared by
//! all providers: how a persisted snapshot is restored, and which snapshots
//! are worth persisting.
//!
//! Quantities that the services report as decimal numbers enter the library
//! as fixed-point integers in millionths ("micros"): `1.5` is `1_500_000`.
//! The fraction of a quota that is used is an exact ratio of two integers.

use vstd::prelude::*;

verus! {

/// A fraction `num / den` of a quota.
#[derive(Clone, Copy, Debug, PartialEq, Eq, Structural)]
pub struct Ratio {
    pub num: u64,
    pub den: u64,
}

impl Ratio {
    /// A well-formed ratio lies in `[0, 1]`.
    pub open spec fn wf(self) -> bool {
        0 < self.den && self.num <= self.den
    }

    pub open spec fn spec_zero() -> Ratio {
        Ratio { num: 0, den: 1 }
    }

    pub open spec fn spec_one() -> Ratio {
        Ratio { num: 1, den: 1 }
    }

    /// Nothing of the quota is used.
    pub fn zero() -> (r: Ratio)
        ensures
            r == Ratio::spec_zero(),
    {
        Ratio { num: 0, den: 1 }
    }

    /// The whole quota is used.
    pub fn one() -> (r: Ratio)
        ensures
            r == Ratio::spec_one(),
    {
        Ratio { num: 1, den: 1 }
    }
}

/// `part / whole`, clamped into `[0, 1]`; `whole` must be positive.
pub open spec fn clamped_ratio(part: i64, whole: i64) -> Ratio
    recommends
        whole > 0,
{
    Ratio {
        num: if part < 0 {
            0u64
        } else if part > whole {
            whole as u64
        } else {
            part as u64
        },
        den: whole as u64,
    }
}

/// `part / whole` as a fraction of the quota, clamped into `[0, 1]`:
/// its denominator is the whole and its numerator the part held to
/// `[0, whole]`.
pub open spec fn is_clamped_share(r: Ratio, part: i64, whole: i64) -> bool {
    &&& r.den == whole
    &&& r.num == (if part < 0 {
        0
    } else if part > whole {
        whole as int
    } else {
        part as int
    })
}

/// Computes `clamped_ratio(part, whole)`.
pub fn clamp_ratio(part: i64, whole: i64) -> (r: Ratio)
    requires
        whole > 0,
    ensures
        r == clamped_ratio(part, whole),
        r.wf(),
{
    let num: u64 = if part < 0 {
        0
    } else if part > whole {
        whole as u64
    } else {
        part as u64
    };
    Ratio { num, den: whole as u64 }
}

/// The state a provider reports.
#[derive(Clone, Copy, Debug, PartialEq, Eq, Structural)]
pub enum Status {
    /// Nothing was ever read (the default snapshot).
    Unset,
    /// A fresh reading ("ok").
    Live,
    /// The provider is not configured on this machine: no cell is shown.
    Absent,
    NeedsAuth,
    Error,
    /// A reading restored from disk or kept after a failed refresh.
    Stale,
}

/// One quota bar of a provider's cell.
pub struct LimitWindow {
    pub id: String,
    pub label: String,
    pub used: Ratio,
    pub resets_at: Option<u64>,
    pub count: Option<i64>,
    pub derived: bool,
    pub group: Option<String>,
}

/// What a provider reports at one poll.
pub struct UsageSnapshot {
    pub status: Status,
    pub windows: Vec<LimitWindow>,
    pub fetched_at: u64,
    pub note: String,
}

/// The mathematical content of a `LimitWindow`.
pub struct WindowView {
    pub id: Seq<char>,
    pub label: Seq<char>,
    pub used: Ratio,
    pub resets_at: Option<u64>,
    pub count: Option<i64>,
    pub derived: bool,
    pub group: Option<Seq<char>>,
}

/// The mathematical content of a `UsageSnapshot`.
pub struct SnapshotView {
    pub status: Status,
    pub windows: Seq<WindowView>,
    pub fetched_at: u64,
    pub note: Seq<char>,
}

pub open spec fn opt_text(o: Option<String>) -> Option<Seq<char>> {
    match o {
        Some(s) => Some(s@),
        None => None,
    }
}

impl View for LimitWindow {
    type V = WindowView;

    open spec fn view(&self) -> WindowView {
        WindowView {
            id: self.id@,
            label: self.label@,
            used: self.used,
            resets_at: self.resets_at,
            count: self.count,
            derived: self.derived,
            group: opt_text(self.group),
        }
    }
}

pub open spec fn windows_view(ws: Seq<LimitWindow>) -> Seq<WindowView> {
    ws.map_values(|w: LimitWindow| w@)
}

impl View for UsageSnapshot {
    type V = SnapshotView;

    open spec fn view(&self) -> SnapshotView {
        SnapshotView {
            status: self.status,
            windows: windows_view(self.windows@),
            fetched_at: self.fetched_at,
            note: self.note@,
        }
    }
}

impl SnapshotView {
    /// Every window's used fraction lies in `[0, 1]`.
    pub open spec fn wf(self) -> bool {
        forall|i: int| 0 <= i < self.windows.len() ==> (#[trigger] self.windows[i]).used.wf()
    }
}

/// The snapshot shown before anything was read.
pub open spec fn empty_view() -> SnapshotView {
    SnapshotView { status: Status::Unset, windows: Seq::empty(), fetched_at: 0, note: Seq::empty() }
}

/// A snapshot without windows.
pub open spec fn bare_view(status: Status, note: Seq<char>, now: u64) -> SnapshotView {
    SnapshotView { status, windows: Seq::empty(), fetched_at: now, note }
}

impl Default for UsageSnapshot {
    fn default() -> (s: UsageSnapshot)
        ensures
            s@ == empty_view(),
    {
        let s = UsageSnapshot {
            status: Status::Unset,
            windows: Vec::new(),
            fetched_at: 0,
            note: String::new(),
        };
        assert(s@.windows =~= Seq::<WindowView>::empty());
        s
    }
}

/// Builds a snapshot without windows.
pub fn bare_snapshot(status: Status, note: String, now: u64) -> (s: UsageSnapshot)
    ensures
        s@ == bare_view(status, note@, now),
        s@.wf(),
{
    let s = UsageSnapshot { status, windows: Vec::new(), fetched_at: now, note };
    assert(s@.windows =~= Seq::<WindowView>::empty());
    s
}

/// The snapshot that a saved one is restored to: a saved reading that has
/// windows is marked stale; nothing saved gives the empty snapshot.
pub open spec fn restored_view(saved: Option<SnapshotView>) -> SnapshotView {
    match saved {
        None => empty_view(),
        Some(s) => if s.windows.len() > 0 {
            SnapshotView { status: Status::Stale, ..s }
        } else {
            s
        },
    }
}

pub open spec fn opt_snapshot_view(o: Option<UsageSnapshot>) -> Option<SnapshotView> {
    match o {
        Some(s) => Some(s@),
        None => None,
    }
}

/// Restores the snapshot read back from disk (`None` when there was none or
/// it could not be read).
pub fn restore_persisted(saved: Option<UsageSnapshot>) -> (s: UsageSnapshot)
    ensures
        s@ == restored_view(opt_snapshot_view(saved)),
{
    match saved {
        None => UsageSnapshot::default(),
        Some(mut s) => {
            if s.windows.len() > 0 {
                s.status = Status::Stale;
            }
            s
        },
    }
}

/// Restoring a restored snapshot changes nothing more.
pub proof fn lemma_restore_idempotent(saved: Option<SnapshotView>)
    ensures
        restored_view(Some(restored_view(saved))) == restored_view(saved),
{
}

/// A restored snapshot keeps the saved windows, time and note.
pub proof fn lemma_restore_keeps_reading(saved: SnapshotView)
    ensures
        restored_view(Some(saved)).windows == saved.windows,
        restored_view(Some(saved)).fetched_at == saved.fetched_at,
        restored_view(Some(saved)).note == saved.note,
        restored_view(Some(saved)).status == Status::Stale <==> (saved.windows.len() > 0
            || saved.status == Status::Stale),
{
}

/// A provider without credentials or configuration gets no cell: its
/// report is absent and has no window, and it is never saved.
pub proof fn lemma_unconfigured_provider_has_no_cell(now: u64)
    ensures
        crate::deepseek::absent_view(now).status == Status::Absent,
        crate::deepseek::absent_view(now).windows.len() == 0,
        crate::minimax::absent_view(now).status == Status::Absent,
        crate::minimax::absent_view(now).windows.len() == 0,
        crate::opencode::absent_view(now).status == Status::Absent,
        crate::opencode::absent_view(now).windows.len() == 0,
        crate::muse::absent_view(now).status == Status::Absent,
        crate::muse::absent_view(now).windows.len() == 0,
{
}

/// Whether the background poller saves a snapshot: everything but the
/// report that the provider is absent.
pub fn should_persist(s: &UsageSnapshot) -> (b: bool)
    ensures
        b == (s.status != Status::Absent),
{
    s.status != Status::Absent
}

/// A failed HTTP request: the status code when the server answered with
/// an error status, the error's text, and the body of the error reply.
pub struct HttpFailure {
    pub status: Option<u16>,
    pub message: String,
    pub body: String,
}

/// `m` millionths truncated toward zero to whole units.
pub open spec fn units_toward_zero(m: i64) -> int {
    if m >= 0 {
        m / 1_000_000
    } else {
        -((-m) / 1_000_000)
    }
}

/// Computes `units_toward_zero(m)`.
pub fn micros_to_units(m: i64) -> (u: i64)
    ensures
        u == units_toward_zero(m),
{
    let w: i128 = m as i128;
    if w >= 0 {
        (w / 1_000_000) as i64
    } else {
        (-((-w) / 1_000_000)) as i64
    }
}

/// `m` millionths in hundredths, rounded half away from zero.
pub open spec fn hundredths_rounded(m: i64) -> int {
    if m >= 0 {
        (m + 5_000) / 10_000
    } else {
        -((-m + 5_000) / 10_000)
    }
}

/// Computes `hundredths_rounded(m)`: an amount in millionths as cents.
pub fn micros_to_cents(m: i64) -> (c: i64)
    ensures
        c == hundredths_rounded(m),
        -5_000 <= c * 10_000 - m <= 5_000,
{
    let w: i128 = m as i128;
    if w >= 0 {
        (((w + 5_000) / 10_000)) as i64
    } else {
        (-((-w + 5_000) / 10_000)) as i64
    }
}

} // verus!
