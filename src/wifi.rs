//! Wireless signal and download progress. Each client picks the nearest
//! access point, whose signal is the strongest, since the signal strength
//! `1 / (1 + ln(1 + 0.2 d²))` falls as the squared distance `d²` grows. The
//! client counts as connected while that strength is at least 0.7, and its
//! download advances only while it is connected.
use vstd::prelude::*;
use crate::geometry::{Vec2, distance_sq, distance_sq_spec};
use crate::timing::{total_time, lemma_total_time_nonneg};

verus! {

/// Connected time, in microseconds, that a full download takes.
pub const DOWNLOAD_TIME: u64 = 2_000_000;

/// How long, in microseconds, a download survives without signal.
pub const GRACE_PERIOD: u64 = 5_000_000;

/// The largest squared distance, in squared steps, at which the signal
/// strength is still at least 0.7: `5 (e^(3/7) - 1)` square units, rounded
/// down.
pub const CONNECT_DISTANCE_SQ: u128 = 2_675_315;

/// A stationary access point.
#[derive(Clone, Copy, Debug, PartialEq, Eq, Structural)]
pub struct AccessPoint {
    pub entity: u64,
    pub position: Vec2,
}

/// What a client receives: the access point it follows, if any, and the
/// squared distance to it, from which the signal strength follows. Both are
/// recomputed together.
#[derive(Clone, Copy, Debug, PartialEq, Eq, Structural)]
pub struct WifiClient {
    pub access_point: Option<u64>,
    pub distance_sq: u128,
}

/// A client's download. `progress` counts connected microseconds, out of
/// `DOWNLOAD_TIME`; `time_before_disconnection` counts microseconds.
#[derive(Clone, Copy, Debug, PartialEq, Eq, Structural)]
pub enum DownloadProgress {
    Disconnected,
    LosingConnection { time_before_disconnection: u64, progress: u64 },
    Downloading { progress: u64 },
    Completed,
}

impl WifiClient {
    /// A client that has not received any signal yet.
    pub fn new() -> (r: WifiClient)
        ensures
            r.access_point is None,
            !r.connected_spec(),
    {
        WifiClient { access_point: None, distance_sq: 0 }
    }

    /// Whether the signal is strong enough to download.
    pub open spec fn connected_spec(&self) -> bool {
        self.access_point is Some && self.distance_sq <= CONNECT_DISTANCE_SQ
    }

    /// Whether the signal is strong enough to download: there is an access
    /// point and its signal strength is at least 0.7.
    pub fn connected(&self) -> (r: bool)
        ensures
            r == self.connected_spec(),
    {
        self.access_point.is_some() && self.distance_sq <= CONNECT_DISTANCE_SQ
    }
}

impl DownloadProgress {
    /// Progress values stay below a full download, and a grace period that
    /// has run out is a disconnection.
    pub open spec fn wf(&self) -> bool {
        match *self {
            DownloadProgress::LosingConnection { time_before_disconnection, progress } =>
                time_before_disconnection > 0 && progress < DOWNLOAD_TIME,
            DownloadProgress::Downloading { progress } => progress < DOWNLOAD_TIME,
            _ => true,
        }
    }
}

/// One tick of `dt` microseconds of the download, connected or not.
pub open spec fn download_transition(s: DownloadProgress, connected: bool, dt: u64) -> DownloadProgress {
    match s {
        DownloadProgress::Disconnected => if connected {
            DownloadProgress::Downloading { progress: 0 }
        } else {
            DownloadProgress::Disconnected
        },
        DownloadProgress::LosingConnection { time_before_disconnection, progress } => if connected {
            DownloadProgress::Downloading { progress }
        } else if time_before_disconnection <= dt {
            DownloadProgress::Disconnected
        } else {
            DownloadProgress::LosingConnection {
                time_before_disconnection: (time_before_disconnection - dt) as u64,
                progress,
            }
        },
        DownloadProgress::Downloading { progress } => if connected {
            if progress + dt >= DOWNLOAD_TIME {
                DownloadProgress::Completed
            } else {
                DownloadProgress::Downloading { progress: (progress + dt) as u64 }
            }
        } else {
            DownloadProgress::LosingConnection { time_before_disconnection: GRACE_PERIOD, progress }
        },
        DownloadProgress::Completed => DownloadProgress::Completed,
    }
}

/// Advances a download by one tick of `dt` microseconds, given whether the
/// client is connected during it.
pub fn next_download_progress(s: DownloadProgress, connected: bool, dt: u64) -> (r: DownloadProgress)
    ensures
        r == download_transition(s, connected, dt),
        s.wf() ==> r.wf(),
{
    match s {
        DownloadProgress::Disconnected => {
            if connected {
                DownloadProgress::Downloading { progress: 0 }
            } else {
                DownloadProgress::Disconnected
            }
        },
        DownloadProgress::LosingConnection { time_before_disconnection, progress } => {
            if connected {
                DownloadProgress::Downloading { progress }
            } else if time_before_disconnection <= dt {
                DownloadProgress::Disconnected
            } else {
                DownloadProgress::LosingConnection {
                    time_before_disconnection: time_before_disconnection - dt,
                    progress,
                }
            }
        },
        DownloadProgress::Downloading { progress } => {
            if connected {
                if progress >= DOWNLOAD_TIME || dt >= DOWNLOAD_TIME - progress {
                    DownloadProgress::Completed
                } else {
                    DownloadProgress::Downloading { progress: progress + dt }
                }
            } else {
                DownloadProgress::LosingConnection { time_before_disconnection: GRACE_PERIOD, progress }
            }
        },
        DownloadProgress::Completed => DownloadProgress::Completed,
    }
}

/// Advances the download of a client by one tick of `dt` microseconds,
/// connected when its signal strength is at least 0.7.
pub fn update_download_progress(s: DownloadProgress, client: &WifiClient, dt: u64) -> (r: DownloadProgress)
    ensures
        r == download_transition(s, client.connected_spec(), dt),
        s.wf() ==> r.wf(),
{
    let connected = client.connected();
    next_download_progress(s, connected, dt)
}

/// The download after ticks of the given lengths, connected throughout or
/// disconnected throughout.
pub open spec fn run_download(s: DownloadProgress, connected: bool, dts: Seq<u64>) -> DownloadProgress
    decreases dts.len(),
{
    if dts.len() == 0 {
        s
    } else {
        download_transition(run_download(s, connected, dts.drop_last()), connected, dts.last())
    }
}

/// Uninterrupted signal completes a download exactly when the connected time
/// reaches `DOWNLOAD_TIME`: from progress `p`, ticks of total length `t`
/// give `Completed` if `p + t >= DOWNLOAD_TIME` and `Downloading` at
/// `p + t` otherwise.
pub proof fn lemma_download_completes(p: u64, dts: Seq<u64>)
    requires
        p < DOWNLOAD_TIME,
    ensures
        run_download(DownloadProgress::Downloading { progress: p }, true, dts) == if p + total_time(dts) >= DOWNLOAD_TIME {
            DownloadProgress::Completed
        } else {
            DownloadProgress::Downloading { progress: (p + total_time(dts)) as u64 }
        },
    decreases dts.len(),
{
    if dts.len() > 0 {
        lemma_download_completes(p, dts.drop_last());
        lemma_total_time_nonneg(dts.drop_last());
    }
}

proof fn lemma_losing_connection(t: u64, p: u64, dts: Seq<u64>)
    requires
        t > 0,
    ensures
        run_download(DownloadProgress::LosingConnection { time_before_disconnection: t, progress: p }, false, dts)
            == if total_time(dts) >= t {
            DownloadProgress::Disconnected
        } else {
            DownloadProgress::LosingConnection { time_before_disconnection: (t - total_time(dts)) as u64, progress: p }
        },
    decreases dts.len(),
{
    if dts.len() > 0 {
        lemma_losing_connection(t, p, dts.drop_last());
        lemma_total_time_nonneg(dts.drop_last());
    }
}

/// Losing the signal while downloading keeps the progress for
/// `GRACE_PERIOD`: the first tick without signal starts the grace period
/// with the progress kept; while less than `GRACE_PERIOD` has passed since,
/// the progress is still kept and regaining the signal resumes from it; once
/// `GRACE_PERIOD` has passed the client is disconnected, and regaining the
/// signal starts again from zero.
pub proof fn lemma_grace_period(p: u64, dt: u64, dts: Seq<u64>, back_dt: u64)
    requires
        p < DOWNLOAD_TIME,
    ensures
        download_transition(DownloadProgress::Downloading { progress: p }, false, dt)
            == (DownloadProgress::LosingConnection { time_before_disconnection: GRACE_PERIOD, progress: p }),
        ({
            let lost = run_download(
                DownloadProgress::LosingConnection { time_before_disconnection: GRACE_PERIOD, progress: p },
                false,
                dts,
            );
            &&& total_time(dts) < GRACE_PERIOD ==> lost == (DownloadProgress::LosingConnection {
                    time_before_disconnection: (GRACE_PERIOD - total_time(dts)) as u64,
                    progress: p,
                }) && download_transition(lost, true, back_dt) == (DownloadProgress::Downloading { progress: p })
            &&& total_time(dts) >= GRACE_PERIOD ==> lost == DownloadProgress::Disconnected
                && download_transition(lost, true, back_dt) == (DownloadProgress::Downloading { progress: 0 })
        }),
{
    lemma_losing_connection(GRACE_PERIOD, p, dts);
}

/// `Completed` is never left, whatever the signal and the tick.
pub proof fn lemma_completed_stays(connected: bool, dt: u64)
    ensures
        download_transition(DownloadProgress::Completed, connected, dt) == DownloadProgress::Completed,
{
}

/// Access point `i` is the one a client at `c` follows: none is nearer, and
/// none after it is as near.
pub open spec fn is_selected_access_point(c: Vec2, aps: Seq<AccessPoint>, i: int) -> bool {
    &&& 0 <= i < aps.len()
    &&& forall|j: int| 0 <= j < aps.len()
            ==> distance_sq_spec(c, aps[i].position) <= distance_sq_spec(c, #[trigger] aps[j].position)
    &&& forall|j: int| i < j < aps.len()
            ==> distance_sq_spec(c, aps[i].position) < distance_sq_spec(c, #[trigger] aps[j].position)
}

/// A nearer access point never has the weaker signal: whatever is connected
/// at a squared distance is connected at any smaller one.
pub proof fn lemma_nearer_is_stronger(ap: u64, d1: u128, d2: u128)
    requires
        d1 <= d2,
        (WifiClient { access_point: Some(ap), distance_sq: d2 }).connected_spec(),
    ensures
        (WifiClient { access_point: Some(ap), distance_sq: d1 }).connected_spec(),
{
}

/// `w` is what a client at `c` receives from the access points `aps`: the
/// selected one and the squared distance to it, or nothing when there is
/// no access point.
pub open spec fn receives(c: Vec2, aps: Seq<AccessPoint>, w: WifiClient) -> bool {
    if aps.len() == 0 {
        w == (WifiClient { access_point: None, distance_sq: 0 })
    } else {
        exists|i: int| is_selected_access_point(c, aps, i) && w == (WifiClient {
            access_point: Some(aps[i].entity),
            distance_sq: distance_sq_spec(c, aps[i].position) as u128,
        })
    }
}

/// Chooses the access point of the strongest signal for a client at `c`,
/// that is the nearest one (the last of equally near ones), together with
/// the squared distance to it; with no access point, the client has none.
pub fn update_access_points(c: Vec2, aps: &Vec<AccessPoint>) -> (r: WifiClient)
    ensures
        aps@.len() == 0 ==> r == (WifiClient { access_point: None, distance_sq: 0 }),
        aps@.len() > 0 ==> exists|i: int| is_selected_access_point(c, aps@, i) && r == (WifiClient {
            access_point: Some(aps@[i].entity),
            distance_sq: distance_sq_spec(c, aps@[i].position) as u128,
        }),
        receives(c, aps@, r),
{
    if aps.len() == 0 {
        return WifiClient { access_point: None, distance_sq: 0 };
    }
    let mut best: usize = 0;
    let mut best_d: u128 = distance_sq(c, aps[0].position);
    let mut i: usize = 1;
    while i < aps.len()
        invariant
            1 <= i <= aps@.len(),
            best < i,
            best_d == distance_sq_spec(c, aps@[best as int].position),
            forall|j: int| 0 <= j < i ==> best_d <= distance_sq_spec(c, #[trigger] aps@[j].position),
            forall|j: int| best < j < i ==> best_d < distance_sq_spec(c, #[trigger] aps@[j].position),
        decreases aps@.len() - i,
    {
        let d = distance_sq(c, aps[i].position);
        if d <= best_d {
            best = i;
            best_d = d;
        }
        i += 1;
    }
    assert(is_selected_access_point(c, aps@, best as int));
    WifiClient { access_point: Some(aps[best].entity), distance_sq: best_d }
}

/// Of two access points at different distances from a client, the farther
/// one is never selected: the selected one has the strongest signal.
pub proof fn lemma_nearer_access_point_wins(c: Vec2, aps: Seq<AccessPoint>, near: int, far: int, k: int)
    requires
        0 <= near < aps.len(),
        0 <= far < aps.len(),
        distance_sq_spec(c, aps[near].position) < distance_sq_spec(c, aps[far].position),
        is_selected_access_point(c, aps, k),
    ensures
        k != far,
        distance_sq_spec(c, aps[k].position) <= distance_sq_spec(c, aps[near].position),
{
    assert(distance_sq_spec(c, aps[k].position) <= distance_sq_spec(c, aps[near].position));
}

/// The downloads of all clients after one tick of `dt` microseconds, client
/// `i` connected as `connected[i]` says.
pub open spec fn tick_downloads(ps: Seq<DownloadProgress>, connected: Seq<bool>, dt: u64) -> Seq<DownloadProgress> {
    Seq::new(ps.len(), |i: int| download_transition(ps[i], connected[i], dt))
}

/// The downloads after a run of ticks, each given by the clients'
/// connectivity and the tick's length.
pub open spec fn run_downloads(ps: Seq<DownloadProgress>, ticks: Seq<(Seq<bool>, u64)>) -> Seq<DownloadProgress>
    decreases ticks.len(),
{
    if ticks.len() == 0 {
        ps
    } else {
        let last = ticks.last();
        tick_downloads(run_downloads(ps, ticks.drop_last()), last.0, last.1)
    }
}

/// Whether each client is connected.
pub open spec fn connectivity(clients: Seq<WifiClient>) -> Seq<bool> {
    Seq::new(clients.len(), |i: int| clients[i].connected_spec())
}

/// Chooses the access point of every client, client `i` standing at
/// `positions[i]`.
pub fn update_clients(positions: &Vec<Vec2>, aps: &Vec<AccessPoint>) -> (r: Vec<WifiClient>)
    ensures
        r@.len() == positions@.len(),
        forall|i: int| 0 <= i < r@.len() ==> receives(positions@[i], aps@, #[trigger] r@[i]),
{
    let mut r: Vec<WifiClient> = Vec::new();
    let mut i: usize = 0;
    while i < positions.len()
        invariant
            i <= positions@.len(),
            r@.len() == i,
            forall|j: int| 0 <= j < i ==> receives(positions@[j], aps@, #[trigger] r@[j]),
        decreases positions@.len() - i,
    {
        let c = update_access_points(positions[i], aps);
        r.push(c);
        i += 1;
    }
    r
}

/// Advances the download of every client by one tick of `dt`
/// microseconds; `progress[i]` belongs to `clients[i]`.
pub fn advance_downloads(progress: &mut Vec<DownloadProgress>, clients: &Vec<WifiClient>, dt: u64)
    requires
        old(progress)@.len() == clients@.len(),
    ensures
        final(progress)@.len() == old(progress)@.len(),
        final(progress)@ == tick_downloads(old(progress)@, connectivity(clients@), dt),
        forall|i: int| 0 <= i < old(progress)@.len() ==> #[trigger] final(progress)@[i]
            == download_transition(old(progress)@[i], clients@[i].connected_spec(), dt),
{
    let mut i: usize = 0;
    while i < progress.len()
        invariant
            i <= progress@.len(),
            progress@.len() == old(progress)@.len(),
            old(progress)@.len() == clients@.len(),
            forall|j: int| 0 <= j < i ==> #[trigger] progress@[j]
                == download_transition(old(progress)@[j], clients@[j].connected_spec(), dt),
            forall|j: int| i <= j < progress@.len() ==> #[trigger] progress@[j] == old(progress)@[j],
        decreases progress@.len() - i,
    {
        let next = update_download_progress(progress[i], &clients[i], dt);
        progress.set(i, next);
        i += 1;
    }
    assert(progress@ =~= tick_downloads(old(progress)@, connectivity(clients@), dt));
}

} // verus!
