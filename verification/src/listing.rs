//! Favourites, bookmarks, play history, jobs and the dashboard: the limits
//! of listings and the checks and summaries around them.
use vstd::prelude::*;
use vstd::string::StringExecFns;

use crate::deps::{parse_uuid, uuid_parsed};
use crate::text::{append_decimal, decimal, str_eq};

verus! {

/// A star change for a track.
#[derive(Debug)]
pub struct StarBody {
    pub starred: bool,
}

/// A rating for a track.
#[derive(Debug)]
pub struct RatingBody {
    pub rating: u8,
}

/// The rating stored for a request: at most 5.
pub fn clamp_rating(body: &RatingBody) -> (r: u8)
    ensures
        r == (if body.rating < 5 {
            body.rating
        } else {
            5u8
        }),
{
    if body.rating < 5 {
        body.rating
    } else {
        5
    }
}

/// Paging of the bookmark list.
#[derive(Debug)]
pub struct BookmarkQuery {
    pub limit: Option<i64>,
    pub offset: Option<i64>,
}

/// Paging of the play history.
#[derive(Debug)]
pub struct HistoryQuery {
    pub limit: Option<i64>,
    pub offset: Option<i64>,
}

/// The format of a history export.
#[derive(Debug)]
pub struct ExportQuery {
    pub format: Option<String>,
}

/// The page a listing returns: 50 items unless asked otherwise, never more
/// than 200, from the given offset or the start.
pub fn list_window(limit: Option<i64>, offset: Option<i64>) -> (r: (i64, i64))
    ensures
        r.0 == (match limit {
            Some(l) => if l < 200 {
                l
            } else {
                200i64
            },
            None => 50i64,
        }),
        r.1 == (match offset {
            Some(o) => o,
            None => 0i64,
        }),
{
    let l: i64 = match limit {
        Some(l) => if l < 200 {
            l
        } else {
            200
        },
        None => 50,
    };
    let o: i64 = match offset {
        Some(o) => o,
        None => 0,
    };
    (l, o)
}

/// A filter and page of the job list.
#[derive(Debug)]
pub struct ListJobsQuery {
    pub kind: Option<String>,
    pub state: Option<String>,
    pub limit: Option<i32>,
    pub offset: Option<i32>,
}

/// The page of jobs listed: 50 unless asked otherwise, never more than 200.
pub fn jobs_window(q: &ListJobsQuery) -> (r: (i32, i32))
    ensures
        r.0 == (match q.limit {
            Some(l) => if l < 200 {
                l
            } else {
                200i32
            },
            None => 50i32,
        }),
        r.1 == (match q.offset {
            Some(o) => o,
            None => 0i32,
        }),
{
    let l: i32 = match q.limit {
        Some(l) => if l < 200 {
            l
        } else {
            200
        },
        None => 50,
    };
    let o: i32 = match q.offset {
        Some(o) => o,
        None => 0,
    };
    (l, o)
}

/// A refused job request.
#[derive(Debug, Clone, Copy, PartialEq, Eq, Structural)]
pub enum JobError {
    /// `400 INVALID_JOB_KIND`.
    InvalidKind,
    /// `413 PAYLOAD_TOO_LARGE`.
    PayloadTooLarge,
    /// `409 NOT_CANCELLABLE`.
    NotCancellable,
}

impl JobError {
    /// The error's code and message.
    pub fn text(&self) -> (r: (&'static str, &'static str))
        ensures
            r.0@ == (match self {
                JobError::InvalidKind => "INVALID_JOB_KIND"@,
                JobError::PayloadTooLarge => "PAYLOAD_TOO_LARGE"@,
                JobError::NotCancellable => "NOT_CANCELLABLE"@,
            }),
            r.1@ == (match self {
                JobError::InvalidKind => "job kind must be scan, sync, backup, or cleanup"@,
                JobError::PayloadTooLarge => "job payload exceeds 4096 bytes"@,
                JobError::NotCancellable => "job is missing or already terminal"@,
            }),
    {
        match self {
            JobError::InvalidKind => ("INVALID_JOB_KIND", "job kind must be scan, sync, backup, or cleanup"),
            JobError::PayloadTooLarge => ("PAYLOAD_TOO_LARGE", "job payload exceeds 4096 bytes"),
            JobError::NotCancellable => ("NOT_CANCELLABLE", "job is missing or already terminal"),
        }
    }
}

/// The kinds of job that can be queued.
pub open spec fn job_kinds() -> Seq<Seq<char>> {
    seq!["scan"@, "sync"@, "backup"@, "cleanup"@]
}

/// Checks a job request: a known kind and, where there is a payload, at
/// most 4096 bytes of it as JSON.  Gives the priority (0 by default).
pub fn check_job(kind: &str, payload_len: Option<usize>, priority: Option<i32>) -> (r: Result<i32, JobError>)
    ensures
        !job_kinds().contains(kind@) ==> r == Err::<i32, JobError>(JobError::InvalidKind),
        job_kinds().contains(kind@) && (payload_len matches Some(n) && n > 4096) ==> r == Err::<
            i32,
            JobError,
        >(JobError::PayloadTooLarge),
        job_kinds().contains(kind@) && !(payload_len matches Some(n) && n > 4096) ==> r == Ok::<
            i32,
            JobError,
        >(
            match priority {
                Some(p) => p,
                None => 0i32,
            },
        ),
{
    let known = str_eq(kind, "scan") || str_eq(kind, "sync") || str_eq(kind, "backup") || str_eq(
        kind,
        "cleanup",
    );
    proof {
        if job_kinds().contains(kind@) {
            let k = choose|k: int| 0 <= k < job_kinds().len() && job_kinds()[k] == kind@;
            assert(k == 0 || k == 1 || k == 2 || k == 3);
        }
        if known {
            if kind@ == "scan"@ {
                assert(job_kinds()[0] == kind@);
            } else if kind@ == "sync"@ {
                assert(job_kinds()[1] == kind@);
            } else if kind@ == "backup"@ {
                assert(job_kinds()[2] == kind@);
            } else {
                assert(job_kinds()[3] == kind@);
            }
        }
    }
    if !known {
        return Err(JobError::InvalidKind);
    }
    if let Some(n) = payload_len {
        if n > 4096 {
            return Err(JobError::PayloadTooLarge);
        }
    }
    Ok(
        match priority {
            Some(p) => p,
            None => 0,
        },
    )
}

/// The kinds of job the worker runs.
#[derive(Debug, Clone, Copy, PartialEq, Eq, Structural)]
pub enum JobKind {
    Scan,
    Sync,
    Backup,
    Cleanup,
}

/// The name a job kind is stored under.
pub open spec fn job_kind_text(k: JobKind) -> Seq<char> {
    match k {
        JobKind::Scan => "scan"@,
        JobKind::Sync => "sync"@,
        JobKind::Backup => "backup"@,
        JobKind::Cleanup => "cleanup"@,
    }
}

/// The kind of job the worker runs for a stored kind; any other kind fails
/// the job with `unknown job kind: <kind>`.
pub fn job_kind(kind: &str) -> (r: Result<JobKind, String>)
    ensures
        r matches Ok(k) ==> job_kind_text(k) == kind@,
        r is Err <==> !job_kinds().contains(kind@),
        r matches Err(m) ==> m@ == "unknown job kind: "@ + kind@,
{
    proof {
        if job_kinds().contains(kind@) {
            let k = choose|k: int| 0 <= k < job_kinds().len() && job_kinds()[k] == kind@;
            assert(k == 0 || k == 1 || k == 2 || k == 3);
        }
        assert(job_kinds()[0] == "scan"@);
        assert(job_kinds()[1] == "sync"@);
        assert(job_kinds()[2] == "backup"@);
        assert(job_kinds()[3] == "cleanup"@);
    }
    if str_eq(kind, "scan") {
        Ok(JobKind::Scan)
    } else if str_eq(kind, "sync") {
        Ok(JobKind::Sync)
    } else if str_eq(kind, "backup") {
        Ok(JobKind::Backup)
    } else if str_eq(kind, "cleanup") {
        Ok(JobKind::Cleanup)
    } else {
        let mut m = String::from_str("unknown job kind: ");
        m.append(kind);
        Err(m)
    }
}

/// How a job worker starts: a job cancelled before it begins fails with
/// `cancelled`; otherwise its stored kind decides what runs.
pub fn job_start(cancelled: bool, kind: &str) -> (r: Result<JobKind, String>)
    ensures
        cancelled ==> (r matches Err(m) && m@ == "cancelled"@),
        !cancelled ==> (r matches Ok(k) ==> job_kind_text(k) == kind@),
        !cancelled ==> (r is Err <==> !job_kinds().contains(kind@)),
        !cancelled ==> (r matches Err(m) ==> m@ == "unknown job kind: "@ + kind@),
{
    if cancelled {
        return Err(String::from_str("cancelled"));
    }
    job_kind(kind)
}

/// What the supervisor records of a job once its worker returns.
#[derive(Debug, PartialEq, Eq)]
pub enum JobOutcome {
    /// The job was cancelled while it ran; nothing is recorded.
    Cancelled,
    /// The job completed with this message.
    Completed(String),
    /// The job failed with this error.
    Failed(String),
}

/// The outcome of a finished job: cancellation wins over what the worker
/// returned.
pub fn job_outcome(cancelled: bool, result: Result<String, String>) -> (o: JobOutcome)
    ensures
        cancelled ==> o is Cancelled,
        !cancelled ==> match result {
            Ok(m) => (o matches JobOutcome::Completed(x) && x@ == m@),
            Err(e) => (o matches JobOutcome::Failed(x) && x@ == e@),
        },
{
    if cancelled {
        JobOutcome::Cancelled
    } else {
        match result {
            Ok(m) => JobOutcome::Completed(m),
            Err(e) => JobOutcome::Failed(e),
        }
    }
}

/// How many jobs run at once: the configured number, but at least one.
pub fn job_slots(max_concurrent: u32) -> (n: usize)
    ensures
        n as int == (if max_concurrent == 0 { 1 } else { max_concurrent as int }),
{
    if max_concurrent == 0 {
        1
    } else {
        max_concurrent as usize
    }
}

/// Whether the job supervisor sits idle on a tick: when both the scan and
/// the sync module are disabled.
pub fn supervisor_idle(scan_disabled: bool, sync_disabled: bool) -> (r: bool)
    ensures
        r == (scan_disabled && sync_disabled),
{
    scan_disabled && sync_disabled
}

/// Whether the daily integrity run goes ahead: only while the scan module is
/// enabled and its work is not cancelled.
pub fn integrity_run_due(scan_disabled: bool, scan_cancelled: bool) -> (r: bool)
    ensures
        r == (!scan_disabled && !scan_cancelled),
{
    !scan_disabled && !scan_cancelled
}

/// What the library watcher does next.
#[derive(Debug, Clone, Copy, PartialEq, Eq, Structural)]
pub enum WatcherAction {
    /// The server shuts down: stop.
    Stop,
    /// Scanning is off: wait a second and look again.
    Wait,
    /// Scanning came back on: reconcile every library root with the disk,
    /// then watch.
    ReconcileThenWatch,
    /// Watch the library.
    Watch,
}

/// One step of the library watcher: from whether it was off before and what
/// it sees now (shutdown, the scan module disabled, scan work cancelled) to
/// its action and whether it counts as off afterwards.
pub fn watcher_step(was_disabled: bool, shutdown: bool, scan_disabled: bool, scan_cancelled: bool) -> (r:
    (WatcherAction, bool))
    ensures
        r == watcher_step_spec(was_disabled, shutdown, scan_disabled, scan_cancelled),
{
    if shutdown {
        (WatcherAction::Stop, was_disabled)
    } else if scan_disabled || scan_cancelled {
        (WatcherAction::Wait, true)
    } else if was_disabled {
        (WatcherAction::ReconcileThenWatch, false)
    } else {
        (WatcherAction::Watch, false)
    }
}

/// Once scanning is switched off (or its work cancelled) and on again, the
/// watcher reconciles the library before it watches; a watcher that kept
/// scanning on only watches, without reconciling again.
pub proof fn law_watcher_reconciles_after_pause(was_disabled: bool, scan_disabled: bool, scan_cancelled: bool)
    ensures
        (scan_disabled || scan_cancelled) ==> watcher_step_spec(
            watcher_step_spec(was_disabled, false, scan_disabled, scan_cancelled).1,
            false,
            false,
            false,
        ).0 == WatcherAction::ReconcileThenWatch,
        watcher_step_spec(
            watcher_step_spec(was_disabled, false, false, false).1,
            false,
            false,
            false,
        ).0 == WatcherAction::Watch,
{
}

/// The watcher step as a function of its inputs.
pub open spec fn watcher_step_spec(was_disabled: bool, shutdown: bool, scan_disabled: bool, scan_cancelled: bool) -> (
    WatcherAction,
    bool,
) {
    if shutdown {
        (WatcherAction::Stop, was_disabled)
    } else if scan_disabled || scan_cancelled {
        (WatcherAction::Wait, true)
    } else if was_disabled {
        (WatcherAction::ReconcileThenWatch, false)
    } else {
        (WatcherAction::Watch, false)
    }
}

/// The result text of a finished scan job.
pub fn scan_job_result(total: usize) -> (s: String)
    ensures
        s@ == "scanned "@ + decimal(total as nat) + " tracks"@,
{
    let mut s = String::from_str("scanned ");
    append_decimal(&mut s, total as u64);
    s.append(" tracks");
    s
}

/// The result text of a sync job, which pings the sync peers and answers
/// at once.
pub fn sync_job_result() -> (s: String)
    ensures
        s@ == "sync triggered"@,
{
    String::from_str("sync triggered")
}

/// The result text of a finished cleanup job.
pub fn cleanup_job_result() -> (s: String)
    ensures
        s@ == "cleanup complete"@,
{
    String::from_str("cleanup complete")
}

/// The result text of a finished backup job.
pub fn backup_job_result(tracks: usize, playlists: usize) -> (s: String)
    ensures
        s@ == "backup complete: "@ + decimal(tracks as nat) + " tracks, "@ + decimal(playlists as nat)
            + " playlists"@,
{
    let mut s = String::from_str("backup complete: ");
    append_decimal(&mut s, tracks as u64);
    s.append(" tracks, ");
    append_decimal(&mut s, playlists as u64);
    s.append(" playlists");
    s
}

/// A stored history line: the track id text, the play time, the title (or
/// `Unknown`), artist and album.
#[derive(Debug)]
pub struct HistoryRow {
    pub track_id: String,
    pub played_at: String,
    pub title: String,
    pub artist: Option<String>,
    pub album: Option<String>,
}

/// A history line as listed.
#[derive(Debug)]
pub struct HistoryEntry {
    pub track_id: u128,
    pub title: String,
    pub artist: Option<String>,
    pub album: Option<String>,
    pub played_at: String,
}

/// The lines of a history listing: the stored lines whose track id is a
/// UUID, in order.
pub open spec fn listed_history(rows: Seq<HistoryRow>) -> Seq<(u128, Seq<char>)>
    decreases rows.len(),
{
    if rows.len() == 0 {
        Seq::empty()
    } else {
        let rest = listed_history(rows.drop_last());
        match uuid_parsed(rows.last().track_id@) {
            Some(t) => rest.push((t, rows.last().played_at@)),
            None => rest,
        }
    }
}

/// The history lines to list, dropping those whose track id is no UUID.
pub fn history_entries(rows: Vec<HistoryRow>) -> (r: Vec<HistoryEntry>)
    ensures
        r@.map_values(|e: HistoryEntry| (e.track_id, e.played_at@)) == listed_history(rows@),
{
    let mut r: Vec<HistoryEntry> = Vec::new();
    let mut i: usize = 0;
    while i < rows.len()
        invariant
            i <= rows@.len(),
            r@.map_values(|e: HistoryEntry| (e.track_id, e.played_at@)) == listed_history(
                rows@.take(i as int),
            ),
        decreases rows.len() - i,
    {
        proof {
            assert(rows@.take(i as int + 1).drop_last() =~= rows@.take(i as int));
            assert(rows@.take(i as int + 1).last() == rows@[i as int]);
        }
        let row = &rows[i];
        match parse_uuid(row.track_id.as_str()) {
            Ok(t) => {
                let ghost before = r@.map_values(|e: HistoryEntry| (e.track_id, e.played_at@));
                r.push(
                    HistoryEntry {
                        track_id: t,
                        title: row.title.clone(),
                        artist: row.artist.clone(),
                        album: row.album.clone(),
                        played_at: row.played_at.clone(),
                    },
                );
                proof {
                    assert(r@.map_values(|e: HistoryEntry| (e.track_id, e.played_at@)) =~= before.push(
                        (t, row.played_at@),
                    ));
                }
            },
            Err(_) => {},
        }
        i = i + 1;
    }
    proof {
        assert(rows@.take(rows@.len() as int) =~= rows@);
    }
    r
}

/// A recent play on the dashboard: a history line.
pub type RecentPlay = HistoryEntry;

/// Library counts of the dashboard.
#[derive(Debug)]
pub struct LibraryStats {
    pub tracks: i64,
    pub albums: i64,
    pub artists: i64,
    pub genres: i64,
    pub total_duration_ms: i64,
}

/// Library health of the dashboard.
#[derive(Debug)]
pub struct HealthInfo {
    pub missing_files: i64,
    pub tracks_without_genre: i64,
    pub tracks_without_year: i64,
    pub tracks_without_cover: i64,
    pub is_healthy: bool,
}

/// The devices and services around the server, for the dashboard.
#[derive(Debug)]
pub struct EcosystemInfo {
    pub receivers_online: usize,
    pub sync_peers: usize,
    pub webhook_configured: bool,
    pub uploads_in_progress: usize,
}

/// The library's health: healthy when no file is missing and fewer than a
/// tenth of the tracks (at least one) lack a genre.
pub fn health_info(
    tracks: i64,
    missing_files: i64,
    without_genre: i64,
    without_year: i64,
    without_cover: i64,
) -> (h: HealthInfo)
    requires
        tracks >= 0,
    ensures
        h.missing_files == missing_files,
        h.tracks_without_genre == without_genre,
        h.tracks_without_year == without_year,
        h.tracks_without_cover == without_cover,
        h.is_healthy == (missing_files == 0 && without_genre < (if tracks / 10 > 1 {
            tracks / 10
        } else {
            1
        })),
{
    let tenth: i64 = tracks / 10;
    let bound: i64 = if tenth > 1 {
        tenth
    } else {
        1
    };
    HealthInfo {
        missing_files,
        tracks_without_genre: without_genre,
        tracks_without_year: without_year,
        tracks_without_cover: without_cover,
        is_healthy: missing_files == 0 && without_genre < bound,
    }
}

/// The dashboard's view of playback: `playing` or `paused`.
pub fn playback_state_name(playing: bool) -> (s: &'static str)
    ensures
        s@ == (if playing {
            "playing"@
        } else {
            "paused"@
        }),
{
    if playing {
        "playing"
    } else {
        "paused"
    }
}

/// How many receivers the dashboard counts as online: the paired ones.
pub fn receivers_online(paired: &Vec<bool>) -> (n: usize)
    ensures
        n == paired@.filter(|p: bool| p).len(),
{
    let mut n: usize = 0;
    let mut i: usize = 0;
    while i < paired.len()
        invariant
            i <= paired@.len(),
            n == paired@.take(i as int).filter(|p: bool| p).len(),
            n <= i,
        decreases paired.len() - i,
    {
        proof {
            assert(paired@.take(i as int + 1) =~= paired@.take(i as int).push(paired@[i as int]));
            paired@.take(i as int).lemma_filter_push(paired@[i as int], |p: bool| p);
        }
        if paired[i] {
            n = n + 1;
        }
        i = i + 1;
    }
    proof {
        assert(paired@.take(paired@.len() as int) =~= paired@);
    }
    n
}

} // verus!
