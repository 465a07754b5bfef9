//! Backup and restore: when a restore may run and what it reports, the
//! webhook settings and test, the library availability and integrity
//! reports, and the checksums of a backup bundle.
use vstd::prelude::*;
use vstd::string::StringExecFns;

use crate::deps::{blake3_hex, blake3_hex_string};
use crate::text::{append_decimal, chars_of, decimal, str_eq, string_of, trim, trim_chars};

verus! {

/// A play-history line of a backup; the timestamp repeats the play time.
#[derive(Debug)]
pub struct BackupHistoryEntry {
    pub track_id: String,
    pub played_at: String,
    pub timestamp: String,
}

/// The history line for a play of `track_id` at `played_at`.
pub fn history_entry(track_id: String, played_at: String) -> (e: BackupHistoryEntry)
    ensures
        e.track_id@ == track_id@,
        e.played_at@ == played_at@,
        e.timestamp@ == played_at@,
{
    let timestamp = played_at.clone();
    BackupHistoryEntry { track_id, played_at, timestamp }
}

/// A refused restore.
#[derive(Debug, Clone, Copy, PartialEq, Eq, Structural)]
pub enum RestoreError {
    /// `409 RESTORE_REQUIRES_FORCE`: the library is not empty.
    RequiresForce,
    /// `400 EMPTY_RESTORE`: a forced restore would only wipe the library.
    EmptyRestore,
}

impl RestoreError {
    /// The error code.
    pub fn code(&self) -> (s: &'static str)
        ensures
            s@ == (match self {
                RestoreError::RequiresForce => "RESTORE_REQUIRES_FORCE"@,
                RestoreError::EmptyRestore => "EMPTY_RESTORE"@,
            }),
    {
        match self {
            RestoreError::RequiresForce => "RESTORE_REQUIRES_FORCE",
            RestoreError::EmptyRestore => "EMPTY_RESTORE",
        }
    }

    /// The error's message.
    pub fn message(&self) -> (s: &'static str)
        ensures
            s@ == (match self {
                RestoreError::RequiresForce => "tracks already exist; set force=true to overwrite"@,
                RestoreError::EmptyRestore => "force=true but no tracks or starred_tracks provided to restore"@,
            }),
    {
        match self {
            RestoreError::RequiresForce => "tracks already exist; set force=true to overwrite",
            RestoreError::EmptyRestore => "force=true but no tracks or starred_tracks provided to restore",
        }
    }
}

/// Decides whether a restore may run, and whether it first clears the
/// library (it does when forced).  A library that holds tracks is only
/// overwritten when forced, and never by a backup without tracks or starred
/// tracks.
pub fn check_restore(existing_tracks: usize, force: bool, tracks: usize, starred: usize) -> (r: Result<
    bool,
    RestoreError,
>)
    ensures
        existing_tracks > 0 && !force ==> r == Err::<bool, RestoreError>(RestoreError::RequiresForce),
        existing_tracks > 0 && force && tracks == 0 && starred == 0 ==> r == Err::<bool, RestoreError>(
            RestoreError::EmptyRestore,
        ),
        !(existing_tracks > 0 && !force) && !(existing_tracks > 0 && force && tracks == 0 && starred
            == 0) ==> r == Ok::<bool, RestoreError>(force),
{
    if existing_tracks > 0 && !force {
        return Err(RestoreError::RequiresForce);
    }
    if force && existing_tracks > 0 && tracks == 0 && starred == 0 {
        return Err(RestoreError::EmptyRestore);
    }
    Ok(force)
}

/// How many history lines a restore added: those whose insert wrote a row.
pub open spec fn inserted_count(inserted: Seq<bool>) -> nat
    decreases inserted.len(),
{
    if inserted.len() == 0 {
        0
    } else {
        inserted_count(inserted.drop_last()) + if inserted.last() {
            1nat
        } else {
            0nat
        }
    }
}

/// What a restore reports: tracks, playlists, starred tracks and history
/// lines restored.
pub fn restore_summary(tracks: usize, playlists: usize, starred: usize, inserted: &Vec<bool>) -> (r: (
    u64,
    u64,
    u64,
    u64,
))
    ensures
        r == (tracks as u64, playlists as u64, starred as u64, inserted_count(inserted@) as u64),
{
    let mut history: u64 = 0;
    let mut i: usize = 0;
    while i < inserted.len()
        invariant
            i <= inserted@.len(),
            history == inserted_count(inserted@.take(i as int)),
            history <= i,
        decreases inserted.len() - i,
    {
        proof {
            assert(inserted@.take(i as int + 1).drop_last() =~= inserted@.take(i as int));
        }
        if inserted[i] {
            history = history + 1;
        }
        i = i + 1;
    }
    proof {
        assert(inserted@.take(inserted@.len() as int) =~= inserted@);
    }
    (tracks as u64, playlists as u64, starred as u64, history)
}

/// A request to set the webhook.
#[derive(Debug)]
pub struct SetWebhookBody {
    pub url: String,
}

/// A refused or failed webhook request.
#[derive(Debug)]
pub enum WebhookError {
    /// `400 VALIDATION_ERROR`: no URL was given.
    UrlRequired,
    /// `400 NO_WEBHOOK_CONFIGURED`.
    NotConfigured,
    /// `502 WEBHOOK_REMOTE_ERROR`: the target answered with this status.
    RemoteError { status: u16, elapsed_ms: u64 },
    /// `502 WEBHOOK_FAILED`: the connection failed with this message.
    Failed { message: String, elapsed_ms: u64 },
}

impl WebhookError {
    /// The error code.
    pub fn code(&self) -> (s: &'static str)
        ensures
            s@ == (match self {
                WebhookError::UrlRequired => "VALIDATION_ERROR"@,
                WebhookError::NotConfigured => "NO_WEBHOOK_CONFIGURED"@,
                WebhookError::RemoteError { .. } => "WEBHOOK_REMOTE_ERROR"@,
                WebhookError::Failed { .. } => "WEBHOOK_FAILED"@,
            }),
    {
        match self {
            WebhookError::UrlRequired => "VALIDATION_ERROR",
            WebhookError::NotConfigured => "NO_WEBHOOK_CONFIGURED",
            WebhookError::RemoteError { .. } => "WEBHOOK_REMOTE_ERROR",
            WebhookError::Failed { .. } => "WEBHOOK_FAILED",
        }
    }

    /// The error's message.
    pub fn message(&self) -> (s: String)
        ensures
            s@ == (match self {
                WebhookError::UrlRequired => "webhook URL is required"@,
                WebhookError::NotConfigured => "set a webhook URL first"@,
                WebhookError::RemoteError { status, .. } => "Webhook target responded with HTTP "@
                    + decimal(*status as nat),
                WebhookError::Failed { message, .. } => "Webhook connection failed: "@ + message@,
            }),
    {
        match self {
            WebhookError::UrlRequired => String::from_str("webhook URL is required"),
            WebhookError::NotConfigured => String::from_str("set a webhook URL first"),
            WebhookError::RemoteError { status, .. } => {
                let mut s = String::from_str("Webhook target responded with HTTP ");
                append_decimal(&mut s, *status as u64);
                s
            },
            WebhookError::Failed { message, .. } => {
                let mut s = String::from_str("Webhook connection failed: ");
                s.append(message.as_str());
                s
            },
        }
    }
}

/// The webhook URL to store: the given one, trimmed; an empty one is
/// refused.
pub fn webhook_url(body: &SetWebhookBody) -> (r: Result<String, WebhookError>)
    ensures
        trim(body.url@).len() == 0 ==> r matches Err(WebhookError::UrlRequired),
        trim(body.url@).len() > 0 ==> (r matches Ok(u) && u@ == trim(body.url@)),
{
    let t = trim_chars(chars_of(body.url.as_str()).as_slice());
    if t.len() == 0 {
        return Err(WebhookError::UrlRequired);
    }
    Ok(string_of(t.as_slice()))
}

/// Whether a stored webhook URL can be tested: it must not be blank.
pub fn check_webhook_configured(url: &str) -> (r: Result<(), WebhookError>)
    ensures
        trim(url@).len() == 0 ==> r matches Err(WebhookError::NotConfigured),
        trim(url@).len() > 0 ==> r is Ok,
{
    let t = trim_chars(chars_of(url).as_slice());
    if t.len() == 0 {
        return Err(WebhookError::NotConfigured);
    }
    Ok(())
}

/// The outcome of a webhook test: the target's status (or the connection
/// error) after `elapsed_ms`.  A status in the 200s is a success.
pub fn webhook_test_outcome(response: Result<u16, String>, elapsed_ms: u64) -> (r: Result<
    (u16, u64),
    WebhookError,
>)
    ensures
        match response {
            Ok(status) => if 200 <= status <= 299 {
                r == Ok::<(u16, u64), WebhookError>((status, elapsed_ms))
            } else {
                r matches Err(WebhookError::RemoteError { status: s, elapsed_ms: e }) && s == status
                    && e == elapsed_ms
            },
            Err(m) => r matches Err(WebhookError::Failed { message, elapsed_ms: e }) && message@
                == m@ && e == elapsed_ms,
        },
{
    match response {
        Ok(status) => if 200 <= status && status <= 299 {
            Ok((status, elapsed_ms))
        } else {
            Err(WebhookError::RemoteError { status, elapsed_ms })
        },
        Err(message) => Err(WebhookError::Failed { message, elapsed_ms }),
    }
}

/// A library track as the availability check sees it.
#[derive(Debug)]
pub struct TrackFile {
    pub title: Option<String>,
    pub file_path: String,
    pub exists: bool,
}

/// The line reported for a missing track.
pub open spec fn missing_line(t: TrackFile) -> Seq<char> {
    "missing: "@ + (match t.title {
        Some(x) => x@,
        None => "?"@,
    }) + " ("@ + t.file_path@ + ")"@
}

/// The missing tracks of a list, in order, as report lines.
pub open spec fn missing_lines(ts: Seq<TrackFile>) -> Seq<Seq<char>>
    decreases ts.len(),
{
    if ts.len() == 0 {
        Seq::empty()
    } else if ts.last().exists {
        missing_lines(ts.drop_last())
    } else {
        missing_lines(ts.drop_last()).push(missing_line(ts.last()))
    }
}

/// Which library files are there: the count of available ones and the
/// report lines of the missing ones.  The library is degraded when any is
/// missing.
pub fn availability(tracks: &Vec<TrackFile>) -> (r: (u64, Vec<String>))
    ensures
        r.1@.map_values(|s: String| s@) == missing_lines(tracks@),
        r.0 + r.1@.len() == tracks@.len(),
{
    let mut available: u64 = 0;
    let mut missing: Vec<String> = Vec::new();
    let mut i: usize = 0;
    while i < tracks.len()
        invariant
            i <= tracks@.len(),
            missing@.map_values(|s: String| s@) == missing_lines(tracks@.take(i as int)),
            available + missing@.len() == i,
        decreases tracks.len() - i,
    {
        let t = &tracks[i];
        proof {
            assert(tracks@.take(i as int + 1).drop_last() =~= tracks@.take(i as int));
            assert(tracks@.take(i as int + 1).last() == *t);
        }
        if t.exists {
            available = available + 1;
        } else {
            let mut line = String::from_str("missing: ");
            match &t.title {
                Some(x) => line.append(x.as_str()),
                None => line.append("?"),
            }
            line.append(" (");
            line.append(t.file_path.as_str());
            line.append(")");
            let ghost before = missing@.map_values(|s: String| s@);
            missing.push(line);
            proof {
                assert(missing@.map_values(|s: String| s@) =~= before.push(missing_line(*t)));
            }
        }
        i = i + 1;
    }
    proof {
        assert(tracks@.take(tracks@.len() as int) =~= tracks@);
    }
    (available, missing)
}

/// Whether the database passed its integrity checks: `quick_check` said
/// `ok` and no foreign key is violated.
pub fn integrity_ok(quick_check: &str, foreign_key_violations: usize) -> (r: bool)
    ensures
        r == (quick_check@ == "ok"@ && foreign_key_violations == 0),
{
    str_eq(quick_check, "ok") && foreign_key_violations == 0
}

/// Whether every mount is online.
pub fn all_mounts_online(states: &Vec<String>) -> (r: bool)
    ensures
        r == forall|i: int| 0 <= i < states@.len() ==> (#[trigger] states@[i])@ == "online"@,
{
    let mut i: usize = 0;
    while i < states.len()
        invariant
            i <= states@.len(),
            forall|j: int| 0 <= j < i ==> (#[trigger] states@[j])@ == "online"@,
        decreases states.len() - i,
    {
        if !str_eq(states[i].as_str(), "online") {
            return false;
        }
        i = i + 1;
    }
    true
}

/// The checksum file of a backup bundle: each file's name with the BLAKE3
/// hash of its contents.
pub fn bundle_checksums(files: &Vec<(String, Vec<u8>)>) -> (r: Vec<(String, String)>)
    ensures
        r@.len() == files@.len(),
        forall|i: int|
            0 <= i < r@.len() ==> (#[trigger] r@[i]).0@ == files@[i].0@ && r@[i].1@ == blake3_hex(
                files@[i].1@,
            ),
{
    let mut r: Vec<(String, String)> = Vec::new();
    let mut i: usize = 0;
    while i < files.len()
        invariant
            i <= files@.len(),
            r@.len() == i,
            forall|k: int|
                0 <= k < i ==> (#[trigger] r@[k]).0@ == files@[k].0@ && r@[k].1@ == blake3_hex(
                    files@[k].1@,
                ),
        decreases files.len() - i,
    {
        let name = files[i].0.clone();
        let hash = blake3_hex_string(files[i].1.as_slice());
        r.push((name, hash));
        i = i + 1;
    }
    r
}

} // verus!
