//! Projection of playback-engine events into the shared playback state and the
//! persisted playback session: provenance stamps (sequence, Lamport clock,
//! epoch, boot id), stale-peer detection, event deduplication, projection
//! health and write deduplication.
use vstd::prelude::*;
use vstd::string::StringExecFns;
use std::collections::HashSet;

use crate::deps::random_uuid;
use crate::playback::{repeat_mode_name, PlaybackRepeatMode};
use crate::text::{append_decimal, chars_of, decimal, parse_u64, spec_parse_u64, str_eq};

verus! {

/// Category of a projection failure.
#[derive(Debug, Clone, Copy, PartialEq, Eq, Structural)]
pub enum ProjectionFailureKind {
    EngineSnapshot,
    SessionLoad,
    SessionPersist,
    LagReconciliation,
    ShutdownFlush,
}

/// Result of reconciling from an engine snapshot.
#[derive(Debug, Clone, Copy, PartialEq, Eq, Structural)]
pub enum ReconcileOutcome {
    NoPersistentSessionNeeded,
    AlreadyConverged,
    Persisted,
}

/// A failure to load or persist the playback session.
#[derive(Debug)]
pub enum ProjectionError {
    SessionLoad(String),
    SessionPersist(String),
}

/// The human-readable text of a projection error.
pub open spec fn projection_error_text(e: ProjectionError) -> Seq<char> {
    match e {
        ProjectionError::SessionLoad(m) => "Database session load error: "@ + m@,
        ProjectionError::SessionPersist(m) => "Database session persist error: "@ + m@,
    }
}

impl ProjectionError {
    /// The error's message, as its `Display` form shows it.
    pub fn message(&self) -> (s: String)
        ensures
            s@ == projection_error_text(*self),
    {
        match self {
            ProjectionError::SessionLoad(m) => {
                let mut s = String::from_str("Database session load error: ");
                s.append(m.as_str());
                s
            },
            ProjectionError::SessionPersist(m) => {
                let mut s = String::from_str("Database session persist error: ");
                s.append(m.as_str());
                s
            },
        }
    }
}

/// Lifecycle of the playback engine.
#[derive(Debug, Clone, Copy, PartialEq, Eq, Structural)]
pub enum PlaybackLifecycle {
    Idle,
    Preparing,
    Playing,
    AudioFlowing,
    Paused,
    Stopped,
    Ended,
    Failed,
}

/// Audio is (about to be) audible in this lifecycle.
pub open spec fn lifecycle_flowing(l: PlaybackLifecycle) -> bool {
    l == PlaybackLifecycle::AudioFlowing || l == PlaybackLifecycle::Playing
}

/// Playback has come to an end in this lifecycle.
pub open spec fn lifecycle_finished(l: PlaybackLifecycle) -> bool {
    l == PlaybackLifecycle::Stopped || l == PlaybackLifecycle::Ended
}

/// Whether the lifecycle counts as playing.
pub fn is_flowing(l: PlaybackLifecycle) -> (r: bool)
    ensures
        r == lifecycle_flowing(l),
{
    matches!(l, PlaybackLifecycle::AudioFlowing | PlaybackLifecycle::Playing)
}

/// Whether the lifecycle resets the position.
pub fn is_finished(l: PlaybackLifecycle) -> (r: bool)
    ensures
        r == lifecycle_finished(l),
{
    matches!(l, PlaybackLifecycle::Stopped | PlaybackLifecycle::Ended)
}

/// Where a command that changed the engine came from.
#[derive(Debug, Clone)]
pub enum CommandOrigin {
    Local,
    Remote {
        origin_device_id: String,
        event_id: u128,
        sequence: Option<u64>,
        epoch: Option<u64>,
        boot_id: Option<u128>,
        lamport: Option<u64>,
    },
}

/// What the engine reports after an event.
#[derive(Debug, Clone)]
pub struct EngineSnapshot {
    pub lifecycle: PlaybackLifecycle,
    pub track_id: Option<u128>,
    pub position_ms: u64,
    pub volume: u8,
    pub shuffle: bool,
    pub repeat: PlaybackRepeatMode,
    pub updated_at_ms: i64,
    pub timeline_origin: CommandOrigin,
}

/// An event emitted by the playback engine.
#[derive(Debug, Clone)]
pub enum EngineEvent {
    LifecycleChanged { lifecycle: PlaybackLifecycle, track_id: Option<u128> },
    Paused { track_id: Option<u128>, position_ms: u64 },
    Stopped,
    Ended { track_id: Option<u128> },
    Failed { track_id: Option<u128> },
    Seeked { position_ms: u64 },
    PositionCheckpoint { position_ms: u64 },
    TrackChanged { track_id: Option<u128>, index: usize },
    VolumeChanged { volume: u8 },
    ShuffleChanged { shuffle: bool },
    RepeatChanged { repeat: PlaybackRepeatMode },
    QueueChanged { length: usize },
    OutputChanged { target_id: Option<String> },
}

/// An engine event with its origin.
#[derive(Debug, Clone)]
pub struct TrackedEngineEvent {
    pub origin: CommandOrigin,
    pub event: EngineEvent,
}

/// Provenance stamped on a projected state.
#[derive(Debug, Clone)]
pub struct Provenance {
    pub device_id: Option<String>,
    pub event_id: Option<u128>,
    pub sequence: Option<u64>,
    pub epoch: Option<u64>,
    pub boot_id: Option<u128>,
    pub lamport: Option<u64>,
    pub is_local: bool,
}

/// The shared (in-memory) playback state written by a projection.
#[derive(Debug, Clone)]
pub struct SharedPlaybackState {
    pub track_id: Option<u128>,
    pub position_ms: u64,
    pub playing: bool,
    pub volume_percent: u8,
    pub shuffle: bool,
    pub repeat: PlaybackRepeatMode,
    pub updated_at_ms: i64,
    pub provenance: Provenance,
}

/// The fields of the persisted playback session that projection derives.
/// The volume is held in percent.
#[derive(Debug, Clone)]
pub struct SessionProjection {
    pub current_track_id: Option<u128>,
    pub current_index: i32,
    pub position_ms: u64,
    pub playing: bool,
    pub volume_percent: u8,
    pub shuffle: bool,
    pub repeat_mode: String,
}

/// The mathematical value of a session projection.
pub ghost struct SessionProjectionView {
    pub current_track_id: Option<u128>,
    pub current_index: i32,
    pub position_ms: u64,
    pub playing: bool,
    pub volume_percent: u8,
    pub shuffle: bool,
    pub repeat_mode: Seq<char>,
}

impl View for SessionProjection {
    type V = SessionProjectionView;

    open spec fn view(&self) -> SessionProjectionView {
        SessionProjectionView {
            current_track_id: self.current_track_id,
            current_index: self.current_index,
            position_ms: self.position_ms,
            playing: self.playing,
            volume_percent: self.volume_percent,
            shuffle: self.shuffle,
            repeat_mode: self.repeat_mode@,
        }
    }
}

/// Whether two session projections are equal.
pub fn same_projection(a: &SessionProjection, b: &SessionProjection) -> (r: bool)
    ensures
        r == (a@ == b@),
{
    let r = a.current_track_id == b.current_track_id && a.current_index == b.current_index
        && a.position_ms == b.position_ms && a.playing == b.playing && a.volume_percent
        == b.volume_percent && a.shuffle == b.shuffle && a.repeat_mode == b.repeat_mode;
    proof {
        if r {
            assert(a@ =~= b@);
        }
    }
    r
}

/// Cursor of the newest known state of a remote peer.
#[derive(Debug, Clone, Copy, PartialEq, Eq, Structural)]
pub struct PeerCursor {
    pub epoch: u64,
    pub boot_id: Option<u128>,
    pub sequence: u64,
}

/// Observable health of the projection.  Instants are Unix milliseconds.
#[derive(Debug, Clone)]
pub struct PlaybackProjectionHealth {
    pub healthy: bool,
    pub consecutive_failures: u64,
    pub last_success_at: Option<i64>,
    pub last_error_at: Option<i64>,
    pub last_error: Option<String>,
    pub last_error_kind: Option<ProjectionFailureKind>,
    pub failures_total: u64,
    pub lag_events_total: u64,
    pub lag_recoveries_total: u64,
    pub lag_recovery_failures_total: u64,
}

/// The health of a projection that has not failed yet.
pub open spec fn initial_health(h: PlaybackProjectionHealth) -> bool {
    &&& h.healthy
    &&& h.consecutive_failures == 0
    &&& h.last_success_at is None
    &&& h.last_error_at is None
    &&& h.last_error is None
    &&& h.last_error_kind is None
    &&& h.failures_total == 0
    &&& h.lag_events_total == 0
    &&& h.lag_recoveries_total == 0
    &&& h.lag_recovery_failures_total == 0
}

impl Default for PlaybackProjectionHealth {
    fn default() -> (h: Self)
        ensures
            initial_health(h),
    {
        PlaybackProjectionHealth {
            healthy: true,
            consecutive_failures: 0,
            last_success_at: None,
            last_error_at: None,
            last_error: None,
            last_error_kind: None,
            failures_total: 0,
            lag_events_total: 0,
            lag_recoveries_total: 0,
            lag_recovery_failures_total: 0,
        }
    }
}

/// `x + 1`, stopping at `u64::MAX`.
pub open spec fn sat_inc(x: u64) -> u64 {
    if x == u64::MAX {
        x
    } else {
        (x + 1) as u64
    }
}

/// `x + y`, stopping at `u64::MAX`.
pub open spec fn sat_add(x: u64, y: u64) -> u64 {
    if x + y > u64::MAX {
        u64::MAX
    } else {
        (x + y) as u64
    }
}

/// The larger of two values.
pub open spec fn max_u64(x: u64, y: u64) -> u64 {
    if x >= y {
        x
    } else {
        y
    }
}

/// Largest remote Lamport value that is accepted.
pub open spec fn lamport_acceptance_limit() -> u64 {
    (u64::MAX - 100_000) as u64
}

/// Bound on remembered event ids before the set is cleared.
pub open spec fn processed_events_bound() -> nat {
    10000
}

/// The cursor recorded for `id`: its last entry wins.
pub open spec fn find_peer(peers: Seq<(Seq<char>, PeerCursor)>, id: Seq<char>) -> Option<PeerCursor>
    decreases peers.len(),
{
    if peers.len() == 0 {
        None
    } else if peers.last().0 == id {
        Some(peers.last().1)
    } else {
        find_peer(peers.drop_last(), id)
    }
}

/// Staleness of a peer state against the recorded cursor.
pub open spec fn stale_against(
    cursor: Option<PeerCursor>,
    epoch: Option<u64>,
    boot_id: Option<u128>,
    sequence: u64,
) -> bool {
    let ep: u64 = match epoch {
        Some(e) => e,
        None => 0,
    };
    match cursor {
        None => false,
        Some(c) => if ep < c.epoch {
            true
        } else if ep > c.epoch {
            false
        } else if boot_id is Some && c.boot_id is Some && boot_id != c.boot_id {
            false
        } else {
            sequence <= c.sequence
        },
    }
}

/// The session after applying `event` as seen in the snapshot `snap`.
pub open spec fn derive_session(
    event: EngineEvent,
    snap: EngineSnapshot,
    sess: SessionProjectionView,
) -> SessionProjectionView {
    let is_playing = lifecycle_flowing(snap.lifecycle);
    let track_or = |t: Option<u128>|
        match t {
            Some(x) => Some(x),
            None => snap.track_id,
        };
    match event {
        EngineEvent::LifecycleChanged { lifecycle, track_id } => {
            let flowing = lifecycle_flowing(lifecycle);
            SessionProjectionView {
                current_track_id: track_or(track_id),
                position_ms: if lifecycle_finished(lifecycle) {
                    0
                } else if flowing {
                    snap.position_ms
                } else {
                    sess.position_ms
                },
                playing: flowing,
                volume_percent: snap.volume,
                shuffle: snap.shuffle,
                repeat_mode: repeat_mode_name(snap.repeat),
                ..sess
            }
        },
        EngineEvent::Paused { track_id, position_ms } => SessionProjectionView {
            current_track_id: track_or(track_id),
            position_ms: position_ms,
            playing: false,
            volume_percent: snap.volume,
            shuffle: snap.shuffle,
            repeat_mode: repeat_mode_name(snap.repeat),
            ..sess
        },
        EngineEvent::Stopped => SessionProjectionView { position_ms: 0, playing: false, ..sess },
        EngineEvent::Ended { .. } => SessionProjectionView {
            position_ms: 0,
            playing: false,
            ..sess
        },
        EngineEvent::Failed { .. } => SessionProjectionView { playing: false, ..sess },
        EngineEvent::Seeked { position_ms } => SessionProjectionView { position_ms, ..sess },
        EngineEvent::PositionCheckpoint { position_ms } => if is_playing {
            SessionProjectionView { position_ms, playing: is_playing, ..sess }
        } else {
            sess
        },
        EngineEvent::TrackChanged { track_id, index } => SessionProjectionView {
            current_track_id: track_id,
            current_index: index as i32,
            position_ms: if is_playing {
                snap.position_ms
            } else {
                sess.position_ms
            },
            ..sess
        },
        EngineEvent::VolumeChanged { volume } => SessionProjectionView {
            volume_percent: volume,
            ..sess
        },
        EngineEvent::ShuffleChanged { shuffle } => SessionProjectionView { shuffle, ..sess },
        EngineEvent::RepeatChanged { repeat } => SessionProjectionView {
            repeat_mode: repeat_mode_name(repeat),
            ..sess
        },
        EngineEvent::QueueChanged { .. } => sess,
        EngineEvent::OutputChanged { .. } => sess,
    }
}

/// What an engine event does to the persisted session: a seek moves the
/// position to the sought one and changes nothing else; a pause records the
/// paused position and stops playing; stopping or ending rewinds to 0 and
/// stops playing; a failure stops playing where it was; a volume, shuffle or
/// repeat change records just that setting; a track change records the new
/// track and its queue index; queue and output changes leave the session
/// as it was.
pub proof fn law_events_shape_session(snap: EngineSnapshot, sess: SessionProjectionView, p: u64, v: u8, b: bool)
    ensures
        derive_session(EngineEvent::Seeked { position_ms: p }, snap, sess) == (SessionProjectionView {
            position_ms: p,
            ..sess
        }),
        derive_session(EngineEvent::Seeked { position_ms: p }, snap, sess).position_ms == p,
        ({
            let s = derive_session(EngineEvent::Paused { track_id: None, position_ms: p }, snap, sess);
            s.position_ms == p && !s.playing && s.current_track_id == snap.track_id
        }),
        ({
            let s = derive_session(EngineEvent::Stopped, snap, sess);
            s.position_ms == 0 && !s.playing && s.current_track_id == sess.current_track_id
        }),
        ({
            let s = derive_session(EngineEvent::Ended { track_id: None }, snap, sess);
            s.position_ms == 0 && !s.playing && s.current_track_id == sess.current_track_id
        }),
        ({
            let s = derive_session(EngineEvent::Failed { track_id: None }, snap, sess);
            s.position_ms == sess.position_ms && !s.playing && s.current_track_id == sess.current_track_id
        }),
        derive_session(EngineEvent::VolumeChanged { volume: v }, snap, sess) == (SessionProjectionView {
            volume_percent: v,
            ..sess
        }),
        derive_session(EngineEvent::ShuffleChanged { shuffle: b }, snap, sess) == (SessionProjectionView {
            shuffle: b,
            ..sess
        }),
        derive_session(EngineEvent::RepeatChanged { repeat: PlaybackRepeatMode::One }, snap, sess).repeat_mode
            == "one"@,
        derive_session(EngineEvent::QueueChanged { length: 3 }, snap, sess) == sess,
        derive_session(EngineEvent::OutputChanged { target_id: None }, snap, sess) == sess,
{
}

/// A lifecycle change records whether audio now flows, rewinds a finished
/// track to 0, and takes the snapshot's position while playing; a position
/// checkpoint is recorded only while the engine plays.
pub proof fn law_lifecycle_and_checkpoints(
    snap: EngineSnapshot,
    sess: SessionProjectionView,
    lifecycle: PlaybackLifecycle,
    p: u64,
)
    ensures
        ({
            let s = derive_session(EngineEvent::LifecycleChanged { lifecycle, track_id: None }, snap, sess);
            &&& s.playing == lifecycle_flowing(lifecycle)
            &&& lifecycle_finished(lifecycle) ==> s.position_ms == 0
            &&& !lifecycle_finished(lifecycle) && lifecycle_flowing(lifecycle) ==> s.position_ms == snap.position_ms
            &&& !lifecycle_finished(lifecycle) && !lifecycle_flowing(lifecycle) ==> s.position_ms == sess.position_ms
            &&& s.current_track_id == snap.track_id
        }),
        lifecycle_flowing(snap.lifecycle) ==> derive_session(
            EngineEvent::PositionCheckpoint { position_ms: p },
            snap,
            sess,
        ).position_ms == p,
        !lifecycle_flowing(snap.lifecycle) ==> derive_session(
            EngineEvent::PositionCheckpoint { position_ms: p },
            snap,
            sess,
        ) == sess,
{
}

/// Whatever track or index a track change names, the session records
/// exactly that track and index.
pub proof fn law_track_change_recorded(snap: EngineSnapshot, sess: SessionProjectionView, t: Option<u128>, index: usize)
    requires
        index <= i32::MAX,
    ensures
        derive_session(EngineEvent::TrackChanged { track_id: t, index }, snap, sess).current_track_id == t,
        derive_session(EngineEvent::TrackChanged { track_id: t, index }, snap, sess).current_index == index,
        derive_session(EngineEvent::TrackChanged { track_id: t, index }, snap, sess).playing == sess.playing,
{
}

/// The session that a snapshot reconciles to.
pub open spec fn snapshot_session(
    snap: EngineSnapshot,
    sess: SessionProjectionView,
) -> SessionProjectionView {
    SessionProjectionView {
        current_track_id: snap.track_id,
        position_ms: if lifecycle_finished(snap.lifecycle) {
            0
        } else {
            snap.position_ms
        },
        playing: lifecycle_flowing(snap.lifecycle),
        volume_percent: snap.volume,
        shuffle: snap.shuffle,
        repeat_mode: repeat_mode_name(snap.repeat),
        ..sess
    }
}

/// The session written when the server shuts down.
pub open spec fn shutdown_session(
    snap: EngineSnapshot,
    sess: SessionProjectionView,
) -> SessionProjectionView {
    SessionProjectionView {
        current_track_id: snap.track_id,
        position_ms: snap.position_ms,
        playing: false,
        volume_percent: snap.volume,
        shuffle: snap.shuffle,
        repeat_mode: repeat_mode_name(snap.repeat),
        ..sess
    }
}

/// The epoch a server takes on start, from the stored one.
pub open spec fn spec_epoch_after_restart(stored: Option<Seq<char>>, now_secs: u64) -> u64 {
    match stored {
        Some(v) => {
            let last: u64 = match spec_parse_u64(v) {
                Some(x) => x,
                None => 0,
            };
            max_u64(sat_inc(last), now_secs)
        },
        None => now_secs,
    }
}

/// Parses a stored counter, reading an unparsable value as 0.
fn stored_counter(v: &str) -> (r: u64)
    ensures
        r == match spec_parse_u64(v@) {
            Some(x) => x,
            None => 0u64,
        },
{
    let cs = chars_of(v);
    match parse_u64(cs.as_slice()) {
        Some(x) => x,
        None => 0,
    }
}

/// The epoch a server takes on start: one past the stored epoch, and never
/// behind the wall clock.
pub fn epoch_after_restart(stored: Option<&str>, now_secs: u64) -> (r: u64)
    ensures
        r == spec_epoch_after_restart(
            match stored {
                Some(s) => Some(s@),
                None => None,
            },
            now_secs,
        ),
{
    match stored {
        Some(v) => {
            let last = stored_counter(v);
            let next = last.saturating_add(1);
            if next >= now_secs {
                next
            } else {
                now_secs
            }
        },
        None => now_secs,
    }
}

/// The Lamport block reserved at start from the stored value: the stored
/// value plus 10000, or 10000 when none is stored.
pub fn lamport_after_restart(stored: Option<&str>) -> (r: u64)
    ensures
        r == match stored {
            Some(s) => sat_add(
                match spec_parse_u64(s@) {
                    Some(x) => x,
                    None => 0u64,
                },
                10_000,
            ),
            None => 10_000u64,
        },
{
    match stored {
        Some(v) => stored_counter(v).saturating_add(10_000),
        None => 10_000,
    }
}


/// A copy of a session projection.
pub fn copy_projection(p: &SessionProjection) -> (r: SessionProjection)
    ensures
        r@ == p@,
{
    SessionProjection {
        current_track_id: p.current_track_id,
        current_index: p.current_index,
        position_ms: p.position_ms,
        playing: p.playing,
        volume_percent: p.volume_percent,
        shuffle: p.shuffle,
        repeat_mode: p.repeat_mode.clone(),
    }
}

/// The provenance that an origin stamps, given the coordinator before the
/// stamp and, for a local origin, the fresh event id that was drawn.
pub open spec fn stamped(origin: CommandOrigin, c: CoordinatorView, p: Provenance) -> bool {
    match origin {
        CommandOrigin::Local => {
            &&& p.is_local
            &&& p.device_id matches Some(d) && d@ == c.server_id
            &&& p.event_id is Some
            &&& p.sequence == Some((c.sequence + 1) as u64)
            &&& p.epoch == Some(c.server_epoch)
            &&& p.boot_id == Some(c.boot_id)
            &&& p.lamport == Some(sat_inc(c.lamport))
        },
        CommandOrigin::Remote { origin_device_id, event_id, sequence, epoch, boot_id, lamport } => {
            &&& !p.is_local
            &&& p.device_id matches Some(d) && d@ == origin_device_id@
            &&& p.event_id == Some(event_id)
            &&& p.sequence == sequence
            &&& p.epoch == epoch
            &&& p.boot_id == boot_id
            &&& p.lamport == lamport
        },
    }
}

/// The coordinator after stamping a provenance for `origin`.
pub open spec fn after_stamp(origin: CommandOrigin, c: CoordinatorView) -> CoordinatorView {
    match origin {
        CommandOrigin::Local => CoordinatorView {
            sequence: (c.sequence + 1) as u64,
            lamport: sat_inc(c.lamport),
            ..c
        },
        CommandOrigin::Remote { .. } => c,
    }
}

/// Whether the coordinator can stamp a provenance for `origin`: a local stamp
/// takes the next sequence number, which must exist.
pub open spec fn can_stamp(origin: CommandOrigin, c: CoordinatorView) -> bool {
    origin is Local ==> c.sequence < u64::MAX
}

/// The shared state that a snapshot projects, apart from its provenance.
pub open spec fn projected_state(snap: EngineSnapshot, st: SharedPlaybackState) -> bool {
    &&& st.track_id == snap.track_id
    &&& st.position_ms == if lifecycle_finished(snap.lifecycle) {
        0
    } else {
        snap.position_ms
    }
    &&& st.playing == lifecycle_flowing(snap.lifecycle)
    &&& st.volume_percent == snap.volume
    &&& st.shuffle == snap.shuffle
    &&& st.repeat == snap.repeat
}


/// What reconciling from a snapshot produces before the session is read.
pub struct ReconcileStep {
    /// The new shared playback state.
    pub state: SharedPlaybackState,
    /// Whether the state goes out on the sync bus (only local timelines do).
    pub broadcast: bool,
    /// Whether the persisted session must be read and reconciled.
    pub needs_session: bool,
}

/// The stage of a shutdown flush that failed.
#[derive(Debug, Clone, Copy, PartialEq, Eq, Structural)]
pub enum ShutdownStage {
    EngineSnapshot,
    SessionLoad,
    SessionUpdate,
}

/// The message prefix recorded for a failed shutdown stage.
pub open spec fn shutdown_stage_prefix(stage: ShutdownStage) -> Seq<char> {
    match stage {
        ShutdownStage::EngineSnapshot => "flush_shutdown engine snapshot failed: "@,
        ShutdownStage::SessionLoad => "flush_shutdown get_or_create_latest_playback_session failed: "@,
        ShutdownStage::SessionUpdate => "flush_shutdown session update failed: "@,
    }
}

/// What handling an engine event produces.
pub struct EventOutcome {
    /// The new shared playback state.
    pub state: SharedPlaybackState,
    /// Whether the state goes out on the sync bus (only local events do).
    pub broadcast: bool,
    /// The session to write, when it differs from the last one written.
    pub write: Option<SessionProjection>,
}

/// Applies an engine event to a session projection.
pub fn apply_event(event: &EngineEvent, snap: &EngineSnapshot, sess: &mut SessionProjection)
    ensures
        final(sess)@ == derive_session(*event, *snap, old(sess)@),
{
    let is_playing = is_flowing(snap.lifecycle);
    match event {
        EngineEvent::LifecycleChanged { lifecycle, track_id } => {
            let flowing = is_flowing(*lifecycle);
            sess.current_track_id = match track_id {
                Some(t) => Some(*t),
                None => snap.track_id,
            };
            if is_finished(*lifecycle) {
                sess.position_ms = 0;
            } else if flowing {
                sess.position_ms = snap.position_ms;
            }
            sess.playing = flowing;
            sess.volume_percent = snap.volume;
            sess.shuffle = snap.shuffle;
            sess.repeat_mode = String::from_str(snap.repeat.as_str());
        },
        EngineEvent::Paused { track_id, position_ms } => {
            sess.current_track_id = match track_id {
                Some(t) => Some(*t),
                None => snap.track_id,
            };
            sess.position_ms = *position_ms;
            sess.playing = false;
            sess.volume_percent = snap.volume;
            sess.shuffle = snap.shuffle;
            sess.repeat_mode = String::from_str(snap.repeat.as_str());
        },
        EngineEvent::Stopped => {
            sess.position_ms = 0;
            sess.playing = false;
        },
        EngineEvent::Ended { .. } => {
            sess.position_ms = 0;
            sess.playing = false;
        },
        EngineEvent::Failed { .. } => {
            sess.playing = false;
        },
        EngineEvent::Seeked { position_ms } => {
            sess.position_ms = *position_ms;
        },
        EngineEvent::PositionCheckpoint { position_ms } => {
            if is_playing {
                sess.position_ms = *position_ms;
                sess.playing = is_playing;
            }
        },
        EngineEvent::TrackChanged { track_id, index } => {
            sess.current_track_id = *track_id;
            sess.current_index = *index as i32;
            if is_playing {
                sess.position_ms = snap.position_ms;
            }
        },
        EngineEvent::VolumeChanged { volume } => {
            sess.volume_percent = *volume;
        },
        EngineEvent::ShuffleChanged { shuffle } => {
            sess.shuffle = *shuffle;
        },
        EngineEvent::RepeatChanged { repeat } => {
            sess.repeat_mode = String::from_str(repeat.as_str());
        },
        EngineEvent::QueueChanged { .. } => {},
        EngineEvent::OutputChanged { .. } => {},
    }
}

/// Applies an engine snapshot to a session projection.
pub fn apply_snapshot(snap: &EngineSnapshot, sess: &mut SessionProjection)
    ensures
        final(sess)@ == snapshot_session(*snap, old(sess)@),
{
    sess.current_track_id = snap.track_id;
    sess.position_ms = if is_finished(snap.lifecycle) {
        0
    } else {
        snap.position_ms
    };
    sess.playing = is_flowing(snap.lifecycle);
    sess.volume_percent = snap.volume;
    sess.shuffle = snap.shuffle;
    sess.repeat_mode = String::from_str(snap.repeat.as_str());
}

/// Applies the final snapshot taken on shutdown to a session projection.
pub fn apply_shutdown(snap: &EngineSnapshot, sess: &mut SessionProjection)
    ensures
        final(sess)@ == shutdown_session(*snap, old(sess)@),
{
    sess.current_track_id = snap.track_id;
    sess.position_ms = snap.position_ms;
    sess.playing = false;
    sess.volume_percent = snap.volume;
    sess.shuffle = snap.shuffle;
    sess.repeat_mode = String::from_str(snap.repeat.as_str());
}

/// A reconciliation needs the persisted session unless the engine holds no
/// track and is not playing.
pub fn reconcile_needs_session(snap: &EngineSnapshot) -> (r: bool)
    ensures
        r == !(snap.track_id is None && !lifecycle_flowing(snap.lifecycle)),
{
    !(snap.track_id.is_none() && !is_flowing(snap.lifecycle))
}

/// `prefix` followed by `detail`.
fn message_with(prefix: &str, detail: &str) -> (s: String)
    ensures
        s@ == prefix@ + detail@,
{
    let mut s = String::from_str(prefix);
    s.append(detail);
    s
}

/// What the shutdown flush has learnt at its latest stage.
#[derive(Debug)]
pub enum ShutdownFlush {
    /// The engine's final snapshot, or why it could not be taken.
    Snapshot(Result<EngineSnapshot, String>),
    /// The latest stored session (loaded or created) for that snapshot, or
    /// why it could not be had.
    Loaded { snapshot: EngineSnapshot, session: Result<SessionProjection, String> },
    /// Whether writing the session back succeeded.
    Written(Result<(), String>),
}

/// What the shutdown flush does next.
#[derive(Debug)]
pub enum ShutdownAction {
    /// Load or create the latest stored playback session.
    LoadSession,
    /// Write this session back.
    WriteSession(SessionProjection),
    /// Store the Lamport clock under `key` as the decimal text `value`; the
    /// flush ends here.
    StoreLamport { key: &'static str, value: String },
}

/// Whether the flush stage ends the flush, by storing the Lamport clock:
/// every stage does but a successful snapshot or a successful load.
pub open spec fn flush_ends(ev: ShutdownFlush) -> bool {
    match ev {
        ShutdownFlush::Snapshot(Ok(_)) => false,
        ShutdownFlush::Loaded { session: Ok(_), .. } => false,
        _ => true,
    }
}

/// The flush ends by storing the Lamport clock on every path: a failed
/// snapshot, a failed load and every write outcome end it, and the two
/// other stages lead on to a load and a write.
pub proof fn law_shutdown_flush_stores_lamport(e: String, snap: EngineSnapshot, written: Result<(), String>)
    ensures
        flush_ends(ShutdownFlush::Snapshot(Err(e))),
        flush_ends(ShutdownFlush::Loaded { snapshot: snap, session: Err(e) }),
        flush_ends(ShutdownFlush::Written(written)),
{
}

/// What the projection coordinator holds, as mathematical values.
pub ghost struct CoordinatorView {
    pub server_id: Seq<char>,
    pub server_epoch: u64,
    pub boot_id: u128,
    pub sequence: u64,
    pub lamport: u64,
    pub peers: Seq<(Seq<char>, PeerCursor)>,
    pub processed: Set<u128>,
    pub health: PlaybackProjectionHealth,
    pub last_projection: Option<SessionProjectionView>,
}

/// Single-writer coordinator that projects engine events into the shared
/// playback state and the persisted playback session.
pub struct PlaybackProjectionCoordinator {
    server_id: String,
    server_epoch: u64,
    boot_id: u128,
    local_sequence: u64,
    local_lamport: u64,
    peer_vectors: Vec<(String, PeerCursor)>,
    processed_events: HashSet<u128>,
    health: PlaybackProjectionHealth,
    last_projection: Option<SessionProjection>,
}

impl View for PlaybackProjectionCoordinator {
    type V = CoordinatorView;

    closed spec fn view(&self) -> CoordinatorView {
        CoordinatorView {
            server_id: self.server_id@,
            server_epoch: self.server_epoch,
            boot_id: self.boot_id,
            sequence: self.local_sequence,
            lamport: self.local_lamport,
            peers: self.peer_vectors@.map_values(|p: (String, PeerCursor)| (p.0@, p.1)),
            processed: self.processed_events@,
            health: self.health,
            last_projection: match self.last_projection {
                Some(p) => Some(p@),
                None => None,
            },
        }
    }
}

impl PlaybackProjectionCoordinator {
    /// Well-formedness: remembered event ids occur once each, and no more
    /// than one past the clearing bound are remembered.
    pub closed spec fn wf(&self) -> bool {
        &&& self.processed_events@.finite()
        &&& self.processed_events@.len() <= processed_events_bound() + 1
    }

    /// The remembered event ids of a well-formed coordinator form a finite
    /// set of at most one more than the clearing bound.
    pub proof fn lemma_processed_bounded(&self)
        requires
            self.wf(),
        ensures
            self@.processed.finite(),
            self@.processed.len() <= processed_events_bound() + 1,
    {
    }

    /// A coordinator with the given epoch, boot id and initial Lamport value.
    pub fn new_with_epoch_boot_and_lamport(
        server_id: String,
        server_epoch: u64,
        boot_id: u128,
        initial_lamport: u64,
    ) -> (c: Self)
        ensures
            c.wf(),
            c@.server_id == server_id@,
            c@.server_epoch == server_epoch,
            c@.boot_id == boot_id,
            c@.sequence == 0,
            c@.lamport == initial_lamport,
            c@.peers.len() == 0,
            c@.processed.is_empty(),
            initial_health(c@.health),
            c@.last_projection is None,
    {
        let c = PlaybackProjectionCoordinator {
            server_id,
            server_epoch,
            boot_id,
            local_sequence: 0,
            local_lamport: initial_lamport,
            peer_vectors: Vec::new(),
            processed_events: HashSet::new(),
            health: PlaybackProjectionHealth::default(),
            last_projection: None,
        };
        proof {
        }
        c
    }

    /// A coordinator with the given epoch and boot id, its Lamport clock at 0.
    pub fn new_with_epoch_and_boot(server_id: String, server_epoch: u64, boot_id: u128) -> (c:
        Self)
        ensures
            c.wf(),
            c@.server_id == server_id@,
            c@.server_epoch == server_epoch,
            c@.boot_id == boot_id,
            c@.sequence == 0,
            c@.lamport == 0,
            c@.peers.len() == 0,
            c@.processed.is_empty(),
            initial_health(c@.health),
            c@.last_projection is None,
    {
        Self::new_with_epoch_boot_and_lamport(server_id, server_epoch, boot_id, 0)
    }

    /// A coordinator with the given epoch and a fresh random boot id.
    pub fn new_with_epoch(server_id: String, server_epoch: u64) -> (c: Self)
        ensures
            c.wf(),
            c@.server_id == server_id@,
            c@.server_epoch == server_epoch,
            c@.sequence == 0,
            c@.lamport == 0,
            c@.peers.len() == 0,
            c@.processed.is_empty(),
            initial_health(c@.health),
            c@.last_projection is None,
    {
        let boot_id = random_uuid();
        Self::new_with_epoch_and_boot(server_id, server_epoch, boot_id)
    }

    /// A coordinator whose epoch is the current time in seconds, with a fresh
    /// random boot id.
    pub fn new(server_id: String, now_secs: u64) -> (c: Self)
        ensures
            c.wf(),
            c@.server_id == server_id@,
            c@.server_epoch == now_secs,
            c@.sequence == 0,
            c@.lamport == 0,
            c@.peers.len() == 0,
            c@.processed.is_empty(),
            initial_health(c@.health),
            c@.last_projection is None,
    {
        Self::new_with_epoch(server_id, now_secs)
    }

    /// A coordinator started from the stored epoch and Lamport values.  Returns
    /// the coordinator and the epoch and Lamport values to store back.
    pub fn new_with_db_epoch(
        server_id: String,
        stored_epoch: Option<&str>,
        stored_lamport: Option<&str>,
        now_secs: u64,
    ) -> (r: (Self, u64, u64))
        ensures
            r.0.wf(),
            r.0@.server_id == server_id@,
            r.1 == spec_epoch_after_restart(
                match stored_epoch {
                    Some(s) => Some(s@),
                    None => None,
                },
                now_secs,
            ),
            r.0@.server_epoch == r.1,
            r.2 == match stored_lamport {
                Some(s) => sat_add(
                    match spec_parse_u64(s@) {
                        Some(x) => x,
                        None => 0u64,
                    },
                    10_000,
                ),
                None => 10_000u64,
            },
            r.0@.lamport == r.2,
            r.0@.sequence == 0,
            r.0@.peers.len() == 0,
            r.0@.processed.is_empty(),
            initial_health(r.0@.health),
            r.0@.last_projection is None,
    {
        let epoch = epoch_after_restart(stored_epoch, now_secs);
        let lamport = lamport_after_restart(stored_lamport);
        let boot_id = random_uuid();
        let c = Self::new_with_epoch_boot_and_lamport(server_id, epoch, boot_id, lamport);
        (c, epoch, lamport)
    }

    /// Advances the epoch and reserves a Lamport block from what the store
    /// holds.  `stored_epoch` is `Err` when the store could not be read; the
    /// epoch is then left alone.  Returns the epoch to store (if any) and the
    /// Lamport value to store.
    pub fn initialize_db_state(
        &mut self,
        stored_epoch: Result<Option<&str>, ()>,
        stored_lamport: Option<&str>,
        now_secs: u64,
    ) -> (r: (Option<u64>, u64))
        requires
            old(self).wf(),
        ensures
            final(self).wf(),
            match stored_epoch {
                Ok(opt) => {
                    &&& r.0 == Some(
                        spec_epoch_after_restart(
                            match opt {
                                Some(s) => Some(s@),
                                None => None,
                            },
                            now_secs,
                        ),
                    )
                    &&& final(self)@.server_epoch == r.0.unwrap()
                },
                Err(_) => r.0 is None && final(self)@.server_epoch == old(self)@.server_epoch,
            },
            r.1 == match stored_lamport {
                Some(s) => sat_add(
                    max_u64(
                        match spec_parse_u64(s@) {
                            Some(x) => x,
                            None => 0u64,
                        },
                        old(self)@.lamport,
                    ),
                    10_000,
                ),
                None => sat_add(old(self)@.lamport, 10_000),
            },
            final(self)@.lamport == r.1,
            final(self)@ == (CoordinatorView {
                server_epoch: final(self)@.server_epoch,
                lamport: final(self)@.lamport,
                ..old(self)@
            }),
    {
        let epoch = match stored_epoch {
            Ok(opt) => {
                let e = epoch_after_restart(opt, now_secs);
                self.server_epoch = e;
                Some(e)
            },
            Err(_) => None,
        };
        let current = self.local_lamport;
        let next = match stored_lamport {
            Some(v) => {
                let last = stored_counter(v);
                let base = if last >= current {
                    last
                } else {
                    current
                };
                base.saturating_add(10_000)
            },
            None => current.saturating_add(10_000),
        };
        self.local_lamport = next;
        (epoch, next)
    }

    pub fn server_epoch(&self) -> (e: u64)
        ensures
            e == self@.server_epoch,
    {
        self.server_epoch
    }

    pub fn boot_id(&self) -> (b: u128)
        ensures
            b == self@.boot_id,
    {
        self.boot_id
    }

    pub fn health(&self) -> (h: &PlaybackProjectionHealth)
        ensures
            *h == self@.health,
    {
        &self.health
    }

    /// Takes the next local sequence number.
    pub fn next_local_sequence(&mut self) -> (s: u64)
        requires
            old(self).wf(),
            old(self)@.sequence < u64::MAX,
        ensures
            final(self).wf(),
            s == old(self)@.sequence + 1,
            final(self)@ == (CoordinatorView { sequence: s, ..old(self)@ }),
    {
        self.local_sequence = self.local_sequence + 1;
        self.local_sequence
    }

    /// Ticks the Lamport clock for a local event.
    pub fn next_lamport(&mut self) -> (t: u64)
        requires
            old(self).wf(),
        ensures
            final(self).wf(),
            t == sat_inc(old(self)@.lamport),
            final(self)@ == (CoordinatorView { lamport: t, ..old(self)@ }),
    {
        self.local_lamport = self.local_lamport.saturating_add(1);
        self.local_lamport
    }

    /// Merges a remote Lamport value into the clock.  Values at or above
    /// `u64::MAX - 100_000` are rejected and leave the clock alone.
    pub fn observe_lamport(&mut self, remote: u64) -> (t: u64)
        requires
            old(self).wf(),
        ensures
            final(self).wf(),
            remote >= lamport_acceptance_limit() ==> t == old(self)@.lamport && final(self)@
                == old(self)@,
            remote < lamport_acceptance_limit() ==> t == sat_inc(
                max_u64(old(self)@.lamport, remote),
            ) && final(self)@ == (CoordinatorView { lamport: t, ..old(self)@ }),
    {
        if remote >= u64::MAX - 100_000 {
            return self.local_lamport;
        }
        let base = if self.local_lamport >= remote {
            self.local_lamport
        } else {
            remote
        };
        self.local_lamport = base.saturating_add(1);
        self.local_lamport
    }

    pub fn current_lamport(&self) -> (t: u64)
        ensures
            t == self@.lamport,
    {
        self.local_lamport
    }

    /// Index of the last cursor recorded for `peer_id`.
    fn peer_index(&self, peer_id: &str) -> (r: Option<usize>)
        ensures
            match r {
                Some(k) => {
                    &&& k < self.peer_vectors@.len()
                    &&& self.peer_vectors@[k as int].0@ == peer_id@
                    &&& forall|j: int|
                        k < j < self.peer_vectors@.len() ==> #[trigger] self.peer_vectors@[j].0@
                            != peer_id@
                },
                None => forall|j: int|
                    0 <= j < self.peer_vectors@.len() ==> #[trigger] self.peer_vectors@[j].0@
                        != peer_id@,
            },
    {
        let mut i: usize = self.peer_vectors.len();
        while i > 0
            invariant
                i <= self.peer_vectors@.len(),
                forall|j: int|
                    i <= j < self.peer_vectors@.len() ==> #[trigger] self.peer_vectors@[j].0@
                        != peer_id@,
            decreases i,
        {
            let k = i - 1;
            if str_eq(self.peer_vectors[k].0.as_str(), peer_id) {
                return Some(k);
            }
            i = k;
        }
        None
    }

    /// Whether a state of `peer_id` with this epoch, boot id and sequence is
    /// older than (or the same as) one already recorded.
    pub fn is_stale_peer_state(
        &self,
        peer_id: &str,
        epoch: Option<u64>,
        boot_id: Option<u128>,
        sequence: u64,
    ) -> (r: bool)
        ensures
            r == stale_against(find_peer(self@.peers, peer_id@), epoch, boot_id, sequence),
    {
        let ep: u64 = match epoch {
            Some(e) => e,
            None => 0,
        };
        let idx = self.peer_index(peer_id);
        proof {
            lemma_find_peer_index(self@.peers, peer_id@, idx);
        }
        match idx {
            None => false,
            Some(k) => {
                let cursor = self.peer_vectors[k].1;
                if ep < cursor.epoch {
                    return true;
                }
                if ep > cursor.epoch {
                    return false;
                }
                if boot_id.is_some() && cursor.boot_id.is_some() && boot_id != cursor.boot_id {
                    return false;
                }
                sequence <= cursor.sequence
            },
        }
    }

    /// Records the newest state of `peer_id`.
    pub fn record_peer_state(
        &mut self,
        peer_id: &str,
        epoch: Option<u64>,
        boot_id: Option<u128>,
        sequence: u64,
    )
        requires
            old(self).wf(),
        ensures
            final(self).wf(),
            forall|other: Seq<char>|
                #![trigger find_peer(final(self)@.peers, other)]
                find_peer(final(self)@.peers, other) == if other == peer_id@ {
                    Some(
                        PeerCursor {
                            epoch: match epoch {
                                Some(e) => e,
                                None => 0u64,
                            },
                            boot_id,
                            sequence,
                        },
                    )
                } else {
                    find_peer(old(self)@.peers, other)
                },
            final(self)@ == (CoordinatorView { peers: final(self)@.peers, ..old(self)@ }),
    {
        let ep: u64 = match epoch {
            Some(e) => e,
            None => 0,
        };
        let cursor = PeerCursor { epoch: ep, boot_id, sequence };
        let idx = self.peer_index(peer_id);
        let ghost old_peers = self@.peers;
        match idx {
            Some(k) => {
                let key = self.peer_vectors[k].0.clone();
                self.peer_vectors.set(k, (key, cursor));
                proof {
                    assert forall|other: Seq<char>|
                        #![trigger find_peer(self@.peers, other)]
                        find_peer(self@.peers, other) == if other == peer_id@ {
                            Some(cursor)
                        } else {
                            find_peer(old_peers, other)
                        } by {
                        lemma_find_peer_update(old_peers, k as int, peer_id@, cursor, other);
                        assert(self@.peers =~= old_peers.update(k as int, (peer_id@, cursor)));
                    }
                }
            },
            None => {
                let key = peer_id.to_owned();
                self.peer_vectors.push((key, cursor));
                proof {
                    assert(self@.peers =~= old_peers.push((peer_id@, cursor)));
                    assert forall|other: Seq<char>|
                        #![trigger find_peer(self@.peers, other)]
                        find_peer(self@.peers, other) == if other == peer_id@ {
                            Some(cursor)
                        } else {
                            find_peer(old_peers, other)
                        } by {
                        assert(self@.peers.drop_last() =~= old_peers);
                    }
                }
            },
        }
    }


    /// Stamps the provenance of a state coming from `origin`.
    fn stamp(&mut self, origin: &CommandOrigin) -> (p: Provenance)
        requires
            old(self).wf(),
            can_stamp(*origin, old(self)@),
        ensures
            final(self).wf(),
            stamped(*origin, old(self)@, p),
            final(self)@ == after_stamp(*origin, old(self)@),
    {
        match origin {
            CommandOrigin::Remote { origin_device_id, event_id, sequence, epoch, boot_id, lamport } => {
                Provenance {
                    device_id: Some(origin_device_id.clone()),
                    event_id: Some(*event_id),
                    sequence: *sequence,
                    epoch: *epoch,
                    boot_id: *boot_id,
                    lamport: *lamport,
                    is_local: false,
                }
            },
            CommandOrigin::Local => {
                let seq = self.next_local_sequence();
                let eid = random_uuid();
                let lamp = self.next_lamport();
                Provenance {
                    device_id: Some(self.server_id.clone()),
                    event_id: Some(eid),
                    sequence: Some(seq),
                    epoch: Some(self.server_epoch),
                    boot_id: Some(self.boot_id),
                    lamport: Some(lamp),
                    is_local: true,
                }
            },
        }
    }

    /// Projects a snapshot into the shared playback state, stamped for
    /// `origin` at `updated_at_ms`.
    fn project_state(&mut self, snap: &EngineSnapshot, origin: &CommandOrigin, updated_at_ms: i64) -> (st:
        SharedPlaybackState)
        requires
            old(self).wf(),
            can_stamp(*origin, old(self)@),
        ensures
            final(self).wf(),
            projected_state(*snap, st),
            st.updated_at_ms == updated_at_ms,
            stamped(*origin, old(self)@, st.provenance),
            final(self)@ == after_stamp(*origin, old(self)@),
    {
        let provenance = self.stamp(origin);
        SharedPlaybackState {
            track_id: snap.track_id,
            position_ms: if is_finished(snap.lifecycle) {
                0
            } else {
                snap.position_ms
            },
            playing: is_flowing(snap.lifecycle),
            volume_percent: snap.volume,
            shuffle: snap.shuffle,
            repeat: snap.repeat,
            updated_at_ms,
            provenance,
        }
    }

    /// Whether `sess` differs from the last session written.
    pub fn should_persist(&self, sess: &SessionProjection) -> (r: bool)
        ensures
            r == (self@.last_projection != Some(sess@)),
    {
        match &self.last_projection {
            Some(last) => !same_projection(last, sess),
            None => true,
        }
    }

    /// Notes that `sess` was written at `now_ms`.
    pub fn persist_succeeded(&mut self, sess: &SessionProjection, now_ms: i64)
        requires
            old(self).wf(),
        ensures
            final(self).wf(),
            final(self)@.last_projection == Some(sess@),
            final(self)@.health == (PlaybackProjectionHealth {
                healthy: true,
                consecutive_failures: 0,
                last_success_at: Some(now_ms),
                last_error: None,
                last_error_kind: None,
                ..old(self)@.health
            }),
            final(self)@ == (CoordinatorView {
                health: final(self)@.health,
                last_projection: final(self)@.last_projection,
                ..old(self)@
            }),
    {
        self.last_projection = Some(copy_projection(sess));
        self.record_success(now_ms);
    }

    /// Notes that writing the session failed with `detail`; returns the error.
    pub fn persist_failed(&mut self, detail: &str, now_ms: i64) -> (e: ProjectionError)
        requires
            old(self).wf(),
        ensures
            final(self).wf(),
            e matches ProjectionError::SessionPersist(m) && m@ == detail@,
            !final(self)@.health.healthy,
            final(self)@.health.last_error_kind == Some(ProjectionFailureKind::SessionPersist),
            final(self)@.health.last_error matches Some(m) && m@
                == "update_playback_session failed: "@ + detail@,
            final(self)@.health.consecutive_failures == sat_inc(
                old(self)@.health.consecutive_failures,
            ),
            final(self)@.health.failures_total == sat_inc(old(self)@.health.failures_total),
            final(self)@.last_projection == old(self)@.last_projection,
            final(self)@ == (CoordinatorView { health: final(self)@.health, ..old(self)@ }),
    {
        let msg = message_with("update_playback_session failed: ", detail);
        self.record_failure(ProjectionFailureKind::SessionPersist, msg.as_str(), now_ms);
        ProjectionError::SessionPersist(detail.to_owned())
    }

    /// Handles one engine event seen with a fresh snapshot: projects the
    /// shared state (broadcast only when the event is local), derives the
    /// session from the loaded one, and says whether it must be written.  A
    /// failed session load is recorded and leaves nothing to write.
    pub fn handle_event(
        &mut self,
        event: &TrackedEngineEvent,
        snap: &EngineSnapshot,
        now_ms: i64,
        loaded: Result<SessionProjection, String>,
    ) -> (out: EventOutcome)
        requires
            old(self).wf(),
            can_stamp(event.origin, old(self)@),
        ensures
            final(self).wf(),
            projected_state(*snap, out.state),
            out.state.updated_at_ms == now_ms,
            stamped(event.origin, old(self)@, out.state.provenance),
            out.broadcast == event.origin is Local,
            final(self)@.sequence == after_stamp(event.origin, old(self)@).sequence,
            final(self)@.lamport == after_stamp(event.origin, old(self)@).lamport,
            final(self)@.peers == old(self)@.peers,
            final(self)@.processed == old(self)@.processed,
            final(self)@.last_projection == old(self)@.last_projection,
            match loaded {
                Ok(sess) => {
                    &&& final(self)@.health == old(self)@.health
                    &&& match out.write {
                        Some(w) => w@ == derive_session(event.event, *snap, sess@)
                            && old(self)@.last_projection != Some(w@),
                        None => old(self)@.last_projection == Some(
                            derive_session(event.event, *snap, sess@),
                        ),
                    }
                },
                Err(detail) => {
                    &&& out.write is None
                    &&& !final(self)@.health.healthy
                    &&& final(self)@.health.last_error_kind == Some(
                        ProjectionFailureKind::SessionLoad,
                    )
                    &&& final(self)@.health.last_error matches Some(m) && m@
                        == "get_or_create_latest_playback_session failed: "@ + detail@
                },
            },
    {
        let state = self.project_state(snap, &event.origin, now_ms);
        let broadcast = state.provenance.is_local;
        match loaded {
            Err(detail) => {
                let msg = message_with(
                    "get_or_create_latest_playback_session failed: ",
                    detail.as_str(),
                );
                self.record_failure(ProjectionFailureKind::SessionLoad, msg.as_str(), now_ms);
                EventOutcome { state, broadcast, write: None }
            },
            Ok(sess) => {
                let mut sess = sess;
                apply_event(&event.event, snap, &mut sess);
                let write = if self.should_persist(&sess) {
                    Some(sess)
                } else {
                    None
                };
                EventOutcome { state, broadcast, write }
            },
        }
    }


    /// Reconciles the shared state from an engine snapshot (after lag or on
    /// start), stamped for the snapshot's timeline origin.
    pub fn reconcile_from_snapshot(&mut self, snap: &EngineSnapshot) -> (r: ReconcileStep)
        requires
            old(self).wf(),
            can_stamp(snap.timeline_origin, old(self)@),
        ensures
            final(self).wf(),
            projected_state(*snap, r.state),
            r.state.updated_at_ms == snap.updated_at_ms,
            stamped(snap.timeline_origin, old(self)@, r.state.provenance),
            r.broadcast == snap.timeline_origin is Local,
            r.needs_session == !(snap.track_id is None && !lifecycle_flowing(snap.lifecycle)),
            final(self)@ == after_stamp(snap.timeline_origin, old(self)@),
    {
        let state = self.project_state(snap, &snap.timeline_origin, snap.updated_at_ms);
        let broadcast = state.provenance.is_local;
        let needs_session = reconcile_needs_session(snap);
        ReconcileStep { state, broadcast, needs_session }
    }

    /// Reconciles the loaded session with a snapshot.  `Ok(Some(s))`: `s` must
    /// be written (then `persist_succeeded` gives `Persisted`); `Ok(None)`: the
    /// session already converged; `Err`: the load failed and was recorded.
    pub fn reconcile_with_session(
        &mut self,
        snap: &EngineSnapshot,
        loaded: Result<SessionProjection, String>,
        now_ms: i64,
    ) -> (r: Result<Option<SessionProjection>, ProjectionError>)
        requires
            old(self).wf(),
        ensures
            final(self).wf(),
            match loaded {
                Ok(sess) => {
                    &&& final(self)@ == old(self)@
                    &&& match r {
                        Ok(Some(w)) => w@ == snapshot_session(*snap, sess@)
                            && old(self)@.last_projection != Some(w@),
                        Ok(None) => old(self)@.last_projection == Some(
                            snapshot_session(*snap, sess@),
                        ),
                        Err(_) => false,
                    }
                },
                Err(detail) => {
                    &&& r matches Err(ProjectionError::SessionLoad(m)) && m@ == detail@
                    &&& !final(self)@.health.healthy
                    &&& final(self)@.health.last_error_kind == Some(
                        ProjectionFailureKind::SessionLoad,
                    )
                    &&& final(self)@.health.last_error matches Some(m) && m@
                        == "reconciliation get_or_create_latest_playback_session failed: "@
                        + detail@
                    &&& final(self)@ == (CoordinatorView {
                        health: final(self)@.health,
                        ..old(self)@
                    })
                },
            },
    {
        match loaded {
            Err(detail) => {
                let msg = message_with(
                    "reconciliation get_or_create_latest_playback_session failed: ",
                    detail.as_str(),
                );
                self.record_failure(ProjectionFailureKind::SessionLoad, msg.as_str(), now_ms);
                Err(ProjectionError::SessionLoad(detail))
            },
            Ok(sess) => {
                let mut sess = sess;
                apply_snapshot(snap, &mut sess);
                if self.should_persist(&sess) {
                    Ok(Some(sess))
                } else {
                    Ok(None)
                }
            },
        }
    }

    /// Records the failure of a shutdown flush stage.
    pub fn record_shutdown_failure(&mut self, stage: ShutdownStage, detail: &str, now_ms: i64)
        requires
            old(self).wf(),
        ensures
            final(self).wf(),
            !final(self)@.health.healthy,
            final(self)@.health.last_error_kind == Some(ProjectionFailureKind::ShutdownFlush),
            final(self)@.health.last_error matches Some(m) && m@ == shutdown_stage_prefix(stage)
                + detail@,
            final(self)@.health.failures_total == sat_inc(old(self)@.health.failures_total),
            final(self)@ == (CoordinatorView { health: final(self)@.health, ..old(self)@ }),
    {
        let prefix = match stage {
            ShutdownStage::EngineSnapshot => "flush_shutdown engine snapshot failed: ",
            ShutdownStage::SessionLoad => "flush_shutdown get_or_create_latest_playback_session failed: ",
            ShutdownStage::SessionUpdate => "flush_shutdown session update failed: ",
        };
        let msg = message_with(prefix, detail);
        self.record_failure(ProjectionFailureKind::ShutdownFlush, msg.as_str(), now_ms);
    }

    /// One step of the shutdown flush (the caller takes the snapshot, loads
    /// and writes the session, and stores what this step names).  Each
    /// failure is recorded as a shutdown-flush failure; a written session
    /// counts as a success; the session written holds the snapshot's track,
    /// position, volume, shuffle and repeat, and does not play.  Whatever
    /// happens, the flush ends by storing the current Lamport value under
    /// `sync_server_lamport`.
    pub fn shutdown_flush_step(&mut self, ev: ShutdownFlush, now_ms: i64) -> (a: ShutdownAction)
        requires
            old(self).wf(),
        ensures
            final(self).wf(),
            final(self)@.lamport == old(self)@.lamport,
            flush_ends(ev) <==> a is StoreLamport,
            a matches ShutdownAction::StoreLamport { key, value } ==> key@ == "sync_server_lamport"@
                && value@ == decimal(old(self)@.lamport as nat),
            match ev {
                ShutdownFlush::Snapshot(Ok(_)) => a is LoadSession && final(self)@ == old(self)@,
                ShutdownFlush::Snapshot(Err(e)) => {
                    &&& !final(self)@.health.healthy
                    &&& final(self)@.health.last_error_kind == Some(ProjectionFailureKind::ShutdownFlush)
                    &&& final(self)@.health.last_error matches Some(m) && m@ == shutdown_stage_prefix(
                        ShutdownStage::EngineSnapshot,
                    ) + e@
                },
                ShutdownFlush::Loaded { snapshot, session: Ok(sess) } => (a matches ShutdownAction::WriteSession(
                    w,
                ) && w@ == shutdown_session(snapshot, sess@)) && final(self)@ == old(self)@,
                ShutdownFlush::Loaded { session: Err(e), .. } => {
                    &&& !final(self)@.health.healthy
                    &&& final(self)@.health.last_error_kind == Some(ProjectionFailureKind::ShutdownFlush)
                    &&& final(self)@.health.last_error matches Some(m) && m@ == shutdown_stage_prefix(
                        ShutdownStage::SessionLoad,
                    ) + e@
                },
                ShutdownFlush::Written(Ok(())) => final(self)@.health == (PlaybackProjectionHealth {
                    healthy: true,
                    consecutive_failures: 0,
                    last_success_at: Some(now_ms),
                    last_error: None,
                    last_error_kind: None,
                    ..old(self)@.health
                }),
                ShutdownFlush::Written(Err(e)) => {
                    &&& !final(self)@.health.healthy
                    &&& final(self)@.health.last_error_kind == Some(ProjectionFailureKind::ShutdownFlush)
                    &&& final(self)@.health.last_error matches Some(m) && m@ == shutdown_stage_prefix(
                        ShutdownStage::SessionUpdate,
                    ) + e@
                },
            },
            final(self)@ == (CoordinatorView { health: final(self)@.health, ..old(self)@ }),
    {
        match ev {
            ShutdownFlush::Snapshot(Ok(_)) => {
                return ShutdownAction::LoadSession;
            },
            ShutdownFlush::Snapshot(Err(e)) => {
                self.record_shutdown_failure(ShutdownStage::EngineSnapshot, e.as_str(), now_ms);
            },
            ShutdownFlush::Loaded { snapshot, session: Ok(sess) } => {
                let mut sess = sess;
                apply_shutdown(&snapshot, &mut sess);
                return ShutdownAction::WriteSession(sess);
            },
            ShutdownFlush::Loaded { session: Err(e), .. } => {
                self.record_shutdown_failure(ShutdownStage::SessionLoad, e.as_str(), now_ms);
            },
            ShutdownFlush::Written(Ok(())) => {
                self.record_success(now_ms);
            },
            ShutdownFlush::Written(Err(e)) => {
                self.record_shutdown_failure(ShutdownStage::SessionUpdate, e.as_str(), now_ms);
            },
        }
        let mut value = String::new();
        append_decimal(&mut value, self.local_lamport);
        ShutdownAction::StoreLamport { key: "sync_server_lamport", value }
    }

    /// Whether `event_id` was already projected.
    pub fn is_event_processed(&self, event_id: u128) -> (r: bool)
        ensures
            r == self@.processed.contains(event_id),
    {
        broadcast use vstd::std_specs::hash::group_hash_axioms;

        self.processed_events.contains(&event_id)
    }

    /// Remembers `event_id` as projected.  Beyond 10000 remembered ids the
    /// memory is cleared first.
    pub fn record_processed_event(&mut self, event_id: u128)
        requires
            old(self).wf(),
        ensures
            final(self).wf(),
            final(self)@.processed == processed_after(old(self)@.processed, event_id),
            final(self)@ == (CoordinatorView {
                processed: final(self)@.processed,
                ..old(self)@
            }),
    {
        broadcast use vstd::std_specs::hash::group_hash_axioms;
        broadcast use vstd::set::group_set_axioms;

        if self.processed_events.len() > 10000 {
            self.processed_events.clear();
        }
        self.processed_events.insert(event_id);
    }

    /// Records a successful projection write at `now_ms`.
    pub fn record_success(&mut self, now_ms: i64)
        requires
            old(self).wf(),
        ensures
            final(self).wf(),
            final(self)@.health == (PlaybackProjectionHealth {
                healthy: true,
                consecutive_failures: 0,
                last_success_at: Some(now_ms),
                last_error: None,
                last_error_kind: None,
                ..old(self)@.health
            }),
            final(self)@ == (CoordinatorView { health: final(self)@.health, ..old(self)@ }),
    {
        self.health.healthy = true;
        self.health.consecutive_failures = 0;
        self.health.last_success_at = Some(now_ms);
        self.health.last_error = None;
        self.health.last_error_kind = None;
    }

    /// Records a projection failure of kind `kind` with message `msg` at `now_ms`.
    pub fn record_failure(&mut self, kind: ProjectionFailureKind, msg: &str, now_ms: i64)
        requires
            old(self).wf(),
        ensures
            final(self).wf(),
            !final(self)@.health.healthy,
            final(self)@.health.consecutive_failures == sat_inc(
                old(self)@.health.consecutive_failures,
            ),
            final(self)@.health.last_error_at == Some(now_ms),
            final(self)@.health.last_error matches Some(m) && m@ == msg@,
            final(self)@.health.last_error_kind == Some(kind),
            final(self)@.health.failures_total == sat_inc(old(self)@.health.failures_total),
            final(self)@.health.last_success_at == old(self)@.health.last_success_at,
            final(self)@.health.lag_events_total == old(self)@.health.lag_events_total,
            final(self)@.health.lag_recoveries_total == old(self)@.health.lag_recoveries_total,
            final(self)@.health.lag_recovery_failures_total
                == old(self)@.health.lag_recovery_failures_total,
            final(self)@ == (CoordinatorView { health: final(self)@.health, ..old(self)@ }),
    {
        self.health.healthy = false;
        self.health.consecutive_failures = self.health.consecutive_failures.saturating_add(1);
        self.health.last_error_at = Some(now_ms);
        self.health.last_error = Some(msg.to_owned());
        self.health.last_error_kind = Some(kind);
        self.health.failures_total = self.health.failures_total.saturating_add(1);
    }

    /// Counts an event-lag incident.
    pub fn record_lag_event(&mut self)
        requires
            old(self).wf(),
        ensures
            final(self).wf(),
            final(self)@.health == (PlaybackProjectionHealth {
                lag_events_total: sat_inc(old(self)@.health.lag_events_total),
                ..old(self)@.health
            }),
            final(self)@ == (CoordinatorView { health: final(self)@.health, ..old(self)@ }),
    {
        self.health.lag_events_total = self.health.lag_events_total.saturating_add(1);
    }

    /// Counts the outcome of a reconciliation after lag.
    pub fn record_lag_recovery(&mut self, recovered: bool)
        requires
            old(self).wf(),
        ensures
            final(self).wf(),
            recovered ==> final(self)@.health == (PlaybackProjectionHealth {
                lag_recoveries_total: sat_inc(old(self)@.health.lag_recoveries_total),
                ..old(self)@.health
            }),
            !recovered ==> final(self)@.health == (PlaybackProjectionHealth {
                lag_recovery_failures_total: sat_inc(
                    old(self)@.health.lag_recovery_failures_total,
                ),
                ..old(self)@.health
            }),
            final(self)@ == (CoordinatorView { health: final(self)@.health, ..old(self)@ }),
    {
        if recovered {
            self.health.lag_recoveries_total = self.health.lag_recoveries_total.saturating_add(
                1,
            );
        } else {
            self.health.lag_recovery_failures_total =
                self.health.lag_recovery_failures_total.saturating_add(1);
        }
    }
}

/// The last entry for `id` determines `find_peer`.
proof fn lemma_find_peer_index(
    peers: Seq<(Seq<char>, PeerCursor)>,
    id: Seq<char>,
    idx: Option<usize>,
)
    requires
        match idx {
            Some(k) => {
                &&& k < peers.len()
                &&& peers[k as int].0 == id
                &&& forall|j: int| k < j < peers.len() ==> #[trigger] peers[j].0 != id
            },
            None => forall|j: int| 0 <= j < peers.len() ==> #[trigger] peers[j].0 != id,
        },
    ensures
        find_peer(peers, id) == match idx {
            Some(k) => Some(peers[k as int].1),
            None => None,
        },
    decreases peers.len(),
{
    if peers.len() > 0 {
        match idx {
            Some(k) => {
                if k + 1 < peers.len() {
                    assert(peers.last().0 != id);
                    lemma_find_peer_index(peers.drop_last(), id, idx);
                }
            },
            None => {
                assert(peers.last().0 != id);
                lemma_find_peer_index(peers.drop_last(), id, idx);
            },
        }
    }
}

/// Overwriting the last entry for `id` changes `find_peer` at `id` only.
proof fn lemma_find_peer_update(
    peers: Seq<(Seq<char>, PeerCursor)>,
    k: int,
    id: Seq<char>,
    c: PeerCursor,
    other: Seq<char>,
)
    requires
        0 <= k < peers.len(),
        peers[k].0 == id,
        forall|j: int| k < j < peers.len() ==> #[trigger] peers[j].0 != id,
    ensures
        find_peer(peers.update(k, (id, c)), other) == if other == id {
            Some(c)
        } else {
            find_peer(peers, other)
        },
    decreases peers.len(),
{
    let up = peers.update(k, (id, c));
    if k + 1 < peers.len() {
        assert(up.drop_last() =~= peers.drop_last().update(k, (id, c)));
        assert(up.last() == peers.last());
        assert(peers.last().0 != id);
        lemma_find_peer_update(peers.drop_last(), k, id, c, other);
    } else {
        assert(up.drop_last() =~= peers.drop_last());
    }
}


/// A peer state, once recorded, is stale when it arrives again: a replayed
/// state is never applied twice.
pub proof fn law_recorded_state_is_stale(epoch: Option<u64>, boot_id: Option<u128>, sequence: u64)
    ensures
        stale_against(
            Some(
                PeerCursor {
                    epoch: match epoch {
                        Some(e) => e,
                        None => 0u64,
                    },
                    boot_id,
                    sequence,
                },
            ),
            epoch,
            boot_id,
            sequence,
        ),
{
}

/// A state from the same run of a peer with a later sequence number, or
/// from a later epoch of it, is never stale.
pub proof fn law_newer_state_is_fresh(c: PeerCursor, boot_id: Option<u128>, sequence: u64, epoch: u64)
    requires
        epoch > c.epoch || (epoch == c.epoch && sequence > c.sequence),
    ensures
        !stale_against(Some(c), Some(epoch), boot_id, sequence),
{
}

/// Merging a remote Lamport value that is accepted moves the clock past
/// both the local and the remote value, unless the clock is saturated.
pub proof fn law_lamport_passes_remote(local: u64, remote: u64)
    requires
        remote < lamport_acceptance_limit(),
    ensures
        sat_inc(max_u64(local, remote)) >= local,
        sat_inc(max_u64(local, remote)) >= remote,
        max_u64(local, remote) < u64::MAX ==> sat_inc(max_u64(local, remote)) > local
            && sat_inc(max_u64(local, remote)) > remote,
{
}

/// The set of processed event ids after recording `event_id`.
pub open spec fn processed_after(processed: Set<u128>, event_id: u128) -> Set<u128> {
    (if processed.len() > processed_events_bound() {
        Set::<u128>::empty()
    } else {
        processed
    }).insert(event_id)
}

/// An event, once recorded, is known as processed, so it is not projected
/// twice; and the memory of processed events stays bounded: a coordinator
/// never remembers more than 10001 event ids, before or after recording one.
pub proof fn law_recorded_event_is_processed(c: PlaybackProjectionCoordinator, event_id: u128)
    requires
        c.wf(),
    ensures
        c@.processed.finite(),
        c@.processed.len() <= processed_events_bound() + 1,
        processed_after(c@.processed, event_id).contains(event_id),
        processed_after(c@.processed, event_id).finite(),
        processed_after(c@.processed, event_id).len() <= processed_events_bound() + 1,
{
    broadcast use vstd::set::group_set_axioms;

    c.lemma_processed_bounded();
    let processed = c@.processed;
    if processed.len() > processed_events_bound() {
        assert(Set::<u128>::empty().insert(event_id).len() == 1);
    }
}

/// A server's epoch after a restart lies past the stored one (unless that
/// is the largest value) and never behind the wall clock.
pub proof fn law_epoch_moves_forward(stored: Seq<char>, now_secs: u64)
    ensures
        spec_epoch_after_restart(Some(stored), now_secs) >= now_secs,
        (spec_parse_u64(stored) matches Some(x) && x < u64::MAX) ==> spec_epoch_after_restart(
            Some(stored),
            now_secs,
        ) > spec_parse_u64(stored)->0,
{
}

} // verus!
