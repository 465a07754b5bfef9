//! Playback commands: repeat modes, control values and the decisions that a
//! playback control request makes on the shared playback state.
use vstd::prelude::*;
use vstd::string::StringExecFns;

use crate::deps::{parse_uuid, random_in_range, uuid_parsed, uuid_string, uuid_text};
use crate::text::{find_first, first_index, lemma_first_index_bound, str_eq};

verus! {

/// Repeat mode of the player.
#[derive(Debug, Clone, Copy, PartialEq, Eq, Structural)]
pub enum PlaybackRepeatMode {
    Off,
    One,
    All,
}

/// The wire name of a repeat mode.
pub open spec fn repeat_mode_name(m: PlaybackRepeatMode) -> Seq<char> {
    match m {
        PlaybackRepeatMode::Off => "off"@,
        PlaybackRepeatMode::One => "one"@,
        PlaybackRepeatMode::All => "all"@,
    }
}

impl PlaybackRepeatMode {
    pub fn as_str(&self) -> (s: &'static str)
        ensures
            s@ == repeat_mode_name(*self),
    {
        match self {
            PlaybackRepeatMode::Off => "off",
            PlaybackRepeatMode::One => "one",
            PlaybackRepeatMode::All => "all",
        }
    }
}


/// A value carried by a playback control request.
#[derive(Debug, Clone, Copy, PartialEq, Eq, Structural)]
pub enum PlaybackControlValue {
    Integer(u64),
    Repeat(PlaybackRepeatMode),
    Boolean(bool),
    Null,
}

/// A playback control request.
#[derive(Debug)]
pub struct PlaybackControlBody {
    pub command: String,
    pub track_id: Option<u128>,
    pub position_ms: Option<u64>,
    pub volume: Option<u32>,
    pub value: Option<PlaybackControlValue>,
}

/// The commands a playback control request may name.
#[derive(Debug, Clone, Copy, PartialEq, Eq, Structural)]
pub enum PlaybackCommand {
    Play,
    Pause,
    Toggle,
    Stop,
    Next,
    Previous,
    Seek,
    SetVolume,
    Mute,
    Unmute,
    Shuffle,
    Repeat,
}

/// The command that a command name denotes.
pub open spec fn command_named(s: Seq<char>) -> Option<PlaybackCommand> {
    if s == "play"@ {
        Some(PlaybackCommand::Play)
    } else if s == "pause"@ {
        Some(PlaybackCommand::Pause)
    } else if s == "toggle"@ {
        Some(PlaybackCommand::Toggle)
    } else if s == "stop"@ {
        Some(PlaybackCommand::Stop)
    } else if s == "next"@ {
        Some(PlaybackCommand::Next)
    } else if s == "previous"@ {
        Some(PlaybackCommand::Previous)
    } else if s == "seek"@ {
        Some(PlaybackCommand::Seek)
    } else if s == "set_volume"@ {
        Some(PlaybackCommand::SetVolume)
    } else if s == "mute"@ {
        Some(PlaybackCommand::Mute)
    } else if s == "unmute"@ {
        Some(PlaybackCommand::Unmute)
    } else if s == "shuffle"@ {
        Some(PlaybackCommand::Shuffle)
    } else if s == "repeat"@ {
        Some(PlaybackCommand::Repeat)
    } else {
        None
    }
}

/// Reads a command name.
pub fn parse_command(s: &str) -> (r: Option<PlaybackCommand>)
    ensures
        r == command_named(s@),
{
    if str_eq(s, "play") {
        Some(PlaybackCommand::Play)
    } else if str_eq(s, "pause") {
        Some(PlaybackCommand::Pause)
    } else if str_eq(s, "toggle") {
        Some(PlaybackCommand::Toggle)
    } else if str_eq(s, "stop") {
        Some(PlaybackCommand::Stop)
    } else if str_eq(s, "next") {
        Some(PlaybackCommand::Next)
    } else if str_eq(s, "previous") {
        Some(PlaybackCommand::Previous)
    } else if str_eq(s, "seek") {
        Some(PlaybackCommand::Seek)
    } else if str_eq(s, "set_volume") {
        Some(PlaybackCommand::SetVolume)
    } else if str_eq(s, "mute") {
        Some(PlaybackCommand::Mute)
    } else if str_eq(s, "unmute") {
        Some(PlaybackCommand::Unmute)
    } else if str_eq(s, "shuffle") {
        Some(PlaybackCommand::Shuffle)
    } else if str_eq(s, "repeat") {
        Some(PlaybackCommand::Repeat)
    } else {
        None
    }
}

/// The shared playback state that control requests act on.  The volume is
/// held in percent; instants are Unix milliseconds.
#[derive(Debug)]
pub struct PlayerState {
    pub track_id: Option<u128>,
    pub position_ms: u64,
    pub playing: bool,
    pub volume_percent: u8,
    pub shuffle: bool,
    pub repeat: String,
    pub updated_at_ms: i64,
}

/// The mathematical value of a player state.
pub ghost struct PlayerStateView {
    pub track_id: Option<u128>,
    pub position_ms: u64,
    pub playing: bool,
    pub volume_percent: u8,
    pub shuffle: bool,
    pub repeat: Seq<char>,
    pub updated_at_ms: i64,
}

impl View for PlayerState {
    type V = PlayerStateView;

    open spec fn view(&self) -> PlayerStateView {
        PlayerStateView {
            track_id: self.track_id,
            position_ms: self.position_ms,
            playing: self.playing,
            volume_percent: self.volume_percent,
            shuffle: self.shuffle,
            repeat: self.repeat@,
            updated_at_ms: self.updated_at_ms,
        }
    }
}

/// What a control decision needs to know besides the request and the state:
/// the engine's current track and whether it plays (from its snapshot), and
/// the track ids of the active queue in queue order, as stored.
pub struct ControlContext {
    pub engine_track_id: Option<u128>,
    pub engine_playing: bool,
    pub queue_track_ids: Vec<String>,
}

/// What the playback engine is told to do.
#[derive(Debug, Clone, Copy, PartialEq, Eq, Structural)]
pub enum EngineCommand {
    /// Play `track_id` (when it is known, in the library and an output is
    /// selected) from `position_ms`.
    Play { track_id: Option<u128>, position_ms: u64 },
    Pause,
    Resume,
    Stop,
    Seek { position_ms: u64 },
    Next,
    Previous,
    SetVolume { volume: u8 },
    SetShuffle { shuffle: bool },
    SetRepeat { repeat: PlaybackRepeatMode },
}

/// The reply to an accepted control request.
#[derive(Debug, Clone, Copy, PartialEq, Eq, Structural)]
pub enum ControlReply {
    /// `{"status":"accepted","lifecycle":"preparing","track_id":..}`
    Playing { track_id: Option<u128> },
    /// `{"status":"accepted","lifecycle":"paused"}`
    Paused,
    /// `{"status":"accepted","lifecycle":"stopped"}`
    Stopped,
    /// `{"status":"accepted"}`
    Accepted,
    /// `{"status":"accepted","position_ms":..}`
    Seeked { position_ms: u64 },
    /// `{"status":"accepted","volume":..}`
    Volume { volume: u8 },
    /// `{"status":"accepted","shuffle":..}`
    Shuffle { shuffle: bool },
    /// `{"status":"accepted","repeat":..}`
    Repeat { repeat: PlaybackRepeatMode },
}

/// A refused control request; both are `400 INVALID_REQUEST`.
#[derive(Debug)]
pub enum ControlError {
    UnknownCommand(String),
    VolumeOutOfRange,
}

/// The message of a refused control request.
pub open spec fn control_error_text(e: ControlError) -> Seq<char> {
    match e {
        ControlError::UnknownCommand(c) => "unknown playback command '"@ + c@ + "'"@,
        ControlError::VolumeOutOfRange => "volume must be between 0 and 100"@,
    }
}

impl ControlError {
    pub fn message(&self) -> (s: String)
        ensures
            s@ == control_error_text(*self),
    {
        match self {
            ControlError::UnknownCommand(c) => {
                let mut s = String::from_str("unknown playback command '");
                s.append(c.as_str());
                s.append("'");
                s
            },
            ControlError::VolumeOutOfRange => String::from_str("volume must be between 0 and 100"),
        }
    }
}

/// The integer carried by a control value.
pub open spec fn integer_value(v: Option<PlaybackControlValue>) -> Option<u64> {
    match v {
        Some(PlaybackControlValue::Integer(n)) => Some(n),
        _ => None,
    }
}

/// The position a play or seek request names: `position_ms`, else an integer
/// value, else 0.
pub open spec fn requested_position(b: PlaybackControlBody) -> u64 {
    match b.position_ms {
        Some(p) => p,
        None => match integer_value(b.value) {
            Some(p) => p,
            None => 0,
        },
    }
}

/// The queue index of the current track.
pub open spec fn current_index(items: Seq<Seq<char>>, track: Option<u128>) -> Option<int> {
    match track {
        Some(t) => first_index(items, uuid_text(t)),
        None => None,
    }
}

/// The state after "next" over `items`; `offset` is the random step taken in
/// shuffle mode.
pub open spec fn next_state(st: PlayerStateView, items: Seq<Seq<char>>, offset: int) -> PlayerStateView {
    let len = items.len() as int;
    if len == 0 {
        PlayerStateView { track_id: None, position_ms: 0, playing: false, ..st }
    } else if st.repeat == "one"@ {
        PlayerStateView { position_ms: 0, ..st }
    } else {
        let next_idx: int = match current_index(items, st.track_id) {
            Some(idx) => if st.shuffle {
                if len > 1 {
                    (idx + offset) % len
                } else {
                    0
                }
            } else if idx + 1 < len {
                idx + 1
            } else if st.repeat == "all"@ {
                0
            } else {
                len
            },
            None => 0,
        };
        if next_idx < len {
            match uuid_parsed(items[next_idx]) {
                Some(t) => PlayerStateView { track_id: Some(t), position_ms: 0, ..st },
                None => st,
            }
        } else {
            PlayerStateView { playing: false, position_ms: 0, ..st }
        }
    }
}

/// Whether "next" needs a random shuffle step over `items`.
pub open spec fn next_needs_offset(st: PlayerStateView, items: Seq<Seq<char>>) -> bool {
    &&& items.len() > 1
    &&& st.repeat != "one"@
    &&& current_index(items, st.track_id) is Some
    &&& st.shuffle
}

/// The state after "previous" over `items`.
pub open spec fn previous_state(st: PlayerStateView, items: Seq<Seq<char>>) -> PlayerStateView {
    if st.position_ms > 3000 {
        PlayerStateView { position_ms: 0, ..st }
    } else if items.len() > 0 {
        let prev: int = match current_index(items, st.track_id) {
            Some(idx) => if idx > 0 {
                idx - 1
            } else {
                0
            },
            None => 0,
        };
        match uuid_parsed(items[prev]) {
            Some(t) => PlayerStateView { track_id: Some(t), position_ms: 0, ..st },
            None => st,
        }
    } else {
        PlayerStateView { position_ms: 0, ..st }
    }
}

/// The effect of a control request: the new state, the engine command and the
/// reply; `offset` is the shuffle step that "next" takes.
pub open spec fn control_effect(
    cmd: PlaybackCommand,
    b: PlaybackControlBody,
    engine_track: Option<u128>,
    engine_playing: bool,
    items: Seq<Seq<char>>,
    st: PlayerStateView,
    now_ms: i64,
    offset: int,
) -> Option<(PlayerStateView, EngineCommand, ControlReply)> {
    match cmd {
        PlaybackCommand::Play => {
            let track = match b.track_id {
                Some(t) => Some(t),
                None => match engine_track {
                    Some(t) => Some(t),
                    None => st.track_id,
                },
            };
            let pos = requested_position(b);
            Some(
                (
                    PlayerStateView {
                        track_id: track,
                        playing: true,
                        position_ms: pos,
                        updated_at_ms: now_ms,
                        ..st
                    },
                    EngineCommand::Play { track_id: track, position_ms: pos },
                    ControlReply::Playing { track_id: track },
                ),
            )
        },
        PlaybackCommand::Pause => Some(
            (
                PlayerStateView { playing: false, updated_at_ms: now_ms, ..st },
                EngineCommand::Pause,
                ControlReply::Paused,
            ),
        ),
        PlaybackCommand::Toggle => if engine_playing {
            Some((PlayerStateView { playing: false, ..st }, EngineCommand::Pause, ControlReply::Accepted))
        } else {
            Some((PlayerStateView { playing: true, ..st }, EngineCommand::Resume, ControlReply::Accepted))
        },
        PlaybackCommand::Stop => Some(
            (
                PlayerStateView { playing: false, position_ms: 0, ..st },
                EngineCommand::Stop,
                ControlReply::Stopped,
            ),
        ),
        PlaybackCommand::Seek => {
            let pos = requested_position(b);
            Some(
                (
                    PlayerStateView { position_ms: pos, ..st },
                    EngineCommand::Seek { position_ms: pos },
                    ControlReply::Seeked { position_ms: pos },
                ),
            )
        },
        PlaybackCommand::Next => Some(
            (next_state(st, items, offset), EngineCommand::Next, ControlReply::Accepted),
        ),
        PlaybackCommand::Previous => Some(
            (previous_state(st, items), EngineCommand::Previous, ControlReply::Accepted),
        ),
        PlaybackCommand::SetVolume => {
            let requested: Option<u32> = match b.volume {
                Some(v) => Some(v),
                None => match integer_value(b.value) {
                    Some(v) => Some(v as u32),
                    None => None,
                },
            };
            match requested {
                Some(v) => if v > 100 {
                    None
                } else {
                    Some(
                        (
                            PlayerStateView { volume_percent: v as u8, ..st },
                            EngineCommand::SetVolume { volume: v as u8 },
                            ControlReply::Volume { volume: v as u8 },
                        ),
                    )
                },
                None => Some(
                    (
                        PlayerStateView { volume_percent: 80, ..st },
                        EngineCommand::SetVolume { volume: 80 },
                        ControlReply::Volume { volume: 80 },
                    ),
                ),
            }
        },
        PlaybackCommand::Mute => Some(
            (
                PlayerStateView { volume_percent: 0, ..st },
                EngineCommand::SetVolume { volume: 0 },
                ControlReply::Volume { volume: 0 },
            ),
        ),
        PlaybackCommand::Unmute => Some(
            (
                PlayerStateView { volume_percent: 80, ..st },
                EngineCommand::SetVolume { volume: 80 },
                ControlReply::Volume { volume: 80 },
            ),
        ),
        PlaybackCommand::Shuffle => {
            let shuffle = match b.value {
                Some(PlaybackControlValue::Boolean(x)) => x,
                _ => true,
            };
            Some(
                (
                    PlayerStateView { shuffle, ..st },
                    EngineCommand::SetShuffle { shuffle },
                    ControlReply::Shuffle { shuffle },
                ),
            )
        },
        PlaybackCommand::Repeat => {
            let repeat = match b.value {
                Some(PlaybackControlValue::Repeat(PlaybackRepeatMode::One)) => PlaybackRepeatMode::One,
                Some(PlaybackControlValue::Repeat(PlaybackRepeatMode::All)) => PlaybackRepeatMode::All,
                _ => PlaybackRepeatMode::Off,
            };
            Some(
                (
                    PlayerStateView { repeat: repeat_mode_name(repeat), ..st },
                    EngineCommand::SetRepeat { repeat },
                    ControlReply::Repeat { repeat },
                ),
            )
        },
    }
}

/// The queue index of the current track.
fn find_current(items: &Vec<String>, track: Option<u128>) -> (r: Option<usize>)
    ensures
        match r {
            Some(k) => Some(k as int) == current_index(items@.map_values(|x: String| x@), track),
            None => current_index(items@.map_values(|x: String| x@), track) is None,
        },
        r matches Some(k) ==> k < items@.len(),
{
    match track {
        Some(t) => {
            let text = uuid_string(t);
            let r = find_first(items, &text);
            proof {
                lemma_first_index_bound(items@.map_values(|x: String| x@), text@);
            }
            r
        },
        None => None,
    }
}

/// Applies "next" to the state; `offset` is the shuffle step, used only when
/// `next_needs_offset` holds.
fn apply_next(st: &mut PlayerState, items: &Vec<String>, offset: usize)
    requires
        next_needs_offset(old(st)@, items@.map_values(|x: String| x@)) ==> 1 <= offset
            < items@.len(),
    ensures
        final(st)@ == next_state(old(st)@, items@.map_values(|x: String| x@), offset as int),
{
    let ghost v = items@.map_values(|x: String| x@);
    let len = items.len();
    if len == 0 {
        st.track_id = None;
        st.position_ms = 0;
        st.playing = false;
        return;
    }
    if str_eq(st.repeat.as_str(), "one") {
        st.position_ms = 0;
        return;
    }
    let cur = find_current(items, st.track_id);
    let next_idx: usize = match cur {
        Some(idx) => {
            if st.shuffle {
                if len > 1 {
                    let rem = len - idx;
                    if offset >= rem {
                        proof {
                            assert((idx + offset) % (len as int) == idx + offset - len) by (nonlinear_arith)
                                requires
                                    len <= idx + offset < 2 * len,
                            ;
                        }
                        offset - rem
                    } else {
                        proof {
                            assert((idx + offset) % (len as int) == idx + offset) by (nonlinear_arith)
                                requires
                                    0 <= idx + offset < len,
                            ;
                        }
                        idx + offset
                    }
                } else {
                    0
                }
            } else if idx + 1 < len {
                idx + 1
            } else if str_eq(st.repeat.as_str(), "all") {
                0
            } else {
                len
            }
        },
        None => 0,
    };
    if next_idx < len {
        match parse_uuid(items[next_idx].as_str()) {
            Ok(t) => {
                st.track_id = Some(t);
                st.position_ms = 0;
            },
            Err(_) => {},
        }
    } else {
        st.playing = false;
        st.position_ms = 0;
    }
}

/// Applies "previous" to the state.
fn apply_previous(st: &mut PlayerState, items: &Vec<String>)
    ensures
        final(st)@ == previous_state(old(st)@, items@.map_values(|x: String| x@)),
{
    if st.position_ms > 3000 {
        st.position_ms = 0;
        return;
    }
    if items.len() > 0 {
        let cur = find_current(items, st.track_id);
        let prev: usize = match cur {
            Some(idx) => if idx > 0 {
                idx - 1
            } else {
                0
            },
            None => 0,
        };
        match parse_uuid(items[prev].as_str()) {
            Ok(t) => {
                st.track_id = Some(t);
                st.position_ms = 0;
            },
            Err(_) => {},
        }
    } else {
        st.position_ms = 0;
    }
}

/// Whether a shuffle step suits a request: it lies in `1..len` whenever the
/// request is a "next" that needs one.
pub open spec fn offset_admissible(
    body: PlaybackControlBody,
    ctx: ControlContext,
    st: PlayerStateView,
    offset: int,
) -> bool {
    command_named(body.command@) == Some(PlaybackCommand::Next) && next_needs_offset(
        st,
        ctx.queue_track_ids@.map_values(|x: String| x@),
    ) ==> 1 <= offset < ctx.queue_track_ids@.len()
}

/// The outcome of a control request taken with shuffle step `offset`: the
/// result `r` and the state `st2` after it, from the state `st` before.
pub open spec fn control_outcome(
    body: PlaybackControlBody,
    ctx: ControlContext,
    st: PlayerStateView,
    st2: PlayerStateView,
    r: Result<(EngineCommand, ControlReply), ControlError>,
    now_ms: i64,
    offset: int,
) -> bool {
    match command_named(body.command@) {
        None => r matches Err(ControlError::UnknownCommand(c)) && c@ == body.command@ && st2 == st,
        Some(cmd) => match control_effect(
            cmd,
            body,
            ctx.engine_track_id,
            ctx.engine_playing,
            ctx.queue_track_ids@.map_values(|x: String| x@),
            st,
            now_ms,
            offset,
        ) {
            Some((s, ec, reply)) => r == Ok::<(EngineCommand, ControlReply), ControlError>(
                (ec, reply),
            ) && st2 == s,
            None => r matches Err(ControlError::VolumeOutOfRange) && st2 == st,
        },
    }
}

/// Decides a playback control request with a given shuffle step: on success
/// updates the state and returns the engine command and the reply.
pub fn playback_control_with_offset(
    body: &PlaybackControlBody,
    ctx: &ControlContext,
    st: &mut PlayerState,
    now_ms: i64,
    offset: usize,
) -> (r: Result<(EngineCommand, ControlReply), ControlError>)
    requires
        offset_admissible(*body, *ctx, old(st)@, offset as int),
    ensures
        control_outcome(*body, *ctx, old(st)@, final(st)@, r, now_ms, offset as int),
{
    let cmd = match parse_command(body.command.as_str()) {
        Some(c) => c,
        None => {
            return Err(ControlError::UnknownCommand(body.command.clone()));
        },
    };
    let pos: u64 = match body.position_ms {
        Some(p) => p,
        None => match body.value {
            Some(PlaybackControlValue::Integer(p)) => p,
            _ => 0,
        },
    };
    match cmd {
        PlaybackCommand::Play => {
            let track = match body.track_id {
                Some(t) => Some(t),
                None => match ctx.engine_track_id {
                    Some(t) => Some(t),
                    None => st.track_id,
                },
            };
            if let Some(t) = track {
                st.track_id = Some(t);
            }
            st.playing = true;
            st.position_ms = pos;
            st.updated_at_ms = now_ms;
            Ok((EngineCommand::Play { track_id: track, position_ms: pos }, ControlReply::Playing { track_id: track }))
        },
        PlaybackCommand::Pause => {
            st.playing = false;
            st.updated_at_ms = now_ms;
            Ok((EngineCommand::Pause, ControlReply::Paused))
        },
        PlaybackCommand::Toggle => {
            if ctx.engine_playing {
                st.playing = false;
                Ok((EngineCommand::Pause, ControlReply::Accepted))
            } else {
                st.playing = true;
                Ok((EngineCommand::Resume, ControlReply::Accepted))
            }
        },
        PlaybackCommand::Stop => {
            st.playing = false;
            st.position_ms = 0;
            Ok((EngineCommand::Stop, ControlReply::Stopped))
        },
        PlaybackCommand::Seek => {
            st.position_ms = pos;
            Ok((EngineCommand::Seek { position_ms: pos }, ControlReply::Seeked { position_ms: pos }))
        },
        PlaybackCommand::Next => {
            apply_next(st, &ctx.queue_track_ids, offset);
            Ok((EngineCommand::Next, ControlReply::Accepted))
        },
        PlaybackCommand::Previous => {
            apply_previous(st, &ctx.queue_track_ids);
            Ok((EngineCommand::Previous, ControlReply::Accepted))
        },
        PlaybackCommand::SetVolume => {
            let requested: Option<u32> = match body.volume {
                Some(v) => Some(v),
                None => match body.value {
                    Some(PlaybackControlValue::Integer(v)) => Some(v as u32),
                    _ => None,
                },
            };
            let vol: u32 = match requested {
                Some(v) => {
                    if v > 100 {
                        return Err(ControlError::VolumeOutOfRange);
                    }
                    v
                },
                None => 80,
            };
            st.volume_percent = vol as u8;
            Ok((EngineCommand::SetVolume { volume: vol as u8 }, ControlReply::Volume { volume: vol as u8 }))
        },
        PlaybackCommand::Mute => {
            st.volume_percent = 0;
            Ok((EngineCommand::SetVolume { volume: 0 }, ControlReply::Volume { volume: 0 }))
        },
        PlaybackCommand::Unmute => {
            st.volume_percent = 80;
            Ok((EngineCommand::SetVolume { volume: 80 }, ControlReply::Volume { volume: 80 }))
        },
        PlaybackCommand::Shuffle => {
            let shuffle = match body.value {
                Some(PlaybackControlValue::Boolean(x)) => x,
                _ => true,
            };
            st.shuffle = shuffle;
            Ok((EngineCommand::SetShuffle { shuffle }, ControlReply::Shuffle { shuffle }))
        },
        PlaybackCommand::Repeat => {
            let repeat = match body.value {
                Some(PlaybackControlValue::Repeat(PlaybackRepeatMode::One)) => PlaybackRepeatMode::One,
                Some(PlaybackControlValue::Repeat(PlaybackRepeatMode::All)) => PlaybackRepeatMode::All,
                _ => PlaybackRepeatMode::Off,
            };
            st.repeat = String::from_str(repeat.as_str());
            Ok((EngineCommand::SetRepeat { repeat }, ControlReply::Repeat { repeat }))
        },
    }
}

/// Decides a playback control request.  "next" in shuffle mode steps a
/// random distance in `1..len` along the queue; every other outcome is fixed
/// by the request, the context and the state.
pub fn playback_control(
    body: &PlaybackControlBody,
    ctx: &ControlContext,
    st: &mut PlayerState,
    now_ms: i64,
) -> (r: Result<(EngineCommand, ControlReply), ControlError>)
    ensures
        exists|offset: int|
            offset_admissible(*body, *ctx, old(st)@, offset) && #[trigger] control_outcome(
                *body,
                *ctx,
                old(st)@,
                final(st)@,
                r,
                now_ms,
                offset,
            ),
{
    let len = ctx.queue_track_ids.len();
    let offset: usize = if len > 1 {
        random_in_range(1, len)
    } else {
        0
    };
    let r = playback_control_with_offset(body, ctx, st, now_ms, offset);
    r
}


/// What the engine's snapshot says of playback.
#[derive(Debug, Clone, Copy, PartialEq, Eq, Structural)]
pub struct EngineView {
    pub track_id: Option<u128>,
    pub position_ms: u64,
    pub playing: bool,
    pub volume: u8,
    pub shuffle: bool,
    pub repeat: PlaybackRepeatMode,
}

/// The playback that a state request reports.
#[derive(Debug)]
pub struct ReportedPlayback {
    pub track_id: Option<u128>,
    pub position_ms: u64,
    pub playing: bool,
    /// `"playing"` or `"paused"`.
    pub state: &'static str,
    pub volume: u8,
    pub shuffle: bool,
    pub repeat: String,
}

/// The reported playback: the engine speaks for the track it holds; with no
/// track in the engine, the shared state speaks.
pub open spec fn reported_fields(
    e: EngineView,
    st: PlayerStateView,
) -> (Option<u128>, u64, bool, u8, bool, Seq<char>) {
    let playing = e.playing || (e.track_id is None && st.playing);
    match e.track_id {
        Some(t) => (Some(t), e.position_ms, playing, e.volume, e.shuffle, repeat_mode_name(e.repeat)),
        None => (st.track_id, st.position_ms, playing, st.volume_percent, st.shuffle, st.repeat),
    }
}

/// Merges the engine's snapshot with the shared playback state into what a
/// state request reports.
pub fn reported_playback(engine: &EngineView, stored: &PlayerState) -> (r: ReportedPlayback)
    ensures
        (r.track_id, r.position_ms, r.playing, r.volume, r.shuffle, r.repeat@) == reported_fields(
            *engine,
            stored@,
        ),
        r.state@ == (if r.playing { "playing"@ } else { "paused"@ }),
{
    let playing = engine.playing || (engine.track_id.is_none() && stored.playing);
    let state = if playing { "playing" } else { "paused" };
    match engine.track_id {
        Some(t) => ReportedPlayback {
            track_id: Some(t),
            position_ms: engine.position_ms,
            playing,
            state,
            volume: engine.volume,
            shuffle: engine.shuffle,
            repeat: String::from_str(engine.repeat.as_str()),
        },
        None => ReportedPlayback {
            track_id: stored.track_id,
            position_ms: stored.position_ms,
            playing,
            state,
            volume: stored.volume_percent,
            shuffle: stored.shuffle,
            repeat: stored.repeat.clone(),
        },
    }
}

/// A request to record a playback session; the volume, a fraction, is read
/// apart from it.
#[derive(Debug)]
pub struct PlaybackSessionRequest {
    pub queue: Vec<u128>,
    pub current_track_id: Option<u128>,
    pub position_ms: u64,
    pub playing: bool,
    pub source: Option<String>,
    pub resume_policy: Option<String>,
    pub device_id: Option<String>,
    pub repeat_mode: Option<String>,
    pub shuffle: Option<bool>,
}

/// The session that a request records, with the request's defaults filled in.
#[derive(Debug)]
pub struct PlaybackSessionPlan {
    /// The device's UUID, or the nil UUID (0) where none or no valid one is given.
    pub device_id: u128,
    pub track_id: Option<u128>,
    pub position_ms: u64,
    pub playing: bool,
    pub repeat_mode: String,
    pub shuffle: bool,
    pub source: String,
    pub resume_policy: String,
    /// `"preparing"` when the session plays, else `"paused"`.
    pub lifecycle: &'static str,
}

/// The text given, else the default.
pub open spec fn text_or(o: Option<String>, default: Seq<char>) -> Seq<char> {
    match o {
        Some(s) => s@,
        None => default,
    }
}

/// The device a session names: its parsed UUID, else nil.
pub open spec fn session_device(d: Option<String>) -> u128 {
    match d {
        Some(s) => match uuid_parsed(s@) {
            Some(v) => v,
            None => 0,
        },
        None => 0,
    }
}

/// The track a session starts on: the current one, else the head of the queue.
pub open spec fn session_track(current: Option<u128>, queue: Seq<u128>) -> Option<u128> {
    match current {
        Some(t) => Some(t),
        None => if queue.len() > 0 {
            Some(queue[0])
        } else {
            None
        },
    }
}

/// Fills in what a session request leaves open: repeat `"off"`, no shuffle,
/// source `"player"`, resume policy `"manual"`, the nil device.
pub fn plan_playback_session(req: PlaybackSessionRequest) -> (p: PlaybackSessionPlan)
    ensures
        p.device_id == session_device(req.device_id),
        p.track_id == session_track(req.current_track_id, req.queue@),
        p.position_ms == req.position_ms,
        p.playing == req.playing,
        p.repeat_mode@ == text_or(req.repeat_mode, "off"@),
        p.shuffle == match req.shuffle {
            Some(b) => b,
            None => false,
        },
        p.source@ == text_or(req.source, "player"@),
        p.resume_policy@ == text_or(req.resume_policy, "manual"@),
        p.lifecycle@ == (if req.playing { "preparing"@ } else { "paused"@ }),
{
    let device_id: u128 = match &req.device_id {
        Some(d) => match parse_uuid(d.as_str()) {
            Ok(v) => v,
            Err(_) => 0,
        },
        None => 0,
    };
    let track_id = match req.current_track_id {
        Some(t) => Some(t),
        None => if req.queue.len() > 0 {
            Some(req.queue[0])
        } else {
            None
        },
    };
    let repeat_mode = match req.repeat_mode {
        Some(s) => s,
        None => String::from_str("off"),
    };
    let shuffle = match req.shuffle {
        Some(b) => b,
        None => false,
    };
    let source = match req.source {
        Some(s) => s,
        None => String::from_str("player"),
    };
    let resume_policy = match req.resume_policy {
        Some(s) => s,
        None => String::from_str("manual"),
    };
    PlaybackSessionPlan {
        device_id,
        track_id,
        position_ms: req.position_ms,
        playing: req.playing,
        repeat_mode,
        shuffle,
        source,
        resume_policy,
        lifecycle: if req.playing { "preparing" } else { "paused" },
    }
}

/// The shared state a handoff installs: the handed track at its position,
/// with no shuffle and repeat `"off"`; the volume comes in percent.
pub fn handoff_state(
    track_id: u128,
    position_ms: u64,
    playing: bool,
    volume_percent: u8,
    now_ms: i64,
) -> (st: PlayerState)
    ensures
        st@ == (PlayerStateView {
            track_id: Some(track_id),
            position_ms,
            playing,
            volume_percent,
            shuffle: false,
            repeat: "off"@,
            updated_at_ms: now_ms,
        }),
{
    PlayerState {
        track_id: Some(track_id),
        position_ms,
        playing,
        volume_percent,
        shuffle: false,
        repeat: String::from_str("off"),
        updated_at_ms: now_ms,
    }
}

/// The device a handoff comes from: the one named, else `"unknown"`.
pub fn handoff_origin(from_device: Option<String>) -> (s: String)
    ensures
        s@ == text_or(from_device, "unknown"@),
{
    match from_device {
        Some(d) => d,
        None => String::from_str("unknown"),
    }
}

/// The shared state after a stored session is restored into it: its track,
/// position and volume; it plays again only on an explicit restore
/// (`resume`), never at startup.
pub open spec fn restored_view(
    before: PlayerStateView,
    track_id: Option<u128>,
    position_ms: u64,
    playing: bool,
    volume_percent: u8,
    resume: bool,
    now_ms: i64,
) -> PlayerStateView {
    PlayerStateView {
        track_id,
        position_ms,
        playing: resume && playing,
        volume_percent,
        updated_at_ms: now_ms,
        ..before
    }
}

/// Restores a stored session into the shared state.
pub fn restore_session_state(
    st: &mut PlayerState,
    track_id: Option<u128>,
    position_ms: u64,
    playing: bool,
    volume_percent: u8,
    resume: bool,
    now_ms: i64,
)
    ensures
        final(st)@ == restored_view(
            old(st)@,
            track_id,
            position_ms,
            playing,
            volume_percent,
            resume,
            now_ms,
        ),
{
    st.track_id = track_id;
    st.position_ms = position_ms;
    st.playing = resume && playing;
    st.volume_percent = volume_percent;
    st.updated_at_ms = now_ms;
}

/// A session restored at startup never plays, whatever it recorded; an
/// explicit restore plays exactly when the session did.
pub proof fn law_startup_restore_never_plays(
    before: PlayerStateView,
    track_id: Option<u128>,
    position_ms: u64,
    playing: bool,
    volume_percent: u8,
    now_ms: i64,
)
    ensures
        !restored_view(before, track_id, position_ms, playing, volume_percent, false, now_ms).playing,
        restored_view(before, track_id, position_ms, playing, volume_percent, true, now_ms).playing
            == playing,
        restored_view(before, track_id, position_ms, playing, volume_percent, false, now_ms).track_id
            == track_id,
{
}


/// "previous" more than three seconds into a track restarts it.  Within the
/// first three seconds it steps back one place in the queue: from the track
/// at queue index `i > 0` to the one at `i - 1`, and from the head of the
/// queue (or from a track not in it) to the head.  It never moves to a later
/// place, only rewinds to the start, and leaves everything else as it was.
pub proof fn law_previous_steps_back(st: PlayerStateView, items: Seq<Seq<char>>)
    requires
        items.len() > 0,
    ensures
        st.position_ms > 3000 ==> previous_state(st, items) == (PlayerStateView { position_ms: 0, ..st }),
        st.position_ms <= 3000 ==> ({
            let target: int = match current_index(items, st.track_id) {
                Some(i) => if i > 0 {
                    i - 1
                } else {
                    0
                },
                None => 0,
            };
            &&& 0 <= target < items.len()
            &&& current_index(items, st.track_id) matches Some(i) ==> target <= i && (i > 0 ==> target
                == i - 1)
            &&& match uuid_parsed(items[target]) {
                Some(t) => previous_state(st, items) == (PlayerStateView {
                    track_id: Some(t),
                    position_ms: 0,
                    ..st
                }),
                None => previous_state(st, items) == st,
            }
        }),
{
    match st.track_id {
        Some(t) => lemma_first_index_bound(items, uuid_text(t)),
        None => {},
    }
}

/// The state a granted control request leaves.
pub open spec fn effect_state(r: Option<(PlayerStateView, EngineCommand, ControlReply)>) -> PlayerStateView {
    match r {
        Some((s, _, _)) => s,
        None => arbitrary(),
    }
}

/// The engine command of a granted control request.
pub open spec fn command_of(r: Option<(PlayerStateView, EngineCommand, ControlReply)>) -> EngineCommand {
    match r {
        Some((_, c, _)) => c,
        None => arbitrary(),
    }
}

/// What each playback command does to the shared state, over every request
/// and state: play plays the named track (else the engine's, else the
/// current one); pause and stop stop playing, stop also rewinds; toggle
/// inverts what the engine is doing; seek moves to the requested position;
/// a volume of at most 100 is taken and a larger one refused; mute is 0 and
/// unmute 80; shuffle and repeat take the value given (shuffle on, repeat
/// off by default); and only the volume commands touch the volume.
pub proof fn law_control_commands(
    b: PlaybackControlBody,
    engine_track: Option<u128>,
    engine_playing: bool,
    items: Seq<Seq<char>>,
    st: PlayerStateView,
    now_ms: i64,
    offset: int,
)
    ensures
        ({
            let r = control_effect(PlaybackCommand::Play, b, engine_track, engine_playing, items, st, now_ms, offset);
            &&& r is Some && effect_state(r).playing && effect_state(r).updated_at_ms == now_ms
            &&& b.track_id matches Some(t) ==> effect_state(r).track_id == Some(t)
            &&& b.track_id is None && engine_track is Some ==> effect_state(r).track_id == engine_track
            &&& b.position_ms matches Some(p) ==> effect_state(r).position_ms == p
            &&& b.position_ms is None && b.value is None ==> effect_state(r).position_ms == 0
        }),
        ({
            let r = control_effect(PlaybackCommand::Pause, b, engine_track, engine_playing, items, st, now_ms, offset);
            r is Some && !effect_state(r).playing && effect_state(r).position_ms == st.position_ms && command_of(r) == EngineCommand::Pause
        }),
        ({
            let r = control_effect(PlaybackCommand::Stop, b, engine_track, engine_playing, items, st, now_ms, offset);
            r is Some && !effect_state(r).playing && effect_state(r).position_ms == 0 && effect_state(r).track_id == st.track_id
        }),
        ({
            let r = control_effect(PlaybackCommand::Toggle, b, engine_track, engine_playing, items, st, now_ms, offset);
            r is Some && effect_state(r).playing == !engine_playing
        }),
        ({
            let r = control_effect(PlaybackCommand::Seek, b, engine_track, engine_playing, items, st, now_ms, offset);
            &&& r is Some && effect_state(r).track_id == st.track_id && effect_state(r).playing == st.playing
            &&& b.position_ms matches Some(p) ==> effect_state(r).position_ms == p && command_of(r) == (EngineCommand::Seek { position_ms: p })
        }),
        ({
            let r = control_effect(PlaybackCommand::SetVolume, b, engine_track, engine_playing, items, st, now_ms, offset);
            &&& match b.volume {
                Some(v) => if v <= 100 {
                    r is Some && effect_state(r).volume_percent == v
                } else {
                    r is None
                },
                None => true,
            }
            &&& r is Some ==> effect_state(r).volume_percent <= 100
        }),
        effect_state(control_effect(PlaybackCommand::Mute, b, engine_track, engine_playing, items, st, now_ms, offset)).volume_percent == 0,
        effect_state(control_effect(PlaybackCommand::Unmute, b, engine_track, engine_playing, items, st, now_ms, offset)).volume_percent == 80,
        ({
            let r = control_effect(PlaybackCommand::Shuffle, b, engine_track, engine_playing, items, st, now_ms, offset);
            &&& r is Some
            &&& b.value matches Some(PlaybackControlValue::Boolean(x)) ==> effect_state(r).shuffle == x
            &&& !(b.value matches Some(PlaybackControlValue::Boolean(_))) ==> effect_state(r).shuffle
        }),
        ({
            let r = control_effect(PlaybackCommand::Repeat, b, engine_track, engine_playing, items, st, now_ms, offset);
            &&& r is Some
            &&& b.value matches Some(PlaybackControlValue::Repeat(m)) ==> effect_state(r).repeat == repeat_mode_name(m)
            &&& !(b.value matches Some(PlaybackControlValue::Repeat(_))) ==> effect_state(r).repeat == "off"@
        }),
        forall|c: PlaybackCommand|
            c != PlaybackCommand::SetVolume && c != PlaybackCommand::Mute && c != PlaybackCommand::Unmute
                ==> effect_state(#[trigger] control_effect(c, b, engine_track, engine_playing, items, st, now_ms, offset)).volume_percent == st.volume_percent,
{
    assert forall|c: PlaybackCommand|
        c != PlaybackCommand::SetVolume && c != PlaybackCommand::Mute && c != PlaybackCommand::Unmute
            implies effect_state(#[trigger] control_effect(c, b, engine_track, engine_playing, items, st, now_ms, offset)).volume_percent == st.volume_percent by {
        if c == PlaybackCommand::Previous {
            match st.track_id {
                Some(t) => lemma_first_index_bound(items, uuid_text(t)),
                None => {},
            }
        }
    }
}

/// "next" outside shuffle and single-track repeat moves one place forward
/// in the queue; after the last track it wraps to the first with repeat
/// `all` and otherwise stops, rewound.
pub proof fn law_next_steps_forward(st: PlayerStateView, items: Seq<Seq<char>>, offset: int, i: int)
    requires
        items.len() > 0,
        !st.shuffle,
        st.repeat != "one"@,
        current_index(items, st.track_id) == Some(i),
    ensures
        i + 1 < items.len() && uuid_parsed(items[i + 1]) is Some ==> next_state(st, items, offset) == (
        PlayerStateView { track_id: uuid_parsed(items[i + 1]), position_ms: 0, ..st }),
        i + 1 >= items.len() && st.repeat == "all"@ && uuid_parsed(items[0]) is Some ==> next_state(
            st,
            items,
            offset,
        ) == (PlayerStateView { track_id: uuid_parsed(items[0]), position_ms: 0, ..st }),
        i + 1 >= items.len() && st.repeat != "all"@ ==> next_state(st, items, offset) == (PlayerStateView {
            playing: false,
            position_ms: 0,
            ..st
        }),
{
    match st.track_id {
        Some(t) => lemma_first_index_bound(items, uuid_text(t)),
        None => {},
    }
}
} // verus!
