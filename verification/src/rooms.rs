//! Rooms and receivers: room modes and their volumes, the checks on room
//! and group requests, and the plans and outcomes of activating and
//! deactivating a room group.
use vstd::prelude::*;
use vstd::string::StringExecFns;

use crate::deps::{debug_text_list, debug_string_list, uuid_text};
use crate::text::{chars_of, str_eq, string_of, trim, trim_chars};

verus! {

/// A volume change for a room.
#[derive(Debug)]
pub struct VolumeRequest {
    pub volume: u32,
}

/// A mute change for a room.
#[derive(Debug)]
pub struct MuteRequest {
    pub muted: bool,
}

/// How a room group plays.
#[derive(Debug, Clone, Copy, PartialEq, Eq, Structural)]
pub enum RoomMode {
    Party,
    Relax,
    Custom,
}

/// The mode a mode name denotes: `party` and `relax`, anything else is
/// custom.
pub open spec fn spec_room_mode(s: Seq<char>) -> RoomMode {
    if s == "party"@ {
        RoomMode::Party
    } else if s == "relax"@ {
        RoomMode::Relax
    } else {
        RoomMode::Custom
    }
}

/// The volume a receiver gets in a room of this mode unless one is stored.
pub open spec fn spec_default_volume(m: RoomMode) -> u32 {
    match m {
        RoomMode::Party => 80,
        RoomMode::Relax => 40,
        RoomMode::Custom => 60,
    }
}

/// The stored name of a mode.
pub open spec fn spec_mode_name(m: RoomMode) -> Seq<char> {
    match m {
        RoomMode::Party => "party"@,
        RoomMode::Relax => "relax"@,
        RoomMode::Custom => "custom"@,
    }
}

impl RoomMode {
    /// Reads a mode name.
    pub fn from_config_str(s: &str) -> (m: RoomMode)
        ensures
            m == spec_room_mode(s@),
    {
        if str_eq(s, "party") {
            RoomMode::Party
        } else if str_eq(s, "relax") {
            RoomMode::Relax
        } else {
            RoomMode::Custom
        }
    }

    /// The default volume of the mode.
    pub fn default_volume(&self) -> (v: u32)
        ensures
            v == spec_default_volume(*self),
    {
        match self {
            RoomMode::Party => 80,
            RoomMode::Relax => 40,
            RoomMode::Custom => 60,
        }
    }

    /// The stored name of the mode.
    pub fn as_str(&self) -> (s: &'static str)
        ensures
            s@ == spec_mode_name(*self),
    {
        match self {
            RoomMode::Party => "party",
            RoomMode::Relax => "relax",
            RoomMode::Custom => "custom",
        }
    }
}

/// The texts of a list of strings.
pub open spec fn texts(v: Seq<String>) -> Seq<Seq<char>> {
    v.map_values(|s: String| s@)
}

/// Every receiver of a room with the same volume.
pub fn uniform_volumes(receiver_ids: &Vec<String>, volume: u32) -> (r: Vec<(String, u32)>)
    ensures
        r@.len() == receiver_ids@.len(),
        forall|i: int|
            0 <= i < r@.len() ==> (#[trigger] r@[i]).0@ == receiver_ids@[i]@ && r@[i].1 == volume,
{
    let mut r: Vec<(String, u32)> = Vec::new();
    let mut i: usize = 0;
    while i < receiver_ids.len()
        invariant
            i <= receiver_ids@.len(),
            r@.len() == i,
            forall|k: int|
                0 <= k < i ==> (#[trigger] r@[k]).0@ == receiver_ids@[k]@ && r@[k].1 == volume,
        decreases receiver_ids.len() - i,
    {
        r.push((receiver_ids[i].clone(), volume));
        i = i + 1;
    }
    r
}

/// A refused room or group request.
#[derive(Debug)]
pub enum RoomError {
    /// `400 VALIDATION_ERROR`.
    Validation(String),
    /// `400 UNKNOWN_RECEIVERS`: these receivers are not registered.
    UnknownReceivers(Vec<String>),
    /// `404 NOT_FOUND`: no such room group.
    GroupNotFound,
    /// `404 GROUP_NOT_FOUND`: no such speaker group.
    SpeakerGroupNotFound(String),
    /// `400 INVALID_ROOM`: the group has no receivers.
    EmptyRoom,
    /// `502 ROOM_ACTIVATION_FAILED`: no receiver could be activated.
    ActivationFailed,
}

/// The code and message of a refused room request.
pub open spec fn room_error_text(e: RoomError) -> (Seq<char>, Seq<char>) {
    match e {
        RoomError::Validation(m) => ("VALIDATION_ERROR"@, m@),
        RoomError::UnknownReceivers(ids) => ("UNKNOWN_RECEIVERS"@, "receivers not found: "@
            + debug_text_list(texts(ids@))),
        RoomError::GroupNotFound => ("NOT_FOUND"@, "group not found"@),
        RoomError::SpeakerGroupNotFound(id) => ("GROUP_NOT_FOUND"@, "group "@ + id@ + " not found"@),
        RoomError::EmptyRoom => ("INVALID_ROOM"@, "cannot activate an empty room group with 0 receivers"@),
        RoomError::ActivationFailed => ("ROOM_ACTIVATION_FAILED"@, "failed to activate any receivers in room group"@),
    }
}

impl RoomError {
    /// The error's code and message.
    pub fn text(&self) -> (r: (&'static str, String))
        ensures
            (r.0@, r.1@) == room_error_text(*self),
    {
        match self {
            RoomError::Validation(m) => ("VALIDATION_ERROR", m.clone()),
            RoomError::UnknownReceivers(ids) => {
                let mut s = String::from_str("receivers not found: ");
                let l = debug_string_list(ids);
                s.append(l.as_str());
                ("UNKNOWN_RECEIVERS", s)
            },
            RoomError::GroupNotFound => ("NOT_FOUND", String::from_str("group not found")),
            RoomError::SpeakerGroupNotFound(id) => {
                let mut s = String::from_str("group ");
                s.append(id.as_str());
                s.append(" not found");
                ("GROUP_NOT_FOUND", s)
            },
            RoomError::EmptyRoom => (
                "INVALID_ROOM",
                String::from_str("cannot activate an empty room group with 0 receivers"),
            ),
            RoomError::ActivationFailed => (
                "ROOM_ACTIVATION_FAILED",
                String::from_str("failed to activate any receivers in room group"),
            ),
        }
    }
}

/// A name that must not be blank: trimmed, or refused with `message`.
pub fn required_name(name: &str, message: &str) -> (r: Result<String, RoomError>)
    ensures
        trim(name@).len() == 0 ==> (r matches Err(RoomError::Validation(m)) && m@ == message@),
        trim(name@).len() > 0 ==> (r matches Ok(n) && n@ == trim(name@)),
{
    let t = trim_chars(chars_of(name).as_slice());
    if t.len() == 0 {
        Err(RoomError::Validation(String::from_str(message)))
    } else {
        Ok(string_of(t.as_slice()))
    }
}

/// A request for a room.
#[derive(Debug)]
pub struct CreateRoomBody {
    pub name: String,
    pub receiver_ids: Vec<String>,
}

/// The receivers of a request that are not registered (`known[i]` tells
/// whether the `i`-th is), in order.
pub open spec fn unknown_ids(ids: Seq<String>, known: Seq<bool>) -> Seq<Seq<char>>
    decreases ids.len(),
{
    if ids.len() == 0 || known.len() == 0 {
        Seq::empty()
    } else {
        let rest = unknown_ids(ids.drop_last(), known.drop_last());
        if known.last() {
            rest
        } else {
            rest.push(ids.last()@)
        }
    }
}

/// Checks a room request: a name and registered receivers.  The room is
/// created in custom mode with each receiver at volume 60.
pub fn check_create_room(body: &CreateRoomBody, known: &Vec<bool>) -> (r: Result<
    (String, Vec<(String, u32)>),
    RoomError,
>)
    requires
        known@.len() == body.receiver_ids@.len(),
    ensures
        trim(body.name@).len() == 0 ==> (r matches Err(RoomError::Validation(m)) && m@
            == "name is required"@),
        trim(body.name@).len() > 0 && unknown_ids(body.receiver_ids@, known@).len() > 0 ==> (r matches Err(
            RoomError::UnknownReceivers(ids),
        ) && texts(ids@) == unknown_ids(body.receiver_ids@, known@)),
        trim(body.name@).len() > 0 && unknown_ids(body.receiver_ids@, known@).len() == 0 ==> (r matches Ok(
            (n, vols),
        ) && n@ == trim(body.name@) && vols@.len() == body.receiver_ids@.len() && forall|i: int|
            0 <= i < vols@.len() ==> (#[trigger] vols@[i]).0@ == body.receiver_ids@[i]@
                && vols@[i].1 == 60),
{
    let name = match required_name(body.name.as_str(), "name is required") {
        Ok(n) => n,
        Err(e) => {
            return Err(e);
        },
    };
    let mut unknown: Vec<String> = Vec::new();
    let mut i: usize = 0;
    while i < body.receiver_ids.len()
        invariant
            known@.len() == body.receiver_ids@.len(),
            i <= body.receiver_ids@.len(),
            texts(unknown@) == unknown_ids(body.receiver_ids@.take(i as int), known@.take(i as int)),
        decreases body.receiver_ids.len() - i,
    {
        proof {
            assert(body.receiver_ids@.take(i as int + 1).drop_last() =~= body.receiver_ids@.take(
                i as int,
            ));
            assert(known@.take(i as int + 1).drop_last() =~= known@.take(i as int));
        }
        if !known[i] {
            let ghost before = texts(unknown@);
            unknown.push(body.receiver_ids[i].clone());
            proof {
                assert(texts(unknown@) =~= before.push(body.receiver_ids@[i as int]@));
            }
        }
        i = i + 1;
    }
    proof {
        assert(body.receiver_ids@.take(i as int) =~= body.receiver_ids@);
        assert(known@.take(i as int) =~= known@);
    }
    if unknown.len() > 0 {
        return Err(RoomError::UnknownReceivers(unknown));
    }
    Ok((name, uniform_volumes(&body.receiver_ids, 60)))
}

/// A request for a persistent room group.
#[derive(Debug)]
pub struct CreateRoomGroupBody {
    pub name: String,
    pub mode: Option<String>,
    pub receiver_ids: Vec<String>,
}

/// The mode a new room group gets: the requested one, `party` by default.
pub open spec fn requested_mode(mode: Option<String>) -> RoomMode {
    match mode {
        Some(m) => spec_room_mode(m@),
        None => RoomMode::Party,
    }
}

/// Checks a room group request and gives its name, mode and volumes.
pub fn check_create_room_group(body: &CreateRoomGroupBody) -> (r: Result<
    (String, RoomMode, Vec<(String, u32)>),
    RoomError,
>)
    ensures
        trim(body.name@).len() == 0 ==> (r matches Err(RoomError::Validation(m)) && m@
            == "name is required"@),
        trim(body.name@).len() > 0 ==> (r matches Ok((n, m, vols)) && n@ == trim(body.name@) && m
            == requested_mode(body.mode) && vols@.len() == body.receiver_ids@.len() && forall|i: int|
            0 <= i < vols@.len() ==> (#[trigger] vols@[i]).0@ == body.receiver_ids@[i]@
                && vols@[i].1 == spec_default_volume(m)),
{
    let name = match required_name(body.name.as_str(), "name is required") {
        Ok(n) => n,
        Err(e) => {
            return Err(e);
        },
    };
    let mode = match &body.mode {
        Some(m) => RoomMode::from_config_str(m.as_str()),
        None => RoomMode::Party,
    };
    let vols = uniform_volumes(&body.receiver_ids, mode.default_volume());
    Ok((name, mode, vols))
}

/// A change to a room group.
#[derive(Debug)]
pub struct UpdateRoomGroupBody {
    pub name: Option<String>,
    pub mode: Option<String>,
    pub receiver_ids: Option<Vec<String>>,
}

/// A stored room group.
#[derive(Debug)]
pub struct StoredRoomGroup {
    pub name: String,
    pub mode: String,
    pub receiver_ids: Vec<String>,
    pub volumes: Vec<(String, u32)>,
}

/// Applies a change to a stored room group.  New receivers all get the
/// default volume of the (possibly new) mode; otherwise volumes stay.
pub fn apply_room_group_update(g: &mut StoredRoomGroup, body: UpdateRoomGroupBody)
    ensures
        final(g).name@ == (match body.name {
            Some(n) => n@,
            None => old(g).name@,
        }),
        final(g).mode@ == (match body.mode {
            Some(m) => m@,
            None => old(g).mode@,
        }),
        match body.receiver_ids {
            Some(ids) => texts(final(g).receiver_ids@) == texts(ids@) && final(g).volumes@.len()
                == ids@.len() && forall|i: int|
                0 <= i < ids@.len() ==> (#[trigger] final(g).volumes@[i]).0@ == ids@[i]@
                    && final(g).volumes@[i].1 == spec_default_volume(spec_room_mode(final(g).mode@)),
            None => texts(final(g).receiver_ids@) == texts(old(g).receiver_ids@) && final(g).volumes
                == old(g).volumes,
        },
{
    if let Some(n) = body.name {
        g.name = n;
    }
    if let Some(m) = body.mode {
        g.mode = m;
    }
    if let Some(ids) = body.receiver_ids {
        let mode = RoomMode::from_config_str(g.mode.as_str());
        g.volumes = uniform_volumes(&ids, mode.default_volume());
        g.receiver_ids = ids;
    }
}

/// A change of a room group's mode.
#[derive(Debug)]
pub struct SetRoomModeBody {
    pub mode: String,
}

/// Sets every stored volume to the default of a new mode.
pub fn reset_volumes(volumes: &mut Vec<(String, u32)>, mode: RoomMode)
    ensures
        final(volumes)@.len() == old(volumes)@.len(),
        forall|i: int|
            0 <= i < final(volumes)@.len() ==> (#[trigger] final(volumes)@[i]).0@ == old(volumes)@[i].0@
                && final(volumes)@[i].1 == spec_default_volume(mode),
{
    let v = mode.default_volume();
    let mut i: usize = 0;
    while i < volumes.len()
        invariant
            i <= volumes@.len(),
            volumes@.len() == old(volumes)@.len(),
            forall|k: int|
                0 <= k < volumes@.len() ==> (#[trigger] volumes@[k]).0@ == old(volumes)@[k].0@,
            forall|k: int| 0 <= k < i ==> (#[trigger] volumes@[k]).1 == v,
            v == spec_default_volume(mode),
        decreases volumes.len() - i,
    {
        let name = volumes[i].0.clone();
        volumes.set(i, (name, v));
        i = i + 1;
    }
}

/// The stored volume of a receiver, if the room has one for it.
pub open spec fn stored_volume(volumes: Seq<(String, u32)>, id: Seq<char>) -> Option<u32>
    decreases volumes.len(),
{
    if volumes.len() == 0 {
        None
    } else if volumes[0].0@ == id {
        Some(volumes[0].1)
    } else {
        stored_volume(volumes.drop_first(), id)
    }
}

fn find_volume(volumes: &Vec<(String, u32)>, id: &str) -> (r: Option<u32>)
    ensures
        r == stored_volume(volumes@, id@),
{
    let mut i: usize = 0;
    proof {
        assert(volumes@.skip(0) =~= volumes@);
    }
    while i < volumes.len()
        invariant
            i <= volumes@.len(),
            stored_volume(volumes@, id@) == stored_volume(volumes@.skip(i as int), id@),
        decreases volumes.len() - i,
    {
        proof {
            assert(volumes@.skip(i as int).drop_first() =~= volumes@.skip(i as int + 1));
            assert(volumes@.skip(i as int)[0] == volumes@[i as int]);
        }
        if str_eq(volumes[i].0.as_str(), id) {
            return Some(volumes[i].1);
        }
        i = i + 1;
    }
    proof {
        assert(volumes@.skip(i as int) =~= Seq::<(String, u32)>::empty());
    }
    None
}

/// What the registry knows of a receiver.
#[derive(Debug)]
pub struct ReceiverInfo {
    pub paired: bool,
    pub has_session: bool,
    pub maximum_safe_volume: Option<u32>,
}

/// What activating a room does for one receiver.
#[derive(Debug, Clone, Copy, PartialEq, Eq, Structural)]
pub enum ActivationStep {
    /// The receiver is not registered.
    NotFound,
    /// The receiver is not paired.
    NotPaired,
    /// Start a session at this volume, then set it.
    StartSession { volume: u32 },
    /// The receiver already streams: set this volume.
    SetVolume { volume: u32 },
}

/// The volume a receiver plays at in a room: its stored volume or the
/// mode's default, capped at the receiver's safe maximum.
pub open spec fn room_volume(
    volumes: Seq<(String, u32)>,
    id: Seq<char>,
    mode: RoomMode,
    max_safe: Option<u32>,
) -> u32 {
    let v = match stored_volume(volumes, id) {
        Some(v) => v,
        None => spec_default_volume(mode),
    };
    match max_safe {
        Some(m) => if v < m {
            v
        } else {
            m
        },
        None => v,
    }
}

/// The step for one receiver of a room group being activated.
pub open spec fn spec_activation_step(
    info: Option<ReceiverInfo>,
    volumes: Seq<(String, u32)>,
    id: Seq<char>,
    mode: RoomMode,
) -> ActivationStep {
    match info {
        None => ActivationStep::NotFound,
        Some(i) => if !i.paired {
            ActivationStep::NotPaired
        } else {
            let v = room_volume(volumes, id, mode, i.maximum_safe_volume);
            if i.has_session {
                ActivationStep::SetVolume { volume: v }
            } else {
                ActivationStep::StartSession { volume: v }
            }
        },
    }
}

/// Decides the step for one receiver of a room group being activated.
pub fn activation_step(info: &Option<ReceiverInfo>, volumes: &Vec<(String, u32)>, id: &str, mode: RoomMode) -> (r:
    ActivationStep)
    ensures
        r == spec_activation_step(*info, volumes@, id@, mode),
{
    match info {
        None => ActivationStep::NotFound,
        Some(i) => {
            if !i.paired {
                return ActivationStep::NotPaired;
            }
            let v: u32 = match find_volume(volumes, id) {
                Some(v) => v,
                None => mode.default_volume(),
            };
            let capped: u32 = match i.maximum_safe_volume {
                Some(m) => if v < m {
                    v
                } else {
                    m
                },
                None => v,
            };
            if i.has_session {
                ActivationStep::SetVolume { volume: capped }
            } else {
                ActivationStep::StartSession { volume: capped }
            }
        },
    }
}

/// The outcome of activating a room group with `succeeded` of `total`
/// receivers active: all of them is `active`, some is `partial`, none
/// fails.
pub fn activation_outcome(succeeded: usize, total: usize) -> (r: Result<&'static str, RoomError>)
    ensures
        total == 0 ==> r matches Err(RoomError::EmptyRoom),
        total > 0 && succeeded == 0 ==> r matches Err(RoomError::ActivationFailed),
        total > 0 && succeeded > 0 ==> (r matches Ok(s) && s@ == (if succeeded == total {
            "active"@
        } else {
            "partial"@
        })),
{
    if total == 0 {
        return Err(RoomError::EmptyRoom);
    }
    if succeeded == 0 {
        return Err(RoomError::ActivationFailed);
    }
    if succeeded == total {
        Ok("active")
    } else {
        Ok("partial")
    }
}

/// The status of deactivating a room group: no failure is `deactivated`,
/// failures beside stopped receivers `partial`, only failures `failed`.
pub fn deactivation_status(stopped: usize, failed: usize) -> (s: &'static str)
    ensures
        s@ == (if failed == 0 {
            "deactivated"@
        } else if stopped > 0 {
            "partial"@
        } else {
            "failed"@
        }),
{
    if failed == 0 {
        "deactivated"
    } else if stopped > 0 {
        "partial"
    } else {
        "failed"
    }
}

/// Whether any receiver of a room is streaming (`active[i]` for the
/// `i`-th registered member).
pub fn any_active(active: &Vec<bool>) -> (r: bool)
    ensures
        r == exists|i: int| 0 <= i < active@.len() && active@[i],
{
    let mut i: usize = 0;
    while i < active.len()
        invariant
            i <= active@.len(),
            forall|k: int| 0 <= k < i ==> !active@[k],
        decreases active.len() - i,
    {
        if active[i] {
            return true;
        }
        i = i + 1;
    }
    false
}

/// The first stored room group whose id text or name is `id`.
pub open spec fn room_by_id_or_name(groups: Seq<(u128, String)>, id: Seq<char>) -> Option<int>
    decreases groups.len(),
{
    if groups.len() == 0 {
        None
    } else if uuid_text(groups[0].0) == id || groups[0].1@ == id {
        Some(0)
    } else {
        match room_by_id_or_name(groups.drop_first(), id) {
            Some(k) => Some(k + 1),
            None => None,
        }
    }
}

proof fn lemma_room_by(groups: Seq<(u128, String)>, id: Seq<char>, k: int)
    requires
        0 <= k <= groups.len(),
        forall|j: int|
            0 <= j < k ==> uuid_text((#[trigger] groups[j]).0) != id && groups[j].1@ != id,
    ensures
        k < groups.len() && (uuid_text(groups[k].0) == id || groups[k].1@ == id)
            ==> room_by_id_or_name(groups, id) == Some(k),
        k == groups.len() ==> room_by_id_or_name(groups, id) is None,
    decreases k,
{
    if k > 0 {
        assert forall|j: int| 0 <= j < k - 1 implies uuid_text((#[trigger] groups.drop_first()[j]).0)
            != id && groups.drop_first()[j].1@ != id by {
            assert(groups.drop_first()[j] == groups[j + 1]);
        }
        lemma_room_by(groups.drop_first(), id, k - 1);
    }
}

/// Finds the room group that a play request names, by id or by name.
pub fn find_room(groups: &Vec<(u128, String)>, id: &str) -> (r: Option<usize>)
    ensures
        match r {
            Some(k) => room_by_id_or_name(groups@, id@) == Some(k as int),
            None => room_by_id_or_name(groups@, id@) is None,
        },
{
    let mut i: usize = 0;
    while i < groups.len()
        invariant
            i <= groups@.len(),
            forall|j: int|
                0 <= j < i ==> uuid_text((#[trigger] groups@[j]).0) != id@ && groups@[j].1@ != id@,
        decreases groups.len() - i,
    {
        let t = crate::deps::uuid_string(groups[i].0);
        if str_eq(t.as_str(), id) || str_eq(groups[i].1.as_str(), id) {
            proof {
                lemma_room_by(groups@, id@, i as int);
            }
            return Some(i);
        }
        i = i + 1;
    }
    proof {
        lemma_room_by(groups@, id@, i as int);
    }
    None
}

/// A snapcast call that failed.
#[derive(Debug)]
pub enum SnapcastFailure {
    Transport(String),
    Timeout,
    HttpStatus(u16),
    Other(String),
}

/// The HTTP status with which a failed snapcast call is answered: 503 when
/// snapcast cannot be reached, the status it answered where that is a valid
/// status code, 502 otherwise.
pub fn snapcast_status(f: &SnapcastFailure) -> (s: u16)
    ensures
        s == (match f {
            SnapcastFailure::Transport(_) => 503u16,
            SnapcastFailure::Timeout => 503u16,
            SnapcastFailure::HttpStatus(c) => if 100 <= *c <= 999 {
                *c
            } else {
                502u16
            },
            SnapcastFailure::Other(_) => 502u16,
        }),
{
    match f {
        SnapcastFailure::Transport(_) => 503,
        SnapcastFailure::Timeout => 503,
        SnapcastFailure::HttpStatus(c) => if 100 <= *c && *c <= 999 {
            *c
        } else {
            502
        },
        SnapcastFailure::Other(_) => 502,
    }
}

/// A request for a speaker group.
#[derive(Debug)]
pub struct CreateGroupBody {
    pub name: String,
    pub receiver_ids: Vec<String>,
}

/// A request to synchronise a speaker group.
#[derive(Debug)]
pub struct SyncGroupBody {
    pub track_id: String,
    pub position_ms: u64,
    pub playing: bool,
}

/// A speaker group.
#[derive(Debug)]
pub struct SpeakerGroup {
    pub id: String,
    pub name: String,
    pub receiver_ids: Vec<String>,
    pub created_at: String,
}

/// The speaker groups, in the order they were created.
#[derive(Debug)]
pub struct SpeakerGroups {
    pub groups: Vec<SpeakerGroup>,
}

impl SpeakerGroups {
    /// Creates a speaker group with a fresh id; a blank name is refused.
    pub fn create(&mut self, id: String, body: CreateGroupBody, created_at: String) -> (r: Result<
        usize,
        RoomError,
    >)
        ensures
            trim(body.name@).len() == 0 ==> (r matches Err(RoomError::Validation(m)) && m@
                == "group name is required"@ && final(self).groups@ == old(self).groups@),
            trim(body.name@).len() > 0 ==> (r matches Ok(k) && k == old(self).groups@.len()
                && final(self).groups@.len() == old(self).groups@.len() + 1
                && final(self).groups@.take(k as int) == old(self).groups@
                && final(self).groups@[k as int].id@ == id@
                && final(self).groups@[k as int].name@ == body.name@),
    {
        let t = trim_chars(chars_of(body.name.as_str()).as_slice());
        if t.len() == 0 {
            return Err(RoomError::Validation(String::from_str("group name is required")));
        }
        let k = self.groups.len();
        self.groups.push(
            SpeakerGroup { id, name: body.name, receiver_ids: body.receiver_ids, created_at },
        );
        proof {
            assert(self.groups@.take(k as int) =~= old(self).groups@);
        }
        Ok(k)
    }

    /// The speaker group with this id, for synchronising; unknown ids are
    /// refused.
    pub fn find(&self, id: &str) -> (r: Result<usize, RoomError>)
        ensures
            match r {
                Ok(k) => k < self.groups@.len() && self.groups@[k as int].id@ == id@ && forall|j: int|
                    0 <= j < k ==> (#[trigger] self.groups@[j]).id@ != id@,
                Err(e) => (e matches RoomError::SpeakerGroupNotFound(x) && x@ == id@) && forall|j: int|
                    0 <= j < self.groups@.len() ==> (#[trigger] self.groups@[j]).id@ != id@,
            },
    {
        let mut i: usize = 0;
        while i < self.groups.len()
            invariant
                i <= self.groups@.len(),
                forall|j: int| 0 <= j < i ==> (#[trigger] self.groups@[j]).id@ != id@,
            decreases self.groups.len() - i,
        {
            if str_eq(self.groups[i].id.as_str(), id) {
                return Ok(i);
            }
            i = i + 1;
        }
        Err(RoomError::SpeakerGroupNotFound(String::from_str(id)))
    }
}

/// A request to pair a receiver.
#[derive(Debug)]
pub struct ReceiverPairStartBody {
    pub base_url: String,
    pub initiator_id: Option<String>,
}

/// A confirmation of a receiver pairing.
#[derive(Debug)]
pub struct ReceiverPairConfirmBody {
    pub pairing_id: String,
    pub pin: String,
}

/// A request to discover and pair a receiver.
#[derive(Debug)]
pub struct DiscoverReceiverBody {
    pub base_url: String,
    pub initiator_id: Option<String>,
    pub pin: Option<String>,
}

/// A request to start a receiver session.
#[derive(Debug)]
pub struct ReceiverSessionStartBody {
    pub session_id: String,
    pub codec: String,
    pub sample_rate: u32,
    pub bit_depth: u32,
    pub channels: u32,
    pub stream_port: u16,
    pub buffer_ms: u64,
    pub volume: u32,
}

/// A receiver volume change.
#[derive(Debug)]
pub struct ReceiverVolumeBody {
    pub volume: u32,
}

/// Who pairs with a receiver: the given initiator, else this server.
pub fn initiator(id: Option<String>) -> (r: String)
    ensures
        r@ == (match id {
            Some(i) => i@,
            None => "michi-micro-server"@,
        }),
{
    match id {
        Some(i) => i,
        None => String::from_str("michi-micro-server"),
    }
}

/// The PIN of a receiver pairing, which must not be blank
/// (`400 INVALID_REQUEST` with `message`).
pub fn required_pin(pin: Option<&str>, message: &str) -> (r: Result<String, String>)
    ensures
        match pin {
            Some(p) => if trim(p@).len() > 0 {
                r matches Ok(x) && x@ == p@
            } else {
                r matches Err(m) && m@ == message@
            },
            None => r matches Err(m) && m@ == message@,
        },
{
    match pin {
        Some(p) => {
            let t = trim_chars(chars_of(p).as_slice());
            if t.len() > 0 {
                Ok(String::from_str(p))
            } else {
                Err(String::from_str(message))
            }
        },
        None => Err(String::from_str(message)),
    }
}

/// The stored name of a mode reads back as that mode.
pub proof fn law_mode_name_round_trip(m: RoomMode)
    ensures
        spec_room_mode(spec_mode_name(m)) == m,
{
    reveal_strlit("party");
    reveal_strlit("relax");
    reveal_strlit("custom");
    assert("relax"@[0] != "party"@[0]);
    assert("custom"@[0] != "party"@[0]);
    assert("custom"@[0] != "relax"@[0]);
}


/// A receiver with a safe maximum never plays a room above it, whatever
/// volume is stored for it and whatever the room's mode.
pub proof fn law_room_volume_capped(volumes: Seq<(String, u32)>, id: Seq<char>, mode: RoomMode, max_safe: u32)
    ensures
        room_volume(volumes, id, mode, Some(max_safe)) <= max_safe,
{
}


/// The volume an activation step sets, if it sets one.
pub open spec fn step_volume(s: ActivationStep) -> Option<u32> {
    match s {
        ActivationStep::StartSession { volume } => Some(volume),
        ActivationStep::SetVolume { volume } => Some(volume),
        _ => None,
    }
}

/// Activating a room sets a paired receiver to its stored volume (the
/// mode's default where none is stored), never above the receiver's safe
/// maximum, and to the same volume whether or not it already streams: a
/// receiver that streams gets its volume set, one that does not gets a
/// session started at it.  Unknown and unpaired receivers get no volume.
pub proof fn law_activation_volume_capped(
    info: ReceiverInfo,
    volumes: Seq<(String, u32)>,
    id: Seq<char>,
    mode: RoomMode,
)
    ensures
        ({
            let step = spec_activation_step(Some(info), volumes, id, mode);
            let wanted: u32 = match stored_volume(volumes, id) {
                Some(v) => v,
                None => spec_default_volume(mode),
            };
            &&& !info.paired ==> step == ActivationStep::NotPaired
            &&& info.paired ==> (step_volume(step) matches Some(v) && v <= wanted && (
            info.maximum_safe_volume matches Some(m) ==> v <= m && (v == wanted || v == m)) && (
            info.maximum_safe_volume is None ==> v == wanted))
            &&& info.paired ==> (info.has_session <==> step is SetVolume)
            &&& info.paired ==> (!info.has_session <==> step is StartSession)
        }),
        step_volume(
            spec_activation_step(Some(ReceiverInfo { has_session: true, ..info }), volumes, id, mode),
        ) == step_volume(
            spec_activation_step(Some(ReceiverInfo { has_session: false, ..info }), volumes, id, mode),
        ),
        spec_activation_step(None, volumes, id, mode) == ActivationStep::NotFound,
{
}
} // verus!
