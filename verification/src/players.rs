//! Players and saved queues as the API lists and creates them.
use vstd::prelude::*;
use vstd::string::StringExecFns;

use crate::deps::{uuid_string, uuid_text};

verus! {

/// A registered player.
#[derive(Debug)]
pub struct PlayerInfo {
    pub id: String,
    pub name: String,
    pub kind: String,
    pub state: String,
    pub volume: i32,
    pub muted: bool,
    pub current_track_id: Option<String>,
    pub position_ms: i64,
    pub last_seen: Option<String>,
}

/// A saved queue with its items.
#[derive(Debug)]
pub struct QueueInfo {
    pub id: String,
    pub name: String,
    pub player_id: Option<String>,
    pub current_index: i32,
    pub repeat_mode: String,
    pub shuffle: bool,
    pub items: Vec<QueueItemInfo>,
}

/// An item of a saved queue.
#[derive(Debug)]
pub struct QueueItemInfo {
    pub id: String,
    pub track_id: String,
    pub position: i32,
}

/// A request to register a player.
#[derive(Debug)]
pub struct CreatePlayerRequest {
    pub name: String,
    pub kind: Option<String>,
}

/// A request to save a queue.
#[derive(Debug)]
pub struct CreateQueueRequest {
    pub name: String,
    pub track_ids: Vec<String>,
}

/// A player as stored: volume and flags are read from their columns.
pub fn player_from_row(
    id: String,
    name: String,
    kind: String,
    state: String,
    volume: i64,
    muted: i64,
    current_track_id: Option<String>,
    position_ms: i64,
    last_seen: Option<String>,
) -> (p: PlayerInfo)
    ensures
        p.id@ == id@ && p.name@ == name@ && p.kind@ == kind@ && p.state@ == state@,
        p.volume == volume as i32,
        p.muted == (muted != 0),
        p.current_track_id == current_track_id,
        p.position_ms == position_ms,
        p.last_seen == last_seen,
{
    PlayerInfo {
        id,
        name,
        kind,
        state,
        volume: volume as i32,
        muted: muted != 0,
        current_track_id,
        position_ms,
        last_seen,
    }
}

/// A newly registered player: idle at volume 80, unmuted, of kind `webui`
/// unless the request names one.
pub fn new_player(id: u128, body: CreatePlayerRequest) -> (p: PlayerInfo)
    ensures
        p.id@ == uuid_text(id),
        p.name@ == body.name@,
        p.kind@ == (match body.kind {
            Some(k) => k@,
            None => "webui"@,
        }),
        p.state@ == "idle"@,
        p.volume == 80,
        !p.muted,
        p.current_track_id is None,
        p.position_ms == 0,
        p.last_seen is None,
{
    let kind = match body.kind {
        Some(k) => k,
        None => String::from_str("webui"),
    };
    PlayerInfo {
        id: uuid_string(id),
        name: body.name,
        kind,
        state: String::from_str("idle"),
        volume: 80,
        muted: false,
        current_track_id: None,
        position_ms: 0,
        last_seen: None,
    }
}

/// A queue item as stored.
pub fn queue_item_from_row(id: String, track_id: String, position: i64) -> (q: QueueItemInfo)
    ensures
        q.id@ == id@,
        q.track_id@ == track_id@,
        q.position == position as i32,
{
    QueueItemInfo { id, track_id, position: position as i32 }
}

/// A newly saved queue: its items take the given ids and the positions of
/// their tracks in the request; it starts at index 0, repeat `none`,
/// unshuffled and without a player.
pub fn new_queue(queue_id: u128, body: &CreateQueueRequest, item_ids: &Vec<u128>) -> (q: QueueInfo)
    requires
        item_ids@.len() == body.track_ids@.len(),
        body.track_ids@.len() <= i32::MAX,
    ensures
        q.id@ == uuid_text(queue_id),
        q.name@ == body.name@,
        q.player_id is None,
        q.current_index == 0,
        q.repeat_mode@ == "none"@,
        !q.shuffle,
        q.items@.len() == body.track_ids@.len(),
        forall|i: int|
            0 <= i < q.items@.len() ==> (#[trigger] q.items@[i]).id@ == uuid_text(item_ids@[i])
                && q.items@[i].track_id@ == body.track_ids@[i]@ && q.items@[i].position == i,
{
    let mut items: Vec<QueueItemInfo> = Vec::new();
    let mut i: usize = 0;
    while i < body.track_ids.len()
        invariant
            item_ids@.len() == body.track_ids@.len(),
            body.track_ids@.len() <= i32::MAX,
            i <= body.track_ids@.len(),
            items@.len() == i,
            forall|k: int|
                0 <= k < i ==> (#[trigger] items@[k]).id@ == uuid_text(item_ids@[k])
                    && items@[k].track_id@ == body.track_ids@[k]@ && items@[k].position == k,
        decreases body.track_ids.len() - i,
    {
        items.push(
            QueueItemInfo {
                id: uuid_string(item_ids[i]),
                track_id: body.track_ids[i].clone(),
                position: i as i32,
            },
        );
        i = i + 1;
    }
    QueueInfo {
        id: uuid_string(queue_id),
        name: body.name.clone(),
        player_id: None,
        current_index: 0,
        repeat_mode: String::from_str("none"),
        shuffle: false,
        items,
    }
}

} // verus!
