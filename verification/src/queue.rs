//! The active play queue: the checks that requests on it must pass and the
//! positions that its items get.
use vstd::prelude::*;
use vstd::string::StringExecFns;

use crate::deps::{parse_uuid, uuid_error_text, uuid_parsed, uuid_string, uuid_text};
use crate::text::{append_decimal, decimal, find_first, first_index, lemma_first_index_bound};

verus! {

/// A stored queue item: its id and track id as stored (UUID text) and its
/// position in the queue.
#[derive(Debug)]
pub struct QueueItem {
    pub id: String,
    pub track_id: String,
    pub position: i64,
}

/// A request to append tracks to the active queue.
#[derive(Debug)]
pub struct QueueItemsBody {
    pub track_ids: Vec<u128>,
    pub name: Option<String>,
}

/// A request to jump to a queue index.
#[derive(Debug)]
pub struct QueueJumpBody {
    pub index: u32,
    pub queue_id: Option<u128>,
}

/// A request to take over a player's queue.
#[derive(Debug)]
pub struct QueueTransferBody {
    pub track_ids: Vec<u128>,
    pub current_index: u32,
    pub position_ms: u64,
    pub source: String,
}

/// A request to put a queue's items in a new order.
#[derive(Debug)]
pub struct QueueReorderBody {
    pub item_ids: Vec<u128>,
    pub queue_id: Option<u128>,
}

/// A request to delete a queue.
#[derive(Debug)]
pub struct QueueDeleteBody {
    pub queue_id: u128,
}

/// A request to save a queue for another device.
#[derive(Debug)]
pub struct QueueSaveBody {
    pub track_ids: Vec<u128>,
    pub current_index: u32,
    pub position_ms: u64,
}

/// A refused queue request.
#[derive(Debug)]
pub enum QueueError {
    /// `400 INVALID_REQUEST`: nothing to append.
    NoTracksToAdd,
    /// `404 TRACK_NOT_FOUND`: the track is not in the library.
    TrackNotFound(u128),
    /// `400 QUEUE_EMPTY`.
    QueueEmpty,
    /// `400 INVALID_INDEX`: the index lies past the end of the queue.
    InvalidIndex { index: u32, len: u64 },
    /// `500 INVALID_TRACK_ID`: the stored track id is no UUID.
    InvalidTrackId(String),
    /// `400 INVALID_REQUEST`: nothing to transfer.
    NoTracksToTransfer,
    /// `400 INVALID_INDEX`: the transferred index lies past the end.
    TransferIndexOutOfRange,
    /// `400 UNKNOWN_TRACKS`: these tracks are not in the library.
    UnknownTracks(Vec<u128>),
    /// `400 COUNT_MISMATCH`: the new order does not name every item.
    CountMismatch { expected: u64, got: u64 },
    /// `400 UNKNOWN_ITEM_ID`: the item is not in the queue.
    UnknownItemId { item: u128, queue: u128 },
}

/// The error code of a refused queue request.
pub open spec fn queue_error_code(e: QueueError) -> Seq<char> {
    match e {
        QueueError::NoTracksToAdd => "INVALID_REQUEST"@,
        QueueError::TrackNotFound(_) => "TRACK_NOT_FOUND"@,
        QueueError::QueueEmpty => "QUEUE_EMPTY"@,
        QueueError::InvalidIndex { .. } => "INVALID_INDEX"@,
        QueueError::InvalidTrackId(_) => "INVALID_TRACK_ID"@,
        QueueError::NoTracksToTransfer => "INVALID_REQUEST"@,
        QueueError::TransferIndexOutOfRange => "INVALID_INDEX"@,
        QueueError::UnknownTracks(_) => "UNKNOWN_TRACKS"@,
        QueueError::CountMismatch { .. } => "COUNT_MISMATCH"@,
        QueueError::UnknownItemId { .. } => "UNKNOWN_ITEM_ID"@,
    }
}

/// The text of a list of UUIDs as `[a, b, c]`.
pub open spec fn uuid_list_text(ids: Seq<u128>) -> Seq<char>
    decreases ids.len(),
{
    if ids.len() == 0 {
        "[]"@
    } else {
        "["@ + uuid_list_items(ids) + "]"@
    }
}

/// The UUIDs of a list, separated by `, `.
pub open spec fn uuid_list_items(ids: Seq<u128>) -> Seq<char>
    decreases ids.len(),
{
    if ids.len() == 0 {
        Seq::empty()
    } else if ids.len() == 1 {
        uuid_text(ids[0])
    } else {
        uuid_list_items(ids.drop_last()) + ", "@ + uuid_text(ids.last())
    }
}

/// The message of a refused queue request.
pub open spec fn queue_error_message(e: QueueError) -> Seq<char> {
    match e {
        QueueError::NoTracksToAdd => "track_ids cannot be empty"@,
        QueueError::TrackNotFound(t) => "track "@ + uuid_text(t) + " not found"@,
        QueueError::QueueEmpty => "queue has no items"@,
        QueueError::InvalidIndex { index, len } => "index "@ + decimal(index as nat)
            + " out of bounds for queue length "@ + decimal(len as nat),
        QueueError::InvalidTrackId(m) => m@,
        QueueError::NoTracksToTransfer => "track_ids must not be empty"@,
        QueueError::TransferIndexOutOfRange => "current_index exceeds track_ids length"@,
        QueueError::UnknownTracks(ts) => "tracks not in library: "@ + uuid_list_text(ts@),
        QueueError::CountMismatch { expected, got } => "expected "@ + decimal(expected as nat)
            + " items, got "@ + decimal(got as nat),
        QueueError::UnknownItemId { item, queue } => "item "@ + uuid_text(item)
            + " does not belong to queue "@ + uuid_text(queue),
    }
}

fn append_uuid_list(s: &mut String, ids: &Vec<u128>)
    ensures
        final(s)@ == old(s)@ + uuid_list_text(ids@),
{
    if ids.len() == 0 {
        s.append("[]");
        return ;
    }
    s.append("[");
    let ghost start = s@;
    let mut i: usize = 0;
    while i < ids.len()
        invariant
            1 <= ids.len(),
            i <= ids.len(),
            s@ == start + uuid_list_items(ids@.take(i as int)),
        decreases ids.len() - i,
    {
        if i > 0 {
            s.append(", ");
        }
        let t = uuid_string(ids[i]);
        s.append(t.as_str());
        proof {
            let pre = ids@.take(i as int);
            let nxt = ids@.take(i as int + 1);
            assert(nxt.drop_last() =~= pre);
            assert(nxt.last() == ids@[i as int]);
            if i == 0 {
                assert(pre =~= Seq::<u128>::empty());
                assert(uuid_list_items(pre) =~= Seq::<char>::empty());
            }
        }
        i = i + 1;
    }
    s.append("]");
    proof {
        assert(ids@.take(ids@.len() as int) =~= ids@);
    }
}

impl QueueError {
    /// The error code.
    pub fn code(&self) -> (s: &'static str)
        ensures
            s@ == queue_error_code(*self),
    {
        match self {
            QueueError::NoTracksToAdd => "INVALID_REQUEST",
            QueueError::TrackNotFound(_) => "TRACK_NOT_FOUND",
            QueueError::QueueEmpty => "QUEUE_EMPTY",
            QueueError::InvalidIndex { .. } => "INVALID_INDEX",
            QueueError::InvalidTrackId(_) => "INVALID_TRACK_ID",
            QueueError::NoTracksToTransfer => "INVALID_REQUEST",
            QueueError::TransferIndexOutOfRange => "INVALID_INDEX",
            QueueError::UnknownTracks(_) => "UNKNOWN_TRACKS",
            QueueError::CountMismatch { .. } => "COUNT_MISMATCH",
            QueueError::UnknownItemId { .. } => "UNKNOWN_ITEM_ID",
        }
    }

    /// The HTTP status of the error.
    pub fn status(&self) -> (s: u16)
        ensures
            s == (match self {
                QueueError::TrackNotFound(_) => 404u16,
                QueueError::InvalidTrackId(_) => 500u16,
                _ => 400u16,
            }),
    {
        match self {
            QueueError::TrackNotFound(_) => 404,
            QueueError::InvalidTrackId(_) => 500,
            _ => 400,
        }
    }

    /// The error's message.
    pub fn message(&self) -> (s: String)
        ensures
            s@ == queue_error_message(*self),
    {
        match self {
            QueueError::NoTracksToAdd => String::from_str("track_ids cannot be empty"),
            QueueError::TrackNotFound(t) => {
                let mut s = String::from_str("track ");
                let u = uuid_string(*t);
                s.append(u.as_str());
                s.append(" not found");
                s
            },
            QueueError::QueueEmpty => String::from_str("queue has no items"),
            QueueError::InvalidIndex { index, len } => {
                let mut s = String::from_str("index ");
                append_decimal(&mut s, *index as u64);
                s.append(" out of bounds for queue length ");
                append_decimal(&mut s, *len);
                s
            },
            QueueError::InvalidTrackId(m) => m.clone(),
            QueueError::NoTracksToTransfer => String::from_str("track_ids must not be empty"),
            QueueError::TransferIndexOutOfRange => String::from_str(
                "current_index exceeds track_ids length",
            ),
            QueueError::UnknownTracks(ts) => {
                let mut s = String::from_str("tracks not in library: ");
                append_uuid_list(&mut s, ts);
                s
            },
            QueueError::CountMismatch { expected, got } => {
                let mut s = String::from_str("expected ");
                append_decimal(&mut s, *expected);
                s.append(" items, got ");
                append_decimal(&mut s, *got);
                s
            },
            QueueError::UnknownItemId { item, queue } => {
                let mut s = String::from_str("item ");
                let a = uuid_string(*item);
                s.append(a.as_str());
                s.append(" does not belong to queue ");
                let b = uuid_string(*queue);
                s.append(b.as_str());
                s
            },
        }
    }
}

/// The first index at which `found` is false.
pub open spec fn first_missing(found: Seq<bool>) -> Option<int>
    decreases found.len(),
{
    if found.len() == 0 {
        None
    } else if !found[0] {
        Some(0)
    } else {
        match first_missing(found.drop_first()) {
            Some(k) => Some(k + 1),
            None => None,
        }
    }
}

proof fn lemma_first_missing(found: Seq<bool>, k: int)
    requires
        0 <= k <= found.len(),
        forall|j: int| 0 <= j < k ==> found[j],
    ensures
        k < found.len() && !found[k] ==> first_missing(found) == Some(k),
        k == found.len() ==> first_missing(found) is None,
    decreases k,
{
    if k > 0 {
        assert forall|j: int| 0 <= j < k - 1 implies found.drop_first()[j] by {
            assert(found.drop_first()[j] == found[j + 1]);
        }
        lemma_first_missing(found.drop_first(), k - 1);
    }
}

/// Checks a request to append `track_ids`; `found[i]` says whether the
/// `i`-th track is in the library.  The first missing track is reported.
pub fn check_append(track_ids: &Vec<u128>, found: &Vec<bool>) -> (r: Result<(), QueueError>)
    requires
        found@.len() == track_ids@.len(),
    ensures
        track_ids@.len() == 0 ==> r matches Err(QueueError::NoTracksToAdd),
        track_ids@.len() > 0 ==> match first_missing(found@) {
            Some(k) => (r matches Err(QueueError::TrackNotFound(t)) && t == track_ids@[k]),
            None => r is Ok,
        },
{
    if track_ids.len() == 0 {
        return Err(QueueError::NoTracksToAdd);
    }
    let mut i: usize = 0;
    while i < found.len()
        invariant
            found@.len() == track_ids@.len(),
            i <= found@.len(),
            forall|j: int| 0 <= j < i ==> found@[j],
        decreases found.len() - i,
    {
        if !found[i] {
            proof {
                lemma_first_missing(found@, i as int);
            }
            return Err(QueueError::TrackNotFound(track_ids[i]));
        }
        i = i + 1;
    }
    proof {
        lemma_first_missing(found@, i as int);
    }
    Ok(())
}

/// The largest position in `positions`, or -1 when there is none.
pub open spec fn max_position(positions: Seq<i64>) -> int
    decreases positions.len(),
{
    if positions.len() == 0 {
        -1
    } else {
        let rest = max_position(positions.drop_last());
        if positions.last() > rest {
            positions.last() as int
        } else {
            rest
        }
    }
}

proof fn lemma_max_position_bounds(positions: Seq<i64>)
    ensures
        max_position(positions) >= -1,
        max_position(positions) <= i64::MAX,
        forall|j: int| 0 <= j < positions.len() ==> positions[j] <= max_position(positions),
    decreases positions.len(),
{
    if positions.len() > 0 {
        lemma_max_position_bounds(positions.drop_last());
        assert forall|j: int| 0 <= j < positions.len() implies positions[j] <= max_position(
            positions,
        ) by {
            if j < positions.len() - 1 {
                assert(positions[j] == positions.drop_last()[j]);
            }
        }
    }
}

/// The positions that `count` appended items take after the items at
/// `positions`: consecutive, from one past the largest.
pub fn append_positions(positions: &Vec<i64>, count: usize) -> (r: Vec<i64>)
    requires
        max_position(positions@) + count <= i64::MAX,
    ensures
        r@.len() == count,
        forall|k: int| 0 <= k < count ==> r@[k] == max_position(positions@) + 1 + k,
        forall|k: int, j: int|
            0 <= k < count && 0 <= j < positions@.len() ==> r@[k] > positions@[j],
{
    proof {
        lemma_max_position_bounds(positions@);
    }
    let mut max: i64 = -1;
    let mut i: usize = 0;
    while i < positions.len()
        invariant
            i <= positions@.len(),
            max == max_position(positions@.take(i as int)),
        decreases positions.len() - i,
    {
        proof {
            assert(positions@.take(i as int + 1).drop_last() =~= positions@.take(i as int));
        }
        if positions[i] > max {
            max = positions[i];
        }
        i = i + 1;
    }
    proof {
        assert(positions@.take(positions@.len() as int) =~= positions@);
    }
    let mut r: Vec<i64> = Vec::new();
    let mut k: usize = 0;
    while k < count
        invariant
            max == max_position(positions@),
            max + count <= i64::MAX,
            max >= -1,
            k <= count,
            r@.len() == k,
            forall|m: int| 0 <= m < k ==> r@[m] == max + 1 + m,
        decreases count - k,
    {
        r.push(max + 1 + k as i64);
        k = k + 1;
    }
    r
}

/// The queue index of the item whose track is `current`: the first such
/// item, or 0 where there is none.
pub open spec fn spec_current_index(track_ids: Seq<Seq<char>>, current: Option<u128>) -> int {
    match current {
        Some(t) => match first_index(track_ids, uuid_text(t)) {
            Some(k) => k,
            None => 0,
        },
        None => 0,
    }
}

/// The stored track ids of `items`, in order.
pub open spec fn item_tracks(items: Seq<QueueItem>) -> Seq<Seq<char>> {
    items.map_values(|it: QueueItem| it.track_id@)
}

fn track_texts(items: &Vec<QueueItem>) -> (v: Vec<String>)
    ensures
        v@.map_values(|x: String| x@) == item_tracks(items@),
{
    let mut v: Vec<String> = Vec::new();
    let mut i: usize = 0;
    while i < items.len()
        invariant
            i <= items@.len(),
            v@.map_values(|x: String| x@) =~= item_tracks(items@).take(i as int),
        decreases items.len() - i,
    {
        proof {
            assert(item_tracks(items@)[i as int] == items@[i as int].track_id@);
            assert(item_tracks(items@).take(i as int + 1) =~= item_tracks(items@).take(i as int).push(
                items@[i as int].track_id@,
            ));
        }
        v.push(items[i].track_id.clone());
        i = i + 1;
    }
    proof {
        assert(item_tracks(items@).take(items@.len() as int) =~= item_tracks(items@));
    }
    v
}

/// The index that the queue reports as current.
pub fn current_index(items: &Vec<QueueItem>, current: Option<u128>) -> (r: usize)
    ensures
        r as int == spec_current_index(item_tracks(items@), current),
        items@.len() > 0 ==> r < items@.len(),
{
    match current {
        Some(t) => {
            let texts = track_texts(items);
            let u = uuid_string(t);
            proof {
                lemma_first_index_bound(item_tracks(items@), u@);
            }
            match find_first(&texts, &u) {
                Some(k) => k,
                None => 0,
            }
        },
        None => 0,
    }
}

/// The track that a jump to `index` plays.
pub fn jump_target(items: &Vec<QueueItem>, index: u32) -> (r: Result<u128, QueueError>)
    ensures
        items@.len() == 0 ==> r matches Err(QueueError::QueueEmpty),
        items@.len() > 0 && index >= items@.len() ==> (r matches Err(
            QueueError::InvalidIndex { index: i, len },
        ) && i == index && len == items@.len()),
        0 <= index < items@.len() ==> match uuid_parsed(items@[index as int].track_id@) {
            Some(t) => r == Ok::<u128, QueueError>(t),
            None => r matches Err(QueueError::InvalidTrackId(m)) && m@ == uuid_error_text(
                items@[index as int].track_id@,
            ),
        },
{
    if items.len() == 0 {
        return Err(QueueError::QueueEmpty);
    }
    if index as usize >= items.len() {
        return Err(QueueError::InvalidIndex { index, len: items.len() as u64 });
    }
    match parse_uuid(items[index as usize].track_id.as_str()) {
        Ok(t) => Ok(t),
        Err(m) => Err(QueueError::InvalidTrackId(m)),
    }
}

/// The tracks of `track_ids` whose `found` entry is false, in order.
pub open spec fn missing_tracks(track_ids: Seq<u128>, found: Seq<bool>) -> Seq<u128>
    decreases track_ids.len(),
{
    if track_ids.len() == 0 {
        Seq::empty()
    } else {
        let rest = missing_tracks(track_ids.drop_last(), found.take(found.len() - 1));
        if found.last() {
            rest
        } else {
            rest.push(track_ids.last())
        }
    }
}

/// Checks a queue transfer: the tracks must be present, the index inside
/// them and every track in the library (`found[i]` for the `i`-th).
pub fn check_transfer(body: &QueueTransferBody, found: &Vec<bool>) -> (r: Result<(), QueueError>)
    requires
        found@.len() == body.track_ids@.len(),
    ensures
        body.track_ids@.len() == 0 ==> r matches Err(QueueError::NoTracksToTransfer),
        body.track_ids@.len() > 0 && body.current_index >= body.track_ids@.len() ==> r matches Err(
            QueueError::TransferIndexOutOfRange,
        ),
        body.current_index < body.track_ids@.len() ==> ({
            let missing = missing_tracks(body.track_ids@, found@);
            &&& missing.len() == 0 ==> r is Ok
            &&& missing.len() > 0 ==> (r matches Err(QueueError::UnknownTracks(ts)) && ts@
                == missing)
        }),
{
    if body.track_ids.len() == 0 {
        return Err(QueueError::NoTracksToTransfer);
    }
    if body.current_index as usize >= body.track_ids.len() {
        return Err(QueueError::TransferIndexOutOfRange);
    }
    let mut unknown: Vec<u128> = Vec::new();
    let mut i: usize = 0;
    while i < body.track_ids.len()
        invariant
            found@.len() == body.track_ids@.len(),
            i <= body.track_ids@.len(),
            unknown@ == missing_tracks(body.track_ids@.take(i as int), found@.take(i as int)),
        decreases body.track_ids.len() - i,
    {
        proof {
            let t = body.track_ids@.take(i as int + 1);
            let f = found@.take(i as int + 1);
            assert(t.drop_last() =~= body.track_ids@.take(i as int));
            assert(f.take(f.len() - 1) =~= found@.take(i as int));
        }
        if !found[i] {
            unknown.push(body.track_ids[i]);
        }
        i = i + 1;
    }
    proof {
        assert(body.track_ids@.take(i as int) =~= body.track_ids@);
        assert(found@.take(i as int) =~= found@);
    }
    if unknown.len() > 0 {
        return Err(QueueError::UnknownTracks(unknown));
    }
    Ok(())
}

/// Plans a reorder of the queue `queue_id` whose stored item ids are
/// `existing`: the `k`-th requested item goes to position `k`.  The request
/// must name as many items as the queue holds, each of them in the queue.
pub fn plan_reorder(existing: &Vec<String>, body: &QueueReorderBody, queue_id: u128) -> (r: Result<
    Vec<(u128, i64)>,
    QueueError,
>)
    ensures
        existing@.len() != body.item_ids@.len() ==> (r matches Err(
            QueueError::CountMismatch { expected, got },
        ) && expected == existing@.len() && got == body.item_ids@.len()),
        existing@.len() == body.item_ids@.len() ==> match first_unknown(
            existing@.map_values(|x: String| x@),
            body.item_ids@,
        ) {
            Some(k) => r matches Err(QueueError::UnknownItemId { item, queue }) && item
                == body.item_ids@[k] && queue == queue_id,
            None => r matches Ok(plan) && plan@.len() == body.item_ids@.len() && forall|k: int|
                0 <= k < plan@.len() ==> (#[trigger] plan@[k]) == (body.item_ids@[k], k as i64),
        },
{
    if existing.len() != body.item_ids.len() {
        return Err(
            QueueError::CountMismatch {
                expected: existing.len() as u64,
                got: body.item_ids.len() as u64,
            },
        );
    }
    let ghost ex = existing@.map_values(|x: String| x@);
    let mut i: usize = 0;
    while i < body.item_ids.len()
        invariant
            ex == existing@.map_values(|x: String| x@),
            existing@.len() == body.item_ids@.len(),
            i <= body.item_ids@.len(),
            forall|j: int| 0 <= j < i ==> #[trigger] first_index(ex, uuid_text(body.item_ids@[j])) is Some,
        decreases body.item_ids.len() - i,
    {
        let text = uuid_string(body.item_ids[i]);
        if find_first(existing, &text).is_none() {
            proof {
                lemma_first_unknown(ex, body.item_ids@, i as int);
            }
            return Err(QueueError::UnknownItemId { item: body.item_ids[i], queue: queue_id });
        }
        i = i + 1;
    }
    proof {
        lemma_first_unknown(ex, body.item_ids@, i as int);
    }
    let mut plan: Vec<(u128, i64)> = Vec::new();
    let mut k: usize = 0;
    while k < body.item_ids.len()
        invariant
            body.item_ids@.len() == existing@.len(),
            k <= body.item_ids@.len(),
            plan@.len() == k,
            forall|m: int| 0 <= m < k ==> (#[trigger] plan@[m]) == (body.item_ids@[m], m as i64),
        decreases body.item_ids.len() - k,
    {
        proof {
            assert(existing@.len() <= usize::MAX);
        }
        plan.push((body.item_ids[k], k as i64));
        k = k + 1;
    }
    Ok(plan)
}

/// The first requested item whose UUID text is not among `existing`.
pub open spec fn first_unknown(existing: Seq<Seq<char>>, ids: Seq<u128>) -> Option<int>
    decreases ids.len(),
{
    if ids.len() == 0 {
        None
    } else if first_index(existing, uuid_text(ids[0])) is None {
        Some(0)
    } else {
        match first_unknown(existing, ids.drop_first()) {
            Some(k) => Some(k + 1),
            None => None,
        }
    }
}

proof fn lemma_first_unknown(existing: Seq<Seq<char>>, ids: Seq<u128>, k: int)
    requires
        0 <= k <= ids.len(),
        forall|j: int| 0 <= j < k ==> #[trigger] first_index(existing, uuid_text(ids[j])) is Some,
    ensures
        k < ids.len() && first_index(existing, uuid_text(ids[k])) is None ==> first_unknown(
            existing,
            ids,
        ) == Some(k),
        k == ids.len() ==> first_unknown(existing, ids) is None,
    decreases k,
{
    if k > 0 {
        assert forall|j: int| 0 <= j < k - 1 implies #[trigger] first_index(
            existing,
            uuid_text(ids.drop_first()[j]),
        ) is Some by {
            assert(ids.drop_first()[j] == ids[j + 1]);
        }
        lemma_first_unknown(existing, ids.drop_first(), k - 1);
    }
}


proof fn lemma_found_is_contained(items: Seq<Seq<char>>, s: Seq<char>)
    requires
        first_index(items, s) is Some,
    ensures
        items.contains(s),
    decreases items.len(),
{
    if items[0] != s {
        lemma_found_is_contained(items.drop_first(), s);
        let k = choose|k: int| 0 <= k < items.drop_first().len() && items.drop_first()[k] == s;
        assert(items[k + 1] == s);
    } else {
        assert(items[0] == s);
    }
}

proof fn lemma_all_known(existing: Seq<Seq<char>>, ids: Seq<u128>)
    requires
        first_unknown(existing, ids) is None,
    ensures
        forall|k: int| 0 <= k < ids.len() ==> existing.contains(#[trigger] uuid_text(ids[k])),
    decreases ids.len(),
{
    if ids.len() > 0 {
        lemma_found_is_contained(existing, uuid_text(ids[0]));
        lemma_all_known(existing, ids.drop_first());
        assert forall|k: int| 0 <= k < ids.len() implies existing.contains(#[trigger] uuid_text(ids[k])) by {
            if k > 0 {
                assert(ids[k] == ids.drop_first()[k - 1]);
            }
        }
    }
}

/// The texts of a list of item ids.
pub open spec fn id_texts(ids: Seq<u128>) -> Seq<Seq<char>> {
    ids.map_values(|i: u128| uuid_text(i))
}

/// A reorder that names as many items as the queue holds, each of them in
/// the queue and none twice, names every item of the queue: the new order
/// is a permutation of the old one.
pub proof fn law_reorder_is_permutation(existing: Seq<Seq<char>>, ids: Seq<u128>)
    requires
        existing.len() == ids.len(),
        first_unknown(existing, ids) is None,
        existing.no_duplicates(),
        id_texts(ids).no_duplicates(),
    ensures
        forall|e: Seq<char>|
            existing.contains(e) ==> exists|k: int| 0 <= k < ids.len() && #[trigger] uuid_text(ids[k]) == e,
{
    lemma_all_known(existing, ids);
    let t = id_texts(ids);
    let ts = t.to_set();
    let es = existing.to_set();
    t.unique_seq_to_set();
    existing.unique_seq_to_set();
    assert forall|x: Seq<char>| ts.contains(x) implies es.contains(x) by {
        let k = choose|k: int| 0 <= k < t.len() && t[k] == x;
        assert(t[k] == uuid_text(ids[k]));
        assert(existing.contains(uuid_text(ids[k])));
    }
    assert(ts.subset_of(es));
    vstd::set_lib::lemma_subset_equality(ts, es);
    assert forall|e: Seq<char>| existing.contains(e) implies exists|k: int|
        0 <= k < ids.len() && #[trigger] uuid_text(ids[k]) == e by {
        assert(es.contains(e));
        assert(ts.contains(e));
        let k = choose|k: int| 0 <= k < t.len() && t[k] == e;
        assert(uuid_text(ids[k]) == e);
    }
}

} // verus!
