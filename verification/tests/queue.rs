use michi_api::queue::{
    append_positions, check_append, check_transfer, current_index, jump_target, plan_reorder,
    QueueError, QueueItem, QueueReorderBody, QueueTransferBody,
};

fn id_text(id: u128) -> String {
    uuid::Uuid::from_u128(id).to_string()
}

fn items(tracks: &[u128]) -> Vec<QueueItem> {
    tracks
        .iter()
        .enumerate()
        .map(|(i, &t)| QueueItem { id: id_text(100 + i as u128), track_id: id_text(t), position: i as i64 })
        .collect()
}

#[test]
fn append_needs_tracks_that_exist() {
    let e = check_append(&vec![], &vec![]).unwrap_err();
    assert_eq!(e.code(), "INVALID_REQUEST");
    assert_eq!(e.status(), 400);
    assert_eq!(e.message(), "track_ids cannot be empty");
    let e = check_append(&vec![1, 2, 3], &vec![true, false, false]).unwrap_err();
    assert!(matches!(e, QueueError::TrackNotFound(2)));
    assert_eq!(e.status(), 404);
    assert_eq!(e.message(), format!("track {} not found", id_text(2)));
    assert!(check_append(&vec![1, 2], &vec![true, true]).is_ok());
}

#[test]
fn appended_items_follow_the_largest_position() {
    assert_eq!(append_positions(&vec![3, 9, 4], 3), vec![10, 11, 12]);
    assert_eq!(append_positions(&vec![], 2), vec![0, 1]);
}

#[test]
fn current_index_finds_the_track_or_starts_at_zero() {
    let q = items(&[5, 6, 7]);
    assert_eq!(current_index(&q, Some(7)), 2);
    assert_eq!(current_index(&q, Some(8)), 0);
    assert_eq!(current_index(&q, None), 0);
}

#[test]
fn jump_target_checks_the_index() {
    let q = items(&[5, 6, 7]);
    assert_eq!(jump_target(&q, 1).unwrap(), 6);
    let e = jump_target(&q, 3).unwrap_err();
    assert_eq!(e.code(), "INVALID_INDEX");
    assert_eq!(e.message(), "index 3 out of bounds for queue length 3");
    let e = jump_target(&vec![], 0).unwrap_err();
    assert_eq!(e.code(), "QUEUE_EMPTY");
    assert_eq!(e.message(), "queue has no items");
    let bad = vec![QueueItem { id: "x".to_string(), track_id: "not-a-uuid".to_string(), position: 0 }];
    let e = jump_target(&bad, 0).unwrap_err();
    assert_eq!(e.code(), "INVALID_TRACK_ID");
    assert_eq!(e.status(), 500);
}

#[test]
fn transfer_checks_tracks_and_index() {
    let body = |ids: Vec<u128>, idx: u32| QueueTransferBody {
        track_ids: ids,
        current_index: idx,
        position_ms: 0,
        source: "phone".to_string(),
    };
    let e = check_transfer(&body(vec![], 0), &vec![]).unwrap_err();
    assert_eq!(e.message(), "track_ids must not be empty");
    let e = check_transfer(&body(vec![1, 2], 2), &vec![true, true]).unwrap_err();
    assert_eq!(e.message(), "current_index exceeds track_ids length");
    let e = check_transfer(&body(vec![1, 2, 3], 0), &vec![false, true, false]).unwrap_err();
    assert_eq!(e.code(), "UNKNOWN_TRACKS");
    assert_eq!(e.message(), format!("tracks not in library: [{}, {}]", id_text(1), id_text(3)));
    assert!(check_transfer(&body(vec![1, 2], 1), &vec![true, true]).is_ok());
}

#[test]
fn reorder_names_every_item_once() {
    let existing = vec![id_text(10), id_text(11), id_text(12)];
    let b = QueueReorderBody { item_ids: vec![12, 10, 11], queue_id: None };
    assert_eq!(plan_reorder(&existing, &b, 1).unwrap(), vec![(12, 0), (10, 1), (11, 2)]);
    let short = QueueReorderBody { item_ids: vec![12, 10], queue_id: None };
    let e = plan_reorder(&existing, &short, 1).unwrap_err();
    assert_eq!(e.code(), "COUNT_MISMATCH");
    assert_eq!(e.message(), "expected 3 items, got 2");
    let stranger = QueueReorderBody { item_ids: vec![12, 10, 99], queue_id: None };
    let e = plan_reorder(&existing, &stranger, 1).unwrap_err();
    assert_eq!(e.code(), "UNKNOWN_ITEM_ID");
    assert_eq!(e.message(), format!("item {} does not belong to queue {}", id_text(99), id_text(1)));
}
