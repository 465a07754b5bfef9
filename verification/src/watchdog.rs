//! The worker watchdog: which workers look hung.
use vstd::prelude::*;

verus! {

/// What a background worker is doing.
#[derive(Debug, Clone, Copy, PartialEq, Eq, Structural)]
pub enum WorkerState {
    Starting,
    Running,
    Idle,
    Waiting,
    Blocked,
    Stopped,
    Failed,
}

/// How long a running worker may stay silent before it looks hung.
pub const HEARTBEAT_TIMEOUT_MS: u64 = 15_000;

/// Whether a worker looks hung: it is running and its last heartbeat lies
/// more than 15 seconds before `now_ms`.
pub fn may_be_hung(state: WorkerState, last_heartbeat_ms: u64, now_ms: u64) -> (r: bool)
    ensures
        r == (state == WorkerState::Running && now_ms >= last_heartbeat_ms && now_ms
            - last_heartbeat_ms > HEARTBEAT_TIMEOUT_MS),
{
    state == WorkerState::Running && now_ms >= last_heartbeat_ms && now_ms - last_heartbeat_ms
        > HEARTBEAT_TIMEOUT_MS
}

} // verus!
