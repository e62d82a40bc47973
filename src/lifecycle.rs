use vstd::prelude::*;

use crate::accrual::{sat_add, settled};
use crate::types::{ActorId, Stream, StreamId, StreamStatus};

verus! {

/// A stream as `create_stream` records it at `now`: active, nothing streamed
/// or withdrawn yet, the watermark at its start.
pub open spec fn opened(
    id: StreamId,
    sender: ActorId,
    receiver: ActorId,
    token: ActorId,
    flow_rate: u128,
    initial_deposit: u128,
    now: u64,
) -> Stream {
    Stream {
        id,
        sender,
        receiver,
        token,
        flow_rate,
        start_time: now,
        last_update: now,
        deposited: initial_deposit,
        withdrawn: 0,
        streamed: 0,
        status: StreamStatus::Active,
    }
}

/// Settled at `now`, then running at `flow_rate`.
pub open spec fn rerated(s: Stream, now: u64, flow_rate: u128) -> Stream {
    Stream { flow_rate, ..settled(s, now) }
}

/// Settled at `now`, then paused (by its sender or by liquidation).
pub open spec fn paused(s: Stream, now: u64) -> Stream {
    Stream { status: StreamStatus::Paused, ..settled(s, now) }
}

/// Active again from `now`: the paused interval accrues nothing.
pub open spec fn resumed(s: Stream, now: u64) -> Stream {
    Stream { last_update: now, status: StreamStatus::Active, ..s }
}

/// Settled at `now`, then stopped for good with a zero rate.
pub open spec fn stopped(s: Stream, now: u64) -> Stream {
    Stream { status: StreamStatus::Stopped, flow_rate: 0, ..settled(s, now) }
}

/// `amount` more collateral, the total clamped to the largest `u128`.
pub open spec fn topped_up(s: Stream, amount: u128) -> Stream {
    Stream { deposited: sat_add(s.deposited as int, amount as int) as u128, ..s }
}

/// Settled at `now`, then everything settled is paid out.
pub open spec fn drained(s: Stream, now: u64) -> Stream {
    Stream { withdrawn: settled(s, now).streamed, ..settled(s, now) }
}

/// 1 for an active stream, 0 otherwise.
pub open spec fn active_weight(s: Stream) -> int {
    if s.status == StreamStatus::Active {
        1
    } else {
        0
    }
}

} // verus!
