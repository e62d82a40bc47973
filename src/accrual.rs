use vstd::prelude::*;

use crate::ledger::StreamCoreState;
use crate::types::{Stream, StreamStatus};

verus! {

/// `a * b`, clamped to the largest `u128`.
pub open spec fn sat_mul(a: int, b: int) -> int {
    if a * b > u128::MAX {
        u128::MAX as int
    } else {
        a * b
    }
}

/// `a + b`, clamped to the largest `u128`.
pub open spec fn sat_add(a: int, b: int) -> int {
    if a + b > u128::MAX {
        u128::MAX as int
    } else {
        a + b
    }
}

/// `a - b`, floored at zero.
pub open spec fn sat_sub(a: int, b: int) -> int {
    if a < b {
        0
    } else {
        a - b
    }
}

pub open spec fn min(a: int, b: int) -> int {
    if a <= b {
        a
    } else {
        b
    }
}

/// Flow since the watermark: `flow_rate * (now - last_update)` while the
/// stream is active and the clock is past the watermark, else nothing.
pub open spec fn accrued(s: Stream, now: u64) -> int {
    if s.status != StreamStatus::Active || now <= s.last_update {
        0
    } else {
        sat_mul(s.flow_rate as int, now - s.last_update)
    }
}

/// Everything that has flowed as of `now`, settled or not.
pub open spec fn total_streamed(s: Stream, now: u64) -> int {
    sat_add(s.streamed as int, accrued(s, now))
}

/// What the receiver could take out at `now`: the flow, capped by the
/// deposit, less what was already withdrawn.
pub open spec fn withdrawable(s: Stream, now: u64) -> int {
    sat_sub(min(total_streamed(s, now), s.deposited as int), s.withdrawn as int)
}

/// The part of the deposit not yet claimed by the flow at `now`.
pub open spec fn remaining_buffer(s: Stream, now: u64) -> int {
    sat_sub(s.deposited as int, total_streamed(s, now))
}

/// The collateral a stream must keep: `min_buffer_seconds` of flow.
pub open spec fn min_buffer(s: Stream, min_buffer_seconds: u64) -> int {
    sat_mul(s.flow_rate as int, min_buffer_seconds as int)
}

/// An active stream whose buffer has fallen below its minimum.
pub open spec fn liquidatable(s: Stream, now: u64, min_buffer_seconds: u64) -> bool {
    &&& s.status == StreamStatus::Active
    &&& s.flow_rate > 0
    &&& remaining_buffer(s, now) < min_buffer(s, min_buffer_seconds)
}

/// The stream after settlement at `now`: an active stream folds its accrued
/// flow into `streamed`, capped at `deposited`, and moves its watermark to
/// `now`; any other stream is unchanged.
pub open spec fn settled(s: Stream, now: u64) -> Stream {
    if s.status == StreamStatus::Active {
        Stream {
            streamed: min(sat_add(s.streamed as int, accrued(s, now)), s.deposited as int) as u128,
            last_update: now,
            ..s
        }
    } else {
        s
    }
}

/// `a * b` for `u128`, clamped to the largest value instead of wrapping.
pub fn saturating_mul(a: u128, b: u128) -> (r: u128)
    ensures
        r == sat_mul(a as int, b as int),
{
    match a.checked_mul(b) {
        Some(p) => p,
        None => u128::MAX,
    }
}

impl StreamCoreState {
    /// Flow accrued since the stream's watermark.
    pub fn accrued_since_last_update(stream: &Stream, now: u64) -> (r: u128)
        ensures
            r == accrued(*stream, now),
    {
        if stream.status != StreamStatus::Active || now <= stream.last_update {
            return 0;
        }
        let elapsed = (now - stream.last_update) as u128;
        saturating_mul(stream.flow_rate, elapsed)
    }

    /// Settled flow plus the flow accrued since, clamped to the largest `u128`.
    pub fn total_streamed(stream: &Stream, now: u64) -> (r: u128)
        ensures
            r == total_streamed(*stream, now),
    {
        stream.streamed.saturating_add(Self::accrued_since_last_update(stream, now))
    }

    /// The amount the receiver could withdraw at `now`.
    pub fn withdrawable_balance(stream: &Stream, now: u64) -> (r: u128)
        ensures
            r == withdrawable(*stream, now),
    {
        let total = Self::total_streamed(stream, now);
        let capped = if total <= stream.deposited {
            total
        } else {
            stream.deposited
        };
        capped.saturating_sub(stream.withdrawn)
    }

    /// The collateral left before the stream over-streams its deposit.
    pub fn remaining_buffer(stream: &Stream, now: u64) -> (r: u128)
        ensures
            r == remaining_buffer(*stream, now),
    {
        let total = Self::total_streamed(stream, now);
        stream.deposited.saturating_sub(total)
    }

    /// Folds the flow accrued up to `now` into the stream's `streamed` counter.
    pub fn settle(stream: &mut Stream, now: u64)
        ensures
            *final(stream) == settled(*old(stream), now),
    {
        if stream.status == StreamStatus::Active {
            let accrued = Self::accrued_since_last_update(stream, now);
            stream.streamed = stream.streamed.saturating_add(accrued);
            if stream.streamed > stream.deposited {
                stream.streamed = stream.deposited;
            }
            stream.last_update = now;
        }
    }

    /// Whether anyone may force-pause the stream at `now`.
    pub fn should_liquidate(stream: &Stream, now: u64, min_buffer_seconds: u64) -> (r: bool)
        ensures
            r == liquidatable(*stream, now, min_buffer_seconds),
    {
        if stream.status != StreamStatus::Active || stream.flow_rate == 0 {
            return false;
        }
        let remaining = Self::remaining_buffer(stream, now);
        let min_buffer = saturating_mul(stream.flow_rate, min_buffer_seconds as u128);
        remaining < min_buffer
    }
}

} // verus!
