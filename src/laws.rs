use vstd::prelude::*;

use crate::accrual::{accrued, liquidatable, remaining_buffer, sat_mul, settled, total_streamed};
use crate::ledger::StreamService;
use crate::lifecycle::{paused, resumed};
use crate::types::{Stream, StreamError, StreamId, StreamStatus};

verus! {

/// In a well-formed ledger every stream has `withdrawn <= streamed <= deposited`.
/// Every operation keeps the ledger well formed, so this holds after any
/// sequence of operations.
pub proof fn lemma_counters_ordered(ledger: &StreamService, id: StreamId)
    requires
        ledger.wf(),
        ledger.contains(id),
    ensures
        ledger.stream(id).withdrawn <= ledger.stream(id).streamed <= ledger.stream(id).deposited,
{
}

/// Settling twice at the same instant gives the same stream as settling once.
pub proof fn lemma_settle_idempotent(s: Stream, now: u64)
    ensures
        settled(settled(s, now), now) == settled(s, now),
{
}

/// Settlement of a well-formed stream never lowers `streamed`, and leaves
/// `withdrawn` and `deposited` alone.
pub proof fn lemma_settle_monotone(s: Stream, now: u64)
    requires
        s.wf(),
    ensures
        s.streamed <= settled(s, now).streamed,
        settled(s, now).withdrawn == s.withdrawn,
        settled(s, now).deposited == s.deposited,
{
}

/// Counters only grow along any chain of operations: each operation ensures
/// `grows_from` of its predecessor, and the relation composes.
pub proof fn lemma_grows_transitive(a: &StreamService, b: &StreamService, c: &StreamService)
    requires
        b.grows_from(a),
        c.grows_from(b),
    ensures
        c.grows_from(a),
{
    assert forall|i: int| 0 <= i < a.streams().len() implies {
        &&& a.streams()[i].streamed <= (#[trigger] c.streams()[i]).streamed
        &&& a.streams()[i].withdrawn <= c.streams()[i].withdrawn
        &&& a.streams()[i].deposited <= c.streams()[i].deposited
    } by {
        assert(a.streams()[i].streamed <= b.streams()[i].streamed);
    }
}

/// A stream paused at `t1` and resumed at `t2` gains nothing for the pause:
/// settling while paused changes nothing, the resumed stream has streamed
/// exactly what it had when paused, and at any later `t` its accrual counts
/// only the time since `t2`.
pub proof fn lemma_no_accrual_while_paused(s: Stream, t1: u64, t2: u64, t: u64)
    requires
        s.status == StreamStatus::Active,
        t1 <= t2,
    ensures
        settled(paused(s, t1), t2) == paused(s, t1),
        resumed(paused(s, t1), t2).streamed == paused(s, t1).streamed,
        total_streamed(resumed(paused(s, t1), t2), t2) == paused(s, t1).streamed,
        t2 < t ==> accrued(resumed(paused(s, t1), t2), t) == sat_mul(s.flow_rate as int, t - t2),
{
}

/// A stream whose remaining buffer covers `min_buffer_seconds` of flow is
/// never liquidatable.
pub proof fn lemma_no_liquidation_above_buffer(s: Stream, now: u64, min_buffer_seconds: u64)
    requires
        remaining_buffer(s, now) >= s.flow_rate * min_buffer_seconds,
    ensures
        !liquidatable(s, now, min_buffer_seconds),
{
}

/// In a ledger, `liquidate` refuses a stream whose remaining buffer covers
/// the configured minimum of flow.
pub proof fn lemma_liquidate_refused_above_buffer(ledger: &StreamService, id: StreamId, now: u64)
    requires
        ledger.wf(),
        ledger.contains(id),
        remaining_buffer(ledger.stream(id), now) >= ledger.stream(id).flow_rate
            * ledger.state.config.min_buffer_seconds,
    ensures
        ledger.liquidate_error(id, now) == Some(StreamError::NotEligibleForLiquidation),
{
    lemma_no_liquidation_above_buffer(ledger.stream(id), now, ledger.state.config.min_buffer_seconds);
}

} // verus!
