use vstd::prelude::*;

use crate::accrual::{liquidatable, remaining_buffer, sat_mul, saturating_mul, withdrawable};
use crate::lifecycle::{active_weight, drained, opened, paused, rerated, resumed, stopped, topped_up};
use crate::types::{
    ActorId, Config, CustodyOutcome, CustodyRequest, Stream, StreamError, StreamId, StreamStatus,
};

verus! {

/// The number of active streams in `s`.
pub open spec fn count_active(s: Seq<Stream>) -> int
    decreases s.len(),
{
    if s.len() == 0 {
        0
    } else {
        count_active(s.drop_last()) + active_weight(s.last())
    }
}

/// The ids of the streams in `s` sent by `sender`, in table order.
pub open spec fn sender_ids(s: Seq<Stream>, sender: Seq<u8>) -> Seq<StreamId>
    decreases s.len(),
{
    if s.len() == 0 {
        Seq::empty()
    } else if s.last().sender@ == sender {
        sender_ids(s.drop_last(), sender).push(s.last().id)
    } else {
        sender_ids(s.drop_last(), sender)
    }
}

/// The ids of the streams in `s` received by `receiver`, in table order.
pub open spec fn receiver_ids(s: Seq<Stream>, receiver: Seq<u8>) -> Seq<StreamId>
    decreases s.len(),
{
    if s.len() == 0 {
        Seq::empty()
    } else if s.last().receiver@ == receiver {
        receiver_ids(s.drop_last(), receiver).push(s.last().id)
    } else {
        receiver_ids(s.drop_last(), receiver)
    }
}

proof fn lemma_count_active_bounds(s: Seq<Stream>)
    ensures
        0 <= count_active(s) <= s.len(),
    decreases s.len(),
{
    if s.len() > 0 {
        lemma_count_active_bounds(s.drop_last());
    }
}

proof fn lemma_count_active_update(s: Seq<Stream>, i: int, x: Stream)
    requires
        0 <= i < s.len(),
    ensures
        count_active(s.update(i, x)) == count_active(s) - active_weight(s[i]) + active_weight(x),
    decreases s.len(),
{
    let t = s.update(i, x);
    if i == s.len() - 1 {
        assert(t.drop_last() =~= s.drop_last());
    } else {
        lemma_count_active_update(s.drop_last(), i, x);
        assert(t.drop_last() =~= s.drop_last().update(i, x));
    }
}

proof fn lemma_count_active_push(s: Seq<Stream>, x: Stream)
    ensures
        count_active(s.push(x)) == count_active(s) + active_weight(x),
{
    assert(s.push(x).drop_last() =~= s);
}

/// The stream store: configuration, the stream table (the stream with id `i`
/// sits at index `i - 1`) and the count of active streams.
pub struct StreamCoreState {
    pub config: Config,
    pub streams: Vec<Stream>,
    pub active_count: u64,
}

impl StreamCoreState {
    /// Ids are dense and assigned in order, every record keeps its own
    /// invariant, and `active_count` counts the active streams.
    pub open spec fn wf(&self) -> bool {
        &&& self.config.next_stream_id == self.streams@.len() + 1
        &&& forall|i: int|
            0 <= i < self.streams@.len() ==> (#[trigger] self.streams@[i]).id == i + 1
                && self.streams@[i].wf()
        &&& self.active_count == count_active(self.streams@)
    }

    pub open spec fn contains(&self, id: StreamId) -> bool {
        1 <= id <= self.streams@.len()
    }

    pub open spec fn stream(&self, id: StreamId) -> Stream {
        self.streams@[id - 1]
    }

    /// An empty store administered by `admin`.
    pub fn new(admin: ActorId, min_buffer_seconds: u64) -> (r: StreamCoreState)
        ensures
            r.wf(),
            r.streams@.len() == 0,
            r.config.admin == admin,
            r.config.min_buffer_seconds == min_buffer_seconds,
            r.config.next_stream_id == 1,
            r.config.token_vault@ == ActorId::zero_bytes(),
            r.active_count == 0,
    {
        StreamCoreState {
            config: Config {
                admin,
                min_buffer_seconds,
                next_stream_id: 1,
                token_vault: ActorId::zero(),
            },
            streams: Vec::new(),
            active_count: 0,
        }
    }

    /// Writes `s` over the stored stream with the same id, keeping the
    /// active count in step with the change of status.
    fn store(&mut self, s: Stream)
        requires
            old(self).wf(),
            old(self).contains(s.id),
            s.wf(),
        ensures
            final(self).wf(),
            final(self).streams@ == old(self).streams@.update(s.id - 1, s),
            final(self).config == old(self).config,
            final(self).active_count == old(self).active_count - active_weight(
                old(self).stream(s.id),
            ) + active_weight(s),
    {
        let _len = self.streams.len();
        let idx = (s.id - 1) as usize;
        let was_active = self.streams[idx].status == StreamStatus::Active;
        proof {
            lemma_count_active_update(self.streams@, idx as int, s);
            lemma_count_active_bounds(self.streams@.update(idx as int, s));
        }
        self.streams.set(idx, s);
        if was_active && s.status != StreamStatus::Active {
            self.active_count = self.active_count - 1;
        } else if !was_active && s.status == StreamStatus::Active {
            self.active_count = self.active_count + 1;
        }
        assert forall|i: int| 0 <= i < self.streams@.len() implies (#[trigger] self.streams@[i]).id
            == i + 1 && self.streams@[i].wf() by {
            if i != idx {
                assert(self.streams@[i] == old(self).streams@[i]);
            }
        }
    }
}

/// A payment-stream ledger: one explicitly owned store and the operations on it.
///
/// Every operation takes the caller's identity and the current time in
/// seconds. Operations that move value are split in two: a `plan_` query
/// names the custody request to send to the vault, and the operation itself
/// takes the vault's answer, committing nothing unless the vault succeeded.
pub struct StreamService {
    pub state: StreamCoreState,
}

impl StreamService {
    pub open spec fn wf(&self) -> bool {
        self.state.wf()
    }

    pub open spec fn contains(&self, id: StreamId) -> bool {
        self.state.contains(id)
    }

    pub open spec fn stream(&self, id: StreamId) -> Stream {
        self.state.stream(id)
    }

    pub open spec fn streams(&self) -> Seq<Stream> {
        self.state.streams@
    }

    /// Time never runs backwards for a stream: `now` is not before its watermark.
    pub open spec fn clock_ok(&self, id: StreamId, now: u64) -> bool {
        self.contains(id) ==> self.stream(id).last_update <= now
    }

    /// `self` is `prev` with the stream `id` replaced by `s` and the active
    /// count set to `active`.
    pub open spec fn is_update_of(&self, prev: &StreamService, id: StreamId, s: Stream, active: int) -> bool {
        &&& self.streams() == prev.streams().update(id - 1, s)
        &&& self.state.config == prev.state.config
        &&& self.state.active_count == active
    }

    /// No recorded stream loses any of `streamed`, `withdrawn` or `deposited`,
    /// and no stream disappears.
    pub open spec fn grows_from(&self, prev: &StreamService) -> bool {
        &&& prev.streams().len() <= self.streams().len()
        &&& forall|i: int|
            0 <= i < prev.streams().len() ==> {
                &&& prev.streams()[i].streamed <= (#[trigger] self.streams()[i]).streamed
                &&& prev.streams()[i].withdrawn <= self.streams()[i].withdrawn
                &&& prev.streams()[i].deposited <= self.streams()[i].deposited
            }
    }

    /// Why `create_stream` refuses, if it does.
    pub open spec fn create_error(
        &self,
        caller: ActorId,
        receiver: ActorId,
        flow_rate: u128,
        initial_deposit: u128,
    ) -> Option<StreamError> {
        if flow_rate == 0 || caller@ == receiver@ {
            Some(StreamError::InvalidArgument)
        } else if initial_deposit < sat_mul(flow_rate as int, self.state.config.min_buffer_seconds as int) {
            Some(StreamError::InvalidArgument)
        } else {
            None
        }
    }

    /// The refusal shared by the sender-only operations: an unknown id or a
    /// caller who is not the sender.
    pub open spec fn sender_error(&self, caller: ActorId, id: StreamId) -> Option<StreamError> {
        if !self.contains(id) {
            Some(StreamError::NotFound)
        } else if self.stream(id).sender@ != caller@ {
            Some(StreamError::Unauthorized)
        } else {
            None
        }
    }

    /// Why `update_stream` refuses, if it does.
    pub open spec fn update_error(&self, caller: ActorId, id: StreamId, flow_rate: u128) -> Option<StreamError> {
        if self.sender_error(caller, id).is_some() {
            self.sender_error(caller, id)
        } else if self.stream(id).status == StreamStatus::Stopped {
            Some(StreamError::InvalidState)
        } else if flow_rate == 0 {
            Some(StreamError::InvalidArgument)
        } else {
            None
        }
    }

    /// Why `pause_stream` refuses, if it does.
    pub open spec fn pause_error(&self, caller: ActorId, id: StreamId) -> Option<StreamError> {
        if self.sender_error(caller, id).is_some() {
            self.sender_error(caller, id)
        } else if self.stream(id).status != StreamStatus::Active {
            Some(StreamError::InvalidState)
        } else {
            None
        }
    }

    /// Why `resume_stream` refuses, if it does.
    pub open spec fn resume_error(&self, caller: ActorId, id: StreamId) -> Option<StreamError> {
        if self.sender_error(caller, id).is_some() {
            self.sender_error(caller, id)
        } else if self.stream(id).status != StreamStatus::Paused {
            Some(StreamError::InvalidState)
        } else {
            None
        }
    }

    /// Why `stop_stream` refuses, if it does.
    pub open spec fn stop_error(&self, caller: ActorId, id: StreamId) -> Option<StreamError> {
        if self.sender_error(caller, id).is_some() {
            self.sender_error(caller, id)
        } else if self.stream(id).status == StreamStatus::Stopped {
            Some(StreamError::InvalidState)
        } else {
            None
        }
    }

    /// Why `deposit` refuses, if it does.
    pub open spec fn deposit_error(&self, caller: ActorId, id: StreamId, amount: u128) -> Option<StreamError> {
        if self.sender_error(caller, id).is_some() {
            self.sender_error(caller, id)
        } else if self.stream(id).status == StreamStatus::Stopped {
            Some(StreamError::InvalidState)
        } else if amount == 0 {
            Some(StreamError::InvalidArgument)
        } else {
            None
        }
    }

    /// Why `withdraw` refuses, if it does.
    pub open spec fn withdraw_error(&self, caller: ActorId, id: StreamId, now: u64) -> Option<StreamError> {
        if !self.contains(id) {
            Some(StreamError::NotFound)
        } else if self.stream(id).receiver@ != caller@ {
            Some(StreamError::Unauthorized)
        } else if withdrawable(self.stream(id), now) == 0 {
            Some(StreamError::NothingToWithdraw)
        } else {
            None
        }
    }

    /// Why `liquidate` refuses, if it does.
    pub open spec fn liquidate_error(&self, id: StreamId, now: u64) -> Option<StreamError> {
        if !self.contains(id) {
            Some(StreamError::NotFound)
        } else if !liquidatable(self.stream(id), now, self.state.config.min_buffer_seconds) {
            Some(StreamError::NotEligibleForLiquidation)
        } else {
            None
        }
    }

    /// An empty ledger administered by `admin`, whose streams must keep
    /// `min_buffer_seconds` of flow as collateral.
    pub fn new(admin: ActorId, min_buffer_seconds: u64) -> (r: StreamService)
        ensures
            r.wf(),
            r.streams().len() == 0,
            r.state.config.admin == admin,
            r.state.config.min_buffer_seconds == min_buffer_seconds,
            r.state.config.next_stream_id == 1,
            r.state.config.token_vault@ == ActorId::zero_bytes(),
            r.state.active_count == 0,
    {
        StreamService { state: StreamCoreState::new(admin, min_buffer_seconds) }
    }

    /// Index of stream `id` in the table, if it is there.
    fn index_of(&self, id: StreamId) -> (r: Option<usize>)
        requires
            self.wf(),
        ensures
            match r {
                Some(i) => self.contains(id) && i == id - 1,
                None => !self.contains(id),
            },
    {
        let len = self.state.streams.len();
        if id == 0 || id > len as u64 {
            None
        } else {
            Some((id - 1) as usize)
        }
    }

    // ---- Queries ----

    /// The stream with the given id, if any.
    pub fn get_stream(&self, stream_id: StreamId) -> (r: Option<Stream>)
        requires
            self.wf(),
        ensures
            r == (if self.contains(stream_id) {
                Some(self.stream(stream_id))
            } else {
                None
            }),
    {
        match self.index_of(stream_id) {
            Some(i) => Some(self.state.streams[i]),
            None => None,
        }
    }

    /// What the stream's receiver could withdraw at `now`; 0 for an unknown id.
    pub fn get_withdrawable_balance(&self, stream_id: StreamId, now: u64) -> (r: u128)
        requires
            self.wf(),
        ensures
            r == (if self.contains(stream_id) {
                withdrawable(self.stream(stream_id), now)
            } else {
                0
            }),
    {
        match self.index_of(stream_id) {
            Some(i) => StreamCoreState::withdrawable_balance(&self.state.streams[i], now),
            None => 0,
        }
    }

    /// The stream's remaining buffer at `now`; 0 for an unknown id.
    pub fn get_remaining_buffer(&self, stream_id: StreamId, now: u64) -> (r: u128)
        requires
            self.wf(),
        ensures
            r == (if self.contains(stream_id) {
                remaining_buffer(self.stream(stream_id), now)
            } else {
                0
            }),
    {
        match self.index_of(stream_id) {
            Some(i) => StreamCoreState::remaining_buffer(&self.state.streams[i], now),
            None => 0,
        }
    }

    /// The ids of the streams `sender` funds, oldest first. Ids are dense and
    /// in creation order, so the table itself serves as the index.
    pub fn get_sender_streams(&self, sender: ActorId) -> (r: Vec<StreamId>)
        requires
            self.wf(),
        ensures
            r@ == sender_ids(self.streams(), sender@),
    {
        let mut r: Vec<StreamId> = Vec::new();
        let mut i: usize = 0;
        while i < self.state.streams.len()
            invariant
                i <= self.streams().len(),
                r@ == sender_ids(self.streams().take(i as int), sender@),
            decreases self.streams().len() - i,
        {
            let s = self.state.streams[i];
            proof {
                assert(self.streams().take(i + 1).drop_last() =~= self.streams().take(i as int));
            }
            if s.sender == sender {
                r.push(s.id);
            }
            i = i + 1;
        }
        assert(self.streams().take(i as int) =~= self.streams());
        r
    }

    /// The ids of the streams that pay `receiver`, oldest first.
    pub fn get_receiver_streams(&self, receiver: ActorId) -> (r: Vec<StreamId>)
        requires
            self.wf(),
        ensures
            r@ == receiver_ids(self.streams(), receiver@),
    {
        let mut r: Vec<StreamId> = Vec::new();
        let mut i: usize = 0;
        while i < self.state.streams.len()
            invariant
                i <= self.streams().len(),
                r@ == receiver_ids(self.streams().take(i as int), receiver@),
            decreases self.streams().len() - i,
        {
            let s = self.state.streams[i];
            proof {
                assert(self.streams().take(i + 1).drop_last() =~= self.streams().take(i as int));
            }
            if s.receiver == receiver {
                r.push(s.id);
            }
            i = i + 1;
        }
        assert(self.streams().take(i as int) =~= self.streams());
        r
    }

    /// How many streams were ever created.
    pub fn total_streams(&self) -> (r: u64)
        requires
            self.wf(),
        ensures
            r == self.streams().len(),
    {
        self.state.streams.len() as u64
    }

    /// How many streams are active right now.
    pub fn active_streams(&self) -> (r: u64)
        requires
            self.wf(),
        ensures
            r == count_active(self.streams()),
    {
        self.state.active_count
    }

    /// The ledger's settings.
    pub fn get_config(&self) -> (r: Config)
        ensures
            r == self.state.config,
    {
        self.state.config
    }

    // ---- Commands ----

    /// Points the ledger at a new vault; only the administrator may.
    pub fn set_token_vault(&mut self, caller: ActorId, vault: ActorId) -> (r: Result<(), StreamError>)
        requires
            old(self).wf(),
        ensures
            final(self).wf(),
            caller@ != old(self).state.config.admin@ ==> r == Err::<(), StreamError>(
                StreamError::Unauthorized,
            ) && *final(self) == *old(self),
            caller@ == old(self).state.config.admin@ ==> {
                &&& r == Ok::<(), StreamError>(())
                &&& final(self).state.config == (Config { token_vault: vault, ..old(self).state.config })
                &&& final(self).state.streams == old(self).state.streams
                &&& final(self).state.active_count == old(self).state.active_count
            },
    {
        if !(caller == self.state.config.admin) {
            return Err(StreamError::Unauthorized);
        }
        self.state.config.token_vault = vault;
        Ok(())
    }

    /// The allocation `create_stream` needs from the vault, or its refusal.
    pub fn plan_create_stream(
        &self,
        caller: ActorId,
        receiver: ActorId,
        token: ActorId,
        flow_rate: u128,
        initial_deposit: u128,
    ) -> (r: Result<CustodyRequest, StreamError>)
        requires
            self.wf(),
        ensures
            match self.create_error(caller, receiver, flow_rate, initial_deposit) {
                Some(e) => r == Err::<CustodyRequest, StreamError>(e),
                None => r == Ok::<CustodyRequest, StreamError>(
                    (CustodyRequest::Allocate {
                        owner: caller,
                        token,
                        amount: initial_deposit,
                        stream_id: self.state.config.next_stream_id,
                    }),
                ),
            },
    {
        if flow_rate == 0 || caller == receiver {
            return Err(StreamError::InvalidArgument);
        }
        let min_deposit = saturating_mul(flow_rate, self.state.config.min_buffer_seconds as u128);
        if initial_deposit < min_deposit {
            return Err(StreamError::InvalidArgument);
        }
        Ok(
            CustodyRequest::Allocate {
                owner: caller,
                token,
                amount: initial_deposit,
                stream_id: self.state.config.next_stream_id,
            },
        )
    }

    /// Opens an active stream from `caller` to `receiver` at `now`, once the
    /// vault has allocated `initial_deposit` for it; returns its id.
    pub fn create_stream(
        &mut self,
        caller: ActorId,
        now: u64,
        receiver: ActorId,
        token: ActorId,
        flow_rate: u128,
        initial_deposit: u128,
        custody: CustodyOutcome,
    ) -> (r: Result<StreamId, StreamError>)
        requires
            old(self).wf(),
            old(self).state.config.next_stream_id < u64::MAX,
        ensures
            final(self).wf(),
            final(self).grows_from(old(self)),
            match old(self).create_error(caller, receiver, flow_rate, initial_deposit) {
                Some(e) => r == Err::<StreamId, StreamError>(e) && *final(self) == *old(self),
                None => if custody == CustodyOutcome::Failed {
                    r == Err::<StreamId, StreamError>(StreamError::CustodyFailure) && *final(self)
                        == *old(self)
                } else {
                    let id = old(self).state.config.next_stream_id;
                    &&& r == Ok::<StreamId, StreamError>(id)
                    &&& final(self).streams() == old(self).streams().push(
                        opened(id, caller, receiver, token, flow_rate, initial_deposit, now),
                    )
                    &&& final(self).state.config == (Config {
                        next_stream_id: (id + 1) as u64,
                        ..old(self).state.config
                    })
                    &&& final(self).state.active_count == old(self).state.active_count + 1
                },
            },
    {
        match self.plan_create_stream(caller, receiver, token, flow_rate, initial_deposit) {
            Err(e) => {
                return Err(e);
            },
            Ok(_) => {},
        }
        if custody == CustodyOutcome::Failed {
            return Err(StreamError::CustodyFailure);
        }
        let id = self.state.config.next_stream_id;
        let stream = Stream {
            id,
            sender: caller,
            receiver,
            token,
            flow_rate,
            start_time: now,
            last_update: now,
            deposited: initial_deposit,
            withdrawn: 0,
            streamed: 0,
            status: StreamStatus::Active,
        };
        proof {
            lemma_count_active_push(self.state.streams@, stream);
            lemma_count_active_bounds(self.state.streams@);
        }
        self.state.streams.push(stream);
        self.state.config.next_stream_id = id + 1;
        self.state.active_count = self.state.active_count + 1;
        assert forall|i: int| 0 <= i < self.streams().len() implies (#[trigger] self.streams()[i]).id
            == i + 1 && self.streams()[i].wf() by {
            if i < old(self).streams().len() {
                assert(self.streams()[i] == old(self).streams()[i]);
            }
        }
        Ok(id)
    }

    /// Settles the stream at `now`, then sets its rate; only its sender may,
    /// and not once it is stopped.
    pub fn update_stream(
        &mut self,
        caller: ActorId,
        now: u64,
        stream_id: StreamId,
        new_flow_rate: u128,
    ) -> (r: Result<(), StreamError>)
        requires
            old(self).wf(),
            old(self).clock_ok(stream_id, now),
        ensures
            final(self).wf(),
            final(self).grows_from(old(self)),
            match old(self).update_error(caller, stream_id, new_flow_rate) {
                Some(e) => r == Err::<(), StreamError>(e) && *final(self) == *old(self),
                None => r == Ok::<(), StreamError>(()) && final(self).is_update_of(
                    old(self),
                    stream_id,
                    rerated(old(self).stream(stream_id), now, new_flow_rate),
                    old(self).state.active_count as int,
                ),
            },
    {
        let i = match self.index_of(stream_id) {
            Some(i) => i,
            None => {
                return Err(StreamError::NotFound);
            },
        };
        let mut stream = self.state.streams[i];
        if !(stream.sender == caller) {
            return Err(StreamError::Unauthorized);
        }
        if stream.status == StreamStatus::Stopped {
            return Err(StreamError::InvalidState);
        }
        if new_flow_rate == 0 {
            return Err(StreamError::InvalidArgument);
        }
        StreamCoreState::settle(&mut stream, now);
        stream.flow_rate = new_flow_rate;
        self.state.store(stream);
        Ok(())
    }

    /// Settles the stream at `now` and pauses it; only its sender may, and
    /// only while it is active.
    pub fn pause_stream(&mut self, caller: ActorId, now: u64, stream_id: StreamId) -> (r: Result<(), StreamError>)
        requires
            old(self).wf(),
            old(self).clock_ok(stream_id, now),
        ensures
            final(self).wf(),
            final(self).grows_from(old(self)),
            match old(self).pause_error(caller, stream_id) {
                Some(e) => r == Err::<(), StreamError>(e) && *final(self) == *old(self),
                None => r == Ok::<(), StreamError>(()) && final(self).is_update_of(
                    old(self),
                    stream_id,
                    paused(old(self).stream(stream_id), now),
                    old(self).state.active_count - 1,
                ),
            },
    {
        let i = match self.index_of(stream_id) {
            Some(i) => i,
            None => {
                return Err(StreamError::NotFound);
            },
        };
        let mut stream = self.state.streams[i];
        if !(stream.sender == caller) {
            return Err(StreamError::Unauthorized);
        }
        if stream.status != StreamStatus::Active {
            return Err(StreamError::InvalidState);
        }
        StreamCoreState::settle(&mut stream, now);
        stream.status = StreamStatus::Paused;
        self.state.store(stream);
        Ok(())
    }

    /// Reactivates a paused stream from `now`, with no flow for the pause;
    /// only its sender may.
    pub fn resume_stream(&mut self, caller: ActorId, now: u64, stream_id: StreamId) -> (r: Result<(), StreamError>)
        requires
            old(self).wf(),
            old(self).clock_ok(stream_id, now),
        ensures
            final(self).wf(),
            final(self).grows_from(old(self)),
            match old(self).resume_error(caller, stream_id) {
                Some(e) => r == Err::<(), StreamError>(e) && *final(self) == *old(self),
                None => r == Ok::<(), StreamError>(()) && final(self).is_update_of(
                    old(self),
                    stream_id,
                    resumed(old(self).stream(stream_id), now),
                    old(self).state.active_count + 1,
                ),
            },
    {
        let i = match self.index_of(stream_id) {
            Some(i) => i,
            None => {
                return Err(StreamError::NotFound);
            },
        };
        let mut stream = self.state.streams[i];
        if !(stream.sender == caller) {
            return Err(StreamError::Unauthorized);
        }
        if stream.status != StreamStatus::Paused {
            return Err(StreamError::InvalidState);
        }
        stream.last_update = now;
        stream.status = StreamStatus::Active;
        self.state.store(stream);
        Ok(())
    }

    /// Settles the stream at `now` and stops it for good; only its sender
    /// may. The active count drops only if the stream was active.
    pub fn stop_stream(&mut self, caller: ActorId, now: u64, stream_id: StreamId) -> (r: Result<(), StreamError>)
        requires
            old(self).wf(),
            old(self).clock_ok(stream_id, now),
        ensures
            final(self).wf(),
            final(self).grows_from(old(self)),
            match old(self).stop_error(caller, stream_id) {
                Some(e) => r == Err::<(), StreamError>(e) && *final(self) == *old(self),
                None => r == Ok::<(), StreamError>(()) && final(self).is_update_of(
                    old(self),
                    stream_id,
                    stopped(old(self).stream(stream_id), now),
                    old(self).state.active_count - active_weight(old(self).stream(stream_id)),
                ),
            },
    {
        let i = match self.index_of(stream_id) {
            Some(i) => i,
            None => {
                return Err(StreamError::NotFound);
            },
        };
        let mut stream = self.state.streams[i];
        if !(stream.sender == caller) {
            return Err(StreamError::Unauthorized);
        }
        if stream.status == StreamStatus::Stopped {
            return Err(StreamError::InvalidState);
        }
        StreamCoreState::settle(&mut stream, now);
        stream.status = StreamStatus::Stopped;
        stream.flow_rate = 0;
        self.state.store(stream);
        Ok(())
    }

    /// Adds `amount` to the stream's collateral (clamped to the largest
    /// `u128`); only its sender may, and not once it is stopped.
    pub fn deposit(&mut self, caller: ActorId, stream_id: StreamId, amount: u128) -> (r: Result<(), StreamError>)
        requires
            old(self).wf(),
        ensures
            final(self).wf(),
            final(self).grows_from(old(self)),
            match old(self).deposit_error(caller, stream_id, amount) {
                Some(e) => r == Err::<(), StreamError>(e) && *final(self) == *old(self),
                None => r == Ok::<(), StreamError>(()) && final(self).is_update_of(
                    old(self),
                    stream_id,
                    topped_up(old(self).stream(stream_id), amount),
                    old(self).state.active_count as int,
                ),
            },
    {
        let i = match self.index_of(stream_id) {
            Some(i) => i,
            None => {
                return Err(StreamError::NotFound);
            },
        };
        let mut stream = self.state.streams[i];
        if !(stream.sender == caller) {
            return Err(StreamError::Unauthorized);
        }
        if stream.status == StreamStatus::Stopped {
            return Err(StreamError::InvalidState);
        }
        if amount == 0 {
            return Err(StreamError::InvalidArgument);
        }
        stream.deposited = stream.deposited.saturating_add(amount);
        self.state.store(stream);
        Ok(())
    }

    /// The transfer `withdraw` needs from the vault at `now`, or its refusal.
    pub fn plan_withdraw(
        &self,
        caller: ActorId,
        now: u64,
        stream_id: StreamId,
    ) -> (r: Result<CustodyRequest, StreamError>)
        requires
            self.wf(),
        ensures
            match self.withdraw_error(caller, stream_id, now) {
                Some(e) => r == Err::<CustodyRequest, StreamError>(e),
                None => r == Ok::<CustodyRequest, StreamError>(
                    (CustodyRequest::TransferToReceiver {
                        token: self.stream(stream_id).token,
                        receiver: self.stream(stream_id).receiver,
                        amount: withdrawable(self.stream(stream_id), now) as u128,
                        stream_id,
                    }),
                ),
            },
    {
        let i = match self.index_of(stream_id) {
            Some(i) => i,
            None => {
                return Err(StreamError::NotFound);
            },
        };
        let stream = self.state.streams[i];
        if !(stream.receiver == caller) {
            return Err(StreamError::Unauthorized);
        }
        let amount = StreamCoreState::withdrawable_balance(&stream, now);
        if amount == 0 {
            return Err(StreamError::NothingToWithdraw);
        }
        Ok(
            CustodyRequest::TransferToReceiver {
                token: stream.token,
                receiver: stream.receiver,
                amount,
                stream_id,
            },
        )
    }

    /// Settles the stream at `now` and pays its receiver everything
    /// withdrawable, once the vault has made the transfer; returns the amount.
    pub fn withdraw(
        &mut self,
        caller: ActorId,
        now: u64,
        stream_id: StreamId,
        custody: CustodyOutcome,
    ) -> (r: Result<u128, StreamError>)
        requires
            old(self).wf(),
            old(self).clock_ok(stream_id, now),
        ensures
            final(self).wf(),
            final(self).grows_from(old(self)),
            match old(self).withdraw_error(caller, stream_id, now) {
                Some(e) => r == Err::<u128, StreamError>(e) && *final(self) == *old(self),
                None => if custody == CustodyOutcome::Failed {
                    r == Err::<u128, StreamError>(StreamError::CustodyFailure) && *final(self)
                        == *old(self)
                } else {
                    &&& r == Ok::<u128, StreamError>(
                        withdrawable(old(self).stream(stream_id), now) as u128,
                    )
                    &&& final(self).is_update_of(
                        old(self),
                        stream_id,
                        drained(old(self).stream(stream_id), now),
                        old(self).state.active_count as int,
                    )
                },
            },
    {
        let i = match self.index_of(stream_id) {
            Some(i) => i,
            None => {
                return Err(StreamError::NotFound);
            },
        };
        let mut stream = self.state.streams[i];
        if !(stream.receiver == caller) {
            return Err(StreamError::Unauthorized);
        }
        StreamCoreState::settle(&mut stream, now);
        let amount = stream.streamed - stream.withdrawn;
        if amount == 0 {
            return Err(StreamError::NothingToWithdraw);
        }
        if custody == CustodyOutcome::Failed {
            return Err(StreamError::CustodyFailure);
        }
        stream.withdrawn = stream.streamed;
        self.state.store(stream);
        Ok(amount)
    }

    /// Force-pauses an active stream whose buffer has fallen below
    /// `min_buffer_seconds` of flow, settling it at `now`. Anyone may.
    pub fn liquidate(&mut self, now: u64, stream_id: StreamId) -> (r: Result<(), StreamError>)
        requires
            old(self).wf(),
            old(self).clock_ok(stream_id, now),
        ensures
            final(self).wf(),
            final(self).grows_from(old(self)),
            match old(self).liquidate_error(stream_id, now) {
                Some(e) => r == Err::<(), StreamError>(e) && *final(self) == *old(self),
                None => r == Ok::<(), StreamError>(()) && final(self).is_update_of(
                    old(self),
                    stream_id,
                    paused(old(self).stream(stream_id), now),
                    old(self).state.active_count - 1,
                ),
            },
    {
        let i = match self.index_of(stream_id) {
            Some(i) => i,
            None => {
                return Err(StreamError::NotFound);
            },
        };
        let mut stream = self.state.streams[i];
        if !StreamCoreState::should_liquidate(&stream, now, self.state.config.min_buffer_seconds) {
            return Err(StreamError::NotEligibleForLiquidation);
        }
        StreamCoreState::settle(&mut stream, now);
        stream.status = StreamStatus::Paused;
        self.state.store(stream);
        Ok(())
    }
}

} // verus!
