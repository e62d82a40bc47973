use vstd::prelude::*;

verus! {

/// Identifier of a stream, assigned from a per-ledger counter starting at 1.
pub type StreamId = u64;

/// A 32-byte account identity (sender, receiver, token or administrator).
#[derive(Clone, Copy, Debug)]
pub struct ActorId(pub [u8; 32]);

impl View for ActorId {
    type V = Seq<u8>;

    open spec fn view(&self) -> Seq<u8> {
        self.0@
    }
}

impl ActorId {
    /// The bytes of the all-zero identity.
    pub open spec fn zero_bytes() -> Seq<u8> {
        Seq::new(32, |_i: int| 0u8)
    }

    /// The all-zero identity.
    pub fn zero() -> (r: ActorId)
        ensures
            r@ == ActorId::zero_bytes(),
    {
        let r = ActorId([0u8; 32]);
        assert(r@ =~= ActorId::zero_bytes());
        r
    }
}

impl PartialEq for ActorId {
    fn eq(&self, other: &ActorId) -> (r: bool)
        ensures
            r == (self@ == other@),
    {
        let mut i: usize = 0;
        while i < 32
            invariant
                0 <= i <= 32,
                self@.len() == 32,
                other@.len() == 32,
                forall|j: int| 0 <= j < i ==> self@[j] == other@[j],
            decreases 32 - i,
        {
            if self.0[i] != other.0[i] {
                return false;
            }
            i = i + 1;
        }
        assert(self@ =~= other@);
        true
    }
}

impl vstd::std_specs::cmp::PartialEqSpecImpl for ActorId {
    open spec fn obeys_eq_spec() -> bool {
        true
    }

    open spec fn eq_spec(&self, other: &ActorId) -> bool {
        self@ == other@
    }
}

impl Eq for ActorId {
}

/// Lifecycle state of a stream. `Stopped` is terminal.
#[derive(Clone, Copy, Debug, PartialEq, Eq, Structural)]
pub enum StreamStatus {
    Active,
    Paused,
    Stopped,
}

/// One continuous transfer from `sender` to `receiver`.
///
/// `streamed` is the flow folded in by settlement up to `last_update`;
/// `deposited` and `withdrawn` are cumulative totals.
#[derive(Clone, Copy, Debug)]
pub struct Stream {
    pub id: StreamId,
    pub sender: ActorId,
    pub receiver: ActorId,
    pub token: ActorId,
    pub flow_rate: u128,
    pub start_time: u64,
    pub last_update: u64,
    pub deposited: u128,
    pub withdrawn: u128,
    pub streamed: u128,
    pub status: StreamStatus,
}

impl Stream {
    /// The per-record invariant that every operation keeps.
    pub open spec fn wf(self) -> bool {
        &&& self.withdrawn <= self.streamed <= self.deposited
        &&& self.status != StreamStatus::Stopped ==> self.flow_rate > 0
        &&& self.status == StreamStatus::Stopped ==> self.flow_rate == 0
        &&& self.start_time <= self.last_update
        &&& self.sender@ != self.receiver@
    }
}

/// Ledger-wide settings.
#[derive(Clone, Copy, Debug)]
pub struct Config {
    pub admin: ActorId,
    pub min_buffer_seconds: u64,
    pub next_stream_id: StreamId,
    pub token_vault: ActorId,
}

/// Why an operation was refused. On any error the ledger is left unchanged.
#[derive(Clone, Copy, Debug, PartialEq, Eq, Structural)]
pub enum StreamError {
    /// No stream has the given id.
    NotFound,
    /// The caller is not the sender, receiver or administrator the operation needs.
    Unauthorized,
    /// A zero rate or amount, equal parties, or a deposit below the required buffer.
    InvalidArgument,
    /// The operation is not allowed in the stream's current status.
    InvalidState,
    /// The stream's buffer is still above the liquidation threshold.
    NotEligibleForLiquidation,
    /// The receiver has nothing to withdraw right now.
    NothingToWithdraw,
    /// The vault declined or failed the requested movement of value.
    CustodyFailure,
}

/// What the vault answered to a custody request.
#[derive(Clone, Copy, Debug, PartialEq, Eq, Structural)]
pub enum CustodyOutcome {
    Succeeded,
    Failed,
}

/// A movement of value that the ledger needs the vault to perform before an
/// operation can take effect.
#[derive(Clone, Copy, Debug)]
pub enum CustodyRequest {
    /// Lock `amount` of the owner's `token` balance for the stream.
    Allocate { owner: ActorId, token: ActorId, amount: u128, stream_id: StreamId },
    /// Pay `amount` of `token` out to the stream's receiver.
    TransferToReceiver { token: ActorId, receiver: ActorId, amount: u128, stream_id: StreamId },
}

} // verus!
