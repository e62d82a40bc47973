use vstd::prelude::*;

use sails_rs::prelude::Encode;

use crate::types::{ActorId, CustodyRequest};

verus! {

/// The `n` least significant bytes of `x`, least significant first.
pub open spec fn le_bytes(x: nat, n: nat) -> Seq<u8>
    decreases n,
{
    if n == 0 {
        Seq::empty()
    } else {
        seq![(x % 256) as u8] + le_bytes(x / 256, (n - 1) as nat)
    }
}

/// Every character of `s` is ASCII, so its UTF-8 bytes are its characters.
pub open spec fn is_ascii(s: Seq<char>) -> bool {
    forall|i: int| 0 <= i < s.len() ==> (s[i] as u32) < 128
}

/// The SCALE form of an ASCII string shorter than 64 bytes: the one-byte
/// compact length (`len << 2`), then the bytes.
pub open spec fn scale_short_str(s: Seq<char>) -> Seq<u8> {
    seq![(s.len() * 4) as u8] + s.map_values(|c: char| (c as u32) as u8)
}

/// Relies on parity-scale-codec's `Encode` for `str`: a compact length
/// prefix, one byte `len << 2` below 64 bytes, then the UTF-8 bytes.
#[verifier::external_body]
fn encode_str(s: &str) -> (r: Vec<u8>)
    requires
        s@.len() < 64,
        is_ascii(s@),
    ensures
        r@ == scale_short_str(s@),
{
    s.encode()
}

/// Relies on parity-scale-codec's `Encode` for the tuple
/// `(ActorId, ActorId, u128, u64)` of gprimitives: the fields in order, an
/// `ActorId` as its 32 bytes, the integers little-endian.
#[verifier::external_body]
fn encode_custody_args(first: ActorId, second: ActorId, amount: u128, stream_id: u64) -> (r: Vec<u8>)
    ensures
        r@ == first@ + second@ + le_bytes(amount as nat, 16) + le_bytes(stream_id as nat, 8),
{
    (sails_rs::ActorId::from(first.0), sails_rs::ActorId::from(second.0), amount, stream_id).encode()
}

/// The vault message for a custody request: service name, method name and
/// arguments, each in SCALE form.
pub open spec fn payload_bytes(req: CustodyRequest) -> Seq<u8> {
    match req {
        CustodyRequest::Allocate { owner, token, amount, stream_id } => scale_short_str(
            "VaultService"@,
        ) + scale_short_str("AllocateToStream"@) + owner@ + token@ + le_bytes(amount as nat, 16)
            + le_bytes(stream_id as nat, 8),
        CustodyRequest::TransferToReceiver { token, receiver, amount, stream_id } => scale_short_str(
            "VaultService"@,
        ) + scale_short_str("TransferToReceiver"@) + token@ + receiver@ + le_bytes(amount as nat, 16)
            + le_bytes(stream_id as nat, 8),
    }
}

/// Frames a custody request as the message to send to the vault.
pub fn custody_payload(req: &CustodyRequest) -> (r: Vec<u8>)
    ensures
        r@ == payload_bytes(*req),
{
    proof {
        reveal_strlit("VaultService");
        reveal_strlit("AllocateToStream");
        reveal_strlit("TransferToReceiver");
    }
    let mut payload = encode_str("VaultService");
    let (mut method, mut args) = match *req {
        CustodyRequest::Allocate { owner, token, amount, stream_id } => (
            encode_str("AllocateToStream"),
            encode_custody_args(owner, token, amount, stream_id),
        ),
        CustodyRequest::TransferToReceiver { token, receiver, amount, stream_id } => (
            encode_str("TransferToReceiver"),
            encode_custody_args(token, receiver, amount, stream_id),
        ),
    };
    payload.append(&mut method);
    payload.append(&mut args);
    payload
}

} // verus!
