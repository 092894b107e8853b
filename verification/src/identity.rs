//! The identity handshake payload.
//!
//! Once per fresh connection, the agent sends a single self-contained
//! JSON object holding exactly its two configuration fields:
//! `{"location":<location>,"room":<room>}`. The payload is a pure function
//! of the two fields, so identical inputs give byte-identical output.

use vstd::prelude::*;
use crate::bytes::append_bytes;

verus! {

/// The agent's startup identity: two free-text fields, fixed for the
/// process lifetime, as UTF-8 bytes.
#[derive(Clone, Debug)]
pub struct Identity {
    pub location: Vec<u8>,
    pub room: Vec<u8>,
}

/// The bytes of `{"location":"`.
pub open spec fn identity_prefix() -> Seq<u8> {
    seq![123u8, 34u8, 108u8, 111u8, 99u8, 97u8, 116u8, 105u8, 111u8, 110u8, 34u8, 58u8, 34u8]
}

/// The bytes of `","room":"`.
pub open spec fn identity_mid() -> Seq<u8> {
    seq![34u8, 44u8, 34u8, 114u8, 111u8, 111u8, 109u8, 34u8, 58u8, 34u8]
}

/// The bytes of `"}`.
pub open spec fn identity_suffix() -> Seq<u8> {
    seq![34u8, 125u8]
}

/// The handshake payload for the given fields: a single JSON object
/// holding exactly `location` and `room`, in that order.
pub open spec fn identity_payload_spec(location: Seq<u8>, room: Seq<u8>) -> Seq<u8> {
    identity_prefix() + location + identity_mid() + room + identity_suffix()
}

/// Formats the handshake payload sent as the first bytes on the wire.
pub fn identity_payload(id: &Identity) -> (r: Vec<u8>)
    ensures
        r@ == identity_payload_spec(id.location@, id.room@),
{
    let mut out: Vec<u8> = Vec::new();
    out.push(123u8);
    out.push(34u8);
    out.push(108u8);
    out.push(111u8);
    out.push(99u8);
    out.push(97u8);
    out.push(116u8);
    out.push(105u8);
    out.push(111u8);
    out.push(110u8);
    out.push(34u8);
    out.push(58u8);
    out.push(34u8);
    proof {
        assert(out@ =~= identity_prefix());
    }
    append_bytes(&mut out, id.location.as_slice());
    out.push(34u8);
    out.push(44u8);
    out.push(34u8);
    out.push(114u8);
    out.push(111u8);
    out.push(111u8);
    out.push(109u8);
    out.push(34u8);
    out.push(58u8);
    out.push(34u8);
    proof {
        assert(out@ =~= identity_prefix() + id.location@ + identity_mid());
    }
    append_bytes(&mut out, id.room.as_slice());
    out.push(34u8);
    out.push(125u8);
    proof {
        assert(out@ =~= identity_payload_spec(id.location@, id.room@));
    }
    out
}

/// The payload holds exactly the two configured fields: it is the fixed
/// JSON framing with `location` and `room` standing in their slots, and
/// nothing else, so its bytes are determined by the two fields alone.
pub proof fn lemma_payload_embeds_fields(location: Seq<u8>, room: Seq<u8>)
    ensures
        identity_payload_spec(location, room).len() == identity_prefix().len() + location.len()
            + identity_mid().len() + room.len() + identity_suffix().len(),
        identity_payload_spec(location, room).subrange(
            identity_prefix().len() as int,
            (identity_prefix().len() + location.len()) as int,
        ) == location,
        identity_payload_spec(location, room).subrange(
            (identity_prefix().len() + location.len() + identity_mid().len()) as int,
            (identity_prefix().len() + location.len() + identity_mid().len() + room.len()) as int,
        ) == room,
{
    let p = identity_payload_spec(location, room);
    assert(p.subrange(
        identity_prefix().len() as int,
        (identity_prefix().len() + location.len()) as int,
    ) =~= location);
    assert(p.subrange(
        (identity_prefix().len() + location.len() + identity_mid().len()) as int,
        (identity_prefix().len() + location.len() + identity_mid().len() + room.len()) as int,
    ) =~= room);
}

/// The bytes of the keep-alive probe, the literal text `KEEP_ALIVE`.
pub open spec fn keep_alive_spec() -> Seq<u8> {
    seq![75u8, 69u8, 69u8, 80u8, 95u8, 65u8, 76u8, 73u8, 86u8, 69u8]
}

/// The keep-alive probe sent periodically on an otherwise idle connection.
pub fn keep_alive_bytes() -> (r: Vec<u8>)
    ensures
        r@ == keep_alive_spec(),
{
    let mut out: Vec<u8> = Vec::new();
    out.push(75u8);
    out.push(69u8);
    out.push(69u8);
    out.push(80u8);
    out.push(95u8);
    out.push(65u8);
    out.push(76u8);
    out.push(73u8);
    out.push(86u8);
    out.push(69u8);
    proof {
        assert(out@ =~= keep_alive_spec());
    }
    out
}

} // verus!
