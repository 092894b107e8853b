//! Outbound directive URLs.
//!
//! A resolved directive becomes one fire-and-forget HTTP GET to a fixed,
//! well-known port and path on the target machine:
//! `http://<address>:8080/action/putInStartMode`. Success and failure of
//! that request are both ignored by the session; a lost directive must
//! never stall or break the control connection.

use vstd::prelude::*;
use crate::bytes::append_bytes;

verus! {

/// The bytes of `http://`.
pub open spec fn url_prefix() -> Seq<u8> {
    seq![104u8, 116u8, 116u8, 112u8, 58u8, 47u8, 47u8]
}

/// The bytes of `:8080/action/putInStartMode`.
pub open spec fn url_suffix() -> Seq<u8> {
    seq![
        58u8,
        56u8,
        48u8,
        56u8,
        48u8,
        47u8,
        97u8,
        99u8,
        116u8,
        105u8,
        111u8,
        110u8,
        47u8,
        112u8,
        117u8,
        116u8,
        73u8,
        110u8,
        83u8,
        116u8,
        97u8,
        114u8,
        116u8,
        77u8,
        111u8,
        100u8,
        101u8,
    ]
}

/// The trigger URL for a resolved address.
pub open spec fn url_spec(addr: Seq<u8>) -> Seq<u8> {
    url_prefix() + addr + url_suffix()
}

/// Builds the outbound trigger URL for a resolved machine address.
pub fn url_for(addr: &[u8]) -> (r: Vec<u8>)
    ensures
        r@ == url_spec(addr@),
{
    let mut out: Vec<u8> = Vec::new();
    out.push(104u8);
    out.push(116u8);
    out.push(116u8);
    out.push(112u8);
    out.push(58u8);
    out.push(47u8);
    out.push(47u8);
    proof {
        assert(out@ =~= url_prefix());
    }
    append_bytes(&mut out, addr);
    out.push(58u8);
    out.push(56u8);
    out.push(48u8);
    out.push(56u8);
    out.push(48u8);
    out.push(47u8);
    out.push(97u8);
    out.push(99u8);
    out.push(116u8);
    out.push(105u8);
    out.push(111u8);
    out.push(110u8);
    out.push(47u8);
    out.push(112u8);
    out.push(117u8);
    out.push(116u8);
    out.push(73u8);
    out.push(110u8);
    out.push(83u8);
    out.push(116u8);
    out.push(97u8);
    out.push(114u8);
    out.push(116u8);
    out.push(77u8);
    out.push(111u8);
    out.push(100u8);
    out.push(101u8);
    proof {
        assert(out@ =~= url_spec(addr@));
    }
    out
}

} // verus!
