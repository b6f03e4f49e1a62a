//! Decisions of the cluster's own HTTP endpoints: who may call them, and which status their
//! answers carry.
use vstd::prelude::*;
use vstd::string::*;

use super::membership::ServerState;

verus! {

/// Whether two byte strings are equal, looking at every byte whatever the first difference.
pub fn bytes_eq_constant_time(a: &[u8], b: &[u8]) -> (r: bool)
    ensures
        r == (a@ == b@),
{
    if a.len() != b.len() {
        return false;
    }
    let mut acc: u8 = 0;
    let mut i: usize = 0;
    while i < a.len()
        invariant
            a@.len() == b@.len(),
            i <= a@.len(),
            acc == 0 <==> forall|j: int| 0 <= j < i ==> a@[j] == b@[j],
        decreases a@.len() - i,
    {
        let x = a[i];
        let y = b[i];
        let next = acc | (x ^ y);
        assert(next == 0 <==> (acc == 0 && x == y)) by (bit_vector)
            requires
                next == acc | (x ^ y),
        ;
        acc = next;
        i = i + 1;
    }
    assert(acc == 0 ==> a@ =~= b@);
    acc == 0
}

/// The status a node's Raft endpoints refuse a caller with, if any: where a shared secret is
/// configured, a request needs it as its bearer token.
pub fn raft_auth_status(secret: Option<&str>, bearer: Option<&str>) -> (r: Option<u16>)
    ensures
        r == (match secret {
            None => None,
            Some(s) => match bearer {
                None => Some(401u16),
                Some(b) => if b.spec_bytes() == s.spec_bytes() { None } else { Some(401u16) },
            },
        }),
{
    match secret {
        None => None,
        Some(s) => match bearer {
            None => Some(401),
            Some(b) => if bytes_eq_constant_time(s.as_bytes(), b.as_bytes()) {
                None
            } else {
                Some(401)
            },
        },
    }
}

/// The `Authorization` header that nodes send each other: `Bearer <secret>`.
pub fn bearer_header(secret: &str) -> (h: String)
    ensures
        h@ == "Bearer "@ + secret@,
{
    String::from_str("Bearer ").concat(secret)
}

/// Replies to Raft's requests carry 200 on success and 500 with the error otherwise.
pub fn rpc_status(ok: bool) -> (s: u16)
    ensures
        s == (if ok { 200u16 } else { 500u16 }),
{
    if ok {
        200
    } else {
        500
    }
}

/// A node is healthy while it leads, follows or stands for election.
pub fn health_status(state: ServerState) -> (s: u16)
    ensures
        s == (if state == ServerState::Leader || state == ServerState::Follower || state == ServerState::Candidate {
            200u16
        } else {
            500u16
        }),
{
    match state {
        ServerState::Leader | ServerState::Follower | ServerState::Candidate => 200,
        _ => 500,
    }
}

} // verus!
