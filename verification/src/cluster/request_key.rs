//! The key hash that traces record for a request: the SHA-256 of the key it touches, in
//! lower-case hex.
use vstd::prelude::*;

use super::types::RequestModule;

verus! {

/// The SHA-256 digest of some bytes.
pub uninterp spec fn sha256_digest(data: Seq<u8>) -> Seq<u8>;

/// Calls `sha2::Sha256::digest`; the contract says that the result is the SHA-256 digest
/// of the input (named, not stated), and that it is 32 bytes long, as SHA-256 outputs are.
#[verifier::external_body]
fn sha256(data: &[u8]) -> (r: Vec<u8>)
    ensures
        r@ == sha256_digest(data@),
        r@.len() == 32,
{
    <sha2::Sha256 as sha2::Digest>::digest(data).to_vec()
}

/// The lower-case hex digit of a value below 16.
pub open spec fn hex_digit(d: nat) -> char {
    if d < 10 {
        (d + 48) as char
    } else {
        (d + 87) as char
    }
}

/// Each byte as two lower-case hex digits, high nibble first.
pub open spec fn hex_lower(bytes: Seq<u8>) -> Seq<char>
    decreases bytes.len(),
{
    if bytes.len() == 0 {
        Seq::empty()
    } else {
        seq![hex_digit((bytes[0] / 16) as nat), hex_digit((bytes[0] % 16) as nat)] + hex_lower(bytes.drop_first())
    }
}

/// Calls `hex::encode`, which writes each byte as two lower-case hex digits, high nibble
/// first; the contract states exactly that.
#[verifier::external_body]
fn hex_encode(data: &[u8]) -> (r: String)
    ensures
        r@ == hex_lower(data@),
{
    hex::encode(data)
}

/// The text that a digest is recorded as.
pub fn key_hash_text(digest: &[u8]) -> (r: String)
    ensures
        r@ == hex_lower(digest@),
{
    hex_encode(digest)
}

pub open spec fn hashed_key_spec(module: RequestModule, key_name: Option<Seq<u8>>) -> Option<Seq<char>> {
    if module == RequestModule::ClusterInternal {
        None
    } else {
        match key_name {
            Some(k) => Some(hex_lower(sha256_digest(k))),
            None => None,
        }
    }
}

/// The hashed key of a request of `module` that touches `key_name`: none for the cluster's
/// own requests, or where the operation names no key.
pub fn hashed_key(module: RequestModule, key_name: Option<&[u8]>) -> (r: Option<String>)
    ensures
        (match r {
            Some(s) => Some(s@),
            None => None,
        }) == hashed_key_spec(module, match key_name {
            Some(k) => Some(k@),
            None => None,
        }),
{
    if !module.has_hashed_key() {
        return None;
    }
    match key_name {
        Some(k) => {
            let digest = sha256(k);
            Some(key_hash_text(digest.as_slice()))
        },
        None => None,
    }
}

} // verus!
