//! Login tokens: random bytes, written in hexadecimal.

use rand::rngs::StdRng;
use rand::{RngCore, SeedableRng};
use vstd::prelude::*;

verus! {

/// How many random bytes a login token is made of.
pub const TOKEN_BYTES: usize = 256;

/// The sixteen digits, in their order.
pub open spec fn hex_digits() -> Seq<char> {
    seq!['0', '1', '2', '3', '4', '5', '6', '7', '8', '9', 'a', 'b', 'c', 'd', 'e', 'f']
}

/// The bytes in lower-case hexadecimal: two digits for each byte, the high
/// half first.
pub open spec fn hex_text(bytes: Seq<u8>) -> Seq<char> {
    Seq::new(
        2 * bytes.len(),
        |i: int|
            if i % 2 == 0 {
                hex_digits()[bytes[i / 2] as int / 16]
            } else {
                hex_digits()[bytes[i / 2] as int % 16]
            },
    )
}

/// `t` is the text of some token: `TOKEN_BYTES` bytes in hexadecimal.
pub open spec fn is_token_text(t: Seq<char>) -> bool {
    exists|bytes: Seq<u8>| bytes.len() == TOKEN_BYTES && #[trigger] hex_text(bytes) == t
}

#[verifier::external_type_specification]
#[verifier::external_body]
pub struct ExStdRng(rand::rngs::StdRng);

/// `hex::encode`: each byte becomes two characters taken from
/// `0123456789abcdef`, the one for its high four bits first.
#[verifier::external_body]
fn hex_encode(data: &Vec<u8>) -> (s: String)
    ensures
        s@ == hex_text(data@),
{
    hex::encode(data)
}

/// `StdRng::from_entropy`: a generator seeded by the operating system.
/// Nothing is claimed of it. It panics where the system gives no entropy.
#[verifier::external_body]
fn entropy_rng() -> StdRng {
    StdRng::from_entropy()
}

/// `RngCore::fill_bytes` of `StdRng`: overwrites the bytes of `dest`. Only
/// that `dest` keeps its length is claimed.
#[verifier::external_body]
fn fill_random(rng: &mut StdRng, dest: &mut Vec<u8>)
    ensures
        final(dest)@.len() == old(dest)@.len(),
{
    rng.fill_bytes(dest.as_mut_slice())
}

/// The token that `bytes` spell.
pub fn token_text(bytes: &Vec<u8>) -> (t: String)
    ensures
        t@ == hex_text(bytes@),
{
    hex_encode(bytes)
}

/// `TOKEN_BYTES` random bytes.
pub fn random_token_bytes() -> (bytes: Vec<u8>)
    ensures
        bytes@.len() == TOKEN_BYTES,
{
    let mut bytes: Vec<u8> = Vec::new();
    let mut i: usize = 0;
    while i < TOKEN_BYTES
        invariant
            i <= TOKEN_BYTES,
            bytes@.len() == i,
        decreases TOKEN_BYTES - i,
    {
        bytes.push(0u8);
        i += 1;
    }
    let mut rng = entropy_rng();
    fill_random(&mut rng, &mut bytes);
    bytes
}

/// A fresh login token: random bytes from a generator that the operating
/// system seeds, in hexadecimal.
pub fn new_auth_token() -> (t: String)
    ensures
        is_token_text(t@),
{
    let bytes = random_token_bytes();
    let t = token_text(&bytes);
    assert(hex_text(bytes@) == t@);
    t
}

} // verus!
