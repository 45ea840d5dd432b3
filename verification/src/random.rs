//! Random bytes, for the tools that make up identifiers.

use vstd::prelude::*;

verus! {

/// Fills a fresh buffer of `len` bytes with `fill_bytes` of
/// `rand::thread_rng()`. Nothing is known of the bytes but their number.
#[verifier::external_body]
pub(crate) fn thread_random(len: usize) -> (bytes: Vec<u8>)
    ensures
        bytes@.len() == len,
{
    let mut data = vec![0u8; len];
    rand::RngCore::fill_bytes(&mut rand::thread_rng(), &mut data[..]);
    data
}

/// Draws a `u32` with `gen` of `rand::thread_rng()`.
#[verifier::external_body]
pub(crate) fn thread_random_u32() -> (n: u32) {
    rand::Rng::gen(&mut rand::thread_rng())
}

/// Draws a `u64` with `gen` of `rand::thread_rng()`.
#[verifier::external_body]
pub(crate) fn thread_random_u64() -> (n: u64) {
    rand::Rng::gen(&mut rand::thread_rng())
}

/// Samples `len` characters from `rand::distributions::Alphanumeric`,
/// which yields ASCII letters and digits only.
#[verifier::external_body]
pub(crate) fn thread_random_alphanumeric(len: usize) -> (text: String)
    ensures
        text@.len() == len,
        forall|i: int| 0 <= i < text@.len() ==> is_alphanumeric(#[trigger] text@[i]),
{
    rand::Rng::sample_iter(rand::thread_rng(), &rand::distributions::Alphanumeric)
        .take(len)
        .map(char::from)
        .collect()
}

/// The text of `libp2p_identity::PeerId::random()`.
#[verifier::external_body]
pub(crate) fn random_peer_text() -> (text: String) {
    libp2p_identity::PeerId::random().to_string()
}

/// The text of `uuid::Uuid::new_v4()`.
#[verifier::external_body]
pub(crate) fn random_uuid_text() -> (text: String) {
    uuid::Uuid::new_v4().to_string()
}

/// Whether a character is an ASCII letter or digit.
pub open spec fn is_alphanumeric(c: char) -> bool {
    ||| 'a' <= c <= 'z'
    ||| 'A' <= c <= 'Z'
    ||| '0' <= c <= '9'
}

/// A random text of `len` ASCII letters and digits.
pub fn random_alphanumeric(len: usize) -> (text: String)
    ensures
        text@.len() == len,
        forall|i: int| 0 <= i < text@.len() ==> is_alphanumeric(#[trigger] text@[i]),
{
    thread_random_alphanumeric(len)
}

/// `len` random bytes.
pub fn random_bytes(len: usize) -> (bytes: Vec<u8>)
    ensures
        bytes@.len() == len,
{
    thread_random(len)
}

} // verus!
