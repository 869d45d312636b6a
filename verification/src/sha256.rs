//! Trusted interface to the SHA-256 accumulators that hash the
//! handshake transcript (the CLOG and SLOG digests).
//!
//! What SHA-256 maps a byte sequence to is named, not written out:
//! [`sha256_of`] stands for the digest of a sequence, and the wrappers
//! promise only that an accumulator fed some bytes and finalized yields
//! `sha256_of` of exactly those bytes, in order.  Which bytes go in is
//! tracked by verified code through [`absorbed`].

use sha2::Digest;
use vstd::prelude::*;

verus! {

/// A running SHA-256 computation.
///
/// The inner hasher is `sha2::Sha256`, held in a hidden field: that type
/// is an alias into its crate's generic wrapper machinery and cannot be
/// declared directly, so the whole struct is opaque and [`absorbed`]
/// names what it has been fed.
#[verifier::external_body]
#[derive(Debug)]
pub struct Sha256State {
    inner: sha2::Sha256,
}

/// The bytes an accumulator has absorbed so far, in order.
pub uninterp spec fn absorbed(s: Sha256State) -> Seq<u8>;

/// The SHA-256 digest (32 bytes) of a byte sequence.
pub uninterp spec fn sha256_of(bytes: Seq<u8>) -> Seq<u8>;

impl Sha256State {
    /// Relies on `sha2::Sha256::new` (`digest::Digest::new`): a fresh
    /// accumulator has absorbed nothing.
    #[verifier::external_body]
    pub fn new() -> (r: Self)
        ensures
            absorbed(r) == Seq::<u8>::empty(),
    {
        Sha256State { inner: sha2::Sha256::new() }
    }

    /// Relies on `digest::Digest::update`: feeding bytes appends them,
    /// in order, to what the accumulator has absorbed.
    #[verifier::external_body]
    pub fn update(&mut self, data: &[u8])
        ensures
            absorbed(*final(self)) == absorbed(*old(self)) + data@,
    {
        self.inner.update(data)
    }

    /// Relies on `digest::Digest::finalize`: the result is the SHA-256
    /// digest of exactly the absorbed bytes, the same value that hashing
    /// the whole sequence at once would give.
    #[verifier::external_body]
    pub fn finalize(self) -> (r: [u8; 32])
        ensures
            r@ == sha256_of(absorbed(self)),
    {
        self.inner.finalize().into()
    }
}

} // verus!
