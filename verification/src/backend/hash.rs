//! Hash backend over `ring`'s digest primitives.
//!
//! [`RingContext`] pairs `ring`'s opaque incremental digest state with a
//! ghost transcript of the bytes fed so far; the trusted wrappers below
//! keep the two in step, and everything else in the module is verified
//! against them.  [`RingHash`] carries a digest of the empty input,
//! computed once at construction — the common transcript-initialization
//! case — so `compute_empty` never rehashes a fixed value.

use crate::enums::HashAlgorithm;
use crate::hash::{digest_len, digest_of, HashContext, HashProvider, Output, HASH_MAX_OUTPUT};
use vstd::prelude::*;

verus! {

#[verifier::external_type_specification]
#[verifier::external_body]
pub struct ExRingDigestContext(ring::digest::Context);

/// Incremental digest computation backed by `ring`, tracking as a ghost
/// transcript the bytes hashed so far.
pub struct RingContext {
    inner: ring::digest::Context,
    alg: HashAlgorithm,
    hashed: Ghost<Seq<u8>>,
}

/// Relies on ring::digest::Context::new: a fresh context computing the
/// given algorithm, with nothing hashed yet.
#[verifier::external_body]
fn raw_context_new(alg: HashAlgorithm) -> ring::digest::Context {
    let a = match alg {
        HashAlgorithm::SHA256 => &ring::digest::SHA256,
        HashAlgorithm::SHA384 => &ring::digest::SHA384,
    };
    ring::digest::Context::new(a)
}

/// Relies on ring::digest::Context::update: appends the bytes to the
/// running computation of the same algorithm.
#[verifier::external_body]
fn context_update(c: &mut RingContext, data: &[u8])
    ensures
        final(c).alg == old(c).alg,
        final(c).hashed@ == old(c).hashed@ + data@,
{
    c.inner.update(data);
}

/// Relies on Clone for ring::digest::Context: an independent copy of the
/// running computation, sharing no mutable state with the original.
#[verifier::external_body]
fn context_fork(c: &RingContext) -> (r: RingContext)
    ensures
        r.alg == c.alg,
        r.hashed@ == c.hashed@,
{
    RingContext { inner: c.inner.clone(), alg: c.alg, hashed: c.hashed }
}

/// Relies on ring::digest::Context::finish: the digest of exactly the
/// bytes fed in, whose length is the algorithm's documented output length
/// (32 bytes for SHA-256, 48 for SHA-384).
#[verifier::external_body]
fn context_finish(c: RingContext) -> (r: Vec<u8>)
    ensures
        r@ == digest_of(c.alg, c.hashed@),
        r@.len() == digest_len(c.alg),
{
    c.inner.finish().as_ref().to_vec()
}

/// Starts a fresh computation of `alg` with an empty transcript.
fn context_new(alg: HashAlgorithm) -> (r: RingContext)
    ensures
        r.alg_spec() == alg,
        r.transcript() == Seq::<u8>::empty(),
{
    RingContext { inner: raw_context_new(alg), alg, hashed: Ghost(Seq::empty()) }
}

impl HashContext for RingContext {
    closed spec fn alg_spec(&self) -> HashAlgorithm {
        self.alg
    }

    closed spec fn transcript(&self) -> Seq<u8> {
        self.hashed@
    }

    fn update(&mut self, data: &[u8]) {
        context_update(self, data);
    }

    fn fork(&self) -> (r: Self) {
        context_fork(self)
    }

    fn fork_finish(&self) -> (r: Output) {
        self.fork().finish()
    }

    fn finish(self) -> (r: Output) {
        let bytes = context_finish(self);
        Output::new(bytes.as_slice())
    }
}

/// A hash algorithm instance backed by `ring`, bundling the algorithm
/// identity with the digest of the empty input computed once up front.
pub struct RingHash {
    alg: HashAlgorithm,
    empty: Vec<u8>,
}

impl RingHash {
    /// The stored empty-input digest is exactly what the backend computes
    /// for no bytes, at the algorithm's output length.
    #[verifier::type_invariant]
    closed spec fn inv(self) -> bool {
        &&& self.empty@ == digest_of(self.alg, Seq::<u8>::empty())
        &&& self.empty@.len() == digest_len(self.alg)
    }

    /// Builds the instance for `alg`, computing the empty-input digest
    /// once so that later `compute_empty` calls return it directly.
    pub fn new(alg: HashAlgorithm) -> (r: Self)
        ensures
            r.alg_spec() == alg,
    {
        let ctx = context_new(alg);
        let empty = context_finish(ctx);
        RingHash { alg, empty }
    }
}

impl HashProvider for RingHash {
    type Ctx = RingContext;

    closed spec fn alg_spec(&self) -> HashAlgorithm {
        self.alg
    }

    fn algorithm(&self) -> (r: HashAlgorithm) {
        self.alg
    }

    fn output_len(&self) -> (r: usize) {
        match self.alg {
            HashAlgorithm::SHA256 => 32,
            HashAlgorithm::SHA384 => 48,
        }
    }

    fn start(&self) -> (r: RingContext) {
        context_new(self.alg)
    }

    fn compute(&self, data: &[u8]) -> (r: Output) {
        let mut ctx = self.start();
        ctx.update(data);
        ctx.finish()
    }

    fn compute_empty(&self) -> (r: Output) {
        proof {
            use_type_invariant(&self);
        }
        Output::new(self.empty.as_slice())
    }
}

} // verus!
