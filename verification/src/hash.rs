//! Hashing capability interfaces: algorithm identity, one-shot and
//! incremental digest computation, forking and checkpointing.
//!
//! A [`HashContext`] models an incremental computation by the exact sequence of
//! bytes fed into it so far (its *transcript*).  `fork` branches that
//! transcript so the same prefix can be extended two different ways, and
//! `fork_finish` reads the digest as of now without ending the live
//! computation — the two primitives a protocol engine needs to checkpoint a
//! growing message transcript at several points without recomputing
//! prefixes.

use crate::enums::HashAlgorithm;
use vstd::prelude::*;
use vstd::slice::slice_to_vec;

verus! {

/// The digest that the backend's hash primitive yields for `alg` on the
/// byte sequence `data`.  The value is pinned down only by the backend
/// that computes it; every contract in this crate speaks of digests
/// through this one name.
pub uninterp spec fn digest_of(alg: HashAlgorithm, data: Seq<u8>) -> Seq<u8>;

/// Output length in bytes of each supported digest algorithm.
pub open spec fn digest_len(alg: HashAlgorithm) -> nat {
    match alg {
        HashAlgorithm::SHA256 => 32,
        HashAlgorithm::SHA384 => 48,
    }
}

/// Maximum supported hash output size: enough for the largest supported
/// digest.
pub const HASH_MAX_OUTPUT: usize = 64;

/// A hash output, stored as a value of at most [`HASH_MAX_OUTPUT`] bytes.
pub struct Output {
    bytes: Vec<u8>,
}

impl View for Output {
    type V = Seq<u8>;

    closed spec fn view(&self) -> Seq<u8> {
        self.bytes@
    }
}

impl Output {
    /// The bytes an `Output` holds never exceed its fixed capacity.
    pub open spec fn wf(&self) -> bool {
        self@.len() <= HASH_MAX_OUTPUT
    }

    /// Copies `bytes` into a new owned output value.
    pub fn new(bytes: &[u8]) -> (r: Self)
        requires
            bytes@.len() <= HASH_MAX_OUTPUT,
        ensures
            r@ == bytes@,
            r.wf(),
    {
        Output { bytes: slice_to_vec(bytes) }
    }

    /// Read-only view of the bytes, sized to what is used.
    pub fn as_ref(&self) -> (r: &[u8])
        ensures
            r@ == self@,
    {
        self.bytes.as_slice()
    }
}

/// Opaque mutable incremental-computation state over one algorithm.
///
/// A context is not implicitly duplicable: duplication goes through
/// [`HashContext::fork`], after which the two sides share an identical logical
/// prefix and advance independently.
pub trait HashContext: Sized {
    /// Which algorithm this context computes.
    spec fn alg_spec(&self) -> HashAlgorithm;

    /// The bytes fed into this computation so far.
    spec fn transcript(&self) -> Seq<u8>;

    /// Add `data` to the computation.  Callable any number of times,
    /// including zero.
    fn update(&mut self, data: &[u8])
        ensures
            final(self).alg_spec() == old(self).alg_spec(),
            final(self).transcript() == old(self).transcript() + data@,
    ;

    /// Fork the computation, producing an independent continuation with
    /// the same prefix as this one.
    fn fork(&self) -> (r: Self)
        ensures
            r.alg_spec() == self.alg_spec(),
            r.transcript() == self.transcript(),
    ;

    /// The digest as of now, as a non-destructive checkpoint: the
    /// computation remains valid and more data can be added later with
    /// `update`.
    fn fork_finish(&self) -> (r: Output)
        ensures
            r@ == digest_of(self.alg_spec(), self.transcript()),
            r.wf(),
    ;

    /// Terminate the computation, consuming it and returning the final
    /// digest.
    fn finish(self) -> (r: Output)
        ensures
            r@ == digest_of(self.alg_spec(), self.transcript()),
            r.wf(),
    ;
}

/// A hash algorithm instance: identity, output length, and entry points
/// for one-shot and incremental computation.  Hashing is pure computation
/// with no failure modes.
pub trait HashProvider: Sized {
    /// The incremental-computation state this instance hands out.
    type Ctx: HashContext;

    /// Which algorithm this instance computes.
    spec fn alg_spec(&self) -> HashAlgorithm;

    /// Return the identity of this algorithm.
    fn algorithm(&self) -> (r: HashAlgorithm)
        ensures
            r == self.alg_spec(),
    ;

    /// Return the output length of this algorithm, in bytes.
    fn output_len(&self) -> (r: usize)
        ensures
            r == digest_len(self.alg_spec()),
    ;

    /// Start a new incremental computation with nothing hashed yet.
    fn start(&self) -> (r: Self::Ctx)
        ensures
            r.alg_spec() == self.alg_spec(),
            r.transcript() == Seq::<u8>::empty(),
    ;

    /// One-shot digest of `data`.
    fn compute(&self, data: &[u8]) -> (r: Output)
        ensures
            r@ == digest_of(self.alg_spec(), data@),
            r.wf(),
    ;

    /// Digest of the empty input, an optimized zero-length path.
    fn compute_empty(&self) -> (r: Output)
        ensures
            r@ == digest_of(self.alg_spec(), Seq::<u8>::empty()),
            r.wf(),
    {
        let empty: Vec<u8> = Vec::new();
        self.compute(empty.as_slice())
    }
}

/// For every algorithm, the optimized empty-input path agrees with the
/// one-shot computation on no bytes: the two outputs returned here are
/// equal byte for byte.
pub fn empty_digest_law<H: HashProvider>(h: &H) -> (r: (Output, Output))
    ensures
        r.0@ == r.1@,
{
    let via_empty = h.compute_empty();
    let empty: Vec<u8> = Vec::new();
    let via_compute = h.compute(empty.as_slice());
    (via_empty, via_compute)
}

/// Prefix/fork law: for any split `s == p ++ q`, extending a fork taken
/// after `p` by `q` finishes to the same digest as hashing `s` outright.
/// The first output is `start().update(p).fork().update(q).finish()`, the
/// second is `start().update(s).finish()`, and they are equal byte for
/// byte.
pub fn fork_prefix_law<H: HashProvider>(h: &H, p: &[u8], q: &[u8], s: &[u8]) -> (r: (Output, Output))
    requires
        s@ == p@ + q@,
    ensures
        r.0@ == r.1@,
{
    let mut origin = h.start();
    origin.update(p);
    let mut forked = origin.fork();
    forked.update(q);
    let via_fork = forked.finish();

    let mut direct = h.start();
    direct.update(s);
    let whole = direct.finish();

    proof {
        assert(Seq::<u8>::empty() + p@ + q@ == Seq::<u8>::empty() + s@);
    }
    (via_fork, whole)
}

/// Non-destructive checkpoint law: after `update(x)`, `fork_finish()`
/// reads the digest of `x` while the context stays live, and a later
/// `update(y)` then `finish()` yields the digest of `x ++ y`.  The outputs
/// are, in order: the checkpoint, the final digest, a fresh
/// `start().update(x).finish()`, and a fresh digest of `x ++ y`; the first
/// equals the third and the second equals the fourth, byte for byte.
pub fn checkpoint_law<H: HashProvider>(h: &H, x: &[u8], y: &[u8]) -> (r: (Output, Output, Output, Output))
    ensures
        r.0@ == r.2@,
        r.1@ == r.3@,
{
    let mut live = h.start();
    live.update(x);
    let checkpoint = live.fork_finish();
    live.update(y);
    let last = live.finish();

    let mut fresh_x = h.start();
    fresh_x.update(x);
    let of_x = fresh_x.finish();

    let mut fresh_xy = h.start();
    fresh_xy.update(x);
    fresh_xy.update(y);
    let of_xy = fresh_xy.finish();

    (checkpoint, last, of_x, of_xy)
}

} // verus!
