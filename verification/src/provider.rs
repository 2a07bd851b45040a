//! Pluggable crypto provider framework: the capability traits that bind
//! the protocol engine to one backend selected at build time, so that
//! every cryptographic call path resolves to a concrete implementation
//! with no runtime indirection.

use crate::enums::{NamedGroup, SupportedCipherSuite};
use crate::error::{Error, GetRandomFailed};
use vstd::prelude::*;

verus! {

/// Enumerates possible key exchange errors.
#[derive(Clone, Copy, PartialEq, Eq, Structural, Debug)]
pub enum KeyExchangeError {
    /// The requested group is not among the supported ones.  Recoverable:
    /// the caller may try another group or abort negotiation.
    UnsupportedGroup,
    /// Key generation failed while starting the exchange.
    KeyExchangeFailed(GetRandomFailed),
}

/// A supported key exchange group that can be identified by name.
pub trait SupportedGroup: Sized {
    /// The named group this group descriptor operates in.
    spec fn name_spec(&self) -> NamedGroup;

    /// Length in bytes of the public key encoding this group uses.
    spec fn pub_key_len_spec(&self) -> nat;

    /// Length in bytes of the shared secret this group derives.
    spec fn secret_len_spec(&self) -> nat;

    /// Return the named group this descriptor operates in.
    fn name(&self) -> (r: NamedGroup)
        ensures
            r == self.name_spec(),
    ;
}

/// An in-progress ephemeral key exchange over a [`SupportedGroup`].
///
/// Lifecycle: created by `start` (or `choose_group`), which generates fresh
/// ephemeral key material; consumed exactly once by `complete`, which
/// takes the exchange by value so that reuse after consumption is
/// statically impossible.
pub trait KeyExchange: Sized {
    /// The group family this key exchange operates over.
    type SupportedGroup: SupportedGroup;

    /// The named group of this in-flight exchange.
    spec fn group_spec(&self) -> NamedGroup;

    /// The public key bytes of this in-flight exchange.
    spec fn pub_key_spec(&self) -> Seq<u8>;

    /// The fixed length of the shared secret this exchange will derive.
    spec fn secret_len_spec(&self) -> nat;

    /// The full statically compiled group set, in preference order.
    spec fn all_groups_spec() -> Seq<Self::SupportedGroup>;

    /// Start a key exchange over the element of `supported` named `name`.
    ///
    /// Fails with `UnsupportedGroup` exactly when no element of
    /// `supported` has that name (in particular whenever `supported` is
    /// empty), and with `KeyExchangeFailed` when a matching group is
    /// found but key generation fails.
    fn choose_group(name: NamedGroup, supported: &[Self::SupportedGroup]) -> (r: Result<
        Self,
        KeyExchangeError,
    >)
        ensures
            (r == Err::<Self, KeyExchangeError>(KeyExchangeError::UnsupportedGroup)) <==> (forall|
                i: int,
            |
                0 <= i < supported@.len() ==> supported@[i].name_spec() != name),
            r matches Ok(kx) ==> kx.group_spec() == name,
    ;

    /// Start a key exchange over `skxg`: generate fresh ephemeral key
    /// material, exposing the group identity and the public key.  Fails
    /// only if secure random generation fails.
    fn start(skxg: &Self::SupportedGroup) -> (r: Result<Self, GetRandomFailed>)
        ensures
            r matches Ok(kx) ==> {
                &&& kx.group_spec() == skxg.name_spec()
                &&& kx.pub_key_spec().len() == skxg.pub_key_len_spec()
                &&& kx.secret_len_spec() == skxg.secret_len_spec()
            },
    ;

    /// Complete the key exchange with the peer's public key, consuming
    /// it.
    ///
    /// The shared secret is computed internally and passed, borrowed and
    /// only for the duration of the call, into `f`; the raw secret is
    /// never returned from this operation.  On success the result is
    /// exactly what `f` returned for a secret of this exchange's fixed
    /// length; a failed agreement or a failure inside `f` surfaces as the
    /// one opaque handshake failure, never inspected further.
    fn complete<T, F: FnOnce(&[u8]) -> Result<T, ()>>(self, peer: &[u8], f: F) -> (r: Result<
        T,
        Error,
    >)
        requires
            forall|s: &[u8]| s@.len() == self.secret_len_spec() ==> call_requires(f, (s,)),
        ensures
            r matches Ok(t) ==> exists|s: &[u8]|
                s@.len() == self.secret_len_spec() && call_ensures(f, (s,), Ok::<T, ()>(t)),
            r matches Err(e) ==> e == Error::GenericHandshakeFailure,
    ;

    /// Return the group being used.
    fn group(&self) -> (r: NamedGroup)
        ensures
            r == self.group_spec(),
    ;

    /// Return the public key being used.
    fn pub_key(&self) -> (r: &[u8])
        ensures
            r@ == self.pub_key_spec(),
    ;

    /// Return all supported key exchange groups, used both for
    /// advertisement and as the candidate set of `choose_group`.
    fn all_kx_groups() -> (r: Vec<Self::SupportedGroup>)
        ensures
            r@ == Self::all_groups_spec(),
    ;
}

/// Pluggable crypto capabilities: binds one key-exchange family, secure
/// random generation, ticket-generator construction, and the default
/// cipher-suite list.
pub trait CryptoProvider {
    /// Key exchange operations supported by this provider.
    type KeyExchange: KeyExchange;

    /// The session-ticket generator this provider builds.
    type Ticketer;

    /// The static, most-preferred-first cipher-suite list this backend
    /// endorses.
    spec fn default_suites_spec() -> Seq<SupportedCipherSuite>;

    /// Build a fresh ticket generator; fails only if secure random
    /// generation fails.
    fn ticket_generator() -> (r: Result<Self::Ticketer, GetRandomFailed>);

    /// Fill the given buffer with cryptographically secure random bytes,
    /// leaving its length unchanged.  Failure is fatal: callers must
    /// never fall back to a weaker source.
    fn fill_random(buf: &mut Vec<u8>) -> (r: Result<(), GetRandomFailed>)
        ensures
            final(buf)@.len() == old(buf)@.len(),
    ;

    /// Return the safe default cipher suites, most preferred first.
    fn default_cipher_suites() -> (r: Vec<SupportedCipherSuite>)
        ensures
            r@ == Self::default_suites_spec(),
    ;
}

} // verus!
