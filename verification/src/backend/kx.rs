//! Ephemeral key exchange backend over `ring`'s agreement primitives.
//!
//! [`RingKeyExchange`] holds the opaque ephemeral private key next to the
//! group identity and public key bytes it was generated with; the two
//! trusted wrappers are the only places a `RingKeyExchange` is created or
//! its secret consumed, which keeps the private key tied to the group
//! named beside it.

use crate::enums::NamedGroup;
use crate::error::{Error, GetRandomFailed};
use crate::provider::{KeyExchange, KeyExchangeError, SupportedGroup};
use vstd::prelude::*;

verus! {

#[verifier::external_type_specification]
#[verifier::external_body]
pub struct ExEphemeralPrivateKey(ring::agreement::EphemeralPrivateKey);

/// The key exchange groups this backend compiles in.
#[derive(Clone, Copy, PartialEq, Eq, Structural, Debug)]
pub enum RingGroup {
    /// Curve25519 key agreement.
    X25519,
    /// NIST P-256 key agreement.
    Secp256r1,
}

/// Public key encoding length of each compiled-in group: 32 bytes for
/// X25519, 65 for an uncompressed P-256 point.
pub open spec fn group_pub_key_len(g: RingGroup) -> nat {
    match g {
        RingGroup::X25519 => 32,
        RingGroup::Secp256r1 => 65,
    }
}

/// Shared secret length of each compiled-in group: the curve's element
/// size, 32 bytes for both.
pub open spec fn group_secret_len(g: RingGroup) -> nat {
    match g {
        RingGroup::X25519 => 32,
        RingGroup::Secp256r1 => 32,
    }
}

/// One in-flight ephemeral key exchange backed by `ring`.
pub struct RingKeyExchange {
    priv_key: ring::agreement::EphemeralPrivateKey,
    group: RingGroup,
    pub_key: Vec<u8>,
}

/// Relies on ring::agreement::EphemeralPrivateKey::generate and
/// compute_public_key: a fresh ephemeral private key for the chosen
/// group, with its public key encoded at the group's fixed length
/// (32 bytes for X25519, 65 for uncompressed P-256); fails only when the
/// system's secure random source fails.
#[verifier::external_body]
fn ring_generate(group: RingGroup) -> (r: Result<RingKeyExchange, GetRandomFailed>)
    ensures
        r matches Ok(kx) ==> kx.group == group && kx.pub_key@.len() == group_pub_key_len(group),
{
    let alg = match group {
        RingGroup::X25519 => &ring::agreement::X25519,
        RingGroup::Secp256r1 => &ring::agreement::ECDH_P256,
    };
    let rng = ring::rand::SystemRandom::new();
    match ring::agreement::EphemeralPrivateKey::generate(alg, &rng) {
        Err(_) => Err(GetRandomFailed),
        Ok(priv_key) => match priv_key.compute_public_key() {
            Err(_) => Err(GetRandomFailed),
            Ok(pub_key) => Ok(
                RingKeyExchange { priv_key, group, pub_key: pub_key.as_ref().to_vec() },
            ),
        },
    }
}

/// Relies on ring::agreement::agree_ephemeral: derives the shared secret
/// for the exchange's own group, handing back its raw bytes at the
/// curve's fixed element length (32 bytes for both compiled-in groups);
/// fails on a malformed or invalid peer public key.
#[verifier::external_body]
fn ring_agree(kx: RingKeyExchange, peer: &[u8]) -> (r: Result<Vec<u8>, Error>)
    ensures
        r matches Ok(s) ==> s@.len() == group_secret_len(kx.group),
        r matches Err(e) ==> e == Error::GenericHandshakeFailure,
{
    let alg = match kx.group {
        RingGroup::X25519 => &ring::agreement::X25519,
        RingGroup::Secp256r1 => &ring::agreement::ECDH_P256,
    };
    let upk = ring::agreement::UnparsedPublicKey::new(alg, peer);
    match ring::agreement::agree_ephemeral(kx.priv_key, &upk, |secret: &[u8]| secret.to_vec()) {
        Ok(v) => Ok(v),
        Err(_) => Err(Error::GenericHandshakeFailure),
    }
}

impl SupportedGroup for RingGroup {
    open spec fn name_spec(&self) -> NamedGroup {
        match self {
            RingGroup::X25519 => NamedGroup::X25519,
            RingGroup::Secp256r1 => NamedGroup::Secp256r1,
        }
    }

    open spec fn pub_key_len_spec(&self) -> nat {
        group_pub_key_len(*self)
    }

    open spec fn secret_len_spec(&self) -> nat {
        group_secret_len(*self)
    }

    fn name(&self) -> (r: NamedGroup) {
        match self {
            RingGroup::X25519 => NamedGroup::X25519,
            RingGroup::Secp256r1 => NamedGroup::Secp256r1,
        }
    }
}

impl KeyExchange for RingKeyExchange {
    type SupportedGroup = RingGroup;

    closed spec fn group_spec(&self) -> NamedGroup {
        self.group.name_spec()
    }

    closed spec fn pub_key_spec(&self) -> Seq<u8> {
        self.pub_key@
    }

    closed spec fn secret_len_spec(&self) -> nat {
        group_secret_len(self.group)
    }

    open spec fn all_groups_spec() -> Seq<RingGroup> {
        seq![RingGroup::X25519, RingGroup::Secp256r1]
    }

    fn choose_group(name: NamedGroup, supported: &[RingGroup]) -> (r: Result<Self, KeyExchangeError>) {
        let mut i: usize = 0;
        while i < supported.len()
            invariant
                i <= supported@.len(),
                forall|j: int| 0 <= j < i ==> supported@[j].name_spec() != name,
            decreases supported@.len() - i,
        {
            let candidate = supported[i];
            if candidate.name() == name {
                return match Self::start(&candidate) {
                    Ok(kx) => Ok(kx),
                    Err(failed) => Err(KeyExchangeError::KeyExchangeFailed(failed)),
                };
            }
            i += 1;
        }
        Err(KeyExchangeError::UnsupportedGroup)
    }

    fn start(skxg: &RingGroup) -> (r: Result<Self, GetRandomFailed>) {
        ring_generate(*skxg)
    }

    fn complete<T, F: FnOnce(&[u8]) -> Result<T, ()>>(self, peer: &[u8], f: F) -> (r: Result<
        T,
        Error,
    >) {
        match ring_agree(self, peer) {
            Ok(secret) => {
                let borrowed = secret.as_slice();
                match f(borrowed) {
                    Ok(t) => Ok(t),
                    Err(()) => Err(Error::GenericHandshakeFailure),
                }
            },
            Err(e) => Err(e),
        }
    }

    fn group(&self) -> (r: NamedGroup) {
        self.group.name()
    }

    fn pub_key(&self) -> (r: &[u8]) {
        self.pub_key.as_slice()
    }

    fn all_kx_groups() -> (r: Vec<RingGroup>) {
        let mut groups: Vec<RingGroup> = Vec::new();
        groups.push(RingGroup::X25519);
        groups.push(RingGroup::Secp256r1);
        proof {
            assert(groups@ =~= Self::all_groups_spec());
        }
        groups
    }
}

} // verus!
