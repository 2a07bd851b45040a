//! The `ring`-backed crypto provider: binds the key exchange family to
//! secure random generation, ticket-generator construction, and this
//! backend's default cipher-suite list.

use crate::backend::kx::RingKeyExchange;
use crate::enums::SupportedCipherSuite;
use crate::error::GetRandomFailed;
use crate::provider::CryptoProvider;
use ring::rand::SecureRandom;
use vstd::prelude::*;

verus! {

/// Relies on ring::rand::SystemRandom and SecureRandom::fill: fills the
/// whole buffer with cryptographically secure random bytes, leaving its
/// length unchanged; fails only when the system random source fails.
#[verifier::external_body]
fn ring_fill_random(buf: &mut Vec<u8>) -> (r: Result<(), GetRandomFailed>)
    ensures
        final(buf)@.len() == old(buf)@.len(),
{
    let rng = ring::rand::SystemRandom::new();
    match rng.fill(buf.as_mut_slice()) {
        Ok(()) => Ok(()),
        Err(_) => Err(GetRandomFailed),
    }
}

/// A session-ticket encryption object holding a fresh random key.
pub struct RingTicketer {
    key: Vec<u8>,
}

impl RingTicketer {
    /// Length in bytes of the ticket encryption key.
    pub closed spec fn key_len_spec(&self) -> nat {
        self.key@.len()
    }

    /// Return the length of the ticket encryption key.
    pub fn key_len(&self) -> (r: usize)
        ensures
            r == self.key_len_spec(),
    {
        self.key.len()
    }
}

/// The ticket key length this backend uses.
pub const TICKETER_KEY_LEN: usize = 32;

/// The `ring`-backed provider, selected at build time.
pub struct RingProvider;

impl CryptoProvider for RingProvider {
    type KeyExchange = RingKeyExchange;

    type Ticketer = RingTicketer;

    open spec fn default_suites_spec() -> Seq<SupportedCipherSuite> {
        seq![
            SupportedCipherSuite::Tls13Aes256GcmSha384,
            SupportedCipherSuite::Tls13Aes128GcmSha256,
            SupportedCipherSuite::Tls13Chacha20Poly1305Sha256,
        ]
    }

    fn ticket_generator() -> (r: Result<RingTicketer, GetRandomFailed>) {
        let mut key: Vec<u8> = Vec::new();
        let mut i: usize = 0;
        while i < TICKETER_KEY_LEN
            invariant
                i <= TICKETER_KEY_LEN,
                key@.len() == i,
            decreases TICKETER_KEY_LEN - i,
        {
            key.push(0u8);
            i += 1;
        }
        match ring_fill_random(&mut key) {
            Ok(()) => Ok(RingTicketer { key }),
            Err(e) => Err(e),
        }
    }

    fn fill_random(buf: &mut Vec<u8>) -> (r: Result<(), GetRandomFailed>) {
        ring_fill_random(buf)
    }

    fn default_cipher_suites() -> (r: Vec<SupportedCipherSuite>) {
        let mut suites: Vec<SupportedCipherSuite> = Vec::new();
        suites.push(SupportedCipherSuite::Tls13Aes256GcmSha384);
        suites.push(SupportedCipherSuite::Tls13Aes128GcmSha256);
        suites.push(SupportedCipherSuite::Tls13Chacha20Poly1305Sha256);
        proof {
            assert(suites@ =~= Self::default_suites_spec());
        }
        suites
    }
}

} // verus!
