//! Protocol identifiers shared by every backend: digest algorithms, named
//! key-exchange groups, cipher suites, and the enabled protocol versions.
//!
//! These identifiers correspond to externally standardized protocol values
//! and must not be renumbered independently.

use vstd::prelude::*;

verus! {

/// Identifier of a supported digest algorithm.
#[derive(Clone, Copy, PartialEq, Eq, Structural, Debug)]
pub enum HashAlgorithm {
    /// SHA-256, with a 32-byte output.
    SHA256,
    /// SHA-384, with a 48-byte output.
    SHA384,
}

/// Identifier of an algebraic group usable for key exchange.
#[derive(Clone, Copy, PartialEq, Eq, Structural, Debug)]
pub enum NamedGroup {
    /// Curve25519 key agreement.
    X25519,
    /// NIST P-256 key agreement.
    Secp256r1,
    /// NIST P-384 key agreement.
    Secp384r1,
}

/// Identifier of a negotiable combination of key-exchange, bulk-cipher and
/// hash algorithms.
#[derive(Clone, Copy, PartialEq, Eq, Structural, Debug)]
pub enum SupportedCipherSuite {
    /// TLS 1.3 suite with AES-128-GCM and SHA-256.
    Tls13Aes128GcmSha256,
    /// TLS 1.3 suite with AES-256-GCM and SHA-384.
    Tls13Aes256GcmSha384,
    /// TLS 1.3 suite with ChaCha20-Poly1305 and SHA-256.
    Tls13Chacha20Poly1305Sha256,
}

/// Which protocol versions a configuration enables.
#[derive(Clone, Copy, PartialEq, Eq, Structural, Debug)]
pub struct EnabledVersions {
    /// Whether TLS 1.2 is enabled.
    pub tls12: bool,
    /// Whether TLS 1.3 is enabled.
    pub tls13: bool,
}

} // verus!
