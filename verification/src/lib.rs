//! Pluggable cryptographic backend core for a secure-transport protocol.
//!
//! The protocol engine above this crate is written once against the
//! capability traits defined here — [`hash::HashProvider`] and
//! [`hash::HashContext`] for incremental, forkable transcript hashing,
//! [`provider::KeyExchange`] for the ephemeral key exchange lifecycle,
//! and [`provider::CryptoProvider`] to thread one backend through both —
//! while a concrete backend ([`backend`]) binds them to a primitive
//! library selected at build time, with no runtime indirection.  The
//! configuration builder ([`builder`]) supplies the one shared
//! continuation from "wants a certificate verifier" to a finished client
//! configuration, which no individual backend could contribute without
//! colliding with every other backend's potential contribution.

pub mod backend;
pub mod builder;
pub mod enums;
pub mod error;
pub mod hash;
pub mod provider;
