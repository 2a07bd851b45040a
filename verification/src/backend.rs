//! Backend instantiation: the concrete hash and key-exchange capability
//! implementations, bound at build time to the `ring` primitive library.

pub mod hash;
pub mod kx;
pub mod provider;
