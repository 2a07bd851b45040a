//! Builder continuation: the compile-time configuration-state sequence
//! from "wants a certificate verifier" through "wants a client-certificate
//! policy" to a finished client configuration.
//!
//! The core supplies this one neutral continuation because a
//! backend-parameterized builder extension cannot be contributed by any
//! single backend without colliding with every other backend's potential
//! contribution.  The state types make it structurally impossible to
//! obtain a [`ClientConfig`] without having supplied a verifier first:
//! the only steps that yield one start from [`WantsClientCert`], which is
//! only ever produced by
//! [`ConfigBuilder::with_custom_certificate_verifier`], and the
//! accumulated suites, groups and versions are carried forward unchanged
//! at every step.

use crate::enums::{EnabledVersions, SupportedCipherSuite};
use crate::provider::{CryptoProvider, KeyExchange};
use core::marker::PhantomData;
use vstd::prelude::*;

verus! {

/// The group type of the key exchange family a provider binds.
pub type KxGroupOf<C> = <<C as CryptoProvider>::KeyExchange as KeyExchange>::SupportedGroup;

/// Decides whether a server certificate chain is trusted.  Supplied by
/// the caller; this core only threads it into the configuration.
pub trait ServerCertVerifier: Sized {
    /// Judge the server's end-entity certificate for the given server
    /// name.
    fn verify_server_cert(&self, end_entity: &Vec<u8>, server_name: &Vec<u8>) -> (r: bool);
}

/// Decides whether and how to supply a client certificate.  Supplied by
/// the caller or by [`FailResolveClientCert`].
pub trait ResolvesClientCert: Sized {
    /// Whether this resolver declines every request.
    spec fn declines_all(&self) -> bool;

    /// Resolve a client certificate chain for the issuers the server
    /// finds acceptable and the signature schemes it offered.  A resolver
    /// that declines all requests always answers `None`.
    fn resolve(&self, acceptable_issuers: &Vec<Vec<u8>>, sigschemes: &Vec<u16>) -> (r: Option<
        Vec<u8>,
    >)
        ensures
            self.declines_all() ==> r is None,
    ;

    /// Whether this resolver can produce any certificate at all.  A
    /// resolver that declines all requests always answers `false`.
    fn has_certs(&self) -> (r: bool)
        ensures
            self.declines_all() ==> r == false,
    ;
}

/// The resolver installed by [`ConfigBuilder::with_no_client_auth`]: an
/// explicit, auditable "I will not authenticate" policy, distinct from
/// "unconfigured".  It always reports that no certificate is available,
/// without blocking or aborting.
#[derive(Clone, Copy, PartialEq, Eq, Structural, Debug)]
pub struct FailResolveClientCert;

impl ResolvesClientCert for FailResolveClientCert {
    open spec fn declines_all(&self) -> bool {
        true
    }

    fn resolve(&self, acceptable_issuers: &Vec<Vec<u8>>, sigschemes: &Vec<u16>) -> (r: Option<
        Vec<u8>,
    >) {
        None
    }

    fn has_certs(&self) -> (r: bool) {
        false
    }
}

/// Builder state: the caller still needs to supply a certificate
/// verifier.
pub struct WantsVerifier<C: CryptoProvider> {
    /// Cipher suites accumulated so far, most preferred first.
    pub cipher_suites: Vec<SupportedCipherSuite>,
    /// Key exchange groups accumulated so far, most preferred first.
    pub kx_groups: Vec<KxGroupOf<C>>,
    /// Protocol versions accumulated so far.
    pub versions: EnabledVersions,
}

/// Builder state: the caller needs to supply whether and how to provide
/// a client certificate.  Reached only through
/// [`ConfigBuilder::with_custom_certificate_verifier`], so every value of
/// this type already carries a verifier.
pub struct WantsClientCert<C: CryptoProvider, V: ServerCertVerifier> {
    /// Cipher suites carried forward, most preferred first.
    pub cipher_suites: Vec<SupportedCipherSuite>,
    /// Key exchange groups carried forward, most preferred first.
    pub kx_groups: Vec<KxGroupOf<C>>,
    /// Protocol versions carried forward.
    pub versions: EnabledVersions,
    /// The verifier supplied in the previous step.
    pub verifier: V,
}

/// A client configuration bound to the provider `C`, with a verifier and
/// a client-certificate policy in place.
pub struct ClientConfig<C: CryptoProvider, V: ServerCertVerifier, R: ResolvesClientCert> {
    /// Cipher suites this configuration offers, most preferred first.
    pub cipher_suites: Vec<SupportedCipherSuite>,
    /// Key exchange groups this configuration offers, most preferred
    /// first.
    pub kx_groups: Vec<KxGroupOf<C>>,
    /// Application-layer protocols to offer, in preference order.
    pub alpn_protocols: Vec<Vec<u8>>,
    /// Maximum plaintext fragment size, if limited.
    pub max_fragment_size: Option<usize>,
    /// How a client certificate request is answered.
    pub client_auth_cert_resolver: R,
    /// Protocol versions this configuration enables.
    pub versions: EnabledVersions,
    /// Whether the server name is sent in the clear.
    pub enable_sni: bool,
    /// How the server's certificate is judged.
    pub verifier: V,
    /// Whether early data may be sent.
    pub enable_early_data: bool,
}

/// A configuration builder for the provider `C`, currently in state
/// `State`.
pub struct ConfigBuilder<C: CryptoProvider, State> {
    /// The accumulated state of this builder.
    pub state: State,
    /// The provider the eventual configuration is bound to.
    pub side: PhantomData<C>,
}

impl<C: CryptoProvider> ConfigBuilder<C, WantsVerifier<C>> {
    /// Open the builder sequence with the suites, groups and versions the
    /// configuration is to offer.
    pub fn new(
        cipher_suites: Vec<SupportedCipherSuite>,
        kx_groups: Vec<KxGroupOf<C>>,
        versions: EnabledVersions,
    ) -> (r: Self)
        ensures
            r.state.cipher_suites == cipher_suites,
            r.state.kx_groups == kx_groups,
            r.state.versions == versions,
    {
        ConfigBuilder {
            state: WantsVerifier { cipher_suites, kx_groups, versions },
            side: PhantomData,
        }
    }

    /// Set a custom certificate verifier, carrying the accumulated
    /// suites, groups and versions forward unchanged.
    pub fn with_custom_certificate_verifier<V: ServerCertVerifier>(self, verifier: V) -> (r:
        ConfigBuilder<C, WantsClientCert<C, V>>)
        ensures
            r.state.cipher_suites == self.state.cipher_suites,
            r.state.kx_groups == self.state.kx_groups,
            r.state.versions == self.state.versions,
            r.state.verifier == verifier,
    {
        ConfigBuilder {
            state: WantsClientCert {
                cipher_suites: self.state.cipher_suites,
                kx_groups: self.state.kx_groups,
                versions: self.state.versions,
                verifier,
            },
            side: PhantomData,
        }
    }
}

impl<C: CryptoProvider, V: ServerCertVerifier> ConfigBuilder<C, WantsClientCert<C, V>> {
    /// Do not support client auth: install the resolver that always
    /// declines to produce a client certificate.
    pub fn with_no_client_auth(self) -> (r: ClientConfig<C, V, FailResolveClientCert>)
        ensures
            r.cipher_suites == self.state.cipher_suites,
            r.kx_groups == self.state.kx_groups,
            r.versions == self.state.versions,
            r.verifier == self.state.verifier,
            r.client_auth_cert_resolver.declines_all(),
            r.alpn_protocols@ == Seq::<Vec<u8>>::empty(),
            r.max_fragment_size is None,
            r.enable_sni == true,
            r.enable_early_data == false,
    {
        self.with_client_cert_resolver(FailResolveClientCert)
    }

    /// Set a custom client-certificate resolver, finishing the
    /// configuration with the accumulated fields carried forward and the
    /// remaining options at their defaults.
    pub fn with_client_cert_resolver<R: ResolvesClientCert>(
        self,
        client_auth_cert_resolver: R,
    ) -> (r: ClientConfig<C, V, R>)
        ensures
            r.cipher_suites == self.state.cipher_suites,
            r.kx_groups == self.state.kx_groups,
            r.versions == self.state.versions,
            r.verifier == self.state.verifier,
            r.client_auth_cert_resolver == client_auth_cert_resolver,
            r.alpn_protocols@ == Seq::<Vec<u8>>::empty(),
            r.max_fragment_size is None,
            r.enable_sni == true,
            r.enable_early_data == false,
    {
        ClientConfig {
            cipher_suites: self.state.cipher_suites,
            kx_groups: self.state.kx_groups,
            alpn_protocols: Vec::new(),
            max_fragment_size: None,
            client_auth_cert_resolver,
            versions: self.state.versions,
            enable_sni: true,
            verifier: self.state.verifier,
            enable_early_data: false,
        }
    }
}

} // verus!
