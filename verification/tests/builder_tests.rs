use crypto_core::backend::kx::RingGroup;
use crypto_core::backend::provider::RingProvider;
use crypto_core::builder::{
    ConfigBuilder, ResolvesClientCert, ServerCertVerifier, WantsVerifier,
};
use crypto_core::enums::{EnabledVersions, SupportedCipherSuite};

struct AcceptAllVerifier;

impl ServerCertVerifier for AcceptAllVerifier {
    fn verify_server_cert(&self, _end_entity: &Vec<u8>, _server_name: &Vec<u8>) -> bool {
        true
    }
}

struct FixedCertResolver {
    chain: Vec<u8>,
}

impl ResolvesClientCert for FixedCertResolver {
    fn declines_all(&self) -> bool {
        false
    }

    fn resolve(
        &self,
        _acceptable_issuers: &Vec<Vec<u8>>,
        _sigschemes: &Vec<u16>,
    ) -> Option<Vec<u8>> {
        Some(self.chain.clone())
    }

    fn has_certs(&self) -> bool {
        true
    }
}

fn fresh_builder() -> ConfigBuilder<RingProvider, WantsVerifier<RingProvider>> {
    ConfigBuilder::new(
        vec![
            SupportedCipherSuite::Tls13Aes256GcmSha384,
            SupportedCipherSuite::Tls13Aes128GcmSha256,
        ],
        vec![RingGroup::X25519, RingGroup::Secp256r1],
        EnabledVersions { tls12: false, tls13: true },
    )
}

#[test]
fn builder_records_initial_state() {
    let builder = fresh_builder();
    assert_eq!(
        builder.state.cipher_suites,
        vec![
            SupportedCipherSuite::Tls13Aes256GcmSha384,
            SupportedCipherSuite::Tls13Aes128GcmSha256,
        ]
    );
    assert_eq!(
        builder.state.kx_groups,
        vec![RingGroup::X25519, RingGroup::Secp256r1]
    );
    assert_eq!(
        builder.state.versions,
        EnabledVersions { tls12: false, tls13: true }
    );
}

#[test]
fn verifier_step_carries_state_forward() {
    let with_cert_state = fresh_builder().with_custom_certificate_verifier(AcceptAllVerifier);
    assert_eq!(
        with_cert_state.state.cipher_suites,
        vec![
            SupportedCipherSuite::Tls13Aes256GcmSha384,
            SupportedCipherSuite::Tls13Aes128GcmSha256,
        ]
    );
    assert_eq!(
        with_cert_state.state.kx_groups,
        vec![RingGroup::X25519, RingGroup::Secp256r1]
    );
    assert_eq!(
        with_cert_state.state.versions,
        EnabledVersions { tls12: false, tls13: true }
    );
    assert!(with_cert_state
        .state
        .verifier
        .verify_server_cert(&vec![1, 2], &vec![3]));
}

#[test]
fn no_client_auth_resolver_always_declines() {
    let config = fresh_builder()
        .with_custom_certificate_verifier(AcceptAllVerifier)
        .with_no_client_auth();

    assert!(!config.client_auth_cert_resolver.has_certs());
    assert_eq!(
        config
            .client_auth_cert_resolver
            .resolve(&vec![vec![1, 2, 3]], &vec![0x0403]),
        None
    );
    assert_eq!(
        config.client_auth_cert_resolver.resolve(&Vec::new(), &Vec::new()),
        None
    );

    assert_eq!(
        config.cipher_suites,
        vec![
            SupportedCipherSuite::Tls13Aes256GcmSha384,
            SupportedCipherSuite::Tls13Aes128GcmSha256,
        ]
    );
    assert_eq!(config.kx_groups, vec![RingGroup::X25519, RingGroup::Secp256r1]);
    assert_eq!(config.versions, EnabledVersions { tls12: false, tls13: true });
    assert!(config.enable_sni);
    assert!(!config.enable_early_data);
    assert_eq!(config.max_fragment_size, None);
    assert!(config.alpn_protocols.is_empty());
}

#[test]
fn custom_resolver_is_installed_unchanged() {
    let config = fresh_builder()
        .with_custom_certificate_verifier(AcceptAllVerifier)
        .with_client_cert_resolver(FixedCertResolver { chain: vec![9, 9, 9] });

    assert!(config.client_auth_cert_resolver.has_certs());
    assert_eq!(
        config.client_auth_cert_resolver.resolve(&Vec::new(), &Vec::new()),
        Some(vec![9, 9, 9])
    );
    assert_eq!(config.kx_groups, vec![RingGroup::X25519, RingGroup::Secp256r1]);
}
