use crypto_core::backend::provider::RingProvider;
use crypto_core::enums::SupportedCipherSuite;
use crypto_core::provider::CryptoProvider;

#[test]
fn fill_random_preserves_length() {
    let mut buf = vec![0u8; 32];
    <RingProvider as CryptoProvider>::fill_random(&mut buf).unwrap();
    assert_eq!(buf.len(), 32);

    let mut empty: Vec<u8> = Vec::new();
    <RingProvider as CryptoProvider>::fill_random(&mut empty).unwrap();
    assert_eq!(empty.len(), 0);
}

#[test]
fn fill_random_produces_fresh_bytes() {
    let mut a = vec![0u8; 32];
    let mut b = vec![0u8; 32];
    <RingProvider as CryptoProvider>::fill_random(&mut a).unwrap();
    <RingProvider as CryptoProvider>::fill_random(&mut b).unwrap();
    assert_ne!(a, b);
}

#[test]
fn ticket_generator_builds_fresh_ticketer() {
    let t = <RingProvider as CryptoProvider>::ticket_generator().unwrap();
    assert_eq!(t.key_len(), 32);
}

#[test]
fn default_cipher_suites_most_preferred_first() {
    let suites = <RingProvider as CryptoProvider>::default_cipher_suites();
    assert_eq!(
        suites,
        vec![
            SupportedCipherSuite::Tls13Aes256GcmSha384,
            SupportedCipherSuite::Tls13Aes128GcmSha256,
            SupportedCipherSuite::Tls13Chacha20Poly1305Sha256,
        ]
    );
}
