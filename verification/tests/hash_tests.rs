use crypto_core::backend::hash::RingHash;
use crypto_core::enums::HashAlgorithm;
use crypto_core::hash::{
    checkpoint_law, empty_digest_law, fork_prefix_law, HashContext, HashProvider, Output,
};

const SHA256_EMPTY: [u8; 32] = [
    0xe3, 0xb0, 0xc4, 0x42, 0x98, 0xfc, 0x1c, 0x14, 0x9a, 0xfb, 0xf4, 0xc8, 0x99, 0x6f, 0xb9,
    0x24, 0x27, 0xae, 0x41, 0xe4, 0x64, 0x9b, 0x93, 0x4c, 0xa4, 0x95, 0x99, 0x1b, 0x78, 0x52,
    0xb8, 0x55,
];

const SHA384_EMPTY: [u8; 48] = [
    0x38, 0xb0, 0x60, 0xa7, 0x51, 0xac, 0x96, 0x38, 0x4c, 0xd9, 0x32, 0x7e, 0xb1, 0xb1, 0xe3,
    0x6a, 0x21, 0xfd, 0xb7, 0x11, 0x14, 0xbe, 0x07, 0x43, 0x4c, 0x0c, 0xc7, 0xbf, 0x63, 0xf6,
    0xe1, 0xda, 0x27, 0x4e, 0xde, 0xbf, 0xe7, 0x6f, 0x65, 0xfb, 0xd5, 0x1a, 0xd2, 0xf1, 0x48,
    0x98, 0xb9, 0x5b,
];

const SHA256_ABC: [u8; 32] = [
    0xba, 0x78, 0x16, 0xbf, 0x8f, 0x01, 0xcf, 0xea, 0x41, 0x41, 0x40, 0xde, 0x5d, 0xae, 0x22,
    0x23, 0xb0, 0x03, 0x61, 0xa3, 0x96, 0x17, 0x7a, 0x9c, 0xb4, 0x10, 0xff, 0x61, 0xf2, 0x00,
    0x15, 0xad,
];

#[test]
fn sha256_compute_empty_matches_literal() {
    let h = RingHash::new(HashAlgorithm::SHA256);
    assert_eq!(h.compute_empty().as_ref(), &SHA256_EMPTY[..]);
}

#[test]
fn sha384_compute_empty_matches_literal() {
    let h = RingHash::new(HashAlgorithm::SHA384);
    assert_eq!(h.compute_empty().as_ref(), &SHA384_EMPTY[..]);
}

#[test]
fn compute_empty_equals_compute_of_nothing() {
    for alg in [HashAlgorithm::SHA256, HashAlgorithm::SHA384] {
        let h = RingHash::new(alg);
        assert_eq!(h.compute_empty().as_ref(), h.compute(&[]).as_ref());
        let (a, b) = empty_digest_law(&h);
        assert_eq!(a.as_ref(), b.as_ref());
    }
}

#[test]
fn sha256_known_vector() {
    let h = RingHash::new(HashAlgorithm::SHA256);
    assert_eq!(h.compute(b"abc").as_ref(), &SHA256_ABC[..]);
}

#[test]
fn algorithm_identity_and_output_len() {
    let sha256 = RingHash::new(HashAlgorithm::SHA256);
    assert_eq!(sha256.algorithm(), HashAlgorithm::SHA256);
    assert_eq!(sha256.output_len(), 32);
    assert_eq!(sha256.compute(b"x").as_ref().len(), 32);

    let sha384 = RingHash::new(HashAlgorithm::SHA384);
    assert_eq!(sha384.algorithm(), HashAlgorithm::SHA384);
    assert_eq!(sha384.output_len(), 48);
    assert_eq!(sha384.compute(b"x").as_ref().len(), 48);
}

#[test]
fn fork_extends_shared_prefix() {
    for alg in [HashAlgorithm::SHA256, HashAlgorithm::SHA384] {
        let h = RingHash::new(alg);
        let p = b"hello ";
        let q = b"world";
        let s = b"hello world";

        let (via_fork, direct) = fork_prefix_law(&h, p, q, s);
        assert_eq!(via_fork.as_ref(), direct.as_ref());

        let mut origin = h.start();
        origin.update(p);
        let mut forked = origin.fork();
        forked.update(q);
        assert_eq!(forked.finish().as_ref(), h.compute(s).as_ref());
    }
}

#[test]
fn forked_sides_advance_independently() {
    let h = RingHash::new(HashAlgorithm::SHA256);
    let mut left = h.start();
    left.update(b"common");
    let mut right = left.fork();
    left.update(b"-a");
    right.update(b"-b");
    assert_eq!(left.finish().as_ref(), h.compute(b"common-a").as_ref());
    assert_eq!(right.finish().as_ref(), h.compute(b"common-b").as_ref());
}

#[test]
fn fork_finish_is_nondestructive_checkpoint() {
    for alg in [HashAlgorithm::SHA256, HashAlgorithm::SHA384] {
        let h = RingHash::new(alg);
        let (a, b, a_ref, b_ref) = checkpoint_law(&h, b"first", b"second");
        assert_eq!(a.as_ref(), a_ref.as_ref());
        assert_eq!(b.as_ref(), b_ref.as_ref());

        let mut ctx = h.start();
        ctx.update(b"first");
        let checkpoint = ctx.fork_finish();
        ctx.update(b"second");
        let last = ctx.finish();
        assert_eq!(checkpoint.as_ref(), h.compute(b"first").as_ref());
        assert_eq!(last.as_ref(), h.compute(b"firstsecond").as_ref());
    }
}

#[test]
fn repeated_updates_concatenate() {
    let h = RingHash::new(HashAlgorithm::SHA256);
    let mut ctx = h.start();
    ctx.update(b"a");
    ctx.update(b"");
    ctx.update(b"bc");
    assert_eq!(ctx.finish().as_ref(), &SHA256_ABC[..]);
}

#[test]
fn output_new_copies_bytes() {
    let out = Output::new(&[1, 2, 3]);
    assert_eq!(out.as_ref(), &[1, 2, 3][..]);
    let empty = Output::new(&[]);
    assert_eq!(empty.as_ref().len(), 0);
}
