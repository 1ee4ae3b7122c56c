use std::hash::{BuildHasher, Hasher};

use fhash::internal::{finish, mix2, mix3, mix_with_bytes, PRIME};
use fhash::{FHasher, RandomState};

fn pattern(n: usize) -> Vec<u8> {
    (0..n).map(|i| ((i * 7 + 1) % 256) as u8).collect()
}

fn digest(seed: u64, bytes: &[u8]) -> u64 {
    let mut h = FHasher::from(seed);
    h.write(bytes);
    h.finish()
}

#[test]
fn finish_values() {
    assert_eq!(finish(0), 0);
    assert_eq!(finish(1), 15422943422040171028);
    assert_eq!(finish(PRIME), 14575225345633797558);
}

#[test]
fn finish_is_not_an_involution() {
    assert_ne!(finish(finish(1)), 1);
    assert_eq!(finish(12345), finish(12345));
}

#[test]
fn mix2_values_and_asymmetry() {
    assert_eq!(mix2(1, 2), 15422943418517532490);
    assert_eq!(mix2(2, 1), 15422943418517532488);
    assert_ne!(mix2(1, 2), mix2(2, 1));
}

#[test]
fn mix3_values() {
    assert_eq!(mix3(1, 2, 3), 15422943418517532494);
    assert_eq!(mix3(u64::MAX, u64::MAX, u64::MAX), 15422943418517532487);
}

#[test]
fn mix_with_bytes_each_width() {
    let cases: [(usize, u64); 14] = [
        (1, 12399142763325513358),
        (2, 12399142763325513357),
        (3, 12399142763325507210),
        (4, 12399142763325511317),
        (5, 12399142763896784520),
        (8, 12399142762619754133),
        (9, 18338093373231744660),
        (15, 6541960608786425486),
        (16, 6557037104441743005),
        (17, 10894429327515670387),
        (20, 3336022464444245065),
        (32, 4273645662427344841),
        (33, 2004987922713612681),
        (40, 17266100404504608595),
    ];
    for (n, expected) in cases {
        assert_eq!(mix_with_bytes(0, &pattern(n)), expected, "length {}", n);
    }
}

#[test]
fn digests_each_width() {
    let cases: [(usize, u64); 14] = [
        (1, 7555779231450085941),
        (2, 16931121341698449866),
        (3, 11547377408121152166),
        (4, 16549727108313321019),
        (5, 13889780568287537943),
        (8, 14608066276506614212),
        (9, 698779051058534137),
        (15, 11519018040799335291),
        (16, 13488382891468703490),
        (17, 17561879113746756772),
        (20, 12428279471760358892),
        (32, 12839062303146423034),
        (33, 6419744932353247547),
        (40, 7616288744080376993),
    ];
    for (n, expected) in cases {
        assert_eq!(digest(0, &pattern(n)), expected, "length {}", n);
    }
}

#[test]
fn same_seed_same_digest() {
    for n in [0usize, 1, 7, 16, 17, 31, 64, 100] {
        let b = pattern(n);
        let state = RandomState::with_seed(99);
        let mut h1 = state.build_hasher();
        let mut h2 = state.build_hasher();
        h1.write(&b);
        h2.write(&b);
        assert_eq!(h1.finish(), h2.finish());
        assert_eq!(digest(99, &b), digest(99, &b));
    }
}

#[test]
fn trailing_zero_changes_digest() {
    assert_eq!(digest(0, &[]), 14575225345633797558);
    assert_eq!(digest(0, &[0]), 16931121341698449866);
    assert_ne!(digest(0, &[]), digest(0, &[0]));
    let b = pattern(20);
    let mut c = b.clone();
    c.push(0);
    assert_ne!(digest(0, &b), digest(0, &c));
}

#[test]
fn lengths_around_sixteen_are_distinct() {
    let d15 = digest(7, &[0u8; 15]);
    let d16 = digest(7, &[0u8; 16]);
    let d17 = digest(7, &[0u8; 17]);
    assert_eq!(d15, 7859719374310838242);
    assert_eq!(d16, 8755939029949559293);
    assert_eq!(d17, 11785094740572204181);
    assert_ne!(d15, d16);
    assert_ne!(d16, d17);
    assert_ne!(d15, d17);
    let p15 = digest(7, &pattern(15));
    let p16 = digest(7, &pattern(16));
    let p17 = digest(7, &pattern(17));
    assert_ne!(p15, p16);
    assert_ne!(p16, p17);
    assert_ne!(p15, p17);
}

#[test]
fn tail_overlap_bytes_are_read() {
    // Twenty bytes: the front block is 0..16, the tail block 4..20.
    let b = pattern(20);
    let base = digest(0, &b);
    assert_eq!(base, 12428279471760358892);
    let mut overlap = b.clone();
    overlap[10] ^= 0xff;
    assert_eq!(digest(0, &overlap), 9638274410096436282);
    let mut front = b.clone();
    front[1] ^= 0xff;
    assert_eq!(digest(0, &front), 11227227647883047095);
    let mut back = b.clone();
    back[18] ^= 1;
    assert_eq!(digest(0, &back), 3131820004923954699);
}

#[test]
fn middle_block_is_read() {
    // Forty bytes: forward blocks at 0 and 16, tail block 24..40; byte 20 lies only
    // in the forward block at 16.
    let b = pattern(40);
    let mut c = b.clone();
    c[20] ^= 1;
    assert_eq!(digest(0, &b), 7616288744080376993);
    assert_eq!(digest(0, &c), 13788016781913140138);
}

#[test]
fn different_seeds_differ() {
    let b = pattern(20);
    assert_eq!(digest(1, &b), 3660817646312266615);
    assert_eq!(digest(2, &b), 6988558444281454970);
    assert_ne!(digest(1, &b), digest(2, &b));
}

#[test]
fn integer_and_byte_writes_are_each_deterministic() {
    let x: u32 = 0xdead_beef;
    let mut a = FHasher::default();
    a.write_u32(x);
    let mut b = FHasher::default();
    b.write_u32(x);
    assert_eq!(a.finish(), b.finish());
    assert_eq!(a.finish(), 7611585603815773786);
    let mut c = FHasher::default();
    c.write(&x.to_le_bytes());
    let mut d = FHasher::default();
    d.write(&x.to_le_bytes());
    assert_eq!(c.finish(), d.finish());
    assert_eq!(c.finish(), 12805199950373484937);
}

#[test]
fn reference_vectors() {
    let empty = digest(0, &[]);
    let zeros0 = digest(0, &[0u8; 64]);
    let zeros1 = digest(1, &[0u8; 64]);
    assert_eq!(empty, 14575225345633797558);
    assert_eq!(zeros0, 13908060570886136311);
    assert_eq!(zeros1, 16931861226729112921);
    assert_ne!(empty, zeros0);
    assert_ne!(zeros0, zeros1);
}

#[test]
fn narrow_integer_writes_widen() {
    let mut a = FHasher::from(5);
    a.write_u8(200);
    assert_eq!(a.finish(), 15229907939352994357);
    let mut b = FHasher::from(5);
    b.write_u16(200);
    let mut c = FHasher::from(5);
    c.write_u64(200);
    let mut d = FHasher::from(5);
    d.write_usize(200);
    assert_eq!(a.finish(), b.finish());
    assert_eq!(a.finish(), c.finish());
    assert_eq!(a.finish(), d.finish());
    let mut e = FHasher::default();
    e.write_u64(u64::MAX);
    assert_eq!(e.finish(), 10681285876844843877);
}

#[test]
fn write_u128_mixes_both_halves() {
    let x: u128 = (0x0123_4567_89ab_cdef_u128 << 64) | 0xfedc_ba98_7654_3210_u128;
    let mut h = FHasher::default();
    h.write_u128(x);
    assert_eq!(h.finish(), 4907007965598123259);
}

#[test]
fn finish_leaves_state_and_writes_continue() {
    let mut h = FHasher::default();
    h.write_u64(42);
    let first = h.finish();
    assert_eq!(first, h.finish());
    h.write(&[1, 2, 3]);
    assert_eq!(h.finish(), 9562024575035551002);
}

#[test]
fn builders_agree_with_seeded_hashers() {
    assert_eq!(FHasher::default().finish(), 0);
    assert_eq!(FHasher::from(1).finish(), 15422943422040171028);
    assert_eq!(RandomState::with_seed(1).build_hasher().finish(), 15422943422040171028);
    assert_eq!(RandomState::from(1).build_hasher().finish(), 15422943422040171028);
    let s = RandomState::from_entropy(3, 4);
    assert_eq!(s.build_hasher().finish(), finish(5807763520019028781));
}

#[test]
fn overlap_byte_of_zero_input_is_read() {
    // Forty zero bytes: byte 28 lies both in the tail block 24..40 and in the
    // forward block 16..32.
    let a = [0u8; 40];
    let mut b = [0u8; 40];
    b[28] = 1;
    assert_eq!(mix_with_bytes(0, &a), 18174205854495014854);
    assert_eq!(mix_with_bytes(0, &b), 18174205858789982150);
    assert_eq!(digest(0, &a), 7251355308765535779);
    assert_eq!(digest(0, &b), 7375482036371729290);
    assert_ne!(digest(0, &a), digest(0, &b));
}
