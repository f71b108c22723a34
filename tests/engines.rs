use hash32::{BuildHasher, BuildHasherDefault, FnvHasher, Hasher, Murmur3Hasher};

fn fnv_of(bytes: &[u8]) -> u32 {
    let mut h = FnvHasher::default();
    h.write(bytes);
    h.finish()
}

fn murmur_of(seed: u32, bytes: &[u8]) -> u32 {
    let mut h = Murmur3Hasher::with_seed(seed);
    h.write(bytes);
    h.finish()
}

#[test]
fn fnv_empty_is_offset_basis() {
    assert_eq!(FnvHasher::new().finish(), 0x811c_9dc5);
    assert_eq!(fnv_of(b""), 0x811c_9dc5);
}

#[test]
fn fnv_known_vectors() {
    assert_eq!(fnv_of(b"a"), 0xe40c_292c);
    assert_eq!(fnv_of(b"hello"), 0x4f9f_2cab);
    assert_eq!(fnv_of(b"foobar"), 0xbf9c_f968);
}

#[test]
fn murmur3_empty_seed_zero() {
    assert_eq!(Murmur3Hasher::new().finish(), 0);
    assert_eq!(Murmur3Hasher::default().finish(), 0);
}

#[test]
fn murmur3_known_vectors() {
    assert_eq!(murmur_of(0, b"hello"), 0x248b_fa47);
    assert_eq!(murmur_of(0, b"The quick brown fox jumps over the lazy dog"), 0x2e4f_f723);
}

#[test]
fn murmur3_tail_lengths() {
    assert_eq!(murmur_of(0, b"a"), 0x3c25_69b2);
    assert_eq!(murmur_of(0, b"hello!"), 0xc91d_b8c4);
    assert_eq!(murmur_of(0, b"foobar"), 0xa4c4_d4bd);
}

#[test]
fn murmur3_seeds() {
    assert_eq!(murmur_of(1, b""), 0x514e_28b7);
    assert_eq!(murmur_of(1, b"hello"), 0xbb4a_bcad);
    assert_eq!(murmur_of(0xdead_beef, b"hello"), 0xb774_8c4e);
    assert_eq!(murmur_of(u32::MAX, b""), 0x81f1_6f39);
    assert_eq!(murmur_of(u32::MAX, b"abcd"), 0x2b7d_c558);
}

#[test]
fn murmur3_lengths_zero_to_sixteen() {
    let expected: [u32; 17] = [
        0xebb6_c228, 0xb8ef_150d, 0xa77f_dc08, 0x4fdd_533c, 0xe2e4_2f0e, 0x5a06_626a,
        0x17b8_0744, 0x2cf5_3aa4, 0x2b97_e99d, 0x3f6a_fd5b, 0x764b_ae21, 0x52bd_dfea,
        0x7a6c_648c, 0x2d1e_de58, 0xc4a3_4066, 0x5506_8ff4, 0x11f5_ecc7,
    ];
    let input: Vec<u8> = (1..=16).collect();
    for n in 0..=16 {
        assert_eq!(murmur_of(0x9747_b28c, &input[..n]), expected[n], "length {}", n);
    }
}

#[test]
fn deterministic_fresh_engines() {
    let b = b"determinism";
    assert_eq!(fnv_of(b), fnv_of(b));
    assert_eq!(murmur_of(7, b), murmur_of(7, b));
}

#[test]
fn split_writes_match_single_write() {
    let whole: Vec<u8> = (0u8..23).collect();
    for cut in 0..=whole.len() {
        let mut f = FnvHasher::new();
        f.write(&whole[..cut]);
        f.write(&whole[cut..]);
        assert_eq!(f.finish(), fnv_of(&whole));
        let mut m = Murmur3Hasher::with_seed(3);
        m.write(&whole[..cut]);
        m.write(&whole[cut..]);
        assert_eq!(m.finish(), murmur_of(3, &whole));
    }
}

#[test]
fn byte_at_a_time_writes() {
    let data = b"incremental input";
    let mut m = Murmur3Hasher::new();
    for b in data.iter() {
        m.write(&[*b]);
    }
    assert_eq!(m.finish(), murmur_of(0, data));
}

#[test]
fn empty_writes_change_nothing() {
    let mut m = Murmur3Hasher::new();
    m.write(b"abc");
    let before = m.finish();
    m.write(b"");
    assert_eq!(m.finish(), before);
}

#[test]
fn finish_is_idempotent() {
    let mut f = FnvHasher::new();
    f.write(b"abc");
    assert_eq!(f.finish(), f.finish());
    let mut m = Murmur3Hasher::new();
    m.write(b"abcde");
    let first = m.finish();
    assert_eq!(m.finish(), first);
    m.write(b"f");
    assert_eq!(m.finish(), murmur_of(0, b"abcdef"));
}

#[test]
fn default_factory_builds_fresh_hashers() {
    let fnv: BuildHasherDefault<FnvHasher> = BuildHasherDefault::new();
    let mut a = fnv.build_hasher();
    a.write(b"a");
    assert_eq!(a.finish(), 0xe40c_292c);
    assert_eq!(fnv.build_hasher().finish(), 0x811c_9dc5);
    let murmur: BuildHasherDefault<Murmur3Hasher> = BuildHasherDefault::default();
    let mut b = murmur.build_hasher();
    b.write(b"hello");
    assert_eq!(b.finish(), 0x248b_fa47);
}

fn reference_murmur3(seed: u32, data: &[u8]) -> u32 {
    let mut h = seed;
    let blocks = data.len() / 4;
    for i in 0..blocks {
        let mut k = u32::from_le_bytes([data[4 * i], data[4 * i + 1], data[4 * i + 2], data[4 * i + 3]]);
        k = k.wrapping_mul(0xcc9e_2d51).rotate_left(15).wrapping_mul(0x1b87_3593);
        h ^= k;
        h = h.rotate_left(13).wrapping_mul(5).wrapping_add(0xe654_6b64);
    }
    let tail = &data[4 * blocks..];
    if !tail.is_empty() {
        let mut k: u32 = 0;
        for (j, b) in tail.iter().enumerate() {
            k |= (*b as u32) << (8 * j);
        }
        h ^= k.wrapping_mul(0xcc9e_2d51).rotate_left(15).wrapping_mul(0x1b87_3593);
    }
    h ^= data.len() as u32;
    h ^= h >> 16;
    h = h.wrapping_mul(0x85eb_ca6b);
    h ^= h >> 13;
    h = h.wrapping_mul(0xc2b2_ae35);
    h ^= h >> 16;
    h
}

#[test]
fn murmur3_matches_reference_across_seeds_and_lengths() {
    let data: Vec<u8> = (0..16u32).map(|i| (i.wrapping_mul(0x9e) ^ 0x5a) as u8).collect();
    let mut seed: u32 = 0;
    for _ in 0..4096 {
        for n in 0..=16 {
            assert_eq!(murmur_of(seed, &data[..n]), reference_murmur3(seed, &data[..n]));
        }
        seed = seed.wrapping_add(0x0010_0fd3);
    }
    for seed in [0u32, 1, u32::MAX, 0x8000_0000] {
        for n in 0..=16 {
            assert_eq!(murmur_of(seed, &data[..n]), reference_murmur3(seed, &data[..n]));
        }
    }
}
