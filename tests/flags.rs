use randomx4r::flags::{
    ALL_BITS, FLAG_ARGON2, FLAG_ARGON2_AVX2, FLAG_ARGON2_SSSE3, FLAG_DEFAULT, FLAG_FULL_MEM,
    FLAG_HARD_AES, FLAG_JIT, FLAG_LARGE_PAGES, FLAG_SECURE,
};
use randomx4r::RandomxFlags;

#[test]
fn flag_bits_match_engine_header() {
    assert_eq!(FLAG_DEFAULT, 0);
    assert_eq!(FLAG_LARGE_PAGES, 1);
    assert_eq!(FLAG_HARD_AES, 2);
    assert_eq!(FLAG_FULL_MEM, 4);
    assert_eq!(FLAG_JIT, 8);
    assert_eq!(FLAG_SECURE, 16);
    assert_eq!(FLAG_ARGON2_SSSE3, 32);
    assert_eq!(FLAG_ARGON2_AVX2, 64);
    assert_eq!(FLAG_ARGON2, FLAG_ARGON2_SSSE3 | FLAG_ARGON2_AVX2);
    assert_eq!(ALL_BITS, 127);
}

#[test]
fn from_bits_accepts_known_bits_only() {
    assert_eq!(RandomxFlags::from_bits(0).unwrap().bits(), 0);
    assert_eq!(RandomxFlags::from_bits(FLAG_HARD_AES | FLAG_ARGON2).unwrap().bits(), 98);
    assert_eq!(RandomxFlags::from_bits(127).unwrap(), RandomxFlags::all());
    assert!(RandomxFlags::from_bits(128).is_none());
    assert!(RandomxFlags::from_bits(0x8000_0002).is_none());
}

#[test]
fn from_bits_truncate_drops_unknown_bits() {
    assert_eq!(RandomxFlags::from_bits_truncate(0xffff_ffff).bits(), 127);
    assert_eq!(RandomxFlags::from_bits_truncate(0x104).bits(), 4);
}

#[test]
fn with_and_without() {
    let base = RandomxFlags::from_bits_truncate(FLAG_HARD_AES | FLAG_ARGON2_SSSE3);
    let full = RandomxFlags::from_bits_truncate(FLAG_FULL_MEM);
    let fast = base.with(full);
    assert_eq!(fast.bits(), 38);
    assert!(fast.contains(full));
    assert!(!base.contains(full));
    let light = fast.without(full);
    assert_eq!(light, base);
    assert!(!light.contains(full));
    assert!(fast.intersects(RandomxFlags::from_bits_truncate(FLAG_ARGON2)));
    assert!(!fast.contains(RandomxFlags::from_bits_truncate(FLAG_ARGON2)));
}

#[test]
fn insert_and_remove() {
    let mut f = RandomxFlags::empty();
    assert!(f.is_empty());
    f.insert(RandomxFlags::from_bits_truncate(FLAG_JIT | FLAG_SECURE));
    assert_eq!(f.bits(), 24);
    f.remove(RandomxFlags::from_bits_truncate(FLAG_SECURE));
    assert_eq!(f.bits(), 8);
    assert!(!f.is_empty());
    assert!(f.contains(RandomxFlags::empty()));
}
