use saturn_types::Word;
use std::collections::{BTreeSet, HashMap, HashSet};

#[test]
fn it_works() {
    assert_eq!(2 + 2, 4);
}

#[test]
fn unsigned_byte_reads_back_as_minus_one() {
    let w = Word::from(255u8);
    assert_eq!(i8::from(w), -1);
}

#[test]
fn unsigned_integers_keep_their_value_in_a_word() {
    assert_eq!(u64::from(Word::from(0u8)), 0);
    assert_eq!(u64::from(Word::from(255u8)), 255);
    assert_eq!(u64::from(Word::from(65535u16)), 65535);
    assert_eq!(u64::from(Word::from(4294967295u32)), 4294967295);
    assert_eq!(u64::from(Word::from(u64::MAX)), u64::MAX);
    assert_eq!(u64::from(Word::from(usize::MAX)), usize::MAX as u64);
}

#[test]
fn signed_integers_are_sign_extended() {
    assert_eq!(u64::from(Word::from(-1i8)), u64::MAX);
    assert_eq!(u64::from(Word::from(-1i16)), u64::MAX);
    assert_eq!(u64::from(Word::from(-1i32)), u64::MAX);
    assert_eq!(u64::from(Word::from(-1i64)), u64::MAX);
    assert_eq!(u64::from(Word::from(-1isize)), u64::MAX);
    assert_eq!(u64::from(Word::from(-128i8)), 0xffff_ffff_ffff_ff80);
    assert_eq!(u64::from(Word::from(i16::MIN)), 0xffff_ffff_ffff_8000);
    assert_eq!(u64::from(Word::from(i32::MIN)), 0xffff_ffff_8000_0000);
    assert_eq!(u64::from(Word::from(i64::MIN)), 0x8000_0000_0000_0000);
    assert_eq!(u64::from(Word::from(127i8)), 127);
    assert_eq!(u64::from(Word::from(-2i32)), 0xffff_ffff_ffff_fffe);
}

#[test]
fn reading_drops_the_high_bits() {
    let w = Word::from(0x0123_4567_89ab_cdefu64);
    assert_eq!(u8::from(w), 0xef);
    assert_eq!(u16::from(w), 0xcdef);
    assert_eq!(u32::from(w), 0x89ab_cdef);
    assert_eq!(u64::from(w), 0x0123_4567_89ab_cdef);
    assert_eq!(usize::from(w), 0x0123_4567_89ab_cdefu64 as usize);
    assert_eq!(i8::from(w), -17);
    assert_eq!(i16::from(w), -12817);
    assert_eq!(i32::from(w), -1985229329);
    assert_eq!(i64::from(w), 0x0123_4567_89ab_cdef);
    assert_eq!(isize::from(w), 0x0123_4567_89ab_cdefu64 as isize);
}

#[test]
fn reading_at_a_narrower_width_loses_the_rest() {
    assert_eq!(u8::from(Word::from(0x123u16)), 0x23);
    assert_eq!(u16::from(Word::from(-2i32)), 0xfffe);
    assert_eq!(i8::from(Word::from(128u32)), -128);
    assert_eq!(i16::from(Word::from(0x1_8000u32)), -32768);
    assert_eq!(i32::from(Word::from(0x1_0000_0000u64)), 0);
    assert_eq!(u32::from(Word::from(-1i8)), u32::MAX);
}

#[test]
fn round_trip_u8() {
    for n in [0u8, 1, 127, 128, 255] {
        assert_eq!(u8::from(Word::from(n)), n);
    }
}

#[test]
fn round_trip_i8() {
    for n in [i8::MIN, -1, 0, 1, i8::MAX] {
        assert_eq!(i8::from(Word::from(n)), n);
    }
}

#[test]
fn round_trip_u16() {
    for n in [0u16, 1, 255, 256, 32768, u16::MAX] {
        assert_eq!(u16::from(Word::from(n)), n);
    }
}

#[test]
fn round_trip_i16() {
    for n in [i16::MIN, -129, -1, 0, 1, 128, i16::MAX] {
        assert_eq!(i16::from(Word::from(n)), n);
    }
}

#[test]
fn round_trip_u32() {
    for n in [0u32, 1, 65536, 0x8000_0000, u32::MAX] {
        assert_eq!(u32::from(Word::from(n)), n);
    }
}

#[test]
fn round_trip_i32() {
    for n in [i32::MIN, -65537, -1, 0, 1, 65536, i32::MAX] {
        assert_eq!(i32::from(Word::from(n)), n);
    }
}

#[test]
fn round_trip_u64() {
    for n in [0u64, 1, 0x1_0000_0000, 0x8000_0000_0000_0000, u64::MAX] {
        assert_eq!(u64::from(Word::from(n)), n);
    }
}

#[test]
fn round_trip_i64() {
    for n in [i64::MIN, -0x1_0000_0001, -1, 0, 1, 0x1_0000_0000, i64::MAX] {
        assert_eq!(i64::from(Word::from(n)), n);
    }
}

#[test]
fn round_trip_usize() {
    for n in [0usize, 1, 65536, usize::MAX / 2 + 1, usize::MAX] {
        assert_eq!(usize::from(Word::from(n)), n);
    }
}

#[test]
fn round_trip_isize() {
    for n in [isize::MIN, -65537, -1, 0, 1, 65536, isize::MAX] {
        assert_eq!(isize::from(Word::from(n)), n);
    }
}

#[test]
fn a_word_made_from_its_pattern_is_the_same_word() {
    for w in [Word::from(0u8), Word::from(-1i8), Word::from(i64::MIN), Word::from(0x1234u16)] {
        assert_eq!(Word::from(u64::from(w)), w);
    }
}

#[test]
fn words_are_equal_when_their_patterns_are() {
    assert_eq!(Word::from(-1i8), Word::from(u64::MAX));
    assert_eq!(Word::from(5u8), Word::from(5i64));
    assert_eq!(Word::from(-2i16), Word::from(-2isize));
    assert_ne!(Word::from(255u8), Word::from(-1i8));
    assert_ne!(Word::from(0u8), Word::from(1u8));
}

#[test]
fn words_are_ordered_by_their_unsigned_patterns() {
    assert!(Word::from(1u8) < Word::from(2u8));
    assert!(Word::from(-1i8) > Word::from(1u8));
    assert!(Word::from(i64::MIN) > Word::from(i64::MAX));
    assert!(Word::from(3u8) <= Word::from(3u64));
    assert!(Word::from(3u8) >= Word::from(3u64));
    assert_eq!(Word::from(7u8).partial_cmp(&Word::from(7u16)), Some(std::cmp::Ordering::Equal));
    assert_eq!(Word::from(7u8).cmp(&Word::from(8u16)), std::cmp::Ordering::Less);
    assert_eq!(Word::from(-1i8).cmp(&Word::from(8u16)), std::cmp::Ordering::Greater);
    assert_eq!(Word::from(4u8).max(Word::from(-4i8)), Word::from(-4i8));

    let mut words = vec![Word::from(-1i8), Word::from(2u8), Word::from(0u8), Word::from(i64::MIN)];
    words.sort();
    let patterns: Vec<u64> = words.into_iter().map(u64::from).collect();
    assert_eq!(patterns, vec![0, 2, 0x8000_0000_0000_0000, u64::MAX]);
}

#[test]
fn words_serve_as_keys() {
    let mut seen = HashSet::new();
    assert!(seen.insert(Word::from(-1i8)));
    assert!(!seen.insert(Word::from(u64::MAX)));
    assert!(seen.insert(Word::from(255u8)));
    assert_eq!(seen.len(), 2);

    let mut names = HashMap::new();
    names.insert(Word::from(1u8), "one");
    names.insert(Word::from(1i64), "uno");
    assert_eq!(names.len(), 1);
    assert_eq!(names[&Word::from(1u32)], "uno");

    let sorted: BTreeSet<Word> =
        [Word::from(9u8), Word::from(-9i8), Word::from(9u16)].into_iter().collect();
    let patterns: Vec<u64> = sorted.into_iter().map(u64::from).collect();
    assert_eq!(patterns, vec![9, 0xffff_ffff_ffff_fff7]);
}

#[test]
fn words_are_copied_and_printed() {
    let w = Word::from(42u8);
    let v = w;
    assert_eq!(w, v);
    assert_eq!(w.clone(), v);
    assert_eq!(format!("{:?}", w), "Word(42)");
}
