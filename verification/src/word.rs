//! The word: a 64-bit cell of memory, and how integers of every width go into
//! it and come out of it.

use core::cmp::Ordering;
use vstd::prelude::*;
use vstd::std_specs::cmp::PartialOrdSpecImpl;
use vstd::std_specs::convert::FromSpec;

verus! {

/// A machine word: one 64-bit cell of memory, the smallest unit that the
/// runtime allocates, pushes or computes on.
///
/// A word is memory, not a number. It can be made from any primitive integer
/// and read back as any primitive integer; what it keeps is the bit pattern.
/// Two words are equal exactly when their patterns are, and words are ordered
/// by their patterns read as unsigned numbers.
#[derive(Copy, Clone, Debug, PartialEq, Eq, Structural, Hash, Ord)]
pub struct Word(u64);

impl View for Word {
    type V = u64;

    /// The bit pattern of the cell, read as an unsigned number.
    closed spec fn view(&self) -> u64 {
        self.0
    }
}

impl Word {
    /// The word whose bit pattern is `bits`.
    pub closed spec fn with_pattern(bits: u64) -> Word {
        Word(bits)
    }

    /// A word is determined by its pattern, and every pattern is a word.
    pub proof fn lemma_pattern(bits: u64)
        ensures
            Word::with_pattern(bits)@ == bits,
    {
    }

    /// Two words are equal exactly when their patterns are equal.
    pub proof fn lemma_equal_by_pattern(a: Word, b: Word)
        ensures
            (a == b) <==> (a@ == b@),
            Word::with_pattern(a@) == a,
    {
    }
}

/// The pattern that stands for the integer `n` in a cell: `n` modulo 2^64.
/// This is `n` itself where `n` is not negative, and its two's complement,
/// sign-extended to the width of the cell, where it is.
pub open spec fn pattern_of(n: int) -> u64 {
    (n % 0x1_0000_0000_0000_0000) as u64
}

/// The unsigned integer in the low bits of a pattern, for an integer type
/// with `range` values: the pattern modulo `range`.
pub open spec fn unsigned_in(bits: u64, range: int) -> int {
    bits as int % range
}

/// The signed integer in the low bits of a pattern, for an integer type with
/// `range` values: the one value of the type that is congruent to the
/// pattern modulo `range`.
pub open spec fn signed_in(bits: u64, range: int) -> int {
    let low = bits as int % range;
    if 2 * low < range {
        low
    } else {
        low - range
    }
}

/// A pointer-sized integer has 32 or 64 bits; the signed one takes half of
/// its values below zero.
pub proof fn lemma_pointer_width()
    ensures
        usize::BITS == 32 || usize::BITS == 64,
        usize::BITS == 32 <==> usize::MAX + 1 == 0x1_0000_0000,
        usize::BITS == 64 <==> usize::MAX + 1 == 0x1_0000_0000_0000_0000,
        isize::MAX + 1 == (usize::MAX + 1) / 2,
        isize::MIN == -(isize::MAX + 1),
{
}

proof fn lemma_extend(x: i64)
    by (bit_vector)
    ensures
        x >= 0 ==> x as u64 == x,
        x < 0 ==> x as u64 == x + 0x1_0000_0000_0000_0000,
{
}

proof fn lemma_low_u8(bits: u64)
    by (bit_vector)
    ensures
        bits as u8 == bits % 0x100,
{
}

proof fn lemma_low_u16(bits: u64)
    by (bit_vector)
    ensures
        bits as u16 == bits % 0x1_0000,
{
}

proof fn lemma_low_u32(bits: u64)
    by (bit_vector)
    ensures
        bits as u32 == bits % 0x1_0000_0000,
{
}

proof fn lemma_low_usize_bits(bits: u64)
    by (bit_vector)
    ensures
        usize::BITS == 32 ==> bits as usize == bits % 0x1_0000_0000,
        usize::BITS == 64 ==> bits as usize == bits,
{
}

proof fn lemma_low_usize(bits: u64)
    ensures
        bits as usize == (bits as int) % (usize::MAX + 1),
{
    lemma_low_usize_bits(bits);
    lemma_pointer_width();
}

proof fn lemma_low_i8(bits: u64)
    by (bit_vector)
    ensures
        bits % 0x100 < 0x80 ==> bits as i8 == bits % 0x100,
        bits % 0x100 >= 0x80 ==> bits as i8 == bits % 0x100 - 0x100,
{
}

proof fn lemma_low_i16(bits: u64)
    by (bit_vector)
    ensures
        bits % 0x1_0000 < 0x8000 ==> bits as i16 == bits % 0x1_0000,
        bits % 0x1_0000 >= 0x8000 ==> bits as i16 == bits % 0x1_0000 - 0x1_0000,
{
}

proof fn lemma_low_i32(bits: u64)
    by (bit_vector)
    ensures
        bits % 0x1_0000_0000 < 0x8000_0000 ==> bits as i32 == bits % 0x1_0000_0000,
        bits % 0x1_0000_0000 >= 0x8000_0000 ==> bits as i32 == bits % 0x1_0000_0000 - 0x1_0000_0000,
{
}

proof fn lemma_low_i64(bits: u64)
    by (bit_vector)
    ensures
        bits < 0x8000_0000_0000_0000 ==> bits as i64 == bits,
        bits >= 0x8000_0000_0000_0000 ==> bits as i64 == bits - 0x1_0000_0000_0000_0000,
{
}

proof fn lemma_low_isize_bits(bits: u64)
    by (bit_vector)
    ensures
        usize::BITS == 32 && bits % 0x1_0000_0000 < 0x8000_0000 ==> bits as isize == bits
            % 0x1_0000_0000,
        usize::BITS == 32 && bits % 0x1_0000_0000 >= 0x8000_0000 ==> bits as isize == bits
            % 0x1_0000_0000 - 0x1_0000_0000,
        usize::BITS == 64 && bits < 0x8000_0000_0000_0000 ==> bits as isize == bits,
        usize::BITS == 64 && bits >= 0x8000_0000_0000_0000 ==> bits as isize == bits
            - 0x1_0000_0000_0000_0000,
{
}

proof fn lemma_low_isize(bits: u64)
    ensures
        bits as isize == signed_in(bits, usize::MAX + 1),
{
    lemma_low_isize_bits(bits);
    lemma_pointer_width();
    if usize::BITS == 32 {
        assert(signed_in(bits, usize::MAX + 1) == signed_in(bits, 0x1_0000_0000));
    } else {
        assert(signed_in(bits, usize::MAX + 1) == signed_in(bits, 0x1_0000_0000_0000_0000));
    }
}

impl From<u8> for Word {
    /// The word that holds an unsigned 8-bit integer: the number itself, with
    /// the bits above it zero.
    fn from(n: u8) -> (w: Word)
        ensures
            w@ == n,
    {
        Word(n as u64)
    }
}

impl vstd::std_specs::convert::FromSpecImpl<u8> for Word {
    open spec fn obeys_from_spec() -> bool {
        true
    }

    open spec fn from_spec(n: u8) -> Word {
        Word::with_pattern(n as u64)
    }
}

impl From<u16> for Word {
    /// The word that holds an unsigned 16-bit integer: the number itself,
    /// with the bits above it zero.
    fn from(n: u16) -> (w: Word)
        ensures
            w@ == n,
    {
        Word(n as u64)
    }
}

impl vstd::std_specs::convert::FromSpecImpl<u16> for Word {
    open spec fn obeys_from_spec() -> bool {
        true
    }

    open spec fn from_spec(n: u16) -> Word {
        Word::with_pattern(n as u64)
    }
}

impl From<u32> for Word {
    /// The word that holds an unsigned 32-bit integer: the number itself,
    /// with the bits above it zero.
    fn from(n: u32) -> (w: Word)
        ensures
            w@ == n,
    {
        Word(n as u64)
    }
}

impl vstd::std_specs::convert::FromSpecImpl<u32> for Word {
    open spec fn obeys_from_spec() -> bool {
        true
    }

    open spec fn from_spec(n: u32) -> Word {
        Word::with_pattern(n as u64)
    }
}

impl From<u64> for Word {
    /// The word that holds an unsigned 64-bit integer: the number itself,
    /// with the bits above it zero.
    fn from(n: u64) -> (w: Word)
        ensures
            w@ == n,
    {
        Word(n)
    }
}

impl vstd::std_specs::convert::FromSpecImpl<u64> for Word {
    open spec fn obeys_from_spec() -> bool {
        true
    }

    open spec fn from_spec(n: u64) -> Word {
        Word::with_pattern(n)
    }
}

impl From<usize> for Word {
    /// The word that holds an unsigned pointer-sized integer: the number
    /// itself, with the bits above it zero.
    fn from(n: usize) -> (w: Word)
        ensures
            w@ == n,
    {
        Word(n as u64)
    }
}

impl vstd::std_specs::convert::FromSpecImpl<usize> for Word {
    open spec fn obeys_from_spec() -> bool {
        true
    }

    open spec fn from_spec(n: usize) -> Word {
        Word::with_pattern(n as u64)
    }
}

impl From<i8> for Word {
    /// The word that holds a signed 8-bit integer: its two's complement,
    /// sign-extended to the width of the cell.
    fn from(n: i8) -> (w: Word)
        ensures
            w@ == pattern_of(n as int),
    {
        proof {
            lemma_extend(n as i64);
        }
        Word(n as u64)
    }
}

impl vstd::std_specs::convert::FromSpecImpl<i8> for Word {
    open spec fn obeys_from_spec() -> bool {
        true
    }

    open spec fn from_spec(n: i8) -> Word {
        Word::with_pattern(pattern_of(n as int))
    }
}

impl From<i16> for Word {
    /// The word that holds a signed 16-bit integer: its two's complement,
    /// sign-extended to the width of the cell.
    fn from(n: i16) -> (w: Word)
        ensures
            w@ == pattern_of(n as int),
    {
        proof {
            lemma_extend(n as i64);
        }
        Word(n as u64)
    }
}

impl vstd::std_specs::convert::FromSpecImpl<i16> for Word {
    open spec fn obeys_from_spec() -> bool {
        true
    }

    open spec fn from_spec(n: i16) -> Word {
        Word::with_pattern(pattern_of(n as int))
    }
}

impl From<i32> for Word {
    /// The word that holds a signed 32-bit integer: its two's complement,
    /// sign-extended to the width of the cell.
    fn from(n: i32) -> (w: Word)
        ensures
            w@ == pattern_of(n as int),
    {
        proof {
            lemma_extend(n as i64);
        }
        Word(n as u64)
    }
}

impl vstd::std_specs::convert::FromSpecImpl<i32> for Word {
    open spec fn obeys_from_spec() -> bool {
        true
    }

    open spec fn from_spec(n: i32) -> Word {
        Word::with_pattern(pattern_of(n as int))
    }
}

impl From<i64> for Word {
    /// The word that holds a signed 64-bit integer: its two's complement,
    /// sign-extended to the width of the cell.
    fn from(n: i64) -> (w: Word)
        ensures
            w@ == pattern_of(n as int),
    {
        proof {
            lemma_extend(n as i64);
        }
        Word(n as u64)
    }
}

impl vstd::std_specs::convert::FromSpecImpl<i64> for Word {
    open spec fn obeys_from_spec() -> bool {
        true
    }

    open spec fn from_spec(n: i64) -> Word {
        Word::with_pattern(pattern_of(n as int))
    }
}

impl From<isize> for Word {
    /// The word that holds a signed pointer-sized integer: its two's
    /// complement, sign-extended to the width of the cell.
    fn from(n: isize) -> (w: Word)
        ensures
            w@ == pattern_of(n as int),
    {
        proof {
            lemma_extend(n as i64);
        }
        Word(n as u64)
    }
}

impl vstd::std_specs::convert::FromSpecImpl<isize> for Word {
    open spec fn obeys_from_spec() -> bool {
        true
    }

    open spec fn from_spec(n: isize) -> Word {
        Word::with_pattern(pattern_of(n as int))
    }
}

impl From<Word> for u8 {
    /// The low bits of the word, read as an unsigned 8-bit integer; the bits
    /// above the integer's width are dropped.
    fn from(w: Word) -> (n: u8)
        ensures
            n == unsigned_in(w@, 0x100),
    {
        proof {
            lemma_low_u8(w.0);
        }
        #[verifier::truncate]
        (w.0 as u8)
    }
}

impl vstd::std_specs::convert::FromSpecImpl<Word> for u8 {
    open spec fn obeys_from_spec() -> bool {
        true
    }

    open spec fn from_spec(w: Word) -> u8 {
        unsigned_in(w@, 0x100) as u8
    }
}

impl From<Word> for u16 {
    /// The low bits of the word, read as an unsigned 16-bit integer; the bits
    /// above the integer's width are dropped.
    fn from(w: Word) -> (n: u16)
        ensures
            n == unsigned_in(w@, 0x1_0000),
    {
        proof {
            lemma_low_u16(w.0);
        }
        #[verifier::truncate]
        (w.0 as u16)
    }
}

impl vstd::std_specs::convert::FromSpecImpl<Word> for u16 {
    open spec fn obeys_from_spec() -> bool {
        true
    }

    open spec fn from_spec(w: Word) -> u16 {
        unsigned_in(w@, 0x1_0000) as u16
    }
}

impl From<Word> for u32 {
    /// The low bits of the word, read as an unsigned 32-bit integer; the bits
    /// above the integer's width are dropped.
    fn from(w: Word) -> (n: u32)
        ensures
            n == unsigned_in(w@, 0x1_0000_0000),
    {
        proof {
            lemma_low_u32(w.0);
        }
        #[verifier::truncate]
        (w.0 as u32)
    }
}

impl vstd::std_specs::convert::FromSpecImpl<Word> for u32 {
    open spec fn obeys_from_spec() -> bool {
        true
    }

    open spec fn from_spec(w: Word) -> u32 {
        unsigned_in(w@, 0x1_0000_0000) as u32
    }
}

impl From<Word> for u64 {
    /// The pattern of the word, read as an unsigned 64-bit integer: all of
    /// its bits.
    fn from(w: Word) -> (n: u64)
        ensures
            n == w@,
    {
        w.0
    }
}

impl vstd::std_specs::convert::FromSpecImpl<Word> for u64 {
    open spec fn obeys_from_spec() -> bool {
        true
    }

    open spec fn from_spec(w: Word) -> u64 {
        w@
    }
}

impl From<Word> for usize {
    /// The low bits of the word, read as an unsigned pointer-sized integer;
    /// the bits above the integer's width are dropped.
    fn from(w: Word) -> (n: usize)
        ensures
            n == unsigned_in(w@, usize::MAX + 1),
    {
        proof {
            lemma_low_usize(w.0);
        }
        #[verifier::truncate]
        (w.0 as usize)
    }
}

impl vstd::std_specs::convert::FromSpecImpl<Word> for usize {
    open spec fn obeys_from_spec() -> bool {
        true
    }

    open spec fn from_spec(w: Word) -> usize {
        unsigned_in(w@, usize::MAX + 1) as usize
    }
}

impl From<Word> for i8 {
    /// The low bits of the word, read as a signed 8-bit integer in two's
    /// complement; the bits above the integer's width are dropped.
    fn from(w: Word) -> (n: i8)
        ensures
            n == signed_in(w@, 0x100),
    {
        proof {
            lemma_low_i8(w.0);
        }
        #[verifier::truncate]
        (w.0 as i8)
    }
}

impl vstd::std_specs::convert::FromSpecImpl<Word> for i8 {
    open spec fn obeys_from_spec() -> bool {
        true
    }

    open spec fn from_spec(w: Word) -> i8 {
        signed_in(w@, 0x100) as i8
    }
}

impl From<Word> for i16 {
    /// The low bits of the word, read as a signed 16-bit integer in two's
    /// complement; the bits above the integer's width are dropped.
    fn from(w: Word) -> (n: i16)
        ensures
            n == signed_in(w@, 0x1_0000),
    {
        proof {
            lemma_low_i16(w.0);
        }
        #[verifier::truncate]
        (w.0 as i16)
    }
}

impl vstd::std_specs::convert::FromSpecImpl<Word> for i16 {
    open spec fn obeys_from_spec() -> bool {
        true
    }

    open spec fn from_spec(w: Word) -> i16 {
        signed_in(w@, 0x1_0000) as i16
    }
}

impl From<Word> for i32 {
    /// The low bits of the word, read as a signed 32-bit integer in two's
    /// complement; the bits above the integer's width are dropped.
    fn from(w: Word) -> (n: i32)
        ensures
            n == signed_in(w@, 0x1_0000_0000),
    {
        proof {
            lemma_low_i32(w.0);
        }
        #[verifier::truncate]
        (w.0 as i32)
    }
}

impl vstd::std_specs::convert::FromSpecImpl<Word> for i32 {
    open spec fn obeys_from_spec() -> bool {
        true
    }

    open spec fn from_spec(w: Word) -> i32 {
        signed_in(w@, 0x1_0000_0000) as i32
    }
}

impl From<Word> for i64 {
    /// The low bits of the word, read as a signed 64-bit integer in two's
    /// complement; the bits above the integer's width are dropped.
    fn from(w: Word) -> (n: i64)
        ensures
            n == signed_in(w@, 0x1_0000_0000_0000_0000),
    {
        proof {
            lemma_low_i64(w.0);
        }
        #[verifier::truncate]
        (w.0 as i64)
    }
}

impl vstd::std_specs::convert::FromSpecImpl<Word> for i64 {
    open spec fn obeys_from_spec() -> bool {
        true
    }

    open spec fn from_spec(w: Word) -> i64 {
        signed_in(w@, 0x1_0000_0000_0000_0000) as i64
    }
}

impl From<Word> for isize {
    /// The low bits of the word, read as a signed pointer-sized integer in
    /// two's complement; the bits above the integer's width are dropped.
    fn from(w: Word) -> (n: isize)
        ensures
            n == signed_in(w@, usize::MAX + 1),
    {
        proof {
            lemma_low_isize(w.0);
        }
        #[verifier::truncate]
        (w.0 as isize)
    }
}

impl vstd::std_specs::convert::FromSpecImpl<Word> for isize {
    open spec fn obeys_from_spec() -> bool {
        true
    }

    open spec fn from_spec(w: Word) -> isize {
        signed_in(w@, usize::MAX + 1) as isize
    }
}

/// A word made from its own pattern is the same word: reading a word as an
/// unsigned 64-bit integer and making a word of that integer loses nothing.
pub proof fn lemma_word_round_trip(w: Word)
    ensures
        Word::from_spec(u64::from_spec(w)) == w,
{
}

/// An unsigned 8-bit integer that is put into a word and read back at the
/// same width is unchanged.
pub proof fn lemma_round_trip_u8(n: u8)
    ensures
        u8::from_spec(Word::from_spec(n)) == n,
{
}

/// An unsigned 16-bit integer that is put into a word and read back at the
/// same width is unchanged.
pub proof fn lemma_round_trip_u16(n: u16)
    ensures
        u16::from_spec(Word::from_spec(n)) == n,
{
}

/// An unsigned 32-bit integer that is put into a word and read back at the
/// same width is unchanged.
pub proof fn lemma_round_trip_u32(n: u32)
    ensures
        u32::from_spec(Word::from_spec(n)) == n,
{
}

/// An unsigned 64-bit integer that is put into a word and read back at the
/// same width is unchanged.
pub proof fn lemma_round_trip_u64(n: u64)
    ensures
        u64::from_spec(Word::from_spec(n)) == n,
{
}

/// An unsigned pointer-sized integer that is put into a word and read back at
/// the same width is unchanged.
pub proof fn lemma_round_trip_usize(n: usize)
    ensures
        usize::from_spec(Word::from_spec(n)) == n,
{
    lemma_pointer_width();
}

/// A signed 8-bit integer that is put into a word and read back at the same
/// width is unchanged.
pub proof fn lemma_round_trip_i8(n: i8)
    ensures
        i8::from_spec(Word::from_spec(n)) == n,
{
}

/// A signed 16-bit integer that is put into a word and read back at the same
/// width is unchanged.
pub proof fn lemma_round_trip_i16(n: i16)
    ensures
        i16::from_spec(Word::from_spec(n)) == n,
{
}

/// A signed 32-bit integer that is put into a word and read back at the same
/// width is unchanged.
pub proof fn lemma_round_trip_i32(n: i32)
    ensures
        i32::from_spec(Word::from_spec(n)) == n,
{
}

/// A signed 64-bit integer that is put into a word and read back at the same
/// width is unchanged.
pub proof fn lemma_round_trip_i64(n: i64)
    ensures
        i64::from_spec(Word::from_spec(n)) == n,
{
}

/// A signed pointer-sized integer that is put into a word and read back at
/// the same width is unchanged.
pub proof fn lemma_round_trip_isize(n: isize)
    ensures
        isize::from_spec(Word::from_spec(n)) == n,
{
    lemma_pointer_width();
}

impl PartialOrd for Word {
    /// Words are ordered by their patterns, read as unsigned numbers.
    fn partial_cmp(&self, other: &Word) -> (o: Option<Ordering>) {
        if self.0 < other.0 {
            Some(Ordering::Less)
        } else if self.0 > other.0 {
            Some(Ordering::Greater)
        } else {
            Some(Ordering::Equal)
        }
    }
}

impl PartialOrdSpecImpl for Word {
    open spec fn obeys_partial_cmp_spec() -> bool {
        true
    }

    open spec fn partial_cmp_spec(&self, other: &Word) -> Option<Ordering> {
        if self@ < other@ {
            Some(Ordering::Less)
        } else if self@ > other@ {
            Some(Ordering::Greater)
        } else {
            Some(Ordering::Equal)
        }
    }
}

} // verus!
