use saturn_types::repr::{fixed_size, keep_fitted, try_narrow, words_for};
use saturn_types::{SaturnType, SaturnTypeExt, Size, Word};

#[allow(dead_code)]
struct Ten([u8; 10]);

#[allow(dead_code)]
struct Sixteen([u8; 16]);

#[allow(dead_code)]
struct Seventeen([u8; 17]);

/// A pair of cells: a value of fixed layout that is stored in words.
struct Pair {
    cells: [Word; 2],
}

// What the trait says of a value in contracts is never run.
impl SaturnType for Pair {
    type Id = u64;
    type ThinId = u16;

    fn spec_type_id() -> u64 {
        unreachable!()
    }

    fn storage(&self) -> vstd::seq::Seq<Word> {
        unreachable!()
    }

    fn spec_size(&self) -> vstd::prelude::nat {
        unreachable!()
    }

    fn type_id() -> u64 {
        513
    }

    fn size(&self) -> Size {
        fixed_size::<Pair>()
    }

    fn cells(&self) -> &[Word] {
        &self.cells
    }

    fn cells_mut(&mut self) -> &mut [Word] {
        &mut self.cells
    }
}

/// A record that keeps its length in its first cell and its items behind it,
/// in a buffer that may be longer than what is in use.
struct Record {
    buffer: Vec<Word>,
}

impl Record {
    fn new(items: &[u64], spare: usize) -> Record {
        let mut buffer = vec![Word::from(items.len())];
        buffer.extend(items.iter().map(|&item| Word::from(item)));
        buffer.extend(std::iter::repeat(Word::from(0xdead_beefu32)).take(spare));
        Record { buffer }
    }
}

impl SaturnType for Record {
    type Id = u64;
    type ThinId = u16;

    fn spec_type_id() -> u64 {
        unreachable!()
    }

    fn storage(&self) -> vstd::seq::Seq<Word> {
        unreachable!()
    }

    fn spec_size(&self) -> vstd::prelude::nat {
        unreachable!()
    }

    fn type_id() -> u64 {
        70_000
    }

    fn size(&self) -> Size {
        Size::from(usize::from(self.buffer[0])) + 1usize
    }

    fn cells(&self) -> &[Word] {
        &self.buffer
    }

    fn cells_mut(&mut self) -> &mut [Word] {
        &mut self.buffer
    }
}

#[test]
fn ten_bytes_take_two_words() {
    assert_eq!(std::mem::size_of::<Ten>(), 10);
    assert_eq!(fixed_size::<Ten>(), Size::from(2));
}

#[test]
fn sixteen_bytes_take_two_words() {
    assert_eq!(std::mem::size_of::<Sixteen>(), 16);
    assert_eq!(fixed_size::<Sixteen>(), Size::from(2));
}

#[test]
fn seventeen_bytes_take_three_words() {
    assert_eq!(std::mem::size_of::<Seventeen>(), 17);
    assert_eq!(fixed_size::<Seventeen>(), Size::from(3));
}

#[test]
fn a_fixed_layout_takes_its_bytes_in_words_rounded_up() {
    assert_eq!(fixed_size::<()>(), Size::from(0));
    assert_eq!(fixed_size::<u8>(), Size::from(1));
    assert_eq!(fixed_size::<u64>(), Size::from(1));
    assert_eq!(fixed_size::<Word>(), Size::from(1));
    assert_eq!(fixed_size::<[u8; 9]>(), Size::from(2));
    assert_eq!(fixed_size::<[Word; 5]>(), Size::from(5));
    assert_eq!(fixed_size::<Pair>(), Size::from((std::mem::size_of::<Pair>() + 7) / 8));
}

#[test]
fn bytes_are_counted_in_words_rounded_up() {
    assert_eq!(words_for(0), Size::from(0));
    assert_eq!(words_for(1), Size::from(1));
    assert_eq!(words_for(7), Size::from(1));
    assert_eq!(words_for(8), Size::from(1));
    assert_eq!(words_for(9), Size::from(2));
    assert_eq!(words_for(10), Size::from(2));
    assert_eq!(words_for(16), Size::from(2));
    assert_eq!(words_for(17), Size::from(3));
    assert_eq!(words_for(usize::MAX - 7), Size::from(usize::MAX / 8));
    assert_eq!(words_for(usize::MAX), Size::from(usize::MAX / 8 + 1));
}

#[test]
fn a_fixed_value_shows_all_its_words() {
    let pair = Pair { cells: [Word::from(-1i8), Word::from(7u8)] };
    assert_eq!(pair.size(), Size::from(2));
    let words = pair.words();
    assert_eq!(words.len(), 2);
    assert_eq!(words, &[Word::from(u64::MAX), Word::from(7u64)][..]);
}

#[test]
fn an_extended_value_shows_the_words_it_counts() {
    let record = Record::new(&[10, 20, 30], 4);
    assert_eq!(record.buffer.len(), 8);
    assert_eq!(record.size(), Size::from(4));
    let words = record.words();
    assert_eq!(words.len(), 4);
    assert_eq!(words, &record.buffer[..4]);
    assert_eq!(
        words.iter().map(|&w| u64::from(w)).collect::<Vec<u64>>(),
        vec![3, 10, 20, 30]
    );
}

#[test]
fn an_empty_record_shows_its_header_only() {
    let record = Record::new(&[], 0);
    assert_eq!(record.size(), Size::from(1));
    assert_eq!(record.words(), &[Word::from(0u8)][..]);
}

#[test]
fn words_are_changed_in_place() {
    let mut record = Record::new(&[10, 20, 30], 2);
    {
        let words = record.words_mut();
        assert_eq!(words.len(), 4);
        words[1] = Word::from(-1i64);
        words[3] = Word::from(33u8);
    }
    let patterns: Vec<u64> = record.buffer.iter().map(|&w| u64::from(w)).collect();
    assert_eq!(patterns, vec![3, u64::MAX, 20, 33, 0xdead_beef, 0xdead_beef]);
}

#[test]
fn a_change_to_the_header_changes_the_size() {
    let mut record = Record::new(&[10, 20, 30], 2);
    record.words_mut()[0] = Word::from(1u8);
    assert_eq!(record.size(), Size::from(2));
    assert_eq!(record.words(), &[Word::from(1u8), Word::from(10u8)][..]);
}

#[test]
fn a_full_identifier_that_fits_has_a_thin_one() {
    assert_eq!(Pair::type_id(), 513);
    assert_eq!(Pair::try_thin_type_id(), Some(513u16));
    assert_eq!(Pair::thin_type_id(), 513u16);
    assert_eq!(u64::from(Pair::thin_type_id()), Pair::type_id());
}

#[test]
fn a_full_identifier_that_does_not_fit_has_no_thin_one() {
    assert_eq!(Record::type_id(), 70_000);
    assert_eq!(Record::try_thin_type_id(), None);
}

#[test]
fn narrowing_keeps_what_fits() {
    assert_eq!(try_narrow::<u64, u16>(0), Some(0u16));
    assert_eq!(try_narrow::<u64, u16>(65_535), Some(65_535u16));
    assert_eq!(try_narrow::<u64, u16>(65_536), None);
    assert_eq!(try_narrow::<u64, u8>(255), Some(255u8));
    assert_eq!(try_narrow::<u64, u8>(256), None);
    assert_eq!(try_narrow::<i32, u32>(-1), None);
    assert_eq!(try_narrow::<u32, u64>(7), Some(7u64));
}

#[test]
fn the_outcome_of_narrowing_loses_its_reason() {
    let fits: Result<u16, String> = Ok(9);
    assert_eq!(keep_fitted(fits), Some(9u16));
    let too_wide: Result<u16, String> = Err(String::from("too wide"));
    assert_eq!(keep_fitted(too_wide), None);
}
