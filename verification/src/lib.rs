//! The memory layer of the Saturn runtime: the word, which is the cell that
//! all memory is made of; the size, which counts words; and what it takes
//! for a value to be seen as the words that hold it.

pub mod repr;
pub mod size_assign;
pub mod size_ops;
pub mod size_t;
pub mod word;

pub use crate::repr::{SaturnType, SaturnTypeExt};
pub use crate::size_t::Size;
pub use crate::word::Word;
