//! An ordered list of string options from which one can be drawn at random.
pub mod option_list;
mod random;

pub use option_list::{OptionList, PickError};
