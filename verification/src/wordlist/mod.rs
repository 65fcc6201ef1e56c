//! The word-list format: one word per line, white space around a word
//! ignored, blank lines ignored.

pub mod format;
pub mod lemmas;
pub mod parser;

pub use format::{lowered_word_list, word_list};
pub use parser::{parse_lowered_words, parse_words};
