pub mod file_word_repository;

pub use file_word_repository::FileWordRepository;
