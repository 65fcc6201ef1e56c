pub mod entities;
pub mod ports;

pub use entities::{Adjective, CoolName, Noun};
pub use ports::{NameGenerator, WordRepository};
