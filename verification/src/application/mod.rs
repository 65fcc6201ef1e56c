pub mod name_generator_service;

pub use name_generator_service::NameGeneratorService;
