pub mod http;
pub mod page;
