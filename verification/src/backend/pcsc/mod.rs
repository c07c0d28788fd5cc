pub mod error;
pub mod types;
pub mod service;
pub mod utils;
pub mod worker;
