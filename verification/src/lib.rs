pub mod backend;
pub mod text;
pub mod ui;
pub mod utils;
