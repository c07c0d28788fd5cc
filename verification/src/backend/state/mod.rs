pub mod app_state;
pub mod types;
