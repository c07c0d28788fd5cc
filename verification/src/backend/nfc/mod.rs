pub mod messages;
pub mod pcsc;
pub mod types;
pub mod worker;
