pub mod nfc;
pub mod pcsc;
pub mod state;
