use vstd::prelude::*;

use crate::text::{push_hex_byte, push_str, hex_byte};

verus! {

/// What kind of failure the PC/SC layer reported; the library tells apart
/// the two failures that it answers differently.
#[derive(Debug, Clone, Copy, PartialEq, Eq, Structural)]
pub enum NativeErrorKind {
    NoReadersAvailable,
    NoSmartcard,
    Other,
}

/// A failure reported by the PC/SC layer, with the text that describes it.
#[derive(Debug, Clone)]
pub struct NativeError {
    pub kind: NativeErrorKind,
    pub message: String,
}

/// The failures of the card reader service.
#[derive(Debug, Clone)]
pub enum PcscError {
    EstablishContext(NativeError),
    ListReaders(NativeError),
    Utf8ReaderName(String),
    InvalidReaderName(String),
    GetStatusChange(NativeError),
    ConnectCard(NativeError),
    CardStatus(NativeError),
    DisconnectCard(NativeError),
    TransmitApdu(NativeError),
    InvalidApduResponse,
    ApduStatus(u8, u8),
    EmptyUid,
}

impl PcscError {
    /// The text that describes the error to a user.
    pub open spec fn text(&self) -> Seq<char> {
        match self {
            PcscError::EstablishContext(e) => "Failed establishing context: "@ + e.message@,
            PcscError::ListReaders(e) => "Failed listing readers: "@ + e.message@,
            PcscError::Utf8ReaderName(e) => "Failed converting reader name: "@ + e@,
            PcscError::GetStatusChange(e) => "Failed getting status change: "@ + e.message@,
            PcscError::InvalidReaderName(e) => "Invalid reader name: "@ + e@,
            PcscError::ConnectCard(e) => "Failed connecting to card: "@ + e.message@,
            PcscError::CardStatus(e) => "Failed getting card status: "@ + e.message@,
            PcscError::DisconnectCard(e) => "Failed disconnecting card: "@ + e.message@,
            PcscError::TransmitApdu(e) => "Failed transmitting APDU: "@ + e.message@,
            PcscError::InvalidApduResponse => "Invalid APDU response"@,
            PcscError::ApduStatus(sw1, sw2) => "APDU failed with status "@ + hex_byte(*sw1) + " "@
                + hex_byte(*sw2),
            PcscError::EmptyUid => "Card returned an empty UID"@,
        }
    }

    /// The text that describes the error to a user.
    pub fn message(&self) -> (r: String)
        ensures
            r@ == self.text(),
    {
        let mut s = String::new();
        match self {
            PcscError::EstablishContext(e) => {
                push_str(&mut s, "Failed establishing context: ");
                push_str(&mut s, e.message.as_str());
            },
            PcscError::ListReaders(e) => {
                push_str(&mut s, "Failed listing readers: ");
                push_str(&mut s, e.message.as_str());
            },
            PcscError::Utf8ReaderName(e) => {
                push_str(&mut s, "Failed converting reader name: ");
                push_str(&mut s, e.as_str());
            },
            PcscError::GetStatusChange(e) => {
                push_str(&mut s, "Failed getting status change: ");
                push_str(&mut s, e.message.as_str());
            },
            PcscError::InvalidReaderName(e) => {
                push_str(&mut s, "Invalid reader name: ");
                push_str(&mut s, e.as_str());
            },
            PcscError::ConnectCard(e) => {
                push_str(&mut s, "Failed connecting to card: ");
                push_str(&mut s, e.message.as_str());
            },
            PcscError::CardStatus(e) => {
                push_str(&mut s, "Failed getting card status: ");
                push_str(&mut s, e.message.as_str());
            },
            PcscError::DisconnectCard(e) => {
                push_str(&mut s, "Failed disconnecting card: ");
                push_str(&mut s, e.message.as_str());
            },
            PcscError::TransmitApdu(e) => {
                push_str(&mut s, "Failed transmitting APDU: ");
                push_str(&mut s, e.message.as_str());
            },
            PcscError::InvalidApduResponse => {
                push_str(&mut s, "Invalid APDU response");
            },
            PcscError::ApduStatus(sw1, sw2) => {
                push_str(&mut s, "APDU failed with status ");
                push_hex_byte(&mut s, *sw1);
                push_str(&mut s, " ");
                push_hex_byte(&mut s, *sw2);
            },
            PcscError::EmptyUid => {
                push_str(&mut s, "Card returned an empty UID");
            },
        }
        assert(s@ =~= self.text());
        s
    }
}

} // verus!
