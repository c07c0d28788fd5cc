use vstd::prelude::*;

use crate::backend::pcsc::error::PcscError;

verus! {

pub type PcscResult<T> = Result<T, PcscError>;

/// A card reader as the PC/SC layer names it.
#[derive(Debug, Clone)]
pub struct ReaderInfo {
    pub reader_name: String,
}

/// What was read from a card: its answer to reset, its UID, and what the ATR says it is.
#[derive(Debug, Clone)]
pub struct CardInfo {
    pub atr: Vec<u8>,
    pub uid: Vec<u8>,
    pub kind: CardKind,
    pub capacity: Option<CardCapacity>,
}

/// Requests to the reader worker.
#[derive(Debug)]
pub enum PcscCommand {
    RefreshReaders,
    WatchReader { reader_name: String },
    StopWatchingReader,
    ReadCardInfo { reader_name: String },
    Shutdown,
}

/// Reports of the reader worker.
#[derive(Debug, Clone)]
pub enum PcscEvent {
    ReadersUpdated { readers: Vec<ReaderInfo> },
    ReaderStatusUpdated { reader_name: String, card_present: bool },
    CardInfoUpdated { card: Option<CardInfo> },
    Error { message: String },
}

/// The contactless protocol that a card's ATR names.
#[derive(Debug, Clone, Copy, PartialEq, Eq, Structural)]
pub enum CardProtocol {
    Iso14443TypeA,
    Iso14443TypeB,
    Iso15693,
    Felica,
    Unknown(u8),
}

/// The card family that a card's ATR names.
#[derive(Debug, Clone, Copy, PartialEq, Eq, Structural)]
pub enum CardKind {
    MifareClassic1K,
    MifareClassic4K,
    MifareUltralight,
    Unknown,
}

/// The memory layout of a card family.
#[derive(Debug, Clone, Copy, PartialEq, Eq, Structural)]
pub struct CardCapacity {
    pub bytes: usize,
    pub sectors: Option<usize>,
    pub blocks: Option<usize>,
}

/// What the PC/SC part of an ATR says about a card.
#[derive(Debug, Clone, Copy, PartialEq, Eq, Structural)]
pub struct ParsedAtr {
    pub protocol: CardProtocol,
    pub kind: CardKind,
}

} // verus!
