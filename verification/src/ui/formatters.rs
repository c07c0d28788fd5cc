use vstd::prelude::*;

use crate::backend::state::types::{CardType, ReaderStatus};

verus! {

/// What the window says a reader is doing.
pub open spec fn reader_status_text(status: ReaderStatus) -> Seq<char> {
    match status {
        ReaderStatus::Ready => "Waiting for card"@,
        ReaderStatus::Working => "Card detected"@,
        ReaderStatus::Disconnected => "No reader"@,
    }
}

/// The name that the window gives a card family, where there is one.
pub open spec fn card_type_text(kind: Option<CardType>) -> Option<Seq<char>> {
    match kind {
        Some(CardType::MifareClassic1K) => Some("MIFARE Classic 1K"@),
        Some(CardType::MifareClassic4K) => Some("MIFARE Classic 4K"@),
        Some(CardType::Unknown(raw)) => Some(raw@),
        None => None,
    }
}

/// What the window says a reader is doing.
pub fn format_reader_status(status: &ReaderStatus) -> (r: &'static str)
    ensures
        r@ == reader_status_text(*status),
{
    match status {
        ReaderStatus::Ready => "Waiting for card",
        ReaderStatus::Working => "Card detected",
        ReaderStatus::Disconnected => "No reader",
    }
}

/// The name that the window gives a card family, where there is one.
pub fn format_card_type(kind: Option<&CardType>) -> (r: Option<&str>)
    ensures
        match kind {
            Some(k) => r matches Some(t) && card_type_text(Some(*k)) == Some(t@),
            None => r is None,
        },
{
    match kind {
        Some(CardType::MifareClassic1K) => Some("MIFARE Classic 1K"),
        Some(CardType::MifareClassic4K) => Some("MIFARE Classic 4K"),
        Some(CardType::Unknown(raw)) => Some(raw.as_str()),
        None => None,
    }
}

} // verus!
