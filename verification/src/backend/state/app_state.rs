use vstd::prelude::*;

use crate::backend::state::types::{Card, Reader, ReaderId, ReaderStatus};

verus! {

/// What the window knows: the readers, which is selected, and the card in it.
#[allow(inconsistent_fields)]
#[derive(Debug, Clone, PartialEq, Eq)]
pub enum AppState {
    NoReaders,
    ReadersAvailable {
        readers: Vec<Reader>,
        selected_reader: Option<ReaderId>,
        reader_status: ReaderStatus,
    },
    CardPresent {
        readers: Vec<Reader>,
        selected_reader: ReaderId,
        reader_status: ReaderStatus,
        card: Card,
    },
}

impl Default for AppState {
    fn default() -> (r: Self)
        ensures
            r == AppState::NoReaders,
    {
        AppState::NoReaders
    }
}

} // verus!
