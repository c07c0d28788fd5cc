use vstd::prelude::*;

use crate::backend::nfc::types::NfcWorkerState;
use crate::backend::state::types::{Reader, ReaderId};

verus! {

/// Requests from the window to the NFC worker.
#[derive(Debug, Clone, PartialEq, Eq)]
pub enum NfcCommand {
    Start,
    Shutdown,
    ReadCard { reader_id: ReaderId },
}

/// Reports from the NFC worker to the window.
#[derive(Debug, Clone, PartialEq, Eq)]
pub enum NfcEvent {
    StateChanged(NfcWorkerState),
    ReadersChanged(Vec<Reader>),
    ReadStarted { reader_id: ReaderId },
    Log(String),
}

} // verus!
