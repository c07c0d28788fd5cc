use vstd::prelude::*;

use crate::backend::nfc::messages::{NfcCommand, NfcEvent};
use crate::backend::nfc::pcsc::{PcscError, PcscReader, PcscResult};
use crate::backend::nfc::types::NfcWorkerState;
use crate::backend::state::types::{Reader, ReaderId};
use crate::text::string_of;

verus! {

/// The call into the PC/SC layer, or the end of the loop, that the worker asks for.
#[derive(Debug, Clone, Copy, PartialEq, Eq, Structural)]
pub enum NfcAction {
    Nothing,
    Establish,
    ListReaders,
    Exit,
}

/// The events to send to the window, in order, and what to do next.
#[derive(Debug)]
pub struct NfcReaction {
    pub events: Vec<NfcEvent>,
    pub action: NfcAction,
}

/// The decisions of the NFC worker: whether a PC/SC context is established.
#[derive(Debug)]
pub struct NfcWorkerCore {
    pub service_ready: bool,
}

/// The event is a log line with the given text.
pub open spec fn is_log(e: NfcEvent, text: Seq<char>) -> bool {
    e matches NfcEvent::Log(m) && m@ == text
}

/// The readers that the window lists for the readers of the PC/SC layer: each named and
/// identified by the reader's name.
pub open spec fn readers_named(readers: Seq<Reader>, pcsc: Seq<PcscReader>) -> bool {
    &&& readers.len() == pcsc.len()
    &&& forall|i: int|
        0 <= i < pcsc.len() ==> #[trigger] readers[i].id@ == pcsc[i].name@ && readers[i].label
            == pcsc[i].name
}

/// The events that report a failure: its text, then that the worker stopped.
pub open spec fn reports_failure(events: Seq<NfcEvent>, text: Seq<char>) -> bool {
    &&& events.len() == 2
    &&& is_log(events[0], text)
    &&& events[1] == NfcEvent::StateChanged(NfcWorkerState::Stopped)
}

impl NfcWorkerCore {
    /// A worker without a PC/SC context.
    pub fn new() -> (r: Self)
        ensures
            !r.service_ready,
    {
        NfcWorkerCore { service_ready: false }
    }

    /// Takes a command from the window.
    pub fn handle_command(&mut self, command: NfcCommand) -> (r: NfcReaction)
        ensures
            final(self).service_ready == old(self).service_ready,
            match command {
                NfcCommand::Start => if old(self).service_ready {
                    r.events@ == seq![NfcEvent::StateChanged(NfcWorkerState::Running)] && r.action
                        == NfcAction::ListReaders
                } else {
                    r.events@.len() == 0 && r.action == NfcAction::Establish
                },
                NfcCommand::Shutdown => r.events@ == seq![
                    NfcEvent::StateChanged(NfcWorkerState::Stopped),
                ] && r.action == NfcAction::Exit,
                NfcCommand::ReadCard { reader_id } => {
                    &&& r.action == NfcAction::Nothing
                    &&& r.events@.len() == 2
                    &&& is_log(r.events@[0], "Reading requested"@)
                    &&& if old(self).service_ready {
                        r.events@[1] == NfcEvent::ReadStarted { reader_id }
                    } else {
                        is_log(r.events@[1], "PC/SC not initialized"@)
                    }
                },
            },
    {
        let mut events: Vec<NfcEvent> = Vec::new();
        match command {
            NfcCommand::Start => {
                if self.service_ready {
                    events.push(NfcEvent::StateChanged(NfcWorkerState::Running));
                    NfcReaction { events, action: NfcAction::ListReaders }
                } else {
                    NfcReaction { events, action: NfcAction::Establish }
                }
            },
            NfcCommand::Shutdown => {
                events.push(NfcEvent::StateChanged(NfcWorkerState::Stopped));
                NfcReaction { events, action: NfcAction::Exit }
            },
            NfcCommand::ReadCard { reader_id } => {
                events.push(NfcEvent::Log(string_of("Reading requested")));
                if self.service_ready {
                    events.push(NfcEvent::ReadStarted { reader_id });
                } else {
                    events.push(NfcEvent::Log(string_of("PC/SC not initialized")));
                }
                NfcReaction { events, action: NfcAction::Nothing }
            },
        }
    }

    /// Takes the outcome of establishing a PC/SC context.
    pub fn established(&mut self, outcome: Result<(), PcscError>) -> (r: NfcReaction)
        ensures
            match outcome {
                Ok(()) => {
                    &&& final(self).service_ready
                    &&& r.events@ == seq![NfcEvent::StateChanged(NfcWorkerState::Running)]
                    &&& r.action == NfcAction::ListReaders
                },
                Err(e) => {
                    &&& final(self).service_ready == old(self).service_ready
                    &&& reports_failure(r.events@, e.text())
                    &&& r.action == NfcAction::Nothing
                },
            },
    {
        let mut events: Vec<NfcEvent> = Vec::new();
        match outcome {
            Ok(()) => {
                self.service_ready = true;
                events.push(NfcEvent::StateChanged(NfcWorkerState::Running));
                NfcReaction { events, action: NfcAction::ListReaders }
            },
            Err(error) => {
                events.push(NfcEvent::Log(error.message()));
                events.push(NfcEvent::StateChanged(NfcWorkerState::Stopped));
                NfcReaction { events, action: NfcAction::Nothing }
            },
        }
    }

    /// Takes the outcome of listing the readers.
    pub fn readers_listed(&self, outcome: PcscResult<Vec<PcscReader>>) -> (r: NfcReaction)
        ensures
            r.action == NfcAction::Nothing,
            match outcome {
                Ok(pcsc) => {
                    &&& r.events@.len() == 1
                    &&& r.events@[0] matches NfcEvent::ReadersChanged(readers)
                    &&& readers_named(readers@, pcsc@)
                },
                Err(e) => reports_failure(r.events@, e.text()),
            },
    {
        let mut events: Vec<NfcEvent> = Vec::new();
        match outcome {
            Ok(pcsc) => {
                let mut readers: Vec<Reader> = Vec::new();
                let mut i: usize = 0;
                while i < pcsc.len()
                    invariant
                        i <= pcsc.len(),
                        readers_named(readers@, pcsc@.take(i as int)),
                    decreases pcsc.len() - i,
                {
                    let name = pcsc[i].name.clone();
                    readers.push(Reader { id: ReaderId(name.clone()), label: name });
                    i += 1;
                    assert(readers_named(readers@, pcsc@.take(i as int)));
                }
                assert(pcsc@.take(pcsc@.len() as int) =~= pcsc@);
                events.push(NfcEvent::ReadersChanged(readers));
                NfcReaction { events, action: NfcAction::Nothing }
            },
            Err(error) => {
                events.push(NfcEvent::Log(error.message()));
                events.push(NfcEvent::StateChanged(NfcWorkerState::Stopped));
                NfcReaction { events, action: NfcAction::Nothing }
            },
        }
    }

    /// The window dropped its end of the command channel: the worker reports that it stops.
    pub fn commands_closed(&self) -> (r: NfcReaction)
        ensures
            r.events@ == seq![NfcEvent::StateChanged(NfcWorkerState::Stopped)],
            r.action == NfcAction::Exit,
    {
        let mut events: Vec<NfcEvent> = Vec::new();
        events.push(NfcEvent::StateChanged(NfcWorkerState::Stopped));
        NfcReaction { events, action: NfcAction::Exit }
    }
}

} // verus!
