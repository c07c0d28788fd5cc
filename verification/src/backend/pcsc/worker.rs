use vstd::prelude::*;

use crate::backend::pcsc::error::PcscError;
use crate::backend::pcsc::types::{CardInfo, PcscCommand, PcscEvent, PcscResult, ReaderInfo};

verus! {

/// The reader whose card the worker watches, and whether it last saw a card there.
#[derive(Debug)]
pub struct WatchedReader {
    pub reader_name: String,
    pub card_present: bool,
}

/// The state of the reader worker between two rounds of its loop.
#[derive(Debug)]
pub struct WorkerState {
    pub running: bool,
    pub watched_reader: Option<WatchedReader>,
}

/// The call into the PC/SC layer that a command asks the worker to make.
#[derive(Debug)]
pub enum WorkerAction {
    Nothing,
    RefreshReaders,
    ReadCardInfo { reader_name: String },
}

/// The state after a command.
pub open spec fn state_after_command(s: WorkerState, command: PcscCommand) -> WorkerState {
    match command {
        PcscCommand::RefreshReaders => s,
        PcscCommand::WatchReader { reader_name } => WorkerState {
            running: s.running,
            watched_reader: Some(WatchedReader { reader_name, card_present: false }),
        },
        PcscCommand::StopWatchingReader => WorkerState { running: s.running, watched_reader: None },
        PcscCommand::ReadCardInfo { .. } => s,
        PcscCommand::Shutdown => WorkerState { running: false, watched_reader: s.watched_reader },
    }
}

/// The call that a command asks for.
pub open spec fn action_for_command(command: PcscCommand) -> WorkerAction {
    match command {
        PcscCommand::RefreshReaders => WorkerAction::RefreshReaders,
        PcscCommand::ReadCardInfo { reader_name } => WorkerAction::ReadCardInfo { reader_name },
        _ => WorkerAction::Nothing,
    }
}

/// The state after polling the watched reader with the given outcome.
pub open spec fn state_after_poll(s: WorkerState, presence: PcscResult<bool>) -> WorkerState {
    match s.watched_reader {
        None => s,
        Some(w) => match presence {
            Ok(p) => if w.card_present == p {
                s
            } else {
                WorkerState {
                    running: s.running,
                    watched_reader: Some(WatchedReader { reader_name: w.reader_name, card_present: p }),
                }
            },
            Err(_) => WorkerState { running: s.running, watched_reader: None },
        },
    }
}

/// Whether polling with the given outcome reports an event, and which.
pub open spec fn poll_reports(s: WorkerState, presence: PcscResult<bool>, event: Option<PcscEvent>) -> bool {
    match s.watched_reader {
        None => event is None,
        Some(w) => match presence {
            Ok(p) => if w.card_present == p {
                event is None
            } else {
                event == Some(
                    PcscEvent::ReaderStatusUpdated { reader_name: w.reader_name, card_present: p },
                )
            },
            Err(e) => event matches Some(PcscEvent::Error { message }) && message@ == e.text(),
        },
    }
}

impl WorkerState {
    /// A running worker that watches no reader.
    pub fn new() -> (r: Self)
        ensures
            r.running,
            r.watched_reader is None,
    {
        WorkerState { running: true, watched_reader: None }
    }

    /// Takes a command: updates the state and says which call it asks for.
    pub fn handle_command(&mut self, command: PcscCommand) -> (a: WorkerAction)
        ensures
            *final(self) == state_after_command(*old(self), command),
            a == action_for_command(command),
    {
        match command {
            PcscCommand::RefreshReaders => WorkerAction::RefreshReaders,
            PcscCommand::WatchReader { reader_name } => {
                self.watched_reader = Some(WatchedReader { reader_name, card_present: false });
                WorkerAction::Nothing
            },
            PcscCommand::ReadCardInfo { reader_name } => WorkerAction::ReadCardInfo { reader_name },
            PcscCommand::StopWatchingReader => {
                self.watched_reader = None;
                WorkerAction::Nothing
            },
            PcscCommand::Shutdown => {
                self.running = false;
                WorkerAction::Nothing
            },
        }
    }

    /// The command channel was closed: the worker stops.
    pub fn commands_closed(&mut self)
        ensures
            !final(self).running,
            final(self).watched_reader == old(self).watched_reader,
    {
        self.running = false;
    }

    /// The name of the reader to poll, if one is watched.
    pub fn watched_reader_name(&self) -> (r: Option<String>)
        ensures
            match self.watched_reader {
                None => r is None,
                Some(w) => r == Some(w.reader_name),
            },
    {
        match &self.watched_reader {
            None => None,
            Some(w) => Some(w.reader_name.clone()),
        }
    }

    /// Takes the outcome of polling the watched reader: reports a change of card presence,
    /// or an error, after which the reader is no longer watched.
    pub fn poll_watched_reader(&mut self, presence: PcscResult<bool>) -> (r: Option<PcscEvent>)
        ensures
            *final(self) == state_after_poll(*old(self), presence),
            poll_reports(*old(self), presence, r),
    {
        let presence_ok = match &presence {
            Ok(p) => Some(*p),
            Err(_) => None,
        };
        match &mut self.watched_reader {
            None => None,
            Some(w) => {
                match presence_ok {
                    Some(p) => {
                        if w.card_present == p {
                            None
                        } else {
                            w.card_present = p;
                            Some(
                                PcscEvent::ReaderStatusUpdated {
                                    reader_name: w.reader_name.clone(),
                                    card_present: p,
                                },
                            )
                        }
                    },
                    None => {
                        let message = match &presence {
                            Err(e) => e.message(),
                            Ok(_) => String::new(),
                        };
                        self.watched_reader = None;
                        Some(PcscEvent::Error { message })
                    },
                }
            },
        }
    }
}

/// The event that reports a listing of the readers.
pub fn refresh_readers(listing: PcscResult<Vec<ReaderInfo>>) -> (r: PcscEvent)
    ensures
        match listing {
            Ok(readers) => r == PcscEvent::ReadersUpdated { readers },
            Err(e) => r matches PcscEvent::Error { message } && message@ == e.text(),
        },
{
    match listing {
        Ok(readers) => PcscEvent::ReadersUpdated { readers },
        Err(err) => PcscEvent::Error { message: err.message() },
    }
}

/// The event that reports reading a card.
pub fn read_card_info(outcome: PcscResult<Option<CardInfo>>) -> (r: PcscEvent)
    ensures
        match outcome {
            Ok(card) => r == PcscEvent::CardInfoUpdated { card },
            Err(e) => r matches PcscEvent::Error { message } && message@ == e.text(),
        },
{
    match outcome {
        Ok(card) => PcscEvent::CardInfoUpdated { card },
        Err(err) => PcscEvent::Error { message: err.message() },
    }
}

/// Once stopped, the worker stays stopped: no command and no poll restarts it.
pub proof fn lemma_stopped_stays_stopped(
    s: WorkerState,
    command: PcscCommand,
    presence: PcscResult<bool>,
)
    requires
        !s.running,
    ensures
        !state_after_command(s, command).running,
        !state_after_poll(s, presence).running,
{
}

/// A shutdown command stops the worker.
pub proof fn lemma_shutdown_stops(s: WorkerState)
    ensures
        !state_after_command(s, PcscCommand::Shutdown).running,
{
}

/// Watching a reader and then stopping the watch leaves no reader watched.
pub proof fn lemma_watch_then_stop(s: WorkerState, reader_name: String)
    ensures
        state_after_command(
            state_after_command(s, PcscCommand::WatchReader { reader_name }),
            PcscCommand::StopWatchingReader,
        ).watched_reader is None,
{
}

/// A newly watched reader reports its card as soon as one is seen, and not while none is.
pub proof fn lemma_new_watch_reports_first_card(s: WorkerState, reader_name: String, present: bool)
    ensures
        ({
            let t = state_after_command(s, PcscCommand::WatchReader { reader_name });
            &&& present ==> poll_reports(
                t,
                Ok(present),
                Some(PcscEvent::ReaderStatusUpdated { reader_name, card_present: true }),
            )
            &&& !present ==> poll_reports(t, Ok(present), None) && state_after_poll(t, Ok(present))
                == t
        }),
{
}

/// A change of card presence is reported once: polling again with the same presence reports
/// nothing and changes nothing.
pub proof fn lemma_presence_reported_once(s: WorkerState, present: bool)
    requires
        s.watched_reader is Some,
    ensures
        ({
            let t = state_after_poll(s, Ok(present));
            &&& poll_reports(t, Ok(present), None)
            &&& state_after_poll(t, Ok(present)) == t
        }),
{
}

/// A failed poll ends the watch, so the next poll reports nothing.
pub proof fn lemma_failed_poll_ends_watch(s: WorkerState, e: PcscError, presence: PcscResult<bool>)
    ensures
        state_after_poll(s, Err(e)).watched_reader is None,
        poll_reports(state_after_poll(s, Err(e)), presence, None),
{
}

/// Only a shutdown stops the worker: every other command leaves the running flag as it was.
pub proof fn lemma_only_shutdown_stops(s: WorkerState, command: PcscCommand)
    ensures
        !(command is Shutdown) ==> state_after_command(s, command).running == s.running,
        command is Shutdown ==> !state_after_command(s, command).running,
{
}

/// What each command does to the watch: watching a reader watches it with no card seen yet,
/// stopping the watch ends it, and refreshing, reading and shutting down leave it as it was;
/// refreshing and reading ask for their call, with the reader's name for a read.
pub proof fn lemma_commands_and_watch(s: WorkerState, command: PcscCommand)
    ensures
        match command {
            PcscCommand::WatchReader { reader_name } => state_after_command(s, command).watched_reader
                matches Some(w) && w.reader_name == reader_name && !w.card_present,
            PcscCommand::StopWatchingReader => state_after_command(s, command).watched_reader is None,
            PcscCommand::RefreshReaders => state_after_command(s, command) == s && action_for_command(
                command,
            ) is RefreshReaders,
            PcscCommand::ReadCardInfo { reader_name } => {
                &&& state_after_command(s, command) == s
                &&& action_for_command(command) matches WorkerAction::ReadCardInfo { reader_name: n }
                &&& n == reader_name
            },
            PcscCommand::Shutdown => state_after_command(s, command).watched_reader == s.watched_reader,
        },
        !(command is RefreshReaders || command is ReadCardInfo) ==> action_for_command(command) is Nothing,
{
}

} // verus!
