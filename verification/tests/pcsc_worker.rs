use hexly::backend::pcsc::error::{NativeError, NativeErrorKind, PcscError};
use hexly::backend::pcsc::types::{PcscCommand, PcscEvent, ReaderInfo};
use hexly::backend::pcsc::worker::{read_card_info, refresh_readers, WorkerAction, WorkerState};

fn watching(name: &str) -> WorkerState {
    let mut state = WorkerState::new();
    state.handle_command(PcscCommand::WatchReader { reader_name: name.to_string() });
    state
}

#[test]
fn new_worker_runs_and_watches_nothing() {
    let state = WorkerState::new();
    assert!(state.running);
    assert!(state.watched_reader.is_none());
    assert_eq!(state.watched_reader_name(), None);
}

#[test]
fn commands_ask_for_calls() {
    let mut state = WorkerState::new();
    assert!(matches!(state.handle_command(PcscCommand::RefreshReaders), WorkerAction::RefreshReaders));
    match state.handle_command(PcscCommand::ReadCardInfo { reader_name: "R".to_string() }) {
        WorkerAction::ReadCardInfo { reader_name } => assert_eq!(reader_name, "R"),
        other => panic!("unexpected action {:?}", other),
    }
    assert!(state.running);
}

#[test]
fn watch_and_stop_watching() {
    let mut state = watching("Reader A");
    assert_eq!(state.watched_reader_name(), Some("Reader A".to_string()));
    assert!(!state.watched_reader.as_ref().unwrap().card_present);
    assert!(matches!(state.handle_command(PcscCommand::StopWatchingReader), WorkerAction::Nothing));
    assert!(state.watched_reader.is_none());
}

#[test]
fn shutdown_stops_for_good() {
    let mut state = watching("Reader A");
    state.handle_command(PcscCommand::Shutdown);
    assert!(!state.running);
    state.handle_command(PcscCommand::RefreshReaders);
    state.handle_command(PcscCommand::WatchReader { reader_name: "B".to_string() });
    assert!(!state.running);
}

#[test]
fn closed_channel_stops() {
    let mut state = WorkerState::new();
    state.commands_closed();
    assert!(!state.running);
}

#[test]
fn poll_reports_changes_only() {
    let mut state = watching("Reader A");
    assert!(state.poll_watched_reader(Ok(false)).is_none());
    match state.poll_watched_reader(Ok(true)) {
        Some(PcscEvent::ReaderStatusUpdated { reader_name, card_present }) => {
            assert_eq!(reader_name, "Reader A");
            assert!(card_present);
        }
        other => panic!("unexpected event {:?}", other),
    }
    assert!(state.poll_watched_reader(Ok(true)).is_none());
    match state.poll_watched_reader(Ok(false)) {
        Some(PcscEvent::ReaderStatusUpdated { card_present, .. }) => assert!(!card_present),
        other => panic!("unexpected event {:?}", other),
    }
}

#[test]
fn poll_failure_reports_and_ends_watch() {
    let mut state = watching("Reader A");
    let err = PcscError::GetStatusChange(NativeError {
        kind: NativeErrorKind::Other,
        message: "reader removed".to_string(),
    });
    match state.poll_watched_reader(Err(err)) {
        Some(PcscEvent::Error { message }) => {
            assert_eq!(message, "Failed getting status change: reader removed")
        }
        other => panic!("unexpected event {:?}", other),
    }
    assert!(state.watched_reader.is_none());
    assert!(state.poll_watched_reader(Ok(true)).is_none());
    assert!(state.running);
}

#[test]
fn poll_without_watch_reports_nothing() {
    let mut state = WorkerState::new();
    assert!(state.poll_watched_reader(Ok(true)).is_none());
}

#[test]
fn refresh_and_read_events() {
    match refresh_readers(Ok(vec![ReaderInfo { reader_name: "R".to_string() }])) {
        PcscEvent::ReadersUpdated { readers } => assert_eq!(readers[0].reader_name, "R"),
        other => panic!("unexpected event {:?}", other),
    }
    match refresh_readers(Err(PcscError::EmptyUid)) {
        PcscEvent::Error { message } => assert_eq!(message, "Card returned an empty UID"),
        other => panic!("unexpected event {:?}", other),
    }
    assert!(matches!(read_card_info(Ok(None)), PcscEvent::CardInfoUpdated { card: None }));
    match read_card_info(Err(PcscError::InvalidApduResponse)) {
        PcscEvent::Error { message } => assert_eq!(message, "Invalid APDU response"),
        other => panic!("unexpected event {:?}", other),
    }
}
