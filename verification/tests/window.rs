use hexly::backend::nfc::messages::{NfcCommand, NfcEvent};
use hexly::backend::nfc::types::NfcWorkerState;
use hexly::backend::state::app_state::AppState;
use hexly::backend::state::types::{Card, CardType, Reader, ReaderId, ReaderStatus};
use hexly::ui::widgets::card_information::CardInformationView;
use hexly::ui::window::{
    append_event_log, apply_reading, apply_readers, handle_nfc_event, on_read_card_requested,
    on_reader_selected, render, selected_index, ContentsView, SelectorView, WindowAction,
};

fn reader(name: &str) -> Reader {
    Reader { id: ReaderId(name.to_string()), label: format!("{name} label") }
}

fn id(name: &str) -> ReaderId {
    ReaderId(name.to_string())
}

fn available(selected: Option<&str>, status: ReaderStatus) -> AppState {
    AppState::ReadersAvailable {
        readers: vec![reader("A"), reader("B")],
        selected_reader: selected.map(id),
        reader_status: status,
    }
}

#[test]
fn default_state_has_no_readers() {
    assert_eq!(AppState::default(), AppState::NoReaders);
}

#[test]
fn apply_readers_selects_the_first() {
    assert_eq!(apply_readers(vec![reader("A"), reader("B")]), available(Some("A"), ReaderStatus::Ready));
    assert_eq!(apply_readers(Vec::new()), AppState::NoReaders);
}

#[test]
fn apply_reading_marks_selected_reader_busy() {
    let state = apply_reading(available(Some("A"), ReaderStatus::Ready), &id("A"));
    assert_eq!(state, available(Some("A"), ReaderStatus::Working));
    let again = apply_reading(state.clone(), &id("A"));
    assert_eq!(again, state);
}

#[test]
fn apply_reading_elsewhere_changes_nothing() {
    let state = available(Some("A"), ReaderStatus::Ready);
    assert_eq!(apply_reading(state.clone(), &id("B")), state);
    let none = available(None, ReaderStatus::Ready);
    assert_eq!(apply_reading(none.clone(), &id("A")), none);
    assert_eq!(apply_reading(AppState::NoReaders, &id("A")), AppState::NoReaders);
}

#[test]
fn selecting_another_reader_updates_and_logs() {
    let (state, line) = on_reader_selected(available(Some("A"), ReaderStatus::Ready), Some(1));
    assert_eq!(state, available(Some("B"), ReaderStatus::Ready));
    assert_eq!(line.as_deref(), Some("Selected reader: B label"));
}

#[test]
fn selecting_current_or_missing_reader_changes_nothing() {
    let state = available(Some("A"), ReaderStatus::Ready);
    assert_eq!(on_reader_selected(state.clone(), Some(0)), (state.clone(), None));
    assert_eq!(on_reader_selected(state.clone(), Some(5)), (state.clone(), None));
    assert_eq!(on_reader_selected(state.clone(), None), (state.clone(), None));
    assert_eq!(on_reader_selected(AppState::NoReaders, Some(0)), (AppState::NoReaders, None));
}

#[test]
fn selecting_with_card_present_keeps_card() {
    let card = Card { uid: None, atr: None, card_type: None, capacity_bytes: None, card_data: None };
    let state = AppState::CardPresent {
        readers: vec![reader("A"), reader("B")],
        selected_reader: id("A"),
        reader_status: ReaderStatus::Working,
        card: card.clone(),
    };
    let (next, line) = on_reader_selected(state, Some(1));
    assert_eq!(
        next,
        AppState::CardPresent {
            readers: vec![reader("A"), reader("B")],
            selected_reader: id("B"),
            reader_status: ReaderStatus::Working,
            card,
        }
    );
    assert_eq!(line.as_deref(), Some("Selected reader: B label"));
}

#[test]
fn read_request_targets_selected_reader() {
    assert_eq!(
        on_read_card_requested(&available(Some("B"), ReaderStatus::Ready)),
        Some(NfcCommand::ReadCard { reader_id: id("B") })
    );
    assert_eq!(on_read_card_requested(&available(None, ReaderStatus::Ready)), None);
    assert_eq!(on_read_card_requested(&AppState::NoReaders), None);
}

#[test]
fn events_update_state_or_log() {
    let (state, action) =
        handle_nfc_event(AppState::NoReaders, NfcEvent::StateChanged(NfcWorkerState::Running));
    assert_eq!(state, AppState::NoReaders);
    assert!(matches!(action, WindowAction::Log(ref l) if l == "NFC state: Running"));
    let (state, action) =
        handle_nfc_event(state, NfcEvent::ReadersChanged(vec![reader("A"), reader("B")]));
    assert_eq!(state, available(Some("A"), ReaderStatus::Ready));
    assert!(matches!(action, WindowAction::Render));
    let (state, action) = handle_nfc_event(state, NfcEvent::ReadStarted { reader_id: id("A") });
    assert_eq!(state, available(Some("A"), ReaderStatus::Working));
    assert!(matches!(action, WindowAction::Render));
    let (_, action) = handle_nfc_event(state, NfcEvent::Log("hello".to_string()));
    assert!(matches!(action, WindowAction::Log(ref l) if l == "hello"));
}

#[test]
fn selected_index_finds_first_match() {
    let readers = vec![reader("A"), reader("B"), reader("B")];
    assert_eq!(selected_index(&readers, Some(&id("B"))), Some(1));
    assert_eq!(selected_index(&readers, Some(&id("C"))), None);
    assert_eq!(selected_index(&readers, None), None);
}

#[test]
fn event_log_lines_are_stamped() {
    assert_eq!(append_event_log("", "12:00:00", "first"), "[12:00:00] first");
    assert_eq!(
        append_event_log("[12:00:00] first", "12:00:01", "second"),
        "[12:00:00] first\n[12:00:01] second"
    );
}

#[test]
fn render_without_readers_clears_everything() {
    let view = render(&AppState::NoReaders);
    assert_eq!(
        view.selector,
        SelectorView::Cleared {
            labels: Vec::new(),
            selected: None,
            reader_subtitle: "No reader detected".to_string(),
            status: "No reader".to_string(),
        }
    );
    assert_eq!(view.card_information, CardInformationView::clear());
    assert_eq!(view.contents, Some(ContentsView::NoReader));
}

#[test]
fn render_ready_reader_waits_for_card() {
    let view = render(&available(Some("B"), ReaderStatus::Ready));
    assert_eq!(
        view.selector,
        SelectorView::Listed {
            labels: vec!["A label".to_string(), "B label".to_string()],
            selected: Some(1),
            status: "Waiting for card".to_string(),
        }
    );
    assert_eq!(view.contents, Some(ContentsView::NoCard { reader_label: "B label".to_string() }));
    assert_eq!(view.card_information, CardInformationView::clear());
}

#[test]
fn render_busy_and_disconnected_readers() {
    let view = render(&available(Some("A"), ReaderStatus::Working));
    assert_eq!(view.contents, Some(ContentsView::Reading));
    let view = render(&available(None, ReaderStatus::Disconnected));
    assert_eq!(view.contents, Some(ContentsView::NoReader));
    match view.selector {
        SelectorView::Listed { selected, status, .. } => {
            assert_eq!(selected, None);
            assert_eq!(status, "No reader");
        }
        SelectorView::Cleared { .. } => panic!("readers should be listed"),
    }
    let view = render(&available(None, ReaderStatus::Ready));
    assert_eq!(view.contents, Some(ContentsView::NoCard { reader_label: String::new() }));
}

#[test]
fn render_card_shows_its_properties() {
    let state = AppState::CardPresent {
        readers: vec![reader("A")],
        selected_reader: id("A"),
        reader_status: ReaderStatus::Working,
        card: Card {
            uid: Some("04 A1 B2 C3".to_string()),
            atr: None,
            card_type: Some(CardType::Unknown("Custom".to_string())),
            capacity_bytes: Some(1024),
            card_data: None,
        },
    };
    let view = render(&state);
    assert_eq!(view.contents, None);
    let info = view.card_information;
    assert_eq!(info.uid, "04 A1 B2 C3");
    assert_eq!(info.atr, "-");
    assert_eq!(info.card_type, "Custom");
    assert_eq!(info.capacity, "1024 bytes");
    assert!(info.copy_uid_enabled);
    assert!(!info.copy_atr_enabled);
    match view.selector {
        SelectorView::Listed { selected, status, .. } => {
            assert_eq!(selected, Some(0));
            assert_eq!(status, "Card detected");
        }
        SelectorView::Cleared { .. } => panic!("readers should be listed"),
    }
}

#[test]
fn selected_reader_stays_listed_through_events() {
    let mut state = AppState::default();
    let events = vec![
        NfcEvent::StateChanged(NfcWorkerState::Running),
        NfcEvent::ReadersChanged(vec![reader("A"), reader("B"), reader("C")]),
        NfcEvent::ReadStarted { reader_id: id("Z") },
        NfcEvent::ReadStarted { reader_id: id("A") },
    ];
    for event in events {
        state = handle_nfc_event(state, event).0;
        if let AppState::ReadersAvailable { readers, selected_reader: Some(sel), .. } = &state {
            assert!(selected_index(readers, Some(sel)).is_some());
        }
    }
    for pick in [Some(2), Some(9), None, Some(0)] {
        state = on_reader_selected(state, pick).0;
        if let AppState::ReadersAvailable { readers, selected_reader: Some(sel), .. } = &state {
            assert!(selected_index(readers, Some(sel)).is_some());
        }
    }
    assert_eq!(
        state,
        AppState::ReadersAvailable {
            readers: vec![reader("A"), reader("B"), reader("C")],
            selected_reader: Some(id("A")),
            reader_status: ReaderStatus::Working,
        }
    );
}
