use vstd::prelude::*;

use crate::backend::nfc::messages::{NfcCommand, NfcEvent};
use crate::backend::state::app_state::AppState;
use crate::backend::state::types::{Card, Reader, ReaderId, ReaderStatus};
use crate::ui::formatters::{card_type_text, format_card_type, format_reader_status, reader_status_text};
use crate::ui::widgets::card_information::{capacity_line, or_dash, CardInformationView};
use crate::text::{push_str, string_of};

verus! {

/// What the window does after an event: draw its state again, or add a line to its log.
#[derive(Debug)]
pub enum WindowAction {
    Render,
    Log(String),
}

/// What the reader selector shows: an empty list with no selection and the texts that say
/// there is no reader, or the readers with the selected one and the status line.
#[derive(Debug, Clone, PartialEq, Eq)]
pub enum SelectorView {
    Cleared { labels: Vec<String>, selected: Option<u32>, reader_subtitle: String, status: String },
    Listed { labels: Vec<String>, selected: Option<u32>, status: String },
}

/// The page that the card contents panel shows.
#[derive(Debug, Clone, PartialEq, Eq)]
pub enum ContentsView {
    NoReader,
    NoCard { reader_label: String },
    Reading,
}

/// What the window shows for a state; the contents panel is left as it is where
/// `contents` is `None`.
#[derive(Debug, Clone, PartialEq, Eq)]
pub struct WindowView {
    pub selector: SelectorView,
    pub card_information: CardInformationView,
    pub contents: Option<ContentsView>,
}

/// The first position at or after `i` of a reader with the identifier `id`.
pub open spec fn position_from(readers: Seq<Reader>, id: Seq<char>, i: int) -> Option<int>
    decreases readers.len() - i,
{
    if i < 0 || i >= readers.len() {
        None
    } else if readers[i].id@ == id {
        Some(i)
    } else {
        position_from(readers, id, i + 1)
    }
}

/// The first position of a reader with the identifier `id`.
pub open spec fn position_of(readers: Seq<Reader>, id: Seq<char>) -> Option<int> {
    position_from(readers, id, 0)
}

/// The identifier, by its view, where there is one.
pub open spec fn id_view(id: Option<ReaderId>) -> Option<Seq<char>> {
    match id {
        Some(x) => Some(x@),
        None => None,
    }
}

/// The text, by its view, where there is one.
pub open spec fn string_view(s: Option<String>) -> Option<Seq<char>> {
    match s {
        Some(x) => Some(x@),
        None => None,
    }
}

/// The readers that a state knows.
pub open spec fn reader_list(s: AppState) -> Seq<Reader> {
    match s {
        AppState::NoReaders => Seq::empty(),
        AppState::ReadersAvailable { readers, .. } => readers@,
        AppState::CardPresent { readers, .. } => readers@,
    }
}

/// The state after the worker lists the readers: the first is selected and waits for a card.
pub open spec fn readers_applied(readers: Vec<Reader>) -> AppState {
    if readers@.len() == 0 {
        AppState::NoReaders
    } else {
        AppState::ReadersAvailable {
            readers,
            selected_reader: Some(readers@[0].id),
            reader_status: ReaderStatus::Ready,
        }
    }
}

/// The state after the worker starts reading from a reader: busy where it is the selected one.
pub open spec fn reading_applied(s: AppState, id: Seq<char>) -> AppState {
    match s {
        AppState::ReadersAvailable { readers, selected_reader: Some(sel), reader_status } => if sel@
            == id {
            AppState::ReadersAvailable {
                readers,
                selected_reader: Some(sel),
                reader_status: ReaderStatus::Working,
            }
        } else {
            s
        },
        _ => s,
    }
}

/// The position of the reader that a selection picks, where it changes anything: a position
/// among the readers whose reader is not already the selected one.
pub open spec fn selection_target(s: AppState, selected: Option<u32>) -> Option<int> {
    match selected {
        None => None,
        Some(v) => {
            let i: int = v as int;
            match s {
                AppState::NoReaders => None,
                AppState::ReadersAvailable { readers, selected_reader, .. } => if i < readers@.len()
                    && !(selected_reader matches Some(x) && x@ == readers@[i].id@) {
                    Some(i)
                } else {
                    None
                },
                AppState::CardPresent { readers, selected_reader, .. } => if i < readers@.len()
                    && selected_reader@ != readers@[i].id@ {
                    Some(i)
                } else {
                    None
                },
            }
        },
    }
}

/// The state after the user picks a position in the reader list.
pub open spec fn reader_selected(s: AppState, selected: Option<u32>) -> AppState {
    match selection_target(s, selected) {
        None => s,
        Some(i) => match s {
            AppState::ReadersAvailable { readers, reader_status, .. } => AppState::ReadersAvailable {
                readers,
                selected_reader: Some(readers@[i].id),
                reader_status,
            },
            AppState::CardPresent { readers, reader_status, card, .. } => AppState::CardPresent {
                readers,
                selected_reader: readers@[i].id,
                reader_status,
                card,
            },
            AppState::NoReaders => s,
        },
    }
}

/// The state after an event of the NFC worker.
pub open spec fn state_after_event(s: AppState, event: NfcEvent) -> AppState {
    match event {
        NfcEvent::ReadersChanged(readers) => readers_applied(readers),
        NfcEvent::ReadStarted { reader_id } => reading_applied(s, reader_id@),
        _ => s,
    }
}

/// The states that the window can be in: readers are listed whenever any state has them, and
/// the selected reader is always one of them.
pub open spec fn well_formed(s: AppState) -> bool {
    match s {
        AppState::NoReaders => true,
        AppState::ReadersAvailable { readers, selected_reader, .. } => readers@.len() > 0 && (
        selected_reader matches Some(id) ==> position_of(readers@, id@) is Some),
        AppState::CardPresent { readers, selected_reader, .. } => position_of(
            readers@,
            selected_reader@,
        ) is Some,
    }
}

/// The selector lists the readers' labels, the position of the selected reader, and the status.
pub open spec fn lists_readers(
    view: SelectorView,
    readers: Seq<Reader>,
    selected: Option<Seq<char>>,
    status: ReaderStatus,
) -> bool {
    match view {
        SelectorView::Cleared { .. } => false,
        SelectorView::Listed { labels, selected: position, status: text } => {
            &&& labels@.len() == readers.len()
            &&& forall|i: int| 0 <= i < readers.len() ==> #[trigger] labels@[i] == readers[i].label
            &&& position == match selected {
                None => None,
                Some(id) => match position_of(readers, id) {
                    Some(k) => Some(k as u32),
                    None => None,
                },
            }
            &&& text@ == reader_status_text(status)
        },
    }
}

/// The label of the selected reader, or nothing where no listed reader is selected.
pub open spec fn selected_label(readers: Seq<Reader>, selected: Option<Seq<char>>) -> Seq<char> {
    match selected {
        Some(id) => match position_of(readers, id) {
            Some(k) => readers[k].label@,
            None => ""@,
        },
        None => ""@,
    }
}

/// The card information group shows the card.
pub open spec fn shows_card(view: CardInformationView, card: Card) -> bool {
    &&& view.uid@ == or_dash(string_view(card.uid))
    &&& view.atr@ == or_dash(string_view(card.atr))
    &&& view.card_type@ == or_dash(card_type_text(card.card_type))
    &&& view.capacity@ == capacity_line(card.capacity_bytes)
    &&& view.copy_uid_enabled == card.uid.is_some()
    &&& view.copy_atr_enabled == card.atr.is_some()
}

/// What the window shows for a state.
pub open spec fn shows(s: AppState, view: WindowView) -> bool {
    match s {
        AppState::NoReaders => {
            &&& view.selector matches SelectorView::Cleared {
                labels,
                selected,
                reader_subtitle,
                status,
            }
            &&& labels@.len() == 0
            &&& selected is None
            &&& reader_subtitle@ == "No reader detected"@
            &&& status@ == "No reader"@
            &&& view.card_information.is_cleared()
            &&& view.contents == Some(ContentsView::NoReader)
        },
        AppState::ReadersAvailable { readers, selected_reader, reader_status } => {
            &&& lists_readers(view.selector, readers@, id_view(selected_reader), reader_status)
            &&& view.card_information.is_cleared()
            &&& match reader_status {
                ReaderStatus::Ready => view.contents matches Some(
                    ContentsView::NoCard { reader_label },
                ) && reader_label@ == selected_label(readers@, id_view(selected_reader)),
                ReaderStatus::Working => view.contents == Some(ContentsView::Reading),
                ReaderStatus::Disconnected => view.contents == Some(ContentsView::NoReader),
            }
        },
        AppState::CardPresent { readers, selected_reader, reader_status, card } => {
            &&& lists_readers(view.selector, readers@, Some(selected_reader@), reader_status)
            &&& shows_card(view.card_information, card)
            &&& view.contents is None
        },
    }
}

/// What a position found by `position_from` is.
pub proof fn lemma_position_from(readers: Seq<Reader>, id: Seq<char>, i: int)
    requires
        0 <= i,
    ensures
        match position_from(readers, id, i) {
            Some(k) => i <= k < readers.len() && readers[k].id@ == id && forall|j: int|
                i <= j < k ==> #[trigger] readers[j].id@ != id,
            None => forall|j: int| i <= j < readers.len() ==> #[trigger] readers[j].id@ != id,
        },
    decreases readers.len() - i,
{
    if i < readers.len() && readers[i].id@ != id {
        lemma_position_from(readers, id, i + 1);
    }
}

/// The position of the first reader with the selected identifier.
pub fn selected_index(readers: &[Reader], selected: Option<&ReaderId>) -> (r: Option<usize>)
    ensures
        match selected {
            None => r is None,
            Some(id) => {
                &&& (r is None <==> position_of(readers@, id@) is None)
                &&& (r matches Some(k) ==> position_of(readers@, id@) == Some(k as int))
            },
        },
{
    let id = match selected {
        None => {
            return None;
        },
        Some(id) => id,
    };
    let mut i: usize = 0;
    while i < readers.len()
        invariant
            selected == Some(id),
            i <= readers@.len(),
            position_of(readers@, id@) == position_from(readers@, id@, i as int),
        decreases readers@.len() - i,
    {
        if readers[i].id.same_as(id) {
            assert(position_from(readers@, id@, i as int) == Some(i as int));
            return Some(i);
        }
        i += 1;
    }
    None
}

/// The state after the worker lists the readers.
pub fn apply_readers(readers: Vec<Reader>) -> (r: AppState)
    ensures
        r == readers_applied(readers),
{
    if readers.len() > 0 {
        let selected = readers[0].id.clone_id();
        AppState::ReadersAvailable {
            readers,
            selected_reader: Some(selected),
            reader_status: ReaderStatus::Ready,
        }
    } else {
        AppState::NoReaders
    }
}

/// The state after the worker starts reading from a reader.
pub fn apply_reading(state: AppState, reader_id: &ReaderId) -> (r: AppState)
    ensures
        r == reading_applied(state, reader_id@),
{
    match state {
        AppState::ReadersAvailable { readers, selected_reader: Some(selected), reader_status } => {
            if selected.same_as(reader_id) {
                AppState::ReadersAvailable {
                    readers,
                    selected_reader: Some(selected),
                    reader_status: ReaderStatus::Working,
                }
            } else {
                AppState::ReadersAvailable {
                    readers,
                    selected_reader: Some(selected),
                    reader_status,
                }
            }
        },
        other => other,
    }
}

/// The log line that reports a selected reader.
fn selected_reader_line(label: &String) -> (r: String)
    ensures
        r@ == "Selected reader: "@ + label@,
{
    let mut s = String::new();
    push_str(&mut s, "Selected reader: ");
    push_str(&mut s, label.as_str());
    s
}

/// The state after the user picks a position in the reader list, and the log line that
/// reports it; where the pick changes nothing, the state as it was and no line.
pub fn on_reader_selected(state: AppState, selected: Option<u32>) -> (r: (AppState, Option<String>))
    ensures
        r.0 == reader_selected(state, selected),
        r.1 is Some == selection_target(state, selected) is Some,
        match selection_target(state, selected) {
            Some(i) => r.1 matches Some(line) && line@ == "Selected reader: "@ + reader_list(
                state,
            )[i].label@,
            None => true,
        },
{
    let index: usize = match selected {
        None => {
            return (state, None);
        },
        Some(v) => v as usize,
    };
    match state {
        AppState::NoReaders => (AppState::NoReaders, None),
        AppState::ReadersAvailable { readers, selected_reader, reader_status } => {
            if index >= readers.len() {
                return (AppState::ReadersAvailable { readers, selected_reader, reader_status }, None);
            }
            let already = match &selected_reader {
                Some(current) => current.same_as(&readers[index].id),
                None => false,
            };
            if already {
                return (AppState::ReadersAvailable { readers, selected_reader, reader_status }, None);
            }
            let id = readers[index].id.clone_id();
            let line = selected_reader_line(&readers[index].label);
            (
                AppState::ReadersAvailable { readers, selected_reader: Some(id), reader_status },
                Some(line),
            )
        },
        AppState::CardPresent { readers, selected_reader, reader_status, card } => {
            if index >= readers.len() || selected_reader.same_as(&readers[index].id) {
                return (AppState::CardPresent { readers, selected_reader, reader_status, card }, None);
            }
            let id = readers[index].id.clone_id();
            let line = selected_reader_line(&readers[index].label);
            (
                AppState::CardPresent { readers, selected_reader: id, reader_status, card },
                Some(line),
            )
        },
    }
}

/// The command that asks the worker to read the card in the selected reader, where a reader
/// is selected and no card is shown yet.
pub fn on_read_card_requested(state: &AppState) -> (r: Option<NfcCommand>)
    ensures
        match *state {
            AppState::ReadersAvailable { selected_reader: Some(id), .. } => r == Some(
                NfcCommand::ReadCard { reader_id: id },
            ),
            _ => r is None,
        },
{
    match state {
        AppState::ReadersAvailable { selected_reader: Some(id), .. } => Some(
            NfcCommand::ReadCard { reader_id: id.clone_id() },
        ),
        _ => None,
    }
}

/// The log line that reports the state of the worker.
fn worker_state_line(state: crate::backend::nfc::types::NfcWorkerState) -> (r: String)
    ensures
        r@ == "NFC state: "@ + state.name(),
{
    let mut s = String::new();
    push_str(&mut s, "NFC state: ");
    match state {
        crate::backend::nfc::types::NfcWorkerState::Running => push_str(&mut s, "Running"),
        crate::backend::nfc::types::NfcWorkerState::Stopped => push_str(&mut s, "Stopped"),
    }
    s
}

/// Takes an event of the NFC worker: the new state, and whether to draw it or to log a line.
pub fn handle_nfc_event(state: AppState, event: NfcEvent) -> (r: (AppState, WindowAction))
    ensures
        r.0 == state_after_event(state, event),
        match event {
            NfcEvent::StateChanged(ws) => r.1 matches WindowAction::Log(line) && line@
                == "NFC state: "@ + ws.name(),
            NfcEvent::ReadersChanged(_) => r.1 is Render,
            NfcEvent::ReadStarted { .. } => r.1 is Render,
            NfcEvent::Log(message) => r.1 == WindowAction::Log(message),
        },
{
    match event {
        NfcEvent::StateChanged(ws) => (state, WindowAction::Log(worker_state_line(ws))),
        NfcEvent::ReadersChanged(readers) => (apply_readers(readers), WindowAction::Render),
        NfcEvent::ReadStarted { reader_id } => (
            apply_reading(state, &reader_id),
            WindowAction::Render,
        ),
        NfcEvent::Log(message) => (state, WindowAction::Log(message)),
    }
}

/// The event log after a new line: the line with its time in brackets, on a line of its own
/// below the lines that were there.
pub fn append_event_log(existing: &str, timestamp: &str, line: &str) -> (r: String)
    ensures
        r@ == if existing@.len() == 0 {
            "["@ + timestamp@ + "] "@ + line@
        } else {
            existing@ + "\n"@ + "["@ + timestamp@ + "] "@ + line@
        },
{
    let mut s = String::new();
    if !existing.is_empty() {
        push_str(&mut s, existing);
        push_str(&mut s, "\n");
    }
    push_str(&mut s, "[");
    push_str(&mut s, timestamp);
    push_str(&mut s, "] ");
    push_str(&mut s, line);
    assert(s@ =~= if existing@.len() == 0 {
        "["@ + timestamp@ + "] "@ + line@
    } else {
        existing@ + "\n"@ + "["@ + timestamp@ + "] "@ + line@
    });
    s
}

/// The labels of the readers, in order.
fn reader_labels(readers: &Vec<Reader>) -> (r: Vec<String>)
    ensures
        r@.len() == readers@.len(),
        forall|i: int| 0 <= i < readers@.len() ==> #[trigger] r@[i] == readers@[i].label,
{
    let mut labels: Vec<String> = Vec::new();
    let mut i: usize = 0;
    while i < readers.len()
        invariant
            i <= readers@.len(),
            labels@.len() == i,
            forall|j: int| 0 <= j < i ==> #[trigger] labels@[j] == readers@[j].label,
        decreases readers@.len() - i,
    {
        labels.push(readers[i].label.clone());
        i += 1;
    }
    labels
}

/// The selector for a list of readers.
fn listed_selector(
    readers: &Vec<Reader>,
    selected: Option<&ReaderId>,
    status: &ReaderStatus,
) -> (r: SelectorView)
    ensures
        lists_readers(
            r,
            readers@,
            match selected {
                Some(id) => Some(id@),
                None => None,
            },
            *status,
        ),
{
    proof {
        if let Some(id) = selected {
            lemma_position_from(readers@, id@, 0);
        }
    }
    let labels = reader_labels(readers);
    let position = match selected_index(readers.as_slice(), selected) {
        Some(k) => Some(k as u32),
        None => None,
    };
    SelectorView::Listed { labels, selected: position, status: string_of(format_reader_status(status)) }
}

/// What the window shows for a state.
pub fn render(state: &AppState) -> (r: WindowView)
    ensures
        shows(*state, r),
{
    match state {
        AppState::NoReaders => WindowView {
            selector: SelectorView::Cleared {
                labels: Vec::new(),
                selected: None,
                reader_subtitle: string_of("No reader detected"),
                status: string_of("No reader"),
            },
            card_information: CardInformationView::clear(),
            contents: Some(ContentsView::NoReader),
        },
        AppState::ReadersAvailable { readers, selected_reader, reader_status } => {
            let selected = match selected_reader {
                Some(id) => Some(id),
                None => None,
            };
            proof {
                if let Some(id) = selected {
                    lemma_position_from(readers@, id@, 0);
                }
            }
            let selector = listed_selector(readers, selected, reader_status);
            let contents = match reader_status {
                ReaderStatus::Ready => {
                    let reader_label = match selected_index(readers.as_slice(), selected) {
                        Some(k) => readers[k].label.clone(),
                        None => string_of(""),
                    };
                    ContentsView::NoCard { reader_label }
                },
                ReaderStatus::Working => ContentsView::Reading,
                ReaderStatus::Disconnected => ContentsView::NoReader,
            };
            WindowView {
                selector,
                card_information: CardInformationView::clear(),
                contents: Some(contents),
            }
        },
        AppState::CardPresent { readers, selected_reader, reader_status, card } => {
            let selector = listed_selector(readers, Some(selected_reader), reader_status);
            let uid = match &card.uid {
                Some(u) => Some(u.as_str()),
                None => None,
            };
            let atr = match &card.atr {
                Some(a) => Some(a.as_str()),
                None => None,
            };
            let card_type = match &card.card_type {
                Some(t) => format_card_type(Some(t)),
                None => None,
            };
            let card_information = CardInformationView::set_card_info(
                uid,
                atr,
                card_type,
                card.capacity_bytes,
            );
            WindowView { selector, card_information, contents: None }
        },
    }
}

/// The identifier of the selected reader, where one is selected.
pub open spec fn selected_id(s: AppState) -> Option<Seq<char>> {
    match s {
        AppState::NoReaders => None,
        AppState::ReadersAvailable { selected_reader, .. } => id_view(selected_reader),
        AppState::CardPresent { selected_reader, .. } => Some(selected_reader@),
    }
}

/// Listing readers leads to a well-formed state.
pub proof fn lemma_readers_applied_well_formed(readers: Vec<Reader>)
    ensures
        well_formed(readers_applied(readers)),
{
    if readers@.len() > 0 {
        assert(position_from(readers@, readers@[0].id@, 0) == Some(0int));
    }
}

/// Starting a read keeps the state well-formed.
pub proof fn lemma_reading_keeps_well_formed(s: AppState, id: Seq<char>)
    requires
        well_formed(s),
    ensures
        well_formed(reading_applied(s, id)),
{
}

/// Picking a reader keeps the state well-formed.
pub proof fn lemma_selection_keeps_well_formed(s: AppState, selected: Option<u32>)
    requires
        well_formed(s),
    ensures
        well_formed(reader_selected(s, selected)),
{
    if let Some(i) = selection_target(s, selected) {
        let readers = reader_list(s);
        lemma_position_from(readers, readers[i].id@, 0);
    }
}

/// Every event of the NFC worker keeps the state well-formed.
pub proof fn lemma_event_keeps_well_formed(s: AppState, event: NfcEvent)
    requires
        well_formed(s),
    ensures
        well_formed(state_after_event(s, event)),
{
    match event {
        NfcEvent::ReadersChanged(readers) => lemma_readers_applied_well_formed(readers),
        NfcEvent::ReadStarted { reader_id } => lemma_reading_keeps_well_formed(s, reader_id@),
        _ => {},
    }
}

/// Picking the reader that is already selected changes nothing and logs nothing.
pub proof fn lemma_reselecting_changes_nothing(s: AppState, i: u32)
    requires
        (i as int) < reader_list(s).len(),
        selected_id(s) == Some(reader_list(s)[i as int].id@),
    ensures
        selection_target(s, Some(i)) is None,
        reader_selected(s, Some(i)) == s,
{
}

/// After picking a reader whose identifier no earlier reader shares, that reader is the one
/// selected, at the position that was picked.
pub proof fn lemma_selection_is_shown(s: AppState, i: u32)
    requires
        selection_target(s, Some(i)) is Some,
        forall|j: int|
            0 <= j < i ==> #[trigger] reader_list(s)[j].id@ != reader_list(s)[i as int].id@,
    ensures
        reader_list(reader_selected(s, Some(i))) == reader_list(s),
        selected_id(reader_selected(s, Some(i))) == Some(reader_list(s)[i as int].id@),
        position_of(reader_list(s), reader_list(s)[i as int].id@) == Some(i as int),
{
    let readers = reader_list(s);
    lemma_position_from(readers, readers[i as int].id@, 0);
}

/// Starting the same read twice changes no more than starting it once.
pub proof fn lemma_reading_idempotent(s: AppState, id: Seq<char>)
    ensures
        reading_applied(reading_applied(s, id), id) == reading_applied(s, id),
{
}

/// A read that starts on a reader other than the selected one changes nothing.
pub proof fn lemma_reading_elsewhere_changes_nothing(s: AppState, id: Seq<char>)
    requires
        selected_id(s) != Some(id),
    ensures
        reading_applied(s, id) == s,
{
}

/// In a well-formed state with a selected reader, the window marks a listed reader as selected.
pub proof fn lemma_shown_selection_is_listed(s: AppState, view: WindowView)
    requires
        well_formed(s),
        shows(s, view),
        selected_id(s) is Some,
    ensures
        view.selector matches SelectorView::Listed { selected, .. } && selected is Some,
{
}

/// Listing readers forgets what was shown before: no readers leave nothing to show, and
/// otherwise the first listed reader is selected and waits for a card.
pub proof fn lemma_listing_selects_first(readers: Vec<Reader>)
    ensures
        readers@.len() == 0 ==> readers_applied(readers) == AppState::NoReaders,
        readers@.len() > 0 ==> {
            &&& readers_applied(readers) matches AppState::ReadersAvailable { reader_status, .. }
                && reader_status == ReaderStatus::Ready
            &&& reader_list(readers_applied(readers)) == readers@
            &&& selected_id(readers_applied(readers)) == Some(readers@[0].id@)
        },
{
}

/// Picking a listed reader that is not the selected one selects it, keeps the list, and keeps
/// what the reader was doing.
pub proof fn lemma_picking_other_reader_selects_it(s: AppState, i: u32)
    requires
        (i as int) < reader_list(s).len(),
        selected_id(s) != Some(reader_list(s)[i as int].id@),
    ensures
        selection_target(s, Some(i)) == Some(i as int),
        reader_list(reader_selected(s, Some(i))) == reader_list(s),
        selected_id(reader_selected(s, Some(i))) == Some(reader_list(s)[i as int].id@),
        match (s, reader_selected(s, Some(i))) {
            (
                AppState::ReadersAvailable { reader_status: a, .. },
                AppState::ReadersAvailable { reader_status: b, .. },
            ) => a == b,
            (
                AppState::CardPresent { reader_status: a, card: c, .. },
                AppState::CardPresent { reader_status: b, card: d, .. },
            ) => a == b && c == d,
            _ => false,
        },
{
}

/// A read that starts on the selected reader marks it busy and keeps the list and the selection.
pub proof fn lemma_reading_selected_marks_busy(s: AppState, id: Seq<char>)
    requires
        s is ReadersAvailable,
        selected_id(s) == Some(id),
    ensures
        reading_applied(s, id) matches AppState::ReadersAvailable { reader_status, .. }
            && reader_status == ReaderStatus::Working,
        reader_list(reading_applied(s, id)) == reader_list(s),
        selected_id(reading_applied(s, id)) == Some(id),
{
}

} // verus!
