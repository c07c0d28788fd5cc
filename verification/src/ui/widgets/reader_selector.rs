use vstd::prelude::*;

use crate::backend::pcsc::types::ReaderInfo;

verus! {

/// The position in a list that stands for "nothing selected".
pub open spec fn no_selection() -> u32 {
    u32::MAX
}

/// The list position of an optional selection.
pub fn list_position(selected: Option<u32>) -> (r: u32)
    ensures
        r == match selected {
            Some(i) => i,
            None => no_selection(),
        },
{
    match selected {
        Some(i) => i,
        None => u32::MAX,
    }
}

/// The selection at a list position: none at the position that stands for no selection.
pub fn selection_at(position: u32) -> (r: Option<u32>)
    ensures
        r == if position == no_selection() {
            None::<u32>
        } else {
            Some(position)
        },
{
    if position == u32::MAX {
        None
    } else {
        Some(position)
    }
}

/// The list holds exactly the given labels, in order; no list at all counts as an empty one.
pub open spec fn labels_match(model: Option<Seq<Option<String>>>, readers: Seq<String>) -> bool {
    match model {
        None => readers.len() == 0,
        Some(items) => items.len() == readers.len() && forall|i: int|
            0 <= i < items.len() ==> (#[trigger] items[i] matches Some(t) && t@ == readers[i]@),
    }
}

/// Whether the reader list holds exactly the given labels, where each item of the list
/// is its text, or nothing where it is not a text.
pub fn active_row_labels_match(model: Option<&Vec<Option<String>>>, readers: &Vec<String>) -> (r:
    bool)
    ensures
        r == labels_match(
            match model {
                Some(m) => Some(m@),
                None => None,
            },
            readers@,
        ),
{
    let items = match model {
        None => {
            return readers.len() == 0;
        },
        Some(items) => items,
    };
    if items.len() != readers.len() {
        return false;
    }
    let mut i: usize = 0;
    while i < items.len()
        invariant
            model == Some(items),
            items.len() == readers.len(),
            i <= items.len(),
            forall|j: int|
                0 <= j < i ==> (#[trigger] items@[j] matches Some(t) && t@ == readers@[j]@),
        decreases items.len() - i,
    {
        match &items[i] {
            None => {
                assert(!(items@[i as int] matches Some(t) && t@ == readers@[i as int]@));
                return false;
            },
            Some(t) => {
                if !(*t == readers[i]) {
                    assert(!(items@[i as int] matches Some(t) && t@ == readers@[i as int]@));
                    return false;
                }
            },
        }
        i += 1;
    }
    true
}

/// Whether the reader list must be replaced to show the given labels and selection: not
/// where it already shows them.
pub fn needs_new_model(
    current_position: u32,
    model: Option<&Vec<Option<String>>>,
    readers: &Vec<String>,
    selected: Option<u32>,
) -> (r: bool)
    ensures
        r == !(current_position == match selected {
            Some(i) => i,
            None => no_selection(),
        } && labels_match(
            match model {
                Some(m) => Some(m@),
                None => None,
            },
            readers@,
        )),
{
    let target: u32 = list_position(selected);
    if current_position == target && active_row_labels_match(model, readers) {
        false
    } else {
        true
    }
}

/// The labels for a reader list, or nothing to change where there are no readers.
pub fn reader_list_labels(readers: &Vec<ReaderInfo>) -> (r: Option<Vec<String>>)
    ensures
        r is None <==> readers@.len() == 0,
        r matches Some(labels) ==> labels@.len() == readers@.len() && forall|i: int|
            0 <= i < readers@.len() ==> #[trigger] labels@[i] == readers@[i].reader_name,
{
    if readers.len() == 0 {
        return None;
    }
    let mut labels: Vec<String> = Vec::new();
    let mut i: usize = 0;
    while i < readers.len()
        invariant
            i <= readers@.len(),
            labels@.len() == i,
            forall|j: int| 0 <= j < i ==> #[trigger] labels@[j] == readers@[j].reader_name,
        decreases readers@.len() - i,
    {
        labels.push(readers[i].reader_name.clone());
        i += 1;
    }
    Some(labels)
}

/// A list matches the labels only where each item's text is the label at its position: an
/// item that is no text, or whose text differs from its label, makes them differ.
pub proof fn lemma_match_means_same_texts(items: Seq<Option<String>>, readers: Seq<String>)
    requires
        labels_match(Some(items), readers),
    ensures
        items.len() == readers.len(),
        forall|i: int| 0 <= i < items.len() ==> (#[trigger] items[i] matches Some(t) && t@ == readers[i]@),
{
}

/// A list whose item at some position is not that position's label does not match, so the
/// list is replaced.
pub proof fn lemma_differing_item_forces_new_model(
    current_position: u32,
    items: Seq<Option<String>>,
    readers: Seq<String>,
    i: int,
)
    requires
        0 <= i < items.len(),
        i < readers.len(),
        !(items[i] matches Some(t) && t@ == readers[i]@),
    ensures
        !labels_match(Some(items), readers),
{
}

/// A list that holds exactly the labels, in order, matches them.
pub proof fn lemma_own_labels_match(readers: Seq<String>)
    ensures
        labels_match(Some(readers.map_values(|l: String| Some(l))), readers),
{
}

} // verus!
