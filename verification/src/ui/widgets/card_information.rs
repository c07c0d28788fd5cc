use vstd::prelude::*;

use crate::text::{decimal, lemma_decimal_not_empty, push_decimal, push_str, string_of};

verus! {

/// What the card information group shows: one line per property, and whether the
/// buttons that copy the UID and the ATR can be pressed.
#[derive(Debug, Clone, PartialEq, Eq)]
pub struct CardInformationView {
    pub uid: String,
    pub atr: String,
    pub card_type: String,
    pub capacity: String,
    pub copy_uid_enabled: bool,
    pub copy_atr_enabled: bool,
}

/// The line for an optional property: its text, or a dash.
pub open spec fn or_dash(value: Option<Seq<char>>) -> Seq<char> {
    match value {
        Some(t) => t,
        None => "-"@,
    }
}

/// The line for an optional capacity in bytes.
pub open spec fn capacity_line(bytes: Option<u32>) -> Seq<char> {
    match bytes {
        Some(b) => decimal(b as nat) + " bytes"@,
        None => "-"@,
    }
}

/// The view of a str, where there is one.
pub open spec fn opt_view(s: Option<&str>) -> Option<Seq<char>> {
    match s {
        Some(t) => Some(t@),
        None => None,
    }
}

impl CardInformationView {
    /// The group when no card is shown: dashes, and no copying.
    pub open spec fn is_cleared(&self) -> bool {
        &&& self.uid@ == "-"@
        &&& self.atr@ == "-"@
        &&& self.card_type@ == "-"@
        &&& self.capacity@ == "-"@
        &&& !self.copy_uid_enabled
        &&& !self.copy_atr_enabled
    }

    /// The group when no card is shown.
    pub fn clear() -> (r: Self)
        ensures
            r.is_cleared(),
    {
        CardInformationView {
            uid: string_of("-"),
            atr: string_of("-"),
            card_type: string_of("-"),
            capacity: string_of("-"),
            copy_uid_enabled: false,
            copy_atr_enabled: false,
        }
    }

    /// The group for a card: each property that is known, a dash for the others; a value
    /// can be copied where it is known.
    pub fn set_card_info(
        uid: Option<&str>,
        atr: Option<&str>,
        card_type: Option<&str>,
        capacity_bytes: Option<u32>,
    ) -> (r: Self)
        ensures
            r.uid@ == or_dash(opt_view(uid)),
            r.atr@ == or_dash(opt_view(atr)),
            r.card_type@ == or_dash(opt_view(card_type)),
            r.capacity@ == capacity_line(capacity_bytes),
            r.copy_uid_enabled == uid.is_some(),
            r.copy_atr_enabled == atr.is_some(),
    {
        let uid_line = match uid {
            Some(t) => string_of(t),
            None => string_of("-"),
        };
        let atr_line = match atr {
            Some(t) => string_of(t),
            None => string_of("-"),
        };
        let type_line = match card_type {
            Some(t) => string_of(t),
            None => string_of("-"),
        };
        let capacity = match capacity_bytes {
            Some(b) => {
                let mut s = String::new();
                push_decimal(&mut s, b as u64);
                push_str(&mut s, " bytes");
                assert(s@ =~= decimal(b as nat) + " bytes"@);
                s
            },
            None => string_of("-"),
        };
        CardInformationView {
            uid: uid_line,
            atr: atr_line,
            card_type: type_line,
            capacity,
            copy_uid_enabled: uid.is_some(),
            copy_atr_enabled: atr.is_some(),
        }
    }

    /// Whether the ATR shown can be copied: it is not the dash of an unknown ATR.
    pub fn atr_copy_enabled(atr_text: &str) -> (r: bool)
        ensures
            r == (atr_text@ != "-"@),
    {
        let shown = string_of(atr_text);
        let dash = string_of("-");
        !(shown == dash)
    }
}

/// An unknown capacity shows the dash, as the cleared group does, and never a byte count:
/// no known capacity gives the same line.
pub proof fn lemma_unknown_capacity_is_dash(view: CardInformationView, bytes: u32)
    ensures
        capacity_line(None) == "-"@,
        view.is_cleared() ==> view.capacity@ == capacity_line(None),
        capacity_line(Some(bytes)) != capacity_line(None),
{
    reveal_strlit("-");
    reveal_strlit(" bytes");
    lemma_decimal_not_empty(bytes as nat);
    assert(capacity_line(Some(bytes)).len() >= 7);
}

} // verus!
