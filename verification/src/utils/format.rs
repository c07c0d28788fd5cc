use vstd::prelude::*;

use crate::backend::pcsc::types::{CardCapacity, CardKind};
use crate::text::{decimal, push_decimal, push_str, string_of};

verus! {

/// The name of a card family.
pub open spec fn card_kind_text(kind: CardKind) -> Seq<char> {
    match kind {
        CardKind::MifareClassic1K => "MIFARE Classic 1K"@,
        CardKind::MifareClassic4K => "MIFARE Classic 4K"@,
        CardKind::MifareUltralight => "MIFARE Ultralight"@,
        CardKind::Unknown => "Unknown"@,
    }
}

/// The text for a memory layout: the bytes, then the sectors and the blocks where they are
/// known, separated by a middle dot.
pub open spec fn capacity_text(c: CardCapacity) -> Seq<char> {
    decimal(c.bytes as nat) + " bytes"@ + (match c.sectors {
        Some(s) => " \u{b7} "@ + decimal(s as nat) + " sectors"@,
        None => Seq::empty(),
    }) + (match c.blocks {
        Some(b) => " \u{b7} "@ + decimal(b as nat) + " blocks"@,
        None => Seq::empty(),
    })
}

/// The name of a card family.
pub fn format_card_kind(kind: &CardKind) -> (r: String)
    ensures
        r@ == card_kind_text(*kind),
{
    match kind {
        CardKind::MifareClassic1K => string_of("MIFARE Classic 1K"),
        CardKind::MifareClassic4K => string_of("MIFARE Classic 4K"),
        CardKind::MifareUltralight => string_of("MIFARE Ultralight"),
        CardKind::Unknown => string_of("Unknown"),
    }
}

/// The text for a memory layout, or "Unknown" where there is none.
pub fn format_capacity(capacity: Option<&CardCapacity>) -> (r: String)
    ensures
        match capacity {
            Some(c) => r@ == capacity_text(*c),
            None => r@ == "Unknown"@,
        },
{
    match capacity {
        Some(capacity) => {
            let mut s = String::new();
            push_decimal(&mut s, capacity.bytes as u64);
            push_str(&mut s, " bytes");
            let ghost after_bytes = s@;
            if let Some(sectors) = capacity.sectors {
                push_str(&mut s, " \u{b7} ");
                push_decimal(&mut s, sectors as u64);
                push_str(&mut s, " sectors");
            }
            let ghost after_sectors = s@;
            if let Some(blocks) = capacity.blocks {
                push_str(&mut s, " \u{b7} ");
                push_decimal(&mut s, blocks as u64);
                push_str(&mut s, " blocks");
            }
            assert(s@ =~= capacity_text(*capacity));
            s
        },
        None => string_of("Unknown"),
    }
}

} // verus!
