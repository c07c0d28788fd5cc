use vstd::prelude::*;

use crate::backend::pcsc::utils::{format_bytes, formatted_bytes, ByteFormat};
use crate::backend::state::types::{BlockDump, BlockKind, CardData, KeyType, SectorDump};
use crate::text::{decimal, push_decimal, push_str, string_of};

verus! {

/// A small label beside a row: its text and its style class.
#[derive(Debug, Clone, Copy, PartialEq, Eq)]
pub struct Badge {
    pub text: &'static str,
    pub css_class: &'static str,
}

/// What the row of a block adds to its plain look: a style class and a badge.
#[derive(Debug, Clone, Copy, PartialEq, Eq)]
pub struct BlockMarking {
    pub row_class: &'static str,
    pub badge: Badge,
}

/// The name of what a block holds.
pub open spec fn block_kind_text(kind: BlockKind) -> Seq<char> {
    match kind {
        BlockKind::Manufacturer => "Manufacturer"@,
        BlockKind::Data => "Data"@,
        BlockKind::Trailer => "Trailer"@,
    }
}

/// The title of a block's row: its number and what it holds.
pub open spec fn block_title_text(block: BlockDump) -> Seq<char> {
    "Block "@ + decimal(block.block_index as nat) + " \u{b7} "@ + block_kind_text(block.kind)
}

/// The subtitle of a block's row: its bytes in hexadecimal, or that they could not be read.
pub open spec fn block_subtitle_text(block: BlockDump) -> Seq<char> {
    match block.data {
        Some(bytes) => formatted_bytes(bytes@, ByteFormat::Hex),
        None => "Unreadable"@,
    }
}

/// The name of what a block holds.
pub fn block_kind_label(kind: &BlockKind) -> (r: &'static str)
    ensures
        r@ == block_kind_text(*kind),
{
    match kind {
        BlockKind::Manufacturer => "Manufacturer",
        BlockKind::Data => "Data",
        BlockKind::Trailer => "Trailer",
    }
}

/// The title of a sector's row.
pub fn sector_title(sector: &SectorDump) -> (r: String)
    ensures
        r@ == "Sector "@ + decimal(sector.sector_index as nat),
{
    let mut s = String::new();
    push_str(&mut s, "Sector ");
    push_decimal(&mut s, sector.sector_index as u64);
    s
}

/// Whether a sector's row starts expanded: only that of the first sector.
pub fn sector_starts_expanded(sector: &SectorDump) -> (r: bool)
    ensures
        r == (sector.sector_index == 0),
{
    sector.sector_index == 0
}

/// The badge says which key opened a sector, or that none did.
pub open spec fn auth_badge_for(key: Option<KeyType>, badge: Badge) -> bool {
    match key {
        Some(KeyType::A) => badge.text@ == "Auth: Key A"@ && badge.css_class@
            == "hexly-badge-auth-success"@,
        Some(KeyType::B) => badge.text@ == "Auth: Key B"@ && badge.css_class@
            == "hexly-badge-auth-success"@,
        None => badge.text@ == "Auth failed"@ && badge.css_class@ == "hexly-badge-auth-failed"@,
    }
}

/// The marking of a block's row: manufacturer and trailer blocks each get their own style
/// and badge; data blocks stay plain.
pub open spec fn marking_for(kind: BlockKind, marking: Option<BlockMarking>) -> bool {
    match kind {
        BlockKind::Manufacturer => marking matches Some(m) && m.row_class@
            == "hexly-row-manufacturer"@ && m.badge.text@ == "Manufacturer"@ && m.badge.css_class@
            == "hexly-badge-manufacturer"@,
        BlockKind::Trailer => marking matches Some(m) && m.row_class@ == "hexly-row-trailer"@
            && m.badge.text@ == "Trailer \u{b7} Keys"@ && m.badge.css_class@
            == "hexly-badge-trailer"@,
        BlockKind::Data => marking is None,
    }
}

/// The badge that says which key opened a sector, or that none did.
pub fn auth_badge(sector: &SectorDump) -> (r: Badge)
    ensures
        auth_badge_for(sector.authenticated_with, r),
{
    match sector.authenticated_with {
        Some(KeyType::A) => Badge { text: "Auth: Key A", css_class: "hexly-badge-auth-success" },
        Some(KeyType::B) => Badge { text: "Auth: Key B", css_class: "hexly-badge-auth-success" },
        None => Badge { text: "Auth failed", css_class: "hexly-badge-auth-failed" },
    }
}

/// The style classes of a badge's label: the class of all badges, then its own.
pub fn badge_classes(badge: &Badge) -> (r: Vec<&'static str>)
    ensures
        r@.len() == 2,
        r@[0]@ == "hexly-badge"@,
        r@[1] == badge.css_class,
{
    let mut classes: Vec<&'static str> = Vec::new();
    classes.push("hexly-badge");
    classes.push(badge.css_class);
    classes
}

/// The title of a block's row.
pub fn block_row_title(block: &BlockDump) -> (r: String)
    ensures
        r@ == block_title_text(*block),
{
    let mut s = String::new();
    push_str(&mut s, "Block ");
    push_decimal(&mut s, block.block_index as u64);
    push_str(&mut s, " \u{b7} ");
    push_str(&mut s, block_kind_label(&block.kind));
    s
}

/// The subtitle of a block's row.
pub fn block_row_subtitle(block: &BlockDump) -> (r: String)
    ensures
        r@ == block_subtitle_text(*block),
{
    match &block.data {
        Some(bytes) => format_bytes(bytes.as_slice(), ByteFormat::Hex),
        None => string_of("Unreadable"),
    }
}

/// How the row of a block is marked: manufacturer and trailer blocks get a style and a
/// badge; data blocks stay plain.
pub fn block_marking(kind: &BlockKind) -> (r: Option<BlockMarking>)
    ensures
        marking_for(*kind, r),
{
    match kind {
        BlockKind::Manufacturer => Some(
            BlockMarking {
                row_class: "hexly-row-manufacturer",
                badge: Badge { text: "Manufacturer", css_class: "hexly-badge-manufacturer" },
            },
        ),
        BlockKind::Trailer => Some(
            BlockMarking {
                row_class: "hexly-row-trailer",
                badge: Badge { text: "Trailer \u{b7} Keys", css_class: "hexly-badge-trailer" },
            },
        ),
        BlockKind::Data => None,
    }
}

/// Whether all sectors are expanded: there is at least one, and none is collapsed.
pub fn all_sectors_expanded(expanded: &[bool]) -> (r: bool)
    ensures
        r == (expanded@.len() > 0 && forall|i: int| 0 <= i < expanded@.len() ==> expanded@[i]),
{
    if expanded.len() == 0 {
        return false;
    }
    let mut i: usize = 0;
    while i < expanded.len()
        invariant
            i <= expanded@.len(),
            forall|j: int| 0 <= j < i ==> expanded@[j],
        decreases expanded@.len() - i,
    {
        if !expanded[i] {
            return false;
        }
        i += 1;
    }
    true
}

/// What the row of a block shows.
#[derive(Debug, Clone, PartialEq, Eq)]
pub struct BlockRowView {
    pub title: String,
    pub subtitle: String,
    pub css_classes: Vec<&'static str>,
    pub marking: Option<BlockMarking>,
}

/// What the expandable row of a sector shows.
#[derive(Debug, Clone, PartialEq, Eq)]
pub struct SectorView {
    pub title: String,
    pub expanded: bool,
    pub auth: Badge,
    pub blocks: Vec<BlockRowView>,
}

/// The row of a block shows its title, its bytes and its marking, and has the style classes
/// of all block rows, followed by that of its marking where it has one.
pub open spec fn shows_block(view: BlockRowView, block: BlockDump) -> bool {
    &&& view.title@ == block_title_text(block)
    &&& view.subtitle@ == block_subtitle_text(block)
    &&& marking_for(block.kind, view.marking)
    &&& view.css_classes@.len() >= 2
    &&& view.css_classes@[0]@ == "property"@
    &&& view.css_classes@[1]@ == "hexly-block-row"@
    &&& match view.marking {
        Some(m) => view.css_classes@.len() == 3 && view.css_classes@[2] == m.row_class,
        None => view.css_classes@.len() == 2,
    }
}

/// The row of a sector shows its title, the badge of the key that opened it, its blocks in
/// order, and starts expanded only for the first sector.
pub open spec fn shows_sector(view: SectorView, sector: SectorDump) -> bool {
    &&& view.title@ == "Sector "@ + decimal(sector.sector_index as nat)
    &&& view.expanded == (sector.sector_index == 0)
    &&& auth_badge_for(sector.authenticated_with, view.auth)
    &&& view.blocks@.len() == sector.blocks@.len()
    &&& forall|i: int|
        0 <= i < sector.blocks@.len() ==> #[trigger] shows_block(view.blocks@[i], sector.blocks@[i])
}

/// The row of one block.
pub fn block_row(block: &BlockDump) -> (r: BlockRowView)
    ensures
        shows_block(r, *block),
{
    let marking = block_marking(&block.kind);
    let mut css_classes: Vec<&'static str> = Vec::new();
    css_classes.push("property");
    css_classes.push("hexly-block-row");
    if let Some(m) = &marking {
        css_classes.push(m.row_class);
    }
    BlockRowView {
        title: block_row_title(block),
        subtitle: block_row_subtitle(block),
        css_classes,
        marking,
    }
}

/// The expandable row of one sector, with the rows of its blocks.
pub fn sector_row(sector: &SectorDump) -> (r: SectorView)
    ensures
        shows_sector(r, *sector),
{
    let mut blocks: Vec<BlockRowView> = Vec::new();
    let mut i: usize = 0;
    while i < sector.blocks.len()
        invariant
            i <= sector.blocks@.len(),
            blocks@.len() == i,
            forall|j: int| 0 <= j < i ==> #[trigger] shows_block(blocks@[j], sector.blocks@[j]),
        decreases sector.blocks@.len() - i,
    {
        blocks.push(block_row(&sector.blocks[i]));
        i += 1;
    }
    SectorView {
        title: sector_title(sector),
        expanded: sector_starts_expanded(sector),
        auth: auth_badge(sector),
        blocks,
    }
}

/// The rows of all sectors of a card, in order.
pub fn populate_sectors(data: &CardData) -> (r: Vec<SectorView>)
    ensures
        r@.len() == data.sectors@.len(),
        forall|i: int| 0 <= i < data.sectors@.len() ==> #[trigger] shows_sector(r@[i], data.sectors@[i]),
{
    let mut rows: Vec<SectorView> = Vec::new();
    let mut i: usize = 0;
    while i < data.sectors.len()
        invariant
            i <= data.sectors@.len(),
            rows@.len() == i,
            forall|j: int| 0 <= j < i ==> #[trigger] shows_sector(rows@[j], data.sectors@[j]),
        decreases data.sectors@.len() - i,
    {
        rows.push(sector_row(&data.sectors[i]));
        i += 1;
    }
    rows
}

} // verus!
