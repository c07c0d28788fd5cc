use vstd::prelude::*;

verus! {

/// A card as the window shows it.
#[derive(Debug, Clone, PartialEq, Eq)]
pub struct Card {
    pub uid: Option<String>,
    pub atr: Option<String>,
    pub card_type: Option<CardType>,
    pub capacity_bytes: Option<u32>,
    pub card_data: Option<CardData>,
}

/// The card family as the window names it.
#[derive(Debug, Clone, PartialEq, Eq)]
pub enum CardType {
    MifareClassic1K,
    MifareClassic4K,
    Unknown(String),
}

/// The memory of a card, sector by sector.
#[derive(Debug, Clone, PartialEq, Eq)]
pub struct CardData {
    pub total_sectors: u32,
    pub total_blocks: u32,
    pub readable_sectors: u32,
    pub protected_sectors: u32,
    pub key_a_known: u32,
    pub key_b_known: u32,
    pub sectors: Vec<SectorDump>,
}

/// One sector of a card: its blocks and the key that opened it, if any did.
#[derive(Debug, Clone, PartialEq, Eq)]
pub struct SectorDump {
    pub sector_index: u32,
    pub first_block_index: u32,
    pub authenticated_with: Option<KeyType>,
    pub blocks: Vec<BlockDump>,
}

/// One block of a sector: its sixteen bytes, where they could be read.
#[derive(Debug, Clone, PartialEq, Eq)]
pub struct BlockDump {
    pub block_index: u32,
    pub kind: BlockKind,
    pub data: Option<[u8; 16]>,
}

/// What a block holds.
#[derive(Debug, Clone, Copy, PartialEq, Eq, Structural)]
pub enum BlockKind {
    Data,
    Trailer,
    Manufacturer,
}

/// The key of a sector.
#[derive(Debug, Clone, Copy, PartialEq, Eq, Structural)]
pub enum KeyType {
    A,
    B,
}

/// A card reader: what identifies it and what the window calls it.
#[derive(Debug, Clone, PartialEq, Eq)]
pub struct Reader {
    pub id: ReaderId,
    pub label: String,
}

/// What identifies a card reader: its name.
#[derive(Debug, Clone, PartialEq, Eq)]
pub struct ReaderId(pub String);

impl View for ReaderId {
    type V = Seq<char>;

    open spec fn view(&self) -> Seq<char> {
        self.0@
    }
}

impl ReaderId {
    /// A copy of the identifier.
    pub fn clone_id(&self) -> (r: ReaderId)
        ensures
            r == *self,
    {
        ReaderId(self.0.clone())
    }

    /// Whether two identifiers name the same reader.
    pub fn same_as(&self, other: &ReaderId) -> (r: bool)
        ensures
            r == (self@ == other@),
    {
        self.0 == other.0
    }
}

/// What the selected reader is doing.
#[derive(Debug, Clone, Copy, PartialEq, Eq, Structural)]
pub enum ReaderStatus {
    Ready,
    Working,
    Disconnected,
}

} // verus!
