use vstd::prelude::*;

use crate::backend::pcsc::types::{CardCapacity, CardKind, CardProtocol, ParsedAtr};
use crate::text::{decimal, digit_char, hex_byte, joined, lemma_joined_push, push_decimal, push_hex_byte, push_str};

verus! {

/// How `format_bytes` writes each byte.
#[derive(Debug, Clone, Copy, PartialEq, Eq, Structural)]
pub enum ByteFormat {
    Hex,
    Decimal,
}

/// The text for a byte string: in `Hex`, two upper-case digits per byte separated by
/// single spaces; in `Decimal`, the decimal numbers of the bytes written one after another.
pub open spec fn formatted_bytes(bytes: Seq<u8>, format: ByteFormat) -> Seq<char> {
    match format {
        ByteFormat::Hex => joined(bytes.map_values(|b: u8| hex_byte(b)), " "@),
        ByteFormat::Decimal => joined(bytes.map_values(|b: u8| decimal(b as nat)), Seq::empty()),
    }
}

/// The text for a byte string, in the given format.
pub fn format_bytes(bytes: &[u8], format: ByteFormat) -> (r: String)
    ensures
        r@ == formatted_bytes(bytes@, format),
{
    let ghost parts: Seq<Seq<char>> = match format {
        ByteFormat::Hex => bytes@.map_values(|b: u8| hex_byte(b)),
        ByteFormat::Decimal => bytes@.map_values(|b: u8| decimal(b as nat)),
    };
    let ghost sep: Seq<char> = match format {
        ByteFormat::Hex => " "@,
        ByteFormat::Decimal => Seq::empty(),
    };
    let mut s = String::new();
    let mut i: usize = 0;
    assert(parts.take(0) =~= Seq::<Seq<char>>::empty());
    while i < bytes.len()
        invariant
            i <= bytes.len(),
            parts.len() == bytes@.len(),
            forall|j: int|
                0 <= j < bytes@.len() ==> #[trigger] parts[j] == (match format {
                    ByteFormat::Hex => hex_byte(bytes@[j]),
                    ByteFormat::Decimal => decimal(bytes@[j] as nat),
                }),
            sep == (match format {
                ByteFormat::Hex => " "@,
                ByteFormat::Decimal => Seq::<char>::empty(),
            }),
            s@ == joined(parts.take(i as int), sep),
        decreases bytes.len() - i,
    {
        let ghost before = s@;
        let b: u8 = bytes[i];
        match format {
            ByteFormat::Hex => {
                if i > 0 {
                    push_str(&mut s, " ");
                }
                push_hex_byte(&mut s, b);
            },
            ByteFormat::Decimal => {
                push_decimal(&mut s, b as u64);
            },
        }
        proof {
            assert(parts.take(i as int).push(parts[i as int]) =~= parts.take(i + 1));
            if i == 0 {
                assert(parts.take(1) =~= seq![parts[0]]);
                assert(s@ =~= parts[0]);
            } else {
                lemma_joined_push(parts.take(i as int), sep, parts[i as int]);
                assert(s@ =~= before + sep + parts[i as int]);
            }
        }
        i += 1;
    }
    assert(parts.take(bytes@.len() as int) =~= parts);
    s
}

/// The application identifier that introduces the PC/SC part of a contactless card's ATR.
pub open spec fn aid_at(atr: Seq<u8>, i: int) -> bool {
    &&& 0 <= i
    &&& i + 5 <= atr.len()
    &&& atr[i] == 0x0A
    &&& atr[i + 1] == 0x00
    &&& atr[i + 2] == 0x00
    &&& atr[i + 3] == 0x03
    &&& atr[i + 4] == 0x06
}

/// The first position at or after `i` where the application identifier starts.
pub open spec fn first_aid_from(atr: Seq<u8>, i: int) -> Option<int>
    decreases atr.len() - i,
{
    if i < 0 || i + 5 > atr.len() {
        None
    } else if aid_at(atr, i) {
        Some(i)
    } else {
        first_aid_from(atr, i + 1)
    }
}

/// The protocol that the standard byte `ss` of the ATR names.
pub open spec fn protocol_for(ss: u8) -> CardProtocol {
    if ss == 0x01 || ss == 0x02 || ss == 0x03 {
        CardProtocol::Iso14443TypeA
    } else if ss == 0x05 || ss == 0x06 || ss == 0x07 {
        CardProtocol::Iso14443TypeB
    } else if ss == 0x09 || ss == 0x0A || ss == 0x0B || ss == 0x0C {
        CardProtocol::Iso15693
    } else if ss == 0x11 {
        CardProtocol::Felica
    } else {
        CardProtocol::Unknown(ss)
    }
}

/// The card family that the card name number `nn` of the ATR names.
pub open spec fn kind_for(nn: int) -> CardKind {
    if nn == 0x0001 {
        CardKind::MifareClassic1K
    } else if nn == 0x0002 {
        CardKind::MifareClassic4K
    } else if nn == 0x0003 {
        CardKind::MifareUltralight
    } else {
        CardKind::Unknown
    }
}

/// What an ATR says: after the first application identifier come the standard byte and the
/// two bytes (big-endian) of the card name; without them there is nothing to say.
pub open spec fn parsed_atr(atr: Seq<u8>) -> Option<ParsedAtr> {
    match first_aid_from(atr, 0) {
        None => None,
        Some(p) => if atr.len() <= p + 7 {
            None
        } else {
            Some(
                ParsedAtr {
                    protocol: protocol_for(atr[p + 5]),
                    kind: kind_for(atr[p + 6] * 256 + atr[p + 7]),
                },
            )
        },
    }
}

/// The memory layout of a card family, where it is known.
pub open spec fn capacity_of(kind: CardKind) -> Option<CardCapacity> {
    match kind {
        CardKind::MifareClassic1K => Some(
            CardCapacity { bytes: 1024, sectors: Some(16), blocks: Some(64) },
        ),
        CardKind::MifareClassic4K => Some(
            CardCapacity { bytes: 4096, sectors: Some(40), blocks: Some(256) },
        ),
        CardKind::MifareUltralight => Some(
            CardCapacity { bytes: 64, sectors: None, blocks: Some(16) },
        ),
        CardKind::Unknown => None,
    }
}

/// The position of the first application identifier in an ATR.
fn find_aid(atr: &[u8]) -> (r: Option<usize>)
    ensures
        r matches Some(p) ==> p + 5 <= atr@.len() && first_aid_from(atr@, 0) == Some(p as int),
        r is None ==> first_aid_from(atr@, 0) is None,
{
    let n: usize = atr.len();
    if n < 5 {
        assert(first_aid_from(atr@, 0) is None);
        return None;
    }
    let mut i: usize = 0;
    while i <= n - 5
        invariant
            n == atr@.len(),
            n >= 5,
            i <= n - 4,
            first_aid_from(atr@, 0) == first_aid_from(atr@, i as int),
        decreases n - i,
    {
        if atr[i] == 0x0A && atr[i + 1] == 0x00 && atr[i + 2] == 0x00 && atr[i + 3] == 0x03
            && atr[i + 4] == 0x06 {
            return Some(i);
        }
        i += 1;
    }
    assert(first_aid_from(atr@, i as int) is None);
    None
}

/// Reads the protocol and card family from an ATR.
pub fn parse_atr(atr: &[u8]) -> (r: Option<ParsedAtr>)
    ensures
        r == parsed_atr(atr@),
{
    let aid_pos: usize = match find_aid(atr) {
        None => {
            return None;
        },
        Some(p) => p,
    };
    if atr.len() - aid_pos <= 7 {
        return None;
    }
    let ss_index: usize = aid_pos + 5;
    let nn_index: usize = ss_index + 1;
    let ss: u8 = atr[ss_index];
    let nn: u16 = (atr[nn_index] as u16) * 256 + (atr[nn_index + 1] as u16);
    Some(ParsedAtr { protocol: parse_protocol(ss), kind: parse_card_kind(nn) })
}

/// The memory layout of a card family, where it is known.
pub fn capacity_for_kind(kind: &CardKind) -> (r: Option<CardCapacity>)
    ensures
        r == capacity_of(*kind),
{
    match kind {
        CardKind::MifareClassic1K => Some(
            CardCapacity { bytes: 1024, sectors: Some(16), blocks: Some(64) },
        ),
        CardKind::MifareClassic4K => Some(
            CardCapacity { bytes: 4096, sectors: Some(40), blocks: Some(256) },
        ),
        CardKind::MifareUltralight => Some(
            CardCapacity { bytes: 64, sectors: None, blocks: Some(16) },
        ),
        _ => None,
    }
}

/// The protocol that the standard byte of an ATR names.
pub fn parse_protocol(ss: u8) -> (r: CardProtocol)
    ensures
        r == protocol_for(ss),
{
    match ss {
        0x01 | 0x02 | 0x03 => CardProtocol::Iso14443TypeA,
        0x05 | 0x06 | 0x07 => CardProtocol::Iso14443TypeB,
        0x09 | 0x0A | 0x0B | 0x0C => CardProtocol::Iso15693,
        0x11 => CardProtocol::Felica,
        other => CardProtocol::Unknown(other),
    }
}

/// The card family that the card name number of an ATR names.
pub fn parse_card_kind(nn: u16) -> (r: CardKind)
    ensures
        r == kind_for(nn as int),
{
    match nn {
        0x0001 => CardKind::MifareClassic1K,
        0x0002 => CardKind::MifareClassic4K,
        0x0003 => CardKind::MifareUltralight,
        _ => CardKind::Unknown,
    }
}

/// An ATR that starts with the application identifier, followed by the standard byte and the
/// card name, parses to what those bytes name, whatever follows them.
pub proof fn lemma_atr_layout_parses(ss: u8, hi: u8, lo: u8, rest: Seq<u8>)
    ensures
        parsed_atr(seq![0x0Au8, 0x00u8, 0x00u8, 0x03u8, 0x06u8, ss, hi, lo] + rest) == Some(
            ParsedAtr { protocol: protocol_for(ss), kind: kind_for(hi * 256 + lo) },
        ),
{
    let atr = seq![0x0Au8, 0x00u8, 0x00u8, 0x03u8, 0x06u8, ss, hi, lo] + rest;
    assert(aid_at(atr, 0));
    assert(first_aid_from(atr, 0) == Some(0int));
}

/// An ATR too short to hold the application identifier says nothing.
pub proof fn lemma_short_atr_says_nothing(atr: Seq<u8>)
    requires
        atr.len() < 8,
    ensures
        parsed_atr(atr) is None,
{
    if let Some(p) = first_aid_from(atr, 0) {
        lemma_first_aid_from(atr, 0);
    }
}

/// A position found by `first_aid_from` holds the application identifier.
pub proof fn lemma_first_aid_from(atr: Seq<u8>, i: int)
    requires
        0 <= i,
    ensures
        first_aid_from(atr, i) matches Some(p) ==> i <= p && aid_at(atr, p),
    decreases atr.len() - i,
{
    if i + 5 <= atr.len() && !aid_at(atr, i) {
        lemma_first_aid_from(atr, i + 1);
    }
}

/// Exactly the known card families have a memory layout; the MIFARE Classic cards hold
/// sixteen bytes per block and the Ultralight four.
pub proof fn lemma_capacity_layout(kind: CardKind)
    ensures
        capacity_of(kind) is Some <==> kind != CardKind::Unknown,
        capacity_of(kind) matches Some(c) ==> c.blocks matches Some(b) && (if kind
            == CardKind::MifareUltralight {
            c.bytes == 4 * b
        } else {
            c.bytes == 16 * b
        }),
{
}

/// The hexadecimal text of a non-empty byte string has three characters per byte, less the
/// one separator that the last byte lacks.
pub proof fn lemma_hex_text_length(bytes: Seq<u8>)
    requires
        bytes.len() > 0,
    ensures
        formatted_bytes(bytes, ByteFormat::Hex).len() == 3 * bytes.len() - 1,
    decreases bytes.len(),
{
    let parts = bytes.map_values(|b: u8| hex_byte(b));
    if bytes.len() > 1 {
        lemma_hex_text_length(bytes.drop_last());
        assert(parts.drop_last() =~= bytes.drop_last().map_values(|b: u8| hex_byte(b)));
        reveal_strlit(" ");
        assert(joined(parts, " "@) == joined(parts.drop_last(), " "@) + " "@ + parts.last());
    }
}

/// The value of a hexadecimal digit as `digit_char` writes it.
pub open spec fn hex_digit_value(c: char) -> int {
    if (c as int) < 65 {
        c as int - 48
    } else {
        c as int - 55
    }
}

/// The pieces of a text between its spaces, as splitting at each space gives them: one piece
/// more than there are spaces, empty pieces included.
pub open spec fn split_at_spaces(text: Seq<char>) -> Seq<Seq<char>>
    decreases text.len(),
{
    if text.len() == 0 {
        seq![Seq::<char>::empty()]
    } else {
        let front = split_at_spaces(text.drop_last());
        if text.last() == ' ' {
            front.push(Seq::<char>::empty())
        } else {
            front.update(front.len() - 1, front.last().push(text.last()))
        }
    }
}

/// The pieces that are not empty, in order.
pub open spec fn non_empty_pieces(pieces: Seq<Seq<char>>) -> Seq<Seq<char>>
    decreases pieces.len(),
{
    if pieces.len() == 0 {
        pieces
    } else if pieces.last().len() == 0 {
        non_empty_pieces(pieces.drop_last())
    } else {
        non_empty_pieces(pieces.drop_last()).push(pieces.last())
    }
}

/// The byte that a piece of two hexadecimal digits stands for.
pub open spec fn hex_piece_value(piece: Seq<char>) -> u8 {
    (hex_digit_value(piece[0]) * 16 + hex_digit_value(piece[1])) as u8
}

/// The bytes that a hexadecimal text stands for: split at its spaces, drop the empty pieces,
/// and read each piece as two hexadecimal digits.
pub open spec fn hex_read_back(text: Seq<char>) -> Seq<u8> {
    non_empty_pieces(split_at_spaces(text)).map_values(|piece: Seq<char>| hex_piece_value(piece))
}

/// The text holds no space.
pub open spec fn space_free(text: Seq<char>) -> bool {
    forall|i: int| 0 <= i < text.len() ==> text[i] != ' '
}

/// Splitting gives at least one piece.
pub proof fn lemma_split_not_empty(text: Seq<char>)
    ensures
        split_at_spaces(text).len() >= 1,
    decreases text.len(),
{
    if text.len() > 0 {
        lemma_split_not_empty(text.drop_last());
    }
}

/// Text without spaces added at the end lengthens the last piece.
pub proof fn lemma_split_append(a: Seq<char>, b: Seq<char>)
    requires
        space_free(b),
    ensures
        split_at_spaces(a + b) == split_at_spaces(a).update(
            split_at_spaces(a).len() - 1,
            split_at_spaces(a).last() + b,
        ),
    decreases b.len(),
{
    lemma_split_not_empty(a);
    let sa = split_at_spaces(a);
    if b.len() == 0 {
        assert(a + b =~= a);
        assert(sa.last() + b =~= sa.last());
        assert(sa.update(sa.len() - 1, sa.last() + b) =~= sa);
    } else {
        let b0 = b.drop_last();
        assert(space_free(b0));
        lemma_split_append(a, b0);
        assert((a + b).drop_last() =~= a + b0);
        assert((a + b).last() == b.last());
        let front = split_at_spaces(a + b0);
        assert(b.last() == b[b.len() - 1]);
        assert(b.last() != ' ');
        assert(split_at_spaces(a + b) == front.update(
            front.len() - 1,
            front.last().push(b.last()),
        ));
        assert(front.len() == sa.len());
        assert(front.last() == sa.last() + b0);
        assert((sa.last() + b0).push(b.last()) =~= sa.last() + b);
        assert(front.update(front.len() - 1, front.last().push(b.last())) =~= sa.update(
            sa.len() - 1,
            sa.last() + b,
        ));
    }
}

/// A space and then text without spaces add that text as a new piece.
pub proof fn lemma_split_space_then(a: Seq<char>, b: Seq<char>)
    requires
        space_free(b),
    ensures
        split_at_spaces(a + " "@ + b) == split_at_spaces(a).push(b),
{
    reveal_strlit(" ");
    let a1 = a + " "@;
    assert(a1.drop_last() =~= a);
    assert(a1.last() == ' ');
    assert(split_at_spaces(a1) == split_at_spaces(a).push(Seq::<char>::empty()));
    lemma_split_append(a1, b);
    assert(Seq::<char>::empty() + b =~= b);
    assert(split_at_spaces(a).push(Seq::<char>::empty()).update(
        split_at_spaces(a).len() as int,
        Seq::<char>::empty() + b,
    ) =~= split_at_spaces(a).push(b));
}

/// Splitting the space-joined pieces gives the pieces back, when none holds a space.
pub proof fn lemma_split_joined(parts: Seq<Seq<char>>)
    requires
        parts.len() >= 1,
        forall|i: int| 0 <= i < parts.len() ==> space_free(#[trigger] parts[i]),
    ensures
        split_at_spaces(joined(parts, " "@)) == parts,
    decreases parts.len(),
{
    if parts.len() == 1 {
        assert(space_free(parts[0]));
        lemma_split_append(Seq::<char>::empty(), parts[0]);
        assert(Seq::<char>::empty() + parts[0] =~= parts[0]);
        assert(split_at_spaces(Seq::<char>::empty()) == seq![Seq::<char>::empty()]);
        assert(seq![Seq::<char>::empty()].update(0, Seq::<char>::empty() + parts[0]) =~= parts);
    } else {
        let front = parts.drop_last();
        assert forall|i: int| 0 <= i < front.len() implies space_free(#[trigger] front[i]) by {
            assert(space_free(parts[i]));
        }
        lemma_split_joined(front);
        assert(space_free(parts[parts.len() - 1]));
        lemma_split_space_then(joined(front, " "@), parts.last());
        assert(front.push(parts.last()) =~= parts);
    }
}

/// Dropping the empty pieces keeps a list of non-empty pieces as it is.
pub proof fn lemma_non_empty_pieces(pieces: Seq<Seq<char>>)
    requires
        forall|i: int| 0 <= i < pieces.len() ==> (#[trigger] pieces[i]).len() > 0,
    ensures
        non_empty_pieces(pieces) == pieces,
    decreases pieces.len(),
{
    if pieces.len() > 0 {
        let front = pieces.drop_last();
        assert forall|i: int| 0 <= i < front.len() implies (#[trigger] front[i]).len() > 0 by {
            assert(pieces[i].len() > 0);
        }
        lemma_non_empty_pieces(front);
        assert(pieces[pieces.len() - 1].len() > 0);
        assert(front.push(pieces.last()) =~= pieces);
    }
}

/// Each hexadecimal digit reads back as its value.
pub proof fn lemma_digit_value(d: int)
    requires
        0 <= d < 16,
    ensures
        hex_digit_value(digit_char(d)) == d,
        digit_char(d) != ' ',
{
}

/// The hexadecimal text of a byte string reads back as the byte string: split at the spaces,
/// each piece is the two digits of one byte.
pub proof fn lemma_hex_text_reads_back(bytes: Seq<u8>)
    ensures
        hex_read_back(formatted_bytes(bytes, ByteFormat::Hex)) == bytes,
{
    let parts = bytes.map_values(|b: u8| hex_byte(b));
    let text = formatted_bytes(bytes, ByteFormat::Hex);
    if bytes.len() == 0 {
        assert(text.len() == 0);
        assert(split_at_spaces(text) == seq![Seq::<char>::empty()]);
        assert(seq![Seq::<char>::empty()].drop_last() =~= Seq::<Seq<char>>::empty());
        assert(non_empty_pieces(Seq::<Seq<char>>::empty()) == Seq::<Seq<char>>::empty());
        assert(seq![Seq::<char>::empty()].last().len() == 0);
        assert(non_empty_pieces(seq![Seq::<char>::empty()]) =~= Seq::<Seq<char>>::empty());
        assert(hex_read_back(text) =~= bytes);
    } else {
        assert forall|i: int| 0 <= i < parts.len() implies space_free(#[trigger] parts[i])
            && parts[i].len() > 0 by {
            let b = bytes[i];
            assert(parts[i] == hex_byte(b));
            lemma_digit_value((b / 16) as int);
            lemma_digit_value((b % 16) as int);
        }
        lemma_split_joined(parts);
        lemma_non_empty_pieces(parts);
        assert forall|i: int| 0 <= i < bytes.len() implies #[trigger] hex_read_back(text)[i]
            == bytes[i] by {
            let b = bytes[i];
            lemma_digit_value((b / 16) as int);
            lemma_digit_value((b % 16) as int);
            assert((b / 16) * 16 + b % 16 == b);
        }
        assert(hex_read_back(text) =~= bytes);
    }
}

/// Different byte strings have different hexadecimal texts.
pub proof fn lemma_hex_text_injective(a: Seq<u8>, b: Seq<u8>)
    requires
        formatted_bytes(a, ByteFormat::Hex) == formatted_bytes(b, ByteFormat::Hex),
    ensures
        a == b,
{
    lemma_hex_text_reads_back(a);
    lemma_hex_text_reads_back(b);
}

/// The standard bytes 0x09 to 0x0C all name ISO 15693: an ATR with the application
/// identifier followed by any of them reads as an ISO 15693 card, whatever its name bytes.
pub proof fn lemma_iso15693_standard_bytes(ss: u8, hi: u8, lo: u8, rest: Seq<u8>)
    requires
        ss == 0x09 || ss == 0x0A || ss == 0x0B || ss == 0x0C,
    ensures
        parsed_atr(seq![0x0Au8, 0x00u8, 0x00u8, 0x03u8, 0x06u8, ss, hi, lo] + rest) matches Some(p)
            && p.protocol == CardProtocol::Iso15693,
{
    lemma_atr_layout_parses(ss, hi, lo, rest);
}

/// How the standard byte of an ATR sorts cards: 0x01 to 0x03 are ISO 14443 type A, 0x05 to
/// 0x07 type B, 0x09 to 0x0C ISO 15693, 0x11 FeliCa, and every other byte stays unknown and
/// keeps its value.
pub proof fn lemma_standard_byte_classes(ss: u8, hi: u8, lo: u8, rest: Seq<u8>)
    ensures
        ({
            let p = parsed_atr(seq![0x0Au8, 0x00u8, 0x00u8, 0x03u8, 0x06u8, ss, hi, lo] + rest);
            &&& p is Some
            &&& (0x01 <= ss <= 0x03 <==> p.unwrap().protocol == CardProtocol::Iso14443TypeA)
            &&& (0x05 <= ss <= 0x07 <==> p.unwrap().protocol == CardProtocol::Iso14443TypeB)
            &&& (0x09 <= ss <= 0x0C <==> p.unwrap().protocol == CardProtocol::Iso15693)
            &&& (ss == 0x11 <==> p.unwrap().protocol == CardProtocol::Felica)
            &&& (!(0x01 <= ss <= 0x03 || 0x05 <= ss <= 0x07 || 0x09 <= ss <= 0x0C || ss == 0x11)
                <==> p.unwrap().protocol == CardProtocol::Unknown(ss))
        }),
{
    lemma_atr_layout_parses(ss, hi, lo, rest);
}

/// How the name bytes of an ATR sort cards: 00 01 is a MIFARE Classic 1K, 00 02 a Classic 4K,
/// 00 03 an Ultralight, and every other pair an unknown card.
pub proof fn lemma_card_name_classes(ss: u8, hi: u8, lo: u8, rest: Seq<u8>)
    ensures
        ({
            let p = parsed_atr(seq![0x0Au8, 0x00u8, 0x00u8, 0x03u8, 0x06u8, ss, hi, lo] + rest);
            &&& p is Some
            &&& (hi == 0 && lo == 1 <==> p.unwrap().kind == CardKind::MifareClassic1K)
            &&& (hi == 0 && lo == 2 <==> p.unwrap().kind == CardKind::MifareClassic4K)
            &&& (hi == 0 && lo == 3 <==> p.unwrap().kind == CardKind::MifareUltralight)
            &&& (!(hi == 0 && 1 <= lo <= 3) <==> p.unwrap().kind == CardKind::Unknown)
        }),
{
    lemma_atr_layout_parses(ss, hi, lo, rest);
}

} // verus!
