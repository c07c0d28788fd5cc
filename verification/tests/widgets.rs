use hexly::backend::pcsc::types::ReaderInfo;
use hexly::backend::state::types::{
    BlockDump, BlockKind, CardData, CardType, KeyType, ReaderStatus, SectorDump,
};
use hexly::ui::formatters::{format_card_type, format_reader_status};
use hexly::ui::widgets::card_contents_panel::{
    all_sectors_expanded, auth_badge, badge_classes, block_kind_label, block_row, block_marking, block_row_subtitle,
    block_row_title, populate_sectors, sector_starts_expanded, sector_title,
};
use hexly::ui::widgets::card_information::CardInformationView;
use hexly::ui::widgets::reader_selector::{
    active_row_labels_match, list_position, needs_new_model, reader_list_labels, selection_at,
};
use hexly::ui::windows::settings::{is_page, requested_page};

fn sector(index: u32, key: Option<KeyType>) -> SectorDump {
    SectorDump { sector_index: index, first_block_index: index * 4, authenticated_with: key, blocks: Vec::new() }
}

#[test]
fn reader_status_texts() {
    assert_eq!(format_reader_status(&ReaderStatus::Ready), "Waiting for card");
    assert_eq!(format_reader_status(&ReaderStatus::Working), "Card detected");
    assert_eq!(format_reader_status(&ReaderStatus::Disconnected), "No reader");
}

#[test]
fn card_type_texts() {
    assert_eq!(format_card_type(Some(&CardType::MifareClassic1K)), Some("MIFARE Classic 1K"));
    assert_eq!(format_card_type(Some(&CardType::MifareClassic4K)), Some("MIFARE Classic 4K"));
    let raw = CardType::Unknown("NTAG".to_string());
    assert_eq!(format_card_type(Some(&raw)), Some("NTAG"));
    assert_eq!(format_card_type(None), None);
}

#[test]
fn card_information_cleared_and_filled() {
    let cleared = CardInformationView::clear();
    assert_eq!(cleared.uid, "-");
    assert_eq!(cleared.capacity, "-");
    assert!(!cleared.copy_uid_enabled && !cleared.copy_atr_enabled);
    let filled = CardInformationView::set_card_info(Some("01 02"), Some("3B 8F"), None, Some(64));
    assert_eq!(filled.uid, "01 02");
    assert_eq!(filled.atr, "3B 8F");
    assert_eq!(filled.card_type, "-");
    assert_eq!(filled.capacity, "64 bytes");
    assert!(filled.copy_uid_enabled && filled.copy_atr_enabled);
}

#[test]
fn atr_copy_needs_an_atr() {
    assert!(!CardInformationView::atr_copy_enabled("-"));
    assert!(CardInformationView::atr_copy_enabled("3B 8F"));
    assert!(CardInformationView::atr_copy_enabled(""));
}

#[test]
fn list_positions_round_trip() {
    assert_eq!(list_position(None), u32::MAX);
    assert_eq!(list_position(Some(3)), 3);
    assert_eq!(selection_at(u32::MAX), None);
    assert_eq!(selection_at(list_position(Some(7))), Some(7));
}

#[test]
fn labels_match_the_model() {
    let readers = vec!["A".to_string(), "B".to_string()];
    let model = vec![Some("A".to_string()), Some("B".to_string())];
    assert!(active_row_labels_match(Some(&model), &readers));
    let other = vec![Some("A".to_string()), None];
    assert!(!active_row_labels_match(Some(&other), &readers));
    let shorter = vec![Some("A".to_string())];
    assert!(!active_row_labels_match(Some(&shorter), &readers));
    assert!(!active_row_labels_match(None, &readers));
    assert!(active_row_labels_match(None, &Vec::new()));
}

#[test]
fn model_is_replaced_only_when_it_differs() {
    let readers = vec!["A".to_string()];
    let model = vec![Some("A".to_string())];
    assert!(!needs_new_model(0, Some(&model), &readers, Some(0)));
    assert!(needs_new_model(u32::MAX, Some(&model), &readers, Some(0)));
    assert!(needs_new_model(0, None, &readers, Some(0)));
    assert!(!needs_new_model(u32::MAX, None, &Vec::new(), None));
}

#[test]
fn block_rows() {
    let data = BlockDump {
        block_index: 5,
        kind: BlockKind::Data,
        data: Some([0x00, 0x11, 0x22, 0x33, 0x44, 0x55, 0x66, 0x77, 0x88, 0x99, 0xAA, 0xBB, 0xCC, 0xDD, 0xEE, 0xFF]),
    };
    assert_eq!(block_row_title(&data), "Block 5 \u{b7} Data");
    assert_eq!(block_row_subtitle(&data), "00 11 22 33 44 55 66 77 88 99 AA BB CC DD EE FF");
    assert!(block_marking(&data.kind).is_none());
    let trailer = BlockDump { block_index: 63, kind: BlockKind::Trailer, data: None };
    assert_eq!(block_row_title(&trailer), "Block 63 \u{b7} Trailer");
    assert_eq!(block_row_subtitle(&trailer), "Unreadable");
    let marking = block_marking(&trailer.kind).unwrap();
    assert_eq!(marking.row_class, "hexly-row-trailer");
    assert_eq!(marking.badge.text, "Trailer \u{b7} Keys");
    assert_eq!(marking.badge.css_class, "hexly-badge-trailer");
    let maker = block_marking(&BlockKind::Manufacturer).unwrap();
    assert_eq!(maker.row_class, "hexly-row-manufacturer");
    assert_eq!(maker.badge.text, "Manufacturer");
    assert_eq!(block_kind_label(&BlockKind::Manufacturer), "Manufacturer");
}

#[test]
fn sector_headers() {
    assert_eq!(sector_title(&sector(12, None)), "Sector 12");
    assert!(sector_starts_expanded(&sector(0, None)));
    assert!(!sector_starts_expanded(&sector(1, None)));
    assert_eq!(auth_badge(&sector(0, Some(KeyType::A))).text, "Auth: Key A");
    assert_eq!(auth_badge(&sector(0, Some(KeyType::B))).text, "Auth: Key B");
    assert_eq!(auth_badge(&sector(0, Some(KeyType::B))).css_class, "hexly-badge-auth-success");
    assert_eq!(auth_badge(&sector(0, None)).text, "Auth failed");
    assert_eq!(auth_badge(&sector(0, None)).css_class, "hexly-badge-auth-failed");
}

#[test]
fn all_expanded_needs_sectors() {
    assert!(!all_sectors_expanded(&[]));
    assert!(all_sectors_expanded(&[true, true]));
    assert!(!all_sectors_expanded(&[true, false]));
}

#[test]
fn settings_pages() {
    assert_eq!(requested_page(None), "application");
    assert_eq!(requested_page(Some("authentication".to_string())), "authentication");
    assert!(is_page(&"application".to_string(), "application"));
    assert!(!is_page(&"authentication".to_string(), "application"));
}

#[test]
fn sectors_are_laid_out_in_order() {
    let blocks = vec![
        BlockDump { block_index: 0, kind: BlockKind::Manufacturer, data: Some([0u8; 16]) },
        BlockDump { block_index: 3, kind: BlockKind::Trailer, data: None },
    ];
    let data = CardData {
        total_sectors: 2,
        total_blocks: 8,
        readable_sectors: 1,
        protected_sectors: 1,
        key_a_known: 1,
        key_b_known: 0,
        sectors: vec![
            SectorDump { sector_index: 0, first_block_index: 0, authenticated_with: Some(KeyType::A), blocks },
            sector(1, None),
        ],
    };
    let rows = populate_sectors(&data);
    assert_eq!(rows.len(), 2);
    assert_eq!(rows[0].title, "Sector 0");
    assert!(rows[0].expanded);
    assert_eq!(rows[0].auth.text, "Auth: Key A");
    assert_eq!(rows[0].blocks.len(), 2);
    assert_eq!(rows[0].blocks[0].title, "Block 0 \u{b7} Manufacturer");
    assert_eq!(rows[0].blocks[0].subtitle, "00 00 00 00 00 00 00 00 00 00 00 00 00 00 00 00");
    assert_eq!(rows[0].blocks[1].subtitle, "Unreadable");
    assert!(rows[0].blocks[1].marking.is_some());
    assert_eq!(rows[1].title, "Sector 1");
    assert!(!rows[1].expanded);
    assert_eq!(rows[1].auth.text, "Auth failed");
    assert!(rows[1].blocks.is_empty());
}

#[test]
fn reader_list_labels_skip_empty_lists() {
    assert_eq!(reader_list_labels(&Vec::new()), None);
    let readers = vec![ReaderInfo { reader_name: "A".to_string() }, ReaderInfo { reader_name: "B".to_string() }];
    assert_eq!(reader_list_labels(&readers), Some(vec!["A".to_string(), "B".to_string()]));
}

#[test]
fn block_rows_carry_their_classes() {
    let data = BlockDump { block_index: 1, kind: BlockKind::Data, data: None };
    assert_eq!(block_row(&data).css_classes, vec!["property", "hexly-block-row"]);
    let maker = BlockDump { block_index: 0, kind: BlockKind::Manufacturer, data: None };
    let row = block_row(&maker);
    assert_eq!(row.css_classes, vec!["property", "hexly-block-row", "hexly-row-manufacturer"]);
    assert_eq!(row.marking.unwrap().badge.css_class, "hexly-badge-manufacturer");
    let trailer = BlockDump { block_index: 3, kind: BlockKind::Trailer, data: None };
    let row = block_row(&trailer);
    assert_eq!(row.css_classes, vec!["property", "hexly-block-row", "hexly-row-trailer"]);
    let badge = row.marking.unwrap().badge;
    assert_eq!(badge.text, "Trailer \u{b7} Keys");
    assert_eq!(badge_classes(&badge), vec!["hexly-badge", "hexly-badge-trailer"]);
}
