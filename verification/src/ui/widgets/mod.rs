pub mod card_contents_panel;
pub mod card_information;
pub mod reader_selector;
