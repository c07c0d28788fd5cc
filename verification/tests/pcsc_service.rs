use hexly::backend::pcsc::error::{NativeError, NativeErrorKind, PcscError};
use hexly::backend::pcsc::service::{
    CardReadProgress, ListingProgress, PcscService, PresenceProgress,
};
use hexly::backend::pcsc::types::{CardCapacity, CardKind};

fn native(kind: NativeErrorKind, message: &str) -> NativeError {
    NativeError { kind, message: message.to_string() }
}

#[test]
fn uid_command_is_get_data() {
    assert_eq!(PcscService::uid_command(), [0xFF, 0xCA, 0x00, 0x00, 0x00]);
}

#[test]
fn readers_from_listing_keeps_names() {
    let listing = Ok(vec![b"ACS ACR122U".to_vec(), b"Other".to_vec()]);
    let readers = PcscService::readers_from_listing(listing).unwrap();
    let names: Vec<&str> = readers.iter().map(|r| r.reader_name.as_str()).collect();
    assert_eq!(names, vec!["ACS ACR122U", "Other"]);
}

#[test]
fn readers_from_listing_names_invalid_utf8_default_reader() {
    let listing = Ok(vec![vec![0xFF, 0xFE], "Lecteur é".as_bytes().to_vec()]);
    let readers = PcscService::readers_from_listing(listing).unwrap();
    assert_eq!(readers[0].reader_name, "Default reader");
    assert_eq!(readers[1].reader_name, "Lecteur é");
}

#[test]
fn readers_from_listing_without_readers_is_empty() {
    let listing = Err(native(NativeErrorKind::NoReadersAvailable, "no readers"));
    assert!(PcscService::readers_from_listing(listing).unwrap().is_empty());
}

#[test]
fn readers_from_listing_reports_other_failures() {
    let listing = Err(native(NativeErrorKind::Other, "service stopped"));
    let err = PcscService::readers_from_listing(listing).unwrap_err();
    assert_eq!(err.message(), "Failed listing readers: service stopped");
}

#[test]
fn read_card_uid_strips_status_word() {
    let uid = PcscService::read_card_uid(Ok(vec![0x04, 0xA1, 0xB2, 0xC3, 0x90, 0x00])).unwrap();
    assert_eq!(uid, vec![0x04, 0xA1, 0xB2, 0xC3]);
}

#[test]
fn read_card_uid_rejects_failure_status() {
    let err = PcscService::read_card_uid(Ok(vec![0x04, 0x63, 0x00])).unwrap_err();
    assert!(matches!(err, PcscError::InvalidApduResponse));
    let err = PcscService::read_card_uid(Ok(vec![0x90])).unwrap_err();
    assert!(matches!(err, PcscError::InvalidApduResponse));
}

#[test]
fn read_card_uid_rejects_empty_uid() {
    let err = PcscService::read_card_uid(Ok(vec![0x90, 0x00])).unwrap_err();
    assert!(matches!(err, PcscError::EmptyUid));
}

#[test]
fn read_card_uid_reports_transmit_failure() {
    let err =
        PcscService::read_card_uid(Err(native(NativeErrorKind::Other, "timeout"))).unwrap_err();
    assert_eq!(err.message(), "Failed transmitting APDU: timeout");
}

#[test]
fn card_info_from_defaults_to_classic_1k() {
    let info = PcscService::card_info_from(vec![0x3B, 0x00], vec![1, 2, 3, 4]);
    assert_eq!(info.kind, CardKind::MifareClassic1K);
    assert_eq!(info.capacity, Some(CardCapacity { bytes: 1024, sectors: Some(16), blocks: Some(64) }));
    assert_eq!(info.uid, vec![1, 2, 3, 4]);
    assert_eq!(info.atr, vec![0x3B, 0x00]);
}

#[test]
fn card_info_from_uses_atr_kind() {
    let atr = vec![0x3B, 0x0A, 0x00, 0x00, 0x03, 0x06, 0x03, 0x00, 0x03];
    let info = PcscService::card_info_from(atr, vec![9]);
    assert_eq!(info.kind, CardKind::MifareUltralight);
    assert_eq!(info.capacity, Some(CardCapacity { bytes: 64, sectors: None, blocks: Some(16) }));
}

#[test]
fn read_card_info_without_card_is_none() {
    let progress = CardReadProgress::ConnectFailed(native(NativeErrorKind::NoSmartcard, "none"));
    assert!(PcscService::read_card_info(progress).unwrap().is_none());
}

#[test]
fn read_card_info_reports_connect_failure_as_status() {
    let progress = CardReadProgress::ConnectFailed(native(NativeErrorKind::Other, "busy"));
    let err = PcscService::read_card_info(progress).unwrap_err();
    assert_eq!(err.message(), "Failed getting card status: busy");
    let progress = CardReadProgress::StatusFailed(native(NativeErrorKind::Other, "gone"));
    let err = PcscService::read_card_info(progress).unwrap_err();
    assert_eq!(err.message(), "Failed getting card status: gone");
}

#[test]
fn read_card_info_reads_a_card() {
    let progress = CardReadProgress::Transmitted {
        atr: vec![0x0A, 0x00, 0x00, 0x03, 0x06, 0x03, 0x00, 0x02],
        uid_response: Ok(vec![0xDE, 0xAD, 0xBE, 0xEF, 0x90, 0x00]),
    };
    let info = PcscService::read_card_info(progress).unwrap().unwrap();
    assert_eq!(info.uid, vec![0xDE, 0xAD, 0xBE, 0xEF]);
    assert_eq!(info.kind, CardKind::MifareClassic4K);
}

#[test]
fn read_card_info_reports_bad_uid_answer() {
    let progress = CardReadProgress::Transmitted {
        atr: vec![0x3B],
        uid_response: Ok(vec![0x6A, 0x81]),
    };
    assert!(matches!(
        PcscService::read_card_info(progress),
        Err(PcscError::InvalidApduResponse)
    ));
}

#[test]
fn error_messages() {
    let e = |m: &str| native(NativeErrorKind::Other, m);
    assert_eq!(PcscError::EstablishContext(e("x")).message(), "Failed establishing context: x");
    assert_eq!(PcscError::Utf8ReaderName("y".to_string()).message(), "Failed converting reader name: y");
    assert_eq!(PcscError::InvalidReaderName("z".to_string()).message(), "Invalid reader name: z");
    assert_eq!(PcscError::GetStatusChange(e("a")).message(), "Failed getting status change: a");
    assert_eq!(PcscError::ConnectCard(e("b")).message(), "Failed connecting to card: b");
    assert_eq!(PcscError::DisconnectCard(e("c")).message(), "Failed disconnecting card: c");
    assert_eq!(PcscError::InvalidApduResponse.message(), "Invalid APDU response");
    assert_eq!(PcscError::ApduStatus(0x6A, 0x82).message(), "APDU failed with status 6A 82");
    assert_eq!(PcscError::EmptyUid.message(), "Card returned an empty UID");
}

#[test]
fn uid_answer_buffer_and_presence_flag() {
    assert_eq!(PcscService::uid_response_capacity(), 258);
    assert!(PcscService::card_present(0x0022));
    assert!(!PcscService::card_present(0x0012));
    assert!(!PcscService::card_present(0));
}

#[test]
fn list_readers_reports_establish_failure() {
    let progress = ListingProgress::EstablishFailed(native(NativeErrorKind::Other, "no daemon"));
    let err = PcscService::list_readers(progress).unwrap_err();
    assert_eq!(err.message(), "Failed establishing context: no daemon");
    let progress = ListingProgress::Listed(Ok(vec![b"R".to_vec()]));
    assert_eq!(PcscService::list_readers(progress).unwrap()[0].reader_name, "R");
}

#[test]
fn is_card_present_follows_each_step() {
    let err = PcscService::is_card_present(PresenceProgress::EstablishFailed(native(
        NativeErrorKind::Other,
        "x",
    )))
    .unwrap_err();
    assert_eq!(err.message(), "Failed establishing context: x");
    let err = PcscService::is_card_present(PresenceProgress::InvalidName("nul byte".to_string()))
        .unwrap_err();
    assert_eq!(err.message(), "Invalid reader name: nul byte");
    let err = PcscService::is_card_present(PresenceProgress::StatusChangeFailed(native(
        NativeErrorKind::Other,
        "y",
    )))
    .unwrap_err();
    assert_eq!(err.message(), "Failed getting status change: y");
    assert!(PcscService::is_card_present(PresenceProgress::Polled { event_state: 0x22 }).unwrap());
    assert!(!PcscService::is_card_present(PresenceProgress::Polled { event_state: 0x10 }).unwrap());
}

#[test]
fn read_card_info_reports_establish_and_name_failures() {
    let err = PcscService::read_card_info(CardReadProgress::EstablishFailed(native(
        NativeErrorKind::Other,
        "z",
    )))
    .unwrap_err();
    assert_eq!(err.message(), "Failed establishing context: z");
    let err = PcscService::read_card_info(CardReadProgress::InvalidName("bad".to_string()))
        .unwrap_err();
    assert_eq!(err.message(), "Invalid reader name: bad");
}
