use vstd::prelude::*;
use vstd::utf8::{decode_utf8, valid_utf8};

use crate::backend::pcsc::error::{NativeError, NativeErrorKind, PcscError};
use crate::backend::pcsc::types::{CardInfo, CardKind, PcscResult, ReaderInfo};
use crate::backend::pcsc::utils::{capacity_for_kind, capacity_of, parse_atr, parsed_atr};
use crate::text::{string_of, utf8_string};

verus! {

/// The decisions of the card reader service; the calls into the PC/SC layer are made
/// by its caller, which hands over what they returned.
pub struct PcscService;

/// How far listing the readers got, and what each step returned.
pub enum ListingProgress {
    /// No PC/SC context could be established.
    EstablishFailed(NativeError),
    /// The context was established, and listing the readers had the given outcome; each name
    /// is given by its bytes.
    Listed(Result<Vec<Vec<u8>>, NativeError>),
}

/// How far asking a reader for a card got, and what each step returned.
pub enum PresenceProgress {
    /// No PC/SC context could be established.
    EstablishFailed(NativeError),
    /// The reader name cannot be handed to the PC/SC layer; the text says why.
    InvalidName(String),
    /// The reader's state could not be read.
    StatusChangeFailed(NativeError),
    /// The reader's state was read: its event state flags.
    Polled { event_state: u64 },
}

/// How far reading a card got before it stopped, and what each step returned.
pub enum CardReadProgress {
    /// No PC/SC context could be established.
    EstablishFailed(NativeError),
    /// The reader name cannot be handed to the PC/SC layer; the text says why.
    InvalidName(String),
    /// Connecting to the card failed.
    ConnectFailed(NativeError),
    /// The card was connected, but its status (and so its ATR) could not be read.
    StatusFailed(NativeError),
    /// The ATR was read, and the UID command was sent once, with the given outcome.
    Transmitted { atr: Vec<u8>, uid_response: Result<Vec<u8>, NativeError> },
}

/// The name under which a reader is listed: its name where it is valid UTF-8, else a default.
pub open spec fn listed_reader_name(bytes: Seq<u8>) -> Seq<char> {
    if valid_utf8(bytes) {
        decode_utf8(bytes)
    } else {
        "Default reader"@
    }
}

/// The status word that a successful APDU ends with.
pub open spec fn ends_with_success(response: Seq<u8>) -> bool {
    response.len() >= 2 && response[response.len() - 2] == 0x90 && response[response.len() - 1]
        == 0x00
}

/// What the answer to the UID command gives: the UID before the status word.
pub open spec fn uid_of_response(response: Result<Seq<u8>, NativeError>) -> Result<Seq<u8>, PcscError> {
    match response {
        Err(e) => Err(PcscError::TransmitApdu(e)),
        Ok(bytes) => if !ends_with_success(bytes) {
            Err(PcscError::InvalidApduResponse)
        } else if bytes.len() == 2 {
            Err(PcscError::EmptyUid)
        } else {
            Ok(bytes.subrange(0, bytes.len() - 2))
        },
    }
}

/// The card family of a card with this ATR: what the ATR names, else a MIFARE Classic 1K.
pub open spec fn kind_of_atr(atr: Seq<u8>) -> CardKind {
    match parsed_atr(atr) {
        Some(p) => p.kind,
        None => CardKind::MifareClassic1K,
    }
}

impl PcscService {
    /// The APDU that asks a contactless reader for the UID of the card in its field.
    pub fn uid_command() -> (r: [u8; 5])
        ensures
            r@ == seq![0xFFu8, 0xCAu8, 0x00u8, 0x00u8, 0x00u8],
    {
        [0xFF, 0xCA, 0x00, 0x00, 0x00]
    }

    /// The size of the buffer that receives the one answer to the UID command: the longest
    /// answer of a short APDU, 256 data bytes and the two status bytes.
    pub fn uid_response_capacity() -> (r: usize)
        ensures
            r == 258,
    {
        258
    }

    /// Whether a reader's event state says that a card is in it: the PC/SC reader-state
    /// flag "present" (`0x20`) is set.
    pub fn card_present(event_state: u64) -> (r: bool)
        ensures
            r == (event_state & 0x20u64 != 0),
    {
        event_state & 0x20u64 != 0
    }

    /// The readers of a listing: each name as a reader; no reader at all where the layer
    /// reports that none is available; the error otherwise.
    pub fn readers_from_listing(listing: Result<Vec<Vec<u8>>, NativeError>) -> (r: PcscResult<
        Vec<ReaderInfo>,
    >)
        ensures
            match listing {
                Ok(names) => r matches Ok(readers) && readers.len() == names.len() && forall|i: int|
                    0 <= i < names.len() ==> #[trigger] readers[i].reader_name@
                        == listed_reader_name(names[i]@),
                Err(e) => if e.kind == NativeErrorKind::NoReadersAvailable {
                    r matches Ok(readers) && readers.len() == 0
                } else {
                    r == Err::<Vec<ReaderInfo>, PcscError>(PcscError::ListReaders(e))
                },
            },
    {
        match listing {
            Ok(names) => {
                let mut readers: Vec<ReaderInfo> = Vec::new();
                let mut i: usize = 0;
                while i < names.len()
                    invariant
                        i <= names.len(),
                        readers.len() == i,
                        forall|j: int|
                            0 <= j < i ==> #[trigger] readers[j].reader_name@ == listed_reader_name(
                                names[j]@,
                            ),
                    decreases names.len() - i,
                {
                    let name = match utf8_string(names[i].as_slice()) {
                        Some(s) => s,
                        None => string_of("Default reader"),
                    };
                    readers.push(ReaderInfo { reader_name: name });
                    i += 1;
                }
                Ok(readers)
            },
            Err(e) => {
                if e.kind == NativeErrorKind::NoReadersAvailable {
                    Ok(Vec::new())
                } else {
                    Err(PcscError::ListReaders(e))
                }
            },
        }
    }

    /// The readers, or the error of the first step that failed.
    pub fn list_readers(progress: ListingProgress) -> (r: PcscResult<Vec<ReaderInfo>>)
        ensures
            match progress {
                ListingProgress::EstablishFailed(e) => r == Err::<Vec<ReaderInfo>, PcscError>(
                    PcscError::EstablishContext(e),
                ),
                ListingProgress::Listed(listing) => match listing {
                    Ok(names) => r matches Ok(readers) && readers.len() == names.len() && forall|
                        i: int,
                    | 0 <= i < names.len() ==> #[trigger] readers[i].reader_name@
                        == listed_reader_name(names[i]@),
                    Err(e) => if e.kind == NativeErrorKind::NoReadersAvailable {
                        r matches Ok(readers) && readers.len() == 0
                    } else {
                        r == Err::<Vec<ReaderInfo>, PcscError>(PcscError::ListReaders(e))
                    },
                },
            },
    {
        match progress {
            ListingProgress::EstablishFailed(e) => Err(PcscError::EstablishContext(e)),
            ListingProgress::Listed(listing) => Self::readers_from_listing(listing),
        }
    }

    /// Whether a card is in the reader, or the error of the first step that failed.
    pub fn is_card_present(progress: PresenceProgress) -> (r: PcscResult<bool>)
        ensures
            match progress {
                PresenceProgress::EstablishFailed(e) => r == Err::<bool, PcscError>(
                    PcscError::EstablishContext(e),
                ),
                PresenceProgress::InvalidName(why) => r == Err::<bool, PcscError>(
                    PcscError::InvalidReaderName(why),
                ),
                PresenceProgress::StatusChangeFailed(e) => r == Err::<bool, PcscError>(
                    PcscError::GetStatusChange(e),
                ),
                PresenceProgress::Polled { event_state } => r == Ok::<bool, PcscError>(
                    event_state & 0x20u64 != 0,
                ),
            },
    {
        match progress {
            PresenceProgress::EstablishFailed(e) => Err(PcscError::EstablishContext(e)),
            PresenceProgress::InvalidName(why) => Err(PcscError::InvalidReaderName(why)),
            PresenceProgress::StatusChangeFailed(e) => Err(PcscError::GetStatusChange(e)),
            PresenceProgress::Polled { event_state } => Ok(Self::card_present(event_state)),
        }
    }

    /// The UID in the answer to the UID command.
    pub fn read_card_uid(response: Result<Vec<u8>, NativeError>) -> (r: PcscResult<Vec<u8>>)
        ensures
            match response {
                Ok(bytes) => match uid_of_response(Ok(bytes@)) {
                    Ok(uid) => r matches Ok(v) && v@ == uid,
                    Err(e) => r == Err::<Vec<u8>, PcscError>(e),
                },
                Err(e) => r == Err::<Vec<u8>, PcscError>(PcscError::TransmitApdu(e)),
            },
    {
        let response = match response {
            Ok(bytes) => bytes,
            Err(e) => {
                return Err(PcscError::TransmitApdu(e));
            },
        };
        let n: usize = response.len();
        if n < 2 {
            return Err(PcscError::InvalidApduResponse);
        }
        let sw1: u8 = response[n - 2];
        let sw2: u8 = response[n - 1];
        if sw1 != 0x90 || sw2 != 0x00 {
            return Err(PcscError::InvalidApduResponse);
        }
        if n == 2 {
            return Err(PcscError::EmptyUid);
        }
        let mut uid: Vec<u8> = Vec::new();
        let mut i: usize = 0;
        while i < n - 2
            invariant
                n == response.len(),
                n > 2,
                i <= n - 2,
                uid@ == response@.subrange(0, i as int),
            decreases n - 2 - i,
        {
            uid.push(response[i]);
            i += 1;
            assert(uid@ =~= response@.subrange(0, i as int));
        }
        Ok(uid)
    }

    /// What was read from a card, given its ATR and UID.
    pub fn card_info_from(atr: Vec<u8>, uid: Vec<u8>) -> (r: CardInfo)
        ensures
            r.atr == atr,
            r.uid == uid,
            r.kind == kind_of_atr(atr@),
            r.capacity == capacity_of(kind_of_atr(atr@)),
    {
        let kind = match parse_atr(atr.as_slice()) {
            Some(p) => p.kind,
            None => CardKind::MifareClassic1K,
        };
        let capacity = capacity_for_kind(&kind);
        CardInfo { atr, uid, kind, capacity }
    }

    /// The outcome of reading a card: no card where the reader has none, the error of the
    /// first step that failed, or what was read.
    pub fn read_card_info(progress: CardReadProgress) -> (r: PcscResult<Option<CardInfo>>)
        ensures
            match progress {
                CardReadProgress::EstablishFailed(e) => r == Err::<Option<CardInfo>, PcscError>(
                    PcscError::EstablishContext(e),
                ),
                CardReadProgress::InvalidName(why) => r == Err::<Option<CardInfo>, PcscError>(
                    PcscError::InvalidReaderName(why),
                ),
                CardReadProgress::ConnectFailed(e) => if e.kind == NativeErrorKind::NoSmartcard {
                    r matches Ok(None)
                } else {
                    r == Err::<Option<CardInfo>, PcscError>(PcscError::CardStatus(e))
                },
                CardReadProgress::StatusFailed(e) => r == Err::<Option<CardInfo>, PcscError>(
                    PcscError::CardStatus(e),
                ),
                CardReadProgress::Transmitted { atr, uid_response } => match uid_response {
                    Err(e) => r == Err::<Option<CardInfo>, PcscError>(PcscError::TransmitApdu(e)),
                    Ok(bytes) => match uid_of_response(Ok(bytes@)) {
                        Err(e) => r == Err::<Option<CardInfo>, PcscError>(e),
                        Ok(uid) => r matches Ok(Some(info)) && info.atr == atr && info.uid@ == uid
                            && info.kind == kind_of_atr(atr@) && info.capacity == capacity_of(
                            kind_of_atr(atr@),
                        ),
                    },
                },
            },
    {
        match progress {
            CardReadProgress::EstablishFailed(e) => Err(PcscError::EstablishContext(e)),
            CardReadProgress::InvalidName(why) => Err(PcscError::InvalidReaderName(why)),
            CardReadProgress::ConnectFailed(e) => {
                if e.kind == NativeErrorKind::NoSmartcard {
                    Ok(None)
                } else {
                    Err(PcscError::CardStatus(e))
                }
            },
            CardReadProgress::StatusFailed(e) => Err(PcscError::CardStatus(e)),
            CardReadProgress::Transmitted { atr, uid_response } => {
                let uid = match Self::read_card_uid(uid_response) {
                    Ok(uid) => uid,
                    Err(e) => {
                        return Err(e);
                    },
                };
                Ok(Some(Self::card_info_from(atr, uid)))
            },
        }
    }
}

/// The UID comes back from an answer that holds it followed by the success status word.
pub proof fn lemma_uid_round_trip(uid: Seq<u8>)
    requires
        uid.len() > 0,
    ensures
        uid_of_response(Ok(uid + seq![0x90u8, 0x00u8])) == Ok::<Seq<u8>, PcscError>(uid),
{
    let bytes = uid + seq![0x90u8, 0x00u8];
    assert(bytes.subrange(0, bytes.len() - 2) =~= uid);
}

/// A card whose ATR names no family is taken for a MIFARE Classic 1K, with its layout.
pub proof fn lemma_unparsed_atr_defaults(atr: Seq<u8>)
    requires
        parsed_atr(atr) is None,
    ensures
        kind_of_atr(atr) == CardKind::MifareClassic1K,
        capacity_of(kind_of_atr(atr)) matches Some(c) && c.bytes == 1024,
{
}

/// A UID is only taken from an answer that ends with the success status word 90 00 and holds
/// at least one byte before it; the UID is exactly the bytes before the status word.
pub proof fn lemma_uid_needs_success(bytes: Seq<u8>)
    ensures
        uid_of_response(Ok(bytes)) matches Ok(uid) ==> {
            &&& bytes.len() >= 3
            &&& bytes[bytes.len() - 2] == 0x90
            &&& bytes[bytes.len() - 1] == 0x00
            &&& uid == bytes.subrange(0, bytes.len() - 2)
            &&& uid.len() > 0
        },
        bytes.len() >= 2 && (bytes[bytes.len() - 2] != 0x90 || bytes[bytes.len() - 1] != 0x00)
            ==> uid_of_response(Ok(bytes)) == Err::<Seq<u8>, PcscError>(PcscError::InvalidApduResponse),
{
}

} // verus!
