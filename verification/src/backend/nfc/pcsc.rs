use vstd::prelude::*;

use crate::backend::pcsc::error::NativeError;
use crate::text::{push_str, utf8_lossy, utf8_lossy_string};

verus! {

pub type PcscResult<T> = Result<T, PcscError>;

/// A card reader as the PC/SC layer names it.
#[derive(Debug)]
pub struct PcscReader {
    pub name: String,
}

/// The identifiers read from a card.
#[derive(Debug)]
pub struct PcscCard {
    pub uid: Vec<u8>,
    pub atr: Vec<u8>,
}

/// A failure of the PC/SC layer.
#[derive(Debug)]
pub enum PcscError {
    Native(NativeError),
}

impl PcscError {
    /// The text that describes the error to a user.
    pub open spec fn text(&self) -> Seq<char> {
        match self {
            PcscError::Native(e) => "PC/SC error: "@ + e.message@,
        }
    }

    /// The text that describes the error to a user.
    pub fn message(&self) -> (r: String)
        ensures
            r@ == self.text(),
    {
        let mut s = String::new();
        match self {
            PcscError::Native(e) => {
                push_str(&mut s, "PC/SC error: ");
                push_str(&mut s, e.message.as_str());
            },
        }
        assert(s@ =~= self.text());
        s
    }

    /// The error for a failure of the PC/SC layer.
    pub fn from_native(value: NativeError) -> (r: Self)
        ensures
            r == PcscError::Native(value),
    {
        PcscError::Native(value)
    }
}

/// A reader named by the bytes of its name, decoded leniently.
pub fn map_readers(name: &[u8]) -> (r: PcscReader)
    ensures
        r.name@ == utf8_lossy(name@),
{
    PcscReader { name: utf8_lossy_string(name) }
}

/// The readers of a listing, or the failure of the layer.
pub fn list_readers_from(listing: Result<Vec<Vec<u8>>, NativeError>) -> (r: PcscResult<
    Vec<PcscReader>,
>)
    ensures
        match listing {
            Ok(names) => r matches Ok(readers) && readers.len() == names.len() && forall|i: int|
                0 <= i < names.len() ==> #[trigger] readers[i].name@ == utf8_lossy(names[i]@),
            Err(e) => r matches Err(PcscError::Native(x)) && x == e,
        },
{
    match listing {
        Ok(names) => {
            let mut readers: Vec<PcscReader> = Vec::new();
            let mut i: usize = 0;
            while i < names.len()
                invariant
                    i <= names.len(),
                    readers.len() == i,
                    forall|j: int|
                        0 <= j < i ==> #[trigger] readers[j].name@ == utf8_lossy(names[j]@),
                decreases names.len() - i,
            {
                readers.push(map_readers(names[i].as_slice()));
                i += 1;
            }
            Ok(readers)
        },
        Err(e) => Err(PcscError::from_native(e)),
    }
}

} // verus!
