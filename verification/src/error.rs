use vstd::prelude::*;

verus! {

/// `base64::DecodeError`, carried through unopened: which byte of a code was
/// at fault, and why.
#[verifier::external_type_specification]
#[verifier::external_body]
pub struct ExDecodeError(base64::DecodeError);

/// Why a deck could not be written as a code, or a code read as a deck.
#[derive(Debug)]
pub enum DeckListError {
    /// The deck could not be written as text. This should not occur for a
    /// deck built through [`crate::DeckList`]'s own methods.
    EncodingError,
    /// The code is not unpadded standard Base64. Common with a bad paste.
    DecodingError(base64::DecodeError),
    /// The code is Base64, but what it holds is not a deck record.
    InvalidDeckInput,
}

impl DeckListError {
    /// The message shown for this error.
    pub fn message(&self) -> (r: String)
        ensures
            r@ == self.message_text(),
    {
        match self {
            DeckListError::EncodingError => "Failed to encode bytes".to_owned(),
            DeckListError::DecodingError(_) => "Failed to decode data as base64".to_owned(),
            DeckListError::InvalidDeckInput => "Invalid data".to_owned(),
        }
    }

    /// The text of [`Self::message`].
    pub open spec fn message_text(&self) -> Seq<char> {
        match self {
            DeckListError::EncodingError => "Failed to encode bytes"@,
            DeckListError::DecodingError(_) => "Failed to decode data as base64"@,
            DeckListError::InvalidDeckInput => "Invalid data"@,
        }
    }
}

} // verus!
