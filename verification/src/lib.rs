//! Deck codes of Marvel Snap: a named, ordered list of card identifiers,
//! written as a compact JSON record and armoured as unpadded standard Base64.
//!
//! [`DeckList::into_code`] produces the code that the game accepts on paste;
//! [`DeckList::from_code`] reads one back. Card identifiers are opaque here:
//! nothing checks them against the game's catalogue.

pub mod armor;
pub mod codec;
pub mod deck;
pub mod error;
pub mod json;
pub mod theorems;

pub use deck::{Card, DeckList, DeckView};
pub use error::DeckListError;
