use crate::armor::{all_base64_symbols, armor, base64_bytes, unarmor};
use crate::codec::{code_of, document_of, frame_document, read_record, reading_of, record_of, texts, Reading};
use crate::error::DeckListError;
use crate::json::{json_quoted, parse, quote};
use serde_json::Value;
use vstd::prelude::*;
use vstd::string::StringSliceAdditionalSpecFns;
use vstd::utf8::encode_utf8;

verus! {

/// One card of a deck.
#[derive(Debug, Clone, PartialEq)]
pub struct Card {
    name: String,
}

/// A deck as the game shares it: a display name and the cards in order.
///
/// The order of the cards is kept as given, repeated cards included.
#[derive(Debug, Clone, PartialEq)]
pub struct DeckList {
    name: String,
    cards: Vec<Card>,
}

/// What a [`DeckList`] holds: its name, and its cards' identifiers in order.
pub struct DeckView {
    pub name: Seq<char>,
    pub cards: Seq<Seq<char>>,
}

impl View for Card {
    type V = Seq<char>;

    closed spec fn view(&self) -> Seq<char> {
        self.name@
    }
}

impl View for DeckList {
    type V = DeckView;

    closed spec fn view(&self) -> DeckView {
        DeckView { name: self.name@, cards: Seq::new(self.cards@.len(), |i: int| self.cards@[i]@) }
    }
}

impl Default for Card {
    fn default() -> (card: Self)
        ensures
            card@ == Seq::<char>::empty(),
    {
        Card { name: String::new() }
    }
}

impl Default for DeckList {
    fn default() -> (deck: Self)
        ensures
            deck@.name == Seq::<char>::empty(),
            deck@.cards == Seq::<Seq<char>>::empty(),
    {
        DeckList::new()
    }
}

impl DeckList {
    /// An empty deck: no name, no cards.
    pub fn new() -> (deck: Self)
        ensures
            deck@.name == Seq::<char>::empty(),
            deck@.cards == Seq::<Seq<char>>::empty(),
    {
        let deck = DeckList { name: String::new(), cards: Vec::new() };
        assert(deck@.cards =~= Seq::<Seq<char>>::empty());
        deck
    }

    /// Replaces the deck's name, as the player sees it in the game.
    pub fn set_name(&mut self, name: String)
        ensures
            final(self)@.name == name@,
            final(self)@.cards == old(self)@.cards,
    {
        self.name = name;
    }

    /// The deck's name.
    pub fn name(&self) -> (name: &str)
        ensures
            name@ == self@.name,
    {
        self.name.as_str()
    }

    /// Replaces all the cards by those with the given identifiers, in the
    /// given order.
    pub fn set_cards(&mut self, cards: &[&str])
        ensures
            final(self)@.name == old(self)@.name,
            final(self)@.cards.len() == cards@.len(),
            forall|i: int| 0 <= i < cards@.len() ==> final(self)@.cards[i] == cards@[i]@,
    {
        let mut list: Vec<Card> = Vec::new();
        let mut i: usize = 0;
        while i < cards.len()
            invariant
                i <= cards.len(),
                list@.len() == i,
                forall|j: int| 0 <= j < i ==> (#[trigger] list@[j])@ == cards@[j]@,
            decreases cards.len() - i,
        {
            list.push(Card { name: cards[i].to_owned() });
            i += 1;
        }
        self.cards = list;
    }

    /// The cards' identifiers, in the deck's order.
    pub fn cards(&self) -> (names: Vec<String>)
        ensures
            texts(names@) == self@.cards,
    {
        let mut names: Vec<String> = Vec::new();
        let mut i: usize = 0;
        while i < self.cards.len()
            invariant
                i <= self.cards.len(),
                names@.len() == i,
                forall|j: int| 0 <= j < i ==> (#[trigger] names@[j])@ == self.cards@[j]@,
            decreases self.cards.len() - i,
        {
            names.push(self.cards[i].name.clone());
            i += 1;
        }
        assert(texts(names@) =~= self@.cards);
        names
    }

    /// The deck with the given name and card identifiers.
    pub(crate) fn from_parts(name: String, cards: Vec<String>) -> (deck: Self)
        ensures
            deck@ == (DeckView { name: name@, cards: texts(cards@) }),
    {
        let ghost wanted = texts(cards@);
        let mut list: Vec<Card> = Vec::new();
        let mut cards = cards;
        let mut i: usize = 0;
        while i < cards.len()
            invariant
                i <= cards.len(),
                list@.len() == i,
                texts(cards@) == wanted,
                forall|j: int| 0 <= j < i ==> (#[trigger] list@[j])@ == wanted[j],
            decreases cards.len() - i,
        {
            list.push(Card { name: cards[i].clone() });
            i += 1;
        }
        let deck = DeckList { name, cards: list };
        assert(deck@.cards =~= wanted);
        deck
    }

    /// Reads a deck out of a parsed JSON document: the second stage of
    /// [`Self::from_code`]. A document that is no deck record is
    /// [`DeckListError::InvalidDeckInput`].
    pub fn from_json(document: &Value) -> (r: Result<Self, DeckListError>)
        ensures
            match record_of(*document) {
                Some(deck) => r matches Ok(read) && read@ == deck,
                None => r matches Err(DeckListError::InvalidDeckInput),
            },
    {
        match read_record(document) {
            Some((name, cards)) => Ok(DeckList::from_parts(name, cards)),
            None => Err(DeckListError::InvalidDeckInput),
        }
    }

    /// Reads a code copied from the game.
    ///
    /// The code is taken as unpadded standard Base64, and what it holds as a
    /// JSON record. Text that is no such Base64 is
    /// [`DeckListError::DecodingError`], and carries the decoder's finding;
    /// in particular any text with a character outside the alphabet, the
    /// padding sign included. Base64 that holds no deck record is
    /// [`DeckListError::InvalidDeckInput`].
    pub fn from_code(code: &str) -> (r: Result<Self, DeckListError>)
        ensures
            match reading_of(code@) {
                Reading::NotBase64 => r matches Err(DeckListError::DecodingError(_)),
                Reading::NotADeck => r matches Err(DeckListError::InvalidDeckInput),
                Reading::Deck(deck) => r matches Ok(read) && read@ == deck,
            },
            !all_base64_symbols(code@) ==> r matches Err(DeckListError::DecodingError(_)),
    {
        let bytes = match unarmor(code) {
            Ok(bytes) => bytes,
            Err(finding) => {
                return Err(DeckListError::DecodingError(finding));
            },
        };
        match parse(bytes.as_slice()) {
            Ok(document) => DeckList::from_json(&document),
            Err(_) => Err(DeckListError::InvalidDeckInput),
        }
    }

    /// Writes the deck as a code to paste into the game.
    ///
    /// The code is the deck's JSON record, armoured; the same deck always
    /// gives the same code. It is made of alphabet symbols alone, with no
    /// padding and no line breaks, and the first stage of reading it back
    /// gives the record's bytes again. The deck is not held to the game's rules: a
    /// complete deck has a name and twelve cards that exist.
    ///
    /// [`DeckListError::EncodingError`] is the answer where a string cannot
    /// be written as JSON, and where the record is too long to armour; a
    /// deck built through this type's methods should meet neither.
    pub fn into_code(&self) -> (r: Result<String, DeckListError>)
        ensures
            match code_of(self@) {
                Some(code) => r matches Ok(written) && written@ == code,
                None => r matches Err(DeckListError::EncodingError),
            },
            r matches Ok(written) ==> all_base64_symbols(written@),
            r matches Ok(written) ==> base64_bytes(written@) == Some(
                encode_utf8(document_of(self@).unwrap()),
            ),
    {
        let name_quoted = match quote(self.name.as_str()) {
            Ok(quoted) => quoted,
            Err(_) => {
                return Err(DeckListError::EncodingError);
            },
        };
        let mut cards_quoted: Vec<String> = Vec::new();
        let mut i: usize = 0;
        while i < self.cards.len()
            invariant
                i <= self.cards.len(),
                cards_quoted@.len() == i,
                forall|j: int|
                    0 <= j < i ==> json_quoted(#[trigger] self@.cards[j]) == Some(
                        cards_quoted@[j]@,
                    ),
            decreases self.cards.len() - i,
        {
            match quote(self.cards[i].name.as_str()) {
                Ok(quoted) => {
                    cards_quoted.push(quoted);
                },
                Err(_) => {
                    assert(json_quoted(self@.cards[i as int]) is None);
                    return Err(DeckListError::EncodingError);
                },
            }
            i += 1;
        }
        assert(crate::codec::quoted_cards(self@.cards).unwrap() =~= texts(cards_quoted@));
        let document = frame_document(name_quoted.as_str(), &cards_quoted);
        let bytes = document.as_str().as_bytes();
        if bytes.len() > usize::MAX / 2 {
            return Err(DeckListError::EncodingError);
        }
        Ok(armor(bytes))
    }
}

} // verus!
