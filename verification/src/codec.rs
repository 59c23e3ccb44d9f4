//! What a deck's code is, stated over plain sequences, and the two halves of
//! the work that need no outside help: framing a record from quoted strings,
//! and reading a record out of a parsed document.

use crate::armor::{armorable, base64_bytes, base64_text};
use crate::deck::DeckView;
use crate::json::{items_of, json_items, json_member, json_parsed, json_quoted, json_string, member, string_of};
use serde_json::Value;
use vstd::prelude::*;
use vstd::string::StringExecFns;
use vstd::utf8::encode_utf8;

verus! {

/// The texts of a sequence of strings, in order.
pub open spec fn texts(strings: Seq<String>) -> Seq<Seq<char>> {
    Seq::new(strings.len(), |i: int| strings[i]@)
}

/// One element of the card array: an object with the single key `CardDefId`.
pub open spec fn card_entry(quoted: Seq<char>) -> Seq<char> {
    "{\"CardDefId\":"@ + quoted + "}"@
}

/// The elements of the card array, separated by commas, with no whitespace.
pub open spec fn card_entries(quoted: Seq<Seq<char>>) -> Seq<char>
    decreases quoted.len(),
{
    if quoted.len() == 0 {
        Seq::empty()
    } else if quoted.len() == 1 {
        card_entry(quoted[0])
    } else {
        card_entries(quoted.drop_last()) + ","@ + card_entry(quoted.last())
    }
}

/// The record: `Name` first, then `Cards`, with no whitespace. The name and
/// the identifiers are given as JSON string literals.
pub open spec fn framed(name_quoted: Seq<char>, cards_quoted: Seq<Seq<char>>) -> Seq<char> {
    "{\"Name\":"@ + name_quoted + ",\"Cards\":["@ + card_entries(cards_quoted) + "]}"@
}

/// The identifiers as JSON string literals, if each of them can be quoted.
pub open spec fn quoted_cards(cards: Seq<Seq<char>>) -> Option<Seq<Seq<char>>> {
    if forall|i: int| 0 <= i < cards.len() ==> json_quoted(#[trigger] cards[i]) is Some {
        Some(Seq::new(cards.len(), |i: int| json_quoted(cards[i]).unwrap()))
    } else {
        None
    }
}

/// The JSON record of a deck, if its name and identifiers can be quoted.
pub open spec fn document_of(deck: DeckView) -> Option<Seq<char>> {
    match (json_quoted(deck.name), quoted_cards(deck.cards)) {
        (Some(name), Some(cards)) => Some(framed(name, cards)),
        _ => None,
    }
}

/// The code of a deck: its record in UTF-8, armoured. `None` where there is
/// no record, or one too long to armour.
pub open spec fn code_of(deck: DeckView) -> Option<Seq<char>> {
    match document_of(deck) {
        Some(document) => if armorable(encode_utf8(document).len()) {
            Some(base64_text(encode_utf8(document)))
        } else {
            None
        },
        None => None,
    }
}

/// The identifier that a card entry holds: the string under `CardDefId`.
pub open spec fn card_of(entry: Value) -> Option<Seq<char>> {
    match json_member(entry, "CardDefId"@) {
        Some(id) => json_string(id),
        None => None,
    }
}

/// The identifiers of the entries, in the entries' order, if every entry
/// holds one.
pub open spec fn cards_of(entries: Seq<Value>) -> Option<Seq<Seq<char>>> {
    if forall|i: int| 0 <= i < entries.len() ==> card_of(#[trigger] entries[i]) is Some {
        Some(Seq::new(entries.len(), |i: int| card_of(entries[i]).unwrap()))
    } else {
        None
    }
}

/// The deck that a parsed document holds: a string under `Name` and an array
/// of card entries under `Cards`. Other members are not looked at.
pub open spec fn record_of(document: Value) -> Option<DeckView> {
    match (json_member(document, "Name"@), json_member(document, "Cards"@)) {
        (Some(name), Some(cards)) => match (json_string(name), json_items(cards)) {
            (Some(name), Some(entries)) => match cards_of(entries) {
                Some(cards) => Some(DeckView { name, cards }),
                None => None,
            },
            _ => None,
        },
        _ => None,
    }
}

/// How reading a code ends.
pub enum Reading {
    /// The code is not unpadded standard Base64.
    NotBase64,
    /// The code is Base64, but holds no deck record.
    NotADeck,
    /// The code holds this deck.
    Deck(DeckView),
}

/// What reading `code` gives: the two stages in order, the first failure
/// ending the work.
pub open spec fn reading_of(code: Seq<char>) -> Reading {
    match base64_bytes(code) {
        None => Reading::NotBase64,
        Some(bytes) => match json_parsed(bytes) {
            None => Reading::NotADeck,
            Some(document) => match record_of(document) {
                None => Reading::NotADeck,
                Some(deck) => Reading::Deck(deck),
            },
        },
    }
}

/// Writes the record of a deck from the JSON string literals of its name
/// and of its cards' identifiers.
pub fn frame_document(name_quoted: &str, cards_quoted: &Vec<String>) -> (document: String)
    ensures
        document@ == framed(name_quoted@, texts(cards_quoted@)),
{
    let ghost quoted = texts(cards_quoted@);
    let mut list = String::new();
    let mut i: usize = 0;
    while i < cards_quoted.len()
        invariant
            i <= cards_quoted.len(),
            quoted == texts(cards_quoted@),
            list@ == card_entries(quoted.take(i as int)),
        decreases cards_quoted.len() - i,
    {
        let ghost before = list@;
        if i > 0 {
            list.append(",");
        }
        list.append("{\"CardDefId\":");
        list.append(cards_quoted[i].as_str());
        list.append("}");
        proof {
            let next = quoted.take(i + 1);
            assert(next.drop_last() =~= quoted.take(i as int));
            assert(next.last() == cards_quoted@[i as int]@);
            if i > 0 {
                assert(list@ =~= before + ","@ + card_entry(next.last()));
            } else {
                assert(list@ =~= card_entry(next[0]));
            }
        }
        i += 1;
    }
    assert(quoted.take(i as int) =~= quoted);
    let mut document = String::from_str("{\"Name\":");
    document.append(name_quoted);
    document.append(",\"Cards\":[");
    document.append(list.as_str());
    document.append("]}");
    document
}

/// Reads the identifier out of one card entry.
pub fn read_card(entry: &Value) -> (r: Option<String>)
    ensures
        match r {
            Some(id) => card_of(*entry) == Some(id@),
            None => card_of(*entry) is None,
        },
{
    match member(entry, "CardDefId") {
        Some(id) => match string_of(id) {
            Some(text) => Some(text.to_owned()),
            None => None,
        },
        None => None,
    }
}

/// Reads the identifiers out of the card entries, in order; `None` as soon
/// as one entry holds none.
pub fn read_cards(entries: &Vec<Value>) -> (r: Option<Vec<String>>)
    ensures
        match r {
            Some(cards) => cards_of(entries@) == Some(texts(cards@)),
            None => cards_of(entries@) is None,
        },
{
    let mut cards: Vec<String> = Vec::new();
    let mut i: usize = 0;
    while i < entries.len()
        invariant
            i <= entries.len(),
            cards@.len() == i,
            forall|j: int| 0 <= j < i ==> card_of(#[trigger] entries@[j]) == Some(cards@[j]@),
        decreases entries.len() - i,
    {
        match read_card(&entries[i]) {
            Some(id) => {
                cards.push(id);
            },
            None => {
                return None;
            },
        }
        i += 1;
    }
    assert(cards_of(entries@).unwrap() =~= texts(cards@));
    Some(cards)
}

/// Reads a deck's name and card identifiers out of a parsed document.
pub fn read_record(document: &Value) -> (r: Option<(String, Vec<String>)>)
    ensures
        match r {
            Some((name, cards)) => record_of(*document) == Some(
                (DeckView { name: name@, cards: texts(cards@) }),
            ),
            None => record_of(*document) is None,
        },
{
    let name = match member(document, "Name") {
        Some(name) => name,
        None => {
            return None;
        },
    };
    let cards = match member(document, "Cards") {
        Some(cards) => cards,
        None => {
            return None;
        },
    };
    let name = match string_of(name) {
        Some(name) => name,
        None => {
            return None;
        },
    };
    let entries = match items_of(cards) {
        Some(entries) => entries,
        None => {
            return None;
        },
    };
    match read_cards(entries) {
        Some(cards) => Some((name.to_owned(), cards)),
        None => None,
    }
}

} // verus!
