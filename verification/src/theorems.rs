//! What holds of codes and records in general, proved from the definitions
//! in [`crate::codec`].

use crate::armor::{all_base64_symbols, base64_bytes, is_base64_symbol};
use crate::codec::{card_of, cards_of, code_of, document_of, reading_of, record_of, Reading};
use crate::deck::{DeckList, DeckView};
use crate::json::{json_items, json_member, json_parsed, json_string};
use serde_json::Value;
use vstd::prelude::*;
use vstd::utf8::encode_utf8;

verus! {

/// Two decks with the same name and the same cards in the same order have
/// the same code: nothing but the deck's content goes into it.
pub proof fn same_deck_same_code(first: DeckList, second: DeckList)
    requires
        first@ == second@,
    ensures
        code_of(first@) == code_of(second@),
{
}

/// A deck read out of a document has one card for each entry of the
/// document's card array, in the array's order, repeated entries included.
pub proof fn record_keeps_order(document: Value, entries: Seq<Value>, deck: DeckView)
    requires
        record_of(document) == Some(deck),
        json_member(document, "Cards"@) matches Some(cards) && json_items(cards) == Some(entries),
    ensures
        deck.cards.len() == entries.len(),
        forall|i: int| 0 <= i < entries.len() ==> card_of(#[trigger] entries[i]) == Some(deck.cards[i]),
{
    assert(cards_of(entries) == Some(deck.cards));
}

/// Text with a padding sign in it is not made of alphabet symbols alone, so
/// reading it ends at the first stage.
pub proof fn padded_code_is_outside_alphabet(code: Seq<char>, at: int)
    requires
        0 <= at < code.len(),
        code[at] == '=',
    ensures
        !all_base64_symbols(code),
{
    assert(!is_base64_symbol(code[at]));
}

/// A code that unarmours to a deck's record passes the first stage of
/// reading, and what reading it gives is decided by the record's bytes
/// alone.
pub proof fn armoured_record_passes_first_stage(deck: DeckView, code: Seq<char>)
    requires
        document_of(deck) matches Some(document) && base64_bytes(code) == Some(
            encode_utf8(document),
        ),
    ensures
        !(reading_of(code) is NotBase64),
        reading_of(code) == (match json_parsed(encode_utf8(document_of(deck).unwrap())) {
            Some(parsed) => match record_of(parsed) {
                Some(read) => Reading::Deck(read),
                None => Reading::NotADeck,
            },
            None => Reading::NotADeck,
        }),
{
}

/// A document is no deck record if it has no `Name` or no `Cards`, if its
/// `Name` is no string or its `Cards` no array, or if one entry of the array
/// has no string under `CardDefId`.
pub proof fn misshapen_document_is_no_deck(document: Value)
    requires
        ({
            ||| json_member(document, "Name"@) is None
            ||| json_member(document, "Cards"@) is None
            ||| json_string(json_member(document, "Name"@).unwrap()) is None
            ||| json_items(json_member(document, "Cards"@).unwrap()) is None
            ||| exists|i: int|
                0 <= i < json_items(json_member(document, "Cards"@).unwrap()).unwrap().len()
                    && card_of(
                    #[trigger] json_items(json_member(document, "Cards"@).unwrap()).unwrap()[i],
                ) is None
        }),
    ensures
        record_of(document) is None,
{
}

/// Base64 that holds something other than a deck record reads as no deck,
/// never as no Base64: text that parses as no JSON at all, and JSON that is
/// no record.
pub proof fn base64_without_record_is_no_deck(code: Seq<char>)
    requires
        base64_bytes(code) matches Some(bytes) && (json_parsed(bytes) matches Some(document)
            ==> record_of(document) is None),
    ensures
        reading_of(code) is NotADeck,
{
}

} // verus!
