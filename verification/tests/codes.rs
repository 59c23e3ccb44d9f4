use marvelsnapdeck::codec::{frame_document, read_card, read_cards, read_record};
use marvelsnapdeck::{DeckList, DeckListError};

const VALID_CODE: &str = "eyJOYW1lIjoiVGhhbm9zIiwiQ2FyZHMiOlt7IkNhcmREZWZJZCI6IkFudE1hbiJ9LHsiQ2FyZERlZklkIjoiQWdlbnQxMyJ9LHsiQ2FyZERlZklkIjoiUXVpbmpldCJ9LHsiQ2FyZERlZklkIjoiQW5nZWxhIn0seyJDYXJkRGVmSWQiOiJPa295ZSJ9LHsiQ2FyZERlZklkIjoiQXJtb3IifSx7IkNhcmREZWZJZCI6IkZhbGNvbiJ9LHsiQ2FyZERlZklkIjoiTXlzdGlxdWUifSx7IkNhcmREZWZJZCI6IkxvY2tqYXcifSx7IkNhcmREZWZJZCI6IkthWmFyIn0seyJDYXJkRGVmSWQiOiJEZXZpbERpbm9zYXVyIn0seyJDYXJkRGVmSWQiOiJUaGFub3MifV19";

const THANOS_CARDS: [&str; 12] = [
    "AntMan",
    "Agent13",
    "Quinjet",
    "Angela",
    "Okoye",
    "Armor",
    "Falcon",
    "Mystique",
    "Lockjaw",
    "KaZar",
    "DevilDinosaur",
    "Thanos",
];

fn owned(names: &[&str]) -> Vec<String> {
    names.iter().map(|name| name.to_string()).collect()
}

fn deck(name: &str, cards: &[&str]) -> DeckList {
    let mut list = DeckList::new();
    list.set_name(name.to_string());
    list.set_cards(cards);
    list
}

#[test]
fn decode_is_valid() {
    let list = DeckList::from_code(&VALID_CODE.to_string()).unwrap();
    assert_eq!(list.name(), "Thanos");
    assert_eq!(list.cards().len(), 12);
}

#[test]
fn decode_cards() {
    let list = DeckList::from_code(&VALID_CODE.to_string()).unwrap();
    let cards = list.cards();

    assert_eq!(cards.len(), 12);
    assert_eq!(cards[0], "AntMan");
}

#[test]
fn encode_cards() {
    let mut list = DeckList::new();
    list.set_name("Thanos".to_string());
    list.set_cards(&[
        "AntMan",
        "Agent13",
        "Quinjet",
        "Angela",
        "Okoye",
        "Armor",
        "Falcon",
        "Mystique",
        "Lockjaw",
        "KaZar",
        "DevilDinosaur",
        "Thanos",
    ]);
    let code = list.into_code().unwrap();
    assert_eq!(code, VALID_CODE.to_string());
}

#[test]
fn decode_keeps_every_card_in_order() {
    let list = DeckList::from_code(VALID_CODE).unwrap();
    assert_eq!(list.cards(), owned(&THANOS_CARDS));
}

#[test]
fn new_deck_is_empty() {
    let list = DeckList::new();
    assert_eq!(list.name(), "");
    assert!(list.cards().is_empty());
    assert_eq!(list, DeckList::default());
}

#[test]
fn set_name_replaces_the_name_only() {
    let mut list = deck("First", &["Hulk"]);
    list.set_name("Second".to_string());
    assert_eq!(list.name(), "Second");
    assert_eq!(list.cards(), owned(&["Hulk"]));
}

#[test]
fn set_cards_replaces_all_cards_in_order() {
    let mut list = deck("Deck", &["Hulk", "Thor"]);
    list.set_cards(&["Odin", "Hulk", "Odin"]);
    assert_eq!(list.name(), "Deck");
    assert_eq!(list.cards(), owned(&["Odin", "Hulk", "Odin"]));
    list.set_cards(&[]);
    assert!(list.cards().is_empty());
}

#[test]
fn empty_deck_round_trip() {
    let code = DeckList::new().into_code().unwrap();
    assert_eq!(code, "eyJOYW1lIjoiIiwiQ2FyZHMiOltdfQ");
    let read = DeckList::from_code(&code).unwrap();
    assert_eq!(read.name(), "");
    assert!(read.cards().is_empty());
    assert_eq!(read, DeckList::new());
}

#[test]
fn round_trip_gives_the_deck_back() {
    let list = deck("Thanos", &THANOS_CARDS);
    let read = DeckList::from_code(&list.into_code().unwrap()).unwrap();
    assert_eq!(read, list);
}

#[test]
fn round_trip_with_unicode_and_repeated_cards() {
    let list = deck("Ünï ☃", &["Hulk", "Hulk", "雪"]);
    let code = list.into_code().unwrap();
    assert_eq!(
        code,
        "eyJOYW1lIjoiw5xuw68g4piDIiwiQ2FyZHMiOlt7IkNhcmREZWZJZCI6Ikh1bGsifSx7IkNhcmREZWZJZCI6Ikh1bGsifSx7IkNhcmREZWZJZCI6IumbqiJ9XX0"
    );
    let read = DeckList::from_code(&code).unwrap();
    assert_eq!(read.name(), "Ünï ☃");
    assert_eq!(read.cards(), owned(&["Hulk", "Hulk", "雪"]));
}

#[test]
fn round_trip_with_characters_that_json_escapes() {
    let list = deck("a\"b\\c\nd\u{1}", &["tab\there", "\"", ""]);
    let code = list.into_code().unwrap();
    let read = DeckList::from_code(&code).unwrap();
    assert_eq!(read, list);
}

#[test]
fn escaped_name_is_written_as_json_writes_it() {
    let list = deck("a\"b\\c\nd\u{1}", &[]);
    assert_eq!(
        list.into_code().unwrap(),
        "eyJOYW1lIjoiYVwiYlxcY1xuZFx1MDAwMSIsIkNhcmRzIjpbXX0"
    );
}

#[test]
fn same_deck_gives_the_same_code() {
    let list = deck("Thanos", &THANOS_CARDS);
    let again = list.clone();
    assert_eq!(list.into_code().unwrap(), list.into_code().unwrap());
    assert_eq!(list.into_code().unwrap(), again.into_code().unwrap());
}

#[test]
fn card_order_changes_the_code() {
    let first = deck("Deck", &["Hulk", "Thor"]);
    let second = deck("Deck", &["Thor", "Hulk"]);
    assert_ne!(first.into_code().unwrap(), second.into_code().unwrap());
    let read = DeckList::from_code(&second.into_code().unwrap()).unwrap();
    assert_eq!(read.cards(), owned(&["Thor", "Hulk"]));
}

#[test]
fn character_outside_the_alphabet_is_a_decoding_error() {
    let result = DeckList::from_code("!!!!");
    assert!(matches!(
        result,
        Err(DeckListError::DecodingError(base64::DecodeError::InvalidByte(0, b'!')))
    ));
    assert!(matches!(
        DeckList::from_code("eyJOYW1l IjoiIiwiQ2FyZHMiOltdfQ"),
        Err(DeckListError::DecodingError(_))
    ));
    assert!(matches!(
        DeckList::from_code("eyJOYW1lIjoiIiwiQ2FyZHMiOltdfQ\n"),
        Err(DeckListError::DecodingError(_))
    ));
    assert!(matches!(DeckList::from_code("雪"), Err(DeckListError::DecodingError(_))));
    assert!(matches!(
        DeckList::from_code("eyJOYW1lIjoiIiwiQ2FyZHMiOltdfQ-_"),
        Err(DeckListError::DecodingError(_))
    ));
}

#[test]
fn padded_code_is_a_decoding_error() {
    assert!(matches!(
        DeckList::from_code("eyJOYW1lIjoiIiwiQ2FyZHMiOltdfQ=="),
        Err(DeckListError::DecodingError(_))
    ));
    assert!(matches!(DeckList::from_code("W10="), Err(DeckListError::DecodingError(_))));
    assert!(matches!(DeckList::from_code("="), Err(DeckListError::DecodingError(_))));
}

#[test]
fn truncated_code_is_a_decoding_error() {
    assert!(matches!(DeckList::from_code("e"), Err(DeckListError::DecodingError(_))));
    assert!(matches!(DeckList::from_code("eyJOY"), Err(DeckListError::DecodingError(_))));
}

#[test]
fn base64_of_something_else_is_invalid_input() {
    let codes = [
        "",
        "W10",
        "bm90IGpzb24",
        "IlRoYW5vcyI",
        "eyJOYW1lIjoieCJ9",
        "eyJDYXJkcyI6W3siQ2FyZERlZklkIjoiSHVsayJ9XX0",
        "eyJOYW1lIjoxLCJDYXJkcyI6W119",
        "eyJOYW1lIjoieCIsIkNhcmRzIjoieSJ9",
        "eyJOYW1lIjoieCIsIkNhcmRzIjpbeyJPdGhlciI6InkifV19",
        "eyJOYW1lIjoieCIsIkNhcmRzIjpbeyJDYXJkRGVmSWQiOjd9XX0",
        "eyJOYW1lIjoieCIsIkNhcmRzIjpbIkh1bGsiXX0",
    ];
    for code in codes {
        assert!(
            matches!(DeckList::from_code(code), Err(DeckListError::InvalidDeckInput)),
            "{}",
            code
        );
    }
}

#[test]
fn truncated_record_is_invalid_input() {
    assert!(matches!(
        DeckList::from_code(&VALID_CODE[..VALID_CODE.len() - 4]),
        Err(DeckListError::InvalidDeckInput)
    ));
}

#[test]
fn key_names_are_case_sensitive() {
    assert!(matches!(
        DeckList::from_code("eyJuYW1lIjoieCIsImNhcmRzIjpbXX0"),
        Err(DeckListError::InvalidDeckInput)
    ));
}

#[test]
fn unknown_keys_are_passed_over() {
    let read = DeckList::from_code("eyJOYW1lIjoieCIsIkNhcmRzIjpbXSwiRXh0cmEiOjF9").unwrap();
    assert_eq!(read.name(), "x");
    assert!(read.cards().is_empty());
}

#[test]
fn whitespace_and_key_order_do_not_matter_on_reading() {
    let read = DeckList::from_code(
        "IHsgIkNhcmRzIiA6IFsgeyAiQ2FyZERlZklkIiA6ICJIdWxrIiB9IF0gLCAiTmFtZSIgOiAiQmlnIiB9IA",
    )
    .unwrap();
    assert_eq!(read.name(), "Big");
    assert_eq!(read.cards(), owned(&["Hulk"]));
}

#[test]
fn error_messages() {
    assert_eq!(DeckListError::EncodingError.message(), "Failed to encode bytes");
    assert_eq!(DeckListError::InvalidDeckInput.message(), "Invalid data");
    let error = DeckList::from_code("*").unwrap_err();
    assert_eq!(error.message(), "Failed to decode data as base64");
}

#[test]
fn frame_document_writes_the_record() {
    assert_eq!(frame_document("\"\"", &vec![]), "{\"Name\":\"\",\"Cards\":[]}");
    assert_eq!(
        frame_document("\"T\"", &owned(&["\"a\""])),
        "{\"Name\":\"T\",\"Cards\":[{\"CardDefId\":\"a\"}]}"
    );
    assert_eq!(
        frame_document("\"T\"", &owned(&["\"a\"", "\"b\"", "\"a\""])),
        "{\"Name\":\"T\",\"Cards\":[{\"CardDefId\":\"a\"},{\"CardDefId\":\"b\"},{\"CardDefId\":\"a\"}]}"
    );
}

fn parsed(text: &str) -> serde_json::Value {
    serde_json::from_str(text).unwrap()
}

#[test]
fn from_json_reads_a_record() {
    let read = DeckList::from_json(&parsed(
        "{\"Name\":\"T\",\"Cards\":[{\"CardDefId\":\"a\"},{\"CardDefId\":\"b\"}]}",
    ))
    .unwrap();
    assert_eq!(read.name(), "T");
    assert_eq!(read.cards(), owned(&["a", "b"]));
}

#[test]
fn from_json_refuses_other_shapes() {
    for text in ["[]", "null", "7", "\"T\"", "{}", "{\"Name\":null,\"Cards\":[]}", "[\"T\",[]]"] {
        assert!(
            matches!(DeckList::from_json(&parsed(text)), Err(DeckListError::InvalidDeckInput)),
            "{}",
            text
        );
    }
}

#[test]
fn read_card_takes_the_string_under_the_key() {
    assert_eq!(read_card(&parsed("{\"CardDefId\":\"Hulk\"}")), Some("Hulk".to_string()));
    assert_eq!(read_card(&parsed("{\"CardDefId\":\"Hulk\",\"Cost\":6}")), Some("Hulk".to_string()));
    assert_eq!(read_card(&parsed("{\"carddefid\":\"Hulk\"}")), None);
    assert_eq!(read_card(&parsed("{\"CardDefId\":6}")), None);
    assert_eq!(read_card(&parsed("\"Hulk\"")), None);
}

#[test]
fn read_cards_stops_at_a_bad_entry() {
    let good = parsed("[{\"CardDefId\":\"a\"},{\"CardDefId\":\"b\"}]");
    assert_eq!(read_cards(good.as_array().unwrap()), Some(owned(&["a", "b"])));
    let bad = parsed("[{\"CardDefId\":\"a\"},{}]");
    assert_eq!(read_cards(bad.as_array().unwrap()), None);
    assert_eq!(read_cards(&Vec::new()), Some(Vec::new()));
}

#[test]
fn read_record_gives_name_and_cards() {
    let record = parsed("{\"Cards\":[{\"CardDefId\":\"a\"}],\"Name\":\"T\"}");
    assert_eq!(read_record(&record), Some(("T".to_string(), owned(&["a"]))));
    assert_eq!(read_record(&parsed("{\"Name\":\"T\"}")), None);
    assert_eq!(read_record(&parsed("{\"Name\":\"T\",\"Cards\":{}}")), None);
}

#[test]
fn codes_hold_alphabet_symbols_only() {
    for name in ["", "a", "ab", "abc", "abcd", "Ünï ☃", "\u{3fb}\u{3ff}?~"] {
        let code = deck(name, &["Hulk"]).into_code().unwrap();
        assert!(
            code.chars().all(|c| c.is_ascii_alphanumeric() || c == '+' || c == '/'),
            "{}",
            code
        );
        assert_eq!(DeckList::from_code(&code).unwrap().name(), name);
    }
}
