use otcg::card::RawCard;
use otcg::library::{Entry, Library};
use otcg::library_file::{member_text, sections_of_text, FileFormat, SectionsError};

fn names(members: &[(String, String)]) -> Vec<&str> {
    members.iter().map(|(n, _)| n.as_str()).collect()
}

#[test]
fn formats_by_extension() {
    assert_eq!(FileFormat::from_extension("json"), FileFormat::Json);
    assert_eq!(FileFormat::from_extension("toml"), FileFormat::Toml);
    assert_eq!(FileFormat::from_extension("txt"), FileFormat::Other);
    assert_eq!(FileFormat::from_extension("JSON"), FileFormat::Other);
}

#[test]
fn json_file_sections() {
    let text = r#"{"cards": {"Bolt": {"name": "Bolt", "power": 1}, "Wall": {"name": "Wall"}}, "chips": {"Hero": {"health": 15}}}"#;
    let s = sections_of_text(text, FileFormat::Json).unwrap();
    assert_eq!(names(&s.cards), vec!["Bolt", "Wall"]);
    assert_eq!(s.cards[0].1, r#"{"name":"Bolt","power":1}"#);
    assert_eq!(s.cards[1].1, r#"{"name":"Wall"}"#);
    assert_eq!(names(&s.chips), vec!["Hero"]);
    assert_eq!(s.chips[0].1, r#"{"health":15}"#);
}

#[test]
fn toml_file_sections() {
    let text = "[cards.Bolt]\nname = \"Bolt\"\npower = 1\n\n[chips.Hero]\nhealth = 15\n";
    let s = sections_of_text(text, FileFormat::Toml).unwrap();
    assert_eq!(names(&s.cards), vec!["Bolt"]);
    assert_eq!(s.cards[0].1, r#"{"name":"Bolt","power":1}"#);
    assert_eq!(names(&s.chips), vec!["Hero"]);
    assert_eq!(s.chips[0].1, r#"{"health":15}"#);
}

#[test]
fn missing_sections_are_empty() {
    let s = sections_of_text(r#"{"cards": {"Bolt": {}}}"#, FileFormat::Json).unwrap();
    assert_eq!(names(&s.cards), vec!["Bolt"]);
    assert!(s.chips.is_empty());
    let s = sections_of_text("[1, 2]", FileFormat::Json).unwrap();
    assert!(s.cards.is_empty() && s.chips.is_empty());
    let s = sections_of_text("title = \"lib\"\n", FileFormat::Toml).unwrap();
    assert!(s.cards.is_empty() && s.chips.is_empty());
}

#[test]
fn other_formats_hold_nothing() {
    let s = sections_of_text("not a library at all {", FileFormat::Other).unwrap();
    assert!(s.cards.is_empty() && s.chips.is_empty());
}

#[test]
fn unparsable_files_are_errors() {
    assert!(matches!(sections_of_text("{\"cards\": ", FileFormat::Json), Err(SectionsError::Unparsable)));
    assert!(matches!(sections_of_text("[cards\nname = ", FileFormat::Toml), Err(SectionsError::Unparsable)));
}

#[test]
fn sections_that_are_not_objects_are_errors() {
    assert!(matches!(sections_of_text(r#"{"cards": 3}"#, FileFormat::Json), Err(SectionsError::NotAnObject)));
    assert!(matches!(sections_of_text(r#"{"cards": {}, "chips": []}"#, FileFormat::Json), Err(SectionsError::NotAnObject)));
    assert!(matches!(sections_of_text("cards = \"x\"\n", FileFormat::Toml), Err(SectionsError::NotAnObject)));
}

#[test]
fn member_text_takes_the_last_of_a_name() {
    let members = vec![
        ("cards".to_string(), "1".to_string()),
        ("chips".to_string(), "2".to_string()),
        ("cards".to_string(), "3".to_string()),
    ];
    assert_eq!(member_text(&members, "cards"), Some("3".to_string()));
    assert_eq!(member_text(&members, "chips"), Some("2".to_string()));
    assert_eq!(member_text(&members, "boards"), None);
}

fn raw(name: &str, power: i32) -> RawCard {
    RawCard {
        card_type: "unit".to_string(),
        name: name.to_string(),
        cost: 1,
        color_cost: vec![],
        power,
        health: 3,
        description: String::new(),
        tags: vec![],
        colors: vec![],
        rarity: String::new(),
        art_url: String::new(),
        card_picture_url: String::new(),
        nature: "main".to_string(),
        back_side_url: "back".to_string(),
        set: String::new(),
        set_index: String::new(),
        language: "en".to_string(),
    }
}

#[test]
fn later_entries_replace_earlier_ones() {
    let cards = vec![
        ("Bolt".to_string(), Entry { json: "a".to_string(), read: Ok(raw("Bolt", 1)) }),
        ("Wall".to_string(), Entry { json: "b".to_string(), read: Ok(raw("Wall", 0)) }),
        ("Bolt".to_string(), Entry { json: "c".to_string(), read: Ok(raw("Bolt", 7)) }),
    ];
    let lib = Library::from_sections(cards, vec![]);
    assert_eq!(lib.get_raw_card_by_name("Bolt").unwrap().power, 7);
    assert_eq!(lib.get_raw_card_by_name("Wall").unwrap().power, 0);
    assert_eq!(lib.cards_json().len(), 2);
    assert!(lib.get_raw_chip_by_name("Hero").is_err());
}
