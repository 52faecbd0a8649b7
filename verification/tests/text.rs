use oxikcde::text::{contains_text, number_to_string, parse_number, split_text, split_words};

const SAMPLES: [&str; 40] = [
    "",
    "0",
    "7",
    "07",
    "007",
    "12",
    "65535",
    "65536",
    "065535",
    "0000000000000000000000065535",
    "99999",
    "100000",
    "4294967296",
    "18446744073709551616",
    "99999999999999999999999999999999",
    "+",
    "+5",
    "+05",
    "++5",
    "+-5",
    "-5",
    "-0",
    "5+",
    " 5",
    "5 ",
    "5\n",
    "1_000",
    "0x10",
    "1e3",
    "1.0",
    "a",
    "١٢",
    "１２",
    "12a",
    "a12",
    "+65535",
    "+65536",
    "6553 5",
    "٣",
    "+ 5",
];

#[test]
fn parse_number_reads_as_std_does() {
    for text in SAMPLES {
        assert_eq!(parse_number(text), text.parse::<u16>().ok(), "{:?}", text);
    }
}

#[test]
fn parse_number_reads_every_number_back() {
    for number in 0..=u16::MAX {
        assert_eq!(parse_number(&number_to_string(number)), Some(number));
    }
}

#[test]
fn parse_number_exact_values() {
    assert_eq!(parse_number("614"), Some(614));
    assert_eq!(parse_number("+614"), Some(614));
    assert_eq!(parse_number("0614"), Some(614));
    assert_eq!(parse_number("65535"), Some(65535));
    assert_eq!(parse_number("65536"), None);
    assert_eq!(parse_number(""), None);
    assert_eq!(parse_number("+"), None);
    assert_eq!(parse_number("six"), None);
}

#[test]
fn number_to_string_writes_as_std_does() {
    for number in 0..=u16::MAX {
        assert_eq!(number_to_string(number), format!("{}", number));
    }
}

#[test]
fn number_to_string_exact_values() {
    assert_eq!(number_to_string(0), "0");
    assert_eq!(number_to_string(9), "9");
    assert_eq!(number_to_string(10), "10");
    assert_eq!(number_to_string(305), "305");
    assert_eq!(number_to_string(65535), "65535");
}

const TEXTS: [&str; 22] = [
    "",
    "-",
    "--",
    "a",
    "a-b",
    "C-S-a",
    "C--",
    "-a",
    "a-",
    "a--b",
    " ",
    "  a  b  ",
    "switch_to_comic next",
    "switch_to_comic\tnext\n",
    "a\u{a0}b",
    "a\u{2003}b",
    "a\u{85}b\u{3000}c",
    "a\u{200b}b",
    "é-è",
    "\n",
    "red bold  italic",
    " - ",
];

#[test]
fn split_text_splits_as_std_does() {
    for text in TEXTS {
        let expected: Vec<String> = text.split('-').map(String::from).collect();
        assert_eq!(split_text(text, '-'), expected, "{:?}", text);
    }
}

#[test]
fn split_text_exact_values() {
    assert_eq!(split_text("", '-'), vec![String::new()]);
    assert_eq!(split_text("C-S-a", '-'), vec!["C", "S", "a"]);
    assert_eq!(split_text("a--b", '-'), vec!["a", "", "b"]);
    assert_eq!(split_text("a-", '-'), vec!["a", ""]);
    assert_eq!(split_text("a b", ' '), vec!["a", "b"]);
}

#[test]
fn split_words_splits_as_std_does() {
    for text in TEXTS {
        let expected: Vec<String> = text.split_whitespace().map(String::from).collect();
        assert_eq!(split_words(text), expected, "{:?}", text);
    }
}

#[test]
fn split_words_exact_values() {
    assert_eq!(split_words(""), Vec::<String>::new());
    assert_eq!(split_words("   "), Vec::<String>::new());
    assert_eq!(split_words("  a  b  "), vec!["a", "b"]);
    assert_eq!(split_words("red bold\titalic\n"), vec!["red", "bold", "italic"]);
}

#[test]
fn contains_text_looks_at_the_given_places_only() {
    let names: Vec<String> = vec!["C".into(), "S".into(), "a".into()];
    assert!(contains_text(&names, 0, 3, "C"));
    assert!(contains_text(&names, 0, 3, "a"));
    assert!(!contains_text(&names, 0, 2, "a"));
    assert!(!contains_text(&names, 1, 3, "C"));
    assert!(!contains_text(&names, 0, 3, "A"));
    assert!(!contains_text(&names, 2, 2, "a"));
    assert!(!contains_text(&names, 0, 0, "C"));
}
