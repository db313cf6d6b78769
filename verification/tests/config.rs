use cargo_lints::document::{read_names, Document};
use cargo_lints::error::{LintsError, ParseError};
use cargo_lints::lints::{Lints, COMMENT, LINTS_FILE};
use cargo_lints::severity::Severity;
use std::path::PathBuf;

fn strings(names: &[&str]) -> Vec<String> {
    names.iter().map(|name| name.to_string()).collect()
}

fn list(names: &[&str]) -> Option<Vec<Option<String>>> {
    Some(names.iter().map(|name| Some(name.to_string())).collect())
}

fn path() -> PathBuf {
    PathBuf::from("project").join(LINTS_FILE)
}

fn load(text: &str) -> Result<Lints, LintsError> {
    Lints::from_config_with_path(path(), text)
}

#[test]
fn file_name_is_fixed() {
    assert_eq!(LINTS_FILE, "lints.toml");
}

#[test]
fn default_is_empty_and_has_no_file() {
    let lints = Lints::default();
    assert_eq!(lints.file, None);
    assert!(lints.deny.is_empty());
    assert!(lints.allow.is_empty());
    assert!(lints.warn.is_empty());
}

#[test]
fn missing_file_is_the_empty_configuration() {
    let lints = Lints::from_config(None).unwrap();
    assert_eq!(lints.file, None);
    assert!(lints.deny.is_empty());
    assert!(lints.allow.is_empty());
    assert!(lints.warn.is_empty());
}

#[test]
fn found_file_is_loaded_and_bound() {
    let text = "deny = [\"a\"]\nwarn = [\"b\"]\nallow = [\"c\"]\n".to_string();
    let lints = Lints::from_config(Some((path(), text))).unwrap();
    assert_eq!(lints.file, Some(path()));
    assert_eq!(lints.deny, strings(&["a"]));
    assert_eq!(lints.warn, strings(&["b"]));
    assert_eq!(lints.allow, strings(&["c"]));
}

#[test]
fn found_file_with_bad_text_is_an_error() {
    let found = Some((path(), "deny = [".to_string()));
    assert!(matches!(Lints::from_config(found), Err(LintsError::Parse(ParseError::Syntax(_)))));
}

#[test]
fn lists_are_read_in_the_order_of_the_file() {
    let lints = load("deny = [\"b\", \"a\", \"b\"]\n").unwrap();
    assert_eq!(lints.file, Some(path()));
    assert_eq!(lints.deny, strings(&["b", "a", "b"]));
    assert!(lints.allow.is_empty());
    assert!(lints.warn.is_empty());
}

#[test]
fn empty_text_is_the_empty_configuration_with_a_file() {
    let lints = load("").unwrap();
    assert_eq!(lints.file, Some(path()));
    assert!(lints.deny.is_empty());
    assert!(lints.allow.is_empty());
    assert!(lints.warn.is_empty());
}

#[test]
fn unknown_keys_are_ignored() {
    let lints = load("title = \"x\"\nfile = \"elsewhere\"\nwarn = [\"w\"]\n\n[package]\nname = \"p\"\ndeny = [\"no\"]\n")
        .unwrap();
    assert_eq!(lints.file, Some(path()));
    assert!(lints.deny.is_empty());
    assert!(lints.allow.is_empty());
    assert_eq!(lints.warn, strings(&["w"]));
}

#[test]
fn names_may_overlap_between_lists() {
    let lints = load("deny = [\"x\"]\nallow = [\"x\"]\nwarn = [\"x\", \"x\"]\n").unwrap();
    assert_eq!(lints.deny, strings(&["x"]));
    assert_eq!(lints.allow, strings(&["x"]));
    assert_eq!(lints.warn, strings(&["x", "x"]));
}

#[test]
fn escapes_and_unicode_are_decoded() {
    let lints = load("deny = [\"a\\tb\", 'c\\d', \"\\u00e9\", \"日本\"]\n").unwrap();
    assert_eq!(lints.deny, strings(&["a\tb", "c\\d", "é", "日本"]));
}

#[test]
fn malformed_text_is_a_syntax_error() {
    for text in ["deny = [", "deny", "= 1", "deny = [\"a\"]\ndeny = [\"b\"]\n", "deny = [\"a\" \"b\"]"] {
        assert!(
            matches!(load(text), Err(LintsError::Parse(ParseError::Syntax(_)))),
            "{:?}",
            text
        );
    }
}

#[test]
fn value_that_is_no_list_is_a_shape_error() {
    assert!(matches!(load("deny = \"a\""), Err(LintsError::Parse(ParseError::Shape(Severity::Deny)))));
    assert!(matches!(load("allow = 1"), Err(LintsError::Parse(ParseError::Shape(Severity::Allow)))));
    assert!(matches!(load("[warn]\na = 1"), Err(LintsError::Parse(ParseError::Shape(Severity::Warn)))));
}

#[test]
fn element_that_is_no_string_is_a_shape_error() {
    assert!(matches!(load("deny = [\"a\", 1]"), Err(LintsError::Parse(ParseError::Shape(Severity::Deny)))));
    assert!(matches!(load("allow = [[\"a\"]]"), Err(LintsError::Parse(ParseError::Shape(Severity::Allow)))));
    assert!(matches!(load("warn = [1979-05-27]"), Err(LintsError::Parse(ParseError::Shape(Severity::Warn)))));
    assert!(matches!(load("warn = [true]"), Err(LintsError::Parse(ParseError::Shape(Severity::Warn)))));
}

#[test]
fn first_wrong_key_in_the_order_deny_allow_warn_is_named() {
    assert!(matches!(
        load("warn = 1\nallow = 2\ndeny = 3\n"),
        Err(LintsError::Parse(ParseError::Shape(Severity::Deny)))
    ));
    assert!(matches!(
        load("warn = 1\nallow = 2\ndeny = []\n"),
        Err(LintsError::Parse(ParseError::Shape(Severity::Allow)))
    ));
}

#[test]
fn document_is_read_by_key() {
    let document: Document = vec![
        ("other".to_string(), None),
        ("warn".to_string(), list(&["w"])),
        ("deny".to_string(), list(&["d", "e"])),
    ];
    let lints = Lints::from_document(None, &document).unwrap();
    assert_eq!(lints.file, None);
    assert_eq!(lints.deny, strings(&["d", "e"]));
    assert!(lints.allow.is_empty());
    assert_eq!(lints.warn, strings(&["w"]));
}

#[test]
fn document_with_a_wrong_value_is_rejected() {
    let not_a_list: Document = vec![("allow".to_string(), None)];
    assert!(matches!(
        Lints::from_document(Some(path()), &not_a_list),
        Err(LintsError::Parse(ParseError::Shape(Severity::Allow)))
    ));
    let not_a_string: Document = vec![("warn".to_string(), Some(vec![Some("a".to_string()), None]))];
    assert!(matches!(
        Lints::from_document(Some(path()), &not_a_string),
        Err(LintsError::Parse(ParseError::Shape(Severity::Warn)))
    ));
}

#[test]
fn names_of_one_severity() {
    let document: Document = vec![("deny".to_string(), list(&["a"])), ("warn".to_string(), None)];
    assert_eq!(read_names(&document, Severity::Deny).unwrap(), strings(&["a"]));
    assert_eq!(read_names(&document, Severity::Allow).unwrap(), Vec::<String>::new());
    assert!(matches!(read_names(&document, Severity::Warn), Err(ParseError::Shape(Severity::Warn))));
}

#[test]
fn sort_sorts_each_list_by_itself() {
    let mut lints = Lints {
        file: None,
        deny: strings(&["b", "a"]),
        allow: strings(&["z", "b", "z"]),
        warn: strings(&["z", "y"]),
    };
    lints.sort();
    assert_eq!(lints.file, None);
    assert_eq!(lints.deny, strings(&["a", "b"]));
    assert_eq!(lints.allow, strings(&["b", "z", "z"]));
    assert_eq!(lints.warn, strings(&["y", "z"]));
}

#[test]
fn lists_are_written_in_the_order_deny_allow_warn() {
    let lints = Lints { file: None, deny: strings(&["d"]), allow: strings(&["a"]), warn: strings(&["w"]) };
    assert_eq!(
        lints.lists(),
        vec![
            ("deny".to_string(), strings(&["d"])),
            ("allow".to_string(), strings(&["a"])),
            ("warn".to_string(), strings(&["w"])),
        ]
    );
}

#[test]
fn comment_stands_before_the_document() {
    assert_eq!(
        COMMENT,
        "#\n# For all clippy lints please visit: https://rust-lang.github.io/rust-clippy/master/\n#\n"
    );
    assert_eq!(Lints::with_comment("deny = []\n"), format!("{}deny = []\n", COMMENT));
    assert_eq!(Lints::with_comment(""), COMMENT);
}

#[test]
fn format_without_a_file_fails_and_changes_nothing() {
    let mut lints = Lints { file: None, deny: strings(&["b", "a"]), allow: Vec::new(), warn: strings(&["z", "y"]) };
    assert!(matches!(lints.fmt(), Err(LintsError::NoFileAssociated)));
    assert_eq!(lints.file, None);
    assert_eq!(lints.deny, strings(&["b", "a"]));
    assert_eq!(lints.warn, strings(&["z", "y"]));
}

#[test]
fn format_of_the_default_configuration_fails() {
    assert!(matches!(Lints::default().fmt(), Err(LintsError::NoFileAssociated)));
    assert!(matches!(Lints::from_config(None).unwrap().fmt(), Err(LintsError::NoFileAssociated)));
}

#[test]
fn format_sorts_and_writes_the_document() {
    let mut lints = Lints {
        file: Some(path()),
        deny: strings(&["b", "a"]),
        allow: Vec::new(),
        warn: strings(&["z", "y"]),
    };
    let text = lints.fmt().unwrap();
    assert_eq!(lints.file, Some(path()));
    assert_eq!(lints.deny, strings(&["a", "b"]));
    assert!(lints.allow.is_empty());
    assert_eq!(lints.warn, strings(&["y", "z"]));
    let expected = format!(
        "{}{}",
        COMMENT, "deny = [\n    \"a\",\n    \"b\",\n]\nallow = []\nwarn = [\n    \"y\",\n    \"z\",\n]\n"
    );
    assert_eq!(text, expected);
}

#[test]
fn format_then_reload_gives_the_sorted_lists() {
    let mut lints = Lints {
        file: Some(path()),
        deny: strings(&["b", "a"]),
        allow: Vec::new(),
        warn: strings(&["z", "y"]),
    };
    let text = lints.fmt().unwrap();
    let reloaded = load(&text).unwrap();
    assert_eq!(reloaded.file, Some(path()));
    assert_eq!(reloaded.deny, strings(&["a", "b"]));
    assert!(reloaded.allow.is_empty());
    assert_eq!(reloaded.warn, strings(&["y", "z"]));
}

#[test]
fn format_twice_writes_the_same_bytes() {
    let mut lints = Lints {
        file: Some(path()),
        deny: strings(&["b", "a"]),
        allow: Vec::new(),
        warn: strings(&["z", "y"]),
    };
    let first = lints.fmt().unwrap();
    let second = lints.fmt().unwrap();
    assert_eq!(first.as_bytes(), second.as_bytes());
    let mut reloaded = load(&first).unwrap();
    let third = reloaded.fmt().unwrap();
    assert_eq!(first.as_bytes(), third.as_bytes());
}

#[test]
fn format_keeps_repeated_and_overlapping_names() {
    let mut lints = Lints {
        file: Some(path()),
        deny: strings(&["x", "a", "x"]),
        allow: strings(&["x"]),
        warn: Vec::new(),
    };
    let text = lints.fmt().unwrap();
    let reloaded = load(&text).unwrap();
    assert_eq!(reloaded.deny, strings(&["a", "x", "x"]));
    assert_eq!(reloaded.allow, strings(&["x"]));
    assert!(reloaded.warn.is_empty());
}

#[test]
fn format_writes_names_that_need_quoting() {
    let names = ["a\"b", "c\\d", "e\nf", "é", "", "'"];
    let mut lints = Lints { file: Some(path()), deny: strings(&names), allow: Vec::new(), warn: Vec::new() };
    let text = lints.fmt().unwrap();
    assert!(text.starts_with(COMMENT));
    let mut expected = strings(&names);
    expected.sort();
    assert_eq!(load(&text).unwrap().deny, expected);
}
