use std::cmp::Ordering;

use squeekboard::locale::cstring_safe;
use squeekboard::locale::display_name_from;
use squeekboard::locale::ordering_from_collation;
use squeekboard::locale::Error;
use squeekboard::locale::OwnedTranslation;

#[test]
fn collation_answers() {
    assert_eq!(ordering_from_collation(0), Ordering::Equal);
    assert_eq!(ordering_from_collation(1), Ordering::Greater);
    assert_eq!(ordering_from_collation(i32::MAX), Ordering::Greater);
    assert_eq!(ordering_from_collation(-1), Ordering::Less);
    assert_eq!(ordering_from_collation(i32::MIN), Ordering::Less);
}

#[test]
fn text_with_nul_goes_as_empty() {
    assert_eq!(cstring_safe("pl+legacy"), "pl+legacy");
    assert_eq!(cstring_safe(""), "");
    assert_eq!(cstring_safe("a\0b"), "");
    assert_eq!(cstring_safe("\0"), "");
    assert_eq!(cstring_safe("zażółć"), "zażółć");
}

#[test]
fn display_name_found() {
    let name = display_name_from(true, Some("Polish (legacy)".as_bytes()));
    assert_eq!(name.ok(), Some("Polish (legacy)".to_string()));
    let name = display_name_from(true, Some("Українська".as_bytes()));
    assert_eq!(name.ok(), Some("Українська".to_string()));
    let name = display_name_from(true, Some(&[]));
    assert_eq!(name.ok(), Some(String::new()));
}

#[test]
fn display_name_missing() {
    assert!(matches!(display_name_from(false, Some("Polish".as_bytes())), Err(Error::NoInfo)));
    assert!(matches!(display_name_from(false, None), Err(Error::NoInfo)));
    assert!(matches!(display_name_from(true, None), Err(Error::NoInfo)));
    assert!(matches!(display_name_from(false, Some(&[0xff])), Err(Error::NoInfo)));
}

#[test]
fn display_name_not_text() {
    match display_name_from(true, Some(&[b'P', 0xc3, 0x28])) {
        Err(Error::StringConversion(error)) => assert_eq!(error.valid_up_to(), 1),
        other => panic!("{:?}", other),
    }
}

#[test]
fn translations_compare_by_text() {
    assert_eq!(OwnedTranslation("Polski".into()), OwnedTranslation("Polski".into()));
    assert_ne!(OwnedTranslation("Polski".into()), OwnedTranslation("polski".into()));
    assert_eq!(OwnedTranslation("a".into()).clone().0, "a");
}
