use squeekboard::action;
use squeekboard::data::parsing::apply_modifier;
use squeekboard::data::parsing::button_label;
use squeekboard::data::parsing::button_names;
use squeekboard::data::parsing::can_label;
use squeekboard::data::parsing::character_keysym;
use squeekboard::data::parsing::create_action;
use squeekboard::data::parsing::extract_symbol_names;
use squeekboard::data::parsing::has_nul;
use squeekboard::data::parsing::keysym_queries;
use squeekboard::data::parsing::modifier_name;
use squeekboard::data::parsing::outline_name;
use squeekboard::data::parsing::split_row;
use squeekboard::data::parsing::submit_keysym;
use squeekboard::data::parsing::submit_text;
use squeekboard::data::parsing::unicode_keysym;
use squeekboard::data::parsing::Action;
use squeekboard::data::parsing::ButtonMeta;
use squeekboard::data::parsing::Modifier;
use squeekboard::layout::Label;
use squeekboard::logging::Level;
use squeekboard::logging::Report;

fn meta() -> ButtonMeta {
    ButtonMeta {
        icon: None,
        keysym: None,
        text: None,
        action: None,
        modifier: None,
        label: None,
        outline: None,
    }
}

fn views(names: &[&str]) -> Vec<String> {
    names.iter().map(|name| name.to_string()).collect()
}

fn warning(message: &str) -> Report {
    Report { level: Level::Warning, message: message.into() }
}

#[test]
fn test_key_unicode() {
    let description = ButtonMeta {
        icon: None,
        keysym: None,
        text: None,
        action: None,
        modifier: None,
        label: Some("test".into()),
        outline: None,
    };
    // The keysym table knows no keysym by the name ".".
    assert_eq!(keysym_queries(Some(&description), "."), vec!["."]);
    assert_eq!(
        create_action(Some(&description), ".", &Vec::new(), &vec![false]),
        (
            action::Action::Submit {
                text: Some(".".into()),
                keys: vec!(action::KeySym("U002E".into())),
            },
            Vec::new(),
        ),
    );
}

#[test]
fn test_extract_symbols() {
    let actions = [(
        "ac",
        action::Action::Submit {
            text: None,
            keys: vec![
                action::KeySym("a".into()),
                action::KeySym("c".into()),
            ],
        },
    )];
    assert_eq!(
        extract_symbol_names(&actions[..]),
        vec!["a", "c"],
    );
}

#[test]
fn test_extract_symbols_erase() {
    let actions = [(
        "Erase",
        action::Action::Erase,
    )];
    assert_eq!(
        extract_symbol_names(&actions[..]),
        vec!["BackSpace"],
    );
}

#[test]
fn extract_symbols_in_order_of_actions() {
    let actions = [
        ("x", action::Action::Submit { text: None, keys: vec![action::KeySym("x".into())] }),
        ("prefs", action::Action::ShowPreferences),
        ("del", action::Action::Erase),
        ("base", action::Action::SetView("base".into())),
        ("ctrl", action::Action::ApplyModifier(action::Modifier::Control)),
        (
            "lock",
            action::Action::LockView {
                lock: "upper".into(),
                unlock: "base".into(),
                latches: true,
                looks_locked_from: Vec::new(),
            },
        ),
        ("none", action::Action::Submit { text: Some("".into()), keys: Vec::new() }),
        (
            "yz",
            action::Action::Submit {
                text: Some("yz".into()),
                keys: vec![action::KeySym("y".into()), action::KeySym("z".into())],
            },
        ),
        ("del2", action::Action::Erase),
    ];
    assert_eq!(
        extract_symbol_names(&actions[..]),
        vec!["x", "BackSpace", "y", "z", "BackSpace"],
    );
    assert_eq!(extract_symbol_names(&actions[..0]), Vec::<String>::new());
}

#[test]
fn unicode_names_have_four_digits_at_least() {
    assert_eq!(unicode_keysym('.'), "U002E");
    assert_eq!(unicode_keysym('\0'), "U0000");
    assert_eq!(unicode_keysym('å'), "U00E5");
    assert_eq!(unicode_keysym('\u{abcd}'), "UABCD");
    assert_eq!(unicode_keysym('\u{ffff}'), "UFFFF");
    assert_eq!(unicode_keysym('\u{10000}'), "U10000");
    assert_eq!(unicode_keysym('\u{1f600}'), "U1F600");
    assert_eq!(unicode_keysym('\u{fffff}'), "UFFFFF");
    assert_eq!(unicode_keysym('\u{100000}'), "U100000");
    assert_eq!(unicode_keysym('\u{10ffff}'), "U10FFFF");
}

#[test]
fn unicode_names_agree_with_std_formatting() {
    for character in ['\u{1}', '9', 'A', 'z', '\u{7ff}', '\u{800}', '€', '\u{d7ff}', '\u{e000}', '\u{10abcd}'] {
        assert_eq!(unicode_keysym(character), format!("U{:04X}", character as u32));
    }
}

#[test]
fn known_character_keeps_its_name() {
    assert_eq!(character_keysym('a', true), action::KeySym("a".into()));
    assert_eq!(character_keysym('a', false), action::KeySym("U0061".into()));
    assert_eq!(character_keysym('ß', true), action::KeySym("ß".into()));
}

#[test]
fn button_without_description_submits_its_name() {
    assert_eq!(keysym_queries(None, "ab"), vec!["a", "b"]);
    assert_eq!(
        create_action(None, "ab", &views(&["base"]), &vec![true, false]),
        (
            action::Action::Submit {
                text: Some("ab".into()),
                keys: vec![action::KeySym("a".into()), action::KeySym("U0062".into())],
            },
            Vec::new(),
        ),
    );
}

#[test]
fn missing_answers_count_as_unknown() {
    assert_eq!(
        create_action(Some(&meta()), "ab", &Vec::new(), &vec![true]).0,
        action::Action::Submit {
            text: Some("ab".into()),
            keys: vec![action::KeySym("a".into()), action::KeySym("U0062".into())],
        },
    );
    assert_eq!(
        create_action(Some(&meta()), "ab", &Vec::new(), &Vec::new()).0,
        action::Action::Submit {
            text: Some("ab".into()),
            keys: vec![action::KeySym("U0061".into()), action::KeySym("U0062".into())],
        },
    );
}

#[test]
fn described_text_wins_over_name() {
    let description = ButtonMeta { text: Some("é".into()), ..meta() };
    assert_eq!(keysym_queries(Some(&description), "e_acute"), vec!["é"]);
    assert_eq!(
        create_action(Some(&description), "e_acute", &Vec::new(), &vec![false]),
        (
            action::Action::Submit {
                text: Some("é".into()),
                keys: vec![action::KeySym("U00E9".into())],
            },
            Vec::new(),
        ),
    );
}

#[test]
fn text_with_nul_keeps_only_keysyms() {
    assert!(has_nul("a\0"));
    assert!(has_nul("\0"));
    assert!(!has_nul("a0"));
    assert!(!has_nul(""));
    assert_eq!(
        submit_text("a\0", &vec![true, false]),
        (
            action::Action::Submit {
                text: None,
                keys: vec![action::KeySym("a".into()), action::KeySym("U0000".into())],
            },
            vec![warning("Text a\0 contains problems")],
        ),
    );
}

#[test]
fn empty_text_submits_nothing() {
    assert_eq!(
        submit_text("", &Vec::new()),
        (action::Action::Submit { text: Some("".into()), keys: Vec::new() }, Vec::new()),
    );
}

#[test]
fn keysym_button() {
    let description = ButtonMeta { keysym: Some("Return".into()), ..meta() };
    assert_eq!(keysym_queries(Some(&description), "enter"), vec!["Return"]);
    assert_eq!(
        create_action(Some(&description), "enter", &Vec::new(), &vec![true]),
        (
            action::Action::Submit { text: None, keys: vec![action::KeySym("Return".into())] },
            Vec::new(),
        ),
    );
}

#[test]
fn invalid_keysym_becomes_space() {
    let description = ButtonMeta { keysym: Some("Retrun".into()), ..meta() };
    let expected = (
        action::Action::Submit { text: None, keys: vec![action::KeySym("space".into())] },
        vec![warning("Keysym name invalid: Retrun")],
    );
    assert_eq!(create_action(Some(&description), "enter", &Vec::new(), &vec![false]), expected);
    assert_eq!(create_action(Some(&description), "enter", &Vec::new(), &Vec::new()), expected);
    assert_eq!(submit_keysym("Retrun", false), expected);
}

#[test]
fn conflicting_description_submits_empty_text() {
    let description = ButtonMeta {
        keysym: Some("Return".into()),
        text: Some("x".into()),
        ..meta()
    };
    assert_eq!(keysym_queries(Some(&description), "enter"), Vec::<String>::new());
    assert_eq!(
        create_action(Some(&description), "enter", &Vec::new(), &vec![true]),
        (
            action::Action::Submit { text: Some("".into()), keys: Vec::new() },
            vec![warning("Button enter has more than one of (action, keysym, text, modifier)")],
        ),
    );
    let all = ButtonMeta {
        action: Some(Action::Erase),
        keysym: Some("Return".into()),
        text: Some("x".into()),
        modifier: Some(Modifier::Alt),
        ..meta()
    };
    assert_eq!(
        create_action(Some(&all), "b", &Vec::new(), &Vec::new()).1,
        vec![warning("Button b has more than one of (action, keysym, text, modifier)")],
    );
    let two = ButtonMeta { action: Some(Action::Erase), modifier: Some(Modifier::Alt), ..meta() };
    assert_eq!(
        create_action(Some(&two), "b", &Vec::new(), &Vec::new()).0,
        action::Action::Submit { text: Some("".into()), keys: Vec::new() },
    );
}

#[test]
fn set_view_to_existing_view() {
    let description = ButtonMeta { action: Some(Action::SetView("numbers".into())), ..meta() };
    assert_eq!(keysym_queries(Some(&description), "123"), Vec::<String>::new());
    assert_eq!(
        create_action(Some(&description), "123", &views(&["base", "numbers"]), &Vec::new()),
        (action::Action::SetView("numbers".into()), Vec::new()),
    );
}

#[test]
fn set_view_to_missing_view_goes_to_base() {
    let description = ButtonMeta { action: Some(Action::SetView("numbers".into())), ..meta() };
    assert_eq!(
        create_action(Some(&description), "123", &views(&["base", "upper"]), &Vec::new()),
        (
            action::Action::SetView("base".into()),
            vec![warning("Button 123 switches to missing view numbers")],
        ),
    );
}

#[test]
fn locking_button() {
    let description = ButtonMeta {
        action: Some(Action::Locking {
            lock_view: "upper".into(),
            unlock_view: "base".into(),
            pops: None,
            looks_locked_from: vec!["symbols".into()],
        }),
        ..meta()
    };
    assert_eq!(
        create_action(Some(&description), "shift", &views(&["base", "upper"]), &Vec::new()),
        (
            action::Action::LockView {
                lock: "upper".into(),
                unlock: "base".into(),
                latches: true,
                looks_locked_from: vec!["symbols".into()],
            },
            Vec::new(),
        ),
    );
}

#[test]
fn locking_button_with_missing_views() {
    let description = ButtonMeta {
        action: Some(Action::Locking {
            lock_view: "upper".into(),
            unlock_view: "lower".into(),
            pops: Some(false),
            looks_locked_from: Vec::new(),
        }),
        ..meta()
    };
    assert_eq!(
        create_action(Some(&description), "shift", &views(&["base"]), &Vec::new()),
        (
            action::Action::LockView {
                lock: "base".into(),
                unlock: "base".into(),
                latches: false,
                looks_locked_from: Vec::new(),
            },
            vec![
                warning("Button shift switches to missing view upper"),
                warning("Button shift switches to missing view lower"),
            ],
        ),
    );
}

#[test]
fn plain_special_actions() {
    let prefs = ButtonMeta { action: Some(Action::ShowPrefs), ..meta() };
    assert_eq!(
        create_action(Some(&prefs), "preferences", &Vec::new(), &Vec::new()),
        (action::Action::ShowPreferences, Vec::new()),
    );
    let erase = ButtonMeta { action: Some(Action::Erase), ..meta() };
    assert_eq!(
        create_action(Some(&erase), "BackSpace", &Vec::new(), &Vec::new()),
        (action::Action::Erase, Vec::new()),
    );
}

#[test]
fn supported_modifiers() {
    for (modifier, applied) in [
        (Modifier::Control, action::Modifier::Control),
        (Modifier::Alt, action::Modifier::Alt),
        (Modifier::Mod4, action::Modifier::Mod4),
    ] {
        let description = ButtonMeta { modifier: Some(modifier), ..meta() };
        assert_eq!(keysym_queries(Some(&description), "m"), Vec::<String>::new());
        assert_eq!(
            create_action(Some(&description), "m", &Vec::new(), &Vec::new()),
            (action::Action::ApplyModifier(applied), Vec::new()),
        );
    }
}

#[test]
fn unsupported_modifiers() {
    for (modifier, name) in [
        (Modifier::Shift, "Shift"),
        (Modifier::Lock, "Lock"),
        (Modifier::Mod2, "Mod2"),
        (Modifier::Mod3, "Mod3"),
        (Modifier::Mod5, "Mod5"),
    ] {
        assert_eq!(modifier_name(modifier), name);
        assert_eq!(modifier_name(modifier), format!("{:?}", modifier));
        let expected = (
            action::Action::Submit { text: None, keys: Vec::new() },
            vec![Report { level: Level::Bug, message: format!("Modifier {} unsupported", name) }],
        );
        assert_eq!(apply_modifier(modifier), expected);
        let description = ButtonMeta { modifier: Some(modifier), ..meta() };
        assert_eq!(create_action(Some(&description), "m", &Vec::new(), &Vec::new()), expected);
    }
}

#[test]
fn rows_split_at_ascii_whitespace() {
    assert_eq!(split_row("q w e"), vec!["q", "w", "e"]);
    assert_eq!(split_row("  Shift_L   z x\tc\nv\r\x0Cb  "), vec!["Shift_L", "z", "x", "c", "v", "b"]);
    assert_eq!(split_row("one"), vec!["one"]);
    assert_eq!(split_row(""), Vec::<String>::new());
    assert_eq!(split_row(" \t\n"), Vec::<String>::new());
    // only the five ASCII separators count
    assert_eq!(split_row("a\u{a0}b\u{2003}c \u{b}d"), vec!["a\u{a0}b\u{2003}c", "\u{b}d"]);
    assert_eq!(split_row("ą ć  ę"), vec!["ą", "ć", "ę"]);
}

#[test]
fn rows_split_like_std() {
    for row in ["q w e r t y", " a  b ", "x", "", "\t \r\n", "šđ č\tć ž", "a\x0Cb"] {
        assert_eq!(
            split_row(row),
            row.split_ascii_whitespace().map(String::from).collect::<Vec<_>>(),
        );
    }
}

#[test]
fn buttons_are_listed_once() {
    let rows = vec![
        "q w e".to_string(),
        "Shift_L z q".to_string(),
        "".to_string(),
        "space w Shift_L show_numbers".to_string(),
    ];
    assert_eq!(
        button_names(&rows),
        vec!["q", "w", "e", "Shift_L", "z", "space", "show_numbers"],
    );
    assert_eq!(button_names(&Vec::new()), Vec::<String>::new());
    assert_eq!(button_names(&vec!["a a a".to_string()]), vec!["a"]);
}

#[test]
fn label_comes_before_icon_and_text() {
    let description = ButtonMeta {
        label: Some("Aa".into()),
        icon: Some("key-shift".into()),
        text: Some("a".into()),
        ..meta()
    };
    assert_eq!(button_label(Some(&description), "shift"), (Label::Text("Aa".into()), Vec::new()));
}

#[test]
fn icon_comes_before_text() {
    let description = ButtonMeta {
        icon: Some("key-shift".into()),
        text: Some("a".into()),
        ..meta()
    };
    assert_eq!(
        button_label(Some(&description), "shift"),
        (Label::IconName("key-shift".into()), Vec::new()),
    );
}

#[test]
fn text_and_name_as_labels() {
    let description = ButtonMeta { text: Some("ä".into()), ..meta() };
    assert_eq!(button_label(Some(&description), "a_umlaut"), (Label::Text("ä".into()), Vec::new()));
    assert_eq!(button_label(Some(&meta()), "q"), (Label::Text("q".into()), Vec::new()));
    assert_eq!(button_label(None, "q"), (Label::Text("q".into()), Vec::new()));
    let keysym = ButtonMeta { keysym: Some("Return".into()), ..meta() };
    assert_eq!(button_label(Some(&keysym), "enter"), (Label::Text("enter".into()), Vec::new()));
}

#[test]
fn text_with_nul_leaves_the_button_blank() {
    let description = ButtonMeta { text: Some("a\0".into()), ..meta() };
    assert_eq!(
        button_label(Some(&description), "a"),
        (Label::Text("".into()), vec![warning("Text a\0 is invalid")]),
    );
}

#[test]
fn outline_names() {
    let outlines = views(&["default", "wide"]);
    let wide = ButtonMeta { outline: Some("wide".into()), ..meta() };
    assert_eq!(outline_name(Some(&wide), "space", &outlines), ("wide".to_string(), Vec::new()));
    assert_eq!(outline_name(Some(&meta()), "q", &outlines), ("default".to_string(), Vec::new()));
    assert_eq!(outline_name(None, "q", &outlines), ("default".to_string(), Vec::new()));
    assert_eq!(outline_name(None, "q", &Vec::new()), ("default".to_string(), Vec::new()));
    let tall = ButtonMeta { outline: Some("tall".into()), ..meta() };
    assert_eq!(
        outline_name(Some(&tall), "enter", &outlines),
        (
            "default".to_string(),
            vec![warning("Outline named tall does not exist! Using default for button enter")],
        ),
    );
}

#[test]
fn texts_with_nul_cannot_be_shown() {
    assert!(can_label(None, "q"));
    assert!(!can_label(None, "q\0"));
    assert!(can_label(Some(&meta()), "q"));
    let label = ButtonMeta { label: Some("a\0".into()), ..meta() };
    assert!(!can_label(Some(&label), "q"));
    let icon = ButtonMeta { icon: Some("\0".into()), ..meta() };
    assert!(!can_label(Some(&icon), "q"));
    // the label hides the icon
    let both = ButtonMeta { label: Some("a".into()), icon: Some("\0".into()), ..meta() };
    assert!(can_label(Some(&both), "q"));
    // text which cannot be shown is left out, with a warning
    let text = ButtonMeta { text: Some("\0".into()), ..meta() };
    assert!(can_label(Some(&text), "q"));
}
