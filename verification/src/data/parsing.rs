//! Turning the descriptions of buttons, as layout files give them,
//! into what the buttons do.
//!
//! Which names the keysym table knows is for the caller to find out:
//! [`keysym_queries`] tells which names matter for a button,
//! and [`create_action`] takes the answers.

use vstd::prelude::*;
use vstd::string::StrSliceExecFns;
use vstd::string::StringExecFns;
use crate::action;
use crate::action::clone_strings;
use crate::action::keysym_names;
use crate::action::string_views;
use crate::action::ActionView;
use crate::action::KeySym;
use crate::layout::Label;
use crate::layout::LabelView;
use crate::logging::report_views;
use crate::logging::Level;
use crate::logging::Report;

verus! {

/// What a button does beyond submitting something, as layout files spell it.
#[derive(Debug, Clone, PartialEq, Eq)]
pub enum Action {
    Locking { lock_view: String, unlock_view: String, pops: Option<bool>, looks_locked_from: Vec<String> },
    SetView(String),
    ShowPrefs,
    /// Remove last character
    Erase,
}

/// The modifiers which layout files can name.
#[derive(Debug, Clone, Copy, PartialEq, Eq, Structural)]
pub enum Modifier {
    Control,
    Shift,
    Lock,
    Alt,
    Mod2,
    Mod3,
    Mod4,
    Mod5,
}

/// All info about a single button.
/// Buttons can have multiple instances though.
#[derive(Debug, PartialEq, Eq)]
pub struct ButtonMeta {
    /// Special action to perform on activation.
    /// Conflicts with keysym, text, modifier.
    pub action: Option<Action>,
    /// The name of the XKB keysym to emit on activation.
    /// Conflicts with action, text, modifier.
    pub keysym: Option<String>,
    /// The text to submit on activation. Will be derived from ID if not present
    /// Conflicts with action, keysym, modifier.
    pub text: Option<String>,
    /// The modifier to apply while the key is locked
    /// Conflicts with action, keysym, text
    pub modifier: Option<Modifier>,
    /// If not present, will be derived from text or the button ID
    pub label: Option<String>,
    /// Conflicts with label
    pub icon: Option<String>,
    /// The name of the outline. If not present, will be "default"
    pub outline: Option<String>,
}

impl Default for ButtonMeta {
    /// The description which says nothing.
    fn default() -> (meta: ButtonMeta)
        ensures
            meta.action is None,
            meta.keysym is None,
            meta.text is None,
            meta.modifier is None,
            meta.label is None,
            meta.icon is None,
            meta.outline is None,
    {
        ButtonMeta {
            action: None,
            keysym: None,
            text: None,
            modifier: None,
            label: None,
            icon: None,
            outline: None,
        }
    }
}

/// The one thing that the description of a button asks for.
pub enum Intent {
    Action(Action),
    Text(Seq<char>),
    Keysym(Seq<char>),
    Modifier(Modifier),
    /// More than one thing is asked for.
    Conflict,
}

/// Reads the description of the button with the given name.
/// A button without a description, or with one that asks for nothing,
/// submits its name as text.
pub open spec fn intent(symbol_meta: Option<&ButtonMeta>, name: Seq<char>) -> Intent {
    match symbol_meta {
        None => Intent::Text(name),
        Some(meta) => match (meta.action, meta.keysym, meta.text, meta.modifier) {
            (Some(action), None, None, None) => Intent::Action(action),
            (None, Some(keysym), None, None) => Intent::Keysym(keysym@),
            (None, None, Some(text), None) => Intent::Text(text@),
            (None, None, None, Some(modifier)) => Intent::Modifier(modifier),
            (None, None, None, None) => Intent::Text(name),
            _ => Intent::Conflict,
        },
    }
}

/// Each character of the text as a name of its own.
pub open spec fn character_names(text: Seq<char>) -> Seq<Seq<char>> {
    Seq::new(text.len(), |i: int| seq![text[i]])
}

/// The names which have to be looked up in the keysym table
/// before the action of the button can be told:
/// the keysym which the description names, or each character of the text to submit.
pub open spec fn spec_keysym_queries(symbol_meta: Option<&ButtonMeta>, name: Seq<char>) -> Seq<Seq<char>> {
    match intent(symbol_meta, name) {
        Intent::Keysym(keysym) => seq![keysym],
        Intent::Text(text) => character_names(text),
        _ => Seq::empty(),
    }
}

/// The digit for a number below 16, in upper case.
pub open spec fn hex_digit(value: u32) -> char {
    if value == 0 {
        '0'
    } else if value == 1 {
        '1'
    } else if value == 2 {
        '2'
    } else if value == 3 {
        '3'
    } else if value == 4 {
        '4'
    } else if value == 5 {
        '5'
    } else if value == 6 {
        '6'
    } else if value == 7 {
        '7'
    } else if value == 8 {
        '8'
    } else if value == 9 {
        '9'
    } else if value == 10 {
        'A'
    } else if value == 11 {
        'B'
    } else if value == 12 {
        'C'
    } else if value == 13 {
        'D'
    } else if value == 14 {
        'E'
    } else {
        'F'
    }
}

/// The digit of the number at the place with the given value: 1, 16, 256 and so on.
pub open spec fn hex_at(codepoint: u32, place_value: u32) -> char {
    hex_digit((codepoint / place_value) % 16)
}

/// The name by which the keysym table knows any character at all:
/// the letter U and the number of the character in hexadecimal, upper case,
/// with zeros in front where that makes less than four digits.
/// No character has a number of more than six digits.
pub open spec fn unicode_keysym_name(codepoint: u32) -> Seq<char> {
    let low = seq![
        hex_at(codepoint, 0x1000),
        hex_at(codepoint, 0x100),
        hex_at(codepoint, 0x10),
        hex_at(codepoint, 0x1),
    ];
    if codepoint >= 0x100000 {
        seq!['U', hex_at(codepoint, 0x100000), hex_at(codepoint, 0x10000)] + low
    } else if codepoint >= 0x10000 {
        seq!['U', hex_at(codepoint, 0x10000)] + low
    } else {
        seq!['U'] + low
    }
}

/// The name of the keysym to submit for a character:
/// the character itself where the keysym table knows it by that name,
/// else the name derived from its number.
pub open spec fn spec_character_keysym(character: char, known: bool) -> Seq<char> {
    if known {
        seq![character]
    } else {
        unicode_keysym_name(character as u32)
    }
}

/// The answer at the given place in a list of answers. A missing answer counts as a no.
pub open spec fn answer(known: Seq<bool>, place: int) -> bool {
    0 <= place < known.len() && known[place]
}

/// The names of the keysyms to submit for a text, one for each character.
pub open spec fn text_keysyms(text: Seq<char>, known: Seq<bool>) -> Seq<Seq<char>> {
    Seq::new(text.len(), |i: int| spec_character_keysym(text[i], answer(known, i)))
}

pub open spec fn conflict_message(name: Seq<char>) -> Seq<char> {
    "Button "@ + name + " has more than one of (action, keysym, text, modifier)"@
}

pub open spec fn missing_view_message(button_name: Seq<char>, view_name: Seq<char>) -> Seq<char> {
    "Button "@ + button_name + " switches to missing view "@ + view_name
}

pub open spec fn invalid_keysym_message(keysym: Seq<char>) -> Seq<char> {
    "Keysym name invalid: "@ + keysym
}

pub open spec fn text_problem_message(text: Seq<char>) -> Seq<char> {
    "Text "@ + text + " contains problems"@
}

pub open spec fn unsupported_modifier_message(modifier: Modifier) -> Seq<char> {
    "Modifier "@ + spec_modifier_name(modifier) + " unsupported"@
}

pub open spec fn spec_modifier_name(modifier: Modifier) -> Seq<char> {
    match modifier {
        Modifier::Control => "Control"@,
        Modifier::Shift => "Shift"@,
        Modifier::Lock => "Lock"@,
        Modifier::Alt => "Alt"@,
        Modifier::Mod2 => "Mod2"@,
        Modifier::Mod3 => "Mod3"@,
        Modifier::Mod4 => "Mod4"@,
        Modifier::Mod5 => "Mod5"@,
    }
}

/// The view to switch to, and what there is to report about it:
/// a view which the layout lacks is replaced by the base view.
pub open spec fn spec_filter_view_name(
    button_name: Seq<char>,
    view_name: Seq<char>,
    view_names: Seq<Seq<char>>,
) -> (Seq<char>, Seq<(Level, Seq<char>)>) {
    if view_names.contains(view_name) {
        (view_name, Seq::empty())
    } else {
        ("base"@, seq![(Level::Warning, missing_view_message(button_name, view_name))])
    }
}

/// The action for a button which submits text, and what there is to report about the text.
/// Text with a NUL in it cannot go to the input method, and only the keysyms are left of it.
pub open spec fn spec_submit_text(text: Seq<char>, known: Seq<bool>) -> (
    ActionView,
    Seq<(Level, Seq<char>)>,
) {
    (
        ActionView::Submit {
            text: if text.contains('\0') {
                None
            } else {
                Some(text)
            },
            keys: text_keysyms(text, known),
        },
        if text.contains('\0') {
            seq![(Level::Warning, text_problem_message(text))]
        } else {
            Seq::empty()
        },
    )
}

/// The action for a button which submits a keysym, and what there is to report about the name.
/// A name which the keysym table does not know is replaced by the space.
pub open spec fn spec_submit_keysym(keysym: Seq<char>, known: bool) -> (
    ActionView,
    Seq<(Level, Seq<char>)>,
) {
    if known {
        (ActionView::Submit { text: None, keys: seq![keysym] }, Seq::empty())
    } else {
        (
            ActionView::Submit { text: None, keys: seq!["space"@] },
            seq![(Level::Warning, invalid_keysym_message(keysym))],
        )
    }
}

/// The action for a button which applies a modifier, and what there is to report about it.
/// Only Control, Alt and Mod4 can be applied. A button with another modifier does nothing.
pub open spec fn spec_apply_modifier(modifier: Modifier) -> (ActionView, Seq<(Level, Seq<char>)>) {
    match modifier {
        Modifier::Control => (
            ActionView::ApplyModifier(action::Modifier::Control),
            Seq::empty(),
        ),
        Modifier::Alt => (ActionView::ApplyModifier(action::Modifier::Alt), Seq::empty()),
        Modifier::Mod4 => (ActionView::ApplyModifier(action::Modifier::Mod4), Seq::empty()),
        unsupported => (
            ActionView::Submit { text: None, keys: Seq::empty() },
            seq![(Level::Bug, unsupported_modifier_message(unsupported))],
        ),
    }
}

/// The action for a button with a special action, and what there is to report about it.
pub open spec fn spec_special_action(
    special: Action,
    name: Seq<char>,
    view_names: Seq<Seq<char>>,
) -> (ActionView, Seq<(Level, Seq<char>)>) {
    match special {
        Action::SetView(view_name) => {
            let (view, reports) = spec_filter_view_name(name, view_name@, view_names);
            (ActionView::SetView(view), reports)
        },
        Action::Locking { lock_view, unlock_view, pops, looks_locked_from } => {
            let (lock, lock_reports) = spec_filter_view_name(name, lock_view@, view_names);
            let (unlock, unlock_reports) = spec_filter_view_name(name, unlock_view@, view_names);
            (
                ActionView::LockView {
                    lock,
                    unlock,
                    latches: match pops {
                        Some(pops) => pops,
                        None => true,
                    },
                    looks_locked_from: string_views(looks_locked_from@),
                },
                lock_reports + unlock_reports,
            )
        },
        Action::ShowPrefs => (ActionView::ShowPreferences, Seq::empty()),
        Action::Erase => (ActionView::Erase, Seq::empty()),
    }
}

/// What the button with the given name does, going by its description
/// and by what the keysym table knows of the names which matter,
/// and what there is to report about the description.
pub open spec fn spec_create_action(
    symbol_meta: Option<&ButtonMeta>,
    name: Seq<char>,
    view_names: Seq<Seq<char>>,
    known: Seq<bool>,
) -> (ActionView, Seq<(Level, Seq<char>)>) {
    match intent(symbol_meta, name) {
        Intent::Conflict => (
            spec_submit_text(Seq::empty(), known).0,
            seq![(Level::Warning, conflict_message(name))],
        ),
        Intent::Action(special) => spec_special_action(special, name, view_names),
        Intent::Keysym(keysym) => spec_submit_keysym(keysym, answer(known, 0)),
        Intent::Text(text) => spec_submit_text(text, known),
        Intent::Modifier(modifier) => spec_apply_modifier(modifier),
    }
}

/// The keysyms which an action submits through the virtual keyboard.
pub open spec fn symbols_of(action: ActionView) -> Seq<Seq<char>> {
    match action {
        ActionView::Submit { text: _, keys } => keys,
        ActionView::Erase => seq!["BackSpace"@],
        _ => Seq::empty(),
    }
}

/// The keysyms which the actions submit, in the order of the actions.
pub open spec fn spec_symbol_names(actions: Seq<(&str, action::Action)>) -> Seq<Seq<char>>
    decreases actions.len(),
{
    if actions.len() == 0 {
        Seq::empty()
    } else {
        spec_symbol_names(actions.drop_last()) + symbols_of(actions.last().1@)
    }
}

/// `String::push` of the standard library: the character goes to the end of the string.
#[verifier::external_body]
fn string_push(text: &mut String, character: char)
    ensures
        final(text)@ == old(text)@.push(character),
{
    text.push(character)
}

/// A string of one character.
fn character_name(character: char) -> (name: String)
    ensures
        name@ == seq![character],
{
    let mut name = String::new();
    string_push(&mut name, character);
    assert(name@ =~= seq![character]);
    name
}

/// The digit for a number below 16, in upper case.
fn hex_digit_of(value: u32) -> (digit: char)
    requires
        value < 16,
    ensures
        digit == hex_digit(value),
{
    match value {
        0 => '0',
        1 => '1',
        2 => '2',
        3 => '3',
        4 => '4',
        5 => '5',
        6 => '6',
        7 => '7',
        8 => '8',
        9 => '9',
        10 => 'A',
        11 => 'B',
        12 => 'C',
        13 => 'D',
        14 => 'E',
        _ => 'F',
    }
}

/// The name which the keysym table has for the character on account of its number.
pub fn unicode_keysym(character: char) -> (name: String)
    ensures
        name@ == unicode_keysym_name(character as u32),
{
    let codepoint = character as u32;
    let mut name = String::new();
    string_push(&mut name, 'U');
    if codepoint >= 0x100000 {
        string_push(&mut name, hex_digit_of((codepoint / 0x100000) % 16));
    }
    if codepoint >= 0x10000 {
        string_push(&mut name, hex_digit_of((codepoint / 0x10000) % 16));
    }
    string_push(&mut name, hex_digit_of((codepoint / 0x1000) % 16));
    string_push(&mut name, hex_digit_of((codepoint / 0x100) % 16));
    string_push(&mut name, hex_digit_of((codepoint / 0x10) % 16));
    string_push(&mut name, hex_digit_of(codepoint % 16));
    assert(name@ =~= unicode_keysym_name(codepoint));
    name
}

/// The keysym to submit for a character, given whether the keysym table
/// knows the character by itself as a name.
pub fn character_keysym(character: char, known: bool) -> (keysym: KeySym)
    ensures
        keysym@ == spec_character_keysym(character, known),
{
    if known {
        KeySym(character_name(character))
    } else {
        KeySym(unicode_keysym(character))
    }
}

/// Tells whether the text holds a NUL.
pub fn has_nul(text: &str) -> (found: bool)
    ensures
        found == text@.contains('\0'),
{
    let len = text.unicode_len();
    let mut i: usize = 0;
    while i < len
        invariant
            len == text@.len(),
            i <= len,
            forall|j: int| 0 <= j < i ==> text@[j] != '\0',
        decreases len - i,
    {
        if text.get_char(i) == '\0' {
            return true;
        }
        i += 1;
    }
    false
}

/// The name of the modifier, as layout files spell it.
pub fn modifier_name(modifier: Modifier) -> (name: &'static str)
    ensures
        name@ == spec_modifier_name(modifier),
{
    match modifier {
        Modifier::Control => "Control",
        Modifier::Shift => "Shift",
        Modifier::Lock => "Lock",
        Modifier::Alt => "Alt",
        Modifier::Mod2 => "Mod2",
        Modifier::Mod3 => "Mod3",
        Modifier::Mod4 => "Mod4",
        Modifier::Mod5 => "Mod5",
    }
}

/// Adds a report to the list.
fn report(reports: &mut Vec<Report>, level: Level, message: String)
    ensures
        report_views(final(reports)@) == report_views(old(reports)@).push((level, message@)),
{
    reports.push(Report { level, message });
    assert(report_views(reports@) =~= report_views(old(reports)@).push((level, message@)));
}

/// Tells whether the list holds the string.
fn holds(strings: &Vec<String>, wanted: &String) -> (found: bool)
    ensures
        found == string_views(strings@).contains(wanted@),
{
    let mut i: usize = 0;
    while i < strings.len()
        invariant
            i <= strings@.len(),
            forall|j: int| 0 <= j < i ==> string_views(strings@)[j] != wanted@,
        decreases strings@.len() - i,
    {
        if strings[i] == *wanted {
            assert(string_views(strings@)[i as int] == wanted@);
            return true;
        }
        i += 1;
    }
    false
}

/// Names the view to switch to: the wanted one if the layout has it,
/// else the base view, with a report.
fn filter_view_name(
    button_name: &str,
    view_name: String,
    view_names: &Vec<String>,
    reports: &mut Vec<Report>,
) -> (view: String)
    ensures
        view@ == spec_filter_view_name(button_name@, view_name@, string_views(view_names@)).0,
        report_views(final(reports)@) == report_views(old(reports)@) + spec_filter_view_name(
            button_name@,
            view_name@,
            string_views(view_names@),
        ).1,
{
    if holds(view_names, &view_name) {
        assert(report_views(reports@) + Seq::<(Level, Seq<char>)>::empty() =~= report_views(
            reports@,
        ));
        view_name
    } else {
        let message = String::from_str("Button ").concat(button_name).concat(
            " switches to missing view ",
        ).concat(view_name.as_str());
        let ghost before = report_views(reports@);
        report(reports, Level::Warning, message);
        assert(before.push((Level::Warning, message@)) =~= before + seq![
            (Level::Warning, message@),
        ]);
        String::from_str("base")
    }
}

/// Lists the names which have to be looked up in the keysym table
/// before the action of the button can be told.
pub fn keysym_queries(symbol_meta: Option<&ButtonMeta>, name: &str) -> (queries: Vec<String>)
    ensures
        string_views(queries@) == spec_keysym_queries(symbol_meta, name@),
{
    let mut queries: Vec<String> = Vec::new();
    let text: Option<&str> = match symbol_meta {
        None => Some(name),
        Some(meta) => match (&meta.action, &meta.keysym, &meta.text, &meta.modifier) {
            (None, Some(keysym), None, None) => {
                queries.push(keysym.clone());
                assert(string_views(queries@) =~= seq![keysym@]);
                return queries;
            },
            (None, None, Some(text), None) => Some(text.as_str()),
            (None, None, None, None) => Some(name),
            _ => None,
        },
    };
    match text {
        Some(text) => {
            let len = text.unicode_len();
            let mut i: usize = 0;
            while i < len
                invariant
                    len == text@.len(),
                    i <= len,
                    queries@.len() == i,
                    forall|j: int| 0 <= j < i ==> (#[trigger] queries@[j])@ == seq![text@[j]],
                decreases len - i,
            {
                queries.push(character_name(text.get_char(i)));
                i += 1;
            }
            assert(string_views(queries@) =~= character_names(text@));
        },
        None => {
            assert(string_views(queries@) =~= Seq::empty());
        },
    }
    queries
}

/// Makes the action for a button which submits the given text,
/// given for each character whether the keysym table knows it by itself as a name.
pub fn submit_text(text: &str, known: &Vec<bool>) -> (made: (action::Action, Vec<Report>))
    ensures
        made.0@ == spec_submit_text(text@, known@).0,
        report_views(made.1@) == spec_submit_text(text@, known@).1,
{
    let mut reports: Vec<Report> = Vec::new();
    assert(report_views(reports@) =~= Seq::empty());
    let submitted = if has_nul(text) {
        let message = String::from_str("Text ").concat(text).concat(" contains problems");
        report(&mut reports, Level::Warning, message);
        assert(report_views(reports@) =~= seq![(Level::Warning, text_problem_message(text@))]);
        None
    } else {
        Some(String::from_str(text))
    };
    let mut keys: Vec<KeySym> = Vec::new();
    let len = text.unicode_len();
    let mut i: usize = 0;
    while i < len
        invariant
            len == text@.len(),
            i <= len,
            keys@.len() == i,
            forall|j: int|
                0 <= j < i ==> (#[trigger] keys@[j])@ == spec_character_keysym(
                    text@[j],
                    answer(known@, j),
                ),
        decreases len - i,
    {
        let is_known = i < known.len() && known[i];
        keys.push(character_keysym(text.get_char(i), is_known));
        i += 1;
    }
    assert(keysym_names(keys@) =~= text_keysyms(text@, known@));
    (action::Action::Submit { text: submitted, keys }, reports)
}

/// Makes the action for a button which submits the keysym with the given name,
/// given whether the keysym table knows the name.
pub fn submit_keysym(keysym: &str, known: bool) -> (made: (action::Action, Vec<Report>))
    ensures
        made.0@ == spec_submit_keysym(keysym@, known).0,
        report_views(made.1@) == spec_submit_keysym(keysym@, known).1,
{
    let mut reports: Vec<Report> = Vec::new();
    assert(report_views(reports@) =~= Seq::empty());
    let mut keys: Vec<KeySym> = Vec::new();
    if known {
        keys.push(KeySym(String::from_str(keysym)));
        assert(keysym_names(keys@) =~= seq![keysym@]);
    } else {
        let message = String::from_str("Keysym name invalid: ").concat(keysym);
        report(&mut reports, Level::Warning, message);
        assert(report_views(reports@) =~= seq![(Level::Warning, invalid_keysym_message(keysym@))]);
        // placeholder
        keys.push(KeySym(String::from_str("space")));
        assert(keysym_names(keys@) =~= seq!["space"@]);
    }
    (action::Action::Submit { text: None, keys }, reports)
}

/// Makes the action for a button which applies the given modifier.
pub fn apply_modifier(modifier: Modifier) -> (made: (action::Action, Vec<Report>))
    ensures
        made.0@ == spec_apply_modifier(modifier).0,
        report_views(made.1@) == spec_apply_modifier(modifier).1,
{
    let mut reports: Vec<Report> = Vec::new();
    assert(report_views(reports@) =~= Seq::empty());
    let made = match modifier {
        Modifier::Control => action::Action::ApplyModifier(action::Modifier::Control),
        Modifier::Alt => action::Action::ApplyModifier(action::Modifier::Alt),
        Modifier::Mod4 => action::Action::ApplyModifier(action::Modifier::Mod4),
        unsupported_modifier => {
            let message = String::from_str("Modifier ").concat(
                modifier_name(unsupported_modifier),
            ).concat(" unsupported");
            report(&mut reports, Level::Bug, message);
            assert(report_views(reports@) =~= seq![
                (Level::Bug, unsupported_modifier_message(unsupported_modifier)),
            ]);
            let keys: Vec<KeySym> = Vec::new();
            assert(keysym_names(keys@) =~= Seq::empty());
            action::Action::Submit { text: None, keys }
        },
    };
    (made, reports)
}

/// Makes the action for a button with a special action.
fn special_action(special: &Action, name: &str, view_names: &Vec<String>) -> (made: (
    action::Action,
    Vec<Report>,
))
    ensures
        made.0@ == spec_special_action(*special, name@, string_views(view_names@)).0,
        report_views(made.1@) == spec_special_action(*special, name@, string_views(view_names@)).1,
{
    let mut reports: Vec<Report> = Vec::new();
    assert(report_views(reports@) =~= Seq::empty());
    let made = match special {
        Action::SetView(view_name) => action::Action::SetView(
            filter_view_name(name, view_name.clone(), view_names, &mut reports),
        ),
        Action::Locking { lock_view, unlock_view, pops, looks_locked_from } => {
            let lock = filter_view_name(name, lock_view.clone(), view_names, &mut reports);
            let unlock = filter_view_name(name, unlock_view.clone(), view_names, &mut reports);
            let latches = match pops {
                Some(pops) => *pops,
                None => true,
            };
            action::Action::LockView {
                lock,
                unlock,
                latches,
                looks_locked_from: clone_strings(looks_locked_from),
            }
        },
        Action::ShowPrefs => action::Action::ShowPreferences,
        Action::Erase => action::Action::Erase,
    };
    assert(report_views(reports@) =~= spec_special_action(
        *special,
        name@,
        string_views(view_names@),
    ).1);
    (made, reports)
}

/// Tells what the button with the given name does, and what is wrong with its description.
///
/// `symbol_meta` is the description of the button, if the layout gives one.
/// `view_names` are the views of the layout.
/// `known` holds, for each of the names that [`keysym_queries`] lists for the button,
/// whether the keysym table knows the name. An answer that is missing counts as a no.
pub fn create_action(
    symbol_meta: Option<&ButtonMeta>,
    name: &str,
    view_names: &Vec<String>,
    known: &Vec<bool>,
) -> (made: (action::Action, Vec<Report>))
    ensures
        made.0@ == spec_create_action(symbol_meta, name@, string_views(view_names@), known@).0,
        report_views(made.1@) == spec_create_action(
            symbol_meta,
            name@,
            string_views(view_names@),
            known@,
        ).1,
{
    match symbol_meta {
        None => submit_text(name, known),
        Some(meta) => match (&meta.action, &meta.keysym, &meta.text, &meta.modifier) {
            (Some(special), None, None, None) => special_action(special, name, view_names),
            (None, Some(keysym), None, None) => {
                let is_known = 0 < known.len() && known[0];
                submit_keysym(keysym.as_str(), is_known)
            },
            (None, None, Some(text), None) => submit_text(text.as_str(), known),
            (None, None, None, Some(modifier)) => apply_modifier(*modifier),
            (None, None, None, None) => submit_text(name, known),
            _ => {
                let mut reports: Vec<Report> = Vec::new();
                assert(report_views(reports@) =~= Seq::empty());
                let message = String::from_str("Button ").concat(name).concat(
                    " has more than one of (action, keysym, text, modifier)",
                );
                report(&mut reports, Level::Warning, message);
                assert(report_views(reports@) =~= seq![(Level::Warning, conflict_message(name@))]);
                proof {
                    reveal_strlit("");
                }
                let (made, _) = submit_text("", known);
                assert(""@ =~= Seq::<char>::empty());
                (made, reports)
            },
        },
    }
}

/// Lists the keysyms which the actions submit through the virtual keyboard,
/// action by action.
pub fn extract_symbol_names(actions: &[(&str, action::Action)]) -> (names: Vec<String>)
    ensures
        string_views(names@) == spec_symbol_names(actions@),
{
    let mut names: Vec<String> = Vec::new();
    let mut i: usize = 0;
    assert(actions@.take(0) =~= Seq::empty());
    assert(string_views(names@) =~= Seq::empty());
    while i < actions.len()
        invariant
            i <= actions@.len(),
            string_views(names@) == spec_symbol_names(actions@.take(i as int)),
        decreases actions@.len() - i,
    {
        let ghost before = string_views(names@);
        proof {
            assert(actions@.take(i + 1).drop_last() =~= actions@.take(i as int));
            assert(actions@.take(i + 1).last() == actions@[i as int]);
        }
        match &actions[i].1 {
            action::Action::Submit { text: _, keys } => {
                let mut k: usize = 0;
                while k < keys.len()
                    invariant
                        k <= keys@.len(),
                        string_views(names@) == before + keysym_names(keys@).take(k as int),
                    decreases keys@.len() - k,
                {
                    let ghost so_far = string_views(names@);
                    names.push(keys[k].0.clone());
                    assert(string_views(names@) =~= so_far.push(keys@[k as int]@));
                    assert(keysym_names(keys@).take(k + 1) =~= keysym_names(keys@).take(
                        k as int,
                    ).push(keys@[k as int]@));
                    k += 1;
                }
                assert(keysym_names(keys@).take(keys@.len() as int) =~= keysym_names(keys@));
            },
            action::Action::Erase => {
                names.push(String::from_str("BackSpace"));
                assert(string_views(names@) =~= before + seq!["BackSpace"@]);
            },
            _ => {
                assert(before + Seq::<Seq<char>>::empty() =~= before);
            },
        }
        i += 1;
    }
    assert(actions@.take(actions@.len() as int) =~= actions@);
    names
}

pub open spec fn invalid_text_message(text: Seq<char>) -> Seq<char> {
    "Text "@ + text + " is invalid"@
}

pub open spec fn missing_outline_message(outline: Seq<char>, name: Seq<char>) -> Seq<char> {
    "Outline named "@ + outline + " does not exist! Using default for button "@ + name
}

/// Whether the texts which end up on the button, or name it, can be shown:
/// neither the name of the button nor a label or an icon may hold a NUL.
pub open spec fn labels_well(symbol_meta: Option<&ButtonMeta>, name: Seq<char>) -> bool {
    &&& !name.contains('\0')
    &&& symbol_meta matches Some(meta) ==> {
        &&& meta.label matches Some(label) ==> !label@.contains('\0')
        &&& meta.label is None ==> (meta.icon matches Some(icon) ==> !icon@.contains('\0'))
    }
}

/// Tells whether the texts which end up on the button, or name it, can be shown.
pub fn can_label(symbol_meta: Option<&ButtonMeta>, name: &str) -> (possible: bool)
    ensures
        possible == labels_well(symbol_meta, name@),
{
    if has_nul(name) {
        return false;
    }
    match symbol_meta {
        None => true,
        Some(meta) => match (&meta.label, &meta.icon) {
            (Some(label), _) => !has_nul(label.as_str()),
            (None, Some(icon)) => !has_nul(icon.as_str()),
            (None, None) => true,
        },
    }
}

/// What goes on the button, and what there is to report about it.
/// The label comes first, then the icon, then the text which the button submits,
/// and a button with none of them shows its name.
/// Text with a NUL in it cannot be shown, and leaves the button blank.
pub open spec fn spec_button_label(symbol_meta: Option<&ButtonMeta>, name: Seq<char>) -> (
    LabelView,
    Seq<(Level, Seq<char>)>,
) {
    match symbol_meta {
        None => (LabelView::Text(name), Seq::empty()),
        Some(meta) => match (meta.label, meta.icon, meta.text) {
            (Some(label), _, _) => (LabelView::Text(label@), Seq::empty()),
            (None, Some(icon), _) => (LabelView::IconName(icon@), Seq::empty()),
            (None, None, Some(text)) => if text@.contains('\0') {
                (
                    LabelView::Text(Seq::empty()),
                    seq![(Level::Warning, invalid_text_message(text@))],
                )
            } else {
                (LabelView::Text(text@), Seq::empty())
            },
            (None, None, None) => (LabelView::Text(name), Seq::empty()),
        },
    }
}

/// Chooses what goes on the button with the given name.
pub fn button_label(symbol_meta: Option<&ButtonMeta>, name: &str) -> (made: (Label, Vec<Report>))
    requires
        labels_well(symbol_meta, name@),
    ensures
        made.0@ == spec_button_label(symbol_meta, name@).0,
        report_views(made.1@) == spec_button_label(symbol_meta, name@).1,
{
    let mut reports: Vec<Report> = Vec::new();
    assert(report_views(reports@) =~= Seq::empty());
    let label = match symbol_meta {
        None => Label::Text(String::from_str(name)),
        Some(meta) => match (&meta.label, &meta.icon, &meta.text) {
            (Some(label), _, _) => Label::Text(label.clone()),
            (None, Some(icon), _) => Label::IconName(icon.clone()),
            (None, None, Some(text)) => {
                if has_nul(text.as_str()) {
                    let message = String::from_str("Text ").concat(text.as_str()).concat(
                        " is invalid",
                    );
                    report(&mut reports, Level::Warning, message);
                    assert(report_views(reports@) =~= seq![
                        (Level::Warning, invalid_text_message(text@)),
                    ]);
                    Label::Text(String::new())
                } else {
                    Label::Text(text.clone())
                }
            },
            (None, None, None) => Label::Text(String::from_str(name)),
        },
    };
    (label, reports)
}

/// The outline for the button, and what there is to report about it:
/// the one which the description names if the layout has it, else the default one.
pub open spec fn spec_outline_name(
    symbol_meta: Option<&ButtonMeta>,
    name: Seq<char>,
    outlines: Seq<Seq<char>>,
) -> (Seq<char>, Seq<(Level, Seq<char>)>) {
    match symbol_meta {
        Some(meta) => match meta.outline {
            Some(outline) => if outlines.contains(outline@) {
                (outline@, Seq::empty())
            } else {
                ("default"@, seq![(Level::Warning, missing_outline_message(outline@, name))])
            },
            None => ("default"@, Seq::empty()),
        },
        None => ("default"@, Seq::empty()),
    }
}

/// Names the outline for the button with the given name,
/// out of the outlines which the layout defines.
pub fn outline_name(symbol_meta: Option<&ButtonMeta>, name: &str, outlines: &Vec<String>) -> (made: (
    String,
    Vec<Report>,
))
    ensures
        made.0@ == spec_outline_name(symbol_meta, name@, string_views(outlines@)).0,
        report_views(made.1@) == spec_outline_name(symbol_meta, name@, string_views(outlines@)).1,
{
    let mut reports: Vec<Report> = Vec::new();
    assert(report_views(reports@) =~= Seq::empty());
    let wanted = match symbol_meta {
        Some(meta) => match &meta.outline {
            Some(outline) => {
                if holds(outlines, outline) {
                    outline.clone()
                } else {
                    let message = String::from_str("Outline named ").concat(
                        outline.as_str(),
                    ).concat(" does not exist! Using default for button ").concat(name);
                    report(&mut reports, Level::Warning, message);
                    assert(report_views(reports@) =~= seq![
                        (Level::Warning, missing_outline_message(outline@, name@)),
                    ]);
                    String::from_str("default")
                }
            },
            None => String::from_str("default"),
        },
        None => String::from_str("default"),
    };
    (wanted, reports)
}

/// Whether the character is one of the five which set button names apart in a row:
/// space, tab, line feed, form feed and carriage return.
pub open spec fn is_separator(character: char) -> bool {
    character == ' ' || character == '\t' || character == '\n' || character == '\x0C'
        || character == '\r'
}

/// The button names in a row: the longest stretches without a separator, from left to right.
pub open spec fn names_in_row(row: Seq<char>) -> Seq<Seq<char>>
    decreases row.len(),
{
    if row.len() == 0 {
        Seq::empty()
    } else {
        let before = names_in_row(row.drop_last());
        if is_separator(row.last()) {
            before
        } else if row.len() >= 2 && !is_separator(row[row.len() - 2]) && before.len() > 0 {
            // the name goes on
            before.drop_last().push(before.last().push(row.last()))
        } else {
            // a name begins
            before.push(seq![row.last()])
        }
    }
}

/// The button names in all the rows, row after row.
pub open spec fn names_in_rows(rows: Seq<Seq<char>>) -> Seq<Seq<char>>
    decreases rows.len(),
{
    if rows.len() == 0 {
        Seq::empty()
    } else {
        names_in_rows(rows.drop_last()) + names_in_row(rows.last())
    }
}

/// The names in the list without the repetitions: each name stays where it comes first.
pub open spec fn first_mentions(names: Seq<Seq<char>>) -> Seq<Seq<char>>
    decreases names.len(),
{
    if names.len() == 0 {
        Seq::empty()
    } else {
        let before = first_mentions(names.drop_last());
        if before.contains(names.last()) {
            before
        } else {
            before.push(names.last())
        }
    }
}

/// Leaving out the repetitions keeps every name, and leaves each of them once.
pub proof fn first_mentions_hold_each_name_once(names: Seq<Seq<char>>)
    ensures
        first_mentions(names).no_duplicates(),
        forall|name: Seq<char>| first_mentions(names).contains(name) == names.contains(name),
    decreases names.len(),
{
    if names.len() > 0 {
        let front = names.drop_last();
        let last = names.last();
        first_mentions_hold_each_name_once(front);
        let before = first_mentions(front);
        let kept = first_mentions(names);
        assert forall|name: Seq<char>| kept.contains(name) == names.contains(name) by {
            if names.contains(name) {
                let at = choose|at: int| 0 <= at < names.len() && names[at] == name;
                if at < front.len() {
                    assert(front[at] == name);
                    assert(front.contains(name));
                    assert(first_mentions(front).contains(name) == front.contains(name));
                    let kept_at = choose|kept_at: int|
                        0 <= kept_at < before.len() && before[kept_at] == name;
                    assert(kept[kept_at] == name);
                } else if before.contains(last) {
                    let kept_at = choose|kept_at: int|
                        0 <= kept_at < before.len() && before[kept_at] == last;
                    assert(kept[kept_at] == name);
                } else {
                    assert(kept[before.len() as int] == name);
                }
            }
            if kept.contains(name) {
                let kept_at = choose|kept_at: int| 0 <= kept_at < kept.len() && kept[kept_at] == name;
                if kept_at < before.len() {
                    assert(before[kept_at] == name);
                    assert(before.contains(name));
                    assert(first_mentions(front).contains(name) == front.contains(name));
                    let at = choose|at: int| 0 <= at < front.len() && front[at] == name;
                    assert(names[at] == name);
                } else {
                    assert(names[names.len() - 1] == name);
                }
            }
        }
    }
}

/// Tells whether the character sets button names apart.
fn separates(character: char) -> (separator: bool)
    ensures
        separator == is_separator(character),
{
    character == ' ' || character == '\t' || character == '\n' || character == '\x0C'
        || character == '\r'
}

/// Takes a row apart into the names of its buttons.
pub fn split_row(row: &str) -> (names: Vec<String>)
    ensures
        string_views(names@) == names_in_row(row@),
{
    let mut names: Vec<String> = Vec::new();
    let mut current = String::new();
    let len = row.unicode_len();
    let mut i: usize = 0;
    assert(row@.take(0) =~= Seq::empty());
    assert(string_views(names@) =~= Seq::empty());
    while i < len
        invariant
            len == row@.len(),
            i <= len,
            current@.len() > 0 ==> i > 0 && !is_separator(row@[i - 1]) && names_in_row(
                row@.take(i as int),
            ) == string_views(names@).push(current@),
            current@.len() == 0 ==> (i > 0 ==> is_separator(row@[i - 1])) && names_in_row(
                row@.take(i as int),
            ) == string_views(names@),
        decreases len - i,
    {
        let character = row.get_char(i);
        let ghost seen = row@.take(i as int);
        let ghost listed = string_views(names@);
        let ghost begun = current@;
        proof {
            assert(row@.take(i + 1).drop_last() =~= seen);
            assert(row@.take(i + 1).last() == character);
            if i > 0 {
                assert(row@.take(i + 1)[i - 1] == row@[i - 1]);
            }
        }
        if separates(character) {
            if current.unicode_len() > 0 {
                names.push(current);
                current = String::new();
                assert(string_views(names@) =~= listed.push(begun));
            }
        } else {
            string_push(&mut current, character);
            proof {
                if begun.len() > 0 {
                    assert(listed.push(begun).drop_last() =~= listed);
                } else {
                    assert(current@ =~= seq![character]);
                }
            }
        }
        i += 1;
    }
    assert(row@.take(len as int) =~= row@);
    if current.unicode_len() > 0 {
        let ghost listed = string_views(names@);
        let ghost begun = current@;
        names.push(current);
        assert(string_views(names@) =~= listed.push(begun));
    }
    names
}

/// Lists the buttons which the rows name, each of them once,
/// in the order in which the rows name them first.
pub fn button_names(rows: &Vec<String>) -> (names: Vec<String>)
    ensures
        string_views(names@) == first_mentions(names_in_rows(string_views(rows@))),
        string_views(names@).no_duplicates(),
{
    let mut names: Vec<String> = Vec::new();
    let mut i: usize = 0;
    assert(string_views(names@) =~= Seq::empty());
    assert(string_views(rows@).take(0) =~= Seq::empty());
    while i < rows.len()
        invariant
            i <= rows@.len(),
            string_views(names@) == first_mentions(
                names_in_rows(string_views(rows@).take(i as int)),
            ),
        decreases rows@.len() - i,
    {
        let row_names = split_row(rows[i].as_str());
        let ghost in_row = names_in_row(rows@[i as int]@);
        let ghost above = names_in_rows(string_views(rows@).take(i as int));
        let mut k: usize = 0;
        assert(above + in_row.take(0) =~= above);
        while k < row_names.len()
            invariant
                k <= row_names@.len(),
                string_views(row_names@) == in_row,
                string_views(names@) == first_mentions(above + in_row.take(k as int)),
            decreases row_names@.len() - k,
        {
            let ghost listed = string_views(names@);
            proof {
                assert(in_row[k as int] == row_names@[k as int]@);
                assert((above + in_row.take(k + 1)).drop_last() =~= above + in_row.take(k as int));
                assert((above + in_row.take(k + 1)).last() == in_row[k as int]);
            }
            if !holds(&names, &row_names[k]) {
                names.push(row_names[k].clone());
                assert(string_views(names@) =~= listed.push(in_row[k as int]));
            }
            k += 1;
        }
        proof {
            assert(in_row.take(row_names@.len() as int) =~= in_row);
            let grown_rows = string_views(rows@).take(i + 1);
            assert(grown_rows.drop_last() =~= string_views(rows@).take(i as int));
            assert(grown_rows.last() == rows@[i as int]@);
        }
        i += 1;
    }
    proof {
        assert(string_views(rows@).take(rows@.len() as int) =~= string_views(rows@));
        first_mentions_hold_each_name_once(names_in_rows(string_views(rows@)));
    }
    names
}

} // verus!
