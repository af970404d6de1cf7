//! The symbol object, defining actions that the key can do when activated.

use vstd::prelude::*;

verus! {

/// Name of the keysym.
#[derive(Debug, Clone, PartialEq, Eq)]
pub struct KeySym(pub String);

impl View for KeySym {
    type V = Seq<char>;

    open spec fn view(&self) -> Seq<char> {
        self.0@
    }
}

/// Use to send modified keypresses.
///
/// Control, Alt and Mod4 are the modifiers which don't interfere with levels,
/// so they can stay down while other keys get submitted.
#[derive(Debug, Clone, Copy, PartialEq, Eq, Hash, Structural)]
pub enum Modifier {
    Control,
    Alt,
    Mod4,
}

/// Action to perform on the keypress and, in reverse, on keyrelease.
#[derive(Debug, Clone, PartialEq, Eq)]
pub enum Action {
    /// Switch to this view
    SetView(String),
    /// Switch to a view and latch
    LockView {
        lock: String,
        /// When unlocked by pressing it or emitting a key
        unlock: String,
        /// Whether key has a latched state
        /// that pops when another key is pressed.
        latches: bool,
        /// Should take on *locked* appearance whenever latch comes back to those views.
        looks_locked_from: Vec<String>,
    },
    /// Hold this modifier for as long as the button is pressed
    ApplyModifier(Modifier),
    /// Submit some text
    Submit {
        /// Text to submit with input-method.
        /// If None, then keys are to be submitted instead.
        text: Option<String>,
        /// The key events this symbol submits when submitting text is not possible
        keys: Vec<KeySym>,
    },
    /// Erase a position behind the cursor
    Erase,
    ShowPreferences,
}

/// What an [`Action`] holds, as plain values.
pub enum ActionView {
    SetView(Seq<char>),
    LockView { lock: Seq<char>, unlock: Seq<char>, latches: bool, looks_locked_from: Seq<Seq<char>> },
    ApplyModifier(Modifier),
    Submit { text: Option<Seq<char>>, keys: Seq<Seq<char>> },
    Erase,
    ShowPreferences,
}

/// The names in a list of keysyms.
pub open spec fn keysym_names(keys: Seq<KeySym>) -> Seq<Seq<char>> {
    Seq::new(keys.len(), |i: int| keys[i]@)
}

/// The contents of a list of strings.
pub open spec fn string_views(strings: Seq<String>) -> Seq<Seq<char>> {
    Seq::new(strings.len(), |i: int| strings[i]@)
}

/// Copies a list of strings.
pub fn clone_strings(strings: &Vec<String>) -> (copy: Vec<String>)
    ensures
        string_views(copy@) == string_views(strings@),
{
    let mut copy: Vec<String> = Vec::new();
    let mut i: usize = 0;
    while i < strings.len()
        invariant
            i <= strings@.len(),
            copy@.len() == i,
            forall|j: int| 0 <= j < i ==> (#[trigger] copy@[j])@ == strings@[j]@,
        decreases strings@.len() - i,
    {
        copy.push(strings[i].clone());
        i += 1;
    }
    assert(string_views(copy@) =~= string_views(strings@));
    copy
}

impl View for Action {
    type V = ActionView;

    open spec fn view(&self) -> ActionView {
        match *self {
            Action::SetView(name) => ActionView::SetView(name@),
            Action::LockView { lock, unlock, latches, looks_locked_from } => ActionView::LockView {
                lock: lock@,
                unlock: unlock@,
                latches,
                looks_locked_from: string_views(looks_locked_from@),
            },
            Action::ApplyModifier(modifier) => ActionView::ApplyModifier(modifier),
            Action::Submit { text, keys } => ActionView::Submit {
                text: match text {
                    Some(text) => Some(text@),
                    None => None,
                },
                keys: keysym_names(keys@),
            },
            Action::Erase => ActionView::Erase,
            Action::ShowPreferences => ActionView::ShowPreferences,
        }
    }
}

} // verus!
