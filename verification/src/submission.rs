//! Managing the state of text input in the application.
//!
//! It needs to combine the input method and the virtual keyboard
//! to achieve a consistent view of the text-input state,
//! and to submit exactly what the user wanted.
//!
//! The virtual keyboard is always present.
//! The input method may not be, and it may go active and inactive at arbitrary times.
//! Those events should not cause any lost events.
//!
//! Every operation answers with the calls to make on the two channels, in order.
//! What the operations do is defined on plain values in [`SubmissionView`];
//! [`Submission`] is the same thing on the heap.

pub mod laws;
pub mod peer;

use vstd::prelude::*;
use crate::action::clone_strings;
use crate::action::string_views;
use crate::action::Modifier;
use crate::imservice::IMService;
use crate::imservice::IMServiceView;
use crate::imservice::SubmitError;
use crate::keyboard::KeyCode;
use crate::keyboard::KeyStateId;
use crate::keyboard::Modifiers;
use crate::keyboard::PressType;
use crate::layout::LayoutData;
use crate::protocol::call_views;
use crate::protocol::call_views_push;
use crate::protocol::Call;
use crate::protocol::CallView;
use crate::submission::laws::release_keeps_order;
use crate::submission::laws::select_keymap_keeps_order;
use crate::submission::laws::select_keymap_settles;
use crate::submission::laws::submitted_as_text_keeps_order;
use crate::util::vec_remove;

verus! {

/// The time of a key event, in milliseconds, as the virtual keyboard protocol counts it.
#[derive(Debug, Clone, Copy, PartialEq, Eq, Structural)]
pub struct Timestamp(pub u32);

/// How a pressed key got submitted.
#[derive(Debug, Clone, PartialEq, Eq)]
pub enum SubmittedAction {
    /// A collection of keycodes that were pressed
    VirtualKeyboard(Vec<KeyCode>),
    IMService,
}

/// What a [`SubmittedAction`] holds, as plain values.
pub enum SubmittedActionView {
    VirtualKeyboard(Seq<KeyCode>),
    IMService,
}

impl View for SubmittedAction {
    type V = SubmittedActionView;

    open spec fn view(&self) -> SubmittedActionView {
        match *self {
            SubmittedAction::VirtualKeyboard(keycodes) => SubmittedActionView::VirtualKeyboard(
                keycodes@,
            ),
            SubmittedAction::IMService => SubmittedActionView::IMService,
        }
    }
}

/// What pressing the key is meant to submit.
pub enum SubmitData<'a> {
    Text(&'a str),
    Erase,
    Keycodes,
}

/// What a [`SubmitData`] holds, as plain values.
pub enum SubmitDataView {
    Text(Seq<char>),
    Erase,
    Keycodes,
}

impl<'a> View for SubmitData<'a> {
    type V = SubmitDataView;

    open spec fn view(&self) -> SubmitDataView {
        match *self {
            SubmitData::Text(text) => SubmitDataView::Text(text@),
            SubmitData::Erase => SubmitDataView::Erase,
            SubmitData::Keycodes => SubmitDataView::Keycodes,
        }
    }
}

/// A key which is down, and how it got submitted.
pub type Pressed = (KeyStateId, SubmittedActionView);

/// Whether `idx` is the place of the first entry for the key.
pub open spec fn is_first_with_id<V>(entries: Seq<(KeyStateId, V)>, key_id: KeyStateId, idx: int) -> bool {
    &&& 0 <= idx < entries.len()
    &&& entries[idx].0 == key_id
    &&& forall|j: int| 0 <= j < idx ==> (#[trigger] entries[j]).0 != key_id
}

/// The place of the first entry for the key, if it has one.
pub open spec fn find_id<V>(entries: Seq<(KeyStateId, V)>, key_id: KeyStateId) -> Option<int> {
    if exists|idx: int| is_first_with_id(entries, key_id, idx) {
        Some(choose|idx: int| is_first_with_id(entries, key_id, idx))
    } else {
        None
    }
}

/// The first entry for a key is found at its place, and nowhere else.
pub proof fn find_id_is_first<V>(entries: Seq<(KeyStateId, V)>, key_id: KeyStateId, idx: int)
    requires
        is_first_with_id(entries, key_id, idx),
    ensures
        find_id(entries, key_id) == Some(idx),
{
    let found = choose|idx: int| is_first_with_id(entries, key_id, idx);
    assert(is_first_with_id(entries, key_id, found));
    if found < idx {
        assert(entries[found].0 != key_id);
    }
    if idx < found {
        assert(entries[idx].0 != key_id);
    }
}

/// A key without an entry is not found.
pub proof fn find_id_of_absent<V>(entries: Seq<(KeyStateId, V)>, key_id: KeyStateId)
    requires
        forall|j: int| 0 <= j < entries.len() ==> (#[trigger] entries[j]).0 != key_id,
    ensures
        find_id(entries, key_id) is None,
{
}

/// What has to go out to let go of a key which was submitted this way:
/// a key made of a single keycode is still down,
/// anything else was complete once it was submitted.
pub open spec fn release_of(action: SubmittedActionView, time: Timestamp) -> Seq<CallView> {
    match action {
        SubmittedActionView::VirtualKeyboard(keycodes) => if keycodes.len() == 1 {
            seq![CallView::SwitchKey { code: keycodes[0].code, press: PressType::Released, time }]
        } else {
            Seq::empty()
        },
        SubmittedActionView::IMService => Seq::empty(),
    }
}

/// The releases of all the keys in the list, in the order of the list.
pub open spec fn releases_of(pressed: Seq<Pressed>, time: Timestamp) -> Seq<CallView>
    decreases pressed.len(),
{
    if pressed.len() == 0 {
        Seq::empty()
    } else {
        releases_of(pressed.drop_last(), time) + release_of(pressed.last().1, time)
    }
}

/// The keys in the list which were submitted as text, in the order of the list.
pub open spec fn submitted_as_text(pressed: Seq<Pressed>) -> Seq<Pressed>
    decreases pressed.len(),
{
    if pressed.len() == 0 {
        Seq::empty()
    } else if pressed.last().1 is IMService {
        submitted_as_text(pressed.drop_last()).push(pressed.last())
    } else {
        submitted_as_text(pressed.drop_last())
    }
}

/// What goes out for one keycode of a key which gets pressed.
/// Pressing a key made out of a single keycode is simple:
/// press on press, release on release.
/// A key made of multiple keycodes has to submit them one after the other.
pub open spec fn press_of(code: u32, single: bool, time: Timestamp) -> Seq<CallView> {
    if single {
        seq![CallView::SwitchKey { code, press: PressType::Pressed, time }]
    } else {
        seq![
            CallView::SwitchKey { code, press: PressType::Pressed, time },
            CallView::SwitchKey { code, press: PressType::Released, time },
        ]
    }
}

/// Whether some key in the list applies the modifier.
pub open spec fn applies(modifiers: Seq<(KeyStateId, Modifier)>, modifier: Modifier) -> bool {
    exists|i: int| 0 <= i < modifiers.len() && (#[trigger] modifiers[i]).1 == modifier
}

/// The modifier state in which exactly the modifiers applied by the keys in the list are depressed.
pub open spec fn raw_modifiers(modifiers: Seq<(KeyStateId, Modifier)>) -> Modifiers {
    Modifiers::of(
        applies(modifiers, Modifier::Control),
        applies(modifiers, Modifier::Alt),
        applies(modifiers, Modifier::Mod4),
    )
}

/// The modifiers which the keys in the list apply, each of them once.
pub open spec fn active_modifiers(modifiers: Seq<(KeyStateId, Modifier)>) -> Seq<Modifier> {
    (if applies(modifiers, Modifier::Control) {
        seq![Modifier::Control]
    } else {
        Seq::empty()
    }) + (if applies(modifiers, Modifier::Alt) {
        seq![Modifier::Alt]
    } else {
        Seq::empty()
    }) + (if applies(modifiers, Modifier::Mod4) {
        seq![Modifier::Mod4]
    } else {
        Seq::empty()
    })
}

/// How often the calls switch to the keymap with the given index.
pub open spec fn keymap_updates(calls: Seq<CallView>, index: usize) -> nat
    decreases calls.len(),
{
    if calls.len() == 0 {
        0
    } else {
        keymap_updates(calls.drop_last(), index) + if calls.last() == (CallView::UpdateKeymap {
            index,
        }) {
            1nat
        } else {
            0nat
        }
    }
}

/// The state of text input, as plain values.
pub struct SubmissionView {
    /// The input method, if the compositor offers one.
    pub imservice: Option<IMServiceView>,
    /// One entry for each modifier key which is held, oldest first.
    pub modifiers_active: Seq<(KeyStateId, Modifier)>,
    /// One entry for each key which is down, oldest first.
    pub pressed: Seq<Pressed>,
    /// The keymaps of the layout in use.
    pub keymaps: Seq<Seq<char>>,
    /// Which keymap the virtual keyboard was last switched to,
    /// or nothing if the choice has to be made again.
    pub keymap_idx: Option<usize>,
}

/// The state after an operation, and the calls that it sends out.
pub type Step = (SubmissionView, Seq<CallView>);

impl SubmissionView {
    /// What holds between any two operations:
    /// the selected keymap exists,
    /// and every key which is still down on the virtual keyboard
    /// went down under the selected keymap.
    pub open spec fn wf(self) -> bool {
        &&& self.keymap_idx matches Some(idx) ==> idx < self.keymaps.len()
        &&& forall|i: int|
            0 <= i < self.pressed.len() ==> self.holds_down((#[trigger] self.pressed[i]).1)
    }

    /// Whether a key submitted this way is either complete,
    /// or down under the selected keymap.
    pub open spec fn holds_down(self, action: SubmittedActionView) -> bool {
        action matches SubmittedActionView::VirtualKeyboard(keycodes) ==> keycodes.len() == 1
            ==> self.keymap_idx == Some(keycodes[0].keymap_idx)
    }

    /// Whether the key is down.
    pub open spec fn is_pressed(self, key_id: KeyStateId) -> bool {
        exists|i: int| 0 <= i < self.pressed.len() && (#[trigger] self.pressed[i]).0 == key_id
    }

    /// Whether no key is down more than once.
    pub open spec fn pressed_once(self) -> bool {
        forall|i: int, j: int|
            0 <= i < j < self.pressed.len() ==> (#[trigger] self.pressed[i]).0 != (
            #[trigger] self.pressed[j]).0
    }

    /// The state right after both channels got connected.
    pub open spec fn initial(imservice: Option<IMServiceView>) -> SubmissionView {
        SubmissionView {
            imservice,
            modifiers_active: Seq::empty(),
            pressed: Seq::empty(),
            keymaps: Seq::empty(),
            keymap_idx: None,
        }
    }

    /// Tells the virtual keyboard which modifiers are depressed,
    /// whether that changes anything or not.
    pub open spec fn update_modifiers(self) -> Seq<CallView> {
        seq![CallView::SetModifiers(raw_modifiers(self.modifiers_active))]
    }

    /// A modifier key went down.
    pub open spec fn add_modifier(self, key_id: KeyStateId, modifier: Modifier) -> Step {
        let next = SubmissionView {
            modifiers_active: self.modifiers_active.push((key_id, modifier)),
            ..self
        };
        (next, next.update_modifiers())
    }

    /// A modifier key came up. Only its oldest entry goes.
    pub open spec fn drop_modifier(self, key_id: KeyStateId) -> Step {
        let next = match find_id(self.modifiers_active, key_id) {
            Some(idx) => SubmissionView {
                modifiers_active: self.modifiers_active.remove(idx),
                ..self
            },
            None => self,
        };
        (next, next.update_modifiers())
    }

    /// Lets go of all modifiers.
    /// Where none is held, nothing goes out:
    /// this also happens before the first keymap is set,
    /// when the virtual keyboard cannot take a modifier state yet.
    pub open spec fn clear_all_modifiers(self) -> Step {
        if self.modifiers_active.len() == 0 {
            (self, Seq::empty())
        } else {
            (
                SubmissionView { modifiers_active: Seq::empty(), ..self },
                seq![CallView::SetModifiers(Modifiers::spec_empty())],
            )
        }
    }

    /// Lets go of all keys which got submitted through the virtual keyboard.
    pub open spec fn release_all_virtual_keys(self, time: Timestamp) -> Step {
        (
            SubmissionView { pressed: submitted_as_text(self.pressed), ..self },
            releases_of(self.pressed, time),
        )
    }

    /// Changes keymap and clears pressed keys and modifiers,
    /// unless the keymap is the selected one already.
    ///
    /// It's not obvious if clearing is the right thing to do,
    /// but a keymap update may (or may not) do that on the other side,
    /// possibly putting the modifiers and the pressed keys out of sync,
    /// so a consistent stance is adopted to avoid that.
    /// Everything is let go under the old keymap, before the new one goes out.
    pub open spec fn select_keymap(self, idx: usize, time: Timestamp) -> Step {
        if self.keymap_idx == Some(idx) {
            (self, Seq::empty())
        } else {
            let (cleared, modifier_calls) = self.clear_all_modifiers();
            let (released, release_calls) = cleared.release_all_virtual_keys(time);
            (
                SubmissionView { keymap_idx: Some(idx), ..released },
                modifier_calls + release_calls + seq![CallView::UpdateKeymap { index: idx }],
            )
        }
    }

    /// Submits the keycodes through the virtual keyboard, one after the other,
    /// each under its own keymap.
    pub open spec fn press_keycodes(self, keycodes: Seq<KeyCode>, single: bool, time: Timestamp) -> Step
        decreases keycodes.len(),
    {
        if keycodes.len() == 0 {
            (self, Seq::empty())
        } else {
            let (before, calls) = self.press_keycodes(keycodes.drop_last(), single, time);
            let (selected, keymap_calls) = before.select_keymap(keycodes.last().keymap_idx, time);
            (selected, calls + keymap_calls + press_of(keycodes.last().code, single, time))
        }
    }

    /// Whether a press with this data goes to the input method:
    /// there must be one, it must be active, no modifier may be held,
    /// and there must be text to submit.
    /// Erasing never goes there: the input method wants the number of bytes to erase,
    /// and the text in front of the cursor is not tracked.
    pub open spec fn submits_as_text(self, data: SubmitDataView) -> bool {
        &&& self.modifiers_active.len() == 0
        &&& self.imservice matches Some(imservice) && imservice.current.active
        &&& data is Text
    }

    /// A key went down.
    pub open spec fn press(
        self,
        key_id: KeyStateId,
        data: SubmitDataView,
        keycodes: Seq<KeyCode>,
        time: Timestamp,
    ) -> Step {
        if self.submits_as_text(data) {
            (
                SubmissionView {
                    pressed: self.pressed.push((key_id, SubmittedActionView::IMService)),
                    ..self
                },
                seq![
                    CallView::CommitString(data->Text_0),
                    CallView::Commit { serial: self.imservice->0.serial },
                ],
            )
        } else {
            let (submitted, calls) = self.press_keycodes(keycodes, keycodes.len() == 1, time);
            (
                SubmissionView {
                    pressed: submitted.pressed.push(
                        (key_id, SubmittedActionView::VirtualKeyboard(keycodes)),
                    ),
                    ..submitted
                },
                calls,
            )
        }
    }

    /// A key came up. Only its oldest entry goes.
    /// A key which is not down came up already, and nothing happens.
    pub open spec fn release(self, key_id: KeyStateId, time: Timestamp) -> Step {
        match find_id(self.pressed, key_id) {
            None => (self, Seq::empty()),
            Some(idx) => {
                let rest = SubmissionView { pressed: self.pressed.remove(idx), ..self };
                match self.pressed[idx].1 {
                    // string already sent, nothing to do
                    SubmittedActionView::IMService => (rest, Seq::empty()),
                    // no matter if the input method got activated,
                    // keys must be released
                    SubmittedActionView::VirtualKeyboard(keycodes) => if keycodes.len() == 1 {
                        let (selected, keymap_calls) = rest.select_keymap(
                            keycodes[0].keymap_idx,
                            time,
                        );
                        (selected, keymap_calls + release_of(self.pressed[idx].1, time))
                    } else {
                        (rest, Seq::empty())
                    },
                }
            },
        }
    }

    /// A new layout comes into use.
    /// Its first keymap gets selected, also where the old first keymap was selected before.
    pub open spec fn use_layout(self, keymaps: Seq<Seq<char>>, time: Timestamp) -> Step {
        (SubmissionView { keymaps, keymap_idx: None, ..self }).select_keymap(0, time)
    }
}

/// The entries of the list of pressed keys, as plain values.
pub open spec fn pressed_views(pressed: Seq<(KeyStateId, SubmittedAction)>) -> Seq<Pressed> {
    Seq::new(pressed.len(), |i: int| (pressed[i].0, pressed[i].1@))
}

/// The state of text input: what is held and what is down, and under which keymap.
pub struct Submission {
    imservice: Option<Box<IMService>>,
    modifiers_active: Vec<(KeyStateId, Modifier)>,
    pressed: Vec<(KeyStateId, SubmittedAction)>,
    keymaps: Vec<String>,
    keymap_idx: Option<usize>,
}

impl View for Submission {
    type V = SubmissionView;

    closed spec fn view(&self) -> SubmissionView {
        SubmissionView {
            imservice: match self.imservice {
                Some(imservice) => Some(imservice@),
                None => None,
            },
            modifiers_active: self.modifiers_active@,
            pressed: pressed_views(self.pressed@),
            keymaps: string_views(self.keymaps@),
            keymap_idx: self.keymap_idx,
        }
    }
}

/// Copies a list of keycodes.
fn copy_keycodes(keycodes: &Vec<KeyCode>) -> (copy: Vec<KeyCode>)
    ensures
        copy@ == keycodes@,
{
    let mut copy: Vec<KeyCode> = Vec::new();
    let mut i: usize = 0;
    while i < keycodes.len()
        invariant
            i <= keycodes@.len(),
            copy@ == keycodes@.take(i as int),
        decreases keycodes@.len() - i,
    {
        copy.push(keycodes[i]);
        assert(keycodes@.take(i + 1) =~= keycodes@.take(i as int).push(keycodes@[i as int]));
        i += 1;
    }
    assert(keycodes@.take(keycodes@.len() as int) =~= keycodes@);
    copy
}

impl Submission {
    /// Starts out with nothing held or down, no layout, and no keymap selected.
    pub fn new(imservice: Option<Box<IMService>>) -> (submission: Self)
        ensures
            submission@ == SubmissionView::initial(
                match imservice {
                    Some(imservice) => Some(imservice@),
                    None => None,
                },
            ),
            submission@.wf(),
    {
        let submission = Submission {
            imservice,
            modifiers_active: Vec::new(),
            pressed: Vec::new(),
            keymaps: Vec::new(),
            keymap_idx: None,
        };
        assert(submission@.pressed =~= Seq::empty());
        assert(submission@.keymaps =~= Seq::empty());
        submission
    }

    /// The input method, for the updates which come in from the compositor.
    pub fn imservice_mut(&mut self) -> (imservice: Option<&mut IMService>)
        ensures
            match imservice {
                Some(imservice) => old(self)@.imservice == Some(imservice@) && final(self)@ == (
                SubmissionView { imservice: Some(final(imservice)@), ..old(self)@ }),
                None => old(self)@.imservice is None && final(self)@ == old(self)@,
            },
    {
        match &mut self.imservice {
            Some(imservice) => Some(&mut **imservice),
            None => None,
        }
    }

    /// The keymap which the virtual keyboard was last switched to,
    /// or nothing while no layout is in use.
    pub fn selected_keymap(&self) -> (idx: Option<usize>)
        ensures
            idx == self@.keymap_idx,
    {
        self.keymap_idx
    }

    /// How many keymaps the layout in use has.
    pub fn keymap_count(&self) -> (count: usize)
        ensures
            count == self@.keymaps.len(),
    {
        self.keymaps.len()
    }

    /// Tells whether the key is down.
    pub fn is_pressed(&self, key_id: KeyStateId) -> (down: bool)
        ensures
            down == self@.is_pressed(key_id),
    {
        let mut i: usize = 0;
        while i < self.pressed.len()
            invariant
                i <= self.pressed@.len(),
                forall|j: int| 0 <= j < i ==> (#[trigger] self@.pressed[j]).0 != key_id,
            decreases self.pressed@.len() - i,
        {
            if self.pressed[i].0 == key_id {
                assert(self@.pressed[i as int].0 == key_id);
                return true;
            }
            i += 1;
        }
        false
    }

    fn update_modifiers(&self, calls: &mut Vec<Call>)
        ensures
            call_views(final(calls)@) == call_views(old(calls)@) + self@.update_modifiers(),
    {
        let mut control = false;
        let mut alt = false;
        let mut mod4 = false;
        let mut i: usize = 0;
        while i < self.modifiers_active.len()
            invariant
                i <= self.modifiers_active@.len(),
                control == applies(self.modifiers_active@.take(i as int), Modifier::Control),
                alt == applies(self.modifiers_active@.take(i as int), Modifier::Alt),
                mod4 == applies(self.modifiers_active@.take(i as int), Modifier::Mod4),
            decreases self.modifiers_active@.len() - i,
        {
            let ghost before = self.modifiers_active@.take(i as int);
            let ghost after = self.modifiers_active@.take(i + 1);
            let modifier = self.modifiers_active[i].1;
            proof {
                assert(after[i as int] == self.modifiers_active@[i as int]);
                assert forall|m: Modifier|
                    applies(after, m) == (applies(before, m) || m == modifier) by {
                    if applies(before, m) {
                        let k = choose|k: int| 0 <= k < before.len() && (#[trigger] before[k]).1 == m;
                        assert(after[k] == before[k]);
                    }
                    if applies(after, m) {
                        let k = choose|k: int| 0 <= k < after.len() && (#[trigger] after[k]).1 == m;
                        if k < i {
                            assert(before[k] == after[k]);
                        }
                    }
                }
            }
            match modifier {
                Modifier::Control => {
                    control = true;
                },
                Modifier::Alt => {
                    alt = true;
                },
                Modifier::Mod4 => {
                    mod4 = true;
                },
            }
            i += 1;
        }
        assert(self.modifiers_active@.take(i as int) =~= self.modifiers_active@);
        let raw_modifiers = Modifiers::from_flags(control, alt, mod4);
        proof {
            call_views_push(calls@, Call::SetModifiers(raw_modifiers));
        }
        calls.push(Call::SetModifiers(raw_modifiers));
    }

    /// A modifier key went down.
    pub fn handle_add_modifier(&mut self, key_id: KeyStateId, modifier: Modifier, _time: Timestamp) -> (calls:
        Vec<Call>)
        ensures
            (final(self)@, call_views(calls@)) == old(self)@.add_modifier(key_id, modifier),
            old(self)@.wf() ==> final(self)@.wf(),
    {
        let mut calls = Vec::new();
        self.modifiers_active.push((key_id, modifier));
        self.update_modifiers(&mut calls);
        assert(call_views(calls@) =~= self@.update_modifiers());
        calls
    }

    /// A modifier key came up.
    pub fn handle_drop_modifier(&mut self, key_id: KeyStateId, _time: Timestamp) -> (calls: Vec<Call>)
        ensures
            (final(self)@, call_views(calls@)) == old(self)@.drop_modifier(key_id),
            old(self)@.wf() ==> final(self)@.wf(),
    {
        let mut calls = Vec::new();
        let is_key = |entry: &(KeyStateId, Modifier)| -> (found: bool)
            ensures
                found == (entry.0 == key_id),
            { entry.0 == key_id };
        let removed = vec_remove(&mut self.modifiers_active, is_key);
        proof {
            let before = old(self)@.modifiers_active;
            match removed {
                Some(_) => {
                    let idx = choose|idx: int|
                        crate::util::first_match(before, is_key, idx)
                            && self.modifiers_active@ == before.remove(idx);
                    assert(is_first_with_id(before, key_id, idx));
                    find_id_is_first(before, key_id, idx);
                },
                None => {
                    find_id_of_absent(before, key_id);
                },
            }
        }
        self.update_modifiers(&mut calls);
        assert(call_views(calls@) =~= self@.update_modifiers());
        calls
    }

    /// Tells whether some key holds the modifier.
    pub fn is_modifier_active(&self, modifier: Modifier) -> (active: bool)
        ensures
            active == applies(self@.modifiers_active, modifier),
    {
        let mut i: usize = 0;
        while i < self.modifiers_active.len()
            invariant
                i <= self.modifiers_active@.len(),
                forall|j: int| 0 <= j < i ==> (#[trigger] self.modifiers_active@[j]).1 != modifier,
            decreases self.modifiers_active@.len() - i,
        {
            if self.modifiers_active[i].1 == modifier {
                return true;
            }
            i += 1;
        }
        false
    }

    /// The modifiers which are held, each of them once: Control, Alt and Mod4, in this order.
    pub fn get_active_modifiers(&self) -> (active: Vec<Modifier>)
        ensures
            active@ == active_modifiers(self@.modifiers_active),
            active@.no_duplicates(),
            forall|modifier: Modifier|
                active@.contains(modifier) == applies(self@.modifiers_active, modifier),
    {
        let control = self.is_modifier_active(Modifier::Control);
        let alt = self.is_modifier_active(Modifier::Alt);
        let mod4 = self.is_modifier_active(Modifier::Mod4);
        let mut active = Vec::new();
        if control {
            active.push(Modifier::Control);
        }
        if alt {
            active.push(Modifier::Alt);
        }
        if mod4 {
            active.push(Modifier::Mod4);
        }
        proof {
            let first = if control {
                seq![Modifier::Control]
            } else {
                Seq::empty()
            };
            let second = if alt {
                seq![Modifier::Alt]
            } else {
                Seq::empty()
            };
            let third = if mod4 {
                seq![Modifier::Mod4]
            } else {
                Seq::empty()
            };
            assert(active@ =~= first + second + third);
            if control {
                assert(active@[0] == Modifier::Control);
            }
            if alt {
                assert(active@[first.len() as int] == Modifier::Alt);
            }
            if mod4 {
                assert(active@[(first.len() + second.len()) as int] == Modifier::Mod4);
            }
        }
        active
    }

    fn clear_all_modifiers(&mut self, calls: &mut Vec<Call>)
        ensures
            final(self)@ == old(self)@.clear_all_modifiers().0,
            call_views(final(calls)@) == call_views(old(calls)@) + old(self)@.clear_all_modifiers().1,
    {
        // Looks like an optimization,
        // but preemptive cleaning is needed before setting a new keymap,
        // so removing this check would break keymap setting.
        if self.modifiers_active.is_empty() {
            assert(call_views(calls@) + Seq::<CallView>::empty() =~= call_views(calls@));
            return ;
        }
        self.modifiers_active = Vec::new();
        proof {
            call_views_push(calls@, Call::SetModifiers(Modifiers::spec_empty()));
        }
        calls.push(Call::SetModifiers(Modifiers::empty()));
    }

    fn release_all_virtual_keys(&mut self, time: Timestamp, calls: &mut Vec<Call>)
        ensures
            final(self)@ == old(self)@.release_all_virtual_keys(time).0,
            call_views(final(calls)@) == call_views(old(calls)@) + old(self)@.release_all_virtual_keys(time).1,
    {
        let ghost pressed = self@.pressed;
        let mut kept: Vec<(KeyStateId, SubmittedAction)> = Vec::new();
        let mut i: usize = 0;
        assert(pressed.take(0) =~= Seq::empty());
        assert(call_views(calls@) + Seq::<CallView>::empty() =~= call_views(calls@));
        assert(pressed_views(kept@) =~= Seq::empty());
        while i < self.pressed.len()
            invariant
                *self == *old(self),
                pressed == self@.pressed,
                pressed == pressed_views(self.pressed@),
                i <= self.pressed@.len(),
                pressed_views(kept@) == submitted_as_text(pressed.take(i as int)),
                call_views(calls@) == call_views(old(calls)@) + releases_of(
                    pressed.take(i as int),
                    time,
                ),
            decreases self.pressed@.len() - i,
        {
            let ghost calls_before = calls@;
            let ghost kept_before = kept@;
            proof {
                assert(pressed.take(i + 1).drop_last() =~= pressed.take(i as int));
                assert(pressed.take(i + 1).last() == pressed[i as int]);
                assert(pressed[i as int].1 == self.pressed@[i as int].1@);
            }
            let id = self.pressed[i].0;
            match &self.pressed[i].1 {
                SubmittedAction::VirtualKeyboard(keycodes) => {
                    if keycodes.len() == 1 {
                        let call = Call::SwitchKey {
                            code: keycodes[0].code,
                            press: PressType::Released,
                            time,
                        };
                        proof {
                            call_views_push(calls@, call);
                        }
                        calls.push(call);
                    }
                },
                SubmittedAction::IMService => {
                    kept.push((id, SubmittedAction::IMService));
                    assert(pressed_views(kept@) =~= pressed_views(kept_before).push(
                        pressed[i as int],
                    ));
                },
            }
            assert(call_views(calls@) =~= call_views(old(calls)@) + releases_of(
                pressed.take(i + 1),
                time,
            ));
            i += 1;
        }
        assert(pressed.take(i as int) =~= pressed);
        self.pressed = kept;
    }

    fn select_keymap(&mut self, idx: usize, time: Timestamp, calls: &mut Vec<Call>)
        requires
            idx < old(self)@.keymaps.len(),
        ensures
            final(self)@ == old(self)@.select_keymap(idx, time).0,
            call_views(final(calls)@) == call_views(old(calls)@) + old(self)@.select_keymap(
                idx,
                time,
            ).1,
    {
        let selected = match self.keymap_idx {
            Some(current) => current == idx,
            None => false,
        };
        if !selected {
            self.clear_all_modifiers(calls);
            self.release_all_virtual_keys(time, calls);
            proof {
                call_views_push(calls@, Call::UpdateKeymap { index: idx });
            }
            calls.push(Call::UpdateKeymap { index: idx });
            self.keymap_idx = Some(idx);
            assert(call_views(calls@) =~= call_views(old(calls)@) + old(self)@.select_keymap(
                idx,
                time,
            ).1);
        } else {
            assert(call_views(calls@) + Seq::<CallView>::empty() =~= call_views(calls@));
        }
    }

    /// Tells whether the press of a key with these keycodes can be handled:
    /// unless the press goes out as text, each keycode has to belong
    /// to a keymap of the layout in use.
    pub fn can_press(&self, data: &SubmitData, keycodes: &Vec<KeyCode>) -> (possible: bool)
        ensures
            possible == (!self@.submits_as_text(data@) ==> forall|i: int|
                0 <= i < keycodes@.len() ==> (#[trigger] keycodes@[i]).keymap_idx
                    < self@.keymaps.len()),
    {
        let as_text = self.modifiers_active.is_empty() && match &self.imservice {
            Some(imservice) => imservice.is_active(),
            None => false,
        } && match data {
            SubmitData::Text(_) => true,
            _ => false,
        };
        assert(as_text == self@.submits_as_text(data@));
        if as_text {
            return true;
        }
        let mut i: usize = 0;
        while i < keycodes.len()
            invariant
                i <= keycodes@.len(),
                !self@.submits_as_text(data@),
                self@.keymaps.len() == self.keymaps@.len(),
                forall|j: int| 0 <= j < i ==> (#[trigger] keycodes@[j]).keymap_idx < self@.keymaps.len(),
            decreases keycodes@.len() - i,
        {
            if keycodes[i].keymap_idx >= self.keymaps.len() {
                assert(keycodes@[i as int].keymap_idx >= self@.keymaps.len());
                return false;
            }
            i += 1;
        }
        true
    }

    /// Sends a submit text event if possible;
    /// otherwise sends key press and makes a note of it
    pub fn handle_press(
        &mut self,
        key_id: KeyStateId,
        data: SubmitData,
        keycodes: &Vec<KeyCode>,
        time: Timestamp,
    ) -> (calls: Vec<Call>)
        requires
            old(self)@.wf(),
            !old(self)@.submits_as_text(data@) ==> forall|i: int|
                0 <= i < keycodes@.len() ==> (#[trigger] keycodes@[i]).keymap_idx < old(self)@.keymaps.len(),
        ensures
            (final(self)@, call_views(calls@)) == old(self)@.press(key_id, data@, keycodes@, time),
            final(self)@.wf(),
            old(self)@.pressed_once() && !old(self)@.is_pressed(key_id) ==> final(self)@.pressed_once(),
    {
        let mut calls: Vec<Call> = Vec::new();
        let mods_are_on = !self.modifiers_active.is_empty();

        let was_committed_as_text = match (&mut self.imservice, mods_are_on) {
            (Some(imservice), false) => {
                match data {
                    SubmitData::Text(text) => {
                        match imservice.commit_string(text) {
                            Ok(text_call) => match imservice.commit() {
                                Ok(commit_call) => {
                                    calls.push(text_call);
                                    calls.push(commit_call);
                                    true
                                },
                                Err(SubmitError::NotActive) => false,
                            },
                            Err(SubmitError::NotActive) => false,
                        }
                    },
                    // Erasing takes byte offsets,
                    // so it cannot work without tracking the surrounding text.
                    SubmitData::Erase => false,
                    SubmitData::Keycodes => false,
                }
            },
            (_, _) => false,
        };
        assert(self@ == old(self)@);
        assert(was_committed_as_text == old(self)@.submits_as_text(data@));

        let submit_action = match was_committed_as_text {
            true => {
                assert(call_views(calls@) =~= old(self)@.press(key_id, data@, keycodes@, time).1);
                SubmittedAction::IMService
            },
            false => {
                assert(call_views(calls@) =~= Seq::<CallView>::empty());
                let keycodes_count = keycodes.len();
                let single = keycodes_count == 1;
                let mut i: usize = 0;
                assert(keycodes@.take(0) =~= Seq::empty());
                while i < keycodes_count
                    invariant
                        keycodes_count == keycodes@.len(),
                        single == (keycodes_count == 1),
                        i <= keycodes_count,
                        forall|k: int|
                            0 <= k < keycodes@.len() ==> (#[trigger] keycodes@[k]).keymap_idx
                                < old(self)@.keymaps.len(),
                        (self@, call_views(calls@)) == old(self)@.press_keycodes(
                            keycodes@.take(i as int),
                            single,
                            time,
                        ),
                        self@.keymaps == old(self)@.keymaps,
                        self@.wf(),
                        old(self)@.pressed_once() && !old(self)@.is_pressed(key_id)
                            ==> self@.pressed_once() && !self@.is_pressed(key_id),
                        i > 0 ==> self@.keymap_idx == Some(keycodes@[i - 1].keymap_idx),
                    decreases keycodes_count - i,
                {
                    let keycode = keycodes[i];
                    proof {
                        assert(keycodes@.take(i + 1).drop_last() =~= keycodes@.take(i as int));
                        assert(keycodes@.take(i + 1).last() == keycode);
                        select_keymap_keeps_order(self@, keycode.keymap_idx, time, key_id);
                    }
                    let ghost before = calls@;
                    self.select_keymap(keycode.keymap_idx, time, &mut calls);
                    let ghost selected = calls@;
                    let pressed = Call::SwitchKey {
                        code: keycode.code,
                        press: PressType::Pressed,
                        time,
                    };
                    proof {
                        call_views_push(calls@, pressed);
                    }
                    calls.push(pressed);
                    if !single {
                        let released = Call::SwitchKey {
                            code: keycode.code,
                            press: PressType::Released,
                            time,
                        };
                        proof {
                            call_views_push(calls@, released);
                        }
                        calls.push(released);
                    }
                    assert(call_views(calls@) =~= call_views(selected) + press_of(
                        keycode.code,
                        single,
                        time,
                    ));
                    assert(call_views(calls@) =~= old(self)@.press_keycodes(
                        keycodes@.take(i + 1),
                        single,
                        time,
                    ).1);
                    i += 1;
                }
                assert(keycodes@.take(i as int) =~= keycodes@);
                SubmittedAction::VirtualKeyboard(copy_keycodes(keycodes))
            },
        };
        let ghost before = self@;
        self.pressed.push((key_id, submit_action));
        proof {
            assert(self@.pressed =~= before.pressed.push((key_id, submit_action@)));
            assert(self@ == old(self)@.press(key_id, data@, keycodes@, time).0);
            assert forall|i: int| 0 <= i < self@.pressed.len() implies self@.holds_down(
                (#[trigger] self@.pressed[i]).1,
            ) by {
                if i < before.pressed.len() {
                    assert(self@.pressed[i] == before.pressed[i]);
                    assert(before.holds_down(before.pressed[i].1));
                }
            }
            if old(self)@.pressed_once() && !old(self)@.is_pressed(key_id) {
                assert forall|i: int, j: int| 0 <= i < j < self@.pressed.len() implies (
                #[trigger] self@.pressed[i]).0 != (#[trigger] self@.pressed[j]).0 by {
                    assert(self@.pressed[i] == before.pressed[i]);
                    if j < before.pressed.len() {
                        assert(self@.pressed[j] == before.pressed[j]);
                    }
                }
            }
        }
        calls
    }

    /// Lets go of the key, if it is down:
    /// a key which was pressed through the virtual keyboard and is still down there comes up.
    pub fn handle_release(&mut self, key_id: KeyStateId, time: Timestamp) -> (calls: Vec<Call>)
        requires
            old(self)@.wf(),
        ensures
            (final(self)@, call_views(calls@)) == old(self)@.release(key_id, time),
            final(self)@.wf(),
            old(self)@.pressed_once() ==> final(self)@.pressed_once() && !final(self)@.is_pressed(key_id),
    {
        let mut calls: Vec<Call> = Vec::new();
        let mut index: usize = 0;
        while index < self.pressed.len() && self.pressed[index].0 != key_id
            invariant
                *self == *old(self),
                index <= self.pressed@.len(),
                forall|j: int| 0 <= j < index ==> (#[trigger] self@.pressed[j]).0 != key_id,
            decreases self.pressed@.len() - index,
        {
            index += 1;
        }
        assert(call_views(calls@) =~= Seq::<CallView>::empty());
        if index < self.pressed.len() {
            proof {
                assert(self@.pressed[index as int].0 == key_id);
                find_id_is_first(self@.pressed, key_id, index as int);
                release_keeps_order(old(self)@, key_id, time);
            }
            let (_id, action) = self.pressed.remove(index);
            assert(self@.pressed =~= old(self)@.pressed.remove(index as int));
            assert(action@ == old(self)@.pressed[index as int].1);
            let ghost rest = self@;
            proof {
                assert forall|i: int| 0 <= i < rest.pressed.len() implies rest.holds_down(
                    (#[trigger] rest.pressed[i]).1,
                ) by {
                    if i < index {
                        assert(rest.pressed[i] == old(self)@.pressed[i]);
                    } else {
                        assert(rest.pressed[i] == old(self)@.pressed[i + 1]);
                    }
                }
                assert(old(self)@.holds_down(old(self)@.pressed[index as int].1));
            }
            match action {
                // string already sent, nothing to do
                SubmittedAction::IMService => {},
                // no matter if the input method got activated,
                // keys must be released
                SubmittedAction::VirtualKeyboard(keycodes) => {
                    if keycodes.len() == 1 {
                        let keycode = keycodes[0];
                        self.select_keymap(keycode.keymap_idx, time, &mut calls);
                        let released = Call::SwitchKey {
                            code: keycode.code,
                            press: PressType::Released,
                            time,
                        };
                        proof {
                            call_views_push(calls@, released);
                        }
                        calls.push(released);
                        assert(call_views(calls@) =~= old(self)@.release(key_id, time).1);
                    }
                    // Design choice here: submit multiple all at press time
                    // and do nothing at release time.

                },
            }
        } else {
            proof {
                find_id_of_absent(self@.pressed, key_id);
            }
        }
        calls
    }

    /// Takes the keymaps of a new layout into use, and switches to the first.
    pub fn use_layout(&mut self, layout: &LayoutData, time: Timestamp) -> (calls: Vec<Call>)
        requires
            layout.keymaps@.len() > 0,
        ensures
            (final(self)@, call_views(calls@)) == old(self)@.use_layout(
                string_views(layout.keymaps@),
                time,
            ),
            final(self)@.wf(),
            old(self)@.pressed_once() ==> final(self)@.pressed_once(),
    {
        let mut calls: Vec<Call> = Vec::new();
        self.keymaps = clone_strings(&layout.keymaps);
        // The choice has to become open again
        // in order to force the update on new layouts.
        self.keymap_idx = None;
        proof {
            select_keymap_settles(self@, 0, time);
            submitted_as_text_keeps_order(self@.pressed);
        }
        self.select_keymap(0, time, &mut calls);
        assert(call_views(calls@) =~= old(self)@.use_layout(string_views(layout.keymaps@), time).1);
        calls
    }
}

/// Tells whether text can be submitted through the input method right now:
/// 1 if it can, 0 if it cannot.
pub fn submission_hint_available(submission: &Submission) -> (available: u8)
    ensures
        available == if submission@.imservice matches Some(imservice)
            && imservice.current.active {
            1u8
        } else {
            0u8
        },
{
    match &submission.imservice {
        Some(imservice) => if imservice.is_active() {
            1
        } else {
            0
        },
        None => 0,
    }
}

} // verus!
