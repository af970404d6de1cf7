//! The virtual keyboard as its other end sees it, and why both ends agree.
//!
//! The other end knows nothing but the calls which reach it.
//! Whatever the order of presses, releases, modifiers and layouts,
//! the calls leave it with the keymap which is selected here,
//! with the modifiers which are held here,
//! and with exactly those keys down which are held down here:
//! no press and no release gets lost.

use vstd::multiset::Multiset;
use vstd::prelude::*;
use crate::action::Modifier;
use crate::imservice::IMServiceView;
use crate::keyboard::KeyCode;
use crate::keyboard::KeyStateId;
use crate::keyboard::Modifiers;
use crate::keyboard::PressType;
use crate::protocol::CallView;
use crate::submission::find_id;
use crate::submission::is_first_with_id;
use crate::submission::press_of;
use crate::submission::raw_modifiers;
use crate::submission::release_of;
use crate::submission::releases_of;
use crate::submission::submitted_as_text;
use crate::submission::Pressed;
use crate::submission::SubmissionView;
use crate::submission::SubmitDataView;
use crate::submission::SubmittedActionView;
use crate::submission::Timestamp;

verus! {

/// What the other end of the virtual keyboard channel holds.
pub struct Peer {
    /// The keymap which the last update named.
    pub keymap: Option<usize>,
    /// The modifier state which was set last.
    pub modifiers: Modifiers,
    /// The keycodes which went down and did not come up yet,
    /// each as often as it went down more than it came up.
    pub down: Multiset<u32>,
}

impl Peer {
    /// The other end before any call reached it.
    pub open spec fn fresh() -> Peer {
        Peer { keymap: None, modifiers: Modifiers::spec_empty(), down: Multiset::empty() }
    }

    /// The other end after a call. Calls for the input method pass it by.
    pub open spec fn receive(self, call: CallView) -> Peer {
        match call {
            CallView::SwitchKey { code, press: PressType::Pressed, .. } => Peer {
                down: self.down.insert(code),
                ..self
            },
            CallView::SwitchKey { code, press: PressType::Released, .. } => Peer {
                down: self.down.remove(code),
                ..self
            },
            CallView::SetModifiers(modifiers) => Peer { modifiers, ..self },
            CallView::UpdateKeymap { index } => Peer { keymap: Some(index), ..self },
            _ => self,
        }
    }

    /// The other end after a series of calls.
    pub open spec fn receive_all(self, calls: Seq<CallView>) -> Peer
        decreases calls.len(),
    {
        if calls.len() == 0 {
            self
        } else {
            self.receive_all(calls.drop_last()).receive(calls.last())
        }
    }
}

/// The keycodes which a key submitted this way holds down.
pub open spec fn held_by(action: SubmittedActionView) -> Multiset<u32> {
    match action {
        SubmittedActionView::VirtualKeyboard(keycodes) => if keycodes.len() == 1 {
            Multiset::singleton(keycodes[0].code)
        } else {
            Multiset::empty()
        },
        SubmittedActionView::IMService => Multiset::empty(),
    }
}

/// The keycodes which the keys in the list hold down.
pub open spec fn held_codes(pressed: Seq<Pressed>) -> Multiset<u32>
    decreases pressed.len(),
{
    if pressed.len() == 0 {
        Multiset::empty()
    } else {
        held_codes(pressed.drop_last()).add(held_by(pressed.last().1))
    }
}

/// Whether both ends agree, but for the keycodes in `beside`,
/// which are down at the other end without a key here to hold them.
pub open spec fn in_step_beside(state: SubmissionView, peer: Peer, beside: Multiset<u32>) -> bool {
    &&& peer.keymap == state.keymap_idx
    &&& peer.modifiers == raw_modifiers(state.modifiers_active)
    &&& peer.down == held_codes(state.pressed).add(beside)
}

/// Whether both ends agree on the keymap, on the modifiers and on the keys which are down.
pub open spec fn in_step(state: SubmissionView, peer: Peer) -> bool {
    in_step_beside(state, peer, Multiset::empty())
}

/// A series of calls in two parts reaches the other end part by part.
pub proof fn receive_in_parts(peer: Peer, first: Seq<CallView>, second: Seq<CallView>)
    ensures
        peer.receive_all(first + second) == peer.receive_all(first).receive_all(second),
    decreases second.len(),
{
    if second.len() == 0 {
        assert(first + second =~= first);
    } else {
        assert((first + second).drop_last() =~= first + second.drop_last());
        receive_in_parts(peer, first, second.drop_last());
    }
}

/// A series of one call or of two reaches the other end call by call,
/// and an empty series leaves it alone.
pub proof fn receive_few(peer: Peer, first: CallView, second: CallView)
    ensures
        peer.receive_all(Seq::empty()) == peer,
        peer.receive_all(seq![first]) == peer.receive(first),
        peer.receive_all(seq![first, second]) == peer.receive(first).receive(second),
{
    assert(seq![first].drop_last() =~= Seq::empty());
    assert(seq![first, second].drop_last() =~= seq![first]);
    assert(peer.receive_all(Seq::empty()) == peer);
}

/// The release of a key lets its keycode come up at the other end, and changes nothing else.
proof fn release_lets_go(peer: Peer, action: SubmittedActionView, time: Timestamp, beside: Multiset<u32>)
    requires
        peer.down == beside.add(held_by(action)),
    ensures
        peer.receive_all(release_of(action, time)) == (Peer { down: beside, ..peer }),
{
    let calls = release_of(action, time);
    if calls.len() == 0 {
        assert(beside.add(Multiset::empty()) =~= beside);
    } else {
        receive_few(peer, calls[0], calls[0]);
        assert(calls =~= seq![calls[0]]);
        let code = action->VirtualKeyboard_0[0].code;
        assert(beside.add(Multiset::singleton(code)).remove(code) =~= beside);
    }
}

/// Letting go of all the keys in the list lets their keycodes come up at the other end,
/// and changes nothing else.
pub proof fn releases_let_go(peer: Peer, pressed: Seq<Pressed>, time: Timestamp, beside: Multiset<u32>)
    requires
        peer.down == held_codes(pressed).add(beside),
    ensures
        peer.receive_all(releases_of(pressed, time)) == (Peer { down: beside, ..peer }),
    decreases pressed.len(),
{
    if pressed.len() == 0 {
        assert(Multiset::<u32>::empty().add(beside) =~= beside);
    } else {
        let front = pressed.drop_last();
        let last = held_by(pressed.last().1);
        assert(held_codes(front).add(last).add(beside) =~= held_codes(front).add(
            beside.add(last),
        ));
        releases_let_go(peer, front, time, beside.add(last));
        let between = peer.receive_all(releases_of(front, time));
        release_lets_go(between, pressed.last().1, time, beside);
        receive_in_parts(peer, releases_of(front, time), release_of(pressed.last().1, time));
    }
}

/// The keys which were submitted as text hold no keycode down.
pub proof fn text_holds_nothing_down(pressed: Seq<Pressed>)
    ensures
        held_codes(submitted_as_text(pressed)) == Multiset::<u32>::empty(),
    decreases pressed.len(),
{
    if pressed.len() > 0 {
        text_holds_nothing_down(pressed.drop_last());
        let before = submitted_as_text(pressed.drop_last());
        if pressed.last().1 is IMService {
            assert(before.push(pressed.last()).drop_last() =~= before);
            assert(Multiset::<u32>::empty().add(Multiset::empty()) =~= Multiset::<u32>::empty());
        }
    }
}

/// A key which goes down holds its keycodes in addition to those held before,
/// and a key which comes up no longer holds its own.
pub proof fn held_codes_change_with_keys(pressed: Seq<Pressed>, entry: Pressed, idx: int)
    requires
        0 <= idx < pressed.len(),
    ensures
        held_codes(pressed.push(entry)) == held_codes(pressed).add(held_by(entry.1)),
        held_codes(pressed) == held_codes(pressed.remove(idx)).add(held_by(pressed[idx].1)),
    decreases pressed.len(),
{
    assert(pressed.push(entry).drop_last() =~= pressed);
    let front = pressed.drop_last();
    if idx == pressed.len() - 1 {
        assert(pressed.remove(idx) =~= front);
    } else {
        held_codes_change_with_keys(front, entry, idx);
        assert(pressed.remove(idx).drop_last() =~= front.remove(idx));
        assert(pressed.remove(idx).last() == pressed.last());
        assert(front[idx] == pressed[idx]);
        assert(held_codes(front.remove(idx)).add(held_by(pressed[idx].1)).add(
            held_by(pressed.last().1),
        ) =~= held_codes(front.remove(idx)).add(held_by(pressed.last().1)).add(
            held_by(pressed[idx].1),
        ));
    }
}

/// Selecting a keymap keeps both ends in step.
/// What is down at the other end beside the keys held here stays down:
/// only keys which are held here get released.
pub proof fn select_keymap_stays_in_step(
    state: SubmissionView,
    peer: Peer,
    idx: usize,
    time: Timestamp,
    beside: Multiset<u32>,
)
    requires
        in_step_beside(state, peer, beside),
    ensures
        in_step_beside(
            state.select_keymap(idx, time).0,
            peer.receive_all(state.select_keymap(idx, time).1),
            beside,
        ),
{
    if state.keymap_idx == Some(idx) {
        assert(peer.receive_all(Seq::empty()) == peer);
    } else {
        let (cleared, modifier_calls) = state.clear_all_modifiers();
        let release_calls = releases_of(state.pressed, time);
        let update = CallView::UpdateKeymap { index: idx };
        let modified = peer.receive_all(modifier_calls);
        if modifier_calls.len() == 0 {
            assert(modified == peer);
            assert(state.modifiers_active =~= Seq::empty());
        } else {
            receive_few(peer, modifier_calls[0], modifier_calls[0]);
            assert(modifier_calls =~= seq![modifier_calls[0]]);
        }
        assert(modified == (Peer { modifiers: Modifiers::spec_empty(), ..peer }));
        releases_let_go(modified, state.pressed, time, beside);
        let released = modified.receive_all(release_calls);
        receive_in_parts(peer, modifier_calls, release_calls);
        receive_few(released, update, update);
        receive_in_parts(peer, modifier_calls + release_calls, seq![update]);
        text_holds_nothing_down(state.pressed);
        assert(Multiset::<u32>::empty().add(beside) =~= beside);
    }
}

/// Keycodes which go out pressed and released right away leave both ends in step.
pub proof fn complete_keycodes_stay_in_step(
    state: SubmissionView,
    peer: Peer,
    keycodes: Seq<KeyCode>,
    time: Timestamp,
)
    requires
        in_step(state, peer),
    ensures
        in_step(
            state.press_keycodes(keycodes, false, time).0,
            peer.receive_all(state.press_keycodes(keycodes, false, time).1),
        ),
    decreases keycodes.len(),
{
    if keycodes.len() == 0 {
        assert(peer.receive_all(Seq::empty()) == peer);
    } else {
        complete_keycodes_stay_in_step(state, peer, keycodes.drop_last(), time);
        let (before, calls) = state.press_keycodes(keycodes.drop_last(), false, time);
        let between = peer.receive_all(calls);
        let (selected, keymap_calls) = before.select_keymap(keycodes.last().keymap_idx, time);
        select_keymap_stays_in_step(
            before,
            between,
            keycodes.last().keymap_idx,
            time,
            Multiset::empty(),
        );
        let ready = between.receive_all(keymap_calls);
        let key_calls = press_of(keycodes.last().code, false, time);
        receive_few(ready, key_calls[0], key_calls[1]);
        assert(key_calls =~= seq![key_calls[0], key_calls[1]]);
        assert(ready.down.insert(keycodes.last().code).remove(keycodes.last().code)
            =~= ready.down);
        receive_in_parts(peer, calls, keymap_calls);
        receive_in_parts(peer, calls + keymap_calls, key_calls);
    }
}

/// Nothing is down at either end before the first call, no modifier is held,
/// and no keymap is selected.
pub proof fn fresh_ends_are_in_step(imservice: Option<IMServiceView>)
    ensures
        in_step(SubmissionView::initial(imservice), Peer::fresh()),
{
    assert(Multiset::<u32>::empty().add(Multiset::empty()) =~= Multiset::<u32>::empty());
    let held = SubmissionView::initial(imservice).modifiers_active;
    assert(held =~= Seq::empty());
}

/// A key press keeps both ends in step.
pub proof fn press_stays_in_step(
    state: SubmissionView,
    peer: Peer,
    key_id: KeyStateId,
    data: SubmitDataView,
    keycodes: Seq<KeyCode>,
    time: Timestamp,
)
    requires
        in_step(state, peer),
    ensures
        in_step(
            state.press(key_id, data, keycodes, time).0,
            peer.receive_all(state.press(key_id, data, keycodes, time).1),
        ),
{
    let (pressed, calls) = state.press(key_id, data, keycodes, time);
    if state.submits_as_text(data) {
        receive_few(peer, calls[0], calls[1]);
        assert(calls =~= seq![calls[0], calls[1]]);
        let entry = (key_id, SubmittedActionView::IMService);
        assert(state.pressed.push(entry).drop_last() =~= state.pressed);
        assert(held_codes(state.pressed).add(Multiset::empty()) =~= held_codes(state.pressed));
    } else if keycodes.len() == 1 {
        let keycode = keycodes[0];
        assert(keycodes.drop_last() =~= Seq::empty());
        assert(state.press_keycodes(keycodes.drop_last(), true, time) == (
            state,
            Seq::<CallView>::empty(),
        ));
        let (selected, keymap_calls) = state.select_keymap(keycode.keymap_idx, time);
        select_keymap_stays_in_step(state, peer, keycode.keymap_idx, time, Multiset::empty());
        let ready = peer.receive_all(keymap_calls);
        let key_calls = press_of(keycode.code, true, time);
        receive_few(ready, key_calls[0], key_calls[0]);
        assert(key_calls =~= seq![key_calls[0]]);
        assert(Seq::<CallView>::empty() + keymap_calls + key_calls =~= keymap_calls + key_calls);
        receive_in_parts(peer, keymap_calls, key_calls);
        let entry = (key_id, SubmittedActionView::VirtualKeyboard(keycodes));
        assert(selected.pressed.push(entry).drop_last() =~= selected.pressed);
        assert(held_codes(selected.pressed).add(Multiset::empty()).insert(keycode.code)
            =~= held_codes(selected.pressed).add(Multiset::singleton(keycode.code)).add(
            Multiset::empty(),
        ));
    } else {
        complete_keycodes_stay_in_step(state, peer, keycodes, time);
        let submitted = state.press_keycodes(keycodes, false, time).0;
        let entry = (key_id, SubmittedActionView::VirtualKeyboard(keycodes));
        assert(submitted.pressed.push(entry).drop_last() =~= submitted.pressed);
        assert(held_codes(submitted.pressed).add(Multiset::empty()) =~= held_codes(
            submitted.pressed,
        ));
    }
}

/// A key release keeps both ends in step.
pub proof fn release_stays_in_step(
    state: SubmissionView,
    peer: Peer,
    key_id: KeyStateId,
    time: Timestamp,
)
    requires
        in_step(state, peer),
    ensures
        in_step(
            state.release(key_id, time).0,
            peer.receive_all(state.release(key_id, time).1),
        ),
{
    match find_id(state.pressed, key_id) {
        None => {
            assert(peer.receive_all(Seq::empty()) == peer);
        },
        Some(idx) => {
            assert(is_first_with_id(state.pressed, key_id, idx));
            let action = state.pressed[idx].1;
            let rest = SubmissionView { pressed: state.pressed.remove(idx), ..state };
            held_codes_change_with_keys(state.pressed, state.pressed[idx], idx);
            let held = held_codes(rest.pressed);
            if held_by(action) =~= Multiset::empty() {
                assert(held.add(Multiset::empty()) =~= held);
                assert(peer.receive_all(Seq::empty()) == peer);
            } else {
                let keycode = action->VirtualKeyboard_0[0];
                let beside = Multiset::singleton(keycode.code);
                assert(held.add(beside).add(Multiset::empty()) =~= held.add(beside));
                select_keymap_stays_in_step(rest, peer, keycode.keymap_idx, time, beside);
                let (selected, keymap_calls) = rest.select_keymap(keycode.keymap_idx, time);
                let ready = peer.receive_all(keymap_calls);
                assert(held_codes(selected.pressed).add(beside) =~= held_codes(
                    selected.pressed,
                ).add(Multiset::empty()).add(held_by(action)));
                release_lets_go(
                    ready,
                    action,
                    time,
                    held_codes(selected.pressed).add(Multiset::empty()),
                );
                receive_in_parts(peer, keymap_calls, release_of(action, time));
            }
        },
    }
}

/// A modifier key which goes down or comes up keeps both ends in step.
pub proof fn modifiers_stay_in_step(
    state: SubmissionView,
    peer: Peer,
    key_id: KeyStateId,
    modifier: Modifier,
)
    requires
        in_step(state, peer),
    ensures
        in_step(
            state.add_modifier(key_id, modifier).0,
            peer.receive_all(state.add_modifier(key_id, modifier).1),
        ),
        in_step(state.drop_modifier(key_id).0, peer.receive_all(state.drop_modifier(key_id).1)),
{
    let (added, add_calls) = state.add_modifier(key_id, modifier);
    receive_few(peer, add_calls[0], add_calls[0]);
    assert(add_calls =~= seq![add_calls[0]]);
    let (dropped, drop_calls) = state.drop_modifier(key_id);
    receive_few(peer, drop_calls[0], drop_calls[0]);
    assert(drop_calls =~= seq![drop_calls[0]]);
}

/// Taking a layout into use keeps both ends in step.
pub proof fn use_layout_stays_in_step(
    state: SubmissionView,
    peer: Peer,
    keymaps: Seq<Seq<char>>,
    time: Timestamp,
)
    requires
        in_step(state, peer),
    ensures
        in_step(
            state.use_layout(keymaps, time).0,
            peer.receive_all(state.use_layout(keymaps, time).1),
        ),
        peer.receive_all(state.use_layout(keymaps, time).1).keymap == Some(0usize),
        peer.receive_all(state.use_layout(keymaps, time).1).down == Multiset::<u32>::empty(),
{
    // The other end still has the old keymap, or none,
    // while the choice is open on this side.
    let open = SubmissionView { keymaps, keymap_idx: None, ..state };
    let behind = Peer { keymap: None, ..peer };
    select_keymap_stays_in_step(open, behind, 0, time, Multiset::empty());
    same_calls_whatever_keymap(peer, behind, open.select_keymap(0, time).1);
    text_holds_nothing_down(state.pressed);
    assert(Multiset::<u32>::empty().add(Multiset::empty()) =~= Multiset::<u32>::empty());
}

/// Calls which end in an update of the keymap leave the other end
/// the same whichever keymap it had before.
proof fn same_calls_whatever_keymap(peer: Peer, other: Peer, calls: Seq<CallView>)
    requires
        other == (Peer { keymap: other.keymap, ..peer }),
    ensures
        peer.receive_all(calls) == (Peer {
            keymap: peer.receive_all(calls).keymap,
            ..other.receive_all(calls)
        }),
        calls.len() > 0 && calls.last() is UpdateKeymap ==> peer.receive_all(calls)
            == other.receive_all(calls),
    decreases calls.len(),
{
    if calls.len() > 0 {
        same_calls_whatever_keymap(peer, other, calls.drop_last());
    }
}

} // verus!
