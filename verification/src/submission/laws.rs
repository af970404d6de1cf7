//! What holds of text input, whatever state it is in.

use vstd::prelude::*;
use crate::keyboard::KeyCode;
use crate::keyboard::KeyStateId;
use crate::keyboard::Modifiers;
use crate::keyboard::PressType;
use crate::protocol::CallView;
use crate::submission::find_id;
use crate::submission::find_id_is_first;
use crate::submission::is_first_with_id;
use crate::submission::keymap_updates;
use crate::submission::press_of;
use crate::submission::release_of;
use crate::submission::releases_of;
use crate::submission::submitted_as_text;
use crate::submission::Pressed;
use crate::submission::SubmissionView;
use crate::submission::SubmitDataView;
use crate::submission::SubmittedActionView;
use crate::submission::Timestamp;

verus! {

/// How many presses of keys there are among the calls.
pub open spec fn presses(calls: Seq<CallView>) -> nat
    decreases calls.len(),
{
    if calls.len() == 0 {
        0
    } else {
        presses(calls.drop_last()) + if calls.last() matches CallView::SwitchKey {
            press: PressType::Pressed,
            ..
        } {
            1nat
        } else {
            0nat
        }
    }
}

/// The presses in two lists of calls add up.
pub proof fn presses_add_up(first: Seq<CallView>, second: Seq<CallView>)
    ensures
        presses(first + second) == presses(first) + presses(second),
    decreases second.len(),
{
    if second.len() == 0 {
        assert(first + second =~= first);
    } else {
        assert((first + second).drop_last() =~= first + second.drop_last());
        presses_add_up(first, second.drop_last());
    }
}

/// The keymap updates in two lists of calls add up.
pub proof fn keymap_updates_add_up(first: Seq<CallView>, second: Seq<CallView>, index: usize)
    ensures
        keymap_updates(first + second, index) == keymap_updates(first, index) + keymap_updates(
            second,
            index,
        ),
    decreases second.len(),
{
    if second.len() == 0 {
        assert(first + second =~= first);
    } else {
        assert((first + second).drop_last() =~= first + second.drop_last());
        keymap_updates_add_up(first, second.drop_last(), index);
    }
}

/// What a single call counts for.
pub proof fn count_of_single_call(call: CallView, index: usize)
    ensures
        presses(seq![call]) == if call matches CallView::SwitchKey {
            press: PressType::Pressed,
            ..
        } {
            1nat
        } else {
            0nat
        },
        keymap_updates(seq![call], index) == if call == (CallView::UpdateKeymap { index }) {
            1nat
        } else {
            0nat
        },
{
    assert(seq![call].drop_last() =~= Seq::empty());
    assert(presses(Seq::<CallView>::empty()) == 0);
    assert(keymap_updates(Seq::<CallView>::empty(), index) == 0);
}

/// What goes out for a keycode of a key which gets pressed counts for one press,
/// and for no keymap update.
pub proof fn count_of_press(code: u32, single: bool, time: Timestamp, index: usize)
    ensures
        presses(press_of(code, single, time)) == 1,
        keymap_updates(press_of(code, single, time), index) == 0,
{
    let pressed = CallView::SwitchKey { code, press: PressType::Pressed, time };
    let released = CallView::SwitchKey { code, press: PressType::Released, time };
    count_of_single_call(pressed, index);
    count_of_single_call(released, index);
    if !single {
        assert(press_of(code, single, time) =~= seq![pressed] + seq![released]);
        presses_add_up(seq![pressed], seq![released]);
        keymap_updates_add_up(seq![pressed], seq![released], index);
    }
}

/// Letting go of keys presses no key and updates no keymap.
pub proof fn releases_only_release(pressed: Seq<Pressed>, time: Timestamp, index: usize)
    ensures
        presses(releases_of(pressed, time)) == 0,
        keymap_updates(releases_of(pressed, time), index) == 0,
        forall|i: int|
            0 <= i < releases_of(pressed, time).len() ==> (#[trigger] releases_of(
                pressed,
                time,
            )[i]) matches CallView::SwitchKey { press: PressType::Released, .. },
    decreases pressed.len(),
{
    if pressed.len() > 0 {
        releases_only_release(pressed.drop_last(), time, index);
        let front = releases_of(pressed.drop_last(), time);
        let last = release_of(pressed.last().1, time);
        presses_add_up(front, last);
        keymap_updates_add_up(front, last, index);
        if last.len() == 1 {
            assert(last =~= seq![last[0]]);
            count_of_single_call(last[0], index);
        } else {
            assert(last =~= Seq::empty());
            assert(presses(Seq::<CallView>::empty()) == 0);
            assert(keymap_updates(Seq::<CallView>::empty(), index) == 0);
        }
        assert forall|i: int| 0 <= i < releases_of(pressed, time).len() implies (
        #[trigger] releases_of(pressed, time)[i]) matches CallView::SwitchKey {
            press: PressType::Released,
            ..
        } by {
            if i < front.len() {
                assert(releases_of(pressed, time)[i] == front[i]);
            } else {
                assert(releases_of(pressed, time)[i] == last[i - front.len()]);
            }
        }
    }
}

/// The keys which were submitted as text are no keys of the virtual keyboard.
pub proof fn submitted_as_text_holds_no_raw_key(pressed: Seq<Pressed>)
    ensures
        forall|i: int|
            0 <= i < submitted_as_text(pressed).len() ==> (#[trigger] submitted_as_text(
                pressed,
            )[i]).1 is IMService,
        releases_of(submitted_as_text(pressed), Timestamp(0)).len() == 0,
    decreases pressed.len(),
{
    if pressed.len() > 0 {
        submitted_as_text_holds_no_raw_key(pressed.drop_last());
        if pressed.last().1 is IMService {
            let front = submitted_as_text(pressed.drop_last());
            assert(front.push(pressed.last()).drop_last() =~= front);
        }
    }
}

/// Selecting a keymap presses no key,
/// and updates the keymap once if another one was selected, else not at all.
pub proof fn select_keymap_updates_once(
    state: SubmissionView,
    idx: usize,
    time: Timestamp,
    index: usize,
)
    ensures
        presses(state.select_keymap(idx, time).1) == 0,
        keymap_updates(state.select_keymap(idx, time).1, index) == if state.keymap_idx != Some(idx)
            && index == idx {
            1nat
        } else {
            0nat
        },
{
    if state.keymap_idx != Some(idx) {
        let (cleared, modifier_calls) = state.clear_all_modifiers();
        let release_calls = releases_of(state.pressed, time);
        let update = seq![CallView::UpdateKeymap { index: idx }];
        releases_only_release(state.pressed, time, index);
        presses_add_up(modifier_calls, release_calls);
        presses_add_up(modifier_calls + release_calls, update);
        keymap_updates_add_up(modifier_calls, release_calls, index);
        keymap_updates_add_up(modifier_calls + release_calls, update, index);
        count_of_single_call(CallView::UpdateKeymap { index: idx }, index);
        if modifier_calls.len() == 1 {
            assert(modifier_calls =~= seq![modifier_calls[0]]);
            count_of_single_call(modifier_calls[0], index);
        } else {
            assert(modifier_calls =~= Seq::empty());
            assert(presses(Seq::<CallView>::empty()) == 0);
            assert(keymap_updates(Seq::<CallView>::empty(), index) == 0);
        }
    } else {
        assert(presses(Seq::<CallView>::empty()) == 0);
        assert(keymap_updates(Seq::<CallView>::empty(), index) == 0);
    }
}

/// Switching to a keymap other than the selected one
/// lets go of all modifiers, telling the virtual keyboard so if any was held,
/// and lets go of every key which is still down there,
/// all before the update of the keymap, which comes last.
/// Afterwards no modifier is held, and only keys submitted as text are still down.
pub proof fn switching_keymap_clears(state: SubmissionView, idx: usize, time: Timestamp)
    requires
        state.keymap_idx != Some(idx),
    ensures
        ({
            let (next, calls) = state.select_keymap(idx, time);
            &&& next.keymap_idx == Some(idx)
            &&& next.modifiers_active.len() == 0
            &&& next.pressed == submitted_as_text(state.pressed)
            &&& forall|i: int| 0 <= i < next.pressed.len() ==> (#[trigger] next.pressed[i]).1 is IMService
            &&& calls == (if state.modifiers_active.len() > 0 {
                seq![CallView::SetModifiers(Modifiers { bits: 0 })]
            } else {
                Seq::empty()
            }) + releases_of(state.pressed, time) + seq![CallView::UpdateKeymap { index: idx }]
            &&& calls.last() == CallView::UpdateKeymap { index: idx }
            &&& forall|index: usize|
                keymap_updates(calls, index) == if index == idx {
                    1nat
                } else {
                    0nat
                }
            &&& state.modifiers_active.len() > 0 ==> calls[0] == CallView::SetModifiers(
                Modifiers { bits: 0 },
            )
        }),
{
    submitted_as_text_holds_no_raw_key(state.pressed);
    assert forall|index: usize|
        keymap_updates(state.select_keymap(idx, time).1, index) == if index == idx {
            1nat
        } else {
            0nat
        } by {
        select_keymap_updates_once(state, idx, time, index);
    }
}

/// Keycodes which all belong to the selected keymap go out without any keymap update,
/// and leave everything but the calls as it was.
pub proof fn pressing_under_selected_keymap(
    state: SubmissionView,
    keycodes: Seq<KeyCode>,
    single: bool,
    time: Timestamp,
    index: usize,
)
    requires
        forall|i: int|
            0 <= i < keycodes.len() ==> state.keymap_idx == Some((#[trigger] keycodes[i]).keymap_idx),
    ensures
        state.press_keycodes(keycodes, single, time).0 == state,
        keymap_updates(state.press_keycodes(keycodes, single, time).1, index) == 0,
    decreases keycodes.len(),
{
    if keycodes.len() > 0 {
        let front = keycodes.drop_last();
        assert forall|i: int| 0 <= i < front.len() implies state.keymap_idx == Some(
            (#[trigger] front[i]).keymap_idx,
        ) by {
            assert(front[i] == keycodes[i]);
        }
        pressing_under_selected_keymap(state, front, single, time, index);
        let calls = state.press_keycodes(front, single, time).1;
        let key_calls = press_of(keycodes.last().code, single, time);
        assert(state.select_keymap(keycodes.last().keymap_idx, time).1 =~= Seq::empty());
        assert(calls + Seq::<CallView>::empty() =~= calls);
        keymap_updates_add_up(calls, key_calls, index);
        count_of_press(keycodes.last().code, single, time, index);
    } else {
        assert(keymap_updates(Seq::<CallView>::empty(), index) == 0);
    }
}

/// A key made of a single keycode, where the press does not go out as text:
/// the press sends out exactly one press of a key, the last call of all,
/// after the switch to the keymap of the keycode if another one was selected.
/// The release which follows sends out nothing but the release of the key,
/// and the key is no longer down.
pub proof fn single_keycode_press_then_release(
    state: SubmissionView,
    key_id: KeyStateId,
    data: SubmitDataView,
    keycode: KeyCode,
    time: Timestamp,
    release_time: Timestamp,
)
    requires
        state.wf(),
        !state.submits_as_text(data),
        !state.is_pressed(key_id),
    ensures
        ({
            let (pressed, press_calls) = state.press(key_id, data, seq![keycode], time);
            let (released, release_calls) = pressed.release(key_id, release_time);
            let (selected, keymap_calls) = state.select_keymap(keycode.keymap_idx, time);
            &&& press_calls == keymap_calls + seq![
                CallView::SwitchKey { code: keycode.code, press: PressType::Pressed, time },
            ]
            &&& presses(press_calls) == 1
            &&& state.keymap_idx == Some(keycode.keymap_idx) ==> press_calls == seq![
                CallView::SwitchKey { code: keycode.code, press: PressType::Pressed, time },
            ]
            &&& pressed.is_pressed(key_id)
            &&& release_calls == seq![
                CallView::SwitchKey {
                    code: keycode.code,
                    press: PressType::Released,
                    time: release_time,
                },
            ]
            &&& released == selected
            &&& !released.is_pressed(key_id)
        }),
{
    let keycodes = seq![keycode];
    let (selected, keymap_calls) = state.select_keymap(keycode.keymap_idx, time);
    let key_calls = press_of(keycode.code, true, time);
    assert(keycodes.drop_last() =~= Seq::empty());
    assert(state.press_keycodes(keycodes.drop_last(), true, time) == (state, Seq::<CallView>::empty()));
    assert(Seq::<CallView>::empty() + keymap_calls + key_calls =~= keymap_calls + key_calls);
    assert(state.press_keycodes(keycodes, true, time) == (selected, keymap_calls + key_calls));
    let (pressed, press_calls) = state.press(key_id, data, keycodes, time);
    select_keymap_updates_once(state, keycode.keymap_idx, time, 0);
    presses_add_up(keymap_calls, key_calls);
    count_of_press(keycode.code, true, time, 0);
    if state.keymap_idx == Some(keycode.keymap_idx) {
        assert(keymap_calls + key_calls =~= key_calls);
    }
    // The key is the last one down, and no entry before it is its own.
    let entry = (key_id, SubmittedActionView::VirtualKeyboard(keycodes));
    assert(pressed.pressed == selected.pressed.push(entry));
    let last = selected.pressed.len() as int;
    assert(pressed.pressed[last] == entry);
    if state.keymap_idx != Some(keycode.keymap_idx) {
        still_up_after_release_all(state.pressed, key_id);
    }
    assert forall|j: int| 0 <= j < last implies (#[trigger] pressed.pressed[j]).0 != key_id by {
        assert(pressed.pressed[j] == selected.pressed[j]);
    }
    find_id_is_first(pressed.pressed, key_id, last);
    assert(pressed.pressed.remove(last) =~= selected.pressed);
    let rest = SubmissionView { pressed: pressed.pressed.remove(last), ..pressed };
    assert(rest == selected);
    assert(rest.select_keymap(keycode.keymap_idx, release_time) == (rest, Seq::<CallView>::empty()));
    assert(Seq::<CallView>::empty() + release_of(entry.1, release_time) =~= release_of(
        entry.1,
        release_time,
    ));
}

/// A key which is not down is still not down once the keys of the virtual keyboard are let go.
pub proof fn still_up_after_release_all(pressed: Seq<Pressed>, key_id: KeyStateId)
    requires
        forall|i: int| 0 <= i < pressed.len() ==> (#[trigger] pressed[i]).0 != key_id,
    ensures
        forall|i: int|
            0 <= i < submitted_as_text(pressed).len() ==> (#[trigger] submitted_as_text(
                pressed,
            )[i]).0 != key_id,
    decreases pressed.len(),
{
    if pressed.len() > 0 {
        let front = pressed.drop_last();
        assert forall|i: int| 0 <= i < front.len() implies (#[trigger] front[i]).0 != key_id by {
            assert(front[i] == pressed[i]);
        }
        still_up_after_release_all(front, key_id);
        assert(pressed.last() == pressed[pressed.len() - 1]);
        let kept = submitted_as_text(pressed);
        assert forall|i: int| 0 <= i < kept.len() implies (#[trigger] kept[i]).0 != key_id by {
            if i < submitted_as_text(front).len() {
                assert(kept[i] == submitted_as_text(front)[i]);
            } else {
                assert(kept[i] == pressed.last());
            }
        }
    }
}

/// A key made of two keycodes, where the press does not go out as text:
/// the press sends out press and release of the first keycode and then of the second,
/// each after the switch to its keymap if another one was selected.
/// The release which follows sends out nothing, and the key is no longer down.
pub proof fn double_keycode_press_then_release(
    state: SubmissionView,
    key_id: KeyStateId,
    data: SubmitDataView,
    first: KeyCode,
    second: KeyCode,
    time: Timestamp,
    release_time: Timestamp,
)
    requires
        state.wf(),
        !state.submits_as_text(data),
        !state.is_pressed(key_id),
    ensures
        ({
            let (pressed, press_calls) = state.press(key_id, data, seq![first, second], time);
            let (released, release_calls) = pressed.release(key_id, release_time);
            let (selected, keymap_calls) = state.select_keymap(first.keymap_idx, time);
            let (reselected, more_keymap_calls) = selected.select_keymap(second.keymap_idx, time);
            &&& press_calls == keymap_calls + seq![
                CallView::SwitchKey { code: first.code, press: PressType::Pressed, time },
                CallView::SwitchKey { code: first.code, press: PressType::Released, time },
            ] + more_keymap_calls + seq![
                CallView::SwitchKey { code: second.code, press: PressType::Pressed, time },
                CallView::SwitchKey { code: second.code, press: PressType::Released, time },
            ]
            &&& state.keymap_idx == Some(first.keymap_idx) && first.keymap_idx
                == second.keymap_idx ==> press_calls == seq![
                CallView::SwitchKey { code: first.code, press: PressType::Pressed, time },
                CallView::SwitchKey { code: first.code, press: PressType::Released, time },
                CallView::SwitchKey { code: second.code, press: PressType::Pressed, time },
                CallView::SwitchKey { code: second.code, press: PressType::Released, time },
            ]
            &&& pressed.is_pressed(key_id)
            &&& release_calls == Seq::<CallView>::empty()
            &&& released == reselected
            &&& !released.is_pressed(key_id)
        }),
{
    let keycodes = seq![first, second];
    let (selected, keymap_calls) = state.select_keymap(first.keymap_idx, time);
    let (reselected, more_keymap_calls) = selected.select_keymap(second.keymap_idx, time);
    let first_calls = press_of(first.code, false, time);
    let second_calls = press_of(second.code, false, time);
    assert(keycodes.drop_last() =~= seq![first]);
    assert(seq![first].drop_last() =~= Seq::empty());
    assert(state.press_keycodes(seq![first].drop_last(), false, time) == (
        state,
        Seq::<CallView>::empty(),
    ));
    assert(Seq::<CallView>::empty() + keymap_calls + first_calls =~= keymap_calls + first_calls);
    assert(state.press_keycodes(seq![first], false, time) == (selected, keymap_calls + first_calls));
    assert(state.press_keycodes(keycodes, false, time) == (
        reselected,
        keymap_calls + first_calls + more_keymap_calls + second_calls,
    ));
    let (pressed, press_calls) = state.press(key_id, data, keycodes, time);
    if state.keymap_idx == Some(first.keymap_idx) && first.keymap_idx == second.keymap_idx {
        assert(press_calls =~= first_calls + second_calls);
        assert(first_calls + second_calls =~= seq![
            CallView::SwitchKey { code: first.code, press: PressType::Pressed, time },
            CallView::SwitchKey { code: first.code, press: PressType::Released, time },
            CallView::SwitchKey { code: second.code, press: PressType::Pressed, time },
            CallView::SwitchKey { code: second.code, press: PressType::Released, time },
        ]);
    }
    let entry = (key_id, SubmittedActionView::VirtualKeyboard(keycodes));
    let last = reselected.pressed.len() as int;
    assert(pressed.pressed[last] == entry);
    if state.keymap_idx != Some(first.keymap_idx) {
        still_up_after_release_all(state.pressed, key_id);
    }
    assert forall|j: int| 0 <= j < selected.pressed.len() implies (#[trigger] selected.pressed[j]).0
        != key_id by {}
    if selected.keymap_idx != Some(second.keymap_idx) {
        still_up_after_release_all(selected.pressed, key_id);
    }
    assert forall|j: int| 0 <= j < last implies (#[trigger] pressed.pressed[j]).0 != key_id by {
        assert(pressed.pressed[j] == reselected.pressed[j]);
    }
    find_id_is_first(pressed.pressed, key_id, last);
    assert(pressed.pressed.remove(last) =~= reselected.pressed);
}

/// A key made of any number of keycodes but one is complete once it is pressed:
/// whatever happens before its release, the release sends out nothing.
pub proof fn release_of_complete_key_is_silent(
    state: SubmissionView,
    key_id: KeyStateId,
    time: Timestamp,
)
    requires
        find_id(state.pressed, key_id) matches Some(idx) && (state.pressed[idx].1 matches SubmittedActionView::VirtualKeyboard(
            keycodes,
        ) ==> keycodes.len() != 1),
    ensures
        state.release(key_id, time).1 == Seq::<CallView>::empty(),
        state.release(key_id, time).0 == (SubmissionView {
            pressed: state.pressed.remove(find_id(state.pressed, key_id)->0),
            ..state
        }),
{
}

/// The release of a key which is not down changes nothing and sends out nothing.
pub proof fn release_of_unpressed_key_is_silent(
    state: SubmissionView,
    key_id: KeyStateId,
    time: Timestamp,
)
    requires
        !state.is_pressed(key_id),
    ensures
        state.release(key_id, time) == (state, Seq::<CallView>::empty()),
{
    if find_id(state.pressed, key_id) is Some {
        let idx = find_id(state.pressed, key_id)->0;
        assert(is_first_with_id(state.pressed, key_id, idx));
        assert(state.pressed[idx].0 == key_id);
    }
}

/// With an active input method and no modifier held,
/// the press of a text key goes out as the text and its commit,
/// and nothing reaches the virtual keyboard: not then, and not on the release.
pub proof fn text_goes_through_active_input_method(
    state: SubmissionView,
    key_id: KeyStateId,
    text: Seq<char>,
    keycodes: Seq<KeyCode>,
    time: Timestamp,
    release_time: Timestamp,
)
    requires
        state.imservice is Some,
        state.imservice->0.current.active,
        state.modifiers_active.len() == 0,
        !state.is_pressed(key_id),
    ensures
        ({
            let (pressed, press_calls) = state.press(
                key_id,
                SubmitDataView::Text(text),
                keycodes,
                time,
            );
            let (released, release_calls) = pressed.release(key_id, release_time);
            &&& press_calls == seq![
                CallView::CommitString(text),
                CallView::Commit { serial: state.imservice->0.serial },
            ]
            &&& forall|i: int| 0 <= i < press_calls.len() ==> !(#[trigger] press_calls[i]).is_raw()
            &&& pressed == (SubmissionView {
                pressed: state.pressed.push((key_id, SubmittedActionView::IMService)),
                ..state
            })
            &&& release_calls == Seq::<CallView>::empty()
            &&& released == state
        }),
{
    let (pressed, press_calls) = state.press(key_id, SubmitDataView::Text(text), keycodes, time);
    let last = state.pressed.len() as int;
    assert(pressed.pressed[last] == (key_id, SubmittedActionView::IMService));
    assert forall|j: int| 0 <= j < last implies (#[trigger] pressed.pressed[j]).0 != key_id by {
        assert(pressed.pressed[j] == state.pressed[j]);
    }
    find_id_is_first(pressed.pressed, key_id, last);
    assert(pressed.pressed.remove(last) =~= state.pressed);
}

/// With an input method which is not active,
/// a press goes the way it would go if there was no input method:
/// through the virtual keyboard, the same key and all.
pub proof fn inactive_input_method_falls_back(
    state: SubmissionView,
    key_id: KeyStateId,
    data: SubmitDataView,
    keycodes: Seq<KeyCode>,
    time: Timestamp,
)
    requires
        state.imservice is Some,
        !state.imservice->0.current.active,
    ensures
        ({
            let without = SubmissionView { imservice: None, ..state };
            let (pressed, press_calls) = state.press(key_id, data, keycodes, time);
            &&& !state.submits_as_text(data)
            &&& press_calls == without.press(key_id, data, keycodes, time).1
            &&& press_calls == state.press_keycodes(keycodes, keycodes.len() == 1, time).1
            &&& pressed == (SubmissionView {
                imservice: state.imservice,
                ..without.press(key_id, data, keycodes, time).0
            })
        }),
{
    let without = SubmissionView { imservice: None, ..state };
    press_keycodes_ignores_input_method(state, keycodes, keycodes.len() == 1, time);
}

/// What goes out through the virtual keyboard does not depend on the input method.
pub proof fn press_keycodes_ignores_input_method(
    state: SubmissionView,
    keycodes: Seq<KeyCode>,
    single: bool,
    time: Timestamp,
)
    ensures
        ({
            let without = SubmissionView { imservice: None, ..state };
            &&& state.press_keycodes(keycodes, single, time).1 == without.press_keycodes(
                keycodes,
                single,
                time,
            ).1
            &&& state.press_keycodes(keycodes, single, time).0 == (SubmissionView {
                imservice: state.imservice,
                ..without.press_keycodes(keycodes, single, time).0
            })
        }),
    decreases keycodes.len(),
{
    if keycodes.len() > 0 {
        press_keycodes_ignores_input_method(state, keycodes.drop_last(), single, time);
    }
}

/// Taking a layout into use selects its first keymap, as the last call,
/// also where the first keymap of the layout before was selected.
/// A press which follows and needs no other keymap does not select it again:
/// the first keymap gets selected exactly once in all.
pub proof fn use_layout_selects_first_keymap_once(
    state: SubmissionView,
    keymaps: Seq<Seq<char>>,
    key_id: KeyStateId,
    data: SubmitDataView,
    keycodes: Seq<KeyCode>,
    time: Timestamp,
    press_time: Timestamp,
)
    requires
        forall|i: int| 0 <= i < keycodes.len() ==> (#[trigger] keycodes[i]).keymap_idx == 0,
    ensures
        ({
            let (adopted, layout_calls) = state.use_layout(keymaps, time);
            let (pressed, press_calls) = adopted.press(key_id, data, keycodes, press_time);
            &&& adopted.keymaps == keymaps
            &&& adopted.keymap_idx == Some(0usize)
            &&& layout_calls.last() == CallView::UpdateKeymap { index: 0 }
            &&& keymap_updates(layout_calls, 0) == 1
            &&& keymap_updates(press_calls, 0) == 0
            &&& keymap_updates(layout_calls + press_calls, 0) == 1
            &&& pressed.keymap_idx == Some(0usize)
        }),
{
    let fresh = SubmissionView { keymaps, keymap_idx: None, ..state };
    let (adopted, layout_calls) = state.use_layout(keymaps, time);
    switching_keymap_clears(fresh, 0, time);
    let (pressed, press_calls) = adopted.press(key_id, data, keycodes, press_time);
    if adopted.submits_as_text(data) {
        let text_call = CallView::CommitString(data->Text_0);
        let commit_call = CallView::Commit { serial: adopted.imservice->0.serial };
        assert(press_calls =~= seq![text_call] + seq![commit_call]);
        count_of_single_call(text_call, 0);
        count_of_single_call(commit_call, 0);
        keymap_updates_add_up(seq![text_call], seq![commit_call], 0);
    } else {
        pressing_under_selected_keymap(adopted, keycodes, keycodes.len() == 1, press_time, 0);
    }
    keymap_updates_add_up(layout_calls, press_calls, 0);
}

/// The keys which were submitted as text are among the pressed keys, in their order.
pub proof fn submitted_as_text_keeps_order(pressed: Seq<Pressed>)
    ensures
        forall|i: int|
            0 <= i < submitted_as_text(pressed).len() ==> exists|k: int|
                0 <= k < pressed.len() && pressed[k] == #[trigger] submitted_as_text(pressed)[i],
        (forall|i: int, j: int|
            0 <= i < j < pressed.len() ==> (#[trigger] pressed[i]).0 != (#[trigger] pressed[j]).0)
            ==> (forall|i: int, j: int|
            0 <= i < j < submitted_as_text(pressed).len() ==> (#[trigger] submitted_as_text(
                pressed,
            )[i]).0 != (#[trigger] submitted_as_text(pressed)[j]).0),
    decreases pressed.len(),
{
    if pressed.len() > 0 {
        let front = pressed.drop_last();
        submitted_as_text_keeps_order(front);
        let kept = submitted_as_text(pressed);
        assert forall|i: int| 0 <= i < kept.len() implies exists|k: int|
            0 <= k < pressed.len() && pressed[k] == #[trigger] kept[i] by {
            if i < submitted_as_text(front).len() {
                let k = choose|k: int|
                    0 <= k < front.len() && front[k] == submitted_as_text(front)[i];
                assert(pressed[k] == kept[i]);
            } else {
                assert(pressed[pressed.len() - 1] == kept[i]);
            }
        }
        if forall|i: int, j: int|
            0 <= i < j < pressed.len() ==> (#[trigger] pressed[i]).0 != (#[trigger] pressed[j]).0 {
            assert forall|i: int, j: int| 0 <= i < j < front.len() implies (#[trigger] front[i]).0
                != (#[trigger] front[j]).0 by {
                assert(front[i] == pressed[i]);
                assert(front[j] == pressed[j]);
            }
            assert forall|i: int, j: int| 0 <= i < j < kept.len() implies (#[trigger] kept[i]).0
                != (#[trigger] kept[j]).0 by {
                if j >= submitted_as_text(front).len() {
                    let k = choose|k: int|
                        0 <= k < front.len() && front[k] == submitted_as_text(front)[i];
                    assert(pressed[k] == kept[i]);
                    assert(pressed[pressed.len() - 1] == kept[j]);
                }
            }
        }
    }
}

/// A switch to another keymap leaves the state in order, whatever it was like before.
pub proof fn select_keymap_settles(state: SubmissionView, idx: usize, time: Timestamp)
    requires
        idx < state.keymaps.len(),
        state.keymap_idx != Some(idx),
    ensures
        state.select_keymap(idx, time).0.wf(),
{
    submitted_as_text_holds_no_raw_key(state.pressed);
}

/// Selecting a keymap keeps a state in order,
/// and brings no key down.
pub proof fn select_keymap_keeps_order(
    state: SubmissionView,
    idx: usize,
    time: Timestamp,
    key_id: KeyStateId,
)
    requires
        idx < state.keymaps.len(),
        state.wf(),
    ensures
        state.select_keymap(idx, time).0.wf(),
        state.select_keymap(idx, time).0.keymaps == state.keymaps,
        state.select_keymap(idx, time).0.keymap_idx == Some(idx),
        state.pressed_once() ==> state.select_keymap(idx, time).0.pressed_once(),
        !state.is_pressed(key_id) ==> !state.select_keymap(idx, time).0.is_pressed(key_id),
{
    if state.keymap_idx != Some(idx) {
        select_keymap_settles(state, idx, time);
        submitted_as_text_keeps_order(state.pressed);
        let kept = submitted_as_text(state.pressed);
        if !state.is_pressed(key_id) {
            assert forall|i: int| 0 <= i < kept.len() implies (#[trigger] kept[i]).0 != key_id by {
                let k = choose|k: int| 0 <= k < state.pressed.len() && state.pressed[k] == kept[i];
                assert(state.pressed[k].0 != key_id);
            }
        }
    }
}

/// Letting go of a key keeps the order among the keys which stay down,
/// and where no key was down twice, the key is no longer down.
pub proof fn release_keeps_order(state: SubmissionView, key_id: KeyStateId, time: Timestamp)
    requires
        state.wf(),
        find_id(state.pressed, key_id) is Some,
    ensures
        state.release(key_id, time).0.wf(),
        state.pressed_once() ==> state.release(key_id, time).0.pressed_once()
            && !state.release(key_id, time).0.is_pressed(key_id),
{
    let idx = find_id(state.pressed, key_id)->0;
    assert(is_first_with_id(state.pressed, key_id, idx));
    let rest = SubmissionView { pressed: state.pressed.remove(idx), ..state };
    assert forall|i: int| 0 <= i < rest.pressed.len() implies rest.holds_down(
        (#[trigger] rest.pressed[i]).1,
    ) by {
        if i < idx {
            assert(rest.pressed[i] == state.pressed[i]);
        } else {
            assert(rest.pressed[i] == state.pressed[i + 1]);
        }
    }
    assert(rest.wf());
    assert(state.holds_down(state.pressed[idx].1));
    if state.pressed_once() {
        assert forall|i: int, j: int| 0 <= i < j < rest.pressed.len() implies (
        #[trigger] rest.pressed[i]).0 != (#[trigger] rest.pressed[j]).0 by {
            let from_i = if i < idx { i } else { i + 1 };
            let from_j = if j < idx { j } else { j + 1 };
            assert(rest.pressed[i] == state.pressed[from_i]);
            assert(rest.pressed[j] == state.pressed[from_j]);
        }
        assert forall|i: int| 0 <= i < rest.pressed.len() implies (#[trigger] rest.pressed[i]).0
            != key_id by {
            let from_i = if i < idx { i } else { i + 1 };
            assert(rest.pressed[i] == state.pressed[from_i]);
            if from_i > idx {
                assert(state.pressed[idx].0 != state.pressed[from_i].0);
            }
        }
    }
}

} // verus!
