use squeekboard::action::Modifier;
use squeekboard::imservice::c::imservice_handle_done;
use squeekboard::imservice::c::imservice_handle_input_method_activate;
use squeekboard::imservice::c::imservice_handle_input_method_deactivate;
use squeekboard::imservice::c::InputMethod;
use squeekboard::imservice::IMService;
use squeekboard::keyboard::KeyCode;
use squeekboard::keyboard::KeyStateId;
use squeekboard::keyboard::Modifiers;
use squeekboard::keyboard::PressType;
use squeekboard::layout::LayoutData;
use squeekboard::protocol::Call;
use squeekboard::submission::submission_hint_available;
use squeekboard::submission::Submission;
use squeekboard::submission::SubmitData;
use squeekboard::submission::Timestamp;
use squeekboard::time::Instant;

const IM: InputMethod = InputMethod(0x1000);

fn layout(keymaps: usize) -> LayoutData {
    LayoutData { keymaps: (0..keymaps).map(|i| format!("keymap {}", i)).collect() }
}

fn pressed(code: u32, time: u32) -> Call {
    Call::SwitchKey { code, press: PressType::Pressed, time: Timestamp(time) }
}

fn released(code: u32, time: u32) -> Call {
    Call::SwitchKey { code, press: PressType::Released, time: Timestamp(time) }
}

fn key(code: u32, keymap_idx: usize) -> KeyCode {
    KeyCode { code, keymap_idx }
}

/// A submission with the layout in use, without an input method.
fn raw_only(keymaps: usize) -> Submission {
    let mut submission = Submission::new(None);
    assert_eq!(
        submission.use_layout(&layout(keymaps), Timestamp(0)),
        vec![Call::UpdateKeymap { index: 0 }],
    );
    submission
}

/// A submission with the layout in use, with an input method which is active or not.
fn with_imservice(keymaps: usize, active: bool) -> Submission {
    let mut submission = Submission::new(Some(IMService::new(IM)));
    submission.use_layout(&layout(keymaps), Timestamp(0));
    if active {
        activate(&mut submission);
    }
    submission
}

fn activate(submission: &mut Submission) {
    let imservice = submission.imservice_mut().unwrap();
    imservice_handle_input_method_activate(imservice, IM);
    imservice_handle_done(imservice, IM, Instant { nanos: 0 });
}

fn deactivate(submission: &mut Submission) {
    let imservice = submission.imservice_mut().unwrap();
    imservice_handle_input_method_deactivate(imservice, IM);
    imservice_handle_done(imservice, IM, Instant { nanos: 0 });
}

#[test]
fn single_keycode_one_press_one_release() {
    let mut submission = raw_only(1);
    assert_eq!(
        submission.handle_press(KeyStateId(1), SubmitData::Keycodes, &vec![key(38, 0)], Timestamp(10)),
        vec![pressed(38, 10)],
    );
    assert_eq!(submission.handle_release(KeyStateId(1), Timestamp(25)), vec![released(38, 25)]);
    // the key is up: another release has nothing to say
    assert_eq!(submission.handle_release(KeyStateId(1), Timestamp(26)), Vec::new());
}

#[test]
fn single_keycode_text_key_without_input_method() {
    let mut submission = raw_only(1);
    assert_eq!(
        submission.handle_press(KeyStateId(1), SubmitData::Text("a"), &vec![key(38, 0)], Timestamp(10)),
        vec![pressed(38, 10)],
    );
    assert_eq!(submission.handle_release(KeyStateId(1), Timestamp(25)), vec![released(38, 25)]);
}

#[test]
fn two_keycodes_go_out_at_once() {
    let mut submission = raw_only(1);
    assert_eq!(
        submission.handle_press(
            KeyStateId(7),
            SubmitData::Text("ab"),
            &vec![key(38, 0), key(56, 0)],
            Timestamp(10),
        ),
        vec![pressed(38, 10), released(38, 10), pressed(56, 10), released(56, 10)],
    );
    assert_eq!(submission.handle_release(KeyStateId(7), Timestamp(30)), Vec::new());
}

#[test]
fn two_keycodes_from_two_keymaps() {
    let mut submission = raw_only(2);
    assert_eq!(
        submission.handle_press(
            KeyStateId(7),
            SubmitData::Keycodes,
            &vec![key(38, 0), key(9, 1)],
            Timestamp(10),
        ),
        vec![
            pressed(38, 10),
            released(38, 10),
            Call::UpdateKeymap { index: 1 },
            pressed(9, 10),
            released(9, 10),
        ],
    );
    assert_eq!(submission.handle_release(KeyStateId(7), Timestamp(30)), Vec::new());
}

#[test]
fn key_without_keycodes() {
    let mut submission = raw_only(1);
    assert_eq!(
        submission.handle_press(KeyStateId(2), SubmitData::Keycodes, &Vec::new(), Timestamp(1)),
        Vec::new(),
    );
    assert_eq!(submission.handle_release(KeyStateId(2), Timestamp(2)), Vec::new());
}

#[test]
fn text_goes_through_active_input_method() {
    let mut submission = with_imservice(1, true);
    assert_eq!(submission_hint_available(&submission), 1);
    assert_eq!(
        submission.handle_press(KeyStateId(1), SubmitData::Text("a"), &vec![key(38, 0)], Timestamp(10)),
        vec![Call::CommitString("a".into()), Call::Commit { serial: 1 }],
    );
    assert_eq!(submission.handle_release(KeyStateId(1), Timestamp(25)), Vec::new());
}

#[test]
fn commit_carries_the_serial_of_the_last_update() {
    let mut submission = with_imservice(1, true);
    activate(&mut submission);
    activate(&mut submission);
    assert_eq!(
        submission.handle_press(KeyStateId(1), SubmitData::Text("żó"), &vec![key(38, 0)], Timestamp(10)),
        vec![Call::CommitString("żó".into()), Call::Commit { serial: 3 }],
    );
}

#[test]
fn inactive_input_method_falls_back_to_keys() {
    let mut submission = with_imservice(1, false);
    assert_eq!(submission_hint_available(&submission), 0);
    assert_eq!(
        submission.handle_press(KeyStateId(1), SubmitData::Text("a"), &vec![key(38, 0)], Timestamp(10)),
        vec![pressed(38, 10)],
    );
    assert_eq!(submission.handle_release(KeyStateId(1), Timestamp(25)), vec![released(38, 25)]);
}

#[test]
fn input_method_going_inactive_falls_back_to_keys() {
    let mut submission = with_imservice(1, true);
    deactivate(&mut submission);
    assert_eq!(submission_hint_available(&submission), 0);
    assert_eq!(
        submission.handle_press(KeyStateId(1), SubmitData::Text("a"), &vec![key(38, 0)], Timestamp(10)),
        vec![pressed(38, 10)],
    );
}

#[test]
fn pending_activation_does_not_count() {
    let mut submission = with_imservice(1, false);
    imservice_handle_input_method_activate(submission.imservice_mut().unwrap(), IM);
    assert_eq!(submission_hint_available(&submission), 0);
    assert_eq!(
        submission.handle_press(KeyStateId(1), SubmitData::Text("a"), &vec![key(38, 0)], Timestamp(10)),
        vec![pressed(38, 10)],
    );
}

#[test]
fn no_input_method_no_hint() {
    assert_eq!(submission_hint_available(&raw_only(1)), 0);
    assert!(Submission::new(None).imservice_mut().is_none());
}

#[test]
fn release_stays_raw_after_input_method_activates() {
    let mut submission = with_imservice(1, false);
    submission.handle_press(KeyStateId(1), SubmitData::Text("a"), &vec![key(38, 0)], Timestamp(10));
    activate(&mut submission);
    assert_eq!(submission.handle_release(KeyStateId(1), Timestamp(25)), vec![released(38, 25)]);
}

#[test]
fn erase_and_keycodes_never_go_through_input_method() {
    let mut submission = with_imservice(1, true);
    assert_eq!(
        submission.handle_press(KeyStateId(1), SubmitData::Erase, &vec![key(22, 0)], Timestamp(10)),
        vec![pressed(22, 10)],
    );
    assert_eq!(
        submission.handle_press(KeyStateId(2), SubmitData::Keycodes, &vec![key(23, 0)], Timestamp(11)),
        vec![pressed(23, 11)],
    );
    assert_eq!(submission.handle_release(KeyStateId(1), Timestamp(12)), vec![released(22, 12)]);
    assert_eq!(submission.handle_release(KeyStateId(2), Timestamp(13)), vec![released(23, 13)]);
}

#[test]
fn held_modifier_keeps_text_off_the_input_method() {
    let mut submission = with_imservice(1, true);
    assert_eq!(
        submission.handle_add_modifier(KeyStateId(50), Modifier::Control, Timestamp(1)),
        vec![Call::SetModifiers(Modifiers { bits: 0x4 })],
    );
    assert_eq!(
        submission.handle_press(KeyStateId(1), SubmitData::Text("c"), &vec![key(54, 0)], Timestamp(10)),
        vec![pressed(54, 10)],
    );
    assert_eq!(submission.handle_release(KeyStateId(1), Timestamp(12)), vec![released(54, 12)]);
    assert_eq!(
        submission.handle_drop_modifier(KeyStateId(50), Timestamp(13)),
        vec![Call::SetModifiers(Modifiers { bits: 0 })],
    );
    assert_eq!(
        submission.handle_press(KeyStateId(1), SubmitData::Text("c"), &vec![key(54, 0)], Timestamp(14)),
        vec![Call::CommitString("c".into()), Call::Commit { serial: 1 }],
    );
}

#[test]
fn modifier_masks() {
    let mut submission = raw_only(1);
    assert!(!submission.is_modifier_active(Modifier::Alt));
    assert_eq!(submission.get_active_modifiers(), Vec::new());
    assert_eq!(
        submission.handle_add_modifier(KeyStateId(1), Modifier::Alt, Timestamp(0)),
        vec![Call::SetModifiers(Modifiers { bits: 0x8 })],
    );
    assert_eq!(
        submission.handle_add_modifier(KeyStateId(2), Modifier::Mod4, Timestamp(0)),
        vec![Call::SetModifiers(Modifiers { bits: 0x48 })],
    );
    assert_eq!(
        submission.handle_add_modifier(KeyStateId(3), Modifier::Control, Timestamp(0)),
        vec![Call::SetModifiers(Modifiers { bits: 0x4c })],
    );
    // a second key for Alt
    assert_eq!(
        submission.handle_add_modifier(KeyStateId(4), Modifier::Alt, Timestamp(0)),
        vec![Call::SetModifiers(Modifiers { bits: 0x4c })],
    );
    assert!(submission.is_modifier_active(Modifier::Alt));
    assert!(submission.is_modifier_active(Modifier::Control));
    assert!(submission.is_modifier_active(Modifier::Mod4));
    assert_eq!(
        submission.get_active_modifiers(),
        vec![Modifier::Control, Modifier::Alt, Modifier::Mod4],
    );
    // Alt stays while its other key is held
    assert_eq!(
        submission.handle_drop_modifier(KeyStateId(1), Timestamp(0)),
        vec![Call::SetModifiers(Modifiers { bits: 0x4c })],
    );
    assert_eq!(
        submission.handle_drop_modifier(KeyStateId(4), Timestamp(0)),
        vec![Call::SetModifiers(Modifiers { bits: 0x44 })],
    );
    assert!(!submission.is_modifier_active(Modifier::Alt));
    assert_eq!(submission.get_active_modifiers(), vec![Modifier::Control, Modifier::Mod4]);
    // a key which holds no modifier: the state goes out all the same
    assert_eq!(
        submission.handle_drop_modifier(KeyStateId(99), Timestamp(0)),
        vec![Call::SetModifiers(Modifiers { bits: 0x44 })],
    );
}

#[test]
fn modifier_state_goes_out_before_any_layout() {
    let mut submission = Submission::new(None);
    assert_eq!(
        submission.handle_drop_modifier(KeyStateId(1), Timestamp(0)),
        vec![Call::SetModifiers(Modifiers { bits: 0 })],
    );
}

#[test]
fn switching_keymap_clears_modifiers_and_keys_first() {
    let mut submission = with_imservice(2, true);
    // one key submitted as text, two held down raw, one complete at once
    submission.handle_press(KeyStateId(1), SubmitData::Text("a"), &vec![key(38, 0)], Timestamp(1));
    submission.handle_press(KeyStateId(2), SubmitData::Keycodes, &vec![key(22, 0)], Timestamp(2));
    submission.handle_press(
        KeyStateId(3),
        SubmitData::Keycodes,
        &vec![key(30, 0), key(31, 0)],
        Timestamp(3),
    );
    submission.handle_press(KeyStateId(4), SubmitData::Erase, &vec![key(23, 0)], Timestamp(4));
    submission.handle_add_modifier(KeyStateId(50), Modifier::Control, Timestamp(5));
    submission.handle_add_modifier(KeyStateId(51), Modifier::Alt, Timestamp(5));

    assert_eq!(
        submission.handle_press(KeyStateId(5), SubmitData::Keycodes, &vec![key(9, 1)], Timestamp(6)),
        vec![
            Call::SetModifiers(Modifiers { bits: 0 }),
            released(22, 6),
            released(23, 6),
            Call::UpdateKeymap { index: 1 },
            pressed(9, 6),
        ],
    );
    assert!(!submission.is_modifier_active(Modifier::Control));
    assert!(!submission.is_modifier_active(Modifier::Alt));
    assert_eq!(submission.get_active_modifiers(), Vec::new());
    // everything that was down on the virtual keyboard has been let go
    assert_eq!(submission.handle_release(KeyStateId(2), Timestamp(7)), Vec::new());
    assert_eq!(submission.handle_release(KeyStateId(3), Timestamp(7)), Vec::new());
    assert_eq!(submission.handle_release(KeyStateId(4), Timestamp(7)), Vec::new());
    assert_eq!(submission.handle_release(KeyStateId(1), Timestamp(7)), Vec::new());
    // but for the key which caused the switch
    assert_eq!(submission.handle_release(KeyStateId(5), Timestamp(8)), vec![released(9, 8)]);
}

#[test]
fn switching_keymap_without_modifiers_sends_no_mask() {
    let mut submission = raw_only(2);
    submission.handle_press(KeyStateId(2), SubmitData::Keycodes, &vec![key(22, 0)], Timestamp(2));
    assert_eq!(
        submission.handle_press(KeyStateId(5), SubmitData::Keycodes, &vec![key(9, 1)], Timestamp(6)),
        vec![released(22, 6), Call::UpdateKeymap { index: 1 }, pressed(9, 6)],
    );
}

#[test]
fn selected_keymap_is_not_selected_again() {
    let mut submission = raw_only(3);
    assert_eq!(
        submission.handle_press(KeyStateId(1), SubmitData::Keycodes, &vec![key(9, 2)], Timestamp(1)),
        vec![Call::UpdateKeymap { index: 2 }, pressed(9, 1)],
    );
    assert_eq!(
        submission.handle_press(KeyStateId(2), SubmitData::Keycodes, &vec![key(10, 2)], Timestamp(2)),
        vec![pressed(10, 2)],
    );
    assert_eq!(submission.handle_release(KeyStateId(1), Timestamp(3)), vec![released(9, 3)]);
    assert_eq!(submission.handle_release(KeyStateId(2), Timestamp(4)), vec![released(10, 4)]);
}

#[test]
fn use_layout_selects_first_keymap_once() {
    let mut submission = raw_only(2);
    // keymap 0 is selected already, and still the new layout brings its own
    let calls = submission.use_layout(&layout(1), Timestamp(5));
    assert_eq!(calls, vec![Call::UpdateKeymap { index: 0 }]);
    assert_eq!(
        submission.handle_press(KeyStateId(1), SubmitData::Keycodes, &vec![key(38, 0)], Timestamp(10)),
        vec![pressed(38, 10)],
    );
}

#[test]
fn use_layout_lets_go_of_everything_first() {
    let mut submission = raw_only(2);
    submission.handle_press(KeyStateId(1), SubmitData::Keycodes, &vec![key(9, 1)], Timestamp(1));
    submission.handle_add_modifier(KeyStateId(50), Modifier::Mod4, Timestamp(2));
    assert_eq!(
        submission.use_layout(&layout(1), Timestamp(5)),
        vec![
            Call::SetModifiers(Modifiers { bits: 0 }),
            released(9, 5),
            Call::UpdateKeymap { index: 0 },
        ],
    );
    assert_eq!(submission.handle_release(KeyStateId(1), Timestamp(6)), Vec::new());
    assert_eq!(submission.get_active_modifiers(), Vec::new());
}

#[test]
fn same_key_pressed_twice_releases_oldest_first() {
    let mut submission = raw_only(1);
    submission.handle_press(KeyStateId(1), SubmitData::Keycodes, &vec![key(38, 0)], Timestamp(1));
    submission.handle_press(
        KeyStateId(1),
        SubmitData::Keycodes,
        &vec![key(40, 0), key(41, 0)],
        Timestamp(2),
    );
    assert_eq!(submission.handle_release(KeyStateId(1), Timestamp(3)), vec![released(38, 3)]);
    assert_eq!(submission.handle_release(KeyStateId(1), Timestamp(4)), Vec::new());
    assert_eq!(submission.handle_release(KeyStateId(1), Timestamp(5)), Vec::new());
}

#[test]
fn release_of_unknown_key_is_ignored() {
    let mut submission = raw_only(1);
    assert_eq!(submission.handle_release(KeyStateId(77), Timestamp(1)), Vec::new());
    let mut empty = Submission::new(None);
    assert_eq!(empty.handle_release(KeyStateId(77), Timestamp(1)), Vec::new());
}

/// The other end of the virtual keyboard channel, as far as the calls tell.
struct Peer {
    keymap: Option<usize>,
    modifiers: u8,
    down: Vec<u32>,
}

impl Peer {
    fn receive(&mut self, calls: &[Call]) {
        for call in calls {
            match call {
                Call::SwitchKey { code, press: PressType::Pressed, .. } => self.down.push(*code),
                Call::SwitchKey { code, press: PressType::Released, .. } => {
                    let at = self.down.iter().position(|down| down == code);
                    // nothing comes up which is not down
                    self.down.remove(at.unwrap());
                },
                Call::SetModifiers(modifiers) => self.modifiers = modifiers.bits,
                Call::UpdateKeymap { index } => self.keymap = Some(*index),
                _ => {},
            }
        }
    }
}

#[test]
fn other_end_stays_in_step() {
    let mut seed: u64 = 7;
    let mut next = move |below: u64| {
        seed = seed.wrapping_mul(6364136223846793005).wrapping_add(1442695040888963407);
        (seed >> 33) % below
    };
    let mut submission = Submission::new(Some(IMService::new(IM)));
    let mut peer = Peer { keymap: None, modifiers: 0, down: Vec::new() };
    peer.receive(&submission.use_layout(&layout(3), Timestamp(0)));
    // which single keycode each key holds down
    let mut held: Vec<(usize, u32)> = Vec::new();
    for step in 0..2000u32 {
        let time = Timestamp(step);
        let key = next(12) as usize;
        match next(8) {
            0 | 1 | 2 => if !submission.is_pressed(KeyStateId(key)) {
                let count = next(3) as usize;
                let keycodes: Vec<KeyCode> = (0..count)
                    .map(|_| KeyCode { code: 9 + next(5) as u32, keymap_idx: next(3) as usize })
                    .collect();
                let data = match next(3) {
                    0 => SubmitData::Text("x"),
                    1 => SubmitData::Erase,
                    _ => SubmitData::Keycodes,
                };
                let calls = submission.handle_press(KeyStateId(key), data, &keycodes, time);
                if calls.iter().any(|call| matches!(call, Call::UpdateKeymap { .. })) {
                    held.clear();
                }
                let as_text = calls.iter().any(|call| matches!(call, Call::CommitString(_)));
                if !as_text && count == 1 {
                    held.push((key, keycodes[0].code));
                }
                peer.receive(&calls);
            },
            3 | 4 => {
                let calls = submission.handle_release(KeyStateId(key), time);
                if calls.iter().any(|call| matches!(call, Call::UpdateKeymap { .. })) {
                    held.clear();
                }
                held.retain(|(id, _)| *id != key);
                peer.receive(&calls);
                assert!(!submission.is_pressed(KeyStateId(key)));
            },
            5 => {
                let modifier = [Modifier::Control, Modifier::Alt, Modifier::Mod4][next(3) as usize];
                peer.receive(&submission.handle_add_modifier(KeyStateId(100 + key), modifier, time));
            },
            6 => peer.receive(&submission.handle_drop_modifier(KeyStateId(100 + key), time)),
            _ => match next(4) {
                0 => {
                    peer.receive(&submission.use_layout(&layout(3), time));
                    held.clear();
                },
                1 => activate(&mut submission),
                2 => deactivate(&mut submission),
                _ => {},
            },
        }
        assert_eq!(peer.keymap, submission.selected_keymap());
        let mut mask = 0;
        for modifier in submission.get_active_modifiers() {
            mask |= match modifier {
                Modifier::Control => 0x4,
                Modifier::Alt => 0x8,
                Modifier::Mod4 => 0x40,
            };
        }
        assert_eq!(peer.modifiers, mask);
        let mut expected: Vec<u32> = held.iter().map(|(_, code)| *code).collect();
        let mut down = peer.down.clone();
        expected.sort();
        down.sort();
        assert_eq!(down, expected);
    }
}

#[test]
fn selected_keymap_and_pressed_keys_can_be_read() {
    let mut submission = Submission::new(None);
    assert_eq!(submission.selected_keymap(), None);
    assert_eq!(submission.keymap_count(), 0);
    submission.use_layout(&layout(2), Timestamp(0));
    assert_eq!(submission.selected_keymap(), Some(0));
    assert_eq!(submission.keymap_count(), 2);
    assert!(!submission.is_pressed(KeyStateId(1)));
    submission.handle_press(KeyStateId(1), SubmitData::Keycodes, &vec![key(9, 1)], Timestamp(1));
    assert_eq!(submission.selected_keymap(), Some(1));
    assert!(submission.is_pressed(KeyStateId(1)));
    assert!(!submission.is_pressed(KeyStateId(2)));
    submission.handle_release(KeyStateId(1), Timestamp(2));
    assert!(!submission.is_pressed(KeyStateId(1)));
}

#[test]
fn keycodes_have_to_fit_the_layout() {
    let submission = raw_only(2);
    assert!(submission.can_press(&SubmitData::Keycodes, &vec![key(9, 0), key(9, 1)]));
    assert!(submission.can_press(&SubmitData::Keycodes, &Vec::new()));
    assert!(!submission.can_press(&SubmitData::Keycodes, &vec![key(9, 0), key(9, 2)]));
    assert!(!submission.can_press(&SubmitData::Text("a"), &vec![key(9, 2)]));
    assert!(!Submission::new(None).can_press(&SubmitData::Erase, &vec![key(9, 0)]));
    // text which goes to the input method needs no keymap
    let mut submission = with_imservice(1, true);
    assert!(submission.can_press(&SubmitData::Text("a"), &vec![key(9, 5)]));
    assert!(!submission.can_press(&SubmitData::Erase, &vec![key(9, 5)]));
    assert_eq!(
        submission.handle_press(KeyStateId(1), SubmitData::Text("a"), &vec![key(9, 5)], Timestamp(1)),
        vec![Call::CommitString("a".into()), Call::Commit { serial: 1 }],
    );
    submission.handle_add_modifier(KeyStateId(50), Modifier::Alt, Timestamp(2));
    assert!(!submission.can_press(&SubmitData::Text("a"), &vec![key(9, 5)]));
}
