//! What goes out to the compositor.
//!
//! Two channels lead there.
//! The input method channel takes text, but only while a text field has it activated.
//! The virtual keyboard channel takes the presses of an emulated keyboard, and is always there.
//! Nothing in this crate writes to either:
//! the state machines answer each of their inputs with the calls to make,
//! in order, and it is up to the owner of the channels to make them.

use vstd::prelude::*;
use crate::keyboard::Modifiers;
use crate::keyboard::PressType;
use crate::submission::Timestamp;

verus! {

/// A single call on one of the two channels.
#[derive(Debug, Clone, PartialEq, Eq)]
pub enum Call {
    /// Input method: send this text to the text field.
    CommitString(String),
    /// Input method: remove this many bytes around the cursor.
    DeleteSurroundingText { before: u32, after: u32 },
    /// Input method: apply what was sent since the last commit.
    /// The serial counts the state updates received from the compositor.
    Commit { serial: u32 },
    /// Virtual keyboard: the key with this code in the current keymap changed state.
    SwitchKey { code: u32, press: PressType, time: Timestamp },
    /// Virtual keyboard: the depressed modifiers changed.
    SetModifiers(Modifiers),
    /// Virtual keyboard: switch to the loaded keymap with this index.
    UpdateKeymap { index: usize },
}

/// What a [`Call`] holds, as plain values.
pub enum CallView {
    CommitString(Seq<char>),
    DeleteSurroundingText { before: u32, after: u32 },
    Commit { serial: u32 },
    SwitchKey { code: u32, press: PressType, time: Timestamp },
    SetModifiers(Modifiers),
    UpdateKeymap { index: usize },
}

impl View for Call {
    type V = CallView;

    open spec fn view(&self) -> CallView {
        match *self {
            Call::CommitString(text) => CallView::CommitString(text@),
            Call::DeleteSurroundingText { before, after } => CallView::DeleteSurroundingText {
                before,
                after,
            },
            Call::Commit { serial } => CallView::Commit { serial },
            Call::SwitchKey { code, press, time } => CallView::SwitchKey { code, press, time },
            Call::SetModifiers(modifiers) => CallView::SetModifiers(modifiers),
            Call::UpdateKeymap { index } => CallView::UpdateKeymap { index },
        }
    }
}

impl CallView {
    /// Whether the call goes out on the virtual keyboard channel.
    pub open spec fn is_raw(self) -> bool {
        self is SwitchKey || self is SetModifiers || self is UpdateKeymap
    }
}

/// The calls in a list, as plain values.
pub open spec fn call_views(calls: Seq<Call>) -> Seq<CallView> {
    Seq::new(calls.len(), |i: int| calls[i]@)
}

/// Appending a call to a list appends its view to the views.
pub proof fn call_views_push(calls: Seq<Call>, call: Call)
    ensures
        call_views(calls.push(call)) == call_views(calls).push(call@),
{
    assert(call_views(calls.push(call)) =~= call_views(calls).push(call@));
}

} // verus!
