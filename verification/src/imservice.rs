//! Manages the state of the input method protocol.
//!
//! The compositor describes the text field in a series of updates
//! which only count once it says that the series is done.
//! Until then they are kept as pending.

pub mod c;

use vstd::prelude::*;
use vstd::std_specs::convert::TryFromSpecImpl;
use vstd::string::StringExecFns;
use crate::imservice::c::InputMethod;
use crate::protocol::Call;
use crate::protocol::CallView;
use crate::state;
use crate::time::Instant;

verus! {

/// The bits which [`ContentHint`] knows.
pub const CONTENT_HINT_ALL_BITS: u32 = 0x3ff;

/// Hints about the content of the text field, as a set of flags.
/// Maps to the content hint values of the text input protocol.
#[derive(Debug, Clone, Copy, PartialEq, Eq, Structural)]
pub struct ContentHint {
    pub bits: u32,
}

impl ContentHint {
    pub const COMPLETION: u32 = 0x1;

    pub const SPELLCHECK: u32 = 0x2;

    pub const AUTO_CAPITALIZATION: u32 = 0x4;

    pub const LOWERCASE: u32 = 0x8;

    pub const UPPERCASE: u32 = 0x10;

    pub const TITLECASE: u32 = 0x20;

    pub const HIDDEN_TEXT: u32 = 0x40;

    pub const SENSITIVE_DATA: u32 = 0x80;

    pub const LATIN: u32 = 0x100;

    pub const MULTILINE: u32 = 0x200;

    pub open spec fn spec_none() -> ContentHint {
        ContentHint { bits: 0 }
    }

    /// No hint at all.
    #[verifier::when_used_as_spec(spec_none)]
    pub fn none() -> (hint: ContentHint)
        ensures
            hint == Self::spec_none(),
    {
        ContentHint { bits: 0 }
    }

    /// Whether every bit which is set stands for a flag.
    pub open spec fn bits_known(bits: u32) -> bool {
        bits & !CONTENT_HINT_ALL_BITS == 0
    }

    /// The hints with exactly the given bits set,
    /// unless some bit stands for no flag.
    pub fn from_bits(bits: u32) -> (hint: Option<ContentHint>)
        ensures
            hint == if Self::bits_known(bits) {
                Some(ContentHint { bits })
            } else {
                None
            },
            bits <= CONTENT_HINT_ALL_BITS ==> hint is Some,
    {
        assert(bits <= 0x3ff ==> bits & !0x3ffu32 == 0) by (bit_vector);
        if bits & !CONTENT_HINT_ALL_BITS == 0 {
            Some(ContentHint { bits })
        } else {
            None
        }
    }
}

/// The purpose of the text field.
/// Maps to the content purpose values of the text input protocol.
#[derive(Debug, Clone, Copy, PartialEq, Eq, Structural)]
pub enum ContentPurpose {
    Normal,
    Alpha,
    Digits,
    Number,
    Phone,
    Url,
    Email,
    Name,
    Password,
    Pin,
    Date,
    Time,
    Datetime,
    Terminal,
}

impl ContentPurpose {
    /// The number which stands for the purpose in the protocol.
    pub open spec fn spec_wire_value(self) -> u32 {
        match self {
            ContentPurpose::Normal => 0,
            ContentPurpose::Alpha => 1,
            ContentPurpose::Digits => 2,
            ContentPurpose::Number => 3,
            ContentPurpose::Phone => 4,
            ContentPurpose::Url => 5,
            ContentPurpose::Email => 6,
            ContentPurpose::Name => 7,
            ContentPurpose::Password => 8,
            ContentPurpose::Pin => 9,
            ContentPurpose::Date => 10,
            ContentPurpose::Time => 11,
            ContentPurpose::Datetime => 12,
            ContentPurpose::Terminal => 13,
        }
    }

    /// The purpose which the number stands for in the protocol, if it stands for one.
    pub open spec fn of_wire_value(num: u32) -> Result<ContentPurpose, UnrecognizedValue> {
        if exists|purpose: ContentPurpose| purpose.spec_wire_value() == num {
            Ok(choose|purpose: ContentPurpose| purpose.spec_wire_value() == num)
        } else {
            Err(UnrecognizedValue)
        }
    }

    #[verifier::when_used_as_spec(spec_wire_value)]
    pub fn wire_value(self) -> (value: u32)
        ensures
            value == self.spec_wire_value(),
    {
        match self {
            ContentPurpose::Normal => 0,
            ContentPurpose::Alpha => 1,
            ContentPurpose::Digits => 2,
            ContentPurpose::Number => 3,
            ContentPurpose::Phone => 4,
            ContentPurpose::Url => 5,
            ContentPurpose::Email => 6,
            ContentPurpose::Name => 7,
            ContentPurpose::Password => 8,
            ContentPurpose::Pin => 9,
            ContentPurpose::Date => 10,
            ContentPurpose::Time => 11,
            ContentPurpose::Datetime => 12,
            ContentPurpose::Terminal => 13,
        }
    }
}

/// The error for a number which stands for nothing in the protocol.
#[derive(Debug, Clone, Copy, PartialEq, Eq, Structural)]
pub struct UnrecognizedValue;

impl TryFrom<u32> for ContentPurpose {
    type Error = UnrecognizedValue;

    fn try_from(num: u32) -> (purpose: Result<Self, Self::Error>) {
        let known = match num {
            0 => Some(ContentPurpose::Normal),
            1 => Some(ContentPurpose::Alpha),
            2 => Some(ContentPurpose::Digits),
            3 => Some(ContentPurpose::Number),
            4 => Some(ContentPurpose::Phone),
            5 => Some(ContentPurpose::Url),
            6 => Some(ContentPurpose::Email),
            7 => Some(ContentPurpose::Name),
            8 => Some(ContentPurpose::Password),
            9 => Some(ContentPurpose::Pin),
            10 => Some(ContentPurpose::Date),
            11 => Some(ContentPurpose::Time),
            12 => Some(ContentPurpose::Datetime),
            13 => Some(ContentPurpose::Terminal),
            _ => None,
        };
        match known {
            Some(purpose) => {
                proof {
                    purpose_wire_value_is_recognized(purpose);
                }
                Ok(purpose)
            },
            None => {
                proof {
                    purpose_wire_value_unrecognized(num);
                }
                Err(UnrecognizedValue)
            },
        }
    }
}

impl TryFromSpecImpl<u32> for ContentPurpose {
    open spec fn obeys_try_from_spec() -> bool {
        true
    }

    open spec fn try_from_spec(num: u32) -> Result<Self, Self::Error> {
        ContentPurpose::of_wire_value(num)
    }
}

/// Reading the number of a purpose gives that purpose back:
/// no two purposes share a number.
pub proof fn purpose_wire_value_is_recognized(purpose: ContentPurpose)
    ensures
        ContentPurpose::of_wire_value(purpose.spec_wire_value()) == Ok::<
            ContentPurpose,
            UnrecognizedValue,
        >(purpose),
        purpose.spec_wire_value() <= 13,
{
    let num = purpose.spec_wire_value();
    let chosen = choose|other: ContentPurpose| other.spec_wire_value() == num;
    assert(chosen.spec_wire_value() == num);
}

/// The numbers above 13 stand for no purpose.
pub proof fn purpose_wire_value_unrecognized(num: u32)
    requires
        num > 13,
    ensures
        ContentPurpose::of_wire_value(num) == Err::<ContentPurpose, UnrecognizedValue>(
            UnrecognizedValue,
        ),
{
    assert forall|purpose: ContentPurpose| purpose.spec_wire_value() != num by {}
}

/// What caused the text around the cursor to change.
/// Maps to the change cause values of the text input protocol.
#[derive(Debug, Clone, Copy, PartialEq, Eq, Structural)]
pub enum ChangeCause {
    InputMethod,
    Other,
}

impl ChangeCause {
    /// The number which stands for the cause in the protocol.
    pub open spec fn spec_wire_value(self) -> u32 {
        match self {
            ChangeCause::InputMethod => 0,
            ChangeCause::Other => 1,
        }
    }

    /// The cause which the number stands for in the protocol, if it stands for one.
    pub open spec fn of_wire_value(num: u32) -> Result<ChangeCause, UnrecognizedValue> {
        if num == 0 {
            Ok(ChangeCause::InputMethod)
        } else if num == 1 {
            Ok(ChangeCause::Other)
        } else {
            Err(UnrecognizedValue)
        }
    }

    #[verifier::when_used_as_spec(spec_wire_value)]
    pub fn wire_value(self) -> (value: u32)
        ensures
            value == self.spec_wire_value(),
            ChangeCause::of_wire_value(value) == Ok::<ChangeCause, UnrecognizedValue>(self),
    {
        match self {
            ChangeCause::InputMethod => 0,
            ChangeCause::Other => 1,
        }
    }
}

impl TryFrom<u32> for ChangeCause {
    type Error = UnrecognizedValue;

    fn try_from(num: u32) -> (cause: Result<Self, Self::Error>) {
        match num {
            0 => Ok(ChangeCause::InputMethod),
            1 => Ok(ChangeCause::Other),
            _ => Err(UnrecognizedValue),
        }
    }
}

impl TryFromSpecImpl<u32> for ChangeCause {
    open spec fn obeys_try_from_spec() -> bool {
        true
    }

    open spec fn try_from_spec(num: u32) -> Result<Self, Self::Error> {
        ChangeCause::of_wire_value(num)
    }
}

impl UnrecognizedValue {
    /// The error in words.
    pub fn message(&self) -> (text: String)
        ensures
            text@ == "Unrecognized value"@,
    {
        String::from_str("Unrecognized value")
    }
}

/// Describes the desired state of the input method as requested by the server
#[derive(Debug, PartialEq, Eq)]
pub struct IMProtocolState {
    pub surrounding_text: String,
    pub surrounding_cursor: u32,
    pub content_purpose: ContentPurpose,
    pub content_hint: ContentHint,
    pub text_change_cause: ChangeCause,
    pub active: bool,
}

/// What an [`IMProtocolState`] holds, as plain values.
pub struct IMProtocolStateView {
    pub surrounding_text: Seq<char>,
    pub surrounding_cursor: u32,
    pub content_purpose: ContentPurpose,
    pub content_hint: ContentHint,
    pub text_change_cause: ChangeCause,
    pub active: bool,
}

impl View for IMProtocolState {
    type V = IMProtocolStateView;

    open spec fn view(&self) -> IMProtocolStateView {
        IMProtocolStateView {
            surrounding_text: self.surrounding_text@,
            surrounding_cursor: self.surrounding_cursor,
            content_purpose: self.content_purpose,
            content_hint: self.content_hint,
            text_change_cause: self.text_change_cause,
            active: self.active,
        }
    }
}

impl IMProtocolStateView {
    /// The state before the compositor said anything:
    /// no text, nothing known about the text field, not active.
    pub open spec fn initial() -> IMProtocolStateView {
        IMProtocolStateView {
            surrounding_text: Seq::empty(),
            surrounding_cursor: 0,
            content_purpose: ContentPurpose::Normal,
            content_hint: ContentHint::spec_none(),
            text_change_cause: ChangeCause::InputMethod,
            active: false,
        }
    }
}

impl Clone for IMProtocolState {
    fn clone(&self) -> (copy: Self)
        ensures
            copy@ == self@,
    {
        IMProtocolState {
            surrounding_text: self.surrounding_text.clone(),
            surrounding_cursor: self.surrounding_cursor,
            content_purpose: self.content_purpose,
            content_hint: self.content_hint,
            text_change_cause: self.text_change_cause,
            active: self.active,
        }
    }
}

impl Default for IMProtocolState {
    fn default() -> (state: IMProtocolState)
        ensures
            state@ == IMProtocolStateView::initial(),
    {
        IMProtocolState {
            surrounding_text: String::new(),
            surrounding_cursor: 0,
            content_hint: ContentHint::none(),
            content_purpose: ContentPurpose::Normal,
            text_change_cause: ChangeCause::InputMethod,
            active: false,
        }
    }
}

/// The input method as this side knows it.
pub struct IMService {
    /// The protocol object which the updates must come from.
    im: InputMethod,
    pending: IMProtocolState,
    current: IMProtocolState,
    preedit_string: String,
    /// Counts the finished series of updates. Wraps around.
    serial: u32,
}

/// What an [`IMService`] holds, as plain values.
pub struct IMServiceView {
    pub im: InputMethod,
    pub pending: IMProtocolStateView,
    pub current: IMProtocolStateView,
    pub preedit_string: Seq<char>,
    pub serial: u32,
}

impl View for IMService {
    type V = IMServiceView;

    closed spec fn view(&self) -> IMServiceView {
        IMServiceView {
            im: self.im,
            pending: self.pending@,
            current: self.current@,
            preedit_string: self.preedit_string@,
            serial: self.serial,
        }
    }
}

/// Why a submission through the input method did not happen.
#[derive(Debug, Clone, Copy, PartialEq, Eq, Structural)]
pub enum SubmitError {
    /// The input method had not been activated
    NotActive,
}

impl IMServiceView {
    /// The event which tells the state manager what the input method is like now.
    pub open spec fn event(self, timestamp: Instant) -> state::Event {
        state::Event::InputMethod(
            if self.current.active {
                state::InputMethod::Active(
                    state::InputMethodDetails {
                        hint: self.current.content_hint,
                        purpose: self.current.content_purpose,
                    },
                )
            } else {
                state::InputMethod::InactiveSince(timestamp)
            },
        )
    }

    /// The answer to a request to submit: the call goes out if the input method is active.
    pub open spec fn answers(self, call: CallView, answer: Result<Call, SubmitError>) -> bool {
        if self.current.active {
            answer is Ok && answer->Ok_0@ == call
        } else {
            answer == Err::<Call, SubmitError>(SubmitError::NotActive)
        }
    }
}

impl IMService {
    /// Starts tracking the given input method. Nothing is known about it yet.
    pub fn new(im: InputMethod) -> (imservice: Box<IMService>)
        ensures
            imservice@ == (IMServiceView {
                im,
                pending: IMProtocolStateView::initial(),
                current: IMProtocolStateView::initial(),
                preedit_string: Seq::empty(),
                serial: 0,
            }),
    {
        Box::new(
            IMService {
                im,
                pending: IMProtocolState::default(),
                current: IMProtocolState::default(),
                preedit_string: String::new(),
                serial: 0,
            },
        )
    }

    /// The protocol object which the updates must come from.
    pub fn im(&self) -> (im: InputMethod)
        ensures
            im == self@.im,
    {
        self.im
    }

    /// What the compositor said since the last finished series of updates.
    pub fn pending(&self) -> (state: &IMProtocolState)
        ensures
            state@ == self@.pending,
    {
        &self.pending
    }

    /// What the compositor said up to the last finished series of updates.
    pub fn current(&self) -> (state: &IMProtocolState)
        ensures
            state@ == self@.current,
    {
        &self.current
    }

    /// Asks to send the text to the text field.
    pub fn commit_string(&self, text: &str) -> (answer: Result<Call, SubmitError>)
        ensures
            self@.answers(CallView::CommitString(text@), answer),
    {
        match self.current.active {
            true => Ok(Call::CommitString(String::from_str(text))),
            false => Err(SubmitError::NotActive),
        }
    }

    /// Asks to remove this many bytes before and after the cursor.
    pub fn delete_surrounding_text(&self, before: u32, after: u32) -> (answer: Result<
        Call,
        SubmitError,
    >)
        ensures
            self@.answers(CallView::DeleteSurroundingText { before, after }, answer),
    {
        match self.current.active {
            true => Ok(Call::DeleteSurroundingText { before, after }),
            false => Err(SubmitError::NotActive),
        }
    }

    /// Asks to apply what was sent since the last commit.
    pub fn commit(&mut self) -> (answer: Result<Call, SubmitError>)
        ensures
            final(self)@ == old(self)@,
            old(self)@.answers(CallView::Commit { serial: old(self)@.serial }, answer),
    {
        match self.current.active {
            true => Ok(Call::Commit { serial: self.serial }),
            false => Err(SubmitError::NotActive),
        }
    }

    /// Tells whether a text field wants input, as of the last finished series of updates.
    pub fn is_active(&self) -> (active: bool)
        ensures
            active == self@.current.active,
    {
        self.current.active
    }

    /// The message for the state manager about the input method as it is now.
    /// The timestamp is the time of sending.
    pub fn send_event(&self, timestamp: Instant) -> (message: state::Event)
        ensures
            message == self@.event(timestamp),
    {
        let state = &self.current;
        let message = if state.active {
            state::InputMethod::Active(
                state::InputMethodDetails {
                    hint: state.content_hint,
                    purpose: state.content_purpose,
                },
            )
        } else {
            state::InputMethod::InactiveSince(timestamp)
        };
        state::Event::InputMethod(message)
    }
}

} // verus!
