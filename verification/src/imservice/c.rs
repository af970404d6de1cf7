//! What the compositor calls when the input method changes.
//!
//! Each handler takes the input method which the call is about,
//! and it must be the one that the service tracks:
//! a call about another one has been misdirected and must not get this far.

use vstd::prelude::*;
use vstd::string::StringExecFns;
use vstd::utf8::decode_utf8;
use vstd::utf8::valid_utf8;
use crate::imservice::ChangeCause;
use crate::imservice::ContentHint;
use crate::imservice::ContentPurpose;
use crate::imservice::IMProtocolState;
use crate::imservice::IMProtocolStateView;
use crate::imservice::IMService;
use crate::imservice::IMServiceView;
use crate::state;
use crate::time::Instant;
use crate::util::str_from_utf8;

verus! {

/// Stands for the input method object of the compositor.
/// Two handles are the same object exactly when their numbers are equal,
/// and the number 0 stands for no object at all.
#[derive(Debug, Clone, Copy, PartialEq, Eq, Structural)]
pub struct InputMethod(pub usize);

impl InputMethod {
    pub open spec fn spec_is_null(&self) -> bool {
        self.0 == 0
    }

    #[verifier::when_used_as_spec(spec_is_null)]
    pub fn is_null(&self) -> (null: bool)
        ensures
            null == (self.0 == 0),
    {
        self.0 == 0
    }

    pub fn null() -> (handle: Self)
        ensures
            handle.is_null(),
            handle == InputMethod(0),
    {
        InputMethod(0)
    }
}

/// Something in an update made no sense, and a default took its place.
#[derive(Debug, Clone, Copy, PartialEq, Eq, Structural)]
pub enum Warning {
    InvalidSurroundingText,
    InvalidHintFlags,
    InvalidPurposeValue,
    InvalidCauseValue,
}

impl Warning {
    /// The warning in words.
    pub fn message(&self) -> (text: &'static str)
        ensures
            text@ == match *self {
                Warning::InvalidSurroundingText => "Received invalid string"@,
                Warning::InvalidHintFlags => "Received invalid hint flags"@,
                Warning::InvalidPurposeValue => "Received invalid purpose value"@,
                Warning::InvalidCauseValue => "Received invalid cause value"@,
            },
    {
        match self {
            Warning::InvalidSurroundingText => "Received invalid string",
            Warning::InvalidHintFlags => "Received invalid hint flags",
            Warning::InvalidPurposeValue => "Received invalid purpose value",
            Warning::InvalidCauseValue => "Received invalid cause value",
        }
    }
}

/// Why a call from the compositor cannot be served.
#[derive(Debug, Clone, Copy, PartialEq, Eq, Structural)]
pub enum Misdirected {
    /// There is no service to take the call.
    NoService,
    /// The service tracks another input method.
    ForeignInputMethod,
}

impl Misdirected {
    /// The error in words.
    pub fn message(&self) -> (text: &'static str)
        ensures
            text@ == match *self {
                Misdirected::NoService => "Null imservice pointer"@,
                Misdirected::ForeignInputMethod => "Imservice doesn't contain the input method"@,
            },
    {
        match self {
            Misdirected::NoService => "Null imservice pointer",
            Misdirected::ForeignInputMethod => "Imservice doesn't contain the input method",
        }
    }
}

/// Verifies that the input method passed along
/// matches the one in the service, if there is a service,
/// and hands the service on for the update.
pub fn check_imservice<'a>(imservice: Option<&'a mut IMService>, im: InputMethod) -> (checked:
    Result<&'a mut IMService, Misdirected>)
    ensures
        match imservice {
            None => checked == Err::<&mut IMService, Misdirected>(Misdirected::NoService),
            Some(service) => if service@.im == im {
                match checked {
                    Ok(granted) => *granted == *service && *final(service) == *final(granted),
                    Err(_) => false,
                }
            } else {
                checked == Err::<&mut IMService, Misdirected>(Misdirected::ForeignInputMethod)
                    && *final(service) == *service
            },
        },
{
    match imservice {
        None => Err(Misdirected::NoService),
        Some(service) => {
            if service.im == im {
                Ok(service)
            } else {
                Err(Misdirected::ForeignInputMethod)
            }
        },
    }
}

/// A text field wants input.
/// Whatever was pending belongs to the last text field, and is forgotten.
pub fn imservice_handle_input_method_activate(imservice: &mut IMService, im: InputMethod)
    requires
        old(imservice)@.im == im,
    ensures
        final(imservice)@ == (IMServiceView {
            preedit_string: Seq::empty(),
            pending: IMProtocolStateView { active: true, ..IMProtocolStateView::initial() },
            ..old(imservice)@
        }),
{
    imservice.preedit_string = String::new();
    let mut pending = IMProtocolState::default();
    pending.active = true;
    imservice.pending = pending;
}

/// The text field no longer wants input.
pub fn imservice_handle_input_method_deactivate(imservice: &mut IMService, im: InputMethod)
    requires
        old(imservice)@.im == im,
    ensures
        final(imservice)@ == (IMServiceView {
            pending: IMProtocolStateView { active: false, ..old(imservice)@.pending },
            ..old(imservice)@
        }),
{
    imservice.pending.active = false;
}

/// The text around the cursor, as the bytes which came in, and the cursor's place in it.
/// Bytes which are no UTF-8 count as no text, and there is a warning.
pub fn imservice_handle_surrounding_text(
    imservice: &mut IMService,
    im: InputMethod,
    text: Vec<u8>,
    cursor: u32,
    _anchor: u32,
) -> (warning: Option<Warning>)
    requires
        old(imservice)@.im == im,
    ensures
        final(imservice)@ == (IMServiceView {
            pending: IMProtocolStateView {
                surrounding_text: if valid_utf8(text@) {
                    decode_utf8(text@)
                } else {
                    Seq::empty()
                },
                surrounding_cursor: cursor,
                ..old(imservice)@.pending
            },
            ..old(imservice)@
        }),
        warning == if valid_utf8(text@) {
            None
        } else {
            Some(Warning::InvalidSurroundingText)
        },
{
    let (text, warning) = match str_from_utf8(text.as_slice()) {
        Ok(text) => (String::from_str(text), None),
        Err(_) => (String::new(), Some(Warning::InvalidSurroundingText)),
    };
    imservice.pending.surrounding_text = text;
    imservice.pending.surrounding_cursor = cursor;
    warning
}

/// The hints that `bits` stand for, with no hint in place of bits that stand for none.
pub open spec fn hint_or_default(bits: u32) -> ContentHint {
    if ContentHint::bits_known(bits) {
        ContentHint { bits }
    } else {
        ContentHint::spec_none()
    }
}

/// The purpose that `num` stands for, or the normal purpose if it stands for none.
pub open spec fn purpose_or_default(num: u32) -> ContentPurpose {
    match ContentPurpose::of_wire_value(num) {
        Ok(purpose) => purpose,
        Err(_) => ContentPurpose::Normal,
    }
}

/// The cause that `num` stands for, or the input method if it stands for none.
pub open spec fn cause_or_default(num: u32) -> ChangeCause {
    match ChangeCause::of_wire_value(num) {
        Ok(cause) => cause,
        Err(_) => ChangeCause::InputMethod,
    }
}

/// The warnings about a content type update, those about the hint first.
pub open spec fn content_type_warnings(hint: u32, purpose: u32) -> Seq<Warning> {
    (if ContentHint::bits_known(hint) {
        Seq::<Warning>::empty()
    } else {
        seq![Warning::InvalidHintFlags]
    }) + (if ContentPurpose::of_wire_value(purpose) is Ok {
        Seq::<Warning>::empty()
    } else {
        seq![Warning::InvalidPurposeValue]
    })
}

/// What kind of text the text field takes.
/// A value which makes no sense is replaced by the default, and there is a warning.
pub fn imservice_handle_content_type(
    imservice: &mut IMService,
    im: InputMethod,
    hint: u32,
    purpose: u32,
) -> (warnings: Vec<Warning>)
    requires
        old(imservice)@.im == im,
    ensures
        final(imservice)@ == (IMServiceView {
            pending: IMProtocolStateView {
                content_hint: hint_or_default(hint),
                content_purpose: purpose_or_default(purpose),
                ..old(imservice)@.pending
            },
            ..old(imservice)@
        }),
        warnings@ == content_type_warnings(hint, purpose),
{
    let mut warnings = Vec::new();
    let content_hint = match ContentHint::from_bits(hint) {
        Some(hint) => hint,
        None => {
            warnings.push(Warning::InvalidHintFlags);
            ContentHint::none()
        },
    };
    let content_purpose = match ContentPurpose::try_from(purpose) {
        Ok(purpose) => purpose,
        Err(_) => {
            warnings.push(Warning::InvalidPurposeValue);
            ContentPurpose::Normal
        },
    };
    imservice.pending.content_hint = content_hint;
    imservice.pending.content_purpose = content_purpose;
    assert(warnings@ =~= content_type_warnings(hint, purpose));
    warnings
}

/// Why the text around the cursor changed.
/// A value which makes no sense counts as a change by the input method, and there is a warning.
pub fn imservice_handle_text_change_cause(
    imservice: &mut IMService,
    im: InputMethod,
    cause: u32,
) -> (warning: Option<Warning>)
    requires
        old(imservice)@.im == im,
    ensures
        final(imservice)@ == (IMServiceView {
            pending: IMProtocolStateView {
                text_change_cause: cause_or_default(cause),
                ..old(imservice)@.pending
            },
            ..old(imservice)@
        }),
        warning == if ChangeCause::of_wire_value(cause) is Ok {
            None
        } else {
            Some(Warning::InvalidCauseValue)
        },
{
    let (text_change_cause, warning) = match ChangeCause::try_from(cause) {
        Ok(cause) => (cause, None),
        Err(_) => (ChangeCause::InputMethod, Some(Warning::InvalidCauseValue)),
    };
    imservice.pending.text_change_cause = text_change_cause;
    warning
}

/// The series of updates is complete: what was pending counts from now on.
/// Returns the message which tells the state manager about it.
pub fn imservice_handle_done(imservice: &mut IMService, im: InputMethod, now: Instant) -> (message:
    state::Event)
    requires
        old(imservice)@.im == im,
    ensures
        final(imservice)@ == (IMServiceView {
            current: old(imservice)@.pending,
            serial: if old(imservice)@.serial == u32::MAX {
                0u32
            } else {
                (old(imservice)@.serial + 1) as u32
            },
            ..old(imservice)@
        }),
        message == final(imservice)@.event(now),
{
    imservice.current = imservice.pending.clone();
    imservice.serial = imservice.serial.wrapping_add(1);
    imservice.send_event(now)
}

/// The input method is gone for good, and so is the text field.
/// Returns the message which tells the state manager about it.
pub fn imservice_handle_unavailable(imservice: &mut IMService, im: InputMethod, now: Instant) -> (message:
    state::Event)
    requires
        old(imservice)@.im == im,
    ensures
        final(imservice)@ == (IMServiceView {
            current: IMProtocolStateView { active: false, ..old(imservice)@.current },
            ..old(imservice)@
        }),
        message == state::Event::InputMethod(state::InputMethod::InactiveSince(now)),
{
    // no need to care about proper double-buffering,
    // the keyboard is already decommissioned
    imservice.current.active = false;
    imservice.send_event(now)
}

} // verus!
