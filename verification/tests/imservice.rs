use squeekboard::imservice::c::check_imservice;
use squeekboard::imservice::c::imservice_handle_content_type;
use squeekboard::imservice::c::imservice_handle_done;
use squeekboard::imservice::c::imservice_handle_input_method_activate;
use squeekboard::imservice::c::imservice_handle_input_method_deactivate;
use squeekboard::imservice::c::imservice_handle_surrounding_text;
use squeekboard::imservice::c::imservice_handle_text_change_cause;
use squeekboard::imservice::c::imservice_handle_unavailable;
use squeekboard::imservice::c::InputMethod;
use squeekboard::imservice::c::Misdirected;
use squeekboard::imservice::c::Warning;
use squeekboard::imservice::ChangeCause;
use squeekboard::imservice::ContentHint;
use squeekboard::imservice::ContentPurpose;
use squeekboard::imservice::IMProtocolState;
use squeekboard::imservice::IMService;
use squeekboard::imservice::SubmitError;
use squeekboard::imservice::UnrecognizedValue;
use squeekboard::protocol::Call;
use squeekboard::state;
use squeekboard::time::Instant;

const IM: InputMethod = InputMethod(0xbeef);

fn at(nanos: u64) -> Instant {
    Instant { nanos }
}

fn active(hint: u32, purpose: ContentPurpose) -> state::Event {
    state::Event::InputMethod(state::InputMethod::Active(state::InputMethodDetails {
        hint: ContentHint { bits: hint },
        purpose,
    }))
}

fn inactive_since(nanos: u64) -> state::Event {
    state::Event::InputMethod(state::InputMethod::InactiveSince(at(nanos)))
}

#[test]
fn content_purpose_numbers() {
    let all = [
        ContentPurpose::Normal,
        ContentPurpose::Alpha,
        ContentPurpose::Digits,
        ContentPurpose::Number,
        ContentPurpose::Phone,
        ContentPurpose::Url,
        ContentPurpose::Email,
        ContentPurpose::Name,
        ContentPurpose::Password,
        ContentPurpose::Pin,
        ContentPurpose::Date,
        ContentPurpose::Time,
        ContentPurpose::Datetime,
        ContentPurpose::Terminal,
    ];
    for (number, purpose) in all.iter().enumerate() {
        assert_eq!(ContentPurpose::try_from(number as u32), Ok(*purpose));
        assert_eq!(purpose.wire_value(), number as u32);
    }
    assert_eq!(ContentPurpose::Alpha.wire_value(), 1);
    assert_eq!(ContentPurpose::try_from(14), Err(UnrecognizedValue));
    assert_eq!(ContentPurpose::try_from(u32::MAX), Err(UnrecognizedValue));
}

#[test]
fn change_cause_numbers() {
    assert_eq!(ChangeCause::try_from(0), Ok(ChangeCause::InputMethod));
    assert_eq!(ChangeCause::try_from(1), Ok(ChangeCause::Other));
    assert_eq!(ChangeCause::try_from(2), Err(UnrecognizedValue));
    assert_eq!(ChangeCause::InputMethod.wire_value(), 0);
    assert_eq!(ChangeCause::Other.wire_value(), 1);
    assert_eq!(UnrecognizedValue.message(), "Unrecognized value");
}

#[test]
fn content_hint_bits() {
    assert_eq!(ContentHint::from_bits(0), Some(ContentHint::none()));
    assert_eq!(ContentHint::from_bits(0x3ff), Some(ContentHint { bits: 0x3ff }));
    assert_eq!(
        ContentHint::from_bits(ContentHint::LOWERCASE | ContentHint::LATIN),
        Some(ContentHint { bits: 0x108 }),
    );
    assert_eq!(ContentHint::from_bits(0x400), None);
    assert_eq!(ContentHint::from_bits(0x401), None);
    assert_eq!(ContentHint::from_bits(u32::MAX), None);
    assert_eq!(ContentHint::MULTILINE, 0x200);
    assert_eq!(ContentHint::COMPLETION, 0x1);
}

#[test]
fn handles() {
    assert!(InputMethod::null().is_null());
    assert!(!IM.is_null());
    assert_eq!(InputMethod::null(), InputMethod(0));
}

#[test]
fn misdirected_calls() {
    assert_eq!(check_imservice(None, IM).err(), Some(Misdirected::NoService));
    let mut imservice = IMService::new(IM);
    assert_eq!(
        check_imservice(Some(&mut *imservice), InputMethod(1)).err(),
        Some(Misdirected::ForeignInputMethod),
    );
    assert!(check_imservice(Some(&mut *imservice), IM).is_ok());
    assert_eq!(imservice.im(), IM);
    assert_eq!(Misdirected::NoService.message(), "Null imservice pointer");
    assert_eq!(
        Misdirected::ForeignInputMethod.message(),
        "Imservice doesn't contain the input method",
    );
}

#[test]
fn default_protocol_state() {
    assert_eq!(
        IMProtocolState::default(),
        IMProtocolState {
            surrounding_text: String::new(),
            surrounding_cursor: 0,
            content_purpose: ContentPurpose::Normal,
            content_hint: ContentHint { bits: 0 },
            text_change_cause: ChangeCause::InputMethod,
            active: false,
        },
    );
}

#[test]
fn fresh_service_takes_nothing() {
    let mut imservice = IMService::new(IM);
    assert!(!imservice.is_active());
    assert_eq!(imservice.commit_string("a"), Err(SubmitError::NotActive));
    assert_eq!(imservice.delete_surrounding_text(1, 0), Err(SubmitError::NotActive));
    assert_eq!(imservice.commit(), Err(SubmitError::NotActive));
    assert_eq!(imservice.send_event(at(5)), inactive_since(5));
}

#[test]
fn activation_counts_once_done() {
    let mut imservice = IMService::new(IM);
    imservice_handle_input_method_activate(&mut imservice, IM);
    assert!(!imservice.is_active());
    assert_eq!(imservice.commit_string("a"), Err(SubmitError::NotActive));
    assert_eq!(imservice_handle_done(&mut imservice, IM, at(9)), active(0, ContentPurpose::Normal));
    assert!(imservice.is_active());
    assert_eq!(imservice.commit_string("a"), Ok(Call::CommitString("a".into())));
    assert_eq!(
        imservice.delete_surrounding_text(3, 4),
        Ok(Call::DeleteSurroundingText { before: 3, after: 4 }),
    );
    assert_eq!(imservice.commit(), Ok(Call::Commit { serial: 1 }));
}

#[test]
fn deactivation_counts_once_done() {
    let mut imservice = IMService::new(IM);
    imservice_handle_input_method_activate(&mut imservice, IM);
    imservice_handle_done(&mut imservice, IM, at(1));
    imservice_handle_input_method_deactivate(&mut imservice, IM);
    assert!(imservice.is_active());
    assert_eq!(imservice_handle_done(&mut imservice, IM, at(77)), inactive_since(77));
    assert!(!imservice.is_active());
    assert_eq!(imservice.commit(), Err(SubmitError::NotActive));
}

#[test]
fn serial_counts_done_series() {
    let mut imservice = IMService::new(IM);
    imservice_handle_input_method_activate(&mut imservice, IM);
    for expected in 1..=5 {
        imservice_handle_done(&mut imservice, IM, at(0));
        assert_eq!(imservice.commit(), Ok(Call::Commit { serial: expected }));
    }
}

#[test]
fn content_type_reaches_the_event() {
    let mut imservice = IMService::new(IM);
    imservice_handle_input_method_activate(&mut imservice, IM);
    assert_eq!(imservice_handle_content_type(&mut imservice, IM, 0x40, 8), Vec::new());
    assert_eq!(
        imservice_handle_done(&mut imservice, IM, at(0)),
        active(0x40, ContentPurpose::Password),
    );
    assert_eq!(imservice.send_event(at(3)), active(0x40, ContentPurpose::Password));
}

#[test]
fn invalid_content_type_gets_defaults_and_warnings() {
    let mut imservice = IMService::new(IM);
    imservice_handle_input_method_activate(&mut imservice, IM);
    imservice_handle_content_type(&mut imservice, IM, 0x40, 8);
    assert_eq!(
        imservice_handle_content_type(&mut imservice, IM, 0x400, 14),
        vec![Warning::InvalidHintFlags, Warning::InvalidPurposeValue],
    );
    assert_eq!(imservice_handle_done(&mut imservice, IM, at(0)), active(0, ContentPurpose::Normal));
    assert_eq!(
        imservice_handle_content_type(&mut imservice, IM, 0x1000, 2),
        vec![Warning::InvalidHintFlags],
    );
    assert_eq!(imservice_handle_done(&mut imservice, IM, at(0)), active(0, ContentPurpose::Digits));
    assert_eq!(
        imservice_handle_content_type(&mut imservice, IM, 0x3, 99),
        vec![Warning::InvalidPurposeValue],
    );
    assert_eq!(imservice_handle_done(&mut imservice, IM, at(0)), active(3, ContentPurpose::Normal));
}

#[test]
fn activation_forgets_what_was_pending() {
    let mut imservice = IMService::new(IM);
    imservice_handle_content_type(&mut imservice, IM, 0x40, 8);
    imservice_handle_input_method_activate(&mut imservice, IM);
    assert_eq!(imservice_handle_done(&mut imservice, IM, at(0)), active(0, ContentPurpose::Normal));
}

#[test]
fn surrounding_text_and_cause() {
    let mut imservice = IMService::new(IM);
    assert_eq!(
        imservice_handle_surrounding_text(&mut imservice, IM, "zażółć".as_bytes().to_vec(), 3, 3),
        None,
    );
    assert_eq!(
        imservice_handle_surrounding_text(&mut imservice, IM, vec![b'a', 0xff, b'b'], 1, 1),
        Some(Warning::InvalidSurroundingText),
    );
    assert_eq!(imservice_handle_surrounding_text(&mut imservice, IM, Vec::new(), 0, 0), None);
    assert_eq!(imservice_handle_text_change_cause(&mut imservice, IM, 1), None);
    assert_eq!(imservice_handle_text_change_cause(&mut imservice, IM, 0), None);
    assert_eq!(
        imservice_handle_text_change_cause(&mut imservice, IM, 2),
        Some(Warning::InvalidCauseValue),
    );
    // none of this activates anything
    assert_eq!(imservice_handle_done(&mut imservice, IM, at(4)), inactive_since(4));
}

#[test]
fn unavailable_input_method_is_inactive_at_once() {
    let mut imservice = IMService::new(IM);
    imservice_handle_input_method_activate(&mut imservice, IM);
    imservice_handle_done(&mut imservice, IM, at(0));
    assert_eq!(imservice_handle_unavailable(&mut imservice, IM, at(12)), inactive_since(12));
    assert!(!imservice.is_active());
    // the serial stays
    imservice_handle_input_method_activate(&mut imservice, IM);
    imservice_handle_done(&mut imservice, IM, at(0));
    assert_eq!(imservice.commit(), Ok(Call::Commit { serial: 2 }));
}
