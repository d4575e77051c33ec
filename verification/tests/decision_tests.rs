use extract_core::calls::Method;
use extract_core::envelope::{
    envelope_getters, error_flag_getter, Envelope, JReaderResult, JStringResult, Payload,
};
use extract_core::errors::{ExtractError, ForeignFailure};
use extract_core::projector::{after_setter, Step};
use extract_core::stream::{
    bytes_written, close_method, read_method, reported_count, request_length, END_OF_STREAM,
    MAX_REQUEST, READ_FAILED, READ_OFFSET,
};
use extract_core::translator::{pending_kind, settle, Pending, MISSING_METHOD_CLASS};
use extract_core::value::{ForeignValue, FOREIGN_TRUE};
use jni::objects::JObject;

fn io(text: &str) -> ExtractError {
    ExtractError::IoError(text.to_string())
}

// ----------------------------------------------------------------- value

#[test]
fn foreign_true_is_one() {
    assert_eq!(FOREIGN_TRUE, 1);
    assert_eq!(ForeignValue::Bool(1).into_bool(), Ok(true));
}

#[test]
fn any_other_foreign_boolean_is_false() {
    assert_eq!(ForeignValue::Bool(0).into_bool(), Ok(false));
    assert_eq!(ForeignValue::Bool(2).into_bool(), Ok(false));
    assert_eq!(ForeignValue::Bool(255).into_bool(), Ok(false));
}

#[test]
fn value_of_the_wrong_kind_is_a_bridge_call_error() {
    assert_eq!(ForeignValue::Int(1).into_bool(), Err(ExtractError::BridgeCallError));
    assert_eq!(ForeignValue::Byte(1).into_bool(), Err(ExtractError::BridgeCallError));
    assert_eq!(ForeignValue::Void.into_bool(), Err(ExtractError::BridgeCallError));
    assert_eq!(ForeignValue::Int(1).into_byte(), Err(ExtractError::BridgeCallError));
    assert_eq!(ForeignValue::Bool(1).into_byte(), Err(ExtractError::BridgeCallError));
    assert_eq!(ForeignValue::Byte(1).into_int(), Err(ExtractError::BridgeCallError));
    assert_eq!(ForeignValue::Long(1).into_int(), Err(ExtractError::BridgeCallError));
    assert_eq!(ForeignValue::Short(1).into_int(), Err(ExtractError::BridgeCallError));
    assert_eq!(ForeignValue::Char(1).into_int(), Err(ExtractError::BridgeCallError));
    assert_eq!(ForeignValue::Float.into_int(), Err(ExtractError::BridgeCallError));
    assert_eq!(ForeignValue::Double.into_int(), Err(ExtractError::BridgeCallError));
    assert!(ForeignValue::Int(1).into_object().is_err());
    assert!(ForeignValue::Void.into_object().is_err());
}

#[test]
fn value_of_the_right_kind_is_handed_out() {
    assert_eq!(ForeignValue::Byte(-128).into_byte(), Ok(-128));
    assert_eq!(ForeignValue::Byte(99).into_byte(), Ok(99));
    assert_eq!(ForeignValue::Int(i32::MIN).into_int(), Ok(i32::MIN));
    assert_eq!(ForeignValue::Int(4096).into_int(), Ok(4096));
    assert!(ForeignValue::Object(JObject::null()).into_object().is_ok());
}

// ---------------------------------------------------------------- settle

#[test]
fn only_a_confirmed_lookup_failure_is_a_missing_method() {
    assert_eq!(pending_kind(Ok(true)), Pending::MissingMethod);
    assert_eq!(pending_kind(Ok(false)), Pending::Thrown);
    assert_eq!(pending_kind(Err(ForeignFailure::Other)), Pending::Thrown);
    assert_eq!(pending_kind(Err(ForeignFailure::Exception)), Pending::Thrown);
    assert_eq!(pending_kind(Err(ForeignFailure::MethodNotFound)), Pending::Thrown);
    assert_eq!(MISSING_METHOD_CLASS, "java/lang/NoSuchMethodError");
}

#[test]
fn nothing_pending_lets_the_outcome_stand() {
    assert_eq!(settle(Ok(Pending::Nothing), Ok(7), io("x")), Ok(7));
    assert_eq!(
        settle::<i32>(Ok(Pending::Nothing), Err(ForeignFailure::Other), io("x")),
        Err(ExtractError::BridgeCallError)
    );
    assert_eq!(
        settle::<i32>(Ok(Pending::Nothing), Err(ForeignFailure::Exception), io("x")),
        Err(ExtractError::BridgeCallError)
    );
    assert_eq!(
        settle::<i32>(Ok(Pending::Nothing), Err(ForeignFailure::MethodNotFound), io("x")),
        Err(ExtractError::SetupError)
    );
}

#[test]
fn missing_method_wins_over_the_outcome() {
    assert_eq!(settle(Ok(Pending::MissingMethod), Ok(7), io("x")), Err(ExtractError::SetupError));
    assert_eq!(
        settle::<i32>(Ok(Pending::MissingMethod), Err(ForeignFailure::Exception), io("x")),
        Err(ExtractError::SetupError)
    );
}

#[test]
fn thrown_exception_gives_the_error_the_caller_chose() {
    assert_eq!(settle(Ok(Pending::Thrown), Ok(7), io("chosen")), Err(io("chosen")));
    assert_eq!(
        settle::<i32>(
            Ok(Pending::Thrown),
            Err(ForeignFailure::Exception),
            ExtractError::BridgeCallError
        ),
        Err(ExtractError::BridgeCallError)
    );
}

#[test]
fn failing_translator_wins_over_everything() {
    assert_eq!(
        settle(Err(ExtractError::BridgeCallError), Ok(7), io("x")),
        Err(ExtractError::BridgeCallError)
    );
    assert_eq!(
        settle::<i32>(Err(ExtractError::SetupError), Err(ForeignFailure::Other), io("x")),
        Err(ExtractError::SetupError)
    );
}

// ---------------------------------------------------------------- stream

#[test]
fn request_is_as_long_as_the_buffer() {
    assert_eq!(request_length(0), Some(0));
    assert_eq!(request_length(1), Some(1));
    assert_eq!(request_length(8192), Some(8192));
    assert_eq!(request_length(2147483647), Some(i32::MAX));
    assert_eq!(MAX_REQUEST, 2147483647);
}

#[test]
fn buffer_longer_than_a_foreign_array_cannot_be_requested() {
    assert_eq!(request_length(2147483648), None);
    assert_eq!(request_length(usize::MAX), None);
}

#[test]
fn end_of_stream_is_zero_bytes() {
    assert_eq!(END_OF_STREAM, -1);
    assert_eq!(bytes_written(-1, 0), Ok(0));
    assert_eq!(bytes_written(-1, 16), Ok(0));
    assert_eq!(bytes_written(-1, usize::MAX), Ok(0));
}

#[test]
fn count_within_the_request_is_handed_on() {
    assert_eq!(bytes_written(0, 0), Ok(0));
    assert_eq!(bytes_written(0, 16), Ok(0));
    assert_eq!(bytes_written(1, 16), Ok(1));
    assert_eq!(bytes_written(16, 16), Ok(16));
    assert_eq!(bytes_written(i32::MAX, usize::MAX), Ok(2147483647));
}

#[test]
fn count_outside_the_request_is_a_bridge_call_error() {
    assert_eq!(bytes_written(17, 16), Err(ExtractError::BridgeCallError));
    assert_eq!(bytes_written(1, 0), Err(ExtractError::BridgeCallError));
    assert_eq!(bytes_written(-2, 16), Err(ExtractError::BridgeCallError));
    assert_eq!(bytes_written(i32::MIN, 16), Err(ExtractError::BridgeCallError));
}

#[test]
fn reported_count_is_the_integer_of_a_quiet_call() {
    assert_eq!(reported_count(Ok(Pending::Nothing), Ok(ForeignValue::Int(12))), Ok(12));
    assert_eq!(reported_count(Ok(Pending::Nothing), Ok(ForeignValue::Int(-1))), Ok(-1));
}

#[test]
fn reported_count_refuses_another_kind_of_value() {
    assert_eq!(
        reported_count(Ok(Pending::Nothing), Ok(ForeignValue::Long(12))),
        Err(ExtractError::BridgeCallError)
    );
    assert_eq!(
        reported_count(Ok(Pending::Nothing), Ok(ForeignValue::Void)),
        Err(ExtractError::BridgeCallError)
    );
}

#[test]
fn thrown_exception_during_read_is_an_io_error() {
    assert_eq!(
        reported_count(Ok(Pending::Thrown), Err(ForeignFailure::Exception)),
        Err(io(READ_FAILED))
    );
    assert_eq!(
        reported_count(Ok(Pending::Thrown), Ok(ForeignValue::Int(3))),
        Err(io(READ_FAILED))
    );
    assert!(!READ_FAILED.is_empty());
}

#[test]
fn failed_read_call_is_a_bridge_level_error() {
    assert_eq!(
        reported_count(Ok(Pending::MissingMethod), Err(ForeignFailure::Exception)),
        Err(ExtractError::SetupError)
    );
    assert_eq!(
        reported_count(Ok(Pending::Nothing), Err(ForeignFailure::Other)),
        Err(ExtractError::BridgeCallError)
    );
    assert_eq!(
        reported_count(Err(ExtractError::BridgeCallError), Ok(ForeignValue::Int(3))),
        Err(ExtractError::BridgeCallError)
    );
}

#[test]
fn reader_is_asked_through_read_and_close() {
    assert_eq!(read_method(), Method { name: "read", signature: "([BII)I" });
    assert_eq!(close_method(), Method { name: "close", signature: "()V" });
    assert_eq!(READ_OFFSET, 0);
}

// ------------------------------------------------------------- projector

#[test]
fn failed_setter_fails_the_projection_at_once() {
    let failure = ExtractError::BridgeCallError;
    assert_eq!(after_setter(0, 5, Err(failure.clone())), Step::Failed(failure.clone()));
    assert_eq!(after_setter(3, 5, Err(ExtractError::SetupError)), Step::Failed(ExtractError::SetupError));
    assert_eq!(after_setter(4, 5, Err(failure.clone())), Step::Failed(failure));
}

#[test]
fn setter_that_went_through_leads_to_the_next() {
    assert_eq!(after_setter(0, 5, Ok(())), Step::Next(1));
    assert_eq!(after_setter(3, 5, Ok(())), Step::Next(4));
    assert_eq!(after_setter(0, 2, Ok(())), Step::Next(1));
}

#[test]
fn last_setter_completes_the_projection() {
    assert_eq!(after_setter(4, 5, Ok(())), Step::Done);
    assert_eq!(after_setter(0, 1, Ok(())), Step::Done);
    assert_eq!(after_setter(usize::MAX - 1, usize::MAX, Ok(())), Step::Done);
}

#[test]
fn step_past_the_plan_is_done() {
    assert_eq!(after_setter(5, 5, Ok(())), Step::Done);
    assert_eq!(after_setter(usize::MAX, usize::MAX, Ok(())), Step::Done);
    assert_eq!(after_setter(0, 0, Ok(())), Step::Done);
}

// -------------------------------------------------------------- envelope

#[test]
fn every_envelope_is_asked_for_its_error_flag() {
    assert_eq!(error_flag_getter(), Method { name: "isError", signature: "()Z" });
}

#[test]
fn error_envelope_is_asked_for_status_then_message() {
    let expected = vec![
        Method { name: "getStatus", signature: "()B" },
        Method { name: "getErrorMessage", signature: "()Ljava/lang/String;" },
    ];
    assert_eq!(envelope_getters(true, Payload::Text), expected);
    assert_eq!(envelope_getters(true, Payload::Reader), expected);
}

#[test]
fn success_envelope_is_asked_for_its_payload_only() {
    assert_eq!(
        envelope_getters(false, Payload::Text),
        vec![Method { name: "getContent", signature: "()Ljava/lang/String;" }]
    );
    assert_eq!(
        envelope_getters(false, Payload::Reader),
        vec![Method {
            name: "getReader",
            signature: "()Lorg/apache/commons/io/input/ReaderInputStream;",
        }]
    );
}

#[test]
fn success_envelope_gives_its_payload() {
    assert_eq!(Envelope::Success(5u8).into_result(), Ok(5u8));
    let result = JStringResult::from_envelope(Envelope::Success("text".to_string())).unwrap();
    assert_eq!(result.content, "text");
    assert!(JReaderResult::from_envelope(Envelope::Success(JObject::null())).is_ok());
}

#[test]
fn error_envelope_gives_the_error_of_its_status() {
    let failure = |status: i8, text: &str| Envelope::<u8>::Failure {
        status,
        message: text.to_string(),
    };
    assert_eq!(failure(1, "a").into_result(), Err(io("a")));
    assert_eq!(failure(2, "b").into_result(), Err(ExtractError::ParseError("b".to_string())));
    assert_eq!(failure(99, "c").into_result(), Err(ExtractError::UnknownError("c".to_string())));
    assert_eq!(failure(0, "d").into_result(), Err(ExtractError::UnknownError("d".to_string())));
    assert_eq!(failure(-1, "").into_result(), Err(ExtractError::UnknownError(String::new())));
}

#[test]
fn unwrappers_report_the_error_of_the_envelope() {
    let failure = Envelope::Failure { status: 2, message: "bad header".to_string() };
    match JStringResult::from_envelope(failure) {
        Err(e) => assert_eq!(e, ExtractError::ParseError("bad header".to_string())),
        Ok(_) => panic!("an error envelope unwrapped to a result"),
    }
    let failure = Envelope::Failure { status: 1, message: "gone".to_string() };
    match JReaderResult::from_envelope(failure) {
        Err(e) => assert_eq!(e, io("gone")),
        Ok(_) => panic!("an error envelope unwrapped to a result"),
    }
}
