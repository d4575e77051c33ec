use extract_core::errors::{ExtractError, ForeignFailure, STATUS_IO, STATUS_PARSE};

#[test]
fn status_one_is_an_io_error() {
    assert_eq!(
        ExtractError::from_status(1, "cannot read".to_string()),
        ExtractError::IoError("cannot read".to_string())
    );
    assert_eq!(STATUS_IO, 1);
}

#[test]
fn status_two_is_a_parse_error() {
    assert_eq!(
        ExtractError::from_status(2, "cannot parse".to_string()),
        ExtractError::ParseError("cannot parse".to_string())
    );
    assert_eq!(STATUS_PARSE, 2);
}

#[test]
fn status_ninety_nine_is_an_unknown_error() {
    assert_eq!(
        ExtractError::from_status(99, "no idea".to_string()),
        ExtractError::UnknownError("no idea".to_string())
    );
}

#[test]
fn every_status_but_one_and_two_is_unknown() {
    for status in i8::MIN..=i8::MAX {
        let e = ExtractError::from_status(status, "m".to_string());
        match status {
            1 => assert_eq!(e, ExtractError::IoError("m".to_string())),
            2 => assert_eq!(e, ExtractError::ParseError("m".to_string())),
            _ => assert_eq!(e, ExtractError::UnknownError("m".to_string())),
        }
        assert!(e.is_content());
    }
}

#[test]
fn message_is_kept_exactly() {
    for text in ["", " ", "line one\nline two\r\n", "  padded  ", "\u{e9}\u{4e2d}\u{1f600}", "a\u{0}b"] {
        for status in [1i8, 2, 99] {
            let e = ExtractError::from_status(status, text.to_string());
            assert_eq!(e.message(), text);
        }
    }
}

#[test]
fn missing_method_is_a_setup_error() {
    assert_eq!(
        ExtractError::from_failure(ForeignFailure::MethodNotFound),
        ExtractError::SetupError
    );
}

#[test]
fn other_call_failures_are_bridge_call_errors() {
    assert_eq!(
        ExtractError::from_failure(ForeignFailure::Exception),
        ExtractError::BridgeCallError
    );
    assert_eq!(ExtractError::from_failure(ForeignFailure::Other), ExtractError::BridgeCallError);
}

#[test]
fn bridge_level_errors_are_told_from_content_level_ones() {
    assert!(!ExtractError::SetupError.is_content());
    assert!(!ExtractError::BridgeCallError.is_content());
    assert!(ExtractError::IoError(String::new()).is_content());
    assert!(ExtractError::ParseError(String::new()).is_content());
    assert!(ExtractError::UnknownError(String::new()).is_content());
}

#[test]
fn bridge_level_errors_carry_no_message() {
    assert_eq!(ExtractError::SetupError.message(), "");
    assert_eq!(ExtractError::BridgeCallError.message(), "");
}
