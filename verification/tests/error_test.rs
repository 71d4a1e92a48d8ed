use daqmx::codes;
use daqmx::error::{
    classify, error_buffer_to_string, handle_error, message_source, size_error_message_source,
    string_property_size_error, DaqmxError, MessageSource, Outcome,
};

fn c_chars(text: &str) -> Vec<i8> {
    let mut buffer: Vec<i8> = text.bytes().map(|b| b as i8).collect();
    buffer.resize(2048, 0);
    buffer
}

#[test]
fn task_test_error_buffer_to_string_good() {
    let buffer: Vec<i8> = vec![68, 101, 118, 105, 99, 101, 32, 105, 100, 101, 110, 0, 0, 0];
    let string = error_buffer_to_string(buffer);
    assert_eq!(&string, "Device iden");
}

#[test]
fn task_test_error_buffer_to_string_no_null() {
    let buffer: Vec<i8> = vec![68, 101, 118, 105, 99, 101, 32, 105, 100, 101, 110];
    let string = error_buffer_to_string(buffer);
    assert_eq!(&string, "Device iden");
}

#[test]
fn test_string_property_size_error() {
    assert_eq!(string_property_size_error(0, vec![]), Ok(false));
    assert_eq!(
        string_property_size_error(codes::ERROR_BUFFER_TOO_SMALL_FOR_STRING, vec![]),
        Ok(true)
    );
    assert_eq!(
        string_property_size_error(codes::WARNING_STRING_TRUNCATED_TO_FIT_BUFFER as i32, vec![]),
        Ok(true)
    );
    assert!(matches!(
        string_property_size_error(-1000, c_chars("Unknown status")),
        Err(DaqmxError::DaqmxError(-1000, _))
    ));
}

#[test]
fn size_error_codes_are_the_drivers() {
    assert_eq!(codes::ERROR_BUFFER_TOO_SMALL_FOR_STRING, -200228);
    assert_eq!(codes::WARNING_STRING_TRUNCATED_TO_FIT_BUFFER, 200026);
}

#[test]
fn string_property_size_error_carries_the_text_of_a_failure() {
    assert_eq!(
        string_property_size_error(-200088, c_chars("Task specified is invalid")),
        Err(DaqmxError::DaqmxError(-200088, "Task specified is invalid".to_string()))
    );
}

#[test]
fn string_property_size_error_passes_other_warnings() {
    assert_eq!(string_property_size_error(200010, vec![]), Ok(false));
    assert_eq!(string_property_size_error(1, vec![]), Ok(false));
    assert_eq!(string_property_size_error(i32::MAX, vec![]), Ok(false));
}

#[test]
fn size_error_message_source_asks_only_for_other_failures() {
    assert_eq!(size_error_message_source(0), MessageSource::NoText);
    assert_eq!(size_error_message_source(17), MessageSource::NoText);
    assert_eq!(
        size_error_message_source(codes::ERROR_BUFFER_TOO_SMALL_FOR_STRING),
        MessageSource::NoText
    );
    assert_eq!(
        size_error_message_source(codes::WARNING_STRING_TRUNCATED_TO_FIT_BUFFER),
        MessageSource::NoText
    );
    assert_eq!(size_error_message_source(-1), MessageSource::ExtendedErrorInfo);
    assert_eq!(size_error_message_source(i32::MIN), MessageSource::ExtendedErrorInfo);
}

#[test]
fn message_source_follows_the_sign() {
    assert_eq!(message_source(0), MessageSource::NoText);
    assert_eq!(message_source(-1), MessageSource::ExtendedErrorInfo);
    assert_eq!(message_source(i32::MIN), MessageSource::ExtendedErrorInfo);
    assert_eq!(message_source(1), MessageSource::ErrorString);
    assert_eq!(message_source(i32::MAX), MessageSource::ErrorString);
}

#[test]
fn handle_error_of_zero_is_ok() {
    assert_eq!(handle_error(0, vec![]), Ok(()));
    // The buffer is not looked at, whatever it holds.
    assert_eq!(handle_error(0, vec![-1, -1]), Ok(()));
}

#[test]
fn handle_error_of_a_negative_status_carries_status_and_text() {
    assert_eq!(
        handle_error(-200473, c_chars("Read cannot be performed when the task is stopped")),
        Err(DaqmxError::DaqmxError(
            -200473,
            "Read cannot be performed when the task is stopped".to_string()
        ))
    );
    assert_eq!(
        handle_error(i32::MIN, c_chars("x")),
        Err(DaqmxError::DaqmxError(i32::MIN, "x".to_string()))
    );
}

#[test]
fn handle_error_of_a_positive_status_is_ok() {
    assert_eq!(handle_error(200010, c_chars("Clipped")), Ok(()));
    assert_eq!(handle_error(1, c_chars("")), Ok(()));
    assert_eq!(handle_error(i32::MAX, c_chars("w")), Ok(()));
}

#[test]
fn classify_tells_the_three_outcomes_apart() {
    assert_eq!(classify(0, vec![]), Outcome::Success);
    assert_eq!(
        classify(-50103, c_chars("Resource is reserved")),
        Outcome::HardError(-50103, "Resource is reserved".to_string())
    );
    assert_eq!(
        classify(200010, c_chars("Clipped")),
        Outcome::Warning(200010, "Clipped".to_string())
    );
}

#[test]
fn outcome_warning_gives_only_a_warnings_text() {
    assert_eq!(Outcome::Success.warning(), None);
    assert_eq!(Outcome::HardError(-1, "e".to_string()).warning(), None);
    assert_eq!(
        Outcome::Warning(5, "w".to_string()).warning(),
        Some(&"w".to_string())
    );
}

#[test]
fn outcome_into_result_fails_only_a_failure() {
    assert_eq!(Outcome::Success.into_result(), Ok(()));
    assert_eq!(Outcome::Warning(5, "w".to_string()).into_result(), Ok(()));
    assert_eq!(
        Outcome::HardError(-7, "e".to_string()).into_result(),
        Err(DaqmxError::DaqmxError(-7, "e".to_string()))
    );
}
