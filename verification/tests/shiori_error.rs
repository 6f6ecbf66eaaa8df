use uka::shiori::v3::{ErrorSource, ShioriError, ShioriErrorContext};

#[derive(Debug)]
struct TestError;

impl ErrorSource for TestError {
    fn to_message(&self) -> String {
        "Test error".to_string()
    }

    fn to_detail(&self) -> String {
        "TestError".to_string()
    }
}

#[test]
fn error_test_service_error_new() {
    let e = ShioriError::new("Test error");
    assert_eq!(e.to_string(), "Test error");
}

#[test]
fn error_test_service_error_source() {
    let e = ShioriError::source(TestError);
    assert_eq!(e.to_string(), "Test error");
}

#[test]
fn error_test_service_error_context() {
    let r: Result<(), ShioriError> =
        Err(ShioriError::source(TestError)).context("Extra context");
    assert!(r.is_err());

    let e = r.unwrap_err();
    assert_eq!(e.to_string(), "Extra context: Test error");
}

#[test]
fn error_test_service_error_with_context() {
    let r: Result<(), ShioriError> =
        Err(ShioriError::new(TestError)).with_context(|| "Some context from closure");

    let e = r.unwrap_err();
    assert_eq!(e.to_string(), "Some context from closure: Test error");
}

#[test]
fn error_test_service_error_set_multiple_contexts() {
    let e = ShioriError::new(TestError)
        .context("First context")
        .context("Second context");
    assert_eq!(e.to_string(), "First context: Second context: Test error");
}

#[test]
fn error_test_display_and_debug() {
    let e = ShioriError::new(TestError).context("Extra context");
    assert_eq!(e.to_string(), "Extra context: Test error");
    assert_eq!(e.to_debug_string(), "Extra context: TestError");
}
