use axum_thiserror_intoresponse_derive::AppError;

#[test]
fn internal_answers_with_500() {
    assert_eq!(AppError::Internal.status_code(), 500);
}

#[test]
fn overridden_variants_answer_with_their_status() {
    assert_eq!(AppError::ClientError.status_code(), 400);
    assert_eq!(AppError::AuthError("x").status_code(), 401);
    assert_eq!(AppError::AnotherError("a", "b").status_code(), 400);
}

#[test]
fn messages_follow_the_error_attributes() {
    assert_eq!(
        AppError::Internal.message(),
        "This shouldn't show in the response, but will in tracing"
    );
    assert_eq!(AppError::ClientError.message(), "Bad request");
    assert_eq!(
        AppError::AuthError("Not allowed to access this endpoint").message(),
        "Error: Not allowed to access this endpoint"
    );
    assert_eq!(
        AppError::AnotherError("This", "is two fields").message(),
        "Error: This is two fields"
    );
}

#[test]
fn internal_errors_are_masked_in_the_response() {
    assert_eq!(AppError::Internal.response_text(), "overridden");
}

#[test]
fn overridden_variants_show_their_message() {
    assert_eq!(AppError::ClientError.response_text(), "Bad request");
    assert_eq!(AppError::AuthError("x").response_text(), "Error: x");
    assert_eq!(
        AppError::AnotherError("This", "is two fields").response_text(),
        "Error: This is two fields"
    );
}
