//! The error enum of the demonstration service, together with the runtime
//! meaning of the code the generator emits for it: which status each
//! variant answers with, its display text, and the text that reaches the
//! client once internal errors are masked.

use vstd::prelude::*;

verus! {

/// An error enum annotated with `internal_text = "overridden"` and with a
/// status override on every variant but `Internal`.
#[derive(Clone, Copy, Debug)]
pub enum AppError {
    Internal,
    ClientError,
    AuthError(&'static str),
    AnotherError(&'static str, &'static str),
}

impl AppError {
    /// The numeric status the emitted `IntoResponse` implementation picks:
    /// the variant's override, or 500 for `Internal`, which has none.
    pub open spec fn spec_status_code(self) -> u16 {
        match self {
            AppError::Internal => 500,
            AppError::ClientError => 400,
            AppError::AuthError(_) => 401,
            AppError::AnotherError(_, _) => 400,
        }
    }

    /// Returns the status of [`AppError::spec_status_code`].
    pub fn status_code(&self) -> (r: u16)
        ensures
            r == self.spec_status_code(),
    {
        match self {
            AppError::Internal => 500,
            AppError::ClientError => 400,
            AppError::AuthError(_) => 401,
            AppError::AnotherError(_, _) => 400,
        }
    }

    /// The display text each variant carries in its `error` attribute.
    pub open spec fn spec_message(self) -> Seq<char> {
        match self {
            AppError::Internal => "This shouldn't show in the response, but will in tracing"@,
            AppError::ClientError => "Bad request"@,
            AppError::AuthError(s) => "Error: "@ + s@,
            AppError::AnotherError(a, b) => "Error: "@ + a@ + " "@ + b@,
        }
    }

    /// Returns the text of [`AppError::spec_message`].
    pub fn message(&self) -> (r: String)
        ensures
            r@ == self.spec_message(),
    {
        match self {
            AppError::Internal => String::from_str(
                "This shouldn't show in the response, but will in tracing",
            ),
            AppError::ClientError => String::from_str("Bad request"),
            AppError::AuthError(s) => String::from_str("Error: ").concat(s),
            AppError::AnotherError(a, b) => String::from_str("Error: ").concat(a).concat(
                " ",
            ).concat(b),
        }
    }

    /// The text the emitted code answers with: the resolved `internal_text`
    /// when the status is 500, so that internal detail never reaches the
    /// client, and the display text otherwise.
    pub open spec fn spec_response_text(self, internal: Seq<char>) -> Seq<char> {
        if self.spec_status_code() == 500 {
            internal
        } else {
            self.spec_message()
        }
    }

    /// Returns the text of [`AppError::spec_response_text`] for this enum's
    /// own `internal_text` override.
    pub fn response_text(&self) -> (r: String)
        ensures
            r@ == self.spec_response_text("overridden"@),
    {
        let status = self.status_code();
        if status == 500 {
            String::from_str("overridden")
        } else {
            self.message()
        }
    }
}

} // verus!
