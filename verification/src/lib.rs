//! Code generation for an `IntoResponse` derive on error enums.
//!
//! The generator reads the metadata of an annotated error enum — its name,
//! an optional `internal_text` override, and for each variant an optional
//! `#[status(...)]` override together with the shape of its fields — and
//! emits the source text of an `::axum::response::IntoResponse`
//! implementation, optionally followed by a `::serde::Serialize`
//! implementation.  By default a variant answers with status 500 and the
//! text `Something went wrong`; a variant with a status override answers
//! with that status and with the enum's own `Display` text.
//!
//! The metadata lives in plain types ([`model::DeriveTarget`] and friends),
//! and every emitted character is pinned down by the contracts in
//! [`emit`].  Turning the emitted text into a token stream for the
//! compiler is the one step done by an outside crate, in [`tokens`].

pub mod app_error;
pub mod emit;
pub mod escape;
pub mod model;
pub mod tokens;

pub use app_error::AppError;
pub use emit::derive_into_response;
pub use emit::serde_derive;
pub use model::DeriveError;
pub use model::DeriveTarget;
pub use model::FieldsShape;
pub use model::TargetData;
pub use model::VariantDef;
pub use tokens::derive_token_stream;
