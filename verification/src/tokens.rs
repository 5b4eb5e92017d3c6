//! From emitted text to a token stream for the compiler.  Lexing is the one
//! step this crate leaves to an outside crate, so the emitted text is pinned
//! down by [`crate::emit`] and only the final conversion stands behind a
//! trusted wrapper.

use vstd::prelude::*;

use crate::emit::derive_into_response;
use crate::model::DeriveError;
use crate::model::DeriveTarget;

verus! {

#[verifier::external_type_specification]
#[verifier::external_body]
pub struct ExTokenStream(proc_macro2::TokenStream);

/// Relies on proc_macro2::TokenStream's FromStr implementation: it lexes
/// source text into a token stream, and reports text that does not lex as
/// an error, which this wrapper hands back as `None`.
#[verifier::external_body]
fn parse_token_stream(src: &str) -> (r: Option<proc_macro2::TokenStream>) {
    src.parse::<proc_macro2::TokenStream>().ok()
}

/// Derives the response code for the annotated item as a token stream:
/// the emitted text of [`crate::emit::spec_derive_output`], lexed.  Whether
/// the text lexes is the lexer's decision, so on an enum the result is
/// either the stream or the lexer's refusal; anything that is not an enum
/// is refused as such.
pub fn derive_token_stream(target: &DeriveTarget, with_tracing: bool, with_serde: bool) -> (r:
    Result<proc_macro2::TokenStream, DeriveError>)
    ensures
        !(target@.data is Enum) <==> r == Err::<proc_macro2::TokenStream, DeriveError>(
            DeriveError::NotAnEnum,
        ),
        target@.data is Enum ==> (r is Ok || r == Err::<proc_macro2::TokenStream, DeriveError>(
            DeriveError::InvalidTokens,
        )),
{
    match derive_into_response(target, with_tracing, with_serde) {
        Ok(text) => match parse_token_stream(text.as_str()) {
            Some(stream) => Ok(stream),
            None => Err(DeriveError::InvalidTokens),
        },
        Err(e) => Err(e),
    }
}

} // verus!
