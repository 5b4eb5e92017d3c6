//! The generator itself: from the model of an annotated enum to the source
//! text of its `IntoResponse` implementation, and optionally of its
//! `Serialize` implementation.
//!
//! Every function comes in a pair: a spec function that gives the emitted
//! text as a sequence of characters, and an executable function whose
//! contract says that it returns exactly that text.

use vstd::prelude::*;

use crate::escape::escape_text;
use crate::escape::escaped;
use crate::model::DeriveError;
use crate::model::DeriveTarget;
use crate::model::DeriveTargetView;
use crate::model::FieldsShape;
use crate::model::TargetData;
use crate::model::VariantDef;
use crate::model::VariantView;
use crate::model::opt_text_view;
use crate::model::variants_view;

verus! {

/// The list of wildcards standing in for `n` unnamed fields: `_, _, ...`.
pub open spec fn spec_underscores(n: nat) -> Seq<char>
    decreases n,
{
    if n == 0 {
        Seq::empty()
    } else if n == 1 {
        "_"@
    } else {
        spec_underscores((n - 1) as nat) + ", _"@
    }
}

/// Returns the wildcard list of [`spec_underscores`].
fn underscores(n: usize) -> (r: String)
    ensures
        r@ == spec_underscores(n as nat),
{
    if n == 0 {
        return String::new();
    }
    let mut r = String::from_str("_");
    let mut i: usize = 1;
    while i < n
        invariant
            1 <= i <= n,
            r@ == spec_underscores(i as nat),
        decreases n - i,
    {
        r.append(", _");
        i = i + 1;
    }
    r
}

/// The pattern that stands after the variant's name in the emitted match
/// arm, so that a variant of any shape is matched whole.
pub open spec fn spec_fields_pattern(f: FieldsShape) -> Seq<char> {
    match f {
        FieldsShape::Named => " {..}"@,
        FieldsShape::Unit => Seq::empty(),
        FieldsShape::Unnamed(n) => "("@ + spec_underscores(n as nat) + ")"@,
    }
}

/// Returns the pattern of [`spec_fields_pattern`].
fn fields_pattern(f: FieldsShape) -> (r: String)
    ensures
        r@ == spec_fields_pattern(f),
{
    match f {
        FieldsShape::Named => String::from_str(" {..}"),
        FieldsShape::Unit => String::new(),
        FieldsShape::Unnamed(n) => {
            let mut r = String::from_str("(");
            let u = underscores(n);
            r.append(u.as_str());
            r.append(")");
            r
        },
    }
}

/// The match arm a variant contributes to the emitted status match: one
/// arm naming its status override, or nothing when it has none and the
/// default arm answers for it.
pub open spec fn spec_status_arm(v: VariantView) -> Seq<char> {
    match v.status {
        Some(st) => "            Self::"@ + v.name + spec_fields_pattern(v.fields)
            + " => ::axum::http::status::"@ + st + ",\n"@,
        None => Seq::empty(),
    }
}

/// Returns the match arm of [`spec_status_arm`].
fn status_arm(v: &VariantDef) -> (r: String)
    ensures
        r@ == spec_status_arm(v@),
{
    match &v.status {
        Some(st) => {
            let mut r = String::from_str("            Self::");
            r.append(v.name.as_str());
            let pat = fields_pattern(v.fields);
            r.append(pat.as_str());
            r.append(" => ::axum::http::status::");
            r.append(st.as_str());
            r.append(",\n");
            r
        },
        None => String::new(),
    }
}

/// All the match arms of the variants with a status override, in
/// declaration order.
pub open spec fn spec_status_arms(vs: Seq<VariantView>) -> Seq<char>
    decreases vs.len(),
{
    if vs.len() == 0 {
        Seq::empty()
    } else {
        spec_status_arms(vs.drop_last()) + spec_status_arm(vs.last())
    }
}

/// Returns the arms of [`spec_status_arms`].
fn status_arms(variants: &Vec<VariantDef>) -> (r: String)
    ensures
        r@ == spec_status_arms(variants_view(variants@)),
{
    let ghost vsv = variants_view(variants@);
    let mut r = String::new();
    let mut i: usize = 0;
    while i < variants.len()
        invariant
            i <= variants@.len(),
            vsv == variants_view(variants@),
            r@ == spec_status_arms(vsv.subrange(0, i as int)),
        decreases variants@.len() - i,
    {
        let arm = status_arm(&variants[i]);
        r.append(arm.as_str());
        proof {
            assert(vsv.subrange(0, i + 1 as int).drop_last() =~= vsv.subrange(0, i as int));
            assert(vsv.subrange(0, i + 1 as int).last() == variants@[i as int]@);
        }
        i = i + 1;
    }
    proof {
        assert(vsv.subrange(0, vsv.len() as int) =~= vsv);
    }
    r
}

/// The text that answers for status 500: the `internal_text` override when
/// the enum carries one, and `Something went wrong` otherwise.
pub open spec fn spec_internal_text(t: Option<Seq<char>>) -> Seq<char> {
    match t {
        Some(s) => s,
        None => "Something went wrong"@,
    }
}

/// Returns the text of [`spec_internal_text`].
fn internal_text_or_default<'a>(t: &'a Option<String>) -> (r: &'a str)
    ensures
        r@ == spec_internal_text(opt_text_view(*t)),
{
    match t {
        Some(s) => s.as_str(),
        None => "Something went wrong",
    }
}

/// The trace statement the emitted code runs before masking an internal
/// error, or nothing when tracing is off.
pub open spec fn spec_tracing_block(with_tracing: bool) -> Seq<char> {
    if with_tracing {
        "                let internal_err = self.to_string();\n                ::tracing::error!(\"{internal_err}\");\n"@
    } else {
        Seq::empty()
    }
}

/// Returns the statement of [`spec_tracing_block`].
fn tracing_block(with_tracing: bool) -> (r: &'static str)
    ensures
        r@ == spec_tracing_block(with_tracing),
{
    if with_tracing {
        "                let internal_err = self.to_string();\n                ::tracing::error!(\"{internal_err}\");\n"
    } else {
        proof {
            reveal_strlit("");
            assert(""@ =~= Seq::<char>::empty());
        }
        ""
    }
}

/// The whole `IntoResponse` implementation for an enum named `name` with
/// the given variants: a match that picks the status, the masked or
/// displayed text, and the answer built from the pair.  `internal` is the
/// already-resolved text for status 500, written escaped into a string
/// literal.
pub open spec fn spec_into_response_derive(
    name: Seq<char>,
    variants: Seq<VariantView>,
    internal: Seq<char>,
    with_tracing: bool,
) -> Seq<char> {
    "#[automatically_derived]\nimpl ::axum::response::IntoResponse for "@ + name
        + " {\n    fn into_response(self) -> ::axum::response::Response {\n        let status = match self {\n"@
        + spec_status_arms(variants)
        + "            _ => ::axum::http::StatusCode::INTERNAL_SERVER_ERROR,\n        };\n        let text = {\n            if status == ::axum::http::StatusCode::INTERNAL_SERVER_ERROR {\n"@
        + spec_tracing_block(with_tracing) + "                \""@ + escaped(internal)
        + "\".to_string()\n            } else {\n                self.to_string()\n            }\n        };\n        ::axum::response::IntoResponse::into_response((status, text))\n    }\n}\n"@
}

/// Emits the `IntoResponse` implementation of [`spec_into_response_derive`].
pub fn into_response_derive(
    name: &str,
    variants: &Vec<VariantDef>,
    internal_text: &str,
    with_tracing: bool,
) -> (r: String)
    ensures
        r@ == spec_into_response_derive(
            name@,
            variants_view(variants@),
            internal_text@,
            with_tracing,
        ),
{
    let mut r = String::from_str("#[automatically_derived]\nimpl ::axum::response::IntoResponse for ");
    r.append(name);
    r.append(" {\n    fn into_response(self) -> ::axum::response::Response {\n        let status = match self {\n");
    let arms = status_arms(variants);
    r.append(arms.as_str());
    r.append("            _ => ::axum::http::StatusCode::INTERNAL_SERVER_ERROR,\n        };\n        let text = {\n            if status == ::axum::http::StatusCode::INTERNAL_SERVER_ERROR {\n");
    let tb = tracing_block(with_tracing);
    r.append(tb);
    r.append("                \"");
    let esc = escape_text(internal_text);
    r.append(esc.as_str());
    r.append("\".to_string()\n            } else {\n                self.to_string()\n            }\n        };\n        ::axum::response::IntoResponse::into_response((status, text))\n    }\n}\n");
    r
}

/// The whole `Serialize` implementation for an enum named `name`: it
/// serializes a struct of two fields, `status` with the numeric status the
/// variant answers with, and `error` with the masked or displayed text.
pub open spec fn spec_serde_derive(
    name: Seq<char>,
    variants: Seq<VariantView>,
    internal: Seq<char>,
) -> Seq<char> {
    "#[automatically_derived]\nimpl ::serde::Serialize for "@ + name
        + " {\n    fn serialize<__S>(&self, __serializer: __S) -> Result<__S::Ok, __S::Error>\n    where\n        __S: ::serde::Serializer,\n    {\n        let status = match self {\n"@
        + spec_status_arms(variants)
        + "            _ => ::axum::http::StatusCode::INTERNAL_SERVER_ERROR,\n        }.as_u16();\n        let text = {\n            if status == ::axum::http::StatusCode::INTERNAL_SERVER_ERROR {\n                \""@
        + escaped(internal)
        + "\".to_string()\n            } else {\n                self.to_string()\n            }\n        };\n        let mut __serde_state = ::serde::Serializer::serialize_struct(__serializer, \"\", false as usize + 1 + 1)?;\n        ::serde::ser::SerializeStruct::serialize_field(&mut __serde_state, \"status\", &status)?;\n        ::serde::ser::SerializeStruct::serialize_field(&mut __serde_state, \"error\", &text)?;\n        ::serde::ser::SerializeStruct::end(__serde_state)\n    }\n}\n"@
}

/// Emits the `Serialize` implementation of [`spec_serde_derive`].
pub fn serde_derive(name: &str, variants: &Vec<VariantDef>, internal_text: &str) -> (r: String)
    ensures
        r@ == spec_serde_derive(name@, variants_view(variants@), internal_text@),
{
    let mut r = String::from_str("#[automatically_derived]\nimpl ::serde::Serialize for ");
    r.append(name);
    r.append(" {\n    fn serialize<__S>(&self, __serializer: __S) -> Result<__S::Ok, __S::Error>\n    where\n        __S: ::serde::Serializer,\n    {\n        let status = match self {\n");
    let arms = status_arms(variants);
    r.append(arms.as_str());
    r.append("            _ => ::axum::http::StatusCode::INTERNAL_SERVER_ERROR,\n        }.as_u16();\n        let text = {\n            if status == ::axum::http::StatusCode::INTERNAL_SERVER_ERROR {\n                \"");
    let esc = escape_text(internal_text);
    r.append(esc.as_str());
    r.append("\".to_string()\n            } else {\n                self.to_string()\n            }\n        };\n        let mut __serde_state = ::serde::Serializer::serialize_struct(__serializer, \"\", false as usize + 1 + 1)?;\n        ::serde::ser::SerializeStruct::serialize_field(&mut __serde_state, \"status\", &status)?;\n        ::serde::ser::SerializeStruct::serialize_field(&mut __serde_state, \"error\", &text)?;\n        ::serde::ser::SerializeStruct::end(__serde_state)\n    }\n}\n");
    r
}

/// The whole emitted text for an annotated enum: its `IntoResponse`
/// implementation, followed by its `Serialize` implementation when asked
/// for.
pub open spec fn spec_derive_output(t: DeriveTargetView, with_tracing: bool, with_serde: bool) -> Seq<char>
    recommends
        t.data is Enum,
{
    spec_into_response_derive(
        t.name,
        t.data->Enum_0,
        spec_internal_text(t.internal_text),
        with_tracing,
    ) + if with_serde {
        spec_serde_derive(t.name, t.data->Enum_0, spec_internal_text(t.internal_text))
    } else {
        Seq::<char>::empty()
    }
}

/// Derives the response code for the annotated item: the emitted text of
/// [`spec_derive_output`] when the item is an enum, and a refusal
/// otherwise.
pub fn derive_into_response(target: &DeriveTarget, with_tracing: bool, with_serde: bool) -> (r:
    Result<String, DeriveError>)
    ensures
        target@.data is Enum ==> (r matches Ok(out) && out@ == spec_derive_output(
            target@,
            with_tracing,
            with_serde,
        )),
        !(target@.data is Enum) ==> r == Err::<String, DeriveError>(DeriveError::NotAnEnum),
{
    match &target.data {
        TargetData::Enum(variants) => {
            let internal = internal_text_or_default(&target.internal_text);
            let mut out = into_response_derive(target.name.as_str(), variants, internal, with_tracing);
            if with_serde {
                let ser = serde_derive(target.name.as_str(), variants, internal);
                out.append(ser.as_str());
            } else {
                proof {
                    assert(out@ + Seq::<char>::empty() =~= out@);
                }
            }
            Ok(out)
        },
        TargetData::Struct => Err(DeriveError::NotAnEnum),
        TargetData::Union => Err(DeriveError::NotAnEnum),
    }
}

} // verus!
