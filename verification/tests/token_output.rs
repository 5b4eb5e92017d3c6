use axum_thiserror_intoresponse_derive::derive_token_stream;
use axum_thiserror_intoresponse_derive::DeriveError;
use axum_thiserror_intoresponse_derive::DeriveTarget;
use axum_thiserror_intoresponse_derive::FieldsShape;
use axum_thiserror_intoresponse_derive::TargetData;
use axum_thiserror_intoresponse_derive::VariantDef;

fn small_target() -> DeriveTarget {
    DeriveTarget {
        name: "AppError".to_string(),
        internal_text: Some("overridden".to_string()),
        data: TargetData::Enum(vec![
            VariantDef {
                name: "Internal".to_string(),
                status: None,
                fields: FieldsShape::Unit,
            },
            VariantDef {
                name: "ClientError".to_string(),
                status: Some("StatusCode::BAD_REQUEST".to_string()),
                fields: FieldsShape::Unit,
            },
        ]),
    }
}

#[test]
fn emitted_text_lexes_into_tokens() {
    let stream = derive_token_stream(&small_target(), false, false).unwrap();
    let rendered = stream.to_string();
    assert!(rendered.contains("AppError"));
    assert!(rendered.contains("IntoResponse"));
    assert!(rendered.contains("INTERNAL_SERVER_ERROR"));
}

#[test]
fn emitted_tokens_cover_both_impls_with_serde() {
    let stream = derive_token_stream(&small_target(), true, true).unwrap();
    let rendered = stream.to_string();
    assert!(rendered.contains("IntoResponse"));
    assert!(rendered.contains("Serialize"));
    assert!(rendered.contains("tracing"));
}

#[test]
fn token_output_refuses_a_struct_too() {
    let target = DeriveTarget {
        name: "NotAnEnum".to_string(),
        internal_text: None,
        data: TargetData::Struct,
    };
    assert!(matches!(
        derive_token_stream(&target, false, false),
        Err(DeriveError::NotAnEnum)
    ));
}

#[test]
fn text_that_does_not_lex_is_reported() {
    let target = DeriveTarget {
        name: "Not\\AnIdent".to_string(),
        internal_text: None,
        data: TargetData::Enum(Vec::new()),
    };
    assert!(matches!(
        derive_token_stream(&target, false, false),
        Err(DeriveError::InvalidTokens)
    ));
}

#[test]
fn emitted_tokens_match_a_reparse_of_the_golden_text() {
    let stream = derive_token_stream(&small_target(), false, false).unwrap();
    let mut golden = String::new();
    golden.push_str("#[automatically_derived]\n");
    golden.push_str("impl ::axum::response::IntoResponse for AppError {\n");
    golden.push_str("    fn into_response(self) -> ::axum::response::Response {\n");
    golden.push_str("        let status = match self {\n");
    golden.push_str("            Self::ClientError => ::axum::http::status::StatusCode::BAD_REQUEST,\n");
    golden.push_str("            _ => ::axum::http::StatusCode::INTERNAL_SERVER_ERROR,\n");
    golden.push_str("        };\n");
    golden.push_str("        let text = {\n");
    golden.push_str("            if status == ::axum::http::StatusCode::INTERNAL_SERVER_ERROR {\n");
    golden.push_str("                \"overridden\".to_string()\n");
    golden.push_str("            } else {\n");
    golden.push_str("                self.to_string()\n");
    golden.push_str("            }\n");
    golden.push_str("        };\n");
    golden.push_str("        ::axum::response::IntoResponse::into_response((status, text))\n");
    golden.push_str("    }\n");
    golden.push_str("}\n");
    let reparsed: proc_macro2::TokenStream = golden.parse().unwrap();
    assert_eq!(stream.to_string(), reparsed.to_string());
}
