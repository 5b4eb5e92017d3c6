//! Plain-value model of the annotated enum: everything the generator reads
//! from the declaration, and the error it answers with when the annotated
//! item is not an enum.

use vstd::prelude::*;

verus! {

/// Shape of a variant's field list, as far as the emitted match arm needs
/// it: named fields, no fields at all, or a count of unnamed fields.
#[derive(Clone, Copy, Debug, PartialEq, Eq, Structural)]
pub enum FieldsShape {
    Named,
    Unit,
    Unnamed(usize),
}

/// One variant of the annotated enum: its name, the tokens of its
/// `#[status(...)]` override when it carries one, and the shape of its
/// fields.
#[derive(Debug)]
pub struct VariantDef {
    pub name: String,
    pub status: Option<String>,
    pub fields: FieldsShape,
}

/// Mathematical image of a [`VariantDef`]: the same data over `Seq<char>`.
pub struct VariantView {
    pub name: Seq<char>,
    pub status: Option<Seq<char>>,
    pub fields: FieldsShape,
}

/// View of an optional attribute text.
pub open spec fn opt_text_view(t: Option<String>) -> Option<Seq<char>> {
    match t {
        Some(s) => Some(s@),
        None => None,
    }
}

impl View for VariantDef {
    type V = VariantView;

    open spec fn view(&self) -> VariantView {
        VariantView { name: self.name@, status: opt_text_view(self.status), fields: self.fields }
    }
}

/// View of a list of variants.
pub open spec fn variants_view(vs: Seq<VariantDef>) -> Seq<VariantView> {
    vs.map_values(|v: VariantDef| v@)
}

/// The body of the annotated item: its variants when it is an enum, or
/// one of the two shapes the generator rejects.
#[derive(Debug)]
pub enum TargetData {
    Enum(Vec<VariantDef>),
    Struct,
    Union,
}

/// Mathematical image of a [`TargetData`].
pub enum TargetDataView {
    Enum(Seq<VariantView>),
    Struct,
    Union,
}

impl View for TargetData {
    type V = TargetDataView;

    open spec fn view(&self) -> TargetDataView {
        match self {
            TargetData::Enum(vs) => TargetDataView::Enum(variants_view(vs@)),
            TargetData::Struct => TargetDataView::Struct,
            TargetData::Union => TargetDataView::Union,
        }
    }
}

/// Everything the generator reads from the annotated item: its name, the
/// text of its `internal_text` attribute when it carries one, and its body.
#[derive(Debug)]
pub struct DeriveTarget {
    pub name: String,
    pub internal_text: Option<String>,
    pub data: TargetData,
}

/// Mathematical image of a [`DeriveTarget`].
pub struct DeriveTargetView {
    pub name: Seq<char>,
    pub internal_text: Option<Seq<char>>,
    pub data: TargetDataView,
}

impl View for DeriveTarget {
    type V = DeriveTargetView;

    open spec fn view(&self) -> DeriveTargetView {
        DeriveTargetView {
            name: self.name@,
            internal_text: opt_text_view(self.internal_text),
            data: self.data@,
        }
    }
}

/// Why a derivation was refused.
#[derive(Clone, Copy, Debug, PartialEq, Eq, Structural)]
pub enum DeriveError {
    /// The annotated item is a struct or a union.
    NotAnEnum,
    /// The emitted text did not lex as a token stream.
    InvalidTokens,
}

} // verus!
