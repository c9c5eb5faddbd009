//! Tree-patch operations: the instructions the gateway submits against an
//! identity's metadata document.

use vstd::prelude::*;

use crate::op::PatchKind;

verus! {

/// The value a patch operation writes.
///
/// A `Json` value carries the JSON source text it was decoded from; the
/// value written is the one that text denotes. The engine only ever needs
/// to distinguish the two container shapes, a literal string, and a decoded
/// document, so no general JSON tree is modelled here.
#[derive(Clone, Debug, PartialEq, Eq)]
pub enum PatchValue {
    /// The empty object `{}`, used to auto-vivify a keyed container.
    EmptyObject,
    /// The empty array `[]`, used to auto-vivify an append container.
    EmptyArray,
    /// A JSON string holding the given characters.
    Text(String),
    /// The value denoted by the given JSON source text.
    Json(String),
}

/// Mathematical model of a [`PatchValue`].
pub enum PatchValueModel {
    EmptyObject,
    EmptyArray,
    Text(Seq<char>),
    Json(Seq<char>),
}

impl View for PatchValue {
    type V = PatchValueModel;

    open spec fn view(&self) -> PatchValueModel {
        match self {
            PatchValue::EmptyObject => PatchValueModel::EmptyObject,
            PatchValue::EmptyArray => PatchValueModel::EmptyArray,
            PatchValue::Text(s) => PatchValueModel::Text(s@),
            PatchValue::Json(s) => PatchValueModel::Json(s@),
        }
    }
}

impl DeepView for PatchValue {
    type V = PatchValueModel;

    open spec fn deep_view(&self) -> PatchValueModel {
        self@
    }
}

/// One pointer-addressed instruction against a metadata document.
#[derive(Clone, Debug, PartialEq, Eq)]
pub struct PatchOp {
    /// Whether the instruction adds, removes, or replaces.
    pub kind: PatchKind,
    /// Slash-delimited pointer to the target of the instruction.
    pub path: String,
    /// The value written at the target.
    pub value: PatchValue,
}

/// Mathematical model of a [`PatchOp`].
pub struct PatchOpModel {
    pub kind: PatchKind,
    pub path: Seq<char>,
    pub value: PatchValueModel,
}

impl View for PatchOp {
    type V = PatchOpModel;

    open spec fn view(&self) -> PatchOpModel {
        PatchOpModel { kind: self.kind, path: self.path@, value: self.value@ }
    }
}

impl DeepView for PatchOp {
    type V = PatchOpModel;

    open spec fn deep_view(&self) -> PatchOpModel {
        self@
    }
}

} // verus!
