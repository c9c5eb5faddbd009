//! The permission mutation engine: turns a permission operation into the
//! ordered batch of tree-patch operations the identity store is asked to
//! apply, auto-vivifying exactly the missing containers first.

use vstd::prelude::*;
use vstd::string::StringExecFns;

use crate::op::{PatchKind, PermissionOperation, PermissionOperationModel, Scope};
use crate::patch::{PatchOp, PatchOpModel, PatchValue, PatchValueModel};
use crate::record::{
    resolve, spec_root_key, spec_sub_document, IdentityRecord, IdentityRecordModel,
};

verus! {

/// How a JSON source text classifies: `None` when it is not valid JSON,
/// `Some(true)` when it denotes JSON null, `Some(false)` otherwise.
pub uninterp spec fn json_value_class(s: Seq<char>) -> Option<bool>;

/// Relies on `serde_json::from_str::<Value>`: whether a string parses as
/// JSON, and whether the parsed value is JSON null, are functions of the
/// characters of the string alone.
#[verifier::external_body]
fn classify_json_value(s: &str) -> (r: Option<bool>)
    ensures
        r == json_value_class(s@),
{
    match serde_json::from_str::<serde_json::Value>(s) {
        Ok(serde_json::Value::Null) => Some(true),
        Ok(serde_json::Value::Bool(_)) => Some(false),
        Ok(serde_json::Value::Number(_)) => Some(false),
        Ok(serde_json::Value::String(_)) => Some(false),
        Ok(serde_json::Value::Array(_)) => Some(false),
        Ok(serde_json::Value::Object(_)) => Some(false),
        Err(_) => None,
    }
}

/// Failure of the engine itself; remote failures are the caller's to carry.
#[derive(Clone, Copy, Debug, PartialEq, Eq, Structural)]
pub enum EngineError {
    /// The operation's `value` field is not valid JSON.
    ValueNotJson,
}

impl EngineError {
    /// A short description for the caller's error report.
    pub fn message(&self) -> (r: &'static str)
        ensures
            r@ == "the operation's value is not valid JSON"@,
    {
        match self {
            EngineError::ValueNotJson => "the operation's value is not valid JSON",
        }
    }
}

/// The precursor patch that creates an absent sub-document: an empty object
/// at `/{root_key}`.
pub open spec fn spec_container_op(scope: Scope) -> PatchOpModel {
    PatchOpModel {
        kind: PatchKind::Add,
        path: "/"@ + spec_root_key(scope),
        value: PatchValueModel::EmptyObject,
    }
}

/// The shape of the container created for a missing `permission_type` key:
/// an array where the caller intends list-append semantics (null value, or
/// the literal append marker as resource), an object otherwise.
pub open spec fn spec_key_container_value(value_is_null: bool, resource: Seq<char>) -> PatchValueModel {
    if value_is_null || resource == "-"@ {
        PatchValueModel::EmptyArray
    } else {
        PatchValueModel::EmptyObject
    }
}

/// The precursor patch that creates a missing `permission_type` key at
/// `/{root_key}/{permission_type}`.
pub open spec fn spec_key_op(op: PermissionOperationModel, value_is_null: bool) -> PatchOpModel {
    PatchOpModel {
        kind: PatchKind::Add,
        path: "/"@ + spec_root_key(op.scope) + "/"@ + op.permission_type,
        value: spec_key_container_value(value_is_null, op.resource),
    }
}

/// The ordered container-creation patches that must precede the main patch:
/// container before key, and only what is missing.
pub open spec fn spec_precursors(
    record: IdentityRecordModel,
    op: PermissionOperationModel,
    value_is_null: bool,
) -> Seq<PatchOpModel> {
    match spec_sub_document(record, op.scope) {
        Option::None => seq![spec_container_op(op.scope), spec_key_op(op, value_is_null)],
        Option::Some(keys) => if keys.contains(op.permission_type) {
            seq![]
        } else {
            seq![spec_key_op(op, value_is_null)]
        },
    }
}

/// The pointer the main patch targets: the append position `/-` under the
/// `permission_type` key for a null value, the `resource` key otherwise.
pub open spec fn spec_main_path(op: PermissionOperationModel, value_is_null: bool) -> Seq<char> {
    let prefix = "/"@ + spec_root_key(op.scope) + "/"@ + op.permission_type + "/"@;
    if value_is_null {
        prefix + "-"@
    } else {
        prefix + op.resource
    }
}

/// The value the main patch writes: the literal resource string becomes the
/// appended array element for a null value; otherwise the value the JSON
/// source text of the operation denotes.
pub open spec fn spec_main_value(op: PermissionOperationModel, value_is_null: bool) -> PatchValueModel {
    if value_is_null {
        PatchValueModel::Text(op.resource)
    } else {
        PatchValueModel::Json(op.value)
    }
}

/// The main patch of an operation.
pub open spec fn spec_main_op(
    kind: PatchKind,
    op: PermissionOperationModel,
    value_is_null: bool,
) -> PatchOpModel {
    PatchOpModel {
        kind: kind,
        path: spec_main_path(op, value_is_null),
        value: spec_main_value(op, value_is_null),
    }
}

/// The full ordered batch: precursors first, main patch last; a removal
/// never carries precursors.
pub open spec fn spec_batch(
    kind: PatchKind,
    record: IdentityRecordModel,
    op: PermissionOperationModel,
    value_is_null: bool,
) -> Seq<PatchOpModel> {
    if kind == PatchKind::Remove {
        seq![spec_main_op(kind, op, value_is_null)]
    } else {
        spec_precursors(record, op, value_is_null) + seq![spec_main_op(kind, op, value_is_null)]
    }
}

/// Builds `/{root_key}`.
fn container_path(scope: Scope) -> (r: String)
    ensures
        r@ == "/"@ + spec_root_key(scope),
{
    let root = crate::record::root_key_str(scope);
    let mut p = String::from_str("/");
    p.append(root);
    p
}

/// Builds `/{root_key}/{permission_type}`.
fn key_path(scope: Scope, permission_type: &String) -> (r: String)
    ensures
        r@ == "/"@ + spec_root_key(scope) + "/"@ + permission_type@,
{
    let mut p = container_path(scope);
    p.append("/");
    p.append(permission_type.as_str());
    assert(p@ =~= "/"@ + spec_root_key(scope) + "/"@ + permission_type@);
    p
}

/// Builds the main patch path for the operation.
fn main_path(op: &PermissionOperation, value_is_null: bool) -> (r: String)
    ensures
        r@ == spec_main_path(op@, value_is_null),
{
    let mut p = key_path(op.scope, &op.permission_type);
    p.append("/");
    if value_is_null {
        p.append("-");
    } else {
        p.append(op.resource.as_str());
    }
    assert(p@ =~= spec_main_path(op@, value_is_null));
    p
}

/// The auto-vivification prechecker.
///
/// Given the current identity record and the target operation, returns the
/// ordered container-creation patches (zero, one, or two) that must precede
/// the main mutation so that the target path exists. `value_is_null` is the
/// classification of the operation's decoded value, as the engine computed
/// it; the result is exact for every value of that flag.
pub fn precheck(record: &IdentityRecord, op: &PermissionOperation, value_is_null: bool) -> (r: Vec<
    PatchOp,
>)
    ensures
        r.deep_view() == spec_precursors(record@, op@, value_is_null),
{
    let mut patches: Vec<PatchOp> = Vec::new();
    let (_, sub_document) = resolve(record, op.scope);
    let key_present: bool = match sub_document {
        Option::Some(doc) => doc.has_key(&op.permission_type),
        Option::None => {
            patches.push(
                PatchOp {
                    kind: PatchKind::Add,
                    path: container_path(op.scope),
                    value: PatchValue::EmptyObject,
                },
            );
            false
        },
    };
    if !key_present {
        let shape = if value_is_null || op.resource == String::from_str("-") {
            PatchValue::EmptyArray
        } else {
            PatchValue::EmptyObject
        };
        patches.push(
            PatchOp { kind: PatchKind::Add, path: key_path(op.scope, &op.permission_type), value: shape },
        );
    }
    assert(patches.deep_view() =~= spec_precursors(record@, op@, value_is_null));
    patches
}

/// The permission mutation engine's pure core.
///
/// Decodes the operation's value, runs the prechecker unless the mutation
/// is a removal, and returns the full ordered patch batch — precursors
/// first, main patch last — that the caller submits to the identity store
/// in one atomic remote call. The record is the identity store's current
/// record of the identity; a removal ignores it and a caller need not
/// supply one.
pub fn build_patch_batch(
    kind: PatchKind,
    record: Option<&IdentityRecord>,
    op: &PermissionOperation,
) -> (r: Result<Vec<PatchOp>, EngineError>)
    requires
        kind != PatchKind::Remove ==> record is Some,
    ensures
        r is Ok <==> json_value_class(op.value@) is Some,
        r is Err ==> r == Err::<Vec<PatchOp>, EngineError>(EngineError::ValueNotJson),
        r is Ok && kind == PatchKind::Remove ==> r->Ok_0.deep_view() == seq![
            spec_main_op(kind, op@, json_value_class(op.value@)->0),
        ],
        r is Ok && kind != PatchKind::Remove ==> r->Ok_0.deep_view() == spec_batch(
            kind,
            record->0@,
            op@,
            json_value_class(op.value@)->0,
        ),
{
    let value_is_null: bool = match classify_json_value(op.value.as_str()) {
        Option::Some(b) => b,
        Option::None => {
            return Err(EngineError::ValueNotJson);
        },
    };
    let mut batch: Vec<PatchOp> = Vec::new();
    if kind != PatchKind::Remove {
        let rec = record.unwrap();
        let mut precursors = precheck(rec, op, value_is_null);
        batch.append(&mut precursors);
    }
    let value = if value_is_null {
        PatchValue::Text(op.resource.clone())
    } else {
        PatchValue::Json(op.value.clone())
    };
    batch.push(PatchOp { kind, path: main_path(op, value_is_null), value });
    proof {
        if kind == PatchKind::Remove {
            assert(batch.deep_view() =~= seq![spec_main_op(kind, op@, value_is_null)]);
        } else {
            assert(batch.deep_view() =~= spec_batch(kind, record->0@, op@, value_is_null));
        }
    }
    Ok(batch)
}

/// For every scope, an operation whose identity record has no sub-document
/// for that scope produces exactly two precursor patches — the container,
/// then the key — before the main patch, in that order.
pub proof fn lemma_absent_document_two_precursors(
    kind: PatchKind,
    record: IdentityRecordModel,
    op: PermissionOperationModel,
    value_is_null: bool,
)
    requires
        kind != PatchKind::Remove,
        spec_sub_document(record, op.scope) is None,
    ensures
        spec_batch(kind, record, op, value_is_null) =~= seq![
            spec_container_op(op.scope),
            spec_key_op(op, value_is_null),
            spec_main_op(kind, op, value_is_null),
        ],
{
}

/// For every operation whose sub-document exists and already contains the
/// `permission_type` key, zero precursor patches are produced: the batch is
/// the main patch alone.
pub proof fn lemma_present_key_no_precursors(
    kind: PatchKind,
    record: IdentityRecordModel,
    op: PermissionOperationModel,
    value_is_null: bool,
)
    requires
        spec_sub_document(record, op.scope) matches Some(keys) && keys.contains(
            op.permission_type,
        ),
    ensures
        spec_batch(kind, record, op, value_is_null) =~= seq![
            spec_main_op(kind, op, value_is_null),
        ],
{
}

/// For every operation whose decoded value is JSON null, the main patch
/// path ends in `/-` and the effective value is the literal resource
/// string.
pub proof fn lemma_null_value_appends(op: PermissionOperationModel)
    ensures
        spec_main_path(op, true).len() >= 2,
        spec_main_path(op, true).last() == '-',
        spec_main_path(op, true)[spec_main_path(op, true).len() - 2] == '/',
        spec_main_value(op, true) == PatchValueModel::Text(op.resource),
{
    reveal_strlit("/");
    reveal_strlit("-");
}

/// For every operation whose decoded value is not JSON null, the main patch
/// path ends in `/{resource}` and the effective value is the one the
/// operation's JSON source text denotes.
pub proof fn lemma_nonnull_value_keys(op: PermissionOperationModel)
    ensures
        spec_main_path(op, false).len() >= op.resource.len() + 1,
        spec_main_path(op, false).subrange(
            spec_main_path(op, false).len() - op.resource.len(),
            spec_main_path(op, false).len() as int,
        ) =~= op.resource,
        spec_main_path(op, false)[spec_main_path(op, false).len() - op.resource.len() - 1] == '/',
        spec_main_value(op, false) == PatchValueModel::Json(op.value),
{
    reveal_strlit("/");
}

/// A removal never triggers the prechecker: whatever the document state of
/// the record, the batch of a `remove` operation is the main patch alone.
pub proof fn lemma_remove_skips_prechecker(
    record: IdentityRecordModel,
    op: PermissionOperationModel,
    value_is_null: bool,
)
    ensures
        spec_batch(PatchKind::Remove, record, op, value_is_null) =~= seq![
            spec_main_op(PatchKind::Remove, op, value_is_null),
        ],
{
}

} // verus!
