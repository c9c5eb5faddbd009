//! Tests of the permission mutation engine and the prechecker.

use permission_gateway::engine::{build_patch_batch, precheck, EngineError};
use permission_gateway::op::{kind_label, scope_from_wire, PatchKind, PermissionOperation, Scope};
use permission_gateway::patch::{PatchOp, PatchValue};
use permission_gateway::record::{resolve, IdentityRecord, MetaDocument};

fn operation(perm_type: &str, resource: &str, value: &str, scope: Scope) -> PermissionOperation {
    PermissionOperation {
        identity_id: "1".to_string(),
        permission_type: perm_type.to_string(),
        resource: resource.to_string(),
        value: value.to_string(),
        scope,
    }
}

fn record_with_admin_keys(keys: &[&str]) -> IdentityRecord {
    IdentityRecord {
        metadata_admin: Some(MetaDocument {
            keys: keys.iter().map(|k| k.to_string()).collect(),
        }),
        metadata_public: None,
        traits: None,
    }
}

#[test]
fn grant_on_absent_admin_document_builds_full_batch() {
    let op = operation("project", "222", "\"contributor\"", Scope::Admin);
    let record = IdentityRecord::empty();
    let batch = build_patch_batch(PatchKind::Add, Some(&record), &op).unwrap();
    assert_eq!(batch.len(), 3);
    assert_eq!(
        batch[0],
        PatchOp {
            kind: PatchKind::Add,
            path: "/metadata_admin".to_string(),
            value: PatchValue::EmptyObject,
        }
    );
    assert_eq!(
        batch[1],
        PatchOp {
            kind: PatchKind::Add,
            path: "/metadata_admin/project".to_string(),
            value: PatchValue::EmptyObject,
        }
    );
    assert_eq!(
        batch[2],
        PatchOp {
            kind: PatchKind::Add,
            path: "/metadata_admin/project/222".to_string(),
            value: PatchValue::Json("\"contributor\"".to_string()),
        }
    );
}

#[test]
fn null_value_targets_append_and_writes_the_resource() {
    let op = operation("project", "222", "null", Scope::Admin);
    let record = IdentityRecord::empty();
    let batch = build_patch_batch(PatchKind::Add, Some(&record), &op).unwrap();
    assert_eq!(batch.len(), 3);
    assert_eq!(
        batch[1],
        PatchOp {
            kind: PatchKind::Add,
            path: "/metadata_admin/project".to_string(),
            value: PatchValue::EmptyArray,
        }
    );
    assert_eq!(
        batch[2],
        PatchOp {
            kind: PatchKind::Add,
            path: "/metadata_admin/project/-".to_string(),
            value: PatchValue::Text("222".to_string()),
        }
    );
}

#[test]
fn present_key_builds_only_the_main_patch() {
    let op = operation("project", "222", "\"contributor\"", Scope::Admin);
    let record = record_with_admin_keys(&["project"]);
    let batch = build_patch_batch(PatchKind::Add, Some(&record), &op).unwrap();
    assert_eq!(batch.len(), 1);
    assert_eq!(
        batch[0],
        PatchOp {
            kind: PatchKind::Add,
            path: "/metadata_admin/project/222".to_string(),
            value: PatchValue::Json("\"contributor\"".to_string()),
        }
    );
}

#[test]
fn present_document_with_other_keys_builds_one_precursor() {
    let op = operation("project", "222", "\"contributor\"", Scope::Admin);
    let record = record_with_admin_keys(&["group", "team"]);
    let batch = build_patch_batch(PatchKind::Add, Some(&record), &op).unwrap();
    assert_eq!(batch.len(), 2);
    assert_eq!(
        batch[0],
        PatchOp {
            kind: PatchKind::Add,
            path: "/metadata_admin/project".to_string(),
            value: PatchValue::EmptyObject,
        }
    );
}

#[test]
fn remove_never_runs_the_prechecker() {
    let op = operation("project", "222", "\"contributor\"", Scope::Admin);
    let batch = build_patch_batch(PatchKind::Remove, None, &op).unwrap();
    assert_eq!(batch.len(), 1);
    assert_eq!(
        batch[0],
        PatchOp {
            kind: PatchKind::Remove,
            path: "/metadata_admin/project/222".to_string(),
            value: PatchValue::Json("\"contributor\"".to_string()),
        }
    );
    let absent = IdentityRecord::empty();
    let with_record = build_patch_batch(PatchKind::Remove, Some(&absent), &op).unwrap();
    assert_eq!(with_record.len(), 1);
}

#[test]
fn replace_builds_precursors_like_a_grant() {
    let op = operation("project", "222", "\"maintainer\"", Scope::Public);
    let record = IdentityRecord::empty();
    let batch = build_patch_batch(PatchKind::Replace, Some(&record), &op).unwrap();
    assert_eq!(batch.len(), 3);
    assert_eq!(batch[0].path, "/metadata_public");
    assert_eq!(batch[1].path, "/metadata_public/project");
    assert_eq!(batch[2].kind, PatchKind::Replace);
    assert_eq!(batch[2].path, "/metadata_public/project/222");
}

#[test]
fn trait_scope_uses_the_traits_root() {
    let op = operation("project", "222", "\"contributor\"", Scope::Trait);
    let record = IdentityRecord::empty();
    let batch = build_patch_batch(PatchKind::Add, Some(&record), &op).unwrap();
    assert_eq!(batch[0].path, "/traits");
    assert_eq!(batch[2].path, "/traits/project/222");
}

#[test]
fn invalid_json_value_is_rejected() {
    let op = operation("project", "222", "not json at all", Scope::Admin);
    let record = IdentityRecord::empty();
    let r = build_patch_batch(PatchKind::Add, Some(&record), &op);
    assert_eq!(r, Err(EngineError::ValueNotJson));
}

#[test]
fn append_marker_resource_makes_an_array_container() {
    let op = operation("project", "-", "\"contributor\"", Scope::Admin);
    let record = IdentityRecord::empty();
    let batch = build_patch_batch(PatchKind::Add, Some(&record), &op).unwrap();
    assert_eq!(batch.len(), 3);
    assert_eq!(
        batch[1],
        PatchOp {
            kind: PatchKind::Add,
            path: "/metadata_admin/project".to_string(),
            value: PatchValue::EmptyArray,
        }
    );
    assert_eq!(batch[2].path, "/metadata_admin/project/-");
}

#[test]
fn precheck_emits_container_then_key() {
    let op = operation("project", "222", "\"contributor\"", Scope::Admin);
    let record = IdentityRecord::empty();
    let patches = precheck(&record, &op, false);
    assert_eq!(patches.len(), 2);
    assert_eq!(patches[0].path, "/metadata_admin");
    assert_eq!(patches[1].path, "/metadata_admin/project");
}

#[test]
fn precheck_is_empty_when_the_key_exists() {
    let op = operation("project", "222", "\"contributor\"", Scope::Admin);
    let record = record_with_admin_keys(&["project"]);
    let patches = precheck(&record, &op, false);
    assert!(patches.is_empty());
}

#[test]
fn resolver_maps_each_scope_to_its_root() {
    let record = IdentityRecord::empty();
    assert_eq!(resolve(&record, Scope::Admin).0, "metadata_admin");
    assert_eq!(resolve(&record, Scope::Public).0, "metadata_public");
    assert_eq!(resolve(&record, Scope::Trait).0, "traits");
}

#[test]
fn resolver_distinguishes_absent_from_empty() {
    let record = IdentityRecord {
        metadata_admin: Some(MetaDocument { keys: Vec::new() }),
        metadata_public: None,
        traits: None,
    };
    assert!(resolve(&record, Scope::Admin).1.is_some());
    assert!(resolve(&record, Scope::Public).1.is_none());
}

#[test]
fn wire_scopes_decode_and_unknown_values_are_rejected() {
    assert_eq!(scope_from_wire(0), Some(Scope::Admin));
    assert_eq!(scope_from_wire(1), Some(Scope::Public));
    assert_eq!(scope_from_wire(2), Some(Scope::Trait));
    assert_eq!(scope_from_wire(3), None);
    assert_eq!(scope_from_wire(-1), None);
}

#[test]
fn kind_labels_match_the_wire_vocabulary() {
    assert_eq!(kind_label(PatchKind::Add), "add");
    assert_eq!(kind_label(PatchKind::Remove), "remove");
    assert_eq!(kind_label(PatchKind::Replace), "replace");
}
