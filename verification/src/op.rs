//! The permission operation received from either transport, and its scope.

use vstd::prelude::*;

verus! {

/// One of the three partitions of an identity's metadata document that a
/// permission operation may address.
#[derive(Clone, Copy, Debug, PartialEq, Eq, Structural)]
pub enum Scope {
    Admin,
    Public,
    Trait,
}

/// The kind of mutation requested: grant, revoke, or replace a binding.
#[derive(Clone, Copy, Debug, PartialEq, Eq, Structural)]
pub enum PatchKind {
    Add,
    Remove,
    Replace,
}

/// A permission operation as it arrives on the wire, with the scope already
/// decoded into its closed variant.
#[derive(Clone, Debug)]
pub struct PermissionOperation {
    /// Identifier of the identity whose metadata is mutated.
    pub identity_id: String,
    /// Kind of permission being bound, used verbatim as a pointer segment.
    pub permission_type: String,
    /// Resource the permission applies to, used verbatim as a pointer
    /// segment, or the literal append marker `-`.
    pub resource: String,
    /// JSON-encoded value of the binding, decoded by the mutation engine.
    pub value: String,
    /// The metadata partition the operation addresses.
    pub scope: Scope,
}

/// Mathematical model of a [`PermissionOperation`].
pub struct PermissionOperationModel {
    pub identity_id: Seq<char>,
    pub permission_type: Seq<char>,
    pub resource: Seq<char>,
    pub value: Seq<char>,
    pub scope: Scope,
}

impl View for PermissionOperation {
    type V = PermissionOperationModel;

    open spec fn view(&self) -> PermissionOperationModel {
        PermissionOperationModel {
            identity_id: self.identity_id@,
            permission_type: self.permission_type@,
            resource: self.resource@,
            value: self.value@,
            scope: self.scope,
        }
    }
}

/// Decodes the scope from its small-integer wire form.
///
/// Unknown values are rejected as `None` so the transport can answer with a
/// client error instead of defaulting silently.
pub fn scope_from_wire(raw: i32) -> (r: Option<Scope>)
    ensures
        r == (if raw == 0 {
            Some(Scope::Admin)
        } else if raw == 1 {
            Some(Scope::Public)
        } else if raw == 2 {
            Some(Scope::Trait)
        } else {
            None::<Scope>
        }),
{
    match raw {
        0 => Some(Scope::Admin),
        1 => Some(Scope::Public),
        2 => Some(Scope::Trait),
        _ => None,
    }
}

/// The label a patch kind carries on the wire and inside a patch document.
pub fn kind_label(kind: PatchKind) -> (r: &'static str)
    ensures
        kind == PatchKind::Add ==> r@ == "add"@,
        kind == PatchKind::Remove ==> r@ == "remove"@,
        kind == PatchKind::Replace ==> r@ == "replace"@,
{
    match kind {
        PatchKind::Add => "add",
        PatchKind::Remove => "remove",
        PatchKind::Replace => "replace",
    }
}

} // verus!
