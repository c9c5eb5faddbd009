//! The identity record as the mutation engine reads it, and the scope
//! resolver that picks a metadata root key and sub-document out of it.

use vstd::prelude::*;

use crate::op::Scope;

verus! {

/// A metadata sub-document of an identity record, reduced to what the
/// mutation engine reads of it: the keys addressable one pointer step below
/// its root. A document that is present but empty has an empty key list,
/// which stays distinct from an absent document (`Option::None` upstream).
#[derive(Clone, Debug, PartialEq, Eq)]
pub struct MetaDocument {
    pub keys: Vec<String>,
}

impl View for MetaDocument {
    type V = Seq<Seq<char>>;

    open spec fn view(&self) -> Seq<Seq<char>> {
        self.keys.deep_view()
    }
}

impl DeepView for MetaDocument {
    type V = Seq<Seq<char>>;

    open spec fn deep_view(&self) -> Seq<Seq<char>> {
        self@
    }
}

impl MetaDocument {
    /// A present, empty sub-document.
    pub fn new() -> (r: Self)
        ensures
            r@ == Seq::<Seq<char>>::empty(),
    {
        MetaDocument { keys: Vec::new() }
    }

    /// Whether a pointer one step below the document root resolves, that is,
    /// whether `key` is among the document's keys.
    pub fn has_key(&self, key: &String) -> (r: bool)
        ensures
            r == self@.contains(key@),
    {
        let mut i: usize = 0;
        while i < self.keys.len()
            invariant
                0 <= i <= self.keys.len(),
                forall|j: int| 0 <= j < i ==> self@[j] != key@,
            decreases self.keys.len() - i,
        {
            if self.keys[i] == *key {
                assert(self@[i as int] == key@);
                return true;
            }
            i += 1;
        }
        false
    }
}

/// The identity store's record of one identity, reduced to its three
/// optional metadata sub-documents, one per scope.
#[derive(Clone, Debug, PartialEq, Eq)]
pub struct IdentityRecord {
    pub metadata_admin: Option<MetaDocument>,
    pub metadata_public: Option<MetaDocument>,
    pub traits: Option<MetaDocument>,
}

/// Mathematical model of an [`IdentityRecord`].
pub struct IdentityRecordModel {
    pub metadata_admin: Option<Seq<Seq<char>>>,
    pub metadata_public: Option<Seq<Seq<char>>>,
    pub traits: Option<Seq<Seq<char>>>,
}

impl View for IdentityRecord {
    type V = IdentityRecordModel;

    open spec fn view(&self) -> IdentityRecordModel {
        IdentityRecordModel {
            metadata_admin: self.metadata_admin.deep_view(),
            metadata_public: self.metadata_public.deep_view(),
            traits: self.traits.deep_view(),
        }
    }
}

impl IdentityRecord {
    /// A record with no sub-document created yet for any scope.
    pub fn empty() -> (r: Self)
        ensures
            r@.metadata_admin is None,
            r@.metadata_public is None,
            r@.traits is None,
    {
        IdentityRecord { metadata_admin: None, metadata_public: None, traits: None }
    }
}

/// The metadata root key each scope addresses.
pub open spec fn spec_root_key(scope: Scope) -> Seq<char> {
    match scope {
        Scope::Admin => "metadata_admin"@,
        Scope::Public => "metadata_public"@,
        Scope::Trait => "traits"@,
    }
}

/// The sub-document of `record` that `scope` addresses, or `None` where the
/// identity store never created it.
pub open spec fn spec_sub_document(record: IdentityRecordModel, scope: Scope) -> Option<
    Seq<Seq<char>>,
> {
    match scope {
        Scope::Admin => record.metadata_admin,
        Scope::Public => record.metadata_public,
        Scope::Trait => record.traits,
    }
}

/// The metadata root key each scope addresses, as a string.
pub fn root_key_str(scope: Scope) -> (r: &'static str)
    ensures
        r@ == spec_root_key(scope),
{
    match scope {
        Scope::Admin => "metadata_admin",
        Scope::Public => "metadata_public",
        Scope::Trait => "traits",
    }
}

/// Resolves a scope to its metadata root key and to the sub-document of the
/// caller-supplied record that the key addresses. Pure and total.
pub fn resolve<'a>(record: &'a IdentityRecord, scope: Scope) -> (r: (
    &'static str,
    &'a Option<MetaDocument>,
))
    ensures
        r.0@ == spec_root_key(scope),
        r.1.deep_view() == spec_sub_document(record@, scope),
{
    match scope {
        Scope::Admin => ("metadata_admin", &record.metadata_admin),
        Scope::Public => ("metadata_public", &record.metadata_public),
        Scope::Trait => ("traits", &record.traits),
    }
}

} // verus!
