//! The model of a namespaced Kubernetes resource: identity, lifecycle
//! metadata, and the references that tie owned objects to their owner.

use vstd::prelude::*;

verus! {

/// The text of each element of a list of strings.
pub open spec fn strs_view(s: Seq<String>) -> Seq<Seq<char>> {
    s.map(|_i: int, x: String| x@)
}

/// Identity and lifecycle metadata of a namespaced resource.
#[derive(Clone, Debug)]
pub struct ObjectMeta {
    pub namespace: Option<String>,
    pub name: Option<String>,
    pub uid: Option<String>,
    pub finalizers: Option<Vec<String>>,
    /// Unix seconds; a resource with a deletion timestamp is being deleted.
    pub deletion_timestamp: Option<i64>,
    pub owner_references: Vec<OwnerReference>,
    pub resource_version: Option<String>,
}

/// A back-pointer that lets the API server garbage-collect owned objects.
#[derive(Clone, Debug)]
pub struct OwnerReference {
    pub api_version: String,
    pub kind: String,
    pub name: String,
    pub uid: String,
    pub block_owner_deletion: bool,
}

/// A pointer to a resource, as carried by an event.
#[derive(Clone, Debug)]
pub struct ObjectReference {
    pub api_version: String,
    pub kind: String,
    pub name: String,
    pub uid: Option<String>,
    pub namespace: Option<String>,
    pub resource_version: Option<String>,
}

/// The API group and kind a resource belongs to.
#[derive(Clone, Debug)]
pub struct ApiResource {
    pub api_version: String,
    pub kind: String,
}

/// Whether the resource is being deleted from Kubernetes' point of view.
pub fn deleted(meta: &ObjectMeta) -> (r: bool)
    ensures
        r == (meta.deletion_timestamp is Some),
{
    meta.deletion_timestamp.is_some()
}

/// The resource's name, or empty when it has none yet.
pub open spec fn spec_name_any(meta: ObjectMeta) -> Seq<char> {
    match meta.name {
        Some(n) => n@,
        None => Seq::empty(),
    }
}

/// The resource's name, or empty when it has none yet.
pub fn name_any(meta: &ObjectMeta) -> (r: String)
    ensures
        r@ == spec_name_any(*meta),
{
    match &meta.name {
        Some(n) => n.clone(),
        None => {
            let r = String::new();
            proof {
                assert(r@ =~= spec_name_any(*meta));
            }
            r
        },
    }
}

/// The namespace and name of a created, namespaced resource.
pub fn namespaced_name(meta: &ObjectMeta) -> (r: (String, String))
    requires
        meta.namespace is Some,
    ensures
        r.0@ == meta.namespace->0@,
        r.1@ == spec_name_any(*meta),
{
    let ns = match &meta.namespace {
        Some(ns) => ns.clone(),
        None => String::new(),
    };
    (ns, name_any(meta))
}

/// An owner reference pointing to the resource, with
/// `blockOwnerDeletion` set, so that deleting the owner collects what it
/// owns.
pub fn owner_reference(api: &ApiResource, meta: &ObjectMeta) -> (r: OwnerReference)
    requires
        meta.uid is Some,
    ensures
        r.api_version@ == api.api_version@,
        r.kind@ == api.kind@,
        r.name@ == spec_name_any(*meta),
        r.uid@ == meta.uid->0@,
        r.block_owner_deletion,
{
    let uid = match &meta.uid {
        Some(u) => u.clone(),
        None => String::new(),
    };
    OwnerReference {
        api_version: api.api_version.clone(),
        kind: api.kind.clone(),
        name: name_any(meta),
        uid,
        block_owner_deletion: true,
    }
}

/// An object reference pointing to the resource.
pub fn object_reference(api: &ApiResource, meta: &ObjectMeta) -> (r: ObjectReference)
    ensures
        r.api_version@ == api.api_version@,
        r.kind@ == api.kind@,
        r.name@ == spec_name_any(*meta),
        r.uid == meta.uid,
        r.namespace == meta.namespace,
        r.resource_version == meta.resource_version,
{
    ObjectReference {
        api_version: api.api_version.clone(),
        kind: api.kind.clone(),
        name: name_any(meta),
        uid: meta.uid.clone(),
        namespace: meta.namespace.clone(),
        resource_version: meta.resource_version.clone(),
    }
}

} // verus!
