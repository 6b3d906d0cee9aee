//! Projection of an add-on's connection data into a Kubernetes `Secret`
//! owned by the custom resource that requested it.

use vstd::prelude::*;
use vstd::string::StringExecFns;

use crate::resource::{owner_reference, spec_name_any, ApiResource, ObjectMeta};

verus! {

/// The name of the per-namespace secret that overrides the operator's
/// credentials.
pub fn override_configuration_name() -> (r: String)
    ensures
        r@ == "clever-operator"@,
{
    String::from_str("clever-operator")
}

/// A Kubernetes `Secret`: metadata and its string data.
#[derive(Clone, Debug)]
pub struct Secret {
    pub metadata: ObjectMeta,
    pub string_data: Vec<(String, String)>,
}

/// The name of the secret projected for a resource: `<name>-secrets`.
pub fn name(meta: &ObjectMeta) -> (r: String)
    ensures
        r@ == spec_name_any(*meta) + "-secrets"@,
{
    crate::resource::name_any(meta).concat("-secrets")
}

/// Builds the secret projected for a resource: named `<name>-secrets` in
/// the resource's namespace, carrying the given string data, and owned by
/// the resource through exactly one owner reference with
/// `blockOwnerDeletion` set — so deleting the owner collects the secret.
pub fn new(api: &ApiResource, meta: &ObjectMeta, secrets: Vec<(String, String)>) -> (s: Secret)
    requires
        meta.uid is Some,
    ensures
        (s.metadata.name matches Some(n) && n@ == spec_name_any(*meta) + "-secrets"@),
        s.metadata.namespace == meta.namespace,
        s.metadata.owner_references@.len() == 1,
        s.metadata.owner_references@[0].uid@ == meta.uid->0@,
        s.metadata.owner_references@[0].name@ == spec_name_any(*meta),
        s.metadata.owner_references@[0].kind@ == api.kind@,
        s.metadata.owner_references@[0].api_version@ == api.api_version@,
        s.metadata.owner_references@[0].block_owner_deletion,
        s.string_data == secrets,
        s.metadata.finalizers is None,
        s.metadata.deletion_timestamp is None,
{
    let owner = owner_reference(api, meta);
    let mut owners = Vec::new();
    owners.push(owner);
    Secret {
        metadata: ObjectMeta {
            namespace: meta.namespace.clone(),
            name: Some(name(meta)),
            uid: None,
            finalizers: None,
            deletion_timestamp: None,
            owner_references: owners,
            resource_version: None,
        },
        string_data: secrets,
    }
}

} // verus!
