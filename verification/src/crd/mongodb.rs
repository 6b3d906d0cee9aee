//! The MongoDb custom resource: a managed MongoDB database add-on.

use vstd::prelude::*;
use vstd::string::StringExecFns;

use crate::addon::spec_addon_name;
use crate::crd::{kind_chars, CustomResource};
use crate::reconciler::Cr;
use crate::resource::ObjectMeta;

verus! {

/// Kind-specific creation options.
#[derive(Clone, Debug)]
pub struct Opts {
    pub version: String,
    pub encryption: bool,
}

/// What a MongoDb resource asks for.
#[derive(Clone, Debug)]
pub struct Spec {
    pub organisation: String,
    pub options: Opts,
    pub instance: crate::crd::Instance,
}

/// The status: the remote add-on id, once known.
#[derive(Clone, Debug)]
pub struct Status {
    pub addon: Option<String>,
}

/// The MongoDb custom resource.
#[derive(Clone, Debug)]
pub struct MongoDb {
    pub meta: ObjectMeta,
    pub spec: Spec,
    pub status: Option<Status>,
}

/// The reconciliation steps of this kind, as event reasons.
#[derive(PartialEq, Eq, Clone, Debug)]
pub enum Action {
    UpsertFinalizer,
    UpsertAddon,
    UpsertSecret,
    OverridesInstancePlan,
    DeleteFinalizer,
    DeleteAddon,
}

impl Action {
    /// The action's name, as recorded in events.
    pub fn as_str(&self) -> (r: &'static str)
        ensures
            self is UpsertFinalizer ==> r@ == "UpsertFinalizer"@,
            self is UpsertAddon ==> r@ == "UpsertAddon"@,
            self is UpsertSecret ==> r@ == "UpsertSecret"@,
            self is OverridesInstancePlan ==> r@ == "OverridesInstancePlan"@,
            self is DeleteFinalizer ==> r@ == "DeleteFinalizer"@,
            self is DeleteAddon ==> r@ == "DeleteAddon"@,
    {
        match self {
            Action::UpsertFinalizer => "UpsertFinalizer",
            Action::UpsertAddon => "UpsertAddon",
            Action::UpsertSecret => "UpsertSecret",
            Action::OverridesInstancePlan => "OverridesInstancePlan",
            Action::DeleteFinalizer => "DeleteFinalizer",
            Action::DeleteAddon => "DeleteAddon",
        }
    }

    /// The action's lower-case name, as used in event names.
    pub fn lowercase(&self) -> (r: &'static str)
        ensures
            self is UpsertFinalizer ==> r@ == "upsertfinalizer"@,
            self is UpsertAddon ==> r@ == "upsertaddon"@,
            self is UpsertSecret ==> r@ == "upsertsecret"@,
            self is OverridesInstancePlan ==> r@ == "overridesinstanceplan"@,
            self is DeleteFinalizer ==> r@ == "deletefinalizer"@,
            self is DeleteAddon ==> r@ == "deleteaddon"@,
    {
        match self {
            Action::UpsertFinalizer => "upsertfinalizer",
            Action::UpsertAddon => "upsertaddon",
            Action::UpsertSecret => "upsertsecret",
            Action::OverridesInstancePlan => "overridesinstanceplan",
            Action::DeleteFinalizer => "deletefinalizer",
            Action::DeleteAddon => "deleteaddon",
        }
    }
}

impl MongoDb {
    /// Records the remote add-on id in the status.
    pub fn set_addon_id(&mut self, id: Option<String>)
        ensures
            (final(self).status matches Some(st) && st.addon == id),
            final(self).meta == old(self).meta,
            final(self).spec == old(self).spec,
    {
        match &mut self.status {
            Some(st) => {
                st.addon = id;
            },
            None => {
                self.status = Some(Status { addon: id });
            },
        }
    }

    /// The remote add-on id, when the status carries one.
    pub fn get_addon_id(&self) -> (r: Option<String>)
        ensures
            (r is Some <==> (self.status matches Some(st) && st.addon is Some)),
            (r matches Some(v) ==> (self.status matches Some(st) && st.addon matches Some(w)
                && v@ == w@)),
    {
        match &self.status {
            Some(st) => match &st.addon {
                Some(s) => Some(s.clone()),
                None => None,
            },
            None => None,
        }
    }

    /// The deterministic remote name of this resource:
    /// `kubernetes::MongoDb::<uid>`.
    pub fn name(&self) -> (r: String)
        requires
            self.meta.uid is Some,
        ensures
            r@ == spec_addon_name(kind_chars(CustomResource::MongoDb), self.meta.uid->0@),
    {
        let uid = match &self.meta.uid {
            Some(u) => u.clone(),
            None => String::new(),
        };
        crate::addon::addon_name(CustomResource::MongoDb.kind(), uid.as_str())
    }

    /// This resource as the reconciliation engine sees it.
    pub fn into_model(self) -> (r: Cr)
        ensures
            r.kind is MongoDb,
            r.meta == self.meta,
            r.organisation == self.spec.organisation,
            (r.instance matches Some(inst) && inst == self.spec.instance),
            r.options@.len() == 2,
            r.options@[0].0@ == "version"@,
            r.options@[0].1 == self.spec.options.version,
            r.options@[1].0@ == "encryption"@,
            r.options@[1].1@ == (if self.spec.options.encryption {
                "true"@
            } else {
                "false"@
            }),
            r.variables@.len() == 0,
            r.status_addon == (match self.status {
                Some(st) => st.addon,
                None => None,
            }),
        r.status_url is None,
    {
        let mut options: Vec<(String, String)> = Vec::new();
        options.push((String::from_str("version"), self.spec.options.version));
        options.push((
            String::from_str("encryption"),
            if self.spec.options.encryption {
                String::from_str("true")
            } else {
                String::from_str("false")
            },
        ));
        Cr {
            kind: CustomResource::MongoDb,
            meta: self.meta,
            organisation: self.spec.organisation,
            instance: Some(self.spec.instance),
            options,
            variables: { let v: Vec<(String, String)> = Vec::new(); v },
            status_addon: match self.status {
                Some(st) => st.addon,
                None => None,
            },
            status_url: None,
        }
    }
}

} // verus!
