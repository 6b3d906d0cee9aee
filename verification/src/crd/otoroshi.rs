//! The Otoroshi custom resource: a managed Otoroshi gateway add-on.

use vstd::prelude::*;
use vstd::string::StringExecFns;

use crate::addon::spec_addon_name;
use crate::crd::{kind_chars, CustomResource};
use crate::reconciler::Cr;
use crate::resource::ObjectMeta;

verus! {

/// This kind takes no creation options.
#[derive(Clone, Debug)]
pub struct Opts {}

/// What a Otoroshi resource asks for.
#[derive(Clone, Debug)]
pub struct Spec {
    pub organisation: String,
    pub options: Opts,
    pub instance: crate::crd::Instance,
}

/// The status: the remote add-on id, once known, and the instance URL.
#[derive(Clone, Debug)]
pub struct Status {
    pub addon: Option<String>,
    pub url: Option<String>,
}

/// The Otoroshi custom resource.
#[derive(Clone, Debug)]
pub struct Otoroshi {
    pub meta: ObjectMeta,
    pub spec: Spec,
    pub status: Option<Status>,
}

/// The reconciliation steps of this kind, as event reasons.
#[derive(PartialEq, Eq, Clone, Debug)]
pub enum Action {
    UpsertFinalizer,
    UpsertAddon,
    UpsertSecret,
    UpdateUrl,
    OverridesInstancePlan,
    DeleteFinalizer,
    DeleteAddon,
}

impl Action {
    /// The action's name, as recorded in events.
    pub fn as_str(&self) -> (r: &'static str)
        ensures
            self is UpsertFinalizer ==> r@ == "UpsertFinalizer"@,
            self is UpsertAddon ==> r@ == "UpsertAddon"@,
            self is UpsertSecret ==> r@ == "UpsertSecret"@,
            self is UpdateUrl ==> r@ == "UpdateUrl"@,
            self is OverridesInstancePlan ==> r@ == "OverridesInstancePlan"@,
            self is DeleteFinalizer ==> r@ == "DeleteFinalizer"@,
            self is DeleteAddon ==> r@ == "DeleteAddon"@,
    {
        match self {
            Action::UpsertFinalizer => "UpsertFinalizer",
            Action::UpsertAddon => "UpsertAddon",
            Action::UpsertSecret => "UpsertSecret",
            Action::UpdateUrl => "UpdateUrl",
            Action::OverridesInstancePlan => "OverridesInstancePlan",
            Action::DeleteFinalizer => "DeleteFinalizer",
            Action::DeleteAddon => "DeleteAddon",
        }
    }

    /// The action's lower-case name, as used in event names.
    pub fn lowercase(&self) -> (r: &'static str)
        ensures
            self is UpsertFinalizer ==> r@ == "upsertfinalizer"@,
            self is UpsertAddon ==> r@ == "upsertaddon"@,
            self is UpsertSecret ==> r@ == "upsertsecret"@,
            self is UpdateUrl ==> r@ == "updateurl"@,
            self is OverridesInstancePlan ==> r@ == "overridesinstanceplan"@,
            self is DeleteFinalizer ==> r@ == "deletefinalizer"@,
            self is DeleteAddon ==> r@ == "deleteaddon"@,
    {
        match self {
            Action::UpsertFinalizer => "upsertfinalizer",
            Action::UpsertAddon => "upsertaddon",
            Action::UpsertSecret => "upsertsecret",
            Action::UpdateUrl => "updateurl",
            Action::OverridesInstancePlan => "overridesinstanceplan",
            Action::DeleteFinalizer => "deletefinalizer",
            Action::DeleteAddon => "deleteaddon",
        }
    }
}

impl Otoroshi {
    /// Records the remote add-on id in the status.
    pub fn set_addon_id(&mut self, id: Option<String>)
        ensures
            (final(self).status matches Some(st) && st.addon == id),
            final(self).meta == old(self).meta,
            final(self).spec == old(self).spec,
    {
        match &mut self.status {
            Some(st) => {
                st.addon = id;
            },
            None => {
                self.status = Some(Status { addon: id, url: None });
            },
        }
    }

    /// The remote add-on id, when the status carries one.
    pub fn get_addon_id(&self) -> (r: Option<String>)
        ensures
            (r is Some <==> (self.status matches Some(st) && st.addon is Some)),
            (r matches Some(v) ==> (self.status matches Some(st) && st.addon matches Some(w)
                && v@ == w@)),
    {
        match &self.status {
            Some(st) => match &st.addon {
                Some(s) => Some(s.clone()),
                None => None,
            },
            None => None,
        }
    }

    /// Stores the URL of the instance, as mirrored from the
    /// `CC_OTOROSHI_URL` entry of the projected secret.
    pub fn set_url(&mut self, url: Option<String>)
        ensures
            (final(self).status matches Some(st) && st.url == url),
            ((old(self).status matches Some(st) ==> (final(self).status matches Some(st2)
                && st2.addon == st.addon))),
            final(self).meta == old(self).meta,
            final(self).spec == old(self).spec,
    {
        match &mut self.status {
            Some(st) => {
                st.url = url;
            },
            None => {
                self.status = Some(Status { addon: None, url });
            },
        }
    }

    /// The URL of the instance, when its status carries one.
    pub fn get_url(&self) -> (r: Option<String>)
        ensures
            (r is Some <==> (self.status matches Some(st) && st.url is Some)),
            (r matches Some(v) ==> (self.status matches Some(st) && st.url matches Some(w) && v@
                == w@)),
    {
        match &self.status {
            Some(st) => match &st.url {
                Some(u) => Some(u.clone()),
                None => None,
            },
            None => None,
        }
    }

    /// The deterministic remote name of this resource:
    /// `kubernetes::Otoroshi::<uid>`.
    pub fn name(&self) -> (r: String)
        requires
            self.meta.uid is Some,
        ensures
            r@ == spec_addon_name(kind_chars(CustomResource::Otoroshi), self.meta.uid->0@),
    {
        let uid = match &self.meta.uid {
            Some(u) => u.clone(),
            None => String::new(),
        };
        crate::addon::addon_name(CustomResource::Otoroshi.kind(), uid.as_str())
    }

    /// This resource as the reconciliation engine sees it.
    pub fn into_model(self) -> (r: Cr)
        ensures
            r.kind is Otoroshi,
            r.meta == self.meta,
            r.organisation == self.spec.organisation,
            (r.instance matches Some(inst) && inst == self.spec.instance),
            r.options@.len() == 0,
            r.variables@.len() == 0,
            r.status_addon == (match self.status {
                Some(st) => st.addon,
                None => None,
            }),
    {
        let options: Vec<(String, String)> = Vec::new();
        let (status_addon, status_url) = match self.status {
            Some(st) => (st.addon, st.url),
            None => (None, None),
        };
        Cr {
            kind: CustomResource::Otoroshi,
            meta: self.meta,
            organisation: self.spec.organisation,
            instance: Some(self.spec.instance),
            options,
            variables: { let v: Vec<(String, String)> = Vec::new(); v },
            status_addon,
            status_url,
        }
    }
}

} // verus!
