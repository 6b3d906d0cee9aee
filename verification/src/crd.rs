//! What all custom resource kinds share: the instance shape and the list
//! of kinds the operator manages.

use vstd::prelude::*;

pub mod config_provider;
pub mod kv;
pub mod mongodb;
pub mod mysql;
pub mod otoroshi;
pub mod postgresql;
pub mod redis;

use crate::text::str_eq;

verus! {

/// Where and how large an add-on instance is.
#[derive(Clone, Debug)]
pub struct Instance {
    pub region: String,
    pub plan: String,
}

/// The custom resource kinds the operator manages.
#[derive(PartialEq, Eq, Clone, Debug)]
pub enum CustomResource {
    PostgreSql,
    MySql,
    MongoDb,
    Redis,
    ConfigProvider,
    KV,
    Otoroshi,
}


/// The kind's name as Kubernetes writes it.
pub open spec fn kind_chars(k: CustomResource) -> Seq<char> {
    match k {
        CustomResource::PostgreSql => "PostgreSql"@,
        CustomResource::MySql => "MySql"@,
        CustomResource::MongoDb => "MongoDb"@,
        CustomResource::Redis => "Redis"@,
        CustomResource::ConfigProvider => "ConfigProvider"@,
        CustomResource::KV => "KV"@,
        CustomResource::Otoroshi => "Otoroshi"@,
    }
}

/// The finalizer the operator sets on resources of the kind.
pub open spec fn finalizer_chars(k: CustomResource) -> Seq<char> {
    match k {
        CustomResource::PostgreSql => "api.clever-cloud.com/postgresql"@,
        CustomResource::MySql => "api.clever-cloud.com/mysql"@,
        CustomResource::MongoDb => "api.clever-cloud.com/mongodb"@,
        CustomResource::Redis => "api.clever-cloud.com/redis"@,
        CustomResource::ConfigProvider => "api.clever-cloud.com/config-provider"@,
        CustomResource::KV => "api.clever-cloud.com/materia-kv"@,
        CustomResource::Otoroshi => "api.clever-cloud.com/otoroshi"@,
    }
}

impl CustomResource {
    /// The kind as Kubernetes writes it.
    pub fn kind(&self) -> (r: &'static str)
        ensures
            r@ == kind_chars(*self),
    {
        match self {
            CustomResource::PostgreSql => "PostgreSql",
            CustomResource::MySql => "MySql",
            CustomResource::MongoDb => "MongoDb",
            CustomResource::Redis => "Redis",
            CustomResource::ConfigProvider => "ConfigProvider",
            CustomResource::KV => "KV",
            CustomResource::Otoroshi => "Otoroshi",
        }
    }

    /// The finalizer the operator sets on resources of this kind.
    pub fn finalizer(&self) -> (r: &'static str)
        ensures
            r@ == finalizer_chars(*self),
    {
        match self {
            CustomResource::PostgreSql => "api.clever-cloud.com/postgresql",
            CustomResource::MySql => "api.clever-cloud.com/mysql",
            CustomResource::MongoDb => "api.clever-cloud.com/mongodb",
            CustomResource::Redis => "api.clever-cloud.com/redis",
            CustomResource::ConfigProvider => "api.clever-cloud.com/config-provider",
            CustomResource::KV => "api.clever-cloud.com/materia-kv",
            CustomResource::Otoroshi => "api.clever-cloud.com/otoroshi",
        }
    }

    /// Reads a kind name; only the kinds above parse.
    pub fn from_str(s: &str) -> (r: Result<CustomResource, String>)
        ensures
            r is Ok <==> (s@ == "PostgreSql"@ || s@ == "MySql"@ || s@ == "MongoDb"@ || s@
                == "Redis"@ || s@ == "ConfigProvider"@ || s@ == "KV"@ || s@ == "Otoroshi"@),
    {
        if str_eq(s, "PostgreSql") {
            Ok(CustomResource::PostgreSql)
        } else if str_eq(s, "MySql") {
            Ok(CustomResource::MySql)
        } else if str_eq(s, "MongoDb") {
            Ok(CustomResource::MongoDb)
        } else if str_eq(s, "Redis") {
            Ok(CustomResource::Redis)
        } else if str_eq(s, "ConfigProvider") {
            Ok(CustomResource::ConfigProvider)
        } else if str_eq(s, "KV") {
            Ok(CustomResource::KV)
        } else if str_eq(s, "Otoroshi") {
            Ok(CustomResource::Otoroshi)
        } else {
            Err(s.to_owned())
        }
    }
}

} // verus!
