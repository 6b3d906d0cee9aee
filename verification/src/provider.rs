//! Add-on providers: the PaaS concept grouping add-ons by technology, and
//! the PostgreSQL provider's version and cluster descriptions.

use vstd::prelude::*;

use crate::addon::Plan;
use crate::text::str_eq;

verus! {

/// One feature of an add-on provider.
#[derive(Clone, Debug)]
pub struct Feature {
    pub name: String,
    pub enabled: bool,
}

/// The technologies the operator provisions, by provider identifier.
#[derive(PartialEq, Eq, Clone, Debug)]
pub enum AddonProviderId {
    PostgreSql,
    MySql,
    MongoDb,
    Redis,
    ConfigProvider,
    KV,
    Otoroshi,
}

impl AddonProviderId {
    /// The identifier the PaaS knows the provider by.
    pub fn as_str(&self) -> (r: &'static str)
        ensures
            self is PostgreSql ==> r@ == "postgresql-addon"@,
            self is MySql ==> r@ == "mysql-addon"@,
            self is MongoDb ==> r@ == "mongodb-addon"@,
            self is Redis ==> r@ == "redis-addon"@,
            self is ConfigProvider ==> r@ == "config-provider"@,
            self is KV ==> r@ == "kv"@,
            self is Otoroshi ==> r@ == "otoroshi"@,
    {
        match self {
            AddonProviderId::PostgreSql => "postgresql-addon",
            AddonProviderId::MySql => "mysql-addon",
            AddonProviderId::MongoDb => "mongodb-addon",
            AddonProviderId::Redis => "redis-addon",
            AddonProviderId::ConfigProvider => "config-provider",
            AddonProviderId::KV => "kv",
            AddonProviderId::Otoroshi => "otoroshi",
        }
    }

    /// Reads a provider identifier; only the identifiers above parse.
    pub fn from_str(s: &str) -> (r: Result<AddonProviderId, String>)
        ensures
            r is Ok <==> (s@ == "postgresql-addon"@ || s@ == "mysql-addon"@ || s@
                == "mongodb-addon"@ || s@ == "redis-addon"@ || s@ == "config-provider"@ || s@
                == "kv"@ || s@ == "otoroshi"@),
            (r matches Ok(p) ==> {
                &&& (p is PostgreSql <==> s@ == "postgresql-addon"@)
                &&& (p is MySql <==> s@ == "mysql-addon"@)
                &&& (p is MongoDb <==> s@ == "mongodb-addon"@)
                &&& (p is Redis <==> s@ == "redis-addon"@)
                &&& (p is ConfigProvider <==> s@ == "config-provider"@)
                &&& (p is KV <==> s@ == "kv"@)
                &&& (p is Otoroshi <==> s@ == "otoroshi"@)
            }),
    {
        proof {
            reveal_strlit("postgresql-addon");
            reveal_strlit("mysql-addon");
            reveal_strlit("mongodb-addon");
            reveal_strlit("redis-addon");
            reveal_strlit("config-provider");
            reveal_strlit("kv");
            reveal_strlit("otoroshi");
            assert("postgresql-addon"@.len() == 16);
            assert("mysql-addon"@.len() == 11);
            assert("mongodb-addon"@.len() == 13);
            assert("redis-addon"@.len() == 11);
            assert("config-provider"@.len() == 15);
            assert("kv"@.len() == 2);
            assert("otoroshi"@.len() == 8);
            assert("mysql-addon"@[0] == 'm');
            assert("redis-addon"@[0] == 'r');
        }
        if str_eq(s, "postgresql-addon") {
            Ok(AddonProviderId::PostgreSql)
        } else if str_eq(s, "mysql-addon") {
            Ok(AddonProviderId::MySql)
        } else if str_eq(s, "mongodb-addon") {
            Ok(AddonProviderId::MongoDb)
        } else if str_eq(s, "redis-addon") {
            Ok(AddonProviderId::Redis)
        } else if str_eq(s, "config-provider") {
            Ok(AddonProviderId::ConfigProvider)
        } else if str_eq(s, "kv") {
            Ok(AddonProviderId::KV)
        } else if str_eq(s, "otoroshi") {
            Ok(AddonProviderId::Otoroshi)
        } else {
            Err(s.to_owned())
        }
    }
}

/// The PostgreSQL versions the provider offers.
#[derive(PartialEq, Eq, Clone, Debug)]
pub enum PostgreSqlVersion {
    V13,
    V12,
    V11,
    V10,
    V9dot6,
}

/// A version as the API writes it.
pub open spec fn version_chars(v: PostgreSqlVersion) -> Seq<char> {
    match v {
        PostgreSqlVersion::V13 => "13"@,
        PostgreSqlVersion::V12 => "12"@,
        PostgreSqlVersion::V11 => "11"@,
        PostgreSqlVersion::V10 => "10"@,
        PostgreSqlVersion::V9dot6 => "9.6"@,
    }
}

impl PostgreSqlVersion {
    /// The version as the API writes it.
    pub fn as_str(&self) -> (r: &'static str)
        ensures
            r@ == version_chars(*self),
    {
        match self {
            PostgreSqlVersion::V13 => "13",
            PostgreSqlVersion::V12 => "12",
            PostgreSqlVersion::V11 => "11",
            PostgreSqlVersion::V10 => "10",
            PostgreSqlVersion::V9dot6 => "9.6",
        }
    }

    /// Reads a version; only `13`, `12`, `11`, `10` and `9.6` parse.
    pub fn from_str(s: &str) -> (r: Result<PostgreSqlVersion, String>)
        ensures
            r is Ok <==> (s@ == "13"@ || s@ == "12"@ || s@ == "11"@ || s@ == "10"@ || s@
                == "9.6"@),
            (r matches Ok(v) ==> {
                &&& (v is V13 <==> s@ == "13"@)
                &&& (v is V12 <==> s@ == "12"@)
                &&& (v is V11 <==> s@ == "11"@)
                &&& (v is V10 <==> s@ == "10"@)
                &&& (v is V9dot6 <==> s@ == "9.6"@)
            }),
    {
        proof {
            reveal_strlit("13");
            reveal_strlit("12");
            reveal_strlit("11");
            reveal_strlit("10");
            reveal_strlit("9.6");
            assert("13"@.len() == 2);
            assert("12"@.len() == 2);
            assert("11"@.len() == 2);
            assert("10"@.len() == 2);
            assert("9.6"@.len() == 3);
            assert("13"@[1] == '3');
            assert("12"@[1] == '2');
            assert("11"@[1] == '1');
            assert("10"@[1] == '0');
        }
        if str_eq(s, "13") {
            Ok(PostgreSqlVersion::V13)
        } else if str_eq(s, "12") {
            Ok(PostgreSqlVersion::V12)
        } else if str_eq(s, "11") {
            Ok(PostgreSqlVersion::V11)
        } else if str_eq(s, "10") {
            Ok(PostgreSqlVersion::V10)
        } else if str_eq(s, "9.6") {
            Ok(PostgreSqlVersion::V9dot6)
        } else {
            Err(s.to_owned())
        }
    }
}

/// One PostgreSQL cluster of the provider.
#[derive(Clone, Debug)]
pub struct PostgreSqlCluster {
    pub id: String,
    pub label: String,
    pub zone: String,
    pub version: PostgreSqlVersion,
    pub features: Vec<Feature>,
}

/// What the PostgreSQL provider offers: clusters, per-version dedicated
/// features, and a default version.
#[derive(Clone, Debug)]
pub struct PostgreSqlAddonProvider {
    pub provider_id: AddonProviderId,
    pub clusters: Vec<PostgreSqlCluster>,
    pub dedicated: Vec<(PostgreSqlVersion, Vec<Feature>)>,
    pub default: PostgreSqlVersion,
}

/// The plans of an add-on provider.
#[derive(Clone, Debug)]
pub struct AddonProviderPlans {
    pub id: AddonProviderId,
    pub plans: Vec<Plan>,
}

} // verus!
