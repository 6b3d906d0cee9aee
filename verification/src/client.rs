//! The PaaS client's decisions: the error taxonomy by status code, and the
//! per-namespace credential override decoded from a secret.

use vstd::prelude::*;

use vstd::string::StringExecFns;

use crate::oauth::SignerError;
use crate::text::{ascii_chars_of, dec_digits, dec_string, str_eq};

verus! {

/// The error body the PaaS returns beside a non-2xx status.
#[derive(Clone, Debug)]
pub struct ResponseError {
    pub id: u32,
    pub message: String,
    pub kind: String,
}

impl ResponseError {
    /// The error rendered as text: `got response <type> <id>, <message>`.
    pub fn text(&self) -> (r: String)
        ensures
            r@ == "got response "@ + self.kind@ + " "@ + ascii_chars_of(
                dec_digits(self.id as nat),
            ) + ", "@ + self.message@,
    {
        String::from_str("got response ").concat(self.kind.as_str()).concat(" ").concat(
            dec_string(self.id as u64).as_str(),
        ).concat(", ").concat(self.message.as_str())
    }
}

/// What can go wrong in one request to the PaaS.
#[derive(Clone, Debug)]
pub enum ClientError {
    /// The request could not be built.
    RequestBuilder(String),
    /// The transport failed.
    Request(String),
    /// The PaaS answered with a non-2xx status and this error body.
    StatusCode(u16, ResponseError),
    /// The response body could not be read.
    BodyAggregation(String),
    /// The request body could not be serialized.
    Serialize(String),
    /// The response body could not be deserialized.
    Deserialize(String),
    /// The signer could not be built.
    Signer(SignerError),
    /// The signature could not be computed.
    Digest(SignerError),
}

/// Whether a status code reports success.
pub fn status_success(code: u16) -> (r: bool)
    ensures
        r == (200 <= code < 300),
{
    200 <= code && code < 300
}

/// Whether a status code reports a missing resource.
pub fn status_not_found(code: u16) -> (r: bool)
    ensures
        r == (code == 404),
{
    code == 404
}

/// Sorts a response by status: a 2xx passes, anything else becomes a
/// `StatusCode` error carrying the status and the PaaS error body.
pub fn classify_status(code: u16, body: ResponseError) -> (r: Result<(), ClientError>)
    ensures
        r is Ok <==> 200 <= code < 300,
        (r matches Err(e) ==> e matches ClientError::StatusCode(c, b) && c == code && b == body),
{
    if 200 <= code && code < 300 {
        Ok(())
    } else {
        Err(ClientError::StatusCode(code, body))
    }
}

// ---------------------------------------------------------------------------
// Credentials

/// How the operator authenticates against the PaaS.
#[derive(Clone, Debug)]
pub enum Credentials {
    OAuth1 { consumer_key: String, consumer_secret: String, token: String, secret: String },
    Basic { username: String, password: String },
    Bearer { token: String },
}

impl Credentials {
    /// The signing credentials, for the OAuth1 form; the basic and bearer
    /// forms carry none.
    pub fn into_signing(self) -> (r: Option<crate::oauth::ClientCredentials>)
        ensures
            (r is Some <==> self is OAuth1),
            (r matches Some(c) ==> (self matches Credentials::OAuth1 {
                consumer_key,
                consumer_secret,
                token,
                secret,
            } && c.consumer_key == consumer_key && c.consumer_secret == consumer_secret
                && c.token == token && c.secret == secret)),
    {
        match self {
            Credentials::OAuth1 { consumer_key, consumer_secret, token, secret } => Some(
                crate::oauth::ClientCredentials { token, secret, consumer_key, consumer_secret },
            ),
            Credentials::Basic { .. } => None,
            Credentials::Bearer { .. } => None,
        }
    }
}

// ---------------------------------------------------------------------------
// Credential override

/// What can go wrong while decoding the per-namespace override secret.
#[derive(Clone, Debug)]
pub enum OverrideError {
    /// The secret carries no data at all.
    SecretData(String, String),
    /// The secret carries data, but no `config` key.
    SecretKey(String, String),
    /// The `config` value is not valid base64.
    Base64Decode(String, String),
}

/// What standard base64 decoding yields on a byte string, when it is
/// valid base64: a function of its argument alone.
pub uninterp spec fn base64_decode_of(s: Seq<u8>) -> Option<Seq<u8>>;

/// Relies on `base64::engine::general_purpose::STANDARD.decode`: the
/// result depends on the input bytes alone, and decoding fails exactly on
/// input that is not valid base64.
#[verifier::external_body]
fn base64_decode(b: &[u8]) -> (r: Option<Vec<u8>>)
    ensures
        (r matches Some(v) ==> base64_decode_of(b@) == Some(v@)),
        r is Some <==> base64_decode_of(b@) is Some,
{
    match base64::Engine::decode(&base64::engine::general_purpose::STANDARD, b) {
        Ok(v) => Some(v),
        Err(_) => None,
    }
}

/// Whether some entry of the secret's data carries the key `k`.
pub open spec fn data_has(data: Seq<(String, Vec<u8>)>, k: Seq<char>) -> bool {
    exists|i: int| 0 <= i < data.len() && data[i].0@ == k
}

/// The bytes stored under `k`, at the first entry carrying it.
pub open spec fn data_at(data: Seq<(String, Vec<u8>)>, k: Seq<char>) -> Seq<u8>
    decreases data.len(),
{
    if data.len() == 0 {
        Seq::empty()
    } else if data[0].0@ == k {
        data[0].1@
    } else {
        data_at(data.drop_first(), k)
    }
}

proof fn lemma_data_at(data: Seq<(String, Vec<u8>)>, k: Seq<char>, i: int)
    requires
        0 <= i < data.len(),
        data[i].0@ == k,
        forall|j: int| 0 <= j < i ==> data[j].0@ != k,
    ensures
        data_at(data, k) == data[i].1@,
    decreases data.len(),
{
    if data[0].0@ != k {
        let rest = data.drop_first();
        assert(forall|j: int| 0 <= j < rest.len() ==> rest[j] == data[j + 1]);
        lemma_data_at(rest, k, i - 1);
    }
}

/// Decodes the per-namespace override secret: its `config` data entry,
/// base64-decoded, is the configuration the override client is built
/// from.  `namespace` and `name` identify the secret in the errors.
/// Fails when the secret has no data, no `config` key, or a value that is
/// not valid base64 — each distinctly.
pub fn decode_override(data: &Option<Vec<(String, Vec<u8>)>>, namespace: &str, name: &str) -> (r:
    Result<Vec<u8>, OverrideError>)
    ensures
        (match *data {
            Some(d) => data_has(d@, "config"@) ==> (match base64_decode_of(
                data_at(d@, "config"@),
            ) {
                Some(buf) => r matches Ok(b) && b@ == buf,
                None => r matches Err(e) && e is Base64Decode,
            }),
            None => true,
        }),
        (r matches Err(e) ==> {
            &&& (e is SecretData <==> (*data) is None)
            &&& (e is SecretKey <==> ((*data) matches Some(d) && !data_has(d@, "config"@)))
        }),
{
    match data.as_ref() {
        None => Err(OverrideError::SecretData(namespace.to_owned(), name.to_owned())),
        Some(d) => {
            let mut i: usize = 0;
            while i < d.len()
                invariant
                    i <= d@.len(),
                    *data == Some(*d),
                    forall|j: int| 0 <= j < i ==> d@[j].0@ != "config"@,
                decreases d@.len() - i,
            {
                if str_eq(d[i].0.as_str(), "config") {
                    assert(d@[i as int].0@ == "config"@);
                    assert(data_has(d@, "config"@));
                    proof {
                        lemma_data_at(d@, "config"@, i as int);
                    }
                    let encoded = d[i].1.as_slice();
                    proof {
                        assert(encoded@ == d@[i as int].1@);
                        assert(data_at(d@, "config"@) == d@[i as int].1@);
                    }
                    match base64_decode(encoded) {
                        Some(buf) => {
                            proof {
                                assert(base64_decode_of(data_at(d@, "config"@)) == Some(buf@));
                            }
                            return Ok(buf);
                        },
                        None => {
                            proof {
                                assert(base64_decode_of(data_at(d@, "config"@)) is None);
                            }
                            let err = OverrideError::Base64Decode(
                                namespace.to_owned(),
                                name.to_owned(),
                            );
                            return Err(err);
                        },
                    }
                }
                assert(d@[i as int].0@ != "config"@);
                i = i + 1;
            }
            proof {
                if data_has(d@, "config"@) {
                    let ix = choose|ix: int| 0 <= ix < d@.len() && d@[ix].0@ == "config"@;
                    assert(d@[ix].0@ == "config"@);
                }
            }
            Err(OverrideError::SecretKey(namespace.to_owned(), name.to_owned()))
        },
    }
}


// ---------------------------------------------------------------------------
// Endpoint paths

/// `{endpoint}/v2/organisations/{organisation}/addons`: the organisation's
/// add-on collection.
pub fn addons_path(endpoint: &str, organisation: &str) -> (r: String)
    ensures
        r@ == endpoint@ + "/v2/organisations/"@ + organisation@ + "/addons"@,
{
    endpoint.to_owned().concat("/v2/organisations/").concat(organisation).concat("/addons")
}

/// `{endpoint}/v2/organisations/{organisation}/addons/{id}`: one add-on.
pub fn addon_path(endpoint: &str, organisation: &str, id: &str) -> (r: String)
    ensures
        r@ == endpoint@ + "/v2/organisations/"@ + organisation@ + "/addons/"@ + id@,
{
    endpoint.to_owned().concat("/v2/organisations/").concat(organisation).concat(
        "/addons/",
    ).concat(id)
}

/// `{endpoint}/v2/organisations/{organisation}/addons/{id}/env`: an
/// add-on's environment.
pub fn addon_environment_path(endpoint: &str, organisation: &str, id: &str) -> (r: String)
    ensures
        r@ == endpoint@ + "/v2/organisations/"@ + organisation@ + "/addons/"@ + id@ + "/env"@,
{
    addon_path(endpoint, organisation, id).concat("/env")
}

/// `{endpoint}/v2/products/addonproviders/{provider}?orga_id={organisation}`:
/// a provider's plans, scoped to the organisation.
pub fn provider_plans_path(endpoint: &str, provider: &str, organisation: &str) -> (r: String)
    ensures
        r@ == endpoint@ + "/v2/products/addonproviders/"@ + provider@ + "?orga_id="@
            + organisation@,
{
    endpoint.to_owned().concat("/v2/products/addonproviders/").concat(provider).concat(
        "?orga_id=",
    ).concat(organisation)
}

/// `{endpoint}/v4/addon-providers/{provider}`: a provider's description.
pub fn addon_provider_path(endpoint: &str, provider: &str) -> (r: String)
    ensures
        r@ == endpoint@ + "/v4/addon-providers/"@ + provider@,
{
    endpoint.to_owned().concat("/v4/addon-providers/").concat(provider)
}

/// `{endpoint}/v4/addon-providers/config-provider/addons/{realId}/environment`:
/// a config provider's environment, under its `realId` alias.
pub fn config_provider_environment_path(endpoint: &str, real_id: &str) -> (r: String)
    ensures
        r@ == endpoint@ + "/v4/addon-providers/config-provider/addons/"@ + real_id@
            + "/environment"@,
{
    endpoint.to_owned().concat("/v4/addon-providers/config-provider/addons/").concat(
        real_id,
    ).concat("/environment")
}

} // verus!
