//! Decisions of the HTTP application around the routes: which origins CORS
//! lets in, what the health check reports, and where the server binds.

use vstd::prelude::*;

use crate::config::{CorsConfig, Environment, ServerConfig};
use crate::models::error::{AppError, AppRunError};
use crate::services::common::client_setup_error;
use crate::text::{concat2, concat4, decimal, owned, u64_to_decimal, views};

verus! {

/// A character that may stand in an HTTP header value: a tab, or anything
/// from the space upwards except DEL (characters beyond ASCII are encoded
/// as bytes from 0x80 up, which are allowed).
pub open spec fn header_value_char(c: char) -> bool {
    c == '\t' || (c as u32 >= 32 && c as u32 != 127)
}

/// Whether a string is a valid HTTP header value.
pub open spec fn header_value_spec(s: Seq<char>) -> bool {
    forall|i: int| 0 <= i < s.len() ==> header_value_char(#[trigger] s[i])
}

/// `HeaderValue::from_str(s).is_ok()` (the `http` crate, as re-exported by
/// `reqwest`): a string is accepted exactly when each of its bytes is a
/// tab or at least 32 and not 127.
#[verifier::external_body]
fn header_value_valid(s: &str) -> (r: bool)
    ensures
        r == header_value_spec(s@),
{
    reqwest::header::HeaderValue::from_str(s).is_ok()
}

/// The configured origins that are valid header values, in order.
pub open spec fn usable_origins(origins: Seq<Seq<char>>) -> Seq<Seq<char>>
    decreases origins.len(),
{
    if origins.len() == 0 {
        Seq::empty()
    } else {
        let rest = usable_origins(origins.drop_last());
        if header_value_spec(origins.last()) {
            rest.push(origins.last())
        } else {
            rest
        }
    }
}

/// The usable origins are exactly the configured ones that are valid
/// header values: each valid configured origin is among them, and each of
/// them is a valid header value that was configured.
pub proof fn usable_origins_are_the_valid_ones(origins: Seq<Seq<char>>)
    ensures
        forall|i: int|
            0 <= i < origins.len() && header_value_spec(#[trigger] origins[i])
                ==> usable_origins(origins).contains(origins[i]),
        forall|j: int|
            0 <= j < usable_origins(origins).len() ==> header_value_spec(
                #[trigger] usable_origins(origins)[j],
            ) && origins.contains(usable_origins(origins)[j]),
    decreases origins.len(),
{
    if origins.len() > 0 {
        let init = origins.drop_last();
        usable_origins_are_the_valid_ones(init);
        let rest = usable_origins(init);
        assert forall|i: int|
            0 <= i < origins.len() && header_value_spec(
                #[trigger] origins[i],
            ) implies usable_origins(origins).contains(origins[i]) by {
            if i < origins.len() - 1 {
                assert(init[i] == origins[i]);
                assert(rest.contains(init[i]));
                let k = choose|k: int| 0 <= k < rest.len() && rest[k] == init[i];
                if header_value_spec(origins.last()) {
                    assert(rest.push(origins.last())[k] == origins[i]);
                } else {
                    assert(rest[k] == origins[i]);
                }
            } else {
                assert(usable_origins(origins) == rest.push(origins.last()));
                assert(usable_origins(origins)[rest.len() as int] == origins[i]);
            }
        }
        assert forall|j: int| 0 <= j < usable_origins(origins).len() implies header_value_spec(
            #[trigger] usable_origins(origins)[j],
        ) && origins.contains(usable_origins(origins)[j]) by {
            if j < rest.len() {
                assert(usable_origins(origins)[j] == rest[j]);
                assert(header_value_spec(rest[j]) && init.contains(rest[j]));
                let k = choose|k: int| 0 <= k < init.len() && init[k] == rest[j];
                assert(origins[k] == init[k]);
            } else {
                assert(usable_origins(origins)[j] == origins.last());
                assert(origins[origins.len() - 1] == origins.last());
            }
        }
    }
}

/// Which origins cross-origin requests may come from.
pub enum AllowedOrigins {
    /// Any origin.
    Any,
    /// Exactly these origins.
    List(Vec<String>),
    /// No origin.
    Nothing,
}

/// The CORS rules of the API.
pub struct CorsPolicy {
    pub allowed: AllowedOrigins,
    pub allow_credentials: bool,
    pub methods: Vec<String>,
    pub headers: Vec<String>,
    pub max_age_secs: u64,
}

/// The methods that cross-origin requests may use.
pub open spec fn cors_methods() -> Seq<Seq<char>> {
    seq!["GET"@, "POST"@, "PUT"@, "DELETE"@, "OPTIONS"@, "PATCH"@]
}

/// The request headers that cross-origin requests may send.
pub open spec fn cors_headers() -> Seq<Seq<char>> {
    seq!["content-type"@, "authorization"@, "accept"@, "origin"@]
}

fn strings(items: &[&str]) -> (r: Vec<String>)
    ensures
        views(r@) == items@.map_values(|s: &str| s@),
{
    let mut out: Vec<String> = Vec::new();
    let n = items.len();
    for i in 0..n
        invariant
            n == items@.len(),
            out@.len() == i,
            views(out@) == items@.map_values(|s: &str| s@).take(i as int),
    {
        let ghost before = out@;
        out.push(owned(items[i]));
        assert(views(out@) =~= items@.map_values(|s: &str| s@).take(i + 1)) by {
            assert forall|j: int| 0 <= j < i implies #[trigger] views(out@)[j] == views(before)[j] by {
                assert(out@[j] == before[j]);
            }
        }
    }
    assert(items@.map_values(|s: &str| s@).take(n as int) =~= items@.map_values(|s: &str| s@));
    out
}

/// The CORS rules for the configured origins: the valid ones, with
/// credentials; when none is valid, any origin in development and none
/// elsewhere, without credentials. Credentials are never allowed together
/// with any origin.
pub fn cors_policy(cors: &CorsConfig, environment: Environment) -> (r: CorsPolicy)
    ensures
        ({
            let usable = usable_origins(views(cors.origins@));
            &&& usable.len() > 0 ==> (r.allowed matches AllowedOrigins::List(l) && views(l@) == usable)
            &&& usable.len() == 0 && environment == Environment::Development ==> r.allowed is Any
            &&& usable.len() == 0 && environment != Environment::Development ==> r.allowed is Nothing
            &&& r.allow_credentials == (usable.len() > 0)
        }),
        r.allow_credentials ==> r.allowed is List,
        forall|i: int|
            0 <= i < cors.origins@.len() && header_value_spec(#[trigger] views(cors.origins@)[i])
                ==> (r.allowed matches AllowedOrigins::List(l) && views(l@).contains(
                views(cors.origins@)[i],
            )),
        r.allowed matches AllowedOrigins::List(l) ==> forall|j: int|
            0 <= j < views(l@).len() ==> header_value_spec(#[trigger] views(l@)[j]) && views(
                cors.origins@,
            ).contains(views(l@)[j]),
        views(r.methods@) == cors_methods(),
        views(r.headers@) == cors_headers(),
        r.max_age_secs == 600,
{
    let mut origins: Vec<String> = Vec::new();
    let n = cors.origins.len();
    for i in 0..n
        invariant
            n == cors.origins@.len(),
            views(origins@) == usable_origins(views(cors.origins@).take(i as int)),
    {
        assert(views(cors.origins@).take(i + 1).drop_last() =~= views(cors.origins@).take(i as int));
        if header_value_valid(cors.origins[i].as_str()) {
            let ghost before = origins@;
            origins.push(owned(cors.origins[i].as_str()));
            assert(views(origins@) =~= views(before).push(cors.origins@[i as int]@));
        }
    }
    assert(views(cors.origins@).take(n as int) =~= views(cors.origins@));
    proof {
        usable_origins_are_the_valid_ones(views(cors.origins@));
    }
    let (allowed, allow_credentials) = if origins.len() == 0 {
        match environment {
            Environment::Development => (AllowedOrigins::Any, false),
            _ => (AllowedOrigins::Nothing, false),
        }
    } else {
        (AllowedOrigins::List(origins), true)
    };
    let methods = strings(&["GET", "POST", "PUT", "DELETE", "OPTIONS", "PATCH"]);
    let headers = strings(&["content-type", "authorization", "accept", "origin"]);
    assert(views(methods@) =~= cors_methods());
    assert(views(headers@) =~= cors_headers());
    CorsPolicy { allowed, allow_credentials, methods, headers, max_age_secs: 600 }
}

/// What the health check at `/` reports.
pub struct HealthReport {
    pub status: String,
    pub environment: String,
    pub version: String,
}

/// The health check: online, in the given environment, at the given
/// version.
pub fn health_report(environment: Environment, version: &str) -> (r: HealthReport)
    ensures
        r.status@ == "online"@,
        r.environment@ == environment.name(),
        r.version@ == version@,
{
    HealthReport {
        status: owned("online"),
        environment: environment.to_string(),
        version: owned(version),
    }
}

impl ServerConfig {
    /// The address the server binds: `host:port`.
    pub fn bind_address(&self) -> (r: String)
        ensures
            r@ == self.host@ + ":"@ + decimal(self.port as nat),
    {
        let port = u64_to_decimal(self.port as u64);
        let r = concat2(self.host.as_str(), ":");
        concat2(r.as_str(), port.as_str())
    }
}

/// The error of a bind address that does not parse as a socket address.
pub fn invalid_bind_address(address: &str, detail: &str) -> (r: AppRunError)
    ensures
        r matches AppRunError::Io(m) && m@ == "Invalid bind address '"@ + address@ + "': "@ + detail@,
{
    AppRunError::Io(concat4("Invalid bind address '", address, "': ", detail))
}

/// The error of an HTTP client that cannot be built.
pub fn http_client_init_error(detail: &str) -> (r: AppRunError)
    ensures
        r matches AppRunError::HttpClientInit(AppError::Configuration(m)) && m@
            == "Failed to create HTTP client: "@ + detail@,
{
    AppRunError::HttpClientInit(client_setup_error(detail))
}

} // verus!
