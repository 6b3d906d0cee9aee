//! The health and metrics server's routing decision.

use vstd::prelude::*;

use crate::text::str_eq;

verus! {

/// Where a request path leads.
#[derive(PartialEq, Eq, Clone, Copy, Debug)]
pub enum RouteKind {
    /// `/healthz`, `/livez`, `/readyz` and `/status` report liveness.
    Health,
    /// `/metrics` serves the counters.
    Metrics,
    /// Everything else is not found.
    NotFound,
}

/// Sorts a request path to its handler.
pub fn route(path: &str) -> (r: RouteKind)
    ensures
        r is Health <==> (path@ == "/healthz"@ || path@ == "/livez"@ || path@ == "/readyz"@
            || path@ == "/status"@),
        r is Metrics <==> path@ == "/metrics"@,
{
    proof {
        reveal_strlit("/healthz");
        reveal_strlit("/livez");
        reveal_strlit("/readyz");
        reveal_strlit("/status");
        reveal_strlit("/metrics");
        assert("/healthz"@.len() == 8);
        assert("/livez"@.len() == 6);
        assert("/readyz"@.len() == 7);
        assert("/status"@.len() == 7);
        assert("/metrics"@.len() == 8);
        assert("/healthz"@[1] == 'h');
        assert("/metrics"@[1] == 'm');
        assert("/readyz"@[1] == 'r');
        assert("/status"@[1] == 's');
    }
    if str_eq(path, "/healthz") || str_eq(path, "/livez") || str_eq(path, "/readyz") || str_eq(
        path,
        "/status",
    ) {
        RouteKind::Health
    } else if str_eq(path, "/metrics") {
        RouteKind::Metrics
    } else {
        RouteKind::NotFound
    }
}

/// The status code a route answers with.
pub fn status_code(r: RouteKind) -> (c: u16)
    ensures
        (r is Health ==> c == 200),
        (r is Metrics ==> c == 200),
        (r is NotFound ==> c == 404),
{
    match r {
        RouteKind::Health => 200,
        RouteKind::Metrics => 200,
        RouteKind::NotFound => 404,
    }
}

/// The delay before a failed reconciliation is retried, in milliseconds.
pub fn retry_delay_ms() -> (r: u64)
    ensures
        r == 500,
{
    500
}

} // verus!
