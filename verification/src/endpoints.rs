//! The well-known endpoints of the supervised backend.
//!
//! Every network exchange of the supervisor goes to one of three places on
//! the local host: the backend's root, its readiness endpoint, and its
//! shutdown endpoint. The URLs are built here, with the port printed in
//! decimal.

use vstd::prelude::*;

use crate::text::decimal_seq;
use crate::text::format_u64;

verus! {

/// The base URL of the backend listening on `port`.
pub open spec fn backend_url_seq(port: int) -> Seq<char> {
    "http://localhost:"@ + decimal_seq(port)
}

/// The URL of the backend server: the service URL when attached to an
/// external service, otherwise the self-managed backend's URL — the caller
/// passes the port the supervisor settled on.
pub fn get_backend_url(port: u16) -> (r: String)
    ensures
        r@ == backend_url_seq(port as int),
{
    let mut url = String::from_str("http://localhost:");
    let digits = format_u64(port as u64);
    url.append(digits.as_str());
    url
}

/// The readiness endpoint: success means the backend is ready; it is
/// idempotent and free of side effects, callable arbitrarily often.
pub fn health_url(port: u16) -> (r: String)
    ensures
        r@ == backend_url_seq(port as int) + "/healthcheck"@,
{
    let mut url = get_backend_url(port);
    url.append("/healthcheck");
    url
}

/// The shutdown endpoint: a request here asks the backend to begin graceful
/// termination; it may or may not answer before exiting.
pub fn shutdown_url(port: u16) -> (r: String)
    ensures
        r@ == backend_url_seq(port as int) + "/api/shutdown"@,
{
    let mut url = get_backend_url(port);
    url.append("/api/shutdown");
    url
}

} // verus!
