//! Trusted wrappers around the HTTP client. Nothing is promised of what
//! the network returns: callers state what holds of every outcome.

use vstd::prelude::*;

verus! {

/// Relies on `ureq::get(..).timeout(..).call()` and
/// `Response::into_string`: one bounded HTTP GET. A reply gives the status
/// code and body text; a transport failure or an unreadable body gives its
/// description instead.
#[verifier::external_body]
pub(crate) fn http_get(url: &str, timeout_ms: u64) -> (r: Result<(u16, String), String>) {
    let resp = match ureq::get(url).timeout(core::time::Duration::from_millis(timeout_ms)).call() {
        Ok(resp) => resp,
        Err(ureq::Error::Status(_, resp)) => resp,
        Err(e) => return Err(e.to_string()),
    };
    let status = resp.status();
    match resp.into_string() {
        Ok(body) => Ok((status, body)),
        Err(e) => Err(e.to_string()),
    }
}

/// Relies on `ureq::post(..).timeout(..).set(..).send_string(..)` and
/// `Response::into_string`: one bounded HTTP POST carrying `body` under the
/// one given header. A reply gives the status code and body text; a
/// transport failure or an unreadable body gives its description instead.
#[verifier::external_body]
pub(crate) fn http_post(
    url: &str,
    timeout_ms: u64,
    header_name: &str,
    header_value: &str,
    body: &str,
) -> (r: Result<(u16, String), String>) {
    let req = ureq::post(url).timeout(core::time::Duration::from_millis(timeout_ms)).set(
        header_name,
        header_value,
    );
    let resp = match req.send_string(body) {
        Ok(resp) => resp,
        Err(ureq::Error::Status(_, resp)) => resp,
        Err(e) => return Err(e.to_string()),
    };
    let status = resp.status();
    match resp.into_string() {
        Ok(text) => Ok((status, text)),
        Err(e) => Err(e.to_string()),
    }
}

} // verus!
