//! The worker's HTTP control API: the call envelope it accepts, the rule
//! deciding what its reply means, and the account-info call made once
//! login completes. Every field the logic reads out of a reply has a named
//! deterministic value, and the decisions are stated over those names.

use vstd::prelude::*;
use crate::net::http_post;
use crate::text::{
    spec_contains, spec_dec, spec_opt2_view, spec_opt_view, str_contains, str_eq, u64_to_dec,
};

verus! {

broadcast use vstd::string::group_string_axioms;

/// A client of one worker's control endpoint.
#[derive(Clone)]
pub struct PMHQClient {
    pub port: u16,
    pub timeout_ms: u64,
}

/// The account identity reported by the worker after login.
#[derive(Debug, Clone)]
pub struct SelfInfo {
    pub uin: String,
    pub nickname: String,
}

/// The worker's local control endpoint for a port.
pub open spec fn spec_base_url(port: u16) -> Seq<char> {
    "http://127.0.0.1:"@ + spec_dec(port as nat)
}

/// The call envelope for a worker function without arguments.
pub open spec fn spec_call_request(func: Seq<char>) -> Seq<char> {
    "{\"type\":\"call\",\"data\":{\"func\":\""@ + func + "\",\"args\":[]}}"@
}

/// Builds the call envelope for a worker function without arguments.
pub fn build_call_request(func: &str) -> (r: String)
    ensures
        r@ == spec_call_request(func@),
{
    let mut out = String::from_str("{\"type\":\"call\",\"data\":{\"func\":\"");
    out.append(func);
    out.append("\",\"args\":[]}}");
    out
}

/// The reply envelope's `type` field as text, when the reply parses as a
/// JSON object carrying one. A function of the reply text alone.
pub uninterp spec fn call_rsp_type_of(s: Seq<char>) -> Option<Seq<char>>;

/// Whether the reply envelope carries a `data` field at all.
pub uninterp spec fn call_has_data_of(s: Seq<char>) -> bool;

/// Whether the reply's inner document is available: the `data` field is
/// present, and when the worker sent it as text, that text parses again.
pub uninterp spec fn call_inner_ok_of(s: Seq<char>) -> bool;

/// The reply's `result` field, read out of the inner document: absent, or
/// present with its text when it is a string. A function of the reply text
/// alone.
pub uninterp spec fn call_result_text_of(s: Seq<char>) -> Option<Option<Seq<char>>>;

/// Relies on `serde_json::from_str`, `Value::get` and `Value::as_str`:
/// the deterministic `type`-field read of one reply text.
#[verifier::external_body]
fn read_call_type(resp: &str) -> (r: Option<String>)
    ensures
        spec_opt_view(r) == call_rsp_type_of(resp@),
{
    let doc: Option<serde_json::Value> = serde_json::from_str(resp).ok();
    doc.as_ref().and_then(|d| d.get("type")).and_then(|v| v.as_str()).map(str::to_owned)
}

/// Relies on `serde_json::from_str`, `Value::get`, `Value::as_str` and
/// `Value::clone`: the deterministic body reads of one reply text —
/// whether `data` is present, whether the inner document (the `data`
/// value, re-parsed when it is text) is available, and the `result` field
/// with its text when it is a string.
#[verifier::external_body]
fn read_call_body(resp: &str) -> (r: (bool, bool, Option<Option<String>>))
    ensures
        r.0 == call_has_data_of(resp@),
        r.1 == call_inner_ok_of(resp@),
        spec_opt2_view(r.2) == call_result_text_of(resp@),
{
    let doc: Option<serde_json::Value> = serde_json::from_str(resp).ok();
    let data = doc.as_ref().and_then(|d| d.get("data"));
    let inner: Option<serde_json::Value> = match data {
        Some(serde_json::Value::String(text)) => serde_json::from_str(text).ok(),
        Some(v) => Some(v.clone()),
        None => None,
    };
    let result = inner.as_ref().and_then(|v| v.get("result")).map(
        |v| v.as_str().map(str::to_owned),
    );
    (data.is_some(), inner.is_some(), result)
}

/// The reply envelope is well-formed for a call: typed `call`, with its
/// inner document available and a `result` field present.
pub open spec fn spec_call_envelope_ok(s: Seq<char>) -> bool {
    &&& call_rsp_type_of(s) == Some("call"@)
    &&& call_has_data_of(s)
    &&& call_inner_ok_of(s)
    &&& call_result_text_of(s) is Some
}

/// The worker reported a failure: the result is a string naming an error.
pub open spec fn spec_call_result_is_error(s: Seq<char>) -> bool {
    call_result_text_of(s) matches Some(rt) && rt matches Some(t) && spec_contains(t, "Error"@)
}

/// Accepts the transport outcome of a fire-and-forget post: anything
/// under the client-error range.
pub fn post_reply_accepted(status: u16) -> (r: bool)
    ensures
        r == (status < 400),
{
    status < 400
}

/// Checks one reply against the call protocol: the status must be
/// accepted, the envelope must be a `call` whose inner document is
/// available and carries a `result`, and a string result naming an error
/// is the worker's failure report, returned verbatim.
pub fn call_reply_check(status: u16, resp: &str) -> (r: Result<(), String>)
    ensures
        (r is Ok) == (status < 400 && spec_call_envelope_ok(resp@) && !spec_call_result_is_error(
            resp@,
        )),
        (status < 400 && spec_call_envelope_ok(resp@) && spec_call_result_is_error(resp@)) ==> (
        r matches Err(m) && call_result_text_of(resp@) matches Some(rt) && rt matches Some(t) && m@
            == t),
{
    if !post_reply_accepted(status) {
        return Err(String::from_str("request failed"));
    }
    let typ = read_call_type(resp);
    let (has_data, inner_ok, result_text) = read_call_body(resp);
    let typ_text = match typ {
        Some(t) => t,
        None => {
            return Err(String::from_str("response parse failed"));
        },
    };
    if !str_eq(typ_text.as_str(), "call") {
        return Err(String::from_str("unexpected response type"));
    }
    if !has_data {
        return Err(String::from_str("response parse failed"));
    }
    if !inner_ok {
        return Err(String::from_str("inner data parse failed"));
    }
    let result = match result_text {
        Some(rt) => rt,
        None => {
            return Err(String::from_str("response missing result field"));
        },
    };
    match result {
        Some(text) => {
            if str_contains(text.as_str(), "Error") {
                return Err(text);
            }
        },
        None => {},
    }
    Ok(())
}

/// One field of a reply's `result` object, through the same envelope
/// traversal as the call check: absent, or present with its text when it
/// is a string. A function of the reply text and the key alone.
pub uninterp spec fn result_field_text_of(s: Seq<char>, key: Seq<char>) -> Option<
    Option<Seq<char>>,
>;

/// One field of a reply's `result` object as an unsigned number.
pub uninterp spec fn result_field_u64_of(s: Seq<char>, key: Seq<char>) -> Option<u64>;

/// Relies on `serde_json::from_str`, `Value::get`, `Value::as_str` and
/// `Value::clone`: the deterministic read of one `result`-object field of
/// one reply text, with its text when it is a string.
#[verifier::external_body]
fn read_result_field_text(resp: &str, key: &str) -> (r: Option<Option<String>>)
    ensures
        spec_opt2_view(r) == result_field_text_of(resp@, key@),
{
    let doc: Option<serde_json::Value> = serde_json::from_str(resp).ok();
    let data = doc.as_ref().and_then(|d| d.get("data"));
    let inner: Option<serde_json::Value> = match data {
        Some(serde_json::Value::String(text)) => serde_json::from_str(text).ok(),
        Some(v) => Some(v.clone()),
        None => None,
    };
    let result = inner.as_ref().and_then(|v| v.get("result"));
    result.and_then(|v| v.get(key)).map(|v| v.as_str().map(str::to_owned))
}

/// Relies on `serde_json::from_str`, `Value::get`, `Value::as_u64` and
/// `Value::clone`: the deterministic read of one `result`-object field of
/// one reply text as an unsigned number.
#[verifier::external_body]
fn read_result_field_u64(resp: &str, key: &str) -> (r: Option<u64>)
    ensures
        r == result_field_u64_of(resp@, key@),
{
    let doc: Option<serde_json::Value> = serde_json::from_str(resp).ok();
    let data = doc.as_ref().and_then(|d| d.get("data"));
    let inner: Option<serde_json::Value> = match data {
        Some(serde_json::Value::String(text)) => serde_json::from_str(text).ok(),
        Some(v) => Some(v.clone()),
        None => None,
    };
    let result = inner.as_ref().and_then(|v| v.get("result"));
    result.and_then(|v| v.get(key)).and_then(|v| v.as_u64())
}

/// The text of a present-and-textual field read.
pub open spec fn spec_field_text(o: Option<Option<Seq<char>>>) -> Option<Seq<char>> {
    match o {
        Some(Some(t)) => Some(t),
        _ => None,
    }
}

/// The nickname a reply reports: the `nickName` field when present, else
/// the `nickname` field; empty when the chosen field is absent or not
/// text.
pub open spec fn spec_reply_nickname(s: Seq<char>) -> Seq<char> {
    match result_field_text_of(s, "nickName"@) {
        Some(Some(t)) => t,
        Some(None) => Seq::empty(),
        None => match result_field_text_of(s, "nickname"@) {
            Some(Some(t)) => t,
            _ => Seq::empty(),
        },
    }
}

/// The nickname a fetched account reports: the text when one was sent,
/// empty otherwise.
pub open spec fn spec_nickname_of(nickname_text: Option<String>) -> Seq<char> {
    match nickname_text {
        Some(s) => s@,
        None => Seq::empty(),
    }
}

proof fn lemma_spec_dec_len(n: nat)
    ensures
        spec_dec(n).len() >= 1,
    decreases n,
{
    if n >= 10 {
        lemma_spec_dec_len(n / 10);
    }
}

/// The account identity read from the fields of a `getSelfInfo` answer:
/// the identifier is the `uin` field's text, or its decimal rendering when
/// the worker sent a number; a missing or empty identifier is a hard
/// error. The nickname is never required.
pub fn self_info_from_fields(
    uin_text: Option<String>,
    uin_number: Option<u64>,
    nickname_text: Option<String>,
) -> (r: Result<SelfInfo, String>)
    ensures
        uin_text matches Some(u) ==> {
            &&& (u@.len() > 0 ==> (r matches Ok(si) && si.uin@ == u@ && si.nickname@
                == spec_nickname_of(nickname_text)))
            &&& (u@.len() == 0 ==> r is Err)
        },
        uin_text is None ==> (uin_number matches Some(n) ==> (r matches Ok(si) && si.uin@
            == spec_dec(n as nat) && si.nickname@ == spec_nickname_of(nickname_text))),
        uin_text is None && uin_number is None ==> r is Err,
        r matches Ok(si) ==> si.uin@.len() > 0,
{
    let uin: String = match uin_text {
        Some(u) => u,
        None => {
            match uin_number {
                Some(n) => {
                    proof {
                        lemma_spec_dec_len(n as nat);
                    }
                    u64_to_dec(n)
                },
                None => String::new(),
            }
        },
    };
    if uin.as_str().is_empty() {
        return Err(String::from_str("the worker reported no account identifier"));
    }
    let nickname: String = match nickname_text {
        Some(s) => s,
        None => String::new(),
    };
    Ok(SelfInfo { uin, nickname })
}

/// The account identity read out of one validated reply text: `Ok`
/// exactly when the reply names an identifier (as nonempty text, or as a
/// number, whose decimal rendering is never empty), with the nickname
/// from either of its two field names or empty.
pub fn self_info_from_reply(resp: &str) -> (r: Result<SelfInfo, String>)
    ensures
        spec_field_text(result_field_text_of(resp@, "uin"@)) matches Some(u) ==> {
            &&& (u.len() > 0 ==> (r matches Ok(si) && si.uin@ == u && si.nickname@
                == spec_reply_nickname(resp@)))
            &&& (u.len() == 0 ==> r is Err)
        },
        spec_field_text(result_field_text_of(resp@, "uin"@)) is None ==> (result_field_u64_of(
            resp@,
            "uin"@,
        ) matches Some(n) ==> (r matches Ok(si) && si.uin@ == spec_dec(n as nat) && si.nickname@
            == spec_reply_nickname(resp@))),
        spec_field_text(result_field_text_of(resp@, "uin"@)) is None && result_field_u64_of(
            resp@,
            "uin"@,
        ) is None ==> r is Err,
        r matches Ok(si) ==> si.uin@.len() > 0,
{
    let uin_field = read_result_field_text(resp, "uin");
    let uin_text: Option<String> = match uin_field {
        Some(inner) => inner,
        None => None,
    };
    let uin_number = read_result_field_u64(resp, "uin");
    let nick_primary = read_result_field_text(resp, "nickName");
    let nick_fallback = read_result_field_text(resp, "nickname");
    let nickname_text: Option<String> = match nick_primary {
        Some(inner) => inner,
        None => {
            match nick_fallback {
                Some(inner) => inner,
                None => None,
            }
        },
    };
    proof {
        assert(spec_opt_view(nickname_text) is Some || spec_opt_view(nickname_text) is None);
        assert(spec_nickname_of(nickname_text) == spec_reply_nickname(resp@));
        assert(spec_opt_view(uin_text) == spec_field_text(result_field_text_of(resp@, "uin"@)));
    }
    self_info_from_fields(uin_text, uin_number, nickname_text)
}

impl PMHQClient {
    /// A client of the worker listening on `port`, with the default call
    /// timeout.
    pub fn new(port: u16) -> (r: Self)
        ensures
            r.port == port,
            r.timeout_ms == 5000,
    {
        PMHQClient { port, timeout_ms: 5000 }
    }

    /// The same client with another call timeout.
    pub fn with_timeout(self, timeout_ms: u64) -> (r: Self)
        ensures
            r.port == self.port,
            r.timeout_ms == timeout_ms,
    {
        PMHQClient { port: self.port, timeout_ms }
    }

    /// The URL of the worker's control endpoint.
    pub fn base_url(&self) -> (r: String)
        ensures
            r@ == spec_base_url(self.port),
    {
        let mut u = String::from_str("http://127.0.0.1:");
        let p = u64_to_dec(self.port as u64);
        u.append(p.as_str());
        u
    }

    /// One call of a worker function: posts the call envelope and holds
    /// the reply to `call_reply_check`. What comes back over the wire is
    /// the worker's; but a text this returns as `Ok` always passed the
    /// whole check: a `call`-typed envelope, an available inner document,
    /// and a `result` that is no error report.
    pub(crate) fn call(&self, func: &str) -> (r: Result<String, String>)
        ensures
            r matches Ok(text) ==> spec_call_envelope_ok(text@) && !spec_call_result_is_error(
                text@,
            ),
    {
        let body = build_call_request(func);
        let url = self.base_url();
        let (status, resp) = match http_post(
            url.as_str(),
            self.timeout_ms,
            "Content-Type",
            "application/json",
            body.as_str(),
        ) {
            Ok(p) => p,
            Err(e) => {
                let mut msg = String::from_str("request failed: ");
                msg.append(e.as_str());
                return Err(msg);
            },
        };
        match call_reply_check(status, resp.as_str()) {
            Ok(()) => Ok(resp),
            Err(m) => Err(m),
        }
    }

    /// Fetches the logged-in account's identity: one `getSelfInfo` call,
    /// its validated reply read by `self_info_from_reply`. Whatever the
    /// worker sent, a fetched identity never has an empty identifier: its
    /// absence is this call's hard error.
    pub fn get_self_info(&self) -> (r: Result<SelfInfo, String>)
        ensures
            r matches Ok(si) ==> si.uin@.len() > 0,
    {
        match self.call("getSelfInfo") {
            Ok(text) => self_info_from_reply(text.as_str()),
            Err(e) => Err(e),
        }
    }

    /// Asks the worker to issue a fresh login QR code, without reading an
    /// answer beyond the transport outcome: the reply is accepted exactly
    /// when `post_reply_accepted` takes its status, and failures are the
    /// caller's to retry.
    pub fn request_qrcode(&self) -> (r: Result<(), String>) {
        let body = build_call_request("loginService.getQRCodePicture");
        let url = self.base_url();
        match http_post(
            url.as_str(),
            self.timeout_ms,
            "Content-Type",
            "application/json",
            body.as_str(),
        ) {
            Ok((status, _)) => {
                if post_reply_accepted(status) {
                    Ok(())
                } else {
                    Err(String::from_str("qrcode request failed"))
                }
            },
            Err(e) => {
                let mut msg = String::from_str("qrcode request failed: ");
                msg.append(e.as_str());
                Err(msg)
            },
        }
    }
}

} // verus!
