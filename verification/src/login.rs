//! The login session monitor: classification of the worker's push-stream
//! events and the state machine they drive. The fields a stream record
//! carries have named deterministic values, the classification is stated
//! over them, and the logged-in state is terminal — no event sequence
//! leaves it.

use vstd::prelude::*;
use crate::text::{spec_opt_ref_view, spec_opt_view, spec_starts_with, str_eq, str_starts_with};

verus! {

broadcast use vstd::string::group_string_axioms;

/// Where the login session stands.
#[derive(Clone, Copy, PartialEq, Eq, Structural, Debug)]
pub enum LoginState {
    AwaitingStream,
    QRCodeIssued,
    LoggedIn,
}

/// What one push-stream record means to the monitor.
#[derive(Debug, Clone)]
pub enum SseEvent {
    /// A login QR code is ready: its URL, and its raster image as base64
    /// text (empty when the worker sent none — terminal rendering only).
    QrCode { url: String, png: String },
    /// The worker's session finished initializing.
    SessionComplete,
    /// The worker's account is ready.
    AccountReady,
    /// Anything else on the stream.
    Irrelevant,
}

/// The record's `type` field as text, when the record parses as a JSON
/// object carrying one. A function of the record text alone.
pub uninterp spec fn sse_type_of(s: Seq<char>) -> Option<Seq<char>>;

/// The record's `data.sub_type` field as text.
pub uninterp spec fn sse_sub_type_of(s: Seq<char>) -> Option<Seq<char>>;

/// The record's `data.data.qrcodeUrl` field as text.
pub uninterp spec fn sse_qr_url_of(s: Seq<char>) -> Option<Seq<char>>;

/// The record's `data.data.pngBase64QrcodeData` field as text.
pub uninterp spec fn sse_qr_png_of(s: Seq<char>) -> Option<Seq<char>>;

/// Relies on `serde_json::from_str`, `Value::get` and `Value::as_str`:
/// the deterministic header reads of one stream record — its `type` and
/// its `data.sub_type`.
#[verifier::external_body]
fn read_sse_header(s: &str) -> (r: (Option<String>, Option<String>))
    ensures
        spec_opt_view(r.0) == sse_type_of(s@),
        spec_opt_view(r.1) == sse_sub_type_of(s@),
{
    let doc: Option<serde_json::Value> = serde_json::from_str(s).ok();
    let typ = doc.as_ref().and_then(|d| d.get("type")).and_then(|v| v.as_str()).map(str::to_owned);
    let data = doc.as_ref().and_then(|d| d.get("data"));
    let sub = data.and_then(|d| d.get("sub_type")).and_then(|v| v.as_str()).map(str::to_owned);
    (typ, sub)
}

/// Relies on `serde_json::from_str`, `Value::get` and `Value::as_str`:
/// the deterministic QR reads of one stream record — the URL and image
/// under `data.data`.
#[verifier::external_body]
fn read_sse_qr(s: &str) -> (r: (Option<String>, Option<String>))
    ensures
        spec_opt_view(r.0) == sse_qr_url_of(s@),
        spec_opt_view(r.1) == sse_qr_png_of(s@),
{
    let doc: Option<serde_json::Value> = serde_json::from_str(s).ok();
    let holder = doc.as_ref().and_then(|d| d.get("data")).and_then(|d| d.get("data"));
    let url = holder.and_then(|h| h.get("qrcodeUrl")).and_then(|v| v.as_str()).map(str::to_owned);
    let png = holder.and_then(|h| h.get("pngBase64QrcodeData")).and_then(|v| v.as_str()).map(
        str::to_owned,
    );
    (url, png)
}

/// The record announces a ready QR code with a usable URL.
pub open spec fn spec_is_qr_event(
    event_type: Option<Seq<char>>,
    sub_type: Option<Seq<char>>,
    qr_url: Option<Seq<char>>,
) -> bool {
    &&& event_type == Some("nodeIKernelLoginListener"@)
    &&& sub_type == Some("onQRCodeGetPicture"@)
    &&& qr_url matches Some(u) && u.len() > 0
}

/// The record announces a completed session initialization.
pub open spec fn spec_is_session_event(
    event_type: Option<Seq<char>>,
    sub_type: Option<Seq<char>>,
) -> bool {
    &&& event_type == Some("nodeIQQNTWrapperSessionListener"@)
    &&& sub_type == Some("onSessionInitComplete"@)
}

/// The record announces a ready account.
pub open spec fn spec_is_account_event(event_type: Option<Seq<char>>) -> bool {
    event_type == Some("account_ready"@)
}

/// The base64 text of the QR image field, empty when none was sent.
pub open spec fn spec_png_text(qr_png: Option<Seq<char>>) -> Seq<char> {
    match qr_png {
        Some(p) => p,
        None => Seq::empty(),
    }
}

/// Classifies one push-stream record from its extracted fields. A QR
/// record without a URL reports nothing; a QR record without an image
/// carries the empty image text.
pub fn classify_sse(
    event_type: Option<&str>,
    sub_type: Option<&str>,
    qr_url: Option<&str>,
    qr_png: Option<&str>,
) -> (r: SseEvent)
    ensures
        (r is QrCode) == spec_is_qr_event(
            spec_opt_ref_view(event_type),
            spec_opt_ref_view(sub_type),
            spec_opt_ref_view(qr_url),
        ),
        r matches SseEvent::QrCode { url, png } ==> (spec_opt_ref_view(qr_url) == Some(url@)
            && png@ == spec_png_text(spec_opt_ref_view(qr_png))),
        (r is SessionComplete) == spec_is_session_event(
            spec_opt_ref_view(event_type),
            spec_opt_ref_view(sub_type),
        ),
        (r is AccountReady) == spec_is_account_event(spec_opt_ref_view(event_type)),
        (r is Irrelevant) == (!spec_is_qr_event(
            spec_opt_ref_view(event_type),
            spec_opt_ref_view(sub_type),
            spec_opt_ref_view(qr_url),
        ) && !spec_is_session_event(spec_opt_ref_view(event_type), spec_opt_ref_view(sub_type))
            && !spec_is_account_event(spec_opt_ref_view(event_type))),
{
    proof {
        reveal_strlit("nodeIKernelLoginListener");
        reveal_strlit("nodeIQQNTWrapperSessionListener");
        reveal_strlit("account_ready");
        assert("nodeIKernelLoginListener"@.len() == 24);
        assert("nodeIQQNTWrapperSessionListener"@.len() == 31);
        assert("account_ready"@.len() == 13);
    }
    let typ: &str = match event_type {
        Some(t) => t,
        None => {
            return SseEvent::Irrelevant;
        },
    };
    if str_eq(typ, "nodeIKernelLoginListener") {
        let st = match sub_type {
            Some(st) => st,
            None => {
                return SseEvent::Irrelevant;
            },
        };
        if !str_eq(st, "onQRCodeGetPicture") {
            return SseEvent::Irrelevant;
        }
        let url = match qr_url {
            Some(u) => u,
            None => {
                return SseEvent::Irrelevant;
            },
        };
        if url.is_empty() {
            return SseEvent::Irrelevant;
        }
        let png: String = match qr_png {
            Some(p) => p.to_owned(),
            None => String::new(),
        };
        SseEvent::QrCode { url: url.to_owned(), png }
    } else if str_eq(typ, "nodeIQQNTWrapperSessionListener") {
        let st = match sub_type {
            Some(st) => st,
            None => {
                return SseEvent::Irrelevant;
            },
        };
        if str_eq(st, "onSessionInitComplete") {
            SseEvent::SessionComplete
        } else {
            SseEvent::Irrelevant
        }
    } else if str_eq(typ, "account_ready") {
        SseEvent::AccountReady
    } else {
        SseEvent::Irrelevant
    }
}

/// Reads one line of the push stream: only a `data: ` frame carries a
/// record, and the record's classification is fixed by its named fields —
/// a QR announcement with a usable URL, a session completion, a ready
/// account, or nothing.
pub fn parse_sse_line(line: &str) -> (r: SseEvent)
    ensures
        !spec_starts_with(line@, "data: "@) ==> r is Irrelevant,
        spec_starts_with(line@, "data: "@) ==> ({
            let payload = line@.skip("data: "@.len() as int);
            &&& (r is QrCode) == spec_is_qr_event(
                sse_type_of(payload),
                sse_sub_type_of(payload),
                sse_qr_url_of(payload),
            )
            &&& (r matches SseEvent::QrCode { url, png } ==> (sse_qr_url_of(payload) == Some(url@)
                && png@ == spec_png_text(sse_qr_png_of(payload))))
            &&& (r is SessionComplete) == spec_is_session_event(
                sse_type_of(payload),
                sse_sub_type_of(payload),
            )
            &&& (r is AccountReady) == spec_is_account_event(sse_type_of(payload))
            &&& (r is Irrelevant) == (!spec_is_qr_event(
                sse_type_of(payload),
                sse_sub_type_of(payload),
                sse_qr_url_of(payload),
            ) && !spec_is_session_event(sse_type_of(payload), sse_sub_type_of(payload))
                && !spec_is_account_event(sse_type_of(payload)))
        }),
{
    proof {
        reveal_strlit("data: ");
    }
    if !str_starts_with(line, "data: ") {
        return SseEvent::Irrelevant;
    }
    let n = line.unicode_len();
    let json_str = line.substring_char(6, n);
    proof {
        assert(json_str@ =~= line@.skip("data: "@.len() as int));
    }
    let (typ, sub) = read_sse_header(json_str);
    let (url, png) = read_sse_qr(json_str);
    let typ_ref: Option<&str> = match &typ {
        Some(t) => Some(t.as_str()),
        None => None,
    };
    let sub_ref: Option<&str> = match &sub {
        Some(t) => Some(t.as_str()),
        None => None,
    };
    let url_ref: Option<&str> = match &url {
        Some(t) => Some(t.as_str()),
        None => None,
    };
    let png_ref: Option<&str> = match &png {
        Some(t) => Some(t.as_str()),
        None => None,
    };
    proof {
        assert(spec_opt_ref_view(typ_ref) == sse_type_of(json_str@));
        assert(spec_opt_ref_view(sub_ref) == sse_sub_type_of(json_str@));
        assert(spec_opt_ref_view(url_ref) == sse_qr_url_of(json_str@));
        assert(spec_opt_ref_view(png_ref) == sse_qr_png_of(json_str@));
    }
    classify_sse(typ_ref, sub_ref, url_ref, png_ref)
}

/// The state after one event: session-completion and account-readiness
/// log in, a QR code marks one issued, and the logged-in state absorbs
/// everything.
pub open spec fn spec_login_step(s: LoginState, e: SseEvent) -> LoginState {
    match s {
        LoginState::LoggedIn => LoginState::LoggedIn,
        _ => match e {
            SseEvent::SessionComplete => LoginState::LoggedIn,
            SseEvent::AccountReady => LoginState::LoggedIn,
            SseEvent::QrCode { .. } => LoginState::QRCodeIssued,
            SseEvent::Irrelevant => s,
        },
    }
}

/// The state after a whole event sequence.
pub open spec fn spec_login_run(s: LoginState, es: Seq<SseEvent>) -> LoginState
    decreases es.len(),
{
    if es.len() == 0 {
        s
    } else {
        spec_login_run(spec_login_step(s, es[0]), es.drop_first())
    }
}

/// Law: the logged-in state is terminal under one step — no event moves
/// a logged-in session anywhere else.
pub proof fn lemma_logged_in_monotonic(s: LoginState, e: SseEvent)
    ensures
        s is LoggedIn ==> spec_login_step(s, e) is LoggedIn,
{
}

/// Law: the logged-in state, once reached, is kept by every later event
/// sequence — the flag is never observed false again.
pub proof fn lemma_logged_in_stays(es: Seq<SseEvent>)
    ensures
        spec_login_run(LoginState::LoggedIn, es) is LoggedIn,
    decreases es.len(),
{
    if es.len() > 0 {
        lemma_logged_in_stays(es.drop_first());
    }
}

/// The monitor's session state, shared by the refresh loop, the stream
/// listener and the reporter; it moves only through `on_event`, so it can
/// only advance.
pub struct LoginSession {
    pub state: LoginState,
}

impl LoginSession {
    /// A fresh session, awaiting the stream.
    pub fn new() -> (r: Self)
        ensures
            r.state == LoginState::AwaitingStream,
    {
        LoginSession { state: LoginState::AwaitingStream }
    }

    /// Drives the session by one classified event.
    pub fn on_event(&mut self, e: &SseEvent)
        ensures
            final(self).state == spec_login_step(old(self).state, *e),
    {
        match self.state {
            LoginState::LoggedIn => {},
            _ => {
                match e {
                    SseEvent::SessionComplete => {
                        self.state = LoginState::LoggedIn;
                    },
                    SseEvent::AccountReady => {
                        self.state = LoginState::LoggedIn;
                    },
                    SseEvent::QrCode { .. } => {
                        self.state = LoginState::QRCodeIssued;
                    },
                    SseEvent::Irrelevant => {},
                }
            },
        }
    }

    /// Whether login has completed.
    pub fn logged_in(&self) -> (r: bool)
        ensures
            r == (self.state is LoggedIn),
    {
        match self.state {
            LoginState::LoggedIn => true,
            _ => false,
        }
    }

    /// The refresh loop asks for a fresh QR code exactly while login has
    /// not completed.
    pub fn should_request_qrcode(&self) -> (r: bool)
        ensures
            r == !(self.state is LoggedIn),
    {
        !self.logged_in()
    }
}

} // verus!
