use llbot_cli::client::{
    build_call_request, call_reply_check, post_reply_accepted, self_info_from_fields,
    self_info_from_reply, PMHQClient,
};
use llbot_cli::login::{classify_sse, parse_sse_line, LoginSession, LoginState, SseEvent};

#[test]
fn client_holds_port_and_default_timeout() {
    let c = PMHQClient::new(13000);
    assert_eq!(c.port, 13000);
    assert_eq!(c.timeout_ms, 5000);
}

#[test]
fn client_timeout_can_be_replaced() {
    let c = PMHQClient::new(13000).with_timeout(10000);
    assert_eq!(c.port, 13000);
    assert_eq!(c.timeout_ms, 10000);
}

#[test]
fn base_url_names_the_local_port() {
    assert_eq!(PMHQClient::new(13000).base_url(), "http://127.0.0.1:13000");
    assert_eq!(PMHQClient::new(80).base_url(), "http://127.0.0.1:80");
}

#[test]
fn call_request_envelope_shape() {
    assert_eq!(
        build_call_request("getSelfInfo"),
        "{\"type\":\"call\",\"data\":{\"func\":\"getSelfInfo\",\"args\":[]}}"
    );
}

#[test]
fn reply_check_accepts_a_well_formed_call_reply() {
    assert!(call_reply_check(200, "{\"type\":\"call\",\"data\":{\"result\":\"done\"}}").is_ok());
    // a non-string result is fine too
    assert!(call_reply_check(200, "{\"type\":\"call\",\"data\":{\"result\":{\"uin\":1}}}").is_ok());
}

#[test]
fn reply_check_reparses_text_data() {
    // the worker may send `data` as a JSON string needing a second parse
    let reply = "{\"type\":\"call\",\"data\":\"{\\\"result\\\":5}\"}";
    assert!(call_reply_check(200, reply).is_ok());
    let broken = "{\"type\":\"call\",\"data\":\"not json\"}";
    assert!(call_reply_check(200, broken).is_err());
}

#[test]
fn reply_check_refuses_bad_envelopes() {
    assert!(call_reply_check(500, "{\"type\":\"call\",\"data\":{\"result\":1}}").is_err());
    assert!(call_reply_check(200, "not json").is_err());
    assert!(call_reply_check(200, "{\"type\":\"event\",\"data\":{\"result\":1}}").is_err());
    assert!(call_reply_check(200, "{\"type\":\"call\"}").is_err());
    assert!(call_reply_check(200, "{\"type\":\"call\",\"data\":{}}").is_err());
}

#[test]
fn reply_check_returns_the_error_report_verbatim() {
    let reply = "{\"type\":\"call\",\"data\":{\"result\":\"Error: no session\"}}";
    assert_eq!(call_reply_check(200, reply).unwrap_err(), "Error: no session");
    // the rule is a substring match, anywhere in the text
    let mid = "{\"type\":\"call\",\"data\":{\"result\":\"an Error happened\"}}";
    assert_eq!(call_reply_check(200, mid).unwrap_err(), "an Error happened");
}

#[test]
fn post_acceptance_boundary() {
    assert!(post_reply_accepted(200));
    assert!(post_reply_accepted(399));
    assert!(!post_reply_accepted(400));
    assert!(!post_reply_accepted(500));
}

#[test]
fn account_identity_from_a_reply() {
    let reply = "{\"type\":\"call\",\"data\":{\"result\":{\"uin\":\"123\",\"nickName\":\"nick\"}}}";
    let si = self_info_from_reply(reply).unwrap();
    assert_eq!(si.uin, "123");
    assert_eq!(si.nickname, "nick");
}

#[test]
fn account_identity_from_a_numeric_uin() {
    let reply = "{\"type\":\"call\",\"data\":{\"result\":{\"uin\":456,\"nickname\":\"other\"}}}";
    let si = self_info_from_reply(reply).unwrap();
    assert_eq!(si.uin, "456");
    assert_eq!(si.nickname, "other");
}

#[test]
fn account_identity_through_text_data() {
    // the inner document arrives as text and is parsed a second time
    let reply = "{\"type\":\"call\",\"data\":\"{\\\"result\\\":{\\\"uin\\\":\\\"9\\\"}}\"}";
    let si = self_info_from_reply(reply).unwrap();
    assert_eq!(si.uin, "9");
    assert_eq!(si.nickname, "");
}

#[test]
fn account_identity_requires_an_identifier() {
    assert!(self_info_from_reply("{\"type\":\"call\",\"data\":{\"result\":{}}}").is_err());
    assert!(self_info_from_reply("{\"type\":\"call\",\"data\":{\"result\":{\"uin\":\"\"}}}").is_err());
}

#[test]
fn nickname_primary_key_wins_even_without_text() {
    // a present non-text nickName blocks the fallback key, reading as empty
    let reply = "{\"type\":\"call\",\"data\":{\"result\":{\"uin\":\"1\",\"nickName\":5,\"nickname\":\"x\"}}}";
    let si = self_info_from_reply(reply).unwrap();
    assert_eq!(si.nickname, "");
}

#[test]
fn self_info_prefers_text_identifier() {
    let si = self_info_from_fields(Some("123".to_string()), Some(456), Some("nick".to_string()));
    let si = si.unwrap();
    assert_eq!(si.uin, "123");
    assert_eq!(si.nickname, "nick");
}

#[test]
fn self_info_renders_numeric_identifier() {
    let si = self_info_from_fields(None, Some(456), None).unwrap();
    assert_eq!(si.uin, "456");
    assert_eq!(si.nickname, "");
}

#[test]
fn self_info_missing_identifier_is_an_error() {
    assert!(self_info_from_fields(None, None, Some("nick".to_string())).is_err());
    assert!(self_info_from_fields(Some("".to_string()), None, None).is_err());
}

#[test]
fn classification_of_extracted_fields() {
    let qr = classify_sse(
        Some("nodeIKernelLoginListener"),
        Some("onQRCodeGetPicture"),
        Some("https://qr"),
        Some("abc"),
    );
    match qr {
        SseEvent::QrCode { url, png } => {
            assert_eq!(url, "https://qr");
            assert_eq!(png, "abc");
        },
        _ => panic!("expected a QR event"),
    }
    assert!(matches!(
        classify_sse(Some("nodeIQQNTWrapperSessionListener"), Some("onSessionInitComplete"), None, None),
        SseEvent::SessionComplete
    ));
    assert!(matches!(classify_sse(Some("account_ready"), None, None, None), SseEvent::AccountReady));
    assert!(matches!(classify_sse(Some("something"), None, None, None), SseEvent::Irrelevant));
    // a QR record without a URL reports nothing
    assert!(matches!(
        classify_sse(Some("nodeIKernelLoginListener"), Some("onQRCodeGetPicture"), Some(""), Some("abc")),
        SseEvent::Irrelevant
    ));
}

#[test]
fn stream_line_with_qr_record() {
    let line = "data: {\"type\":\"nodeIKernelLoginListener\",\"data\":{\"sub_type\":\"onQRCodeGetPicture\",\"data\":{\"qrcodeUrl\":\"https://qr\",\"pngBase64QrcodeData\":\"abc\"}}}";
    match parse_sse_line(line) {
        SseEvent::QrCode { url, png } => {
            assert_eq!(url, "https://qr");
            assert_eq!(png, "abc");
        },
        _ => panic!("expected a QR event"),
    }
}

#[test]
fn stream_line_without_image_keeps_empty_png() {
    let line = "data: {\"type\":\"nodeIKernelLoginListener\",\"data\":{\"sub_type\":\"onQRCodeGetPicture\",\"data\":{\"qrcodeUrl\":\"https://qr\"}}}";
    match parse_sse_line(line) {
        SseEvent::QrCode { url, png } => {
            assert_eq!(url, "https://qr");
            assert_eq!(png, "");
        },
        _ => panic!("expected a QR event"),
    }
}

#[test]
fn stream_line_with_session_completion() {
    let line = "data: {\"type\":\"nodeIQQNTWrapperSessionListener\",\"data\":{\"sub_type\":\"onSessionInitComplete\"}}";
    assert!(matches!(parse_sse_line(line), SseEvent::SessionComplete));
}

#[test]
fn stream_line_with_account_ready() {
    let line = "data: {\"type\":\"account_ready\"}";
    assert!(matches!(parse_sse_line(line), SseEvent::AccountReady));
}

#[test]
fn stream_noise_is_irrelevant() {
    assert!(matches!(parse_sse_line("keepalive"), SseEvent::Irrelevant));
    assert!(matches!(parse_sse_line("data: not json"), SseEvent::Irrelevant));
    assert!(matches!(parse_sse_line("data: 5"), SseEvent::Irrelevant));
    assert!(matches!(parse_sse_line("data: {\"type\":\"other\"}"), SseEvent::Irrelevant));
}

#[test]
fn session_advances_and_reports() {
    let mut s = LoginSession::new();
    assert_eq!(s.state, LoginState::AwaitingStream);
    assert!(!s.logged_in());
    assert!(s.should_request_qrcode());
    s.on_event(&SseEvent::QrCode { url: "u".to_string(), png: "".to_string() });
    assert_eq!(s.state, LoginState::QRCodeIssued);
    s.on_event(&SseEvent::SessionComplete);
    assert!(s.logged_in());
    assert!(!s.should_request_qrcode());
}

#[test]
fn logged_in_is_never_left() {
    let mut s = LoginSession::new();
    s.on_event(&SseEvent::AccountReady);
    assert!(s.logged_in());
    // no later event regresses the state
    s.on_event(&SseEvent::QrCode { url: "u".to_string(), png: "p".to_string() });
    assert!(s.logged_in());
    s.on_event(&SseEvent::Irrelevant);
    assert!(s.logged_in());
    s.on_event(&SseEvent::SessionComplete);
    assert!(s.logged_in());
}
