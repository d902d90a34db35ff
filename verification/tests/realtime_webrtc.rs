use std::collections::HashMap;

use codex_rs::headers::{header_name_count, merge_request_headers};
use http::header::{HeaderName, HeaderValue};
use http::HeaderMap;
use codex_rs::realtime_webrtc::{
    decimal_text, prepare_realtime_webrtc_call, prepare_realtime_webrtc_call_checked,
    realtime_call_id_from_location, realtime_calls_path,
    realtime_calls_url, realtime_session_model, realtime_webrtc_call_from_response, Provider,
    RealtimeSessionConfig, RealtimeWebrtcCall, RealtimeWebrtcError,
};

fn provider(base_url: &str, model: Option<&str>) -> Provider {
    let query_params = model.map(|m| {
        let mut params = HashMap::new();
        params.insert("model".to_string(), m.to_string());
        params
    });
    Provider { base_url: base_url.to_string(), query_params, headers: HeaderMap::new() }
}

fn headers(pairs: &[(&str, &str)]) -> HeaderMap {
    let mut h = HeaderMap::new();
    for (name, value) in pairs {
        h.append(
            HeaderName::from_bytes(name.as_bytes()).unwrap(),
            HeaderValue::from_str(value).unwrap(),
        );
    }
    h
}

fn values(h: &HeaderMap, name: &str) -> Vec<Vec<u8>> {
    h.get_all(name).iter().map(|v| v.as_bytes().to_vec()).collect()
}

fn names(h: &HeaderMap) -> Vec<String> {
    let mut n: Vec<String> = h.keys().map(|k| k.as_str().to_string()).collect();
    n.sort();
    n
}

#[test]
fn calls_path_for_each_shape() {
    let cases: [(&str, Option<&str>); 10] = [
        ("", Some("/v1/realtime/calls")),
        ("/", Some("/v1/realtime/calls")),
        ("/v1/realtime/calls", None),
        ("/proxy/realtime/calls", None),
        ("/v1/realtime/calls/", Some("/v1/realtime/calls")),
        ("/api/realtime", Some("/api/realtime/calls")),
        ("/api/realtime/", Some("/api/realtime/calls")),
        ("/v1", Some("/v1/realtime/calls")),
        ("/v1/", Some("/v1/realtime/calls")),
        ("/openai", Some("/openai/v1/realtime/calls")),
    ];
    for (path, expected) in cases {
        assert_eq!(realtime_calls_path(path).as_deref(), expected, "path {path:?}");
    }
}

#[test]
fn calls_path_is_stable_once_normalized() {
    for path in ["", "/", "/x/realtime/", "/v1/", "/base", "/a/realtime/calls//"] {
        let normalized = realtime_calls_path(path).unwrap_or_else(|| path.to_string());
        assert!(normalized.ends_with("/realtime/calls"));
        assert_eq!(realtime_calls_path(&normalized), None);
    }
}

#[test]
fn calls_url_rewrites_the_base_url_path() {
    let url = realtime_calls_url(&provider("https://api.openai.com", None)).unwrap();
    assert_eq!(url, "https://api.openai.com/v1/realtime/calls");
    let url = realtime_calls_url(&provider("https://example.com/v1?x=1", None)).unwrap();
    assert_eq!(url, "https://example.com/v1/realtime/calls?x=1");
    let url = realtime_calls_url(&provider("https://example.com/v1/realtime/calls", None)).unwrap();
    assert_eq!(url, "https://example.com/v1/realtime/calls");
}

#[test]
fn calls_url_rejects_unparsable_base_url() {
    let err = realtime_calls_url(&provider("not a url", None)).unwrap_err();
    assert!(matches!(err, RealtimeWebrtcError::InvalidBaseUrl(_)));
}

#[test]
fn call_id_is_last_location_segment() {
    assert_eq!(realtime_call_id_from_location("/v1/realtime/calls/rtc_123").as_deref(), Some("rtc_123"));
    assert_eq!(realtime_call_id_from_location("/v1/realtime/calls/rtc_123//").as_deref(), Some("rtc_123"));
    assert_eq!(realtime_call_id_from_location("rtc_9").as_deref(), Some("rtc_9"));
    assert_eq!(realtime_call_id_from_location(""), None);
    assert_eq!(realtime_call_id_from_location("///"), None);
}

#[test]
fn session_model_prefers_configuration() {
    let config = RealtimeSessionConfig { model: Some("configured".to_string()) };
    let model = realtime_session_model(&provider("https://x", Some("query")), &config).unwrap();
    assert_eq!(model, "configured");
}

#[test]
fn session_model_falls_back_to_query_parameter() {
    let config = RealtimeSessionConfig { model: None };
    let model = realtime_session_model(&provider("https://x", Some("query")), &config).unwrap();
    assert_eq!(model, "query");
}

#[test]
fn session_model_missing_is_an_error() {
    let config = RealtimeSessionConfig { model: None };
    let err = realtime_session_model(&provider("https://x", None), &config).unwrap_err();
    assert!(matches!(err, RealtimeWebrtcError::MissingModel));
    let mut p = provider("https://x", None);
    let mut params = HashMap::new();
    params.insert("other".to_string(), "v".to_string());
    p.query_params = Some(params);
    let err = realtime_session_model(&p, &config).unwrap_err();
    assert!(matches!(err, RealtimeWebrtcError::MissingModel));
}

#[test]
fn response_with_location_gives_call() {
    let call = realtime_webrtc_call_from_response(200, Some("/v1/realtime/calls/rtc_1".to_string()), "v=0".to_string()).unwrap();
    assert_eq!(call, RealtimeWebrtcCall { answer_sdp: "v=0".to_string(), call_id: "rtc_1".to_string() });
}

#[test]
fn response_errors() {
    match realtime_webrtc_call_from_response(400, Some("/x/id".to_string()), "bad".to_string()) {
        Err(RealtimeWebrtcError::UnexpectedStatus { status, body }) => {
            assert_eq!(status, 400);
            assert_eq!(body, "bad");
        }
        other => panic!("unexpected {other:?}"),
    }
    match realtime_webrtc_call_from_response(200, None, "sdp".to_string()) {
        Err(RealtimeWebrtcError::MissingCallId { location: None }) => {}
        other => panic!("unexpected {other:?}"),
    }
    match realtime_webrtc_call_from_response(200, Some("/".to_string()), "sdp".to_string()) {
        Err(RealtimeWebrtcError::MissingCallId { location: Some(l) }) => assert_eq!(l, "/"),
        other => panic!("unexpected {other:?}"),
    }
}

#[test]
fn merged_headers_follow_precedence() {
    let provider_headers = headers(&[("X-Provider", "p"), ("Authorization", "old"), ("Content-Type", "json")]);
    let extra = headers(&[("authorization", "new"), ("x-extra", "e1"), ("x-extra", "e2")]);
    let defaults = headers(&[("x-default", "d1"), ("x-default", "d2"), ("x-provider", "ignored"), ("content-type", "text")]);
    let merged = merge_request_headers(&provider_headers, &extra, &defaults);
    assert_eq!(values(&merged, "x-provider"), vec![b"p".to_vec()]);
    assert_eq!(values(&merged, "authorization"), vec![b"new".to_vec()]);
    assert_eq!(values(&merged, "x-extra"), vec![b"e1".to_vec(), b"e2".to_vec()]);
    assert_eq!(values(&merged, "x-default"), vec![b"d1".to_vec()]);
    assert!(!merged.contains_key("content-type"));
    assert_eq!(names(&merged), vec!["authorization", "x-default", "x-extra", "x-provider"]);
}

#[test]
fn merging_empty_header_maps_gives_empty_map() {
    let merged = merge_request_headers(&HeaderMap::new(), &HeaderMap::new(), &HeaderMap::new());
    assert!(merged.is_empty());
}

#[test]
fn prepare_checks_model_then_url() {
    let config = RealtimeSessionConfig { model: None };
    let err = prepare_realtime_webrtc_call(&provider("not a url", None), &config, &HeaderMap::new(), &HeaderMap::new()).err().unwrap();
    assert!(matches!(err, RealtimeWebrtcError::MissingModel));
    let err = prepare_realtime_webrtc_call(&provider("not a url", Some("m")), &config, &HeaderMap::new(), &HeaderMap::new()).err().unwrap();
    assert!(matches!(err, RealtimeWebrtcError::InvalidBaseUrl(_)));
    let req = prepare_realtime_webrtc_call(
        &provider("https://api.openai.com/v1", Some("gpt-realtime")),
        &config,
        &headers(&[("x-extra", "1")]),
        &headers(&[("content-type", "x")]),
    )
    .ok()
    .unwrap();
    assert_eq!(req.model, "gpt-realtime");
    assert_eq!(req.url, "https://api.openai.com/v1/realtime/calls");
    assert_eq!(names(&req.headers), vec!["x-extra".to_string()]);
}

#[test]
fn header_name_count_counts_shared_names_once() {
    let a = headers(&[("x-a", "1"), ("x-b", "2"), ("x-b", "3")]);
    let b = headers(&[("X-B", "4"), ("x-c", "5")]);
    let c = headers(&[("x-a", "6"), ("x-d", "7")]);
    assert_eq!(header_name_count(&a, &b, &c), 4);
    assert_eq!(header_name_count(&HeaderMap::new(), &HeaderMap::new(), &HeaderMap::new()), 0);
}

#[test]
fn error_messages_match_the_reported_texts() {
    assert_eq!(
        RealtimeWebrtcError::MissingModel.message(),
        "realtime webrtc call setup requires a configured realtime model"
    );
    let err = realtime_calls_url(&provider("not a url", None)).unwrap_err();
    assert_eq!(err.message(), "failed to parse realtime api_url: relative URL without a base");
    let err = RealtimeWebrtcError::UnexpectedStatus { status: 400, body: "nope".to_string() };
    assert_eq!(err.message(), "failed to create realtime webrtc call: status=400 Bad Request, body=nope");
    let err = RealtimeWebrtcError::UnexpectedStatus { status: 42, body: String::new() };
    assert_eq!(err.message(), "failed to create realtime webrtc call: status=42, body=");
    let err = RealtimeWebrtcError::MissingCallId { location: Some("/".to_string()) };
    assert_eq!(
        err.message(),
        "realtime webrtc call response did not include a valid Location header: Some(\"/\")"
    );
    let err = RealtimeWebrtcError::MissingCallId { location: None };
    assert_eq!(err.message(), "realtime webrtc call response did not include a valid Location header: None");
}

#[test]
fn decimal_text_of_numbers() {
    assert_eq!(decimal_text(0), "0");
    assert_eq!(decimal_text(7), "7");
    assert_eq!(decimal_text(10), "10");
    assert_eq!(decimal_text(65535), "65535");
}

#[test]
fn missing_model_is_reported_whatever_the_headers() {
    let mut many = HeaderMap::new();
    for i in 0..7000 {
        many.insert(HeaderName::from_bytes(format!("x-h{i}").as_bytes()).unwrap(), HeaderValue::from_static("v"));
    }
    let config = RealtimeSessionConfig { model: None };
    let mut p = provider("https://api.openai.com", None);
    p.headers = many.clone();
    let err = prepare_realtime_webrtc_call(&p, &config, &many, &HeaderMap::new()).err().unwrap();
    assert!(matches!(err, RealtimeWebrtcError::MissingModel));
    let err = prepare_realtime_webrtc_call_checked(&p, &config, &many, &HeaderMap::new()).unwrap().err().unwrap();
    assert!(matches!(err, RealtimeWebrtcError::MissingModel));
    let p2 = provider("not a url", Some("m"));
    let err = prepare_realtime_webrtc_call_checked(&p2, &config, &many, &HeaderMap::new()).unwrap().err().unwrap();
    assert!(matches!(err, RealtimeWebrtcError::InvalidBaseUrl(_)));
    let p3 = provider("https://api.openai.com", Some("m"));
    assert!(prepare_realtime_webrtc_call_checked(&p3, &config, &many, &HeaderMap::new()).is_none());
    let small = headers(&[("x-a", "1")]);
    let req = prepare_realtime_webrtc_call_checked(&p3, &config, &small, &HeaderMap::new()).unwrap().ok().unwrap();
    assert_eq!(req.model, "m");
}
