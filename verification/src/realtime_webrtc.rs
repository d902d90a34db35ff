//! The decisions made while setting up a realtime WebRTC call: which model the
//! session uses, which URL the call is posted to, and what a response means.
//! Sending the request is left to the caller.

use std::collections::HashMap;
use vstd::prelude::*;

use crate::headers::{
    all_header_names, header_contents, header_name_count, merge_request_headers, merged_headers, HEADER_NAME_LIMIT,
};
use crate::text::{
    push_char, seq_starts_with,
    after_last_slash, ends_with, last_slash_segment, seq_ends_with, trim_end_char, trim_end_matching,
};

verus! {

/// A realtime WebRTC call that the server accepted.
#[derive(Debug, Clone, PartialEq, Eq)]
pub struct RealtimeWebrtcCall {
    pub answer_sdp: String,
    pub call_id: String,
}

/// The part of a model provider that the call setup reads.
pub struct Provider {
    pub base_url: String,
    pub query_params: Option<HashMap<String, String>>,
    pub headers: http::HeaderMap,
}

/// The part of a realtime session configuration that the call setup reads.
pub struct RealtimeSessionConfig {
    pub model: Option<String>,
}

/// Why a realtime WebRTC call could not be set up.
#[derive(Debug)]
pub enum RealtimeWebrtcError {
    /// Neither the session configuration nor the provider's query parameters name a model.
    MissingModel,
    /// The provider's base URL does not parse as an absolute URL.
    InvalidBaseUrl(url::ParseError),
    /// The server answered with a status other than `200 OK`.
    UnexpectedStatus { status: u16, body: String },
    /// The answer carried no usable `Location` header.
    MissingCallId { location: Option<String> },
}

/// `url::ParseError`, the reason a URL does not parse, carried into the
/// library's own error as an opaque value.
#[verifier::external_type_specification]
#[verifier::external_body]
pub struct ExUrlParseError(url::ParseError);

/// Whether `input` parses as an absolute URL (`url::Url::parse` succeeds).
pub uninterp spec fn url_parses(input: Seq<char>) -> bool;

/// The path of the URL parsed from `input` (`url::Url::path`).
pub uninterp spec fn parsed_url_path(input: Seq<char>) -> Seq<char>;

/// The serialization of the URL parsed from `input` (`url::Url::to_string`).
pub uninterp spec fn parsed_url_serialization(input: Seq<char>) -> Seq<char>;

/// The serialization of the URL parsed from `input` once its path is set to
/// `path` (`url::Url::set_path`, then `url::Url::to_string`).
pub uninterp spec fn parsed_url_with_path(input: Seq<char>, path: Seq<char>) -> Seq<char>;

/// Parses `input` with `url::Url::parse` and hands out the URL's path
/// (`url::Url::path`). Claims: it succeeds exactly when `input` parses, and the
/// path is a function of `input` alone.
#[verifier::external_body]
fn url_path_of(input: &str) -> (r: Result<String, url::ParseError>)
    ensures
        r is Ok <==> url_parses(input@),
        r matches Ok(p) ==> p@ == parsed_url_path(input@),
{
    match url::Url::parse(input) {
        Ok(u) => Ok(u.path().to_string()),
        Err(e) => Err(e),
    }
}

/// Parses `input` with `url::Url::parse` and hands out the URL's serialization
/// (its `Display`). Claims: it succeeds exactly when `input` parses, and the text
/// is a function of `input` alone.
#[verifier::external_body]
fn url_serialization_of(input: &str) -> (r: Result<String, url::ParseError>)
    ensures
        r is Ok <==> url_parses(input@),
        r matches Ok(s) ==> s@ == parsed_url_serialization(input@),
{
    match url::Url::parse(input) {
        Ok(u) => Ok(u.to_string()),
        Err(e) => Err(e),
    }
}

/// Parses `input` with `url::Url::parse`, replaces the URL's path with
/// `url::Url::set_path`, and hands out the serialization. Claims: it succeeds
/// exactly when `input` parses, and the text is a function of `input` and
/// `path` alone.
#[verifier::external_body]
fn url_serialization_with_path(input: &str, path: &str) -> (r: Result<String, url::ParseError>)
    ensures
        r is Ok <==> url_parses(input@),
        r matches Ok(s) ==> s@ == parsed_url_with_path(input@, path@),
{
    match url::Url::parse(input) {
        Ok(mut u) => {
            u.set_path(path);
            Ok(u.to_string())
        },
        Err(e) => Err(e),
    }
}

/// The URL that a realtime call is posted to, for a base URL that parses.
pub open spec fn realtime_calls_url_of(base_url: Seq<char>) -> Seq<char> {
    match calls_path_rewrite(parsed_url_path(base_url)) {
        Some(path) => parsed_url_with_path(base_url, path),
        None => parsed_url_serialization(base_url),
    }
}

/// The text of a URL parse error (`url::ParseError`'s `Display`).
pub uninterp spec fn parse_error_text(e: url::ParseError) -> Seq<char>;

/// How `http::StatusCode` displays a status (its number and canonical reason),
/// or `None` when `StatusCode::from_u16` refuses the number.
pub uninterp spec fn status_code_text(status: u16) -> Option<Seq<char>>;

/// How an optional string prints with `{:?}` (`Option<String>`'s `Debug`).
pub uninterp spec fn option_debug_text(o: Option<Seq<char>>) -> Seq<char>;

/// The text of a URL parse error (`Display`, through `to_string`).
#[verifier::external_body]
fn url_parse_error_text(e: &url::ParseError) -> (r: String)
    ensures
        r@ == parse_error_text(*e),
{
    e.to_string()
}

/// How a status prints: `http::StatusCode::from_u16`, then its `Display`.
/// Claims that the text is a function of the number alone, and that there is
/// one exactly when `from_u16` accepts the number.
#[verifier::external_body]
fn status_code_display(status: u16) -> (r: Option<String>)
    ensures
        opt_view(r) == status_code_text(status),
{
    match http::StatusCode::from_u16(status) {
        Ok(code) => Some(code.to_string()),
        Err(_) => None,
    }
}

/// How an optional string prints with `{:?}`.
#[verifier::external_body]
fn option_debug(o: &Option<String>) -> (r: String)
    ensures
        r@ == option_debug_text(opt_view(*o)),
{
    format!("{:?}", o)
}

/// The decimal digits of `n`, most significant first, without leading zeros.
pub open spec fn decimal_digits(n: nat) -> Seq<char>
    decreases n,
{
    if n < 10 {
        seq![((n + 48) as u32) as char]
    } else {
        decimal_digits(n / 10).push((((n % 10) + 48) as u32) as char)
    }
}

/// The decimal text of `n`.
pub fn decimal_text(n: u16) -> (r: String)
    ensures
        r@ == decimal_digits(n as nat),
    decreases n,
{
    let digit = (((n % 10) as u8) + 48) as char;
    if n < 10 {
        let mut r = String::new();
        push_char(&mut r, digit);
        assert(r@ =~= seq![digit]);
        r
    } else {
        let mut r = decimal_text(n / 10);
        push_char(&mut r, digit);
        r
    }
}

/// How a status shows in a message: as `http::StatusCode` displays it, or its
/// decimal number when that refuses it.
pub open spec fn status_message_text(status: u16) -> Seq<char> {
    match status_code_text(status) {
        Some(t) => t,
        None => decimal_digits(status as nat),
    }
}

/// The message that an error is reported with.
pub open spec fn error_message(e: RealtimeWebrtcError) -> Seq<char> {
    match e {
        RealtimeWebrtcError::MissingModel =>
            "realtime webrtc call setup requires a configured realtime model"@,
        RealtimeWebrtcError::InvalidBaseUrl(p) => "failed to parse realtime api_url: "@
            + parse_error_text(p),
        RealtimeWebrtcError::UnexpectedStatus { status, body } =>
            "failed to create realtime webrtc call: status="@ + status_message_text(status)
            + ", body="@ + body@,
        RealtimeWebrtcError::MissingCallId { location } =>
            "realtime webrtc call response did not include a valid Location header: "@
            + option_debug_text(opt_view(location)),
    }
}

impl RealtimeWebrtcError {
    /// The message that the error is reported with.
    pub fn message(&self) -> (r: String)
        ensures
            r@ == error_message(*self),
    {
        match self {
            RealtimeWebrtcError::MissingModel => String::from_str(
                "realtime webrtc call setup requires a configured realtime model",
            ),
            RealtimeWebrtcError::InvalidBaseUrl(p) => {
                let mut r = String::from_str("failed to parse realtime api_url: ");
                let text = url_parse_error_text(p);
                r.append(text.as_str());
                r
            },
            RealtimeWebrtcError::UnexpectedStatus { status, body } => {
                let mut r = String::from_str("failed to create realtime webrtc call: status=");
                let shown = match status_code_display(*status) {
                    Some(t) => t,
                    None => decimal_text(*status),
                };
                r.append(shown.as_str());
                r.append(", body=");
                r.append(body.as_str());
                r
            },
            RealtimeWebrtcError::MissingCallId { location } => {
                let mut r = String::from_str(
                    "realtime webrtc call response did not include a valid Location header: ",
                );
                let text = option_debug(location);
                r.append(text.as_str());
                r
            },
        }
    }
}

/// The view of an optional string.
pub open spec fn opt_view(o: Option<String>) -> Option<Seq<char>> {
    match o {
        Some(s) => Some(s@),
        None => None,
    }
}

/// How the path of the provider's base URL is rewritten so that it names the
/// realtime calls endpoint; `None` when it already does.
pub open spec fn calls_path_rewrite(path: Seq<char>) -> Option<Seq<char>> {
    if path.len() == 0 || path == "/"@ {
        Some("/v1/realtime/calls"@)
    } else if seq_ends_with(path, "/realtime/calls"@) {
        None
    } else if seq_ends_with(path, "/realtime/calls/"@) {
        Some(trim_end_char(path, '/'))
    } else if seq_ends_with(path, "/realtime"@) {
        Some(path + "/calls"@)
    } else if seq_ends_with(path, "/realtime/"@) {
        Some(trim_end_char(path, '/') + "/calls"@)
    } else if seq_ends_with(path, "/v1"@) {
        Some(path + "/realtime/calls"@)
    } else if seq_ends_with(path, "/v1/"@) {
        Some(path + "realtime/calls"@)
    } else {
        Some(path + "/v1/realtime/calls"@)
    }
}

/// The path that the realtime calls endpoint ends up with.
pub open spec fn normalized_calls_path(path: Seq<char>) -> Seq<char> {
    match calls_path_rewrite(path) {
        Some(p) => p,
        None => path,
    }
}

/// The call id that a `Location` header names: its last `/`-separated segment
/// once trailing slashes are dropped, unless that segment is empty.
pub open spec fn call_id_of_location(location: Seq<char>) -> Option<Seq<char>> {
    let segment = after_last_slash(trim_end_char(location, '/'));
    if segment.len() == 0 {
        None
    } else {
        Some(segment)
    }
}

/// The model that a session uses: the configured one, else the provider's
/// `model` query parameter.
pub open spec fn session_model(
    configured: Option<Seq<char>>,
    query_params: Option<Map<Seq<char>, Seq<char>>>,
) -> Option<Seq<char>> {
    match configured {
        Some(m) => Some(m),
        None => match query_params {
            Some(params) => if params.contains_key("model"@) {
                Some(params["model"@])
            } else {
                None
            },
            None => None,
        },
    }
}

/// The provider's query parameters, keyed by their text.
pub open spec fn query_params_view(p: Option<HashMap<String, String>>) -> Option<
    Map<Seq<char>, Seq<char>>,
> {
    match p {
        Some(m) => Some(m.deep_view()),
        None => None,
    }
}

/// Looks a query parameter up by its name (`HashMap::get`, then a clone of the value).
#[verifier::external_body]
fn query_param(params: &HashMap<String, String>, name: &str) -> (r: Option<String>)
    ensures
        opt_view(r) == (if params.deep_view().contains_key(name@) {
            Some(params.deep_view()[name@])
        } else {
            None
        }),
{
    params.get(name).cloned()
}

/// The model that the realtime session is set up with.
pub fn realtime_session_model(provider: &Provider, session_config: &RealtimeSessionConfig) -> (r:
    Result<String, RealtimeWebrtcError>)
    ensures
        match r {
            Ok(m) => session_model(
                opt_view(session_config.model),
                query_params_view(provider.query_params),
            ) == Some(m@),
            Err(e) => session_model(
                opt_view(session_config.model),
                query_params_view(provider.query_params),
            ) is None && e is MissingModel,
        },
        session_config.model matches Some(m) ==> r matches Ok(x) && x@ == m@,
{
    match &session_config.model {
        Some(m) => Ok(m.clone()),
        None => match &provider.query_params {
            Some(params) => match query_param(params, "model") {
                Some(m) => Ok(m),
                None => Err(RealtimeWebrtcError::MissingModel),
            },
            None => Err(RealtimeWebrtcError::MissingModel),
        },
    }
}

/// The rewritten path of the realtime calls endpoint, or `None` when `path`
/// already names it.
pub fn realtime_calls_path(path: &str) -> (r: Option<String>)
    ensures
        opt_view(r) == calls_path_rewrite(path@),
{
    proof {
        reveal_strlit("/");
    }
    let is_root = path.unicode_len() == 1 && path.get_char(0) == '/';
    assert(is_root == (path@ == "/"@)) by {
        if path@.len() == 1 && path@[0] == '/' {
            assert(path@ =~= "/"@);
        }
    }
    if path.unicode_len() == 0 || is_root {
        return Some(String::from_str("/v1/realtime/calls"));
    }
    if ends_with(path, "/realtime/calls") {
        return None;
    }
    if ends_with(path, "/realtime/calls/") {
        return Some(String::from_str(trim_end_matching(path, '/')));
    }
    if ends_with(path, "/realtime") {
        let mut p = String::from_str(path);
        p.append("/calls");
        return Some(p);
    }
    if ends_with(path, "/realtime/") {
        let mut p = String::from_str(trim_end_matching(path, '/'));
        p.append("/calls");
        return Some(p);
    }
    if ends_with(path, "/v1") {
        let mut p = String::from_str(path);
        p.append("/realtime/calls");
        return Some(p);
    }
    if ends_with(path, "/v1/") {
        let mut p = String::from_str(path);
        p.append("realtime/calls");
        return Some(p);
    }
    let mut p = String::from_str(path);
    p.append("/v1/realtime/calls");
    Some(p)
}

/// The call id named by a `Location` header value.
pub fn realtime_call_id_from_location(location: &str) -> (r: Option<String>)
    ensures
        opt_view(r) == call_id_of_location(location@),
{
    let trimmed = trim_end_matching(location, '/');
    let segment = last_slash_segment(trimmed);
    if segment.unicode_len() == 0 {
        None
    } else {
        Some(String::from_str(segment))
    }
}

proof fn lemma_ends_with_concat(a: Seq<char>, b: Seq<char>)
    ensures
        seq_ends_with(a + b, b),
{
    assert((a + b).subrange(a.len() as int, (a + b).len() as int) =~= b);
}

proof fn lemma_ends_with_extend(a: Seq<char>, x: Seq<char>, y: Seq<char>)
    requires
        seq_ends_with(a, x),
    ensures
        seq_ends_with(a + y, x + y),
{
    assert((a + y).subrange((a + y).len() - (x + y).len(), (a + y).len() as int) =~= x + y);
}

proof fn lemma_trim_one_slash(p: Seq<char>)
    requires
        p.len() >= 2,
        p.last() == '/',
        p[p.len() - 2] != '/',
    ensures
        trim_end_char(p, '/') == p.drop_last(),
{
    assert(p.drop_last().last() == p[p.len() - 2]);
    assert(trim_end_char(p.drop_last(), '/') == p.drop_last());
}

proof fn lemma_ends_with_last(p: Seq<char>, x: Seq<char>)
    requires
        seq_ends_with(p, x),
        x.len() >= 2,
    ensures
        p.last() == x.last(),
        p[p.len() - 2] == x[x.len() - 2],
        seq_ends_with(p.drop_last(), x.drop_last()),
{
    assert(p.subrange(p.len() - x.len(), p.len() as int)[x.len() - 1] == x[x.len() - 1]);
    assert(p.subrange(p.len() - x.len(), p.len() as int)[x.len() - 2] == x[x.len() - 2]);
    assert(p.drop_last().subrange(p.len() - x.len(), p.len() - 1) =~= x.drop_last());
}

/// Law: the path that `realtime_calls_path` leaves the base URL with always ends
/// with `/realtime/calls`, and rewriting it once more changes nothing.
pub proof fn lemma_calls_path_normal_form(path: Seq<char>)
    ensures
        seq_ends_with(normalized_calls_path(path), "/realtime/calls"@),
        calls_path_rewrite(normalized_calls_path(path)) is None,
{
    reveal_strlit("/");
    reveal_strlit("/v1/realtime/calls");
    reveal_strlit("/realtime/calls");
    reveal_strlit("/realtime/calls/");
    reveal_strlit("/realtime");
    reveal_strlit("/calls");
    reveal_strlit("/realtime/");
    reveal_strlit("/v1");
    reveal_strlit("/v1/");
    reveal_strlit("realtime/calls");
    let lit = "/realtime/calls"@;
    if path.len() == 0 || path == "/"@ {
        lemma_ends_with_concat("/v1"@, lit);
        assert("/v1"@ + lit =~= "/v1/realtime/calls"@);
    } else if seq_ends_with(path, lit) {
    } else if seq_ends_with(path, "/realtime/calls/"@) {
        lemma_ends_with_last(path, "/realtime/calls/"@);
        lemma_trim_one_slash(path);
        assert("/realtime/calls/"@.drop_last() =~= lit);
    } else if seq_ends_with(path, "/realtime"@) {
        lemma_ends_with_extend(path, "/realtime"@, "/calls"@);
        assert("/realtime"@ + "/calls"@ =~= lit);
    } else if seq_ends_with(path, "/realtime/"@) {
        lemma_ends_with_last(path, "/realtime/"@);
        lemma_trim_one_slash(path);
        assert("/realtime/"@.drop_last() =~= "/realtime"@);
        lemma_ends_with_extend(path.drop_last(), "/realtime"@, "/calls"@);
        assert("/realtime"@ + "/calls"@ =~= lit);
    } else if seq_ends_with(path, "/v1"@) {
        lemma_ends_with_concat(path, lit);
    } else if seq_ends_with(path, "/v1/"@) {
        assert(path.subrange(path.len() - 1, path.len() as int) =~= "/"@) by {
            assert(path.subrange(path.len() - 4, path.len() as int)[3] == '/');
        }
        lemma_ends_with_extend(path, "/"@, "realtime/calls"@);
        assert("/"@ + "realtime/calls"@ =~= lit);
    } else {
        lemma_ends_with_concat(path + "/v1"@, lit);
        assert(path + "/v1"@ + lit =~= path + "/v1/realtime/calls"@);
    }
    let q = normalized_calls_path(path);
    assert(q.len() >= lit.len());
    assert(q != "/"@);
}

/// The URL of the provider's realtime calls endpoint: the base URL with its
/// path rewritten by `realtime_calls_path`.
pub fn realtime_calls_url(provider: &Provider) -> (r: Result<String, RealtimeWebrtcError>)
    ensures
        r is Ok <==> url_parses(provider.base_url@),
        r matches Ok(u) ==> u@ == realtime_calls_url_of(provider.base_url@),
        r matches Err(e) ==> e is InvalidBaseUrl,
{
    let base = provider.base_url.as_str();
    match url_path_of(base) {
        Err(e) => Err(RealtimeWebrtcError::InvalidBaseUrl(e)),
        Ok(path) => match realtime_calls_path(path.as_str()) {
            Some(new_path) => match url_serialization_with_path(base, new_path.as_str()) {
                Ok(u) => Ok(u),
                Err(e) => Err(RealtimeWebrtcError::InvalidBaseUrl(e)),
            },
            None => match url_serialization_of(base) {
                Ok(u) => Ok(u),
                Err(e) => Err(RealtimeWebrtcError::InvalidBaseUrl(e)),
            },
        },
    }
}

/// The request that sets up a realtime WebRTC call: the session's model, the
/// URL to post to and the headers to send (the SDP offer and the session
/// configuration make up the body).
pub struct RealtimeWebrtcRequest {
    pub model: String,
    pub url: String,
    pub headers: http::HeaderMap,
}

/// Prepares the call request: the model comes first (an error when there is
/// none), then the URL (an error when the base URL does not parse), then the
/// merged headers.
pub fn prepare_realtime_webrtc_call(
    provider: &Provider,
    session_config: &RealtimeSessionConfig,
    extra_headers: &http::HeaderMap,
    default_headers: &http::HeaderMap,
) -> (r: Result<RealtimeWebrtcRequest, RealtimeWebrtcError>)
    requires
        session_model(opt_view(session_config.model), query_params_view(provider.query_params))
            is Some && url_parses(provider.base_url@) ==> all_header_names(
            provider.headers,
            *extra_headers,
            *default_headers,
        ).len() <= HEADER_NAME_LIMIT,
    ensures
        ({
            let model = session_model(
                opt_view(session_config.model),
                query_params_view(provider.query_params),
            );
            match r {
                Ok(req) => model == Some(req.model@) && url_parses(provider.base_url@)
                    && req.url@ == realtime_calls_url_of(provider.base_url@) && header_contents(
                    req.headers,
                ) == merged_headers(
                    header_contents(provider.headers),
                    header_contents(*extra_headers),
                    header_contents(*default_headers),
                ),
                Err(e) => if model is None {
                    e is MissingModel
                } else {
                    !url_parses(provider.base_url@) && e is InvalidBaseUrl
                },
            }
        }),
{
    let model = match realtime_session_model(provider, session_config) {
        Ok(m) => m,
        Err(e) => return Err(e),
    };
    let url = match realtime_calls_url(provider) {
        Ok(u) => u,
        Err(e) => return Err(e),
    };
    let headers = merge_request_headers(&provider.headers, extra_headers, default_headers);
    Ok(RealtimeWebrtcRequest { model, url, headers })
}

/// Prepares the call request as `prepare_realtime_webrtc_call` does, first
/// testing the bound on header names that it asks for once the model and the
/// URL are settled. `None` when the model and the URL are fine but the header
/// maps have more than `HEADER_NAME_LIMIT` names between them.
pub fn prepare_realtime_webrtc_call_checked(
    provider: &Provider,
    session_config: &RealtimeSessionConfig,
    extra_headers: &http::HeaderMap,
    default_headers: &http::HeaderMap,
) -> (r: Option<Result<RealtimeWebrtcRequest, RealtimeWebrtcError>>)
    ensures
        ({
            let model = session_model(
                opt_view(session_config.model),
                query_params_view(provider.query_params),
            );
            let too_many = all_header_names(provider.headers, *extra_headers, *default_headers).len()
                > HEADER_NAME_LIMIT;
            match r {
                None => model is Some && url_parses(provider.base_url@) && too_many,
                Some(Ok(req)) => !too_many && model == Some(req.model@) && url_parses(
                    provider.base_url@,
                ) && req.url@ == realtime_calls_url_of(provider.base_url@) && header_contents(
                    req.headers,
                ) == merged_headers(
                    header_contents(provider.headers),
                    header_contents(*extra_headers),
                    header_contents(*default_headers),
                ),
                Some(Err(e)) => if model is None {
                    e is MissingModel
                } else {
                    !url_parses(provider.base_url@) && e is InvalidBaseUrl
                },
            }
        }),
{
    let count = header_name_count(&provider.headers, extra_headers, default_headers);
    if count <= HEADER_NAME_LIMIT {
        return Some(
            prepare_realtime_webrtc_call(provider, session_config, extra_headers, default_headers),
        );
    }
    match realtime_session_model(provider, session_config) {
        Err(e) => return Some(Err(e)),
        Ok(_) => {},
    }
    match realtime_calls_url(provider) {
        Err(e) => Some(Err(e)),
        Ok(_) => None,
    }
}

/// What a response to the call request means: with status `200 OK` and a
/// `Location` header naming a call id, the accepted call, whose SDP answer is
/// the response body; otherwise the error that says why not.
pub fn realtime_webrtc_call_from_response(status: u16, location: Option<String>, body: String) -> (r:
    Result<RealtimeWebrtcCall, RealtimeWebrtcError>)
    ensures
        status != 200 ==> r == Err::<RealtimeWebrtcCall, RealtimeWebrtcError>(
            RealtimeWebrtcError::UnexpectedStatus { status, body },
        ),
        status == 200 ==> match location {
            Some(l) => match call_id_of_location(l@) {
                Some(id) => r matches Ok(call) && call.call_id@ == id && call.answer_sdp == body,
                None => r == Err::<RealtimeWebrtcCall, RealtimeWebrtcError>(
                    RealtimeWebrtcError::MissingCallId { location: Some(l) },
                ),
            },
            None => r == Err::<RealtimeWebrtcCall, RealtimeWebrtcError>(
                RealtimeWebrtcError::MissingCallId { location: None },
            ),
        },
{
    if status != 200 {
        return Err(RealtimeWebrtcError::UnexpectedStatus { status, body });
    }
    let call_id = match &location {
        Some(l) => realtime_call_id_from_location(l.as_str()),
        None => None,
    };
    match call_id {
        Some(call_id) => Ok(RealtimeWebrtcCall { answer_sdp: body, call_id }),
        None => Err(RealtimeWebrtcError::MissingCallId { location }),
    }
}

} // verus!

verus! {

proof fn lemma_after_last_slash_has_no_slash(s: Seq<char>)
    ensures
        !after_last_slash(s).contains('/'),
        seq_ends_with(s, after_last_slash(s)),
    decreases s.len(),
{
    if s.len() == 0 {
        assert(s.subrange(0, 0) =~= s);
    } else {
        if s.last() == '/' {
            assert(s.subrange(s.len() as int, s.len() as int) =~= Seq::<char>::empty());
        } else {
            let prev = after_last_slash(s.drop_last());
            lemma_after_last_slash_has_no_slash(s.drop_last());
            let r = prev.push(s.last());
            assert forall|i: int| 0 <= i < r.len() implies r[i] != '/' by {
                if i < prev.len() {
                    assert(r[i] == prev[i]);
                    if prev[i] == '/' {
                        assert(prev.contains('/'));
                    }
                }
            }
            assert(s.subrange(s.len() - r.len(), s.len() as int) =~= s.drop_last().subrange(
                s.len() - 1 - prev.len(),
                s.len() - 1,
            ).push(s.last()));
            assert(s.subrange(s.len() - r.len(), s.len() as int) =~= r);
        }
    }
}

/// Law: a call id read from a `Location` header is never empty, holds no `/`,
/// and is how the header (without its trailing slashes) ends.
pub proof fn lemma_call_id_is_last_segment(location: Seq<char>)
    ensures
        call_id_of_location(location) matches Some(id) ==> id.len() > 0 && !id.contains('/')
            && seq_ends_with(trim_end_char(location, '/'), id),
{
    lemma_after_last_slash_has_no_slash(trim_end_char(location, '/'));
}

} // verus!

verus! {

/// Law: a model named by the session configuration is the session's model
/// whatever the provider's query parameters are (or whether there are any);
/// without one, the provider's `model` query parameter is used; and there is no
/// model only when neither names one.
pub proof fn lemma_session_model_precedence(
    configured: Option<Seq<char>>,
    query_params: Option<Map<Seq<char>, Seq<char>>>,
)
    ensures
        configured matches Some(m) ==> session_model(configured, query_params) == Some(m),
        configured is None ==> (session_model(configured, query_params) is Some <==> (
        query_params matches Some(p) && p.contains_key("model"@))),
        configured is None && query_params is Some && query_params->0.contains_key("model"@)
            ==> session_model(configured, query_params) == Some(query_params->0["model"@]),
{
}

proof fn lemma_trim_end_prefix(s: Seq<char>, c: char)
    ensures
        seq_starts_with(s, trim_end_char(s, c)),
    decreases s.len(),
{
    if s.len() > 0 && s.last() == c {
        lemma_trim_end_prefix(s.drop_last(), c);
        let t = trim_end_char(s.drop_last(), c);
        assert(s.subrange(0, t.len() as int) =~= s.drop_last().subrange(0, t.len() as int));
    } else {
        assert(s.subrange(0, s.len() as int) =~= s);
    }
}

proof fn lemma_starts_with_concat(a: Seq<char>, p: Seq<char>, b: Seq<char>)
    requires
        seq_starts_with(a, p),
    ensures
        seq_starts_with(a + b, p),
{
    assert((a + b).subrange(0, p.len() as int) =~= a.subrange(0, p.len() as int));
}

/// Law: the realtime calls URL is the base URL with its path replaced by one
/// that keeps the base path (without its trailing slashes) as a prefix and ends
/// with `/realtime/calls`; a base whose path already ends that way is kept as
/// it parsed.
pub proof fn lemma_calls_url_keeps_base_path(base_url: Seq<char>)
    ensures
        ({
            let path = parsed_url_path(base_url);
            let new_path = normalized_calls_path(path);
            &&& seq_starts_with(new_path, trim_end_char(path, '/'))
            &&& seq_ends_with(new_path, "/realtime/calls"@)
            &&& realtime_calls_url_of(base_url) == (if new_path == path && seq_ends_with(
                path,
                "/realtime/calls"@,
            ) {
                parsed_url_serialization(base_url)
            } else {
                parsed_url_with_path(base_url, new_path)
            })
        }),
{
    let path = parsed_url_path(base_url);
    lemma_calls_path_normal_form(path);
    lemma_trim_end_prefix(path, '/');
    reveal_strlit("/");
    reveal_strlit("/realtime/calls");
    reveal_strlit("/realtime/calls/");
    reveal_strlit("/realtime");
    reveal_strlit("/realtime/");
    reveal_strlit("/v1");
    reveal_strlit("/v1/");
    let t = trim_end_char(path, '/');
    if path.len() == 0 || path == "/"@ {
        if path.len() > 0 {
            assert(path.drop_last() =~= Seq::<char>::empty());
            assert(trim_end_char(path.drop_last(), '/') == path.drop_last());
        }
        assert(t.len() == 0);
        assert(normalized_calls_path(path).subrange(0, 0) =~= t);
    } else if seq_ends_with(path, "/realtime/calls"@) {
    } else if seq_ends_with(path, "/realtime/calls/"@) {
        assert(normalized_calls_path(path) == t);
        assert(t.subrange(0, t.len() as int) =~= t);
    } else if seq_ends_with(path, "/realtime"@) {
        lemma_starts_with_concat(path, t, "/calls"@);
    } else if seq_ends_with(path, "/realtime/"@) {
        assert(t.subrange(0, t.len() as int) =~= t);
        lemma_starts_with_concat(t, t, "/calls"@);
    } else if seq_ends_with(path, "/v1"@) {
        lemma_starts_with_concat(path, t, "/realtime/calls"@);
    } else if seq_ends_with(path, "/v1/"@) {
        lemma_starts_with_concat(path, t, "realtime/calls"@);
    } else {
        lemma_starts_with_concat(path, t, "/v1/realtime/calls"@);
    }
}

} // verus!
