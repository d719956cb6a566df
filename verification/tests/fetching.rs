use serviceworkerjob::fetch::{
    fetch_async, perform_fetch_hook_and_fetch, CacheMode, FetchMetadata, FilteredMetadata, Metadata,
    NetworkError, RedirectMode, Request, SWScriptFetchHandler, ScriptFetch,
};
use serviceworkerjob::handler::{Error, InvokeType, QueuedJob, RegistrationHandle, SettleType};
use serviceworkerjob::headers::{HeaderMap, MediaName, MediaType};
use serviceworkerjob::job::{GlobalScope, PipelineId};
use serviceworkerjob::registration::ServiceWorkerRegistration;
use serviceworkerjob::response::UnusableResponse;
use serviceworkerjob::servo_url::{Host, ServoUrl, MAX_BLOB_TEXT, MAX_SCOPE_URL, MAX_TEXT};

const SCRIPT: &str = "https://example.org/sw.js";
const ALLOWED: &str = "https://example.org/creativcoder/rust.json";
const JAVASCRIPT: &str = "application/javascript";

fn url(text: &str) -> ServoUrl {
    ServoUrl::parse(text).unwrap()
}

fn global() -> GlobalScope {
    GlobalScope { id: 3, pipeline_id: PipelineId { namespace_id: 7, index: 9 } }
}

fn request() -> Request {
    let mut headers = HeaderMap::new();
    headers.set_raw("Accept", vec![b"*/*".to_vec()]);
    Request {
        url: url(SCRIPT),
        pipeline_id: global().pipeline_id,
        cache_mode: CacheMode::Default,
        redirect_mode: RedirectMode::Follow,
        skip_service_worker: false,
        headers,
    }
}

fn registration(update_time_check: Option<bool>) -> ServiceWorkerRegistration {
    ServiceWorkerRegistration {
        handle: RegistrationHandle { id: 11 },
        uninstalling: false,
        newest_worker: None,
        use_cache: true,
        update_time_check,
    }
}

fn perform(top: bool, use_cache: bool, force: bool, check: Option<bool>) -> ScriptFetch {
    perform_fetch_hook_and_fetch(request(), top, use_cache, force, &registration(check), global(), &url(ALLOWED))
}

fn listener(reg_scope: &str) -> SWScriptFetchHandler {
    fetch_async(request(), global(), &url(reg_scope)).listener
}

fn metadata(fields: &[(&str, &[&[u8]])]) -> Metadata {
    let mut headers = HeaderMap::new();
    for (name, lines) in fields {
        headers.set_raw(name, lines.iter().map(|line| line.to_vec()).collect());
    }
    Metadata { headers: Some(headers) }
}

fn script_response(content_type: &str) -> Result<FetchMetadata, NetworkError> {
    Ok(FetchMetadata::Unfiltered(metadata(&[
        ("content-TYPE", &[content_type.as_bytes()]),
        ("service-worker-allowed", &[b"/"]),
    ])))
}

fn is_security_rejection(queued: &QueuedJob) -> bool {
    queued.handler.scope_url.as_str() == SCRIPT
        && queued.global == global()
        && match &queued.handler.invoke_type {
            InvokeType::Settle(SettleType::Reject(Error::Type(message))) => message == "Security Error",
            _ => false,
        }
}

fn failed(listener: &SWScriptFetchHandler) -> bool {
    match &listener.status {
        Err(NetworkError::Internal(message)) => message == "Security Error",
        _ => false,
    }
}

#[test]
fn urls_are_parsed() {
    let parsed = url("HTTPS://Example.org/a/../b c?q#f");
    assert_eq!(parsed.as_str(), "https://example.org/b%20c?q#f");
    assert_eq!(parsed.path(), "/b%20c");
    let origin = parsed.origin().as_ref().unwrap();
    assert_eq!(origin.scheme, "https");
    assert_eq!(origin.port, 443);
    assert!(matches!(&origin.host, Host::Domain(domain) if domain == "example.org"));
    assert!(ServoUrl::parse("no url").is_none());
    assert!(url("data:text/plain,x").origin().is_none());
}

#[test]
fn hosts_may_be_addresses() {
    let four = url("http://127.0.0.1:8080/");
    assert!(matches!(four.origin().as_ref().unwrap().host, Host::Ipv4(0x7f00_0001)));
    assert_eq!(four.origin().as_ref().unwrap().port, 8080);
    let six = url("http://[1::2]/");
    assert!(matches!(
        six.origin().as_ref().unwrap().host,
        Host::Ipv6(0x0001_0000_0000_0000_0000_0000_0000_0002)
    ));
}

#[test]
fn urls_compare_by_serialization() {
    assert!(url("https://example.org") == url("HTTPS://example.org:443/"));
    assert!(url("https://example.org/a") != url("https://example.org/b"));
    assert!(url(SCRIPT).clone() == url(SCRIPT));
}

#[test]
fn allowed_scope_url_is_in_serialized_form() {
    let parsed = url(MAX_SCOPE_URL);
    assert_eq!(parsed.as_str(), MAX_SCOPE_URL);
    assert_eq!(parsed.path(), "/creativcoder/rust.json");
}

#[test]
fn ordinary_texts_can_be_parsed() {
    for text in [MAX_SCOPE_URL, SCRIPT, "", "no url", "http:", "blob:", "data:,\u{e9}%20", "file:///a%20b", "//x"] {
        assert!(ServoUrl::can_parse(text));
    }
    assert!(ServoUrl::parse("").is_none());
    assert!(ServoUrl::parse("http:").is_none());
    assert!(url("blob:").origin().is_none());
}

#[test]
fn plain_hosts_may_be_long() {
    let long = format!("https://{}.example/", "a".repeat(1000));
    assert!(ServoUrl::can_parse(&long));
    assert_eq!(url(&long).as_str(), long);
    for label in ["a", "z", "9", "0ba", "a-b"] {
        let encoded = format!("https://xn--{}/", label.repeat(400));
        assert!(ServoUrl::can_parse(&encoded));
        assert!(ServoUrl::parse(&encoded).is_none());
    }
}

#[test]
fn hosts_to_be_encoded_are_limited() {
    let of = |scheme: &str, character: &str, count: usize| format!("{}{}/", scheme, character.repeat(count));
    for scheme in ["http:", "https://", "WS:\\\\", "w\tss:///", " ftp://", "gopher:/", "file://", "blob:http://"] {
        for character in ["\u{e9}", "%"] {
            assert!(ServoUrl::can_parse(&of(scheme, character, 214)));
            assert!(!ServoUrl::can_parse(&of(scheme, character, 215)));
        }
        assert!(ServoUrl::can_parse(&of(scheme, "a", 215)));
    }
    for scheme in ["data:", "other://", "file:", "file:/", "file:///", "http://h/", "http://h?", "http://h#", "/http://"] {
        assert!(ServoUrl::can_parse(&of(scheme, "\u{e9}", 1000)));
    }
}

#[test]
fn only_the_host_is_measured() {
    let user = format!("https://{}:{}@example.org:8080/", "%20".repeat(100), "\u{e9}".repeat(300));
    assert!(ServoUrl::can_parse(&user));
    let origin = url(&user).origin().clone().unwrap();
    assert!(matches!(&origin.host, Host::Domain(domain) if domain == "example.org"));
    assert_eq!(origin.port, 8080);
    let long = "\u{e9}".repeat(215);
    let port = format!("https://example.org:{}/", long);
    assert!(ServoUrl::can_parse(&port));
    assert!(ServoUrl::parse(&port).is_none());
    assert!(!ServoUrl::can_parse(&format!("https://a@b:c@{}:80/", long)));
    assert!(!ServoUrl::can_parse(&format!("https://[a:{}]/", long)));
    assert!(ServoUrl::can_parse(&format!("https://[a]:{}/", long)));
    assert!(!ServoUrl::can_parse(&format!("file://{}@a/", long)));
    assert!(!ServoUrl::can_parse(&format!("file://a:{}/", long)));
    assert!(ServoUrl::can_parse(&format!("blob:https://{}@a:1/", long)));
}

#[test]
fn texts_inside_blobs_may_grow() {
    assert!(MAX_BLOB_TEXT as u64 * 12 <= MAX_TEXT as u64);
    let nested = format!("blob:https://{}@example.org/", "\u{1}\u{10ffff}".repeat(5000));
    assert!(ServoUrl::can_parse(&nested));
    assert!(url(&nested).has_origin_of(&url(SCRIPT)));
    assert_eq!(url(&nested).path().len(), "https://@example.org/".len() + 5000 * (3 + 12));
}

#[test]
fn longest_hosts_to_be_encoded_are_parsed() {
    let accented = format!("https://{}/", "\u{e9}".repeat(214));
    assert!(ServoUrl::can_parse(&accented));
    match &url(&accented).origin().as_ref().unwrap().host {
        Host::Domain(domain) => assert!(domain.starts_with("xn--")),
        _ => panic!("not a domain"),
    }
    let swollen = format!("https://{}\u{10fffd}/", "\u{fdfa}".repeat(213));
    assert!(ServoUrl::can_parse(&swollen));
    assert!(ServoUrl::parse(&swollen).is_none());
}

#[test]
fn skipped_characters_do_not_count() {
    let spread = format!("ht\ntps://{}/", "\u{e9}\t".repeat(214));
    assert!(ServoUrl::can_parse(&spread));
    assert!(url(&spread) == url(&format!("https://{}/", "\u{e9}".repeat(214))));
}

#[test]
fn blobs_may_be_nested_to_a_depth() {
    let nested = |depth: usize| format!("{}https://example.org/a", "Blob: ".repeat(depth));
    assert!(ServoUrl::can_parse(&nested(64)));
    assert!(!ServoUrl::can_parse(&nested(65)));
    assert!(url(&nested(64)).has_origin_of(&url(SCRIPT)));
    assert!(url(&nested(1)).has_origin_of(&url(SCRIPT)));
}

#[test]
fn header_names_ignore_case() {
    let mut headers = HeaderMap::new();
    assert!(headers.get_raw("X-One").is_none());
    headers.set_raw("X-One", vec![b"a".to_vec(), b"b".to_vec()]);
    assert_eq!(headers.get_raw("x-oNE"), Some(vec![b"a".to_vec(), b"b".to_vec()]));
    headers.set_raw("x-one", vec![b"c".to_vec()]);
    assert_eq!(headers.get_raw("X-One"), Some(vec![b"c".to_vec()]));
    assert!(headers.get_raw("X-Two").is_none());
}

#[test]
fn media_types_are_read() {
    let mut headers = HeaderMap::new();
    assert!(headers.content_type().is_none());
    headers.set_raw("Content-Type", vec![b"TEXT/JavaScript; charset=utf-8".to_vec()]);
    let found = headers.content_type().unwrap();
    assert!(matches!(&found.top, MediaName::Registered(name) if name == "text"));
    assert!(matches!(&found.sub, MediaName::Registered(name) if name == "javascript"));
    headers.set_raw("Content-Type", vec![b"odd/x-javascript".to_vec()]);
    let found = headers.content_type().unwrap();
    assert!(matches!(&found.top, MediaName::Extension(name) if name == "odd"));
    assert!(matches!(&found.sub, MediaName::Extension(name) if name == "x-javascript"));
    headers.set_raw("Content-Type", vec![b"text/html".to_vec(), b"text/html".to_vec()]);
    assert!(headers.content_type().is_none());
    headers.set_raw("Content-Type", vec![b"nonsense".to_vec()]);
    assert!(headers.content_type().is_none());
}

#[test]
fn scripts_are_told_from_other_types() {
    let registered = |name: &str| MediaName::Registered(name.to_owned());
    let extension = |name: &str| MediaName::Extension(name.to_owned());
    assert!(MediaType { top: registered("application"), sub: registered("javascript") }.is_javascript());
    assert!(MediaType { top: registered("text"), sub: registered("javascript") }.is_javascript());
    assert!(!MediaType { top: registered("image"), sub: registered("javascript") }.is_javascript());
    assert!(!MediaType { top: registered("text"), sub: registered("html") }.is_javascript());
    assert!(!MediaType { top: extension("text"), sub: registered("javascript") }.is_javascript());
    assert!(!MediaType { top: registered("text"), sub: extension("javascript") }.is_javascript());
}

#[test]
fn fetch_starts_with_nothing_received() {
    let fetch = fetch_async(request(), global(), &url(ALLOWED));
    assert_eq!(fetch.listener.data.len(), 0);
    assert!(fetch.listener.metadata.is_none());
    assert_eq!(fetch.listener.url.as_str(), SCRIPT);
    assert!(fetch.listener.status.is_ok());
    assert_eq!(fetch.listener.global, global());
    assert_eq!(fetch.listener.reg_scope.as_str(), ALLOWED);
    assert_eq!(fetch.request.url.as_str(), SCRIPT);
}

#[test]
fn bypassing_the_cache_changes_nothing_else() {
    let ways = [(false, false, None), (true, true, None), (true, false, Some(true))];
    for (use_cache, force, check) in ways {
        for top in [true, false] {
            let sent = perform(top, use_cache, force, check).request;
            assert_eq!(sent.cache_mode, CacheMode::NoCache);
            assert_eq!(sent.redirect_mode, RedirectMode::Follow);
            assert!(!sent.skip_service_worker);
            assert!(sent.headers.get_raw("ServiceWorker").is_none());
        }
    }
}

#[test]
fn top_level_script_is_marked() {
    for check in [None, Some(false)] {
        let fetch = perform(true, true, false, check);
        assert_eq!(fetch.request.cache_mode, CacheMode::Default);
        assert_eq!(fetch.request.redirect_mode, RedirectMode::Error);
        assert!(fetch.request.skip_service_worker);
        assert_eq!(fetch.request.headers.get_raw("serviceworker"), Some(vec![b"script".to_vec()]));
        assert_eq!(fetch.request.headers.get_raw("Accept"), Some(vec![b"*/*".to_vec()]));
        assert_eq!(fetch.listener.reg_scope.as_str(), ALLOWED);
    }
}

#[test]
fn imported_script_only_skips_service_workers() {
    let sent = perform(false, true, false, None).request;
    assert_eq!(sent.cache_mode, CacheMode::Default);
    assert_eq!(sent.redirect_mode, RedirectMode::Follow);
    assert!(sent.skip_service_worker);
    assert!(sent.headers.get_raw("ServiceWorker").is_none());
}

#[test]
fn preparing_twice_is_preparing_once() {
    let once = perform(true, true, false, None).request;
    let twice =
        perform_fetch_hook_and_fetch(once, true, true, false, &registration(None), global(), &url(ALLOWED)).request;
    assert_eq!(twice.redirect_mode, RedirectMode::Error);
    assert_eq!(twice.cache_mode, CacheMode::Default);
    assert_eq!(twice.headers.get_raw("ServiceWorker"), Some(vec![b"script".to_vec()]));
}

#[test]
fn script_for_the_allowed_path_is_accepted() {
    for content_type in [JAVASCRIPT, "text/javascript", "Text/JavaScript; charset=utf-8"] {
        let mut handler = listener(ALLOWED);
        assert!(handler.process_response(script_response(content_type)).is_none());
        assert!(handler.status.is_ok());
        let kept = handler.metadata.unwrap().headers.unwrap();
        assert_eq!(kept.get_raw("Content-Type"), Some(vec![content_type.as_bytes().to_vec()]));
    }
}

#[test]
fn other_media_types_are_refused() {
    for content_type in ["text/html", "application/json", "image/javascript", "application/x-javascript"] {
        let mut handler = listener(ALLOWED);
        let queued = handler.process_response(script_response(content_type)).unwrap();
        assert!(is_security_rejection(&queued));
        assert!(failed(&handler));
        assert!(handler.metadata.is_some());
    }
}

#[test]
fn other_media_types_need_no_allowed_scope() {
    let mut handler = listener(ALLOWED);
    let response = metadata(&[("Content-Type", &[b"text/html"])]);
    let queued = handler.try_process_response(Ok(FetchMetadata::Unfiltered(response))).unwrap().unwrap();
    assert!(is_security_rejection(&queued));
}

#[test]
fn other_paths_are_refused() {
    for scope in ["https://example.org/", "https://github.com/creativcoder/", "https://example.org/Creativcoder/rust.json"] {
        let mut handler = listener(scope);
        handler.process_response_chunk(vec![1, 2]);
        let queued = handler.process_response(script_response(JAVASCRIPT)).unwrap();
        assert!(is_security_rejection(&queued));
        assert!(failed(&handler));
        assert_eq!(handler.data, vec![1, 2]);
        assert_eq!(handler.reg_scope.as_str(), scope);
    }
}

#[test]
fn judging_compares_with_the_given_scope() {
    let javascript = MediaType {
        top: MediaName::Registered("text".to_owned()),
        sub: MediaName::Registered("javascript".to_owned()),
    };
    let mut handler = listener("https://example.org/a/");
    assert!(handler.judge_response(&javascript, &url("http://other.example/a/?q")).is_none());
    assert!(handler.status.is_ok());
    assert!(is_security_rejection(&handler.judge_response(&javascript, &url("https://example.org/b/")).unwrap()));
    assert!(failed(&handler));
}

#[test]
fn filtered_responses_are_seen_through() {
    let hidden = metadata(&[("Content-Type", &[b"text/html"])]);
    let mut handler = listener(ALLOWED);
    let response = FetchMetadata::Filtered { filtered: FilteredMetadata::Opaque, unsafe_: hidden };
    assert!(handler.process_response(Ok(response)).is_some());
    assert!(failed(&handler));
}

fn unusable(response: Result<FetchMetadata, NetworkError>) -> Option<UnusableResponse> {
    let mut handler = listener(ALLOWED);
    let outcome = handler.try_process_response(response);
    if outcome.is_err() {
        assert!(handler.metadata.is_none());
        assert!(handler.status.is_ok());
    }
    outcome.err()
}

#[test]
fn responses_without_a_media_type_are_unusable() {
    let none = Some(UnusableResponse::NoContentType);
    assert_eq!(unusable(Ok(FetchMetadata::Unfiltered(Metadata { headers: None }))), none);
    assert_eq!(unusable(Ok(FetchMetadata::Unfiltered(metadata(&[])))), none);
    assert_eq!(unusable(script_response("nonsense")), none);
}

#[test]
fn failed_fetches_leave_their_error() {
    let mut handler = listener(ALLOWED);
    handler.process_response_chunk(vec![1]);
    assert!(handler.process_response(script_response(JAVASCRIPT)).is_none());
    assert!(handler.process_response(Err(NetworkError::LoadCancelled)).is_none());
    assert!(handler.metadata.is_none());
    assert!(matches!(handler.status, Err(NetworkError::LoadCancelled)));
    assert_eq!(handler.data, vec![1]);
    let mut handler = listener("https://example.org/");
    let failure = NetworkError::Internal("down".to_owned());
    assert!(matches!(handler.try_process_response(Err(failure)), Ok(None)));
    assert!(handler.metadata.is_none());
    assert!(matches!(&handler.status, Err(NetworkError::Internal(message)) if message == "down"));
}

#[test]
fn unreadable_media_types_are_unusable() {
    let unreadable = Some(UnusableResponse::UnreadableContentType);
    assert_eq!(unusable(script_response("text/javascript; a=\"x\u{e9}\"")), unreadable);
    assert_eq!(unusable(script_response("text/javascript; a=\"x\u{e9}\u{e9}y\"")), unreadable);
    assert_eq!(unusable(script_response("text/javascript; a=\"x\u{e9}y\"b=c")), None);
    assert_eq!(unusable(script_response("text/javascript; a=\"x\u{e9}\u{20ac}y\" bb=c")), unreadable);
    assert_eq!(unusable(script_response("text/javascript; a=\"x\"")), None);
}

#[test]
fn characters_outside_ascii_may_be_readable() {
    for content_type in [
        "text/javascript; a=\"x\u{e9}y\"",
        "text/javascript; a=\"x\u{e9}",
        "text/javascript; a=\u{e9}",
        "text/javascript; \u{e9}=a",
        "text/javascript; a=\"\u{e9}\"",
        "text/javascript; a=b\u{e9}\"",
    ] {
        let mut handler = listener(ALLOWED);
        assert!(matches!(handler.try_process_response(script_response(content_type)), Ok(None)));
    }
    let mut headers = HeaderMap::new();
    headers.set_raw("Content-Type", vec!["t/h;a=\"x\u{e9}y\"".as_bytes().to_vec()]);
    assert!(headers.has_readable_content_type());
    assert!(matches!(&headers.content_type().unwrap().top, MediaName::Extension(name) if name == "t"));
    headers.set_raw("Content-Type", vec![b"t/h;a=\"x\xc3\"".to_vec()]);
    assert!(headers.has_readable_content_type());
    assert!(headers.content_type().is_none());
}

#[test]
fn readable_media_types_are_read() {
    let pieces = ["a", "\u{e9}", "\u{20ac}", "\"", "=", ";", " "];
    let mut readable = 0;
    for number in 0..pieces.len().pow(6) {
        let mut line = "t/h;a=\"".to_owned();
        let mut rest = number;
        for _ in 0..6 {
            line.push_str(pieces[rest % pieces.len()]);
            rest /= pieces.len();
        }
        let mut headers = HeaderMap::new();
        headers.set_raw("Content-Type", vec![line.into_bytes()]);
        if headers.has_readable_content_type() {
            readable += 1;
            assert!(headers.content_type().is_some());
        }
    }
    assert!(readable > 0);
}

#[test]
fn scripts_without_an_allowed_scope_are_unusable() {
    let missing = Some(UnusableResponse::NoAllowedScope);
    let response = metadata(&[("Content-Type", &[b"text/javascript"])]);
    assert_eq!(unusable(Ok(FetchMetadata::Unfiltered(response))), missing);
    let response = metadata(&[("Content-Type", &[b"text/javascript"]), ("Service-Worker-Allowed", &[])]);
    assert_eq!(unusable(Ok(FetchMetadata::Unfiltered(response))), missing);
}

#[test]
fn usable_responses_are_judged() {
    let mut handler = listener(ALLOWED);
    assert!(handler.try_process_response(script_response(JAVASCRIPT)).unwrap().is_none());
    let mut handler = listener("https://example.org/");
    let queued = handler.try_process_response(script_response(JAVASCRIPT)).unwrap().unwrap();
    assert!(is_security_rejection(&queued));
    assert!(failed(&handler));
}

#[test]
fn chunks_make_up_the_body() {
    let mut handler = listener(ALLOWED);
    handler.process_response_chunk(vec![1, 2]);
    handler.process_response_chunk(vec![]);
    handler.process_response_chunk(vec![3]);
    assert_eq!(handler.data, vec![1, 2, 3]);
    let mut whole = listener(ALLOWED);
    whole.process_response_chunk(vec![1, 2, 3]);
    assert_eq!(whole.data, handler.data);
}
