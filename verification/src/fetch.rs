//! Fetching the script of a service worker.

use crate::headers::{lines_view, HeaderMap};
use crate::job::{GlobalScope, PipelineId};
use crate::registration::ServiceWorkerRegistration;
use crate::servo_url::{ServoUrl, UrlView};
use crate::text::lower;
use vstd::prelude::*;

verus! {

/// How a request uses the cache.
#[derive(Clone, Copy, Debug, PartialEq, Eq, Structural)]
pub enum CacheMode {
    Default,
    NoStore,
    Reload,
    NoCache,
    ForceCache,
    OnlyIfCached,
}

/// What a request does when it is redirected.
#[derive(Clone, Copy, Debug, PartialEq, Eq, Structural)]
pub enum RedirectMode {
    Follow,
    Error,
    Manual,
}

/// A request for a script.
pub struct Request {
    pub url: ServoUrl,
    pub pipeline_id: PipelineId,
    pub cache_mode: CacheMode,
    pub redirect_mode: RedirectMode,
    pub skip_service_worker: bool,
    pub headers: HeaderMap,
}

/// What a [`Request`] stands for.
pub ghost struct RequestView {
    pub url: UrlView,
    pub pipeline_id: PipelineId,
    pub cache_mode: CacheMode,
    pub redirect_mode: RedirectMode,
    pub skip_service_worker: bool,
    pub headers: Map<Seq<char>, Seq<Seq<u8>>>,
}

impl View for Request {
    type V = RequestView;

    open spec fn view(&self) -> RequestView {
        RequestView {
            url: self.url@,
            pipeline_id: self.pipeline_id,
            cache_mode: self.cache_mode,
            redirect_mode: self.redirect_mode,
            skip_service_worker: self.skip_service_worker,
            headers: self.headers@,
        }
    }
}

/// What is known of a response before its body.
pub struct Metadata {
    pub headers: Option<HeaderMap>,
}

/// What a [`Metadata`] stands for.
pub ghost struct MetadataView {
    pub headers: Option<Map<Seq<char>, Seq<Seq<u8>>>>,
}

impl View for Metadata {
    type V = MetadataView;

    open spec fn view(&self) -> MetadataView {
        MetadataView {
            headers: match self.headers {
                Some(headers) => Some(headers@),
                None => None,
            },
        }
    }
}

/// The view of metadata that may be missing.
pub open spec fn metadata_view(metadata: Option<Metadata>) -> Option<MetadataView> {
    match metadata {
        Some(found) => Some(found@),
        None => None,
    }
}

/// What of a filtered response may be shown.
pub enum FilteredMetadata {
    Basic(Metadata),
    Cors(Metadata),
    Opaque,
    OpaqueRedirect,
}

/// What a fetch reports of a response before its body.
pub enum FetchMetadata {
    Unfiltered(Metadata),
    Filtered { filtered: FilteredMetadata, unsafe_: Metadata },
}

/// Why a fetch failed.
pub enum NetworkError {
    Internal(String),
    LoadCancelled,
}

/// What a [`NetworkError`] stands for.
pub ghost enum NetworkErrorView {
    Internal(Seq<char>),
    LoadCancelled,
}

impl View for NetworkError {
    type V = NetworkErrorView;

    open spec fn view(&self) -> NetworkErrorView {
        match self {
            NetworkError::Internal(message) => NetworkErrorView::Internal(message@),
            NetworkError::LoadCancelled => NetworkErrorView::LoadCancelled,
        }
    }
}

/// The view of a fetch's status: `None` while it has not failed.
pub open spec fn status_view(status: Result<(), NetworkError>) -> Option<NetworkErrorView> {
    match status {
        Ok(_) => None,
        Err(error) => Some(error@),
    }
}

/// Receives the script of a service worker.
pub struct SWScriptFetchHandler {
    /// The response body received to date.
    pub data: Vec<u8>,
    /// The response metadata received to date.
    pub metadata: Option<Metadata>,
    /// The URL of the script.
    pub url: ServoUrl,
    /// Whether the request failed, and why.
    pub status: Result<(), NetworkError>,
    /// The global on whose behalf promises are settled.
    pub global: GlobalScope,
    /// The scope of the registration that the script is fetched for.
    pub reg_scope: ServoUrl,
}

/// What a [`SWScriptFetchHandler`] stands for.
#[verifier::ext_equal]
pub ghost struct ListenerView {
    pub data: Seq<u8>,
    pub metadata: Option<MetadataView>,
    pub url: UrlView,
    pub status: Option<NetworkErrorView>,
    pub global: GlobalScope,
    pub reg_scope: UrlView,
}

impl ListenerView {
    /// The listener once it has received a part of the body.
    pub open spec fn with_chunk(self, chunk: Seq<u8>) -> ListenerView {
        ListenerView { data: self.data + chunk, ..self }
    }
}

impl View for SWScriptFetchHandler {
    type V = ListenerView;

    open spec fn view(&self) -> ListenerView {
        ListenerView {
            data: self.data@,
            metadata: metadata_view(self.metadata),
            url: self.url@,
            status: status_view(self.status),
            global: self.global,
            reg_scope: self.reg_scope@,
        }
    }
}

/// A request to send, and who receives the response.
pub struct ScriptFetch {
    pub request: Request,
    pub listener: SWScriptFetchHandler,
}

/// What a [`ScriptFetch`] stands for.
pub ghost struct ScriptFetchView {
    pub request: RequestView,
    pub listener: ListenerView,
}

impl View for ScriptFetch {
    type V = ScriptFetchView;

    open spec fn view(&self) -> ScriptFetchView {
        ScriptFetchView { request: self.request@, listener: self.listener@ }
    }
}

/// Who receives the response to a request for a registration's script, before anything
/// has been received.
pub open spec fn listening(request: RequestView, global: GlobalScope, reg_scope: UrlView) -> ListenerView {
    ListenerView {
        data: Seq::empty(),
        metadata: None,
        url: request.url,
        status: None,
        global,
        reg_scope,
    }
}

/// Whether the script has to come from the network.
pub open spec fn bypasses_cache(
    use_cache: bool,
    force_bypass_cache: bool,
    update_time_check: Option<bool>,
) -> bool {
    !use_cache || force_bypass_cache || update_time_check == Some(true)
}

/// The request as it is sent. If it bypasses the cache, that is all that changes;
/// otherwise no service worker sees it, and if it is for a top-level script, it says so in
/// a header and fails on a redirect.
pub open spec fn prepared(req: RequestView, is_top_level: bool, bypass: bool) -> RequestView {
    if bypass {
        RequestView { cache_mode: CacheMode::NoCache, ..req }
    } else if !is_top_level {
        RequestView { skip_service_worker: true, ..req }
    } else {
        RequestView {
            skip_service_worker: true,
            headers: req.headers.insert(lower("ServiceWorker"@), seq![vstd::utf8::encode_utf8("script"@)]),
            redirect_mode: RedirectMode::Error,
            ..req
        }
    }
}

/// Sets up the fetch of a script for the registration of a scope.
pub fn fetch_async(req: Request, global: GlobalScope, reg_scope: &ServoUrl) -> (res: ScriptFetch)
    ensures
        res@ == (ScriptFetchView { request: req@, listener: listening(req@, global, reg_scope@) }),
{
    let listener = SWScriptFetchHandler {
        data: Vec::new(),
        metadata: None,
        url: req.url.clone(),
        status: Ok(()),
        global,
        reg_scope: reg_scope.clone(),
    };
    assert(listener@ =~= listening(req@, global, reg_scope@));
    ScriptFetch { request: req, listener }
}

/// Prepares the request for a script and sets up its fetch.
pub fn perform_fetch_hook_and_fetch(
    req: Request,
    is_top_level: bool,
    use_cache: bool,
    force_bypass_cache: bool,
    reg: &ServiceWorkerRegistration,
    global: GlobalScope,
    reg_scope: &ServoUrl,
) -> (res: ScriptFetch)
    ensures
        ({
            let bypass = bypasses_cache(use_cache, force_bypass_cache, reg.update_time_check);
            let request = prepared(req@, is_top_level, bypass);
            res@ == (ScriptFetchView { request, listener: listening(request, global, reg_scope@) })
        }),
{
    let mut req = req;
    let update_due = match reg.update_time_check {
        Some(due) => due,
        None => false,
    };
    if !use_cache || force_bypass_cache || update_due {
        req.cache_mode = CacheMode::NoCache;
    } else {
        req.skip_service_worker = true;
        if !is_top_level {
            return fetch_async(req, global, reg_scope);
        }
        let line: Vec<u8> = vstd::slice::slice_to_vec("script".as_bytes());
        let mut lines: Vec<Vec<u8>> = Vec::new();
        lines.push(line);
        assert(lines_view(lines@) =~= seq![vstd::utf8::encode_utf8("script"@)]);
        req.headers.set_raw("ServiceWorker", lines);
        req.redirect_mode = RedirectMode::Error;
    }
    fetch_async(req, global, reg_scope)
}

} // verus!
