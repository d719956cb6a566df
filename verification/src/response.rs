//! Judging the response to the fetch of a service worker's script.

use crate::fetch::{
    FetchMetadata, ListenerView, MetadataView, NetworkError, NetworkErrorView,
    SWScriptFetchHandler,
};
use crate::handler::{queued_view, reject_promise_job, rejecting, ErrorView, QueuedJob, QueuedJobView};
use crate::headers::{
    content_type_of, content_type_readable, lines_of, MediaName, MediaNameView, MediaType, MediaTypeView,
};
use crate::servo_url::{law_short_texts_can_be_parsed, ServoUrl, UrlView, MAX_SCOPE_URL};
use vstd::prelude::*;

verus! {

/// Why a response cannot be judged.
#[derive(Clone, Copy, Debug, PartialEq, Eq, Structural)]
pub enum UnusableResponse {
    /// The response does not declare a media type.
    NoContentType,
    /// The declared media type cannot be read.
    UnreadableContentType,
    /// The response is a script but has no header `Service-Worker-Allowed`.
    NoAllowedScope,
}

/// The metadata that a fetch reports, what a filter hides included.
pub open spec fn reported(fetch_metadata: Result<FetchMetadata, NetworkError>) -> Option<MetadataView> {
    match fetch_metadata {
        Ok(FetchMetadata::Unfiltered(metadata)) => Some(metadata@),
        Ok(FetchMetadata::Filtered { unsafe_, .. }) => Some(unsafe_@),
        Err(_) => None,
    }
}

/// The media type that a response declares.
pub open spec fn declared_type(metadata: MetadataView) -> Option<MediaTypeView> {
    match metadata.headers {
        Some(headers) => content_type_of(headers),
        None => None,
    }
}

/// Whether a media type is that of a script, whatever its parameters.
pub open spec fn is_javascript(media_type: MediaTypeView) -> bool {
    &&& media_type.top == MediaNameView::Registered("application"@) || media_type.top
        == MediaNameView::Registered("text"@)
    &&& media_type.sub == MediaNameView::Registered("javascript"@)
}

/// Why a response cannot be judged, if it cannot. Of a fetch that failed there is none to
/// be judged.
pub open spec fn unusable(metadata: Option<MetadataView>) -> Option<UnusableResponse> {
    if metadata is None {
        None
    } else if metadata->0.headers is None {
        Some(UnusableResponse::NoContentType)
    } else {
        let headers = metadata->0.headers->0;
        let allowed = lines_of(headers, "Service-Worker-Allowed"@);
        if !content_type_readable(headers) {
            Some(UnusableResponse::UnreadableContentType)
        } else if content_type_of(headers) is None {
            Some(UnusableResponse::NoContentType)
        } else if is_javascript(content_type_of(headers)->0) && (allowed is None || allowed->0.len()
            == 0) {
            Some(UnusableResponse::NoAllowedScope)
        } else {
            None
        }
    }
}

/// Whether a response is accepted: it is a script, and the path of the registration's
/// scope is the one that is allowed.
pub open spec fn accepted(media_type: MediaTypeView, max_scope_path: Seq<char>, reg_scope: UrlView) -> bool {
    is_javascript(media_type) && max_scope_path == reg_scope.path
}

/// The listener once a response has been judged.
pub open spec fn judged(listener: ListenerView, accept: bool) -> ListenerView {
    if accept {
        listener
    } else {
        ListenerView { status: Some(NetworkErrorView::Internal("Security Error"@)), ..listener }
    }
}

/// What is queued once a response has been judged: one that is not accepted rejects the
/// promise that the script's URL stands for.
pub open spec fn verdict(listener: ListenerView, accept: bool) -> Option<QueuedJobView> {
    if accept {
        None
    } else {
        Some(rejecting(listener.url, ErrorView::Type("Security Error"@), listener.global))
    }
}

/// Whether what a fetch reports is accepted, by the media type that it declares and the
/// path of [`MAX_SCOPE_URL`].
pub open spec fn accepts(
    listener: ListenerView,
    fetch_metadata: Result<FetchMetadata, NetworkError>,
) -> bool {
    accepted(
        declared_type(reported(fetch_metadata)->0)->0,
        "/creativcoder/rust.json"@,
        listener.reg_scope,
    )
}

/// The listener once it has taken in what a fetch reports: the error of a fetch that
/// failed, or the metadata of a response, which is then judged.
pub open spec fn after_response(
    listener: ListenerView,
    fetch_metadata: Result<FetchMetadata, NetworkError>,
) -> ListenerView {
    let received = ListenerView { metadata: reported(fetch_metadata), ..listener };
    match fetch_metadata {
        Ok(_) => judged(received, accepts(listener, fetch_metadata)),
        Err(error) => ListenerView { status: Some(error@), ..received },
    }
}

/// What is queued once a listener has taken in what a fetch reports: the verdict on a
/// response, and nothing for a fetch that failed.
pub open spec fn queued_for_response(
    listener: ListenerView,
    fetch_metadata: Result<FetchMetadata, NetworkError>,
) -> Option<QueuedJobView> {
    match fetch_metadata {
        Ok(_) => verdict(listener, accepts(listener, fetch_metadata)),
        Err(_) => None,
    }
}

impl MediaType {
    /// Whether this is the type of a script, whatever its parameters.
    pub fn is_javascript(&self) -> (res: bool)
        ensures
            res == is_javascript(self@),
    {
        let script_top = match &self.top {
            MediaName::Registered(name) => *name == "application".to_owned() || *name
                == "text".to_owned(),
            MediaName::Extension(_) => false,
        };
        let script_sub = match &self.sub {
            MediaName::Registered(name) => *name == "javascript".to_owned(),
            MediaName::Extension(_) => false,
        };
        script_top && script_sub
    }
}

impl SWScriptFetchHandler {
    /// Gives up on the response: the promise is rejected, and the fetch has failed.
    fn refuse(&mut self) -> (res: Option<QueuedJob>)
        ensures
            final(self)@ == judged(old(self)@, false),
            queued_view(res) == verdict(old(self)@, false),
    {
        let queued = reject_promise_job("Security Error", self.global, &self.url);
        self.status = Err(NetworkError::Internal("Security Error".to_owned()));
        Some(queued)
    }

    /// Judges a response by the media type that it declares and the URL whose path the
    /// scope has to have.
    pub fn judge_response(&mut self, content_type: &MediaType, max_scope: &ServoUrl) -> (res: Option<
        QueuedJob,
    >)
        ensures
            ({
                let accept = accepted(content_type@, max_scope@.path, old(self)@.reg_scope);
                &&& final(self)@ == judged(old(self)@, accept)
                &&& queued_view(res) == verdict(old(self)@, accept)
            }),
    {
        if !content_type.is_javascript() {
            return self.refuse();
        }
        if !(*max_scope.path() == *self.reg_scope.path()) {
            return self.refuse();
        }
        None
    }

    /// Takes in what a fetch reports before the body: a response is judged, and a fetch
    /// that failed leaves its error as the status.
    pub fn process_response(&mut self, fetch_metadata: Result<FetchMetadata, NetworkError>) -> (res: Option<
        QueuedJob,
    >)
        requires
            unusable(reported(fetch_metadata)) is None,
        ensures
            final(self)@ == after_response(old(self)@, fetch_metadata),
            queued_view(res) == queued_for_response(old(self)@, fetch_metadata),
    {
        let metadata = match fetch_metadata {
            Ok(FetchMetadata::Unfiltered(metadata)) => metadata,
            Ok(FetchMetadata::Filtered { unsafe_, .. }) => unsafe_,
            Err(error) => {
                self.metadata = None;
                self.status = Err(error);
                return None;
            },
        };
        let content_type = match &metadata.headers {
            Some(headers) => headers.content_type(),
            None => None,
        };
        self.metadata = Some(metadata);
        proof {
            reveal_strlit("https://github.com/creativcoder/rust.json");
            law_short_texts_can_be_parsed(MAX_SCOPE_URL@);
        }
        match (content_type, ServoUrl::parse(MAX_SCOPE_URL)) {
            (Some(content_type), Some(max_scope)) => self.judge_response(&content_type, &max_scope),
            _ => None,
        }
    }

    /// Takes in what a fetch reports before the body, unless it is a response that cannot be
    /// judged; then nothing changes.
    pub fn try_process_response(&mut self, fetch_metadata: Result<FetchMetadata, NetworkError>) -> (res:
        Result<Option<QueuedJob>, UnusableResponse>)
        ensures
            match unusable(reported(fetch_metadata)) {
                Some(reason) => {
                    &&& final(self)@ == old(self)@
                    &&& res == Err::<Option<QueuedJob>, UnusableResponse>(reason)
                },
                None => {
                    &&& final(self)@ == after_response(old(self)@, fetch_metadata)
                    &&& res is Ok
                    &&& queued_view(res->Ok_0) == queued_for_response(old(self)@, fetch_metadata)
                },
            },
    {
        let headers = match &fetch_metadata {
            Ok(FetchMetadata::Unfiltered(metadata)) => &metadata.headers,
            Ok(FetchMetadata::Filtered { unsafe_, .. }) => &unsafe_.headers,
            Err(_) => {
                return Ok(self.process_response(fetch_metadata));
            },
        };
        match headers {
            Some(headers) => {
                if !headers.has_readable_content_type() {
                    return Err(UnusableResponse::UnreadableContentType);
                }
                match headers.content_type() {
                    Some(content_type) => {
                        if content_type.is_javascript() {
                            let scope_given = match headers.get_raw("Service-Worker-Allowed") {
                                Some(lines) => lines.len() > 0,
                                None => false,
                            };
                            if !scope_given {
                                return Err(UnusableResponse::NoAllowedScope);
                            }
                        }
                    },
                    None => {
                        return Err(UnusableResponse::NoContentType);
                    },
                }
            },
            None => {
                return Err(UnusableResponse::NoContentType);
            },
        }
        Ok(self.process_response(fetch_metadata))
    }

    /// Takes in a part of the body.
    pub fn process_response_chunk(&mut self, chunk: Vec<u8>)
        ensures
            final(self)@ == old(self)@.with_chunk(chunk@),
    {
        let mut chunk = chunk;
        self.data.append(&mut chunk);
    }
}

} // verus!
