//! What the calls on headers, responses and URLs come to, told by what goes in and what
//! comes out.

use crate::call_laws::rejects_with_type_error;
use crate::fetch::{metadata_view, FetchMetadata, Metadata, NetworkError, SWScriptFetchHandler};
use crate::handler::QueuedJob;
use crate::headers::{
    content_type_readable, lines_view, parameters_cut, parameters_start, parsed_media_type, HeaderMap,
    MediaNameView, MediaType, MediaTypeView,
};
use crate::response::UnusableResponse;
use crate::servo_url::{parsed_url, Host, HostView, ServoUrl, TupleOrigin};
use crate::text::{lemma_run_bounds, lower, lower_char, run, CharClass};
use vstd::prelude::*;

verus! {

/// Whether two names differ at most in the case of their letters.
pub open spec fn same_name(a: Seq<char>, b: Seq<char>) -> bool {
    a.len() == b.len() && forall|i: int|
        0 <= i < a.len() ==> #[trigger] a[i] == b[i] || ('A' <= a[i] <= 'Z' && b[i] as int == a[i]
            as int + 32) || ('A' <= b[i] <= 'Z' && a[i] as int == b[i] as int + 32)
}

/// Names agree in lower case exactly if they differ at most in the case of their letters.
pub proof fn law_names_agree_up_to_case(a: Seq<char>, b: Seq<char>)
    ensures
        lower(a) == lower(b) <==> same_name(a, b),
{
    if lower(a) == lower(b) {
        assert(a.len() == lower(a).len());
        assert(b.len() == lower(b).len());
        assert forall|i: int| 0 <= i < a.len() implies #[trigger] a[i] == b[i] || ('A' <= a[i] <= 'Z'
            && b[i] as int == a[i] as int + 32) || ('A' <= b[i] <= 'Z' && a[i] as int == b[i] as int
            + 32) by {
            assert(lower(a)[i] == lower_char(a[i]));
            assert(lower(b)[i] == lower_char(b[i]));
        }
    }
    if same_name(a, b) {
        assert forall|i: int| 0 <= i < a.len() implies lower_char(a[i]) == lower_char(b[i]) by {
            assert(a[i] == a[i]);
        }
        assert(lower(a) =~= lower(b));
    }
}

/// A map that is made has no headers.
pub proof fn law_made_headers_are_empty(headers: HeaderMap, name: &str, found: Option<Vec<Vec<u8>>>)
    requires
        call_ensures(HeaderMap::new, (), headers),
        call_ensures(HeaderMap::get_raw, (&headers, name), found),
    ensures
        found is None,
{
}

/// Whether two lists of lines, either of which may be missing, are the same.
pub open spec fn same_lines(a: Option<Vec<Vec<u8>>>, b: Option<Vec<Vec<u8>>>) -> bool {
    &&& a is Some <==> b is Some
    &&& a is Some ==> a->0@.len() == b->0@.len()
    &&& a is Some ==> forall|i: int| 0 <= i < a->0@.len() ==> (#[trigger] a->0@[i])@ == b->0@[i]@
}

/// The lines that are set for a header are read back under its name, in whatever case. What
/// is read under any other name does not change.
pub proof fn law_headers_read_back(
    headers: &mut HeaderMap,
    name: &str,
    lines: Vec<Vec<u8>>,
    asked: &str,
    before: Option<Vec<Vec<u8>>>,
    after: Option<Vec<Vec<u8>>>,
)
    requires
        call_ensures(HeaderMap::set_raw, (headers, name, lines), ()),
        call_ensures(HeaderMap::get_raw, (&*old(headers), asked), before),
        call_ensures(HeaderMap::get_raw, (&*final(headers), asked), after),
    ensures
        same_name(name@, asked@) ==> same_lines(after, Some(lines)),
        !same_name(name@, asked@) ==> same_lines(after, before),
{
    law_names_agree_up_to_case(name@, asked@);
    if after is Some {
        let told = lines_view(after->0@);
        assert(told.len() == after->0@.len());
        assert forall|i: int| 0 <= i < told.len() implies #[trigger] told[i] == after->0@[i]@ by {}
        let set = lines_view(lines@);
        assert(set.len() == lines@.len());
        assert forall|i: int| 0 <= i < set.len() implies #[trigger] set[i] == lines@[i]@ by {}
        if before is Some {
            let was = lines_view(before->0@);
            assert(was.len() == before->0@.len());
            assert forall|i: int| 0 <= i < was.len() implies #[trigger] was[i] == before->0@[i]@ by {}
        }
        assert forall|i: int| 0 <= i < after->0@.len() implies (#[trigger] after->0@[i])@ == (
        if same_name(name@, asked@) {
            lines@[i]@
        } else {
            before->0@[i]@
        }) by {
            assert(told[i] == after->0@[i]@);
        }
    }
}

proof fn lemma_header_names()
    ensures
        lower("Content-Type"@) == "content-type"@,
        lower("Service-Worker-Allowed"@) == "service-worker-allowed"@,
{
    reveal_strlit("Content-Type");
    reveal_strlit("content-type");
    reveal_strlit("Service-Worker-Allowed");
    reveal_strlit("service-worker-allowed");
    assert(lower("Content-Type"@) =~= "content-type"@);
    assert(lower("Service-Worker-Allowed"@) =~= "service-worker-allowed"@);
}

/// The media type that headers declare is what is read from the lines of `Content-Type`,
/// and there is none without such lines.
pub proof fn law_media_types_come_from_their_header(headers: HeaderMap, found: Option<MediaType>)
    requires
        call_ensures(HeaderMap::content_type, (&headers,), found),
    ensures
        !headers@.contains_key("content-type"@) ==> found is None,
        headers@.contains_key("content-type"@) ==> {
            let told = parsed_media_type(headers@["content-type"@]);
            &&& found is Some <==> told is Some
            &&& found is Some && found->0.top is Registered ==> told->0.top
                == MediaNameView::Registered(found->0.top->Registered_0@)
            &&& found is Some && found->0.top is Extension ==> told->0.top
                == MediaNameView::Extension(found->0.top->Extension_0@)
            &&& found is Some && found->0.sub is Registered ==> told->0.sub
                == MediaNameView::Registered(found->0.sub->Registered_0@)
            &&& found is Some && found->0.sub is Extension ==> told->0.sub
                == MediaNameView::Extension(found->0.sub->Extension_0@)
        },
{
    lemma_header_names();
}

/// The parameters of a media type in ASCII can be cut out of its line.
proof fn lemma_ascii_parameters_cut(text: Seq<char>, line: Seq<u8>, from: int)
    requires
        forall|i: int| 0 <= i < line.len() ==> #[trigger] line[i] < 0x80,
        0 <= from,
    ensures
        parameters_cut(text, line, from),
    decreases text.len() - from,
{
    lemma_parameter_runs(text, from);
    let attribute = run(text, from, CharClass::Space);
    let equals = run(text, attribute + 1, CharClass::Name);
    let value = run(text, equals + 1, CharClass::Quote);
    let unquoted = run(text, value + 1, CharClass::Name);
    let quoted = run(text, value + 1, CharClass::NotQuote);
    if quoted < text.len() {
        lemma_ascii_parameters_cut(text, line, quoted + 1);
    }
    if unquoted < text.len() {
        lemma_ascii_parameters_cut(text, line, unquoted + 1);
    }
}

/// The runs that make up a parameter lie behind its start.
proof fn lemma_parameter_runs(text: Seq<char>, from: int)
    ensures
        ({
            let attribute = run(text, from, CharClass::Space);
            let equals = run(text, attribute + 1, CharClass::Name);
            let value = run(text, equals + 1, CharClass::Quote);
            &&& from <= attribute < equals < value
            &&& value < run(text, value + 1, CharClass::Name)
            &&& value < run(text, value + 1, CharClass::NotQuote)
        }),
{
    let attribute = run(text, from, CharClass::Space);
    let equals = run(text, attribute + 1, CharClass::Name);
    let value = run(text, equals + 1, CharClass::Quote);
    lemma_run_bounds(text, from, CharClass::Space);
    lemma_run_bounds(text, attribute + 1, CharClass::Name);
    lemma_run_bounds(text, equals + 1, CharClass::Quote);
    lemma_run_bounds(text, value + 1, CharClass::Name);
    lemma_run_bounds(text, value + 1, CharClass::NotQuote);
}

/// A media type can be read if none is declared, if several lines declare one, or if the
/// line that does is in ASCII.
pub proof fn law_ascii_media_types_can_be_read(headers: HeaderMap, readable: bool)
    requires
        call_ensures(HeaderMap::has_readable_content_type, (&headers,), readable),
    ensures
        !headers@.contains_key("content-type"@) ==> readable,
        headers@.contains_key("content-type"@) && headers@["content-type"@].len() != 1 ==> readable,
        headers@.contains_key("content-type"@) && headers@["content-type"@].len() == 1 && (forall|i: int|
            0 <= i < headers@["content-type"@][0].len() ==> #[trigger] headers@["content-type"@][0][i]
                < 0x80) ==> readable,
{
    lemma_header_names();
    let line = headers@["content-type"@][0];
    let text = vstd::utf8::decode_utf8(line);
    if (forall|i: int| 0 <= i < line.len() ==> #[trigger] line[i] < 0x80)
        && parameters_start(text) is Some {
        lemma_run_bounds(text, 1, CharClass::Name);
        lemma_run_bounds(
            text,
            run(text, 1, CharClass::Name) + 2,
            CharClass::Name,
        );
        lemma_ascii_parameters_cut(text, line, parameters_start(text)->0);
    }
}

/// Whether a media type is one of the two that scripts have.
pub open spec fn is_script_type(media_type: MediaTypeView) -> bool {
    ||| media_type.top == MediaNameView::Registered("application"@) && media_type.sub
        == MediaNameView::Registered("javascript"@)
    ||| media_type.top == MediaNameView::Registered("text"@) && media_type.sub
        == MediaNameView::Registered("javascript"@)
}

/// Of all media types only `application/javascript` and `text/javascript`, both names being
/// registered ones, are those of scripts.
pub proof fn law_scripts_have_one_of_two_types(media_type: MediaType, script: bool)
    requires
        call_ensures(MediaType::is_javascript, (&media_type,), script),
    ensures
        script <==> {
            &&& media_type.top is Registered
            &&& media_type.top->Registered_0@ == "application"@ || media_type.top->Registered_0@
                == "text"@
            &&& media_type.sub is Registered
            &&& media_type.sub->Registered_0@ == "javascript"@
        },
        script <==> is_script_type(media_type@),
{
}

/// Whether two statuses are the same: neither has failed, or both have, with one error.
pub open spec fn same_status(a: Result<(), NetworkError>, b: Result<(), NetworkError>) -> bool {
    &&& a is Ok <==> b is Ok
    &&& a is Err ==> same_error(a->Err_0, b->Err_0)
}

/// Whether two errors are the same, to the message.
pub open spec fn same_error(a: NetworkError, b: NetworkError) -> bool {
    &&& a is Internal <==> b is Internal
    &&& a is Internal ==> a->Internal_0@ == b->Internal_0@
}

/// Whether a listener has kept the body received and whom it is for.
pub open spec fn keeps_the_rest(before: SWScriptFetchHandler, after: SWScriptFetchHandler) -> bool {
    &&& after.data@ == before.data@
    &&& after.url@ == before.url@
    &&& after.global == before.global
    &&& after.reg_scope@ == before.reg_scope@
}

/// Whether a listener has turned a response down: the fetch has failed, and the promise
/// that the script's URL stands for is rejected; or has let it pass: neither.
pub open spec fn turned_down_or_passed(
    before: SWScriptFetchHandler,
    after: SWScriptFetchHandler,
    queued: Option<QueuedJob>,
    pass: bool,
) -> bool {
    &&& pass ==> queued is None && same_status(after.status, before.status)
    &&& !pass ==> {
        &&& after.status is Err
        &&& after.status->Err_0 is Internal
        &&& after.status->Err_0->Internal_0@ == "Security Error"@
        &&& queued is Some
        &&& rejects_with_type_error(queued->0, before.url, "Security Error"@, before.global)
    }
}

/// A response passes exactly if it is a script and the path of the registration's scope is
/// that of the given URL.
pub proof fn law_scripts_for_the_given_path_pass(
    handler: &mut SWScriptFetchHandler,
    content_type: MediaType,
    max_scope: ServoUrl,
    queued: Option<QueuedJob>,
)
    requires
        call_ensures(SWScriptFetchHandler::judge_response, (handler, &content_type, &max_scope), queued),
    ensures
        keeps_the_rest(*old(handler), *final(handler)),
        final(handler)@.metadata == old(handler)@.metadata,
        turned_down_or_passed(
            *old(handler),
            *final(handler),
            queued,
            is_script_type(content_type@) && max_scope@.path == old(handler).reg_scope@.path,
        ),
{
    if queued is Some {
        assert(queued->0@.handler.invoke_type == queued->0.handler.invoke_type@);
    }
}

/// The metadata of a response, seen through a filter.
pub open spec fn seen_through(response: FetchMetadata) -> Metadata {
    match response {
        FetchMetadata::Unfiltered(metadata) => metadata,
        FetchMetadata::Filtered { unsafe_, .. } => unsafe_,
    }
}

/// Whether the headers of a response declare a media type.
pub open spec fn declares(headers: HeaderMap, media_type: MediaTypeView) -> bool {
    headers@.contains_key("content-type"@) && parsed_media_type(headers@["content-type"@]) == Some(
        media_type,
    )
}

/// Whether a listener has taken in a response with these headers that declares a media
/// type: it has the headers, and has let the response pass exactly if it is a script and
/// the path of the registration's scope is the one that is allowed.
pub open spec fn took_in(
    before: SWScriptFetchHandler,
    after: SWScriptFetchHandler,
    headers: HeaderMap,
    media_type: MediaTypeView,
    queued: Option<QueuedJob>,
) -> bool {
    &&& keeps_the_rest(before, after)
    &&& after.metadata is Some
    &&& after.metadata->0.headers is Some
    &&& after.metadata->0.headers->0@ == headers@
    &&& turned_down_or_passed(
        before,
        after,
        queued,
        is_script_type(media_type) && before.reg_scope@.path == "/creativcoder/rust.json"@,
    )
}

/// Whether a listener has taken in that the fetch failed: the error is the status, no
/// metadata is left, and nothing is queued.
pub open spec fn took_in_failure(
    before: SWScriptFetchHandler,
    after: SWScriptFetchHandler,
    error: NetworkError,
    queued: Option<QueuedJob>,
) -> bool {
    &&& keeps_the_rest(before, after)
    &&& after.metadata is None
    &&& after.status is Err
    &&& same_error(after.status->Err_0, error)
    &&& queued is None
}

/// A response that declares a media type passes exactly if the type is one of the two that
/// scripts have and the path of the registration's scope is `/creativcoder/rust.json`, be
/// it filtered or not. Otherwise the promise is rejected and the fetch has failed.
pub proof fn law_only_allowed_scripts_pass(
    handler: &mut SWScriptFetchHandler,
    response: FetchMetadata,
    media_type: MediaTypeView,
    queued: Option<QueuedJob>,
)
    requires
        seen_through(response).headers is Some,
        declares(seen_through(response).headers->0, media_type),
        call_ensures(
            SWScriptFetchHandler::process_response,
            (handler, Ok::<FetchMetadata, NetworkError>(response)),
            queued,
        ),
    ensures
        took_in(
            *old(handler),
            *final(handler),
            seen_through(response).headers->0,
            media_type,
            queued,
        ),
{
    lemma_header_names();
    assert(final(handler)@.metadata == metadata_view(final(handler).metadata));
    if queued is Some {
        assert(queued->0@.handler.invoke_type == queued->0.handler.invoke_type@);
    }
}

/// A fetch that failed leaves its error.
pub proof fn law_failures_are_kept(
    handler: &mut SWScriptFetchHandler,
    error: NetworkError,
    queued: Option<QueuedJob>,
)
    requires
        call_ensures(
            SWScriptFetchHandler::process_response,
            (handler, Err::<FetchMetadata, NetworkError>(error)),
            queued,
        ),
    ensures
        took_in_failure(*old(handler), *final(handler), error, queued),
{
    assert(final(handler)@.metadata == metadata_view(final(handler).metadata));
}

/// A response is turned away without a change exactly if it does not declare a media type
/// that can be read, or is a script but does not say which scope it allows; otherwise it is
/// taken in.
pub proof fn law_unusable_responses_change_nothing(
    handler: &mut SWScriptFetchHandler,
    response: FetchMetadata,
    outcome: Result<Option<QueuedJob>, UnusableResponse>,
)
    requires
        call_ensures(
            SWScriptFetchHandler::try_process_response,
            (handler, Ok::<FetchMetadata, NetworkError>(response)),
            outcome,
        ),
    ensures
        ({
            let headers = seen_through(response).headers;
            let readable = headers is Some && content_type_readable(headers->0@);
            let lines = headers->0@["content-type"@];
            let declared = headers is Some && headers->0@.contains_key("content-type"@)
                && parsed_media_type(lines) is Some;
            let script = declared && is_script_type(parsed_media_type(lines)->0);
            let scope_given = headers is Some && headers->0@.contains_key("service-worker-allowed"@)
                && headers->0@["service-worker-allowed"@].len() > 0;
            &&& outcome is Ok <==> readable && declared && (script ==> scope_given)
            &&& outcome is Err && outcome->Err_0 is UnreadableContentType <==> headers is Some && !readable
            &&& outcome is Err && outcome->Err_0 is NoContentType <==> headers is None || (readable
                && !declared)
            &&& outcome is Err && outcome->Err_0 is NoAllowedScope <==> readable && script
                && !scope_given
            &&& outcome is Err ==> keeps_the_rest(*old(handler), *final(handler)) && same_status(
                final(handler).status,
                old(handler).status,
            ) && final(handler)@.metadata == old(handler)@.metadata
            &&& outcome is Ok ==> took_in(
                *old(handler),
                *final(handler),
                headers->0,
                parsed_media_type(lines)->0,
                outcome->Ok_0,
            )
        }),
{
    lemma_header_names();
    assert(final(handler)@.metadata == metadata_view(final(handler).metadata));
    if outcome is Ok && outcome->Ok_0 is Some {
        let queued = outcome->Ok_0->0;
        assert(queued@.handler.invoke_type == queued.handler.invoke_type@);
    }
}

/// A fetch that failed is never turned away.
pub proof fn law_failures_are_never_unusable(
    handler: &mut SWScriptFetchHandler,
    error: NetworkError,
    outcome: Result<Option<QueuedJob>, UnusableResponse>,
)
    requires
        call_ensures(
            SWScriptFetchHandler::try_process_response,
            (handler, Err::<FetchMetadata, NetworkError>(error)),
            outcome,
        ),
    ensures
        outcome is Ok,
        took_in_failure(*old(handler), *final(handler), error, outcome->Ok_0),
{
    assert(final(handler)@.metadata == metadata_view(final(handler).metadata));
}

/// A part of the body goes behind what was received, and nothing else changes.
pub proof fn law_chunks_are_appended(handler: &mut SWScriptFetchHandler, chunk: Vec<u8>)
    requires
        call_ensures(SWScriptFetchHandler::process_response_chunk, (handler, chunk), ()),
    ensures
        final(handler).data@ == old(handler).data@ + chunk@,
        final(handler).url@ == old(handler).url@,
        final(handler).global == old(handler).global,
        final(handler).reg_scope@ == old(handler).reg_scope@,
        same_status(final(handler).status, old(handler).status),
        final(handler)@.metadata == old(handler)@.metadata,
{
}

/// Whether two hosts are the same domain or the same address.
pub open spec fn same_host(a: Host, b: Host) -> bool {
    match (a, b) {
        (Host::Domain(x), Host::Domain(y)) => x@ == y@,
        (Host::Ipv4(x), Host::Ipv4(y)) => x == y,
        (Host::Ipv6(x), Host::Ipv6(y)) => x == y,
        _ => false,
    }
}

/// Hosts are compared by what they are.
pub proof fn law_hosts_are_compared_by_what_they_are(a: Host, b: Host, same: bool)
    requires
        call_ensures(Host::same, (&a, &b), same),
    ensures
        same <==> same_host(a, b),
{
}

/// Two URLs have one origin exactly if both have one, and scheme, host and port agree.
pub proof fn law_origins_agree_in_all_parts(
    a: ServoUrl,
    b: ServoUrl,
    origin_a: &Option<TupleOrigin>,
    origin_b: &Option<TupleOrigin>,
    same: bool,
)
    requires
        call_ensures(ServoUrl::origin, (&a,), origin_a),
        call_ensures(ServoUrl::origin, (&b,), origin_b),
        call_ensures(ServoUrl::has_origin_of, (&a, &b), same),
    ensures
        same <==> {
            &&& *origin_a is Some
            &&& *origin_b is Some
            &&& (*origin_a)->0.scheme@ == (*origin_b)->0.scheme@
            &&& same_host((*origin_a)->0.host, (*origin_b)->0.host)
            &&& (*origin_a)->0.port == (*origin_b)->0.port
        },
{
}

/// Two URLs are equal exactly if they are written the same.
pub proof fn law_equal_urls_are_written_the_same(a: ServoUrl, b: ServoUrl, text_a: &str, text_b: &str, equal: bool)
    requires
        call_ensures(ServoUrl::as_str, (&a,), text_a),
        call_ensures(ServoUrl::as_str, (&b,), text_b),
        call_ensures(<ServoUrl as PartialEq>::eq, (&a, &b), equal),
    ensures
        equal <==> text_a@ == text_b@,
{
}

/// What is told of a parsed URL is what parsing its text gave.
pub proof fn law_parsed_urls_tell_what_parsing_gave(
    input: &str,
    parsed: Option<ServoUrl>,
    text: &str,
    path: &String,
    origin: &Option<TupleOrigin>,
)
    requires
        call_ensures(ServoUrl::parse, (input,), parsed),
        call_ensures(ServoUrl::as_str, (&parsed->0,), text),
        call_ensures(ServoUrl::path, (&parsed->0,), path),
        call_ensures(ServoUrl::origin, (&parsed->0,), origin),
    ensures
        parsed is Some <==> parsed_url(input@) is Some,
        parsed is Some ==> text@ == parsed_url(input@)->0.serialization,
        parsed is Some ==> path@ == parsed_url(input@)->0.path,
        parsed is Some ==> (*origin is Some <==> parsed_url(input@)->0.origin is Some),
        parsed is Some && *origin is Some ==> (*origin)->0.scheme@
            == parsed_url(input@)->0.origin->0.scheme && (*origin)->0.port
            == parsed_url(input@)->0.origin->0.port,
        parsed is Some && *origin is Some ==> match (*origin)->0.host {
            Host::Domain(domain) => parsed_url(input@)->0.origin->0.host == HostView::Domain(domain@),
            Host::Ipv4(address) => parsed_url(input@)->0.origin->0.host == HostView::Ipv4(address),
            Host::Ipv6(address) => parsed_url(input@)->0.origin->0.host == HostView::Ipv6(address),
        },
{
}

} // verus!
