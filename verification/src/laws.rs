//! What holds of registering, updating, fetching and judging responses.

use crate::fetch::{listening, prepared, CacheMode, ListenerView, RequestView};
use crate::fetch::{FetchMetadata, FilteredMetadata, Metadata, NetworkError, NetworkErrorView};
use crate::handler::{rejecting, resolving, ErrorView, FinishJobHandlerView, RegistrationHandle};
use crate::headers::{lines_of, MediaTypeView};
use crate::job::{GlobalScope, JobType, JobView};
use crate::registration::{refusal, register_calls, CallView, RegistrationView};
use crate::response::{
    accepted, accepts, after_response, is_javascript, judged, queued_for_response, reported, unusable,
    verdict,
};
use crate::servo_url::{same_origin, UrlView};
use crate::text::lower;
use crate::update::{update_step, UpdateStepView};
use vstd::prelude::*;

verus! {

/// Whether a call queues the rejection of a promise.
pub open spec fn is_rejection(call: CallView) -> bool {
    exists|scope: UrlView, error: ErrorView, global: GlobalScope|
        call == CallView::QueueServiceworkerJob(#[trigger] rejecting(scope, error, global))
}

/// A refused registration is answered with its error, under the scope that was asked for,
/// and nothing else happens: no registration is added or kept, and there is no update.
pub proof fn law_refused_registration_only_rejects(
    job: JobView,
    scope_url: UrlView,
    script_trustworthy: bool,
    found: Option<RegistrationView>,
)
    requires
        refusal(job, script_trustworthy) is Some,
    ensures
        register_calls(job, scope_url, script_trustworthy, found) == seq![
            CallView::QueueServiceworkerJob(
                rejecting(
                    scope_url,
                    refusal(job, script_trustworthy)->0,
                    job.client.global,
                ),
            ),
        ],
{
}

/// A registration is refused exactly if the script is not trustworthy or the script or the
/// scope is of another origin than the referrer; an untrustworthy script is answered with
/// a `TypeError` and another origin with a `SecurityError`.
pub proof fn law_refusals(job: JobView, script_trustworthy: bool)
    ensures
        refusal(job, script_trustworthy) is None <==> (script_trustworthy && same_origin(
            job.script_url,
            job.referrer,
        ) && same_origin(job.scope_url, job.referrer)),
        refusal(job, script_trustworthy) == Some(ErrorView::Type("Invalid script ServoURL"@)) <==>
            !script_trustworthy,
        refusal(job, script_trustworthy) == Some(ErrorView::Security) <==> (script_trustworthy && !(
        same_origin(job.script_url, job.referrer) && same_origin(job.scope_url, job.referrer))),
{
}

/// A page whose origin is opaque can never register, nor can a script or a scope whose
/// origin is opaque be registered.
pub proof fn law_opaque_origins_cannot_register(job: JobView, script_trustworthy: bool)
    requires
        job.referrer.origin is None || job.script_url.origin is None || job.scope_url.origin is None,
    ensures
        refusal(job, script_trustworthy) is Some,
{
}

/// A registration that goes through ends with the update of the same job, and rejects
/// nothing.
pub proof fn law_accepted_registration_goes_on_to_update(
    job: JobView,
    scope_url: UrlView,
    script_trustworthy: bool,
    found: Option<RegistrationView>,
)
    requires
        refusal(job, script_trustworthy) is None,
    ensures
        ({
            let calls = register_calls(job, scope_url, script_trustworthy, found);
            let update = CallView::InvokeJobUpdate { job, global: job.client.global };
            &&& calls.len() > 0
            &&& calls.last() == update
            &&& forall|i: int| 0 <= i < calls.len() - 1 ==> #[trigger] calls[i] != update
            &&& forall|i: int| 0 <= i < calls.len() ==> !is_rejection(#[trigger] calls[i])
        }),
{
    let calls = register_calls(job, scope_url, script_trustworthy, found);
    assert forall|i: int| 0 <= i < calls.len() implies !is_rejection(#[trigger] calls[i]) by {}
}

/// A job that registers is resolved exactly if its scope has a registration whose newest
/// worker runs its script. It is then resolved with that registration, and finished right
/// after.
pub proof fn law_known_script_resolves_and_finishes(
    job: JobView,
    scope_url: UrlView,
    script_trustworthy: bool,
    found: Option<RegistrationView>,
    registration: RegistrationHandle,
)
    requires
        refusal(job, script_trustworthy) is None,
    ensures
        ({
            let calls = register_calls(job, scope_url, script_trustworthy, found);
            let global = job.client.global;
            let resolve = CallView::QueueServiceworkerJob(resolving(scope_url, registration, global));
            let finish = CallView::QueueFinishJob {
                handler: FinishJobHandlerView { scope_url: job.scope_url, global },
                global,
            };
            let known = found is Some && found->0.handle == registration && found->0.newest_script
                is Some && found->0.newest_script->0.serialization == job.script_url.serialization;
            &&& calls.contains(resolve) <==> known
            &&& forall|i: int|
                0 <= i < calls.len() && #[trigger] calls[i] == resolve ==> i + 1 < calls.len()
                    && calls[i + 1] == finish
        }),
{
    let calls = register_calls(job, scope_url, script_trustworthy, found);
    let global = job.client.global;
    let resolve = CallView::QueueServiceworkerJob(resolving(scope_url, registration, global));
    let known = found is Some && found->0.handle == registration && found->0.newest_script is Some
        && found->0.newest_script->0.serialization == job.script_url.serialization;
    if known {
        let at: int = if found->0.uninstalling {
            1
        } else {
            0
        };
        assert(calls[at] == resolve);
    }
}

/// A registration is added exactly if the scope has none; one that is found is marked as
/// staying exactly if it was being removed. Either comes first and happens once.
pub proof fn law_registrations_are_added_or_kept(
    job: JobView,
    scope_url: UrlView,
    script_trustworthy: bool,
    found: Option<RegistrationView>,
)
    requires
        refusal(job, script_trustworthy) is None,
    ensures
        ({
            let calls = register_calls(job, scope_url, script_trustworthy, found);
            let added = CallView::AddRegistration {
                global: job.client.global,
                script_url: job.script_url,
                scope_url,
                job_scope_url: job.scope_url,
                pipeline_id: job.client.global.pipeline_id,
            };
            &&& calls[0] == added <==> found is None
            &&& found is Some ==> (calls[0] == (CallView::SetUninstalling {
                registration: found->0.handle,
                uninstalling: false,
            }) <==> found->0.uninstalling)
            &&& forall|i: int| 1 <= i < calls.len() ==> !(#[trigger] calls[i] is AddRegistration)
                && !(calls[i] is SetUninstalling)
        }),
{
}

/// The update that a registration goes on to is never rejected: registering has kept the
/// registration from being removed, and only an update job is rejected for its script.
pub proof fn law_update_after_registration_is_not_rejected(
    job: JobView,
    found: RegistrationView,
    global: GlobalScope,
)
    requires
        job.job_type == JobType::Register,
    ensures
        !(update_step(job, Some(RegistrationView { uninstalling: false, ..found }), global)
            is Reject),
{
}

/// Updating rejects exactly if the registration is being removed, or its newest worker
/// runs the script that an update job asks for.
pub proof fn law_updates_rejected(job: JobView, found: Option<RegistrationView>, global: GlobalScope)
    ensures
        update_step(job, found, global) is Reject <==> (found is Some && (found->0.uninstalling || (
        found->0.newest_script is Some && found->0.newest_script->0.serialization
            == job.script_url.serialization && job.job_type == JobType::Update))),
{
}

/// A script is fetched only for a registration that is there to stay and has a worker, and
/// then it is the job's script, for the job's scope.
pub proof fn law_updates_fetched(job: JobView, found: Option<RegistrationView>, global: GlobalScope)
    ensures
        update_step(job, found, global) matches UpdateStepView::Fetch(update) ==> {
            &&& found == Some(update.registration)
            &&& !update.registration.uninstalling
            &&& update.registration.newest_script is Some
            &&& update.script_url == job.script_url
            &&& update.scope_url == job.scope_url
            &&& update.pipeline_id == update.global.pipeline_id
        },
{
}

/// A top-level script that may come from the cache says so in its header, under whatever
/// case the name is asked for, and no other header changes.
pub proof fn law_script_header_reads_back(req: RequestView, name: Seq<char>)
    ensures
        ({
            let headers = prepared(req, true, false).headers;
            &&& lower(name) == lower("ServiceWorker"@) ==> lines_of(headers, name) == Some(
                seq![vstd::utf8::encode_utf8("script"@)],
            )
            &&& lower(name) != lower("ServiceWorker"@) ==> lines_of(headers, name) == lines_of(
                req.headers,
                name,
            )
        }),
{
}

/// Preparing a request never changes what it is for, and changes its headers only for a
/// top-level script that may come from the cache. How it uses the cache changes only if
/// the cache is bypassed.
pub proof fn law_preparing_keeps_the_target(req: RequestView, is_top_level: bool, bypass: bool)
    ensures
        ({
            let sent = prepared(req, is_top_level, bypass);
            &&& sent.url == req.url
            &&& sent.pipeline_id == req.pipeline_id
            &&& bypass || !is_top_level ==> sent.headers == req.headers
            &&& sent.cache_mode == if bypass {
                CacheMode::NoCache
            } else {
                req.cache_mode
            }
        }),
{
}

/// Preparing a request a second time changes nothing more.
pub proof fn law_preparing_twice_is_preparing_once(req: RequestView, is_top_level: bool, bypass: bool)
    ensures
        prepared(prepared(req, is_top_level, bypass), is_top_level, bypass) == prepared(
            req,
            is_top_level,
            bypass,
        ),
{
    let once = prepared(req, is_top_level, bypass);
    let twice = prepared(once, is_top_level, bypass);
    assert(twice.headers =~= once.headers);
}

/// What a filter hides from a page is judged all the same, to the same end.
pub proof fn law_filters_are_seen_through(
    listener: ListenerView,
    metadata: Metadata,
    filtered: FilteredMetadata,
)
    ensures
        ({
            let hidden = Ok::<FetchMetadata, NetworkError>(
                FetchMetadata::Filtered { filtered, unsafe_: metadata },
            );
            let shown = Ok::<FetchMetadata, NetworkError>(FetchMetadata::Unfiltered(metadata));
            &&& reported(hidden) == reported(shown)
            &&& after_response(listener, hidden) == after_response(listener, shown)
            &&& queued_for_response(listener, hidden) == queued_for_response(listener, shown)
        }),
{
}

/// A fetch that failed can always be taken in. Its error becomes the status, no metadata is
/// left, and no promise is rejected; nothing else changes.
pub proof fn law_failed_fetches_leave_their_error(listener: ListenerView, error: NetworkError)
    ensures
        ({
            let failed = Err::<FetchMetadata, NetworkError>(error);
            &&& unusable(reported(failed)) is None
            &&& after_response(listener, failed) == (ListenerView {
                metadata: None,
                status: Some(error@),
                ..listener
            })
            &&& queued_for_response(listener, failed) is None
        }),
{
}

/// A response either rejects the promise that the script's URL stands for and leaves the
/// fetch failed, or does neither; which of the two is decided by whether it is accepted.
pub proof fn law_responses_reject_and_fail_or_neither(listener: ListenerView, response: FetchMetadata)
    requires
        listener.status is None,
    ensures
        ({
            let reply = Ok::<FetchMetadata, NetworkError>(response);
            let accept = accepts(listener, reply);
            &&& after_response(listener, reply).metadata == reported(reply)
            &&& after_response(listener, reply).status is Some <==> !accept
            &&& queued_for_response(listener, reply) is Some <==> !accept
            &&& !accept ==> queued_for_response(listener, reply) == Some(
                rejecting(listener.url, ErrorView::Type("Security Error"@), listener.global),
            )
        }),
{
}

/// A fetch that had not failed fails exactly if the response is not accepted, and exactly
/// then a promise is rejected, for the URL of the script.
pub proof fn law_failed_status_and_rejection_go_together(listener: ListenerView, accept: bool)
    requires
        listener.status is None,
    ensures
        judged(listener, accept).status is Some <==> !accept,
        verdict(listener, accept) is Some <==> !accept,
        !accept ==> judged(listener, accept).status == Some(
            NetworkErrorView::Internal("Security Error"@),
        ) && verdict(listener, accept)->0.handler.scope_url == listener.url,
{
}

/// Judging a response changes neither the body received nor whom the script is for.
pub proof fn law_judging_keeps_the_body(listener: ListenerView, accept: bool)
    ensures
        ({
            let after = judged(listener, accept);
            &&& after.data == listener.data
            &&& after.metadata == listener.metadata
            &&& after.url == listener.url
            &&& after.global == listener.global
            &&& after.reg_scope == listener.reg_scope
        }),
{
}

/// Only scripts are accepted, and of the scope only the path counts.
pub proof fn law_only_scripts_for_the_path_are_accepted(
    media_type: MediaTypeView,
    path: Seq<char>,
    reg_scope: UrlView,
    other_scope: UrlView,
)
    ensures
        accepted(media_type, path, reg_scope) ==> is_javascript(media_type) && reg_scope.path == path,
        reg_scope.path == other_scope.path ==> accepted(media_type, path, reg_scope) == accepted(
            media_type,
            path,
            other_scope,
        ),
{
}

/// A script that an update fetches is judged against the scope of the job, and if it is
/// not accepted, the promise is rejected for the job's script, on behalf of the global
/// that the update was for.
pub proof fn law_fetched_scripts_are_judged_for_the_job(
    job: JobView,
    found: Option<RegistrationView>,
    global: GlobalScope,
    req: RequestView,
    bypass: bool,
    media_type: MediaTypeView,
    path: Seq<char>,
)
    requires
        update_step(job, found, global) is Fetch,
        req.url == update_step(job, found, global)->Fetch_0.script_url,
    ensures
        ({
            let update = update_step(job, found, global)->Fetch_0;
            let listener = listening(prepared(req, true, bypass), update.global, update.scope_url);
            let accept = accepted(media_type, path, listener.reg_scope);
            &&& accept <==> is_javascript(media_type) && path == job.scope_url.path
            &&& !accept ==> verdict(listener, accept) == Some(
                rejecting(job.script_url, ErrorView::Type("Security Error"@), global),
            )
        }),
{
}

/// The listener once a run of chunks has been received.
pub open spec fn with_chunks(listener: ListenerView, chunks: Seq<Seq<u8>>) -> ListenerView
    decreases chunks.len(),
{
    if chunks.len() == 0 {
        listener
    } else {
        with_chunks(listener, chunks.drop_last()).with_chunk(chunks.last())
    }
}

/// The body is what was there followed by the chunks, one after the other, and nothing
/// else changes; how the body was cut into chunks does not matter.
pub proof fn law_body_is_the_chunks_in_order(listener: ListenerView, chunks: Seq<Seq<u8>>)
    ensures
        with_chunks(listener, chunks) == listener.with_chunk(chunks.flatten()),
    decreases chunks.len(),
{
    if chunks.len() == 0 {
        assert(listener.with_chunk(chunks.flatten()) =~= listener);
    } else {
        law_body_is_the_chunks_in_order(listener, chunks.drop_last());
        chunks.lemma_flatten_and_flatten_alt_are_equivalent();
        chunks.drop_last().lemma_flatten_and_flatten_alt_are_equivalent();
        assert(chunks.flatten() =~= chunks.drop_last().flatten() + chunks.last());
        assert(with_chunks(listener, chunks) =~= listener.with_chunk(chunks.flatten()));
    }
}

} // verus!
