//! What the calls on registrations and scripts come to, told by what goes in and what comes
//! out.

use crate::call_laws::rejects_with_type_error;
use crate::fetch::{fetch_async, perform_fetch_hook_and_fetch, Request, ScriptFetch};
use crate::handler::{AsyncJobHandler, Error};
use crate::job::{GlobalScope, Job};
use crate::queue::JobQueue;
use crate::registration::{calls_view, ScriptThreadCall, ServiceWorker, ServiceWorkerRegistration};
use crate::servo_url::ServoUrl;
use crate::text::lower;
use crate::update::{ScriptUpdate, UpdateStep};
use vstd::prelude::*;

verus! {

/// A job may register exactly if its script is trustworthy, and the origins of its script,
/// its scope and its referrer are one origin that is not opaque. A script that is not
/// trustworthy is refused with a `TypeError`, whatever the origins; otherwise the refusal
/// is a `SecurityError`.
pub proof fn law_registering_needs_trust_and_one_origin(
    job: Job,
    script_trustworthy: bool,
    refused: Option<Error>,
)
    requires
        call_ensures(Job::refusal_to_register, (&job, script_trustworthy), refused),
    ensures
        refused is None <==> script_trustworthy && job.referrer@.origin is Some
            && job.script_url@.origin == job.referrer@.origin && job.scope_url@.origin
            == job.referrer@.origin,
        refused is Some && refused->0 is Type <==> !script_trustworthy,
        refused is Some && refused->0 is Type ==> refused->0->Type_0@ == "Invalid script ServoURL"@,
{
}

/// Whether the newest worker of a registration runs the script of a job.
pub open spec fn runs_script(newest_worker: Option<ServiceWorker>, job: Job) -> bool {
    newest_worker is Some && newest_worker->0.script_url@.serialization
        == job.script_url@.serialization
}

/// A job that may not register is rejected, for the scope that the handler names, with the
/// error that it is refused with, and that is all.
pub proof fn law_refused_jobs_are_only_rejected<'a>(
    queue: JobQueue,
    job: &'a Job,
    handler: Box<AsyncJobHandler>,
    script_trustworthy: bool,
    registration: Option<ServiceWorkerRegistration>,
    calls: Vec<ScriptThreadCall<'a>>,
)
    requires
        !script_trustworthy || job.referrer@.origin is None || job.script_url@.origin
            != job.referrer@.origin || job.scope_url@.origin != job.referrer@.origin,
        call_ensures(
            JobQueue::run_register,
            (&queue, job, handler, script_trustworthy, registration),
            calls,
        ),
    ensures
        calls@.len() == 1,
        calls@[0] is QueueServiceworkerJob,
        ({
            let queued = calls@[0]->QueueServiceworkerJob_0;
            &&& queued.handler.scope_url@ == handler.scope_url@
            &&& queued.global == job.client.global
            &&& queued.handler.invoke_type is Settle
            &&& queued.handler.invoke_type->Settle_0 is Reject
            &&& !script_trustworthy ==> rejects_with_type_error(
                queued,
                handler.scope_url,
                "Invalid script ServoURL"@,
                job.client.global,
            )
            &&& script_trustworthy ==> queued.handler.invoke_type->Settle_0->Reject_0 is Security
        }),
{
    let views = calls_view(calls@);
    assert(views.len() == calls@.len());
    assert(views[0] == calls@[0]@);
    let queued = calls@[0]->QueueServiceworkerJob_0;
    assert(queued@.handler.invoke_type == queued.handler.invoke_type@);
}

/// A job that may register and whose scope has no registration gets one: of the job's
/// script, for the scope that the handler names, stored under the job's scope, in the
/// pipeline of the client's global. Then the job is updated, and that is all: it is neither
/// settled nor finished.
pub proof fn law_missing_registrations_are_added<'a>(
    queue: JobQueue,
    job: &'a Job,
    handler: Box<AsyncJobHandler>,
    calls: Vec<ScriptThreadCall<'a>>,
)
    requires
        job.referrer@.origin is Some,
        job.script_url@.origin == job.referrer@.origin,
        job.scope_url@.origin == job.referrer@.origin,
        call_ensures(
            JobQueue::run_register,
            (&queue, job, handler, true, None::<ServiceWorkerRegistration>),
            calls,
        ),
    ensures
        calls@.len() == 2,
        calls@[0] is AddRegistration,
        calls@[0]->AddRegistration_global == job.client.global,
        calls@[0]->script_url@ == job.script_url@,
        calls@[0]->scope_url@ == handler.scope_url@,
        calls@[0]->job_scope_url@ == job.scope_url@,
        calls@[0]->pipeline_id == job.client.global.pipeline_id,
        calls@[1] is InvokeJobUpdate,
        calls@[1]->job@ == job@,
        calls@[1]->InvokeJobUpdate_global == job.client.global,
{
    let views = calls_view(calls@);
    assert(views.len() == calls@.len());
    assert(views[0] == calls@[0]@);
    assert(views[1] == calls@[1]@);
}

/// A job that may register and whose scope has a registration keeps it: one that was being
/// removed is marked as staying, first of all. Exactly if its newest worker runs the job's
/// script, the job is resolved with it, for the scope that the handler names, and finished
/// right after, for its own scope. Last of all the job is updated. Nothing else happens: in
/// particular, a job that is not resolved is not finished.
pub proof fn law_registrations_that_are_there_are_kept<'a>(
    queue: JobQueue,
    job: &'a Job,
    handler: Box<AsyncJobHandler>,
    found: ServiceWorkerRegistration,
    calls: Vec<ScriptThreadCall<'a>>,
)
    requires
        job.referrer@.origin is Some,
        job.script_url@.origin == job.referrer@.origin,
        job.scope_url@.origin == job.referrer@.origin,
        call_ensures(JobQueue::run_register, (&queue, job, handler, true, Some(found)), calls),
    ensures
        ({
            let known = runs_script(found.newest_worker, *job);
            let kept: int = if found.uninstalling {
                1
            } else {
                0
            };
            let settled: int = if known {
                2
            } else {
                0
            };
            &&& calls@.len() == kept + settled + 1
            &&& found.uninstalling ==> calls@[0] is SetUninstalling && calls@[0]->registration
                == found.handle && !calls@[0]->uninstalling
            &&& known ==> {
                let queued = calls@[kept]->QueueServiceworkerJob_0;
                &&& calls@[kept] is QueueServiceworkerJob
                &&& queued.handler.scope_url@ == handler.scope_url@
                &&& queued.global == job.client.global
                &&& queued.handler.invoke_type is Settle
                &&& queued.handler.invoke_type->Settle_0 is Resolve
                &&& queued.handler.invoke_type->Settle_0->Resolve_0 == found.handle
                &&& calls@[kept + 1] is QueueFinishJob
                &&& calls@[kept + 1]->handler.scope_url@ == job.scope_url@
                &&& calls@[kept + 1]->handler.global == job.client.global
                &&& calls@[kept + 1]->QueueFinishJob_global == job.client.global
            }
            &&& calls@.last() is InvokeJobUpdate
            &&& calls@.last()->job@ == job@
            &&& calls@.last()->InvokeJobUpdate_global == job.client.global
        }),
{
    let known = runs_script(found.newest_worker, *job);
    let kept: int = if found.uninstalling {
        1
    } else {
        0
    };
    let views = calls_view(calls@);
    assert(views.len() == calls@.len());
    assert forall|i: int| 0 <= i < calls@.len() implies #[trigger] views[i] == calls@[i]@ by {}
    assert(views[0] == calls@[0]@);
    assert(views[calls@.len() - 1] == calls@.last()@);
    if known {
        let queued = calls@[kept]->QueueServiceworkerJob_0;
        assert(views[kept] == calls@[kept]@);
        assert(views[kept + 1] == calls@[kept + 1]@);
        assert(queued@.handler.invoke_type == queued.handler.invoke_type@);
    }
}

/// Nothing comes of an update exactly if there is no registration, or it is there to stay
/// and has no worker.
pub proof fn law_nothing_to_update_without_a_worker(
    queue: JobQueue,
    job: Job,
    registration: Option<ServiceWorkerRegistration>,
    global: GlobalScope,
    step: UpdateStep,
)
    requires
        call_ensures(JobQueue::update, (&queue, &job, registration, global), step),
    ensures
        step is Nothing <==> registration is None || (!registration->0.uninstalling
            && registration->0.newest_worker is None),
{
}

/// An update is rejected, for the job's scope on behalf of the global that was given,
/// exactly if the registration is being removed, or the job updates to the script that the
/// newest worker runs; each for its own reason.
pub proof fn law_updates_are_rejected_for_a_reason(
    queue: JobQueue,
    job: Job,
    registration: Option<ServiceWorkerRegistration>,
    global: GlobalScope,
    step: UpdateStep,
)
    requires
        call_ensures(JobQueue::update, (&queue, &job, registration, global), step),
    ensures
        step is Reject <==> registration is Some && (registration->0.uninstalling || (
        job.job_type is Update && runs_script(registration->0.newest_worker, job))),
        step is Reject && registration->0.uninstalling ==> rejects_with_type_error(
            step->Reject_0,
            job.scope_url,
            "Update called on an uninstalling registration"@,
            global,
        ),
        step is Reject && !registration->0.uninstalling ==> rejects_with_type_error(
            step->Reject_0,
            job.scope_url,
            "Invalid script ServoURL"@,
            global,
        ),
{
    if step is Reject {
        let queued = step->Reject_0;
        assert(step@->Reject_0 == queued@);
        assert(queued@.handler.invoke_type == queued.handler.invoke_type@);
    }
}

/// An update fetches exactly if the registration is there to stay and has a worker, and the
/// job does not update to the script which that worker runs already. It is the job's script
/// that is fetched, for the job's scope, bypassing the cache if the job says so, on behalf
/// of the global that was given and in its pipeline, for the registration that was found.
pub proof fn law_updates_fetch_the_script_of_the_job(
    queue: JobQueue,
    job: Job,
    registration: Option<ServiceWorkerRegistration>,
    global: GlobalScope,
    step: UpdateStep,
)
    requires
        call_ensures(JobQueue::update, (&queue, &job, registration, global), step),
    ensures
        step is Fetch <==> registration is Some && !registration->0.uninstalling
            && registration->0.newest_worker is Some && (!(job.job_type is Update) || !runs_script(
            registration->0.newest_worker,
            job,
        )),
        step is Fetch ==> {
            let update = step->Fetch_0;
            &&& update.script_url@ == job.script_url@
            &&& update.scope_url@ == job.scope_url@
            &&& update.force_bypass_cache == job.force_bypass_cache
            &&& update.global == global
            &&& update.pipeline_id == global.pipeline_id
            &&& update.registration.handle == registration->0.handle
            &&& !update.registration.uninstalling
            &&& update.registration.use_cache == registration->0.use_cache
            &&& update.registration.update_time_check == registration->0.update_time_check
            &&& update.registration.newest_worker is Some
            &&& update.registration.newest_worker->0.script_url@
                == registration->0.newest_worker->0.script_url@
        },
{
}

/// Whether a listener waits for the response to a request, with nothing received yet.
pub open spec fn waits_for(fetch: ScriptFetch, global: GlobalScope, reg_scope: ServoUrl) -> bool {
    &&& fetch.listener.data@.len() == 0
    &&& fetch.listener.metadata is None
    &&& fetch.listener.status is Ok
    &&& fetch.listener.url@ == fetch.request.url@
    &&& fetch.listener.global == global
    &&& fetch.listener.reg_scope@ == reg_scope@
}

/// A fetch sends the request as it is, and its listener has received nothing.
pub proof fn law_fetches_send_the_request(
    req: Request,
    global: GlobalScope,
    reg_scope: ServoUrl,
    fetch: ScriptFetch,
)
    requires
        call_ensures(fetch_async, (req, global, &reg_scope), fetch),
    ensures
        fetch.request.url@ == req.url@,
        fetch.request.pipeline_id == req.pipeline_id,
        fetch.request.cache_mode == req.cache_mode,
        fetch.request.redirect_mode == req.redirect_mode,
        fetch.request.skip_service_worker == req.skip_service_worker,
        fetch.request.headers@ == req.headers@,
        waits_for(fetch, global, reg_scope),
{
    assert(fetch@.listener == fetch.listener@);
}

/// The line that marks a request as one for a script.
pub open spec fn script_line() -> Seq<u8> {
    seq![0x73u8, 0x63, 0x72, 0x69, 0x70, 0x74]
}

/// Whether a request is sent on from another: to the same place, and bypassing the cache
/// or not. One that bypasses the cache is otherwise unchanged. Any other is not seen by
/// service workers, and if it is for a top-level script, it is marked so and fails on a
/// redirect; otherwise these are unchanged. No other header changes.
pub open spec fn sent_on(sent: Request, req: Request, is_top_level: bool, bypass: bool) -> bool {
    let marked = is_top_level && !bypass;
    &&& sent.url@ == req.url@
    &&& sent.pipeline_id == req.pipeline_id
    &&& bypass ==> sent.cache_mode is NoCache
    &&& !bypass ==> sent.cache_mode == req.cache_mode
    &&& bypass ==> sent.skip_service_worker == req.skip_service_worker
    &&& !bypass ==> sent.skip_service_worker
    &&& marked ==> sent.redirect_mode is Error
    &&& !marked ==> sent.redirect_mode == req.redirect_mode
    &&& marked ==> sent.headers@.contains_key("serviceworker"@)
    &&& marked ==> sent.headers@["serviceworker"@] == seq![script_line()]
    &&& !marked ==> sent.headers@ == req.headers@
    &&& forall|name: Seq<char>|
        name != "serviceworker"@ ==> #[trigger] sent.headers@.contains_key(name)
            == req.headers@.contains_key(name) && (req.headers@.contains_key(name)
            ==> sent.headers@[name] == req.headers@[name])
}

proof fn lemma_script_header()
    ensures
        lower("ServiceWorker"@) == "serviceworker"@,
        vstd::utf8::encode_utf8("script"@) == script_line(),
{
    reveal_strlit("ServiceWorker");
    reveal_strlit("serviceworker");
    reveal_strlit("script");
    assert(lower("ServiceWorker"@) =~= "serviceworker"@);
    assert(vstd::utf8::is_ascii_chars("script"@));
    vstd::utf8::is_ascii_chars_encode_utf8("script"@);
    assert(vstd::utf8::encode_utf8("script"@) =~= script_line());
}

/// The cache is bypassed if the registration may not use it, or if that is forced, or if
/// the registration was last updated too long ago: any one of these is enough, whatever the
/// others are, and without any of them the cache is used.
pub proof fn law_any_reason_bypasses_the_cache(
    req: Request,
    is_top_level: bool,
    use_cache: bool,
    force_bypass_cache: bool,
    reg: ServiceWorkerRegistration,
    global: GlobalScope,
    reg_scope: ServoUrl,
    fetch: ScriptFetch,
)
    requires
        call_ensures(
            perform_fetch_hook_and_fetch,
            (req, is_top_level, use_cache, force_bypass_cache, &reg, global, &reg_scope),
            fetch,
        ),
    ensures
        !use_cache ==> sent_on(fetch.request, req, is_top_level, true),
        force_bypass_cache ==> sent_on(fetch.request, req, is_top_level, true),
        reg.update_time_check is Some && reg.update_time_check->0 ==> sent_on(
            fetch.request,
            req,
            is_top_level,
            true,
        ),
        use_cache && !force_bypass_cache && (reg.update_time_check is None
            || !reg.update_time_check->0) ==> sent_on(fetch.request, req, is_top_level, false),
        waits_for(fetch, global, reg_scope),
{
    lemma_script_header();
    assert(fetch@.listener == fetch.listener@);
}

/// A script that an update fetches is top level. The cache is bypassed if the registration
/// may not use it, or the update forces that, or the registration was last updated too long
/// ago. The listener is for the scope and the global of the update.
pub proof fn law_updates_fetch_top_level_scripts(update: ScriptUpdate, req: Request, fetch: ScriptFetch)
    requires
        call_ensures(ScriptUpdate::fetch, (&update, req), fetch),
    ensures
        sent_on(
            fetch.request,
            req,
            true,
            !update.registration.use_cache || update.force_bypass_cache
                || update.registration.update_time_check == Some(true),
        ),
        waits_for(fetch, update.global, update.scope_url),
{
    lemma_script_header();
    assert(fetch@.listener == fetch.listener@);
}

} // verus!
