//! What the calls on jobs, queues and registrations come to, told by what goes in and what
//! comes out.

use crate::handler::{
    reject_promise_job, AsyncJobHandler, FinishJobHandler, InvokeType, InvokeView, QueuedJob, SettleView,
};
use crate::job::{Client, GlobalScope, Job, JobType, JobView, Promise};
use crate::queue::JobQueue;
use crate::servo_url::ServoUrl;
use vstd::prelude::*;

verus! {

/// What is told of a job is what it holds, attached jobs included.
pub proof fn law_jobs_are_told_by_their_fields(job: Job)
    ensures
        job@.job_type == job.job_type,
        job@.scope_url == job.scope_url@,
        job@.script_url == job.script_url@,
        job@.promise == job.promise,
        job@.client.id == job.client.id,
        job@.client.creation_url == job.client.creation_url@,
        job@.client.global == job.client.global,
        job@.referrer == job.referrer@,
        job@.force_bypass_cache == job.force_bypass_cache,
        job@.equivalent_jobs.len() == job.equivalent_jobs@.len(),
        forall|i: int|
            0 <= i < job.equivalent_jobs@.len() ==> #[trigger] job@.equivalent_jobs[i]
                == job.equivalent_jobs@[i]@,
{
}

/// A job that is made is what was asked for, on behalf of the client that asks: the
/// referrer is the client's URL, no job is attached, and the cache may be used.
pub proof fn law_made_jobs_are_what_was_asked_for(
    job_type: JobType,
    scope_url: ServoUrl,
    script_url: ServoUrl,
    promise: Promise,
    client: Client,
    made: Job,
)
    requires
        call_ensures(Job::create_job, (job_type, scope_url, script_url, promise, &client), made),
    ensures
        made.job_type == job_type,
        made.scope_url@ == scope_url@,
        made.script_url@ == script_url@,
        made.promise == promise,
        made.client.id == client.id,
        made.client.creation_url@ == client.creation_url@,
        made.client.global == client.global,
        made.referrer@ == client.creation_url@,
        made.equivalent_jobs@.len() == 0,
        !made.force_bypass_cache,
{
    assert(made@.equivalent_jobs.len() == made.equivalent_jobs@.len());
}

/// A job that is attached comes behind those attached before, and nothing else of the job
/// changes.
pub proof fn law_attaching_adds_at_the_end(job: &mut Job, added: Job, done: ())
    requires
        call_ensures(Job::append_equivalent_job, (job, added), done),
    ensures
        final(job).equivalent_jobs@.len() == old(job).equivalent_jobs@.len() + 1,
        final(job).equivalent_jobs@.last()@ == added@,
        forall|i: int|
            0 <= i < old(job).equivalent_jobs@.len() ==> (#[trigger] final(job).equivalent_jobs@[i])@
                == old(job).equivalent_jobs@[i]@,
        final(job).job_type == old(job).job_type,
        final(job).scope_url@ == old(job).scope_url@,
        final(job).script_url@ == old(job).script_url@,
        final(job).promise == old(job).promise,
        final(job).client@ == old(job).client@,
        final(job).referrer@ == old(job).referrer@,
        final(job).force_bypass_cache == old(job).force_bypass_cache,
{
    let before = old(job)@.equivalent_jobs;
    let after = final(job)@.equivalent_jobs;
    assert(after.len() == final(job).equivalent_jobs@.len());
    assert(before.len() == old(job).equivalent_jobs@.len());
    assert(after.last() == added@);
    assert forall|i: int| 0 <= i < old(job).equivalent_jobs@.len() implies (
    #[trigger] final(job).equivalent_jobs@[i])@ == old(job).equivalent_jobs@[i]@ by {
        assert(after[i] == before[i]);
    }
}

/// Two jobs are equal exactly if they are of one type and for one scope, and, unless they
/// unregister, for one script; scopes and scripts are told apart by the whole of their
/// URLs. Nothing else counts.
pub proof fn law_equal_jobs_ask_for_the_same(a: Job, b: Job, equal: bool)
    requires
        call_ensures(<Job as PartialEq>::eq, (&a, &b), equal),
    ensures
        equal ==> a.job_type == b.job_type,
        equal ==> a.scope_url@.serialization == b.scope_url@.serialization,
        equal && (a.job_type is Register || a.job_type is Update) ==> a.script_url@.serialization
            == b.script_url@.serialization,
        a.job_type == b.job_type && a.scope_url@.serialization == b.scope_url@.serialization && (
        a.script_url@.serialization == b.script_url@.serialization || a.job_type is Unregister)
            ==> equal,
{
}

/// A queue that is made knows no scope.
pub proof fn law_made_queues_are_empty(queue: JobQueue)
    requires
        call_ensures(JobQueue::new, (), queue),
    ensures
        forall|scope: Seq<char>| !#[trigger] queue@.contains_key(scope),
{
}

/// The jobs that a queue holds for a scope.
pub open spec fn held(queue: Map<Seq<char>, Seq<JobView>>, scope: Seq<char>) -> Seq<JobView> {
    if queue.contains_key(scope) {
        queue[scope]
    } else {
        Seq::empty()
    }
}

/// The front job is the first that is held for a scope, the last promise that of the last
/// one; a scope is known if the queue has an entry for it.
pub proof fn law_queues_are_read_from_both_ends(
    queue: JobQueue,
    scope_url: ServoUrl,
    front: Option<&Job>,
    last: Option<Promise>,
    known: bool,
)
    requires
        call_ensures(JobQueue::front_job, (&queue, &scope_url), front),
        call_ensures(JobQueue::last_promise, (&queue, &scope_url), last),
        call_ensures(JobQueue::has_scope, (&queue, &scope_url), known),
    ensures
        ({
            let key = scope_url@.serialization;
            let waits = queue@.contains_key(key) && queue@[key].len() > 0;
            &&& front is Some <==> waits
            &&& last is Some <==> waits
            &&& waits ==> front->0@ == queue@[key].first()
            &&& waits ==> last->0 == queue@[key].last().promise
            &&& known <==> queue@.contains_key(key)
        }),
{
}

/// A job joins the last one of its scope exactly if it is of its type, and for its script
/// unless it unregisters, and the last one's promise is not settled. It is then attached
/// to that job behind all others. Any other job goes to the end as it is. The other jobs,
/// and those of other scopes, stay as they are.
pub proof fn law_scheduled_jobs_join_or_wait(
    queue: &mut JobQueue,
    job: Job,
    last_settled: bool,
    global: GlobalScope,
    queued: Option<QueuedJob>,
)
    requires
        call_ensures(JobQueue::schedule_job, (queue, job, last_settled, global), queued),
    ensures
        ({
            let key = job.scope_url@.serialization;
            let before = held(old(queue)@, key);
            let after = held(final(queue)@, key);
            let last = before.last();
            let joins = before.len() > 0 && !last_settled && last.scope_url.serialization == key
                && last.job_type == job.job_type && (job.job_type is Unregister
                || last.script_url.serialization == job.script_url@.serialization);
            &&& final(queue)@.contains_key(key)
            &&& forall|i: int| 0 <= i < before.len() - 1 ==> #[trigger] after[i] == before[i]
            &&& joins ==> {
                &&& after.len() == before.len()
                &&& after.last().equivalent_jobs.len() == last.equivalent_jobs.len() + 1
                &&& after.last().equivalent_jobs.last() == job@
                &&& after.last().equivalent_jobs.drop_last() == last.equivalent_jobs
                &&& after.last().job_type == last.job_type
                &&& after.last().scope_url == last.scope_url
                &&& after.last().script_url == last.script_url
                &&& after.last().promise == last.promise
                &&& after.last().client == last.client
                &&& after.last().referrer == last.referrer
                &&& after.last().force_bypass_cache == last.force_bypass_cache
            }
            &&& !joins ==> {
                &&& after.len() == before.len() + 1
                &&& after.last() == job@
                &&& before.len() > 0 ==> after[before.len() - 1] == last
            }
            &&& forall|scope: Seq<char>|
                scope != key ==> (#[trigger] final(queue)@.contains_key(scope) == old(
                    queue,
                )@.contains_key(scope)) && held(final(queue)@, scope) == held(old(queue)@, scope)
        }),
{
    let key = job.scope_url@.serialization;
    let before = held(old(queue)@, key);
    let after = held(final(queue)@, key);
    assert(after.len() == before.len() ==> after.last().equivalent_jobs.drop_last()
        =~= before.last().equivalent_jobs);
}

/// A run is queued for a scheduled job exactly if its scope held no job, for the job's
/// scope, on behalf of the global that was given.
pub proof fn law_scheduling_runs_the_first_job(
    queue: &mut JobQueue,
    job: Job,
    last_settled: bool,
    global: GlobalScope,
    queued: Option<QueuedJob>,
)
    requires
        call_ensures(JobQueue::schedule_job, (queue, job, last_settled, global), queued),
    ensures
        queued is Some <==> held(old(queue)@, job.scope_url@.serialization).len() == 0,
        queued is Some ==> queued->0.handler.invoke_type is Run && queued->0.handler.scope_url@
            == job.scope_url@ && queued->0.global == global,
{
    if queued is Some {
        assert(queued->0@.handler.invoke_type == InvokeView::Run);
    }
}

/// Finishing takes the first job of the scope away and nothing else, and queues a run for
/// the scope exactly if there was a second one.
pub proof fn law_finishing_takes_the_first_job(
    queue: &mut JobQueue,
    scope_url: ServoUrl,
    global: GlobalScope,
    queued: Option<QueuedJob>,
)
    requires
        call_ensures(JobQueue::finish_job, (queue, scope_url, global), queued),
    ensures
        ({
            let key = scope_url@.serialization;
            let before = held(old(queue)@, key);
            let after = held(final(queue)@, key);
            &&& before.len() == 0 ==> after.len() == 0
            &&& before.len() > 0 ==> after.len() == before.len() - 1
            &&& forall|i: int| 0 <= i < after.len() ==> #[trigger] after[i] == before[i + 1]
            &&& forall|scope: Seq<char>|
                #[trigger] final(queue)@.contains_key(scope) == old(queue)@.contains_key(scope)
            &&& forall|scope: Seq<char>|
                scope != key ==> #[trigger] held(final(queue)@, scope) == held(old(queue)@, scope)
            &&& queued is Some <==> before.len() >= 2
            &&& queued is Some ==> queued->0.handler.invoke_type is Run
                && queued->0.handler.scope_url@ == scope_url@ && queued->0.global == global
        }),
{
    if queued is Some {
        assert(queued->0@.handler.invoke_type == InvokeView::Run);
    }
}

/// Running queues what the front job asks for, for the scope that is run, on behalf of the
/// global of the front job's client. For a job that unregisters nothing is queued.
pub proof fn law_running_queues_what_the_front_job_asks_for(
    queue: JobQueue,
    handler: Box<AsyncJobHandler>,
    queued: Option<QueuedJob>,
)
    requires
        held(queue@, handler.scope_url@.serialization).len() > 0,
        call_ensures(JobQueue::run_job, (&queue, handler), queued),
    ensures
        ({
            let front = held(queue@, handler.scope_url@.serialization).first();
            &&& queued is None <==> front.job_type is Unregister
            &&& front.job_type is Register ==> queued->0.handler.invoke_type is Register
            &&& front.job_type is Update ==> queued->0.handler.invoke_type is Update
            &&& queued is Some ==> queued->0.handler.scope_url@ == handler.scope_url@
                && queued->0.global == front.client.global
        }),
{
    if queued is Some {
        assert(queued->0@.handler.invoke_type == queued->0.handler.invoke_type@);
    }
}

/// Whether a handler rejects a promise with a `TypeError`, for a scope and a global.
pub open spec fn rejects_with_type_error(
    queued: QueuedJob,
    scope_url: ServoUrl,
    message: Seq<char>,
    global: GlobalScope,
) -> bool {
    &&& queued.handler.scope_url@ == scope_url@
    &&& queued.global == global
    &&& queued.handler.invoke_type is Settle
    &&& queued.handler.invoke_type->Settle_0 is Reject
    &&& queued.handler.invoke_type->Settle_0->Reject_0 is Type
    &&& queued.handler.invoke_type->Settle_0->Reject_0->Type_0@ == message
}

/// Handlers are made of what was given for them; a promise is rejected with a `TypeError`
/// that gives the reason.
pub proof fn law_handlers_are_made_of_what_was_given(
    scope_url: ServoUrl,
    invoke_type: InvokeType,
    global: GlobalScope,
    reason: &str,
    asked: AsyncJobHandler,
    finish: FinishJobHandler,
    queued: QueuedJob,
    rejected: QueuedJob,
)
    requires
        call_ensures(AsyncJobHandler::new, (scope_url, invoke_type), asked),
        call_ensures(FinishJobHandler::new, (scope_url, global), finish),
        call_ensures(QueuedJob::new, (scope_url, invoke_type, global), queued),
        call_ensures(reject_promise_job, (reason, global, &scope_url), rejected),
    ensures
        asked.scope_url@ == scope_url@,
        asked.invoke_type@ == invoke_type@,
        finish.scope_url@ == scope_url@,
        finish.global == global,
        queued.handler.scope_url@ == scope_url@,
        queued.handler.invoke_type@ == invoke_type@,
        queued.global == global,
        rejects_with_type_error(rejected, scope_url, reason@, global),
{
    assert(rejected@.handler.invoke_type == rejected.handler.invoke_type@);
}

/// Two operations to be invoked are told apart: which of them it is, what a promise is
/// resolved with, and the error and message that it is rejected with.
pub proof fn law_operations_are_told_apart(a: InvokeType, b: InvokeType)
    ensures
        a@ == b@ ==> (a is Run <==> b is Run) && (a is Register <==> b is Register) && (a is Update
            <==> b is Update),
        a is Settle ==> a@ is Settle,
        a is Settle && a->Settle_0 is Resolve ==> a@->Settle_0 == SettleView::Resolve(
            a->Settle_0->Resolve_0,
        ),
        a is Settle && a->Settle_0 is Reject ==> a@->Settle_0 == SettleView::Reject(
            a->Settle_0->Reject_0@,
        ),
        a is Settle && a->Settle_0 is Reject && a->Settle_0->Reject_0 is Type
            ==> a@->Settle_0->Reject_0->Type_0 == a->Settle_0->Reject_0->Type_0@,
        a is Settle && a->Settle_0 is Reject && a->Settle_0->Reject_0 is Security
            ==> a@->Settle_0->Reject_0 is Security,
{
}

} // verus!
