//! What holds of the job queue whatever is scheduled and finished.

use crate::handler::QueuedJobView;
use crate::job::{equivalent, GlobalScope, JobView};
use crate::queue::{
    enqueued, finished, jobs_for, keyed_by_scope, run_after_finishing, run_after_scheduling, scheduled,
};
use crate::servo_url::UrlView;
use vstd::prelude::*;

verus! {

/// Whether the jobs that are settled along with a job ask for the same as it does.
pub open spec fn attachments_equivalent(job: JobView) -> bool {
    forall|i: int|
        0 <= i < job.equivalent_jobs.len() ==> equivalent(#[trigger] job.equivalent_jobs[i], job)
}

/// Whether this holds of every job in the queue.
pub open spec fn all_attachments_equivalent(queue: Map<Seq<char>, Seq<JobView>>) -> bool {
    forall|scope: Seq<char>, i: int|
        queue.contains_key(scope) && 0 <= i < queue[scope].len() ==> attachments_equivalent(
            #[trigger] queue[scope][i],
        )
}

/// A job with its attached jobs left out of account.
pub open spec fn unattached(job: JobView) -> JobView {
    JobView { equivalent_jobs: Seq::empty(), ..job }
}

/// The queue once the front job of a scope has been finished a number of times.
pub open spec fn finished_times(
    queue: Map<Seq<char>, Seq<JobView>>,
    scope: UrlView,
    times: nat,
) -> Map<Seq<char>, Seq<JobView>>
    decreases times,
{
    if times == 0 {
        queue
    } else {
        finished(finished_times(queue, scope, (times - 1) as nat), scope)
    }
}

/// Something that happens to a queue.
pub ghost enum QueueEvent {
    Schedule { job: JobView, last_settled: bool, global: GlobalScope },
    Finish { scope: UrlView, global: GlobalScope },
}

/// The queue after an event.
pub open spec fn after_event(queue: Map<Seq<char>, Seq<JobView>>, event: QueueEvent) -> Map<
    Seq<char>,
    Seq<JobView>,
> {
    match event {
        QueueEvent::Schedule { job, last_settled, .. } => scheduled(queue, job, last_settled),
        QueueEvent::Finish { scope, .. } => finished(queue, scope),
    }
}

/// What is queued after an event.
pub open spec fn run_after_event(
    queue: Map<Seq<char>, Seq<JobView>>,
    event: QueueEvent,
) -> Option<QueuedJobView> {
    match event {
        QueueEvent::Schedule { job, global, .. } => run_after_scheduling(queue, job, global),
        QueueEvent::Finish { scope, global } => run_after_finishing(queue, scope, global),
    }
}

/// The queue that a run of events makes of an empty one.
pub open spec fn history(events: Seq<QueueEvent>) -> Map<Seq<char>, Seq<JobView>>
    decreases events.len(),
{
    if events.len() == 0 {
        Map::empty()
    } else {
        after_event(history(events.drop_last()), events.last())
    }
}

/// How many runs a run of events queues for a scope.
pub open spec fn runs(events: Seq<QueueEvent>, scope: UrlView) -> nat
    decreases events.len(),
{
    if events.len() == 0 {
        0
    } else {
        let run = run_after_event(history(events.drop_last()), events.last());
        runs(events.drop_last(), scope) + if run is Some && run->0.handler.scope_url.serialization
            == scope.serialization {
            1nat
        } else {
            0nat
        }
    }
}

/// How many jobs of a scope a run of events finishes.
pub open spec fn finishes(events: Seq<QueueEvent>, scope: UrlView) -> nat
    decreases events.len(),
{
    if events.len() == 0 {
        0
    } else {
        let done = match events.last() {
            QueueEvent::Schedule { .. } => false,
            QueueEvent::Finish { scope: of, .. } => of.serialization == scope.serialization
                && jobs_for(history(events.drop_last()), of).len() > 0,
        };
        finishes(events.drop_last(), scope) + if done {
            1nat
        } else {
            0nat
        }
    }
}

/// How many promises are settled with a job: its own, and those of the jobs attached.
pub open spec fn promises(job: JobView) -> nat {
    1 + job.equivalent_jobs.len()
}

/// How many promises are settled with a run of jobs.
pub open spec fn all_promises(jobs: Seq<JobView>) -> nat
    decreases jobs.len(),
{
    if jobs.len() == 0 {
        0
    } else {
        all_promises(jobs.drop_last()) + promises(jobs.last())
    }
}

/// How many jobs a run of events schedules for a scope.
pub open spec fn asked_for(events: Seq<QueueEvent>, scope: UrlView) -> nat
    decreases events.len(),
{
    if events.len() == 0 {
        0
    } else {
        asked_for(events.drop_last(), scope) + match events.last() {
            QueueEvent::Schedule { job, .. } => if job.scope_url.serialization
                == scope.serialization {
                1nat
            } else {
                0nat
            },
            QueueEvent::Finish { .. } => 0nat,
        }
    }
}

/// How many promises the jobs of a scope settle that a run of events finishes.
pub open spec fn done_with(events: Seq<QueueEvent>, scope: UrlView) -> nat
    decreases events.len(),
{
    if events.len() == 0 {
        0
    } else {
        let jobs = jobs_for(history(events.drop_last()), scope);
        done_with(events.drop_last(), scope) + match events.last() {
            QueueEvent::Schedule { .. } => 0nat,
            QueueEvent::Finish { scope: of, .. } => if of.serialization == scope.serialization
                && jobs.len() > 0 {
                promises(jobs[0])
            } else {
                0nat
            },
        }
    }
}

/// Taking the front job off a run of jobs takes its promises off.
proof fn lemma_front_promises(jobs: Seq<JobView>)
    requires
        jobs.len() > 0,
    ensures
        all_promises(jobs) == promises(jobs[0]) + all_promises(jobs.drop_first()),
    decreases jobs.len(),
{
    if jobs.len() == 1 {
        assert(all_promises(jobs.drop_last()) == 0);
        assert(all_promises(jobs.drop_first()) == 0);
    } else {
        lemma_front_promises(jobs.drop_last());
        assert(jobs.drop_first().drop_last() =~= jobs.drop_last().drop_first());
    }
}

/// A job that comes in adds one promise, wherever it goes.
proof fn lemma_enqueued_promises(jobs: Seq<JobView>, job: JobView, last_settled: bool)
    requires
        job.equivalent_jobs.len() == 0,
    ensures
        all_promises(enqueued(jobs, job, last_settled)) == all_promises(jobs) + 1,
{
    let after = enqueued(jobs, job, last_settled);
    if after.len() == jobs.len() {
        assert(after.drop_last() =~= jobs.drop_last());
    } else {
        assert(after.drop_last() =~= jobs);
    }
}

/// No job is lost: if every job is scheduled as it was made, without jobs attached, then
/// whatever happens to a queue that starts out empty, the jobs that were scheduled for a
/// scope are as many as the promises of those finished and those still waiting.
pub proof fn law_every_scheduled_job_is_accounted_for(events: Seq<QueueEvent>, scope: UrlView)
    requires
        forall|i: int|
            0 <= i < events.len() ==> (#[trigger] events[i] matches QueueEvent::Schedule { job, .. }
                ==> job.equivalent_jobs.len() == 0),
    ensures
        asked_for(events, scope) == done_with(events, scope) + all_promises(
            jobs_for(history(events), scope),
        ),
    decreases events.len(),
{
    if events.len() > 0 {
        let before = events.drop_last();
        assert forall|i: int| 0 <= i < before.len() implies (
        #[trigger] before[i] matches QueueEvent::Schedule { job, .. } ==> job.equivalent_jobs.len()
            == 0) by {
            assert(before[i] == events[i]);
        }
        law_every_scheduled_job_is_accounted_for(before, scope);
        let jobs = jobs_for(history(before), scope);
        assert(events[events.len() - 1] == events.last());
        match events.last() {
            QueueEvent::Schedule { job, last_settled, .. } => {
                lemma_enqueued_promises(jobs, job, last_settled);
            },
            QueueEvent::Finish { .. } => {
                if jobs.len() > 0 {
                    lemma_front_promises(jobs);
                }
            },
        }
    }
}

/// Whatever happens to a queue that starts out empty, every job in it stands under its
/// own scope.
pub proof fn law_jobs_always_stand_under_their_scope(events: Seq<QueueEvent>)
    ensures
        keyed_by_scope(history(events)),
    decreases events.len(),
{
    if events.len() > 0 {
        law_jobs_always_stand_under_their_scope(events.drop_last());
        let queue = history(events.drop_last());
        match events.last() {
            QueueEvent::Schedule { job, last_settled, .. } => {
                law_jobs_stay_under_their_scope(queue, job, last_settled, job.scope_url);
            },
            QueueEvent::Finish { scope, .. } => {
                law_jobs_stay_under_their_scope(queue, arbitrary(), false, scope);
            },
        }
    }
}

/// Whatever happens to a queue that starts out empty, the jobs that are settled along with
/// a job ask for the same as it does, if that held of every job when it was scheduled; as
/// it does of one without jobs attached.
pub proof fn law_attached_jobs_are_always_equivalent(events: Seq<QueueEvent>)
    requires
        forall|i: int|
            0 <= i < events.len() ==> (#[trigger] events[i] matches QueueEvent::Schedule { job, .. }
                ==> attachments_equivalent(job)),
    ensures
        all_attachments_equivalent(history(events)),
    decreases events.len(),
{
    if events.len() > 0 {
        let before = events.drop_last();
        assert forall|i: int| 0 <= i < before.len() implies (
        #[trigger] before[i] matches QueueEvent::Schedule { job, .. } ==> attachments_equivalent(job))
            by {
            assert(before[i] == events[i]);
        }
        law_attached_jobs_are_always_equivalent(before);
        let queue = history(before);
        assert(events[events.len() - 1] == events.last());
        match events.last() {
            QueueEvent::Schedule { job, last_settled, .. } => {
                law_attached_jobs_are_equivalent(queue, job, last_settled, job.scope_url);
            },
            QueueEvent::Finish { scope, .. } => {
                if jobs_for(queue, scope).len() > 0 {
                    law_attached_jobs_are_equivalent(queue, jobs_for(queue, scope)[0], false, scope);
                }
            },
        }
    }
}

/// Whether an event scheduled the second of two jobs of a scope behind the first, and the
/// promise of the first was settled by then.
pub open spec fn came_behind_settled(
    events: Seq<QueueEvent>,
    at: int,
    scope: UrlView,
    first: JobView,
    second: JobView,
) -> bool {
    let jobs = jobs_for(history(events.take(at)), scope);
    &&& 0 <= at < events.len()
    &&& jobs.len() > 0
    &&& jobs.last() == first
    &&& events[at] matches QueueEvent::Schedule { job, last_settled, .. }
    &&& last_settled
    &&& unattached(job) == unattached(second)
    &&& job.equivalent_jobs.is_prefix_of(second.equivalent_jobs)
}

/// Whether some event did so.
pub open spec fn was_behind_settled(
    events: Seq<QueueEvent>,
    scope: UrlView,
    first: JobView,
    second: JobView,
) -> bool {
    exists|at: int| came_behind_settled(events, at, scope, first, second)
}

/// What an event did remains so when another event follows.
proof fn lemma_came_behind_before(
    events: Seq<QueueEvent>,
    scope: UrlView,
    first: JobView,
    second: JobView,
    grown: JobView,
)
    requires
        events.len() > 0,
        was_behind_settled(events.drop_last(), scope, first, second),
        unattached(grown) == unattached(second),
        second.equivalent_jobs.is_prefix_of(grown.equivalent_jobs),
    ensures
        was_behind_settled(events, scope, first, grown),
{
    let at = choose|at: int| came_behind_settled(events.drop_last(), at, scope, first, second);
    assert(events.drop_last().take(at) =~= events.take(at));
    assert(came_behind_settled(events, at, scope, first, grown));
}

/// Two jobs that ask for the same wait one right behind the other only if the promise of
/// the first was settled when the second was scheduled.
pub proof fn law_equivalent_neighbours_came_behind_settled(
    events: Seq<QueueEvent>,
    scope: UrlView,
    i: int,
)
    requires
        0 <= i < jobs_for(history(events), scope).len() - 1,
        equivalent(
            jobs_for(history(events), scope)[i + 1],
            jobs_for(history(events), scope)[i],
        ),
    ensures
        was_behind_settled(
            events,
            scope,
            jobs_for(history(events), scope)[i],
            jobs_for(history(events), scope)[i + 1],
        ),
    decreases events.len(),
{
    let before = events.drop_last();
    let jobs = jobs_for(history(before), scope);
    let after = jobs_for(history(events), scope);
    match events.last() {
        QueueEvent::Schedule { job, .. } => {
            if i + 1 < jobs.len() {
                law_equivalent_neighbours_came_behind_settled(before, scope, i);
                lemma_came_behind_before(events, scope, jobs[i], jobs[i + 1], after[i + 1]);
            } else {
                assert(events.take(events.len() - 1) =~= before);
                assert(came_behind_settled(events, events.len() - 1, scope, after[i], after[i + 1]));
            }
        },
        QueueEvent::Finish { scope: of, .. } => {
            let k: int = if of.serialization == scope.serialization {
                i + 1
            } else {
                i
            };
            law_equivalent_neighbours_came_behind_settled(before, scope, k);
            lemma_came_behind_before(events, scope, jobs[k], jobs[k + 1], jobs[k + 1]);
        },
    }
}

/// Every job that comes to the front of its scope is run exactly once: whatever happens to
/// a queue that starts out empty, as many runs have been queued for a scope as jobs of it
/// have been finished, and one more while a job is waiting.
pub proof fn law_every_front_job_is_run_once(events: Seq<QueueEvent>, scope: UrlView)
    ensures
        runs(events, scope) == finishes(events, scope) + if jobs_for(history(events), scope).len()
            > 0 {
            1nat
        } else {
            0nat
        },
    decreases events.len(),
{
    if events.len() > 0 {
        law_every_front_job_is_run_once(events.drop_last(), scope);
    }
}

/// Every job stands under its own scope at all times: in an empty queue, and after
/// scheduling and finishing if it was so before.
pub proof fn law_jobs_stay_under_their_scope(
    queue: Map<Seq<char>, Seq<JobView>>,
    job: JobView,
    last_settled: bool,
    scope: UrlView,
)
    requires
        keyed_by_scope(queue),
    ensures
        keyed_by_scope(Map::<Seq<char>, Seq<JobView>>::empty()),
        keyed_by_scope(scheduled(queue, job, last_settled)),
        keyed_by_scope(finished(queue, scope)),
{
    let key = job.scope_url.serialization;
    let after = scheduled(queue, job, last_settled);
    assert forall|s: Seq<char>, i: int|
        after.contains_key(s) && 0 <= i < after[s].len() implies (
    #[trigger] after[s][i]).scope_url.serialization == s by {
        if s == key {
            let jobs = jobs_for(queue, job.scope_url);
            if i < jobs.len() {
                assert(queue[s][i].scope_url.serialization == s);
            }
        } else {
            assert(queue[s][i].scope_url.serialization == s);
        }
    }
    let rest = finished(queue, scope);
    assert forall|s: Seq<char>, i: int|
        rest.contains_key(s) && 0 <= i < rest[s].len() implies (
    #[trigger] rest[s][i]).scope_url.serialization == s by {
        if s == scope.serialization && jobs_for(queue, scope).len() > 0 {
            assert(rest[s][i] == queue[s][i + 1]);
        } else {
            assert(rest[s][i] == queue[s][i]);
        }
    }
}

/// Jobs of one scope do not touch those of another.
pub proof fn law_scopes_are_independent(
    queue: Map<Seq<char>, Seq<JobView>>,
    job: JobView,
    last_settled: bool,
    scope: UrlView,
    other: UrlView,
)
    ensures
        other.serialization != job.scope_url.serialization ==> jobs_for(
            scheduled(queue, job, last_settled),
            other,
        ) == jobs_for(queue, other),
        other.serialization != scope.serialization ==> jobs_for(finished(queue, scope), other)
            == jobs_for(queue, other),
{
}

/// No scheduled job is lost, and none overtakes another: the jobs that were waiting keep
/// their places, at most gaining an attached job, and the new job is either the last one
/// or the last one that is attached to the last one.
pub proof fn law_scheduled_jobs_are_kept_in_order(jobs: Seq<JobView>, job: JobView, last_settled: bool)
    ensures
        ({
            let after = enqueued(jobs, job, last_settled);
            &&& jobs.len() <= after.len() <= jobs.len() + 1
            &&& forall|i: int|
                0 <= i < jobs.len() ==> unattached(#[trigger] after[i]) == unattached(jobs[i])
                    && jobs[i].equivalent_jobs.is_prefix_of(after[i].equivalent_jobs)
            &&& forall|i: int| 0 <= i < jobs.len() - 1 ==> #[trigger] after[i] == jobs[i]
            &&& if after.len() == jobs.len() {
                after.last().equivalent_jobs == jobs.last().equivalent_jobs.push(job)
            } else {
                after == jobs.push(job)
            }
        }),
{
    let after = enqueued(jobs, job, last_settled);
    assert forall|i: int| 0 <= i < jobs.len() implies unattached(#[trigger] after[i]) == unattached(
        jobs[i],
    ) && jobs[i].equivalent_jobs.is_prefix_of(after[i].equivalent_jobs) by {}
}

/// A job joins the last one exactly if it asks for the same and the last one is not
/// settled yet: the queue then does not grow.
pub proof fn law_only_pending_equivalents_join(jobs: Seq<JobView>, job: JobView, last_settled: bool)
    ensures
        enqueued(jobs, job, last_settled).len() == jobs.len() <==> (jobs.len() > 0 && equivalent(
            job,
            jobs.last(),
        ) && !last_settled),
{
}

/// Whether the last promise is settled matters only to a job that asks for the same as the
/// last one.
pub proof fn law_settled_matters_to_equivalents_only(jobs: Seq<JobView>, job: JobView)
    requires
        jobs.len() == 0 || !equivalent(job, jobs.last()),
    ensures
        enqueued(jobs, job, true) == enqueued(jobs, job, false),
{
}

/// A job that asks for the same as one just scheduled joins it, or joins what that one has
/// joined, as long as the promise there is not settled.
pub proof fn law_scheduling_again_joins(
    queue: Map<Seq<char>, Seq<JobView>>,
    first: JobView,
    last_settled: bool,
    second: JobView,
)
    requires
        equivalent(first, second),
    ensures
        ({
            let once = jobs_for(scheduled(queue, first, last_settled), first.scope_url);
            let twice = jobs_for(
                scheduled(scheduled(queue, first, last_settled), second, false),
                first.scope_url,
            );
            &&& twice.len() == once.len()
            &&& twice.drop_last() == once.drop_last()
            &&& twice.last() == once.last().with_equivalent(second)
        }),
{
    let once = jobs_for(scheduled(queue, first, last_settled), first.scope_url);
    let twice = jobs_for(
        scheduled(scheduled(queue, first, last_settled), second, false),
        first.scope_url,
    );
    assert(twice.drop_last() =~= once.drop_last());
}

/// The jobs that are settled along with a job always ask for the same as it does.
pub proof fn law_attached_jobs_are_equivalent(
    queue: Map<Seq<char>, Seq<JobView>>,
    job: JobView,
    last_settled: bool,
    scope: UrlView,
)
    requires
        all_attachments_equivalent(queue),
        attachments_equivalent(job),
    ensures
        all_attachments_equivalent(scheduled(queue, job, last_settled)),
        all_attachments_equivalent(finished(queue, scope)),
{
    let after = scheduled(queue, job, last_settled);
    assert forall|s: Seq<char>, i: int|
        after.contains_key(s) && 0 <= i < after[s].len() implies attachments_equivalent(
        #[trigger] after[s][i],
    ) by {
        if s == job.scope_url.serialization {
            let jobs = jobs_for(queue, job.scope_url);
            if i < jobs.len() {
                assert(attachments_equivalent(queue[s][i]));
                assert forall|k: int|
                    0 <= k < after[s][i].equivalent_jobs.len() implies equivalent(
                    #[trigger] after[s][i].equivalent_jobs[k],
                    after[s][i],
                ) by {
                    if k < queue[s][i].equivalent_jobs.len() {
                        assert(after[s][i].equivalent_jobs[k] == queue[s][i].equivalent_jobs[k]);
                    }
                }
            }
        } else {
            assert(attachments_equivalent(queue[s][i]));
        }
    }
    let rest = finished(queue, scope);
    assert forall|s: Seq<char>, i: int|
        rest.contains_key(s) && 0 <= i < rest[s].len() implies attachments_equivalent(
        #[trigger] rest[s][i],
    ) by {
        if s == scope.serialization && jobs_for(queue, scope).len() > 0 {
            assert(rest[s][i] == queue[s][i + 1]);
        } else {
            assert(rest[s][i] == queue[s][i]);
        }
    }
}

/// A job is run exactly when it comes to the front: after scheduling, if its scope had no
/// job; after finishing, if another job is left. A scope for which a run is queued
/// therefore has a front job, and the run is for that scope.
pub proof fn law_a_job_is_run_when_it_comes_to_the_front(
    queue: Map<Seq<char>, Seq<JobView>>,
    job: JobView,
    last_settled: bool,
    scope: UrlView,
    global: GlobalScope,
)
    ensures
        run_after_scheduling(queue, job, global) is Some <==> jobs_for(queue, job.scope_url).len()
            == 0,
        run_after_scheduling(queue, job, global) matches Some(run) ==> jobs_for(
            scheduled(queue, job, last_settled),
            run.handler.scope_url,
        ) == seq![job],
        run_after_finishing(queue, scope, global) is Some <==> jobs_for(
            finished(queue, scope),
            scope,
        ).len() > 0,
        run_after_finishing(queue, scope, global) matches Some(run) ==> jobs_for(
            finished(queue, scope),
            run.handler.scope_url,
        )[0] == jobs_for(queue, scope)[1],
{
    assert(jobs_for(queue, job.scope_url).len() == 0 ==> enqueued(
        jobs_for(queue, job.scope_url),
        job,
        last_settled,
    ) =~= seq![job]);
}

/// Jobs are finished in the order in which they wait: finishing a number of times leaves
/// the jobs behind, and finishing as often as there are jobs leaves none.
pub proof fn law_jobs_finish_in_order(queue: Map<Seq<char>, Seq<JobView>>, scope: UrlView, times: nat)
    requires
        times <= jobs_for(queue, scope).len(),
    ensures
        jobs_for(finished_times(queue, scope, times), scope) == jobs_for(queue, scope).skip(
            times as int,
        ),
    decreases times,
{
    let jobs = jobs_for(queue, scope);
    if times == 0 {
        assert(jobs.skip(0) =~= jobs);
    } else {
        law_jobs_finish_in_order(queue, scope, (times - 1) as nat);
        assert(jobs.skip(times - 1).drop_first() =~= jobs.skip(times as int));
    }
}

/// While two jobs or more wait for a scope, it does not matter whether another job is
/// scheduled before or after the front job is finished.
pub proof fn law_scheduling_commutes_with_finishing(
    queue: Map<Seq<char>, Seq<JobView>>,
    job: JobView,
    last_settled: bool,
)
    requires
        jobs_for(queue, job.scope_url).len() >= 2,
    ensures
        finished(scheduled(queue, job, last_settled), job.scope_url) == scheduled(
            finished(queue, job.scope_url),
            job,
            last_settled,
        ),
{
    let jobs = jobs_for(queue, job.scope_url);
    assert(jobs.drop_first().last() == jobs.last());
    assert(enqueued(jobs, job, last_settled).drop_first() =~= enqueued(
        jobs.drop_first(),
        job,
        last_settled,
    ));
    assert(finished(scheduled(queue, job, last_settled), job.scope_url) =~= scheduled(
        finished(queue, job.scope_url),
        job,
        last_settled,
    ));
}

/// A job for a scope that had none, once scheduled and finished, leaves no job for the
/// scope.
pub proof fn law_finishing_undoes_scheduling(
    queue: Map<Seq<char>, Seq<JobView>>,
    job: JobView,
    last_settled: bool,
    global: GlobalScope,
)
    requires
        jobs_for(queue, job.scope_url).len() == 0,
    ensures
        jobs_for(finished(scheduled(queue, job, last_settled), job.scope_url), job.scope_url)
            == jobs_for(queue, job.scope_url),
        run_after_finishing(scheduled(queue, job, last_settled), job.scope_url, global)
            == None::<QueuedJobView>,
{
    assert(jobs_for(
        finished(scheduled(queue, job, last_settled), job.scope_url),
        job.scope_url,
    ) =~= jobs_for(queue, job.scope_url));
}

} // verus!
