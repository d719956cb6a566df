//! The job queue: for each scope, the jobs that wait for it, the front job being the one
//! that runs.

use crate::handler::{invoking, queued_view, AsyncJobHandler, InvokeType, InvokeView, QueuedJob, QueuedJobView};
use crate::job::{equivalent, jobs_view, GlobalScope, Job, JobType, JobView, Promise};
use crate::servo_url::{ServoUrl, UrlView};
use vstd::hash_map::StringHashMap;
use vstd::prelude::*;

verus! {

/// The jobs of each scope, in the order in which they run. A scope is known by the
/// serialization of its URL.
pub struct JobQueue {
    /// Where the jobs of a scope are.
    index: StringHashMap<usize>,
    slots: Vec<Vec<Job>>,
}

/// The jobs that wait for a scope.
pub open spec fn jobs_for(queue: Map<Seq<char>, Seq<JobView>>, scope: UrlView) -> Seq<JobView> {
    if queue.contains_key(scope.serialization) {
        queue[scope.serialization]
    } else {
        Seq::empty()
    }
}

/// Whether every job stands under its own scope.
pub open spec fn keyed_by_scope(queue: Map<Seq<char>, Seq<JobView>>) -> bool {
    forall|scope: Seq<char>, i: int|
        queue.contains_key(scope) && 0 <= i < queue[scope].len() ==> (
        #[trigger] queue[scope][i]).scope_url.serialization == scope
}

/// The jobs of a scope once another one has come in: the new job joins the last one if it
/// asks for the same and the last one's promise is not settled yet, and otherwise goes
/// to the end.
pub open spec fn enqueued(jobs: Seq<JobView>, job: JobView, last_settled: bool) -> Seq<JobView> {
    if jobs.len() > 0 && equivalent(job, jobs.last()) && !last_settled {
        jobs.drop_last().push(jobs.last().with_equivalent(job))
    } else {
        jobs.push(job)
    }
}

/// The queue once a job has been scheduled.
pub open spec fn scheduled(
    queue: Map<Seq<char>, Seq<JobView>>,
    job: JobView,
    last_settled: bool,
) -> Map<Seq<char>, Seq<JobView>> {
    queue.insert(
        job.scope_url.serialization,
        enqueued(jobs_for(queue, job.scope_url), job, last_settled),
    )
}

/// The queue once the front job of a scope is finished.
pub open spec fn finished(
    queue: Map<Seq<char>, Seq<JobView>>,
    scope: UrlView,
) -> Map<Seq<char>, Seq<JobView>> {
    if jobs_for(queue, scope).len() > 0 {
        queue.insert(scope.serialization, jobs_for(queue, scope).drop_first())
    } else {
        queue
    }
}

/// What is queued after a job has been scheduled: a job that is the first of its scope is
/// run.
pub open spec fn run_after_scheduling(
    queue: Map<Seq<char>, Seq<JobView>>,
    job: JobView,
    global: GlobalScope,
) -> Option<QueuedJobView> {
    if jobs_for(queue, job.scope_url).len() == 0 {
        Some(invoking(job.scope_url, InvokeView::Run, global))
    } else {
        None
    }
}

/// What is queued after a job has been finished: the next job of its scope is run.
pub open spec fn run_after_finishing(
    queue: Map<Seq<char>, Seq<JobView>>,
    scope: UrlView,
    global: GlobalScope,
) -> Option<QueuedJobView> {
    if jobs_for(queue, scope).len() > 1 {
        Some(invoking(scope, InvokeView::Run, global))
    } else {
        None
    }
}

/// What is queued when a job is run: a registration or an update, on behalf of the global
/// of the job's client. Nothing is queued for a job that unregisters.
pub open spec fn run_of(front: JobView, scope: UrlView) -> Option<QueuedJobView> {
    match front.job_type {
        JobType::Register => Some(invoking(scope, InvokeView::Register, front.client.global)),
        JobType::Update => Some(invoking(scope, InvokeView::Update, front.client.global)),
        JobType::Unregister => None,
    }
}

/// Lets a job join the last one or wait behind it.
fn enqueue(job_queue: &mut Vec<Job>, job: Job, last_settled: bool)
    requires
        old(job_queue)@.len() > 0,
    ensures
        jobs_view(final(job_queue)@) == enqueued(jobs_view(old(job_queue)@), job@, last_settled),
{
    match job_queue.pop() {
        Some(mut last_job) => {
            if job == last_job && !last_settled {
                last_job.append_equivalent_job(job);
                job_queue.push(last_job);
            } else {
                job_queue.push(last_job);
                job_queue.push(job);
            }
        },
        None => {},
    }
    assert(jobs_view(job_queue@) =~= enqueued(jobs_view(old(job_queue)@), job@, last_settled));
}

impl View for JobQueue {
    type V = Map<Seq<char>, Seq<JobView>>;

    closed spec fn view(&self) -> Map<Seq<char>, Seq<JobView>> {
        contents(self.index@, self.slots@)
    }
}

/// The jobs of each scope.
closed spec fn contents(index: Map<Seq<char>, usize>, slots: Seq<Vec<Job>>) -> Map<
    Seq<char>,
    Seq<JobView>,
> {
    index.map_values(|slot: usize| jobs_view(slots[slot as int]@))
}

/// Whether every scope has a slot of its own.
closed spec fn slots_apart(index: Map<Seq<char>, usize>, slots: Seq<Vec<Job>>) -> bool {
    &&& forall|scope: Seq<char>| #[trigger] index.contains_key(scope) ==> index[scope] < slots.len()
    &&& forall|a: Seq<char>, b: Seq<char>|
        #[trigger] index.contains_key(a) && #[trigger] index.contains_key(b) && index[a] == index[b]
            ==> a == b
}

/// Giving a scope a slot of its own adds the scope with the jobs in that slot.
proof fn lemma_add_slot(index: Map<Seq<char>, usize>, slots: Seq<Vec<Job>>, scope: Seq<char>, jobs: Vec<Job>)
    requires
        slots_apart(index, slots),
        !index.contains_key(scope),
        slots.len() <= usize::MAX,
    ensures
        slots_apart(index.insert(scope, slots.len() as usize), slots.push(jobs)),
        contents(index.insert(scope, slots.len() as usize), slots.push(jobs)) == contents(
            index,
            slots,
        ).insert(scope, jobs_view(jobs@)),
{
    assert(contents(index.insert(scope, slots.len() as usize), slots.push(jobs)) =~= contents(
        index,
        slots,
    ).insert(scope, jobs_view(jobs@)));
}

/// Changing the jobs in one slot changes those of its scope and of no other.
proof fn lemma_change_slot(index: Map<Seq<char>, usize>, slots: Seq<Vec<Job>>, scope: Seq<char>, jobs: Vec<Job>)
    requires
        slots_apart(index, slots),
        index.contains_key(scope),
    ensures
        slots_apart(index, slots.update(index[scope] as int, jobs)),
        contents(index, slots.update(index[scope] as int, jobs)) == contents(index, slots).insert(
            scope,
            jobs_view(jobs@),
        ),
{
    assert(contents(index, slots.update(index[scope] as int, jobs)) =~= contents(
        index,
        slots,
    ).insert(scope, jobs_view(jobs@)));
}

impl JobQueue {
    #[verifier::type_invariant]
    closed spec fn inv(&self) -> bool {
        &&& slots_apart(self.index@, self.slots@)
        &&& keyed_by_scope(self@)
    }

    /// A queue without jobs.
    pub fn new() -> (res: JobQueue)
        ensures
            res@ == Map::<Seq<char>, Seq<JobView>>::empty(),
            keyed_by_scope(res@),
    {
        let index = StringHashMap::new();
        let slots = Vec::new();
        assert(contents(index@, slots@) =~= Map::<Seq<char>, Seq<JobView>>::empty());
        JobQueue { index, slots }
    }

    /// Schedules a job. `last_settled` tells whether the promise of the last job of the
    /// same scope, see [`JobQueue::last_promise`], is settled.
    pub fn schedule_job(&mut self, job: Job, last_settled: bool, global: GlobalScope) -> (res: Option<
        QueuedJob,
    >)
        ensures
            final(self)@ == scheduled(old(self)@, job@, last_settled),
            queued_view(res) == run_after_scheduling(old(self)@, job@, global),
            keyed_by_scope(final(self)@),
    {
        let mut queue = JobQueue::new();
        std::mem::swap(self, &mut queue);
        proof {
            use_type_invariant(&queue);
        }
        let JobQueue { mut index, mut slots } = queue;
        let ghost before = contents(index@, slots@);
        let scope_url = job.scope_url.clone();
        let slot: usize = match index.get(scope_url.as_str()) {
            Some(slot) => *slot,
            None => {
                let slot: usize = slots.len();
                let no_jobs: Vec<Job> = Vec::new();
                proof {
                    lemma_add_slot(index@, slots@, scope_url@.serialization, no_jobs);
                }
                slots.push(no_jobs);
                index.insert(scope_url.as_str().to_owned(), slot);
                slot
            },
        };
        let ghost found = slots@;
        assert(jobs_view(found[slot as int]@) =~= jobs_for(before, job@.scope_url));
        let queued = if slots[slot].len() == 0 {
            slots[slot].push(job);
            Some(QueuedJob::new(scope_url, InvokeType::Run, global))
        } else {
            enqueue(&mut slots[slot], job, last_settled);
            None
        };
        proof {
            assert(slots@ =~= found.update(slot as int, slots@[slot as int]));
            lemma_change_slot(index@, found, scope_url@.serialization, slots@[slot as int]);
            assert(jobs_view(slots@[slot as int]@) =~= enqueued(
                jobs_for(before, job@.scope_url),
                job@,
                last_settled,
            ));
            assert(contents(index@, slots@) =~= scheduled(before, job@, last_settled));
        }
        *self = JobQueue { index, slots };
        queued
    }

    /// The jobs that wait for a scope.
    fn waiting(&self, scope_url: &ServoUrl) -> (res: Option<&Vec<Job>>)
        ensures
            match res {
                Some(jobs) => self@.contains_key(scope_url@.serialization) && jobs_view(jobs@)
                    == self@[scope_url@.serialization],
                None => !self@.contains_key(scope_url@.serialization),
            },
    {
        proof {
            use_type_invariant(self);
        }
        match self.index.get(scope_url.as_str()) {
            Some(slot) => Some(&self.slots[*slot]),
            None => None,
        }
    }

    /// Whether jobs have ever been scheduled for a scope, be they finished or not.
    pub fn has_scope(&self, scope_url: &ServoUrl) -> (res: bool)
        ensures
            res == self@.contains_key(scope_url@.serialization),
    {
        self.waiting(scope_url).is_some()
    }

    /// The job of a scope that runs.
    pub fn front_job(&self, scope_url: &ServoUrl) -> (res: Option<&Job>)
        ensures
            match res {
                Some(job) => jobs_for(self@, scope_url@).len() > 0 && job@ == jobs_for(
                    self@,
                    scope_url@,
                )[0],
                None => jobs_for(self@, scope_url@).len() == 0,
            },
    {
        match self.waiting(scope_url) {
            Some(jobs) if jobs.len() > 0 => Some(&jobs[0]),
            _ => None,
        }
    }

    /// The promise of the last job of a scope.
    pub fn last_promise(&self, scope_url: &ServoUrl) -> (res: Option<Promise>)
        ensures
            res == (if jobs_for(self@, scope_url@).len() > 0 {
                Some(jobs_for(self@, scope_url@).last().promise)
            } else {
                None
            }),
    {
        match self.waiting(scope_url) {
            Some(jobs) if jobs.len() > 0 => Some(jobs[jobs.len() - 1].promise),
            _ => None,
        }
    }

    /// Runs the front job of the handler's scope.
    pub fn run_job(&self, run_job_handler: Box<AsyncJobHandler>) -> (res: Option<QueuedJob>)
        requires
            jobs_for(self@, run_job_handler@.scope_url).len() > 0,
        ensures
            queued_view(res) == run_of(
                jobs_for(self@, run_job_handler@.scope_url)[0],
                run_job_handler@.scope_url,
            ),
    {
        let handler = *run_job_handler;
        match self.front_job(&handler.scope_url) {
            Some(front_job) => {
                let global = front_job.client.global;
                match front_job.job_type {
                    JobType::Register => Some(
                        QueuedJob::new(handler.scope_url, InvokeType::Register, global),
                    ),
                    JobType::Update => Some(
                        QueuedJob::new(handler.scope_url, InvokeType::Update, global),
                    ),
                    JobType::Unregister => None,
                }
            },
            None => None,
        }
    }

    /// Finishes the front job of a scope, and has the next one run.
    pub fn finish_job(&mut self, scope_url: ServoUrl, global: GlobalScope) -> (res: Option<QueuedJob>)
        ensures
            final(self)@ == finished(old(self)@, scope_url@),
            queued_view(res) == run_after_finishing(old(self)@, scope_url@, global),
            keyed_by_scope(final(self)@),
    {
        let mut queue = JobQueue::new();
        std::mem::swap(self, &mut queue);
        proof {
            use_type_invariant(&queue);
        }
        let JobQueue { index, mut slots } = queue;
        let ghost found = slots@;
        let ghost before = contents(index@, found);
        let queued = match index.get(scope_url.as_str()) {
            Some(slot) => {
                let slot: usize = *slot;
                let ghost jobs = before[scope_url@.serialization];
                assert(jobs == jobs_view(found[slot as int]@));
                assert(jobs.len() > 0 ==> jobs[0].scope_url.serialization
                    == scope_url@.serialization);
                if slots[slot].len() > 0 && slots[slot][0].scope_url == scope_url {
                    let _ = slots[slot].remove(0);
                    proof {
                        assert(slots@ =~= found.update(slot as int, slots@[slot as int]));
                        lemma_change_slot(
                            index@,
                            found,
                            scope_url@.serialization,
                            slots@[slot as int],
                        );
                        assert(jobs_view(slots@[slot as int]@) =~= jobs.drop_first());
                    }
                }
                if slots[slot].len() > 0 {
                    Some(QueuedJob::new(scope_url, InvokeType::Run, global))
                } else {
                    None
                }
            },
            None => None,
        };
        assert(contents(index@, slots@) =~= finished(before, scope_url@));
        *self = JobQueue { index, slots };
        queued
    }
}

} // verus!
