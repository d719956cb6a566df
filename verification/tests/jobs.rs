use serviceworkerjob::handler::{AsyncJobHandler, InvokeType, QueuedJob};
use serviceworkerjob::job::{Client, GlobalScope, Job, JobType, PipelineId, Promise};
use serviceworkerjob::queue::JobQueue;
use serviceworkerjob::servo_url::ServoUrl;

fn url(text: &str) -> ServoUrl {
    ServoUrl::parse(text).unwrap()
}

fn global(id: u64) -> GlobalScope {
    GlobalScope { id, pipeline_id: PipelineId { namespace_id: 7, index: 9 } }
}

fn client(id: u64) -> Client {
    Client { id, creation_url: url("https://example.org/page"), global: global(id) }
}

fn job(job_type: JobType, scope: &str, script: &str, promise: u64) -> Job {
    Job::create_job(job_type, url(scope), url(script), Promise { id: promise }, &client(promise))
}

fn is_run(queued: &QueuedJob, scope: &str) -> bool {
    matches!(queued.handler.invoke_type, InvokeType::Run) && queued.handler.scope_url.as_str() == scope
}

fn run_handler(scope: &str) -> Box<AsyncJobHandler> {
    Box::new(AsyncJobHandler::new(url(scope), InvokeType::Run))
}

const SCOPE: &str = "https://example.org/app/";
const OTHER: &str = "https://example.org/other/";
const SCRIPT: &str = "https://example.org/sw.js";

#[test]
fn create_job_takes_the_referrer_from_the_client() {
    let made = job(JobType::Register, SCOPE, SCRIPT, 4);
    assert_eq!(made.job_type, JobType::Register);
    assert_eq!(made.scope_url.as_str(), SCOPE);
    assert_eq!(made.script_url.as_str(), SCRIPT);
    assert_eq!(made.promise, Promise { id: 4 });
    assert_eq!(made.equivalent_jobs.len(), 0);
    assert_eq!(made.client.id, 4);
    assert_eq!(made.referrer.as_str(), "https://example.org/page");
    assert!(!made.force_bypass_cache);
}

#[test]
fn equivalence_compares_type_scope_and_script() {
    let base = job(JobType::Register, SCOPE, SCRIPT, 1);
    assert!(base == job(JobType::Register, SCOPE, SCRIPT, 2));
    assert!(base != job(JobType::Update, SCOPE, SCRIPT, 1));
    assert!(base != job(JobType::Register, OTHER, SCRIPT, 1));
    assert!(base != job(JobType::Register, SCOPE, "https://example.org/b.js", 1));
    let update = job(JobType::Update, SCOPE, SCRIPT, 1);
    assert!(update == job(JobType::Update, SCOPE, SCRIPT, 2));
    assert!(update != job(JobType::Update, SCOPE, "https://example.org/b.js", 1));
}

#[test]
fn equivalence_of_unregister_ignores_the_script() {
    let base = job(JobType::Unregister, SCOPE, SCRIPT, 1);
    assert!(base == job(JobType::Unregister, SCOPE, "https://example.org/b.js", 2));
    assert!(base != job(JobType::Unregister, OTHER, SCRIPT, 1));
}

#[test]
fn equivalence_is_symmetric_and_transitive() {
    let a = job(JobType::Unregister, SCOPE, SCRIPT, 1);
    let b = job(JobType::Unregister, SCOPE, "https://example.org/b.js", 2);
    let c = job(JobType::Unregister, SCOPE, "https://example.org/c.js", 3);
    assert!(a == a);
    assert!(a == b && b == a);
    assert!(b == c && a == c);
}

#[test]
fn attached_jobs_do_not_count_in_equivalence() {
    let mut a = job(JobType::Register, SCOPE, SCRIPT, 1);
    a.append_equivalent_job(job(JobType::Register, SCOPE, SCRIPT, 2));
    assert_eq!(a.equivalent_jobs.len(), 1);
    assert_eq!(a.equivalent_jobs[0].promise.id, 2);
    assert!(a == job(JobType::Register, SCOPE, SCRIPT, 3));
}

#[test]
fn first_job_of_a_scope_is_run() {
    let mut queue = JobQueue::new();
    assert!(queue.front_job(&url(SCOPE)).is_none());
    assert!(queue.last_promise(&url(SCOPE)).is_none());
    let queued = queue.schedule_job(job(JobType::Register, SCOPE, SCRIPT, 1), false, global(5)).unwrap();
    assert!(is_run(&queued, SCOPE));
    assert_eq!(queued.global, global(5));
    assert_eq!(queue.front_job(&url(SCOPE)).unwrap().promise.id, 1);
    assert_eq!(queue.last_promise(&url(SCOPE)), Some(Promise { id: 1 }));
}

#[test]
fn pending_equivalent_job_joins_the_last_one() {
    let mut queue = JobQueue::new();
    queue.schedule_job(job(JobType::Register, SCOPE, SCRIPT, 1), false, global(5));
    assert!(queue.schedule_job(job(JobType::Register, SCOPE, SCRIPT, 2), false, global(5)).is_none());
    assert!(queue.schedule_job(job(JobType::Register, SCOPE, SCRIPT, 3), false, global(5)).is_none());
    let front = queue.front_job(&url(SCOPE)).unwrap();
    assert_eq!(front.promise.id, 1);
    assert_eq!(front.equivalent_jobs.len(), 2);
    assert_eq!(front.equivalent_jobs[0].promise.id, 2);
    assert_eq!(front.equivalent_jobs[1].promise.id, 3);
    assert_eq!(queue.last_promise(&url(SCOPE)), Some(Promise { id: 1 }));
}

#[test]
fn settled_equivalent_job_waits_its_turn() {
    let mut queue = JobQueue::new();
    queue.schedule_job(job(JobType::Register, SCOPE, SCRIPT, 1), false, global(5));
    assert!(queue.schedule_job(job(JobType::Register, SCOPE, SCRIPT, 2), true, global(5)).is_none());
    assert_eq!(queue.front_job(&url(SCOPE)).unwrap().equivalent_jobs.len(), 0);
    assert_eq!(queue.last_promise(&url(SCOPE)), Some(Promise { id: 2 }));
}

#[test]
fn different_job_waits_its_turn() {
    let mut queue = JobQueue::new();
    queue.schedule_job(job(JobType::Register, SCOPE, SCRIPT, 1), false, global(5));
    assert!(queue.schedule_job(job(JobType::Update, SCOPE, SCRIPT, 2), false, global(5)).is_none());
    assert_eq!(queue.front_job(&url(SCOPE)).unwrap().equivalent_jobs.len(), 0);
    assert_eq!(queue.last_promise(&url(SCOPE)), Some(Promise { id: 2 }));
}

#[test]
fn only_the_last_job_is_joined() {
    let mut queue = JobQueue::new();
    queue.schedule_job(job(JobType::Register, SCOPE, SCRIPT, 1), false, global(5));
    queue.schedule_job(job(JobType::Update, SCOPE, SCRIPT, 2), false, global(5));
    queue.schedule_job(job(JobType::Register, SCOPE, SCRIPT, 3), false, global(5));
    assert_eq!(queue.front_job(&url(SCOPE)).unwrap().equivalent_jobs.len(), 0);
    assert_eq!(queue.last_promise(&url(SCOPE)), Some(Promise { id: 3 }));
}

#[test]
fn scopes_are_independent() {
    let mut queue = JobQueue::new();
    queue.schedule_job(job(JobType::Register, SCOPE, SCRIPT, 1), false, global(5));
    let queued = queue.schedule_job(job(JobType::Register, OTHER, SCRIPT, 2), false, global(6)).unwrap();
    assert!(is_run(&queued, OTHER));
    assert!(queue.finish_job(url(SCOPE), global(5)).is_none());
    assert!(queue.front_job(&url(SCOPE)).is_none());
    assert_eq!(queue.front_job(&url(OTHER)).unwrap().promise.id, 2);
}

#[test]
fn jobs_finish_in_order() {
    let mut queue = JobQueue::new();
    queue.schedule_job(job(JobType::Register, SCOPE, SCRIPT, 1), false, global(5));
    queue.schedule_job(job(JobType::Update, SCOPE, SCRIPT, 2), false, global(5));
    queue.schedule_job(job(JobType::Unregister, SCOPE, SCRIPT, 3), false, global(5));
    let queued = queue.finish_job(url(SCOPE), global(8)).unwrap();
    assert!(is_run(&queued, SCOPE));
    assert_eq!(queued.global, global(8));
    assert_eq!(queue.front_job(&url(SCOPE)).unwrap().promise.id, 2);
    assert!(queue.finish_job(url(SCOPE), global(8)).is_some());
    assert_eq!(queue.front_job(&url(SCOPE)).unwrap().promise.id, 3);
    assert!(queue.finish_job(url(SCOPE), global(8)).is_none());
    assert!(queue.front_job(&url(SCOPE)).is_none());
}

#[test]
fn scheduling_and_finishing_commute() {
    let mut first = JobQueue::new();
    let mut second = JobQueue::new();
    for queue in [&mut first, &mut second] {
        queue.schedule_job(job(JobType::Register, SCOPE, SCRIPT, 1), false, global(5));
        queue.schedule_job(job(JobType::Update, SCOPE, SCRIPT, 2), false, global(5));
    }
    first.schedule_job(job(JobType::Update, SCOPE, SCRIPT, 3), false, global(5));
    first.finish_job(url(SCOPE), global(5));
    second.finish_job(url(SCOPE), global(5));
    second.schedule_job(job(JobType::Update, SCOPE, SCRIPT, 3), false, global(5));
    for queue in [&first, &second] {
        let front = queue.front_job(&url(SCOPE)).unwrap();
        assert_eq!(front.promise.id, 2);
        assert_eq!(front.equivalent_jobs[0].promise.id, 3);
    }
}

#[test]
fn finishing_an_unknown_or_drained_scope_does_nothing() {
    let mut queue = JobQueue::new();
    assert!(queue.finish_job(url(SCOPE), global(5)).is_none());
    queue.schedule_job(job(JobType::Register, SCOPE, SCRIPT, 1), false, global(5));
    assert!(queue.finish_job(url(SCOPE), global(5)).is_none());
    assert!(queue.finish_job(url(SCOPE), global(5)).is_none());
    let queued = queue.schedule_job(job(JobType::Register, SCOPE, SCRIPT, 2), false, global(5)).unwrap();
    assert!(is_run(&queued, SCOPE));
}

#[test]
fn equivalent_neighbours_came_behind_a_settled_job() {
    let mut queue = JobQueue::new();
    let settled = [false, false, true, false];
    for promise in 0..4 {
        queue.schedule_job(job(JobType::Update, SCOPE, SCRIPT, promise), settled[promise as usize], global(5));
    }
    let front = queue.front_job(&url(SCOPE)).unwrap();
    assert_eq!(front.promise, Promise { id: 0 });
    assert_eq!(front.equivalent_jobs.len(), 1);
    assert!(front.equivalent_jobs[0] == *front);
    queue.finish_job(url(SCOPE), global(5));
    let next = queue.front_job(&url(SCOPE)).unwrap();
    assert_eq!(next.promise, Promise { id: 2 });
    assert_eq!(next.equivalent_jobs.len(), 1);
    assert_eq!(next.equivalent_jobs[0].promise, Promise { id: 3 });
    assert!(next.equivalent_jobs[0] == *next);
}

#[test]
fn scopes_are_known_once_a_job_was_scheduled() {
    let mut queue = JobQueue::new();
    assert!(!queue.has_scope(&url(SCOPE)));
    queue.finish_job(url(SCOPE), global(5));
    assert!(!queue.has_scope(&url(SCOPE)));
    queue.schedule_job(job(JobType::Register, SCOPE, SCRIPT, 1), false, global(5));
    queue.finish_job(url(SCOPE), global(5));
    assert!(queue.has_scope(&url(SCOPE)));
    assert!(!queue.has_scope(&url(OTHER)));
}

#[test]
fn running_a_register_job_queues_its_registration() {
    let mut queue = JobQueue::new();
    queue.schedule_job(job(JobType::Register, SCOPE, SCRIPT, 3), false, global(5));
    let queued = queue.run_job(run_handler(SCOPE)).unwrap();
    assert!(matches!(queued.handler.invoke_type, InvokeType::Register));
    assert_eq!(queued.handler.scope_url.as_str(), SCOPE);
    assert_eq!(queued.global, global(3));
}

#[test]
fn running_an_update_job_queues_its_update() {
    let mut queue = JobQueue::new();
    queue.schedule_job(job(JobType::Update, SCOPE, SCRIPT, 3), false, global(5));
    let queued = queue.run_job(run_handler(SCOPE)).unwrap();
    assert!(matches!(queued.handler.invoke_type, InvokeType::Update));
    assert_eq!(queued.global, global(3));
}

#[test]
fn running_an_unregister_job_queues_nothing() {
    let mut queue = JobQueue::new();
    queue.schedule_job(job(JobType::Unregister, SCOPE, SCRIPT, 3), false, global(5));
    assert!(queue.run_job(run_handler(SCOPE)).is_none());
}

#[test]
fn scopes_are_known_by_their_serialization() {
    let mut queue = JobQueue::new();
    queue.schedule_job(job(JobType::Register, "HTTPS://Example.org:443/app/", SCRIPT, 1), false, global(5));
    assert_eq!(queue.front_job(&url(SCOPE)).unwrap().promise.id, 1);
}

#[test]
fn every_front_job_is_run_once_and_none_is_lost() {
    let mut queue = JobQueue::new();
    let mut runs = 0;
    let mut settled = 0;
    let types = [JobType::Register, JobType::Register, JobType::Update, JobType::Unregister, JobType::Unregister];
    for (promise, job_type) in types.into_iter().enumerate() {
        let made = job(job_type, SCOPE, SCRIPT, promise as u64);
        if queue.schedule_job(made, false, global(5)).is_some() {
            runs += 1;
        }
    }
    let mut finished = 0;
    while let Some(front) = queue.front_job(&url(SCOPE)) {
        settled += 1 + front.equivalent_jobs.len();
        finished += 1;
        if queue.finish_job(url(SCOPE), global(5)).is_some() {
            runs += 1;
        }
    }
    assert_eq!(finished, 3);
    assert_eq!(runs, 3);
    assert_eq!(settled, 5);
}

#[test]
fn settled_flag_matters_to_equivalents_only() {
    for last_settled in [true, false] {
        let mut queue = JobQueue::new();
        queue.schedule_job(job(JobType::Register, SCOPE, SCRIPT, 1), last_settled, global(5));
        queue.schedule_job(job(JobType::Update, SCOPE, SCRIPT, 2), last_settled, global(5));
        assert_eq!(queue.front_job(&url(SCOPE)).unwrap().equivalent_jobs.len(), 0);
        assert_eq!(queue.last_promise(&url(SCOPE)), Some(Promise { id: 2 }));
    }
}
