use serviceworkerjob::fetch::{CacheMode, FetchMetadata, Metadata, RedirectMode, Request};
use serviceworkerjob::handler::{
    reject_promise_job, AsyncJobHandler, Error, InvokeType, QueuedJob, RegistrationHandle, SettleType,
};
use serviceworkerjob::headers::HeaderMap;
use serviceworkerjob::job::{Client, GlobalScope, Job, JobType, PipelineId, Promise};
use serviceworkerjob::queue::JobQueue;
use serviceworkerjob::registration::{ScriptThreadCall, ServiceWorker, ServiceWorkerRegistration};
use serviceworkerjob::servo_url::ServoUrl;
use serviceworkerjob::update::{ScriptUpdate, UpdateStep};

const SCOPE: &str = "https://example.org/app/";
const HANDLER_SCOPE: &str = "https://example.org/handler/";
const SCRIPT: &str = "https://example.org/sw.js";

fn url(text: &str) -> ServoUrl {
    ServoUrl::parse(text).unwrap()
}

fn global() -> GlobalScope {
    GlobalScope { id: 3, pipeline_id: PipelineId { namespace_id: 7, index: 9 } }
}

fn job_from(job_type: JobType, scope: &str, script: &str, page: &str) -> Job {
    let client = Client { id: 1, creation_url: url(page), global: global() };
    Job::create_job(job_type, url(scope), url(script), Promise { id: 2 }, &client)
}

fn register_job() -> Job {
    job_from(JobType::Register, SCOPE, SCRIPT, "https://example.org/page")
}

fn handler() -> Box<AsyncJobHandler> {
    Box::new(AsyncJobHandler::new(url(HANDLER_SCOPE), InvokeType::Register))
}

fn registration(uninstalling: bool, newest: Option<&str>) -> ServiceWorkerRegistration {
    ServiceWorkerRegistration {
        handle: RegistrationHandle { id: 11 },
        uninstalling,
        newest_worker: newest.map(|script| ServiceWorker { script_url: url(script) }),
        use_cache: true,
        update_time_check: None,
    }
}

fn type_error(queued: &QueuedJob) -> Option<(String, String)> {
    match &queued.handler.invoke_type {
        InvokeType::Settle(SettleType::Reject(Error::Type(message))) => {
            Some((queued.handler.scope_url.as_str().to_owned(), message.clone()))
        }
        _ => None,
    }
}

fn rejected_with_security(calls: &Vec<ScriptThreadCall>) -> bool {
    calls.len() == 1
        && match &calls[0] {
            ScriptThreadCall::QueueServiceworkerJob(queued) => {
                matches!(queued.handler.invoke_type, InvokeType::Settle(SettleType::Reject(Error::Security)))
                    && queued.handler.scope_url.as_str() == HANDLER_SCOPE
                    && queued.global == global()
            }
            _ => false,
        }
}

#[test]
fn refusals_to_register_are_told() {
    let job = register_job();
    assert!(job.refusal_to_register(true).is_none());
    assert!(matches!(job.refusal_to_register(false), Some(Error::Type(message)) if message == "Invalid script ServoURL"));
    let foreign = job_from(JobType::Register, SCOPE, SCRIPT, "https://other.example/page");
    assert!(matches!(foreign.refusal_to_register(true), Some(Error::Security)));
    assert!(matches!(foreign.refusal_to_register(false), Some(Error::Type(_))));
}

#[test]
fn untrustworthy_script_is_rejected() {
    let queue = JobQueue::new();
    let job = register_job();
    let calls = queue.run_register(&job, handler(), false, Some(registration(true, Some(SCRIPT))));
    assert_eq!(calls.len(), 1);
    match &calls[0] {
        ScriptThreadCall::QueueServiceworkerJob(queued) => {
            assert_eq!(
                type_error(queued),
                Some((HANDLER_SCOPE.to_owned(), "Invalid script ServoURL".to_owned()))
            );
            assert_eq!(queued.global, global());
        }
        _ => panic!(),
    }
}

#[test]
fn script_of_another_origin_is_rejected() {
    let queue = JobQueue::new();
    for script in ["http://example.org/sw.js", "https://example.com/sw.js", "https://example.org:8080/sw.js"] {
        let job = job_from(JobType::Register, SCOPE, script, "https://example.org/page");
        assert!(rejected_with_security(&queue.run_register(&job, handler(), true, None)));
    }
}

#[test]
fn scope_of_another_origin_is_rejected() {
    let queue = JobQueue::new();
    let job = job_from(JobType::Register, "https://example.com/", SCRIPT, "https://example.org/page");
    assert!(rejected_with_security(&queue.run_register(&job, handler(), true, None)));
}

#[test]
fn opaque_origins_cannot_register() {
    let queue = JobQueue::new();
    let job = job_from(JobType::Register, "file:///a/", "file:///a/sw.js", "file:///a/page");
    assert!(rejected_with_security(&queue.run_register(&job, handler(), true, None)));
}

#[test]
fn default_port_is_the_same_origin() {
    let queue = JobQueue::new();
    let job = job_from(JobType::Register, "https://example.org:443/", SCRIPT, "https://example.org/page");
    assert_eq!(queue.run_register(&job, handler(), true, None).len(), 2);
}

#[test]
fn addresses_are_compared_as_hosts() {
    let queue = JobQueue::new();
    let same = job_from(JobType::Register, "http://127.1/", "http://127.0.0.1/sw.js", "http://0x7f.0.0.1/");
    assert_eq!(queue.run_register(&same, handler(), true, None).len(), 2);
    let other = job_from(JobType::Register, "http://[::1]/", "http://[::1]/sw.js", "http://[::2]/");
    assert!(rejected_with_security(&queue.run_register(&other, handler(), true, None)));
    let six = job_from(JobType::Register, "http://[::1]/", "http://[0:0::1]/sw.js", "http://[::1]/");
    assert_eq!(queue.run_register(&six, handler(), true, None).len(), 2);
}

#[test]
fn unknown_scope_gets_a_registration() {
    let queue = JobQueue::new();
    let job = register_job();
    let calls = queue.run_register(&job, handler(), true, None);
    assert_eq!(calls.len(), 2);
    match &calls[0] {
        ScriptThreadCall::AddRegistration { global: on, script_url, scope_url, job_scope_url, pipeline_id } => {
            assert_eq!(*on, global());
            assert_eq!(script_url.as_str(), SCRIPT);
            assert_eq!(scope_url.as_str(), HANDLER_SCOPE);
            assert_eq!(job_scope_url.as_str(), SCOPE);
            assert_eq!(*pipeline_id, PipelineId { namespace_id: 7, index: 9 });
        }
        _ => panic!(),
    }
    match &calls[1] {
        ScriptThreadCall::InvokeJobUpdate { job: updated, global: on } => {
            assert_eq!(updated.promise, job.promise);
            assert_eq!(*on, global());
        }
        _ => panic!(),
    }
}

#[test]
fn known_script_resolves_and_finishes() {
    let queue = JobQueue::new();
    let job = register_job();
    let calls = queue.run_register(&job, handler(), true, Some(registration(false, Some(SCRIPT))));
    assert_eq!(calls.len(), 3);
    match &calls[0] {
        ScriptThreadCall::QueueServiceworkerJob(queued) => {
            assert_eq!(queued.handler.scope_url.as_str(), HANDLER_SCOPE);
            match &queued.handler.invoke_type {
                InvokeType::Settle(SettleType::Resolve(found)) => assert_eq!(found.id, 11),
                _ => panic!(),
            }
        }
        _ => panic!(),
    }
    match &calls[1] {
        ScriptThreadCall::QueueFinishJob { handler, global: on } => {
            assert_eq!(handler.scope_url.as_str(), SCOPE);
            assert_eq!(handler.global, global());
            assert_eq!(*on, global());
        }
        _ => panic!(),
    }
    assert!(matches!(&calls[2], ScriptThreadCall::InvokeJobUpdate { .. }));
}

#[test]
fn uninstalling_registration_is_kept() {
    let queue = JobQueue::new();
    let job = register_job();
    let calls = queue.run_register(&job, handler(), true, Some(registration(true, None)));
    assert_eq!(calls.len(), 2);
    match &calls[0] {
        ScriptThreadCall::SetUninstalling { registration, uninstalling } => {
            assert_eq!(registration.id, 11);
            assert!(!*uninstalling);
        }
        _ => panic!(),
    }
    assert!(matches!(&calls[1], ScriptThreadCall::InvokeJobUpdate { .. }));
    let calls = queue.run_register(&job, handler(), true, Some(registration(true, Some(SCRIPT))));
    assert_eq!(calls.len(), 4);
}

#[test]
fn another_script_goes_on_to_update() {
    let queue = JobQueue::new();
    let job = register_job();
    let found = registration(false, Some("https://example.org/old.js"));
    let calls = queue.run_register(&job, handler(), true, Some(found));
    assert_eq!(calls.len(), 1);
    assert!(matches!(&calls[0], ScriptThreadCall::InvokeJobUpdate { .. }));
}

#[test]
fn update_without_registration_or_worker_does_nothing() {
    let queue = JobQueue::new();
    let job = register_job();
    assert!(matches!(queue.update(&job, None, global()), UpdateStep::Nothing));
    assert!(matches!(queue.update(&job, Some(registration(false, None)), global()), UpdateStep::Nothing));
}

#[test]
fn update_of_an_uninstalling_registration_is_rejected() {
    let queue = JobQueue::new();
    match queue.update(&register_job(), Some(registration(true, None)), global()) {
        UpdateStep::Reject(queued) => {
            assert_eq!(
                type_error(&queued),
                Some((SCOPE.to_owned(), "Update called on an uninstalling registration".to_owned()))
            );
            assert_eq!(queued.global, global());
        }
        _ => panic!(),
    }
}

#[test]
fn update_to_the_same_script_is_rejected() {
    let queue = JobQueue::new();
    let job = job_from(JobType::Update, SCOPE, SCRIPT, "https://example.org/page");
    match queue.update(&job, Some(registration(false, Some(SCRIPT))), global()) {
        UpdateStep::Reject(queued) => {
            assert_eq!(type_error(&queued), Some((SCOPE.to_owned(), "Invalid script ServoURL".to_owned())));
        }
        _ => panic!(),
    }
}

fn started(step: UpdateStep) -> ScriptUpdate {
    match step {
        UpdateStep::Fetch(update) => update,
        _ => panic!(),
    }
}

#[test]
fn update_after_registration_fetches_the_same_script() {
    let queue = JobQueue::new();
    let update = started(queue.update(&register_job(), Some(registration(false, Some(SCRIPT))), global()));
    assert_eq!(update.script_url.as_str(), SCRIPT);
    assert_eq!(update.scope_url.as_str(), SCOPE);
    assert_eq!(update.pipeline_id, PipelineId { namespace_id: 7, index: 9 });
    assert_eq!(update.global, global());
    assert_eq!(update.registration.handle.id, 11);
    assert!(!update.force_bypass_cache);
}

#[test]
fn update_to_another_script_is_fetched() {
    let queue = JobQueue::new();
    let mut job = job_from(JobType::Update, SCOPE, SCRIPT, "https://example.org/page");
    job.force_bypass_cache = true;
    let found = registration(false, Some("https://example.org/old.js"));
    let update = started(queue.update(&job, Some(found), global()));
    assert!(update.force_bypass_cache);
    let fetch = update.fetch(Request {
        url: url(SCRIPT),
        pipeline_id: update.pipeline_id,
        cache_mode: CacheMode::Default,
        redirect_mode: RedirectMode::Follow,
        skip_service_worker: false,
        headers: HeaderMap::new(),
    });
    assert_eq!(fetch.request.cache_mode, CacheMode::NoCache);
    assert_eq!(fetch.listener.reg_scope.as_str(), SCOPE);
    assert_eq!(fetch.listener.url.as_str(), SCRIPT);
}

#[test]
fn reject_promise_job_names_scope_and_reason() {
    let queued = reject_promise_job("no", global(), &url(SCOPE));
    assert_eq!(type_error(&queued), Some((SCOPE.to_owned(), "no".to_owned())));
    assert_eq!(queued.global, global());
}

#[test]
fn settle_types_clone() {
    let reject = SettleType::Reject(Error::Type("no".to_owned()));
    assert!(matches!(reject.clone(), SettleType::Reject(Error::Type(message)) if message == "no"));
    let resolve = SettleType::Resolve(RegistrationHandle { id: 5 });
    assert!(matches!(resolve.clone(), SettleType::Resolve(RegistrationHandle { id: 5 })));
    assert!(matches!(SettleType::Reject(Error::Security).clone(), SettleType::Reject(Error::Security)));
}

#[test]
fn fetched_scripts_are_judged_for_the_job() {
    let queue = JobQueue::new();
    let scopes = [("https://example.org/creativcoder/rust.json", true), (SCOPE, false)];
    for (scope, accepted) in scopes {
        let job = job_from(JobType::Update, scope, SCRIPT, "https://example.org/page");
        let found = registration(false, Some("https://example.org/old.js"));
        let update = started(queue.update(&job, Some(found), global()));
        let mut listener = update
            .fetch(Request {
                url: update.script_url.clone(),
                pipeline_id: update.pipeline_id,
                cache_mode: CacheMode::Default,
                redirect_mode: RedirectMode::Follow,
                skip_service_worker: false,
                headers: HeaderMap::new(),
            })
            .listener;
        let mut headers = HeaderMap::new();
        headers.set_raw("Content-Type", vec![b"text/javascript".to_vec()]);
        headers.set_raw("Service-Worker-Allowed", vec![b"/".to_vec()]);
        let response = FetchMetadata::Unfiltered(Metadata { headers: Some(headers) });
        match listener.process_response(Ok(response)) {
            None => assert!(accepted),
            Some(queued) => {
                assert!(!accepted);
                assert_eq!(type_error(&queued), Some((SCRIPT.to_owned(), "Security Error".to_owned())));
            }
        }
    }
}
