//! Carrying out a job that registers.

use crate::handler::{
    rejecting, resolving, AsyncJobHandler, Error, ErrorView, FinishJobHandler,
    FinishJobHandlerView, InvokeType, QueuedJob, QueuedJobView, RegistrationHandle, SettleType,
};
use crate::job::{GlobalScope, Job, JobView, PipelineId};
use crate::queue::JobQueue;
use crate::servo_url::{same_origin, ServoUrl, UrlView};
use vstd::prelude::*;

verus! {

/// A service worker.
pub struct ServiceWorker {
    pub script_url: ServoUrl,
}

/// A service worker registration as it is found when a job runs.
pub struct ServiceWorkerRegistration {
    pub handle: RegistrationHandle,
    /// Whether the registration is about to be removed.
    pub uninstalling: bool,
    pub newest_worker: Option<ServiceWorker>,
    /// Whether the script may come from the cache.
    pub use_cache: bool,
    /// Whether the last update is too long ago, if that is known.
    pub update_time_check: Option<bool>,
}

/// What a [`ServiceWorkerRegistration`] stands for.
pub ghost struct RegistrationView {
    pub handle: RegistrationHandle,
    pub uninstalling: bool,
    /// The script of the newest worker.
    pub newest_script: Option<UrlView>,
    pub use_cache: bool,
    pub update_time_check: Option<bool>,
}

impl View for ServiceWorkerRegistration {
    type V = RegistrationView;

    open spec fn view(&self) -> RegistrationView {
        RegistrationView {
            handle: self.handle,
            uninstalling: self.uninstalling,
            newest_script: match self.newest_worker {
                Some(worker) => Some(worker.script_url@),
                None => None,
            },
            use_cache: self.use_cache,
            update_time_check: self.update_time_check,
        }
    }
}

/// The view of a registration that may be missing.
pub open spec fn registration_view(registration: Option<ServiceWorkerRegistration>) -> Option<
    RegistrationView,
> {
    match registration {
        Some(found) => Some(found@),
        None => None,
    }
}

/// What the script thread is to do for a job that registers.
pub enum ScriptThreadCall<'a> {
    /// Queue a handler for the job queue.
    QueueServiceworkerJob(QueuedJob),
    /// Queue a handler that finishes the job.
    QueueFinishJob { handler: Box<FinishJobHandler>, global: GlobalScope },
    /// Mark a registration as being removed, or no longer being removed.
    SetUninstalling { registration: RegistrationHandle, uninstalling: bool },
    /// Make a registration of a script for a scope, and store it under the job's scope.
    AddRegistration {
        global: GlobalScope,
        script_url: ServoUrl,
        scope_url: ServoUrl,
        job_scope_url: ServoUrl,
        pipeline_id: PipelineId,
    },
    /// Go on with updating, for the same job.
    InvokeJobUpdate { job: &'a Job, global: GlobalScope },
}

/// What a [`ScriptThreadCall`] stands for.
pub ghost enum CallView {
    QueueServiceworkerJob(QueuedJobView),
    QueueFinishJob { handler: FinishJobHandlerView, global: GlobalScope },
    SetUninstalling { registration: RegistrationHandle, uninstalling: bool },
    AddRegistration {
        global: GlobalScope,
        script_url: UrlView,
        scope_url: UrlView,
        job_scope_url: UrlView,
        pipeline_id: PipelineId,
    },
    InvokeJobUpdate { job: JobView, global: GlobalScope },
}

impl<'a> View for ScriptThreadCall<'a> {
    type V = CallView;

    open spec fn view(&self) -> CallView {
        match self {
            ScriptThreadCall::QueueServiceworkerJob(queued) => CallView::QueueServiceworkerJob(
                queued@,
            ),
            ScriptThreadCall::QueueFinishJob { handler, global } => CallView::QueueFinishJob {
                handler: (**handler)@,
                global: *global,
            },
            ScriptThreadCall::SetUninstalling { registration, uninstalling } =>
                CallView::SetUninstalling {
                registration: *registration,
                uninstalling: *uninstalling,
            },
            ScriptThreadCall::AddRegistration {
                global,
                script_url,
                scope_url,
                job_scope_url,
                pipeline_id,
            } => CallView::AddRegistration {
                global: *global,
                script_url: script_url@,
                scope_url: scope_url@,
                job_scope_url: job_scope_url@,
                pipeline_id: *pipeline_id,
            },
            ScriptThreadCall::InvokeJobUpdate { job, global } => CallView::InvokeJobUpdate {
                job: (**job)@,
                global: *global,
            },
        }
    }
}

/// What a run of calls stands for.
pub open spec fn calls_view<'a>(calls: Seq<ScriptThreadCall<'a>>) -> Seq<CallView> {
    calls.map_values(|call: ScriptThreadCall<'a>| call@)
}

/// Why a job may not register: its script does not come from a trustworthy origin, or its
/// script or its scope is not of the origin of the page that asks.
pub open spec fn refusal(job: JobView, script_trustworthy: bool) -> Option<ErrorView> {
    if !script_trustworthy {
        Some(ErrorView::Type("Invalid script ServoURL"@))
    } else if !same_origin(job.script_url, job.referrer) || !same_origin(
        job.scope_url,
        job.referrer,
    ) {
        Some(ErrorView::Security)
    } else {
        None
    }
}

/// What happens to a registration that is there already: it is no longer being removed,
/// and if its newest worker runs the job's script, the job is resolved and finished.
pub open spec fn reuse_calls(job: JobView, scope_url: UrlView, found: RegistrationView) -> Seq<
    CallView,
> {
    let global = job.client.global;
    let kept = if found.uninstalling {
        seq![CallView::SetUninstalling { registration: found.handle, uninstalling: false }]
    } else {
        seq![]
    };
    let settled = if found.newest_script is Some && found.newest_script->0.serialization
        == job.script_url.serialization {
        seq![
            CallView::QueueServiceworkerJob(resolving(scope_url, found.handle, global)),
            CallView::QueueFinishJob {
                handler: FinishJobHandlerView { scope_url: job.scope_url, global },
                global,
            },
        ]
    } else {
        seq![]
    };
    kept + settled
}

/// What the script thread is to do, in this order, for a job that registers. `scope_url`
/// is the scope that the handler names, `found` the registration for the job's scope.
pub open spec fn register_calls(
    job: JobView,
    scope_url: UrlView,
    script_trustworthy: bool,
    found: Option<RegistrationView>,
) -> Seq<CallView> {
    let global = job.client.global;
    match (refusal(job, script_trustworthy), found) {
        (Some(error), _) => seq![
            CallView::QueueServiceworkerJob(rejecting(scope_url, error, global)),
        ],
        (None, Some(registration)) => reuse_calls(job, scope_url, registration).push(
            CallView::InvokeJobUpdate { job, global },
        ),
        (None, None) => seq![
            CallView::AddRegistration {
                global,
                script_url: job.script_url,
                scope_url,
                job_scope_url: job.scope_url,
                pipeline_id: global.pipeline_id,
            },
            CallView::InvokeJobUpdate { job, global },
        ],
    }
}

impl Job {
    /// Why this job may not register, if it may not. `script_trustworthy` tells whether the
    /// origin of its script is trustworthy.
    pub fn refusal_to_register(&self, script_trustworthy: bool) -> (res: Option<Error>)
        ensures
            match res {
                Some(error) => refusal(self@, script_trustworthy) == Some(error@),
                None => refusal(self@, script_trustworthy) is None,
            },
    {
        if !script_trustworthy {
            Some(Error::Type("Invalid script ServoURL".to_owned()))
        } else if !self.script_url.has_origin_of(&self.referrer) || !self.scope_url.has_origin_of(
            &self.referrer,
        ) {
            Some(Error::Security)
        } else {
            None
        }
    }
}

impl JobQueue {
    /// Carries out a job that registers. `script_trustworthy` tells whether the origin of
    /// the job's script is trustworthy; `registration` is the one for the job's scope, if
    /// there is one. It counts only for a job that may register, see
    /// [`Job::refusal_to_register`].
    pub fn run_register<'a>(
        &self,
        job: &'a Job,
        register_job_handler: Box<AsyncJobHandler>,
        script_trustworthy: bool,
        registration: Option<ServiceWorkerRegistration>,
    ) -> (res: Vec<ScriptThreadCall<'a>>)
        ensures
            calls_view(res@) == register_calls(
                job@,
                register_job_handler@.scope_url,
                script_trustworthy,
                registration_view(registration),
            ),
    {
        let global = job.client.global;
        let handler = *register_job_handler;
        let scope_url = handler.scope_url;
        let mut calls: Vec<ScriptThreadCall<'a>> = Vec::new();
        if let Some(error) = job.refusal_to_register(script_trustworthy) {
            let settle_type = SettleType::Reject(error);
            calls.push(
                ScriptThreadCall::QueueServiceworkerJob(
                    QueuedJob::new(scope_url, InvokeType::Settle(settle_type), global),
                ),
            );
        } else {
            match registration {
                Some(reg) => {
                    if reg.uninstalling {
                        calls.push(
                            ScriptThreadCall::SetUninstalling {
                                registration: reg.handle,
                                uninstalling: false,
                            },
                        );
                    }
                    if let Some(newest_worker) = &reg.newest_worker {
                        if newest_worker.script_url == job.script_url {
                            let settle_type = SettleType::Resolve(reg.handle);
                            calls.push(
                                ScriptThreadCall::QueueServiceworkerJob(
                                    QueuedJob::new(
                                        scope_url,
                                        InvokeType::Settle(settle_type),
                                        global,
                                    ),
                                ),
                            );
                            let finish = FinishJobHandler::new(job.scope_url.clone(), global);
                            calls.push(
                                ScriptThreadCall::QueueFinishJob {
                                    handler: Box::new(finish),
                                    global,
                                },
                            );
                        }
                    }
                },
                None => {
                    calls.push(
                        ScriptThreadCall::AddRegistration {
                            global,
                            script_url: job.script_url.clone(),
                            scope_url,
                            job_scope_url: job.scope_url.clone(),
                            pipeline_id: global.pipeline_id,
                        },
                    );
                },
            }
            calls.push(ScriptThreadCall::InvokeJobUpdate { job, global });
        }
        assert(calls_view(calls@) =~= register_calls(
            job@,
            register_job_handler@.scope_url,
            script_trustworthy,
            registration_view(registration),
        ));
        calls
    }
}

} // verus!
