//! Updating a registration: deciding whether its script is fetched again.

use crate::fetch::{
    bypasses_cache, listening, perform_fetch_hook_and_fetch, prepared, Request, ScriptFetch, ScriptFetchView,
};
use crate::handler::{reject_promise_job, rejecting, ErrorView, QueuedJob, QueuedJobView};
use crate::job::{GlobalScope, Job, JobType, JobView, PipelineId};
use crate::queue::JobQueue;
use crate::registration::{registration_view, RegistrationView, ServiceWorkerRegistration};
use crate::servo_url::{ServoUrl, UrlView};
use vstd::prelude::*;

verus! {

/// A fetch of a registration's script that is about to start. It goes on with the request
/// for `script_url` in `pipeline_id`.
pub struct ScriptUpdate {
    pub script_url: ServoUrl,
    pub pipeline_id: PipelineId,
    pub registration: ServiceWorkerRegistration,
    pub force_bypass_cache: bool,
    pub global: GlobalScope,
    pub scope_url: ServoUrl,
}

/// What a [`ScriptUpdate`] stands for.
pub ghost struct ScriptUpdateView {
    pub script_url: UrlView,
    pub pipeline_id: PipelineId,
    pub registration: RegistrationView,
    pub force_bypass_cache: bool,
    pub global: GlobalScope,
    pub scope_url: UrlView,
}

impl View for ScriptUpdate {
    type V = ScriptUpdateView;

    open spec fn view(&self) -> ScriptUpdateView {
        ScriptUpdateView {
            script_url: self.script_url@,
            pipeline_id: self.pipeline_id,
            registration: self.registration@,
            force_bypass_cache: self.force_bypass_cache,
            global: self.global,
            scope_url: self.scope_url@,
        }
    }
}

/// What comes of a job that updates.
pub enum UpdateStep {
    /// There is nothing to update.
    Nothing,
    /// The job's promise is rejected.
    Reject(QueuedJob),
    /// The script is fetched.
    Fetch(ScriptUpdate),
}

/// What an [`UpdateStep`] stands for.
pub ghost enum UpdateStepView {
    Nothing,
    Reject(QueuedJobView),
    Fetch(ScriptUpdateView),
}

impl View for UpdateStep {
    type V = UpdateStepView;

    open spec fn view(&self) -> UpdateStepView {
        match self {
            UpdateStep::Nothing => UpdateStepView::Nothing,
            UpdateStep::Reject(queued) => UpdateStepView::Reject(queued@),
            UpdateStep::Fetch(update) => UpdateStepView::Fetch(update@),
        }
    }
}

/// What comes of updating with a job, `found` being the registration for the job's scope.
/// A registration that is being removed is not updated, nor is one whose newest worker
/// runs the script that an update job asks for; one without a worker is left alone.
pub open spec fn update_step(
    job: JobView,
    found: Option<RegistrationView>,
    global: GlobalScope,
) -> UpdateStepView {
    if found is None {
        UpdateStepView::Nothing
    } else {
        let registration = found->0;
        let newest = registration.newest_script;
        if registration.uninstalling {
            UpdateStepView::Reject(
                rejecting(
                    job.scope_url,
                    ErrorView::Type("Update called on an uninstalling registration"@),
                    global,
                ),
            )
        } else if newest is None {
            UpdateStepView::Nothing
        } else if newest->0.serialization == job.script_url.serialization && job.job_type
            == JobType::Update {
            UpdateStepView::Reject(
                rejecting(job.scope_url, ErrorView::Type("Invalid script ServoURL"@), global),
            )
        } else {
            UpdateStepView::Fetch(
                ScriptUpdateView {
                    script_url: job.script_url,
                    pipeline_id: global.pipeline_id,
                    registration,
                    force_bypass_cache: job.force_bypass_cache,
                    global,
                    scope_url: job.scope_url,
                },
            )
        }
    }
}

impl JobQueue {
    /// Decides what comes of updating with a job. `registration` is the one for the job's
    /// scope, if there is one.
    pub fn update(
        &self,
        job: &Job,
        registration: Option<ServiceWorkerRegistration>,
        global: GlobalScope,
    ) -> (res: UpdateStep)
        ensures
            res@ == update_step(job@, registration_view(registration), global),
    {
        let reg = match registration {
            Some(reg) => reg,
            None => {
                return UpdateStep::Nothing;
            },
        };
        if reg.uninstalling {
            return UpdateStep::Reject(
                reject_promise_job(
                    "Update called on an uninstalling registration",
                    global,
                    &job.scope_url,
                ),
            );
        }
        let same_script = match &reg.newest_worker {
            Some(newest_worker) => newest_worker.script_url == job.script_url,
            None => {
                return UpdateStep::Nothing;
            },
        };
        if same_script && job.job_type == JobType::Update {
            UpdateStep::Reject(reject_promise_job("Invalid script ServoURL", global, &job.scope_url))
        } else {
            UpdateStep::Fetch(
                ScriptUpdate {
                    script_url: job.script_url.clone(),
                    pipeline_id: global.pipeline_id,
                    registration: reg,
                    force_bypass_cache: job.force_bypass_cache,
                    global,
                    scope_url: job.scope_url.clone(),
                },
            )
        }
    }
}

impl ScriptUpdate {
    /// Fetches the script with the request that was made for it, which is for a top-level
    /// script.
    pub fn fetch(&self, req: Request) -> (res: ScriptFetch)
        ensures
            ({
                let bypass = bypasses_cache(
                    self@.registration.use_cache,
                    self@.force_bypass_cache,
                    self@.registration.update_time_check,
                );
                let request = prepared(req@, true, bypass);
                res@ == (ScriptFetchView {
                    request,
                    listener: listening(request, self@.global, self@.scope_url),
                })
            }),
    {
        perform_fetch_hook_and_fetch(
            req,
            true,
            self.registration.use_cache,
            self.force_bypass_cache,
            &self.registration,
            self.global,
            &self.scope_url,
        )
    }
}

} // verus!
