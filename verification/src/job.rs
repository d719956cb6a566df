//! Jobs: the pending operations on service worker registrations.

use crate::servo_url::{ServoUrl, UrlView};
use vstd::prelude::*;

verus! {

/// What a job does.
#[derive(Clone, Copy, Debug, PartialEq, Eq, Structural)]
pub enum JobType {
    Register,
    Unregister,
    Update,
}

/// Names a document or worker's event loop.
#[derive(Clone, Copy, Debug, PartialEq, Eq, Structural)]
pub struct PipelineId {
    pub namespace_id: u32,
    pub index: u32,
}

/// A global object, and the pipeline that it lives in.
#[derive(Clone, Copy, Debug, PartialEq, Eq, Structural)]
pub struct GlobalScope {
    pub id: u64,
    pub pipeline_id: PipelineId,
}

/// Names the promise that a job settles.
#[derive(Clone, Copy, Debug, PartialEq, Eq, Structural)]
pub struct Promise {
    pub id: u64,
}

/// A client: whoever asked for a job.
pub struct Client {
    pub id: u64,
    /// The URL that the client was created from.
    pub creation_url: ServoUrl,
    pub global: GlobalScope,
}

/// What a [`Client`] stands for.
pub ghost struct ClientView {
    pub id: u64,
    pub creation_url: UrlView,
    pub global: GlobalScope,
}

impl View for Client {
    type V = ClientView;

    open spec fn view(&self) -> ClientView {
        ClientView { id: self.id, creation_url: self.creation_url@, global: self.global }
    }
}

impl Clone for Client {
    fn clone(&self) -> (res: Self)
        ensures
            res == *self,
    {
        Client { id: self.id, creation_url: self.creation_url.clone(), global: self.global }
    }
}

/// A pending operation on the registration for a scope.
pub struct Job {
    pub job_type: JobType,
    pub scope_url: ServoUrl,
    pub script_url: ServoUrl,
    pub promise: Promise,
    /// Later jobs that ask for the same and are settled along with this one.
    pub equivalent_jobs: Vec<Job>,
    pub client: Client,
    pub referrer: ServoUrl,
    pub force_bypass_cache: bool,
}

/// What a [`Job`] stands for.
#[verifier::ext_equal]
pub ghost struct JobView {
    pub job_type: JobType,
    pub scope_url: UrlView,
    pub script_url: UrlView,
    pub promise: Promise,
    pub equivalent_jobs: Seq<JobView>,
    pub client: ClientView,
    pub referrer: UrlView,
    pub force_bypass_cache: bool,
}

impl Job {
    /// What the job stands for.
    pub open spec fn model(self) -> JobView
        decreases self,
    {
        JobView {
            job_type: self.job_type,
            scope_url: self.scope_url@,
            script_url: self.script_url@,
            promise: self.promise,
            equivalent_jobs: Seq::new(
                self.equivalent_jobs@.len(),
                |i: int|
                    if 0 <= i < self.equivalent_jobs@.len() {
                        self.equivalent_jobs@[i].model()
                    } else {
                        arbitrary()
                    },
            ),
            client: self.client@,
            referrer: self.referrer@,
            force_bypass_cache: self.force_bypass_cache,
        }
    }
}

impl View for Job {
    type V = JobView;

    open spec fn view(&self) -> JobView {
        self.model()
    }
}

/// What a run of jobs stands for.
pub open spec fn jobs_view(jobs: Seq<Job>) -> Seq<JobView> {
    jobs.map_values(|job: Job| job@)
}

/// Whether two jobs ask for the same: they are of one type and for one scope, and unless
/// they unregister, also for one script.
pub open spec fn equivalent(a: JobView, b: JobView) -> bool {
    &&& a.job_type == b.job_type
    &&& a.scope_url.serialization == b.scope_url.serialization
    &&& a.job_type != JobType::Unregister ==> a.script_url.serialization
        == b.script_url.serialization
}

impl JobView {
    /// The job with one more job settled along with it.
    pub open spec fn with_equivalent(self, job: JobView) -> JobView {
        JobView { equivalent_jobs: self.equivalent_jobs.push(job), ..self }
    }
}

impl Job {
    /// A job that a client asks for.
    pub fn create_job(
        job_type: JobType,
        scope_url: ServoUrl,
        script_url: ServoUrl,
        promise: Promise,
        client: &Client,
    ) -> (res: Job)
        ensures
            res@ == (JobView {
                job_type: job_type,
                scope_url: scope_url@,
                script_url: script_url@,
                promise: promise,
                equivalent_jobs: Seq::<JobView>::empty(),
                client: client@,
                referrer: client@.creation_url,
                force_bypass_cache: false,
            }),
    {
        let job = Job {
            job_type,
            scope_url,
            script_url,
            promise,
            equivalent_jobs: Vec::new(),
            client: client.clone(),
            referrer: client.creation_url.clone(),
            force_bypass_cache: false,
        };
        assert(job@.equivalent_jobs =~= Seq::<JobView>::empty());
        job
    }

    /// Adds a job to those that are settled along with this one.
    pub fn append_equivalent_job(&mut self, job: Job)
        ensures
            final(self)@ == old(self)@.with_equivalent(job@),
    {
        self.equivalent_jobs.push(job);
        assert(self@.equivalent_jobs =~= old(self)@.equivalent_jobs.push(job@));
    }
}

impl PartialEq for Job {
    fn eq(&self, other: &Self) -> (res: bool) {
        let same_job = self.job_type == other.job_type;
        if same_job {
            match self.job_type {
                JobType::Register | JobType::Update => self.scope_url == other.scope_url
                    && self.script_url == other.script_url,
                JobType::Unregister => self.scope_url == other.scope_url,
            }
        } else {
            false
        }
    }
}

impl vstd::std_specs::cmp::PartialEqSpecImpl for Job {
    open spec fn obeys_eq_spec() -> bool {
        true
    }

    open spec fn eq_spec(&self, other: &Self) -> bool {
        equivalent(self@, other@)
    }
}

/// Asking for the same is an equivalence: every job asks for the same as itself, which
/// of two jobs comes first does not matter, and it carries over from job to job.
pub proof fn law_equivalence(a: JobView, b: JobView, c: JobView)
    ensures
        equivalent(a, a),
        equivalent(a, b) == equivalent(b, a),
        equivalent(a, b) && equivalent(b, c) ==> equivalent(a, c),
{
}

/// Adding an equivalent job changes nothing that equivalence looks at.
pub proof fn law_equivalence_ignores_attached_jobs(a: JobView, attached: JobView, b: JobView)
    ensures
        equivalent(a.with_equivalent(attached), b) == equivalent(a, b),
{
}

} // verus!
