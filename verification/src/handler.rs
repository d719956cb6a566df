//! Messages that the job queue hands to the script thread, which runs them later.

use crate::job::GlobalScope;
use crate::servo_url::{ServoUrl, UrlView};
use vstd::prelude::*;

verus! {

/// Why a promise is rejected.
pub enum Error {
    /// A `TypeError` with a message.
    Type(String),
    /// A `SecurityError`.
    Security,
}

/// Names a service worker registration.
#[derive(Clone, Copy, Debug, PartialEq, Eq, Structural)]
pub struct RegistrationHandle {
    pub id: u64,
}

/// How the promise of a job is settled.
pub enum SettleType {
    /// With a registration.
    Resolve(RegistrationHandle),
    /// With an error.
    Reject(Error),
}

/// Which operation of the job queue the script thread is to invoke.
pub enum InvokeType {
    Settle(SettleType),
    Run,
    Register,
    Update,
}

/// Asks the script thread to invoke an operation for the front job of a scope.
pub struct AsyncJobHandler {
    pub scope_url: ServoUrl,
    pub invoke_type: InvokeType,
}

/// Asks the script thread to finish the front job of a scope.
pub struct FinishJobHandler {
    pub scope_url: ServoUrl,
    pub global: GlobalScope,
}

/// A handler to be queued on the script thread on behalf of a global.
pub struct QueuedJob {
    pub handler: Box<AsyncJobHandler>,
    pub global: GlobalScope,
}

/// What an [`Error`] stands for.
pub ghost enum ErrorView {
    Type(Seq<char>),
    Security,
}

/// What a [`SettleType`] stands for.
pub ghost enum SettleView {
    Resolve(RegistrationHandle),
    Reject(ErrorView),
}

/// What an [`InvokeType`] stands for.
pub ghost enum InvokeView {
    Settle(SettleView),
    Run,
    Register,
    Update,
}

/// What an [`AsyncJobHandler`] stands for.
pub ghost struct AsyncJobHandlerView {
    pub scope_url: UrlView,
    pub invoke_type: InvokeView,
}

/// What a [`FinishJobHandler`] stands for.
pub ghost struct FinishJobHandlerView {
    pub scope_url: UrlView,
    pub global: GlobalScope,
}

/// What a [`QueuedJob`] stands for.
pub ghost struct QueuedJobView {
    pub handler: AsyncJobHandlerView,
    pub global: GlobalScope,
}

impl View for Error {
    type V = ErrorView;

    open spec fn view(&self) -> ErrorView {
        match self {
            Error::Type(message) => ErrorView::Type(message@),
            Error::Security => ErrorView::Security,
        }
    }
}

impl View for SettleType {
    type V = SettleView;

    open spec fn view(&self) -> SettleView {
        match self {
            SettleType::Resolve(registration) => SettleView::Resolve(*registration),
            SettleType::Reject(error) => SettleView::Reject(error@),
        }
    }
}

impl View for InvokeType {
    type V = InvokeView;

    open spec fn view(&self) -> InvokeView {
        match self {
            InvokeType::Settle(settle_type) => InvokeView::Settle(settle_type@),
            InvokeType::Run => InvokeView::Run,
            InvokeType::Register => InvokeView::Register,
            InvokeType::Update => InvokeView::Update,
        }
    }
}

impl View for AsyncJobHandler {
    type V = AsyncJobHandlerView;

    open spec fn view(&self) -> AsyncJobHandlerView {
        AsyncJobHandlerView { scope_url: self.scope_url@, invoke_type: self.invoke_type@ }
    }
}

impl View for FinishJobHandler {
    type V = FinishJobHandlerView;

    open spec fn view(&self) -> FinishJobHandlerView {
        FinishJobHandlerView { scope_url: self.scope_url@, global: self.global }
    }
}

impl View for QueuedJob {
    type V = QueuedJobView;

    open spec fn view(&self) -> QueuedJobView {
        QueuedJobView { handler: (*self.handler)@, global: self.global }
    }
}

/// The view of a handler that may be missing.
pub open spec fn queued_view(queued: Option<QueuedJob>) -> Option<QueuedJobView> {
    match queued {
        Some(job) => Some(job@),
        None => None,
    }
}

/// The handler that invokes an operation for a scope, queued on behalf of a global.
pub open spec fn invoking(
    scope_url: UrlView,
    invoke_type: InvokeView,
    global: GlobalScope,
) -> QueuedJobView {
    QueuedJobView { handler: AsyncJobHandlerView { scope_url, invoke_type }, global }
}

/// The handler that rejects the promise of a scope's front job.
pub open spec fn rejecting(
    scope_url: UrlView,
    error: ErrorView,
    global: GlobalScope,
) -> QueuedJobView {
    invoking(scope_url, InvokeView::Settle(SettleView::Reject(error)), global)
}

/// The handler that resolves the promise of a scope's front job with a registration.
pub open spec fn resolving(
    scope_url: UrlView,
    registration: RegistrationHandle,
    global: GlobalScope,
) -> QueuedJobView {
    invoking(scope_url, InvokeView::Settle(SettleView::Resolve(registration)), global)
}

impl Clone for Error {
    fn clone(&self) -> (res: Self)
        ensures
            res == *self,
    {
        match self {
            Error::Type(message) => Error::Type(message.clone()),
            Error::Security => Error::Security,
        }
    }
}

impl Clone for SettleType {
    fn clone(&self) -> (res: Self)
        ensures
            res == *self,
    {
        match self {
            SettleType::Resolve(registration) => SettleType::Resolve(*registration),
            SettleType::Reject(error) => SettleType::Reject(error.clone()),
        }
    }
}

impl FinishJobHandler {
    /// The handler that finishes the front job of a scope.
    pub fn new(scope_url: ServoUrl, global: GlobalScope) -> (res: FinishJobHandler)
        ensures
            res@ == (FinishJobHandlerView { scope_url: scope_url@, global: global }),
    {
        FinishJobHandler { scope_url, global }
    }
}

impl AsyncJobHandler {
    /// The handler that invokes an operation for a scope.
    pub fn new(scope_url: ServoUrl, invoke_type: InvokeType) -> (res: AsyncJobHandler)
        ensures
            res@ == (AsyncJobHandlerView { scope_url: scope_url@, invoke_type: invoke_type@ }),
    {
        AsyncJobHandler { scope_url, invoke_type }
    }
}

impl QueuedJob {
    /// The handler that invokes an operation for a scope, queued on behalf of a global.
    pub fn new(scope_url: ServoUrl, invoke_type: InvokeType, global: GlobalScope) -> (res: QueuedJob)
        ensures
            res@ == invoking(scope_url@, invoke_type@, global),
    {
        QueuedJob { handler: Box::new(AsyncJobHandler::new(scope_url, invoke_type)), global }
    }
}

/// Rejects the promise of a scope's front job with a `TypeError`.
pub fn reject_promise_job(reason: &str, global: GlobalScope, for_scope: &ServoUrl) -> (res: QueuedJob)
    ensures
        res@ == rejecting(for_scope@, ErrorView::Type(reason@), global),
{
    let settle_type = SettleType::Reject(Error::Type(reason.to_owned()));
    QueuedJob::new(for_scope.clone(), InvokeType::Settle(settle_type), global)
}

} // verus!
