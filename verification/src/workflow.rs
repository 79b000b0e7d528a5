//! The vocabulary of the lifecycle orchestrator. The orchestrator never calls
//! a backend itself: each step maps the phase a workflow is in and the reply
//! that just arrived to the next phase and the action to perform next. The
//! caller performs the action and comes back with its reply.

use crate::compute::{
    debug_text_of, ComputeError, ComputeErrorView, DeleteParams, DeleteParamsView, InsertParams,
    InsertParamsView, InstanceTemplate, InstanceTemplateView, TemplateGetParams,
    TemplateGetParamsView,
};
use crate::github::{GithubError, GithubErrorView, JitConfigRequest, JitConfigRequestView};
use vstd::prelude::*;
use vstd::string::StringExecFns;

verus! {

/// Status of a reply that blames the request.
pub const STATUS_BAD_REQUEST: u16 = 400;

/// Status of a reply that reports a failure on this side; the sender may
/// deliver the event again.
pub const STATUS_SERVER_ERROR: u16 = 500;

/// Why the handling of an event failed.
#[derive(Debug, PartialEq, Eq)]
pub enum WorkflowError {
    /// The delivery has no event type header.
    MissingEventHeader,
    /// The event type header is not readable text.
    InvalidEventHeader,
    /// The repository URL does not point at the expected API host.
    InvalidRepositoryUrl,
    /// No registration credential could be obtained.
    JitConfigFailed,
    /// The instance template could not be fetched.
    TemplateGetFailed,
    /// The configured region is not one this fleet can place instances in.
    UnsupportedRegion,
    /// The compute backend refused to create the instance.
    InsertFailed(ComputeError),
    /// The compute backend failed to delete the instance.
    DeleteFailed(ComputeError),
    /// A reply arrived that the current phase does not wait for.
    UnexpectedReply,
}

/// Mathematical image of a [`WorkflowError`].
pub enum WorkflowErrorView {
    MissingEventHeader,
    InvalidEventHeader,
    InvalidRepositoryUrl,
    JitConfigFailed,
    TemplateGetFailed,
    UnsupportedRegion,
    InsertFailed(ComputeErrorView),
    DeleteFailed(ComputeErrorView),
    UnexpectedReply,
}

impl View for WorkflowError {
    type V = WorkflowErrorView;

    open spec fn view(&self) -> WorkflowErrorView {
        match self {
            WorkflowError::MissingEventHeader => WorkflowErrorView::MissingEventHeader,
            WorkflowError::InvalidEventHeader => WorkflowErrorView::InvalidEventHeader,
            WorkflowError::InvalidRepositoryUrl => WorkflowErrorView::InvalidRepositoryUrl,
            WorkflowError::JitConfigFailed => WorkflowErrorView::JitConfigFailed,
            WorkflowError::TemplateGetFailed => WorkflowErrorView::TemplateGetFailed,
            WorkflowError::UnsupportedRegion => WorkflowErrorView::UnsupportedRegion,
            WorkflowError::InsertFailed(cause) => WorkflowErrorView::InsertFailed(cause@),
            WorkflowError::DeleteFailed(cause) => WorkflowErrorView::DeleteFailed(cause@),
            WorkflowError::UnexpectedReply => WorkflowErrorView::UnexpectedReply,
        }
    }
}

/// The status a failure is reported with: a delivery without a usable event
/// type header is the sender's fault, everything else is a server error.
pub open spec fn status_of(error: WorkflowErrorView) -> u16 {
    match error {
        WorkflowErrorView::MissingEventHeader => STATUS_BAD_REQUEST,
        WorkflowErrorView::InvalidEventHeader => STATUS_BAD_REQUEST,
        _ => STATUS_SERVER_ERROR,
    }
}

/// The text a failure is reported with. A failed creation or deletion
/// reports the backend's error as `{:?}` prints it; an unsupported region
/// is reported by its status alone.
pub open spec fn message_of(error: WorkflowErrorView) -> Seq<char> {
    match error {
        WorkflowErrorView::MissingEventHeader => "missing X-GitHub-Event header"@,
        WorkflowErrorView::InvalidEventHeader => "invalid X-GitHub-Event header"@,
        WorkflowErrorView::InvalidRepositoryUrl => "Invalid repository URL format"@,
        WorkflowErrorView::JitConfigFailed => "jit config failed"@,
        WorkflowErrorView::TemplateGetFailed => "templates get failed"@,
        WorkflowErrorView::UnsupportedRegion => Seq::empty(),
        WorkflowErrorView::InsertFailed(cause) => debug_text_of(cause),
        WorkflowErrorView::DeleteFailed(cause) => debug_text_of(cause),
        WorkflowErrorView::UnexpectedReply => "unexpected reply"@,
    }
}

impl WorkflowError {
    /// The body to answer the delivery with.
    pub fn message(&self) -> (text: String)
        ensures
            text@ == message_of(self@),
    {
        match self {
            WorkflowError::MissingEventHeader => String::from_str(
                "missing X-GitHub-Event header",
            ),
            WorkflowError::InvalidEventHeader => String::from_str(
                "invalid X-GitHub-Event header",
            ),
            WorkflowError::InvalidRepositoryUrl => String::from_str(
                "Invalid repository URL format",
            ),
            WorkflowError::JitConfigFailed => String::from_str("jit config failed"),
            WorkflowError::TemplateGetFailed => String::from_str("templates get failed"),
            WorkflowError::UnsupportedRegion => String::new(),
            WorkflowError::InsertFailed(cause) => cause.debug_text(),
            WorkflowError::DeleteFailed(cause) => cause.debug_text(),
            WorkflowError::UnexpectedReply => String::from_str("unexpected reply"),
        }
    }

    /// The HTTP status to answer the delivery with.
    pub fn status_code(&self) -> (status: u16)
        ensures
            status == status_of(self@),
    {
        match self {
            WorkflowError::MissingEventHeader => STATUS_BAD_REQUEST,
            WorkflowError::InvalidEventHeader => STATUS_BAD_REQUEST,
            _ => STATUS_SERVER_ERROR,
        }
    }
}

/// How the handling of a delivery ended when it did not fail. Nothing of
/// this reaches the sender, who is told of success either way; it is there
/// to be logged.
#[derive(Clone, Copy, Debug, PartialEq, Eq, Structural)]
pub enum Completion {
    /// The delivery is not a workflow job event: nothing was done.
    OtherEvent,
    /// The job lacks a required label: nothing was done.
    NotEligible,
    /// The job was neither queued nor completed: nothing was done.
    OtherAction,
    /// The compute backend accepted the creation of the job's instance.
    Created,
    /// The compute backend accepted the deletion of the job's instance.
    Deleted,
    /// The job's instance was not there any more.
    AlreadyDeleted,
}

/// Where a workflow stands.
#[derive(Clone, Copy, Debug, PartialEq, Eq, Structural)]
pub enum Phase {
    /// Nothing has been done yet.
    Start,
    /// The credential and the template have been asked for.
    AwaitingDependencies,
    /// The creation of the instance has been asked for.
    AwaitingInsert,
    /// The deletion of the instance has been asked for.
    AwaitingDelete,
    /// The workflow has ended.
    Finished,
}

/// How the joint fetch of the registration credential and the instance
/// template ended: with both, or with the failure that ended it.
#[derive(Debug, PartialEq, Eq)]
pub enum DependencyReply {
    Ready { jit_config: String, template: InstanceTemplate },
    JitConfigFailed(GithubError),
    TemplateFailed(ComputeError),
}

/// Mathematical image of a [`DependencyReply`].
pub enum DependencyReplyView {
    Ready { jit_config: Seq<char>, template: InstanceTemplateView },
    JitConfigFailed(GithubErrorView),
    TemplateFailed(ComputeErrorView),
}

impl View for DependencyReply {
    type V = DependencyReplyView;

    open spec fn view(&self) -> DependencyReplyView {
        match self {
            DependencyReply::Ready { jit_config, template } => DependencyReplyView::Ready {
                jit_config: jit_config@,
                template: template@,
            },
            DependencyReply::JitConfigFailed(cause) => DependencyReplyView::JitConfigFailed(
                cause@,
            ),
            DependencyReply::TemplateFailed(cause) => DependencyReplyView::TemplateFailed(cause@),
        }
    }
}

/// What the caller reports back to the orchestrator.
#[derive(Debug, PartialEq, Eq)]
pub enum Reply {
    /// Nothing yet: the workflow is to be started.
    Begin,
    /// The fetch of credential and template has ended.
    Dependencies(DependencyReply),
    /// The compute backend has answered the creation request.
    Inserted(Result<(), ComputeError>),
    /// The compute backend has answered the deletion request.
    Deleted(Result<(), ComputeError>),
}

/// Mathematical image of a [`Reply`].
pub enum ReplyView {
    Begin,
    Dependencies(DependencyReplyView),
    Inserted(Result<(), ComputeErrorView>),
    Deleted(Result<(), ComputeErrorView>),
}

/// Mathematical image of a backend's answer to a request that returns
/// nothing of interest on success.
pub open spec fn accepted_view(result: Result<(), ComputeError>) -> Result<(), ComputeErrorView> {
    match result {
        Ok(_) => Ok(()),
        Err(cause) => Err(cause@),
    }
}

impl View for Reply {
    type V = ReplyView;

    open spec fn view(&self) -> ReplyView {
        match self {
            Reply::Begin => ReplyView::Begin,
            Reply::Dependencies(outcome) => ReplyView::Dependencies(outcome@),
            Reply::Inserted(result) => ReplyView::Inserted(accepted_view(*result)),
            Reply::Deleted(result) => ReplyView::Deleted(accepted_view(*result)),
        }
    }
}

/// What the orchestrator asks its caller to do next.
#[derive(Debug, PartialEq, Eq)]
pub enum Action {
    /// Obtain a registration credential and the instance template, both at
    /// once, giving up on both as soon as one fails.
    FetchDependencies { jit_config: JitConfigRequest, template: TemplateGetParams },
    /// Ask the compute backend to create an instance.
    InsertInstance(InsertParams),
    /// Ask the compute backend to delete an instance.
    DeleteInstance(DeleteParams),
    /// Answer the delivery: the workflow has ended.
    Finish(Result<Completion, WorkflowError>),
}

/// Mathematical image of an [`Action`].
pub enum ActionView {
    FetchDependencies { jit_config: JitConfigRequestView, template: TemplateGetParamsView },
    InsertInstance(InsertParamsView),
    DeleteInstance(DeleteParamsView),
    Finish(Result<Completion, WorkflowErrorView>),
}

/// Mathematical image of a workflow's result.
pub open spec fn outcome_view(result: Result<Completion, WorkflowError>) -> Result<
    Completion,
    WorkflowErrorView,
> {
    match result {
        Ok(completion) => Ok(completion),
        Err(error) => Err(error@),
    }
}

impl View for Action {
    type V = ActionView;

    open spec fn view(&self) -> ActionView {
        match self {
            Action::FetchDependencies { jit_config, template } => ActionView::FetchDependencies {
                jit_config: jit_config@,
                template: template@,
            },
            Action::InsertInstance(params) => ActionView::InsertInstance(params@),
            Action::DeleteInstance(params) => ActionView::DeleteInstance(params@),
            Action::Finish(result) => ActionView::Finish(outcome_view(*result)),
        }
    }
}

/// The step that ends a workflow with `result`.
pub open spec fn finish(result: Result<Completion, WorkflowErrorView>) -> (Phase, ActionView) {
    (Phase::Finished, ActionView::Finish(result))
}

/// How many more actions against a backend a workflow in `phase` can ask for.
pub open spec fn actions_left(phase: Phase) -> nat {
    match phase {
        Phase::Start => 2,
        Phase::AwaitingDependencies => 1,
        Phase::AwaitingInsert => 0,
        Phase::AwaitingDelete => 0,
        Phase::Finished => 0,
    }
}

/// The phase a workflow is in after it asked for `action`.
pub open spec fn phase_after(action: ActionView) -> Phase {
    match action {
        ActionView::FetchDependencies { .. } => Phase::AwaitingDependencies,
        ActionView::InsertInstance(_) => Phase::AwaitingInsert,
        ActionView::DeleteInstance(_) => Phase::AwaitingDelete,
        ActionView::Finish(_) => Phase::Finished,
    }
}

} // verus!
