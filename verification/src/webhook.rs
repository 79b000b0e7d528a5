//! Workflow job events and the decisions taken on their arrival.

use crate::instance::{
    create_instance_for_host, create_step, delete_instance, delete_step, repository_host_at,
    url_host,
};
use crate::text::str_equal;
use crate::utils::{instance_name, make_instance_name};
use crate::workflow::{
    finish, Action, ActionView, Completion, Phase, Reply, ReplyView, WorkflowError,
    WorkflowErrorView,
};
use vstd::prelude::*;

verus! {

/// What happened to the workflow job that an event reports.
#[derive(Clone, Copy, Debug, PartialEq, Eq, Structural)]
pub enum WorkflowJobWebhookEventAction {
    Completed,
    InProgress,
    Queued,
    Waiting,
    /// Any action this library has no name for.
    Other,
}

/// The repository a workflow job belongs to.
#[derive(Debug, PartialEq, Eq)]
pub struct Repository {
    /// API URL of the repository.
    pub url: String,
}

/// What the orchestrator reads of a workflow job. Fields that the event
/// lacks, or that hold something other than the expected kind of value, are
/// `None`; so is every entry of `labels` that is not a string.
#[derive(Debug, PartialEq, Eq)]
pub struct WorkflowJob {
    pub id: Option<i64>,
    pub run_id: Option<i64>,
    pub labels: Option<Vec<Option<String>>>,
    pub conclusion: Option<String>,
}

/// Mathematical image of a [`WorkflowJob`].
pub struct WorkflowJobView {
    pub id: Option<i64>,
    pub run_id: Option<i64>,
    pub labels: Option<Seq<Option<Seq<char>>>>,
    pub conclusion: Option<Seq<char>>,
}

impl View for WorkflowJob {
    type V = WorkflowJobView;

    open spec fn view(&self) -> WorkflowJobView {
        WorkflowJobView {
            id: self.id,
            run_id: self.run_id,
            labels: self.labels.deep_view(),
            conclusion: self.conclusion.deep_view(),
        }
    }
}

/// The part of a webhook delivery that describes the job.
#[derive(Debug, PartialEq, Eq)]
pub struct WorkflowJobWebhookEventPayload {
    pub action: WorkflowJobWebhookEventAction,
    pub workflow_job: WorkflowJob,
}

/// Mathematical image of a [`WorkflowJobWebhookEventPayload`].
pub struct WorkflowJobWebhookEventPayloadView {
    pub action: WorkflowJobWebhookEventAction,
    pub workflow_job: WorkflowJobView,
}

impl View for WorkflowJobWebhookEventPayload {
    type V = WorkflowJobWebhookEventPayloadView;

    open spec fn view(&self) -> WorkflowJobWebhookEventPayloadView {
        WorkflowJobWebhookEventPayloadView {
            action: self.action,
            workflow_job: self.workflow_job@,
        }
    }
}

/// A `workflow_job` webhook delivery.
#[derive(Debug, PartialEq, Eq)]
pub struct WorkflowJobWebhook {
    pub repository: Repository,
    pub payload: WorkflowJobWebhookEventPayload,
}

/// Mathematical image of a [`WorkflowJobWebhook`].
pub struct WorkflowJobWebhookView {
    pub repository_url: Seq<char>,
    pub payload: WorkflowJobWebhookEventPayloadView,
}

impl View for WorkflowJobWebhook {
    type V = WorkflowJobWebhookView;

    open spec fn view(&self) -> WorkflowJobWebhookView {
        WorkflowJobWebhookView { repository_url: self.repository.url@, payload: self.payload@ }
    }
}

/// The labels a job must carry for this fleet to serve it.
pub open spec fn required_labels() -> Set<Seq<char>> {
    set!["linux"@, "self-hosted"@, "ARM64"@]
}

/// A job is eligible when its labels include every required label.
pub open spec fn eligible(labels: Set<Seq<char>>) -> bool {
    required_labels().subset_of(labels)
}

/// The labels a job asks for: the string entries of its label list, in
/// order. A missing list counts as empty, and entries that are not strings
/// are left out.
pub open spec fn job_labels(job: WorkflowJobView) -> Seq<Seq<char>> {
    match job.labels {
        Some(entries) => entries.filter_map(|entry: Option<Seq<char>>| entry),
        None => Seq::empty(),
    }
}

/// A label that is not required plays no part: adding it to a job's labels
/// never changes whether the job is eligible.
pub proof fn lemma_unrelated_label_is_ignored(labels: Set<Seq<char>>, extra: Seq<char>)
    requires
        !required_labels().contains(extra),
    ensures
        eligible(labels.insert(extra)) == eligible(labels),
{
    if eligible(labels.insert(extra)) {
        assert forall|label: Seq<char>| required_labels().contains(label) implies labels.contains(
            label,
        ) by {
            assert(labels.insert(extra).contains(label));
        }
    }
}

/// The same for a list of labels: one more entry that is not a required
/// label changes nothing.
pub proof fn lemma_unrelated_entry_is_ignored(labels: Seq<Seq<char>>, extra: Seq<char>)
    requires
        !required_labels().contains(extra),
    ensures
        eligible(labels.push(extra).to_set()) == eligible(labels.to_set()),
{
    labels.lemma_push_to_set_commute(extra);
    lemma_unrelated_label_is_ignored(labels.to_set(), extra);
}

/// Every required label is needed: a job whose labels lack one of them is
/// not eligible, whatever else it carries.
pub proof fn lemma_missing_required_label_rejects(labels: Set<Seq<char>>, label: Seq<char>)
    requires
        required_labels().contains(label),
    ensures
        !eligible(labels.remove(label)),
        !labels.contains(label) ==> !eligible(labels),
{
    assert(!labels.remove(label).contains(label));
}

fn has_label(labels: &Vec<String>, wanted: &str) -> (found: bool)
    ensures
        found == labels.deep_view().contains(wanted@),
{
    let mut i: usize = 0;
    while i < labels.len()
        invariant
            i <= labels.len(),
            forall|k: int| 0 <= k < i ==> labels.deep_view()[k] != wanted@,
        decreases labels.len() - i,
    {
        if str_equal(labels[i].as_str(), wanted) {
            assert(labels.deep_view()[i as int] == wanted@);
            return true;
        }
        i = i + 1;
    }
    false
}

/// Checks if the job has the required labels: `linux`, `self-hosted` and
/// `ARM64`. Other labels are allowed and play no part.
pub fn has_required_labels(labels: &Vec<String>) -> (admitted: bool)
    ensures
        admitted == eligible(labels.deep_view().to_set()),
{
    let linux = has_label(labels, "linux");
    let self_hosted = has_label(labels, "self-hosted");
    let arm64 = has_label(labels, "ARM64");
    proof {
        let carried = labels.deep_view().to_set();
        assert(required_labels().contains("linux"@));
        assert(required_labels().contains("self-hosted"@));
        assert(required_labels().contains("ARM64"@));
        assert(eligible(carried) == (carried.contains("linux"@) && carried.contains(
            "self-hosted"@,
        ) && carried.contains("ARM64"@)));
    }
    linux && self_hosted && arm64
}

/// Extracts the labels of a job: its string entries, in order.
pub fn extract_labels(job: &WorkflowJob) -> (labels: Vec<String>)
    ensures
        labels.deep_view() == job_labels(job@),
{
    let mut labels: Vec<String> = Vec::new();
    match &job.labels {
        Some(entries) => {
            let ghost pick = |entry: Option<Seq<char>>| entry;
            let mut i: usize = 0;
            while i < entries.len()
                invariant
                    i <= entries.len(),
                    pick == (|entry: Option<Seq<char>>| entry),
                    labels.deep_view() == entries.deep_view().take(i as int).filter_map(pick),
                decreases entries.len() - i,
            {
                proof {
                    let seen = entries.deep_view().take(i as int);
                    let next = entries.deep_view().take(i as int + 1);
                    assert(next.drop_last() =~= seen);
                    assert(next.last() == entries[i as int].deep_view());
                }
                let ghost before = labels.deep_view();
                match &entries[i] {
                    Some(label) => {
                        labels.push(label.clone());
                        assert(labels.deep_view() =~= before + seq![label@]);
                    },
                    None => {},
                }
                i = i + 1;
            }
            proof {
                assert(entries.deep_view().take(entries.len() as int) =~= entries.deep_view());
            }
        },
        None => {
            assert(labels.deep_view() =~= Seq::<Seq<char>>::empty());
        },
    }
    labels
}

/// The event type header of a delivery, as far as it could be read.
#[derive(Debug, PartialEq, Eq)]
pub enum EventHeader {
    /// The delivery has no such header.
    Missing,
    /// The header is there but is not readable text.
    Invalid,
    /// The event type the header names.
    Value(String),
}

/// Mathematical image of an [`EventHeader`].
pub enum EventHeaderView {
    Missing,
    Invalid,
    Value(Seq<char>),
}

impl View for EventHeader {
    type V = EventHeaderView;

    open spec fn view(&self) -> EventHeaderView {
        match self {
            EventHeader::Missing => EventHeaderView::Missing,
            EventHeader::Invalid => EventHeaderView::Invalid,
            EventHeader::Value(event_type) => EventHeaderView::Value(event_type@),
        }
    }
}

/// The resolved configuration the orchestrator works with.
#[derive(Debug, PartialEq, Eq)]
pub struct RunnerSettings {
    pub project_id: String,
    pub region: String,
    /// Bearer token for the authorization backend.
    pub token: String,
    pub instance_template: String,
}

/// Mathematical image of a [`RunnerSettings`].
pub struct RunnerSettingsView {
    pub project_id: Seq<char>,
    pub region: Seq<char>,
    pub token: Seq<char>,
    pub instance_template: Seq<char>,
}

impl View for RunnerSettings {
    type V = RunnerSettingsView;

    open spec fn view(&self) -> RunnerSettingsView {
        RunnerSettingsView {
            project_id: self.project_id@,
            region: self.region@,
            token: self.token@,
            instance_template: self.instance_template@,
        }
    }
}

/// The event type that is acted on.
pub open spec fn workflow_job_event() -> Seq<char> {
    "workflow_job"@
}

/// The run id of the job an event is about; zero when the event has none.
pub open spec fn run_id_of(payload: WorkflowJobWebhookEventPayloadView) -> int {
    match payload.workflow_job.run_id {
        Some(run_id) => run_id as int,
        None => 0,
    }
}

/// The id of the job an event is about; zero when the event has none.
pub open spec fn job_id_of(payload: WorkflowJobWebhookEventPayloadView) -> int {
    match payload.workflow_job.id {
        Some(id) => id as int,
        None => 0,
    }
}

/// The instance name of the job an event is about.
pub open spec fn instance_name_of(payload: WorkflowJobWebhookEventPayloadView) -> Seq<char> {
    instance_name(run_id_of(payload), job_id_of(payload))
}

/// Whether a delivery is acted on at all: it must be a workflow job event
/// and the job must carry the required labels.
pub open spec fn admitted(header: EventHeaderView, body: WorkflowJobWebhookView) -> bool {
    header == EventHeaderView::Value(workflow_job_event()) && eligible(
        job_labels(body.payload.workflow_job).to_set(),
    )
}

/// Why a delivery with a readable event type that is not admitted is left
/// alone: the event type is tested first, then the labels.
pub open spec fn left_alone(event_type: Seq<char>) -> Completion {
    if event_type != workflow_job_event() {
        Completion::OtherEvent
    } else {
        Completion::NotEligible
    }
}

/// One step of the handling of a delivery.
///
/// * A delivery without a readable event type header is refused.
/// * A delivery that is not admitted, or whose action is neither `queued`
///   nor `completed`, is acknowledged and nothing is done; the step says
///   which of these it was.
/// * A queued job runs the create workflow and a completed job the delete
///   workflow, both on the instance name derived from the job.
///
/// `host` is the host that the repository URL of the delivery names.
pub open spec fn handle_step(
    header: EventHeaderView,
    settings: RunnerSettingsView,
    body: WorkflowJobWebhookView,
    host: Option<Seq<char>>,
    phase: Phase,
    reply: ReplyView,
) -> (Phase, ActionView) {
    match header {
        EventHeaderView::Missing => finish(Err(WorkflowErrorView::MissingEventHeader)),
        EventHeaderView::Invalid => finish(Err(WorkflowErrorView::InvalidEventHeader)),
        EventHeaderView::Value(event_type) => {
            if !admitted(header, body) {
                finish(Ok(left_alone(event_type)))
            } else {
                match body.payload.action {
                    WorkflowJobWebhookEventAction::Queued => create_step(
                        settings.project_id,
                        settings.region,
                        settings.token,
                        settings.instance_template,
                        instance_name_of(body.payload),
                        body,
                        host,
                        phase,
                        reply,
                    ),
                    WorkflowJobWebhookEventAction::Completed => delete_step(
                        settings.project_id,
                        settings.region,
                        instance_name_of(body.payload),
                        phase,
                        reply,
                    ),
                    _ => finish(Ok(Completion::OtherAction)),
                }
            }
        },
    }
}

/// Handles a workflow job webhook delivery, one step at a time, given the
/// host that the repository URL of the delivery names. See [`handle_step`].
pub fn handle_workflow_job_event_for_host(
    header: &EventHeader,
    state: &RunnerSettings,
    body: &WorkflowJobWebhook,
    host: &Option<String>,
    phase: Phase,
    reply: Reply,
) -> (step: (Phase, Action))
    ensures
        (step.0, step.1@) == handle_step(
            header@,
            state@,
            body@,
            host.deep_view(),
            phase,
            reply@,
        ),
{
    let event_type = match header {
        EventHeader::Missing => {
            return (Phase::Finished, Action::Finish(Err(WorkflowError::MissingEventHeader)));
        },
        EventHeader::Invalid => {
            return (Phase::Finished, Action::Finish(Err(WorkflowError::InvalidEventHeader)));
        },
        EventHeader::Value(event_type) => event_type,
    };
    if !str_equal(event_type.as_str(), "workflow_job") {
        return (Phase::Finished, Action::Finish(Ok(Completion::OtherEvent)));
    }
    let labels = extract_labels(&body.payload.workflow_job);
    if !has_required_labels(&labels) {
        return (Phase::Finished, Action::Finish(Ok(Completion::NotEligible)));
    }
    let name = make_instance_name(&body.payload);
    match body.payload.action {
        WorkflowJobWebhookEventAction::Queued => create_instance_for_host(
            state.project_id.as_str(),
            state.region.as_str(),
            state.token.as_str(),
            state.instance_template.as_str(),
            name.as_str(),
            body,
            host,
            phase,
            reply,
        ),
        WorkflowJobWebhookEventAction::Completed => delete_instance(
            state.project_id.as_str(),
            state.region.as_str(),
            name.as_str(),
            phase,
            reply,
        ),
        _ => (Phase::Finished, Action::Finish(Ok(Completion::OtherAction))),
    }
}

/// Handles a workflow job webhook delivery, one step at a time: called with
/// `Phase::Start` and `Reply::Begin` when the delivery arrives, and again
/// with the phase it returned and the reply to the action it asked for,
/// until it asks to finish. See [`handle_step`]; the host is read from the
/// repository URL of the delivery.
pub fn handle_workflow_job_event(
    header: &EventHeader,
    state: &RunnerSettings,
    body: &WorkflowJobWebhook,
    phase: Phase,
    reply: Reply,
) -> (step: (Phase, Action))
    ensures
        (step.0, step.1@) == handle_step(
            header@,
            state@,
            body@,
            url_host(body@.repository_url),
            phase,
            reply@,
        ),
{
    let host = repository_host_at(body, phase);
    handle_workflow_job_event_for_host(header, state, body, &host, phase, reply)
}

} // verus!
