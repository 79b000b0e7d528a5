//! What holds of every delivery, whatever the backends answer. Each
//! statement is about [`handle_step`], the function that the handler
//! computes, and is proved for all settings, events, phases and replies that
//! meet its premises.

use crate::compute::{ComputeErrorView, InstanceTemplateView, MetadataItemView};
use crate::github::jit_config_request_for;
use crate::instance::{
    credential_key, delete_request_for, expected_host, insert_request_for, merged_metadata,
    template_items, template_request_for,
};
use crate::placement::{lemma_zone_is_supported, supported_region, supported_zones, zone_for};
use crate::utils::{
    is_valid_name, lemma_instance_name_is_injective, lemma_instance_name_is_valid,
    lemma_raw_instance_name_is_valid, raw_instance_name,
};
use crate::webhook::{
    admitted, handle_step, instance_name_of, job_id_of, job_labels, left_alone, run_id_of,
    EventHeaderView, RunnerSettingsView,
    WorkflowJobWebhookEventAction, WorkflowJobWebhookEventPayloadView, WorkflowJobWebhookView,
};
use crate::workflow::{
    actions_left, finish, phase_after, status_of, ActionView, Completion, DependencyReplyView,
    Phase, ReplyView, WorkflowErrorView, STATUS_SERVER_ERROR,
};
use vstd::prelude::*;

verus! {

/// The instance name is a function of the run id and the job id alone, and
/// it tells jobs apart: two events name the same instance exactly when
/// they are about the same job, whatever else they carry. The name is
/// always a valid one, `gha-<run_id>-<job_id>` itself.
pub proof fn lemma_same_job_same_instance_name(
    first: WorkflowJobWebhookEventPayloadView,
    second: WorkflowJobWebhookEventPayloadView,
)
    ensures
        instance_name_of(first) == instance_name_of(second) <==> run_id_of(first) == run_id_of(
            second,
        ) && job_id_of(first) == job_id_of(second),
        is_valid_name(instance_name_of(first)),
        instance_name_of(first) == raw_instance_name(run_id_of(first), job_id_of(first)),
{
    lemma_instance_name_is_valid(run_id_of(first), job_id_of(first));
    lemma_raw_instance_name_is_valid(run_id_of(first) as i64, job_id_of(first) as i64);
    if instance_name_of(first) == instance_name_of(second) {
        lemma_instance_name_is_injective(
            run_id_of(first) as i64,
            job_id_of(first) as i64,
            run_id_of(second) as i64,
            job_id_of(second) as i64,
        );
    }
}

/// A delivery that is not admitted (another event type, or a job without
/// the required labels) is acknowledged at once, and no backend is called
/// on its behalf.
pub proof fn lemma_unadmitted_delivery_is_acknowledged(
    event_type: Seq<char>,
    settings: RunnerSettingsView,
    body: WorkflowJobWebhookView,
    host: Option<Seq<char>>,
    phase: Phase,
    reply: ReplyView,
)
    requires
        !admitted(EventHeaderView::Value(event_type), body),
    ensures
        handle_step(EventHeaderView::Value(event_type), settings, body, host, phase, reply)
            == finish(Ok(left_alone(event_type))),
{
}

/// An admitted delivery whose action is neither `queued` nor `completed` is
/// acknowledged at once, and no backend is called on its behalf.
pub proof fn lemma_other_action_is_acknowledged(
    header: EventHeaderView,
    settings: RunnerSettingsView,
    body: WorkflowJobWebhookView,
    host: Option<Seq<char>>,
    phase: Phase,
    reply: ReplyView,
)
    requires
        admitted(header, body),
        body.payload.action != WorkflowJobWebhookEventAction::Queued,
        body.payload.action != WorkflowJobWebhookEventAction::Completed,
    ensures
        handle_step(header, settings, body, host, phase, reply) == finish(
            Ok(Completion::OtherAction),
        ),
{
}

/// With an unsupported region no backend is ever called: every step ends the
/// workflow, and the first step of an otherwise valid delivery reports the
/// region.
pub proof fn lemma_unsupported_region_calls_no_backend(
    header: EventHeaderView,
    settings: RunnerSettingsView,
    body: WorkflowJobWebhookView,
    host: Option<Seq<char>>,
    phase: Phase,
    reply: ReplyView,
)
    requires
        settings.region != supported_region(),
    ensures
        handle_step(header, settings, body, host, phase, reply).1 is Finish,
        admitted(header, body) && ((body.payload.action == WorkflowJobWebhookEventAction::Queued
            && host == Some(expected_host())) || body.payload.action
            == WorkflowJobWebhookEventAction::Completed) ==> handle_step(
            header,
            settings,
            body,
            host,
            Phase::Start,
            ReplyView::Begin,
        ) == finish(Err(WorkflowErrorView::UnsupportedRegion)),
{
    lemma_zone_is_supported(settings.region, instance_name_of(body.payload));
}

/// A queued job whose repository URL does not name the expected host is
/// refused before any backend is called.
pub proof fn lemma_foreign_repository_is_refused(
    header: EventHeaderView,
    settings: RunnerSettingsView,
    body: WorkflowJobWebhookView,
    host: Option<Seq<char>>,
)
    requires
        admitted(header, body),
        body.payload.action == WorkflowJobWebhookEventAction::Queued,
        host != Some(expected_host()),
    ensures
        handle_step(header, settings, body, host, Phase::Start, ReplyView::Begin) == finish(
            Err(WorkflowErrorView::InvalidRepositoryUrl),
        ),
{
}

/// A valid queued job starts by asking for its two dependencies together:
/// a registration credential for a runner named like the instance, with the
/// job's labels, and the metadata of the configured template.
pub proof fn lemma_queued_job_fetches_dependencies(
    header: EventHeaderView,
    settings: RunnerSettingsView,
    body: WorkflowJobWebhookView,
    host: Option<Seq<char>>,
)
    requires
        admitted(header, body),
        body.payload.action == WorkflowJobWebhookEventAction::Queued,
        host == Some(expected_host()),
        settings.region == supported_region(),
    ensures
        handle_step(header, settings, body, host, Phase::Start, ReplyView::Begin) == (
            Phase::AwaitingDependencies,
            ActionView::FetchDependencies {
                jit_config: jit_config_request_for(
                    body.repository_url,
                    settings.token,
                    instance_name_of(body.payload),
                    job_labels(body.payload.workflow_job),
                ),
                template: template_request_for(
                    settings.project_id,
                    settings.region,
                    settings.instance_template,
                ),
            },
        ),
{
}

/// Once both dependencies are there, exactly one creation is asked for: of
/// an instance with a valid name, in one of the supported zones, whose
/// metadata is the template's, item for item, followed by the credential.
pub proof fn lemma_ready_dependencies_create_instance(
    header: EventHeaderView,
    settings: RunnerSettingsView,
    body: WorkflowJobWebhookView,
    host: Option<Seq<char>>,
    jit_config: Seq<char>,
    template: InstanceTemplateView,
)
    requires
        admitted(header, body),
        body.payload.action == WorkflowJobWebhookEventAction::Queued,
        settings.region == supported_region(),
    ensures
        ({
            let name = instance_name_of(body.payload);
            let zone = zone_for(settings.region, name)->0;
            let items = merged_metadata(template, jit_config);
            &&& handle_step(
                header,
                settings,
                body,
                host,
                Phase::AwaitingDependencies,
                ReplyView::Dependencies(DependencyReplyView::Ready { jit_config, template }),
            ) == (
                Phase::AwaitingInsert,
                ActionView::InsertInstance(
                    insert_request_for(
                        settings.project_id,
                        settings.region,
                        settings.instance_template,
                        zone,
                        name,
                        items,
                    ),
                ),
            )
            &&& is_valid_name(name)
            &&& supported_zones().contains(zone)
            &&& items.len() == template_items(template).len() + 1
            &&& items.take(items.len() - 1) == template_items(template)
            &&& items.last() == (MetadataItemView {
                key: Some(credential_key()),
                value: Some(jit_config),
            })
        }),
{
    let name = instance_name_of(body.payload);
    lemma_zone_is_supported(settings.region, name);
    lemma_instance_name_is_valid(run_id_of(body.payload), job_id_of(body.payload));
    let items = merged_metadata(template, jit_config);
    assert(items.take(items.len() - 1) =~= template_items(template));
}

/// A failed fetch, of the credential or of the template, ends the create
/// workflow with a server error. No creation is asked for.
pub proof fn lemma_failed_dependency_ends_create(
    header: EventHeaderView,
    settings: RunnerSettingsView,
    body: WorkflowJobWebhookView,
    host: Option<Seq<char>>,
    outcome: DependencyReplyView,
)
    requires
        admitted(header, body),
        body.payload.action == WorkflowJobWebhookEventAction::Queued,
        !(outcome is Ready),
    ensures
        handle_step(
            header,
            settings,
            body,
            host,
            Phase::AwaitingDependencies,
            ReplyView::Dependencies(outcome),
        ) == finish(
            Err(
                if outcome is JitConfigFailed {
                    WorkflowErrorView::JitConfigFailed
                } else {
                    WorkflowErrorView::TemplateGetFailed
                },
            ),
        ),
        status_of(WorkflowErrorView::JitConfigFailed) == STATUS_SERVER_ERROR,
        status_of(WorkflowErrorView::TemplateGetFailed) == STATUS_SERVER_ERROR,
{
}

/// A creation is only ever asked for on behalf of an admitted queued job,
/// in a supported region, and only in answer to the arrival of both
/// dependencies.
pub proof fn lemma_insert_needs_both_dependencies(
    header: EventHeaderView,
    settings: RunnerSettingsView,
    body: WorkflowJobWebhookView,
    host: Option<Seq<char>>,
    phase: Phase,
    reply: ReplyView,
)
    ensures
        handle_step(header, settings, body, host, phase, reply).1 is InsertInstance ==> {
            &&& admitted(header, body)
            &&& body.payload.action == WorkflowJobWebhookEventAction::Queued
            &&& settings.region == supported_region()
            &&& phase == Phase::AwaitingDependencies
            &&& reply matches ReplyView::Dependencies(DependencyReplyView::Ready { .. })
        },
{
    lemma_zone_is_supported(settings.region, instance_name_of(body.payload));
}

/// The answer to the creation request ends the create workflow: with
/// success when the backend accepted it, else with a server error that
/// carries the backend's reason. Nothing is undone.
pub proof fn lemma_insert_reply_ends_create(
    header: EventHeaderView,
    settings: RunnerSettingsView,
    body: WorkflowJobWebhookView,
    host: Option<Seq<char>>,
    result: Result<(), ComputeErrorView>,
)
    requires
        admitted(header, body),
        body.payload.action == WorkflowJobWebhookEventAction::Queued,
    ensures
        handle_step(
            header,
            settings,
            body,
            host,
            Phase::AwaitingInsert,
            ReplyView::Inserted(result),
        ) == finish(
            match result {
                Ok(_) => Ok(Completion::Created),
                Err(cause) => Err(WorkflowErrorView::InsertFailed(cause)),
            },
        ),
        result matches Err(cause) ==> status_of(WorkflowErrorView::InsertFailed(cause))
            == STATUS_SERVER_ERROR,
{
}

/// A completed job in a supported region starts by asking for the deletion
/// of its instance, in the zone that the instance name selects.
pub proof fn lemma_completed_job_deletes_instance(
    header: EventHeaderView,
    settings: RunnerSettingsView,
    body: WorkflowJobWebhookView,
    host: Option<Seq<char>>,
)
    requires
        admitted(header, body),
        body.payload.action == WorkflowJobWebhookEventAction::Completed,
        settings.region == supported_region(),
    ensures
        handle_step(header, settings, body, host, Phase::Start, ReplyView::Begin) == (
            Phase::AwaitingDelete,
            ActionView::DeleteInstance(
                delete_request_for(
                    settings.project_id,
                    zone_for(settings.region, instance_name_of(body.payload))->0,
                    instance_name_of(body.payload),
                ),
            ),
        ),
{
    lemma_zone_is_supported(settings.region, instance_name_of(body.payload));
}

/// Deleting is idempotent: when the backend reports that the instance is
/// not there, the delete workflow ends with success, as it does when the
/// backend accepted the deletion. Any other failure is a server error.
pub proof fn lemma_delete_of_missing_instance_succeeds(
    header: EventHeaderView,
    settings: RunnerSettingsView,
    body: WorkflowJobWebhookView,
    host: Option<Seq<char>>,
    message: Seq<char>,
)
    requires
        admitted(header, body),
        body.payload.action == WorkflowJobWebhookEventAction::Completed,
    ensures
        handle_step(
            header,
            settings,
            body,
            host,
            Phase::AwaitingDelete,
            ReplyView::Deleted(Err(ComputeErrorView::NotFound)),
        ) == finish(Ok(Completion::AlreadyDeleted)),
        handle_step(
            header,
            settings,
            body,
            host,
            Phase::AwaitingDelete,
            ReplyView::Deleted(Ok(())),
        ) == finish(Ok(Completion::Deleted)),
        handle_step(
            header,
            settings,
            body,
            host,
            Phase::AwaitingDelete,
            ReplyView::Deleted(Err(ComputeErrorView::Other(message))),
        ) == finish(Err(WorkflowErrorView::DeleteFailed(ComputeErrorView::Other(message)))),
        status_of(WorkflowErrorView::DeleteFailed(ComputeErrorView::Other(message)))
            == STATUS_SERVER_ERROR,
{
}

/// The delete workflow never creates anything: a completed job leads to no
/// fetch of dependencies and to no creation, whatever the phase and the
/// reply.
pub proof fn lemma_completed_job_never_creates(
    header: EventHeaderView,
    settings: RunnerSettingsView,
    body: WorkflowJobWebhookView,
    host: Option<Seq<char>>,
    phase: Phase,
    reply: ReplyView,
)
    requires
        body.payload.action == WorkflowJobWebhookEventAction::Completed,
    ensures
        !(handle_step(header, settings, body, host, phase, reply).1 is InsertInstance),
        !(handle_step(header, settings, body, host, phase, reply).1 is FetchDependencies),
{
}

/// The deletion of a completed job targets the very instance that the
/// creation for the same job asked for: same project, same zone, same name.
/// Only the job's run id and job id decide, so nothing has to be remembered
/// between the two deliveries.
pub proof fn lemma_delete_targets_created_instance(
    header: EventHeaderView,
    settings: RunnerSettingsView,
    queued: WorkflowJobWebhookView,
    completed: WorkflowJobWebhookView,
    queued_host: Option<Seq<char>>,
    completed_host: Option<Seq<char>>,
    jit_config: Seq<char>,
    template: InstanceTemplateView,
)
    requires
        admitted(header, queued),
        admitted(header, completed),
        queued.payload.action == WorkflowJobWebhookEventAction::Queued,
        completed.payload.action == WorkflowJobWebhookEventAction::Completed,
        queued.payload.workflow_job.run_id == completed.payload.workflow_job.run_id,
        queued.payload.workflow_job.id == completed.payload.workflow_job.id,
        settings.region == supported_region(),
    ensures
        ({
            let created = handle_step(
                header,
                settings,
                queued,
                queued_host,
                Phase::AwaitingDependencies,
                ReplyView::Dependencies(DependencyReplyView::Ready { jit_config, template }),
            ).1;
            let deleted = handle_step(
                header,
                settings,
                completed,
                completed_host,
                Phase::Start,
                ReplyView::Begin,
            ).1;
            &&& created is InsertInstance
            &&& deleted is DeleteInstance
            &&& created->InsertInstance_0.project == deleted->DeleteInstance_0.project
            &&& created->InsertInstance_0.zone == deleted->DeleteInstance_0.zone
            &&& created->InsertInstance_0.instance_name == deleted->DeleteInstance_0.instance
        }),
{
    lemma_zone_is_supported(settings.region, instance_name_of(queued.payload));
}

/// Every step moves a workflow forward. The phase it returns is the one that
/// waits for the reply to the action it asks for, and each action against a
/// backend uses up at least one of those the workflow had left. So a
/// delivery is answered after at most three steps, whatever the backends
/// reply.
pub proof fn lemma_steps_make_progress(
    header: EventHeaderView,
    settings: RunnerSettingsView,
    body: WorkflowJobWebhookView,
    host: Option<Seq<char>>,
    phase: Phase,
    reply: ReplyView,
)
    ensures
        ({
            let step = handle_step(header, settings, body, host, phase, reply);
            &&& step.0 == phase_after(step.1)
            &&& !(step.1 is Finish) ==> actions_left(phase) > 0 && actions_left(step.0) < actions_left(
                phase,
            )
        }),
{
    lemma_zone_is_supported(settings.region, instance_name_of(body.payload));
}

/// A reply that the current phase does not wait for ends a workflow with a
/// server error; in particular a finished workflow stays finished.
pub proof fn lemma_finished_workflow_stays_finished(
    header: EventHeaderView,
    settings: RunnerSettingsView,
    body: WorkflowJobWebhookView,
    host: Option<Seq<char>>,
    reply: ReplyView,
)
    ensures
        handle_step(header, settings, body, host, Phase::Finished, reply).0 == Phase::Finished,
        handle_step(header, settings, body, host, Phase::Finished, reply).1 is Finish,
{
}

} // verus!
