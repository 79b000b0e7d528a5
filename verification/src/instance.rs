//! Instance lifecycle: placing, creating and deleting the instance of a job.

use crate::compute::{
    DeleteParams, DeleteParamsView, InsertParams, InsertParamsView, InstanceTemplate,
    InstanceTemplateView, MetadataItem, MetadataItemView, TemplateGetParams,
    TemplateGetParamsView,
};
use crate::github::{jit_config_request, jit_config_request_for};
use crate::placement::{fnv1a_hash, supported_region, zone_for, zone_index, ZONE_COUNT};
use crate::text::str_equal;
use crate::webhook::{extract_labels, job_labels, WorkflowJobWebhook, WorkflowJobWebhookView};
use crate::workflow::{
    finish, Action, ActionView, Completion, DependencyReply, DependencyReplyView, Phase, Reply,
    ReplyView, WorkflowError, WorkflowErrorView,
};
use vstd::prelude::*;
use vstd::string::StringExecFns;

verus! {

/// Whether instances can be placed in `region`.
pub fn is_supported_region(region: &str) -> (supported: bool)
    ensures
        supported == (region@ == supported_region()),
{
    str_equal(region, "us-central1")
}

/// Deterministically selects a zone of `region` from the instance name. Only
/// `us-central1` is supported: any other region is refused.
pub fn select_zone_for_region(region: &str, instance_name: &str) -> (selected: Result<
    String,
    WorkflowError,
>)
    ensures
        match selected {
            Ok(zone) => zone_for(region@, instance_name@) == Some(zone@),
            Err(error) => zone_for(region@, instance_name@).is_none()
                && error@ is UnsupportedRegion,
        },
{
    if !is_supported_region(region) {
        return Err(WorkflowError::UnsupportedRegion);
    }
    let hash = fnv1a_hash(instance_name.as_bytes());
    let index = hash % ZONE_COUNT;
    assert(index == zone_index(instance_name@));
    let zone = if index == 0 {
        "us-central1-a"
    } else if index == 1 {
        "us-central1-b"
    } else if index == 2 {
        "us-central1-c"
    } else {
        "us-central1-f"
    };
    Ok(String::from_str(zone))
}

/// The host part of a URL as the `url` crate reads it: `None` when the text
/// is not an absolute URL or the URL has no host.
pub uninterp spec fn url_host(url: Seq<char>) -> Option<Seq<char>>;

/// Parses `url` with `url::Url::parse` and returns what `Url::host_str`
/// gives for it, or `None` when it does not parse. Trusted: the result is
/// only named, as a function of the URL's text.
#[verifier::external_body]
fn repository_host(url: &str) -> (host: Option<String>)
    ensures
        host.deep_view() == url_host(url@),
{
    match url::Url::parse(url) {
        Ok(parsed) => match parsed.host_str() {
            Some(host) => Some(host.to_string()),
            None => None,
        },
        Err(_) => None,
    }
}

/// The host of the repository URL of `event`, where a workflow in `phase`
/// can need it: only the first step of a workflow looks at the host, so
/// later steps do not read the URL again.
pub fn repository_host_at(event: &WorkflowJobWebhook, phase: Phase) -> (host: Option<String>)
    ensures
        phase == Phase::Start ==> host.deep_view() == url_host(event@.repository_url),
        phase != Phase::Start ==> host.is_none(),
{
    match phase {
        Phase::Start => repository_host(event.repository.url.as_str()),
        _ => None,
    }
}

/// The API host that repository URLs must point at.
pub open spec fn expected_host() -> Seq<char> {
    "api.github.com"@
}

/// Whether `host` is the expected API host.
pub fn is_expected_host(host: &Option<String>) -> (expected: bool)
    ensures
        expected == (host.deep_view() == Some(expected_host())),
{
    match host {
        Some(name) => str_equal(name.as_str(), "api.github.com"),
        None => false,
    }
}

/// Metadata key under which an instance finds its registration credential.
pub open spec fn credential_key() -> Seq<char> {
    "JIT_CONFIG"@
}

/// The metadata items an instance template carries; none when it has no
/// metadata.
pub open spec fn template_items(template: InstanceTemplateView) -> Seq<MetadataItemView> {
    match template.metadata_items {
        Some(items) => items,
        None => Seq::empty(),
    }
}

/// The metadata of a new instance: every item of the template, as it is and
/// in order, followed by the registration credential.
pub open spec fn merged_metadata(template: InstanceTemplateView, credential: Seq<char>) -> Seq<
    MetadataItemView,
> {
    template_items(template).push(
        MetadataItemView { key: Some(credential_key()), value: Some(credential) },
    )
}

/// Merges the registration credential into the metadata of the template.
/// The template's own items are neither dropped nor repeated nor changed.
pub fn merge_metadata(template: InstanceTemplate, credential: String) -> (merged: Vec<
    MetadataItem,
>)
    ensures
        merged.deep_view() == merged_metadata(template@, credential@),
        merged.len() == template_items(template@).len() + 1,
        merged.deep_view().take(merged.len() - 1) == template_items(template@),
{
    let mut merged: Vec<MetadataItem> = match template.metadata_items {
        Some(items) => items,
        None => Vec::new(),
    };
    assert(merged.deep_view() =~= template_items(template@));
    let ghost before = merged.deep_view();
    merged.push(
        MetadataItem { key: Some(String::from_str("JIT_CONFIG")), value: Some(credential) },
    );
    assert(merged.deep_view() =~= before.push(
        MetadataItemView { key: Some(credential_key()), value: Some(credential@) },
    ));
    assert(merged.deep_view().take(merged.len() - 1) =~= before);
    merged
}

/// Full reference of a regional instance template.
pub open spec fn template_reference(
    project_id: Seq<char>,
    region: Seq<char>,
    instance_template: Seq<char>,
) -> Seq<char> {
    "projects/"@ + project_id + "/regions/"@ + region + "/instanceTemplates/"@
        + instance_template
}

/// The request that fetches the metadata of the configured template.
pub open spec fn template_request_for(
    project_id: Seq<char>,
    region: Seq<char>,
    instance_template: Seq<char>,
) -> TemplateGetParamsView {
    TemplateGetParamsView {
        project: project_id,
        region,
        instance_template,
        fields: Some("properties.metadata"@),
    }
}

/// The request that creates the instance `instance_name` in `zone` from the
/// configured template, with `metadata_items` as its metadata.
pub open spec fn insert_request_for(
    project_id: Seq<char>,
    region: Seq<char>,
    instance_template: Seq<char>,
    zone: Seq<char>,
    instance_name: Seq<char>,
    metadata_items: Seq<MetadataItemView>,
) -> InsertParamsView {
    InsertParamsView {
        project: project_id,
        zone,
        source_instance_template: template_reference(project_id, region, instance_template),
        instance_name,
        metadata_items,
    }
}

/// One step of the create workflow.
///
/// * At the start the input is validated: the repository URL must point at
///   the expected API host and the region must be supported. No backend is
///   called for input that fails either test. Then the registration
///   credential, for the instance name as runner name and the job's labels,
///   and the template metadata are asked for together.
/// * Once both are there the zone is resolved, the credential is merged
///   into the template's metadata and the creation is asked for. A failed
///   fetch ends the workflow before that.
/// * The backend's answer to the creation request ends the workflow.
///
/// Nothing is retried and nothing is undone.
pub open spec fn create_step(
    project_id: Seq<char>,
    region: Seq<char>,
    github_token: Seq<char>,
    instance_template: Seq<char>,
    instance_name: Seq<char>,
    event: WorkflowJobWebhookView,
    host: Option<Seq<char>>,
    phase: Phase,
    reply: ReplyView,
) -> (Phase, ActionView) {
    match (phase, reply) {
        (Phase::Start, ReplyView::Begin) => {
            if host != Some(expected_host()) {
                finish(Err(WorkflowErrorView::InvalidRepositoryUrl))
            } else if region != supported_region() {
                finish(Err(WorkflowErrorView::UnsupportedRegion))
            } else {
                (
                    Phase::AwaitingDependencies,
                    ActionView::FetchDependencies {
                        jit_config: jit_config_request_for(
                            event.repository_url,
                            github_token,
                            instance_name,
                            job_labels(event.payload.workflow_job),
                        ),
                        template: template_request_for(project_id, region, instance_template),
                    },
                )
            }
        },
        (Phase::AwaitingDependencies, ReplyView::Dependencies(outcome)) => match outcome {
            DependencyReplyView::JitConfigFailed(_) => finish(
                Err(WorkflowErrorView::JitConfigFailed),
            ),
            DependencyReplyView::TemplateFailed(_) => finish(
                Err(WorkflowErrorView::TemplateGetFailed),
            ),
            DependencyReplyView::Ready { jit_config, template } => match zone_for(
                region,
                instance_name,
            ) {
                None => finish(Err(WorkflowErrorView::UnsupportedRegion)),
                Some(zone) => (
                    Phase::AwaitingInsert,
                    ActionView::InsertInstance(
                        insert_request_for(
                            project_id,
                            region,
                            instance_template,
                            zone,
                            instance_name,
                            merged_metadata(template, jit_config),
                        ),
                    ),
                ),
            },
        },
        (Phase::AwaitingInsert, ReplyView::Inserted(result)) => match result {
            Ok(_) => finish(Ok(Completion::Created)),
            Err(cause) => finish(Err(WorkflowErrorView::InsertFailed(cause))),
        },
        _ => finish(Err(WorkflowErrorView::UnexpectedReply)),
    }
}

fn template_reference_string(project_id: &str, region: &str, instance_template: &str) -> (reference:
    String)
    ensures
        reference@ == template_reference(project_id@, region@, instance_template@),
{
    let mut reference = String::from_str("projects/");
    reference.append(project_id);
    reference.append("/regions/");
    reference.append(region);
    reference.append("/instanceTemplates/");
    reference.append(instance_template);
    reference
}

fn done(result: Result<Completion, WorkflowError>) -> (step: (Phase, Action))
    ensures
        (step.0, step.1@) == finish(crate::workflow::outcome_view(result)),
{
    (Phase::Finished, Action::Finish(result))
}

/// Advances the create workflow by one step, given the host that the
/// repository URL names. See [`create_step`].
pub fn create_instance_for_host(
    project_id: &str,
    region: &str,
    github_token: &str,
    instance_template: &str,
    instance_name: &str,
    event: &WorkflowJobWebhook,
    host: &Option<String>,
    phase: Phase,
    reply: Reply,
) -> (step: (Phase, Action))
    ensures
        (step.0, step.1@) == create_step(
            project_id@,
            region@,
            github_token@,
            instance_template@,
            instance_name@,
            event@,
            host.deep_view(),
            phase,
            reply@,
        ),
{
    match (phase, reply) {
        (Phase::Start, Reply::Begin) => {
            if !is_expected_host(host) {
                return done(Err(WorkflowError::InvalidRepositoryUrl));
            }
            if !is_supported_region(region) {
                return done(Err(WorkflowError::UnsupportedRegion));
            }
            let labels = extract_labels(&event.payload.workflow_job);
            let jit_config = jit_config_request(
                event.repository.url.as_str(),
                github_token,
                instance_name,
                &labels,
            );
            let template = TemplateGetParams {
                project: String::from_str(project_id),
                region: String::from_str(region),
                instance_template: String::from_str(instance_template),
                fields: Some(String::from_str("properties.metadata")),
            };
            (Phase::AwaitingDependencies, Action::FetchDependencies { jit_config, template })
        },
        (Phase::AwaitingDependencies, Reply::Dependencies(outcome)) => match outcome {
            DependencyReply::JitConfigFailed(_) => done(Err(WorkflowError::JitConfigFailed)),
            DependencyReply::TemplateFailed(_) => done(Err(WorkflowError::TemplateGetFailed)),
            DependencyReply::Ready { jit_config, template } => {
                match select_zone_for_region(region, instance_name) {
                    Err(error) => done(Err(error)),
                    Ok(zone) => {
                        let metadata_items = merge_metadata(template, jit_config);
                        let params = InsertParams {
                            project: String::from_str(project_id),
                            zone,
                            source_instance_template: template_reference_string(
                                project_id,
                                region,
                                instance_template,
                            ),
                            instance_name: String::from_str(instance_name),
                            metadata_items,
                        };
                        (Phase::AwaitingInsert, Action::InsertInstance(params))
                    },
                }
            },
        },
        (Phase::AwaitingInsert, Reply::Inserted(result)) => match result {
            Ok(_) => done(Ok(Completion::Created)),
            Err(cause) => done(Err(WorkflowError::InsertFailed(cause))),
        },
        _ => done(Err(WorkflowError::UnexpectedReply)),
    }
}

/// Advances the create workflow by one step. The host of the repository URL
/// is read from the URL itself; everything else is as in
/// [`create_instance_for_host`].
pub fn create_instance(
    project_id: &str,
    region: &str,
    github_token: &str,
    instance_template: &str,
    instance_name: &str,
    event: &WorkflowJobWebhook,
    phase: Phase,
    reply: Reply,
) -> (step: (Phase, Action))
    ensures
        (step.0, step.1@) == create_step(
            project_id@,
            region@,
            github_token@,
            instance_template@,
            instance_name@,
            event@,
            url_host(event@.repository_url),
            phase,
            reply@,
        ),
{
    let host = repository_host_at(event, phase);
    create_instance_for_host(
        project_id,
        region,
        github_token,
        instance_template,
        instance_name,
        event,
        &host,
        phase,
        reply,
    )
}

/// The request that deletes the instance `instance_name` from `zone`.
pub open spec fn delete_request_for(
    project_id: Seq<char>,
    zone: Seq<char>,
    instance_name: Seq<char>,
) -> DeleteParamsView {
    DeleteParamsView { project: project_id, zone, instance: instance_name }
}

/// One step of the delete workflow.
///
/// * At the start the zone is resolved from the instance name, exactly as
///   it was when the instance was created, and the deletion is asked for.
///   An unsupported region ends the workflow before that.
/// * The backend's answer ends the workflow. An instance that is not there
///   counts as deleted; any other failure is reported.
///
/// Nothing is retried and nothing is ever created.
pub open spec fn delete_step(
    project_id: Seq<char>,
    region: Seq<char>,
    instance_name: Seq<char>,
    phase: Phase,
    reply: ReplyView,
) -> (Phase, ActionView) {
    match (phase, reply) {
        (Phase::Start, ReplyView::Begin) => match zone_for(region, instance_name) {
            None => finish(Err(WorkflowErrorView::UnsupportedRegion)),
            Some(zone) => (
                Phase::AwaitingDelete,
                ActionView::DeleteInstance(delete_request_for(project_id, zone, instance_name)),
            ),
        },
        (Phase::AwaitingDelete, ReplyView::Deleted(result)) => match result {
            Ok(_) => finish(Ok(Completion::Deleted)),
            Err(crate::compute::ComputeErrorView::NotFound) => finish(
                Ok(Completion::AlreadyDeleted),
            ),
            Err(cause) => finish(Err(WorkflowErrorView::DeleteFailed(cause))),
        },
        _ => finish(Err(WorkflowErrorView::UnexpectedReply)),
    }
}

/// Advances the delete workflow by one step. See [`delete_step`].
pub fn delete_instance(
    project_id: &str,
    region: &str,
    instance_name: &str,
    phase: Phase,
    reply: Reply,
) -> (step: (Phase, Action))
    ensures
        (step.0, step.1@) == delete_step(project_id@, region@, instance_name@, phase, reply@),
{
    match (phase, reply) {
        (Phase::Start, Reply::Begin) => match select_zone_for_region(region, instance_name) {
            Err(error) => done(Err(error)),
            Ok(zone) => {
                let params = DeleteParams {
                    project: String::from_str(project_id),
                    zone,
                    instance: String::from_str(instance_name),
                };
                (Phase::AwaitingDelete, Action::DeleteInstance(params))
            },
        },
        (Phase::AwaitingDelete, Reply::Deleted(result)) => match result {
            Ok(_) => done(Ok(Completion::Deleted)),
            Err(cause) => {
                if cause.is_not_found() {
                    done(Ok(Completion::AlreadyDeleted))
                } else {
                    done(Err(WorkflowError::DeleteFailed(cause)))
                }
            },
        },
        _ => done(Err(WorkflowError::UnexpectedReply)),
    }
}

} // verus!
