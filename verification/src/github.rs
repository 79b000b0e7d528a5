//! The authorization backend as the orchestrator sees it: the request for a
//! runner registration credential and the reading of its reply.

use vstd::prelude::*;
use vstd::string::StringExecFns;

verus! {

/// Runner group that new runners are registered in.
pub const RUNNER_GROUP_ID: u64 = 1;

/// Why a GitHub call failed.
#[derive(Debug, PartialEq, Eq)]
pub enum GithubError {
    Other(String),
}

/// Mathematical image of a [`GithubError`].
pub enum GithubErrorView {
    Other(Seq<char>),
}

impl View for GithubError {
    type V = GithubErrorView;

    open spec fn view(&self) -> GithubErrorView {
        match self {
            GithubError::Other(message) => GithubErrorView::Other(message@),
        }
    }
}

/// A request for a just-in-time runner configuration: where to post it, the
/// bearer token that authorises it, and what the body carries.
#[derive(Debug, PartialEq, Eq)]
pub struct JitConfigRequest {
    pub url: String,
    pub token: String,
    pub name: String,
    pub labels: Vec<String>,
    pub runner_group_id: u64,
}

/// Mathematical image of a [`JitConfigRequest`].
pub struct JitConfigRequestView {
    pub url: Seq<char>,
    pub token: Seq<char>,
    pub name: Seq<char>,
    pub labels: Seq<Seq<char>>,
    pub runner_group_id: u64,
}

impl View for JitConfigRequest {
    type V = JitConfigRequestView;

    open spec fn view(&self) -> JitConfigRequestView {
        JitConfigRequestView {
            url: self.url@,
            token: self.token@,
            name: self.name@,
            labels: self.labels.deep_view(),
            runner_group_id: self.runner_group_id,
        }
    }
}

/// The endpoint that issues just-in-time runner configurations for the
/// repository at `repo_url`.
pub open spec fn jit_config_endpoint(repo_url: Seq<char>) -> Seq<char> {
    repo_url + "/actions/runners/generate-jitconfig"@
}

/// The credential request for one runner of one repository.
pub open spec fn jit_config_request_for(
    repo_url: Seq<char>,
    github_token: Seq<char>,
    runner_name: Seq<char>,
    labels: Seq<Seq<char>>,
) -> JitConfigRequestView {
    JitConfigRequestView {
        url: jit_config_endpoint(repo_url),
        token: github_token,
        name: runner_name,
        labels,
        runner_group_id: RUNNER_GROUP_ID,
    }
}

/// A copy of `labels`, entry by entry.
pub fn copy_labels(labels: &Vec<String>) -> (copy: Vec<String>)
    ensures
        copy.deep_view() == labels.deep_view(),
{
    let mut copy: Vec<String> = Vec::new();
    let mut i: usize = 0;
    while i < labels.len()
        invariant
            i <= labels.len(),
            copy.len() == i,
            forall|k: int| 0 <= k < i ==> copy[k]@ == labels[k]@,
        decreases labels.len() - i,
    {
        copy.push(labels[i].clone());
        i = i + 1;
    }
    assert(copy.deep_view() =~= labels.deep_view());
    copy
}

/// Builds the request for a registration credential that lets the runner
/// `runner_name` register with the repository at `repo_url` under `labels`.
pub fn jit_config_request(
    repo_url: &str,
    github_token: &str,
    runner_name: &str,
    labels: &Vec<String>,
) -> (request: JitConfigRequest)
    ensures
        request@ == jit_config_request_for(
            repo_url@,
            github_token@,
            runner_name@,
            labels.deep_view(),
        ),
{
    let url = String::from_str(repo_url).concat("/actions/runners/generate-jitconfig");
    JitConfigRequest {
        url,
        token: String::from_str(github_token),
        name: String::from_str(runner_name),
        labels: copy_labels(labels),
        runner_group_id: RUNNER_GROUP_ID,
    }
}

/// What came back from the credential endpoint.
#[derive(Debug, PartialEq, Eq)]
pub enum JitConfigResponse {
    /// The exchange failed: the request could not be sent, the status was
    /// not a success, or the body was not JSON. Carries the reason.
    Failed(String),
    /// A JSON body arrived; `encoded_jit_config` is the string under that
    /// key, if the body has one.
    Decoded { encoded_jit_config: Option<String> },
}

/// Mathematical image of a [`JitConfigResponse`].
pub enum JitConfigResponseView {
    Failed(Seq<char>),
    Decoded { encoded_jit_config: Option<Seq<char>> },
}

impl View for JitConfigResponse {
    type V = JitConfigResponseView;

    open spec fn view(&self) -> JitConfigResponseView {
        match self {
            JitConfigResponse::Failed(reason) => JitConfigResponseView::Failed(reason@),
            JitConfigResponse::Decoded { encoded_jit_config } => JitConfigResponseView::Decoded {
                encoded_jit_config: encoded_jit_config.deep_view(),
            },
        }
    }
}

/// Reason reported when a reply carries no credential.
pub open spec fn missing_credential_reason() -> Seq<char> {
    "encoded_jit_config missing"@
}

/// The credential a reply yields, or why it yields none.
pub open spec fn credential_of(response: JitConfigResponseView) -> Result<Seq<char>, GithubErrorView> {
    match response {
        JitConfigResponseView::Failed(reason) => Err(GithubErrorView::Other(reason)),
        JitConfigResponseView::Decoded { encoded_jit_config: Some(credential) } => Ok(credential),
        JitConfigResponseView::Decoded { encoded_jit_config: None } => Err(
            GithubErrorView::Other(missing_credential_reason()),
        ),
    }
}

/// Reads the registration credential out of the endpoint's reply. A failed
/// exchange keeps its reason; a body without the credential is an error of
/// its own.
pub fn jit_config_from_response(response: JitConfigResponse) -> (credential: Result<
    String,
    GithubError,
>)
    ensures
        match credential {
            Ok(value) => credential_of(response@) == Ok::<Seq<char>, GithubErrorView>(value@),
            Err(error) => credential_of(response@) == Err::<Seq<char>, GithubErrorView>(error@),
        },
{
    match response {
        JitConfigResponse::Failed(reason) => Err(GithubError::Other(reason)),
        JitConfigResponse::Decoded { encoded_jit_config: Some(value) } => Ok(value),
        JitConfigResponse::Decoded { encoded_jit_config: None } => Err(
            GithubError::Other(String::from_str("encoded_jit_config missing")),
        ),
    }
}

} // verus!
