//! The compute backend as the orchestrator sees it: the requests it issues
//! and the replies it understands, all as plain values.

use vstd::prelude::*;
use vstd::string::StringExecFns;

verus! {

/// HTTP status with which the compute backend reports a missing resource.
pub const STATUS_NOT_FOUND: u16 = 404;

/// Why a compute backend call failed.
#[derive(Debug, PartialEq, Eq)]
pub enum ComputeError {
    /// The resource does not exist.
    NotFound,
    /// Any other failure, with the backend's message.
    Other(String),
}

/// Mathematical image of a [`ComputeError`].
pub enum ComputeErrorView {
    NotFound,
    Other(Seq<char>),
}

impl View for ComputeError {
    type V = ComputeErrorView;

    open spec fn view(&self) -> ComputeErrorView {
        match self {
            ComputeError::NotFound => ComputeErrorView::NotFound,
            ComputeError::Other(message) => ComputeErrorView::Other(message@),
        }
    }
}

/// What `{:?}` prints for a string: the string in double quotes, with the
/// characters that need it escaped.
pub uninterp spec fn debug_quoted(s: Seq<char>) -> Seq<char>;

/// Formats `s` with `{:?}`, that is with the standard library's `Debug` for
/// `str`. Trusted: the result is only named, as a function of the string's
/// characters.
#[verifier::external_body]
fn debug_quote(s: &str) -> (quoted: String)
    ensures
        quoted@ == debug_quoted(s@),
{
    format!("{:?}", s)
}

/// The text that `{:?}` prints for an `Other` error whose message it prints
/// as `quoted`.
pub open spec fn other_text(quoted: Seq<char>) -> Seq<char> {
    "Other("@ + quoted + ")"@
}

/// The text that `{:?}` prints for a compute error: the variant's name,
/// followed for `Other` by the quoted message in parentheses.
pub open spec fn debug_text_of(error: ComputeErrorView) -> Seq<char> {
    match error {
        ComputeErrorView::NotFound => "NotFound"@,
        ComputeErrorView::Other(message) => other_text(debug_quoted(message)),
    }
}

/// Puts an already quoted message into the parentheses of `Other(..)`.
pub fn other_debug_text(quoted: &str) -> (text: String)
    ensures
        text@ == other_text(quoted@),
{
    let mut text = String::from_str("Other(");
    text.append(quoted);
    text.append(")");
    text
}

/// How a failed delete call is classified: a response with status 404 means
/// the instance is not there; every other failure keeps its message.
pub open spec fn delete_failure(status: Option<u16>, message: Seq<char>) -> ComputeErrorView {
    if status == Some(STATUS_NOT_FOUND) {
        ComputeErrorView::NotFound
    } else {
        ComputeErrorView::Other(message)
    }
}

impl ComputeError {
    /// Classifies a failed delete call. `status` is the HTTP status of the
    /// backend's response, or `None` when the call failed without one.
    pub fn from_delete_failure(status: Option<u16>, message: String) -> (error: ComputeError)
        ensures
            error@ == delete_failure(status, message@),
    {
        match status {
            Some(code) => {
                if code == STATUS_NOT_FOUND {
                    ComputeError::NotFound
                } else {
                    ComputeError::Other(message)
                }
            },
            None => ComputeError::Other(message),
        }
    }

    /// The text that `{:?}` prints for this error.
    pub fn debug_text(&self) -> (text: String)
        ensures
            text@ == debug_text_of(self@),
    {
        match self {
            ComputeError::NotFound => String::from_str("NotFound"),
            ComputeError::Other(message) => {
                let quoted = debug_quote(message.as_str());
                other_debug_text(quoted.as_str())
            },
        }
    }

    /// Whether this error says that the resource does not exist.
    pub fn is_not_found(&self) -> (missing: bool)
        ensures
            missing == (self@ is NotFound),
    {
        match self {
            ComputeError::NotFound => true,
            ComputeError::Other(_) => false,
        }
    }
}

/// One key/value entry of an instance's metadata.
#[derive(Debug, PartialEq, Eq)]
pub struct MetadataItem {
    pub key: Option<String>,
    pub value: Option<String>,
}

/// Mathematical image of a [`MetadataItem`].
pub struct MetadataItemView {
    pub key: Option<Seq<char>>,
    pub value: Option<Seq<char>>,
}

impl View for MetadataItem {
    type V = MetadataItemView;

    open spec fn view(&self) -> MetadataItemView {
        MetadataItemView { key: self.key.deep_view(), value: self.value.deep_view() }
    }
}

impl DeepView for MetadataItem {
    type V = MetadataItemView;

    open spec fn deep_view(&self) -> MetadataItemView {
        self@
    }
}

/// What the orchestrator reads of an instance template: the metadata items
/// it carries, if it carries any.
#[derive(Debug, PartialEq, Eq)]
pub struct InstanceTemplate {
    pub metadata_items: Option<Vec<MetadataItem>>,
}

/// Mathematical image of an [`InstanceTemplate`].
pub struct InstanceTemplateView {
    pub metadata_items: Option<Seq<MetadataItemView>>,
}

impl View for InstanceTemplate {
    type V = InstanceTemplateView;

    open spec fn view(&self) -> InstanceTemplateView {
        InstanceTemplateView { metadata_items: self.metadata_items.deep_view() }
    }
}

/// A request for a regional instance template.
#[derive(Debug, PartialEq, Eq)]
pub struct TemplateGetParams {
    pub project: String,
    pub region: String,
    pub instance_template: String,
    /// Field mask that limits what the backend returns.
    pub fields: Option<String>,
}

/// Mathematical image of a [`TemplateGetParams`].
pub struct TemplateGetParamsView {
    pub project: Seq<char>,
    pub region: Seq<char>,
    pub instance_template: Seq<char>,
    pub fields: Option<Seq<char>>,
}

impl View for TemplateGetParams {
    type V = TemplateGetParamsView;

    open spec fn view(&self) -> TemplateGetParamsView {
        TemplateGetParamsView {
            project: self.project@,
            region: self.region@,
            instance_template: self.instance_template@,
            fields: self.fields.deep_view(),
        }
    }
}

/// A request to create an instance from a template.
#[derive(Debug, PartialEq, Eq)]
pub struct InsertParams {
    pub project: String,
    pub zone: String,
    /// Full reference of the template the instance is created from.
    pub source_instance_template: String,
    pub instance_name: String,
    /// The complete metadata of the new instance.
    pub metadata_items: Vec<MetadataItem>,
}

/// Mathematical image of an [`InsertParams`].
pub struct InsertParamsView {
    pub project: Seq<char>,
    pub zone: Seq<char>,
    pub source_instance_template: Seq<char>,
    pub instance_name: Seq<char>,
    pub metadata_items: Seq<MetadataItemView>,
}

impl View for InsertParams {
    type V = InsertParamsView;

    open spec fn view(&self) -> InsertParamsView {
        InsertParamsView {
            project: self.project@,
            zone: self.zone@,
            source_instance_template: self.source_instance_template@,
            instance_name: self.instance_name@,
            metadata_items: self.metadata_items.deep_view(),
        }
    }
}

/// A request to delete an instance.
#[derive(Debug, PartialEq, Eq)]
pub struct DeleteParams {
    pub project: String,
    pub zone: String,
    pub instance: String,
}

/// Mathematical image of a [`DeleteParams`].
pub struct DeleteParamsView {
    pub project: Seq<char>,
    pub zone: Seq<char>,
    pub instance: Seq<char>,
}

impl View for DeleteParams {
    type V = DeleteParamsView;

    open spec fn view(&self) -> DeleteParamsView {
        DeleteParamsView { project: self.project@, zone: self.zone@, instance: self.instance@ }
    }
}

} // verus!
