use crate::error::{Error, ErrorView};
use crate::services::dispatcher::CreateResponseView;
use crate::services::engine::{
    aggregate, lemma_every_document_is_counted, next_submission, plan_documents, plan_fits,
    step_fits, submissions, ApplyEngine, StepView,
};
use crate::services::renderer::{refusal, render, render_ensures, rendering};
use crate::services::splitter::{count_non_empty, split, yaml_stream};
use crate::services::templates::{template_file_name, template_name, TemplateDirectory};
use crate::text::{decimal, decimal_text, text_of};
use vstd::prelude::*;
use vstd::string::StringExecFns;
use vstd::utf8::{decode_utf8, valid_utf8};

verus! {

/// The complaint about a template body that is not valid UTF-8.
pub open spec fn not_text() -> Seq<char> {
    "Template is not valid UTF-8"@
}

/// Whether `outcome` is what looking up and rendering the template of a
/// service may give.
///
/// A service without a template fails with `TemplateNotFound`, a template
/// body that is not valid UTF-8 with a general error. Any other template is
/// rendered, as [`render_ensures`] says.
pub open spec fn manifests_ensures(
    templates: Map<Seq<char>, Seq<u8>>,
    service_name: Seq<char>,
    data: serde_json::Value,
    outcome: Result<String, Error>,
) -> bool {
    let file = template_file_name(service_name);
    if !templates.contains_key(file) {
        outcome matches Err(e) && e@ == ErrorView::TemplateNotFound
    } else if !valid_utf8(templates[file]) {
        outcome matches Err(e) && e@ == ErrorView::General(not_text())
    } else {
        render_ensures(service_name, decode_utf8(templates[file]), data, outcome)
    }
}

/// Looks up the template of `service_name` and expands it against the JSON
/// document `data`.
///
/// Fails with [`Error::TemplateNotFound`] where no template is stored for the
/// service, with [`Error::General`] where its body is not valid UTF-8, and
/// with [`Error::RenderError`] where it is refused or cannot be expanded.
pub fn render_manifests(
    templates: &TemplateDirectory,
    service_name: &str,
    data: &serde_json::Value,
) -> (outcome: Result<String, Error>)
    ensures
        manifests_ensures(templates@, service_name@, *data, outcome),
{
    let file = template_name(service_name);
    let body = match templates.get(file.as_str()) {
        Some(body) => body,
        None => {
            return Err(Error::TemplateNotFound);
        },
    };
    let template = match text_of(body.as_slice()) {
        Some(template) => template,
        None => {
            return Err(Error::General(String::from_str("Template is not valid UTF-8")));
        },
    };
    render(service_name, template, data)
}

/// Whether `outcome` is what planning the rendered text `rendered` gives:
/// [`Error::ParseError`] with the complaint where the text holds a malformed
/// document, otherwise an engine at the start of a plan for the documents of
/// the text, with nothing answered.
pub open spec fn prepared(rendered: Seq<char>, outcome: Result<ApplyEngine, Error>) -> bool {
    match yaml_stream(rendered).fault {
        Some(complaint) => outcome matches Err(e) && e@ == ErrorView::ParseError(complaint),
        None => {
            &&& outcome matches Ok(engine)
            &&& plan_fits(yaml_stream(rendered).documents, engine.steps())
            &&& engine.answered() == Seq::<CreateResponseView>::empty()
            &&& engine.position() == next_submission(engine.steps(), 0)
            &&& engine.on_track()
        },
    }
}

/// Splits a rendered text into documents and plans a step for each.
///
/// One malformed document fails the whole text before anything is
/// submitted.
pub fn plan_rendered(rendered: &str) -> (outcome: Result<ApplyEngine, Error>)
    ensures
        prepared(rendered@, outcome),
{
    let documents = match split(rendered) {
        Ok(documents) => documents,
        Err(e) => {
            return Err(e);
        },
    };
    let steps = plan_documents(&documents);
    Ok(ApplyEngine::new(steps))
}

/// Whether `outcome` is what preparing a request may give.
///
/// The lookup and the refusals of the render stage fail as
/// [`manifests_ensures`] says. A template that is handed to the template
/// engine either fails there, with a render error, or gives its rendering,
/// which is then planned as [`prepared`] says.
pub open spec fn request_ensures(
    templates: Map<Seq<char>, Seq<u8>>,
    service_name: Seq<char>,
    data: serde_json::Value,
    outcome: Result<ApplyEngine, Error>,
) -> bool {
    let file = template_file_name(service_name);
    if !templates.contains_key(file) {
        outcome matches Err(e) && e@ == ErrorView::TemplateNotFound
    } else if !valid_utf8(templates[file]) {
        outcome matches Err(e) && e@ == ErrorView::General(not_text())
    } else {
        let template = decode_utf8(templates[file]);
        match refusal(template) {
            Some(complaint) => outcome matches Err(e) && e@ == ErrorView::RenderError(complaint),
            None => {
                ||| outcome matches Err(e) && e@ is RenderError
                ||| prepared(rendering(service_name, template, data), outcome)
            },
        }
    }
}

/// Prepares the request to stand up the service `service_name` from its
/// template and the JSON document `data`: looks the template up, renders it,
/// splits the rendered text into documents and plans a step for each.
///
/// Any failure up to here ends the request before anything is submitted:
/// the errors of [`render_manifests`], and [`Error::ParseError`] where the
/// rendered text holds a malformed document. Otherwise the engine that comes
/// back stands at the start of a plan for the documents of the text, with
/// nothing answered.
pub fn create_deployment(
    templates: &TemplateDirectory,
    service_name: &str,
    data: &serde_json::Value,
) -> (outcome: Result<ApplyEngine, Error>)
    ensures
        request_ensures(templates@, service_name@, *data, outcome),
{
    let rendered = match render_manifests(templates, service_name, data) {
        Ok(rendered) => rendered,
        Err(e) => {
            return Err(e);
        },
    };
    plan_rendered(rendered.as_str())
}

/// Preparing a request is deterministic: two requests for the same service
/// with the same templates and the same data that both come to a plan come
/// to the same plan, manifest bodies included.
pub proof fn lemma_requests_agree(
    templates: Map<Seq<char>, Seq<u8>>,
    service_name: Seq<char>,
    data: serde_json::Value,
    first: Result<ApplyEngine, Error>,
    second: Result<ApplyEngine, Error>,
)
    requires
        request_ensures(templates, service_name, data, first),
        request_ensures(templates, service_name, data, second),
        first is Ok,
        second is Ok,
    ensures
        first->Ok_0.steps() == second->Ok_0.steps(),
{
    let file = template_file_name(service_name);
    let text = rendering(service_name, decode_utf8(templates[file]), data);
    let documents = yaml_stream(text).documents;
    let one = first->Ok_0.steps();
    let other = second->Ok_0.steps();
    assert(plan_fits(documents, one));
    assert(plan_fits(documents, other));
    assert forall|i: int| 0 <= i < one.len() implies one[i] == other[i] by {
        assert(step_fits(documents[i], one[i]));
        assert(step_fits(documents[i], other[i]));
    }
    assert(one =~= other);
}

/// For every rendered text that splits without a fault, a plan for its
/// documents whose submissions all got their response records as many
/// entries, successes and failures together, as the text has documents that
/// are not empty.
pub proof fn lemma_every_document_of_a_text_is_counted(
    text: Seq<char>,
    steps: Seq<StepView>,
    responses: Seq<CreateResponseView>,
)
    requires
        yaml_stream(text).fault is None,
        plan_fits(yaml_stream(text).documents, steps),
        submissions(steps) <= responses.len(),
    ensures
        aggregate(steps, responses).success.len() + aggregate(steps, responses).failure.len()
            == count_non_empty(yaml_stream(text).documents),
{
    lemma_every_document_is_counted(yaml_stream(text).documents, steps, responses);
}

/// The replica counts in the status of a deployment, as the control plane
/// reports them.
pub struct ReplicaStatus {
    pub available_replicas: Option<i32>,
    pub replicas: Option<i32>,
}

/// A count that the control plane left out stands for none.
pub open spec fn count_or_zero(count: Option<i32>) -> int {
    match count {
        Some(count) => count as int,
        None => 0,
    }
}

/// The report on a deployment called `name` with the replica counts
/// `status`.
pub open spec fn status_report(name: Seq<char>, status: ReplicaStatus) -> Seq<char> {
    "Deployment "@ + name + " has "@ + decimal_text(count_or_zero(status.available_replicas))
        + " available out of "@ + decimal_text(count_or_zero(status.replicas)) + " replicas"@
}

/// Reports how many replicas of the deployment `name` are available.
///
/// A deployment for which the control plane holds no status yet is
/// [`Error::ResourceNotFound`].
pub fn deployment_status(
    name: &str,
    status: Option<ReplicaStatus>,
) -> (report: Result<String, Error>)
    ensures
        match status {
            Some(status) => report matches Ok(text) && text@ == status_report(name@, status),
            None => report matches Err(e) && e@ == ErrorView::ResourceNotFound,
        },
{
    let status = match status {
        Some(status) => status,
        None => {
            return Err(Error::ResourceNotFound);
        },
    };
    let available = match status.available_replicas {
        Some(count) => count,
        None => 0,
    };
    let replicas = match status.replicas {
        Some(count) => count,
        None => 0,
    };
    let text = String::from_str("Deployment ").concat(name).concat(" has ").concat(
        decimal(available).as_str(),
    ).concat(" available out of ").concat(decimal(replicas).as_str()).concat(" replicas");
    Ok(text)
}

} // verus!
