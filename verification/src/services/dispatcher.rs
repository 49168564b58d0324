use crate::error::{Error, ErrorView};
pub use crate::services::kinds::{ManifestBody, ResourceKind};
use crate::services::splitter::{
    config_map_body, config_map_reading, deployment_body, deployment_reading, secret_body,
    secret_reading, service_body, service_reading, Document, DocumentView,
};
use crate::text::name_view;
use vstd::prelude::*;
use vstd::string::StringExecFns;

verus! {

/// What the dispatcher reads of a manifest.
pub struct ManifestView {
    pub kind: ResourceKind,
    /// The name under the manifest's metadata, if it has one.
    pub name: Option<Seq<char>>,
    /// The typed body that is handed to the control plane.
    pub body: ManifestBody,
}

/// A document that was read in the schema of its kind and is ready to be
/// submitted to the control plane.
pub struct Manifest {
    name: Option<String>,
    body: ManifestBody,
}

impl View for Manifest {
    type V = ManifestView;

    closed spec fn view(&self) -> ManifestView {
        ManifestView { kind: self.body.kind(), name: name_view(self.name), body: self.body }
    }
}

impl Manifest {
    /// The kind of resource that the manifest describes.
    pub fn kind(&self) -> (kind: ResourceKind)
        ensures
            kind == self@.kind,
    {
        match &self.body {
            ManifestBody::Deployment(_) => ResourceKind::Deployment,
            ManifestBody::Service(_) => ResourceKind::Service,
            ManifestBody::ConfigMap(_) => ResourceKind::ConfigMap,
            ManifestBody::Secret(_) => ResourceKind::Secret,
        }
    }

    /// The name under the manifest's metadata.
    pub fn name(&self) -> (name: Option<&String>)
        ensures
            match name {
                Some(name) => self@.name == Some(name@),
                None => self@.name is None,
            },
    {
        self.name.as_ref()
    }

    /// The typed body to hand to the control plane.
    pub fn body(&self) -> (body: &ManifestBody)
        ensures
            *body == self@.body,
            body.kind() == self@.kind,
    {
        &self.body
    }
}

/// Calls `serde_yaml::from_value` at `Deployment` on a copy of the value, and
/// copies `metadata.name` out of what it returns. A value that does not fit
/// the schema comes back as the text of the `serde_yaml::Error`. Either way
/// the result depends on the value alone: the name, the body and the
/// complaint are what reading this value gives.
#[verifier::external_body]
fn read_deployment(
    value: &serde_yaml::Value,
) -> (read: Result<(Option<String>, k8s_openapi::api::apps::v1::Deployment), String>)
    ensures
        match read {
            Ok((name, body)) => deployment_reading(*value) == Ok::<Option<Seq<char>>, Seq<char>>(
                name_view(name),
            ) && body == deployment_body(*value),
            Err(complaint) => deployment_reading(*value) == Err::<Option<Seq<char>>, Seq<char>>(complaint@),
        },
{
    match serde_yaml::from_value::<k8s_openapi::api::apps::v1::Deployment>(value.clone()) {
        Ok(body) => Ok((body.metadata.name.clone(), body)),
        Err(e) => Err(e.to_string()),
    }
}

/// Calls `serde_yaml::from_value` at `Service` on a copy of the value, and
/// copies `metadata.name` out of what it returns. A value that does not fit
/// the schema comes back as the text of the `serde_yaml::Error`. Either way
/// the result depends on the value alone: the name, the body and the
/// complaint are what reading this value gives.
#[verifier::external_body]
fn read_service(
    value: &serde_yaml::Value,
) -> (read: Result<(Option<String>, k8s_openapi::api::core::v1::Service), String>)
    ensures
        match read {
            Ok((name, body)) => service_reading(*value) == Ok::<Option<Seq<char>>, Seq<char>>(
                name_view(name),
            ) && body == service_body(*value),
            Err(complaint) => service_reading(*value) == Err::<Option<Seq<char>>, Seq<char>>(complaint@),
        },
{
    match serde_yaml::from_value::<k8s_openapi::api::core::v1::Service>(value.clone()) {
        Ok(body) => Ok((body.metadata.name.clone(), body)),
        Err(e) => Err(e.to_string()),
    }
}

/// Calls `serde_yaml::from_value` at `ConfigMap` on a copy of the value, and
/// copies `metadata.name` out of what it returns. A value that does not fit
/// the schema comes back as the text of the `serde_yaml::Error`. Either way
/// the result depends on the value alone: the name, the body and the
/// complaint are what reading this value gives.
#[verifier::external_body]
fn read_config_map(
    value: &serde_yaml::Value,
) -> (read: Result<(Option<String>, k8s_openapi::api::core::v1::ConfigMap), String>)
    ensures
        match read {
            Ok((name, body)) => config_map_reading(*value) == Ok::<Option<Seq<char>>, Seq<char>>(
                name_view(name),
            ) && body == config_map_body(*value),
            Err(complaint) => config_map_reading(*value) == Err::<Option<Seq<char>>, Seq<char>>(complaint@),
        },
{
    match serde_yaml::from_value::<k8s_openapi::api::core::v1::ConfigMap>(value.clone()) {
        Ok(body) => Ok((body.metadata.name.clone(), body)),
        Err(e) => Err(e.to_string()),
    }
}

/// Calls `serde_yaml::from_value` at `Secret` on a copy of the value, and
/// copies `metadata.name` out of what it returns. A value that does not fit
/// the schema comes back as the text of the `serde_yaml::Error`. Either way
/// the result depends on the value alone: the name, the body and the
/// complaint are what reading this value gives.
#[verifier::external_body]
fn read_secret(
    value: &serde_yaml::Value,
) -> (read: Result<(Option<String>, k8s_openapi::api::core::v1::Secret), String>)
    ensures
        match read {
            Ok((name, body)) => secret_reading(*value) == Ok::<Option<Seq<char>>, Seq<char>>(
                name_view(name),
            ) && body == secret_body(*value),
            Err(complaint) => secret_reading(*value) == Err::<Option<Seq<char>>, Seq<char>>(complaint@),
        },
{
    match serde_yaml::from_value::<k8s_openapi::api::core::v1::Secret>(value.clone()) {
        Ok(body) => Ok((body.metadata.name.clone(), body)),
        Err(e) => Err(e.to_string()),
    }
}

/// The failure recorded for a document without a `kind`.
pub open spec fn missing_kind() -> ErrorView {
    ErrorView::General("Missing 'kind' field"@)
}

/// Turns what the reader of a kind's schema gave into the plan for the
/// document: the manifest with the name and the body that were read, or a
/// general error with the reader's complaint. The name and the body are
/// taken as the reader gave them.
pub fn typed_outcome(
    read: Result<(Option<String>, ManifestBody), String>,
) -> (plan: Result<Manifest, Error>)
    ensures
        match read {
            Ok((name, body)) => plan matches Ok(manifest) && manifest@ == (ManifestView {
                kind: body.kind(),
                name: name_view(name),
                body,
            }),
            Err(complaint) => plan matches Err(e) && e@ == ErrorView::General(complaint@),
        },
{
    match read {
        Ok((name, body)) => Ok(Manifest { name, body }),
        Err(complaint) => Err(Error::General(complaint)),
    }
}

/// What is to be done with a document that is not empty: the manifest to
/// submit, or the error to record.
///
/// A document without a `kind` and one whose kind the dispatcher does not
/// create are refused, each with its own error. A document of a known kind
/// becomes a manifest of that kind, with the name and the body that reading
/// it in the kind's schema gives, or, where it does not fit the schema, a
/// general error with the reader's complaint.
pub open spec fn planned(document: DocumentView) -> Result<ManifestView, ErrorView> {
    match document.kind {
        None => Err(missing_kind()),
        Some(kind) => match ResourceKind::recognized(kind) {
            None => Err(ErrorView::UnsupportedKind(kind)),
            Some(known) => match document.readings.of(known) {
                Ok(name) => Ok(ManifestView { kind: known, name, body: document.bodies.of(known) }),
                Err(complaint) => Err(ErrorView::General(complaint)),
            },
        },
    }
}

/// The mathematical value of a plan for one document.
pub open spec fn plan_view(plan: Result<Manifest, Error>) -> Result<ManifestView, ErrorView> {
    match plan {
        Ok(manifest) => Ok(manifest@),
        Err(e) => Err(e@),
    }
}

/// Decides what is to be done with a document that is not empty, as
/// [`planned`] says. A document of a known kind is read in that kind's
/// schema, and [`typed_outcome`] makes the plan of what the reader gave.
pub fn process_resource(document: &Document) -> (plan: Result<Manifest, Error>)
    ensures
        plan_view(plan) == planned(document@),
{
    let kind = match document.kind() {
        None => {
            return Err(Error::General(String::from_str("Missing 'kind' field")));
        },
        Some(kind) => kind,
    };
    let value = document.value();
    match ResourceKind::parse(kind.as_str()) {
        None => Err(Error::UnsupportedKind(kind)),
        Some(ResourceKind::Deployment) => typed_outcome(
            match read_deployment(value) {
                Ok((name, body)) => Ok((name, ManifestBody::Deployment(body))),
                Err(complaint) => Err(complaint),
            },
        ),
        Some(ResourceKind::Service) => typed_outcome(
            match read_service(value) {
                Ok((name, body)) => Ok((name, ManifestBody::Service(body))),
                Err(complaint) => Err(complaint),
            },
        ),
        Some(ResourceKind::ConfigMap) => typed_outcome(
            match read_config_map(value) {
                Ok((name, body)) => Ok((name, ManifestBody::ConfigMap(body))),
                Err(complaint) => Err(complaint),
            },
        ),
        Some(ResourceKind::Secret) => typed_outcome(
            match read_secret(value) {
                Ok((name, body)) => Ok((name, ManifestBody::Secret(body))),
                Err(complaint) => Err(complaint),
            },
        ),
    }
}

/// The status code with which the control plane reports that the resource
/// to create is already there.
pub const CONFLICT: u16 = 409;

/// What the control plane answered to one create call.
#[derive(Debug)]
pub enum CreateResponse {
    /// The resource was created; `name` is the name that the control plane
    /// reports for it, if it reports one.
    Created { name: Option<String> },
    /// The control plane refused the call with a status code.
    ApiError { code: u16, message: String },
    /// The call did not get an answer: a transport failure or a timeout.
    Failed { message: String },
}

/// The mathematical value of a [`CreateResponse`].
pub enum CreateResponseView {
    Created { name: Option<Seq<char>> },
    ApiError { code: u16, message: Seq<char> },
    Failed { message: Seq<char> },
}

impl View for CreateResponse {
    type V = CreateResponseView;

    open spec fn view(&self) -> CreateResponseView {
        match self {
            CreateResponse::Created { name } => CreateResponseView::Created {
                name: name_view(*name),
            },
            CreateResponse::ApiError { code, message } => CreateResponseView::ApiError {
                code: *code,
                message: message@,
            },
            CreateResponse::Failed { message } => CreateResponseView::Failed { message: message@ },
        }
    }
}

/// The success entry for a resource of `kind` created under `name`.
pub open spec fn created_message(kind: ResourceKind, name: Seq<char>) -> Seq<char> {
    "Created "@ + kind.name() + ": "@ + name
}

/// The failure entry for a resource of `kind` called `name` that was already
/// there.
pub open spec fn conflict_message(kind: ResourceKind, name: Seq<char>) -> Seq<char> {
    "Resource "@ + kind.name() + " "@ + name + " already exists"@
}

/// The name that a manifest is reported under: its own, or the empty text
/// where it has none.
pub open spec fn reported_name(manifest: ManifestView) -> Seq<char> {
    match manifest.name {
        Some(name) => name,
        None => Seq::empty(),
    }
}

/// The name that a created resource is reported under: the one that the
/// control plane reports, or the manifest's own where it reports none.
pub open spec fn created_name(manifest: ManifestView, name: Option<Seq<char>>) -> Seq<char> {
    match name {
        Some(name) => name,
        None => reported_name(manifest),
    }
}

/// The outcome for a manifest to which the control plane answered
/// `response`: the success entry, or the error that is recorded as a failure.
pub open spec fn outcome_of(
    manifest: ManifestView,
    response: CreateResponseView,
) -> Result<Seq<char>, ErrorView> {
    match response {
        CreateResponseView::Created { name } => Ok(
            created_message(manifest.kind, created_name(manifest, name)),
        ),
        CreateResponseView::ApiError { code, message } => if code == CONFLICT {
            Err(
                ErrorView::ResourceAlreadyExists(
                    conflict_message(manifest.kind, reported_name(manifest)),
                ),
            )
        } else {
            Err(ErrorView::ApiError(message))
        },
        CreateResponseView::Failed { message } => Err(ErrorView::ApiError(message)),
    }
}

/// The mathematical value of an outcome.
pub open spec fn outcome_view(outcome: Result<String, Error>) -> Result<Seq<char>, ErrorView> {
    match outcome {
        Ok(text) => Ok(text@),
        Err(e) => Err(e@),
    }
}

/// Turns the control plane's answer to the create call for `manifest` into
/// the outcome for its document.
///
/// A created resource is a success that names the kind and the name it was
/// created under: the name that the control plane reports, or the manifest's
/// own where it reports none. A conflict is [`Error::ResourceAlreadyExists`] with the
/// kind and the manifest's own name. Any other answer, and no answer, is
/// [`Error::ApiError`] with the text that came with it.
pub fn resource_outcome(
    manifest: &Manifest,
    response: CreateResponse,
) -> (outcome: Result<String, Error>)
    ensures
        outcome_view(outcome) == outcome_of(manifest@, response@),
{
    let kind = manifest.kind();
    match response {
        CreateResponse::Created { name } => {
            let text = String::from_str("Created ").concat(kind.as_str()).concat(": ");
            let text = match name {
                Some(name) => text.concat(name.as_str()),
                None => match manifest.name() {
                    Some(own) => text.concat(own.as_str()),
                    None => text,
                },
            };
            Ok(text)
        },
        CreateResponse::ApiError { code, message } => {
            if code == CONFLICT {
                let text = String::from_str("Resource ").concat(kind.as_str()).concat(" ");
                let text = match manifest.name() {
                    Some(name) => text.concat(name.as_str()),
                    None => text,
                };
                Err(Error::ResourceAlreadyExists(text.concat(" already exists")))
            } else {
                Err(Error::ApiError(message))
            }
        },
        CreateResponse::Failed { message } => Err(Error::ApiError(message)),
    }
}

/// A conflict is never a success: whatever the manifest and whatever text
/// comes with it, a response with the status code [`CONFLICT`] gives
/// [`ErrorView::ResourceAlreadyExists`], with the manifest's kind and name.
pub proof fn lemma_conflict_is_never_success(manifest: ManifestView, message: Seq<char>)
    ensures
        outcome_of(manifest, CreateResponseView::ApiError { code: CONFLICT, message }) == Err::<
            Seq<char>,
            ErrorView,
        >(
            ErrorView::ResourceAlreadyExists(
                conflict_message(manifest.kind, reported_name(manifest)),
            ),
        ),
{
}

} // verus!
