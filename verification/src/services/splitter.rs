use crate::error::{Error, ErrorView};
use crate::services::kinds::{ManifestBody, ResourceKind};
use crate::text::name_view;
use serde::Deserialize;
use vstd::prelude::*;

verus! {

/// A stream of YAML documents over a borrowed text.
#[verifier::external_type_specification]
#[verifier::external_body]
pub struct ExDocumentStream<'de>(serde_yaml::Deserializer<'de>);

/// One parsed YAML document.
#[verifier::external_type_specification]
#[verifier::external_body]
pub struct ExYamlValue(serde_yaml::Value);

/// Whether `value` is null.
pub uninterp spec fn null_value(value: serde_yaml::Value) -> bool;

/// The string that `value` holds under `key`, if it is a mapping that holds
/// one there.
pub uninterp spec fn string_at(value: serde_yaml::Value, key: Seq<char>) -> Option<Seq<char>>;

/// What reading `value` in the schema of a deployment gives: the name under
/// its metadata, or the reader's complaint.
pub uninterp spec fn deployment_reading(value: serde_yaml::Value) -> Result<Option<Seq<char>>, Seq<char>>;

/// What reading `value` in the schema of a service gives: the name under its
/// metadata, or the reader's complaint.
pub uninterp spec fn service_reading(value: serde_yaml::Value) -> Result<Option<Seq<char>>, Seq<char>>;

/// What reading `value` in the schema of a config map gives: the name under
/// its metadata, or the reader's complaint.
pub uninterp spec fn config_map_reading(value: serde_yaml::Value) -> Result<Option<Seq<char>>, Seq<char>>;

/// What reading `value` in the schema of a secret gives: the name under its
/// metadata, or the reader's complaint.
pub uninterp spec fn secret_reading(value: serde_yaml::Value) -> Result<Option<Seq<char>>, Seq<char>>;

/// The deployment that reading `value` in the schema of a deployment gives,
/// where the reader has no complaint.
pub uninterp spec fn deployment_body(
    value: serde_yaml::Value,
) -> k8s_openapi::api::apps::v1::Deployment;

/// The service that reading `value` in the schema of a service gives, where
/// the reader has no complaint.
pub uninterp spec fn service_body(value: serde_yaml::Value) -> k8s_openapi::api::core::v1::Service;

/// The config map that reading `value` in the schema of a config map gives,
/// where the reader has no complaint.
pub uninterp spec fn config_map_body(
    value: serde_yaml::Value,
) -> k8s_openapi::api::core::v1::ConfigMap;

/// The secret that reading `value` in the schema of a secret gives, where the
/// reader has no complaint.
pub uninterp spec fn secret_body(value: serde_yaml::Value) -> k8s_openapi::api::core::v1::Secret;

/// The typed bodies that reading a document in each of the typed schemas
/// gives.
pub struct Bodies {
    pub deployment: k8s_openapi::api::apps::v1::Deployment,
    pub service: k8s_openapi::api::core::v1::Service,
    pub config_map: k8s_openapi::api::core::v1::ConfigMap,
    pub secret: k8s_openapi::api::core::v1::Secret,
}

impl Bodies {
    /// The body that reading the document in the schema of `kind` gives.
    pub open spec fn of(self, kind: ResourceKind) -> ManifestBody {
        match kind {
            ResourceKind::Deployment => ManifestBody::Deployment(self.deployment),
            ResourceKind::Service => ManifestBody::Service(self.service),
            ResourceKind::ConfigMap => ManifestBody::ConfigMap(self.config_map),
            ResourceKind::Secret => ManifestBody::Secret(self.secret),
        }
    }
}

/// What reading a document in each of the typed schemas gives: the name
/// under its metadata, or the reader's complaint.
pub struct Readings {
    pub deployment: Result<Option<Seq<char>>, Seq<char>>,
    pub service: Result<Option<Seq<char>>, Seq<char>>,
    pub config_map: Result<Option<Seq<char>>, Seq<char>>,
    pub secret: Result<Option<Seq<char>>, Seq<char>>,
}

impl Readings {
    /// What reading the document in the schema of `kind` gives.
    pub open spec fn of(self, kind: ResourceKind) -> Result<Option<Seq<char>>, Seq<char>> {
        match kind {
            ResourceKind::Deployment => self.deployment,
            ResourceKind::Service => self.service,
            ResourceKind::ConfigMap => self.config_map,
            ResourceKind::Secret => self.secret,
        }
    }
}

/// What the pipeline reads of a document.
pub struct DocumentView {
    /// The document is empty: it parsed to a null value.
    pub null: bool,
    /// The string under the top-level key `kind`, if there is one.
    pub kind: Option<Seq<char>>,
    /// What reading the document in each typed schema gives.
    pub readings: Readings,
    /// The typed body for each of the readings without a complaint.
    pub bodies: Bodies,
}

/// What the pipeline reads of a document that parsed to `value`.
pub open spec fn facts(value: serde_yaml::Value) -> DocumentView {
    DocumentView {
        null: null_value(value),
        kind: string_at(value, "kind"@),
        readings: Readings {
            deployment: deployment_reading(value),
            service: service_reading(value),
            config_map: config_map_reading(value),
            secret: secret_reading(value),
        },
        bodies: Bodies {
            deployment: deployment_body(value),
            service: service_body(value),
            config_map: config_map_body(value),
            secret: secret_body(value),
        },
    }
}

/// Calls `serde_yaml::Value::is_null`.
#[verifier::external_body]
fn value_is_null(value: &serde_yaml::Value) -> (null: bool)
    ensures
        null == null_value(*value),
{
    value.is_null()
}

/// Indexes the value with `key` and calls `serde_yaml::Value::as_str` on
/// what is there. A value that is no mapping, a key that it does not hold
/// and an entry that is no string all give `None`.
#[verifier::external_body]
fn string_under(value: &serde_yaml::Value, key: &str) -> (found: Option<String>)
    ensures
        name_view(found) == string_at(*value, key@),
{
    value[key].as_str().map(str::to_owned)
}

/// One resource definition taken from a rendered text.
pub struct Document {
    value: serde_yaml::Value,
}

impl View for Document {
    type V = DocumentView;

    open spec fn view(&self) -> DocumentView {
        facts(self.parsed())
    }
}

impl Document {
    /// Whether the document is empty.
    pub fn is_null(&self) -> (null: bool)
        ensures
            null == self@.null,
    {
        value_is_null(&self.value)
    }

    /// The kind that the document declares.
    pub fn kind(&self) -> (kind: Option<String>)
        ensures
            name_view(kind) == self@.kind,
    {
        string_under(&self.value, "kind")
    }

    /// The parsed document itself.
    pub fn value(&self) -> (value: &serde_yaml::Value)
        ensures
            *value == self.parsed(),
    {
        &self.value
    }

    /// The value that the document was parsed to: what the readers of the
    /// typed schemas are handed.
    pub closed spec fn parsed(&self) -> serde_yaml::Value {
        self.value
    }
}

/// What a stream of documents yields: the well-formed documents that come
/// before its end or its first malformed document, and the complaint about
/// that malformed document if there is one.
pub struct StreamView {
    pub documents: Seq<DocumentView>,
    pub fault: Option<Seq<char>>,
}

/// What a stream over `text` yields.
pub uninterp spec fn yaml_stream(text: Seq<char>) -> StreamView;

/// What `stream` has yet to yield.
pub uninterp spec fn stream_rest(stream: serde_yaml::Deserializer<'_>) -> StreamView;

/// The views of `documents`, in order.
pub open spec fn views(documents: Seq<Document>) -> Seq<DocumentView> {
    documents.map_values(|document: Document| document@)
}

/// The number of documents in `documents` that are not empty.
pub open spec fn count_non_empty(documents: Seq<DocumentView>) -> nat
    decreases documents.len(),
{
    if documents.len() == 0 {
        0
    } else {
        count_non_empty(documents.drop_last()) + if documents.last().null {
            0nat
        } else {
            1nat
        }
    }
}

/// Calls `serde_yaml::Deserializer::from_str`. The call only stores the text:
/// the stream it returns has all of the text's documents still to yield.
#[verifier::external_body]
fn open_stream<'a>(text: &'a str) -> (stream: serde_yaml::Deserializer<'a>)
    ensures
        stream_rest(stream) == yaml_stream(text@),
{
    serde_yaml::Deserializer::from_str(text)
}

/// Calls `Iterator::next` on the stream and `serde_yaml::Value::deserialize`
/// on the document that comes out.
///
/// `None` means the stream has ended without a fault. A well-formed document
/// is the first of those the stream had yet to yield, and leaves the others.
/// A malformed document comes as the text of its `serde_yaml::Error`, which
/// is the stream's fault; no well-formed document stood before it.
#[verifier::external_body]
fn next_value(
    stream: &mut serde_yaml::Deserializer<'_>,
) -> (item: Option<Result<serde_yaml::Value, String>>)
    ensures
        match item {
            None => stream_rest(*old(stream)).documents.len() == 0 && stream_rest(
                *old(stream),
            ).fault is None,
            Some(Ok(value)) => {
                &&& stream_rest(*old(stream)).documents.len() > 0
                &&& facts(value) == stream_rest(*old(stream)).documents[0]
                &&& stream_rest(*final(stream)).documents == stream_rest(
                    *old(stream),
                ).documents.drop_first()
                &&& stream_rest(*final(stream)).fault == stream_rest(*old(stream)).fault
            },
            Some(Err(complaint)) => stream_rest(*old(stream)).documents.len() == 0
                && stream_rest(*old(stream)).fault == Some(complaint@),
        },
{
    match stream.next() {
        None => None,
        Some(source) => Some(
            match serde_yaml::Value::deserialize(source) {
                Ok(value) => Ok(value),
                Err(e) => Err(e.to_string()),
            },
        ),
    }
}

/// The outcome of the split stage for one item of the stream: the document
/// that parsed to the value, or [`Error::ParseError`] with the complaint.
pub fn parse_outcome(item: Result<serde_yaml::Value, String>) -> (outcome: Result<
    Document,
    Error,
>)
    ensures
        match item {
            Ok(value) => outcome matches Ok(document) && document.parsed() == value,
            Err(complaint) => outcome matches Err(e) && e@ == ErrorView::ParseError(complaint@),
        },
{
    match item {
        Ok(value) => Ok(Document { value }),
        Err(complaint) => Err(Error::ParseError(complaint)),
    }
}

/// Splits a rendered text into its documents.
///
/// Every document is parsed before any is returned: one malformed document
/// fails the whole text with [`Error::ParseError`]. Empty documents are
/// returned like the others and are for the caller to skip.
pub fn split(text: &str) -> (outcome: Result<Vec<Document>, Error>)
    ensures
        match outcome {
            Ok(documents) => yaml_stream(text@).fault is None && views(documents@) == yaml_stream(
                text@,
            ).documents,
            Err(e) => yaml_stream(text@).fault is Some && e@ == ErrorView::ParseError(
                yaml_stream(text@).fault->0,
            ),
        },
{
    let mut stream = open_stream(text);
    let mut documents: Vec<Document> = Vec::new();
    loop
        invariant
            stream_rest(stream).fault == yaml_stream(text@).fault,
            views(documents@) + stream_rest(stream).documents == yaml_stream(text@).documents,
        decreases stream_rest(stream).documents.len(),
    {
        let item = match next_value(&mut stream) {
            None => {
                return Ok(documents);
            },
            Some(item) => item,
        };
        match parse_outcome(item) {
            Ok(document) => {
                documents.push(document);
            },
            Err(e) => {
                return Err(e);
            },
        }
    }
}

} // verus!
