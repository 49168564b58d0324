use vstd::prelude::*;
use vstd::string::StringExecFns;

verus! {

/// Everything that can go wrong while a request is served.
///
/// The variants that carry a `String` hold the text that is shown to the
/// caller; see [`Error::message`].
#[derive(Debug)]
pub enum Error {
    /// A failure that fits none of the other variants.
    General(String),
    /// No template is stored under the requested service name.
    TemplateNotFound,
    /// The template could not be expanded against the supplied context.
    RenderError(String),
    /// The rendered text is not a well-formed stream of documents.
    ParseError(String),
    /// A document declares a kind that the dispatcher does not create.
    /// Carries the declared kind.
    UnsupportedKind(String),
    /// The control plane holds no such resource, or no status for it.
    ResourceNotFound,
    /// The control plane refused a create because the resource is already
    /// there.
    ResourceAlreadyExists(String),
    /// Any other failure reported by, or on the way to, the control plane.
    ApiError(String),
}

/// The mathematical value of an [`Error`]: the same variants over sequences
/// of characters.
pub enum ErrorView {
    General(Seq<char>),
    TemplateNotFound,
    RenderError(Seq<char>),
    ParseError(Seq<char>),
    UnsupportedKind(Seq<char>),
    ResourceNotFound,
    ResourceAlreadyExists(Seq<char>),
    ApiError(Seq<char>),
}

impl ErrorView {
    /// The text shown to the caller for this error.
    pub open spec fn message(self) -> Seq<char> {
        match self {
            ErrorView::General(text) => text,
            ErrorView::TemplateNotFound => "Template not found"@,
            ErrorView::RenderError(text) => text,
            ErrorView::ParseError(text) => text,
            ErrorView::UnsupportedKind(kind) => "UnsupportedKind: "@ + kind,
            ErrorView::ResourceNotFound => "InternalServerError"@,
            ErrorView::ResourceAlreadyExists(text) => text,
            ErrorView::ApiError(text) => text,
        }
    }
}

impl View for Error {
    type V = ErrorView;

    open spec fn view(&self) -> ErrorView {
        match self {
            Error::General(text) => ErrorView::General(text@),
            Error::TemplateNotFound => ErrorView::TemplateNotFound,
            Error::RenderError(text) => ErrorView::RenderError(text@),
            Error::ParseError(text) => ErrorView::ParseError(text@),
            Error::UnsupportedKind(kind) => ErrorView::UnsupportedKind(kind@),
            Error::ResourceNotFound => ErrorView::ResourceNotFound,
            Error::ResourceAlreadyExists(text) => ErrorView::ResourceAlreadyExists(text@),
            Error::ApiError(text) => ErrorView::ApiError(text@),
        }
    }
}

impl Error {
    /// The text shown to the caller for this error.
    pub fn message(&self) -> (text: String)
        ensures
            text@ == self@.message(),
    {
        match self {
            Error::General(text) => text.clone(),
            Error::TemplateNotFound => String::from_str("Template not found"),
            Error::RenderError(text) => text.clone(),
            Error::ParseError(text) => text.clone(),
            Error::UnsupportedKind(kind) => String::from_str("UnsupportedKind: ").concat(
                kind.as_str(),
            ),
            Error::ResourceNotFound => String::from_str("InternalServerError"),
            Error::ResourceAlreadyExists(text) => text.clone(),
            Error::ApiError(text) => text.clone(),
        }
    }
}

} // verus!
