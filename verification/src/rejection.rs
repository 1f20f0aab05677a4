//! Why a request was turned down.

use vstd::prelude::*;

verus! {

/// The cause of a rejection. Every one is final for its request.
#[derive(Debug, Clone, PartialEq, Eq)]
pub enum Rejection {
    /// The request declares no content type, or one that is not
    /// `multipart/form-data`.
    MissingContentType,
    /// The body's framing is corrupt or cut short.
    MalformedMultipart,
    /// A part's name is not declared by the schema.
    UnknownField(String),
    /// A part is larger than its field allows.
    FieldTooLarge(String),
    /// A part's content type (second) does not pass its field's (first)
    /// pattern.
    ContentTypeMismatch(String, String),
    /// A required field never appeared.
    MissingField(String),
    /// A field that takes one value appeared more than once.
    UnexpectedMultipleOccurrence(String),
    /// The text field does not hold a JSON record of the expected shape.
    MalformedPayload(String),
}

pub ghost enum RejectionView {
    MissingContentType,
    MalformedMultipart,
    UnknownField(Seq<char>),
    FieldTooLarge(Seq<char>),
    ContentTypeMismatch(Seq<char>, Seq<char>),
    MissingField(Seq<char>),
    UnexpectedMultipleOccurrence(Seq<char>),
    MalformedPayload(Seq<char>),
}

impl View for Rejection {
    type V = RejectionView;

    open spec fn view(&self) -> RejectionView {
        match self {
            Rejection::MissingContentType => RejectionView::MissingContentType,
            Rejection::MalformedMultipart => RejectionView::MalformedMultipart,
            Rejection::UnknownField(name) => RejectionView::UnknownField(name@),
            Rejection::FieldTooLarge(name) => RejectionView::FieldTooLarge(name@),
            Rejection::ContentTypeMismatch(name, got) => RejectionView::ContentTypeMismatch(
                name@,
                got@,
            ),
            Rejection::MissingField(name) => RejectionView::MissingField(name@),
            Rejection::UnexpectedMultipleOccurrence(name) =>
                RejectionView::UnexpectedMultipleOccurrence(name@),
            Rejection::MalformedPayload(detail) => RejectionView::MalformedPayload(detail@),
        }
    }
}

impl RejectionView {
    /// The sentence shown to the client.
    pub open spec fn reason(self) -> Seq<char> {
        match self {
            RejectionView::MissingContentType =>
                "Incorrect contentType, should be 'multipart/form-data"@,
            RejectionView::MalformedMultipart => "Malformed multipart body"@,
            RejectionView::UnknownField(name) => "Unknown field '"@ + name + "'"@,
            RejectionView::FieldTooLarge(name) => "Field '"@ + name + "' is too large"@,
            RejectionView::ContentTypeMismatch(name, got) => "Field '"@ + name
                + "' has an unacceptable content type '"@ + got + "'"@,
            RejectionView::MissingField(name) => "Missing field '"@ + name + "'"@,
            RejectionView::UnexpectedMultipleOccurrence(name) => "Extra '"@ + name
                + "' fields supplied"@,
            RejectionView::MalformedPayload(detail) => detail,
        }
    }
}

/// `prefix`, `middle` and `suffix` joined.
fn bracket(prefix: &str, middle: &str, suffix: &str) -> (r: String)
    ensures
        r@ == prefix@ + middle@ + suffix@,
{
    String::from_str(prefix).concat(middle).concat(suffix)
}

impl Rejection {
    /// The sentence shown to the client.
    pub fn reason(&self) -> (r: String)
        ensures
            r@ == self@.reason(),
    {
        match self {
            Rejection::MissingContentType => String::from_str(
                "Incorrect contentType, should be 'multipart/form-data",
            ),
            Rejection::MalformedMultipart => String::from_str("Malformed multipart body"),
            Rejection::UnknownField(name) => bracket("Unknown field '", name.as_str(), "'"),
            Rejection::FieldTooLarge(name) => bracket("Field '", name.as_str(), "' is too large"),
            Rejection::ContentTypeMismatch(name, got) => bracket(
                "Field '",
                name.as_str(),
                "' has an unacceptable content type '",
            ).concat(got.as_str()).concat("'"),
            Rejection::MissingField(name) => bracket("Missing field '", name.as_str(), "'"),
            Rejection::UnexpectedMultipleOccurrence(name) => bracket(
                "Extra '",
                name.as_str(),
                "' fields supplied",
            ),
            Rejection::MalformedPayload(detail) => detail.clone(),
        }
    }
}

/// The error that a request handler reports: the reason, as text.
#[derive(Debug, Clone, PartialEq, Eq)]
pub struct MultipartError {
    pub reason: String,
}

impl MultipartError {
    pub fn new(reason: String) -> (e: MultipartError)
        ensures
            e.reason == reason,
    {
        MultipartError { reason }
    }

    /// The error that reports `rejection`.
    pub fn from_rejection(rejection: &Rejection) -> (e: MultipartError)
        ensures
            e.reason@ == rejection@.reason(),
    {
        MultipartError { reason: rejection.reason() }
    }

    /// The reason, as the error prints.
    pub fn message(&self) -> (r: String)
        ensures
            r@ == self.reason@,
    {
        self.reason.clone()
    }
}

} // verus!
