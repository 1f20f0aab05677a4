//! The whole way from a decoded request to the domain value.

use vstd::prelude::*;
use crate::form::{enforce, first_rejection, grouped};
use crate::media::{MediaPattern, MediaPatternView};
use crate::part::{part_views, RawPart, RawPartView};
use crate::rejection::{MultipartError, Rejection, RejectionView};
use crate::schema::{spec_views, FieldKind, FieldRule, FieldSchema, FieldSpec};
use crate::text::opt_text;
use crate::user::{materialize, materialized, NewUser, NewUserView, Quoting};

verus! {

/// The largest image taken: 8 MiB.
pub const AVATAR_LIMIT: u64 = 8388608;

/// The largest JSON payload taken: 1 MiB.
pub const DATA_LIMIT: u64 = 1048576;

/// A request as the transport hands it over: the `Content-Type` header, and
/// what the boundary decoder made of the body, the parts in order of
/// arrival or the failure that stopped it.
#[derive(Debug, PartialEq, Eq)]
pub struct RawRequest {
    pub content_type: Option<String>,
    pub body: Result<Vec<RawPart>, Rejection>,
}

pub ghost struct RawRequestView {
    pub content_type: Option<Seq<char>>,
    pub body: Result<Seq<RawPartView>, RejectionView>,
}

impl View for RawRequest {
    type V = RawRequestView;

    open spec fn view(&self) -> RawRequestView {
        RawRequestView {
            content_type: opt_text(self.content_type),
            body: match self.body {
                Ok(parts) => Ok(part_views(parts@)),
                Err(rejection) => Err(rejection@),
            },
        }
    }
}

/// The fields of the upload form: an image of any subtype under `avatar`,
/// and a text of any type under `data`.
pub open spec fn upload_rules() -> Map<Seq<char>, FieldRule> {
    Map::<Seq<char>, FieldRule>::empty().insert(
        "avatar"@,
        FieldRule {
            kind: FieldKind::Binary,
            max_size: AVATAR_LIMIT as nat,
            pattern: MediaPatternView::AnySubtype("image"@),
        },
    ).insert(
        "data"@,
        FieldRule {
            kind: FieldKind::Text,
            max_size: DATA_LIMIT as nat,
            pattern: MediaPatternView::Any,
        },
    )
}

/// The schema of the upload form.
pub fn upload_schema() -> (schema: FieldSchema)
    ensures
        schema@ == upload_rules(),
{
    let mut fields: Vec<FieldSpec> = Vec::new();
    fields.push(
        FieldSpec {
            name: String::from_str("avatar"),
            kind: FieldKind::Binary,
            max_size: AVATAR_LIMIT,
            pattern: MediaPattern::AnySubtype(String::from_str("image")),
        },
    );
    fields.push(
        FieldSpec {
            name: String::from_str("data"),
            kind: FieldKind::Text,
            max_size: DATA_LIMIT,
            pattern: MediaPattern::Any,
        },
    );
    let ghost decls = spec_views(fields@);
    proof {
        reveal_strlit("avatar");
        reveal_strlit("data");
        assert("avatar"@.len() != "data"@.len());
    }
    match FieldSchema::new(fields) {
        Ok(schema) => {
            proof {
                let names = crate::schema::declared_names(decls);
                assert forall|n: Seq<char>| names.contains(n) <==> (n == "avatar"@ || n == "data"@) by {
                    assert(names[0] == "avatar"@);
                    assert(names[1] == "data"@);
                }
                assert forall|n: Seq<char>| names.contains(n) implies #[trigger] schema@[n]
                    == upload_rules()[n] by {
                    names.index_of_first_ensures(n);
                }
                assert(schema@ =~= upload_rules());
            }
            schema
        },
        Err(_) => unreached(),
    }
}

/// A header that declares `multipart/form-data`.
pub open spec fn declares_form_data(content_type: Option<Seq<char>>) -> bool {
    MediaPatternView::Exact("multipart"@, "form-data"@).accepts(content_type)
}

/// Turns down a request whose content type is absent or not
/// `multipart/form-data`.
pub fn require_multipart(content_type: &Option<String>) -> (r: Result<(), Rejection>)
    ensures
        r is Ok <==> declares_form_data(opt_text(*content_type)),
        r matches Err(e) ==> e@ == RejectionView::MissingContentType,
{
    let pattern = MediaPattern::Exact(String::from_str("multipart"), String::from_str("form-data"));
    if pattern.accepts(content_type) {
        Ok(())
    } else {
        Err(Rejection::MissingContentType)
    }
}

/// What enforcement and materialization make of the parts of a body: the
/// verdict on the first part that the schema turns down, else what the
/// grouped parts hold.
pub open spec fn validated(
    schema: Map<Seq<char>, FieldRule>,
    parts: Seq<RawPartView>,
    quoting: Quoting,
) -> Result<NewUserView, RejectionView> {
    match first_rejection(schema, parts) {
        Some(rejection) => Err(rejection),
        None => materialized(grouped(parts), quoting),
    }
}

/// What the pipeline makes of a request. The first failure of any stage is
/// the result, unchanged.
pub open spec fn outcome(
    schema: Map<Seq<char>, FieldRule>,
    request: RawRequestView,
    quoting: Quoting,
) -> Result<NewUserView, RejectionView> {
    if !declares_form_data(request.content_type) {
        Err(RejectionView::MissingContentType)
    } else {
        match request.body {
            Err(rejection) => Err(rejection),
            Ok(parts) => validated(schema, parts, quoting),
        }
    }
}

/// Enforces the schema on the parts and materializes the domain value.
pub fn validate(schema: &FieldSchema, parts: Vec<RawPart>, quoting: Quoting) -> (r: Result<
    NewUser,
    Rejection,
>)
    ensures
        match validated(schema@, part_views(parts@), quoting) {
            Ok(value) => r matches Ok(v) && v@ == value,
            Err(rejection) => r matches Err(e) && e@ == rejection,
        },
{
    match enforce(schema, parts) {
        Err(rejection) => Err(rejection),
        Ok(form) => materialize(&form, quoting),
    }
}

/// The pipeline with a choice of how the payload's quotes are read.
pub fn decode_and_validate_with(schema: &FieldSchema, request: RawRequest, quoting: Quoting) -> (r:
    Result<NewUser, Rejection>)
    ensures
        match outcome(schema@, request@, quoting) {
            Ok(value) => r matches Ok(v) && v@ == value,
            Err(rejection) => r matches Err(e) && e@ == rejection,
        },
{
    match require_multipart(&request.content_type) {
        Err(rejection) => Err(rejection),
        Ok(_) => match request.body {
            Err(rejection) => Err(rejection),
            Ok(parts) => validate(schema, parts, quoting),
        },
    }
}

/// The pipeline: the payload is read as strict JSON.
pub fn decode_and_validate(schema: &FieldSchema, request: RawRequest) -> (r: Result<
    NewUser,
    Rejection,
>)
    ensures
        match outcome(schema@, request@, Quoting::Strict) {
            Ok(value) => r matches Ok(v) && v@ == value,
            Err(rejection) => r matches Err(e) && e@ == rejection,
        },
{
    decode_and_validate_with(schema, request, Quoting::Strict)
}

impl NewUser {
    /// The submitted user of an upload request, or the error to report.
    pub fn from_request(request: RawRequest) -> (r: Result<NewUser, MultipartError>)
        ensures
            match outcome(upload_rules(), request@, Quoting::Strict) {
                Ok(value) => r matches Ok(v) && v@ == value,
                Err(rejection) => r matches Err(e) && e.reason@ == rejection.reason(),
            },
    {
        let schema = upload_schema();
        match decode_and_validate(&schema, request) {
            Ok(value) => Ok(value),
            Err(rejection) => Err(MultipartError::from_rejection(&rejection)),
        }
    }
}

} // verus!
