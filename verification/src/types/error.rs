//! The structured error object that the service places under a top-level
//! `error` key, and its decoding from a parsed JSON tree.

use vstd::prelude::*;

use crate::json::{
    spec_get, spec_int_text, spec_req_arr, spec_req_i32, spec_req_str, Json,
};

verus! {

/// A structured service error: an integer code, a human-readable message,
/// the string mirror of the code, and optional detail records.
#[derive(Clone, Debug, PartialEq)]
pub struct VertexApiError {
    pub code: i32,
    pub message: String,
    pub status: String,
    pub details: Option<Vec<ErrorType>>,
}

/// Mathematical image of [`VertexApiError`].
pub ghost struct VertexApiErrorView {
    pub code: i32,
    pub message: Seq<char>,
    pub status: Seq<char>,
    pub details: Option<Seq<ErrorTypeView>>,
}

impl DeepView for VertexApiError {
    type V = VertexApiErrorView;

    open spec fn deep_view(&self) -> VertexApiErrorView {
        VertexApiErrorView {
            code: self.code,
            message: self.message.deep_view(),
            status: self.status.deep_view(),
            details: match self.details {
                Some(ds) => Some(ds.deep_view()),
                None => None,
            },
        }
    }
}

/// A link inside a help detail record.
#[derive(Clone, Debug, PartialEq)]
pub struct Link {
    pub description: String,
    pub url: String,
}

/// Mathematical image of [`Link`].
pub ghost struct LinkView {
    pub description: Seq<char>,
    pub url: Seq<char>,
}

impl DeepView for Link {
    type V = LinkView;

    open spec fn deep_view(&self) -> LinkView {
        LinkView { description: self.description.deep_view(), url: self.url.deep_view() }
    }
}

/// One detail record of a service error, tagged on the wire by its
/// `@type` field.
#[derive(Clone, Debug, PartialEq)]
pub enum ErrorType {
    ErrorInfo { metadata: ErrorInfoMetadata },
    Help { links: Vec<Link> },
    BadRequest { field_violations: Vec<FieldViolation> },
}

/// Mathematical image of [`ErrorType`].
pub ghost enum ErrorTypeView {
    ErrorInfo { metadata: ErrorInfoMetadataView },
    Help { links: Seq<LinkView> },
    BadRequest { field_violations: Seq<FieldViolationView> },
}

impl DeepView for ErrorType {
    type V = ErrorTypeView;

    open spec fn deep_view(&self) -> ErrorTypeView {
        match self {
            ErrorType::ErrorInfo { metadata } => ErrorTypeView::ErrorInfo {
                metadata: metadata.deep_view(),
            },
            ErrorType::Help { links } => ErrorTypeView::Help { links: links.deep_view() },
            ErrorType::BadRequest { field_violations } => ErrorTypeView::BadRequest {
                field_violations: field_violations.deep_view(),
            },
        }
    }
}

/// The service and consumer named by an error-info detail record.
#[derive(Clone, Debug, PartialEq)]
pub struct ErrorInfoMetadata {
    pub service: String,
    pub consumer: String,
}

/// Mathematical image of [`ErrorInfoMetadata`].
pub ghost struct ErrorInfoMetadataView {
    pub service: Seq<char>,
    pub consumer: Seq<char>,
}

impl DeepView for ErrorInfoMetadata {
    type V = ErrorInfoMetadataView;

    open spec fn deep_view(&self) -> ErrorInfoMetadataView {
        ErrorInfoMetadataView {
            service: self.service.deep_view(),
            consumer: self.consumer.deep_view(),
        }
    }
}

/// One rejected field of a bad request.
#[derive(Clone, Debug, PartialEq)]
pub struct FieldViolation {
    pub field: String,
    pub description: String,
}

/// Mathematical image of [`FieldViolation`].
pub ghost struct FieldViolationView {
    pub field: Seq<char>,
    pub description: Seq<char>,
}

impl DeepView for FieldViolation {
    type V = FieldViolationView;

    open spec fn deep_view(&self) -> FieldViolationView {
        FieldViolationView {
            field: self.field.deep_view(),
            description: self.description.deep_view(),
        }
    }
}

/// The link a `links` element decodes to: both fields present as strings.
pub open spec fn spec_link_from(j: Json) -> Option<LinkView> {
    match (spec_req_str(j, "description"@), spec_req_str(j, "url"@)) {
        (Some(d), Some(u)) => Some(LinkView { description: d@, url: u@ }),
        _ => None,
    }
}

/// The links a `links` array decodes to: every element must decode.
pub open spec fn spec_links_from(s: Seq<Json>) -> Option<Seq<LinkView>> {
    if forall|k: int| 0 <= k < s.len() ==> spec_link_from(#[trigger] s[k]) is Some {
        Some(Seq::new(s.len(), |k: int| spec_link_from(s[k])->0))
    } else {
        None
    }
}

/// The field violation an element decodes to.
pub open spec fn spec_violation_from(j: Json) -> Option<FieldViolationView> {
    match (spec_req_str(j, "field"@), spec_req_str(j, "description"@)) {
        (Some(f), Some(d)) => Some(FieldViolationView { field: f@, description: d@ }),
        _ => None,
    }
}

/// The field violations a `fieldViolations` array decodes to.
pub open spec fn spec_violations_from(s: Seq<Json>) -> Option<Seq<FieldViolationView>> {
    if forall|k: int| 0 <= k < s.len() ==> spec_violation_from(#[trigger] s[k]) is Some {
        Some(Seq::new(s.len(), |k: int| spec_violation_from(s[k])->0))
    } else {
        None
    }
}

/// The metadata an error-info detail carries.
pub open spec fn spec_error_info_from(j: Json) -> Option<ErrorInfoMetadataView> {
    match (spec_req_str(j, "service"@), spec_req_str(j, "consumer"@)) {
        (Some(s), Some(c)) => Some(ErrorInfoMetadataView { service: s@, consumer: c@ }),
        _ => None,
    }
}

/// One detail record: its `@type` string picks the variant, whose own
/// required fields must then decode.
pub open spec fn spec_error_type_from(j: Json) -> Option<ErrorTypeView> {
    match spec_req_str(j, "@type"@) {
        Some(t) => if t@ == "type.googleapis.com/google.rpc.ErrorInfo"@ {
            match spec_get(j, "metadata"@) {
                Some(m) => match spec_error_info_from(m) {
                    Some(info) => Some(ErrorTypeView::ErrorInfo { metadata: info }),
                    None => None,
                },
                None => None,
            }
        } else if t@ == "type.googleapis.com/google.rpc.Help"@ {
            match spec_req_arr(j, "links"@) {
                Some(elems) => match spec_links_from(elems) {
                    Some(links) => Some(ErrorTypeView::Help { links }),
                    None => None,
                },
                None => None,
            }
        } else if t@ == "type.googleapis.com/google.rpc.BadRequest"@ {
            match spec_req_arr(j, "fieldViolations"@) {
                Some(elems) => match spec_violations_from(elems) {
                    Some(vs) => Some(ErrorTypeView::BadRequest { field_violations: vs }),
                    None => None,
                },
                None => None,
            }
        } else {
            None
        },
        None => None,
    }
}

/// The detail records a `details` array decodes to.
pub open spec fn spec_error_types_from(s: Seq<Json>) -> Option<Seq<ErrorTypeView>> {
    if forall|k: int| 0 <= k < s.len() ==> spec_error_type_from(#[trigger] s[k]) is Some {
        Some(Seq::new(s.len(), |k: int| spec_error_type_from(s[k])->0))
    } else {
        None
    }
}

/// The service error an `error` object decodes to: `code`, `message` and
/// `status` are required; `details` may be absent or null, and decodes
/// element by element when present.
pub open spec fn spec_vertex_error_from(j: Json) -> Option<VertexApiErrorView> {
    match (spec_req_i32(j, "code"@), spec_req_str(j, "message"@), spec_req_str(j, "status"@)) {
        (Some(code), Some(message), Some(status)) => match spec_get(j, "details"@) {
            None => Some(
                VertexApiErrorView { code, message: message@, status: status@, details: None },
            ),
            Some(Json::Null) => Some(
                VertexApiErrorView { code, message: message@, status: status@, details: None },
            ),
            Some(Json::Arr(elems)) => match spec_error_types_from(elems@) {
                Some(ds) => Some(
                    VertexApiErrorView {
                        code,
                        message: message@,
                        status: status@,
                        details: Some(ds),
                    },
                ),
                None => None,
            },
            Some(_) => None,
        },
        _ => None,
    }
}

fn link_from(j: &Json) -> (r: Option<Link>)
    ensures
        match r {
            Some(l) => spec_link_from(*j) == Some(l.deep_view()),
            None => spec_link_from(*j) is None,
        },
{
    let description = match j.req_str("description") {
        Some(d) => d,
        None => { return None },
    };
    let url = match j.req_str("url") {
        Some(u) => u,
        None => { return None },
    };
    Some(Link { description, url })
}

fn links_from(elems: &Vec<Json>) -> (r: Option<Vec<Link>>)
    ensures
        match r {
            Some(v) => spec_links_from(elems@) == Some(v.deep_view()),
            None => spec_links_from(elems@) is None,
        },
{
    let mut out: Vec<Link> = Vec::new();
    let n = elems.len();
    let mut i: usize = 0;
    while i < n
        invariant
            i <= n,
            n == elems@.len(),
            out@.len() == i,
            forall|k: int|
                0 <= k < i ==> spec_link_from(#[trigger] elems@[k]) == Some(out@[k].deep_view()),
        decreases n - i,
    {
        match link_from(&elems[i]) {
            Some(l) => { out.push(l) },
            None => {
                assert(spec_link_from(elems@[i as int]) is None);
                return None;
            },
        }
        i = i + 1;
    }
    assert(spec_links_from(elems@) matches Some(s) && s =~= out.deep_view());
    Some(out)
}

fn violation_from(j: &Json) -> (r: Option<FieldViolation>)
    ensures
        match r {
            Some(v) => spec_violation_from(*j) == Some(v.deep_view()),
            None => spec_violation_from(*j) is None,
        },
{
    let field = match j.req_str("field") {
        Some(f) => f,
        None => { return None },
    };
    let description = match j.req_str("description") {
        Some(d) => d,
        None => { return None },
    };
    Some(FieldViolation { field, description })
}

fn violations_from(elems: &Vec<Json>) -> (r: Option<Vec<FieldViolation>>)
    ensures
        match r {
            Some(v) => spec_violations_from(elems@) == Some(v.deep_view()),
            None => spec_violations_from(elems@) is None,
        },
{
    let mut out: Vec<FieldViolation> = Vec::new();
    let n = elems.len();
    let mut i: usize = 0;
    while i < n
        invariant
            i <= n,
            n == elems@.len(),
            out@.len() == i,
            forall|k: int|
                0 <= k < i ==> spec_violation_from(#[trigger] elems@[k]) == Some(
                    out@[k].deep_view(),
                ),
        decreases n - i,
    {
        match violation_from(&elems[i]) {
            Some(v) => { out.push(v) },
            None => {
                assert(spec_violation_from(elems@[i as int]) is None);
                return None;
            },
        }
        i = i + 1;
    }
    assert(spec_violations_from(elems@) matches Some(s) && s =~= out.deep_view());
    Some(out)
}

fn error_info_from(j: &Json) -> (r: Option<ErrorInfoMetadata>)
    ensures
        match r {
            Some(m) => spec_error_info_from(*j) == Some(m.deep_view()),
            None => spec_error_info_from(*j) is None,
        },
{
    let service = match j.req_str("service") {
        Some(s) => s,
        None => { return None },
    };
    let consumer = match j.req_str("consumer") {
        Some(c) => c,
        None => { return None },
    };
    Some(ErrorInfoMetadata { service, consumer })
}

fn error_type_from(j: &Json) -> (r: Option<ErrorType>)
    ensures
        match r {
            Some(e) => spec_error_type_from(*j) == Some(e.deep_view()),
            None => spec_error_type_from(*j) is None,
        },
{
    let tag = match j.req_str("@type") {
        Some(t) => t,
        None => { return None },
    };
    if crate::json::str_eq(tag.as_str(), "type.googleapis.com/google.rpc.ErrorInfo") {
        let m = match j.get("metadata") {
            Some(m) => m,
            None => { return None },
        };
        match error_info_from(m) {
            Some(metadata) => Some(ErrorType::ErrorInfo { metadata }),
            None => None,
        }
    } else if crate::json::str_eq(tag.as_str(), "type.googleapis.com/google.rpc.Help") {
        let elems = match j.req_arr("links") {
            Some(e) => e,
            None => { return None },
        };
        match links_from(elems) {
            Some(links) => Some(ErrorType::Help { links }),
            None => None,
        }
    } else if crate::json::str_eq(tag.as_str(), "type.googleapis.com/google.rpc.BadRequest") {
        let elems = match j.req_arr("fieldViolations") {
            Some(e) => e,
            None => { return None },
        };
        match violations_from(elems) {
            Some(field_violations) => Some(ErrorType::BadRequest { field_violations }),
            None => None,
        }
    } else {
        None
    }
}

fn error_types_from(elems: &Vec<Json>) -> (r: Option<Vec<ErrorType>>)
    ensures
        match r {
            Some(v) => spec_error_types_from(elems@) == Some(v.deep_view()),
            None => spec_error_types_from(elems@) is None,
        },
{
    let mut out: Vec<ErrorType> = Vec::new();
    let n = elems.len();
    let mut i: usize = 0;
    while i < n
        invariant
            i <= n,
            n == elems@.len(),
            out@.len() == i,
            forall|k: int|
                0 <= k < i ==> spec_error_type_from(#[trigger] elems@[k]) == Some(
                    out@[k].deep_view(),
                ),
        decreases n - i,
    {
        match error_type_from(&elems[i]) {
            Some(e) => { out.push(e) },
            None => {
                assert(spec_error_type_from(elems@[i as int]) is None);
                return None;
            },
        }
        i = i + 1;
    }
    assert(spec_error_types_from(elems@) matches Some(s) && s =~= out.deep_view());
    Some(out)
}

impl VertexApiError {
    /// Decodes the object under the `error` key of an error envelope.
    pub fn from_json(j: &Json) -> (r: Option<VertexApiError>)
        ensures
            match r {
                Some(e) => spec_vertex_error_from(*j) == Some(e.deep_view()),
                None => spec_vertex_error_from(*j) is None,
            },
    {
        let code = match j.req_i32("code") {
            Some(c) => c,
            None => { return None },
        };
        let message = match j.req_str("message") {
            Some(m) => m,
            None => { return None },
        };
        let status = match j.req_str("status") {
            Some(s) => s,
            None => { return None },
        };
        match j.get("details") {
            None => Some(VertexApiError { code, message, status, details: None }),
            Some(Json::Null) => Some(VertexApiError { code, message, status, details: None }),
            Some(Json::Arr(elems)) => match error_types_from(elems) {
                Some(ds) => Some(VertexApiError { code, message, status, details: Some(ds) }),
                None => None,
            },
            Some(_) => None,
        }
    }

    /// One line describing the error, as the library reports it.
    pub fn describe(&self) -> (r: String)
        ensures
            r@ == "Vertex API Error "@ + spec_int_text(self.code as int) + " - "@
                + self.message@,
    {
        let mut out = String::from_str("Vertex API Error ");
        crate::json::push_i64_text(self.code as i64, &mut out);
        out.append(" - ");
        out.append(self.message.as_str());
        assert(out@ =~= "Vertex API Error "@ + spec_int_text(self.code as int) + " - "@
            + self.message@);
        out
    }
}

} // verus!
