//! Token counting: the request shape and the untagged response envelope.

use vstd::prelude::*;

use crate::error::Error;
use crate::json::{parse_json, parsed_json, spec_get, spec_req_i32, spec_req_u32, Json};
use crate::types::common::{spec_content_from, Content, PartView};
use crate::types::error::{spec_vertex_error_from, VertexApiError, VertexApiErrorView};

verus! {

/// One token-counting request: a single content.
#[derive(Clone, Debug, PartialEq)]
pub struct CountTokensRequest {
    pub contents: Content,
}

impl CountTokensRequest {
    /// A builder starting from empty content.
    pub fn builder() -> (r: CountTokensRequestBuilder)
        ensures
            r.contents.role is None,
            r.contents.parts is None,
    {
        CountTokensRequestBuilder::new()
    }

    /// Encodes this request: the content under the single `contents` key.
    pub fn to_json(&self) -> (j: Json)
        ensures
            spec_get(j, "contents"@) matches Some(v) && spec_content_from(v) == Some(
                self.contents.deep_view(),
            ),
    {
        broadcast use crate::json::lemma_obj_get_push;

        let mut entries: Vec<(String, Json)> = Vec::new();
        entries.push((String::from_str("contents"), self.contents.to_json()));
        Json::Obj(entries)
    }
}

/// Assembles a [`CountTokensRequest`].
pub struct CountTokensRequestBuilder {
    pub contents: Content,
}

impl CountTokensRequestBuilder {
    /// A builder starting from empty content.
    pub fn new() -> (r: CountTokensRequestBuilder)
        ensures
            r.contents.role is None,
            r.contents.parts is None,
    {
        CountTokensRequestBuilder { contents: Content { role: None, parts: None } }
    }

    /// A builder whose content is the single text `prompt`.
    pub fn from_prompt(prompt: &str) -> (r: CountTokensRequestBuilder)
        ensures
            r.contents.role is None,
            r.contents.deep_view().parts == Some(seq![PartView::Text(prompt@)]),
    {
        let mut parts: Vec<crate::types::common::Part> = Vec::new();
        parts.push(crate::types::common::Part::Text(String::from_str(prompt)));
        let r = CountTokensRequestBuilder {
            contents: Content { role: None, parts: Some(parts) },
        };
        proof {
            assert(r.contents.deep_view().parts matches Some(ps) && ps =~= seq![
                PartView::Text(prompt@),
            ]);
        }
        r
    }

    /// The assembled request.
    pub fn build(self) -> (r: CountTokensRequest)
        ensures
            r.contents == self.contents,
    {
        CountTokensRequest { contents: self.contents }
    }
}

/// A decoded token-counting envelope: the counts, or a service error.
#[derive(Debug, PartialEq)]
pub enum CountTokensResponse {
    Success { total_tokens: i32, total_billable_characters: u32 },
    Failure { error: VertexApiError },
}

/// Mathematical image of [`CountTokensResponse`].
pub ghost enum CountTokensResponseView {
    Success { total_tokens: i32, total_billable_characters: u32 },
    Failure { error: VertexApiErrorView },
}

impl DeepView for CountTokensResponse {
    type V = CountTokensResponseView;

    open spec fn deep_view(&self) -> CountTokensResponseView {
        match self {
            CountTokensResponse::Success { total_tokens, total_billable_characters } => {
                CountTokensResponseView::Success {
                    total_tokens: *total_tokens,
                    total_billable_characters: *total_billable_characters,
                }
            },
            CountTokensResponse::Failure { error } => CountTokensResponseView::Failure {
                error: error.deep_view(),
            },
        }
    }
}

/// The success shape: both counts present as integers.
pub open spec fn spec_count_success_from(j: Json) -> Option<CountTokensResponseView> {
    match (spec_req_i32(j, "totalTokens"@), spec_req_u32(j, "totalBillableCharacters"@)) {
        (Some(t), Some(b)) => Some(
            CountTokensResponseView::Success {
                total_tokens: t,
                total_billable_characters: b,
            },
        ),
        _ => None,
    }
}

/// The discrimination rule: the success shape is tried first, the error
/// envelope only on its failure.
pub open spec fn spec_count_tokens_from(j: Json) -> Option<CountTokensResponseView> {
    match spec_count_success_from(j) {
        Some(v) => Some(v),
        None => match spec_get(j, "error"@) {
            Some(e) => match spec_vertex_error_from(e) {
                Some(ev) => Some(CountTokensResponseView::Failure { error: ev }),
                None => None,
            },
            None => None,
        },
    }
}

impl CountTokensResponse {
    /// Decodes one envelope by structural probing.
    pub fn from_json(j: &Json) -> (r: Option<CountTokensResponse>)
        ensures
            match r {
                Some(resp) => spec_count_tokens_from(*j) == Some(resp.deep_view()),
                None => spec_count_tokens_from(*j) is None,
            },
    {
        let total_tokens = j.req_i32("totalTokens");
        let total_billable_characters = j.req_u32("totalBillableCharacters");
        match (total_tokens, total_billable_characters) {
            (Some(t), Some(b)) => {
                return Some(
                    CountTokensResponse::Success {
                        total_tokens: t,
                        total_billable_characters: b,
                    },
                );
            },
            _ => {},
        }
        let e = match j.get("error") {
            Some(e) => e,
            None => { return None },
        };
        match VertexApiError::from_json(e) {
            Some(error) => Some(CountTokensResponse::Failure { error }),
            None => None,
        }
    }

    /// Parses and decodes one whole body.
    pub fn from_text(s: &str) -> (r: Result<CountTokensResponse, Error>)
        ensures
            match parsed_json(s@) {
                Some(j) => match spec_count_tokens_from(j) {
                    Some(v) => r matches Ok(resp) && resp.deep_view() == v,
                    None => r matches Err(e) && e.deep_view() == crate::error::ErrorView::Serde(
                        s@,
                    ),
                },
                None => r matches Err(e) && e.deep_view() == crate::error::ErrorView::Serde(s@),
            },
    {
        match parse_json(s) {
            Some(j) => match CountTokensResponse::from_json(&j) {
                Some(resp) => Ok(resp),
                None => Err(Error::Serde(String::from_str(s))),
            },
            None => Err(Error::Serde(String::from_str(s))),
        }
    }
}

} // verus!
