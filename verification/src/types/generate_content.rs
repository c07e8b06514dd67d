//! Content generation: the request shape, the response envelope, and the
//! discrimination of a success payload from a structured service error.

use vstd::prelude::*;

use crate::error::Error;
use crate::json::{
    parse_json, parsed_json, spec_bound_str, spec_get, spec_num_text, spec_opt_i32, spec_opt_str,
    spec_opt_u32, spec_req_arr, spec_str_arr, str_arr, Json,
};
use crate::types::common::{spec_content_from, Content, ContentView, Part, PartView, Role};
use crate::types::error::{spec_vertex_error_from, VertexApiError, VertexApiErrorView};

verus! {

/// Token counts of a call; stream frames may omit any of them.
#[derive(Clone, Copy, Debug, PartialEq)]
pub struct UsageMetadata {
    pub candidates_token_count: Option<u32>,
    pub prompt_token_count: Option<u32>,
    pub total_token_count: Option<u32>,
}

impl DeepView for UsageMetadata {
    type V = UsageMetadata;

    open spec fn deep_view(&self) -> UsageMetadata {
        *self
    }
}

/// One safety verdict on a candidate.  The numeric scores are kept as the
/// decimal literals received, since the library never computes with them.
#[derive(Clone, Debug, PartialEq)]
pub struct SafetyRating {
    pub category: String,
    pub probability: String,
    pub probability_score: Option<String>,
    pub severity: String,
    pub severity_score: Option<String>,
}

/// Mathematical image of [`SafetyRating`].
pub ghost struct SafetyRatingView {
    pub category: Seq<char>,
    pub probability: Seq<char>,
    pub probability_score: Option<Seq<char>>,
    pub severity: Seq<char>,
    pub severity_score: Option<Seq<char>>,
}

impl DeepView for SafetyRating {
    type V = SafetyRatingView;

    open spec fn deep_view(&self) -> SafetyRatingView {
        SafetyRatingView {
            category: self.category.deep_view(),
            probability: self.probability.deep_view(),
            probability_score: match self.probability_score {
                Some(ref s) => Some(s.deep_view()),
                None => None,
            },
            severity: self.severity.deep_view(),
            severity_score: match self.severity_score {
                Some(ref s) => Some(s.deep_view()),
                None => None,
            },
        }
    }
}

/// One source citation; every bound may be absent.
#[derive(Clone, Debug, PartialEq)]
pub struct Citation {
    pub start_index: Option<i32>,
    pub end_index: Option<i32>,
    pub uri: Option<String>,
}

/// Mathematical image of [`Citation`].
pub ghost struct CitationView {
    pub start_index: Option<i32>,
    pub end_index: Option<i32>,
    pub uri: Option<Seq<char>>,
}

impl DeepView for Citation {
    type V = CitationView;

    open spec fn deep_view(&self) -> CitationView {
        CitationView {
            start_index: self.start_index,
            end_index: self.end_index,
            uri: match self.uri {
                Some(ref s) => Some(s.deep_view()),
                None => None,
            },
        }
    }
}

/// The citations attached to a candidate.
#[derive(Clone, Debug, PartialEq)]
pub struct CitationMetadata {
    pub citations: Vec<Citation>,
}

/// Mathematical image of [`CitationMetadata`].
pub ghost struct CitationMetadataView {
    pub citations: Seq<CitationView>,
}

impl DeepView for CitationMetadata {
    type V = CitationMetadataView;

    open spec fn deep_view(&self) -> CitationMetadataView {
        CitationMetadataView { citations: self.citations.deep_view() }
    }
}

/// One generated candidate.  Content is absent when output was blocked;
/// a present finish reason signals the end of a logical generation turn.
#[derive(Clone, Debug, PartialEq)]
pub struct Candidate {
    pub content: Option<Content>,
    pub citation_metadata: Option<CitationMetadata>,
    pub safety_ratings: Option<Vec<SafetyRating>>,
    pub finish_reason: Option<String>,
}

/// Mathematical image of [`Candidate`].
pub ghost struct CandidateView {
    pub content: Option<ContentView>,
    pub citation_metadata: Option<CitationMetadataView>,
    pub safety_ratings: Option<Seq<SafetyRatingView>>,
    pub finish_reason: Option<Seq<char>>,
}

impl DeepView for Candidate {
    type V = CandidateView;

    open spec fn deep_view(&self) -> CandidateView {
        CandidateView {
            content: match self.content {
                Some(ref c) => Some(c.deep_view()),
                None => None,
            },
            citation_metadata: match self.citation_metadata {
                Some(ref m) => Some(m.deep_view()),
                None => None,
            },
            safety_ratings: match self.safety_ratings {
                Some(ref rs) => Some(rs.deep_view()),
                None => None,
            },
            finish_reason: match self.finish_reason {
                Some(ref f) => Some(f.deep_view()),
                None => None,
            },
        }
    }
}

/// The payload of a successful generation response or stream chunk.
#[derive(Clone, Debug, PartialEq)]
pub struct GenerateContentResponseResult {
    pub candidates: Vec<Candidate>,
    pub usage_metadata: Option<UsageMetadata>,
}

/// Mathematical image of [`GenerateContentResponseResult`].
pub ghost struct GenerateContentResponseResultView {
    pub candidates: Seq<CandidateView>,
    pub usage_metadata: Option<UsageMetadata>,
}

impl DeepView for GenerateContentResponseResult {
    type V = GenerateContentResponseResultView;

    open spec fn deep_view(&self) -> GenerateContentResponseResultView {
        GenerateContentResponseResultView {
            candidates: self.candidates.deep_view(),
            usage_metadata: self.usage_metadata,
        }
    }
}

/// The error envelope: a service error under a single top-level key.
#[derive(Clone, Debug, PartialEq)]
pub struct GenerateContentResponseError {
    pub error: VertexApiError,
}

/// Mathematical image of [`GenerateContentResponseError`].
pub ghost struct GenerateContentResponseErrorView {
    pub error: VertexApiErrorView,
}

impl DeepView for GenerateContentResponseError {
    type V = GenerateContentResponseErrorView;

    open spec fn deep_view(&self) -> GenerateContentResponseErrorView {
        GenerateContentResponseErrorView { error: self.error.deep_view() }
    }
}

/// A decoded envelope: either a success payload or a service error.
#[derive(Debug, PartialEq)]
pub enum GenerateContentResponse {
    Success(GenerateContentResponseResult),
    Failure(GenerateContentResponseError),
}

/// Mathematical image of [`GenerateContentResponse`].
pub ghost enum GenerateContentResponseView {
    Success(GenerateContentResponseResultView),
    Failure(GenerateContentResponseErrorView),
}

impl DeepView for GenerateContentResponse {
    type V = GenerateContentResponseView;

    open spec fn deep_view(&self) -> GenerateContentResponseView {
        match self {
            GenerateContentResponse::Success(r) => GenerateContentResponseView::Success(r.deep_view()),
            GenerateContentResponse::Failure(e) => GenerateContentResponseView::Failure(e.deep_view()),
        }
    }
}

/// The usage metadata an object decodes to: every count is optional, so
/// the empty object decodes with all counts absent.
pub open spec fn spec_usage_from(j: Json) -> Option<UsageMetadata> {
    match j {
        Json::Obj(_) => match (
            spec_opt_u32(j, "candidatesTokenCount"@),
            spec_opt_u32(j, "promptTokenCount"@),
            spec_opt_u32(j, "totalTokenCount"@),
        ) {
            (Some(c), Some(p), Some(t)) => Some(
                UsageMetadata {
                    candidates_token_count: c,
                    prompt_token_count: p,
                    total_token_count: t,
                },
            ),
            _ => None,
        },
        _ => None,
    }
}

/// An optional score field: absent or null is no score; a number keeps
/// its decimal text; anything else is malformed.
pub open spec fn spec_opt_score(j: Json, key: Seq<char>) -> Option<Option<Seq<char>>> {
    match spec_get(j, key) {
        None => Some(None),
        Some(Json::Null) => Some(None),
        Some(v) => match spec_num_text(v) {
            Some(t) => Some(Some(t)),
            None => None,
        },
    }
}

/// The safety rating an object decodes to: category, probability and
/// severity are required strings; the two scores are optional numbers.
pub open spec fn spec_safety_rating_from(j: Json) -> Option<SafetyRatingView> {
    match (
        crate::json::spec_req_str(j, "category"@),
        crate::json::spec_req_str(j, "probability"@),
        crate::json::spec_req_str(j, "severity"@),
    ) {
        (Some(c), Some(p), Some(s)) => match (
            spec_opt_score(j, "probabilityScore"@),
            spec_opt_score(j, "severityScore"@),
        ) {
            (Some(ps), Some(ss)) => Some(
                SafetyRatingView {
                    category: c@,
                    probability: p@,
                    probability_score: ps,
                    severity: s@,
                    severity_score: ss,
                },
            ),
            _ => None,
        },
        _ => None,
    }
}

/// The safety ratings an array decodes to.
pub open spec fn spec_safety_ratings_from(s: Seq<Json>) -> Option<Seq<SafetyRatingView>> {
    if forall|k: int| 0 <= k < s.len() ==> spec_safety_rating_from(#[trigger] s[k]) is Some {
        Some(Seq::new(s.len(), |k: int| spec_safety_rating_from(s[k])->0))
    } else {
        None
    }
}

/// The citation an object decodes to: every field is optional, so a
/// citation missing its start index still decodes.
pub open spec fn spec_citation_from(j: Json) -> Option<CitationView> {
    match j {
        Json::Obj(_) => match (
            spec_opt_i32(j, "startIndex"@),
            spec_opt_i32(j, "endIndex"@),
            spec_opt_str(j, "uri"@),
        ) {
            (Some(s), Some(e), Some(u)) => Some(
                CitationView {
                    start_index: s,
                    end_index: e,
                    uri: match u {
                        Some(us) => Some(us@),
                        None => None,
                    },
                },
            ),
            _ => None,
        },
        _ => None,
    }
}

/// The citations an array decodes to.
pub open spec fn spec_citations_from(s: Seq<Json>) -> Option<Seq<CitationView>> {
    if forall|k: int| 0 <= k < s.len() ==> spec_citation_from(#[trigger] s[k]) is Some {
        Some(Seq::new(s.len(), |k: int| spec_citation_from(s[k])->0))
    } else {
        None
    }
}

/// The citation metadata an object decodes to: the array is required.
pub open spec fn spec_citation_metadata_from(j: Json) -> Option<CitationMetadataView> {
    match spec_req_arr(j, "citations"@) {
        Some(elems) => match spec_citations_from(elems) {
            Some(cs) => Some(CitationMetadataView { citations: cs }),
            None => None,
        },
        None => None,
    }
}

/// The candidate an object decodes to: every field is optional, so a
/// blocked candidate with no content but a finish reason still decodes.
pub open spec fn spec_candidate_from(j: Json) -> Option<CandidateView> {
    match j {
        Json::Obj(_) => {
            let content = match spec_get(j, "content"@) {
                None => Some(None),
                Some(Json::Null) => Some(None),
                Some(c) => match spec_content_from(c) {
                    Some(cv) => Some(Some(cv)),
                    None => None,
                },
            };
            let citation_metadata = match spec_get(j, "citationMetadata"@) {
                None => Some(None),
                Some(Json::Null) => Some(None),
                Some(m) => match spec_citation_metadata_from(m) {
                    Some(mv) => Some(Some(mv)),
                    None => None,
                },
            };
            let safety_ratings = match crate::json::spec_opt_arr(j, "safetyRatings"@) {
                Some(None) => Some(None),
                Some(Some(elems)) => match spec_safety_ratings_from(elems) {
                    Some(rs) => Some(Some(rs)),
                    None => None,
                },
                None => None,
            };
            let finish_reason = spec_opt_str(j, "finishReason"@);
            match (content, citation_metadata, safety_ratings, finish_reason) {
                (Some(c), Some(m), Some(r), Some(f)) => Some(
                    CandidateView {
                        content: c,
                        citation_metadata: m,
                        safety_ratings: r,
                        finish_reason: match f {
                            Some(fs) => Some(fs@),
                            None => None,
                        },
                    },
                ),
                _ => None,
            }
        },
        _ => None,
    }
}

/// The candidates an array decodes to.
pub open spec fn spec_candidates_from(s: Seq<Json>) -> Option<Seq<CandidateView>> {
    if forall|k: int| 0 <= k < s.len() ==> spec_candidate_from(#[trigger] s[k]) is Some {
        Some(Seq::new(s.len(), |k: int| spec_candidate_from(s[k])->0))
    } else {
        None
    }
}

/// The success payload an envelope decodes to: the candidate array is
/// required; usage metadata is optional and may be the empty object.
pub open spec fn spec_result_from(j: Json) -> Option<GenerateContentResponseResultView> {
    match spec_req_arr(j, "candidates"@) {
        Some(elems) => match spec_candidates_from(elems) {
            Some(cs) => match spec_get(j, "usageMetadata"@) {
                None => Some(
                    GenerateContentResponseResultView { candidates: cs, usage_metadata: None },
                ),
                Some(Json::Null) => Some(
                    GenerateContentResponseResultView { candidates: cs, usage_metadata: None },
                ),
                Some(u) => match spec_usage_from(u) {
                    Some(um) => Some(
                        GenerateContentResponseResultView {
                            candidates: cs,
                            usage_metadata: Some(um),
                        },
                    ),
                    None => None,
                },
            },
            None => None,
        },
        None => None,
    }
}

/// The error envelope a value decodes to: a service error under the
/// single top-level `error` key.
pub open spec fn spec_error_envelope_from(j: Json) -> Option<GenerateContentResponseErrorView> {
    match spec_get(j, "error"@) {
        Some(e) => match spec_vertex_error_from(e) {
            Some(ev) => Some(GenerateContentResponseErrorView { error: ev }),
            None => None,
        },
        None => None,
    }
}

/// The discrimination rule of the untagged envelope: try the success
/// shape first; only when it fails, fall back to the error shape.
pub open spec fn spec_response_from(j: Json) -> Option<GenerateContentResponseView> {
    match spec_result_from(j) {
        Some(res) => Some(GenerateContentResponseView::Success(res)),
        None => match spec_error_envelope_from(j) {
            Some(err) => Some(GenerateContentResponseView::Failure(err)),
            None => None,
        },
    }
}

fn usage_from(j: &Json) -> (r: Option<UsageMetadata>)
    ensures
        r == spec_usage_from(*j),
{
    match j {
        Json::Obj(_) => {},
        _ => { return None },
    }
    let candidates_token_count = match j.opt_u32("candidatesTokenCount") {
        Some(c) => c,
        None => { return None },
    };
    let prompt_token_count = match j.opt_u32("promptTokenCount") {
        Some(p) => p,
        None => { return None },
    };
    let total_token_count = match j.opt_u32("totalTokenCount") {
        Some(t) => t,
        None => { return None },
    };
    Some(UsageMetadata { candidates_token_count, prompt_token_count, total_token_count })
}

fn opt_score(j: &Json, key: &str) -> (r: Option<Option<String>>)
    ensures
        match r {
            Some(Some(s)) => spec_opt_score(*j, key@) == Some(Some(s@)),
            Some(None) => spec_opt_score(*j, key@) == Some(Option::<Seq<char>>::None),
            None => spec_opt_score(*j, key@) is None,
        },
{
    match j.get(key) {
        None => Some(None),
        Some(Json::Null) => Some(None),
        Some(v) => match v.num_text() {
            Some(t) => Some(Some(t)),
            None => None,
        },
    }
}

fn safety_rating_from(j: &Json) -> (r: Option<SafetyRating>)
    ensures
        match r {
            Some(sr) => spec_safety_rating_from(*j) == Some(sr.deep_view()),
            None => spec_safety_rating_from(*j) is None,
        },
{
    let category = match j.req_str("category") {
        Some(c) => c,
        None => { return None },
    };
    let probability = match j.req_str("probability") {
        Some(p) => p,
        None => { return None },
    };
    let severity = match j.req_str("severity") {
        Some(s) => s,
        None => { return None },
    };
    let probability_score = match opt_score(j, "probabilityScore") {
        Some(ps) => ps,
        None => { return None },
    };
    let severity_score = match opt_score(j, "severityScore") {
        Some(ss) => ss,
        None => { return None },
    };
    Some(SafetyRating { category, probability, probability_score, severity, severity_score })
}

fn safety_ratings_from(elems: &Vec<Json>) -> (r: Option<Vec<SafetyRating>>)
    ensures
        match r {
            Some(v) => spec_safety_ratings_from(elems@) == Some(v.deep_view()),
            None => spec_safety_ratings_from(elems@) is None,
        },
{
    let mut out: Vec<SafetyRating> = Vec::new();
    let n = elems.len();
    let mut i: usize = 0;
    while i < n
        invariant
            i <= n,
            n == elems@.len(),
            out@.len() == i,
            forall|k: int|
                0 <= k < i ==> spec_safety_rating_from(#[trigger] elems@[k]) == Some(
                    out@[k].deep_view(),
                ),
        decreases n - i,
    {
        match safety_rating_from(&elems[i]) {
            Some(sr) => { out.push(sr) },
            None => {
                assert(spec_safety_rating_from(elems@[i as int]) is None);
                return None;
            },
        }
        i = i + 1;
    }
    assert(spec_safety_ratings_from(elems@) matches Some(s) && s =~= out.deep_view());
    Some(out)
}

fn citation_from(j: &Json) -> (r: Option<Citation>)
    ensures
        match r {
            Some(c) => spec_citation_from(*j) == Some(c.deep_view()),
            None => spec_citation_from(*j) is None,
        },
{
    match j {
        Json::Obj(_) => {},
        _ => { return None },
    }
    let start_index = match j.opt_i32("startIndex") {
        Some(s) => s,
        None => { return None },
    };
    let end_index = match j.opt_i32("endIndex") {
        Some(e) => e,
        None => { return None },
    };
    let uri = match j.opt_str("uri") {
        Some(u) => u,
        None => { return None },
    };
    Some(Citation { start_index, end_index, uri })
}

fn citations_from(elems: &Vec<Json>) -> (r: Option<Vec<Citation>>)
    ensures
        match r {
            Some(v) => spec_citations_from(elems@) == Some(v.deep_view()),
            None => spec_citations_from(elems@) is None,
        },
{
    let mut out: Vec<Citation> = Vec::new();
    let n = elems.len();
    let mut i: usize = 0;
    while i < n
        invariant
            i <= n,
            n == elems@.len(),
            out@.len() == i,
            forall|k: int|
                0 <= k < i ==> spec_citation_from(#[trigger] elems@[k]) == Some(
                    out@[k].deep_view(),
                ),
        decreases n - i,
    {
        match citation_from(&elems[i]) {
            Some(c) => { out.push(c) },
            None => {
                assert(spec_citation_from(elems@[i as int]) is None);
                return None;
            },
        }
        i = i + 1;
    }
    assert(spec_citations_from(elems@) matches Some(s) && s =~= out.deep_view());
    Some(out)
}

fn citation_metadata_from(j: &Json) -> (r: Option<CitationMetadata>)
    ensures
        match r {
            Some(m) => spec_citation_metadata_from(*j) == Some(m.deep_view()),
            None => spec_citation_metadata_from(*j) is None,
        },
{
    let elems = match j.req_arr("citations") {
        Some(e) => e,
        None => { return None },
    };
    match citations_from(elems) {
        Some(citations) => Some(CitationMetadata { citations }),
        None => None,
    }
}

fn candidate_from(j: &Json) -> (r: Option<Candidate>)
    ensures
        match r {
            Some(c) => spec_candidate_from(*j) == Some(c.deep_view()),
            None => spec_candidate_from(*j) is None,
        },
{
    match j {
        Json::Obj(_) => {},
        _ => { return None },
    }
    let content: Option<Content> = match j.get("content") {
        None => None,
        Some(Json::Null) => None,
        Some(c) => match Content::from_json(c) {
            Some(cv) => Some(cv),
            None => { return None },
        },
    };
    let citation_metadata: Option<CitationMetadata> = match j.get("citationMetadata") {
        None => None,
        Some(Json::Null) => None,
        Some(m) => match citation_metadata_from(m) {
            Some(mv) => Some(mv),
            None => { return None },
        },
    };
    let safety_ratings: Option<Vec<SafetyRating>> = match j.opt_arr("safetyRatings") {
        Some(None) => None,
        Some(Some(elems)) => match safety_ratings_from(elems) {
            Some(rs) => Some(rs),
            None => { return None },
        },
        None => { return None },
    };
    let finish_reason: Option<String> = match j.opt_str("finishReason") {
        Some(f) => f,
        None => { return None },
    };
    Some(Candidate { content, citation_metadata, safety_ratings, finish_reason })
}

fn candidates_from(elems: &Vec<Json>) -> (r: Option<Vec<Candidate>>)
    ensures
        match r {
            Some(v) => spec_candidates_from(elems@) == Some(v.deep_view()),
            None => spec_candidates_from(elems@) is None,
        },
{
    let mut out: Vec<Candidate> = Vec::new();
    let n = elems.len();
    let mut i: usize = 0;
    while i < n
        invariant
            i <= n,
            n == elems@.len(),
            out@.len() == i,
            forall|k: int|
                0 <= k < i ==> spec_candidate_from(#[trigger] elems@[k]) == Some(
                    out@[k].deep_view(),
                ),
        decreases n - i,
    {
        match candidate_from(&elems[i]) {
            Some(c) => { out.push(c) },
            None => {
                assert(spec_candidate_from(elems@[i as int]) is None);
                return None;
            },
        }
        i = i + 1;
    }
    assert(spec_candidates_from(elems@) matches Some(s) && s =~= out.deep_view());
    Some(out)
}

impl GenerateContentResponseResult {
    /// Decodes the success shape: `candidates` must be present and every
    /// candidate must decode; `usageMetadata` may be absent, null, or an
    /// object with every count optional.
    pub fn from_json(j: &Json) -> (r: Option<GenerateContentResponseResult>)
        ensures
            match r {
                Some(res) => spec_result_from(*j) == Some(res.deep_view()),
                None => spec_result_from(*j) is None,
            },
    {
        let elems = match j.req_arr("candidates") {
            Some(e) => e,
            None => { return None },
        };
        let candidates = match candidates_from(elems) {
            Some(cs) => cs,
            None => { return None },
        };
        let usage_metadata: Option<UsageMetadata> = match j.get("usageMetadata") {
            None => None,
            Some(Json::Null) => None,
            Some(u) => match usage_from(u) {
                Some(um) => Some(um),
                None => { return None },
            },
        };
        Some(GenerateContentResponseResult { candidates, usage_metadata })
    }
}

impl GenerateContentResponseError {
    /// Decodes the error shape: a service error under the `error` key.
    pub fn from_json(j: &Json) -> (r: Option<GenerateContentResponseError>)
        ensures
            match r {
                Some(e) => spec_error_envelope_from(*j) == Some(e.deep_view()),
                None => spec_error_envelope_from(*j) is None,
            },
    {
        let e = match j.get("error") {
            Some(e) => e,
            None => { return None },
        };
        match VertexApiError::from_json(e) {
            Some(error) => Some(GenerateContentResponseError { error }),
            None => None,
        }
    }
}

impl GenerateContentResponse {
    /// Decodes one envelope by structural probing: the success shape is
    /// tried first, and only on its failure the error shape.
    pub fn from_json(j: &Json) -> (r: Option<GenerateContentResponse>)
        ensures
            match r {
                Some(resp) => spec_response_from(*j) == Some(resp.deep_view()),
                None => spec_response_from(*j) is None,
            },
    {
        match GenerateContentResponseResult::from_json(j) {
            Some(res) => Some(GenerateContentResponse::Success(res)),
            None => match GenerateContentResponseError::from_json(j) {
                Some(err) => Some(GenerateContentResponse::Failure(err)),
                None => None,
            },
        }
    }

    /// Parses and decodes one whole body.  A body that is not JSON, or
    /// whose tree matches neither shape, is a decode failure carrying
    /// the raw text.
    pub fn from_text(s: &str) -> (r: Result<GenerateContentResponse, Error>)
        ensures
            match parsed_json(s@) {
                Some(j) => match spec_response_from(j) {
                    Some(v) => r matches Ok(resp) && resp.deep_view() == v,
                    None => r matches Err(e) && e.deep_view() == crate::error::ErrorView::Serde(
                        s@,
                    ),
                },
                None => r matches Err(e) && e.deep_view() == crate::error::ErrorView::Serde(s@),
            },
    {
        match parse_json(s) {
            Some(j) => match GenerateContentResponse::from_json(&j) {
                Some(resp) => Ok(resp),
                None => Err(Error::Serde(String::from_str(s))),
            },
            None => Err(Error::Serde(String::from_str(s))),
        }
    }

    /// The envelope as a result: a success payload stays a success, an
    /// error envelope becomes the service-error variant.
    pub fn into_result(self) -> (r: Result<GenerateContentResponseResult, Error>)
        ensures
            match self {
                GenerateContentResponse::Success(res) => r == Ok::<
                    GenerateContentResponseResult,
                    Error,
                >(res),
                GenerateContentResponse::Failure(err) => r == Err::<
                    GenerateContentResponseResult,
                    Error,
                >(Error::VertexError(err.error)),
            },
    {
        match self {
            GenerateContentResponse::Success(res) => Ok(res),
            GenerateContentResponse::Failure(err) => Err(Error::VertexError(err.error)),
        }
    }
}

impl Candidate {
    /// The concatenated text of this candidate's content, when any.
    pub fn get_text(&self) -> (r: Option<String>)
        ensures
            match self.deep_view().content {
                Some(cv) => match r {
                    Some(s) => cv.text() == Some(s@),
                    None => cv.text() is None,
                },
                None => r is None,
            },
    {
        match &self.content {
            Some(content) => content.get_text(),
            None => None,
        }
    }
}

/// The category a safety setting applies to.
#[derive(Clone, Copy, Debug, PartialEq, Eq, Structural)]
pub enum HarmCategory {
    Unspecified,
    HateSpeech,
    DangerousContent,
    Harassment,
    SexuallyExplicit,
}

/// The wire name of a harm category.
pub open spec fn spec_harm_category_text(c: HarmCategory) -> Seq<char> {
    match c {
        HarmCategory::Unspecified => "HARM_CATEGORY_UNSPECIFIED"@,
        HarmCategory::HateSpeech => "HARM_CATEGORY_HATE_SPEECH"@,
        HarmCategory::DangerousContent => "HARM_CATEGORY_DANGEROUS_CONTENT"@,
        HarmCategory::Harassment => "HARM_CATEGORY_HARASSMENT"@,
        HarmCategory::SexuallyExplicit => "HARM_CATEGORY_SEXUALLY_EXPLICIT"@,
    }
}

impl HarmCategory {
    /// The wire name of this category.
    pub fn as_str(&self) -> (r: &'static str)
        ensures
            r@ == spec_harm_category_text(*self),
    {
        match self {
            HarmCategory::Unspecified => "HARM_CATEGORY_UNSPECIFIED",
            HarmCategory::HateSpeech => "HARM_CATEGORY_HATE_SPEECH",
            HarmCategory::DangerousContent => "HARM_CATEGORY_DANGEROUS_CONTENT",
            HarmCategory::Harassment => "HARM_CATEGORY_HARASSMENT",
            HarmCategory::SexuallyExplicit => "HARM_CATEGORY_SEXUALLY_EXPLICIT",
        }
    }
}

/// How much a safety setting blocks.
#[derive(Clone, Copy, Debug, PartialEq, Eq, Structural)]
pub enum HarmBlockThreshold {
    Unspecified,
    BlockLowAndAbove,
    BlockMediumAndAbove,
    BlockOnlyHigh,
    BlockNone,
}

/// The wire name of a block threshold.
pub open spec fn spec_harm_block_threshold_text(t: HarmBlockThreshold) -> Seq<char> {
    match t {
        HarmBlockThreshold::Unspecified => "HARM_BLOCK_THRESHOLD_UNSPECIFIED"@,
        HarmBlockThreshold::BlockLowAndAbove => "BLOCK_LOW_AND_ABOVE"@,
        HarmBlockThreshold::BlockMediumAndAbove => "BLOCK_MEDIUM_AND_ABOVE"@,
        HarmBlockThreshold::BlockOnlyHigh => "BLOCK_ONLY_HIGH"@,
        HarmBlockThreshold::BlockNone => "BLOCK_NONE"@,
    }
}

impl HarmBlockThreshold {
    /// The wire name of this threshold.
    pub fn as_str(&self) -> (r: &'static str)
        ensures
            r@ == spec_harm_block_threshold_text(*self),
    {
        match self {
            HarmBlockThreshold::Unspecified => "HARM_BLOCK_THRESHOLD_UNSPECIFIED",
            HarmBlockThreshold::BlockLowAndAbove => "BLOCK_LOW_AND_ABOVE",
            HarmBlockThreshold::BlockMediumAndAbove => "BLOCK_MEDIUM_AND_ABOVE",
            HarmBlockThreshold::BlockOnlyHigh => "BLOCK_ONLY_HIGH",
            HarmBlockThreshold::BlockNone => "BLOCK_NONE",
        }
    }
}

/// How a safety verdict is computed.
#[derive(Clone, Copy, Debug, PartialEq, Eq, Structural)]
pub enum HarmBlockMethod {
    Unspecified,
    Severity,
    Probability,
}

/// The wire name of a block method.
pub open spec fn spec_harm_block_method_text(m: HarmBlockMethod) -> Seq<char> {
    match m {
        HarmBlockMethod::Unspecified => "HARM_BLOCK_METHOD_UNSPECIFIED"@,
        HarmBlockMethod::Severity => "SEVERITY"@,
        HarmBlockMethod::Probability => "PROBABILITY"@,
    }
}

impl HarmBlockMethod {
    /// The wire name of this method.
    pub fn as_str(&self) -> (r: &'static str)
        ensures
            r@ == spec_harm_block_method_text(*self),
    {
        match self {
            HarmBlockMethod::Unspecified => "HARM_BLOCK_METHOD_UNSPECIFIED",
            HarmBlockMethod::Severity => "SEVERITY",
            HarmBlockMethod::Probability => "PROBABILITY",
        }
    }
}

/// One safety rule of a request: a category, a threshold, and an
/// optional method.
#[derive(Clone, Copy, Debug, PartialEq, Eq, Structural)]
pub struct SafetySetting {
    pub category: HarmCategory,
    pub threshold: HarmBlockThreshold,
    pub method: Option<HarmBlockMethod>,
}

/// Whether `v` encodes the safety setting `s`: category and threshold
/// bound to their wire names, the method bound exactly when set.
pub open spec fn spec_safety_setting_json_ok(v: Json, s: SafetySetting) -> bool {
    &&& spec_bound_str(v, "category"@, spec_harm_category_text(s.category))
    &&& spec_bound_str(v, "threshold"@, spec_harm_block_threshold_text(s.threshold))
    &&& match s.method {
        Some(m) => spec_bound_str(v, "method"@, spec_harm_block_method_text(m)),
        None => spec_get(v, "method"@) is None,
    }
}

impl SafetySetting {
    /// Encodes this safety setting, leaving an unset method off the wire.
    pub fn to_json(&self) -> (j: Json)
        ensures
            spec_safety_setting_json_ok(j, *self),
    {
        broadcast use crate::json::lemma_obj_get_push;

        proof {
            reveal_strlit("category");
            reveal_strlit("threshold");
            reveal_strlit("method");
            assert("category"@.len() == 8);
            assert("threshold"@.len() == 9);
            assert("method"@.len() == 6);
        }
        let mut entries: Vec<(String, Json)> = Vec::new();
        entries.push((String::from_str("category"), Json::Str(String::from_str(
            self.category.as_str(),
        ))));
        entries.push((String::from_str("threshold"), Json::Str(String::from_str(
            self.threshold.as_str(),
        ))));
        match self.method {
            Some(m) => {
                entries.push((String::from_str("method"), Json::Str(String::from_str(
                    m.as_str(),
                ))));
            },
            None => {},
        }
        Json::Obj(entries)
    }
}

/// One property of a function's parameter schema.
#[derive(Clone, Debug, PartialEq)]
pub struct FunctionParametersProperty {
    pub schema_type: String,
    pub description: String,
}

/// Whether `v` encodes the property `p`.
pub open spec fn spec_property_json_ok(v: Json, p: FunctionParametersProperty) -> bool {
    &&& spec_get(v, "type"@) == Some(Json::Str(p.schema_type))
    &&& spec_get(v, "description"@) == Some(Json::Str(p.description))
}

impl FunctionParametersProperty {
    /// Encodes this property.
    pub fn to_json(&self) -> (j: Json)
        ensures
            spec_property_json_ok(j, *self),
    {
        broadcast use crate::json::lemma_obj_get_push;

        proof {
            reveal_strlit("type");
            reveal_strlit("description");
            assert("type"@.len() == 4);
            assert("description"@.len() == 11);
        }
        let mut entries: Vec<(String, Json)> = Vec::new();
        entries.push((String::from_str("type"), Json::Str(self.schema_type.clone())));
        entries.push((String::from_str("description"), Json::Str(self.description.clone())));
        Json::Obj(entries)
    }
}

/// The parameter schema of a declared function.
#[derive(Clone, Debug, PartialEq)]
pub struct FunctionParameters {
    pub schema_type: String,
    pub properties: Vec<(String, FunctionParametersProperty)>,
    pub required: Vec<String>,
}

/// Whether `v` encodes the parameters `p`: the type string, the
/// properties as an object in order, the required names as an array.
pub open spec fn spec_parameters_json_ok(v: Json, p: FunctionParameters) -> bool {
    &&& spec_get(v, "type"@) == Some(Json::Str(p.schema_type))
    &&& match spec_get(v, "properties"@) {
        Some(Json::Obj(pe)) => pe@.len() == p.properties@.len() && forall|k: int|
            0 <= k < p.properties@.len() ==> (#[trigger] pe@[k]).0 == p.properties@[k].0
                && spec_property_json_ok(pe@[k].1, p.properties@[k].1),
        _ => false,
    }
    &&& match spec_get(v, "required"@) {
        Some(r) => spec_str_arr(r, p.required@),
        None => false,
    }
}

impl FunctionParameters {
    /// Encodes this parameter schema.
    pub fn to_json(&self) -> (j: Json)
        ensures
            spec_parameters_json_ok(j, *self),
    {
        broadcast use crate::json::lemma_obj_get_push;

        proof {
            reveal_strlit("type");
            reveal_strlit("properties");
            reveal_strlit("required");
            assert("type"@.len() == 4);
            assert("properties"@.len() == 10);
            assert("required"@.len() == 8);
        }
        let mut pe: Vec<(String, Json)> = Vec::new();
        let n = self.properties.len();
        let mut i: usize = 0;
        while i < n
            invariant
                i <= n,
                n == self.properties@.len(),
                pe@.len() == i,
                forall|k: int|
                    0 <= k < i ==> (#[trigger] pe@[k]).0 == self.properties@[k].0
                        && spec_property_json_ok(pe@[k].1, self.properties@[k].1),
            decreases n - i,
        {
            let pj = self.properties[i].1.to_json();
            pe.push((self.properties[i].0.clone(), pj));
            i = i + 1;
        }
        let mut entries: Vec<(String, Json)> = Vec::new();
        entries.push((String::from_str("type"), Json::Str(self.schema_type.clone())));
        entries.push((String::from_str("properties"), Json::Obj(pe)));
        entries.push((String::from_str("required"), str_arr(&self.required)));
        Json::Obj(entries)
    }
}

/// One function made available to the model.
#[derive(Clone, Debug, PartialEq)]
pub struct FunctionDeclaration {
    pub name: String,
    pub description: String,
    pub parameters: FunctionParameters,
}

/// Whether `v` encodes the declaration `d`.
pub open spec fn spec_declaration_json_ok(v: Json, d: FunctionDeclaration) -> bool {
    &&& spec_get(v, "name"@) == Some(Json::Str(d.name))
    &&& spec_get(v, "description"@) == Some(Json::Str(d.description))
    &&& match spec_get(v, "parameters"@) {
        Some(p) => spec_parameters_json_ok(p, d.parameters),
        None => false,
    }
}

impl FunctionDeclaration {
    /// Encodes this declaration.
    pub fn to_json(&self) -> (j: Json)
        ensures
            spec_declaration_json_ok(j, *self),
    {
        broadcast use crate::json::lemma_obj_get_push;

        proof {
            reveal_strlit("name");
            reveal_strlit("description");
            reveal_strlit("parameters");
            assert("name"@.len() == 4);
            assert("description"@.len() == 11);
            assert("parameters"@.len() == 10);
            assert("description"@[0] == 'd' && "parameters"@[0] == 'p');
        }
        let mut entries: Vec<(String, Json)> = Vec::new();
        entries.push((String::from_str("name"), Json::Str(self.name.clone())));
        entries.push((String::from_str("description"), Json::Str(self.description.clone())));
        entries.push((String::from_str("parameters"), self.parameters.to_json()));
        Json::Obj(entries)
    }
}

/// A plain web-search tool; it has no configuration.
#[derive(Clone, Copy, Debug, PartialEq, Eq, Structural, Default)]
pub struct GoogleSearch {}

/// How search retrieval decides whether to run.
#[derive(Clone, Debug, PartialEq)]
pub struct DynamicRetrievalConfig {
    pub mode: String,
    /// The retrieval threshold, kept as its decimal literal; the library
    /// never computes with it.
    pub dynamic_threshold: Option<String>,
}

impl Default for DynamicRetrievalConfig {
    /// Dynamic mode with the service's default threshold.
    fn default() -> (r: DynamicRetrievalConfig)
        ensures
            r.mode@ == "MODE_DYNAMIC"@,
            r.dynamic_threshold matches Some(t) && t@ == "0.7"@,
    {
        DynamicRetrievalConfig {
            mode: String::from_str("MODE_DYNAMIC"),
            dynamic_threshold: Some(String::from_str("0.7")),
        }
    }
}

/// Whether `v` encodes the retrieval configuration `c`.
pub open spec fn spec_dynamic_retrieval_json_ok(v: Json, c: DynamicRetrievalConfig) -> bool {
    &&& spec_get(v, "mode"@) == Some(Json::Str(c.mode))
    &&& match c.dynamic_threshold {
        Some(t) => spec_get(v, "dynamicThreshold"@) == Some(Json::Num(t)),
        None => spec_get(v, "dynamicThreshold"@) is None,
    }
}

impl DynamicRetrievalConfig {
    /// Encodes this configuration, leaving an unset threshold off the
    /// wire.
    pub fn to_json(&self) -> (j: Json)
        ensures
            spec_dynamic_retrieval_json_ok(j, *self),
    {
        broadcast use crate::json::lemma_obj_get_push;

        proof {
            reveal_strlit("mode");
            reveal_strlit("dynamicThreshold");
            assert("mode"@.len() == 4);
            assert("dynamicThreshold"@.len() == 16);
        }
        let mut entries: Vec<(String, Json)> = Vec::new();
        entries.push((String::from_str("mode"), Json::Str(self.mode.clone())));
        match &self.dynamic_threshold {
            Some(t) => {
                entries.push((String::from_str("dynamicThreshold"), Json::Num(t.clone())));
            },
            None => {},
        }
        Json::Obj(entries)
    }
}

/// The search-retrieval tool.
#[derive(Clone, Debug, PartialEq)]
pub struct GoogleSearchRetrieval {
    pub dynamic_retrieval_config: DynamicRetrievalConfig,
}

impl Default for GoogleSearchRetrieval {
    /// Retrieval with the default dynamic configuration.
    fn default() -> (r: GoogleSearchRetrieval)
        ensures
            r.dynamic_retrieval_config.mode@ == "MODE_DYNAMIC"@,
            r.dynamic_retrieval_config.dynamic_threshold matches Some(t) && t@ == "0.7"@,
    {
        GoogleSearchRetrieval { dynamic_retrieval_config: DynamicRetrievalConfig::default() }
    }
}

/// Whether `v` encodes the retrieval tool `g`.
pub open spec fn spec_gsr_json_ok(v: Json, g: GoogleSearchRetrieval) -> bool {
    match spec_get(v, "dynamicRetrievalConfig"@) {
        Some(c) => spec_dynamic_retrieval_json_ok(c, g.dynamic_retrieval_config),
        None => false,
    }
}

impl GoogleSearchRetrieval {
    /// Encodes this tool.
    pub fn to_json(&self) -> (j: Json)
        ensures
            spec_gsr_json_ok(j, *self),
    {
        broadcast use crate::json::lemma_obj_get_push;

        proof {
            reveal_strlit("dynamicRetrievalConfig");
            assert("dynamicRetrievalConfig"@.len() == 22);
        }
        let mut entries: Vec<(String, Json)> = Vec::new();
        entries.push((String::from_str("dynamicRetrievalConfig"),
            self.dynamic_retrieval_config.to_json()));
        Json::Obj(entries)
    }
}

/// The tools offered to the model in one request.
#[derive(Clone, Debug, PartialEq, Default)]
pub struct Tools {
    pub function_declarations: Option<Vec<FunctionDeclaration>>,
    pub google_search_retrieval: Option<GoogleSearchRetrieval>,
    pub google_search: Option<GoogleSearch>,
}

/// Whether `v` encodes the tools `t`: each member is bound exactly when
/// set, under its wire key.
pub open spec fn spec_tools_json_ok(v: Json, t: Tools) -> bool {
    &&& match t.function_declarations {
        Some(ds) => match spec_get(v, "function_declarations"@) {
            Some(Json::Arr(elems)) => elems@.len() == ds@.len() && forall|k: int|
                0 <= k < ds@.len() ==> spec_declaration_json_ok(#[trigger] elems@[k], ds@[k]),
            _ => false,
        },
        None => spec_get(v, "function_declarations"@) is None,
    }
    &&& match t.google_search_retrieval {
        Some(g) => match spec_get(v, "googleSearchRetrieval"@) {
            Some(gv) => spec_gsr_json_ok(gv, g),
            None => false,
        },
        None => spec_get(v, "googleSearchRetrieval"@) is None,
    }
    &&& match t.google_search {
        Some(_) => spec_get(v, "google_search"@) matches Some(gs) && gs matches Json::Obj(es)
            && es@.len() == 0,
        None => spec_get(v, "google_search"@) is None,
    }
}

impl Tools {
    /// Encodes these tools, leaving unset members off the wire.
    pub fn to_json(&self) -> (j: Json)
        ensures
            spec_tools_json_ok(j, *self),
    {
        broadcast use crate::json::lemma_obj_get_push;

        proof {
            reveal_strlit("function_declarations");
            reveal_strlit("googleSearchRetrieval");
            reveal_strlit("google_search");
            assert("function_declarations"@.len() == 21);
            assert("googleSearchRetrieval"@.len() == 21);
            assert("google_search"@.len() == 13);
            assert("function_declarations"@[0] == 'f' && "googleSearchRetrieval"@[0] == 'g');
            assert("function_declarations"@ != "googleSearchRetrieval"@);
        }
        let mut entries: Vec<(String, Json)> = Vec::new();
        match &self.function_declarations {
            Some(ds) => {
                let mut elems: Vec<Json> = Vec::new();
                let n = ds.len();
                let mut i: usize = 0;
                while i < n
                    invariant
                        i <= n,
                        n == ds@.len(),
                        elems@.len() == i,
                        forall|k: int|
                            0 <= k < i ==> spec_declaration_json_ok(
                                #[trigger] elems@[k],
                                ds@[k],
                            ),
                    decreases n - i,
                {
                    elems.push(ds[i].to_json());
                    i = i + 1;
                }
                entries.push((String::from_str("function_declarations"), Json::Arr(elems)));
            },
            None => {},
        }
        match &self.google_search_retrieval {
            Some(g) => {
                entries.push((String::from_str("googleSearchRetrieval"), g.to_json()));
            },
            None => {},
        }
        match &self.google_search {
            Some(_) => {
                let empty: Vec<(String, Json)> = Vec::new();
                entries.push((String::from_str("google_search"), Json::Obj(empty)));
            },
            None => {},
        }
        Json::Obj(entries)
    }
}

/// Sampling and output controls of one request.  The two sampling
/// temperatures are kept as decimal literals; the response schema is an
/// arbitrary JSON value.
#[derive(Debug, PartialEq, Default)]
pub struct GenerationConfig {
    pub max_output_tokens: Option<i32>,
    pub temperature: Option<String>,
    pub top_p: Option<String>,
    pub top_k: Option<i32>,
    pub stop_sequences: Option<Vec<String>>,
    pub candidate_count: Option<u32>,
    pub response_mime_type: Option<String>,
    pub response_schema: Option<Json>,
}

/// Whether `v` encodes the configuration `c`: every member is bound
/// exactly when set — an absent option is omitted from the wire, never
/// written as null.
pub open spec fn spec_generation_config_json_ok(v: Json, c: GenerationConfig) -> bool {
    &&& spec_get(v, "maxOutputTokens"@) == match c.max_output_tokens {
        Some(n) => Some(Json::Int(n as i64)),
        None => None::<Json>,
    }
    &&& spec_get(v, "temperature"@) == match c.temperature {
        Some(t) => Some(Json::Num(t)),
        None => None::<Json>,
    }
    &&& spec_get(v, "topP"@) == match c.top_p {
        Some(t) => Some(Json::Num(t)),
        None => None::<Json>,
    }
    &&& spec_get(v, "topK"@) == match c.top_k {
        Some(n) => Some(Json::Int(n as i64)),
        None => None::<Json>,
    }
    &&& match c.stop_sequences {
        Some(ss) => spec_get(v, "stopSequences"@) matches Some(a) && spec_str_arr(a, ss@),
        None => spec_get(v, "stopSequences"@) is None,
    }
    &&& spec_get(v, "candidateCount"@) == match c.candidate_count {
        Some(n) => Some(Json::Int(n as i64)),
        None => None::<Json>,
    }
    &&& spec_get(v, "responseMimeType"@) == match c.response_mime_type {
        Some(m) => Some(Json::Str(m)),
        None => None::<Json>,
    }
    &&& spec_get(v, "responseSchema"@) == c.response_schema
}

impl GenerationConfig {
    /// Encodes this configuration, consuming it; every unset member is
    /// left off the wire.
    pub fn into_json(self) -> (j: Json)
        ensures
            spec_generation_config_json_ok(j, self),
    {
        broadcast use crate::json::lemma_obj_get_push;

        proof {
            reveal_strlit("maxOutputTokens");
            reveal_strlit("temperature");
            reveal_strlit("topP");
            reveal_strlit("topK");
            reveal_strlit("stopSequences");
            reveal_strlit("candidateCount");
            reveal_strlit("responseMimeType");
            reveal_strlit("responseSchema");
            assert("maxOutputTokens"@.len() == 15);
            assert("temperature"@.len() == 11);
            assert("topP"@.len() == 4);
            assert("topK"@.len() == 4);
            assert("stopSequences"@.len() == 13);
            assert("candidateCount"@.len() == 14);
            assert("responseMimeType"@.len() == 16);
            assert("responseSchema"@.len() == 14);
            assert("topP"@[3] == 'P' && "topK"@[3] == 'K');
            assert("topP"@ != "topK"@);
            assert("candidateCount"@[0] == 'c' && "responseSchema"@[0] == 'r');
            assert("candidateCount"@ != "responseSchema"@);
        }
        let mut entries: Vec<(String, Json)> = Vec::new();
        match self.max_output_tokens {
            Some(n) => {
                entries.push((String::from_str("maxOutputTokens"), Json::Int(n as i64)));
            },
            None => {},
        }
        match &self.temperature {
            Some(t) => {
                entries.push((String::from_str("temperature"), Json::Num(t.clone())));
            },
            None => {},
        }
        match &self.top_p {
            Some(t) => {
                entries.push((String::from_str("topP"), Json::Num(t.clone())));
            },
            None => {},
        }
        match self.top_k {
            Some(n) => {
                entries.push((String::from_str("topK"), Json::Int(n as i64)));
            },
            None => {},
        }
        match &self.stop_sequences {
            Some(ss) => {
                entries.push((String::from_str("stopSequences"), str_arr(ss)));
            },
            None => {},
        }
        match self.candidate_count {
            Some(n) => {
                entries.push((String::from_str("candidateCount"), Json::Int(n as i64)));
            },
            None => {},
        }
        match &self.response_mime_type {
            Some(m) => {
                entries.push((String::from_str("responseMimeType"), Json::Str(m.clone())));
            },
            None => {},
        }
        match self.response_schema {
            Some(s) => {
                entries.push((String::from_str("responseSchema"), s));
            },
            None => {},
        }
        Json::Obj(entries)
    }

    /// A builder starting from an empty configuration.
    pub fn builder() -> (r: GenerationConfigBuilder)
        ensures
            r.generation_config == GenerationConfig::spec_empty(),
    {
        GenerationConfigBuilder {
            generation_config: GenerationConfig {
                max_output_tokens: None,
                temperature: None,
                top_p: None,
                top_k: None,
                stop_sequences: None,
                candidate_count: None,
                response_mime_type: None,
                response_schema: None,
            },
        }
    }

    /// The configuration with nothing set.
    pub open spec fn spec_empty() -> GenerationConfig {
        GenerationConfig {
            max_output_tokens: None,
            temperature: None,
            top_p: None,
            top_k: None,
            stop_sequences: None,
            candidate_count: None,
            response_mime_type: None,
            response_schema: None,
        }
    }
}

/// Assembles a [`GenerationConfig`] value by value.
pub struct GenerationConfigBuilder {
    pub generation_config: GenerationConfig,
}

impl GenerationConfigBuilder {
    /// Caps the number of output tokens.
    pub fn max_output_tokens(self, max_output_tokens: i32) -> (r: GenerationConfigBuilder)
        ensures
            r.generation_config == (GenerationConfig {
                max_output_tokens: Some(max_output_tokens),
                ..self.generation_config
            }),
    {
        let mut this = self;
        this.generation_config.max_output_tokens = Some(max_output_tokens);
        this
    }

    /// Sets the sampling temperature, as a decimal literal.
    pub fn temperature(self, temperature: &str) -> (r: GenerationConfigBuilder)
        ensures
            r.generation_config.temperature matches Some(t) && t@ == temperature@,
            r.generation_config == (GenerationConfig {
                temperature: r.generation_config.temperature,
                ..self.generation_config
            }),
    {
        let mut this = self;
        this.generation_config.temperature = Some(String::from_str(temperature));
        this
    }

    /// Sets nucleus sampling, as a decimal literal.
    pub fn top_p(self, top_p: &str) -> (r: GenerationConfigBuilder)
        ensures
            r.generation_config.top_p matches Some(t) && t@ == top_p@,
            r.generation_config == (GenerationConfig {
                top_p: r.generation_config.top_p,
                ..self.generation_config
            }),
    {
        let mut this = self;
        this.generation_config.top_p = Some(String::from_str(top_p));
        this
    }

    /// Caps sampling to the most likely tokens.
    pub fn top_k(self, top_k: i32) -> (r: GenerationConfigBuilder)
        ensures
            r.generation_config == (GenerationConfig {
                top_k: Some(top_k),
                ..self.generation_config
            }),
    {
        let mut this = self;
        this.generation_config.top_k = Some(top_k);
        this
    }

    /// Sets the stop sequences.
    pub fn stop_sequences(self, stop_sequences: Vec<String>) -> (r: GenerationConfigBuilder)
        ensures
            r.generation_config == (GenerationConfig {
                stop_sequences: Some(stop_sequences),
                ..self.generation_config
            }),
    {
        let mut this = self;
        this.generation_config.stop_sequences = Some(stop_sequences);
        this
    }

    /// Sets how many candidates to generate.
    pub fn candidate_count(self, candidate_count: u32) -> (r: GenerationConfigBuilder)
        ensures
            r.generation_config == (GenerationConfig {
                candidate_count: Some(candidate_count),
                ..self.generation_config
            }),
    {
        let mut this = self;
        this.generation_config.candidate_count = Some(candidate_count);
        this
    }

    /// Sets the response MIME type.
    pub fn response_mime_type(self, response_mime_type: &str) -> (r: GenerationConfigBuilder)
        ensures
            r.generation_config.response_mime_type matches Some(m) && m@ == response_mime_type@,
            r.generation_config == (GenerationConfig {
                response_mime_type: r.generation_config.response_mime_type,
                ..self.generation_config
            }),
    {
        let mut this = self;
        this.generation_config.response_mime_type = Some(String::from_str(response_mime_type));
        this
    }

    /// Sets the response schema.
    pub fn response_schema(self, response_schema: Json) -> (r: GenerationConfigBuilder)
        ensures
            r.generation_config == (GenerationConfig {
                response_schema: Some(response_schema),
                ..self.generation_config
            }),
    {
        let mut this = self;
        this.generation_config.response_schema = Some(response_schema);
        this
    }

    /// The assembled configuration.
    pub fn build(self) -> (r: GenerationConfig)
        ensures
            r == self.generation_config,
    {
        self.generation_config
    }
}

/// One generation request: the ordered contents, and optional
/// configuration, tools, safety settings and system instruction.
#[derive(Debug, PartialEq, Default)]
pub struct GenerateContentRequest {
    pub contents: Vec<Content>,
    pub generation_config: Option<GenerationConfig>,
    pub tools: Option<Vec<Tools>>,
    pub safety_settings: Option<Vec<SafetySetting>>,
    pub system_instruction: Option<Content>,
}

/// Whether `v` encodes the whole request `r`: the contents decode back
/// exactly; every optional member is bound exactly when set.
pub open spec fn spec_request_json_ok(v: Json, r: GenerateContentRequest) -> bool {
    &&& match spec_get(v, "contents"@) {
        Some(Json::Arr(elems)) => elems@.len() == r.contents@.len() && forall|k: int|
            0 <= k < r.contents@.len() ==> spec_content_from(#[trigger] elems@[k]) == Some(
                r.contents@[k].deep_view(),
            ),
        _ => false,
    }
    &&& match r.generation_config {
        Some(c) => spec_get(v, "generationConfig"@) matches Some(cv)
            && spec_generation_config_json_ok(cv, c),
        None => spec_get(v, "generationConfig"@) is None,
    }
    &&& match r.tools {
        Some(ts) => match spec_get(v, "tools"@) {
            Some(Json::Arr(elems)) => elems@.len() == ts@.len() && forall|k: int|
                0 <= k < ts@.len() ==> spec_tools_json_ok(#[trigger] elems@[k], ts@[k]),
            _ => false,
        },
        None => spec_get(v, "tools"@) is None,
    }
    &&& match r.safety_settings {
        Some(ss) => match spec_get(v, "safetySettings"@) {
            Some(Json::Arr(elems)) => elems@.len() == ss@.len() && forall|k: int|
                0 <= k < ss@.len() ==> spec_safety_setting_json_ok(#[trigger] elems@[k], ss@[k]),
            _ => false,
        },
        None => spec_get(v, "safetySettings"@) is None,
    }
    &&& match r.system_instruction {
        Some(c) => spec_get(v, "systemInstruction"@) matches Some(cv) && spec_content_from(cv)
            == Some(c.deep_view()),
        None => spec_get(v, "systemInstruction"@) is None,
    }
}

impl GenerateContentRequest {
    /// Encodes this request, consuming it.  Every absent option is left
    /// off the wire entirely — never written as null — and decoding the
    /// encoded contents gives them back exactly.
    pub fn into_json(self) -> (j: Json)
        ensures
            spec_request_json_ok(j, self),
    {
        broadcast use crate::json::lemma_obj_get_push;

        proof {
            reveal_strlit("contents");
            reveal_strlit("generationConfig");
            reveal_strlit("tools");
            reveal_strlit("safetySettings");
            reveal_strlit("systemInstruction");
            assert("contents"@.len() == 8);
            assert("generationConfig"@.len() == 16);
            assert("tools"@.len() == 5);
            assert("safetySettings"@.len() == 14);
            assert("systemInstruction"@.len() == 17);
        }
        let mut entries: Vec<(String, Json)> = Vec::new();
        let mut celems: Vec<Json> = Vec::new();
        let n = self.contents.len();
        let mut i: usize = 0;
        while i < n
            invariant
                i <= n,
                n == self.contents@.len(),
                celems@.len() == i,
                forall|k: int|
                    0 <= k < i ==> spec_content_from(#[trigger] celems@[k]) == Some(
                        self.contents@[k].deep_view(),
                    ),
            decreases n - i,
        {
            celems.push(self.contents[i].to_json());
            i = i + 1;
        }
        entries.push((String::from_str("contents"), Json::Arr(celems)));
        match self.generation_config {
            Some(c) => {
                entries.push((String::from_str("generationConfig"), c.into_json()));
            },
            None => {},
        }
        match &self.tools {
            Some(ts) => {
                let mut telems: Vec<Json> = Vec::new();
                let tn = ts.len();
                let mut ti: usize = 0;
                while ti < tn
                    invariant
                        ti <= tn,
                        tn == ts@.len(),
                        telems@.len() == ti,
                        forall|k: int|
                            0 <= k < ti ==> spec_tools_json_ok(#[trigger] telems@[k], ts@[k]),
                    decreases tn - ti,
                {
                    telems.push(ts[ti].to_json());
                    ti = ti + 1;
                }
                entries.push((String::from_str("tools"), Json::Arr(telems)));
            },
            None => {},
        }
        match &self.safety_settings {
            Some(ss) => {
                let mut selems: Vec<Json> = Vec::new();
                let sn = ss.len();
                let mut si: usize = 0;
                while si < sn
                    invariant
                        si <= sn,
                        sn == ss@.len(),
                        selems@.len() == si,
                        forall|k: int|
                            0 <= k < si ==> spec_safety_setting_json_ok(
                                #[trigger] selems@[k],
                                ss@[k],
                            ),
                    decreases sn - si,
                {
                    selems.push(ss[si].to_json());
                    si = si + 1;
                }
                entries.push((String::from_str("safetySettings"), Json::Arr(selems)));
            },
            None => {},
        }
        match &self.system_instruction {
            Some(c) => {
                entries.push((String::from_str("systemInstruction"), c.to_json()));
            },
            None => {},
        }
        Json::Obj(entries)
    }

    /// The request's body text, consuming it: the written text of a
    /// tree that encodes this request.
    pub fn into_body(self) -> (r: String)
        ensures
            exists|j: Json|
                r@ == crate::json::spec_json_text(j) && #[trigger] spec_request_json_ok(
                    j,
                    self,
                ),
    {
        let j = self.into_json();
        let r = j.to_text();
        proof {
            assert(r@ == crate::json::spec_json_text(j) && spec_request_json_ok(j, self));
        }
        r
    }

    /// A request holding one user text prompt and, optionally, a
    /// generation configuration.
    pub fn from_prompt(prompt: &str, generation_config: Option<GenerationConfig>) -> (r:
        GenerateContentRequest)
        ensures
            r.contents@.len() == 1,
            r.contents@[0].deep_view() == (ContentView {
                role: Some(Role::User),
                parts: Some(seq![PartView::Text(prompt@)]),
            }),
            r.generation_config == generation_config,
            r.tools is None,
            r.safety_settings is None,
            r.system_instruction is None,
    {
        let mut parts: Vec<Part> = Vec::new();
        parts.push(Part::Text(String::from_str(prompt)));
        let c = Content { role: Some(Role::User), parts: Some(parts) };
        proof {
            assert(c.deep_view().parts matches Some(ps) && ps =~= seq![PartView::Text(prompt@)]);
        }
        let mut contents: Vec<Content> = Vec::new();
        contents.push(c);
        GenerateContentRequest {
            contents,
            generation_config,
            tools: None,
            safety_settings: None,
            system_instruction: None,
        }
    }

    /// A builder starting from an empty request.
    pub fn builder() -> (r: GenerateContentRequestBuilder)
        ensures
            r.request.contents@.len() == 0,
            r.request.generation_config is None,
            r.request.tools is None,
            r.request.safety_settings is None,
            r.request.system_instruction is None,
    {
        GenerateContentRequestBuilder {
            request: GenerateContentRequest {
                contents: Vec::new(),
                generation_config: None,
                tools: None,
                safety_settings: None,
                system_instruction: None,
            },
        }
    }
}

/// Assembles a [`GenerateContentRequest`] field by field.
pub struct GenerateContentRequestBuilder {
    pub request: GenerateContentRequest,
}

impl GenerateContentRequestBuilder {
    /// Sets the ordered contents.
    pub fn contents(self, contents: Vec<Content>) -> (r: GenerateContentRequestBuilder)
        ensures
            r.request == (GenerateContentRequest { contents, ..self.request }),
    {
        let mut this = self;
        this.request.contents = contents;
        this
    }

    /// Sets the generation configuration.
    pub fn generation_config(self, generation_config: GenerationConfig) -> (r:
        GenerateContentRequestBuilder)
        ensures
            r.request == (GenerateContentRequest {
                generation_config: Some(generation_config),
                ..self.request
            }),
    {
        let mut this = self;
        this.request.generation_config = Some(generation_config);
        this
    }

    /// Sets the tools.
    pub fn tools(self, tools: Vec<Tools>) -> (r: GenerateContentRequestBuilder)
        ensures
            r.request == (GenerateContentRequest { tools: Some(tools), ..self.request }),
    {
        let mut this = self;
        this.request.tools = Some(tools);
        this
    }

    /// Sets the safety settings.
    pub fn safety_settings(self, safety_settings: Vec<SafetySetting>) -> (r:
        GenerateContentRequestBuilder)
        ensures
            r.request == (GenerateContentRequest {
                safety_settings: Some(safety_settings),
                ..self.request
            }),
    {
        let mut this = self;
        this.request.safety_settings = Some(safety_settings);
        this
    }

    /// Sets the system instruction.
    pub fn system_instruction(self, system_instruction: Content) -> (r:
        GenerateContentRequestBuilder)
        ensures
            r.request == (GenerateContentRequest {
                system_instruction: Some(system_instruction),
                ..self.request
            }),
    {
        let mut this = self;
        this.request.system_instruction = Some(system_instruction);
        this
    }

    /// The assembled request.
    pub fn build(self) -> (r: GenerateContentRequest)
        ensures
            r == self.request,
    {
        self.request
    }
}

} // verus!
