//! Text embeddings: the request shape and the untagged response
//! envelope.  Embedding values are kept as the decimal literals the
//! service sent; the library never computes with them.

use vstd::prelude::*;

use crate::error::Error;
use crate::json::{
    parse_json, parsed_json, spec_get, spec_num_text, spec_req_arr, spec_req_bool, spec_req_str,
    spec_req_u32, Json,
};
use crate::types::error::{spec_vertex_error_from, VertexApiError, VertexApiErrorView};

verus! {

/// One embeddings request: the instances to embed.
#[derive(Clone, Debug, PartialEq)]
pub struct TextEmbeddingRequest {
    pub instances: Vec<TextEmbeddingRequestInstance>,
}

/// One text to embed, with its task type and optional title.
#[derive(Clone, Debug, PartialEq)]
pub struct TextEmbeddingRequestInstance {
    pub content: String,
    pub task_type: String,
    pub title: Option<String>,
}

/// Whether `v` encodes the instance `i`.
pub open spec fn spec_embedding_instance_json_ok(v: Json, i: TextEmbeddingRequestInstance) -> bool {
    &&& spec_get(v, "content"@) == Some(Json::Str(i.content))
    &&& spec_get(v, "task_type"@) == Some(Json::Str(i.task_type))
    &&& match i.title {
        Some(t) => spec_get(v, "title"@) == Some(Json::Str(t)),
        None => spec_get(v, "title"@) == Some(Json::Null),
    }
}

impl TextEmbeddingRequestInstance {
    /// Encodes this instance.  An absent title is written as null; the
    /// service accepts and ignores it.
    pub fn to_json(&self) -> (j: Json)
        ensures
            spec_embedding_instance_json_ok(j, *self),
    {
        broadcast use crate::json::lemma_obj_get_push;

        proof {
            reveal_strlit("content");
            reveal_strlit("task_type");
            reveal_strlit("title");
            assert("content"@.len() == 7);
            assert("task_type"@.len() == 9);
            assert("title"@.len() == 5);
        }
        let mut entries: Vec<(String, Json)> = Vec::new();
        entries.push((String::from_str("content"), Json::Str(self.content.clone())));
        entries.push((String::from_str("task_type"), Json::Str(self.task_type.clone())));
        match &self.title {
            Some(t) => {
                entries.push((String::from_str("title"), Json::Str(t.clone())));
            },
            None => {
                entries.push((String::from_str("title"), Json::Null));
            },
        }
        Json::Obj(entries)
    }
}

impl TextEmbeddingRequest {
    /// Encodes this request: the instances, in order, under the single
    /// `instances` key.
    pub fn to_json(&self) -> (j: Json)
        ensures
            match spec_get(j, "instances"@) {
                Some(Json::Arr(elems)) => elems@.len() == self.instances@.len() && forall|k: int|
                    0 <= k < self.instances@.len() ==> spec_embedding_instance_json_ok(
                        #[trigger] elems@[k],
                        self.instances@[k],
                    ),
                _ => false,
            },
    {
        broadcast use crate::json::lemma_obj_get_push;

        let mut elems: Vec<Json> = Vec::new();
        let n = self.instances.len();
        let mut i: usize = 0;
        while i < n
            invariant
                i <= n,
                n == self.instances@.len(),
                elems@.len() == i,
                forall|k: int|
                    0 <= k < i ==> spec_embedding_instance_json_ok(
                        #[trigger] elems@[k],
                        self.instances@[k],
                    ),
            decreases n - i,
        {
            elems.push(self.instances[i].to_json());
            i = i + 1;
        }
        let mut entries: Vec<(String, Json)> = Vec::new();
        entries.push((String::from_str("instances"), Json::Arr(elems)));
        Json::Obj(entries)
    }
}

/// How much of an instance was embedded.
#[derive(Clone, Copy, Debug, PartialEq)]
pub struct TextEmbeddingStatistics {
    pub truncated: bool,
    pub token_count: u32,
}

impl DeepView for TextEmbeddingStatistics {
    type V = TextEmbeddingStatistics;

    open spec fn deep_view(&self) -> TextEmbeddingStatistics {
        *self
    }
}

/// One embedding: its statistics and its values, each value the decimal
/// literal received.
#[derive(Clone, Debug, PartialEq)]
pub struct TextEmbeddingResult {
    pub statistics: TextEmbeddingStatistics,
    pub values: Vec<String>,
}

/// Mathematical image of [`TextEmbeddingResult`].
pub ghost struct TextEmbeddingResultView {
    pub statistics: TextEmbeddingStatistics,
    pub values: Seq<Seq<char>>,
}

impl DeepView for TextEmbeddingResult {
    type V = TextEmbeddingResultView;

    open spec fn deep_view(&self) -> TextEmbeddingResultView {
        TextEmbeddingResultView { statistics: self.statistics, values: self.values.deep_view() }
    }
}

/// One prediction of an embeddings response.
#[derive(Clone, Debug, PartialEq)]
pub struct TextEmbeddingPrediction {
    pub embeddings: TextEmbeddingResult,
}

/// Mathematical image of [`TextEmbeddingPrediction`].
pub ghost struct TextEmbeddingPredictionView {
    pub embeddings: TextEmbeddingResultView,
}

impl DeepView for TextEmbeddingPrediction {
    type V = TextEmbeddingPredictionView;

    open spec fn deep_view(&self) -> TextEmbeddingPredictionView {
        TextEmbeddingPredictionView { embeddings: self.embeddings.deep_view() }
    }
}

/// The success payload of an embeddings response.
#[derive(Clone, Debug, PartialEq)]
pub struct TextEmbeddingResponseOk {
    pub predictions: Vec<TextEmbeddingPrediction>,
}

/// Mathematical image of [`TextEmbeddingResponseOk`].
pub ghost struct TextEmbeddingResponseOkView {
    pub predictions: Seq<TextEmbeddingPredictionView>,
}

impl DeepView for TextEmbeddingResponseOk {
    type V = TextEmbeddingResponseOkView;

    open spec fn deep_view(&self) -> TextEmbeddingResponseOkView {
        TextEmbeddingResponseOkView { predictions: self.predictions.deep_view() }
    }
}

/// A decoded embeddings envelope: the predictions, or a service error.
#[derive(Debug, PartialEq)]
pub enum TextEmbeddingResponse {
    Success(TextEmbeddingResponseOk),
    Failure { error: VertexApiError },
}

/// Mathematical image of [`TextEmbeddingResponse`].
pub ghost enum TextEmbeddingResponseView {
    Success(TextEmbeddingResponseOkView),
    Failure { error: VertexApiErrorView },
}

impl DeepView for TextEmbeddingResponse {
    type V = TextEmbeddingResponseView;

    open spec fn deep_view(&self) -> TextEmbeddingResponseView {
        match self {
            TextEmbeddingResponse::Success(ok) => TextEmbeddingResponseView::Success(
                ok.deep_view(),
            ),
            TextEmbeddingResponse::Failure { error } => TextEmbeddingResponseView::Failure {
                error: error.deep_view(),
            },
        }
    }
}

/// The embedding values an array decodes to: every element must be a
/// number, kept as its decimal text.
pub open spec fn spec_embedding_values_from(s: Seq<Json>) -> Option<Seq<Seq<char>>> {
    if forall|k: int| 0 <= k < s.len() ==> spec_num_text(#[trigger] s[k]) is Some {
        Some(Seq::new(s.len(), |k: int| spec_num_text(s[k])->0))
    } else {
        None
    }
}

/// The embedding an `embeddings` object decodes to: statistics with a
/// required flag and count, and the array of values.
pub open spec fn spec_embedding_result_from(j: Json) -> Option<TextEmbeddingResultView> {
    match spec_get(j, "statistics"@) {
        Some(st) => match (spec_req_bool(st, "truncated"@), spec_req_u32(st, "token_count"@)) {
            (Some(tr), Some(tc)) => match spec_req_arr(j, "values"@) {
                Some(elems) => match spec_embedding_values_from(elems) {
                    Some(vs) => Some(
                        TextEmbeddingResultView {
                            statistics: TextEmbeddingStatistics {
                                truncated: tr,
                                token_count: tc,
                            },
                            values: vs,
                        },
                    ),
                    None => None,
                },
                None => None,
            },
            _ => None,
        },
        None => None,
    }
}

/// The prediction an element decodes to.
pub open spec fn spec_embedding_prediction_from(j: Json) -> Option<TextEmbeddingPredictionView> {
    match spec_get(j, "embeddings"@) {
        Some(e) => match spec_embedding_result_from(e) {
            Some(r) => Some(TextEmbeddingPredictionView { embeddings: r }),
            None => None,
        },
        None => None,
    }
}

/// The predictions a `predictions` array decodes to.
pub open spec fn spec_embedding_predictions_from(s: Seq<Json>) -> Option<
    Seq<TextEmbeddingPredictionView>,
> {
    if forall|k: int| 0 <= k < s.len() ==> spec_embedding_prediction_from(#[trigger] s[k]) is Some {
        Some(Seq::new(s.len(), |k: int| spec_embedding_prediction_from(s[k])->0))
    } else {
        None
    }
}

/// The discrimination rule: the success shape first, then the error
/// envelope.
pub open spec fn spec_embedding_response_from(j: Json) -> Option<TextEmbeddingResponseView> {
    match spec_req_arr(j, "predictions"@) {
        Some(elems) => match spec_embedding_predictions_from(elems) {
            Some(ps) => Some(
                TextEmbeddingResponseView::Success(TextEmbeddingResponseOkView { predictions: ps }),
            ),
            None => None,
        },
        None => match spec_get(j, "error"@) {
            Some(e) => match spec_vertex_error_from(e) {
                Some(ev) => Some(TextEmbeddingResponseView::Failure { error: ev }),
                None => None,
            },
            None => None,
        },
    }
}

fn embedding_values_from(elems: &Vec<Json>) -> (r: Option<Vec<String>>)
    ensures
        match r {
            Some(v) => spec_embedding_values_from(elems@) == Some(v.deep_view()),
            None => spec_embedding_values_from(elems@) is None,
        },
{
    let mut out: Vec<String> = Vec::new();
    let n = elems.len();
    let mut i: usize = 0;
    while i < n
        invariant
            i <= n,
            n == elems@.len(),
            out@.len() == i,
            forall|k: int|
                0 <= k < i ==> spec_num_text(#[trigger] elems@[k]) == Some(out@[k]@),
        decreases n - i,
    {
        match elems[i].num_text() {
            Some(t) => { out.push(t) },
            None => {
                assert(spec_num_text(elems@[i as int]) is None);
                return None;
            },
        }
        i = i + 1;
    }
    assert(spec_embedding_values_from(elems@) matches Some(s) && s =~= out.deep_view());
    Some(out)
}

fn embedding_result_from(j: &Json) -> (r: Option<TextEmbeddingResult>)
    ensures
        match r {
            Some(e) => spec_embedding_result_from(*j) == Some(e.deep_view()),
            None => spec_embedding_result_from(*j) is None,
        },
{
    let st = match j.get("statistics") {
        Some(st) => st,
        None => { return None },
    };
    let truncated = match st.req_bool("truncated") {
        Some(t) => t,
        None => { return None },
    };
    let token_count = match st.req_u32("token_count") {
        Some(t) => t,
        None => { return None },
    };
    let elems = match j.req_arr("values") {
        Some(e) => e,
        None => { return None },
    };
    match embedding_values_from(elems) {
        Some(values) => Some(
            TextEmbeddingResult {
                statistics: TextEmbeddingStatistics { truncated, token_count },
                values,
            },
        ),
        None => None,
    }
}

fn embedding_prediction_from(j: &Json) -> (r: Option<TextEmbeddingPrediction>)
    ensures
        match r {
            Some(p) => spec_embedding_prediction_from(*j) == Some(p.deep_view()),
            None => spec_embedding_prediction_from(*j) is None,
        },
{
    let e = match j.get("embeddings") {
        Some(e) => e,
        None => { return None },
    };
    match embedding_result_from(e) {
        Some(embeddings) => Some(TextEmbeddingPrediction { embeddings }),
        None => None,
    }
}

fn embedding_predictions_from(elems: &Vec<Json>) -> (r: Option<Vec<TextEmbeddingPrediction>>)
    ensures
        match r {
            Some(v) => spec_embedding_predictions_from(elems@) == Some(v.deep_view()),
            None => spec_embedding_predictions_from(elems@) is None,
        },
{
    let mut out: Vec<TextEmbeddingPrediction> = Vec::new();
    let n = elems.len();
    let mut i: usize = 0;
    while i < n
        invariant
            i <= n,
            n == elems@.len(),
            out@.len() == i,
            forall|k: int|
                0 <= k < i ==> spec_embedding_prediction_from(#[trigger] elems@[k]) == Some(
                    out@[k].deep_view(),
                ),
        decreases n - i,
    {
        match embedding_prediction_from(&elems[i]) {
            Some(p) => { out.push(p) },
            None => {
                assert(spec_embedding_prediction_from(elems@[i as int]) is None);
                return None;
            },
        }
        i = i + 1;
    }
    assert(spec_embedding_predictions_from(elems@) matches Some(s) && s =~= out.deep_view());
    Some(out)
}

impl TextEmbeddingResponse {
    /// Decodes one envelope by structural probing.
    pub fn from_json(j: &Json) -> (r: Option<TextEmbeddingResponse>)
        ensures
            match r {
                Some(resp) => spec_embedding_response_from(*j) == Some(resp.deep_view()),
                None => spec_embedding_response_from(*j) is None,
            },
    {
        match j.req_arr("predictions") {
            Some(elems) => match embedding_predictions_from(elems) {
                Some(predictions) => Some(
                    TextEmbeddingResponse::Success(TextEmbeddingResponseOk { predictions }),
                ),
                None => None,
            },
            None => {
                let e = match j.get("error") {
                    Some(e) => e,
                    None => { return None },
                };
                match VertexApiError::from_json(e) {
                    Some(error) => Some(TextEmbeddingResponse::Failure { error }),
                    None => None,
                }
            },
        }
    }

    /// Parses and decodes one whole body.
    pub fn from_text(s: &str) -> (r: Result<TextEmbeddingResponse, Error>)
        ensures
            match parsed_json(s@) {
                Some(j) => match spec_embedding_response_from(j) {
                    Some(v) => r matches Ok(resp) && resp.deep_view() == v,
                    None => r matches Err(e) && e.deep_view() == crate::error::ErrorView::Serde(
                        s@,
                    ),
                },
                None => r matches Err(e) && e.deep_view() == crate::error::ErrorView::Serde(s@),
            },
    {
        match parse_json(s) {
            Some(j) => match TextEmbeddingResponse::from_json(&j) {
                Some(resp) => Ok(resp),
                None => Err(Error::Serde(String::from_str(s))),
            },
            None => Err(Error::Serde(String::from_str(s))),
        }
    }

    /// The envelope as a result.
    pub fn into_result(self) -> (r: Result<TextEmbeddingResponseOk, Error>)
        ensures
            match self {
                TextEmbeddingResponse::Success(ok) => r == Ok::<TextEmbeddingResponseOk, Error>(
                    ok,
                ),
                TextEmbeddingResponse::Failure { error } => r == Err::<
                    TextEmbeddingResponseOk,
                    Error,
                >(Error::VertexError(error)),
            },
    {
        match self {
            TextEmbeddingResponse::Success(ok) => Ok(ok),
            TextEmbeddingResponse::Failure { error } => Err(Error::VertexError(error)),
        }
    }
}

} // verus!
