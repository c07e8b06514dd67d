//! The computational core of the client facade: endpoint construction,
//! request assembly for a conversation, and reply extraction.
//!
//! The network calls themselves live outside the library; they hand
//! bodies in and out as plain text.

use vstd::prelude::*;

use crate::conversation::Message;
use crate::error::Error;
use crate::types::common::{Content, ContentView, Part, PartView, Role};
use crate::types::generate_content::{
    CandidateView, GenerateContentRequest, GenerateContentResponseResult,
};

verus! {

/// The OAuth scope every call authenticates with.
pub fn auth_scope() -> (r: &'static str)
    ensures
        r@ == "https://www.googleapis.com/auth/cloud-platform"@,
{
    "https://www.googleapis.com/auth/cloud-platform"
}

/// The models this crate names outright.
#[derive(Clone, Copy, Debug, PartialEq, Eq, Structural)]
pub enum Model {
    GeminiPro,
}

impl Model {
    /// The model identifier used in the endpoint path.
    pub fn to_string(&self) -> (r: String)
        ensures
            r@ == "gemini-pro"@,
    {
        String::from_str("gemini-pro")
    }
}

/// The full endpoint of one operation:
/// `https://{host}/{version}/projects/{project}/locations/{location}`
/// `/publishers/google/models/{model}:{operation}`, with `?alt=sse`
/// appended exactly for a streaming call.
pub fn endpoint_url(
    api_endpoint: &str,
    version: &str,
    project_id: &str,
    location_id: &str,
    model: &str,
    operation: &str,
    sse: bool,
) -> (r: String)
    ensures
        r@ == "https://"@ + api_endpoint@ + "/"@ + version@ + "/projects/"@ + project_id@
            + "/locations/"@ + location_id@ + "/publishers/google/models/"@ + model@ + ":"@
            + operation@ + (if sse {
            "?alt=sse"@
        } else {
            Seq::<char>::empty()
        }),
{
    let mut r = String::from_str("https://");
    r.append(api_endpoint);
    r.append("/");
    r.append(version);
    r.append("/projects/");
    r.append(project_id);
    r.append("/locations/");
    r.append(location_id);
    r.append("/publishers/google/models/");
    r.append(model);
    r.append(":");
    r.append(operation);
    if sse {
        r.append("?alt=sse");
    }
    proof {
        assert(r@ =~= "https://"@ + api_endpoint@ + "/"@ + version@ + "/projects/"@ + project_id@
            + "/locations/"@ + location_id@ + "/publishers/google/models/"@ + model@ + ":"@
            + operation@ + (if sse {
            "?alt=sse"@
        } else {
            Seq::<char>::empty()
        }));
    }
    r
}

/// What one candidate contributes to the collected texts: its extracted
/// text when it has content with parts, nothing otherwise.
pub open spec fn spec_candidate_text_piece(c: CandidateView) -> Seq<Seq<char>> {
    match c.content {
        Some(cv) => match cv.text() {
            Some(t) => seq![t],
            None => Seq::empty(),
        },
        None => Seq::empty(),
    }
}

/// The texts of all candidates that have any, in order.
pub open spec fn spec_collected_texts(cs: Seq<CandidateView>) -> Seq<Seq<char>>
    decreases cs.len(),
{
    if cs.len() == 0 {
        Seq::empty()
    } else {
        spec_candidate_text_piece(cs[0]) + spec_collected_texts(cs.drop_first())
    }
}

proof fn lemma_collected_take_step(cs: Seq<CandidateView>, i: int)
    requires
        0 <= i < cs.len(),
    ensures
        spec_collected_texts(cs.take(i + 1)) == spec_collected_texts(cs.take(i))
            + spec_candidate_text_piece(cs[i]),
    decreases i,
{
    if i == 0 {
        assert(cs.take(1) =~= seq![cs[0]]);
        assert(cs.take(1).drop_first() =~= Seq::empty());
        assert(cs.take(0) =~= Seq::empty());
        assert(spec_collected_texts(cs.take(1)) =~= spec_collected_texts(cs.take(0))
            + spec_candidate_text_piece(cs[0]));
    } else {
        lemma_collected_take_step(cs.drop_first(), i - 1);
        assert(cs.take(i + 1).drop_first() =~= cs.drop_first().take(i));
        assert(cs.take(i).drop_first() =~= cs.drop_first().take(i - 1));
        assert(cs.take(i + 1)[0] == cs[0]);
        assert(cs.take(i)[0] == cs[0]);
        assert(spec_collected_texts(cs.take(i + 1)) =~= spec_collected_texts(cs.take(i))
            + spec_candidate_text_piece(cs[i]));
    }
}

/// The extracted text of every candidate that has any, in order.
pub fn collect_text_from_response(response: &GenerateContentResponseResult) -> (r: Vec<String>)
    ensures
        r.deep_view() == spec_collected_texts(response.deep_view().candidates),
{
    let ghost cs: Seq<CandidateView> = response.deep_view().candidates;
    let mut out: Vec<String> = Vec::new();
    let n = response.candidates.len();
    let mut i: usize = 0;
    assert(spec_collected_texts(cs.take(0)) =~= Seq::<Seq<char>>::empty());
    assert(out.deep_view() =~= Seq::<Seq<char>>::empty());
    while i < n
        invariant
            i <= n,
            n == response.candidates@.len(),
            cs == response.deep_view().candidates,
            out.deep_view() == spec_collected_texts(cs.take(i as int)),
        decreases n - i,
    {
        proof {
            assert(cs[i as int] == response.candidates@[i as int].deep_view());
            lemma_collected_take_step(cs, i as int);
        }
        let ghost before: Seq<Seq<char>> = out.deep_view();
        match response.candidates[i].get_text() {
            Some(t) => {
                out.push(t);
                assert(out.deep_view() =~= before + spec_candidate_text_piece(cs[i as int]));
            },
            None => {
                assert(out.deep_view() =~= before + spec_candidate_text_piece(cs[i as int]));
            },
        }
        i = i + 1;
    }
    assert(cs.take(n as int) =~= cs);
    out
}

/// The model's reply, taken from the last candidate that carried text;
/// a success envelope with no usable text is the no-candidates error.
pub fn response_to_message(response: &GenerateContentResponseResult) -> (r: Result<Message, Error>)
    ensures
        ({
            let texts = spec_collected_texts(response.deep_view().candidates);
            if texts.len() > 0 {
                r matches Ok(m) && m.role == Role::Model && m.text@ == texts.last()
            } else {
                r == Err::<Message, Error>(Error::NoCandidatesError)
            }
        }),
{
    let mut texts = collect_text_from_response(response);
    match texts.pop() {
        Some(t) => Ok(Message { role: Role::Model, text: t }),
        None => Err(Error::NoCandidatesError),
    }
}

/// The generation request of a conversation: one content per message, in
/// order, each holding the message's text as its single part; nothing
/// optional is set.
pub fn conversation_request(messages: &[Message]) -> (r: GenerateContentRequest)
    ensures
        r.contents@.len() == messages@.len(),
        forall|k: int|
            0 <= k < messages@.len() ==> #[trigger] r.contents@[k].deep_view() == (ContentView {
                role: Some(messages@[k].role),
                parts: Some(seq![PartView::Text(messages@[k].text@)]),
            }),
        r.generation_config is None,
        r.tools is None,
        r.safety_settings is None,
        r.system_instruction is None,
{
    let mut contents: Vec<Content> = Vec::new();
    let n = messages.len();
    let mut i: usize = 0;
    while i < n
        invariant
            i <= n,
            n == messages@.len(),
            contents@.len() == i,
            forall|k: int|
                0 <= k < i ==> #[trigger] contents@[k].deep_view() == (ContentView {
                    role: Some(messages@[k].role),
                    parts: Some(seq![PartView::Text(messages@[k].text@)]),
                }),
        decreases n - i,
    {
        let m = &messages[i];
        let mut parts: Vec<Part> = Vec::new();
        parts.push(Part::Text(m.text.clone()));
        let c = Content { role: Some(m.role), parts: Some(parts) };
        proof {
            assert(c.deep_view().parts matches Some(ps) && ps =~= seq![
                PartView::Text(messages@[i as int].text@),
            ]);
        }
        contents.push(c);
        i = i + 1;
    }
    GenerateContentRequest {
        contents,
        generation_config: None,
        tools: None,
        safety_settings: None,
        system_instruction: None,
    }
}

} // verus!
