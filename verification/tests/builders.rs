use gemini_rs::client::{
    auth_scope, collect_text_from_response, conversation_request, endpoint_url,
    response_to_message, Model,
};
use gemini_rs::conversation::{Conversation, Message};
use gemini_rs::dialogue::Dialogue;
use gemini_rs::error::Error;
use gemini_rs::types::common::{Content, Part, Role};
use gemini_rs::types::error::VertexApiError;
use gemini_rs::types::generate_content::{Candidate, GenerateContentResponseResult};

#[test]
fn content_builder_collects_parts_in_order() {
    let content = Content::builder()
        .role(Role::Model)
        .add_text_part("one")
        .add_part(Part::FileData {
            mime_type: String::from("video/mp4"),
            file_uri: String::from("gs://bucket/clip"),
        })
        .add_text_part("two")
        .build();
    assert_eq!(content.role, Some(Role::Model));
    let parts = content.parts.as_ref().unwrap();
    assert_eq!(parts.len(), 3);
    assert_eq!(content.get_text().as_deref(), Some("onetwo"));
}

#[test]
fn content_without_parts_has_no_text() {
    let content = Content::builder().role(Role::User).build();
    assert!(content.get_text().is_none());
}

#[test]
fn role_names_round_trip() {
    assert_eq!(Role::User.to_string(), "user");
    assert_eq!(Role::Model.to_string(), "model");
    assert_eq!(Role::from_str("user"), Some(Role::User));
    assert_eq!(Role::from_str("model"), Some(Role::Model));
    assert_eq!(Role::from_str("system"), None);
}

#[test]
fn conversation_collects_messages() {
    let mut conversation = Conversation::new();
    conversation.push_message(Message::new(Role::User, "hi"));
    conversation.push_message(Message::new(Role::Model, "hello"));
    assert_eq!(conversation.messages.len(), 2);
    assert_eq!(conversation.messages[0].text, "hi");
    assert_eq!(conversation.messages[1].role, Role::Model);
}

#[test]
fn dialogue_commits_only_successful_turns() {
    let mut dialogue = Dialogue::new("gemini-pro");
    assert_eq!(dialogue.model().as_str(), "gemini-pro");
    let outgoing = dialogue.turn_messages("first question");
    assert_eq!(outgoing.len(), 1);
    assert_eq!(outgoing[0].text, "first question");
    // The turn failed: nothing was committed, so the next attempt sends
    // the same single message again.
    let retry = dialogue.turn_messages("first question");
    assert_eq!(retry.len(), 1);
    // The turn succeeded: the exchange enters the history.
    dialogue.commit_turn("first question", Message::new(Role::Model, "an answer"));
    let next = dialogue.turn_messages("second question");
    assert_eq!(next.len(), 3);
    assert_eq!(next[0].text, "first question");
    assert_eq!(next[1].text, "an answer");
    assert_eq!(next[1].role, Role::Model);
    assert_eq!(next[2].text, "second question");
}

#[test]
fn endpoint_url_is_exact() {
    let url = endpoint_url(
        "us-central1-aiplatform.googleapis.com",
        "v1beta1",
        "my-project",
        "us-central1",
        "gemini-pro",
        "streamGenerateContent",
        true,
    );
    assert_eq!(
        url,
        "https://us-central1-aiplatform.googleapis.com/v1beta1/projects/my-project/locations/us-central1/publishers/google/models/gemini-pro:streamGenerateContent?alt=sse"
    );
    let plain = endpoint_url(
        "us-central1-aiplatform.googleapis.com",
        "v1beta1",
        "my-project",
        "us-central1",
        "gemini-pro",
        "generateContent",
        false,
    );
    assert_eq!(
        plain,
        "https://us-central1-aiplatform.googleapis.com/v1beta1/projects/my-project/locations/us-central1/publishers/google/models/gemini-pro:generateContent"
    );
}

#[test]
fn model_and_scope_names() {
    assert_eq!(Model::GeminiPro.to_string(), "gemini-pro");
    assert_eq!(auth_scope(), "https://www.googleapis.com/auth/cloud-platform");
}

fn text_candidate(text: &str) -> Candidate {
    Candidate {
        content: Some(
            Content::builder().role(Role::Model).add_text_part(text).build(),
        ),
        citation_metadata: None,
        safety_ratings: None,
        finish_reason: None,
    }
}

#[test]
fn collected_texts_keep_order_and_skip_empty_candidates() {
    let response = GenerateContentResponseResult {
        candidates: vec![
            text_candidate("first"),
            Candidate {
                content: None,
                citation_metadata: None,
                safety_ratings: None,
                finish_reason: Some(String::from("SAFETY")),
            },
            text_candidate("second"),
        ],
        usage_metadata: None,
    };
    assert_eq!(collect_text_from_response(&response), vec!["first", "second"]);
    match response_to_message(&response) {
        Ok(m) => {
            assert_eq!(m.role, Role::Model);
            assert_eq!(m.text, "second");
        }
        Err(e) => panic!("expected the last text, got {:?}", e),
    }
}

#[test]
fn empty_response_is_the_no_candidates_error() {
    let response = GenerateContentResponseResult { candidates: vec![], usage_metadata: None };
    match response_to_message(&response) {
        Err(Error::NoCandidatesError) => {}
        other => panic!("expected the no-candidates error, got {:?}", other),
    }
}

#[test]
fn conversation_request_mirrors_the_history() {
    let messages = vec![
        Message::new(Role::User, "q1"),
        Message::new(Role::Model, "a1"),
        Message::new(Role::User, "q2"),
    ];
    let request = conversation_request(&messages);
    assert_eq!(request.contents.len(), 3);
    assert_eq!(request.contents[0].role, Some(Role::User));
    assert_eq!(request.contents[1].role, Some(Role::Model));
    assert_eq!(request.contents[1].get_text().as_deref(), Some("a1"));
    assert!(request.generation_config.is_none());
    assert!(request.tools.is_none());
}

#[test]
fn vertex_error_describes_itself() {
    let err = VertexApiError {
        code: 429,
        message: String::from("rate limited"),
        status: String::from("RESOURCE_EXHAUSTED"),
        details: None,
    };
    assert_eq!(err.describe(), "Vertex API Error 429 - rate limited");
}

#[test]
fn errors_describe_themselves() {
    assert_eq!(
        Error::HttpClient(String::from("connection refused")).describe(),
        "HTTP Client error: connection refused"
    );
    assert_eq!(
        Error::Token(String::from("no credentials")).describe(),
        "Token error: no credentials"
    );
    assert_eq!(
        Error::Serde(String::from("{bad")).describe(),
        "Serde error: {bad"
    );
    assert_eq!(
        Error::NoCandidatesError.describe(),
        "No candidates returned for the prompt"
    );
    assert_eq!(
        Error::EventSourceClosedError.describe(),
        "EventSource closed error"
    );
    let vertex = Error::VertexError(VertexApiError {
        code: -7,
        message: String::from("boom"),
        status: String::from("INTERNAL"),
        details: None,
    });
    assert_eq!(vertex.describe(), "Vertex error: Vertex API Error -7 - boom");
}
