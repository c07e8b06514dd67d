use gemini_rs::error::Error;
use gemini_rs::types::count_tokens::CountTokensResponse;
use gemini_rs::types::error::ErrorType;
use gemini_rs::types::generate_content::{GenerateContentResponse, GenerateContentResponseResult};
use gemini_rs::types::predict_image::PredictImageResponse;
use gemini_rs::types::text_embeddings::TextEmbeddingResponse;

fn expect_success(body: &str) -> GenerateContentResponseResult {
    match GenerateContentResponse::from_text(body) {
        Ok(GenerateContentResponse::Success(res)) => res,
        other => panic!("expected a success envelope, got {:?}", other),
    }
}

#[test]
pub fn parses_empty_metadata_response() {
    let input = r#"{"candidates": [{"content": {"role": "model","parts": [{"text": "-"}]}}],"usageMetadata": {}}"#;
    let res = expect_success(input);
    assert_eq!(res.candidates.len(), 1);
    let usage = res.usage_metadata.expect("empty usage object still decodes");
    assert!(usage.candidates_token_count.is_none());
    assert!(usage.prompt_token_count.is_none());
    assert!(usage.total_token_count.is_none());
}

#[test]
pub fn parses_max_tokens_response() {
    let input = r#"{
        "candidates": [
          {
            "content": {
              "role": "model",
              "parts": [
                {
                  "text": "Service workers are powerful and absolutely worth learning."
                }
              ]
            },
            "finishReason": "MAX_TOKENS",
            "safetyRatings": [
              {
                "category": "HARM_CATEGORY_HATE_SPEECH",
                "probability": "NEGLIGIBLE",
                "probabilityScore": 0.03882902,
                "severity": "HARM_SEVERITY_NEGLIGIBLE",
                "severityScore": 0.05781161
              },
              {
                "category": "HARM_CATEGORY_DANGEROUS_CONTENT",
                "probability": "NEGLIGIBLE",
                "probabilityScore": 0.07626997,
                "severity": "HARM_SEVERITY_NEGLIGIBLE",
                "severityScore": 0.06705628
              }
            ],
            "citationMetadata": {
              "citations": [
                {
                  "endIndex": 151,
                  "uri": "https://web.dev/service-worker-mindset/"
                },
                {
                  "startIndex": 93,
                  "endIndex": 297,
                  "uri": "https://web.dev/service-worker-mindset/"
                },
                {
                  "endIndex": 297
                }
              ]
            }
          }
        ],
        "usageMetadata": {
          "promptTokenCount": 12069,
          "candidatesTokenCount": 61,
          "totalTokenCount": 12130
        }
      }"#;
    let res = expect_success(input);
    assert_eq!(res.candidates.len(), 1);
    let c = &res.candidates[0];
    assert_eq!(c.finish_reason.as_deref(), Some("MAX_TOKENS"));
    let citations = &c.citation_metadata.as_ref().unwrap().citations;
    assert_eq!(citations.len(), 3);
    assert_eq!(citations[0].start_index, None);
    assert_eq!(citations[0].end_index, Some(151));
    assert_eq!(citations[1].start_index, Some(93));
    assert_eq!(citations[2].uri, None);
    let ratings = c.safety_ratings.as_ref().unwrap();
    assert_eq!(ratings.len(), 2);
    assert_eq!(ratings[0].probability_score.as_deref(), Some("0.03882902"));
    let usage = res.usage_metadata.unwrap();
    assert_eq!(usage.prompt_token_count, Some(12069));
    assert_eq!(usage.candidates_token_count, Some(61));
    assert_eq!(usage.total_token_count, Some(12130));
}

#[test]
fn parses_candidates_without_content() {
    let input = r#"{
    "candidates": [
      {
        "finishReason": "RECITATION",
        "safetyRatings": [
          {
            "category": "HARM_CATEGORY_HATE_SPEECH",
            "probability": "NEGLIGIBLE",
            "probabilityScore": 0.08021325,
            "severity": "HARM_SEVERITY_NEGLIGIBLE",
            "severityScore": 0.0721122
          }
        ],
        "citationMetadata": {
          "citations": [
            {
              "startIndex": 1108,
              "endIndex": 1250,
              "uri": "https://chrome.google.com/webstore/detail/autocontrol-shortcut-mana/lkaihdpfpifdlgoapbfocpmekbokmcfd?hl=zh-TW"
            }
          ]
        }
      }
    ],
    "usageMetadata": {
      "promptTokenCount": 577,
      "totalTokenCount": 577
    }
  }"#;
    let res = expect_success(input);
    assert_eq!(res.candidates.len(), 1);
    let c = &res.candidates[0];
    assert!(c.content.is_none());
    assert_eq!(c.finish_reason.as_deref(), Some("RECITATION"));
}

#[test]
fn parses_safety_rating_without_scores() {
    let input = r#"{
      "candidates": [
        {
          "content": {
            "role": "model",
            "parts": [
              {
                "text": "Return text"
              }
            ]
          },
          "finishReason": "STOP",
          "safetyRatings": [
            {
              "category": "HARM_CATEGORY_HATE_SPEECH",
              "probability": "NEGLIGIBLE",
              "severity": "HARM_SEVERITY_NEGLIGIBLE"
            },
            {
              "category": "HARM_CATEGORY_SEXUALLY_EXPLICIT",
              "probability": "NEGLIGIBLE",
              "severity": "HARM_SEVERITY_NEGLIGIBLE"
            }
          ]
        }
      ],
      "usageMetadata": {
        "promptTokenCount": 5492,
        "candidatesTokenCount": 1256,
        "totalTokenCount": 6748
      }
    }"#;
    let res = expect_success(input);
    let ratings = res.candidates[0].safety_ratings.as_ref().unwrap();
    assert_eq!(ratings.len(), 2);
    assert!(ratings[0].probability_score.is_none());
    assert!(ratings[0].severity_score.is_none());
    assert_eq!(ratings[0].category, "HARM_CATEGORY_HATE_SPEECH");
}

#[test]
fn error_envelope_decodes_to_service_error() {
    let input = r#"{"error": {"code": 429, "message": "rate limited", "status": "RESOURCE_EXHAUSTED", "details": []}}"#;
    let resp = GenerateContentResponse::from_text(input).expect("the error shape decodes");
    let err = match resp {
        GenerateContentResponse::Failure(e) => e.error,
        GenerateContentResponse::Success(_) => panic!("an error envelope is not a success"),
    };
    assert_eq!(err.code, 429);
    assert_eq!(err.message, "rate limited");
    assert_eq!(err.status, "RESOURCE_EXHAUSTED");
    assert_eq!(err.details, Some(vec![]));
}

#[test]
fn error_envelope_through_into_result() {
    let input = r#"{"error": {"code": 429, "message": "rate limited", "status": "RESOURCE_EXHAUSTED", "details": []}}"#;
    let resp = GenerateContentResponse::from_text(input).unwrap();
    match resp.into_result() {
        Err(Error::VertexError(e)) => {
            assert_eq!(e.code, 429);
            assert_eq!(e.message, "rate limited");
        }
        other => panic!("expected the service error, got {:?}", other),
    }
}

#[test]
fn error_details_decode_by_type_tag() {
    let input = r#"{"error": {"code": 400, "message": "bad", "status": "INVALID_ARGUMENT", "details": [
        {"@type": "type.googleapis.com/google.rpc.ErrorInfo", "metadata": {"service": "aiplatform.googleapis.com", "consumer": "projects/p"}},
        {"@type": "type.googleapis.com/google.rpc.Help", "links": [{"description": "doc", "url": "https://example.com"}]},
        {"@type": "type.googleapis.com/google.rpc.BadRequest", "fieldViolations": [{"field": "contents", "description": "missing"}]}
    ]}}"#;
    let resp = GenerateContentResponse::from_text(input).unwrap();
    let err = match resp {
        GenerateContentResponse::Failure(e) => e.error,
        _ => panic!("expected the error envelope"),
    };
    let details = err.details.unwrap();
    assert_eq!(details.len(), 3);
    match &details[0] {
        ErrorType::ErrorInfo { metadata } => {
            assert_eq!(metadata.service, "aiplatform.googleapis.com");
            assert_eq!(metadata.consumer, "projects/p");
        }
        other => panic!("expected error info, got {:?}", other),
    }
    match &details[1] {
        ErrorType::Help { links } => {
            assert_eq!(links.len(), 1);
            assert_eq!(links[0].url, "https://example.com");
        }
        other => panic!("expected help links, got {:?}", other),
    }
    match &details[2] {
        ErrorType::BadRequest { field_violations } => {
            assert_eq!(field_violations.len(), 1);
            assert_eq!(field_violations[0].field, "contents");
        }
        other => panic!("expected field violations, got {:?}", other),
    }
}

#[test]
fn malformed_body_is_a_decode_error_with_raw_text() {
    let input = "this is not json";
    match GenerateContentResponse::from_text(input) {
        Err(Error::Serde(raw)) => assert_eq!(raw, input),
        other => panic!("expected a decode error, got {:?}", other),
    }
}

#[test]
fn body_matching_neither_shape_is_a_decode_error() {
    let input = r#"{"unexpected": 1}"#;
    match GenerateContentResponse::from_text(input) {
        Err(Error::Serde(raw)) => assert_eq!(raw, input),
        other => panic!("expected a decode error, got {:?}", other),
    }
}

#[test]
fn success_shape_wins_over_nested_error_key() {
    let input = r#"{"candidates": [], "error": {"code": 1, "message": "m", "status": "S"}}"#;
    match GenerateContentResponse::from_text(input) {
        Ok(GenerateContentResponse::Success(res)) => assert_eq!(res.candidates.len(), 0),
        other => panic!("the success shape is probed first, got {:?}", other),
    }
}

#[test]
fn count_tokens_success_decodes() {
    let input = r#"{"totalTokens": 31, "totalBillableCharacters": 96}"#;
    match CountTokensResponse::from_text(input) {
        Ok(CountTokensResponse::Success { total_tokens, total_billable_characters }) => {
            assert_eq!(total_tokens, 31);
            assert_eq!(total_billable_characters, 96);
        }
        other => panic!("expected the counts, got {:?}", other),
    }
}

#[test]
fn count_tokens_error_decodes() {
    let input = r#"{"error": {"code": 403, "message": "forbidden", "status": "PERMISSION_DENIED"}}"#;
    match CountTokensResponse::from_text(input) {
        Ok(CountTokensResponse::Failure { error }) => {
            assert_eq!(error.code, 403);
            assert_eq!(error.message, "forbidden");
            assert_eq!(error.details, None);
        }
        other => panic!("expected the error envelope, got {:?}", other),
    }
}

#[test]
fn embeddings_response_decodes() {
    let input = r#"{"predictions": [{"embeddings": {"statistics": {"truncated": false, "token_count": 6}, "values": [0.123, -4, 1.5e-3]}}]}"#;
    match TextEmbeddingResponse::from_text(input) {
        Ok(TextEmbeddingResponse::Success(ok)) => {
            assert_eq!(ok.predictions.len(), 1);
            let emb = &ok.predictions[0].embeddings;
            assert!(!emb.statistics.truncated);
            assert_eq!(emb.statistics.token_count, 6);
            assert_eq!(emb.values[0], "0.123");
            assert_eq!(emb.values[1], "-4");
            assert_eq!(emb.values.len(), 3);
        }
        other => panic!("expected embeddings, got {:?}", other),
    }
}

#[test]
fn embeddings_error_through_into_result() {
    let input = r#"{"error": {"code": 500, "message": "internal", "status": "INTERNAL"}}"#;
    let resp = TextEmbeddingResponse::from_text(input).unwrap();
    match resp.into_result() {
        Err(Error::VertexError(e)) => assert_eq!(e.code, 500),
        other => panic!("expected the service error, got {:?}", other),
    }
}

#[test]
fn predict_image_response_decodes() {
    let input = r#"{"predictions": [{"bytesBase64Encoded": "aGVsbG8=", "mimeType": "image/png"}]}"#;
    match PredictImageResponse::from_text(input) {
        Ok(resp) => {
            assert_eq!(resp.predictions.len(), 1);
            assert_eq!(resp.predictions[0].bytes_base64_encoded, "aGVsbG8=");
            assert_eq!(resp.predictions[0].mime_type, "image/png");
        }
        other => panic!("expected predictions, got {:?}", other),
    }
}

#[test]
fn candidate_count_out_of_range_rejects_the_success_shape() {
    let input = r#"{"candidates": [{"citationMetadata": {"citations": [{"startIndex": 4294967296}]}}]}"#;
    match GenerateContentResponse::from_text(input) {
        Err(Error::Serde(_)) => {}
        other => panic!("an index beyond 32 bits must not decode, got {:?}", other),
    }
}

#[test]
fn duplicate_object_keys_keep_the_last_binding() {
    // The JSON parser resolves duplicate keys before the library sees
    // the tree; the later binding wins.
    let input = r#"{"totalTokens": 1, "totalTokens": 2, "totalBillableCharacters": 3}"#;
    match CountTokensResponse::from_text(input) {
        Ok(CountTokensResponse::Success { total_tokens, .. }) => assert_eq!(total_tokens, 2),
        other => panic!("expected the counts, got {:?}", other),
    }
}

#[test]
fn token_counts_at_the_unsigned_boundary() {
    let input = r#"{"candidates": [], "usageMetadata": {"totalTokenCount": 4294967295}}"#;
    match GenerateContentResponse::from_text(input) {
        Ok(GenerateContentResponse::Success(res)) => {
            assert_eq!(res.usage_metadata.unwrap().total_token_count, Some(u32::MAX));
        }
        other => panic!("expected the success shape, got {:?}", other),
    }
    let over = r#"{"candidates": [], "usageMetadata": {"totalTokenCount": 4294967296}}"#;
    match GenerateContentResponse::from_text(over) {
        Err(Error::Serde(_)) => {}
        other => panic!("a count beyond 32 bits must not decode, got {:?}", other),
    }
}
