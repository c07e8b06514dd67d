use gemini_rs::json::Json;
use gemini_rs::types::common::{Content, Part, Role};
use gemini_rs::types::count_tokens::CountTokensRequest;
use gemini_rs::types::generate_content::{
    GenerateContentRequest, GenerationConfig, HarmBlockThreshold, HarmCategory, SafetySetting,
    Tools,
};
use gemini_rs::types::predict_image::{
    PredictImageRequest, PredictImageRequestParameters, PredictImageRequestPrompt,
};
use gemini_rs::types::text_embeddings::{TextEmbeddingRequest, TextEmbeddingRequestInstance};

#[test]
fn writer_produces_exact_json_text() {
    let j = Json::Obj(vec![
        (String::from("a"), Json::Int(1)),
        (
            String::from("b"),
            Json::Arr(vec![
                Json::Bool(true),
                Json::Null,
                Json::Str(String::from("x\"y")),
                Json::Num(String::from("0.5")),
            ]),
        ),
    ]);
    assert_eq!(j.to_text(), r#"{"a":1,"b":[true,null,"x\"y",0.5]}"#);
}

#[test]
fn writer_formats_integers() {
    assert_eq!(Json::Int(0).to_text(), "0");
    assert_eq!(Json::Int(-5).to_text(), "-5");
    assert_eq!(Json::Int(9007199254740993).to_text(), "9007199254740993");
    assert_eq!(Json::Int(i64::MAX).to_text(), "9223372036854775807");
    assert_eq!(Json::Int(i64::MIN).to_text(), "-9223372036854775808");
}

#[test]
fn writer_escapes_strings() {
    let j = Json::Str(String::from("line\nquote\"back\\tab\tret\rbell\u{1}"));
    assert_eq!(j.to_text(), r#""line\nquote\"back\\tab\tret\rbell\u0001""#);
}

#[test]
fn content_encoding_round_trips_through_serde_json() {
    let content = Content::builder()
        .role(Role::User)
        .add_text_part("hello ")
        .add_text_part("world")
        .add_part(Part::InlineData {
            mime_type: String::from("image/png"),
            data: String::from("AAAA"),
        })
        .build();
    let text = content.to_json().to_text();
    let v: serde_json::Value = serde_json::from_str(&text).expect("the writer emits valid JSON");
    assert_eq!(v["role"], "user");
    assert_eq!(v["parts"][0]["text"], "hello ");
    assert_eq!(v["parts"][1]["text"], "world");
    assert_eq!(v["parts"][2]["inlineData"]["mimeType"], "image/png");
    // And back through the library's own decoder: the text parts'
    // concatenation survives the cycle.
    let reparsed = match gemini_rs::types::generate_content::GenerateContentResponse::from_text(
        &format!(r#"{{"candidates": [{{"content": {}}}]}}"#, text),
    ) {
        Ok(gemini_rs::types::generate_content::GenerateContentResponse::Success(res)) => res,
        other => panic!("re-decoding the encoded content failed: {:?}", other),
    };
    let round = reparsed.candidates[0].get_text().unwrap();
    assert_eq!(round, "hello world");
    assert_eq!(content.get_text().unwrap(), round);
}

#[test]
fn request_omits_absent_options() {
    let req = GenerateContentRequest::from_prompt("hi", None);
    let text = req.into_body();
    let v: serde_json::Value = serde_json::from_str(&text).unwrap();
    let obj = v.as_object().unwrap();
    assert!(obj.contains_key("contents"));
    assert!(!obj.contains_key("generationConfig"));
    assert!(!obj.contains_key("tools"));
    assert!(!obj.contains_key("safetySettings"));
    assert!(!obj.contains_key("systemInstruction"));
    assert_eq!(v["contents"][0]["role"], "user");
    assert_eq!(v["contents"][0]["parts"][0]["text"], "hi");
}

#[test]
fn request_keeps_present_options() {
    let config = GenerationConfig::builder()
        .max_output_tokens(256)
        .temperature("0.25")
        .top_k(40)
        .candidate_count(1)
        .build();
    let req = GenerateContentRequest::builder()
        .contents(vec![Content::builder().role(Role::User).add_text_part("q").build()])
        .generation_config(config)
        .safety_settings(vec![SafetySetting {
            category: HarmCategory::HateSpeech,
            threshold: HarmBlockThreshold::BlockOnlyHigh,
            method: None,
        }])
        .build();
    let text = req.into_body();
    let v: serde_json::Value = serde_json::from_str(&text).unwrap();
    assert_eq!(v["generationConfig"]["maxOutputTokens"], 256);
    assert_eq!(v["generationConfig"]["temperature"], 0.25);
    assert_eq!(v["generationConfig"]["topK"], 40);
    assert_eq!(v["generationConfig"]["candidateCount"], 1);
    let config_obj = v["generationConfig"].as_object().unwrap();
    assert!(!config_obj.contains_key("topP"));
    assert!(!config_obj.contains_key("stopSequences"));
    assert!(!config_obj.contains_key("responseSchema"));
    assert_eq!(v["safetySettings"][0]["category"], "HARM_CATEGORY_HATE_SPEECH");
    assert_eq!(v["safetySettings"][0]["threshold"], "BLOCK_ONLY_HIGH");
    assert!(!v["safetySettings"][0].as_object().unwrap().contains_key("method"));
}

#[test]
fn response_schema_rides_through_unchanged() {
    let schema = Json::Obj(vec![
        (String::from("type"), Json::Str(String::from("ARRAY"))),
        (
            String::from("items"),
            Json::Obj(vec![(String::from("type"), Json::Str(String::from("STRING")))]),
        ),
    ]);
    let config = GenerationConfig::builder()
        .response_mime_type("application/json")
        .response_schema(schema)
        .build();
    let req = GenerateContentRequest::from_prompt("list things", Some(config));
    let text = req.into_body();
    let v: serde_json::Value = serde_json::from_str(&text).unwrap();
    assert_eq!(v["generationConfig"]["responseMimeType"], "application/json");
    assert_eq!(v["generationConfig"]["responseSchema"]["type"], "ARRAY");
    assert_eq!(v["generationConfig"]["responseSchema"]["items"]["type"], "STRING");
}

#[test]
fn tools_encode_under_their_wire_keys() {
    let tools = Tools {
        function_declarations: None,
        google_search_retrieval: Some(Default::default()),
        google_search: Some(Default::default()),
    };
    let req = GenerateContentRequest::builder()
        .contents(vec![Content::builder().add_text_part("q").build()])
        .tools(vec![tools])
        .build();
    let text = req.into_body();
    let v: serde_json::Value = serde_json::from_str(&text).unwrap();
    let tool = &v["tools"][0];
    assert!(!tool.as_object().unwrap().contains_key("function_declarations"));
    assert_eq!(
        tool["googleSearchRetrieval"]["dynamicRetrievalConfig"]["mode"],
        "MODE_DYNAMIC"
    );
    assert_eq!(
        tool["googleSearchRetrieval"]["dynamicRetrievalConfig"]["dynamicThreshold"],
        0.7
    );
    assert!(tool["google_search"].as_object().unwrap().is_empty());
}

#[test]
fn count_tokens_request_encodes_its_content() {
    let empty: CountTokensRequest = CountTokensRequest::builder().build();
    assert!(empty.contents.parts.is_none());
    let req = gemini_rs::types::count_tokens::CountTokensRequestBuilder::from_prompt("count me")
        .build();
    let text = req.to_json().to_text();
    let v: serde_json::Value = serde_json::from_str(&text).unwrap();
    assert_eq!(v["contents"]["parts"][0]["text"], "count me");
}

#[test]
fn embedding_request_writes_null_title() {
    let req = TextEmbeddingRequest {
        instances: vec![TextEmbeddingRequestInstance {
            content: String::from("embed this"),
            task_type: String::from("RETRIEVAL_DOCUMENT"),
            title: None,
        }],
    };
    let text = req.to_json().to_text();
    let v: serde_json::Value = serde_json::from_str(&text).unwrap();
    assert_eq!(v["instances"][0]["content"], "embed this");
    assert_eq!(v["instances"][0]["task_type"], "RETRIEVAL_DOCUMENT");
    assert!(v["instances"][0]["title"].is_null());
}

#[test]
fn predict_image_request_encodes() {
    let req = PredictImageRequest {
        instances: vec![PredictImageRequestPrompt { prompt: String::from("a lighthouse") }],
        parameters: PredictImageRequestParameters {
            sample_count: 2,
            seed: Some(7),
            add_watermark: Some(false),
            ..Default::default()
        },
    };
    let text = req.to_json().to_text();
    let v: serde_json::Value = serde_json::from_str(&text).unwrap();
    assert_eq!(v["instances"][0]["prompt"], "a lighthouse");
    assert_eq!(v["parameters"]["sampleCount"], 2);
    assert_eq!(v["parameters"]["seed"], 7);
    assert_eq!(v["parameters"]["addWatermark"], false);
    assert!(!v["parameters"].as_object().unwrap().contains_key("negativePrompt"));
}
