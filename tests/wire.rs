use ollama_chat::client::{
    decode_generation, decode_model, decode_models, generate_body, ChatError, Endpoint,
    GenerateRequest,
};
use ollama_chat::json::{Json, JsonNumber};

fn text(s: &str) -> Json {
    Json::Str(s.to_string())
}

fn object(members: Vec<(&str, Json)>) -> Json {
    Json::Object(members.into_iter().map(|(k, v)| (k.to_string(), v)).collect())
}

fn model_entry(name: &str, modified_at: &str, size: u64, digest: &str) -> Json {
    object(vec![
        ("name", text(name)),
        ("modified_at", text(modified_at)),
        ("size", Json::Number(JsonNumber::Unsigned(size))),
        ("digest", text(digest)),
    ])
}

#[test]
fn listing_with_one_model_gives_its_four_fields() {
    let body = object(vec![("models", Json::Array(vec![model_entry("llama3", "t1", 100, "d1")]))]);
    let resp = decode_models(&body).unwrap();
    assert_eq!(resp.models.len(), 1);
    assert_eq!(resp.models[0].name, "llama3");
    assert_eq!(resp.models[0].modified_at, "t1");
    assert_eq!(resp.models[0].size, 100);
    assert_eq!(resp.models[0].digest, "d1");
}

#[test]
fn listing_keeps_the_server_order() {
    let body = object(vec![(
        "models",
        Json::Array(vec![
            model_entry("zeta", "t3", 3, "d3"),
            model_entry("alpha", "t1", 1, "d1"),
            model_entry("mid", "t2", 2, "d2"),
        ]),
    )]);
    let resp = decode_models(&body).unwrap();
    let names: Vec<&str> = resp.models.iter().map(|m| m.name.as_str()).collect();
    assert_eq!(names, vec!["zeta", "alpha", "mid"]);
    assert_eq!(resp.models[1].size, 1);
}

#[test]
fn empty_listing_gives_no_models() {
    let body = object(vec![("models", Json::Array(vec![]))]);
    assert_eq!(decode_models(&body).unwrap().models.len(), 0);
}

#[test]
fn listing_ignores_extra_members() {
    let mut entry = model_entry("llama3", "t1", 100, "d1");
    if let Json::Object(members) = &mut entry {
        members.push(("details".to_string(), Json::Null));
    }
    let body = object(vec![("other", Json::Bool(true)), ("models", Json::Array(vec![entry]))]);
    assert_eq!(decode_models(&body).unwrap().models[0].name, "llama3");
}

#[test]
fn listing_without_models_is_a_decode_error() {
    let body = object(vec![("error", text("boom"))]);
    assert!(matches!(decode_models(&body), Err(ChatError::Decode(_))));
    assert!(matches!(decode_models(&Json::Null), Err(ChatError::Decode(_))));
    let not_array = object(vec![("models", text("x"))]);
    assert!(matches!(decode_models(&not_array), Err(ChatError::Decode(_))));
}

#[test]
fn listing_with_a_broken_entry_is_a_decode_error() {
    let broken = object(vec![("name", text("llama3")), ("size", Json::Number(JsonNumber::Unsigned(1)))]);
    let body = object(vec![("models", Json::Array(vec![model_entry("a", "t", 1, "d"), broken]))]);
    assert!(matches!(decode_models(&body), Err(ChatError::Decode(_))));
}

#[test]
fn model_size_must_be_a_whole_unsigned_number() {
    let mut entry = model_entry("m", "t", 0, "d");
    if let Json::Object(members) = &mut entry {
        members[2].1 = Json::Number(JsonNumber::Signed(-5));
    }
    assert!(matches!(decode_model(&entry), Err(ChatError::Decode(_))));
    if let Json::Object(members) = &mut entry {
        members[2].1 = Json::Number(JsonNumber::Signed(7));
    }
    assert_eq!(decode_model(&entry).unwrap().size, 7);
    if let Json::Object(members) = &mut entry {
        members[2].1 = Json::Number(JsonNumber::Fractional("1.5".to_string()));
    }
    assert!(matches!(decode_model(&entry), Err(ChatError::Decode(_))));
    if let Json::Object(members) = &mut entry {
        members[2].1 = Json::Number(JsonNumber::Unsigned(u64::MAX));
    }
    assert_eq!(decode_model(&entry).unwrap().size, u64::MAX);
}

#[test]
fn generation_body_gives_the_completion() {
    let body = object(vec![("model", text("llama3")), ("response", text("hello")), ("done", Json::Bool(true))]);
    assert_eq!(decode_generation(&body).unwrap(), "hello");
}

#[test]
fn generation_without_text_response_is_a_decode_error() {
    let missing = object(vec![("error", text("model not found"))]);
    assert!(matches!(decode_generation(&missing), Err(ChatError::Decode(_))));
    let wrong = object(vec![("response", Json::Number(JsonNumber::Unsigned(1)))]);
    assert!(matches!(decode_generation(&wrong), Err(ChatError::Decode(_))));
    assert!(matches!(decode_generation(&text("hello")), Err(ChatError::Decode(_))));
}

#[test]
fn first_member_of_a_name_wins() {
    let body = object(vec![("response", text("first")), ("response", text("second"))]);
    assert_eq!(decode_generation(&body).unwrap(), "first");
    assert_eq!(body.text_of("response").unwrap(), "first");
    assert!(body.member("absent").is_none());
}

#[test]
fn request_body_is_single_shot() {
    let request = GenerateRequest { model: "llama3".to_string(), prompt: "hi".to_string() };
    let body = generate_body(&request);
    match &body {
        Json::Object(members) => {
            assert_eq!(members.len(), 3);
            assert_eq!(members[0].0, "model");
            assert_eq!(members[1].0, "prompt");
            assert_eq!(members[2].0, "stream");
        }
        _ => panic!("body is not an object"),
    }
    assert_eq!(body.text_of("model").unwrap(), "llama3");
    assert_eq!(body.text_of("prompt").unwrap(), "hi");
    assert!(matches!(body.member("stream"), Some(Json::Bool(false))));
}

#[test]
fn endpoint_urls() {
    let local = Endpoint::local();
    assert_eq!(local.tags_url(), "http://localhost:11434/api/tags");
    assert_eq!(local.generate_url(), "http://localhost:11434/api/generate");
    let other = Endpoint::new("http://10.0.0.2:8080".to_string());
    assert_eq!(other.tags_url(), "http://10.0.0.2:8080/api/tags");
    assert_eq!(other.generate_url(), "http://10.0.0.2:8080/api/generate");
}

#[test]
fn errors_are_described_by_kind() {
    let transport = ChatError::Transport("connection refused".to_string());
    assert_eq!(transport.describe(), "transport error: connection refused");
    let decode = ChatError::Decode("bad body".to_string());
    assert_eq!(decode.describe(), "decode error: bad body");
}
