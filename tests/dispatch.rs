use llmblast::{build_request, collect_responses, extract_content, parse_response, CallError, Provider};

fn openai(model: &str, key: &str) -> Provider {
    Provider::OpenAI { model_name: model.to_string(), api_key: key.to_string() }
}

fn anthropic(model: &str, key: &str) -> Provider {
    Provider::Anthropic { model_name: model.to_string(), api_key: key.to_string() }
}

#[test]
fn openai_request_has_fixed_shape() {
    let r = build_request("Say hi", &openai("chat-model", "k123")).unwrap();
    assert_eq!(r.url, "https://api.openai.com/v1/chat/completions");
    assert_eq!(r.content_type, "application/json");
    assert_eq!(r.authorization, "Bearer k123");
    assert_eq!(
        r.body,
        "{\"model\":\"chat-model\",\"temperature\":0.0,\"messages\":[{\"role\":\"user\",\"content\":\"Say hi\"}]}"
    );
}

#[test]
fn request_body_is_valid_json_with_prompt_verbatim() {
    let prompt = "line one\nsaid \"hi\" \\ tab\t";
    let r = build_request(prompt, &openai("m", "k")).unwrap();
    let v: serde_json::Value = serde_json::from_str(&r.body).unwrap();
    assert_eq!(v["model"].as_str(), Some("m"));
    assert_eq!(v["temperature"].as_f64(), Some(0.0));
    assert_eq!(v["messages"].as_array().unwrap().len(), 1);
    assert_eq!(v["messages"][0]["role"].as_str(), Some("user"));
    assert_eq!(v["messages"][0]["content"].as_str(), Some(prompt));
    assert!(r.body.contains("said \\\"hi\\\""));
}

#[test]
fn empty_prompt_and_empty_credentials_are_accepted() {
    let r = build_request("", &openai("", "")).unwrap();
    assert_eq!(r.authorization, "Bearer ");
    assert_eq!(
        r.body,
        "{\"model\":\"\",\"temperature\":0.0,\"messages\":[{\"role\":\"user\",\"content\":\"\"}]}"
    );
}

#[test]
fn same_prompt_and_provider_give_identical_requests() {
    let p = openai("small-model", "secret");
    let a = build_request("What is 2+2?", &p).unwrap();
    let b = build_request("What is 2+2?", &p).unwrap();
    assert_eq!(a.body.as_bytes(), b.body.as_bytes());
    assert_eq!(a.url, b.url);
    assert_eq!(a.authorization, b.authorization);
}

#[test]
fn anthropic_request_is_unsupported() {
    let r = build_request("hello", &anthropic("messages-model", "k"));
    assert!(matches!(r, Err(CallError::UnsupportedProvider)));
}

#[test]
fn openai_content_is_extracted() {
    let body = "{\"choices\":[{\"message\":{\"content\":\"hello\"}}]}";
    assert_eq!(parse_response(&openai("m", "k"), body), Ok("hello".to_string()));
}

#[test]
fn missing_choices_fails_extraction() {
    let body = "{\"id\":\"x\",\"object\":\"chat.completion\"}";
    assert_eq!(parse_response(&openai("m", "k"), body), Err(CallError::ExtractionFailed));
}

#[test]
fn empty_choices_fails_extraction() {
    let body = "{\"choices\":[]}";
    assert_eq!(parse_response(&openai("m", "k"), body), Err(CallError::ExtractionFailed));
}

#[test]
fn non_string_content_fails_extraction() {
    let body = "{\"choices\":[{\"message\":{\"content\":42}}]}";
    assert_eq!(parse_response(&openai("m", "k"), body), Err(CallError::ExtractionFailed));
    let body = "{\"choices\":[{\"message\":{\"content\":null}}]}";
    assert_eq!(parse_response(&openai("m", "k"), body), Err(CallError::ExtractionFailed));
}

#[test]
fn choices_not_an_array_fails_extraction() {
    let body = "{\"choices\":{\"message\":{\"content\":\"hello\"}}}";
    assert_eq!(parse_response(&openai("m", "k"), body), Err(CallError::ExtractionFailed));
}

#[test]
fn body_that_is_not_json_fails_decoding() {
    assert_eq!(parse_response(&openai("m", "k"), "<html>502</html>"), Err(CallError::Decode));
    assert_eq!(parse_response(&openai("m", "k"), ""), Err(CallError::Decode));
}

#[test]
fn other_fields_are_ignored() {
    let body = "{\"id\":\"c1\",\"choices\":[{\"index\":0,\"message\":{\"role\":\"assistant\",\"content\":\"4\"},\"finish_reason\":\"stop\"},{\"message\":{\"content\":\"second\"}}],\"usage\":{\"total_tokens\":9}}";
    assert_eq!(parse_response(&openai("m", "k"), body), Ok("4".to_string()));
}

#[test]
fn escaped_content_is_unescaped() {
    let body = "{\"choices\":[{\"message\":{\"content\":\"a\\nb \\\"q\\\" \\u00e9\"}}]}";
    assert_eq!(parse_response(&openai("m", "k"), body), Ok("a\nb \"q\" \u{e9}".to_string()));
}

#[test]
fn anthropic_content_is_extracted() {
    let body = "{\"content\":[{\"type\":\"text\",\"text\":\"bonjour\"}]}";
    assert_eq!(parse_response(&anthropic("m", "k"), body), Ok("bonjour".to_string()));
    let openai_shaped = "{\"choices\":[{\"message\":{\"content\":\"hello\"}}]}";
    assert_eq!(parse_response(&anthropic("m", "k"), openai_shaped), Err(CallError::ExtractionFailed));
}

#[test]
fn extraction_reads_a_decoded_value() {
    let v: serde_json::Value = serde_json::from_str("{\"choices\":[{\"message\":{\"content\":\"hi there\"}}]}").unwrap();
    assert_eq!(extract_content(&openai("m", "k"), &v), Ok("hi there".to_string()));
    let w: serde_json::Value = serde_json::from_str("[1, 2, 3]").unwrap();
    assert_eq!(extract_content(&openai("m", "k"), &w), Err(CallError::ExtractionFailed));
}

#[test]
fn batch_keeps_input_order() {
    let prompts: Vec<String> = (0..20).map(|i| format!("prompt {}", i)).collect();
    let provider = openai("m", "k");
    // Each stub answer echoes the index of its prompt.
    let outcomes: Vec<Result<String, CallError>> = prompts
        .iter()
        .enumerate()
        .map(|(i, _)| {
            let body = format!("{{\"choices\":[{{\"message\":{{\"content\":\"answer {}\"}}}}]}}", i);
            parse_response(&provider, &body)
        })
        .collect();
    let answers = collect_responses(outcomes).unwrap();
    assert_eq!(answers.len(), prompts.len());
    for (i, a) in answers.iter().enumerate() {
        assert_eq!(a, &format!("answer {}", i));
    }
}

#[test]
fn empty_batch_gives_empty_answers() {
    assert_eq!(collect_responses(Vec::new()), Ok(Vec::new()));
}

#[test]
fn one_malformed_answer_fails_the_batch_for_every_position() {
    let provider = openai("m", "k");
    let n = 5;
    for k in 0..n {
        let outcomes: Vec<Result<String, CallError>> = (0..n)
            .map(|i| {
                let body = if i == k {
                    "not json".to_string()
                } else {
                    format!("{{\"choices\":[{{\"message\":{{\"content\":\"a{}\"}}}}]}}", i)
                };
                parse_response(&provider, &body)
            })
            .collect();
        assert_eq!(collect_responses(outcomes), Err(CallError::Decode));
    }
}

#[test]
fn first_failure_by_position_is_reported() {
    let outcomes = vec![
        Ok("a".to_string()),
        Err(CallError::ExtractionFailed),
        Err(CallError::Transport("connection reset".to_string())),
        Ok("d".to_string()),
    ];
    assert_eq!(collect_responses(outcomes), Err(CallError::ExtractionFailed));
    let outcomes = vec![
        Err(CallError::ConcurrencyFault("task panicked".to_string())),
        Err(CallError::Decode),
    ];
    assert_eq!(collect_responses(outcomes), Err(CallError::ConcurrencyFault("task panicked".to_string())));
}

#[test]
fn all_successful_outcomes_are_kept_in_order() {
    let outcomes = vec![Ok("x".to_string()), Ok("".to_string()), Ok("z".to_string())];
    assert_eq!(
        collect_responses(outcomes),
        Ok(vec!["x".to_string(), "".to_string(), "z".to_string()])
    );
}
