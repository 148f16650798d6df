use ai_commit::prompt::build_prompt;
use ai_commit::remote::openai_request;

#[test]
fn request_targets_fixed_endpoint() {
    let req = openai_request("a.txt", "+foo", "sk-test");
    assert_eq!(req.url, "https://api.openai.com/v1/chat/completions");
}

#[test]
fn request_carries_bearer_credential() {
    let req = openai_request("a.txt", "+foo", "sk-test");
    assert_eq!(req.authorization, "Bearer sk-test");
}

#[test]
fn request_body_is_valid_json_with_fixed_fields() {
    let req = openai_request("a.txt\nb.txt", "+foo", "sk-test");
    let v: serde_json::Value = serde_json::from_str(&req.body).expect("body must be valid JSON");
    assert_eq!(v["model"], serde_json::Value::String("gpt-4".to_string()));
    let messages = v["messages"].as_array().expect("messages must be an array");
    assert_eq!(messages.len(), 2);
    assert_eq!(messages[0]["role"].as_str(), Some("system"));
    assert_eq!(
        messages[0]["content"].as_str(),
        Some("You are an AI that generates concise, professional Git commit messages.")
    );
    assert_eq!(messages[1]["role"].as_str(), Some("user"));
    assert_eq!(
        messages[1]["content"].as_str(),
        Some(build_prompt("a.txt\nb.txt", "+foo").as_str())
    );
}

#[test]
fn request_body_escapes_prompt_text() {
    // The diff holds quotes, backslashes and newlines; the payload must stay
    // valid JSON and the user turn must decode back to the exact prompt.
    let diff = "+let s = \"a\\nb\";\n-old \u{7f}line";
    let req = openai_request("src/main.rs", diff, "k");
    let v: serde_json::Value = serde_json::from_str(&req.body).expect("body must be valid JSON");
    let content = v["messages"][1]["content"].as_str().expect("user content must be a string");
    assert_eq!(content, build_prompt("src/main.rs", diff));
    // The raw prompt cannot itself appear unescaped in the body.
    assert!(!req.body.contains(diff));
}
