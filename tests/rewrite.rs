use leadrscribe::rewrite::{
    api_key_to_use, max_tokens_for, rewritten_text, status_message, system_prompt, user_message,
};

#[test]
fn missing_or_empty_key_refused() {
    let msg = "No API key configured. Please add your OpenRouter API key in settings.".to_string();
    assert_eq!(api_key_to_use(&None), Err(msg.clone()));
    assert_eq!(api_key_to_use(&Some(String::new())), Err(msg));
    assert_eq!(api_key_to_use(&Some("k-1".to_string())), Ok("k-1".to_string()));
}

#[test]
fn token_budget() {
    assert_eq!(max_tokens_for(0), 100);
    assert_eq!(max_tokens_for(10), 120);
    assert_eq!(max_tokens_for(1949), 3998);
    assert_eq!(max_tokens_for(1950), 4000);
    assert_eq!(max_tokens_for(usize::MAX), 4000);
}

#[test]
fn status_messages() {
    assert_eq!(
        status_message(404, "some/model"),
        Some("Model 'some/model' not found. Please select a valid model in settings.".to_string())
    );
    assert_eq!(
        status_message(503, "m"),
        Some("OpenRouter server error. Please try again later.".to_string())
    );
    assert!(status_message(401, "m").unwrap().starts_with("Invalid API key"));
    assert_eq!(status_message(418, "m"), None);
    assert_eq!(status_message(600, "m"), None);
}

#[test]
fn prompt_framing() {
    let p = system_prompt("Be brief");
    assert!(p.starts_with("You are a transcription rewriter."));
    assert!(p.contains("<rewriting_instructions>\nBe brief\n</rewriting_instructions>"));
    assert!(p.ends_with("nothing else."));
    assert_eq!(user_message("hi"), "<transcription>\nhi\n</transcription>");
}

#[test]
fn answer_text_choice() {
    assert_eq!(rewritten_text("  Here is: \"Done\" ", Some("ignored")), "Done");
    assert_eq!(rewritten_text("   ", Some(" thought ")), "thought");
    assert_eq!(rewritten_text("", None), "");
}
