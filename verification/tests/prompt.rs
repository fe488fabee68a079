use dictation_hud::prompt::get_system_prompt;
use dictation_hud::prompt::is_ai_refusal;
use dictation_hud::prompt::sanitize_output;

#[test]
fn test_refusal_detection() {
    assert!(is_ai_refusal("I'm sorry, I can't help with that."));
    assert!(is_ai_refusal("I apologize, but I cannot assist with this request."));
    assert!(is_ai_refusal("As an AI, I don't have the ability to do that."));
    assert!(is_ai_refusal("Unfortunately, I'm not able to process this."));
    assert!(is_ai_refusal("I'm here to help! What would you like?"));

    // These should NOT be detected as refusals (they're valid refined text)
    assert!(!is_ai_refusal("Hello, how are you?"));
    assert!(!is_ai_refusal("Can you help me with something?"));
    assert!(!is_ai_refusal("I want to go to the store."));
    assert!(!is_ai_refusal("Tell me a joke."));
}

#[test]
fn test_sanitize_output() {
    assert_eq!(sanitize_output("Here's the refined text: Hello, world!"), "Hello, world!");
    assert_eq!(sanitize_output("\"Hello, world!\""), "Hello, world!");
    assert_eq!(sanitize_output("Hello, world!"), "Hello, world!");
}

#[test]
fn test_opener_needs_colon_to_reject() {
    // Opens like an assistant reply, but has no colon: legitimate dictation.
    assert!(!is_ai_refusal("Hey, can you help me with something?"));
    // Same opener with a colon reads as an explanatory aside.
    assert!(is_ai_refusal("Sure thing: here you go"));
    assert!(is_ai_refusal("Hey there: an explanation follows"));
}

#[test]
fn test_sanitize_case_insensitive_prefix() {
    assert_eq!(sanitize_output("refined: All done"), "All done");
    assert_eq!(sanitize_output("OUTPUT: body"), "body");
}

#[test]
fn test_sanitize_keeps_two_character_quotes() {
    assert_eq!(sanitize_output("\"\""), "\"\"");
    assert_eq!(sanitize_output("'x'"), "x");
}

#[test]
fn test_system_prompt_is_fixed_and_non_conversational() {
    let p = get_system_prompt();
    assert!(p.starts_with("# CRITICAL IDENTITY DECLARATION"));
    assert!(p.ends_with("OUTPUT ONLY THE REFINED TEXT. NOTHING ELSE. EVER."));
}
