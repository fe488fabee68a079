use dictation_hud::validate::basic_punctuation_cleanup;
use dictation_hud::validate::strip_think_blocks;
use dictation_hud::validate::validate;
use dictation_hud::validate::RefinementResult;

#[test]
fn test_refusal_falls_back_to_cleaned_original() {
    let r = validate("I'm sorry, I can't help with that.", "send the report tomorrow");
    assert!(!r.is_refined());
    assert_eq!(r.text(), "Send the report tomorrow.");
}

#[test]
fn test_valid_refinement_returned_unchanged() {
    let r = validate(
        "Hey, can you help me with something?",
        "hey can you help me with something",
    );
    assert!(r.is_refined());
    assert_eq!(r.text(), "Hey, can you help me with something?");
}

#[test]
fn test_runaway_elaboration_rejected() {
    let r = validate(
        "one two three four five six seven eight nine ten eleven",
        "just four small words",
    );
    assert!(!r.is_refined());
    assert_eq!(r.text(), "Just four small words.");
}

#[test]
fn test_short_original_not_length_checked() {
    // Three or fewer original words: the length ratio never rejects.
    let r = validate("a much longer answer than before was given", "hi there");
    assert!(r.is_refined());
    assert_eq!(r.text(), "a much longer answer than before was given");
}

#[test]
fn test_cleanup_capitalizes_and_closes() {
    assert_eq!(basic_punctuation_cleanup("  hello world  "), "Hello world.");
    assert_eq!(basic_punctuation_cleanup("Done already!"), "Done already!");
    assert_eq!(basic_punctuation_cleanup("trailing colon:"), "Trailing colon:");
    assert_eq!(basic_punctuation_cleanup(""), "");
}

#[test]
fn test_fallback_never_empty_for_nonempty_input() {
    let r = validate("I'm sorry, I can't help with that.", "x");
    assert!(matches!(r, RefinementResult::FallbackRaw(_)));
    assert_eq!(r.text(), "X.");
}

#[test]
fn test_think_blocks_stripped() {
    assert_eq!(strip_think_blocks("<think>reasoning</think>Hello"), "Hello");
    assert_eq!(
        strip_think_blocks("<think>a</think>one<think>b</think> two"),
        "one two"
    );
    assert_eq!(strip_think_blocks("<think>unterminated... Hello"), "<think>unterminated... Hello");
    assert_eq!(strip_think_blocks("  plain  "), "plain");
}
