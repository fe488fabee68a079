use dictation_hud::symbols::replace_symbols;

#[test]
fn test_basic_replacements() {
    assert_eq!(replace_symbols("hello new line world"), "hello\nworld");
    assert_eq!(replace_symbols("test em dash here"), "test\u{2014} here");
    assert_eq!(replace_symbols("add hashtag symbol"), "add# symbol");
}

#[test]
fn test_case_insensitive() {
    assert_eq!(replace_symbols("Hello NEW LINE World"), "Hello\nWorld");
    assert_eq!(replace_symbols("EM DASH"), "\u{2014}");
}

#[test]
fn test_multiple_symbols() {
    assert_eq!(
        replace_symbols("line one new line line two new line line three"),
        "line one\nline two\nline three"
    );
}

#[test]
fn test_comma_trimming() {
    assert_eq!(
        replace_symbols("Dear John, New line, New line, I wanted to tell you"),
        "Dear John\n\nI wanted to tell you"
    );
    assert_eq!(
        replace_symbols("This is important, Exclamation mark, Please call"),
        "This is important! Please call"
    );
}

#[test]
fn test_word_boundaries_guard_partial_matches() {
    // "dash" inside a larger word is not a spoken symbol.
    assert_eq!(replace_symbols("the dashboard is green"), "the dashboard is green");
    assert_eq!(replace_symbols("endashboard"), "endashboard");
}

#[test]
fn test_replacement_is_idempotent_on_phrase_free_output() {
    let once = replace_symbols("hello new line world");
    assert_eq!(replace_symbols(&once), once);
    let once = replace_symbols("test em dash here");
    assert_eq!(replace_symbols(&once), once);
}

#[test]
fn test_preserves_existing_glyphs_and_newlines() {
    assert_eq!(replace_symbols("keep\nthis \u{2014} intact"), "keep\nthis \u{2014} intact");
}

#[test]
fn test_assorted_glyphs() {
    assert_eq!(replace_symbols("is it true question mark"), "is it true?");
    assert_eq!(replace_symbols("a right arrow b"), "a\u{2192} b");
    assert_eq!(replace_symbols("wait ellipsis then go"), "wait... then go");
    assert_eq!(replace_symbols("one new paragraph two"), "one\n\ntwo");
}

#[test]
fn test_empty_input() {
    assert_eq!(replace_symbols(""), "");
}
