//! The final word on a refinement candidate: accept the sanitized AI text,
//! or fall back to a rule-based cleanup of the raw transcription.

use vstd::prelude::*;

use crate::prompt::spec_is_ai_refusal;
use crate::prompt::spec_sanitize_output;
use crate::prompt::is_ai_refusal;
use crate::prompt::sanitize_output;
use crate::text::chars_to_string;
use crate::text::find_from;
use crate::text::is_ascii_lower;
use crate::text::lemma_find_some;
use crate::text::push_range;
use crate::text::str_to_chars;
use crate::text::trim_ws;
use crate::text::trim_ws_x;
use crate::text::upper_char;
use crate::text::upper_char_x;
use crate::text::word_count;
use crate::text::word_count_x;

verus! {

/// Text ready for insertion: either an accepted AI refinement or the
/// rule-cleaned raw transcription.  Callers treat both as final text and
/// never branch on which occurred, except for logging.
pub enum RefinementResult {
    /// The sanitized AI candidate, accepted.
    Refined(String),
    /// The rule-cleaned raw text, used when the candidate was rejected or AI
    /// refinement was off.
    FallbackRaw(String),
}

impl RefinementResult {
    /// The carried text, whichever way it was produced.
    pub open spec fn text_spec(&self) -> Seq<char> {
        match self {
            RefinementResult::Refined(t) => t@,
            RefinementResult::FallbackRaw(t) => t@,
        }
    }

    /// The carried text.
    pub fn text(&self) -> (t: &str)
        ensures
            t@ == self.text_spec(),
    {
        match self {
            RefinementResult::Refined(t) => t.as_str(),
            RefinementResult::FallbackRaw(t) => t.as_str(),
        }
    }

    /// The carried text, by value.
    pub fn into_text(self) -> (t: String)
        ensures
            t@ == self.text_spec(),
    {
        match self {
            RefinementResult::Refined(t) => t,
            RefinementResult::FallbackRaw(t) => t,
        }
    }

    /// Whether the AI candidate was accepted.
    pub fn is_refined(&self) -> (b: bool)
        ensures
            b == (self is Refined),
    {
        matches!(self, RefinementResult::Refined(_))
    }
}

/// Punctuation that already ends a sentence acceptably; the fallback
/// appends a period only when the text ends in none of these.
pub open spec fn is_terminal_punct(c: char) -> bool {
    c == '.' || c == '!' || c == '?' || c == ',' || c == ';' || c == ':'
}

/// The rule-based fallback: trim, capitalize a lower-case first letter, and
/// close with a period unless the text already ends in punctuation.
pub open spec fn spec_cleanup(t: Seq<char>) -> Seq<char> {
    let m = trim_ws(t);
    let c = if m.len() > 0 && is_ascii_lower(m[0]) {
        seq![upper_char(m[0])] + m.skip(1)
    } else {
        m
    };
    if c.len() > 0 && !is_terminal_punct(c.last()) {
        c.push('.')
    } else {
        c
    }
}

/// Rule-based cleanup of raw transcription, used whenever AI output is
/// rejected: safe, deterministic, and never empty for non-empty input.
pub fn basic_punctuation_cleanup(text: &str) -> (result: String)
    ensures
        result@ == spec_cleanup(text@),
{
    let v = str_to_chars(text);
    let m = trim_ws_x(&v);
    let mut c: Vec<char> = Vec::new();
    if m.len() > 0 && is_ascii_lower_x(m[0]) {
        c.push(upper_char_x(m[0]));
        push_range(&mut c, &m, 1, m.len());
        proof {
            assert(c@ =~= seq![upper_char(m@[0])] + m@.skip(1));
        }
    } else {
        push_range(&mut c, &m, 0, m.len());
        proof {
            assert(c@ =~= m@);
        }
    }
    if c.len() > 0 {
        let last = c[c.len() - 1];
        if !(last == '.' || last == '!' || last == '?' || last == ',' || last == ';' || last
            == ':') {
            c.push('.');
        }
    }
    chars_to_string(&c)
}

fn is_ascii_lower_x(c: char) -> (r: bool)
    ensures
        r == is_ascii_lower(c),
{
    let u = c as u32;
    97 <= u && u <= 122
}

/// `t` with every complete `<think>`...`</think>` block removed, repeatedly,
/// then trimmed of outer whitespace.  An opening marker without a closing
/// one is left in place.
pub open spec fn spec_strip_think(t: Seq<char>) -> Seq<char>
    decreases t.len(),
        via spec_strip_think_decreases
{
    match find_from("<think>"@, t, 0) {
        None => trim_ws(t),
        Some(i) => match find_from("</think>"@, t.skip(i), 0) {
            None => trim_ws(t),
            Some(j) => spec_strip_think(
                t.subrange(0, i) + t.skip(i + j + "</think>"@.len()),
            ),
        },
    }
}

#[via_fn]
proof fn spec_strip_think_decreases(t: Seq<char>) {
    match find_from("<think>"@, t, 0) {
        None => {},
        Some(i) => {
            lemma_find_some("<think>"@, t, 0);
            match find_from("</think>"@, t.skip(i), 0) {
                None => {},
                Some(j) => {
                    lemma_find_some("</think>"@, t.skip(i), 0);
                },
            }
        },
    }
}

/// Remove every `<think>`...`</think>` reasoning block a model may have
/// emitted before its answer, then trim surrounding whitespace.
pub fn strip_think_blocks(text: &str) -> (result: String)
    ensures
        result@ == spec_strip_think(text@),
{
    let open_tag = str_to_chars("<think>");
    let close_tag = str_to_chars("</think>");
    let mut cur = str_to_chars(text);
    loop
        invariant
            open_tag@ == "<think>"@,
            close_tag@ == "</think>"@,
            spec_strip_think(cur@) == spec_strip_think(text@),
        decreases cur@.len(),
    {
        let ghost cur_old = cur@;
        match crate::text::find_exact(&cur, &open_tag) {
            None => {
                let out = trim_ws_x(&cur);
                return chars_to_string(&out);
            },
            Some(i) => {
                proof {
                    lemma_find_some("<think>"@, cur_old, 0);
                }
                let mut tail: Vec<char> = Vec::new();
                push_range(&mut tail, &cur, i, cur.len());
                proof {
                    assert(tail@ =~= cur_old.skip(i as int));
                }
                match crate::text::find_exact(&tail, &close_tag) {
                    None => {
                        let out = trim_ws_x(&cur);
                        return chars_to_string(&out);
                    },
                    Some(j) => {
                        proof {
                            lemma_find_some("</think>"@, tail@, 0);
                        }
                        let cut = i + j + close_tag.len();
                        let mut next: Vec<char> = Vec::new();
                        push_range(&mut next, &cur, 0, i);
                        push_range(&mut next, &cur, cut, cur.len());
                        proof {
                            assert(next@ =~= cur_old.subrange(0, i as int) + cur_old.skip(
                                cut as int,
                            ));
                        }
                        cur = next;
                    },
                }
            },
        }
    }
}

/// Whether the candidate is rejected: it reads as a refusal after
/// sanitizing, or it has grown to more than twice the words of the original
/// while the original had more than three.
pub open spec fn validate_rejects(candidate: Seq<char>, original: Seq<char>) -> bool {
    let san = spec_sanitize_output(candidate);
    ||| spec_is_ai_refusal(san)
    ||| (word_count(san) > 2 * word_count(original) && word_count(original) > 3)
}

/// The text that validation settles on: the sanitized candidate when it is
/// accepted, the rule-cleaned original when it is rejected.
pub open spec fn spec_validate_text(candidate: Seq<char>, original: Seq<char>) -> Seq<char> {
    if validate_rejects(candidate, original) {
        spec_cleanup(original)
    } else {
        spec_sanitize_output(candidate)
    }
}

/// Judge an AI refinement candidate against the raw text it came from.
///
/// The sanitized candidate is accepted as `Refined` unless it reads as a
/// refusal or conversational reply, or is suspiciously longer than the
/// original; a rejected candidate is replaced by the rule-cleaned original,
/// never by empty text.
pub fn validate(candidate: &str, original: &str) -> (r: RefinementResult)
    ensures
        r is Refined <==> !validate_rejects(candidate@, original@),
        r.text_spec() == spec_validate_text(candidate@, original@),
{
    let sanitized = sanitize_output(candidate);
    if is_ai_refusal(sanitized.as_str()) {
        return RefinementResult::FallbackRaw(basic_punctuation_cleanup(original));
    }
    let sv = str_to_chars(sanitized.as_str());
    let ov = str_to_chars(original);
    let out_words = word_count_x(&sv);
    let in_words = word_count_x(&ov);
    if in_words > 3 && out_words > in_words && out_words - in_words > in_words {
        return RefinementResult::FallbackRaw(basic_punctuation_cleanup(original));
    }
    assert(!(word_count(sv@) > 2 * word_count(ov@) && word_count(ov@) > 3));
    RefinementResult::Refined(sanitized)
}

} // verus!
