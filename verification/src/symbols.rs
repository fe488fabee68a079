//! The spoken-symbol replacer.
//!
//! Speech-to-text engines spell symbols out ("new line", "em dash"); this
//! module rewrites such spoken phrases into the literal glyphs.  Matching is
//! ASCII case-insensitive, accepts a phrase only on non-alphanumeric
//! boundaries, and tidies the stray commas and spaces that recognition
//! engines place around spoken symbol names.  Phrases are tried longest
//! first, so "em dash" is never clipped to its suffix "dash".

use vstd::prelude::*;

use crate::text::contains_ci;
use crate::text::find_ci;
use crate::text::find_ci_from;
use crate::text::is_word_char;
use crate::text::is_word_char_x;
use crate::text::lemma_find_ci_some;
use crate::text::lemma_trim_start_any_len;
use crate::text::chars_to_string;
use crate::text::push_range;
use crate::text::str_to_chars;
use crate::text::trim_end_any;
use crate::text::trim_end_any_x;
use crate::text::trim_start_any;
use crate::text::trim_start_any_x;

verus! {

/// Characters trimmed from the emitted text just before a matched phrase.
pub open spec fn space_comma() -> Seq<char> {
    seq![' ', ',']
}

/// Characters trimmed after a phrase that was replaced by a line break.
pub open spec fn space_comma_period() -> Seq<char> {
    seq![' ', ',', '.']
}

/// The single character trimmed after a phrase replaced by ordinary
/// punctuation (the following space is kept).
pub open spec fn comma_only() -> Seq<char> {
    seq![',']
}

/// Whether a replacement glyph contains a line break (line-break
/// replacements trim more aggressively around the match).
pub open spec fn symbol_has_newline(s: Seq<char>) -> bool {
    exists|i: int| 0 <= i < s.len() && s[i] == '\n'
}

/// A match of `p` at position `i` of `t` counts only when both of its ends
/// sit against the start or end of the text or a non-alphanumeric character,
/// so a phrase inside a larger word is left alone.
pub open spec fn boundary_ok(p: Seq<char>, t: Seq<char>, i: int) -> bool {
    &&& (i == 0 || !is_word_char(t[i - 1]))
    &&& (i + p.len() >= t.len() || !is_word_char(t[i + p.len()]))
}

/// One full pass of a single mapping over `t`: scan for the phrase `p`
/// case-insensitively; replace each boundary-valid match by the glyph `s`,
/// trimming trailing spaces and commas before the match and a leading comma
/// (and, for line-break glyphs, leading spaces and a period) after it; copy
/// a boundary-invalid match verbatim and keep scanning after its first
/// character.
pub open spec fn apply_mapping(p: Seq<char>, s: Seq<char>, t: Seq<char>) -> Seq<char>
    decreases t.len(),
        via apply_mapping_decreases
{
    match find_ci_from(p, t, 0) {
        None => t,
        Some(i) => {
            if boundary_ok(p, t, i) {
                trim_end_any(t.subrange(0, i), space_comma()) + s + apply_mapping(
                    p,
                    s,
                    if symbol_has_newline(s) {
                        trim_start_any(t.skip(i + p.len()), space_comma_period())
                    } else {
                        trim_start_any(t.skip(i + p.len()), comma_only())
                    },
                )
            } else {
                t.subrange(0, i + 1) + apply_mapping(p, s, t.skip(i + 1))
            }
        },
    }
}

#[via_fn]
proof fn apply_mapping_decreases(p: Seq<char>, s: Seq<char>, t: Seq<char>) {
    match find_ci_from(p, t, 0) {
        None => {},
        Some(i) => {
            lemma_find_ci_some(p, t, 0);
            lemma_trim_start_any_len(t.skip(i + p.len()), space_comma_period());
            lemma_trim_start_any_len(t.skip(i + p.len()), comma_only());
        },
    }
}

/// `t` after the first `k` mappings of the table, each applied as a full
/// pass over the output of the ones before it.
pub open spec fn replace_upto(t: Seq<char>, k: int) -> Seq<char>
    decreases k,
{
    if k <= 0 {
        t
    } else {
        apply_mapping(mapping_spec(k - 1).0, mapping_spec(k - 1).1, replace_upto(t, k - 1))
    }
}

/// `t` with every spoken symbol name replaced by its glyph.
pub open spec fn spec_replace_symbols(t: Seq<char>) -> Seq<char> {
    replace_upto(t, MAPPING_COUNT as int)
}

/// Whether `t` contains any spoken phrase of the table at all,
/// case-insensitively and regardless of word boundaries.
pub open spec fn mentions_any_phrase(t: Seq<char>) -> bool {
    exists|k: int|
        0 <= k < MAPPING_COUNT && contains_ci(t, mapping_spec(k).0)
}

/// A text that mentions no spoken phrase is left exactly as it is.
pub proof fn lemma_replace_fixed_point(t: Seq<char>)
    requires
        !mentions_any_phrase(t),
    ensures
        spec_replace_symbols(t) == t,
{
    lemma_replace_upto_fixed_point(t, MAPPING_COUNT as int);
}

proof fn lemma_replace_upto_fixed_point(t: Seq<char>, k: int)
    requires
        !mentions_any_phrase(t),
        k <= MAPPING_COUNT,
    ensures
        replace_upto(t, k) == t,
    decreases k,
{
    if k > 0 {
        lemma_replace_upto_fixed_point(t, k - 1);
        assert(!contains_ci(t, mapping_spec(k - 1).0));
    }
}

/// Replacement is idempotent: once its output mentions no spoken phrase any
/// more, replacing again changes nothing.
pub proof fn lemma_replace_idempotent(t: Seq<char>)
    requires
        !mentions_any_phrase(spec_replace_symbols(t)),
    ensures
        spec_replace_symbols(spec_replace_symbols(t)) == spec_replace_symbols(t),
{
    lemma_replace_fixed_point(spec_replace_symbols(t));
}

/// The table's ordering invariant: a phrase never stands after a longer
/// one, so a multi-word phrase is always tried before any phrase
/// contained in it.
pub proof fn lemma_mappings_longest_first()
    ensures
        forall|i: int, j: int|
            0 <= i <= j < MAPPING_COUNT ==> (#[trigger] mapping_spec(i).0.len())
                >= (#[trigger] mapping_spec(j).0.len()),
{
    reveal_strlit("greater than or equal");
    reveal_strlit("close single quote");
    reveal_strlit("less than or equal");
    reveal_strlit("exclamation point");
    reveal_strlit("open single quote");
    reveal_strlit("close parenthesis");
    reveal_strlit("close parentheses");
    reveal_strlit("exclamation mark");
    reveal_strlit("open parenthesis");
    reveal_strlit("open parentheses");
    reveal_strlit("paragraph break");
    reveal_strlit("new paragraph");
    reveal_strlit("question mark");
    reveal_strlit("close bracket");
    reveal_strlit("forward slash");
    reveal_strlit("open bracket");
    reveal_strlit("percent sign");
    reveal_strlit("vertical bar");
    reveal_strlit("grave accent");
    reveal_strlit("greater than");
    reveal_strlit("bullet point");
    reveal_strlit("close quote");
    reveal_strlit("close paren");
    reveal_strlit("close brace");
    reveal_strlit("close curly");
    reveal_strlit("equals sign");
    reveal_strlit("dollar sign");
    reveal_strlit("right arrow");
    reveal_strlit("degree sign");
    reveal_strlit("line break");
    reveal_strlit("semi colon");
    reveal_strlit("triple dot");
    reveal_strlit("open quote");
    reveal_strlit("open paren");
    reveal_strlit("open brace");
    reveal_strlit("open curly");
    reveal_strlit("minus sign");
    reveal_strlit("equal sign");
    reveal_strlit("back slash");
    reveal_strlit("pound sign");
    reveal_strlit("underscore");
    reveal_strlit("left arrow");
    reveal_strlit("down arrow");
    reveal_strlit("registered");
    reveal_strlit("next line");
    reveal_strlit("full stop");
    reveal_strlit("semicolon");
    reveal_strlit("plus sign");
    reveal_strlit("backslash");
    reveal_strlit("ampersand");
    reveal_strlit("at symbol");
    reveal_strlit("less than");
    reveal_strlit("not equal");
    reveal_strlit("copyright");
    reveal_strlit("trademark");
    reveal_strlit("new line");
    reveal_strlit("ellipsis");
    reveal_strlit("asterisk");
    reveal_strlit("and sign");
    reveal_strlit("backtick");
    reveal_strlit("up arrow");
    reveal_strlit("newline");
    reveal_strlit("em dash");
    reveal_strlit("en dash");
    reveal_strlit("percent");
    reveal_strlit("at sign");
    reveal_strlit("hashtag");
    reveal_strlit("emdash");
    reveal_strlit("m-dash");
    reveal_strlit("m dash");
    reveal_strlit("endash");
    reveal_strlit("n-dash");
    reveal_strlit("n dash");
    reveal_strlit("hyphen");
    reveal_strlit("period");
    reveal_strlit("equals");
    reveal_strlit("dollar");
    reveal_strlit("bullet");
    reveal_strlit("degree");
    reveal_strlit("enter");
    reveal_strlit("comma");
    reveal_strlit("colon");
    reveal_strlit("minus");
    reveal_strlit("equal");
    reveal_strlit("slash");
    reveal_strlit("caret");
    reveal_strlit("tilde");
    reveal_strlit("dash");
    reveal_strlit("plus");
    reveal_strlit("star");
    reveal_strlit("hash");
    reveal_strlit("pipe");
    reveal_strlit("dot");
}

// ---------------------------------------------------------------------------
// Executable code.
// ---------------------------------------------------------------------------

fn space_comma_x() -> (r: Vec<char>)
    ensures
        r@ == space_comma(),
{
    let mut v: Vec<char> = Vec::new();
    v.push(' ');
    v.push(',');
    proof {
        assert(v@ =~= space_comma());
    }
    v
}

fn space_comma_period_x() -> (r: Vec<char>)
    ensures
        r@ == space_comma_period(),
{
    let mut v: Vec<char> = Vec::new();
    v.push(' ');
    v.push(',');
    v.push('.');
    proof {
        assert(v@ =~= space_comma_period());
    }
    v
}

fn comma_only_x() -> (r: Vec<char>)
    ensures
        r@ == comma_only(),
{
    let mut v: Vec<char> = Vec::new();
    v.push(',');
    proof {
        assert(v@ =~= comma_only());
    }
    v
}

fn symbol_has_newline_x(s: &Vec<char>) -> (r: bool)
    ensures
        r == symbol_has_newline(s@),
{
    let n = s.len();
    let mut i: usize = 0;
    while i < n
        invariant
            n == s@.len(),
            i <= n,
            forall|k: int| 0 <= k < i ==> s@[k] != '\n',
        decreases n - i,
    {
        if s[i] == '\n' {
            return true;
        }
        i = i + 1;
    }
    false
}

/// One full pass of a single mapping over `t`.
fn apply_mapping_x(t: &Vec<char>, p: &Vec<char>, s: &Vec<char>) -> (r: Vec<char>)
    ensures
        r@ == apply_mapping(p@, s@, t@),
{
    let sc = space_comma_x();
    let scp = space_comma_period_x();
    let co = comma_only_x();
    let has_nl = symbol_has_newline_x(s);
    let mut out: Vec<char> = Vec::new();
    let mut rem: Vec<char> = Vec::new();
    push_range(&mut rem, t, 0, t.len());
    proof {
        assert(rem@ =~= t@);
        assert(out@ + apply_mapping(p@, s@, rem@) =~= apply_mapping(p@, s@, t@));
    }
    loop
        invariant
            out@ + apply_mapping(p@, s@, rem@) == apply_mapping(p@, s@, t@),
            sc@ == space_comma(),
            scp@ == space_comma_period(),
            co@ == comma_only(),
            has_nl == symbol_has_newline(s@),
        decreases rem@.len(),
    {
        let ghost rem_old = rem@;
        let ghost out_old = out@;
        match find_ci(&rem, p) {
            None => {
                push_range(&mut out, &rem, 0, rem.len());
                proof {
                    assert(rem_old.subrange(0, rem_old.len() as int) =~= rem_old);
                    assert(apply_mapping(p@, s@, rem_old) == rem_old);
                }
                return out;
            },
            Some(i) => {
                proof {
                    lemma_find_ci_some(p@, rem_old, 0);
                }
                let after = i + p.len();
                let before_ok = i == 0 || !is_word_char_x(rem[i - 1]);
                let after_ok = after >= rem.len() || !is_word_char_x(rem[after]);
                if before_ok && after_ok {
                    let mut pre: Vec<char> = Vec::new();
                    push_range(&mut pre, &rem, 0, i);
                    let kept = trim_end_any_x(&pre, &sc);
                    push_range(&mut out, &kept, 0, kept.len());
                    push_range(&mut out, s, 0, s.len());
                    let mut suf: Vec<char> = Vec::new();
                    push_range(&mut suf, &rem, after, rem.len());
                    proof {
                        assert(suf@ =~= rem_old.skip(after as int));
                    }
                    let rest = if has_nl {
                        trim_start_any_x(&suf, &scp)
                    } else {
                        trim_start_any_x(&suf, &co)
                    };
                    rem = rest;
                    proof {
                        lemma_trim_start_any_len(suf@, scp@);
                        lemma_trim_start_any_len(suf@, co@);
                        assert(boundary_ok(p@, rem_old, i as int));
                        assert(kept@.subrange(0, kept@.len() as int) =~= kept@);
                        assert(s@.subrange(0, s@.len() as int) =~= s@);
                        assert(apply_mapping(p@, s@, rem_old) == kept@ + s@ + apply_mapping(
                            p@,
                            s@,
                            rem@,
                        ));
                        assert(out@ =~= out_old + kept@ + s@);
                        assert(out@ + apply_mapping(p@, s@, rem@) =~= out_old + (kept@ + s@
                            + apply_mapping(p@, s@, rem@)));
                    }
                } else {
                    push_range(&mut out, &rem, 0, i + 1);
                    let mut suf: Vec<char> = Vec::new();
                    push_range(&mut suf, &rem, i + 1, rem.len());
                    rem = suf;
                    proof {
                        assert(rem@ =~= rem_old.skip(i as int + 1));
                        assert(!boundary_ok(p@, rem_old, i as int));
                        assert(apply_mapping(p@, s@, rem_old) == rem_old.subrange(0, i as int + 1)
                            + apply_mapping(p@, s@, rem@));
                        assert(out@ + apply_mapping(p@, s@, rem@) =~= out_old + (rem_old.subrange(
                            0,
                            i as int + 1,
                        ) + apply_mapping(p@, s@, rem@)));
                    }
                }
            },
        }
    }
}

/// Replace every spoken symbol name in `text` with its literal glyph.
///
/// Each table entry makes a full pass over the text in turn, longest phrase
/// first, so a later phrase matches against the output of the earlier ones;
/// every character outside a match is preserved verbatim.
pub fn replace_symbols(text: &str) -> (result: String)
    ensures
        result@ == spec_replace_symbols(text@),
{
    let mut cur = str_to_chars(text);
    let mut k: usize = 0;
    while k < MAPPING_COUNT
        invariant
            k <= MAPPING_COUNT,
            cur@ == replace_upto(text@, k as int),
        decreases MAPPING_COUNT - k,
    {
        let m = mapping_at(k);
        let p = str_to_chars(m.0);
        let s = str_to_chars(m.1);
        cur = apply_mapping_x(&cur, &p, &s);
        k = k + 1;
    }
    chars_to_string(&cur)
}

/// Number of spoken-symbol mappings.
pub const MAPPING_COUNT: usize = 93;

/// The spoken-symbol table, ordered so that longer phrases stand before
/// shorter ones: a multi-word phrase is always tried before any phrase
/// that is a substring of it (ties keep their declaration order).
pub open spec fn mapping_spec(i: int) -> (Seq<char>, Seq<char>) {
    if i == 0 {
        ("greater than or equal"@, ">="@)
    } else if i == 1 {
        ("close single quote"@, "'"@)
    } else if i == 2 {
        ("less than or equal"@, "<="@)
    } else if i == 3 {
        ("exclamation point"@, "!"@)
    } else if i == 4 {
        ("open single quote"@, "'"@)
    } else if i == 5 {
        ("close parenthesis"@, ")"@)
    } else if i == 6 {
        ("close parentheses"@, ")"@)
    } else if i == 7 {
        ("exclamation mark"@, "!"@)
    } else if i == 8 {
        ("open parenthesis"@, "("@)
    } else if i == 9 {
        ("open parentheses"@, "("@)
    } else if i == 10 {
        ("paragraph break"@, "\n\n"@)
    } else if i == 11 {
        ("new paragraph"@, "\n\n"@)
    } else if i == 12 {
        ("question mark"@, "?"@)
    } else if i == 13 {
        ("close bracket"@, "]"@)
    } else if i == 14 {
        ("forward slash"@, "/"@)
    } else if i == 15 {
        ("open bracket"@, "["@)
    } else if i == 16 {
        ("percent sign"@, "%"@)
    } else if i == 17 {
        ("vertical bar"@, "|"@)
    } else if i == 18 {
        ("grave accent"@, "`"@)
    } else if i == 19 {
        ("greater than"@, ">"@)
    } else if i == 20 {
        ("bullet point"@, "•"@)
    } else if i == 21 {
        ("close quote"@, "\""@)
    } else if i == 22 {
        ("close paren"@, ")"@)
    } else if i == 23 {
        ("close brace"@, "}"@)
    } else if i == 24 {
        ("close curly"@, "}"@)
    } else if i == 25 {
        ("equals sign"@, "="@)
    } else if i == 26 {
        ("dollar sign"@, "$"@)
    } else if i == 27 {
        ("right arrow"@, "→"@)
    } else if i == 28 {
        ("degree sign"@, "°"@)
    } else if i == 29 {
        ("line break"@, "\n"@)
    } else if i == 30 {
        ("semi colon"@, ";"@)
    } else if i == 31 {
        ("triple dot"@, "..."@)
    } else if i == 32 {
        ("open quote"@, "\""@)
    } else if i == 33 {
        ("open paren"@, "("@)
    } else if i == 34 {
        ("open brace"@, "{"@)
    } else if i == 35 {
        ("open curly"@, "{"@)
    } else if i == 36 {
        ("minus sign"@, "-"@)
    } else if i == 37 {
        ("equal sign"@, "="@)
    } else if i == 38 {
        ("back slash"@, "\\"@)
    } else if i == 39 {
        ("pound sign"@, "#"@)
    } else if i == 40 {
        ("underscore"@, "_"@)
    } else if i == 41 {
        ("left arrow"@, "←"@)
    } else if i == 42 {
        ("down arrow"@, "↓"@)
    } else if i == 43 {
        ("registered"@, "®"@)
    } else if i == 44 {
        ("next line"@, "\n"@)
    } else if i == 45 {
        ("full stop"@, "."@)
    } else if i == 46 {
        ("semicolon"@, ";"@)
    } else if i == 47 {
        ("plus sign"@, "+"@)
    } else if i == 48 {
        ("backslash"@, "\\"@)
    } else if i == 49 {
        ("ampersand"@, "&"@)
    } else if i == 50 {
        ("at symbol"@, "@"@)
    } else if i == 51 {
        ("less than"@, "<"@)
    } else if i == 52 {
        ("not equal"@, "!="@)
    } else if i == 53 {
        ("copyright"@, "©"@)
    } else if i == 54 {
        ("trademark"@, "™"@)
    } else if i == 55 {
        ("new line"@, "\n"@)
    } else if i == 56 {
        ("ellipsis"@, "..."@)
    } else if i == 57 {
        ("asterisk"@, "*"@)
    } else if i == 58 {
        ("and sign"@, "&"@)
    } else if i == 59 {
        ("backtick"@, "`"@)
    } else if i == 60 {
        ("up arrow"@, "↑"@)
    } else if i == 61 {
        ("newline"@, "\n"@)
    } else if i == 62 {
        ("em dash"@, "—"@)
    } else if i == 63 {
        ("en dash"@, "–"@)
    } else if i == 64 {
        ("percent"@, "%"@)
    } else if i == 65 {
        ("at sign"@, "@"@)
    } else if i == 66 {
        ("hashtag"@, "#"@)
    } else if i == 67 {
        ("emdash"@, "—"@)
    } else if i == 68 {
        ("m-dash"@, "—"@)
    } else if i == 69 {
        ("m dash"@, "—"@)
    } else if i == 70 {
        ("endash"@, "–"@)
    } else if i == 71 {
        ("n-dash"@, "–"@)
    } else if i == 72 {
        ("n dash"@, "–"@)
    } else if i == 73 {
        ("hyphen"@, "-"@)
    } else if i == 74 {
        ("period"@, "."@)
    } else if i == 75 {
        ("equals"@, "="@)
    } else if i == 76 {
        ("dollar"@, "$"@)
    } else if i == 77 {
        ("bullet"@, "•"@)
    } else if i == 78 {
        ("degree"@, "°"@)
    } else if i == 79 {
        ("enter"@, "\n"@)
    } else if i == 80 {
        ("comma"@, ","@)
    } else if i == 81 {
        ("colon"@, ":"@)
    } else if i == 82 {
        ("minus"@, "-"@)
    } else if i == 83 {
        ("equal"@, "="@)
    } else if i == 84 {
        ("slash"@, "/"@)
    } else if i == 85 {
        ("caret"@, "^"@)
    } else if i == 86 {
        ("tilde"@, "~"@)
    } else if i == 87 {
        ("dash"@, "-"@)
    } else if i == 88 {
        ("plus"@, "+"@)
    } else if i == 89 {
        ("star"@, "*"@)
    } else if i == 90 {
        ("hash"@, "#"@)
    } else if i == 91 {
        ("pipe"@, "|"@)
    } else if i == 92 {
        ("dot"@, "."@)
    } else {
        (Seq::empty(), Seq::empty())
    }
}

/// The spoken-symbol table entry `i`, as string slices.
pub fn mapping_at(i: usize) -> (r: (&'static str, &'static str))
    requires
        i < MAPPING_COUNT,
    ensures
        r.0@ == mapping_spec(i as int).0,
        r.1@ == mapping_spec(i as int).1,
{
    if i == 0 {
        ("greater than or equal", ">=")
    } else if i == 1 {
        ("close single quote", "'")
    } else if i == 2 {
        ("less than or equal", "<=")
    } else if i == 3 {
        ("exclamation point", "!")
    } else if i == 4 {
        ("open single quote", "'")
    } else if i == 5 {
        ("close parenthesis", ")")
    } else if i == 6 {
        ("close parentheses", ")")
    } else if i == 7 {
        ("exclamation mark", "!")
    } else if i == 8 {
        ("open parenthesis", "(")
    } else if i == 9 {
        ("open parentheses", "(")
    } else if i == 10 {
        ("paragraph break", "\n\n")
    } else if i == 11 {
        ("new paragraph", "\n\n")
    } else if i == 12 {
        ("question mark", "?")
    } else if i == 13 {
        ("close bracket", "]")
    } else if i == 14 {
        ("forward slash", "/")
    } else if i == 15 {
        ("open bracket", "[")
    } else if i == 16 {
        ("percent sign", "%")
    } else if i == 17 {
        ("vertical bar", "|")
    } else if i == 18 {
        ("grave accent", "`")
    } else if i == 19 {
        ("greater than", ">")
    } else if i == 20 {
        ("bullet point", "•")
    } else if i == 21 {
        ("close quote", "\"")
    } else if i == 22 {
        ("close paren", ")")
    } else if i == 23 {
        ("close brace", "}")
    } else if i == 24 {
        ("close curly", "}")
    } else if i == 25 {
        ("equals sign", "=")
    } else if i == 26 {
        ("dollar sign", "$")
    } else if i == 27 {
        ("right arrow", "→")
    } else if i == 28 {
        ("degree sign", "°")
    } else if i == 29 {
        ("line break", "\n")
    } else if i == 30 {
        ("semi colon", ";")
    } else if i == 31 {
        ("triple dot", "...")
    } else if i == 32 {
        ("open quote", "\"")
    } else if i == 33 {
        ("open paren", "(")
    } else if i == 34 {
        ("open brace", "{")
    } else if i == 35 {
        ("open curly", "{")
    } else if i == 36 {
        ("minus sign", "-")
    } else if i == 37 {
        ("equal sign", "=")
    } else if i == 38 {
        ("back slash", "\\")
    } else if i == 39 {
        ("pound sign", "#")
    } else if i == 40 {
        ("underscore", "_")
    } else if i == 41 {
        ("left arrow", "←")
    } else if i == 42 {
        ("down arrow", "↓")
    } else if i == 43 {
        ("registered", "®")
    } else if i == 44 {
        ("next line", "\n")
    } else if i == 45 {
        ("full stop", ".")
    } else if i == 46 {
        ("semicolon", ";")
    } else if i == 47 {
        ("plus sign", "+")
    } else if i == 48 {
        ("backslash", "\\")
    } else if i == 49 {
        ("ampersand", "&")
    } else if i == 50 {
        ("at symbol", "@")
    } else if i == 51 {
        ("less than", "<")
    } else if i == 52 {
        ("not equal", "!=")
    } else if i == 53 {
        ("copyright", "©")
    } else if i == 54 {
        ("trademark", "™")
    } else if i == 55 {
        ("new line", "\n")
    } else if i == 56 {
        ("ellipsis", "...")
    } else if i == 57 {
        ("asterisk", "*")
    } else if i == 58 {
        ("and sign", "&")
    } else if i == 59 {
        ("backtick", "`")
    } else if i == 60 {
        ("up arrow", "↑")
    } else if i == 61 {
        ("newline", "\n")
    } else if i == 62 {
        ("em dash", "—")
    } else if i == 63 {
        ("en dash", "–")
    } else if i == 64 {
        ("percent", "%")
    } else if i == 65 {
        ("at sign", "@")
    } else if i == 66 {
        ("hashtag", "#")
    } else if i == 67 {
        ("emdash", "—")
    } else if i == 68 {
        ("m-dash", "—")
    } else if i == 69 {
        ("m dash", "—")
    } else if i == 70 {
        ("endash", "–")
    } else if i == 71 {
        ("n-dash", "–")
    } else if i == 72 {
        ("n dash", "–")
    } else if i == 73 {
        ("hyphen", "-")
    } else if i == 74 {
        ("period", ".")
    } else if i == 75 {
        ("equals", "=")
    } else if i == 76 {
        ("dollar", "$")
    } else if i == 77 {
        ("bullet", "•")
    } else if i == 78 {
        ("degree", "°")
    } else if i == 79 {
        ("enter", "\n")
    } else if i == 80 {
        ("comma", ",")
    } else if i == 81 {
        ("colon", ":")
    } else if i == 82 {
        ("minus", "-")
    } else if i == 83 {
        ("equal", "=")
    } else if i == 84 {
        ("slash", "/")
    } else if i == 85 {
        ("caret", "^")
    } else if i == 86 {
        ("tilde", "~")
    } else if i == 87 {
        ("dash", "-")
    } else if i == 88 {
        ("plus", "+")
    } else if i == 89 {
        ("star", "*")
    } else if i == 90 {
        ("hash", "#")
    } else if i == 91 {
        ("pipe", "|")
    } else if i == 92 {
        ("dot", ".")
    } else {
        ("", "")
    }
}
} // verus!
