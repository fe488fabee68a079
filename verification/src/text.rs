//! Character-level text primitives shared by the symbol replacer, the
//! output validator and the orchestrator.
//!
//! All executable functions work on `Vec<char>` and are specified against
//! `Seq<char>` models.  Case folding is ASCII-only: the spoken-phrase and
//! refusal lexicons are plain ASCII, so folding the letters `A`-`Z` is all
//! the matching needs.

use vstd::prelude::*;

verus! {

/// Code point of `c` after ASCII lower-casing: `A`-`Z` fold to `a`-`z`,
/// everything else is left alone.  Folding to a code point rather than a
/// character keeps the case-insensitive comparisons in plain integer
/// arithmetic.
pub open spec fn lower_u(c: char) -> u32 {
    if 65 <= c as u32 && c as u32 <= 90 {
        (c as u32 + 32) as u32
    } else {
        c as u32
    }
}

/// ASCII letters and digits; these bind a spoken phrase to neighbouring text
/// so that a phrase inside a larger word is not replaced.
pub open spec fn is_word_char(c: char) -> bool {
    ||| 48 <= c as u32 && c as u32 <= 57
    ||| 65 <= c as u32 && c as u32 <= 90
    ||| 97 <= c as u32 && c as u32 <= 122
}

/// ASCII whitespace.
pub open spec fn is_space_char(c: char) -> bool {
    c == ' ' || c == '\t' || c == '\n' || c == '\r'
}

/// ASCII lower-case letter.
pub open spec fn is_ascii_lower(c: char) -> bool {
    97 <= c as u32 && c as u32 <= 122
}

/// The upper-case counterpart of an ASCII lower-case letter.
pub open spec fn upper_char(c: char) -> char {
    ((c as u32 - 32) as u32) as char
}

/// The pattern `p` occurs at position `j` of `t`, compared ASCII
/// case-insensitively.
pub open spec fn matches_ci_at(p: Seq<char>, t: Seq<char>, j: int) -> bool {
    &&& 0 <= j
    &&& j + p.len() <= t.len()
    &&& forall|i: int| 0 <= i < p.len() ==> lower_u(t[j + i]) == lower_u(p[i])
}

/// The pattern `p` occurs verbatim at position `j` of `t`.
pub open spec fn matches_at(p: Seq<char>, t: Seq<char>, j: int) -> bool {
    &&& 0 <= j
    &&& j + p.len() <= t.len()
    &&& forall|i: int| 0 <= i < p.len() ==> t[j + i] == p[i]
}

/// Position of the first case-insensitive occurrence of `p` in `t` at or
/// after `j`; `None` if there is none (or if `p` is empty).
pub open spec fn find_ci_from(p: Seq<char>, t: Seq<char>, j: int) -> Option<int>
    decreases t.len() - j,
        when 0 <= j
{
    if p.len() == 0 || j + p.len() > t.len() {
        None
    } else if matches_ci_at(p, t, j) {
        Some(j)
    } else {
        find_ci_from(p, t, j + 1)
    }
}

/// Position of the first verbatim occurrence of `p` in `t` at or after `j`;
/// `None` if there is none (or if `p` is empty).
pub open spec fn find_from(p: Seq<char>, t: Seq<char>, j: int) -> Option<int>
    decreases t.len() - j,
        when 0 <= j
{
    if p.len() == 0 || j + p.len() > t.len() {
        None
    } else if matches_at(p, t, j) {
        Some(j)
    } else {
        find_from(p, t, j + 1)
    }
}

/// `t` contains `p` somewhere, case-insensitively.
pub open spec fn contains_ci(t: Seq<char>, p: Seq<char>) -> bool {
    find_ci_from(p, t, 0) is Some
}

/// `t` begins with `p`, case-insensitively.
pub open spec fn starts_with_ci(t: Seq<char>, p: Seq<char>) -> bool {
    matches_ci_at(p, t, 0)
}

/// The two texts are the same up to ASCII case.
pub open spec fn eq_ci(t: Seq<char>, p: Seq<char>) -> bool {
    t.len() == p.len() && matches_ci_at(p, t, 0)
}

/// `s` without its longest prefix of characters drawn from `cs`.
pub open spec fn trim_start_any(s: Seq<char>, cs: Seq<char>) -> Seq<char>
    decreases s.len(),
{
    if s.len() > 0 && cs.contains(s[0]) {
        trim_start_any(s.skip(1), cs)
    } else {
        s
    }
}

/// `s` without its longest suffix of characters drawn from `cs`.
pub open spec fn trim_end_any(s: Seq<char>, cs: Seq<char>) -> Seq<char>
    decreases s.len(),
{
    if s.len() > 0 && cs.contains(s.last()) {
        trim_end_any(s.drop_last(), cs)
    } else {
        s
    }
}

/// The ASCII whitespace characters, as a character set for trimming.
pub open spec fn space_chars() -> Seq<char> {
    seq![' ', '\t', '\n', '\r']
}

/// `s` with ASCII whitespace removed from both ends.
pub open spec fn trim_ws(s: Seq<char>) -> Seq<char> {
    trim_end_any(trim_start_any(s, space_chars()), space_chars())
}

/// Number of whitespace-separated words in `s`: how many positions start a
/// maximal run of non-whitespace characters.
pub open spec fn word_count(s: Seq<char>) -> int {
    word_count_from(s, 0)
}

/// Words of `s` that start at or after position `j`.
pub open spec fn word_count_from(s: Seq<char>, j: int) -> int
    decreases s.len() - j,
        when 0 <= j
{
    if j >= s.len() {
        0
    } else if !is_space_char(s[j]) && (j == 0 || is_space_char(s[j - 1])) {
        1 + word_count_from(s, j + 1)
    } else {
        word_count_from(s, j + 1)
    }
}

/// A word starts only where a character stands, so there are never more
/// words than characters.
pub proof fn lemma_word_count_le_len(s: Seq<char>, j: int)
    requires
        0 <= j <= s.len(),
    ensures
        word_count_from(s, j) <= s.len() - j,
        word_count_from(s, j) >= 0,
    decreases s.len() - j,
{
    if j < s.len() {
        lemma_word_count_le_len(s, j + 1);
    }
}

/// Trimming never lengthens a sequence.
pub proof fn lemma_trim_start_any_len(s: Seq<char>, cs: Seq<char>)
    ensures
        trim_start_any(s, cs).len() <= s.len(),
    decreases s.len(),
{
    if s.len() > 0 && cs.contains(s[0]) {
        lemma_trim_start_any_len(s.skip(1), cs);
    }
}

/// What a successful verbatim search means: the position found lies at or
/// after the start, the pattern fits there, and the pattern is non-empty.
pub proof fn lemma_find_some(p: Seq<char>, t: Seq<char>, j: int)
    requires
        0 <= j,
        find_from(p, t, j) is Some,
    ensures
        ({
            let i = find_from(p, t, j)->0;
            &&& j <= i
            &&& i + p.len() <= t.len()
            &&& 1 <= p.len()
            &&& matches_at(p, t, i)
        }),
    decreases t.len() - j,
{
    if !(p.len() == 0 || j + p.len() > t.len()) && !matches_at(p, t, j) {
        lemma_find_some(p, t, j + 1);
    }
}

/// What a successful search means: the position found lies at or after the
/// start, the pattern fits there, and the pattern is non-empty.
pub proof fn lemma_find_ci_some(p: Seq<char>, t: Seq<char>, j: int)
    requires
        0 <= j,
        find_ci_from(p, t, j) is Some,
    ensures
        ({
            let i = find_ci_from(p, t, j)->0;
            &&& j <= i
            &&& i + p.len() <= t.len()
            &&& 1 <= p.len()
            &&& matches_ci_at(p, t, i)
        }),
    decreases t.len() - j,
{
    if !(p.len() == 0 || j + p.len() > t.len()) && !matches_ci_at(p, t, j) {
        lemma_find_ci_some(p, t, j + 1);
    }
}

// ---------------------------------------------------------------------------
// Executable counterparts.
// ---------------------------------------------------------------------------

/// ASCII case-insensitive equality of two characters.
pub fn chars_eq_ci(a: char, b: char) -> (r: bool)
    ensures
        r == (lower_u(a) == lower_u(b)),
{
    let ua = a as u32;
    let ub = b as u32;
    let la: u32 = if 65 <= ua && ua <= 90 {
        ua + 32
    } else {
        ua
    };
    let lb: u32 = if 65 <= ub && ub <= 90 {
        ub + 32
    } else {
        ub
    };
    la == lb
}

/// The upper-case counterpart of an ASCII lower-case letter.
pub fn upper_char_x(c: char) -> (r: char)
    requires
        is_ascii_lower(c),
    ensures
        r == upper_char(c),
{
    proof {
        broadcast use vstd::utf8::char_u32_cast;

    }
    match c {
        'a' => 'A',
        'b' => 'B',
        'c' => 'C',
        'd' => 'D',
        'e' => 'E',
        'f' => 'F',
        'g' => 'G',
        'h' => 'H',
        'i' => 'I',
        'j' => 'J',
        'k' => 'K',
        'l' => 'L',
        'm' => 'M',
        'n' => 'N',
        'o' => 'O',
        'p' => 'P',
        'q' => 'Q',
        'r' => 'R',
        's' => 'S',
        't' => 'T',
        'u' => 'U',
        'v' => 'V',
        'w' => 'W',
        'x' => 'X',
        'y' => 'Y',
        'z' => 'Z',
        _ => c,
    }
}

/// Whether `c` is an ASCII letter or digit.
pub fn is_word_char_x(c: char) -> (r: bool)
    ensures
        r == is_word_char(c),
{
    let u = c as u32;
    (48 <= u && u <= 57) || (65 <= u && u <= 90) || (97 <= u && u <= 122)
}

/// Whether `c` is ASCII whitespace.
pub fn is_space_char_x(c: char) -> (r: bool)
    ensures
        r == is_space_char(c),
{
    c == ' ' || c == '\t' || c == '\n' || c == '\r'
}

/// The characters of `s`, in order, as a vector.
pub fn str_to_chars(s: &str) -> (v: Vec<char>)
    ensures
        v@ == s@,
{
    let n = s.unicode_len();
    let mut v: Vec<char> = Vec::new();
    let mut i: usize = 0;
    while i < n
        invariant
            n == s@.len(),
            i <= n,
            v@ == s@.subrange(0, i as int),
        decreases n - i,
    {
        let c = s.get_char(i);
        v.push(c);
        i = i + 1;
        proof {
            assert(v@ =~= s@.subrange(0, i as int));
        }
    }
    proof {
        assert(v@ =~= s@);
    }
    v
}

/// Rebuilds a string from its characters.
///
/// Relies on `String`'s `FromIterator<char>` implementation from std: the
/// collected string holds exactly the characters of the iterator, in order.
#[verifier::external_body]
pub fn chars_to_string(v: &Vec<char>) -> (s: String)
    ensures
        s@ == v@,
{
    v.iter().collect()
}

/// Verbatim equality of two character vectors.
pub fn chars_eq(a: &Vec<char>, b: &Vec<char>) -> (r: bool)
    ensures
        r == (a@ == b@),
{
    if a.len() != b.len() {
        return false;
    }
    let n = a.len();
    let mut i: usize = 0;
    while i < n
        invariant
            n == a@.len() && n == b@.len(),
            i <= n,
            forall|k: int| 0 <= k < i ==> a@[k] == b@[k],
        decreases n - i,
    {
        if a[i] != b[i] {
            return false;
        }
        i = i + 1;
    }
    proof {
        assert(a@ =~= b@);
    }
    true
}

/// Whether the character set `cs` holds `c`.
pub fn char_set_has(cs: &Vec<char>, c: char) -> (r: bool)
    ensures
        r == cs@.contains(c),
{
    let n = cs.len();
    let mut i: usize = 0;
    while i < n
        invariant
            n == cs@.len(),
            i <= n,
            forall|k: int| 0 <= k < i ==> cs@[k] != c,
        decreases n - i,
    {
        if cs[i] == c {
            return true;
        }
        i = i + 1;
    }
    false
}

/// Appends `v[from..to]` to `out`.
pub fn push_range(out: &mut Vec<char>, v: &Vec<char>, from: usize, to: usize)
    requires
        from <= to <= v@.len(),
    ensures
        final(out)@ == old(out)@ + v@.subrange(from as int, to as int),
{
    let mut i = from;
    while i < to
        invariant
            from <= i <= to <= v@.len(),
            out@ == old(out)@ + v@.subrange(from as int, i as int),
        decreases to - i,
    {
        out.push(v[i]);
        i = i + 1;
        proof {
            assert(out@ =~= old(out)@ + v@.subrange(from as int, i as int));
        }
    }
}

/// Whether `p` occurs at position `j` of `t`, case-insensitively.
pub fn matches_ci_at_x(t: &Vec<char>, p: &Vec<char>, j: usize) -> (r: bool)
    requires
        j + p@.len() <= t@.len(),
    ensures
        r == matches_ci_at(p@, t@, j as int),
{
    let n = p.len();
    let tl = t.len();
    let mut k: usize = 0;
    while k < n
        invariant
            n == p@.len(),
            tl == t@.len(),
            j + n <= tl,
            k <= n,
            forall|i: int| 0 <= i < k ==> lower_u(t@[j + i]) == lower_u(p@[i]),
        decreases n - k,
    {
        if !chars_eq_ci(t[j + k], p[k]) {
            return false;
        }
        k = k + 1;
    }
    true
}

/// Whether `p` occurs verbatim at position `j` of `t`.
pub fn matches_at_x(t: &Vec<char>, p: &Vec<char>, j: usize) -> (r: bool)
    requires
        j + p@.len() <= t@.len(),
    ensures
        r == matches_at(p@, t@, j as int),
{
    let n = p.len();
    let tl = t.len();
    let mut k: usize = 0;
    while k < n
        invariant
            n == p@.len(),
            tl == t@.len(),
            j + n <= tl,
            k <= n,
            forall|i: int| 0 <= i < k ==> t@[j + i] == p@[i],
        decreases n - k,
    {
        if t[j + k] != p[k] {
            return false;
        }
        k = k + 1;
    }
    true
}

/// First case-insensitive occurrence of `p` in `t`.
pub fn find_ci(t: &Vec<char>, p: &Vec<char>) -> (r: Option<usize>)
    ensures
        match r {
            Some(i) => find_ci_from(p@, t@, 0) == Some(i as int),
            None => find_ci_from(p@, t@, 0) is None,
        },
{
    if p.len() == 0 || p.len() > t.len() {
        return None;
    }
    let last = t.len() - p.len();
    let mut j: usize = 0;
    loop
        invariant
            p@.len() >= 1,
            j + p@.len() <= t@.len(),
            last == t@.len() - p@.len(),
            find_ci_from(p@, t@, 0) == find_ci_from(p@, t@, j as int),
        decreases t@.len() - j,
    {
        if matches_ci_at_x(t, p, j) {
            return Some(j);
        }
        if j == last {
            proof {
                assert(find_ci_from(p@, t@, j as int + 1) is None);
            }
            return None;
        }
        j = j + 1;
    }
}

/// First verbatim occurrence of `p` in `t`.
pub fn find_exact(t: &Vec<char>, p: &Vec<char>) -> (r: Option<usize>)
    ensures
        match r {
            Some(i) => find_from(p@, t@, 0) == Some(i as int),
            None => find_from(p@, t@, 0) is None,
        },
{
    if p.len() == 0 || p.len() > t.len() {
        return None;
    }
    let last = t.len() - p.len();
    let mut j: usize = 0;
    loop
        invariant
            p@.len() >= 1,
            j + p@.len() <= t@.len(),
            last == t@.len() - p@.len(),
            find_from(p@, t@, 0) == find_from(p@, t@, j as int),
        decreases t@.len() - j,
    {
        if matches_at_x(t, p, j) {
            return Some(j);
        }
        if j == last {
            proof {
                assert(find_from(p@, t@, j as int + 1) is None);
            }
            return None;
        }
        j = j + 1;
    }
}

/// Whether `t` contains `p`, case-insensitively.
pub fn contains_ci_x(t: &Vec<char>, p: &Vec<char>) -> (r: bool)
    ensures
        r == contains_ci(t@, p@),
{
    find_ci(t, p).is_some()
}

/// Whether `t` starts with `p`, case-insensitively.
pub fn starts_with_ci_x(t: &Vec<char>, p: &Vec<char>) -> (r: bool)
    ensures
        r == starts_with_ci(t@, p@),
{
    if p.len() > t.len() {
        return false;
    }
    matches_ci_at_x(t, p, 0)
}

/// ASCII case-insensitive equality of two texts.
pub fn eq_ci_x(t: &Vec<char>, p: &Vec<char>) -> (r: bool)
    ensures
        r == eq_ci(t@, p@),
{
    if t.len() != p.len() {
        return false;
    }
    matches_ci_at_x(t, p, 0)
}

/// Whether `t` starts with `p`, verbatim.
pub fn starts_with_x(t: &Vec<char>, p: &Vec<char>) -> (r: bool)
    ensures
        r == matches_at(p@, t@, 0),
{
    if p.len() > t.len() {
        return false;
    }
    matches_at_x(t, p, 0)
}

/// `v` without its longest prefix of characters drawn from `cs`.
pub fn trim_start_any_x(v: &Vec<char>, cs: &Vec<char>) -> (r: Vec<char>)
    ensures
        r@ == trim_start_any(v@, cs@),
{
    let n = v.len();
    let mut i: usize = 0;
    proof {
        assert(v@.subrange(0, n as int) =~= v@);
    }
    while i < n && char_set_has(cs, v[i])
        invariant
            n == v@.len(),
            i <= n,
            trim_start_any(v@, cs@) == trim_start_any(v@.subrange(i as int, n as int), cs@),
        decreases n - i,
    {
        proof {
            let s = v@.subrange(i as int, n as int);
            assert(s.skip(1) =~= v@.subrange(i as int + 1, n as int));
        }
        i = i + 1;
    }
    let mut out: Vec<char> = Vec::new();
    push_range(&mut out, v, i, n);
    proof {
        let s = v@.subrange(i as int, n as int);
        assert(trim_start_any(s, cs@) == s);
        assert(out@ =~= s);
    }
    out
}

/// `v` without its longest suffix of characters drawn from `cs`.
pub fn trim_end_any_x(v: &Vec<char>, cs: &Vec<char>) -> (r: Vec<char>)
    ensures
        r@ == trim_end_any(v@, cs@),
{
    let mut n = v.len();
    proof {
        assert(v@.subrange(0, n as int) =~= v@);
    }
    while n > 0 && char_set_has(cs, v[n - 1])
        invariant
            n <= v@.len(),
            trim_end_any(v@, cs@) == trim_end_any(v@.subrange(0, n as int), cs@),
        decreases n,
    {
        proof {
            let s = v@.subrange(0, n as int);
            assert(s.drop_last() =~= v@.subrange(0, n as int - 1));
        }
        n = n - 1;
    }
    let mut out: Vec<char> = Vec::new();
    push_range(&mut out, v, 0, n);
    proof {
        let s = v@.subrange(0, n as int);
        assert(trim_end_any(s, cs@) == s);
        assert(out@ =~= s);
    }
    out
}

/// The ASCII whitespace set, for the executable trims.
pub fn space_chars_x() -> (r: Vec<char>)
    ensures
        r@ == space_chars(),
{
    let mut v: Vec<char> = Vec::new();
    v.push(' ');
    v.push('\t');
    v.push('\n');
    v.push('\r');
    proof {
        assert(v@ =~= space_chars());
    }
    v
}

/// `v` with ASCII whitespace removed from both ends.
pub fn trim_ws_x(v: &Vec<char>) -> (r: Vec<char>)
    ensures
        r@ == trim_ws(v@),
{
    let sp = space_chars_x();
    let t = trim_start_any_x(v, &sp);
    trim_end_any_x(&t, &sp)
}

/// Number of whitespace-separated words in `v`.
pub fn word_count_x(v: &Vec<char>) -> (r: usize)
    ensures
        r == word_count(v@),
        r <= v@.len(),
{
    let n = v.len();
    let mut j: usize = 0;
    let mut count: usize = 0;
    proof {
        lemma_word_count_le_len(v@, 0);
    }
    while j < n
        invariant
            n == v@.len(),
            j <= n,
            count <= j,
            count + word_count_from(v@, j as int) == word_count(v@),
            word_count(v@) <= n,
        decreases n - j,
    {
        proof {
            lemma_word_count_le_len(v@, j as int + 1);
        }
        let starts = !is_space_char_x(v[j]) && (j == 0 || is_space_char_x(v[j - 1]));
        if starts {
            count = count + 1;
        }
        j = j + 1;
    }
    count
}

} // verus!
