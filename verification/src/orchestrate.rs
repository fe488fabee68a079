//! The refinement orchestrator.
//!
//! A raw transcript first passes the symbol replacer.  With AI refinement
//! off, that text is final.  With it on, the orchestrator resolves the
//! provider, builds the exact chat-completion request for the caller to
//! send, and turns the provider's HTTP answer into a validated result.
//! Sending the request is the caller's job: the library never does I/O.

use vstd::prelude::*;

use crate::prefs::BehaviorPrefs;
use crate::prefs::ProviderId;
use crate::prompt::get_system_prompt;
use crate::prompt::spec_system_prompt;
use crate::symbols::replace_symbols;
use crate::symbols::spec_replace_symbols;
use crate::text::eq_ci;
use crate::text::eq_ci_x;
use crate::text::str_to_chars;
use crate::text::chars_to_string;
use crate::validate::spec_strip_think;
use crate::validate::spec_validate_text;
use crate::validate::strip_think_blocks;
use crate::validate::validate;
use crate::validate::validate_rejects;
use crate::validate::RefinementResult;

verus! {

/// Seconds a provider call may take before the caller must give up:
/// dictation is latency-sensitive.
pub const REQUEST_TIMEOUT_SECS: u64 = 5;

/// The chat-completion endpoint of each provider.
pub open spec fn spec_endpoint(p: ProviderId) -> Seq<char> {
    match p {
        ProviderId::OpenRouter => "https://openrouter.ai/api/v1/chat/completions"@,
        ProviderId::MegaLlm => "https://ai.megallm.io/v1/chat/completions"@,
    }
}

/// The chat-completion endpoint of a provider.
pub fn provider_endpoint(p: ProviderId) -> (r: &'static str)
    ensures
        r@ == spec_endpoint(p),
{
    match p {
        ProviderId::OpenRouter => "https://openrouter.ai/api/v1/chat/completions",
        ProviderId::MegaLlm => "https://ai.megallm.io/v1/chat/completions",
    }
}

/// The model used when the preference store names none.
pub open spec fn spec_default_model(p: ProviderId) -> Seq<char> {
    match p {
        ProviderId::OpenRouter => "openai/gpt-oss-20b:free"@,
        ProviderId::MegaLlm => "gpt-4"@,
    }
}

/// The model used when the preference store names none.
pub fn default_model(p: ProviderId) -> (r: &'static str)
    ensures
        r@ == spec_default_model(p),
{
    match p {
        ProviderId::OpenRouter => "openai/gpt-oss-20b:free",
        ProviderId::MegaLlm => "gpt-4",
    }
}

/// Which provider a refinement call uses: an explicit tag names MegaLLM or
/// falls back to the primary provider; with no explicit tag the stored
/// preference decides.
pub open spec fn spec_resolve_provider(explicit: Option<Seq<char>>, pref: ProviderId) -> ProviderId {
    match explicit {
        Some(s) => if eq_ci(s, "megallm"@) {
            ProviderId::MegaLlm
        } else {
            ProviderId::OpenRouter
        },
        None => pref,
    }
}

/// Resolve the provider for one refinement call.
pub fn resolve_provider(explicit: Option<&str>, prefs: &BehaviorPrefs) -> (r: ProviderId)
    ensures
        r == spec_resolve_provider(explicit.deep_view(), prefs.ai_provider),
{
    match explicit {
        Some(s) => {
            let v = str_to_chars(s);
            if eq_ci_x(&v, &str_to_chars("megallm")) {
                ProviderId::MegaLlm
            } else {
                ProviderId::OpenRouter
            }
        },
        None => prefs.ai_provider,
    }
}

// ---------------------------------------------------------------------------
// Planning: what one refinement call must do.
// ---------------------------------------------------------------------------

/// The first half of a refinement: either the final text is already known,
/// or a provider must be called with the symbol-replaced text.
pub enum RefinePlan {
    /// No provider call is needed; the result is final.
    Done(RefinementResult),
    /// Send `with_symbols` to `provider` and hand the answer to
    /// `complete_refinement`.
    CallProvider { provider: ProviderId, with_symbols: String },
}

/// Decide one refinement call.
///
/// The raw transcript always passes the symbol replacer first.  With
/// `ai_refine` off the plan is final fallback text and no provider is ever
/// named — the caller cannot reach the network from such a plan.  With it
/// on, the plan carries the resolved provider and the symbol-replaced text.
pub fn plan_refinement(raw_text: &str, prefs: &BehaviorPrefs, explicit_provider: Option<&str>) -> (r:
    RefinePlan)
    ensures
        !prefs.ai_refine ==> (match r {
            RefinePlan::Done(res) => {
                &&& res is FallbackRaw
                &&& res.text_spec() == spec_replace_symbols(raw_text@)
            },
            _ => false,
        }),
        prefs.ai_refine ==> (match r {
            RefinePlan::CallProvider { provider, with_symbols } => {
                &&& provider == spec_resolve_provider(
                    explicit_provider.deep_view(),
                    prefs.ai_provider,
                )
                &&& with_symbols@ == spec_replace_symbols(raw_text@)
            },
            _ => false,
        }),
{
    let with_symbols = replace_symbols(raw_text);
    if !prefs.ai_refine {
        return RefinePlan::Done(RefinementResult::FallbackRaw(with_symbols));
    }
    let provider = resolve_provider(explicit_provider, prefs);
    RefinePlan::CallProvider { provider, with_symbols }
}

// ---------------------------------------------------------------------------
// The request a provider is sent.
// ---------------------------------------------------------------------------

/// Value of a hexadecimal digit, lower case.
pub open spec fn hex_digit(n: u32) -> char {
    if n < 10 {
        ((48 + n) as u32) as char
    } else {
        ((87 + n) as u32) as char
    }
}

fn hex_digit_x(n: u32) -> (r: char)
    requires
        n < 16,
    ensures
        r == hex_digit(n),
{
    proof {
        broadcast use vstd::utf8::char_u32_cast;

    }
    match n {
        0 => '0',
        1 => '1',
        2 => '2',
        3 => '3',
        4 => '4',
        5 => '5',
        6 => '6',
        7 => '7',
        8 => '8',
        9 => '9',
        10 => 'a',
        11 => 'b',
        12 => 'c',
        13 => 'd',
        14 => 'e',
        _ => 'f',
    }
}

/// How one character stands inside a JSON string: quote, backslash and the
/// common control characters get a two-character escape, any other control
/// character a `\u00..` escape, everything else stands as itself.
pub open spec fn escape_char(c: char) -> Seq<char> {
    if c == '"' {
        seq!['\\', '"']
    } else if c == '\\' {
        seq!['\\', '\\']
    } else if c == '\n' {
        seq!['\\', 'n']
    } else if c == '\r' {
        seq!['\\', 'r']
    } else if c == '\t' {
        seq!['\\', 't']
    } else if (c as u32) < 32 {
        seq!['\\', 'u', '0', '0', hex_digit(c as u32 / 16), hex_digit(c as u32 % 16)]
    } else {
        seq![c]
    }
}

/// The characters of `s` from position `j` on, each escaped for JSON.
pub open spec fn json_escaped_from(s: Seq<char>, j: int) -> Seq<char>
    decreases s.len() - j,
        when 0 <= j
{
    if j >= s.len() {
        Seq::empty()
    } else {
        escape_char(s[j]) + json_escaped_from(s, j + 1)
    }
}

/// `s` as the body of a JSON string, quotes included.
pub open spec fn json_string(s: Seq<char>) -> Seq<char> {
    seq!['"'] + json_escaped_from(s, 0) + seq!['"']
}

/// Render `s` as a JSON string literal.
pub fn json_string_x(s: &str) -> (r: String)
    ensures
        r@ == json_string(s@),
{
    let v = str_to_chars(s);
    let n = v.len();
    let mut out: Vec<char> = Vec::new();
    out.push('"');
    proof {
        assert(out@ + json_escaped_from(s@, 0) =~= seq!['"'] + json_escaped_from(s@, 0));
    }
    let mut i: usize = 0;
    while i < n
        invariant
            n == v@.len(),
            v@ == s@,
            i <= n,
            out@ + json_escaped_from(s@, i as int) == seq!['"'] + json_escaped_from(s@, 0),
        decreases n - i,
    {
        let ghost out_old = out@;
        let c = v[i];
        let u = c as u32;
        if c == '"' {
            out.push('\\');
            out.push('"');
        } else if c == '\\' {
            out.push('\\');
            out.push('\\');
        } else if c == '\n' {
            out.push('\\');
            out.push('n');
        } else if c == '\r' {
            out.push('\\');
            out.push('r');
        } else if c == '\t' {
            out.push('\\');
            out.push('t');
        } else if u < 32 {
            out.push('\\');
            out.push('u');
            out.push('0');
            out.push('0');
            out.push(hex_digit_x(u / 16));
            out.push(hex_digit_x(u % 16));
        } else {
            out.push(c);
        }
        proof {
            assert(out@ =~= out_old + escape_char(v@[i as int]));
            lemma_json_escaped_prefix(s@, i as int);
            assert(out@ + json_escaped_from(s@, i as int + 1) =~= out_old + (escape_char(s@[i as int])
                + json_escaped_from(s@, i as int + 1)));
        }
        i = i + 1;
    }
    proof {
        assert(out@ + json_escaped_from(s@, n as int) =~= out@);
    }
    out.push('"');
    proof {
        assert(out@ =~= json_string(s@));
    }
    chars_to_string(&out)
}

/// Splitting the escape of a text at position `j`: the whole escape is the
/// escape of the character at `j` glued between the two halves.
proof fn lemma_json_escaped_prefix(s: Seq<char>, j: int)
    requires
        0 <= j < s.len(),
    ensures
        json_escaped_from(s, j) == escape_char(s[j]) + json_escaped_from(s, j + 1),
{
}

/// The exact chat-completion request body: the fixed system instruction and
/// the symbol-replaced text as the sole user message.
pub open spec fn spec_chat_body(model: Seq<char>, system: Seq<char>, user: Seq<char>) -> Seq<char> {
    "{\"model\":"@ + json_string(model) + ",\"messages\":[{\"role\":\"system\",\"content\":"@
        + json_string(system) + "},{\"role\":\"user\",\"content\":"@ + json_string(user) + "}]}"@
}

/// Everything the caller needs to perform one provider call: where to send
/// it, the bearer credential, the exact JSON body, and the timeout.
pub struct ProviderRequest {
    pub url: String,
    pub bearer_key: String,
    pub body: String,
    pub timeout_secs: u64,
}

/// Build the request for one refinement call.
pub fn build_refinement_request(provider: ProviderId, model: &str, key: &str, with_symbols: &str) -> (r:
    ProviderRequest)
    ensures
        r.url@ == spec_endpoint(provider),
        r.bearer_key@ == key@,
        r.body@ == spec_chat_body(model@, spec_system_prompt(), with_symbols@),
        r.timeout_secs == REQUEST_TIMEOUT_SECS,
{
    let mut body = String::new();
    body.append("{\"model\":");
    body.append(json_string_x(model).as_str());
    body.append(",\"messages\":[{\"role\":\"system\",\"content\":");
    body.append(json_string_x(get_system_prompt()).as_str());
    body.append("},{\"role\":\"user\",\"content\":");
    body.append(json_string_x(with_symbols).as_str());
    body.append("}]}");
    proof {
        assert(body@ =~= spec_chat_body(model@, spec_system_prompt(), with_symbols@));
    }
    ProviderRequest {
        url: String::from_str(provider_endpoint(provider)),
        bearer_key: String::from_str(key),
        body,
        timeout_secs: REQUEST_TIMEOUT_SECS,
    }
}

// ---------------------------------------------------------------------------
// Completion: what the provider's answer means.
// ---------------------------------------------------------------------------

/// Why a provider call failed.  Failures here signal misconfiguration (a
/// bad key, a broken endpoint) and are surfaced to the caller, never
/// silently downgraded to fallback text.
#[derive(Debug)]
pub enum ProviderError {
    /// The provider answered with a non-success HTTP status.
    Http { status: u16, body: String },
    /// The provider's body was not well-formed JSON.
    MalformedResponse,
    /// The provider's body held no token (token requests only).
    MissingToken,
}

/// An HTTP status that counts as success.
pub open spec fn spec_status_success(status: u16) -> bool {
    200 <= status < 300
}

/// What parsing a chat-completion body yields: `None` when the body is not
/// JSON; `Some(None)` when it is JSON with no string at
/// `choices[0].message.content`; `Some(Some(text))` when that string is
/// there.  The value is a function of the body text alone.
pub uninterp spec fn chat_content_of(body: Seq<char>) -> Option<Option<Seq<char>>>;

/// Relies on `serde_json::from_str` and `Value::get`/`Value::as_str`:
/// parsing a chat-completion body and reading `choices[0].message.content`
/// is deterministic in the body text.
#[verifier::external_body]
fn extract_chat_content(body: &str) -> (r: Result<Option<String>, ()>)
    ensures
        match r {
            Ok(Some(c)) => chat_content_of(body@) == Some(Some(c@)),
            Ok(None) => chat_content_of(body@) == Some(None::<Seq<char>>),
            Err(()) => chat_content_of(body@) is None,
        },
{
    match serde_json::from_str::<serde_json::Value>(body) {
        Ok(v) => Ok(
            v.get("choices")
                .and_then(|c| c.get(0))
                .and_then(|c| c.get("message"))
                .and_then(|m| m.get("content"))
                .and_then(|c| c.as_str())
                .map(|s| s.to_string()),
        ),
        Err(_) => Err(()),
    }
}

/// Turn a provider's HTTP answer into the final refinement result.
///
/// A non-success status or a non-JSON body is a provider error.  Otherwise
/// the message content (an absent content field stands in as "{}", as a
/// visible sign of a malformed but well-formed-JSON answer) has its
/// reasoning blocks stripped and is judged by the validator against the
/// symbol-replaced text it came from.
pub fn complete_refinement(status: u16, body: String, with_symbols: &str) -> (r: Result<
    RefinementResult,
    ProviderError,
>)
    ensures
        !spec_status_success(status) ==> (match r {
            Result::Err(ProviderError::Http { status: s, body: b }) => s == status && b@ == body@,
            _ => false,
        }),
        spec_status_success(status) && chat_content_of(body@) is None ==> (match r {
            Result::Err(e) => e is MalformedResponse,
            _ => false,
        }),
        spec_status_success(status) && chat_content_of(body@) is Some ==> (match r {
            Result::Ok(res) => {
                let content = if chat_content_of(body@)->0 is Some {
                    chat_content_of(body@)->0->0
                } else {
                    "{}"@
                };
                let cleaned = spec_strip_think(content);
                &&& (res is Refined <==> !validate_rejects(cleaned, with_symbols@))
                &&& res.text_spec() == spec_validate_text(cleaned, with_symbols@)
            },
            _ => false,
        }),
{
    if !(200 <= status && status < 300) {
        return Err(ProviderError::Http { status, body });
    }
    match extract_chat_content(body.as_str()) {
        Err(()) => Err(ProviderError::MalformedResponse),
        Ok(opt) => {
            let content = match opt {
                Some(c) => c,
                None => String::from_str("{}"),
            };
            let cleaned = strip_think_blocks(content.as_str());
            Ok(validate(cleaned.as_str(), with_symbols))
        },
    }
}

// ---------------------------------------------------------------------------
// The two auxiliary provider answers the program reads.
// ---------------------------------------------------------------------------

/// What parsing a token response yields: `None` when the body is not JSON;
/// `Some(None)` when it holds no string under "token"; `Some(Some(t))`
/// otherwise.  A function of the body text alone.
pub uninterp spec fn token_of(body: Seq<char>) -> Option<Option<Seq<char>>>;

/// Relies on `serde_json::from_str` and `Value::get`/`Value::as_str`:
/// reading the "token" field is deterministic in the body text.
#[verifier::external_body]
fn extract_token(body: &str) -> (r: Result<Option<String>, ()>)
    ensures
        match r {
            Ok(Some(t)) => token_of(body@) == Some(Some(t@)),
            Ok(None) => token_of(body@) == Some(None::<Seq<char>>),
            Err(()) => token_of(body@) is None,
        },
{
    match serde_json::from_str::<serde_json::Value>(body) {
        Ok(v) => Ok(v.get("token").and_then(|t| t.as_str()).map(|s| s.to_string())),
        Err(_) => Err(()),
    }
}

/// Read a single-use speech token out of a token-endpoint answer: a
/// non-success status or non-JSON body is a provider error, a missing token
/// its own error, and a present token is returned as it stands.
pub fn parse_token_response(status: u16, body: String) -> (r: Result<String, ProviderError>)
    ensures
        !spec_status_success(status) ==> (match r {
            Result::Err(ProviderError::Http { status: s, body: b }) => s == status && b@ == body@,
            _ => false,
        }),
        spec_status_success(status) && token_of(body@) is None ==> (match r {
            Result::Err(e) => e is MalformedResponse,
            _ => false,
        }),
        spec_status_success(status) && token_of(body@) == Some(None::<Seq<char>>) ==> (match r {
            Result::Err(e) => e is MissingToken,
            _ => false,
        }),
        spec_status_success(status) && token_of(body@) is Some && token_of(body@)->0 is Some ==> (
        match r {
            Result::Ok(t) => t@ == token_of(body@)->0->0,
            _ => false,
        }),
{
    if !(200 <= status && status < 300) {
        return Err(ProviderError::Http { status, body });
    }
    match extract_token(body.as_str()) {
        Err(()) => Err(ProviderError::MalformedResponse),
        Ok(None) => Err(ProviderError::MissingToken),
        Ok(Some(t)) => Ok(t),
    }
}

/// The model identifiers a model-list answer names, in order: each element
/// of the "data" array contributes its "id" string, or `None` where it has
/// none.  `None` when the body is not JSON, `Some(None)` when "data" is not
/// an array.  A function of the body text alone.
pub uninterp spec fn model_entries_of(body: Seq<char>) -> Option<Option<Seq<Option<Seq<char>>>>>;

/// Relies on `serde_json::from_str`, `Value::get`, `Value::as_array` and
/// `Value::as_str`: reading the "id" of each "data" element is
/// deterministic in the body text.
#[verifier::external_body]
fn extract_model_entries(body: &str) -> (r: Result<Option<Vec<Option<String>>>, ()>)
    ensures
        match r {
            Ok(Some(entries)) => model_entries_of(body@) == Some(Some(entries.deep_view())),
            Ok(None) => model_entries_of(body@) == Some(None::<Seq<Option<Seq<char>>>>),
            Err(()) => model_entries_of(body@) is None,
        },
{
    match serde_json::from_str::<serde_json::Value>(body) {
        Ok(v) => Ok(
            v.get("data").and_then(|d| d.as_array()).map(
                |arr|
                    arr.iter().map(
                        |m| m.get("id").and_then(|i| i.as_str()).map(|s| s.to_string()),
                    ).collect(),
            ),
        ),
        Err(_) => Err(()),
    }
}

/// The identifiers among the entries, in order, entries without one left
/// out.
pub open spec fn spec_model_ids(entries: Seq<Option<Seq<char>>>) -> Seq<Seq<char>>
    decreases entries.len(),
{
    if entries.len() == 0 {
        Seq::empty()
    } else {
        let rest = spec_model_ids(entries.drop_last());
        match entries.last() {
            Some(id) => rest.push(id),
            None => rest,
        }
    }
}

/// Read the model list out of a models-endpoint answer: a non-success
/// status or non-JSON body is a provider error; a missing or non-array
/// "data" field yields the empty list; otherwise the "id" of each entry, in
/// order.
pub fn parse_model_list(status: u16, body: String) -> (r: Result<Vec<String>, ProviderError>)
    ensures
        !spec_status_success(status) ==> (match r {
            Result::Err(ProviderError::Http { status: s, body: b }) => s == status && b@ == body@,
            _ => false,
        }),
        spec_status_success(status) && model_entries_of(body@) is None ==> (match r {
            Result::Err(e) => e is MalformedResponse,
            _ => false,
        }),
        spec_status_success(status) && model_entries_of(body@) == Some(
            None::<Seq<Option<Seq<char>>>>,
        ) ==> (match r {
            Result::Ok(ids) => ids@.len() == 0,
            _ => false,
        }),
        spec_status_success(status) && model_entries_of(body@) is Some && model_entries_of(
            body@,
        )->0 is Some ==> (match r {
            Result::Ok(ids) => ids.deep_view() == spec_model_ids(model_entries_of(body@)->0->0),
            _ => false,
        }),
{
    if !(200 <= status && status < 300) {
        return Err(ProviderError::Http { status, body });
    }
    match extract_model_entries(body.as_str()) {
        Err(()) => Err(ProviderError::MalformedResponse),
        Ok(None) => Ok(Vec::new()),
        Ok(Some(entries)) => {
            let ghost all = entries.deep_view();
            let n = entries.len();
            let mut ids: Vec<String> = Vec::new();
            let mut k: usize = 0;
            proof {
                assert(all.subrange(0, 0) =~= Seq::<Option<Seq<char>>>::empty());
            }
            while k < n
                invariant
                    n == entries@.len(),
                    all == entries.deep_view(),
                    all.len() == n,
                    k <= n,
                    ids.deep_view() == spec_model_ids(all.subrange(0, k as int)),
                decreases n - k,
            {
                let ghost ids_old = ids.deep_view();
                match &entries[k] {
                    Some(s) => {
                        let id: String = s.clone();
                        ids.push(id);
                        proof {
                            assert(entries.deep_view()[k as int] == entries@[k as int].deep_view());
                            assert(ids.deep_view() =~= ids_old.push(s@));
                        }
                    },
                    None => {
                        proof {
                            assert(entries.deep_view()[k as int] == entries@[k as int].deep_view());
                        }
                    },
                }
                proof {
                    let pre = all.subrange(0, k as int + 1);
                    assert(pre.drop_last() =~= all.subrange(0, k as int));
                    assert(pre.last() == all[k as int]);
                }
                k = k + 1;
            }
            proof {
                assert(all.subrange(0, n as int) =~= all);
            }
            Ok(ids)
        },
    }
}

} // verus!
