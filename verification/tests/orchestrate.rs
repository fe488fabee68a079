use dictation_hud::orchestrate::build_refinement_request;
use dictation_hud::orchestrate::complete_refinement;
use dictation_hud::orchestrate::default_model;
use dictation_hud::orchestrate::parse_model_list;
use dictation_hud::orchestrate::parse_token_response;
use dictation_hud::orchestrate::plan_refinement;
use dictation_hud::orchestrate::provider_endpoint;
use dictation_hud::orchestrate::ProviderError;
use dictation_hud::orchestrate::RefinePlan;
use dictation_hud::prefs::BehaviorPrefs;
use dictation_hud::prefs::ProviderId;
use dictation_hud::prompt::get_system_prompt;
use dictation_hud::symbols::replace_symbols;

fn escape_json(s: &str) -> String {
    let mut out = String::new();
    for c in s.chars() {
        match c {
            '"' => out.push_str("\\\""),
            '\\' => out.push_str("\\\\"),
            '\n' => out.push_str("\\n"),
            '\r' => out.push_str("\\r"),
            '\t' => out.push_str("\\t"),
            c if (c as u32) < 32 => out.push_str(&format!("\\u{:04x}", c as u32)),
            c => out.push(c),
        }
    }
    out
}

#[test]
fn test_refine_disabled_never_calls_a_provider() {
    let mut prefs = BehaviorPrefs::default();
    prefs.ai_refine = false;
    let plan = plan_refinement("say hello new line bye", &prefs, None);
    match plan {
        RefinePlan::Done(res) => {
            assert!(!res.is_refined());
            assert_eq!(res.text(), replace_symbols("say hello new line bye"));
            assert_eq!(res.text(), "say hello\nbye");
        }
        RefinePlan::CallProvider { .. } => panic!("no provider call may be planned"),
    }
}

#[test]
fn test_refine_disabled_round_trips_phrase_free_text() {
    let mut prefs = BehaviorPrefs::default();
    prefs.ai_refine = false;
    let raw = "nothing spoken of symbols in here";
    let plan = plan_refinement(raw, &prefs, None);
    match plan {
        RefinePlan::Done(res) => assert_eq!(res.text(), raw),
        RefinePlan::CallProvider { .. } => panic!("no provider call may be planned"),
    }
}

#[test]
fn test_provider_resolution() {
    let prefs = BehaviorPrefs::default();
    let plan = plan_refinement("hi", &prefs, None);
    match plan {
        RefinePlan::CallProvider { provider, with_symbols } => {
            assert_eq!(provider, ProviderId::OpenRouter);
            assert_eq!(with_symbols, "hi");
        }
        RefinePlan::Done(_) => panic!("ai_refine is on"),
    }
    match plan_refinement("hi", &prefs, Some("MegaLLM")) {
        RefinePlan::CallProvider { provider, .. } => assert_eq!(provider, ProviderId::MegaLlm),
        RefinePlan::Done(_) => panic!("ai_refine is on"),
    }
    // An unrecognized explicit tag resolves to the primary provider.
    match plan_refinement("hi", &prefs, Some("somethingelse")) {
        RefinePlan::CallProvider { provider, .. } => assert_eq!(provider, ProviderId::OpenRouter),
        RefinePlan::Done(_) => panic!("ai_refine is on"),
    }
}

#[test]
fn test_request_shape() {
    let r = build_refinement_request(ProviderId::MegaLlm, "gpt-4", "k-123", "fix \"this\"\nplease");
    assert_eq!(r.url, "https://ai.megallm.io/v1/chat/completions");
    assert_eq!(r.bearer_key, "k-123");
    assert_eq!(r.timeout_secs, 5);
    let expected = format!(
        "{{\"model\":\"gpt-4\",\"messages\":[{{\"role\":\"system\",\"content\":\"{}\"}},{{\"role\":\"user\",\"content\":\"{}\"}}]}}",
        escape_json(get_system_prompt()),
        escape_json("fix \"this\"\nplease"),
    );
    assert_eq!(r.body, expected);
    // The body is valid JSON and carries the user text intact.
    let v: serde_json::Value = serde_json::from_str(&r.body).unwrap();
    assert_eq!(v["model"], "gpt-4");
    assert_eq!(v["messages"][1]["content"], "fix \"this\"\nplease");
}

#[test]
fn test_endpoints_and_default_models() {
    assert_eq!(
        provider_endpoint(ProviderId::OpenRouter),
        "https://openrouter.ai/api/v1/chat/completions"
    );
    assert_eq!(default_model(ProviderId::OpenRouter), "openai/gpt-oss-20b:free");
    assert_eq!(default_model(ProviderId::MegaLlm), "gpt-4");
}

#[test]
fn test_completion_success_is_validated() {
    let body = "{\"choices\":[{\"message\":{\"content\":\"Hello, world!\"}}]}".to_string();
    let r = complete_refinement(200, body, "hello world").unwrap();
    assert!(r.is_refined());
    assert_eq!(r.text(), "Hello, world!");
}

#[test]
fn test_completion_strips_think_blocks_and_rejects_refusals() {
    let body =
        "{\"choices\":[{\"message\":{\"content\":\"<think>hm</think>I'm sorry, I can't help with that.\"}}]}"
            .to_string();
    let r = complete_refinement(200, body, "call me back later today").unwrap();
    assert!(!r.is_refined());
    assert_eq!(r.text(), "Call me back later today.");
}

#[test]
fn test_completion_http_failure_is_surfaced() {
    let r = complete_refinement(401, "denied".to_string(), "hello");
    match r {
        Err(ProviderError::Http { status, body }) => {
            assert_eq!(status, 401);
            assert_eq!(body, "denied");
        }
        _ => panic!("a non-success status is a provider error"),
    }
}

#[test]
fn test_completion_malformed_body_is_surfaced() {
    let r = complete_refinement(200, "not json at all".to_string(), "hello");
    assert!(matches!(r, Err(ProviderError::MalformedResponse)));
}

#[test]
fn test_completion_missing_content_degrades_visibly() {
    let body = "{\"choices\":[]}".to_string();
    let r = complete_refinement(200, body, "hello").unwrap();
    // The placeholder "{}" flows through validation like any candidate.
    assert_eq!(r.text(), "{}");
}

#[test]
fn test_token_response_parsing() {
    let ok = parse_token_response(200, "{\"token\":\"tok-1\"}".to_string());
    assert_eq!(ok.unwrap(), "tok-1");
    assert!(matches!(
        parse_token_response(200, "{\"other\":1}".to_string()),
        Err(ProviderError::MissingToken)
    ));
    assert!(matches!(
        parse_token_response(200, "####".to_string()),
        Err(ProviderError::MalformedResponse)
    ));
    assert!(matches!(
        parse_token_response(500, "oops".to_string()),
        Err(ProviderError::Http { status: 500, .. })
    ));
}

#[test]
fn test_model_list_parsing() {
    let body = "{\"data\":[{\"id\":\"m1\"},{\"id\":\"m2\"},{\"name\":\"no id\"}]}".to_string();
    let ids = parse_model_list(200, body).unwrap();
    assert_eq!(ids, vec!["m1".to_string(), "m2".to_string()]);
    let empty = parse_model_list(200, "{\"nodata\":true}".to_string()).unwrap();
    assert!(empty.is_empty());
    assert!(matches!(
        parse_model_list(200, "not json".to_string()),
        Err(ProviderError::MalformedResponse)
    ));
}
