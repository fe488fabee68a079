use dictation_hud::hud::hud_position_in_work_area;
use dictation_hud::hud::hud_position_primary;
use dictation_hud::hud::work_area_for_foreground_monitor;
use dictation_hud::paste::paste_plan;
use dictation_hud::paste::probe_sentinel;
use dictation_hud::prefs::apply_behavior_update;
use dictation_hud::prefs::default_hotkey_combo;
use dictation_hud::prefs::parse_provider_tag;
use dictation_hud::prefs::parse_stt_tag;
use dictation_hud::prefs::BehaviorPrefs;
use dictation_hud::prefs::BehaviorUpdate;
use dictation_hud::prefs::ProviderId;
use dictation_hud::prefs::SttProviderId;

fn empty_update() -> BehaviorUpdate {
    BehaviorUpdate {
        auto_paste: None,
        stream_insert: None,
        ai_refine: None,
        ai_provider: None,
        stt_provider: None,
        echo_cancellation: None,
        noise_suppression: None,
        silence_secs: None,
    }
}

#[test]
fn test_default_prefs() {
    let p = BehaviorPrefs::default();
    assert!(p.auto_paste);
    assert_eq!(p.silence_secs, 2);
    assert!(!p.stream_insert);
    assert!(!p.autostart);
    assert!(p.ai_refine);
    assert_eq!(p.ai_provider, ProviderId::OpenRouter);
    assert_eq!(p.stt_provider, SttProviderId::Deepgram);
    assert!(p.echo_cancellation);
    assert!(p.noise_suppression);
}

#[test]
fn test_update_merges_only_given_fields() {
    let p = BehaviorPrefs::default();
    let mut u = empty_update();
    u.ai_refine = Some(false);
    u.silence_secs = Some(5);
    let q = apply_behavior_update(&p, &u);
    assert!(!q.ai_refine);
    assert_eq!(q.silence_secs, 5);
    assert_eq!(q.ai_provider, p.ai_provider);
    assert_eq!(q.auto_paste, p.auto_paste);
    assert_eq!(q.autostart, p.autostart);
}

#[test]
fn test_unknown_provider_tag_is_ignored() {
    let p = BehaviorPrefs::default();
    let mut u = empty_update();
    u.ai_provider = Some("frontier-9000".to_string());
    let q = apply_behavior_update(&p, &u);
    assert_eq!(q.ai_provider, ProviderId::OpenRouter);
    u.ai_provider = Some("MegaLLM".to_string());
    let q = apply_behavior_update(&p, &u);
    assert_eq!(q.ai_provider, ProviderId::MegaLlm);
}

#[test]
fn test_tag_parsing_is_case_insensitive() {
    assert_eq!(parse_provider_tag("OpenRouter"), Some(ProviderId::OpenRouter));
    assert_eq!(parse_provider_tag("megallm"), Some(ProviderId::MegaLlm));
    assert_eq!(parse_provider_tag("other"), None);
    assert_eq!(parse_stt_tag("ElevenLabs"), Some(SttProviderId::ElevenLabs));
    assert_eq!(parse_stt_tag("deepgram"), Some(SttProviderId::Deepgram));
    assert_eq!(parse_stt_tag(""), None);
}

#[test]
fn test_hud_positions() {
    assert_eq!(hud_position_primary(1920, 1080), (660, 900));
    assert_eq!(hud_position_in_work_area(-1920, 100, 1920, 1080), (-1260, 1060));
    // A screen smaller than the indicator still gets a centred position.
    assert_eq!(hud_position_primary(500, 100), (-50, -80));
    assert!(work_area_for_foreground_monitor().is_none());
}

#[test]
fn test_default_hotkey_combo() {
    assert_eq!(default_hotkey_combo(true), "Control+Shift+Alt+H");
    assert_eq!(default_hotkey_combo(false), "Ctrl+Shift+Alt+H");
}

#[test]
fn test_paste_plan_timing() {
    let plan = paste_plan("final text".to_string());
    assert_eq!(plan.text, "final text");
    assert_eq!(plan.pre_paste_delay_ms, 300);
    assert_eq!(plan.post_paste_delay_ms, 500);
    assert_eq!(probe_sentinel(), "__DICTATION_HUD_SENTINEL__");
}
