//! Behaviour preferences consumed by the refinement pipeline.
//!
//! The preference store itself lives outside the library; this module holds
//! the plain preference values, their defaults, and the rules by which a
//! settings update from the frontend is merged into them (unknown provider
//! tags are ignored rather than stored).

use vstd::prelude::*;

use crate::text::eq_ci;
use crate::text::eq_ci_x;
use crate::text::str_to_chars;

verus! {

/// An interchangeable AI refinement backend.  Providers form a closed set;
/// adding one extends this enum rather than any call site.
#[derive(Clone, Copy, Debug, PartialEq, Eq, Structural)]
pub enum ProviderId {
    /// The designated primary provider; unrecognized tags resolve to it.
    OpenRouter,
    /// The alternative chat-completion backend.
    MegaLlm,
}

/// A speech-to-text backend.
#[derive(Clone, Copy, Debug, PartialEq, Eq, Structural)]
pub enum SttProviderId {
    Deepgram,
    ElevenLabs,
}

/// The AI provider used when no preference is stored.
pub fn default_ai_provider() -> (r: ProviderId)
    ensures
        r is OpenRouter,
{
    ProviderId::OpenRouter
}

/// The speech-to-text provider used when no preference is stored.
pub fn default_stt_provider() -> (r: SttProviderId)
    ensures
        r is Deepgram,
{
    SttProviderId::Deepgram
}

/// The capture hotkey registered when none is stored; the combination
/// differs by platform naming convention only.
pub fn default_hotkey_combo(macos: bool) -> (r: &'static str)
    ensures
        macos ==> r@ == "Control+Shift+Alt+H"@,
        !macos ==> r@ == "Ctrl+Shift+Alt+H"@,
{
    if macos {
        "Control+Shift+Alt+H"
    } else {
        "Ctrl+Shift+Alt+H"
    }
}

/// User-facing behaviour switches, loaded afresh for every refinement call
/// so the pipeline always sees the latest setting.
#[derive(Clone, Copy, Debug, PartialEq, Eq, Structural)]
pub struct BehaviorPrefs {
    /// Paste the refined text automatically after a session.
    pub auto_paste: bool,
    /// Seconds of silence that end a capture.
    pub silence_secs: u32,
    /// Insert partial transcripts while still recording.
    pub stream_insert: bool,
    /// Launch the program when the user logs in.
    pub autostart: bool,
    /// Send transcripts through an AI provider; off means rule-based cleanup
    /// only.
    pub ai_refine: bool,
    /// Which AI backend refines the text.
    pub ai_provider: ProviderId,
    /// Which speech-to-text backend produces transcripts.
    pub stt_provider: SttProviderId,
    /// Microphone echo cancellation.
    pub echo_cancellation: bool,
    /// Microphone noise suppression.
    pub noise_suppression: bool,
}

impl Default for BehaviorPrefs {
    /// The out-of-the-box behaviour: auto-paste on, two seconds of silence,
    /// AI refinement on through the primary provider.
    fn default() -> (r: BehaviorPrefs)
        ensures
            r == (BehaviorPrefs {
                auto_paste: true,
                silence_secs: 2u32,
                stream_insert: false,
                autostart: false,
                ai_refine: true,
                ai_provider: ProviderId::OpenRouter,
                stt_provider: SttProviderId::Deepgram,
                echo_cancellation: true,
                noise_suppression: true,
            }),
    {
        BehaviorPrefs {
            auto_paste: true,
            silence_secs: 2,
            stream_insert: false,
            autostart: false,
            ai_refine: true,
            ai_provider: ProviderId::OpenRouter,
            stt_provider: SttProviderId::Deepgram,
            echo_cancellation: true,
            noise_suppression: true,
        }
    }
}

/// What a provider tag from the frontend means: only the two known names,
/// compared without regard to ASCII case, are accepted.
pub open spec fn spec_parse_provider_tag(s: Seq<char>) -> Option<ProviderId> {
    if eq_ci(s, "openrouter"@) {
        Some(ProviderId::OpenRouter)
    } else if eq_ci(s, "megallm"@) {
        Some(ProviderId::MegaLlm)
    } else {
        None
    }
}

/// What an STT tag from the frontend means.
pub open spec fn spec_parse_stt_tag(s: Seq<char>) -> Option<SttProviderId> {
    if eq_ci(s, "deepgram"@) {
        Some(SttProviderId::Deepgram)
    } else if eq_ci(s, "elevenlabs"@) {
        Some(SttProviderId::ElevenLabs)
    } else {
        None
    }
}

/// Parse a provider tag; an unknown tag is rejected.
pub fn parse_provider_tag(s: &str) -> (r: Option<ProviderId>)
    ensures
        r == spec_parse_provider_tag(s@),
{
    let v = str_to_chars(s);
    if eq_ci_x(&v, &str_to_chars("openrouter")) {
        Some(ProviderId::OpenRouter)
    } else if eq_ci_x(&v, &str_to_chars("megallm")) {
        Some(ProviderId::MegaLlm)
    } else {
        None
    }
}

/// Parse an STT tag; an unknown tag is rejected.
pub fn parse_stt_tag(s: &str) -> (r: Option<SttProviderId>)
    ensures
        r == spec_parse_stt_tag(s@),
{
    let v = str_to_chars(s);
    if eq_ci_x(&v, &str_to_chars("deepgram")) {
        Some(SttProviderId::Deepgram)
    } else if eq_ci_x(&v, &str_to_chars("elevenlabs")) {
        Some(SttProviderId::ElevenLabs)
    } else {
        None
    }
}

/// A settings update from the frontend: each field is set only when given.
/// Provider tags arrive as text and are accepted only when recognized.
pub struct BehaviorUpdate {
    pub auto_paste: Option<bool>,
    pub stream_insert: Option<bool>,
    pub ai_refine: Option<bool>,
    pub ai_provider: Option<String>,
    pub stt_provider: Option<String>,
    pub echo_cancellation: Option<bool>,
    pub noise_suppression: Option<bool>,
    pub silence_secs: Option<u32>,
}

/// Merge a settings update into existing preferences.
///
/// A field left out of the update keeps its old value; an unrecognized
/// provider or STT tag is ignored; the autostart flag is owned by the
/// operating system and is never changed here.
pub fn apply_behavior_update(prefs: &BehaviorPrefs, upd: &BehaviorUpdate) -> (r: BehaviorPrefs)
    ensures
        r.auto_paste == (if upd.auto_paste is Some {
            upd.auto_paste->0
        } else {
            prefs.auto_paste
        }),
        r.stream_insert == (if upd.stream_insert is Some {
            upd.stream_insert->0
        } else {
            prefs.stream_insert
        }),
        r.ai_refine == (if upd.ai_refine is Some {
            upd.ai_refine->0
        } else {
            prefs.ai_refine
        }),
        r.ai_provider == (if upd.ai_provider is Some && spec_parse_provider_tag(
            upd.ai_provider->0@,
        ) is Some {
            spec_parse_provider_tag(upd.ai_provider->0@)->0
        } else {
            prefs.ai_provider
        }),
        r.stt_provider == (if upd.stt_provider is Some && spec_parse_stt_tag(
            upd.stt_provider->0@,
        ) is Some {
            spec_parse_stt_tag(upd.stt_provider->0@)->0
        } else {
            prefs.stt_provider
        }),
        r.echo_cancellation == (if upd.echo_cancellation is Some {
            upd.echo_cancellation->0
        } else {
            prefs.echo_cancellation
        }),
        r.noise_suppression == (if upd.noise_suppression is Some {
            upd.noise_suppression->0
        } else {
            prefs.noise_suppression
        }),
        r.silence_secs == (if upd.silence_secs is Some {
            upd.silence_secs->0
        } else {
            prefs.silence_secs
        }),
        r.autostart == prefs.autostart,
{
    let mut r = *prefs;
    if let Some(v) = upd.auto_paste {
        r.auto_paste = v;
    }
    if let Some(v) = upd.stream_insert {
        r.stream_insert = v;
    }
    if let Some(v) = upd.ai_refine {
        r.ai_refine = v;
    }
    if let Some(tag) = &upd.ai_provider {
        if let Some(p) = parse_provider_tag(tag.as_str()) {
            r.ai_provider = p;
        }
    }
    if let Some(tag) = &upd.stt_provider {
        if let Some(p) = parse_stt_tag(tag.as_str()) {
            r.stt_provider = p;
        }
    }
    if let Some(v) = upd.echo_cancellation {
        r.echo_cancellation = v;
    }
    if let Some(v) = upd.noise_suppression {
        r.noise_suppression = v;
    }
    if let Some(v) = upd.silence_secs {
        r.silence_secs = v;
    }
    r
}

} // verus!
