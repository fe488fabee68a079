//! The paste sequence and its timing contract.
//!
//! Inserting text goes clipboard-first: write the text to the clipboard,
//! wait a fixed short delay for the clipboard to settle, inject the paste
//! keystroke, then wait a second fixed delay so the target application
//! finishes processing before the caller touches any visible state.  The
//! clipboard and keystroke are operating-system work done by the embedding
//! program; this module fixes what it must do and in which order.

use vstd::prelude::*;

verus! {

/// Milliseconds between the clipboard write and the injected keystroke.
pub const PRE_PASTE_DELAY_MS: u64 = 300;

/// Milliseconds between the injected keystroke and returning to the caller.
pub const POST_PASTE_DELAY_MS: u64 = 500;

/// The sentinel written to the clipboard by the focus probe; the probe
/// restores the previous clipboard text afterwards.
pub fn probe_sentinel() -> (r: &'static str)
    ensures
        r@ == "__DICTATION_HUD_SENTINEL__"@,
{
    "__DICTATION_HUD_SENTINEL__"
}

/// One insertion, spelled out for the embedding program: the text to place
/// on the clipboard and the two fixed delays around the injected keystroke.
pub struct PastePlan {
    /// What the clipboard receives, verbatim.
    pub text: String,
    /// Wait this long after the clipboard write, before the keystroke.
    pub pre_paste_delay_ms: u64,
    /// Wait this long after the keystroke, before returning.
    pub post_paste_delay_ms: u64,
}

/// Plan the insertion of `text`: the clipboard receives the text unchanged,
/// and both settling delays are fixed.
pub fn paste_plan(text: String) -> (r: PastePlan)
    ensures
        r.text@ == text@,
        r.pre_paste_delay_ms == PRE_PASTE_DELAY_MS,
        r.post_paste_delay_ms == POST_PASTE_DELAY_MS,
{
    PastePlan { text, pre_paste_delay_ms: PRE_PASTE_DELAY_MS, post_paste_delay_ms: POST_PASTE_DELAY_MS }
}

} // verus!
