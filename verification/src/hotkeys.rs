//! Decisions of the dictation flow: what a global shortcut event does, when
//! a recording gets auto-stop, whether a finished recording is worth
//! recognising, and when live captions are decoded and shown.
use vstd::prelude::*;
use crate::settings::AppSettings;
use crate::state::RecordingMode;
use crate::text::{is_blank, lemma_trimmed_empty, str_eq, trim};

verus! {

broadcast use vstd::string::group_string_axioms;

/// Whether a shortcut went down or up.
#[derive(Debug, Clone, Copy, PartialEq, Eq, Structural)]
pub enum ShortcutPhase {
    Pressed,
    Released,
}

/// What to do on a shortcut event.
#[derive(Debug, Clone, Copy, PartialEq, Eq, Structural)]
pub enum ShortcutAction {
    /// Start recording in the given mode.
    Start(RecordingMode),
    /// Stop the running recording and recognise it.
    Stop,
    /// Nothing.
    Ignore,
}

/// What a shortcut event does: the push-to-talk key records while it is
/// held; a press of the toggle key stops the running recording or starts
/// one; anything else does nothing.
pub open spec fn shortcut_action_of(
    is_push: bool,
    is_toggle: bool,
    phase: ShortcutPhase,
    active: Option<RecordingMode>,
) -> ShortcutAction {
    if is_push {
        match phase {
            ShortcutPhase::Pressed => ShortcutAction::Start(RecordingMode::PushToTalk),
            ShortcutPhase::Released => ShortcutAction::Stop,
        }
    } else if is_toggle && phase == ShortcutPhase::Pressed {
        if active is Some {
            ShortcutAction::Stop
        } else {
            ShortcutAction::Start(RecordingMode::Toggle)
        }
    } else {
        ShortcutAction::Ignore
    }
}

/// What a shortcut event does. `is_push` and `is_toggle` tell whether the
/// event's shortcut is the configured push-to-talk or toggle one; `active`
/// is the running recording's mode.
pub fn shortcut_action(
    is_push: bool,
    is_toggle: bool,
    phase: ShortcutPhase,
    active: Option<RecordingMode>,
) -> (r: ShortcutAction)
    ensures
        r == shortcut_action_of(is_push, is_toggle, phase, active),
{
    if is_push {
        match phase {
            ShortcutPhase::Pressed => ShortcutAction::Start(RecordingMode::PushToTalk),
            ShortcutPhase::Released => ShortcutAction::Stop,
        }
    } else if is_toggle && phase == ShortcutPhase::Pressed {
        if active.is_some() {
            ShortcutAction::Stop
        } else {
            ShortcutAction::Start(RecordingMode::Toggle)
        }
    } else {
        ShortcutAction::Ignore
    }
}

/// Two presses of the toggle key, from idle, start a toggle recording and
/// then stop it; the push-to-talk key starts on press and stops on release.
pub proof fn lemma_toggle_and_hold(active: Option<RecordingMode>)
    ensures
        shortcut_action_of(false, true, ShortcutPhase::Pressed, None) == ShortcutAction::Start(
            RecordingMode::Toggle,
        ),
        shortcut_action_of(false, true, ShortcutPhase::Pressed, Some(RecordingMode::Toggle))
            == ShortcutAction::Stop,
        shortcut_action_of(true, false, ShortcutPhase::Pressed, active) == ShortcutAction::Start(
            RecordingMode::PushToTalk,
        ),
        shortcut_action_of(true, false, ShortcutPhase::Released, active) == ShortcutAction::Stop,
        shortcut_action_of(false, true, ShortcutPhase::Released, active) == ShortcutAction::Ignore,
{
}

/// Whether auto-stop on silence is on for a recording in `mode`.
pub fn autostop_enabled(settings: &AppSettings, mode: RecordingMode) -> (r: bool)
    ensures
        r == match mode {
            RecordingMode::PushToTalk => settings.autostop_push_to_talk,
            RecordingMode::Toggle => settings.autostop_toggle,
        },
{
    match mode {
        RecordingMode::PushToTalk => settings.autostop_push_to_talk,
        RecordingMode::Toggle => settings.autostop_toggle,
    }
}

/// Name of a recording mode in the history.
pub open spec fn mode_label_of(mode: RecordingMode) -> Seq<char> {
    match mode {
        RecordingMode::PushToTalk => "push_to_talk"@,
        RecordingMode::Toggle => "toggle"@,
    }
}

/// Name of a recording mode in the history.
pub fn mode_label(mode: RecordingMode) -> (r: &'static str)
    ensures
        r@ == mode_label_of(mode),
{
    match mode {
        RecordingMode::PushToTalk => "push_to_talk",
        RecordingMode::Toggle => "toggle",
    }
}

/// Sample rate, in Hz, of the audio handed to recognition.
pub const TARGET_SAMPLE_RATE: u32 = 16000;

/// Shortest recording, in milliseconds, that is recognised; anything shorter
/// is taken for an accidental press.
pub const MIN_RECORDING_MS: i64 = 200;

/// Whether a finished recording of `sample_count` samples lasting
/// `duration_ms` is recognised: it must hold samples and last at least
/// the minimum.
pub fn recording_long_enough(sample_count: usize, duration_ms: i64) -> (r: bool)
    ensures
        r == (sample_count > 0 && duration_ms >= MIN_RECORDING_MS),
{
    sample_count > 0 && duration_ms >= MIN_RECORDING_MS
}

/// Whether a recognised text is pasted and saved: not when it is only white space.
pub fn transcript_worth_keeping(text: &str) -> (r: bool)
    ensures
        r == !is_blank(text@),
{
    let t = trim(text);
    proof {
        lemma_trimmed_empty(text@);
    }
    !t.is_empty()
}

/// Fewest samples (half a second at the target rate) worth a live-caption decode.
pub const MIN_PARTIAL_SAMPLES: usize = 8000;

/// Whether the audio recorded so far is long enough for a live-caption decode.
pub fn partial_decode_ready(sample_count: usize) -> (r: bool)
    ensures
        r == (sample_count >= MIN_PARTIAL_SAMPLES),
{
    sample_count >= MIN_PARTIAL_SAMPLES
}

/// Whether a live-caption text is shown: when it differs from the last one
/// shown and is not only white space.
pub fn partial_transcript_changed(last: &str, text: &str) -> (r: bool)
    ensures
        r == (text@ != last@ && !is_blank(text@)),
{
    if str_eq(text, last) {
        false
    } else {
        transcript_worth_keeping(text)
    }
}

} // verus!
