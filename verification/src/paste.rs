//! Delivering recognised text: typing it into the focused field where that
//! is allowed, with the clipboard as the unconditional fallback.
//!
//! These are the checks for systems without an accessibility permission
//! gate, where synthetic typing is always allowed.
use vstd::prelude::*;

verus! {

/// How a recognised text reached the user.
#[derive(Debug, Clone, Copy, PartialEq, Eq, Structural)]
pub enum PasteOutcome {
    /// Typed into the focused field (and also left in the clipboard).
    AutoInserted,
    /// Only left in the clipboard, to be pasted by hand.
    CopiedToClipboard,
}

/// Whether the application may send synthetic key events.
pub fn is_trusted() -> (r: bool)
    ensures
        r,
{
    true
}

/// Asks the system to show its permission dialog for synthetic key events;
/// nothing to ask for here.
pub fn request_trust_prompt() {
}

/// Asks for the permission for synthetic key events unless it is granted;
/// meant to be called once, at start-up.
pub fn request_trust_prompt_if_needed() {
    if !is_trusted() {
        request_trust_prompt();
    }
}

/// Whether typing the text into the focused field is attempted: only with
/// auto-paste on and the permission granted.
pub fn autopaste_allowed(autopaste_enabled: bool, trusted: bool) -> (r: bool)
    ensures
        r == (autopaste_enabled && trusted),
{
    autopaste_enabled && trusted
}

/// The outcome of delivering a text: typed in only when typing was attempted
/// and succeeded; otherwise the clipboard copy, which is made in every case,
/// is what the user has.
pub fn paste_outcome(attempted: bool, typed: bool) -> (r: PasteOutcome)
    ensures
        r == (if attempted && typed {
            PasteOutcome::AutoInserted
        } else {
            PasteOutcome::CopiedToClipboard
        }),
{
    if attempted && typed {
        PasteOutcome::AutoInserted
    } else {
        PasteOutcome::CopiedToClipboard
    }
}

} // verus!
