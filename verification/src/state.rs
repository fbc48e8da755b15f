//! The recording session: at most one recording runs at a time, in one of
//! two modes.
use vstd::prelude::*;

verus! {

/// How a recording was started.
#[derive(Debug, Clone, Copy, PartialEq, Eq, Structural)]
pub enum RecordingMode {
    /// Recording lasts while the hotkey is held.
    PushToTalk,
    /// One press starts recording, the next one stops it.
    Toggle,
}

/// Which recording, if any, is running.
#[derive(Debug, Clone, Copy)]
pub struct RecordingSession {
    pub active: Option<RecordingMode>,
}

/// The running recording after an attempt to start one in `mode`: a new one
/// only when none runs.
pub open spec fn after_start(active: Option<RecordingMode>, mode: RecordingMode) -> Option<RecordingMode> {
    if active is None {
        Some(mode)
    } else {
        active
    }
}

impl RecordingSession {
    /// No recording running.
    pub fn new() -> (r: Self)
        ensures
            r.active is None,
    {
        RecordingSession { active: None }
    }

    /// The mode of the running recording, if one runs.
    pub fn active_mode(&self) -> (r: Option<RecordingMode>)
        ensures
            r == self.active,
    {
        self.active
    }

    /// Starts a recording in `mode` unless one already runs; returns whether
    /// it started.
    pub fn try_start(&mut self, mode: RecordingMode) -> (started: bool)
        ensures
            started == (old(self).active is None),
            final(self).active == after_start(old(self).active, mode),
    {
        if self.active.is_some() {
            false
        } else {
            self.active = Some(mode);
            true
        }
    }

    /// Ends the running recording, returning its mode; `None` when none ran.
    pub fn finish(&mut self) -> (r: Option<RecordingMode>)
        ensures
            r == old(self).active,
            final(self).active is None,
    {
        let r = self.active;
        self.active = None;
        r
    }
}

/// A recording started while none ran is the one that finishing ends;
/// starting while one runs leaves that one running.
pub proof fn lemma_start_then_finish(active: Option<RecordingMode>, mode: RecordingMode)
    ensures
        active is None ==> after_start(active, mode) == Some(mode),
        active is Some ==> after_start(active, mode) == active,
{
}

} // verus!
