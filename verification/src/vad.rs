//! The silence hangover of the auto-stop: it adds up the duration of the
//! quiet audio chunks it is told about, starts again at zero on a loud one,
//! and asks to stop the recording once the silence lasts the hangover.
//!
//! Whether a chunk is quiet is decided by the application from the chunk's
//! RMS energy against a threshold, in floating point; this type receives the
//! verdict and the chunk's duration in milliseconds.
use vstd::prelude::*;

verus! {

/// Accumulated silence of a recording and the hangover that ends it.
#[derive(Debug, Clone, Copy)]
pub struct SilenceHangover {
    /// Silence, in milliseconds, after which recording stops.
    pub silence_hangover_ms: u32,
    /// Milliseconds of silence since the last loud chunk (or the start).
    pub silent_ms_accum: u32,
}

/// Silence accumulated, from `acc`, over a run of chunks, each a (quiet,
/// duration in milliseconds) pair: a quiet chunk adds its duration, a loud
/// one starts again from zero.
pub open spec fn accumulate(acc: int, chunks: Seq<(bool, u32)>) -> int
    decreases chunks.len(),
{
    if chunks.len() == 0 {
        acc
    } else {
        let before = accumulate(acc, chunks.drop_last());
        if chunks.last().0 {
            before + chunks.last().1
        } else {
            0
        }
    }
}

/// Total duration of a run of chunks.
pub open spec fn total_ms(chunks: Seq<(bool, u32)>) -> int
    decreases chunks.len(),
{
    if chunks.len() == 0 {
        0
    } else {
        total_ms(chunks.drop_last()) + chunks.last().1
    }
}

impl SilenceHangover {
    /// A fresh accumulator for the given hangover.
    pub fn new(silence_hangover_ms: u32) -> (r: Self)
        ensures
            r.silence_hangover_ms == silence_hangover_ms,
            r.silent_ms_accum == 0,
    {
        SilenceHangover { silence_hangover_ms, silent_ms_accum: 0 }
    }

    /// Takes in the next chunk: `silent` tells whether its energy was below the
    /// threshold, `chunk_ms` how long it lasts. Returns whether the
    /// accumulated silence has reached the hangover and recording should stop.
    pub fn feed(&mut self, silent: bool, chunk_ms: u32) -> (stop: bool)
        requires
            silent ==> old(self).silent_ms_accum + chunk_ms <= u32::MAX,
        ensures
            final(self).silence_hangover_ms == old(self).silence_hangover_ms,
            final(self).silent_ms_accum == (if silent {
                old(self).silent_ms_accum + chunk_ms
            } else {
                0
            }),
            stop == (final(self).silent_ms_accum >= final(self).silence_hangover_ms),
    {
        if silent {
            self.silent_ms_accum = self.silent_ms_accum + chunk_ms;
        } else {
            self.silent_ms_accum = 0;
        }
        self.silent_ms_accum >= self.silence_hangover_ms
    }

    /// Forgets the accumulated silence.
    pub fn reset(&mut self)
        ensures
            final(self).silence_hangover_ms == old(self).silence_hangover_ms,
            final(self).silent_ms_accum == 0,
    {
        self.silent_ms_accum = 0;
    }
}

/// A run of quiet chunks adds up all their durations: silence that lasts
/// the hangover, in however many chunks, stops the recording.
pub proof fn lemma_quiet_run_adds_up(acc: int, chunks: Seq<(bool, u32)>)
    requires
        forall|i: int| 0 <= i < chunks.len() ==> (#[trigger] chunks[i]).0,
    ensures
        accumulate(acc, chunks) == acc + total_ms(chunks),
    decreases chunks.len(),
{
    if chunks.len() > 0 {
        let rest = chunks.drop_last();
        assert forall|i: int| 0 <= i < rest.len() implies (#[trigger] rest[i]).0 by {
            assert(rest[i] == chunks[i]);
        }
        lemma_quiet_run_adds_up(acc, rest);
    }
}

/// Speech interrupts the silence: after a loud chunk only the quiet chunks
/// that follow it count.
pub proof fn lemma_loud_chunk_restarts(
    acc: int,
    before: Seq<(bool, u32)>,
    loud_ms: u32,
    after: Seq<(bool, u32)>,
)
    ensures
        accumulate(acc, before.push((false, loud_ms)) + after) == accumulate(0, after),
    decreases after.len(),
{
    let s = before.push((false, loud_ms));
    if after.len() == 0 {
        assert(s + after =~= s);
        assert(s.drop_last() =~= before);
    } else {
        lemma_loud_chunk_restarts(acc, before, loud_ms, after.drop_last());
        assert((s + after).drop_last() =~= s + after.drop_last());
        assert((s + after).last() == after.last());
    }
}

} // verus!
