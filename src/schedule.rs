//! Change detection and the per-text generation job: a two-state machine
//! (idle or pending) driven once per tick by whoever runs the jobs.
//!
//! While a job is pending, changes of the inputs are not acted on and the
//! stored fingerprint keeps the inputs of that job; once the job is done,
//! the next tick compares again and launches a job for the inputs of then.
//! A finished job is always applied. A failed one leaves the previous mesh
//! in place and forgets the fingerprint, so the same inputs are tried again.
use vstd::prelude::*;
use crate::mesh::GeneratedMesh;

verus! {

/// What change detection knows of one text.
#[derive(Clone, Copy, Debug, PartialEq, Eq, Structural)]
pub struct GenerationState {
    /// The fingerprint of the inputs of the job launched last, if any, and
    /// if that job has not failed.
    pub fingerprint: Option<u64>,
    /// Whether a job is in flight.
    pub pending: bool,
}

/// What a tick decided for one text.
#[derive(Clone, Copy, Debug, PartialEq, Eq, Structural)]
pub enum TickDecision {
    /// The inputs are those of the last job: nothing to do.
    UpToDate,
    /// The inputs changed but a job is still in flight.
    Busy,
    /// The inputs changed but the font is not loaded yet.
    AwaitFont,
    /// A job is to be launched for the current inputs.
    Launch,
}

/// Why a job produced no mesh.
#[derive(Clone, Copy, Debug, PartialEq, Eq, Structural)]
pub enum GenerationError {
    /// The outline generator failed on the line of this index.
    Outline { line: usize },
}

/// What to do with a job after polling it.
pub enum PollAction {
    /// The job is still running.
    Waiting,
    /// The job is done: this mesh replaces the text's mesh.
    Attach(GeneratedMesh),
    /// The job failed: the text keeps its mesh.
    KeepPrevious(GenerationError),
}

/// One tick of change detection on `s`, with `current` the fingerprint of
/// the inputs now and `font_loaded` whether the font can be read.
pub open spec fn tick(s: GenerationState, current: u64, font_loaded: bool) -> (
    GenerationState,
    TickDecision,
) {
    if s.fingerprint == Some(current) {
        (s, TickDecision::UpToDate)
    } else if s.pending {
        (s, TickDecision::Busy)
    } else if !font_loaded {
        (s, TickDecision::AwaitFont)
    } else {
        (GenerationState { fingerprint: Some(current), pending: true }, TickDecision::Launch)
    }
}

/// The number of jobs launched by ticks with the inputs `current` and, at
/// tick `k`, the font loaded or not as `fonts[k]` says.
pub open spec fn launches(s: GenerationState, current: u64, fonts: Seq<bool>) -> nat
    decreases fonts.len(),
{
    if fonts.len() == 0 {
        0
    } else {
        let (next, decision) = tick(s, current, fonts[0]);
        (if decision == TickDecision::Launch {
            1nat
        } else {
            0nat
        }) + launches(next, current, fonts.drop_first())
    }
}

impl GenerationState {
    /// A text for which nothing was generated yet.
    pub fn new() -> (r: Self)
        ensures
            r.fingerprint is None,
            !r.pending,
    {
        GenerationState { fingerprint: None, pending: false }
    }

    /// Change detection for one tick: compares `current`, the fingerprint
    /// of the inputs now, with the stored one and decides whether to
    /// launch a job. A launch stores `current` and marks a job in flight.
    pub fn on_tick(&mut self, current: u64, font_loaded: bool) -> (d: TickDecision)
        ensures
            (*final(self), d) == tick(*old(self), current, font_loaded),
    {
        if self.fingerprint == Some(current) {
            TickDecision::UpToDate
        } else if self.pending {
            TickDecision::Busy
        } else if !font_loaded {
            TickDecision::AwaitFont
        } else {
            self.fingerprint = Some(current);
            self.pending = true;
            TickDecision::Launch
        }
    }

    /// Takes what a poll of the job in flight gave: `None` while it runs,
    /// else its result.
    pub fn on_poll(&mut self, outcome: Option<Result<GeneratedMesh, GenerationError>>) -> (a:
        PollAction)
        ensures
            outcome is None ==> *final(self) == *old(self) && a is Waiting,
            outcome matches Some(Ok(m)) ==> *final(self) == (GenerationState {
                pending: false,
                ..*old(self)
            }) && a == PollAction::Attach(m),
            outcome matches Some(Err(e)) ==> *final(self) == (GenerationState {
                fingerprint: None,
                pending: false,
            }) && a == PollAction::KeepPrevious(e),
    {
        match outcome {
            None => PollAction::Waiting,
            Some(Ok(mesh)) => {
                self.pending = false;
                PollAction::Attach(mesh)
            },
            Some(Err(e)) => {
                self.fingerprint = None;
                self.pending = false;
                PollAction::KeepPrevious(e)
            },
        }
    }
}

impl Default for GenerationState {
    fn default() -> (r: Self)
        ensures
            r.fingerprint is None,
            !r.pending,
    {
        GenerationState::new()
    }
}

/// Ticks whose inputs are those of the last launched job launch nothing,
/// however many there are.
pub proof fn unchanged_inputs_launch_nothing(s: GenerationState, current: u64, fonts: Seq<bool>)
    requires
        s.fingerprint == Some(current),
    ensures
        launches(s, current, fonts) == 0,
    decreases fonts.len(),
{
    if fonts.len() > 0 {
        unchanged_inputs_launch_nothing(s, current, fonts.drop_first());
    }
}

/// Between two polls, ticks with unchanged inputs launch at most one job.
pub proof fn unchanged_inputs_launch_at_most_once(
    s: GenerationState,
    current: u64,
    fonts: Seq<bool>,
)
    ensures
        launches(s, current, fonts) <= 1,
    decreases fonts.len(),
{
    if fonts.len() > 0 {
        let (next, decision) = tick(s, current, fonts[0]);
        if decision == TickDecision::Launch {
            unchanged_inputs_launch_nothing(next, current, fonts.drop_first());
        } else {
            unchanged_inputs_launch_at_most_once(next, current, fonts.drop_first());
        }
    }
}

} // verus!
