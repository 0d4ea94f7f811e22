//! The decisions of the run loop, apart from the window system that it
//! drives.
//!
//! A harness owns the window, the surface and the frame buffer. For every
//! event that the window system delivers it starts at `Step::begin`, carries
//! out the step it is given, reports what came of it to `Step::next`, and goes
//! on until the step is `Done` or `Exit`. Nothing here touches the outside
//! world, so every path through an event is fixed by the contracts below.

use vstd::prelude::*;

verus! {

/// What the input helper reports once an event has completed an input step.
#[derive(Clone, Copy, Debug, PartialEq, Eq)]
pub struct Input {
    /// The escape key went down during the step.
    pub escape_pressed: bool,
    /// The window system asked the application to close, or the window is
    /// gone.
    pub quit: bool,
    /// The key that asks for a screenshot went down during the step. A
    /// harness without screenshots reports `false`.
    pub capture_pressed: bool,
    /// The new size of the window in physical pixels, if it was resized
    /// during the step.
    pub resized: Option<(u32, u32)>,
}

/// What the harness has to do next for the event at hand.
#[derive(Clone, Copy, Debug, PartialEq, Eq)]
pub enum Step {
    /// Make one view over the frame buffer, hand it to the draw routine, let
    /// go of it, and present the buffer. Answered by `Outcome::Rendered`.
    Draw,
    /// Pass the event to the input helper. Answered by `Outcome::Polled` if
    /// the event completed an input step, by `Outcome::Idle` if not.
    Poll,
    /// Save a screenshot of the frame buffer. Answered by
    /// `Outcome::Captured`. A resize seen in the same input step waits in
    /// `resized`.
    Capture { resized: Option<(u32, u32)> },
    /// Resize the surface to `width` by `height` physical pixels. Answered
    /// by `Outcome::Resized`.
    Resize { width: u32, height: u32 },
    /// Run the update routine on the state, if the harness has one, and ask
    /// the window for a redraw. Answered by `Outcome::Advanced`.
    Advance,
    /// Stop the run loop.
    Exit,
    /// Nothing is left to do for this event.
    Done,
}

/// What came of the step that the harness carried out.
#[derive(Clone, Copy, Debug, PartialEq, Eq)]
pub enum Outcome {
    /// The frame was drawn; `ok` says whether presenting it succeeded.
    Rendered { ok: bool },
    /// The event completed no input step.
    Idle,
    /// The event completed an input step, with this to report.
    Polled(Input),
    /// The screenshot was taken.
    Captured,
    /// `ok` says whether resizing the surface succeeded.
    Resized { ok: bool },
    /// The state was updated and the redraw asked for.
    Advanced,
}

/// The step that settles a resize seen in the input step: resize the surface
/// if the window was resized, and go straight on to the update if not.
pub open spec fn resize_or_advance(resized: Option<(u32, u32)>) -> Step {
    match resized {
        Some((width, height)) => Step::Resize { width, height },
        None => Step::Advance,
    }
}

/// The step after a completed input step. A request to leave wins over
/// everything else; a screenshot comes before a resize.
pub open spec fn after_input(input: Input) -> Step {
    if input.escape_pressed || input.quit {
        Step::Exit
    } else if input.capture_pressed {
        Step::Capture { resized: input.resized }
    } else {
        resize_or_advance(input.resized)
    }
}

impl Step {
    /// The first step for an event: a redraw request is drawn before the
    /// input helper sees the event.
    pub open spec fn spec_begin(redraw_requested: bool) -> Step {
        if redraw_requested {
            Step::Draw
        } else {
            Step::Poll
        }
    }

    /// The step that follows `self` once the harness reports `outcome`. An
    /// outcome that does not answer `self` changes nothing.
    pub open spec fn spec_next(self, outcome: Outcome) -> Step {
        match (self, outcome) {
            (Step::Draw, Outcome::Rendered { ok }) => if ok {
                Step::Poll
            } else {
                Step::Exit
            },
            (Step::Poll, Outcome::Idle) => Step::Done,
            (Step::Poll, Outcome::Polled(input)) => after_input(input),
            (Step::Capture { resized }, Outcome::Captured) => resize_or_advance(resized),
            (Step::Resize { .. }, Outcome::Resized { ok }) => if ok {
                Step::Advance
            } else {
                Step::Exit
            },
            (Step::Advance, Outcome::Advanced) => Step::Done,
            _ => self,
        }
    }

    /// How far along the handling of an event a step is.
    pub open spec fn rank(self) -> nat {
        match self {
            Step::Draw => 0,
            Step::Poll => 1,
            Step::Capture { .. } => 2,
            Step::Resize { .. } => 3,
            Step::Advance => 4,
            Step::Exit => 5,
            Step::Done => 5,
        }
    }

    /// Whether the event is dealt with: nothing follows `Exit` or `Done`.
    pub open spec fn is_final(self) -> bool {
        self is Exit || self is Done
    }

    /// Whether `outcome` is the report that `self` waits for.
    pub open spec fn answered_by(self, outcome: Outcome) -> bool {
        match self {
            Step::Draw => outcome is Rendered,
            Step::Poll => outcome is Idle || outcome is Polled,
            Step::Capture { .. } => outcome is Captured,
            Step::Resize { .. } => outcome is Resized,
            Step::Advance => outcome is Advanced,
            Step::Exit => false,
            Step::Done => false,
        }
    }

    /// The first step for an event of the window system.
    pub fn begin(redraw_requested: bool) -> (step: Step)
        ensures
            step == Step::spec_begin(redraw_requested),
    {
        if redraw_requested {
            Step::Draw
        } else {
            Step::Poll
        }
    }

    /// The step that follows `self` once the harness reports `outcome`.
    pub fn next(self, outcome: Outcome) -> (step: Step)
        ensures
            step == self.spec_next(outcome),
    {
        match self {
            Step::Draw => match outcome {
                Outcome::Rendered { ok: true } => Step::Poll,
                Outcome::Rendered { ok: false } => Step::Exit,
                _ => self,
            },
            Step::Poll => match outcome {
                Outcome::Idle => Step::Done,
                Outcome::Polled(input) => {
                    if input.escape_pressed || input.quit {
                        Step::Exit
                    } else if input.capture_pressed {
                        Step::Capture { resized: input.resized }
                    } else {
                        Step::settle_resize(input.resized)
                    }
                },
                _ => self,
            },
            Step::Capture { resized } => match outcome {
                Outcome::Captured => Step::settle_resize(resized),
                _ => self,
            },
            Step::Resize { .. } => match outcome {
                Outcome::Resized { ok: true } => Step::Advance,
                Outcome::Resized { ok: false } => Step::Exit,
                _ => self,
            },
            Step::Advance => match outcome {
                Outcome::Advanced => Step::Done,
                _ => self,
            },
            Step::Exit => self,
            Step::Done => self,
        }
    }

    fn settle_resize(resized: Option<(u32, u32)>) -> (step: Step)
        ensures
            step == resize_or_advance(resized),
    {
        match resized {
            Some((width, height)) => Step::Resize { width, height },
            None => Step::Advance,
        }
    }
}

/// Only the first step of an event can be `Draw`: whatever the harness
/// reports, no step leads to it. So the draw routine runs at most once for
/// an event, and only if the event began as a redraw request.
pub proof fn lemma_draws_at_most_once(step: Step, outcome: Outcome)
    requires
        !(step is Draw),
    ensures
        !(step.spec_next(outcome) is Draw),
{
}

/// A report that answers the step at hand leads to a step of higher rank, and
/// any other report leaves the step as it is. So the harness is through with
/// an event after at most five reports that answer its steps.
pub proof fn lemma_steps_move_up(step: Step, outcome: Outcome)
    ensures
        step.answered_by(outcome) ==> step.spec_next(outcome).rank() > step.rank(),
        !step.answered_by(outcome) ==> step.spec_next(outcome) == step,
        step.rank() <= 5,
{
}

/// `Exit` and `Done` end the handling of an event: no report leads on from
/// them.
pub proof fn lemma_final_steps_stay(step: Step, outcome: Outcome)
    requires
        step.is_final(),
    ensures
        step.spec_next(outcome) == step,
{
}

} // verus!
