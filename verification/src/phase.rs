use vstd::prelude::*;

verus! {

/// A phase with the pause wrapper stripped: the two interval kinds the timer
/// alternates between.
#[derive(Clone, Copy, PartialEq, Eq, Structural, Debug)]
pub enum BasePhase {
    Work,
    Break,
}

/// The current phase of the timer: a work interval, a break interval, or a
/// paused timer remembering which of the two to resume. Holding the phase to
/// resume as a `BasePhase` rules out nested pausing by construction.
#[derive(Clone, Copy, PartialEq, Eq, Structural, Debug)]
pub enum Status {
    Work,
    Break,
    Pause(BasePhase),
}

/// A semantic color for rendering: which color the clock is drawn in. The
/// mapping from phases is fixed; turning a token into a concrete terminal
/// color is the presentation layer's business.
#[derive(Clone, Copy, PartialEq, Eq, Structural, Debug)]
pub enum ColorToken {
    Red,
    Green,
    DarkGray,
}

impl BasePhase {
    /// The non-paused status this base phase stands for.
    pub open spec fn as_status(self) -> Status {
        match self {
            BasePhase::Work => Status::Work,
            BasePhase::Break => Status::Break,
        }
    }
}

/// What one pause toggle turns the status into: a running phase is wrapped,
/// a paused one is restored unchanged.
pub open spec fn toggled(s: Status) -> Status {
    match s {
        Status::Work => Status::Pause(BasePhase::Work),
        Status::Break => Status::Pause(BasePhase::Break),
        Status::Pause(b) => b.as_status(),
    }
}

/// The status with the pause wrapper stripped: what the clock face shows.
pub open spec fn unwrapped(s: Status) -> Status {
    match s {
        Status::Pause(b) => b.as_status(),
        _ => s,
    }
}

/// The color each status is rendered in.
pub open spec fn color_of(s: Status) -> ColorToken {
    match s {
        Status::Work => ColorToken::Red,
        Status::Break => ColorToken::Green,
        Status::Pause(_) => ColorToken::DarkGray,
    }
}

impl Status {
    /// Whether the timer is currently paused.
    pub fn is_paused(&self) -> (r: bool)
        ensures
            r == (self is Pause),
    {
        match self {
            Status::Pause(_) => true,
            _ => false,
        }
    }

    /// The color this status is rendered in.
    pub fn color(&self) -> (r: ColorToken)
        ensures
            r == color_of(*self),
    {
        match self {
            Status::Work => ColorToken::Red,
            Status::Break => ColorToken::Green,
            Status::Pause(_) => ColorToken::DarkGray,
        }
    }
}

/// Toggling pause twice restores the status it started from, whatever it was:
/// pausing then resuming, or resuming then pausing, is a round trip.
pub proof fn lemma_toggle_twice(s: Status)
    ensures
        toggled(toggled(s)) == s,
{
}

} // verus!
