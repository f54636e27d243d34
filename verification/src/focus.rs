//! The per-wait focus state machine.
//!
//! A wait cycle infers that a native share dialog has finished from the host
//! window's focus transitions. Each cycle starts in `WaitingForLoss`; losing
//! focus moves it to `WaitingForRegain`; regaining focus then completes it.
//! A destroyed window completes it from any phase, and a grace timeout
//! completes it only while no focus loss has been seen. `Completed` is
//! terminal: every later event is a no-op.

use vstd::prelude::*;

verus! {

/// The phase of one wait cycle on a window.
#[derive(Debug, Copy, Clone, PartialEq, Eq, Structural)]
pub enum FocusPhase {
    /// The dialog is assumed open or opening; no focus loss seen yet.
    WaitingForLoss,
    /// Focus was lost; the next focus gain ends the cycle.
    WaitingForRegain,
    /// The cycle is over; further events change nothing.
    Completed,
}

/// An event a wait cycle reacts to.
#[derive(Debug, Copy, Clone, PartialEq, Eq, Structural)]
pub enum FocusEvent {
    /// The window's focus changed; the payload is the new focus state.
    FocusChanged(bool),
    /// The window was destroyed.
    Destroyed,
    /// The grace timer of the current cycle elapsed.
    GraceElapsed,
}

/// How far along a phase is: `Completed` is the greatest, and no event moves
/// a phase to a lesser rank.
pub open spec fn phase_rank(p: FocusPhase) -> int {
    match p {
        FocusPhase::WaitingForLoss => 0,
        FocusPhase::WaitingForRegain => 1,
        FocusPhase::Completed => 2,
    }
}

/// The phase an event leads to.
pub open spec fn phase_after(p: FocusPhase, e: FocusEvent) -> FocusPhase {
    match e {
        FocusEvent::FocusChanged(focused) => match (p, focused) {
            (FocusPhase::WaitingForLoss, false) => FocusPhase::WaitingForRegain,
            (FocusPhase::WaitingForRegain, true) => FocusPhase::Completed,
            _ => p,
        },
        FocusEvent::Destroyed => FocusPhase::Completed,
        FocusEvent::GraceElapsed => if p is WaitingForLoss {
            FocusPhase::Completed
        } else {
            p
        },
    }
}

/// Whether an event asks for the pending wait to be completed (the sender,
/// if one is pending, is to be signalled and taken).
pub open spec fn event_signals(p: FocusPhase, e: FocusEvent) -> bool {
    match e {
        FocusEvent::FocusChanged(focused) => p is WaitingForRegain && focused,
        FocusEvent::Destroyed => true,
        FocusEvent::GraceElapsed => p is WaitingForLoss,
    }
}

/// Phase monotonicity: no event moves a phase backward, and once a cycle is
/// `Completed` every further event leaves it `Completed` and asks for no
/// completion beyond the destruction case, which finds nothing pending.
pub proof fn lemma_phase_monotonic(p: FocusPhase, e: FocusEvent)
    ensures
        phase_rank(phase_after(p, e)) >= phase_rank(p),
        p is Completed ==> phase_after(p, e) is Completed,
{
}

/// A signalling event always ends the cycle: whenever an event asks for
/// completion, the phase it leads to is `Completed`.
pub proof fn lemma_signal_completes(p: FocusPhase, e: FocusEvent)
    ensures
        event_signals(p, e) ==> phase_after(p, e) is Completed,
{
}

/// The phase of the current wait cycle, advanced by focus, destruction and
/// grace-timeout events.
#[derive(Debug)]
pub struct FocusState {
    pub phase: FocusPhase,
}

impl FocusState {
    /// A fresh cycle, waiting for the window to lose focus.
    pub fn new() -> (s: Self)
        ensures
            s.phase == FocusPhase::WaitingForLoss,
    {
        Self { phase: FocusPhase::WaitingForLoss }
    }

    /// Start a new cycle on the same window.
    pub fn reset(&mut self)
        ensures
            final(self).phase == FocusPhase::WaitingForLoss,
    {
        self.phase = FocusPhase::WaitingForLoss;
    }

    /// Force the cycle over, whatever its phase was.
    pub fn mark_completed(&mut self)
        ensures
            final(self).phase == FocusPhase::Completed,
    {
        self.phase = FocusPhase::Completed;
    }

    /// React to a focus change; the result says whether the pending wait is
    /// to be completed (only on a focus gain after a seen loss).
    pub fn on_focus_change(&mut self, focused: bool) -> (signal: bool)
        ensures
            final(self).phase == phase_after(old(self).phase, FocusEvent::FocusChanged(focused)),
            signal == event_signals(old(self).phase, FocusEvent::FocusChanged(focused)),
    {
        match (self.phase, focused) {
            (FocusPhase::WaitingForLoss, false) => {
                self.phase = FocusPhase::WaitingForRegain;
                false
            },
            (FocusPhase::WaitingForRegain, true) => {
                self.phase = FocusPhase::Completed;
                true
            },
            _ => false,
        }
    }

    /// React to the window's destruction: the cycle is over from any phase,
    /// and whatever is pending is to be completed.
    pub fn on_destroyed(&mut self) -> (signal: bool)
        ensures
            final(self).phase == phase_after(old(self).phase, FocusEvent::Destroyed),
            signal == event_signals(old(self).phase, FocusEvent::Destroyed),
    {
        self.phase = FocusPhase::Completed;
        true
    }

    /// React to the grace timer: a cycle that never saw a focus loss is
    /// force-completed; one that did is left alone.
    pub fn on_grace_elapsed(&mut self) -> (signal: bool)
        ensures
            final(self).phase == phase_after(old(self).phase, FocusEvent::GraceElapsed),
            signal == event_signals(old(self).phase, FocusEvent::GraceElapsed),
    {
        if self.phase == FocusPhase::WaitingForLoss {
            self.phase = FocusPhase::Completed;
            return true;
        }
        false
    }
}

} // verus!
