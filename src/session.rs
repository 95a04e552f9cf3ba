//! The ray-session state machine.
//!
//! A session starts out tracing. Before every integration step the driver
//! reports whether the ray has reached the capture radius; after the step it
//! reports whether the integrator converged. The session counts the steps,
//! enforces the step budget and records how the ray terminated.

use vstd::prelude::*;

verus! {

/// Step budget of a ray when the caller does not choose one.
pub const DEFAULT_MAX_STEPS: u32 = 10000;

/// Where a ray session stands. Every status but `Tracing` is terminal.
#[derive(Clone, Copy, Debug, PartialEq, Eq, Structural)]
pub enum RayStatus {
    /// The ray is still being integrated.
    Tracing,
    /// The ray reached the capture radius of the black hole.
    Captured,
    /// The ray used up its step budget.
    MaxStepsReached,
    /// The integrator failed to produce a finite, accepted step.
    Diverged,
}

/// The mathematical state of a session.
pub struct SessionState {
    pub step_count: nat,
    pub max_steps: nat,
    pub status: RayStatus,
}

/// The state reached when the driver asks to take a step, given whether the
/// ray lies within the capture radius. The budget is checked before capture.
pub open spec fn begin_transition(s: SessionState, inside_capture: bool) -> SessionState {
    if s.status != RayStatus::Tracing {
        s
    } else if s.step_count >= s.max_steps {
        SessionState { status: RayStatus::MaxStepsReached, ..s }
    } else if inside_capture {
        SessionState { status: RayStatus::Captured, ..s }
    } else {
        s
    }
}

/// Whether a step may be integrated from state `s`.
pub open spec fn may_step(s: SessionState) -> bool {
    s.status == RayStatus::Tracing && s.step_count < s.max_steps
}

/// The state reached once an integration step has been attempted: a
/// converged step is counted, a failed one ends the ray as diverged.
pub open spec fn complete_transition(s: SessionState, converged: bool) -> SessionState {
    if !may_step(s) {
        s
    } else if converged {
        SessionState { step_count: s.step_count + 1, ..s }
    } else {
        SessionState { status: RayStatus::Diverged, ..s }
    }
}

/// Once a session has stopped, neither asking for a step nor reporting one
/// changes it: captured, out-of-budget and diverged rays stay so.
pub proof fn lemma_terminal_is_absorbing(s: SessionState, inside_capture: bool, converged: bool)
    requires
        s.status != RayStatus::Tracing,
    ensures
        begin_transition(s, inside_capture) == s,
        complete_transition(s, converged) == s,
        !may_step(s),
{
}

/// Step accounting of one traced ray.
#[derive(Clone, Copy, Debug)]
pub struct RaySession {
    step_count: u32,
    max_steps: u32,
    status: RayStatus,
}

impl View for RaySession {
    type V = SessionState;

    closed spec fn view(&self) -> SessionState {
        SessionState {
            step_count: self.step_count as nat,
            max_steps: self.max_steps as nat,
            status: self.status,
        }
    }
}

impl RaySession {
    /// The session never counts more steps than its budget allows.
    pub open spec fn wf(&self) -> bool {
        self@.step_count <= self@.max_steps
    }

    /// A fresh session, tracing, with no step taken.
    pub fn new(max_steps: u32) -> (r: RaySession)
        ensures
            r.wf(),
            r@ == (SessionState { step_count: 0, max_steps: max_steps as nat, status: RayStatus::Tracing }),
    {
        RaySession { step_count: 0, max_steps, status: RayStatus::Tracing }
    }

    /// Number of integration steps taken so far.
    pub fn step_count(&self) -> (r: u32)
        ensures
            r as nat == self@.step_count,
    {
        self.step_count
    }

    /// The step budget.
    pub fn max_steps(&self) -> (r: u32)
        ensures
            r as nat == self@.max_steps,
    {
        self.max_steps
    }

    /// Current status.
    pub fn status(&self) -> (r: RayStatus)
        ensures
            r == self@.status,
    {
        self.status
    }

    /// Whether the session has reached a terminal status.
    pub fn is_finished(&self) -> (r: bool)
        ensures
            r == (self@.status != RayStatus::Tracing),
    {
        self.status != RayStatus::Tracing
    }

    /// Evaluates the transition rule at the top of a step. Returns `true`
    /// when the caller should integrate one step, `false` when the ray stops.
    pub fn begin_step(&mut self, inside_capture: bool) -> (r: bool)
        requires
            old(self).wf(),
        ensures
            final(self).wf(),
            final(self)@ == begin_transition(old(self)@, inside_capture),
            r == may_step(final(self)@),
            r == (old(self)@.status == RayStatus::Tracing
                && old(self)@.step_count < old(self)@.max_steps && !inside_capture),
    {
        if self.status != RayStatus::Tracing {
            false
        } else if self.step_count >= self.max_steps {
            self.status = RayStatus::MaxStepsReached;
            false
        } else if inside_capture {
            self.status = RayStatus::Captured;
            false
        } else {
            true
        }
    }

    /// Records the result of an integration step. Outside a tracing state
    /// with budget left it changes nothing.
    pub fn complete_step(&mut self, converged: bool)
        requires
            old(self).wf(),
        ensures
            final(self).wf(),
            final(self)@ == complete_transition(old(self)@, converged),
    {
        if self.status == RayStatus::Tracing && self.step_count < self.max_steps {
            if converged {
                self.step_count = self.step_count + 1;
            } else {
                self.status = RayStatus::Diverged;
            }
        }
    }
}

} // verus!
