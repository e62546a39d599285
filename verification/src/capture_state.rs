//! Whether a backend is capturing, across calls of `start` and `stop`.
use vstd::prelude::*;

verus! {

/// Whether a backend is capturing: set by a start that launched capture, cleared by
/// `stop`. A start is refused while it is set.
#[derive(Debug, Clone, Copy, PartialEq, Eq, Structural)]
pub struct CaptureState {
    pub capturing: bool,
}

/// The state after a start that did (`launched`) or did not launch capture.
pub open spec fn after_start(state: CaptureState, launched: bool) -> CaptureState {
    CaptureState { capturing: state.capturing || launched }
}

/// The state after `stop`.
pub open spec fn after_stop(state: CaptureState) -> CaptureState {
    CaptureState { capturing: false }
}

/// Whether a start is refused in `state`.
pub open spec fn start_refused(state: CaptureState) -> bool {
    state.capturing
}

impl CaptureState {
    /// A backend that has not started.
    pub fn new() -> (state: Self)
        ensures
            !state.capturing,
    {
        CaptureState { capturing: false }
    }

    /// Whether a start is refused now (the flag that the start's request carries).
    pub fn refuses_start(&self) -> (refused: bool)
        ensures
            refused == start_refused(*self),
    {
        self.capturing
    }

    /// Records the end of a start that did (`launched`) or did not launch capture.
    pub fn record_start(&mut self, launched: bool)
        ensures
            *final(self) == after_start(*old(self), launched),
    {
        if launched {
            self.capturing = true;
        }
    }

    /// Records a `stop`.
    pub fn stop(&mut self)
        ensures
            *final(self) == after_stop(*old(self)),
    {
        self.capturing = false;
    }
}

} // verus!
