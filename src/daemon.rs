use vstd::prelude::*;
use crate::detector::{poll_report, poll_state, text_view, ChangeDetector};

verus! {

/// The phase of the daemon loop.
#[derive(Debug, PartialEq, Eq, Structural)]
pub enum Phase {
    /// Waiting for the next poll tick.
    Idle,
    /// A lookup is in flight.
    Resolving,
}

/// The daemon loop's decisions: on each tick it polls the detector, and it
/// starts a lookup only when new content was seen and no other lookup is in
/// flight.
#[derive(Debug)]
pub struct Daemon {
    pub detector: ChangeDetector,
    pub phase: Phase,
}

impl Daemon {
    /// An idle daemon whose detector has seen nothing.
    pub fn new() -> (d: Daemon)
        ensures
            d.phase == Phase::Idle,
            d.detector@.last_copy is None,
            d.detector@.last_selection is None,
    {
        Daemon { detector: ChangeDetector::new(), phase: Phase::Idle }
    }

    /// One poll tick with what the two sources showed. When idle, polls the
    /// detector and returns the text to look up, entering `Resolving` if
    /// there is one; while a lookup is in flight, does nothing.
    pub fn tick(&mut self, copy_text: Option<String>, selection_text: Option<String>) -> (r:
        Option<String>)
        ensures
            old(self).phase == Phase::Idle ==> {
                &&& text_view(r) == poll_report(
                    old(self).detector@,
                    text_view(copy_text),
                    text_view(selection_text),
                )
                &&& final(self).detector@ == poll_state(
                    old(self).detector@,
                    text_view(copy_text),
                    text_view(selection_text),
                )
                &&& final(self).phase == (if r is Some {
                    Phase::Resolving
                } else {
                    Phase::Idle
                })
            },
            old(self).phase == Phase::Resolving ==> {
                &&& r is None
                &&& final(self).detector@ == old(self).detector@
                &&& final(self).phase == Phase::Resolving
            },
    {
        match self.phase {
            Phase::Resolving => None,
            Phase::Idle => {
                let found = self.detector.poll(copy_text, selection_text);
                if found.is_some() {
                    self.phase = Phase::Resolving;
                }
                found
            },
        }
    }

    /// The lookup in flight has completed, whatever its outcome: back to
    /// idle.
    pub fn finish(&mut self)
        ensures
            final(self).phase == Phase::Idle,
            final(self).detector@ == old(self).detector@,
    {
        self.phase = Phase::Idle;
    }
}

} // verus!
