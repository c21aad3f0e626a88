//! The change watcher's decisions: what to do with each thing that the
//! clipboard listener reports.

use vstd::prelude::*;

verus! {

/// What the clipboard listener reported.
#[derive(Clone, Copy, Debug, PartialEq, Eq)]
pub enum WatchEvent {
    /// The clipboard changed.
    Changed,
    /// The notification channel reported an error.
    ChannelError,
}

/// What the listener is to do after an event.
#[derive(Clone, Copy, Debug, PartialEq, Eq)]
pub enum WatchDirective {
    /// Wait for the next event.
    Next,
    /// Stop listening.
    Stop,
}

/// The watcher's answer to one event.
#[derive(Clone, Copy, Debug, PartialEq, Eq)]
pub struct WatchDecision {
    /// Whether to run the pipeline now, before the next event is accepted.
    pub run_pipeline: bool,
    /// What the listener does afterwards.
    pub directive: WatchDirective,
}

/// The watcher's answer to `event`: a change runs the pipeline once, an
/// error runs nothing, and neither ends the listening.
pub open spec fn decision_for(event: WatchEvent) -> WatchDecision {
    WatchDecision { run_pipeline: event is Changed, directive: WatchDirective::Next }
}

/// Decides what to do with `event`. The listener is never told to stop: one
/// bad event does not end the watcher.
pub fn on_watch_event(event: WatchEvent) -> (decision: WatchDecision)
    ensures
        decision == decision_for(event),
        decision.directive is Next,
{
    match event {
        WatchEvent::Changed => WatchDecision { run_pipeline: true, directive: WatchDirective::Next },
        WatchEvent::ChannelError => WatchDecision {
            run_pipeline: false,
            directive: WatchDirective::Next,
        },
    }
}

} // verus!
