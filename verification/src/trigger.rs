//! The trigger loop's transition rule: which debounced filesystem events
//! matter, and what the loop must do on each — terminate the running
//! action, rebuild the watch set first when a build-definition file
//! changed, then relaunch.

use vstd::prelude::*;
use crate::classify::{buildfile, buildfile_spec};

verus! {

/// A debounced filesystem event as the watcher delivers it. Content
/// modification, removal and renaming carry the changed path; everything
/// else (creations, metadata touches, watcher notices) is `Other`.
pub enum WatchEvent {
    Write(String),
    Remove(String),
    Rename(String, String),
    Other,
}

/// What the loop does with an event.
#[derive(Clone, Copy, Debug, PartialEq, Eq, Structural)]
pub enum EventAction {
    /// The event is irrelevant: no action, no log.
    Ignore,
    /// Kill the running action and launch it anew — after a full rebuild
    /// of the watch set when `rebuild` holds.
    Relaunch { rebuild: bool },
}

/// The changed path an event reports, when it is a relevant kind (a
/// rename reports the old path, as the watcher names it first).
pub open spec fn changed_path(ev: WatchEvent) -> Option<Seq<char>> {
    match ev {
        WatchEvent::Write(p) => Some(p@),
        WatchEvent::Remove(p) => Some(p@),
        WatchEvent::Rename(p, _) => Some(p@),
        WatchEvent::Other => None,
    }
}

/// The transition rule: a relevant event forces exactly one kill+relaunch
/// cycle, preceded by a watch-set rebuild exactly when the changed path
/// is a build-definition file; any other event is ignored.
pub open spec fn event_action_spec(ev: WatchEvent) -> EventAction {
    match changed_path(ev) {
        Some(p) => EventAction::Relaunch { rebuild: buildfile_spec(p) },
        None => EventAction::Ignore,
    }
}

/// Decide what the loop does with a delivered event.
pub fn handle_event(ev: &WatchEvent) -> (a: EventAction)
    ensures
        a == event_action_spec(*ev),
{
    match ev {
        WatchEvent::Write(p) => EventAction::Relaunch { rebuild: buildfile(p.as_str()) },
        WatchEvent::Remove(p) => EventAction::Relaunch { rebuild: buildfile(p.as_str()) },
        WatchEvent::Rename(p, _) => EventAction::Relaunch { rebuild: buildfile(p.as_str()) },
        WatchEvent::Other => EventAction::Ignore,
    }
}

} // verus!
