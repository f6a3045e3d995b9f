//! The decisions of the background task that looks for newer builds.
//!
//! The task itself waits, calls the installer and sends: none of that is
//! done here. This is the part that decides, from what has just happened,
//! what the task does next. Whoever runs the task does what an action asks
//! and reports back with the event that ends it.

use crate::ident::{ChannelIdent, SUP_PKG_IDENT};
use crate::schedule::{duration_nanos, splay};
use crate::self_updater::Runner;
use std::time::Duration;
use vstd::prelude::*;

pub mod laws;

verus! {

/// How the version of a build that the installer returned stands to the
/// version that runs.
#[derive(Clone, Copy, Debug, PartialEq, Eq, Structural)]
pub enum VersionOrder {
    /// Strictly greater than the running version.
    Newer,
    /// The running version itself.
    Same,
    /// Strictly smaller than the running version.
    Older,
    /// Of another package, or not comparable for want of a version.
    Unrelated,
}

/// Where a task stands.
#[derive(Clone, Copy, Debug, PartialEq, Eq, Structural)]
pub enum Phase {
    /// In its first, randomized delay.
    Splaying,
    /// Waiting for the installer to return.
    Installing,
    /// In the delay between two attempts.
    Delaying,
    /// Done: it has handed over a newer build.
    Finished,
}

/// What the installer is called with.
#[derive(Debug)]
pub struct InstallRequest {
    pub update_url: String,
    pub install_source: &'static str,
    pub update_channel: ChannelIdent,
}

/// What has just happened to a task.
#[derive(Debug)]
pub enum Event<P> {
    /// The delay it was in has passed.
    Woke,
    /// The installer returned this build, whose version stands to the
    /// running one as said.
    Installed(P, VersionOrder),
    /// The installer failed.
    InstallFailed,
}

/// What a task does next.
#[derive(Debug)]
pub enum Action<P> {
    /// Wait this long, then report `Woke`.
    Sleep(Duration),
    /// Call the installer with this, then report what it returned.
    Install(InstallRequest),
    /// Send this build over the one-shot channel and end.
    Signal(P),
}

/// A task as the proofs see it: its settings and where it stands.
pub struct TaskState {
    pub runner: Runner,
    pub phase: Phase,
}

impl TaskState {
    /// Whether `event` can happen to a task in this state: a delay can end
    /// only while the task is in one, and the installer can return only
    /// while the task waits for it. A finished task takes no event.
    pub open spec fn accepts<P>(self, event: Event<P>) -> bool {
        match self.phase {
            Phase::Splaying | Phase::Delaying => event is Woke,
            Phase::Installing => event is Installed || event is InstallFailed,
            Phase::Finished => false,
        }
    }

    /// What the installer is asked for: the supervisor's own package, at
    /// the task's update location and channel.
    pub open spec fn request(self) -> InstallRequest {
        InstallRequest {
            update_url: self.runner.update_url,
            install_source: SUP_PKG_IDENT,
            update_channel: self.runner.update_channel,
        }
    }

    /// What the task does about `event`; nothing, if the event cannot
    /// happen to it. After a delay it calls the installer. A build that is
    /// strictly newer than the running one is handed over; after any other
    /// build, and after a failure of the installer, the task waits one full
    /// period.
    pub open spec fn action<P>(self, event: Event<P>) -> Option<Action<P>> {
        if !self.accepts(event) {
            None
        } else {
            match event {
                Event::Woke => Some(Action::Install(self.request())),
                Event::Installed(package, VersionOrder::Newer) => Some(Action::Signal(package)),
                Event::Installed(_, _) => Some(Action::Sleep(self.runner.period)),
                Event::InstallFailed => Some(Action::Sleep(self.runner.period)),
            }
        }
    }

    /// The state after `event`: unchanged, if the event cannot happen.
    pub open spec fn next<P>(self, event: Event<P>) -> TaskState {
        if !self.accepts(event) {
            self
        } else {
            match event {
                Event::Woke => TaskState { phase: Phase::Installing, ..self },
                Event::Installed(_, VersionOrder::Newer) => TaskState {
                    phase: Phase::Finished,
                    ..self
                },
                Event::Installed(_, _) => TaskState { phase: Phase::Delaying, ..self },
                Event::InstallFailed => TaskState { phase: Phase::Delaying, ..self },
            }
        }
    }

    /// The actions that a task in this state takes, in order, as `events`
    /// happen in order. An event that cannot happen leaves no action.
    pub open spec fn actions<P>(self, events: Seq<Event<P>>) -> Seq<Action<P>>
        decreases events.len(),
    {
        if events.len() == 0 {
            Seq::empty()
        } else {
            let rest = self.next(events[0]).actions(events.drop_first());
            match self.action(events[0]) {
                Some(action) => seq![action] + rest,
                None => rest,
            }
        }
    }

    /// The state that a task in this state is in after `events`.
    pub open spec fn after<P>(self, events: Seq<Event<P>>) -> TaskState
        decreases events.len(),
    {
        if events.len() == 0 {
            self
        } else {
            self.next(events[0]).after(events.drop_first())
        }
    }
}

/// One background task.
pub struct Task {
    runner: Runner,
    phase: Phase,
}

impl View for Task {
    type V = TaskState;

    closed spec fn view(&self) -> TaskState {
        TaskState { runner: self.runner, phase: self.phase }
    }
}

impl Task {
    /// A task that has just begun with these settings, and its first
    /// delay, which is drawn at random from within one period. With an empty
    /// period there is nothing to draw from, and no task.
    pub fn begin(runner: Runner) -> (begun: Option<(Task, Duration)>)
        ensures
            duration_nanos(runner.period) == 0 <==> begun is None,
            begun matches Some((task, delay)) ==> task@ == (TaskState {
                runner,
                phase: Phase::Splaying,
            }) && duration_nanos(delay) < duration_nanos(runner.period),
    {
        match splay(&runner.period) {
            Some(delay) => Some((Task { runner, phase: Phase::Splaying }, delay)),
            None => None,
        }
    }

    /// The settings that the task runs with.
    pub fn runner(&self) -> (runner: &Runner)
        ensures
            *runner == self@.runner,
    {
        &self.runner
    }

    /// Where the task stands.
    pub fn phase(&self) -> (phase: Phase)
        ensures
            phase == self@.phase,
    {
        self.phase
    }

    /// Whether the task has handed over a build and ended.
    pub fn finished(&self) -> (done: bool)
        ensures
            done <==> self@.phase == Phase::Finished,
    {
        match self.phase {
            Phase::Finished => true,
            _ => false,
        }
    }

    /// Takes note of `event` and says what the task does next: `None`, and
    /// no change, for an event that cannot happen to the task as it stands.
    pub fn step<P>(&mut self, event: Event<P>) -> (action: Option<Action<P>>)
        ensures
            action == old(self)@.action(event),
            final(self)@ == old(self)@.next(event),
    {
        match self.phase {
            Phase::Splaying | Phase::Delaying => match event {
                Event::Woke => {
                    self.phase = Phase::Installing;
                    Some(
                        Action::Install(
                            InstallRequest {
                                update_url: self.runner.update_url.clone(),
                                install_source: SUP_PKG_IDENT,
                                update_channel: self.runner.update_channel.clone(),
                            },
                        ),
                    )
                },
                _ => None,
            },
            Phase::Installing => match event {
                Event::Installed(package, order) => match order {
                    VersionOrder::Newer => {
                        self.phase = Phase::Finished;
                        Some(Action::Signal(package))
                    },
                    _ => {
                        self.phase = Phase::Delaying;
                        Some(Action::Sleep(self.runner.period))
                    },
                },
                Event::InstallFailed => {
                    self.phase = Phase::Delaying;
                    Some(Action::Sleep(self.runner.period))
                },
                Event::Woke => None,
            },
            Phase::Finished => None,
        }
    }
}

} // verus!
