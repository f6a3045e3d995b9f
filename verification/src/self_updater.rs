//! The watcher that the supervisor polls for a newer build of itself.
//!
//! The watcher owns the receiving end of a one-shot channel; a background
//! task owns the sending end and a copy of the watcher's settings. When a
//! poll finds that the task is gone and has sent nothing, the watcher makes
//! a fresh channel and orders a fresh task.

use crate::ident::{ChannelIdent, PackageIdent};
use crate::signal::{channel, try_recv, Pending, Signal};
use std::time::Duration;
use tokio::sync::oneshot::Sender;
use vstd::prelude::*;
use vstd::std_specs::convert::FromSpecImpl;

verus! {

/// What a background task needs of the watcher that orders it: a copy of the
/// watcher's settings, shared with nobody.
#[derive(Debug)]
pub struct Runner {
    pub current: PackageIdent,
    pub update_url: String,
    pub update_channel: ChannelIdent,
    pub period: Duration,
}

impl Clone for Runner {
    fn clone(&self) -> (copy: Runner)
        ensures
            copy == *self,
    {
        Runner {
            current: self.current.clone(),
            update_url: self.update_url.clone(),
            update_channel: self.update_channel.clone(),
            period: self.period,
        }
    }
}

/// The order to start one background task: the settings it runs with and the
/// sending end of the channel on which the watcher now listens.
#[verifier::reject_recursive_types(P)]
pub struct Launch<P> {
    pub tx: Sender<P>,
    pub runner: Runner,
}

/// What one poll of the watcher gives.
#[verifier::reject_recursive_types(P)]
pub enum Update<P> {
    /// The task has installed a newer build: this is it.
    Ready(P),
    /// No update yet; the task is at work.
    NotYet,
    /// No update yet; the task was gone, and this order starts its
    /// replacement.
    Respawn(Launch<P>),
}

/// The watcher for newer builds of the supervisor.
#[verifier::reject_recursive_types(P)]
pub struct SelfUpdater<P> {
    rx: Option<Pending<P>>,
    current: PackageIdent,
    update_url: String,
    update_channel: ChannelIdent,
    period: Duration,
}

impl<'a, P> From<&'a SelfUpdater<P>> for Runner {
    fn from(other: &'a SelfUpdater<P>) -> (runner: Runner) {
        Runner {
            current: other.current.clone(),
            update_url: other.update_url.clone(),
            update_channel: other.update_channel.clone(),
            period: other.period,
        }
    }
}

impl<'a, P> FromSpecImpl<&'a SelfUpdater<P>> for Runner {
    open spec fn obeys_from_spec() -> bool {
        true
    }

    open spec fn from_spec(other: &'a SelfUpdater<P>) -> Runner {
        other.settings()
    }
}

impl<P> SelfUpdater<P> {
    /// The settings of this watcher, which no poll changes.
    pub closed spec fn settings(&self) -> Runner {
        Runner {
            current: self.current,
            update_url: self.update_url,
            update_channel: self.update_channel,
            period: self.period,
        }
    }

    /// Whether the watcher listens on a channel on which nothing has been
    /// found yet. It does not once a poll has handed out the update.
    pub closed spec fn listening(&self) -> bool {
        self.rx is Some
    }

    /// A watcher for builds newer than `current`, and the order for its
    /// first background task.
    pub fn new(
        current: &PackageIdent,
        update_url: String,
        update_channel: ChannelIdent,
        period: Duration,
    ) -> (made: (SelfUpdater<P>, Launch<P>))
        ensures
            made.0.settings() == (Runner {
                current: *current,
                update_url,
                update_channel,
                period,
            }),
            made.0.listening(),
            made.1.runner == made.0.settings(),
    {
        let runner = Runner {
            current: current.clone(),
            update_url: update_url.clone(),
            update_channel: update_channel.clone(),
            period,
        };
        let (pending, launch) = Self::init(runner);
        let watcher = SelfUpdater {
            rx: Some(pending),
            current: current.clone(),
            update_url,
            update_channel,
            period,
        };
        (watcher, launch)
    }

    /// A fresh channel: its receiving end for the watcher, its sending end
    /// in the order for the task that runs with `runner`.
    fn init(runner: Runner) -> (made: (Pending<P>, Launch<P>))
        ensures
            made.1.runner == runner,
    {
        let (tx, pending) = channel();
        (pending, Launch { tx, runner })
    }

    /// Looks for an update without waiting. What is found on the channel is
    /// the task's affair; [`SelfUpdater::settle`] says what becomes of each
    /// finding. Whatever is found: the settings stay, an update is handed
    /// out at most once, and the poll after it orders a replacement task.
    pub fn updated(&mut self) -> (update: Update<P>)
        ensures
            final(self).settings() == old(self).settings(),
            final(self).listening() <==> !(update is Ready),
            !old(self).listening() ==> update is Respawn,
            update matches Update::Respawn(launch) ==> launch.runner == old(self).settings(),
    {
        let found = match self.rx.take() {
            Some(pending) => try_recv(pending),
            None => Signal::Closed,
        };
        self.settle(found)
    }

    /// Decides one poll from what was found on the channel, the receiving
    /// end having been taken out for the look. A value is handed out and the
    /// channel is done with; an open and empty channel is listened on
    /// further; a closed one is replaced, with the order for a new task.
    pub fn settle(&mut self, found: Signal<P>) -> (update: Update<P>)
        requires
            !old(self).listening(),
        ensures
            final(self).settings() == old(self).settings(),
            found matches Signal::Ready(package) ==> update == Update::Ready(package),
            found is Ready ==> !final(self).listening(),
            found is Empty ==> update is NotYet && final(self).listening(),
            found is Closed ==> update is Respawn && final(self).listening(),
            update matches Update::Respawn(launch) ==> launch.runner == old(self).settings(),
    {
        match found {
            Signal::Ready(package) => Update::Ready(package),
            Signal::Empty(pending) => {
                self.rx = Some(pending);
                Update::NotYet
            },
            Signal::Closed => {
                let runner = Runner::from(&*self);
                let (pending, launch) = Self::init(runner);
                self.rx = Some(pending);
                Update::Respawn(launch)
            },
        }
    }
}

} // verus!
