//! The stop signal: a notification that fires once and is remembered, so that
//! a waiter that comes late does not miss it.

use crate::utils::atomic::{AtomicValue, Bool};
use vstd::prelude::*;

verus! {

/// A notification that, once given, stays given.
#[derive(Debug)]
pub struct NotifyOnce {
    notified: Bool,
}

/// What a task has to do about a wait.
#[derive(Debug, Clone, Copy, PartialEq, Eq, Structural)]
pub enum Wait {
    /// The notification was given: the wait is over at once.
    Ready,
    /// The notification was not given yet: the task suspends until it is.
    Pending,
}

impl NotifyOnce {
    /// Whether the notification was given.
    pub closed spec fn is_notified(&self) -> bool {
        self.notified.value()
    }

    /// A notification that was not given yet.
    pub fn new() -> (fresh: Self)
        ensures
            !fresh.is_notified(),
    {
        NotifyOnce { notified: Bool::new(false) }
    }

    /// Gives the notification to all waiters, those to come included.
    pub fn notify_waiters(&mut self)
        ensures
            final(self).is_notified(),
    {
        self.notified.set_true();
    }

    /// Decides a wait for the notification: over at once if it was given,
    /// whenever that was, and pending otherwise.
    pub fn notified(&self) -> (wait: Wait)
        ensures
            wait == if self.is_notified() {
                Wait::Ready
            } else {
                Wait::Pending
            },
    {
        if self.notified.val() {
            Wait::Ready
        } else {
            Wait::Pending
        }
    }
}

impl Default for NotifyOnce {
    fn default() -> (fresh: Self)
        ensures
            !fresh.is_notified(),
    {
        NotifyOnce::new()
    }
}

/// The handle by which a background task is told to stop. There is one
/// signal per handle: whoever is to see a trigger looks at the handle itself.
#[derive(Debug)]
pub struct SignalHandle(NotifyOnce);

impl SignalHandle {
    /// Whether the signal was triggered.
    pub closed spec fn is_triggered(&self) -> bool {
        self.0.is_notified()
    }

    /// A signal that was not triggered yet.
    pub fn new() -> (fresh: Self)
        ensures
            !fresh.is_triggered(),
    {
        SignalHandle(NotifyOnce::new())
    }

    /// Triggers the signal. Triggering it again changes nothing.
    pub fn trigger(&mut self)
        ensures
            final(self).is_triggered(),
    {
        self.0.notify_waiters();
    }

    /// Decides a wait for the signal: over at once if it was triggered,
    /// pending otherwise.
    pub fn wait_signal(&self) -> (wait: Wait)
        ensures
            wait == if self.is_triggered() {
                Wait::Ready
            } else {
                Wait::Pending
            },
    {
        self.0.notified()
    }
}

impl Default for SignalHandle {
    fn default() -> (fresh: Self)
        ensures
            !fresh.is_triggered(),
    {
        SignalHandle::new()
    }
}

} // verus!
