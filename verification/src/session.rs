//! The watch session: its phases, and what it decides for each delivery
//! from the watcher.

use crate::classify::{classify, reload_worthy, Classification};
use crate::reload::{invoke, Action, Notice};
use vstd::prelude::*;

verus! {

/// Where a watch session stands.
#[derive(Clone, Copy, Debug, PartialEq, Eq, Structural)]
pub enum Phase {
    /// No watcher has been acquired yet.
    Starting,
    /// A watcher is bound to the target; the session waits for a delivery.
    Waiting,
    /// A delivery has been taken and decided on; the session needs a watcher
    /// again before it can wait.
    Handling,
    /// A watcher could not be acquired. The session is over.
    Degraded,
}

/// The phase after an attempt to acquire a watcher: success lets a live
/// session wait, failure degrades it, and a degraded session stays degraded.
pub open spec fn after_acquire(phase: Phase, acquired: bool) -> Phase {
    if phase is Degraded || !acquired {
        Phase::Degraded
    } else {
        Phase::Waiting
    }
}

/// Whether a delivery calls for the loader: it is a well-formed event whose
/// kind is worth a reload.
pub open spec fn wants_reload(
    received: Result<Result<notify::Event, notify::Error>, crossbeam_channel::RecvError>,
) -> bool {
    received matches Ok(Ok(event)) && reload_worthy(event.kind)
}

/// The action for a delivery, given what the loader answers when it is
/// asked. A reload-worthy event publishes a loaded configuration and retains
/// on a failed load; noise, an error in place of an event and a failed
/// receive all retain, each with its notice.
pub open spec fn reaction<C, E>(
    received: Result<Result<notify::Event, notify::Error>, crossbeam_channel::RecvError>,
    answer: Result<C, E>,
) -> Action<C, E> {
    match received {
        Ok(Ok(event)) => if reload_worthy(event.kind) {
            match answer {
                Ok(config) => Action::Publish(config),
                Err(error) => Action::Retain(Notice::LoadFailed(error)),
            }
        } else {
            Action::Retain(Notice::Ignored)
        },
        Ok(Err(error)) => Action::Retain(Notice::EventFailed(error)),
        Err(error) => Action::Retain(Notice::ReceiveFailed(error)),
    }
}

/// The loader's answer that an action reports, where it reports one.
pub open spec fn answer_in<C, E>(action: Action<C, E>) -> Option<Result<C, E>> {
    match action {
        Action::Publish(config) => Some(Ok(config)),
        Action::Retain(Notice::LoadFailed(error)) => Some(Err(error)),
        Action::Retain(_) => None,
    }
}

/// A watch session, as far as its decisions go: the phase it is in.
#[derive(Debug)]
pub struct Session {
    phase: Phase,
}

impl Session {
    /// The session's phase.
    pub closed spec fn spec_phase(self) -> Phase {
        self.phase
    }

    /// A session that has not acquired a watcher yet.
    pub fn new() -> (session: Session)
        ensures
            session.spec_phase() == Phase::Starting,
    {
        Session { phase: Phase::Starting }
    }

    /// The session's phase.
    pub fn phase(&self) -> (phase: Phase)
        ensures
            phase == self.spec_phase(),
    {
        self.phase
    }

    /// Records the result of an attempt to acquire a watcher and returns the
    /// phase that follows.
    pub fn acquire(&mut self, acquired: bool) -> (phase: Phase)
        ensures
            final(self).spec_phase() == after_acquire(old(self).spec_phase(), acquired),
            phase == final(self).spec_phase(),
    {
        match self.phase {
            Phase::Degraded => {},
            _ => {
                if acquired {
                    self.phase = Phase::Waiting;
                } else {
                    self.phase = Phase::Degraded;
                }
            },
        }
        self.phase
    }

    /// Takes one delivery from the watcher's channel and decides what
    /// becomes of the configuration. The loader is asked only when the
    /// delivery is a reload-worthy event; the action then reports its answer.
    pub fn handle<C, E, F: Fn() -> Result<C, E>>(
        &mut self,
        received: Result<Result<notify::Event, notify::Error>, crossbeam_channel::RecvError>,
        loader: &F,
    ) -> (action: Action<C, E>)
        requires
            old(self).spec_phase() is Waiting,
            call_requires(*loader, ()),
        ensures
            final(self).spec_phase() is Handling,
            match answer_in(action) {
                Some(answer) => wants_reload(received) && call_ensures(*loader, (), answer)
                    && action == reaction(received, answer),
                None => !wants_reload(received) && forall|answer: Result<C, E>|
                    action == #[trigger] reaction(received, answer),
            },
    {
        self.phase = Phase::Handling;
        match received {
            Ok(Ok(event)) => match classify(&event) {
                Classification::ReloadWorthy => invoke(loader).into_action(),
                Classification::Ignore => Action::Retain(Notice::Ignored),
            },
            Ok(Err(error)) => Action::Retain(Notice::EventFailed(error)),
            Err(error) => Action::Retain(Notice::ReceiveFailed(error)),
        }
    }
}

} // verus!
