//! Calling the loader, and what its answer means for the live configuration.

use vstd::prelude::*;

verus! {

/// `crossbeam_channel::RecvError`: the channel is empty and every sender is
/// gone. Carried through, never read.
#[verifier::external_type_specification]
#[verifier::external_body]
pub struct ExRecvError(crossbeam_channel::RecvError);

/// What one call of the loader produced.
#[derive(Debug)]
pub enum ReloadOutcome<C, E> {
    /// The loader returned a new configuration.
    Loaded(C),
    /// The loader failed; the previous configuration stays authoritative.
    Failed(E),
}

/// Why a turn of the session left the configuration as it was.
#[derive(Debug)]
pub enum Notice<E> {
    /// The event was noise: the loader was not called.
    Ignored,
    /// The loader was called and failed.
    LoadFailed(E),
    /// The watcher delivered an error in place of an event.
    EventFailed(notify::Error),
    /// Receiving from the watcher's channel failed.
    ReceiveFailed(crossbeam_channel::RecvError),
}

/// What the session asks of whoever holds the configuration cell.
#[derive(Debug)]
pub enum Action<C, E> {
    /// Replace the held configuration with this one.
    Publish(C),
    /// Keep the held configuration; the notice says why.
    Retain(Notice<E>),
}

impl<C, E> ReloadOutcome<C, E> {
    /// The outcome that stands for a loader's answer.
    pub open spec fn spec_from_result(answer: Result<C, E>) -> ReloadOutcome<C, E> {
        match answer {
            Ok(config) => ReloadOutcome::Loaded(config),
            Err(error) => ReloadOutcome::Failed(error),
        }
    }

    /// The loader's answer that an outcome stands for.
    pub open spec fn answer(self) -> Result<C, E> {
        match self {
            ReloadOutcome::Loaded(config) => Ok(config),
            ReloadOutcome::Failed(error) => Err(error),
        }
    }

    /// Turns a loader's answer into an outcome.
    pub fn from_result(answer: Result<C, E>) -> (outcome: ReloadOutcome<C, E>)
        ensures
            outcome == ReloadOutcome::spec_from_result(answer),
            outcome.answer() == answer,
    {
        match answer {
            Ok(config) => ReloadOutcome::Loaded(config),
            Err(error) => ReloadOutcome::Failed(error),
        }
    }

    /// The action that an outcome calls for: a loaded configuration is
    /// published, a failure retains what is held.
    pub open spec fn spec_into_action(self) -> Action<C, E> {
        match self {
            ReloadOutcome::Loaded(config) => Action::Publish(config),
            ReloadOutcome::Failed(error) => Action::Retain(Notice::LoadFailed(error)),
        }
    }

    /// Routes an outcome to the action it calls for.
    pub fn into_action(self) -> (action: Action<C, E>)
        ensures
            action == self.spec_into_action(),
    {
        match self {
            ReloadOutcome::Loaded(config) => Action::Publish(config),
            ReloadOutcome::Failed(error) => Action::Retain(Notice::LoadFailed(error)),
        }
    }
}

/// Calls the loader once and reports what it answered. Nothing else is
/// touched: on failure the caller still holds the previous configuration.
pub fn invoke<C, E, F: Fn() -> Result<C, E>>(loader: &F) -> (outcome: ReloadOutcome<C, E>)
    requires
        call_requires(*loader, ()),
    ensures
        call_ensures(*loader, (), outcome.answer()),
{
    let answer = loader();
    ReloadOutcome::from_result(answer)
}

} // verus!
