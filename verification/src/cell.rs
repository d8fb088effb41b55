//! The configuration cell: the one live configuration value, replaced whole
//! or left alone.
//!
//! The cell is whatever place holds the value; these functions work on
//! exclusive access to it. Sharing it between the session and its readers,
//! and the lock that grants that access, belong to the caller.

use crate::reload::{Action, Notice};
use vstd::prelude::*;

verus! {

/// The value that the cell holds once an action has been carried out on a
/// cell that held `held`.
pub open spec fn cell_after<C, E>(held: C, action: Action<C, E>) -> C {
    match action {
        Action::Publish(config) => config,
        Action::Retain(_) => held,
    }
}

/// The notice that an action leaves behind, if it retains.
pub open spec fn notice_of<C, E>(action: Action<C, E>) -> Option<Notice<E>> {
    match action {
        Action::Publish(_) => None,
        Action::Retain(notice) => Some(notice),
    }
}

/// Replaces the held value with `config`. Every later read gives `config`,
/// whole.
pub fn swap<C>(cell: &mut C, config: C)
    ensures
        *final(cell) == config,
{
    *cell = config;
}

/// Carries out an action on the cell: publishing replaces the held value,
/// retaining leaves it untouched and hands back the notice.
pub fn apply<C, E>(cell: &mut C, action: Action<C, E>) -> (notice: Option<Notice<E>>)
    ensures
        *final(cell) == cell_after(*old(cell), action),
        notice == notice_of(action),
{
    match action {
        Action::Publish(config) => {
            swap(cell, config);
            None
        },
        Action::Retain(notice) => Some(notice),
    }
}

} // verus!
