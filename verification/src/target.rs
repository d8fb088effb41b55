//! What a watch session is bound to.

use crate::recursive::{ParseError, RecursiveMode};
use vstd::prelude::*;

verus! {

/// The path that a session watches and how far below it the watch reaches.
/// A target does not change once it is made.
#[derive(Debug)]
pub struct WatchTarget {
    path: String,
    mode: RecursiveMode,
}

impl WatchTarget {
    /// The watched path.
    pub closed spec fn spec_path(self) -> Seq<char> {
        self.path@
    }

    /// The recursion mode of the watch.
    pub closed spec fn spec_mode(self) -> RecursiveMode {
        self.mode
    }

    /// Binds a path to the mode that `mode` names. A selector that names no
    /// mode gives an error and no target, so that no session can start on it.
    pub fn new(path: String, mode: &str) -> (made: Result<WatchTarget, ParseError>)
        ensures
            match RecursiveMode::spec_from_str(mode@) {
                Some(resolved) => made matches Ok(target) && target.spec_path() == path@
                    && target.spec_mode() == resolved,
                None => made == Err::<WatchTarget, ParseError>(ParseError::UnrecognizedMode),
            },
    {
        match RecursiveMode::from_str(mode) {
            Ok(resolved) => Ok(WatchTarget { path, mode: resolved }),
            Err(error) => Err(error),
        }
    }

    /// The watched path.
    pub fn path(&self) -> (path: &str)
        ensures
            path@ == self.spec_path(),
    {
        self.path.as_str()
    }

    /// The recursion mode of the watch.
    pub fn mode(&self) -> (mode: RecursiveMode)
        ensures
            mode == self.spec_mode(),
    {
        self.mode
    }
}

} // verus!
