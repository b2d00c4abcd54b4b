//! What a cork request asks for: to pause or to resume, and whether the
//! application hears of it.

use vstd::prelude::*;

verus! {

/// A cork request.
#[derive(Clone, Copy, Debug, PartialEq, Eq, Structural)]
pub struct CorkState {
    pub cork: bool,
    pub notify: bool,
}

impl CorkState {
    /// Resume, silently.
    pub fn uncork() -> (s: CorkState)
        ensures
            s == (CorkState { cork: false, notify: false }),
    {
        CorkState { cork: false, notify: false }
    }

    /// Pause, silently.
    pub fn cork() -> (s: CorkState)
        ensures
            s == (CorkState { cork: true, notify: false }),
    {
        CorkState { cork: true, notify: false }
    }

    /// Nothing but the wish to tell the application.
    pub fn notify() -> (s: CorkState)
        ensures
            s == (CorkState { cork: false, notify: true }),
    {
        CorkState { cork: false, notify: true }
    }

    /// Whether the request pauses.
    pub fn is_cork(&self) -> (b: bool)
        ensures
            b == self.cork,
    {
        self.cork
    }

    /// Whether the application hears of the request.
    pub fn is_notify(&self) -> (b: bool)
        ensures
            b == self.notify,
    {
        self.notify
    }

    /// Both requests in one: it pauses if either does, and tells if either
    /// does.
    pub open spec fn spec_with(self, other: CorkState) -> CorkState {
        CorkState { cork: self.cork || other.cork, notify: self.notify || other.notify }
    }

    /// Both requests in one.
    pub fn with(self, other: CorkState) -> (s: CorkState)
        ensures
            s == self.spec_with(other),
    {
        CorkState { cork: self.cork || other.cork, notify: self.notify || other.notify }
    }
}

} // verus!
