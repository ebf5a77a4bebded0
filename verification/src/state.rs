//! The application-state container. It is constructed exactly once by the
//! composition root and passed by reference into the components that need
//! it, instead of living as process-wide lazily-initialized state.

use vstd::prelude::*;

verus! {

/// Launcher-wide state shared by the components of the application.
#[derive(Debug, Clone, Copy, PartialEq, Eq, Structural)]
pub struct State {}

impl State {
    /// Builds the application state. Called once, at startup.
    pub fn init() -> (s: State) {
        State {  }
    }
}

} // verus!
