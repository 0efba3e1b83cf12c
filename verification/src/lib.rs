//! Decision core of a terminal client for a remote messaging service.
//!
//! The surrounding program delegates protocol work to an external messaging
//! library and terminal work to the operating system; this crate holds the
//! logic that decides what to do: the authorization state-machine driver,
//! the update dispatcher's classification, and the render loop's tick and
//! teardown discipline, together with the shared shutdown flag.

use vstd::prelude::*;

pub mod auth;
pub mod dispatch;
pub mod render;

verus! {

/// Application credentials that the session-parameter request needs:
/// an application identifier and an application secret.
pub struct Config {
    pub api_id: i32,
    pub api_hash: String,
}

/// Cooperative stop signal shared by the update pump and the render loop.
///
/// It moves from unset to set once and is never cleared: no method of this
/// type lowers it again.
pub struct ShutdownFlag {
    raised: bool,
}

impl View for ShutdownFlag {
    type V = bool;

    closed spec fn view(&self) -> bool {
        self.raised
    }
}

impl ShutdownFlag {
    pub fn new() -> (flag: Self)
        ensures
            !flag@,
    {
        ShutdownFlag { raised: false }
    }

    /// Raises the flag; there is no way back down.
    pub fn raise(&mut self)
        ensures
            final(self)@,
    {
        self.raised = true;
    }

    pub fn is_raised(&self) -> (r: bool)
        ensures
            r == self@,
    {
        self.raised
    }
}

/// Entry hook kept for embedders; session creation itself belongs to the
/// external messaging library and needs nothing from this core.
pub fn client_start() {
}

} // verus!
