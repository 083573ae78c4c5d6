//! The interface a shell multiplexer drives its shells through.
//!
//! The library's tiling layer is written against this trait; the binary
//! implements it on top of the PTY layer.  Its methods do outside work
//! (spawning processes, writing to a PTY), so no behavior is promised of
//! them here: what is verified about a multiplexer holds for every
//! implementation.

use vstd::prelude::*;

verus! {

/// A manager of shell sessions, addressed by copyable identifiers.
pub trait IShellManager {
    /// Identifier of one shell session.
    type Id: core::hash::Hash + Eq + Copy;

    /// Starts a new shell session and returns its identifier.
    fn spawn(&mut self) -> Self::Id;

    /// Sends input to the given shell session.
    fn send_input(&mut self, id: Self::Id, input: &str);

    /// Tells the given shell session its new size.
    fn resize(&mut self, id: Self::Id, width: i32, height: i32);

    /// Whether the given shell session is still running.
    fn is_running(&self, id: Self::Id) -> bool;
}

} // verus!
