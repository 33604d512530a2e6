//! How much privilege a command needs.
use vstd::prelude::*;

verus! {

/// The privilege class of a command, from harmless to refused.
#[derive(Clone, Copy, Debug, PartialEq, Eq, Structural)]
pub enum PermissionLevel {
    /// Harmless, runs without asking.
    Safe,
    /// Reads system state and changes nothing.
    ReadOnly,
    /// Writes files the user owns.
    UserWrite,
    /// Writes system-wide state.
    SystemWrite,
    /// Needs administrator rights.
    Admin,
    /// Never run.
    Blocked,
}

} // verus!
