use vstd::prelude::*;

verus! {

/// Events emitted by the session listener.
#[derive(Clone, Copy, Debug, PartialEq, Eq, Structural)]
pub enum SessionEvent {
    /// The session was unlocked or the system resumed from sleep.
    Unlocked,
}

} // verus!
