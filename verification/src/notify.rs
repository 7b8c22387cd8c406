//! Payload-free notification tags pushed onto the application-wide channel.

use vstd::prelude::*;

verus! {

/// Identifies which subsystem changed.  Carries no payload: a consumer must
/// re-query the owning subsystem after receiving one of these.
#[derive(Copy, Clone, PartialEq, Eq, Structural, Debug)]
pub enum AsyncNotification {
    /// a status (workdir or stage) fetch completed
    Status,
    /// a diff computation completed
    Diff,
    /// the commit log changed
    Log,
    /// the file list of an inspected commit arrived
    CommitFiles,
    /// a push operation progressed or completed
    Push,
    /// a fetch operation progressed or completed
    Fetch,
    /// background syntax highlighting completed
    SyntaxHighlighting,
}

/// What the input thread reports.  The raw input payload stays outside this
/// crate; the loop only needs to know that something arrived.
#[derive(Copy, Clone, PartialEq, Eq, Structural, Debug)]
pub enum InputEvent {
    /// an input event arrived and waits to be read
    Input,
    /// input polling switched on or off
    State,
}

/// One wake-up of the interface's select loop, which waits on the
/// notification channel, the tick timers and the input thread at once.
#[derive(Copy, Clone, PartialEq, Eq, Structural, Debug)]
pub enum QueueEvent {
    /// the periodic refresh tick fired
    Tick,
    /// the spinner redraw tick fired
    SpinnerUpdate,
    /// a subsystem finished background work
    GitEvent(AsyncNotification),
    /// the input thread reported something
    InputEvent(InputEvent),
}

} // verus!
