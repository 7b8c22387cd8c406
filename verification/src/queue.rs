//! Internal event queue of the interface.
//!
//! Widgets do not act on each other directly: they push internal events onto
//! a queue that the application loop drains after every input.  The queue
//! here is an owned buffer; the loop takes events from its front.

use vstd::prelude::*;

use crate::commits::CommitId;

verus! {

/// What has to be refreshed after an action.
#[derive(Copy, Clone, PartialEq, Eq, Structural, Debug)]
pub enum NeedsUpdate {
    /// everything: status, diff, branches
    All,
    /// only the diff panel
    Diff,
    /// only the command bar
    Commands,
}

/// A destructive action the user must confirm first.
#[derive(Clone, Debug)]
pub enum Action {
    /// push with force, to the given branch
    ForcePush(String, bool),
    /// abort a pending merge
    AbortMerge,
    /// abort a pending rebase
    AbortRebase,
}

/// Names one file for a reset after confirmation.
#[derive(Clone, Debug)]
pub struct ResetItem {
    /// path of the file to reset
    pub path: String,
}

/// One internal event from a widget to the application loop.
#[derive(Clone, Debug)]
pub enum InternalEvent {
    /// re-query the named subsystems
    Update(NeedsUpdate),
    /// show an error popup with this text
    ShowErrorMsg(String),
    /// open the external editor, optionally on this path
    OpenExternalEditor(Option<String>),
    /// open the commit popup
    OpenCommit,
    /// open the branch selection popup
    SelectBranch,
    /// push the named branch; the booleans are force and delete
    Push(String, bool, bool),
    /// pull into the named branch
    Pull(String),
    /// ask the user to confirm an action
    ConfirmAction(Action),
    /// stage or unstage the hunk with this header fingerprint
    AddHunk(u64),
    /// inspect the given commit
    InspectCommit(CommitId),
}

/// Owned buffer of internal events, pushed by widgets and drained in order
/// by the application loop.
pub struct Queue {
    items: Vec<InternalEvent>,
}

impl View for Queue {
    type V = Seq<InternalEvent>;

    closed spec fn view(&self) -> Seq<InternalEvent> {
        self.items@
    }
}

impl Queue {
    /// An empty queue.
    pub fn new() -> (r: Self)
        ensures
            r@ == Seq::<InternalEvent>::empty(),
    {
        let r = Queue { items: Vec::new() };
        proof {
            assert(r@ =~= Seq::<InternalEvent>::empty());
        }
        r
    }

    /// Appends one event.
    pub fn push(&mut self, ev: InternalEvent)
        ensures
            final(self)@ == old(self)@.push(ev),
    {
        self.items.push(ev);
    }

    /// Takes the oldest event, if any.
    pub fn pop_front(&mut self) -> (r: Option<InternalEvent>)
        ensures
            old(self)@.len() == 0 ==> r is None && final(self)@ == old(self)@,
            old(self)@.len() > 0 ==> r == Some(old(self)@[0])
                && final(self)@ == old(self)@.drop_first(),
    {
        if self.items.len() > 0 {
            Some(self.items.remove(0))
        } else {
            None
        }
    }

    /// How many events are queued.
    pub fn len(&self) -> (r: usize)
        ensures
            r == self@.len(),
    {
        self.items.len()
    }
}

} // verus!
