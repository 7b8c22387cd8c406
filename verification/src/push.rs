//! Progress relay for network operations.
//!
//! A push (or fetch) runs as one blocking operation on a worker; it emits a
//! stream of fine-grained progress events that ends in a terminal done
//! sentinel.  A relay folds every non-terminal event into one last-write-wins
//! progress slot and a generic notification; the terminal event makes the
//! relay exit.  Completion may be reported only after the relay has observed
//! the terminal event, so no progress update ever arrives after completion —
//! that ordering is stated by [`PushRelayState::can_finish`] and the law at
//! the end of this module.
//!
//! Only one operation may run per request slot: a request arriving while one
//! is pending is rejected, since network operations are not restartable
//! mid-flight.

use vstd::prelude::*;

use crate::commits::CommitId;
use crate::notify::AsyncNotification;

verus! {

/// The two stages a pack builder goes through, as plain values.
#[derive(Copy, Clone, PartialEq, Eq, Structural, Debug)]
pub enum PackStage {
    /// collecting the objects to send
    AddingObjects,
    /// delta-compressing them
    Deltafication,
}

/// One fine-grained progress event emitted during a network operation.
#[derive(Clone, Debug)]
pub enum ProgressNotification {
    /// a remote ref moved from one commit to another
    UpdateTips {
        /// name of the ref
        name: String,
        /// previous tip
        a: CommitId,
        /// new tip
        b: CommitId,
    },
    /// objects received so far
    Transfer {
        /// received objects
        objects: usize,
        /// total objects expected
        total_objects: usize,
    },
    /// bytes pushed so far
    PushTransfer {
        /// objects pushed
        current: usize,
        /// total objects
        total: usize,
        /// bytes written
        bytes: usize,
    },
    /// pack building progress
    Packing {
        /// which pack stage
        stage: PackStage,
        /// total items of the stage
        total: usize,
        /// items done
        current: usize,
    },
    /// terminal sentinel: the operation finished emitting events
    Done,
}

/// What stage of a push the gauge shows.
#[derive(Copy, Clone, PartialEq, Eq, Structural, Debug)]
pub enum PushProgressState {
    /// collecting objects for the pack
    PackingAddingObject,
    /// delta-compressing the pack
    PackingDeltafiction,
    /// transferring
    Pushing,
}

/// The coarse progress the gauge renders.
#[derive(Copy, Clone, PartialEq, Eq, Structural, Debug)]
pub struct PushProgress {
    /// stage label
    pub state: PushProgressState,
    /// percentage shown
    pub progress: u8,
}

impl PushProgress {
    /// Bundles a gauge state.
    pub fn new(state: PushProgressState, progress: u8) -> (r: Self)
        ensures
            r == (PushProgress { state, progress }),
    {
        Self { state, progress }
    }
}

/// How one fine-grained event renders on the coarse gauge: the pack stages
/// at fixed early percentages, any transfer as pushing, and the terminal
/// event as one hundred.
pub open spec fn spec_push_progress(p: ProgressNotification) -> PushProgress {
    match p {
        ProgressNotification::Packing { stage: PackStage::AddingObjects, .. } => PushProgress {
            state: PushProgressState::PackingAddingObject,
            progress: 10,
        },
        ProgressNotification::Packing { stage: PackStage::Deltafication, .. } => PushProgress {
            state: PushProgressState::PackingDeltafiction,
            progress: 40,
        },
        ProgressNotification::Done => PushProgress {
            state: PushProgressState::Pushing,
            progress: 100,
        },
        _ => PushProgress { state: PushProgressState::Pushing, progress: 60 },
    }
}

impl PushProgress {
    /// Renders one fine-grained event on the coarse gauge.
    pub fn from_notification(p: &ProgressNotification) -> (r: Self)
        ensures
            r == spec_push_progress(*p),
    {
        match p {
            ProgressNotification::Packing { stage: PackStage::AddingObjects, .. } => Self::new(
                PushProgressState::PackingAddingObject,
                10,
            ),
            ProgressNotification::Packing { stage: PackStage::Deltafication, .. } => Self::new(
                PushProgressState::PackingDeltafiction,
                40,
            ),
            ProgressNotification::Done => Self::new(PushProgressState::Pushing, 100),
            _ => Self::new(PushProgressState::Pushing, 60),
        }
    }
}

/// What one push asks for.
#[derive(Clone, Debug)]
pub struct PushRequest {
    /// name of the remote
    pub remote: String,
    /// name of the branch
    pub branch: String,
}

impl Default for PushRequest {
    /// empty remote and branch
    fn default() -> (r: Self)
        ensures
            r.remote@ == Seq::<char>::empty(),
            r.branch@ == Seq::<char>::empty(),
    {
        PushRequest { remote: String::new(), branch: String::new() }
    }
}

/// Mathematical state of the push slot and its relay.
pub ghost struct PushRelayState {
    /// the request being executed, while one is
    pub request: Option<PushRequest>,
    /// error text of the last completed push; None when it succeeded or none ran
    pub last_result: Option<String>,
    /// the latest progress event observed, overwritten and never queued
    pub progress: Option<ProgressNotification>,
    /// whether the relay observed the terminal event of the current operation
    pub relay_done: bool,
}

impl PushRelayState {
    /// a fresh slot: idle, no result, no progress
    pub open spec fn init() -> PushRelayState {
        PushRelayState { request: None, last_result: None, progress: None, relay_done: false }
    }

    /// accepting a request: it occupies the slot, progress restarts, and the
    /// relay has not seen the terminal event yet
    pub open spec fn requested(self, params: PushRequest) -> PushRelayState {
        PushRelayState { request: Some(params), progress: None, relay_done: false, ..self }
    }

    /// the relay observes one event: the terminal sentinel makes it exit;
    /// any other event overwrites the progress slot
    pub open spec fn evented(self, ev: ProgressNotification) -> PushRelayState {
        if ev is Done {
            PushRelayState { relay_done: true, ..self }
        } else {
            PushRelayState { progress: Some(ev), ..self }
        }
    }

    /// completion may be reported only while an operation occupies the slot
    /// and its relay has already observed the terminal event
    pub open spec fn can_finish(self) -> bool {
        &&& self.request is Some
        &&& self.relay_done
    }

    /// reporting completion: the slot frees and the result is stored
    pub open spec fn finished(self, error: Option<String>) -> PushRelayState {
        PushRelayState { request: None, last_result: error, ..self }
    }
}

/// The push slot: runs one push at a time, relays its progress stream into a
/// single overwritten state, and stores the outcome.
pub struct AsyncPush {
    state: Option<PushRequest>,
    last_result: Option<String>,
    progress: Option<ProgressNotification>,
    relay_done: bool,
    sender: crossbeam_channel::Sender<AsyncNotification>,
}

impl View for AsyncPush {
    type V = PushRelayState;

    closed spec fn view(&self) -> PushRelayState {
        PushRelayState {
            request: self.state,
            last_result: self.last_result,
            progress: self.progress,
            relay_done: self.relay_done,
        }
    }
}

impl AsyncPush {
    /// Creates an idle push slot that notifies `sender` with the push tag.
    pub fn new(sender: crossbeam_channel::Sender<AsyncNotification>) -> (r: Self)
        ensures
            r@ == PushRelayState::init(),
    {
        Self { state: None, last_result: None, progress: None, relay_done: false, sender }
    }

    /// True iff a push occupies the slot.
    pub fn is_pending(&self) -> (r: bool)
        ensures
            r == (self@.request is Some),
    {
        self.state.is_some()
    }

    /// The error text of the last completed push; None when it succeeded or
    /// none ran yet.
    pub fn last_result(&self) -> (r: Option<String>)
        ensures
            r is Some <==> self@.last_result is Some,
            r is Some ==> r->0@ == self@.last_result->0@,
    {
        match &self.last_result {
            Some(e) => Some(e.clone()),
            None => None,
        }
    }

    /// The latest observed progress, rendered for the gauge.
    pub fn progress(&self) -> (r: Option<PushProgress>)
        ensures
            r is Some <==> self@.progress is Some,
            r is Some ==> r->0 == spec_push_progress(self@.progress->0),
    {
        match &self.progress {
            Some(p) => Some(PushProgress::from_notification(p)),
            None => None,
        }
    }

    /// Requests a push.  A request arriving while one is pending is rejected
    /// (returns false and changes nothing): a network operation is not
    /// restartable mid-flight and there is no coalescing here.  An accepted
    /// request occupies the slot and clears the progress; the driver then
    /// runs the blocking push, feeding [`Self::progress_event`] and finally
    /// [`Self::finish`].
    pub fn request(&mut self, params: PushRequest) -> (r: bool)
        ensures
            r == (old(self)@.request is None),
            old(self)@.request is Some ==> final(self)@ == old(self)@,
            old(self)@.request is None ==> final(self)@ == old(self)@.requested(params),
    {
        if self.state.is_some() {
            return false;
        }
        self.state = Some(params);
        self.progress = None;
        self.relay_done = false;
        true
    }

    /// The relay's step for one received event.  A non-terminal event
    /// overwrites the progress slot (intermediate events may thus coalesce;
    /// only the latest matters) and sends a push notification; the terminal
    /// event records that the relay exited and is returned as true.  The
    /// relay only runs while its operation is pending and stops at the first
    /// terminal event, which the precondition states.
    pub fn progress_event(&mut self, ev: ProgressNotification) -> (terminal: bool)
        requires
            old(self)@.request is Some,
            !old(self)@.relay_done,
        ensures
            final(self)@ == old(self)@.evented(ev),
            terminal == (ev is Done),
    {
        match ev {
            ProgressNotification::Done => {
                self.relay_done = true;
                true
            }
            other => {
                self.progress = Some(other);
                if self.sender.send(AsyncNotification::Push).is_err() {
                    // receiver gone; the progress slot itself stays current
                }
                false
            }
        }
    }

    /// Reports completion of the pending push: stores its error text (None
    /// for success), frees the slot and sends a push notification.  The
    /// relay must already have observed the terminal event — the driver
    /// joins the relay first — so no progress update can arrive after
    /// completion is visible.
    pub fn finish(&mut self, error: Option<String>)
        requires
            old(self)@.can_finish(),
        ensures
            final(self)@ == old(self)@.finished(error),
    {
        self.last_result = error;
        self.state = None;
        if self.sender.send(AsyncNotification::Push).is_err() {
            // receiver gone; the stored result stays retrievable
        }
    }
}

/// A username and password pair, possibly still incomplete.
#[derive(Clone, Debug)]
pub struct BasicAuthCredential {
    /// user name, when known
    pub username: Option<String>,
    /// password, when known
    pub password: Option<String>,
}

impl BasicAuthCredential {
    /// Bundles a credential.
    pub fn new(username: Option<String>, password: Option<String>) -> (r: Self)
        ensures
            r.username == username,
            r.password == password,
    {
        Self { username, password }
    }

    /// True iff both parts are present.
    pub fn is_complete(&self) -> (r: bool)
        ensures
            r == (self.username is Some && self.password is Some),
    {
        self.username.is_some() && self.password.is_some()
    }
}

/// What one fetch asks for.
#[derive(Clone, Debug)]
pub struct FetchRequest {
    /// name of the remote
    pub remote: String,
    /// name of the branch
    pub branch: String,
    /// credential to authenticate with, when one is needed
    pub basic_credential: Option<BasicAuthCredential>,
}

/// Mathematical state of the fetch slot and its relay.
pub ghost struct FetchRelayState {
    /// the request being executed, while one is
    pub request: Option<FetchRequest>,
    /// received byte count and error text of the last completed fetch; the
    /// error text is empty when it succeeded
    pub last_result: Option<(u64, String)>,
    /// the latest progress event observed, overwritten and never queued
    pub progress: Option<ProgressNotification>,
    /// whether the relay observed the terminal event of the current operation
    pub relay_done: bool,
}

impl FetchRelayState {
    /// a fresh slot: idle, no result, no progress
    pub open spec fn init() -> FetchRelayState {
        FetchRelayState { request: None, last_result: None, progress: None, relay_done: false }
    }

    /// accepting a request: it occupies the slot, progress restarts, and
    /// the relay has not seen the terminal event yet
    pub open spec fn requested(self, params: FetchRequest) -> FetchRelayState {
        FetchRelayState { request: Some(params), progress: None, relay_done: false, ..self }
    }

    /// the relay observes one event, as for a push
    pub open spec fn evented(self, ev: ProgressNotification) -> FetchRelayState {
        if ev is Done {
            FetchRelayState { relay_done: true, ..self }
        } else {
            FetchRelayState { progress: Some(ev), ..self }
        }
    }

    /// completion may be reported only while an operation occupies the slot
    /// and its relay has already observed the terminal event
    pub open spec fn can_finish(self) -> bool {
        &&& self.request is Some
        &&& self.relay_done
    }

    /// reporting completion: the slot frees and the result is stored
    pub open spec fn finished(self, bytes: u64, error: String) -> FetchRelayState {
        FetchRelayState { request: None, last_result: Some((bytes, error)), ..self }
    }
}

/// The fetch slot: runs one fetch at a time, relays its progress stream and
/// stores the outcome, exactly like the push slot.
pub struct AsyncFetch {
    state: Option<FetchRequest>,
    last_result: Option<(u64, String)>,
    progress: Option<ProgressNotification>,
    relay_done: bool,
    sender: crossbeam_channel::Sender<AsyncNotification>,
}

impl View for AsyncFetch {
    type V = FetchRelayState;

    closed spec fn view(&self) -> FetchRelayState {
        FetchRelayState {
            request: self.state,
            last_result: self.last_result,
            progress: self.progress,
            relay_done: self.relay_done,
        }
    }
}

impl AsyncFetch {
    /// Creates an idle fetch slot that notifies `sender` with the fetch tag.
    pub fn new(sender: crossbeam_channel::Sender<AsyncNotification>) -> (r: Self)
        ensures
            r@ == FetchRelayState::init(),
    {
        Self { state: None, last_result: None, progress: None, relay_done: false, sender }
    }

    /// True iff a fetch occupies the slot.
    pub fn is_pending(&self) -> (r: bool)
        ensures
            r == (self@.request is Some),
    {
        self.state.is_some()
    }

    /// Received bytes and error text of the last completed fetch; the error
    /// text is empty when it succeeded.  None before the first completion.
    pub fn last_result(&self) -> (r: Option<(u64, String)>)
        ensures
            r is Some <==> self@.last_result is Some,
            r is Some ==> (r->0).0 == (self@.last_result->0).0 && (r->0).1@ == (
            self@.last_result->0).1@,
    {
        match &self.last_result {
            Some((bytes, err)) => Some((*bytes, err.clone())),
            None => None,
        }
    }

    /// The latest observed progress, rendered for the gauge.
    pub fn progress(&self) -> (r: Option<PushProgress>)
        ensures
            r is Some <==> self@.progress is Some,
            r is Some ==> r->0 == spec_push_progress(self@.progress->0),
    {
        match &self.progress {
            Some(p) => Some(PushProgress::from_notification(p)),
            None => None,
        }
    }

    /// Requests a fetch; a request arriving while one is pending is
    /// rejected, exactly as for a push.
    pub fn request(&mut self, params: FetchRequest) -> (r: bool)
        ensures
            r == (old(self)@.request is None),
            old(self)@.request is Some ==> *final(self) == *old(self),
            old(self)@.request is None ==> final(self)@ == old(self)@.requested(params),
    {
        if self.state.is_some() {
            return false;
        }
        self.state = Some(params);
        self.progress = None;
        self.relay_done = false;
        true
    }

    /// The relay's step for one received event, as for a push; sends a
    /// fetch notification for every non-terminal event.
    pub fn progress_event(&mut self, ev: ProgressNotification) -> (terminal: bool)
        requires
            old(self)@.request is Some,
            !old(self)@.relay_done,
        ensures
            final(self)@ == old(self)@.evented(ev),
            terminal == (ev is Done),
    {
        match ev {
            ProgressNotification::Done => {
                self.relay_done = true;
                true
            },
            other => {
                self.progress = Some(other);
                if self.sender.send(AsyncNotification::Fetch).is_err() {
                    // receiver gone; the progress slot itself stays current
                }
                false
            },
        }
    }

    /// Reports completion of the pending fetch: stores the received byte
    /// count and error text (empty on success), frees the slot and sends a
    /// fetch notification.  The relay must already have exited.
    pub fn finish(&mut self, bytes: u64, error: String)
        requires
            old(self)@.can_finish(),
        ensures
            final(self)@ == old(self)@.finished(bytes, error),
    {
        self.last_result = Some((bytes, error));
        self.state = None;
        if self.sender.send(AsyncNotification::Fetch).is_err() {
            // receiver gone; the stored result stays retrievable
        }
    }
}

/// Progress-terminal-ordering law: a fresh operation cannot report
/// completion; non-terminal events never enable completion; exactly the
/// terminal event does, and it changes no progress, so the progress visible
/// at completion is the last non-terminal event relayed before the terminal
/// one.
pub proof fn lemma_progress_terminal_ordering(
    params: PushRequest,
    e1: ProgressNotification,
    err: Option<String>,
)
    requires
        !(e1 is Done),
    ensures
        ({
            let s1 = PushRelayState::init().requested(params);
            let s2 = s1.evented(e1);
            let s3 = s2.evented(ProgressNotification::Done);
            let s4 = s3.finished(err);
            &&& !s1.can_finish()
            &&& !s2.can_finish()
            &&& s3.can_finish()
            &&& s3.progress == Some(e1)
            &&& s4.request is None
            &&& s4.last_result == err
            &&& s4.progress == Some(e1)
        }),
{
}

/// Exactly the terminal event enables completion of a running operation.
pub proof fn lemma_only_done_enables_completion(s: PushRelayState, ev: ProgressNotification)
    requires
        s.request is Some,
        !s.relay_done,
    ensures
        !s.can_finish(),
        s.evented(ev).can_finish() == (ev is Done),
{
}

} // verus!
