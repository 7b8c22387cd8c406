//! Single-flight job scheduler.
//!
//! At most one job executes at a time.  Submitting while a job runs stores
//! the submission in a single `next` slot, overwriting any earlier queued
//! job: rapid resubmissions coalesce so only the latest queued job runs
//! after the current one finishes.  The mathematical state is
//! [`SchedState`]; every operation's contract says exactly which
//! [`SchedState`] transition it performs, and the proof functions at the end
//! state the scheduling laws over those transitions.

use vstd::prelude::*;

verus! {

/// A unit of blocking background work.  `run` mutates the job's own state;
/// the scheduler stores the mutated instance as the last completed job so a
/// caller can retrieve its result payload.
pub trait AsyncJob: Sized {
    /// performs the work to completion, blocking the calling worker
    fn run(&mut self);
}

/// Mathematical state of a single-flight scheduler.
///
/// `executed` is the history of job instances handed to a worker, in
/// dispatch order; it exists only in specifications and lets the scheduling
/// laws speak about which submissions ever run.
pub ghost struct SchedState<J> {
    /// at most one job awaiting execution, overwritten by each submission
    pub next: Option<J>,
    /// the most recently completed job instance, until taken
    pub last: Option<J>,
    /// true exactly while a job is executing
    pub busy: bool,
    /// the job instance currently executing, as submitted
    pub running: Option<J>,
    /// every job instance ever dispatched, in order
    pub executed: Seq<J>,
}

impl<J> SchedState<J> {
    /// a fresh scheduler: idle, nothing queued, nothing completed
    pub open spec fn init() -> SchedState<J> {
        SchedState {
            next: None,
            last: None,
            busy: false,
            running: None,
            executed: Seq::empty(),
        }
    }

    /// at most one job executes at a time: `busy` tracks exactly whether a
    /// job occupies the single execution slot
    pub open spec fn inv(self) -> bool {
        self.busy <==> self.running is Some
    }

    /// storing a submission into the single `next` slot (overwriting)
    pub open spec fn scheduled(self, job: J) -> SchedState<J> {
        SchedState { next: Some(job), ..self }
    }

    /// whether a try-start from this state dispatches a job
    pub open spec fn can_start(self) -> bool {
        &&& !self.busy
        &&& self.next is Some
    }

    /// the state after the queued job is dispatched to a worker
    pub open spec fn started(self) -> SchedState<J> {
        SchedState {
            next: None,
            busy: true,
            running: Some(self.next->0),
            executed: self.executed.push(self.next->0),
            ..self
        }
    }

    /// one try-start step: dispatch the queued job if idle, else no change
    pub open spec fn checked(self) -> SchedState<J> {
        if self.can_start() {
            self.started()
        } else {
            self
        }
    }

    /// a submission: store it, then try to start
    pub open spec fn spawned(self, job: J) -> SchedState<J> {
        self.scheduled(job).checked()
    }

    /// clearing the queued-but-not-started job
    pub open spec fn cancelled(self) -> SchedState<J> {
        SchedState { next: None, ..self }
    }

    /// the running job finishes with post-run value `ran`: it becomes the
    /// last completed job, the execution slot frees, and a queued job (if
    /// any) is dispatched at once
    pub open spec fn completed(self, ran: J) -> SchedState<J> {
        (SchedState { last: Some(ran), busy: false, running: None, ..self }).checked()
    }
}

/// Runs at most one instance of a job at a time; coalesces submissions made
/// while busy down to the latest one; sends a fixed notification value on
/// the shared channel once per completed execution.
#[verifier::reject_recursive_types(T)]
pub struct AsyncSingleJob<J, T> {
    next: Option<J>,
    last: Option<J>,
    sender: crossbeam_channel::Sender<T>,
    notification: T,
    busy: bool,
    running: Option<J>,
    executed: Ghost<Seq<J>>,
}

impl<J, T> View for AsyncSingleJob<J, T> {
    type V = SchedState<J>;

    closed spec fn view(&self) -> SchedState<J> {
        SchedState {
            next: self.next,
            last: self.last,
            busy: self.busy,
            running: self.running,
            executed: self.executed@,
        }
    }
}

impl<J: AsyncJob, T: Copy> AsyncSingleJob<J, T> {
    /// Creates an idle scheduler that will send `value` on `sender` after
    /// every completed execution.
    pub fn new(sender: crossbeam_channel::Sender<T>, value: T) -> (r: Self)
        ensures
            r@ == SchedState::<J>::init(),
    {
        Self {
            next: None,
            last: None,
            sender,
            notification: value,
            busy: false,
            running: None,
            executed: Ghost(Seq::empty()),
        }
    }

    /// True iff a job is currently executing.  Never blocks.
    pub fn is_pending(&self) -> (r: bool)
        ensures
            r == self@.busy,
    {
        self.busy
    }

    /// Clears a queued-but-not-yet-started job; returns whether anything was
    /// actually cleared.  A job already executing is unaffected.
    pub fn cancel(&mut self) -> (r: bool)
        ensures
            r == (old(self)@.next is Some),
            final(self)@ == old(self)@.cancelled(),
    {
        let had = self.next.is_some();
        self.next = None;
        had
    }

    /// Removes and returns the last completed job instance, for one-time
    /// retrieval of its result payload.
    pub fn take_last(&mut self) -> (r: Option<J>)
        ensures
            r == old(self)@.last,
            final(self)@ == (SchedState { last: None, ..old(self)@ }),
    {
        self.last.take()
    }

    /// Stores `task` as the next job (overwriting any queued one), then
    /// tries to start it.  Returns true iff execution was kicked off by this
    /// call, i.e. the scheduler was idle; when busy the task stays queued
    /// and runs later, or never, if a later submission supersedes it.
    pub fn spawn(&mut self, task: J) -> (r: bool)
        ensures
            final(self)@ == old(self)@.spawned(task),
            r == !old(self)@.busy,
    {
        self.schedule_next(task);
        self.check_for_job()
    }

    /// Tries to start the queued job: if idle and one is queued, dispatches
    /// it into the execution slot and returns true; otherwise does nothing.
    /// The dispatched job actually runs when a worker calls [`Self::run_job`].
    pub fn check_for_job(&mut self) -> (r: bool)
        ensures
            final(self)@ == old(self)@.checked(),
            r == old(self)@.can_start(),
    {
        if self.busy {
            return false;
        }
        match self.next.take() {
            Some(task) => {
                self.busy = true;
                let ghost log = self.executed@.push(task);
                self.running = Some(task);
                self.executed = Ghost(log);
                true
            }
            None => false,
        }
    }

    /// The worker's execution step: runs the dispatched job to completion,
    /// stores it as the last completed job, sends the notification value
    /// (delivery failure is deliberately dropped), releases the execution
    /// slot and immediately dispatches a job queued meanwhile.  A worker
    /// loop calls this until `is_pending` turns false, which bounds stack
    /// depth under rapid resubmission.  Returns whether a job ran.
    pub fn run_job(&mut self) -> (r: bool)
        ensures
            r == (old(self)@.running is Some),
            old(self)@.running is None ==> final(self)@ == old(self)@,
            old(self)@.running is Some ==> final(self)@.last is Some
                && final(self)@ == old(self)@.completed(final(self)@.last->0),
    {
        match self.running.take() {
            Some(mut task) => {
                task.run();
                self.last = Some(task);
                if self.sender.send(self.notification).is_err() {
                    // every receiver is gone; correctness does not depend on
                    // the notification being delivered
                }
                self.busy = false;
                self.check_for_job();
                true
            }
            None => {
                self.running = None;
                false
            }
        }
    }

    fn schedule_next(&mut self, task: J)
        ensures
            final(self)@ == old(self)@.scheduled(task),
    {
        self.next = Some(task);
    }
}

/// Coalescing law: with the scheduler idle, a first submission starts at
/// once; two further submissions made while it runs collapse so that after
/// the first execution finishes only the latest of them runs.  Exactly two
/// jobs are ever dispatched — the first and the last — and the middle
/// submission never executes.
pub proof fn lemma_coalescing<J>(j1: J, j2: J, j3: J, r1: J, r3: J)
    ensures
        ({
            let s1 = SchedState::<J>::init().spawned(j1);
            let s2 = s1.spawned(j2);
            let s3 = s2.spawned(j3);
            let s4 = s3.completed(r1);
            let s5 = s4.completed(r3);
            &&& s1.busy && s1.running == Some(j1)
            &&& s2.busy && s3.busy
            &&& s4.running == Some(j3)
            &&& !s5.busy && s5.running is None && s5.next is None
            &&& s5.executed =~= seq![j1, j3]
        }),
{
}

/// Cancellation law: a job queued behind a running one is cleared by a
/// cancel and never executes; only the already-running job completes.
pub proof fn lemma_cancel<J>(j1: J, j2: J, r1: J)
    ensures
        ({
            let s1 = SchedState::<J>::init().spawned(j1);
            let s2 = s1.spawned(j2);
            let s3 = s2.cancelled();
            let s4 = s3.completed(r1);
            &&& s2.next == Some(j2)
            &&& s3.next is None
            &&& !s4.busy && s4.running is None
            &&& s4.executed =~= seq![j1]
        }),
{
}

/// At-most-one-concurrency law, part one: while a job is executing, no
/// submission and no try-start dispatches a second one — the execution slot
/// and the dispatch history are untouched.
pub proof fn lemma_at_most_one_running<J>(s: SchedState<J>, job: J)
    requires
        s.busy,
    ensures
        s.spawned(job).running == s.running,
        s.spawned(job).executed == s.executed,
        s.checked() == s,
{
}

/// At-most-one-concurrency law, part two: every reachable state keeps the
/// invariant that `busy` holds exactly while the single execution slot is
/// occupied, so two executions can never be active at once.
pub proof fn lemma_transitions_keep_inv<J>(s: SchedState<J>, job: J, ran: J)
    requires
        s.inv(),
    ensures
        SchedState::<J>::init().inv(),
        s.spawned(job).inv(),
        s.cancelled().inv(),
        s.checked().inv(),
        s.completed(ran).inv(),
        (SchedState { last: None, ..s }).inv(),
{
}

} // verus!
