//! Keyed async result cache.
//!
//! Deduplicates concurrent fetches of a parameterized computation by a
//! fingerprint of the request, exposes an always-available possibly-stale
//! last result, and exposes an authoritative current result once the
//! computation for exactly the current fingerprint completes.  Unlike the
//! single-flight scheduler, several computations with different fingerprints
//! may be in flight at once.
//!
//! The cache itself performs no blocking work: `fetch` records a request and
//! a driver takes it, runs the externally supplied computation, and hands
//! the result back through `apply_fetched`.  The write-back discards a
//! result whose fingerprint was superseded meanwhile, but still stores it as
//! the last completed value.

use vstd::prelude::*;

use crate::notify::AsyncNotification;

verus! {

/// Mathematical state of a keyed cache.
pub ghost struct CacheState<P, V> {
    /// fingerprint of the most recently requested computation
    pub current_fp: u64,
    /// its value once a matching computation completed; None while in flight
    pub current: Option<V>,
    /// parameters and value of the most recently completed computation,
    /// regardless of whether it still matches `current_fp`
    pub last: Option<(P, V)>,
    /// number of computations dispatched and not yet written back
    pub pending: nat,
    /// dispatched requests a driver has not yet picked up, in order
    pub requests: Seq<(u64, P)>,
}

impl<P, V> CacheState<P, V> {
    /// a fresh cache: no fingerprint requested, nothing completed
    pub open spec fn init() -> CacheState<P, V> {
        CacheState {
            current_fp: 0,
            current: None,
            last: None,
            pending: 0,
            requests: Seq::empty(),
        }
    }

    /// a fetch: a repeated fingerprint is deduplicated and changes nothing;
    /// a new fingerprint supersedes the current one and dispatches a request
    pub open spec fn fetched(self, fp: u64, params: P) -> CacheState<P, V> {
        if fp == self.current_fp {
            self
        } else {
            CacheState {
                current_fp: fp,
                current: None,
                pending: self.pending + 1,
                requests: self.requests.push((fp, params)),
                ..self
            }
        }
    }

    /// a forced re-fetch: the current value clears and a computation
    /// dispatches even when the fingerprint already matches
    pub open spec fn refreshed(self, fp: u64, params: P) -> CacheState<P, V> {
        CacheState {
            current_fp: fp,
            current: None,
            pending: self.pending + 1,
            requests: self.requests.push((fp, params)),
            ..self
        }
    }

    /// a driver picked up the oldest dispatched request
    pub open spec fn request_taken(self) -> CacheState<P, V> {
        CacheState { requests: self.requests.drop_first(), ..self }
    }

    /// a computation completed: its value becomes the current one only if
    /// its fingerprint still matches, and unconditionally becomes the last
    /// completed value
    pub open spec fn applied(self, fp: u64, params: P, value: V) -> CacheState<P, V> {
        CacheState {
            current: if fp == self.current_fp {
                Some(value)
            } else {
                self.current
            },
            last: Some((params, value)),
            pending: (self.pending - 1) as nat,
            ..self
        }
    }
}

/// Deduplicating cache from request fingerprints to computed values, with a
/// last-known-good value the interface can always render.
#[verifier::reject_recursive_types(P)]
#[verifier::reject_recursive_types(V)]
pub struct KeyedCache<P, V> {
    current_fp: u64,
    current: Option<V>,
    last: Option<(P, V)>,
    pending: usize,
    requests: Vec<(u64, P)>,
    sender: crossbeam_channel::Sender<AsyncNotification>,
    notification: AsyncNotification,
}

impl<P, V> View for KeyedCache<P, V> {
    type V = CacheState<P, V>;

    closed spec fn view(&self) -> CacheState<P, V> {
        CacheState {
            current_fp: self.current_fp,
            current: self.current,
            last: self.last,
            pending: self.pending as nat,
            requests: self.requests@,
        }
    }
}

impl<P: Clone, V: Clone> KeyedCache<P, V> {
    /// Creates an empty cache that sends `notification` on `sender` after
    /// every completed computation.
    pub fn new(
        sender: crossbeam_channel::Sender<AsyncNotification>,
        notification: AsyncNotification,
    ) -> (r: Self)
        ensures
            r@ == CacheState::<P, V>::init(),
    {
        Self {
            current_fp: 0,
            current: None,
            last: None,
            pending: 0,
            requests: Vec::new(),
            sender,
            notification,
        }
    }

    /// True iff at least one computation was dispatched and has not been
    /// written back yet.
    pub fn is_pending(&self) -> (r: bool)
        ensures
            r == (self@.pending > 0),
    {
        self.pending > 0
    }

    /// A fetch for the request `params` whose fingerprint is `fp`.
    ///
    /// If `fp` equals the current fingerprint this is the dedup path: the
    /// current value (possibly still `None`) is returned and no new work
    /// starts.  Otherwise the request supersedes the current one: the
    /// current value is cleared, a computation for `params` is dispatched,
    /// and `None` is returned at once.
    pub fn fetch(&mut self, fp: u64, params: P) -> (r: Option<V>)
        requires
            old(self)@.pending < usize::MAX,
        ensures
            final(self)@ == old(self)@.fetched(fp, params),
            fp != old(self)@.current_fp ==> r is None,
            fp == old(self)@.current_fp ==> {
                &&& (r is Some <==> old(self)@.current is Some)
                &&& (r is Some ==> cloned(old(self)@.current->0, r->0))
            },
    {
        if fp == self.current_fp {
            match &self.current {
                Some(v) => Some(v.clone()),
                None => None,
            }
        } else {
            self.current_fp = fp;
            self.current = None;
            self.pending = self.pending + 1;
            self.requests.push((fp, params));
            None
        }
    }

    /// A forced re-fetch of `params`: clears the current value and
    /// dispatches a computation even when the fingerprint already matches,
    /// so a change of the underlying data with identical parameters is
    /// picked up.
    pub fn force_fetch(&mut self, fp: u64, params: P)
        requires
            old(self)@.pending < usize::MAX,
        ensures
            final(self)@ == old(self)@.refreshed(fp, params),
    {
        self.current_fp = fp;
        self.current = None;
        self.pending = self.pending + 1;
        self.requests.push((fp, params));
    }

    /// Hands the oldest dispatched request to a driver, which must run the
    /// computation and report back through [`Self::apply_fetched`].
    pub fn take_request(&mut self) -> (r: Option<(u64, P)>)
        ensures
            old(self)@.requests.len() == 0 ==> r is None && final(self)@ == old(self)@,
            old(self)@.requests.len() > 0 ==> r == Some(old(self)@.requests[0])
                && final(self)@ == old(self)@.request_taken(),
    {
        if self.requests.len() > 0 {
            Some(self.requests.remove(0))
        } else {
            None
        }
    }

    /// Write-back of a completed computation for the request `params` whose
    /// fingerprint is `fp`.  The value becomes the current one only if `fp`
    /// still matches the current fingerprint — a superseded result is
    /// discarded from `current` — and unconditionally becomes the last
    /// completed value.  Ends by sending the notification (delivery failure
    /// is deliberately dropped).
    pub fn apply_fetched(&mut self, fp: u64, params: P, value: V)
        requires
            old(self)@.pending > 0,
        ensures
            final(self)@.current_fp == old(self)@.current_fp,
            final(self)@.pending == old(self)@.pending - 1,
            final(self)@.requests == old(self)@.requests,
            fp != old(self)@.current_fp ==> final(self)@.current == old(self)@.current,
            fp == old(self)@.current_fp ==> final(self)@.current is Some
                && cloned(value, final(self)@.current->0),
            final(self)@.last is Some,
            (final(self)@.last->0).1 == value,
            cloned(params, (final(self)@.last->0).0),
    {
        if fp == self.current_fp {
            self.current = Some(value.clone());
        }
        self.last = Some((params.clone(), value));
        self.pending = self.pending - 1;
        if self.sender.send(self.notification).is_err() {
            // every receiver is gone; the stored result stays authoritative
        }
    }

    /// The value computed for exactly the current fingerprint; `None` while
    /// it still computes or nothing was requested.
    pub fn current_value(&self) -> (r: Option<V>)
        ensures
            r is Some <==> self@.current is Some,
            r is Some ==> cloned(self@.current->0, r->0),
    {
        match &self.current {
            Some(v) => Some(v.clone()),
            None => None,
        }
    }

    /// The parameters and value of the most recently completed computation,
    /// regardless of staleness; `None` only before the first completion.
    pub fn last(&self) -> (r: Option<(P, V)>)
        ensures
            r is Some <==> self@.last is Some,
            r is Some ==> cloned((self@.last->0).0, (r->0).0) && cloned((self@.last->0).1, (r->0).1),
    {
        match &self.last {
            Some((p, v)) => Some((p.clone(), v.clone())),
            None => None,
        }
    }
}

/// Fingerprint-dedup law: two fetches with the same new fingerprint dispatch
/// exactly one computation; the second changes nothing.
pub proof fn lemma_fingerprint_dedup<P, V>(s: CacheState<P, V>, fp: u64, p: P)
    requires
        fp != s.current_fp,
    ensures
        ({
            let s1 = s.fetched(fp, p);
            let s2 = s1.fetched(fp, p);
            &&& s2 == s1
            &&& s1.requests =~= s.requests.push((fp, p))
            &&& s1.pending == s.pending + 1
        }),
{
}

/// Idempotent-re-fetch law: a fetch whose fingerprint matches the current
/// one changes nothing at all — in particular it dispatches no work.
pub proof fn lemma_cached_refetch_no_work<P, V>(s: CacheState<P, V>, p: P)
    ensures
        s.fetched(s.current_fp, p) == s,
{
}

/// Staleness-guard law: a computation superseded before it completes never
/// overwrites the current value, while the last completed value always
/// reflects the most recent completion.
pub proof fn lemma_staleness_guard<P, V>(
    s: CacheState<P, V>,
    f1: u64,
    p1: P,
    f2: u64,
    p2: P,
    v1: V,
    v2: V,
)
    requires
        f1 != s.current_fp,
        f2 != f1,
    ensures
        ({
            let s1 = s.fetched(f1, p1);
            let s2 = s1.fetched(f2, p2);
            let s3 = s2.applied(f2, p2, v2);
            let s4 = s3.applied(f1, p1, v1);
            &&& s3.current == Some(v2)
            &&& s4.current == Some(v2)
            &&& s4.last == Some((p1, v1))
            &&& s4.current_fp == f2
        }),
{
}

} // verus!
