//! Diff data and the asynchronous diff cache.
//!
//! A diff is computed by the repository layer as hunks of lines; the cache
//! here deduplicates diff requests by a fingerprint of path, side and
//! options, discards stale write-backs, and can force a re-computation of
//! the current request when the file may have changed outside.

use vstd::prelude::*;

use crate::cache::CacheState;
use crate::cache::KeyedCache;
use crate::hashing::spec_mix;
use crate::hashing::spec_mix_chars;
use crate::hashing::mix;
use crate::hashing::mix_str;
use crate::hashing::FNV_OFFSET;
use crate::notify::AsyncNotification;

verus! {

/// What one diff line is.
#[derive(Copy, Clone, PartialEq, Eq, Structural, Debug)]
pub enum DiffLineType {
    /// context line
    Context,
    /// hunk header line
    Header,
    /// added line
    Add,
    /// deleted line
    Delete,
}

impl Default for DiffLineType {
    /// a context line
    fn default() -> (r: Self)
        ensures
            r == DiffLineType::Context,
    {
        DiffLineType::Context
    }
}

/// One line of a diff.
#[derive(Debug)]
pub struct DiffLine {
    /// the line's text
    pub content: String,
    /// what the line is
    pub line_type: DiffLineType,
}

impl View for DiffLine {
    type V = (Seq<char>, DiffLineType);

    open spec fn view(&self) -> (Seq<char>, DiffLineType) {
        (self.content@, self.line_type)
    }
}

impl Clone for DiffLine {
    /// an equal line
    fn clone(&self) -> (r: Self)
        ensures
            r@ == self@,
    {
        DiffLine { content: self.content.clone(), line_type: self.line_type }
    }
}

/// One hunk of a diff.
#[derive(Debug)]
pub struct Hunk {
    /// fingerprint of the hunk header, used to name the hunk in stage and
    /// unstage requests
    pub header_hash: u64,
    /// the hunk's lines
    pub lines: Vec<DiffLine>,
}

impl View for Hunk {
    type V = (u64, Seq<(Seq<char>, DiffLineType)>);

    open spec fn view(&self) -> (u64, Seq<(Seq<char>, DiffLineType)>) {
        (self.header_hash, self.lines@.map_values(|l: DiffLine| l@))
    }
}

impl Clone for Hunk {
    /// an equal hunk, line by line
    fn clone(&self) -> (r: Self)
        ensures
            r@ == self@,
    {
        let lines = self.lines.clone();
        proof {
            assert forall|i: int| 0 <= i < lines@.len() implies lines@[i]@ == self.lines@[i]@ by {
                assert(cloned(self.lines@[i], lines@[i]));
            }
            assert(lines@.map_values(|l: DiffLine| l@) =~= self.lines@.map_values(
                |l: DiffLine| l@,
            ));
        }
        Hunk { header_hash: self.header_hash, lines }
    }
}

/// A whole file diff: its hunks and the total line count over all hunks.
#[derive(Debug)]
pub struct FileDiff {
    /// the hunks, in file order
    pub hunks: Vec<Hunk>,
    /// total number of lines over all hunks
    pub lines: usize,
}

impl View for FileDiff {
    type V = (Seq<(u64, Seq<(Seq<char>, DiffLineType)>)>, nat);

    open spec fn view(&self) -> (Seq<(u64, Seq<(Seq<char>, DiffLineType)>)>, nat) {
        (self.hunks@.map_values(|h: Hunk| h@), self.lines as nat)
    }
}

impl Clone for FileDiff {
    /// an equal diff, hunk by hunk
    fn clone(&self) -> (r: Self)
        ensures
            r@ == self@,
    {
        let hunks = self.hunks.clone();
        proof {
            assert forall|i: int| 0 <= i < hunks@.len() implies hunks@[i]@ == self.hunks@[i]@ by {
                assert(cloned(self.hunks@[i], hunks@[i]));
            }
            assert(hunks@.map_values(|h: Hunk| h@) =~= self.hunks@.map_values(|h: Hunk| h@));
        }
        FileDiff { hunks, lines: self.lines }
    }
}

impl Default for FileDiff {
    /// an empty diff
    fn default() -> (r: Self)
        ensures
            r@.0 == Seq::<(u64, Seq<(Seq<char>, DiffLineType)>)>::empty(),
            r@.1 == 0,
    {
        let r = FileDiff { hunks: Vec::new(), lines: 0 };
        proof {
            assert(r@.0 =~= Seq::<(u64, Seq<(Seq<char>, DiffLineType)>)>::empty());
        }
        r
    }
}

/// Which version of the file a diff compares against.
#[derive(Copy, Clone, PartialEq, Eq, Structural, Debug)]
pub enum DiffType {
    /// against the stage
    Stage,
    /// against the working directory
    WorkDir,
}

/// Options a diff is computed with.
#[derive(Copy, Clone, PartialEq, Eq, Structural, Debug)]
pub struct DiffOptions {
    /// whether whitespace-only changes are ignored
    pub ignore_whitespace: bool,
    /// context lines around each change
    pub context: u32,
    /// maximum lines between hunks before they merge
    pub interhunk_lines: u32,
}

impl Default for DiffOptions {
    /// three context lines, whitespace significant
    fn default() -> (r: Self)
        ensures
            r == (DiffOptions { ignore_whitespace: false, context: 3, interhunk_lines: 0 }),
    {
        DiffOptions { ignore_whitespace: false, context: 3, interhunk_lines: 0 }
    }
}

/// The parameters of one diff request.
#[derive(Debug)]
pub struct DiffParams {
    /// path of the file to diff
    pub path: String,
    /// which side to diff against
    pub diff_type: DiffType,
    /// options to compute with
    pub options: DiffOptions,
}

impl View for DiffParams {
    type V = (Seq<char>, DiffType, DiffOptions);

    open spec fn view(&self) -> (Seq<char>, DiffType, DiffOptions) {
        (self.path@, self.diff_type, self.options)
    }
}

impl Clone for DiffParams {
    /// equal parameters
    fn clone(&self) -> (r: Self)
        ensures
            r@ == self@,
    {
        DiffParams { path: self.path.clone(), diff_type: self.diff_type, options: self.options }
    }
}

impl PartialEq for DiffParams {
    /// equal path, side and options
    fn eq(&self, other: &Self) -> (r: bool) {
        self.path == other.path && self.diff_type == other.diff_type && self.options
            == other.options
    }
}

impl vstd::std_specs::cmp::PartialEqSpecImpl for DiffParams {
    open spec fn obeys_eq_spec() -> bool {
        true
    }

    open spec fn eq_spec(&self, other: &Self) -> bool {
        self@ == other@
    }
}

/// A small code distinguishing the diff sides inside a fingerprint.
pub open spec fn spec_diff_type_code(t: DiffType) -> u64 {
    match t {
        DiffType::Stage => 1,
        DiffType::WorkDir => 2,
    }
}

/// The fingerprint of one diff request: a fold of the path's bytes, the side
/// and the options.  Requests with equal views always fingerprint equally.
pub open spec fn spec_diff_fingerprint(p: (Seq<char>, DiffType, DiffOptions)) -> u64 {
    spec_mix(
        spec_mix(
            spec_mix(
                spec_mix(spec_mix_chars(FNV_OFFSET, p.0), spec_diff_type_code(p.1)),
                if p.2.ignore_whitespace {
                    1
                } else {
                    0
                },
            ),
            p.2.context as u64,
        ),
        p.2.interhunk_lines as u64,
    )
}

impl DiffParams {
    /// Computes this request's fingerprint.
    pub fn fingerprint(&self) -> (r: u64)
        ensures
            r == spec_diff_fingerprint(self@),
    {
        let side = match self.diff_type {
            DiffType::Stage => 1u64,
            DiffType::WorkDir => 2u64,
        };
        let ws: u64 = if self.options.ignore_whitespace {
            1
        } else {
            0
        };
        let h = mix_str(FNV_OFFSET, self.path.as_str());
        mix(mix(mix(mix(h, side), ws), self.options.context as u64), self.options.interhunk_lines as u64)
    }
}

/// Deduplicating asynchronous cache of diff computations.
pub struct AsyncDiff {
    cache: KeyedCache<DiffParams, FileDiff>,
    current_params: Option<DiffParams>,
}

/// Mathematical state of the diff cache: the inner cache plus the parameters
/// of the current request, kept so a refresh can re-request them.
pub ghost struct DiffCacheState {
    /// the keyed cache
    pub cache: CacheState<DiffParams, FileDiff>,
    /// parameters of the most recent request
    pub current_params: Option<DiffParams>,
}

impl View for AsyncDiff {
    type V = DiffCacheState;

    closed spec fn view(&self) -> DiffCacheState {
        DiffCacheState { cache: self.cache@, current_params: self.current_params }
    }
}

impl AsyncDiff {
    /// Creates an empty diff cache that notifies `sender` with the diff tag.
    pub fn new(sender: crossbeam_channel::Sender<AsyncNotification>) -> (r: Self)
        ensures
            r@.cache == CacheState::<DiffParams, FileDiff>::init(),
            r@.current_params is None,
    {
        Self { cache: KeyedCache::new(sender, AsyncNotification::Diff), current_params: None }
    }

    /// True iff at least one diff computation is outstanding.
    pub fn is_pending(&self) -> (r: bool)
        ensures
            r == (self@.cache.pending > 0),
    {
        self.cache.is_pending()
    }

    /// The parameters and diff of the most recently completed computation,
    /// regardless of staleness; `None` before the first completion.
    pub fn last(&self) -> (r: Option<(DiffParams, FileDiff)>)
        ensures
            r is Some <==> self@.cache.last is Some,
            r is Some ==> (r->0).0@ == (self@.cache.last->0).0@
                && (r->0).1@ == (self@.cache.last->0).1@,
    {
        let r = self.cache.last();
        proof {
            if r is Some {
                assert(cloned((self@.cache.last->0).0, (r->0).0));
                assert(cloned((self@.cache.last->0).1, (r->0).1));
            }
        }
        r
    }

    /// A request for the diff of `params`.  A request whose fingerprint
    /// matches the current one is deduplicated: the current diff (still
    /// `None` while it computes) is returned and no work starts.  A new
    /// fingerprint supersedes the current request, dispatches a computation
    /// and returns `None`.
    pub fn request(&mut self, params: DiffParams) -> (r: Option<FileDiff>)
        requires
            old(self)@.cache.pending < usize::MAX,
        ensures
            final(self)@.cache == old(self)@.cache.fetched(spec_diff_fingerprint(params@), params),
            final(self)@.current_params is Some && final(self)@.current_params->0@ == params@,
            spec_diff_fingerprint(params@) != old(self)@.cache.current_fp ==> r is None,
            spec_diff_fingerprint(params@) == old(self)@.cache.current_fp ==> {
                &&& (r is Some <==> old(self)@.cache.current is Some)
                &&& (r is Some ==> r->0@ == old(self)@.cache.current->0@)
            },
    {
        let fp = params.fingerprint();
        self.current_params = Some(params.clone());
        let r = self.cache.fetch(fp, params);
        proof {
            if fp == old(self)@.cache.current_fp && r is Some {
                assert(cloned(old(self)@.cache.current->0, r->0));
            }
        }
        r
    }

    /// Forces a re-computation of the current request, catching a change of
    /// the file outside the repository's knowledge: the current diff is
    /// cleared and a computation dispatched even though the fingerprint is
    /// unchanged.  Does nothing when nothing was ever requested.
    pub fn refresh(&mut self)
        requires
            old(self)@.cache.pending < usize::MAX,
        ensures
            old(self)@.current_params is None ==> final(self)@ == old(self)@,
            old(self)@.current_params is Some ==> {
                &&& final(self)@.cache == old(self)@.cache.refreshed(
                    spec_diff_fingerprint(old(self)@.current_params->0@),
                    final(self)@.cache.requests.last().1,
                )
                &&& final(self)@.cache.requests.last().1@ == old(self)@.current_params->0@
                &&& final(self)@.current_params == old(self)@.current_params
            },
    {
        let params = match &self.current_params {
            Some(p) => p.clone(),
            None => {
                return ;
            },
        };
        let fp = params.fingerprint();
        self.cache.force_fetch(fp, params);
    }

    /// Hands the oldest dispatched request to the driver that computes the
    /// blocking diff.
    pub fn take_request(&mut self) -> (r: Option<(u64, DiffParams)>)
        ensures
            old(self)@.cache.requests.len() == 0 ==> r is None && final(self)@ == old(self)@,
            old(self)@.cache.requests.len() > 0 ==> r == Some(old(self)@.cache.requests[0])
                && final(self)@.cache == old(self)@.cache.request_taken()
                && final(self)@.current_params == old(self)@.current_params,
    {
        self.cache.take_request()
    }

    /// Write-back of a completed diff: becomes the current diff only if its
    /// fingerprint still matches, always becomes the last diff, and sends
    /// the diff notification.
    pub fn apply_fetched(&mut self, fp: u64, params: DiffParams, diff: FileDiff)
        requires
            old(self)@.cache.pending > 0,
        ensures
            final(self)@.current_params == old(self)@.current_params,
            final(self)@.cache.current_fp == old(self)@.cache.current_fp,
            final(self)@.cache.pending == old(self)@.cache.pending - 1,
            final(self)@.cache.requests == old(self)@.cache.requests,
            fp != old(self)@.cache.current_fp
                ==> final(self)@.cache.current == old(self)@.cache.current,
            fp == old(self)@.cache.current_fp ==> final(self)@.cache.current is Some
                && final(self)@.cache.current->0@ == diff@,
            final(self)@.cache.last is Some,
            (final(self)@.cache.last->0).1 == diff,
            (final(self)@.cache.last->0).0@ == params@,
    {
        let ghost d = diff;
        let ghost p = params;
        self.cache.apply_fetched(fp, params, diff);
        proof {
            if fp == old(self)@.cache.current_fp {
                assert(cloned(d, final(self)@.cache.current->0));
            }
            assert(cloned(p, (final(self)@.cache.last->0).0));
        }
    }
}

} // verus!
