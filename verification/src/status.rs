//! Repository status items and the asynchronous status cache.
//!
//! The repository layer scans the working directory or the stage and reports
//! one item per changed file; the cache here deduplicates those scans by a
//! fingerprint of the request parameters and always keeps a last completed
//! status the interface can render.

use vstd::prelude::*;

use vstd::multiset::Multiset;
use vstd::utf8::encode_utf8;

use crate::cache::CacheState;
use crate::cache::KeyedCache;
use crate::hashing::spec_mix;
use crate::hashing::mix;
use crate::hashing::FNV_OFFSET;
use crate::notify::AsyncNotification;

verus! {

/// What kind of change a status item reports.
#[derive(Copy, Clone, Hash, PartialEq, Eq, Structural, Debug)]
pub enum StatusItemType {
    /// newly added file
    New,
    /// content changed
    Modified,
    /// file deleted
    Deleted,
    /// file renamed
    Renamed,
    /// file type changed
    Typechange,
}

/// The per-file change flags the repository layer reports, as plain values.
#[derive(Copy, Clone, Debug)]
pub struct StatusFlags {
    /// added in the index
    pub index_new: bool,
    /// added in the working tree
    pub wt_new: bool,
    /// deleted in the index
    pub index_deleted: bool,
    /// deleted in the working tree
    pub wt_deleted: bool,
    /// renamed in the index
    pub index_renamed: bool,
    /// renamed in the working tree
    pub wt_renamed: bool,
    /// type changed in the index
    pub index_typechange: bool,
    /// type changed in the working tree
    pub wt_typechange: bool,
}

/// How one set of change flags collapses into a single change kind.
pub open spec fn spec_type_from_flags(f: StatusFlags) -> StatusItemType {
    if f.index_new || f.wt_new {
        StatusItemType::New
    } else if f.index_deleted || f.wt_deleted {
        StatusItemType::Deleted
    } else if f.index_renamed || f.wt_renamed {
        StatusItemType::Renamed
    } else if f.index_typechange || f.wt_typechange {
        StatusItemType::Typechange
    } else {
        StatusItemType::Modified
    }
}

impl StatusItemType {
    /// Collapses the repository layer's change flags into one change kind,
    /// preferring new over deleted over renamed over type change, with
    /// modified as the remainder.
    pub fn from_flags(f: StatusFlags) -> (r: Self)
        ensures
            r == spec_type_from_flags(f),
    {
        if f.index_new || f.wt_new {
            Self::New
        } else if f.index_deleted || f.wt_deleted {
            Self::Deleted
        } else if f.index_renamed || f.wt_renamed {
            Self::Renamed
        } else if f.index_typechange || f.wt_typechange {
            Self::Typechange
        } else {
            Self::Modified
        }
    }
}

/// One changed file.
#[derive(Hash, Debug)]
pub struct StatusItem {
    /// path relative to the work directory
    pub path: String,
    /// kind of change
    pub status: StatusItemType,
}

impl View for StatusItem {
    type V = (Seq<char>, StatusItemType);

    open spec fn view(&self) -> (Seq<char>, StatusItemType) {
        (self.path@, self.status)
    }
}

impl Clone for StatusItem {
    /// an equal item, field by field
    fn clone(&self) -> (r: Self)
        ensures
            r == *self,
    {
        StatusItem { path: self.path.clone(), status: self.status }
    }
}

/// A completed status scan: the changed files, in the repository layer's
/// order.
#[derive(Hash, Debug)]
pub struct Status2 {
    /// the changed files
    pub items: Vec<StatusItem>,
}

impl View for Status2 {
    type V = Seq<(Seq<char>, StatusItemType)>;

    open spec fn view(&self) -> Seq<(Seq<char>, StatusItemType)> {
        self.items@.map_values(|it: StatusItem| it@)
    }
}

impl Clone for Status2 {
    /// an equal status, item by item
    fn clone(&self) -> (r: Self)
        ensures
            r@ == self@,
    {
        let items = self.items.clone();
        proof {
            assert forall|i: int| 0 <= i < items@.len() implies items@[i]@ == self.items@[i]@ by {
                assert(cloned(self.items@[i], items@[i]));
            }
            assert(items@.map_values(|it: StatusItem| it@) =~= self.items@.map_values(
                |it: StatusItem| it@,
            ));
        }
        Status2 { items }
    }
}

impl Default for Status2 {
    /// an empty status
    fn default() -> (r: Self)
        ensures
            r@ == Seq::<(Seq<char>, StatusItemType)>::empty(),
    {
        let r = Status2 { items: Vec::new() };
        proof {
            assert(r@ =~= Seq::<(Seq<char>, StatusItemType)>::empty());
        }
        r
    }
}

/// Byte-wise lexicographic order on two UTF-8 byte sequences: a prefix
/// comes first, otherwise the first differing byte decides.
pub open spec fn spec_str_le(a: Seq<u8>, b: Seq<u8>) -> bool
    decreases a.len(),
{
    if a.len() == 0 {
        true
    } else if b.len() == 0 {
        false
    } else if a[0] < b[0] {
        true
    } else if a[0] > b[0] {
        false
    } else {
        spec_str_le(a.drop_first(), b.drop_first())
    }
}

/// The path order is total.
pub proof fn lemma_str_le_total(a: Seq<u8>, b: Seq<u8>)
    ensures
        spec_str_le(a, b) || spec_str_le(b, a),
    decreases a.len(),
{
    if a.len() > 0 && b.len() > 0 && a[0] == b[0] {
        lemma_str_le_total(a.drop_first(), b.drop_first());
    }
}

/// Whether one path comes at or before another, by their UTF-8 bytes.
pub fn path_le(a: &str, b: &str) -> (r: bool)
    ensures
        r == spec_str_le(encode_utf8(a@), encode_utf8(b@)),
{
    let ab: &[u8] = a.as_bytes();
    let bb: &[u8] = b.as_bytes();
    let mut i: usize = 0;
    proof {
        assert(ab@.skip(0) =~= ab@);
        assert(bb@.skip(0) =~= bb@);
    }
    while i < ab.len() && i < bb.len()
        invariant
            0 <= i <= ab@.len(),
            0 <= i <= bb@.len(),
            ab@ == encode_utf8(a@),
            bb@ == encode_utf8(b@),
            spec_str_le(ab@.skip(i as int), bb@.skip(i as int)) == spec_str_le(ab@, bb@),
        decreases ab@.len() - i,
    {
        proof {
            assert(ab@.skip(i as int)[0] == ab@[i as int]);
            assert(bb@.skip(i as int)[0] == bb@[i as int]);
            assert(ab@.skip(i as int).drop_first() =~= ab@.skip(i as int + 1));
            assert(bb@.skip(i as int).drop_first() =~= bb@.skip(i as int + 1));
        }
        if ab[i] < bb[i] {
            return true;
        }
        if ab[i] > bb[i] {
            return false;
        }
        i = i + 1;
    }
    proof {
        if i == ab@.len() {
            assert(ab@.skip(i as int) =~= Seq::<u8>::empty());
        } else {
            assert(bb@.skip(i as int) =~= Seq::<u8>::empty());
            assert(ab@.skip(i as int).len() > 0);
        }
    }
    i == ab.len()
}

/// The items of a scan, ordered by path.
pub open spec fn spec_status_sorted(s: Seq<StatusItem>) -> bool {
    forall|i: int|
        0 <= i && i + 1 < s.len() ==> #[trigger] spec_str_le(
            encode_utf8(s[i].path@),
            encode_utf8(s[i + 1].path@),
        )
}

/// Inserting an element anywhere adds exactly it to the multiset.
proof fn lemma_insert_multiset(s: Seq<StatusItem>, j: int, x: StatusItem)
    requires
        0 <= j <= s.len(),
    ensures
        s.insert(j, x).to_multiset() == s.to_multiset().insert(x),
{
    broadcast use vstd::seq_lib::group_to_multiset_ensures;
    broadcast use vstd::multiset::group_multiset_axioms;

    let t = s.insert(j, x);
    s.insert_ensures(j, x);
    assert(t.remove(j) =~= s);
    assert(t.remove(j) == s);
    assert(t.remove(j).to_multiset() =~= t.to_multiset().remove(t[j]));
    assert(t[j] == x);
    assert(s.to_multiset() == t.to_multiset().remove(x));
    assert(t.contains(x)) by {
        assert(t[j] == x);
    }
    assert(t.to_multiset().count(x) > 0);
    assert(t.to_multiset() =~= s.to_multiset().insert(x));
}

/// Orders the items of a status scan by path, keeping exactly the same
/// items: the result is a path-sorted permutation of the input.
pub fn sort_status_items(items: Vec<StatusItem>) -> (r: Vec<StatusItem>)
    ensures
        r@.len() == items@.len(),
        r@.to_multiset() == items@.to_multiset(),
        spec_status_sorted(r@),
{
    broadcast use vstd::seq_lib::group_to_multiset_ensures;

    let mut src = items;
    let mut out: Vec<StatusItem> = Vec::new();
    proof {
        assert(out@.to_multiset().add(src@.to_multiset()) =~= items@.to_multiset());
    }
    while src.len() > 0
        invariant
            out@.len() + src@.len() == items@.len(),
            out@.to_multiset().add(src@.to_multiset()) == items@.to_multiset(),
            spec_status_sorted(out@),
        decreases src@.len(),
    {
        let ghost src0 = src@;
        let last_idx = src.len() - 1;
        let x = src.remove(last_idx);
        proof {
            broadcast use vstd::multiset::group_multiset_axioms;
            broadcast use vstd::seq_lib::group_to_multiset_ensures;

            assert(src@.push(x) =~= src0);
            assert(src@.push(x) == src0);
            assert(src@.push(x).to_multiset() =~= src@.to_multiset().insert(x));
            assert(src0.to_multiset() == src@.to_multiset().insert(x));
        }
        let mut j: usize = 0;
        while j < out.len() && path_le(out[j].path.as_str(), x.path.as_str())
            invariant
                0 <= j <= out@.len(),
                forall|k: int|
                    0 <= k < j ==> spec_str_le(encode_utf8(out@[k].path@), encode_utf8(x.path@)),
            decreases out@.len() - j,
        {
            j = j + 1;
        }
        proof {
            if j < out@.len() {
                lemma_str_le_total(encode_utf8(out@[j as int].path@), encode_utf8(x.path@));
            }
        }
        let ghost out0 = out@;
        out.insert(j, x);
        proof {
            broadcast use vstd::multiset::group_multiset_axioms;

            out0.insert_ensures(j as int, x);
            lemma_insert_multiset(out0, j as int, x);
            assert(out@.to_multiset().add(src@.to_multiset()) =~= items@.to_multiset());
            assert forall|i: int| 0 <= i && i + 1 < out@.len() implies #[trigger] spec_str_le(
                encode_utf8(out@[i].path@),
                encode_utf8(out@[i + 1].path@),
            ) by {
                if i + 1 < j {
                    assert(out@[i] == out0[i] && out@[i + 1] == out0[i + 1]);
                } else if i + 1 == j {
                    assert(out@[i] == out0[i] && out@[i + 1] == x);
                } else if i == j {
                    assert(out@[i] == x && out@[i + 1] == out0[i]);
                } else {
                    assert(out@[i] == out0[i - 1] && out@[i + 1] == out0[i]);
                }
            }
        }
    }
    proof {
        broadcast use vstd::multiset::group_multiset_axioms;
        broadcast use vstd::seq_lib::group_to_multiset_ensures;

        assert(src@.len() == 0);
        assert forall|a: StatusItem| src@.to_multiset().count(a) == 0 by {
            assert(!src@.contains(a));
        }
        assert(src@.to_multiset() =~= Multiset::<StatusItem>::empty());
        assert(src@.to_multiset() == Multiset::<StatusItem>::empty());
        assert(out@.to_multiset().add(Multiset::<StatusItem>::empty()) =~= out@.to_multiset());
        assert(out@.to_multiset() == items@.to_multiset());
    }
    out
}

/// Which side of the repository a status scan looks at.
#[derive(Copy, Clone, Hash, PartialEq, Eq, Structural, Debug)]
pub enum StatusType {
    /// unstaged changes in the working directory
    WorkingDir,
    /// staged changes
    Stage,
    /// both at once
    Both,
}

impl Default for StatusType {
    /// the working directory
    fn default() -> (r: Self)
        ensures
            r == StatusType::WorkingDir,
    {
        StatusType::WorkingDir
    }
}

/// The parameters of one status request.  The tick is supplied by the caller
/// and forces otherwise identical parameters to fingerprint differently, so
/// a fresh scan can be requested.
#[derive(Copy, Clone, Hash, PartialEq, Eq, Structural, Debug)]
pub struct StatusParams {
    /// caller-supplied tick
    pub tick: u64,
    /// which side to scan
    pub status_type: StatusType,
    /// whether untracked files are included
    pub include_untracked: bool,
}

/// A small code distinguishing the scan sides inside a fingerprint.
pub open spec fn spec_status_type_code(t: StatusType) -> u64 {
    match t {
        StatusType::WorkingDir => 1,
        StatusType::Stage => 2,
        StatusType::Both => 3,
    }
}

/// The fingerprint of one status request: a fold of tick, side and the
/// untracked switch.  Equal parameters always fingerprint equally.
pub open spec fn spec_status_fingerprint(p: StatusParams) -> u64 {
    spec_mix(
        spec_mix(spec_mix(FNV_OFFSET, p.tick), spec_status_type_code(p.status_type)),
        if p.include_untracked {
            1
        } else {
            0
        },
    )
}

impl StatusParams {
    /// Bundles one status request.
    pub fn new(tick: u64, status_type: StatusType, include_untracked: bool) -> (r: Self)
        ensures
            r == (StatusParams { tick, status_type, include_untracked }),
    {
        Self { tick, status_type, include_untracked }
    }

    /// Computes this request's fingerprint.
    pub fn fingerprint(&self) -> (r: u64)
        ensures
            r == spec_status_fingerprint(*self),
    {
        let side = match self.status_type {
            StatusType::WorkingDir => 1u64,
            StatusType::Stage => 2u64,
            StatusType::Both => 3u64,
        };
        let untracked: u64 = if self.include_untracked {
            1
        } else {
            0
        };
        mix(mix(mix(FNV_OFFSET, self.tick), side), untracked)
    }
}

/// Deduplicating asynchronous cache of status scans.  Several scans with
/// different fingerprints may run concurrently; a completed scan becomes the
/// current value only if its fingerprint still matches the most recent
/// request, and always becomes the last value.
pub struct AsyncStatus2 {
    cache: KeyedCache<StatusParams, Status2>,
}

impl View for AsyncStatus2 {
    type V = CacheState<StatusParams, Status2>;

    closed spec fn view(&self) -> CacheState<StatusParams, Status2> {
        self.cache@
    }
}

impl AsyncStatus2 {
    /// Creates an empty cache that notifies `sender` with the status tag
    /// after every completed scan.
    pub fn new(sender: crossbeam_channel::Sender<AsyncNotification>) -> (r: Self)
        ensures
            r@ == CacheState::<StatusParams, Status2>::init(),
    {
        Self { cache: KeyedCache::new(sender, AsyncNotification::Status) }
    }

    /// The most recently completed status, regardless of staleness; empty
    /// before the first completion.
    pub fn last(&self) -> (r: Status2)
        ensures
            self@.last is None ==> r@ == Seq::<(Seq<char>, StatusItemType)>::empty(),
            self@.last is Some ==> r@ == (self@.last->0).1@,
    {
        match self.cache.last() {
            Some((_, v)) => v,
            None => Status2::default(),
        }
    }

    /// True iff at least one scan was dispatched and has not completed.
    pub fn is_pending(&self) -> (r: bool)
        ensures
            r == (self@.pending > 0),
    {
        self.cache.is_pending()
    }

    /// A fetch for `params`.  A request whose fingerprint matches the
    /// current one is deduplicated: the current value (still `None` while
    /// the scan runs) is returned and no work starts.  A new fingerprint
    /// supersedes the current request, dispatches a scan and returns `None`.
    pub fn fetch(&mut self, params: StatusParams) -> (r: Option<Status2>)
        requires
            old(self)@.pending < usize::MAX,
        ensures
            final(self)@ == old(self)@.fetched(spec_status_fingerprint(params), params),
            spec_status_fingerprint(params) != old(self)@.current_fp ==> r is None,
            spec_status_fingerprint(params) == old(self)@.current_fp ==> {
                &&& (r is Some <==> old(self)@.current is Some)
                &&& (r is Some ==> r->0@ == old(self)@.current->0@)
            },
    {
        let fp = params.fingerprint();
        let r = self.cache.fetch(fp, params);
        proof {
            if fp == old(self)@.current_fp && r is Some {
                assert(cloned(old(self)@.current->0, r->0));
            }
        }
        r
    }

    /// Hands the oldest dispatched request to the driver that runs the
    /// blocking scan.
    pub fn take_request(&mut self) -> (r: Option<(u64, StatusParams)>)
        ensures
            old(self)@.requests.len() == 0 ==> r is None && final(self)@ == old(self)@,
            old(self)@.requests.len() > 0 ==> r == Some(old(self)@.requests[0])
                && final(self)@ == old(self)@.request_taken(),
    {
        self.cache.take_request()
    }

    /// Write-back of a completed scan: becomes the current value only if its
    /// fingerprint still matches, always becomes the last value, and sends
    /// the status notification.
    pub fn apply_fetched(&mut self, fp: u64, params: StatusParams, status: Status2)
        requires
            old(self)@.pending > 0,
        ensures
            final(self)@.current_fp == old(self)@.current_fp,
            final(self)@.pending == old(self)@.pending - 1,
            final(self)@.requests == old(self)@.requests,
            fp != old(self)@.current_fp ==> final(self)@.current == old(self)@.current,
            fp == old(self)@.current_fp ==> final(self)@.current is Some
                && final(self)@.current->0@ == status@,
            final(self)@.last is Some,
            (final(self)@.last->0).1 == status,
            (final(self)@.last->0).0 == params,
    {
        let ghost s = status;
        self.cache.apply_fetched(fp, params, status);
        proof {
            if fp == old(self)@.current_fp {
                assert(cloned(s, final(self)@.current->0));
            }
            assert(cloned(params, (final(self)@.last->0).0));
        }
    }
}

} // verus!
