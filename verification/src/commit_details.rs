//! Widget state of the commit details view: the file list of one inspected
//! commit, fed by a deduplicating cache of commit-file lookups.

use vstd::prelude::*;

use vstd::string::StringExecFns;

use crate::cache::CacheState;
use crate::cache::KeyedCache;
use crate::commits::CommitId;
use crate::filetree::FileTreeComponent;
use crate::hashing::spec_mix_bytes;
use crate::hashing::FNV_OFFSET;
use crate::notify::AsyncNotification;
use crate::status::Status2;
use crate::strutil::spec_decimal;
use crate::strutil::u64_to_string;

verus! {

/// The fingerprint of one commit-files request.
pub open spec fn spec_commit_fingerprint(id: Seq<u8>) -> u64 {
    spec_mix_bytes(FNV_OFFSET, id)
}

/// Deduplicating asynchronous cache of the changed-file lists of inspected
/// commits, keyed by the commit's id.
pub struct AsyncCommitFiles {
    cache: KeyedCache<CommitId, Status2>,
    current_id: Option<CommitId>,
}

/// Mathematical state of the commit-files cache: the inner cache plus the
/// id of the current request.
pub ghost struct CommitFilesState {
    /// the keyed cache
    pub cache: CacheState<CommitId, Status2>,
    /// id of the most recent request
    pub current_id: Option<CommitId>,
}

impl View for AsyncCommitFiles {
    type V = CommitFilesState;

    closed spec fn view(&self) -> CommitFilesState {
        CommitFilesState { cache: self.cache@, current_id: self.current_id }
    }
}

impl AsyncCommitFiles {
    /// Creates an empty cache that notifies `sender` with the commit-files
    /// tag.
    pub fn new(sender: crossbeam_channel::Sender<AsyncNotification>) -> (r: Self)
        ensures
            r@.cache == CacheState::<CommitId, Status2>::init(),
            r@.current_id is None,
    {
        Self {
            cache: KeyedCache::new(sender, AsyncNotification::CommitFiles),
            current_id: None,
        }
    }

    /// True iff at least one lookup is outstanding.
    pub fn is_pending(&self) -> (r: bool)
        ensures
            r == (self@.cache.pending > 0),
    {
        self.cache.is_pending()
    }

    /// A fetch for the files of `id`.  A repeated id is deduplicated; a new
    /// one supersedes the current request and dispatches a lookup.
    pub fn fetch(&mut self, id: CommitId)
        requires
            old(self)@.cache.pending < usize::MAX,
        ensures
            final(self)@.cache == old(self)@.cache.fetched(spec_commit_fingerprint(id@), id),
            final(self)@.current_id == Some(id),
    {
        let fp = id.fingerprint();
        self.current_id = Some(id);
        self.cache.fetch(fp, id);
    }

    /// The id and files of the current request, once its lookup completed;
    /// `None` while it computes or nothing was requested.
    pub fn current(&self) -> (r: Option<(CommitId, Status2)>)
        ensures
            r is Some <==> (self@.current_id is Some && self@.cache.current is Some),
            r is Some ==> (r->0).0 == self@.current_id->0 && (r->0).1@ == self@.cache.current->0@,
    {
        match self.current_id {
            Some(id) => {
                let r = self.cache.current_value();
                proof {
                    if r is Some {
                        assert(cloned(self@.cache.current->0, r->0));
                    }
                }
                match r {
                    Some(v) => Some((id, v)),
                    None => None,
                }
            },
            None => None,
        }
    }

    /// Hands the oldest dispatched lookup to the driver.
    pub fn take_request(&mut self) -> (r: Option<(u64, CommitId)>)
        ensures
            old(self)@.cache.requests.len() == 0 ==> r is None && final(self)@ == old(self)@,
            old(self)@.cache.requests.len() > 0 ==> r == Some(old(self)@.cache.requests[0])
                && final(self)@.cache == old(self)@.cache.request_taken()
                && final(self)@.current_id == old(self)@.current_id,
    {
        self.cache.take_request()
    }

    /// Write-back of a completed lookup: current only if the id still
    /// matches, always the last value, and a commit-files notification.
    pub fn apply_fetched(&mut self, fp: u64, id: CommitId, files: Status2)
        requires
            old(self)@.cache.pending > 0,
        ensures
            final(self)@.current_id == old(self)@.current_id,
            final(self)@.cache.current_fp == old(self)@.cache.current_fp,
            final(self)@.cache.pending == old(self)@.cache.pending - 1,
            fp != old(self)@.cache.current_fp
                ==> final(self)@.cache.current == old(self)@.cache.current,
            fp == old(self)@.cache.current_fp ==> final(self)@.cache.current is Some
                && final(self)@.cache.current->0@ == files@,
            final(self)@.cache.last is Some,
            (final(self)@.cache.last->0).1 == files,
    {
        let ghost f = files;
        self.cache.apply_fetched(fp, id, files);
        proof {
            if fp == old(self)@.cache.current_fp {
                assert(cloned(f, final(self)@.cache.current->0));
            }
        }
    }
}

/// The commit details view: the inspected commit's changed files.
pub struct CommitDetailsComponent {
    /// the changed-files list of the inspected commit
    pub file_tree: FileTreeComponent,
    /// cache of commit-file lookups
    pub git_commit_files: AsyncCommitFiles,
    /// whether the view is shown
    pub visible: bool,
}

impl CommitDetailsComponent {
    /// Creates a hidden commit details view.
    pub fn new(sender: crossbeam_channel::Sender<AsyncNotification>) -> (r: Self)
        ensures
            !r.visible,
            r.git_commit_files@.cache == CacheState::<CommitId, Status2>::init(),
            r.git_commit_files@.current_id is None,
            r.file_tree.tree.tree.items@.len() == 0,
    {
        CommitDetailsComponent {
            file_tree: FileTreeComponent::new("", false, None),
            git_commit_files: AsyncCommitFiles::new(sender),
            visible: false,
        }
    }

    /// The list title: a label and the number of files shown.
    pub fn get_files_title(&self) -> (r: String)
        ensures
            r@ == "Files: "@ + spec_decimal(self.file_tree.tree.tree.file_count as nat),
    {
        let mut title = "Files: ".to_owned();
        let count = u64_to_string(self.file_tree.file_count() as u64);
        title.append(count.as_str());
        title
    }

    /// Shows the given commit: a completed lookup for exactly this id fills
    /// the file list at once; anything else clears the list and dispatches
    /// a lookup.  Clearing the selection also retitles the list.
    pub fn set_commit(&mut self, id: Option<CommitId>)
        requires
            old(self).git_commit_files@.cache.pending < usize::MAX,
        ensures
            final(self).visible == old(self).visible,
            id is None ==> final(self).git_commit_files == old(self).git_commit_files,
    {
        match id {
            Some(id) => {
                let mut used_cached = false;
                match self.git_commit_files.current() {
                    Some((fetched_id, res)) => {
                        if fetched_id.same_as(&id) {
                            self.file_tree.update(res.items.as_slice());
                            used_cached = true;
                        }
                    },
                    None => {},
                }
                if !used_cached {
                    self.file_tree.clear();
                    self.git_commit_files.fetch(id);
                }
                let title = self.get_files_title();
                self.file_tree.set_title(title);
            },
            None => {
                let title = self.get_files_title();
                self.file_tree.set_title(title);
            },
        }
    }

    /// True iff a commit-file lookup still runs.
    pub fn any_work_pending(&self) -> (r: bool)
        ensures
            r == (self.git_commit_files@.cache.pending > 0),
    {
        self.git_commit_files.is_pending()
    }

    /// The changed-files list, for drawing.
    pub fn files(&self) -> (r: &FileTreeComponent)
        ensures
            r == &self.file_tree,
    {
        &self.file_tree
    }

    /// True iff the view is shown.
    pub fn is_visible(&self) -> (r: bool)
        ensures
            r == self.visible,
    {
        self.visible
    }

    /// Closes the view.
    pub fn close(&mut self)
        ensures
            *final(self) == (CommitDetailsComponent { visible: false, ..*old(self) }),
    {
        self.visible = false;
    }

    /// Shows the view.
    pub fn show(&mut self)
        ensures
            *final(self) == (CommitDetailsComponent { visible: true, ..*old(self) }),
    {
        self.visible = true;
    }
}

} // verus!
