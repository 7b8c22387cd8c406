//! The log tab: the commit list, the background log walk feeding it, and
//! the details view of the selected commit.

use vstd::prelude::*;

use crate::commit_details::CommitDetailsComponent;
use crate::commits::CommitId;
use crate::commits::CommitInfo;
use crate::notify::AsyncNotification;
use crate::queue::Queue;

verus! {

/// how many commits one page of the log loads
pub const SLICE_SIZE: usize = 1200;

/// Whether a log fetch started a new walk.
#[derive(Copy, Clone, PartialEq, Eq, Structural, Debug)]
pub enum FetchStatus {
    /// the log is current or already being walked
    NoChange,
    /// a background walk started
    Started,
}

/// Mathematical state of the log cache.
pub ghost struct LogState {
    /// every commit id walked so far, newest first
    pub commits: Seq<CommitId>,
    /// true while a walk runs
    pub pending: bool,
    /// whether the tab is in the background, so the walk may pause
    pub background: bool,
}

/// Cache of the commit log: the walked ids, filled by a background walk a
/// driver runs.
pub struct AsyncLog {
    commits: Vec<CommitId>,
    pending: bool,
    background: bool,
    sender: crossbeam_channel::Sender<AsyncNotification>,
}

impl View for AsyncLog {
    type V = LogState;

    closed spec fn view(&self) -> LogState {
        LogState { commits: self.commits@, pending: self.pending, background: self.background }
    }
}

impl AsyncLog {
    /// Creates an empty log cache that notifies `sender` with the log tag.
    pub fn new(sender: crossbeam_channel::Sender<AsyncNotification>) -> (r: Self)
        ensures
            r@.commits == Seq::<CommitId>::empty(),
            !r@.pending,
            !r@.background,
    {
        Self { commits: Vec::new(), pending: false, background: false, sender }
    }

    /// How many commits were walked so far.
    pub fn count(&self) -> (r: usize)
        ensures
            r == self@.commits.len(),
    {
        self.commits.len()
    }

    /// True iff a walk runs.
    pub fn is_pending(&self) -> (r: bool)
        ensures
            r == self@.pending,
    {
        self.pending
    }

    /// Starts a background walk when none ran yet and none runs; otherwise
    /// nothing changes.
    pub fn fetch(&mut self) -> (r: FetchStatus)
        ensures
            old(self)@.pending || old(self)@.commits.len() > 0 ==> r == FetchStatus::NoChange
                && *final(self) == *old(self),
            !old(self)@.pending && old(self)@.commits.len() == 0 ==> r == FetchStatus::Started
                && final(self)@ == (LogState { pending: true, ..old(self)@ }),
    {
        if self.pending || self.commits.len() > 0 {
            FetchStatus::NoChange
        } else {
            self.pending = true;
            FetchStatus::Started
        }
    }

    /// Write-back of a finished walk: the walked ids replace the list, the
    /// walk is over, and a log notification goes out.
    pub fn set_commits(&mut self, commits: Vec<CommitId>)
        ensures
            final(self)@ == (LogState { commits: commits@, pending: false, ..old(self)@ }),
    {
        self.commits = commits;
        self.pending = false;
        if self.sender.send(AsyncNotification::Log).is_err() {
            // receiver gone; the walked ids stay available
        }
    }

    /// One page of walked ids: the ids from `start` on, at most `amount`.
    pub fn get_slice(&self, start: usize, amount: usize) -> (r: Vec<CommitId>)
        ensures
            ({
                let n = self@.commits.len() as int;
                let lo = if start as int <= n {
                    start as int
                } else {
                    n
                };
                let hi = if lo + amount <= n {
                    lo + amount
                } else {
                    n
                };
                r@ == self@.commits.subrange(lo, hi)
            }),
    {
        let n = self.commits.len();
        let lo = if start <= n {
            start
        } else {
            n
        };
        let hi = if amount <= n - lo {
            lo + amount
        } else {
            n
        };
        let mut out: Vec<CommitId> = Vec::new();
        let mut i = lo;
        proof {
            assert(out@ =~= self@.commits.subrange(lo as int, lo as int));
        }
        while i < hi
            invariant
                lo <= i <= hi <= self@.commits.len(),
                out@ == self@.commits.subrange(lo as int, i as int),
            decreases hi - i,
        {
            out.push(self.commits[i]);
            proof {
                assert(out@ =~= self@.commits.subrange(lo as int, i as int + 1));
            }
            i = i + 1;
        }
        out
    }

    /// Marks the tab backgrounded, so the driver may pause the walk.
    pub fn set_background(&mut self)
        ensures
            final(self)@ == (LogState { background: true, ..old(self)@ }),
    {
        self.background = true;
    }
}

/// The commit list: one loaded window of commit details over the whole log.
pub struct CommitList {
    /// title shown over the list
    pub title: String,
    /// the loaded window of commit details
    pub items: Vec<CommitInfo>,
    /// log index of the first loaded item
    pub index_offset: usize,
    /// index of the selected commit over the whole log
    pub selection: usize,
    /// how many commits the whole log holds
    pub count_total: usize,
}

impl CommitList {
    /// Creates an empty list.
    pub fn new(title: &str) -> (r: Self)
        ensures
            r.title@ == title@,
            r.items@.len() == 0,
            r.index_offset == 0,
            r.selection == 0,
            r.count_total == 0,
    {
        CommitList {
            title: title.to_owned(),
            items: Vec::new(),
            index_offset: 0,
            selection: 0,
            count_total: 0,
        }
    }

    /// The selected log index.
    pub fn selection(&self) -> (r: usize)
        ensures
            r == self.selection,
    {
        self.selection
    }

    /// The largest selectable log index.
    pub fn selection_max(&self) -> (r: usize)
        ensures
            self.count_total == 0 ==> r == 0,
            self.count_total > 0 ==> r == self.count_total - 1,
    {
        if self.count_total == 0 {
            0
        } else {
            self.count_total - 1
        }
    }

    /// Sets how many commits the whole log holds.
    pub fn set_count_total(&mut self, total: usize)
        ensures
            *final(self) == (CommitList { count_total: total, ..*old(self) }),
    {
        self.count_total = total;
    }

    /// True iff the selection falls outside the loaded window, so a fresh
    /// page has to be loaded.
    pub fn needs_data(&self) -> (r: bool)
        ensures
            r == (self.items@.len() == 0 || self.selection < self.index_offset || self.selection
                >= self.index_offset + self.items@.len()),
    {
        self.items.len() == 0 || self.selection < self.index_offset || self.selection
            - self.index_offset >= self.items.len()
    }

    /// Replaces the loaded window with a page starting at `index_offset`.
    pub fn set_items(&mut self, index_offset: usize, items: Vec<CommitInfo>)
        ensures
            *final(self) == (CommitList { index_offset, items: final(self).items, ..*old(self) }),
            final(self).items == items,
    {
        self.index_offset = index_offset;
        self.items = items;
    }

    /// Empties the loaded window.
    pub fn clear(&mut self)
        ensures
            final(self).items@.len() == 0,
            final(self).index_offset == 0,
            final(self).selection == old(self).selection,
            final(self).count_total == old(self).count_total,
            final(self).title == old(self).title,
    {
        self.items = Vec::new();
        self.index_offset = 0;
    }

    /// The selected commit's details, when they are loaded.
    pub fn selected_entry(&self) -> (r: Option<&CommitInfo>)
        ensures
            r is Some <==> (self.index_offset <= self.selection && self.selection
                < self.index_offset + self.items@.len()),
            r is Some ==> *r->0 == self.items@[self.selection - self.index_offset],
    {
        if self.selection >= self.index_offset && self.selection - self.index_offset
            < self.items.len() {
            Some(&self.items[self.selection - self.index_offset])
        } else {
            None
        }
    }
}

/// The log tab.
pub struct Revlog {
    /// details of the selected commit
    pub commit_details: CommitDetailsComponent,
    /// the commit list
    pub list: CommitList,
    /// the background log walk
    pub git_log: AsyncLog,
    /// events for the application loop
    pub queue: Queue,
    /// whether the tab is shown
    pub visible: bool,
    /// the page of commit details a driver has to load, when one is wanted
    pub commits_wanted: Option<usize>,
}

impl Revlog {
    /// Creates the hidden log tab; the caches notify clones of `sender`.
    pub fn new(sender: &crossbeam_channel::Sender<AsyncNotification>) -> (r: Self)
        ensures
            !r.visible,
            r.git_log@.commits == Seq::<CommitId>::empty(),
            !r.git_log@.pending,
            r.list.items@.len() == 0,
            r.commits_wanted is None,
    {
        Revlog {
            commit_details: CommitDetailsComponent::new(sender.clone()),
            list: CommitList::new("Log"),
            git_log: AsyncLog::new(sender.clone()),
            queue: Queue::new(),
            visible: false,
            commits_wanted: None,
        }
    }

    /// True iff the log walk or a commit-file lookup still runs.
    pub fn any_work_pending(&self) -> (r: bool)
        ensures
            r == (self.git_log@.pending || self.commit_details.git_commit_files@.cache.pending
                > 0),
    {
        self.git_log.is_pending() || self.commit_details.any_work_pending()
    }

    /// The re-query step: when the tab is shown, starts the log walk if
    /// none ran, refreshes the total, asks the driver for a fresh page when
    /// the selection left the loaded window or the log changed, and updates
    /// the details view of the selected commit.
    pub fn update(&mut self)
        requires
            old(self).commit_details.git_commit_files@.cache.pending < usize::MAX,
        ensures
            final(self).visible == old(self).visible,
            final(self).queue == old(self).queue,
            !old(self).visible ==> *final(self) == *old(self),
            old(self).visible
                ==> final(self).list.count_total == final(self).git_log@.commits.len(),
    {
        if self.visible {
            let fetch_status = self.git_log.fetch();
            let log_changed = fetch_status == FetchStatus::Started;
            let total = self.git_log.count();
            self.list.set_count_total(total);
            if self.list.needs_data() || log_changed {
                let want_min = if self.list.selection() > SLICE_SIZE / 2 {
                    self.list.selection() - SLICE_SIZE / 2
                } else {
                    0
                };
                self.commits_wanted = Some(want_min);
            }
            if self.commit_details.is_visible() {
                let selected = self.selected_commit();
                self.commit_details.set_commit(selected);
            }
        }
    }

    /// The notification step: the log tag and the commit-files tag both
    /// make the shown tab re-query.
    pub fn update_git(&mut self, ev: AsyncNotification)
        requires
            old(self).commit_details.git_commit_files@.cache.pending < usize::MAX,
        ensures
            !old(self).visible ==> *final(self) == *old(self),
            old(self).visible && !(ev == AsyncNotification::Log || ev
                == AsyncNotification::CommitFiles) ==> *final(self) == *old(self),
    {
        if self.visible {
            match ev {
                AsyncNotification::CommitFiles | AsyncNotification::Log => self.update(),
                _ => {},
            }
        }
    }

    /// The id of the selected commit, when its details are loaded.
    pub fn selected_commit(&self) -> (r: Option<CommitId>)
        ensures
            r is Some <==> (self.list.index_offset <= self.list.selection && self.list.selection
                < self.list.index_offset + self.list.items@.len()),
            r is Some ==> r->0 == self.list.items@[
                self.list.selection - self.list.index_offset
            ].id,
    {
        match self.list.selected_entry() {
            Some(e) => Some(e.id),
            None => None,
        }
    }

    /// True iff the tab is shown.
    pub fn is_visible(&self) -> (r: bool)
        ensures
            r == self.visible,
    {
        self.visible
    }

    /// Leaves the tab: the log walk may pause in the background.
    pub fn close(&mut self)
        ensures
            !final(self).visible,
            final(self).git_log@ == (crate::revlog::LogState {
                background: true,
                ..old(self).git_log@
            }),
    {
        self.visible = false;
        self.git_log.set_background();
    }

    /// Enters the tab: the loaded window clears and everything re-queries.
    pub fn show(&mut self)
        requires
            old(self).commit_details.git_commit_files@.cache.pending < usize::MAX,
        ensures
            final(self).visible,
    {
        self.visible = true;
        self.list.clear();
        self.update();
    }
}

} // verus!
