//! The status tab: two changed-file lists (working directory and stage), a
//! diff panel following the selection, and the asynchronous caches feeding
//! them.
//!
//! On every tick the tab re-requests both status sides and refreshes the
//! current diff; on every notification it re-queries exactly the subsystem
//! the notification names, since notifications carry no payload.

use vstd::prelude::*;

use vstd::string::StringExecFns;

use crate::diff::spec_diff_fingerprint;
use crate::diff::AsyncDiff;
use crate::diff::DiffOptions;
use crate::diff::DiffParams;
use crate::diff::DiffType;
use crate::diff_view::DiffComponent;
use crate::filetree::FileTreeComponent;
use crate::notify::AsyncNotification;
use crate::queue::InternalEvent;
use crate::queue::Queue;
use crate::filetree::spec_list_fp;
use crate::hashing::FNV_OFFSET;
use crate::status::spec_status_fingerprint;
use crate::status::Status2;
use crate::status::StatusItemType;
use crate::status::AsyncStatus2;
use crate::status::StatusParams;
use crate::status::StatusType;
use crate::tree::spec_file_views;
use crate::tree::FileTreeItemKind;

verus! {

/// What part of the tab is focused.
#[derive(Copy, Clone, PartialEq, Eq, Structural, Debug)]
pub enum Focus {
    /// the working-directory list
    WorkDir,
    /// the diff panel
    Diff,
    /// the staged list
    Stage,
}

impl Focus {
    /// The other list: focus toggles between working directory and stage.
    pub fn toggled_focus(&self) -> (r: Self)
        ensures
            r == match *self {
                Focus::WorkDir => Focus::Stage,
                Focus::Stage => Focus::WorkDir,
                Focus::Diff => Focus::Diff,
            },
    {
        match self {
            Focus::WorkDir => Focus::Stage,
            Focus::Stage => Focus::WorkDir,
            Focus::Diff => Focus::Diff,
        }
    }
}

/// Which list the diff panel compares against.
#[derive(Copy, Clone, PartialEq, Eq, Structural, Debug)]
pub enum DiffTarget {
    /// the staged list
    Stage,
    /// the working-directory list
    WorkingDir,
}

/// What operation the repository is in the middle of.
#[derive(Copy, Clone, PartialEq, Eq, Structural, Debug)]
pub enum RepoState {
    /// nothing pending
    Clean,
    /// a merge is pending
    Merge,
    /// a rebase is pending
    Rebase,
    /// some other operation is pending
    Other,
}

/// How the current branch compares to its upstream.
#[derive(Copy, Clone, PartialEq, Eq, Structural, Debug)]
pub struct BranchCompare {
    /// commits ahead of upstream
    pub ahead: usize,
    /// commits behind upstream
    pub behind: usize,
}

/// The text pushed to the message popup when an action failed: the prefix,
/// then the error.
pub open spec fn spec_failure_text(prefix: Seq<char>, err: Seq<char>) -> Seq<char> {
    prefix + err
}

/// Builds the popup text for a failed action.
fn failure_message(prefix: &str, err: &str) -> (r: String)
    ensures
        r@ == spec_failure_text(prefix@, err@),
{
    let mut s = prefix.to_owned();
    s.append(err);
    s
}

/// The file views held by a status cache's last completed scan; empty
/// before the first completion.
pub open spec fn spec_cache_last_views(
    c: crate::cache::CacheState<StatusParams, Status2>,
) -> Seq<(Seq<char>, StatusItemType)> {
    if c.last is Some {
        (c.last->0).1@
    } else {
        Seq::empty()
    }
}

/// The diff request for one selected path and side, with the tab's options.
pub open spec fn spec_diff_request(p: (Seq<char>, bool), opts: DiffOptions) -> (
    Seq<char>,
    DiffType,
    DiffOptions,
) {
    (
        p.0,
        if p.1 {
            DiffType::Stage
        } else {
            DiffType::WorkDir
        },
        opts,
    )
}

/// The path and side the diff panel should follow: the selected file of the
/// targeted list, when a file is selected there.
pub open spec fn spec_selected_path(s: Status) -> Option<(Seq<char>, bool)> {
    let stage = s.diff_target == DiffTarget::Stage;
    let c = if stage {
        s.index
    } else {
        s.index_wd
    };
    if c.tree.selection is Some && c.tree.selection->0 < c.tree.tree.items@.len() {
        match c.tree.tree.items@[c.tree.selection->0 as int].kind {
            FileTreeItemKind::File(it) => Some((it@.0, stage)),
            FileTreeItemKind::Path(_) => None,
        }
    } else {
        None
    }
}

/// The status tab.
pub struct Status {
    /// whether the tab is shown
    pub visible: bool,
    /// what part of the tab is focused
    pub focus: Focus,
    /// which list the diff panel follows
    pub diff_target: DiffTarget,
    /// the staged list
    pub index: FileTreeComponent,
    /// the working-directory list
    pub index_wd: FileTreeComponent,
    /// the diff panel
    pub diff: DiffComponent,
    /// cache of diff computations
    pub git_diff: AsyncDiff,
    /// cache of working-directory scans
    pub git_status_workdir: AsyncStatus2,
    /// cache of stage scans
    pub git_status_stage: AsyncStatus2,
    /// how the branch compares to upstream, once known
    pub git_branch_state: Option<BranchCompare>,
    /// name of the current branch, once known
    pub git_branch_name: Option<String>,
    /// events for the application loop
    pub queue: Queue,
    /// whether a repository action ran since the last status arrived
    pub git_action_executed: bool,
    /// whether a push, fetch or commit asks for a fresh branch comparison
    pub branch_compare_requested: bool,
    /// whether untracked files are scanned
    pub show_untracked: bool,
    /// options diffs are computed with
    pub diff_options: DiffOptions,
}

impl Status {
    /// Creates the tab with empty lists and fresh caches; the three caches
    /// notify clones of `sender`.
    pub fn new(sender: &crossbeam_channel::Sender<AsyncNotification>, show_untracked: bool) -> (r:
        Self)
        ensures
            r.visible,
            r.focus == Focus::WorkDir,
            r.diff_target == DiffTarget::WorkingDir,
            r.git_diff@.cache == crate::cache::CacheState::<DiffParams, crate::diff::FileDiff>::init(),
            r.git_status_workdir@ == crate::cache::CacheState::<
                StatusParams,
                crate::status::Status2,
            >::init(),
            r.git_status_stage@ == crate::cache::CacheState::<
                StatusParams,
                crate::status::Status2,
            >::init(),
            r.git_branch_state is None,
            r.git_branch_name is None,
            r.queue@ == Seq::<InternalEvent>::empty(),
            !r.git_action_executed,
            !r.branch_compare_requested,
            r.show_untracked == show_untracked,
            r.index.tree.tree.items@.len() == 0,
            r.index_wd.tree.tree.items@.len() == 0,
    {
        Status {
            visible: true,
            focus: Focus::WorkDir,
            diff_target: DiffTarget::WorkingDir,
            index: FileTreeComponent::new("Staged Changes", false, Some(Queue::new())),
            index_wd: FileTreeComponent::new("Unstaged Changes", true, Some(Queue::new())),
            diff: DiffComponent::new(Some(Queue::new())),
            git_diff: AsyncDiff::new(sender.clone()),
            git_status_workdir: AsyncStatus2::new(sender.clone()),
            git_status_stage: AsyncStatus2::new(sender.clone()),
            git_branch_state: None,
            git_branch_name: None,
            queue: Queue::new(),
            git_action_executed: false,
            branch_compare_requested: false,
            show_untracked,
            diff_options: DiffOptions::default(),
        }
    }

    /// True iff a file is selected in the list the focus names.
    pub fn can_focus_diff(&self) -> (r: bool)
        ensures
            r == match self.focus {
                Focus::WorkDir => crate::filetree::spec_file_selected(self.index_wd),
                Focus::Stage => crate::filetree::spec_file_selected(self.index),
                Focus::Diff => false,
            },
    {
        match self.focus {
            Focus::WorkDir => self.index_wd.is_file_seleted(),
            Focus::Stage => self.index.is_file_seleted(),
            Focus::Diff => false,
        }
    }

    /// True iff the diff panel is focused.
    pub fn is_focus_on_diff(&self) -> (r: bool)
        ensures
            r == (self.focus == Focus::Diff),
    {
        self.focus == Focus::Diff
    }

    /// Moves the focus: focusing a list also retargets the diff panel to
    /// it; focusing the diff panel unfocuses both lists.  The diff request
    /// follows the new selection at once.  Returns whether the focus moved.
    pub fn switch_focus(&mut self, f: Focus) -> (r: bool)
        requires
            old(self).git_diff@.cache.pending < usize::MAX,
        ensures
            r == (old(self).focus != f),
            !r ==> *final(self) == *old(self),
            r ==> final(self).focus == f,
            r ==> final(self).diff_target == match f {
                Focus::WorkDir => DiffTarget::WorkingDir,
                Focus::Stage => DiffTarget::Stage,
                Focus::Diff => old(self).diff_target,
            },
            final(self).index.pending == old(self).index.pending,
            final(self).index_wd.pending == old(self).index_wd.pending,
            final(self).index.current_hash == old(self).index.current_hash,
            final(self).index_wd.current_hash == old(self).index_wd.current_hash,
            final(self).index.tree == old(self).index.tree,
            final(self).index_wd.tree == old(self).index_wd.tree,
            final(self).git_action_executed == old(self).git_action_executed,
            final(self).queue == old(self).queue,
            final(self).git_status_workdir == old(self).git_status_workdir,
            final(self).git_status_stage == old(self).git_status_stage,
            final(self).git_diff@.cache.pending >= old(self).git_diff@.cache.pending,
            final(self).git_diff@.cache.pending <= old(self).git_diff@.cache.pending + 1,
    {
        if self.focus != f {
            self.focus = f;
            match f {
                Focus::WorkDir => {
                    self.set_diff_target(DiffTarget::WorkingDir);
                    self.diff.focus(false);
                },
                Focus::Stage => {
                    self.set_diff_target(DiffTarget::Stage);
                    self.diff.focus(false);
                },
                Focus::Diff => {
                    self.index.focus(false);
                    self.index_wd.focus(false);
                    self.diff.focus(true);
                },
            }
            self.update_diff();
            true
        } else {
            false
        }
    }

    /// Retargets the diff panel to one list; the selection highlight moves
    /// with it.
    pub fn set_diff_target(&mut self, target: DiffTarget)
        ensures
            *final(self) == (Status {
                diff_target: target,
                index: (FileTreeComponent {
                    focused: target == DiffTarget::Stage,
                    show_selection: target == DiffTarget::Stage,
                    ..old(self).index
                }),
                index_wd: (FileTreeComponent {
                    focused: target != DiffTarget::Stage,
                    show_selection: target != DiffTarget::Stage,
                    ..old(self).index_wd
                }),
                ..*old(self)
            }),
    {
        self.diff_target = target;
        let is_stage = match target {
            DiffTarget::Stage => true,
            DiffTarget::WorkingDir => false,
        };
        self.index_wd.focus(!is_stage);
        self.index.focus(is_stage);
    }

    /// The selected file of the targeted list, and whether that is the
    /// staged side.
    pub fn selected_path(&self) -> (r: Option<(String, bool)>)
        ensures
            r is Some <==> spec_selected_path(*self) is Some,
            r is Some ==> ((r->0).0@, (r->0).1) == spec_selected_path(*self)->0,
    {
        let (file, is_stage) = match self.diff_target {
            DiffTarget::Stage => (self.index.selection_file(), true),
            DiffTarget::WorkingDir => (self.index_wd.selection_file(), false),
        };
        match file {
            Some(item) => Some((item.path, is_stage)),
            None => None,
        }
    }

    /// The tick step: when the tab is shown, re-request both status sides
    /// for the given tick and force a refresh of the current diff, so
    /// outside changes to the repository are picked up.
    pub fn update(&mut self, tick: u64)
        requires
            old(self).git_diff@.cache.pending < usize::MAX,
            old(self).git_status_workdir@.pending < usize::MAX,
            old(self).git_status_stage@.pending < usize::MAX,
        ensures
            !old(self).visible ==> *final(self) == *old(self),
            old(self).visible ==> {
                let wd = StatusParams {
                    tick,
                    status_type: StatusType::WorkingDir,
                    include_untracked: old(self).show_untracked,
                };
                let st = StatusParams {
                    tick,
                    status_type: StatusType::Stage,
                    include_untracked: old(self).show_untracked,
                };
                &&& final(self).git_status_workdir@ == old(self).git_status_workdir@.fetched(
                    spec_status_fingerprint(wd),
                    wd,
                )
                &&& final(self).git_status_stage@ == old(self).git_status_stage@.fetched(
                    spec_status_fingerprint(st),
                    st,
                )
                &&& final(self).index == old(self).index
                &&& final(self).index_wd == old(self).index_wd
                &&& final(self).diff == old(self).diff
                &&& final(self).queue == old(self).queue
                &&& final(self).git_diff@.cache.pending >= old(self).git_diff@.cache.pending
                &&& final(self).git_diff@.cache.pending <= old(self).git_diff@.cache.pending + 1
            },
    {
        if self.visible {
            self.git_diff.refresh();
            self.git_status_workdir.fetch(
                StatusParams::new(tick, StatusType::WorkingDir, self.show_untracked),
            );
            self.git_status_stage.fetch(
                StatusParams::new(tick, StatusType::Stage, self.show_untracked),
            );
        }
    }

    /// True iff any of the tab's caches still computes.
    pub fn anything_pending(&self) -> (r: bool)
        ensures
            r == (self.git_diff@.cache.pending > 0 || self.git_status_stage@.pending > 0
                || self.git_status_workdir@.pending > 0),
    {
        self.git_diff.is_pending() || self.git_status_stage.is_pending()
            || self.git_status_workdir.is_pending()
    }

    /// The notification step: re-queries exactly the subsystem the
    /// notification names — the diff panel for a diff, both lists for a
    /// status, and a fresh branch comparison after a push, fetch or commit.
    pub fn update_git(&mut self, ev: AsyncNotification)
        requires
            old(self).git_diff@.cache.pending + 2 < usize::MAX,
        ensures
            ev == AsyncNotification::Push || ev == AsyncNotification::Fetch || ev
                == AsyncNotification::CommitFiles ==> *final(self) == (Status {
                branch_compare_requested: true,
                ..*old(self)
            }),
            ev == AsyncNotification::Log || ev == AsyncNotification::SyntaxHighlighting
                ==> *final(self) == *old(self),
            ev == AsyncNotification::Status ==> !final(self).index.pending
                && !final(self).index_wd.pending,
    {
        match ev {
            AsyncNotification::Diff => self.update_diff(),
            AsyncNotification::Status => self.update_status(),
            AsyncNotification::Push | AsyncNotification::Fetch | AsyncNotification::CommitFiles => {
                self.branch_compare_requested = true;
            },
            _ => {},
        }
    }

    /// Applies the latest completed scans to both lists, lets the diff
    /// panel follow, and after a repository action moves the focus off an
    /// emptied list: from the working directory to a non-empty stage, or
    /// from an emptied stage back to the working directory.
    pub fn update_status(&mut self)
        requires
            old(self).git_diff@.cache.pending + 2 < usize::MAX,
        ensures
            !final(self).index.pending,
            !final(self).index_wd.pending,
            !final(self).git_action_executed,
            final(self).index.current_hash == spec_list_fp(
                FNV_OFFSET,
                spec_cache_last_views(old(self).git_status_stage@),
            ),
            final(self).index_wd.current_hash == spec_list_fp(
                FNV_OFFSET,
                spec_cache_last_views(old(self).git_status_workdir@),
            ),
            final(self).index.current_hash != old(self).index.current_hash ==> spec_file_views(
                final(self).index.tree.tree.items@,
            ) == spec_cache_last_views(old(self).git_status_stage@),
            final(self).index_wd.current_hash != old(self).index_wd.current_hash
                ==> spec_file_views(final(self).index_wd.tree.tree.items@)
                == spec_cache_last_views(old(self).git_status_workdir@),
    {
        let stage_status = self.git_status_stage.last();
        self.index.update(stage_status.items.as_slice());
        let workdir_status = self.git_status_workdir.last();
        self.index_wd.update(workdir_status.items.as_slice());
        self.update_diff();
        if self.git_action_executed {
            self.git_action_executed = false;
            let focus = self.focus;
            if focus == Focus::WorkDir && workdir_status.items.len() == 0
                && stage_status.items.len() > 0 {
                self.switch_focus(Focus::Stage);
            } else if focus == Focus::Stage && stage_status.items.len() == 0 {
                self.switch_focus(Focus::WorkDir);
            }
        }
    }

    /// Lets the diff panel follow the selection: with no file selected the
    /// panel clears; when the panel already shows the selected file, a
    /// cached diff with matching parameters is re-applied and anything else
    /// re-requests; when it shows another file, the diff is requested — a
    /// cached value applies at once, otherwise the panel clears until the
    /// computation lands.
    pub fn update_diff(&mut self)
        requires
            old(self).git_diff@.cache.pending < usize::MAX,
        ensures
            final(self).index == old(self).index,
            final(self).index_wd == old(self).index_wd,
            final(self).focus == old(self).focus,
            final(self).diff_target == old(self).diff_target,
            final(self).queue == old(self).queue,
            final(self).git_status_workdir == old(self).git_status_workdir,
            final(self).git_status_stage == old(self).git_status_stage,
            final(self).visible == old(self).visible,
            final(self).git_action_executed == old(self).git_action_executed,
            final(self).branch_compare_requested == old(self).branch_compare_requested,
            final(self).git_branch_state == old(self).git_branch_state,
            final(self).git_branch_name == old(self).git_branch_name,
            final(self).show_untracked == old(self).show_untracked,
            final(self).diff_options == old(self).diff_options,
            spec_selected_path(*old(self)) is None ==> {
                &&& final(self).diff.current.path@ == Seq::<char>::empty()
                &&& final(self).diff.current.hash == 0
                &&& final(self).diff.diff@.0.len() == 0
                &&& final(self).git_diff == old(self).git_diff
            },
            spec_selected_path(*old(self)) is Some ==> ({
                let p = spec_selected_path(*old(self))->0;
                let rq = spec_diff_request(p, old(self).diff_options);
                let showing = old(self).diff.current.path@ == p.0
                    && old(self).diff.current.is_stage == p.1;
                let cached = old(self).git_diff@.cache.last;
                &&& final(self).git_diff@.cache.pending >= old(self).git_diff@.cache.pending
                &&& final(self).git_diff@.cache.pending <= old(self).git_diff@.cache.pending + 1
                &&& (showing && cached is None ==> *final(self) == *old(self))
                &&& (showing && cached is Some && (cached->0).0@ == rq ==> final(self).git_diff
                    == old(self).git_diff)
                &&& (!showing || (cached is Some && (cached->0).0@ != rq)
                    ==> final(self).git_diff@.cache.current_fp == spec_diff_fingerprint(rq))
            }),
    {
        match self.selected_path() {
            Some((path, is_stage)) => {
                let diff_type = if is_stage {
                    DiffType::Stage
                } else {
                    DiffType::WorkDir
                };
                let diff_params = DiffParams {
                    path: path.clone(),
                    diff_type,
                    options: self.diff_options,
                };
                let (cur_path, cur_stage) = self.diff.current();
                if cur_path == path && cur_stage == is_stage {
                    // already showing a diff of the right file; the content
                    // may still have changed outside
                    match self.git_diff.last() {
                        Some((params, last)) => {
                            if params == diff_params {
                                self.diff.update(path, is_stage, last);
                            } else {
                                self.request_diff(diff_params, path, is_stage);
                            }
                        },
                        None => {},
                    }
                } else {
                    self.request_diff(diff_params, path, is_stage);
                }
            },
            None => {
                self.diff.clear();
            },
        }
    }

    /// Requests the diff for the given parameters: a value cached for
    /// exactly this request shows at once, otherwise the panel clears and
    /// the computed diff arrives with a later notification.
    fn request_diff(&mut self, diff_params: DiffParams, path: String, is_stage: bool)
        requires
            old(self).git_diff@.cache.pending < usize::MAX,
        ensures
            final(self).index == old(self).index,
            final(self).index_wd == old(self).index_wd,
            final(self).queue == old(self).queue,
            final(self).focus == old(self).focus,
            final(self).diff_target == old(self).diff_target,
            final(self).git_status_workdir == old(self).git_status_workdir,
            final(self).git_status_stage == old(self).git_status_stage,
            final(self).visible == old(self).visible,
            final(self).git_action_executed == old(self).git_action_executed,
            final(self).branch_compare_requested == old(self).branch_compare_requested,
            final(self).git_branch_state == old(self).git_branch_state,
            final(self).git_branch_name == old(self).git_branch_name,
            final(self).show_untracked == old(self).show_untracked,
            final(self).diff_options == old(self).diff_options,
            final(self).git_diff@.cache.pending <= old(self).git_diff@.cache.pending + 1,
            final(self).git_diff@.cache.pending >= old(self).git_diff@.cache.pending,
            final(self).git_diff@.cache.current_fp == spec_diff_fingerprint(diff_params@),
    {
        match self.git_diff.request(diff_params) {
            Some(diff) => {
                self.diff.update(path, is_stage, diff);
            },
            None => {
                self.diff.clear();
            },
        }
    }

    /// Reacts to the outcome of a workdir file reset, called after the user
    /// confirmed it: a failure is reported through the popup queue.
    /// Returns whether the reset succeeded.
    pub fn reset(&mut self, outcome: Option<String>) -> (r: bool)
        ensures
            r == (outcome is None),
            outcome is None ==> *final(self) == *old(self),
            outcome is Some ==> {
                &&& *final(self) == (Status { queue: final(self).queue, ..*old(self) })
                &&& final(self).queue@.len() == old(self).queue@.len() + 1
                &&& final(self).queue@.take(old(self).queue@.len() as int) == old(self).queue@
                &&& (final(self).queue@.last() matches InternalEvent::ShowErrorMsg(m) && m@
                    == spec_failure_text("reset failed:\n"@, outcome->0@))
            },
    {
        match outcome {
            None => true,
            Some(e) => {
                let msg = failure_message("reset failed:\n", e.as_str());
                self.queue.push(InternalEvent::ShowErrorMsg(msg));
                false
            },
        }
    }

    /// After a file moved between the lists, toggles the focus to the other
    /// list, when the tab is shown and the diff panel is not focused.
    pub fn last_file_moved(&mut self)
        requires
            old(self).git_diff@.cache.pending < usize::MAX,
        ensures
            old(self).focus == Focus::Diff || !old(self).visible ==> *final(self) == *old(self),
    {
        if !self.is_focus_on_diff() && self.visible {
            let f = self.focus.toggled_focus();
            self.switch_focus(f);
        }
    }

    /// Asks for a push of the current branch: a forced push must be
    /// confirmed first, a plain one goes out directly.  Does nothing while
    /// nothing is to push or no branch is known.
    pub fn push(&mut self, force: bool)
        ensures
            ({
                let pushable = match old(self).git_branch_state {
                    Some(state) => state.ahead > 0,
                    None => true,
                };
                &&& (!pushable || old(self).git_branch_name is None) ==> *final(self) == *old(
                    self,
                )
                &&& pushable && old(self).git_branch_name is Some ==> *final(self) == (Status {
                    queue: final(self).queue,
                    ..*old(self)
                }) && final(self).queue@ == old(self).queue@.push(
                    if force {
                        InternalEvent::ConfirmAction(
                            crate::queue::Action::ForcePush(old(self).git_branch_name->0, force),
                        )
                    } else {
                        InternalEvent::Push(old(self).git_branch_name->0, force, false)
                    },
                )
            }),
    {
        if self.can_push() {
            let branch = match &self.git_branch_name {
                Some(b) => b.clone(),
                None => {
                    return ;
                },
            };
            proof {
                assert(branch == old(self).git_branch_name->0);
            }
            if force {
                self.queue.push(
                    InternalEvent::ConfirmAction(crate::queue::Action::ForcePush(branch, force)),
                );
            } else {
                self.queue.push(InternalEvent::Push(branch, force, false));
            }
        }
    }

    /// Asks for a pull into the current branch, when one is known.
    pub fn pull(&mut self)
        ensures
            old(self).git_branch_name is None ==> *final(self) == *old(self),
            old(self).git_branch_name is Some ==> *final(self) == (Status {
                queue: final(self).queue,
                ..*old(self)
            }) && final(self).queue@ == old(self).queue@.push(
                InternalEvent::Pull(old(self).git_branch_name->0),
            ),
    {
        let branch = match &self.git_branch_name {
            Some(b) => b.clone(),
            None => {
                return ;
            },
        };
        proof {
            assert(branch == old(self).git_branch_name->0);
        }
        self.queue.push(InternalEvent::Pull(branch));
    }

    /// Reacts to the outcome of undoing the last commit: a failure is
    /// reported through the popup queue.
    pub fn undo_last_commit(&mut self, outcome: Option<String>)
        ensures
            outcome is None ==> *final(self) == *old(self),
            outcome is Some ==> {
                &&& final(self).queue@.len() == old(self).queue@.len() + 1
                &&& (final(self).queue@.last() matches InternalEvent::ShowErrorMsg(m) && m@
                    == spec_failure_text("undo commit failed:\n"@, outcome->0@))
            },
    {
        match outcome {
            None => {},
            Some(e) => {
                let msg = failure_message("undo commit failed:\n", e.as_str());
                self.queue.push(InternalEvent::ShowErrorMsg(msg));
            },
        }
    }

    /// Stores a fresh branch lookup and upstream comparison, answering an
    /// earlier request for one.
    pub fn set_branch_state(&mut self, name: Option<String>, compare: Option<BranchCompare>)
        ensures
            final(self).git_branch_name == name,
            final(self).git_branch_state == compare,
            !final(self).branch_compare_requested,
            final(self).queue == old(self).queue,
            final(self).index == old(self).index,
            final(self).index_wd == old(self).index_wd,
            final(self).diff == old(self).diff,
    {
        self.git_branch_name = name;
        self.git_branch_state = compare;
        self.branch_compare_requested = false;
    }

    /// True iff there is anything to push: the branch is ahead of its
    /// upstream, or no comparison is known yet.
    pub fn can_push(&self) -> (r: bool)
        ensures
            r == match self.git_branch_state {
                Some(state) => state.ahead > 0,
                None => true,
            },
    {
        match &self.git_branch_state {
            Some(state) => state.ahead > 0,
            None => true,
        }
    }

    /// True iff a pending merge can be aborted in the given state.
    pub fn can_abort_merge(state: RepoState) -> (r: bool)
        ensures
            r == (state == RepoState::Merge),
    {
        state == RepoState::Merge
    }

    /// True iff a rebase is pending in the given state.
    pub fn pending_rebase(state: RepoState) -> (r: bool)
        ensures
            r == (state == RepoState::Rebase),
    {
        state == RepoState::Rebase
    }

    /// True iff the repository is in the middle of an operation.
    pub fn repo_state_unclean(state: RepoState) -> (r: bool)
        ensures
            r == (state != RepoState::Clean),
    {
        state != RepoState::Clean
    }

    /// True iff the commit popup may open: the stage is focused, non-empty,
    /// and no rebase is pending.
    pub fn can_commit(&self, state: RepoState) -> (r: bool)
        ensures
            r == (self.index.focused && self.index.tree.tree.items@.len() > 0 && state
                != RepoState::Rebase),
    {
        self.index.focused() && !self.index.is_empty() && !Self::pending_rebase(state)
    }

    /// Reacts to the outcome of aborting a merge: a failure is reported
    /// through the popup queue.
    pub fn abort_merge(&mut self, outcome: Option<String>)
        ensures
            outcome is None ==> *final(self) == *old(self),
            outcome is Some ==> {
                &&& final(self).queue@.len() == old(self).queue@.len() + 1
                &&& (final(self).queue@.last() matches InternalEvent::ShowErrorMsg(m) && m@
                    == spec_failure_text("abort merge\n"@, outcome->0@))
            },
    {
        match outcome {
            None => {},
            Some(e) => {
                let msg = failure_message("abort merge\n", e.as_str());
                self.queue.push(InternalEvent::ShowErrorMsg(msg));
            },
        }
    }

    /// Reacts to the outcome of aborting a rebase: a failure is reported
    /// through the popup queue.
    pub fn abort_rebase(&mut self, outcome: Option<String>)
        ensures
            outcome is None ==> *final(self) == *old(self),
            outcome is Some ==> {
                &&& final(self).queue@.len() == old(self).queue@.len() + 1
                &&& (final(self).queue@.last() matches InternalEvent::ShowErrorMsg(m) && m@
                    == spec_failure_text("abort rebase\n"@, outcome->0@))
            },
    {
        match outcome {
            None => {},
            Some(e) => {
                let msg = failure_message("abort rebase\n", e.as_str());
                self.queue.push(InternalEvent::ShowErrorMsg(msg));
            },
        }
    }

    /// Reacts to the outcome of continuing a pending rebase: a failure is
    /// reported through the popup queue.
    pub fn continue_rebase(&mut self, outcome: Option<String>)
        ensures
            outcome is None ==> *final(self) == *old(self),
            outcome is Some ==> {
                &&& final(self).queue@.len() == old(self).queue@.len() + 1
                &&& (final(self).queue@.last() matches InternalEvent::ShowErrorMsg(m) && m@
                    == spec_failure_text("continue rebase\n"@, outcome->0@))
            },
    {
        match outcome {
            None => {},
            Some(e) => {
                let msg = failure_message("continue rebase\n", e.as_str());
                self.queue.push(InternalEvent::ShowErrorMsg(msg));
            },
        }
    }

    /// True iff the tab is shown.
    pub fn is_visible(&self) -> (r: bool)
        ensures
            r == self.visible,
    {
        self.visible
    }
}

} // verus!
