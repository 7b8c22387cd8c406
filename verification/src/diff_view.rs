//! Widget state of the diff panel.
//!
//! Shows one file's diff; remembers which file and which content it shows
//! by a content fingerprint, moves a line selection with the keyboard,
//! tracks the hunk the selection falls in, and asks the queue to stage or
//! unstage that hunk.

use vstd::prelude::*;

use crate::components::ScrollType;
use crate::diff::DiffLineType;
use crate::diff::FileDiff;
use crate::hashing::spec_mix;
use crate::hashing::spec_mix_chars;
use crate::hashing::mix;
use crate::hashing::mix_str;
use crate::hashing::FNV_OFFSET;
use crate::queue::InternalEvent;
use crate::queue::Queue;

verus! {

/// A small code distinguishing the line kinds inside a fingerprint.
pub open spec fn spec_line_code(t: DiffLineType) -> u64 {
    match t {
        DiffLineType::Context => 1,
        DiffLineType::Header => 2,
        DiffLineType::Add => 3,
        DiffLineType::Delete => 4,
    }
}

/// Folding a hunk's lines into a fingerprint, text and kind of each line.
pub open spec fn spec_lines_fp(h: u64, ls: Seq<(Seq<char>, DiffLineType)>) -> u64
    decreases ls.len(),
{
    if ls.len() == 0 {
        h
    } else {
        spec_lines_fp(
            spec_mix(spec_mix_chars(h, ls[0].0), spec_line_code(ls[0].1)),
            ls.drop_first(),
        )
    }
}

/// Folding all hunks into a fingerprint: header fingerprint, then lines.
pub open spec fn spec_hunks_fp(h: u64, hs: Seq<(u64, Seq<(Seq<char>, DiffLineType)>)>) -> u64
    decreases hs.len(),
{
    if hs.len() == 0 {
        h
    } else {
        spec_hunks_fp(spec_lines_fp(spec_mix(h, hs[0].0), hs[0].1), hs.drop_first())
    }
}

/// The content fingerprint of a whole diff; equal diffs always fingerprint
/// equally.
pub open spec fn spec_diff_fp(d: (Seq<(u64, Seq<(Seq<char>, DiffLineType)>)>, nat)) -> u64 {
    spec_mix(spec_hunks_fp(FNV_OFFSET, d.0), d.1 as u64)
}

/// Computes the content fingerprint of a diff.
pub fn diff_fingerprint(d: &FileDiff) -> (r: u64)
    ensures
        r == spec_diff_fp(d@),
{
    let ghost hviews = d@.0;
    let mut acc: u64 = FNV_OFFSET;
    let mut i: usize = 0;
    proof {
        assert(hviews.skip(0) =~= hviews);
    }
    while i < d.hunks.len()
        invariant
            0 <= i <= hviews.len(),
            hviews == d@.0,
            spec_hunks_fp(acc, hviews.skip(i as int)) == spec_hunks_fp(FNV_OFFSET, hviews),
        decreases hviews.len() - i,
    {
        proof {
            assert(hviews.skip(i as int).drop_first() =~= hviews.skip(i as int + 1));
            assert(hviews.skip(i as int)[0] == hviews[i as int]);
            assert(hviews[i as int] == d.hunks@[i as int]@);
        }
        let ghost boundary_acc = acc;
        let hunk = &d.hunks[i];
        let ghost lviews = hunk@.1;
        acc = mix(acc, hunk.header_hash);
        let ghost header_acc = acc;
        let mut j: usize = 0;
        proof {
            assert(lviews.skip(0) =~= lviews);
        }
        while j < hunk.lines.len()
            invariant
                0 <= j <= lviews.len(),
                lviews == hunk@.1,
                spec_lines_fp(acc, lviews.skip(j as int)) == spec_lines_fp(header_acc, lviews),
            decreases lviews.len() - j,
        {
            proof {
                assert(lviews.skip(j as int).drop_first() =~= lviews.skip(j as int + 1));
                assert(lviews.skip(j as int)[0] == lviews[j as int]);
                assert(lviews[j as int] == hunk.lines@[j as int]@);
            }
            let code: u64 = match hunk.lines[j].line_type {
                DiffLineType::Context => 1,
                DiffLineType::Header => 2,
                DiffLineType::Add => 3,
                DiffLineType::Delete => 4,
            };
            acc = mix(mix_str(acc, hunk.lines[j].content.as_str()), code);
            j = j + 1;
        }
        proof {
            assert(lviews.skip(j as int) =~= Seq::<(Seq<char>, DiffLineType)>::empty());
            assert(spec_hunks_fp(boundary_acc, hviews.skip(i as int)) == spec_hunks_fp(
                acc,
                hviews.skip(i as int + 1),
            ));
        }
        i = i + 1;
    }
    proof {
        assert(hviews.skip(i as int) =~= Seq::<(u64, Seq<(Seq<char>, DiffLineType)>)>::empty());
    }
    mix(acc, d.lines as u64)
}

/// Where the line count of hunk `i` starts, over all earlier hunks.
pub open spec fn spec_hunk_start(hs: Seq<(u64, Seq<(Seq<char>, DiffLineType)>)>, i: int) -> int
    decreases i,
{
    if i <= 0 {
        0
    } else {
        spec_hunk_start(hs, i - 1) + hs[i - 1].1.len()
    }
}

/// Whether the line at index `line` falls into hunk `i`.
pub open spec fn spec_hunk_contains(
    hs: Seq<(u64, Seq<(Seq<char>, DiffLineType)>)>,
    i: int,
    line: int,
) -> bool {
    spec_hunk_start(hs, i) <= line < spec_hunk_start(hs, i) + hs[i].1.len()
}

/// What the selected-hunk slot must hold for a selected line: the index of
/// the hunk containing the line, or nothing when no hunk contains it.
pub open spec fn spec_selected_hunk(
    hs: Seq<(u64, Seq<(Seq<char>, DiffLineType)>)>,
    line: int,
    r: Option<usize>,
) -> bool {
    match r {
        Some(i) => 0 <= i < hs.len() && spec_hunk_contains(hs, i as int, line),
        None => forall|i: int| 0 <= i < hs.len() ==> !spec_hunk_contains(hs, i, line),
    }
}

/// Which file and content the panel currently shows.
#[derive(Debug)]
pub struct Current {
    /// path of the shown file
    pub path: String,
    /// whether the staged side is shown
    pub is_stage: bool,
    /// content fingerprint of the shown diff
    pub hash: u64,
}

/// The diff panel.
pub struct DiffComponent {
    /// the diff being shown
    pub diff: FileDiff,
    /// index of the selected line
    pub selection: usize,
    /// index of the hunk the selection falls in
    pub selected_hunk: Option<usize>,
    /// inner width and height of the panel
    pub current_size: (u16, u16),
    /// whether the panel has the input focus
    pub focused: bool,
    /// which file and content is shown
    pub current: Current,
    /// first line drawn
    pub scroll_top: usize,
    /// queue for hunk requests; absent for immutable views
    pub queue: Option<Queue>,
}

impl DiffComponent {
    /// Creates an empty diff panel.
    pub fn new(queue: Option<Queue>) -> (r: Self)
        ensures
            r.diff@.0.len() == 0,
            r.diff@.1 == 0,
            r.selection == 0,
            r.selected_hunk is None,
            r.focused == false,
            r.current.path@ == Seq::<char>::empty(),
            r.current.is_stage == false,
            r.current.hash == 0,
            r.scroll_top == 0,
            r.queue == queue,
    {
        DiffComponent {
            diff: FileDiff::default(),
            selection: 0,
            selected_hunk: None,
            current_size: (0, 0),
            focused: false,
            current: Current { path: String::new(), is_stage: false, hash: 0 },
            scroll_top: 0,
            queue,
        }
    }

    /// True iff there is anything to scroll over.
    pub fn can_scroll(&self) -> (r: bool)
        ensures
            r == (self.diff@.1 > 1),
    {
        self.diff.lines > 1
    }

    /// Which file and side the panel shows.
    pub fn current(&self) -> (r: (String, bool))
        ensures
            r.0@ == self.current.path@,
            r.1 == self.current.is_stage,
    {
        (self.current.path.clone(), self.current.is_stage)
    }

    /// Empties the panel.
    pub fn clear(&mut self)
        ensures
            final(self).diff@.0.len() == 0,
            final(self).diff@.1 == 0,
            final(self).selection == 0,
            final(self).selected_hunk is None,
            final(self).scroll_top == 0,
            final(self).current.path@ == Seq::<char>::empty(),
            final(self).current.is_stage == false,
            final(self).current.hash == 0,
            final(self).focused == old(self).focused,
            final(self).current_size == old(self).current_size,
            final(self).queue == old(self).queue,
    {
        self.current = Current { path: String::new(), is_stage: false, hash: 0 };
        self.diff = FileDiff::default();
        self.scroll_top = 0;
        self.selection = 0;
        self.selected_hunk = None;
    }

    /// Shows a diff.  A diff whose content fingerprint equals the shown one
    /// changes nothing; a different one replaces the shown file and diff,
    /// resets scrolling and selection, and finds the selected hunk.
    pub fn update(&mut self, path: String, is_stage: bool, diff: FileDiff)
        ensures
            ({
                let h = spec_diff_fp(diff@);
                &&& h == old(self).current.hash ==> *final(self) == *old(self)
                &&& h != old(self).current.hash ==> {
                    &&& final(self).current.path == path
                    &&& final(self).current.is_stage == is_stage
                    &&& final(self).current.hash == h
                    &&& final(self).diff == diff
                    &&& final(self).selection == 0
                    &&& final(self).scroll_top == 0
                    &&& spec_selected_hunk(diff@.0, 0, final(self).selected_hunk)
                    &&& final(self).focused == old(self).focused
                    &&& final(self).current_size == old(self).current_size
                    &&& final(self).queue == old(self).queue
                }
            }),
    {
        let hash = diff_fingerprint(&diff);
        if self.current.hash != hash {
            self.selected_hunk = Self::find_selected_hunk(&diff, 0);
            self.current = Current { path, is_stage, hash };
            self.diff = diff;
            self.scroll_top = 0;
            self.selection = 0;
        }
    }

    /// The index of the hunk containing the selected line, or nothing when
    /// no hunk contains it.
    pub fn find_selected_hunk(diff: &FileDiff, line_selected: usize) -> (r: Option<usize>)
        ensures
            spec_selected_hunk(diff@.0, line_selected as int, r),
    {
        let ghost hviews = diff@.0;
        let line = line_selected as u128;
        let mut cursor: u128 = 0;
        let mut i: usize = 0;
        while i < diff.hunks.len()
            invariant
                0 <= i <= hviews.len(),
                hviews == diff@.0,
                cursor == spec_hunk_start(hviews, i as int),
                cursor <= line,
                line == line_selected as u128,
                forall|k: int| 0 <= k < i ==> !spec_hunk_contains(hviews, k, line_selected as int),
            decreases hviews.len() - i,
        {
            proof {
                assert(hviews[i as int] == diff.hunks@[i as int]@);
            }
            let len = diff.hunks[i].lines.len() as u128;
            if line < cursor + len {
                return Some(i);
            }
            cursor = cursor + len;
            i = i + 1;
        }
        None
    }

    /// Where a scrolling keypress puts the selection: one step, one page,
    /// or an end, clamped to the last line.
    pub open spec fn spec_move_target(sel: int, t: ScrollType, max: int, page: int) -> int {
        let want = match t {
            ScrollType::Down => sel + 1,
            ScrollType::Up => sel - 1,
            ScrollType::Home => 0,
            ScrollType::End => max,
            ScrollType::PageDown => sel + page,
            ScrollType::PageUp => sel - page,
        };
        if want < 0 {
            0
        } else if want > max {
            max
        } else {
            want
        }
    }

    /// Moves the line selection and, when it moved, finds the hunk it now
    /// falls in.  A page is one less than the panel's inner height.
    pub fn move_selection(&mut self, move_type: ScrollType)
        ensures
            ({
                let max = if old(self).diff@.1 == 0 {
                    0
                } else {
                    old(self).diff@.1 - 1
                };
                let page = if old(self).current_size.1 == 0 {
                    0
                } else {
                    old(self).current_size.1 - 1
                };
                let target = Self::spec_move_target(
                    old(self).selection as int,
                    move_type,
                    max as int,
                    page as int,
                );
                &&& final(self).selection == target
                &&& target == old(self).selection ==> *final(self) == *old(self)
                &&& target != old(self).selection ==> {
                    &&& spec_selected_hunk(old(self).diff@.0, target, final(self).selected_hunk)
                    &&& final(self).diff == old(self).diff
                    &&& final(self).current == old(self).current
                    &&& final(self).scroll_top == old(self).scroll_top
                    &&& final(self).focused == old(self).focused
                    &&& final(self).current_size == old(self).current_size
                    &&& final(self).queue == old(self).queue
                }
            }),
    {
        let old_sel = self.selection;
        let max: usize = if self.diff.lines == 0 {
            0
        } else {
            self.diff.lines - 1
        };
        let page: usize = if self.current_size.1 == 0 {
            0
        } else {
            (self.current_size.1 - 1) as usize
        };
        let target: usize = match move_type {
            ScrollType::Down => if old_sel < max {
                old_sel + 1
            } else {
                max
            },
            ScrollType::Up => if old_sel == 0 {
                0
            } else if old_sel - 1 > max {
                max
            } else {
                old_sel - 1
            },
            ScrollType::Home => 0,
            ScrollType::End => max,
            ScrollType::PageDown => if old_sel > max || max - old_sel <= page {
                max
            } else {
                old_sel + page
            },
            ScrollType::PageUp => if old_sel <= page {
                0
            } else if old_sel - page > max {
                max
            } else {
                old_sel - page
            },
        };
        self.selection = target;
        if target != old_sel {
            self.selected_hunk = Self::find_selected_hunk(&self.diff, target);
        }
    }

    /// Whether a hunk spanning `[hunk_min, hunk_max)` overlaps the drawn
    /// window `[min, max)`.
    pub fn hunk_visible(hunk_min: usize, hunk_max: usize, min: usize, max: usize) -> (r: bool)
        ensures
            r == ((hunk_min <= min && hunk_max >= max) || (min <= hunk_min <= max) || (min
                <= hunk_max <= max)),
    {
        if hunk_min <= min && hunk_max >= max {
            return true;
        }
        if (hunk_min >= min && hunk_min <= max) || (hunk_max >= min && hunk_max <= max) {
            return true;
        }
        false
    }

    /// Asks the queue to stage or unstage the selected hunk, named by its
    /// header fingerprint.  Meaningful only on a mutable panel, which is
    /// why a selected hunk demands an attached queue.
    pub fn add_hunk(&mut self)
        requires
            old(self).selected_hunk is Some ==> {
                &&& old(self).queue is Some
                &&& old(self).selected_hunk->0 < old(self).diff@.0.len()
            },
        ensures
            old(self).selected_hunk is None ==> *final(self) == *old(self),
            old(self).selected_hunk is Some ==> {
                &&& final(self).queue is Some
                &&& final(self).queue->0@ == old(self).queue->0@.push(
                    InternalEvent::AddHunk(old(self).diff@.0[old(self).selected_hunk->0 as int].0),
                )
                &&& final(self).diff == old(self).diff
                &&& final(self).selection == old(self).selection
                &&& final(self).selected_hunk == old(self).selected_hunk
                &&& final(self).current == old(self).current
            },
    {
        match self.selected_hunk {
            Some(hunk) => {
                proof {
                    assert(self.diff@.0[hunk as int] == self.diff.hunks@[hunk as int]@);
                }
                let hash = self.diff.hunks[hunk].header_hash;
                match &mut self.queue {
                    Some(q) => {
                        q.push(InternalEvent::AddHunk(hash));
                    },
                    None => {},
                }
            },
            None => {},
        }
    }

    /// True iff no queue is attached: the panel only displays and never
    /// stages.
    pub fn is_immutable(&self) -> (r: bool)
        ensures
            r == (self.queue is None),
    {
        match &self.queue {
            Some(_) => false,
            None => true,
        }
    }

    /// Whether the panel has the input focus.
    pub fn focused(&self) -> (r: bool)
        ensures
            r == self.focused,
    {
        self.focused
    }

    /// Focuses or unfocuses the panel.
    pub fn focus(&mut self, focus: bool)
        ensures
            *final(self) == (DiffComponent { focused: focus, ..*old(self) }),
    {
        self.focused = focus;
    }
}

} // verus!
