//! Widget state of a changed-files list.
//!
//! Holds the tree of one status side, remembers a fingerprint of the last
//! file list so an unchanged list does not rebuild the tree, and reports a
//! selection move to the internal event queue so the diff follows it.

use vstd::prelude::*;

use vstd::string::StringExecFns;

use crate::hashing::spec_mix;
use crate::hashing::spec_mix_chars;
use crate::hashing::mix;
use crate::hashing::mix_str;
use crate::hashing::FNV_OFFSET;
use crate::queue::InternalEvent;
use crate::queue::NeedsUpdate;
use crate::queue::Queue;
use crate::status::StatusItem;
use crate::status::StatusItemType;
use crate::tree::spec_file_views;
use crate::tree::FileTreeItem;
use crate::tree::FileTreeItemKind;
use crate::tree::MoveSelection;
use crate::tree::StatusTree;

verus! {

/// A small code distinguishing the change kinds inside a fingerprint.
pub open spec fn spec_item_code(t: StatusItemType) -> u64 {
    match t {
        StatusItemType::New => 1,
        StatusItemType::Modified => 2,
        StatusItemType::Deleted => 3,
        StatusItemType::Renamed => 4,
        StatusItemType::Typechange => 5,
    }
}

/// Folding a whole file list into a fingerprint, path and change kind of
/// each item in order.
pub open spec fn spec_list_fp(h: u64, s: Seq<(Seq<char>, StatusItemType)>) -> u64
    decreases s.len(),
{
    if s.len() == 0 {
        h
    } else {
        spec_list_fp(spec_mix(spec_mix_chars(h, s[0].0), spec_item_code(s[0].1)), s.drop_first())
    }
}

/// The fingerprint of a file list; equal lists always fingerprint equally.
pub fn status_list_fingerprint(items: &[StatusItem]) -> (r: u64)
    ensures
        r == spec_list_fp(FNV_OFFSET, items@.map_values(|it: StatusItem| it@)),
{
    let ghost views = items@.map_values(|it: StatusItem| it@);
    let mut acc: u64 = FNV_OFFSET;
    let mut i: usize = 0;
    proof {
        assert(views.skip(0) =~= views);
    }
    while i < items.len()
        invariant
            0 <= i <= views.len(),
            views == items@.map_values(|it: StatusItem| it@),
            spec_list_fp(acc, views.skip(i as int)) == spec_list_fp(FNV_OFFSET, views),
        decreases views.len() - i,
    {
        proof {
            assert(views.skip(i as int).drop_first() =~= views.skip(i as int + 1));
            assert(views.skip(i as int)[0] == views[i as int]);
            assert(views[i as int] == items@[i as int]@);
        }
        let code: u64 = match items[i].status {
            StatusItemType::New => 1,
            StatusItemType::Modified => 2,
            StatusItemType::Deleted => 3,
            StatusItemType::Renamed => 4,
            StatusItemType::Typechange => 5,
        };
        acc = mix(mix_str(acc, items[i].path.as_str()), code);
        i = i + 1;
    }
    proof {
        assert(views.skip(i as int) =~= Seq::<(Seq<char>, StatusItemType)>::empty());
    }
    acc
}

/// One pre-computed row of the drawn tree: folder chains with single
/// children fold into one row whose name joins their components.
#[derive(Debug)]
pub struct TextDrawInfo {
    /// the row's display name, possibly several folded folder components
    pub name: String,
    /// nesting depth
    pub indent: usize,
    /// whether the row is visible
    pub visible: bool,
    /// folder or file
    pub kind: FileTreeItemKind,
}

/// True iff the widget's selected row is a file.
pub open spec fn spec_file_selected(c: FileTreeComponent) -> bool {
    &&& c.tree.selection is Some
    &&& c.tree.selection->0 < c.tree.tree.items@.len()
    &&& c.tree.tree.items@[c.tree.selection->0 as int].kind is File
}

/// The changed-files list widget of one status side.
pub struct FileTreeComponent {
    /// title shown over the list
    pub title: String,
    /// the tree with its selection
    pub tree: StatusTree,
    /// true until the first list arrives
    pub pending: bool,
    /// fingerprint of the last applied file list
    pub current_hash: u64,
    /// whether this widget has the input focus
    pub focused: bool,
    /// whether the selected row is highlighted
    pub show_selection: bool,
    /// queue for selection-change events; absent for immutable views
    pub queue: Option<Queue>,
}

impl FileTreeComponent {
    /// Creates an empty, pending list widget.
    pub fn new(title: &str, focus: bool, queue: Option<Queue>) -> (r: Self)
        ensures
            r.title@ == title@,
            r.tree.tree.items@.len() == 0,
            r.tree.selection is None,
            r.pending,
            r.current_hash == 0,
            r.focused == focus,
            r.show_selection == focus,
            r.queue == queue,
    {
        FileTreeComponent {
            title: title.to_owned(),
            tree: StatusTree::new(),
            pending: true,
            current_hash: 0,
            focused: focus,
            show_selection: focus,
            queue,
        }
    }

    /// Applies a new file list.  An unchanged list — same fingerprint as
    /// the last applied one — leaves the tree alone; a changed one rebuilds
    /// it.  Either way the widget is no longer pending.
    pub fn update(&mut self, list: &[StatusItem])
        ensures
            !final(self).pending,
            final(self).title == old(self).title,
            final(self).focused == old(self).focused,
            final(self).show_selection == old(self).show_selection,
            final(self).queue == old(self).queue,
            ({
                let fp = spec_list_fp(FNV_OFFSET, list@.map_values(|it: StatusItem| it@));
                &&& fp == old(self).current_hash ==> final(self).tree == old(self).tree
                    && final(self).current_hash == old(self).current_hash
                &&& fp != old(self).current_hash ==> {
                    &&& final(self).current_hash == fp
                    &&& spec_file_views(final(self).tree.tree.items@) == list@.map_values(
                        |it: StatusItem| it@,
                    )
                    &&& final(self).tree.tree.file_count == list@.len()
                }
            }),
    {
        self.pending = false;
        let new_hash = status_list_fingerprint(list);
        if self.current_hash != new_hash {
            self.tree.update(list);
            self.current_hash = new_hash;
        }
    }

    /// The selected row, cloned.
    pub fn selection(&self) -> (r: Option<FileTreeItem>)
        ensures
            r is Some <==> (self.tree.selection is Some && self.tree.selection->0
                < self.tree.tree.items@.len()),
            r is Some ==> r->0 == self.tree.tree.items@[self.tree.selection->0 as int],
    {
        self.tree.selected_item()
    }

    /// The selected file, when the selected row is a file.
    pub fn selection_file(&self) -> (r: Option<StatusItem>)
        ensures
            r is Some <==> (self.tree.selection is Some && self.tree.selection->0
                < self.tree.tree.items@.len() && self.tree.tree.items@[self.tree.selection->0 as int].kind
                is File),
            r is Some ==> self.tree.tree.items@[self.tree.selection->0 as int].kind
                == FileTreeItemKind::File(r->0),
    {
        match self.tree.selected_item() {
            Some(item) => match item.kind {
                FileTreeItemKind::File(f) => Some(f),
                FileTreeItemKind::Path(_) => None,
            },
            None => None,
        }
    }

    /// Switches highlighting of the selected row.
    pub fn show_selection(&mut self, show: bool)
        ensures
            *final(self) == (FileTreeComponent { show_selection: show, ..*old(self) }),
    {
        self.show_selection = show;
    }

    /// True iff the list is empty.
    pub fn is_empty(&self) -> (r: bool)
        ensures
            r == (self.tree.tree.items@.len() == 0),
    {
        self.tree.is_empty()
    }

    /// How many files the list holds.
    pub fn file_count(&self) -> (r: usize)
        ensures
            r == self.tree.tree.file_count,
    {
        self.tree.tree.file_count()
    }

    /// Replaces the title.
    pub fn set_title(&mut self, title: String)
        ensures
            *final(self) == (FileTreeComponent { title, ..*old(self) }),
    {
        self.title = title;
    }

    /// Empties the list and marks the widget pending again.
    pub fn clear(&mut self)
        ensures
            final(self).pending,
            final(self).current_hash == 0,
            final(self).tree.tree.items@.len() == 0,
            final(self).tree.selection is None,
            final(self).title == old(self).title,
            final(self).focused == old(self).focused,
            final(self).show_selection == old(self).show_selection,
            final(self).queue == old(self).queue,
    {
        self.current_hash = 0;
        self.pending = true;
        let e: Vec<StatusItem> = Vec::new();
        self.tree.update(e.as_slice());
    }

    /// True iff the selected row is a file.
    pub fn is_file_seleted(&self) -> (r: bool)
        ensures
            r == (self.tree.selection is Some && self.tree.selection->0
                < self.tree.tree.items@.len() && self.tree.tree.items@[self.tree.selection->0 as int].kind
                is File),
    {
        match self.tree.selected_item() {
            Some(item) => match item.kind {
                FileTreeItemKind::File(_) => true,
                FileTreeItemKind::Path(_) => false,
            },
            None => false,
        }
    }

    /// Moves the selection and, when it changed and a queue is attached,
    /// asks for the diff panel to follow.
    pub fn move_selection(&mut self, dir: MoveSelection) -> (changed: bool)
        ensures
            final(self).tree.tree.items@.len() == old(self).tree.tree.items@.len(),
            final(self).tree.tree.file_count == old(self).tree.tree.file_count,
            spec_file_views(final(self).tree.tree.items@) == spec_file_views(
                old(self).tree.tree.items@,
            ),
            final(self).title == old(self).title,
            final(self).pending == old(self).pending,
            final(self).focused == old(self).focused,
            !changed ==> *final(self) == *old(self),
            ({
                let s = old(self).tree.tree.items@;
                let valid = old(self).tree.selection is Some && old(self).tree.selection->0
                    < s.len();
                let sel = old(self).tree.selection->0 as int;
                &&& (!changed && valid && (dir == MoveSelection::Down || dir == MoveSelection::End)
                    ==> (forall|k: int| sel < k < s.len() ==> !s[k].info.visible))
                &&& (!changed && valid && (dir == MoveSelection::Up || dir == MoveSelection::Home)
                    ==> (forall|k: int| 0 <= k < sel ==> !s[k].info.visible))
                &&& (valid && dir == MoveSelection::Left && s[sel].kind
                    == crate::tree::FileTreeItemKind::Path(crate::tree::PathCollapsed(false))
                    ==> changed)
                &&& (valid && dir == MoveSelection::Right && s[sel].kind
                    == crate::tree::FileTreeItemKind::Path(crate::tree::PathCollapsed(true))
                    ==> changed)
            }),
            changed ==> (final(self).queue is Some <==> old(self).queue is Some),
            changed && old(self).queue is Some ==> final(self).queue->0@ == old(
                self,
            ).queue->0@.push(InternalEvent::Update(NeedsUpdate::Diff)),
            changed && old(self).queue is None ==> final(self).queue is None,
    {
        let changed = self.tree.move_selection(dir);
        if changed {
            match &mut self.queue {
                Some(q) => {
                    q.push(InternalEvent::Update(NeedsUpdate::Diff));
                },
                None => {},
            }
        }
        changed
    }

    /// The one-character marker drawn before a file of the given kind.
    pub fn item_status_char(item_type: StatusItemType) -> (r: char)
        ensures
            r == match item_type {
                StatusItemType::Modified => 'M',
                StatusItemType::New => '+',
                StatusItemType::Deleted => '-',
                StatusItemType::Renamed => 'R',
                StatusItemType::Typechange => ' ',
            },
    {
        match item_type {
            StatusItemType::Modified => 'M',
            StatusItemType::New => '+',
            StatusItemType::Deleted => '-',
            StatusItemType::Renamed => 'R',
            StatusItemType::Typechange => ' ',
        }
    }

    /// Whether this widget has the input focus.
    pub fn focused(&self) -> (r: bool)
        ensures
            r == self.focused,
    {
        self.focused
    }

    /// Focuses or unfocuses the widget; the selection highlight follows.
    pub fn focus(&mut self, focus: bool)
        ensures
            *final(self) == (FileTreeComponent {
                focused: focus,
                show_selection: focus,
                ..*old(self)
            }),
    {
        self.focused = focus;
        self.show_selection = focus;
    }

    /// The rows to draw: folder chains whose inner folders are alone at
    /// their level fold into one row, and the two offsets say how many rows
    /// above the selection were folded away or are invisible, so the drawn
    /// selection index can be corrected.
    pub fn build_vec_text_draw_info_for_drawing(&self) -> (r: (Vec<TextDrawInfo>, usize, usize))
        ensures
            r.0@.len() <= self.tree.tree.items@.len(),
            r.1 <= self.tree.tree.items@.len(),
            r.2 <= self.tree.tree.items@.len(),
    {
        let items = &self.tree.tree.items;
        let n = items.len();
        let select = match self.tree.selection {
            Some(s) => s,
            None => 0,
        };
        let mut out: Vec<TextDrawInfo> = Vec::new();
        let mut selection_offset: usize = 0;
        let mut selection_offset_visible: usize = 0;
        let mut index: usize = 0;
        while index < n
            invariant
                0 <= index <= n,
                n == items@.len(),
                items == &self.tree.tree.items,
                out@.len() <= index,
                selection_offset <= index,
                selection_offset_visible <= index,
            decreases n - index,
        {
            let index_above_select = index < select;
            if !items[index].info.visible && index_above_select {
                selection_offset_visible = selection_offset_visible + 1;
            }
            let mut name = items[index].info.path.clone();
            let indent = items[index].info.indent;
            let visible = items[index].info.visible;
            let kind = items[index].kind.clone();
            // fold a chain of lone folders into this row
            let mut idx_temp = index;
            while idx_temp + 1 < n && items[idx_temp].info.indent < items[idx_temp + 1].info.indent
                invariant
                    index <= idx_temp < n,
                    n == items@.len(),
                    items == &self.tree.tree.items,
                    selection_offset <= idx_temp,
                decreases n - idx_temp,
            {
                let next_is_file = match &items[idx_temp + 1].kind {
                    FileTreeItemKind::File(_) => true,
                    FileTreeItemKind::Path(_) => false,
                };
                if next_is_file {
                    break ;
                }
                if self.tree.tree.multiple_items_at_path(idx_temp + 1) {
                    break ;
                }
                idx_temp = idx_temp + 1;
                name.append("/");
                name.append(items[idx_temp].info.path.as_str());
                if index_above_select && selection_offset < idx_temp {
                    selection_offset = selection_offset + 1;
                }
            }
            out.push(TextDrawInfo { name, indent, visible, kind });
            index = idx_temp + 1;
        }
        (out, selection_offset, selection_offset_visible)
    }
}

} // verus!
