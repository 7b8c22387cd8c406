//! Tree model of the changed files.
//!
//! The flat, path-sorted list of changed files becomes rows: one row per
//! file, preceded by rows for the folders of its path that the previous file
//! did not already introduce.  Folders can collapse, hiding their subtree;
//! the selection moves over the visible rows.

use vstd::prelude::*;

use vstd::pervasive::VecAdditionalExecFns;
use vstd::string::StringSliceAdditionalSpecFns;
use vstd::utf8::encode_utf8;
use vstd::utf8::is_char_boundary;
use vstd::utf8::is_continuation_byte;
use vstd::utf8::valid_utf8;

use crate::status::StatusItem;
use crate::status::StatusItemType;

verus! {

/// Collapsed flag of a folder row.
#[derive(Copy, Clone, PartialEq, Eq, Structural, Debug)]
pub struct PathCollapsed(pub bool);

/// What one tree row is.
#[derive(Debug)]
pub enum FileTreeItemKind {
    /// a folder, with its collapsed flag
    Path(PathCollapsed),
    /// a changed file
    File(StatusItem),
}

impl Clone for FileTreeItemKind {
    /// an equal kind
    fn clone(&self) -> (r: Self)
        ensures
            r == *self,
    {
        match self {
            FileTreeItemKind::Path(c) => FileTreeItemKind::Path(*c),
            FileTreeItemKind::File(it) => FileTreeItemKind::File(it.clone()),
        }
    }
}

/// Presentation data of one row.
#[derive(Debug)]
pub struct TreeItemInfo {
    /// nesting depth
    pub indent: usize,
    /// the row's own path component
    pub path: String,
    /// whether no ancestor folder hides this row
    pub visible: bool,
}

impl Clone for TreeItemInfo {
    /// equal presentation data
    fn clone(&self) -> (r: Self)
        ensures
            r == *self,
    {
        TreeItemInfo { indent: self.indent, path: self.path.clone(), visible: self.visible }
    }
}

/// One row of the tree.
#[derive(Debug)]
pub struct FileTreeItem {
    /// presentation data
    pub info: TreeItemInfo,
    /// folder or file
    pub kind: FileTreeItemKind,
}

impl Clone for FileTreeItem {
    /// an equal row
    fn clone(&self) -> (r: Self)
        ensures
            r == *self,
    {
        FileTreeItem { info: self.info.clone(), kind: self.kind.clone() }
    }
}

/// The file views a row sequence holds, in row order.
pub open spec fn spec_file_views(s: Seq<FileTreeItem>) -> Seq<(Seq<char>, StatusItemType)>
    decreases s.len(),
{
    if s.len() == 0 {
        Seq::empty()
    } else {
        let rest = spec_file_views(s.drop_last());
        match s.last().kind {
            FileTreeItemKind::File(it) => rest.push(it@),
            FileTreeItemKind::Path(_) => rest,
        }
    }
}

/// Row sequences whose file rows agree pointwise hold the same files.
proof fn lemma_file_views_pointwise(a: Seq<FileTreeItem>, b: Seq<FileTreeItem>)
    requires
        a.len() == b.len(),
        forall|i: int|
            0 <= i < a.len() ==> ((a[i].kind is File <==> b[i].kind is File) && (a[i].kind is File
                ==> a[i].kind == b[i].kind)),
    ensures
        spec_file_views(a) == spec_file_views(b),
    decreases a.len(),
{
    if a.len() > 0 {
        assert forall|i: int|
            0 <= i < a.drop_last().len() implies ((a.drop_last()[i].kind is File
            <==> b.drop_last()[i].kind is File) && (a.drop_last()[i].kind is File
            ==> a.drop_last()[i].kind == b.drop_last()[i].kind)) by {
            assert(a.drop_last()[i] == a[i]);
            assert(b.drop_last()[i] == b[i]);
        }
        lemma_file_views_pointwise(a.drop_last(), b.drop_last());
        assert(a.last().kind is File ==> a.last().kind == b.last().kind);
    }
}

/// Joining path pieces with a slash byte between them.
pub open spec fn spec_join_paths(parts: Seq<Seq<u8>>) -> Seq<u8>
    decreases parts.len(),
{
    if parts.len() == 0 {
        Seq::empty()
    } else if parts.len() == 1 {
        parts[0]
    } else {
        parts[0] + seq![47u8] + spec_join_paths(parts.drop_first())
    }
}

/// Joining after appending one piece appends a slash and the piece.
proof fn lemma_join_snoc(parts: Seq<Seq<u8>>, x: Seq<u8>)
    ensures
        parts.len() == 0 ==> spec_join_paths(parts.push(x)) == x,
        parts.len() > 0 ==> spec_join_paths(parts.push(x)) == spec_join_paths(parts) + seq![47u8]
            + x,
    decreases parts.len(),
{
    if parts.len() == 0 {
        assert(parts.push(x)[0] == x);
    } else if parts.len() == 1 {
        assert(parts.push(x).drop_first() =~= seq![x]);
        assert(spec_join_paths(seq![x]) == x);
        assert(parts.push(x)[0] == parts[0]);
    } else {
        lemma_join_snoc(parts.drop_first(), x);
        assert(parts.push(x).drop_first() =~= parts.drop_first().push(x));
        assert(parts.push(x)[0] == parts[0]);
    }
}

/// Splits a path at slash bytes.  The pieces are slash-free, joining them
/// with slashes gives back the path's bytes, and there is always at least
/// one piece.
pub fn split_path(s: &str) -> (r: Vec<String>)
    ensures
        r@.len() >= 1,
        spec_join_paths(r@.map_values(|p: String| encode_utf8(p@))) == s.spec_bytes(),
        forall|i: int, j: int|
            0 <= i < r@.len() && 0 <= j < encode_utf8(r@[i]@).len() ==> encode_utf8(r@[i]@)[j]
                != 47,
{
    broadcast use vstd::utf8::encode_utf8_valid_utf8;
    broadcast use vstd::utf8::is_char_boundary_start_end_of_seq;
    broadcast use vstd::utf8::is_char_boundary_iff_not_is_continuation_byte;
    broadcast use vstd::utf8::valid_utf8_split;

    let mut parts: Vec<String> = Vec::new();
    let mut rest: &str = s;
    proof {
        assert(parts@.map_values(|p: String| encode_utf8(p@)).push(rest.spec_bytes()) =~= seq![
            s.spec_bytes(),
        ]);
    }
    loop
        invariant
            valid_utf8(rest.spec_bytes()),
            spec_join_paths(parts@.map_values(|p: String| encode_utf8(p@)).push(rest.spec_bytes()))
                == s.spec_bytes(),
            forall|i: int, j: int|
                0 <= i < parts@.len() && 0 <= j < encode_utf8(parts@[i]@).len() ==> encode_utf8(
                    parts@[i]@,
                )[j] != 47,
        decreases rest.spec_bytes().len(),
    {
        let bytes: &[u8] = rest.as_bytes();
        let total: usize = bytes.len();
        let mut i: usize = 0;
        while i < total && bytes[i] != 47u8
            invariant
                0 <= i <= total,
                total == rest.spec_bytes().len(),
                bytes@ == rest.spec_bytes(),
                forall|j: int| 0 <= j < i ==> rest.spec_bytes()[j] != 47,
            decreases total - i,
        {
            i = i + 1;
        }
        if i == total {
            // no slash left: the rest is the final piece
            let ghost old_parts = parts@;
            parts.push(rest.to_owned());
            proof {
                assert(parts@.map_values(|p: String| encode_utf8(p@)) =~= old_parts.map_values(
                    |p: String| encode_utf8(p@),
                ).push(rest.spec_bytes()));
                assert forall|a: int, b: int|
                    0 <= a < parts@.len() && 0 <= b < encode_utf8(parts@[a]@).len() implies
                    encode_utf8(parts@[a]@)[b] != 47 by {
                    if a < old_parts.len() {
                        assert(encode_utf8(old_parts[a]@)[b] != 47);
                    } else {
                        assert(encode_utf8(parts@[a]@) == rest.spec_bytes());
                    }
                }
            }
            return parts;
        }
        // cut before the slash
        assert(is_char_boundary(rest.spec_bytes(), i as int)) by {
            vstd::utf8::is_char_boundary_iff_not_is_continuation_byte(rest.spec_bytes(), i as int);
            assert(rest.spec_bytes()[i as int] == 47);
            assert(!is_continuation_byte(rest.spec_bytes()[i as int]));
        }
        let (head, tail) = rest.split_at(i);
        // the slash is a one-byte character, so the cut after it is a boundary
        assert(is_char_boundary(tail.spec_bytes(), 1)) by {
            let tb = tail.spec_bytes();
            assert(tb =~= rest.spec_bytes().subrange(i as int, rest.spec_bytes().len() as int));
            vstd::utf8::valid_utf8_split(rest.spec_bytes(), i as int);
            assert(valid_utf8(rest.spec_bytes().subrange(i as int, rest.spec_bytes().len() as int)));
            assert(valid_utf8(tb));
            assert(tb[0] == 47);
            reveal_with_fuel(vstd::utf8::valid_utf8, 2);
            reveal_with_fuel(vstd::utf8::is_char_boundary, 2);
            assert(vstd::utf8::is_leading_byte_width_1(tb[0]));
            assert(vstd::utf8::length_of_first_codepoint(tb) == 1);
        }
        let (_, next) = tail.split_at(1);
        proof {
            assert(valid_utf8(tail.spec_bytes())) by {
                vstd::utf8::valid_utf8_split(rest.spec_bytes(), i as int);
                assert(tail.spec_bytes() =~= rest.spec_bytes().subrange(
                    i as int,
                    rest.spec_bytes().len() as int,
                ));
            }
            vstd::utf8::valid_utf8_split(tail.spec_bytes(), 1);
            assert(next.spec_bytes() =~= tail.spec_bytes().subrange(
                1,
                tail.spec_bytes().len() as int,
            ));
            assert(valid_utf8(next.spec_bytes()));
        }
        let ghost old_parts = parts@;
        parts.push(head.to_owned());
        proof {
            let f = |p: String| encode_utf8(p@);
            assert(parts@.map_values(f) =~= old_parts.map_values(f).push(head.spec_bytes()));
            lemma_join_snoc(old_parts.map_values(f), rest.spec_bytes());
            lemma_join_snoc(old_parts.map_values(f), head.spec_bytes());
            lemma_join_snoc(parts@.map_values(f), next.spec_bytes());
            assert(rest.spec_bytes() =~= head.spec_bytes() + seq![47u8] + next.spec_bytes());
            assert(spec_join_paths(parts@.map_values(f).push(next.spec_bytes()))
                == s.spec_bytes());
            assert forall|a: int, b: int|
                0 <= a < parts@.len() && 0 <= b < encode_utf8(parts@[a]@).len() implies encode_utf8(
                parts@[a]@,
            )[b] != 47 by {
                if a < old_parts.len() {
                    assert(encode_utf8(old_parts[a]@)[b] != 47);
                } else {
                    assert(encode_utf8(parts@[a]@) == head.spec_bytes());
                    assert(head.spec_bytes()[b] == rest.spec_bytes()[b]);
                }
            }
        }
        rest = next;
    }
}

/// The rows of the tree, with a running count of its file rows.
#[derive(Debug)]
pub struct FileTreeItems {
    /// the rows, in display order
    pub items: Vec<FileTreeItem>,
    /// number of file rows
    pub file_count: usize,
}

/// The first row at or after `i` that leaves the subtree rooted at a row of
/// indent `root_indent`: every row from `i` up to it is deeper.
pub open spec fn spec_subtree_end(s: Seq<FileTreeItem>, root_indent: int, i: int) -> int
    decreases s.len() - i,
    when 0 <= i <= s.len()
{
    if i >= s.len() {
        s.len() as int
    } else if s[i].info.indent <= root_indent {
        i
    } else {
        spec_subtree_end(s, root_indent, i + 1)
    }
}

/// A scan that stops at the first row at or above the root's indent stops
/// exactly at the subtree end.
proof fn lemma_subtree_end_scan(s: Seq<FileTreeItem>, root: int, start: int, j: int)
    requires
        0 <= start <= j <= s.len(),
        forall|k: int| start <= k < j ==> s[k].info.indent > root,
        j == s.len() || s[j].info.indent <= root,
    ensures
        spec_subtree_end(s, root, start) == j,
    decreases j - start,
{
    if start < j {
        lemma_subtree_end_scan(s, root, start + 1, j);
    }
}

impl FileTreeItems {
    /// Builds the rows for a path-sorted list of changed files: each file
    /// becomes a file row at the depth of its path, preceded by folder rows
    /// for the path components the previous file did not already introduce.
    /// All rows start visible and expanded; the file rows carry exactly the
    /// given files, in order.
    pub fn new(list: &[StatusItem]) -> (r: Self)
        ensures
            r.file_count == list@.len(),
            r.items@.len() >= list@.len(),
            list@.len() == 0 ==> r.items@.len() == 0,
            spec_file_views(r.items@) == list@.map_values(|it: StatusItem| it@),
            forall|i: int| 0 <= i < r.items@.len() ==> r.items@[i].info.visible,
    {
        let mut items: Vec<FileTreeItem> = Vec::new();
        let mut prev: Vec<String> = Vec::new();
        let mut idx: usize = 0;
        proof {
            assert(spec_file_views(items@) =~= list@.take(0).map_values(|it: StatusItem| it@));
        }
        while idx < list.len()
            invariant
                0 <= idx <= list@.len(),
                items@.len() >= idx,
                idx == 0 ==> items@.len() == 0,
                spec_file_views(items@) == list@.take(idx as int).map_values(|it: StatusItem| it@),
                forall|i: int| 0 <= i < items@.len() ==> items@[i].info.visible,
            decreases list@.len() - idx,
        {
            let comps = split_path(list[idx].path.as_str());
            let depth = comps.len() - 1;
            // folders the previous path already introduced stay as they are
            let mut common: usize = 0;
            while common < depth && common < prev.len() && comps[common] == prev[common]
                invariant
                    0 <= common <= depth,
                    depth == comps@.len() - 1,
                decreases depth - common,
            {
                common = common + 1;
            }
            let mut j = common;
            while j < depth
                invariant
                    common <= j <= depth,
                    depth == comps@.len() - 1,
                    items@.len() >= idx + j - common,
                    items@.len() >= idx,
                    spec_file_views(items@) == list@.take(idx as int).map_values(
                        |it: StatusItem| it@,
                    ),
                    forall|i: int| 0 <= i < items@.len() ==> items@[i].info.visible,
                decreases depth - j,
            {
                let ghost before = items@;
                items.push(
                    FileTreeItem {
                        info: TreeItemInfo { indent: j, path: comps[j].clone(), visible: true },
                        kind: FileTreeItemKind::Path(PathCollapsed(false)),
                    },
                );
                proof {
                    assert(items@.drop_last() =~= before);
                }
                j = j + 1;
            }
            let ghost before = items@;
            items.push(
                FileTreeItem {
                    info: TreeItemInfo { indent: depth, path: comps[depth].clone(), visible: true },
                    kind: FileTreeItemKind::File(list[idx].clone()),
                },
            );
            proof {
                assert(items@.drop_last() =~= before);
                assert(list@.take(idx as int + 1).map_values(|it: StatusItem| it@)
                    =~= list@.take(idx as int).map_values(|it: StatusItem| it@).push(
                    list@[idx as int]@,
                ));
            }
            prev = comps;
            idx = idx + 1;
        }
        proof {
            assert(list@.take(idx as int) =~= list@);
        }
        FileTreeItems { items, file_count: idx }
    }

    /// Number of file rows.
    pub fn file_count(&self) -> (r: usize)
        ensures
            r == self.file_count,
    {
        self.file_count
    }

    /// Whether the row at `idx` has a sibling: another row of the same depth
    /// inside the same parent's subtree.  Drawing folds a folder chain up
    /// only when each inner folder is alone at its level.
    pub(crate) fn multiple_items_at_path(&self, idx: usize) -> (r: bool)
        requires
            idx < self.items@.len(),
    {
        let my = self.items[idx].info.indent;
        // look left until leaving the parent's subtree
        let mut k = idx;
        while k > 0
            invariant
                0 <= k <= idx < self.items@.len(),
            decreases k,
        {
            k = k - 1;
            let ind = self.items[k].info.indent;
            if ind < my {
                break ;
            }
            if ind == my {
                return true;
            }
        }
        // look right likewise
        let n = self.items.len();
        let mut m = idx + 1;
        while m < n
            invariant
                idx < m <= n,
                n == self.items@.len(),
            decreases n - m,
        {
            let ind = self.items[m].info.indent;
            if ind < my {
                break ;
            }
            if ind == my {
                return true;
            }
            m = m + 1;
        }
        false
    }
}

/// Where the selection may move.
#[derive(Copy, Clone, PartialEq, Eq, Structural, Debug)]
pub enum MoveSelection {
    /// previous visible row
    Up,
    /// next visible row
    Down,
    /// collapse, or jump to the parent folder
    Left,
    /// expand, or move down
    Right,
    /// first visible row
    Home,
    /// last visible row
    End,
}

/// The tree rows together with a selection over the visible ones.
#[derive(Debug)]
pub struct StatusTree {
    /// the rows
    pub tree: FileTreeItems,
    /// index of the selected row, when any rows exist
    pub selection: Option<usize>,
}

impl StatusTree {
    /// An empty tree.
    pub fn new() -> (r: Self)
        ensures
            r.tree.items@.len() == 0,
            r.tree.file_count == 0,
            r.selection is None,
    {
        let e: Vec<StatusItem> = Vec::new();
        let t = FileTreeItems::new(e.as_slice());
        StatusTree { tree: t, selection: None }
    }

    /// Rebuilds the rows for a new file list.  The selection stays at its
    /// index when still in range, else moves to the first row, or away when
    /// the list is empty.
    pub fn update(&mut self, list: &[StatusItem])
        ensures
            final(self).tree.file_count == list@.len(),
            spec_file_views(final(self).tree.items@) == list@.map_values(|it: StatusItem| it@),
            forall|i: int|
                0 <= i < final(self).tree.items@.len() ==> final(self).tree.items@[i].info.visible,
            list@.len() == 0 ==> final(self).tree.items@.len() == 0,
            final(self).tree.items@.len() == 0 ==> final(self).selection is None,
            final(self).tree.items@.len() > 0 ==> final(self).selection is Some
                && final(self).selection->0 < final(self).tree.items@.len(),
    {
        let old_sel = self.selection;
        self.tree = FileTreeItems::new(list);
        let n = self.tree.items.len();
        self.selection = if n == 0 {
            None
        } else {
            match old_sel {
                Some(s) => if s < n {
                    Some(s)
                } else {
                    Some(0)
                },
                None => Some(0),
            }
        };
    }

    /// True iff the tree has no rows.
    pub fn is_empty(&self) -> (r: bool)
        ensures
            r == (self.tree.items@.len() == 0),
    {
        self.tree.items.len() == 0
    }

    /// The selected row, cloned.
    pub fn selected_item(&self) -> (r: Option<FileTreeItem>)
        ensures
            r is Some <==> (self.selection is Some && self.selection->0 < self.tree.items@.len()),
            r is Some ==> r->0 == self.tree.items@[self.selection->0 as int],
    {
        match self.selection {
            Some(s) => if s < self.tree.items.len() {
                let it: &FileTreeItem = &self.tree.items[s];
                Some(it.clone())
            } else {
                None
            },
            None => None,
        }
    }

    /// Moves the selection.  Up, down, home and end skip to the nearest
    /// visible row in their direction; left collapses an expanded folder or
    /// jumps to the nearest visible shallower row above; right expands a
    /// collapsed folder or moves down.  Returns whether anything changed.
    pub fn move_selection(&mut self, dir: MoveSelection) -> (changed: bool)
        ensures
            final(self).tree.items@.len() == old(self).tree.items@.len(),
            final(self).tree.file_count == old(self).tree.file_count,
            spec_file_views(final(self).tree.items@) == spec_file_views(old(self).tree.items@),
            !changed ==> *final(self) == *old(self),
            old(self).selection is None ==> !changed,
            ({
                let s = old(self).tree.items@;
                let valid = old(self).selection is Some && old(self).selection->0 < s.len();
                let sel = old(self).selection->0 as int;
                &&& (!changed && valid && (dir == MoveSelection::Down || dir == MoveSelection::End)
                    ==> (forall|k: int| sel < k < s.len() ==> !s[k].info.visible))
                &&& (!changed && valid && (dir == MoveSelection::Up || dir == MoveSelection::Home)
                    ==> (forall|k: int| 0 <= k < sel ==> !s[k].info.visible))
                &&& (valid && dir == MoveSelection::Left && s[sel].kind
                    == FileTreeItemKind::Path(PathCollapsed(false)) ==> changed)
                &&& (valid && dir == MoveSelection::Right && s[sel].kind
                    == FileTreeItemKind::Path(PathCollapsed(true)) ==> changed)
            }),
            changed && (dir == MoveSelection::Down || dir == MoveSelection::Up || dir
                == MoveSelection::Home || dir == MoveSelection::End) ==> {
                &&& final(self).tree == old(self).tree
                &&& final(self).selection is Some
                &&& final(self).selection->0 < old(self).tree.items@.len()
                &&& old(self).tree.items@[final(self).selection->0 as int].info.visible
            },
            changed && dir == MoveSelection::Down ==> final(self).selection->0 > old(
                self,
            ).selection->0 && (forall|k: int|
                old(self).selection->0 < k < final(self).selection->0 ==> !old(
                    self,
                ).tree.items@[k].info.visible),
            changed && dir == MoveSelection::Up ==> final(self).selection->0 < old(
                self,
            ).selection->0 && (forall|k: int|
                final(self).selection->0 < k < old(self).selection->0 ==> !old(
                    self,
                ).tree.items@[k].info.visible),
            changed && dir == MoveSelection::Home ==> (forall|k: int|
                0 <= k < final(self).selection->0 ==> !old(self).tree.items@[k].info.visible),
            changed && dir == MoveSelection::End ==> (forall|k: int|
                final(self).selection->0 < k < old(self).tree.items@.len() ==> !old(
                    self,
                ).tree.items@[k].info.visible),
    {
        match self.selection {
            None => false,
            Some(sel) => {
                if sel >= self.tree.items.len() {
                    return false;
                }
                match dir {
                    MoveSelection::Down => self.selection_down(sel),
                    MoveSelection::Up => self.selection_up(sel),
                    MoveSelection::Home => self.selection_home(sel),
                    MoveSelection::End => self.selection_end(sel),
                    MoveSelection::Left => self.selection_left(sel),
                    MoveSelection::Right => self.selection_right(sel),
                }
            },
        }
    }

    /// Selects the next visible row after `sel`, when one exists.
    fn selection_down(&mut self, sel: usize) -> (changed: bool)
        requires
            old(self).selection == Some(sel),
            sel < old(self).tree.items@.len(),
        ensures
            final(self).tree == old(self).tree,
            !changed ==> *final(self) == *old(self),
            !changed ==> (forall|k: int|
                sel < k < old(self).tree.items@.len() ==> !old(self).tree.items@[k].info.visible),
            changed ==> {
                &&& final(self).selection is Some
                &&& sel < final(self).selection->0 < old(self).tree.items@.len()
                &&& old(self).tree.items@[final(self).selection->0 as int].info.visible
                &&& forall|k: int|
                    sel < k < final(self).selection->0 ==> !old(self).tree.items@[k].info.visible
            },
    {
        let n = self.tree.items.len();
        let mut j = sel + 1;
        while j < n
            invariant
                *self == *old(self),
                n == self.tree.items@.len(),
                sel < j <= n,
                forall|k: int| sel < k < j ==> !self.tree.items@[k].info.visible,
            decreases n - j,
        {
            if self.tree.items[j].info.visible {
                self.selection = Some(j);
                return true;
            }
            j = j + 1;
        }
        false
    }

    /// Selects the previous visible row before `sel`, when one exists.
    fn selection_up(&mut self, sel: usize) -> (changed: bool)
        requires
            old(self).selection == Some(sel),
            sel < old(self).tree.items@.len(),
        ensures
            final(self).tree == old(self).tree,
            !changed ==> *final(self) == *old(self),
            !changed ==> (forall|k: int| 0 <= k < sel ==> !old(self).tree.items@[k].info.visible),
            changed ==> {
                &&& final(self).selection is Some
                &&& final(self).selection->0 < sel
                &&& old(self).tree.items@[final(self).selection->0 as int].info.visible
                &&& forall|k: int|
                    final(self).selection->0 < k < sel ==> !old(self).tree.items@[k].info.visible
            },
    {
        let mut j = sel;
        while j > 0
            invariant
                *self == *old(self),
                0 <= j <= sel,
                sel < self.tree.items@.len(),
                forall|k: int| j <= k < sel ==> !self.tree.items@[k].info.visible,
            decreases j,
        {
            j = j - 1;
            if self.tree.items[j].info.visible {
                self.selection = Some(j);
                return true;
            }
        }
        false
    }

    /// Selects the first visible row, when it is not already selected.
    fn selection_home(&mut self, sel: usize) -> (changed: bool)
        requires
            old(self).selection == Some(sel),
            sel < old(self).tree.items@.len(),
        ensures
            final(self).tree == old(self).tree,
            !changed ==> *final(self) == *old(self),
            !changed ==> (forall|k: int| 0 <= k < sel ==> !old(self).tree.items@[k].info.visible),
            changed ==> {
                &&& final(self).selection is Some
                &&& final(self).selection->0 < old(self).tree.items@.len()
                &&& old(self).tree.items@[final(self).selection->0 as int].info.visible
                &&& forall|k: int|
                    0 <= k < final(self).selection->0 ==> !old(self).tree.items@[k].info.visible
            },
    {
        let mut j: usize = 0;
        while j < self.tree.items.len()
            invariant
                *self == *old(self),
                0 <= j <= self.tree.items@.len(),
                sel < self.tree.items@.len(),
                forall|k: int| 0 <= k < j ==> !self.tree.items@[k].info.visible,
            decreases self.tree.items@.len() - j,
        {
            if self.tree.items[j].info.visible {
                if j != sel {
                    self.selection = Some(j);
                    return true;
                }
                return false;
            }
            j = j + 1;
        }
        false
    }

    /// Selects the last visible row, when it is not already selected.
    fn selection_end(&mut self, sel: usize) -> (changed: bool)
        requires
            old(self).selection == Some(sel),
            sel < old(self).tree.items@.len(),
        ensures
            final(self).tree == old(self).tree,
            !changed ==> *final(self) == *old(self),
            !changed ==> (forall|k: int|
                sel < k < old(self).tree.items@.len() ==> !old(self).tree.items@[k].info.visible),
            changed ==> {
                &&& final(self).selection is Some
                &&& final(self).selection->0 < old(self).tree.items@.len()
                &&& old(self).tree.items@[final(self).selection->0 as int].info.visible
                &&& forall|k: int|
                    final(self).selection->0 < k < old(self).tree.items@.len() ==> !old(
                        self,
                    ).tree.items@[k].info.visible
            },
    {
        let mut j = self.tree.items.len();
        while j > 0
            invariant
                *self == *old(self),
                0 <= j <= self.tree.items@.len(),
                sel < self.tree.items@.len(),
                forall|k: int|
                    j <= k < self.tree.items@.len() ==> !self.tree.items@[k].info.visible,
            decreases j,
        {
            j = j - 1;
            if self.tree.items[j].info.visible {
                if j != sel {
                    self.selection = Some(j);
                    return true;
                }
                return false;
            }
        }
        false
    }

    /// Collapses the selected expanded folder, or moves to the nearest
    /// visible shallower row above.
    fn selection_left(&mut self, sel: usize) -> (changed: bool)
        requires
            old(self).selection == Some(sel),
            sel < old(self).tree.items@.len(),
        ensures
            final(self).tree.items@.len() == old(self).tree.items@.len(),
            final(self).tree.file_count == old(self).tree.file_count,
            spec_file_views(final(self).tree.items@) == spec_file_views(old(self).tree.items@),
            !changed ==> *final(self) == *old(self),
            old(self).tree.items@[sel as int].kind == FileTreeItemKind::Path(PathCollapsed(false))
                ==> changed,
            !changed ==> (forall|k: int|
                0 <= k < sel ==> !(old(self).tree.items@[k].info.visible && old(
                    self,
                ).tree.items@[k].info.indent < old(self).tree.items@[sel as int].info.indent)),
    {
        let is_expanded_folder = match &self.tree.items[sel].kind {
            FileTreeItemKind::Path(PathCollapsed(collapsed)) => !*collapsed,
            FileTreeItemKind::File(_) => false,
        };
        if is_expanded_folder {
            self.collapse(sel);
            return true;
        }
        let my = self.tree.items[sel].info.indent;
        let mut j = sel;
        while j > 0
            invariant
                *self == *old(self),
                0 <= j <= sel,
                sel < self.tree.items@.len(),
                my == self.tree.items@[sel as int].info.indent,
                forall|k: int|
                    j <= k < sel ==> !(self.tree.items@[k].info.visible
                        && self.tree.items@[k].info.indent < my),
            decreases j,
        {
            j = j - 1;
            if self.tree.items[j].info.visible && self.tree.items[j].info.indent < my {
                self.selection = Some(j);
                return true;
            }
        }
        false
    }

    /// Expands the selected collapsed folder, or moves down.
    fn selection_right(&mut self, sel: usize) -> (changed: bool)
        requires
            old(self).selection == Some(sel),
            sel < old(self).tree.items@.len(),
        ensures
            final(self).tree.items@.len() == old(self).tree.items@.len(),
            final(self).tree.file_count == old(self).tree.file_count,
            spec_file_views(final(self).tree.items@) == spec_file_views(old(self).tree.items@),
            !changed ==> *final(self) == *old(self),
            old(self).tree.items@[sel as int].kind == FileTreeItemKind::Path(PathCollapsed(true))
                ==> changed,
            !changed ==> (forall|k: int|
                sel < k < old(self).tree.items@.len() ==> !old(self).tree.items@[k].info.visible),
    {
        let is_collapsed_folder = match &self.tree.items[sel].kind {
            FileTreeItemKind::Path(PathCollapsed(collapsed)) => *collapsed,
            FileTreeItemKind::File(_) => false,
        };
        if is_collapsed_folder {
            self.expand(sel);
            return true;
        }
        self.selection_down(sel)
    }

    /// Collapses the folder at `sel`: marks it collapsed and hides every row
    /// of its subtree, which runs until the next row at its indent or above.
    /// Rows outside the subtree are untouched.
    fn collapse(&mut self, sel: usize)
        requires
            old(self).selection == Some(sel),
            sel < old(self).tree.items@.len(),
            old(self).tree.items@[sel as int].kind is Path,
        ensures
            final(self).selection == old(self).selection,
            final(self).tree.items@.len() == old(self).tree.items@.len(),
            final(self).tree.file_count == old(self).tree.file_count,
            spec_file_views(final(self).tree.items@) == spec_file_views(old(self).tree.items@),
            ({
                let s = old(self).tree.items@;
                let t = final(self).tree.items@;
                let e = spec_subtree_end(s, s[sel as int].info.indent as int, sel as int + 1);
                &&& t[sel as int].kind == FileTreeItemKind::Path(PathCollapsed(true))
                &&& t[sel as int].info == s[sel as int].info
                &&& (forall|k: int| sel < k < e ==> !t[k].info.visible)
                &&& (forall|k: int| 0 <= k < s.len() && !(sel <= k < e) ==> t[k] == s[k])
            }),
    {
        let ghost s0 = self.tree.items@;
        let my = self.tree.items[sel].info.indent;
        let name = self.tree.items[sel].info.path.clone();
        let vis = self.tree.items[sel].info.visible;
        self.tree.items.set(
            sel,
            FileTreeItem {
                info: TreeItemInfo { indent: my, path: name, visible: vis },
                kind: FileTreeItemKind::Path(PathCollapsed(true)),
            },
        );
        let n = self.tree.items.len();
        let mut j = sel + 1;
        while j < n && self.tree.items[j].info.indent > my
            invariant
                sel < j <= n,
                n == self.tree.items@.len(),
                n == s0.len(),
                sel < s0.len(),
                my == s0[sel as int].info.indent,
                self.selection == Some(sel),
                self.tree.file_count == old(self).tree.file_count,
                self.tree.items@[sel as int].kind == FileTreeItemKind::Path(PathCollapsed(true)),
                self.tree.items@[sel as int].info == s0[sel as int].info,
                forall|k: int|
                    0 <= k < s0.len() && !(sel <= k < j) ==> self.tree.items@[k] == s0[k],
                forall|k: int| sel < k < j ==> !self.tree.items@[k].info.visible,
                forall|k: int|
                    sel < k < j ==> (self.tree.items@[k].kind is File <==> s0[k].kind is File),
                forall|k: int|
                    sel < k < j ==> (self.tree.items@[k].kind is File ==> self.tree.items@[k].kind
                        == s0[k].kind),
                forall|k: int| sel < k < j ==> s0[k].info.indent > my,
            decreases n - j,
        {
            let ind = self.tree.items[j].info.indent;
            let nm = self.tree.items[j].info.path.clone();
            let kd = self.tree.items[j].kind.clone();
            self.tree.items.set(
                j,
                FileTreeItem {
                    info: TreeItemInfo { indent: ind, path: nm, visible: false },
                    kind: kd,
                },
            );
            j = j + 1;
        }
        proof {
            lemma_subtree_end_scan(s0, my as int, sel as int + 1, j as int);
            assert forall|i: int|
                0 <= i < s0.len() implies ((s0[i].kind is File <==> self.tree.items@[i].kind
                is File) && (s0[i].kind is File ==> s0[i].kind == self.tree.items@[i].kind)) by {}
            lemma_file_views_pointwise(s0, self.tree.items@);
        }
    }

    /// Expands the folder at `sel`: marks it and every folder of its subtree
    /// expanded, and every row of the subtree visible.  Rows outside the
    /// subtree are untouched.
    fn expand(&mut self, sel: usize)
        requires
            old(self).selection == Some(sel),
            sel < old(self).tree.items@.len(),
            old(self).tree.items@[sel as int].kind is Path,
        ensures
            final(self).selection == old(self).selection,
            final(self).tree.items@.len() == old(self).tree.items@.len(),
            final(self).tree.file_count == old(self).tree.file_count,
            spec_file_views(final(self).tree.items@) == spec_file_views(old(self).tree.items@),
            ({
                let s = old(self).tree.items@;
                let t = final(self).tree.items@;
                let e = spec_subtree_end(s, s[sel as int].info.indent as int, sel as int + 1);
                &&& t[sel as int].kind == FileTreeItemKind::Path(PathCollapsed(false))
                &&& t[sel as int].info == s[sel as int].info
                &&& (forall|k: int| sel < k < e ==> t[k].info.visible)
                &&& (forall|k: int| 0 <= k < s.len() && !(sel <= k < e) ==> t[k] == s[k])
            }),
    {
        let ghost s0 = self.tree.items@;
        let my = self.tree.items[sel].info.indent;
        let name = self.tree.items[sel].info.path.clone();
        let vis = self.tree.items[sel].info.visible;
        self.tree.items.set(
            sel,
            FileTreeItem {
                info: TreeItemInfo { indent: my, path: name, visible: vis },
                kind: FileTreeItemKind::Path(PathCollapsed(false)),
            },
        );
        let n = self.tree.items.len();
        let mut j = sel + 1;
        while j < n && self.tree.items[j].info.indent > my
            invariant
                sel < j <= n,
                n == self.tree.items@.len(),
                n == s0.len(),
                sel < s0.len(),
                my == s0[sel as int].info.indent,
                self.selection == Some(sel),
                self.tree.file_count == old(self).tree.file_count,
                self.tree.items@[sel as int].kind == FileTreeItemKind::Path(PathCollapsed(false)),
                self.tree.items@[sel as int].info == s0[sel as int].info,
                forall|k: int|
                    0 <= k < s0.len() && !(sel <= k < j) ==> self.tree.items@[k] == s0[k],
                forall|k: int| sel < k < j ==> self.tree.items@[k].info.visible,
                forall|k: int|
                    sel < k < j ==> (self.tree.items@[k].kind is File <==> s0[k].kind is File),
                forall|k: int|
                    sel < k < j ==> (self.tree.items@[k].kind is File ==> self.tree.items@[k].kind
                        == s0[k].kind),
                forall|k: int| sel < k < j ==> s0[k].info.indent > my,
            decreases n - j,
        {
            let ind = self.tree.items[j].info.indent;
            let nm = self.tree.items[j].info.path.clone();
            let kd = match &self.tree.items[j].kind {
                FileTreeItemKind::Path(_) => FileTreeItemKind::Path(PathCollapsed(false)),
                FileTreeItemKind::File(it) => FileTreeItemKind::File(it.clone()),
            };
            self.tree.items.set(
                j,
                FileTreeItem {
                    info: TreeItemInfo { indent: ind, path: nm, visible: true },
                    kind: kd,
                },
            );
            j = j + 1;
        }
        proof {
            lemma_subtree_end_scan(s0, my as int, sel as int + 1, j as int);
            assert forall|i: int|
                0 <= i < s0.len() implies ((s0[i].kind is File <==> self.tree.items@[i].kind
                is File) && (s0[i].kind is File ==> s0[i].kind == self.tree.items@[i].kind)) by {}
            lemma_file_views_pointwise(s0, self.tree.items@);
        }
    }
}

} // verus!
