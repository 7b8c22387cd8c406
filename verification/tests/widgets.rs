//! Behavior of the verified widget state: string helpers, commit ids, the
//! file tree, the diff panel, the message popup and the status tab.

use gitui_core::commits::CommitId;
use gitui_core::components::ScrollType;
use gitui_core::diff::DiffLine;
use gitui_core::diff::DiffLineType;
use gitui_core::diff::FileDiff;
use gitui_core::diff::Hunk;
use gitui_core::diff_view::DiffComponent;
use gitui_core::filetree::FileTreeComponent;
use gitui_core::msg::MsgComponent;
use gitui_core::notify::AsyncNotification;
use gitui_core::queue::InternalEvent;
use gitui_core::queue::NeedsUpdate;
use gitui_core::queue::Queue;
use gitui_core::status::StatusFlags;
use gitui_core::status::StatusItem;
use gitui_core::status::StatusItemType;
use gitui_core::status_tab::Focus;
use gitui_core::status_tab::RepoState;
use gitui_core::status_tab::Status;
use gitui_core::strutil::limit_str;
use gitui_core::tree::split_path;
use gitui_core::tree::FileTreeItemKind;
use gitui_core::tree::MoveSelection;

fn string_vec_to_status(items: &[&str]) -> Vec<StatusItem> {
    items
        .iter()
        .map(|a| StatusItem {
            path: String::from(*a),
            status: StatusItemType::Modified,
        })
        .collect::<Vec<_>>()
}

#[test]
fn test_limit_string_utf8() {
    assert_eq!(limit_str("里里", 1), "里");

    let test_src = "导入按钮由选文件改为选目录，因为整个过程中要用到多个mdb文件，这些文件是在程序里写死的，暂且这么来做，有时间了后 再做调整";
    let test_dst = "导入按钮由选文";
    assert_eq!(limit_str(test_src, 20), test_dst);
}

#[test]
fn test_limit_string_lines() {
    assert_eq!(limit_str("", 10), "");
    assert_eq!(limit_str("first\nsecond", 100), "first");
    assert_eq!(limit_str("first\r\nsecond", 100), "first");
    assert_eq!(limit_str("abcdef", 3), "abc");
}

#[test]
fn test_commit_id_hex() {
    let mut bytes = [0u8; 20];
    bytes[0] = 0x01;
    bytes[1] = 0x23;
    bytes[2] = 0x45;
    bytes[3] = 0x67;
    bytes[19] = 0xff;
    let id = CommitId::new(bytes);
    let hex = id.hex_string();
    assert_eq!(hex.len(), 40);
    assert!(hex.starts_with("01234567"));
    assert!(hex.ends_with("ff"));
    assert_eq!(id.get_short_string(), "0123456");
    assert!(id.same_as(&CommitId::new(bytes)));
    let mut other = bytes;
    other[5] = 9;
    assert!(!id.same_as(&CommitId::new(other)));
}

#[test]
fn test_status_flags() {
    let mut flags = StatusFlags {
        index_new: false,
        wt_new: false,
        index_deleted: false,
        wt_deleted: false,
        index_renamed: false,
        wt_renamed: false,
        index_typechange: false,
        wt_typechange: false,
    };
    assert_eq!(StatusItemType::from_flags(flags), StatusItemType::Modified);
    flags.wt_deleted = true;
    assert_eq!(StatusItemType::from_flags(flags), StatusItemType::Deleted);
    flags.index_new = true;
    assert_eq!(StatusItemType::from_flags(flags), StatusItemType::New);
}

#[test]
fn test_sort_status_items() {
    let items = string_vec_to_status(&["b", "a/x", "a", "b"]);
    let sorted = gitui_core::status::sort_status_items(items);
    let paths: Vec<&str> = sorted.iter().map(|it| it.path.as_str()).collect();
    assert_eq!(paths, vec!["a", "a/x", "b", "b"]);
}

#[test]
fn test_split_path() {
    let parts = split_path("a/b/c.txt");
    assert_eq!(parts, vec!["a", "b", "c.txt"]);
    assert_eq!(split_path("plain"), vec!["plain"]);
}

#[test]
fn test_tree_build_and_moves() {
    let items = string_vec_to_status(&[
        "a/b/b1", //
        "a/b/b2", //
        "a/c/c1", //
    ]);
    //0 a/
    //1   b/
    //2     b1
    //3     b2
    //4   c/
    //5     c1
    let mut ftc = FileTreeComponent::new("title", true, None);
    ftc.update(&items);
    assert_eq!(ftc.file_count(), 3);
    assert!(!ftc.is_empty());
    assert_eq!(ftc.tree.tree.items.len(), 6);

    assert!(ftc.move_selection(MoveSelection::Down)); // to b/
    assert_eq!(ftc.tree.selection, Some(1));
    assert!(ftc.move_selection(MoveSelection::Left)); // fold b/
    match &ftc.tree.tree.items[1].kind {
        FileTreeItemKind::Path(c) => assert!(c.0),
        FileTreeItemKind::File(_) => panic!("expected folder"),
    }
    assert!(!ftc.tree.tree.items[2].info.visible);
    assert!(!ftc.tree.tree.items[3].info.visible);
    assert!(ftc.tree.tree.items[4].info.visible);

    assert!(ftc.move_selection(MoveSelection::Down)); // skips hidden rows
    assert_eq!(ftc.tree.selection, Some(4));
    assert!(ftc.move_selection(MoveSelection::Home));
    assert_eq!(ftc.tree.selection, Some(0));
    assert!(ftc.move_selection(MoveSelection::End));
    assert_eq!(ftc.tree.selection, Some(5));
    assert!(!ftc.is_file_seleted() || ftc.selection_file().is_some());
    assert_eq!(ftc.selection_file().expect("file selected").path, "a/c/c1");
}

#[test]
fn test_tree_unchanged_list_keeps_state() {
    let items = string_vec_to_status(&["x/y", "z"]);
    let mut ftc = FileTreeComponent::new("t", true, None);
    ftc.update(&items);
    ftc.move_selection(MoveSelection::Down);
    let sel = ftc.tree.selection;
    // the same list again: fingerprint unchanged, tree untouched
    ftc.update(&items);
    assert_eq!(ftc.tree.selection, sel);
    // clearing empties the list and goes back to pending
    ftc.clear();
    assert!(ftc.is_empty());
    assert_eq!(ftc.file_count(), 0);
}

#[test]
fn test_tree_selection_event() {
    let items = string_vec_to_status(&["a", "b"]);
    let mut ftc = FileTreeComponent::new("t", true, Some(Queue::new()));
    ftc.update(&items);
    assert!(ftc.move_selection(MoveSelection::Down));
    let q = ftc.queue.as_mut().expect("queue");
    match q.pop_front() {
        Some(InternalEvent::Update(NeedsUpdate::Diff)) => {}
        other => panic!("expected a diff update event, got {:?}", other),
    }
    assert_eq!(q.len(), 0);
    // an impossible move changes nothing and reports nothing
    assert!(!ftc.move_selection(MoveSelection::Down));
    assert_eq!(ftc.queue.as_mut().expect("queue").len(), 0);
}

#[test]
fn test_correct_foldup() {
    let items = string_vec_to_status(&[
        "a/b/b1", //
        "c/d1",   //
        "c/d2",   //
    ]);
    //0 a/b/  (folded: b is alone in a)
    //2     b1
    //3 c/
    //4   d1
    //5   d2
    let mut ftc = FileTreeComponent::new("title", true, None);
    ftc.update(&items);
    let (rows, _, _) = ftc.build_vec_text_draw_info_for_drawing();
    assert_eq!(rows[0].name, "a/b");
    assert!(rows.len() < ftc.tree.tree.items.len());
}

fn sample_diff() -> FileDiff {
    FileDiff {
        hunks: vec![
            Hunk {
                header_hash: 11,
                lines: vec![
                    DiffLine {
                        content: String::from("@@ -1 +1 @@"),
                        line_type: DiffLineType::Header,
                    },
                    DiffLine {
                        content: String::from("-old"),
                        line_type: DiffLineType::Delete,
                    },
                    DiffLine {
                        content: String::from("+new"),
                        line_type: DiffLineType::Add,
                    },
                ],
            },
            Hunk {
                header_hash: 22,
                lines: vec![
                    DiffLine {
                        content: String::from("@@ -9 +9 @@"),
                        line_type: DiffLineType::Header,
                    },
                    DiffLine {
                        content: String::from(" ctx"),
                        line_type: DiffLineType::Context,
                    },
                ],
            },
        ],
        lines: 5,
    }
}

#[test]
fn test_diff_panel_update_and_selection() {
    let mut panel = DiffComponent::new(Some(Queue::new()));
    assert!(panel.is_immutable() == false);
    panel.update(String::from("file.txt"), false, sample_diff());
    assert!(panel.can_scroll());
    assert_eq!(panel.current().0, "file.txt");
    assert_eq!(panel.selected_hunk, Some(0));

    panel.move_selection(ScrollType::End);
    assert_eq!(panel.selection, 4);
    assert_eq!(panel.selected_hunk, Some(1));
    panel.move_selection(ScrollType::Up);
    assert_eq!(panel.selection, 3);
    panel.move_selection(ScrollType::Home);
    assert_eq!(panel.selection, 0);
    assert_eq!(panel.selected_hunk, Some(0));

    // staging the selected hunk names it by its header fingerprint
    panel.add_hunk();
    match panel.queue.as_mut().expect("queue").pop_front() {
        Some(InternalEvent::AddHunk(h)) => assert_eq!(h, 11),
        other => panic!("expected a hunk event, got {:?}", other),
    }

    // the same content again changes nothing; new content resets
    let sel_before = {
        panel.move_selection(ScrollType::Down);
        panel.selection
    };
    panel.update(String::from("file.txt"), false, sample_diff());
    assert_eq!(panel.selection, sel_before);
    panel.clear();
    assert_eq!(panel.current().0, "");
    assert!(!panel.can_scroll());
}

#[test]
fn test_find_selected_hunk() {
    let diff = sample_diff();
    assert_eq!(DiffComponent::find_selected_hunk(&diff, 0), Some(0));
    assert_eq!(DiffComponent::find_selected_hunk(&diff, 2), Some(0));
    assert_eq!(DiffComponent::find_selected_hunk(&diff, 3), Some(1));
    assert_eq!(DiffComponent::find_selected_hunk(&diff, 4), Some(1));
    assert_eq!(DiffComponent::find_selected_hunk(&diff, 5), None);
}

#[test]
fn test_hunk_visible() {
    assert!(DiffComponent::hunk_visible(0, 10, 2, 5));
    assert!(DiffComponent::hunk_visible(3, 4, 2, 5));
    assert!(!DiffComponent::hunk_visible(6, 9, 2, 5));
}

#[test]
fn test_msg_popup() {
    let mut msg = MsgComponent::new();
    assert!(!msg.is_visible());
    msg.show_msg("something went wrong");
    assert!(msg.is_visible());
    assert_eq!(msg.msg, "something went wrong");
    msg.close();
    assert!(!msg.is_visible());
}

#[test]
fn test_status_tab_flow() {
    let (tx, rx) = crossbeam_channel::unbounded();
    let mut tab = Status::new(&tx, true);
    assert!(tab.is_visible());
    assert!(!tab.anything_pending());

    // the tick dispatches one scan per status side
    tab.update(1);
    assert!(tab.anything_pending());
    let (wd_fp, wd_params) = tab.git_status_workdir.take_request().expect("workdir scan");
    let (st_fp, st_params) = tab.git_status_stage.take_request().expect("stage scan");

    // the driver reports both scans back; notifications go to the channel
    tab.git_status_workdir.apply_fetched(
        wd_fp,
        wd_params,
        gitui_core::status::Status2 {
            items: string_vec_to_status(&["wd.txt"]),
        },
    );
    tab.git_status_stage.apply_fetched(
        st_fp,
        st_params,
        gitui_core::status::Status2 {
            items: string_vec_to_status(&["staged.txt"]),
        },
    );
    assert_eq!(rx.try_iter().count(), 2);
    assert!(!tab.anything_pending());

    // the status notification makes the tab re-query both lists
    tab.update_git(AsyncNotification::Status);
    assert_eq!(tab.index_wd.file_count(), 1);
    assert_eq!(tab.index.file_count(), 1);

    // a file is selected in the working directory, so a diff was requested
    let selected = tab.selected_path().expect("selection");
    assert_eq!(selected.0, "wd.txt");
    assert_eq!(selected.1, false);
    assert!(tab.git_diff.take_request().is_some());

    // the commit gate needs a focused, non-empty stage and no rebase
    assert!(!tab.can_commit(RepoState::Clean));
    tab.switch_focus(Focus::Stage);
    assert!(tab.can_commit(RepoState::Clean));
    assert!(!tab.can_commit(RepoState::Rebase));
    assert!(Status::pending_rebase(RepoState::Rebase));
    assert!(Status::can_abort_merge(RepoState::Merge));
    assert!(!Status::repo_state_unclean(RepoState::Clean));
}

#[test]
fn test_status_tab_queue_events() {
    let (tx, _rx) = crossbeam_channel::unbounded();
    let mut tab = Status::new(&tx, false);

    // a failed reset surfaces as an error popup event
    assert!(tab.reset(None));
    assert!(!tab.reset(Some(String::from("checkout failed"))));
    match tab.queue.pop_front() {
        Some(InternalEvent::ShowErrorMsg(m)) => {
            assert_eq!(m, "reset failed:\ncheckout failed");
        }
        other => panic!("expected an error popup event, got {:?}", other),
    }

    // pushing asks for confirmation only when forced
    tab.set_branch_state(Some(String::from("master")), None);
    tab.push(false);
    match tab.queue.pop_front() {
        Some(InternalEvent::Push(branch, force, delete)) => {
            assert_eq!(branch, "master");
            assert!(!force);
            assert!(!delete);
        }
        other => panic!("expected a push event, got {:?}", other),
    }
    tab.push(true);
    assert!(matches!(
        tab.queue.pop_front(),
        Some(InternalEvent::ConfirmAction(_))
    ));
    tab.pull();
    assert!(matches!(tab.queue.pop_front(), Some(InternalEvent::Pull(_))));

    // push, fetch and commit notifications ask for a branch comparison
    tab.update_git(AsyncNotification::Push);
    assert!(tab.branch_compare_requested);
    tab.set_branch_state(Some(String::from("master")), None);
    assert!(!tab.branch_compare_requested);
}

#[test]
fn test_commit_details() {
    let (tx, rx) = crossbeam_channel::unbounded();
    let mut cd = gitui_core::commit_details::CommitDetailsComponent::new(tx);
    assert!(!cd.any_work_pending());
    assert!(!cd.is_visible());
    cd.show();
    assert!(cd.is_visible());

    // inspecting a commit dispatches one lookup and titles the empty list
    let id = CommitId::new([1u8; 20]);
    cd.set_commit(Some(id));
    assert!(cd.any_work_pending());
    assert_eq!(cd.files().title, "Files: 0");
    let (fp, rid) = cd.git_commit_files.take_request().expect("lookup");
    assert!(rid.same_as(&id));

    // the completed lookup becomes current and fills the list
    cd.git_commit_files.apply_fetched(
        fp,
        rid,
        gitui_core::status::Status2 {
            items: string_vec_to_status(&["f.txt"]),
        },
    );
    assert_eq!(rx.try_iter().count(), 1);
    cd.set_commit(Some(id));
    assert_eq!(cd.files().file_count(), 1);
    assert_eq!(cd.files().title, "Files: 1");
    // the repeated id was deduplicated: no second lookup
    assert!(cd.git_commit_files.take_request().is_none());
    assert!(!cd.any_work_pending());
}

#[test]
fn test_revlog_flow() {
    let (tx, rx) = crossbeam_channel::unbounded();
    let mut log = gitui_core::revlog::Revlog::new(&tx);
    assert!(!log.any_work_pending());

    // entering the tab starts the walk and asks for the first page
    log.show();
    assert!(log.is_visible());
    assert!(log.any_work_pending());
    assert_eq!(log.commits_wanted, Some(0));

    // the driver finishes the walk; the notification re-queries the tab
    let ids = vec![CommitId::new([9u8; 20]), CommitId::new([8u8; 20])];
    log.git_log.set_commits(ids);
    assert_eq!(rx.try_recv(), Ok(AsyncNotification::Log));
    assert!(!log.any_work_pending());
    log.update_git(AsyncNotification::Log);
    assert_eq!(log.list.count_total, 2);

    // the driver loads the wanted page of commit details
    let want = log.commits_wanted.take().expect("page wanted");
    let slice = log.git_log.get_slice(want, 1200);
    assert_eq!(slice.len(), 2);
    let infos: Vec<gitui_core::commits::CommitInfo> = slice
        .iter()
        .map(|id| gitui_core::commits::CommitInfo {
            message: String::from("message"),
            time: 0,
            author: String::from("author"),
            id: *id,
        })
        .collect();
    log.list.set_items(want, infos);
    assert!(!log.list.needs_data());
    let selected = log.selected_commit().expect("selected");
    assert!(selected.same_as(&CommitId::new([9u8; 20])));

    // leaving the tab lets the walk pause
    log.close();
    assert!(!log.is_visible());
}

#[test]
fn test_split_path_edges() {
    assert_eq!(split_path("a//b"), vec!["a", "", "b"]);
    assert_eq!(split_path("/x"), vec!["", "x"]);
    assert_eq!(split_path(""), vec![""]);
}

#[test]
fn test_tree_expand() {
    let items = string_vec_to_status(&["a/b", "c"]);
    //0 a/
    //1   b
    //2 c
    let mut ftc = FileTreeComponent::new("t", true, None);
    ftc.update(&items);
    assert!(ftc.move_selection(MoveSelection::Left)); // collapse a/
    assert!(!ftc.tree.tree.items[1].info.visible);
    assert!(ftc.move_selection(MoveSelection::Right)); // expand a/ again
    assert!(ftc.tree.tree.items[1].info.visible);
    match &ftc.tree.tree.items[0].kind {
        FileTreeItemKind::Path(c) => assert!(!c.0),
        FileTreeItemKind::File(_) => panic!("expected folder"),
    }
}

#[test]
fn test_diff_panel_paging() {
    let mut panel = DiffComponent::new(None);
    assert!(panel.is_immutable());
    panel.update(String::from("f"), true, sample_diff());
    panel.current_size = (80, 3);
    panel.move_selection(ScrollType::PageDown);
    assert_eq!(panel.selection, 2);
    panel.move_selection(ScrollType::PageDown);
    assert_eq!(panel.selection, 4);
    panel.move_selection(ScrollType::PageDown);
    assert_eq!(panel.selection, 4); // clamped at the last line
    panel.move_selection(ScrollType::PageUp);
    assert_eq!(panel.selection, 2);
}
