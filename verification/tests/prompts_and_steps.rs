use tij::actions::{Notification, NotificationKind};
use tij::dialog::{handle_dialog_result, Dialog, DialogCallback, DialogKind, DialogResult, PendingState};
use tij::log_edit::{
    create_bookmark_prompt, create_tag_prompt, delete_tag_prompt, log_order_notice, log_pair_step, move_to_wc_prompt,
    restore_all_prompt, restore_file_prompt, start_bookmark_forget, workspace_step, EditStep, PairAction,
    PairStep, WorkspaceAction, WorkspaceStep,
};
use tij::ops::{
    describe_editor_outcome, describe_refusal, describe_start, duplicate_outcome, interactive_outcome, op_failed,
    op_succeeded, output_op_outcome, redo_step, resolve_external_refusal, DescribeStart, EditorExit,
    InteractiveEnd, InteractiveOp, JjOp, OutputOp, RedoStep, Shown,
};
use tij::push::PushBulkMode;
use tij::nav::ViewState;
use tij::opening::{compare_failure, evolog_open, stack_diff_check, stack_revset, EvologOpen};
use tij::state::DirtyFlags;

fn info(m: &str) -> EditStep {
    EditStep::Info(m.to_string())
}

fn confirm(title: &str, message: &str, detail: Option<&str>, callback: DialogCallback) -> EditStep {
    EditStep::Dialog(Dialog {
        title: title.to_string(),
        message: message.to_string(),
        kind: DialogKind::Confirm { detail: detail.map(str::to_string) },
        callback,
    })
}

fn input(title: &str, prompt: &str, callback: DialogCallback) -> EditStep {
    EditStep::Dialog(Dialog {
        title: title.to_string(),
        message: prompt.to_string(),
        kind: DialogKind::Input,
        callback,
    })
}

fn notice(message: &str, kind: NotificationKind) -> Shown {
    Shown::Notice(Notification { message: message.to_string(), kind })
}

// ---------------------------------------------------------------------------
// Undo, redo and other single operations
// ---------------------------------------------------------------------------

#[test]
fn undo_and_redo_mark_everything_stale() {
    let all = Some(DirtyFlags { log: true, status: true, op_log: true, bookmarks: true });
    let (n, d) = op_succeeded(&JjOp::Undo);
    assert_eq!(n.message, "Undo complete");
    assert_eq!(d, all);
    let (n, d) = op_succeeded(&JjOp::Redo);
    assert_eq!(n.message, "Redo complete");
    assert_eq!(d, all);
    assert_eq!(op_failed(&JjOp::Undo, "nothing"), "Undo failed: nothing");
    assert_eq!(op_failed(&JjOp::Redo, "x"), "Redo failed: x");
}

#[test]
fn bookmark_operations() {
    let (n, d) = op_succeeded(&JjOp::BookmarkUntrack { full_name: "main@origin".to_string() });
    assert_eq!(n.message, "Stopped tracking: main");
    assert_eq!(d, Some(DirtyFlags { log: true, status: true, op_log: true, bookmarks: true }));
    let (n, d) = op_succeeded(&JjOp::BookmarkForget { name: "old".to_string() });
    assert_eq!(n.message, "Forgot bookmark: old (remote tracking removed)");
    assert_eq!(d, Some(DirtyFlags { log: true, status: false, op_log: true, bookmarks: true }));
    let (n, _) = op_succeeded(&JjOp::BookmarkMoveBackwards { name: "main".to_string() });
    assert_eq!(n.message, "Moved bookmark 'main' to @ (backwards)");
    assert_eq!(op_failed(&JjOp::BookmarkForget { name: "x".to_string() }, "e"), "Forget failed: e");
    assert_eq!(op_failed(&JjOp::BookmarkUntrack { full_name: "x".to_string() }, "e"), "Failed to untrack: e");
}

#[test]
fn resolving_with_a_tool() {
    let (n, d) = op_succeeded(&JjOp::ResolveWith { path: "src/a.rs".to_string(), tool: ":theirs".to_string() });
    assert_eq!(n.message, "Resolved src/a.rs with :theirs");
    assert_eq!(n.kind, NotificationKind::Success);
    assert_eq!(d, None);
    assert_eq!(
        op_failed(&JjOp::ResolveWith { path: "a".to_string(), tool: ":ours".to_string() }, "e"),
        "Resolve failed: e"
    );
}

#[test]
fn external_resolve() {
    assert_eq!(
        resolve_external_refusal(false),
        Some(Notification::warning("External merge tool only works for working copy (@)"))
    );
    assert_eq!(resolve_external_refusal(true), None);
    let op = InteractiveOp::Resolve { path: "src/a.rs".to_string() };
    assert_eq!(
        interactive_outcome(&op, &InteractiveEnd::Succeeded),
        notice("Resolved src/a.rs", NotificationKind::Success)
    );
    assert_eq!(
        interactive_outcome(&op, &InteractiveEnd::Unsuccessful),
        notice("Resolve cancelled or failed", NotificationKind::Info)
    );
    assert_eq!(
        interactive_outcome(&op, &InteractiveEnd::NotRun("no tool".to_string())),
        Shown::Error("Resolve failed: no tool".to_string())
    );
}

#[test]
fn redo_steps() {
    assert_eq!(redo_step(Ok(Some("abc123"))), RedoStep::Run("abc123".to_string()));
    assert_eq!(
        redo_step(Ok(None)),
        RedoStep::Nothing(Notification::info(
            "Nothing to redo (use 'o' for operation history after multiple undos)"
        ))
    );
    assert_eq!(redo_step(Err("boom")), RedoStep::Failed("Failed to check redo target: boom".to_string()));
}

// ---------------------------------------------------------------------------
// Describe
// ---------------------------------------------------------------------------

#[test]
fn describe_starts_inline_for_one_line() {
    assert_eq!(describe_start(Ok("fix bug\n\n")), DescribeStart::Inline("fix bug".to_string()));
    assert_eq!(describe_start(Ok("")), DescribeStart::Inline(String::new()));
    assert_eq!(describe_start(Ok("title\n\nbody\n")), DescribeStart::External);
    assert_eq!(
        describe_start(Err("boom")),
        DescribeStart::Failed("Failed to get description: boom".to_string())
    );
    assert_eq!(describe_refusal(true), Some("Cannot describe: commit is immutable".to_string()));
    assert_eq!(describe_refusal(false), None);
}

#[test]
fn describe_editor_outcomes() {
    assert_eq!(
        describe_editor_outcome(Some("same\n"), &EditorExit::Succeeded, Some("same  \n\n")),
        notice("Description unchanged", NotificationKind::Info)
    );
    assert_eq!(
        describe_editor_outcome(Some("old"), &EditorExit::Succeeded, Some("new")),
        notice("Description updated", NotificationKind::Success)
    );
    assert_eq!(
        describe_editor_outcome(None, &EditorExit::Succeeded, Some("new")),
        notice("Describe editor closed", NotificationKind::Success)
    );
    assert_eq!(
        describe_editor_outcome(Some("a"), &EditorExit::Failed(Some(2)), None),
        Shown::Error("Describe editor exited with error (code: 2)".to_string())
    );
    assert_eq!(
        describe_editor_outcome(Some("a"), &EditorExit::Failed(None), None),
        Shown::Error("Describe editor exited with error (code: -1)".to_string())
    );
    assert_eq!(
        describe_editor_outcome(None, &EditorExit::NotRun("no editor".to_string()), None),
        Shown::Error("Describe failed: no editor".to_string())
    );
}

// ---------------------------------------------------------------------------
// Two-revision actions
// ---------------------------------------------------------------------------

#[test]
fn compare_steps() {
    assert_eq!(
        log_pair_step(&PairAction::StartCompare("abc".to_string())),
        PairStep::Show(info("From: abc. Select 'To' and press Enter"))
    );
    assert_eq!(
        log_pair_step(&PairAction::Compare { from: "a".to_string(), to: "b".to_string() }),
        PairStep::Open {
            from: "a".to_string(),
            to: "b".to_string(),
            interdiff: false,
            notice: "Comparing a -> b".to_string(),
        }
    );
    assert_eq!(
        log_pair_step(&PairAction::CompareSameRevision),
        PairStep::Show(info("Cannot compare revision with itself"))
    );
}

#[test]
fn interdiff_steps() {
    assert_eq!(
        log_pair_step(&PairAction::StartInterdiff("abc".to_string())),
        PairStep::Show(info("Interdiff From: abc. Select 'To' and press Enter"))
    );
    assert_eq!(
        log_pair_step(&PairAction::Interdiff { from: "a".to_string(), to: "b".to_string() }),
        PairStep::Open {
            from: "a".to_string(),
            to: "b".to_string(),
            interdiff: true,
            notice: "Interdiff a -> b".to_string(),
        }
    );
    assert_eq!(
        log_pair_step(&PairAction::InterdiffSameRevision),
        PairStep::Show(info("Cannot interdiff revision with itself"))
    );
}

#[test]
fn parallelize_and_bisect_steps() {
    assert_eq!(
        log_pair_step(&PairAction::StartParallelize("abc".to_string())),
        PairStep::Show(info("From: abc. Select end and press Enter"))
    );
    assert_eq!(
        log_pair_step(&PairAction::Parallelize { from: "aaaaaaaaaa".to_string(), to: "bbbbbbbbbb".to_string() }),
        PairStep::Show(confirm(
            "Parallelize",
            "Parallelize aaaaaaaa::bbbbbbbb?",
            None,
            DialogCallback::Parallelize { from: "aaaaaaaaaa".to_string(), to: "bbbbbbbbbb".to_string() }
        ))
    );
    assert_eq!(
        log_pair_step(&PairAction::ParallelizeSameRevision),
        PairStep::Show(info("Cannot parallelize single revision"))
    );
    assert_eq!(
        log_pair_step(&PairAction::StartBisect("bad1".to_string())),
        PairStep::Show(info("Bisect: Bad=bad1. Select Good and press Enter"))
    );
    assert_eq!(
        log_pair_step(&PairAction::Bisect { good: "g".to_string(), bad: "b".to_string() }),
        PairStep::Show(input(
            "Bisect Command (empty = bash for manual test)",
            "bash",
            DialogCallback::BisectRun { good: "g".to_string(), bad: "b".to_string() }
        ))
    );
    assert_eq!(
        log_pair_step(&PairAction::BisectSameRevision),
        PairStep::Show(info("Cannot bisect: same revision selected for good and bad"))
    );
}

// ---------------------------------------------------------------------------
// Confirmations
// ---------------------------------------------------------------------------

#[test]
fn restore_confirmations() {
    assert_eq!(
        restore_file_prompt("src/a.rs"),
        confirm(
            "Restore File",
            "Restore 'src/a.rs'?\nThis discards your changes to this file.",
            Some("Undo with 'u' if needed."),
            DialogCallback::RestoreFile { file_path: "src/a.rs".to_string() }
        )
    );
    assert_eq!(
        restore_all_prompt(),
        confirm(
            "Restore All Files",
            "Restore all files?\nThis discards ALL your changes in the working copy.",
            Some("Undo with 'u' if needed."),
            DialogCallback::RestoreAll
        )
    );
}

#[test]
fn create_and_delete_prompts() {
    assert_eq!(create_bookmark_prompt("@"), input("Create Bookmark", "New bookmark on @", DialogCallback::BookmarkCreate { revision: "@".to_string() }));
    assert_eq!(create_bookmark_prompt("abcdefghij"), input(
            "Create Bookmark",
            "New bookmark on abcdefgh",
            DialogCallback::BookmarkCreate { revision: "abcdefghij".to_string() }
        ));
    assert_eq!(create_tag_prompt("abcdefghij"), input("Create Tag", "New tag on abcdefgh", DialogCallback::TagCreate { revision: "abcdefghij".to_string() }));
    assert_eq!(delete_tag_prompt("v1"), confirm("Delete Tag", "Delete tag 'v1'?", None, DialogCallback::TagDelete { name: "v1".to_string() }));
    assert_eq!(
        move_to_wc_prompt("main", "Can be undone with 'u'.".to_string()),
        confirm(
            "Move Bookmark",
            "Move bookmark 'main' to @?",
            Some("Can be undone with 'u'."),
            DialogCallback::BookmarkMoveToWc { name: "main".to_string() }
        )
    );
}

#[test]
fn forgetting_a_bookmark_keeps_it_pending_until_the_dialog_closes() {
    let mut pending = PendingState {
        push_target_remote: Some("origin".to_string()),
        pending_push_bookmarks: vec![],
        pending_forget_bookmark: None,
        pending_push_tag: None,
    };
    let step = start_bookmark_forget("old", &mut pending);
    assert_eq!(
        step,
        confirm(
            "Forget Bookmark",
            "Forget bookmark 'old'?\n\nThis removes remote tracking.\nUse 'd' for local delete only.\nUndo with 'u' if needed.",
            None,
            DialogCallback::BookmarkForget
        )
    );
    assert_eq!(pending.pending_forget_bookmark.as_deref(), Some("old"));
    assert_eq!(pending.push_target_remote.as_deref(), Some("origin"));
    handle_dialog_result(Some(DialogCallback::BookmarkForget), DialogResult::Cancelled, &mut pending);
    assert_eq!(pending.pending_forget_bookmark, None);
}

#[test]
fn workspace_steps() {
    assert_eq!(
        workspace_step(&WorkspaceAction::StartAdd),
        WorkspaceStep::Show(input("Add Workspace", "Path for new workspace (e.g., ../feature-ws)", DialogCallback::WorkspaceAdd))
    );
    assert_eq!(
        workspace_step(&WorkspaceAction::Jump("abc".to_string())),
        WorkspaceStep::JumpToLog("abc".to_string())
    );
    assert_eq!(
        workspace_step(&WorkspaceAction::ForgetCurrentBlocked),
        WorkspaceStep::Show(info("Cannot forget the current workspace"))
    );
    assert_eq!(
        workspace_step(&WorkspaceAction::RenameNonCurrentBlocked),
        WorkspaceStep::Show(info("Can only rename the current workspace"))
    );
    assert_eq!(
        workspace_step(&WorkspaceAction::Forget("second".to_string())),
        WorkspaceStep::Show(confirm(
            "Forget Workspace",
            "Forget workspace 'second'?\n(disk files won't be deleted)",
            None,
            DialogCallback::WorkspaceForget { name: "second".to_string() }
        ))
    );
    assert_eq!(
        workspace_step(&WorkspaceAction::StartRename("default".to_string())),
        WorkspaceStep::Show(input(
            "Rename Workspace",
            "New name for 'default' workspace",
            DialogCallback::WorkspaceRename { old_name: "default".to_string() }
        ))
    );
}

// ---------------------------------------------------------------------------
// Opening views
// ---------------------------------------------------------------------------

#[test]
fn evolog_opening() {
    assert_eq!(evolog_open(Ok(0)), EvologOpen::Empty(Notification::info("No evolution history for this change")));
    assert_eq!(evolog_open(Ok(3)), EvologOpen::Open);
    assert_eq!(evolog_open(Err("boom")), EvologOpen::Failed("Failed to load evolog: boom".to_string()));
}

#[test]
fn stack_diff_is_refused_past_two_hundred_changes() {
    assert_eq!(stack_diff_check(Ok(200)), None);
    assert_eq!(stack_diff_check(Ok(0)), None);
    assert_eq!(stack_diff_check(Ok(201)), Some("Stack too large: more than 200 changes".to_string()));
    assert_eq!(stack_diff_check(Err("boom")), Some("Failed to load stack diff: boom".to_string()));
}

#[test]
fn compare_failures_come_in_read_order() {
    assert_eq!(compare_failure(false, Ok(()), Ok(()), Ok(())), None);
    assert_eq!(
        compare_failure(false, Err("d"), Err("f"), Err("t")),
        Some("Failed to load diff: d".to_string())
    );
    assert_eq!(
        compare_failure(true, Err("d"), Ok(()), Ok(())),
        Some("Failed to load interdiff: d".to_string())
    );
    assert_eq!(
        compare_failure(true, Ok(()), Err("f"), Err("t")),
        Some("Failed to load from revision: f".to_string())
    );
    assert_eq!(
        compare_failure(false, Ok(()), Ok(()), Err("t")),
        Some("Failed to load to revision: t".to_string())
    );
}

#[test]
fn stack_revset_runs_up_to_the_working_copy() {
    assert_eq!(stack_revset("abc"), "(abc::@) | abc");
}

#[test]
fn log_order_notices() {
    assert_eq!(log_order_notice(true), info("Log order: oldest first"));
    assert_eq!(log_order_notice(false), info("Log order: newest first"));
}

#[test]
fn preview_toggle_drops_the_deferred_fetch() {
    let mut state = ViewState::new();
    assert!(state.preview_enabled);
    state.preview_pending_id = Some("abc".to_string());
    assert!(!state.toggle_preview());
    assert!(!state.preview_enabled);
    assert_eq!(state.preview_pending_id, None);
    assert!(state.toggle_preview());
    assert!(state.preview_enabled);
}

#[test]
fn bookmark_move_rename_and_track_operations() {
    let (n, d) = op_succeeded(&JjOp::BookmarkMove { name: "main".to_string() });
    assert_eq!(n.message, "Moved bookmark: main");
    assert_eq!(d, Some(DirtyFlags { log: true, status: false, op_log: true, bookmarks: true }));
    let (n, _) = op_succeeded(&JjOp::BookmarkRename { old_name: "a".to_string(), new_name: "b".to_string() });
    assert_eq!(n.message, "Renamed bookmark: a \u{2192} b");
    let (n, d) = op_succeeded(&JjOp::BookmarkTrack { full_names: vec!["x@origin".to_string()] });
    assert_eq!(n.message, "Started tracking: x");
    assert_eq!(d, Some(DirtyFlags { log: true, status: true, op_log: true, bookmarks: true }));
    let (n, _) = op_succeeded(&JjOp::BookmarkTrack {
        full_names: vec!["x@origin".to_string(), "y@origin".to_string()],
    });
    assert_eq!(n.message, "Started tracking: 2 bookmarks");
    assert_eq!(op_failed(&JjOp::BookmarkMove { name: "m".to_string() }, "e"), "Failed to move bookmark: e");
    assert_eq!(
        op_failed(&JjOp::BookmarkRename { old_name: "a".to_string(), new_name: "b".to_string() }, "e"),
        "Rename failed: e"
    );
    assert_eq!(op_failed(&JjOp::BookmarkTrack { full_names: vec![] }, "e"), "Failed to track: e");
}

#[test]
fn bulk_push_operation() {
    let (n, d) = op_succeeded(&JjOp::PushBulk { mode: PushBulkMode::TrackedOnly });
    assert_eq!(n.message, "Pushed tracked bookmarks");
    assert_eq!(d, Some(DirtyFlags { log: true, status: true, op_log: true, bookmarks: false }));
    assert_eq!(op_failed(&JjOp::PushBulk { mode: PushBulkMode::All }, "e"), "Push failed: e");
}

#[test]
fn output_dependent_operations() {
    let log_status = Some(DirtyFlags { log: true, status: true, op_log: true, bookmarks: false });
    assert_eq!(
        output_op_outcome(&OutputOp::Absorb, Ok("Nothing changed.")),
        (notice("Nothing to absorb", NotificationKind::Info), log_status)
    );
    assert_eq!(
        output_op_outcome(&OutputOp::Absorb, Ok("Absorbed changes into 2 revisions")),
        (notice("Absorb finished", NotificationKind::Success), log_status)
    );
    assert_eq!(
        output_op_outcome(&OutputOp::SimplifyParents { change_id: "abcdefghij".to_string() }, Ok("Removed 1 edge")),
        (notice("Simplified parents for abcdefgh (undo: u)", NotificationKind::Success), log_status)
    );
    assert_eq!(
        output_op_outcome(&OutputOp::Parallelize, Ok("")),
        (notice("Parallelized (undo: u)", NotificationKind::Success), log_status)
    );
    assert_eq!(
        output_op_outcome(&OutputOp::Fetch, Ok("\n")),
        (
            notice("Already up to date", NotificationKind::Info),
            Some(DirtyFlags { log: true, status: true, op_log: true, bookmarks: true })
        )
    );
    assert_eq!(
        output_op_outcome(&OutputOp::SimplifyParents { change_id: "x".to_string() }, Err("boom")),
        (Shown::Error("Simplify parents failed: boom".to_string()), None)
    );
    assert_eq!(
        output_op_outcome(&OutputOp::Parallelize, Err("boom")),
        (Shown::Error("Parallelize failed: boom".to_string()), None)
    );
}

#[test]
fn duplicate_outcomes() {
    assert_eq!(
        duplicate_outcome(Ok((Some("qwertyuiop"), true))),
        notice("Duplicated as qwertyui", NotificationKind::Success)
    );
    assert_eq!(
        duplicate_outcome(Ok((Some("qwertyuiop"), false))),
        notice("Duplicated as qwertyui (not in current revset)", NotificationKind::Success)
    );
    assert_eq!(duplicate_outcome(Ok((None, false))), notice("Duplicated successfully", NotificationKind::Success));
    assert_eq!(duplicate_outcome(Err("boom")), Shown::Error("Duplicate failed: boom".to_string()));
}

#[test]
fn next_and_prev_outcomes() {
    let n = tij::ops::next_prev_outcome("next", Ok("Working copy now at: abc def\nParent: x\n"));
    assert_eq!(n.kind, NotificationKind::Success);
    assert_eq!(n.message, "Moved next: Working copy now at: abc def");
    let n = tij::ops::next_prev_outcome("prev", Err("Error: No ancestor found"));
    assert_eq!(n.kind, NotificationKind::Warning);
    assert_eq!(n.message, "Already at the root");
}
