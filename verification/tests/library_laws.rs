use tij::actions::{
    absorb_notification, fetch_notification, format_next_prev_error, parse_next_prev_message,
    simplify_parents_notification, truncate_description, NotificationKind,
};
use tij::dialog::{Dialog, DialogCallback, DialogKind};
use tij::log_edit::{log_edit_step, EditStep, LogEditAction};
use tij::nav::{ForcedReload, RefreshNotice, Reload, ViewKind, ViewState};
use tij::preview::DiffContent;
use tij::push::{
    build_push_suffix, bulk_push_prompt, detect_push_retry_flags, format_preview_actions,
    plan_push_start, retry_notes_from_flags, single_push_prompt, PushBulkMode, PushPreviewAction,
    PushPreviewResult, PushPrompt, PushStart, ALLOW_EMPTY_DESC, ALLOW_PRIVATE,
};
use tij::rebase::{
    rebase_after_attempt, rebase_success_notification, start_rebase, RebaseMode, RebaseStep,
};
use tij::state::{DirtyFlags, PreviewCache, PreviewCacheEntry};

fn entry(id: &str, commit: &str) -> PreviewCacheEntry<DiffContent> {
    PreviewCacheEntry {
        change_id: id.to_string(),
        commit_id: commit.to_string(),
        content: DiffContent::default(),
        bookmarks: vec![],
    }
}

// ── preview cache laws on concrete values ────────────────────────

#[test]
fn cache_read_after_write() {
    let mut cache = PreviewCache::new();
    for i in 0..12 {
        cache.insert(entry(&format!("id{}", i), &format!("c{}", i)));
        let e = cache.peek(&format!("id{}", i)).unwrap();
        assert_eq!(e.commit_id, format!("c{}", i));
        assert!(cache.len() <= 8);
    }
}

#[test]
fn cache_remove_then_peek_finds_nothing() {
    let mut cache = PreviewCache::new();
    cache.insert(entry("a", "1"));
    cache.remove("a");
    assert!(cache.peek("a").is_none());
    cache.remove("never-there");
    assert_eq!(cache.len(), 0);
}

#[test]
fn cache_validate_twice_is_validate_once() {
    let mut cache = PreviewCache::new();
    cache.insert(entry("a", "1"));
    cache.insert(entry("b", "2"));
    let changes = vec![tij::revision::Change {
        change_id: "b".to_string(),
        commit_id: "2".to_string(),
        bookmarks: vec!["x".to_string()],
        ..Default::default()
    }];
    cache.validate(&changes);
    let after_one = (cache.len(), cache.peek("b").unwrap().bookmarks.clone());
    cache.validate(&changes);
    assert_eq!((cache.len(), cache.peek("b").unwrap().bookmarks.clone()), after_one);
    assert_eq!(after_one.0, 1);
}

// ── navigation laws on concrete values ───────────────────────────

#[test]
fn back_undoes_go_on_every_pair_of_views() {
    let views = [
        ViewKind::Log,
        ViewKind::Diff,
        ViewKind::Status,
        ViewKind::Operation,
        ViewKind::Blame,
        ViewKind::Resolve,
        ViewKind::Bookmark,
        ViewKind::Tag,
        ViewKind::Workspace,
        ViewKind::Evolog,
        ViewKind::CommandHistory,
        ViewKind::TraceDetail,
        ViewKind::Help,
    ];
    for &a in &views {
        for &b in &views {
            if a == ViewKind::Log || a == b || b == ViewKind::Log {
                continue;
            }
            let mut s = ViewState::new();
            s.go_to_view(a, None);
            let stack = s.view_stack.clone();
            s.go_to_view(b, None);
            s.go_back(None);
            assert_eq!(s.current_view, a);
            assert_eq!(s.view_stack, stack);
        }
    }
}

#[test]
fn forced_refresh_clears_only_its_own_flag() {
    let mut s = ViewState::new();
    s.dirty = DirtyFlags::all();
    s.current_view = ViewKind::Status;
    assert_eq!(s.execute_refresh(false), (ForcedReload::Status, RefreshNotice::Always));
    assert!(!s.dirty.status);
    assert!(s.dirty.log && s.dirty.op_log && s.dirty.bookmarks);

    s.current_view = ViewKind::Diff;
    assert_eq!(s.execute_refresh(false), (ForcedReload::Nothing, RefreshNotice::Never));
    assert_eq!(s.execute_refresh(true), (ForcedReload::Diff, RefreshNotice::Always));
    s.current_view = ViewKind::Evolog;
    assert_eq!(s.execute_refresh(true), (ForcedReload::Evolog, RefreshNotice::WhenQuiet));
    s.current_view = ViewKind::Help;
    assert_eq!(s.execute_refresh(true), (ForcedReload::Nothing, RefreshNotice::Never));
    assert!(s.dirty.log && s.dirty.op_log && s.dirty.bookmarks);
}

#[test]
fn mark_dirty_reloads_the_visible_view_only() {
    let mut s = ViewState::new();
    let plan = s.mark_dirty_and_refresh_current(DirtyFlags::log_and_status());
    assert_eq!(plan.reload, Reload::Log);
    assert!(!plan.clear_preview_cache);
    assert!(!s.dirty.log);
    assert!(s.dirty.status);
    let plan = s.mark_dirty_and_refresh_current(DirtyFlags::all());
    assert!(plan.clear_preview_cache);
}

// ── truncation law ───────────────────────────────────────────────

#[test]
fn truncated_descriptions_fit_their_limit() {
    for max in 0..12usize {
        for s in ["", "ab", "abcdef", "日本語のテスト", "exactly-ten"] {
            let t = truncate_description(s, max);
            assert!(t.chars().count() <= max, "{:?} at {}", s, max);
            if s.chars().count() <= max {
                assert_eq!(t, s);
            }
        }
    }
}

// ── rebase decisions ─────────────────────────────────────────────

#[test]
fn rebase_onto_itself_is_refused() {
    match start_rebase("abc", "abc", true) {
        RebaseStep::Refused(n) => {
            assert_eq!(n.message, "Cannot rebase to itself");
            assert_eq!(n.kind, NotificationKind::Warning);
        }
        other => panic!("unexpected {:?}", other),
    }
    assert_eq!(start_rebase("abc", "def", true), RebaseStep::Run { skip_emptied: true });
}

#[test]
fn rebase_retries_once_without_skip_emptied() {
    let unknown = "error: unexpected argument '--skip-emptied' found";
    assert_eq!(
        rebase_after_attempt(RebaseMode::Source, "dest", true, false, Err(unknown)),
        RebaseStep::Run { skip_emptied: false }
    );
    // The retry failing the same way is an error, not a second retry.
    assert_eq!(
        rebase_after_attempt(RebaseMode::Source, "dest", true, true, Err(unknown)),
        RebaseStep::Failed(format!("Rebase failed: {}", unknown))
    );
    // Without --skip-emptied an unknown flag in branch mode means -b.
    match rebase_after_attempt(RebaseMode::Branch, "dest", false, false, Err("unknown flag -b")) {
        RebaseStep::Refused(n) => assert_eq!(
            n.message,
            "Branch mode (-b) not supported in this jj version. Use Source mode (-s) instead."
        ),
        other => panic!("unexpected {:?}", other),
    }
    assert_eq!(
        rebase_after_attempt(RebaseMode::Revision, "dest", false, false, Err("boom")),
        RebaseStep::Failed("Rebase failed: boom".to_string())
    );
}

#[test]
fn rebase_success_wording_per_mode() {
    let n = rebase_success_notification("Rebased 2 commits", "0123456789ab", RebaseMode::InsertAfter, true);
    assert_eq!(n.message, "Inserted after 01234567 successfully (empty commits skipped)");
    assert_eq!(n.kind, NotificationKind::Success);
    let n = rebase_success_notification("", "xyz", RebaseMode::InsertBefore, false);
    assert_eq!(n.message, "Inserted before xyz successfully");
    let n = rebase_success_notification("", "d", RebaseMode::Source, false);
    assert_eq!(n.message, "Rebased source and descendants successfully");
    let n = rebase_success_notification("", "d", RebaseMode::Branch, false);
    assert_eq!(n.message, "Rebased branch successfully");
    let n = rebase_success_notification("New CONFLICTS in 1 commit", "d", RebaseMode::Revision, true);
    assert_eq!(n.kind, NotificationKind::Warning);
    assert_eq!(n.message, "Rebased with conflicts - resolve with jj resolve");
}

// ── log editing dialogs ──────────────────────────────────────────

#[test]
fn log_edit_dialogs() {
    match log_edit_step(&LogEditAction::Revert { revision: "abcdef123456".to_string() }, false) {
        EditStep::Dialog(d) => {
            assert_eq!(d.title, "Revert Change");
            assert_eq!(d.message, "Revert changes from abcdef12?");
            assert_eq!(
                d.kind,
                DialogKind::Confirm {
                    detail: Some("Creates a new commit that undoes these changes. Undo with 'u' if needed.".to_string())
                }
            );
            assert_eq!(d.callback, DialogCallback::Revert { change_id: "abcdef123456".to_string() });
        }
        other => panic!("unexpected {:?}", other),
    }
    match log_edit_step(&LogEditAction::SimplifyParents { revision: "abc".to_string() }, false) {
        EditStep::Dialog(d) => {
            assert_eq!(d.message, "Simplify parents for abc?");
            assert_eq!(d.kind, DialogKind::Confirm { detail: None });
            assert_eq!(d.callback, DialogCallback::SimplifyParents { change_id: "abc".to_string() });
        }
        other => panic!("unexpected {:?}", other),
    }
    let fix = LogEditAction::Fix { revision: "abcdef123456".to_string(), change_id: "k".to_string() };
    assert_eq!(
        log_edit_step(&fix, true),
        EditStep::Error("Cannot fix: commit is immutable".to_string())
    );
    match log_edit_step(&fix, false) {
        EditStep::Dialog(Dialog { title, message, kind: DialogKind::Select { items, single: true, .. }, callback }) => {
            assert_eq!(title, "Fix");
            assert_eq!(message, "Apply code formatters to abcdef12 and descendants");
            assert_eq!(
                callback,
                DialogCallback::Fix { revision: "abcdef123456".to_string(), change_id: "k".to_string() }
            );
            let values: Vec<&str> = items.iter().map(|i| i.value.as_str()).collect();
            assert_eq!(values, vec!["default", "all-lines"]);
        }
        other => panic!("unexpected {:?}", other),
    }
    let meta = LogEditAction::Metaedit { change_id: "qwertyuiop".to_string(), commit_id: "c".to_string() };
    assert_eq!(
        log_edit_step(&meta, true),
        EditStep::Error("Cannot metaedit: commit is immutable".to_string())
    );
    match log_edit_step(&meta, false) {
        EditStep::Dialog(Dialog { message, kind: DialogKind::Select { items, single: true, .. }, callback, .. }) => {
            assert_eq!(message, "Edit metadata for qwertyui");
            assert_eq!(
                callback,
                DialogCallback::MetaeditSelect { commit_id: "c".to_string(), change_id: "qwertyuiop".to_string() }
            );
            assert_eq!(items.len(), 5);
            assert_eq!(items[1].label, "Set author...");
        }
        other => panic!("unexpected {:?}", other),
    }
    assert_eq!(
        log_edit_step(&LogEditAction::NewChangeFromCurrent, false),
        EditStep::Info("Use 'c' to create from current change".to_string())
    );
}

// ── push flow decisions ──────────────────────────────────────────

#[test]
fn push_start_steps() {
    assert_eq!(plan_push_start(false, Some(2), 1), PushStart::SelectRemote);
    assert_eq!(plan_push_start(true, Some(2), 1), PushStart::PreviewSingle);
    assert_eq!(plan_push_start(false, None, 0), PushStart::SelectMode);
    assert_eq!(plan_push_start(false, Some(1), 3), PushStart::SelectMultiMode);
}

#[test]
fn push_retry_flags_and_suffix() {
    let both = "Won't push commit a since it is private\nWon't push commit b since it has no description";
    assert_eq!(detect_push_retry_flags(both), vec![ALLOW_PRIVATE, ALLOW_EMPTY_DESC]);
    assert!(detect_push_retry_flags("network down").is_empty());
    let notes = retry_notes_from_flags(&[ALLOW_EMPTY_DESC, ALLOW_PRIVATE]);
    assert_eq!(notes, vec!["private commit allowed", "empty description allowed"]);
    assert_eq!(
        build_push_suffix(true, &notes),
        " (used deprecated --allow-new + private commit allowed + empty description allowed)"
    );
    assert_eq!(build_push_suffix(false, &[]), "");
}

#[test]
fn push_prompts_warn_on_force() {
    let forward = PushPreviewResult::Changes(vec![PushPreviewAction::MoveForward {
        bookmark: "feat".to_string(),
        from: "1111111111".to_string(),
        to: "2222222222".to_string(),
    }]);
    match single_push_prompt("feat", Some(&forward)) {
        PushPrompt::Confirm(c) => {
            assert_eq!(c.message, "Push bookmark \"feat\"?\nMove forward feat from 11111111.. to 22222222..");
            assert_eq!(c.detail, "Remote changes cannot be undone with 'u'.");
        }
        other => panic!("unexpected {:?}", other),
    }
    let sideways = PushPreviewResult::Changes(vec![PushPreviewAction::MoveSideways {
        bookmark: "main".to_string(),
        from: "1111111111".to_string(),
        to: "2222222222".to_string(),
    }]);
    match single_push_prompt("main", Some(&sideways)) {
        PushPrompt::Confirm(c) => {
            assert!(c.message.starts_with("\u{26A0} FORCE PUSH to protected bookmark \"main\"!"));
            assert!(c.detail.starts_with("WARNING"));
        }
        other => panic!("unexpected {:?}", other),
    }
    assert_eq!(
        single_push_prompt("x", Some(&PushPreviewResult::NothingChanged)),
        PushPrompt::Nothing("Nothing to push: x is already up to date".to_string())
    );
    assert_eq!(
        bulk_push_prompt(PushBulkMode::TrackedOnly, Err("offline")),
        PushPrompt::Failed("Push failed: offline".to_string())
    );
    assert_eq!(
        bulk_push_prompt(PushBulkMode::All, Ok((&PushPreviewResult::NothingChanged, ""))),
        PushPrompt::Nothing("Nothing to push (all bookmarks)".to_string())
    );
    let adds = vec![PushPreviewAction::Add { bookmark: "n".to_string(), to: "abcdef0123".to_string() }];
    assert_eq!(format_preview_actions(&adds), "Add n to abcdef01..");
}

// ── notices from command output ──────────────────────────────────

#[test]
fn notices_from_command_output() {
    assert_eq!(absorb_notification("  ").kind, NotificationKind::Info);
    assert_eq!(absorb_notification("Absorbed changes into 2 revisions").message, "Absorb finished");
    let n = simplify_parents_notification("Removed 1 edges", "abcdefghijk");
    assert_eq!(n.kind, NotificationKind::Success);
    assert!(n.message.starts_with("Simplified parents for "));
    assert!(n.message.ends_with(" (undo: u)"));
    assert_eq!(fetch_notification("").message, "Already up to date");
    assert_eq!(fetch_notification("bookmark: main@origin [new]").message, "Fetched from remote");
    let m = parse_next_prev_message("Working copy now at: abc", "next");
    assert!(!m.is_empty());
    let e = format_next_prev_error("Error: No descendant found", "next");
    assert!(!e.is_empty());
}

#[test]
fn palette_move_and_back_returns_to_the_same_command() {
    for len in 1..6usize {
        for start in 0..len {
            for delta in [-7isize, -1, 1, 3, 12] {
                let mut state = ViewState::new();
                state.palette_selected = start;
                state.palette_move(delta, len);
                state.palette_move(-delta, len);
                assert_eq!(state.palette_selected, start);
            }
        }
    }
}
