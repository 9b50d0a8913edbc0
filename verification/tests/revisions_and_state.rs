use tij::nav::{refresh_log, Reload, ViewKind, ViewState};
use tij::preview::DiffContent;
use tij::revision::{
    change_id_for_commit, commit_id_for_change, is_root_by_commit_id, short_id, Change, LogView,
    SelectedRevision,
};
use tij::state::{
    resolve_pending_preview, store_preview, update_preview_if_needed, DirtyFlags, PreviewCache,
    PreviewCacheEntry,
};

fn make_change(change_id: &str, commit_id: &str) -> Change {
    Change {
        change_id: change_id.to_string(),
        commit_id: commit_id.to_string(),
        ..Default::default()
    }
}

fn make_entry(change_id: &str, commit_id: &str) -> PreviewCacheEntry<DiffContent> {
    PreviewCacheEntry {
        change_id: change_id.to_string(),
        commit_id: commit_id.to_string(),
        content: DiffContent::default(),
        bookmarks: vec![],
    }
}

// ── short_id ─────────────────────────────────────────────────────

#[test]
fn test_short_id_normal() {
    assert_eq!(short_id("abcdef1234567890"), "abcdef12");
}

#[test]
fn test_short_id_exact_8() {
    assert_eq!(short_id("abcdef12"), "abcdef12");
}

#[test]
fn test_short_id_short_input() {
    assert_eq!(short_id("abc"), "abc");
}

#[test]
fn test_short_id_empty() {
    assert_eq!(short_id(""), "");
}

// ── change_id_for_commit / commit_id_for_change ─────────────────

#[test]
fn test_change_id_for_commit_found() {
    let changes = vec![make_change("aaa11111", "bbb22222")];
    assert_eq!(change_id_for_commit(&changes, "bbb22222"), Some("aaa11111"));
}

#[test]
fn test_change_id_for_commit_not_found() {
    let changes = vec![make_change("aaa11111", "bbb22222")];
    assert_eq!(change_id_for_commit(&changes, "ccc33333"), None);
}

#[test]
fn test_change_id_for_commit_empty_list() {
    let changes: Vec<Change> = vec![];
    assert_eq!(change_id_for_commit(&changes, "bbb22222"), None);
}

#[test]
fn test_commit_id_for_change_found() {
    let changes = vec![make_change("aaa11111", "bbb22222")];
    assert_eq!(commit_id_for_change(&changes, "aaa11111"), Some("bbb22222"));
}

#[test]
fn test_commit_id_for_change_not_found() {
    let changes = vec![make_change("aaa11111", "bbb22222")];
    assert_eq!(commit_id_for_change(&changes, "xxx99999"), None);
}

#[test]
fn test_commit_id_for_change_divergent_returns_first() {
    let changes = vec![
        make_change("aaa11111", "bbb22222"),
        make_change("aaa11111", "ccc33333"),
    ];
    assert_eq!(commit_id_for_change(&changes, "aaa11111"), Some("bbb22222"));
}

#[test]
fn test_is_root_by_commit_id_true() {
    let changes = vec![
        make_change("zzzzzzzz", "root_cid"),
        make_change("normal11", "normal22"),
    ];
    assert!(is_root_by_commit_id(&changes, "root_cid"));
}

#[test]
fn test_is_root_by_commit_id_false() {
    let changes = vec![
        make_change("zzzzzzzz", "root_cid"),
        make_change("normal11", "normal22"),
    ];
    assert!(!is_root_by_commit_id(&changes, "normal22"));
}

#[test]
fn test_is_root_by_commit_id_unknown() {
    let changes = vec![make_change("normal11", "normal22")];
    assert!(!is_root_by_commit_id(&changes, "unknown_"));
}

#[test]
fn selected_revision_reads_the_cursor_row() {
    let mut wc = make_change("wcwcwcwc", "c0");
    wc.is_working_copy = true;
    let view = LogView { changes: vec![make_change("aaa", "c1"), wc], selected_index: 1 };
    let sel = SelectedRevision::from_log_view(&view).unwrap();
    assert_eq!(sel.change_id, "wcwcwcwc");
    assert_eq!(sel.commit_id, "c0");
    assert!(sel.is_working_copy);
    let past_end = LogView { changes: vec![], selected_index: 0 };
    assert!(SelectedRevision::from_log_view(&past_end).is_none());
}

// ── DirtyFlags ───────────────────────────────────────────────────

#[test]
fn dirty_flags_log_includes_op_log() {
    let flags = DirtyFlags::log();
    assert!(flags.log);
    assert!(flags.op_log);
    assert!(!flags.status);
    assert!(!flags.bookmarks);
}

#[test]
fn dirty_flags_log_and_status_includes_op_log() {
    let flags = DirtyFlags::log_and_status();
    assert!(flags.log);
    assert!(flags.status);
    assert!(flags.op_log);
    assert!(!flags.bookmarks);
}

#[test]
fn dirty_flags_log_and_bookmarks_includes_op_log() {
    let flags = DirtyFlags::log_and_bookmarks();
    assert!(flags.log);
    assert!(!flags.status);
    assert!(flags.op_log);
    assert!(flags.bookmarks);
}

#[test]
fn dirty_flags_all_sets_everything() {
    let flags = DirtyFlags::all();
    assert!(flags.log);
    assert!(flags.status);
    assert!(flags.op_log);
    assert!(flags.bookmarks);
}

#[test]
fn dirty_flags_default_is_all_false() {
    let flags = DirtyFlags::default();
    assert!(!flags.log);
    assert!(!flags.status);
    assert!(!flags.op_log);
    assert!(!flags.bookmarks);
}

// ── navigation ───────────────────────────────────────────────────

#[test]
fn go_to_view_status_skips_refresh_when_not_dirty() {
    let mut app = ViewState::new();
    app.dirty.status = false;
    let reload = app.go_to_view(ViewKind::Status, None);
    assert_eq!(app.current_view, ViewKind::Status);
    assert_eq!(reload, Reload::Nothing);
}

#[test]
fn go_to_view_operation_skips_refresh_when_not_dirty() {
    let mut app = ViewState::new();
    app.dirty.op_log = false;
    let reload = app.go_to_view(ViewKind::Operation, None);
    assert_eq!(app.current_view, ViewKind::Operation);
    assert_eq!(reload, Reload::Nothing);
}

#[test]
fn go_back_pops_the_breadcrumb() {
    let mut app = ViewState::new();
    app.go_to_view(ViewKind::Help, None);
    assert_eq!(app.current_view, ViewKind::Help);
    assert_eq!(app.previous_view(), Some(ViewKind::Log));
    app.go_back(None);
    assert_eq!(app.current_view, ViewKind::Log);
    assert_eq!(app.previous_view(), None);
}

#[test]
fn go_back_defaults_to_log_when_stack_empty() {
    let mut app = ViewState::new();
    app.current_view = ViewKind::Diff;
    app.view_stack.clear();
    app.go_back(None);
    assert_eq!(app.current_view, ViewKind::Log);
}

#[test]
fn nested_back_unwinds_one_level_no_loop() {
    let mut app = ViewState::new();
    app.go_to_view(ViewKind::Diff, None);
    app.go_to_view(ViewKind::Blame, None);
    assert_eq!(app.view_stack, vec![ViewKind::Log, ViewKind::Diff]);
    app.go_back(None);
    assert_eq!(app.current_view, ViewKind::Diff, "Blame → Diff");
    app.go_back(None);
    assert_eq!(app.current_view, ViewKind::Log, "Diff → Log (not back to Blame)");
}

#[test]
fn nested_back_through_status_reaches_true_parent() {
    let mut app = ViewState::new();
    app.go_to_view(ViewKind::Status, None);
    app.go_to_view(ViewKind::Diff, None);
    app.go_to_view(ViewKind::Blame, None);
    app.go_back(None);
    assert_eq!(app.current_view, ViewKind::Diff);
    app.go_back(None);
    assert_eq!(app.current_view, ViewKind::Status, "Diff → Status, not Log");
    app.go_back(None);
    assert_eq!(app.current_view, ViewKind::Log);
}

#[test]
fn revisiting_ancestor_unwinds_instead_of_growing() {
    let mut app = ViewState::new();
    app.go_to_view(ViewKind::Diff, None);
    app.go_to_view(ViewKind::Log, None);
    assert_eq!(app.current_view, ViewKind::Log);
    assert!(app.view_stack.is_empty(), "breadcrumb unwound to root");
}

#[test]
fn go_to_view_bookmark_to_tag_clears_stale_create_target() {
    let mut app = ViewState::new();
    app.create_target = Some("STALE".to_string());
    app.current_view = ViewKind::Bookmark;
    app.go_to_view(ViewKind::Tag, Some("selected".to_string()));
    assert_eq!(app.create_target, None);
}

#[test]
fn go_to_view_tag_to_bookmark_clears_stale_create_target() {
    let mut app = ViewState::new();
    app.create_target = Some("STALE".to_string());
    app.current_view = ViewKind::Tag;
    app.go_to_view(ViewKind::Bookmark, Some("selected".to_string()));
    assert_eq!(app.create_target, None);
}

#[test]
fn go_to_view_non_log_to_bookmark_clears_create_target() {
    let mut app = ViewState::new();
    app.create_target = Some("STALE".to_string());
    app.current_view = ViewKind::Status;
    app.go_to_view(ViewKind::Bookmark, Some("selected".to_string()));
    assert_eq!(app.create_target, None);
}

#[test]
fn opening_bookmark_view_from_log_captures_selected_change() {
    let mut app = ViewState::new();
    app.go_to_view(ViewKind::Bookmark, Some("xyzxyzxy".to_string()));
    assert_eq!(app.create_target, Some("xyzxyzxy".to_string()));
    assert_eq!(app.create_target_revset(), "xyzxyzxy");
}

#[test]
fn create_target_revset_defaults_to_at() {
    let app = ViewState::new();
    assert_eq!(app.create_target_revset(), "@");
}

#[test]
fn init_dirty_flags() {
    let app = ViewState::new();
    assert!(!app.dirty.log);
    assert!(app.dirty.status);
    assert!(app.dirty.op_log);
    assert!(app.dirty.bookmarks);
}

// ── PreviewCache ─────────────────────────────────────────────────

#[test]
fn preview_cache_insert_and_peek() {
    let mut cache = PreviewCache::new();
    assert_eq!(cache.len(), 0);
    cache.insert(make_entry("aaa", "c1"));
    assert_eq!(cache.len(), 1);
    assert!(cache.peek("aaa").is_some());
    assert!(cache.peek("bbb").is_none());
}

#[test]
fn preview_cache_insert_replaces_same_change_id() {
    let mut cache = PreviewCache::new();
    cache.insert(make_entry("aaa", "c1"));
    cache.insert(make_entry("aaa", "c2"));
    assert_eq!(cache.len(), 1);
    assert_eq!(cache.peek("aaa").unwrap().commit_id, "c2");
}

#[test]
fn preview_cache_evicts_lru_at_capacity() {
    let mut cache = PreviewCache::new();
    for i in 0..8 {
        cache.insert(make_entry(&format!("id{}", i), &format!("c{}", i)));
    }
    assert_eq!(cache.len(), 8);
    cache.insert(make_entry("id8", "c8"));
    assert_eq!(cache.len(), 8);
    assert!(cache.peek("id0").is_none());
    assert!(cache.peek("id8").is_some());
}

#[test]
fn preview_cache_touch_promotes_to_mru() {
    let mut cache = PreviewCache::new();
    for i in 0..8 {
        cache.insert(make_entry(&format!("id{}", i), &format!("c{}", i)));
    }
    cache.touch("id0");
    cache.insert(make_entry("id8", "c8"));
    assert_eq!(cache.len(), 8);
    assert!(cache.peek("id0").is_some());
    assert!(cache.peek("id1").is_none());
}

#[test]
fn preview_cache_remove() {
    let mut cache = PreviewCache::new();
    cache.insert(make_entry("aaa", "c1"));
    cache.insert(make_entry("bbb", "c2"));
    assert_eq!(cache.len(), 2);
    cache.remove("aaa");
    assert_eq!(cache.len(), 1);
    assert!(cache.peek("aaa").is_none());
    assert!(cache.peek("bbb").is_some());
}

#[test]
fn preview_cache_clear() {
    let mut cache = PreviewCache::new();
    cache.insert(make_entry("aaa", "c1"));
    cache.insert(make_entry("bbb", "c2"));
    cache.clear();
    assert_eq!(cache.len(), 0);
}

#[test]
fn preview_cache_validate_keeps_matching() {
    let mut cache = PreviewCache::new();
    cache.insert(PreviewCacheEntry {
        change_id: "aaa".to_string(),
        commit_id: "c1".to_string(),
        content: DiffContent::default(),
        bookmarks: vec!["old-bm".to_string()],
    });
    let changes = vec![Change {
        change_id: "aaa".to_string(),
        commit_id: "c1".to_string(),
        bookmarks: vec!["new-bm".to_string()],
        ..Change::default()
    }];
    cache.validate(&changes);
    assert_eq!(cache.len(), 1);
    assert_eq!(cache.peek("aaa").unwrap().bookmarks, vec!["new-bm".to_string()]);
}

#[test]
fn preview_cache_validate_evicts_stale_commit() {
    let mut cache = PreviewCache::new();
    cache.insert(make_entry("aaa", "c1"));
    let changes = vec![make_change("aaa", "c2")];
    cache.validate(&changes);
    assert_eq!(cache.len(), 0);
}

#[test]
fn preview_cache_validate_evicts_absent() {
    let mut cache = PreviewCache::new();
    cache.insert(make_entry("aaa", "c1"));
    cache.validate(&[]);
    assert_eq!(cache.len(), 0);
}

#[test]
fn preview_cache_validate_skips_graph_only() {
    let mut cache = PreviewCache::new();
    cache.insert(make_entry("aaa", "c1"));
    let changes = vec![Change {
        change_id: "aaa".to_string(),
        commit_id: "c1".to_string(),
        is_graph_only: true,
        ..Change::default()
    }];
    cache.validate(&changes);
    assert_eq!(cache.len(), 0);
}

#[test]
fn test_preview_cache_validated_on_refresh_log() {
    let mut cache = PreviewCache::new();
    cache.insert(PreviewCacheEntry {
        change_id: "abc12345".to_string(),
        commit_id: "commit_aaa".to_string(),
        content: DiffContent {
            author: "alice@example.com".to_string(),
            description: "Old description".to_string(),
            ..DiffContent::default()
        },
        bookmarks: vec!["main".to_string()],
    });
    let changes = vec![Change {
        change_id: "abc12345".to_string(),
        commit_id: "commit_aaa".to_string(),
        bookmarks: vec!["main".to_string(), "dev".to_string()],
        ..Change::default()
    }];
    cache.validate(&changes);
    assert_eq!(cache.len(), 1);
    let entry = cache.peek("abc12345").unwrap();
    assert_eq!(entry.bookmarks, vec!["main".to_string(), "dev".to_string()]);
    let changes_stale = vec![make_change("abc12345", "commit_bbb")];
    cache.validate(&changes_stale);
    assert_eq!(cache.len(), 0);
}

// ── preview scheduling ───────────────────────────────────────────

#[test]
fn update_preview_schedules_pending_on_cache_miss() {
    let mut cache: PreviewCache<DiffContent> = PreviewCache::new();
    let mut pending = None;
    let selected = make_change("aaa", "c1");
    update_preview_if_needed(true, Some(&selected), &mut cache, &mut pending);
    assert_eq!(pending.as_deref(), Some("aaa"));
}

#[test]
fn update_preview_skips_when_cache_hit() {
    let mut cache = PreviewCache::new();
    cache.insert(make_entry("aaa", "c1"));
    let mut pending = None;
    let selected = make_change("aaa", "c1");
    update_preview_if_needed(true, Some(&selected), &mut cache, &mut pending);
    assert!(pending.is_none());
}

#[test]
fn update_preview_schedules_on_stale_commit_id() {
    let mut cache = PreviewCache::new();
    cache.insert(make_entry("aaa", "c1"));
    let mut pending = None;
    let selected = make_change("aaa", "c2");
    update_preview_if_needed(true, Some(&selected), &mut cache, &mut pending);
    assert_eq!(pending.as_deref(), Some("aaa"));
}

#[test]
fn update_preview_noop_when_disabled() {
    let mut cache: PreviewCache<DiffContent> = PreviewCache::new();
    let mut pending = None;
    let selected = make_change("aaa", "c1");
    update_preview_if_needed(false, Some(&selected), &mut cache, &mut pending);
    assert!(pending.is_none());
}

#[test]
fn resolve_pending_preview_fetches_only_the_still_selected_change() {
    let selected = make_change("aaa", "c1");
    let mut pending = Some("aaa".to_string());
    assert_eq!(
        resolve_pending_preview(true, false, Some(&selected), &mut pending),
        Some("aaa".to_string())
    );
    assert!(pending.is_none());

    let mut pending = Some("bbb".to_string());
    assert_eq!(resolve_pending_preview(true, false, Some(&selected), &mut pending), None);
    assert!(pending.is_none(), "the schedule is consumed either way");

    let mut pending = Some("aaa".to_string());
    assert_eq!(resolve_pending_preview(true, true, Some(&selected), &mut pending), None);
    assert_eq!(pending.as_deref(), Some("aaa"), "kept while the pane is hidden");
}

#[test]
fn store_preview_inserts_or_drops() {
    let mut cache = PreviewCache::new();
    let mut selected = make_change("aaa", "c7");
    selected.bookmarks = vec!["main".to_string()];
    store_preview(&mut cache, "aaa", Some(&selected), Some(DiffContent::default()));
    let e = cache.peek("aaa").unwrap();
    assert_eq!(e.commit_id, "c7");
    assert_eq!(e.bookmarks, vec!["main".to_string()]);

    store_preview::<DiffContent>(&mut cache, "aaa", Some(&selected), None);
    assert!(cache.peek("aaa").is_none());

    // The cursor moved meanwhile: stored without the row's data.
    store_preview(&mut cache, "bbb", Some(&selected), Some(DiffContent::default()));
    let e = cache.peek("bbb").unwrap();
    assert_eq!(e.commit_id, "");
    assert!(e.bookmarks.is_empty());
}

#[test]
fn refresh_log_installs_rows_and_checks_the_cache() {
    let mut nav = ViewState::new();
    nav.preview_pending_id = Some("a".to_string());
    let mut log = LogView { changes: vec![make_change("a", "1"), make_change("b", "2"), make_change("c", "3")], selected_index: 2 };
    let mut cache: PreviewCache<DiffContent> = PreviewCache::new();
    cache.insert(make_entry("a", "1"));
    cache.insert(make_entry("b", "old"));
    let truncated = refresh_log(&mut nav, &mut log, &mut cache, vec![make_change("a", "1"), make_change("b", "2")], 2);
    assert!(truncated);
    assert_eq!(log.changes.len(), 2);
    assert_eq!(log.selected_index, 0);
    assert_eq!(nav.preview_pending_id, None);
    assert!(cache.peek("a").is_some());
    assert!(cache.peek("b").is_none());
    let truncated = refresh_log(&mut nav, &mut log, &mut cache, vec![make_change("a", "1")], 200);
    assert!(!truncated);
}

#[test]
fn short_id_counts_characters_not_bytes() {
    assert_eq!(short_id("日本abcdef"), "日本abcdef");
    assert_eq!(short_id("日本語の"), "日本語の");
    assert_eq!(short_id("日本語のテキストです"), "日本語のテキスト");
}
