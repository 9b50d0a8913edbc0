use tij::actions::{Notification, NotificationKind};
use tij::bookmark::{
    bookmark_kind, start_fetch_branch_select, start_track, BookmarkEntry, BookmarkKind, FetchBranchStart,
    TrackStart,
};
use tij::diff_format::{
    compare_copy_text, copy_fetch, copy_outcome, diff_fetch, export_fetch, export_outcome, format_cycle_outcome,
    DiffDisplayFormat, DiffFetch, DiffText, FORMAT_COUNT,
};
use tij::fetch::{fetch_branch_outcome, fetch_outcome, fetch_target, FetchTarget};
use tij::ops::Shown;
use tij::preview::{parse_summary_line, DiffLineKind, FileOperation};
use tij::dialog::{Dialog, DialogCallback, DialogKind};
use tij::log_edit::SelectItem;
use tij::push::{individual_push_dialog, individual_push_item, PushPreviewAction, PushPreviewResult};

fn select_items(d: Dialog, single: bool) -> Vec<SelectItem> {
    match d.kind {
        DialogKind::Select { items, single: s, .. } if s == single => items,
        other => panic!("expected a selection, got {:?}", other),
    }
}

fn notice(message: &str, kind: NotificationKind) -> Shown {
    Shown::Notice(Notification { message: message.to_string(), kind })
}

fn entry(name: &str, remote: Option<&str>, is_tracked: bool, change_id: Option<&str>) -> BookmarkEntry {
    BookmarkEntry {
        name: name.to_string(),
        remote: remote.map(str::to_string),
        is_tracked,
        change_id: change_id.map(str::to_string),
    }
}

// ---------------------------------------------------------------------------
// Display formats
// ---------------------------------------------------------------------------

#[test]
fn formats_cycle_color_words_stat_git() {
    let f = DiffDisplayFormat::ColorWords;
    assert_eq!(f.next(), DiffDisplayFormat::Stat);
    assert_eq!(f.next().next(), DiffDisplayFormat::Git);
    assert_eq!(f.next().next().next(), f);
    assert_eq!(FORMAT_COUNT, 3);
    let labels: Vec<&str> = [DiffDisplayFormat::ColorWords, DiffDisplayFormat::Stat, DiffDisplayFormat::Git]
        .iter()
        .map(|f| f.label())
        .collect();
    assert_eq!(labels, vec!["color-words", "stat", "git"]);
    assert_eq!(DiffDisplayFormat::Git.position(), 3);
}

#[test]
fn each_format_reads_its_own_output() {
    assert_eq!(
        diff_fetch(DiffDisplayFormat::Stat, "abc", None),
        DiffFetch::ShowStat { change_id: "abc".to_string() }
    );
    assert_eq!(
        diff_fetch(DiffDisplayFormat::Git, "abc", Some(("a1", "b2"))),
        DiffFetch::RangeGit { from: "a1".to_string(), to: "b2".to_string() }
    );
    assert_eq!(
        diff_fetch(DiffDisplayFormat::ColorWords, "abc", Some(("a1", "b2"))),
        DiffFetch::Range { from: "a1".to_string(), to: "b2".to_string() }
    );
}

#[test]
fn switching_reports_the_new_format_or_keeps_the_old() {
    assert_eq!(
        format_cycle_outcome(DiffDisplayFormat::ColorWords, Ok(())),
        (DiffDisplayFormat::Stat, notice("Display: stat (2/3)", NotificationKind::Info))
    );
    assert_eq!(
        format_cycle_outcome(DiffDisplayFormat::Git, Ok(())),
        (DiffDisplayFormat::ColorWords, notice("Display: color-words (1/3)", NotificationKind::Info))
    );
    assert_eq!(
        format_cycle_outcome(DiffDisplayFormat::Stat, Err("boom")),
        (DiffDisplayFormat::Stat, Shown::Error("Failed to load git format: boom".to_string()))
    );
}

// ---------------------------------------------------------------------------
// Copy and export
// ---------------------------------------------------------------------------

#[test]
fn mod_test_export_compare_mode_uses_diff_range_not_show() {
    let (text, label) = export_fetch("zzzz0000", Some(("aaaa1111", "bbbb2222")));
    assert_eq!(text, DiffText::RangeGit { from: "aaaa1111".to_string(), to: "bbbb2222".to_string() });
    assert_eq!(label, "aaaa1111_bbbb2222");
    // Without a repository the read fails and an error is shown.
    assert!(matches!(export_outcome(Err("not a repo"), "x.patch", Ok(())), Shown::Error(_)));
}

#[test]
fn actions_test_export_compare_mode_uses_diff_range_not_show() {
    let (text, _) = export_fetch("zzzz0000", Some(("aaaa1111", "bbbb2222")));
    assert!(matches!(text, DiffText::RangeGit { .. }));
    assert!(matches!(export_outcome(Err("not a repo"), "x.patch", Ok(())), Shown::Error(_)));
}

#[test]
fn mod_test_copy_clipboard_compare_mode_uses_diff_range() {
    let pair = Some(("cccc3333", "dddd4444"));
    for full in [true, false] {
        assert_eq!(
            copy_fetch(full, "x", pair),
            DiffText::Range { from: "cccc3333".to_string(), to: "dddd4444".to_string() }
        );
        assert!(matches!(copy_outcome(full, Err("not a repo"), Ok(())), Shown::Error(_)));
    }
}

#[test]
fn actions_test_copy_clipboard_compare_mode_uses_diff_range() {
    assert!(matches!(copy_fetch(true, "x", Some(("cccc3333", "dddd4444"))), DiffText::Range { .. }));
    assert!(matches!(copy_fetch(false, "x", Some(("cccc3333", "dddd4444"))), DiffText::Range { .. }));
    assert!(matches!(copy_outcome(true, Err("not a repo"), Ok(())), Shown::Error(_)));
}

#[test]
fn mod_test_export_normal_mode_uses_diff_git() {
    let (text, label) = export_fetch("testid12345", None);
    assert_eq!(text, DiffText::DiffGit { change_id: "testid12345".to_string() });
    assert_eq!(label, "testid12");
    assert!(matches!(export_outcome(Err("not a repo"), "x.patch", Ok(())), Shown::Error(_)));
}

#[test]
fn actions_test_export_normal_mode_uses_diff_git() {
    let (text, _) = export_fetch("testid12", None);
    assert!(matches!(text, DiffText::DiffGit { .. }));
    assert!(matches!(export_outcome(Err("not a repo"), "x.patch", Ok(())), Shown::Error(_)));
}

#[test]
fn copy_of_a_single_change() {
    assert_eq!(copy_fetch(true, "abc", None), DiffText::Show { change_id: "abc".to_string() });
    assert_eq!(copy_fetch(false, "abc", None), DiffText::Diff { change_id: "abc".to_string() });
}

#[test]
fn compare_copy_has_a_header() {
    assert_eq!(
        compare_copy_text("aaa", "first", "bbb", "second", "DIFF"),
        "Compare: aaa -> bbb\nFrom: aaa (first)\nTo:   bbb (second)\n\nDIFF"
    );
}

#[test]
fn copy_outcomes() {
    assert_eq!(
        copy_outcome(true, Ok("a\nb\nc\n"), Ok(())),
        notice("Copied to clipboard (3 lines, show)", NotificationKind::Success)
    );
    assert_eq!(
        copy_outcome(false, Ok(""), Ok(())),
        notice("Copied to clipboard (0 lines, diff)", NotificationKind::Success)
    );
    assert_eq!(
        copy_outcome(false, Ok("x"), Err("No clipboard tool found")),
        Shown::Error("No clipboard tool found".to_string())
    );
    assert_eq!(copy_outcome(false, Err("boom"), Ok(())), Shown::Error("Failed to get diff: boom".to_string()));
}

#[test]
fn export_outcomes() {
    assert_eq!(
        export_outcome(Ok(()), "abc.patch", Ok(())),
        notice("Exported to abc.patch", NotificationKind::Success)
    );
    assert_eq!(
        export_outcome(Ok(()), "abc.patch", Err("denied")),
        Shown::Error("Failed to write abc.patch: denied".to_string())
    );
    assert_eq!(export_outcome(Err("boom"), "abc.patch", Ok(())), Shown::Error("Failed to get diff: boom".to_string()));
}

// ---------------------------------------------------------------------------
// Fetch
// ---------------------------------------------------------------------------

#[test]
fn fetch_choices_map_to_targets() {
    assert_eq!(fetch_target("__default__"), FetchTarget::Default);
    assert_eq!(fetch_target("__all_remotes__"), FetchTarget::AllRemotes);
    assert_eq!(fetch_target("upstream"), FetchTarget::Remote("upstream".to_string()));
}

#[test]
fn fetch_outcomes_name_the_source() {
    assert_eq!(
        fetch_outcome(&FetchTarget::Default, Ok("  \n")),
        notice("Already up to date", NotificationKind::Info)
    );
    assert_eq!(
        fetch_outcome(&FetchTarget::Default, Ok("bookmark: main@origin [updated]")),
        notice("Fetched from default remotes", NotificationKind::Success)
    );
    assert_eq!(
        fetch_outcome(&FetchTarget::AllRemotes, Ok("x")),
        notice("Fetched from all remotes", NotificationKind::Success)
    );
    assert_eq!(
        fetch_outcome(&FetchTarget::Remote("upstream".to_string()), Ok("x")),
        notice("Fetched from upstream", NotificationKind::Success)
    );
    assert_eq!(
        fetch_outcome(&FetchTarget::Default, Err("offline")),
        Shown::Error("Fetch failed: offline".to_string())
    );
}

#[test]
fn fetch_branch_outcomes() {
    assert_eq!(
        fetch_branch_outcome("main", Ok("")),
        notice("Branch 'main': already up to date", NotificationKind::Info)
    );
    assert_eq!(fetch_branch_outcome("main", Ok("x")), notice("Fetched branch 'main'", NotificationKind::Success));
    assert_eq!(fetch_branch_outcome("main", Err("e")), Shown::Error("Fetch failed: e".to_string()));
}

#[test]
fn branch_choice_offers_local_bookmarks_only() {
    let entries = vec![
        entry("main", None, false, Some("abc")),
        entry("main", Some("origin"), true, Some("abc")),
        entry("dev", None, false, None),
    ];
    match start_fetch_branch_select(Ok(&entries)) {
        FetchBranchStart::Select(d) => {
            assert_eq!(d.title, "Fetch Branch");
            assert_eq!(d.message, "Select branch to fetch:");
            assert_eq!(d.callback, DialogCallback::GitFetchBranch);
            let items = select_items(d, true);
            let values: Vec<&str> = items.iter().map(|i| i.value.as_str()).collect();
            assert_eq!(values, vec!["main", "dev"]);
        }
        other => panic!("expected a selection, got {:?}", other),
    }
    let remote_only = vec![entry("main", Some("origin"), true, None)];
    assert_eq!(
        start_fetch_branch_select(Ok(&remote_only)),
        FetchBranchStart::FetchAll(Notification::info("No bookmarks found"))
    );
    assert_eq!(
        start_fetch_branch_select(Err("boom")),
        FetchBranchStart::FetchAll(Notification::info("Failed to list bookmarks, fetching all"))
    );
}

// ---------------------------------------------------------------------------
// Listed bookmarks
// ---------------------------------------------------------------------------

#[test]
fn track_offers_untracked_remote_bookmarks_by_full_name() {
    let entries = vec![
        entry("main", None, false, Some("abc")),
        entry("main", Some("origin"), true, Some("abc")),
        entry("feature", Some("origin"), false, Some("def")),
        entry("fix", Some("upstream"), false, None),
    ];
    match start_track(Ok(&entries)) {
        TrackStart::Select(d) => {
            assert_eq!(d.title, "Track Remote Bookmarks");
            assert_eq!(d.message, "Select bookmarks to track:");
            assert_eq!(d.callback, DialogCallback::Track);
            let items = select_items(d, false);
            let labels: Vec<&str> = items.iter().map(|i| i.label.as_str()).collect();
            assert_eq!(labels, vec!["feature@origin", "fix@upstream"]);
            assert!(items.iter().all(|i| i.label == i.value && !i.selected));
        }
        other => panic!("expected a selection, got {:?}", other),
    }
    assert_eq!(
        start_track(Ok(&entries[..2])),
        TrackStart::Nothing(Notification::info("No untracked remote bookmarks"))
    );
    assert_eq!(start_track(Err("boom")), TrackStart::Failed("Failed to list bookmarks: boom".to_string()));
}

#[test]
fn bookmark_kinds() {
    assert_eq!(bookmark_kind(&entry("a", None, false, Some("x"))), BookmarkKind::LocalJumpable);
    assert_eq!(bookmark_kind(&entry("a", None, false, None)), BookmarkKind::LocalNoChange);
    assert_eq!(bookmark_kind(&entry("a", Some("o"), false, None)), BookmarkKind::UntrackedRemote);
    assert_eq!(bookmark_kind(&entry("a", Some("o"), true, Some("x"))), BookmarkKind::TrackedRemote);
}

// ---------------------------------------------------------------------------
// Pushing bookmarks one by one
// ---------------------------------------------------------------------------

#[test]
fn individual_items_carry_the_dry_run_status() {
    let preview = PushPreviewResult::Changes(vec![PushPreviewAction::Add {
        bookmark: "feature".to_string(),
        to: "abc123".to_string(),
    }]);
    let item = individual_push_item("feature", Some(&preview));
    assert_eq!(item.label, "feature (new)");
    assert_eq!(item.value, "feature");
    assert!(!item.selected);
    let plain = individual_push_item("feature", None);
    assert_eq!(plain.label, "feature");
    let unknown = individual_push_item("other", Some(&preview));
    assert_eq!(unknown.label, "other");
    let d = individual_push_dialog("abcdefghijk", vec![item.clone(), plain.clone()]);
    assert_eq!(d.title, "Push to Remote");
    assert_eq!(d.message, "Select bookmarks to push from abcdefgh:");
    assert_eq!(d.callback, DialogCallback::GitPush);
    assert_eq!(
        d.kind,
        DialogKind::Select {
            items: vec![item, plain],
            single: false,
            detail: Some("Remote changes cannot be undone with 'u'.".to_string()),
        }
    );
}

// ---------------------------------------------------------------------------
// Summary lines
// ---------------------------------------------------------------------------

#[test]
fn summary_lines_become_file_headers() {
    let added = parse_summary_line("A src/new.rs").expect("header");
    assert_eq!(added.kind, DiffLineKind::FileHeader);
    assert_eq!(added.content, "src/new.rs");
    assert_eq!(added.file_op, Some(FileOperation::Added));
    let deleted = parse_summary_line("D old file.txt").expect("header");
    assert_eq!(deleted.content, "old file.txt");
    assert_eq!(deleted.file_op, Some(FileOperation::Deleted));
    let modified = parse_summary_line("M lib.rs").expect("header");
    assert_eq!(modified.file_op, Some(FileOperation::Modified));
    assert!(parse_summary_line("nospace").is_none());
}
