use tij::actions::{is_bookmark_exists_error, truncate_description, JjError, NotificationKind};
use tij::bookmark::{
    bookmark_jump_notice, bookmark_move_detail, bookmark_row, create_failure, delete_message, fetch_dialog,
    finish_jump, jump_to_log, move_to_wc_failure, rename_message, rename_refusal, start_bookmark_delete,
    track_message, DeletePrompt, JumpStep, MoveFailure,
};
use tij::dialog::{Dialog, DialogCallback, DialogKind};
use tij::log_edit::EditStep;
use tij::revision::Change;


#[test]
fn bookmark_test_is_bookmark_exists_error_with_already_exists() {
    let error = JjError::CommandFailed {
        stderr: "Error: Bookmark 'main' already exists".to_string(),
        exit_code: 1,
    };
    assert!(is_bookmark_exists_error(&error));
}

#[test]
fn bookmark_test_is_bookmark_exists_error_with_bookmark_already() {
    let error = JjError::CommandFailed {
        stderr: "Error: bookmark already exists: feature".to_string(),
        exit_code: 1,
    };
    assert!(is_bookmark_exists_error(&error));
}

#[test]
fn bookmark_test_is_bookmark_exists_error_case_insensitive() {
    let error = JjError::CommandFailed {
        stderr: "Error: BOOKMARK ALREADY EXISTS".to_string(),
        exit_code: 1,
    };
    assert!(is_bookmark_exists_error(&error));
}

#[test]
fn bookmark_test_is_bookmark_exists_error_different_error() {
    let error = JjError::CommandFailed {
        stderr: "Error: Invalid revision".to_string(),
        exit_code: 1,
    };
    assert!(!is_bookmark_exists_error(&error));
}

#[test]
fn bookmark_test_is_bookmark_exists_error_not_command_failed() {
    let error = JjError::NotARepository;
    assert!(!is_bookmark_exists_error(&error));
}

#[test]
fn bookmark_test_truncate_description_short_string() {
    assert_eq!(truncate_description("hello", 10), "hello");
}

#[test]
fn bookmark_test_truncate_description_exact_length() {
    assert_eq!(truncate_description("hello", 5), "hello");
}

#[test]
fn bookmark_test_truncate_description_long_string() {
    assert_eq!(
        truncate_description("This is a long description text", 15),
        "This is a lo..."
    );
}

#[test]
fn bookmark_test_truncate_description_multibyte_japanese() {
    let s = "日本語のテスト文字列です";
    let result = truncate_description(s, 8);
    assert_eq!(result, "日本語のテ...");
}

#[test]
fn bookmark_test_truncate_description_empty() {
    assert_eq!(truncate_description("", 10), "");
}

#[test]
fn bookmark_test_truncate_description_max_len_3() {
    assert_eq!(truncate_description("abcdef", 3), "abc");
}


// ---------------------------------------------------------------------------
// Bookmark flows
// ---------------------------------------------------------------------------

fn bookmarked(id: &str, bookmarks: &[&str], graph_only: bool) -> Change {
    Change {
        change_id: id.to_string(),
        commit_id: format!("c{}", id),
        bookmarks: bookmarks.iter().map(|b| b.to_string()).collect(),
        description: String::new(),
        is_working_copy: false,
        is_graph_only: graph_only,
    }
}

fn strings(items: &[&str]) -> Vec<String> {
    items.iter().map(|s| s.to_string()).collect()
}

#[test]
fn move_detail_names_both_ends() {
    let d = bookmark_move_detail(Some(("oldchange", "old work")), "newchange123", "new work");
    assert_eq!(d, "From: oldchange  old work\n  To: newchang  new work\n\nCan be undone with 'u'.");
}

#[test]
fn move_detail_cuts_long_descriptions() {
    let long = "x".repeat(50);
    let d = bookmark_move_detail(Some(("a", long.as_str())), "b", "");
    assert!(d.contains(&format!("{}...", "x".repeat(37))), "{d}");
}

#[test]
fn move_detail_without_a_known_position_is_only_the_hint() {
    assert_eq!(bookmark_move_detail(None, "abc", "desc"), "Can be undone with 'u'.");
}

#[test]
fn bookmark_row_skips_graph_rows() {
    let rows = vec![
        bookmarked("a", &[], false),
        bookmarked("", &["main"], true),
        bookmarked("b", &["dev", "main"], false),
        bookmarked("c", &["main"], false),
    ];
    assert_eq!(bookmark_row(&rows, "main"), Some(2));
    assert_eq!(bookmark_row(&rows, "dev"), Some(2));
    assert_eq!(bookmark_row(&rows, "other"), None);
}

#[test]
fn move_backwards_is_offered_with_force() {
    match move_to_wc_failure("Error: Refusing to move bookmark backwards or sideways: main", "main") {
        MoveFailure::ConfirmBackwards(d) => {
            assert_eq!(d.title, "Move Bookmark (Force)");
            assert_eq!(d.message, "Bookmark 'main' requires backwards/sideways move.\nAllow --allow-backwards?");
            assert_eq!(
                d.kind,
                DialogKind::Confirm { detail: Some("This moves the bookmark in a non-forward direction.".to_string()) }
            );
            assert_eq!(d.callback, DialogCallback::BookmarkMoveBackwards { name: "main".to_string() });
        }
        other => panic!("expected a confirmation, got {:?}", other),
    }
}

#[test]
fn other_move_failures_show_the_manual_command() {
    assert_eq!(
        move_to_wc_failure("boom", "main"),
        MoveFailure::Error("Move failed: boom\nTry: jj bookmark move main --to @ --allow-backwards".to_string())
    );
}

#[test]
fn rename_refusals() {
    let n = rename_refusal("main", "main").expect("unchanged");
    assert_eq!(n.message, "Name unchanged");
    assert_eq!(n.kind, NotificationKind::Info);
    let n = rename_refusal("main", "   ").expect("blank");
    assert_eq!(n.message, "Bookmark name cannot be empty");
    assert_eq!(n.kind, NotificationKind::Warning);
    assert!(rename_refusal("main", "trunk").is_none());
    assert_eq!(rename_message("main", "trunk"), "Renamed bookmark: main \u{2192} trunk");
}

#[test]
fn track_and_delete_notices() {
    assert_eq!(track_message(&[]), None);
    assert_eq!(track_message(&strings(&["feature@origin"])), Some("Started tracking: feature".to_string()));
    assert_eq!(track_message(&strings(&["a@origin", "b@origin", "c@up"])), Some("Started tracking: 3 bookmarks".to_string()));
    assert_eq!(delete_message(&[]), None);
    assert_eq!(delete_message(&strings(&["a", "b"])), Some("Deleted bookmarks: a, b".to_string()));
}

#[test]
fn delete_prompt_lists_the_change_bookmarks() {
    assert_eq!(
        start_bookmark_delete("abcdefghij", &[]),
        DeletePrompt::Nothing("No bookmarks to delete".to_string())
    );
    match start_bookmark_delete("abcdefghij", &strings(&["main", "dev"])) {
        DeletePrompt::Select(d) => {
            assert_eq!(d.title, "Delete Bookmarks");
            assert_eq!(d.message, "Select bookmarks to delete from abcdefgh:");
            assert_eq!(d.callback, DialogCallback::DeleteBookmarks);
            match d.kind {
                DialogKind::Select { items, single, detail } => {
                    assert!(!single);
                    assert_eq!(detail.as_deref(), Some("Deletions will propagate to remotes on push."));
                    assert_eq!(items.len(), 2);
                    assert_eq!(items[1].label, "dev");
                    assert_eq!(items[1].value, "dev");
                    assert!(!items[0].selected);
                }
                other => panic!("expected a selection, got {:?}", other),
            }
        }
        other => panic!("expected a selection, got {:?}", other),
    }
}

#[test]
fn fetch_dialog_only_with_several_remotes() {
    assert!(fetch_dialog(&[]).is_none());
    assert!(fetch_dialog(&strings(&["origin"])).is_none());
    let d = fetch_dialog(&strings(&["origin", "upstream"])).expect("dialog");
    assert_eq!(d.title, "Git Fetch");
    assert_eq!(d.message, "Select remote to fetch from:");
    assert_eq!(d.callback, DialogCallback::GitFetch);
    let items = match d.kind {
        DialogKind::Select { items, single: true, detail: None } => items,
        other => panic!("expected a single choice, got {:?}", other),
    };
    let values: Vec<&str> = items.iter().map(|i| i.value.as_str()).collect();
    assert_eq!(values, vec!["__default__", "__all_remotes__", "origin", "upstream", "__branch__"]);
    assert_eq!(items[4].label, "Specific branch...");
}

#[test]
fn jump_needs_a_second_press_outside_the_revset() {
    let mut pending: Option<String> = None;
    match jump_to_log(&mut pending, "abcdefghij", false, None) {
        JumpStep::Hint(n) => {
            assert_eq!(n.message, "Change not in current revset. Press J again to search full log");
            assert_eq!(n.kind, NotificationKind::Info);
        }
        other => panic!("expected a hint, got {:?}", other),
    }
    assert_eq!(pending.as_deref(), Some("abcdefghij"));
    assert_eq!(
        jump_to_log(&mut pending, "abcdefghij", false, None),
        JumpStep::Expand("ancestors(abcdefghij) | abcdefghij".to_string())
    );
    assert!(pending.is_none());
    let mut pending = Some("abcdefghij".to_string());
    assert_eq!(
        jump_to_log(&mut pending, "abcdefghij", false, Some("mine()")),
        JumpStep::Expand("mine() | abcdefghij".to_string())
    );
}

#[test]
fn jump_to_a_visible_change_selects_it() {
    let mut pending = Some("other".to_string());
    match jump_to_log(&mut pending, "abcdefghij", true, None) {
        JumpStep::Jumped(n) => assert_eq!(n.message, "Jumped to abcdefgh in log"),
        other => panic!("expected a jump, got {:?}", other),
    }
    assert!(pending.is_none());
    assert_eq!(finish_jump("abcdefghij", true).message, "Jumped to abcdefgh (revset expanded, r+Enter to reset)");
    let n = finish_jump("abcdefghij", false);
    assert_eq!(n.message, "Change not found in repository");
    assert_eq!(n.kind, NotificationKind::Warning);
    assert_eq!(bookmark_jump_notice("abcdefghij", true).message, "Jumped to abcdefgh");
    assert_eq!(
        bookmark_jump_notice("abcdefghij", false).message,
        "Bookmark target not visible in current revset"
    );
}

#[test]
fn creating_an_existing_bookmark_offers_to_move_it() {
    let exists = JjError::CommandFailed {
        stderr: "Error: Bookmark 'main' already exists".to_string(),
        exit_code: 1,
    };
    assert_eq!(
        create_failure(
            &exists,
            "Error: Bookmark 'main' already exists",
            "main",
            "abc123",
            "Can be undone with 'u'.".to_string()
        ),
        EditStep::Dialog(Dialog {
            title: "Move Bookmark".to_string(),
            message: "Move bookmark \"main\" to this change?".to_string(),
            kind: DialogKind::Confirm { detail: Some("Can be undone with 'u'.".to_string()) },
            callback: DialogCallback::MoveBookmark { name: "main".to_string(), change_id: "abc123".to_string() },
        })
    );
    let other = JjError::CommandFailed { stderr: "Error: bad name".to_string(), exit_code: 1 };
    assert_eq!(
        create_failure(&other, "Error: bad name", "x y", "abc123", String::new()),
        EditStep::Error("Failed to create bookmark: Error: bad name".to_string())
    );
}
