use tij::actions::{
    description_changed, is_bookmark_exists_error, is_multiline_description, parse_duplicate_output,
    truncate_description, unique_patch_filename, JjError, Notification,
    NotificationKind,
};
use tij::dialog::{handle_dialog_result, DialogCallback, DialogCommand, DialogResult, PendingState};
use tij::push::{
    format_bookmark_status, has_force_push, is_empty_description_error, is_immutable_bookmark,
    is_private_commit_error, is_rebase_flag_unsupported, is_revisions_unsupported_error,
    parse_push_change_bookmark, PushPreviewAction, PushPreviewResult,
};
use tij::rebase::{rebase_after_attempt, RebaseMode, RebaseStep};

fn pending_with_remote(remote: Option<&str>, bookmarks: &[&str]) -> PendingState {
    PendingState {
        push_target_remote: remote.map(|r| r.to_string()),
        pending_push_bookmarks: bookmarks.iter().map(|b| b.to_string()).collect(),
        pending_forget_bookmark: None,
        pending_push_tag: None,
    }
}

#[test]
fn actions_test_is_bookmark_exists_error_with_already_exists() {
    let error = JjError::CommandFailed {
        stderr: "Error: Bookmark 'main' already exists".to_string(),
        exit_code: 1,
    };
    assert!(is_bookmark_exists_error(&error));
}

#[test]
fn actions_test_is_bookmark_exists_error_with_bookmark_already() {
    let error = JjError::CommandFailed {
        stderr: "Error: bookmark already exists: feature".to_string(),
        exit_code: 1,
    };
    assert!(is_bookmark_exists_error(&error));
}

#[test]
fn actions_test_is_bookmark_exists_error_case_insensitive() {
    let error = JjError::CommandFailed {
        stderr: "Error: BOOKMARK ALREADY EXISTS".to_string(),
        exit_code: 1,
    };
    assert!(is_bookmark_exists_error(&error));
}

#[test]
fn actions_test_is_bookmark_exists_error_different_error() {
    let error = JjError::CommandFailed {
        stderr: "Error: Invalid revision".to_string(),
        exit_code: 1,
    };
    assert!(!is_bookmark_exists_error(&error));
}

#[test]
fn actions_test_is_bookmark_exists_error_not_command_failed() {
    let error = JjError::NotARepository;
    assert!(!is_bookmark_exists_error(&error));
}

#[test]
fn actions_test_multiline_detection_single_line() {
    let desc = "single line description";
    assert!(desc.lines().nth(1).is_none());
    assert!(!is_multiline_description(desc));
}

#[test]
fn actions_test_multiline_detection_two_lines() {
    let desc = "first line\nsecond line";
    assert!(desc.lines().nth(1).is_some());
    assert!(is_multiline_description(desc));
}

#[test]
fn actions_test_multiline_detection_empty_string() {
    let desc = "";
    assert!(desc.lines().nth(1).is_none());
    assert!(!is_multiline_description(desc));
}

#[test]
fn actions_test_multiline_detection_trailing_newline_only() {
    let desc = "single line\n".trim_end_matches('\n');
    assert!(desc.lines().nth(1).is_none());
    assert!(!is_multiline_description(desc));
}

#[test]
fn actions_test_multiline_detection_two_lines_with_trailing_newline() {
    let desc = "first\nsecond\n".trim_end_matches('\n');
    assert!(desc.lines().nth(1).is_some());
    assert!(is_multiline_description(desc));
}

#[test]
fn actions_test_description_comparison_identical() {
    let before = "test description".trim_end().to_string();
    let after = "test description".trim_end().to_string();
    assert_eq!(before, after);
    assert!(!description_changed("test description", "test description"));
}

#[test]
fn actions_test_description_comparison_trailing_whitespace_normalized() {
    let before = "test description\n".trim_end().to_string();
    let after = "test description\n\n".trim_end().to_string();
    assert_eq!(before, after);
    assert!(!description_changed("test description\n", "test description\n\n"));
}

#[test]
fn actions_test_description_comparison_different() {
    let before = "old description".trim_end().to_string();
    let after = "new description".trim_end().to_string();
    assert_ne!(before, after);
    assert!(description_changed("old description", "new description"));
}

#[test]
fn actions_test_has_force_push_forward_only() {
    let actions = vec![PushPreviewAction::MoveForward {
        bookmark: "main".to_string(),
        from: "aaa".to_string(),
        to: "bbb".to_string(),
    }];
    assert!(!has_force_push(&actions));
}

#[test]
fn actions_test_has_force_push_sideways() {
    let actions = vec![PushPreviewAction::MoveSideways {
        bookmark: "feature".to_string(),
        from: "aaa".to_string(),
        to: "bbb".to_string(),
    }];
    assert!(has_force_push(&actions));
}

#[test]
fn actions_test_has_force_push_backward() {
    let actions = vec![PushPreviewAction::MoveBackward {
        bookmark: "main".to_string(),
        from: "bbb".to_string(),
        to: "aaa".to_string(),
    }];
    assert!(has_force_push(&actions));
}

#[test]
fn actions_test_is_immutable_bookmark_main() {
    assert!(is_immutable_bookmark("main"));
}

#[test]
fn actions_test_is_immutable_bookmark_master() {
    assert!(is_immutable_bookmark("master"));
}

#[test]
fn actions_test_is_immutable_bookmark_trunk() {
    assert!(is_immutable_bookmark("trunk"));
}

#[test]
fn actions_test_is_immutable_bookmark_feature() {
    assert!(!is_immutable_bookmark("feature-x"));
}

#[test]
fn actions_test_format_bookmark_status_protected_force_label() {
    let preview = PushPreviewResult::Changes(vec![PushPreviewAction::MoveSideways {
        bookmark: "main".to_string(),
        from: "aaa111bbb222".to_string(),
        to: "ccc333ddd444".to_string(),
    }]);
    let status = format_bookmark_status(&preview, "main");
    assert_eq!(status, "\u{26A0} PROTECTED force");
}

#[test]
fn actions_test_format_bookmark_status_force_label() {
    let preview = PushPreviewResult::Changes(vec![PushPreviewAction::MoveBackward {
        bookmark: "feature-x".to_string(),
        from: "aaa111bbb222".to_string(),
        to: "ccc333ddd444".to_string(),
    }]);
    let status = format_bookmark_status(&preview, "feature-x");
    assert_eq!(status, "\u{26A0} force");
}

#[test]
fn actions_test_format_bookmark_status_forward_is_not_force() {
    let preview = PushPreviewResult::Changes(vec![PushPreviewAction::MoveForward {
        bookmark: "main".to_string(),
        from: "aaa111bbb222".to_string(),
        to: "ccc333ddd444".to_string(),
    }]);
    let status = format_bookmark_status(&preview, "main");
    assert!(status.starts_with("move from"));
}

#[test]
fn actions_test_truncate_description_short_string() {
    assert_eq!(truncate_description("hello", 10), "hello");
}

#[test]
fn actions_test_truncate_description_exact_length() {
    assert_eq!(truncate_description("hello", 5), "hello");
}

#[test]
fn actions_test_truncate_description_long_string() {
    assert_eq!(
        truncate_description("This is a long description text", 15),
        "This is a lo..."
    );
}

#[test]
fn actions_test_truncate_description_multibyte_japanese() {
    let s = "日本語のテスト文字列です";
    let result = truncate_description(s, 8);
    assert_eq!(result, "日本語のテ...");
}

#[test]
fn actions_test_truncate_description_empty() {
    assert_eq!(truncate_description("", 10), "");
}

#[test]
fn actions_test_truncate_description_max_len_3() {
    assert_eq!(truncate_description("abcdef", 3), "abc");
}

#[test]
fn actions_test_push_change_output_parsing() {
    let output = "Creating bookmark push-ryxwqxsq for revision ryxwqxsq\n\
                   Add bookmark push-ryxwqxsq to abc1234567890";
    let result = parse_push_change_bookmark(output, "ryxwqxsq");
    assert_eq!(result, Some("push-ryxwqxsq".to_string()));
}

#[test]
fn actions_test_push_change_output_parsing_fallback() {
    let output = "Some other output";
    let result = parse_push_change_bookmark(output, "abcd1234");
    assert_eq!(result, Some("push-abcd1234".to_string()));
}

#[test]
fn actions_test_push_change_output_parsing_empty() {
    let result = parse_push_change_bookmark("", "xyz98765");
    assert_eq!(result, Some("push-xyz98765".to_string()));
}

#[test]
fn actions_test_push_target_remote_cleared_on_git_push_cancel() {
    let mut pending = pending_with_remote(Some("upstream"), &["main"]);
    let cmd = handle_dialog_result(Some(DialogCallback::GitPush), DialogResult::Cancelled, &mut pending);
    assert_eq!(cmd, DialogCommand::Nothing);
    assert!(pending.push_target_remote.is_none());
    assert!(pending.pending_push_bookmarks.is_empty());
}

#[test]
fn actions_test_push_target_remote_cleared_on_remote_select_cancel() {
    let mut pending = pending_with_remote(Some("upstream"), &[]);
    handle_dialog_result(
        Some(DialogCallback::GitPushRemoteSelect),
        DialogResult::Cancelled,
        &mut pending,
    );
    assert!(pending.push_target_remote.is_none());
}

#[test]
fn actions_test_push_target_remote_cleared_on_push_change_cancel() {
    let mut pending = pending_with_remote(Some("upstream"), &[]);
    handle_dialog_result(
        Some(DialogCallback::GitPushChange { change_id: "abc12345".to_string() }),
        DialogResult::Cancelled,
        &mut pending,
    );
    assert!(pending.push_target_remote.is_none());
}

#[test]
fn actions_test_parse_duplicate_output() {
    let output = "Duplicated 0193efbd0b2d as nyowntnw 6abd63b3 no-bookmark change (plain)";
    let result = parse_duplicate_output(output);
    assert_eq!(result, Some("nyowntnw".to_string()));
}

#[test]
fn actions_test_parse_duplicate_output_no_match() {
    let result = parse_duplicate_output("Some unrelated output");
    assert_eq!(result, None);
}

#[test]
fn actions_test_parse_duplicate_output_empty() {
    let result = parse_duplicate_output("");
    assert_eq!(result, None);
}

#[test]
fn actions_test_parse_duplicate_output_multiline() {
    let output = "Working copy changes were not restored.\n\
                   Duplicated abc1234567890 as xyzwqrst def5678901 test description";
    let result = parse_duplicate_output(output);
    assert_eq!(result, Some("xyzwqrst".to_string()));
}

#[test]
fn actions_test_revert_dialog_confirmed_calls_execute_revert() {
    let mut pending = pending_with_remote(None, &[]);
    let cmd = handle_dialog_result(
        Some(DialogCallback::Revert { change_id: "abc12345".to_string() }),
        DialogResult::Confirmed(vec![]),
        &mut pending,
    );
    assert_eq!(cmd, DialogCommand::ExecuteRevert("abc12345".to_string()));
}

#[test]
fn actions_test_revert_dialog_cancelled_does_nothing() {
    let mut pending = pending_with_remote(None, &[]);
    let cmd = handle_dialog_result(
        Some(DialogCallback::Revert { change_id: "abc12345".to_string() }),
        DialogResult::Cancelled,
        &mut pending,
    );
    assert_eq!(cmd, DialogCommand::Nothing);
    assert!(pending.push_target_remote.is_none());
    assert!(pending.pending_push_bookmarks.is_empty());
}

#[test]
fn actions_test_revisions_unsupported_unexpected_argument() {
    assert!(is_revisions_unsupported_error(
        "error: unexpected argument '--revisions' found"
    ));
}

#[test]
fn actions_test_revisions_unsupported_unrecognized() {
    assert!(is_revisions_unsupported_error(
        "error: unrecognized option '--revisions'"
    ));
}

#[test]
fn actions_test_revisions_unsupported_unknown_flag() {
    assert!(is_revisions_unsupported_error("error: unknown flag --revisions"));
}

#[test]
fn actions_test_revisions_unsupported_unrelated_error() {
    assert!(!is_revisions_unsupported_error(
        "error: unexpected argument '--foobar' found"
    ));
}

#[test]
fn actions_test_revisions_unsupported_generic_push_error() {
    assert!(!is_revisions_unsupported_error(
        "error: Refusing to create new remote bookmark for --revisions"
    ));
}

#[test]
fn actions_test_push_revisions_cancelled_clears_remote() {
    let mut pending = pending_with_remote(Some("upstream"), &[]);
    handle_dialog_result(
        Some(DialogCallback::GitPushRevisions {
            change_id: "abc12345".to_string(),
            bookmarks: vec!["main".to_string()],
        }),
        DialogResult::Cancelled,
        &mut pending,
    );
    assert!(pending.push_target_remote.is_none());
}

#[test]
fn actions_test_push_revisions_confirmed_calls_execute() {
    let mut pending = pending_with_remote(None, &[]);
    let cmd = handle_dialog_result(
        Some(DialogCallback::GitPushRevisions {
            change_id: "abc12345".to_string(),
            bookmarks: vec!["main".to_string()],
        }),
        DialogResult::Confirmed(vec![]),
        &mut pending,
    );
    assert_eq!(
        cmd,
        DialogCommand::ExecutePushRevisions {
            change_id: "abc12345".to_string(),
            bookmarks: vec!["main".to_string()],
        }
    );
}

#[test]
fn actions_test_multi_bookmark_mode_cancelled_clears_remote() {
    let mut pending = pending_with_remote(Some("upstream"), &[]);
    handle_dialog_result(
        Some(DialogCallback::GitPushMultiBookmarkMode {
            change_id: "abc12345".to_string(),
            bookmarks: vec!["main".to_string(), "dev".to_string()],
        }),
        DialogResult::Cancelled,
        &mut pending,
    );
    assert!(pending.push_target_remote.is_none());
}

#[test]
fn actions_test_multi_bookmark_mode_no_sentinel_collision() {
    let mode_callback = DialogCallback::GitPushMultiBookmarkMode {
        change_id: "abc12345".to_string(),
        bookmarks: vec!["revisions".to_string()],
    };
    let push_callback = DialogCallback::GitPush;
    assert_ne!(mode_callback, push_callback);
}

#[test]
fn actions_test_unique_patch_filename_no_conflict() {
    let name = unique_patch_filename("zzzz_test_nonexistent", &[]);
    assert_eq!(name, "zzzz_test_nonexistent.patch");
}

#[test]
fn actions_test_unique_patch_filename_with_conflict() {
    let base = "test_unique_patch_tmp";
    let existing = vec![format!("{}.patch", base)];
    let name = unique_patch_filename(base, &existing);
    assert_eq!(name, format!("{}-1.patch", base));
}

#[test]
fn actions_test_unique_patch_filename_with_multiple_conflicts() {
    let base = "test_unique_multi_tmp";
    let existing = vec![format!("{}.patch", base), format!("{}-1.patch", base), format!("{}-2.patch", base)];
    let name = unique_patch_filename(base, &existing);
    assert_eq!(name, format!("{}-3.patch", base));
}

#[test]
fn actions_test_private_commit_error_standard() {
    assert!(is_private_commit_error(
        "Won't push commit abc123 since it is private"
    ));
}

#[test]
fn actions_test_private_commit_error_hint_format() {
    assert!(is_private_commit_error(
        "Hint: ... won't push commit ... private ..."
    ));
}

#[test]
fn actions_test_private_commit_error_lowercase() {
    assert!(is_private_commit_error("error: won't push ... it is private"));
}

#[test]
fn actions_test_private_commit_error_false_positive_no_push() {
    assert!(!is_private_commit_error("private key error"));
}

#[test]
fn actions_test_private_commit_error_network_error() {
    assert!(!is_private_commit_error("Push failed: network error"));
}

#[test]
fn actions_test_empty_description_error_standard() {
    assert!(is_empty_description_error(
        "Won't push commit abc123 since it has no description"
    ));
}

#[test]
fn actions_test_empty_description_error_hint_format() {
    assert!(is_empty_description_error(
        "Hint: ... won't push commit ... no description ..."
    ));
}

#[test]
fn actions_test_empty_description_error_lowercase() {
    assert!(is_empty_description_error(
        "error: won't push ... has no description"
    ));
}

#[test]
fn actions_test_empty_description_error_false_positive_no_push() {
    assert!(!is_empty_description_error("no description found in config"));
}

#[test]
fn actions_test_both_errors_simultaneous() {
    let msg = "Won't push commit abc123 since it is private\nWon't push commit def456 since it has no description";
    assert!(is_private_commit_error(msg));
    assert!(is_empty_description_error(msg));
}

#[test]
fn actions_test_rebase_flag_unsupported_unexpected_argument() {
    assert!(is_rebase_flag_unsupported(
        "error: unexpected argument '--skip-emptied'"
    ));
}

#[test]
fn actions_test_rebase_flag_unsupported_unrecognized() {
    assert!(is_rebase_flag_unsupported("error: unrecognized option '-b'"));
}

#[test]
fn actions_test_rebase_flag_unsupported_unknown_flag() {
    assert!(is_rebase_flag_unsupported("error: unknown flag '--skip-emptied'"));
}

#[test]
fn actions_test_rebase_flag_unsupported_unknown_option() {
    assert!(is_rebase_flag_unsupported(
        "error: unknown option '--skip-emptied'"
    ));
}

#[test]
fn actions_test_rebase_flag_unsupported_false_for_normal_error() {
    assert!(!is_rebase_flag_unsupported(
        "Error: Revision abc123 is not reachable from destination"
    ));
}

#[test]
fn actions_test_rebase_flag_unsupported_false_for_conflict() {
    assert!(!is_rebase_flag_unsupported(
        "Rebase produced conflict in src/main.rs"
    ));
}

#[test]
fn actions_test_rebase_branch_unsupported_detected_on_retry_error() {
    let retry_msg = "error: unexpected argument '-b'";
    assert!(is_rebase_flag_unsupported(retry_msg));
    match rebase_after_attempt(RebaseMode::Branch, "dest1234", true, true, Err(retry_msg)) {
        RebaseStep::Refused(n) => {
            assert_eq!(n.kind, NotificationKind::Warning);
            assert!(n.message.contains("Branch mode (-b) not supported"));
        }
        other => panic!("expected the branch guidance, got {:?}", other),
    }
}

#[test]
fn actions_test_notification_severity_preserved_on_skip_emptied_fallback() {
    let existing = Notification::warning("Rebased with conflicts - resolve with jj resolve");
    assert_eq!(existing.kind, NotificationKind::Warning);
    let new_msg = format!(
        "{} (--skip-emptied not supported, empty commits may remain)",
        existing.message
    );
    let result = Notification::new(new_msg, existing.kind);
    assert_eq!(result.kind, NotificationKind::Warning);
    assert!(result.message.contains("conflicts"));
    assert!(result.message.contains("--skip-emptied not supported"));
}

#[test]
fn actions_test_notification_severity_success_on_skip_emptied_fallback() {
    let existing = Notification::success("Rebased successfully");
    let new_msg = format!(
        "{} (--skip-emptied not supported, empty commits may remain)",
        existing.message
    );
    let result = Notification::new(new_msg, existing.kind);
    assert_eq!(result.kind, NotificationKind::Success);
    assert!(result.message.contains("Rebased successfully"));
    assert!(result.message.contains("--skip-emptied not supported"));
}

#[test]
fn actions_test_simplify_parents_dialog_confirmed_calls_execute() {
    let mut pending = pending_with_remote(None, &[]);
    let cmd = handle_dialog_result(
        Some(DialogCallback::SimplifyParents { change_id: "abc12345".to_string() }),
        DialogResult::Confirmed(vec![]),
        &mut pending,
    );
    assert_eq!(cmd, DialogCommand::ExecuteSimplifyParents("abc12345".to_string()));
}

#[test]
fn actions_test_simplify_parents_dialog_cancelled_does_nothing() {
    let mut pending = pending_with_remote(None, &[]);
    let cmd = handle_dialog_result(
        Some(DialogCallback::SimplifyParents { change_id: "abc12345".to_string() }),
        DialogResult::Cancelled,
        &mut pending,
    );
    assert_eq!(cmd, DialogCommand::Nothing);
}


#[test]
fn unique_patch_filename_takes_the_first_gap() {
    let existing = vec!["x.patch".to_string(), "x-2.patch".to_string(), "other.patch".to_string()];
    assert_eq!(unique_patch_filename("x", &existing), "x-1.patch");
}

#[test]
fn status_label_needs_no_cut_of_hashes_it_does_not_show() {
    // Only the "from" of a forward move is shown; other hashes may be anything.
    let preview = PushPreviewResult::Changes(vec![PushPreviewAction::MoveSideways {
        bookmark: "feature-x".to_string(),
        from: "日本語の".to_string(),
        to: "日本語のテキスト".to_string(),
    }]);
    assert_eq!(format_bookmark_status(&preview, "feature-x"), "\u{26A0} force");
    let preview = PushPreviewResult::Changes(vec![PushPreviewAction::MoveForward {
        bookmark: "main".to_string(),
        from: "aaa111bbb222".to_string(),
        to: "日本語の".to_string(),
    }]);
    assert_eq!(format_bookmark_status(&preview, "main"), "move from aaa111bb..");
}
