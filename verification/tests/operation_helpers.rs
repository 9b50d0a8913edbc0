use tij::actions::{
    description_changed, is_multiline_description, parallelize_notification,
    parse_duplicate_output, unique_patch_filename, Notification, NotificationKind,
};
use tij::push::is_rebase_flag_unsupported;
use tij::rebase::{rebase_after_attempt, RebaseMode, RebaseStep};

#[test]
fn mod_test_multiline_detection_single_line() {
    let desc = "single line description";
    assert!(desc.lines().nth(1).is_none());
    assert!(!is_multiline_description(desc));
}

#[test]
fn mod_test_multiline_detection_two_lines() {
    let desc = "first line\nsecond line";
    assert!(desc.lines().nth(1).is_some());
    assert!(is_multiline_description(desc));
}

#[test]
fn mod_test_multiline_detection_empty_string() {
    let desc = "";
    assert!(desc.lines().nth(1).is_none());
    assert!(!is_multiline_description(desc));
}

#[test]
fn mod_test_multiline_detection_trailing_newline_only() {
    let desc = "single line\n".trim_end_matches('\n');
    assert!(desc.lines().nth(1).is_none());
    assert!(!is_multiline_description(desc));
}

#[test]
fn mod_test_multiline_detection_two_lines_with_trailing_newline() {
    let desc = "first\nsecond\n".trim_end_matches('\n');
    assert!(desc.lines().nth(1).is_some());
    assert!(is_multiline_description(desc));
}

#[test]
fn mod_test_description_comparison_identical() {
    let before = "test description".trim_end().to_string();
    let after = "test description".trim_end().to_string();
    assert_eq!(before, after);
    assert!(!description_changed("test description", "test description"));
}

#[test]
fn mod_test_description_comparison_trailing_whitespace_normalized() {
    let before = "test description\n".trim_end().to_string();
    let after = "test description\n\n".trim_end().to_string();
    assert_eq!(before, after);
    assert!(!description_changed("test description\n", "test description\n\n"));
}

#[test]
fn mod_test_description_comparison_different() {
    let before = "old description".trim_end().to_string();
    let after = "new description".trim_end().to_string();
    assert_ne!(before, after);
    assert!(description_changed("old description", "new description"));
}

#[test]
fn mod_test_parse_duplicate_output() {
    let output = "Duplicated 0193efbd0b2d as nyowntnw 6abd63b3 no-bookmark change (plain)";
    assert_eq!(parse_duplicate_output(output), Some("nyowntnw".to_string()));
}

#[test]
fn mod_test_parse_duplicate_output_no_match() {
    assert_eq!(parse_duplicate_output("Some unrelated output"), None);
}

#[test]
fn mod_test_parse_duplicate_output_empty() {
    assert_eq!(parse_duplicate_output(""), None);
}

#[test]
fn mod_test_parse_duplicate_output_multiline() {
    let output = "Working copy changes were not restored.\n\
                   Duplicated abc1234567890 as xyzwqrst def5678901 test description";
    assert_eq!(parse_duplicate_output(output), Some("xyzwqrst".to_string()));
}

#[test]
fn mod_test_unique_patch_filename_no_conflict() {
    let name = unique_patch_filename("zzzz_test_nonexistent", &[]);
    assert_eq!(name, "zzzz_test_nonexistent.patch");
}

#[test]
fn mod_test_unique_patch_filename_with_conflict() {
    let base = "test_unique_patch_tmp";
    let existing = vec![format!("{}.patch", base)];
    let name = unique_patch_filename(base, &existing);
    assert_eq!(name, format!("{}-1.patch", base));
}

#[test]
fn mod_test_unique_patch_filename_with_multiple_conflicts() {
    let base = "test_unique_multi_tmp";
    let existing = vec![format!("{}.patch", base), format!("{}-1.patch", base), format!("{}-2.patch", base)];
    let name = unique_patch_filename(base, &existing);
    assert_eq!(name, format!("{}-3.patch", base));
}

#[test]
fn mod_test_rebase_flag_unsupported_unexpected_argument() {
    assert!(is_rebase_flag_unsupported(
        "error: unexpected argument '--skip-emptied'"
    ));
}

#[test]
fn mod_test_rebase_flag_unsupported_unrecognized() {
    assert!(is_rebase_flag_unsupported("error: unrecognized option '-b'"));
}

#[test]
fn mod_test_rebase_flag_unsupported_unknown_flag() {
    assert!(is_rebase_flag_unsupported("error: unknown flag '--skip-emptied'"));
}

#[test]
fn mod_test_rebase_flag_unsupported_unknown_option() {
    assert!(is_rebase_flag_unsupported(
        "error: unknown option '--skip-emptied'"
    ));
}

#[test]
fn mod_test_rebase_flag_unsupported_false_for_normal_error() {
    assert!(!is_rebase_flag_unsupported(
        "Error: Revision abc123 is not reachable from destination"
    ));
}

#[test]
fn mod_test_rebase_flag_unsupported_false_for_conflict() {
    assert!(!is_rebase_flag_unsupported(
        "Rebase produced conflict in src/main.rs"
    ));
}

#[test]
fn mod_test_rebase_branch_unsupported_detected_on_retry_error() {
    let retry_msg = "error: unexpected argument '-b'";
    assert!(is_rebase_flag_unsupported(retry_msg));
    let step = rebase_after_attempt(RebaseMode::Branch, "abc12345", true, true, Err(retry_msg));
    assert!(matches!(step, RebaseStep::Refused(ref n) if n.kind == NotificationKind::Warning));
}

#[test]
fn mod_test_notification_severity_preserved_on_skip_emptied_fallback() {
    let existing = Notification::warning("Rebased with conflicts - resolve with jj resolve");
    assert_eq!(existing.kind, NotificationKind::Warning);
    let new_msg = format!(
        "{} (--skip-emptied not supported, empty commits may remain)",
        existing.message
    );
    let result = Notification::new(new_msg, existing.kind);
    assert_eq!(result.kind, NotificationKind::Warning);
    assert!(result.message.contains("conflicts"));
    assert!(result.message.contains("--skip-emptied not supported"));

    // The same outcome through the rebase decision itself.
    match rebase_after_attempt(
        RebaseMode::Revision,
        "abc12345",
        true,
        true,
        Ok("Rebased 1 commits\nNew conflicts appeared in 1 commits"),
    ) {
        RebaseStep::Done(n) => {
            assert_eq!(n.kind, NotificationKind::Warning);
            assert!(n.message.contains("conflicts"));
            assert!(n.message.contains("--skip-emptied not supported"));
        }
        other => panic!("expected a finished rebase, got {:?}", other),
    }
}

#[test]
fn mod_test_notification_severity_success_on_skip_emptied_fallback() {
    let existing = Notification::success("Rebased successfully");
    let new_msg = format!(
        "{} (--skip-emptied not supported, empty commits may remain)",
        existing.message
    );
    let result = Notification::new(new_msg, existing.kind);
    assert_eq!(result.kind, NotificationKind::Success);
    assert!(result.message.contains("Rebased successfully"));
    assert!(result.message.contains("--skip-emptied not supported"));

    match rebase_after_attempt(RebaseMode::Revision, "abc12345", true, true, Ok("Rebased 1 commits")) {
        RebaseStep::Done(n) => {
            assert_eq!(n.kind, NotificationKind::Success);
            assert_eq!(
                n.message,
                "Rebased successfully (--skip-emptied not supported, empty commits may remain)"
            );
        }
        other => panic!("expected a finished rebase, got {:?}", other),
    }
}

#[test]
fn test_parallelize_notification_success() {
    let n = parallelize_notification("Rebased 3 commits");
    assert_eq!(n.kind, NotificationKind::Success);
    assert!(n.message.contains("Parallelized"));
}

#[test]
fn test_parallelize_notification_nothing_output() {
    let n = parallelize_notification("Nothing changed");
    assert_eq!(n.kind, NotificationKind::Info);
    assert!(n.message.contains("Nothing to parallelize"));
}

#[test]
fn test_parallelize_notification_empty_output_is_success() {
    let n = parallelize_notification("");
    assert_eq!(n.kind, NotificationKind::Success);
    assert!(n.message.contains("Parallelized"));
}

#[test]
fn test_parallelize_notification_whitespace_only_is_success() {
    let n = parallelize_notification("  \n  ");
    assert_eq!(n.kind, NotificationKind::Success);
    assert!(n.message.contains("Parallelized"));
}
