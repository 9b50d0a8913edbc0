use tij::actions::{Notification, NotificationKind};
use tij::dialog::PendingState;
use tij::dialog::{handle_dialog_result, Dialog, DialogCallback, DialogCommand, DialogKind, DialogResult};
use tij::log_edit::SelectItem;
use tij::push::{plan_push_start, push_start_dialog, PushBulkMode, PushPreviewResult, PushStart};
use tij::push_run::{
    after_push_attempt, after_push_retry, finish_bookmark_push, single_push_after_attempt, start_bookmark_push,
    execute_tag_push, open_bulk_push, open_change_push, open_revisions_push, open_single_push, start_tag_push,
    take_push_remote, PushDialogStep, SinglePush, SinglePushStep,
};

fn pending_with_remote(remote: &str) -> PendingState {
    PendingState {
        push_target_remote: Some(remote.to_string()),
        pending_push_bookmarks: vec!["main".to_string()],
        pending_forget_bookmark: None,
        pending_push_tag: None,
    }
}

#[test]
fn push_test_push_target_remote_cleared_on_empty_bookmarks() {
    let mut pending = pending_with_remote("upstream");
    assert!(start_bookmark_push(&[], &mut pending).is_none());
    assert!(pending.push_target_remote.is_none());
}

#[test]
fn actions_test_push_target_remote_cleared_on_empty_bookmarks() {
    let mut pending = pending_with_remote("upstream");
    start_bookmark_push(&[], &mut pending);
    assert!(pending.push_target_remote.is_none());
}

#[test]
fn push_test_push_target_remote_cleared_by_execute_push() {
    let mut pending = pending_with_remote("upstream");
    let names = vec!["nonexistent-bookmark-xyz".to_string()];
    let mut run = start_bookmark_push(&names, &mut pending).expect("a run");
    assert_eq!(run.remote.as_deref(), Some("upstream"));
    let flags = after_push_attempt(&mut run, &names[0], Err("Error: No such bookmark: nonexistent-bookmark-xyz"));
    assert!(flags.is_empty());
    assert!(pending.push_target_remote.is_none());
}

#[test]
fn actions_test_push_target_remote_cleared_by_execute_push() {
    let mut pending = pending_with_remote("upstream");
    let names = vec!["nonexistent-bookmark-xyz".to_string()];
    let mut run = start_bookmark_push(&names, &mut pending).expect("a run");
    after_push_attempt(&mut run, &names[0], Err("failed"));
    assert!(pending.push_target_remote.is_none());
}

#[test]
fn push_test_push_target_remote_cleared_by_execute_push_change() {
    let mut pending = pending_with_remote("upstream");
    let remote = take_push_remote(&mut pending);
    assert_eq!(remote.as_deref(), Some("upstream"));
    let step = single_push_after_attempt(
        &SinglePush::Change("nonexistent_change_id".to_string()),
        &remote,
        None,
        Err("Error: Revision `nonexistent_change_id` doesn't exist"),
        &mut pending,
    );
    assert!(matches!(step, SinglePushStep::Failed(_)));
    assert!(pending.push_target_remote.is_none());
}

#[test]
fn actions_test_push_target_remote_cleared_by_execute_push_change() {
    let mut pending = pending_with_remote("upstream");
    let remote = take_push_remote(&mut pending);
    single_push_after_attempt(&SinglePush::Change("x".to_string()), &remote, None, Err("boom"), &mut pending);
    assert!(pending.push_target_remote.is_none());
}

#[test]
fn bookmarks_pushed_one_by_one_with_retries() {
    let mut pending = pending_with_remote("origin");
    let names = vec!["a".to_string(), "b".to_string(), "c".to_string(), "d".to_string()];
    let mut run = start_bookmark_push(&names, &mut pending).expect("a run");

    assert!(after_push_attempt(&mut run, "a", Ok(())).is_empty());

    let flags = after_push_attempt(&mut run, "b", Err("Error: Won't push commit abc since it has no description"));
    assert_eq!(flags, vec!["--allow-empty-description"]);
    after_push_retry(&mut run, "b", &flags, Ok(()));

    let flags = after_push_attempt(
        &mut run,
        "c",
        Err("Refusing to create new remote bookmark c@origin\nHint: Use --allow-new"),
    );
    assert_eq!(flags, vec!["--allow-new"]);
    after_push_retry(&mut run, "c", &flags, Err("still failing"));

    let flags = after_push_attempt(&mut run, "d", Err("Error: Won't push commit def since it is private"));
    assert_eq!(flags, vec!["--allow-private"]);
    after_push_retry(&mut run, "d", &flags, Ok(()));

    assert_eq!(run.successes, vec!["a", "b", "d"]);
    assert_eq!(run.errors, vec!["c: still failing"]);
    assert!(!run.used_allow_new);
    assert_eq!(run.retry_notes, vec!["empty description allowed", "private commit allowed"]);

    let (ok, err) = finish_bookmark_push(&run, &mut pending);
    assert_eq!(
        ok.as_deref(),
        Some("Pushed bookmark: a, b, d to origin (empty description allowed + private commit allowed)")
    );
    assert_eq!(err.as_deref(), Some("Push failed: c: still failing"));
    assert!(pending.pending_push_bookmarks.is_empty());
}

#[test]
fn allow_new_is_reported_as_deprecated() {
    let mut pending = PendingState {
        push_target_remote: None,
        pending_push_bookmarks: vec![],
        pending_forget_bookmark: None,
        pending_push_tag: None,
    };
    let names = vec!["new".to_string()];
    let mut run = start_bookmark_push(&names, &mut pending).expect("a run");
    let flags = after_push_attempt(&mut run, "new", Err("Refusing to create new remote bookmark new@origin"));
    after_push_retry(&mut run, "new", &flags, Ok(()));
    let (ok, err) = finish_bookmark_push(&run, &mut pending);
    assert_eq!(ok.as_deref(), Some("Pushed bookmark: new (used deprecated --allow-new)"));
    assert_eq!(err, None);
}

#[test]
fn change_push_names_the_created_bookmark() {
    let mut pending = pending_with_remote("x");
    let remote = Some("origin".to_string());
    let step = single_push_after_attempt(
        &SinglePush::Change("abcdefghijkl".to_string()),
        &remote,
        None,
        Ok("Creating bookmark push-abcdefgh for revision abcdefgh\n"),
        &mut pending,
    );
    assert_eq!(
        step,
        SinglePushStep::Done(Notification::new(
            "Pushed change abcdefgh to origin (created bookmark: push-abcdefgh)".to_string(),
            NotificationKind::Success
        ))
    );
    assert_eq!(pending.push_target_remote.as_deref(), Some("x"));
}

#[test]
fn revisions_push_retries_then_falls_back() {
    let mut pending = PendingState {
        push_target_remote: None,
        pending_push_bookmarks: vec![],
        pending_forget_bookmark: None,
        pending_push_tag: None,
    };
    let p = SinglePush::Revisions("abcdefghijkl".to_string());
    let remote = Some("origin".to_string());
    let step = single_push_after_attempt(
        &p,
        &remote,
        None,
        Err("error: unexpected argument '--revisions' found"),
        &mut pending,
    );
    assert_eq!(
        step,
        SinglePushStep::PushIndividually(Notification::info(
            "--revisions not supported, pushing bookmarks individually"
        ))
    );
    assert_eq!(pending.push_target_remote.as_deref(), Some("origin"));

    let step = single_push_after_attempt(&p, &None, None, Err("Won't push commit abc since it is private"), &mut pending);
    assert_eq!(step, SinglePushStep::Retry(vec!["--allow-private"]));
    let flags = ["--allow-private"];
    let step = single_push_after_attempt(&p, &None, Some(&flags), Ok(""), &mut pending);
    assert_eq!(
        step,
        SinglePushStep::Done(Notification::new(
            "Pushed all bookmarks on abcdefgh (private commit allowed)".to_string(),
            NotificationKind::Success
        ))
    );
    let step = single_push_after_attempt(&p, &None, Some(&flags), Err("again"), &mut pending);
    assert_eq!(step, SinglePushStep::Failed("Push failed: again".to_string()));
    let step = single_push_after_attempt(&p, &None, None, Err("network down"), &mut pending);
    assert_eq!(step, SinglePushStep::Failed("Push failed: network down".to_string()));
}

fn select_items(d: &Dialog, single: bool) -> Vec<SelectItem> {
    match &d.kind {
        DialogKind::Select { items, single: s, detail: None } if *s == single => items.clone(),
        other => panic!("expected a selection, got {:?}", other),
    }
}

fn strings(v: &[&str]) -> Vec<String> {
    v.iter().map(|s| s.to_string()).collect()
}

#[test]
fn push_start_dialogs() {
    let remotes = strings(&["origin", "upstream"]);
    let d = push_start_dialog(PushStart::SelectRemote, &remotes, "abc", &[]).expect("dialog");
    assert_eq!(d.title, "Push to Remote");
    assert_eq!(d.message, "Select remote to push to:");
    assert_eq!(d.callback, DialogCallback::GitPushRemoteSelect);
    let values: Vec<String> = select_items(&d, true).iter().map(|i| i.value.clone()).collect();
    assert_eq!(values, vec!["origin", "upstream"]);

    let d = push_start_dialog(PushStart::SelectMode, &[], "abc12345", &[]).expect("dialog");
    assert_eq!(d.message, "No bookmarks on this change. Choose push mode:");
    assert_eq!(d.callback, DialogCallback::GitPushModeSelect { change_id: "abc12345".to_string() });
    let pairs: Vec<(String, String)> =
        select_items(&d, true).iter().map(|i| (i.label.clone(), i.value.clone())).collect();
    assert_eq!(
        pairs,
        vec![
            ("Push by change ID (--change)".to_string(), "change".to_string()),
            ("Push all bookmarks (--all)".to_string(), "all".to_string()),
            ("Push tracked bookmarks (--tracked)".to_string(), "tracked".to_string()),
            ("Push deleted bookmarks (--deleted)".to_string(), "deleted".to_string()),
        ]
    );

    assert!(push_start_dialog(PushStart::PreviewSingle, &[], "abc", &strings(&["main"])).is_none());

    let bookmarks = strings(&["a", "b", "c"]);
    let d = push_start_dialog(PushStart::SelectMultiMode, &[], "abcdefghijk", &bookmarks).expect("dialog");
    assert_eq!(d.message, "3 bookmarks on abcdefgh. Choose push mode:");
    assert_eq!(
        d.callback,
        DialogCallback::GitPushMultiBookmarkMode { change_id: "abcdefghijk".to_string(), bookmarks: bookmarks.clone() }
    );
    let values: Vec<String> = select_items(&d, true).iter().map(|i| i.value.clone()).collect();
    assert_eq!(values, vec!["revisions", "individual"]);
}

// A change with two bookmarks and a remote already chosen: the mode choice
// carries the change and both bookmarks, and nothing is pending.
#[test]
fn push_start_with_two_bookmarks_asks_for_the_mode() {
    let start = plan_push_start(true, Some(2), 2);
    assert_eq!(start, PushStart::SelectMultiMode);
    let bookmarks = strings(&["main", "dev"]);
    let d = push_start_dialog(start, &[], "abc", &bookmarks).expect("dialog");
    assert_eq!(d.title, "Push to Remote");
    assert_eq!(d.message, "2 bookmarks on abc. Choose push mode:");
    assert_eq!(
        d.callback,
        DialogCallback::GitPushMultiBookmarkMode { change_id: "abc".to_string(), bookmarks: bookmarks.clone() }
    );
    let mut pending = pending_with_remote("upstream");
    pending.pending_push_bookmarks.clear();
    let cmd = handle_dialog_result(Some(d.callback), DialogResult::Confirmed(strings(&["revisions"])), &mut pending);
    assert_eq!(cmd, DialogCommand::StartPushRevisions { change_id: "abc".to_string(), bookmarks });
    assert_eq!(pending.push_target_remote.as_deref(), Some("upstream"));
}

#[test]
fn single_push_confirmation_pushes_that_bookmark() {
    let mut pending = pending_with_remote("origin");
    pending.pending_push_bookmarks.clear();
    let step = open_single_push("feature", None, &mut pending);
    let d = match step {
        PushDialogStep::Show(d) => d,
        other => panic!("expected a confirmation, got {:?}", other),
    };
    assert_eq!(d.message, "Push bookmark \"feature\"?");
    assert_eq!(d.callback, DialogCallback::GitPush);
    assert_eq!(pending.pending_push_bookmarks, strings(&["feature"]));
    let cmd = handle_dialog_result(Some(d.callback), DialogResult::Confirmed(vec![]), &mut pending);
    assert_eq!(cmd, DialogCommand::ExecutePush(strings(&["feature"])));

    let mut pending = pending_with_remote("origin");
    pending.pending_push_bookmarks.clear();
    let step = open_single_push("feature", Some(&PushPreviewResult::NothingChanged), &mut pending);
    assert_eq!(
        step,
        PushDialogStep::Notice(Notification::info("Nothing to push: feature is already up to date"))
    );
    assert!(pending.pending_push_bookmarks.is_empty());
    assert_eq!(pending.push_target_remote.as_deref(), Some("origin"));
}

#[test]
fn bulk_push_confirmation_carries_mode_and_remote() {
    let mut pending = pending_with_remote("origin");
    let step = open_bulk_push(PushBulkMode::All, Ok((&PushPreviewResult::Unparsed, "Add bookmark x")), &mut pending);
    match step {
        PushDialogStep::Show(d) => {
            assert_eq!(d.message, "Push all bookmarks?\n\nAdd bookmark x");
            assert_eq!(
                d.callback,
                DialogCallback::GitPushBulkConfirm { mode: PushBulkMode::All, remote: Some("origin".to_string()) }
            );
        }
        other => panic!("expected a confirmation, got {:?}", other),
    }
    assert_eq!(pending.push_target_remote.as_deref(), Some("origin"));
    let step = open_bulk_push(PushBulkMode::All, Err("boom"), &mut pending);
    assert_eq!(step, PushDialogStep::Error("Push failed: boom".to_string()));
    assert!(pending.push_target_remote.is_none());
}

#[test]
fn revisions_push_falls_back_with_its_bookmarks() {
    let mut pending = pending_with_remote("origin");
    let bookmarks = strings(&["a", "b"]);
    let step = open_revisions_push(
        "abcdefghij",
        &bookmarks,
        Err("error: unexpected argument '--revisions' found"),
        &mut pending,
    );
    assert_eq!(
        step,
        PushDialogStep::PushIndividually {
            notice: Notification::info("--revisions not supported, pushing bookmarks individually"),
            bookmarks: bookmarks.clone(),
        }
    );
    assert_eq!(pending.push_target_remote.as_deref(), Some("origin"));
    let step = open_revisions_push("abcdefghij", &bookmarks, Ok(&PushPreviewResult::Unparsed), &mut pending);
    match step {
        PushDialogStep::Show(d) => {
            assert_eq!(d.message, "Push all bookmarks on abcdefgh?");
            assert_eq!(
                d.callback,
                DialogCallback::GitPushRevisions { change_id: "abcdefghij".to_string(), bookmarks: bookmarks.clone() }
            );
        }
        other => panic!("expected a confirmation, got {:?}", other),
    }
    let step = open_revisions_push("abcdefghij", &bookmarks, Ok(&PushPreviewResult::NothingChanged), &mut pending);
    assert_eq!(
        step,
        PushDialogStep::Notice(Notification::info("Nothing to push: all bookmarks are already up to date"))
    );
    assert!(pending.push_target_remote.is_none());
}

#[test]
fn change_push_confirmation_carries_the_change() {
    let mut pending = pending_with_remote("origin");
    match open_change_push("abcdefghij", Ok("  "), &mut pending) {
        PushDialogStep::Show(d) => {
            assert_eq!(d.message, "Push by change ID? (creates push-abcdefgh)");
            assert_eq!(d.callback, DialogCallback::GitPushChange { change_id: "abcdefghij".to_string() });
        }
        other => panic!("expected a confirmation, got {:?}", other),
    }
    assert_eq!(pending.push_target_remote.as_deref(), Some("origin"));
    assert_eq!(
        open_change_push("abcdefghij", Err("network down"), &mut pending),
        PushDialogStep::Error("Push failed: network down".to_string())
    );
    assert!(pending.push_target_remote.is_none());
}

#[test]
fn tag_push_asks_for_the_remote_then_resumes() {
    let mut pending = pending_with_remote("x");
    pending.push_target_remote = None;
    let remotes = strings(&["origin", "upstream"]);
    let d = start_tag_push("v1.0", Some(&remotes), &mut pending);
    assert_eq!(d.callback, DialogCallback::GitPushRemoteSelect);
    assert_eq!(pending.pending_push_tag.as_deref(), Some("v1.0"));
    let cmd = handle_dialog_result(Some(d.callback), DialogResult::Confirmed(strings(&["upstream"])), &mut pending);
    assert_eq!(cmd, DialogCommand::StartTagPush("v1.0".to_string()));
    assert!(pending.pending_push_tag.is_none());
    assert_eq!(pending.push_target_remote.as_deref(), Some("upstream"));
    let d = start_tag_push("v1.0", Some(&remotes), &mut pending);
    assert_eq!(d.title, "Push Tag");
    assert_eq!(d.message, "Push tag 'v1.0' to upstream?");
    assert_eq!(d.callback, DialogCallback::TagPush { name: "v1.0".to_string() });
    let args = execute_tag_push("v1.0", &mut pending);
    assert_eq!(args, strings(&["git", "push", "--remote", "upstream", "--tag", "exact:v1.0"]));
    assert!(pending.push_target_remote.is_none());
    assert!(pending.pending_push_tag.is_none());
    let d = start_tag_push("v2", None, &mut pending);
    assert_eq!(d.message, "Push tag 'v2' to the default remote?");
    let args = execute_tag_push("v2", &mut pending);
    assert_eq!(args, strings(&["git", "push", "--tag", "exact:v2"]));
}
