//! Running a push: the remote chosen for it is consumed whatever the
//! outcome; bookmarks are pushed one by one, each failure retried once with
//! the flags its error asks for; a change or all bookmarks of a revision are
//! pushed in one go, retried the same way, and a jj without `--revisions`
//! falls back to pushing the bookmarks one by one.
use vstd::prelude::*;

use crate::actions::{tag_push_args, tag_push_argv, tag_push_confirm, tag_push_confirm_message, argv_view, Notification, NotificationKind};
use crate::bookmark::name_items;
use crate::dialog::{confirmed_command, confirmed_pending, confirmed_tag, DialogCommand, dialog_items, is_confirm_dialog, is_select_dialog, select_detail, Dialog, DialogCallback, DialogKind, PendingState};
use crate::push::{
    bulk_prompt, bulk_push_prompt, change_prompt, change_push_prompt, prompt_view, remote_select_dialog,
    revisions_prompt, revisions_push_prompt, single_prompt, single_push_prompt, actions_ok, PushBulkMode, PushPreviewResult,
    PushPrompt, UNDO_NOTE,
    bookmark_push_notices, bookmark_push_result, bookmark_push_retry_flags, bookmark_retry_flags,
    build_push_suffix, change_push_notice, detect_push_retry_flags, has_flag, is_revisions_unsupported_error,
    push_change_success_message, push_suffix, pushed_change_bookmark, retry_flags, retry_notes,
    revisions_push_success_message, revisions_unsupported, to_remote, ALLOW_EMPTY_DESC, ALLOW_NEW, ALLOW_PRIVATE,
};
use crate::state::clone_strings;
use crate::text::{abbrev, abbrev_ok, lowercase, push_str, str_views, string_from, string_views};

verus! {

/// The remote as a character sequence, when one was chosen.
pub open spec fn remote_view(remote: Option<String>) -> Option<Seq<char>> {
    match remote {
        Some(r) => Some(r@),
        None => None,
    }
}

/// Take the remote chosen for the push in progress: every push consumes
/// it, whatever its outcome.
pub fn take_push_remote(pending: &mut PendingState) -> (r: Option<String>)
    ensures
        r == old(pending).push_target_remote,
        final(pending).push_target_remote is None,
        final(pending).pending_push_bookmarks@ == old(pending).pending_push_bookmarks@,
        final(pending).pending_forget_bookmark == old(pending).pending_forget_bookmark,
        final(pending).pending_push_tag == old(pending).pending_push_tag,
{
    let mut r: Option<String> = None;
    std::mem::swap(&mut r, &mut pending.push_target_remote);
    r
}

// ---------------------------------------------------------------------------
// Bookmarks one by one
// ---------------------------------------------------------------------------

/// A push of bookmarks one by one in progress.
#[derive(Debug, Clone)]
pub struct BookmarkPushRun {
    /// The remote pushed to (`None`: jj's default).
    pub remote: Option<String>,
    /// Bookmarks pushed, in order.
    pub successes: Vec<String>,
    /// "name: error" for each bookmark that failed, in order.
    pub errors: Vec<String>,
    /// A retry used `--allow-new`.
    pub used_allow_new: bool,
    /// Notes of the other retry flags used, each once, in the order first used.
    pub retry_notes: Vec<&'static str>,
}

/// Start pushing `names` one by one. The chosen remote is consumed even when
/// there is nothing to push (`None`).
pub fn start_bookmark_push(names: &[String], pending: &mut PendingState) -> (r: Option<BookmarkPushRun>)
    ensures
        final(pending).push_target_remote is None,
        final(pending).pending_push_bookmarks@ == old(pending).pending_push_bookmarks@,
        final(pending).pending_forget_bookmark == old(pending).pending_forget_bookmark,
        final(pending).pending_push_tag == old(pending).pending_push_tag,
        names@.len() == 0 <==> r is None,
        r matches Some(run) ==> run.remote == old(pending).push_target_remote && run.successes@.len() == 0
            && run.errors@.len() == 0 && !run.used_allow_new && run.retry_notes@.len() == 0,
{
    let remote = take_push_remote(pending);
    if names.len() == 0 {
        None
    } else {
        Some(
            BookmarkPushRun {
                remote,
                successes: Vec::new(),
                errors: Vec::new(),
                used_allow_new: false,
                retry_notes: Vec::new(),
            },
        )
    }
}

/// "name: error".
fn failure_entry(name: &str, e: &str) -> (r: String)
    ensures
        r@ == name@ + ": "@ + e@,
{
    let mut m = string_from(name);
    push_str(&mut m, ": ");
    push_str(&mut m, e);
    m
}

/// Record the first attempt to push `name`. Returns the flags to retry
/// with; when there are none, the bookmark is settled (pushed, or its error
/// recorded).
pub fn after_push_attempt(run: &mut BookmarkPushRun, name: &str, outcome: Result<(), &str>) -> (r: Vec<&'static str>)
    ensures
        final(run).remote == old(run).remote,
        final(run).used_allow_new == old(run).used_allow_new,
        final(run).retry_notes@ == old(run).retry_notes@,
        match outcome {
            Ok(()) => r@.len() == 0 && string_views(final(run).successes@) == string_views(old(run).successes@).push(
                name@,
            ) && final(run).errors@ == old(run).errors@,
            Err(e) => str_views(r@) == bookmark_retry_flags(lowercase(e@)) && final(run).successes@
                == old(run).successes@ && if r@.len() == 0 {
                string_views(final(run).errors@) == string_views(old(run).errors@).push(name@ + ": "@ + e@)
            } else {
                final(run).errors@ == old(run).errors@
            },
        },
{
    match outcome {
        Ok(()) => {
            run.successes.push(string_from(name));
            assert(string_views(run.successes@) =~= string_views(old(run).successes@).push(name@));
            Vec::new()
        },
        Err(e) => {
            let flags = bookmark_push_retry_flags(e);
            if flags.len() == 0 {
                run.errors.push(failure_entry(name, e));
                assert(string_views(run.errors@) =~= string_views(old(run).errors@).push(name@ + ": "@ + e@));
            }
            flags
        },
    }
}

/// The retry notes after a successful retry with `flags`: each note of a
/// flag used, added once.
pub open spec fn add_notes(notes: Seq<Seq<char>>, flags: Seq<Seq<char>>) -> Seq<Seq<char>> {
    let a = if flags.contains(ALLOW_PRIVATE@) && !notes.contains("private commit allowed"@) {
        notes.push("private commit allowed"@)
    } else {
        notes
    };
    if flags.contains(ALLOW_EMPTY_DESC@) && !a.contains("empty description allowed"@) {
        a.push("empty description allowed"@)
    } else {
        a
    }
}

/// Record the retry of `name` with `flags`.
pub fn after_push_retry(run: &mut BookmarkPushRun, name: &str, flags: &[&str], outcome: Result<(), &str>)
    ensures
        final(run).remote == old(run).remote,
        match outcome {
            Ok(()) => string_views(final(run).successes@) == string_views(old(run).successes@).push(name@)
                && final(run).errors@ == old(run).errors@ && final(run).used_allow_new == (old(run).used_allow_new
                || str_views(flags@).contains(ALLOW_NEW@)) && str_views(final(run).retry_notes@) == add_notes(
                str_views(old(run).retry_notes@),
                str_views(flags@),
            ),
            Err(e) => string_views(final(run).errors@) == string_views(old(run).errors@).push(name@ + ": "@ + e@)
                && final(run).successes@ == old(run).successes@ && final(run).used_allow_new
                == old(run).used_allow_new && final(run).retry_notes@ == old(run).retry_notes@,
        },
{
    match outcome {
        Ok(()) => {
            run.successes.push(string_from(name));
            assert(string_views(run.successes@) =~= string_views(old(run).successes@).push(name@));
            if has_flag(flags, ALLOW_NEW) {
                run.used_allow_new = true;
            }
            let ghost notes0 = str_views(run.retry_notes@);
            if has_flag(flags, ALLOW_PRIVATE) && !has_flag(run.retry_notes.as_slice(), "private commit allowed") {
                run.retry_notes.push("private commit allowed");
                assert(str_views(run.retry_notes@) =~= notes0.push("private commit allowed"@));
            }
            let ghost notes1 = str_views(run.retry_notes@);
            if has_flag(flags, ALLOW_EMPTY_DESC) && !has_flag(run.retry_notes.as_slice(), "empty description allowed") {
                run.retry_notes.push("empty description allowed");
                assert(str_views(run.retry_notes@) =~= notes1.push("empty description allowed"@));
            }
        },
        Err(e) => {
            run.errors.push(failure_entry(name, e));
            assert(string_views(run.errors@) =~= string_views(old(run).errors@).push(name@ + ": "@ + e@));
        },
    }
}

/// The success notice and the error after the last bookmark; the pending
/// bookmarks of the confirmation are cleared.
pub fn finish_bookmark_push(run: &BookmarkPushRun, pending: &mut PendingState) -> (r: (Option<String>, Option<String>))
    ensures
        (
            match r.0 {
                Some(s) => Some(s@),
                None => None,
            },
            match r.1 {
                Some(s) => Some(s@),
                None => None,
            },
        ) == bookmark_push_notices(
            string_views(run.successes@),
            string_views(run.errors@),
            remote_view(run.remote),
            push_suffix(run.used_allow_new, str_views(run.retry_notes@)),
        ),
        final(pending).pending_push_bookmarks@.len() == 0,
        final(pending).push_target_remote == old(pending).push_target_remote,
        final(pending).pending_forget_bookmark == old(pending).pending_forget_bookmark,
        final(pending).pending_push_tag == old(pending).pending_push_tag,
{
    pending.pending_push_bookmarks = Vec::new();
    let suffix = build_push_suffix(run.used_allow_new, run.retry_notes.as_slice());
    let remote = match &run.remote {
        Some(r) => Some(r.as_str()),
        None => None,
    };
    bookmark_push_result(&run.successes, &run.errors, remote, suffix.as_str())
}

// ---------------------------------------------------------------------------
// A change, or all bookmarks of a revision
// ---------------------------------------------------------------------------

/// What is pushed in one go.
#[derive(Debug, Clone, PartialEq, Eq)]
pub enum SinglePush {
    /// `jj git push --change`: the change, under a bookmark created for it.
    Change(String),
    /// `jj git push --revisions`: all bookmarks on the revision.
    Revisions(String),
}

/// What follows an attempt of a push in one go.
#[derive(Debug, Clone, PartialEq, Eq)]
pub enum SinglePushStep {
    /// Pushed: the notice; the log and status are stale.
    Done(Notification),
    /// Try again with these flags.
    Retry(Vec<&'static str>),
    /// This jj has no `--revisions`: the notice, then push the revision's
    /// bookmarks one by one (the remote is chosen again for that).
    PushIndividually(Notification),
    Failed(String),
}

/// The change id of a push in one go.
pub open spec fn pushed_id(p: SinglePush) -> Seq<char> {
    match p {
        SinglePush::Change(id) => id@,
        SinglePush::Revisions(id) => id@,
    }
}

/// The notice after a push in one go succeeded with `output`, having used
/// `flags`.
pub open spec fn single_push_notice(p: SinglePush, remote: Option<Seq<char>>, output: Seq<char>, flags: Seq<Seq<char>>) -> Seq<char> {
    let suffix = push_suffix(false, retry_notes(flags));
    match p {
        SinglePush::Change(id) => change_push_notice(
            Some(pushed_change_bookmark(output, id@)),
            abbrev(id@),
            remote,
            suffix,
        ),
        SinglePush::Revisions(id) => "Pushed all bookmarks on "@ + abbrev(id@) + to_remote(remote) + suffix,
    }
}

/// What follows an attempt of pushing `p` to `remote` that ended with
/// `outcome` (the output, or the error); `retried_with` holds the flags when
/// this attempt was the retry. On the fallback to one-by-one pushing the
/// remote is handed back to `pending`; otherwise `pending` is unchanged.
pub fn single_push_after_attempt(
    p: &SinglePush,
    remote: &Option<String>,
    retried_with: Option<&[&str]>,
    outcome: Result<&str, &str>,
    pending: &mut PendingState,
) -> (r: SinglePushStep)
    requires
        abbrev_ok(pushed_id(*p)),
    ensures
        final(pending).pending_push_bookmarks@ == old(pending).pending_push_bookmarks@,
        final(pending).pending_forget_bookmark == old(pending).pending_forget_bookmark,
        final(pending).pending_push_tag == old(pending).pending_push_tag,
        !(r is PushIndividually) ==> final(pending).push_target_remote == old(pending).push_target_remote,
        match outcome {
            Ok(output) => r matches SinglePushStep::Done(n) && n.kind == NotificationKind::Success && n.message@
                == single_push_notice(
                *p,
                remote_view(*remote),
                output@,
                match retried_with {
                    Some(f) => str_views(f@),
                    None => Seq::empty(),
                },
            ),
            Err(e) => match retried_with {
                Some(_) => r matches SinglePushStep::Failed(m) && m@ == "Push failed: "@ + e@,
                None => if p is Revisions && revisions_unsupported(lowercase(e@)) {
                    (r matches SinglePushStep::PushIndividually(n) && n.kind == NotificationKind::Info && n.message@
                        == "--revisions not supported, pushing bookmarks individually"@)
                        && final(pending).push_target_remote == *remote
                } else if retry_flags(lowercase(e@)).len() > 0 {
                    r matches SinglePushStep::Retry(f) && str_views(f@) == retry_flags(lowercase(e@))
                } else {
                    r matches SinglePushStep::Failed(m) && m@ == "Push failed: "@ + e@
                },
            },
        },
{
    let r_opt = match remote {
        Some(x) => Some(x.as_str()),
        None => None,
    };
    match outcome {
        Ok(output) => {
            let empty: Vec<&str> = Vec::new();
            let flags: &[&str] = match retried_with {
                Some(f) => f,
                None => empty.as_slice(),
            };
            let m = match p {
                SinglePush::Change(id) => push_change_success_message(output, id.as_str(), r_opt, flags),
                SinglePush::Revisions(id) => revisions_push_success_message(id.as_str(), r_opt, flags),
            };
            SinglePushStep::Done(Notification::new(m, NotificationKind::Success))
        },
        Err(e) => {
            if retried_with.is_some() {
                let mut m = string_from("Push failed: ");
                push_str(&mut m, e);
                return SinglePushStep::Failed(m);
            }
            let revisions = match p {
                SinglePush::Revisions(_) => true,
                SinglePush::Change(_) => false,
            };
            if revisions && is_revisions_unsupported_error(e) {
                pending.push_target_remote = remote.clone();
                return SinglePushStep::PushIndividually(
                    Notification::info("--revisions not supported, pushing bookmarks individually"),
                );
            }
            let flags = detect_push_retry_flags(e);
            if flags.len() > 0 {
                SinglePushStep::Retry(flags)
            } else {
                let mut m = string_from("Push failed: ");
                push_str(&mut m, e);
                SinglePushStep::Failed(m)
            }
        },
    }
}

// ---------------------------------------------------------------------------
// Opening the confirmation of a push
// ---------------------------------------------------------------------------

/// What the application shows after the dry run of a push.
#[derive(Debug, Clone, PartialEq, Eq)]
pub enum PushDialogStep {
    /// Ask for confirmation (or a choice).
    Show(Dialog),
    /// Nothing to push: an informational notice.
    Notice(Notification),
    /// The dry run failed.
    Error(String),
    /// `--revisions` is unknown to this jj: the notice, then push `bookmarks`
    /// one by one.
    PushIndividually { notice: Notification, bookmarks: Vec<String> },
}

/// The step for a prompt of kind, message and detail `v` (see
/// [`prompt_view`]): a confirmation titled "Push to Remote" whose
/// confirmation runs `callback`, an informational notice, an error, or the
/// fallback to pushing `bookmarks` one by one.
pub open spec fn push_step_is(r: PushDialogStep, v: (int, Seq<char>, Seq<char>), callback: DialogCallback, bookmarks: Seq<String>) -> bool {
    if v.0 == 0 {
        r matches PushDialogStep::Notice(n) && n.kind == NotificationKind::Info && n.message@ == v.1
    } else if v.0 == 1 {
        r matches PushDialogStep::Show(d) && is_confirm_dialog(d, "Push to Remote"@, v.1, Some(v.2)) && d.callback
            == callback
    } else if v.0 == 2 {
        r matches PushDialogStep::Error(m) && m@ == v.1
    } else {
        r matches PushDialogStep::PushIndividually { notice, bookmarks: b } && notice.kind == NotificationKind::Info
            && notice.message@ == v.1 && b@ == bookmarks
    }
}

fn prompt_step(p: PushPrompt, callback: DialogCallback, bookmarks: Vec<String>) -> (r: PushDialogStep)
    ensures
        push_step_is(r, prompt_view(p), callback, bookmarks@),
{
    match p {
        PushPrompt::Nothing(m) => PushDialogStep::Notice(Notification { message: m, kind: NotificationKind::Info }),
        PushPrompt::Confirm(c) => PushDialogStep::Show(
            Dialog {
                title: string_from("Push to Remote"),
                message: c.message,
                kind: DialogKind::Confirm { detail: Some(c.detail) },
                callback,
            },
        ),
        PushPrompt::Failed(m) => PushDialogStep::Error(m),
        PushPrompt::PushIndividually(m) => PushDialogStep::PushIndividually {
            notice: Notification { message: m, kind: NotificationKind::Info },
            bookmarks,
        },
    }
}

/// The prompt asks for confirmation.
pub open spec fn confirms(v: (int, Seq<char>, Seq<char>)) -> bool {
    v.0 == 1
}

/// After the dry run of pushing the single bookmark `name` (`None` when it
/// failed): the confirmation pushes `name`, which is kept as the pending
/// bookmark; a notice leaves the pending state as it is.
pub fn open_single_push(name: &str, preview: Option<&PushPreviewResult>, pending: &mut PendingState) -> (r: PushDialogStep)
    requires
        preview matches Some(PushPreviewResult::Changes(a)) ==> actions_ok(a@),
    ensures
        ({
            let v = single_prompt(name@, match preview { Some(p) => Some(*p), None => None });
            &&& push_step_is(r, v, DialogCallback::GitPush, Seq::empty())
            &&& confirms(v) ==> final(pending).pending_push_bookmarks@.len() == 1
                && final(pending).pending_push_bookmarks@[0]@ == name@
            &&& !confirms(v) ==> final(pending).pending_push_bookmarks@ == old(pending).pending_push_bookmarks@
        }),
        final(pending).push_target_remote == old(pending).push_target_remote,
        final(pending).pending_forget_bookmark == old(pending).pending_forget_bookmark,
        final(pending).pending_push_tag == old(pending).pending_push_tag,
{
    let p = single_push_prompt(name, preview);
    let confirmed = match &p {
        PushPrompt::Confirm(_) => true,
        _ => false,
    };
    if confirmed {
        let mut names: Vec<String> = Vec::new();
        names.push(string_from(name));
        pending.pending_push_bookmarks = names;
    }
    prompt_step(p, DialogCallback::GitPush, Vec::new())
}

/// After the dry run of a bulk push (`Ok((parsed, raw output))` or the
/// error): the confirmation carries the mode and the chosen remote; a notice
/// or an error clears the chosen remote.
pub fn open_bulk_push(
    mode: PushBulkMode,
    dry_run: Result<(&PushPreviewResult, &str), &str>,
    pending: &mut PendingState,
) -> (r: PushDialogStep)
    requires
        dry_run matches Ok((PushPreviewResult::Changes(a), _)) ==> actions_ok(a@),
    ensures
        ({
            let v = bulk_prompt(mode, match dry_run { Ok((p, o)) => Ok((*p, o@)), Err(e) => Err(e@) });
            &&& push_step_is(
                r,
                v,
                DialogCallback::GitPushBulkConfirm { mode, remote: old(pending).push_target_remote },
                Seq::empty(),
            )
            &&& confirms(v) ==> final(pending).push_target_remote == old(pending).push_target_remote
            &&& !confirms(v) ==> final(pending).push_target_remote is None
        }),
        final(pending).pending_push_bookmarks@ == old(pending).pending_push_bookmarks@,
        final(pending).pending_forget_bookmark == old(pending).pending_forget_bookmark,
        final(pending).pending_push_tag == old(pending).pending_push_tag,
{
    let p = bulk_push_prompt(mode, dry_run);
    let confirmed = match &p {
        PushPrompt::Confirm(_) => true,
        _ => false,
    };
    let remote = pending.push_target_remote.clone();
    if !confirmed {
        pending.push_target_remote = None;
    }
    prompt_step(p, DialogCallback::GitPushBulkConfirm { mode, remote }, Vec::new())
}

/// After the dry run of pushing all bookmarks on `change_id` (the revision
/// carrying `bookmarks`): the confirmation carries the change and its
/// bookmarks; a jj without `--revisions` falls back to pushing `bookmarks`
/// one by one (keeping the chosen remote for that); a notice or an error
/// clears the chosen remote.
pub fn open_revisions_push(
    change_id: &str,
    bookmarks: &[String],
    dry_run: Result<&PushPreviewResult, &str>,
    pending: &mut PendingState,
) -> (r: PushDialogStep)
    requires
        abbrev_ok(change_id@),
        dry_run matches Ok(PushPreviewResult::Changes(a)) ==> actions_ok(a@),
    ensures
        ({
            let v = revisions_prompt(abbrev(change_id@), match dry_run { Ok(p) => Ok(*p), Err(e) => Err(e@) });
            &&& r matches PushDialogStep::Show(d) ==> (d.callback matches DialogCallback::GitPushRevisions {
                change_id: c,
                bookmarks: b,
            } && c@ == change_id@ && b@ == bookmarks@)
            &&& push_step_is(r, v, r->Show_0.callback, bookmarks@)
            &&& (v.0 == 1 || v.0 == 3) ==> final(pending).push_target_remote == old(pending).push_target_remote
            &&& (v.0 == 0 || v.0 == 2) ==> final(pending).push_target_remote is None
        }),
        final(pending).pending_push_bookmarks@ == old(pending).pending_push_bookmarks@,
        final(pending).pending_forget_bookmark == old(pending).pending_forget_bookmark,
        final(pending).pending_push_tag == old(pending).pending_push_tag,
{
    let p = revisions_push_prompt(change_id, dry_run);
    let keep = match &p {
        PushPrompt::Confirm(_) => true,
        PushPrompt::PushIndividually(_) => true,
        _ => false,
    };
    if !keep {
        pending.push_target_remote = None;
    }
    let callback = DialogCallback::GitPushRevisions {
        change_id: string_from(change_id),
        bookmarks: clone_strings(bookmarks),
    };
    prompt_step(p, callback, clone_strings(bookmarks))
}

/// After the dry run of pushing `change_id` by change id (`Ok(raw output)`
/// or the error): the confirmation carries the change; an error clears the
/// chosen remote.
pub fn open_change_push(change_id: &str, dry_run: Result<&str, &str>, pending: &mut PendingState) -> (r: PushDialogStep)
    requires
        abbrev_ok(change_id@),
    ensures
        ({
            let v = change_prompt(abbrev(change_id@), match dry_run { Ok(o) => Ok(o@), Err(e) => Err(e@) });
            &&& r matches PushDialogStep::Show(d) ==> (d.callback matches DialogCallback::GitPushChange {
                change_id: c,
            } && c@ == change_id@)
            &&& push_step_is(r, v, r->Show_0.callback, Seq::empty())
            &&& v.0 == 1 ==> final(pending).push_target_remote == old(pending).push_target_remote
            &&& v.0 != 1 ==> final(pending).push_target_remote is None
        }),
        final(pending).pending_push_bookmarks@ == old(pending).pending_push_bookmarks@,
        final(pending).pending_forget_bookmark == old(pending).pending_forget_bookmark,
        final(pending).pending_push_tag == old(pending).pending_push_tag,
{
    let p = change_push_prompt(change_id, dry_run);
    let confirmed = match &p {
        PushPrompt::Confirm(_) => true,
        _ => false,
    };
    if !confirmed {
        pending.push_target_remote = None;
    }
    prompt_step(p, DialogCallback::GitPushChange { change_id: string_from(change_id) }, Vec::new())
}

// ---------------------------------------------------------------------------
// Tags
// ---------------------------------------------------------------------------

/// Start pushing the tag `name`. With no remote chosen yet and several
/// `remotes` (`None`: the list could not be read), ask for the remote first
/// and remember the tag, so that choosing the remote comes back here;
/// otherwise confirm the push (naming the chosen remote, if any).
pub fn start_tag_push(name: &str, remotes: Option<&[String]>, pending: &mut PendingState) -> (r: Dialog)
    ensures
        ({
            let ask = old(pending).push_target_remote is None && (remotes matches Some(rs) && rs@.len() > 1);
            &&& ask ==> is_select_dialog(r, "Push to Remote"@, "Select remote to push to:"@, true)
                && name_items(dialog_items(r), string_views(remotes->0@)) && r.callback
                == DialogCallback::GitPushRemoteSelect && (final(pending).pending_push_tag matches Some(t) && t@
                == name@)
            &&& !ask ==> is_confirm_dialog(
                r,
                "Push Tag"@,
                tag_push_confirm(name@, remote_view(old(pending).push_target_remote)),
                Some(UNDO_NOTE@),
            ) && (r.callback matches DialogCallback::TagPush { name: n } && n@ == name@)
                && final(pending).pending_push_tag == old(pending).pending_push_tag
        }),
        final(pending).push_target_remote == old(pending).push_target_remote,
        final(pending).pending_push_bookmarks@ == old(pending).pending_push_bookmarks@,
        final(pending).pending_forget_bookmark == old(pending).pending_forget_bookmark,
{
    if pending.push_target_remote.is_none() {
        match remotes {
            Some(rs) => {
                if rs.len() > 1 {
                    pending.pending_push_tag = Some(string_from(name));
                    return remote_select_dialog(rs);
                }
            },
            None => {},
        }
    }
    let message = match &pending.push_target_remote {
        Some(rm) => tag_push_confirm_message(name, Some(rm.as_str())),
        None => tag_push_confirm_message(name, None),
    };
    Dialog {
        title: string_from("Push Tag"),
        message,
        kind: DialogKind::Confirm { detail: Some(string_from(UNDO_NOTE)) },
        callback: DialogCallback::TagPush { name: string_from(name) },
    }
}

/// The arguments of `jj git push` for the confirmed tag `name`: the chosen
/// remote is consumed and the remembered tag cleared, whatever the outcome
/// of the push.
pub fn execute_tag_push(name: &str, pending: &mut PendingState) -> (r: Vec<String>)
    ensures
        argv_view(r@) == tag_push_argv(name@, remote_view(old(pending).push_target_remote)),
        final(pending).push_target_remote is None,
        final(pending).pending_push_tag is None,
        final(pending).pending_push_bookmarks@ == old(pending).pending_push_bookmarks@,
        final(pending).pending_forget_bookmark == old(pending).pending_forget_bookmark,
{
    let remote = take_push_remote(pending);
    pending.pending_push_tag = None;
    match &remote {
        Some(rm) => tag_push_args(name, Some(rm.as_str())),
        None => tag_push_args(name, None),
    }
}

// ---------------------------------------------------------------------------
// From opening to confirming
// ---------------------------------------------------------------------------

/// Confirming the push of one bookmark, as [`open_single_push`] left it,
/// pushes exactly that bookmark.
pub proof fn law_single_push_confirmation_pushes_it(name: Seq<char>, values: Vec<String>, pending: PendingState)
    requires
        values@.len() == 0,
        pending.pending_push_bookmarks@.len() == 1,
        pending.pending_push_bookmarks@[0]@ == name,
    ensures
        confirmed_command(DialogCallback::GitPush, values, pending) matches DialogCommand::ExecutePush(b) && b@.len()
            == 1 && b@[0]@ == name,
{
}

/// Choosing the remote for a tag push, as [`start_tag_push`] left it,
/// resumes that tag push with the chosen remote and forgets the tag.
pub proof fn law_remote_choice_resumes_tag_push(tag: String, values: Vec<String>, pending: PendingState)
    requires
        values@.len() > 0,
        pending.pending_push_tag == Some(tag),
    ensures
        confirmed_command(DialogCallback::GitPushRemoteSelect, values, pending) == DialogCommand::StartTagPush(tag),
        confirmed_tag(DialogCallback::GitPushRemoteSelect, values@, pending) is None,
        confirmed_pending(DialogCallback::GitPushRemoteSelect, values@, pending).0 == Some(values@[0]),
{
}

} // verus!
