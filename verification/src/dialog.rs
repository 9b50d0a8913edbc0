//! Dispatch of closed dialogs: which operation a confirmed dialog starts and
//! which pending state a cancelled dialog clears.
//!
//! The application runs the returned command; this module decides it.
use vstd::prelude::*;

use crate::log_edit::SelectItem;
use crate::push::PushBulkMode;
use crate::text::str_eq;

verus! {

/// Which operation a dialog belongs to (with the data it needs).
#[derive(Debug, Clone, PartialEq, Eq)]
pub enum DialogCallback {
    DeleteBookmarks,
    MoveBookmark { name: String, change_id: String },
    OpRestore,
    GitPush,
    Track,
    BookmarkJump,
    BookmarkForget,
    GitPushChange { change_id: String },
    GitPushRemoteSelect,
    GitFetch,
    GitFetchBranch,
    GitPushModeSelect { change_id: String },
    GitPushBulkConfirm { mode: PushBulkMode, remote: Option<String> },
    BookmarkMoveToWc { name: String },
    BookmarkMoveBackwards { name: String },
    RestoreFile { file_path: String },
    RestoreAll,
    Revert { change_id: String },
    SimplifyParents { change_id: String },
    GitPushRevisions { change_id: String, bookmarks: Vec<String> },
    GitPushMultiBookmarkMode { change_id: String, bookmarks: Vec<String> },
    Parallelize { from: String, to: String },
    TagCreate { revision: String },
    TagDelete { name: String },
    TagPush { name: String },
    WorkspaceAdd,
    WorkspaceForget { name: String },
    WorkspaceRename { old_name: String },
    /// Create a bookmark on `revision` with the typed name.
    BookmarkCreate { revision: String },
    /// Run `jj fix` on `revision` in the chosen mode.
    Fix { revision: String, change_id: String },
    /// Edit the chosen metadata of a commit.
    MetaeditSelect { commit_id: String, change_id: String },
    /// Bisect between `good` and `bad` with the typed command.
    BisectRun { good: String, bad: String },
}

/// The shape of a dialog.
#[derive(Debug, Clone, PartialEq, Eq)]
pub enum DialogKind {
    /// Yes or no, with an optional detail line.
    Confirm { detail: Option<String> },
    /// A list of choices; one (`single`) or several may be chosen.
    Select { items: Vec<SelectItem>, single: bool, detail: Option<String> },
    /// A line of text.
    Input,
}

/// A dialog to show; closing it hands its result to
/// [`handle_dialog_result`] with `callback`.
#[derive(Debug, Clone, PartialEq, Eq)]
pub struct Dialog {
    pub title: String,
    pub message: String,
    pub kind: DialogKind,
    pub callback: DialogCallback,
}

/// A confirmation with this title, message and detail.
pub open spec fn is_confirm_dialog(d: Dialog, t: Seq<char>, m: Seq<char>, det: Option<Seq<char>>) -> bool {
    &&& d.title@ == t
    &&& d.message@ == m
    &&& match d.kind {
        DialogKind::Confirm { detail } => match detail {
            Some(x) => det == Some(x@),
            None => det is None,
        },
        _ => false,
    }
}

/// A selection with this title and message, single-choice when `single`;
/// its items are those of [`dialog_items`].
pub open spec fn is_select_dialog(d: Dialog, t: Seq<char>, m: Seq<char>, single: bool) -> bool {
    &&& d.title@ == t
    &&& d.message@ == m
    &&& d.kind matches DialogKind::Select { single: s, .. } && s == single
}

/// A text input with this title and prompt.
pub open spec fn is_input_dialog(d: Dialog, t: Seq<char>, m: Seq<char>) -> bool {
    &&& d.title@ == t
    &&& d.message@ == m
    &&& d.kind is Input
}

/// The choices of a selection dialog (none for the other kinds).
pub open spec fn dialog_items(d: Dialog) -> Seq<SelectItem> {
    match d.kind {
        DialogKind::Select { items, .. } => items@,
        _ => Seq::empty(),
    }
}

/// The detail line of a selection dialog (none for the other kinds).
pub open spec fn select_detail(d: Dialog) -> Option<Seq<char>> {
    match d.kind {
        DialogKind::Select { detail, .. } => match detail {
            Some(x) => Some(x@),
            None => None,
        },
        _ => None,
    }
}

/// How a dialog was closed: confirmed with the selected or typed values
/// (empty for a plain confirmation), or cancelled.
#[derive(Debug, Clone, PartialEq, Eq)]
pub enum DialogResult {
    Confirmed(Vec<String>),
    Cancelled,
}

/// The operation the application runs after a dialog closes.
#[derive(Debug, Clone, PartialEq, Eq)]
pub enum DialogCommand {
    Nothing,
    ExecutePush(Vec<String>),
    ExecutePushChange(String),
    /// Restart the push flow (a remote has just been chosen).
    StartPush,
    StartPushChange(String),
    StartPushBulk(PushBulkMode),
    ExecutePushBulk { mode: PushBulkMode, remote: Option<String> },
    ExecutePushRevisions { change_id: String, bookmarks: Vec<String> },
    StartPushRevisions { change_id: String, bookmarks: Vec<String> },
    ShowIndividualBookmarkSelect { change_id: String, bookmarks: Vec<String> },
    StartFetchBranchSelect,
    ExecuteFetchWithOption(String),
    ExecuteFetchBranch(String),
    ExecuteBookmarkDelete(Vec<String>),
    ExecuteBookmarkMove { name: String, change_id: String },
    ExecuteBookmarkJump(String),
    ExecuteBookmarkForget,
    ExecuteBookmarkMoveToWc(String),
    ExecuteBookmarkMoveBackwards(String),
    ExecuteTrack(Vec<String>),
    ExecuteRestoreFile(String),
    ExecuteRestoreAll,
    ExecuteRevert(String),
    ExecuteSimplifyParents(String),
    ExecuteParallelize { from: String, to: String },
    ExecuteTagCreate { name: String, revision: String },
    ExecuteTagDelete(String),
    ExecuteTagPush(String),
    ExecuteWorkspaceAdd(String),
    ExecuteWorkspaceForget(String),
    ExecuteWorkspaceRename { old_name: String, new_name: String },
    /// Restart the tag push that asked for the remote.
    StartTagPush(String),
    ExecuteBookmarkCreate { revision: String, name: String },
    ExecuteFix { revision: String, change_id: String, mode: String },
    ExecuteMetaedit { commit_id: String, change_id: String, choice: String },
    /// Bisect with the typed command (`None`: nothing typed, a shell is run).
    ExecuteBisect { good: String, bad: String, command: Option<String> },
}

/// State kept between a dialog and its result.
#[derive(Debug, Clone)]
pub struct PendingState {
    /// Remote chosen for the push in progress (`None` means jj's default).
    pub push_target_remote: Option<String>,
    /// Bookmarks a single-bookmark push confirmation stands for.
    pub pending_push_bookmarks: Vec<String>,
    /// Bookmark a forget confirmation stands for.
    pub pending_forget_bookmark: Option<String>,
    /// Tag whose push is waiting for the remote to be chosen.
    pub pending_push_tag: Option<String>,
}

/// The dialog belongs to the push flow.
pub open spec fn is_push_dialog(c: DialogCallback) -> bool {
    match c {
        DialogCallback::GitPush => true,
        DialogCallback::GitPushChange { .. } => true,
        DialogCallback::GitPushRemoteSelect => true,
        DialogCallback::GitPushModeSelect { .. } => true,
        DialogCallback::GitPushBulkConfirm { .. } => true,
        DialogCallback::GitPushRevisions { .. } => true,
        DialogCallback::GitPushMultiBookmarkMode { .. } => true,
        DialogCallback::TagPush { .. } => true,
        _ => false,
    }
}

/// The first value, if any.
pub open spec fn first_value(values: Seq<String>) -> Option<String> {
    if values.len() > 0 {
        Some(values[0])
    } else {
        None
    }
}

/// The first value, when it is present and not empty.
pub open spec fn first_nonempty(values: Seq<String>) -> Option<String> {
    if values.len() > 0 && values[0]@.len() > 0 {
        Some(values[0])
    } else {
        None
    }
}

/// The command a confirmed dialog starts, given its values and the pending
/// state.
pub open spec fn confirmed_command(c: DialogCallback, values: Vec<String>, pending: PendingState) -> DialogCommand {
    let first = first_value(values@);
    match c {
        DialogCallback::GitPush => if values@.len() == 0 {
            DialogCommand::ExecutePush(pending.pending_push_bookmarks)
        } else {
            DialogCommand::ExecutePush(values)
        },
        DialogCallback::GitPushChange { change_id } => DialogCommand::ExecutePushChange(change_id),
        DialogCallback::GitPushRemoteSelect => match first {
            Some(_) => match pending.pending_push_tag {
                Some(tag) => DialogCommand::StartTagPush(tag),
                None => DialogCommand::StartPush,
            },
            None => DialogCommand::Nothing,
        },
        DialogCallback::GitPushModeSelect { change_id } => match first {
            Some(v) => if v@ == "change"@ {
                DialogCommand::StartPushChange(change_id)
            } else if v@ == "all"@ {
                DialogCommand::StartPushBulk(PushBulkMode::All)
            } else if v@ == "tracked"@ {
                DialogCommand::StartPushBulk(PushBulkMode::TrackedOnly)
            } else if v@ == "deleted"@ {
                DialogCommand::StartPushBulk(PushBulkMode::Deleted)
            } else {
                DialogCommand::Nothing
            },
            None => DialogCommand::Nothing,
        },
        DialogCallback::GitPushBulkConfirm { mode, remote } => DialogCommand::ExecutePushBulk {
            mode,
            remote,
        },
        DialogCallback::GitPushRevisions { change_id, bookmarks } => DialogCommand::ExecutePushRevisions {
            change_id,
            bookmarks,
        },
        DialogCallback::GitPushMultiBookmarkMode { change_id, bookmarks } => match first {
            Some(v) => if v@ == "revisions"@ {
                DialogCommand::StartPushRevisions { change_id, bookmarks }
            } else if v@ == "individual"@ {
                DialogCommand::ShowIndividualBookmarkSelect { change_id, bookmarks }
            } else {
                DialogCommand::Nothing
            },
            None => DialogCommand::Nothing,
        },
        DialogCallback::GitFetch => match first {
            Some(v) => if v@ == "__branch__"@ {
                DialogCommand::StartFetchBranchSelect
            } else {
                DialogCommand::ExecuteFetchWithOption(v)
            },
            None => DialogCommand::Nothing,
        },
        DialogCallback::GitFetchBranch => match first {
            Some(v) => DialogCommand::ExecuteFetchBranch(v),
            None => DialogCommand::Nothing,
        },
        DialogCallback::DeleteBookmarks => DialogCommand::ExecuteBookmarkDelete(values),
        DialogCallback::MoveBookmark { name, change_id } => DialogCommand::ExecuteBookmarkMove {
            name,
            change_id,
        },
        DialogCallback::BookmarkJump => match first {
            Some(v) => DialogCommand::ExecuteBookmarkJump(v),
            None => DialogCommand::Nothing,
        },
        DialogCallback::BookmarkForget => DialogCommand::ExecuteBookmarkForget,
        DialogCallback::BookmarkMoveToWc { name } => DialogCommand::ExecuteBookmarkMoveToWc(name),
        DialogCallback::BookmarkMoveBackwards { name } => DialogCommand::ExecuteBookmarkMoveBackwards(
            name,
        ),
        DialogCallback::OpRestore => DialogCommand::Nothing,
        DialogCallback::Track => DialogCommand::ExecuteTrack(values),
        DialogCallback::RestoreFile { file_path } => DialogCommand::ExecuteRestoreFile(file_path),
        DialogCallback::RestoreAll => DialogCommand::ExecuteRestoreAll,
        DialogCallback::Revert { change_id } => DialogCommand::ExecuteRevert(change_id),
        DialogCallback::SimplifyParents { change_id } => DialogCommand::ExecuteSimplifyParents(
            change_id,
        ),
        DialogCallback::Parallelize { from, to } => DialogCommand::ExecuteParallelize { from, to },
        DialogCallback::TagCreate { revision } => match first_nonempty(values@) {
            Some(name) => DialogCommand::ExecuteTagCreate { name, revision },
            None => DialogCommand::Nothing,
        },
        DialogCallback::TagDelete { name } => DialogCommand::ExecuteTagDelete(name),
        DialogCallback::TagPush { name } => DialogCommand::ExecuteTagPush(name),
        DialogCallback::WorkspaceAdd => match first_nonempty(values@) {
            Some(path) => DialogCommand::ExecuteWorkspaceAdd(path),
            None => DialogCommand::Nothing,
        },
        DialogCallback::WorkspaceForget { name } => DialogCommand::ExecuteWorkspaceForget(name),
        DialogCallback::WorkspaceRename { old_name } => match first_nonempty(values@) {
            Some(new_name) => DialogCommand::ExecuteWorkspaceRename { old_name, new_name },
            None => DialogCommand::Nothing,
        },
        DialogCallback::BookmarkCreate { revision } => match first_nonempty(values@) {
            Some(name) => DialogCommand::ExecuteBookmarkCreate { revision, name },
            None => DialogCommand::Nothing,
        },
        DialogCallback::Fix { revision, change_id } => match first {
            Some(mode) => DialogCommand::ExecuteFix { revision, change_id, mode },
            None => DialogCommand::Nothing,
        },
        DialogCallback::MetaeditSelect { commit_id, change_id } => match first {
            Some(choice) => DialogCommand::ExecuteMetaedit { commit_id, change_id, choice },
            None => DialogCommand::Nothing,
        },
        DialogCallback::BisectRun { good, bad } => DialogCommand::ExecuteBisect {
            good,
            bad,
            command: first_nonempty(values@),
        },
    }
}

/// The pending tag push after a confirmed dialog: choosing the remote
/// resumes (and so consumes) it.
pub open spec fn confirmed_tag(c: DialogCallback, values: Seq<String>, pending: PendingState) -> Option<String> {
    match c {
        DialogCallback::GitPushRemoteSelect => if values.len() > 0 {
            None
        } else {
            pending.pending_push_tag
        },
        _ => pending.pending_push_tag,
    }
}

/// The pending tag push after a cancelled dialog: dropped with the remote
/// selection or the tag push confirmation.
pub open spec fn cancelled_tag(c: DialogCallback, pending: PendingState) -> Option<String> {
    match c {
        DialogCallback::GitPushRemoteSelect => None,
        DialogCallback::TagPush { .. } => None,
        _ => pending.pending_push_tag,
    }
}

/// The pending state after a confirmed dialog.
pub open spec fn confirmed_pending(c: DialogCallback, values: Seq<String>, pending: PendingState) -> (
    Option<String>,
    Seq<String>,
    Option<String>,
) {
    match c {
        DialogCallback::GitPush => if values.len() == 0 {
            (pending.push_target_remote, Seq::empty(), pending.pending_forget_bookmark)
        } else {
            (
                pending.push_target_remote,
                pending.pending_push_bookmarks@,
                pending.pending_forget_bookmark,
            )
        },
        DialogCallback::GitPushRemoteSelect => match first_value(values) {
            Some(v) => (Some(v), pending.pending_push_bookmarks@, pending.pending_forget_bookmark),
            None => (
                pending.push_target_remote,
                pending.pending_push_bookmarks@,
                pending.pending_forget_bookmark,
            ),
        },
        _ => (
            pending.push_target_remote,
            pending.pending_push_bookmarks@,
            pending.pending_forget_bookmark,
        ),
    }
}

/// The pending state after a cancelled dialog: a push dialog drops the
/// chosen remote (and a single-bookmark push its bookmarks), a forget
/// dialog its bookmark.
pub open spec fn cancelled_pending(c: DialogCallback, pending: PendingState) -> (
    Option<String>,
    Seq<String>,
    Option<String>,
) {
    match c {
        DialogCallback::GitPush => (None, Seq::empty(), pending.pending_forget_bookmark),
        DialogCallback::BookmarkForget => (
            pending.push_target_remote,
            pending.pending_push_bookmarks@,
            None,
        ),
        _ => if is_push_dialog(c) {
            (None, pending.pending_push_bookmarks@, pending.pending_forget_bookmark)
        } else {
            (
                pending.push_target_remote,
                pending.pending_push_bookmarks@,
                pending.pending_forget_bookmark,
            )
        },
    }
}

/// The parts of the pending state the contracts speak of.
pub open spec fn pending_view(p: PendingState) -> (Option<String>, Seq<String>, Option<String>) {
    (p.push_target_remote, p.pending_push_bookmarks@, p.pending_forget_bookmark)
}

/// A clone of the first value, if any.
fn first_of(values: &Vec<String>) -> (r: Option<String>)
    ensures
        r == first_value(values@),
{
    if values.len() > 0 {
        Some(values[0].clone())
    } else {
        None
    }
}

/// A clone of the first value, if it is present and not empty.
fn first_nonempty_of(values: &Vec<String>) -> (r: Option<String>)
    ensures
        r == first_nonempty(values@),
{
    if values.len() > 0 && !values[0].as_str().is_empty() {
        Some(values[0].clone())
    } else {
        None
    }
}

/// Handle the result of the dialog that was open (`callback` is its
/// callback, `None` when no dialog was open): on confirmation, the command
/// to run; on cancellation, clean up pending state and run nothing.
pub fn handle_dialog_result(
    callback: Option<DialogCallback>,
    result: DialogResult,
    pending: &mut PendingState,
) -> (r: DialogCommand)
    ensures
        match callback {
            None => r == DialogCommand::Nothing && pending_view(*final(pending)) == pending_view(
                *old(pending),
            ) && final(pending).pending_push_tag == old(pending).pending_push_tag,
            Some(c) => match result {
                DialogResult::Cancelled => r == DialogCommand::Nothing && pending_view(
                    *final(pending),
                ) == cancelled_pending(c, *old(pending)) && final(pending).pending_push_tag
                    == cancelled_tag(c, *old(pending)),
                DialogResult::Confirmed(values) => r == confirmed_command(c, values, *old(pending))
                    && pending_view(*final(pending)) == confirmed_pending(c, values@, *old(pending))
                    && final(pending).pending_push_tag == confirmed_tag(c, values@, *old(pending)),
            },
        },
{
    let c = match callback {
        Some(c) => c,
        None => return DialogCommand::Nothing,
    };
    match result {
        DialogResult::Cancelled => {
            handle_cancel(c, pending);
            DialogCommand::Nothing
        },
        DialogResult::Confirmed(values) => handle_confirm(c, values, pending),
    }
}

/// Clean up pending state when a dialog is cancelled.
fn handle_cancel(c: DialogCallback, pending: &mut PendingState)
    ensures
        pending_view(*final(pending)) == cancelled_pending(c, *old(pending)),
        final(pending).pending_push_tag == cancelled_tag(c, *old(pending)),
{
    match c {
        DialogCallback::GitPush => {
            pending.pending_push_bookmarks = Vec::new();
            pending.push_target_remote = None;
            assert(pending.pending_push_bookmarks@ =~= Seq::<String>::empty());
        },
        DialogCallback::GitPushRemoteSelect | DialogCallback::TagPush { .. } => {
            pending.push_target_remote = None;
            pending.pending_push_tag = None;
        },
        DialogCallback::GitPushChange { .. }
        | DialogCallback::GitPushModeSelect { .. }
        | DialogCallback::GitPushBulkConfirm { .. }
        | DialogCallback::GitPushRevisions { .. }
        | DialogCallback::GitPushMultiBookmarkMode { .. } => {
            pending.push_target_remote = None;
        },
        DialogCallback::BookmarkForget => {
            pending.pending_forget_bookmark = None;
        },
        _ => {},
    }
}

/// The command for a confirmed dialog.
fn handle_confirm(c: DialogCallback, values: Vec<String>, pending: &mut PendingState) -> (r: DialogCommand)
    ensures
        r == confirmed_command(c, values, *old(pending)),
        pending_view(*final(pending)) == confirmed_pending(c, values@, *old(pending)),
        final(pending).pending_push_tag == confirmed_tag(c, values@, *old(pending)),
{
    let first = first_of(&values);
    match c {
        DialogCallback::GitPush => {
            if values.len() == 0 {
                let mut bookmarks: Vec<String> = Vec::new();
                std::mem::swap(&mut bookmarks, &mut pending.pending_push_bookmarks);
                assert(pending.pending_push_bookmarks@ =~= Seq::<String>::empty());
                DialogCommand::ExecutePush(bookmarks)
            } else {
                DialogCommand::ExecutePush(values)
            }
        },
        DialogCallback::GitPushChange { change_id } => DialogCommand::ExecutePushChange(change_id),
        DialogCallback::GitPushRemoteSelect => match first {
            Some(remote) => {
                pending.push_target_remote = Some(remote);
                let mut tag: Option<String> = None;
                std::mem::swap(&mut tag, &mut pending.pending_push_tag);
                match tag {
                    Some(name) => DialogCommand::StartTagPush(name),
                    None => DialogCommand::StartPush,
                }
            },
            None => DialogCommand::Nothing,
        },
        DialogCallback::GitPushModeSelect { change_id } => match first {
            Some(v) => {
                if str_eq(v.as_str(), "change") {
                    DialogCommand::StartPushChange(change_id)
                } else if str_eq(v.as_str(), "all") {
                    DialogCommand::StartPushBulk(PushBulkMode::All)
                } else if str_eq(v.as_str(), "tracked") {
                    DialogCommand::StartPushBulk(PushBulkMode::TrackedOnly)
                } else if str_eq(v.as_str(), "deleted") {
                    DialogCommand::StartPushBulk(PushBulkMode::Deleted)
                } else {
                    DialogCommand::Nothing
                }
            },
            None => DialogCommand::Nothing,
        },
        DialogCallback::GitPushBulkConfirm { mode, remote } => DialogCommand::ExecutePushBulk {
            mode,
            remote,
        },
        DialogCallback::GitPushRevisions { change_id, bookmarks } => DialogCommand::ExecutePushRevisions {
            change_id,
            bookmarks,
        },
        DialogCallback::GitPushMultiBookmarkMode { change_id, bookmarks } => match first {
            Some(v) => {
                if str_eq(v.as_str(), "revisions") {
                    DialogCommand::StartPushRevisions { change_id, bookmarks }
                } else if str_eq(v.as_str(), "individual") {
                    DialogCommand::ShowIndividualBookmarkSelect { change_id, bookmarks }
                } else {
                    DialogCommand::Nothing
                }
            },
            None => DialogCommand::Nothing,
        },
        DialogCallback::GitFetch => match first {
            Some(v) => {
                if str_eq(v.as_str(), "__branch__") {
                    DialogCommand::StartFetchBranchSelect
                } else {
                    DialogCommand::ExecuteFetchWithOption(v)
                }
            },
            None => DialogCommand::Nothing,
        },
        DialogCallback::GitFetchBranch => match first {
            Some(v) => DialogCommand::ExecuteFetchBranch(v),
            None => DialogCommand::Nothing,
        },
        DialogCallback::DeleteBookmarks => DialogCommand::ExecuteBookmarkDelete(values),
        DialogCallback::MoveBookmark { name, change_id } => DialogCommand::ExecuteBookmarkMove {
            name,
            change_id,
        },
        DialogCallback::BookmarkJump => match first {
            Some(v) => DialogCommand::ExecuteBookmarkJump(v),
            None => DialogCommand::Nothing,
        },
        DialogCallback::BookmarkForget => DialogCommand::ExecuteBookmarkForget,
        DialogCallback::BookmarkMoveToWc { name } => DialogCommand::ExecuteBookmarkMoveToWc(name),
        DialogCallback::BookmarkMoveBackwards { name } => DialogCommand::ExecuteBookmarkMoveBackwards(
            name,
        ),
        DialogCallback::OpRestore => DialogCommand::Nothing,
        DialogCallback::Track => DialogCommand::ExecuteTrack(values),
        DialogCallback::RestoreFile { file_path } => DialogCommand::ExecuteRestoreFile(file_path),
        DialogCallback::RestoreAll => DialogCommand::ExecuteRestoreAll,
        DialogCallback::Revert { change_id } => DialogCommand::ExecuteRevert(change_id),
        DialogCallback::SimplifyParents { change_id } => DialogCommand::ExecuteSimplifyParents(
            change_id,
        ),
        DialogCallback::Parallelize { from, to } => DialogCommand::ExecuteParallelize { from, to },
        DialogCallback::TagCreate { revision } => match first_nonempty_of(&values) {
            Some(name) => DialogCommand::ExecuteTagCreate { name, revision },
            None => DialogCommand::Nothing,
        },
        DialogCallback::TagDelete { name } => DialogCommand::ExecuteTagDelete(name),
        DialogCallback::TagPush { name } => DialogCommand::ExecuteTagPush(name),
        DialogCallback::WorkspaceAdd => match first_nonempty_of(&values) {
            Some(path) => DialogCommand::ExecuteWorkspaceAdd(path),
            None => DialogCommand::Nothing,
        },
        DialogCallback::WorkspaceForget { name } => DialogCommand::ExecuteWorkspaceForget(name),
        DialogCallback::WorkspaceRename { old_name } => match first_nonempty_of(&values) {
            Some(new_name) => DialogCommand::ExecuteWorkspaceRename { old_name, new_name },
            None => DialogCommand::Nothing,
        },
        DialogCallback::BookmarkCreate { revision } => match first_nonempty_of(&values) {
            Some(name) => DialogCommand::ExecuteBookmarkCreate { revision, name },
            None => DialogCommand::Nothing,
        },
        DialogCallback::Fix { revision, change_id } => match first {
            Some(mode) => DialogCommand::ExecuteFix { revision, change_id, mode },
            None => DialogCommand::Nothing,
        },
        DialogCallback::MetaeditSelect { commit_id, change_id } => match first {
            Some(choice) => DialogCommand::ExecuteMetaedit { commit_id, change_id, choice },
            None => DialogCommand::Nothing,
        },
        DialogCallback::BisectRun { good, bad } => DialogCommand::ExecuteBisect {
            good,
            bad,
            command: first_nonempty_of(&values),
        },
    }
}

/// Cancelling any dialog of the push flow forgets the chosen remote, and
/// cancelling a push confirmation also forgets the bookmarks it stood for.
pub proof fn law_cancelled_push_forgets_target(c: DialogCallback, pending: PendingState)
    requires
        is_push_dialog(c),
    ensures
        cancelled_pending(c, pending).0 is None,
        c == DialogCallback::GitPush ==> cancelled_pending(c, pending).1.len() == 0,
{
}

/// Confirming a push without choosing pushes the bookmarks the confirmation
/// stood for, and consumes them.
pub proof fn law_confirmed_push_consumes_pending(values: Vec<String>, pending: PendingState)
    requires
        values@.len() == 0,
    ensures
        confirmed_command(DialogCallback::GitPush, values, pending) == DialogCommand::ExecutePush(
            pending.pending_push_bookmarks,
        ),
        confirmed_pending(DialogCallback::GitPush, values@, pending).1.len() == 0,
{
}

/// A dialog that is not part of the push flow leaves the push state alone,
/// whether confirmed or cancelled.
pub proof fn law_other_dialogs_keep_push_state(c: DialogCallback, values: Seq<String>, pending: PendingState)
    requires
        !is_push_dialog(c),
    ensures
        cancelled_pending(c, pending).0 == pending.push_target_remote,
        cancelled_pending(c, pending).1 == pending.pending_push_bookmarks@,
        confirmed_pending(c, values, pending).0 == pending.push_target_remote,
        confirmed_pending(c, values, pending).1 == pending.pending_push_bookmarks@,
{
}

/// Confirming a dialog of choices acts on exactly the chosen values:
/// tracking tracks them, deleting deletes them, pushing pushes them (or, with
/// nothing chosen, the bookmarks the confirmation stood for); a single
/// choice of branch, bookmark target or fetch remote acts on the first value
/// (the branch choice leading to the branch dialog), and without one nothing
/// runs.
pub proof fn law_confirmed_choices_are_acted_on(values: Vec<String>, pending: PendingState)
    ensures
        confirmed_command(DialogCallback::Track, values, pending) == DialogCommand::ExecuteTrack(values),
        confirmed_command(DialogCallback::DeleteBookmarks, values, pending) == DialogCommand::ExecuteBookmarkDelete(
            values,
        ),
        values@.len() > 0 ==> confirmed_command(DialogCallback::GitPush, values, pending)
            == DialogCommand::ExecutePush(values),
        values@.len() > 0 ==> confirmed_command(DialogCallback::GitFetchBranch, values, pending)
            == DialogCommand::ExecuteFetchBranch(values@[0]),
        values@.len() > 0 ==> confirmed_command(DialogCallback::BookmarkJump, values, pending)
            == DialogCommand::ExecuteBookmarkJump(values@[0]),
        values@.len() > 0 && values@[0]@ != "__branch__"@ ==> confirmed_command(
            DialogCallback::GitFetch,
            values,
            pending,
        ) == DialogCommand::ExecuteFetchWithOption(values@[0]),
        values@.len() > 0 && values@[0]@ == "__branch__"@ ==> confirmed_command(
            DialogCallback::GitFetch,
            values,
            pending,
        ) == DialogCommand::StartFetchBranchSelect,
        values@.len() == 0 ==> confirmed_command(DialogCallback::GitFetchBranch, values, pending)
            == DialogCommand::Nothing && confirmed_command(DialogCallback::BookmarkJump, values, pending)
            == DialogCommand::Nothing && confirmed_command(DialogCallback::GitFetch, values, pending)
            == DialogCommand::Nothing,
{
}

/// Confirming a plain confirmation runs the operation on the target the
/// dialog was opened for, whatever values come back.
pub proof fn law_confirmations_run_on_their_target(
    values: Vec<String>,
    pending: PendingState,
    a: String,
    b: String,
    mode: PushBulkMode,
    remote: Option<String>,
    names: Vec<String>,
)
    ensures
        confirmed_command(DialogCallback::GitPushChange { change_id: a }, values, pending)
            == DialogCommand::ExecutePushChange(a),
        confirmed_command(DialogCallback::GitPushBulkConfirm { mode, remote }, values, pending)
            == (DialogCommand::ExecutePushBulk { mode, remote }),
        confirmed_command(DialogCallback::GitPushRevisions { change_id: a, bookmarks: names }, values, pending)
            == (DialogCommand::ExecutePushRevisions { change_id: a, bookmarks: names }),
        confirmed_command(DialogCallback::MoveBookmark { name: a, change_id: b }, values, pending)
            == (DialogCommand::ExecuteBookmarkMove { name: a, change_id: b }),
        confirmed_command(DialogCallback::BookmarkMoveToWc { name: a }, values, pending)
            == DialogCommand::ExecuteBookmarkMoveToWc(a),
        confirmed_command(DialogCallback::BookmarkMoveBackwards { name: a }, values, pending)
            == DialogCommand::ExecuteBookmarkMoveBackwards(a),
        confirmed_command(DialogCallback::BookmarkForget, values, pending) == DialogCommand::ExecuteBookmarkForget,
        confirmed_command(DialogCallback::RestoreFile { file_path: a }, values, pending)
            == DialogCommand::ExecuteRestoreFile(a),
        confirmed_command(DialogCallback::RestoreAll, values, pending) == DialogCommand::ExecuteRestoreAll,
        confirmed_command(DialogCallback::Revert { change_id: a }, values, pending) == DialogCommand::ExecuteRevert(a),
        confirmed_command(DialogCallback::SimplifyParents { change_id: a }, values, pending)
            == DialogCommand::ExecuteSimplifyParents(a),
        confirmed_command(DialogCallback::Parallelize { from: a, to: b }, values, pending)
            == (DialogCommand::ExecuteParallelize { from: a, to: b }),
        confirmed_command(DialogCallback::TagDelete { name: a }, values, pending) == DialogCommand::ExecuteTagDelete(a),
        confirmed_command(DialogCallback::TagPush { name: a }, values, pending) == DialogCommand::ExecuteTagPush(a),
        confirmed_command(DialogCallback::WorkspaceForget { name: a }, values, pending)
            == DialogCommand::ExecuteWorkspaceForget(a),
{
}

/// Confirming a text input with a non-empty first value runs the operation
/// with that text; an empty one runs nothing (bisect then runs a shell).
pub proof fn law_typed_text_is_used(values: Vec<String>, pending: PendingState, a: String)
    ensures
        values@.len() > 0 && values@[0]@.len() > 0 ==> {
            &&& confirmed_command(DialogCallback::TagCreate { revision: a }, values, pending)
                == (DialogCommand::ExecuteTagCreate { name: values@[0], revision: a })
            &&& confirmed_command(DialogCallback::BookmarkCreate { revision: a }, values, pending)
                == (DialogCommand::ExecuteBookmarkCreate { revision: a, name: values@[0] })
            &&& confirmed_command(DialogCallback::WorkspaceRename { old_name: a }, values, pending)
                == (DialogCommand::ExecuteWorkspaceRename { old_name: a, new_name: values@[0] })
            &&& confirmed_command(DialogCallback::WorkspaceAdd, values, pending)
                == DialogCommand::ExecuteWorkspaceAdd(values@[0])
        },
        !(values@.len() > 0 && values@[0]@.len() > 0) ==> {
            &&& confirmed_command(DialogCallback::TagCreate { revision: a }, values, pending) == DialogCommand::Nothing
            &&& confirmed_command(DialogCallback::BookmarkCreate { revision: a }, values, pending)
                == DialogCommand::Nothing
            &&& confirmed_command(DialogCallback::WorkspaceRename { old_name: a }, values, pending)
                == DialogCommand::Nothing
            &&& confirmed_command(DialogCallback::WorkspaceAdd, values, pending) == DialogCommand::Nothing
        },
{
}

/// The push-mode choices lead where their labels say: "change" pushes the
/// change, "all", "tracked" and "deleted" the bookmarks of that kind;
/// "revisions" pushes all bookmarks on the revision and "individual" lets
/// them be chosen; with no value nothing runs. Choosing a remote restarts the
/// push (or the tag push waiting for it).
pub proof fn law_push_choices(values: Vec<String>, pending: PendingState, c: String, names: Vec<String>)
    ensures
        values@.len() > 0 && values@[0]@ == "change"@ ==> confirmed_command(
            DialogCallback::GitPushModeSelect { change_id: c },
            values,
            pending,
        ) == DialogCommand::StartPushChange(c),
        values@.len() > 0 && values@[0]@ == "all"@ ==> confirmed_command(
            DialogCallback::GitPushModeSelect { change_id: c },
            values,
            pending,
        ) == DialogCommand::StartPushBulk(PushBulkMode::All),
        values@.len() > 0 && values@[0]@ == "tracked"@ ==> confirmed_command(
            DialogCallback::GitPushModeSelect { change_id: c },
            values,
            pending,
        ) == DialogCommand::StartPushBulk(PushBulkMode::TrackedOnly),
        values@.len() > 0 && values@[0]@ == "deleted"@ ==> confirmed_command(
            DialogCallback::GitPushModeSelect { change_id: c },
            values,
            pending,
        ) == DialogCommand::StartPushBulk(PushBulkMode::Deleted),
        values@.len() > 0 && values@[0]@ == "revisions"@ ==> confirmed_command(
            DialogCallback::GitPushMultiBookmarkMode { change_id: c, bookmarks: names },
            values,
            pending,
        ) == (DialogCommand::StartPushRevisions { change_id: c, bookmarks: names }),
        values@.len() > 0 && values@[0]@ == "individual"@ ==> confirmed_command(
            DialogCallback::GitPushMultiBookmarkMode { change_id: c, bookmarks: names },
            values,
            pending,
        ) == (DialogCommand::ShowIndividualBookmarkSelect { change_id: c, bookmarks: names }),
        values@.len() == 0 ==> confirmed_command(DialogCallback::GitPushModeSelect { change_id: c }, values, pending)
            == DialogCommand::Nothing,
        values@.len() == 0 ==> confirmed_command(
            DialogCallback::GitPushMultiBookmarkMode { change_id: c, bookmarks: names },
            values,
            pending,
        ) == DialogCommand::Nothing,
        values@.len() == 0 ==> confirmed_command(DialogCallback::GitPushRemoteSelect, values, pending)
            == DialogCommand::Nothing,
        values@.len() > 0 && pending.pending_push_tag is None ==> confirmed_command(
            DialogCallback::GitPushRemoteSelect,
            values,
            pending,
        ) == DialogCommand::StartPush,
{
    reveal_strlit("change");
    reveal_strlit("all");
    reveal_strlit("tracked");
    reveal_strlit("deleted");
    reveal_strlit("revisions");
    reveal_strlit("individual");
    assert("deleted"@[0] != "tracked"@[0]);
}

} // verus!
