//! Outcomes of single jj operations: the notice and the views to mark
//! dirty when one succeeded, the error when it failed, and the guards that
//! refuse an operation before it runs.
use vstd::prelude::*;

use crate::actions::{
    absorb_notification, description_changed, display_name, fetch_notification, format_next_prev_error,
    is_multiline, next_prev_error, next_prev_message, parse_next_prev_message,
    is_multiline_description, nothing_happened, parallelize_notification, simplify_parents_notification,
    without_remote, Notification, NotificationKind,
};
use crate::bookmark::{rename_message, track_message, track_text};
use crate::push::{bulk_label, PushBulkMode};
use crate::revision::{id_prefix, prefix_ok, prefix_view, ROOT_CHANGE_ID};
use crate::state::DirtyFlags;
use crate::text::{
    abbrev, abbrev_ok, all_ws, chars_of, lowercase, push_abbrev, push_str, seq_contains, signed_decimal,
    signed_decimal_string, slice_chars, str_eq, string_from, string_of, string_views, trim_end,
};

verus! {

/// A jj operation whose outcome is reported as a notice.
#[derive(Debug, Clone, PartialEq, Eq)]
pub enum JjOp {
    Describe,
    Edit { change_id: String },
    NewChange,
    NewChangeFrom { display_name: String },
    Commit,
    Abandon { change_id: String },
    Revert { change_id: String },
    RestoreFile { path: String },
    RestoreAll,
    OpRestore { operation_id: String },
    BookmarkCreate { name: String },
    BookmarkMoveToWc { name: String },
    TagCreate { name: String },
    TagDelete { name: String },
    TagTrack { full_name: String },
    TagUntrack { full_name: String },
    TagPush { name: String },
    WorkspaceAdd { path: String },
    WorkspaceForget { name: String },
    WorkspaceRename { new_name: String },
    Undo,
    Redo,
    BookmarkUntrack { full_name: String },
    BookmarkForget { name: String },
    BookmarkMoveBackwards { name: String },
    /// Resolve a conflicted file with a built-in tool (`:ours`, `:theirs`).
    ResolveWith { path: String, tool: String },
    BookmarkMove { name: String },
    BookmarkRename { old_name: String, new_name: String },
    /// Track remote bookmarks, by full name (at least one).
    BookmarkTrack { full_names: Vec<String> },
    PushBulk { mode: PushBulkMode },
}

/// Ids of `op` can be shown in their short form.
pub open spec fn op_ids_ok(op: JjOp) -> bool {
    match op {
        JjOp::OpRestore { operation_id } => prefix_ok(operation_id@, 12),
        JjOp::Edit { change_id } => abbrev_ok(change_id@),
        JjOp::Abandon { change_id } => abbrev_ok(change_id@),
        JjOp::Revert { change_id } => abbrev_ok(change_id@),
        JjOp::BookmarkTrack { full_names } => full_names@.len() > 0,
        _ => true,
    }
}

/// The notice after `op` succeeded.
pub open spec fn success_text(op: JjOp) -> Seq<char> {
    match op {
        JjOp::Describe => "Description updated"@,
        JjOp::Edit { change_id } => "Now editing: "@ + abbrev(change_id@),
        JjOp::NewChange => "Created new change"@,
        JjOp::NewChangeFrom { display_name } => "Created new change from "@ + display_name@,
        JjOp::Commit => "Changes committed"@,
        JjOp::Abandon { change_id } => "Abandoned "@ + abbrev(change_id@) + " (undo: u)"@,
        JjOp::Revert { change_id } => "Reverted "@ + abbrev(change_id@) + " (undo: u)"@,
        JjOp::RestoreFile { path } => "Restored: "@ + path@,
        JjOp::RestoreAll => "All files restored"@,
        JjOp::OpRestore { operation_id } => "Restored to "@ + prefix_view(operation_id@, 12) + " (undo: u)"@,
        JjOp::BookmarkCreate { name } => "Created bookmark: "@ + name@,
        JjOp::BookmarkMoveToWc { name } => "Moved bookmark '"@ + name@ + "' to @"@,
        JjOp::TagCreate { name } => "Tag '"@ + name@ + "' created"@,
        JjOp::TagDelete { name } => "Tag '"@ + name@ + "' deleted"@,
        JjOp::TagTrack { full_name } => "Started tracking: "@ + without_remote(full_name@),
        JjOp::TagUntrack { full_name } => "Stopped tracking: "@ + without_remote(full_name@),
        JjOp::TagPush { name } => "Tag '"@ + name@ + "' pushed"@,
        JjOp::WorkspaceAdd { path } => "Workspace created at '"@ + path@ + "'"@,
        JjOp::WorkspaceForget { name } => "Workspace '"@ + name@ + "' forgotten"@,
        JjOp::WorkspaceRename { new_name } => "Workspace renamed to '"@ + new_name@ + "'"@,
        JjOp::Undo => "Undo complete"@,
        JjOp::Redo => "Redo complete"@,
        JjOp::BookmarkUntrack { full_name } => "Stopped tracking: "@ + without_remote(full_name@),
        JjOp::BookmarkForget { name } => "Forgot bookmark: "@ + name@ + " (remote tracking removed)"@,
        JjOp::BookmarkMoveBackwards { name } => "Moved bookmark '"@ + name@ + "' to @ (backwards)"@,
        JjOp::ResolveWith { path, tool } => "Resolved "@ + path@ + " with "@ + tool@,
        JjOp::BookmarkMove { name } => "Moved bookmark: "@ + name@,
        JjOp::BookmarkRename { old_name, new_name } => "Renamed bookmark: "@ + old_name@ + " \u{2192} "@
            + new_name@,
        JjOp::BookmarkTrack { full_names } => match track_text(string_views(full_names@)) {
            Some(t) => t,
            None => Seq::empty(),
        },
        JjOp::PushBulk { mode } => "Pushed "@ + bulk_label(mode),
    }
}

/// The start of the error after `op` failed (the error text follows).
pub open spec fn failure_prefix(op: JjOp) -> Seq<char> {
    match op {
        JjOp::Describe => "Failed to update description: "@,
        JjOp::Edit { .. } => "Failed to edit: "@,
        JjOp::NewChange => "Failed to create change: "@,
        JjOp::NewChangeFrom { .. } => "Failed to create change: "@,
        JjOp::Commit => "Commit failed: "@,
        JjOp::Abandon { .. } => "Abandon failed: "@,
        JjOp::Revert { .. } => "Revert failed: "@,
        JjOp::RestoreFile { .. } => "Restore failed: "@,
        JjOp::RestoreAll => "Restore failed: "@,
        JjOp::OpRestore { .. } => "Restore failed: "@,
        JjOp::BookmarkCreate { .. } => "Failed to create bookmark: "@,
        JjOp::BookmarkMoveToWc { .. } => "Move failed: "@,
        JjOp::TagCreate { .. } => "Tag creation failed: "@,
        JjOp::TagDelete { .. } => "Tag deletion failed: "@,
        JjOp::TagTrack { .. } => "Failed to track: "@,
        JjOp::TagUntrack { .. } => "Failed to untrack: "@,
        JjOp::TagPush { .. } => "Failed to push tag: "@,
        JjOp::WorkspaceAdd { .. } => "Workspace add failed: "@,
        JjOp::WorkspaceForget { .. } => "Workspace forget failed: "@,
        JjOp::WorkspaceRename { .. } => "Workspace rename failed: "@,
        JjOp::Undo => "Undo failed: "@,
        JjOp::Redo => "Redo failed: "@,
        JjOp::BookmarkUntrack { .. } => "Failed to untrack: "@,
        JjOp::BookmarkForget { .. } => "Forget failed: "@,
        JjOp::BookmarkMoveBackwards { .. } => "Move failed: "@,
        JjOp::ResolveWith { .. } => "Resolve failed: "@,
        JjOp::BookmarkMove { .. } => "Failed to move bookmark: "@,
        JjOp::BookmarkRename { .. } => "Rename failed: "@,
        JjOp::BookmarkTrack { .. } => "Failed to track: "@,
        JjOp::PushBulk { .. } => "Push failed: "@,
    }
}

/// The views `op` makes stale when it succeeds (`None`: none; after a
/// resolve the conflict list is read again instead).
pub open spec fn op_dirty(op: JjOp) -> Option<DirtyFlags> {
    let log = DirtyFlags { log: true, status: false, op_log: true, bookmarks: false };
    let log_status = DirtyFlags { log: true, status: true, op_log: true, bookmarks: false };
    let log_bookmarks = DirtyFlags { log: true, status: false, op_log: true, bookmarks: true };
    let all = DirtyFlags { log: true, status: true, op_log: true, bookmarks: true };
    match op {
        JjOp::Describe => Some(log),
        JjOp::Revert { .. } => Some(log),
        JjOp::OpRestore { .. } => Some(all),
        JjOp::BookmarkCreate { .. } => Some(log_bookmarks),
        JjOp::BookmarkMoveToWc { .. } => Some(log_bookmarks),
        JjOp::TagCreate { .. } => Some(log),
        JjOp::TagDelete { .. } => Some(log),
        JjOp::TagTrack { .. } => Some(log),
        JjOp::TagUntrack { .. } => Some(log),
        JjOp::TagPush { .. } => Some(log),
        JjOp::WorkspaceAdd { .. } => Some(log),
        JjOp::WorkspaceForget { .. } => Some(log),
        JjOp::WorkspaceRename { .. } => None,
        JjOp::Undo => Some(all),
        JjOp::Redo => Some(all),
        JjOp::BookmarkUntrack { .. } => Some(all),
        JjOp::BookmarkForget { .. } => Some(log_bookmarks),
        JjOp::BookmarkMoveBackwards { .. } => Some(log_bookmarks),
        JjOp::ResolveWith { .. } => None,
        JjOp::BookmarkMove { .. } => Some(log_bookmarks),
        JjOp::BookmarkRename { .. } => Some(log_bookmarks),
        JjOp::BookmarkTrack { .. } => Some(all),
        _ => Some(log_status),
    }
}

/// Which views an operation leaves stale. Every operation but a workspace
/// rename and a resolve with a built-in tool makes the log and the operation
/// log stale. Those that change the working copy's files (edit, new change,
/// commit, abandon, restoring files, a bulk push) also make the status stale;
/// those that move, create, rename or forget bookmarks make the bookmarks
/// stale; undo, redo, restoring an operation and (un)tracking bookmarks make
/// everything stale.
pub proof fn law_operations_mark_their_views_stale(op: JjOp)
    ensures
        (op is Edit || op is NewChange || op is NewChangeFrom || op is Commit || op is Abandon || op is RestoreFile
            || op is RestoreAll || op is PushBulk) ==> op_dirty(op) == Some(
            DirtyFlags { log: true, status: true, op_log: true, bookmarks: false },
        ),
        (op is Undo || op is Redo || op is OpRestore || op is BookmarkUntrack || op is BookmarkTrack) ==> op_dirty(op)
            == Some(DirtyFlags { log: true, status: true, op_log: true, bookmarks: true }),
        (op is BookmarkCreate || op is BookmarkMoveToWc || op is BookmarkForget || op is BookmarkMoveBackwards
            || op is BookmarkMove || op is BookmarkRename) ==> op_dirty(op) == Some(
            DirtyFlags { log: true, status: false, op_log: true, bookmarks: true },
        ),
        (op is Describe || op is Revert || op is TagCreate || op is TagDelete || op is TagTrack || op is TagUntrack
            || op is TagPush || op is WorkspaceAdd || op is WorkspaceForget) ==> op_dirty(op) == Some(
            DirtyFlags { log: true, status: false, op_log: true, bookmarks: false },
        ),
        (op is WorkspaceRename || op is ResolveWith) ==> op_dirty(op) is None,
{
}

/// The notice and stale views after `op` succeeded.
pub fn op_succeeded(op: &JjOp) -> (r: (Notification, Option<DirtyFlags>))
    requires
        op_ids_ok(*op),
    ensures
        r.0.kind == NotificationKind::Success,
        r.0.message@ == success_text(*op),
        r.1 == op_dirty(*op),
{
    let log = DirtyFlags::log();
    let log_status = DirtyFlags::log_and_status();
    let log_bookmarks = DirtyFlags::log_and_bookmarks();
    let (m, d): (String, Option<DirtyFlags>) = match op {
        JjOp::Describe => (string_from("Description updated"), Some(log)),
        JjOp::Edit { change_id } => {
            let mut m = string_from("Now editing: ");
            push_abbrev(&mut m, change_id.as_str());
            (m, Some(log_status))
        },
        JjOp::NewChange => (string_from("Created new change"), Some(log_status)),
        JjOp::NewChangeFrom { display_name } => {
            let mut m = string_from("Created new change from ");
            push_str(&mut m, display_name.as_str());
            (m, Some(log_status))
        },
        JjOp::Commit => (string_from("Changes committed"), Some(log_status)),
        JjOp::Abandon { change_id } => {
            let mut m = string_from("Abandoned ");
            push_abbrev(&mut m, change_id.as_str());
            push_str(&mut m, " (undo: u)");
            (m, Some(log_status))
        },
        JjOp::Revert { change_id } => {
            let mut m = string_from("Reverted ");
            push_abbrev(&mut m, change_id.as_str());
            push_str(&mut m, " (undo: u)");
            (m, Some(log))
        },
        JjOp::RestoreFile { path } => {
            let mut m = string_from("Restored: ");
            push_str(&mut m, path.as_str());
            (m, Some(log_status))
        },
        JjOp::RestoreAll => (string_from("All files restored"), Some(log_status)),
        JjOp::OpRestore { operation_id } => {
            let mut m = string_from("Restored to ");
            push_str(&mut m, id_prefix(operation_id.as_str(), 12));
            push_str(&mut m, " (undo: u)");
            (m, Some(DirtyFlags::all()))
        },
        JjOp::BookmarkCreate { name } => {
            let mut m = string_from("Created bookmark: ");
            push_str(&mut m, name.as_str());
            (m, Some(log_bookmarks))
        },
        JjOp::BookmarkMoveToWc { name } => {
            let mut m = string_from("Moved bookmark '");
            push_str(&mut m, name.as_str());
            push_str(&mut m, "' to @");
            (m, Some(log_bookmarks))
        },
        JjOp::TagCreate { name } => {
            let mut m = string_from("Tag '");
            push_str(&mut m, name.as_str());
            push_str(&mut m, "' created");
            (m, Some(log))
        },
        JjOp::TagDelete { name } => {
            let mut m = string_from("Tag '");
            push_str(&mut m, name.as_str());
            push_str(&mut m, "' deleted");
            (m, Some(log))
        },
        JjOp::TagTrack { full_name } => {
            let mut m = string_from("Started tracking: ");
            let d = display_name(full_name.as_str());
            push_str(&mut m, d.as_str());
            (m, Some(log))
        },
        JjOp::TagUntrack { full_name } => {
            let mut m = string_from("Stopped tracking: ");
            let d = display_name(full_name.as_str());
            push_str(&mut m, d.as_str());
            (m, Some(log))
        },
        JjOp::TagPush { name } => {
            let mut m = string_from("Tag '");
            push_str(&mut m, name.as_str());
            push_str(&mut m, "' pushed");
            (m, Some(log))
        },
        JjOp::WorkspaceAdd { path } => {
            let mut m = string_from("Workspace created at '");
            push_str(&mut m, path.as_str());
            push_str(&mut m, "'");
            (m, Some(log))
        },
        JjOp::WorkspaceForget { name } => {
            let mut m = string_from("Workspace '");
            push_str(&mut m, name.as_str());
            push_str(&mut m, "' forgotten");
            (m, Some(log))
        },
        JjOp::WorkspaceRename { new_name } => {
            let mut m = string_from("Workspace renamed to '");
            push_str(&mut m, new_name.as_str());
            push_str(&mut m, "'");
            (m, None)
        },
        JjOp::Undo => (string_from("Undo complete"), Some(DirtyFlags::all())),
        JjOp::Redo => (string_from("Redo complete"), Some(DirtyFlags::all())),
        JjOp::BookmarkUntrack { full_name } => {
            let mut m = string_from("Stopped tracking: ");
            let d = display_name(full_name.as_str());
            push_str(&mut m, d.as_str());
            (m, Some(DirtyFlags::all()))
        },
        JjOp::BookmarkForget { name } => {
            let mut m = string_from("Forgot bookmark: ");
            push_str(&mut m, name.as_str());
            push_str(&mut m, " (remote tracking removed)");
            (m, Some(log_bookmarks))
        },
        JjOp::BookmarkMoveBackwards { name } => {
            let mut m = string_from("Moved bookmark '");
            push_str(&mut m, name.as_str());
            push_str(&mut m, "' to @ (backwards)");
            (m, Some(log_bookmarks))
        },
        JjOp::ResolveWith { path, tool } => {
            let mut m = string_from("Resolved ");
            push_str(&mut m, path.as_str());
            push_str(&mut m, " with ");
            push_str(&mut m, tool.as_str());
            (m, None)
        },
        JjOp::BookmarkMove { name } => {
            let mut m = string_from("Moved bookmark: ");
            push_str(&mut m, name.as_str());
            (m, Some(log_bookmarks))
        },
        JjOp::BookmarkRename { old_name, new_name } => (
            rename_message(old_name.as_str(), new_name.as_str()),
            Some(log_bookmarks),
        ),
        JjOp::BookmarkTrack { full_names } => {
            let m = match track_message(full_names.as_slice()) {
                Some(m) => m,
                None => String::new(),
            };
            (m, Some(DirtyFlags::all()))
        },
        JjOp::PushBulk { mode } => {
            let mut m = string_from("Pushed ");
            push_str(&mut m, mode.label());
            (m, Some(log_status))
        },
    };
    assert(m@ =~= success_text(*op));
    (Notification::new(m, NotificationKind::Success), d)
}

/// The error after `op` failed with `err`.
pub fn op_failed(op: &JjOp, err: &str) -> (r: String)
    ensures
        r@ == failure_prefix(*op) + err@,
{
    let mut m = match op {
        JjOp::Describe => string_from("Failed to update description: "),
        JjOp::Edit { .. } => string_from("Failed to edit: "),
        JjOp::NewChange => string_from("Failed to create change: "),
        JjOp::NewChangeFrom { .. } => string_from("Failed to create change: "),
        JjOp::Commit => string_from("Commit failed: "),
        JjOp::Abandon { .. } => string_from("Abandon failed: "),
        JjOp::Revert { .. } => string_from("Revert failed: "),
        JjOp::RestoreFile { .. } => string_from("Restore failed: "),
        JjOp::RestoreAll => string_from("Restore failed: "),
        JjOp::OpRestore { .. } => string_from("Restore failed: "),
        JjOp::BookmarkCreate { .. } => string_from("Failed to create bookmark: "),
        JjOp::BookmarkMoveToWc { .. } => string_from("Move failed: "),
        JjOp::TagCreate { .. } => string_from("Tag creation failed: "),
        JjOp::TagDelete { .. } => string_from("Tag deletion failed: "),
        JjOp::TagTrack { .. } => string_from("Failed to track: "),
        JjOp::TagUntrack { .. } => string_from("Failed to untrack: "),
        JjOp::TagPush { .. } => string_from("Failed to push tag: "),
        JjOp::WorkspaceAdd { .. } => string_from("Workspace add failed: "),
        JjOp::WorkspaceForget { .. } => string_from("Workspace forget failed: "),
        JjOp::WorkspaceRename { .. } => string_from("Workspace rename failed: "),
        JjOp::Undo => string_from("Undo failed: "),
        JjOp::Redo => string_from("Redo failed: "),
        JjOp::BookmarkUntrack { .. } => string_from("Failed to untrack: "),
        JjOp::BookmarkForget { .. } => string_from("Forget failed: "),
        JjOp::BookmarkMoveBackwards { .. } => string_from("Move failed: "),
        JjOp::ResolveWith { .. } => string_from("Resolve failed: "),
        JjOp::BookmarkMove { .. } => string_from("Failed to move bookmark: "),
        JjOp::BookmarkRename { .. } => string_from("Rename failed: "),
        JjOp::BookmarkTrack { .. } => string_from("Failed to track: "),
        JjOp::PushBulk { .. } => string_from("Push failed: "),
    };
    push_str(&mut m, err);
    m
}

// ---------------------------------------------------------------------------
// Guards
// ---------------------------------------------------------------------------

/// The root commit cannot be abandoned.
pub fn abandon_refusal(change_id: &str) -> (r: Option<Notification>)
    ensures
        change_id@ == ROOT_CHANGE_ID@ ==> (r matches Some(n) && n.kind == NotificationKind::Info && n.message@
            == "Cannot abandon: root commit"@),
        change_id@ != ROOT_CHANGE_ID@ ==> r is None,
{
    if str_eq(change_id, ROOT_CHANGE_ID) {
        Some(Notification::info("Cannot abandon: root commit"))
    } else {
        None
    }
}

/// The root commit has no parent to squash into.
pub fn squash_refusal(source: &str) -> (r: Option<Notification>)
    ensures
        source@ == ROOT_CHANGE_ID@ ==> (r matches Some(n) && n.kind == NotificationKind::Info && n.message@
            == "Cannot squash: root commit has no parent"@),
        source@ != ROOT_CHANGE_ID@ ==> r is None,
{
    if str_eq(source, ROOT_CHANGE_ID) {
        Some(Notification::info("Cannot squash: root commit has no parent"))
    } else {
        None
    }
}

/// An empty revision has nothing to split.
pub fn split_refusal(is_empty: bool) -> (r: Option<Notification>)
    ensures
        is_empty ==> (r matches Some(n) && n.kind == NotificationKind::Info && n.message@
            == "Cannot split: no changes in this revision"@),
        !is_empty ==> r is None,
{
    if is_empty {
        Some(Notification::info("Cannot split: no changes in this revision"))
    } else {
        None
    }
}

/// The external merge tool runs only on the working copy.
pub fn resolve_external_refusal(is_working_copy: bool) -> (r: Option<Notification>)
    ensures
        !is_working_copy ==> (r matches Some(n) && n.kind == NotificationKind::Warning && n.message@
            == "External merge tool only works for working copy (@)"@),
        is_working_copy ==> r is None,
{
    if is_working_copy {
        None
    } else {
        Some(Notification::warning("External merge tool only works for working copy (@)"))
    }
}

/// An immutable commit cannot be described.
pub fn describe_refusal(immutable: bool) -> (r: Option<String>)
    ensures
        immutable ==> (r matches Some(e) && e@ == "Cannot describe: commit is immutable"@),
        !immutable ==> r is None,
{
    if immutable {
        Some(string_from("Cannot describe: commit is immutable"))
    } else {
        None
    }
}

// ---------------------------------------------------------------------------
// Redo
// ---------------------------------------------------------------------------

/// What redo does, given the lookup of the operation to restore.
#[derive(Debug, Clone, PartialEq, Eq)]
pub enum RedoStep {
    /// Restore this operation, then report [`JjOp::Redo`].
    Run(String),
    /// The last operation was not an undo.
    Nothing(Notification),
    /// The lookup failed.
    Failed(String),
}

/// Redo after looking up its target: `Ok(Some(id))` when the last operation
/// was an undo (of the operation `id`), `Ok(None)` when it was not (several
/// undos in a row included), `Err` when the lookup failed.
pub fn redo_step(target: Result<Option<&str>, &str>) -> (r: RedoStep)
    ensures
        match target {
            Ok(Some(id)) => r matches RedoStep::Run(x) && x@ == id@,
            Ok(None) => r matches RedoStep::Nothing(n) && n.kind == NotificationKind::Info && n.message@
                == "Nothing to redo (use 'o' for operation history after multiple undos)"@,
            Err(e) => r matches RedoStep::Failed(m) && m@ == "Failed to check redo target: "@ + e@,
        },
{
    match target {
        Ok(Some(id)) => RedoStep::Run(string_from(id)),
        Ok(None) => RedoStep::Nothing(
            Notification::info("Nothing to redo (use 'o' for operation history after multiple undos)"),
        ),
        Err(e) => {
            let mut m = string_from("Failed to check redo target: ");
            push_str(&mut m, e);
            RedoStep::Failed(m)
        },
    }
}

// ---------------------------------------------------------------------------
// Interactive operations
// ---------------------------------------------------------------------------

/// An operation that hands the terminal to jj (an editor may open).
#[derive(Debug, Clone, PartialEq, Eq)]
pub enum InteractiveOp {
    SquashInto { source: String, destination: String },
    Split { change_id: String },
    Diffedit { change_id: String },
    /// Resolve a conflicted file in the external merge tool.
    Resolve { path: String },
}

/// How an interactive jj run ended.
#[derive(Debug, Clone, PartialEq, Eq)]
pub enum InteractiveEnd {
    /// Exit status zero.
    Succeeded,
    /// A non-zero exit: the editor was cancelled, or jj failed.
    Unsuccessful,
    /// jj could not be run (the error text).
    NotRun(String),
}

/// The notice or error after an interactive operation; whatever the
/// outcome, the caller reloads (the log and status, or the conflict list
/// after a resolve).
pub open spec fn interactive_text(op: InteractiveOp, end: InteractiveEnd) -> (NotificationKind, Seq<char>, bool) {
    let (done, cancelled, failed) = match op {
        InteractiveOp::SquashInto { source, destination } => (
            "Squashed "@ + abbrev(source@) + " into "@ + abbrev(destination@) + " (undo: u)"@,
            "Squash cancelled or failed"@,
            "Squash failed: "@,
        ),
        InteractiveOp::Split { change_id } => (
            "Split "@ + abbrev(change_id@) + " complete (undo: u)"@,
            "Split cancelled or failed"@,
            "Split failed: "@,
        ),
        InteractiveOp::Diffedit { change_id } => (
            "Diffedit "@ + abbrev(change_id@) + " complete (undo: u)"@,
            "Diffedit cancelled or failed"@,
            "Diffedit failed: "@,
        ),
        InteractiveOp::Resolve { path } => (
            "Resolved "@ + path@,
            "Resolve cancelled or failed"@,
            "Resolve failed: "@,
        ),
    };
    match end {
        InteractiveEnd::Succeeded => (NotificationKind::Success, done, false),
        InteractiveEnd::Unsuccessful => (NotificationKind::Info, cancelled, false),
        InteractiveEnd::NotRun(e) => (NotificationKind::Info, failed + e@, true),
    }
}

/// The ids a successful interactive operation names can be cut at eight
/// bytes.
pub open spec fn interactive_ids_ok(op: InteractiveOp) -> bool {
    match op {
        InteractiveOp::SquashInto { source, destination } => abbrev_ok(source@) && abbrev_ok(destination@),
        InteractiveOp::Split { change_id } => abbrev_ok(change_id@),
        InteractiveOp::Diffedit { change_id } => abbrev_ok(change_id@),
        InteractiveOp::Resolve { .. } => true,
    }
}

/// What to show after an interactive operation.
#[derive(Debug, Clone, PartialEq, Eq)]
pub enum Shown {
    Notice(Notification),
    Error(String),
}

/// The notice (or, when jj could not run, the error) after an interactive
/// operation ended with `end`.
pub fn interactive_outcome(op: &InteractiveOp, end: &InteractiveEnd) -> (r: Shown)
    requires
        *end == InteractiveEnd::Succeeded ==> interactive_ids_ok(*op),
    ensures
        match r {
            Shown::Notice(n) => !interactive_text(*op, *end).2 && n.kind == interactive_text(*op, *end).0
                && n.message@ == interactive_text(*op, *end).1,
            Shown::Error(e) => interactive_text(*op, *end).2 && e@ == interactive_text(*op, *end).1,
        },
{
    match end {
        InteractiveEnd::Succeeded => {
            let m = match op {
                InteractiveOp::SquashInto { source, destination } => {
                    let mut m = string_from("Squashed ");
                    push_abbrev(&mut m, source.as_str());
                    push_str(&mut m, " into ");
                    push_abbrev(&mut m, destination.as_str());
                    push_str(&mut m, " (undo: u)");
                    m
                },
                InteractiveOp::Split { change_id } => {
                    let mut m = string_from("Split ");
                    push_abbrev(&mut m, change_id.as_str());
                    push_str(&mut m, " complete (undo: u)");
                    m
                },
                InteractiveOp::Diffedit { change_id } => {
                    let mut m = string_from("Diffedit ");
                    push_abbrev(&mut m, change_id.as_str());
                    push_str(&mut m, " complete (undo: u)");
                    m
                },
                InteractiveOp::Resolve { path } => {
                    let mut m = string_from("Resolved ");
                    push_str(&mut m, path.as_str());
                    m
                },
            };
            assert(m@ =~= interactive_text(*op, *end).1);
            Shown::Notice(Notification::new(m, NotificationKind::Success))
        },
        InteractiveEnd::Unsuccessful => {
            let m = match op {
                InteractiveOp::SquashInto { .. } => "Squash cancelled or failed",
                InteractiveOp::Split { .. } => "Split cancelled or failed",
                InteractiveOp::Diffedit { .. } => "Diffedit cancelled or failed",
                InteractiveOp::Resolve { .. } => "Resolve cancelled or failed",
            };
            Shown::Notice(Notification::info(m))
        },
        InteractiveEnd::NotRun(e) => {
            let mut m = match op {
                InteractiveOp::SquashInto { .. } => string_from("Squash failed: "),
                InteractiveOp::Split { .. } => string_from("Split failed: "),
                InteractiveOp::Diffedit { .. } => string_from("Diffedit failed: "),
                InteractiveOp::Resolve { .. } => string_from("Resolve failed: "),
            };
            push_str(&mut m, e.as_str());
            Shown::Error(m)
        },
    }
}

// ---------------------------------------------------------------------------
// Describe
// ---------------------------------------------------------------------------

/// `s` without its trailing newlines.
pub open spec fn trim_trailing_newlines(s: Seq<char>) -> Seq<char>
    decreases s.len(),
{
    if s.len() > 0 && s.last() == '\n' {
        trim_trailing_newlines(s.drop_last())
    } else {
        s
    }
}

/// How describing a change starts.
#[derive(Debug, Clone, PartialEq, Eq)]
pub enum DescribeStart {
    /// Edit this one-line description inline.
    Inline(String),
    /// The description has several lines: open the external editor.
    External,
    /// Reading the description failed.
    Failed(String),
}

/// Start describing a change whose full description was read as
/// `description` (or failed with the error text).
pub fn describe_start(description: Result<&str, &str>) -> (r: DescribeStart)
    ensures
        match description {
            Ok(d) => if is_multiline(trim_trailing_newlines(d@)) {
                r is External
            } else {
                r matches DescribeStart::Inline(t) && t@ == trim_trailing_newlines(d@)
            },
            Err(e) => r matches DescribeStart::Failed(m) && m@ == "Failed to get description: "@ + e@,
        },
{
    match description {
        Ok(d) => {
            let v = chars_of(d);
            let mut j: usize = v.len();
            assert(v@.subrange(0, j as int) =~= v@);
            while j > 0 && v[j - 1] == '\n'
                invariant
                    j <= v@.len(),
                    trim_trailing_newlines(v@) == trim_trailing_newlines(v@.subrange(0, j as int)),
                decreases j,
            {
                assert(v@.subrange(0, j as int).drop_last() =~= v@.subrange(0, j - 1));
                j = j - 1;
            }
            let t = string_of(slice_chars(&v, 0, j).as_slice());
            if is_multiline_description(t.as_str()) {
                DescribeStart::External
            } else {
                DescribeStart::Inline(t)
            }
        },
        Err(e) => {
            let mut m = string_from("Failed to get description: ");
            push_str(&mut m, e);
            DescribeStart::Failed(m)
        },
    }
}

/// How the external editor run by `jj describe` ended.
#[derive(Debug, Clone, PartialEq, Eq)]
pub enum EditorExit {
    Succeeded,
    /// A non-zero exit, with its code when there is one.
    Failed(Option<i32>),
    /// The editor could not be run (the error text).
    NotRun(String),
}

/// What to show after describing in the external editor. `before` and
/// `after` are the description read before and after the edit, when those
/// reads succeeded; trailing whitespace does not count as a change.
pub fn describe_editor_outcome(before: Option<&str>, exit: &EditorExit, after: Option<&str>) -> (r: Shown)
    ensures
        match exit {
            EditorExit::Succeeded => match (before, after) {
                (Some(b), Some(a)) => if trim_end(b@) == trim_end(a@) {
                    r matches Shown::Notice(n) && n.kind == NotificationKind::Info && n.message@
                        == "Description unchanged"@
                } else {
                    r matches Shown::Notice(n) && n.kind == NotificationKind::Success && n.message@
                        == "Description updated"@
                },
                _ => r matches Shown::Notice(n) && n.kind == NotificationKind::Success && n.message@
                    == "Describe editor closed"@,
            },
            EditorExit::Failed(code) => r matches Shown::Error(m) && m@
                == "Describe editor exited with error (code: "@ + signed_decimal(
                match code {
                    Some(c) => c as int,
                    None => -1,
                },
            ) + ")"@,
            EditorExit::NotRun(e) => r matches Shown::Error(m) && m@ == "Describe failed: "@ + e@,
        },
{
    match exit {
        EditorExit::Succeeded => match (before, after) {
            (Some(b), Some(a)) => {
                if description_changed(b, a) {
                    Shown::Notice(Notification::success("Description updated"))
                } else {
                    Shown::Notice(Notification::info("Description unchanged"))
                }
            },
            _ => Shown::Notice(Notification::success("Describe editor closed")),
        },
        EditorExit::Failed(code) => {
            let c: i32 = match code {
                Some(c) => *c,
                None => -1,
            };
            let mut m = string_from("Describe editor exited with error (code: ");
            let d = signed_decimal_string(c);
            push_str(&mut m, d.as_str());
            push_str(&mut m, ")");
            Shown::Error(m)
        },
        EditorExit::NotRun(e) => {
            let mut m = string_from("Describe failed: ");
            push_str(&mut m, e.as_str());
            Shown::Error(m)
        },
    }
}

// ---------------------------------------------------------------------------
// Operations whose notice depends on their output
// ---------------------------------------------------------------------------

/// A jj operation whose notice depends on what it printed.
#[derive(Debug, Clone, PartialEq, Eq)]
pub enum OutputOp {
    Absorb,
    SimplifyParents { change_id: String },
    Parallelize,
    /// `jj git fetch` with jj's default remotes.
    Fetch,
}

/// The start of the error after `op` failed.
pub open spec fn output_failure_prefix(op: OutputOp) -> Seq<char> {
    match op {
        OutputOp::Absorb => "Absorb failed: "@,
        OutputOp::SimplifyParents { .. } => "Simplify parents failed: "@,
        OutputOp::Parallelize => "Parallelize failed: "@,
        OutputOp::Fetch => "Fetch failed: "@,
    }
}

/// What `op` makes stale when it ran.
pub open spec fn output_dirty(op: OutputOp) -> DirtyFlags {
    match op {
        OutputOp::Fetch => DirtyFlags { log: true, status: true, op_log: true, bookmarks: true },
        _ => DirtyFlags { log: true, status: true, op_log: true, bookmarks: false },
    }
}

/// The notice after `op` printed `output`.
pub open spec fn output_notice_ok(op: OutputOp, output: Seq<char>, n: Notification) -> bool {
    match op {
        OutputOp::Absorb => if nothing_happened(output) {
            n.kind == NotificationKind::Info && n.message@ == "Nothing to absorb"@
        } else {
            n.kind == NotificationKind::Success && n.message@ == "Absorb finished"@
        },
        OutputOp::SimplifyParents { change_id } => if nothing_happened(output) {
            n.kind == NotificationKind::Info && n.message@ == "No redundant parents found"@
        } else {
            n.kind == NotificationKind::Success && n.message@ == "Simplified parents for "@ + abbrev(change_id@)
                + " (undo: u)"@
        },
        OutputOp::Parallelize => if seq_contains(lowercase(output), "nothing"@) {
            n.kind == NotificationKind::Info && n.message@
                == "Nothing to parallelize (revisions may not be connected)"@
        } else {
            n.kind == NotificationKind::Success && n.message@ == "Parallelized (undo: u)"@
        },
        OutputOp::Fetch => if all_ws(output) {
            n.kind == NotificationKind::Info && n.message@ == "Already up to date"@
        } else {
            n.kind == NotificationKind::Success && n.message@ == "Fetched from remote"@
        },
    }
}

/// What to show after `op` ended with `result` (its output, or the error),
/// and the views it made stale (none when it failed).
pub fn output_op_outcome(op: &OutputOp, result: Result<&str, &str>) -> (r: (Shown, Option<DirtyFlags>))
    requires
        op matches OutputOp::SimplifyParents { change_id } ==> abbrev_ok(change_id@),
    ensures
        match result {
            Ok(output) => (r.0 matches Shown::Notice(n) && output_notice_ok(*op, output@, n)) && r.1 == Some(
                output_dirty(*op),
            ),
            Err(e) => (r.0 matches Shown::Error(m) && m@ == output_failure_prefix(*op) + e@) && r.1 is None,
        },
{
    match result {
        Ok(output) => {
            let n = match op {
                OutputOp::Absorb => absorb_notification(output),
                OutputOp::SimplifyParents { change_id } => simplify_parents_notification(output, change_id.as_str()),
                OutputOp::Parallelize => parallelize_notification(output),
                OutputOp::Fetch => fetch_notification(output),
            };
            let d = match op {
                OutputOp::Fetch => DirtyFlags::all(),
                _ => DirtyFlags::log_and_status(),
            };
            (Shown::Notice(n), Some(d))
        },
        Err(e) => {
            let mut m = match op {
                OutputOp::Absorb => string_from("Absorb failed: "),
                OutputOp::SimplifyParents { .. } => string_from("Simplify parents failed: "),
                OutputOp::Parallelize => string_from("Parallelize failed: "),
                OutputOp::Fetch => string_from("Fetch failed: "),
            };
            push_str(&mut m, e);
            (Shown::Error(m), None)
        },
    }
}

/// What to show after `jj duplicate`: given, when it succeeded, the new
/// change id read from its output and whether the log now shows (and
/// selects) it; or the error.
pub fn duplicate_outcome(result: Result<(Option<&str>, bool), &str>) -> (r: Shown)
    requires
        result matches Ok((Some(id), _)) ==> abbrev_ok(id@),
    ensures
        match result {
            Ok((Some(id), found)) => r matches Shown::Notice(n) && n.kind == NotificationKind::Success && n.message@
                == "Duplicated as "@ + abbrev(id@) + (if found {
                ""@
            } else {
                " (not in current revset)"@
            }),
            Ok((None, _)) => r matches Shown::Notice(n) && n.kind == NotificationKind::Success && n.message@
                == "Duplicated successfully"@,
            Err(e) => r matches Shown::Error(m) && m@ == "Duplicate failed: "@ + e@,
        },
{
    match result {
        Ok((Some(id), found)) => {
            let mut m = string_from("Duplicated as ");
            push_abbrev(&mut m, id);
            if !found {
                push_str(&mut m, " (not in current revset)");
            }
            proof {
                reveal_strlit("");
            }
            assert(found ==> m@ =~= "Duplicated as "@ + abbrev(id@) + ""@);
            Shown::Notice(Notification::new(m, NotificationKind::Success))
        },
        Ok((None, _)) => Shown::Notice(Notification::success("Duplicated successfully")),
        Err(e) => {
            let mut m = string_from("Duplicate failed: ");
            push_str(&mut m, e);
            Shown::Error(m)
        },
    }
}

/// The notice after `jj next` or `jj prev` (`direction` is "next" or
/// "prev") ended with `result`: a success naming where it moved, or a
/// warning explaining why it could not.
pub fn next_prev_outcome(direction: &str, result: Result<&str, &str>) -> (r: Notification)
    ensures
        match result {
            Ok(output) => r.kind == NotificationKind::Success && r.message@ == next_prev_message(output@, direction@),
            Err(e) => r.kind == NotificationKind::Warning && r.message@ == next_prev_error(e@, direction@),
        },
{
    match result {
        Ok(output) => Notification::new(parse_next_prev_message(output, direction), NotificationKind::Success),
        Err(e) => Notification::new(format_next_prev_error(e, direction), NotificationKind::Warning),
    }
}

} // verus!
