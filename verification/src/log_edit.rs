//! The dialogs and notices that actions open before anything runs:
//! confirmations for revert and simplify-parents, the choice of fix mode and
//! of metadata edit (each refused for an immutable commit), the two-step
//! selections of the log view (compare, interdiff, parallelize, bisect), and
//! the confirmations of the status and bookmark views.
use vstd::prelude::*;

use crate::dialog::{
    dialog_items, is_confirm_dialog, is_input_dialog, is_select_dialog, Dialog, DialogCallback, DialogKind,
    PendingState,
};
use crate::revision::{short_id, short_view};
use crate::text::{push_str, string_from};

verus! {

/// An editing action of the log view that opens a dialog first.
#[derive(Debug, Clone, PartialEq, Eq)]
pub enum LogEditAction {
    Revert { revision: String },
    SimplifyParents { revision: String },
    Fix { revision: String, change_id: String },
    Metaedit { change_id: String, commit_id: String },
    /// Creating from the current change has its own key.
    NewChangeFromCurrent,
}

/// One choice of a selection dialog.
#[derive(Debug, Clone, PartialEq, Eq)]
pub struct SelectItem {
    pub label: String,
    pub value: String,
    pub selected: bool,
}

/// What an action opens or reports.
#[derive(Debug, Clone, PartialEq, Eq)]
pub enum EditStep {
    /// A dialog, whose result goes to its callback.
    Dialog(Dialog),
    /// An informational notice; no dialog.
    Info(String),
    /// An error; no dialog.
    Error(String),
}

/// The (label, value) choices of the fix dialog.
pub open spec fn fix_choices() -> Seq<(Seq<char>, Seq<char>)> {
    seq![
        ("Default (respect fix.tools line-range-arg)"@, "default"@),
        ("All lines (--all-lines, format entire files)"@, "all-lines"@),
    ]
}

/// The (label, value) choices of the metadata dialog.
pub open spec fn metaedit_choices() -> Seq<(Seq<char>, Seq<char>)> {
    seq![
        ("Update author"@, "update-author"@),
        ("Set author..."@, "set-author"@),
        ("Update author timestamp"@, "update-timestamp"@),
        ("Generate new change-id"@, "new-change-id"@),
        ("Force rewrite"@, "force-rewrite"@),
    ]
}

/// Unselected items with exactly these labels and values, in order.
pub open spec fn items_are(items: Seq<SelectItem>, choices: Seq<(Seq<char>, Seq<char>)>) -> bool {
    &&& items.len() == choices.len()
    &&& forall|i: int|
        0 <= i < items.len() ==> (#[trigger] items[i]).label@ == choices[i].0 && items[i].value@
            == choices[i].1 && !items[i].selected
}

/// A yes/no dialog with this title, message and detail, whose callback
/// satisfies `cb`.
pub open spec fn is_confirm(
    r: EditStep,
    t: Seq<char>,
    m: Seq<char>,
    d: Option<Seq<char>>,
    cb: spec_fn(DialogCallback) -> bool,
) -> bool {
    r matches EditStep::Dialog(dl) && is_confirm_dialog(dl, t, m, d) && cb(dl.callback)
}

/// A single-choice dialog with this title, message and choices, whose
/// callback satisfies `cb`.
pub open spec fn is_select(
    r: EditStep,
    t: Seq<char>,
    m: Seq<char>,
    c: Seq<(Seq<char>, Seq<char>)>,
    cb: spec_fn(DialogCallback) -> bool,
) -> bool {
    r matches EditStep::Dialog(dl) && is_select_dialog(dl, t, m, true) && items_are(dialog_items(dl), c) && cb(
        dl.callback,
    )
}

/// An error with this text.
pub open spec fn is_error(r: EditStep, t: Seq<char>) -> bool {
    match r {
        EditStep::Error(e) => e@ == t,
        _ => false,
    }
}

/// What `action` opens; `immutable` says whether the commit it edits is
/// immutable (fix and metadata edits are refused then).
pub open spec fn edit_step_ok(action: LogEditAction, immutable: bool, r: EditStep) -> bool {
    match action {
        LogEditAction::Revert { revision } => is_confirm(
            r,
            "Revert Change"@,
            "Revert changes from "@ + short_view(revision@) + "?"@,
            Some("Creates a new commit that undoes these changes. Undo with 'u' if needed."@),
            |c: DialogCallback| c == DialogCallback::Revert { change_id: revision },
        ),
        LogEditAction::SimplifyParents { revision } => is_confirm(
            r,
            "Simplify Parents"@,
            "Simplify parents for "@ + short_view(revision@) + "?"@,
            None,
            |c: DialogCallback| c == DialogCallback::SimplifyParents { change_id: revision },
        ),
        LogEditAction::Fix { revision, change_id } => if immutable {
            is_error(r, "Cannot fix: commit is immutable"@)
        } else {
            is_select(
                r,
                "Fix"@,
                "Apply code formatters to "@ + short_view(revision@) + " and descendants"@,
                fix_choices(),
                |c: DialogCallback| c == DialogCallback::Fix { revision, change_id },
            )
        },
        LogEditAction::Metaedit { change_id, commit_id } => if immutable {
            is_error(r, "Cannot metaedit: commit is immutable"@)
        } else {
            is_select(
                r,
                "Metaedit"@,
                "Edit metadata for "@ + short_view(change_id@),
                metaedit_choices(),
                |c: DialogCallback| c == DialogCallback::MetaeditSelect { commit_id, change_id },
            )
        },
        LogEditAction::NewChangeFromCurrent => match r {
            EditStep::Info(m) => m@ == "Use 'c' to create from current change"@,
            _ => false,
        },
    }
}

fn item(label: &str, value: &str) -> (r: SelectItem)
    ensures
        r.label@ == label@,
        r.value@ == value@,
        !r.selected,
{
    SelectItem { label: string_from(label), value: string_from(value), selected: false }
}

/// `before`, the short form of `id`, then `after`.
fn around_short(before: &str, id: &str, after: &str) -> (r: String)
    ensures
        r@ == before@ + short_view(id@) + after@,
{
    let mut s = string_from(before);
    push_str(&mut s, short_id(id).as_str());
    push_str(&mut s, after);
    s
}

/// A confirmation dialog.
fn confirm(title: &str, message: String, detail: Option<String>, callback: DialogCallback) -> (r: EditStep)
    ensures
        r matches EditStep::Dialog(d) && d.title@ == title@ && d.message@ == message@ && d.kind
            == (DialogKind::Confirm { detail }) && d.callback == callback,
{
    EditStep::Dialog(Dialog { title: string_from(title), message, kind: DialogKind::Confirm { detail }, callback })
}

/// A single-choice dialog.
fn select_single(title: &str, message: String, items: Vec<SelectItem>, callback: DialogCallback) -> (r: EditStep)
    ensures
        r matches EditStep::Dialog(d) && d.title@ == title@ && d.message@ == message@ && d.kind
            == (DialogKind::Select { items, single: true, detail: None }) && d.callback == callback,
{
    EditStep::Dialog(
        Dialog {
            title: string_from(title),
            message,
            kind: DialogKind::Select { items, single: true, detail: None },
            callback,
        },
    )
}

/// A text-input dialog.
fn input(title: &str, prompt: String, callback: DialogCallback) -> (r: EditStep)
    ensures
        r matches EditStep::Dialog(d) && d.title@ == title@ && d.message@ == prompt@ && d.kind == DialogKind::Input
            && d.callback == callback,
{
    EditStep::Dialog(Dialog { title: string_from(title), message: prompt, kind: DialogKind::Input, callback })
}

/// The dialog or notice an editing action of the log view opens.
pub fn log_edit_step(action: &LogEditAction, immutable: bool) -> (r: EditStep)
    ensures
        edit_step_ok(*action, immutable, r),
{
    match action {
        LogEditAction::Revert { revision } => confirm(
            "Revert Change",
            around_short("Revert changes from ", revision.as_str(), "?"),
            Some(string_from("Creates a new commit that undoes these changes. Undo with 'u' if needed.")),
            DialogCallback::Revert { change_id: revision.clone() },
        ),
        LogEditAction::SimplifyParents { revision } => confirm(
            "Simplify Parents",
            around_short("Simplify parents for ", revision.as_str(), "?"),
            None,
            DialogCallback::SimplifyParents { change_id: revision.clone() },
        ),
        LogEditAction::Fix { revision, change_id } => {
            if immutable {
                return EditStep::Error(string_from("Cannot fix: commit is immutable"));
            }
            let mut items = Vec::new();
            items.push(item("Default (respect fix.tools line-range-arg)", "default"));
            items.push(item("All lines (--all-lines, format entire files)", "all-lines"));
            assert(items_are(items@, fix_choices()));
            select_single(
                "Fix",
                around_short("Apply code formatters to ", revision.as_str(), " and descendants"),
                items,
                DialogCallback::Fix { revision: revision.clone(), change_id: change_id.clone() },
            )
        },
        LogEditAction::Metaedit { change_id, commit_id } => {
            if immutable {
                return EditStep::Error(string_from("Cannot metaedit: commit is immutable"));
            }
            let mut items = Vec::new();
            items.push(item("Update author", "update-author"));
            items.push(item("Set author...", "set-author"));
            items.push(item("Update author timestamp", "update-timestamp"));
            items.push(item("Generate new change-id", "new-change-id"));
            items.push(item("Force rewrite", "force-rewrite"));
            assert(items_are(items@, metaedit_choices()));
            let message = around_short("Edit metadata for ", change_id.as_str(), "");
            proof {
                reveal_strlit("");
            }
            assert(message@ =~= "Edit metadata for "@ + short_view(change_id@));
            select_single(
                "Metaedit",
                message,
                items,
                DialogCallback::MetaeditSelect { commit_id: commit_id.clone(), change_id: change_id.clone() },
            )
        },
        LogEditAction::NewChangeFromCurrent => EditStep::Info(
            string_from("Use 'c' to create from current change"),
        ),
    }
}

/// A text-input dialog with this title and prompt, whose callback
/// satisfies `cb`.
pub open spec fn is_input(r: EditStep, t: Seq<char>, p: Seq<char>, cb: spec_fn(DialogCallback) -> bool) -> bool {
    r matches EditStep::Dialog(dl) && is_input_dialog(dl, t, p) && cb(dl.callback)
}

/// An informational notice with this text.
pub open spec fn is_info(r: EditStep, t: Seq<char>) -> bool {
    match r {
        EditStep::Info(m) => m@ == t,
        _ => false,
    }
}

// ---------------------------------------------------------------------------
// Two-step selections of the log view
// ---------------------------------------------------------------------------

/// A step of an action that takes two revisions, chosen one after the
/// other in the log.
#[derive(Debug, Clone, PartialEq, Eq)]
pub enum PairAction {
    StartCompare(String),
    Compare { from: String, to: String },
    CompareSameRevision,
    StartInterdiff(String),
    Interdiff { from: String, to: String },
    InterdiffSameRevision,
    StartParallelize(String),
    Parallelize { from: String, to: String },
    ParallelizeSameRevision,
    StartBisect(String),
    Bisect { good: String, bad: String },
    BisectSameRevision,
}

/// What a step of a two-revision action does.
#[derive(Debug, Clone, PartialEq, Eq)]
pub enum PairStep {
    /// Show a dialog or a notice.
    Show(EditStep),
    /// Open the diff between the two revisions (their interdiff when
    /// `interdiff`), then, if that set no error, show `notice`.
    Open { from: String, to: String, interdiff: bool, notice: String },
}

/// What step `a` of a two-revision action does.
pub open spec fn pair_step_ok(a: PairAction, r: PairStep) -> bool {
    match a {
        PairAction::StartCompare(from) => r matches PairStep::Show(s) && is_info(
            s,
            "From: "@ + from@ + ". Select 'To' and press Enter"@,
        ),
        PairAction::Compare { from, to } => r matches PairStep::Open { from: f, to: t, interdiff, notice }
            && f@ == from@ && t@ == to@ && !interdiff && notice@ == "Comparing "@ + from@ + " -> "@ + to@,
        PairAction::CompareSameRevision => r matches PairStep::Show(s) && is_info(
            s,
            "Cannot compare revision with itself"@,
        ),
        PairAction::StartInterdiff(from) => r matches PairStep::Show(s) && is_info(
            s,
            "Interdiff From: "@ + from@ + ". Select 'To' and press Enter"@,
        ),
        PairAction::Interdiff { from, to } => r matches PairStep::Open { from: f, to: t, interdiff, notice }
            && f@ == from@ && t@ == to@ && interdiff && notice@ == "Interdiff "@ + from@ + " -> "@ + to@,
        PairAction::InterdiffSameRevision => r matches PairStep::Show(s) && is_info(
            s,
            "Cannot interdiff revision with itself"@,
        ),
        PairAction::StartParallelize(from) => r matches PairStep::Show(s) && is_info(
            s,
            "From: "@ + from@ + ". Select end and press Enter"@,
        ),
        PairAction::Parallelize { from, to } => r matches PairStep::Show(s) && is_confirm(
            s,
            "Parallelize"@,
            "Parallelize "@ + short_view(from@) + "::"@ + short_view(to@) + "?"@,
            None,
            |c: DialogCallback| c == DialogCallback::Parallelize { from, to },
        ),
        PairAction::ParallelizeSameRevision => r matches PairStep::Show(s) && is_info(
            s,
            "Cannot parallelize single revision"@,
        ),
        PairAction::StartBisect(bad) => r matches PairStep::Show(s) && is_info(
            s,
            "Bisect: Bad="@ + bad@ + ". Select Good and press Enter"@,
        ),
        PairAction::Bisect { good, bad } => r matches PairStep::Show(s) && is_input(
            s,
            "Bisect Command (empty = bash for manual test)"@,
            "bash"@,
            |c: DialogCallback| c == DialogCallback::BisectRun { good, bad },
        ),
        PairAction::BisectSameRevision => r matches PairStep::Show(s) && is_info(
            s,
            "Cannot bisect: same revision selected for good and bad"@,
        ),
    }
}

/// `before`, `id`, then `after`.
fn around(before: &str, id: &str, after: &str) -> (r: String)
    ensures
        r@ == before@ + id@ + after@,
{
    let mut s = string_from(before);
    push_str(&mut s, id);
    push_str(&mut s, after);
    s
}

/// `before`, `a`, `middle`, `b`.
fn between(before: &str, a: &str, middle: &str, b: &str) -> (r: String)
    ensures
        r@ == before@ + a@ + middle@ + b@,
{
    let mut s = string_from(before);
    push_str(&mut s, a);
    push_str(&mut s, middle);
    push_str(&mut s, b);
    s
}

fn info(m: &str) -> (r: PairStep)
    ensures
        r matches PairStep::Show(s) && is_info(s, m@),
{
    PairStep::Show(EditStep::Info(string_from(m)))
}

/// What a step of a two-revision action of the log view does.
pub fn log_pair_step(action: &PairAction) -> (r: PairStep)
    ensures
        pair_step_ok(*action, r),
{
    match action {
        PairAction::StartCompare(from) => PairStep::Show(
            EditStep::Info(around("From: ", from.as_str(), ". Select 'To' and press Enter")),
        ),
        PairAction::Compare { from, to } => PairStep::Open {
            from: from.clone(),
            to: to.clone(),
            interdiff: false,
            notice: between("Comparing ", from.as_str(), " -> ", to.as_str()),
        },
        PairAction::CompareSameRevision => info("Cannot compare revision with itself"),
        PairAction::StartInterdiff(from) => PairStep::Show(
            EditStep::Info(around("Interdiff From: ", from.as_str(), ". Select 'To' and press Enter")),
        ),
        PairAction::Interdiff { from, to } => PairStep::Open {
            from: from.clone(),
            to: to.clone(),
            interdiff: true,
            notice: between("Interdiff ", from.as_str(), " -> ", to.as_str()),
        },
        PairAction::InterdiffSameRevision => info("Cannot interdiff revision with itself"),
        PairAction::StartParallelize(from) => PairStep::Show(
            EditStep::Info(around("From: ", from.as_str(), ". Select end and press Enter")),
        ),
        PairAction::Parallelize { from, to } => {
            let mut m = string_from("Parallelize ");
            push_str(&mut m, short_id(from.as_str()).as_str());
            push_str(&mut m, "::");
            push_str(&mut m, short_id(to.as_str()).as_str());
            push_str(&mut m, "?");
            PairStep::Show(
                confirm("Parallelize", m, None, DialogCallback::Parallelize { from: from.clone(), to: to.clone() }),
            )
        },
        PairAction::ParallelizeSameRevision => info("Cannot parallelize single revision"),
        PairAction::StartBisect(bad) => PairStep::Show(
            EditStep::Info(around("Bisect: Bad=", bad.as_str(), ". Select Good and press Enter")),
        ),
        PairAction::Bisect { good, bad } => PairStep::Show(
            input(
                "Bisect Command (empty = bash for manual test)",
                string_from("bash"),
                DialogCallback::BisectRun { good: good.clone(), bad: bad.clone() },
            ),
        ),
        PairAction::BisectSameRevision => info("Cannot bisect: same revision selected for good and bad"),
    }
}

/// The notice after the log's order was switched (`reversed`: oldest first).
pub fn log_order_notice(reversed: bool) -> (r: EditStep)
    ensures
        is_info(r, "Log order: "@ + (if reversed {
            "oldest first"@
        } else {
            "newest first"@
        })),
{
    let mut m = string_from("Log order: ");
    push_str(&mut m, if reversed { "oldest first" } else { "newest first" });
    EditStep::Info(m)
}

// ---------------------------------------------------------------------------
// Confirmations of the status and bookmark views
// ---------------------------------------------------------------------------

/// The confirmation before restoring one file of the working copy.
pub fn restore_file_prompt(path: &str) -> (r: EditStep)
    ensures
        is_confirm(
            r,
            "Restore File"@,
            "Restore '"@ + path@ + "'?\nThis discards your changes to this file."@,
            Some("Undo with 'u' if needed."@),
            |c: DialogCallback| c matches DialogCallback::RestoreFile { file_path } && file_path@ == path@,
        ),
{
    confirm(
        "Restore File",
        around("Restore '", path, "'?\nThis discards your changes to this file."),
        Some(string_from("Undo with 'u' if needed.")),
        DialogCallback::RestoreFile { file_path: string_from(path) },
    )
}

/// The confirmation before restoring every file of the working copy.
pub fn restore_all_prompt() -> (r: EditStep)
    ensures
        is_confirm(
            r,
            "Restore All Files"@,
            "Restore all files?\nThis discards ALL your changes in the working copy."@,
            Some("Undo with 'u' if needed."@),
            |c: DialogCallback| c == DialogCallback::RestoreAll,
        ),
{
    confirm(
        "Restore All Files",
        string_from("Restore all files?\nThis discards ALL your changes in the working copy."),
        Some(string_from("Undo with 'u' if needed.")),
        DialogCallback::RestoreAll,
    )
}

/// The input dialog for a new bookmark on `target` (a change id, or `@`).
pub fn create_bookmark_prompt(target: &str) -> (r: EditStep)
    ensures
        is_input(
            r,
            "Create Bookmark"@,
            "New bookmark on "@ + short_view(target@),
            |c: DialogCallback| c matches DialogCallback::BookmarkCreate { revision } && revision@ == target@,
        ),
{
    let mut p = string_from("New bookmark on ");
    push_str(&mut p, short_id(target).as_str());
    input("Create Bookmark", p, DialogCallback::BookmarkCreate { revision: string_from(target) })
}

/// The input dialog for a new tag on `target` (a change id, or `@`).
pub fn create_tag_prompt(target: &str) -> (r: EditStep)
    ensures
        is_input(
            r,
            "Create Tag"@,
            "New tag on "@ + short_view(target@),
            |c: DialogCallback| c matches DialogCallback::TagCreate { revision } && revision@ == target@,
        ),
{
    let mut p = string_from("New tag on ");
    push_str(&mut p, short_id(target).as_str());
    input("Create Tag", p, DialogCallback::TagCreate { revision: string_from(target) })
}

/// The confirmation before deleting tag `name`.
pub fn delete_tag_prompt(name: &str) -> (r: EditStep)
    ensures
        is_confirm(
            r,
            "Delete Tag"@,
            "Delete tag '"@ + name@ + "'?"@,
            None,
            |c: DialogCallback| c matches DialogCallback::TagDelete { name: n } && n@ == name@,
        ),
{
    confirm(
        "Delete Tag",
        around("Delete tag '", name, "'?"),
        None,
        DialogCallback::TagDelete { name: string_from(name) },
    )
}

/// The confirmation before moving bookmark `name` to `@`, with the detail
/// saying where it is and where it goes.
pub fn move_to_wc_prompt(name: &str, detail: String) -> (r: EditStep)
    ensures
        is_confirm(
            r,
            "Move Bookmark"@,
            "Move bookmark '"@ + name@ + "' to @?"@,
            Some(detail@),
            |c: DialogCallback| c matches DialogCallback::BookmarkMoveToWc { name: n } && n@ == name@,
        ),
{
    confirm(
        "Move Bookmark",
        around("Move bookmark '", name, "' to @?"),
        Some(detail),
        DialogCallback::BookmarkMoveToWc { name: string_from(name) },
    )
}

/// The confirmation before forgetting bookmark `name`; the name is kept as
/// pending until the dialog closes.
pub fn start_bookmark_forget(name: &str, pending: &mut PendingState) -> (r: EditStep)
    ensures
        is_confirm(
            r,
            "Forget Bookmark"@,
            "Forget bookmark '"@ + name@
                + "'?\n\nThis removes remote tracking.\nUse 'd' for local delete only.\nUndo with 'u' if needed."@,
            None,
            |c: DialogCallback| c == DialogCallback::BookmarkForget,
        ),
        final(pending).pending_forget_bookmark matches Some(n) && n@ == name@,
        final(pending).push_target_remote == old(pending).push_target_remote,
        final(pending).pending_push_bookmarks@ == old(pending).pending_push_bookmarks@,
{
    pending.pending_forget_bookmark = Some(string_from(name));
    confirm(
        "Forget Bookmark",
        around(
            "Forget bookmark '",
            name,
            "'?\n\nThis removes remote tracking.\nUse 'd' for local delete only.\nUndo with 'u' if needed.",
        ),
        None,
        DialogCallback::BookmarkForget,
    )
}

// ---------------------------------------------------------------------------
// Workspace view
// ---------------------------------------------------------------------------

/// An action of the workspace view.
#[derive(Debug, Clone, PartialEq, Eq)]
pub enum WorkspaceAction {
    StartAdd,
    /// Show the workspace's working-copy change in the log.
    Jump(String),
    /// Forget was asked for the current workspace.
    ForgetCurrentBlocked,
    /// Rename was asked for another workspace than the current one.
    RenameNonCurrentBlocked,
    Forget(String),
    StartRename(String),
}

/// What an action of the workspace view does.
#[derive(Debug, Clone, PartialEq, Eq)]
pub enum WorkspaceStep {
    Show(EditStep),
    /// Jump to this change in the log.
    JumpToLog(String),
}

/// The dialog or notice an action of the workspace view opens, or the jump.
pub fn workspace_step(action: &WorkspaceAction) -> (r: WorkspaceStep)
    ensures
        match action {
            WorkspaceAction::StartAdd => r matches WorkspaceStep::Show(s) && is_input(
                s,
                "Add Workspace"@,
                "Path for new workspace (e.g., ../feature-ws)"@,
                |c: DialogCallback| c == DialogCallback::WorkspaceAdd,
            ),
            WorkspaceAction::Jump(id) => r matches WorkspaceStep::JumpToLog(x) && x@ == id@,
            WorkspaceAction::ForgetCurrentBlocked => r matches WorkspaceStep::Show(s) && is_info(
                s,
                "Cannot forget the current workspace"@,
            ),
            WorkspaceAction::RenameNonCurrentBlocked => r matches WorkspaceStep::Show(s) && is_info(
                s,
                "Can only rename the current workspace"@,
            ),
            WorkspaceAction::Forget(name) => r matches WorkspaceStep::Show(s) && is_confirm(
                s,
                "Forget Workspace"@,
                "Forget workspace '"@ + name@ + "'?\n(disk files won't be deleted)"@,
                None,
                |c: DialogCallback| c == DialogCallback::WorkspaceForget { name: *name },
            ),
            WorkspaceAction::StartRename(name) => r matches WorkspaceStep::Show(s) && is_input(
                s,
                "Rename Workspace"@,
                "New name for '"@ + name@ + "' workspace"@,
                |c: DialogCallback| c == DialogCallback::WorkspaceRename { old_name: *name },
            ),
        },
{
    match action {
        WorkspaceAction::StartAdd => WorkspaceStep::Show(
            input(
                "Add Workspace",
                string_from("Path for new workspace (e.g., ../feature-ws)"),
                DialogCallback::WorkspaceAdd,
            ),
        ),
        WorkspaceAction::Jump(id) => WorkspaceStep::JumpToLog(id.clone()),
        WorkspaceAction::ForgetCurrentBlocked => WorkspaceStep::Show(
            EditStep::Info(string_from("Cannot forget the current workspace")),
        ),
        WorkspaceAction::RenameNonCurrentBlocked => WorkspaceStep::Show(
            EditStep::Info(string_from("Can only rename the current workspace")),
        ),
        WorkspaceAction::Forget(name) => WorkspaceStep::Show(
            confirm(
                "Forget Workspace",
                around("Forget workspace '", name.as_str(), "'?\n(disk files won't be deleted)"),
                None,
                DialogCallback::WorkspaceForget { name: name.clone() },
            ),
        ),
        WorkspaceAction::StartRename(name) => WorkspaceStep::Show(
            input(
                "Rename Workspace",
                around("New name for '", name.as_str(), "' workspace"),
                DialogCallback::WorkspaceRename { old_name: name.clone() },
            ),
        ),
    }
}

} // verus!
