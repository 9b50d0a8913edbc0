//! Bookmark flows: the texts of the move confirmations, the checks before a
//! rename, the notices after track, delete and jump, the choices of the
//! delete and fetch dialogs, and the two-press jump to a change outside the
//! log's revset.
use vstd::prelude::*;

use crate::actions::{
    bookmark_exists, display_name, is_bookmark_exists_error, truncated, truncate_description, without_remote, JjError,
    Notification, NotificationKind,
};
use crate::dialog::{dialog_items, is_confirm_dialog, is_select_dialog, select_detail, Dialog, DialogCallback, DialogKind};
use crate::log_edit::{is_confirm, is_error, EditStep, SelectItem};
use crate::revision::Change;
use crate::text::{
    abbrev, abbrev_ok, all_ws, contains_string, decimal, decimal_string, is_blank, join, join_strings, push_abbrev, push_str, seq_contains,
    str_contains, str_eq, string_from, string_views,
};

verus! {

// ---------------------------------------------------------------------------
// Move confirmations
// ---------------------------------------------------------------------------

/// The detail line of the confirmation for moving a bookmark to a change:
/// where it is (id and description) and where it goes (short id and
/// description), descriptions cut to 40 characters; only the undo hint when
/// its current position is unknown.
pub open spec fn move_detail(from: Option<(Seq<char>, Seq<char>)>, to_short: Seq<char>, to_desc: Seq<char>) -> Seq<char> {
    match from {
        Some((id, desc)) => "From: "@ + id + "  "@ + truncated(desc, 40) + "\n  To: "@ + to_short + "  "@
            + truncated(to_desc, 40) + "\n\nCan be undone with 'u'."@,
        None => "Can be undone with 'u'."@,
    }
}

/// The detail for moving a bookmark to `to_change_id`; `from` is the change
/// id and description of where the bookmark is now, when known.
pub fn bookmark_move_detail(from: Option<(&str, &str)>, to_change_id: &str, to_desc: &str) -> (r: String)
    requires
        abbrev_ok(to_change_id@),
    ensures
        r@ == move_detail(
            match from {
                Some((a, b)) => Some((a@, b@)),
                None => None,
            },
            abbrev(to_change_id@),
            to_desc@,
        ),
{
    match from {
        Some((id, desc)) => {
            let mut s = string_from("From: ");
            push_str(&mut s, id);
            push_str(&mut s, "  ");
            let d = truncate_description(desc, 40);
            push_str(&mut s, d.as_str());
            push_str(&mut s, "\n  To: ");
            push_abbrev(&mut s, to_change_id);
            push_str(&mut s, "  ");
            let t = truncate_description(to_desc, 40);
            push_str(&mut s, t.as_str());
            push_str(&mut s, "\n\nCan be undone with 'u'.");
            s
        },
        None => string_from("Can be undone with 'u'."),
    }
}

/// The first row, not graph only, that carries bookmark `name`.
pub open spec fn bookmark_row_from(changes: Seq<Change>, name: Seq<char>, i: int) -> Option<int>
    decreases changes.len() - i,
{
    if i < 0 || i >= changes.len() {
        None
    } else if !changes[i].is_graph_only && string_views(changes[i].bookmarks@).contains(name) {
        Some(i)
    } else {
        bookmark_row_from(changes, name, i + 1)
    }
}

/// Where bookmark `name` currently is in the log: the first row (not graph
/// only) that carries it.
pub fn bookmark_row(changes: &[Change], name: &str) -> (r: Option<usize>)
    ensures
        match r {
            Some(i) => bookmark_row_from(changes@, name@, 0) == Some(i as int) && i < changes@.len(),
            None => bookmark_row_from(changes@, name@, 0) is None,
        },
{
    let mut i: usize = 0;
    while i < changes.len()
        invariant
            i <= changes@.len(),
            bookmark_row_from(changes@, name@, 0) == bookmark_row_from(changes@, name@, i as int),
        decreases changes.len() - i,
    {
        if !changes[i].is_graph_only && contains_string(changes[i].bookmarks.as_slice(), name) {
            return Some(i);
        }
        i = i + 1;
    }
    None
}

/// What a failed `jj bookmark create NAME` on `change_id` leads to: when a
/// bookmark of that name exists, the offer to move it to this change (with
/// `detail`: where it is and where it goes); otherwise the error, shown as
/// `error_text`.
pub fn create_failure(error: &JjError, error_text: &str, name: &str, change_id: &str, detail: String) -> (r: EditStep)
    ensures
        bookmark_exists(*error) ==> is_confirm(
            r,
            "Move Bookmark"@,
            "Move bookmark \""@ + name@ + "\" to this change?"@,
            Some(detail@),
            |c: DialogCallback| c matches DialogCallback::MoveBookmark { name: n, change_id: id } && n@ == name@
                && id@ == change_id@,
        ),
        !bookmark_exists(*error) ==> is_error(r, "Failed to create bookmark: "@ + error_text@),
{
    if is_bookmark_exists_error(error) {
        let mut m = string_from("Move bookmark \"");
        push_str(&mut m, name);
        push_str(&mut m, "\" to this change?");
        EditStep::Dialog(
            Dialog {
                title: string_from("Move Bookmark"),
                message: m,
                kind: DialogKind::Confirm { detail: Some(detail) },
                callback: DialogCallback::MoveBookmark { name: string_from(name), change_id: string_from(change_id) },
            },
        )
    } else {
        let mut m = string_from("Failed to create bookmark: ");
        push_str(&mut m, error_text);
        EditStep::Error(m)
    }
}

/// What a failed move of a bookmark to `@` leads to.
#[derive(Debug, Clone, PartialEq, Eq)]
pub enum MoveFailure {
    /// Ask whether to allow a backwards or sideways move.
    ConfirmBackwards(Dialog),
    /// Show the error with a hint.
    Error(String),
}

/// The answer to a failed `jj bookmark move NAME --to @` with error `err`: a
/// backwards or sideways move is offered with `--allow-backwards` (its
/// confirmation moves `name`); any other error is shown with the command to
/// retry by hand.
pub fn move_to_wc_failure(err: &str, name: &str) -> (r: MoveFailure)
    ensures
        seq_contains(err@, "backwards or sideways"@) ==> (r matches MoveFailure::ConfirmBackwards(d)
            && is_confirm_dialog(
            d,
            "Move Bookmark (Force)"@,
            "Bookmark '"@ + name@ + "' requires backwards/sideways move.\nAllow --allow-backwards?"@,
            Some("This moves the bookmark in a non-forward direction."@),
        ) && (d.callback matches DialogCallback::BookmarkMoveBackwards { name: n } && n@ == name@)),
        !seq_contains(err@, "backwards or sideways"@) ==> (r matches MoveFailure::Error(m) && m@
            == "Move failed: "@ + err@ + "\nTry: jj bookmark move "@ + name@ + " --to @ --allow-backwards"@),
{
    if str_contains(err, "backwards or sideways") {
        let mut message = string_from("Bookmark '");
        push_str(&mut message, name);
        push_str(&mut message, "' requires backwards/sideways move.\nAllow --allow-backwards?");
        MoveFailure::ConfirmBackwards(
            Dialog {
                title: string_from("Move Bookmark (Force)"),
                message,
                kind: DialogKind::Confirm {
                    detail: Some(string_from("This moves the bookmark in a non-forward direction.")),
                },
                callback: DialogCallback::BookmarkMoveBackwards { name: string_from(name) },
            },
        )
    } else {
        let mut m = string_from("Move failed: ");
        push_str(&mut m, err);
        push_str(&mut m, "\nTry: jj bookmark move ");
        push_str(&mut m, name);
        push_str(&mut m, " --to @ --allow-backwards");
        MoveFailure::Error(m)
    }
}

// ---------------------------------------------------------------------------
// Rename, track, delete
// ---------------------------------------------------------------------------

/// Refuse a rename before running it: an unchanged name is reported, an
/// empty (or blank) new name is refused; `None` lets it run.
pub fn rename_refusal(old_name: &str, new_name: &str) -> (r: Option<Notification>)
    ensures
        old_name@ == new_name@ ==> (r matches Some(n) && n.kind == NotificationKind::Info && n.message@
            == "Name unchanged"@),
        old_name@ != new_name@ && all_ws(new_name@) ==> (r matches Some(n) && n.kind
            == NotificationKind::Warning && n.message@ == "Bookmark name cannot be empty"@),
        old_name@ != new_name@ && !all_ws(new_name@) ==> r is None,
{
    if str_eq(old_name, new_name) {
        Some(Notification::info("Name unchanged"))
    } else if is_blank(new_name) {
        Some(Notification::warning("Bookmark name cannot be empty"))
    } else {
        None
    }
}

/// The notice after a rename.
pub fn rename_message(old_name: &str, new_name: &str) -> (r: String)
    ensures
        r@ == "Renamed bookmark: "@ + old_name@ + " \u{2192} "@ + new_name@,
{
    let mut m = string_from("Renamed bookmark: ");
    push_str(&mut m, old_name);
    push_str(&mut m, " \u{2192} ");
    push_str(&mut m, new_name);
    m
}

/// The notice after tracking remote bookmarks: the bookmark's name without
/// its remote for one, the count for several; nothing runs for none.
pub open spec fn track_text(names: Seq<Seq<char>>) -> Option<Seq<char>> {
    if names.len() == 0 {
        None
    } else if names.len() == 1 {
        Some("Started tracking: "@ + without_remote(names[0]))
    } else {
        Some("Started tracking: "@ + decimal(names.len()) + " bookmarks"@)
    }
}

/// The notice for tracking `names` (`None`: nothing to track).
pub fn track_message(names: &[String]) -> (r: Option<String>)
    ensures
        match r {
            Some(m) => track_text(string_views(names@)) == Some(m@),
            None => track_text(string_views(names@)) is None,
        },
{
    if names.len() == 0 {
        None
    } else if names.len() == 1 {
        let mut m = string_from("Started tracking: ");
        let d = display_name(names[0].as_str());
        push_str(&mut m, d.as_str());
        Some(m)
    } else {
        let mut m = string_from("Started tracking: ");
        let n = decimal_string(names.len() as u64);
        push_str(&mut m, n.as_str());
        push_str(&mut m, " bookmarks");
        Some(m)
    }
}

/// The notice for deleting `names` (`None`: nothing to delete).
pub fn delete_message(names: &[String]) -> (r: Option<String>)
    ensures
        names@.len() == 0 ==> r is None,
        names@.len() > 0 ==> (r matches Some(m) && m@ == "Deleted bookmarks: "@ + join(string_views(names@), ", "@)),
{
    if names.len() == 0 {
        None
    } else {
        let mut m = string_from("Deleted bookmarks: ");
        let j = join_strings(names, ", ");
        push_str(&mut m, j.as_str());
        Some(m)
    }
}

/// Unselected items labelled and valued by `names`, in order.
pub open spec fn name_items(items: Seq<SelectItem>, names: Seq<Seq<char>>) -> bool {
    &&& items.len() == names.len()
    &&& forall|i: int|
        0 <= i < items.len() ==> (#[trigger] items[i]).label@ == names[i] && items[i].value@ == names[i]
            && !items[i].selected
}

fn items_of(names: &[String]) -> (r: Vec<SelectItem>)
    ensures
        name_items(r@, string_views(names@)),
{
    let mut items: Vec<SelectItem> = Vec::new();
    let mut i: usize = 0;
    while i < names.len()
        invariant
            i <= names@.len(),
            name_items(items@, string_views(names@).take(i as int)),
        decreases names.len() - i,
    {
        items.push(SelectItem { label: names[i].clone(), value: names[i].clone(), selected: false });
        i = i + 1;
        assert(name_items(items@, string_views(names@).take(i as int))) by {
            assert forall|k: int| 0 <= k < items@.len() implies (#[trigger] items@[k]).label@
                == string_views(names@).take(i as int)[k] && items@[k].value@ == string_views(names@).take(
                i as int,
            )[k] && !items@[k].selected by {}
        }
    }
    assert(string_views(names@).take(names@.len() as int) =~= string_views(names@));
    items
}

/// The delete dialog for the bookmarks of the selected change.
#[derive(Debug, Clone, PartialEq, Eq)]
pub enum DeletePrompt {
    /// The change has no bookmarks.
    Nothing(String),
    /// Choose among the change's bookmarks (several may be chosen).
    Select(Dialog),
}

/// Start deleting bookmarks of the selected change `change_id`.
pub fn start_bookmark_delete(change_id: &str, bookmarks: &[String]) -> (r: DeletePrompt)
    requires
        bookmarks@.len() > 0 ==> abbrev_ok(change_id@),
    ensures
        bookmarks@.len() == 0 ==> (r matches DeletePrompt::Nothing(m) && m@ == "No bookmarks to delete"@),
        bookmarks@.len() > 0 ==> (r matches DeletePrompt::Select(d) && is_select_dialog(
            d,
            "Delete Bookmarks"@,
            "Select bookmarks to delete from "@ + abbrev(change_id@) + ":"@,
            false,
        ) && select_detail(d) == Some("Deletions will propagate to remotes on push."@) && name_items(
            dialog_items(d),
            string_views(bookmarks@),
        ) && d.callback == DialogCallback::DeleteBookmarks),
{
    if bookmarks.len() == 0 {
        return DeletePrompt::Nothing(string_from("No bookmarks to delete"));
    }
    let mut message = string_from("Select bookmarks to delete from ");
    push_abbrev(&mut message, change_id);
    push_str(&mut message, ":");
    DeletePrompt::Select(
        Dialog {
            title: string_from("Delete Bookmarks"),
            message,
            kind: DialogKind::Select {
                items: items_of(bookmarks),
                single: false,
                detail: Some(string_from("Deletions will propagate to remotes on push.")),
            },
            callback: DialogCallback::DeleteBookmarks,
        },
    )
}

// ---------------------------------------------------------------------------
// Listed bookmarks
// ---------------------------------------------------------------------------

/// A bookmark as the full bookmark listing reports it: the fields the flows
/// read.
#[derive(Debug, Clone, PartialEq, Eq)]
pub struct BookmarkEntry {
    pub name: String,
    /// The remote of a remote bookmark; `None` for a local one.
    pub remote: Option<String>,
    /// A remote bookmark that the local one follows.
    pub is_tracked: bool,
    /// The change the bookmark points to, when it points to one.
    pub change_id: Option<String>,
}

/// What the selected bookmark of the bookmark view is, for the key hints.
#[derive(Debug, Clone, Copy, PartialEq, Eq, Structural)]
pub enum BookmarkKind {
    /// Local, on a change: jump is offered.
    LocalJumpable,
    /// Local, on no change.
    LocalNoChange,
    UntrackedRemote,
    TrackedRemote,
}

/// The kind of bookmark `b`.
pub fn bookmark_kind(b: &BookmarkEntry) -> (r: BookmarkKind)
    ensures
        r == (if b.remote is None {
            if b.change_id is Some {
                BookmarkKind::LocalJumpable
            } else {
                BookmarkKind::LocalNoChange
            }
        } else if untracked_remote(*b) {
            BookmarkKind::UntrackedRemote
        } else {
            BookmarkKind::TrackedRemote
        }),
{
    if b.remote.is_none() {
        if b.change_id.is_some() {
            BookmarkKind::LocalJumpable
        } else {
            BookmarkKind::LocalNoChange
        }
    } else if !b.is_tracked {
        BookmarkKind::UntrackedRemote
    } else {
        BookmarkKind::TrackedRemote
    }
}

/// `name@remote` for a remote bookmark, the name for a local one.
pub open spec fn full_name(b: BookmarkEntry) -> Seq<char> {
    match b.remote {
        Some(r) => b.name@ + "@"@ + r@,
        None => b.name@,
    }
}

/// A remote bookmark that is not tracked.
pub open spec fn untracked_remote(b: BookmarkEntry) -> bool {
    b.remote is Some && !b.is_tracked
}

/// Full names of the untracked remote bookmarks, in order.
pub open spec fn untracked_names(entries: Seq<BookmarkEntry>) -> Seq<Seq<char>>
    decreases entries.len(),
{
    if entries.len() == 0 {
        Seq::empty()
    } else if untracked_remote(entries.last()) {
        untracked_names(entries.drop_last()).push(full_name(entries.last()))
    } else {
        untracked_names(entries.drop_last())
    }
}

/// Names of the local bookmarks, in order.
pub open spec fn local_names(entries: Seq<BookmarkEntry>) -> Seq<Seq<char>>
    decreases entries.len(),
{
    if entries.len() == 0 {
        Seq::empty()
    } else if entries.last().remote is None {
        local_names(entries.drop_last()).push(entries.last().name@)
    } else {
        local_names(entries.drop_last())
    }
}

fn full_name_of(b: &BookmarkEntry) -> (r: String)
    ensures
        r@ == full_name(*b),
{
    let mut s = b.name.clone();
    match &b.remote {
        Some(r) => {
            push_str(&mut s, "@");
            push_str(&mut s, r.as_str());
        },
        None => {},
    }
    s
}

/// One unselected item per listed bookmark of the kind asked for (the
/// untracked remote ones when `remote_untracked`, else the local ones),
/// labelled and valued by its full name.
fn filtered_items(entries: &[BookmarkEntry], remote_untracked: bool) -> (r: Vec<SelectItem>)
    ensures
        remote_untracked ==> name_items(r@, untracked_names(entries@)),
        !remote_untracked ==> name_items(r@, local_names(entries@)),
{
    let mut items: Vec<SelectItem> = Vec::new();
    let mut i: usize = 0;
    while i < entries.len()
        invariant
            i <= entries@.len(),
            remote_untracked ==> name_items(items@, untracked_names(entries@.take(i as int))),
            !remote_untracked ==> name_items(items@, local_names(entries@.take(i as int))),
        decreases entries.len() - i,
    {
        let b = &entries[i];
        let keep = if remote_untracked {
            b.remote.is_some() && !b.is_tracked
        } else {
            b.remote.is_none()
        };
        assert(entries@.take(i + 1).drop_last() =~= entries@.take(i as int));
        if keep {
            let n = full_name_of(b);
            items.push(SelectItem { label: n.clone(), value: n, selected: false });
        }
        i = i + 1;
    }
    assert(entries@.take(entries@.len() as int) =~= entries@);
    items
}

/// How starting to track remote bookmarks goes.
#[derive(Debug, Clone, PartialEq, Eq)]
pub enum TrackStart {
    /// Nothing to track.
    Nothing(Notification),
    /// Choose among the untracked remote bookmarks (several may be chosen).
    Select(Dialog),
    /// Listing the bookmarks failed.
    Failed(String),
}

/// Start tracking: offer the untracked remote bookmarks of the listing (or
/// report the listing's error).
pub fn start_track(listing: Result<&[BookmarkEntry], &str>) -> (r: TrackStart)
    ensures
        match listing {
            Ok(entries) => if untracked_names(entries@).len() == 0 {
                r matches TrackStart::Nothing(n) && n.kind == NotificationKind::Info && n.message@
                    == "No untracked remote bookmarks"@
            } else {
                r matches TrackStart::Select(d) && is_select_dialog(
                    d,
                    "Track Remote Bookmarks"@,
                    "Select bookmarks to track:"@,
                    false,
                ) && select_detail(d) is None && name_items(dialog_items(d), untracked_names(entries@))
                    && d.callback == DialogCallback::Track
            },
            Err(e) => r matches TrackStart::Failed(m) && m@ == "Failed to list bookmarks: "@ + e@,
        },
{
    match listing {
        Ok(entries) => {
            let items = filtered_items(entries, true);
            if items.len() == 0 {
                TrackStart::Nothing(Notification::info("No untracked remote bookmarks"))
            } else {
                TrackStart::Select(
                    Dialog {
                        title: string_from("Track Remote Bookmarks"),
                        message: string_from("Select bookmarks to track:"),
                        kind: DialogKind::Select { items, single: false, detail: None },
                        callback: DialogCallback::Track,
                    },
                )
            }
        },
        Err(e) => {
            let mut m = string_from("Failed to list bookmarks: ");
            push_str(&mut m, e);
            TrackStart::Failed(m)
        },
    }
}

/// How choosing a branch to fetch starts.
#[derive(Debug, Clone, PartialEq, Eq)]
pub enum FetchBranchStart {
    /// No branch to choose: the notice, then a plain fetch.
    FetchAll(Notification),
    /// Choose one of the local bookmarks.
    Select(Dialog),
}

/// Offer the local bookmarks of the listing as branches to fetch; without
/// any, or when the listing failed, fall back to a plain fetch.
pub fn start_fetch_branch_select(listing: Result<&[BookmarkEntry], &str>) -> (r: FetchBranchStart)
    ensures
        match listing {
            Ok(entries) => if local_names(entries@).len() == 0 {
                r matches FetchBranchStart::FetchAll(n) && n.kind == NotificationKind::Info && n.message@
                    == "No bookmarks found"@
            } else {
                r matches FetchBranchStart::Select(d) && is_select_dialog(
                    d,
                    "Fetch Branch"@,
                    "Select branch to fetch:"@,
                    true,
                ) && select_detail(d) is None && name_items(dialog_items(d), local_names(entries@))
                    && d.callback == DialogCallback::GitFetchBranch
            },
            Err(_) => r matches FetchBranchStart::FetchAll(n) && n.kind == NotificationKind::Info && n.message@
                == "Failed to list bookmarks, fetching all"@,
        },
{
    match listing {
        Ok(entries) => {
            let items = filtered_items(entries, false);
            if items.len() == 0 {
                FetchBranchStart::FetchAll(Notification::info("No bookmarks found"))
            } else {
                FetchBranchStart::Select(
                    Dialog {
                        title: string_from("Fetch Branch"),
                        message: string_from("Select branch to fetch:"),
                        kind: DialogKind::Select { items, single: true, detail: None },
                        callback: DialogCallback::GitFetchBranch,
                    },
                )
            }
        },
        Err(_) => FetchBranchStart::FetchAll(Notification::info("Failed to list bookmarks, fetching all")),
    }
}

// ---------------------------------------------------------------------------
// Fetch
// ---------------------------------------------------------------------------

/// The fetch dialog, a single choice among the default, all remotes, each
/// remote, then a specific branch; none (fetch at once) with at most one
/// remote.
pub fn fetch_dialog(remotes: &[String]) -> (r: Option<Dialog>)
    ensures
        remotes@.len() <= 1 ==> r is None,
        remotes@.len() > 1 ==> (r matches Some(d) && is_select_dialog(
            d,
            "Git Fetch"@,
            "Select remote to fetch from:"@,
            true,
        ) && select_detail(d) is None && d.callback == DialogCallback::GitFetch && ({
            let items = dialog_items(d);
            items.len() == remotes@.len() + 3 && items[0].label@
            == "Default fetch (jj config)"@ && items[0].value@ == "__default__"@ && items[1].label@
            == "All remotes (including untracked)"@ && items[1].value@ == "__all_remotes__"@
            && name_items(items.subrange(2, items.len() - 1), string_views(remotes@)) && items.last().label@
            == "Specific branch..."@ && items.last().value@ == "__branch__"@ && forall|i: int|
            0 <= i < items.len() ==> !(#[trigger] items[i]).selected
        })),
{
    if remotes.len() <= 1 {
        return None;
    }
    let mut items: Vec<SelectItem> = Vec::new();
    items.push(SelectItem {
        label: string_from("Default fetch (jj config)"),
        value: string_from("__default__"),
        selected: false,
    });
    items.push(SelectItem {
        label: string_from("All remotes (including untracked)"),
        value: string_from("__all_remotes__"),
        selected: false,
    });
    let mut i: usize = 0;
    while i < remotes.len()
        invariant
            i <= remotes@.len(),
            items@.len() == 2 + i,
            items@[0].label@ == "Default fetch (jj config)"@ && items@[0].value@ == "__default__"@,
            items@[1].label@ == "All remotes (including untracked)"@ && items@[1].value@ == "__all_remotes__"@,
            forall|k: int|
                0 <= k < i ==> items@[k + 2].label@ == remotes@[k]@ && items@[k + 2].value@ == remotes@[k]@,
            forall|k: int| 0 <= k < items@.len() ==> !(#[trigger] items@[k]).selected,
        decreases remotes.len() - i,
    {
        items.push(SelectItem { label: remotes[i].clone(), value: remotes[i].clone(), selected: false });
        i = i + 1;
    }
    items.push(SelectItem {
        label: string_from("Specific branch..."),
        value: string_from("__branch__"),
        selected: false,
    });
    assert(name_items(items@.subrange(2, items@.len() - 1), string_views(remotes@))) by {
        assert forall|k: int| 0 <= k < items@.subrange(2, items@.len() - 1).len() implies (#[trigger] items@.subrange(
            2,
            items@.len() - 1,
        )[k]).label@ == string_views(remotes@)[k] && items@.subrange(2, items@.len() - 1)[k].value@
            == string_views(remotes@)[k] && !items@.subrange(2, items@.len() - 1)[k].selected by {
            assert(items@.subrange(2, items@.len() - 1)[k] == items@[k + 2]);
            assert(string_views(remotes@)[k] == remotes@[k]@);
        }
    }
    Some(
        Dialog {
            title: string_from("Git Fetch"),
            message: string_from("Select remote to fetch from:"),
            kind: DialogKind::Select { items, single: true, detail: None },
            callback: DialogCallback::GitFetch,
        },
    )
}

// ---------------------------------------------------------------------------
// Jumping to a change
// ---------------------------------------------------------------------------

/// What the jump to a change does next.
#[derive(Debug, Clone, PartialEq, Eq)]
pub enum JumpStep {
    /// The change is in the log and now selected: show the log (with an
    /// empty breadcrumb) and the notice.
    Jumped(Notification),
    /// Reload the log with this revset, then call [`finish_jump`].
    Expand(String),
    /// The change is not in the log: the notice asks to press the key again.
    Hint(Notification),
}

/// The revset that adds `change_id` to the log: to the current revset when
/// one is set, else to the default view (the change's ancestors).
pub open spec fn expanded_revset(change_id: Seq<char>, current: Option<Seq<char>>) -> Seq<char> {
    match current {
        Some(base) => base + " | "@ + change_id,
        None => "ancestors("@ + change_id + ") | "@ + change_id,
    }
}

/// Jump to `change_id` in the log (from the blame view). `found` says
/// whether the log already shows it (it is then selected). The first press
/// on a change outside the log's revset only hints; a second press on the
/// same change widens the revset.
pub fn jump_to_log(pending: &mut Option<String>, change_id: &str, found: bool, current_revset: Option<&str>) -> (r: JumpStep)
    requires
        found ==> abbrev_ok(change_id@),
    ensures
        found ==> *final(pending) is None && (r matches JumpStep::Jumped(n) && n.kind == NotificationKind::Success
            && n.message@ == "Jumped to "@ + abbrev(change_id@) + " in log"@),
        !found && (*old(pending) matches Some(p) && p@ == change_id@) ==> *final(pending) is None && (r matches JumpStep::Expand(
            q,
        ) && q@ == expanded_revset(change_id@, match current_revset { Some(b) => Some(b@), None => None })),
        !found && !(*old(pending) matches Some(p) && p@ == change_id@) ==> (*final(pending) matches Some(p) && p@ == change_id@)
            && (r matches JumpStep::Hint(n) && n.kind == NotificationKind::Info && n.message@
            == "Change not in current revset. Press J again to search full log"@),
{
    if found {
        *pending = None;
        let mut m = string_from("Jumped to ");
        push_abbrev(&mut m, change_id);
        push_str(&mut m, " in log");
        return JumpStep::Jumped(Notification::new(m, NotificationKind::Success));
    }
    let again = match pending {
        Some(p) => str_eq(p.as_str(), change_id),
        None => false,
    };
    if again {
        *pending = None;
        let q = match current_revset {
            Some(base) => {
                let mut q = string_from(base);
                push_str(&mut q, " | ");
                push_str(&mut q, change_id);
                q
            },
            None => {
                let mut q = string_from("ancestors(");
                push_str(&mut q, change_id);
                push_str(&mut q, ") | ");
                push_str(&mut q, change_id);
                q
            },
        };
        JumpStep::Expand(q)
    } else {
        *pending = Some(string_from(change_id));
        JumpStep::Hint(Notification::info("Change not in current revset. Press J again to search full log"))
    }
}

/// The notice after the widened log was loaded: `found` says whether the
/// change is now selected.
pub fn finish_jump(change_id: &str, found: bool) -> (r: Notification)
    requires
        found ==> abbrev_ok(change_id@),
    ensures
        found ==> r.kind == NotificationKind::Success && r.message@ == "Jumped to "@ + abbrev(change_id@)
            + " (revset expanded, r+Enter to reset)"@,
        !found ==> r.kind == NotificationKind::Warning && r.message@ == "Change not found in repository"@,
{
    if found {
        let mut m = string_from("Jumped to ");
        push_abbrev(&mut m, change_id);
        push_str(&mut m, " (revset expanded, r+Enter to reset)");
        Notification::new(m, NotificationKind::Success)
    } else {
        Notification::warning("Change not found in repository")
    }
}

/// The notice after jumping to a bookmark's change: `found` says whether the
/// log shows it (it is then selected).
pub fn bookmark_jump_notice(change_id: &str, found: bool) -> (r: Notification)
    requires
        found ==> abbrev_ok(change_id@),
    ensures
        found ==> r.kind == NotificationKind::Success && r.message@ == "Jumped to "@ + abbrev(change_id@),
        !found ==> r.kind == NotificationKind::Warning && r.message@
            == "Bookmark target not visible in current revset"@,
{
    if found {
        let mut m = string_from("Jumped to ");
        push_abbrev(&mut m, change_id);
        Notification::new(m, NotificationKind::Success)
    } else {
        Notification::warning("Bookmark target not visible in current revset")
    }
}

} // verus!
