//! Git push decisions: dry-run preview formatting, force-push and protected
//! bookmark detection, error classification for retries, and the texts of
//! the confirmation dialogs and result notices.
use vstd::prelude::*;

use crate::bookmark::name_items;
use crate::dialog::{dialog_items, is_select_dialog, select_detail, Dialog, DialogCallback, DialogKind};
use crate::log_edit::{items_are, SelectItem};
use crate::state::clone_strings;
use crate::text::{
    abbrev, abbrev_ok, chars_of, decimal, decimal_string, first_word, first_word_of, join,
    join_strings, join_strs, lines, lines_of, lowercase, push_abbrev, push_char, push_chars,
    push_str, seq_contains, seq_starts_with, slice_chars, starts_with_chars, str_contains, str_eq,
    str_views, string_from, string_views, to_lowercase, trim, trim_chars,
};

verus! {

/// Flag that lets jj create a new remote bookmark.
pub const ALLOW_NEW: &'static str = "--allow-new";

/// Flag that lets jj push a private commit.
pub const ALLOW_PRIVATE: &'static str = "--allow-private";

/// Flag that lets jj push a commit without a description.
pub const ALLOW_EMPTY_DESC: &'static str = "--allow-empty-description";

/// One bookmark move that `jj git push --dry-run` announces.
#[derive(Debug, Clone, PartialEq, Eq)]
pub enum PushPreviewAction {
    MoveForward { bookmark: String, from: String, to: String },
    MoveSideways { bookmark: String, from: String, to: String },
    MoveBackward { bookmark: String, from: String, to: String },
    Add { bookmark: String, to: String },
    Delete { bookmark: String, from: String },
}

/// A parsed push dry run.
#[derive(Debug, Clone, PartialEq, Eq)]
pub enum PushPreviewResult {
    Changes(Vec<PushPreviewAction>),
    NothingChanged,
    /// Output in a format the parser does not know.
    Unparsed,
}

/// Which bookmarks a bulk push covers.
#[derive(Debug, Clone, Copy, PartialEq, Eq, Structural)]
pub enum PushBulkMode {
    All,
    TrackedOnly,
    Deleted,
}

/// The wording for a bulk push mode.
pub open spec fn bulk_label(m: PushBulkMode) -> Seq<char> {
    match m {
        PushBulkMode::All => "all bookmarks"@,
        PushBulkMode::TrackedOnly => "tracked bookmarks"@,
        PushBulkMode::Deleted => "deleted bookmarks"@,
    }
}

impl PushBulkMode {
    /// The wording used in dialogs and notices.
    pub fn label(&self) -> (r: &'static str)
        ensures
            r@ == bulk_label(*self),
    {
        match self {
            PushBulkMode::All => "all bookmarks",
            PushBulkMode::TrackedOnly => "tracked bookmarks",
            PushBulkMode::Deleted => "deleted bookmarks",
        }
    }
}

// ---------------------------------------------------------------------------
// Specifications
// ---------------------------------------------------------------------------

/// The bookmark an action moves.
pub open spec fn action_bookmark(a: PushPreviewAction) -> Seq<char> {
    match a {
        PushPreviewAction::MoveForward { bookmark, .. } => bookmark@,
        PushPreviewAction::MoveSideways { bookmark, .. } => bookmark@,
        PushPreviewAction::MoveBackward { bookmark, .. } => bookmark@,
        PushPreviewAction::Add { bookmark, .. } => bookmark@,
        PushPreviewAction::Delete { bookmark, .. } => bookmark@,
    }
}

/// A move that is not a fast-forward: anything but forward, add and delete.
pub open spec fn is_force_action(a: PushPreviewAction) -> bool {
    match a {
        PushPreviewAction::MoveForward { .. } => false,
        PushPreviewAction::Add { .. } => false,
        PushPreviewAction::Delete { .. } => false,
        _ => true,
    }
}

/// Some action is a force push.
pub open spec fn has_force(actions: Seq<PushPreviewAction>) -> bool {
    exists|i: int| 0 <= i < actions.len() && is_force_action(#[trigger] actions[i])
}

/// Shared integration branches, where a force push rewrites everyone's history.
pub open spec fn is_protected(name: Seq<char>) -> bool {
    name == "main"@ || name == "master"@ || name == "trunk"@
}

/// Some action moves a protected bookmark.
pub open spec fn touches_protected(actions: Seq<PushPreviewAction>) -> bool {
    exists|i: int| 0 <= i < actions.len() && is_protected(action_bookmark(#[trigger] actions[i]))
}

/// Every commit hash of the action can be cut to eight bytes.
pub open spec fn action_hashes_ok(a: PushPreviewAction) -> bool {
    match a {
        PushPreviewAction::MoveForward { from, to, .. } => abbrev_ok(from@) && abbrev_ok(to@),
        PushPreviewAction::MoveSideways { from, to, .. } => abbrev_ok(from@) && abbrev_ok(to@),
        PushPreviewAction::MoveBackward { from, to, .. } => abbrev_ok(from@) && abbrev_ok(to@),
        PushPreviewAction::Add { to, .. } => abbrev_ok(to@),
        PushPreviewAction::Delete { from, .. } => abbrev_ok(from@),
    }
}

/// Every action's hashes can be cut to eight bytes.
pub open spec fn actions_ok(actions: Seq<PushPreviewAction>) -> bool {
    forall|i: int| 0 <= i < actions.len() ==> action_hashes_ok(#[trigger] actions[i])
}

/// The warning sign that marks force pushes.
pub open spec fn warn() -> Seq<char> {
    seq!['\u{26A0}']
}

/// "from X.. to Y.." with both hashes cut to eight bytes.
pub open spec fn from_to(from: Seq<char>, to: Seq<char>) -> Seq<char> {
    " from "@ + abbrev(from) + ".. to "@ + abbrev(to) + ".."@
}

/// The one-line description of an action in the confirmation dialog.
pub open spec fn action_line(a: PushPreviewAction) -> Seq<char> {
    match a {
        PushPreviewAction::MoveForward { bookmark, from, to } => "Move forward "@ + bookmark@
            + from_to(from@, to@),
        PushPreviewAction::MoveSideways { bookmark, from, to } => warn() + " Move sideways "@
            + bookmark@ + from_to(from@, to@),
        PushPreviewAction::MoveBackward { bookmark, from, to } => warn() + " Move backward "@
            + bookmark@ + from_to(from@, to@),
        PushPreviewAction::Add { bookmark, to } => "Add "@ + bookmark@ + " to "@ + abbrev(to@)
            + ".."@,
        PushPreviewAction::Delete { bookmark, from } => "Delete "@ + bookmark@ + " from "@
            + abbrev(from@) + ".."@,
    }
}

/// All action lines, one per line.
pub open spec fn preview_text(actions: Seq<PushPreviewAction>) -> Seq<char> {
    join(actions.map_values(|a: PushPreviewAction| action_line(a)), "\n"@)
}

/// Index of the first action for bookmark `name`, searching from `i`.
pub open spec fn first_action_for(actions: Seq<PushPreviewAction>, name: Seq<char>, i: int) -> Option<
    int,
>
    decreases actions.len() - i,
{
    if i < 0 || i >= actions.len() {
        None
    } else if action_bookmark(actions[i]) == name {
        Some(i)
    } else {
        first_action_for(actions, name, i + 1)
    }
}

/// The label of a force push on `name`.
pub open spec fn force_label(name: Seq<char>) -> Seq<char> {
    if is_protected(name) {
        warn() + " PROTECTED force"@
    } else {
        warn() + " force"@
    }
}

/// The status label of the bookmark in the per-bookmark select dialog.
pub open spec fn bookmark_status(preview: PushPreviewResult, name: Seq<char>) -> Seq<char> {
    match preview {
        PushPreviewResult::Changes(actions) => match first_action_for(actions@, name, 0) {
            Some(i) => match actions@[i] {
                PushPreviewAction::MoveForward { from, .. } => "move from "@ + abbrev(from@) + ".."@,
                PushPreviewAction::MoveSideways { .. } => force_label(name),
                PushPreviewAction::MoveBackward { .. } => force_label(name),
                PushPreviewAction::Add { .. } => "new"@,
                PushPreviewAction::Delete { .. } => "delete"@,
            },
            None => Seq::empty(),
        },
        PushPreviewResult::NothingChanged => "up to date"@,
        PushPreviewResult::Unparsed => Seq::empty(),
    }
}

/// The one hash the status label shows can be cut: the "from" of a
/// forward move, when that is the first action for `name`.
pub open spec fn status_ok(preview: PushPreviewResult, name: Seq<char>) -> bool {
    match preview {
        PushPreviewResult::Changes(actions) => match first_action_for(actions@, name, 0) {
            Some(i) => match actions@[i] {
                PushPreviewAction::MoveForward { from, .. } => abbrev_ok(from@),
                _ => true,
            },
            None => true,
        },
        _ => true,
    }
}

/// The error reports a bookmark jj refuses to create on the remote.
pub open spec fn untracked_error(lower: Seq<char>) -> bool {
    seq_contains(lower, "refusing to create new remote bookmark"@) || seq_contains(
        lower,
        "not tracked"@,
    ) || seq_contains(lower, "untracked"@)
}

/// The error reports an unknown command-line flag.
pub open spec fn unknown_flag_error(lower: Seq<char>) -> bool {
    seq_contains(lower, "unexpected argument"@) || seq_contains(lower, "unrecognized"@)
        || seq_contains(lower, "unknown flag"@) || seq_contains(lower, "unknown option"@)
}

/// The error reports that `--revisions` is unknown.
pub open spec fn revisions_unsupported(lower: Seq<char>) -> bool {
    seq_contains(lower, "--revisions"@) && unknown_flag_error(lower)
}

/// The error reports a private commit jj won't push.
pub open spec fn private_error(lower: Seq<char>) -> bool {
    seq_contains(lower, "private"@) && seq_contains(lower, "won't push"@)
}

/// The error reports a commit without description jj won't push.
pub open spec fn empty_description_error(lower: Seq<char>) -> bool {
    seq_contains(lower, "no description"@) && seq_contains(lower, "won't push"@)
}

/// The retry flags an error message asks for (private, then empty description).
pub open spec fn retry_flags(lower: Seq<char>) -> Seq<Seq<char>> {
    let a: Seq<Seq<char>> = if private_error(lower) {
        seq![ALLOW_PRIVATE@]
    } else {
        Seq::empty()
    };
    if empty_description_error(lower) {
        a.push(ALLOW_EMPTY_DESC@)
    } else {
        a
    }
}

/// The retry flags a failed bookmark push asks for (new bookmark, private,
/// then empty description).
pub open spec fn bookmark_retry_flags(lower: Seq<char>) -> Seq<Seq<char>> {
    if untracked_error(lower) {
        seq![ALLOW_NEW@] + retry_flags(lower)
    } else {
        retry_flags(lower)
    }
}

/// A failed bookmark push is retried with `--allow-new` when its error (in
/// lower case) says jj refuses to create a new remote bookmark, or that the
/// bookmark is not tracked or untracked; then with `--allow-private` when jj
/// won't push a private commit, and with `--allow-empty-description` when it
/// won't push one without description. Nothing else asks for a retry.
pub proof fn law_bookmark_retry_flags(lower: Seq<char>)
    ensures
        bookmark_retry_flags(lower) == (if seq_contains(lower, "refusing to create new remote bookmark"@)
            || seq_contains(lower, "not tracked"@) || seq_contains(lower, "untracked"@) {
            seq!["--allow-new"@]
        } else {
            Seq::<Seq<char>>::empty()
        }) + (if seq_contains(lower, "private"@) && seq_contains(lower, "won't push"@) {
            seq!["--allow-private"@]
        } else {
            Seq::<Seq<char>>::empty()
        }) + (if seq_contains(lower, "no description"@) && seq_contains(lower, "won't push"@) {
            seq!["--allow-empty-description"@]
        } else {
            Seq::<Seq<char>>::empty()
        }),
        seq_contains(lower, "not tracked"@) ==> bookmark_retry_flags(lower)[0] == "--allow-new"@,
{
    let a: Seq<Seq<char>> = if seq_contains(lower, "private"@) && seq_contains(lower, "won't push"@) {
        seq!["--allow-private"@]
    } else {
        Seq::<Seq<char>>::empty()
    };
    let b: Seq<Seq<char>> = if seq_contains(lower, "no description"@) && seq_contains(lower, "won't push"@) {
        seq!["--allow-empty-description"@]
    } else {
        Seq::<Seq<char>>::empty()
    };
    assert(retry_flags(lower) =~= a + b);
    if untracked_error(lower) {
        assert(bookmark_retry_flags(lower) =~= seq!["--allow-new"@] + (a + b));
        assert(seq!["--allow-new"@] + (a + b) =~= seq!["--allow-new"@] + a + b);
    } else {
        assert(Seq::<Seq<char>>::empty() + a + b =~= a + b);
    }
}

/// A push in one go is retried with `--allow-private` when jj won't push a
/// private commit and with `--allow-empty-description` when it won't push one
/// without description, and only then.
pub proof fn law_retry_flags(lower: Seq<char>)
    ensures
        retry_flags(lower).contains("--allow-private"@) == (seq_contains(lower, "private"@) && seq_contains(
            lower,
            "won't push"@,
        )),
        retry_flags(lower).contains("--allow-empty-description"@) == (seq_contains(lower, "no description"@)
            && seq_contains(lower, "won't push"@)),
        retry_flags(lower).len() <= 2,
{
    reveal_strlit("--allow-private");
    reveal_strlit("--allow-empty-description");
    let f = retry_flags(lower);
    if f.contains("--allow-private"@) && !private_error(lower) {
        let i = choose|i: int| 0 <= i < f.len() && f[i] == "--allow-private"@;
        assert(f[i].len() != "--allow-private"@.len());
    }
    if f.contains("--allow-empty-description"@) && !empty_description_error(lower) {
        let i = choose|i: int| 0 <= i < f.len() && f[i] == "--allow-empty-description"@;
        assert(f[i][8] != "--allow-empty-description"@[8]);
    }
    if private_error(lower) {
        assert(f[0] == "--allow-private"@);
    }
    if empty_description_error(lower) {
        assert(f[f.len() - 1] == "--allow-empty-description"@);
    }
}

/// A jj without `--revisions` is recognised by an error that names
/// `--revisions` and reports an unexpected, unrecognized or unknown flag or
/// option.
pub proof fn law_revisions_unsupported(lower: Seq<char>)
    ensures
        revisions_unsupported(lower) == (seq_contains(lower, "--revisions"@) && (seq_contains(
            lower,
            "unexpected argument"@,
        ) || seq_contains(lower, "unrecognized"@) || seq_contains(lower, "unknown flag"@) || seq_contains(
            lower,
            "unknown option"@,
        ))),
{
}

/// A push forces exactly when one of its actions moves a bookmark sideways
/// or backwards; forward moves, additions and deletions never force. Only
/// `main`, `master` and `trunk` are protected.
pub proof fn law_force_and_protection(actions: Seq<PushPreviewAction>, name: Seq<char>)
    ensures
        has_force(actions) == exists|i: int|
            0 <= i < actions.len() && ((#[trigger] actions[i]) is MoveSideways || actions[i] is MoveBackward),
        is_protected(name) == (name == "main"@ || name == "master"@ || name == "trunk"@),
{
    if has_force(actions) {
        let i = choose|i: int| 0 <= i < actions.len() && is_force_action(#[trigger] actions[i]);
        assert(actions[i] is MoveSideways || actions[i] is MoveBackward);
    }
    if exists|i: int| 0 <= i < actions.len() && ((#[trigger] actions[i]) is MoveSideways || actions[i] is MoveBackward) {
        let i = choose|i: int| 0 <= i < actions.len() && ((#[trigger] actions[i]) is MoveSideways || actions[i] is MoveBackward);
        assert(is_force_action(actions[i]));
    }
}

/// The human-readable notes for the retry flags used.
pub open spec fn retry_notes(flags: Seq<Seq<char>>) -> Seq<Seq<char>> {
    let a: Seq<Seq<char>> = if flags.contains(ALLOW_PRIVATE@) {
        seq!["private commit allowed"@]
    } else {
        Seq::empty()
    };
    if flags.contains(ALLOW_EMPTY_DESC@) {
        a.push("empty description allowed"@)
    } else {
        a
    }
}

/// The notification suffix: the notes in parentheses, joined by " + ".
pub open spec fn push_suffix(used_allow_new: bool, notes: Seq<Seq<char>>) -> Seq<char> {
    let parts = if used_allow_new {
        seq!["used deprecated --allow-new"@] + notes
    } else {
        notes
    };
    if parts.len() == 0 {
        Seq::empty()
    } else {
        " ("@ + join(parts, " + "@) + ")"@
    }
}

// ---------------------------------------------------------------------------
// Classification
// ---------------------------------------------------------------------------

/// Whether any push action is a force push (not a fast-forward).
///
/// Anything that is not a known-safe action (forward, add, delete) counts as
/// a force push.
pub fn has_force_push(actions: &[PushPreviewAction]) -> (r: bool)
    ensures
        r == has_force(actions@),
{
    let mut i: usize = 0;
    while i < actions.len()
        invariant
            i <= actions@.len(),
            forall|k: int| 0 <= k < i ==> !is_force_action(#[trigger] actions@[k]),
        decreases actions.len() - i,
    {
        match &actions[i] {
            PushPreviewAction::MoveForward { .. } => {},
            PushPreviewAction::Add { .. } => {},
            PushPreviewAction::Delete { .. } => {},
            _ => {
                assert(is_force_action(actions@[i as int]));
                return true;
            },
        }
        i = i + 1;
    }
    false
}

/// Whether a bookmark name is protected (main, master or trunk).
pub fn is_immutable_bookmark(name: &str) -> (r: bool)
    ensures
        r == is_protected(name@),
{
    str_eq(name, "main") || str_eq(name, "master") || str_eq(name, "trunk")
}

/// The bookmark an action moves.
fn bookmark_of(a: &PushPreviewAction) -> (r: &str)
    ensures
        r@ == action_bookmark(*a),
{
    match a {
        PushPreviewAction::MoveForward { bookmark, .. } => bookmark.as_str(),
        PushPreviewAction::MoveSideways { bookmark, .. } => bookmark.as_str(),
        PushPreviewAction::MoveBackward { bookmark, .. } => bookmark.as_str(),
        PushPreviewAction::Add { bookmark, .. } => bookmark.as_str(),
        PushPreviewAction::Delete { bookmark, .. } => bookmark.as_str(),
    }
}

/// Whether any action moves a protected bookmark.
pub fn has_protected_bookmark(actions: &[PushPreviewAction]) -> (r: bool)
    ensures
        r == touches_protected(actions@),
{
    let mut i: usize = 0;
    while i < actions.len()
        invariant
            i <= actions@.len(),
            forall|k: int| 0 <= k < i ==> !is_protected(action_bookmark(#[trigger] actions@[k])),
        decreases actions.len() - i,
    {
        if is_immutable_bookmark(bookmark_of(&actions[i])) {
            return true;
        }
        i = i + 1;
    }
    false
}

/// Whether a push error reports an untracked or new bookmark (retried with
/// `--allow-new`).
pub fn is_untracked_bookmark_error(err_msg: &str) -> (r: bool)
    ensures
        r == untracked_error(lowercase(err_msg@)),
{
    let lower = to_lowercase(err_msg);
    let l = lower.as_str();
    str_contains(l, "refusing to create new remote bookmark") || str_contains(l, "not tracked")
        || str_contains(l, "untracked")
}

/// Whether an error reports an unknown flag (older jj versions).
fn is_unknown_flag(lower: &str) -> (r: bool)
    ensures
        r == unknown_flag_error(lower@),
{
    str_contains(lower, "unexpected argument") || str_contains(lower, "unrecognized")
        || str_contains(lower, "unknown flag") || str_contains(lower, "unknown option")
}

/// Whether a push error says `--revisions` is not supported (the caller then
/// pushes bookmark by bookmark). The message must mention revisions, so an
/// unrelated unknown-argument error does not match.
pub fn is_revisions_unsupported_error(err_msg: &str) -> (r: bool)
    ensures
        r == revisions_unsupported(lowercase(err_msg@)),
{
    let lower = to_lowercase(err_msg);
    let l = lower.as_str();
    let mentions = str_contains(l, "--revisions");
    let unknown = is_unknown_flag(l);
    mentions && unknown
}

/// Whether a rebase error says a flag is not supported (`--skip-emptied`,
/// `-b` on older jj versions).
pub fn is_rebase_flag_unsupported(err_msg: &str) -> (r: bool)
    ensures
        r == unknown_flag_error(lowercase(err_msg@)),
{
    let lower = to_lowercase(err_msg);
    is_unknown_flag(lower.as_str())
}

/// Whether a push error reports a private commit.
pub fn is_private_commit_error(err_msg: &str) -> (r: bool)
    ensures
        r == private_error(lowercase(err_msg@)),
{
    let lower = to_lowercase(err_msg);
    let l = lower.as_str();
    str_contains(l, "private") && str_contains(l, "won't push")
}

/// Whether a push error reports a commit without description.
pub fn is_empty_description_error(err_msg: &str) -> (r: bool)
    ensures
        r == empty_description_error(lowercase(err_msg@)),
{
    let lower = to_lowercase(err_msg);
    let l = lower.as_str();
    str_contains(l, "no description") && str_contains(l, "won't push")
}

/// The retry flags a push error asks for: `--allow-private` for a private
/// commit, `--allow-empty-description` for a missing description (both when
/// both are reported).
pub fn detect_push_retry_flags(err_msg: &str) -> (r: Vec<&'static str>)
    ensures
        str_views(r@) == retry_flags(lowercase(err_msg@)),
{
    let mut flags: Vec<&'static str> = Vec::new();
    if is_private_commit_error(err_msg) {
        flags.push(ALLOW_PRIVATE);
    }
    if is_empty_description_error(err_msg) {
        flags.push(ALLOW_EMPTY_DESC);
    }
    assert(str_views(flags@) =~= retry_flags(lowercase(err_msg@)));
    flags
}

/// The retry flags a failed bookmark push asks for: `--allow-new` for an
/// untracked bookmark, then the flags of [`detect_push_retry_flags`].
pub fn bookmark_push_retry_flags(err_msg: &str) -> (r: Vec<&'static str>)
    ensures
        str_views(r@) == bookmark_retry_flags(lowercase(err_msg@)),
{
    let mut flags: Vec<&'static str> = Vec::new();
    if is_untracked_bookmark_error(err_msg) {
        flags.push(ALLOW_NEW);
    }
    if is_private_commit_error(err_msg) {
        flags.push(ALLOW_PRIVATE);
    }
    if is_empty_description_error(err_msg) {
        flags.push(ALLOW_EMPTY_DESC);
    }
    assert(str_views(flags@) =~= bookmark_retry_flags(lowercase(err_msg@)));
    flags
}

/// Whether `flags` holds `flag`.
pub(crate) fn has_flag(flags: &[&str], flag: &str) -> (r: bool)
    ensures
        r == str_views(flags@).contains(flag@),
{
    let mut i: usize = 0;
    while i < flags.len()
        invariant
            i <= flags@.len(),
            forall|k: int| 0 <= k < i ==> flags@[k]@ != flag@,
        decreases flags.len() - i,
    {
        if str_eq(flags[i], flag) {
            assert(str_views(flags@)[i as int] == flag@);
            return true;
        }
        i = i + 1;
    }
    proof {
        if str_views(flags@).contains(flag@) {
            let k = choose|k: int| 0 <= k < str_views(flags@).len() && str_views(flags@)[k] == flag@;
            assert(flags@[k]@ == flag@);
        }
    }
    false
}

/// Human-readable notes for the retry flags a push used.
pub fn retry_notes_from_flags<'a>(extra_flags: &[&str]) -> (r: Vec<&'a str>)
    ensures
        str_views(r@) == retry_notes(str_views(extra_flags@)),
{
    let mut notes: Vec<&'a str> = Vec::new();
    if has_flag(extra_flags, ALLOW_PRIVATE) {
        notes.push("private commit allowed");
    }
    if has_flag(extra_flags, ALLOW_EMPTY_DESC) {
        notes.push("empty description allowed");
    }
    assert(str_views(notes@) =~= retry_notes(str_views(extra_flags@)));
    notes
}

/// The notification suffix from the retry state, e.g.
/// `" (used deprecated --allow-new)"` or
/// `" (private commit allowed + empty description allowed)"`; empty when
/// nothing was retried.
pub fn build_push_suffix(used_allow_new: bool, retry_notes: &[&str]) -> (r: String)
    ensures
        r@ == push_suffix(used_allow_new, str_views(retry_notes@)),
{
    let mut parts: Vec<&str> = Vec::new();
    if used_allow_new {
        parts.push("used deprecated --allow-new");
    }
    let mut i: usize = 0;
    while i < retry_notes.len()
        invariant
            i <= retry_notes@.len(),
            str_views(parts@) == (if used_allow_new {
                seq!["used deprecated --allow-new"@]
            } else {
                Seq::empty()
            }) + str_views(retry_notes@).take(i as int),
        decreases retry_notes.len() - i,
    {
        let ghost old_parts = parts@;
        parts.push(retry_notes[i]);
        assert(str_views(parts@) =~= str_views(old_parts).push(retry_notes@[i as int]@));
        assert(str_views(retry_notes@).take(i + 1) =~= str_views(retry_notes@).take(i as int).push(
            retry_notes@[i as int]@,
        ));
        i = i + 1;
        assert(str_views(parts@) =~= (if used_allow_new {
            seq!["used deprecated --allow-new"@]
        } else {
            Seq::empty()
        }) + str_views(retry_notes@).take(i as int));
    }
    assert(str_views(retry_notes@).take(retry_notes@.len() as int) =~= str_views(retry_notes@));
    if parts.len() == 0 {
        String::new()
    } else {
        let mut s = string_from(" (");
        let joined = join_strs(&parts, " + ");
        push_str(&mut s, joined.as_str());
        push_str(&mut s, ")");
        s
    }
}

// ---------------------------------------------------------------------------
// Formatting
// ---------------------------------------------------------------------------

/// Appends " from X.. to Y.." with both hashes cut to eight bytes.
fn push_from_to(s: &mut String, from: &str, to: &str)
    requires
        abbrev_ok(from@),
        abbrev_ok(to@),
    ensures
        final(s)@ == old(s)@ + from_to(from@, to@),
{
    push_str(s, " from ");
    push_abbrev(s, from);
    push_str(s, ".. to ");
    push_abbrev(s, to);
    push_str(s, "..");
    assert(s@ =~= old(s)@ + from_to(from@, to@));
}

/// The warning sign.
fn push_warn(s: &mut String)
    ensures
        final(s)@ == old(s)@ + warn(),
{
    push_char(s, '\u{26A0}');
    assert(s@ =~= old(s)@ + warn());
}

/// The one-line description of an action.
pub fn format_action(a: &PushPreviewAction) -> (r: String)
    requires
        action_hashes_ok(*a),
    ensures
        r@ == action_line(*a),
{
    let mut s = String::new();
    match a {
        PushPreviewAction::MoveForward { bookmark, from, to } => {
            push_str(&mut s, "Move forward ");
            push_str(&mut s, bookmark.as_str());
            push_from_to(&mut s, from.as_str(), to.as_str());
        },
        PushPreviewAction::MoveSideways { bookmark, from, to } => {
            push_warn(&mut s);
            push_str(&mut s, " Move sideways ");
            push_str(&mut s, bookmark.as_str());
            push_from_to(&mut s, from.as_str(), to.as_str());
        },
        PushPreviewAction::MoveBackward { bookmark, from, to } => {
            push_warn(&mut s);
            push_str(&mut s, " Move backward ");
            push_str(&mut s, bookmark.as_str());
            push_from_to(&mut s, from.as_str(), to.as_str());
        },
        PushPreviewAction::Add { bookmark, to } => {
            push_str(&mut s, "Add ");
            push_str(&mut s, bookmark.as_str());
            push_str(&mut s, " to ");
            push_abbrev(&mut s, to.as_str());
            push_str(&mut s, "..");
        },
        PushPreviewAction::Delete { bookmark, from } => {
            push_str(&mut s, "Delete ");
            push_str(&mut s, bookmark.as_str());
            push_str(&mut s, " from ");
            push_abbrev(&mut s, from.as_str());
            push_str(&mut s, "..");
        },
    }
    assert(s@ =~= action_line(*a));
    s
}

/// The dry-run actions for the confirmation dialog, one line each; force
/// pushes are marked with a warning sign and hashes are cut to eight bytes.
pub fn format_preview_actions(actions: &[PushPreviewAction]) -> (r: String)
    requires
        actions_ok(actions@),
    ensures
        r@ == preview_text(actions@),
{
    let mut lines: Vec<String> = Vec::new();
    let mut i: usize = 0;
    while i < actions.len()
        invariant
            actions_ok(actions@),
            i <= actions@.len(),
            string_views(lines@) == actions@.take(i as int).map_values(
                |a: PushPreviewAction| action_line(a),
            ),
        decreases actions.len() - i,
    {
        let line = format_action(&actions[i]);
        let ghost old_lines = lines@;
        lines.push(line);
        assert(string_views(lines@) =~= string_views(old_lines).push(action_line(actions@[i as int])));
        assert(actions@.take(i + 1).map_values(|a: PushPreviewAction| action_line(a))
            =~= actions@.take(i as int).map_values(|a: PushPreviewAction| action_line(a)).push(
            action_line(actions@[i as int]),
        ));
        i = i + 1;
        assert(string_views(lines@) =~= actions@.take(i as int).map_values(
            |a: PushPreviewAction| action_line(a),
        ));
    }
    assert(actions@.take(actions@.len() as int) =~= actions@);
    join_strings(&lines, "\n")
}

/// Index of the first action for bookmark `name`.
fn find_action(actions: &[PushPreviewAction], name: &str) -> (r: Option<usize>)
    ensures
        match r {
            Some(i) => first_action_for(actions@, name@, 0) == Some(i as int) && i < actions@.len(),
            None => first_action_for(actions@, name@, 0) is None,
        },
{
    let mut i: usize = 0;
    while i < actions.len()
        invariant
            i <= actions@.len(),
            first_action_for(actions@, name@, 0) == first_action_for(actions@, name@, i as int),
        decreases actions.len() - i,
    {
        if str_eq(bookmark_of(&actions[i]), name) {
            return Some(i);
        }
        i = i + 1;
    }
    None
}

/// A single bookmark's dry-run status for its label in the select dialog:
/// "move from X..", "⚠ force", "⚠ PROTECTED force", "new", "delete",
/// "up to date", or empty when unknown.
pub fn format_bookmark_status(preview: &PushPreviewResult, name: &str) -> (r: String)
    requires
        status_ok(*preview, name@),
    ensures
        r@ == bookmark_status(*preview, name@),
{
    match preview {
        PushPreviewResult::Changes(actions) => {
            match find_action(actions.as_slice(), name) {
                Some(i) => {
                    let mut s = String::new();
                    match &actions[i] {
                        PushPreviewAction::MoveForward { from, .. } => {
                            push_str(&mut s, "move from ");
                            push_abbrev(&mut s, from.as_str());
                            push_str(&mut s, "..");
                        },
                        PushPreviewAction::MoveSideways { .. } | PushPreviewAction::MoveBackward {
                            ..
                        } => {
                            push_warn(&mut s);
                            if is_immutable_bookmark(name) {
                                push_str(&mut s, " PROTECTED force");
                            } else {
                                push_str(&mut s, " force");
                            }
                        },
                        PushPreviewAction::Add { .. } => {
                            push_str(&mut s, "new");
                        },
                        PushPreviewAction::Delete { .. } => {
                            push_str(&mut s, "delete");
                        },
                    }
                    assert(s@ =~= bookmark_status(*preview, name@));
                    s
                },
                None => String::new(),
            }
        },
        PushPreviewResult::NothingChanged => string_from("up to date"),
        PushPreviewResult::Unparsed => String::new(),
    }
}


// ---------------------------------------------------------------------------
// Dialog texts and notices
// ---------------------------------------------------------------------------

/// Detail line of an ordinary push confirmation.
pub const UNDO_NOTE: &'static str = "Remote changes cannot be undone with 'u'.";

/// Detail line of a force push confirmation.
pub const FORCE_NOTE: &'static str = "This will rewrite remote history! Cannot be undone with 'u'.";

/// Detail line of a force push to one protected bookmark.
pub const PROTECTED_NOTE: &'static str =
    "WARNING: Force pushing to a protected bookmark rewrites shared history!";

/// Detail line of a force push that includes protected bookmarks.
pub const PROTECTED_MANY_NOTE: &'static str =
    "WARNING: Force pushing to protected bookmarks rewrites shared history!";

/// Message and detail line of a confirmation dialog.
#[derive(Debug, Clone, PartialEq, Eq)]
pub struct ConfirmText {
    pub message: String,
    pub detail: String,
}

/// What the application shows after a push dry run.
#[derive(Debug, Clone, PartialEq, Eq)]
pub enum PushPrompt {
    /// Nothing to do: an informational notice (the selected remote is cleared).
    Nothing(String),
    /// Ask for confirmation.
    Confirm(ConfirmText),
    /// The dry run failed: an error (the selected remote is cleared).
    Failed(String),
    /// `--revisions` is unknown to this jj: notify, then push bookmark by bookmark.
    PushIndividually(String),
}

/// The first step of the push flow for the selected change.
#[derive(Debug, Clone, Copy, PartialEq, Eq, Structural)]
pub enum PushStart {
    /// Several remotes and none chosen yet: ask for the remote first.
    SelectRemote,
    /// No bookmarks on the change: ask how to push (change, all, tracked, deleted).
    SelectMode,
    /// One bookmark: dry-run it and confirm.
    PreviewSingle,
    /// Several bookmarks: ask whether to push all of them or a selection.
    SelectMultiMode,
}

/// The first step of the push flow.
pub open spec fn push_start(remote_chosen: bool, remote_count: Option<usize>, bookmarks: nat) -> PushStart {
    if !remote_chosen && remote_count is Some && remote_count->0 > 1 {
        PushStart::SelectRemote
    } else if bookmarks == 0 {
        PushStart::SelectMode
    } else if bookmarks == 1 {
        PushStart::PreviewSingle
    } else {
        PushStart::SelectMultiMode
    }
}

/// Decides the first step of the push flow: remote selection when several
/// remotes exist (`remote_count`, when the remote list could be read) and none
/// was chosen, then by the number of bookmarks on the change.
pub fn plan_push_start(remote_chosen: bool, remote_count: Option<usize>, bookmarks: usize) -> (r: PushStart)
    ensures
        r == push_start(remote_chosen, remote_count, bookmarks as nat),
{
    if !remote_chosen {
        match remote_count {
            Some(n) => {
                if n > 1 {
                    return PushStart::SelectRemote;
                }
            },
            None => {},
        }
    }
    if bookmarks == 0 {
        PushStart::SelectMode
    } else if bookmarks == 1 {
        PushStart::PreviewSingle
    } else {
        PushStart::SelectMultiMode
    }
}

/// `"\"" + name + "\""`.
pub open spec fn quoted(name: Seq<char>) -> Seq<char> {
    "\""@ + name + "\""@
}

/// The confirmation for pushing one bookmark with a known dry run.
pub open spec fn single_confirm(name: Seq<char>, actions: Seq<PushPreviewAction>) -> (Seq<char>, Seq<char>) {
    let text = preview_text(actions);
    if has_force(actions) && is_protected(name) {
        (warn() + " FORCE PUSH to protected bookmark "@ + quoted(name) + "!\n"@ + text, PROTECTED_NOTE@)
    } else if has_force(actions) {
        (warn() + " FORCE PUSH bookmark "@ + quoted(name) + "?\n"@ + text, FORCE_NOTE@)
    } else {
        ("Push bookmark "@ + quoted(name) + "?\n"@ + text, UNDO_NOTE@)
    }
}

/// What pushing one bookmark shows, given its dry run (`None` when the dry
/// run failed: confirm without preview, the push itself may still succeed
/// with retry flags).
pub open spec fn single_prompt(name: Seq<char>, preview: Option<PushPreviewResult>) -> (int, Seq<char>, Seq<char>) {
    match preview {
        Some(PushPreviewResult::NothingChanged) => (0, "Nothing to push: "@ + name + " is already up to date"@, Seq::empty()),
        Some(PushPreviewResult::Changes(actions)) => {
            let c = single_confirm(name, actions@);
            (1, c.0, c.1)
        },
        _ => (1, "Push bookmark "@ + quoted(name) + "?"@, UNDO_NOTE@),
    }
}

/// The kind and texts of a prompt: 0 nothing, 1 confirm, 2 failed, 3 push individually.
pub open spec fn prompt_view(p: PushPrompt) -> (int, Seq<char>, Seq<char>) {
    match p {
        PushPrompt::Nothing(m) => (0, m@, Seq::empty()),
        PushPrompt::Confirm(c) => (1, c.message@, c.detail@),
        PushPrompt::Failed(m) => (2, m@, Seq::empty()),
        PushPrompt::PushIndividually(m) => (3, m@, Seq::empty()),
    }
}

/// Builds a confirmation from three pieces.
fn confirm3(a: &str, b: &str, c: &str, detail: &str) -> (r: PushPrompt)
    ensures
        prompt_view(r) == (1int, a@ + b@ + c@, detail@),
{
    let mut m = string_from(a);
    push_str(&mut m, b);
    push_str(&mut m, c);
    PushPrompt::Confirm(ConfirmText { message: m, detail: string_from(detail) })
}

/// Appends `"name"` with quotes.
fn push_quoted(s: &mut String, name: &str)
    ensures
        final(s)@ == old(s)@ + quoted(name@),
{
    push_str(s, "\"");
    push_str(s, name);
    push_str(s, "\"");
    assert(s@ =~= old(s)@ + quoted(name@));
}

/// What pushing the single bookmark `name` shows after its dry run: a
/// notice when it is up to date, otherwise a confirmation that carries the
/// preview (with force-push and protected-bookmark warnings), or no preview
/// when the dry run failed or could not be parsed.
pub fn single_push_prompt(name: &str, preview: Option<&PushPreviewResult>) -> (r: PushPrompt)
    requires
        preview matches Some(PushPreviewResult::Changes(a)) ==> actions_ok(a@),
    ensures
        prompt_view(r) == single_prompt(name@, match preview { Some(p) => Some(*p), None => None }),
{
    match preview {
        Some(PushPreviewResult::NothingChanged) => {
            let mut m = string_from("Nothing to push: ");
            push_str(&mut m, name);
            push_str(&mut m, " is already up to date");
            PushPrompt::Nothing(m)
        },
        Some(PushPreviewResult::Changes(actions)) => {
            let text = format_preview_actions(actions.as_slice());
            let force = has_force_push(actions.as_slice());
            let protected = is_immutable_bookmark(name);
            let mut m = String::new();
            let detail;
            if force && protected {
                push_warn(&mut m);
                push_str(&mut m, " FORCE PUSH to protected bookmark ");
                push_quoted(&mut m, name);
                push_str(&mut m, "!\n");
                detail = string_from(PROTECTED_NOTE);
            } else if force {
                push_warn(&mut m);
                push_str(&mut m, " FORCE PUSH bookmark ");
                push_quoted(&mut m, name);
                push_str(&mut m, "?\n");
                detail = string_from(FORCE_NOTE);
            } else {
                push_str(&mut m, "Push bookmark ");
                push_quoted(&mut m, name);
                push_str(&mut m, "?\n");
                detail = string_from(UNDO_NOTE);
            }
            push_str(&mut m, text.as_str());
            let r = PushPrompt::Confirm(ConfirmText { message: m, detail });
            assert(prompt_view(r) =~= single_prompt(name@, Some(*preview->0)));
            r
        },
        _ => {
            let mut m = string_from("Push bookmark ");
            push_quoted(&mut m, name);
            push_str(&mut m, "?");
            PushPrompt::Confirm(ConfirmText { message: m, detail: string_from(UNDO_NOTE) })
        },
    }
}

/// The texts of a force/protected warning confirmation for a group of bookmarks.
pub open spec fn group_confirm(
    force: bool,
    protected: bool,
    protected_head: Seq<char>,
    force_head: Seq<char>,
    plain_head: Seq<char>,
    text: Seq<char>,
) -> (int, Seq<char>, Seq<char>) {
    if force && protected {
        (1, protected_head + text, PROTECTED_MANY_NOTE@)
    } else if force {
        (1, force_head + text, FORCE_NOTE@)
    } else {
        (1, plain_head + text, UNDO_NOTE@)
    }
}

/// What a bulk push (`--all`, `--tracked`, `--deleted`) shows after its dry
/// run: `Ok((parsed, raw output))`, or `Err(error text)` when it failed.
pub open spec fn bulk_prompt(mode: PushBulkMode, dry_run: Result<(PushPreviewResult, Seq<char>), Seq<char>>) -> (int, Seq<char>, Seq<char>) {
    let label = bulk_label(mode);
    let nothing = "Nothing to push ("@ + label + ")"@;
    match dry_run {
        Err(e) => (2, "Push failed: "@ + e, Seq::empty()),
        Ok((PushPreviewResult::NothingChanged, _)) => (0, nothing, Seq::empty()),
        Ok((PushPreviewResult::Changes(actions), _)) => group_confirm(
            has_force(actions@),
            touches_protected(actions@),
            warn() + " FORCE PUSH "@ + label + " (includes protected bookmarks)!\n"@,
            warn() + " FORCE PUSH "@ + label + "?\n"@,
            "Push "@ + label + "?\n\n"@,
            preview_text(actions@),
        ),
        Ok((PushPreviewResult::Unparsed, raw)) => {
            let t = trim(raw);
            if t.len() == 0 || seq_contains(t, "Nothing changed"@) {
                (0, nothing, Seq::empty())
            } else {
                (1, "Push "@ + label + "?\n\n"@ + t, UNDO_NOTE@)
            }
        },
    }
}

/// What a bulk push shows after its dry run.
pub fn bulk_push_prompt(mode: PushBulkMode, dry_run: Result<(&PushPreviewResult, &str), &str>) -> (r: PushPrompt)
    requires
        dry_run matches Ok((PushPreviewResult::Changes(a), _)) ==> actions_ok(a@),
    ensures
        prompt_view(r) == bulk_prompt(mode, match dry_run { Ok((p, o)) => Ok((*p, o@)), Err(e) => Err(e@) }),
{
    let label = mode.label();
    match dry_run {
        Err(e) => {
            let mut m = string_from("Push failed: ");
            push_str(&mut m, e);
            PushPrompt::Failed(m)
        },
        Ok((preview, raw)) => {
            match preview {
                PushPreviewResult::NothingChanged => {
                    let mut m = string_from("Nothing to push (");
                    push_str(&mut m, label);
                    push_str(&mut m, ")");
                    PushPrompt::Nothing(m)
                },
                PushPreviewResult::Changes(actions) => {
                    let text = format_preview_actions(actions.as_slice());
                    let force = has_force_push(actions.as_slice());
                    let protected = has_protected_bookmark(actions.as_slice());
                    let mut m = String::new();
                    let detail;
                    if force && protected {
                        push_warn(&mut m);
                        push_str(&mut m, " FORCE PUSH ");
                        push_str(&mut m, label);
                        push_str(&mut m, " (includes protected bookmarks)!\n");
                        detail = string_from(PROTECTED_MANY_NOTE);
                    } else if force {
                        push_warn(&mut m);
                        push_str(&mut m, " FORCE PUSH ");
                        push_str(&mut m, label);
                        push_str(&mut m, "?\n");
                        detail = string_from(FORCE_NOTE);
                    } else {
                        push_str(&mut m, "Push ");
                        push_str(&mut m, label);
                        push_str(&mut m, "?\n\n");
                        detail = string_from(UNDO_NOTE);
                    }
                    push_str(&mut m, text.as_str());
                    let r = PushPrompt::Confirm(ConfirmText { message: m, detail });
                    assert(prompt_view(r) =~= bulk_prompt(mode, Ok((*preview, raw@))));
                    r
                },
                PushPreviewResult::Unparsed => {
                    let rv = chars_of(raw);
                    let t = trim_chars(&rv);
                    let nothing_changed = chars_of("Nothing changed");
                    if t.len() == 0 || crate::text::contains_chars(&t, &nothing_changed) {
                        let mut m = string_from("Nothing to push (");
                        push_str(&mut m, label);
                        push_str(&mut m, ")");
                        PushPrompt::Nothing(m)
                    } else {
                        let mut m = string_from("Push ");
                        push_str(&mut m, label);
                        push_str(&mut m, "?\n\n");
                        push_chars(&mut m, &t);
                        PushPrompt::Confirm(ConfirmText { message: m, detail: string_from(UNDO_NOTE) })
                    }
                },
            }
        },
    }
}

/// What pushing all bookmarks of a revision (`--revisions`) shows after its
/// dry run: `Ok(parsed)`, or `Err(error text)` when it failed.
pub open spec fn revisions_prompt(short: Seq<char>, dry_run: Result<PushPreviewResult, Seq<char>>) -> (int, Seq<char>, Seq<char>) {
    match dry_run {
        Ok(PushPreviewResult::NothingChanged) => (0, "Nothing to push: all bookmarks are already up to date"@, Seq::empty()),
        Ok(PushPreviewResult::Changes(actions)) => group_confirm(
            has_force(actions@),
            touches_protected(actions@),
            warn() + " FORCE PUSH all bookmarks on "@ + short + " (includes protected)!\n"@,
            warn() + " FORCE PUSH all bookmarks on "@ + short + "?\n"@,
            "Push all bookmarks on "@ + short + "?\n"@,
            preview_text(actions@),
        ),
        Ok(PushPreviewResult::Unparsed) => (1, "Push all bookmarks on "@ + short + "?"@, UNDO_NOTE@),
        Err(e) => {
            let lower = lowercase(e);
            if revisions_unsupported(lower) {
                (3, "--revisions not supported, pushing bookmarks individually"@, Seq::empty())
            } else if retry_flags(lower).len() > 0 {
                (1, "Push all bookmarks on "@ + short + "?\n(preview unavailable: will auto-retry with flags)"@, UNDO_NOTE@)
            } else {
                (2, "Push failed: "@ + e, Seq::empty())
            }
        },
    }
}

/// What pushing all bookmarks on `change_id` shows after the dry run. When
/// jj does not know `--revisions`, bookmarks are pushed one by one; when the
/// dry run fails for a private commit or a missing description, the
/// confirmation goes without preview (the push retries with flags).
pub fn revisions_push_prompt(change_id: &str, dry_run: Result<&PushPreviewResult, &str>) -> (r: PushPrompt)
    requires
        abbrev_ok(change_id@),
        dry_run matches Ok(PushPreviewResult::Changes(a)) ==> actions_ok(a@),
    ensures
        prompt_view(r) == revisions_prompt(abbrev(change_id@), match dry_run { Ok(p) => Ok(*p), Err(e) => Err(e@) }),
{
    let short = crate::text::abbreviate(change_id);
    let sh = short.as_str();
    match dry_run {
        Ok(PushPreviewResult::NothingChanged) => {
            PushPrompt::Nothing(string_from("Nothing to push: all bookmarks are already up to date"))
        },
        Ok(PushPreviewResult::Changes(actions)) => {
            let text = format_preview_actions(actions.as_slice());
            let force = has_force_push(actions.as_slice());
            let protected = has_protected_bookmark(actions.as_slice());
            let mut m = String::new();
            let detail;
            if force && protected {
                push_warn(&mut m);
                push_str(&mut m, " FORCE PUSH all bookmarks on ");
                push_str(&mut m, sh);
                push_str(&mut m, " (includes protected)!\n");
                detail = string_from(PROTECTED_MANY_NOTE);
            } else if force {
                push_warn(&mut m);
                push_str(&mut m, " FORCE PUSH all bookmarks on ");
                push_str(&mut m, sh);
                push_str(&mut m, "?\n");
                detail = string_from(FORCE_NOTE);
            } else {
                push_str(&mut m, "Push all bookmarks on ");
                push_str(&mut m, sh);
                push_str(&mut m, "?\n");
                detail = string_from(UNDO_NOTE);
            }
            push_str(&mut m, text.as_str());
            let r = PushPrompt::Confirm(ConfirmText { message: m, detail });
            assert(prompt_view(r) =~= revisions_prompt(short@, Ok(*dry_run->Ok_0)));
            r
        },
        Ok(PushPreviewResult::Unparsed) => confirm3("Push all bookmarks on ", sh, "?", UNDO_NOTE),
        Err(e) => {
            if is_revisions_unsupported_error(e) {
                PushPrompt::PushIndividually(string_from("--revisions not supported, pushing bookmarks individually"))
            } else if detect_push_retry_flags(e).len() > 0 {
                confirm3("Push all bookmarks on ", sh, "?\n(preview unavailable: will auto-retry with flags)", UNDO_NOTE)
            } else {
                let mut m = string_from("Push failed: ");
                push_str(&mut m, e);
                PushPrompt::Failed(m)
            }
        },
    }
}

/// What pushing by change id (`--change`) shows after its dry run:
/// `Ok(raw output)`, or `Err(error text)`.
pub open spec fn change_prompt(short: Seq<char>, dry_run: Result<Seq<char>, Seq<char>>) -> (int, Seq<char>, Seq<char>) {
    let head = "Push by change ID? (creates push-"@ + short + ")"@;
    match dry_run {
        Ok(out) => {
            let t = trim(out);
            if t.len() == 0 {
                (1, head, UNDO_NOTE@)
            } else {
                (1, head + "\n"@ + t, UNDO_NOTE@)
            }
        },
        Err(e) => {
            if retry_flags(lowercase(e)).len() > 0 {
                (1, head + "\n(preview unavailable: will auto-retry with flags)"@, UNDO_NOTE@)
            } else {
                (2, "Push failed: "@ + e, Seq::empty())
            }
        },
    }
}

/// What pushing by change id shows after its dry run: the confirmation with
/// the trimmed preview, without it when the dry run failed for reasons the
/// push retries, or the error.
pub fn change_push_prompt(change_id: &str, dry_run: Result<&str, &str>) -> (r: PushPrompt)
    requires
        abbrev_ok(change_id@),
    ensures
        prompt_view(r) == change_prompt(abbrev(change_id@), match dry_run { Ok(o) => Ok(o@), Err(e) => Err(e@) }),
{
    let mut head = string_from("Push by change ID? (creates push-");
    push_abbrev(&mut head, change_id);
    push_str(&mut head, ")");
    match dry_run {
        Ok(out) => {
            let ov = chars_of(out);
            let t = trim_chars(&ov);
            if t.len() > 0 {
                push_str(&mut head, "\n");
                push_chars(&mut head, &t);
            }
            PushPrompt::Confirm(ConfirmText { message: head, detail: string_from(UNDO_NOTE) })
        },
        Err(e) => {
            if detect_push_retry_flags(e).len() > 0 {
                push_str(&mut head, "\n(preview unavailable: will auto-retry with flags)");
                PushPrompt::Confirm(ConfirmText { message: head, detail: string_from(UNDO_NOTE) })
            } else {
                let mut m = string_from("Push failed: ");
                push_str(&mut m, e);
                PushPrompt::Failed(m)
            }
        },
    }
}

/// " to " + remote when a remote was chosen.
pub open spec fn to_remote(remote: Option<Seq<char>>) -> Seq<char> {
    match remote {
        Some(r) => " to "@ + r,
        None => Seq::empty(),
    }
}

/// Appends " to " + remote when a remote was chosen.
fn push_to_remote(s: &mut String, remote: Option<&str>)
    ensures
        final(s)@ == old(s)@ + to_remote(match remote { Some(r) => Some(r@), None => None }),
{
    match remote {
        Some(r) => {
            push_str(s, " to ");
            push_str(s, r);
            assert(s@ =~= old(s)@ + to_remote(Some(r@)));
        },
        None => {
            assert(s@ =~= old(s)@ + to_remote(None));
        },
    }
}

/// The notices after pushing bookmarks one by one: a success notice naming
/// the pushed bookmarks (and the remote), and an error joining the failures.
pub open spec fn bookmark_push_notices(
    successes: Seq<Seq<char>>,
    errors: Seq<Seq<char>>,
    remote: Option<Seq<char>>,
    suffix: Seq<char>,
) -> (Option<Seq<char>>, Option<Seq<char>>) {
    (
        if successes.len() > 0 {
            Some("Pushed bookmark: "@ + join(successes, ", "@) + to_remote(remote) + suffix)
        } else {
            None
        },
        if errors.len() > 0 {
            Some("Push failed: "@ + join(errors, "; "@))
        } else {
            None
        },
    )
}

/// The success notice and the error message after pushing bookmarks one by
/// one (`errors` are "name: error" entries; `suffix` from [`build_push_suffix`]).
pub fn bookmark_push_result(successes: &Vec<String>, errors: &Vec<String>, remote: Option<&str>, suffix: &str) -> (r: (Option<String>, Option<String>))
    ensures
        (match r.0 { Some(s) => Some(s@), None => None }, match r.1 { Some(s) => Some(s@), None => None })
            == bookmark_push_notices(string_views(successes@), string_views(errors@), match remote { Some(x) => Some(x@), None => None }, suffix@),
{
    let ok = if successes.len() > 0 {
        let mut m = string_from("Pushed bookmark: ");
        let names = join_strings(successes, ", ");
        push_str(&mut m, names.as_str());
        push_to_remote(&mut m, remote);
        push_str(&mut m, suffix);
        Some(m)
    } else {
        None
    };
    let err = if errors.len() > 0 {
        let mut m = string_from("Push failed: ");
        let joined = join_strings(errors, "; ");
        push_str(&mut m, joined.as_str());
        Some(m)
    } else {
        None
    };
    (ok, err)
}

/// The bookmark jj reports creating in `jj git push --change` output, else
/// the name it is expected to have.
pub open spec fn pushed_change_bookmark(output: Seq<char>, change_id: Seq<char>) -> Seq<char> {
    let ls = lines(output);
    if exists|i: int| 0 <= i < ls.len() && created_bookmark(#[trigger] ls[i]) is Some {
        let i = choose|i: int| 0 <= i < ls.len() && created_bookmark(#[trigger] ls[i]) is Some && forall|k: int| 0 <= k < i ==> created_bookmark(ls[k]) is None;
        created_bookmark(ls[i])->0
    } else {
        "push-"@ + abbrev(change_id)
    }
}

/// The bookmark named by a "Creating bookmark NAME ..." line.
pub open spec fn created_bookmark(line: Seq<char>) -> Option<Seq<char>> {
    let p = "Creating bookmark "@;
    if seq_starts_with(line, p) {
        first_word(line.subrange(p.len() as int, line.len() as int))
    } else {
        None
    }
}

/// The auto-created bookmark name from `jj git push --change` output: the
/// first word after "Creating bookmark " on the first line that has one;
/// otherwise the expected name `push-` + the first eight bytes of the change id.
pub fn parse_push_change_bookmark(output: &str, change_id: &str) -> (r: Option<String>)
    requires
        abbrev_ok(change_id@),
    ensures
        r is Some,
        r->0@ == pushed_change_bookmark(output@, change_id@),
{
    let ov = chars_of(output);
    let ls = lines_of(&ov);
    let prefix = chars_of("Creating bookmark ");
    let ghost l = lines(output@);
    let mut i: usize = 0;
    while i < ls.len()
        invariant
            ov@ == output@,
            l == lines(output@),
            prefix@ == "Creating bookmark "@,
            ls@.len() == l.len(),
            forall|k: int| 0 <= k < ls@.len() ==> #[trigger] ls@[k]@ == l[k],
            i <= ls@.len(),
            forall|k: int| 0 <= k < i ==> created_bookmark(#[trigger] l[k]) is None,
        decreases ls.len() - i,
    {
        let line = &ls[i];
        if starts_with_chars(line, &prefix) {
            let rest = slice_chars(line, prefix.len(), line.len());
            match first_word_of(&rest) {
                Some(w) => {
                    proof {
                        assert(created_bookmark(l[i as int]) == Some(w@));
                        let j = choose|j: int| 0 <= j < l.len() && created_bookmark(#[trigger] l[j]) is Some && forall|k: int| 0 <= k < j ==> created_bookmark(l[k]) is None;
                        if j < i {
                            assert(created_bookmark(l[j]) is None);
                        }
                        if j > i {
                            assert(created_bookmark(l[i as int]) is None);
                        }
                    }
                    return Some(string_of_chars(&w));
                },
                None => {},
            }
        }
        assert(created_bookmark(l[i as int]) is None);
        i = i + 1;
    }
    let mut s = string_from("push-");
    push_abbrev(&mut s, change_id);
    Some(s)
}

/// A `String` holding the characters of `v`.
fn string_of_chars(v: &Vec<char>) -> (r: String)
    ensures
        r@ == v@,
{
    crate::text::string_of(v.as_slice())
}

/// The success notice after `jj git push --change`.
pub open spec fn change_push_notice(bookmark: Option<Seq<char>>, short: Seq<char>, remote: Option<Seq<char>>, suffix: Seq<char>) -> Seq<char> {
    match bookmark {
        Some(name) => "Pushed change "@ + short + to_remote(remote) + " (created bookmark: "@ + name + ")"@ + suffix,
        None => "Pushed change "@ + short + to_remote(remote) + suffix,
    }
}

/// The success notice after `jj git push --change`, naming the created
/// bookmark, the remote when one was chosen, and the retry notes.
pub fn push_change_success_message(output: &str, change_id: &str, remote: Option<&str>, extra_flags: &[&str]) -> (r: String)
    requires
        abbrev_ok(change_id@),
    ensures
        r@ == change_push_notice(
            Some(pushed_change_bookmark(output@, change_id@)),
            abbrev(change_id@),
            match remote { Some(x) => Some(x@), None => None },
            push_suffix(false, retry_notes(str_views(extra_flags@))),
        ),
{
    let name = parse_push_change_bookmark(output, change_id);
    let notes = retry_notes_from_flags(extra_flags);
    let suffix = build_push_suffix(false, notes.as_slice());
    let mut m = string_from("Pushed change ");
    push_abbrev(&mut m, change_id);
    push_to_remote(&mut m, remote);
    match name {
        Some(n) => {
            push_str(&mut m, " (created bookmark: ");
            push_str(&mut m, n.as_str());
            push_str(&mut m, ")");
        },
        None => {},
    }
    push_str(&mut m, suffix.as_str());
    m
}

/// The success notice after pushing all bookmarks of a revision.
pub fn revisions_push_success_message(change_id: &str, remote: Option<&str>, extra_flags: &[&str]) -> (r: String)
    requires
        abbrev_ok(change_id@),
    ensures
        r@ == "Pushed all bookmarks on "@ + abbrev(change_id@) + to_remote(match remote { Some(x) => Some(x@), None => None }) + push_suffix(false, retry_notes(str_views(extra_flags@))),
{
    let notes = retry_notes_from_flags(extra_flags);
    let suffix = build_push_suffix(false, notes.as_slice());
    let mut m = string_from("Pushed all bookmarks on ");
    push_abbrev(&mut m, change_id);
    push_to_remote(&mut m, remote);
    push_str(&mut m, suffix.as_str());
    m
}

/// The prompt of the push-mode dialog for a change with several bookmarks.
pub fn multi_bookmark_mode_message(count: usize, change_id: &str) -> (r: String)
    requires
        abbrev_ok(change_id@),
    ensures
        r@ == decimal(count as nat) + " bookmarks on "@ + abbrev(change_id@) + ". Choose push mode:"@,
{
    let mut m = decimal_string(count as u64);
    push_str(&mut m, " bookmarks on ");
    push_abbrev(&mut m, change_id);
    push_str(&mut m, ". Choose push mode:");
    m
}

/// The label of `name` in the dialog that pushes bookmarks one by one: the
/// name, followed by its dry-run status in brackets when there is one.
pub open spec fn individual_label(name: Seq<char>, status: Seq<char>) -> Seq<char> {
    if status.len() == 0 {
        name
    } else {
        name + " ("@ + status + ")"@
    }
}

/// The choice for bookmark `name` in the dialog that pushes bookmarks one by
/// one, given its dry run (`None` when the dry run failed).
pub fn individual_push_item(name: &str, preview: Option<&PushPreviewResult>) -> (r: SelectItem)
    requires
        preview matches Some(p) ==> status_ok(*p, name@),
    ensures
        r.value@ == name@,
        !r.selected,
        r.label@ == individual_label(
            name@,
            match preview {
                Some(p) => bookmark_status(*p, name@),
                None => Seq::empty(),
            },
        ),
{
    let status = match preview {
        Some(p) => format_bookmark_status(p, name),
        None => String::new(),
    };
    let label = if status.as_str().is_empty() {
        string_from(name)
    } else {
        let mut l = string_from(name);
        push_str(&mut l, " (");
        push_str(&mut l, status.as_str());
        push_str(&mut l, ")");
        l
    };
    SelectItem { label, value: string_from(name), selected: false }
}

/// The dialog that pushes the bookmarks of `change_id` one by one: several
/// of `items` may be chosen, and confirming pushes the chosen ones.
pub fn individual_push_dialog(change_id: &str, items: Vec<SelectItem>) -> (r: Dialog)
    requires
        abbrev_ok(change_id@),
    ensures
        is_select_dialog(r, "Push to Remote"@, "Select bookmarks to push from "@ + abbrev(change_id@) + ":"@, false),
        select_detail(r) == Some(UNDO_NOTE@),
        dialog_items(r) == items@,
        r.callback == DialogCallback::GitPush,
{
    let mut m = string_from("Select bookmarks to push from ");
    push_abbrev(&mut m, change_id);
    push_str(&mut m, ":");
    Dialog {
        title: string_from("Push to Remote"),
        message: m,
        kind: DialogKind::Select { items, single: false, detail: Some(string_from(UNDO_NOTE)) },
        callback: DialogCallback::GitPush,
    }
}

/// The (label, value) choices of the push-mode dialog for a change without
/// bookmarks.
pub open spec fn push_mode_choices() -> Seq<(Seq<char>, Seq<char>)> {
    seq![
        ("Push by change ID (--change)"@, "change"@),
        ("Push all bookmarks (--all)"@, "all"@),
        ("Push tracked bookmarks (--tracked)"@, "tracked"@),
        ("Push deleted bookmarks (--deleted)"@, "deleted"@),
    ]
}

/// The (label, value) choices of the push-mode dialog for a change with
/// several bookmarks.
pub open spec fn multi_mode_choices() -> Seq<(Seq<char>, Seq<char>)> {
    seq![
        ("All bookmarks on this revision (--revisions)"@, "revisions"@),
        ("Select individual bookmarks..."@, "individual"@),
    ]
}

fn choice(label: &str, value: &str) -> (r: SelectItem)
    ensures
        r.label@ == label@,
        r.value@ == value@,
        !r.selected,
{
    SelectItem { label: string_from(label), value: string_from(value), selected: false }
}

/// A single-choice dialog titled "Push to Remote".
fn push_select(message: String, items: Vec<SelectItem>, callback: DialogCallback) -> (r: Dialog)
    ensures
        is_select_dialog(r, "Push to Remote"@, message@, true),
        select_detail(r) is None,
        dialog_items(r) == items@,
        r.callback == callback,
{
    Dialog {
        title: string_from("Push to Remote"),
        message,
        kind: DialogKind::Select { items, single: true, detail: None },
        callback,
    }
}

/// The choice of the remote to push to, among `remotes`; choosing one
/// restarts the push that asked for it.
pub fn remote_select_dialog(remotes: &[String]) -> (r: Dialog)
    ensures
        is_select_dialog(r, "Push to Remote"@, "Select remote to push to:"@, true),
        select_detail(r) is None,
        name_items(dialog_items(r), string_views(remotes@)),
        r.callback == DialogCallback::GitPushRemoteSelect,
{
    let mut items: Vec<SelectItem> = Vec::new();
    let mut i: usize = 0;
    while i < remotes.len()
        invariant
            i <= remotes@.len(),
            name_items(items@, string_views(remotes@).take(i as int)),
        decreases remotes.len() - i,
    {
        items.push(SelectItem { label: remotes[i].clone(), value: remotes[i].clone(), selected: false });
        i = i + 1;
        assert(name_items(items@, string_views(remotes@).take(i as int))) by {
            assert forall|k: int| 0 <= k < items@.len() implies (#[trigger] items@[k]).label@ == string_views(
                remotes@,
            ).take(i as int)[k] && items@[k].value@ == string_views(remotes@).take(i as int)[k]
                && !items@[k].selected by {}
        }
    }
    assert(string_views(remotes@).take(remotes@.len() as int) =~= string_views(remotes@));
    push_select(string_from("Select remote to push to:"), items, DialogCallback::GitPushRemoteSelect)
}

/// The dialog that a first step of the push flow opens for the selected
/// change `change_id` with `bookmarks` on it (a single choice titled "Push
/// to Remote"); `None` for the single-bookmark step, which runs a dry run
/// first. `remotes` are offered when a remote is to be chosen; choosing one
/// restarts the flow. Choosing a mode for a change without bookmarks, or for
/// one with several, carries the change (and its bookmarks) along.
pub fn push_start_dialog(start: PushStart, remotes: &[String], change_id: &str, bookmarks: &[String]) -> (r: Option<Dialog>)
    requires
        start == PushStart::SelectMultiMode ==> abbrev_ok(change_id@),
    ensures
        match start {
            PushStart::SelectRemote => r matches Some(d) && is_select_dialog(
                d,
                "Push to Remote"@,
                "Select remote to push to:"@,
                true,
            ) && select_detail(d) is None && name_items(dialog_items(d), string_views(remotes@)) && d.callback
                == DialogCallback::GitPushRemoteSelect,
            PushStart::SelectMode => r matches Some(d) && is_select_dialog(
                d,
                "Push to Remote"@,
                "No bookmarks on this change. Choose push mode:"@,
                true,
            ) && select_detail(d) is None && items_are(dialog_items(d), push_mode_choices()) && (
            d.callback matches DialogCallback::GitPushModeSelect { change_id: c } && c@ == change_id@),
            PushStart::PreviewSingle => r is None,
            PushStart::SelectMultiMode => r matches Some(d) && is_select_dialog(
                d,
                "Push to Remote"@,
                decimal(bookmarks@.len()) + " bookmarks on "@ + abbrev(change_id@) + ". Choose push mode:"@,
                true,
            ) && select_detail(d) is None && items_are(dialog_items(d), multi_mode_choices()) && (
            d.callback matches DialogCallback::GitPushMultiBookmarkMode { change_id: c, bookmarks: b } && c@
                == change_id@ && b@ == bookmarks@),
        },
{
    match start {
        PushStart::SelectRemote => Some(remote_select_dialog(remotes)),
        PushStart::SelectMode => {
            let mut items = Vec::new();
            items.push(choice("Push by change ID (--change)", "change"));
            items.push(choice("Push all bookmarks (--all)", "all"));
            items.push(choice("Push tracked bookmarks (--tracked)", "tracked"));
            items.push(choice("Push deleted bookmarks (--deleted)", "deleted"));
            assert(items_are(items@, push_mode_choices()));
            Some(
                push_select(
                    string_from("No bookmarks on this change. Choose push mode:"),
                    items,
                    DialogCallback::GitPushModeSelect { change_id: string_from(change_id) },
                ),
            )
        },
        PushStart::PreviewSingle => None,
        PushStart::SelectMultiMode => {
            let mut items = Vec::new();
            items.push(choice("All bookmarks on this revision (--revisions)", "revisions"));
            items.push(choice("Select individual bookmarks...", "individual"));
            assert(items_are(items@, multi_mode_choices()));
            let names = clone_strings(bookmarks);
            Some(
                push_select(
                    multi_bookmark_mode_message(bookmarks.len(), change_id),
                    items,
                    DialogCallback::GitPushMultiBookmarkMode { change_id: string_from(change_id), bookmarks: names },
                ),
            )
        },
    }
}

} // verus!
