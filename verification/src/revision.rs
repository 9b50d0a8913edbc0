//! Revision lookup and display helpers.
//!
//! Centralizes ID truncation, lookup between change ids and commit ids, and
//! root-commit detection over the rows of the change log.
use vstd::prelude::*;

use crate::text::{str_eq, take_chars, take_str};
use vstd::string::StringSliceAdditionalSpecFns;
use vstd::utf8::{decode_utf8, encode_utf8, is_char_boundary};

verus! {

/// Change id of the root commit (jj's all-`z` id, abbreviated).
pub const ROOT_CHANGE_ID: &'static str = "zzzzzzzz";

/// Rows a log query asks jj for at most.
pub const LOG_LIMIT: usize = 200;

/// Characters kept by [`short_id`].
pub const SHORT_ID_LEN: usize = 8;

/// One row of the change log: the fields the library logic reads.
#[derive(Debug, Clone)]
pub struct Change {
    pub change_id: String,
    pub commit_id: String,
    pub bookmarks: Vec<String>,
    pub description: String,
    pub is_working_copy: bool,
    /// A row that only draws graph edges (no revision of its own).
    pub is_graph_only: bool,
}

impl Default for Change {
    fn default() -> (r: Self)
        ensures
            r.change_id@ == Seq::<char>::empty(),
            r.commit_id@ == Seq::<char>::empty(),
            r.bookmarks@.len() == 0,
            r.description@.len() == 0,
            !r.is_working_copy,
            !r.is_graph_only,
    {
        Change {
            change_id: String::new(),
            commit_id: String::new(),
            bookmarks: Vec::new(),
            description: String::new(),
            is_working_copy: false,
            is_graph_only: false,
        }
    }
}

/// The change log as the log view holds it: its rows and the cursor.
#[derive(Debug, Clone)]
pub struct LogView {
    pub changes: Vec<Change>,
    pub selected_index: usize,
}

impl LogView {
    /// The row under the cursor, if the cursor is on a row.
    pub fn selected_change(&self) -> (r: Option<&Change>)
        ensures
            r == (if self.selected_index < self.changes@.len() {
                Some(&self.changes@[self.selected_index as int])
            } else {
                None
            }),
    {
        if self.selected_index < self.changes.len() {
            Some(&self.changes[self.selected_index])
        } else {
            None
        }
    }
}

/// The two ids (and working-copy flag) that most actions need from the
/// selected row.
#[derive(Debug, Clone)]
pub struct SelectedRevision {
    pub change_id: String,
    pub commit_id: String,
    pub is_working_copy: bool,
}

impl SelectedRevision {
    /// Extract from the currently selected change in a log view.
    pub fn from_log_view(log_view: &LogView) -> (r: Option<Self>)
        ensures
            match r {
                Some(s) => log_view.selected_index < log_view.changes@.len() && {
                    let c = log_view.changes@[log_view.selected_index as int];
                    &&& s.change_id@ == c.change_id@
                    &&& s.commit_id@ == c.commit_id@
                    &&& s.is_working_copy == c.is_working_copy
                },
                None => log_view.selected_index >= log_view.changes@.len(),
            },
    {
        match log_view.selected_change() {
            Some(c) => Some(
                SelectedRevision {
                    change_id: c.change_id.clone(),
                    commit_id: c.commit_id.clone(),
                    is_working_copy: c.is_working_copy,
                },
            ),
            None => None,
        }
    }
}

/// The first eight characters of `s` (all of them when shorter): the form
/// in which ids are shown.
pub open spec fn short_view(s: Seq<char>) -> Seq<char> {
    take_chars(s, SHORT_ID_LEN as int)
}

/// Truncate an id to its first eight characters for display (the whole id
/// when shorter).
pub fn short_id(id: &str) -> (r: String)
    ensures
        r@ == short_view(id@),
{
    take_str(id, SHORT_ID_LEN)
}

/// Number of rows that draw a revision (not graph only).
pub open spec fn selectable_count(changes: Seq<Change>) -> nat
    decreases changes.len(),
{
    if changes.len() == 0 {
        0
    } else {
        selectable_count(changes.drop_last()) + if changes.last().is_graph_only {
            0nat
        } else {
            1nat
        }
    }
}

/// Whether a loaded log was probably cut by the log limit: it shows at
/// least `limit` revisions.
pub fn log_truncated(changes: &[Change], limit: usize) -> (r: bool)
    ensures
        r == (selectable_count(changes@) >= limit),
{
    let mut count: usize = 0;
    let mut i: usize = 0;
    while i < changes.len()
        invariant
            i <= changes@.len(),
            count == selectable_count(changes@.take(i as int)),
            count <= i,
        decreases changes.len() - i,
    {
        assert(changes@.take(i + 1).drop_last() =~= changes@.take(i as int));
        if !changes[i].is_graph_only {
            count = count + 1;
        }
        i = i + 1;
    }
    assert(changes@.take(changes@.len() as int) =~= changes@);
    count >= limit
}

/// Bytes kept of a text encoded as `b` when cut to `n` bytes.
pub open spec fn cut_at(b: Seq<u8>, n: nat) -> int {
    if b.len() < n {
        b.len() as int
    } else {
        n as int
    }
}

/// The characters that the first `n` bytes of the text `s` encode.
pub open spec fn prefix_view(s: Seq<char>, n: nat) -> Seq<char> {
    decode_utf8(encode_utf8(s).subrange(0, cut_at(encode_utf8(s), n)))
}

/// The first `n` bytes of `s` end on a character boundary.
pub open spec fn prefix_ok(s: Seq<char>, n: nat) -> bool {
    &&& encode_utf8(s).len() <= usize::MAX
    &&& is_char_boundary(encode_utf8(s), cut_at(encode_utf8(s), n))
}

/// The first `n` bytes of an id (the whole id when shorter), as ids are
/// shown in notices.
pub fn id_prefix(id: &str, n: usize) -> (r: &str)
    requires
        prefix_ok(id@, n as nat),
    ensures
        r@ == prefix_view(id@, n as nat),
{
    broadcast use vstd::utf8::encode_utf8_decode_utf8;

    let len = id.len();
    let cut = if len < n {
        len
    } else {
        n
    };
    let (head, _tail) = id.split_at(cut);
    assert(decode_utf8(head.spec_bytes()) == head@);
    head
}

/// Index of the first row whose commit id is `commit_id`, searching from `i`.
pub open spec fn index_of_commit_from(changes: Seq<Change>, commit_id: Seq<char>, i: int) -> Option<
    int,
>
    decreases changes.len() - i,
{
    if i < 0 || i >= changes.len() {
        None
    } else if changes[i].commit_id@ == commit_id {
        Some(i)
    } else {
        index_of_commit_from(changes, commit_id, i + 1)
    }
}

/// Index of the first row whose change id is `change_id`, searching from `i`.
pub open spec fn index_of_change_from(changes: Seq<Change>, change_id: Seq<char>, i: int) -> Option<
    int,
>
    decreases changes.len() - i,
{
    if i < 0 || i >= changes.len() {
        None
    } else if changes[i].change_id@ == change_id {
        Some(i)
    } else {
        index_of_change_from(changes, change_id, i + 1)
    }
}

/// The change id of the first row with the given commit id.
pub open spec fn change_id_for_commit_spec(changes: Seq<Change>, commit_id: Seq<char>) -> Option<
    Seq<char>,
> {
    match index_of_commit_from(changes, commit_id, 0) {
        Some(i) => Some(changes[i].change_id@),
        None => None,
    }
}

/// The commit id of the first row with the given change id.
pub open spec fn commit_id_for_change_spec(changes: Seq<Change>, change_id: Seq<char>) -> Option<
    Seq<char>,
> {
    match index_of_change_from(changes, change_id, 0) {
        Some(i) => Some(changes[i].commit_id@),
        None => None,
    }
}

/// A found index really matches, and no earlier row does.
pub proof fn lemma_index_of_commit_from(changes: Seq<Change>, commit_id: Seq<char>, i: int)
    requires
        0 <= i,
    ensures
        match index_of_commit_from(changes, commit_id, i) {
            Some(j) => i <= j < changes.len() && changes[j].commit_id@ == commit_id && forall|k: int|
                i <= k < j ==> changes[k].commit_id@ != commit_id,
            None => forall|k: int| i <= k < changes.len() ==> changes[k].commit_id@ != commit_id,
        },
    decreases changes.len() - i,
{
    if i < changes.len() && changes[i].commit_id@ != commit_id {
        lemma_index_of_commit_from(changes, commit_id, i + 1);
    }
}

/// Reverse lookup: the change id of the first row carrying `commit_id`.
pub fn change_id_for_commit<'a>(changes: &'a [Change], commit_id: &str) -> (r: Option<&'a str>)
    ensures
        match r {
            Some(s) => change_id_for_commit_spec(changes@, commit_id@) == Some(s@),
            None => change_id_for_commit_spec(changes@, commit_id@) is None,
        },
{
    let mut i: usize = 0;
    while i < changes.len()
        invariant
            i <= changes@.len(),
            index_of_commit_from(changes@, commit_id@, 0) == index_of_commit_from(
                changes@,
                commit_id@,
                i as int,
            ),
        decreases changes.len() - i,
    {
        if str_eq(changes[i].commit_id.as_str(), commit_id) {
            return Some(changes[i].change_id.as_str());
        }
        i = i + 1;
    }
    None
}

/// Forward lookup: the commit id of the first row carrying `change_id`
/// (for divergent changes, the first of its commits).
pub fn commit_id_for_change<'a>(changes: &'a [Change], change_id: &str) -> (r: Option<&'a str>)
    ensures
        match r {
            Some(s) => commit_id_for_change_spec(changes@, change_id@) == Some(s@),
            None => commit_id_for_change_spec(changes@, change_id@) is None,
        },
{
    let mut i: usize = 0;
    while i < changes.len()
        invariant
            i <= changes@.len(),
            index_of_change_from(changes@, change_id@, 0) == index_of_change_from(
                changes@,
                change_id@,
                i as int,
            ),
        decreases changes.len() - i,
    {
        if str_eq(changes[i].change_id.as_str(), change_id) {
            return Some(changes[i].commit_id.as_str());
        }
        i = i + 1;
    }
    None
}

/// Whether the first row carrying `commit_id` is the root change.
pub open spec fn is_root_by_commit_id_spec(changes: Seq<Change>, commit_id: Seq<char>) -> bool {
    change_id_for_commit_spec(changes, commit_id) == Some(ROOT_CHANGE_ID@)
}

/// Whether `commit_id` belongs to the root commit, judged by the change id of
/// its row.
pub fn is_root_by_commit_id(changes: &[Change], commit_id: &str) -> (r: bool)
    ensures
        r == is_root_by_commit_id_spec(changes@, commit_id@),
{
    match change_id_for_commit(changes, commit_id) {
        Some(cid) => str_eq(cid, ROOT_CHANGE_ID),
        None => false,
    }
}

} // verus!
