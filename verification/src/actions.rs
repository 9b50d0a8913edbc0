//! Decisions and texts around jj operations: notices from command output,
//! error classification, description helpers, tag wording and patch file
//! names.
use vstd::prelude::*;

use crate::text::{
    abbrev, abbrev_ok, all_ws, contains_string, lemma_decimal_injective, lemma_decimal_len_pos, string_views, chars_of, decimal, decimal_string, is_blank, lines, lines_of,
    lowercase, lowercase_contains, push_abbrev, push_chars, push_str, seq_contains,
    seq_starts_with, slice_chars, starts_with_chars, str_contains, str_eq, string_from, string_of,
    trim, trim_chars, trim_end,
};

verus! {

// ===========================================================================
// Notifications
// ===========================================================================

/// Severity of a notice.
#[derive(Debug, Clone, Copy, PartialEq, Eq, Structural)]
pub enum NotificationKind {
    Success,
    Info,
    Warning,
}

/// A notice shown in the status area.
#[derive(Debug, Clone, PartialEq, Eq)]
pub struct Notification {
    pub message: String,
    pub kind: NotificationKind,
}

impl Notification {
    /// A notice of the given kind.
    pub fn new(message: String, kind: NotificationKind) -> (r: Self)
        ensures
            r.message@ == message@,
            r.kind == kind,
    {
        Notification { message, kind }
    }

    /// A success notice.
    pub fn success(message: &str) -> (r: Self)
        ensures
            r.message@ == message@,
            r.kind == NotificationKind::Success,
    {
        Notification { message: string_from(message), kind: NotificationKind::Success }
    }

    /// An informational notice.
    pub fn info(message: &str) -> (r: Self)
        ensures
            r.message@ == message@,
            r.kind == NotificationKind::Info,
    {
        Notification { message: string_from(message), kind: NotificationKind::Info }
    }

    /// A warning notice.
    pub fn warning(message: &str) -> (r: Self)
        ensures
            r.message@ == message@,
            r.kind == NotificationKind::Warning,
    {
        Notification { message: string_from(message), kind: NotificationKind::Warning }
    }
}

/// The output says nothing happened: empty after trimming, or "nothing" in
/// any case.
pub open spec fn nothing_happened(output: Seq<char>) -> bool {
    all_ws(output) || seq_contains(lowercase(output), "nothing"@)
}

/// Whether the output reports that nothing happened.
fn reports_nothing(output: &str) -> (r: bool)
    ensures
        r == nothing_happened(output@),
{
    is_blank(output) || lowercase_contains(output, "nothing")
}

/// The notice after `jj absorb`.
pub fn absorb_notification(output: &str) -> (r: Notification)
    ensures
        nothing_happened(output@) ==> r.kind == NotificationKind::Info && r.message@
            == "Nothing to absorb"@,
        !nothing_happened(output@) ==> r.kind == NotificationKind::Success && r.message@
            == "Absorb finished"@,
{
    if reports_nothing(output) {
        Notification::info("Nothing to absorb")
    } else {
        Notification::success("Absorb finished")
    }
}

/// The notice after `jj simplify-parents` on `change_id`.
pub fn simplify_parents_notification(output: &str, change_id: &str) -> (r: Notification)
    requires
        abbrev_ok(change_id@),
    ensures
        nothing_happened(output@) ==> r.kind == NotificationKind::Info && r.message@
            == "No redundant parents found"@,
        !nothing_happened(output@) ==> r.kind == NotificationKind::Success && r.message@
            == "Simplified parents for "@ + abbrev(change_id@) + " (undo: u)"@,
{
    if reports_nothing(output) {
        Notification::info("No redundant parents found")
    } else {
        let mut m = string_from("Simplified parents for ");
        push_abbrev(&mut m, change_id);
        push_str(&mut m, " (undo: u)");
        Notification::new(m, NotificationKind::Success)
    }
}

/// The notice after `jj parallelize`. jj prints nothing on success, so only
/// an explicit "nothing" means no change.
pub fn parallelize_notification(output: &str) -> (r: Notification)
    ensures
        seq_contains(lowercase(output@), "nothing"@) ==> r.kind == NotificationKind::Info
            && r.message@ == "Nothing to parallelize (revisions may not be connected)"@,
        !seq_contains(lowercase(output@), "nothing"@) ==> r.kind == NotificationKind::Success
            && r.message@ == "Parallelized (undo: u)"@,
{
    if lowercase_contains(output, "nothing") {
        Notification::info("Nothing to parallelize (revisions may not be connected)")
    } else {
        Notification::success("Parallelized (undo: u)")
    }
}

/// The notice after `jj git fetch`.
pub fn fetch_notification(output: &str) -> (r: Notification)
    ensures
        all_ws(output@) ==> r.kind == NotificationKind::Info && r.message@
            == "Already up to date"@,
        !all_ws(output@) ==> r.kind == NotificationKind::Success && r.message@
            == "Fetched from remote"@,
{
    if is_blank(output) {
        Notification::info("Already up to date")
    } else {
        Notification::success("Fetched from remote")
    }
}

// ===========================================================================
// jj errors
// ===========================================================================

/// Failures of a jj invocation that the logic tells apart.
#[derive(Debug, Clone, PartialEq, Eq)]
pub enum JjError {
    /// jj ran and failed.
    CommandFailed { stderr: String, exit_code: i32 },
    /// The directory is not inside a jj repository.
    NotARepository,
}

/// The error says the bookmark already exists.
pub open spec fn bookmark_exists(e: JjError) -> bool {
    match e {
        JjError::CommandFailed { stderr, .. } => seq_contains(lowercase(stderr@), "already exists"@)
            || seq_contains(lowercase(stderr@), "bookmark already"@),
        _ => false,
    }
}

/// Whether a jj error says the bookmark already exists (so creating it
/// falls back to moving it).
pub fn is_bookmark_exists_error(error: &JjError) -> (r: bool)
    ensures
        r == bookmark_exists(*error),
{
    match error {
        JjError::CommandFailed { stderr, .. } => {
            let lower = crate::text::to_lowercase(stderr.as_str());
            str_contains(lower.as_str(), "already exists") || str_contains(
                lower.as_str(),
                "bookmark already",
            )
        },
        _ => false,
    }
}

/// The message for a failed `jj next` / `jj prev`, given the error text.
pub open spec fn next_prev_error(err: Seq<char>, direction: Seq<char>) -> Seq<char> {
    if seq_contains(err, "more than one child"@) || seq_contains(err, "more than one parent"@) {
        "Cannot move "@ + direction + ": multiple "@ + (if direction == "next"@ {
            "children"@
        } else {
            "parents"@
        }) + ". Use 'e' to edit a specific revision."@
    } else if seq_contains(err, "No descendant"@) || seq_contains(err, "no child"@) {
        "Already at the newest change"@
    } else if seq_contains(err, "No ancestor"@) || seq_contains(err, "no parent"@) {
        "Already at the root"@
    } else {
        "Move "@ + direction + " failed: "@ + err
    }
}

/// The message for a failed move to the next/previous change (`direction`
/// is "next" or "prev"), from the error's text.
pub fn format_next_prev_error(err: &str, direction: &str) -> (r: String)
    ensures
        r@ == next_prev_error(err@, direction@),
{
    if str_contains(err, "more than one child") || str_contains(err, "more than one parent") {
        let mut m = string_from("Cannot move ");
        push_str(&mut m, direction);
        push_str(&mut m, ": multiple ");
        if str_eq(direction, "next") {
            push_str(&mut m, "children");
        } else {
            push_str(&mut m, "parents");
        }
        push_str(&mut m, ". Use 'e' to edit a specific revision.");
        m
    } else if str_contains(err, "No descendant") || str_contains(err, "no child") {
        string_from("Already at the newest change")
    } else if str_contains(err, "No ancestor") || str_contains(err, "no parent") {
        string_from("Already at the root")
    } else {
        let mut m = string_from("Move ");
        push_str(&mut m, direction);
        push_str(&mut m, " failed: ");
        push_str(&mut m, err);
        m
    }
}

/// The notice after a successful move: the first line of jj's (trimmed)
/// output, or a plain success when it printed nothing.
pub open spec fn next_prev_message(output: Seq<char>, direction: Seq<char>) -> Seq<char> {
    let t = trim(output);
    if t.len() == 0 {
        "Moved "@ + direction + " successfully"@
    } else {
        let ls = lines(t);
        "Moved "@ + direction + ": "@ + (if ls.len() > 0 {
            ls[0]
        } else {
            t
        })
    }
}

/// The notice after `jj next` / `jj prev` succeeded.
pub fn parse_next_prev_message(output: &str, direction: &str) -> (r: String)
    ensures
        r@ == next_prev_message(output@, direction@),
{
    let ov = chars_of(output);
    let t = trim_chars(&ov);
    let mut m = string_from("Moved ");
    push_str(&mut m, direction);
    if t.len() == 0 {
        push_str(&mut m, " successfully");
    } else {
        push_str(&mut m, ": ");
        let ls = lines_of(&t);
        if ls.len() > 0 {
            push_chars(&mut m, &ls[0]);
        } else {
            push_chars(&mut m, &t);
        }
    }
    m
}

// ===========================================================================
// jj duplicate
// ===========================================================================

/// The new change id a "Duplicated <commit> as <change> ..." line names.
pub open spec fn duplicated_id(line: Seq<char>) -> Option<Seq<char>> {
    let p = "Duplicated "@;
    if seq_starts_with(line, p) {
        let rest = line.subrange(p.len() as int, line.len() as int);
        match space_fields(rest) {
            Some((a, b)) => if a == "as"@ {
                Some(b)
            } else {
                None
            },
            None => None,
        }
    } else {
        None
    }
}

/// The second and third space-separated fields of `s`, when `s` has at
/// least two spaces (what `splitn(4, ' ')` yields at positions 1 and 2).
pub open spec fn space_fields(s: Seq<char>) -> Option<(Seq<char>, Seq<char>)> {
    match crate::text::first_index_of(s, ' ') {
        Some(i) => {
            let t = s.subrange(i + 1, s.len() as int);
            match crate::text::first_index_of(t, ' ') {
                Some(j) => {
                    let u = t.subrange(j + 1, t.len() as int);
                    let k = match crate::text::first_index_of(u, ' ') {
                        Some(k) => k,
                        None => u.len() as int,
                    };
                    Some((t.subrange(0, j), u.subrange(0, k)))
                },
                None => None,
            }
        },
        None => None,
    }
}

/// The new change id named in `jj duplicate` output: from the first line of
/// the form "Duplicated <commit_id> as <new_change_id> ...".
pub open spec fn duplicate_output_id(output: Seq<char>) -> Option<Seq<char>> {
    let ls = lines(output);
    if exists|i: int| 0 <= i < ls.len() && duplicated_id(#[trigger] ls[i]) is Some {
        let i = choose|i: int|
            0 <= i < ls.len() && duplicated_id(#[trigger] ls[i]) is Some && forall|k: int|
                0 <= k < i ==> duplicated_id(ls[k]) is None;
        duplicated_id(ls[i])
    } else {
        None
    }
}

/// The second and third space-separated fields of `v`.
fn space_fields_of(v: &Vec<char>) -> (r: Option<(Vec<char>, Vec<char>)>)
    ensures
        match r {
            Some((a, b)) => space_fields(v@) == Some((a@, b@)),
            None => space_fields(v@) is None,
        },
{
    let i = match crate::text::find_char(v, ' ', 0) {
        Some(i) => i,
        None => {
            proof {
                crate::text::lemma_first_index_of_none(v@, ' ');
            }
            return None;
        },
    };
    proof {
        crate::text::lemma_first_index_of_at(v@, ' ', i as int);
    }
    let ghost t = v@.subrange(i + 1, v@.len() as int);
    assert(i < v.len());
    let j = match crate::text::find_char(v, ' ', i + 1) {
        Some(j) => j,
        None => {
            proof {
                assert forall|k: int| 0 <= k < t.len() implies t[k] != ' ' by {
                    assert(t[k] == v@[i + 1 + k]);
                }
                crate::text::lemma_first_index_of_none(t, ' ');
            }
            return None;
        },
    };
    proof {
        assert forall|k: int| 0 <= k < j - (i + 1) implies t[k] != ' ' by {
            assert(t[k] == v@[i + 1 + k]);
        }
        assert(t[j - (i + 1)] == v@[j as int]);
        crate::text::lemma_first_index_of_at(t, ' ', j - (i + 1));
    }
    let ghost u = t.subrange(j - i, t.len() as int);
    proof {
        assert(u =~= v@.subrange(j + 1, v@.len() as int));
    }
    let end = match crate::text::find_char(v, ' ', j + 1) {
        Some(k) => {
            proof {
                assert forall|q: int| 0 <= q < k - (j + 1) implies u[q] != ' ' by {
                    assert(u[q] == v@[j + 1 + q]);
                }
                assert(u[k - (j + 1)] == v@[k as int]);
                crate::text::lemma_first_index_of_at(u, ' ', k - (j + 1));
            }
            k
        },
        None => {
            proof {
                assert forall|q: int| 0 <= q < u.len() implies u[q] != ' ' by {
                    assert(u[q] == v@[j + 1 + q]);
                }
                crate::text::lemma_first_index_of_none(u, ' ');
            }
            v.len()
        },
    };
    let a = slice_chars(v, i + 1, j);
    let b = slice_chars(v, j + 1, end);
    proof {
        assert(a@ =~= t.subrange(0, j - (i + 1)));
        assert(b@ =~= u.subrange(0, end - (j + 1)));
    }
    Some((a, b))
}

/// The new change id from `jj duplicate` output: the third word of the
/// first "Duplicated <commit_id> as <new_change_id> ..." line, if any.
pub fn parse_duplicate_output(output: &str) -> (r: Option<String>)
    ensures
        match r {
            Some(s) => duplicate_output_id(output@) == Some(s@),
            None => duplicate_output_id(output@) is None,
        },
{
    let ov = chars_of(output);
    let ls = lines_of(&ov);
    let prefix = chars_of("Duplicated ");
    let as_word = chars_of("as");
    let ghost l = lines(output@);
    let mut i: usize = 0;
    while i < ls.len()
        invariant
            ov@ == output@,
            l == lines(output@),
            prefix@ == "Duplicated "@,
            as_word@ == "as"@,
            ls@.len() == l.len(),
            forall|k: int| 0 <= k < ls@.len() ==> #[trigger] ls@[k]@ == l[k],
            i <= ls@.len(),
            forall|k: int| 0 <= k < i ==> duplicated_id(#[trigger] l[k]) is None,
        decreases ls.len() - i,
    {
        let line = &ls[i];
        if starts_with_chars(line, &prefix) {
            let rest = slice_chars(line, prefix.len(), line.len());
            match space_fields_of(&rest) {
                Some((a, b)) => {
                    if a.len() == 2 && a[0] == 'a' && a[1] == 's' {
                        proof {
                            reveal_strlit("as");
                            assert(a@ =~= "as"@);
                            assert(duplicated_id(l[i as int]) == Some(b@));
                            let j = choose|j: int|
                                0 <= j < l.len() && duplicated_id(#[trigger] l[j]) is Some
                                    && forall|k: int| 0 <= k < j ==> duplicated_id(l[k]) is None;
                            if j < i {
                                assert(duplicated_id(l[j]) is None);
                            }
                            if j > i {
                                assert(duplicated_id(l[i as int]) is None);
                            }
                        }
                        return Some(string_of(b.as_slice()));
                    }
                    proof {
                        reveal_strlit("as");
                        if a@ == "as"@ {
                            assert(a@.len() == 2 && a@[0] == 'a' && a@[1] == 's');
                        }
                    }
                },
                None => {},
            }
        }
        assert(duplicated_id(l[i as int]) is None);
        i = i + 1;
    }
    None
}

// ===========================================================================
// Descriptions
// ===========================================================================

/// A description longer than one line (edited in the external editor rather
/// than inline).
pub open spec fn is_multiline(desc: Seq<char>) -> bool {
    lines(desc).len() > 1
}

/// Whether a description has more than one line (`lines().nth(1)` exists).
pub fn is_multiline_description(desc: &str) -> (r: bool)
    ensures
        r == is_multiline(desc@),
{
    let v = chars_of(desc);
    let ls = lines_of(&v);
    ls.len() > 1
}

/// Whether editing changed a description, ignoring trailing whitespace.
pub fn description_changed(before: &str, after: &str) -> (r: bool)
    ensures
        r == (trim_end(before@) != trim_end(after@)),
{
    let b = chars_of(before);
    let a = chars_of(after);
    let tb = trim_end_chars(&b);
    let ta = trim_end_chars(&a);
    !chars_equal(&tb, &ta)
}

/// `v` without trailing whitespace.
fn trim_end_chars(v: &Vec<char>) -> (r: Vec<char>)
    ensures
        r@ == trim_end(v@),
{
    let mut j: usize = v.len();
    assert(v@.subrange(0, v@.len() as int) =~= v@);
    while j > 0 && crate::text::is_ws_exec(v[j - 1])
        invariant
            j <= v@.len(),
            trim_end(v@) == trim_end(v@.subrange(0, j as int)),
        decreases j,
    {
        proof {
            let s = v@.subrange(0, j as int);
            assert(s.drop_last() =~= v@.subrange(0, j - 1));
        }
        j = j - 1;
    }
    proof {
        assert(v@.subrange(0, v@.len() as int) =~= v@);
    }
    slice_chars(v, 0, j)
}

/// Whether two character vectors are equal.
fn chars_equal(a: &Vec<char>, b: &Vec<char>) -> (r: bool)
    ensures
        r == (a@ == b@),
{
    if a.len() != b.len() {
        return false;
    }
    let mut i: usize = 0;
    while i < a.len()
        invariant
            a@.len() == b@.len(),
            i <= a@.len(),
            forall|k: int| 0 <= k < i ==> a@[k] == b@[k],
        decreases a.len() - i,
    {
        if a[i] != b[i] {
            return false;
        }
        i = i + 1;
    }
    assert(a@ =~= b@);
    true
}

/// `s` cut to `max_len` characters: unchanged when it fits; else, when more
/// than three characters are allowed, the first `max_len - 3` followed by
/// "..."; else just the first `max_len` characters.
pub open spec fn truncated(s: Seq<char>, max_len: nat) -> Seq<char> {
    if s.len() <= max_len {
        s
    } else if max_len > 3 {
        s.subrange(0, max_len - 3) + "..."@
    } else {
        s.subrange(0, max_len as int)
    }
}

/// Truncate a description to `max_len` characters (character-safe).
pub fn truncate_description(s: &str, max_len: usize) -> (r: String)
    ensures
        r@ == truncated(s@, max_len as nat),
{
    let v = chars_of(s);
    if v.len() <= max_len {
        string_of(v.as_slice())
    } else if max_len > 3 {
        let head = slice_chars(&v, 0, max_len - 3);
        let mut r = string_of(head.as_slice());
        push_str(&mut r, "...");
        r
    } else {
        let head = slice_chars(&v, 0, max_len);
        string_of(head.as_slice())
    }
}

/// A truncated description never exceeds its limit, and one that fits is
/// kept whole.
pub proof fn law_truncated_fits(s: Seq<char>, max_len: nat)
    ensures
        truncated(s, max_len).len() <= max_len,
        s.len() <= max_len ==> truncated(s, max_len) == s,
{
    reveal_strlit("...");
}

// ===========================================================================
// Tags
// ===========================================================================

/// A name without its `@remote` suffix (everything before the first '@').
pub open spec fn without_remote(full: Seq<char>) -> Seq<char> {
    match crate::text::first_index_of(full, '@') {
        Some(i) => full.subrange(0, i),
        None => full,
    }
}

/// Strip the `@remote` suffix for user-facing notices.
pub fn display_name(full_name: &str) -> (r: String)
    ensures
        r@ == without_remote(full_name@),
{
    let v = chars_of(full_name);
    match crate::text::find_char(&v, '@', 0) {
        Some(i) => {
            proof {
                crate::text::lemma_first_index_of_at(v@, '@', i as int);
            }
            let head = slice_chars(&v, 0, i);
            string_of(head.as_slice())
        },
        None => {
            proof {
                crate::text::lemma_first_index_of_none(v@, '@');
            }
            string_of(v.as_slice())
        },
    }
}

/// The confirmation wording for a tag push: names a remote only when the
/// user picked one.
pub open spec fn tag_push_confirm(name: Seq<char>, remote: Option<Seq<char>>) -> Seq<char> {
    match remote {
        Some(r) => "Push tag '"@ + name + "' to "@ + r + "?"@,
        None => "Push tag '"@ + name + "' to the default remote?"@,
    }
}

/// Confirmation wording for a tag push.
pub fn tag_push_confirm_message(name: &str, remote: Option<&str>) -> (r: String)
    ensures
        r@ == tag_push_confirm(name@, match remote { Some(x) => Some(x@), None => None }),
{
    let mut m = string_from("Push tag '");
    push_str(&mut m, name);
    match remote {
        Some(r) => {
            push_str(&mut m, "' to ");
            push_str(&mut m, r);
            push_str(&mut m, "?");
        },
        None => {
            push_str(&mut m, "' to the default remote?");
        },
    }
    m
}

/// The arguments of `jj git push` for one tag: `--remote` only when a remote
/// was chosen, and the tag as an `exact:` pattern (a bare name is a glob to jj).
pub open spec fn tag_push_argv(name: Seq<char>, remote: Option<Seq<char>>) -> Seq<Seq<char>> {
    let head = seq!["git"@, "push"@];
    let with_remote = match remote {
        Some(r) => head + seq!["--remote"@, r],
        None => head,
    };
    with_remote + seq!["--tag"@, "exact:"@ + name]
}

/// The arguments of a jj invocation, as text.
pub open spec fn argv_view(v: Seq<String>) -> Seq<Seq<char>> {
    v.map_values(|a: String| a@)
}

/// Arguments of `jj git push` for the tag `name`, to `remote` when one was chosen.
pub fn tag_push_args(name: &str, remote: Option<&str>) -> (r: Vec<String>)
    ensures
        argv_view(r@) == tag_push_argv(name@, match remote { Some(x) => Some(x@), None => None }),
{
    let mut v: Vec<String> = Vec::new();
    v.push(string_from("git"));
    v.push(string_from("push"));
    match remote {
        Some(rm) => {
            v.push(string_from("--remote"));
            v.push(string_from(rm));
        },
        None => {},
    }
    v.push(string_from("--tag"));
    let mut pattern = string_from("exact:");
    push_str(&mut pattern, name);
    v.push(pattern);
    assert(argv_view(v@) =~= tag_push_argv(name@, match remote { Some(x) => Some(x@), None => None }));
    v
}

/// Arguments of `jj tag track` (or `untrack` when `track` is false) for a
/// remote tag; `TAG@REMOTE` names it exactly, so it is passed verbatim.
pub fn tag_track_args(full_name: &str, track: bool) -> (r: Vec<String>)
    ensures
        argv_view(r@) == seq![
            "tag"@,
            if track {
                "track"@
            } else {
                "untrack"@
            },
            full_name@,
        ],
{
    let mut v: Vec<String> = Vec::new();
    v.push(string_from("tag"));
    if track {
        v.push(string_from("track"));
    } else {
        v.push(string_from("untrack"));
    }
    v.push(string_from(full_name));
    assert(argv_view(v@) =~= seq![
        "tag"@,
        if track {
            "track"@
        } else {
            "untrack"@
        },
        full_name@,
    ]);
    v
}

// ===========================================================================
// Patch file names
// ===========================================================================

/// The patch file name for attempt `k`: `id.patch`, then `id-1.patch`, ...
pub open spec fn patch_candidate(short_id: Seq<char>, k: nat) -> Seq<char> {
    if k == 0 {
        short_id + ".patch"@
    } else {
        short_id + "-"@ + decimal(k) + ".patch"@
    }
}

/// The patch file name for attempt `k`.
pub fn patch_filename_candidate(short_id: &str, k: u64) -> (r: String)
    ensures
        r@ == patch_candidate(short_id@, k as nat),
{
    let mut s = string_from(short_id);
    if k > 0 {
        push_str(&mut s, "-");
        let d = decimal_string(k);
        push_str(&mut s, d.as_str());
    }
    push_str(&mut s, ".patch");
    s
}

/// Different attempts give different file names.
pub proof fn lemma_patch_candidate_injective(short_id: Seq<char>, j: nat, k: nat)
    requires
        patch_candidate(short_id, j) == patch_candidate(short_id, k),
    ensures
        j == k,
{
    reveal_strlit(".patch");
    reveal_strlit("-");
    lemma_decimal_len_pos(j);
    lemma_decimal_len_pos(k);
    let n: int = short_id.len() as int;
    if j > 0 && k > 0 {
        let cj = patch_candidate(short_id, j);
        let ck = patch_candidate(short_id, k);
        assert(cj.subrange(n + 1, cj.len() - 6) =~= decimal(j));
        assert(ck.subrange(n + 1, ck.len() - 6) =~= decimal(k));
        assert(decimal(j) =~= decimal(k));
        lemma_decimal_injective(j, k);
    } else if j > 0 || k > 0 {
        assert(patch_candidate(short_id, 0).len() == n + 6);
        assert(patch_candidate(short_id, j).len() == n + 7 + decimal(j).len() || j == 0);
        assert(patch_candidate(short_id, k).len() == n + 7 + decimal(k).len() || k == 0);
    }
}

/// Among the first `names.len() + 1` attempts one gives a name that is not
/// among `names`.
pub proof fn lemma_some_candidate_free(short_id: Seq<char>, names: Seq<Seq<char>>)
    ensures
        exists|k: nat| k <= names.len() && !names.contains(#[trigger] patch_candidate(short_id, k)),
{
    let n = names.len();
    let cands = Seq::new(n + 1, |k: int| patch_candidate(short_id, k as nat));
    assert(cands.no_duplicates()) by {
        assert forall|i: int, j: int| 0 <= i < cands.len() && 0 <= j < cands.len() && i != j implies cands[i]
            != cands[j] by {
            if cands[i] == cands[j] {
                lemma_patch_candidate_injective(short_id, i as nat, j as nat);
            }
        }
    }
    cands.unique_seq_to_set();
    names.lemma_cardinality_of_set();
    if forall|k: nat| k <= n ==> names.contains(#[trigger] patch_candidate(short_id, k)) {
        assert(cands.to_set().subset_of(names.to_set())) by {
            assert forall|c: Seq<char>| cands.to_set().contains(c) implies names.to_set().contains(c) by {
                let i = choose|i: int| 0 <= i < cands.len() && cands[i] == c;
                assert(names.contains(patch_candidate(short_id, i as nat)));
            }
        }
        broadcast use vstd::seq_lib::seq_to_set_is_finite;
        vstd::set_lib::lemma_len_subset(cands.to_set(), names.to_set());
        assert(false);
    }
}

/// The patch file name is the first attempt (`id.patch`, then `id-1.patch`,
/// `id-2.patch`, ...) that is not among `taken`.
pub open spec fn is_first_free(r: Seq<char>, short_id: Seq<char>, taken: Seq<Seq<char>>) -> bool {
    exists|k: nat|
        r == #[trigger] patch_candidate(short_id, k) && !taken.contains(r) && forall|j: nat|
            j < k ==> taken.contains(#[trigger] patch_candidate(short_id, j))
}

/// A `.patch` file name that is not taken yet: `id.patch`, or the first of
/// `id-1.patch`, `id-2.patch`, ... that is not among `existing` (the names
/// already present where the file is written).
pub fn unique_patch_filename(short_id: &str, existing: &[String]) -> (r: String)
    ensures
        is_first_free(r@, short_id@, string_views(existing@)),
{
    let ghost taken = string_views(existing@);
    proof {
        lemma_some_candidate_free(short_id@, taken);
    }
    let n = existing.len();
    let mut k: usize = 0;
    loop
        invariant
            k <= n,
            n == existing@.len(),
            taken == string_views(existing@),
            exists|f: nat| f <= n && !taken.contains(#[trigger] patch_candidate(short_id@, f)),
            forall|j: nat| j < k ==> taken.contains(#[trigger] patch_candidate(short_id@, j)),
        decreases n - k,
    {
        let candidate = patch_filename_candidate(short_id, k as u64);
        if !contains_string(existing, candidate.as_str()) {
            assert(is_first_free(candidate@, short_id@, taken)) by {
                assert(candidate@ == patch_candidate(short_id@, k as nat));
            }
            return candidate;
        }
        if k == n {
            proof {
                let f = choose|f: nat| f <= n && !taken.contains(#[trigger] patch_candidate(short_id@, f));
                if f < k {
                    assert(taken.contains(patch_candidate(short_id@, f)));
                }
            }
        }
        k = k + 1;
    }
}

} // verus!
