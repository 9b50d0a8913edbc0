//! The agent-trace features around the trace index (which the application
//! reads): opening the trace detail view, copying a record's URL, the
//! orphaned-trace notice, which diff the AI overlay applies to, and where
//! the trace file is read from on a reload.
use vstd::prelude::*;

use crate::actions::{Notification, NotificationKind};
use crate::diff_format::DiffDisplayFormat;
use crate::ops::Shown;
use crate::revision::{short_id, short_view, Change};
use crate::text::{decimal, decimal_string, push_str, str_eq, string_from};

verus! {

/// What opening the trace detail view of a change leads to.
#[derive(Debug, Clone, PartialEq, Eq)]
pub enum TraceOpen {
    /// No trace file was read: a notice, no view.
    NoData(Notification),
    /// No record is anchored to the change: a notice, no view.
    NoRecords(Notification),
    /// Open the view with the change's records.
    Open,
}

/// Opening the trace detail view of `change_id`: `has_index` says whether
/// trace data was read, `records` how many records are anchored to it.
pub fn trace_detail_open(has_index: bool, records: usize, change_id: &str) -> (r: TraceOpen)
    requires
    ensures
        !has_index ==> (r matches TraceOpen::NoData(n) && n.kind == NotificationKind::Info && n.message@
            == "No agent trace data (no .agent-trace/traces.jsonl)"@),
        has_index && records == 0 ==> (r matches TraceOpen::NoRecords(n) && n.kind == NotificationKind::Info
            && n.message@ == "No agent traces on "@ + short_view(change_id@)),
        has_index && records > 0 ==> r == TraceOpen::Open,
{
    if !has_index {
        TraceOpen::NoData(Notification::info("No agent trace data (no .agent-trace/traces.jsonl)"))
    } else if records == 0 {
        let mut m = string_from("No agent traces on ");
        push_str(&mut m, short_id(change_id).as_str());
        TraceOpen::NoRecords(Notification::new(m, NotificationKind::Info))
    } else {
        TraceOpen::Open
    }
}

/// What copying the URL under the cursor of the trace detail view shows:
/// `url` is `None` when the row has no URL; `copied` is the clipboard's
/// answer, read only when there is one.
pub fn trace_url_outcome(url: Option<&str>, copied: Result<(), &str>) -> (r: Shown)
    ensures
        match url {
            None => r matches Shown::Notice(n) && n.kind == NotificationKind::Info && n.message@
                == "No URL to copy"@,
            Some(u) => match copied {
                Ok(()) => r matches Shown::Notice(n) && n.kind == NotificationKind::Success && n.message@
                    == "Copied URL: "@ + u@,
                Err(e) => r matches Shown::Error(m) && m@ == e@,
            },
        },
{
    match url {
        None => Shown::Notice(Notification::info("No URL to copy")),
        Some(u) => match copied {
            Ok(()) => {
                let mut m = string_from("Copied URL: ");
                push_str(&mut m, u);
                Shown::Notice(Notification::new(m, NotificationKind::Success))
            },
            Err(e) => Shown::Error(string_from(e)),
        },
    }
}

/// The notice about traces anchored to none of the loaded changes: `total`
/// of them, `jj` anchored by change id and `git` by commit hash.
pub fn orphans_notice(total: usize, jj: usize, git: usize) -> (r: Notification)
    ensures
        r.kind == NotificationKind::Info,
        total == 0 ==> r.message@ == "No orphaned traces"@,
        total > 0 ==> r.message@ == "Orphaned traces: "@ + decimal(total as nat) + " (jj "@ + decimal(jj as nat)
            + ", git "@ + decimal(git as nat) + ") \u{2014} not in loaded changes"@,
{
    if total == 0 {
        return Notification::info("No orphaned traces");
    }
    let mut m = string_from("Orphaned traces: ");
    let t = decimal_string(total as u64);
    push_str(&mut m, t.as_str());
    push_str(&mut m, " (jj ");
    let j = decimal_string(jj as u64);
    push_str(&mut m, j.as_str());
    push_str(&mut m, ", git ");
    let g = decimal_string(git as u64);
    push_str(&mut m, g.as_str());
    push_str(&mut m, ") \u{2014} not in loaded changes");
    Notification::new(m, NotificationKind::Info)
}

/// The AI overlay marks lines only where the parsed diff carries new-side
/// line numbers: a single change shown in color-words, with trace data.
pub fn overlay_applies(has_index: bool, single_change: bool, format: DiffDisplayFormat) -> (r: bool)
    ensures
        r == (has_index && single_change && format == DiffDisplayFormat::ColorWords),
{
    has_index && single_change && format == DiffDisplayFormat::ColorWords
}

/// The first revision row (not graph only) that `revision` names by commit
/// id or change id, searching from `i`.
pub open spec fn row_named_from(changes: Seq<Change>, revision: Seq<char>, i: int) -> Option<int>
    decreases changes.len() - i,
{
    if i < 0 || i >= changes.len() {
        None
    } else if !changes[i].is_graph_only && (changes[i].commit_id@ == revision || changes[i].change_id@
        == revision) {
        Some(i)
    } else {
        row_named_from(changes, revision, i + 1)
    }
}

/// The (change id, commit id) pair traces are matched against for a diff
/// opened on `revision`: those of its row in the log, or `revision` for
/// both when the log does not show it (the two id alphabets are disjoint,
/// so a wrong-kind id matches nothing).
pub open spec fn anchor_ids(changes: Seq<Change>, revision: Seq<char>) -> (Seq<char>, Seq<char>) {
    match row_named_from(changes, revision, 0) {
        Some(i) => (changes[i].change_id@, changes[i].commit_id@),
        None => (revision, revision),
    }
}

/// The ids traces are matched against for a diff opened on `revision`.
pub fn overlay_anchor_ids(changes: &[Change], revision: &str) -> (r: (String, String))
    ensures
        (r.0@, r.1@) == anchor_ids(changes@, revision@),
{
    let mut i: usize = 0;
    while i < changes.len()
        invariant
            i <= changes@.len(),
            row_named_from(changes@, revision@, 0) == row_named_from(changes@, revision@, i as int),
        decreases changes.len() - i,
    {
        let c = &changes[i];
        if !c.is_graph_only && (str_eq(c.commit_id.as_str(), revision) || str_eq(c.change_id.as_str(), revision)) {
            return (c.change_id.clone(), c.commit_id.clone());
        }
        i = i + 1;
    }
    (string_from(revision), string_from(revision))
}

// ---------------------------------------------------------------------------
// Reloading the trace file
// ---------------------------------------------------------------------------

/// Where the trace file is read from.
#[derive(Debug, Clone, PartialEq, Eq)]
pub enum TraceLocation {
    /// The configured path, which is absolute.
    Configured(String),
    /// The configured relative path, under the workspace root.
    UnderRoot(String),
    /// The default path under the workspace root.
    Default,
}

/// Where a reload reads the trace file: nowhere without a workspace root
/// (the feature is off), else the configured path (absolute as it is,
/// relative under the root), else the default path under the root.
pub fn trace_location(root_found: bool, configured: Option<&str>, configured_is_absolute: bool) -> (r: Option<TraceLocation>)
    ensures
        !root_found ==> r is None,
        root_found && configured is None ==> r == Some(TraceLocation::Default),
        root_found && configured is Some && configured_is_absolute ==> (r matches Some(
            TraceLocation::Configured(p),
        ) && p@ == configured->0@),
        root_found && configured is Some && !configured_is_absolute ==> (r matches Some(
            TraceLocation::UnderRoot(p),
        ) && p@ == configured->0@),
{
    if !root_found {
        return None;
    }
    match configured {
        Some(p) => if configured_is_absolute {
            Some(TraceLocation::Configured(string_from(p)))
        } else {
            Some(TraceLocation::UnderRoot(string_from(p)))
        },
        None => Some(TraceLocation::Default),
    }
}

/// The notice after loading the trace file: a file cut at its size limit is
/// reported once per session (`notified` remembers it).
pub fn trace_truncation_notice(truncated: bool, notified: &mut bool) -> (r: Option<Notification>)
    ensures
        (r is Some) == (truncated && !*old(notified)),
        r matches Some(n) ==> n.kind == NotificationKind::Info && n.message@
            == "Agent trace file exceeds 5 MB; older records skipped"@,
        *final(notified) == (*old(notified) || truncated),
{
    if truncated && !*notified {
        *notified = true;
        Some(Notification::info("Agent trace file exceeds 5 MB; older records skipped"))
    } else {
        None
    }
}

} // verus!
