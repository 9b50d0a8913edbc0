//! Conflict listing: what opening or refreshing the resolve view does with
//! the result of `jj resolve --list` (jj's "no conflicts" already arrives as
//! an empty list).
use vstd::prelude::*;

use crate::actions::{Notification, NotificationKind};
use crate::text::{push_str, string_from};

verus! {

/// One conflicted file.
#[derive(Debug, Clone, PartialEq, Eq)]
pub struct ConflictFile {
    pub path: String,
    pub description: String,
}

/// What opening the resolve view for a change leads to.
#[derive(Debug, Clone, PartialEq, Eq)]
pub enum ResolveOpen {
    /// No conflicts: a notice, no view.
    NoConflicts(Notification),
    /// Open the resolve view with the listed files.
    Open,
    /// The listing failed: an error banner.
    Failed(String),
}

/// What refreshing the open resolve view leads to.
#[derive(Debug, Clone, PartialEq, Eq)]
pub enum ResolveRefresh {
    /// Nothing left: the notice, close the view, go back and reload the log.
    AllResolved(Notification),
    /// Show the remaining files in the view.
    Update,
    /// The listing failed: an error banner; the view stays.
    Failed(String),
}

/// Opening the resolve view with the listing `result` (the files, or the
/// error text).
pub fn resolve_list_open(result: Result<&[ConflictFile], &str>) -> (r: ResolveOpen)
    ensures
        match result {
            Ok(files) => if files@.len() == 0 {
                r matches ResolveOpen::NoConflicts(n) && n.kind == NotificationKind::Info && n.message@
                    == "No conflicts in this change"@
            } else {
                r == ResolveOpen::Open
            },
            Err(e) => r matches ResolveOpen::Failed(m) && m@ == "Failed to list conflicts: "@ + e@,
        },
{
    match result {
        Ok(files) => {
            if files.len() == 0 {
                ResolveOpen::NoConflicts(Notification::info("No conflicts in this change"))
            } else {
                ResolveOpen::Open
            }
        },
        Err(e) => {
            let mut m = string_from("Failed to list conflicts: ");
            push_str(&mut m, e);
            ResolveOpen::Failed(m)
        },
    }
}

/// Refreshing the resolve view with the listing `result`. An error is never
/// taken for "all resolved".
pub fn resolve_list_refresh(result: Result<&[ConflictFile], &str>) -> (r: ResolveRefresh)
    ensures
        match result {
            Ok(files) => if files@.len() == 0 {
                r matches ResolveRefresh::AllResolved(n) && n.kind == NotificationKind::Success
                    && n.message@ == "All conflicts resolved!"@
            } else {
                r == ResolveRefresh::Update
            },
            Err(e) => r matches ResolveRefresh::Failed(m) && m@ == "Failed to refresh conflicts: "@ + e@,
        },
{
    match result {
        Ok(files) => {
            if files.len() == 0 {
                ResolveRefresh::AllResolved(Notification::success("All conflicts resolved!"))
            } else {
                ResolveRefresh::Update
            }
        },
        Err(e) => {
            let mut m = string_from("Failed to refresh conflicts: ");
            push_str(&mut m, e);
            ResolveRefresh::Failed(m)
        },
    }
}

} // verus!
