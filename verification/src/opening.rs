//! Opening views that read jj output first: the evolution log, the stack
//! diff (refused past a size), and the diff or interdiff between two
//! revisions, whose three reads fail in a fixed order.
use vstd::prelude::*;

use crate::actions::{Notification, NotificationKind};
use crate::text::{decimal, decimal_string, push_str, string_from};

verus! {

/// Most changes a stack diff shows.
pub const STACK_DIFF_MAX_CHANGES: usize = 200;

/// What opening the evolution log of a change leads to.
#[derive(Debug, Clone, PartialEq, Eq)]
pub enum EvologOpen {
    /// No entries: a notice, no view.
    Empty(Notification),
    /// Open the evolog view.
    Open,
    /// Reading the evolog failed.
    Failed(String),
}

/// Opening the evolog, given the number of entries read (or the error).
pub fn evolog_open(entries: Result<usize, &str>) -> (r: EvologOpen)
    ensures
        match entries {
            Ok(n) => if n == 0 {
                r matches EvologOpen::Empty(m) && m.kind == NotificationKind::Info && m.message@
                    == "No evolution history for this change"@
            } else {
                r == EvologOpen::Open
            },
            Err(e) => r matches EvologOpen::Failed(m) && m@ == "Failed to load evolog: "@ + e@,
        },
{
    match entries {
        Ok(n) => {
            if n == 0 {
                EvologOpen::Empty(Notification::info("No evolution history for this change"))
            } else {
                EvologOpen::Open
            }
        },
        Err(e) => {
            let mut m = string_from("Failed to load evolog: ");
            push_str(&mut m, e);
            EvologOpen::Failed(m)
        },
    }
}

/// The revset of the stack diff from `revision` up to the working copy:
/// every change between them, and the revision itself.
pub fn stack_revset(revision: &str) -> (r: String)
    ensures
        r@ == "("@ + revision@ + "::@) | "@ + revision@,
{
    let mut s = string_from("(");
    push_str(&mut s, revision);
    push_str(&mut s, "::@) | ");
    push_str(&mut s, revision);
    s
}

/// The check before a stack diff, given the number of changes in its
/// revset (counted up to a cap, so a count above the maximum means "too
/// many"), or the error of the count: `None` lets the diff load.
pub fn stack_diff_check(count: Result<usize, &str>) -> (r: Option<String>)
    ensures
        match count {
            Ok(n) => if n > STACK_DIFF_MAX_CHANGES {
                r matches Some(m) && m@ == "Stack too large: more than "@ + decimal(STACK_DIFF_MAX_CHANGES as nat)
                    + " changes"@
            } else {
                r is None
            },
            Err(e) => r matches Some(m) && m@ == "Failed to load stack diff: "@ + e@,
        },
{
    match count {
        Ok(n) => {
            if n > STACK_DIFF_MAX_CHANGES {
                let mut m = string_from("Stack too large: more than ");
                let d = decimal_string(STACK_DIFF_MAX_CHANGES as u64);
                push_str(&mut m, d.as_str());
                push_str(&mut m, " changes");
                Some(m)
            } else {
                None
            }
        },
        Err(e) => {
            let mut m = string_from("Failed to load stack diff: ");
            push_str(&mut m, e);
            Some(m)
        },
    }
}

/// The error of opening a compare diff (or an interdiff when `interdiff`):
/// the diff is read first, then the metadata of the two revisions; the
/// first read that failed is reported (`None`: all three succeeded).
pub fn compare_failure(interdiff: bool, diff: Result<(), &str>, from_info: Result<(), &str>, to_info: Result<(), &str>) -> (r: Option<String>)
    ensures
        match diff {
            Err(e) => r matches Some(m) && m@ == (if interdiff {
                "Failed to load interdiff: "@
            } else {
                "Failed to load diff: "@
            }) + e@,
            Ok(()) => match from_info {
                Err(e) => r matches Some(m) && m@ == "Failed to load from revision: "@ + e@,
                Ok(()) => match to_info {
                    Err(e) => r matches Some(m) && m@ == "Failed to load to revision: "@ + e@,
                    Ok(()) => r is None,
                },
            },
        },
{
    let (mut m, e) = match diff {
        Err(e) => if interdiff {
            (string_from("Failed to load interdiff: "), e)
        } else {
            (string_from("Failed to load diff: "), e)
        },
        Ok(()) => match from_info {
            Err(e) => (string_from("Failed to load from revision: "), e),
            Ok(()) => match to_info {
                Err(e) => (string_from("Failed to load to revision: "), e),
                Ok(()) => return None,
            },
        },
    };
    push_str(&mut m, e);
    Some(m)
}

} // verus!
