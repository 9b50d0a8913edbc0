//! `jj git fetch` from the fetch dialog: what a choice fetches and the
//! notice or error that follows.
use vstd::prelude::*;

use crate::actions::{Notification, NotificationKind};
use crate::ops::Shown;
use crate::text::{all_ws, is_blank, push_str, str_eq, string_from};

verus! {

/// What the fetch dialog asked to fetch.
#[derive(Debug, Clone, PartialEq, Eq)]
pub enum FetchTarget {
    /// The remotes jj's configuration names.
    Default,
    /// Every remote, untracked bookmarks included.
    AllRemotes,
    /// One remote.
    Remote(String),
}

/// The target a choice of the fetch dialog stands for.
pub fn fetch_target(choice: &str) -> (r: FetchTarget)
    ensures
        choice@ == "__default__"@ ==> r == FetchTarget::Default,
        choice@ == "__all_remotes__"@ ==> r == FetchTarget::AllRemotes,
        choice@ != "__default__"@ && choice@ != "__all_remotes__"@ ==> (r matches FetchTarget::Remote(n) && n@
            == choice@),
{
    proof {
        reveal_strlit("__default__");
        reveal_strlit("__all_remotes__");
        assert("__default__"@[2] != "__all_remotes__"@[2]);
    }
    if str_eq(choice, "__default__") {
        FetchTarget::Default
    } else if str_eq(choice, "__all_remotes__") {
        FetchTarget::AllRemotes
    } else {
        FetchTarget::Remote(string_from(choice))
    }
}

/// Where a fetch of `target` fetched from, as the notice says it.
pub open spec fn fetch_source(target: FetchTarget) -> Seq<char> {
    match target {
        FetchTarget::Default => "default remotes"@,
        FetchTarget::AllRemotes => "all remotes"@,
        FetchTarget::Remote(r) => r@,
    }
}

/// What to show after fetching `target`: the output (empty or blank when
/// nothing was new), or the error.
pub fn fetch_outcome(target: &FetchTarget, result: Result<&str, &str>) -> (r: Shown)
    ensures
        match result {
            Ok(output) => if all_ws(output@) {
                r matches Shown::Notice(n) && n.kind == NotificationKind::Info && n.message@
                    == "Already up to date"@
            } else {
                r matches Shown::Notice(n) && n.kind == NotificationKind::Success && n.message@ == "Fetched from "@
                    + fetch_source(*target)
            },
            Err(e) => r matches Shown::Error(m) && m@ == "Fetch failed: "@ + e@,
        },
{
    match result {
        Ok(output) => {
            if is_blank(output) {
                Shown::Notice(Notification::info("Already up to date"))
            } else {
                let mut m = string_from("Fetched from ");
                match target {
                    FetchTarget::Default => push_str(&mut m, "default remotes"),
                    FetchTarget::AllRemotes => push_str(&mut m, "all remotes"),
                    FetchTarget::Remote(r) => push_str(&mut m, r.as_str()),
                }
                Shown::Notice(Notification::new(m, NotificationKind::Success))
            }
        },
        Err(e) => {
            let mut m = string_from("Fetch failed: ");
            push_str(&mut m, e);
            Shown::Error(m)
        },
    }
}

/// What to show after fetching one branch.
pub fn fetch_branch_outcome(branch: &str, result: Result<&str, &str>) -> (r: Shown)
    ensures
        match result {
            Ok(output) => if all_ws(output@) {
                r matches Shown::Notice(n) && n.kind == NotificationKind::Info && n.message@ == "Branch '"@
                    + branch@ + "': already up to date"@
            } else {
                r matches Shown::Notice(n) && n.kind == NotificationKind::Success && n.message@
                    == "Fetched branch '"@ + branch@ + "'"@
            },
            Err(e) => r matches Shown::Error(m) && m@ == "Fetch failed: "@ + e@,
        },
{
    match result {
        Ok(output) => {
            if is_blank(output) {
                let mut m = string_from("Branch '");
                push_str(&mut m, branch);
                push_str(&mut m, "': already up to date");
                Shown::Notice(Notification::new(m, NotificationKind::Info))
            } else {
                let mut m = string_from("Fetched branch '");
                push_str(&mut m, branch);
                push_str(&mut m, "'");
                Shown::Notice(Notification::new(m, NotificationKind::Success))
            }
        },
        Err(e) => {
            let mut m = string_from("Fetch failed: ");
            push_str(&mut m, e);
            Shown::Error(m)
        },
    }
}

} // verus!
