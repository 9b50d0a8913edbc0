//! Rebase: refusing a rebase onto itself, the retry without `--skip-emptied`
//! when jj does not know the flag, and the notice for each outcome.
//!
//! The application runs jj; this module decides what to run next and what to
//! tell the user.
use vstd::prelude::*;

use crate::actions::{Notification, NotificationKind};
use crate::push::{is_rebase_flag_unsupported, unknown_flag_error};
use crate::text::{
    abbrev, abbrev_ok, lowercase, lowercase_contains, push_abbrev, push_str, seq_contains, str_eq, string_from,
};

verus! {

/// How a rebase moves revisions.
#[derive(Debug, Clone, Copy, PartialEq, Eq, Structural)]
pub enum RebaseMode {
    /// `-r`: only the revision.
    Revision,
    /// `-s`: the revision and its descendants.
    Source,
    /// `-b`: the whole branch.
    Branch,
    /// `-A`: insert after the destination.
    InsertAfter,
    /// `-B`: insert before the destination.
    InsertBefore,
}

/// What to do next in a rebase.
#[derive(Debug, Clone, PartialEq, Eq)]
pub enum RebaseStep {
    /// Run `jj rebase` in the chosen mode, with `--skip-emptied` when asked.
    Run { skip_emptied: bool },
    /// The rebase is done: mark the log and status dirty, then show the notice.
    Done(Notification),
    /// Nothing changed: show the warning.
    Refused(Notification),
    /// Nothing changed: show the error.
    Failed(String),
}

/// The warning when `-b` is unknown to the installed jj.
pub open spec fn branch_unsupported_text() -> Seq<char> {
    "Branch mode (-b) not supported in this jj version. Use Source mode (-s) instead."@
}

/// The success wording for `mode`.
pub open spec fn rebase_done_text(mode: RebaseMode, destination: Seq<char>) -> Seq<char> {
    match mode {
        RebaseMode::Revision => "Rebased successfully"@,
        RebaseMode::Source => "Rebased source and descendants successfully"@,
        RebaseMode::Branch => "Rebased branch successfully"@,
        RebaseMode::InsertAfter => "Inserted after "@ + destination + " successfully"@,
        RebaseMode::InsertBefore => "Inserted before "@ + destination + " successfully"@,
    }
}

/// The success wording, noting skipped empty commits when `--skip-emptied` was given.
pub open spec fn rebase_success_text(mode: RebaseMode, destination: Seq<char>, skip_emptied: bool) -> Seq<
    char,
> {
    if skip_emptied {
        rebase_done_text(mode, destination) + " (empty commits skipped)"@
    } else {
        rebase_done_text(mode, destination)
    }
}

/// The notice after a successful rebase whose output is `output`; `short`
/// is the shortened destination.
pub open spec fn rebase_notice(output: Seq<char>, short: Seq<char>, mode: RebaseMode, skip_emptied: bool) -> (
    Seq<char>,
    NotificationKind,
) {
    if seq_contains(lowercase(output), "conflict"@) {
        ("Rebased with conflicts - resolve with jj resolve"@, NotificationKind::Warning)
    } else {
        (rebase_success_text(mode, short, skip_emptied), NotificationKind::Success)
    }
}

/// The success notice of a rebase with `output` names the destination cut
/// at eight bytes (an insert without conflicts).
pub open spec fn cuts_destination(mode: RebaseMode, output: Seq<char>) -> bool {
    (mode == RebaseMode::InsertAfter || mode == RebaseMode::InsertBefore) && !seq_contains(
        lowercase(output),
        "conflict"@,
    )
}

/// The notice after a rebase succeeded with `output`: a warning when jj
/// reports conflicts, else the success wording for the mode (an insert
/// names the destination's first eight bytes).
pub fn rebase_success_notification(
    output: &str,
    destination: &str,
    mode: RebaseMode,
    skip_emptied: bool,
) -> (r: Notification)
    requires
        cuts_destination(mode, output@) ==> abbrev_ok(destination@),
    ensures
        (r.message@, r.kind) == rebase_notice(output@, abbrev(destination@), mode, skip_emptied),
{
    if lowercase_contains(output, "conflict") {
        return Notification::warning("Rebased with conflicts - resolve with jj resolve");
    }
    let mut msg = match mode {
        RebaseMode::Revision => string_from("Rebased successfully"),
        RebaseMode::Source => string_from("Rebased source and descendants successfully"),
        RebaseMode::Branch => string_from("Rebased branch successfully"),
        RebaseMode::InsertAfter => {
            let mut m = string_from("Inserted after ");
            push_abbrev(&mut m, destination);
            push_str(&mut m, " successfully");
            m
        },
        RebaseMode::InsertBefore => {
            let mut m = string_from("Inserted before ");
            push_abbrev(&mut m, destination);
            push_str(&mut m, " successfully");
            m
        },
    };
    assert(msg@ =~= rebase_done_text(mode, abbrev(destination@)));
    if skip_emptied {
        push_str(&mut msg, " (empty commits skipped)");
    }
    Notification::new(msg, NotificationKind::Success)
}

/// The first step of rebasing `source` onto `destination`: a warning when
/// they are the same revision, else the first attempt.
pub fn start_rebase(source: &str, destination: &str, skip_emptied: bool) -> (r: RebaseStep)
    ensures
        source@ == destination@ ==> (r matches RebaseStep::Refused(n) && n.message@
            == "Cannot rebase to itself"@ && n.kind == NotificationKind::Warning),
        source@ != destination@ ==> r == (RebaseStep::Run { skip_emptied }),
{
    if str_eq(source, destination) {
        RebaseStep::Refused(Notification::warning("Cannot rebase to itself"))
    } else {
        RebaseStep::Run { skip_emptied }
    }
}

/// The note appended when the retry without `--skip-emptied` succeeded.
pub open spec fn skip_unsupported_note() -> Seq<char> {
    " (--skip-emptied not supported, empty commits may remain)"@
}

/// What follows an attempt of `jj rebase` in `mode` onto `destination` that
/// ended with `outcome` (the output, or the error text). `skip_emptied` is the
/// user's choice; `retried` says that this attempt was the retry without the
/// flag.
///
/// An unknown-flag error on the first attempt with `--skip-emptied` asks for
/// the retry; an unknown-flag error otherwise means `-b` is unknown when the
/// mode is `Branch`; any other error fails the rebase.
pub fn rebase_after_attempt(
    mode: RebaseMode,
    destination: &str,
    skip_emptied: bool,
    retried: bool,
    outcome: Result<&str, &str>,
) -> (r: RebaseStep)
    requires
        outcome matches Ok(output) ==> (cuts_destination(mode, output@) ==> abbrev_ok(destination@)),
    ensures
        match outcome {
            Ok(output) => {
                let n = rebase_notice(output@, abbrev(destination@), mode, skip_emptied && !retried);
                r matches RebaseStep::Done(note) && note.kind == n.1 && note.message@ == (if retried {
                    n.0 + skip_unsupported_note()
                } else {
                    n.0
                })
            },
            Err(e) => {
                let unsupported = unknown_flag_error(lowercase(e@));
                if skip_emptied && !retried && unsupported {
                    r == (RebaseStep::Run { skip_emptied: false })
                } else if unsupported && mode == RebaseMode::Branch {
                    r matches RebaseStep::Refused(note) && note.kind == NotificationKind::Warning
                        && note.message@ == branch_unsupported_text()
                } else {
                    r matches RebaseStep::Failed(t) && t@ == "Rebase failed: "@ + e@
                }
            },
        },
{
    match outcome {
        Ok(output) => {
            let note = rebase_success_notification(output, destination, mode, skip_emptied && !retried);
            if retried {
                let mut msg = note.message;
                push_str(&mut msg, " (--skip-emptied not supported, empty commits may remain)");
                RebaseStep::Done(Notification::new(msg, note.kind))
            } else {
                RebaseStep::Done(note)
            }
        },
        Err(e) => {
            let unsupported = is_rebase_flag_unsupported(e);
            if skip_emptied && !retried && unsupported {
                RebaseStep::Run { skip_emptied: false }
            } else if unsupported && mode == RebaseMode::Branch {
                RebaseStep::Refused(
                    Notification::warning(
                        "Branch mode (-b) not supported in this jj version. Use Source mode (-s) instead.",
                    ),
                )
            } else {
                let mut t = string_from("Rebase failed: ");
                push_str(&mut t, e);
                RebaseStep::Failed(t)
            }
        },
    }
}

} // verus!
