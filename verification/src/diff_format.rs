//! The diff view's jj output: the display formats and their cycle
//! color-words → stat → git, which output each format is read from and
//! what a switch reports, and the text copied to the clipboard or exported
//! to a patch file.
use vstd::prelude::*;

use crate::actions::{Notification, NotificationKind};
use crate::ops::Shown;
use crate::text::{
    abbrev, abbrev_ok, chars_of, decimal, decimal_string, lines, lines_of, push_abbrev, push_str, string_from,
};

verus! {

/// How the diff view shows a change.
#[derive(Debug, Clone, Copy, PartialEq, Eq, Structural)]
pub enum DiffDisplayFormat {
    ColorWords,
    Stat,
    Git,
}

/// Number of display formats.
pub const FORMAT_COUNT: usize = 3;

/// The format after `f` in the cycle.
pub open spec fn next_format(f: DiffDisplayFormat) -> DiffDisplayFormat {
    match f {
        DiffDisplayFormat::ColorWords => DiffDisplayFormat::Stat,
        DiffDisplayFormat::Stat => DiffDisplayFormat::Git,
        DiffDisplayFormat::Git => DiffDisplayFormat::ColorWords,
    }
}

/// Place of `f` in the cycle, from 1.
pub open spec fn format_position(f: DiffDisplayFormat) -> nat {
    match f {
        DiffDisplayFormat::ColorWords => 1,
        DiffDisplayFormat::Stat => 2,
        DiffDisplayFormat::Git => 3,
    }
}

/// Name of `f` as shown to the user.
pub open spec fn format_label(f: DiffDisplayFormat) -> Seq<char> {
    match f {
        DiffDisplayFormat::ColorWords => "color-words"@,
        DiffDisplayFormat::Stat => "stat"@,
        DiffDisplayFormat::Git => "git"@,
    }
}

impl DiffDisplayFormat {
    /// The next format in the cycle.
    pub fn next(self) -> (r: Self)
        ensures
            r == next_format(self),
    {
        match self {
            DiffDisplayFormat::ColorWords => DiffDisplayFormat::Stat,
            DiffDisplayFormat::Stat => DiffDisplayFormat::Git,
            DiffDisplayFormat::Git => DiffDisplayFormat::ColorWords,
        }
    }

    /// Place in the cycle, from 1.
    pub fn position(self) -> (r: usize)
        ensures
            r == format_position(self),
    {
        match self {
            DiffDisplayFormat::ColorWords => 1,
            DiffDisplayFormat::Stat => 2,
            DiffDisplayFormat::Git => 3,
        }
    }

    /// Name shown to the user.
    pub fn label(self) -> (r: &'static str)
        ensures
            r@ == format_label(self),
    {
        match self {
            DiffDisplayFormat::ColorWords => "color-words",
            DiffDisplayFormat::Stat => "stat",
            DiffDisplayFormat::Git => "git",
        }
    }
}

/// Cycling through the formats comes back to the start after
/// [`FORMAT_COUNT`] steps, visiting each place once.
pub proof fn law_cycle_returns(f: DiffDisplayFormat)
    ensures
        next_format(next_format(next_format(f))) == f,
        next_format(f) != f,
        next_format(next_format(f)) != f,
        1 <= format_position(f) <= FORMAT_COUNT,
        format_position(next_format(f)) == format_position(f) % (FORMAT_COUNT as nat) + 1,
{
}

/// The jj output a diff view reads: one change (`jj show` in a format), or
/// the difference between two changes (`jj diff --from --to`).
#[derive(Debug, Clone, PartialEq, Eq)]
pub enum DiffFetch {
    Show { change_id: String },
    ShowStat { change_id: String },
    ShowGit { change_id: String },
    Range { from: String, to: String },
    RangeStat { from: String, to: String },
    RangeGit { from: String, to: String },
}

/// What to fetch to show `change_id` in `format`, or, when the view
/// compares two changes, the pair `compare`.
pub fn diff_fetch(format: DiffDisplayFormat, change_id: &str, compare: Option<(&str, &str)>) -> (r: DiffFetch)
    ensures
        match compare {
            Some((from, to)) => match format {
                DiffDisplayFormat::ColorWords => r matches DiffFetch::Range { from: a, to: b } && a@ == from@
                    && b@ == to@,
                DiffDisplayFormat::Stat => r matches DiffFetch::RangeStat { from: a, to: b } && a@ == from@
                    && b@ == to@,
                DiffDisplayFormat::Git => r matches DiffFetch::RangeGit { from: a, to: b } && a@ == from@
                    && b@ == to@,
            },
            None => match format {
                DiffDisplayFormat::ColorWords => r matches DiffFetch::Show { change_id: c } && c@ == change_id@,
                DiffDisplayFormat::Stat => r matches DiffFetch::ShowStat { change_id: c } && c@ == change_id@,
                DiffDisplayFormat::Git => r matches DiffFetch::ShowGit { change_id: c } && c@ == change_id@,
            },
        },
{
    match compare {
        Some((from, to)) => {
            let from = string_from(from);
            let to = string_from(to);
            match format {
                DiffDisplayFormat::ColorWords => DiffFetch::Range { from, to },
                DiffDisplayFormat::Stat => DiffFetch::RangeStat { from, to },
                DiffDisplayFormat::Git => DiffFetch::RangeGit { from, to },
            }
        },
        None => {
            let change_id = string_from(change_id);
            match format {
                DiffDisplayFormat::ColorWords => DiffFetch::Show { change_id },
                DiffDisplayFormat::Stat => DiffFetch::ShowStat { change_id },
                DiffDisplayFormat::Git => DiffFetch::ShowGit { change_id },
            }
        },
    }
}

/// The notice after switching to `f`: its name and place in the cycle.
pub open spec fn switched_text(f: DiffDisplayFormat) -> Seq<char> {
    "Display: "@ + format_label(f) + " ("@ + decimal(format_position(f)) + "/"@ + decimal(FORMAT_COUNT as nat)
        + ")"@
}

/// The outcome of switching from `current` to the next format, given
/// whether its content loaded (`Err` holds the error): the format the view
/// keeps (the old one when loading failed) and what to show.
pub fn format_cycle_outcome(current: DiffDisplayFormat, loaded: Result<(), &str>) -> (r: (DiffDisplayFormat, Shown))
    ensures
        loaded is Ok ==> r.0 == next_format(current) && (r.1 matches Shown::Notice(n) && n.kind
            == NotificationKind::Info && n.message@ == switched_text(next_format(current))),
        loaded matches Err(e) ==> r.0 == current && (r.1 matches Shown::Error(m) && m@ == "Failed to load "@
            + format_label(next_format(current)) + " format: "@ + e@),
{
    let new = current.next();
    match loaded {
        Ok(()) => {
            let mut m = string_from("Display: ");
            push_str(&mut m, new.label());
            push_str(&mut m, " (");
            let p = decimal_string(new.position() as u64);
            push_str(&mut m, p.as_str());
            push_str(&mut m, "/");
            let c = decimal_string(FORMAT_COUNT as u64);
            push_str(&mut m, c.as_str());
            push_str(&mut m, ")");
            (new, Shown::Notice(Notification::new(m, NotificationKind::Info)))
        },
        Err(e) => {
            let mut m = string_from("Failed to load ");
            push_str(&mut m, new.label());
            push_str(&mut m, " format: ");
            push_str(&mut m, e);
            (current, Shown::Error(m))
        },
    }
}

// ---------------------------------------------------------------------------
// Copy and export
// ---------------------------------------------------------------------------

/// Plain-text jj output of a diff view, as copied or exported.
#[derive(Debug, Clone, PartialEq, Eq)]
pub enum DiffText {
    /// `jj show`: description and diff.
    Show { change_id: String },
    /// `jj diff -r`: the diff only.
    Diff { change_id: String },
    /// `jj diff -r --git`: a patch.
    DiffGit { change_id: String },
    /// `jj diff --from --to`.
    Range { from: String, to: String },
    /// `jj diff --from --to --git`.
    RangeGit { from: String, to: String },
}

/// The text copied to the clipboard: the whole change (`full`) or its diff
/// only; a compared pair always copies the diff between them.
pub fn copy_fetch(full: bool, change_id: &str, compare: Option<(&str, &str)>) -> (r: DiffText)
    ensures
        match compare {
            Some((from, to)) => r matches DiffText::Range { from: a, to: b } && a@ == from@ && b@ == to@,
            None => if full {
                r matches DiffText::Show { change_id: c } && c@ == change_id@
            } else {
                r matches DiffText::Diff { change_id: c } && c@ == change_id@
            },
        },
{
    match compare {
        Some((from, to)) => DiffText::Range { from: string_from(from), to: string_from(to) },
        None => if full {
            DiffText::Show { change_id: string_from(change_id) }
        } else {
            DiffText::Diff { change_id: string_from(change_id) }
        },
    }
}

/// The text exported to a patch file (always a git patch) and the label the
/// file is named after: the change's eight-byte abbreviation, or both of a
/// compared pair joined by `_`.
pub fn export_fetch(change_id: &str, compare: Option<(&str, &str)>) -> (r: (DiffText, String))
    requires
        abbrev_ok(change_id@),
        compare matches Some((a, b)) ==> abbrev_ok(a@) && abbrev_ok(b@),
    ensures
        match compare {
            Some((from, to)) => (r.0 matches DiffText::RangeGit { from: a, to: b } && a@ == from@ && b@ == to@)
                && r.1@ == abbrev(from@) + "_"@ + abbrev(to@),
            None => (r.0 matches DiffText::DiffGit { change_id: c } && c@ == change_id@) && r.1@ == abbrev(
                change_id@,
            ),
        },
{
    match compare {
        Some((from, to)) => {
            let mut label = String::new();
            push_abbrev(&mut label, from);
            push_str(&mut label, "_");
            push_abbrev(&mut label, to);
            (DiffText::RangeGit { from: string_from(from), to: string_from(to) }, label)
        },
        None => {
            let mut label = String::new();
            push_abbrev(&mut label, change_id);
            (DiffText::DiffGit { change_id: string_from(change_id) }, label)
        },
    }
}

/// The whole-change copy of a compared pair: a header naming both changes
/// and their descriptions, then the diff.
pub fn compare_copy_text(from_id: &str, from_desc: &str, to_id: &str, to_desc: &str, diff: &str) -> (r: String)
    ensures
        r@ == "Compare: "@ + from_id@ + " -> "@ + to_id@ + "\nFrom: "@ + from_id@ + " ("@ + from_desc@ + ")\nTo:   "@
            + to_id@ + " ("@ + to_desc@ + ")\n\n"@ + diff@,
{
    let mut s = string_from("Compare: ");
    push_str(&mut s, from_id);
    push_str(&mut s, " -> ");
    push_str(&mut s, to_id);
    push_str(&mut s, "\nFrom: ");
    push_str(&mut s, from_id);
    push_str(&mut s, " (");
    push_str(&mut s, from_desc);
    push_str(&mut s, ")\nTo:   ");
    push_str(&mut s, to_id);
    push_str(&mut s, " (");
    push_str(&mut s, to_desc);
    push_str(&mut s, ")\n\n");
    push_str(&mut s, diff);
    s
}

/// What to show after copying: `fetched` is the text read (or the error of
/// reading it), `copied` the clipboard's answer, read only when the text
/// was read.
pub fn copy_outcome(full: bool, fetched: Result<&str, &str>, copied: Result<(), &str>) -> (r: Shown)
    ensures
        match fetched {
            Ok(text) => match copied {
                Ok(()) => r matches Shown::Notice(n) && n.kind == NotificationKind::Success && n.message@
                    == "Copied to clipboard ("@ + decimal(lines(text@).len()) + " lines, "@ + (if full {
                    "show"@
                } else {
                    "diff"@
                }) + ")"@,
                Err(e) => r matches Shown::Error(m) && m@ == e@,
            },
            Err(e) => r matches Shown::Error(m) && m@ == "Failed to get diff: "@ + e@,
        },
{
    match fetched {
        Ok(text) => match copied {
            Ok(()) => {
                let v = chars_of(text);
                let n = lines_of(&v).len();
                let mut m = string_from("Copied to clipboard (");
                let d = decimal_string(n as u64);
                push_str(&mut m, d.as_str());
                push_str(&mut m, " lines, ");
                push_str(&mut m, if full { "show" } else { "diff" });
                push_str(&mut m, ")");
                Shown::Notice(Notification::new(m, NotificationKind::Success))
            },
            Err(e) => Shown::Error(string_from(e)),
        },
        Err(e) => {
            let mut m = string_from("Failed to get diff: ");
            push_str(&mut m, e);
            Shown::Error(m)
        },
    }
}

/// What to show after exporting to `filename`: `fetched` says whether the
/// patch was read, `written` whether the file was written (read only when
/// the patch was read).
pub fn export_outcome(fetched: Result<(), &str>, filename: &str, written: Result<(), &str>) -> (r: Shown)
    ensures
        match fetched {
            Ok(()) => match written {
                Ok(()) => r matches Shown::Notice(n) && n.kind == NotificationKind::Success && n.message@
                    == "Exported to "@ + filename@,
                Err(e) => r matches Shown::Error(m) && m@ == "Failed to write "@ + filename@ + ": "@ + e@,
            },
            Err(e) => r matches Shown::Error(m) && m@ == "Failed to get diff: "@ + e@,
        },
{
    match fetched {
        Ok(()) => match written {
            Ok(()) => {
                let mut m = string_from("Exported to ");
                push_str(&mut m, filename);
                Shown::Notice(Notification::new(m, NotificationKind::Success))
            },
            Err(e) => {
                let mut m = string_from("Failed to write ");
                push_str(&mut m, filename);
                push_str(&mut m, ": ");
                push_str(&mut m, e);
                Shown::Error(m)
            },
        },
        Err(e) => {
            let mut m = string_from("Failed to get diff: ");
            push_str(&mut m, e);
            Shown::Error(m)
        },
    }
}

} // verus!
