//! Verified core of a terminal interface for the Jujutsu version control system.
use vstd::prelude::*;

pub mod text;
pub mod revision;
pub mod state;
pub mod nav;
pub mod push;
pub mod dialog;
pub mod actions;
pub mod time;
pub mod rebase;
pub mod keymap;
pub mod preview;
pub mod log_edit;
pub mod bookmark;
pub mod resolve;
pub mod ops;
pub mod diff_format;
pub mod fetch;
pub mod opening;
pub mod push_run;
pub mod trace_view;

verus! {

} // verus!
