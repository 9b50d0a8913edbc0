//! Where a key press goes: an open dialog or palette first, then the global
//! shortcuts unless a text input owns the keyboard, then the visible view.
//!
//! The key bindings themselves (which physical key is "quit") are the
//! application's; this module receives a key already named by them.
use vstd::prelude::*;

use crate::nav::{allows_undo, view_allows_undo, ViewKind};

verus! {

/// What the bindings call a key press, ignoring Ctrl and Alt.
#[derive(Debug, Clone, Copy, PartialEq, Eq, Structural)]
pub enum KeyName {
    Quit,
    Esc,
    Help,
    Tab,
    StatusView,
    Undo,
    OperationHistory,
    CommandPalette,
    Other,
}

/// A key press, described as far as routing needs it.
#[derive(Debug, Clone, Copy, PartialEq, Eq, Structural)]
pub struct KeyPress {
    pub name: KeyName,
    /// Ctrl+C.
    pub interrupt: bool,
    /// Ctrl+R.
    pub redo: bool,
    /// The refresh key (Ctrl+L).
    pub refresh: bool,
    /// No modifier key is held.
    pub plain: bool,
}

/// The state that routing reads.
#[derive(Debug, Clone, Copy, PartialEq, Eq, Structural)]
pub struct KeyContext {
    pub dialog_open: bool,
    pub palette_open: bool,
    pub view: ViewKind,
    /// The log view is in its normal mode (no text input, no selection mode).
    pub log_normal: bool,
    /// The status view is in its normal mode.
    pub status_normal: bool,
    /// A bookmark is being renamed.
    pub bookmark_renaming: bool,
    /// A help search is being typed.
    pub help_search_input: bool,
}

/// Where a key press goes.
#[derive(Debug, Clone, Copy, PartialEq, Eq, Structural)]
pub enum KeyRoute {
    /// To the open dialog.
    Dialog,
    /// To the open command palette.
    Palette,
    /// Quit the application.
    Interrupt,
    Redo,
    /// Forced refresh of the visible view.
    Refresh,
    /// To the log view while it takes text or a selection.
    LogInput,
    /// To the status view while it takes text.
    StatusInput,
    OpenPalette,
    /// Quit from the log, go back elsewhere.
    QuitOrBack,
    /// Go back unless on the log.
    Back,
    OpenHelp,
    NextView,
    OpenStatus,
    Undo,
    OpenOperationHistory,
    /// To the visible view's own key handling.
    View,
}

/// A text input or selection of the visible view owns the keyboard, so the
/// single-key shortcuts must not fire.
pub open spec fn special_input(ctx: KeyContext) -> bool {
    match ctx.view {
        ViewKind::Log => !ctx.log_normal,
        ViewKind::Status => !ctx.status_normal,
        ViewKind::Bookmark => ctx.bookmark_renaming,
        ViewKind::Help => ctx.help_search_input,
        _ => false,
    }
}

/// The global shortcut a key names in a context, if any.
pub open spec fn global_route(ctx: KeyContext, name: KeyName) -> Option<KeyRoute> {
    match name {
        KeyName::Quit => Some(KeyRoute::QuitOrBack),
        KeyName::Esc => Some(KeyRoute::Back),
        KeyName::Help => Some(KeyRoute::OpenHelp),
        KeyName::Tab => Some(KeyRoute::NextView),
        KeyName::StatusView => if ctx.view == ViewKind::Log {
            Some(KeyRoute::OpenStatus)
        } else {
            None
        },
        KeyName::Undo => if allows_undo(ctx.view) {
            Some(KeyRoute::Undo)
        } else {
            None
        },
        KeyName::OperationHistory => if ctx.view == ViewKind::Log {
            Some(KeyRoute::OpenOperationHistory)
        } else {
            None
        },
        _ => None,
    }
}

/// Where `key` goes in context `ctx`.
pub open spec fn route(ctx: KeyContext, key: KeyPress) -> KeyRoute {
    if ctx.dialog_open {
        KeyRoute::Dialog
    } else if ctx.palette_open {
        KeyRoute::Palette
    } else if key.interrupt {
        KeyRoute::Interrupt
    } else if key.redo && allows_undo(ctx.view) && !special_input(ctx) {
        KeyRoute::Redo
    } else if key.refresh && !special_input(ctx) {
        KeyRoute::Refresh
    } else if ctx.view == ViewKind::Log && !ctx.log_normal {
        KeyRoute::LogInput
    } else if ctx.view == ViewKind::Status && !ctx.status_normal {
        KeyRoute::StatusInput
    } else if special_input(ctx) {
        KeyRoute::View
    } else if ctx.view == ViewKind::Log && key.name == KeyName::CommandPalette && key.plain {
        KeyRoute::OpenPalette
    } else {
        match global_route(ctx, key.name) {
            Some(r) => r,
            None => KeyRoute::View,
        }
    }
}

/// Whether a text input or selection of the visible view owns the keyboard.
pub fn in_special_input_mode(ctx: &KeyContext) -> (r: bool)
    ensures
        r == special_input(*ctx),
{
    match ctx.view {
        ViewKind::Log => !ctx.log_normal,
        ViewKind::Status => !ctx.status_normal,
        ViewKind::Bookmark => ctx.bookmark_renaming,
        ViewKind::Help => ctx.help_search_input,
        _ => false,
    }
}

/// The global shortcut of a key, if it names one in this context.
fn handle_global_key(ctx: &KeyContext, name: KeyName) -> (r: Option<KeyRoute>)
    ensures
        r == global_route(*ctx, name),
{
    match name {
        KeyName::Quit => Some(KeyRoute::QuitOrBack),
        KeyName::Esc => Some(KeyRoute::Back),
        KeyName::Help => Some(KeyRoute::OpenHelp),
        KeyName::Tab => Some(KeyRoute::NextView),
        KeyName::StatusView => if ctx.view == ViewKind::Log {
            Some(KeyRoute::OpenStatus)
        } else {
            None
        },
        KeyName::Undo => if view_allows_undo(ctx.view) {
            Some(KeyRoute::Undo)
        } else {
            None
        },
        KeyName::OperationHistory => if ctx.view == ViewKind::Log {
            Some(KeyRoute::OpenOperationHistory)
        } else {
            None
        },
        _ => None,
    }
}

/// Route a key press. An open dialog, then an open palette, take every key.
/// Ctrl+C always quits. Redo (only in views of mutable data) and refresh
/// yield to a text input. A text input then receives every key; otherwise
/// `:` opens the palette on the log, then the global shortcuts apply, and
/// the rest goes to the view.
pub fn route_key(ctx: &KeyContext, key: &KeyPress) -> (r: KeyRoute)
    ensures
        r == route(*ctx, *key),
{
    if ctx.dialog_open {
        return KeyRoute::Dialog;
    }
    if ctx.palette_open {
        return KeyRoute::Palette;
    }
    if key.interrupt {
        return KeyRoute::Interrupt;
    }
    let special = in_special_input_mode(ctx);
    if key.redo && view_allows_undo(ctx.view) && !special {
        return KeyRoute::Redo;
    }
    if key.refresh && !special {
        return KeyRoute::Refresh;
    }
    if ctx.view == ViewKind::Log && !ctx.log_normal {
        return KeyRoute::LogInput;
    }
    if ctx.view == ViewKind::Status && !ctx.status_normal {
        return KeyRoute::StatusInput;
    }
    if special {
        return KeyRoute::View;
    }
    if ctx.view == ViewKind::Log && key.name == KeyName::CommandPalette && key.plain {
        return KeyRoute::OpenPalette;
    }
    match handle_global_key(ctx, key.name) {
        Some(r) => r,
        None => KeyRoute::View,
    }
}

/// While a text input or selection owns the keyboard, no shortcut fires:
/// every key reaches it, except Ctrl+C, which always quits.
pub proof fn law_text_input_captures_keys(ctx: KeyContext, key: KeyPress)
    requires
        !ctx.dialog_open,
        !ctx.palette_open,
        special_input(ctx),
        !key.interrupt,
    ensures
        route(ctx, key) == KeyRoute::LogInput || route(ctx, key) == KeyRoute::StatusInput || route(
            ctx,
            key,
        ) == KeyRoute::View,
{
}

/// Undo and redo only ever fire in views of mutable data.
pub proof fn law_undo_only_in_mutable_views(ctx: KeyContext, key: KeyPress)
    ensures
        (route(ctx, key) == KeyRoute::Undo || route(ctx, key) == KeyRoute::Redo) ==> allows_undo(
            ctx.view,
        ),
{
}

/// With no dialog, palette or text input open, `u` undoes and Ctrl+R redoes
/// exactly in the views of mutable data: the log, status, bookmark, tag,
/// workspace, operation and resolve views. Elsewhere the key goes to the view.
pub proof fn law_undo_and_redo_in_mutable_views(ctx: KeyContext, key: KeyPress)
    requires
        !ctx.dialog_open,
        !ctx.palette_open,
        !special_input(ctx),
        !key.interrupt,
        !key.refresh,
    ensures
        ({
            let mutable = ctx.view == ViewKind::Log || ctx.view == ViewKind::Status || ctx.view
                == ViewKind::Bookmark || ctx.view == ViewKind::Tag || ctx.view == ViewKind::Workspace || ctx.view
                == ViewKind::Operation || ctx.view == ViewKind::Resolve;
            &&& key.redo ==> (route(ctx, key) == KeyRoute::Redo) == mutable
            &&& !key.redo && key.name == KeyName::Undo ==> route(ctx, key) == (if mutable {
                KeyRoute::Undo
            } else {
                KeyRoute::View
            })
        }),
{
}

/// With no dialog, palette or text input open and no Ctrl+C, Ctrl+R or
/// refresh held: `q` quits or goes back, `Esc` goes back, `?` opens the help,
/// Tab switches views, and in the log view `s` opens the status, `o` the
/// operation history and `:` (unmodified) the command palette; outside the
/// log those three keys go to the view.
pub proof fn law_global_shortcuts(ctx: KeyContext, key: KeyPress)
    requires
        !ctx.dialog_open,
        !ctx.palette_open,
        !special_input(ctx),
        !key.interrupt,
        !key.redo,
        !key.refresh,
    ensures
        key.name == KeyName::Quit ==> route(ctx, key) == KeyRoute::QuitOrBack,
        key.name == KeyName::Esc ==> route(ctx, key) == KeyRoute::Back,
        key.name == KeyName::Help ==> route(ctx, key) == KeyRoute::OpenHelp,
        key.name == KeyName::Tab ==> route(ctx, key) == KeyRoute::NextView,
        key.name == KeyName::StatusView ==> route(ctx, key) == (if ctx.view == ViewKind::Log {
            KeyRoute::OpenStatus
        } else {
            KeyRoute::View
        }),
        key.name == KeyName::OperationHistory ==> route(ctx, key) == (if ctx.view == ViewKind::Log {
            KeyRoute::OpenOperationHistory
        } else {
            KeyRoute::View
        }),
        key.name == KeyName::CommandPalette ==> route(ctx, key) == (if ctx.view == ViewKind::Log && key.plain {
            KeyRoute::OpenPalette
        } else {
            KeyRoute::View
        }),
        key.name == KeyName::Other ==> route(ctx, key) == KeyRoute::View,
{
}

/// An open dialog takes every key, Ctrl+C included.
pub proof fn law_dialog_takes_every_key(ctx: KeyContext, key: KeyPress)
    requires
        ctx.dialog_open,
    ensures
        route(ctx, key) == KeyRoute::Dialog,
{
}

} // verus!
