//! View switching: the breadcrumb of ancestor views, the create-target
//! capture, and which data a transition must reload.
//!
//! The application performs the reloads; this module decides them.
use vstd::prelude::*;

use crate::revision::{log_truncated, selectable_count, Change, LogView};
use crate::state::{validated, DirtyFlags, PreviewCache};
use crate::text::{chars_of, push_char, slice_chars, string_of};

verus! {

/// Available views in the application.
#[derive(Debug, Clone, Copy, PartialEq, Eq, Structural)]
pub enum ViewKind {
    Log,
    Diff,
    Status,
    Operation,
    Blame,
    Resolve,
    Bookmark,
    Tag,
    Workspace,
    Evolog,
    CommandHistory,
    TraceDetail,
    Help,
}

impl Default for ViewKind {
    /// The log view.
    fn default() -> (r: Self)
        ensures
            r == ViewKind::Log,
    {
        ViewKind::Log
    }
}

/// Data a transition asks the application to reload from jj.
#[derive(Debug, Clone, Copy, PartialEq, Eq, Structural)]
pub enum Reload {
    Nothing,
    /// The log, with the log view's current revset.
    Log,
    Status,
    OperationLog,
    Bookmarks,
}

/// What `mark_dirty_and_refresh_current` asks of the application.
#[derive(Debug, Clone, Copy, PartialEq, Eq, Structural)]
pub struct RefreshPlan {
    /// Drop every cached preview (the whole repository may have changed).
    pub clear_preview_cache: bool,
    /// Reload for the visible view (after a log reload, also schedule the preview).
    pub reload: Reload,
}

/// What a forced refresh (Ctrl+L) asks the application to reload.
#[derive(Debug, Clone, Copy, PartialEq, Eq, Structural)]
pub enum ForcedReload {
    /// Nothing to reload.
    Nothing,
    /// The log with its current revset, the trace sidecar, then the preview.
    Log,
    Status,
    OperationLog,
    /// Reopen the diff that is shown, in its mode.
    Diff,
    /// Re-list the conflicts of the resolve view.
    ResolveList,
    Bookmarks,
    /// Reopen the blame that is shown.
    Blame,
    /// Reopen the evolog that is shown.
    Evolog,
    Tags,
    Workspaces,
}

/// When a forced refresh reports "Refreshed".
#[derive(Debug, Clone, Copy, PartialEq, Eq, Structural)]
pub enum RefreshNotice {
    Never,
    Always,
    /// Only when the reload itself set no error and no notice.
    WhenQuiet,
}

/// The reload and notice of a forced refresh of view `v`; `loaded` says
/// whether a view that shows loaded content (diff, resolve, blame, evolog)
/// has any.
pub open spec fn forced_refresh(v: ViewKind, loaded: bool) -> (ForcedReload, RefreshNotice) {
    match v {
        ViewKind::Log => (ForcedReload::Log, RefreshNotice::Always),
        ViewKind::Status => (ForcedReload::Status, RefreshNotice::Always),
        ViewKind::Operation => (ForcedReload::OperationLog, RefreshNotice::Always),
        ViewKind::Bookmark => (ForcedReload::Bookmarks, RefreshNotice::Always),
        ViewKind::Tag => (ForcedReload::Tags, RefreshNotice::Always),
        ViewKind::Workspace => (ForcedReload::Workspaces, RefreshNotice::Always),
        ViewKind::Diff => if loaded {
            (ForcedReload::Diff, RefreshNotice::Always)
        } else {
            (ForcedReload::Nothing, RefreshNotice::Never)
        },
        ViewKind::Resolve => if loaded {
            (ForcedReload::ResolveList, RefreshNotice::Always)
        } else {
            (ForcedReload::Nothing, RefreshNotice::Never)
        },
        ViewKind::Blame => if loaded {
            (ForcedReload::Blame, RefreshNotice::Always)
        } else {
            (ForcedReload::Nothing, RefreshNotice::Never)
        },
        ViewKind::Evolog => if loaded {
            (ForcedReload::Evolog, RefreshNotice::WhenQuiet)
        } else {
            (ForcedReload::Nothing, RefreshNotice::Never)
        },
        _ => (ForcedReload::Nothing, RefreshNotice::Never),
    }
}

/// The dirty flags after a forced refresh of view `v`: only that view's
/// flag is cleared.
pub open spec fn after_forced_refresh(v: ViewKind, d: DirtyFlags) -> DirtyFlags {
    match v {
        ViewKind::Log => DirtyFlags { log: false, ..d },
        ViewKind::Status => DirtyFlags { status: false, ..d },
        ViewKind::Operation => DirtyFlags { op_log: false, ..d },
        ViewKind::Bookmark => DirtyFlags { bookmarks: false, ..d },
        _ => d,
    }
}

/// A key in the help screen. While a search is typed, only `Esc`, `Enter`,
/// `Backspace` and `Char` (without Ctrl or Alt) act; otherwise the bindings.
#[derive(Debug, Clone, Copy, PartialEq, Eq, Structural)]
pub enum HelpKey {
    Esc,
    Enter,
    Backspace,
    Char(char),
    MoveDown,
    MoveUp,
    GoBottom,
    GoTop,
    SearchStart,
    SearchNext,
    SearchPrev,
    ToggleAll,
    Other,
}

/// The first element of `s` above `x`, in order.
pub open spec fn first_above(s: Seq<u16>, x: u16) -> Option<u16>
    decreases s.len(),
{
    if s.len() == 0 {
        None
    } else if s[0] > x {
        Some(s[0])
    } else {
        first_above(s.drop_first(), x)
    }
}

/// The last element of `s` below `x`, in order.
pub open spec fn last_below(s: Seq<u16>, x: u16) -> Option<u16>
    decreases s.len(),
{
    if s.len() == 0 {
        None
    } else if s.last() < x {
        Some(s.last())
    } else {
        last_below(s.drop_last(), x)
    }
}

/// A key while the command palette is open.
#[derive(Debug, Clone, Copy, PartialEq, Eq, Structural)]
pub enum PaletteKey {
    Esc,
    Enter,
    /// Down arrow or Ctrl+N.
    Next,
    /// Up arrow or Ctrl+P.
    Prev,
    Backspace,
    /// A character typed without Ctrl or Alt.
    Char(char),
    Other,
}

/// What a palette key leads to.
#[derive(Debug, Clone, Copy, PartialEq, Eq, Structural)]
pub enum PaletteOutcome {
    /// The palette stays open.
    Open,
    /// The palette closed without a command.
    Closed,
    /// The palette closed; run the command at this index of the filtered list.
    Dispatch(usize),
}

/// The view the Tab key switches to.
pub open spec fn next_view_of(v: ViewKind) -> ViewKind {
    if v == ViewKind::Log {
        ViewKind::Status
    } else {
        ViewKind::Log
    }
}

/// Views where jj undo/redo is meaningful (views of mutable data).
pub open spec fn allows_undo(v: ViewKind) -> bool {
    v == ViewKind::Log || v == ViewKind::Status || v == ViewKind::Bookmark || v == ViewKind::Tag || v
        == ViewKind::Workspace || v == ViewKind::Operation || v == ViewKind::Resolve
}

/// The reload entering view `v` needs under dirty flags `d`, and the flags after it.
pub open spec fn reload_for(v: ViewKind, d: DirtyFlags) -> (Reload, DirtyFlags) {
    if v == ViewKind::Log && d.log {
        (Reload::Log, DirtyFlags { log: false, ..d })
    } else if v == ViewKind::Status && d.status {
        (Reload::Status, DirtyFlags { status: false, ..d })
    } else if v == ViewKind::Operation && d.op_log {
        (Reload::OperationLog, DirtyFlags { op_log: false, ..d })
    } else if v == ViewKind::Bookmark && d.bookmarks {
        (Reload::Bookmarks, DirtyFlags { bookmarks: false, ..d })
    } else {
        (Reload::Nothing, d)
    }
}

/// Every flag set.
pub open spec fn all_dirty() -> DirtyFlags {
    DirtyFlags { log: true, status: true, op_log: true, bookmarks: true }
}

/// The union of two sets of dirty flags.
pub open spec fn merged(a: DirtyFlags, b: DirtyFlags) -> DirtyFlags {
    DirtyFlags {
        log: a.log || b.log,
        status: a.status || b.status,
        op_log: a.op_log || b.op_log,
        bookmarks: a.bookmarks || b.bookmarks,
    }
}

/// Position of `v` in the breadcrumb, if it is there.
pub open spec fn stack_position(s: Seq<ViewKind>, v: ViewKind) -> Option<int> {
    if exists|i: int| 0 <= i < s.len() && s[i] == v {
        Some(choose|i: int| 0 <= i < s.len() && s[i] == v)
    } else {
        None
    }
}

/// The breadcrumb after moving forward from `cur` to `v` (with `v != cur`):
/// back to just below `v` when `v` is an ancestor, else `cur` pushed.
pub open spec fn stack_after_go(s: Seq<ViewKind>, cur: ViewKind, v: ViewKind) -> Seq<ViewKind> {
    match stack_position(s, v) {
        Some(p) => s.subrange(0, p),
        None => s.push(cur),
    }
}

/// The help screen's transient state.
#[derive(Debug, Clone)]
pub struct HelpState {
    pub scroll: u16,
    pub search_query: Option<String>,
    pub search_input: bool,
    pub show_all: bool,
    pub input_buffer: String,
}

/// View-switching state of the application.
#[derive(Debug, Clone)]
pub struct ViewState {
    /// Is the application running?
    pub running: bool,
    pub current_view: ViewKind,
    /// Ancestor views, root first; `current_view` is not on it.
    pub view_stack: Vec<ViewKind>,
    pub dirty: DirtyFlags,
    /// Change id captured when a bookmark or tag view is opened from the log:
    /// the default target of create there. `None` means `@`.
    pub create_target: Option<String>,
    /// Preview fetch deferred to the next idle tick.
    pub preview_pending_id: Option<String>,
    /// The log view shows the preview pane.
    pub preview_enabled: bool,
    pub palette_active: bool,
    pub palette_input: String,
    pub palette_selected: usize,
    pub help: HelpState,
}

impl ViewState {
    /// The breadcrumb is a path: no view twice, and not the current view.
    pub open spec fn wf(&self) -> bool {
        &&& self.view_stack@.no_duplicates()
        &&& !self.view_stack@.contains(self.current_view)
    }

    /// Initial state: the log view, its data already loaded, the other views
    /// stale.
    pub fn new() -> (r: Self)
        ensures
            r.wf(),
            r.running,
            r.current_view == ViewKind::Log,
            r.view_stack@.len() == 0,
            r.dirty == (DirtyFlags { log: false, status: true, op_log: true, bookmarks: true }),
            r.create_target is None,
            r.preview_pending_id is None,
            r.preview_enabled,
            !r.palette_active,
            r.palette_selected == 0,
    {
        ViewState {
            running: true,
            current_view: ViewKind::Log,
            view_stack: Vec::new(),
            dirty: DirtyFlags { log: false, status: true, op_log: true, bookmarks: true },
            create_target: None,
            preview_pending_id: None,
            preview_enabled: true,
            palette_active: false,
            palette_input: String::new(),
            palette_selected: 0,
            help: HelpState {
                scroll: 0,
                search_query: None,
                search_input: false,
                show_all: false,
                input_buffer: String::new(),
            },
        }
    }

    /// Position of `view` on the breadcrumb.
    fn stack_find(&self, view: ViewKind) -> (r: Option<usize>)
        ensures
            match r {
                Some(p) => p < self.view_stack@.len() && self.view_stack@[p as int] == view,
                None => !self.view_stack@.contains(view),
            },
    {
        let mut i: usize = 0;
        while i < self.view_stack.len()
            invariant
                i <= self.view_stack@.len(),
                forall|k: int| 0 <= k < i ==> self.view_stack@[k] != view,
            decreases self.view_stack.len() - i,
        {
            if self.view_stack[i] == view {
                return Some(i);
            }
            i = i + 1;
        }
        None
    }

    /// Applies a transition to `view` without touching the breadcrumb: closes
    /// the palette, drops a pending preview when leaving the log, captures or
    /// clears the create target, resets the help screen when entering it, and
    /// reloads the target's data when it is dirty.
    ///
    /// `selected_change_id` is the change under the log cursor.
    fn enter_view(&mut self, view: ViewKind, selected_change_id: Option<String>) -> (r: Reload)
        ensures
            final(self).current_view == view,
            final(self).view_stack@ == old(self).view_stack@,
            final(self).running == old(self).running,
            !final(self).palette_active,
            final(self).palette_selected == 0,
            final(self).palette_input@.len() == 0,
            old(self).current_view == ViewKind::Log ==> final(self).preview_pending_id is None,
            old(self).current_view != ViewKind::Log ==> final(self).preview_pending_id
                == old(self).preview_pending_id,
            final(self).create_target == (if (view == ViewKind::Bookmark || view == ViewKind::Tag)
                && old(self).current_view == ViewKind::Log {
                selected_change_id
            } else {
                None
            }),
            (r, final(self).dirty) == reload_for(view, old(self).dirty),
            view == ViewKind::Help ==> final(self).help.scroll == 0 && final(self).help.search_query
                is None && !final(self).help.search_input && !final(self).help.show_all
                && final(self).help.input_buffer@.len() == 0,
    {
        self.palette_active = false;
        self.palette_input = String::new();
        self.palette_selected = 0;
        if self.current_view == ViewKind::Log {
            self.preview_pending_id = None;
        }
        if view == ViewKind::Bookmark || view == ViewKind::Tag {
            self.create_target = if self.current_view == ViewKind::Log {
                selected_change_id
            } else {
                None
            };
        } else {
            self.create_target = None;
        }
        self.current_view = view;
        if view == ViewKind::Log && self.dirty.log {
            self.dirty.log = false;
            Reload::Log
        } else if view == ViewKind::Status && self.dirty.status {
            self.dirty.status = false;
            Reload::Status
        } else if view == ViewKind::Operation && self.dirty.op_log {
            self.dirty.op_log = false;
            Reload::OperationLog
        } else if view == ViewKind::Bookmark && self.dirty.bookmarks {
            self.dirty.bookmarks = false;
            Reload::Bookmarks
        } else {
            if view == ViewKind::Help {
                self.help.scroll = 0;
                self.help.search_query = None;
                self.help.search_input = false;
                self.help.show_all = false;
                self.help.input_buffer = String::new();
            }
            Reload::Nothing
        }
    }

    /// Navigate to `view`. A view already on the breadcrumb is returned to
    /// (the breadcrumb is cut just below it); otherwise the current view is
    /// pushed. Data is reloaded only when its dirty flag is set.
    pub fn go_to_view(&mut self, view: ViewKind, selected_change_id: Option<String>) -> (r: Reload)
        requires
            old(self).wf(),
        ensures
            final(self).wf(),
            old(self).current_view == view ==> r == Reload::Nothing && *final(self) == *old(self),
            old(self).current_view != view ==> {
                &&& final(self).current_view == view
                &&& final(self).view_stack@ == stack_after_go(
                    old(self).view_stack@,
                    old(self).current_view,
                    view,
                )
                &&& (r, final(self).dirty) == reload_for(view, old(self).dirty)
                &&& final(self).create_target == (if (view == ViewKind::Bookmark || view == ViewKind::Tag)
                    && old(self).current_view == ViewKind::Log {
                    selected_change_id
                } else {
                    None
                })
                &&& !final(self).palette_active
                &&& final(self).palette_input@.len() == 0
                &&& final(self).palette_selected == 0
                &&& final(self).running == old(self).running
            },
    {
        if self.current_view == view {
            return Reload::Nothing;
        }
        let ghost s = self.view_stack@;
        let ghost cur = self.current_view;
        match self.stack_find(view) {
            Some(pos) => {
                proof {
                    let q = choose|i: int| 0 <= i < s.len() && s[i] == view;
                    if q != pos {
                        assert(s[q] == s[pos as int]);
                    }
                    assert(stack_position(s, view) == Some(pos as int));
                }
                self.view_stack.truncate(pos);
                proof {
                    let t = self.view_stack@;
                    assert(t =~= s.subrange(0, pos as int));
                    assert forall|i: int, j: int|
                        0 <= i < t.len() && 0 <= j < t.len() && i != j implies t[i] != t[j] by {
                        assert(t[i] == s[i] && t[j] == s[j]);
                    }
                    assert forall|i: int| 0 <= i < t.len() implies t[i] != view by {
                        assert(t[i] == s[i]);
                    }
                }
            },
            None => {
                self.view_stack.push(self.current_view);
                proof {
                    let t = self.view_stack@;
                    assert(stack_position(s, view) is None);
                    assert forall|i: int, j: int|
                        0 <= i < t.len() && 0 <= j < t.len() && i != j implies t[i] != t[j] by {
                        if i < s.len() && j < s.len() {
                            assert(t[i] == s[i] && t[j] == s[j]);
                        } else if i < s.len() {
                            assert(t[i] == s[i]);
                        } else {
                            assert(t[j] == s[j]);
                        }
                    }
                    assert forall|i: int| 0 <= i < t.len() implies t[i] != view by {
                        if i < s.len() {
                            assert(t[i] == s[i]);
                        }
                    }
                }
            },
        }
        self.enter_view(view, selected_change_id)
    }

    /// The view back navigation returns to (top of the breadcrumb), if any.
    pub fn previous_view(&self) -> (r: Option<ViewKind>)
        ensures
            r == (if self.view_stack@.len() > 0 {
                Some(self.view_stack@.last())
            } else {
                None
            }),
    {
        let n = self.view_stack.len();
        if n > 0 {
            Some(self.view_stack[n - 1])
        } else {
            None
        }
    }

    /// Go back one level: pop the breadcrumb (the log when it is empty) and
    /// enter that view without pushing.
    pub fn go_back(&mut self, selected_change_id: Option<String>) -> (r: Reload)
        requires
            old(self).wf(),
        ensures
            final(self).wf(),
            final(self).current_view == (if old(self).view_stack@.len() > 0 {
                old(self).view_stack@.last()
            } else {
                ViewKind::Log
            }),
            final(self).view_stack@ == (if old(self).view_stack@.len() > 0 {
                old(self).view_stack@.drop_last()
            } else {
                old(self).view_stack@
            }),
            (r, final(self).dirty) == reload_for(final(self).current_view, old(self).dirty),
            final(self).create_target == (if (final(self).current_view == ViewKind::Bookmark
                || final(self).current_view == ViewKind::Tag) && old(self).current_view == ViewKind::Log {
                selected_change_id
            } else {
                None
            }),
            !final(self).palette_active,
            final(self).palette_input@.len() == 0,
            final(self).palette_selected == 0,
            final(self).running == old(self).running,
    {
        let ghost s = self.view_stack@;
        let target = match self.view_stack.pop() {
            Some(v) => v,
            None => ViewKind::Log,
        };
        proof {
            let t = self.view_stack@;
            if s.len() > 0 {
                assert(t =~= s.drop_last());
                assert forall|i: int, j: int|
                    0 <= i < t.len() && 0 <= j < t.len() && i != j implies t[i] != t[j] by {
                    assert(t[i] == s[i] && t[j] == s[j]);
                }
                assert forall|i: int| 0 <= i < t.len() implies t[i] != target by {
                    assert(t[i] == s[i]);
                    assert(s[s.len() - 1] == target);
                }
            }
        }
        self.enter_view(target, selected_change_id)
    }

    /// Switch to the next view (Tab): the status view from the log, the log
    /// from anywhere else.
    pub fn next_view(&mut self, selected_change_id: Option<String>) -> (r: Reload)
        requires
            old(self).wf(),
        ensures
            final(self).wf(),
            final(self).current_view == next_view_of(old(self).current_view),
            final(self).view_stack@ == stack_after_go(
                old(self).view_stack@,
                old(self).current_view,
                next_view_of(old(self).current_view),
            ),
            (r, final(self).dirty) == reload_for(
                next_view_of(old(self).current_view),
                old(self).dirty,
            ),
            !final(self).palette_active,
            final(self).palette_input@.len() == 0,
            final(self).palette_selected == 0,
    {
        let next = if self.current_view == ViewKind::Log {
            ViewKind::Status
        } else {
            ViewKind::Log
        };
        self.go_to_view(next, selected_change_id)
    }

    /// Quit key: quits from the log view, goes back from any other.
    pub fn handle_quit(&mut self, selected_change_id: Option<String>) -> (r: Reload)
        requires
            old(self).wf(),
        ensures
            final(self).wf(),
            old(self).current_view == ViewKind::Log ==> !final(self).running && r == Reload::Nothing
                && final(self).current_view == ViewKind::Log && final(self).view_stack@
                == old(self).view_stack@,
            old(self).current_view != ViewKind::Log ==> final(self).running == old(self).running
                && final(self).current_view == (if old(self).view_stack@.len() > 0 {
                old(self).view_stack@.last()
            } else {
                ViewKind::Log
            }),
    {
        if self.current_view == ViewKind::Log {
            self.quit();
            Reload::Nothing
        } else {
            self.go_back(selected_change_id)
        }
    }

    /// Back key: goes back unless already in the log view.
    pub fn handle_back(&mut self, selected_change_id: Option<String>) -> (r: Reload)
        requires
            old(self).wf(),
        ensures
            final(self).wf(),
            old(self).current_view == ViewKind::Log ==> *final(self) == *old(self) && r
                == Reload::Nothing,
            old(self).current_view != ViewKind::Log ==> final(self).current_view == (if old(
                self,
            ).view_stack@.len() > 0 {
                old(self).view_stack@.last()
            } else {
                ViewKind::Log
            }),
    {
        if self.current_view != ViewKind::Log {
            self.go_back(selected_change_id)
        } else {
            Reload::Nothing
        }
    }

    /// Switch the preview pane on or off. Returns whether to fetch the
    /// preview of the selected change at once (it was switched on); switching
    /// it off drops the deferred fetch (the cache is kept).
    pub fn toggle_preview(&mut self) -> (r: bool)
        ensures
            final(self).preview_enabled == !old(self).preview_enabled,
            r == final(self).preview_enabled,
            !r ==> final(self).preview_pending_id is None,
            r ==> final(self).preview_pending_id == old(self).preview_pending_id,
            final(self).current_view == old(self).current_view,
            final(self).view_stack@ == old(self).view_stack@,
            final(self).dirty == old(self).dirty,
            final(self).running == old(self).running,
    {
        self.preview_enabled = !self.preview_enabled;
        if !self.preview_enabled {
            self.preview_pending_id = None;
        }
        self.preview_enabled
    }

    /// Show the log with an empty breadcrumb (after jumping to a change:
    /// the intent is to go to the log, not to peek and come back).
    pub fn reset_to_log(&mut self)
        ensures
            final(self).wf(),
            final(self).current_view == ViewKind::Log,
            final(self).view_stack@.len() == 0,
            final(self).dirty == old(self).dirty,
            final(self).running == old(self).running,
    {
        self.view_stack.clear();
        self.current_view = ViewKind::Log;
    }

    /// Stop the application.
    pub fn quit(&mut self)
        ensures
            !final(self).running,
            final(self).current_view == old(self).current_view,
            final(self).view_stack@ == old(self).view_stack@,
            final(self).dirty == old(self).dirty,
    {
        self.running = false;
    }

    /// Revset for the default create target: the captured change id, or `@`.
    pub fn create_target_revset(&self) -> (r: String)
        ensures
            r@ == (match self.create_target {
                Some(t) => t@,
                None => "@"@,
            }),
    {
        match &self.create_target {
            Some(t) => t.clone(),
            None => String::from_str("@"),
        }
    }

    /// Merge `affected` into the dirty flags and reload the visible view if it
    /// became dirty; when everything is affected the preview cache is dropped.
    pub fn mark_dirty_and_refresh_current(&mut self, affected: DirtyFlags) -> (r: RefreshPlan)
        ensures
            r.clear_preview_cache == (affected == all_dirty()),
            (r.reload, final(self).dirty) == reload_for(
                old(self).current_view,
                merged(old(self).dirty, affected),
            ),
            final(self).current_view == old(self).current_view,
            final(self).view_stack@ == old(self).view_stack@,
            final(self).create_target == old(self).create_target,
    {
        let clear = affected == DirtyFlags::all();
        self.dirty.log = self.dirty.log || affected.log;
        self.dirty.status = self.dirty.status || affected.status;
        self.dirty.op_log = self.dirty.op_log || affected.op_log;
        self.dirty.bookmarks = self.dirty.bookmarks || affected.bookmarks;
        let view = self.current_view;
        let reload = if view == ViewKind::Log && self.dirty.log {
            self.dirty.log = false;
            Reload::Log
        } else if view == ViewKind::Status && self.dirty.status {
            self.dirty.status = false;
            Reload::Status
        } else if view == ViewKind::Operation && self.dirty.op_log {
            self.dirty.op_log = false;
            Reload::OperationLog
        } else if view == ViewKind::Bookmark && self.dirty.bookmarks {
            self.dirty.bookmarks = false;
            Reload::Bookmarks
        } else {
            Reload::Nothing
        };
        RefreshPlan { clear_preview_cache: clear, reload }
    }

    /// Forced refresh (Ctrl+L) of the visible view: which data to reload,
    /// whether to report it, and only that view's dirty flag is cleared. The
    /// other flags stay, so those views still reload when visited.
    ///
    /// `loaded` says whether the diff, resolve, blame or evolog view shown
    /// holds content.
    pub fn execute_refresh(&mut self, loaded: bool) -> (r: (ForcedReload, RefreshNotice))
        ensures
            r == forced_refresh(old(self).current_view, loaded),
            final(self).dirty == after_forced_refresh(old(self).current_view, old(self).dirty),
            final(self).current_view == old(self).current_view,
            final(self).view_stack@ == old(self).view_stack@,
            final(self).create_target == old(self).create_target,
    {
        match self.current_view {
            ViewKind::Log => {
                self.dirty.log = false;
                (ForcedReload::Log, RefreshNotice::Always)
            },
            ViewKind::Status => {
                self.dirty.status = false;
                (ForcedReload::Status, RefreshNotice::Always)
            },
            ViewKind::Operation => {
                self.dirty.op_log = false;
                (ForcedReload::OperationLog, RefreshNotice::Always)
            },
            ViewKind::Bookmark => {
                self.dirty.bookmarks = false;
                (ForcedReload::Bookmarks, RefreshNotice::Always)
            },
            ViewKind::Tag => (ForcedReload::Tags, RefreshNotice::Always),
            ViewKind::Workspace => (ForcedReload::Workspaces, RefreshNotice::Always),
            ViewKind::Diff => if loaded {
                (ForcedReload::Diff, RefreshNotice::Always)
            } else {
                (ForcedReload::Nothing, RefreshNotice::Never)
            },
            ViewKind::Resolve => if loaded {
                (ForcedReload::ResolveList, RefreshNotice::Always)
            } else {
                (ForcedReload::Nothing, RefreshNotice::Never)
            },
            ViewKind::Blame => if loaded {
                (ForcedReload::Blame, RefreshNotice::Always)
            } else {
                (ForcedReload::Nothing, RefreshNotice::Never)
            },
            ViewKind::Evolog => if loaded {
                (ForcedReload::Evolog, RefreshNotice::WhenQuiet)
            } else {
                (ForcedReload::Nothing, RefreshNotice::Never)
            },
            _ => (ForcedReload::Nothing, RefreshNotice::Never),
        }
    }

    /// Close the command palette and reset its input and highlight.
    pub fn close_palette(&mut self)
        ensures
            !final(self).palette_active,
            final(self).palette_input@.len() == 0,
            final(self).palette_selected == 0,
            final(self).current_view == old(self).current_view,
            final(self).view_stack@ == old(self).view_stack@,
            final(self).dirty == old(self).dirty,
    {
        self.palette_active = false;
        self.palette_input = String::new();
        self.palette_selected = 0;
    }

    /// Handle a key while the palette is open. `filtered_len` is the number of
    /// commands matching the palette input before the key. Esc closes; Enter
    /// closes and runs the highlighted command if there is one; Next and Prev
    /// move the highlight (wrapping); typing edits the input and resets the
    /// highlight.
    pub fn handle_palette_key(&mut self, key: PaletteKey, filtered_len: usize) -> (r: PaletteOutcome)
        requires
            filtered_len <= isize::MAX,
            old(self).palette_selected < isize::MAX,
        ensures
            final(self).current_view == old(self).current_view,
            final(self).view_stack@ == old(self).view_stack@,
            final(self).dirty == old(self).dirty,
            match key {
                PaletteKey::Esc => r == PaletteOutcome::Closed && !final(self).palette_active
                    && final(self).palette_input@.len() == 0 && final(self).palette_selected == 0,
                PaletteKey::Enter => {
                    &&& !final(self).palette_active
                    &&& final(self).palette_input@.len() == 0
                    &&& final(self).palette_selected == 0
                    &&& r == if old(self).palette_selected < filtered_len {
                        PaletteOutcome::Dispatch(old(self).palette_selected)
                    } else {
                        PaletteOutcome::Closed
                    }
                },
                PaletteKey::Next => r == PaletteOutcome::Open && final(self).palette_input@
                    == old(self).palette_input@ && final(self).palette_selected == (if filtered_len == 0 {
                    0
                } else {
                    (old(self).palette_selected + 1) % (filtered_len as int)
                }),
                PaletteKey::Prev => r == PaletteOutcome::Open && final(self).palette_input@
                    == old(self).palette_input@ && final(self).palette_selected == (if filtered_len == 0 {
                    0
                } else {
                    (old(self).palette_selected - 1) % (filtered_len as int)
                }),
                PaletteKey::Backspace => r == PaletteOutcome::Open && final(self).palette_selected == 0
                    && final(self).palette_input@ == (if old(self).palette_input@.len() > 0 {
                    old(self).palette_input@.drop_last()
                } else {
                    old(self).palette_input@
                }),
                PaletteKey::Char(c) => r == PaletteOutcome::Open && final(self).palette_selected == 0
                    && final(self).palette_input@ == old(self).palette_input@.push(c),
                PaletteKey::Other => r == PaletteOutcome::Open && final(self).palette_selected
                    == old(self).palette_selected && final(self).palette_input@ == old(self).palette_input@,
            },
            r == PaletteOutcome::Open ==> final(self).palette_active == old(self).palette_active,
    {
        match key {
            PaletteKey::Esc => {
                self.close_palette();
                PaletteOutcome::Closed
            },
            PaletteKey::Enter => {
                let sel = self.palette_selected;
                self.close_palette();
                if sel < filtered_len {
                    PaletteOutcome::Dispatch(sel)
                } else {
                    PaletteOutcome::Closed
                }
            },
            PaletteKey::Next => {
                self.palette_move(1, filtered_len);
                PaletteOutcome::Open
            },
            PaletteKey::Prev => {
                self.palette_move(-1, filtered_len);
                PaletteOutcome::Open
            },
            PaletteKey::Backspace => {
                let v = chars_of(self.palette_input.as_str());
                if v.len() > 0 {
                    let t = slice_chars(&v, 0, v.len() - 1);
                    self.palette_input = string_of(t.as_slice());
                    assert(self.palette_input@ =~= v@.drop_last());
                }
                self.palette_selected = 0;
                PaletteOutcome::Open
            },
            PaletteKey::Char(c) => {
                push_char(&mut self.palette_input, c);
                self.palette_selected = 0;
                PaletteOutcome::Open
            },
            PaletteKey::Other => PaletteOutcome::Open,
        }
    }

    /// Move the palette highlight by `delta` within a filtered list of
    /// `len` commands, wrapping around; with no commands it resets to 0.
    pub fn palette_move(&mut self, delta: isize, len: usize)
        requires
            len <= isize::MAX,
            isize::MIN <= old(self).palette_selected + delta <= isize::MAX,
            old(self).palette_selected <= isize::MAX,
        ensures
            final(self).palette_selected == (if len == 0 {
                0
            } else {
                (old(self).palette_selected + delta) % (len as int)
            }),
            final(self).current_view == old(self).current_view,
            final(self).view_stack@ == old(self).view_stack@,
            final(self).dirty == old(self).dirty,
            final(self).palette_input == old(self).palette_input,
            final(self).palette_active == old(self).palette_active,
    {
        if len == 0 {
            self.palette_selected = 0;
            return;
        }
        let sel = self.palette_selected;
        let r: usize = if delta >= 0 {
            let x: usize = sel + delta as usize;
            x % len
        } else {
            let d: usize = ((-(delta + 1)) as usize) + 1;
            if sel >= d {
                (sel - d) % len
            } else {
                let k: usize = (d - sel) % len;
                let r1: usize = if k == 0 {
                    0
                } else {
                    len - k
                };
                proof {
                    let a: int = sel - d;
                    let b: int = d - sel;
                    let m: int = len as int;
                    assert(a == -b);
                    assert(k == b % m);
                    let q = b / m;
                    vstd::arithmetic::div_mod::lemma_fundamental_div_mod(b, m);
                    assert(b == m * q + k);
                    if k == 0 {
                        assert(a == (-q) * m) by (nonlinear_arith)
                            requires
                                b == m * q,
                                a == -b,
                        {
                        }
                        vstd::arithmetic::div_mod::lemma_fundamental_div_mod_converse(a, m, -q, 0);
                    } else {
                        assert(a == (-q - 1) * m + (m - k)) by (nonlinear_arith)
                            requires
                                b == m * q + k,
                                a == -b,
                        {
                        }
                        vstd::arithmetic::div_mod::lemma_fundamental_div_mod_converse(
                            a,
                            m,
                            -q - 1,
                            m - k,
                        );
                    }
                }
                r1
            }
        };
        self.palette_selected = r as usize;
    }
}

impl HelpState {
    /// Scroll position for "next match": the first match below the top line,
    /// else the first match (wrapping), else unchanged.
    fn next_match(indices: &[u16], scroll: u16) -> (r: u16)
        ensures
            r == match first_above(indices@, scroll) {
                Some(i) => i,
                None => if indices@.len() > 0 {
                    indices@[0]
                } else {
                    scroll
                },
            },
    {
        let mut i: usize = 0;
        assert(indices@.subrange(0, indices@.len() as int) =~= indices@);
        while i < indices.len()
            invariant
                i <= indices@.len(),
                first_above(indices@, scroll) == first_above(indices@.subrange(i as int, indices@.len() as int), scroll),
            decreases indices.len() - i,
        {
            assert(indices@.subrange(i as int, indices@.len() as int).drop_first() =~= indices@.subrange(
                i + 1,
                indices@.len() as int,
            ));
            if indices[i] > scroll {
                return indices[i];
            }
            i = i + 1;
        }
        assert(indices@.subrange(0, indices@.len() as int) =~= indices@);
        if indices.len() > 0 {
            indices[0]
        } else {
            scroll
        }
    }

    /// Scroll position for "previous match": the last match above the top
    /// line, else the last match (wrapping), else unchanged.
    fn prev_match(indices: &[u16], scroll: u16) -> (r: u16)
        ensures
            r == match last_below(indices@, scroll) {
                Some(i) => i,
                None => if indices@.len() > 0 {
                    indices@.last()
                } else {
                    scroll
                },
            },
    {
        let mut n: usize = indices.len();
        assert(indices@.subrange(0, indices@.len() as int) =~= indices@);
        while n > 0
            invariant
                n <= indices@.len(),
                last_below(indices@, scroll) == last_below(indices@.subrange(0, n as int), scroll),
            decreases n,
        {
            assert(indices@.subrange(0, n as int).drop_last() =~= indices@.subrange(0, n - 1));
            if indices[n - 1] < scroll {
                return indices[n - 1];
            }
            n = n - 1;
        }
        assert(indices@.subrange(0, indices@.len() as int) =~= indices@);
        if indices.len() > 0 {
            indices[indices.len() - 1]
        } else {
            scroll
        }
    }

    /// Handle a key on the help screen. `indices` are the help lines matching
    /// the query the key acts on: the typed text on `Enter`, the confirmed
    /// search otherwise.
    pub fn handle_key(&mut self, key: HelpKey, indices: &[u16])
        ensures
            old(self).search_input ==> match key {
                HelpKey::Esc => !final(self).search_input && final(self).input_buffer@.len() == 0
                    && final(self).search_query == old(self).search_query && final(self).scroll
                    == old(self).scroll && final(self).show_all == old(self).show_all,
                HelpKey::Enter => {
                    &&& !final(self).search_input
                    &&& final(self).input_buffer@.len() == 0
                    &&& final(self).show_all == old(self).show_all
                    &&& if old(self).input_buffer@.len() == 0 {
                        final(self).search_query is None && final(self).scroll == old(self).scroll
                    } else {
                        &&& final(self).search_query matches Some(q) && q@ == old(self).input_buffer@
                        &&& final(self).scroll == (if indices@.len() > 0 {
                            indices@[0]
                        } else {
                            old(self).scroll
                        })
                    }
                },
                HelpKey::Char(c) => final(self).input_buffer@ == old(self).input_buffer@.push(c)
                    && final(self).search_input && final(self).search_query == old(self).search_query
                    && final(self).scroll == old(self).scroll && final(self).show_all
                    == old(self).show_all,
                HelpKey::Backspace => final(self).input_buffer@ == (if old(self).input_buffer@.len() > 0 {
                    old(self).input_buffer@.drop_last()
                } else {
                    old(self).input_buffer@
                }) && final(self).search_input && final(self).search_query == old(self).search_query
                    && final(self).scroll == old(self).scroll && final(self).show_all
                    == old(self).show_all,
                _ => *final(self) == *old(self),
            },
            !old(self).search_input ==> match key {
                HelpKey::MoveDown => final(self).scroll == (if old(self).scroll < u16::MAX {
                    (old(self).scroll + 1) as u16
                } else {
                    u16::MAX
                }),
                HelpKey::MoveUp => final(self).scroll == (if old(self).scroll > 0 {
                    (old(self).scroll - 1) as u16
                } else {
                    0
                }),
                HelpKey::GoBottom => final(self).scroll == u16::MAX,
                HelpKey::GoTop => final(self).scroll == 0,
                HelpKey::SearchStart => final(self).search_input && final(self).input_buffer@.len() == 0,
                HelpKey::SearchNext => final(self).scroll == (if old(self).search_query is Some {
                    match first_above(indices@, old(self).scroll) {
                        Some(i) => i,
                        None => if indices@.len() > 0 {
                            indices@[0]
                        } else {
                            old(self).scroll
                        },
                    }
                } else {
                    old(self).scroll
                }),
                HelpKey::SearchPrev => final(self).scroll == (if old(self).search_query is Some {
                    match last_below(indices@, old(self).scroll) {
                        Some(i) => i,
                        None => if indices@.len() > 0 {
                            indices@.last()
                        } else {
                            old(self).scroll
                        },
                    }
                } else {
                    old(self).scroll
                }),
                HelpKey::ToggleAll => final(self).show_all == !old(self).show_all && final(self).scroll == 0,
                _ => final(self).scroll == old(self).scroll,
            },
            !old(self).search_input && key != HelpKey::SearchStart ==> !final(self).search_input
                && final(self).input_buffer == old(self).input_buffer && final(self).search_query
                == old(self).search_query,
            !old(self).search_input && key != HelpKey::ToggleAll ==> final(self).show_all
                == old(self).show_all,
            !old(self).search_input && key == HelpKey::SearchStart ==> final(self).scroll
                == old(self).scroll && final(self).search_query == old(self).search_query,
    {
        if self.search_input {
            match key {
                HelpKey::Esc => {
                    self.search_input = false;
                    self.input_buffer = String::new();
                },
                HelpKey::Enter => {
                    let query = self.input_buffer.clone();
                    self.input_buffer = String::new();
                    self.search_input = false;
                    if chars_of(query.as_str()).len() == 0 {
                        self.search_query = None;
                    } else {
                        self.search_query = Some(query);
                        if indices.len() > 0 {
                            self.scroll = indices[0];
                        }
                    }
                },
                HelpKey::Char(c) => {
                    push_char(&mut self.input_buffer, c);
                },
                HelpKey::Backspace => {
                    let v = chars_of(self.input_buffer.as_str());
                    if v.len() > 0 {
                        let t = slice_chars(&v, 0, v.len() - 1);
                        self.input_buffer = string_of(t.as_slice());
                        assert(self.input_buffer@ =~= v@.drop_last());
                    }
                },
                _ => {},
            }
        } else {
            match key {
                HelpKey::MoveDown => {
                    self.scroll = self.scroll.saturating_add(1);
                },
                HelpKey::MoveUp => {
                    self.scroll = self.scroll.saturating_sub(1);
                },
                HelpKey::GoBottom => {
                    self.scroll = u16::MAX;
                },
                HelpKey::GoTop => {
                    self.scroll = 0;
                },
                HelpKey::SearchStart => {
                    self.search_input = true;
                    self.input_buffer = String::new();
                },
                HelpKey::SearchNext => {
                    if self.search_query.is_some() {
                        self.scroll = Self::next_match(indices, self.scroll);
                    }
                },
                HelpKey::SearchPrev => {
                    if self.search_query.is_some() {
                        self.scroll = Self::prev_match(indices, self.scroll);
                    }
                },
                HelpKey::ToggleAll => {
                    self.show_all = !self.show_all;
                    self.scroll = 0;
                },
                _ => {},
            }
        }
    }
}

// ---------------------------------------------------------------------------
// Laws of navigation
// ---------------------------------------------------------------------------

proof fn lemma_not_on_stack(s: Seq<ViewKind>, v: ViewKind)
    requires
        !s.contains(v),
    ensures
        stack_position(s, v) is None,
{
    if exists|i: int| 0 <= i < s.len() && s[i] == v {
        let i = choose|i: int| 0 <= i < s.len() && s[i] == v;
        assert(s.contains(v));
    }
}

/// Going back right after moving forward to a new view returns to where
/// navigation started, with the breadcrumb as it was.
pub proof fn law_back_undoes_go(s: Seq<ViewKind>, cur: ViewKind, v: ViewKind)
    requires
        s.no_duplicates(),
        !s.contains(cur),
        v != cur,
        !s.contains(v),
    ensures
        stack_after_go(s, cur, v).len() > 0,
        stack_after_go(s, cur, v).last() == cur,
        stack_after_go(s, cur, v).drop_last() == s,
{
    lemma_not_on_stack(s, v);
    assert(s.push(cur).drop_last() =~= s);
}

/// Moving forward to a view already on the breadcrumb returns to it: the
/// breadcrumb is cut back to what lay below it.
pub proof fn law_go_to_ancestor_truncates(s: Seq<ViewKind>, cur: ViewKind, p: int)
    requires
        s.no_duplicates(),
        0 <= p < s.len(),
    ensures
        stack_after_go(s, cur, s[p]) == s.subrange(0, p),
{
    let v = s[p];
    assert(exists|i: int| 0 <= i < s.len() && s[i] == v);
    let q = choose|i: int| 0 <= i < s.len() && s[i] == v;
    if q != p {
        assert(s[q] == s[p]);
    }
}

/// The breadcrumb stays a path: after moving forward it has no view twice
/// and does not hold the new current view.
pub proof fn law_breadcrumb_stays_a_path(s: Seq<ViewKind>, cur: ViewKind, v: ViewKind)
    requires
        s.no_duplicates(),
        !s.contains(cur),
        v != cur,
    ensures
        stack_after_go(s, cur, v).no_duplicates(),
        !stack_after_go(s, cur, v).contains(v),
{
    match stack_position(s, v) {
        Some(p) => {
            assert(0 <= p < s.len() && s[p] == v);
            let t = s.subrange(0, p);
            assert forall|i: int, j: int| 0 <= i < t.len() && 0 <= j < t.len() && i != j implies t[i] != t[j] by {
                assert(t[i] == s[i] && t[j] == s[j]);
            }
            assert forall|i: int| 0 <= i < t.len() implies t[i] != v by {
                assert(t[i] == s[i]);
            }
        },
        None => {
            let t = s.push(cur);
            assert forall|i: int, j: int| 0 <= i < t.len() && 0 <= j < t.len() && i != j implies t[i] != t[j] by {
                if i < s.len() && j < s.len() {
                    assert(t[i] == s[i] && t[j] == s[j]);
                } else if i < s.len() {
                    assert(t[i] == s[i]);
                } else {
                    assert(t[j] == s[j]);
                }
            }
            assert forall|i: int| 0 <= i < t.len() implies t[i] != v by {
                if i < s.len() {
                    assert(t[i] == s[i]);
                    if s[i] == v {
                        assert(exists|k: int| 0 <= k < s.len() && s[k] == v);
                    }
                }
            }
        },
    }
}

/// Entering a view reloads only its own data, and only when it is dirty;
/// the other views keep their flags.
pub proof fn law_reload_only_the_entered_view(v: ViewKind, d: DirtyFlags)
    ensures
        reload_for(v, d).0 != Reload::Nothing ==> d != reload_for(v, d).1,
        v != ViewKind::Log ==> reload_for(v, d).1.log == d.log,
        v != ViewKind::Status ==> reload_for(v, d).1.status == d.status,
        v != ViewKind::Operation ==> reload_for(v, d).1.op_log == d.op_log,
        v != ViewKind::Bookmark ==> reload_for(v, d).1.bookmarks == d.bookmarks,
        reload_for(v, reload_for(v, d).1).0 == Reload::Nothing,
{
}

/// Entering a view whose data is stale reloads exactly that data and marks
/// it fresh, leaving the other flags alone: the log view reloads the log,
/// the status view the status, the operation view the operation log, the
/// bookmark view the bookmarks. Fresh data, or any other view, reloads
/// nothing and changes no flag.
pub proof fn law_stale_view_reloads(v: ViewKind, d: DirtyFlags)
    ensures
        v == ViewKind::Log && d.log ==> reload_for(v, d) == (
            Reload::Log,
            DirtyFlags { log: false, status: d.status, op_log: d.op_log, bookmarks: d.bookmarks },
        ),
        v == ViewKind::Status && d.status ==> reload_for(v, d) == (
            Reload::Status,
            DirtyFlags { log: d.log, status: false, op_log: d.op_log, bookmarks: d.bookmarks },
        ),
        v == ViewKind::Operation && d.op_log ==> reload_for(v, d) == (
            Reload::OperationLog,
            DirtyFlags { log: d.log, status: d.status, op_log: false, bookmarks: d.bookmarks },
        ),
        v == ViewKind::Bookmark && d.bookmarks ==> reload_for(v, d) == (
            Reload::Bookmarks,
            DirtyFlags { log: d.log, status: d.status, op_log: d.op_log, bookmarks: false },
        ),
        !(v == ViewKind::Log && d.log) && !(v == ViewKind::Status && d.status) && !(v == ViewKind::Operation
            && d.op_log) && !(v == ViewKind::Bookmark && d.bookmarks) ==> reload_for(v, d) == (Reload::Nothing, d),
{
}

/// Marking data stale while its view is shown reloads it at once: after
/// `affected` is marked in view `v`, the view reloads when its own data was
/// or became stale, and every other flag is the union of the old and the
/// marked ones.
pub proof fn law_marking_the_visible_view_reloads_it(v: ViewKind, d: DirtyFlags, affected: DirtyFlags)
    ensures
        v == ViewKind::Log && (d.log || affected.log) ==> reload_for(v, merged(d, affected)).0 == Reload::Log,
        v == ViewKind::Status && (d.status || affected.status) ==> reload_for(v, merged(d, affected)).0
            == Reload::Status,
        v == ViewKind::Operation && (d.op_log || affected.op_log) ==> reload_for(v, merged(d, affected)).0
            == Reload::OperationLog,
        v == ViewKind::Bookmark && (d.bookmarks || affected.bookmarks) ==> reload_for(v, merged(d, affected)).0
            == Reload::Bookmarks,
        v != ViewKind::Log ==> reload_for(v, merged(d, affected)).1.log == (d.log || affected.log),
        v != ViewKind::Status ==> reload_for(v, merged(d, affected)).1.status == (d.status || affected.status),
        v != ViewKind::Operation ==> reload_for(v, merged(d, affected)).1.op_log == (d.op_log || affected.op_log),
        v != ViewKind::Bookmark ==> reload_for(v, merged(d, affected)).1.bookmarks == (d.bookmarks
            || affected.bookmarks),
{
}

/// A forced refresh clears only the refreshed view's flag.
pub proof fn law_forced_refresh_keeps_other_flags(v: ViewKind, d: DirtyFlags)
    ensures
        v != ViewKind::Log ==> after_forced_refresh(v, d).log == d.log,
        v != ViewKind::Status ==> after_forced_refresh(v, d).status == d.status,
        v != ViewKind::Operation ==> after_forced_refresh(v, d).op_log == d.op_log,
        v != ViewKind::Bookmark ==> after_forced_refresh(v, d).bookmarks == d.bookmarks,
{
}

/// The reload a repository-wide operation (undo, redo) needs in views
/// without a dirty flag; the others reload through their flags.
pub fn reload_after_op(view: ViewKind) -> (r: ForcedReload)
    ensures
        r == (match view {
            ViewKind::Tag => ForcedReload::Tags,
            ViewKind::Workspace => ForcedReload::Workspaces,
            ViewKind::Resolve => ForcedReload::ResolveList,
            _ => ForcedReload::Nothing,
        }),
{
    match view {
        ViewKind::Tag => ForcedReload::Tags,
        ViewKind::Workspace => ForcedReload::Workspaces,
        ViewKind::Resolve => ForcedReload::ResolveList,
        _ => ForcedReload::Nothing,
    }
}

/// Whether jj undo/redo applies in `view` (read-only views are excluded).
pub fn view_allows_undo(view: ViewKind) -> (r: bool)
    ensures
        r == allows_undo(view),
{
    view == ViewKind::Log || view == ViewKind::Status || view == ViewKind::Bookmark || view == ViewKind::Tag
        || view == ViewKind::Workspace || view == ViewKind::Operation || view == ViewKind::Resolve
}

/// Install a freshly loaded log: its rows replace the old ones (the cursor
/// goes back to the first row when it falls off the end), the deferred
/// preview fetch is dropped, the preview cache is checked against the new
/// rows. Returns whether the log limit `limit` probably cut the list.
pub fn refresh_log<C>(
    nav: &mut ViewState,
    log: &mut LogView,
    cache: &mut PreviewCache<C>,
    changes: Vec<Change>,
    limit: usize,
) -> (truncated: bool)
    requires
        old(cache).wf(),
    ensures
        final(log).changes@ == changes@,
        final(log).selected_index == (if old(log).selected_index < changes@.len() {
            old(log).selected_index
        } else {
            0
        }),
        final(nav).preview_pending_id is None,
        final(nav).current_view == old(nav).current_view,
        final(nav).view_stack@ == old(nav).view_stack@,
        final(nav).dirty == old(nav).dirty,
        final(nav).running == old(nav).running,
        final(nav).preview_enabled == old(nav).preview_enabled,
        final(cache).wf(),
        final(cache).entries() == validated(old(cache).entries(), changes@),
        truncated == (selectable_count(changes@) >= limit),
{
    nav.preview_pending_id = None;
    let truncated = log_truncated(changes.as_slice(), limit);
    log.changes = changes;
    if log.selected_index >= log.changes.len() {
        log.selected_index = 0;
    }
    cache.validate(log.changes.as_slice());
    truncated
}

/// Moving the palette highlight by some steps and back by as many returns
/// to the command it was on.
pub proof fn law_palette_move_round_trip(selected: int, len: int, delta: int)
    requires
        0 <= selected < len,
    ensures
        ((selected + delta) % len - delta) % len == selected,
{
    let q = (selected + delta) / len;
    vstd::arithmetic::div_mod::lemma_fundamental_div_mod(selected + delta, len);
    assert((selected + delta) % len - delta == len * (-q) + selected) by (nonlinear_arith)
        requires
            selected + delta == len * q + (selected + delta) % len,
    ;
    vstd::arithmetic::div_mod::lemma_mod_multiples_vanish(-q, selected, len);
    vstd::arithmetic::div_mod::lemma_small_mod(selected as nat, len as nat);
}

} // verus!
