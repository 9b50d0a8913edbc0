//! Application state that outlives a single jj command: which data needs
//! refreshing, the preview cache, and the view breadcrumb.
use vstd::prelude::*;

use crate::revision::Change;
use crate::text::{str_eq, string_from};

verus! {

// ===========================================================================
// Dirty flags
// ===========================================================================

/// Tracks which data needs refreshing after a jj operation.
///
/// All write operations set `op_log` since they create a new jj operation.
#[derive(Debug, Clone, Copy, PartialEq, Eq, Structural)]
pub struct DirtyFlags {
    pub log: bool,
    pub status: bool,
    pub op_log: bool,
    pub bookmarks: bool,
}

impl Default for DirtyFlags {
    /// No data is stale.
    fn default() -> (r: Self)
        ensures
            r == (DirtyFlags { log: false, status: false, op_log: false, bookmarks: false }),
    {
        DirtyFlags { log: false, status: false, op_log: false, bookmarks: false }
    }
}

impl DirtyFlags {
    /// Log and operation log (metadata-only changes like describe).
    pub fn log() -> (r: Self)
        ensures
            r == (DirtyFlags { log: true, status: false, op_log: true, bookmarks: false }),
    {
        DirtyFlags { log: true, status: false, op_log: true, bookmarks: false }
    }

    /// Log and status (most write operations).
    pub fn log_and_status() -> (r: Self)
        ensures
            r == (DirtyFlags { log: true, status: true, op_log: true, bookmarks: false }),
    {
        DirtyFlags { log: true, status: true, op_log: true, bookmarks: false }
    }

    /// Log and bookmarks (bookmark create/delete/move).
    pub fn log_and_bookmarks() -> (r: Self)
        ensures
            r == (DirtyFlags { log: true, status: false, op_log: true, bookmarks: true }),
    {
        DirtyFlags { log: true, status: false, op_log: true, bookmarks: true }
    }

    /// All flags dirty (fetch, undo, redo, op restore).
    pub fn all() -> (r: Self)
        ensures
            r == (DirtyFlags { log: true, status: true, op_log: true, bookmarks: true }),
    {
        DirtyFlags { log: true, status: true, op_log: true, bookmarks: true }
    }
}

// ===========================================================================
// Preview cache
// ===========================================================================

/// Entries the preview cache holds at most.
pub const PREVIEW_CACHE_CAPACITY: usize = 8;

/// One cached preview: the rendered content of a change at a given commit,
/// with the bookmarks shown beside it.
#[derive(Debug)]
pub struct PreviewCacheEntry<C> {
    pub change_id: String,
    pub commit_id: String,
    pub content: C,
    pub bookmarks: Vec<String>,
}

/// LRU preview cache, oldest use first and most recent use last.
#[derive(Debug)]
pub struct PreviewCache<C> {
    entries: std::collections::VecDeque<PreviewCacheEntry<C>>,
    capacity: usize,
}

/// What a cached entry holds, as values.
pub struct EntryView<C> {
    pub change_id: Seq<char>,
    pub commit_id: Seq<char>,
    pub content: C,
    pub bookmarks: Seq<String>,
}

/// The value view of one entry.
pub open spec fn entry_view<C>(e: PreviewCacheEntry<C>) -> EntryView<C> {
    EntryView {
        change_id: e.change_id@,
        commit_id: e.commit_id@,
        content: e.content,
        bookmarks: e.bookmarks@,
    }
}

/// The value views of a sequence of entries.
pub open spec fn entry_views<C>(s: Seq<PreviewCacheEntry<C>>) -> Seq<EntryView<C>> {
    s.map_values(|e: PreviewCacheEntry<C>| entry_view(e))
}

/// No change id occurs twice.
pub open spec fn unique_ids<C>(s: Seq<EntryView<C>>) -> bool {
    forall|i: int, j: int|
        0 <= i < s.len() && 0 <= j < s.len() && i != j ==> #[trigger] s[i].change_id
            != #[trigger] s[j].change_id
}

/// `s` with every entry for `id` removed, order kept.
pub open spec fn without_id<C>(s: Seq<EntryView<C>>, id: Seq<char>) -> Seq<
    EntryView<C>,
>
    decreases s.len(),
{
    if s.len() == 0 {
        s
    } else {
        let rest = without_id(s.drop_last(), id);
        if s.last().change_id == id {
            rest
        } else {
            rest.push(s.last())
        }
    }
}

/// Position of the entry for `id`, if any.
pub open spec fn position_of<C>(s: Seq<EntryView<C>>, id: Seq<char>) -> Option<int> {
    if exists|i: int| 0 <= i < s.len() && #[trigger] s[i].change_id == id {
        Some(choose|i: int| 0 <= i < s.len() && #[trigger] s[i].change_id == id)
    } else {
        None
    }
}

/// The cache contents after inserting `e`: any old entry for its change id
/// goes, the least recently used entry goes when the cache is full, and `e`
/// becomes the most recently used.
pub open spec fn inserted<C>(s: Seq<EntryView<C>>, e: EntryView<C>, cap: nat) -> Seq<
    EntryView<C>,
> {
    let r = without_id(s, e.change_id);
    let r2 = if r.len() >= cap && r.len() > 0 {
        r.drop_first()
    } else {
        r
    };
    r2.push(e)
}

/// The cache contents after using the entry for `id`: it moves to the most
/// recently used end; nothing changes when there is none.
pub open spec fn touched<C>(s: Seq<EntryView<C>>, id: Seq<char>) -> Seq<EntryView<C>> {
    match position_of(s, id) {
        Some(p) => s.remove(p).push(s[p]),
        None => s,
    }
}

/// Index of the first log row that draws a revision (not graph only) with the
/// given change id, searching from `i`.
pub open spec fn live_row_from(changes: Seq<Change>, id: Seq<char>, i: int) -> Option<int>
    decreases changes.len() - i,
{
    if i < 0 || i >= changes.len() {
        None
    } else if !changes[i].is_graph_only && changes[i].change_id@ == id {
        Some(i)
    } else {
        live_row_from(changes, id, i + 1)
    }
}

/// Whether a cached entry still shows the change as the log lists it.
pub open spec fn entry_current<C>(e: EntryView<C>, changes: Seq<Change>) -> bool {
    match live_row_from(changes, e.change_id, 0) {
        Some(j) => changes[j].commit_id@ == e.commit_id,
        None => false,
    }
}

/// An entry as validation keeps it: same content, bookmarks of its log row.
pub open spec fn refreshed_entry<C>(e: EntryView<C>, changes: Seq<Change>) -> EntryView<C> {
    match live_row_from(changes, e.change_id, 0) {
        Some(j) => EntryView { bookmarks: changes[j].bookmarks@, ..e },
        None => e,
    }
}

/// The cache contents after validation against the log: stale and absent
/// entries go, the others take the bookmarks of their row; order kept.
pub open spec fn validated<C>(s: Seq<EntryView<C>>, changes: Seq<Change>) -> Seq<
    EntryView<C>,
>
    decreases s.len(),
{
    if s.len() == 0 {
        s
    } else {
        let rest = validated(s.drop_last(), changes);
        if entry_current(s.last(), changes) {
            rest.push(refreshed_entry(s.last(), changes))
        } else {
            rest
        }
    }
}

/// Removing entries keeps the rest, in order, as a subsequence whose ids
/// all differ from `id`.
pub proof fn lemma_without_id<C>(s: Seq<EntryView<C>>, id: Seq<char>)
    ensures
        without_id(s, id).len() <= s.len(),
        forall|k: int|
            0 <= k < without_id(s, id).len() ==> #[trigger] without_id(s, id)[k].change_id != id,
        forall|k: int|
            0 <= k < without_id(s, id).len() ==> s.contains(#[trigger] without_id(s, id)[k]),
        forall|k: int|
            0 <= k < s.len() && s[k].change_id != id ==> without_id(s, id).contains(#[trigger] s[k]),
        unique_ids(s) ==> unique_ids(without_id(s, id)),
        (forall|k: int| 0 <= k < s.len() ==> s[k].change_id != id) ==> without_id(s, id) == s,
    decreases s.len(),
{
    if s.len() > 0 {
        let d = s.drop_last();
        lemma_without_id(d, id);
        let rest = without_id(d, id);
        assert forall|k: int| 0 <= k < without_id(s, id).len() implies s.contains(
            #[trigger] without_id(s, id)[k],
        ) by {
            if k < rest.len() {
                let w = choose|w: int| 0 <= w < d.len() && d[w] == rest[k];
                assert(s[w] == d[w]);
            } else {
                assert(s[s.len() - 1] == s.last());
            }
        }
        assert forall|k: int| 0 <= k < s.len() && s[k].change_id != id implies without_id(
            s,
            id,
        ).contains(#[trigger] s[k]) by {
            if k < s.len() - 1 {
                assert(d[k] == s[k]);
                let w = choose|w: int| 0 <= w < rest.len() && rest[w] == d[k];
                assert(without_id(s, id)[w] == rest[w]);
            } else {
                assert(without_id(s, id)[without_id(s, id).len() - 1] == s.last());
            }
        }
        if unique_ids(s) {
            assert(unique_ids(d)) by {
                assert forall|i: int, j: int|
                    0 <= i < d.len() && 0 <= j < d.len() && i != j implies #[trigger] d[i].change_id
                    != #[trigger] d[j].change_id by {
                    assert(d[i] == s[i] && d[j] == s[j]);
                }
            }
            if s.last().change_id != id {
                let r = rest.push(s.last());
                assert forall|i: int, j: int|
                    0 <= i < r.len() && 0 <= j < r.len() && i != j implies #[trigger] r[i].change_id
                    != #[trigger] r[j].change_id by {
                    if i < rest.len() && j < rest.len() {
                        assert(r[i] == rest[i] && r[j] == rest[j]);
                    } else if i < rest.len() {
                        let w = choose|w: int| 0 <= w < d.len() && d[w] == rest[i];
                        assert(s[w] == d[w]);
                        assert(s[s.len() - 1] == s.last());
                    } else {
                        let w = choose|w: int| 0 <= w < d.len() && d[w] == rest[j];
                        assert(s[w] == d[w]);
                        assert(s[s.len() - 1] == s.last());
                    }
                }
            }
        }
        if forall|k: int| 0 <= k < s.len() ==> s[k].change_id != id {
            assert forall|k: int| 0 <= k < d.len() implies d[k].change_id != id by {
                assert(d[k] == s[k]);
            }
            assert(s.last() == s[s.len() - 1]);
            assert(rest == d);
            assert(d.push(s.last()) =~= s);
        }
    }
}

/// Viewing commutes with the sequence operations the cache uses.
proof fn lemma_views_push<C>(s: Seq<PreviewCacheEntry<C>>, e: PreviewCacheEntry<C>)
    ensures
        entry_views(s.push(e)) == entry_views(s).push(entry_view(e)),
{
    assert(entry_views(s.push(e)) =~= entry_views(s).push(entry_view(e)));
}

impl<C> PreviewCache<C> {
    /// The cached entries as values, least recently used first.
    pub closed spec fn entries(&self) -> Seq<EntryView<C>> {
        entry_views(self.entries@)
    }

    /// How many entries the cache keeps before evicting.
    pub closed spec fn capacity(&self) -> nat {
        self.capacity as nat
    }

    /// At most eight entries, no change id twice.
    pub closed spec fn wf(&self) -> bool {
        &&& self.capacity == PREVIEW_CACHE_CAPACITY
        &&& self.entries@.len() <= PREVIEW_CACHE_CAPACITY
        &&& unique_ids(entry_views(self.entries@))
    }

    /// The cache holds at most eight entries and no change id twice.
    pub proof fn lemma_wf(&self)
        requires
            self.wf(),
        ensures
            self.capacity() == PREVIEW_CACHE_CAPACITY,
            self.entries().len() <= self.capacity(),
            unique_ids(self.entries()),
    {
    }

    /// An empty cache with capacity eight.
    pub fn new() -> (r: Self)
        ensures
            r.wf(),
            r.capacity() == PREVIEW_CACHE_CAPACITY,
            r.entries() == Seq::<EntryView<C>>::empty(),
    {
        let r = PreviewCache {
            entries: std::collections::VecDeque::new(),
            capacity: PREVIEW_CACHE_CAPACITY,
        };
        assert(entry_views(r.entries@) =~= Seq::<EntryView<C>>::empty());
        r
    }

    /// Position of the entry for `change_id`, if any.
    fn find(&self, change_id: &str) -> (r: Option<usize>)
        ensures
            match r {
                Some(p) => p < self.entries@.len() && self.entries@[p as int].change_id@
                    == change_id@,
                None => forall|k: int|
                    0 <= k < self.entries@.len() ==> self.entries@[k].change_id@ != change_id@,
            },
    {
        let n = self.entries.len();
        let mut i: usize = 0;
        while i < n
            invariant
                n == self.entries@.len(),
                i <= n,
                forall|k: int| 0 <= k < i ==> self.entries@[k].change_id@ != change_id@,
            decreases n - i,
        {
            if str_eq(self.entries[i].change_id.as_str(), change_id) {
                return Some(i);
            }
            i = i + 1;
        }
        None
    }

    /// The entry for `change_id`, without changing its recency.
    pub fn peek(&self, change_id: &str) -> (r: Option<&PreviewCacheEntry<C>>)
        requires
            self.wf(),
        ensures
            match position_of(self.entries(), change_id@) {
                Some(p) => r is Some && entry_view(*r->0) == self.entries()[p],
                None => r is None,
            },
    {
        let ghost v = entry_views(self.entries@);
        match self.find(change_id) {
            Some(p) => {
                proof {
                    assert(v[p as int].change_id == change_id@);
                    let q = choose|i: int| 0 <= i < v.len() && #[trigger] v[i].change_id == change_id@;
                    if q != p {
                        assert(v[q].change_id != v[p as int].change_id);
                    }
                }
                Some(&self.entries[p])
            },
            None => {
                proof {
                    assert forall|k: int| 0 <= k < v.len() implies #[trigger] v[k].change_id
                        != change_id@ by {
                        assert(v[k].change_id == self.entries@[k].change_id@);
                    }
                }
                None
            },
        }
    }

    /// Promote the entry for `change_id` to most recently used.
    pub fn touch(&mut self, change_id: &str)
        requires
            old(self).wf(),
        ensures
            final(self).wf(),
            final(self).entries() == touched(old(self).entries(), change_id@),
    {
        let ghost v = entry_views(self.entries@);
        match self.find(change_id) {
            Some(p) => {
                let ghost s = self.entries@;
                proof {
                    assert(v[p as int].change_id == change_id@);
                    let q = choose|i: int| 0 <= i < v.len() && #[trigger] v[i].change_id == change_id@;
                    if q != p {
                        assert(v[q].change_id != v[p as int].change_id);
                    }
                }
                let e = self.entries.remove(p).unwrap();
                self.entries.push_back(e);
                proof {
                    let t = self.entries@;
                    assert(t == s.remove(p as int).push(s[p as int]));
                    assert(entry_views(t) =~= v.remove(p as int).push(v[p as int]));
                    let tv = entry_views(t);
                    assert forall|i: int, j: int|
                        0 <= i < tv.len() && 0 <= j < tv.len() && i != j implies #[trigger] tv[i].change_id
                        != #[trigger] tv[j].change_id by {
                        let si = if i == tv.len() - 1 {
                            p as int
                        } else if i < p {
                            i
                        } else {
                            i + 1
                        };
                        let sj = if j == tv.len() - 1 {
                            p as int
                        } else if j < p {
                            j
                        } else {
                            j + 1
                        };
                        assert(tv[i] == v[si]);
                        assert(tv[j] == v[sj]);
                    }
                }
            },
            None => {
                proof {
                    assert forall|k: int| 0 <= k < v.len() implies #[trigger] v[k].change_id
                        != change_id@ by {
                        assert(v[k].change_id == self.entries@[k].change_id@);
                    }
                }
            },
        }
    }

    /// Drops every entry for `change_id`, keeping the order of the rest.
    fn retain_other(&mut self, change_id: &str)
        requires
            old(self).wf(),
        ensures
            final(self).capacity == old(self).capacity,
            final(self).entries() == without_id(old(self).entries(), change_id@),
            unique_ids(final(self).entries()),
            final(self).entries@.len() <= old(self).entries@.len(),
    {
        let ghost s = self.entries@;
        let ghost sv = entry_views(s);
        let n = self.entries.len();
        let mut kept: std::collections::VecDeque<PreviewCacheEntry<C>> =
            std::collections::VecDeque::new();
        let mut i: usize = 0;
        proof {
            assert(entry_views(kept@) =~= without_id(sv.subrange(0, 0), change_id@));
        }
        while i < n
            invariant
                n == s.len(),
                sv == entry_views(s),
                i <= n,
                self.entries@ == s.subrange(i as int, n as int),
                entry_views(kept@) == without_id(sv.subrange(0, i as int), change_id@),
                self.capacity == old(self).capacity,
            decreases n - i,
        {
            let e = self.entries.pop_front().unwrap();
            proof {
                assert(sv.subrange(0, i + 1).drop_last() =~= sv.subrange(0, i as int));
                assert(sv.subrange(0, i + 1).last() == entry_view(e));
            }
            if !str_eq(e.change_id.as_str(), change_id) {
                proof {
                    lemma_views_push(kept@, e);
                }
                kept.push_back(e);
            }
            i = i + 1;
            proof {
                assert(self.entries@ =~= s.subrange(i as int, n as int));
            }
        }
        proof {
            assert(sv.subrange(0, n as int) =~= sv);
            lemma_without_id(sv, change_id@);
        }
        self.entries = kept;
    }

    /// Inserts `entry`, replacing any entry for its change id; when the cache
    /// is full the least recently used entry is evicted.
    pub fn insert(&mut self, entry: PreviewCacheEntry<C>)
        requires
            old(self).wf(),
        ensures
            final(self).wf(),
            final(self).entries() == inserted(
                old(self).entries(),
                entry_view(entry),
                old(self).capacity(),
            ),
            final(self).capacity() == old(self).capacity(),
    {
        self.retain_other(entry.change_id.as_str());
        let ghost r = entry_views(self.entries@);
        let ghost raw = self.entries@;
        if self.entries.len() >= self.capacity {
            let _ = self.entries.pop_front();
        }
        let ghost r2 = entry_views(self.entries@);
        proof {
            lemma_without_id(old(self).entries(), entry.change_id@);
            if raw.len() >= PREVIEW_CACHE_CAPACITY {
                assert(r2 =~= r.drop_first());
            } else {
                assert(r2 =~= r);
            }
            assert forall|k: int| 0 <= k < r2.len() implies #[trigger] r2[k].change_id
                != entry.change_id@ by {
                if raw.len() >= PREVIEW_CACHE_CAPACITY {
                    assert(r2[k] == r[k + 1]);
                } else {
                    assert(r2[k] == r[k]);
                }
            }
            assert(unique_ids(r2)) by {
                assert forall|i: int, j: int|
                    0 <= i < r2.len() && 0 <= j < r2.len() && i != j implies #[trigger] r2[i].change_id
                    != #[trigger] r2[j].change_id by {
                    if raw.len() >= PREVIEW_CACHE_CAPACITY {
                        assert(r2[i] == r[i + 1] && r2[j] == r[j + 1]);
                    } else {
                        assert(r2[i] == r[i] && r2[j] == r[j]);
                    }
                }
            }
            lemma_views_push(self.entries@, entry);
        }
        self.entries.push_back(entry);
        proof {
            let t = entry_views(self.entries@);
            assert(t == r2.push(entry_view(entry)));
            assert forall|i: int, j: int|
                0 <= i < t.len() && 0 <= j < t.len() && i != j implies #[trigger] t[i].change_id
                != #[trigger] t[j].change_id by {
                if i < r2.len() && j < r2.len() {
                    assert(t[i] == r2[i] && t[j] == r2[j]);
                } else if i < r2.len() {
                    assert(t[i] == r2[i]);
                } else {
                    assert(t[j] == r2[j]);
                }
            }
        }
    }

    /// Removes the entry for `change_id`, if any.
    pub fn remove(&mut self, change_id: &str)
        requires
            old(self).wf(),
        ensures
            final(self).wf(),
            final(self).entries() == without_id(old(self).entries(), change_id@),
    {
        self.retain_other(change_id);
    }

    /// Validates entries against the current log: entries whose commit id no
    /// longer matches their (non graph-only) row, or that have no row, are
    /// evicted; the others take the row's bookmarks.
    pub fn validate(&mut self, changes: &[Change])
        requires
            old(self).wf(),
        ensures
            final(self).wf(),
            final(self).entries() == validated(old(self).entries(), changes@),
    {
        let ghost s = self.entries@;
        let ghost sv = entry_views(s);
        let n = self.entries.len();
        let mut kept: std::collections::VecDeque<PreviewCacheEntry<C>> =
            std::collections::VecDeque::new();
        let mut i: usize = 0;
        proof {
            assert(entry_views(kept@) =~= validated(sv.subrange(0, 0), changes@));
        }
        while i < n
            invariant
                n == s.len(),
                sv == entry_views(s),
                i <= n,
                self.entries@ == s.subrange(i as int, n as int),
                entry_views(kept@) == validated(sv.subrange(0, i as int), changes@),
                kept@.len() <= i,
                self.capacity == old(self).capacity,
            decreases n - i,
        {
            let mut e = self.entries.pop_front().unwrap();
            let ghost e0 = entry_view(e);
            proof {
                assert(sv.subrange(0, i + 1).drop_last() =~= sv.subrange(0, i as int));
                assert(sv.subrange(0, i + 1).last() == e0);
            }
            match live_row(changes, e.change_id.as_str()) {
                Some(j) => {
                    if str_eq(changes[j].commit_id.as_str(), e.commit_id.as_str()) {
                        e.bookmarks = clone_strings(changes[j].bookmarks.as_slice());
                        proof {
                            assert(entry_view(e) == refreshed_entry(e0, changes@));
                            lemma_views_push(kept@, e);
                        }
                        kept.push_back(e);
                    }
                },
                None => {},
            }
            i = i + 1;
            proof {
                assert(self.entries@ =~= s.subrange(i as int, n as int));
            }
        }
        proof {
            assert(sv.subrange(0, n as int) =~= sv);
            lemma_validated(sv, changes@);
        }
        self.entries = kept;
    }

    /// Removes every entry.
    pub fn clear(&mut self)
        requires
            old(self).wf(),
        ensures
            final(self).wf(),
            final(self).entries() == Seq::<EntryView<C>>::empty(),
    {
        self.entries.clear();
        assert(entry_views(self.entries@) =~= Seq::<EntryView<C>>::empty());
    }

    /// Number of cached entries.
    pub fn len(&self) -> (r: usize)
        ensures
            r == self.entries().len(),
    {
        self.entries.len()
    }
}

/// Validation keeps a subsequence of refreshed entries, so ids stay unique
/// and the length cannot grow.
pub proof fn lemma_validated<C>(s: Seq<EntryView<C>>, changes: Seq<Change>)
    ensures
        validated(s, changes).len() <= s.len(),
        forall|k: int|
            0 <= k < validated(s, changes).len() ==> exists|w: int|
                0 <= w < s.len() && #[trigger] validated(s, changes)[k].change_id == s[w].change_id,
        unique_ids(s) ==> unique_ids(validated(s, changes)),
    decreases s.len(),
{
    if s.len() > 0 {
        let d = s.drop_last();
        lemma_validated(d, changes);
        let rest = validated(d, changes);
        assert forall|k: int| 0 <= k < validated(s, changes).len() implies exists|w: int|
            0 <= w < s.len() && #[trigger] validated(s, changes)[k].change_id == s[w].change_id by {
            if k < rest.len() {
                let w = choose|w: int| 0 <= w < d.len() && rest[k].change_id == d[w].change_id;
                assert(s[w] == d[w]);
            } else {
                assert(s[s.len() - 1] == s.last());
            }
        }
        if unique_ids(s) {
            assert(unique_ids(d)) by {
                assert forall|i: int, j: int|
                    0 <= i < d.len() && 0 <= j < d.len() && i != j implies #[trigger] d[i].change_id
                    != #[trigger] d[j].change_id by {
                    assert(d[i] == s[i] && d[j] == s[j]);
                }
            }
            if entry_current(s.last(), changes) {
                let r = rest.push(refreshed_entry(s.last(), changes));
                assert forall|i: int, j: int|
                    0 <= i < r.len() && 0 <= j < r.len() && i != j implies #[trigger] r[i].change_id
                    != #[trigger] r[j].change_id by {
                    if i < rest.len() && j < rest.len() {
                        assert(r[i] == rest[i] && r[j] == rest[j]);
                    } else if i < rest.len() {
                        let w = choose|w: int| 0 <= w < d.len() && rest[i].change_id == d[w].change_id;
                        assert(s[w] == d[w]);
                        assert(s[s.len() - 1] == s.last());
                    } else {
                        let w = choose|w: int| 0 <= w < d.len() && rest[j].change_id == d[w].change_id;
                        assert(s[w] == d[w]);
                        assert(s[s.len() - 1] == s.last());
                    }
                }
            }
        }
    }
}

// ---------------------------------------------------------------------------
// Laws of the preview cache
// ---------------------------------------------------------------------------

proof fn lemma_position_of_at<C>(s: Seq<EntryView<C>>, id: Seq<char>, i: int)
    requires
        unique_ids(s),
        0 <= i < s.len(),
        s[i].change_id == id,
    ensures
        position_of(s, id) == Some(i),
{
    assert(s[i].change_id == id);
    let q = choose|q: int| 0 <= q < s.len() && #[trigger] s[q].change_id == id;
    if q != i {
        assert(s[q].change_id != s[i].change_id);
    }
}

/// A cache that keeps its bound and unique ids after an insert.
proof fn lemma_inserted_shape<C>(s: Seq<EntryView<C>>, e: EntryView<C>)
    requires
        unique_ids(s),
        s.len() <= PREVIEW_CACHE_CAPACITY,
    ensures
        inserted(s, e, PREVIEW_CACHE_CAPACITY as nat).len() <= PREVIEW_CACHE_CAPACITY,
        unique_ids(inserted(s, e, PREVIEW_CACHE_CAPACITY as nat)),
        inserted(s, e, PREVIEW_CACHE_CAPACITY as nat).last() == e,
{
    lemma_without_id(s, e.change_id);
    let r = without_id(s, e.change_id);
    let r2 = if r.len() >= PREVIEW_CACHE_CAPACITY && r.len() > 0 {
        r.drop_first()
    } else {
        r
    };
    let t = r2.push(e);
    assert forall|k: int| 0 <= k < r2.len() implies #[trigger] r2[k].change_id != e.change_id by {
        if r.len() >= PREVIEW_CACHE_CAPACITY && r.len() > 0 {
            assert(r2[k] == r[k + 1]);
        }
    }
    assert forall|i: int, j: int|
        0 <= i < t.len() && 0 <= j < t.len() && i != j implies #[trigger] t[i].change_id
        != #[trigger] t[j].change_id by {
        if i < r2.len() && j < r2.len() {
            if r.len() >= PREVIEW_CACHE_CAPACITY && r.len() > 0 {
                assert(r2[i] == r[i + 1] && r2[j] == r[j + 1]);
            }
            assert(t[i] == r2[i] && t[j] == r2[j]);
        } else if i < r2.len() {
            assert(t[i] == r2[i]);
        } else {
            assert(t[j] == r2[j]);
        }
    }
}

/// Read after write: right after an entry is inserted, looking its change id
/// up finds exactly that entry, now the most recently used.
pub proof fn law_insert_then_peek<C>(s: Seq<EntryView<C>>, e: EntryView<C>)
    requires
        unique_ids(s),
        s.len() <= PREVIEW_CACHE_CAPACITY,
    ensures
        position_of(inserted(s, e, PREVIEW_CACHE_CAPACITY as nat), e.change_id) == Some(
            inserted(s, e, PREVIEW_CACHE_CAPACITY as nat).len() - 1,
        ),
        inserted(s, e, PREVIEW_CACHE_CAPACITY as nat).last() == e,
{
    lemma_inserted_shape(s, e);
    let t = inserted(s, e, PREVIEW_CACHE_CAPACITY as nat);
    lemma_position_of_at(t, e.change_id, t.len() - 1);
}

/// The cache never holds more than eight entries, nor two for one change.
pub proof fn law_insert_keeps_bound<C>(s: Seq<EntryView<C>>, e: EntryView<C>)
    requires
        unique_ids(s),
        s.len() <= PREVIEW_CACHE_CAPACITY,
    ensures
        inserted(s, e, PREVIEW_CACHE_CAPACITY as nat).len() <= PREVIEW_CACHE_CAPACITY,
        unique_ids(inserted(s, e, PREVIEW_CACHE_CAPACITY as nat)),
{
    lemma_inserted_shape(s, e);
}

/// Inserting a new change into a full cache evicts the least recently used
/// entry and keeps the others in order.
pub proof fn law_insert_evicts_least_recent<C>(s: Seq<EntryView<C>>, e: EntryView<C>)
    requires
        unique_ids(s),
        s.len() == PREVIEW_CACHE_CAPACITY,
        position_of(s, e.change_id) is None,
    ensures
        inserted(s, e, PREVIEW_CACHE_CAPACITY as nat) == s.drop_first().push(e),
{
    assert forall|k: int| 0 <= k < s.len() implies s[k].change_id != e.change_id by {
        if s[k].change_id == e.change_id {
            assert(exists|i: int| 0 <= i < s.len() && #[trigger] s[i].change_id == e.change_id);
        }
    }
    lemma_without_id(s, e.change_id);
}

/// Re-inserting a cached change replaces its entry and evicts nothing.
pub proof fn law_reinsert_evicts_nothing<C>(s: Seq<EntryView<C>>, e: EntryView<C>)
    requires
        unique_ids(s),
        s.len() <= PREVIEW_CACHE_CAPACITY,
        position_of(s, e.change_id) is Some,
    ensures
        inserted(s, e, PREVIEW_CACHE_CAPACITY as nat) == without_id(s, e.change_id).push(e),
        without_id(s, e.change_id).len() == s.len() - 1,
{
    let p = position_of(s, e.change_id)->0;
    assert(0 <= p < s.len() && s[p].change_id == e.change_id);
    lemma_without_id_len(s, e.change_id, p);
}

proof fn lemma_without_id_len<C>(s: Seq<EntryView<C>>, id: Seq<char>, p: int)
    requires
        unique_ids(s),
        0 <= p < s.len(),
        s[p].change_id == id,
    ensures
        without_id(s, id).len() == s.len() - 1,
    decreases s.len(),
{
    let d = s.drop_last();
    assert(unique_ids(d)) by {
        assert forall|i: int, j: int|
            0 <= i < d.len() && 0 <= j < d.len() && i != j implies #[trigger] d[i].change_id
            != #[trigger] d[j].change_id by {
            assert(d[i] == s[i] && d[j] == s[j]);
        }
    }
    if p == s.len() - 1 {
        assert forall|k: int| 0 <= k < d.len() implies d[k].change_id != id by {
            assert(d[k] == s[k]);
        }
        lemma_without_id(d, id);
    } else {
        assert(d[p] == s[p]);
        lemma_without_id_len(d, id, p);
        assert(s.last() == s[s.len() - 1]);
    }
}

/// After removing a change, looking it up finds nothing.
pub proof fn law_remove_then_peek<C>(s: Seq<EntryView<C>>, id: Seq<char>)
    ensures
        position_of(without_id(s, id), id) is None,
{
    lemma_without_id(s, id);
}

/// Using an entry keeps the cached entries and makes it the most recently used.
pub proof fn law_touch_moves_to_most_recent<C>(s: Seq<EntryView<C>>, id: Seq<char>)
    requires
        unique_ids(s),
    ensures
        touched(s, id).len() == s.len(),
        touched(s, id).to_multiset() == s.to_multiset(),
        position_of(s, id) is Some ==> touched(s, id).last().change_id == id,
        position_of(s, id) is None ==> touched(s, id) == s,
{
    match position_of(s, id) {
        Some(p) => {
            assert(0 <= p < s.len() && s[p].change_id == id);
            let r = s.remove(p);
            broadcast use vstd::multiset::group_multiset_axioms;
            vstd::seq_lib::to_multiset_remove(s, p);
            vstd::seq_lib::to_multiset_build(r, s[p]);
            vstd::seq_lib::to_multiset_contains(s, s[p]);
            assert(s.contains(s[p]));
            assert(r.push(s[p]).to_multiset() =~= s.to_multiset());
        },
        None => {},
    }
}

/// Validating twice changes nothing the first validation did not.
pub proof fn law_validate_idempotent<C>(s: Seq<EntryView<C>>, changes: Seq<Change>)
    ensures
        validated(validated(s, changes), changes) == validated(s, changes),
    decreases s.len(),
{
    if s.len() > 0 {
        law_validate_idempotent(s.drop_last(), changes);
        let rest = validated(s.drop_last(), changes);
        if entry_current(s.last(), changes) {
            let e2 = refreshed_entry(s.last(), changes);
            assert(entry_current(e2, changes));
            assert(refreshed_entry(e2, changes) == e2);
            assert(rest.push(e2).drop_last() =~= rest);
        }
    }
}

// ---------------------------------------------------------------------------
// Preview scheduling
// ---------------------------------------------------------------------------

/// The cache has a current entry for `c`: same change id and same commit id.
pub open spec fn cache_hit<C>(entries: Seq<EntryView<C>>, c: Change) -> bool {
    match position_of(entries, c.change_id@) {
        Some(p) => entries[p].commit_id == c.commit_id@,
        None => false,
    }
}

/// After the log cursor moved: with the preview on and a row selected, a
/// current cached entry is marked used; otherwise the row's change id is
/// scheduled for fetching on the next idle tick (nothing is fetched here).
pub fn update_preview_if_needed<C>(
    enabled: bool,
    selected: Option<&Change>,
    cache: &mut PreviewCache<C>,
    pending: &mut Option<String>,
)
    requires
        old(cache).wf(),
    ensures
        final(cache).wf(),
        !enabled ==> final(cache).entries() == old(cache).entries() && *final(pending) == *old(pending),
        enabled ==> match selected {
            Some(c) => if cache_hit(old(cache).entries(), *c) {
                &&& final(cache).entries() == touched(old(cache).entries(), c.change_id@)
                &&& *final(pending) == *old(pending)
            } else {
                &&& final(cache).entries() == old(cache).entries()
                &&& *final(pending) == Some(c.change_id)
            },
            None => final(cache).entries() == old(cache).entries() && *final(pending) == *old(pending),
        },
{
    if !enabled {
        return;
    }
    let c = match selected {
        Some(c) => c,
        None => return,
    };
    let hit = match cache.peek(c.change_id.as_str()) {
        Some(e) => str_eq(e.commit_id.as_str(), c.commit_id.as_str()),
        None => false,
    };
    if hit {
        cache.touch(c.change_id.as_str());
    } else {
        *pending = Some(c.change_id.clone());
    }
}

/// On an idle tick: take the scheduled change id and return it for fetching
/// when it is still the selected row. Nothing happens while the preview is
/// off or hidden for lack of room (the schedule is kept then).
pub fn resolve_pending_preview(
    enabled: bool,
    auto_disabled: bool,
    selected: Option<&Change>,
    pending: &mut Option<String>,
) -> (r: Option<String>)
    ensures
        !enabled || auto_disabled ==> r is None && *final(pending) == *old(pending),
        enabled && !auto_disabled ==> *final(pending) is None && r == match *old(pending) {
            Some(id) => match selected {
                Some(c) => if c.change_id@ == id@ {
                    Some(id)
                } else {
                    None
                },
                None => None,
            },
            None => None,
        },
{
    if !enabled || auto_disabled {
        return None;
    }
    let taken = pending.take();
    match taken {
        Some(id) => {
            let still = match selected {
                Some(c) => str_eq(c.change_id.as_str(), id.as_str()),
                None => false,
            };
            if still {
                Some(id)
            } else {
                None
            }
        },
        None => None,
    }
}

/// Store the outcome of fetching the preview of `change_id`: the content
/// with the commit id and bookmarks of the selected row when it is that
/// change (empty otherwise), or, when the fetch failed, drop any entry.
pub fn store_preview<C>(
    cache: &mut PreviewCache<C>,
    change_id: &str,
    selected: Option<&Change>,
    content: Option<C>,
)
    requires
        old(cache).wf(),
    ensures
        final(cache).wf(),
        match content {
            Some(x) => {
                let (commit, marks) = match selected {
                    Some(c) => if c.change_id@ == change_id@ {
                        (c.commit_id@, c.bookmarks@)
                    } else {
                        (Seq::empty(), Seq::empty())
                    },
                    None => (Seq::empty(), Seq::empty()),
                };
                final(cache).entries() == inserted(
                    old(cache).entries(),
                    EntryView { change_id: change_id@, commit_id: commit, content: x, bookmarks: marks },
                    PREVIEW_CACHE_CAPACITY as nat,
                )
            },
            None => final(cache).entries() == without_id(old(cache).entries(), change_id@),
        },
{
    match content {
        Some(x) => {
            let (commit_id, bookmarks) = match selected {
                Some(c) => if str_eq(c.change_id.as_str(), change_id) {
                    (c.commit_id.clone(), clone_strings(c.bookmarks.as_slice()))
                } else {
                    (String::new(), Vec::new())
                },
                None => (String::new(), Vec::new()),
            };
            let entry = PreviewCacheEntry {
                change_id: string_from(change_id),
                commit_id,
                content: x,
                bookmarks,
            };
            cache.insert(entry);
        },
        None => {
            cache.remove(change_id);
        },
    }
}

/// Index of the first log row, not graph only, for `change_id`.
fn live_row(changes: &[Change], change_id: &str) -> (r: Option<usize>)
    ensures
        match r {
            Some(j) => live_row_from(changes@, change_id@, 0) == Some(j as int) && j
                < changes@.len(),
            None => live_row_from(changes@, change_id@, 0) is None,
        },
{
    let mut i: usize = 0;
    while i < changes.len()
        invariant
            i <= changes@.len(),
            live_row_from(changes@, change_id@, 0) == live_row_from(changes@, change_id@, i as int),
        decreases changes.len() - i,
    {
        if !changes[i].is_graph_only && str_eq(changes[i].change_id.as_str(), change_id) {
            return Some(i);
        }
        i = i + 1;
    }
    None
}

/// An element-by-element copy of a list of strings.
pub fn clone_strings(v: &[String]) -> (r: Vec<String>)
    ensures
        r@ == v@,
{
    let mut r: Vec<String> = Vec::new();
    let mut i: usize = 0;
    while i < v.len()
        invariant
            i <= v@.len(),
            r@ == v@.subrange(0, i as int),
        decreases v.len() - i,
    {
        r.push(v[i].clone());
        i = i + 1;
        assert(r@ =~= v@.subrange(0, i as int));
    }
    assert(v@.subrange(0, v@.len() as int) =~= v@);
    r
}

} // verus!
