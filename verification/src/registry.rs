//! The session registry: an insertion-ordered set of session ids with
//! single-select activation.
//!
//! Exactly one id is active whenever the registry is nonempty; the marker is
//! unset only when the registry is empty. Removing the active id
//! re-activates a neighbour by a fixed tie-break: prefer the tab before the
//! removed one, fall back to the tab after it, and leave the marker unset
//! only when the registry becomes empty.

use vstd::prelude::*;

verus! {

/// Mathematical image of one tab: its session id, the characters of its
/// display title, and whether the tab strip offers a close button for it.
pub ghost struct TabModel {
    pub id: u64,
    pub title: Seq<char>,
    pub closable: bool,
}

/// One tab: a stable session id plus its presentation state.
pub struct Tab {
    pub id: u64,
    pub title: String,
    pub closable: bool,
}

impl View for Tab {
    type V = TabModel;

    open spec fn view(&self) -> TabModel {
        TabModel { id: self.id, title: self.title@, closable: self.closable }
    }
}

/// Index of the first occurrence of `id` in `ids`, or -1 when absent.
pub open spec fn first_index_of(ids: Seq<u64>, id: u64) -> int
    decreases ids.len(),
{
    if ids.len() == 0 {
        -1
    } else if ids[0] == id {
        0
    } else {
        let r = first_index_of(ids.drop_first(), id);
        if r < 0 {
            -1
        } else {
            r + 1
        }
    }
}

/// `first_index_of` finds the first occurrence exactly when the id is
/// present, and reports -1 exactly when it is absent.
pub proof fn lemma_first_index_of(ids: Seq<u64>, id: u64)
    ensures
        ids.contains(id) ==> {
            let p = first_index_of(ids, id);
            &&& 0 <= p < ids.len()
            &&& ids[p] == id
            &&& forall|k: int| 0 <= k < p ==> ids[k] != id
        },
        !ids.contains(id) ==> first_index_of(ids, id) == -1,
    decreases ids.len(),
{
    if ids.len() == 0 {
    } else if ids[0] == id {
    } else {
        let rest = ids.drop_first();
        lemma_first_index_of(rest, id);
        assert(forall|k: int| 0 <= k < rest.len() ==> rest[k] == ids[k + 1]);
        if ids.contains(id) {
            let w = choose|w: int| 0 <= w < ids.len() && ids[w] == id;
            assert(rest[w - 1] == id);
            assert(rest.contains(id));
            let r = first_index_of(rest, id);
            assert(0 <= r < rest.len() && rest[r] == id);
            assert(ids[r + 1] == id);
            assert forall|k: int| 0 <= k < r + 1 implies ids[k] != id by {
                if k > 0 {
                    assert(rest[k - 1] != id);
                }
            }
        }
        if rest.contains(id) {
            let w = choose|w: int| 0 <= w < rest.len() && rest[w] == id;
            assert(ids[w + 1] == id);
            assert(ids.contains(id));
        }
    }
}

/// The registry model after renaming session `id` to `title`: every tab
/// whose id matches carries the new title, all else is unchanged.
pub open spec fn spec_rename(m: Seq<TabModel>, id: u64, title: Seq<char>) -> Seq<TabModel> {
    m.map_values(
        |t: TabModel|
            if t.id == id {
                TabModel { id: t.id, title: title, closable: t.closable }
            } else {
                t
            },
    )
}

/// Renaming to a fixed title is idempotent: applying the same rename a
/// second time changes nothing. This is why repeated title resets settle
/// the display title at the same placeholder.
pub proof fn lemma_rename_idempotent(m: Seq<TabModel>, id: u64, title: Seq<char>)
    ensures
        spec_rename(spec_rename(m, id, title), id, title) == spec_rename(m, id, title),
{
    assert(spec_rename(spec_rename(m, id, title), id, title) =~= spec_rename(m, id, title));
}

/// An insertion-ordered set of session ids with single-select activation.
pub struct Registry {
    tabs: Vec<Tab>,
    active: Option<u64>,
    next_id: u64,
}

impl View for Registry {
    type V = Seq<TabModel>;

    closed spec fn view(&self) -> Seq<TabModel> {
        self.tabs@.map_values(|t: Tab| t@)
    }
}

impl Registry {
    /// The id the registry would hand to the next inserted tab.
    pub closed spec fn spec_next_id(&self) -> u64 {
        self.next_id
    }

    /// The single-select active marker.
    pub closed spec fn spec_active(&self) -> Option<u64> {
        self.active
    }

    /// The session ids in insertion order.
    pub open spec fn ids(&self) -> Seq<u64> {
        self@.map_values(|t: TabModel| t.id)
    }

    /// Registry invariant: ids are pairwise distinct and below the next
    /// fresh id; the active marker is unset exactly when the registry is
    /// empty, and otherwise names a present id.
    pub open spec fn wf(&self) -> bool {
        &&& forall|i: int, j: int|
            0 <= i < j < self.ids().len() ==> self.ids()[i] != self.ids()[j]
        &&& forall|i: int| 0 <= i < self.ids().len() ==> self.ids()[i] < self.spec_next_id()
        &&& (self@.len() == 0 <==> self.spec_active() is None)
        &&& match self.spec_active() {
            Some(a) => self.ids().contains(a),
            None => true,
        }
    }

    /// The display title of the active tab, when one is active.
    pub open spec fn spec_active_title(&self) -> Option<Seq<char>> {
        match self.spec_active() {
            Some(a) => Some(self@[first_index_of(self.ids(), a)].title),
            None => None,
        }
    }

    /// An empty registry with no active tab.
    pub fn new() -> (r: Registry)
        ensures
            r.wf(),
            r@ == Seq::<TabModel>::empty(),
            r.spec_active() is None,
            r.spec_next_id() == 0,
    {
        let r = Registry { tabs: Vec::new(), active: None, next_id: 0 };
        proof {
            assert(r@ =~= Seq::<TabModel>::empty());
        }
        r
    }

    /// Number of tabs.
    pub fn len(&self) -> (n: usize)
        ensures
            n == self@.len(),
    {
        self.tabs.len()
    }

    /// Whether the registry holds no tab at all.
    pub fn is_empty(&self) -> (r: bool)
        ensures
            r == (self@.len() == 0),
    {
        self.tabs.len() == 0
    }

    /// The id the next inserted tab would get; callers check it is not
    /// exhausted before opening another tab.
    pub fn next_id(&self) -> (n: u64)
        ensures
            n == self.spec_next_id(),
    {
        self.next_id
    }

    /// The active id, if any.
    pub fn active_id(&self) -> (r: Option<u64>)
        ensures
            r == self.spec_active(),
    {
        self.active
    }

    /// Position of `id` in insertion order: the first (and, in a
    /// well-formed registry, only) index holding it.
    pub fn position(&self, id: u64) -> (r: Option<usize>)
        ensures
            match r {
                Some(p) => {
                    &&& p < self@.len()
                    &&& self.ids()[p as int] == id
                    &&& p as int == first_index_of(self.ids(), id)
                    &&& self.ids().contains(id)
                },
                None => !self.ids().contains(id),
            },
    {
        let mut i: usize = 0;
        while i < self.tabs.len()
            invariant
                i <= self@.len(),
                forall|k: int| 0 <= k < i ==> self.ids()[k] != id,
            decreases self@.len() - i,
        {
            if self.tabs[i].id == id {
                proof {
                    assert(self.ids()[i as int] == id);
                    lemma_first_index_of(self.ids(), id);
                    let p = first_index_of(self.ids(), id);
                    assert(self.ids()[p] == id);
                    assert(p == i as int);
                }
                return Some(i);
            }
            i = i + 1;
        }
        proof {
            assert(!self.ids().contains(id)) by {
                if self.ids().contains(id) {
                    let w = choose|w: int|
                        0 <= w < self.ids().len() && self.ids()[w] == id;
                    assert(self.ids()[w] != id);
                }
            }
        }
        None
    }

    /// Whether `id` is present.
    pub fn contains(&self, id: u64) -> (r: bool)
        ensures
            r == self.ids().contains(id),
    {
        self.position(id).is_some()
    }

    /// Appends a fresh tab at the end of the order, marks it closable, and
    /// makes it the sole active tab.
    pub fn insert(&mut self, title: String) -> (id: u64)
        requires
            old(self).wf(),
            old(self).spec_next_id() < u64::MAX,
        ensures
            final(self).wf(),
            id == old(self).spec_next_id(),
            !old(self).ids().contains(id),
            final(self)@ == old(self)@.push(
                TabModel { id: id, title: title@, closable: true },
            ),
            final(self).spec_active() == Some(id),
            final(self).spec_next_id() == old(self).spec_next_id() + 1,
    {
        let id = self.next_id;
        let ghost tv = title@;
        proof {
            if old(self).ids().contains(id) {
                let w = choose|w: int|
                    0 <= w < old(self).ids().len() && old(self).ids()[w] == id;
                assert(old(self).ids()[w] < id);
            }
        }
        self.tabs.push(Tab { id, title, closable: true });
        self.active = Some(id);
        self.next_id = id + 1;
        proof {
            assert(self@ =~= old(self)@.push(TabModel { id: id, title: tv, closable: true }));
            assert(self.ids() =~= old(self).ids().push(id));
            assert(self.ids().contains(id)) by {
                assert(self.ids()[self.ids().len() - 1] == id);
            }
        }
        id
    }

    /// Moves the active marker to `id`; a request for an absent id is a
    /// silent no-op, so stale activation requests never disturb the state.
    pub fn activate(&mut self, id: u64)
        requires
            old(self).wf(),
        ensures
            final(self).wf(),
            final(self)@ == old(self)@,
            final(self).spec_next_id() == old(self).spec_next_id(),
            old(self).ids().contains(id) ==> final(self).spec_active() == Some(id),
            !old(self).ids().contains(id) ==> final(self).spec_active() == old(self).spec_active(),
    {
        if self.position(id).is_some() {
            self.active = Some(id);
        }
    }

    /// Renames session `id`; the rest of the registry, the order and the
    /// active marker are untouched. Renaming an absent id changes nothing.
    pub fn rename(&mut self, id: u64, title: String)
        requires
            old(self).wf(),
        ensures
            final(self).wf(),
            final(self)@ == spec_rename(old(self)@, id, title@),
            final(self).spec_active() == old(self).spec_active(),
            final(self).spec_next_id() == old(self).spec_next_id(),
    {
        let ghost tv = title@;
        match self.position(id) {
            Some(p) => {
                let ghost pi = p as int;
                let closable = self.tabs[p].closable;
                self.tabs.set(p, Tab { id, title, closable });
                proof {
                    assert forall|k: int|
                        0 <= k < old(self)@.len() && k != pi implies old(
                            self,
                        )@[k].id != id by {
                        if k < pi {
                            assert(old(self).ids()[k] != old(self).ids()[pi]);
                        } else {
                            assert(old(self).ids()[pi] != old(self).ids()[k]);
                        }
                    }
                    assert(self@ =~= spec_rename(old(self)@, id, tv));
                    assert(self.ids() =~= old(self).ids());
                }
            },
            None => {
                proof {
                    assert forall|k: int|
                        0 <= k < old(self)@.len() implies old(self)@[k].id != id by {
                        assert(old(self).ids()[k] == old(self)@[k].id);
                        if old(self)@[k].id == id {
                            assert(old(self).ids()[k] == id);
                            assert(old(self).ids().contains(id));
                        }
                    }
                    assert(self@ =~= spec_rename(old(self)@, id, tv));
                }
            },
        }
    }

    /// Removes `id` from the order. If the removed tab was active, the tab
    /// before it becomes active; the tab after it when none precedes; no tab
    /// when the registry becomes empty. Removing an absent id changes
    /// nothing. Returns whether the registry is empty afterwards, so the
    /// caller can trigger window teardown.
    pub fn remove(&mut self, id: u64) -> (empty: bool)
        requires
            old(self).wf(),
        ensures
            final(self).wf(),
            final(self).spec_next_id() == old(self).spec_next_id(),
            empty == (final(self)@.len() == 0),
            !old(self).ids().contains(id) ==> {
                &&& final(self)@ == old(self)@
                &&& final(self).spec_active() == old(self).spec_active()
            },
            old(self).ids().contains(id) ==> {
                let p = first_index_of(old(self).ids(), id);
                &&& final(self)@ == old(self)@.remove(p)
                &&& (old(self).spec_active() != Some(id) ==> final(self).spec_active()
                    == old(self).spec_active())
                &&& (old(self).spec_active() == Some(id) && old(self)@.len() == 1
                    ==> final(self).spec_active() is None)
                &&& (old(self).spec_active() == Some(id) && old(self)@.len() > 1 && p > 0
                    ==> final(self).spec_active() == Some(old(self)@[p - 1].id))
                &&& (old(self).spec_active() == Some(id) && old(self)@.len() > 1 && p == 0
                    ==> final(self).spec_active() == Some(old(self)@[1].id))
            },
    {
        match self.position(id) {
            Some(p) => {
                let was_active = match self.active {
                    Some(a) => a == id,
                    None => false,
                };
                if was_active {
                    if self.tabs.len() == 1 {
                        self.active = None;
                    } else if p > 0 {
                        self.active = Some(self.tabs[p - 1].id);
                    } else {
                        self.active = Some(self.tabs[1].id);
                    }
                }
                self.tabs.remove(p);
                proof {
                    let pi = p as int;
                    let oldm = old(self)@;
                    let oldids = old(self).ids();
                    assert(self@ =~= oldm.remove(pi));
                    assert(self.ids() =~= oldids.remove(pi));
                    let newids = self.ids();
                    assert(forall|k: int| 0 <= k < pi ==> newids[k] == oldids[k]);
                    assert(forall|k: int|
                        pi <= k < newids.len() ==> newids[k] == oldids[k + 1]);
                    // ids stay pairwise distinct and below the fresh id
                    assert forall|i: int, j: int|
                        0 <= i < j < newids.len() implies newids[i] != newids[j] by {
                        if j < pi {
                            assert(newids[i] == oldids[i] && newids[j] == oldids[j]);
                        } else if i < pi {
                            assert(newids[i] == oldids[i] && newids[j] == oldids[j + 1]);
                        } else {
                            assert(newids[i] == oldids[i + 1] && newids[j] == oldids[j + 1]);
                        }
                    }
                    // the new active marker names a present id
                    match self.active {
                        Some(a) => {
                            if was_active {
                                if oldm.len() == 1 {
                                    assert(false);
                                } else if pi > 0 {
                                    assert(newids[pi - 1] == oldids[pi - 1] == a);
                                } else {
                                    assert(newids[0] == oldids[1] == a);
                                }
                                assert(newids.contains(a));
                            } else {
                                let w = choose|w: int|
                                    0 <= w < oldids.len() && oldids[w] == a;
                                assert(oldids[pi] == id && a != id);
                                if w < pi {
                                    assert(newids[w] == a);
                                } else {
                                    assert(newids[w - 1] == a);
                                }
                                assert(newids.contains(a));
                            }
                        },
                        None => {
                            if !was_active {
                                // active was None, so the registry was empty
                                // and nothing could have been removed
                                assert(oldm.len() == 0);
                                assert(false);
                            }
                        },
                    }
                    if !was_active && oldm.len() == 1 {
                        // a singleton registry's only id is its active id
                        match old(self).spec_active() {
                            Some(a) => {
                                assert(oldids.contains(a));
                                let w = choose|w: int|
                                    0 <= w < oldids.len() && oldids[w] == a;
                                assert(w == 0 && oldids[0] == id);
                                assert(false);
                            },
                            None => {
                                assert(false);
                            },
                        }
                    }
                }
                self.tabs.len() == 0
            },
            None => self.tabs.len() == 0,
        }
    }

    /// The ids in insertion order, for the tab strip.
    pub fn ordered_ids(&self) -> (r: Vec<u64>)
        ensures
            r@ == self.ids(),
    {
        let mut r: Vec<u64> = Vec::new();
        let mut i: usize = 0;
        while i < self.tabs.len()
            invariant
                i <= self@.len(),
                r@ =~= self.ids().take(i as int),
            decreases self@.len() - i,
        {
            r.push(self.tabs[i].id);
            proof {
                assert(r@ =~= self.ids().take(i as int + 1));
            }
            i = i + 1;
        }
        proof {
            assert(r@ =~= self.ids());
        }
        r
    }

    /// The presentation tuple of the tab at position `i`: its id, a copy of
    /// its display title, and its closable flag.
    pub fn tab_at(&self, i: usize) -> (r: (u64, String, bool))
        requires
            i < self@.len(),
        ensures
            r.0 == self@[i as int].id,
            r.1@ == self@[i as int].title,
            r.2 == self@[i as int].closable,
    {
        let t = &self.tabs[i];
        (t.id, t.title.clone(), t.closable)
    }

    /// A copy of the display title of session `id`, when present.
    pub fn title_of(&self, id: u64) -> (r: Option<String>)
        ensures
            match r {
                Some(t) => {
                    &&& self.ids().contains(id)
                    &&& t@ == self@[first_index_of(self.ids(), id)].title
                },
                None => !self.ids().contains(id),
            },
    {
        match self.position(id) {
            Some(p) => Some(self.tabs[p].title.clone()),
            None => None,
        }
    }

    /// A copy of the active tab's display title, when a tab is active.
    pub fn active_title(&self) -> (r: Option<String>)
        requires
            self.wf(),
        ensures
            match r {
                Some(t) => self.spec_active_title() == Some(t@),
                None => self.spec_active_title() is None,
            },
    {
        match self.active {
            Some(a) => self.title_of(a),
            None => None,
        }
    }
}

/// Invariant law: however the registry was built, a well-formed registry's
/// active marker is unset exactly when the registry is empty, and otherwise
/// names an id that is a member of the current id set. Every constructor
/// and mutator of [`Registry`] requires and re-establishes `wf`, so the
/// property holds after any sequence of inserts and removes.
pub proof fn lemma_active_marker_valid(r: &Registry)
    requires
        r.wf(),
    ensures
        (r@.len() == 0 <==> r.spec_active() is None),
        match r.spec_active() {
            Some(a) => r.ids().contains(a),
            None => true,
        },
{
}

} // verus!
