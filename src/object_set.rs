//! The set of reparentable objects that a discovery feed reports, each with
//! a live handle and whether it is attached to the moving anchor.
use vstd::prelude::*;

verus! {

/// One discovered object.
pub struct TrackedObject<H> {
    pub id: u64,
    pub handle: H,
    /// Whether the object is currently parented to the anchor.
    pub parented: bool,
}

/// A notification of the discovery feed.
pub enum QueryEvent<H> {
    NewMatch(u64, H),
    Modified(u64, H),
    MatchLost(u64),
}

/// What the owner of the set has to do after an event.
pub enum SetChange<H> {
    /// The object is tracked but not attached (it is new, or parenting it
    /// failed before): parent it to the anchor, then confirm.
    Parent(u64),
    /// An attached object got a fresh handle; it stays attached.
    Refreshed(u64),
    /// An attached object left the set: unparent this handle once.
    Detach(u64, H),
    /// The lost object was not attached (or was never known): nothing to do.
    Forgotten,
}

/// Index of the object `id` in `s`, searching from `i`.
pub open spec fn index_from<H>(s: Seq<TrackedObject<H>>, id: u64, i: int) -> Option<int>
    decreases s.len() - i,
{
    if i < 0 || i >= s.len() {
        None
    } else if s[i].id == id {
        Some(i)
    } else {
        index_from(s, id, i + 1)
    }
}

pub open spec fn index_of<H>(s: Seq<TrackedObject<H>>, id: u64) -> Option<int> {
    index_from(s, id, 0)
}

pub open spec fn contains_id<H>(s: Seq<TrackedObject<H>>, id: u64) -> bool {
    exists|i: int| 0 <= i < s.len() && (#[trigger] s[i]).id == id
}

pub open spec fn ids_of<H>(s: Seq<TrackedObject<H>>) -> Seq<u64> {
    s.map_values(|e: TrackedObject<H>| e.id)
}

pub open spec fn ids_unique<H>(s: Seq<TrackedObject<H>>) -> bool {
    forall|i: int, j: int| 0 <= i < s.len() && 0 <= j < s.len() && i != j ==> (#[trigger] s[i]).id
        != (#[trigger] s[j]).id
}

/// The handles of the attached objects, in order.
pub open spec fn attached_handles<H>(s: Seq<TrackedObject<H>>) -> Seq<H>
    decreases s.len(),
{
    if s.len() == 0 {
        Seq::empty()
    } else {
        let rest = attached_handles(s.drop_first());
        if s[0].parented {
            seq![s[0].handle] + rest
        } else {
            rest
        }
    }
}

/// How many objects are attached.
pub open spec fn attached_count<H>(s: Seq<TrackedObject<H>>) -> nat
    decreases s.len(),
{
    if s.len() == 0 {
        0
    } else {
        attached_count(s.drop_first()) + if s[0].parented {
            1nat
        } else {
            0nat
        }
    }
}

/// The set after an event, and what its owner has to do.
pub open spec fn after_event<H>(s: Seq<TrackedObject<H>>, e: QueryEvent<H>) -> (
    Seq<TrackedObject<H>>,
    SetChange<H>,
) {
    match e {
        QueryEvent::NewMatch(id, h) | QueryEvent::Modified(id, h) => match index_of(s, id) {
            Some(i) => (
                s.update(i, TrackedObject { id, handle: h, parented: s[i].parented }),
                if s[i].parented {
                    SetChange::Refreshed(id)
                } else {
                    SetChange::Parent(id)
                },
            ),
            None => (s.push(TrackedObject { id, handle: h, parented: false }), SetChange::Parent(id)),
        },
        QueryEvent::MatchLost(id) => match index_of(s, id) {
            Some(i) => (
                s.remove(i),
                if s[i].parented {
                    SetChange::Detach(id, s[i].handle)
                } else {
                    SetChange::Forgotten
                },
            ),
            None => (s, SetChange::Forgotten),
        },
    }
}

/// A mapping from object identity to handle, kept up to date from a
/// discovery feed, that remembers which objects are attached.
pub struct ReactiveObjectSet<H> {
    entries: Vec<TrackedObject<H>>,
}

impl<H> ReactiveObjectSet<H> {
    /// The tracked objects, in order of discovery.
    pub closed spec fn view(&self) -> Seq<TrackedObject<H>> {
        self.entries@
    }

    /// Every object is tracked once.
    pub open spec fn wf(&self) -> bool {
        ids_unique(self.view())
    }

    pub fn new() -> (r: ReactiveObjectSet<H>)
        ensures
            r.wf(),
            r.view() == Seq::<TrackedObject<H>>::empty(),
    {
        ReactiveObjectSet { entries: Vec::new() }
    }

    pub fn len(&self) -> (r: usize)
        ensures
            r == self.view().len(),
    {
        self.entries.len()
    }

    fn position(&self, id: u64) -> (r: Option<usize>)
        ensures
            match r {
                Some(i) => i < self.view().len() && index_of(self.view(), id) == Some(i as int)
                    && self.view()[i as int].id == id,
                None => index_of(self.view(), id) == None::<int>,
            },
    {
        let mut i: usize = 0;
        while i < self.entries.len()
            invariant
                i <= self.entries@.len(),
                index_from(self.entries@, id, 0) == index_from(self.entries@, id, i as int),
            decreases self.entries@.len() - i,
        {
            if self.entries[i].id == id {
                return Some(i);
            }
            i = i + 1;
        }
        None
    }

    /// Whether the object `id` is tracked.
    pub fn contains(&self, id: u64) -> (r: bool)
        requires
            self.wf(),
        ensures
            r == contains_id(self.view(), id),
    {
        let p = self.position(id);
        proof {
            lemma_index_of_contains(self.view(), id);
        }
        p.is_some()
    }

    /// The identities of the tracked objects, in order.
    pub fn ids(&self) -> (r: Vec<u64>)
        ensures
            r@ == ids_of(self.view()),
    {
        let mut out: Vec<u64> = Vec::new();
        let mut i: usize = 0;
        while i < self.entries.len()
            invariant
                i <= self.entries@.len(),
                out@ == ids_of(self.entries@.take(i as int)),
            decreases self.entries@.len() - i,
        {
            out.push(self.entries[i].id);
            proof {
                assert(self.entries@.take(i + 1) == self.entries@.take(i as int).push(
                    self.entries@[i as int],
                ));
                assert(ids_of(self.entries@.take(i + 1)) =~= out@);
            }
            i = i + 1;
        }
        proof {
            assert(self.entries@.take(i as int) == self.entries@);
        }
        out
    }

    /// Whether the object `id` is tracked and attached.
    pub fn is_parented(&self, id: u64) -> (r: bool)
        ensures
            r == match index_of(self.view(), id) {
                Some(i) => self.view()[i].parented,
                None => false,
            },
    {
        match self.position(id) {
            Some(i) => self.entries[i].parented,
            None => false,
        }
    }

    /// The handle of the object `id`, if it is tracked.
    pub fn handle(&self, id: u64) -> (r: Option<&H>)
        ensures
            match index_of(self.view(), id) {
                Some(i) => r == Some(&self.view()[i].handle),
                None => r == None::<&H>,
            },
    {
        match self.position(id) {
            Some(i) => Some(&self.entries[i].handle),
            None => None,
        }
    }

    /// Applies one event of the discovery feed.
    pub fn handle_event(&mut self, e: QueryEvent<H>) -> (r: SetChange<H>)
        requires
            old(self).wf(),
        ensures
            final(self).wf(),
            (final(self).view(), r) == after_event(old(self).view(), e),
    {
        match e {
            QueryEvent::NewMatch(id, handle) | QueryEvent::Modified(id, handle) => {
                match self.position(id) {
                    Some(i) => {
                        proof {
                            lemma_update_keeps_unique(self.entries@, i as int, id);
                        }
                        let parented = self.entries[i].parented;
                        self.entries.set(i, TrackedObject { id, handle, parented });
                        if parented {
                            SetChange::Refreshed(id)
                        } else {
                            SetChange::Parent(id)
                        }
                    },
                    None => {
                        proof {
                            lemma_index_of_contains(self.entries@, id);
                        }
                        self.entries.push(TrackedObject { id, handle, parented: false });
                        SetChange::Parent(id)
                    },
                }
            },
            QueryEvent::MatchLost(id) => {
                match self.position(id) {
                    Some(i) => {
                        proof {
                            lemma_remove_keeps_unique(self.entries@, i as int);
                        }
                        let gone = self.entries.remove(i);
                        if gone.parented {
                            SetChange::Detach(id, gone.handle)
                        } else {
                            SetChange::Forgotten
                        }
                    },
                    None => SetChange::Forgotten,
                }
            },
        }
    }

    /// Records the outcome of parenting the object `id` to the anchor;
    /// returns whether the object is still tracked.
    pub fn confirm_parent(&mut self, id: u64, ok: bool) -> (r: bool)
        requires
            old(self).wf(),
        ensures
            final(self).wf(),
            r == index_of(old(self).view(), id).is_some(),
            final(self).view() == match index_of(old(self).view(), id) {
                Some(i) => old(self).view().update(
                    i,
                    TrackedObject {
                        id,
                        handle: old(self).view()[i].handle,
                        parented: old(self).view()[i].parented || ok,
                    },
                ),
                None => old(self).view(),
            },
    {
        match self.position(id) {
            Some(i) => {
                if ok {
                    proof {
                        lemma_update_keeps_unique(self.entries@, i as int, id);
                    }
                    let mut entry = self.entries.remove(i);
                    entry.parented = true;
                    self.entries.insert(i, entry);
                    proof {
                        assert(self.entries@ =~= old(self).entries@.update(i as int, entry));
                    }
                } else {
                    proof {
                        assert(old(self).entries@.update(i as int, old(self).entries@[i as int])
                            =~= old(self).entries@);
                    }
                }
                true
            },
            None => false,
        }
    }

    /// Empties the set and hands back the handles of every attached object,
    /// each once, so that all of them can be unparented.
    pub fn drain_attached(&mut self) -> (r: Vec<H>)
        requires
            old(self).wf(),
        ensures
            final(self).wf(),
            final(self).view() == Seq::<TrackedObject<H>>::empty(),
            r@ == attached_handles(old(self).view()),
            r@.len() == attached_count(old(self).view()),
    {
        let mut rest: Vec<TrackedObject<H>> = Vec::new();
        std::mem::swap(&mut self.entries, &mut rest);
        let ghost all = rest@;
        let mut out: Vec<H> = Vec::new();
        while rest.len() > 0
            invariant
                out@ + attached_handles(rest@) == attached_handles(all),
            decreases rest@.len(),
        {
            let ghost before = rest@;
            let first = rest.remove(0);
            proof {
                assert(rest@ =~= before.drop_first());
            }
            if first.parented {
                let ghost o = out@;
                out.push(first.handle);
                proof {
                    assert(o + attached_handles(before) =~= out@ + attached_handles(rest@));
                }
            }
        }
        proof {
            assert(out@ + attached_handles(rest@) =~= out@);
            lemma_attached_count(old(self).entries@);
        }
        out
    }
}

proof fn lemma_index_from<H>(s: Seq<TrackedObject<H>>, id: u64, i: int)
    requires
        0 <= i,
    ensures
        match index_from(s, id, i) {
            Some(k) => i <= k < s.len() && s[k].id == id,
            None => forall|j: int| i <= j < s.len() ==> (#[trigger] s[j]).id != id,
        },
    decreases s.len() - i,
{
    if i < s.len() && s[i].id != id {
        lemma_index_from(s, id, i + 1);
    }
}

/// `index_of` finds the object exactly when it is tracked.
pub proof fn lemma_index_of_contains<H>(s: Seq<TrackedObject<H>>, id: u64)
    ensures
        match index_of(s, id) {
            Some(k) => 0 <= k < s.len() && s[k].id == id,
            None => !contains_id(s, id),
        },
{
    lemma_index_from(s, id, 0);
}

proof fn lemma_update_keeps_unique<H>(s: Seq<TrackedObject<H>>, i: int, id: u64)
    requires
        ids_unique(s),
        0 <= i < s.len(),
        s[i].id == id,
    ensures
        forall|e: TrackedObject<H>| e.id == id ==> ids_unique(#[trigger] s.update(i, e)),
{
    assert forall|e: TrackedObject<H>| e.id == id implies ids_unique(#[trigger] s.update(i, e)) by {
        let t = s.update(i, e);
        assert forall|a: int, b: int|
            0 <= a < t.len() && 0 <= b < t.len() && a != b implies (#[trigger] t[a]).id != (
            #[trigger] t[b]).id by {
            assert(t[a].id == s[a].id);
            assert(t[b].id == s[b].id);
        }
    }
}

proof fn lemma_remove_keeps_unique<H>(s: Seq<TrackedObject<H>>, i: int)
    requires
        ids_unique(s),
        0 <= i < s.len(),
    ensures
        ids_unique(s.remove(i)),
{
    let t = s.remove(i);
    assert forall|a: int, b: int|
        0 <= a < t.len() && 0 <= b < t.len() && a != b implies (#[trigger] t[a]).id != (
        #[trigger] t[b]).id by {
        let sa = if a < i { a } else { a + 1 };
        let sb = if b < i { b } else { b + 1 };
        assert(t[a] == s[sa]);
        assert(t[b] == s[sb]);
    }
}

/// There is one attached handle per attached object.
pub proof fn lemma_attached_count<H>(s: Seq<TrackedObject<H>>)
    ensures
        attached_handles(s).len() == attached_count(s),
    decreases s.len(),
{
    if s.len() > 0 {
        lemma_attached_count(s.drop_first());
    }
}


/// After `MatchLost(id)` the object is gone from the set, the other objects
/// are kept in order, and exactly one unparent is asked for it if it was
/// attached, none otherwise.
pub proof fn lemma_match_lost<H>(s: Seq<TrackedObject<H>>, id: u64)
    requires
        ids_unique(s),
    ensures
        ({
            let (t, change) = after_event(s, QueryEvent::MatchLost(id));
            &&& !contains_id(t, id)
            &&& ids_unique(t)
            &&& match index_of(s, id) {
                Some(i) => {
                    &&& t == s.remove(i)
                    &&& s[i].parented ==> change == SetChange::Detach(id, s[i].handle)
                    &&& !s[i].parented ==> change == SetChange::<H>::Forgotten
                    &&& attached_count(t) + (if s[i].parented {
                        1int
                    } else {
                        0int
                    }) == attached_count(s)
                },
                None => t == s && change == SetChange::<H>::Forgotten,
            }
        }),
{
    lemma_index_of_contains(s, id);
    if let Some(i) = index_of(s, id) {
        lemma_remove_keeps_unique(s, i);
        let t = s.remove(i);
        assert forall|j: int| 0 <= j < t.len() implies (#[trigger] t[j]).id != id by {
            let sj = if j < i { j } else { j + 1 };
            assert(t[j] == s[sj]);
        }
        lemma_attached_count_remove(s, i);
    }
}

proof fn lemma_attached_count_remove<H>(s: Seq<TrackedObject<H>>, i: int)
    requires
        0 <= i < s.len(),
    ensures
        attached_count(s.remove(i)) + (if s[i].parented {
            1int
        } else {
            0int
        }) == attached_count(s),
    decreases s.len(),
{
    if i == 0 {
        assert(s.remove(0) =~= s.drop_first());
    } else {
        lemma_attached_count_remove(s.drop_first(), i - 1);
        assert(s.remove(i).drop_first() =~= s.drop_first().remove(i - 1));
        assert(s.remove(i)[0] == s[0]);
    }
}

} // verus!
