//! Validation checks.
//!
//! Each check is a stateless rule inspecting one object plus geometry and
//! yielding structured errors. The reference-counting family walks the
//! object graph from a root, accumulates, per distinct child identity, the
//! parents referencing it at the declared ownership level, and reports
//! exactly one violation for every child with more than one parent —
//! however many parents reference it, and in traversal order.

use crate::geometry::{cycle_winding_spec, cycle_winding, Geometry, Winding};
use crate::storage::{arc_clone, arc_get, Handle};
use crate::topology::{Cycle, Face, HalfEdge, Region, Shell, Sketch, Solid};
use crate::validation::ValidationConfig;
use std::sync::Arc;
use vstd::prelude::*;

verus! {

/// Object that should be exclusively owned by another, is not.
///
/// Some objects are expected to be "owned" by a single other object, so
/// only one reference to them may exist at that level of the object
/// graph. This record carries the child and the complete list of parents
/// referencing it, in traversal order. The parent list is shared, so a
/// clone of the record equals the record.
#[derive(Debug)]
pub struct MultipleReferencesToObject<T, U> {
    object: Handle<T>,
    referenced_by: Arc<Vec<Handle<U>>>,
}

impl<T, U> MultipleReferencesToObject<T, U> {
    /// The child that is referenced more than once.
    pub closed spec fn object_spec(&self) -> Handle<T> {
        self.object
    }

    /// Every parent referencing the child, in traversal order.
    pub closed spec fn referenced_by_spec(&self) -> Seq<Handle<U>> {
        (*self.referenced_by)@
    }

    /// Access the child that is referenced more than once.
    pub fn object(&self) -> (r: &Handle<T>)
        ensures
            *r == self.object_spec(),
    {
        &self.object
    }

    /// Access the parents referencing the child, in traversal order.
    pub fn referenced_by(&self) -> (r: &Vec<Handle<U>>)
        ensures
            r@ == self.referenced_by_spec(),
    {
        arc_get(&self.referenced_by)
    }
}

impl<T, U> Clone for MultipleReferencesToObject<T, U> {
    /// A clone names the same child and shares the same parent list.
    fn clone(&self) -> (r: Self)
        ensures
            r == *self,
    {
        MultipleReferencesToObject {
            object: self.object.clone(),
            referenced_by: arc_clone(&self.referenced_by),
        }
    }
}

/// Clone a list of handles; every clone refers to the same cell as the
/// original, so the views are equal.
pub fn clone_handles<T>(handles: &Vec<Handle<T>>) -> (r: Vec<Handle<T>>)
    ensures
        r@ == handles@,
{
    let mut out: Vec<Handle<T>> = Vec::new();
    let n = handles.len();
    let mut i: usize = 0;
    while i < n
        invariant
            n == handles@.len(),
            i <= n,
            out@.len() == i,
            forall|j: int| 0 <= j < i ==> out@[j] == handles@[j],
        decreases n - i,
    {
        out.push(handles[i].clone());
        i = i + 1;
    }
    proof {
        assert(out@ =~= handles@);
    }
    out
}

/// Whether some accumulated entry is for a child with the given identity.
pub open spec fn has_child<T, U>(
    entries: Seq<(Handle<T>, Seq<Handle<U>>)>,
    child_id: u64,
) -> bool {
    exists|i: int| 0 <= i < entries.len() && (#[trigger] entries[i]).0.id_spec() == child_id
}

/// The position of the entry for a child identity.
pub open spec fn child_index<T, U>(
    entries: Seq<(Handle<T>, Seq<Handle<U>>)>,
    child_id: u64,
) -> int {
    choose|i: int| 0 <= i < entries.len() && (#[trigger] entries[i]).0.id_spec() == child_id
}

/// No two accumulated entries are for the same child identity.
pub open spec fn distinct_children<T, U>(entries: Seq<(Handle<T>, Seq<Handle<U>>)>) -> bool {
    forall|i: int, j: int|
        0 <= i < j < entries.len() ==> (#[trigger] entries[i]).0.id_spec() != (
        #[trigger] entries[j]).0.id_spec()
}

/// With distinct children, the entry position for a child identity is the
/// one position that carries it.
pub proof fn lemma_child_index_unique<T, U>(
    entries: Seq<(Handle<T>, Seq<Handle<U>>)>,
    child_id: u64,
    i: int,
)
    requires
        distinct_children(entries),
        0 <= i < entries.len(),
        entries[i].0.id_spec() == child_id,
    ensures
        child_index(entries, child_id) == i,
{
    let j = child_index(entries, child_id);
    assert(0 <= j < entries.len() && entries[j].0.id_spec() == child_id);
}

/// What counting one parent→child edge does to the accumulated entries:
/// the parent joins the child's entry, or a fresh entry is appended for a
/// child seen for the first time.
pub open spec fn tally_step<T, U>(
    entries: Seq<(Handle<T>, Seq<Handle<U>>)>,
    to: Handle<T>,
    from: Handle<U>,
) -> Seq<(Handle<T>, Seq<Handle<U>>)> {
    if has_child(entries, to.id_spec()) {
        let i = child_index(entries, to.id_spec());
        entries.update(i, (entries[i].0, entries[i].1.push(from)))
    } else {
        entries.push((to, seq![from]))
    }
}

/// The entries accumulated by counting a sequence of parent→child edges
/// in order.
pub open spec fn tally<T, U>(edges: Seq<(Handle<T>, Handle<U>)>) -> Seq<
    (Handle<T>, Seq<Handle<U>>),
>
    decreases edges.len(),
{
    if edges.len() == 0 {
        Seq::empty()
    } else {
        tally_step(tally(edges.drop_last()), edges.last().0, edges.last().1)
    }
}

/// Every parent that an edge sequence gives the child with this identity,
/// in edge order.
pub open spec fn parents_of<T, U>(edges: Seq<(Handle<T>, Handle<U>)>, child_id: u64) -> Seq<
    Handle<U>,
>
    decreases edges.len(),
{
    if edges.len() == 0 {
        Seq::empty()
    } else if edges.last().0.id_spec() == child_id {
        parents_of(edges.drop_last(), child_id).push(edges.last().1)
    } else {
        parents_of(edges.drop_last(), child_id)
    }
}

/// Counting one edge keeps children distinct.
pub proof fn lemma_tally_step_distinct<T, U>(
    entries: Seq<(Handle<T>, Seq<Handle<U>>)>,
    to: Handle<T>,
    from: Handle<U>,
)
    requires
        distinct_children(entries),
    ensures
        distinct_children(tally_step(entries, to, from)),
        tally_step(entries, to, from).len() >= entries.len(),
{
    let new = tally_step(entries, to, from);
    if has_child(entries, to.id_spec()) {
        let i = child_index(entries, to.id_spec());
        assert(0 <= i < entries.len() && entries[i].0.id_spec() == to.id_spec());
        assert(forall|j: int| 0 <= j < new.len() ==> (#[trigger] new[j]).0 == entries[j].0);
    }
}

/// The accumulated entries always have distinct children.
pub proof fn lemma_tally_distinct<T, U>(edges: Seq<(Handle<T>, Handle<U>)>)
    ensures
        distinct_children(tally(edges)),
    decreases edges.len(),
{
    if edges.len() > 0 {
        lemma_tally_distinct(edges.drop_last());
        lemma_tally_step_distinct(tally(edges.drop_last()), edges.last().0, edges.last().1);
    }
}

/// What the accumulated entries say of one child identity: there is an
/// entry for it exactly if some edge references it, and that entry lists
/// precisely the parents the edges give it, in edge order.
pub proof fn lemma_tally_parents<T, U>(edges: Seq<(Handle<T>, Handle<U>)>, child_id: u64)
    ensures
        has_child(tally(edges), child_id) <==> parents_of(edges, child_id).len() > 0,
        has_child(tally(edges), child_id) ==> {
            let i = child_index(tally(edges), child_id);
            &&& 0 <= i < tally(edges).len()
            &&& tally(edges)[i].0.id_spec() == child_id
            &&& tally(edges)[i].1 == parents_of(edges, child_id)
        },
    decreases edges.len(),
{
    lemma_tally_distinct(edges);
    if edges.len() == 0 {
    } else {
        let dl = edges.drop_last();
        let e = edges.last();
        let prev = tally(dl);
        lemma_tally_distinct(dl);
        lemma_tally_parents(dl, child_id);
        let new = tally(edges);
        if e.0.id_spec() == child_id {
            if has_child(prev, child_id) {
                let i0 = child_index(prev, child_id);
                assert(0 <= i0 < prev.len() && prev[i0].0.id_spec() == child_id);
                lemma_child_index_unique(prev, e.0.id_spec(), i0);
                assert(new == prev.update(i0, (prev[i0].0, prev[i0].1.push(e.1))));
                assert(new[i0].0.id_spec() == child_id);
                lemma_child_index_unique(new, child_id, i0);
                assert(new[i0].1 == parents_of(dl, child_id).push(e.1));
                assert(parents_of(edges, child_id) == parents_of(dl, child_id).push(e.1));
            } else {
                assert(!has_child(prev, e.0.id_spec()));
                assert(new == prev.push((e.0, seq![e.1])));
                let i0 = prev.len() as int;
                assert(new[i0].0.id_spec() == child_id);
                lemma_child_index_unique(new, child_id, i0);
                assert(parents_of(dl, child_id).len() == 0);
                assert(parents_of(dl, child_id) =~= Seq::<Handle<U>>::empty());
                assert(new[i0].1 == seq![e.1]);
                assert(parents_of(edges, child_id) =~= seq![e.1]);
            }
        } else {
            assert(parents_of(edges, child_id) == parents_of(dl, child_id));
            if has_child(prev, e.0.id_spec()) {
                let j0 = child_index(prev, e.0.id_spec());
                assert(0 <= j0 < prev.len() && prev[j0].0.id_spec() == e.0.id_spec());
                assert(new == prev.update(j0, (prev[j0].0, prev[j0].1.push(e.1))));
                assert(forall|k: int| 0 <= k < new.len() ==> (#[trigger] new[k]).0 == prev[k].0);
                if has_child(prev, child_id) {
                    let i0 = child_index(prev, child_id);
                    assert(0 <= i0 < prev.len() && prev[i0].0.id_spec() == child_id);
                    assert(i0 != j0);
                    assert(new[i0] == prev[i0]);
                    lemma_child_index_unique(new, child_id, i0);
                }
                if has_child(new, child_id) {
                    let i1 = child_index(new, child_id);
                    assert(0 <= i1 < new.len() && new[i1].0.id_spec() == child_id);
                    assert(prev[i1].0.id_spec() == child_id);
                }
            } else {
                assert(new == prev.push((e.0, seq![e.1])));
                if has_child(prev, child_id) {
                    let i0 = child_index(prev, child_id);
                    assert(0 <= i0 < prev.len() && prev[i0].0.id_spec() == child_id);
                    assert(new[i0].0.id_spec() == child_id);
                    lemma_child_index_unique(new, child_id, i0);
                    assert(new[i0] == prev[i0]);
                }
                if has_child(new, child_id) {
                    let i1 = child_index(new, child_id);
                    assert(0 <= i1 < new.len() && new[i1].0.id_spec() == child_id);
                    assert(i1 < prev.len());
                    assert(prev[i1].0.id_spec() == child_id);
                }
            }
        }
    }
}

/// The entries whose child has more than one referencing parent, in
/// accumulation order.
pub open spec fn violations<T, U>(entries: Seq<(Handle<T>, Seq<Handle<U>>)>) -> Seq<
    (Handle<T>, Seq<Handle<U>>),
>
    decreases entries.len(),
{
    if entries.len() == 0 {
        Seq::empty()
    } else {
        let prev = violations(entries.drop_last());
        if entries.last().1.len() >= 2 {
            prev.push(entries.last())
        } else {
            prev
        }
    }
}

/// The position of the accumulated entry that the `j`-th violation was
/// taken from.
pub open spec fn violation_source<T, U>(entries: Seq<(Handle<T>, Seq<Handle<U>>)>, j: int) -> int
    decreases entries.len(),
{
    if entries.len() == 0 {
        0
    } else if entries.last().1.len() >= 2 && j == violations(entries.drop_last()).len() {
        entries.len() - 1
    } else {
        violation_source(entries.drop_last(), j)
    }
}

/// Every violation is the accumulated entry at its source position, an
/// entry with at least two parents.
pub proof fn lemma_violation_source<T, U>(entries: Seq<(Handle<T>, Seq<Handle<U>>)>, j: int)
    requires
        0 <= j < violations(entries).len(),
    ensures
        0 <= violation_source(entries, j) < entries.len(),
        entries[violation_source(entries, j)] == violations(entries)[j],
        entries[violation_source(entries, j)].1.len() >= 2,
    decreases entries.len(),
{
    let dl = entries.drop_last();
    if entries.last().1.len() >= 2 && j == violations(dl).len() {
        assert(violations(entries) == violations(dl).push(entries.last()));
    } else {
        lemma_violation_source(dl, j);
        assert(entries[violation_source(entries, j)] == dl[violation_source(dl, j)]);
    }
}

/// Later violations come from later accumulated entries.
pub proof fn lemma_violation_source_increasing<T, U>(
    entries: Seq<(Handle<T>, Seq<Handle<U>>)>,
    a: int,
    b: int,
)
    requires
        0 <= a < b < violations(entries).len(),
    ensures
        violation_source(entries, a) < violation_source(entries, b),
    decreases entries.len(),
{
    let dl = entries.drop_last();
    if entries.last().1.len() >= 2 && b == violations(dl).len() {
        lemma_violation_source(dl, a);
    } else {
        lemma_violation_source_increasing(dl, a, b);
        lemma_violation_source(dl, a);
        lemma_violation_source(dl, b);
    }
}

/// Every accumulated entry with at least two parents appears among the
/// violations.
pub proof fn lemma_violations_complete<T, U>(entries: Seq<(Handle<T>, Seq<Handle<U>>)>)
    ensures
        forall|i: int|
            0 <= i < entries.len() && (#[trigger] entries[i]).1.len() >= 2 ==> exists|j: int|
                0 <= j < violations(entries).len() && violations(entries)[j] == entries[i],
    decreases entries.len(),
{
    if entries.len() > 0 {
        let dl = entries.drop_last();
        lemma_violations_complete(dl);
        let vp = violations(dl);
        let v = violations(entries);
        assert forall|i: int|
            0 <= i < entries.len() && (#[trigger] entries[i]).1.len() >= 2 implies exists|j: int|
            0 <= j < violations(entries).len() && violations(entries)[j] == entries[i] by {
            if i < dl.len() {
                assert(dl[i] == entries[i]);
                let j = choose|j: int| 0 <= j < vp.len() && vp[j] == dl[i];
                assert(vp.len() <= v.len());
                assert(v[j] == vp[j]);
                assert(0 <= j < v.len() && v[j] == entries[i]);
            } else {
                assert(entries.last() == entries[i]);
                assert(v == vp.push(entries.last()));
                assert(v[v.len() - 1] == entries[i]);
            }
        }
    }
}

/// With distinct children among the entries, the violations have distinct
/// children too.
pub proof fn lemma_violations_distinct<T, U>(entries: Seq<(Handle<T>, Seq<Handle<U>>)>)
    requires
        distinct_children(entries),
    ensures
        distinct_children(violations(entries)),
{
    let v = violations(entries);
    assert forall|a: int, b: int| 0 <= a < b < v.len() implies (#[trigger] v[a]).0.id_spec() != (
    #[trigger] v[b]).0.id_spec() by {
        lemma_violation_source(entries, a);
        lemma_violation_source(entries, b);
        lemma_violation_source_increasing(entries, a, b);
    }
}

/// For any number n ≥ 2 of parents referencing one child under an
/// exclusive-ownership edge, counting the edges yields exactly one
/// violation for that child — at one position of the violation list, and
/// at no other — and its parent list holds precisely those n parents, in
/// edge order. This holds of every edge sequence, so it is independent of
/// the traversal order that produced the edges.
pub proof fn lemma_exclusive_ownership_violation<T, U>(
    edges: Seq<(Handle<T>, Handle<U>)>,
    child_id: u64,
)
    requires
        parents_of(edges, child_id).len() >= 2,
    ensures
        exists|j: int|
            {
                &&& 0 <= j < violations(tally(edges)).len()
                &&& (#[trigger] violations(tally(edges))[j]).0.id_spec() == child_id
                &&& violations(tally(edges))[j].1 == parents_of(edges, child_id)
            },
        forall|j1: int, j2: int|
            0 <= j1 < violations(tally(edges)).len() && 0 <= j2 < violations(tally(edges)).len()
                && (#[trigger] violations(tally(edges))[j1]).0.id_spec() == child_id && (
            #[trigger] violations(tally(edges))[j2]).0.id_spec() == child_id ==> j1 == j2,
{
    let t = tally(edges);
    lemma_tally_distinct(edges);
    lemma_tally_parents(edges, child_id);
    lemma_violations_complete(t);
    lemma_violations_distinct(t);
    let i = child_index(t, child_id);
    assert(t[i].1.len() >= 2);
    let j = choose|j: int| 0 <= j < violations(t).len() && violations(t)[j] == t[i];
    assert(0 <= j < violations(t).len() && (#[trigger] violations(t)[j]).0.id_spec() == child_id
        && violations(t)[j].1 == parents_of(edges, child_id));
    assert(distinct_children(violations(t)));
}


/// The per-child entries a counter holds, with each parent list viewed as
/// a sequence.
pub open spec fn view_of_entries<T, U>(entries: Seq<(Handle<T>, Vec<Handle<U>>)>) -> Seq<
    (Handle<T>, Seq<Handle<U>>),
> {
    Seq::new(entries.len(), |i: int| (entries[i].0, entries[i].1@))
}

/// Counts, per distinct child identity, the parents referencing it.
pub struct ReferenceCounter<T, U> {
    entries: Vec<(Handle<T>, Vec<Handle<U>>)>,
}

impl<T, U> View for ReferenceCounter<T, U> {
    type V = Seq<(Handle<T>, Seq<Handle<U>>)>;

    closed spec fn view(&self) -> Seq<(Handle<T>, Seq<Handle<U>>)> {
        view_of_entries(self.entries@)
    }
}

impl<T, U> ReferenceCounter<T, U> {
    /// The children counted so far are distinct; Verus maintains this as a
    /// type invariant.
    #[verifier::type_invariant]
    spec fn wf(self) -> bool {
        distinct_children(view_of_entries(self.entries@))
    }

    /// Start counting with nothing counted yet.
    pub fn new() -> (r: ReferenceCounter<T, U>)
        ensures
            r@ == Seq::<(Handle<T>, Seq<Handle<U>>)>::empty(),
    {
        let r = ReferenceCounter { entries: Vec::new() };
        proof {
            assert(r@ =~= Seq::<(Handle<T>, Seq<Handle<U>>)>::empty());
        }
        r
    }

    /// Count one parent→child edge.
    pub fn count(&mut self, to: Handle<T>, from: Handle<U>)
        ensures
            final(self)@ == tally_step(old(self)@, to, from),
    {
        proof {
            use_type_invariant(&*self);
        }
        let mut entries: Vec<(Handle<T>, Vec<Handle<U>>)> = Vec::new();
        std::mem::swap(&mut entries, &mut self.entries);
        let ghost old_view = old(self)@;
        proof {
            assert(old_view == view_of_entries(entries@));
            assert(distinct_children(old_view));
        }
        let n = entries.len();
        let to_id = to.id();
        let mut i: usize = 0;
        while i < n
            invariant
                n == entries@.len(),
                i <= n,
                old_view == old(self)@,
                old_view == view_of_entries(entries@),
                old_view.len() == n,
                distinct_children(old_view),
                to_id == to.id_spec(),
                forall|j: int| 0 <= j < i ==> (#[trigger] old_view[j]).0.id_spec() != to.id_spec(),
            decreases n - i,
        {
            proof {
                assert(old_view[i as int] == (entries@[i as int].0, entries@[i as int].1@));
            }
            if entries[i].0.id() == to_id {
                proof {
                    assert(old_view[i as int].0.id_spec() == to.id_spec());
                    assert(has_child(old_view, to.id_spec()));
                    lemma_child_index_unique(old_view, to.id_spec(), i as int);
                    lemma_tally_step_distinct(old_view, to, from);
                }
                let mut pair = entries.remove(i);
                pair.1.push(from);
                entries.insert(i, pair);
                proof {
                    assert(view_of_entries(entries@) =~= old_view.update(
                        i as int,
                        (old_view[i as int].0, old_view[i as int].1.push(from)),
                    ));
                    assert(view_of_entries(entries@) == tally_step(old_view, to, from));
                    assert(distinct_children(view_of_entries(entries@)));
                }
                self.entries = entries;
                proof {
                    assert(self@ == view_of_entries(self.entries@));
                    assert(self@ == tally_step(old_view, to, from));
                }
                return ;
            }
            i = i + 1;
        }
        proof {
            assert(!has_child(old_view, to.id_spec()));
            lemma_tally_step_distinct(old_view, to, from);
        }
        let mut parents: Vec<Handle<U>> = Vec::new();
        parents.push(from);
        entries.push((to, parents));
        proof {
            assert(view_of_entries(entries@) =~= old_view.push((to, seq![from])));
            assert(view_of_entries(entries@) == tally_step(old_view, to, from));
            assert(distinct_children(view_of_entries(entries@)));
        }
        self.entries = entries;
        proof {
            assert(self@ == view_of_entries(self.entries@));
            assert(self@ == tally_step(old_view, to, from));
        }
    }

    /// Hand out one violation record per child that more than one parent
    /// references, in the order the children were first counted.
    pub fn multiples(self) -> (r: Vec<MultipleReferencesToObject<T, U>>)
        ensures
            multi_ref_found(r@, violations(self@)),
    {
        proof {
            use_type_invariant(&self);
        }
        let ghost view = self@;
        let n = self.entries.len();
        let mut out: Vec<MultipleReferencesToObject<T, U>> = Vec::new();
        let mut i: usize = 0;
        while i < n
            invariant
                n == self.entries@.len(),
                view == view_of_entries(self.entries@),
                view.len() == n,
                i <= n,
                out@.len() == violations(view.take(i as int)).len(),
                forall|j: int|
                    0 <= j < out@.len() ==> (#[trigger] out@[j]).object_spec() == violations(
                        view.take(i as int),
                    )[j].0 && out@[j].referenced_by_spec() == violations(view.take(i as int))[j].1,
            decreases n - i,
        {
            proof {
                assert(view[i as int] == (self.entries@[i as int].0, self.entries@[i as int].1@));
                assert(view.take(i + 1 as int).drop_last() =~= view.take(i as int));
                assert(view.take(i + 1 as int).last() == view[i as int]);
            }
            if self.entries[i].1.len() >= 2 {
                let record = MultipleReferencesToObject {
                    object: self.entries[i].0.clone(),
                    referenced_by: Arc::new(clone_handles(&self.entries[i].1)),
                };
                proof {
                    assert(record.object_spec() == view[i as int].0);
                    assert(record.referenced_by_spec() == view[i as int].1);
                }
                out.push(record);
            }
            i = i + 1;
        }
        proof {
            assert(view.take(n as int) =~= view);
        }
        out
    }
}

/// What a list of violation records says: one record per violation, each
/// naming that violation's child and its complete parent list, in order.
pub open spec fn multi_ref_found<T, U>(
    found: Seq<MultipleReferencesToObject<T, U>>,
    viol: Seq<(Handle<T>, Seq<Handle<U>>)>,
) -> bool {
    &&& found.len() == viol.len()
    &&& forall|j: int|
        0 <= j < viol.len() ==> (#[trigger] found[j]).object_spec() == viol[j].0
            && found[j].referenced_by_spec() == viol[j].1
}

/// Count a whole edge list, in order.
pub fn tally_edges<T, U>(edges: &Vec<(Handle<T>, Handle<U>)>) -> (r: ReferenceCounter<T, U>)
    ensures
        r@ == tally(edges@),
{
    let mut counter = ReferenceCounter::new();
    let n = edges.len();
    let mut k: usize = 0;
    while k < n
        invariant
            n == edges@.len(),
            k <= n,
            counter@ == tally(edges@.take(k as int)),
        decreases n - k,
    {
        counter.count(edges[k].0.clone(), edges[k].1.clone());
        k = k + 1;
        proof {
            assert(edges@.take(k as int).drop_last() =~= edges@.take(k - 1 as int));
            assert(edges@.take(k as int).last() == edges@[k - 1 as int]);
        }
    }
    proof {
        assert(edges@.take(n as int) =~= edges@);
    }
    counter
}


/// What a completed check reports of one shared child: a check whose
/// result matches the violations of an edge tally reports a child with
/// n ≥ 2 referencing parents in exactly one record, which carries those n
/// parents in edge order — independent of the traversal order, since the
/// statement holds of every edge sequence.
pub proof fn lemma_check_reports_shared_child<T, U>(
    found: Seq<MultipleReferencesToObject<T, U>>,
    edges: Seq<(Handle<T>, Handle<U>)>,
    child_id: u64,
)
    requires
        multi_ref_found(found, violations(tally(edges))),
        parents_of(edges, child_id).len() >= 2,
    ensures
        exists|j: int|
            {
                &&& 0 <= j < found.len()
                &&& (#[trigger] found[j]).object_spec().id_spec() == child_id
                &&& found[j].referenced_by_spec() == parents_of(edges, child_id)
            },
        forall|j1: int, j2: int|
            0 <= j1 < found.len() && 0 <= j2 < found.len() && (
            #[trigger] found[j1]).object_spec().id_spec() == child_id && (
            #[trigger] found[j2]).object_spec().id_spec() == child_id ==> j1 == j2,
{
    lemma_exclusive_ownership_violation(edges, child_id);
    let v = violations(tally(edges));
    let j = choose|j: int|
        {
            &&& 0 <= j < v.len()
            &&& (#[trigger] v[j]).0.id_spec() == child_id
            &&& v[j].1 == parents_of(edges, child_id)
        };
    assert(0 <= j < found.len() && (#[trigger] found[j]).object_spec().id_spec() == child_id
        && found[j].referenced_by_spec() == parents_of(edges, child_id));
    assert forall|j1: int, j2: int|
        0 <= j1 < found.len() && 0 <= j2 < found.len() && (
        #[trigger] found[j1]).object_spec().id_spec() == child_id && (
        #[trigger] found[j2]).object_spec().id_spec() == child_id implies j1 == j2 by {
        assert(v[j1].0.id_spec() == child_id);
        assert(v[j2].0.id_spec() == child_id);
    }
}

/// The cycle→region ownership edges one region contributes: each of its
/// bounding cycles, referenced by that region.
pub open spec fn region_cycle_pairs(region: Handle<Region>) -> Seq<(Handle<Cycle>, Handle<Region>)> {
    region.value_spec().cycles_spec().map_values(|c: Handle<Cycle>| (c, region))
}

/// The cycle→region ownership edges of a region list, in traversal order.
pub open spec fn cycle_edges_of_regions(regions: Seq<Handle<Region>>) -> Seq<
    (Handle<Cycle>, Handle<Region>),
>
    decreases regions.len(),
{
    if regions.len() == 0 {
        Seq::empty()
    } else {
        cycle_edges_of_regions(regions.drop_last()) + region_cycle_pairs(regions.last())
    }
}

/// The half-edge→cycle ownership edges one cycle contributes.
pub open spec fn cycle_half_edge_pairs(cycle: Handle<Cycle>) -> Seq<
    (Handle<HalfEdge>, Handle<Cycle>),
> {
    cycle.value_spec().half_edges_spec().map_values(|he: Handle<HalfEdge>| (he, cycle))
}

/// The half-edge→cycle ownership edges of a cycle list, in traversal order.
pub open spec fn half_edge_edges_of_cycles(cycles: Seq<Handle<Cycle>>) -> Seq<
    (Handle<HalfEdge>, Handle<Cycle>),
>
    decreases cycles.len(),
{
    if cycles.len() == 0 {
        Seq::empty()
    } else {
        half_edge_edges_of_cycles(cycles.drop_last()) + cycle_half_edge_pairs(cycles.last())
    }
}

/// The half-edge→cycle ownership edges below a region list, in traversal
/// order.
pub open spec fn half_edge_edges_of_regions(regions: Seq<Handle<Region>>) -> Seq<
    (Handle<HalfEdge>, Handle<Cycle>),
>
    decreases regions.len(),
{
    if regions.len() == 0 {
        Seq::empty()
    } else {
        half_edge_edges_of_regions(regions.drop_last()) + half_edge_edges_of_cycles(
            regions.last().value_spec().cycles_spec(),
        )
    }
}

/// Every face of a shell list, in traversal order.
pub open spec fn faces_of_shells(shells: Seq<Handle<Shell>>) -> Seq<Handle<Face>>
    decreases shells.len(),
{
    if shells.len() == 0 {
        Seq::empty()
    } else {
        faces_of_shells(shells.drop_last()) + shells.last().value_spec().faces_spec()
    }
}

/// The region of each face, in face order.
pub open spec fn regions_of_faces(faces: Seq<Handle<Face>>) -> Seq<Handle<Region>> {
    faces.map_values(|f: Handle<Face>| f.value_spec().region_spec())
}

/// The region→face ownership edges of a face list, in face order.
pub open spec fn region_face_edges(faces: Seq<Handle<Face>>) -> Seq<(Handle<Region>, Handle<Face>)> {
    faces.map_values(|f: Handle<Face>| (f.value_spec().region_spec(), f))
}

/// Collect the cycle→region ownership edges of a region list.
fn collect_cycle_region_edges(regions: &Vec<Handle<Region>>) -> (r: Vec<
    (Handle<Cycle>, Handle<Region>),
>)
    ensures
        r@ == cycle_edges_of_regions(regions@),
{
    let mut out: Vec<(Handle<Cycle>, Handle<Region>)> = Vec::new();
    let n = regions.len();
    let mut i: usize = 0;
    while i < n
        invariant
            n == regions@.len(),
            i <= n,
            out@ == cycle_edges_of_regions(regions@.take(i as int)),
        decreases n - i,
    {
        let region_handle = &regions[i];
        let region_ref = region_handle.get();
        let cycles = region_ref.0.all_cycles();
        let ghost base = out@;
        let m = cycles.len();
        let mut j: usize = 0;
        while j < m
            invariant
                m == cycles@.len(),
                j <= m,
                cycles@ == regions@[i as int].value_spec().cycles_spec(),
                *region_handle == regions@[i as int],
                i < regions@.len(),
                out@.len() == base.len() + j,
                out@.take(base.len() as int) == base,
                forall|k: int|
                    0 <= k < j ==> out@[base.len() + k] == (cycles@[k], regions@[i as int]),
            decreases m - j,
        {
            out.push((cycles[j].clone(), region_handle.clone()));
            proof {
                assert(out@.take(base.len() as int) =~= base);
            }
            j = j + 1;
        }
        proof {
            assert(out@ =~= base + region_cycle_pairs(regions@[i as int]));
            assert(regions@.take(i + 1 as int).drop_last() =~= regions@.take(i as int));
            assert(regions@.take(i + 1 as int).last() == regions@[i as int]);
            assert(out@ == cycle_edges_of_regions(regions@.take(i + 1 as int)));
        }
        i = i + 1;
    }
    proof {
        assert(regions@.take(n as int) =~= regions@);
    }
    out
}

/// Collect the half-edge→cycle ownership edges below a region list.
fn collect_half_edge_cycle_edges(regions: &Vec<Handle<Region>>) -> (r: Vec<
    (Handle<HalfEdge>, Handle<Cycle>),
>)
    ensures
        r@ == half_edge_edges_of_regions(regions@),
{
    let mut out: Vec<(Handle<HalfEdge>, Handle<Cycle>)> = Vec::new();
    let n = regions.len();
    let mut i: usize = 0;
    while i < n
        invariant
            n == regions@.len(),
            i <= n,
            out@ == half_edge_edges_of_regions(regions@.take(i as int)),
        decreases n - i,
    {
        let region_ref = regions[i].get();
        let cycles = region_ref.0.all_cycles();
        let m = cycles.len();
        let mut j: usize = 0;
        while j < m
            invariant
                m == cycles@.len(),
                j <= m,
                cycles@ == regions@[i as int].value_spec().cycles_spec(),
                i < regions@.len(),
                out@ == half_edge_edges_of_regions(regions@.take(i as int))
                    + half_edge_edges_of_cycles(cycles@.take(j as int)),
            decreases m - j,
        {
            let cycle_handle = &cycles[j];
            let cycle_ref = cycle_handle.get();
            let half_edges = cycle_ref.0.half_edges();
            let ghost base = out@;
            let p = half_edges.len();
            let mut k: usize = 0;
            while k < p
                invariant
                    p == half_edges@.len(),
                    k <= p,
                    half_edges@ == cycles@[j as int].value_spec().half_edges_spec(),
                    *cycle_handle == cycles@[j as int],
                    j < cycles@.len(),
                    out@.len() == base.len() + k,
                    out@.take(base.len() as int) == base,
                    forall|q: int|
                        0 <= q < k ==> out@[base.len() + q] == (half_edges@[q], cycles@[j as int]),
                decreases p - k,
            {
                out.push((half_edges[k].clone(), cycle_handle.clone()));
                proof {
                    assert(out@.take(base.len() as int) =~= base);
                }
                k = k + 1;
            }
            proof {
                assert(out@ =~= base + cycle_half_edge_pairs(cycles@[j as int]));
                assert(cycles@.take(j + 1 as int).drop_last() =~= cycles@.take(j as int));
                assert(cycles@.take(j + 1 as int).last() == cycles@[j as int]);
                assert(half_edge_edges_of_cycles(cycles@.take(j + 1 as int))
                    == half_edge_edges_of_cycles(cycles@.take(j as int)) + cycle_half_edge_pairs(
                    cycles@[j as int],
                ));
                assert(out@ =~= half_edge_edges_of_regions(regions@.take(i as int))
                    + half_edge_edges_of_cycles(cycles@.take(j + 1 as int)));
            }
            j = j + 1;
        }
        proof {
            assert(cycles@.take(m as int) =~= cycles@);
            assert(regions@.take(i + 1 as int).drop_last() =~= regions@.take(i as int));
            assert(regions@.take(i + 1 as int).last() == regions@[i as int]);
            assert(out@ == half_edge_edges_of_regions(regions@.take(i + 1 as int)));
        }
        i = i + 1;
    }
    proof {
        assert(regions@.take(n as int) =~= regions@);
    }
    out
}

/// Collect every face of a solid, shell by shell.
fn collect_faces_of_solid(solid: &Solid) -> (r: Vec<Handle<Face>>)
    ensures
        r@ == faces_of_shells(solid.shells_spec()),
{
    let mut out: Vec<Handle<Face>> = Vec::new();
    let shells = solid.shells();
    let n = shells.len();
    let mut i: usize = 0;
    while i < n
        invariant
            n == shells@.len(),
            shells@ == solid.shells_spec(),
            i <= n,
            out@ == faces_of_shells(shells@.take(i as int)),
        decreases n - i,
    {
        let shell_ref = shells[i].get();
        let faces = shell_ref.0.faces();
        let ghost base = out@;
        let m = faces.len();
        let mut j: usize = 0;
        while j < m
            invariant
                m == faces@.len(),
                j <= m,
                faces@ == shells@[i as int].value_spec().faces_spec(),
                i < shells@.len(),
                out@.len() == base.len() + j,
                out@.take(base.len() as int) == base,
                forall|k: int| 0 <= k < j ==> out@[base.len() + k] == faces@[k],
            decreases m - j,
        {
            out.push(faces[j].clone());
            proof {
                assert(out@.take(base.len() as int) =~= base);
            }
            j = j + 1;
        }
        proof {
            assert(out@ =~= base + shells@[i as int].value_spec().faces_spec());
            assert(shells@.take(i + 1 as int).drop_last() =~= shells@.take(i as int));
            assert(shells@.take(i + 1 as int).last() == shells@[i as int]);
            assert(out@ == faces_of_shells(shells@.take(i + 1 as int)));
        }
        i = i + 1;
    }
    proof {
        assert(shells@.take(n as int) =~= shells@);
    }
    out
}

/// Collect the region of each face.
fn collect_regions_of_faces(faces: &Vec<Handle<Face>>) -> (r: Vec<Handle<Region>>)
    ensures
        r@ == regions_of_faces(faces@),
{
    let mut out: Vec<Handle<Region>> = Vec::new();
    let n = faces.len();
    let mut i: usize = 0;
    while i < n
        invariant
            n == faces@.len(),
            i <= n,
            out@.len() == i,
            forall|k: int| 0 <= k < i ==> out@[k] == faces@[k].value_spec().region_spec(),
        decreases n - i,
    {
        let face_ref = faces[i].get();
        out.push(face_ref.0.region().clone());
        i = i + 1;
    }
    proof {
        assert(out@ =~= regions_of_faces(faces@));
    }
    out
}

/// Collect the region→face ownership edges of a face list.
fn collect_region_face_edges(faces: &Vec<Handle<Face>>) -> (r: Vec<(Handle<Region>, Handle<Face>)>)
    ensures
        r@ == region_face_edges(faces@),
{
    let mut out: Vec<(Handle<Region>, Handle<Face>)> = Vec::new();
    let n = faces.len();
    let mut i: usize = 0;
    while i < n
        invariant
            n == faces@.len(),
            i <= n,
            out@.len() == i,
            forall|k: int|
                0 <= k < i ==> out@[k] == (faces@[k].value_spec().region_spec(), faces@[k]),
        decreases n - i,
    {
        let face_ref = faces[i].get();
        out.push((face_ref.0.region().clone(), faces[i].clone()));
        i = i + 1;
    }
    proof {
        assert(out@ =~= region_face_edges(faces@));
    }
    out
}

/// A validation check: a stateless rule inspecting one object of kind `T`
/// plus geometry, producing a finite list of structured errors.
pub trait ValidationCheck<T>: Sized {
    /// What the returned findings say of the object.
    spec fn check_rel(object: &T, geometry: &Geometry, found: Seq<Self>) -> bool;

    /// Run the check against the object, the geometry lookup and the
    /// host's configuration.
    fn check(object: &T, geometry: &Geometry, config: &ValidationConfig) -> (r: Vec<Self>)
        ensures
            Self::check_rel(object, geometry, r@),
    ;
}

impl ValidationCheck<Sketch> for MultipleReferencesToObject<Cycle, Region> {
    /// One violation per cycle that more than one of the sketch's regions
    /// references, with the complete region list.
    open spec fn check_rel(object: &Sketch, geometry: &Geometry, found: Seq<Self>) -> bool {
        multi_ref_found(found, violations(tally(cycle_edges_of_regions(object.regions_spec()))))
    }

    fn check(object: &Sketch, geometry: &Geometry, config: &ValidationConfig) -> Vec<Self> {
        let edges = collect_cycle_region_edges(object.regions());
        tally_edges(&edges).multiples()
    }
}

impl ValidationCheck<Sketch> for MultipleReferencesToObject<HalfEdge, Cycle> {
    /// One violation per half-edge that more than one cycle of the sketch
    /// references, with the complete cycle list.
    open spec fn check_rel(object: &Sketch, geometry: &Geometry, found: Seq<Self>) -> bool {
        multi_ref_found(found, violations(tally(half_edge_edges_of_regions(object.regions_spec()))))
    }

    fn check(object: &Sketch, geometry: &Geometry, config: &ValidationConfig) -> Vec<Self> {
        let edges = collect_half_edge_cycle_edges(object.regions());
        tally_edges(&edges).multiples()
    }
}

impl ValidationCheck<Solid> for MultipleReferencesToObject<Region, Face> {
    /// One violation per region that more than one face of the solid
    /// references, with the complete face list.
    open spec fn check_rel(object: &Solid, geometry: &Geometry, found: Seq<Self>) -> bool {
        multi_ref_found(
            found,
            violations(tally(region_face_edges(faces_of_shells(object.shells_spec())))),
        )
    }

    fn check(object: &Solid, geometry: &Geometry, config: &ValidationConfig) -> Vec<Self> {
        let faces = collect_faces_of_solid(object);
        let edges = collect_region_face_edges(&faces);
        tally_edges(&edges).multiples()
    }
}

impl ValidationCheck<Solid> for MultipleReferencesToObject<Cycle, Region> {
    /// One violation per cycle that more than one region of the solid
    /// references, with the complete region list.
    open spec fn check_rel(object: &Solid, geometry: &Geometry, found: Seq<Self>) -> bool {
        multi_ref_found(
            found,
            violations(
                tally(
                    cycle_edges_of_regions(
                        regions_of_faces(faces_of_shells(object.shells_spec())),
                    ),
                ),
            ),
        )
    }

    fn check(object: &Solid, geometry: &Geometry, config: &ValidationConfig) -> Vec<Self> {
        let faces = collect_faces_of_solid(object);
        let regions = collect_regions_of_faces(&faces);
        let edges = collect_cycle_region_edges(&regions);
        tally_edges(&edges).multiples()
    }
}

impl ValidationCheck<Solid> for MultipleReferencesToObject<HalfEdge, Cycle> {
    /// One violation per half-edge that more than one cycle of the solid
    /// references, with the complete cycle list.
    open spec fn check_rel(object: &Solid, geometry: &Geometry, found: Seq<Self>) -> bool {
        multi_ref_found(
            found,
            violations(
                tally(
                    half_edge_edges_of_regions(
                        regions_of_faces(faces_of_shells(object.shells_spec())),
                    ),
                ),
            ),
        )
    }

    fn check(object: &Solid, geometry: &Geometry, config: &ValidationConfig) -> Vec<Self> {
        let faces = collect_faces_of_solid(object);
        let regions = collect_regions_of_faces(&faces);
        let edges = collect_half_edge_cycle_edges(&regions);
        tally_edges(&edges).multiples()
    }
}

/// Whether the face's exterior cycle has no half-edges at all, so the
/// boundary encloses nothing.
pub open spec fn face_has_no_boundary(face: &Face) -> bool {
    face.region_spec().value_spec().exterior_spec().value_spec().half_edges_spec().len() == 0
}

/// The face's boundary is empty: its bounding cycles enclose no area.
#[derive(Clone, Copy, Debug, PartialEq, Eq, Structural)]
pub struct FaceHasNoBoundary {}

impl ValidationCheck<Face> for FaceHasNoBoundary {
    /// Exactly one finding when the face's boundary is empty, none
    /// otherwise.
    open spec fn check_rel(object: &Face, geometry: &Geometry, found: Seq<Self>) -> bool {
        found == (if face_has_no_boundary(object) {
            seq![FaceHasNoBoundary {  }]
        } else {
            Seq::<FaceHasNoBoundary>::empty()
        })
    }

    fn check(object: &Face, geometry: &Geometry, config: &ValidationConfig) -> Vec<Self> {
        let region_ref = object.region().get();
        let exterior_ref = region_ref.0.exterior().get();
        let mut out: Vec<FaceHasNoBoundary> = Vec::new();
        if exterior_ref.0.half_edges().len() == 0 {
            out.push(FaceHasNoBoundary {  });
            proof {
                assert(out@ =~= seq![FaceHasNoBoundary {  }]);
            }
        } else {
            proof {
                assert(out@ =~= Seq::<FaceHasNoBoundary>::empty());
            }
        }
        out
    }
}

/// An interior (hole) cycle of a face winds the same way as the face's
/// exterior cycle, where the standard hole rule demands the opposite
/// orientation.
#[derive(Debug)]
pub struct InteriorCycleHasInvalidWinding {
    /// The interior cycle whose winding is wrong.
    pub interior_cycle: Handle<Cycle>,
    /// The winding of the face's exterior cycle.
    pub exterior_winding: Winding,
    /// The winding the interior cycle actually has.
    pub interior_winding: Winding,
}

impl Clone for InteriorCycleHasInvalidWinding {
    /// A clone names the same cycle and the same windings.
    fn clone(&self) -> (r: Self)
        ensures
            r == *self,
    {
        InteriorCycleHasInvalidWinding {
            interior_cycle: self.interior_cycle.clone(),
            exterior_winding: self.exterior_winding,
            interior_winding: self.interior_winding,
        }
    }
}

/// The winding findings over the first `k` interior cycles of the face:
/// one finding per interior cycle whose winding is determined and equal to
/// the exterior's. An undetermined winding — an unconstrained corner or a
/// degenerate polygon — constrains nothing.
pub open spec fn winding_errors_to(geometry: &Geometry, face: &Face, k: int) -> Seq<
    InteriorCycleHasInvalidWinding,
>
    decreases k,
{
    if k <= 0 {
        Seq::empty()
    } else {
        let prev = winding_errors_to(geometry, face, k - 1);
        let region = face.region_spec().value_spec();
        let surface_id = face.surface_spec().id_spec();
        let interior = region.interiors_spec()[k - 1];
        match (
            cycle_winding_spec(geometry, &region.exterior_spec().value_spec(), surface_id),
            cycle_winding_spec(geometry, &interior.value_spec(), surface_id),
        ) {
            (Option::Some(exterior_winding), Option::Some(interior_winding)) => {
                if exterior_winding == interior_winding {
                    prev.push(
                        InteriorCycleHasInvalidWinding {
                            interior_cycle: interior,
                            exterior_winding,
                            interior_winding,
                        },
                    )
                } else {
                    prev
                }
            },
            _ => prev,
        }
    }
}

/// The winding findings over all interior cycles of the face.
pub open spec fn winding_errors(geometry: &Geometry, face: &Face) -> Seq<
    InteriorCycleHasInvalidWinding,
> {
    winding_errors_to(
        geometry,
        face,
        face.region_spec().value_spec().interiors_spec().len() as int,
    )
}

impl ValidationCheck<Face> for InteriorCycleHasInvalidWinding {
    /// Exactly the interior cycles that share the exterior's winding, in
    /// order.
    open spec fn check_rel(object: &Face, geometry: &Geometry, found: Seq<Self>) -> bool {
        found == winding_errors(geometry, object)
    }

    fn check(object: &Face, geometry: &Geometry, config: &ValidationConfig) -> Vec<Self> {
        let region_ref = object.region().get();
        let region = region_ref.0;
        let exterior_ref = region.exterior().get();
        let exterior_winding = cycle_winding(geometry, exterior_ref.0, object.surface());
        let interiors = region.interiors();
        let n = interiors.len();
        let mut out: Vec<InteriorCycleHasInvalidWinding> = Vec::new();
        let mut k: usize = 0;
        while k < n
            invariant
                n == interiors@.len(),
                k <= n,
                interiors@ == object.region_spec().value_spec().interiors_spec(),
                exterior_winding == cycle_winding_spec(
                    geometry,
                    &object.region_spec().value_spec().exterior_spec().value_spec(),
                    object.surface_spec().id_spec(),
                ),
                out@ == winding_errors_to(geometry, object, k as int),
            decreases n - k,
        {
            let interior_ref = interiors[k].get();
            let interior_winding = cycle_winding(geometry, interior_ref.0, object.surface());
            match (exterior_winding, interior_winding) {
                (Option::Some(ew), Option::Some(iw)) => {
                    if ew == iw {
                        out.push(
                            InteriorCycleHasInvalidWinding {
                                interior_cycle: interiors[k].clone(),
                                exterior_winding: ew,
                                interior_winding: iw,
                            },
                        );
                    }
                },
                _ => {},
            }
            k = k + 1;
            proof {
                assert(out@ == winding_errors_to(geometry, object, k as int));
            }
        }
        out
    }
}

} // verus!
