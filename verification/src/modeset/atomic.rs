//! The atomic transaction builder: accumulates (object, property, value)
//! writes across a batch and serializes the batch into the flat
//! parallel-array wire form that a single all-or-nothing commit expects.

use vstd::prelude::*;

verus! {

use crate::ioctl;
use crate::modeset::{ObjectId, PropertyId, spec_object_raw_id};
use super::props::{DeferredValue, IntoRawPropertyValue};

/// The logical content of an atomic request: for each touched object, in
/// ascending raw-id order, the (property id, value) pairs set on it, in
/// call order.
pub type AtomicView = Seq<(u32, Seq<(u32, u64)>)>;

/// Whether the objects of a request stand in strictly ascending id order.
pub open spec fn spec_sorted(v: AtomicView) -> bool {
    forall|i: int, j: int| 0 <= i < j < v.len() ==> v[i].0 < v[j].0
}

/// The total number of (property, value) pairs across all objects.
pub open spec fn spec_total_props(v: AtomicView) -> int
    decreases v.len(),
{
    if v.len() == 0 {
        0
    } else {
        v[0].1.len() + spec_total_props(v.skip(1))
    }
}

/// The content after one property write: the pair is appended to the
/// named object's list, and an object not yet present is entered at its
/// place in the id order with that single pair.
pub open spec fn spec_set(v: AtomicView, obj: u32, prop: u32, val: u64) -> AtomicView
    decreases v.len(),
{
    if v.len() == 0 {
        seq![(obj, seq![(prop, val)])]
    } else if v[0].0 == obj {
        seq![(v[0].0, v[0].1.push((prop, val)))].add(v.skip(1))
    } else if obj < v[0].0 {
        seq![(obj, seq![(prop, val)])].add(v)
    } else {
        seq![v[0]].add(spec_set(v.skip(1), obj, prop, val))
    }
}

/// The content after a reset: every object stays, with an empty list.
pub open spec fn spec_reset(v: AtomicView) -> AtomicView
    decreases v.len(),
{
    if v.len() == 0 {
        Seq::empty()
    } else {
        seq![(v[0].0, Seq::<(u32, u64)>::empty())].add(spec_reset(v.skip(1)))
    }
}

/// The list held for an object id, if the object is present.
pub open spec fn spec_view_get(v: AtomicView, k: u32) -> Option<Seq<(u32, u64)>>
    decreases v.len(),
{
    if v.len() == 0 {
        None
    } else if v[0].0 == k {
        Some(v[0].1)
    } else {
        spec_view_get(v.skip(1), k)
    }
}

/// The total is never negative, and no one object's list exceeds it.
proof fn lemma_total_bounds(v: AtomicView)
    ensures
        spec_total_props(v) >= 0,
        forall|i: int| 0 <= i < v.len() ==> #[trigger] v[i].1.len() <= spec_total_props(v),
    decreases v.len(),
{
    if v.len() > 0 {
        lemma_total_bounds(v.skip(1));
        assert forall|i: int| 0 <= i < v.len() implies #[trigger] v[i].1.len()
            <= spec_total_props(v) by {
            if i > 0 {
                assert(v.skip(1)[i - 1] == v[i]);
            }
        }
    }
}

/// The total of a concatenation is the sum of the totals.
proof fn lemma_total_concat(a: AtomicView, b: AtomicView)
    ensures
        spec_total_props(a.add(b)) == spec_total_props(a) + spec_total_props(b),
    decreases a.len(),
{
    if a.len() == 0 {
        assert(a.add(b) =~= b);
    } else {
        assert(a.add(b).skip(1) =~= a.skip(1).add(b));
        lemma_total_concat(a.skip(1), b);
    }
}

/// Where a walk has passed every id below the written one, the write is
/// an update in place when the id is found at the stopping point, and an
/// insertion at the stopping point otherwise.
proof fn lemma_spec_set_insert(v: AtomicView, obj: u32, prop: u32, val: u64, k: int)
    requires
        0 <= k <= v.len(),
        forall|j: int| 0 <= j < k ==> v[j].0 < obj,
        k < v.len() ==> obj <= v[k].0,
    ensures
        (k < v.len() && v[k].0 == obj) ==> spec_set(v, obj, prop, val) == v.update(
            k,
            (obj, v[k].1.push((prop, val))),
        ),
        !(k < v.len() && v[k].0 == obj) ==> spec_set(v, obj, prop, val) == v.take(k).add(
            seq![(obj, seq![(prop, val)])],
        ).add(v.skip(k)),
    decreases k,
{
    if k == 0 {
        if v.len() == 0 {
            assert(spec_set(v, obj, prop, val) =~= v.take(0).add(
                seq![(obj, seq![(prop, val)])],
            ).add(v.skip(0)));
        } else if v[0].0 == obj {
            assert(spec_set(v, obj, prop, val) =~= v.update(0, (obj, v[0].1.push((prop, val)))));
        } else {
            assert(spec_set(v, obj, prop, val) =~= v.take(0).add(
                seq![(obj, seq![(prop, val)])],
            ).add(v.skip(0)));
        }
    } else {
        let tail = v.skip(1);
        lemma_spec_set_insert(tail, obj, prop, val, k - 1);
        if k < v.len() && v[k].0 == obj {
            assert(tail[k - 1] == v[k]);
            assert(spec_set(v, obj, prop, val) == seq![v[0]].add(
                tail.update(k - 1, (obj, tail[k - 1].1.push((prop, val)))),
            ));
            assert(seq![v[0]].add(tail.update(k - 1, (obj, v[k].1.push((prop, val))))) =~= v.update(
                k,
                (obj, v[k].1.push((prop, val))),
            ));
        } else {
            assert(spec_set(v, obj, prop, val) == seq![v[0]].add(
                tail.take(k - 1).add(seq![(obj, seq![(prop, val)])]).add(tail.skip(k - 1)),
            ));
            assert(seq![v[0]].add(
                tail.take(k - 1).add(seq![(obj, seq![(prop, val)])]).add(tail.skip(k - 1)),
            ) =~= v.take(k).add(seq![(obj, seq![(prop, val)])]).add(v.skip(k)));
        }
    }
}

/// A private entry: one object's raw id and its two parallel lists.
#[derive(Debug)]
struct AtomicRequestObj {
    obj_id: u32,
    prop_ids: Vec<u32>,
    prop_values: Vec<u64>,
}

impl AtomicRequestObj {
    /// The (property, value) pairs of this entry.
    spec fn pairs(&self) -> Seq<(u32, u64)> {
        Seq::new(self.prop_ids@.len(), |j: int| (self.prop_ids@[j], self.prop_values@[j]))
    }
}

/// An atomic modesetting commit request.
///
/// Observably it is the content described by [`AtomicView`]: created
/// empty, grown one property write at a time, serialized read-only into
/// wire form, and resettable back to empty while the objects' backing
/// storage is retained for reuse across similar batches.
#[derive(Debug)]
pub struct AtomicRequest {
    objs: Vec<AtomicRequestObj>,
    total_props: u32,
    // Owned values a property write handed over, kept live until the
    // request is dropped or reset so the batch can still be committed.
    drops: Vec<DeferredValue>,
}

impl View for AtomicRequest {
    type V = AtomicView;

    closed spec fn view(&self) -> AtomicView {
        Seq::new(self.objs@.len(), |i: int| (self.objs@[i].obj_id, self.objs@[i].pairs()))
    }
}

impl AtomicRequest {
    /// The request's internal soundness: objects sorted strictly by id,
    /// parallel lists of equal length, and the running total equal to
    /// the content's pair count.
    pub closed spec fn wf(&self) -> bool {
        &&& spec_sorted(self@)
        &&& (forall|i: int|
            0 <= i < self.objs@.len() ==> #[trigger] self.objs@[i].prop_ids@.len()
                == self.objs@[i].prop_values@.len())
        &&& self.total_props == spec_total_props(self@)
    }

    /// A sound request's content is sorted and its pair total fits the
    /// wire format's 32-bit count field.
    pub proof fn lemma_wf_props(&self)
        requires
            self.wf(),
        ensures
            spec_sorted(self@),
            0 <= spec_total_props(self@) <= u32::MAX,
    {
        lemma_total_bounds(self@);
    }

    /// A new, empty request.
    pub fn new() -> (r: AtomicRequest)
        ensures
            r.wf(),
            r@ == Seq::<(u32, Seq<(u32, u64)>)>::empty(),
    {
        let r = AtomicRequest { objs: Vec::new(), total_props: 0, drops: Vec::new() };
        proof {
            assert(r@ =~= Seq::<(u32, Seq<(u32, u64)>)>::empty());
        }
        r
    }

    /// Clear any previously-set properties, returning the request to
    /// empty while keeping every object's entry and its allocated
    /// backing storage, so that a caller reusing one request across
    /// repeated similar commits avoids reallocating every frame.
    pub fn reset(&mut self)
        requires
            old(self).wf(),
        ensures
            final(self).wf(),
            final(self)@ == spec_reset(old(self)@),
    {
        let ghost v0 = self@;
        let ghost old_objs = self.objs@;
        let mut i: usize = 0;
        while i < self.objs.len()
            invariant
                0 <= i <= self.objs@.len(),
                self.objs@.len() == old_objs.len(),
                forall|j: int| i <= j < self.objs@.len() ==> self.objs@[j] == old_objs[j],
                forall|j: int| 0 <= j < i ==> self.objs@[j].obj_id == old_objs[j].obj_id,
                forall|j: int| 0 <= j < i ==> self.objs@[j].prop_ids@.len() == 0,
                forall|j: int| 0 <= j < i ==> self.objs@[j].prop_values@.len() == 0,
            decreases self.objs@.len() - i,
        {
            let mut e = self.objs.remove(i);
            e.prop_ids.truncate(0);
            e.prop_values.truncate(0);
            self.objs.insert(i, e);
            i += 1;
        }
        self.total_props = 0;
        self.drops.truncate(0);
        proof {
            lemma_reset_props(v0);
            assert(self@ =~= spec_reset(v0)) by {
                assert forall|j: int| 0 <= j < self@.len() implies self@[j] == spec_reset(
                    v0,
                )[j] by {
                    assert(self.objs@[j].pairs() =~= Seq::<(u32, u64)>::empty());
                    assert(v0[j].0 == old_objs[j].obj_id);
                }
            }
            lemma_total_all_empty(self@);
        }
    }

    /// Append one property write: look up or create the entry for the
    /// object's raw id (the kind tag is discarded here, since the kernel
    /// keeps object ids unique across kinds), append the pair to its
    /// list, and count it. A value that hands over an owned resource has
    /// that resource kept until the request is dropped or reset.
    pub fn set_property<T: IntoRawPropertyValue>(
        &mut self,
        obj_id: ObjectId,
        prop_id: PropertyId,
        value: T,
    )
        requires
            old(self).wf(),
            spec_total_props(old(self)@) < u32::MAX,
            old(self)@.len() < u32::MAX,
        ensures
            final(self).wf(),
            final(self)@ == spec_set(
                old(self)@,
                spec_object_raw_id(obj_id),
                prop_id.0,
                value.spec_raw_value(),
            ),
    {
        let ghost v0 = self@;
        let ghost pair = (prop_id.0, value.spec_raw_value());
        let (raw_v, deferred) = value.into_raw_property_value();
        match deferred {
            Some(d) => self.drops.push(d),
            None => {},
        }
        let (_, raw_id) = obj_id.as_raw_type_and_id();
        let mut i: usize = 0;
        while i < self.objs.len() && self.objs[i].obj_id < raw_id
            invariant
                0 <= i <= self.objs@.len(),
                forall|j: int| 0 <= j < i ==> #[trigger] self.objs@[j].obj_id < raw_id,
            decreases self.objs@.len() - i,
        {
            i += 1;
        }
        proof {
            assert forall|j: int| 0 <= j < i implies v0[j].0 < raw_id by {
                assert(self.objs@[j].obj_id < raw_id);
            }
            lemma_spec_set_insert(v0, raw_id, prop_id.0, value.spec_raw_value(), i as int);
        }
        if i < self.objs.len() && self.objs[i].obj_id == raw_id {
            let mut e = self.objs.remove(i);
            e.prop_ids.push(prop_id.0);
            e.prop_values.push(raw_v);
            self.objs.insert(i, e);
            proof {
                let ghost target = v0.update(i as int, (raw_id, v0[i as int].1.push(pair)));
                assert(self@ =~= target) by {
                    assert forall|j: int| 0 <= j < self@.len() implies self@[j] == target[j] by {
                        if j == i {
                            assert(self.objs@[j].pairs() =~= v0[j].1.push(pair));
                        } else {
                            assert(self.objs@[j] == old(self).objs@[j]);
                        }
                    }
                }
                lemma_total_split_update(v0, i as int, pair);
                assert forall|a: int, b: int| 0 <= a < b < self@.len() implies self@[a].0
                    < self@[b].0 by {
                    assert(v0[a].0 < v0[b].0);
                }
            }
        } else {
            let mut ids: Vec<u32> = Vec::new();
            ids.push(prop_id.0);
            let mut vals: Vec<u64> = Vec::new();
            vals.push(raw_v);
            self.objs.insert(i, AtomicRequestObj { obj_id: raw_id, prop_ids: ids, prop_values: vals });
            proof {
                let ghost target = v0.take(i as int).add(seq![(raw_id, seq![pair])]).add(
                    v0.skip(i as int),
                );
                assert(self@ =~= target) by {
                    assert forall|j: int| 0 <= j < self@.len() implies self@[j] == target[j] by {
                        if j < i {
                            assert(self.objs@[j] == old(self).objs@[j]);
                        } else if j == i {
                            assert(self.objs@[j].pairs() =~= seq![pair]);
                        } else {
                            assert(self.objs@[j] == old(self).objs@[j - 1]);
                        }
                    }
                }
                lemma_total_split_insert(v0, i as int, (raw_id, seq![pair]));
                assert forall|a: int, b: int| 0 <= a < b < self@.len() implies self@[a].0
                    < self@[b].0 by {
                    if a < i && b == i {
                        assert(v0[a].0 < raw_id);
                    } else if a == i && b > i {
                        assert(raw_id != v0[b - 1].0);
                        if b - 1 > i as int - 1 && b - 1 < v0.len() {
                            if i < v0.len() {
                                assert(raw_id <= v0[i as int].0);
                                if b - 1 > i {
                                    assert(v0[i as int].0 < v0[b - 1].0);
                                }
                            }
                        }
                    } else if a < i && b > i {
                        assert(v0[a].0 < raw_id);
                        if i < v0.len() {
                            assert(raw_id <= v0[i as int].0);
                            if b - 1 > i {
                                assert(v0[i as int].0 < v0[b - 1].0);
                            }
                        }
                    } else if a > i && b > i {
                        assert(v0[a - 1].0 < v0[b - 1].0);
                    } else if a < i && b < i {
                        assert(v0[a].0 < v0[b].0);
                    }
                }
            }
        }
        self.total_props = self.total_props + 1;
    }
}

/// The property ids of a pair list, in order.
pub open spec fn spec_pair_firsts(s: Seq<(u32, u64)>) -> Seq<u32> {
    Seq::new(s.len(), |i: int| s[i].0)
}

/// The property values of a pair list, in order.
pub open spec fn spec_pair_seconds(s: Seq<(u32, u64)>) -> Seq<u64> {
    Seq::new(s.len(), |i: int| s[i].1)
}

/// The four flat wire arrays of a request content: object ids in order,
/// the parallel per-object pair counts, and the pair ids and values
/// concatenated object by object.
pub open spec fn spec_wire_parts(v: AtomicView) -> (Seq<u32>, Seq<u32>, Seq<u32>, Seq<u64>)
    decreases v.len(),
{
    if v.len() == 0 {
        (Seq::empty(), Seq::empty(), Seq::empty(), Seq::empty())
    } else {
        let rest = spec_wire_parts(v.drop_last());
        let e = v.last();
        (
            rest.0.push(e.0),
            rest.1.push(e.1.len() as u32),
            rest.2.add(spec_pair_firsts(e.1)),
            rest.3.add(spec_pair_seconds(e.1)),
        )
    }
}

/// The wire arrays' shapes: one id and one count per object, and as many
/// pair ids as pair values, one of each per pair.
pub proof fn lemma_wire_lens(v: AtomicView)
    ensures
        spec_wire_parts(v).0.len() == v.len(),
        spec_wire_parts(v).1.len() == v.len(),
        spec_wire_parts(v).2.len() == spec_total_props(v),
        spec_wire_parts(v).3.len() == spec_total_props(v),
    decreases v.len(),
{
    if v.len() > 0 {
        lemma_wire_lens(v.drop_last());
        assert(v =~= v.drop_last().push(v.last()));
        lemma_total_concat(v.drop_last(), seq![v.last()]);
        assert(spec_total_props(seq![v.last()]) == v.last().1.len()) by {
            assert(seq![v.last()].skip(1) =~= Seq::<(u32, Seq<(u32, u64)>)>::empty());
            assert(spec_total_props(Seq::<(u32, Seq<(u32, u64)>)>::empty()) == 0);
        }
        assert(spec_total_props(v.drop_last().push(v.last())) == spec_total_props(v.drop_last())
            + v.last().1.len()) by {
            assert(v.drop_last().push(v.last()) =~= v.drop_last().add(seq![v.last()]));
        }
    }
}

/// Each object's count on the wire is exactly the length of its pair
/// list: the number of times a property was set on that object.
pub proof fn lemma_wire_counts(v: AtomicView)
    ensures
        spec_wire_parts(v).1.len() == v.len(),
        forall|i: int|
            0 <= i < v.len() ==> spec_wire_parts(v).1[i] == (#[trigger] v[i].1.len()) as u32,
    decreases v.len(),
{
    lemma_wire_lens(v);
    if v.len() > 0 {
        lemma_wire_counts(v.drop_last());
        lemma_wire_lens(v.drop_last());
        assert forall|i: int| 0 <= i < v.len() implies spec_wire_parts(v).1[i] == (
        #[trigger] v[i].1.len()) as u32 by {
            if i < v.len() - 1 {
                assert(v.drop_last()[i] == v[i]);
            }
        }
    }
}

/// The four flat arrays ready to hand to an atomic-commit exchange.
pub struct AtomicRequestRawParts {
    pub obj_ids: Vec<u32>,
    pub obj_prop_counts: Vec<u32>,
    pub prop_ids: Vec<u32>,
    pub prop_values: Vec<u64>,
}

impl AtomicRequest {
    /// Serialize the request, read-only, into the wire form the atomic
    /// commit call expects: object ids in ascending id order, a parallel
    /// count array, and the flattened (property, value) pairs grouped
    /// object by object, so the kernel walks the counts to know which
    /// pairs belong to which object.
    pub fn for_ioctl_req(&self) -> (r: AtomicRequestRawParts)
        requires
            self.wf(),
        ensures
            r.obj_ids@ == spec_wire_parts(self@).0,
            r.obj_prop_counts@ == spec_wire_parts(self@).1,
            r.prop_ids@ == spec_wire_parts(self@).2,
            r.prop_values@ == spec_wire_parts(self@).3,
    {
        let mut obj_ids: Vec<u32> = Vec::new();
        let mut obj_prop_counts: Vec<u32> = Vec::new();
        let mut prop_ids: Vec<u32> = Vec::new();
        let mut prop_values: Vec<u64> = Vec::new();
        let mut i: usize = 0;
        while i < self.objs.len()
            invariant
                0 <= i <= self.objs@.len(),
                self.wf(),
                obj_ids@ == spec_wire_parts(self@.take(i as int)).0,
                obj_prop_counts@ == spec_wire_parts(self@.take(i as int)).1,
                prop_ids@ == spec_wire_parts(self@.take(i as int)).2,
                prop_values@ == spec_wire_parts(self@.take(i as int)).3,
            decreases self.objs@.len() - i,
        {
            let ghost before = self@.take(i as int);
            let e = &self.objs[i];
            obj_ids.push(e.obj_id);
            obj_prop_counts.push(e.prop_ids.len() as u32);
            let mut j: usize = 0;
            while j < e.prop_ids.len()
                invariant
                    0 <= j <= e.prop_ids@.len(),
                    e.prop_ids@.len() == e.prop_values@.len(),
                    prop_ids@ == spec_wire_parts(before).2.add(e.prop_ids@.take(j as int)),
                    prop_values@ == spec_wire_parts(before).3.add(e.prop_values@.take(j as int)),
                decreases e.prop_ids@.len() - j,
            {
                prop_ids.push(e.prop_ids[j]);
                prop_values.push(e.prop_values[j]);
                proof {
                    assert(prop_ids@ =~= spec_wire_parts(before).2.add(
                        e.prop_ids@.take(j as int + 1),
                    ));
                    assert(prop_values@ =~= spec_wire_parts(before).3.add(
                        e.prop_values@.take(j as int + 1),
                    ));
                }
                j += 1;
            }
            proof {
                let after = self@.take(i as int + 1);
                assert(after.drop_last() =~= before);
                assert(after.last() == self@[i as int]);
                assert(self@[i as int].1 == e.pairs());
                assert(spec_pair_firsts(e.pairs()) =~= e.prop_ids@);
                assert(spec_pair_seconds(e.pairs()) =~= e.prop_values@);
                assert(e.prop_ids@.take(j as int) =~= e.prop_ids@);
                assert(e.prop_values@.take(j as int) =~= e.prop_values@);
                assert(obj_ids@ =~= spec_wire_parts(after).0);
                assert(obj_prop_counts@ =~= spec_wire_parts(after).1);
                assert(prop_ids@ =~= spec_wire_parts(after).2);
                assert(prop_values@ =~= spec_wire_parts(after).3);
            }
            i += 1;
        }
        proof {
            assert(self@.take(self.objs@.len() as int) =~= self@);
        }
        AtomicRequestRawParts { obj_ids, obj_prop_counts, prop_ids, prop_values }
    }
}

/// Every entry of a reset content pairs the original id with an empty
/// list.
proof fn lemma_reset_props(v: AtomicView)
    ensures
        spec_reset(v).len() == v.len(),
        forall|i: int|
            0 <= i < v.len() ==> #[trigger] spec_reset(v)[i] == (v[i].0, Seq::<(u32, u64)>::empty()),
    decreases v.len(),
{
    if v.len() > 0 {
        lemma_reset_props(v.skip(1));
        assert forall|i: int| 0 <= i < v.len() implies #[trigger] spec_reset(v)[i] == (
            v[i].0,
            Seq::<(u32, u64)>::empty(),
        ) by {
            if i > 0 {
                assert(spec_reset(v)[i] == spec_reset(v.skip(1))[i - 1]);
                assert(v.skip(1)[i - 1] == v[i]);
            }
        }
    }
}

/// A content whose lists are all empty has no pairs.
proof fn lemma_total_all_empty(v: AtomicView)
    requires
        forall|i: int| 0 <= i < v.len() ==> #[trigger] v[i].1.len() == 0,
    ensures
        spec_total_props(v) == 0,
    decreases v.len(),
{
    if v.len() > 0 {
        assert forall|i: int| 0 <= i < v.skip(1).len() implies #[trigger] v.skip(1)[i].1.len()
            == 0 by {
            assert(v.skip(1)[i] == v[i + 1]);
        }
        lemma_total_all_empty(v.skip(1));
    }
}

/// Appending one pair to one entry's list raises the total by one.
proof fn lemma_total_split_update(v: AtomicView, i: int, pair: (u32, u64))
    requires
        0 <= i < v.len(),
    ensures
        spec_total_props(v.update(i, (v[i].0, v[i].1.push(pair)))) == spec_total_props(v) + 1,
{
    let e = (v[i].0, v[i].1.push(pair));
    let w = v.update(i, e);
    assert(v =~= v.take(i).add(seq![v[i]]).add(v.skip(i + 1)));
    assert(w =~= v.take(i).add(seq![e]).add(v.skip(i + 1)));
    lemma_total_concat(v.take(i).add(seq![v[i]]), v.skip(i + 1));
    lemma_total_concat(v.take(i), seq![v[i]]);
    lemma_total_concat(v.take(i).add(seq![e]), v.skip(i + 1));
    lemma_total_concat(v.take(i), seq![e]);
    assert(spec_total_props(seq![v[i]]) == v[i].1.len()) by {
        assert(seq![v[i]].skip(1) =~= Seq::<(u32, Seq<(u32, u64)>)>::empty());
        assert(spec_total_props(Seq::<(u32, Seq<(u32, u64)>)>::empty()) == 0);
    }
    assert(spec_total_props(seq![e]) == v[i].1.len() + 1) by {
        assert(seq![e].skip(1) =~= Seq::<(u32, Seq<(u32, u64)>)>::empty());
        assert(spec_total_props(Seq::<(u32, Seq<(u32, u64)>)>::empty()) == 0);
    }
}

/// Inserting an entry with a single pair raises the total by one.
proof fn lemma_total_split_insert(v: AtomicView, i: int, e: (u32, Seq<(u32, u64)>))
    requires
        0 <= i <= v.len(),
        e.1.len() == 1,
    ensures
        spec_total_props(v.take(i).add(seq![e]).add(v.skip(i))) == spec_total_props(v) + 1,
{
    assert(v =~= v.take(i).add(v.skip(i)));
    lemma_total_concat(v.take(i), v.skip(i));
    lemma_total_concat(v.take(i).add(seq![e]), v.skip(i));
    lemma_total_concat(v.take(i), seq![e]);
    assert(spec_total_props(seq![e]) == 1) by {
        assert(seq![e].skip(1) =~= Seq::<(u32, Seq<(u32, u64)>)>::empty());
        assert(spec_total_props(Seq::<(u32, Seq<(u32, u64)>)>::empty()) == 0);
    }
}

/// The content that four flat wire arrays decode back to: objects are
/// taken from the back, each claiming its count's worth of pairs from
/// the tails of the two flattened arrays.
pub open spec fn spec_parse_wire(
    obj_ids: Seq<u32>,
    counts: Seq<u32>,
    prop_ids: Seq<u32>,
    prop_values: Seq<u64>,
) -> AtomicView
    decreases obj_ids.len(),
{
    if obj_ids.len() == 0 {
        Seq::empty()
    } else {
        let n = counts[obj_ids.len() - 1] as int;
        spec_parse_wire(
            obj_ids.drop_last(),
            counts.take(obj_ids.len() - 1),
            prop_ids.take(prop_ids.len() - n),
            prop_values.take(prop_values.len() - n),
        ).push(
            (
                obj_ids.last(),
                Seq::new(
                    n as nat,
                    |j: int| (prop_ids[prop_ids.len() - n + j], prop_values[prop_values.len() - n
                        + j]),
                ),
            ),
        )
    }
}

/// Serializing then deserializing the flat wire form yields the content
/// unchanged: the same objects with the same (property, value) lists —
/// and so the same multiset of (object, property, value) triples — with
/// each object's wire count equal to the length of its list, that is, to
/// the number of times a property was set on it.
pub proof fn lemma_wire_round_trip(v: AtomicView)
    requires
        forall|i: int| 0 <= i < v.len() ==> #[trigger] v[i].1.len() <= u32::MAX,
    ensures
        ({
            let w = spec_wire_parts(v);
            spec_parse_wire(w.0, w.1, w.2, w.3) == v
        }),
    decreases v.len(),
{
    let w = spec_wire_parts(v);
    if v.len() == 0 {
        assert(spec_parse_wire(w.0, w.1, w.2, w.3) =~= v);
    } else {
        let prefix = v.drop_last();
        let rest = spec_wire_parts(prefix);
        let e = v.last();
        lemma_wire_lens(prefix);
        lemma_wire_lens(v);
        assert forall|i: int| 0 <= i < prefix.len() implies #[trigger] prefix[i].1.len()
            <= u32::MAX by {
            assert(prefix[i] == v[i]);
        }
        lemma_wire_round_trip(prefix);
        let n = e.1.len() as int;
        assert(w.1[w.0.len() - 1] == (e.1.len() as u32));
        assert((e.1.len() as u32) as int == n);
        assert(w.0.drop_last() =~= rest.0);
        assert(w.1.take(w.0.len() - 1) =~= rest.1);
        assert(w.2.take(w.2.len() - n) =~= rest.2);
        assert(w.3.take(w.3.len() - n) =~= rest.3);
        let pairs = Seq::new(
            n as nat,
            |j: int| (w.2[w.2.len() - n + j], w.3[w.3.len() - n + j]),
        );
        assert(pairs =~= e.1) by {
            assert forall|j: int| 0 <= j < n implies pairs[j] == e.1[j] by {
                assert(w.2[w.2.len() - n + j] == spec_pair_firsts(e.1)[j]);
                assert(w.3[w.3.len() - n + j] == spec_pair_seconds(e.1)[j]);
            }
        }
        assert(spec_parse_wire(w.0, w.1, w.2, w.3) == spec_parse_wire(
            rest.0,
            rest.1,
            rest.2,
            rest.3,
        ).push((e.0, pairs)));
        assert(prefix.push((e.0, pairs)) =~= v);
    }
}

/// A sequence of property writes, each (object, property, value).
pub type SetCalls = Seq<(u32, u32, u64)>;

/// The content after a sequence of property writes, applied in order.
pub open spec fn spec_apply(v: AtomicView, calls: SetCalls) -> AtomicView
    decreases calls.len(),
{
    if calls.len() == 0 {
        v
    } else {
        spec_apply(spec_set(v, calls[0].0, calls[0].1, calls[0].2), calls.skip(1))
    }
}

/// The (property, value) pairs that a call sequence writes to one
/// object, in call order.
pub open spec fn spec_pairs_for(calls: SetCalls, k: u32) -> Seq<(u32, u64)>
    decreases calls.len(),
{
    if calls.len() == 0 {
        Seq::empty()
    } else {
        let rest = spec_pairs_for(calls.skip(1), k);
        if calls[0].0 == k {
            seq![(calls[0].1, calls[0].2)].add(rest)
        } else {
            rest
        }
    }
}

/// An object's list extended by later writes: absent objects appear only
/// if something was written to them.
pub open spec fn spec_combine(o: Option<Seq<(u32, u64)>>, p: Seq<(u32, u64)>) -> Option<
    Seq<(u32, u64)>,
> {
    match o {
        Some(l) => Some(l.add(p)),
        None => if p.len() == 0 {
            None
        } else {
            Some(p)
        },
    }
}

/// The tail of a sorted content is sorted.
proof fn lemma_sorted_tail(v: AtomicView)
    requires
        spec_sorted(v),
        v.len() > 0,
    ensures
        spec_sorted(v.skip(1)),
{
    assert forall|a: int, b: int| 0 <= a < b < v.skip(1).len() implies v.skip(1)[a].0 < v.skip(
        1,
    )[b].0 by {
        assert(v.skip(1)[a] == v[a + 1]);
        assert(v.skip(1)[b] == v[b + 1]);
    }
}

/// An object is present exactly when some entry carries its id, and in a
/// sorted content its list is that entry's.
proof fn lemma_get_membership(v: AtomicView, k: u32)
    ensures
        (spec_view_get(v, k) is Some) <==> (exists|i: int| 0 <= i < v.len() && v[i].0 == k),
        forall|i: int|
            0 <= i < v.len() && v[i].0 == k && spec_sorted(v) ==> spec_view_get(v, k) == Some(
                #[trigger] v[i].1,
            ),
    decreases v.len(),
{
    if v.len() > 0 {
        lemma_get_membership(v.skip(1), k);
        if v[0].0 == k {
            assert(0 <= 0 < v.len() && v[0].0 == k);
        } else {
            if spec_view_get(v, k) is Some {
                let i = choose|i: int| 0 <= i < v.skip(1).len() && v.skip(1)[i].0 == k;
                assert(v[i + 1].0 == k);
            }
            if exists|i: int| 0 <= i < v.len() && v[i].0 == k {
                let i = choose|i: int| 0 <= i < v.len() && v[i].0 == k;
                assert(i > 0);
                assert(v.skip(1)[i - 1].0 == k);
                assert(spec_view_get(v.skip(1), k) is Some);
            }
        }
        assert forall|i: int|
            0 <= i < v.len() && v[i].0 == k && spec_sorted(v) implies spec_view_get(v, k) == Some(
            #[trigger] v[i].1,
        ) by {
            if i == 0 {
            } else {
                assert(v[0].0 < v[i].0);
                assert(v.skip(1)[i - 1] == v[i]);
                lemma_sorted_tail(v);
            }
        }
    }
}

/// One write on a sorted content changes exactly the named object's
/// list, appending the pair to it or creating it with that single pair.
proof fn lemma_set_get(v: AtomicView, obj: u32, prop: u32, val: u64, k: u32)
    requires
        spec_sorted(v),
    ensures
        spec_view_get(spec_set(v, obj, prop, val), k) == (if k == obj {
            match spec_view_get(v, k) {
                Some(l) => Some(l.push((prop, val))),
                None => Some(seq![(prop, val)]),
            }
        } else {
            spec_view_get(v, k)
        }),
    decreases v.len(),
{
    let w = spec_set(v, obj, prop, val);
    if v.len() == 0 {
        assert(w.skip(1) =~= Seq::<(u32, Seq<(u32, u64)>)>::empty());
        assert(spec_view_get(Seq::<(u32, Seq<(u32, u64)>)>::empty(), k) is None);
    } else if v[0].0 == obj {
        assert(w.skip(1) =~= v.skip(1));
    } else if obj < v[0].0 {
        assert(w.skip(1) =~= v);
        if k == obj {
            // Sorted, and every id is at least the head's, so the written
            // id cannot already be present.
            lemma_get_membership(v, k);
            if spec_view_get(v, k) is Some {
                let i = choose|i: int| 0 <= i < v.len() && v[i].0 == k;
                if i > 0 {
                    assert(v[0].0 < v[i].0);
                }
                assert(false);
            }
        }
    } else {
        lemma_sorted_tail(v);
        lemma_set_get(v.skip(1), obj, prop, val, k);
        assert(w.skip(1) =~= spec_set(v.skip(1), obj, prop, val));
    }
}

/// A sequence of writes takes each object's list to its old list, or to
/// nothing if absent, extended by exactly the pairs the sequence writes
/// to that object, in call order.
proof fn lemma_apply_get(v: AtomicView, calls: SetCalls, k: u32)
    requires
        spec_sorted(v),
    ensures
        spec_view_get(spec_apply(v, calls), k) == spec_combine(
            spec_view_get(v, k),
            spec_pairs_for(calls, k),
        ),
    decreases calls.len(),
{
    if calls.len() == 0 {
        match spec_view_get(v, k) {
            Some(l) => {
                assert(l.add(Seq::<(u32, u64)>::empty()) =~= l);
            },
            None => {},
        }
    } else {
        let c = calls[0];
        let v1 = spec_set(v, c.0, c.1, c.2);
        lemma_set_sorted(v, c.0, c.1, c.2);
        lemma_apply_get(v1, calls.skip(1), k);
        lemma_set_get(v, c.0, c.1, c.2, k);
        let ps = spec_pairs_for(calls.skip(1), k);
        if c.0 == k {
            match spec_view_get(v, k) {
                Some(l) => {
                    assert(l.push((c.1, c.2)).add(ps) =~= l.add(seq![(c.1, c.2)].add(ps)));
                },
                None => {
                    assert(spec_view_get(v1, k) == Some(seq![(c.1, c.2)]));
                    assert(seq![(c.1, c.2)].add(ps).len() > 0);
                },
            }
        }
    }
}

/// A write keeps the objects in strictly ascending id order, and brings
/// in no id but the one written.
proof fn lemma_set_sorted(v: AtomicView, obj: u32, prop: u32, val: u64)
    requires
        spec_sorted(v),
    ensures
        spec_sorted(spec_set(v, obj, prop, val)),
        forall|i: int|
            0 <= i < spec_set(v, obj, prop, val).len() ==> (#[trigger] spec_set(
                v,
                obj,
                prop,
                val,
            )[i].0 == obj || exists|l: int| 0 <= l < v.len() && v[l].0 == spec_set(
                v,
                obj,
                prop,
                val,
            )[i].0),
    decreases v.len(),
{
    let w = spec_set(v, obj, prop, val);
    if v.len() == 0 {
    } else if v[0].0 == obj {
        assert forall|a: int, b: int| 0 <= a < b < w.len() implies w[a].0 < w[b].0 by {
            assert(w[a].0 == v[a].0);
            assert(w[b].0 == v[b].0);
        }
        assert forall|i: int| 0 <= i < w.len() implies (#[trigger] w[i].0 == obj || exists|l: int|
            0 <= l < v.len() && v[l].0 == w[i].0) by {
            assert(w[i].0 == v[i].0);
        }
    } else if obj < v[0].0 {
        assert forall|a: int, b: int| 0 <= a < b < w.len() implies w[a].0 < w[b].0 by {
            if a == 0 {
                assert(w[b].0 == v[b - 1].0);
                if b > 1 {
                    assert(v[0].0 < v[b - 1].0);
                }
            } else {
                assert(w[a].0 == v[a - 1].0);
                assert(w[b].0 == v[b - 1].0);
            }
        }
        assert forall|i: int| 0 <= i < w.len() implies (#[trigger] w[i].0 == obj || exists|l: int|
            0 <= l < v.len() && v[l].0 == w[i].0) by {
            if i > 0 {
                assert(v[i - 1].0 == w[i].0);
            }
        }
    } else {
        let tail = v.skip(1);
        assert(spec_sorted(tail)) by {
            assert forall|a: int, b: int| 0 <= a < b < tail.len() implies tail[a].0
                < tail[b].0 by {
                assert(tail[a] == v[a + 1]);
                assert(tail[b] == v[b + 1]);
            }
        }
        lemma_set_sorted(tail, obj, prop, val);
        let wt = spec_set(tail, obj, prop, val);
        assert forall|a: int, b: int| 0 <= a < b < w.len() implies w[a].0 < w[b].0 by {
            if a == 0 {
                assert(w[b].0 == wt[b - 1].0);
                if wt[b - 1].0 == obj {
                    assert(v[0].0 < obj);
                } else {
                    let l = choose|l: int| 0 <= l < tail.len() && tail[l].0 == wt[b - 1].0;
                    assert(tail[l] == v[l + 1]);
                    assert(v[0].0 < v[l + 1].0);
                }
            } else {
                assert(w[a].0 == wt[a - 1].0);
                assert(w[b].0 == wt[b - 1].0);
            }
        }
        assert forall|i: int| 0 <= i < w.len() implies (#[trigger] w[i].0 == obj || exists|l: int|
            0 <= l < v.len() && v[l].0 == w[i].0) by {
            if i == 0 {
                assert(v[0].0 == w[0].0);
            } else {
                assert(w[i].0 == wt[i - 1].0);
                if wt[i - 1].0 != obj {
                    let l = choose|l: int| 0 <= l < tail.len() && tail[l].0 == wt[i - 1].0;
                    assert(v[l + 1].0 == w[i].0);
                }
            }
        }
    }
}

/// A sequence of writes keeps the objects in strictly ascending id
/// order.
proof fn lemma_apply_sorted(v: AtomicView, calls: SetCalls)
    requires
        spec_sorted(v),
    ensures
        spec_sorted(spec_apply(v, calls)),
    decreases calls.len(),
{
    if calls.len() > 0 {
        lemma_set_sorted(v, calls[0].0, calls[0].1, calls[0].2);
        lemma_apply_sorted(spec_set(v, calls[0].0, calls[0].1, calls[0].2), calls.skip(1));
    }
}

/// A reset keeps each object present with an emptied list.
proof fn lemma_reset_get(v: AtomicView, k: u32)
    ensures
        spec_view_get(spec_reset(v), k) == (match spec_view_get(v, k) {
            Some(_) => Some(Seq::<(u32, u64)>::empty()),
            None => None::<Seq<(u32, u64)>>,
        }),
    decreases v.len(),
{
    if v.len() > 0 {
        lemma_reset_get(v.skip(1), k);
        assert(spec_reset(v).skip(1) =~= spec_reset(v.skip(1)));
    }
}

/// Two sorted contents that hold the same list for every object are the
/// same content.
proof fn lemma_get_canonical(v1: AtomicView, v2: AtomicView)
    requires
        spec_sorted(v1),
        spec_sorted(v2),
        forall|k: u32| #[trigger] spec_view_get(v1, k) == spec_view_get(v2, k),
    ensures
        v1 == v2,
    decreases v1.len() + v2.len(),
{
    if v1.len() == 0 && v2.len() == 0 {
        assert(v1 =~= v2);
    } else if v1.len() == 0 {
        assert(spec_view_get(v2, v2[0].0) is Some);
        assert(spec_view_get(v1, v2[0].0) is None);
    } else if v2.len() == 0 {
        assert(spec_view_get(v1, v1[0].0) is Some);
        assert(spec_view_get(v2, v1[0].0) is None);
    } else {
        let a = v1[0].0;
        let b = v2[0].0;
        lemma_get_membership(v1, a);
        lemma_get_membership(v2, a);
        lemma_get_membership(v1, b);
        lemma_get_membership(v2, b);
        assert(spec_view_get(v1, a) is Some);
        assert(spec_view_get(v2, b) is Some);
        let ia = choose|i: int| 0 <= i < v2.len() && v2[i].0 == a;
        let ib = choose|i: int| 0 <= i < v1.len() && v1[i].0 == b;
        assert(a >= b) by {
            if ia > 0 {
                assert(v2[0].0 < v2[ia].0);
            }
        }
        assert(b >= a) by {
            if ib > 0 {
                assert(v1[0].0 < v1[ib].0);
            }
        }
        assert(v1[0].1 == v2[0].1) by {
            assert(spec_view_get(v1, a) == Some(v1[0].1));
            assert(spec_view_get(v2, a) == Some(v2[0].1));
        }
        let t1 = v1.skip(1);
        let t2 = v2.skip(1);
        lemma_sorted_tail(v1);
        lemma_sorted_tail(v2);
        assert forall|k: u32| #[trigger] spec_view_get(t1, k) == spec_view_get(t2, k) by {
            assert(spec_view_get(v1, k) == spec_view_get(v2, k));
            if k == a {
                lemma_get_membership(t1, k);
                lemma_get_membership(t2, k);
                if spec_view_get(t1, k) is Some {
                    let l = choose|l: int| 0 <= l < t1.len() && t1[l].0 == k;
                    assert(t1[l] == v1[l + 1]);
                    assert(v1[0].0 < v1[l + 1].0);
                    assert(false);
                }
                if spec_view_get(t2, k) is Some {
                    let l = choose|l: int| 0 <= l < t2.len() && t2[l].0 == k;
                    assert(t2[l] == v2[l + 1]);
                    assert(v2[0].0 < v2[l + 1].0);
                    assert(false);
                }
            }
        }
        lemma_get_canonical(t1, t2);
        assert(v1 =~= v2) by {
            assert(v1[0] == v2[0]);
            assert forall|i: int| 0 <= i < v1.len() implies v1[i] == v2[i] by {
                if i > 0 {
                    assert(t1[i - 1] == t2[i - 1]);
                }
            }
        }
    }
}

/// An empty request filled by a sequence of writes holds, for each
/// object the sequence names, exactly the pairs written to it, in call
/// order — and no other object.
pub proof fn lemma_fresh_object_lists(calls: SetCalls, k: u32)
    ensures
        spec_view_get(spec_apply(Seq::empty(), calls), k) == (if spec_pairs_for(calls, k).len()
            == 0 {
            None::<Seq<(u32, u64)>>
        } else {
            Some(spec_pairs_for(calls, k))
        }),
{
    let empty = Seq::<(u32, Seq<(u32, u64)>)>::empty();
    assert(spec_sorted(empty));
    lemma_apply_get(empty, calls, k);
    assert(spec_view_get(empty, k) is None);
}

/// A reset followed by the same sequence of writes as before it yields
/// byte-identical serialized output: the content is the same, and the
/// wire arrays are a function of the content alone.
pub proof fn lemma_reset_replay_serialization(calls: SetCalls)
    ensures
        ({
            let fresh = spec_apply(Seq::empty(), calls);
            spec_wire_parts(spec_apply(spec_reset(fresh), calls)) == spec_wire_parts(fresh)
        }),
{
    lemma_reset_replay(calls);
}

/// A reset followed by the same sequence of writes as before it rebuilds
/// the same content: the same objects exist, their emptied lists refill
/// with the same pairs in the same order.
pub proof fn lemma_reset_replay(calls: SetCalls)
    ensures
        ({
            let fresh = spec_apply(Seq::empty(), calls);
            spec_apply(spec_reset(fresh), calls) == fresh
        }),
{
    let empty = Seq::<(u32, Seq<(u32, u64)>)>::empty();
    let fresh = spec_apply(empty, calls);
    let replay = spec_apply(spec_reset(fresh), calls);
    lemma_apply_sorted(empty, calls);
    assert(spec_sorted(spec_reset(fresh))) by {
        lemma_reset_props(fresh);
        assert forall|a: int, b: int|
            0 <= a < b < spec_reset(fresh).len() implies spec_reset(fresh)[a].0 < spec_reset(
            fresh,
        )[b].0 by {
            assert(spec_reset(fresh)[a] == (fresh[a].0, Seq::<(u32, u64)>::empty()));
            assert(spec_reset(fresh)[b] == (fresh[b].0, Seq::<(u32, u64)>::empty()));
        }
    }
    lemma_apply_sorted(spec_reset(fresh), calls);
    assert forall|k: u32| #[trigger] spec_view_get(replay, k) == spec_view_get(fresh, k) by {
        lemma_apply_get(empty, calls, k);
        lemma_apply_get(spec_reset(fresh), calls, k);
        lemma_reset_get(fresh, k);
        let ps = spec_pairs_for(calls, k);
        if ps.len() == 0 {
        } else {
            assert(spec_view_get(fresh, k) == Some(ps));
            assert(spec_view_get(spec_reset(fresh), k) == Some(Seq::<(u32, u64)>::empty()));
            assert(Seq::<(u32, u64)>::empty().add(ps) =~= ps);
        }
    }
    lemma_get_canonical(replay, fresh);
}

/// Flags for an atomic commit request.
#[derive(Debug, Clone, Copy, PartialEq, Eq, Structural)]
pub struct AtomicCommitFlags(pub u32);

impl AtomicCommitFlags {
    /// No flags.
    pub fn none() -> (r: Self)
        ensures
            r.0 == 0,
    {
        AtomicCommitFlags(0)
    }

    /// Check whether the configuration would be accepted, without
    /// applying it.
    pub fn test_only() -> (r: Self)
        ensures
            r.0 == ioctl::DRM_MODE_ATOMIC_TEST_ONLY,
    {
        AtomicCommitFlags(ioctl::DRM_MODE_ATOMIC_TEST_ONLY)
    }

    /// Return before the change is applied in hardware.
    pub fn nonblock() -> (r: Self)
        ensures
            r.0 == ioctl::DRM_MODE_ATOMIC_NONBLOCK,
    {
        AtomicCommitFlags(ioctl::DRM_MODE_ATOMIC_NONBLOCK)
    }

    /// Allow the update to perform a full mode set with transient
    /// artifacts.
    pub fn allow_modeset() -> (r: Self)
        ensures
            r.0 == ioctl::DRM_MODE_ATOMIC_ALLOW_MODESET,
    {
        AtomicCommitFlags(ioctl::DRM_MODE_ATOMIC_ALLOW_MODESET)
    }

    /// Ask for a flip-completion event carrying the request's token.
    pub fn page_flip_event() -> (r: Self)
        ensures
            r.0 == ioctl::DRM_MODE_PAGE_FLIP_EVENT,
    {
        AtomicCommitFlags(ioctl::DRM_MODE_PAGE_FLIP_EVENT)
    }

    /// Ask for the flip to happen as soon as possible, without waiting
    /// for the vertical blank. Shares its bit value with the legacy
    /// page-flip flag of the same meaning; the two flag sets are used on
    /// different calls.
    pub fn async_flip() -> (r: Self)
        ensures
            r.0 == ioctl::DRM_MODE_PAGE_FLIP_ASYNC,
    {
        AtomicCommitFlags(ioctl::DRM_MODE_PAGE_FLIP_ASYNC)
    }

    /// The combination of two flag sets.
    pub fn union(self, rhs: Self) -> (r: Self)
        ensures
            r.0 == self.0 | rhs.0,
    {
        AtomicCommitFlags(self.0 | rhs.0)
    }

    /// The raw flags word sent to the device.
    pub fn to_raw(self) -> (r: u32)
        ensures
            r == self.0,
    {
        self.0
    }
}

} // verus!
