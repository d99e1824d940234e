use vstd::prelude::*;
use crate::vec2::Vec2i;
use crate::math::mag;
use crate::constants::{COORD_LIMIT, FISH_STACK_HEIGHT, STACK_CAP_LIMIT};

verus! {

/// One occupant of the catch stack.
#[derive(Clone, Copy, Debug, PartialEq, Eq, Structural)]
pub struct StackEntry {
    /// The caller's handle for the stacked entity.
    pub id: u64,
    /// Ordinal size class; a strictly larger arrival knocks this one out.
    pub size_class: u32,
    /// The lane this entity must eventually return to, preserved
    /// unchanged across eviction and re-entry cycles.
    pub origin_lane_y: i64,
}

/// A knocked-out occupant, together with the stack position it is
/// ejected from.
#[derive(Clone, Copy, Debug, PartialEq, Eq, Structural)]
pub struct Eviction {
    pub entry: StackEntry,
    pub stack_pos: Vec2i,
}

/// What one insertion did: who was knocked out (bottom to top), and
/// whether this insertion filled the stack.
pub struct InsertOutcome {
    pub evicted: Vec<Eviction>,
    pub completed: bool,
}

/// The occupants that survive an arrival of class `sz`, in order.
pub open spec fn kept_entries(s: Seq<StackEntry>, sz: u32) -> Seq<StackEntry>
    decreases s.len(),
{
    if s.len() == 0 {
        Seq::empty()
    } else {
        let rest = kept_entries(s.drop_last(), sz);
        if s.last().size_class >= sz {
            rest.push(s.last())
        } else {
            rest
        }
    }
}

/// The occupants an arrival of class `sz` knocks out, each with the
/// slot index it occupied, in slot order.
pub open spec fn evicted_entries(s: Seq<StackEntry>, sz: u32) -> Seq<(int, StackEntry)>
    decreases s.len(),
{
    if s.len() == 0 {
        Seq::empty()
    } else {
        let rest = evicted_entries(s.drop_last(), sz);
        if s.last().size_class < sz {
            rest.push((s.len() - 1, s.last()))
        } else {
            rest
        }
    }
}

/// Survivors and evictees partition the old occupants.
pub proof fn lemma_split_counts(s: Seq<StackEntry>, sz: u32)
    ensures
        kept_entries(s, sz).len() + evicted_entries(s, sz).len() == s.len(),
    decreases s.len(),
{
    if s.len() > 0 {
        lemma_split_counts(s.drop_last(), sz);
    }
}

/// An arrival strictly larger than every occupant clears the stack.
pub proof fn lemma_insert_evicts_all(s: Seq<StackEntry>, sz: u32)
    requires
        forall|i: int| 0 <= i < s.len() ==> (#[trigger] s[i]).size_class < sz,
    ensures
        kept_entries(s, sz) =~= Seq::<StackEntry>::empty(),
        evicted_entries(s, sz).len() == s.len(),
    decreases s.len(),
{
    if s.len() > 0 {
        assert(forall|i: int|
            0 <= i < s.drop_last().len() ==> (#[trigger] s.drop_last()[i]).size_class < sz);
        lemma_insert_evicts_all(s.drop_last(), sz);
        lemma_split_counts(s, sz);
    }
}

/// An arrival no larger than any occupant evicts nothing.
pub proof fn lemma_insert_evicts_none(s: Seq<StackEntry>, sz: u32)
    requires
        forall|i: int| 0 <= i < s.len() ==> (#[trigger] s[i]).size_class >= sz,
    ensures
        kept_entries(s, sz) =~= s,
        evicted_entries(s, sz).len() == 0,
    decreases s.len(),
{
    if s.len() > 0 {
        assert(forall|i: int|
            0 <= i < s.drop_last().len() ==> (#[trigger] s.drop_last()[i]).size_class >= sz);
        lemma_insert_evicts_none(s.drop_last(), sz);
    }
}

/// Occupants ordered by size, the largest at the bottom.
pub open spec fn sorted_desc(s: Seq<StackEntry>) -> bool {
    forall|i: int, j: int|
        0 <= i <= j < s.len() ==> (#[trigger] s[i]).size_class >= (#[trigger] s[j]).size_class
}

/// Every survivor of an arrival keeps any size bound the occupants had.
proof fn lemma_kept_bounded(s: Seq<StackEntry>, sz: u32, b: u32)
    requires
        forall|i: int| 0 <= i < s.len() ==> (#[trigger] s[i]).size_class >= b,
    ensures
        forall|i: int|
            0 <= i < kept_entries(s, sz).len() ==> (#[trigger] kept_entries(s, sz)[i]).size_class
                >= b,
    decreases s.len(),
{
    if s.len() > 0 {
        let dl = s.drop_last();
        assert(forall|i: int| 0 <= i < dl.len() ==> (#[trigger] dl[i]).size_class >= b);
        lemma_kept_bounded(dl, sz, b);
        let k = kept_entries(dl, sz);
        assert forall|i: int| 0 <= i < kept_entries(s, sz).len() implies (#[trigger] kept_entries(
            s,
            sz,
        )[i]).size_class >= b by {
            if s.last().size_class >= sz {
                assert(kept_entries(s, sz) == k.push(s.last()));
                if i < k.len() {
                    assert(kept_entries(s, sz)[i] == k[i]);
                } else {
                    assert(kept_entries(s, sz)[i] == s.last());
                }
            } else {
                assert(kept_entries(s, sz)[i] == k[i]);
            }
        }
    }
}

/// Every survivor of an arrival of class `sz` has at least that class.
proof fn lemma_kept_at_least(s: Seq<StackEntry>, sz: u32)
    ensures
        forall|i: int|
            0 <= i < kept_entries(s, sz).len() ==> (#[trigger] kept_entries(s, sz)[i]).size_class
                >= sz,
    decreases s.len(),
{
    if s.len() > 0 {
        let dl = s.drop_last();
        lemma_kept_at_least(dl, sz);
        let k = kept_entries(dl, sz);
        assert forall|i: int| 0 <= i < kept_entries(s, sz).len() implies (#[trigger] kept_entries(
            s,
            sz,
        )[i]).size_class >= sz by {
            if s.last().size_class >= sz {
                assert(kept_entries(s, sz) == k.push(s.last()));
                if i < k.len() {
                    assert(kept_entries(s, sz)[i] == k[i]);
                } else {
                    assert(kept_entries(s, sz)[i] == s.last());
                }
            } else {
                assert(kept_entries(s, sz)[i] == k[i]);
            }
        }
    }
}

/// The survivors of an ordered stack stay ordered.
proof fn lemma_kept_sorted(s: Seq<StackEntry>, sz: u32)
    requires
        sorted_desc(s),
    ensures
        sorted_desc(kept_entries(s, sz)),
    decreases s.len(),
{
    if s.len() > 0 {
        let dl = s.drop_last();
        assert(sorted_desc(dl));
        lemma_kept_sorted(dl, sz);
        if s.last().size_class >= sz {
            assert(forall|i: int|
                0 <= i < dl.len() ==> (#[trigger] dl[i]).size_class >= s.last().size_class);
            lemma_kept_bounded(dl, sz, s.last().size_class);
        }
    }
}

/// The ordering invariant of the stack: a stack ordered largest at the
/// bottom stays so through any insertion, because the survivors keep
/// their relative order and each outranks the arrival placed on top.
pub proof fn lemma_insert_keeps_order(s: Seq<StackEntry>, e: StackEntry)
    requires
        sorted_desc(s),
    ensures
        sorted_desc(kept_entries(s, e.size_class).push(e)),
{
    lemma_kept_sorted(s, e.size_class);
    lemma_kept_at_least(s, e.size_class);
}

/// Unrolling step for the two filters along a growing prefix.
proof fn lemma_filter_step(s: Seq<StackEntry>, i: int, sz: u32)
    requires
        0 <= i < s.len(),
    ensures
        s[i].size_class >= sz ==> kept_entries(s.take(i + 1), sz) =~= kept_entries(
            s.take(i),
            sz,
        ).push(s[i]),
        s[i].size_class < sz ==> kept_entries(s.take(i + 1), sz) =~= kept_entries(s.take(i), sz),
        s[i].size_class < sz ==> evicted_entries(s.take(i + 1), sz) =~= evicted_entries(
            s.take(i),
            sz,
        ).push((i, s[i])),
        s[i].size_class >= sz ==> evicted_entries(s.take(i + 1), sz) =~= evicted_entries(
            s.take(i),
            sz,
        ),
{
    assert(s.take(i + 1).drop_last() =~= s.take(i));
    assert(s.take(i + 1).last() == s[i]);
}

/// The fixed-capacity ordered holding stack: occupied slots always form
/// a contiguous prefix, bottom to top in arrival-survival order.
pub struct CatchStack {
    slots: Vec<Option<StackEntry>>,
    total: usize,
    base: Vec2i,
}

impl CatchStack {
    /// The occupants, bottom to top.
    pub closed spec fn entries(self) -> Seq<StackEntry> {
        Seq::new(self.total as nat, |i: int| self.slots@[i]->0)
    }

    /// The fixed number of slots.
    pub closed spec fn spec_capacity(self) -> int {
        self.slots@.len() as int
    }

    /// The world position of the stack's base slot.
    pub closed spec fn spec_base(self) -> Vec2i {
        self.base
    }

    /// Internal invariant: the occupants fill exactly the slots below
    /// `total`, and the base position and capacity stay within the
    /// machine caps.
    pub closed spec fn wf(self) -> bool {
        &&& self.total <= self.slots@.len()
        &&& 1 <= self.slots@.len() <= STACK_CAP_LIMIT
        &&& forall|i: int| 0 <= i < self.total ==> (#[trigger] self.slots@[i]) is Some
        &&& forall|i: int|
            self.total <= i < self.slots@.len() ==> (#[trigger] self.slots@[i]) is None
        &&& mag(self.base.x as int) <= COORD_LIMIT
        &&& mag(self.base.y as int) <= COORD_LIMIT
    }

    /// An empty stack of the given capacity, based at `base`.
    pub fn new(capacity: usize, base: Vec2i) -> (s: CatchStack)
        requires
            1 <= capacity <= STACK_CAP_LIMIT,
            mag(base.x as int) <= COORD_LIMIT,
            mag(base.y as int) <= COORD_LIMIT,
        ensures
            s.wf(),
            s.entries() =~= Seq::<StackEntry>::empty(),
            s.spec_capacity() == capacity,
            s.spec_base() == base,
    {
        let mut slots: Vec<Option<StackEntry>> = Vec::new();
        let mut i: usize = 0;
        while i < capacity
            invariant
                i <= capacity,
                slots@.len() == i,
                forall|j: int| 0 <= j < i ==> (#[trigger] slots@[j]) is None,
            decreases capacity - i,
        {
            slots.push(None);
            i = i + 1;
        }
        CatchStack { slots, total: 0, base }
    }

    /// How many occupants the stack holds.
    pub fn total_count(&self) -> (n: usize)
        requires
            self.wf(),
        ensures
            n == self.entries().len(),
    {
        self.total
    }

    /// The fixed number of slots.
    pub fn capacity(&self) -> (n: usize)
        requires
            self.wf(),
        ensures
            n == self.spec_capacity(),
    {
        self.slots.len()
    }

    /// Whether every slot is occupied.
    pub fn is_full(&self) -> (r: bool)
        requires
            self.wf(),
        ensures
            r == (self.entries().len() == self.spec_capacity()),
    {
        self.total == self.slots.len()
    }

    /// The occupant of slot `i`, if any: the occupants always form a
    /// contiguous prefix of the slots.
    pub fn slot(&self, i: usize) -> (r: Option<StackEntry>)
        requires
            self.wf(),
            i < self.spec_capacity(),
        ensures
            i < self.entries().len() ==> r == Some(self.entries()[i as int]),
            i >= self.entries().len() ==> r is None,
    {
        self.slots[i]
    }

    /// Clear every slot.
    pub fn reset(&mut self)
        requires
            old(self).wf(),
        ensures
            final(self).wf(),
            final(self).entries() =~= Seq::<StackEntry>::empty(),
            final(self).spec_capacity() == old(self).spec_capacity(),
            final(self).spec_base() == old(self).spec_base(),
    {
        let n = self.slots.len();
        let mut i: usize = 0;
        while i < n
            invariant
                i <= n,
                n == self.slots@.len(),
                1 <= n <= STACK_CAP_LIMIT,
                self.base == old(self).base,
                mag(self.base.x as int) <= COORD_LIMIT,
                mag(self.base.y as int) <= COORD_LIMIT,
                forall|j: int| 0 <= j < i ==> (#[trigger] self.slots@[j]) is None,
            decreases n - i,
        {
            self.slots.set(i, None);
            i = i + 1;
        }
        self.total = 0;
    }

    /// The world position of slot `i`: the base plus the fixed vertical
    /// spacing per slot.
    pub open spec fn spec_slot_pos(self, i: int) -> Vec2i {
        Vec2i { x: self.spec_base().x, y: (self.spec_base().y + i * FISH_STACK_HEIGHT) as i64 }
    }

    /// Whether an arrival of class `sz` can be taken in: there is either
    /// a free slot or a strictly smaller occupant to knock out.
    pub open spec fn can_accept(self, sz: u32) -> bool {
        ||| self.entries().len() < self.spec_capacity()
        ||| exists|i: int|
            0 <= i < self.entries().len() && (#[trigger] self.entries()[i]).size_class < sz
    }

    /// Take in a landed arrival: every strictly smaller occupant is
    /// knocked out (bottom to top, each reporting the slot position it
    /// held), the survivors are compacted downward in order, and the
    /// arrival goes on top.  Reports completion exactly when the stack
    /// ends up full.
    pub fn insert(&mut self, entry: StackEntry) -> (r: InsertOutcome)
        requires
            old(self).wf(),
            old(self).can_accept(entry.size_class),
        ensures
            final(self).wf(),
            final(self).spec_capacity() == old(self).spec_capacity(),
            final(self).spec_base() == old(self).spec_base(),
            final(self).entries() =~= kept_entries(old(self).entries(), entry.size_class).push(
                entry,
            ),
            r.evicted@.len() == evicted_entries(old(self).entries(), entry.size_class).len(),
            forall|j: int|
                0 <= j < r.evicted@.len() ==> {
                    let ev = evicted_entries(old(self).entries(), entry.size_class)[j];
                    (#[trigger] r.evicted@[j]) == (Eviction {
                        entry: ev.1,
                        stack_pos: old(self).spec_slot_pos(ev.0),
                    })
                },
            r.completed == (final(self).entries().len() == final(self).spec_capacity()),
    {
        let sz = entry.size_class;
        let n = self.total;
        let capacity = self.slots.len();
        let ghost olds = self.entries();
        let mut kept: Vec<StackEntry> = Vec::new();
        let mut evicted: Vec<Eviction> = Vec::new();
        let mut i: usize = 0;
        while i < n
            invariant
                i <= n,
                n == self.total,
                capacity == self.slots@.len(),
                self.wf(),
                olds == self.entries(),
                sz == entry.size_class,
                kept@ =~= kept_entries(olds.take(i as int), sz),
                evicted@.len() == evicted_entries(olds.take(i as int), sz).len(),
                forall|j: int|
                    0 <= j < evicted@.len() ==> {
                        let ev = evicted_entries(olds.take(i as int), sz)[j];
                        (#[trigger] evicted@[j]) == (Eviction {
                            entry: ev.1,
                            stack_pos: self.spec_slot_pos(ev.0),
                        })
                    },
                ((exists|j: int| 0 <= j < i && (#[trigger] olds[j]).size_class < sz)
                    ==> evicted@.len() >= 1),
            decreases n - i,
        {
            proof {
                lemma_filter_step(olds, i as int, sz);
                assert(olds.take(i as int + 1).take(i as int) =~= olds.take(i as int));
            }
            let item = self.slots[i].unwrap();
            assert(item == olds[i as int]);
            if item.size_class < sz {
                let idx = i as i64;
                let dy = idx * FISH_STACK_HEIGHT;
                let pos = Vec2i { x: self.base.x, y: self.base.y + dy };
                evicted.push(Eviction { entry: item, stack_pos: pos });
            } else {
                kept.push(item);
            }
            i = i + 1;
        }
        proof {
            assert(olds.take(n as int) =~= olds);
            lemma_split_counts(olds, sz);
        }
        // compact: survivors first, the arrival on top, empties above
        let kept_n = kept.len();
        let mut new_slots: Vec<Option<StackEntry>> = Vec::new();
        let mut w: usize = 0;
        while w < kept_n
            invariant
                w <= kept_n,
                kept_n == kept@.len(),
                new_slots@.len() == w,
                forall|j: int| 0 <= j < w ==> (#[trigger] new_slots@[j]) == Some(kept@[j]),
            decreases kept_n - w,
        {
            new_slots.push(Some(kept[w]));
            w = w + 1;
        }
        new_slots.push(Some(entry));
        let mut f: usize = new_slots.len();
        while f < capacity
            invariant
                kept_n + 1 <= f <= capacity,
                new_slots@.len() == f,
                forall|j: int| 0 <= j < kept_n ==> (#[trigger] new_slots@[j]) == Some(kept@[j]),
                new_slots@[kept_n as int] == Some(entry),
                forall|j: int| kept_n < j < f ==> (#[trigger] new_slots@[j]) is None,
            decreases capacity - f,
        {
            new_slots.push(None);
            f = f + 1;
        }
        self.slots = new_slots;
        self.total = kept_n + 1;
        let completed = self.total == capacity;
        InsertOutcome { evicted, completed }
    }
}

} // verus!
