use vstd::prelude::*;
use crate::arc::ReturnTrajectory;
use crate::hook::{try_knock_out_return_arc, knock_out_ok, knock_out_arc_fields};
use crate::stack::{CatchStack, StackEntry, Eviction, kept_entries, evicted_entries};

verus! {

/// Consume a landed-in-stack event in the same tick it was produced:
/// the catch joins the stack, every knocked-out occupant immediately
/// gets its return arc solved from the slot it held, and completion is
/// reported exactly when the stack fills.  Advancing runs before
/// consuming, so nothing of this tick is deferred to the next.
pub fn handle_fish_landed_in_stack(stack: &mut CatchStack, entry: StackEntry, now: i64) -> (r: (
    Vec<(Eviction, Option<ReturnTrajectory>)>,
    bool,
))
    requires
        old(stack).wf(),
        old(stack).can_accept(entry.size_class),
    ensures
        final(stack).wf(),
        final(stack).spec_capacity() == old(stack).spec_capacity(),
        final(stack).spec_base() == old(stack).spec_base(),
        final(stack).entries() =~= kept_entries(old(stack).entries(), entry.size_class).push(
            entry,
        ),
        r.1 == (final(stack).entries().len() == final(stack).spec_capacity()),
        r.0@.len() == evicted_entries(old(stack).entries(), entry.size_class).len(),
        forall|j: int|
            0 <= j < r.0@.len() ==> {
                let ev = evicted_entries(old(stack).entries(), entry.size_class)[j];
                &&& (#[trigger] r.0@[j]).0 == (Eviction {
                    entry: ev.1,
                    stack_pos: old(stack).spec_slot_pos(ev.0),
                })
                &&& (r.0@[j].1 is Some <==> knock_out_ok(
                    r.0@[j].0.stack_pos,
                    ev.1.origin_lane_y as int,
                    now as int,
                ))
                &&& (r.0@[j].1 matches Some(rt) ==> knock_out_arc_fields(
                    rt,
                    r.0@[j].0.stack_pos,
                    ev.1.origin_lane_y as int,
                    now as int,
                ))
            },
{
    let ghost olds = stack.entries();
    let outcome = stack.insert(entry);
    let mut out: Vec<(Eviction, Option<ReturnTrajectory>)> = Vec::new();
    let n = outcome.evicted.len();
    let mut i: usize = 0;
    while i < n
        invariant
            i <= n,
            n == outcome.evicted@.len(),
            out@.len() == i,
            n == evicted_entries(olds, entry.size_class).len(),
            forall|j: int|
                0 <= j < n ==> {
                    let ev = evicted_entries(olds, entry.size_class)[j];
                    (#[trigger] outcome.evicted@[j]) == (Eviction {
                        entry: ev.1,
                        stack_pos: old(stack).spec_slot_pos(ev.0),
                    })
                },
            forall|j: int|
                0 <= j < i ==> {
                    let ev = evicted_entries(olds, entry.size_class)[j];
                    &&& (#[trigger] out@[j]).0 == (Eviction {
                        entry: ev.1,
                        stack_pos: old(stack).spec_slot_pos(ev.0),
                    })
                    &&& (out@[j].1 is Some <==> knock_out_ok(
                        out@[j].0.stack_pos,
                        ev.1.origin_lane_y as int,
                        now as int,
                    ))
                    &&& (out@[j].1 matches Some(rt) ==> knock_out_arc_fields(
                        rt,
                        out@[j].0.stack_pos,
                        ev.1.origin_lane_y as int,
                        now as int,
                    ))
                },
        decreases n - i,
    {
        let ev = outcome.evicted[i];
        let rt = try_knock_out_return_arc(ev.stack_pos, ev.entry.origin_lane_y, now);
        out.push((ev, rt));
        i = i + 1;
    }
    (out, outcome.completed)
}

} // verus!
