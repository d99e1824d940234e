use hook_line_sinker::session::handle_fish_landed_in_stack;
use hook_line_sinker::stack::{CatchStack, StackEntry};
use hook_line_sinker::vec2::Vec2i;

fn base() -> Vec2i {
    Vec2i { x: -1_000_000_000, y: 435_000_000 }
}

fn entry(id: u64, size_class: u32, origin_lane_y: i64) -> StackEntry {
    StackEntry { id, size_class, origin_lane_y }
}

#[test]
fn new_stack_is_empty() {
    let s = CatchStack::new(3, base());
    assert_eq!(s.total_count(), 0);
    assert_eq!(s.capacity(), 3);
    assert!(!s.is_full());
    for i in 0..3 {
        assert!(s.slot(i).is_none());
    }
}

#[test]
fn cascading_eviction_scenario() {
    // capacity 3; a size-2 arrival, then size-1, then size-5 which
    // knocks both out and stands alone
    let mut s = CatchStack::new(3, base());

    let r = s.insert(entry(1, 2, -10));
    assert_eq!(r.evicted.len(), 0);
    assert!(!r.completed);
    assert_eq!(s.total_count(), 1);
    assert_eq!(s.slot(0).unwrap().id, 1);

    let r = s.insert(entry(2, 1, -20));
    assert_eq!(r.evicted.len(), 0);
    assert!(!r.completed);
    assert_eq!(s.total_count(), 2);
    assert_eq!(s.slot(0).unwrap().id, 1);
    assert_eq!(s.slot(1).unwrap().id, 2);

    let r = s.insert(entry(3, 5, -30));
    assert_eq!(r.evicted.len(), 2);
    assert!(!r.completed);
    assert_eq!(s.total_count(), 1);
    assert_eq!(s.slot(0).unwrap().id, 3);
    assert!(s.slot(1).is_none());
    assert!(s.slot(2).is_none());

    // eviction order is slot order, bottom to top, and each event
    // carries the slot position it was ejected from
    assert_eq!(r.evicted[0].entry.id, 1);
    assert_eq!(r.evicted[0].stack_pos.x, -1_000_000_000);
    assert_eq!(r.evicted[0].stack_pos.y, 435_000_000);
    assert_eq!(r.evicted[1].entry.id, 2);
    assert_eq!(r.evicted[1].stack_pos.y, 435_000_000 + 50_000_000);
}

#[test]
fn eviction_preserves_origin_lane() {
    let mut s = CatchStack::new(2, base());
    s.insert(entry(7, 1, -123_456));
    let r = s.insert(entry(8, 9, -1));
    assert_eq!(r.evicted.len(), 1);
    assert_eq!(r.evicted[0].entry.origin_lane_y, -123_456);
}

#[test]
fn equal_size_never_evicts() {
    // capacity 2; two equal arrivals fill the stack and complete it
    let mut s = CatchStack::new(2, base());
    let r = s.insert(entry(10, 3, 0));
    assert_eq!(r.evicted.len(), 0);
    assert!(!r.completed);
    let r = s.insert(entry(11, 3, 0));
    assert_eq!(r.evicted.len(), 0);
    assert_eq!(s.total_count(), 2);
    assert!(r.completed);
    assert!(s.is_full());
    assert_eq!(s.slot(0).unwrap().id, 10);
    assert_eq!(s.slot(1).unwrap().id, 11);
}

#[test]
fn smaller_arrival_evicts_nothing() {
    let mut s = CatchStack::new(4, base());
    s.insert(entry(1, 8, 0));
    s.insert(entry(2, 6, 0));
    let before = s.total_count();
    let r = s.insert(entry(3, 5, 0));
    assert_eq!(r.evicted.len(), 0);
    assert_eq!(s.total_count(), before + 1);
}

#[test]
fn completion_fires_only_on_reaching_capacity() {
    // a non-evicting insert at capacity - 1 completes the stack
    let mut s = CatchStack::new(3, base());
    s.insert(entry(1, 4, 0));
    s.insert(entry(2, 4, 0));
    let r = s.insert(entry(3, 4, 0));
    assert!(r.completed);

    // an evicting insert that nets below capacity must not complete
    let mut s = CatchStack::new(2, base());
    s.insert(entry(1, 3, 0));
    s.insert(entry(2, 3, 0));
    let r = s.insert(entry(3, 4, 0));
    assert_eq!(r.evicted.len(), 2);
    assert_eq!(s.total_count(), 1);
    assert!(!r.completed);
}

#[test]
fn partial_eviction_compacts_in_order() {
    let mut s = CatchStack::new(5, base());
    s.insert(entry(1, 9, 0));
    s.insert(entry(2, 7, 0));
    s.insert(entry(3, 2, 0));
    s.insert(entry(4, 1, 0));
    // size 5 knocks out the 2 and the 1, survivors keep their order
    let r = s.insert(entry(5, 5, 0));
    assert_eq!(r.evicted.len(), 2);
    assert_eq!(r.evicted[0].entry.id, 3);
    assert_eq!(r.evicted[1].entry.id, 4);
    assert_eq!(s.total_count(), 3);
    assert_eq!(s.slot(0).unwrap().id, 1);
    assert_eq!(s.slot(1).unwrap().id, 2);
    assert_eq!(s.slot(2).unwrap().id, 5);
    assert!(s.slot(3).is_none());
    assert!(s.slot(4).is_none());
}

#[test]
fn occupants_always_form_contiguous_prefix() {
    let mut s = CatchStack::new(6, base());
    let arrivals = [3u32, 1, 5, 2, 4, 4, 6, 1];
    for (i, sz) in arrivals.iter().enumerate() {
        s.insert(entry(i as u64, *sz, 0));
        let n = s.total_count();
        let mut some_count: usize = 0;
        for j in 0..s.capacity() {
            match s.slot(j) {
                Some(_) => {
                    assert!(j < n);
                    some_count += 1;
                }
                None => assert!(j >= n),
            }
        }
        assert_eq!(some_count, n);
    }
}

#[test]
fn landing_consumes_evictions_in_the_same_tick() {
    // a bigger catch lands: the occupant is knocked out and its return
    // arc is solved at once, aimed back at the lane it came from
    let mut s = CatchStack::new(2, base());
    s.insert(entry(1, 2, -250_000_000));
    let (knockouts, completed) = handle_fish_landed_in_stack(&mut s, entry(2, 9, -300_000_000), 0);
    assert!(!completed);
    assert_eq!(knockouts.len(), 1);
    let (ev, arc) = &knockouts[0];
    assert_eq!(ev.entry.id, 1);
    let arc = arc.expect("the return arc from the stack base is solvable");
    assert_eq!(arc.start_pos, ev.stack_pos);
    assert_eq!(arc.end_pos.y, -250_000_000);
    assert_eq!(arc.start_time, 0);
    assert!(arc.end_time > 0);
    assert_eq!(s.total_count(), 1);
    assert_eq!(s.slot(0).unwrap().id, 2);
}

#[test]
fn reset_round_trip() {
    let mut s = CatchStack::new(3, base());
    s.insert(entry(1, 2, 0));
    s.insert(entry(2, 8, 0));
    s.insert(entry(3, 8, 0));
    s.reset();
    assert_eq!(s.total_count(), 0);
    for i in 0..3 {
        assert!(s.slot(i).is_none());
    }
    assert_eq!(s.capacity(), 3);
    // the stack is usable again after the reset
    let r = s.insert(entry(4, 1, 0));
    assert_eq!(r.evicted.len(), 0);
    assert_eq!(s.total_count(), 1);
}
