use async_rwlock::rwlock::Rwlock;

// Round trip, read side: acquire and release with no contention returns the
// state to 0 and wakes nobody.
#[test]
fn read_round_trip_uncontended() {
    let mut l = Rwlock::new(5u32);
    let fut = l.read();
    let guard = fut.poll(&mut l, 1).expect("free lock must grant a reader");
    assert_eq!(l.current_state(), 1);
    assert_eq!(*guard.borrow(&l), 5);
    let woken = guard.release(&mut l);
    assert_eq!(l.current_state(), 0);
    assert!(woken.is_empty());
    assert!(!l.was_writer_flag());
}

// Round trip, write side: acquire and release with no contention returns the
// state to 0; the fairness bit toggles exactly once.
#[test]
fn write_round_trip_uncontended() {
    let mut l = Rwlock::new(5u32);
    let fut = l.write();
    let guard = fut.poll(&mut l, 1).expect("free lock must grant the writer");
    assert_eq!(l.current_state(), -1);
    assert_eq!(*guard.borrow(&l), 5);
    let woken = guard.release(&mut l);
    assert_eq!(l.current_state(), 0);
    assert!(woken.is_empty());
    assert!(l.was_writer_flag());
}

// Scenario A: two readers poll concurrently with no writer; both resolve
// immediately and the state becomes 2.
#[test]
fn two_readers_resolve_immediately() {
    let mut l = Rwlock::new(0u32);
    let f1 = l.read();
    let f2 = l.read();
    let g1 = f1.poll(&mut l, 1);
    let g2 = f2.poll(&mut l, 2);
    assert!(g1.is_some());
    assert!(g2.is_some());
    assert_eq!(l.current_state(), 2);
    g1.unwrap().release(&mut l);
    g2.unwrap().release(&mut l);
    assert_eq!(l.current_state(), 0);
}

// Scenario B: with two active readers a writer stays pending; dropping both
// read guards steps the state 2 -> 1 -> 0, the last release wakes the queued
// writer, and its next poll resolves with state -1.
#[test]
fn writer_waits_for_both_readers() {
    let mut l = Rwlock::new(0u32);
    let g1 = l.read().poll(&mut l, 1).unwrap();
    let g2 = l.read().poll(&mut l, 2).unwrap();
    assert_eq!(l.current_state(), 2);

    let wf = l.write();
    assert!(wf.poll(&mut l, 9).is_none());
    assert_eq!(l.write_waiter_count(), 1);
    assert_eq!(l.write_waiter_at(0), 9);

    let woken = g1.release(&mut l);
    assert_eq!(l.current_state(), 1);
    assert!(woken.is_empty());

    let woken = g2.release(&mut l);
    assert_eq!(l.current_state(), 0);
    assert_eq!(woken, vec![9]);
    assert_eq!(l.write_waiter_count(), 0);

    let gw = wf.poll(&mut l, 9);
    assert!(gw.is_some());
    assert_eq!(l.current_state(), -1);
}

// Scenario C: while a write guard is held, a reader and a writer both poll;
// both stay pending in their own queues, and releasing the write guard
// applies the fairness rule to wake exactly one class.
#[test]
fn contended_release_wakes_one_class() {
    let mut l = Rwlock::new(0u32);
    let gw = l.write().poll(&mut l, 100).unwrap();

    let rf = l.read();
    let wf = l.write();
    assert!(rf.poll(&mut l, 1).is_none());
    assert!(wf.poll(&mut l, 2).is_none());
    assert_eq!(l.read_waiter_count(), 1);
    assert_eq!(l.read_waiter_at(0), 1);
    assert_eq!(l.write_waiter_count(), 1);
    assert_eq!(l.write_waiter_at(0), 2);

    // The prior flag is false, so readers should wait: exactly the one
    // queued writer is woken, the reader stays queued.
    assert!(!l.was_writer_flag());
    let woken = gw.release(&mut l);
    assert_eq!(woken, vec![2]);
    assert_eq!(l.read_waiter_count(), 1);
    assert_eq!(l.write_waiter_count(), 0);
    assert!(l.was_writer_flag());
}

// Scenario D: into_inner after all guards are gone returns the last written
// value unchanged.
#[test]
fn into_inner_returns_last_write() {
    let mut l = Rwlock::new(1u32);
    let g = l.write().poll(&mut l, 1).unwrap();
    *g.borrow_mut(&mut l) = 17;
    *g.borrow_mut(&mut l) = 23;
    g.release(&mut l);
    assert_eq!(l.into_inner(), 23);
}

// Dedup: polling the same pending future repeatedly without an intervening
// wakeup leaves the waiter queue length unchanged after the first
// registration.
#[test]
fn repeated_pending_polls_register_once() {
    let mut l = Rwlock::new(0u32);
    let gw = l.write().poll(&mut l, 100).unwrap();

    let rf = l.read();
    let wf = l.write();
    for _ in 0..4 {
        assert!(rf.poll(&mut l, 7).is_none());
        assert!(wf.poll(&mut l, 8).is_none());
    }
    assert_eq!(l.read_waiter_count(), 1);
    assert_eq!(l.read_waiter_at(0), 7);
    assert_eq!(l.write_waiter_count(), 1);
    assert_eq!(l.write_waiter_at(0), 8);
    gw.release(&mut l);
}

// No double wake: a wake handle popped on a release is gone from its queue,
// so later releases wake the remaining handles, never a popped one again.
#[test]
fn popped_handle_never_woken_twice() {
    let mut l = Rwlock::new(0u32);
    let g = l.read().poll(&mut l, 1).unwrap();
    let wf1 = l.write();
    let wf2 = l.write();
    assert!(wf1.poll(&mut l, 11).is_none());
    assert!(wf2.poll(&mut l, 12).is_none());

    // Last reader leaving wakes exactly the front writer, which leaves the
    // queue.
    let woken = g.release(&mut l);
    assert_eq!(woken, vec![11]);
    assert_eq!(l.write_waiter_count(), 1);
    assert_eq!(l.write_waiter_at(0), 12);

    // The woken writer acquires and releases; only the other handle can be
    // woken now.
    let gw = wf1.poll(&mut l, 11).unwrap();
    let woken = gw.release(&mut l);
    assert_eq!(woken, vec![12]);
    assert_eq!(l.write_waiter_count(), 0);
}

// The reader count tracks the number of live read guards while the state is
// non-negative, and a write guard excludes read guards entirely.
#[test]
fn state_counts_live_guards() {
    let mut l = Rwlock::new(0u32);
    let mut guards = Vec::new();
    for id in 0..5u64 {
        guards.push(l.read().poll(&mut l, id).unwrap());
        assert_eq!(l.current_state() as usize, guards.len());
    }
    while let Some(g) = guards.pop() {
        g.release(&mut l);
        assert_eq!(l.current_state() as usize, guards.len());
    }
    let gw = l.write().poll(&mut l, 9).unwrap();
    assert_eq!(l.current_state(), -1);
    assert!(l.read().poll(&mut l, 1).is_none());
    gw.release(&mut l);
}

// Fairness across three consecutive write releases, with the exact flag
// sequence: the flag starts false, so the first release lets readers wait
// and wakes the queued writer; the second (flag now true) drains the
// readers; pure read activity in between never touches the flag.
#[test]
fn fairness_alternates_across_write_releases() {
    let mut l = Rwlock::new(0u32);

    // First writer holds the lock; one reader and one writer queue up.
    let ga = l.write().poll(&mut l, 100).unwrap();
    let rf = l.read();
    let wf = l.write();
    assert!(rf.poll(&mut l, 1).is_none());
    assert!(wf.poll(&mut l, 2).is_none());

    // Release 1: prior flag false => wake the writer, not the readers.
    assert!(!l.was_writer_flag());
    let woken = ga.release(&mut l);
    assert_eq!(woken, vec![2]);
    assert!(l.was_writer_flag());

    // The woken writer acquires; the reader is still queued.
    let gb = wf.poll(&mut l, 2).unwrap();
    assert_eq!(l.read_waiter_count(), 1);

    // Release 2: prior flag true and a reader waits => drain the readers.
    let woken = gb.release(&mut l);
    assert_eq!(woken, vec![1]);
    assert!(!l.was_writer_flag());
    assert_eq!(l.read_waiter_count(), 0);

    // The woken reader acquires and releases; read traffic leaves the flag
    // alone.
    let gr = rf.poll(&mut l, 1).unwrap();
    assert_eq!(l.current_state(), 1);
    let woken = gr.release(&mut l);
    assert!(woken.is_empty());
    assert!(!l.was_writer_flag());

    // Release 3: no waiters at all => nobody woken, flag toggles again.
    let gc = l.write().poll(&mut l, 3).unwrap();
    let woken = gc.release(&mut l);
    assert!(woken.is_empty());
    assert!(l.was_writer_flag());
}

// Readers are not blocked by pending writers, only by an active one: with a
// writer already queued behind one reader, further readers still acquire on
// the fast path.
#[test]
fn readers_overtake_queued_writers() {
    let mut l = Rwlock::new(0u32);
    let ga = l.read().poll(&mut l, 1).unwrap();
    let wf = l.write();
    assert!(wf.poll(&mut l, 9).is_none());
    assert_eq!(l.write_waiter_count(), 1);

    // A later reader overtakes the queued writer.
    let gb = l.read().poll(&mut l, 2).unwrap();
    assert_eq!(l.current_state(), 2);
    assert_eq!(l.write_waiter_count(), 1);

    gb.release(&mut l);
    let woken = ga.release(&mut l);
    assert_eq!(woken, vec![9]);
}

// A run of pure read acquisitions and releases never perturbs the fairness
// flag, whatever its value.
#[test]
fn read_traffic_never_touches_flag() {
    let mut l = Rwlock::new(0u32);
    // Put the flag into its true state with one write round trip.
    l.write().poll(&mut l, 9).unwrap().release(&mut l);
    assert!(l.was_writer_flag());
    for id in 0..8u64 {
        let g = l.read().poll(&mut l, id).unwrap();
        g.release(&mut l);
        assert!(l.was_writer_flag());
    }
}
