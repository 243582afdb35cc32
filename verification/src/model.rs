//! Mathematical model of the lock's state machine.
//!
//! The executable lock in [`crate::rwlock`] promises, in every contract, that
//! its effect on the synchronization fields equals one of the transition
//! functions below.  On top of the transitions, [`LockModel`] counts the live
//! guards, and the lemmas at the end establish the lock's central invariants:
//! a write guard excludes every other guard, the reader count equals the
//! number of live read guards, popped wake handles are never woken twice, and
//! re-registering a pending waiter is idempotent.

use vstd::prelude::*;

verus! {

/// The synchronization fields of the lock, as mathematical values.
///
/// `lock_state` is `0` when unlocked, `-1` when write-held, and `n >= 1` when
/// `n` read guards are live.  The two waiter queues hold wake-handle
/// identifiers in FIFO order, and `last_woken_was_writer` is the fairness bit
/// consulted (and toggled) on each write release.
#[verifier::ext_equal]
pub ghost struct LockCore {
    pub lock_state: int,
    pub read_waiters: Seq<u64>,
    pub write_waiters: Seq<u64>,
    pub last_woken_was_writer: bool,
}

/// Well-formedness of the synchronization fields: the state is one of the
/// legal encodings and fits the machine word, and registration dedup has kept
/// each queue free of repeated wake handles.
pub open spec fn core_inv(c: LockCore) -> bool {
    &&& -1 <= c.lock_state <= i32::MAX as int
    &&& c.read_waiters.no_duplicates()
    &&& c.write_waiters.no_duplicates()
}

/// The state of a freshly created lock: unlocked, no waiters, fairness bit
/// clear.
pub open spec fn init_core() -> LockCore {
    LockCore {
        lock_state: 0,
        read_waiters: Seq::empty(),
        write_waiters: Seq::empty(),
        last_woken_was_writer: false,
    }
}

/// FIFO registration with deduplication: a handle already present is not
/// appended again, so unproductive re-polls leave the queue unchanged.
pub open spec fn enqueue_waiter(q: Seq<u64>, w: u64) -> Seq<u64> {
    if q.contains(w) {
        q
    } else {
        q.push(w)
    }
}

/// A read acquisition succeeds exactly when no writer holds the lock; queued
/// writers do not block it.
pub open spec fn read_poll_acquires(c: LockCore) -> bool {
    c.lock_state >= 0
}

/// A write acquisition succeeds exactly when the lock is entirely free.
pub open spec fn write_poll_acquires(c: LockCore) -> bool {
    c.lock_state == 0
}

/// Effect of polling a read acquisition with wake handle `w`: either the
/// reader count grows by one, or `w` is registered in the read-waiter queue.
pub open spec fn read_poll_core(c: LockCore, w: u64) -> LockCore {
    if read_poll_acquires(c) {
        LockCore { lock_state: c.lock_state + 1, ..c }
    } else {
        LockCore { read_waiters: enqueue_waiter(c.read_waiters, w), ..c }
    }
}

/// Effect of polling a write acquisition with wake handle `w`: either the
/// lock becomes write-held, or `w` is registered in the write-waiter queue.
pub open spec fn write_poll_core(c: LockCore, w: u64) -> LockCore {
    if write_poll_acquires(c) {
        LockCore { lock_state: -1, ..c }
    } else {
        LockCore { write_waiters: enqueue_waiter(c.write_waiters, w), ..c }
    }
}

/// Effect of releasing a read guard on the synchronization fields.  With two
/// or more readers the count merely drops; the last reader unlocks and lets
/// the front write waiter, if any, leave the queue to be woken.
pub open spec fn read_release_core(c: LockCore) -> LockCore {
    if c.lock_state >= 2 {
        LockCore { lock_state: c.lock_state - 1, ..c }
    } else {
        LockCore {
            lock_state: 0,
            write_waiters: if c.write_waiters.len() > 0 {
                c.write_waiters.skip(1)
            } else {
                c.write_waiters
            },
            ..c
        }
    }
}

/// The wake handles invoked by a read release: none while other readers
/// remain, otherwise the front write waiter if one is queued.
pub open spec fn read_release_woken(c: LockCore) -> Seq<u64> {
    if c.lock_state >= 2 {
        Seq::empty()
    } else if c.write_waiters.len() > 0 {
        seq![c.write_waiters[0]]
    } else {
        Seq::empty()
    }
}

/// The fairness rule, decided on the fairness bit's value *before* the
/// toggle: a write release drains the read-waiter queue when the previous
/// release preferred a writer and readers are waiting, or when no writer is
/// waiting at all; otherwise it wakes exactly one writer.
pub open spec fn write_release_wakes_readers(c: LockCore) -> bool {
    (c.last_woken_was_writer && c.read_waiters.len() > 0) || c.write_waiters.len() == 0
}

/// Effect of releasing the write guard: the lock unlocks, the fairness bit
/// toggles, and the class chosen by the fairness rule leaves its queue.
pub open spec fn write_release_core(c: LockCore) -> LockCore {
    if write_release_wakes_readers(c) {
        LockCore {
            lock_state: 0,
            last_woken_was_writer: !c.last_woken_was_writer,
            read_waiters: Seq::empty(),
            ..c
        }
    } else {
        LockCore {
            lock_state: 0,
            last_woken_was_writer: !c.last_woken_was_writer,
            write_waiters: c.write_waiters.skip(1),
            ..c
        }
    }
}

/// The wake handles invoked by a write release: the whole read-waiter queue
/// in FIFO order, or the single front write waiter.
pub open spec fn write_release_woken(c: LockCore) -> Seq<u64> {
    if write_release_wakes_readers(c) {
        c.read_waiters
    } else {
        seq![c.write_waiters[0]]
    }
}

/// The whole system as the proofs see it: the lock's synchronization fields
/// together with the number of live guards of each kind.  Guards are linear
/// values — produced only by a successful poll, consumed only by a release —
/// so each acquisition and release event moves both counters and core in
/// step.
#[verifier::ext_equal]
pub ghost struct LockModel {
    pub core: LockCore,
    pub live_read_guards: nat,
    pub live_write_guards: nat,
}

/// One interaction with the lock.  `PollRead`/`PollWrite` cover both
/// outcomes of a poll (acquisition or registration); the releases destroy a
/// guard.
pub enum LockEvent {
    PollRead { waker: u64 },
    PollWrite { waker: u64 },
    ReleaseRead,
    ReleaseWrite,
}

/// A freshly created lock with no guard outstanding.
pub open spec fn init_model() -> LockModel {
    LockModel { core: init_core(), live_read_guards: 0, live_write_guards: 0 }
}

/// When an event can occur: a release needs a live guard of its kind (a
/// guard is destroyed exactly once), and a read poll needs the reader count
/// to fit the machine word.
pub open spec fn event_enabled(m: LockModel, e: LockEvent) -> bool {
    match e {
        LockEvent::PollRead { .. } => m.core.lock_state < i32::MAX as int,
        LockEvent::PollWrite { .. } => true,
        LockEvent::ReleaseRead => m.live_read_guards > 0,
        LockEvent::ReleaseWrite => m.live_write_guards > 0,
    }
}

/// The system after an event: the core takes the matching transition, and
/// the guard counters follow the guards handed out or destroyed.
pub open spec fn next_model(m: LockModel, e: LockEvent) -> LockModel {
    match e {
        LockEvent::PollRead { waker } => LockModel {
            core: read_poll_core(m.core, waker),
            live_read_guards: if read_poll_acquires(m.core) {
                m.live_read_guards + 1
            } else {
                m.live_read_guards
            },
            live_write_guards: m.live_write_guards,
        },
        LockEvent::PollWrite { waker } => LockModel {
            core: write_poll_core(m.core, waker),
            live_read_guards: m.live_read_guards,
            live_write_guards: if write_poll_acquires(m.core) {
                m.live_write_guards + 1
            } else {
                m.live_write_guards
            },
        },
        LockEvent::ReleaseRead => LockModel {
            core: read_release_core(m.core),
            live_read_guards: (m.live_read_guards - 1) as nat,
            live_write_guards: m.live_write_guards,
        },
        LockEvent::ReleaseWrite => LockModel {
            core: write_release_core(m.core),
            live_read_guards: m.live_read_guards,
            live_write_guards: (m.live_write_guards - 1) as nat,
        },
    }
}

/// The lock's central invariant.  A write guard excludes every other guard:
/// the state reads `-1` exactly while the single write guard is live, and no
/// read guard is live then.  While the state is non-negative it equals the
/// number of live read guards.
pub open spec fn model_inv(m: LockModel) -> bool {
    &&& core_inv(m.core)
    &&& m.live_write_guards <= 1
    &&& (m.core.lock_state == -1 <==> m.live_write_guards == 1)
    &&& (m.core.lock_state >= 0 ==> m.live_read_guards == m.core.lock_state)
    &&& (m.core.lock_state == -1 ==> m.live_read_guards == 0)
}

/// Registration dedup keeps a queue free of duplicates.
proof fn lemma_enqueue_no_duplicates(q: Seq<u64>, w: u64)
    requires
        q.no_duplicates(),
    ensures
        enqueue_waiter(q, w).no_duplicates(),
{
    if !q.contains(w) {
        let q2 = q.push(w);
        assert forall|i: int, j: int|
            0 <= i < q2.len() && 0 <= j < q2.len() && i != j implies q2[i] != q2[j] by {
            if i < q.len() && j < q.len() {
            } else if i == q.len() {
                if q[j] == w {
                    assert(q.contains(w));
                }
            } else {
                if q[i] == w {
                    assert(q.contains(w));
                }
            }
        }
    }
}

/// Popping the front of a duplicate-free queue leaves a duplicate-free queue
/// that no longer holds the popped handle.
proof fn lemma_pop_front(q: Seq<u64>)
    requires
        q.no_duplicates(),
        q.len() > 0,
    ensures
        q.skip(1).no_duplicates(),
        !q.skip(1).contains(q[0]),
{
    let q2 = q.skip(1);
    assert forall|i: int, j: int|
        0 <= i < q2.len() && 0 <= j < q2.len() && i != j implies q2[i] != q2[j] by {
        assert(q2[i] == q[i + 1]);
        assert(q2[j] == q[j + 1]);
    }
    assert forall|k: int| 0 <= k < q2.len() implies q2[k] != q[0] by {
        assert(q2[k] == q[k + 1]);
    }
    if q2.contains(q[0]) {
        let k = choose|k: int| 0 <= k < q2.len() && q2[k] == q[0];
        assert(q2[k] != q[0]);
    }
}

/// The lock starts inside the invariant.
pub proof fn lemma_init_inv()
    ensures
        model_inv(init_model()),
{
}

/// Every enabled event preserves the invariant: the exclusion between write
/// and read guards and the agreement between reader count and live read
/// guards hold after each poll and each release.
pub proof fn lemma_step_preserves_inv(m: LockModel, e: LockEvent)
    requires
        model_inv(m),
        event_enabled(m, e),
    ensures
        model_inv(next_model(m, e)),
{
    match e {
        LockEvent::PollRead { waker } => {
            if !read_poll_acquires(m.core) {
                lemma_enqueue_no_duplicates(m.core.read_waiters, waker);
            }
        },
        LockEvent::PollWrite { waker } => {
            if !write_poll_acquires(m.core) {
                lemma_enqueue_no_duplicates(m.core.write_waiters, waker);
            }
        },
        LockEvent::ReleaseRead => {
            if m.core.lock_state < 2 && m.core.write_waiters.len() > 0 {
                lemma_pop_front(m.core.write_waiters);
            }
        },
        LockEvent::ReleaseWrite => {
            if !write_release_wakes_readers(m.core) {
                lemma_pop_front(m.core.write_waiters);
            }
        },
    }
}

/// The system after a whole run of events.
pub open spec fn run_model(m: LockModel, events: Seq<LockEvent>) -> LockModel
    decreases events.len(),
{
    if events.len() == 0 {
        m
    } else {
        run_model(next_model(m, events[0]), events.skip(1))
    }
}

/// Whether each event of a run is enabled in the state it meets.
pub open spec fn run_enabled(m: LockModel, events: Seq<LockEvent>) -> bool
    decreases events.len(),
{
    events.len() == 0 || (event_enabled(m, events[0]) && run_enabled(
        next_model(m, events[0]),
        events.skip(1),
    ))
}

/// Invariant of every reachable state: whatever sequence of polls and
/// releases a scheduler performs on a fresh lock, a write-held state has no
/// live read guard, and a read-held state has exactly as many live read
/// guards as its reader count says.
pub proof fn lemma_reachable_inv(m: LockModel, events: Seq<LockEvent>)
    requires
        model_inv(m),
        run_enabled(m, events),
    ensures
        model_inv(run_model(m, events)),
    decreases events.len(),
{
    if events.len() > 0 {
        lemma_step_preserves_inv(m, events[0]);
        lemma_reachable_inv(next_model(m, events[0]), events.skip(1));
    }
}

/// Corollary for a fresh lock: after any enabled run of polls and releases,
/// `-1` in the state word means the single live write guard and no read
/// guard, and a non-negative state word counts the live read guards exactly.
pub proof fn lemma_invariant_from_init(events: Seq<LockEvent>)
    requires
        run_enabled(init_model(), events),
    ensures
        model_inv(run_model(init_model(), events)),
{
    lemma_init_inv();
    lemma_reachable_inv(init_model(), events);
}

/// Round trip, read side: acquiring and releasing a read guard on an
/// uncontended lock returns the state to `0`; when nobody is queued at all,
/// the lock comes back exactly as it was.
pub proof fn lemma_read_round_trip(c: LockCore, w: u64)
    requires
        core_inv(c),
        c.lock_state == 0,
    ensures
        read_release_core(read_poll_core(c, w)).lock_state == 0,
        c.write_waiters.len() == 0 ==> read_release_core(read_poll_core(c, w)) == c,
{
    assert(read_release_core(read_poll_core(c, w)) =~= read_release_core(
        LockCore { lock_state: 1, ..c },
    ));
    if c.write_waiters.len() == 0 {
        assert(read_release_core(read_poll_core(c, w)) =~= c);
    }
}

/// Round trip, write side: acquiring and releasing the write guard on an
/// uncontended lock returns the state to `0`; when nobody is queued, only
/// the fairness bit — toggled exactly once per write release — differs.
pub proof fn lemma_write_round_trip(c: LockCore, w: u64)
    requires
        core_inv(c),
        c.lock_state == 0,
    ensures
        write_release_core(write_poll_core(c, w)).lock_state == 0,
        c.read_waiters.len() == 0 && c.write_waiters.len() == 0 ==> write_release_core(
            write_poll_core(c, w),
        ) == (LockCore { last_woken_was_writer: !c.last_woken_was_writer, ..c }),
{
    let held = write_poll_core(c, w);
    assert(held =~= LockCore { lock_state: -1, ..c });
    if c.read_waiters.len() == 0 && c.write_waiters.len() == 0 {
        assert(write_release_core(held) =~= LockCore {
            last_woken_was_writer: !c.last_woken_was_writer,
            ..c
        });
    }
}

/// No double wake, read side: the handle a read release pops is delivered
/// once — it is no longer queued afterwards, so no later release can pop it
/// again for the same pending acquisition.
pub proof fn lemma_read_release_no_double_wake(c: LockCore)
    requires
        core_inv(c),
        c.lock_state >= 1,
    ensures
        read_release_woken(c).no_duplicates(),
        forall|i: int| 0 <= i < read_release_woken(c).len() ==> !read_release_core(
            c,
        ).write_waiters.contains(#[trigger] read_release_woken(c)[i]),
{
    if c.lock_state < 2 && c.write_waiters.len() > 0 {
        lemma_pop_front(c.write_waiters);
    }
}

/// No double wake, write side: each handle a write release delivers is
/// delivered once, and is gone from its queue afterwards — a drained read
/// queue is empty, and a popped writer is no longer queued.
pub proof fn lemma_write_release_no_double_wake(c: LockCore)
    requires
        core_inv(c),
        c.lock_state == -1,
    ensures
        write_release_woken(c).no_duplicates(),
        write_release_wakes_readers(c) ==> write_release_core(c).read_waiters.len() == 0,
        !write_release_wakes_readers(c) ==> !write_release_core(c).write_waiters.contains(
            write_release_woken(c)[0],
        ),
{
    if !write_release_wakes_readers(c) {
        lemma_pop_front(c.write_waiters);
    }
}

/// Dedup: once a pending read poll has registered a wake handle, polling
/// again with the same handle and no intervening wakeup changes nothing —
/// in particular the queue keeps its length.
pub proof fn lemma_read_poll_idempotent(c: LockCore, w: u64)
    requires
        !read_poll_acquires(c),
    ensures
        read_poll_core(read_poll_core(c, w), w) == read_poll_core(c, w),
{
    let c1 = read_poll_core(c, w);
    assert(c1.read_waiters.contains(w)) by {
        if !c.read_waiters.contains(w) {
            assert(c1.read_waiters[c.read_waiters.len() as int] == w);
        }
    }
    assert(read_poll_core(c1, w) =~= c1);
}

/// Dedup: once a pending write poll has registered a wake handle, polling
/// again with the same handle and no intervening wakeup changes nothing.
pub proof fn lemma_write_poll_idempotent(c: LockCore, w: u64)
    requires
        !write_poll_acquires(c),
    ensures
        write_poll_core(write_poll_core(c, w), w) == write_poll_core(c, w),
{
    let c1 = write_poll_core(c, w);
    assert(c1.write_waiters.contains(w)) by {
        if !c.write_waiters.contains(w) {
            assert(c1.write_waiters[c.write_waiters.len() as int] == w);
        }
    }
    assert(write_poll_core(c1, w) =~= c1);
}

/// The fairness rule, spelled out over a write release.  The bit toggles
/// exactly once; exactly one queued writer is woken precisely when the rule
/// withholds the readers, and then the read queue is untouched; otherwise
/// the read queue is drained in FIFO order and the write queue is untouched.
pub proof fn lemma_write_release_fairness(c: LockCore)
    requires
        core_inv(c),
        c.lock_state == -1,
    ensures
        write_release_core(c).last_woken_was_writer == !c.last_woken_was_writer,
        write_release_wakes_readers(c) == ((c.last_woken_was_writer && c.read_waiters.len() > 0)
            || c.write_waiters.len() == 0),
        !write_release_wakes_readers(c) ==> write_release_woken(c) == seq![c.write_waiters[0]]
            && write_release_core(c).read_waiters == c.read_waiters
            && write_release_core(c).write_waiters == c.write_waiters.skip(1),
        write_release_wakes_readers(c) ==> write_release_woken(c) == c.read_waiters
            && write_release_core(c).read_waiters.len() == 0
            && write_release_core(c).write_waiters == c.write_waiters,
{
}

/// Pure read traffic never perturbs the fairness bit: read polls, read
/// releases and write polls all leave it alone; only a write release
/// touches it.
pub proof fn lemma_fairness_bit_only_write_release(c: LockCore, w: u64)
    ensures
        read_poll_core(c, w).last_woken_was_writer == c.last_woken_was_writer,
        read_release_core(c).last_woken_was_writer == c.last_woken_was_writer,
        write_poll_core(c, w).last_woken_was_writer == c.last_woken_was_writer,
{
}

} // verus!
