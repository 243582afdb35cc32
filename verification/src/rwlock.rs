//! The executable lock: poll-driven acquisition and explicit release.

use vstd::prelude::*;

use crate::model::{
    core_inv, init_core, read_poll_acquires, read_poll_core, read_release_core,
    read_release_woken, write_poll_acquires, write_poll_core, write_release_core,
    write_release_woken, LockCore,
};

verus! {

/// An asynchronous reader-writer lock.
///
/// The lock owns the protected value together with its synchronization
/// fields.  Acquisition is poll-driven: `read` and `write` hand out futures
/// whose every `poll` attempts the fast path, either producing a guard or
/// registering the caller's wake handle; releasing a guard performs the
/// release transition and reports which registered handles to wake.
pub struct Rwlock<T> {
    lock_state: i32,
    read_waiters: Vec<u64>,
    write_waiters: Vec<u64>,
    last_woken_was_writer: bool,
    data: T,
}

/// Abstraction of a lock: its synchronization fields as a [`LockCore`] and
/// the protected value.
#[verifier::ext_equal]
pub ghost struct RwlockView<T> {
    pub core: LockCore,
    pub data: T,
}

impl<T> View for Rwlock<T> {
    type V = RwlockView<T>;

    closed spec fn view(&self) -> RwlockView<T> {
        RwlockView {
            core: LockCore {
                lock_state: self.lock_state as int,
                read_waiters: self.read_waiters@,
                write_waiters: self.write_waiters@,
                last_woken_was_writer: self.last_woken_was_writer,
            },
            data: self.data,
        }
    }
}

impl<T> Rwlock<T> {
    /// The lock's invariant: its synchronization fields are well formed.
    pub open spec fn wf(&self) -> bool {
        core_inv(self@.core)
    }

    /// Creates a new lock over `data`, unlocked and with empty waiter queues.
    pub fn new(data: T) -> (r: Self)
        ensures
            r@.core == init_core(),
            r@.data == data,
            r.wf(),
    {
        let r = Rwlock {
            lock_state: 0,
            read_waiters: Vec::new(),
            write_waiters: Vec::new(),
            last_woken_was_writer: false,
            data,
        };
        proof {
            assert(r@.core =~= init_core());
        }
        r
    }

    /// Consumes the lock, returning the protected value.
    ///
    /// Taking the lock by value is only sound once every guard is gone, which
    /// is exactly when the state reads unlocked.
    pub fn into_inner(self) -> (r: T)
        requires
            self@.core.lock_state == 0,
        ensures
            r == self@.data,
    {
        self.data
    }
}

impl<T> Rwlock<T> {
    /// Requests shared access.  The returned future must be polled; the lock
    /// is read-held once a poll produces a guard.
    pub fn read(&self) -> RwlockReadGuardFuture {
        RwlockReadGuardFuture { _token: () }
    }

    /// Requests exclusive access.  The returned future must be polled; the
    /// lock is write-held once a poll produces a guard.
    pub fn write(&self) -> RwlockWriteGuardFuture {
        RwlockWriteGuardFuture { _token: () }
    }

    /// The current value of the state integer: `0` unlocked, `-1`
    /// write-held, `n >= 1` readers.
    pub fn current_state(&self) -> (r: i32)
        ensures
            r as int == self@.core.lock_state,
    {
        self.lock_state
    }

    /// How many wake handles are registered in the read-waiter queue.
    pub fn read_waiter_count(&self) -> (r: usize)
        ensures
            r as int == self@.core.read_waiters.len(),
    {
        self.read_waiters.len()
    }

    /// How many wake handles are registered in the write-waiter queue.
    pub fn write_waiter_count(&self) -> (r: usize)
        ensures
            r as int == self@.core.write_waiters.len(),
    {
        self.write_waiters.len()
    }

    /// The wake handle at position `i` of the read-waiter queue (FIFO order).
    pub fn read_waiter_at(&self, i: usize) -> (r: u64)
        requires
            i < self@.core.read_waiters.len(),
        ensures
            r == self@.core.read_waiters[i as int],
    {
        self.read_waiters[i]
    }

    /// The wake handle at position `i` of the write-waiter queue (FIFO
    /// order).
    pub fn write_waiter_at(&self, i: usize) -> (r: u64)
        requires
            i < self@.core.write_waiters.len(),
        ensures
            r == self@.core.write_waiters[i as int],
    {
        self.write_waiters[i]
    }

    /// The fairness bit: whether the previous write release preferred a
    /// writer.
    pub fn was_writer_flag(&self) -> (r: bool)
        ensures
            r == self@.core.last_woken_was_writer,
    {
        self.last_woken_was_writer
    }
}

/// Scans a waiter queue for a wake handle, as registration dedup does.
fn queue_contains(q: &Vec<u64>, w: u64) -> (r: bool)
    ensures
        r == q@.contains(w),
{
    let mut i: usize = 0;
    while i < q.len()
        invariant
            i <= q@.len(),
            forall|j: int| 0 <= j < i ==> q@[j] != w,
        decreases q@.len() - i,
    {
        if q[i] == w {
            return true;
        }
        i = i + 1;
    }
    false
}

/// A future that resolves to an [`AsyncRwlockReadGuard`] when the lock is
/// acquired for reading.
#[must_use]
pub struct RwlockReadGuardFuture {
    _token: (),
}

/// A future that resolves to an [`AsyncRwlockWriteGuard`] when the lock is
/// acquired for writing.
#[must_use]
pub struct RwlockWriteGuardFuture {
    _token: (),
}

/// A guard witnessing shared access; releasing it performs the read-release
/// transition.
#[must_use]
pub struct AsyncRwlockReadGuard {
    _token: (),
}

/// A guard witnessing exclusive access; releasing it performs the
/// write-release transition.
#[must_use]
pub struct AsyncRwlockWriteGuard {
    _token: (),
}

impl RwlockReadGuardFuture {
    /// One poll of the read acquisition, on behalf of the task whose wake
    /// handle is `waker_id`.
    ///
    /// The fast path succeeds whenever no writer holds the lock — queued
    /// writers do not block it — and increments the reader count.  Otherwise
    /// `waker_id` is registered in the read-waiter queue unless an equal
    /// handle is already queued, and the acquisition stays pending.
    pub fn poll<T>(&self, lock: &mut Rwlock<T>, waker_id: u64) -> (r: Option<
        AsyncRwlockReadGuard,
    >)
        requires
            old(lock).wf(),
            old(lock)@.core.lock_state < i32::MAX as int,
        ensures
            final(lock).wf(),
            final(lock)@.core == read_poll_core(old(lock)@.core, waker_id),
            final(lock)@.data == old(lock)@.data,
            r is Some <==> read_poll_acquires(old(lock)@.core),
    {
        if lock.lock_state >= 0 {
            lock.lock_state = lock.lock_state + 1;
            Some(AsyncRwlockReadGuard { _token: () })
        } else {
            if !queue_contains(&lock.read_waiters, waker_id) {
                lock.read_waiters.push(waker_id);
            }
            proof {
                assert(lock@.core =~= read_poll_core(old(lock)@.core, waker_id));
            }
            None
        }
    }
}

impl RwlockWriteGuardFuture {
    /// One poll of the write acquisition, on behalf of the task whose wake
    /// handle is `waker_id`.
    ///
    /// The fast path succeeds only on an entirely free lock, which then
    /// becomes write-held.  Otherwise `waker_id` is registered in the
    /// write-waiter queue unless an equal handle is already queued, and the
    /// acquisition stays pending.
    pub fn poll<T>(&self, lock: &mut Rwlock<T>, waker_id: u64) -> (r: Option<
        AsyncRwlockWriteGuard,
    >)
        requires
            old(lock).wf(),
        ensures
            final(lock).wf(),
            final(lock)@.core == write_poll_core(old(lock)@.core, waker_id),
            final(lock)@.data == old(lock)@.data,
            r is Some <==> write_poll_acquires(old(lock)@.core),
    {
        if lock.lock_state == 0 {
            lock.lock_state = -1;
            Some(AsyncRwlockWriteGuard { _token: () })
        } else {
            if !queue_contains(&lock.write_waiters, waker_id) {
                lock.write_waiters.push(waker_id);
            }
            proof {
                assert(lock@.core =~= write_poll_core(old(lock)@.core, waker_id));
            }
            None
        }
    }
}

impl AsyncRwlockReadGuard {
    /// Reads the protected value for as long as the guard is held.
    pub fn borrow<'a, T>(&self, lock: &'a Rwlock<T>) -> (r: &'a T)
        requires
            lock@.core.lock_state >= 1,
        ensures
            *r == lock@.data,
    {
        &lock.data
    }

    /// Releases the guard: the read-release transition of the lock.
    ///
    /// While other readers remain the count merely drops and nothing is
    /// woken; the last reader unlocks and pops the front write waiter, if
    /// any.  The returned handles are the ones the caller must wake.
    pub fn release<T>(self, lock: &mut Rwlock<T>) -> (woken: Vec<u64>)
        requires
            old(lock).wf(),
            old(lock)@.core.lock_state >= 1,
        ensures
            final(lock).wf(),
            final(lock)@.core == read_release_core(old(lock)@.core),
            final(lock)@.data == old(lock)@.data,
            woken@ == read_release_woken(old(lock)@.core),
    {
        let mut woken: Vec<u64> = Vec::new();
        if lock.lock_state >= 2 {
            lock.lock_state = lock.lock_state - 1;
        } else {
            lock.lock_state = 0;
            if lock.write_waiters.len() > 0 {
                let w = lock.write_waiters.remove(0);
                woken.push(w);
            }
        }
        proof {
            assert(lock@.core =~= read_release_core(old(lock)@.core));
            assert(woken@ =~= read_release_woken(old(lock)@.core));
        }
        woken
    }
}

impl AsyncRwlockWriteGuard {
    /// Reads the protected value for as long as the guard is held.
    pub fn borrow<'a, T>(&self, lock: &'a Rwlock<T>) -> (r: &'a T)
        requires
            lock@.core.lock_state == -1,
        ensures
            *r == lock@.data,
    {
        &lock.data
    }

    /// Mutable access to the protected value for as long as the guard is
    /// held.  The synchronization fields are untouched by whatever the
    /// caller writes through the returned reference.
    pub fn borrow_mut<'a, T>(&self, lock: &'a mut Rwlock<T>) -> (r: &'a mut T)
        requires
            old(lock).wf(),
            old(lock)@.core.lock_state == -1,
        ensures
            *r == old(lock)@.data,
            final(lock)@.data == *final(r),
            final(lock)@.core == old(lock)@.core,
            final(lock).wf(),
    {
        &mut lock.data
    }

    /// Releases the guard: the write-release transition of the lock.
    ///
    /// The lock unlocks unconditionally and the fairness bit toggles.  Going
    /// by the bit's prior value, either the whole read-waiter queue is
    /// drained (readers' turn, or no writer waits) or exactly one writer is
    /// popped.  The returned handles are the ones the caller must wake, in
    /// the order they were queued.
    pub fn release<T>(self, lock: &mut Rwlock<T>) -> (woken: Vec<u64>)
        requires
            old(lock).wf(),
            old(lock)@.core.lock_state == -1,
        ensures
            final(lock).wf(),
            final(lock)@.core == write_release_core(old(lock)@.core),
            final(lock)@.data == old(lock)@.data,
            woken@ == write_release_woken(old(lock)@.core),
    {
        let was_writer = lock.last_woken_was_writer;
        lock.last_woken_was_writer = !was_writer;
        lock.lock_state = 0;
        let mut woken: Vec<u64> = Vec::new();
        if (was_writer && lock.read_waiters.len() > 0) || lock.write_waiters.len() == 0 {
            while lock.read_waiters.len() > 0
                invariant
                    old(lock)@.core.read_waiters == woken@ + lock.read_waiters@,
                    lock.write_waiters@ == old(lock)@.core.write_waiters,
                    lock.lock_state == 0,
                    lock.last_woken_was_writer == !old(lock)@.core.last_woken_was_writer,
                    lock@.data == old(lock)@.data,
                decreases lock.read_waiters@.len(),
            {
                let w = lock.read_waiters.remove(0);
                woken.push(w);
            }
            proof {
                assert(woken@ =~= old(lock)@.core.read_waiters);
            }
        } else {
            let w = lock.write_waiters.remove(0);
            woken.push(w);
        }
        proof {
            assert(lock@.core =~= write_release_core(old(lock)@.core));
            assert(woken@ =~= write_release_woken(old(lock)@.core));
        }
        woken
    }
}

} // verus!
