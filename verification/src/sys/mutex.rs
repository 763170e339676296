//! The kernel's fast mutex record and the routines that initialize, take
//! and give back a fast mutex, given by what they do to the record.
use vstd::prelude::*;
use crate::sys::base::{BOOLEAN, FALSE, LONG, UCHAR, ULONG};

verus! {

/// A kind of kernel event.
pub type EVENT_TYPE = cty::c_int;

/// An event that, once signaled, stays signaled until it is reset.
pub const NotificationEvent: EVENT_TYPE = 0;

/// An event that wakes one waiter and then resets itself.
pub const SynchronizationEvent: EVENT_TYPE = 1;

/// A link of a doubly linked list; the links are addresses.
#[derive(Clone, Copy, Debug, PartialEq, Eq, Structural)]
pub struct LIST_ENTRY {
    pub Flink: usize,
    pub Blink: usize,
}

/// The header that every kernel dispatcher object begins with.
#[derive(Clone, Copy, Debug, PartialEq, Eq, Structural)]
pub struct DISPATCHER_HEADER {
    pub Type: UCHAR,
    pub Absolute: UCHAR,
    pub Size: UCHAR,
    pub Inserted: UCHAR,
    pub SignalState: LONG,
    pub WaitListHead: LIST_ENTRY,
}

/// A kernel event object.
#[derive(Clone, Copy, Debug, PartialEq, Eq, Structural)]
pub struct KEVENT {
    pub Header: DISPATCHER_HEADER,
}

/// A fast mutex. Bit 0 of `Count` is the lock bit: set while the mutex is
/// free, clear while it is held. `Owner` is the address of the thread that
/// holds it (zero for none).
#[derive(Clone, Copy, Debug, PartialEq, Eq, Structural)]
pub struct FAST_MUTEX {
    pub Count: LONG,
    pub Owner: usize,
    pub Contention: ULONG,
    pub Event: KEVENT,
    pub OldIrql: ULONG,
}

impl FAST_MUTEX {
    /// The record of a fast mutex that has not been initialized yet.
    pub open spec fn fresh() -> FAST_MUTEX {
        FAST_MUTEX {
            Count: 0,
            Owner: 0,
            Contention: 9,
            Event: KEVENT {
                Header: DISPATCHER_HEADER {
                    Type: 0,
                    Absolute: 0,
                    Size: 0,
                    Inserted: 0,
                    SignalState: 0,
                    WaitListHead: LIST_ENTRY { Flink: 0, Blink: 0 },
                },
            },
            OldIrql: 0,
        }
    }

    /// Whether the mutex has been initialized: its event is a
    /// synchronization event, and its count is 1 (free, with no owner) or
    /// 0 (held).
    pub open spec fn is_initialized(&self) -> bool {
        &&& self.Event.Header.Type == SynchronizationEvent as UCHAR
        &&& (self.Count == 0 || self.Count == 1)
        &&& self.Count == 1 ==> self.Owner == 0
    }

    /// Whether the mutex is held: its lock bit is clear.
    pub open spec fn is_held(&self) -> bool {
        self.Count == 0
    }

    /// Whether `after` is what initializing the mutex `self` gives: free,
    /// no owner, no contention, the saved interrupt request level kept, and
    /// the event initialized as a synchronization event that is not
    /// signaled.
    pub open spec fn initializes(self, after: FAST_MUTEX) -> bool {
        &&& after.Count == 1
        &&& after.Owner == 0
        &&& after.Contention == 0
        &&& after.OldIrql == self.OldIrql
        &&& event_initialized(after.Event, SynchronizationEvent, FALSE)
    }

    /// Whether `after` is what taking the mutex `self` gives: the lock bit
    /// cleared and the rest kept, but for the owner and the saved interrupt
    /// request level, which the kernel takes from the running thread.
    pub open spec fn acquires(self, after: FAST_MUTEX) -> bool {
        after == (FAST_MUTEX { Count: 0, Owner: after.Owner, OldIrql: after.OldIrql, ..self })
    }

    /// Whether `after` is what giving the mutex `self` back gives: the lock
    /// bit set, no owner, and the rest kept.
    pub open spec fn releases(self, after: FAST_MUTEX) -> bool {
        after == (FAST_MUTEX { Count: 1, Owner: 0, ..self })
    }

    /// A fast mutex that is not initialized yet.
    pub fn new() -> (m: FAST_MUTEX)
        ensures
            m == FAST_MUTEX::fresh(),
            !m.is_initialized(),
    {
        FAST_MUTEX {
            Count: 0,
            Owner: 0,
            Contention: 9,
            Event: KEVENT {
                Header: DISPATCHER_HEADER {
                    Type: 0,
                    Absolute: 0,
                    Size: 0,
                    Inserted: 0,
                    SignalState: 0,
                    WaitListHead: LIST_ENTRY { Flink: 0, Blink: 0 },
                },
            },
            OldIrql: 0,
        }
    }
}

/// The size of an event object in 32-bit units: a dispatcher header of
/// two 32-bit words and a list link of two pointers.
pub open spec fn kevent_size() -> UCHAR {
    if usize::BITS == 64 { 6 } else { 4 }
}

/// Whether `event` is initialized as an event of kind `Type` with signal
/// state `State`: its kind, size and signal state set. (The kernel also
/// makes the wait list empty, a list that links to its own address, which
/// this record does not hold.)
pub open spec fn event_initialized(event: KEVENT, Type: EVENT_TYPE, State: BOOLEAN) -> bool {
    &&& event.Header.Type == Type as UCHAR
    &&& event.Header.Size == kevent_size()
    &&& event.Header.SignalState == State as LONG
}

/// Initializes an event object: sets its kind, its size in 32-bit units and
/// its signal state.
pub fn KeInitializeEvent(Event: &mut KEVENT, Type: EVENT_TYPE, State: BOOLEAN)
    requires
        Type == NotificationEvent || Type == SynchronizationEvent,
    ensures
        event_initialized(*final(Event), Type, State),
{
    Event.Header.Type = Type as UCHAR;
    Event.Header.Size = if usize::BITS == 64 { 6 } else { 4 };
    Event.Header.SignalState = State as LONG;
}

/// Initializes a fast mutex: free (count 1), owned by no thread, with no
/// contention, and with a synchronization event that is not signaled. The
/// record is written here; no kernel call is made.
pub fn ExInitializeFastMutex(Mutex: &mut FAST_MUTEX)
    ensures
        (*old(Mutex)).initializes(*final(Mutex)),
        final(Mutex).is_initialized(),
        !final(Mutex).is_held(),
{
    Mutex.Count = 1;
    Mutex.Owner = 0;
    Mutex.Contention = 0;
    KeInitializeEvent(&mut Mutex.Event, SynchronizationEvent, FALSE);
}

/// Takes a free fast mutex: clears its lock bit. No kernel call is made:
/// nothing waits, and the interrupt request level is not raised. The
/// kernel also records
/// the owning thread and the caller's interrupt request level, which come
/// from the running thread and are left open here; this record keeps the
/// values it had. Taking a mutex that the caller already holds never
/// returns, so the mutex must be free.
pub fn ExAcquireFastMutex(Mutex: &mut FAST_MUTEX)
    requires
        old(Mutex).is_initialized(),
        !old(Mutex).is_held(),
    ensures
        (*old(Mutex)).acquires(*final(Mutex)),
        final(Mutex).is_initialized(),
        final(Mutex).is_held(),
{
    Mutex.Count = 0;
}

/// Gives back a held fast mutex: sets its lock bit and clears its owner.
/// No kernel call is made: no waiter is woken, and the interrupt request
/// level is not lowered.
pub fn ExReleaseFastMutex(Mutex: &mut FAST_MUTEX)
    requires
        old(Mutex).is_initialized(),
        old(Mutex).is_held(),
    ensures
        (*old(Mutex)).releases(*final(Mutex)),
        final(Mutex).is_initialized(),
        !final(Mutex).is_held(),
{
    Mutex.Count = 1;
    Mutex.Owner = 0;
}

/// Taking a free fast mutex and giving it back leaves the record as it
/// was, but for the saved interrupt request level, which keeps the level
/// of the taking.
pub proof fn law_acquire_release(before: FAST_MUTEX, held: FAST_MUTEX, after: FAST_MUTEX)
    requires
        before.is_initialized(),
        !before.is_held(),
        before.acquires(held),
        held.releases(after),
    ensures
        after == (FAST_MUTEX { OldIrql: held.OldIrql, ..before }),
        held.is_initialized() && held.is_held(),
        after.is_initialized() && !after.is_held(),
{
}

} // verus!
