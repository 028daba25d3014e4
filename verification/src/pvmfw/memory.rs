//! The global memory state, through which the exception handlers reach the
//! memory tracker.

use vstd::prelude::*;

verus! {

/// The global memory state. It starts without a memory tracker, is given one
/// once, early, and keeps that one from then on. The lock that guards it
/// lives outside of this library.
#[derive(Debug)]
pub enum MemoryState<T> {
    /// No memory tracker has been set up yet.
    Uninitialized,
    /// The memory tracker.
    Initialized(T),
}

/// What the one attempt to take the global memory state, made without
/// waiting, has found.
#[derive(Debug, PartialEq, Eq, Structural, Copy, Clone)]
pub enum MemoryAccess {
    /// The lock is held elsewhere.
    Unavailable,
    /// The lock was taken, and no memory tracker has been set up yet.
    NotInitialized,
    /// The lock was taken, and the memory tracker is there.
    Ready,
}

/// What an attempt finds that came back with `guard`: nothing if the lock is
/// held elsewhere, else the state behind the lock.
pub open spec fn found<T>(guard: Option<&MemoryState<T>>) -> MemoryAccess {
    match guard {
        None => MemoryAccess::Unavailable,
        Some(MemoryState::Uninitialized) => MemoryAccess::NotInitialized,
        Some(MemoryState::Initialized(_)) => MemoryAccess::Ready,
    }
}

impl<T> MemoryState<T> {
    /// The state before a memory tracker has been set up.
    pub fn new() -> (state: Self)
        ensures
            state is Uninitialized,
    {
        MemoryState::Uninitialized
    }

    /// Sets up the memory tracker. This succeeds once: a state that holds a
    /// tracker keeps it and hands the new one back.
    pub fn initialize(&mut self, tracker: T) -> (set: Result<(), T>)
        ensures
            match set {
                Ok(_) => *old(self) is Uninitialized && *final(self) == MemoryState::Initialized(
                    tracker,
                ),
                Err(back) => *old(self) is Initialized && *final(self) == *old(self) && back
                    == tracker,
            },
    {
        match self {
            MemoryState::Uninitialized => {
                *self = MemoryState::Initialized(tracker);
                Ok(())
            },
            MemoryState::Initialized(_) => Err(tracker),
        }
    }
}

impl MemoryAccess {
    /// Tells what an attempt to take the global memory state has found, from
    /// what the attempt came back with: nothing if the lock is held
    /// elsewhere, else the state behind the lock.
    pub fn of<T>(guard: Option<&MemoryState<T>>) -> (access: MemoryAccess)
        ensures
            access == found(guard),
    {
        match guard {
            None => MemoryAccess::Unavailable,
            Some(MemoryState::Uninitialized) => MemoryAccess::NotInitialized,
            Some(MemoryState::Initialized(_)) => MemoryAccess::Ready,
        }
    }
}

} // verus!
