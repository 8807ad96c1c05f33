//! State shared between the scheduler loop and interrupt handlers.
//!
//! Both primitives change their state inside a critical section of the
//! [`InterruptExclusion`] they are handed, and have left it when they return.

use crate::critical_section::InterruptExclusion;
use vstd::prelude::*;

verus! {

/// A cell that hands its value to one holder at a time.
pub struct Mutex<T> {
    value: Option<T>,
}

impl<T> View for Mutex<T> {
    type V = Option<T>;

    /// The value in the cell, or `None` while a holder has it.
    closed spec fn view(&self) -> Option<T> {
        self.value
    }
}

impl<T> Mutex<T> {
    /// A cell that holds `value` and is not locked.
    pub fn new(value: T) -> (m: Self)
        ensures
            m@ == Some(value),
    {
        Mutex { value: Some(value) }
    }

    /// Whether a holder has the value.
    pub fn is_locked(&self) -> (b: bool)
        ensures
            b == self@.is_none(),
    {
        self.value.is_none()
    }

    /// Takes the value out of the cell, which stays locked until `unlock`
    /// brings a value back. Returns `None`, and changes nothing, if the cell
    /// is locked already.
    pub fn lock(&mut self, interrupts: &mut InterruptExclusion) -> (held: Option<T>)
        requires
            old(interrupts)@.depth < usize::MAX,
        ensures
            held == old(self)@,
            final(self)@ == None::<T>,
            final(interrupts)@ == old(interrupts)@,
    {
        let token = interrupts.enter();
        let mut held: Option<T> = None;
        core::mem::swap(&mut self.value, &mut held);
        interrupts.exit(token);
        held
    }

    /// Brings `value` back into the cell and unlocks it. A holder calls
    /// this once for each value that `lock` handed out; a value that the
    /// cell still holds is given up for the new one.
    pub fn unlock(&mut self, value: T, interrupts: &mut InterruptExclusion)
        requires
            old(interrupts)@.depth < usize::MAX,
        ensures
            final(self)@ == Some(value),
            final(interrupts)@ == old(interrupts)@,
    {
        let token = interrupts.enter();
        self.value = Some(value);
        interrupts.exit(token);
    }
}

/// What a [`Signal`] holds, as plain values.
pub struct SignalState<H> {
    /// Whether the signal was given.
    pub signaled: bool,
    /// The task that waits for the signal, if one does.
    pub waiter: Option<H>,
}

/// A signal that is given once. One task can wait for it.
pub struct Signal<H> {
    signaled: bool,
    waiter: Option<H>,
}

impl<H> View for Signal<H> {
    type V = SignalState<H>;

    closed spec fn view(&self) -> SignalState<H> {
        SignalState { signaled: self.signaled, waiter: self.waiter }
    }
}

impl<H> Signal<H> {
    /// A signal that was not given and that nobody waits for.
    pub fn new() -> (s: Self)
        ensures
            s@ == (SignalState::<H> { signaled: false, waiter: None }),
    {
        Signal { signaled: false, waiter: None }
    }

    /// Whether the signal was given.
    pub fn is_signaled(&self) -> (b: bool)
        ensures
            b == self@.signaled,
    {
        self.signaled
    }

    /// Gives the signal and returns the handle of the task that waits for
    /// it, which is to be resumed. A signal that was given already stays as
    /// it is, and `None` is returned.
    pub fn signal(&mut self, interrupts: &mut InterruptExclusion) -> (woken: Option<H>)
        requires
            old(interrupts)@.depth < usize::MAX,
        ensures
            final(self)@.signaled,
            woken == if old(self)@.signaled {
                None
            } else {
                old(self)@.waiter
            },
            final(self)@.waiter == if old(self)@.signaled {
                old(self)@.waiter
            } else {
                None
            },
            final(interrupts)@ == old(interrupts)@,
    {
        let token = interrupts.enter();
        let mut woken: Option<H> = None;
        if !self.signaled {
            self.signaled = true;
            core::mem::swap(&mut self.waiter, &mut woken);
        }
        interrupts.exit(token);
        woken
    }

    /// Makes `handle` wait for the signal. If the signal was given already
    /// nothing is stored and `handle` comes back: its task is to be resumed
    /// at once. Otherwise `handle` takes the place of an earlier waiter, and
    /// `None` is returned.
    pub fn wait(&mut self, handle: H, interrupts: &mut InterruptExclusion) -> (ready: Option<H>)
        requires
            old(interrupts)@.depth < usize::MAX,
        ensures
            final(self)@.signaled == old(self)@.signaled,
            ready == if old(self)@.signaled {
                Some(handle)
            } else {
                None
            },
            final(self)@.waiter == if old(self)@.signaled {
                old(self)@.waiter
            } else {
                Some(handle)
            },
            final(interrupts)@ == old(interrupts)@,
    {
        let token = interrupts.enter();
        let ready = if self.signaled {
            Some(handle)
        } else {
            self.waiter = Some(handle);
            None
        };
        interrupts.exit(token);
        ready
    }
}

} // verus!
