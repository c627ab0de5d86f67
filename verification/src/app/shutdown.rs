//! Waiting for what is still going on.

use vstd::prelude::*;

use crate::poll::Poll;

verus! {

/// Waits until all of its handles are dropped.
#[derive(Debug)]
pub struct Shutdown {
    /// The number of handles, besides its own.
    handles: usize,
    /// Whether a task is to be woken by the last handle.
    waiting: bool,
}

/// Tells whether nothing is left to wait for.
pub open spec fn is_over(handles: nat) -> bool {
    handles == 0
}

/// Tells whether the task is woken by the handle that is dropped next.
pub open spec fn wakes(handles: nat, waiting: bool) -> bool {
    waiting && handles == 1
}

impl Default for Shutdown {
    fn default() -> (r: Self)
        ensures
            r.handles() == 0,
            !r.waiting(),
    {
        Shutdown::new()
    }
}

impl Shutdown {
    /// The number of handles.
    pub closed spec fn handles(&self) -> nat {
        self.handles as nat
    }

    /// Whether a task is to be woken by the last handle.
    pub closed spec fn waiting(&self) -> bool {
        self.waiting
    }

    /// Starts without handles.
    pub fn new() -> (r: Self)
        ensures
            r.handles() == 0,
            !r.waiting(),
    {
        Shutdown { handles: 0, waiting: false }
    }

    /// Tells whether no handle is left. Where one is, the task is woken once none is.
    pub fn poll(&mut self) -> (r: Poll<()>)
        ensures
            r == (if is_over(old(self).handles()) {
                Poll::Ready(())
            } else {
                Poll::Pending
            }),
            final(self).handles() == old(self).handles(),
            final(self).waiting() == (old(self).waiting() || old(self).handles() > 0),
    {
        if self.handles == 0 {
            Poll::Ready(())
        } else {
            self.waiting = true;
            Poll::Pending
        }
    }

    /// Gives out a handle.
    pub fn clone_handle(&mut self)
        requires
            old(self).handles() < usize::MAX,
        ensures
            final(self).handles() == old(self).handles() + 1,
            final(self).waiting() == old(self).waiting(),
    {
        self.handles = self.handles + 1;
    }

    /// Takes a handle back, and tells whether the task is to be woken: if it waits, and the handle
    /// was the last one.
    pub fn drop_handle(&mut self) -> (wake: bool)
        requires
            old(self).handles() > 0,
        ensures
            final(self).handles() == old(self).handles() - 1,
            wake == wakes(old(self).handles(), old(self).waiting()),
            final(self).waiting() == (old(self).waiting() && !wake),
    {
        self.handles = self.handles - 1;
        if self.handles == 0 && self.waiting {
            self.waiting = false;
            true
        } else {
            false
        }
    }
}

/// A task that waits is woken by exactly the handle behind which nothing is left.
pub proof fn last_handle_wakes(handles: nat, waiting: bool)
    requires
        handles > 0,
        waiting,
    ensures
        wakes(handles, waiting) <==> is_over((handles - 1) as nat),
{
}

/// Nothing is left to wait for exactly where no handle is left. A task that does not wait is not woken,
/// nor one that waits while handles are left.
pub proof fn only_the_last_handle_wakes(handles: nat, waiting: bool)
    ensures
        is_over(handles) <==> handles == 0,
        !waiting ==> !wakes(handles, waiting),
        handles > 1 ==> !wakes(handles, waiting),
        handles == 1 && waiting ==> wakes(handles, waiting),
{
}

} // verus!
