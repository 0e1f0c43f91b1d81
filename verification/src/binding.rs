//! Per-thread attachment to the foreign runtime.
//!
//! The foreign runtime requires every calling thread to be attached before it
//! issues any foreign call, and detached when it is done.  Attachment must
//! nest safely: a bridge operation acquires the binding at its top, and an
//! outer call frame may already hold it.  `acquire` is therefore reentrant:
//! on an already-bound thread it returns a guard that does nothing, and only
//! the outermost guard detaches.

use vstd::prelude::*;

verus! {

/// The attachment state of one host thread, together with counters for the
/// attach and detach calls made into the foreign runtime on its behalf.
///
/// The counters are the observable record that the attach/detach protocol is
/// balanced; the foreign runtime would fail on a detach of an unattached
/// thread or leak an attachment that is never detached.
pub struct ThreadBinding {
    /// Whether the thread currently holds a live attachment.
    pub bound: bool,
    /// How many "attach current thread" calls were made.
    pub attach_calls: u64,
    /// How many "detach current thread" calls were made.
    pub detach_calls: u64,
}

/// A scoped guard returned by [`ThreadBinding::acquire`].  Exactly the guard
/// of the outermost acquisition is responsible for detaching; inner guards
/// do nothing when released.
pub struct DetachGuard {
    responsible: bool,
}

impl DetachGuard {
    /// Whether releasing this guard will detach the thread.
    pub closed spec fn spec_responsible(self) -> bool {
        self.responsible
    }

    /// Whether releasing this guard will detach the thread.
    pub fn is_responsible(&self) -> (r: bool)
        ensures
            r == self.spec_responsible(),
    {
        self.responsible
    }
}

impl ThreadBinding {
    /// A binding is well formed when its counters balance: one more attach
    /// than detach exactly while the thread is bound.
    pub open spec fn wf(self) -> bool {
        &&& self.detach_calls <= self.attach_calls <= self.detach_calls + 1
        &&& (self.bound <==> self.attach_calls == self.detach_calls + 1)
    }

    /// What acquiring does to the binding state, and whether the returned
    /// guard is responsible for detaching.
    pub open spec fn spec_acquire(self) -> (ThreadBinding, bool) {
        if self.bound {
            (self, false)
        } else {
            (
                ThreadBinding {
                    bound: true,
                    attach_calls: (self.attach_calls + 1) as u64,
                    detach_calls: self.detach_calls,
                },
                true,
            )
        }
    }

    /// What releasing a guard with the given responsibility does.
    pub open spec fn spec_release(self, responsible: bool) -> ThreadBinding {
        if responsible {
            ThreadBinding {
                bound: false,
                attach_calls: self.attach_calls,
                detach_calls: (self.detach_calls + 1) as u64,
            }
        } else {
            self
        }
    }

    /// The state of a thread that has never touched the foreign runtime.
    pub fn new() -> (tb: ThreadBinding)
        ensures
            tb.wf(),
            !tb.bound,
            tb.attach_calls == 0,
            tb.detach_calls == 0,
    {
        ThreadBinding { bound: false, attach_calls: 0, detach_calls: 0 }
    }

    /// Ensure the calling thread is attached, attaching it if it is not.
    ///
    /// On an already-bound thread this is a no-op returning a guard that is
    /// not responsible for detaching, so it is safe to call at the top of
    /// every bridge operation without double-attaching or prematurely
    /// detaching an outer frame.
    pub fn acquire(&mut self) -> (g: DetachGuard)
        requires
            old(self).wf(),
            old(self).attach_calls < u64::MAX,
        ensures
            final(self).wf(),
            final(self).bound,
            (*final(self), g.spec_responsible()) == old(self).spec_acquire(),
    {
        if self.bound {
            DetachGuard { responsible: false }
        } else {
            self.attach_calls = self.attach_calls + 1;
            self.bound = true;
            DetachGuard { responsible: true }
        }
    }

    /// Release a guard obtained from [`ThreadBinding::acquire`].  Only a
    /// responsible guard detaches the thread; the others leave the binding
    /// to the outer frame that owns it.
    pub fn release(&mut self, g: DetachGuard)
        requires
            old(self).wf(),
            g.spec_responsible() ==> old(self).bound,
            old(self).detach_calls < u64::MAX,
        ensures
            final(self).wf(),
            *final(self) == old(self).spec_release(g.spec_responsible()),
    {
        if g.responsible {
            self.detach_calls = self.detach_calls + 1;
            self.bound = false;
        }
    }
}

/// Acquiring and then releasing the guard it returned restores the binding:
/// the thread is bound afterwards exactly when it was before, the counters
/// stay balanced, and on an already-bound thread no foreign call is made at
/// all, while on an unbound thread exactly one attach and one detach are.
/// This is what makes the binding protocol reentrant: a bridge operation may
/// bracket itself with acquire/release without disturbing any outer frame.
pub proof fn lemma_acquire_release_restores(tb: ThreadBinding)
    requires
        tb.wf(),
        tb.attach_calls < u64::MAX,
        tb.detach_calls < u64::MAX,
    ensures
        ({
            let after = tb.spec_acquire().0.spec_release(tb.spec_acquire().1);
            &&& after.wf()
            &&& after.bound == tb.bound
            &&& tb.bound ==> after == tb
            &&& !tb.bound ==> after.attach_calls == tb.attach_calls + 1
                && after.detach_calls == tb.detach_calls + 1
        }),
{
}

/// An acquire on an already-bound thread changes nothing and yields a guard
/// that will not detach: nesting never double-attaches and an inner release
/// never detaches a thread an outer frame still uses.
pub proof fn lemma_acquire_reentrant(tb: ThreadBinding)
    requires
        tb.wf(),
        tb.bound,
    ensures
        tb.spec_acquire() == (tb, false),
{
}

} // verus!
