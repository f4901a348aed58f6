//! The pool of idle instances of one extension.
//!
//! The pool has no upper bound: it grows on demand, and whoever calls it
//! bounds the number of concurrent calls.

use vstd::prelude::*;
use crate::host::instance::ExtensionInstance;

verus! {

/// The idle instances of one extension. An instance that is checked out
/// belongs to its caller alone until it is released.
pub struct InstancePool<I> {
    idle: Vec<I>,
}

/// The idle instances after `instance` comes back: a healthy instance joins
/// them, a poisoned one is dropped.
pub open spec fn idle_after_release<I: ExtensionInstance>(idle: Seq<I>, instance: I) -> Seq<I> {
    if instance.poisoned() {
        idle
    } else {
        idle.push(instance)
    }
}

impl<I: ExtensionInstance> InstancePool<I> {
    /// The idle instances, in the order in which they came back.
    pub closed spec fn view(&self) -> Seq<I> {
        self.idle@
    }

    /// No idle instance is poisoned.
    pub open spec fn wf(&self) -> bool {
        forall|i: int| 0 <= i < self@.len() ==> !(#[trigger] self@[i]).poisoned()
    }

    /// A pool without instances.
    pub fn new() -> (pool: Self)
        ensures
            pool.wf(),
            pool@ == Seq::<I>::empty(),
    {
        InstancePool { idle: Vec::new() }
    }

    /// The number of idle instances.
    pub fn idle_count(&self) -> (count: usize)
        ensures
            count == self@.len(),
    {
        self.idle.len()
    }

    /// Checks an instance out: the one that came back last, if any is idle.
    /// `None` tells the caller to instantiate a new one through the adapter.
    /// An instance that is handed out is never poisoned.
    pub fn checkout(&mut self) -> (instance: Option<I>)
        requires
            old(self).wf(),
        ensures
            final(self).wf(),
            match instance {
                Some(i) => {
                    &&& old(self)@.len() > 0
                    &&& i == old(self)@.last()
                    &&& !i.poisoned()
                    &&& final(self)@ == old(self)@.drop_last()
                },
                None => old(self)@.len() == 0 && final(self)@ == old(self)@,
            },
    {
        self.idle.pop()
    }

    /// Takes an instance back when its lease ends. A healthy instance becomes
    /// idle; a poisoned one is discarded and not replaced.
    pub fn release(&mut self, instance: I)
        requires
            old(self).wf(),
        ensures
            final(self).wf(),
            final(self)@ == idle_after_release(old(self)@, instance),
    {
        let mut instance = instance;
        match instance.recycle() {
            Ok(()) => {
                self.idle.push(instance);
                assert forall|i: int| 0 <= i < self@.len() implies !(#[trigger] self@[i]).poisoned() by {
                    if i < old(self)@.len() {
                        assert(self@[i] == old(self)@[i]);
                    }
                }
            },
            Err(_) => {},
        }
    }
}

/// An instance whose call did not complete is poisoned, so releasing it leaves
/// the idle instances as they were: it never becomes idle.
pub proof fn lemma_poisoned_never_idle<I: ExtensionInstance>(idle: Seq<I>, instance: I)
    requires
        instance.poisoned(),
    ensures
        idle_after_release(idle, instance) == idle,
{
}

/// Releasing keeps every idle instance healthy, whatever comes back.
pub proof fn lemma_release_keeps_idle_healthy<I: ExtensionInstance>(idle: Seq<I>, instance: I)
    requires
        forall|i: int| 0 <= i < idle.len() ==> !(#[trigger] idle[i]).poisoned(),
    ensures
        forall|i: int|
            0 <= i < idle_after_release(idle, instance).len() ==> !(#[trigger] idle_after_release(
                idle,
                instance,
            )[i]).poisoned(),
{
}

} // verus!
