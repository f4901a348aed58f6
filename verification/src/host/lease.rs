//! The resource lease bridge: host values are moved into a table behind
//! integer handles for the time of a guest call, and taken back afterwards.

use vstd::prelude::*;

verus! {

/// Why a handle could not be made or redeemed.
#[derive(Clone, Copy, Debug, PartialEq, Eq, Structural)]
pub enum LeaseError {
    /// Every handle is in use.
    Full,
    /// No value stands behind the handle: the guest corrupted it, or it was
    /// redeemed before.
    NotPresent,
}

/// Whether `free` lists `count` different handles that are not in use.
pub open spec fn is_free_list(in_use: Set<u32>, free: Seq<u32>, count: nat) -> bool {
    &&& free.len() == count
    &&& free.no_duplicates()
    &&& forall|i: int| 0 <= i < free.len() ==> !in_use.contains(#[trigger] free[i])
}

/// Whether at least `count` handles are not in use.
pub open spec fn has_free(in_use: Set<u32>, count: nat) -> bool {
    exists|free: Seq<u32>| is_free_list(in_use, free, count)
}

/// One handle is free exactly if not all handles are in use.
pub proof fn lemma_has_free_one(in_use: Set<u32>)
    ensures
        has_free(in_use, 1) <==> exists|handle: u32| !in_use.contains(handle),
{
    if has_free(in_use, 1) {
        let free = choose|free: Seq<u32>| is_free_list(in_use, free, 1);
        assert(!in_use.contains(free[0]));
    }
    if exists|handle: u32| !in_use.contains(handle) {
        let handle = choose|handle: u32| !in_use.contains(handle);
        assert(is_free_list(in_use, seq![handle], 1));
    }
}

/// Where handles are free, fewer are free too.
pub proof fn lemma_has_free_fewer(in_use: Set<u32>, count: nat)
    requires
        has_free(in_use, count + 1),
    ensures
        has_free(in_use, count),
{
    let more = count + 1;
    let free = choose|free: Seq<u32>| is_free_list(in_use, free, more);
    let fewer = free.drop_last();
    assert forall|i: int| 0 <= i < fewer.len() implies !in_use.contains(#[trigger] fewer[i]) by {
        assert(fewer[i] == free[i]);
    }
    assert(is_free_list(in_use, fewer, count));
}

/// Taking a free handle into use leaves one fewer free: `count + 1`
/// handles are free before exactly if `count` are free after.
pub proof fn lemma_has_free_after_taking(in_use: Set<u32>, handle: u32, count: nat)
    requires
        !in_use.contains(handle),
    ensures
        has_free(in_use, count + 1) <==> has_free(in_use.insert(handle), count),
{
    let after = in_use.insert(handle);
    let one_more = count + 1;
    if has_free(in_use, one_more) {
        let free = choose|free: Seq<u32>| is_free_list(in_use, free, one_more);
        if free.contains(handle) {
            let at = choose|at: int| 0 <= at < free.len() && free[at] == handle;
            let rest = free.remove(at);
            assert forall|i: int| 0 <= i < rest.len() implies !after.contains(#[trigger] rest[i]) by {
                if i < at {
                    assert(rest[i] == free[i]);
                } else {
                    assert(rest[i] == free[i + 1]);
                }
            }
            assert forall|i: int, j: int| 0 <= i < rest.len() && 0 <= j < rest.len() && i != j implies rest[i]
                != rest[j] by {
                let a = if i < at {
                    i
                } else {
                    i + 1
                };
                let b = if j < at {
                    j
                } else {
                    j + 1
                };
                assert(rest[i] == free[a]);
                assert(rest[j] == free[b]);
            }
            assert(is_free_list(after, rest, count));
        } else {
            let rest = free.drop_last();
            assert forall|i: int| 0 <= i < rest.len() implies !after.contains(#[trigger] rest[i]) by {
                assert(rest[i] == free[i]);
                assert(free.contains(free[i]));
            }
            assert(is_free_list(after, rest, count));
        }
    }
    if has_free(after, count) {
        let free = choose|free: Seq<u32>| is_free_list(after, free, count);
        let more = free.push(handle);
        assert forall|i: int| 0 <= i < more.len() implies !in_use.contains(#[trigger] more[i]) by {
            if i < free.len() {
                assert(more[i] == free[i]);
            }
        }
        assert forall|i: int, j: int| 0 <= i < more.len() && 0 <= j < more.len() && i != j implies more[i]
            != more[j] by {
            if i < free.len() {
                assert(more[i] == free[i]);
            }
            if j < free.len() {
                assert(more[j] == free[j]);
            }
        }
        assert(is_free_list(in_use, more, one_more));
    }
}

/// A host value whose ownership passes into a guest call and back.
#[derive(Debug)]
pub struct Lease<T> {
    value: T,
}

impl<T> Lease<T> {
    /// The leased value.
    pub closed spec fn view(&self) -> T {
        self.value
    }

    /// Leases `value`.
    pub fn new(value: T) -> (lease: Lease<T>)
        ensures
            lease@ == value,
    {
        Lease { value }
    }

    /// Ends the lease and hands the value back.
    pub fn into_inner(self) -> (value: T)
        ensures
            value == self@,
    {
        self.value
    }

    /// Reads the leased value.
    pub fn get(&self) -> (value: &T)
        ensures
            *value == self@,
    {
        &self.value
    }
}

/// The registry of values that are out on lease, by handle.
pub struct ResourceTable<T> {
    slots: Vec<Option<T>>,
}

impl<T> ResourceTable<T> {
    /// The values in the table, by handle.
    pub closed spec fn view(&self) -> Map<u32, T> {
        Map::new(
            |handle: u32| handle < self.slots@.len() && self.slots@[handle as int] is Some,
            |handle: u32| self.slots@[handle as int]->Some_0,
        )
    }

    /// Handles fit in 32 bits.
    pub closed spec fn wf(&self) -> bool {
        self.slots@.len() <= u32::MAX as nat + 1
    }

    /// Whether every handle below `bound` is in use.
    pub open spec fn all_in_use_below(&self, bound: int) -> bool {
        forall|handle: u32| handle < bound ==> #[trigger] self@.dom().contains(handle)
    }

    /// An empty table.
    pub fn new() -> (table: ResourceTable<T>)
        ensures
            table.wf(),
            table@ == Map::<u32, T>::empty(),
    {
        let table = ResourceTable { slots: Vec::new() };
        assert(table@ =~= Map::<u32, T>::empty());
        table
    }

    /// Whether a value stands behind `handle`.
    pub fn contains(&self, handle: u32) -> (present: bool)
        ensures
            present == self@.dom().contains(handle),
    {
        let index = handle as usize;
        index < self.slots.len() && self.slots[index].is_some()
    }

    /// Reads the value behind `handle`.
    pub fn get(&self, handle: u32) -> (value: Option<&T>)
        ensures
            value is Some == self@.dom().contains(handle),
            value matches Some(v) ==> *v == self@[handle],
    {
        let index = handle as usize;
        if index < self.slots.len() {
            self.slots[index].as_ref()
        } else {
            None
        }
    }

    /// Moves `value` into the table and returns its handle: the lowest one
    /// that is not in use. Fails only when all handles are in use.
    pub fn push(&mut self, value: T) -> (handle: Result<u32, LeaseError>)
        requires
            old(self).wf(),
        ensures
            final(self).wf(),
            handle is Ok == has_free(old(self)@.dom(), 1),
            match handle {
                Ok(h) => {
                    &&& !old(self)@.dom().contains(h)
                    &&& old(self).all_in_use_below(h as int)
                    &&& final(self)@ == old(self)@.insert(h, value)
                },
                Err(e) => {
                    &&& e == LeaseError::Full
                    &&& old(self).all_in_use_below(u32::MAX as int + 1)
                    &&& final(self)@ == old(self)@
                },
            },
    {
        let mut index: usize = 0;
        while index < self.slots.len()
            invariant
                index <= self.slots.len(),
                *self == *old(self),
                self.wf(),
                self.all_in_use_below(index as int),
            decreases self.slots.len() - index,
        {
            if self.slots[index].is_none() {
                assert(is_free_list(self@.dom(), seq![index as u32], 1));
                self.slots[index] = Some(value);
                assert(final(self)@ =~= old(self)@.insert(index as u32, value)) by {
                    assert(self@ =~= old(self)@.insert(index as u32, value));
                }
                return Ok(index as u32);
            }
            assert(self@.dom().contains(index as u32));
            index += 1;
        }
        if index > u32::MAX as usize {
            assert forall|handle: u32| self@.dom().contains(handle) by {
                assert(handle < index);
            }
            proof {
                lemma_has_free_one(self@.dom());
            }
            return Err(LeaseError::Full);
        }
        assert(is_free_list(self@.dom(), seq![index as u32], 1));
        self.slots.push(Some(value));
        assert(self@ =~= old(self)@.insert(index as u32, value));
        Ok(index as u32)
    }

    /// Takes the value behind `handle` out of the table. A handle with no
    /// value behind it is an error and leaves the table as it was.
    pub fn take(&mut self, handle: u32) -> (value: Result<T, LeaseError>)
        requires
            old(self).wf(),
        ensures
            final(self).wf(),
            match value {
                Ok(v) => {
                    &&& old(self)@.dom().contains(handle)
                    &&& v == old(self)@[handle]
                    &&& final(self)@ == old(self)@.remove(handle)
                },
                Err(e) => {
                    &&& e == LeaseError::NotPresent
                    &&& !old(self)@.dom().contains(handle)
                    &&& final(self)@ == old(self)@
                },
            },
    {
        let index = handle as usize;
        if index >= self.slots.len() {
            return Err(LeaseError::NotPresent);
        }
        let taken = self.slots[index].take();
        match taken {
            Some(v) => {
                assert(self@ =~= old(self)@.remove(handle));
                Ok(v)
            },
            None => {
                assert(self@ =~= old(self)@);
                Err(LeaseError::NotPresent)
            },
        }
    }
}

/// A value that is pushed and then taken by the handle that `push` gave
/// comes back unchanged, and the table is as it was before.
pub proof fn lemma_push_take_restores<T>(before: Map<u32, T>, handle: u32, value: T)
    requires
        !before.dom().contains(handle),
    ensures
        before.insert(handle, value)[handle] == value,
        before.insert(handle, value).remove(handle) == before,
{
    assert(before.insert(handle, value).remove(handle) =~= before);
}

} // verus!
