//! A set of bits that is indexed by typed ids.
//!
//! The bits are held by a `fixedbitset::FixedBitSet`.

use fixedbitset::FixedBitSet;
use vstd::prelude::*;

verus! {

#[verifier::external_type_specification]
#[verifier::external_body]
pub struct ExFixedBitSet(FixedBitSet);

/// An id that stands for a position.
pub trait BitSetId: Sized {
    /// The position that the id stands for.
    spec fn position(self) -> usize;

    /// The position that the id stands for.
    fn into_position(self) -> (position: usize)
        ensures
            position == self.position(),
    ;

    /// The id that stands for `position`.
    fn from_position(position: usize) -> (id: Self)
        ensures
            id.position() == position,
    ;
}

impl BitSetId for usize {
    open spec fn position(self) -> usize {
        self
    }

    fn into_position(self) -> (position: usize) {
        self
    }

    fn from_position(position: usize) -> (id: Self) {
        position
    }
}

/// A set of bits, one for each id up to its length.
pub struct BitSet<Id> {
    inner: FixedBitSet,
    _phantom: core::marker::PhantomData<Id>,
}

/// The bits that the set holds, by position.
pub uninterp spec fn bits_of(bits: FixedBitSet) -> Seq<bool>;

/// `length` bits that are all `bit`.
pub open spec fn filled(length: nat, bit: bool) -> Seq<bool> {
    Seq::new(length, |i: int| bit)
}

/// `bits` grown to `length` with unset bits, or as they are if they are
/// that long already.
pub open spec fn grown(bits: Seq<bool>, length: nat) -> Seq<bool> {
    if length > bits.len() {
        bits + filled((length - bits.len()) as nat, false)
    } else {
        bits
    }
}

/// Whether `positions` are the positions at which `bits` hold `bit`, in
/// ascending order.
pub open spec fn positions_of(positions: Seq<usize>, bits: Seq<bool>, bit: bool) -> bool {
    &&& forall|i: int, j: int| 0 <= i < j < positions.len() ==> positions[i] < positions[j]
    &&& forall|i: int| 0 <= i < positions.len() ==> positions[i] < bits.len() && bits[positions[i] as int] == bit
    &&& forall|p: int| 0 <= p < bits.len() && bits[p] == bit ==> exists|i: int| 0 <= i < positions.len() && positions[i] == p
}

impl<Id: BitSetId> BitSet<Id> {
    /// The bits, by position.
    pub closed spec fn view(&self) -> Seq<bool> {
        bits_of(self.inner)
    }

    /// A set without bits.
    pub fn new() -> (set: Self)
        ensures
            set@.len() == 0,
    {
        BitSet { inner: bits_new(), _phantom: core::marker::PhantomData }
    }

    /// A set of `n` bits that are all unset.
    pub fn with_capacity(n: usize) -> (set: Self)
        ensures
            set@ == filled(n as nat, false),
    {
        BitSet { inner: bits_with_capacity(n), _phantom: core::marker::PhantomData }
    }

    /// Sets the bit of `id` and returns whether it was set before.
    pub fn put(&mut self, id: Id) -> (previous: bool)
        requires
            id.position() < old(self)@.len(),
        ensures
            previous == old(self)@[id.position() as int],
            final(self)@ == old(self)@.update(id.position() as int, true),
    {
        bits_put(&mut self.inner, id.into_position())
    }

    /// Sets the bit of `id` to `value`.
    pub fn set(&mut self, id: Id, value: bool)
        requires
            id.position() < old(self)@.len(),
        ensures
            final(self)@ == old(self)@.update(id.position() as int, value),
    {
        bits_set(&mut self.inner, id.into_position(), value)
    }

    /// Whether the bit of `id` is set. A bit beyond the length is unset.
    pub fn get(&self, id: Id) -> (bit: bool)
        ensures
            bit == (id.position() < self@.len() && self@[id.position() as int]),
    {
        bits_contains(&self.inner, id.into_position())
    }

    /// Adds one bit with this value at the end.
    pub fn push(&mut self, value: bool)
        requires
            old(self)@.len() < usize::MAX,
        ensures
            final(self)@ == old(self)@.push(value),
    {
        let length = bits_len(&self.inner);
        bits_grow(&mut self.inner, length + 1);
        bits_set(&mut self.inner, length, value);
        assert(self@ =~= old(self)@.push(value));
    }

    /// Grows the set to `n` bits; the new bits are unset. A set that is
    /// that long already stays as it is.
    pub fn grow(&mut self, n: usize)
        ensures
            final(self)@ == grown(old(self)@, n as nat),
    {
        bits_grow(&mut self.inner, n)
    }

    /// The number of bits, set or unset.
    pub fn len(&self) -> (length: usize)
        ensures
            length == self@.len(),
    {
        bits_len(&self.inner)
    }

    /// Whether the set has no bits at all.
    pub fn is_empty(&self) -> (empty: bool)
        ensures
            empty == (self@.len() == 0),
    {
        bits_len(&self.inner) == 0
    }

    /// The ids whose bits are unset, in ascending order of position.
    pub fn zeroes(&self) -> (ids: Vec<Id>)
        ensures
            positions_of(Seq::new(ids@.len(), |i: int| ids@[i].position()), self@, false),
    {
        let positions = bits_zeroes(&self.inner);
        let ids: Vec<Id> = ids_of(&positions);
        assert(Seq::new(ids@.len(), |i: int| ids@[i].position()) =~= positions@);
        ids
    }

    /// The ids whose bits are set, in ascending order of position.
    pub fn ones(&self) -> (ids: Vec<Id>)
        ensures
            positions_of(Seq::new(ids@.len(), |i: int| ids@[i].position()), self@, true),
    {
        let positions = bits_ones(&self.inner);
        let ids: Vec<Id> = ids_of(&positions);
        assert(Seq::new(ids@.len(), |i: int| ids@[i].position()) =~= positions@);
        ids
    }

    /// Sets every bit to `value`.
    pub fn set_all(&mut self, value: bool)
        ensures
            final(self)@ == filled(old(self)@.len(), value),
    {
        bits_set_all(&mut self.inner, value)
    }
}

impl<Id: BitSetId> core::ops::Index<Id> for BitSet<Id> {
    type Output = bool;

    /// The bit of `index`; a bit beyond the length is unset.
    fn index(&self, index: Id) -> (bit: &bool)
        ensures
            *bit == (index.position() < self@.len() && self@[index.position() as int]),
    {
        if self.get(index) {
            &true
        } else {
            &false
        }
    }
}

/// The ids for `positions`.
fn ids_of<Id: BitSetId>(positions: &Vec<usize>) -> (ids: Vec<Id>)
    ensures
        ids@.len() == positions@.len(),
        forall|i: int| 0 <= i < ids@.len() ==> (#[trigger] ids@[i]).position() == positions@[i],
{
    let mut ids: Vec<Id> = Vec::new();
    let mut index: usize = 0;
    while index < positions.len()
        invariant
            index <= positions@.len(),
            ids@.len() == index,
            forall|i: int| 0 <= i < index ==> (#[trigger] ids@[i]).position() == positions@[i],
        decreases positions@.len() - index,
    {
        ids.push(Id::from_position(positions[index]));
        index += 1;
    }
    ids
}

/// `FixedBitSet::new`: a set without bits.
#[verifier::external_body]
fn bits_new() -> (created: FixedBitSet)
    ensures
        bits_of(created).len() == 0,
{
    FixedBitSet::new()
}

/// `FixedBitSet::with_capacity`: `bits` bits, all unset.
#[verifier::external_body]
fn bits_with_capacity(bits: usize) -> (created: FixedBitSet)
    ensures
        bits_of(created) == filled(bits as nat, false),
{
    FixedBitSet::with_capacity(bits)
}

/// `FixedBitSet::put`: sets the bit and returns its value before. It
/// panics on a bit beyond the length, which `requires` leaves out.
#[verifier::external_body]
fn bits_put(bits: &mut FixedBitSet, bit: usize) -> (previous: bool)
    requires
        bit < bits_of(*old(bits)).len(),
    ensures
        previous == bits_of(*old(bits))[bit as int],
        bits_of(*final(bits)) == bits_of(*old(bits)).update(bit as int, true),
{
    bits.put(bit)
}

/// `FixedBitSet::set`: sets the bit to `enabled`. It panics on a bit
/// beyond the length, which `requires` leaves out.
#[verifier::external_body]
fn bits_set(bits: &mut FixedBitSet, bit: usize, enabled: bool)
    requires
        bit < bits_of(*old(bits)).len(),
    ensures
        bits_of(*final(bits)) == bits_of(*old(bits)).update(bit as int, enabled),
{
    bits.set(bit, enabled)
}

/// `FixedBitSet::contains`: whether the bit is set; a bit beyond the
/// length is not.
#[verifier::external_body]
fn bits_contains(bits: &FixedBitSet, bit: usize) -> (enabled: bool)
    ensures
        enabled == (bit < bits_of(*bits).len() && bits_of(*bits)[bit as int]),
{
    bits.contains(bit)
}

/// `FixedBitSet::grow`: grows to `length` bits, the new ones unset, and
/// leaves a set alone that is that long already.
#[verifier::external_body]
fn bits_grow(bits: &mut FixedBitSet, length: usize)
    ensures
        bits_of(*final(bits)) == grown(bits_of(*old(bits)), length as nat),
{
    bits.grow(length)
}

/// `FixedBitSet::len`: the number of bits, set or unset.
#[verifier::external_body]
fn bits_len(bits: &FixedBitSet) -> (length: usize)
    ensures
        length == bits_of(*bits).len(),
{
    bits.len()
}

/// `FixedBitSet::zeroes`, collected: the positions of the unset bits, in
/// ascending order.
#[verifier::external_body]
fn bits_zeroes(bits: &FixedBitSet) -> (positions: Vec<usize>)
    ensures
        positions_of(positions@, bits_of(*bits), false),
{
    bits.zeroes().collect()
}

/// `FixedBitSet::ones`, collected: the positions of the set bits, in
/// ascending order.
#[verifier::external_body]
fn bits_ones(bits: &FixedBitSet) -> (positions: Vec<usize>)
    ensures
        positions_of(positions@, bits_of(*bits), true),
{
    bits.ones().collect()
}

/// `FixedBitSet::set_range` over the whole set: every bit is `enabled`
/// afterwards, and the length is as before.
#[verifier::external_body]
fn bits_set_all(bits: &mut FixedBitSet, enabled: bool)
    ensures
        bits_of(*final(bits)) == filled(bits_of(*old(bits)).len(), enabled),
{
    bits.set_range(.., enabled)
}

} // verus!
