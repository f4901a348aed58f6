//! The deduplicating cache that guests use for values that are expensive to
//! compute.
//!
//! When several callers ask for a key that has no value yet, the first is told
//! to compute it and the others are queued on a wait list until the first
//! calls [`LegacyCache::set`]. A caller that waits does so outside this
//! module, with a timeout; when the timeout strikes it reports back through
//! [`LegacyCache::abandon`] and computes the value itself.
//!
//! Time is the host's monotonic clock in milliseconds, read by the caller.

use vstd::prelude::*;
use dashmap::DashMap;

verus! {

#[verifier::external_type_specification]
#[verifier::external_body]
#[verifier::reject_recursive_types(K)]
#[verifier::reject_recursive_types(V)]
#[verifier::reject_recursive_types(S)]
pub struct ExDashMap<K, V, S>(DashMap<K, V, S>);

/// How long a caller waits for the value that another caller computes, in
/// seconds. After that it computes the value itself.
pub const WAIT_TIMEOUT_SECS: u64 = 5;

/// A cached value: its bytes and the instant at which it expires, if it does.
pub type EntryView = (Seq<u8>, Option<u64>);

/// A wait list: its epoch id, whether its creator gave up, and the waiters
/// that are queued, first come first.
pub type WaitListView = (u128, bool, Seq<u64>);

/// The cache as a pair of maps.
pub struct CacheState {
    pub entries: Map<Seq<char>, EntryView>,
    pub wait_lists: Map<Seq<char>, WaitListView>,
}

/// What a lookup tells its caller.
#[derive(Debug)]
pub enum CacheLookup {
    /// The value is cached and has not expired.
    Hit(Vec<u8>),
    /// No value and nobody computing it: the caller must compute the value
    /// and call `set`. It is the creator of the wait list with this epoch.
    Miss { epoch_id: u128 },
    /// Another caller is computing the value: the caller was queued on the
    /// wait list with this epoch and will be handed the value by `set`.
    Wait { epoch_id: u128 },
}

/// [`CacheLookup`] over sequences.
pub enum LookupView {
    Hit(Seq<u8>),
    Miss { epoch_id: u128 },
    Wait { epoch_id: u128 },
}

impl LookupView {
    /// The epoch of the wait list that the caller created or was queued
    /// on; zero for a hit, which concerns no wait list.
    pub open spec fn epoch(self) -> u128 {
        match self {
            LookupView::Hit(_) => 0,
            LookupView::Miss { epoch_id } => epoch_id,
            LookupView::Wait { epoch_id } => epoch_id,
        }
    }
}

impl View for CacheLookup {
    type V = LookupView;

    open spec fn view(&self) -> LookupView {
        match *self {
            CacheLookup::Hit(data) => LookupView::Hit(data@),
            CacheLookup::Miss { epoch_id } => LookupView::Miss { epoch_id },
            CacheLookup::Wait { epoch_id } => LookupView::Wait { epoch_id },
        }
    }
}

/// The entries that the map holds, by key.
pub uninterp spec fn entries_of(map: DashMap<String, (Vec<u8>, Option<u64>)>) -> Map<Seq<char>, EntryView>;

/// The wait lists that the map holds, by key.
pub uninterp spec fn wait_lists_of(map: DashMap<String, (u128, bool, Vec<u64>)>) -> Map<
    Seq<char>,
    WaitListView,
>;

/// An entry is live at `now_ms` unless its expiry lies strictly before it.
pub open spec fn is_live(entry: EntryView, now_ms: u64) -> bool {
    match entry.1 {
        Some(expires_at) => !(expires_at < now_ms),
        None => true,
    }
}

/// The instant at which a value set at `now_ms` with `ttl_ms` expires. An
/// expiry beyond the clock's range is the end of the range.
pub open spec fn expiry(ttl_ms: Option<u64>, now_ms: u64) -> Option<u64> {
    match ttl_ms {
        Some(ttl) => Some(
            if now_ms + ttl > u64::MAX {
                u64::MAX
            } else {
                (now_ms + ttl) as u64
            },
        ),
        None => None,
    }
}

impl CacheState {
    /// Whether `key` has a value that is live at `now_ms`.
    pub open spec fn has_live(self, key: Seq<char>, now_ms: u64) -> bool {
        self.entries.dom().contains(key) && is_live(self.entries[key], now_ms)
    }

    /// Whether a fill for `key` is in flight: a wait list exists whose creator
    /// has not given up.
    pub open spec fn fill_in_flight(self, key: Seq<char>) -> bool {
        self.wait_lists.dom().contains(key) && !self.wait_lists[key].1
    }

    /// The outcome of a lookup of `key` at `now_ms`.
    pub open spec fn lookup(self, key: Seq<char>, now_ms: u64, fresh_epoch: u128) -> LookupView {
        if self.has_live(key, now_ms) {
            LookupView::Hit(self.entries[key].0)
        } else if self.fill_in_flight(key) {
            LookupView::Wait { epoch_id: self.wait_lists[key].0 }
        } else {
            LookupView::Miss { epoch_id: fresh_epoch }
        }
    }

    /// The cache after a lookup of `key` at `now_ms` by `waiter`: an expired
    /// entry is evicted; the caller joins the wait list of a fill in flight,
    /// or a fresh wait list is made, in place of a defunct one if need be.
    pub open spec fn after_lookup(self, key: Seq<char>, now_ms: u64, fresh_epoch: u128, waiter: u64) -> CacheState {
        if self.has_live(key, now_ms) {
            self
        } else if self.fill_in_flight(key) {
            let list = self.wait_lists[key];
            CacheState {
                entries: self.entries.remove(key),
                wait_lists: self.wait_lists.insert(key, (list.0, list.1, list.2.push(waiter))),
            }
        } else {
            CacheState {
                entries: self.entries.remove(key),
                wait_lists: self.wait_lists.insert(key, (fresh_epoch, false, Seq::<u64>::empty())),
            }
        }
    }

    /// The waiters that a `set` of `key` hands the value to.
    pub open spec fn waiters(self, key: Seq<char>) -> Seq<u64> {
        if self.wait_lists.dom().contains(key) {
            self.wait_lists[key].2
        } else {
            Seq::<u64>::empty()
        }
    }

    /// The cache after `set`: the entry is written or overwritten and the
    /// wait list of the key is gone.
    pub open spec fn after_set(self, key: Seq<char>, value: Seq<u8>, ttl_ms: Option<u64>, now_ms: u64) -> CacheState {
        CacheState {
            entries: self.entries.insert(key, (value, expiry(ttl_ms, now_ms))),
            wait_lists: self.wait_lists.remove(key),
        }
    }

    /// Whether a waiter that timed out on the list with `epoch_id` removes
    /// the wait list of `key`: only if it is still that list.
    pub open spec fn abandons(self, key: Seq<char>, epoch_id: u128) -> bool {
        self.wait_lists.dom().contains(key) && self.wait_lists[key].0 == epoch_id
    }

    /// The cache after a waiter timed out.
    pub open spec fn after_abandon(self, key: Seq<char>, epoch_id: u128) -> CacheState {
        if self.abandons(key, epoch_id) {
            CacheState { entries: self.entries, wait_lists: self.wait_lists.remove(key) }
        } else {
            self
        }
    }

    /// The cache after the creator of the list with `epoch_id` gave up.
    pub open spec fn after_creator_dropped(self, key: Seq<char>, epoch_id: u128) -> CacheState {
        if self.abandons(key, epoch_id) {
            let list = self.wait_lists[key];
            CacheState { entries: self.entries, wait_lists: self.wait_lists.insert(key, (list.0, true, list.2)) }
        } else {
            self
        }
    }
}

/// The cache of one extension.
pub struct LegacyCache {
    cache: DashMap<String, (Vec<u8>, Option<u64>)>,
    wait_list: DashMap<String, (u128, bool, Vec<u64>)>,
}

impl View for LegacyCache {
    type V = CacheState;

    closed spec fn view(&self) -> CacheState {
        CacheState { entries: entries_of(self.cache), wait_lists: wait_lists_of(self.wait_list) }
    }
}

impl LegacyCache {
    /// An empty cache.
    pub fn new() -> (cache: Self)
        ensures
            cache@.entries == Map::<Seq<char>, EntryView>::empty(),
            cache@.wait_lists == Map::<Seq<char>, WaitListView>::empty(),
    {
        let cache = LegacyCache { cache: entries_new(), wait_list: wait_lists_new() };
        assert(cache@.entries =~= Map::<Seq<char>, EntryView>::empty());
        assert(cache@.wait_lists =~= Map::<Seq<char>, WaitListView>::empty());
        cache
    }

    /// Looks `key` up at `now_ms` on behalf of `waiter`, with a fresh epoch
    /// id for the wait list that a miss creates. The id is drawn at random:
    /// a miss tells which id was drawn, and the cache is as
    /// [`LegacyCache::get_at`] leaves it for that id.
    pub fn get(&mut self, key: &str, now_ms: u64, waiter: u64) -> (found: CacheLookup)
        ensures
            found@ == old(self)@.lookup(key@, now_ms, found@.epoch()),
            final(self)@ == old(self)@.after_lookup(key@, now_ms, found@.epoch(), waiter),
    {
        let fresh_epoch = fresh_epoch_id();
        self.get_at(key, now_ms, fresh_epoch, waiter)
    }

    /// Looks `key` up at `now_ms` on behalf of `waiter`.
    ///
    /// A live entry is a hit. An expired entry is evicted. Without a live
    /// entry the caller either becomes the creator of a wait list with the
    /// epoch `fresh_epoch` and must compute the value, or is queued behind
    /// the creator of the fill that is in flight.
    pub fn get_at(&mut self, key: &str, now_ms: u64, fresh_epoch: u128, waiter: u64) -> (found: CacheLookup)
        ensures
            found@ == old(self)@.lookup(key@, now_ms, fresh_epoch),
            final(self)@ == old(self)@.after_lookup(key@, now_ms, fresh_epoch, waiter),
    {
        match entries_get(&self.cache, key) {
            Some(entry) => {
                let expired = match entry.1 {
                    Some(expires_at) => expires_at < now_ms,
                    None => false,
                };
                if expired {
                    entries_remove(&mut self.cache, key);
                } else {
                    return CacheLookup::Hit(entry.0);
                }
            },
            None => {
                assert(self@.entries.remove(key@) =~= self@.entries);
            },
        }
        match self.get_or_create_wait_list(key, fresh_epoch, waiter) {
            Some(epoch_id) => CacheLookup::Wait { epoch_id },
            None => CacheLookup::Miss { epoch_id: fresh_epoch },
        }
    }

    /// Writes or overwrites the value of `key`, to expire `ttl_ms` after
    /// `now_ms` if a time to live is given, and removes the wait list of the
    /// key. Returns the waiters that were queued, in the order in which they
    /// came: each of them is to be handed the new value.
    pub fn set(&mut self, key: &str, value: Vec<u8>, ttl_ms: Option<u64>, now_ms: u64) -> (waiters: Vec<u64>)
        ensures
            waiters@ == old(self)@.waiters(key@),
            final(self)@ == old(self)@.after_set(key@, value@, ttl_ms, now_ms),
    {
        let expires_at = match ttl_ms {
            Some(ttl) => Some(now_ms.saturating_add(ttl)),
            None => None,
        };
        entries_insert(&mut self.cache, key.to_owned(), (value, expires_at));
        let waiters = match wait_lists_get(&self.wait_list, key) {
            Some(list) => list.2,
            None => Vec::new(),
        };
        wait_lists_remove(&mut self.wait_list, key);
        waiters
    }

    /// Cleans up after a waiter that timed out on the wait list with
    /// `epoch_id`: the wait list of `key` is removed if it still is that
    /// list, and left alone if it is a newer one. Returns whether it was
    /// removed.
    pub fn abandon(&mut self, key: &str, epoch_id: u128) -> (removed: bool)
        ensures
            removed == old(self)@.abandons(key@, epoch_id),
            final(self)@ == old(self)@.after_abandon(key@, epoch_id),
    {
        match wait_lists_get(&self.wait_list, key) {
            Some(list) => {
                if list.0 == epoch_id {
                    wait_lists_remove(&mut self.wait_list, key);
                    true
                } else {
                    false
                }
            },
            None => false,
        }
    }

    /// Records that the creator of the wait list with `epoch_id` gave up
    /// without calling `set`. The next lookup replaces the list.
    pub fn creator_dropped(&mut self, key: &str, epoch_id: u128)
        ensures
            final(self)@ == old(self)@.after_creator_dropped(key@, epoch_id),
    {
        match wait_lists_get(&self.wait_list, key) {
            Some(list) => {
                if list.0 == epoch_id {
                    wait_lists_insert(&mut self.wait_list, key.to_owned(), (list.0, true, list.2));
                }
            },
            None => {},
        }
    }

    /// Joins the wait list of `key` or creates it. `None` says that the
    /// caller created the list, afresh or in place of a defunct one, and must
    /// compute the value; `Some` gives the epoch of the list that the caller
    /// was queued on.
    pub fn get_or_create_wait_list(&mut self, key: &str, fresh_epoch: u128, waiter: u64) -> (joined: Option<u128>)
        ensures
            final(self)@.entries == old(self)@.entries,
            joined is Some == old(self)@.fill_in_flight(key@),
            joined matches Some(epoch_id) ==> {
                &&& epoch_id == old(self)@.wait_lists[key@].0
                &&& final(self)@.wait_lists == old(self)@.wait_lists.insert(
                    key@,
                    (epoch_id, false, old(self)@.wait_lists[key@].2.push(waiter)),
                )
            },
            joined is None ==> final(self)@.wait_lists == old(self)@.wait_lists.insert(
                key@,
                (fresh_epoch, false, Seq::<u64>::empty()),
            ),
    {
        match wait_lists_get(&self.wait_list, key) {
            Some(list) => {
                if !list.1 {
                    let epoch_id = list.0;
                    let mut waiters = list.2;
                    waiters.push(waiter);
                    wait_lists_insert(&mut self.wait_list, key.to_owned(), (epoch_id, false, waiters));
                    return Some(epoch_id);
                }
            },
            None => {},
        }
        wait_lists_insert(&mut self.wait_list, key.to_owned(), (fresh_epoch, false, Vec::new()));
        None
    }
}

/// One lookup that follows a miss: the instant, the fresh epoch id it brought
/// and the waiter.
pub struct Arrival {
    pub now_ms: u64,
    pub fresh_epoch: u128,
    pub waiter: u64,
}

/// The cache after the lookups of `key` in `arrivals`, in turn.
pub open spec fn after_arrivals(state: CacheState, key: Seq<char>, arrivals: Seq<Arrival>) -> CacheState
    decreases arrivals.len(),
{
    if arrivals.len() == 0 {
        state
    } else {
        let last = arrivals.last();
        after_arrivals(state, key, arrivals.drop_last()).after_lookup(
            key,
            last.now_ms,
            last.fresh_epoch,
            last.waiter,
        )
    }
}

/// The waiters of `arrivals`, in turn.
pub open spec fn waiters_of(arrivals: Seq<Arrival>) -> Seq<u64> {
    Seq::new(arrivals.len(), |i: int| arrivals[i].waiter)
}

/// At most one caller is told to compute a value at a time. Once a lookup of
/// `key` was a miss, and until `set`, a timeout or the creator giving up, no
/// later lookup of the key is a miss: each one waits on the creator's list,
/// and the `set` that ends the fill hands the value to exactly those callers,
/// in the order in which they came.
pub proof fn lemma_single_fill_in_flight(
    state: CacheState,
    key: Seq<char>,
    now_ms: u64,
    epoch_id: u128,
    creator: u64,
    arrivals: Seq<Arrival>,
)
    requires
        state.lookup(key, now_ms, epoch_id) is Miss,
    ensures
        forall|i: int|
            #![trigger arrivals[i]]
            0 <= i < arrivals.len() ==> after_arrivals(
                state.after_lookup(key, now_ms, epoch_id, creator),
                key,
                arrivals.take(i),
            ).lookup(key, arrivals[i].now_ms, arrivals[i].fresh_epoch) == (LookupView::Wait { epoch_id }),
        after_arrivals(state.after_lookup(key, now_ms, epoch_id, creator), key, arrivals).waiters(key)
            == waiters_of(arrivals),
{
    let started = state.after_lookup(key, now_ms, epoch_id, creator);
    lemma_fill_stays_in_flight(started, key, epoch_id, arrivals);
    assert forall|i: int| #![trigger arrivals[i]] 0 <= i < arrivals.len() implies after_arrivals(
        started,
        key,
        arrivals.take(i),
    ).lookup(key, arrivals[i].now_ms, arrivals[i].fresh_epoch) == (LookupView::Wait { epoch_id }) by {
        lemma_fill_stays_in_flight(started, key, epoch_id, arrivals.take(i));
    }
}

/// While a fill is in flight and no entry is cached, lookups only queue up.
proof fn lemma_fill_stays_in_flight(started: CacheState, key: Seq<char>, epoch_id: u128, arrivals: Seq<Arrival>)
    requires
        !started.entries.dom().contains(key),
        started.wait_lists.dom().contains(key),
        started.wait_lists[key] == (epoch_id, false, Seq::<u64>::empty()),
    ensures
        !after_arrivals(started, key, arrivals).entries.dom().contains(key),
        after_arrivals(started, key, arrivals).wait_lists.dom().contains(key),
        after_arrivals(started, key, arrivals).wait_lists[key] == (epoch_id, false, waiters_of(arrivals)),
    decreases arrivals.len(),
{
    if arrivals.len() == 0 {
        assert(waiters_of(arrivals) =~= Seq::<u64>::empty());
    } else {
        lemma_fill_stays_in_flight(started, key, epoch_id, arrivals.drop_last());
        assert(waiters_of(arrivals) =~= waiters_of(arrivals.drop_last()).push(arrivals.last().waiter));
    }
}

/// `set` overwrites: after two `set`s of a key the cache is what the second
/// alone would have left. Calling `set` twice with the same value, time to
/// live and instant therefore shows every later lookup what one call shows.
pub proof fn lemma_set_is_idempotent(
    state: CacheState,
    key: Seq<char>,
    first_value: Seq<u8>,
    first_ttl_ms: Option<u64>,
    first_now_ms: u64,
    value: Seq<u8>,
    ttl_ms: Option<u64>,
    now_ms: u64,
)
    ensures
        state.after_set(key, first_value, first_ttl_ms, first_now_ms).after_set(key, value, ttl_ms, now_ms)
            == state.after_set(key, value, ttl_ms, now_ms),
        state.after_set(key, value, ttl_ms, now_ms).after_set(key, value, ttl_ms, now_ms) == state.after_set(
            key,
            value,
            ttl_ms,
            now_ms,
        ),
{
    let once = state.after_set(key, value, ttl_ms, now_ms);
    let twice = state.after_set(key, first_value, first_ttl_ms, first_now_ms).after_set(key, value, ttl_ms, now_ms);
    assert(twice.entries =~= once.entries);
    assert(twice.wait_lists =~= once.wait_lists);
    let again = once.after_set(key, value, ttl_ms, now_ms);
    assert(again.entries =~= once.entries);
    assert(again.wait_lists =~= once.wait_lists);
}

/// A value is served up to and including the instant of its expiry and never
/// after it: a lookup once the time to live has elapsed is no hit, and it
/// evicts the entry.
pub proof fn lemma_expired_is_never_served(
    state: CacheState,
    key: Seq<char>,
    value: Seq<u8>,
    ttl_ms: u64,
    set_at_ms: u64,
    now_ms: u64,
    fresh_epoch: u128,
    waiter: u64,
)
    ensures
        now_ms > set_at_ms + ttl_ms ==> {
            let cached = state.after_set(key, value, Some(ttl_ms), set_at_ms);
            &&& !(cached.lookup(key, now_ms, fresh_epoch) is Hit)
            &&& cached.lookup(key, now_ms, fresh_epoch) == (LookupView::Miss { epoch_id: fresh_epoch })
            &&& !cached.after_lookup(key, now_ms, fresh_epoch, waiter).entries.dom().contains(key)
        },
        now_ms <= set_at_ms + ttl_ms ==> state.after_set(key, value, Some(ttl_ms), set_at_ms).lookup(
            key,
            now_ms,
            fresh_epoch,
        ) == LookupView::Hit(value),
{
}

/// A value that was set without a time to live is served at every instant.
pub proof fn lemma_without_ttl_never_expires(
    state: CacheState,
    key: Seq<char>,
    value: Seq<u8>,
    set_at_ms: u64,
    now_ms: u64,
    fresh_epoch: u128,
)
    ensures
        state.after_set(key, value, None, set_at_ms).lookup(key, now_ms, fresh_epoch) == LookupView::Hit(value),
{
}

/// A waiter that timed out on an older wait list cannot remove a newer one.
pub proof fn lemma_late_cleanup_spares_newer_list(state: CacheState, key: Seq<char>, stale_epoch: u128)
    requires
        state.wait_lists.dom().contains(key),
        state.wait_lists[key].0 != stale_epoch,
    ensures
        state.after_abandon(key, stale_epoch) == state,
{
}

/// The milliseconds since the Unix epoch at which the wait list with
/// `epoch_id` was created: the upper 48 bits of the id.
pub open spec fn epoch_timestamp_ms(epoch_id: u128) -> u64 {
    (epoch_id >> 80) as u64
}

/// How many whole seconds ago, at `now_unix_ms`, the wait list with `epoch_id`
/// was created; zero if the clock has gone back since.
pub fn wait_list_age_secs(epoch_id: u128, now_unix_ms: u64) -> (age: u64)
    ensures
        age == if now_unix_ms >= epoch_timestamp_ms(epoch_id) {
            (now_unix_ms - epoch_timestamp_ms(epoch_id)) / 1000
        } else {
            0
        },
{
    let created_at = epoch_timestamp(epoch_id);
    if now_unix_ms >= created_at {
        (now_unix_ms - created_at) / 1000
    } else {
        0
    }
}

/// `DashMap::new`: a map that holds nothing.
#[verifier::external_body]
fn entries_new() -> (created: DashMap<String, (Vec<u8>, Option<u64>)>)
    ensures
        entries_of(created).dom() == Set::<Seq<char>>::empty(),
{
    DashMap::new()
}

/// `DashMap::get`, with the value cloned out of the guard: the entry under
/// `key` if the map holds one.
#[verifier::external_body]
fn entries_get(map: &DashMap<String, (Vec<u8>, Option<u64>)>, key: &str) -> (found: Option<
    (Vec<u8>, Option<u64>),
>)
    ensures
        found is Some == entries_of(*map).dom().contains(key@),
        found matches Some(entry) ==> (entry.0@, entry.1) == entries_of(*map)[key@],
{
    map.get(key).map(|entry| entry.value().clone())
}

/// `DashMap::insert`: the map holds `entry` under `key` afterwards, in place
/// of what it held there, and is otherwise unchanged.
#[verifier::external_body]
fn entries_insert(map: &mut DashMap<String, (Vec<u8>, Option<u64>)>, key: String, entry: (Vec<u8>, Option<u64>))
    ensures
        entries_of(*final(map)) == entries_of(*old(map)).insert(key@, (entry.0@, entry.1)),
{
    map.insert(key, entry);
}

/// `DashMap::remove`: the map holds nothing under `key` afterwards and is
/// otherwise unchanged.
#[verifier::external_body]
fn entries_remove(map: &mut DashMap<String, (Vec<u8>, Option<u64>)>, key: &str)
    ensures
        entries_of(*final(map)) == entries_of(*old(map)).remove(key@),
{
    map.remove(key);
}

/// `DashMap::new`: a map that holds nothing.
#[verifier::external_body]
fn wait_lists_new() -> (created: DashMap<String, (u128, bool, Vec<u64>)>)
    ensures
        wait_lists_of(created).dom() == Set::<Seq<char>>::empty(),
{
    DashMap::new()
}

/// `DashMap::get`, with the value cloned out of the guard: the wait list
/// under `key` if the map holds one.
#[verifier::external_body]
fn wait_lists_get(map: &DashMap<String, (u128, bool, Vec<u64>)>, key: &str) -> (found: Option<
    (u128, bool, Vec<u64>),
>)
    ensures
        found is Some == wait_lists_of(*map).dom().contains(key@),
        found matches Some(list) ==> (list.0, list.1, list.2@) == wait_lists_of(*map)[key@],
{
    map.get(key).map(|list| list.value().clone())
}

/// `DashMap::insert`: the map holds `list` under `key` afterwards, in place
/// of what it held there, and is otherwise unchanged.
#[verifier::external_body]
fn wait_lists_insert(map: &mut DashMap<String, (u128, bool, Vec<u64>)>, key: String, list: (u128, bool, Vec<u64>))
    ensures
        wait_lists_of(*final(map)) == wait_lists_of(*old(map)).insert(key@, (list.0, list.1, list.2@)),
{
    map.insert(key, list);
}

/// `DashMap::remove`: the map holds nothing under `key` afterwards and is
/// otherwise unchanged.
#[verifier::external_body]
fn wait_lists_remove(map: &mut DashMap<String, (u128, bool, Vec<u64>)>, key: &str)
    ensures
        wait_lists_of(*final(map)) == wait_lists_of(*old(map)).remove(key@),
{
    map.remove(key);
}

/// `Ulid::new`: an id made of the current time and random bits. Nothing is
/// claimed of it.
#[verifier::external_body]
fn fresh_epoch_id() -> (epoch_id: u128) {
    ulid::Ulid::new().0
}

/// `Ulid::timestamp_ms`: the id shifted right by its 80 random bits.
#[verifier::external_body]
fn epoch_timestamp(epoch_id: u128) -> (timestamp_ms: u64)
    ensures
        timestamp_ms == epoch_timestamp_ms(epoch_id),
{
    ulid::Ulid(epoch_id).timestamp_ms()
}

} // verus!
