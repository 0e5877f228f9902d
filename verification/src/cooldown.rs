//! Keeping a job from being queued again too soon: for each key, the time at
//! which it was queued last. Times are in nanoseconds.

use std::collections::HashMap;
use vstd::hash_map::StringHashMap;
use vstd::prelude::*;

verus! {

/// The nanoseconds of a second.
pub const NANOS_PER_SECOND: u64 = 1_000_000_000;

/// A key that was admitted at `last` is still held back.
pub open spec fn held_back(last: Option<u64>, now: u64, cooldown: u64) -> bool {
    match last {
        Some(t) => now - t < cooldown,
        None => false,
    }
}

/// When a key was admitted last.
pub open spec fn last_of<K>(recent: Map<K, u64>, key: K) -> Option<u64> {
    if recent.dom().contains(key) {
        Some(recent[key])
    } else {
        None
    }
}

/// A key is admitted.
pub open spec fn admits<K>(recent: Map<K, u64>, key: K, now: u64, cooldown: u64) -> bool {
    !held_back(last_of(recent, key), now, cooldown)
}

/// The times after a key has asked: a key that is admitted starts anew, and one
/// that is held back changes nothing.
pub open spec fn after_asking<K>(recent: Map<K, u64>, key: K, now: u64, cooldown: u64) -> Map<
    K,
    u64,
> {
    if admits(recent, key, now, cooldown) {
        recent.insert(key, now)
    } else {
        recent
    }
}

/// Whether a key that was admitted at `last` is still held back.
fn is_held_back(last: Option<u64>, now: u64, cooldown: u64) -> (r: bool)
    ensures
        r == held_back(last, now, cooldown),
{
    match last {
        Some(t) => {
            if now < t {
                cooldown > 0 || t - now > 0
            } else {
                now - t < cooldown
            }
        },
        None => false,
    }
}

/// The times at which numbers were admitted.
pub struct RecentIds {
    times: HashMap<i64, u64>,
}

impl View for RecentIds {
    type V = Map<i64, u64>;

    closed spec fn view(&self) -> Map<i64, u64> {
        self.times@
    }
}

impl RecentIds {
    /// No number has been admitted.
    pub fn new() -> (r: Self)
        ensures
            r@ == Map::<i64, u64>::empty(),
    {
        broadcast use vstd::std_specs::hash::group_hash_axioms;

        RecentIds { times: HashMap::new() }
    }

    /// Whether the number is admitted now.
    pub fn ask(&mut self, key: i64, now: u64, cooldown: u64) -> (r: bool)
        ensures
            r == admits(old(self)@, key, now, cooldown),
            final(self)@ == after_asking(old(self)@, key, now, cooldown),
    {
        broadcast use vstd::std_specs::hash::group_hash_axioms;

        let last: Option<u64> = match self.times.get(&key) {
            Some(t) => Some(*t),
            None => None,
        };
        if is_held_back(last, now, cooldown) {
            return false;
        }
        self.times.insert(key, now);
        true
    }
}

/// The times at which texts were admitted.
pub struct RecentNames {
    times: StringHashMap<u64>,
}

impl View for RecentNames {
    type V = Map<Seq<char>, u64>;

    closed spec fn view(&self) -> Map<Seq<char>, u64> {
        self.times@
    }
}

impl RecentNames {
    /// No text has been admitted.
    pub fn new() -> (r: Self)
        ensures
            r@ == Map::<Seq<char>, u64>::empty(),
    {
        RecentNames { times: StringHashMap::new() }
    }

    /// Whether the text is admitted now.
    pub fn ask(&mut self, key: &str, now: u64, cooldown: u64) -> (r: bool)
        ensures
            r == admits(old(self)@, key@, now, cooldown),
            final(self)@ == after_asking(old(self)@, key@, now, cooldown),
    {
        let last: Option<u64> = match self.times.get(key) {
            Some(t) => Some(*t),
            None => None,
        };
        if is_held_back(last, now, cooldown) {
            return false;
        }
        self.times.insert(key.to_owned(), now);
        true
    }
}

// ---------------------------------------------------------------------------
// Laws.
// ---------------------------------------------------------------------------
/// A key that was admitted is held back until its cooldown is over, and admitted
/// again then.
pub proof fn law_admitted_key_waits<K>(
    recent: Map<K, u64>,
    key: K,
    first: u64,
    second: u64,
    cooldown: u64,
)
    requires
        admits(recent, key, first, cooldown),
        first <= second,
    ensures
        admits(after_asking(recent, key, first, cooldown), key, second, cooldown) <==> second
            - first >= cooldown,
{
}

/// Asking while a key is held back does not make it wait longer.
pub proof fn law_asking_in_vain_changes_nothing<K>(
    recent: Map<K, u64>,
    key: K,
    now: u64,
    cooldown: u64,
)
    requires
        !admits(recent, key, now, cooldown),
    ensures
        after_asking(recent, key, now, cooldown) == recent,
{
}

/// Keys do not hold each other back.
pub proof fn law_keys_are_independent<K>(
    recent: Map<K, u64>,
    key: K,
    other: K,
    now: u64,
    later: u64,
    cooldown: u64,
)
    requires
        key != other,
    ensures
        admits(after_asking(recent, key, now, cooldown), other, later, cooldown) == admits(
            recent,
            other,
            later,
            cooldown,
        ),
{
}

/// A key that asks, and when.
pub struct Ask<K> {
    pub key: K,
    pub now: u64,
}

/// The times after all of these have asked, one behind the other.
pub open spec fn after_all<K>(asks: Seq<Ask<K>>, cooldown: u64) -> Map<K, u64>
    decreases asks.len(),
{
    if asks.len() == 0 {
        Map::empty()
    } else {
        after_asking(
            after_all(asks.drop_last(), cooldown),
            asks.last().key,
            asks.last().now,
            cooldown,
        )
    }
}

/// The one that asks at place `i` is admitted.
pub open spec fn admitted<K>(asks: Seq<Ask<K>>, i: int, cooldown: u64) -> bool {
    admits(after_all(asks.take(i), cooldown), asks[i].key, asks[i].now, cooldown)
}

proof fn lemma_last_of_all<K>(asks: Seq<Ask<K>>, n: int, key: K, cooldown: u64)
    requires
        0 <= n <= asks.len(),
    ensures
        match last_of(after_all(asks.take(n), cooldown), key) {
            None => forall|j: int|
                0 <= j < n && #[trigger] admitted(asks, j, cooldown) ==> asks[j].key != key,
            Some(t) => {
                &&& forall|j: int|
                    0 <= j < n && #[trigger] admitted(asks, j, cooldown) && asks[j].key == key
                        ==> asks[j].now <= t
                &&& exists|j: int|
                    0 <= j < n && #[trigger] admitted(asks, j, cooldown) && asks[j].key == key
                        && asks[j].now == t
            },
        },
    decreases n,
{
    if n > 0 {
        lemma_last_of_all(asks, n - 1, key, cooldown);
        assert(asks.take(n).drop_last() =~= asks.take(n - 1));
        assert(asks.take(n).last() == asks[n - 1]);
        if asks[n - 1].key == key && admitted(asks, n - 1, cooldown) {
            assert(last_of(after_all(asks.take(n), cooldown), key) == Some(asks[n - 1].now));
        } else {
            assert(last_of(after_all(asks.take(n), cooldown), key) == last_of(
                after_all(asks.take(n - 1), cooldown),
                key,
            ));
        }
    }
}

/// Over a whole history of askings: a key is admitted exactly where it was not
/// admitted before at a time that is less than the cooldown ago.
pub proof fn law_admitted_once_a_cooldown<K>(asks: Seq<Ask<K>>, i: int, cooldown: u64)
    requires
        0 <= i < asks.len(),
    ensures
        admitted(asks, i, cooldown) <==> forall|j: int|
            0 <= j < i && #[trigger] admitted(asks, j, cooldown) && asks[j].key == asks[i].key
                ==> asks[i].now - asks[j].now >= cooldown,
{
    lemma_last_of_all(asks, i, asks[i].key, cooldown);
}

} // verus!
