//! The bounded price series, one per pair.
use vstd::prelude::*;
use std::collections::VecDeque;
use crate::error::{Error, Result};

verus! {

/// How many points a series keeps unless told otherwise.
pub const DEFAULT_CAPACITY: usize = 1000;

/// What remains of a series once it is cut down to its `capacity` newest
/// points.
pub open spec fn retain_newest(points: Seq<(u64, u64)>, capacity: nat) -> Seq<(u64, u64)> {
    if points.len() <= capacity {
        points
    } else {
        points.skip(points.len() - capacity)
    }
}

/// A series after one more point has been inserted.
pub open spec fn append_point(points: Seq<(u64, u64)>, point: (u64, u64), capacity: nat) -> Seq<
    (u64, u64),
> {
    retain_newest(points.push(point), capacity)
}

/// The `n` newest points of a series, newest first; all of them if there are
/// fewer.
pub open spec fn newest_first(points: Seq<(u64, u64)>, n: nat) -> Seq<(u64, u64)> {
    Seq::new(
        if n <= points.len() {
            n
        } else {
            points.len()
        },
        |i: int| points[points.len() - 1 - i],
    )
}

/// Whether no series of a store holds more than `capacity` points.
pub open spec fn within_capacity(series: Map<Seq<char>, Seq<(u64, u64)>>, capacity: nat) -> bool {
    forall|key: Seq<char>| #[trigger] series.contains_key(key) ==> series[key].len() <= capacity
}

/// A series after the points of `added` have been inserted one by one.
pub open spec fn append_all(points: Seq<(u64, u64)>, added: Seq<(u64, u64)>, capacity: nat) -> Seq<
    (u64, u64),
>
    decreases added.len(),
{
    if added.len() == 0 {
        points
    } else {
        append_all(append_point(points, added[0], capacity), added.drop_first(), capacity)
    }
}

/// The store after a pair has been added: a pair that is there stays as it is.
pub open spec fn after_add(series: Map<Seq<char>, Seq<(u64, u64)>>, key: Seq<char>) -> Map<
    Seq<char>,
    Seq<(u64, u64)>,
> {
    if series.contains_key(key) {
        series
    } else {
        series.insert(key, Seq::empty())
    }
}

/// The store after a pair has been removed.
pub open spec fn after_remove(series: Map<Seq<char>, Seq<(u64, u64)>>, key: Seq<char>) -> Map<
    Seq<char>,
    Seq<(u64, u64)>,
> {
    series.remove(key)
}

/// The store after a point has been inserted for a pair: nothing changes for
/// a pair that is not there.
pub open spec fn after_insert(
    series: Map<Seq<char>, Seq<(u64, u64)>>,
    key: Seq<char>,
    point: (u64, u64),
    capacity: nat,
) -> Map<Seq<char>, Seq<(u64, u64)>> {
    if series.contains_key(key) {
        series.insert(key, append_point(series[key], point, capacity))
    } else {
        series
    }
}

/// A pair that is removed and added again starts with an empty series,
/// whatever it held before the removal.
pub proof fn lemma_readded_pair_is_empty(series: Map<Seq<char>, Seq<(u64, u64)>>, key: Seq<char>)
    ensures
        after_add(after_remove(series, key), key).contains_key(key),
        after_add(after_remove(series, key), key)[key] == Seq::<(u64, u64)>::empty(),
        !series.contains_key(key) ==> after_add(after_remove(after_add(series, key), key), key)
            == after_add(series, key),
{
    if !series.contains_key(key) {
        assert(after_add(after_remove(after_add(series, key), key), key) =~= after_add(
            series,
            key,
        ));
    }
}

/// A read of the `n` newest points returns the smaller of `n` and the number
/// of points held, so never more than `n` nor more than the capacity.
pub proof fn lemma_newest_first_len(points: Seq<(u64, u64)>, n: nat, capacity: nat)
    requires
        points.len() <= capacity,
    ensures
        newest_first(points, n).len() == if n <= points.len() {
            n
        } else {
            points.len()
        },
        newest_first(points, n).len() <= n,
        newest_first(points, n).len() <= capacity,
{
}

/// A read is newest first: each point of the result was inserted after the
/// one that follows it.
pub proof fn lemma_newest_first_order(points: Seq<(u64, u64)>, n: nat, i: int)
    requires
        0 <= i < newest_first(points, n).len(),
    ensures
        newest_first(points, n)[i] == points[points.len() - 1 - i],
{
}

/// Asking for one more point extends the answer by exactly the next older
/// point while there is one, and changes nothing once the series is used up.
pub proof fn lemma_newest_first_extends(points: Seq<(u64, u64)>, n: nat)
    ensures
        n < points.len() ==> newest_first(points, n + 1) == newest_first(points, n).push(
            points[points.len() - 1 - n],
        ),
        n >= points.len() ==> newest_first(points, n + 1) == newest_first(points, n),
{
    if n < points.len() {
        assert(newest_first(points, n + 1) =~= newest_first(points, n).push(
            points[points.len() - 1 - n],
        ));
    } else {
        assert(newest_first(points, n + 1) =~= newest_first(points, n));
    }
}

/// Inserting into a full series drops exactly its oldest point; inserting
/// into a series with room drops nothing.
pub proof fn lemma_append_evicts_oldest(points: Seq<(u64, u64)>, point: (u64, u64), capacity: nat)
    requires
        points.len() <= capacity,
    ensures
        points.len() < capacity ==> append_point(points, point, capacity) == points.push(point),
        points.len() == capacity && capacity > 0 ==> append_point(points, point, capacity)
            == points.drop_first().push(point),
        append_point(points, point, capacity).len() <= capacity,
{
    if points.len() == capacity && capacity > 0 {
        assert(append_point(points, point, capacity) =~= points.drop_first().push(point));
    }
}

/// After any run of inserts a series holds the newest `capacity` points of
/// all that it ever held, in the order of insertion.
pub proof fn lemma_append_all(points: Seq<(u64, u64)>, added: Seq<(u64, u64)>, capacity: nat)
    requires
        points.len() <= capacity,
    ensures
        append_all(points, added, capacity) == retain_newest(points + added, capacity),
        append_all(points, added, capacity).len() <= capacity,
    decreases added.len(),
{
    if added.len() == 0 {
        assert(points + added =~= points);
    } else {
        let next = append_point(points, added[0], capacity);
        lemma_append_all(next, added.drop_first(), capacity);
        let all = points + added;
        assert(retain_newest(next + added.drop_first(), capacity) =~= retain_newest(all, capacity))
            by {
            let rest = added.drop_first();
            if points.len() + 1 <= capacity {
                assert(next =~= points.push(added[0]));
                assert(next + rest =~= all);
            } else {
                let cut = (points.len() + 1 - capacity) as int;
                assert(next =~= points.push(added[0]).skip(cut));
                assert((next + rest).len() == all.len() - cut);
                assert(next + rest =~= all.skip(cut));
                assert(all.skip(cut).skip(all.len() - cut - capacity) =~= all.skip(
                    all.len() - capacity,
                ));
            }
        }
    }
}

/// Once at least `capacity` points have been inserted, the series holds
/// exactly the last `capacity` of them.
pub proof fn lemma_overflow_keeps_newest(
    points: Seq<(u64, u64)>,
    added: Seq<(u64, u64)>,
    capacity: nat,
)
    requires
        points.len() <= capacity,
        added.len() >= capacity,
    ensures
        append_all(points, added, capacity) == added.skip(added.len() - capacity),
        append_all(points, added, capacity).len() == capacity,
{
    lemma_append_all(points, added, capacity);
    let all = points + added;
    assert(all.skip(all.len() - capacity) =~= added.skip(added.len() - capacity));
}

/// The name of a tradable pair. Names are compared exactly.
#[derive(Debug, Clone, PartialEq, Eq, Hash)]
pub struct PairKey(pub String);

impl View for PairKey {
    type V = Seq<char>;

    open spec fn view(&self) -> Seq<char> {
        self.0@
    }
}

/// One pair with its points, oldest first.
struct Series {
    key: PairKey,
    points: VecDeque<(u64, u64)>,
}

/// The store of price series: a map from pair name to the points of the pair,
/// each series cut down to the newest `capacity` points.
pub struct PairPrice {
    capacity: usize,
    entries: Vec<Series>,
}

impl PairPrice {
    #[verifier::type_invariant]
    spec fn well_formed(&self) -> bool {
        &&& forall|i: int, j: int|
            0 <= i < j < self.entries.len() ==> self.entries[i].key@ != self.entries[j].key@
        &&& forall|i: int|
            0 <= i < self.entries.len() ==> (#[trigger] self.entries[i]).points@.len()
                <= self.capacity
    }

    /// The position of a pair among the entries.
    spec fn position(&self, key: Seq<char>) -> int {
        choose|i: int| 0 <= i < self.entries.len() && self.entries[i].key@ == key
    }

    /// Whether some entry is for the pair.
    spec fn has_entry(&self, key: Seq<char>) -> bool {
        exists|i: int| 0 <= i < self.entries.len() && self.entries[i].key@ == key
    }

    /// The series of every known pair, oldest point first.
    pub closed spec fn view(&self) -> Map<Seq<char>, Seq<(u64, u64)>> {
        Map::new(
            |key: Seq<char>| self.has_entry(key),
            |key: Seq<char>| self.entries[self.position(key)].points@,
        )
    }

    /// The number of points that a series keeps.
    pub closed spec fn spec_capacity(&self) -> nat {
        self.capacity as nat
    }

    /// An entry stands in the view under its own key.
    proof fn lemma_entry(&self, i: int)
        requires
            self.well_formed(),
            0 <= i < self.entries.len(),
        ensures
            self.has_entry(self.entries[i].key@),
            self.position(self.entries[i].key@) == i,
            self@.contains_key(self.entries[i].key@),
            self@[self.entries[i].key@] == self.entries[i].points@,
    {
        let key = self.entries[i].key@;
        assert(self.has_entry(key));
        let p = self.position(key);
        assert(0 <= p < self.entries.len() && self.entries[p].key@ == key);
        if p < i {
            assert(self.entries[p].key@ != self.entries[i].key@);
        } else if i < p {
            assert(self.entries[i].key@ != self.entries[p].key@);
        }
    }

    /// The keys of the entries, in their order, are the pairs of the view,
    /// each once.
    proof fn lemma_names(&self, names: Seq<Seq<char>>)
        requires
            self.well_formed(),
            names.len() == self.entries.len(),
            forall|j: int| 0 <= j < names.len() ==> names[j] == self.entries[j].key@,
        ensures
            names.no_duplicates(),
            names.to_set() == self@.dom(),
    {
        assert forall|a: int, b: int| 0 <= a < names.len() && 0 <= b < names.len() && a
            != b implies names[a] != names[b] by {
            if a < b {
                assert(self.entries[a].key@ != self.entries[b].key@);
            } else {
                assert(self.entries[b].key@ != self.entries[a].key@);
            }
        }
        assert forall|key: Seq<char>| names.to_set().contains(key) == self@.dom().contains(
            key,
        ) by {
            if names.to_set().contains(key) {
                let j = choose|j: int| 0 <= j < names.len() && names[j] == key;
                self.lemma_entry(j);
            }
            if self.has_entry(key) {
                let p = self.position(key);
                assert(names[p] == key);
            }
        }
        assert(names.to_set() =~= self@.dom());
    }

    /// Replacing the points of one entry replaces one series of the view.
    proof fn lemma_update(before: PairPrice, after: PairPrice, i: int, points: Seq<(u64, u64)>)
        requires
            before.well_formed(),
            0 <= i < before.entries.len(),
            after.capacity == before.capacity,
            after.entries.len() == before.entries.len(),
            forall|j: int|
                0 <= j < before.entries.len() ==> after.entries[j].key@ == before.entries[j].key@,
            forall|j: int|
                0 <= j < before.entries.len() && j != i ==> after.entries[j].points@
                    == before.entries[j].points@,
            after.entries[i].points@ == points,
            points.len() <= before.capacity,
        ensures
            after.well_formed(),
            after@ == before@.insert(before.entries[i].key@, points),
    {
        let k = before.entries[i].key@;
        assert(after.well_formed()) by {
            assert forall|j: int| 0 <= j < after.entries.len() implies (
            #[trigger] after.entries[j]).points@.len() <= after.capacity by {
                if j != i {
                    assert(before.entries[j].points@.len() <= before.capacity);
                }
            }
        }
        assert forall|key: Seq<char>| after@.contains_key(key) == before@.insert(
            k,
            points,
        ).contains_key(key) by {
            if before.has_entry(key) {
                let p = before.position(key);
                assert(after.entries[p].key@ == key);
            }
            if after.has_entry(key) {
                let p = after.position(key);
                assert(before.entries[p].key@ == key);
            }
            if key == k {
                assert(after.entries[i].key@ == k);
            }
        }
        assert forall|key: Seq<char>| after@.contains_key(key) implies after@[key] == before@.insert(
            k,
            points,
        )[key] by {
            let p = after.position(key);
            after.lemma_entry(p);
            before.lemma_entry(p);
        }
        assert(after@ =~= before@.insert(k, points));
    }

    /// Taking one entry out takes one series out of the view.
    proof fn lemma_remove(before: PairPrice, after: PairPrice, i: int)
        requires
            before.well_formed(),
            0 <= i < before.entries.len(),
            after.capacity == before.capacity,
            after.entries@ == before.entries@.remove(i),
        ensures
            after.well_formed(),
            after@ == before@.remove(before.entries[i].key@),
    {
        let k = before.entries[i].key@;
        assert forall|j: int| 0 <= j < after.entries.len() implies after.entries[j] == (if j < i {
            before.entries[j]
        } else {
            before.entries[j + 1]
        }) by {}
        assert(after.well_formed()) by {
            assert forall|a: int, b: int| 0 <= a < b < after.entries.len() implies after.entries[a].key@
                != after.entries[b].key@ by {
                let a2 = if a < i { a } else { a + 1 };
                let b2 = if b < i { b } else { b + 1 };
                assert(before.entries[a2].key@ != before.entries[b2].key@);
            }
            assert forall|j: int| 0 <= j < after.entries.len() implies (
            #[trigger] after.entries[j]).points@.len() <= after.capacity by {
                let j2 = if j < i { j } else { j + 1 };
                assert(before.entries[j2].points@.len() <= before.capacity);
            }
        }
        assert forall|key: Seq<char>| after@.contains_key(key) == before@.remove(k).contains_key(
            key,
        ) by {
            if before.has_entry(key) && key != k {
                let p = before.position(key);
                let q = if p < i { p } else { p - 1 };
                assert(after.entries[q].key@ == key);
            }
            if after.has_entry(key) {
                let p = after.position(key);
                let q = if p < i { p } else { p + 1 };
                assert(before.entries[q].key@ == key);
                if q < i {
                    assert(before.entries[q].key@ != before.entries[i].key@);
                } else {
                    assert(before.entries[i].key@ != before.entries[q].key@);
                }
            }
        }
        assert forall|key: Seq<char>| after@.contains_key(key) implies after@[key] == before@.remove(
            k,
        )[key] by {
            let p = after.position(key);
            let q = if p < i { p } else { p + 1 };
            after.lemma_entry(p);
            before.lemma_entry(q);
        }
        assert(after@ =~= before@.remove(k));
    }

    /// An empty store whose series keep `capacity` points each.
    pub fn new(capacity: usize) -> (r: PairPrice)
        ensures
            r@ == Map::<Seq<char>, Seq<(u64, u64)>>::empty(),
            r.spec_capacity() == capacity,
    {
        let r = PairPrice { capacity, entries: Vec::new() };
        assert(r@ =~= Map::<Seq<char>, Seq<(u64, u64)>>::empty());
        r
    }

    /// The number of points that a series keeps.
    pub fn capacity(&self) -> (r: usize)
        ensures
            r == self.spec_capacity(),
            within_capacity(self@, self.spec_capacity()),
    {
        proof {
            use_type_invariant(self);
            assert forall|key: Seq<char>| #[trigger] self@.contains_key(key) implies self@[key].len()
                <= self.capacity by {
                let p = self.position(key);
                assert(self.entries[p].points@.len() <= self.capacity);
            }
        }
        self.capacity
    }

    /// Where the entry of a pair stands, if the pair is known.
    fn find(&self, key: &PairKey) -> (r: Option<usize>)
        ensures
            r is Some <==> self@.contains_key(key@),
            r matches Some(i) ==> i < self.entries.len() && self.entries[i as int].key@ == key@
                && self.position(key@) == i,
    {
        proof {
            use_type_invariant(self);
        }
        let mut i: usize = 0;
        while i < self.entries.len()
            invariant
                self.well_formed(),
                i <= self.entries.len(),
                forall|j: int| 0 <= j < i ==> self.entries[j].key@ != key@,
            decreases self.entries.len() - i,
        {
            if self.entries[i].key.0 == key.0 {
                proof {
                    self.lemma_entry(i as int);
                }
                return Some(i);
            }
            i += 1;
        }
        None
    }

    /// Whether the pair is known.
    pub fn is_exist(&self, key: &PairKey) -> (r: bool)
        ensures
            r == self@.contains_key(key@),
    {
        self.find(key).is_some()
    }

    /// Adds a pair, with an empty series.
    pub fn add_pair(&mut self, key: PairKey) -> (r: Result<()>)
        ensures
            final(self).spec_capacity() == old(self).spec_capacity(),
            final(self)@ == after_add(old(self)@, key@),
            r == if old(self)@.contains_key(key@) {
                Err::<(), Error>(Error::PairExists)
            } else {
                Ok(())
            },
    {
        proof {
            use_type_invariant(&*self);
        }
        if self.find(&key).is_some() {
            return Err(Error::PairExists);
        }
        let ghost before = *self;
        let ghost k = key@;
        let mut entries: Vec<Series> = Vec::new();
        std::mem::swap(&mut self.entries, &mut entries);
        entries.push(Series { key, points: VecDeque::new() });
        self.entries = entries;
        proof {
            let after = *self;
            assert(after.well_formed()) by {
                assert forall|i: int, j: int| 0 <= i < j < after.entries.len() implies after.entries[i].key@
                    != after.entries[j].key@ by {
                    if j == before.entries.len() {
                        assert(before.entries[i].key@ == after.entries[i].key@);
                        assert(!before.has_entry(k));
                    }
                }
            }
            assert(after@ =~= before@.insert(k, Seq::empty())) by {
                assert forall|key2: Seq<char>| after@.contains_key(key2) == before@.insert(
                    k,
                    Seq::empty(),
                ).contains_key(key2) by {
                    if before.has_entry(key2) {
                        let p = before.position(key2);
                        assert(after.entries[p].key@ == key2);
                    }
                    if key2 == k {
                        assert(after.entries[before.entries.len() as int].key@ == k);
                    }
                    if after.has_entry(key2) && key2 != k {
                        let p = after.position(key2);
                        assert(before.entries[p].key@ == key2);
                    }
                }
                assert forall|key2: Seq<char>| after@.contains_key(key2) implies after@[key2]
                    == before@.insert(k, Seq::empty())[key2] by {
                    let p = after.position(key2);
                    after.lemma_entry(p);
                    if key2 != k {
                        assert(before.entries[p].key@ == key2);
                        before.lemma_entry(p);
                    }
                }
            }
        }
        Ok(())
    }

    /// Removes a pair and drops all its points.
    pub fn del_pair(&mut self, key: PairKey) -> (r: Result<()>)
        ensures
            final(self).spec_capacity() == old(self).spec_capacity(),
            final(self)@ == after_remove(old(self)@, key@),
            r == if old(self)@.contains_key(key@) {
                Ok(())
            } else {
                Err::<(), Error>(Error::PairNotFound)
            },
    {
        proof {
            use_type_invariant(&*self);
        }
        let ghost before = *self;
        match self.find(&key) {
            None => {
                assert(self@ =~= after_remove(before@, key@));
                Err(Error::PairNotFound)
            },
            Some(i) => {
                let mut entries: Vec<Series> = Vec::new();
                std::mem::swap(&mut self.entries, &mut entries);
                entries.remove(i);
                proof {
                    let after = PairPrice { capacity: self.capacity, entries };
                    Self::lemma_remove(before, after, i as int);
                }
                self.entries = entries;
                Ok(())
            },
        }
    }

    /// Appends a point to the series of a pair; a full series drops its
    /// oldest point.
    pub fn insert(&mut self, key: &PairKey, timestamp: u64, price: u64) -> (r: Result<()>)
        ensures
            final(self).spec_capacity() == old(self).spec_capacity(),
            final(self)@ == after_insert(
                old(self)@,
                key@,
                (timestamp, price),
                old(self).spec_capacity(),
            ),
            r == if old(self)@.contains_key(key@) {
                Ok(())
            } else {
                Err::<(), Error>(Error::PairNotExist)
            },
    {
        proof {
            use_type_invariant(&*self);
        }
        let ghost before = *self;
        match self.find(key) {
            None => Err(Error::PairNotExist),
            Some(i) => {
                let capacity: usize = self.capacity;
                let mut entries: Vec<Series> = Vec::new();
                std::mem::swap(&mut self.entries, &mut entries);
                let ghost old_points = entries[i as int].points@;
                if capacity > 0 {
                    if entries[i].points.len() >= capacity {
                        entries[i].points.pop_front();
                    }
                    entries[i].points.push_back((timestamp, price));
                }
                proof {
                    let after = PairPrice { capacity, entries };
                    let new_points = append_point(old_points, (timestamp, price), capacity as nat);
                    assert(entries[i as int].points@ =~= new_points);
                    before.lemma_entry(i as int);
                    Self::lemma_update(before, after, i as int, new_points);
                }
                self.entries = entries;
                Ok(())
            },
        }
    }

    /// The newest point of a pair, if the pair is known and has any point.
    pub fn get_latest_price(&self, key: &PairKey) -> (r: Option<(u64, u64)>)
        ensures
            r == if self@.contains_key(key@) && self@[key@].len() > 0 {
                Some(self@[key@].last())
            } else {
                None
            },
    {
        proof {
            use_type_invariant(self);
        }
        match self.find(key) {
            None => None,
            Some(i) => {
                proof {
                    self.lemma_entry(i as int);
                }
                let points = &self.entries[i].points;
                let n: usize = points.len();
                if n == 0 {
                    None
                } else {
                    Some(points[n - 1])
                }
            },
        }
    }

    /// Up to `n` of the newest points of a pair, newest first; nothing for a
    /// pair that is not known.
    pub fn get_prices(&self, key: &PairKey, n: usize) -> (r: Vec<(u64, u64)>)
        ensures
            r@ == if self@.contains_key(key@) {
                newest_first(self@[key@], n as nat)
            } else {
                Seq::empty()
            },
            r@.len() <= n,
            r@.len() <= self.spec_capacity(),
    {
        proof {
            use_type_invariant(self);
        }
        let mut out: Vec<(u64, u64)> = Vec::new();
        match self.find(key) {
            None => {},
            Some(i) => {
                proof {
                    self.lemma_entry(i as int);
                }
                let points = &self.entries[i].points;
                let len: usize = points.len();
                let count: usize = if n <= len { n } else { len };
                let mut k: usize = 0;
                while k < count
                    invariant
                        len == points@.len(),
                        count <= len,
                        k <= count,
                        out@ == newest_first(points@, k as nat),
                    decreases count - k,
                {
                    out.push(points[len - 1 - k]);
                    assert(out@ =~= newest_first(points@, (k + 1) as nat));
                    k += 1;
                }
                assert(out@ =~= newest_first(points@, n as nat));
            },
        }
        out
    }

    /// The names of all pairs that the store knows, each once.
    pub fn get_pairs(&self) -> (r: Vec<PairKey>)
        ensures
            key_names(r@).no_duplicates(),
            key_names(r@).to_set() == self@.dom(),
    {
        proof {
            use_type_invariant(self);
        }
        let mut out: Vec<PairKey> = Vec::new();
        let mut i: usize = 0;
        while i < self.entries.len()
            invariant
                self.well_formed(),
                i <= self.entries.len(),
                out@.len() == i,
                forall|j: int| 0 <= j < i ==> out@[j]@ == self.entries[j].key@,
            decreases self.entries.len() - i,
        {
            out.push(PairKey(self.entries[i].key.0.clone()));
            i += 1;
        }
        proof {
            let names = key_names(out@);
            self.lemma_names(names);
        }
        out
    }

    /// All series with all their points, for saving.
    pub fn snapshot(&self) -> (r: Vec<(PairKey, Vec<(u64, u64)>)>)
        ensures
            is_snapshot(r@, self@),
            within_capacity(self@, self.spec_capacity()),
    {
        proof {
            use_type_invariant(self);
        }
        let mut out: Vec<(PairKey, Vec<(u64, u64)>)> = Vec::new();
        let mut i: usize = 0;
        while i < self.entries.len()
            invariant
                self.well_formed(),
                i <= self.entries.len(),
                out@.len() == i,
                forall|j: int|
                    0 <= j < i ==> (#[trigger] out@[j]).0@ == self.entries[j].key@ && out@[j].1@
                        == self.entries[j].points@,
            decreases self.entries.len() - i,
        {
            let points = &self.entries[i].points;
            let mut copy: Vec<(u64, u64)> = Vec::new();
            let mut k: usize = 0;
            while k < points.len()
                invariant
                    k <= points.len(),
                    copy@ == points@.take(k as int),
                decreases points.len() - k,
            {
                copy.push(points[k]);
                assert(points@.take(k + 1) =~= points@.take(k as int).push(points@[k as int]));
                k += 1;
            }
            assert(points@.take(points@.len() as int) =~= points@);
            out.push((PairKey(self.entries[i].key.0.clone()), copy));
            i += 1;
        }
        proof {
            let names = saved_names(out@);
            self.lemma_names(names);
            assert forall|j: int| 0 <= j < out@.len() implies self@[(#[trigger] out@[j]).0@]
                == out@[j].1@ by {
                self.lemma_entry(j);
            }
            assert forall|key: Seq<char>| #[trigger] self@.contains_key(key) implies self@[key].len()
                <= self.capacity by {
                let p = self.position(key);
                assert(self.entries[p].points@.len() <= self.capacity);
            }
        }
        out
    }

    /// A store loaded from saved series, whose series keep `capacity` points
    /// each.
    pub fn restore(capacity: usize, saved: &Vec<(PairKey, Vec<(u64, u64)>)>) -> (r: PairPrice)
        ensures
            r.spec_capacity() == capacity,
            r@ == restored(saved@, capacity as nat),
    {
        let mut store = PairPrice::new(capacity);
        let mut i: usize = 0;
        assert(saved@.take(0) =~= Seq::empty());
        while i < saved.len()
            invariant
                i <= saved.len(),
                store.spec_capacity() == capacity,
                store@ == restored(saved@.take(i as int), capacity as nat),
            decreases saved.len() - i,
        {
            let key = &saved[i].0;
            let points = &saved[i].1;
            proof {
                lemma_restored_within_capacity(saved@.take(i as int), capacity as nat);
            }
            let _ = store.add_pair(PairKey(key.0.clone()));
            let ghost before = store@;
            let ghost start = before[key@];
            let mut k: usize = 0;
            assert(points@.take(0) =~= Seq::empty());
            assert(start + Seq::<(u64, u64)>::empty() =~= start);
            assert(before =~= before.insert(key@, start));
            while k < points.len()
                invariant
                    k <= points.len(),
                    store.spec_capacity() == capacity,
                    before.contains_key(key@),
                    start == before[key@],
                    start.len() <= capacity,
                    store@ == before.insert(
                        key@,
                        retain_newest(start + points@.take(k as int), capacity as nat),
                    ),
                decreases points.len() - k,
            {
                let ghost held = start + points@.take(k as int);
                let _ = store.insert(key, points[k].0, points[k].1);
                proof {
                    lemma_retain_then_append(held, points@[k as int], capacity as nat);
                    assert(held.push(points@[k as int]) =~= start + points@.take(k + 1));
                    assert(store@ =~= before.insert(
                        key@,
                        retain_newest(start + points@.take(k + 1), capacity as nat),
                    ));
                }
                k += 1;
            }
            proof {
                assert(points@.take(points@.len() as int) =~= points@);
                lemma_append_all(start, points@, capacity as nat);
                let part = saved@.take(i + 1);
                assert(part.drop_last() =~= saved@.take(i as int));
                assert(part.last() == saved@[i as int]);
            }
            i += 1;
        }
        assert(saved@.take(saved@.len() as int) =~= saved@);
        store
    }
}

/// The names that a list of keys holds, in the list's order.
pub open spec fn key_names(keys: Seq<PairKey>) -> Seq<Seq<char>> {
    Seq::new(keys.len(), |i: int| keys[i]@)
}

/// The names that a saved list of series holds, in the list's order.
pub open spec fn saved_names(saved: Seq<(PairKey, Vec<(u64, u64)>)>) -> Seq<Seq<char>> {
    Seq::new(saved.len(), |i: int| saved[i].0@)
}

/// Whether a saved list of series holds exactly what a store holds: every
/// pair once, with all its points.
pub open spec fn is_snapshot(
    saved: Seq<(PairKey, Vec<(u64, u64)>)>,
    series: Map<Seq<char>, Seq<(u64, u64)>>,
) -> bool {
    &&& saved_names(saved).no_duplicates()
    &&& saved_names(saved).to_set() == series.dom()
    &&& forall|i: int| 0 <= i < saved.len() ==> series[(#[trigger] saved[i]).0@] == saved[i].1@
}

/// The store that a saved list of series is loaded into: going through the
/// list in order, each pair is added unless it is there, and its points are
/// inserted one by one.
pub open spec fn restored(saved: Seq<(PairKey, Vec<(u64, u64)>)>, capacity: nat) -> Map<
    Seq<char>,
    Seq<(u64, u64)>,
>
    decreases saved.len(),
{
    if saved.len() == 0 {
        Map::empty()
    } else {
        let before = after_add(restored(saved.drop_last(), capacity), saved.last().0@);
        before.insert(
            saved.last().0@,
            append_all(before[saved.last().0@], saved.last().1@, capacity),
        )
    }
}

/// Loading never makes a series longer than the capacity.
pub proof fn lemma_restored_within_capacity(saved: Seq<(PairKey, Vec<(u64, u64)>)>, capacity: nat)
    ensures
        within_capacity(restored(saved, capacity), capacity),
    decreases saved.len(),
{
    if saved.len() > 0 {
        lemma_restored_within_capacity(saved.drop_last(), capacity);
        let before = after_add(restored(saved.drop_last(), capacity), saved.last().0@);
        assert(before.contains_key(saved.last().0@));
        lemma_append_all(before[saved.last().0@], saved.last().1@, capacity);
    }
}

/// Loading what was saved from a store gives the store back, as long as the
/// capacity is the one that the store had.
pub proof fn lemma_restore_of_snapshot(
    saved: Seq<(PairKey, Vec<(u64, u64)>)>,
    series: Map<Seq<char>, Seq<(u64, u64)>>,
    capacity: nat,
)
    requires
        is_snapshot(saved, series),
        within_capacity(series, capacity),
    ensures
        restored(saved, capacity) == series,
    decreases saved.len(),
{
    if saved.len() == 0 {
        assert(series.dom() =~= Set::empty());
        assert(restored(saved, capacity) =~= series);
    } else {
        let rest = saved.drop_last();
        let key = saved.last().0@;
        let names = saved_names(saved);
        assert(names[saved.len() - 1] == key);
        assert(series.dom().contains(key));
        let less = series.remove(key);
        assert(saved_names(rest) =~= names.drop_last());
        assert(is_snapshot(rest, less)) by {
            assert forall|name: Seq<char>| saved_names(rest).to_set().contains(name)
                == less.dom().contains(name) by {
                if saved_names(rest).to_set().contains(name) {
                    let j = choose|j: int| 0 <= j < rest.len() && saved_names(rest)[j] == name;
                    assert(names[j] == name);
                    assert(names.to_set().contains(name));
                }
                if less.dom().contains(name) {
                    assert(names.to_set().contains(name));
                    let j = choose|j: int| 0 <= j < names.len() && names[j] == name;
                    assert(saved_names(rest)[j] == name);
                }
            }
            assert(saved_names(rest).to_set() =~= less.dom());
            assert forall|i: int| 0 <= i < rest.len() implies less[(#[trigger] rest[i]).0@]
                == rest[i].1@ by {
                assert(rest[i] == saved[i]);
                assert(names[i] != names[saved.len() - 1]);
            }
        }
        assert(within_capacity(less, capacity)) by {
            assert forall|name: Seq<char>| #[trigger] less.contains_key(name) implies less[name].len()
                <= capacity by {
                assert(series.contains_key(name));
            }
        }
        lemma_restore_of_snapshot(rest, less, capacity);
        let before = after_add(less, key);
        assert(before[key] == Seq::<(u64, u64)>::empty());
        assert(series.contains_key(key));
        lemma_append_all(Seq::empty(), saved.last().1@, capacity);
        assert(Seq::<(u64, u64)>::empty() + saved.last().1@ =~= saved.last().1@);
        assert(restored(saved, capacity) =~= series);
    }
}

/// Cutting a series down and then inserting is the same as inserting and
/// then cutting down.
pub proof fn lemma_retain_then_append(points: Seq<(u64, u64)>, point: (u64, u64), capacity: nat)
    ensures
        append_point(retain_newest(points, capacity), point, capacity) == retain_newest(
            points.push(point),
            capacity,
        ),
{
    if points.len() > capacity {
        let cut = points.len() - capacity;
        assert(points.skip(cut).push(point).skip(1) =~= points.push(point).skip(cut + 1));
    }
}

} // verus!
