use vstd::prelude::*;
use crate::model::DbError;
use crate::text::same_chars;

verus! {

/// One named id sequence: the last id it handed out (0 before the first).
#[derive(Debug, Clone)]
pub struct Sequence {
    pub name: String,
    pub seq: i64,
}

/// The id sequences, one per name, each created on its first use.
pub struct Counters {
    sequences: Vec<Sequence>,
    values: Ghost<Map<Seq<char>, int>>,
}

impl Counters {
    /// The last id handed out by the sequence `name`; 0 for a sequence not yet used.
    pub closed spec fn value(self, name: Seq<char>) -> int {
        if self.values@.dom().contains(name) {
            self.values@[name]
        } else {
            0
        }
    }

    pub closed spec fn wf(self) -> bool {
        &&& forall|i: int|
            0 <= i < self.sequences@.len() ==> {
                &&& self.values@.dom().contains(#[trigger] self.sequences@[i].name@)
                &&& self.values@[self.sequences@[i].name@] == self.sequences@[i].seq
                &&& self.sequences@[i].seq >= 0
            }
        &&& forall|n: Seq<char>|
            #[trigger] self.values@.dom().contains(n) ==> exists|i: int|
                0 <= i < self.sequences@.len() && self.sequences@[i].name@ == n
        &&& forall|i: int, j: int|
            0 <= i < self.sequences@.len() && 0 <= j < self.sequences@.len() && i != j
                ==> #[trigger] self.sequences@[i].name@ != #[trigger] self.sequences@[j].name@
    }

    /// The value of a sequence is never negative.
    pub proof fn lemma_value_nonnegative(self, name: Seq<char>)
        requires
            self.wf(),
        ensures
            self.value(name) >= 0,
    {
        if self.values@.dom().contains(name) {
            let i = choose|i: int| 0 <= i < self.sequences@.len() && self.sequences@[i].name@ == name;
            assert(self.values@[self.sequences@[i].name@] == self.sequences@[i].seq);
        }
    }

    /// No sequence used yet.
    pub fn new() -> (r: Counters)
        ensures
            r.wf(),
            forall|n: Seq<char>| r.value(n) == 0,
    {
        Counters { sequences: Vec::new(), values: Ghost(Map::empty()) }
    }

    /// The position of the sequence `name`, if it has been used.
    fn position(&self, name: &str) -> (r: Option<usize>)
        requires
            self.wf(),
        ensures
            match r {
                Some(i) => i < self.sequences@.len() && self.sequences@[i as int].name@ == name@,
                None => !self.values@.dom().contains(name@),
            },
    {
        let mut i: usize = 0;
        while i < self.sequences.len()
            invariant
                self.wf(),
                i <= self.sequences@.len(),
                forall|k: int| 0 <= k < i ==> self.sequences@[k].name@ != name@,
            decreases self.sequences.len() - i,
        {
            if same_chars(self.sequences[i].name.as_str(), name) {
                return Some(i);
            }
            i = i + 1;
        }
        None
    }

    /// Raises the sequence `name` by `count`, creating it if needed, and
    /// returns its new value.
    fn raise(&mut self, name: &str, count: i64) -> (r: i64)
        requires
            old(self).wf(),
            count > 0,
            old(self).value(name@) + count <= i64::MAX,
        ensures
            final(self).wf(),
            r == old(self).value(name@) + count,
            final(self).value(name@) == r,
            forall|n: Seq<char>| n != name@ ==> final(self).value(n) == old(self).value(n),
    {
        match self.position(name) {
            Some(i) => {
                let ghost before = self.sequences@;
                let current = self.sequences[i].seq;
                assert(self.values@[before[i as int].name@] == current);
                let next = current + count;
                let entry = Sequence { name: self.sequences[i].name.clone(), seq: next };
                self.sequences.set(i, entry);
                self.values = Ghost(self.values@.insert(name@, next as int));
                assert forall|k: int| 0 <= k < self.sequences@.len() implies {
                    &&& self.values@.dom().contains(#[trigger] self.sequences@[k].name@)
                    &&& self.values@[self.sequences@[k].name@] == self.sequences@[k].seq
                    &&& self.sequences@[k].seq >= 0
                } by {
                    if k != i {
                        assert(before[k].name@ != before[i as int].name@);
                    }
                }
                assert forall|n: Seq<char>| #[trigger] self.values@.dom().contains(n) implies exists|
                    k: int,
                | 0 <= k < self.sequences@.len() && self.sequences@[k].name@ == n by {
                    if n != name@ {
                        let k = choose|k: int| 0 <= k < before.len() && before[k].name@ == n;
                        assert(self.sequences@[k].name@ == n);
                    } else {
                        assert(self.sequences@[i as int].name@ == n);
                    }
                }
                next
            },
            None => {
                let ghost before = self.sequences@;
                let entry = Sequence { name: name.to_string(), seq: count };
                proof {
                    vstd::string::to_string_from_display_ensures_for_str(name, entry.name);
                }
                self.sequences.push(entry);
                self.values = Ghost(self.values@.insert(name@, count as int));
                let ghost last = before.len() as int;
                assert forall|k: int| 0 <= k < self.sequences@.len() implies {
                    &&& self.values@.dom().contains(#[trigger] self.sequences@[k].name@)
                    &&& self.values@[self.sequences@[k].name@] == self.sequences@[k].seq
                    &&& self.sequences@[k].seq >= 0
                } by {
                    if k != last {
                        assert(self.sequences@[k] == before[k]);
                    }
                }
                assert forall|n: Seq<char>| #[trigger] self.values@.dom().contains(n) implies exists|
                    k: int,
                | 0 <= k < self.sequences@.len() && self.sequences@[k].name@ == n by {
                    if n != name@ {
                        let k = choose|k: int| 0 <= k < before.len() && before[k].name@ == n;
                        assert(self.sequences@[k].name@ == n);
                    } else {
                        assert(self.sequences@[last].name@ == n);
                    }
                }
                assert forall|p: int, q: int|
                    0 <= p < self.sequences@.len() && 0 <= q < self.sequences@.len() && p != q
                        implies #[trigger] self.sequences@[p].name@
                    != #[trigger] self.sequences@[q].name@ by {
                    if p != last && q != last {
                        assert(self.sequences@[p] == before[p]);
                        assert(self.sequences@[q] == before[q]);
                    } else if p == last {
                        assert(self.sequences@[q] == before[q]);
                        assert(self.values@.dom().contains(before[q].name@));
                    } else {
                        assert(self.sequences@[p] == before[p]);
                        assert(self.values@.dom().contains(before[p].name@));
                    }
                }
                count
            },
        }
    }
}

/// The first id that a request for `count` ids hands out from a sequence at
/// `seq`; `None` where the request is refused.
pub open spec fn first_id_issued(seq: int, count: int) -> Option<int> {
    if count > 0 && seq + count <= i64::MAX {
        Some(seq + 1)
    } else {
        None
    }
}

/// The value of a sequence at `seq` after a request for `count` ids.
pub open spec fn sequence_after(seq: int, count: int) -> int {
    if first_id_issued(seq, count) is Some {
        seq + count
    } else {
        seq
    }
}

/// Hands out the next id of the sequence `collection_name`: the sequence is
/// raised by one, created on first use so that its first id is 1.
pub fn get_next_id_for_collection(counters: &mut Counters, collection_name: &str) -> (r: Result<
    i64,
    DbError,
>)
    requires
        old(counters).wf(),
    ensures
        final(counters).wf(),
        match first_id_issued(old(counters).value(collection_name@), 1) {
            Some(id) => r == Ok::<i64, DbError>(id as i64),
            None => r == Err::<i64, DbError>(DbError::IdSpaceExhausted),
        },
        final(counters).value(collection_name@) == sequence_after(
            old(counters).value(collection_name@),
            1,
        ),
        forall|n: Seq<char>|
            n != collection_name@ ==> final(counters).value(n) == old(counters).value(n),
{
    get_next_id_range_for_collection(counters, collection_name, 1)
}

/// Reserves `count` consecutive ids of the sequence `collection_name` and
/// returns the first; the reserved ids are `first ..= first + count - 1`.
pub fn get_next_id_range_for_collection(
    counters: &mut Counters,
    collection_name: &str,
    count: i64,
) -> (r: Result<i64, DbError>)
    requires
        old(counters).wf(),
    ensures
        final(counters).wf(),
        match first_id_issued(old(counters).value(collection_name@), count as int) {
            Some(id) => r == Ok::<i64, DbError>(id as i64),
            None => r == Err::<i64, DbError>(
                if count <= 0 {
                    DbError::InvalidCount
                } else {
                    DbError::IdSpaceExhausted
                },
            ),
        },
        final(counters).value(collection_name@) == sequence_after(
            old(counters).value(collection_name@),
            count as int,
        ),
        forall|n: Seq<char>|
            n != collection_name@ ==> final(counters).value(n) == old(counters).value(n),
{
    if count <= 0 {
        return Err(DbError::InvalidCount);
    }
    let current = counters.current(collection_name);
    if current > i64::MAX - count {
        return Err(DbError::IdSpaceExhausted);
    }
    let last = counters.raise(collection_name, count);
    Ok(last - count + 1)
}

/// On a fresh sequence, a request for `count` ids hands out `1 ..= count`,
/// and the next single id after it is `count + 1`.
pub proof fn lemma_fresh_range_then_next(count: int)
    requires
        0 < count < i64::MAX,
    ensures
        first_id_issued(0, count) == Some(1int),
        first_id_issued(sequence_after(0, count), 1) == Some(count + 1),
{
}

/// The id ranges, as `(first, last)`, that successive requests for
/// `counts[0]`, `counts[1]`, ... ids hand out from a sequence at `seq`.
pub open spec fn issued_ranges(seq: int, counts: Seq<int>) -> Seq<(int, int)>
    decreases counts.len(),
{
    if counts.len() == 0 {
        Seq::empty()
    } else {
        let head = match first_id_issued(seq, counts[0]) {
            Some(first) => (first, first + counts[0] - 1),
            None => (seq + 1, seq),
        };
        seq![head] + issued_ranges(sequence_after(seq, counts[0]), counts.drop_first())
    }
}

/// The sum of the requested counts.
pub open spec fn total_count(counts: Seq<int>) -> int
    decreases counts.len(),
{
    if counts.len() == 0 {
        0
    } else {
        counts[0] + total_count(counts.drop_first())
    }
}

/// Successive requests on one sequence (single ids being requests for one)
/// never hand out an id twice and leave no gap: each range holds exactly the
/// ids requested, starts right after the previous one, and together they
/// cover `seq + 1 ..= seq + total`.
pub proof fn lemma_issued_ranges_disjoint(seq: int, counts: Seq<int>)
    requires
        seq >= 0,
        forall|k: int| 0 <= k < counts.len() ==> counts[k] > 0,
        seq + total_count(counts) <= i64::MAX,
    ensures
        issued_ranges(seq, counts).len() == counts.len(),
        forall|k: int|
            0 <= k < counts.len() ==> #[trigger] issued_ranges(seq, counts)[k].1
                - issued_ranges(seq, counts)[k].0 + 1 == counts[k],
        counts.len() > 0 ==> issued_ranges(seq, counts)[0].0 == seq + 1,
        counts.len() > 0 ==> issued_ranges(seq, counts)[counts.len() - 1].1 == seq + total_count(
            counts,
        ),
        forall|k: int|
            0 <= k < counts.len() - 1 ==> #[trigger] issued_ranges(seq, counts)[k + 1].0
                == issued_ranges(seq, counts)[k].1 + 1,
        forall|j: int, k: int|
            0 <= j < k < counts.len() ==> #[trigger] issued_ranges(seq, counts)[j].1
                < #[trigger] issued_ranges(seq, counts)[k].0,
    decreases counts.len(),
{
    if counts.len() > 0 {
        let rest = counts.drop_first();
        let next = seq + counts[0];
        assert forall|k: int| 0 <= k < rest.len() implies rest[k] > 0 by {
            assert(rest[k] == counts[k + 1]);
        }
        lemma_total_count_nonnegative(rest);
        lemma_issued_ranges_disjoint(next, rest);
        let r = issued_ranges(seq, counts);
        let tail = issued_ranges(next, rest);
        assert(first_id_issued(seq, counts[0]) == Some(seq + 1));
        assert(sequence_after(seq, counts[0]) == next);
        assert forall|k: int| 0 < k < counts.len() implies r[k] == tail[k - 1] by {}
        assert forall|k: int| 0 <= k < counts.len() - 1 implies #[trigger] r[k + 1].0 == r[k].1 + 1 by {
            if k > 0 {
                assert(r[k] == tail[k - 1]);
                assert(r[k + 1] == tail[k]);
            }
        }
        assert forall|k: int| 0 <= k < counts.len() implies r[k].0 >= seq + 1 && r[k].1 >= r[k].0 by {
            if k > 0 {
                assert(r[k] == tail[k - 1]);
                lemma_ranges_start_after(next, rest, k - 1);
            }
        }
        assert forall|j: int, k: int| 0 <= j < k < counts.len() implies #[trigger] r[j].1
            < #[trigger] r[k].0 by {
            if j == 0 {
                assert(r[k] == tail[k - 1]);
                lemma_ranges_start_after(next, rest, k - 1);
            } else {
                assert(r[j] == tail[j - 1]);
                assert(r[k] == tail[k - 1]);
            }
        }
    }
}

proof fn lemma_total_count_nonnegative(counts: Seq<int>)
    requires
        forall|k: int| 0 <= k < counts.len() ==> counts[k] > 0,
    ensures
        total_count(counts) >= 0,
    decreases counts.len(),
{
    if counts.len() > 0 {
        let rest = counts.drop_first();
        assert forall|k: int| 0 <= k < rest.len() implies rest[k] > 0 by {
            assert(rest[k] == counts[k + 1]);
        }
        lemma_total_count_nonnegative(rest);
    }
}

proof fn lemma_issued_ranges_len(seq: int, counts: Seq<int>)
    ensures
        issued_ranges(seq, counts).len() == counts.len(),
    decreases counts.len(),
{
    if counts.len() > 0 {
        lemma_issued_ranges_len(sequence_after(seq, counts[0]), counts.drop_first());
    }
}

proof fn lemma_ranges_start_after(seq: int, counts: Seq<int>, k: int)
    requires
        seq >= 0,
        forall|i: int| 0 <= i < counts.len() ==> counts[i] > 0,
        seq + total_count(counts) <= i64::MAX,
        0 <= k < counts.len(),
    ensures
        issued_ranges(seq, counts)[k].0 >= seq + 1,
        issued_ranges(seq, counts)[k].1 >= issued_ranges(seq, counts)[k].0,
    decreases counts.len(),
{
    let rest = counts.drop_first();
    assert forall|i: int| 0 <= i < rest.len() implies rest[i] > 0 by {
        assert(rest[i] == counts[i + 1]);
    }
    lemma_total_count_nonnegative(rest);
    assert(first_id_issued(seq, counts[0]) == Some(seq + 1));
    if k > 0 {
        lemma_issued_ranges_len(seq + counts[0], rest);
        lemma_ranges_start_after(seq + counts[0], rest, k - 1);
        assert(issued_ranges(seq, counts)[k] == issued_ranges(seq + counts[0], rest)[k - 1]);
    }
}

impl Counters {
    /// The value of the sequence `name`.
    pub fn current(&self, name: &str) -> (r: i64)
        requires
            self.wf(),
        ensures
            r == self.value(name@),
            r >= 0,
    {
        proof {
            self.lemma_value_nonnegative(name@);
        }
        match self.position(name) {
            Some(i) => {
                assert(self.values@[self.sequences@[i as int].name@] == self.sequences@[i as int].seq);
                self.sequences[i].seq
            },
            None => 0,
        }
    }
}

/// The first id of a range of `count` ids, given the value that the sequence
/// reached once raised by `count`; `None` where `count` is not positive or the
/// sequence value cannot have been raised by `count` from zero or more.
pub fn first_id_of_range(final_seq: i64, count: i64) -> (r: Option<i64>)
    ensures
        r == (if 0 < count <= final_seq {
            Some((final_seq - count + 1) as i64)
        } else {
            None::<i64>
        }),
{
    if 0 < count && count <= final_seq {
        Some(final_seq - count + 1)
    } else {
        None
    }
}

} // verus!
