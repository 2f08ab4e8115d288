//! The storage contract: the abstract capability to fetch a slot by its
//! time key and to persist a slot's new state, together with an in-memory
//! implementation that serves as the test substitute for a real database
//! adapter.

use vstd::prelude::*;

use crate::hour::{Hour, HourView, Timestamp};

verus! {

/// A transient or permanent failure of the storage backend.
#[derive(Clone, Copy, Debug, PartialEq, Eq, Structural)]
pub enum StorageError {
    /// The backend was unreachable or rejected the operation.
    Backend,
}

/// Abstract capability to fetch a slot by its time key and to persist a
/// slot's new state.  The durable records are modelled as a map from time
/// keys to slot states; a fetch may always fail with a storage error, but
/// what it returns on success is tied to that map, and a successful save
/// overwrites the record for the slot's key (last write wins).
pub trait HourRepository {
    /// The durable records, keyed by each slot's time.
    spec fn slots(&self) -> Map<Timestamp, HourView>;

    /// Returns the slot stored for the exact time key, or `None` when no
    /// record exists for it.
    fn get_by_time(&self, time: Timestamp) -> (r: Result<Option<Hour>, StorageError>)
        ensures
            r matches Ok(Some(h)) ==> self.slots().contains_key(time) && h@ == self.slots()[time]
                && h@.time == time,
            r matches Ok(None) ==> !self.slots().contains_key(time),
    ;

    /// Persists the full slot value, keyed by its time.  On success any
    /// prior record for that key is overwritten; on failure no write is
    /// visible.
    fn save(&mut self, hour: Hour) -> (r: Result<(), StorageError>)
        ensures
            r is Ok ==> final(self).slots() == old(self).slots().insert(hour@.time, hour@),
            r is Err ==> final(self).slots() == old(self).slots(),
    ;
}

/// The records of an append-only log, as a map: the latest record for a
/// time key wins.
spec fn slots_of(s: Seq<Hour>) -> Map<Timestamp, HourView>
    decreases s.len(),
{
    if s.len() == 0 {
        Map::empty()
    } else {
        slots_of(s.drop_last()).insert(s.last()@.time, s.last()@)
    }
}

proof fn lemma_slots_of_last_match(s: Seq<Hour>, time: Timestamp, k: int)
    requires
        0 <= k < s.len(),
        s[k]@.time == time,
        forall|j: int| k < j < s.len() ==> s[j]@.time != time,
    ensures
        slots_of(s).contains_key(time),
        slots_of(s)[time] == s[k]@,
    decreases s.len(),
{
    if k < s.len() - 1 {
        assert forall|j: int| k < j < s.drop_last().len() implies s.drop_last()[j]@.time != time by {
            assert(s.drop_last()[j] == s[j]);
        }
        assert(s.drop_last()[k] == s[k]);
        lemma_slots_of_last_match(s.drop_last(), time, k);
    }
}

proof fn lemma_slots_of_no_match(s: Seq<Hour>, time: Timestamp)
    requires
        forall|j: int| 0 <= j < s.len() ==> s[j]@.time != time,
    ensures
        !slots_of(s).contains_key(time),
    decreases s.len(),
{
    if s.len() > 0 {
        assert forall|j: int| 0 <= j < s.drop_last().len() implies s.drop_last()[j]@.time != time by {
            assert(s.drop_last()[j] == s[j]);
        }
        lemma_slots_of_no_match(s.drop_last(), time);
    }
}

/// An in-memory slot store: an append-only log of records where the
/// latest record for a time key wins.  It is the test substitute for a
/// real database adapter; storage failures can be injected.
pub struct InMemoryHourRepository {
    records: Vec<Hour>,
    fail_get: bool,
    fail_save: bool,
}

impl InMemoryHourRepository {
    /// An empty store that answers every call successfully.
    pub fn new() -> (r: Self)
        ensures
            r.slots() == Map::<Timestamp, HourView>::empty(),
            !r.failing_get(),
            !r.failing_save(),
    {
        Self { records: Vec::new(), fail_get: false, fail_save: false }
    }

    /// Whether fetches are currently set to fail.
    pub closed spec fn failing_get(&self) -> bool {
        self.fail_get
    }

    /// Whether saves are currently set to fail.
    pub closed spec fn failing_save(&self) -> bool {
        self.fail_save
    }

    /// Makes every following fetch fail, to exercise storage failures.
    pub fn set_fail_get(&mut self, fail: bool)
        ensures
            final(self).slots() == old(self).slots(),
            final(self).failing_get() == fail,
            final(self).failing_save() == old(self).failing_save(),
    {
        self.fail_get = fail;
    }

    /// Makes every following save fail, to exercise storage failures.
    pub fn set_fail_save(&mut self, fail: bool)
        ensures
            final(self).slots() == old(self).slots(),
            final(self).failing_get() == old(self).failing_get(),
            final(self).failing_save() == fail,
    {
        self.fail_save = fail;
    }
}

impl HourRepository for InMemoryHourRepository {
    closed spec fn slots(&self) -> Map<Timestamp, HourView> {
        slots_of(self.records@)
    }

    fn get_by_time(&self, time: Timestamp) -> (r: Result<Option<Hour>, StorageError>)
        ensures
            self.failing_get() ==> r is Err,
            !self.failing_get() && self.slots().contains_key(time) ==> (r matches Ok(Some(h))
                && h@ == self.slots()[time]),
            !self.failing_get() && !self.slots().contains_key(time) ==> r == Ok::<
                Option<Hour>,
                StorageError,
            >(None),
    {
        if self.fail_get {
            return Err(StorageError::Backend);
        }
        let n = self.records.len();
        let mut i: usize = n;
        while i > 0
            invariant
                !self.failing_get(),
                i <= n,
                n == self.records@.len(),
                forall|j: int| i <= j < n ==> self.records@[j]@.time != time,
            decreases i,
        {
            i = i - 1;
            let candidate = self.records[i];
            if candidate.time() == time {
                proof {
                    lemma_slots_of_last_match(self.records@, time, i as int);
                }
                return Ok(Some(candidate));
            }
        }
        proof {
            lemma_slots_of_no_match(self.records@, time);
        }
        Ok(None)
    }

    fn save(&mut self, hour: Hour) -> (r: Result<(), StorageError>)
        ensures
            old(self).failing_save() ==> r is Err,
            !old(self).failing_save() ==> r is Ok,
            final(self).failing_get() == old(self).failing_get(),
            final(self).failing_save() == old(self).failing_save(),
    {
        if self.fail_save {
            return Err(StorageError::Backend);
        }
        let ghost before = self.records@;
        self.records.push(hour);
        proof {
            assert(self.records@.drop_last() =~= before);
        }
        Ok(())
    }
}

} // verus!
