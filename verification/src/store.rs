//! The job store: the persisted record of job ids and their stages.
//!
//! The store is the single source of truth for job state.  It assigns
//! ids at creation, starting at 1 and counting up, so an id refers to
//! exactly one job for the lifetime of the store.  Each status write is
//! an independent, immediately visible commit; readers observe whatever
//! value was last committed.

use vstd::prelude::*;

use crate::stage::Stage;

verus! {

/// Why a store operation failed: the queried id was never issued.
#[derive(Clone, Copy, Debug, PartialEq, Eq, Structural)]
pub enum StoreError {
    NotFound,
}

/// The table of job records.  The job with id `k` (ids start at 1) has
/// its current stage in the `k - 1`th slot of the view.
pub struct JobStore {
    statuses: Vec<Stage>,
}

impl View for JobStore {
    type V = Seq<Stage>;

    closed spec fn view(&self) -> Seq<Stage> {
        self.statuses@
    }
}

impl JobStore {
    /// The store has issued `id`: some creation returned it.
    pub open spec fn issued(self, id: int) -> bool {
        1 <= id <= self@.len()
    }

    /// The stage last committed for the job with id `id`.
    pub open spec fn status_of(self, id: int) -> Stage {
        self@[id - 1]
    }

    /// An empty store, with no id issued.
    pub fn new() -> (s: JobStore)
        ensures
            s@ =~= Seq::<Stage>::empty(),
    {
        JobStore { statuses: Vec::new() }
    }

    /// Inserts a new job with initial status `Selecting` and returns
    /// the assigned id: one more than every id issued before, so fresh
    /// and strictly above them all.
    pub fn create_job(&mut self) -> (id: i32)
        requires
            old(self)@.len() < i32::MAX,
        ensures
            id as int == old(self)@.len() + 1,
            !old(self).issued(id as int),
            final(self)@ =~= old(self)@.push(Stage::Selecting),
            final(self).issued(id as int),
            final(self).status_of(id as int) == Stage::Selecting,
            forall|j: int|
                old(self).issued(j) ==> final(self).issued(j) && final(self).status_of(j)
                    == old(self).status_of(j),
    {
        let id: i32 = (self.statuses.len() + 1) as i32;
        self.statuses.push(Stage::Selecting);
        id
    }

    /// Overwrites the stored status for `id`; fails with `NotFound`,
    /// and changes nothing, exactly when `id` was never issued.
    pub fn set_status(&mut self, id: i32, status: Stage) -> (r: Result<(), StoreError>)
        ensures
            match r {
                Ok(u) => old(self).issued(id as int) && final(self)@ =~= old(self)@.update(
                    id - 1,
                    status,
                ),
                Err(e) => e == StoreError::NotFound && !old(self).issued(id as int)
                    && final(self)@ =~= old(self)@,
            },
    {
        if 1 <= id && id as usize <= self.statuses.len() {
            self.statuses.set((id - 1) as usize, status);
            Ok(())
        } else {
            Err(StoreError::NotFound)
        }
    }

    /// Returns the current status for `id`; fails with `NotFound`
    /// exactly when `id` was never issued.
    pub fn get_status(&self, id: i32) -> (r: Result<Stage, StoreError>)
        ensures
            match r {
                Ok(s) => self.issued(id as int) && s == self.status_of(id as int),
                Err(e) => e == StoreError::NotFound && !self.issued(id as int),
            },
    {
        if 1 <= id && id as usize <= self.statuses.len() {
            Ok(self.statuses[(id - 1) as usize])
        } else {
            Err(StoreError::NotFound)
        }
    }

    /// Creates `n` jobs in a row and returns their ids.  Concurrent
    /// submissions serialize at the store, one atomic creation each, so
    /// any interleaving of `n` submissions is some such row: the `n`
    /// ids handed out are pairwise distinct, and every job starts at
    /// `Selecting` while no older record changes.
    pub fn create_jobs(&mut self, n: usize) -> (ids: Vec<i32>)
        requires
            old(self)@.len() + n <= i32::MAX,
        ensures
            ids@.len() == n,
            forall|i: int, j: int| 0 <= i < j < n ==> ids@[i] != ids@[j],
            forall|i: int|
                0 <= i < n ==> ids@[i] as int == old(self)@.len() + i + 1 && final(self).issued(
                    ids@[i] as int,
                ) && final(self).status_of(ids@[i] as int) == Stage::Selecting,
            final(self)@.len() == old(self)@.len() + n,
            forall|j: int|
                old(self).issued(j) ==> final(self).issued(j) && final(self).status_of(j) == old(
                    self,
                ).status_of(j),
    {
        let mut ids: Vec<i32> = Vec::new();
        let mut k: usize = 0;
        while k < n
            invariant
                k <= n,
                old(self)@.len() + n <= i32::MAX,
                ids@.len() == k,
                self@.len() == old(self)@.len() + k,
                forall|i: int| 0 <= i < k ==> ids@[i] as int == old(self)@.len() + i + 1,
                forall|i: int|
                    0 <= i < k ==> self.issued(ids@[i] as int) && self.status_of(ids@[i] as int)
                        == Stage::Selecting,
                forall|j: int|
                    old(self).issued(j) ==> self.issued(j) && self.status_of(j) == old(
                        self,
                    ).status_of(j),
            decreases n - k,
        {
            let id = self.create_job();
            ids.push(id);
            k = k + 1;
        }
        ids
    }

    /// How many jobs the store holds.
    pub fn len(&self) -> (n: usize)
        ensures
            n == self@.len(),
    {
        self.statuses.len()
    }
}

} // verus!
