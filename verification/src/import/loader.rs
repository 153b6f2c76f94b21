//! The loader that saves imported records in batches.

use vstd::prelude::*;
use super::{LoadError, Loader};
use crate::database::{Database, DatabaseError};
use crate::history::model::{history_views, History, HistoryView};

verus! {

/// The number of records that are gathered before they are saved together.
pub const BATCH_SIZE: usize = 1000;

/// A loader that gathers the records it is given and saves them to a store in batches, so
/// that one transaction serves many records.
pub struct HistoryLoader<'a, D: Database> {
    buf: Vec<History>,
    db: &'a mut D,
    count: usize,
    taken: Ghost<Seq<HistoryView>>,
}

impl<'a, D: Database> HistoryLoader<'a, D> {
    /// The records that wait to be saved.
    pub closed spec fn pending(&self) -> Seq<History> {
        self.buf@
    }

    /// The number of records that were saved.
    pub closed spec fn saved(&self) -> nat {
        self.count as nat
    }

    /// Whether the records that were taken are the saved ones followed by those that wait,
    /// no more records wait than make a batch, and the count of the saved ones has room for
    /// those that wait.
    pub closed spec fn well_formed(&self) -> bool {
        &&& self.buf@.len() <= BATCH_SIZE
        &&& self.count + self.buf@.len() <= usize::MAX
        &&& self.taken@.len() == self.count + self.buf@.len()
        &&& self.taken@.skip(self.count as int) == history_views(self.buf@)
    }

    /// Whether the loader can take one record more: fewer records wait than make a batch,
    /// and the count of the saved ones has room for one more.
    pub open spec fn has_room(&self) -> bool {
        self.pending().len() < BATCH_SIZE && self.saved() + self.pending().len() < usize::MAX
    }

    /// In a well-formed loader the records that wait are the last that were taken.
    pub proof fn lemma_pending_are_the_last_taken(&self)
        requires
            self.well_formed(),
        ensures
            self.pending().len() <= BATCH_SIZE,
            self.received().len() == self.saved() + self.pending().len(),
            self.received().skip(self.saved() as int) == history_views(self.pending()),
    {
    }

    /// A loader for the store `db` that has seen no record yet.
    pub fn new(db: &'a mut D) -> (loader: Self)
        ensures
            loader.well_formed(),
            loader.received() == Seq::<HistoryView>::empty(),
            loader.pending() == Seq::<History>::empty(),
            loader.saved() == 0,
    {
        let loader = HistoryLoader { buf: Vec::new(), db, count: 0, taken: Ghost(Seq::empty()) };
        assert(loader.taken@.skip(0) =~= history_views(loader.buf@));
        loader
    }

    /// The number of records that were saved.
    pub fn count(&self) -> (n: usize)
        ensures
            n == self.saved(),
    {
        self.count
    }

    /// Saves the records that wait, all of them or none, in one call of the store. Where
    /// none waits, the store is not asked.
    fn save_pending(&mut self) -> (flushed: Result<(), DatabaseError>)
        requires
            old(self).count + old(self).buf@.len() <= usize::MAX,
        ensures
            final(self).taken@ == old(self).taken@,
            old(self).buf@.len() == 0 ==> flushed is Ok,
            flushed is Ok ==> final(self).buf@ == Seq::<History>::empty(),
            flushed is Ok ==> final(self).count == old(self).count + old(self).buf@.len(),
            flushed is Err ==> final(self).buf@ == old(self).buf@,
            flushed is Err ==> final(self).count == old(self).count,
    {
        if self.buf.len() > 0 {
            match self.db.save_bulk(self.buf.as_slice()) {
                Ok(_) => {},
                Err(e) => {
                    return Err(e);
                },
            }
        }
        self.count = self.count + self.buf.len();
        self.buf.clear();
        Ok(())
    }

    /// Saves the records that wait, all of them or none. Where none waits, the store is not
    /// asked and the result is `Ok`. After success none waits and the count has grown by
    /// their number; after an error they still wait and the count is as it was.
    pub fn flush(&mut self) -> (flushed: Result<(), DatabaseError>)
        requires
            old(self).well_formed(),
        ensures
            final(self).well_formed(),
            final(self).received() == old(self).received(),
            old(self).pending().len() == 0 ==> flushed is Ok,
            flushed is Ok ==> final(self).pending() == Seq::<History>::empty(),
            flushed is Ok ==> final(self).saved() == old(self).saved() + old(self).pending().len(),
            flushed is Err ==> final(self).pending() == old(self).pending(),
            flushed is Err ==> final(self).saved() == old(self).saved(),
    {
        let flushed = self.save_pending();
        proof {
            if flushed is Ok {
                assert(self.taken@.skip(self.count as int) =~= history_views(self.buf@));
            }
        }
        flushed
    }
}

impl<'a, D: Database> Loader for HistoryLoader<'a, D> {
    closed spec fn received(&self) -> Seq<HistoryView> {
        self.taken@
    }

    /// Takes one record, or refuses it.
    ///
    /// A loader without room refuses the record. Else the record joins those that wait.
    /// Where they make no full batch yet, that is all and the result is `Ok`. Where they
    /// make a full batch, the batch is saved at once: after success none waits and the
    /// count has grown by the batch; where the store refuses the batch, the record is
    /// refused with it and the records before it keep waiting. A loader that refuses a
    /// record stays as it was.
    fn push(&mut self, hist: History) -> (pushed: Result<(), LoadError>)
        ensures
            old(self).well_formed() ==> final(self).well_formed(),
            !old(self).has_room() ==> pushed is Err,
            old(self).has_room() && old(self).pending().len() + 1 < BATCH_SIZE ==> pushed is Ok,
            pushed is Err ==> final(self).pending() == old(self).pending(),
            pushed is Err ==> final(self).saved() == old(self).saved(),
            pushed is Ok && old(self).pending().len() + 1 < BATCH_SIZE ==> final(self).pending()
                == old(self).pending().push(hist),
            pushed is Ok && old(self).pending().len() + 1 < BATCH_SIZE ==> final(self).saved()
                == old(self).saved(),
            pushed is Ok && old(self).pending().len() + 1 >= BATCH_SIZE
                ==> final(self).pending() == Seq::<History>::empty(),
            pushed is Ok && old(self).pending().len() + 1 >= BATCH_SIZE ==> final(self).saved()
                == old(self).saved() + old(self).pending().len() + 1,
    {
        if self.buf.len() >= BATCH_SIZE || self.count >= usize::MAX - self.buf.len() {
            return Err(LoadError);
        }
        let ghost before = self.buf@;
        let ghost view = hist@;
        self.buf.push(hist);
        if self.buf.len() == BATCH_SIZE {
            match self.save_pending() {
                Ok(()) => {},
                Err(_) => {
                    let _ = self.buf.pop();
                    assert(self.buf@ =~= before);
                    return Err(LoadError);
                },
            }
        }
        self.taken = Ghost(self.taken@.push(view));
        proof {
            if old(self).well_formed() {
                if self.buf@.len() == 0 {
                    assert(self.taken@.skip(self.count as int) =~= history_views(self.buf@));
                } else {
                    assert(history_views(self.buf@) =~= history_views(before).push(view));
                    assert(self.taken@.skip(self.count as int) =~= history_views(self.buf@));
                }
            }
        }
        Ok(())
    }
}

} // verus!
