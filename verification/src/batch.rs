//! One worker's batch accumulation.
//!
//! Each worker of the pool owns one `Batcher`. Records received from the
//! relay accumulate until the configured batch size is reached, at which
//! point the full batch is handed back for writing and the buffer starts
//! empty again. When the relay closes, whatever partial batch remains is
//! drained and written as the worker's last batch.

use vstd::prelude::*;
use crate::record::RawRecord;

verus! {

/// The default number of records a worker accumulates before flushing.
pub const PG_BATCH_SIZE: usize = 1250;

/// The default number of concurrent writer workers.
pub const NUM_PG_WORKERS: usize = 2;

/// The default capacity of the relay between the scanner and the workers.
pub const RELAY_CAPACITY: usize = 1000000;

/// One worker's accumulation buffer.
pub struct Batcher {
    buf: Vec<RawRecord>,
    batch_size: usize,
}

impl View for Batcher {
    type V = Seq<RawRecord>;

    closed spec fn view(&self) -> Seq<RawRecord> {
        self.buf@
    }
}

impl Batcher {
    /// The batch size this worker flushes at.
    pub closed spec fn spec_batch_size(&self) -> int {
        self.batch_size as int
    }

    /// A fresh, empty accumulation buffer.
    pub fn new(batch_size: usize) -> (b: Batcher)
        requires
            1 <= batch_size,
        ensures
            b@ =~= Seq::<RawRecord>::empty(),
            b.spec_batch_size() == batch_size as int,
    {
        Batcher { buf: Vec::new(), batch_size }
    }

    /// Fewer records are buffered than one full batch.
    pub open spec fn wf(&self) -> bool {
        self@.len() < self.spec_batch_size()
    }

    /// Receives one record from the relay. Exactly when the buffer reaches
    /// the configured size, the full batch is returned and the buffer is
    /// empty again; otherwise the record is only buffered.
    pub fn push(&mut self, rec: RawRecord) -> (flushed: Option<Vec<RawRecord>>)
        requires
            old(self).wf(),
        ensures
            final(self).spec_batch_size() == old(self).spec_batch_size(),
            final(self).wf(),
            old(self)@.len() + 1 == old(self).spec_batch_size() ==> (flushed matches Some(v)
                && v@ == old(self)@.push(rec) && final(self)@ =~= Seq::<RawRecord>::empty()),
            old(self)@.len() + 1 < old(self).spec_batch_size() ==> flushed is None
                && final(self)@ == old(self)@.push(rec),
    {
        self.buf.push(rec);
        if self.buf.len() >= self.batch_size {
            let mut full: Vec<RawRecord> = Vec::new();
            core::mem::swap(&mut full, &mut self.buf);
            Some(full)
        } else {
            None
        }
    }

    /// Drains the partial batch left when the relay closes. The caller
    /// writes it if and only if it is not empty.
    pub fn finish(self) -> (rest: Vec<RawRecord>)
        ensures
            rest@ == self@,
    {
        self.buf
    }
}

} // verus!
