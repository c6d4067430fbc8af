//! The cache flush protocol: drain, deliver in order, clear only on
//! full success.
//!
//! A `Flush` hands the drained records to the driver one at a time, in
//! file order and with their original timestamps; the driver reports
//! each successful remote write back with `ack`.  The cache file may be
//! deleted only once `is_complete` returns true, so a write failure
//! partway leaves every record still on disk — delivery is at least
//! once, never lossy.

use vstd::prelude::*;
use crate::codec::views_of;
use crate::record::{LogRecord, RecordView};

verus! {

/// A cache flush in progress.
pub struct Flush {
    records: Vec<LogRecord>,
    sent: usize,
}

impl Flush {
    /// All drained records, in cache file order.
    pub closed spec fn all(self) -> Seq<RecordView> {
        views_of(self.records@)
    }

    /// The records already acknowledged as written to the remote sink.
    pub closed spec fn delivered(self) -> Seq<RecordView> {
        self.all().take(self.sent as int)
    }

    /// The records still awaiting delivery.
    pub closed spec fn pending(self) -> Seq<RecordView> {
        self.all().skip(self.sent as int)
    }

    /// No more records are acknowledged than were drained.
    pub closed spec fn wf(self) -> bool {
        self.sent <= self.records@.len()
    }

    /// Starts a flush over the records drained from the cache file.
    pub fn begin(records: Vec<LogRecord>) -> (f: Flush)
        ensures
            f.wf(),
            f.all() == views_of(records@),
            f.delivered() == Seq::<RecordView>::empty(),
            f.pending() == f.all(),
    {
        let f = Flush { records, sent: 0 };
        proof {
            assert(f.all().take(0) =~= Seq::<RecordView>::empty());
            assert(f.all().skip(0) =~= f.all());
        }
        f
    }

    /// The next record to write to the remote sink, if any is pending.
    pub fn next(&self) -> (r: Option<&LogRecord>)
        requires
            self.wf(),
        ensures
            r is Some <==> self.pending().len() > 0,
            r matches Some(rec) ==> rec@ == self.pending()[0],
    {
        if self.sent < self.records.len() {
            Some(&self.records[self.sent])
        } else {
            None
        }
    }

    /// Records that the pending head was durably written to the sink.
    pub fn ack(&mut self)
        requires
            old(self).wf(),
            old(self).pending().len() > 0,
        ensures
            final(self).wf(),
            final(self).all() == old(self).all(),
            final(self).delivered() == old(self).delivered().push(old(self).pending()[0]),
            final(self).pending() == old(self).pending().skip(1),
    {
        let n = self.records.len();
        proof {
            assert(self.all().len() == self.records@.len());
            assert(self.sent < n);
            assert(self.all().take(self.sent + 1) =~= self.all().take(self.sent as int).push(
                self.all().skip(self.sent as int)[0],
            ));
            assert(self.all().skip(self.sent + 1) =~= self.all().skip(self.sent as int).skip(1));
        }
        self.sent = self.sent + 1;
    }

    /// True exactly when every drained record was acknowledged; only
    /// then may the cache file be deleted.
    pub fn is_complete(&self) -> (b: bool)
        requires
            self.wf(),
        ensures
            b <==> self.pending().len() == 0,
    {
        self.sent == self.records.len()
    }
}

/// Law: a flush acknowledged to completion has delivered every drained
/// record — in cache order, each with its original timestamp, since the
/// timestamp is a field of the record handed out.
pub proof fn lemma_flush_complete(f: Flush)
    requires
        f.wf(),
        f.pending().len() == 0,
    ensures
        f.delivered() == f.all(),
{
    assert(f.delivered() =~= f.all());
}

/// Law: at any point of a flush, the drained records split into the
/// delivered prefix and the pending tail; so when delivery stops
/// partway, the records not yet acknowledged are exactly the unflushed
/// tail, still on disk because the file is only deleted on completion.
pub proof fn lemma_flush_partial(f: Flush)
    requires
        f.wf(),
    ensures
        f.all() == f.delivered() + f.pending(),
{
    assert(f.delivered() + f.pending() =~= f.all());
}

} // verus!
