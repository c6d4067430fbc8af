//! The tick state machine of the main loop, the dual-path logging
//! facade, and the store model with the no-loss law.
//!
//! The loop ticks on a fixed interval.  Each tick probes connectivity
//! and asks `Engine::on_tick` what to do: skip while offline (recording
//! the transition once), flush the cache first when coming back online,
//! or go straight to the update attempt.

use vstd::prelude::*;
use crate::codec::{encode_entry, entry_spec};
use crate::record::{LogRecord, RecordView};

verus! {

/// Which store receives a freshly produced log record.
#[derive(Debug, PartialEq, Eq, Structural)]
pub enum SinkChoice {
    Cache,
    Remote,
}

/// The branching policy of the dual-path write, separated from the I/O:
/// offline records are cached locally, online records go to the remote
/// sink.
pub fn decide_sink(online: bool) -> (s: SinkChoice)
    ensures
        s == (if online {
            SinkChoice::Remote
        } else {
            SinkChoice::Cache
        }),
{
    if online {
        SinkChoice::Remote
    } else {
        SinkChoice::Cache
    }
}

/// Where the logging facade sends one record: either the rendered cache
/// line to append to the cache file, or the record to write remotely.
pub enum LogRoute {
    ToCache(String),
    ToRemote(LogRecord),
}

/// The dual-path write of the logging facade: offline, the record
/// becomes one cache file line; online, it goes to the remote sink
/// unchanged.  A failed remote write is reported by the driver, never
/// silently redirected to the cache.
pub fn route_log(online: bool, record: LogRecord) -> (r: LogRoute)
    requires
        !online ==> record@.cache_safe(),
    ensures
        online ==> (r matches LogRoute::ToRemote(rec) && rec == record),
        !online ==> (r matches LogRoute::ToCache(line) && line@ == entry_spec(record@)),
{
    if online {
        LogRoute::ToRemote(record)
    } else {
        LogRoute::ToCache(encode_entry(&record))
    }
}

/// What an update attempt concluded.
#[derive(Clone, Debug, PartialEq, Eq)]
pub enum UpdateOutcome {
    /// A newer build was installed; the field is its version.
    Updated(String),
    /// The release source holds nothing newer.
    NoChange,
    /// Every allowed call failed; the field is the terminal error.
    Failed(String),
}

/// The per-tick instruction handed to the driver loop.
#[derive(Clone, Copy, Debug, PartialEq, Eq, Structural)]
pub enum TickPlan {
    /// First offline tick: record the transition once, skip the update.
    GoOffline,
    /// Still offline: nothing to do, skip the update.
    StayOffline,
    /// Back online: flush the cache, then attempt the update.
    FlushThenUpdate,
    /// Online steady state: attempt the update.
    UpdateOnly,
}

/// The plan a tick follows, given the offline flag and the probe result.
pub open spec fn plan_spec(was_offline: bool, online: bool) -> TickPlan {
    if !online {
        if was_offline {
            TickPlan::StayOffline
        } else {
            TickPlan::GoOffline
        }
    } else {
        if was_offline {
            TickPlan::FlushThenUpdate
        } else {
            TickPlan::UpdateOnly
        }
    }
}

/// The plan calls for an update attempt.
pub open spec fn is_update_plan(p: TickPlan) -> bool {
    p == TickPlan::FlushThenUpdate || p == TickPlan::UpdateOnly
}

/// The two-state online/offline machine of the main loop, tracked by
/// the single "was offline" flag.
pub struct Engine {
    was_offline: bool,
}

impl Engine {
    /// The flag: true after an offline tick, false after an online one.
    pub closed spec fn offline_flag(self) -> bool {
        self.was_offline
    }

    /// The initial state assumes the network is up until a probe says
    /// otherwise.
    pub fn new() -> (e: Engine)
        ensures
            !e.offline_flag(),
    {
        Engine { was_offline: false }
    }

    /// Advances the machine by one tick with the probe's answer and
    /// returns the tick's plan.
    pub fn on_tick(&mut self, online: bool) -> (p: TickPlan)
        ensures
            p == plan_spec(old(self).offline_flag(), online),
            final(self).offline_flag() == !online,
    {
        let p = if !online {
            if self.was_offline {
                TickPlan::StayOffline
            } else {
                TickPlan::GoOffline
            }
        } else {
            if self.was_offline {
                TickPlan::FlushThenUpdate
            } else {
                TickPlan::UpdateOnly
            }
        };
        self.was_offline = !online;
        p
    }
}

/// The plans of a run of ticks: each tick follows `plan_spec`, and the
/// flag after a tick is the negation of that tick's probe.
pub open spec fn plans_of(was_offline: bool, probes: Seq<bool>) -> Seq<TickPlan>
    decreases probes.len(),
{
    if probes.len() == 0 {
        Seq::empty()
    } else {
        seq![plan_spec(was_offline, probes[0])] + plans_of(
            !probes[0],
            probes.subrange(1, probes.len() as int),
        )
    }
}

/// How many plans of the run record the offline transition.
pub open spec fn count_transitions(ps: Seq<TickPlan>) -> nat
    decreases ps.len(),
{
    if ps.len() == 0 {
        0
    } else {
        (if ps[0] == TickPlan::GoOffline {
            1nat
        } else {
            0nat
        }) + count_transitions(ps.subrange(1, ps.len() as int))
    }
}

/// Law: while the probe keeps answering offline, no tick of the run
/// plans an update attempt, and the offline transition is recorded
/// exactly once over the whole run — on its first tick if the loop was
/// online before, and not at all if it was already offline.
pub proof fn lemma_offline_run(was_offline: bool, probes: Seq<bool>)
    requires
        forall|i: int| 0 <= i < probes.len() ==> !probes[i],
    ensures
        forall|i: int| 0 <= i < plans_of(was_offline, probes).len() ==> !is_update_plan(
            #[trigger] plans_of(was_offline, probes)[i],
        ),
        count_transitions(plans_of(was_offline, probes)) == (if was_offline || probes.len() == 0 {
            0nat
        } else {
            1nat
        }),
    decreases probes.len(),
{
    if probes.len() > 0 {
        let rest = probes.subrange(1, probes.len() as int);
        lemma_offline_run(true, rest);
        let ps = plans_of(was_offline, probes);
        let ps1 = plans_of(true, rest);
        assert(ps[0] == plan_spec(was_offline, false));
        assert(ps.subrange(1, ps.len() as int) =~= ps1);
        assert(forall|i: int| 1 <= i < ps.len() ==> ps[i] == ps1[i - 1]);
    }
}

/// The two stores as the loop sees them: the records a drain of the
/// cache file would yield, and the records the remote sink holds.
pub struct StoreView {
    pub cache: Seq<RecordView>,
    pub remote: Seq<RecordView>,
}

/// One observable store event of the loop.
pub enum StoreEvent {
    /// A record was appended to the local cache (offline logging).
    Append(RecordView),
    /// A record was written to the remote sink while online; the flag
    /// says whether the write succeeded (a failure is reported and the
    /// record is dropped — the design's accepted gap).
    RemoteWrite(RecordView, bool),
    /// A flush delivered the first `k` drained records to the sink and
    /// deleted the cache file only when all of them went through.
    Flush(nat),
}

/// How one event changes the stores.  A partial flush duplicates its
/// delivered prefix into the sink but leaves the cache file whole, so a
/// later flush can retry: delivery is at least once, never lossy.
pub open spec fn apply_event(s: StoreView, e: StoreEvent) -> StoreView {
    match e {
        StoreEvent::Append(r) => StoreView { cache: s.cache.push(r), remote: s.remote },
        StoreEvent::RemoteWrite(r, ok) => if ok {
            StoreView { cache: s.cache, remote: s.remote.push(r) }
        } else {
            s
        },
        StoreEvent::Flush(k) => if k >= s.cache.len() {
            StoreView { cache: Seq::empty(), remote: s.remote + s.cache }
        } else {
            StoreView { cache: s.cache, remote: s.remote + s.cache.take(k as int) }
        },
    }
}

/// The stores after a run of events.
pub open spec fn apply_events(s: StoreView, es: Seq<StoreEvent>) -> StoreView
    decreases es.len(),
{
    if es.len() == 0 {
        s
    } else {
        apply_events(apply_event(s, es[0]), es.subrange(1, es.len() as int))
    }
}

/// The record is held somewhere: in the cache file or the remote sink.
pub open spec fn holds_record(s: StoreView, r: RecordView) -> bool {
    s.cache.contains(r) || s.remote.contains(r)
}

/// No single event loses a held record.
proof fn lemma_event_keeps_record(s: StoreView, e: StoreEvent, r: RecordView)
    requires
        holds_record(s, r),
    ensures
        holds_record(apply_event(s, e), r),
{
    match e {
        StoreEvent::Append(x) => {
            if s.cache.contains(r) {
                assert(s.cache.push(x).contains(r)) by {
                    let i = s.cache.index_of(r);
                    assert(s.cache.push(x)[i] == r);
                }
            }
        },
        StoreEvent::RemoteWrite(x, ok) => {
            if ok && s.remote.contains(r) {
                assert(s.remote.push(x).contains(r)) by {
                    let i = s.remote.index_of(r);
                    assert(s.remote.push(x)[i] == r);
                }
            }
        },
        StoreEvent::Flush(k) => {
            if k >= s.cache.len() {
                if s.cache.contains(r) {
                    let i = s.cache.index_of(r);
                    assert((s.remote + s.cache)[s.remote.len() + i] == r);
                } else {
                    let i = s.remote.index_of(r);
                    assert((s.remote + s.cache)[i] == r);
                }
            } else {
                if s.remote.contains(r) {
                    let i = s.remote.index_of(r);
                    assert((s.remote + s.cache.take(k as int))[i] == r);
                }
            }
        },
    }
}

/// Law: a record once held in the cache file or the remote sink is held
/// after any further run of store events — appends, online writes,
/// complete or partial flushes.  Together with the acceptance law below
/// this says no accepted log message is ever permanently lost.
pub proof fn lemma_no_record_lost(s: StoreView, es: Seq<StoreEvent>, r: RecordView)
    requires
        holds_record(s, r),
    ensures
        holds_record(apply_events(s, es), r),
    decreases es.len(),
{
    if es.len() > 0 {
        lemma_event_keeps_record(s, es[0], r);
        lemma_no_record_lost(apply_event(s, es[0]), es.subrange(1, es.len() as int), r);
    }
}

/// Law: a record the loop accepts — appended to the cache while
/// offline, or written to the sink with success while online — is held
/// immediately afterwards.  An online write that fails is reported and
/// drops the record; that path accepts nothing.
pub proof fn lemma_accepted_record_held(s: StoreView, e: StoreEvent, r: RecordView)
    requires
        e == StoreEvent::Append(r) || e == StoreEvent::RemoteWrite(r, true),
    ensures
        holds_record(apply_event(s, e), r),
{
    match e {
        StoreEvent::Append(x) => {
            assert(s.cache.push(r)[s.cache.len() as int] == r);
        },
        StoreEvent::RemoteWrite(x, ok) => {
            assert(s.remote.push(r)[s.remote.len() as int] == r);
        },
        StoreEvent::Flush(k) => {},
    }
}

/// Law: a complete flush leaves the cache empty — the file is deleted —
/// and appends every drained record to the remote sink, in cache order,
/// each record carrying its original timestamp.
pub proof fn lemma_complete_flush(s: StoreView)
    ensures
        apply_event(s, StoreEvent::Flush(s.cache.len())).cache == Seq::<RecordView>::empty(),
        apply_event(s, StoreEvent::Flush(s.cache.len())).remote == s.remote + s.cache,
{
}

/// Law: a flush that stops partway never deletes the cache file: the
/// cache keeps every record, so a later drain returns at least the
/// unflushed tail, and the sink gained exactly the delivered prefix.
pub proof fn lemma_partial_flush(s: StoreView, k: nat)
    requires
        k < s.cache.len(),
    ensures
        apply_event(s, StoreEvent::Flush(k)).cache == s.cache,
        apply_event(s, StoreEvent::Flush(k)).remote == s.remote + s.cache.take(k as int),
{
}

} // verus!
