use vstd::prelude::*;

use crate::document::Record;
use crate::record::User;
use crate::normalize::{email_of, malformed_field, normalize_at, normalizes_to, NormalizeError};
use crate::router::{identity_tag, route_error, shape_message, Route};
use crate::store::{backfill_op, backfill_output, make_backfill_op, normalizable, WriteMode, WriteOp};

verus! {

/// How a failed record was routed: a record without identity goes to the log
/// whole, one without contact address to quarantine unchanged, and one with a
/// malformed field to the log under its identity.
pub open spec fn failure_routed(doc: Record, r: Route) -> bool {
    if doc.identity_spec() is None {
        r matches Route::LogRecord { tag, doc: d } && tag@ == "Confused ID"@ && d == doc
    } else if email_of(doc) is None {
        r matches Route::Quarantine { doc: d } && d == doc
    } else {
        r matches Route::Log { tag, message } && tag@ == identity_tag(doc.identity_spec()->0)
            && exists|cause: Seq<char>| malformed_field(doc, cause) && message@ == shape_message(cause)
    }
}

/// Normalizes one record at `now` and routes its failure, if any.
pub fn normalize_or_route(doc: Record, now: u64) -> (r: Result<User, Route>)
    ensures
        r is Ok <==> normalizable(doc),
        r matches Ok(u) ==> normalizes_to(doc, now, u),
        r matches Err(route) ==> failure_routed(doc, route),
{
    let ghost d = doc;
    match normalize_at(doc, now) {
        Ok(u) => Ok(u),
        Err(e) => {
            let ghost e0 = e;
            let route = route_error(e);
            proof {
                if let NormalizeError::UnrecoverableShape { id, cause } = e0 {
                    assert(malformed_field(d, cause@));
                }
            }
            Err(route)
        },
    }
}

/// Records processed against the point-in-time estimate of the total.
#[derive(Clone, Copy, Debug, PartialEq, Eq)]
pub struct Progress {
    pub processed: u64,
    pub total: u64,
}

impl Progress {
    /// Records per second over `elapsed_secs`; a run under a second counts as one second.
    pub fn per_second(&self, elapsed_secs: u64) -> (r: u64)
        ensures
            r == if elapsed_secs == 0 {
                self.processed
            } else {
                self.processed / elapsed_secs
            },
    {
        if elapsed_secs == 0 {
            self.processed
        } else {
            self.processed / elapsed_secs
        }
    }
}

/// The size of one percent of `total`, rounded up.
pub open spec fn percent_step(total: nat) -> nat {
    (total + 99) / 100
}

/// The whole percentages of `total` that `processed` has passed; none when
/// the total is 0.
pub open spec fn milestone(processed: nat, total: nat) -> nat {
    if total == 0 {
        0
    } else {
        processed / percent_step(total)
    }
}

fn milestone_of(processed: u64, total: u64) -> (r: u64)
    ensures
        r == milestone(processed as nat, total as nat),
{
    if total == 0 {
        0
    } else {
        let step = total / 100 + if total % 100 == 0 {
            0
        } else {
            1
        };
        assert(step == (total + 99) / 100);
        processed / step
    }
}

/// What the scan does after one record.
#[derive(Debug)]
pub struct Step {
    /// A full batch to flush as one bulk write.
    pub batch: Option<Vec<WriteOp>>,
    /// Where the record's failure goes.
    pub route: Option<Route>,
}

/// The batch backfill: scans records, buffers their writes and hands out full
/// batches; once stopped it hands out nothing more.
pub struct Backfill {
    pub batch_size: usize,
    pub mode: WriteMode,
    pub buffer: Vec<WriteOp>,
    pub processed: u64,
    pub total: u64,
    pub last_milestone: u64,
    pub stopped: bool,
    /// The records scanned so far.
    pub scanned: Ghost<Seq<Record>>,
    /// The writes handed out in batches so far.
    pub written: Ghost<Seq<WriteOp>>,
    /// How many scanned records those writes cover.
    pub covered: Ghost<nat>,
}

impl Backfill {
    pub open spec fn wf(&self) -> bool {
        &&& self.batch_size > 0
        &&& self.buffer@.len() < self.batch_size
        &&& self.covered@ <= self.scanned@.len()
        &&& backfill_output(self.scanned@, self.mode, self.written@ + self.buffer@)
        &&& backfill_output(self.scanned@.take(self.covered@ as int), self.mode, self.written@)
    }

    /// A backfill in `mode` that flushes every `batch_size` writes, reporting
    /// progress against `total`.
    pub fn new(batch_size: u32, mode: WriteMode, total: u64) -> (r: Backfill)
        requires
            batch_size > 0,
        ensures
            r.wf(),
            r.batch_size == batch_size,
            r.mode == mode,
            r.total == total,
            r.processed == 0,
            r.last_milestone == 0,
            !r.stopped,
            r.scanned@.len() == 0,
            r.written@.len() == 0,
            r.buffer@.len() == 0,
    {
        let r = Backfill {
            batch_size: batch_size as usize,
            mode,
            buffer: Vec::new(),
            processed: 0,
            total,
            last_milestone: 0,
            stopped: false,
            scanned: Ghost(Seq::empty()),
            written: Ghost(Seq::empty()),
            covered: Ghost(0),
        };
        assert(r.written@ + r.buffer@ =~= Seq::<WriteOp>::empty());
        assert(r.scanned@.take(0) =~= Seq::<Record>::empty());
        r
    }

    /// Takes one scanned record, normalized at `now`: its write joins the
    /// buffer, which is handed out as a batch once it holds `batch_size`
    /// writes; a failure is routed and the record skipped. A stopped backfill
    /// ignores the record.
    pub fn accept(&mut self, doc: Record, now: u64) -> (r: Step)
        requires
            old(self).wf(),
        ensures
            final(self).wf(),
            final(self).batch_size == old(self).batch_size,
            final(self).mode == old(self).mode,
            final(self).stopped == old(self).stopped,
            final(self).total == old(self).total,
            final(self).processed == old(self).processed,
            final(self).last_milestone == old(self).last_milestone,
            old(self).stopped ==> r.batch is None && r.route is None && final(self).scanned@ == old(
                self,
            ).scanned@ && final(self).written@ == old(self).written@ && final(self).buffer@ == old(
                self,
            ).buffer@,
            !old(self).stopped ==> final(self).scanned@ == old(self).scanned@.push(doc),
            !old(self).stopped && normalizable(doc) ==> r.route is None && exists|u: User|
                normalizes_to(doc, now, u) && final(self).written@ + final(self).buffer@ == old(
                    self,
                ).written@ + old(self).buffer@.push(backfill_op(old(self).mode, u)),
            !old(self).stopped && !normalizable(doc) ==> r.batch is None && final(self).written@
                == old(self).written@ && final(self).buffer@ == old(self).buffer@ && (r.route matches Some(
                route,
            ) && failure_routed(doc, route)),
            r.batch matches Some(b) ==> b@.len() == old(self).batch_size && final(self).written@
                == old(self).written@ + b@ && final(self).buffer@.len() == 0,
            r.batch is None ==> final(self).written@ == old(self).written@,
    {
        if self.stopped {
            return Step { batch: None, route: None };
        }
        let ghost d = doc;
        let ghost old_scanned = self.scanned@;
        let ghost old_pending = self.written@ + self.buffer@;
        self.scanned = Ghost(self.scanned@.push(d));
        assert(self.scanned@.drop_last() =~= old_scanned);
        assert(self.scanned@.take(self.covered@ as int) =~= old_scanned.take(self.covered@ as int));
        match normalize_or_route(doc, now) {
            Ok(u) => {
                let ghost gu = u;
                let op = make_backfill_op(self.mode, u);
                self.buffer.push(op);
                assert(self.written@ + self.buffer@ =~= old_pending.push(backfill_op(self.mode, gu)));
                assert((self.written@ + self.buffer@).drop_last() =~= old_pending);
                if self.buffer.len() >= self.batch_size {
                    let mut batch = Vec::new();
                    core::mem::swap(&mut batch, &mut self.buffer);
                    self.written = Ghost(self.written@ + batch@);
                    self.covered = Ghost(self.scanned@.len());
                    assert(self.written@ + self.buffer@ =~= self.written@);
                    assert(self.scanned@.take(self.covered@ as int) =~= self.scanned@);
                    Step { batch: Some(batch), route: None }
                } else {
                    Step { batch: None, route: None }
                }
            },
            Err(route) => {
                Step { batch: None, route: Some(route) }
            },
        }
    }

    /// At the end of the scan hands out what the buffer holds, if anything;
    /// a stopped backfill hands out nothing.
    pub fn drain(&mut self) -> (r: Option<Vec<WriteOp>>)
        requires
            old(self).wf(),
        ensures
            final(self).wf(),
            final(self).batch_size == old(self).batch_size,
            final(self).mode == old(self).mode,
            final(self).stopped == old(self).stopped,
            final(self).total == old(self).total,
            final(self).processed == old(self).processed,
            final(self).last_milestone == old(self).last_milestone,
            final(self).scanned@ == old(self).scanned@,
            old(self).stopped ==> r is None && final(self).written@ == old(self).written@,
            !old(self).stopped ==> final(self).buffer@.len() == 0 && final(self).written@ == old(
                self,
            ).written@ + old(self).buffer@ && backfill_output(
                final(self).scanned@,
                final(self).mode,
                final(self).written@,
            ),
            r matches Some(b) ==> b@ == old(self).buffer@ && b@.len() > 0,
            r is None && !old(self).stopped ==> old(self).buffer@.len() == 0,
    {
        if self.stopped {
            return None;
        }
        let mut batch = Vec::new();
        core::mem::swap(&mut batch, &mut self.buffer);
        self.written = Ghost(self.written@ + batch@);
        self.covered = Ghost(self.scanned@.len());
        assert(self.written@ + self.buffer@ =~= self.written@);
        assert(self.scanned@.take(self.covered@ as int) =~= self.scanned@);
        if batch.len() > 0 {
            Some(batch)
        } else {
            None
        }
    }

    /// Stops the scan: the batch in flight completes, and no further batch is
    /// handed out.
    pub fn stop(&mut self)
        requires
            old(self).wf(),
        ensures
            final(self).wf(),
            final(self).stopped,
            final(self).batch_size == old(self).batch_size,
            final(self).mode == old(self).mode,
            final(self).total == old(self).total,
            final(self).processed == old(self).processed,
            final(self).last_milestone == old(self).last_milestone,
            final(self).scanned@ == old(self).scanned@,
            final(self).written@ == old(self).written@,
            final(self).covered@ == old(self).covered@,
            final(self).buffer@ == old(self).buffer@,
    {
        self.stopped = true;
    }

    /// Records that a batch of `count` writes was flushed; returns the progress
    /// when it has passed a new whole percentage of the estimated total.
    pub fn flushed(&mut self, count: u64) -> (r: Option<Progress>)
        requires
            old(self).wf(),
        ensures
            final(self).wf(),
            final(self).batch_size == old(self).batch_size,
            final(self).mode == old(self).mode,
            final(self).stopped == old(self).stopped,
            final(self).total == old(self).total,
            final(self).scanned@ == old(self).scanned@,
            final(self).written@ == old(self).written@,
            final(self).buffer@ == old(self).buffer@,
            final(self).processed as nat == if old(self).processed as nat + count as nat
                <= u64::MAX as nat {
                old(self).processed as nat + count as nat
            } else {
                u64::MAX as nat
            },
            r is Some <==> milestone(final(self).processed as nat, old(self).total as nat)
                > old(self).last_milestone,
            r matches Some(p) ==> p.processed == final(self).processed && p.total == old(
                self,
            ).total && final(self).last_milestone == milestone(
                final(self).processed as nat,
                old(self).total as nat,
            ),
            r is None ==> final(self).last_milestone == old(self).last_milestone,
    {
        self.processed = if self.processed <= u64::MAX - count {
            self.processed + count
        } else {
            u64::MAX
        };
        let m = milestone_of(self.processed, self.total);
        if m > self.last_milestone {
            self.last_milestone = m;
            Some(Progress { processed: self.processed, total: self.total })
        } else {
            None
        }
    }
}

} // verus!
