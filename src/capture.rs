use vstd::prelude::*;

use crate::backfill::{failure_routed, normalize_or_route};
use crate::document::Record;
use crate::normalize::normalizes_to;
use crate::router::{missing_document_route, Route};
use crate::store::{normalizable, WriteOp};

verus! {

/// What live capture does with one change event.
#[derive(Debug)]
pub enum CaptureStep {
    /// Overwrite the destination record with this normalized snapshot.
    Write(WriteOp),
    /// Send the failure to its sink and go on listening.
    Route(Route),
}

/// Handles one change event, normalized at `now`: an event without a full
/// document is a capture error for the log; a document that normalizes is
/// written with last-write-wins upsert; any other is routed.
pub fn on_change(full_document: Option<Record>, now: u64) -> (r: CaptureStep)
    ensures
        match full_document {
            None => r matches CaptureStep::Route(Route::Log { tag, message }) && tag@
                == "Change Stream Error"@ && message@ == "No full document"@,
            Some(doc) => if normalizable(doc) {
                r matches CaptureStep::Write(WriteOp::UpsertSet(u)) && normalizes_to(doc, now, u)
            } else {
                r matches CaptureStep::Route(route) && failure_routed(doc, route)
            },
        },
{
    match full_document {
        None => CaptureStep::Route(missing_document_route()),
        Some(doc) => match normalize_or_route(doc, now) {
            Ok(u) => CaptureStep::Write(WriteOp::UpsertSet(u)),
            Err(route) => CaptureStep::Route(route),
        },
    }
}

/// The live-capture loop's own state: a stop request is honoured between
/// events, so an event taken up is always applied in full.
pub struct Capture {
    pub stopped: bool,
    pub applied: u64,
}

impl Capture {
    pub fn new() -> (r: Capture)
        ensures
            !r.stopped,
            r.applied == 0,
    {
        Capture { stopped: false, applied: 0 }
    }

    /// Handles the next event unless a stop was requested before it.
    pub fn next_event(&mut self, full_document: Option<Record>, now: u64) -> (r: Option<
        CaptureStep,
    >)
        ensures
            final(self).stopped == old(self).stopped,
            old(self).stopped ==> r is None && final(self).applied == old(self).applied,
            !old(self).stopped ==> r is Some && final(self).applied as int == if old(self).applied
                == u64::MAX {
                u64::MAX as int
            } else {
                old(self).applied + 1
            },
            !old(self).stopped && full_document is Some && normalizable(full_document->0) ==> (
            r matches Some(CaptureStep::Write(WriteOp::UpsertSet(u))) && normalizes_to(
                full_document->0,
                now,
                u,
            )),
            !old(self).stopped && full_document is Some && !normalizable(full_document->0) ==> (
            r matches Some(CaptureStep::Route(route)) && failure_routed(full_document->0, route)),
            !old(self).stopped && full_document is None ==> (r matches Some(
                CaptureStep::Route(Route::Log { tag, message }),
            ) && tag@ == "Change Stream Error"@ && message@ == "No full document"@),
    {
        if self.stopped {
            return None;
        }
        let step = on_change(full_document, now);
        if self.applied < u64::MAX {
            self.applied = self.applied + 1;
        }
        Some(step)
    }

    /// Asks the loop to stop before its next event.
    pub fn stop(&mut self)
        ensures
            final(self).stopped,
            final(self).applied == old(self).applied,
    {
        self.stopped = true;
    }
}

} // verus!
