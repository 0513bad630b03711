//! The ingest path: one request body's submissions are normalized and every
//! resulting record is enqueued, in order, onto the unbounded
//! multi-producer/single-consumer channel that the batch-assembler worker
//! drains.

use vstd::prelude::*;

use crate::metric::{
    flat_records, flat_records_all, process_metric, submissions_view, CollectdMetric,
    ProcessedMetric, SubmissionModel,
};
use tokio::sync::mpsc::UnboundedSender;

verus! {

/// Why an ingest attempt failed.
#[derive(Clone, Copy, Debug, PartialEq, Eq, Structural)]
pub enum IngestError {
    /// The worker has terminated, so the queue accepts no more records.
    /// The condition is permanent until process restart.
    QueueClosed,
}

#[verifier::external_type_specification]
#[verifier::external_body]
#[verifier::reject_recursive_types(T)]
pub struct ExUnboundedSender<T>(UnboundedSender<T>);

/// Relies on tokio's `UnboundedSender::send`: enqueueing never blocks, and
/// it fails exactly when the receive half is closed, in which case the
/// record comes back unsent inside the error.
#[verifier::external_body]
fn send_record(sender: &UnboundedSender<ProcessedMetric>, rec: ProcessedMetric) -> (r: Result<
    (),
    ProcessedMetric,
>)
    ensures
        r is Err ==> r->Err_0 == rec,
{
    match sender.send(rec) {
        Ok(()) => Ok(()),
        Err(tokio::sync::mpsc::error::SendError(m)) => Err(m),
    }
}

/// Normalizes every submission of one request body and enqueues every
/// resulting record: submission order first, payload order within each
/// submission.  Returns how many records were enqueued; or `QueueClosed` as
/// soon as one enqueue fails because the worker is gone, the outcome the
/// endpoint maps to an internal server error (records enqueued before the
/// failure stay enqueued).  A body that derives no records makes no enqueue
/// at all and always succeeds: payload-less submissions are silently
/// dropped, not an error.
#[verifier::loop_isolation(false)]
pub fn ingest(sender: &UnboundedSender<ProcessedMetric>, metrics: Vec<CollectdMetric>) -> (r:
    Result<usize, IngestError>)
    requires
        flat_records_all(submissions_view(metrics@)).len() <= usize::MAX,
    ensures
        r is Ok ==> r->Ok_0 == flat_records_all(submissions_view(metrics@)).len(),
        r is Err ==> r->Err_0 == IngestError::QueueClosed,
        flat_records_all(submissions_view(metrics@)).len() == 0 ==> r is Ok,
{
    let ghost total = flat_records_all(submissions_view(metrics@)).len();
    let mut remaining = metrics;
    let mut count: usize = 0;
    while remaining.len() > 0
        invariant
            count + flat_records_all(submissions_view(remaining@)).len() == total,
            total <= usize::MAX,
        decreases remaining@.len(),
    {
        let ghost sv = submissions_view(remaining@);
        let m = remaining.remove(0);
        proof {
            assert(sv[0] == m@);
            assert(submissions_view(remaining@) =~= sv.drop_first());
            assert(flat_records_all(sv) == flat_records(m@) + flat_records_all(sv.drop_first()));
        }
        let mut recs = process_metric(m);
        while recs.len() > 0
            invariant
                count + recs@.len() + flat_records_all(submissions_view(remaining@)).len() == total,
                total <= usize::MAX,
            decreases recs@.len(),
        {
            let rec = recs.remove(0);
            match send_record(sender, rec) {
                Ok(_) => {
                    count = count + 1;
                },
                Err(_) => {
                    proof {
                        // A send only happens for a derived record, so the
                        // total cannot have been zero.
                        assert(total > 0);
                    }
                    return Err(IngestError::QueueClosed);
                },
            }
        }
    }
    proof {
        assert(submissions_view(remaining@) =~= Seq::<SubmissionModel>::empty());
    }
    Ok(count)
}

} // verus!
