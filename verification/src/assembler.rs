//! The batch assembler: a single-consumer worker state that buffers records
//! and flushes the whole buffer when either the batch size is reached or the
//! flush interval has elapsed, with one final flush at channel closure.

use vstd::prelude::*;

use crate::metric::{ProcessedMetric, RecordModel};

verus! {

/// The view of a record sequence, record by record.
pub open spec fn records_view(s: Seq<ProcessedMetric>) -> Seq<RecordModel> {
    s.map_values(|p: ProcessedMetric| p@)
}

/// The records a flush outcome hands to the sink: none, or a whole buffer.
pub open spec fn flushed_view(o: Option<Vec<ProcessedMetric>>) -> Seq<RecordModel> {
    match o {
        Some(batch) => records_view(batch@),
        None => Seq::empty(),
    }
}

/// Mathematical state of the assembler.
pub struct AssemblerState {
    pub buffer: Seq<RecordModel>,
    pub batch_size: int,
    pub flush_interval_ms: int,
    pub last_flush_ms: int,
}

/// Receiving one record: append it; flush the whole buffer exactly when the
/// batch size is reached.
pub open spec fn step_record(s: AssemblerState, r: RecordModel, now_ms: int) -> (AssemblerState,
    Seq<RecordModel>) {
    let b = s.buffer.push(r);
    if b.len() >= s.batch_size {
        (AssemblerState { buffer: Seq::empty(), last_flush_ms: now_ms, ..s }, b)
    } else {
        (AssemblerState { buffer: b, ..s }, Seq::empty())
    }
}

/// A timer tick: flush exactly when the buffer is non-empty and more than the
/// flush interval has elapsed since the last flush.
pub open spec fn step_tick(s: AssemblerState, now_ms: int) -> (AssemblerState, Seq<RecordModel>) {
    if s.buffer.len() > 0 && now_ms > s.last_flush_ms + s.flush_interval_ms {
        (AssemblerState { buffer: Seq::empty(), last_flush_ms: now_ms, ..s }, s.buffer)
    } else {
        (s, Seq::empty())
    }
}

/// Channel closure: one final flush of whatever is buffered.
pub open spec fn step_close(s: AssemblerState) -> (AssemblerState, Seq<RecordModel>) {
    (AssemblerState { buffer: Seq::empty(), ..s }, s.buffer)
}

/// An event the worker can service.
pub enum AssemblerEvent {
    Record(RecordModel, int),
    Tick(int),
}

/// One step of the assembler on one event.
pub open spec fn step(s: AssemblerState, e: AssemblerEvent) -> (AssemblerState, Seq<RecordModel>) {
    match e {
        AssemblerEvent::Record(r, now_ms) => step_record(s, r, now_ms),
        AssemblerEvent::Tick(now_ms) => step_tick(s, now_ms),
    }
}

/// The records an event delivers to the assembler.
pub open spec fn event_records(e: AssemblerEvent) -> Seq<RecordModel> {
    match e {
        AssemblerEvent::Record(r, _) => seq![r],
        AssemblerEvent::Tick(_) => Seq::empty(),
    }
}

/// The records a whole event sequence delivers, in order.
pub open spec fn received_records(es: Seq<AssemblerEvent>) -> Seq<RecordModel>
    decreases es.len(),
{
    if es.len() == 0 {
        Seq::empty()
    } else {
        event_records(es[0]) + received_records(es.drop_first())
    }
}

/// Running the assembler over an event sequence: the final state, and the
/// concatenation of everything flushed, in flush order.
pub open spec fn run(s: AssemblerState, es: Seq<AssemblerEvent>) -> (AssemblerState,
    Seq<RecordModel>)
    decreases es.len(),
{
    if es.len() == 0 {
        (s, Seq::empty())
    } else {
        let (s1, f1) = step(s, es[0]);
        let (s2, f2) = run(s1, es.drop_first());
        (s2, f1 + f2)
    }
}

/// No record is lost or duplicated, and order is kept: over any event
/// sequence, everything flushed followed by what is still buffered equals the
/// initial buffer followed by every record received, in order.  Together with
/// `step_close`, which flushes the remaining buffer, every received record is
/// flushed exactly once.
pub proof fn lemma_no_record_lost(s: AssemblerState, es: Seq<AssemblerEvent>)
    ensures
        run(s, es).1 + run(s, es).0.buffer == s.buffer + received_records(es),
    decreases es.len(),
{
    if es.len() == 0 {
        assert(run(s, es).1 + run(s, es).0.buffer =~= s.buffer + received_records(es));
    } else {
        let e = es[0];
        let rest = es.drop_first();
        let (s1, f1) = step(s, e);
        let (s2, f2) = run(s1, rest);
        lemma_no_record_lost(s1, rest);
        assert(f1 + s1.buffer =~= s.buffer + event_records(e));
        assert((f1 + f2) + s2.buffer =~= f1 + (f2 + s2.buffer));
        assert(f1 + (s1.buffer + received_records(rest)) =~= (f1 + s1.buffer) + received_records(
            rest,
        ));
        assert((s.buffer + event_records(e)) + received_records(rest) =~= s.buffer + (event_records(
            e,
        ) + received_records(rest)));
        assert(run(s, es).1 + run(s, es).0.buffer =~= s.buffer + received_records(es));
    }
}

/// After servicing any events and then the closing flush, everything flushed
/// equals the initial buffer followed by every record received, in order: the
/// shutdown flush delivers whatever the triggered flushes had not.
pub proof fn lemma_shutdown_delivers_all(s: AssemblerState, es: Seq<AssemblerEvent>)
    ensures
        run(s, es).1 + step_close(run(s, es).0).1 == s.buffer + received_records(es),
{
    lemma_no_record_lost(s, es);
}

/// The worker's in-memory batching state.
pub struct BatchAssembler {
    /// The ordered buffer of records awaiting a flush.
    pub buffer: Vec<ProcessedMetric>,
    /// Number of buffered records that triggers an immediate flush.
    pub batch_size: usize,
    /// The flush interval, in milliseconds.
    pub flush_interval_ms: u64,
    /// When the last flush happened, in worker-clock milliseconds.
    pub last_flush_ms: u64,
}

impl BatchAssembler {
    /// The mathematical state this value stands for.
    pub open spec fn abs(self) -> AssemblerState {
        AssemblerState {
            buffer: records_view(self.buffer@),
            batch_size: self.batch_size as int,
            flush_interval_ms: self.flush_interval_ms as int,
            last_flush_ms: self.last_flush_ms as int,
        }
    }

    /// The records currently buffered, in arrival order.
    pub open spec fn buffered(self) -> Seq<RecordModel> {
        records_view(self.buffer@)
    }

    /// Well-formedness: a positive batch size (validated at startup), and a
    /// buffer strictly below it, as every flush leaves it.
    pub open spec fn wf(self) -> bool {
        self.batch_size >= 1 && self.buffer@.len() < self.batch_size
    }

    /// A fresh assembler with an empty buffer.
    pub fn new(batch_size: usize, flush_interval_ms: u64, now_ms: u64) -> (r: BatchAssembler)
        requires
            batch_size >= 1,
        ensures
            r.wf(),
            r.buffered() == Seq::<RecordModel>::empty(),
            r.batch_size == batch_size,
            r.flush_interval_ms == flush_interval_ms,
            r.last_flush_ms == now_ms,
    {
        let r = BatchAssembler { buffer: Vec::new(), batch_size, flush_interval_ms, last_flush_ms: now_ms };
        proof {
            assert(r.buffered() =~= Seq::<RecordModel>::empty());
        }
        r
    }

    /// Takes the whole buffer out, leaving it empty.
    fn take_buffer(&mut self) -> (batch: Vec<ProcessedMetric>)
        ensures
            batch@ == old(self).buffer@,
            final(self).buffer@ == Seq::<ProcessedMetric>::empty(),
            final(self).batch_size == old(self).batch_size,
            final(self).flush_interval_ms == old(self).flush_interval_ms,
            final(self).last_flush_ms == old(self).last_flush_ms,
    {
        let mut batch: Vec<ProcessedMetric> = Vec::new();
        core::mem::swap(&mut self.buffer, &mut batch);
        batch
    }

    /// Services one received record: appends it to the buffer, and flushes
    /// the whole buffer immediately when the batch size is reached, with no
    /// dependency on the timer.
    pub fn on_record(&mut self, rec: ProcessedMetric, now_ms: u64) -> (flushed: Option<
        Vec<ProcessedMetric>,
    >)
        requires
            old(self).wf(),
        ensures
            final(self).wf(),
            (final(self).abs(), flushed_view(flushed)) == step_record(
                old(self).abs(),
                rec@,
                now_ms as int,
            ),
            old(self).buffered().len() + 1 >= old(self).batch_size ==> flushed is Some
                && flushed_view(flushed) == old(self).buffered().push(rec@)
                && final(self).buffered().len() == 0
                && final(self).last_flush_ms == now_ms,
            old(self).buffered().len() + 1 < old(self).batch_size ==> flushed is None
                && final(self).buffered() == old(self).buffered().push(rec@)
                && final(self).last_flush_ms == old(self).last_flush_ms,
    {
        let ghost pre = self.abs();
        self.buffer.push(rec);
        proof {
            assert(records_view(self.buffer@) =~= pre.buffer.push(rec@));
        }
        if self.buffer.len() >= self.batch_size {
            let batch = self.take_buffer();
            self.last_flush_ms = now_ms;
            proof {
                assert(records_view(self.buffer@) =~= Seq::<RecordModel>::empty());
            }
            Some(batch)
        } else {
            None
        }
    }

    /// Services one timer tick: flushes the whole buffer exactly when it is
    /// non-empty and more than the flush interval has elapsed since the last
    /// flush, without reaching the size threshold.
    pub fn on_tick(&mut self, now_ms: u64) -> (flushed: Option<Vec<ProcessedMetric>>)
        requires
            old(self).wf(),
        ensures
            final(self).wf(),
            (final(self).abs(), flushed_view(flushed)) == step_tick(old(self).abs(), now_ms as int),
            (old(self).buffered().len() > 0 && now_ms > old(self).last_flush_ms + old(
                self,
            ).flush_interval_ms) ==> flushed is Some
                && flushed_view(flushed) == old(self).buffered()
                && final(self).buffered().len() == 0
                && final(self).last_flush_ms == now_ms,
            !(old(self).buffered().len() > 0 && now_ms > old(self).last_flush_ms + old(
                self,
            ).flush_interval_ms) ==> flushed is None && *final(self) == *old(self),
    {
        if self.buffer.len() > 0 && now_ms > self.last_flush_ms && now_ms - self.last_flush_ms
            > self.flush_interval_ms {
            let batch = self.take_buffer();
            self.last_flush_ms = now_ms;
            proof {
                assert(records_view(self.buffer@) =~= Seq::<RecordModel>::empty());
            }
            Some(batch)
        } else {
            None
        }
    }

    /// Services channel closure: one final flush of whatever is buffered, so
    /// that no buffered record is lost at shutdown.
    pub fn on_close(&mut self) -> (flushed: Option<Vec<ProcessedMetric>>)
        requires
            old(self).wf(),
        ensures
            final(self).wf(),
            (final(self).abs(), flushed_view(flushed)) == step_close(old(self).abs()),
            old(self).buffered().len() > 0 ==> flushed is Some
                && flushed_view(flushed) == old(self).buffered()
                && final(self).buffered().len() == 0,
            old(self).buffered().len() == 0 ==> flushed is None && *final(self) == *old(self),
    {
        if self.buffer.len() > 0 {
            let batch = self.take_buffer();
            proof {
                assert(records_view(self.buffer@) =~= Seq::<RecordModel>::empty());
            }
            Some(batch)
        } else {
            proof {
                assert(flushed_view(None) =~= old(self).buffered());
            }
            None
        }
    }
}

} // verus!
