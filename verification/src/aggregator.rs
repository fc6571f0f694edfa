use vstd::prelude::*;

use crate::error::EdenServerError;
use crate::mapper::{map_reading, spec_map_reading};
use crate::message::{batch_model, Message, MessageModel, ReadingModel, SensorReading};

verus! {

/// What the aggregator can observe on one turn of its loop: a reading
/// arrived, the receive timed out with no reading, or the channel was closed
/// by the producer.
#[derive(Debug, Clone)]
pub enum RecvEvent {
    Reading(SensorReading),
    TimedOut,
    Closed,
}

/// Mathematical model of a `RecvEvent`.
pub enum EventModel {
    Reading(ReadingModel),
    TimedOut,
    Closed,
}

impl View for RecvEvent {
    type V = EventModel;

    open spec fn view(&self) -> EventModel {
        match self {
            RecvEvent::Reading(r) => EventModel::Reading(r@),
            RecvEvent::TimedOut => EventModel::TimedOut,
            RecvEvent::Closed => EventModel::Closed,
        }
    }
}

/// Mathematical model of the aggregator: the configured batch size and the
/// messages of the open batch, oldest first.
#[verifier::ext_equal]
pub struct AggregatorModel {
    pub batch_size: int,
    pub open_batch: Seq<MessageModel>,
}

/// One turn of the aggregator on one event: the state afterwards, and the
/// batch it flushes on this turn, if any.
///
/// A reading is mapped to its message and appended to the open batch; if the
/// batch thereby reaches `batch_size` it is flushed at once (size trigger).
/// A timeout or channel closure flushes the open batch exactly when it is
/// non-empty (idle trigger; no empty batch is ever flushed).
pub open spec fn spec_step(s: AggregatorModel, ev: EventModel) -> (AggregatorModel, Option<
    Seq<MessageModel>,
>) {
    match ev {
        EventModel::Reading(r) => {
            let grown = s.open_batch.push(spec_map_reading(r));
            if grown.len() == s.batch_size {
                ((AggregatorModel { batch_size: s.batch_size, open_batch: Seq::empty() }), Some(
                    grown,
                ))
            } else {
                ((AggregatorModel { batch_size: s.batch_size, open_batch: grown }), None)
            }
        },
        _ => {
            if s.open_batch.len() > 0 {
                ((AggregatorModel { batch_size: s.batch_size, open_batch: Seq::empty() }), Some(
                    s.open_batch,
                ))
            } else {
                (s, None)
            }
        },
    }
}

/// A whole run of the aggregation loop over a sequence of events: the state
/// after the last event, and every batch flushed along the way, in the order
/// each became ready.
pub open spec fn spec_run(s: AggregatorModel, evs: Seq<EventModel>) -> (AggregatorModel, Seq<
    Seq<MessageModel>,
>)
    decreases evs.len(),
{
    if evs.len() == 0 {
        (s, Seq::empty())
    } else {
        let (s1, flushed) = spec_step(s, evs.first());
        let (s2, rest) = spec_run(s1, evs.drop_first());
        match flushed {
            Some(batch) => (s2, seq![batch] + rest),
            None => (s2, rest),
        }
    }
}

/// The event sequence in which exactly these readings arrive, in this order.
pub open spec fn reading_events(rs: Seq<ReadingModel>) -> Seq<EventModel> {
    rs.map_values(|r: ReadingModel| EventModel::Reading(r))
}

/// The messages these readings map to, in the same order.
pub open spec fn mapped_messages(rs: Seq<ReadingModel>) -> Seq<MessageModel> {
    rs.map_values(|r: ReadingModel| spec_map_reading(r))
}

/// A run over concatenated event sequences is the run over the first followed
/// by the run over the second from where the first left off, and flushes the
/// batches of both in that order.
pub proof fn lemma_run_append(s: AggregatorModel, evs1: Seq<EventModel>, evs2: Seq<EventModel>)
    ensures
        spec_run(s, evs1 + evs2).0 == spec_run(spec_run(s, evs1).0, evs2).0,
        spec_run(s, evs1 + evs2).1 == spec_run(s, evs1).1 + spec_run(spec_run(s, evs1).0, evs2).1,
    decreases evs1.len(),
{
    if evs1.len() == 0 {
        assert(evs1 + evs2 =~= evs2);
        assert(spec_run(s, evs1).1 + spec_run(spec_run(s, evs1).0, evs2).1 =~= spec_run(
            s,
            evs2,
        ).1);
    } else {
        let (s1, flushed) = spec_step(s, evs1.first());
        assert((evs1 + evs2).first() == evs1.first());
        assert((evs1 + evs2).drop_first() =~= evs1.drop_first() + evs2);
        lemma_run_append(s1, evs1.drop_first(), evs2);
        match flushed {
            Some(batch) => {
                assert(seq![batch] + (spec_run(s1, evs1.drop_first()).1 + spec_run(
                    spec_run(s1, evs1.drop_first()).0,
                    evs2,
                ).1) =~= (seq![batch] + spec_run(s1, evs1.drop_first()).1) + spec_run(
                    spec_run(s1, evs1.drop_first()).0,
                    evs2,
                ).1);
            },
            None => {},
        }
    }
}

/// A run over a single event is one step.
proof fn lemma_run_single(s: AggregatorModel, ev: EventModel)
    ensures
        spec_run(s, seq![ev]).0 == spec_step(s, ev).0,
        spec_run(s, seq![ev]).1 == match spec_step(s, ev).1 {
            Some(batch) => seq![batch],
            None => Seq::<Seq<MessageModel>>::empty(),
        },
{
    let evs: Seq<EventModel> = seq![ev];
    let (s1, flushed) = spec_step(s, ev);
    assert(evs.first() == ev);
    assert(evs.drop_first() =~= Seq::<EventModel>::empty());
    assert(spec_run(s1, Seq::<EventModel>::empty()).1 =~= Seq::<Seq<MessageModel>>::empty());
    match flushed {
        Some(batch) => {
            assert(seq![batch] + Seq::<Seq<MessageModel>>::empty() =~= seq![batch]);
        },
        None => {},
    }
}

/// No empty flush: as long as no reading arrives, an aggregator whose open
/// batch is empty never flushes a batch and never changes state, however
/// many timeout periods (or a channel closure) it sees.
pub proof fn lemma_no_empty_flush(s: AggregatorModel, evs: Seq<EventModel>)
    requires
        s.open_batch.len() == 0,
        forall|i: int| 0 <= i < evs.len() ==> !(#[trigger] evs[i] is Reading),
    ensures
        spec_run(s, evs).0 == s,
        spec_run(s, evs).1 == Seq::<Seq<MessageModel>>::empty(),
    decreases evs.len(),
{
    if evs.len() > 0 {
        lemma_no_empty_flush(s, evs.drop_first());
    }
}

/// Feeding readings that leave the open batch strictly below the batch size
/// flushes nothing and appends exactly their messages, in arrival order.
proof fn lemma_fill_below(s: AggregatorModel, rs: Seq<ReadingModel>)
    requires
        s.batch_size >= 1,
        s.open_batch.len() + rs.len() < s.batch_size,
    ensures
        spec_run(s, reading_events(rs)).0 == (AggregatorModel {
            batch_size: s.batch_size,
            open_batch: s.open_batch + mapped_messages(rs),
        }),
        spec_run(s, reading_events(rs)).1 == Seq::<Seq<MessageModel>>::empty(),
    decreases rs.len(),
{
    let evs = reading_events(rs);
    if rs.len() == 0 {
        assert(evs =~= Seq::<EventModel>::empty());
        assert(s.open_batch + mapped_messages(rs) =~= s.open_batch);
    } else {
        let (s1, flushed) = spec_step(s, evs.first());
        assert(flushed is None);
        assert(evs.drop_first() =~= reading_events(rs.drop_first()));
        lemma_fill_below(s1, rs.drop_first());
        assert(s1.open_batch + mapped_messages(rs.drop_first()) =~= s.open_batch
            + mapped_messages(rs));
    }
}

/// Batches are bounded: over any run from a well-formed state, the batch
/// size never changes, the open batch stays strictly below it, and every
/// flushed batch holds at least one and at most `batch_size` messages.
pub proof fn lemma_flushed_batches_bounded(s: AggregatorModel, evs: Seq<EventModel>)
    requires
        s.batch_size >= 1,
        s.open_batch.len() < s.batch_size,
    ensures
        spec_run(s, evs).0.batch_size == s.batch_size,
        spec_run(s, evs).0.open_batch.len() < s.batch_size,
        forall|i: int|
            0 <= i < spec_run(s, evs).1.len() ==> 1 <= (#[trigger] spec_run(s, evs).1[i]).len()
                <= s.batch_size,
    decreases evs.len(),
{
    if evs.len() > 0 {
        let (s1, flushed) = spec_step(s, evs.first());
        lemma_flushed_batches_bounded(s1, evs.drop_first());
        let rest = spec_run(s1, evs.drop_first()).1;
        match flushed {
            Some(batch) => {
                assert(1 <= batch.len() <= s.batch_size);
                assert forall|i: int| 0 <= i < spec_run(s, evs).1.len() implies 1 <= (
                #[trigger] spec_run(s, evs).1[i]).len() <= s.batch_size by {
                    if i == 0 {
                        assert(spec_run(s, evs).1[i] == batch);
                    } else {
                        assert(spec_run(s, evs).1[i] == rest[i - 1]);
                    }
                }
            },
            None => {},
        }
    }
}

/// Size trigger: from an empty open batch, exactly `batch_size` readings
/// flush exactly one batch — their messages in arrival order — and leave the
/// new open batch empty, with no idle timeout needed.
pub proof fn lemma_size_trigger(batch_size: int, rs: Seq<ReadingModel>)
    requires
        batch_size >= 1,
        rs.len() == batch_size,
    ensures
        spec_run(
            (AggregatorModel { batch_size, open_batch: Seq::empty() }),
            reading_events(rs),
        ).0 == (AggregatorModel { batch_size, open_batch: Seq::empty() }),
        spec_run(
            (AggregatorModel { batch_size, open_batch: Seq::empty() }),
            reading_events(rs),
        ).1 == seq![mapped_messages(rs)],
    decreases rs.len(),
{
    let s0 = AggregatorModel { batch_size, open_batch: Seq::empty() };
    let head = rs.take(rs.len() - 1);
    let last_ev: Seq<EventModel> = seq![EventModel::Reading(rs.last())];
    assert(reading_events(rs) =~= reading_events(head) + last_ev);
    lemma_fill_below(s0, head);
    let s1 = spec_run(s0, reading_events(head)).0;
    lemma_run_append(s0, reading_events(head), last_ev);
    let grown = s1.open_batch.push(spec_map_reading(rs.last()));
    assert(s1.open_batch =~= mapped_messages(head));
    assert(grown =~= mapped_messages(rs));
    lemma_run_single(s1, EventModel::Reading(rs.last()));
    assert(spec_run(s0, reading_events(rs)).1 =~= seq![mapped_messages(rs)]);
}

/// Order preservation: any `n` readings with `1 <= n <= batch_size`,
/// followed by one idle timeout, flush exactly one batch whose messages are
/// the readings' messages in arrival order, and leave the open batch empty.
pub proof fn lemma_order_preservation(batch_size: int, rs: Seq<ReadingModel>)
    requires
        batch_size >= 1,
        1 <= rs.len() <= batch_size,
    ensures
        spec_run(
            (AggregatorModel { batch_size, open_batch: Seq::empty() }),
            reading_events(rs) + seq![EventModel::TimedOut],
        ).0 == (AggregatorModel { batch_size, open_batch: Seq::empty() }),
        spec_run(
            (AggregatorModel { batch_size, open_batch: Seq::empty() }),
            reading_events(rs) + seq![EventModel::TimedOut],
        ).1 == seq![mapped_messages(rs)],
{
    let s0 = AggregatorModel { batch_size, open_batch: Seq::empty() };
    let idle: Seq<EventModel> = seq![EventModel::TimedOut];
    lemma_run_append(s0, reading_events(rs), idle);
    let s1 = spec_run(s0, reading_events(rs)).0;
    lemma_run_single(s1, EventModel::TimedOut);
    if rs.len() < batch_size {
        lemma_fill_below(s0, rs);
        assert(s1.open_batch =~= mapped_messages(rs));
        assert(mapped_messages(rs).len() == rs.len());
        assert(s1.open_batch.len() > 0);
        assert(spec_run(s0, reading_events(rs) + idle).1 =~= seq![mapped_messages(rs)]);
        assert(spec_run(s1, idle).0 =~= s0);
    } else {
        lemma_size_trigger(batch_size, rs);
        assert(spec_run(s0, reading_events(rs) + idle).1 =~= seq![mapped_messages(rs)]);
    }
}

/// The batch aggregator: consumes the reading stream one event at a time,
/// accumulates messages into the open batch, and decides when a batch is
/// ready for dispatch.
pub struct Aggregator {
    batch_size: usize,
    open_batch: Vec<Message>,
}

impl View for Aggregator {
    type V = AggregatorModel;

    closed spec fn view(&self) -> AggregatorModel {
        AggregatorModel {
            batch_size: self.batch_size as int,
            open_batch: batch_model(self.open_batch@),
        }
    }
}

impl Aggregator {
    /// The aggregator's invariant: a batch size of at least one, and an open
    /// batch strictly below it (a full batch is flushed the moment it fills).
    pub open spec fn wf(&self) -> bool {
        &&& self@.batch_size >= 1
        &&& self@.open_batch.len() < self@.batch_size
    }

    /// Builds an aggregator with an empty open batch. A batch size of zero
    /// is a configuration error, rejected at construction.
    pub fn new(batch_size: usize) -> (r: Result<Aggregator, EdenServerError>)
        ensures
            r is Ok <==> batch_size >= 1,
            r is Ok ==> r->Ok_0.wf(),
            r is Ok ==> r->Ok_0@ == (AggregatorModel {
                batch_size: batch_size as int,
                open_batch: Seq::<MessageModel>::empty(),
            }),
    {
        if batch_size == 0 {
            Err(EdenServerError::new("batch size must be at least 1".to_owned()))
        } else {
            let agg = Aggregator { batch_size, open_batch: Vec::new() };
            proof {
                assert(agg@.open_batch =~= Seq::<MessageModel>::empty());
            }
            Ok(agg)
        }
    }

    /// How many messages the open batch holds.
    pub fn open_len(&self) -> (n: usize)
        ensures
            n == self@.open_batch.len(),
    {
        self.open_batch.len()
    }

    /// Runs one turn of the aggregation loop on one received event, exactly
    /// as `spec_step` says: the returned batch is the flushed one, in
    /// arrival order, or `None` when nothing is ready.
    pub fn step(&mut self, ev: RecvEvent) -> (flushed: Option<Vec<Message>>)
        requires
            old(self).wf(),
        ensures
            final(self).wf(),
            final(self)@ == spec_step(old(self)@, ev@).0,
            match flushed {
                Some(batch) => spec_step(old(self)@, ev@).1 == Some(batch_model(batch@)),
                None => spec_step(old(self)@, ev@).1 is None,
            },
    {
        let ghost s0 = self@;
        let ghost evm = ev@;
        match ev {
            RecvEvent::Reading(r) => {
                let m = map_reading(r);
                self.open_batch.push(m);
                proof {
                    assert(batch_model(self.open_batch@) =~= s0.open_batch.push(
                        spec_map_reading(evm->Reading_0),
                    ));
                }
                if self.open_batch.len() == self.batch_size {
                    let mut ready: Vec<Message> = Vec::new();
                    core::mem::swap(&mut ready, &mut self.open_batch);
                    proof {
                        assert(batch_model(self.open_batch@) =~= Seq::<MessageModel>::empty());
                    }
                    Some(ready)
                } else {
                    None
                }
            },
            _ => {
                if self.open_batch.len() > 0 {
                    let mut ready: Vec<Message> = Vec::new();
                    core::mem::swap(&mut ready, &mut self.open_batch);
                    proof {
                        assert(batch_model(self.open_batch@) =~= Seq::<MessageModel>::empty());
                    }
                    Some(ready)
                } else {
                    None
                }
            },
        }
    }
}

} // verus!
