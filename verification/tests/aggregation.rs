use eden_client::aggregator::{Aggregator, RecvEvent};
use eden_client::message::{ScalarValue, SensorReading};

fn reading(ts: i64) -> SensorReading {
    SensorReading::TemperaturePressure {
        sensor: "bmp085".to_string(),
        t: ScalarValue { bits: (20.5f64).to_bits() },
        p: ScalarValue { bits: (101.3f64).to_bits() },
        ts,
    }
}

#[test]
fn size_trigger_flushes_exactly_at_batch_size() {
    let mut agg = Aggregator::new(3).unwrap();
    assert!(agg.step(RecvEvent::Reading(reading(1))).is_none());
    assert!(agg.step(RecvEvent::Reading(reading(2))).is_none());
    let batch = agg.step(RecvEvent::Reading(reading(3))).expect("third reading must flush");
    assert_eq!(batch.len(), 3);
    assert_eq!(agg.open_len(), 0);
}

#[test]
fn idle_trigger_flushes_partial_batch() {
    let mut agg = Aggregator::new(10).unwrap();
    assert!(agg.step(RecvEvent::Reading(reading(1))).is_none());
    assert!(agg.step(RecvEvent::Reading(reading(2))).is_none());
    let batch = agg.step(RecvEvent::TimedOut).expect("timeout with a non-empty batch must flush");
    assert_eq!(batch.len(), 2);
    assert_eq!(agg.open_len(), 0);
}

#[test]
fn no_empty_flush_on_repeated_timeouts() {
    let mut agg = Aggregator::new(5).unwrap();
    for _ in 0..100 {
        assert!(agg.step(RecvEvent::TimedOut).is_none());
    }
    assert!(agg.step(RecvEvent::Closed).is_none());
    assert_eq!(agg.open_len(), 0);
}

#[test]
fn order_is_preserved_within_a_batch() {
    let mut agg = Aggregator::new(8).unwrap();
    for ts in 0..5i64 {
        assert!(agg.step(RecvEvent::Reading(reading(ts))).is_none());
    }
    let batch = agg.step(RecvEvent::TimedOut).expect("idle flush");
    assert_eq!(batch.len(), 5);
    for (i, message) in batch.iter().enumerate() {
        assert_eq!(message.timestamp, i as i64);
    }
}

#[test]
fn closed_channel_flushes_remaining_messages() {
    let mut agg = Aggregator::new(4).unwrap();
    assert!(agg.step(RecvEvent::Reading(reading(7))).is_none());
    let batch = agg.step(RecvEvent::Closed).expect("closing must flush the open batch");
    assert_eq!(batch.len(), 1);
    assert_eq!(batch[0].timestamp, 7);
}

#[test]
fn repeated_size_triggers_under_burst() {
    let mut agg = Aggregator::new(2).unwrap();
    let mut flushed: usize = 0;
    for ts in 0..10i64 {
        if let Some(batch) = agg.step(RecvEvent::Reading(reading(ts))) {
            assert_eq!(batch.len(), 2);
            flushed += 1;
        }
    }
    assert_eq!(flushed, 5);
    assert_eq!(agg.open_len(), 0);
}

#[test]
fn zero_batch_size_is_a_configuration_error() {
    let err = Aggregator::new(0).err().expect("batch size 0 must be rejected");
    assert!(err.description().contains("batch size"));
}

#[test]
fn batch_size_one_flushes_every_reading() {
    let mut agg = Aggregator::new(1).unwrap();
    for ts in 0..3i64 {
        let batch = agg.step(RecvEvent::Reading(reading(ts))).expect("each reading must flush");
        assert_eq!(batch.len(), 1);
        assert_eq!(batch[0].timestamp, ts);
        assert_eq!(agg.open_len(), 0);
    }
}
