use vstd::prelude::*;

verus! {

/// A scalar sample carried through the pipeline without interpretation.
/// The field holds the IEEE-754 double-precision bit pattern of the sampled
/// value; only the edges of the system (sensor driver, wire encoder) read it
/// as a number, the core only moves it.
#[derive(Debug, Clone, Copy, PartialEq, Eq, Structural)]
pub struct ScalarValue {
    pub bits: u64,
}

/// One named scalar of a message: which quantity was measured, its value and
/// its unit.
#[derive(Debug, Clone)]
pub struct Measurement {
    pub sensor: String,
    pub value: ScalarValue,
    pub unit: String,
}

/// Message metadata: the name of the device the measurements came from.
#[derive(Debug, Clone)]
pub struct MetaData {
    pub name: String,
}

/// The wire representation of the measurements taken at one instant:
/// device metadata, an ordered sequence of measurements, and a millisecond
/// Unix timestamp.
#[derive(Debug, Clone)]
pub struct Message {
    pub meta: MetaData,
    pub data: Vec<Measurement>,
    pub timestamp: i64,
}

/// One raw sampled observation handed to the core by the sensor source.
#[derive(Debug, Clone)]
pub enum SensorReading {
    TemperaturePressure { sensor: String, t: ScalarValue, p: ScalarValue, ts: i64 },
}

/// Mathematical model of a `Measurement`.
#[verifier::ext_equal]
pub struct MeasurementModel {
    pub sensor: Seq<char>,
    pub value: u64,
    pub unit: Seq<char>,
}

/// Mathematical model of a `Message`.
#[verifier::ext_equal]
pub struct MessageModel {
    pub name: Seq<char>,
    pub data: Seq<MeasurementModel>,
    pub timestamp: int,
}

/// Mathematical model of a `SensorReading`.
pub enum ReadingModel {
    TemperaturePressure { sensor: Seq<char>, t: u64, p: u64, ts: int },
}

impl View for Measurement {
    type V = MeasurementModel;

    open spec fn view(&self) -> MeasurementModel {
        MeasurementModel { sensor: self.sensor@, value: self.value.bits, unit: self.unit@ }
    }
}

impl View for Message {
    type V = MessageModel;

    open spec fn view(&self) -> MessageModel {
        MessageModel {
            name: self.meta.name@,
            data: self.data@.map_values(|m: Measurement| m@),
            timestamp: self.timestamp as int,
        }
    }
}

impl View for SensorReading {
    type V = ReadingModel;

    open spec fn view(&self) -> ReadingModel {
        match self {
            SensorReading::TemperaturePressure { sensor, t, p, ts } => {
                (ReadingModel::TemperaturePressure {
                    sensor: sensor@,
                    t: t.bits,
                    p: p.bits,
                    ts: *ts as int,
                })
            }
        }
    }
}

/// The models of a sequence of messages, in the same order.
pub open spec fn batch_model(batch: Seq<Message>) -> Seq<MessageModel> {
    batch.map_values(|m: Message| m@)
}

} // verus!
