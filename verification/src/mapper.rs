use vstd::prelude::*;

use crate::message::{
    Measurement, MeasurementModel, Message, MessageModel, MetaData, ReadingModel, SensorReading,
};

verus! {

/// What the mapper produces for one reading: a combined
/// temperature-and-pressure reading becomes one message with two
/// measurements — degrees Celsius read by the temperature sensor and
/// kilopascal read by the barometer — sharing the reading's device name and
/// timestamp.
pub open spec fn spec_map_reading(r: ReadingModel) -> MessageModel {
    match r {
        ReadingModel::TemperaturePressure { sensor, t, p, ts } => {
            (MessageModel {
                name: sensor,
                data: seq![
                    MeasurementModel { sensor: "temperature"@, value: t, unit: "celsius"@ },
                    MeasurementModel { sensor: "barometer"@, value: p, unit: "kilopascal"@ },
                ],
                timestamp: ts,
            })
        }
    }
}

/// Turns one raw sensor reading into its wire message: one measurement per
/// scalar field, arrival metadata and timestamp preserved.
pub fn map_reading(r: SensorReading) -> (m: Message)
    ensures
        m@ == spec_map_reading(r@),
{
    let ghost rm = r@;
    match r {
        SensorReading::TemperaturePressure { sensor, t, p, ts } => {
            let temperature = Measurement {
                sensor: "temperature".to_owned(),
                value: t,
                unit: "celsius".to_owned(),
            };
            let barometer = Measurement {
                sensor: "barometer".to_owned(),
                value: p,
                unit: "kilopascal".to_owned(),
            };
            let mut data: Vec<Measurement> = Vec::new();
            data.push(temperature);
            data.push(barometer);
            let m = Message { meta: MetaData { name: sensor }, data, timestamp: ts };
            proof {
                assert(m@.data =~= spec_map_reading(rm).data);
                assert(m@ =~= spec_map_reading(rm));
            }
            m
        }
    }
}

} // verus!
