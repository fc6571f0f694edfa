use vstd::prelude::*;

verus! {

/// Sensor-side settings: how often the source samples, where the combined
/// temperature-and-pressure sensor sits, what it is called, and how many
/// seconds the aggregator waits for a reading before an idle flush.
pub struct Sensors {
    pub sampling_rate: u64,
    pub temperature_barometer_addr: String,
    pub temperature_barometer_name: String,
    pub timeout: u64,
}

/// Server-side settings: where batches are delivered and the shared secret
/// the bearer token is signed with.
pub struct Server {
    pub endpoint: String,
    pub secret: String,
}

/// The device's identity: its name, used as the token's issuer, and its
/// role.
#[derive(Clone)]
pub struct Agent {
    pub name: String,
    pub role: String,
}

/// Concurrency settings: how many workers the dispatch pool holds.
#[derive(Clone)]
pub struct Threads {
    pub send_pool: usize,
}

/// The validated configuration the core is constructed from.
pub struct Settings {
    pub sensors: Sensors,
    pub server: Server,
    pub device: Agent,
    pub threads: Threads,
}

} // verus!
