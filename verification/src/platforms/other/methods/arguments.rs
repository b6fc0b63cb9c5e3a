//! Arguments handed to the request and line-protocol builders.
use vstd::prelude::*;

verus! {

/// The encoded metric records of one collection round. Each record is the part
/// of its line-protocol line that follows the measurement name and comes
/// before the timestamp: `[,tag=value...] field=value[,field=value...]`.
pub struct ToLineProtocolOptions {
    /// Timestamp of the round, in nanoseconds since the epoch.
    pub time: i64,
    pub system: Vec<u8>,
    pub memory: Vec<u8>,
    pub disk: Vec<u8>,
    pub network: Vec<u8>,
    pub cpu: Vec<u8>,
    /// One line per hardware sensor.
    pub components: Vec<Vec<u8>>,
    /// One line per listed process.
    pub processes: Vec<Vec<u8>>,
    /// The line of the exporter's own process, when it was observed.
    pub exporter_process: Option<Vec<u8>>,
}

}
