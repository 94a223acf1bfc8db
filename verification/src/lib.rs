//! Health-aggregation core: a status tree rebuilt every poll cycle, a pure
//! aggregation rule combining child statuses, a poller state machine, a
//! concurrency-safe holder for the published snapshot, and the JSON shape
//! served over HTTP.

pub mod combine;
pub mod cycle;
pub mod holder;
pub mod json;
pub mod poller;
pub mod status;
pub mod tree;
