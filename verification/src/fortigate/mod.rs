//! FortiGate REST API: endpoint paths, response handling and normalization of
//! monitor-API documents into application models.

pub mod client;
pub mod endpoints;
pub mod normalize;
