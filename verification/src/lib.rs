//! Multipath QUIC: path scheduling for data/ACK separation, ACK-frequency
//! control driven by the congestion controller's phase, and qlog
//! connectivity events.
//!
//! - `path`: paths, their usability and the map that holds them.
//! - `recovery`: the congestion-control state machines of a path.
//! - `mp_scheduler`: the data and ACK path schedulers.
//! - `ack_frequency`: when to ask the peer for more or fewer ACKs.
//! - `connectivity`: qlog connectivity event records.
pub mod ack_frequency;
pub mod connectivity;
pub mod mp_scheduler;
pub mod path;
pub mod recovery;
