//! Delivery-rate sampling for a transport connection: per-packet delivery
//! snapshots, detection of application-limited phases, and rate samples
//! computed from batches of acknowledged packets.
//!
//! The executable types are specified over the mathematical model in
//! `model`; `laws` states and proves the properties that hold across calls.

mod delivery;
pub mod laws;
pub mod model;
mod sender;
mod time;

pub use delivery::{acked_models, ConnectionState, Packet, PacketState, RateSample};
pub use sender::{ConnectionSenderState, DetectAppLimitedPhaseParams, TransportSendSequenceSpace};
pub use time::{span_between, TimeSpan, Timestamp, NANOS_PER_SEC};
