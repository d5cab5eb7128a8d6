pub mod cli;
pub mod context;
pub mod expert;
pub mod features;
pub mod lcg;
pub mod mlp;
pub mod orchestrator;
pub mod reservoir;
pub mod router;
pub mod sensor;
pub mod snn;
pub mod text;
pub mod training;
pub mod types;

pub use orchestrator::Orchestrator;
pub use reservoir::EchoStateNetwork;
pub use sensor::{SensorBuffer, SensorReading, SensorType};
pub use snn::SpikingNetwork;
pub use types::{Query, Response, RoutingDecision};

use vstd::prelude::*;

verus! {

/// Library version following semantic versioning.
pub const VERSION: &'static str = "0.1.0";

/// RSR compliance level.
pub const RSR_COMPLIANCE: &'static str = "Bronze";

} // verus!
