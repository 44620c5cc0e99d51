//! Flight-control core of an airship's onboard controller: turns sensor readings,
//! pilot commands and radio datagrams into actuator commands and telemetry.
pub mod algo;
pub mod codec;
pub mod types;
pub mod wire;

pub use algo::{AlgoState, BlimpAlgorithm, BlimpMainAlgo};
pub use codec::{decode_g2b, encode_b2g, encode_g2b, DecodeError};
pub use types::{BlimpAction, BlimpEvent, Controls, FlightMode, MessageB2G, MessageG2B, SensorType};
