//! Control logic for motorised window covers: a per-cover state machine with a
//! time-based position estimate, a motor interlock with a settle delay on
//! reversal, and routing of bus commands to covers.

pub mod actuator;
pub mod bus;
pub mod cover;
pub mod dispatch;
pub mod position;
pub mod state;

pub use actuator::Actuator;
pub use cover::{ConfigError, Cover};
pub use dispatch::{CoverDispatcher, RouteError};
pub use state::{Motor, Payload, State, Step};
