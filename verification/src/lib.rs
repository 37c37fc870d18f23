//! Recovery logic for debug-locked nRF91-family microcontrollers.
//!
//! The crate holds the decision core of a recovery run: the CTRL-AP unlock
//! sequence, the UICR protection-word write protocol, and the stage
//! sequencing of a whole run. Each protocol is a verified state machine
//! over plain register values; an unverified front end owns the debug
//! probe, performs the requested register accesses and sleeps, and feeds
//! the replies back into the machines.

pub mod errors;
pub mod nrf91;
pub mod orchestrate;
pub mod timing;
pub mod transport;
pub mod uicr;
pub mod unlock;
