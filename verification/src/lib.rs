//! Core logic of an autonomous irrigation controller: the soil-sensor
//! register protocol and its recovery state machine, the exponential
//! moisture/temperature estimator with its warm-up and upload-cadence
//! policy, the pump actuator's shutdown-debounce state machine, and the
//! upload path's DNS cache, batching and request construction.
//!
//! Cross-task hand-off goes through a single-slot overwrite signal and a
//! bounded FIFO queue, both held behind narrow trusted wrappers; all
//! decision logic is verified. Hardware and network I/O stay outside the
//! library: each driver is a transition function from its current state
//! and the observed I/O outcome to the next state and the action to
//! perform.

pub mod comms;
pub mod seesaw;
pub mod soil_estimator;
pub mod pump_control;
pub mod networking;
