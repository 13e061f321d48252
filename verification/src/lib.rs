//! Simulation of a fleet of grid-connected power devices, each exposed as a
//! register-bank slave endpoint: bit-exact register encoding, command
//! arbitration between competing remote writes, and the run-lifecycle state
//! machine that keeps registers synchronized with periodic power-flow results.

pub mod arbitrator;
pub mod codec;
pub mod defaults;
pub mod device;
pub mod kernel_factory;
pub mod mode_handler;
pub mod orchestrator;
pub mod protocol;
pub mod registers;
pub mod registry;
pub mod schema;
pub mod status;
pub mod storage;
pub mod strmap;
pub mod sync;
pub mod text;
