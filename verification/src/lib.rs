//! Bring-up and failure-reporting core of a microcontroller kernel.
//!
//! Four components, composed in dependency order: the vector tables that
//! route every hardware exception and interrupt to a handler, the boot
//! sequencer that establishes the initial memory state, the default
//! interrupt handler that turns an unexpected interrupt into a fatal
//! report, and the fault-safe diagnostic reporter through which both
//! cooperative debug text and panic information reach the outside world.

pub mod boot;
pub mod diag;
pub mod interrupt;
pub mod vectors;
