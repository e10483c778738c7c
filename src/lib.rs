//! Verified core of a sensor telemetry pipeline: a bounded sample queue that
//! decouples sampling from transmission, the decimal payload sent for each
//! sample, the one-shot connectivity bring-up state machine and the timing of
//! the heartbeat indicator.

pub mod queue;
pub mod queue_laws;
pub mod transmit;
pub mod connectivity;
pub mod heartbeat;

use vstd::prelude::*;

verus! {

/// Milliseconds between two sensor readings.
pub const SAMPLE_PERIOD_MS: u32 = 1000;

/// Milliseconds between two passes of the transmission loop.
pub const TRANSMIT_PERIOD_MS: u32 = 1000;

/// Longest wait, in milliseconds, of one dequeue by the transmission loop.
pub const DEQUEUE_WAIT_MS: u32 = 1000;

/// Milliseconds between link establishment and the start of the tasks.
pub const STARTUP_DELAY_MS: u32 = 5000;

} // verus!
