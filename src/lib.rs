//! Sampling of a two-axis input device.
//!
//! The library holds the logic of a three-stage pipeline: decoding of the
//! device's fixed-layout event records ([`event`]), accumulation of the
//! latched axis values and their packing into 16-bit snapshots ([`axis`]),
//! and the consumer-side history that drains published snapshots and
//! notices when the producer has gone away ([`history`]). The stop protocol
//! between the producer's two tasks is in [`control`].

use vstd::prelude::*;

pub mod axis;
pub mod control;
pub mod event;
pub mod history;

pub use history::Data;

verus! {

} // verus!
