//! Failures the driver logic reports.

use vstd::prelude::*;

verus! {

/// A protocol or configuration failure; bus failures are the caller's own.
#[derive(Clone, Copy, Debug, PartialEq, Eq, Structural)]
pub enum Vl53l1xError {
    /// The model-ID register held this value instead of the VL53L1X's.
    UnexpectedDevice(u16),
    /// The firmware did not report ready within the allowed polls.
    FirmwareTimeout,
    /// No measurement result came within the allowed polls.
    DataReadyTimeout,
    /// A region of interest narrower or shorter than 3, or outside the grid.
    InvalidRoi,
}

} // verus!
