//! Classification of a raw (distance, signal rate) reading.

use vstd::prelude::*;

verus! {

/// Above this signal rate a zero distance means the target sits in the dead zone.
pub const TOO_CLOSE_SIGNAL_RATE: u16 = 20000;

/// Below this signal rate the return is too weak to trust.
pub const MIN_SIGNAL_RATE: u16 = 100;

/// What a reading means once the quality rules are applied.
#[derive(Clone, Copy, Debug, PartialEq, Eq, Structural)]
pub enum Vl53l1xCorrectedSample {
    TooClose,
    /// Distance in millimetres, dead-zone offset included.
    Distance(u16),
    TooFar,
}

/// One measurement as read from the sensor.
#[derive(Clone, Copy, Debug, PartialEq, Eq, Structural)]
pub struct Vl53l1xSample {
    /// Distance in millimetres, as reported.
    pub distance: u16,
    /// Empirically ranges between 0 and 40,000.
    pub signal_rate: u16,
    pub corrected: Vl53l1xCorrectedSample,
}

/// `distance + offset`, held at the top of the 16-bit range.
pub open spec fn offset_distance(distance: u16, offset: u16) -> u16 {
    if distance as int + offset as int > u16::MAX as int {
        u16::MAX
    } else {
        (distance + offset) as u16
    }
}

/// The three rules, tried in order; the first that matches wins.
pub open spec fn classify(distance: u16, signal_rate: u16, offset: u16) -> Vl53l1xCorrectedSample {
    if distance == 0 && signal_rate > TOO_CLOSE_SIGNAL_RATE {
        Vl53l1xCorrectedSample::TooClose
    } else if signal_rate < MIN_SIGNAL_RATE {
        Vl53l1xCorrectedSample::TooFar
    } else {
        Vl53l1xCorrectedSample::Distance(offset_distance(distance, offset))
    }
}

/// Classifies a raw reading; a plausible distance gets the dead-zone offset
/// added, saturating at `u16::MAX`.
pub fn correct_sample(distance: u16, signal_rate: u16, range_offset: u16) -> (r:
    Vl53l1xCorrectedSample)
    ensures
        r == classify(distance, signal_rate, range_offset),
{
    if distance == 0 && signal_rate > TOO_CLOSE_SIGNAL_RATE {
        Vl53l1xCorrectedSample::TooClose
    } else if signal_rate < MIN_SIGNAL_RATE {
        Vl53l1xCorrectedSample::TooFar
    } else {
        Vl53l1xCorrectedSample::Distance(distance.saturating_add(range_offset))
    }
}

} // verus!
