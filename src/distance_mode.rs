//! The ranging-window settings of each distance mode.

use crate::registers::{i2c_write_u8, addr_bytes, reg_addr, Vl53l1xReg};
use vstd::prelude::*;

verus! {

/// Trade-off between range and robustness to ambient light.
#[derive(Clone, Copy, Debug, PartialEq, Eq, Structural)]
pub enum DistanceMode {
    /// Max distance: 1360mm (dark), 1350mm (ambient)
    Short,
    /// Max distance: 2900mm (dark), 760mm (ambient)
    Mid,
    /// Max distance: 3600mm (dark), 730mm (ambient)
    Long,
}

/// The four register values a distance mode selects.
#[derive(Clone, Copy, Debug, PartialEq, Eq, Structural)]
pub struct ModeTiming {
    pub period_a: u8,
    pub period_b: u8,
    pub phase_high: u8,
    pub phase_init: u8,
}

/// The table of settings. Mid and Long program the same values.
pub open spec fn mode_timing(mode: DistanceMode) -> ModeTiming {
    match mode {
        DistanceMode::Short => ModeTiming { period_a: 0x07, period_b: 0x05, phase_high: 0x38, phase_init: 6 },
        _ => ModeTiming { period_a: 0x0f, period_b: 0x0d, phase_high: 0xb8, phase_init: 14 },
    }
}

/// The frame writing `val` to register `reg`.
pub open spec fn reg_write(reg: Vl53l1xReg, val: u8) -> Seq<u8> {
    addr_bytes(reg_addr(reg)).push(val)
}

/// The writes that program `t`, in the order they are sent.
pub open spec fn timing_frames(t: ModeTiming) -> Seq<Seq<u8>> {
    seq![
        reg_write(Vl53l1xReg::RangeConfigVcselPeriodA, t.period_a),
        reg_write(Vl53l1xReg::RangeConfigVcselPeriodB, t.period_b),
        reg_write(Vl53l1xReg::RangeConfigValidPhaseHigh, t.phase_high),
        reg_write(Vl53l1xReg::SdConfigWoiSd0, t.period_a),
        reg_write(Vl53l1xReg::SdConfigWoiSd1, t.period_b),
        reg_write(Vl53l1xReg::SdConfigInitialPhaseSd0, t.phase_init),
        reg_write(Vl53l1xReg::SdConfigInitialPhaseSd1, t.phase_init),
    ]
}

impl DistanceMode {
    /// The register values of this mode.
    pub fn timing(&self) -> (r: ModeTiming)
        ensures
            r == mode_timing(*self),
    {
        match self {
            DistanceMode::Short => ModeTiming { period_a: 0x07, period_b: 0x05, phase_high: 0x38, phase_init: 6 },
            DistanceMode::Mid => ModeTiming { period_a: 0x0f, period_b: 0x0d, phase_high: 0xb8, phase_init: 14 },
            DistanceMode::Long => ModeTiming { period_a: 0x0f, period_b: 0x0d, phase_high: 0xb8, phase_init: 14 },
        }
    }
}

/// The frames that switch the sensor to `mode`, to be written in order:
/// both VCSEL periods, the valid-phase limit, then the window and initial
/// phase of both sub-devices. Nothing is read back.
pub fn write_distance_mode(mode: DistanceMode) -> (r: Vec<Vec<u8>>)
    ensures
        r@.len() == 7,
        forall|i: int| 0 <= i < 7 ==> #[trigger] r@[i]@ == timing_frames(mode_timing(mode))[i],
{
    let t = mode.timing();
    let mut frames: Vec<Vec<u8>> = Vec::new();
    frames.push(i2c_write_u8(Vl53l1xReg::RangeConfigVcselPeriodA.addr(), t.period_a));
    frames.push(i2c_write_u8(Vl53l1xReg::RangeConfigVcselPeriodB.addr(), t.period_b));
    frames.push(i2c_write_u8(Vl53l1xReg::RangeConfigValidPhaseHigh.addr(), t.phase_high));
    frames.push(i2c_write_u8(Vl53l1xReg::SdConfigWoiSd0.addr(), t.period_a));
    frames.push(i2c_write_u8(Vl53l1xReg::SdConfigWoiSd1.addr(), t.period_b));
    frames.push(i2c_write_u8(Vl53l1xReg::SdConfigInitialPhaseSd0.addr(), t.phase_init));
    frames.push(i2c_write_u8(Vl53l1xReg::SdConfigInitialPhaseSd1.addr(), t.phase_init));
    frames
}

/// Mid and Long currently program identical registers.
pub proof fn mid_and_long_agree()
    ensures
        mode_timing(DistanceMode::Mid) == mode_timing(DistanceMode::Long),
        timing_frames(mode_timing(DistanceMode::Mid)) == timing_frames(mode_timing(DistanceMode::Long)),
{
}

} // verus!
