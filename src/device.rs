//! A sensor that completed its power-on sequence: starting measurements and
//! reading results.

use crate::config::CONFIG_LEN;
use crate::registers::{
    addr_bytes, addr_to_bytes, be_u16, i2c_read_u16, is_read_of, read_request, reg_addr,
    BusRequest, Vl53l1xReg, CONFIG_START_ADDR,
};
use crate::sample::{classify, correct_sample, Vl53l1xSample};
use vstd::prelude::*;

verus! {

/// Status byte value while no result is waiting.
pub const DATA_NOT_READY: u8 = 0x03;

/// What to do after reading the data-ready status while waiting.
#[derive(Clone, Copy, Debug, PartialEq, Eq, Structural)]
pub enum DataReadyStep {
    Ready,
    /// Pause, then read the status again.
    PollAgain,
    /// The allowed polls are spent and no result came.
    TimedOut,
}

/// The decision after the `polls_made`-th status read, `status`, when at
/// most `max_polls` reads are allowed.
pub open spec fn data_ready_decision(status: u8, polls_made: u32, max_polls: u32) -> DataReadyStep {
    if status != DATA_NOT_READY {
        DataReadyStep::Ready
    } else if polls_made >= max_polls {
        DataReadyStep::TimedOut
    } else {
        DataReadyStep::PollAgain
    }
}

/// Bytes read at once for a sample: distance, signal rate and two more.
pub const SAMPLE_READ_LEN: usize = 6;

/// Driver state of one sensor: its measurement configuration, trim values
/// included, and its dead-zone correction.
pub struct Vl53l1x {
    config: Vec<u8>,
    /// The distance correction factor. The device has a dead zone between the
    /// VCSEL and SPAD, so a reported 1mm is 1mm beyond the dead zone, found
    /// empirically to be around 13cm. It differs per device and is best
    /// found by measuring a known distance with the offset set to 0.
    range_offset: u16,
}

impl Vl53l1x {
    pub closed spec fn config_view(&self) -> Seq<u8> {
        self.config@
    }

    pub closed spec fn range_offset(&self) -> u16 {
        self.range_offset
    }

    pub open spec fn wf(&self) -> bool {
        self.config_view().len() == CONFIG_LEN
    }

    pub(crate) fn from_parts(config: Vec<u8>, range_offset: u16) -> (r: Vl53l1x)
        ensures
            r.config_view() == config@,
            r.range_offset() == range_offset,
    {
        Vl53l1x { config, range_offset }
    }

    /// The dead-zone correction in millimetres.
    pub fn get_range_offset(&self) -> (r: u16)
        ensures
            r == self.range_offset(),
    {
        self.range_offset
    }

    /// The frame that starts a ranging cycle: the whole configuration block,
    /// written from its first register.
    pub fn start_measurement(&self) -> (r: Vec<u8>)
        requires
            self.wf(),
        ensures
            r@ == addr_bytes(CONFIG_START_ADDR) + self.config_view(),
            r@.len() == 2 + CONFIG_LEN,
    {
        let mut frame = addr_to_bytes(CONFIG_START_ADDR);
        let mut i: usize = 0;
        while i < self.config.len()
            invariant
                i <= self.config@.len(),
                frame@ == addr_bytes(CONFIG_START_ADDR) + self.config@.subrange(0, i as int),
            decreases self.config@.len() - i,
        {
            frame.push(self.config[i]);
            i += 1;
            assert(frame@ =~= addr_bytes(CONFIG_START_ADDR) + self.config@.subrange(0, i as int));
        }
        assert(self.config@.subrange(0, i as int) =~= self.config@);
        frame
    }

    /// The exchange that reads the data-ready status byte.
    pub fn data_ready_request() -> (r: BusRequest)
        ensures
            is_read_of(r, reg_addr(Vl53l1xReg::GpioTioHvStatus), 1),
    {
        read_request(Vl53l1xReg::GpioTioHvStatus.addr(), 1)
    }

    /// Whether a result is waiting, given the status byte; the flag is
    /// inverted: ready is anything but 0x03.
    pub fn check_data_ready(status: u8) -> (r: bool)
        ensures
            r == (status != DATA_NOT_READY),
    {
        status != DATA_NOT_READY
    }

    /// One step of a bounded wait for a result: `polls_made` status reads
    /// were made so far, the last of which answered `status`.
    pub fn wait_data_ready_step(status: u8, polls_made: u32, max_polls: u32) -> (r: DataReadyStep)
        ensures
            r == data_ready_decision(status, polls_made, max_polls),
    {
        if Self::check_data_ready(status) {
            DataReadyStep::Ready
        } else if polls_made >= max_polls {
            DataReadyStep::TimedOut
        } else {
            DataReadyStep::PollAgain
        }
    }

    /// The exchange that reads the distance register.
    pub fn distance_request() -> (r: BusRequest)
        ensures
            is_read_of(r, reg_addr(Vl53l1xReg::ResultFinalCrosstalkCorrectedRangeMmSd0), 2),
    {
        read_request(Vl53l1xReg::ResultFinalCrosstalkCorrectedRangeMmSd0.addr(), 2)
    }

    /// The distance in millimetres, from the answer to `distance_request`.
    pub fn read_distance(reply: &[u8]) -> (r: u16)
        requires
            reply@.len() >= 2,
        ensures
            r as int == be_u16(reply@[0], reply@[1]),
    {
        i2c_read_u16(reply)
    }

    /// The exchange that reads the signal-rate register.
    pub fn signal_rate_request() -> (r: BusRequest)
        ensures
            is_read_of(r, reg_addr(Vl53l1xReg::ResultPeakSignalCountRateCrosstalkCorrectedMcpsSd0), 2),
    {
        read_request(Vl53l1xReg::ResultPeakSignalCountRateCrosstalkCorrectedMcpsSd0.addr(), 2)
    }

    /// The signal rate, from the answer to `signal_rate_request`.
    pub fn read_signal_rate(reply: &[u8]) -> (r: u16)
        requires
            reply@.len() >= 2,
        ensures
            r as int == be_u16(reply@[0], reply@[1]),
    {
        i2c_read_u16(reply)
    }

    /// The exchange that reads distance and signal rate in one go, so that
    /// both come from the same ranging cycle.
    pub fn sample_request() -> (r: BusRequest)
        ensures
            is_read_of(r, reg_addr(Vl53l1xReg::ResultFinalCrosstalkCorrectedRangeMmSd0), SAMPLE_READ_LEN),
    {
        read_request(Vl53l1xReg::ResultFinalCrosstalkCorrectedRangeMmSd0.addr(), SAMPLE_READ_LEN)
    }

    /// The sample in the answer to `sample_request`: distance in bytes 0-1,
    /// signal rate in bytes 2-3, classified with this sensor's offset.
    pub fn read_sample(&self, reply: &[u8]) -> (r: Vl53l1xSample)
        requires
            reply@.len() >= 4,
        ensures
            r.distance as int == be_u16(reply@[0], reply@[1]),
            r.signal_rate as int == be_u16(reply@[2], reply@[3]),
            r.corrected == classify(r.distance, r.signal_rate, self.range_offset()),
    {
        let distance = i2c_read_u16(reply);
        let rest = vstd::slice::slice_subrange(reply, 2, 4);
        let signal_rate = i2c_read_u16(rest);
        let corrected = correct_sample(distance, signal_rate, self.range_offset);
        Vl53l1xSample { distance, signal_rate, corrected }
    }
}

} // verus!
