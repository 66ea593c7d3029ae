//! The power-on sequence: identify the model, pulse the soft reset, wait for
//! the firmware, select the I/O voltage, then load the trim resistors.
//!
//! Each stage asks for one bus exchange; the answer decides the next stage.

use crate::config::{default_config, default_config_bytes, CONFIG_LEN, TRIM_LEN};
use crate::device::Vl53l1x;
use crate::error::Vl53l1xError;
use crate::registers::{
    addr_bytes, be_u16, i2c_read_u16, i2c_read_u8, i2c_write_u16, i2c_write_u8, is_read_of,
    is_write_of, read_request, reg_addr, u16_bytes, BusRequest, Vl53l1xReg, MODEL_ID,
};
use vstd::prelude::*;

verus! {

/// Polls of the firmware status that may find it busy before giving up.
pub const FIRMWARE_POLL_LIMIT: u32 = 100;

/// Pause after pulling the reset low, in microseconds.
pub const RESET_LOW_DELAY_US: u64 = 100;

/// Pause after releasing the reset, in microseconds.
pub const RESET_HIGH_DELAY_US: u64 = 200;

/// Pause between firmware status polls, in microseconds.
pub const FIRMWARE_POLL_DELAY_US: u64 = 10_000;

/// Where the power-on sequence stands.
#[derive(Clone, Copy, Debug, PartialEq, Eq, Structural)]
pub enum BringUpStage {
    /// Read the model-ID register.
    IdentifyModel,
    /// Write 0 to the soft-reset register.
    ResetLow,
    PauseAfterLow,
    /// Write 1 to the soft-reset register.
    ResetHigh,
    PauseAfterHigh,
    /// Read the firmware status; the count is how many polls found it busy.
    PollFirmware(u32),
    PauseFirmware(u32),
    /// Read the I/O voltage configuration.
    ReadVoltage,
    /// Write it back with the 2.8V bit set.
    WriteVoltage(u16),
    /// Read trim register `i + 1` into byte `i` of the configuration.
    LoadTrim(usize),
    Ready,
}

/// The phase a stage belongs to, in the order the phases run.
pub open spec fn phase(s: BringUpStage) -> nat {
    match s {
        BringUpStage::IdentifyModel => 0,
        BringUpStage::ResetLow | BringUpStage::PauseAfterLow | BringUpStage::ResetHigh
        | BringUpStage::PauseAfterHigh => 1,
        BringUpStage::PollFirmware(_) | BringUpStage::PauseFirmware(_) => 2,
        BringUpStage::ReadVoltage | BringUpStage::WriteVoltage(_) => 3,
        BringUpStage::LoadTrim(_) => 4,
        BringUpStage::Ready => 5,
    }
}

/// The exchange each stage asks for.
pub open spec fn request_of(s: BringUpStage, q: BusRequest) -> bool {
    match s {
        BringUpStage::IdentifyModel => is_read_of(q, reg_addr(Vl53l1xReg::IdentificationModelId), 2),
        BringUpStage::ResetLow => is_write_of(q, addr_bytes(reg_addr(Vl53l1xReg::SoftReset)).push(0)),
        BringUpStage::PauseAfterLow => q == BusRequest::Delay(RESET_LOW_DELAY_US),
        BringUpStage::ResetHigh => is_write_of(q, addr_bytes(reg_addr(Vl53l1xReg::SoftReset)).push(1)),
        BringUpStage::PauseAfterHigh => q == BusRequest::Delay(RESET_HIGH_DELAY_US),
        BringUpStage::PollFirmware(_) => is_read_of(q, reg_addr(Vl53l1xReg::FirmwareSystemStatus), 2),
        BringUpStage::PauseFirmware(_) => q == BusRequest::Delay(FIRMWARE_POLL_DELAY_US),
        BringUpStage::ReadVoltage => is_read_of(q, reg_addr(Vl53l1xReg::PadI2cHvExtsupConfig), 2),
        BringUpStage::WriteVoltage(v) => is_write_of(
            q,
            addr_bytes(reg_addr(Vl53l1xReg::PadI2cHvExtsupConfig)) + u16_bytes(v),
        ),
        BringUpStage::LoadTrim(i) => is_read_of(q, (i + 1) as u16, 1),
        BringUpStage::Ready => false,
    }
}

/// How many bytes the answer to a stage's exchange holds.
pub open spec fn reply_len(s: BringUpStage) -> nat {
    match s {
        BringUpStage::IdentifyModel | BringUpStage::PollFirmware(_) | BringUpStage::ReadVoltage => 2,
        BringUpStage::LoadTrim(_) => 1,
        _ => 0,
    }
}

/// `v` with bit 0 set and every other bit kept.
pub open spec fn with_low_bit(v: u16) -> u16 {
    if v % 2 == 1 {
        v
    } else {
        (v + 1) as u16
    }
}

/// The stage after `s` given the answer `reply`, or why the sequence stops.
pub open spec fn next_stage(s: BringUpStage, reply: Seq<u8>) -> Result<BringUpStage, Vl53l1xError> {
    match s {
        BringUpStage::IdentifyModel => {
            let id = be_u16(reply[0], reply[1]) as u16;
            if id == MODEL_ID {
                Ok(BringUpStage::ResetLow)
            } else {
                Err(Vl53l1xError::UnexpectedDevice(id))
            }
        },
        BringUpStage::ResetLow => Ok(BringUpStage::PauseAfterLow),
        BringUpStage::PauseAfterLow => Ok(BringUpStage::ResetHigh),
        BringUpStage::ResetHigh => Ok(BringUpStage::PauseAfterHigh),
        BringUpStage::PauseAfterHigh => Ok(BringUpStage::PollFirmware(0)),
        BringUpStage::PollFirmware(busy) => {
            if be_u16(reply[0], reply[1]) % 2 == 1 {
                if busy >= FIRMWARE_POLL_LIMIT {
                    Err(Vl53l1xError::FirmwareTimeout)
                } else {
                    Ok(BringUpStage::PauseFirmware((busy + 1) as u32))
                }
            } else {
                Ok(BringUpStage::ReadVoltage)
            }
        },
        BringUpStage::PauseFirmware(busy) => Ok(BringUpStage::PollFirmware(busy)),
        BringUpStage::ReadVoltage => Ok(
            BringUpStage::WriteVoltage(with_low_bit(be_u16(reply[0], reply[1]) as u16)),
        ),
        BringUpStage::WriteVoltage(_) => Ok(BringUpStage::LoadTrim(0)),
        BringUpStage::LoadTrim(i) => if i + 1 >= TRIM_LEN {
            Ok(BringUpStage::Ready)
        } else {
            Ok(BringUpStage::LoadTrim((i + 1) as usize))
        },
        BringUpStage::Ready => Ok(BringUpStage::Ready),
    }
}

/// The configuration block after the answer `reply` to stage `s`.
pub open spec fn next_config(s: BringUpStage, config: Seq<u8>, reply: Seq<u8>) -> Seq<u8> {
    match s {
        BringUpStage::LoadTrim(i) => config.update(i as int, reply[0]),
        _ => config,
    }
}

/// The stages that can occur, with the block they hold: only the trim bytes
/// differ from the built-in block.
pub open spec fn stage_ok(s: BringUpStage, config: Seq<u8>) -> bool {
    &&& config.len() == CONFIG_LEN
    &&& forall|i: int| TRIM_LEN <= i < CONFIG_LEN ==> config[i] == #[trigger] default_config()[i]
    &&& match s {
        BringUpStage::PollFirmware(busy) => busy <= FIRMWARE_POLL_LIMIT,
        BringUpStage::PauseFirmware(busy) => 1 <= busy <= FIRMWARE_POLL_LIMIT,
        BringUpStage::LoadTrim(i) => i < TRIM_LEN,
        _ => true,
    }
}

/// A power-on sequence in progress.
pub struct BringUp {
    stage: BringUpStage,
    config: Vec<u8>,
    range_offset: u16,
}

impl BringUp {
    pub closed spec fn stage_view(&self) -> BringUpStage {
        self.stage
    }

    pub closed spec fn config_view(&self) -> Seq<u8> {
        self.config@
    }

    pub closed spec fn offset_view(&self) -> u16 {
        self.range_offset
    }

    pub open spec fn wf(&self) -> bool {
        stage_ok(self.stage_view(), self.config_view())
    }

    /// A sequence about to identify the sensor, for a sensor whose dead zone
    /// is `range_offset` millimetres.
    pub fn new(range_offset: u16) -> (r: BringUp)
        ensures
            r.wf(),
            r.stage_view() == BringUpStage::IdentifyModel,
            r.config_view() == default_config(),
            r.offset_view() == range_offset,
    {
        BringUp { stage: BringUpStage::IdentifyModel, config: default_config_bytes(), range_offset }
    }

    pub fn stage(&self) -> (r: BringUpStage)
        ensures
            r == self.stage_view(),
    {
        self.stage
    }

    pub fn is_ready(&self) -> (r: bool)
        ensures
            r == (self.stage_view() == BringUpStage::Ready),
    {
        self.stage == BringUpStage::Ready
    }

    /// How many bytes the answer to the current exchange must hold.
    pub fn reply_len(&self) -> (r: usize)
        ensures
            r == reply_len(self.stage_view()),
    {
        match self.stage {
            BringUpStage::IdentifyModel | BringUpStage::PollFirmware(_) | BringUpStage::ReadVoltage => 2,
            BringUpStage::LoadTrim(_) => 1,
            _ => 0,
        }
    }

    /// The exchange the current stage asks for.
    pub fn request(&self) -> (r: BusRequest)
        requires
            self.wf(),
            self.stage_view() != BringUpStage::Ready,
        ensures
            request_of(self.stage_view(), r),
    {
        match self.stage {
            BringUpStage::IdentifyModel => read_request(Vl53l1xReg::IdentificationModelId.addr(), 2),
            BringUpStage::ResetLow => BusRequest::Write(i2c_write_u8(Vl53l1xReg::SoftReset.addr(), 0)),
            BringUpStage::PauseAfterLow => BusRequest::Delay(RESET_LOW_DELAY_US),
            BringUpStage::ResetHigh => BusRequest::Write(i2c_write_u8(Vl53l1xReg::SoftReset.addr(), 1)),
            BringUpStage::PauseAfterHigh => BusRequest::Delay(RESET_HIGH_DELAY_US),
            BringUpStage::PollFirmware(_) => read_request(Vl53l1xReg::FirmwareSystemStatus.addr(), 2),
            BringUpStage::PauseFirmware(_) => BusRequest::Delay(FIRMWARE_POLL_DELAY_US),
            BringUpStage::ReadVoltage => read_request(Vl53l1xReg::PadI2cHvExtsupConfig.addr(), 2),
            BringUpStage::WriteVoltage(v) => BusRequest::Write(
                i2c_write_u16(Vl53l1xReg::PadI2cHvExtsupConfig.addr(), v),
            ),
            BringUpStage::LoadTrim(i) => read_request((i + 1) as u16, 1),
            BringUpStage::Ready => BusRequest::Delay(0),
        }
    }

    /// Takes the answer to the current exchange and moves to the next stage.
    /// A wrong model ID, or a firmware still busy after the allowed polls,
    /// ends the sequence with that error.
    pub fn advance(&mut self, reply: &[u8]) -> (r: Result<(), Vl53l1xError>)
        requires
            old(self).wf(),
            old(self).stage_view() != BringUpStage::Ready,
            reply@.len() == reply_len(old(self).stage_view()),
        ensures
            match next_stage(old(self).stage_view(), reply@) {
                Ok(s) => r is Ok && final(self).stage_view() == s,
                Err(e) => r == Err::<(), Vl53l1xError>(e),
            },
            r is Ok ==> final(self).wf(),
            final(self).config_view() == next_config(old(self).stage_view(), old(self).config_view(), reply@),
            final(self).offset_view() == old(self).offset_view(),
    {
        match self.stage {
            BringUpStage::IdentifyModel => {
                let id = i2c_read_u16(reply);
                if id != MODEL_ID {
                    return Err(Vl53l1xError::UnexpectedDevice(id));
                }
                self.stage = BringUpStage::ResetLow;
            },
            BringUpStage::ResetLow => {
                self.stage = BringUpStage::PauseAfterLow;
            },
            BringUpStage::PauseAfterLow => {
                self.stage = BringUpStage::ResetHigh;
            },
            BringUpStage::ResetHigh => {
                self.stage = BringUpStage::PauseAfterHigh;
            },
            BringUpStage::PauseAfterHigh => {
                self.stage = BringUpStage::PollFirmware(0);
            },
            BringUpStage::PollFirmware(busy) => {
                let status = i2c_read_u16(reply);
                assert(status & 1u16 == status % 2) by (bit_vector);
                if status & 0x0001 != 0 {
                    if busy >= FIRMWARE_POLL_LIMIT {
                        return Err(Vl53l1xError::FirmwareTimeout);
                    }
                    self.stage = BringUpStage::PauseFirmware(busy + 1);
                } else {
                    self.stage = BringUpStage::ReadVoltage;
                }
            },
            BringUpStage::PauseFirmware(busy) => {
                self.stage = BringUpStage::PollFirmware(busy);
            },
            BringUpStage::ReadVoltage => {
                let v = i2c_read_u16(reply);
                assert(v | 1u16 == if v % 2 == 1 { v } else { (v + 1) as u16 }) by (bit_vector);
                self.stage = BringUpStage::WriteVoltage(v | 0x0001);
            },
            BringUpStage::WriteVoltage(_) => {
                self.stage = BringUpStage::LoadTrim(0);
            },
            BringUpStage::LoadTrim(i) => {
                let b = i2c_read_u8(reply);
                self.config.set(i, b);
                if i + 1 >= TRIM_LEN {
                    self.stage = BringUpStage::Ready;
                } else {
                    self.stage = BringUpStage::LoadTrim(i + 1);
                }
            },
            BringUpStage::Ready => {},
        }
        Ok(())
    }

    /// The driver state of a sensor that completed the sequence.
    pub fn finish(self) -> (r: Vl53l1x)
        requires
            self.wf(),
            self.stage_view() == BringUpStage::Ready,
        ensures
            r.wf(),
            r.config_view() == self.config_view(),
            r.config_view().subrange(TRIM_LEN as int, CONFIG_LEN as int)
                == default_config().subrange(TRIM_LEN as int, CONFIG_LEN as int),
            r.range_offset() == self.offset_view(),
    {
        assert(self.config@.subrange(TRIM_LEN as int, CONFIG_LEN as int)
            =~= default_config().subrange(TRIM_LEN as int, CONFIG_LEN as int));
        Vl53l1x::from_parts(self.config, self.range_offset)
    }
}


/// The power-on phases run in order and none is skipped: each answered
/// exchange keeps the phase or moves to the next one. The soft reset begins
/// only after the model ID was read and matched; the firmware polls begin
/// only after the reset pulse and its pause; the sequence is ready only
/// after the last trim byte was loaded.
pub proof fn bring_up_step_order(s: BringUpStage, config: Seq<u8>, reply: Seq<u8>)
    requires
        stage_ok(s, config),
        s != BringUpStage::Ready,
        reply.len() == reply_len(s),
    ensures
        next_stage(s, reply) is Ok ==> phase(s) <= phase(next_stage(s, reply)->Ok_0) <= phase(s) + 1,
        next_stage(s, reply) == Ok::<BringUpStage, Vl53l1xError>(BringUpStage::ResetLow) ==> s
            == BringUpStage::IdentifyModel && be_u16(reply[0], reply[1]) == MODEL_ID,
        next_stage(s, reply) == Ok::<BringUpStage, Vl53l1xError>(BringUpStage::PollFirmware(0)) ==> s
            == BringUpStage::PauseAfterHigh,
        next_stage(s, reply) == Ok::<BringUpStage, Vl53l1xError>(BringUpStage::Ready) ==> s
            == BringUpStage::LoadTrim((TRIM_LEN - 1) as usize),
{
}

/// Every step of the sequence keeps the configuration block 135 bytes long
/// with all bytes past the trim region at their built-in values; a trim step
/// writes the answered byte at its own index, below 36, and nothing else.
pub proof fn bring_up_keeps_defaults(s: BringUpStage, config: Seq<u8>, reply: Seq<u8>)
    requires
        stage_ok(s, config),
        s != BringUpStage::Ready,
        reply.len() == reply_len(s),
        next_stage(s, reply) is Ok,
    ensures
        stage_ok(next_stage(s, reply)->Ok_0, next_config(s, config, reply)),
        forall|i: int|
            0 <= i < CONFIG_LEN && !(s == BringUpStage::LoadTrim(i as usize)) ==> #[trigger] next_config(
                s,
                config,
                reply,
            )[i] == config[i],
        s is LoadTrim ==> s->LoadTrim_0 < TRIM_LEN && next_config(s, config, reply)[s->LoadTrim_0 as int]
            == reply[0],
{
}


/// A run of the sequence from power-on: stage `k`, answered with reply `k`,
/// moved to stage `k + 1` and turned block `k` into block `k + 1`.
pub open spec fn is_run(stages: Seq<BringUpStage>, configs: Seq<Seq<u8>>, replies: Seq<Seq<u8>>) -> bool {
    &&& stages.len() >= 1
    &&& configs.len() == stages.len()
    &&& replies.len() + 1 == stages.len()
    &&& stages[0] == BringUpStage::IdentifyModel
    &&& configs[0] == default_config()
    &&& forall|k: int|
        0 <= k < replies.len() ==> {
            &&& stages[k] != BringUpStage::Ready
            &&& #[trigger] replies[k].len() == reply_len(stages[k])
            &&& next_stage(stages[k], replies[k]) == Ok::<BringUpStage, Vl53l1xError>(stages[k + 1])
            &&& configs[k + 1] == next_config(stages[k], configs[k], replies[k])
        }
}

proof fn run_prefix(stages: Seq<BringUpStage>, configs: Seq<Seq<u8>>, replies: Seq<Seq<u8>>, k: int)
    requires
        is_run(stages, configs, replies),
        0 <= k < stages.len(),
    ensures
        stage_ok(stages[k], configs[k]),
        forall|j: int| 0 <= j <= k ==> phase(#[trigger] stages[j]) <= phase(stages[k]),
    decreases k,
{
    if k > 0 {
        run_prefix(stages, configs, replies, k - 1);
        assert(replies[k - 1].len() == reply_len(stages[k - 1]));
        bring_up_step_order(stages[k - 1], configs[k - 1], replies[k - 1]);
        bring_up_keeps_defaults(stages[k - 1], configs[k - 1], replies[k - 1]);
    } else {
        assert(default_config().len() == CONFIG_LEN);
    }
}

/// Over a whole run from power-on the phases never go back: model
/// identification, soft reset, firmware wait, voltage selection and trim load
/// come in that order, and at every point of the run the block is 135 bytes
/// long with every byte past the first 36 at its built-in value.
pub proof fn bring_up_run_in_order(stages: Seq<BringUpStage>, configs: Seq<Seq<u8>>, replies: Seq<Seq<u8>>)
    requires
        is_run(stages, configs, replies),
    ensures
        forall|j: int, k: int|
            0 <= j <= k < stages.len() ==> phase(#[trigger] stages[j]) <= phase(#[trigger] stages[k]),
        forall|k: int| 0 <= k < stages.len() ==> stage_ok(#[trigger] stages[k], configs[k]),
{
    assert forall|j: int, k: int| 0 <= j <= k < stages.len() implies phase(#[trigger] stages[j]) <= phase(
        #[trigger] stages[k],
    ) by {
        run_prefix(stages, configs, replies, k);
    }
    assert forall|k: int| 0 <= k < stages.len() implies stage_ok(#[trigger] stages[k], configs[k]) by {
        run_prefix(stages, configs, replies, k);
    }
}


proof fn trim_byte_stays(
    stages: Seq<BringUpStage>,
    configs: Seq<Seq<u8>>,
    replies: Seq<Seq<u8>>,
    k: int,
    m: int,
)
    requires
        is_run(stages, configs, replies),
        0 <= k < m < stages.len(),
        stages[k] is LoadTrim,
    ensures
        configs[m][stages[k]->LoadTrim_0 as int] == replies[k][0],
        stages[m] == BringUpStage::Ready || (stages[m] is LoadTrim && stages[m]->LoadTrim_0
            > stages[k]->LoadTrim_0),
    decreases m,
{
    run_prefix(stages, configs, replies, k);
    assert(replies[k].len() == reply_len(stages[k]));
    if m > k + 1 {
        trim_byte_stays(stages, configs, replies, k, m - 1);
        run_prefix(stages, configs, replies, m - 1);
        assert(replies[m - 1].len() == reply_len(stages[m - 1]));
    }
}

/// In a run from power-on, the byte answered to the read of trim register
/// `i + 1` is byte `i` of the block from then on, and every stage after it
/// is a later trim read or the end of the sequence.
pub proof fn bring_up_run_keeps_trims(
    stages: Seq<BringUpStage>,
    configs: Seq<Seq<u8>>,
    replies: Seq<Seq<u8>>,
)
    requires
        is_run(stages, configs, replies),
    ensures
        forall|k: int, m: int|
            0 <= k < m < stages.len() && #[trigger] stages[k] is LoadTrim ==> #[trigger] configs[m][stages[k]->LoadTrim_0 as int]
                == replies[k][0],
{
    assert forall|k: int, m: int|
        0 <= k < m < stages.len() && #[trigger] stages[k] is LoadTrim implies #[trigger] configs[m][stages[k]->LoadTrim_0 as int]
            == replies[k][0] by {
        trim_byte_stays(stages, configs, replies, k, m);
    }
}

} // verus!
