//! Register map and the byte framing of register reads and writes.

use byteorder::{BigEndian, ByteOrder};
use vstd::prelude::*;

verus! {

/// Default 7-bit bus address of the sensor.
pub const VL53L1_I2C_ADDR: u16 = 0x29;

/// Value of the model-ID register on a VL53L1X.
pub const MODEL_ID: u16 = 0xeacc;

/// Register at which the measurement configuration block starts.
pub const CONFIG_START_ADDR: u16 = 0x0001;

/// The named registers of the sensor that the driver uses.
#[derive(Clone, Copy, Debug, PartialEq, Eq, Structural)]
pub enum Vl53l1xReg {
    IdentificationModelId,
    SoftReset,
    FirmwareSystemStatus,
    PadI2cHvExtsupConfig,
    GpioTioHvStatus,
    ResultFinalCrosstalkCorrectedRangeMmSd0,
    ResultPeakSignalCountRateCrosstalkCorrectedMcpsSd0,
    RangeConfigVcselPeriodA,
    RangeConfigVcselPeriodB,
    RangeConfigValidPhaseHigh,
    RoiConfigUserRoiCentreSpad,
    RoiConfigUserRoiRequestedGlobalXySize,
    SdConfigWoiSd0,
    SdConfigWoiSd1,
    SdConfigInitialPhaseSd0,
    SdConfigInitialPhaseSd1,
}

/// The 16-bit address of each register.
pub open spec fn reg_addr(r: Vl53l1xReg) -> u16 {
    match r {
        Vl53l1xReg::IdentificationModelId => 0x010f,
        Vl53l1xReg::SoftReset => 0x0000,
        Vl53l1xReg::FirmwareSystemStatus => 0x00e5,
        Vl53l1xReg::PadI2cHvExtsupConfig => 0x002e,
        Vl53l1xReg::GpioTioHvStatus => 0x0031,
        Vl53l1xReg::ResultFinalCrosstalkCorrectedRangeMmSd0 => 0x0096,
        Vl53l1xReg::ResultPeakSignalCountRateCrosstalkCorrectedMcpsSd0 => 0x0098,
        Vl53l1xReg::RangeConfigVcselPeriodA => 0x0060,
        Vl53l1xReg::RangeConfigVcselPeriodB => 0x0063,
        Vl53l1xReg::RangeConfigValidPhaseHigh => 0x0069,
        Vl53l1xReg::RoiConfigUserRoiCentreSpad => 0x007f,
        Vl53l1xReg::RoiConfigUserRoiRequestedGlobalXySize => 0x0080,
        Vl53l1xReg::SdConfigWoiSd0 => 0x0078,
        Vl53l1xReg::SdConfigWoiSd1 => 0x0079,
        Vl53l1xReg::SdConfigInitialPhaseSd0 => 0x007a,
        Vl53l1xReg::SdConfigInitialPhaseSd1 => 0x007b,
    }
}

impl Vl53l1xReg {
    pub fn addr(&self) -> (r: u16)
        ensures
            r == reg_addr(*self),
    {
        match self {
            Vl53l1xReg::IdentificationModelId => 0x010f,
            Vl53l1xReg::SoftReset => 0x0000,
            Vl53l1xReg::FirmwareSystemStatus => 0x00e5,
            Vl53l1xReg::PadI2cHvExtsupConfig => 0x002e,
            Vl53l1xReg::GpioTioHvStatus => 0x0031,
            Vl53l1xReg::ResultFinalCrosstalkCorrectedRangeMmSd0 => 0x0096,
            Vl53l1xReg::ResultPeakSignalCountRateCrosstalkCorrectedMcpsSd0 => 0x0098,
            Vl53l1xReg::RangeConfigVcselPeriodA => 0x0060,
            Vl53l1xReg::RangeConfigVcselPeriodB => 0x0063,
            Vl53l1xReg::RangeConfigValidPhaseHigh => 0x0069,
            Vl53l1xReg::RoiConfigUserRoiCentreSpad => 0x007f,
            Vl53l1xReg::RoiConfigUserRoiRequestedGlobalXySize => 0x0080,
            Vl53l1xReg::SdConfigWoiSd0 => 0x0078,
            Vl53l1xReg::SdConfigWoiSd1 => 0x0079,
            Vl53l1xReg::SdConfigInitialPhaseSd0 => 0x007a,
            Vl53l1xReg::SdConfigInitialPhaseSd1 => 0x007b,
        }
    }
}

/// The two bytes that select a register on the bus: high byte, then low byte.
pub open spec fn addr_bytes(a: u16) -> Seq<u8> {
    seq![(a / 256) as u8, (a % 256) as u8]
}

/// A big-endian 16-bit value as two bytes.
pub open spec fn u16_bytes(v: u16) -> Seq<u8> {
    seq![(v / 256) as u8, (v % 256) as u8]
}

/// The value of two bytes read high byte first.
pub open spec fn be_u16(hi: u8, lo: u8) -> int {
    hi as int * 256 + lo as int
}

/// One exchange with the sensor, carried out by whoever owns the bus.
#[derive(Debug)]
pub enum BusRequest {
    /// Write these bytes; they start with a register address.
    Write(Vec<u8>),
    /// Write the register address `prefix`, then read `len` bytes.
    Read { prefix: Vec<u8>, len: usize },
    /// Wait this many microseconds.
    Delay(u64),
}

/// The request that reads `len` bytes starting at register address `addr`.
pub open spec fn is_read_of(q: BusRequest, addr: u16, len: usize) -> bool {
    q is Read && q->prefix@ == addr_bytes(addr) && q->len == len
}

/// The request that writes exactly `bytes`.
pub open spec fn is_write_of(q: BusRequest, bytes: Seq<u8>) -> bool {
    q is Write && q->Write_0@ == bytes
}

/// The address bytes of `addr`, high byte first.
pub fn addr_to_bytes(addr: u16) -> (r: Vec<u8>)
    ensures
        r@ == addr_bytes(addr),
{
    let mut v: Vec<u8> = Vec::new();
    v.push((addr >> 8) as u8);
    v.push((addr & 0xff) as u8);
    assert((addr >> 8) as u8 == (addr / 256) as u8 && (addr & 0xff) as u8 == (addr % 256) as u8)
        by (bit_vector);
    assert(v@ =~= addr_bytes(addr));
    v
}

/// The request that reads `len` bytes at `addr`.
pub fn read_request(addr: u16, len: usize) -> (r: BusRequest)
    ensures
        is_read_of(r, addr, len),
{
    BusRequest::Read { prefix: addr_to_bytes(addr), len }
}

/// The frame that writes the byte `val` to register `addr`.
pub fn i2c_write_u8(addr: u16, val: u8) -> (r: Vec<u8>)
    ensures
        r@ == addr_bytes(addr).push(val),
{
    let mut v = addr_to_bytes(addr);
    v.push(val);
    v
}

/// The frame that writes the 16-bit `val` to register `addr`, high byte first.
pub fn i2c_write_u16(addr: u16, val: u16) -> (r: Vec<u8>)
    ensures
        r@ == addr_bytes(addr) + u16_bytes(val),
{
    let mut v = addr_to_bytes(addr);
    v.push((val >> 8) as u8);
    v.push((val & 0xff) as u8);
    assert((val >> 8) as u8 == (val / 256) as u8 && (val & 0xff) as u8 == (val % 256) as u8)
        by (bit_vector);
    assert(v@ =~= addr_bytes(addr) + u16_bytes(val));
    v
}

/// Relies on byteorder's `BigEndian::read_u16`: the first two bytes of `buf`,
/// high byte first. It panics when `buf` holds fewer than two bytes.
#[verifier::external_body]
fn read_be_u16(buf: &[u8]) -> (r: u16)
    requires
        buf@.len() >= 2,
    ensures
        r as int == be_u16(buf@[0], buf@[1]),
{
    BigEndian::read_u16(buf)
}

/// The byte answered to a one-byte register read.
pub fn i2c_read_u8(reply: &[u8]) -> (r: u8)
    requires
        reply@.len() >= 1,
    ensures
        r == reply@[0],
{
    reply[0]
}

/// The value answered to a two-byte register read, high byte first.
pub fn i2c_read_u16(reply: &[u8]) -> (r: u16)
    requires
        reply@.len() >= 2,
    ensures
        r as int == be_u16(reply@[0], reply@[1]),
{
    read_be_u16(reply)
}


/// Every register frame starts with the register's address as
/// `[a >> 8, a & 0xff]`, before any payload byte.
pub proof fn frames_start_with_address(reg: Vl53l1xReg, v8: u8, v16: u16)
    ensures
        addr_bytes(reg_addr(reg)) == seq![(reg_addr(reg) >> 8) as u8, (reg_addr(reg) & 0xff) as u8],
        (addr_bytes(reg_addr(reg)).push(v8)).subrange(0, 2) == addr_bytes(reg_addr(reg)),
        (addr_bytes(reg_addr(reg)) + u16_bytes(v16)).subrange(0, 2) == addr_bytes(reg_addr(reg)),
{
    let a = reg_addr(reg);
    assert((a >> 8) as u8 == (a / 256) as u8 && (a & 0xff) as u8 == (a % 256) as u8) by (bit_vector);
    assert(addr_bytes(a) =~= seq![(a >> 8) as u8, (a & 0xff) as u8]);
    assert((addr_bytes(a).push(v8)).subrange(0, 2) =~= addr_bytes(a));
    assert((addr_bytes(a) + u16_bytes(v16)).subrange(0, 2) =~= addr_bytes(a));
}

} // verus!
