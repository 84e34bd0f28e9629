//! Register map of the MPU9250: addresses, the multi-byte data blocks and the
//! bit fields of the single-byte configuration registers.
use vstd::prelude::*;

use vstd::arithmetic::power2::lemma2_to64;

use crate::bits::{
    be_i16, bit, decode_be_i16, decode_fifo_count, decode_i8, field, fifo_count_value, get_bit,
    get_field, halve_floor, lemma_bit_arithmetic, lemma_field_arithmetic, set_bit, set_field, signed_byte, with_bit,
    with_field,
};

verus! {

pub const REG_SELF_TEST_GYRO_START: u8 = 0x0;
pub const REG_SELF_TEST_GYRO_LEN: u8 = 3;
pub const REG_SELF_TEST_ACCEL_START: u8 = 0xd;
pub const REG_SELF_TEST_ACCEL_LEN: u8 = 3;
pub const REG_GRAVITY_OFFSET_START: u8 = 0x13;
pub const REG_GRAVITY_OFFSET_LEN: u8 = 6;
pub const REG_SMPLRT_DIV: u8 = 0x19;
pub const REG_CONFIG: u8 = 0x1a;
pub const REG_GYRO_CONFIG: u8 = 0x1b;
pub const REG_ACCEL_CONFIG_1: u8 = 0x1c;
pub const REG_ACCEL_CONFIG_2: u8 = 0x1d;
pub const REG_LP_ACCEL_ODR: u8 = 0x1e;
pub const REG_WOM_THR: u8 = 0x1f;
pub const REG_FIFO_EN: u8 = 0x23;
pub const REG_I2C_MST_CTRL: u8 = 0x24;
pub const REG_I2C_SLV0_ADDR: u8 = 0x25;
pub const REG_I2C_SLV0_REG: u8 = 0x26;
pub const REG_I2C_SLV0_CTRL: u8 = 0x27;
pub const REG_I2C_SLV1_ADDR: u8 = 0x28;
pub const REG_I2C_SLV1_REG: u8 = 0x29;
pub const REG_I2C_SLV1_CTRL: u8 = 0x2a;
pub const REG_I2C_SLV2_ADDR: u8 = 0x2b;
pub const REG_I2C_SLV2_REG: u8 = 0x2c;
pub const REG_I2C_SLV2_CTRL: u8 = 0x2d;
pub const REG_I2C_SLV3_ADDR: u8 = 0x2e;
pub const REG_I2C_SLV3_REG: u8 = 0x2f;
pub const REG_I2C_SLV3_CTRL: u8 = 0x30;
pub const REG_I2C_SLV4_ADDR: u8 = 0x31;
pub const REG_I2C_SLV4_REG: u8 = 0x32;
pub const REG_I2C_SLV4_DO: u8 = 0x33;
pub const REG_I2C_SLV4_CTRL: u8 = 0x34;
pub const REG_I2C_SLV4_DI: u8 = 0x35;
pub const REG_I2C_MST_STATUS: u8 = 0x36;
pub const REG_INT_PIN_CFG: u8 = 0x37;
pub const REG_INT_ENABLE: u8 = 0x38;
pub const REG_INT_STATUS: u8 = 0x3a;
pub const REG_ACCEL_OUT_START: u8 = 0x3b;
pub const REG_ACCEL_OUT_LEN: u8 = 0x06;
pub const REG_TEMP_OUT_START: u8 = 0x41;
pub const REG_TEMP_OUT_LEN: u8 = 0x02;
pub const REG_GYRO_OUT_START: u8 = 0x43;
pub const REG_GYRO_OUT_LEN: u8 = 0x06;
pub const REG_EXT_SENSOR_DATA_START: u8 = 0x49;
pub const REG_EXT_SENSOR_DATA_LEN: u8 = 24;
pub const REG_I2C_SLV0_DO: u8 = 0x63;
pub const REG_I2C_SLV1_DO: u8 = 0x64;
pub const REG_I2C_SLV2_DO: u8 = 0x65;
pub const REG_I2C_SLV3_DO: u8 = 0x66;
pub const REG_I2C_MST_DELAY_CTRL: u8 = 0x67;
pub const REG_SIGNAL_PATH_RESET: u8 = 0x68;
pub const REG_MOT_DETECT_CTRL: u8 = 0x69;
pub const REG_USER_CTRL: u8 = 0x6a;
pub const REG_PWR_MGMT_1: u8 = 0x6b;
pub const REG_PWR_MGMT_2: u8 = 0x6c;
pub const REG_FIFO_COUNT_START: u8 = 0x72;
pub const REG_FIFO_COUNT_LEN: u8 = 2;
pub const REG_FIFO_R_W: u8 = 0x74;
pub const REG_WHO_AM_I: u8 = 0x75;
pub const REG_ACCEL_OFFSET_START: u8 = 0x77;
pub const REG_ACCEL_OFFSET_LEN: u8 = 2;
pub const REG_XA_OFFSET_START: u8 = 0x77;
pub const REG_XA_OFFSET_LEN: u8 = 2;
pub const REG_YA_OFFSET_START: u8 = 0x7A;
pub const REG_YA_OFFSET_LEN: u8 = 2;
pub const REG_ZA_OFFSET_START: u8 = 0x7D;
pub const REG_ZA_OFFSET_LEN: u8 = 2;

/// A single-byte register with a fixed address.
pub trait Register: Copy + Sized {
    /// Address of the register.
    spec fn address_spec() -> u8;

    /// Address of the register.
    fn address() -> (r: u8)
        ensures
            r == Self::address_spec(),
    ;

    /// Raw byte held by the register value.
    spec fn bits(self) -> u8;

    /// The register value whose raw byte is `val`.
    spec fn from_bits(val: u8) -> Self;

    /// A register value and its raw byte determine each other: the value
    /// made from a byte holds that byte, and the value made from the byte a
    /// value holds is that value.
    proof fn lemma_bits_round_trip(r: Self, val: u8)
        ensures
            Self::from_bits(val).bits() == val,
            Self::from_bits(r.bits()) == r,
    ;

    /// The register value whose raw byte is `val`.
    fn from_u8(val: u8) -> (r: Self)
        ensures
            r == Self::from_bits(val),
            r.bits() == val,
    ;

    /// The raw byte of the register value.
    fn to_u8(self) -> (r: u8)
        ensures
            r == self.bits(),
    ;
}

/// Converting a register value to its byte and back gives the same value, and
/// converting a byte to a register value and back gives the same byte.
pub proof fn lemma_register_round_trip<R: Register>(r: R, val: u8)
    ensures
        R::from_bits(r.bits()) == r,
        R::from_bits(val).bits() == val,
{
    R::lemma_bits_round_trip(r, val);
}

/// Factory self-test codes of the gyroscope axes (registers 0x00..=0x02).
#[derive(Copy, Clone, PartialEq, Debug, Default)]
pub struct SelfTestGyro(pub [u8; 3]);

impl SelfTestGyro {
    /// The three codes as signed bytes, X, Y, Z.
    pub fn self_test_gyro(&self) -> (r: (i8, i8, i8))
        ensures
            r.0 == signed_byte(self.0[0]),
            r.1 == signed_byte(self.0[1]),
            r.2 == signed_byte(self.0[2]),
    {
        (decode_i8(self.0[0]), decode_i8(self.0[1]), decode_i8(self.0[2]))
    }
}

/// Factory self-test codes of the accelerometer axes (registers 0x0d..=0x0f).
#[derive(Copy, Clone, PartialEq, Debug, Default)]
pub struct SelfTestAccel(pub [u8; 3]);

impl SelfTestAccel {
    /// The three codes as signed bytes, X, Y, Z.
    pub fn self_test_accel(&self) -> (r: (i8, i8, i8))
        ensures
            r.0 == signed_byte(self.0[0]),
            r.1 == signed_byte(self.0[1]),
            r.2 == signed_byte(self.0[2]),
    {
        (decode_i8(self.0[0]), decode_i8(self.0[1]), decode_i8(self.0[2]))
    }
}

/// Gyroscope offset words, big-endian X, Y, Z (registers 0x13..=0x18).
#[derive(Copy, Clone, PartialEq, Debug, Default)]
pub struct GravityOffset(pub [u8; 6]);

impl GravityOffset {
    /// The three offsets as signed 16-bit words.
    pub fn gravity_offset(&self) -> (r: (i16, i16, i16))
        ensures
            r.0 == be_i16(self.0[0], self.0[1]),
            r.1 == be_i16(self.0[2], self.0[3]),
            r.2 == be_i16(self.0[4], self.0[5]),
    {
        (
            decode_be_i16(self.0[0], self.0[1]),
            decode_be_i16(self.0[2], self.0[3]),
            decode_be_i16(self.0[4], self.0[5]),
        )
    }
}

/// One contiguous sample: accelerometer X, Y, Z, temperature, gyroscope X, Y, Z,
/// each a big-endian word (registers 0x3b..=0x48).
#[derive(Copy, Clone, PartialEq, Debug, Default)]
pub struct AgtDataOut(pub [u8; 14]);

impl AgtDataOut {
    /// The seven signed words of the sample, in register order.
    pub fn agt_out(&self) -> (r: (i16, i16, i16, i16, i16, i16, i16))
        ensures
            r.0 == be_i16(self.0[0], self.0[1]),
            r.1 == be_i16(self.0[2], self.0[3]),
            r.2 == be_i16(self.0[4], self.0[5]),
            r.3 == be_i16(self.0[6], self.0[7]),
            r.4 == be_i16(self.0[8], self.0[9]),
            r.5 == be_i16(self.0[10], self.0[11]),
            r.6 == be_i16(self.0[12], self.0[13]),
    {
        (
            decode_be_i16(self.0[0], self.0[1]),
            decode_be_i16(self.0[2], self.0[3]),
            decode_be_i16(self.0[4], self.0[5]),
            decode_be_i16(self.0[6], self.0[7]),
            decode_be_i16(self.0[8], self.0[9]),
            decode_be_i16(self.0[10], self.0[11]),
            decode_be_i16(self.0[12], self.0[13]),
        )
    }
}

/// A combined sample decodes to the same words as the accelerometer,
/// temperature and gyroscope samples of the same registers.
pub proof fn lemma_combined_sample_splits(agt: AgtDataOut, a: AccelOut, t: TempOut, g: GyroOut)
    requires
        a.0@ == agt.0@.subrange(0, 6),
        t.0@ == agt.0@.subrange(6, 8),
        g.0@ == agt.0@.subrange(8, 14),
    ensures
        be_i16(a.0[0], a.0[1]) == be_i16(agt.0[0], agt.0[1]),
        be_i16(a.0[2], a.0[3]) == be_i16(agt.0[2], agt.0[3]),
        be_i16(a.0[4], a.0[5]) == be_i16(agt.0[4], agt.0[5]),
        be_i16(t.0[0], t.0[1]) == be_i16(agt.0[6], agt.0[7]),
        be_i16(g.0[0], g.0[1]) == be_i16(agt.0[8], agt.0[9]),
        be_i16(g.0[2], g.0[3]) == be_i16(agt.0[10], agt.0[11]),
        be_i16(g.0[4], g.0[5]) == be_i16(agt.0[12], agt.0[13]),
{
    assert(a.0[0] == a.0@[0] && a.0@[0] == agt.0@.subrange(0, 6)[0]);
    assert(a.0[1] == agt.0[1] && a.0[2] == agt.0[2] && a.0[3] == agt.0[3]);
    assert(a.0[4] == agt.0[4] && a.0[5] == agt.0[5]);
    assert(t.0[0] == t.0@[0] && t.0@[0] == agt.0@.subrange(6, 8)[0]);
    assert(t.0[1] == agt.0[7]);
    assert(g.0[0] == g.0@[0] && g.0@[0] == agt.0@.subrange(8, 14)[0]);
    assert(g.0[1] == agt.0[9] && g.0[2] == agt.0[10] && g.0[3] == agt.0[11]);
    assert(g.0[4] == agt.0[12] && g.0[5] == agt.0[13]);
}

/// Accelerometer sample, big-endian X, Y, Z (registers 0x3b..=0x40).
#[derive(Copy, Clone, PartialEq, Debug, Default)]
pub struct AccelOut(pub [u8; 6]);

impl AccelOut {
    /// The three axes as signed words.
    pub fn accel_out(&self) -> (r: (i16, i16, i16))
        ensures
            r.0 == be_i16(self.0[0], self.0[1]),
            r.1 == be_i16(self.0[2], self.0[3]),
            r.2 == be_i16(self.0[4], self.0[5]),
    {
        (
            decode_be_i16(self.0[0], self.0[1]),
            decode_be_i16(self.0[2], self.0[3]),
            decode_be_i16(self.0[4], self.0[5]),
        )
    }
}

/// Temperature sample, one big-endian word (registers 0x41..=0x42).
#[derive(Copy, Clone, PartialEq, Debug, Default)]
pub struct TempOut(pub [u8; 2]);

impl TempOut {
    /// The temperature as a signed word.
    pub fn temp_out(&self) -> (r: i16)
        ensures
            r == be_i16(self.0[0], self.0[1]),
    {
        decode_be_i16(self.0[0], self.0[1])
    }
}

/// Gyroscope sample, big-endian X, Y, Z (registers 0x43..=0x48).
#[derive(Copy, Clone, PartialEq, Debug, Default)]
pub struct GyroOut(pub [u8; 6]);

impl GyroOut {
    /// The three axes as signed words.
    pub fn gyro_out(&self) -> (r: (i16, i16, i16))
        ensures
            r.0 == be_i16(self.0[0], self.0[1]),
            r.1 == be_i16(self.0[2], self.0[3]),
            r.2 == be_i16(self.0[4], self.0[5]),
    {
        (
            decode_be_i16(self.0[0], self.0[1]),
            decode_be_i16(self.0[2], self.0[3]),
            decode_be_i16(self.0[4], self.0[5]),
        )
    }
}

/// Data fetched from external sensors by the auxiliary I2C master
/// (registers 0x49..=0x60).
#[derive(Copy, Clone, PartialEq, Debug, Default)]
pub struct ExtSensData(pub [u8; 24]);

impl ExtSensData {
    /// The raw bytes, unchanged.
    pub fn ext_sens_data(&self) -> (r: [u8; 24])
        ensures
            r == self.0,
    {
        self.0
    }
}

/// FIFO fill level, a 13-bit big-endian counter (registers 0x72..=0x73).
#[derive(Copy, Clone, PartialEq, Debug, Default)]
pub struct FifoCount(pub [u8; 2]);

impl FifoCount {
    /// Number of bytes in the FIFO.
    pub fn fifo_count(&self) -> (r: u16)
        ensures
            r == fifo_count_value(self.0[0], self.0[1]),
            r < 8192,
    {
        decode_fifo_count(self.0[0], self.0[1])
    }
}

/// Accelerometer offset words read from six bytes starting at 0x77; bit 0 of
/// each word is reserved.
#[derive(Copy, Clone, PartialEq, Debug, Default)]
pub struct AccelOffset(pub [u8; 6]);

impl AccelOffset {
    /// The three offsets: each big-endian word shifted right by one, rounding
    /// toward negative infinity.
    pub fn accel_offset(&self) -> (r: (i16, i16, i16))
        ensures
            r.0 == be_i16(self.0[0], self.0[1]) / 2,
            r.1 == be_i16(self.0[2], self.0[3]) / 2,
            r.2 == be_i16(self.0[4], self.0[5]) / 2,
    {
        (
            halve_floor(decode_be_i16(self.0[0], self.0[1])),
            halve_floor(decode_be_i16(self.0[2], self.0[3])),
            halve_floor(decode_be_i16(self.0[4], self.0[5])),
        )
    }
}

/// Clock source selected by `CLKSEL` in `PWR_MGMT_1`.
#[derive(Debug, Copy, Clone, PartialEq, Eq)]
pub enum ClkSel {
    Internal20M1,
    AutoSelect1,
    AutoSelect2,
    AutoSelect3,
    AutoSelect4,
    AutoSelect5,
    Internal20M2,
    Stop,
}

impl ClkSel {
    /// Field code of the clock source.
    pub open spec fn spec_bits(self) -> u8 {
        match self {
            ClkSel::Internal20M1 => 0,
            ClkSel::AutoSelect1 => 1,
            ClkSel::AutoSelect2 => 2,
            ClkSel::AutoSelect3 => 3,
            ClkSel::AutoSelect4 => 4,
            ClkSel::AutoSelect5 => 5,
            ClkSel::Internal20M2 => 6,
            ClkSel::Stop => 7,
        }
    }

    /// Field code of the clock source.
    #[verifier::when_used_as_spec(spec_bits)]
    pub fn bits(self) -> (r: u8)
        ensures
            r == self.spec_bits(),
    {
        match self {
            ClkSel::Internal20M1 => 0,
            ClkSel::AutoSelect1 => 1,
            ClkSel::AutoSelect2 => 2,
            ClkSel::AutoSelect3 => 3,
            ClkSel::AutoSelect4 => 4,
            ClkSel::AutoSelect5 => 5,
            ClkSel::Internal20M2 => 6,
            ClkSel::Stop => 7,
        }
    }

    /// The clock source with field code `val`; codes above 7 do not exist.
    pub fn from_u8(val: u8) -> (r: ClkSel)
        requires
            val < 8,
        ensures
            r.bits() == val,
    {
        match val {
            0 => ClkSel::Internal20M1,
            1 => ClkSel::AutoSelect1,
            2 => ClkSel::AutoSelect2,
            3 => ClkSel::AutoSelect3,
            4 => ClkSel::AutoSelect4,
            5 => ClkSel::AutoSelect5,
            6 => ClkSel::Internal20M2,
            _ => ClkSel::Stop,
        }
    }
}

/// Each clock source has the `CLKSEL` code the datasheet assigns it.
pub proof fn lemma_clk_sel_datasheet_codes()
    ensures
        ClkSel::Internal20M1.bits() == 0,
        ClkSel::AutoSelect1.bits() == 1,
        ClkSel::AutoSelect2.bits() == 2,
        ClkSel::AutoSelect3.bits() == 3,
        ClkSel::AutoSelect4.bits() == 4,
        ClkSel::AutoSelect5.bits() == 5,
        ClkSel::Internal20M2.bits() == 6,
        ClkSel::Stop.bits() == 7,
{
}

/// Every register type reads and writes the register the datasheet assigns
/// it.
pub proof fn lemma_register_addresses()
    ensures
        <SmplrtDiv as Register>::address_spec() == 0x19,
        <Config as Register>::address_spec() == 0x1a,
        <GyroConfig as Register>::address_spec() == 0x1b,
        <AccelConfig1 as Register>::address_spec() == 0x1c,
        <AccelConfig2 as Register>::address_spec() == 0x1d,
        <LpAccelOdr as Register>::address_spec() == 0x1e,
        <WomThr as Register>::address_spec() == 0x1f,
        <FifoEn as Register>::address_spec() == 0x23,
        <I2CMstCtrl as Register>::address_spec() == 0x24,
        <I2CSlv0Addr as Register>::address_spec() == 0x25,
        <I2CSlv0Reg as Register>::address_spec() == 0x26,
        <I2CSlv0Ctrl as Register>::address_spec() == 0x27,
        <I2CSlv1Addr as Register>::address_spec() == 0x28,
        <I2CSlv1Reg as Register>::address_spec() == 0x29,
        <I2CSlv1Ctrl as Register>::address_spec() == 0x2a,
        <I2CSlv2Addr as Register>::address_spec() == 0x2b,
        <I2CSlv2Reg as Register>::address_spec() == 0x2c,
        <I2CSlv2Ctrl as Register>::address_spec() == 0x2d,
        <I2CSlv3Addr as Register>::address_spec() == 0x2e,
        <I2CSlv3Reg as Register>::address_spec() == 0x2f,
        <I2CSlv3Ctrl as Register>::address_spec() == 0x30,
        <I2CSlv4Addr as Register>::address_spec() == 0x31,
        <I2CSlv4Reg as Register>::address_spec() == 0x32,
        <I2CSlv4Ctrl as Register>::address_spec() == 0x34,
        <I2CMstStatus as Register>::address_spec() == 0x36,
        <IntPinCfg as Register>::address_spec() == 0x37,
        <IntEnable as Register>::address_spec() == 0x38,
        <IntStatus as Register>::address_spec() == 0x3a,
        <I2CMstDelayCtrl as Register>::address_spec() == 0x67,
        <SignalPathReset as Register>::address_spec() == 0x68,
        <MotDetectCtrl as Register>::address_spec() == 0x69,
        <UserCtrl as Register>::address_spec() == 0x6a,
        <PwrMGMT1 as Register>::address_spec() == 0x6b,
        <PwrMGMT2 as Register>::address_spec() == 0x6c,
        <FifoRW as Register>::address_spec() == 0x74,
{
}

/// The register map: each named address is the datasheet's.
pub proof fn lemma_register_map()
    ensures
        REG_SELF_TEST_GYRO_START == 0x00,
        REG_SELF_TEST_GYRO_LEN == 0x03,
        REG_SELF_TEST_ACCEL_START == 0x0d,
        REG_SELF_TEST_ACCEL_LEN == 0x03,
        REG_GRAVITY_OFFSET_START == 0x13,
        REG_GRAVITY_OFFSET_LEN == 0x06,
        REG_SMPLRT_DIV == 0x19,
        REG_CONFIG == 0x1a,
        REG_GYRO_CONFIG == 0x1b,
        REG_ACCEL_CONFIG_1 == 0x1c,
        REG_ACCEL_CONFIG_2 == 0x1d,
        REG_LP_ACCEL_ODR == 0x1e,
        REG_WOM_THR == 0x1f,
        REG_FIFO_EN == 0x23,
        REG_I2C_MST_CTRL == 0x24,
        REG_I2C_SLV0_ADDR == 0x25,
        REG_I2C_SLV0_REG == 0x26,
        REG_I2C_SLV0_CTRL == 0x27,
        REG_I2C_SLV1_ADDR == 0x28,
        REG_I2C_SLV1_REG == 0x29,
        REG_I2C_SLV1_CTRL == 0x2a,
        REG_I2C_SLV2_ADDR == 0x2b,
        REG_I2C_SLV2_REG == 0x2c,
        REG_I2C_SLV2_CTRL == 0x2d,
        REG_I2C_SLV3_ADDR == 0x2e,
        REG_I2C_SLV3_REG == 0x2f,
        REG_I2C_SLV3_CTRL == 0x30,
        REG_I2C_SLV4_ADDR == 0x31,
        REG_I2C_SLV4_REG == 0x32,
        REG_I2C_SLV4_DO == 0x33,
        REG_I2C_SLV4_CTRL == 0x34,
        REG_I2C_SLV4_DI == 0x35,
        REG_I2C_MST_STATUS == 0x36,
        REG_INT_PIN_CFG == 0x37,
        REG_INT_ENABLE == 0x38,
        REG_INT_STATUS == 0x3a,
        REG_ACCEL_OUT_START == 0x3b,
        REG_ACCEL_OUT_LEN == 0x06,
        REG_TEMP_OUT_START == 0x41,
        REG_TEMP_OUT_LEN == 0x02,
        REG_GYRO_OUT_START == 0x43,
        REG_GYRO_OUT_LEN == 0x06,
        REG_EXT_SENSOR_DATA_START == 0x49,
        REG_EXT_SENSOR_DATA_LEN == 0x18,
        REG_I2C_SLV0_DO == 0x63,
        REG_I2C_SLV1_DO == 0x64,
        REG_I2C_SLV2_DO == 0x65,
        REG_I2C_SLV3_DO == 0x66,
        REG_I2C_MST_DELAY_CTRL == 0x67,
        REG_SIGNAL_PATH_RESET == 0x68,
        REG_MOT_DETECT_CTRL == 0x69,
        REG_USER_CTRL == 0x6a,
        REG_PWR_MGMT_1 == 0x6b,
        REG_PWR_MGMT_2 == 0x6c,
        REG_FIFO_COUNT_START == 0x72,
        REG_FIFO_COUNT_LEN == 0x02,
        REG_FIFO_R_W == 0x74,
        REG_WHO_AM_I == 0x75,
        REG_ACCEL_OFFSET_START == 0x77,
        REG_ACCEL_OFFSET_LEN == 0x02,
        REG_XA_OFFSET_START == 0x77,
        REG_XA_OFFSET_LEN == 0x02,
        REG_YA_OFFSET_START == 0x7a,
        REG_YA_OFFSET_LEN == 0x02,
        REG_ZA_OFFSET_START == 0x7d,
        REG_ZA_OFFSET_LEN == 0x02,
{
}

/// Distinct clock sources have distinct codes, and every code is below 8.
pub proof fn lemma_clk_sel_codes(a: ClkSel, b: ClkSel)
    ensures
        a.bits() < 8,
        a.bits() == b.bits() ==> a == b,
{
}

impl From<ClkSel> for u8 {
    fn from(c: ClkSel) -> (r: u8) {
        c.bits()
    }
}

impl vstd::std_specs::convert::FromSpecImpl<ClkSel> for u8 {
    open spec fn obeys_from_spec() -> bool {
        true
    }

    open spec fn from_spec(c: ClkSel) -> u8 {
        c.spec_bits()
    }
}

/// Sample-rate divider (`SMPLRT_DIV`, 0x19).
#[derive(Copy, Clone, PartialEq, Debug, Default)]
pub struct SmplrtDiv(pub u8);

impl Register for SmplrtDiv {
    open spec fn address_spec() -> u8 {
        REG_SMPLRT_DIV
    }

    fn address() -> (r: u8) {
        REG_SMPLRT_DIV
    }

    open spec fn bits(self) -> u8 {
        self.0
    }

    open spec fn from_bits(val: u8) -> Self {
        SmplrtDiv(val)
    }

    proof fn lemma_bits_round_trip(r: Self, val: u8) {
    }

    fn from_u8(val: u8) -> (r: Self) {
        SmplrtDiv(val)
    }

    fn to_u8(self) -> (r: u8) {
        self.0
    }
}

/// FIFO data register (`FIFO_R_W`, 0x74).
#[derive(Copy, Clone, PartialEq, Debug, Default)]
pub struct FifoRW(pub u8);

impl Register for FifoRW {
    open spec fn address_spec() -> u8 {
        REG_FIFO_R_W
    }

    fn address() -> (r: u8) {
        REG_FIFO_R_W
    }

    open spec fn bits(self) -> u8 {
        self.0
    }

    open spec fn from_bits(val: u8) -> Self {
        FifoRW(val)
    }

    proof fn lemma_bits_round_trip(r: Self, val: u8) {
    }

    fn from_u8(val: u8) -> (r: Self) {
        FifoRW(val)
    }

    fn to_u8(self) -> (r: u8) {
        self.0
    }
}

/// Bit fields of the register at `REG_CONFIG`.
#[derive(Copy, Clone, PartialEq, Eq, Default, Debug)]
pub struct Config(pub u8);

impl Config {
    /// `FIFO_MODE`, bit 6.
    pub open spec fn spec_fifo_mode(self) -> bool {
        bit(self.0, 6)
    }

    /// `FIFO_MODE`, bit 6.
    pub fn fifo_mode(&self) -> (r: bool)
        ensures
            r == self.spec_fifo_mode(),
    {
        get_bit(self.0, 6)
    }

    /// The value with `FIFO_MODE`, bit 6, set to `value`.
    pub open spec fn spec_set_fifo_mode(self, value: bool) -> Config {
        Config(with_bit(self.0, 6, value))
    }

    /// Sets `FIFO_MODE`, bit 6.
    pub fn set_fifo_mode(&mut self, value: bool)
        ensures
            *final(self) == old(self).spec_set_fifo_mode(value),
    {
        self.0 = set_bit(self.0, 6, value);
    }

    /// `EXT_SYNC_SET`, bits 5..=3.
    pub open spec fn spec_ext_sync_set(self) -> u8 {
        field(self.0, 5, 3)
    }

    /// `EXT_SYNC_SET`, bits 5..=3.
    pub fn ext_sync_set(&self) -> (r: u8)
        ensures
            r == self.spec_ext_sync_set(),
    {
        get_field(self.0, 5, 3)
    }

    /// The value with `EXT_SYNC_SET`, bits 5..=3, set to the low bits of `value`.
    pub open spec fn spec_set_ext_sync_set(self, value: u8) -> Config {
        Config(with_field(self.0, 5, 3, value))
    }

    /// Sets `EXT_SYNC_SET`, bits 5..=3, to the low bits of `value`.
    pub fn set_ext_sync_set(&mut self, value: u8)
        ensures
            *final(self) == old(self).spec_set_ext_sync_set(value),
    {
        self.0 = set_field(self.0, 5, 3, value);
    }

    /// `DLPF_CFG`, bits 2..=0.
    pub open spec fn spec_dlpf_cfg(self) -> u8 {
        field(self.0, 2, 0)
    }

    /// `DLPF_CFG`, bits 2..=0.
    pub fn dlpf_cfg(&self) -> (r: u8)
        ensures
            r == self.spec_dlpf_cfg(),
    {
        get_field(self.0, 2, 0)
    }

    /// The value with `DLPF_CFG`, bits 2..=0, set to the low bits of `value`.
    pub open spec fn spec_set_dlpf_cfg(self, value: u8) -> Config {
        Config(with_field(self.0, 2, 0, value))
    }

    /// Sets `DLPF_CFG`, bits 2..=0, to the low bits of `value`.
    pub fn set_dlpf_cfg(&mut self, value: u8)
        ensures
            *final(self) == old(self).spec_set_dlpf_cfg(value),
    {
        self.0 = set_field(self.0, 2, 0, value);
    }
}

impl Register for Config {
    open spec fn address_spec() -> u8 {
        REG_CONFIG
    }

    fn address() -> (r: u8) {
        REG_CONFIG
    }

    open spec fn bits(self) -> u8 {
        self.0
    }

    open spec fn from_bits(val: u8) -> Self {
        Config(val)
    }

    proof fn lemma_bits_round_trip(r: Self, val: u8) {
    }

    fn from_u8(val: u8) -> (r: Self) {
        Config(val)
    }

    fn to_u8(self) -> (r: u8) {
        self.0
    }
}

/// Bit layout of the register at `REG_CONFIG`, as plain arithmetic on its byte:
/// each field reads as the byte divided by the weight of its lowest bit,
/// modulo its range, and writing it replaces exactly that part of the byte.
pub proof fn lemma_config_layout(r: Config, x: u8, b: bool)
    ensures
        r.spec_fifo_mode() <==> (r.0 / 64) % 2 == 1,
        r.spec_set_fifo_mode(b).0 == r.0 - ((r.0 / 64) % 2) * 64 + (if b {
            64int
        } else {
            0int
        }),
        r.spec_ext_sync_set() == (r.0 / 8) % 8,
        r.spec_set_ext_sync_set(x).0 == r.0 - ((r.0 / 8) % 8) * 8 + (x % 8) * 8,
        r.spec_dlpf_cfg() == (r.0 / 1) % 8,
        r.spec_set_dlpf_cfg(x).0 == r.0 - ((r.0 / 1) % 8) * 1 + (x % 8) * 1,
{
    lemma2_to64();
    lemma_bit_arithmetic(r.0, 6, b);
    lemma_field_arithmetic(r.0, 5, 3, x);
    lemma_field_arithmetic(r.0, 2, 0, x);
}

/// Bit fields of the register at `REG_GYRO_CONFIG`.
#[derive(Copy, Clone, PartialEq, Eq, Default, Debug)]
pub struct GyroConfig(pub u8);

impl GyroConfig {
    /// `XGYRO_CT_EN`, bit 7.
    pub open spec fn spec_xgyro_ct_en(self) -> bool {
        bit(self.0, 7)
    }

    /// `XGYRO_CT_EN`, bit 7.
    pub fn xgyro_ct_en(&self) -> (r: bool)
        ensures
            r == self.spec_xgyro_ct_en(),
    {
        get_bit(self.0, 7)
    }

    /// The value with `XGYRO_CT_EN`, bit 7, set to `value`.
    pub open spec fn spec_set_xgyro_ct_en(self, value: bool) -> GyroConfig {
        GyroConfig(with_bit(self.0, 7, value))
    }

    /// Sets `XGYRO_CT_EN`, bit 7.
    pub fn set_xgyro_ct_en(&mut self, value: bool)
        ensures
            *final(self) == old(self).spec_set_xgyro_ct_en(value),
    {
        self.0 = set_bit(self.0, 7, value);
    }

    /// `YGYRO_CT_EN`, bit 6.
    pub open spec fn spec_ygyro_ct_en(self) -> bool {
        bit(self.0, 6)
    }

    /// `YGYRO_CT_EN`, bit 6.
    pub fn ygyro_ct_en(&self) -> (r: bool)
        ensures
            r == self.spec_ygyro_ct_en(),
    {
        get_bit(self.0, 6)
    }

    /// The value with `YGYRO_CT_EN`, bit 6, set to `value`.
    pub open spec fn spec_set_ygyro_ct_en(self, value: bool) -> GyroConfig {
        GyroConfig(with_bit(self.0, 6, value))
    }

    /// Sets `YGYRO_CT_EN`, bit 6.
    pub fn set_ygyro_ct_en(&mut self, value: bool)
        ensures
            *final(self) == old(self).spec_set_ygyro_ct_en(value),
    {
        self.0 = set_bit(self.0, 6, value);
    }

    /// `ZGYRO_CT_EN`, bit 5.
    pub open spec fn spec_zgyro_ct_en(self) -> bool {
        bit(self.0, 5)
    }

    /// `ZGYRO_CT_EN`, bit 5.
    pub fn zgyro_ct_en(&self) -> (r: bool)
        ensures
            r == self.spec_zgyro_ct_en(),
    {
        get_bit(self.0, 5)
    }

    /// The value with `ZGYRO_CT_EN`, bit 5, set to `value`.
    pub open spec fn spec_set_zgyro_ct_en(self, value: bool) -> GyroConfig {
        GyroConfig(with_bit(self.0, 5, value))
    }

    /// Sets `ZGYRO_CT_EN`, bit 5.
    pub fn set_zgyro_ct_en(&mut self, value: bool)
        ensures
            *final(self) == old(self).spec_set_zgyro_ct_en(value),
    {
        self.0 = set_bit(self.0, 5, value);
    }

    /// `GYRO_FS_SEL`, bits 4..=3.
    pub open spec fn spec_gyro_fs_sel(self) -> u8 {
        field(self.0, 4, 3)
    }

    /// `GYRO_FS_SEL`, bits 4..=3.
    pub fn gyro_fs_sel(&self) -> (r: u8)
        ensures
            r == self.spec_gyro_fs_sel(),
    {
        get_field(self.0, 4, 3)
    }

    /// The value with `GYRO_FS_SEL`, bits 4..=3, set to the low bits of `value`.
    pub open spec fn spec_set_gyro_fs_sel(self, value: u8) -> GyroConfig {
        GyroConfig(with_field(self.0, 4, 3, value))
    }

    /// Sets `GYRO_FS_SEL`, bits 4..=3, to the low bits of `value`.
    pub fn set_gyro_fs_sel(&mut self, value: u8)
        ensures
            *final(self) == old(self).spec_set_gyro_fs_sel(value),
    {
        self.0 = set_field(self.0, 4, 3, value);
    }

    /// `FCHOICE_B`, bits 1..=0.
    pub open spec fn spec_fchoice_b(self) -> u8 {
        field(self.0, 1, 0)
    }

    /// `FCHOICE_B`, bits 1..=0.
    pub fn fchoice_b(&self) -> (r: u8)
        ensures
            r == self.spec_fchoice_b(),
    {
        get_field(self.0, 1, 0)
    }

    /// The value with `FCHOICE_B`, bits 1..=0, set to the low bits of `value`.
    pub open spec fn spec_set_fchoice_b(self, value: u8) -> GyroConfig {
        GyroConfig(with_field(self.0, 1, 0, value))
    }

    /// Sets `FCHOICE_B`, bits 1..=0, to the low bits of `value`.
    pub fn set_fchoice_b(&mut self, value: u8)
        ensures
            *final(self) == old(self).spec_set_fchoice_b(value),
    {
        self.0 = set_field(self.0, 1, 0, value);
    }
}

impl Register for GyroConfig {
    open spec fn address_spec() -> u8 {
        REG_GYRO_CONFIG
    }

    fn address() -> (r: u8) {
        REG_GYRO_CONFIG
    }

    open spec fn bits(self) -> u8 {
        self.0
    }

    open spec fn from_bits(val: u8) -> Self {
        GyroConfig(val)
    }

    proof fn lemma_bits_round_trip(r: Self, val: u8) {
    }

    fn from_u8(val: u8) -> (r: Self) {
        GyroConfig(val)
    }

    fn to_u8(self) -> (r: u8) {
        self.0
    }
}

/// Bit layout of the register at `REG_GYRO_CONFIG`, as plain arithmetic on its byte:
/// each field reads as the byte divided by the weight of its lowest bit,
/// modulo its range, and writing it replaces exactly that part of the byte.
pub proof fn lemma_gyro_config_layout(r: GyroConfig, x: u8, b: bool)
    ensures
        r.spec_xgyro_ct_en() <==> (r.0 / 128) % 2 == 1,
        r.spec_set_xgyro_ct_en(b).0 == r.0 - ((r.0 / 128) % 2) * 128 + (if b {
            128int
        } else {
            0int
        }),
        r.spec_ygyro_ct_en() <==> (r.0 / 64) % 2 == 1,
        r.spec_set_ygyro_ct_en(b).0 == r.0 - ((r.0 / 64) % 2) * 64 + (if b {
            64int
        } else {
            0int
        }),
        r.spec_zgyro_ct_en() <==> (r.0 / 32) % 2 == 1,
        r.spec_set_zgyro_ct_en(b).0 == r.0 - ((r.0 / 32) % 2) * 32 + (if b {
            32int
        } else {
            0int
        }),
        r.spec_gyro_fs_sel() == (r.0 / 8) % 4,
        r.spec_set_gyro_fs_sel(x).0 == r.0 - ((r.0 / 8) % 4) * 8 + (x % 4) * 8,
        r.spec_fchoice_b() == (r.0 / 1) % 4,
        r.spec_set_fchoice_b(x).0 == r.0 - ((r.0 / 1) % 4) * 1 + (x % 4) * 1,
{
    lemma2_to64();
    lemma_bit_arithmetic(r.0, 7, b);
    lemma_bit_arithmetic(r.0, 6, b);
    lemma_bit_arithmetic(r.0, 5, b);
    lemma_field_arithmetic(r.0, 4, 3, x);
    lemma_field_arithmetic(r.0, 1, 0, x);
}

/// Bit fields of the register at `REG_ACCEL_CONFIG_1`.
#[derive(Copy, Clone, PartialEq, Eq, Default, Debug)]
pub struct AccelConfig1(pub u8);

impl AccelConfig1 {
    /// `AX_ST_EN`, bit 7.
    pub open spec fn spec_ax_st_en(self) -> bool {
        bit(self.0, 7)
    }

    /// `AX_ST_EN`, bit 7.
    pub fn ax_st_en(&self) -> (r: bool)
        ensures
            r == self.spec_ax_st_en(),
    {
        get_bit(self.0, 7)
    }

    /// The value with `AX_ST_EN`, bit 7, set to `value`.
    pub open spec fn spec_set_ax_st_en(self, value: bool) -> AccelConfig1 {
        AccelConfig1(with_bit(self.0, 7, value))
    }

    /// Sets `AX_ST_EN`, bit 7.
    pub fn set_ax_st_en(&mut self, value: bool)
        ensures
            *final(self) == old(self).spec_set_ax_st_en(value),
    {
        self.0 = set_bit(self.0, 7, value);
    }

    /// `AY_ST_EN`, bit 6.
    pub open spec fn spec_ay_st_en(self) -> bool {
        bit(self.0, 6)
    }

    /// `AY_ST_EN`, bit 6.
    pub fn ay_st_en(&self) -> (r: bool)
        ensures
            r == self.spec_ay_st_en(),
    {
        get_bit(self.0, 6)
    }

    /// The value with `AY_ST_EN`, bit 6, set to `value`.
    pub open spec fn spec_set_ay_st_en(self, value: bool) -> AccelConfig1 {
        AccelConfig1(with_bit(self.0, 6, value))
    }

    /// Sets `AY_ST_EN`, bit 6.
    pub fn set_ay_st_en(&mut self, value: bool)
        ensures
            *final(self) == old(self).spec_set_ay_st_en(value),
    {
        self.0 = set_bit(self.0, 6, value);
    }

    /// `AZ_ST_EN`, bit 5.
    pub open spec fn spec_az_st_en(self) -> bool {
        bit(self.0, 5)
    }

    /// `AZ_ST_EN`, bit 5.
    pub fn az_st_en(&self) -> (r: bool)
        ensures
            r == self.spec_az_st_en(),
    {
        get_bit(self.0, 5)
    }

    /// The value with `AZ_ST_EN`, bit 5, set to `value`.
    pub open spec fn spec_set_az_st_en(self, value: bool) -> AccelConfig1 {
        AccelConfig1(with_bit(self.0, 5, value))
    }

    /// Sets `AZ_ST_EN`, bit 5.
    pub fn set_az_st_en(&mut self, value: bool)
        ensures
            *final(self) == old(self).spec_set_az_st_en(value),
    {
        self.0 = set_bit(self.0, 5, value);
    }

    /// `ACCEL_FS_SEL`, bits 4..=3.
    pub open spec fn spec_accel_fs_sel(self) -> u8 {
        field(self.0, 4, 3)
    }

    /// `ACCEL_FS_SEL`, bits 4..=3.
    pub fn accel_fs_sel(&self) -> (r: u8)
        ensures
            r == self.spec_accel_fs_sel(),
    {
        get_field(self.0, 4, 3)
    }

    /// The value with `ACCEL_FS_SEL`, bits 4..=3, set to the low bits of `value`.
    pub open spec fn spec_set_accel_fs_sel(self, value: u8) -> AccelConfig1 {
        AccelConfig1(with_field(self.0, 4, 3, value))
    }

    /// Sets `ACCEL_FS_SEL`, bits 4..=3, to the low bits of `value`.
    pub fn set_accel_fs_sel(&mut self, value: u8)
        ensures
            *final(self) == old(self).spec_set_accel_fs_sel(value),
    {
        self.0 = set_field(self.0, 4, 3, value);
    }
}

impl Register for AccelConfig1 {
    open spec fn address_spec() -> u8 {
        REG_ACCEL_CONFIG_1
    }

    fn address() -> (r: u8) {
        REG_ACCEL_CONFIG_1
    }

    open spec fn bits(self) -> u8 {
        self.0
    }

    open spec fn from_bits(val: u8) -> Self {
        AccelConfig1(val)
    }

    proof fn lemma_bits_round_trip(r: Self, val: u8) {
    }

    fn from_u8(val: u8) -> (r: Self) {
        AccelConfig1(val)
    }

    fn to_u8(self) -> (r: u8) {
        self.0
    }
}

/// Bit layout of the register at `REG_ACCEL_CONFIG_1`, as plain arithmetic on its byte:
/// each field reads as the byte divided by the weight of its lowest bit,
/// modulo its range, and writing it replaces exactly that part of the byte.
pub proof fn lemma_accel_config1_layout(r: AccelConfig1, x: u8, b: bool)
    ensures
        r.spec_ax_st_en() <==> (r.0 / 128) % 2 == 1,
        r.spec_set_ax_st_en(b).0 == r.0 - ((r.0 / 128) % 2) * 128 + (if b {
            128int
        } else {
            0int
        }),
        r.spec_ay_st_en() <==> (r.0 / 64) % 2 == 1,
        r.spec_set_ay_st_en(b).0 == r.0 - ((r.0 / 64) % 2) * 64 + (if b {
            64int
        } else {
            0int
        }),
        r.spec_az_st_en() <==> (r.0 / 32) % 2 == 1,
        r.spec_set_az_st_en(b).0 == r.0 - ((r.0 / 32) % 2) * 32 + (if b {
            32int
        } else {
            0int
        }),
        r.spec_accel_fs_sel() == (r.0 / 8) % 4,
        r.spec_set_accel_fs_sel(x).0 == r.0 - ((r.0 / 8) % 4) * 8 + (x % 4) * 8,
{
    lemma2_to64();
    lemma_bit_arithmetic(r.0, 7, b);
    lemma_bit_arithmetic(r.0, 6, b);
    lemma_bit_arithmetic(r.0, 5, b);
    lemma_field_arithmetic(r.0, 4, 3, x);
}

/// Bit fields of the register at `REG_ACCEL_CONFIG_2`.
#[derive(Copy, Clone, PartialEq, Eq, Default, Debug)]
pub struct AccelConfig2(pub u8);

impl AccelConfig2 {
    /// `ACCEL_FCHOICE_B`, bit 3.
    pub open spec fn spec_accel_fchoice_b(self) -> bool {
        bit(self.0, 3)
    }

    /// `ACCEL_FCHOICE_B`, bit 3.
    pub fn accel_fchoice_b(&self) -> (r: bool)
        ensures
            r == self.spec_accel_fchoice_b(),
    {
        get_bit(self.0, 3)
    }

    /// The value with `ACCEL_FCHOICE_B`, bit 3, set to `value`.
    pub open spec fn spec_set_accel_fchoice_b(self, value: bool) -> AccelConfig2 {
        AccelConfig2(with_bit(self.0, 3, value))
    }

    /// Sets `ACCEL_FCHOICE_B`, bit 3.
    pub fn set_accel_fchoice_b(&mut self, value: bool)
        ensures
            *final(self) == old(self).spec_set_accel_fchoice_b(value),
    {
        self.0 = set_bit(self.0, 3, value);
    }

    /// `A_DLPF_CFG`, bits 2..=0.
    pub open spec fn spec_a_dlpf_cfg(self) -> u8 {
        field(self.0, 2, 0)
    }

    /// `A_DLPF_CFG`, bits 2..=0.
    pub fn a_dlpf_cfg(&self) -> (r: u8)
        ensures
            r == self.spec_a_dlpf_cfg(),
    {
        get_field(self.0, 2, 0)
    }

    /// The value with `A_DLPF_CFG`, bits 2..=0, set to the low bits of `value`.
    pub open spec fn spec_set_a_dlpf_cfg(self, value: u8) -> AccelConfig2 {
        AccelConfig2(with_field(self.0, 2, 0, value))
    }

    /// Sets `A_DLPF_CFG`, bits 2..=0, to the low bits of `value`.
    pub fn set_a_dlpf_cfg(&mut self, value: u8)
        ensures
            *final(self) == old(self).spec_set_a_dlpf_cfg(value),
    {
        self.0 = set_field(self.0, 2, 0, value);
    }
}

impl Register for AccelConfig2 {
    open spec fn address_spec() -> u8 {
        REG_ACCEL_CONFIG_2
    }

    fn address() -> (r: u8) {
        REG_ACCEL_CONFIG_2
    }

    open spec fn bits(self) -> u8 {
        self.0
    }

    open spec fn from_bits(val: u8) -> Self {
        AccelConfig2(val)
    }

    proof fn lemma_bits_round_trip(r: Self, val: u8) {
    }

    fn from_u8(val: u8) -> (r: Self) {
        AccelConfig2(val)
    }

    fn to_u8(self) -> (r: u8) {
        self.0
    }
}

/// Bit layout of the register at `REG_ACCEL_CONFIG_2`, as plain arithmetic on its byte:
/// each field reads as the byte divided by the weight of its lowest bit,
/// modulo its range, and writing it replaces exactly that part of the byte.
pub proof fn lemma_accel_config2_layout(r: AccelConfig2, x: u8, b: bool)
    ensures
        r.spec_accel_fchoice_b() <==> (r.0 / 8) % 2 == 1,
        r.spec_set_accel_fchoice_b(b).0 == r.0 - ((r.0 / 8) % 2) * 8 + (if b {
            8int
        } else {
            0int
        }),
        r.spec_a_dlpf_cfg() == (r.0 / 1) % 8,
        r.spec_set_a_dlpf_cfg(x).0 == r.0 - ((r.0 / 1) % 8) * 1 + (x % 8) * 1,
{
    lemma2_to64();
    lemma_bit_arithmetic(r.0, 3, b);
    lemma_field_arithmetic(r.0, 2, 0, x);
}

/// Bit fields of the register at `REG_LP_ACCEL_ODR`.
#[derive(Copy, Clone, PartialEq, Eq, Default, Debug)]
pub struct LpAccelOdr(pub u8);

impl LpAccelOdr {
    /// `LPOSC_CLKSEL`, bits 3..=0.
    pub open spec fn spec_lposc_clksel(self) -> u8 {
        field(self.0, 3, 0)
    }

    /// `LPOSC_CLKSEL`, bits 3..=0.
    pub fn lposc_clksel(&self) -> (r: u8)
        ensures
            r == self.spec_lposc_clksel(),
    {
        get_field(self.0, 3, 0)
    }

    /// The value with `LPOSC_CLKSEL`, bits 3..=0, set to the low bits of `value`.
    pub open spec fn spec_set_lposc_clksel(self, value: u8) -> LpAccelOdr {
        LpAccelOdr(with_field(self.0, 3, 0, value))
    }

    /// Sets `LPOSC_CLKSEL`, bits 3..=0, to the low bits of `value`.
    pub fn set_lposc_clksel(&mut self, value: u8)
        ensures
            *final(self) == old(self).spec_set_lposc_clksel(value),
    {
        self.0 = set_field(self.0, 3, 0, value);
    }
}

impl Register for LpAccelOdr {
    open spec fn address_spec() -> u8 {
        REG_LP_ACCEL_ODR
    }

    fn address() -> (r: u8) {
        REG_LP_ACCEL_ODR
    }

    open spec fn bits(self) -> u8 {
        self.0
    }

    open spec fn from_bits(val: u8) -> Self {
        LpAccelOdr(val)
    }

    proof fn lemma_bits_round_trip(r: Self, val: u8) {
    }

    fn from_u8(val: u8) -> (r: Self) {
        LpAccelOdr(val)
    }

    fn to_u8(self) -> (r: u8) {
        self.0
    }
}

/// Bit layout of the register at `REG_LP_ACCEL_ODR`, as plain arithmetic on its byte:
/// each field reads as the byte divided by the weight of its lowest bit,
/// modulo its range, and writing it replaces exactly that part of the byte.
pub proof fn lemma_lp_accel_odr_layout(r: LpAccelOdr, x: u8)
    ensures
        r.spec_lposc_clksel() == (r.0 / 1) % 16,
        r.spec_set_lposc_clksel(x).0 == r.0 - ((r.0 / 1) % 16) * 1 + (x % 16) * 1,
{
    lemma2_to64();
    lemma_field_arithmetic(r.0, 3, 0, x);
}

/// Bit fields of the register at `REG_WOM_THR`.
#[derive(Copy, Clone, PartialEq, Eq, Default, Debug)]
pub struct WomThr(pub u8);

impl WomThr {
    /// `WOM_THRESHOLD`, bits 7..=0.
    pub open spec fn spec_wom_threshold(self) -> u8 {
        field(self.0, 7, 0)
    }

    /// `WOM_THRESHOLD`, bits 7..=0.
    pub fn wom_threshold(&self) -> (r: u8)
        ensures
            r == self.spec_wom_threshold(),
    {
        get_field(self.0, 7, 0)
    }

    /// The value with `WOM_THRESHOLD`, bits 7..=0, set to the low bits of `value`.
    pub open spec fn spec_set_wom_threshold(self, value: u8) -> WomThr {
        WomThr(with_field(self.0, 7, 0, value))
    }

    /// Sets `WOM_THRESHOLD`, bits 7..=0, to the low bits of `value`.
    pub fn set_wom_threshold(&mut self, value: u8)
        ensures
            *final(self) == old(self).spec_set_wom_threshold(value),
    {
        self.0 = set_field(self.0, 7, 0, value);
    }
}

impl Register for WomThr {
    open spec fn address_spec() -> u8 {
        REG_WOM_THR
    }

    fn address() -> (r: u8) {
        REG_WOM_THR
    }

    open spec fn bits(self) -> u8 {
        self.0
    }

    open spec fn from_bits(val: u8) -> Self {
        WomThr(val)
    }

    proof fn lemma_bits_round_trip(r: Self, val: u8) {
    }

    fn from_u8(val: u8) -> (r: Self) {
        WomThr(val)
    }

    fn to_u8(self) -> (r: u8) {
        self.0
    }
}

/// Bit layout of the register at `REG_WOM_THR`, as plain arithmetic on its byte:
/// each field reads as the byte divided by the weight of its lowest bit,
/// modulo its range, and writing it replaces exactly that part of the byte.
pub proof fn lemma_wom_thr_layout(r: WomThr, x: u8)
    ensures
        r.spec_wom_threshold() == r.0 as int,
        r.spec_set_wom_threshold(x).0 == r.0 - (r.0 as int) * 1 + x * 1,
{
    lemma2_to64();
    lemma_field_arithmetic(r.0, 7, 0, x);
    assert(r.0 as nat % 256 == r.0 && x as nat % 256 == x);
}

/// Bit fields of the register at `REG_FIFO_EN`.
#[derive(Copy, Clone, PartialEq, Eq, Default, Debug)]
pub struct FifoEn(pub u8);

impl FifoEn {
    /// `TEMP_FIFO_EN`, bit 7.
    pub open spec fn spec_temp_fifo_en(self) -> bool {
        bit(self.0, 7)
    }

    /// `TEMP_FIFO_EN`, bit 7.
    pub fn temp_fifo_en(&self) -> (r: bool)
        ensures
            r == self.spec_temp_fifo_en(),
    {
        get_bit(self.0, 7)
    }

    /// The value with `TEMP_FIFO_EN`, bit 7, set to `value`.
    pub open spec fn spec_set_temp_fifo_en(self, value: bool) -> FifoEn {
        FifoEn(with_bit(self.0, 7, value))
    }

    /// Sets `TEMP_FIFO_EN`, bit 7.
    pub fn set_temp_fifo_en(&mut self, value: bool)
        ensures
            *final(self) == old(self).spec_set_temp_fifo_en(value),
    {
        self.0 = set_bit(self.0, 7, value);
    }

    /// `GYRO_XOUT`, bit 6.
    pub open spec fn spec_gyro_xout(self) -> bool {
        bit(self.0, 6)
    }

    /// `GYRO_XOUT`, bit 6.
    pub fn gyro_xout(&self) -> (r: bool)
        ensures
            r == self.spec_gyro_xout(),
    {
        get_bit(self.0, 6)
    }

    /// The value with `GYRO_XOUT`, bit 6, set to `value`.
    pub open spec fn spec_set_gyro_xout(self, value: bool) -> FifoEn {
        FifoEn(with_bit(self.0, 6, value))
    }

    /// Sets `GYRO_XOUT`, bit 6.
    pub fn set_gyro_xout(&mut self, value: bool)
        ensures
            *final(self) == old(self).spec_set_gyro_xout(value),
    {
        self.0 = set_bit(self.0, 6, value);
    }

    /// `GYRO_YOUT`, bit 5.
    pub open spec fn spec_gyro_yout(self) -> bool {
        bit(self.0, 5)
    }

    /// `GYRO_YOUT`, bit 5.
    pub fn gyro_yout(&self) -> (r: bool)
        ensures
            r == self.spec_gyro_yout(),
    {
        get_bit(self.0, 5)
    }

    /// The value with `GYRO_YOUT`, bit 5, set to `value`.
    pub open spec fn spec_set_gyro_yout(self, value: bool) -> FifoEn {
        FifoEn(with_bit(self.0, 5, value))
    }

    /// Sets `GYRO_YOUT`, bit 5.
    pub fn set_gyro_yout(&mut self, value: bool)
        ensures
            *final(self) == old(self).spec_set_gyro_yout(value),
    {
        self.0 = set_bit(self.0, 5, value);
    }

    /// `GYRO_ZOUT`, bit 4.
    pub open spec fn spec_gyro_zout(self) -> bool {
        bit(self.0, 4)
    }

    /// `GYRO_ZOUT`, bit 4.
    pub fn gyro_zout(&self) -> (r: bool)
        ensures
            r == self.spec_gyro_zout(),
    {
        get_bit(self.0, 4)
    }

    /// The value with `GYRO_ZOUT`, bit 4, set to `value`.
    pub open spec fn spec_set_gyro_zout(self, value: bool) -> FifoEn {
        FifoEn(with_bit(self.0, 4, value))
    }

    /// Sets `GYRO_ZOUT`, bit 4.
    pub fn set_gyro_zout(&mut self, value: bool)
        ensures
            *final(self) == old(self).spec_set_gyro_zout(value),
    {
        self.0 = set_bit(self.0, 4, value);
    }

    /// `ACCEL`, bit 3.
    pub open spec fn spec_accel(self) -> bool {
        bit(self.0, 3)
    }

    /// `ACCEL`, bit 3.
    pub fn accel(&self) -> (r: bool)
        ensures
            r == self.spec_accel(),
    {
        get_bit(self.0, 3)
    }

    /// The value with `ACCEL`, bit 3, set to `value`.
    pub open spec fn spec_set_accel(self, value: bool) -> FifoEn {
        FifoEn(with_bit(self.0, 3, value))
    }

    /// Sets `ACCEL`, bit 3.
    pub fn set_accel(&mut self, value: bool)
        ensures
            *final(self) == old(self).spec_set_accel(value),
    {
        self.0 = set_bit(self.0, 3, value);
    }

    /// `SLV2`, bit 2.
    pub open spec fn spec_slv2(self) -> bool {
        bit(self.0, 2)
    }

    /// `SLV2`, bit 2.
    pub fn slv2(&self) -> (r: bool)
        ensures
            r == self.spec_slv2(),
    {
        get_bit(self.0, 2)
    }

    /// The value with `SLV2`, bit 2, set to `value`.
    pub open spec fn spec_set_slv2(self, value: bool) -> FifoEn {
        FifoEn(with_bit(self.0, 2, value))
    }

    /// Sets `SLV2`, bit 2.
    pub fn set_slv2(&mut self, value: bool)
        ensures
            *final(self) == old(self).spec_set_slv2(value),
    {
        self.0 = set_bit(self.0, 2, value);
    }

    /// `SLV1`, bit 1.
    pub open spec fn spec_slv1(self) -> bool {
        bit(self.0, 1)
    }

    /// `SLV1`, bit 1.
    pub fn slv1(&self) -> (r: bool)
        ensures
            r == self.spec_slv1(),
    {
        get_bit(self.0, 1)
    }

    /// The value with `SLV1`, bit 1, set to `value`.
    pub open spec fn spec_set_slv1(self, value: bool) -> FifoEn {
        FifoEn(with_bit(self.0, 1, value))
    }

    /// Sets `SLV1`, bit 1.
    pub fn set_slv1(&mut self, value: bool)
        ensures
            *final(self) == old(self).spec_set_slv1(value),
    {
        self.0 = set_bit(self.0, 1, value);
    }

    /// `SLV0`, bit 0.
    pub open spec fn spec_slv0(self) -> bool {
        bit(self.0, 0)
    }

    /// `SLV0`, bit 0.
    pub fn slv0(&self) -> (r: bool)
        ensures
            r == self.spec_slv0(),
    {
        get_bit(self.0, 0)
    }

    /// The value with `SLV0`, bit 0, set to `value`.
    pub open spec fn spec_set_slv0(self, value: bool) -> FifoEn {
        FifoEn(with_bit(self.0, 0, value))
    }

    /// Sets `SLV0`, bit 0.
    pub fn set_slv0(&mut self, value: bool)
        ensures
            *final(self) == old(self).spec_set_slv0(value),
    {
        self.0 = set_bit(self.0, 0, value);
    }
}

impl Register for FifoEn {
    open spec fn address_spec() -> u8 {
        REG_FIFO_EN
    }

    fn address() -> (r: u8) {
        REG_FIFO_EN
    }

    open spec fn bits(self) -> u8 {
        self.0
    }

    open spec fn from_bits(val: u8) -> Self {
        FifoEn(val)
    }

    proof fn lemma_bits_round_trip(r: Self, val: u8) {
    }

    fn from_u8(val: u8) -> (r: Self) {
        FifoEn(val)
    }

    fn to_u8(self) -> (r: u8) {
        self.0
    }
}

/// Bit layout of the register at `REG_FIFO_EN`, as plain arithmetic on its byte:
/// each field reads as the byte divided by the weight of its lowest bit,
/// modulo its range, and writing it replaces exactly that part of the byte.
pub proof fn lemma_fifo_en_layout(r: FifoEn, b: bool)
    ensures
        r.spec_temp_fifo_en() <==> (r.0 / 128) % 2 == 1,
        r.spec_set_temp_fifo_en(b).0 == r.0 - ((r.0 / 128) % 2) * 128 + (if b {
            128int
        } else {
            0int
        }),
        r.spec_gyro_xout() <==> (r.0 / 64) % 2 == 1,
        r.spec_set_gyro_xout(b).0 == r.0 - ((r.0 / 64) % 2) * 64 + (if b {
            64int
        } else {
            0int
        }),
        r.spec_gyro_yout() <==> (r.0 / 32) % 2 == 1,
        r.spec_set_gyro_yout(b).0 == r.0 - ((r.0 / 32) % 2) * 32 + (if b {
            32int
        } else {
            0int
        }),
        r.spec_gyro_zout() <==> (r.0 / 16) % 2 == 1,
        r.spec_set_gyro_zout(b).0 == r.0 - ((r.0 / 16) % 2) * 16 + (if b {
            16int
        } else {
            0int
        }),
        r.spec_accel() <==> (r.0 / 8) % 2 == 1,
        r.spec_set_accel(b).0 == r.0 - ((r.0 / 8) % 2) * 8 + (if b {
            8int
        } else {
            0int
        }),
        r.spec_slv2() <==> (r.0 / 4) % 2 == 1,
        r.spec_set_slv2(b).0 == r.0 - ((r.0 / 4) % 2) * 4 + (if b {
            4int
        } else {
            0int
        }),
        r.spec_slv1() <==> (r.0 / 2) % 2 == 1,
        r.spec_set_slv1(b).0 == r.0 - ((r.0 / 2) % 2) * 2 + (if b {
            2int
        } else {
            0int
        }),
        r.spec_slv0() <==> (r.0 / 1) % 2 == 1,
        r.spec_set_slv0(b).0 == r.0 - ((r.0 / 1) % 2) * 1 + (if b {
            1int
        } else {
            0int
        }),
{
    lemma2_to64();
    lemma_bit_arithmetic(r.0, 7, b);
    lemma_bit_arithmetic(r.0, 6, b);
    lemma_bit_arithmetic(r.0, 5, b);
    lemma_bit_arithmetic(r.0, 4, b);
    lemma_bit_arithmetic(r.0, 3, b);
    lemma_bit_arithmetic(r.0, 2, b);
    lemma_bit_arithmetic(r.0, 1, b);
    lemma_bit_arithmetic(r.0, 0, b);
}

/// Bit fields of the register at `REG_I2C_MST_CTRL`.
#[derive(Copy, Clone, PartialEq, Eq, Default, Debug)]
pub struct I2CMstCtrl(pub u8);

impl I2CMstCtrl {
    /// `MULT_MST_EN`, bit 7.
    pub open spec fn spec_mult_mst_en(self) -> bool {
        bit(self.0, 7)
    }

    /// `MULT_MST_EN`, bit 7.
    pub fn mult_mst_en(&self) -> (r: bool)
        ensures
            r == self.spec_mult_mst_en(),
    {
        get_bit(self.0, 7)
    }

    /// The value with `MULT_MST_EN`, bit 7, set to `value`.
    pub open spec fn spec_set_mult_mst_en(self, value: bool) -> I2CMstCtrl {
        I2CMstCtrl(with_bit(self.0, 7, value))
    }

    /// Sets `MULT_MST_EN`, bit 7.
    pub fn set_mult_mst_en(&mut self, value: bool)
        ensures
            *final(self) == old(self).spec_set_mult_mst_en(value),
    {
        self.0 = set_bit(self.0, 7, value);
    }

    /// `WAIT_FOR_ES`, bit 6.
    pub open spec fn spec_wait_for_es(self) -> bool {
        bit(self.0, 6)
    }

    /// `WAIT_FOR_ES`, bit 6.
    pub fn wait_for_es(&self) -> (r: bool)
        ensures
            r == self.spec_wait_for_es(),
    {
        get_bit(self.0, 6)
    }

    /// The value with `WAIT_FOR_ES`, bit 6, set to `value`.
    pub open spec fn spec_set_wait_for_es(self, value: bool) -> I2CMstCtrl {
        I2CMstCtrl(with_bit(self.0, 6, value))
    }

    /// Sets `WAIT_FOR_ES`, bit 6.
    pub fn set_wait_for_es(&mut self, value: bool)
        ensures
            *final(self) == old(self).spec_set_wait_for_es(value),
    {
        self.0 = set_bit(self.0, 6, value);
    }

    /// `SLV_3_FIFO_EN`, bit 5.
    pub open spec fn spec_slv_3_fifo_en(self) -> bool {
        bit(self.0, 5)
    }

    /// `SLV_3_FIFO_EN`, bit 5.
    pub fn slv_3_fifo_en(&self) -> (r: bool)
        ensures
            r == self.spec_slv_3_fifo_en(),
    {
        get_bit(self.0, 5)
    }

    /// The value with `SLV_3_FIFO_EN`, bit 5, set to `value`.
    pub open spec fn spec_set_slv_3_fifo_en(self, value: bool) -> I2CMstCtrl {
        I2CMstCtrl(with_bit(self.0, 5, value))
    }

    /// Sets `SLV_3_FIFO_EN`, bit 5.
    pub fn set_slv_3_fifo_en(&mut self, value: bool)
        ensures
            *final(self) == old(self).spec_set_slv_3_fifo_en(value),
    {
        self.0 = set_bit(self.0, 5, value);
    }

    /// `I2C_MST_P_NSR`, bit 4.
    pub open spec fn spec_i2c_mst_p_nsr(self) -> bool {
        bit(self.0, 4)
    }

    /// `I2C_MST_P_NSR`, bit 4.
    pub fn i2c_mst_p_nsr(&self) -> (r: bool)
        ensures
            r == self.spec_i2c_mst_p_nsr(),
    {
        get_bit(self.0, 4)
    }

    /// The value with `I2C_MST_P_NSR`, bit 4, set to `value`.
    pub open spec fn spec_set_i2c_mst_p_nsr(self, value: bool) -> I2CMstCtrl {
        I2CMstCtrl(with_bit(self.0, 4, value))
    }

    /// Sets `I2C_MST_P_NSR`, bit 4.
    pub fn set_i2c_mst_p_nsr(&mut self, value: bool)
        ensures
            *final(self) == old(self).spec_set_i2c_mst_p_nsr(value),
    {
        self.0 = set_bit(self.0, 4, value);
    }

    /// `I2C_MST_CLK`, bits 3..=0.
    pub open spec fn spec_i2c_mst_clk(self) -> u8 {
        field(self.0, 3, 0)
    }

    /// `I2C_MST_CLK`, bits 3..=0.
    pub fn i2c_mst_clk(&self) -> (r: u8)
        ensures
            r == self.spec_i2c_mst_clk(),
    {
        get_field(self.0, 3, 0)
    }

    /// The value with `I2C_MST_CLK`, bits 3..=0, set to the low bits of `value`.
    pub open spec fn spec_set_i2c_mst_clk(self, value: u8) -> I2CMstCtrl {
        I2CMstCtrl(with_field(self.0, 3, 0, value))
    }

    /// Sets `I2C_MST_CLK`, bits 3..=0, to the low bits of `value`.
    pub fn set_i2c_mst_clk(&mut self, value: u8)
        ensures
            *final(self) == old(self).spec_set_i2c_mst_clk(value),
    {
        self.0 = set_field(self.0, 3, 0, value);
    }
}

impl Register for I2CMstCtrl {
    open spec fn address_spec() -> u8 {
        REG_I2C_MST_CTRL
    }

    fn address() -> (r: u8) {
        REG_I2C_MST_CTRL
    }

    open spec fn bits(self) -> u8 {
        self.0
    }

    open spec fn from_bits(val: u8) -> Self {
        I2CMstCtrl(val)
    }

    proof fn lemma_bits_round_trip(r: Self, val: u8) {
    }

    fn from_u8(val: u8) -> (r: Self) {
        I2CMstCtrl(val)
    }

    fn to_u8(self) -> (r: u8) {
        self.0
    }
}

/// Bit layout of the register at `REG_I2C_MST_CTRL`, as plain arithmetic on its byte:
/// each field reads as the byte divided by the weight of its lowest bit,
/// modulo its range, and writing it replaces exactly that part of the byte.
pub proof fn lemma_i2c_mst_ctrl_layout(r: I2CMstCtrl, x: u8, b: bool)
    ensures
        r.spec_mult_mst_en() <==> (r.0 / 128) % 2 == 1,
        r.spec_set_mult_mst_en(b).0 == r.0 - ((r.0 / 128) % 2) * 128 + (if b {
            128int
        } else {
            0int
        }),
        r.spec_wait_for_es() <==> (r.0 / 64) % 2 == 1,
        r.spec_set_wait_for_es(b).0 == r.0 - ((r.0 / 64) % 2) * 64 + (if b {
            64int
        } else {
            0int
        }),
        r.spec_slv_3_fifo_en() <==> (r.0 / 32) % 2 == 1,
        r.spec_set_slv_3_fifo_en(b).0 == r.0 - ((r.0 / 32) % 2) * 32 + (if b {
            32int
        } else {
            0int
        }),
        r.spec_i2c_mst_p_nsr() <==> (r.0 / 16) % 2 == 1,
        r.spec_set_i2c_mst_p_nsr(b).0 == r.0 - ((r.0 / 16) % 2) * 16 + (if b {
            16int
        } else {
            0int
        }),
        r.spec_i2c_mst_clk() == (r.0 / 1) % 16,
        r.spec_set_i2c_mst_clk(x).0 == r.0 - ((r.0 / 1) % 16) * 1 + (x % 16) * 1,
{
    lemma2_to64();
    lemma_bit_arithmetic(r.0, 7, b);
    lemma_bit_arithmetic(r.0, 6, b);
    lemma_bit_arithmetic(r.0, 5, b);
    lemma_bit_arithmetic(r.0, 4, b);
    lemma_field_arithmetic(r.0, 3, 0, x);
}

/// Bit fields of the register at `REG_I2C_SLV0_ADDR`.
#[derive(Copy, Clone, PartialEq, Eq, Default, Debug)]
pub struct I2CSlv0Addr(pub u8);

impl I2CSlv0Addr {
    /// `I2C_SLV0_RNW`, bit 7.
    pub open spec fn spec_i2c_slv0_rnw(self) -> bool {
        bit(self.0, 7)
    }

    /// `I2C_SLV0_RNW`, bit 7.
    pub fn i2c_slv0_rnw(&self) -> (r: bool)
        ensures
            r == self.spec_i2c_slv0_rnw(),
    {
        get_bit(self.0, 7)
    }

    /// The value with `I2C_SLV0_RNW`, bit 7, set to `value`.
    pub open spec fn spec_set_i2c_slv0_rnw(self, value: bool) -> I2CSlv0Addr {
        I2CSlv0Addr(with_bit(self.0, 7, value))
    }

    /// Sets `I2C_SLV0_RNW`, bit 7.
    pub fn set_i2c_slv0_rnw(&mut self, value: bool)
        ensures
            *final(self) == old(self).spec_set_i2c_slv0_rnw(value),
    {
        self.0 = set_bit(self.0, 7, value);
    }

    /// `I2C_ID_0`, bits 6..=0.
    pub open spec fn spec_i2c_id_0(self) -> u8 {
        field(self.0, 6, 0)
    }

    /// `I2C_ID_0`, bits 6..=0.
    pub fn i2c_id_0(&self) -> (r: u8)
        ensures
            r == self.spec_i2c_id_0(),
    {
        get_field(self.0, 6, 0)
    }

    /// The value with `I2C_ID_0`, bits 6..=0, set to the low bits of `value`.
    pub open spec fn spec_set_i2c_id_0(self, value: u8) -> I2CSlv0Addr {
        I2CSlv0Addr(with_field(self.0, 6, 0, value))
    }

    /// Sets `I2C_ID_0`, bits 6..=0, to the low bits of `value`.
    pub fn set_i2c_id_0(&mut self, value: u8)
        ensures
            *final(self) == old(self).spec_set_i2c_id_0(value),
    {
        self.0 = set_field(self.0, 6, 0, value);
    }
}

impl Register for I2CSlv0Addr {
    open spec fn address_spec() -> u8 {
        REG_I2C_SLV0_ADDR
    }

    fn address() -> (r: u8) {
        REG_I2C_SLV0_ADDR
    }

    open spec fn bits(self) -> u8 {
        self.0
    }

    open spec fn from_bits(val: u8) -> Self {
        I2CSlv0Addr(val)
    }

    proof fn lemma_bits_round_trip(r: Self, val: u8) {
    }

    fn from_u8(val: u8) -> (r: Self) {
        I2CSlv0Addr(val)
    }

    fn to_u8(self) -> (r: u8) {
        self.0
    }
}

/// Bit layout of the register at `REG_I2C_SLV0_ADDR`, as plain arithmetic on its byte:
/// each field reads as the byte divided by the weight of its lowest bit,
/// modulo its range, and writing it replaces exactly that part of the byte.
pub proof fn lemma_i2c_slv0_addr_layout(r: I2CSlv0Addr, x: u8, b: bool)
    ensures
        r.spec_i2c_slv0_rnw() <==> (r.0 / 128) % 2 == 1,
        r.spec_set_i2c_slv0_rnw(b).0 == r.0 - ((r.0 / 128) % 2) * 128 + (if b {
            128int
        } else {
            0int
        }),
        r.spec_i2c_id_0() == (r.0 / 1) % 128,
        r.spec_set_i2c_id_0(x).0 == r.0 - ((r.0 / 1) % 128) * 1 + (x % 128) * 1,
{
    lemma2_to64();
    lemma_bit_arithmetic(r.0, 7, b);
    lemma_field_arithmetic(r.0, 6, 0, x);
}

/// Bit fields of the register at `REG_I2C_SLV0_REG`.
#[derive(Copy, Clone, PartialEq, Eq, Default, Debug)]
pub struct I2CSlv0Reg(pub u8);

impl I2CSlv0Reg {
    /// `I2C_SLV0_REG`, bits 7..=0.
    pub open spec fn spec_i2c_slv0_reg(self) -> u8 {
        field(self.0, 7, 0)
    }

    /// `I2C_SLV0_REG`, bits 7..=0.
    pub fn i2c_slv0_reg(&self) -> (r: u8)
        ensures
            r == self.spec_i2c_slv0_reg(),
    {
        get_field(self.0, 7, 0)
    }

    /// The value with `I2C_SLV0_REG`, bits 7..=0, set to the low bits of `value`.
    pub open spec fn spec_set_i2c_slv0_reg(self, value: u8) -> I2CSlv0Reg {
        I2CSlv0Reg(with_field(self.0, 7, 0, value))
    }

    /// Sets `I2C_SLV0_REG`, bits 7..=0, to the low bits of `value`.
    pub fn set_i2c_slv0_reg(&mut self, value: u8)
        ensures
            *final(self) == old(self).spec_set_i2c_slv0_reg(value),
    {
        self.0 = set_field(self.0, 7, 0, value);
    }
}

impl Register for I2CSlv0Reg {
    open spec fn address_spec() -> u8 {
        REG_I2C_SLV0_REG
    }

    fn address() -> (r: u8) {
        REG_I2C_SLV0_REG
    }

    open spec fn bits(self) -> u8 {
        self.0
    }

    open spec fn from_bits(val: u8) -> Self {
        I2CSlv0Reg(val)
    }

    proof fn lemma_bits_round_trip(r: Self, val: u8) {
    }

    fn from_u8(val: u8) -> (r: Self) {
        I2CSlv0Reg(val)
    }

    fn to_u8(self) -> (r: u8) {
        self.0
    }
}

/// Bit layout of the register at `REG_I2C_SLV0_REG`, as plain arithmetic on its byte:
/// each field reads as the byte divided by the weight of its lowest bit,
/// modulo its range, and writing it replaces exactly that part of the byte.
pub proof fn lemma_i2c_slv0_reg_layout(r: I2CSlv0Reg, x: u8)
    ensures
        r.spec_i2c_slv0_reg() == r.0 as int,
        r.spec_set_i2c_slv0_reg(x).0 == r.0 - (r.0 as int) * 1 + x * 1,
{
    lemma2_to64();
    lemma_field_arithmetic(r.0, 7, 0, x);
    assert(r.0 as nat % 256 == r.0 && x as nat % 256 == x);
}

/// Bit fields of the register at `REG_I2C_SLV0_CTRL`.
#[derive(Copy, Clone, PartialEq, Eq, Default, Debug)]
pub struct I2CSlv0Ctrl(pub u8);

impl I2CSlv0Ctrl {
    /// `I2C_SLV0_EN`, bit 7.
    pub open spec fn spec_i2c_slv0_en(self) -> bool {
        bit(self.0, 7)
    }

    /// `I2C_SLV0_EN`, bit 7.
    pub fn i2c_slv0_en(&self) -> (r: bool)
        ensures
            r == self.spec_i2c_slv0_en(),
    {
        get_bit(self.0, 7)
    }

    /// The value with `I2C_SLV0_EN`, bit 7, set to `value`.
    pub open spec fn spec_set_i2c_slv0_en(self, value: bool) -> I2CSlv0Ctrl {
        I2CSlv0Ctrl(with_bit(self.0, 7, value))
    }

    /// Sets `I2C_SLV0_EN`, bit 7.
    pub fn set_i2c_slv0_en(&mut self, value: bool)
        ensures
            *final(self) == old(self).spec_set_i2c_slv0_en(value),
    {
        self.0 = set_bit(self.0, 7, value);
    }

    /// `I2C_SLV0_BYTE_SW`, bit 6.
    pub open spec fn spec_i2c_slv0_byte_sw(self) -> bool {
        bit(self.0, 6)
    }

    /// `I2C_SLV0_BYTE_SW`, bit 6.
    pub fn i2c_slv0_byte_sw(&self) -> (r: bool)
        ensures
            r == self.spec_i2c_slv0_byte_sw(),
    {
        get_bit(self.0, 6)
    }

    /// The value with `I2C_SLV0_BYTE_SW`, bit 6, set to `value`.
    pub open spec fn spec_set_i2c_slv0_byte_sw(self, value: bool) -> I2CSlv0Ctrl {
        I2CSlv0Ctrl(with_bit(self.0, 6, value))
    }

    /// Sets `I2C_SLV0_BYTE_SW`, bit 6.
    pub fn set_i2c_slv0_byte_sw(&mut self, value: bool)
        ensures
            *final(self) == old(self).spec_set_i2c_slv0_byte_sw(value),
    {
        self.0 = set_bit(self.0, 6, value);
    }

    /// `I2C_SLV0_REG_DIS`, bit 5.
    pub open spec fn spec_i2c_slv0_reg_dis(self) -> bool {
        bit(self.0, 5)
    }

    /// `I2C_SLV0_REG_DIS`, bit 5.
    pub fn i2c_slv0_reg_dis(&self) -> (r: bool)
        ensures
            r == self.spec_i2c_slv0_reg_dis(),
    {
        get_bit(self.0, 5)
    }

    /// The value with `I2C_SLV0_REG_DIS`, bit 5, set to `value`.
    pub open spec fn spec_set_i2c_slv0_reg_dis(self, value: bool) -> I2CSlv0Ctrl {
        I2CSlv0Ctrl(with_bit(self.0, 5, value))
    }

    /// Sets `I2C_SLV0_REG_DIS`, bit 5.
    pub fn set_i2c_slv0_reg_dis(&mut self, value: bool)
        ensures
            *final(self) == old(self).spec_set_i2c_slv0_reg_dis(value),
    {
        self.0 = set_bit(self.0, 5, value);
    }

    /// `I2C_SLV0_GRP`, bit 4.
    pub open spec fn spec_i2c_slv0_grp(self) -> bool {
        bit(self.0, 4)
    }

    /// `I2C_SLV0_GRP`, bit 4.
    pub fn i2c_slv0_grp(&self) -> (r: bool)
        ensures
            r == self.spec_i2c_slv0_grp(),
    {
        get_bit(self.0, 4)
    }

    /// The value with `I2C_SLV0_GRP`, bit 4, set to `value`.
    pub open spec fn spec_set_i2c_slv0_grp(self, value: bool) -> I2CSlv0Ctrl {
        I2CSlv0Ctrl(with_bit(self.0, 4, value))
    }

    /// Sets `I2C_SLV0_GRP`, bit 4.
    pub fn set_i2c_slv0_grp(&mut self, value: bool)
        ensures
            *final(self) == old(self).spec_set_i2c_slv0_grp(value),
    {
        self.0 = set_bit(self.0, 4, value);
    }

    /// `I2C_SLV0_LENG`, bits 3..=0.
    pub open spec fn spec_i2c_slv0_leng(self) -> u8 {
        field(self.0, 3, 0)
    }

    /// `I2C_SLV0_LENG`, bits 3..=0.
    pub fn i2c_slv0_leng(&self) -> (r: u8)
        ensures
            r == self.spec_i2c_slv0_leng(),
    {
        get_field(self.0, 3, 0)
    }

    /// The value with `I2C_SLV0_LENG`, bits 3..=0, set to the low bits of `value`.
    pub open spec fn spec_set_i2c_slv0_leng(self, value: u8) -> I2CSlv0Ctrl {
        I2CSlv0Ctrl(with_field(self.0, 3, 0, value))
    }

    /// Sets `I2C_SLV0_LENG`, bits 3..=0, to the low bits of `value`.
    pub fn set_i2c_slv0_leng(&mut self, value: u8)
        ensures
            *final(self) == old(self).spec_set_i2c_slv0_leng(value),
    {
        self.0 = set_field(self.0, 3, 0, value);
    }
}

impl Register for I2CSlv0Ctrl {
    open spec fn address_spec() -> u8 {
        REG_I2C_SLV0_CTRL
    }

    fn address() -> (r: u8) {
        REG_I2C_SLV0_CTRL
    }

    open spec fn bits(self) -> u8 {
        self.0
    }

    open spec fn from_bits(val: u8) -> Self {
        I2CSlv0Ctrl(val)
    }

    proof fn lemma_bits_round_trip(r: Self, val: u8) {
    }

    fn from_u8(val: u8) -> (r: Self) {
        I2CSlv0Ctrl(val)
    }

    fn to_u8(self) -> (r: u8) {
        self.0
    }
}

/// Bit layout of the register at `REG_I2C_SLV0_CTRL`, as plain arithmetic on its byte:
/// each field reads as the byte divided by the weight of its lowest bit,
/// modulo its range, and writing it replaces exactly that part of the byte.
pub proof fn lemma_i2c_slv0_ctrl_layout(r: I2CSlv0Ctrl, x: u8, b: bool)
    ensures
        r.spec_i2c_slv0_en() <==> (r.0 / 128) % 2 == 1,
        r.spec_set_i2c_slv0_en(b).0 == r.0 - ((r.0 / 128) % 2) * 128 + (if b {
            128int
        } else {
            0int
        }),
        r.spec_i2c_slv0_byte_sw() <==> (r.0 / 64) % 2 == 1,
        r.spec_set_i2c_slv0_byte_sw(b).0 == r.0 - ((r.0 / 64) % 2) * 64 + (if b {
            64int
        } else {
            0int
        }),
        r.spec_i2c_slv0_reg_dis() <==> (r.0 / 32) % 2 == 1,
        r.spec_set_i2c_slv0_reg_dis(b).0 == r.0 - ((r.0 / 32) % 2) * 32 + (if b {
            32int
        } else {
            0int
        }),
        r.spec_i2c_slv0_grp() <==> (r.0 / 16) % 2 == 1,
        r.spec_set_i2c_slv0_grp(b).0 == r.0 - ((r.0 / 16) % 2) * 16 + (if b {
            16int
        } else {
            0int
        }),
        r.spec_i2c_slv0_leng() == (r.0 / 1) % 16,
        r.spec_set_i2c_slv0_leng(x).0 == r.0 - ((r.0 / 1) % 16) * 1 + (x % 16) * 1,
{
    lemma2_to64();
    lemma_bit_arithmetic(r.0, 7, b);
    lemma_bit_arithmetic(r.0, 6, b);
    lemma_bit_arithmetic(r.0, 5, b);
    lemma_bit_arithmetic(r.0, 4, b);
    lemma_field_arithmetic(r.0, 3, 0, x);
}

/// Bit fields of the register at `REG_I2C_SLV1_ADDR`.
#[derive(Copy, Clone, PartialEq, Eq, Default, Debug)]
pub struct I2CSlv1Addr(pub u8);

impl I2CSlv1Addr {
    /// `I2C_SLV1_RNW`, bit 7.
    pub open spec fn spec_i2c_slv1_rnw(self) -> bool {
        bit(self.0, 7)
    }

    /// `I2C_SLV1_RNW`, bit 7.
    pub fn i2c_slv1_rnw(&self) -> (r: bool)
        ensures
            r == self.spec_i2c_slv1_rnw(),
    {
        get_bit(self.0, 7)
    }

    /// The value with `I2C_SLV1_RNW`, bit 7, set to `value`.
    pub open spec fn spec_set_i2c_slv1_rnw(self, value: bool) -> I2CSlv1Addr {
        I2CSlv1Addr(with_bit(self.0, 7, value))
    }

    /// Sets `I2C_SLV1_RNW`, bit 7.
    pub fn set_i2c_slv1_rnw(&mut self, value: bool)
        ensures
            *final(self) == old(self).spec_set_i2c_slv1_rnw(value),
    {
        self.0 = set_bit(self.0, 7, value);
    }

    /// `I2C_ID_1`, bits 6..=0.
    pub open spec fn spec_i2c_id_1(self) -> u8 {
        field(self.0, 6, 0)
    }

    /// `I2C_ID_1`, bits 6..=0.
    pub fn i2c_id_1(&self) -> (r: u8)
        ensures
            r == self.spec_i2c_id_1(),
    {
        get_field(self.0, 6, 0)
    }

    /// The value with `I2C_ID_1`, bits 6..=0, set to the low bits of `value`.
    pub open spec fn spec_set_i2c_id_1(self, value: u8) -> I2CSlv1Addr {
        I2CSlv1Addr(with_field(self.0, 6, 0, value))
    }

    /// Sets `I2C_ID_1`, bits 6..=0, to the low bits of `value`.
    pub fn set_i2c_id_1(&mut self, value: u8)
        ensures
            *final(self) == old(self).spec_set_i2c_id_1(value),
    {
        self.0 = set_field(self.0, 6, 0, value);
    }
}

impl Register for I2CSlv1Addr {
    open spec fn address_spec() -> u8 {
        REG_I2C_SLV1_ADDR
    }

    fn address() -> (r: u8) {
        REG_I2C_SLV1_ADDR
    }

    open spec fn bits(self) -> u8 {
        self.0
    }

    open spec fn from_bits(val: u8) -> Self {
        I2CSlv1Addr(val)
    }

    proof fn lemma_bits_round_trip(r: Self, val: u8) {
    }

    fn from_u8(val: u8) -> (r: Self) {
        I2CSlv1Addr(val)
    }

    fn to_u8(self) -> (r: u8) {
        self.0
    }
}

/// Bit layout of the register at `REG_I2C_SLV1_ADDR`, as plain arithmetic on its byte:
/// each field reads as the byte divided by the weight of its lowest bit,
/// modulo its range, and writing it replaces exactly that part of the byte.
pub proof fn lemma_i2c_slv1_addr_layout(r: I2CSlv1Addr, x: u8, b: bool)
    ensures
        r.spec_i2c_slv1_rnw() <==> (r.0 / 128) % 2 == 1,
        r.spec_set_i2c_slv1_rnw(b).0 == r.0 - ((r.0 / 128) % 2) * 128 + (if b {
            128int
        } else {
            0int
        }),
        r.spec_i2c_id_1() == (r.0 / 1) % 128,
        r.spec_set_i2c_id_1(x).0 == r.0 - ((r.0 / 1) % 128) * 1 + (x % 128) * 1,
{
    lemma2_to64();
    lemma_bit_arithmetic(r.0, 7, b);
    lemma_field_arithmetic(r.0, 6, 0, x);
}

/// Bit fields of the register at `REG_I2C_SLV1_REG`.
#[derive(Copy, Clone, PartialEq, Eq, Default, Debug)]
pub struct I2CSlv1Reg(pub u8);

impl I2CSlv1Reg {
    /// `I2C_SLV1_REG`, bits 7..=0.
    pub open spec fn spec_i2c_slv1_reg(self) -> u8 {
        field(self.0, 7, 0)
    }

    /// `I2C_SLV1_REG`, bits 7..=0.
    pub fn i2c_slv1_reg(&self) -> (r: u8)
        ensures
            r == self.spec_i2c_slv1_reg(),
    {
        get_field(self.0, 7, 0)
    }

    /// The value with `I2C_SLV1_REG`, bits 7..=0, set to the low bits of `value`.
    pub open spec fn spec_set_i2c_slv1_reg(self, value: u8) -> I2CSlv1Reg {
        I2CSlv1Reg(with_field(self.0, 7, 0, value))
    }

    /// Sets `I2C_SLV1_REG`, bits 7..=0, to the low bits of `value`.
    pub fn set_i2c_slv1_reg(&mut self, value: u8)
        ensures
            *final(self) == old(self).spec_set_i2c_slv1_reg(value),
    {
        self.0 = set_field(self.0, 7, 0, value);
    }
}

impl Register for I2CSlv1Reg {
    open spec fn address_spec() -> u8 {
        REG_I2C_SLV1_REG
    }

    fn address() -> (r: u8) {
        REG_I2C_SLV1_REG
    }

    open spec fn bits(self) -> u8 {
        self.0
    }

    open spec fn from_bits(val: u8) -> Self {
        I2CSlv1Reg(val)
    }

    proof fn lemma_bits_round_trip(r: Self, val: u8) {
    }

    fn from_u8(val: u8) -> (r: Self) {
        I2CSlv1Reg(val)
    }

    fn to_u8(self) -> (r: u8) {
        self.0
    }
}

/// Bit layout of the register at `REG_I2C_SLV1_REG`, as plain arithmetic on its byte:
/// each field reads as the byte divided by the weight of its lowest bit,
/// modulo its range, and writing it replaces exactly that part of the byte.
pub proof fn lemma_i2c_slv1_reg_layout(r: I2CSlv1Reg, x: u8)
    ensures
        r.spec_i2c_slv1_reg() == r.0 as int,
        r.spec_set_i2c_slv1_reg(x).0 == r.0 - (r.0 as int) * 1 + x * 1,
{
    lemma2_to64();
    lemma_field_arithmetic(r.0, 7, 0, x);
    assert(r.0 as nat % 256 == r.0 && x as nat % 256 == x);
}

/// Bit fields of the register at `REG_I2C_SLV1_CTRL`.
#[derive(Copy, Clone, PartialEq, Eq, Default, Debug)]
pub struct I2CSlv1Ctrl(pub u8);

impl I2CSlv1Ctrl {
    /// `I2C_SLV1_EN`, bit 7.
    pub open spec fn spec_i2c_slv1_en(self) -> bool {
        bit(self.0, 7)
    }

    /// `I2C_SLV1_EN`, bit 7.
    pub fn i2c_slv1_en(&self) -> (r: bool)
        ensures
            r == self.spec_i2c_slv1_en(),
    {
        get_bit(self.0, 7)
    }

    /// The value with `I2C_SLV1_EN`, bit 7, set to `value`.
    pub open spec fn spec_set_i2c_slv1_en(self, value: bool) -> I2CSlv1Ctrl {
        I2CSlv1Ctrl(with_bit(self.0, 7, value))
    }

    /// Sets `I2C_SLV1_EN`, bit 7.
    pub fn set_i2c_slv1_en(&mut self, value: bool)
        ensures
            *final(self) == old(self).spec_set_i2c_slv1_en(value),
    {
        self.0 = set_bit(self.0, 7, value);
    }

    /// `I2C_SLV1_BYTE_SW`, bit 6.
    pub open spec fn spec_i2c_slv1_byte_sw(self) -> bool {
        bit(self.0, 6)
    }

    /// `I2C_SLV1_BYTE_SW`, bit 6.
    pub fn i2c_slv1_byte_sw(&self) -> (r: bool)
        ensures
            r == self.spec_i2c_slv1_byte_sw(),
    {
        get_bit(self.0, 6)
    }

    /// The value with `I2C_SLV1_BYTE_SW`, bit 6, set to `value`.
    pub open spec fn spec_set_i2c_slv1_byte_sw(self, value: bool) -> I2CSlv1Ctrl {
        I2CSlv1Ctrl(with_bit(self.0, 6, value))
    }

    /// Sets `I2C_SLV1_BYTE_SW`, bit 6.
    pub fn set_i2c_slv1_byte_sw(&mut self, value: bool)
        ensures
            *final(self) == old(self).spec_set_i2c_slv1_byte_sw(value),
    {
        self.0 = set_bit(self.0, 6, value);
    }

    /// `I2C_SLV1_REG_DIS`, bit 5.
    pub open spec fn spec_i2c_slv1_reg_dis(self) -> bool {
        bit(self.0, 5)
    }

    /// `I2C_SLV1_REG_DIS`, bit 5.
    pub fn i2c_slv1_reg_dis(&self) -> (r: bool)
        ensures
            r == self.spec_i2c_slv1_reg_dis(),
    {
        get_bit(self.0, 5)
    }

    /// The value with `I2C_SLV1_REG_DIS`, bit 5, set to `value`.
    pub open spec fn spec_set_i2c_slv1_reg_dis(self, value: bool) -> I2CSlv1Ctrl {
        I2CSlv1Ctrl(with_bit(self.0, 5, value))
    }

    /// Sets `I2C_SLV1_REG_DIS`, bit 5.
    pub fn set_i2c_slv1_reg_dis(&mut self, value: bool)
        ensures
            *final(self) == old(self).spec_set_i2c_slv1_reg_dis(value),
    {
        self.0 = set_bit(self.0, 5, value);
    }

    /// `I2C_SLV1_GRP`, bit 4.
    pub open spec fn spec_i2c_slv1_grp(self) -> bool {
        bit(self.0, 4)
    }

    /// `I2C_SLV1_GRP`, bit 4.
    pub fn i2c_slv1_grp(&self) -> (r: bool)
        ensures
            r == self.spec_i2c_slv1_grp(),
    {
        get_bit(self.0, 4)
    }

    /// The value with `I2C_SLV1_GRP`, bit 4, set to `value`.
    pub open spec fn spec_set_i2c_slv1_grp(self, value: bool) -> I2CSlv1Ctrl {
        I2CSlv1Ctrl(with_bit(self.0, 4, value))
    }

    /// Sets `I2C_SLV1_GRP`, bit 4.
    pub fn set_i2c_slv1_grp(&mut self, value: bool)
        ensures
            *final(self) == old(self).spec_set_i2c_slv1_grp(value),
    {
        self.0 = set_bit(self.0, 4, value);
    }

    /// `I2C_SLV1_LENG`, bits 3..=0.
    pub open spec fn spec_i2c_slv1_leng(self) -> u8 {
        field(self.0, 3, 0)
    }

    /// `I2C_SLV1_LENG`, bits 3..=0.
    pub fn i2c_slv1_leng(&self) -> (r: u8)
        ensures
            r == self.spec_i2c_slv1_leng(),
    {
        get_field(self.0, 3, 0)
    }

    /// The value with `I2C_SLV1_LENG`, bits 3..=0, set to the low bits of `value`.
    pub open spec fn spec_set_i2c_slv1_leng(self, value: u8) -> I2CSlv1Ctrl {
        I2CSlv1Ctrl(with_field(self.0, 3, 0, value))
    }

    /// Sets `I2C_SLV1_LENG`, bits 3..=0, to the low bits of `value`.
    pub fn set_i2c_slv1_leng(&mut self, value: u8)
        ensures
            *final(self) == old(self).spec_set_i2c_slv1_leng(value),
    {
        self.0 = set_field(self.0, 3, 0, value);
    }
}

impl Register for I2CSlv1Ctrl {
    open spec fn address_spec() -> u8 {
        REG_I2C_SLV1_CTRL
    }

    fn address() -> (r: u8) {
        REG_I2C_SLV1_CTRL
    }

    open spec fn bits(self) -> u8 {
        self.0
    }

    open spec fn from_bits(val: u8) -> Self {
        I2CSlv1Ctrl(val)
    }

    proof fn lemma_bits_round_trip(r: Self, val: u8) {
    }

    fn from_u8(val: u8) -> (r: Self) {
        I2CSlv1Ctrl(val)
    }

    fn to_u8(self) -> (r: u8) {
        self.0
    }
}

/// Bit layout of the register at `REG_I2C_SLV1_CTRL`, as plain arithmetic on its byte:
/// each field reads as the byte divided by the weight of its lowest bit,
/// modulo its range, and writing it replaces exactly that part of the byte.
pub proof fn lemma_i2c_slv1_ctrl_layout(r: I2CSlv1Ctrl, x: u8, b: bool)
    ensures
        r.spec_i2c_slv1_en() <==> (r.0 / 128) % 2 == 1,
        r.spec_set_i2c_slv1_en(b).0 == r.0 - ((r.0 / 128) % 2) * 128 + (if b {
            128int
        } else {
            0int
        }),
        r.spec_i2c_slv1_byte_sw() <==> (r.0 / 64) % 2 == 1,
        r.spec_set_i2c_slv1_byte_sw(b).0 == r.0 - ((r.0 / 64) % 2) * 64 + (if b {
            64int
        } else {
            0int
        }),
        r.spec_i2c_slv1_reg_dis() <==> (r.0 / 32) % 2 == 1,
        r.spec_set_i2c_slv1_reg_dis(b).0 == r.0 - ((r.0 / 32) % 2) * 32 + (if b {
            32int
        } else {
            0int
        }),
        r.spec_i2c_slv1_grp() <==> (r.0 / 16) % 2 == 1,
        r.spec_set_i2c_slv1_grp(b).0 == r.0 - ((r.0 / 16) % 2) * 16 + (if b {
            16int
        } else {
            0int
        }),
        r.spec_i2c_slv1_leng() == (r.0 / 1) % 16,
        r.spec_set_i2c_slv1_leng(x).0 == r.0 - ((r.0 / 1) % 16) * 1 + (x % 16) * 1,
{
    lemma2_to64();
    lemma_bit_arithmetic(r.0, 7, b);
    lemma_bit_arithmetic(r.0, 6, b);
    lemma_bit_arithmetic(r.0, 5, b);
    lemma_bit_arithmetic(r.0, 4, b);
    lemma_field_arithmetic(r.0, 3, 0, x);
}

/// Bit fields of the register at `REG_I2C_SLV2_ADDR`.
#[derive(Copy, Clone, PartialEq, Eq, Default, Debug)]
pub struct I2CSlv2Addr(pub u8);

impl I2CSlv2Addr {
    /// `I2C_SLV2_RNW`, bit 7.
    pub open spec fn spec_i2c_slv2_rnw(self) -> bool {
        bit(self.0, 7)
    }

    /// `I2C_SLV2_RNW`, bit 7.
    pub fn i2c_slv2_rnw(&self) -> (r: bool)
        ensures
            r == self.spec_i2c_slv2_rnw(),
    {
        get_bit(self.0, 7)
    }

    /// The value with `I2C_SLV2_RNW`, bit 7, set to `value`.
    pub open spec fn spec_set_i2c_slv2_rnw(self, value: bool) -> I2CSlv2Addr {
        I2CSlv2Addr(with_bit(self.0, 7, value))
    }

    /// Sets `I2C_SLV2_RNW`, bit 7.
    pub fn set_i2c_slv2_rnw(&mut self, value: bool)
        ensures
            *final(self) == old(self).spec_set_i2c_slv2_rnw(value),
    {
        self.0 = set_bit(self.0, 7, value);
    }

    /// `I2C_ID_2`, bits 6..=0.
    pub open spec fn spec_i2c_id_2(self) -> u8 {
        field(self.0, 6, 0)
    }

    /// `I2C_ID_2`, bits 6..=0.
    pub fn i2c_id_2(&self) -> (r: u8)
        ensures
            r == self.spec_i2c_id_2(),
    {
        get_field(self.0, 6, 0)
    }

    /// The value with `I2C_ID_2`, bits 6..=0, set to the low bits of `value`.
    pub open spec fn spec_set_i2c_id_2(self, value: u8) -> I2CSlv2Addr {
        I2CSlv2Addr(with_field(self.0, 6, 0, value))
    }

    /// Sets `I2C_ID_2`, bits 6..=0, to the low bits of `value`.
    pub fn set_i2c_id_2(&mut self, value: u8)
        ensures
            *final(self) == old(self).spec_set_i2c_id_2(value),
    {
        self.0 = set_field(self.0, 6, 0, value);
    }
}

impl Register for I2CSlv2Addr {
    open spec fn address_spec() -> u8 {
        REG_I2C_SLV2_ADDR
    }

    fn address() -> (r: u8) {
        REG_I2C_SLV2_ADDR
    }

    open spec fn bits(self) -> u8 {
        self.0
    }

    open spec fn from_bits(val: u8) -> Self {
        I2CSlv2Addr(val)
    }

    proof fn lemma_bits_round_trip(r: Self, val: u8) {
    }

    fn from_u8(val: u8) -> (r: Self) {
        I2CSlv2Addr(val)
    }

    fn to_u8(self) -> (r: u8) {
        self.0
    }
}

/// Bit layout of the register at `REG_I2C_SLV2_ADDR`, as plain arithmetic on its byte:
/// each field reads as the byte divided by the weight of its lowest bit,
/// modulo its range, and writing it replaces exactly that part of the byte.
pub proof fn lemma_i2c_slv2_addr_layout(r: I2CSlv2Addr, x: u8, b: bool)
    ensures
        r.spec_i2c_slv2_rnw() <==> (r.0 / 128) % 2 == 1,
        r.spec_set_i2c_slv2_rnw(b).0 == r.0 - ((r.0 / 128) % 2) * 128 + (if b {
            128int
        } else {
            0int
        }),
        r.spec_i2c_id_2() == (r.0 / 1) % 128,
        r.spec_set_i2c_id_2(x).0 == r.0 - ((r.0 / 1) % 128) * 1 + (x % 128) * 1,
{
    lemma2_to64();
    lemma_bit_arithmetic(r.0, 7, b);
    lemma_field_arithmetic(r.0, 6, 0, x);
}

/// Bit fields of the register at `REG_I2C_SLV2_REG`.
#[derive(Copy, Clone, PartialEq, Eq, Default, Debug)]
pub struct I2CSlv2Reg(pub u8);

impl I2CSlv2Reg {
    /// `I2C_SLV2_REG`, bits 7..=0.
    pub open spec fn spec_i2c_slv2_reg(self) -> u8 {
        field(self.0, 7, 0)
    }

    /// `I2C_SLV2_REG`, bits 7..=0.
    pub fn i2c_slv2_reg(&self) -> (r: u8)
        ensures
            r == self.spec_i2c_slv2_reg(),
    {
        get_field(self.0, 7, 0)
    }

    /// The value with `I2C_SLV2_REG`, bits 7..=0, set to the low bits of `value`.
    pub open spec fn spec_set_i2c_slv2_reg(self, value: u8) -> I2CSlv2Reg {
        I2CSlv2Reg(with_field(self.0, 7, 0, value))
    }

    /// Sets `I2C_SLV2_REG`, bits 7..=0, to the low bits of `value`.
    pub fn set_i2c_slv2_reg(&mut self, value: u8)
        ensures
            *final(self) == old(self).spec_set_i2c_slv2_reg(value),
    {
        self.0 = set_field(self.0, 7, 0, value);
    }
}

impl Register for I2CSlv2Reg {
    open spec fn address_spec() -> u8 {
        REG_I2C_SLV2_REG
    }

    fn address() -> (r: u8) {
        REG_I2C_SLV2_REG
    }

    open spec fn bits(self) -> u8 {
        self.0
    }

    open spec fn from_bits(val: u8) -> Self {
        I2CSlv2Reg(val)
    }

    proof fn lemma_bits_round_trip(r: Self, val: u8) {
    }

    fn from_u8(val: u8) -> (r: Self) {
        I2CSlv2Reg(val)
    }

    fn to_u8(self) -> (r: u8) {
        self.0
    }
}

/// Bit layout of the register at `REG_I2C_SLV2_REG`, as plain arithmetic on its byte:
/// each field reads as the byte divided by the weight of its lowest bit,
/// modulo its range, and writing it replaces exactly that part of the byte.
pub proof fn lemma_i2c_slv2_reg_layout(r: I2CSlv2Reg, x: u8)
    ensures
        r.spec_i2c_slv2_reg() == r.0 as int,
        r.spec_set_i2c_slv2_reg(x).0 == r.0 - (r.0 as int) * 1 + x * 1,
{
    lemma2_to64();
    lemma_field_arithmetic(r.0, 7, 0, x);
    assert(r.0 as nat % 256 == r.0 && x as nat % 256 == x);
}

/// Bit fields of the register at `REG_I2C_SLV2_CTRL`.
#[derive(Copy, Clone, PartialEq, Eq, Default, Debug)]
pub struct I2CSlv2Ctrl(pub u8);

impl I2CSlv2Ctrl {
    /// `I2C_SLV2_EN`, bit 7.
    pub open spec fn spec_i2c_slv2_en(self) -> bool {
        bit(self.0, 7)
    }

    /// `I2C_SLV2_EN`, bit 7.
    pub fn i2c_slv2_en(&self) -> (r: bool)
        ensures
            r == self.spec_i2c_slv2_en(),
    {
        get_bit(self.0, 7)
    }

    /// The value with `I2C_SLV2_EN`, bit 7, set to `value`.
    pub open spec fn spec_set_i2c_slv2_en(self, value: bool) -> I2CSlv2Ctrl {
        I2CSlv2Ctrl(with_bit(self.0, 7, value))
    }

    /// Sets `I2C_SLV2_EN`, bit 7.
    pub fn set_i2c_slv2_en(&mut self, value: bool)
        ensures
            *final(self) == old(self).spec_set_i2c_slv2_en(value),
    {
        self.0 = set_bit(self.0, 7, value);
    }

    /// `I2C_SLV2_BYTE_SW`, bit 6.
    pub open spec fn spec_i2c_slv2_byte_sw(self) -> bool {
        bit(self.0, 6)
    }

    /// `I2C_SLV2_BYTE_SW`, bit 6.
    pub fn i2c_slv2_byte_sw(&self) -> (r: bool)
        ensures
            r == self.spec_i2c_slv2_byte_sw(),
    {
        get_bit(self.0, 6)
    }

    /// The value with `I2C_SLV2_BYTE_SW`, bit 6, set to `value`.
    pub open spec fn spec_set_i2c_slv2_byte_sw(self, value: bool) -> I2CSlv2Ctrl {
        I2CSlv2Ctrl(with_bit(self.0, 6, value))
    }

    /// Sets `I2C_SLV2_BYTE_SW`, bit 6.
    pub fn set_i2c_slv2_byte_sw(&mut self, value: bool)
        ensures
            *final(self) == old(self).spec_set_i2c_slv2_byte_sw(value),
    {
        self.0 = set_bit(self.0, 6, value);
    }

    /// `I2C_SLV2_REG_DIS`, bit 5.
    pub open spec fn spec_i2c_slv2_reg_dis(self) -> bool {
        bit(self.0, 5)
    }

    /// `I2C_SLV2_REG_DIS`, bit 5.
    pub fn i2c_slv2_reg_dis(&self) -> (r: bool)
        ensures
            r == self.spec_i2c_slv2_reg_dis(),
    {
        get_bit(self.0, 5)
    }

    /// The value with `I2C_SLV2_REG_DIS`, bit 5, set to `value`.
    pub open spec fn spec_set_i2c_slv2_reg_dis(self, value: bool) -> I2CSlv2Ctrl {
        I2CSlv2Ctrl(with_bit(self.0, 5, value))
    }

    /// Sets `I2C_SLV2_REG_DIS`, bit 5.
    pub fn set_i2c_slv2_reg_dis(&mut self, value: bool)
        ensures
            *final(self) == old(self).spec_set_i2c_slv2_reg_dis(value),
    {
        self.0 = set_bit(self.0, 5, value);
    }

    /// `I2C_SLV2_GRP`, bit 4.
    pub open spec fn spec_i2c_slv2_grp(self) -> bool {
        bit(self.0, 4)
    }

    /// `I2C_SLV2_GRP`, bit 4.
    pub fn i2c_slv2_grp(&self) -> (r: bool)
        ensures
            r == self.spec_i2c_slv2_grp(),
    {
        get_bit(self.0, 4)
    }

    /// The value with `I2C_SLV2_GRP`, bit 4, set to `value`.
    pub open spec fn spec_set_i2c_slv2_grp(self, value: bool) -> I2CSlv2Ctrl {
        I2CSlv2Ctrl(with_bit(self.0, 4, value))
    }

    /// Sets `I2C_SLV2_GRP`, bit 4.
    pub fn set_i2c_slv2_grp(&mut self, value: bool)
        ensures
            *final(self) == old(self).spec_set_i2c_slv2_grp(value),
    {
        self.0 = set_bit(self.0, 4, value);
    }

    /// `I2C_SLV2_LENG`, bits 3..=0.
    pub open spec fn spec_i2c_slv2_leng(self) -> u8 {
        field(self.0, 3, 0)
    }

    /// `I2C_SLV2_LENG`, bits 3..=0.
    pub fn i2c_slv2_leng(&self) -> (r: u8)
        ensures
            r == self.spec_i2c_slv2_leng(),
    {
        get_field(self.0, 3, 0)
    }

    /// The value with `I2C_SLV2_LENG`, bits 3..=0, set to the low bits of `value`.
    pub open spec fn spec_set_i2c_slv2_leng(self, value: u8) -> I2CSlv2Ctrl {
        I2CSlv2Ctrl(with_field(self.0, 3, 0, value))
    }

    /// Sets `I2C_SLV2_LENG`, bits 3..=0, to the low bits of `value`.
    pub fn set_i2c_slv2_leng(&mut self, value: u8)
        ensures
            *final(self) == old(self).spec_set_i2c_slv2_leng(value),
    {
        self.0 = set_field(self.0, 3, 0, value);
    }
}

impl Register for I2CSlv2Ctrl {
    open spec fn address_spec() -> u8 {
        REG_I2C_SLV2_CTRL
    }

    fn address() -> (r: u8) {
        REG_I2C_SLV2_CTRL
    }

    open spec fn bits(self) -> u8 {
        self.0
    }

    open spec fn from_bits(val: u8) -> Self {
        I2CSlv2Ctrl(val)
    }

    proof fn lemma_bits_round_trip(r: Self, val: u8) {
    }

    fn from_u8(val: u8) -> (r: Self) {
        I2CSlv2Ctrl(val)
    }

    fn to_u8(self) -> (r: u8) {
        self.0
    }
}

/// Bit layout of the register at `REG_I2C_SLV2_CTRL`, as plain arithmetic on its byte:
/// each field reads as the byte divided by the weight of its lowest bit,
/// modulo its range, and writing it replaces exactly that part of the byte.
pub proof fn lemma_i2c_slv2_ctrl_layout(r: I2CSlv2Ctrl, x: u8, b: bool)
    ensures
        r.spec_i2c_slv2_en() <==> (r.0 / 128) % 2 == 1,
        r.spec_set_i2c_slv2_en(b).0 == r.0 - ((r.0 / 128) % 2) * 128 + (if b {
            128int
        } else {
            0int
        }),
        r.spec_i2c_slv2_byte_sw() <==> (r.0 / 64) % 2 == 1,
        r.spec_set_i2c_slv2_byte_sw(b).0 == r.0 - ((r.0 / 64) % 2) * 64 + (if b {
            64int
        } else {
            0int
        }),
        r.spec_i2c_slv2_reg_dis() <==> (r.0 / 32) % 2 == 1,
        r.spec_set_i2c_slv2_reg_dis(b).0 == r.0 - ((r.0 / 32) % 2) * 32 + (if b {
            32int
        } else {
            0int
        }),
        r.spec_i2c_slv2_grp() <==> (r.0 / 16) % 2 == 1,
        r.spec_set_i2c_slv2_grp(b).0 == r.0 - ((r.0 / 16) % 2) * 16 + (if b {
            16int
        } else {
            0int
        }),
        r.spec_i2c_slv2_leng() == (r.0 / 1) % 16,
        r.spec_set_i2c_slv2_leng(x).0 == r.0 - ((r.0 / 1) % 16) * 1 + (x % 16) * 1,
{
    lemma2_to64();
    lemma_bit_arithmetic(r.0, 7, b);
    lemma_bit_arithmetic(r.0, 6, b);
    lemma_bit_arithmetic(r.0, 5, b);
    lemma_bit_arithmetic(r.0, 4, b);
    lemma_field_arithmetic(r.0, 3, 0, x);
}

/// Bit fields of the register at `REG_I2C_SLV3_ADDR`.
#[derive(Copy, Clone, PartialEq, Eq, Default, Debug)]
pub struct I2CSlv3Addr(pub u8);

impl I2CSlv3Addr {
    /// `I2C_SLV3_RNW`, bit 7.
    pub open spec fn spec_i2c_slv3_rnw(self) -> bool {
        bit(self.0, 7)
    }

    /// `I2C_SLV3_RNW`, bit 7.
    pub fn i2c_slv3_rnw(&self) -> (r: bool)
        ensures
            r == self.spec_i2c_slv3_rnw(),
    {
        get_bit(self.0, 7)
    }

    /// The value with `I2C_SLV3_RNW`, bit 7, set to `value`.
    pub open spec fn spec_set_i2c_slv3_rnw(self, value: bool) -> I2CSlv3Addr {
        I2CSlv3Addr(with_bit(self.0, 7, value))
    }

    /// Sets `I2C_SLV3_RNW`, bit 7.
    pub fn set_i2c_slv3_rnw(&mut self, value: bool)
        ensures
            *final(self) == old(self).spec_set_i2c_slv3_rnw(value),
    {
        self.0 = set_bit(self.0, 7, value);
    }

    /// `I2C_ID_3`, bits 6..=0.
    pub open spec fn spec_i2c_id_3(self) -> u8 {
        field(self.0, 6, 0)
    }

    /// `I2C_ID_3`, bits 6..=0.
    pub fn i2c_id_3(&self) -> (r: u8)
        ensures
            r == self.spec_i2c_id_3(),
    {
        get_field(self.0, 6, 0)
    }

    /// The value with `I2C_ID_3`, bits 6..=0, set to the low bits of `value`.
    pub open spec fn spec_set_i2c_id_3(self, value: u8) -> I2CSlv3Addr {
        I2CSlv3Addr(with_field(self.0, 6, 0, value))
    }

    /// Sets `I2C_ID_3`, bits 6..=0, to the low bits of `value`.
    pub fn set_i2c_id_3(&mut self, value: u8)
        ensures
            *final(self) == old(self).spec_set_i2c_id_3(value),
    {
        self.0 = set_field(self.0, 6, 0, value);
    }
}

impl Register for I2CSlv3Addr {
    open spec fn address_spec() -> u8 {
        REG_I2C_SLV3_ADDR
    }

    fn address() -> (r: u8) {
        REG_I2C_SLV3_ADDR
    }

    open spec fn bits(self) -> u8 {
        self.0
    }

    open spec fn from_bits(val: u8) -> Self {
        I2CSlv3Addr(val)
    }

    proof fn lemma_bits_round_trip(r: Self, val: u8) {
    }

    fn from_u8(val: u8) -> (r: Self) {
        I2CSlv3Addr(val)
    }

    fn to_u8(self) -> (r: u8) {
        self.0
    }
}

/// Bit layout of the register at `REG_I2C_SLV3_ADDR`, as plain arithmetic on its byte:
/// each field reads as the byte divided by the weight of its lowest bit,
/// modulo its range, and writing it replaces exactly that part of the byte.
pub proof fn lemma_i2c_slv3_addr_layout(r: I2CSlv3Addr, x: u8, b: bool)
    ensures
        r.spec_i2c_slv3_rnw() <==> (r.0 / 128) % 2 == 1,
        r.spec_set_i2c_slv3_rnw(b).0 == r.0 - ((r.0 / 128) % 2) * 128 + (if b {
            128int
        } else {
            0int
        }),
        r.spec_i2c_id_3() == (r.0 / 1) % 128,
        r.spec_set_i2c_id_3(x).0 == r.0 - ((r.0 / 1) % 128) * 1 + (x % 128) * 1,
{
    lemma2_to64();
    lemma_bit_arithmetic(r.0, 7, b);
    lemma_field_arithmetic(r.0, 6, 0, x);
}

/// Bit fields of the register at `REG_I2C_SLV3_REG`.
#[derive(Copy, Clone, PartialEq, Eq, Default, Debug)]
pub struct I2CSlv3Reg(pub u8);

impl I2CSlv3Reg {
    /// `I2C_SLV3_REG`, bits 7..=0.
    pub open spec fn spec_i2c_slv3_reg(self) -> u8 {
        field(self.0, 7, 0)
    }

    /// `I2C_SLV3_REG`, bits 7..=0.
    pub fn i2c_slv3_reg(&self) -> (r: u8)
        ensures
            r == self.spec_i2c_slv3_reg(),
    {
        get_field(self.0, 7, 0)
    }

    /// The value with `I2C_SLV3_REG`, bits 7..=0, set to the low bits of `value`.
    pub open spec fn spec_set_i2c_slv3_reg(self, value: u8) -> I2CSlv3Reg {
        I2CSlv3Reg(with_field(self.0, 7, 0, value))
    }

    /// Sets `I2C_SLV3_REG`, bits 7..=0, to the low bits of `value`.
    pub fn set_i2c_slv3_reg(&mut self, value: u8)
        ensures
            *final(self) == old(self).spec_set_i2c_slv3_reg(value),
    {
        self.0 = set_field(self.0, 7, 0, value);
    }
}

impl Register for I2CSlv3Reg {
    open spec fn address_spec() -> u8 {
        REG_I2C_SLV3_REG
    }

    fn address() -> (r: u8) {
        REG_I2C_SLV3_REG
    }

    open spec fn bits(self) -> u8 {
        self.0
    }

    open spec fn from_bits(val: u8) -> Self {
        I2CSlv3Reg(val)
    }

    proof fn lemma_bits_round_trip(r: Self, val: u8) {
    }

    fn from_u8(val: u8) -> (r: Self) {
        I2CSlv3Reg(val)
    }

    fn to_u8(self) -> (r: u8) {
        self.0
    }
}

/// Bit layout of the register at `REG_I2C_SLV3_REG`, as plain arithmetic on its byte:
/// each field reads as the byte divided by the weight of its lowest bit,
/// modulo its range, and writing it replaces exactly that part of the byte.
pub proof fn lemma_i2c_slv3_reg_layout(r: I2CSlv3Reg, x: u8)
    ensures
        r.spec_i2c_slv3_reg() == r.0 as int,
        r.spec_set_i2c_slv3_reg(x).0 == r.0 - (r.0 as int) * 1 + x * 1,
{
    lemma2_to64();
    lemma_field_arithmetic(r.0, 7, 0, x);
    assert(r.0 as nat % 256 == r.0 && x as nat % 256 == x);
}

/// Bit fields of the register at `REG_I2C_SLV3_CTRL`.
#[derive(Copy, Clone, PartialEq, Eq, Default, Debug)]
pub struct I2CSlv3Ctrl(pub u8);

impl I2CSlv3Ctrl {
    /// `I2C_SLV3_EN`, bit 7.
    pub open spec fn spec_i2c_slv3_en(self) -> bool {
        bit(self.0, 7)
    }

    /// `I2C_SLV3_EN`, bit 7.
    pub fn i2c_slv3_en(&self) -> (r: bool)
        ensures
            r == self.spec_i2c_slv3_en(),
    {
        get_bit(self.0, 7)
    }

    /// The value with `I2C_SLV3_EN`, bit 7, set to `value`.
    pub open spec fn spec_set_i2c_slv3_en(self, value: bool) -> I2CSlv3Ctrl {
        I2CSlv3Ctrl(with_bit(self.0, 7, value))
    }

    /// Sets `I2C_SLV3_EN`, bit 7.
    pub fn set_i2c_slv3_en(&mut self, value: bool)
        ensures
            *final(self) == old(self).spec_set_i2c_slv3_en(value),
    {
        self.0 = set_bit(self.0, 7, value);
    }

    /// `I2C_SLV3_BYTE_SW`, bit 6.
    pub open spec fn spec_i2c_slv3_byte_sw(self) -> bool {
        bit(self.0, 6)
    }

    /// `I2C_SLV3_BYTE_SW`, bit 6.
    pub fn i2c_slv3_byte_sw(&self) -> (r: bool)
        ensures
            r == self.spec_i2c_slv3_byte_sw(),
    {
        get_bit(self.0, 6)
    }

    /// The value with `I2C_SLV3_BYTE_SW`, bit 6, set to `value`.
    pub open spec fn spec_set_i2c_slv3_byte_sw(self, value: bool) -> I2CSlv3Ctrl {
        I2CSlv3Ctrl(with_bit(self.0, 6, value))
    }

    /// Sets `I2C_SLV3_BYTE_SW`, bit 6.
    pub fn set_i2c_slv3_byte_sw(&mut self, value: bool)
        ensures
            *final(self) == old(self).spec_set_i2c_slv3_byte_sw(value),
    {
        self.0 = set_bit(self.0, 6, value);
    }

    /// `I2C_SLV3_REG_DIS`, bit 5.
    pub open spec fn spec_i2c_slv3_reg_dis(self) -> bool {
        bit(self.0, 5)
    }

    /// `I2C_SLV3_REG_DIS`, bit 5.
    pub fn i2c_slv3_reg_dis(&self) -> (r: bool)
        ensures
            r == self.spec_i2c_slv3_reg_dis(),
    {
        get_bit(self.0, 5)
    }

    /// The value with `I2C_SLV3_REG_DIS`, bit 5, set to `value`.
    pub open spec fn spec_set_i2c_slv3_reg_dis(self, value: bool) -> I2CSlv3Ctrl {
        I2CSlv3Ctrl(with_bit(self.0, 5, value))
    }

    /// Sets `I2C_SLV3_REG_DIS`, bit 5.
    pub fn set_i2c_slv3_reg_dis(&mut self, value: bool)
        ensures
            *final(self) == old(self).spec_set_i2c_slv3_reg_dis(value),
    {
        self.0 = set_bit(self.0, 5, value);
    }

    /// `I2C_SLV3_GRP`, bit 4.
    pub open spec fn spec_i2c_slv3_grp(self) -> bool {
        bit(self.0, 4)
    }

    /// `I2C_SLV3_GRP`, bit 4.
    pub fn i2c_slv3_grp(&self) -> (r: bool)
        ensures
            r == self.spec_i2c_slv3_grp(),
    {
        get_bit(self.0, 4)
    }

    /// The value with `I2C_SLV3_GRP`, bit 4, set to `value`.
    pub open spec fn spec_set_i2c_slv3_grp(self, value: bool) -> I2CSlv3Ctrl {
        I2CSlv3Ctrl(with_bit(self.0, 4, value))
    }

    /// Sets `I2C_SLV3_GRP`, bit 4.
    pub fn set_i2c_slv3_grp(&mut self, value: bool)
        ensures
            *final(self) == old(self).spec_set_i2c_slv3_grp(value),
    {
        self.0 = set_bit(self.0, 4, value);
    }

    /// `I2C_SLV3_LENG`, bits 3..=0.
    pub open spec fn spec_i2c_slv3_leng(self) -> u8 {
        field(self.0, 3, 0)
    }

    /// `I2C_SLV3_LENG`, bits 3..=0.
    pub fn i2c_slv3_leng(&self) -> (r: u8)
        ensures
            r == self.spec_i2c_slv3_leng(),
    {
        get_field(self.0, 3, 0)
    }

    /// The value with `I2C_SLV3_LENG`, bits 3..=0, set to the low bits of `value`.
    pub open spec fn spec_set_i2c_slv3_leng(self, value: u8) -> I2CSlv3Ctrl {
        I2CSlv3Ctrl(with_field(self.0, 3, 0, value))
    }

    /// Sets `I2C_SLV3_LENG`, bits 3..=0, to the low bits of `value`.
    pub fn set_i2c_slv3_leng(&mut self, value: u8)
        ensures
            *final(self) == old(self).spec_set_i2c_slv3_leng(value),
    {
        self.0 = set_field(self.0, 3, 0, value);
    }
}

impl Register for I2CSlv3Ctrl {
    open spec fn address_spec() -> u8 {
        REG_I2C_SLV3_CTRL
    }

    fn address() -> (r: u8) {
        REG_I2C_SLV3_CTRL
    }

    open spec fn bits(self) -> u8 {
        self.0
    }

    open spec fn from_bits(val: u8) -> Self {
        I2CSlv3Ctrl(val)
    }

    proof fn lemma_bits_round_trip(r: Self, val: u8) {
    }

    fn from_u8(val: u8) -> (r: Self) {
        I2CSlv3Ctrl(val)
    }

    fn to_u8(self) -> (r: u8) {
        self.0
    }
}

/// Bit layout of the register at `REG_I2C_SLV3_CTRL`, as plain arithmetic on its byte:
/// each field reads as the byte divided by the weight of its lowest bit,
/// modulo its range, and writing it replaces exactly that part of the byte.
pub proof fn lemma_i2c_slv3_ctrl_layout(r: I2CSlv3Ctrl, x: u8, b: bool)
    ensures
        r.spec_i2c_slv3_en() <==> (r.0 / 128) % 2 == 1,
        r.spec_set_i2c_slv3_en(b).0 == r.0 - ((r.0 / 128) % 2) * 128 + (if b {
            128int
        } else {
            0int
        }),
        r.spec_i2c_slv3_byte_sw() <==> (r.0 / 64) % 2 == 1,
        r.spec_set_i2c_slv3_byte_sw(b).0 == r.0 - ((r.0 / 64) % 2) * 64 + (if b {
            64int
        } else {
            0int
        }),
        r.spec_i2c_slv3_reg_dis() <==> (r.0 / 32) % 2 == 1,
        r.spec_set_i2c_slv3_reg_dis(b).0 == r.0 - ((r.0 / 32) % 2) * 32 + (if b {
            32int
        } else {
            0int
        }),
        r.spec_i2c_slv3_grp() <==> (r.0 / 16) % 2 == 1,
        r.spec_set_i2c_slv3_grp(b).0 == r.0 - ((r.0 / 16) % 2) * 16 + (if b {
            16int
        } else {
            0int
        }),
        r.spec_i2c_slv3_leng() == (r.0 / 1) % 16,
        r.spec_set_i2c_slv3_leng(x).0 == r.0 - ((r.0 / 1) % 16) * 1 + (x % 16) * 1,
{
    lemma2_to64();
    lemma_bit_arithmetic(r.0, 7, b);
    lemma_bit_arithmetic(r.0, 6, b);
    lemma_bit_arithmetic(r.0, 5, b);
    lemma_bit_arithmetic(r.0, 4, b);
    lemma_field_arithmetic(r.0, 3, 0, x);
}

/// Bit fields of the register at `REG_I2C_SLV4_ADDR`.
#[derive(Copy, Clone, PartialEq, Eq, Default, Debug)]
pub struct I2CSlv4Addr(pub u8);

impl I2CSlv4Addr {
    /// `I2C_SLV4_RNW`, bit 7.
    pub open spec fn spec_i2c_slv4_rnw(self) -> bool {
        bit(self.0, 7)
    }

    /// `I2C_SLV4_RNW`, bit 7.
    pub fn i2c_slv4_rnw(&self) -> (r: bool)
        ensures
            r == self.spec_i2c_slv4_rnw(),
    {
        get_bit(self.0, 7)
    }

    /// The value with `I2C_SLV4_RNW`, bit 7, set to `value`.
    pub open spec fn spec_set_i2c_slv4_rnw(self, value: bool) -> I2CSlv4Addr {
        I2CSlv4Addr(with_bit(self.0, 7, value))
    }

    /// Sets `I2C_SLV4_RNW`, bit 7.
    pub fn set_i2c_slv4_rnw(&mut self, value: bool)
        ensures
            *final(self) == old(self).spec_set_i2c_slv4_rnw(value),
    {
        self.0 = set_bit(self.0, 7, value);
    }

    /// `I2C_ID_4`, bits 6..=0.
    pub open spec fn spec_i2c_id_4(self) -> u8 {
        field(self.0, 6, 0)
    }

    /// `I2C_ID_4`, bits 6..=0.
    pub fn i2c_id_4(&self) -> (r: u8)
        ensures
            r == self.spec_i2c_id_4(),
    {
        get_field(self.0, 6, 0)
    }

    /// The value with `I2C_ID_4`, bits 6..=0, set to the low bits of `value`.
    pub open spec fn spec_set_i2c_id_4(self, value: u8) -> I2CSlv4Addr {
        I2CSlv4Addr(with_field(self.0, 6, 0, value))
    }

    /// Sets `I2C_ID_4`, bits 6..=0, to the low bits of `value`.
    pub fn set_i2c_id_4(&mut self, value: u8)
        ensures
            *final(self) == old(self).spec_set_i2c_id_4(value),
    {
        self.0 = set_field(self.0, 6, 0, value);
    }
}

impl Register for I2CSlv4Addr {
    open spec fn address_spec() -> u8 {
        REG_I2C_SLV4_ADDR
    }

    fn address() -> (r: u8) {
        REG_I2C_SLV4_ADDR
    }

    open spec fn bits(self) -> u8 {
        self.0
    }

    open spec fn from_bits(val: u8) -> Self {
        I2CSlv4Addr(val)
    }

    proof fn lemma_bits_round_trip(r: Self, val: u8) {
    }

    fn from_u8(val: u8) -> (r: Self) {
        I2CSlv4Addr(val)
    }

    fn to_u8(self) -> (r: u8) {
        self.0
    }
}

/// Bit layout of the register at `REG_I2C_SLV4_ADDR`, as plain arithmetic on its byte:
/// each field reads as the byte divided by the weight of its lowest bit,
/// modulo its range, and writing it replaces exactly that part of the byte.
pub proof fn lemma_i2c_slv4_addr_layout(r: I2CSlv4Addr, x: u8, b: bool)
    ensures
        r.spec_i2c_slv4_rnw() <==> (r.0 / 128) % 2 == 1,
        r.spec_set_i2c_slv4_rnw(b).0 == r.0 - ((r.0 / 128) % 2) * 128 + (if b {
            128int
        } else {
            0int
        }),
        r.spec_i2c_id_4() == (r.0 / 1) % 128,
        r.spec_set_i2c_id_4(x).0 == r.0 - ((r.0 / 1) % 128) * 1 + (x % 128) * 1,
{
    lemma2_to64();
    lemma_bit_arithmetic(r.0, 7, b);
    lemma_field_arithmetic(r.0, 6, 0, x);
}

/// Bit fields of the register at `REG_I2C_SLV4_REG`.
#[derive(Copy, Clone, PartialEq, Eq, Default, Debug)]
pub struct I2CSlv4Reg(pub u8);

impl I2CSlv4Reg {
    /// `I2C_SLV4_REG`, bits 7..=0.
    pub open spec fn spec_i2c_slv4_reg(self) -> u8 {
        field(self.0, 7, 0)
    }

    /// `I2C_SLV4_REG`, bits 7..=0.
    pub fn i2c_slv4_reg(&self) -> (r: u8)
        ensures
            r == self.spec_i2c_slv4_reg(),
    {
        get_field(self.0, 7, 0)
    }

    /// The value with `I2C_SLV4_REG`, bits 7..=0, set to the low bits of `value`.
    pub open spec fn spec_set_i2c_slv4_reg(self, value: u8) -> I2CSlv4Reg {
        I2CSlv4Reg(with_field(self.0, 7, 0, value))
    }

    /// Sets `I2C_SLV4_REG`, bits 7..=0, to the low bits of `value`.
    pub fn set_i2c_slv4_reg(&mut self, value: u8)
        ensures
            *final(self) == old(self).spec_set_i2c_slv4_reg(value),
    {
        self.0 = set_field(self.0, 7, 0, value);
    }
}

impl Register for I2CSlv4Reg {
    open spec fn address_spec() -> u8 {
        REG_I2C_SLV4_REG
    }

    fn address() -> (r: u8) {
        REG_I2C_SLV4_REG
    }

    open spec fn bits(self) -> u8 {
        self.0
    }

    open spec fn from_bits(val: u8) -> Self {
        I2CSlv4Reg(val)
    }

    proof fn lemma_bits_round_trip(r: Self, val: u8) {
    }

    fn from_u8(val: u8) -> (r: Self) {
        I2CSlv4Reg(val)
    }

    fn to_u8(self) -> (r: u8) {
        self.0
    }
}

/// Bit layout of the register at `REG_I2C_SLV4_REG`, as plain arithmetic on its byte:
/// each field reads as the byte divided by the weight of its lowest bit,
/// modulo its range, and writing it replaces exactly that part of the byte.
pub proof fn lemma_i2c_slv4_reg_layout(r: I2CSlv4Reg, x: u8)
    ensures
        r.spec_i2c_slv4_reg() == r.0 as int,
        r.spec_set_i2c_slv4_reg(x).0 == r.0 - (r.0 as int) * 1 + x * 1,
{
    lemma2_to64();
    lemma_field_arithmetic(r.0, 7, 0, x);
    assert(r.0 as nat % 256 == r.0 && x as nat % 256 == x);
}

/// Bit fields of the register at `REG_I2C_SLV4_CTRL`.
#[derive(Copy, Clone, PartialEq, Eq, Default, Debug)]
pub struct I2CSlv4Ctrl(pub u8);

impl I2CSlv4Ctrl {
    /// `I2C_SLV4_EN`, bit 7.
    pub open spec fn spec_i2c_slv4_en(self) -> bool {
        bit(self.0, 7)
    }

    /// `I2C_SLV4_EN`, bit 7.
    pub fn i2c_slv4_en(&self) -> (r: bool)
        ensures
            r == self.spec_i2c_slv4_en(),
    {
        get_bit(self.0, 7)
    }

    /// The value with `I2C_SLV4_EN`, bit 7, set to `value`.
    pub open spec fn spec_set_i2c_slv4_en(self, value: bool) -> I2CSlv4Ctrl {
        I2CSlv4Ctrl(with_bit(self.0, 7, value))
    }

    /// Sets `I2C_SLV4_EN`, bit 7.
    pub fn set_i2c_slv4_en(&mut self, value: bool)
        ensures
            *final(self) == old(self).spec_set_i2c_slv4_en(value),
    {
        self.0 = set_bit(self.0, 7, value);
    }

    /// `SLV4_DONE_INT_EN`, bit 6.
    pub open spec fn spec_slv4_done_int_en(self) -> bool {
        bit(self.0, 6)
    }

    /// `SLV4_DONE_INT_EN`, bit 6.
    pub fn slv4_done_int_en(&self) -> (r: bool)
        ensures
            r == self.spec_slv4_done_int_en(),
    {
        get_bit(self.0, 6)
    }

    /// The value with `SLV4_DONE_INT_EN`, bit 6, set to `value`.
    pub open spec fn spec_set_slv4_done_int_en(self, value: bool) -> I2CSlv4Ctrl {
        I2CSlv4Ctrl(with_bit(self.0, 6, value))
    }

    /// Sets `SLV4_DONE_INT_EN`, bit 6.
    pub fn set_slv4_done_int_en(&mut self, value: bool)
        ensures
            *final(self) == old(self).spec_set_slv4_done_int_en(value),
    {
        self.0 = set_bit(self.0, 6, value);
    }

    /// `I2C_SLV4_REG_DIS`, bit 5.
    pub open spec fn spec_i2c_slv4_reg_dis(self) -> bool {
        bit(self.0, 5)
    }

    /// `I2C_SLV4_REG_DIS`, bit 5.
    pub fn i2c_slv4_reg_dis(&self) -> (r: bool)
        ensures
            r == self.spec_i2c_slv4_reg_dis(),
    {
        get_bit(self.0, 5)
    }

    /// The value with `I2C_SLV4_REG_DIS`, bit 5, set to `value`.
    pub open spec fn spec_set_i2c_slv4_reg_dis(self, value: bool) -> I2CSlv4Ctrl {
        I2CSlv4Ctrl(with_bit(self.0, 5, value))
    }

    /// Sets `I2C_SLV4_REG_DIS`, bit 5.
    pub fn set_i2c_slv4_reg_dis(&mut self, value: bool)
        ensures
            *final(self) == old(self).spec_set_i2c_slv4_reg_dis(value),
    {
        self.0 = set_bit(self.0, 5, value);
    }

    /// `I2C_MST_DLY`, bits 4..=0.
    pub open spec fn spec_i2c_mst_dly(self) -> u8 {
        field(self.0, 4, 0)
    }

    /// `I2C_MST_DLY`, bits 4..=0.
    pub fn i2c_mst_dly(&self) -> (r: u8)
        ensures
            r == self.spec_i2c_mst_dly(),
    {
        get_field(self.0, 4, 0)
    }

    /// The value with `I2C_MST_DLY`, bits 4..=0, set to the low bits of `value`.
    pub open spec fn spec_set_i2c_mst_dly(self, value: u8) -> I2CSlv4Ctrl {
        I2CSlv4Ctrl(with_field(self.0, 4, 0, value))
    }

    /// Sets `I2C_MST_DLY`, bits 4..=0, to the low bits of `value`.
    pub fn set_i2c_mst_dly(&mut self, value: u8)
        ensures
            *final(self) == old(self).spec_set_i2c_mst_dly(value),
    {
        self.0 = set_field(self.0, 4, 0, value);
    }
}

impl Register for I2CSlv4Ctrl {
    open spec fn address_spec() -> u8 {
        REG_I2C_SLV4_CTRL
    }

    fn address() -> (r: u8) {
        REG_I2C_SLV4_CTRL
    }

    open spec fn bits(self) -> u8 {
        self.0
    }

    open spec fn from_bits(val: u8) -> Self {
        I2CSlv4Ctrl(val)
    }

    proof fn lemma_bits_round_trip(r: Self, val: u8) {
    }

    fn from_u8(val: u8) -> (r: Self) {
        I2CSlv4Ctrl(val)
    }

    fn to_u8(self) -> (r: u8) {
        self.0
    }
}

/// Bit layout of the register at `REG_I2C_SLV4_CTRL`, as plain arithmetic on its byte:
/// each field reads as the byte divided by the weight of its lowest bit,
/// modulo its range, and writing it replaces exactly that part of the byte.
pub proof fn lemma_i2c_slv4_ctrl_layout(r: I2CSlv4Ctrl, x: u8, b: bool)
    ensures
        r.spec_i2c_slv4_en() <==> (r.0 / 128) % 2 == 1,
        r.spec_set_i2c_slv4_en(b).0 == r.0 - ((r.0 / 128) % 2) * 128 + (if b {
            128int
        } else {
            0int
        }),
        r.spec_slv4_done_int_en() <==> (r.0 / 64) % 2 == 1,
        r.spec_set_slv4_done_int_en(b).0 == r.0 - ((r.0 / 64) % 2) * 64 + (if b {
            64int
        } else {
            0int
        }),
        r.spec_i2c_slv4_reg_dis() <==> (r.0 / 32) % 2 == 1,
        r.spec_set_i2c_slv4_reg_dis(b).0 == r.0 - ((r.0 / 32) % 2) * 32 + (if b {
            32int
        } else {
            0int
        }),
        r.spec_i2c_mst_dly() == (r.0 / 1) % 32,
        r.spec_set_i2c_mst_dly(x).0 == r.0 - ((r.0 / 1) % 32) * 1 + (x % 32) * 1,
{
    lemma2_to64();
    lemma_bit_arithmetic(r.0, 7, b);
    lemma_bit_arithmetic(r.0, 6, b);
    lemma_bit_arithmetic(r.0, 5, b);
    lemma_field_arithmetic(r.0, 4, 0, x);
}

/// Bit fields of the register at `REG_I2C_MST_STATUS`.
#[derive(Copy, Clone, PartialEq, Eq, Default, Debug)]
pub struct I2CMstStatus(pub u8);

impl I2CMstStatus {
    /// `PASS_THROUGH`, bit 7.
    pub open spec fn spec_pass_through(self) -> bool {
        bit(self.0, 7)
    }

    /// `PASS_THROUGH`, bit 7.
    pub fn pass_through(&self) -> (r: bool)
        ensures
            r == self.spec_pass_through(),
    {
        get_bit(self.0, 7)
    }

    /// `I2C_SLV4_DONE`, bit 6.
    pub open spec fn spec_i2c_slv4_done(self) -> bool {
        bit(self.0, 6)
    }

    /// `I2C_SLV4_DONE`, bit 6.
    pub fn i2c_slv4_done(&self) -> (r: bool)
        ensures
            r == self.spec_i2c_slv4_done(),
    {
        get_bit(self.0, 6)
    }

    /// `I2C_LOST_ARB`, bit 5.
    pub open spec fn spec_i2c_lost_arb(self) -> bool {
        bit(self.0, 5)
    }

    /// `I2C_LOST_ARB`, bit 5.
    pub fn i2c_lost_arb(&self) -> (r: bool)
        ensures
            r == self.spec_i2c_lost_arb(),
    {
        get_bit(self.0, 5)
    }

    /// `I2C_SLV4_NACK`, bit 4.
    pub open spec fn spec_i2c_slv4_nack(self) -> bool {
        bit(self.0, 4)
    }

    /// `I2C_SLV4_NACK`, bit 4.
    pub fn i2c_slv4_nack(&self) -> (r: bool)
        ensures
            r == self.spec_i2c_slv4_nack(),
    {
        get_bit(self.0, 4)
    }

    /// `I2C_SLV3_NACK`, bit 3.
    pub open spec fn spec_i2c_slv3_nack(self) -> bool {
        bit(self.0, 3)
    }

    /// `I2C_SLV3_NACK`, bit 3.
    pub fn i2c_slv3_nack(&self) -> (r: bool)
        ensures
            r == self.spec_i2c_slv3_nack(),
    {
        get_bit(self.0, 3)
    }

    /// `I2C_SLV2_NACK`, bit 2.
    pub open spec fn spec_i2c_slv2_nack(self) -> bool {
        bit(self.0, 2)
    }

    /// `I2C_SLV2_NACK`, bit 2.
    pub fn i2c_slv2_nack(&self) -> (r: bool)
        ensures
            r == self.spec_i2c_slv2_nack(),
    {
        get_bit(self.0, 2)
    }

    /// `I2C_SLV1_NACK`, bit 1.
    pub open spec fn spec_i2c_slv1_nack(self) -> bool {
        bit(self.0, 1)
    }

    /// `I2C_SLV1_NACK`, bit 1.
    pub fn i2c_slv1_nack(&self) -> (r: bool)
        ensures
            r == self.spec_i2c_slv1_nack(),
    {
        get_bit(self.0, 1)
    }

    /// `I2C_SLV0_NACK`, bit 0.
    pub open spec fn spec_i2c_slv0_nack(self) -> bool {
        bit(self.0, 0)
    }

    /// `I2C_SLV0_NACK`, bit 0.
    pub fn i2c_slv0_nack(&self) -> (r: bool)
        ensures
            r == self.spec_i2c_slv0_nack(),
    {
        get_bit(self.0, 0)
    }
}

impl Register for I2CMstStatus {
    open spec fn address_spec() -> u8 {
        REG_I2C_MST_STATUS
    }

    fn address() -> (r: u8) {
        REG_I2C_MST_STATUS
    }

    open spec fn bits(self) -> u8 {
        self.0
    }

    open spec fn from_bits(val: u8) -> Self {
        I2CMstStatus(val)
    }

    proof fn lemma_bits_round_trip(r: Self, val: u8) {
    }

    fn from_u8(val: u8) -> (r: Self) {
        I2CMstStatus(val)
    }

    fn to_u8(self) -> (r: u8) {
        self.0
    }
}

/// Bit layout of the register at `REG_I2C_MST_STATUS`, as plain arithmetic on its byte:
/// each field reads as the byte divided by the weight of its lowest bit,
/// modulo its range, and writing it replaces exactly that part of the byte.
pub proof fn lemma_i2c_mst_status_layout(r: I2CMstStatus, b: bool)
    ensures
        r.spec_pass_through() <==> (r.0 / 128) % 2 == 1,
        r.spec_i2c_slv4_done() <==> (r.0 / 64) % 2 == 1,
        r.spec_i2c_lost_arb() <==> (r.0 / 32) % 2 == 1,
        r.spec_i2c_slv4_nack() <==> (r.0 / 16) % 2 == 1,
        r.spec_i2c_slv3_nack() <==> (r.0 / 8) % 2 == 1,
        r.spec_i2c_slv2_nack() <==> (r.0 / 4) % 2 == 1,
        r.spec_i2c_slv1_nack() <==> (r.0 / 2) % 2 == 1,
        r.spec_i2c_slv0_nack() <==> (r.0 / 1) % 2 == 1,
{
    lemma2_to64();
    lemma_bit_arithmetic(r.0, 7, b);
    lemma_bit_arithmetic(r.0, 6, b);
    lemma_bit_arithmetic(r.0, 5, b);
    lemma_bit_arithmetic(r.0, 4, b);
    lemma_bit_arithmetic(r.0, 3, b);
    lemma_bit_arithmetic(r.0, 2, b);
    lemma_bit_arithmetic(r.0, 1, b);
    lemma_bit_arithmetic(r.0, 0, b);
}

/// Bit fields of the register at `REG_INT_PIN_CFG`.
#[derive(Copy, Clone, PartialEq, Eq, Default, Debug)]
pub struct IntPinCfg(pub u8);

impl IntPinCfg {
    /// `ACTL`, bit 7.
    pub open spec fn spec_actl(self) -> bool {
        bit(self.0, 7)
    }

    /// `ACTL`, bit 7.
    pub fn actl(&self) -> (r: bool)
        ensures
            r == self.spec_actl(),
    {
        get_bit(self.0, 7)
    }

    /// The value with `ACTL`, bit 7, set to `value`.
    pub open spec fn spec_set_actl(self, value: bool) -> IntPinCfg {
        IntPinCfg(with_bit(self.0, 7, value))
    }

    /// Sets `ACTL`, bit 7.
    pub fn set_actl(&mut self, value: bool)
        ensures
            *final(self) == old(self).spec_set_actl(value),
    {
        self.0 = set_bit(self.0, 7, value);
    }

    /// `OPEN`, bit 6.
    pub open spec fn spec_open(self) -> bool {
        bit(self.0, 6)
    }

    /// `OPEN`, bit 6.
    pub fn open(&self) -> (r: bool)
        ensures
            r == self.spec_open(),
    {
        get_bit(self.0, 6)
    }

    /// The value with `OPEN`, bit 6, set to `value`.
    pub open spec fn spec_set_open(self, value: bool) -> IntPinCfg {
        IntPinCfg(with_bit(self.0, 6, value))
    }

    /// Sets `OPEN`, bit 6.
    pub fn set_open(&mut self, value: bool)
        ensures
            *final(self) == old(self).spec_set_open(value),
    {
        self.0 = set_bit(self.0, 6, value);
    }

    /// `LATCH_INT_EN`, bit 5.
    pub open spec fn spec_latch_int_en(self) -> bool {
        bit(self.0, 5)
    }

    /// `LATCH_INT_EN`, bit 5.
    pub fn latch_int_en(&self) -> (r: bool)
        ensures
            r == self.spec_latch_int_en(),
    {
        get_bit(self.0, 5)
    }

    /// The value with `LATCH_INT_EN`, bit 5, set to `value`.
    pub open spec fn spec_set_latch_int_en(self, value: bool) -> IntPinCfg {
        IntPinCfg(with_bit(self.0, 5, value))
    }

    /// Sets `LATCH_INT_EN`, bit 5.
    pub fn set_latch_int_en(&mut self, value: bool)
        ensures
            *final(self) == old(self).spec_set_latch_int_en(value),
    {
        self.0 = set_bit(self.0, 5, value);
    }

    /// `INT_ANYRD_2CLEAR`, bit 4.
    pub open spec fn spec_int_anyrd_2clear(self) -> bool {
        bit(self.0, 4)
    }

    /// `INT_ANYRD_2CLEAR`, bit 4.
    pub fn int_anyrd_2clear(&self) -> (r: bool)
        ensures
            r == self.spec_int_anyrd_2clear(),
    {
        get_bit(self.0, 4)
    }

    /// The value with `INT_ANYRD_2CLEAR`, bit 4, set to `value`.
    pub open spec fn spec_set_int_anyrd_2clear(self, value: bool) -> IntPinCfg {
        IntPinCfg(with_bit(self.0, 4, value))
    }

    /// Sets `INT_ANYRD_2CLEAR`, bit 4.
    pub fn set_int_anyrd_2clear(&mut self, value: bool)
        ensures
            *final(self) == old(self).spec_set_int_anyrd_2clear(value),
    {
        self.0 = set_bit(self.0, 4, value);
    }

    /// `ACTL_FSYNC`, bit 3.
    pub open spec fn spec_actl_fsync(self) -> bool {
        bit(self.0, 3)
    }

    /// `ACTL_FSYNC`, bit 3.
    pub fn actl_fsync(&self) -> (r: bool)
        ensures
            r == self.spec_actl_fsync(),
    {
        get_bit(self.0, 3)
    }

    /// The value with `ACTL_FSYNC`, bit 3, set to `value`.
    pub open spec fn spec_set_actl_fsync(self, value: bool) -> IntPinCfg {
        IntPinCfg(with_bit(self.0, 3, value))
    }

    /// Sets `ACTL_FSYNC`, bit 3.
    pub fn set_actl_fsync(&mut self, value: bool)
        ensures
            *final(self) == old(self).spec_set_actl_fsync(value),
    {
        self.0 = set_bit(self.0, 3, value);
    }

    /// `FSYNC_INT_MODE_EN`, bit 2.
    pub open spec fn spec_fsync_int_mode_en(self) -> bool {
        bit(self.0, 2)
    }

    /// `FSYNC_INT_MODE_EN`, bit 2.
    pub fn fsync_int_mode_en(&self) -> (r: bool)
        ensures
            r == self.spec_fsync_int_mode_en(),
    {
        get_bit(self.0, 2)
    }

    /// The value with `FSYNC_INT_MODE_EN`, bit 2, set to `value`.
    pub open spec fn spec_set_fsync_int_mode_en(self, value: bool) -> IntPinCfg {
        IntPinCfg(with_bit(self.0, 2, value))
    }

    /// Sets `FSYNC_INT_MODE_EN`, bit 2.
    pub fn set_fsync_int_mode_en(&mut self, value: bool)
        ensures
            *final(self) == old(self).spec_set_fsync_int_mode_en(value),
    {
        self.0 = set_bit(self.0, 2, value);
    }

    /// `BYPASS_EN`, bit 1.
    pub open spec fn spec_bypass_en(self) -> bool {
        bit(self.0, 1)
    }

    /// `BYPASS_EN`, bit 1.
    pub fn bypass_en(&self) -> (r: bool)
        ensures
            r == self.spec_bypass_en(),
    {
        get_bit(self.0, 1)
    }

    /// The value with `BYPASS_EN`, bit 1, set to `value`.
    pub open spec fn spec_set_bypass_en(self, value: bool) -> IntPinCfg {
        IntPinCfg(with_bit(self.0, 1, value))
    }

    /// Sets `BYPASS_EN`, bit 1.
    pub fn set_bypass_en(&mut self, value: bool)
        ensures
            *final(self) == old(self).spec_set_bypass_en(value),
    {
        self.0 = set_bit(self.0, 1, value);
    }
}

impl Register for IntPinCfg {
    open spec fn address_spec() -> u8 {
        REG_INT_PIN_CFG
    }

    fn address() -> (r: u8) {
        REG_INT_PIN_CFG
    }

    open spec fn bits(self) -> u8 {
        self.0
    }

    open spec fn from_bits(val: u8) -> Self {
        IntPinCfg(val)
    }

    proof fn lemma_bits_round_trip(r: Self, val: u8) {
    }

    fn from_u8(val: u8) -> (r: Self) {
        IntPinCfg(val)
    }

    fn to_u8(self) -> (r: u8) {
        self.0
    }
}

/// Bit layout of the register at `REG_INT_PIN_CFG`, as plain arithmetic on its byte:
/// each field reads as the byte divided by the weight of its lowest bit,
/// modulo its range, and writing it replaces exactly that part of the byte.
pub proof fn lemma_int_pin_cfg_layout(r: IntPinCfg, b: bool)
    ensures
        r.spec_actl() <==> (r.0 / 128) % 2 == 1,
        r.spec_set_actl(b).0 == r.0 - ((r.0 / 128) % 2) * 128 + (if b {
            128int
        } else {
            0int
        }),
        r.spec_open() <==> (r.0 / 64) % 2 == 1,
        r.spec_set_open(b).0 == r.0 - ((r.0 / 64) % 2) * 64 + (if b {
            64int
        } else {
            0int
        }),
        r.spec_latch_int_en() <==> (r.0 / 32) % 2 == 1,
        r.spec_set_latch_int_en(b).0 == r.0 - ((r.0 / 32) % 2) * 32 + (if b {
            32int
        } else {
            0int
        }),
        r.spec_int_anyrd_2clear() <==> (r.0 / 16) % 2 == 1,
        r.spec_set_int_anyrd_2clear(b).0 == r.0 - ((r.0 / 16) % 2) * 16 + (if b {
            16int
        } else {
            0int
        }),
        r.spec_actl_fsync() <==> (r.0 / 8) % 2 == 1,
        r.spec_set_actl_fsync(b).0 == r.0 - ((r.0 / 8) % 2) * 8 + (if b {
            8int
        } else {
            0int
        }),
        r.spec_fsync_int_mode_en() <==> (r.0 / 4) % 2 == 1,
        r.spec_set_fsync_int_mode_en(b).0 == r.0 - ((r.0 / 4) % 2) * 4 + (if b {
            4int
        } else {
            0int
        }),
        r.spec_bypass_en() <==> (r.0 / 2) % 2 == 1,
        r.spec_set_bypass_en(b).0 == r.0 - ((r.0 / 2) % 2) * 2 + (if b {
            2int
        } else {
            0int
        }),
{
    lemma2_to64();
    lemma_bit_arithmetic(r.0, 7, b);
    lemma_bit_arithmetic(r.0, 6, b);
    lemma_bit_arithmetic(r.0, 5, b);
    lemma_bit_arithmetic(r.0, 4, b);
    lemma_bit_arithmetic(r.0, 3, b);
    lemma_bit_arithmetic(r.0, 2, b);
    lemma_bit_arithmetic(r.0, 1, b);
}

/// Bit fields of the register at `REG_INT_ENABLE`.
#[derive(Copy, Clone, PartialEq, Eq, Default, Debug)]
pub struct IntEnable(pub u8);

impl IntEnable {
    /// `WOM_EN`, bit 6.
    pub open spec fn spec_wom_en(self) -> bool {
        bit(self.0, 6)
    }

    /// `WOM_EN`, bit 6.
    pub fn wom_en(&self) -> (r: bool)
        ensures
            r == self.spec_wom_en(),
    {
        get_bit(self.0, 6)
    }

    /// The value with `WOM_EN`, bit 6, set to `value`.
    pub open spec fn spec_set_wom_en(self, value: bool) -> IntEnable {
        IntEnable(with_bit(self.0, 6, value))
    }

    /// Sets `WOM_EN`, bit 6.
    pub fn set_wom_en(&mut self, value: bool)
        ensures
            *final(self) == old(self).spec_set_wom_en(value),
    {
        self.0 = set_bit(self.0, 6, value);
    }

    /// `FIFO_OFLOW_EN`, bit 4.
    pub open spec fn spec_fifo_oflow_en(self) -> bool {
        bit(self.0, 4)
    }

    /// `FIFO_OFLOW_EN`, bit 4.
    pub fn fifo_oflow_en(&self) -> (r: bool)
        ensures
            r == self.spec_fifo_oflow_en(),
    {
        get_bit(self.0, 4)
    }

    /// The value with `FIFO_OFLOW_EN`, bit 4, set to `value`.
    pub open spec fn spec_set_fifo_oflow_en(self, value: bool) -> IntEnable {
        IntEnable(with_bit(self.0, 4, value))
    }

    /// Sets `FIFO_OFLOW_EN`, bit 4.
    pub fn set_fifo_oflow_en(&mut self, value: bool)
        ensures
            *final(self) == old(self).spec_set_fifo_oflow_en(value),
    {
        self.0 = set_bit(self.0, 4, value);
    }

    /// `FSYNC_INT_EN`, bit 3.
    pub open spec fn spec_fsync_int_en(self) -> bool {
        bit(self.0, 3)
    }

    /// `FSYNC_INT_EN`, bit 3.
    pub fn fsync_int_en(&self) -> (r: bool)
        ensures
            r == self.spec_fsync_int_en(),
    {
        get_bit(self.0, 3)
    }

    /// The value with `FSYNC_INT_EN`, bit 3, set to `value`.
    pub open spec fn spec_set_fsync_int_en(self, value: bool) -> IntEnable {
        IntEnable(with_bit(self.0, 3, value))
    }

    /// Sets `FSYNC_INT_EN`, bit 3.
    pub fn set_fsync_int_en(&mut self, value: bool)
        ensures
            *final(self) == old(self).spec_set_fsync_int_en(value),
    {
        self.0 = set_bit(self.0, 3, value);
    }

    /// `RAW_RDY_EN`, bit 0.
    pub open spec fn spec_raw_rdy_en(self) -> bool {
        bit(self.0, 0)
    }

    /// `RAW_RDY_EN`, bit 0.
    pub fn raw_rdy_en(&self) -> (r: bool)
        ensures
            r == self.spec_raw_rdy_en(),
    {
        get_bit(self.0, 0)
    }

    /// The value with `RAW_RDY_EN`, bit 0, set to `value`.
    pub open spec fn spec_set_raw_rdy_en(self, value: bool) -> IntEnable {
        IntEnable(with_bit(self.0, 0, value))
    }

    /// Sets `RAW_RDY_EN`, bit 0.
    pub fn set_raw_rdy_en(&mut self, value: bool)
        ensures
            *final(self) == old(self).spec_set_raw_rdy_en(value),
    {
        self.0 = set_bit(self.0, 0, value);
    }
}

impl Register for IntEnable {
    open spec fn address_spec() -> u8 {
        REG_INT_ENABLE
    }

    fn address() -> (r: u8) {
        REG_INT_ENABLE
    }

    open spec fn bits(self) -> u8 {
        self.0
    }

    open spec fn from_bits(val: u8) -> Self {
        IntEnable(val)
    }

    proof fn lemma_bits_round_trip(r: Self, val: u8) {
    }

    fn from_u8(val: u8) -> (r: Self) {
        IntEnable(val)
    }

    fn to_u8(self) -> (r: u8) {
        self.0
    }
}

/// Bit layout of the register at `REG_INT_ENABLE`, as plain arithmetic on its byte:
/// each field reads as the byte divided by the weight of its lowest bit,
/// modulo its range, and writing it replaces exactly that part of the byte.
pub proof fn lemma_int_enable_layout(r: IntEnable, b: bool)
    ensures
        r.spec_wom_en() <==> (r.0 / 64) % 2 == 1,
        r.spec_set_wom_en(b).0 == r.0 - ((r.0 / 64) % 2) * 64 + (if b {
            64int
        } else {
            0int
        }),
        r.spec_fifo_oflow_en() <==> (r.0 / 16) % 2 == 1,
        r.spec_set_fifo_oflow_en(b).0 == r.0 - ((r.0 / 16) % 2) * 16 + (if b {
            16int
        } else {
            0int
        }),
        r.spec_fsync_int_en() <==> (r.0 / 8) % 2 == 1,
        r.spec_set_fsync_int_en(b).0 == r.0 - ((r.0 / 8) % 2) * 8 + (if b {
            8int
        } else {
            0int
        }),
        r.spec_raw_rdy_en() <==> (r.0 / 1) % 2 == 1,
        r.spec_set_raw_rdy_en(b).0 == r.0 - ((r.0 / 1) % 2) * 1 + (if b {
            1int
        } else {
            0int
        }),
{
    lemma2_to64();
    lemma_bit_arithmetic(r.0, 6, b);
    lemma_bit_arithmetic(r.0, 4, b);
    lemma_bit_arithmetic(r.0, 3, b);
    lemma_bit_arithmetic(r.0, 0, b);
}

/// Bit fields of the register at `REG_INT_STATUS`.
#[derive(Copy, Clone, PartialEq, Eq, Default, Debug)]
pub struct IntStatus(pub u8);

impl IntStatus {
    /// `WOM_INT`, bit 6.
    pub open spec fn spec_wom_int(self) -> bool {
        bit(self.0, 6)
    }

    /// `WOM_INT`, bit 6.
    pub fn wom_int(&self) -> (r: bool)
        ensures
            r == self.spec_wom_int(),
    {
        get_bit(self.0, 6)
    }

    /// `FIFO_OFLOW_INT`, bit 4.
    pub open spec fn spec_fifo_oflow_int(self) -> bool {
        bit(self.0, 4)
    }

    /// `FIFO_OFLOW_INT`, bit 4.
    pub fn fifo_oflow_int(&self) -> (r: bool)
        ensures
            r == self.spec_fifo_oflow_int(),
    {
        get_bit(self.0, 4)
    }

    /// `FSYNC_INT`, bit 3.
    pub open spec fn spec_fsync_int(self) -> bool {
        bit(self.0, 3)
    }

    /// `FSYNC_INT`, bit 3.
    pub fn fsync_int(&self) -> (r: bool)
        ensures
            r == self.spec_fsync_int(),
    {
        get_bit(self.0, 3)
    }

    /// `RAW_DATA_RDY_INT`, bit 0.
    pub open spec fn spec_raw_data_rdy_int(self) -> bool {
        bit(self.0, 0)
    }

    /// `RAW_DATA_RDY_INT`, bit 0.
    pub fn raw_data_rdy_int(&self) -> (r: bool)
        ensures
            r == self.spec_raw_data_rdy_int(),
    {
        get_bit(self.0, 0)
    }
}

impl Register for IntStatus {
    open spec fn address_spec() -> u8 {
        REG_INT_STATUS
    }

    fn address() -> (r: u8) {
        REG_INT_STATUS
    }

    open spec fn bits(self) -> u8 {
        self.0
    }

    open spec fn from_bits(val: u8) -> Self {
        IntStatus(val)
    }

    proof fn lemma_bits_round_trip(r: Self, val: u8) {
    }

    fn from_u8(val: u8) -> (r: Self) {
        IntStatus(val)
    }

    fn to_u8(self) -> (r: u8) {
        self.0
    }
}

/// Bit layout of the register at `REG_INT_STATUS`, as plain arithmetic on its byte:
/// each field reads as the byte divided by the weight of its lowest bit,
/// modulo its range, and writing it replaces exactly that part of the byte.
pub proof fn lemma_int_status_layout(r: IntStatus, b: bool)
    ensures
        r.spec_wom_int() <==> (r.0 / 64) % 2 == 1,
        r.spec_fifo_oflow_int() <==> (r.0 / 16) % 2 == 1,
        r.spec_fsync_int() <==> (r.0 / 8) % 2 == 1,
        r.spec_raw_data_rdy_int() <==> (r.0 / 1) % 2 == 1,
{
    lemma2_to64();
    lemma_bit_arithmetic(r.0, 6, b);
    lemma_bit_arithmetic(r.0, 4, b);
    lemma_bit_arithmetic(r.0, 3, b);
    lemma_bit_arithmetic(r.0, 0, b);
}

/// Bit fields of the register at `REG_I2C_MST_DELAY_CTRL`.
#[derive(Copy, Clone, PartialEq, Eq, Default, Debug)]
pub struct I2CMstDelayCtrl(pub u8);

impl I2CMstDelayCtrl {
    /// `DELAY_ES_SHADOW`, bit 7.
    pub open spec fn spec_delay_es_shadow(self) -> bool {
        bit(self.0, 7)
    }

    /// `DELAY_ES_SHADOW`, bit 7.
    pub fn delay_es_shadow(&self) -> (r: bool)
        ensures
            r == self.spec_delay_es_shadow(),
    {
        get_bit(self.0, 7)
    }

    /// The value with `DELAY_ES_SHADOW`, bit 7, set to `value`.
    pub open spec fn spec_set_delay_es_shadow(self, value: bool) -> I2CMstDelayCtrl {
        I2CMstDelayCtrl(with_bit(self.0, 7, value))
    }

    /// Sets `DELAY_ES_SHADOW`, bit 7.
    pub fn set_delay_es_shadow(&mut self, value: bool)
        ensures
            *final(self) == old(self).spec_set_delay_es_shadow(value),
    {
        self.0 = set_bit(self.0, 7, value);
    }

    /// `I2C_SLV4_DLY_EN`, bit 4.
    pub open spec fn spec_i2c_slv4_dly_en(self) -> bool {
        bit(self.0, 4)
    }

    /// `I2C_SLV4_DLY_EN`, bit 4.
    pub fn i2c_slv4_dly_en(&self) -> (r: bool)
        ensures
            r == self.spec_i2c_slv4_dly_en(),
    {
        get_bit(self.0, 4)
    }

    /// The value with `I2C_SLV4_DLY_EN`, bit 4, set to `value`.
    pub open spec fn spec_set_i2c_slv4_dly_en(self, value: bool) -> I2CMstDelayCtrl {
        I2CMstDelayCtrl(with_bit(self.0, 4, value))
    }

    /// Sets `I2C_SLV4_DLY_EN`, bit 4.
    pub fn set_i2c_slv4_dly_en(&mut self, value: bool)
        ensures
            *final(self) == old(self).spec_set_i2c_slv4_dly_en(value),
    {
        self.0 = set_bit(self.0, 4, value);
    }

    /// `I2C_SLV3_DLY_EN`, bit 3.
    pub open spec fn spec_i2c_slv3_dly_en(self) -> bool {
        bit(self.0, 3)
    }

    /// `I2C_SLV3_DLY_EN`, bit 3.
    pub fn i2c_slv3_dly_en(&self) -> (r: bool)
        ensures
            r == self.spec_i2c_slv3_dly_en(),
    {
        get_bit(self.0, 3)
    }

    /// The value with `I2C_SLV3_DLY_EN`, bit 3, set to `value`.
    pub open spec fn spec_set_i2c_slv3_dly_en(self, value: bool) -> I2CMstDelayCtrl {
        I2CMstDelayCtrl(with_bit(self.0, 3, value))
    }

    /// Sets `I2C_SLV3_DLY_EN`, bit 3.
    pub fn set_i2c_slv3_dly_en(&mut self, value: bool)
        ensures
            *final(self) == old(self).spec_set_i2c_slv3_dly_en(value),
    {
        self.0 = set_bit(self.0, 3, value);
    }

    /// `I2C_SLV2_DLY_EN`, bit 2.
    pub open spec fn spec_i2c_slv2_dly_en(self) -> bool {
        bit(self.0, 2)
    }

    /// `I2C_SLV2_DLY_EN`, bit 2.
    pub fn i2c_slv2_dly_en(&self) -> (r: bool)
        ensures
            r == self.spec_i2c_slv2_dly_en(),
    {
        get_bit(self.0, 2)
    }

    /// The value with `I2C_SLV2_DLY_EN`, bit 2, set to `value`.
    pub open spec fn spec_set_i2c_slv2_dly_en(self, value: bool) -> I2CMstDelayCtrl {
        I2CMstDelayCtrl(with_bit(self.0, 2, value))
    }

    /// Sets `I2C_SLV2_DLY_EN`, bit 2.
    pub fn set_i2c_slv2_dly_en(&mut self, value: bool)
        ensures
            *final(self) == old(self).spec_set_i2c_slv2_dly_en(value),
    {
        self.0 = set_bit(self.0, 2, value);
    }

    /// `I2C_SLV1_DLY_EN`, bit 1.
    pub open spec fn spec_i2c_slv1_dly_en(self) -> bool {
        bit(self.0, 1)
    }

    /// `I2C_SLV1_DLY_EN`, bit 1.
    pub fn i2c_slv1_dly_en(&self) -> (r: bool)
        ensures
            r == self.spec_i2c_slv1_dly_en(),
    {
        get_bit(self.0, 1)
    }

    /// The value with `I2C_SLV1_DLY_EN`, bit 1, set to `value`.
    pub open spec fn spec_set_i2c_slv1_dly_en(self, value: bool) -> I2CMstDelayCtrl {
        I2CMstDelayCtrl(with_bit(self.0, 1, value))
    }

    /// Sets `I2C_SLV1_DLY_EN`, bit 1.
    pub fn set_i2c_slv1_dly_en(&mut self, value: bool)
        ensures
            *final(self) == old(self).spec_set_i2c_slv1_dly_en(value),
    {
        self.0 = set_bit(self.0, 1, value);
    }

    /// `I2C_SLV0_DLY_EN`, bit 0.
    pub open spec fn spec_i2c_slv0_dly_en(self) -> bool {
        bit(self.0, 0)
    }

    /// `I2C_SLV0_DLY_EN`, bit 0.
    pub fn i2c_slv0_dly_en(&self) -> (r: bool)
        ensures
            r == self.spec_i2c_slv0_dly_en(),
    {
        get_bit(self.0, 0)
    }

    /// The value with `I2C_SLV0_DLY_EN`, bit 0, set to `value`.
    pub open spec fn spec_set_i2c_slv0_dly_en(self, value: bool) -> I2CMstDelayCtrl {
        I2CMstDelayCtrl(with_bit(self.0, 0, value))
    }

    /// Sets `I2C_SLV0_DLY_EN`, bit 0.
    pub fn set_i2c_slv0_dly_en(&mut self, value: bool)
        ensures
            *final(self) == old(self).spec_set_i2c_slv0_dly_en(value),
    {
        self.0 = set_bit(self.0, 0, value);
    }
}

impl Register for I2CMstDelayCtrl {
    open spec fn address_spec() -> u8 {
        REG_I2C_MST_DELAY_CTRL
    }

    fn address() -> (r: u8) {
        REG_I2C_MST_DELAY_CTRL
    }

    open spec fn bits(self) -> u8 {
        self.0
    }

    open spec fn from_bits(val: u8) -> Self {
        I2CMstDelayCtrl(val)
    }

    proof fn lemma_bits_round_trip(r: Self, val: u8) {
    }

    fn from_u8(val: u8) -> (r: Self) {
        I2CMstDelayCtrl(val)
    }

    fn to_u8(self) -> (r: u8) {
        self.0
    }
}

/// Bit layout of the register at `REG_I2C_MST_DELAY_CTRL`, as plain arithmetic on its byte:
/// each field reads as the byte divided by the weight of its lowest bit,
/// modulo its range, and writing it replaces exactly that part of the byte.
pub proof fn lemma_i2c_mst_delay_ctrl_layout(r: I2CMstDelayCtrl, b: bool)
    ensures
        r.spec_delay_es_shadow() <==> (r.0 / 128) % 2 == 1,
        r.spec_set_delay_es_shadow(b).0 == r.0 - ((r.0 / 128) % 2) * 128 + (if b {
            128int
        } else {
            0int
        }),
        r.spec_i2c_slv4_dly_en() <==> (r.0 / 16) % 2 == 1,
        r.spec_set_i2c_slv4_dly_en(b).0 == r.0 - ((r.0 / 16) % 2) * 16 + (if b {
            16int
        } else {
            0int
        }),
        r.spec_i2c_slv3_dly_en() <==> (r.0 / 8) % 2 == 1,
        r.spec_set_i2c_slv3_dly_en(b).0 == r.0 - ((r.0 / 8) % 2) * 8 + (if b {
            8int
        } else {
            0int
        }),
        r.spec_i2c_slv2_dly_en() <==> (r.0 / 4) % 2 == 1,
        r.spec_set_i2c_slv2_dly_en(b).0 == r.0 - ((r.0 / 4) % 2) * 4 + (if b {
            4int
        } else {
            0int
        }),
        r.spec_i2c_slv1_dly_en() <==> (r.0 / 2) % 2 == 1,
        r.spec_set_i2c_slv1_dly_en(b).0 == r.0 - ((r.0 / 2) % 2) * 2 + (if b {
            2int
        } else {
            0int
        }),
        r.spec_i2c_slv0_dly_en() <==> (r.0 / 1) % 2 == 1,
        r.spec_set_i2c_slv0_dly_en(b).0 == r.0 - ((r.0 / 1) % 2) * 1 + (if b {
            1int
        } else {
            0int
        }),
{
    lemma2_to64();
    lemma_bit_arithmetic(r.0, 7, b);
    lemma_bit_arithmetic(r.0, 4, b);
    lemma_bit_arithmetic(r.0, 3, b);
    lemma_bit_arithmetic(r.0, 2, b);
    lemma_bit_arithmetic(r.0, 1, b);
    lemma_bit_arithmetic(r.0, 0, b);
}

/// Bit fields of the register at `REG_SIGNAL_PATH_RESET`.
#[derive(Copy, Clone, PartialEq, Eq, Default, Debug)]
pub struct SignalPathReset(pub u8);

impl SignalPathReset {
    /// `GYRO_RST`, bit 2.
    pub open spec fn spec_gyro_rst(self) -> bool {
        bit(self.0, 2)
    }

    /// `GYRO_RST`, bit 2.
    pub fn gyro_rst(&self) -> (r: bool)
        ensures
            r == self.spec_gyro_rst(),
    {
        get_bit(self.0, 2)
    }

    /// The value with `GYRO_RST`, bit 2, set to `value`.
    pub open spec fn spec_set_gyro_rst(self, value: bool) -> SignalPathReset {
        SignalPathReset(with_bit(self.0, 2, value))
    }

    /// Sets `GYRO_RST`, bit 2.
    pub fn set_gyro_rst(&mut self, value: bool)
        ensures
            *final(self) == old(self).spec_set_gyro_rst(value),
    {
        self.0 = set_bit(self.0, 2, value);
    }

    /// `ACCEL_RST`, bit 1.
    pub open spec fn spec_accel_rst(self) -> bool {
        bit(self.0, 1)
    }

    /// `ACCEL_RST`, bit 1.
    pub fn accel_rst(&self) -> (r: bool)
        ensures
            r == self.spec_accel_rst(),
    {
        get_bit(self.0, 1)
    }

    /// The value with `ACCEL_RST`, bit 1, set to `value`.
    pub open spec fn spec_set_accel_rst(self, value: bool) -> SignalPathReset {
        SignalPathReset(with_bit(self.0, 1, value))
    }

    /// Sets `ACCEL_RST`, bit 1.
    pub fn set_accel_rst(&mut self, value: bool)
        ensures
            *final(self) == old(self).spec_set_accel_rst(value),
    {
        self.0 = set_bit(self.0, 1, value);
    }

    /// `TEMP_RST`, bit 0.
    pub open spec fn spec_temp_rst(self) -> bool {
        bit(self.0, 0)
    }

    /// `TEMP_RST`, bit 0.
    pub fn temp_rst(&self) -> (r: bool)
        ensures
            r == self.spec_temp_rst(),
    {
        get_bit(self.0, 0)
    }

    /// The value with `TEMP_RST`, bit 0, set to `value`.
    pub open spec fn spec_set_temp_rst(self, value: bool) -> SignalPathReset {
        SignalPathReset(with_bit(self.0, 0, value))
    }

    /// Sets `TEMP_RST`, bit 0.
    pub fn set_temp_rst(&mut self, value: bool)
        ensures
            *final(self) == old(self).spec_set_temp_rst(value),
    {
        self.0 = set_bit(self.0, 0, value);
    }
}

impl Register for SignalPathReset {
    open spec fn address_spec() -> u8 {
        REG_SIGNAL_PATH_RESET
    }

    fn address() -> (r: u8) {
        REG_SIGNAL_PATH_RESET
    }

    open spec fn bits(self) -> u8 {
        self.0
    }

    open spec fn from_bits(val: u8) -> Self {
        SignalPathReset(val)
    }

    proof fn lemma_bits_round_trip(r: Self, val: u8) {
    }

    fn from_u8(val: u8) -> (r: Self) {
        SignalPathReset(val)
    }

    fn to_u8(self) -> (r: u8) {
        self.0
    }
}

/// Bit layout of the register at `REG_SIGNAL_PATH_RESET`, as plain arithmetic on its byte:
/// each field reads as the byte divided by the weight of its lowest bit,
/// modulo its range, and writing it replaces exactly that part of the byte.
pub proof fn lemma_signal_path_reset_layout(r: SignalPathReset, b: bool)
    ensures
        r.spec_gyro_rst() <==> (r.0 / 4) % 2 == 1,
        r.spec_set_gyro_rst(b).0 == r.0 - ((r.0 / 4) % 2) * 4 + (if b {
            4int
        } else {
            0int
        }),
        r.spec_accel_rst() <==> (r.0 / 2) % 2 == 1,
        r.spec_set_accel_rst(b).0 == r.0 - ((r.0 / 2) % 2) * 2 + (if b {
            2int
        } else {
            0int
        }),
        r.spec_temp_rst() <==> (r.0 / 1) % 2 == 1,
        r.spec_set_temp_rst(b).0 == r.0 - ((r.0 / 1) % 2) * 1 + (if b {
            1int
        } else {
            0int
        }),
{
    lemma2_to64();
    lemma_bit_arithmetic(r.0, 2, b);
    lemma_bit_arithmetic(r.0, 1, b);
    lemma_bit_arithmetic(r.0, 0, b);
}

/// Bit fields of the register at `REG_MOT_DETECT_CTRL`.
#[derive(Copy, Clone, PartialEq, Eq, Default, Debug)]
pub struct MotDetectCtrl(pub u8);

impl MotDetectCtrl {
    /// `ACCEL_INTEL_EN`, bit 7.
    pub open spec fn spec_accel_intel_en(self) -> bool {
        bit(self.0, 7)
    }

    /// `ACCEL_INTEL_EN`, bit 7.
    pub fn accel_intel_en(&self) -> (r: bool)
        ensures
            r == self.spec_accel_intel_en(),
    {
        get_bit(self.0, 7)
    }

    /// The value with `ACCEL_INTEL_EN`, bit 7, set to `value`.
    pub open spec fn spec_set_accel_intel_en(self, value: bool) -> MotDetectCtrl {
        MotDetectCtrl(with_bit(self.0, 7, value))
    }

    /// Sets `ACCEL_INTEL_EN`, bit 7.
    pub fn set_accel_intel_en(&mut self, value: bool)
        ensures
            *final(self) == old(self).spec_set_accel_intel_en(value),
    {
        self.0 = set_bit(self.0, 7, value);
    }

    /// `ACCEL_INTEL_MODE`, bit 6.
    pub open spec fn spec_accel_intel_mode(self) -> bool {
        bit(self.0, 6)
    }

    /// `ACCEL_INTEL_MODE`, bit 6.
    pub fn accel_intel_mode(&self) -> (r: bool)
        ensures
            r == self.spec_accel_intel_mode(),
    {
        get_bit(self.0, 6)
    }

    /// The value with `ACCEL_INTEL_MODE`, bit 6, set to `value`.
    pub open spec fn spec_set_accel_intel_mode(self, value: bool) -> MotDetectCtrl {
        MotDetectCtrl(with_bit(self.0, 6, value))
    }

    /// Sets `ACCEL_INTEL_MODE`, bit 6.
    pub fn set_accel_intel_mode(&mut self, value: bool)
        ensures
            *final(self) == old(self).spec_set_accel_intel_mode(value),
    {
        self.0 = set_bit(self.0, 6, value);
    }
}

impl Register for MotDetectCtrl {
    open spec fn address_spec() -> u8 {
        REG_MOT_DETECT_CTRL
    }

    fn address() -> (r: u8) {
        REG_MOT_DETECT_CTRL
    }

    open spec fn bits(self) -> u8 {
        self.0
    }

    open spec fn from_bits(val: u8) -> Self {
        MotDetectCtrl(val)
    }

    proof fn lemma_bits_round_trip(r: Self, val: u8) {
    }

    fn from_u8(val: u8) -> (r: Self) {
        MotDetectCtrl(val)
    }

    fn to_u8(self) -> (r: u8) {
        self.0
    }
}

/// Bit layout of the register at `REG_MOT_DETECT_CTRL`, as plain arithmetic on its byte:
/// each field reads as the byte divided by the weight of its lowest bit,
/// modulo its range, and writing it replaces exactly that part of the byte.
pub proof fn lemma_mot_detect_ctrl_layout(r: MotDetectCtrl, b: bool)
    ensures
        r.spec_accel_intel_en() <==> (r.0 / 128) % 2 == 1,
        r.spec_set_accel_intel_en(b).0 == r.0 - ((r.0 / 128) % 2) * 128 + (if b {
            128int
        } else {
            0int
        }),
        r.spec_accel_intel_mode() <==> (r.0 / 64) % 2 == 1,
        r.spec_set_accel_intel_mode(b).0 == r.0 - ((r.0 / 64) % 2) * 64 + (if b {
            64int
        } else {
            0int
        }),
{
    lemma2_to64();
    lemma_bit_arithmetic(r.0, 7, b);
    lemma_bit_arithmetic(r.0, 6, b);
}

/// Bit fields of the register at `REG_USER_CTRL`.
#[derive(Copy, Clone, PartialEq, Eq, Default, Debug)]
pub struct UserCtrl(pub u8);

impl UserCtrl {
    /// `FIFO_EN`, bit 6.
    pub open spec fn spec_fifo_en(self) -> bool {
        bit(self.0, 6)
    }

    /// `FIFO_EN`, bit 6.
    pub fn fifo_en(&self) -> (r: bool)
        ensures
            r == self.spec_fifo_en(),
    {
        get_bit(self.0, 6)
    }

    /// The value with `FIFO_EN`, bit 6, set to `value`.
    pub open spec fn spec_set_fifo_en(self, value: bool) -> UserCtrl {
        UserCtrl(with_bit(self.0, 6, value))
    }

    /// Sets `FIFO_EN`, bit 6.
    pub fn set_fifo_en(&mut self, value: bool)
        ensures
            *final(self) == old(self).spec_set_fifo_en(value),
    {
        self.0 = set_bit(self.0, 6, value);
    }

    /// `I2C_MST_EN`, bit 5.
    pub open spec fn spec_i2c_mst_en(self) -> bool {
        bit(self.0, 5)
    }

    /// `I2C_MST_EN`, bit 5.
    pub fn i2c_mst_en(&self) -> (r: bool)
        ensures
            r == self.spec_i2c_mst_en(),
    {
        get_bit(self.0, 5)
    }

    /// The value with `I2C_MST_EN`, bit 5, set to `value`.
    pub open spec fn spec_set_i2c_mst_en(self, value: bool) -> UserCtrl {
        UserCtrl(with_bit(self.0, 5, value))
    }

    /// Sets `I2C_MST_EN`, bit 5.
    pub fn set_i2c_mst_en(&mut self, value: bool)
        ensures
            *final(self) == old(self).spec_set_i2c_mst_en(value),
    {
        self.0 = set_bit(self.0, 5, value);
    }

    /// `I2C_IF_DIS`, bit 4.
    pub open spec fn spec_i2c_if_dis(self) -> bool {
        bit(self.0, 4)
    }

    /// `I2C_IF_DIS`, bit 4.
    pub fn i2c_if_dis(&self) -> (r: bool)
        ensures
            r == self.spec_i2c_if_dis(),
    {
        get_bit(self.0, 4)
    }

    /// The value with `I2C_IF_DIS`, bit 4, set to `value`.
    pub open spec fn spec_set_i2c_if_dis(self, value: bool) -> UserCtrl {
        UserCtrl(with_bit(self.0, 4, value))
    }

    /// Sets `I2C_IF_DIS`, bit 4.
    pub fn set_i2c_if_dis(&mut self, value: bool)
        ensures
            *final(self) == old(self).spec_set_i2c_if_dis(value),
    {
        self.0 = set_bit(self.0, 4, value);
    }

    /// `FIFO_RST`, bit 2.
    pub open spec fn spec_fifo_rst(self) -> bool {
        bit(self.0, 2)
    }

    /// `FIFO_RST`, bit 2.
    pub fn fifo_rst(&self) -> (r: bool)
        ensures
            r == self.spec_fifo_rst(),
    {
        get_bit(self.0, 2)
    }

    /// The value with `FIFO_RST`, bit 2, set to `value`.
    pub open spec fn spec_set_fifo_rst(self, value: bool) -> UserCtrl {
        UserCtrl(with_bit(self.0, 2, value))
    }

    /// Sets `FIFO_RST`, bit 2.
    pub fn set_fifo_rst(&mut self, value: bool)
        ensures
            *final(self) == old(self).spec_set_fifo_rst(value),
    {
        self.0 = set_bit(self.0, 2, value);
    }

    /// `I2C_MST_RST`, bit 1.
    pub open spec fn spec_i2c_mst_rst(self) -> bool {
        bit(self.0, 1)
    }

    /// `I2C_MST_RST`, bit 1.
    pub fn i2c_mst_rst(&self) -> (r: bool)
        ensures
            r == self.spec_i2c_mst_rst(),
    {
        get_bit(self.0, 1)
    }

    /// The value with `I2C_MST_RST`, bit 1, set to `value`.
    pub open spec fn spec_set_i2c_mst_rst(self, value: bool) -> UserCtrl {
        UserCtrl(with_bit(self.0, 1, value))
    }

    /// Sets `I2C_MST_RST`, bit 1.
    pub fn set_i2c_mst_rst(&mut self, value: bool)
        ensures
            *final(self) == old(self).spec_set_i2c_mst_rst(value),
    {
        self.0 = set_bit(self.0, 1, value);
    }

    /// `SIG_COND_RST`, bit 0.
    pub open spec fn spec_sig_cond_rst(self) -> bool {
        bit(self.0, 0)
    }

    /// `SIG_COND_RST`, bit 0.
    pub fn sig_cond_rst(&self) -> (r: bool)
        ensures
            r == self.spec_sig_cond_rst(),
    {
        get_bit(self.0, 0)
    }

    /// The value with `SIG_COND_RST`, bit 0, set to `value`.
    pub open spec fn spec_set_sig_cond_rst(self, value: bool) -> UserCtrl {
        UserCtrl(with_bit(self.0, 0, value))
    }

    /// Sets `SIG_COND_RST`, bit 0.
    pub fn set_sig_cond_rst(&mut self, value: bool)
        ensures
            *final(self) == old(self).spec_set_sig_cond_rst(value),
    {
        self.0 = set_bit(self.0, 0, value);
    }
}

impl Register for UserCtrl {
    open spec fn address_spec() -> u8 {
        REG_USER_CTRL
    }

    fn address() -> (r: u8) {
        REG_USER_CTRL
    }

    open spec fn bits(self) -> u8 {
        self.0
    }

    open spec fn from_bits(val: u8) -> Self {
        UserCtrl(val)
    }

    proof fn lemma_bits_round_trip(r: Self, val: u8) {
    }

    fn from_u8(val: u8) -> (r: Self) {
        UserCtrl(val)
    }

    fn to_u8(self) -> (r: u8) {
        self.0
    }
}

/// Bit layout of the register at `REG_USER_CTRL`, as plain arithmetic on its byte:
/// each field reads as the byte divided by the weight of its lowest bit,
/// modulo its range, and writing it replaces exactly that part of the byte.
pub proof fn lemma_user_ctrl_layout(r: UserCtrl, b: bool)
    ensures
        r.spec_fifo_en() <==> (r.0 / 64) % 2 == 1,
        r.spec_set_fifo_en(b).0 == r.0 - ((r.0 / 64) % 2) * 64 + (if b {
            64int
        } else {
            0int
        }),
        r.spec_i2c_mst_en() <==> (r.0 / 32) % 2 == 1,
        r.spec_set_i2c_mst_en(b).0 == r.0 - ((r.0 / 32) % 2) * 32 + (if b {
            32int
        } else {
            0int
        }),
        r.spec_i2c_if_dis() <==> (r.0 / 16) % 2 == 1,
        r.spec_set_i2c_if_dis(b).0 == r.0 - ((r.0 / 16) % 2) * 16 + (if b {
            16int
        } else {
            0int
        }),
        r.spec_fifo_rst() <==> (r.0 / 4) % 2 == 1,
        r.spec_set_fifo_rst(b).0 == r.0 - ((r.0 / 4) % 2) * 4 + (if b {
            4int
        } else {
            0int
        }),
        r.spec_i2c_mst_rst() <==> (r.0 / 2) % 2 == 1,
        r.spec_set_i2c_mst_rst(b).0 == r.0 - ((r.0 / 2) % 2) * 2 + (if b {
            2int
        } else {
            0int
        }),
        r.spec_sig_cond_rst() <==> (r.0 / 1) % 2 == 1,
        r.spec_set_sig_cond_rst(b).0 == r.0 - ((r.0 / 1) % 2) * 1 + (if b {
            1int
        } else {
            0int
        }),
{
    lemma2_to64();
    lemma_bit_arithmetic(r.0, 6, b);
    lemma_bit_arithmetic(r.0, 5, b);
    lemma_bit_arithmetic(r.0, 4, b);
    lemma_bit_arithmetic(r.0, 2, b);
    lemma_bit_arithmetic(r.0, 1, b);
    lemma_bit_arithmetic(r.0, 0, b);
}

/// Bit fields of the register at `REG_PWR_MGMT_1`.
#[derive(Copy, Clone, PartialEq, Eq, Default, Debug)]
pub struct PwrMGMT1(pub u8);

impl PwrMGMT1 {
    /// `H_RESET`, bit 7.
    pub open spec fn spec_h_reset(self) -> bool {
        bit(self.0, 7)
    }

    /// `H_RESET`, bit 7.
    pub fn h_reset(&self) -> (r: bool)
        ensures
            r == self.spec_h_reset(),
    {
        get_bit(self.0, 7)
    }

    /// The value with `H_RESET`, bit 7, set to `value`.
    pub open spec fn spec_set_h_reset(self, value: bool) -> PwrMGMT1 {
        PwrMGMT1(with_bit(self.0, 7, value))
    }

    /// Sets `H_RESET`, bit 7.
    pub fn set_h_reset(&mut self, value: bool)
        ensures
            *final(self) == old(self).spec_set_h_reset(value),
    {
        self.0 = set_bit(self.0, 7, value);
    }

    /// `SLEEP`, bit 6.
    pub open spec fn spec_sleep(self) -> bool {
        bit(self.0, 6)
    }

    /// `SLEEP`, bit 6.
    pub fn sleep(&self) -> (r: bool)
        ensures
            r == self.spec_sleep(),
    {
        get_bit(self.0, 6)
    }

    /// The value with `SLEEP`, bit 6, set to `value`.
    pub open spec fn spec_set_sleep(self, value: bool) -> PwrMGMT1 {
        PwrMGMT1(with_bit(self.0, 6, value))
    }

    /// Sets `SLEEP`, bit 6.
    pub fn set_sleep(&mut self, value: bool)
        ensures
            *final(self) == old(self).spec_set_sleep(value),
    {
        self.0 = set_bit(self.0, 6, value);
    }

    /// `CYCLE`, bit 5.
    pub open spec fn spec_cycle(self) -> bool {
        bit(self.0, 5)
    }

    /// `CYCLE`, bit 5.
    pub fn cycle(&self) -> (r: bool)
        ensures
            r == self.spec_cycle(),
    {
        get_bit(self.0, 5)
    }

    /// The value with `CYCLE`, bit 5, set to `value`.
    pub open spec fn spec_set_cycle(self, value: bool) -> PwrMGMT1 {
        PwrMGMT1(with_bit(self.0, 5, value))
    }

    /// Sets `CYCLE`, bit 5.
    pub fn set_cycle(&mut self, value: bool)
        ensures
            *final(self) == old(self).spec_set_cycle(value),
    {
        self.0 = set_bit(self.0, 5, value);
    }

    /// `GYRO_STANDBY`, bit 4.
    pub open spec fn spec_gyro_standby(self) -> bool {
        bit(self.0, 4)
    }

    /// `GYRO_STANDBY`, bit 4.
    pub fn gyro_standby(&self) -> (r: bool)
        ensures
            r == self.spec_gyro_standby(),
    {
        get_bit(self.0, 4)
    }

    /// The value with `GYRO_STANDBY`, bit 4, set to `value`.
    pub open spec fn spec_set_gyro_standby(self, value: bool) -> PwrMGMT1 {
        PwrMGMT1(with_bit(self.0, 4, value))
    }

    /// Sets `GYRO_STANDBY`, bit 4.
    pub fn set_gyro_standby(&mut self, value: bool)
        ensures
            *final(self) == old(self).spec_set_gyro_standby(value),
    {
        self.0 = set_bit(self.0, 4, value);
    }

    /// `PD_PTAT`, bit 3.
    pub open spec fn spec_pd_ptat(self) -> bool {
        bit(self.0, 3)
    }

    /// `PD_PTAT`, bit 3.
    pub fn pd_ptat(&self) -> (r: bool)
        ensures
            r == self.spec_pd_ptat(),
    {
        get_bit(self.0, 3)
    }

    /// The value with `PD_PTAT`, bit 3, set to `value`.
    pub open spec fn spec_set_pd_ptat(self, value: bool) -> PwrMGMT1 {
        PwrMGMT1(with_bit(self.0, 3, value))
    }

    /// Sets `PD_PTAT`, bit 3.
    pub fn set_pd_ptat(&mut self, value: bool)
        ensures
            *final(self) == old(self).spec_set_pd_ptat(value),
    {
        self.0 = set_bit(self.0, 3, value);
    }

    /// Code of `CLKSEL`, bits 2..=0.
    pub open spec fn spec_clksel_code(self) -> u8 {
        field(self.0, 2, 0)
    }

    /// `CLKSEL`, bits 2..=0, as a clock source.
    pub fn clksel(&self) -> (r: ClkSel)
        ensures
            r.bits() == self.spec_clksel_code(),
    {
        let raw: u8 = self.0;
        let v: u8 = get_field(raw, 2, 0);
        assert(v < 8) by (bit_vector)
            requires
                v == field(raw, 2, 0),
        ;
        ClkSel::from_u8(v)
    }

    /// The value with `CLKSEL`, bits 2..=0, set to the code of `value`.
    pub open spec fn spec_set_clksel(self, value: ClkSel) -> PwrMGMT1 {
        PwrMGMT1(with_field(self.0, 2, 0, value.bits()))
    }

    /// Sets `CLKSEL`, bits 2..=0, to a clock source.
    pub fn set_clksel(&mut self, value: ClkSel)
        ensures
            *final(self) == old(self).spec_set_clksel(value),
    {
        self.0 = set_field(self.0, 2, 0, value.bits());
    }
}

impl Register for PwrMGMT1 {
    open spec fn address_spec() -> u8 {
        REG_PWR_MGMT_1
    }

    fn address() -> (r: u8) {
        REG_PWR_MGMT_1
    }

    open spec fn bits(self) -> u8 {
        self.0
    }

    open spec fn from_bits(val: u8) -> Self {
        PwrMGMT1(val)
    }

    proof fn lemma_bits_round_trip(r: Self, val: u8) {
    }

    fn from_u8(val: u8) -> (r: Self) {
        PwrMGMT1(val)
    }

    fn to_u8(self) -> (r: u8) {
        self.0
    }
}

/// Bit layout of the register at `REG_PWR_MGMT_1`, as plain arithmetic on its byte:
/// each field reads as the byte divided by the weight of its lowest bit,
/// modulo its range, and writing it replaces exactly that part of the byte.
pub proof fn lemma_pwr_mgmt1_layout(r: PwrMGMT1, b: bool, c: ClkSel)
    ensures
        r.spec_h_reset() <==> (r.0 / 128) % 2 == 1,
        r.spec_set_h_reset(b).0 == r.0 - ((r.0 / 128) % 2) * 128 + (if b {
            128int
        } else {
            0int
        }),
        r.spec_sleep() <==> (r.0 / 64) % 2 == 1,
        r.spec_set_sleep(b).0 == r.0 - ((r.0 / 64) % 2) * 64 + (if b {
            64int
        } else {
            0int
        }),
        r.spec_cycle() <==> (r.0 / 32) % 2 == 1,
        r.spec_set_cycle(b).0 == r.0 - ((r.0 / 32) % 2) * 32 + (if b {
            32int
        } else {
            0int
        }),
        r.spec_gyro_standby() <==> (r.0 / 16) % 2 == 1,
        r.spec_set_gyro_standby(b).0 == r.0 - ((r.0 / 16) % 2) * 16 + (if b {
            16int
        } else {
            0int
        }),
        r.spec_pd_ptat() <==> (r.0 / 8) % 2 == 1,
        r.spec_set_pd_ptat(b).0 == r.0 - ((r.0 / 8) % 2) * 8 + (if b {
            8int
        } else {
            0int
        }),
        r.spec_clksel_code() == (r.0 / 1) % 8,
        r.spec_set_clksel(c).0 == r.0 - ((r.0 / 1) % 8) * 1 + c.bits() * 1,
{
    lemma2_to64();
    lemma_bit_arithmetic(r.0, 7, b);
    lemma_bit_arithmetic(r.0, 6, b);
    lemma_bit_arithmetic(r.0, 5, b);
    lemma_bit_arithmetic(r.0, 4, b);
    lemma_bit_arithmetic(r.0, 3, b);
    lemma_field_arithmetic(r.0, 2, 0, c.bits());
}

/// Bit fields of the register at `REG_PWR_MGMT_2`.
#[derive(Copy, Clone, PartialEq, Eq, Default, Debug)]
pub struct PwrMGMT2(pub u8);

impl PwrMGMT2 {
    /// `DIS_XA`, bit 5.
    pub open spec fn spec_dis_xa(self) -> bool {
        bit(self.0, 5)
    }

    /// `DIS_XA`, bit 5.
    pub fn dis_xa(&self) -> (r: bool)
        ensures
            r == self.spec_dis_xa(),
    {
        get_bit(self.0, 5)
    }

    /// The value with `DIS_XA`, bit 5, set to `value`.
    pub open spec fn spec_set_dis_xa(self, value: bool) -> PwrMGMT2 {
        PwrMGMT2(with_bit(self.0, 5, value))
    }

    /// Sets `DIS_XA`, bit 5.
    pub fn set_dis_xa(&mut self, value: bool)
        ensures
            *final(self) == old(self).spec_set_dis_xa(value),
    {
        self.0 = set_bit(self.0, 5, value);
    }

    /// `DIS_YA`, bit 4.
    pub open spec fn spec_dis_ya(self) -> bool {
        bit(self.0, 4)
    }

    /// `DIS_YA`, bit 4.
    pub fn dis_ya(&self) -> (r: bool)
        ensures
            r == self.spec_dis_ya(),
    {
        get_bit(self.0, 4)
    }

    /// The value with `DIS_YA`, bit 4, set to `value`.
    pub open spec fn spec_set_dis_ya(self, value: bool) -> PwrMGMT2 {
        PwrMGMT2(with_bit(self.0, 4, value))
    }

    /// Sets `DIS_YA`, bit 4.
    pub fn set_dis_ya(&mut self, value: bool)
        ensures
            *final(self) == old(self).spec_set_dis_ya(value),
    {
        self.0 = set_bit(self.0, 4, value);
    }

    /// `DIS_ZA`, bit 3.
    pub open spec fn spec_dis_za(self) -> bool {
        bit(self.0, 3)
    }

    /// `DIS_ZA`, bit 3.
    pub fn dis_za(&self) -> (r: bool)
        ensures
            r == self.spec_dis_za(),
    {
        get_bit(self.0, 3)
    }

    /// The value with `DIS_ZA`, bit 3, set to `value`.
    pub open spec fn spec_set_dis_za(self, value: bool) -> PwrMGMT2 {
        PwrMGMT2(with_bit(self.0, 3, value))
    }

    /// Sets `DIS_ZA`, bit 3.
    pub fn set_dis_za(&mut self, value: bool)
        ensures
            *final(self) == old(self).spec_set_dis_za(value),
    {
        self.0 = set_bit(self.0, 3, value);
    }

    /// `DIS_XG`, bit 2.
    pub open spec fn spec_dis_xg(self) -> bool {
        bit(self.0, 2)
    }

    /// `DIS_XG`, bit 2.
    pub fn dis_xg(&self) -> (r: bool)
        ensures
            r == self.spec_dis_xg(),
    {
        get_bit(self.0, 2)
    }

    /// The value with `DIS_XG`, bit 2, set to `value`.
    pub open spec fn spec_set_dis_xg(self, value: bool) -> PwrMGMT2 {
        PwrMGMT2(with_bit(self.0, 2, value))
    }

    /// Sets `DIS_XG`, bit 2.
    pub fn set_dis_xg(&mut self, value: bool)
        ensures
            *final(self) == old(self).spec_set_dis_xg(value),
    {
        self.0 = set_bit(self.0, 2, value);
    }

    /// `DIS_YG`, bit 1.
    pub open spec fn spec_dis_yg(self) -> bool {
        bit(self.0, 1)
    }

    /// `DIS_YG`, bit 1.
    pub fn dis_yg(&self) -> (r: bool)
        ensures
            r == self.spec_dis_yg(),
    {
        get_bit(self.0, 1)
    }

    /// The value with `DIS_YG`, bit 1, set to `value`.
    pub open spec fn spec_set_dis_yg(self, value: bool) -> PwrMGMT2 {
        PwrMGMT2(with_bit(self.0, 1, value))
    }

    /// Sets `DIS_YG`, bit 1.
    pub fn set_dis_yg(&mut self, value: bool)
        ensures
            *final(self) == old(self).spec_set_dis_yg(value),
    {
        self.0 = set_bit(self.0, 1, value);
    }

    /// `DIS_ZG`, bit 0.
    pub open spec fn spec_dis_zg(self) -> bool {
        bit(self.0, 0)
    }

    /// `DIS_ZG`, bit 0.
    pub fn dis_zg(&self) -> (r: bool)
        ensures
            r == self.spec_dis_zg(),
    {
        get_bit(self.0, 0)
    }

    /// The value with `DIS_ZG`, bit 0, set to `value`.
    pub open spec fn spec_set_dis_zg(self, value: bool) -> PwrMGMT2 {
        PwrMGMT2(with_bit(self.0, 0, value))
    }

    /// Sets `DIS_ZG`, bit 0.
    pub fn set_dis_zg(&mut self, value: bool)
        ensures
            *final(self) == old(self).spec_set_dis_zg(value),
    {
        self.0 = set_bit(self.0, 0, value);
    }
}

impl Register for PwrMGMT2 {
    open spec fn address_spec() -> u8 {
        REG_PWR_MGMT_2
    }

    fn address() -> (r: u8) {
        REG_PWR_MGMT_2
    }

    open spec fn bits(self) -> u8 {
        self.0
    }

    open spec fn from_bits(val: u8) -> Self {
        PwrMGMT2(val)
    }

    proof fn lemma_bits_round_trip(r: Self, val: u8) {
    }

    fn from_u8(val: u8) -> (r: Self) {
        PwrMGMT2(val)
    }

    fn to_u8(self) -> (r: u8) {
        self.0
    }
}

/// Bit layout of the register at `REG_PWR_MGMT_2`, as plain arithmetic on its byte:
/// each field reads as the byte divided by the weight of its lowest bit,
/// modulo its range, and writing it replaces exactly that part of the byte.
pub proof fn lemma_pwr_mgmt2_layout(r: PwrMGMT2, b: bool)
    ensures
        r.spec_dis_xa() <==> (r.0 / 32) % 2 == 1,
        r.spec_set_dis_xa(b).0 == r.0 - ((r.0 / 32) % 2) * 32 + (if b {
            32int
        } else {
            0int
        }),
        r.spec_dis_ya() <==> (r.0 / 16) % 2 == 1,
        r.spec_set_dis_ya(b).0 == r.0 - ((r.0 / 16) % 2) * 16 + (if b {
            16int
        } else {
            0int
        }),
        r.spec_dis_za() <==> (r.0 / 8) % 2 == 1,
        r.spec_set_dis_za(b).0 == r.0 - ((r.0 / 8) % 2) * 8 + (if b {
            8int
        } else {
            0int
        }),
        r.spec_dis_xg() <==> (r.0 / 4) % 2 == 1,
        r.spec_set_dis_xg(b).0 == r.0 - ((r.0 / 4) % 2) * 4 + (if b {
            4int
        } else {
            0int
        }),
        r.spec_dis_yg() <==> (r.0 / 2) % 2 == 1,
        r.spec_set_dis_yg(b).0 == r.0 - ((r.0 / 2) % 2) * 2 + (if b {
            2int
        } else {
            0int
        }),
        r.spec_dis_zg() <==> (r.0 / 1) % 2 == 1,
        r.spec_set_dis_zg(b).0 == r.0 - ((r.0 / 1) % 2) * 1 + (if b {
            1int
        } else {
            0int
        }),
{
    lemma2_to64();
    lemma_bit_arithmetic(r.0, 5, b);
    lemma_bit_arithmetic(r.0, 4, b);
    lemma_bit_arithmetic(r.0, 3, b);
    lemma_bit_arithmetic(r.0, 2, b);
    lemma_bit_arithmetic(r.0, 1, b);
    lemma_bit_arithmetic(r.0, 0, b);
}

} // verus!
