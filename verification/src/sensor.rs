//! The MPU9250 driver: which transfers each operation consists of.
use vstd::prelude::*;

use crate::builder::{
    accel_config_1_byte, accel_config_2_byte, config_byte, gyro_config_byte, int_pin_cfg_byte,
    pwr_mgmt_1_byte, user_ctrl_byte, MpuConfig,
};
use crate::bits::with_field;
use crate::bus::Transaction;
use crate::error::Error;
use crate::regs::{
    AccelConfig1, AccelConfig2, AccelOffset, Config, GravityOffset, GyroConfig, IntPinCfg,
    PwrMGMT1, Register, SmplrtDiv, UserCtrl, REG_ACCEL_CONFIG_1, REG_ACCEL_CONFIG_2,
    REG_ACCEL_OFFSET_START, REG_ACCEL_OUT_START, REG_CONFIG, REG_EXT_SENSOR_DATA_START,
    REG_FIFO_COUNT_START, REG_GRAVITY_OFFSET_START, REG_GYRO_CONFIG, REG_GYRO_OUT_START,
    REG_I2C_SLV0_DO, REG_I2C_SLV1_DO, REG_I2C_SLV2_DO, REG_I2C_SLV3_DO, REG_INT_PIN_CFG,
    REG_PWR_MGMT_1, REG_SELF_TEST_ACCEL_START, REG_SELF_TEST_GYRO_START, REG_SMPLRT_DIV,
    REG_TEMP_OUT_START, REG_USER_CTRL, REG_WHO_AM_I,
};

verus! {

/// Longest frame the driver writes in one transfer: the register address
/// followed by up to 31 data bytes.
pub const WRITE_FRAME_LEN: usize = 32;

/// Full-scale range of the gyroscope (`GYRO_FS_SEL`).
#[derive(Debug, Clone, Copy, PartialEq, Eq, Default)]
pub enum GyroScale {
    Dps250,
    Dps500,
    Dps1000,
    #[default]
    Dps2000,
}

impl GyroScale {
    /// Field code of the range.
    pub open spec fn spec_bits(self) -> u8 {
        match self {
            GyroScale::Dps250 => 0,
            GyroScale::Dps500 => 1,
            GyroScale::Dps1000 => 2,
            GyroScale::Dps2000 => 3,
        }
    }

    /// Field code of the range.
    #[verifier::when_used_as_spec(spec_bits)]
    pub fn bits(self) -> (r: u8)
        ensures
            r == self.spec_bits(),
    {
        match self {
            GyroScale::Dps250 => 0,
            GyroScale::Dps500 => 1,
            GyroScale::Dps1000 => 2,
            GyroScale::Dps2000 => 3,
        }
    }
}

/// Full-scale range of the accelerometer (`ACCEL_FS_SEL`).
#[derive(Debug, Clone, Copy, PartialEq, Eq, Default)]
pub enum AccelScale {
    G2,
    G4,
    #[default]
    G8,
    G16,
}

impl AccelScale {
    /// Field code of the range.
    pub open spec fn spec_bits(self) -> u8 {
        match self {
            AccelScale::G2 => 0,
            AccelScale::G4 => 1,
            AccelScale::G8 => 2,
            AccelScale::G16 => 3,
        }
    }

    /// Field code of the range.
    #[verifier::when_used_as_spec(spec_bits)]
    pub fn bits(self) -> (r: u8)
        ensures
            r == self.spec_bits(),
    {
        match self {
            AccelScale::G2 => 0,
            AccelScale::G4 => 1,
            AccelScale::G8 => 2,
            AccelScale::G16 => 3,
        }
    }
}

/// Bandwidth of the digital low-pass filter (`DLPF_CFG`, `A_DLPF_CFG`).
#[derive(Debug, Clone, Copy, PartialEq, Eq, Default)]
pub enum Dlpf {
    Hz250,
    Hz184,
    #[default]
    Hz92,
    Hz41,
    Hz20,
    Hz10,
    Hz5,
}

impl Dlpf {
    /// Field code of the bandwidth.
    pub open spec fn spec_bits(self) -> u8 {
        match self {
            Dlpf::Hz250 => 0,
            Dlpf::Hz184 => 1,
            Dlpf::Hz92 => 2,
            Dlpf::Hz41 => 3,
            Dlpf::Hz20 => 4,
            Dlpf::Hz10 => 5,
            Dlpf::Hz5 => 6,
        }
    }

    /// Field code of the bandwidth.
    #[verifier::when_used_as_spec(spec_bits)]
    pub fn bits(self) -> (r: u8)
        ensures
            r == self.spec_bits(),
    {
        match self {
            Dlpf::Hz250 => 0,
            Dlpf::Hz184 => 1,
            Dlpf::Hz92 => 2,
            Dlpf::Hz41 => 3,
            Dlpf::Hz20 => 4,
            Dlpf::Hz10 => 5,
            Dlpf::Hz5 => 6,
        }
    }
}

/// Distinct values of `GyroScale` have distinct codes, each below 4.
pub proof fn lemma_gyro_scale_codes(a: GyroScale, b: GyroScale)
    ensures
        a.bits() < 4,
        a.bits() == b.bits() ==> a == b,
{
}

/// Distinct values of `AccelScale` have distinct codes, each below 4.
pub proof fn lemma_accel_scale_codes(a: AccelScale, b: AccelScale)
    ensures
        a.bits() < 4,
        a.bits() == b.bits() ==> a == b,
{
}

/// Distinct values of `Dlpf` have distinct codes, each below 7.
pub proof fn lemma_dlpf_codes(a: Dlpf, b: Dlpf)
    ensures
        a.bits() < 7,
        a.bits() == b.bits() ==> a == b,
{
}

/// Each low-pass filter bandwidth has the `DLPF_CFG` / `A_DLPF_CFG` code the
/// datasheet assigns it: 250 Hz is 0, 184 Hz 1, 92 Hz 2, 41 Hz 3, 20 Hz 4,
/// 10 Hz 5 and 5 Hz 6.
pub proof fn lemma_dlpf_datasheet_codes()
    ensures
        Dlpf::Hz250.bits() == 0,
        Dlpf::Hz184.bits() == 1,
        Dlpf::Hz92.bits() == 2,
        Dlpf::Hz41.bits() == 3,
        Dlpf::Hz20.bits() == 4,
        Dlpf::Hz10.bits() == 5,
        Dlpf::Hz5.bits() == 6,
{
}

/// Each gyroscope range has the `GYRO_FS_SEL` code the datasheet assigns it:
/// ±250 dps is 0, ±500 dps 1, ±1000 dps 2 and ±2000 dps 3.
pub proof fn lemma_gyro_scale_datasheet_codes()
    ensures
        GyroScale::Dps250.bits() == 0,
        GyroScale::Dps500.bits() == 1,
        GyroScale::Dps1000.bits() == 2,
        GyroScale::Dps2000.bits() == 3,
{
}

/// Each accelerometer range has the `ACCEL_FS_SEL` code the datasheet assigns
/// it: ±2 g is 0, ±4 g 1, ±8 g 2 and ±16 g 3.
pub proof fn lemma_accel_scale_datasheet_codes()
    ensures
        AccelScale::G2.bits() == 0,
        AccelScale::G4.bits() == 1,
        AccelScale::G8.bits() == 2,
        AccelScale::G16.bits() == 3,
{
}

/// A write frame holds at most 32 bytes: the register address and 31 data
/// bytes.
pub proof fn lemma_write_frame_limit()
    ensures
        WRITE_FRAME_LEN == 32,
{
}

/// Slaves 0 to 3 have their data-output registers at 0x63 to 0x66, one after
/// another; no other slave has one.
pub proof fn lemma_slave_do_registers(slave: u8)
    ensures
        slave <= 3 ==> slave_do_register(slave) == Some((0x63 + slave) as u8),
        slave > 3 ==> slave_do_register(slave) is None,
{
}

/// The driver: the bus it talks over, the sensor's bus address and the
/// configuration last applied.
#[derive(Debug)]
pub struct Mpu9250<I2C> {
    pub i2c: I2C,
    pub addr: u8,
    pub config: MpuConfig,
}

/// Data-output register of auxiliary slave `slave`, for slaves 0 to 3.
pub open spec fn slave_do_register(slave: u8) -> Option<u8> {
    if slave == 0 {
        Some(REG_I2C_SLV0_DO)
    } else if slave == 1 {
        Some(REG_I2C_SLV1_DO)
    } else if slave == 2 {
        Some(REG_I2C_SLV2_DO)
    } else if slave == 3 {
        Some(REG_I2C_SLV3_DO)
    } else {
        None
    }
}

fn slave_do_reg(slave: u8) -> (r: Option<u8>)
    ensures
        r == slave_do_register(slave),
{
    match slave {
        0 => Some(REG_I2C_SLV0_DO),
        1 => Some(REG_I2C_SLV1_DO),
        2 => Some(REG_I2C_SLV2_DO),
        3 => Some(REG_I2C_SLV3_DO),
        _ => None,
    }
}

impl<I2C> Mpu9250<I2C> {
    /// A driver for the sensor at `addr` on `i2c`, with the default
    /// configuration recorded; the sensor itself is left as it is.
    pub fn new(i2c: I2C, addr: u8) -> (r: Self)
        ensures
            r.i2c == i2c,
            r.addr == addr,
            r.config == MpuConfig::spec_default(),
    {
        Mpu9250 { i2c, addr, config: MpuConfig::new() }
    }

    /// Reads the register `reg`.
    pub fn read_reg(&self, reg: u8) -> (t: Transaction)
        ensures
            t.is_read_of(self.addr, reg, 1),
    {
        self.read_bytes(reg, 1)
    }

    /// Writes `val` to the register `reg`.
    pub fn write_reg(&self, reg: u8, val: u8) -> (t: Transaction)
        ensures
            t.is_write_of(self.addr, seq![reg, val]),
    {
        let mut bytes: Vec<u8> = Vec::new();
        bytes.push(reg);
        bytes.push(val);
        assert(bytes@ =~= seq![reg, val]);
        Transaction::Write { addr: self.addr, bytes }
    }

    /// Reads `len` consecutive registers starting at `reg`.
    pub fn read_bytes(&self, reg: u8, len: usize) -> (t: Transaction)
        ensures
            t.is_read_of(self.addr, reg, len as nat),
    {
        let mut bytes: Vec<u8> = Vec::new();
        bytes.push(reg);
        assert(bytes@ =~= seq![reg]);
        Transaction::WriteRead { addr: self.addr, bytes, read_len: len }
    }

    /// Writes `buf` to consecutive registers starting at `reg`, in one frame;
    /// fails when the frame would exceed [`WRITE_FRAME_LEN`] bytes.
    pub fn write_bytes(&self, reg: u8, buf: &[u8]) -> (r: Result<Transaction, Error>)
        ensures
            r is Err <==> buf@.len() + 1 > WRITE_FRAME_LEN,
            r is Err ==> r == Err::<Transaction, Error>(Error::I2CWriteError),
            r matches Ok(t) ==> t.is_write_of(self.addr, seq![reg] + buf@),
    {
        if buf.len() >= WRITE_FRAME_LEN {
            return Err(Error::I2CWriteError);
        }
        let mut bytes: Vec<u8> = Vec::new();
        bytes.push(reg);
        let mut i: usize = 0;
        while i < buf.len()
            invariant
                i <= buf@.len(),
                bytes@ == seq![reg] + buf@.subrange(0, i as int),
            decreases buf@.len() - i,
        {
            bytes.push(buf[i]);
            i = i + 1;
            assert(bytes@ == seq![reg] + buf@.subrange(0, i as int));
        }
        assert(buf@.subrange(0, buf@.len() as int) == buf@);
        Ok(Transaction::Write { addr: self.addr, bytes })
    }

    /// Reads `WHO_AM_I`.
    pub fn who_am_i(&self) -> (t: Transaction)
        ensures
            t.is_read_of(self.addr, REG_WHO_AM_I, 1),
    {
        self.read_reg(REG_WHO_AM_I)
    }

    /// Resets the whole device: writes `H_RESET` (0x80) to `PWR_MGMT_1`.
    pub fn reset(&self) -> (t: Transaction)
        ensures
            t.is_write_of(self.addr, seq![REG_PWR_MGMT_1, 0x80u8]),
    {
        self.write_reg(REG_PWR_MGMT_1, 0x80)
    }

    /// Reads the register `R`; its value is `R::from_u8` of the byte read.
    pub fn read_register<R: Register>(&self) -> (t: Transaction)
        ensures
            t.is_read_of(self.addr, R::address_spec(), 1),
    {
        self.read_reg(R::address())
    }

    /// Writes `reg` to its register.
    pub fn write_register<R: Register>(&self, reg: R) -> (t: Transaction)
        ensures
            t.is_write_of(self.addr, seq![R::address_spec(), reg.bits()]),
    {
        self.write_reg(R::address(), reg.to_u8())
    }

    /// Reads the gyroscope self-test codes (3 bytes).
    pub fn self_test_gyro(&self) -> (t: Transaction)
        ensures
            t.is_read_of(self.addr, REG_SELF_TEST_GYRO_START, 3),
    {
        self.read_bytes(REG_SELF_TEST_GYRO_START, 3)
    }

    /// Reads the accelerometer self-test codes (3 bytes).
    pub fn self_test_accel(&self) -> (t: Transaction)
        ensures
            t.is_read_of(self.addr, REG_SELF_TEST_ACCEL_START, 3),
    {
        self.read_bytes(REG_SELF_TEST_ACCEL_START, 3)
    }

    /// Reads the gyroscope offsets (6 bytes).
    pub fn gravity_offset(&self) -> (t: Transaction)
        ensures
            t.is_read_of(self.addr, REG_GRAVITY_OFFSET_START, 6),
    {
        self.read_bytes(REG_GRAVITY_OFFSET_START, 6)
    }

    /// Writes the gyroscope offsets.
    pub fn set_gravity_offset(&self, val: GravityOffset) -> (r: Result<Transaction, Error>)
        ensures
            r matches Ok(t) && t.is_write_of(
                self.addr,
                seq![REG_GRAVITY_OFFSET_START] + val.0@,
            ),
    {
        self.write_bytes(REG_GRAVITY_OFFSET_START, &val.0)
    }

    /// Reads the accelerometer offsets (6 bytes).
    pub fn accel_offset(&self) -> (t: Transaction)
        ensures
            t.is_read_of(self.addr, REG_ACCEL_OFFSET_START, 6),
    {
        self.read_bytes(REG_ACCEL_OFFSET_START, 6)
    }

    /// Writes the accelerometer offsets.
    pub fn set_accel_offset(&self, val: AccelOffset) -> (r: Result<Transaction, Error>)
        ensures
            r matches Ok(t) && t.is_write_of(
                self.addr,
                seq![REG_ACCEL_OFFSET_START] + val.0@,
            ),
    {
        self.write_bytes(REG_ACCEL_OFFSET_START, &val.0)
    }

    /// Reads the FIFO counter (2 bytes).
    pub fn fifo_count(&self) -> (t: Transaction)
        ensures
            t.is_read_of(self.addr, REG_FIFO_COUNT_START, 2),
    {
        self.read_bytes(REG_FIFO_COUNT_START, 2)
    }

    /// Reads accelerometer, temperature and gyroscope in one transfer (14 bytes).
    pub fn agt_data_raw(&self) -> (t: Transaction)
        ensures
            t.is_read_of(self.addr, REG_ACCEL_OUT_START, 14),
    {
        self.read_bytes(REG_ACCEL_OUT_START, 14)
    }

    /// Reads the accelerometer sample (6 bytes).
    pub fn accel_out(&self) -> (t: Transaction)
        ensures
            t.is_read_of(self.addr, REG_ACCEL_OUT_START, 6),
    {
        self.read_bytes(REG_ACCEL_OUT_START, 6)
    }

    /// Reads the temperature sample (2 bytes).
    pub fn temp_out(&self) -> (t: Transaction)
        ensures
            t.is_read_of(self.addr, REG_TEMP_OUT_START, 2),
    {
        self.read_bytes(REG_TEMP_OUT_START, 2)
    }

    /// Reads the gyroscope sample (6 bytes).
    pub fn gyro_out(&self) -> (t: Transaction)
        ensures
            t.is_read_of(self.addr, REG_GYRO_OUT_START, 6),
    {
        self.read_bytes(REG_GYRO_OUT_START, 6)
    }

    /// Reads gyroscope, accelerometer and temperature in three transfers, in
    /// that order.
    pub fn read_gat_data(&self) -> (r: (Transaction, Transaction, Transaction))
        ensures
            r.0.is_read_of(self.addr, REG_GYRO_OUT_START, 6),
            r.1.is_read_of(self.addr, REG_ACCEL_OUT_START, 6),
            r.2.is_read_of(self.addr, REG_TEMP_OUT_START, 2),
    {
        (self.gyro_out(), self.accel_out(), self.temp_out())
    }

    /// Reads the data of the external sensors (24 bytes).
    pub fn ext_sens_data(&self) -> (t: Transaction)
        ensures
            t.is_read_of(self.addr, REG_EXT_SENSOR_DATA_START, 24),
    {
        self.read_bytes(REG_EXT_SENSOR_DATA_START, 24)
    }

    /// Writes `val` to the data-output register of auxiliary slave `slave`;
    /// only slaves 0 to 3 have one.
    pub fn set_slave_data_out(&self, slave: u8, val: u8) -> (r: Result<Transaction, Error>)
        ensures
            r is Err <==> slave > 3,
            r is Err ==> r == Err::<Transaction, Error>(Error::I2CWriteError),
            r matches Ok(t) ==> t.is_write_of(
                self.addr,
                seq![slave_do_register(slave)->Some_0, val],
            ),
    {
        match slave_do_reg(slave) {
            Some(reg) => Ok(self.write_reg(reg, val)),
            None => Err(Error::I2CWriteError),
        }
    }

    /// Reads the data-output register of auxiliary slave `slave`; only slaves
    /// 0 to 3 have one.
    pub fn slave_data_out(&self, slave: u8) -> (r: Result<Transaction, Error>)
        ensures
            r is Err <==> slave > 3,
            r is Err ==> r == Err::<Transaction, Error>(Error::I2CReadError),
            r matches Ok(t) ==> t.is_read_of(self.addr, slave_do_register(slave)->Some_0, 1),
    {
        match slave_do_reg(slave) {
            Some(reg) => Ok(self.read_reg(reg)),
            None => Err(Error::I2CReadError),
        }
    }

    /// Configures clock, sleep, sample rate, filters, full-scale ranges, the
    /// auxiliary bus bypass and the auxiliary master, in this order. Once every
    /// write succeeded, [`Mpu9250::config_applied`] records `config`.
    pub fn apply_config(&self, config: &MpuConfig) -> (r: Vec<Transaction>)
        ensures
            r@.len() == 8,
            r@[0].is_write_of(
                self.addr,
                seq![REG_PWR_MGMT_1, pwr_mgmt_1_byte(config.clock_source, config.sleep)],
            ),
            r@[1].is_write_of(self.addr, seq![REG_SMPLRT_DIV, config.sample_rate_div]),
            r@[2].is_write_of(self.addr, seq![REG_CONFIG, config_byte(config.dlpf)]),
            r@[3].is_write_of(
                self.addr,
                seq![REG_ACCEL_CONFIG_2, accel_config_2_byte(config.dlpf)],
            ),
            r@[4].is_write_of(
                self.addr,
                seq![REG_GYRO_CONFIG, gyro_config_byte(config.gyro.scale)],
            ),
            r@[5].is_write_of(
                self.addr,
                seq![REG_ACCEL_CONFIG_1, accel_config_1_byte(config.accel.scale)],
            ),
            r@[6].is_write_of(
                self.addr,
                seq![REG_INT_PIN_CFG, int_pin_cfg_byte(config.ak8963_enable)],
            ),
            r@[7].is_write_of(self.addr, seq![REG_USER_CTRL, user_ctrl_byte()]),
    {
        let mut writes: Vec<Transaction> = Vec::new();

        let mut pwr_mgmt_1 = PwrMGMT1(0);
        pwr_mgmt_1.set_clksel(config.clock_source);
        pwr_mgmt_1.set_sleep(config.sleep);
        writes.push(self.write_register(pwr_mgmt_1));

        let smplrt_div = SmplrtDiv(config.sample_rate_div);
        writes.push(self.write_register(smplrt_div));

        let mut reg_config = Config(0);
        reg_config.set_dlpf_cfg(config.dlpf.bits());
        writes.push(self.write_register(reg_config));

        let mut accel_config_2 = AccelConfig2(0);
        accel_config_2.set_a_dlpf_cfg(config.dlpf.bits());
        accel_config_2.set_accel_fchoice_b(false);
        writes.push(self.write_register(accel_config_2));

        let mut gyro_config = GyroConfig(0);
        let fs_sel: u8 = config.gyro.scale.bits();
        gyro_config.set_gyro_fs_sel(fs_sel);
        gyro_config.set_fchoice_b(0);
        assert(with_field(with_field(0, 4, 3, fs_sel), 1, 0, 0) == with_field(0, 4, 3, fs_sel))
            by (bit_vector);
        writes.push(self.write_register(gyro_config));

        let mut accel_config_1 = AccelConfig1(0);
        accel_config_1.set_accel_fs_sel(config.accel.scale.bits());
        writes.push(self.write_register(accel_config_1));

        let mut int_pin_cfg = IntPinCfg(0);
        int_pin_cfg.set_bypass_en(config.ak8963_enable);
        writes.push(self.write_register(int_pin_cfg));

        let mut user_ctrl = UserCtrl(0);
        user_ctrl.set_i2c_mst_en(false);
        writes.push(self.write_register(user_ctrl));

        writes
    }

    /// Records `config` as the applied configuration, once every write of
    /// [`Mpu9250::apply_config`] succeeded.
    pub fn config_applied(&mut self, config: MpuConfig)
        ensures
            final(self).config == config,
            final(self).i2c == old(self).i2c,
            final(self).addr == old(self).addr,
    {
        self.config = config;
    }
}

/// A register value written with [`Mpu9250::write_register`] is read back by
/// [`Mpu9250::read_register`]: both transfers address the same register of the
/// same device, and the byte written decodes to the value written.
pub proof fn lemma_register_write_read_back<I2C, R: Register>(
    mpu: &Mpu9250<I2C>,
    r: R,
    w: Transaction,
    rd: Transaction,
)
    requires
        w.is_write_of(mpu.addr, seq![R::address_spec(), r.bits()]),
        rd.is_read_of(mpu.addr, R::address_spec(), 1),
    ensures
        w->Write_addr == rd->WriteRead_addr,
        w->Write_bytes@[0] == rd->WriteRead_bytes@[0],
        R::from_bits(w->Write_bytes@[1]) == r,
{
    R::lemma_bits_round_trip(r, r.bits());
}

} // verus!
