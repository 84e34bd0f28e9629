//! Configuration of the sensor and the typestate builder that brings it up.
use core::marker::PhantomData;
use vstd::prelude::*;

use crate::bits::{bit, field, with_bit, with_field};
use crate::bus::Transaction;
use crate::regs::{
    AccelConfig2, ClkSel, Config, PwrMGMT1, Register, SmplrtDiv, REG_ACCEL_CONFIG_1,
    REG_ACCEL_CONFIG_2, REG_CONFIG, REG_GYRO_CONFIG, REG_PWR_MGMT_1, REG_SMPLRT_DIV,
};
use crate::sensor::{AccelScale, Dlpf, GyroScale, Mpu9250};

verus! {

/// Accelerometer settings.
#[derive(Debug, Clone, Copy, PartialEq, Eq, Default)]
pub struct AccelConfig {
    pub scale: AccelScale,
}

/// Gyroscope settings.
#[derive(Debug, Clone, Copy, PartialEq, Eq, Default)]
pub struct GyroConfig {
    pub scale: GyroScale,
}

/// Magnetometer settings.
#[derive(Debug, Clone, Copy, PartialEq, Eq, Default)]
pub struct MagConfig {
    by_pass: bool,
}

/// Settings of the sensor.
#[derive(Debug, Clone, Copy, PartialEq, Eq)]
pub struct MpuConfig {
    pub clock_source: ClkSel,
    pub dlpf: Dlpf,
    pub sample_rate_div: u8,
    pub gyro: GyroConfig,
    pub accel: AccelConfig,
    /// Keep the sensor asleep (`SLEEP` of `PWR_MGMT_1`).
    pub sleep: bool,
    /// Let the host reach the AK8963 magnetometer directly (`BYPASS_EN` of
    /// `INT_PIN_CFG`).
    pub ak8963_enable: bool,
}

/// `PWR_MGMT_1` with clock source `clk` and sleep flag `sleep`, all else zero.
pub open spec fn pwr_mgmt_1_byte(clk: ClkSel, sleep: bool) -> u8 {
    with_bit(with_field(0, 2, 0, clk.bits()), 6, sleep)
}

/// `CONFIG` with low-pass filter `dlpf`, all else zero.
pub open spec fn config_byte(dlpf: Dlpf) -> u8 {
    with_field(0, 2, 0, dlpf.bits())
}

/// `ACCEL_CONFIG_2` with low-pass filter `dlpf` enabled (`ACCEL_FCHOICE_B`
/// clear), all else zero.
pub open spec fn accel_config_2_byte(dlpf: Dlpf) -> u8 {
    with_bit(with_field(0, 2, 0, dlpf.bits()), 3, false)
}

/// `GYRO_CONFIG` with full-scale range `scale`, all else zero.
pub open spec fn gyro_config_byte(scale: GyroScale) -> u8 {
    with_field(0, 4, 3, scale.bits())
}

/// `ACCEL_CONFIG_1` with full-scale range `scale`, all else zero.
pub open spec fn accel_config_1_byte(scale: AccelScale) -> u8 {
    with_field(0, 4, 3, scale.bits())
}

/// `INT_PIN_CFG` with `BYPASS_EN` set to `bypass`, all else zero.
pub open spec fn int_pin_cfg_byte(bypass: bool) -> u8 {
    with_bit(0, 1, bypass)
}

/// `USER_CTRL` with the auxiliary I2C master off, all else zero.
pub open spec fn user_ctrl_byte() -> u8 {
    with_bit(0, 5, false)
}

/// The bytes written for a configuration read back as that configuration:
/// each register field holds the configured code, and every bit that the
/// configuration does not set is clear (in particular no reset is requested).
pub proof fn lemma_config_bytes_decode(c: MpuConfig)
    ensures
        field(pwr_mgmt_1_byte(c.clock_source, c.sleep), 2, 0) == c.clock_source.bits(),
        bit(pwr_mgmt_1_byte(c.clock_source, c.sleep), 6) == c.sleep,
        pwr_mgmt_1_byte(c.clock_source, c.sleep) & 0xb8 == 0,
        field(config_byte(c.dlpf), 2, 0) == c.dlpf.bits(),
        config_byte(c.dlpf) & 0xf8 == 0,
        field(accel_config_2_byte(c.dlpf), 2, 0) == c.dlpf.bits(),
        accel_config_2_byte(c.dlpf) & 0xf8 == 0,
        field(gyro_config_byte(c.gyro.scale), 4, 3) == c.gyro.scale.bits(),
        gyro_config_byte(c.gyro.scale) & 0xe7 == 0,
        field(accel_config_1_byte(c.accel.scale), 4, 3) == c.accel.scale.bits(),
        accel_config_1_byte(c.accel.scale) & 0xe7 == 0,
        bit(int_pin_cfg_byte(c.ak8963_enable), 1) == c.ak8963_enable,
        int_pin_cfg_byte(c.ak8963_enable) & 0xfd == 0,
        user_ctrl_byte() == 0,
{
    let k: u8 = c.clock_source.bits();
    let s: bool = c.sleep;
    let d: u8 = c.dlpf.bits();
    let g: u8 = c.gyro.scale.bits();
    let a: u8 = c.accel.scale.bits();
    let b: bool = c.ak8963_enable;
    assert(field(with_bit(with_field(0, 2, 0, k), 6, s), 2, 0) == k && bit(
        with_bit(with_field(0, 2, 0, k), 6, s),
        6,
    ) == s && with_bit(with_field(0, 2, 0, k), 6, s) & 0xb8 == 0) by (bit_vector)
        requires
            k < 8,
    ;
    assert(field(with_field(0, 2, 0, d), 2, 0) == d && with_field(0, 2, 0, d) & 0xf8 == 0 && field(
        with_bit(with_field(0, 2, 0, d), 3, false),
        2,
        0,
    ) == d && with_bit(with_field(0, 2, 0, d), 3, false) & 0xf8 == 0) by (bit_vector)
        requires
            d < 8,
    ;
    assert(field(with_field(0, 4, 3, g), 4, 3) == g && with_field(0, 4, 3, g) & 0xe7 == 0)
        by (bit_vector)
        requires
            g < 4,
    ;
    assert(field(with_field(0, 4, 3, a), 4, 3) == a && with_field(0, 4, 3, a) & 0xe7 == 0)
        by (bit_vector)
        requires
            a < 4,
    ;
    assert(bit(with_bit(0, 1, b), 1) == b && with_bit(0, 1, b) & 0xfd == 0 && with_bit(0, 5, false)
        == 0) by (bit_vector);
}

/// The configuration bytes as plain numbers: `PWR_MGMT_1` is the clock code,
/// plus 64 when asleep; `CONFIG` and `ACCEL_CONFIG_2` are the filter code;
/// `GYRO_CONFIG` and `ACCEL_CONFIG_1` are eight times the range code;
/// `INT_PIN_CFG` is 2 with the bypass on and 0 otherwise; `USER_CTRL` is 0.
pub proof fn lemma_config_bytes_values(c: MpuConfig)
    ensures
        pwr_mgmt_1_byte(c.clock_source, c.sleep) == c.clock_source.bits() + (if c.sleep {
            64int
        } else {
            0int
        }),
        config_byte(c.dlpf) == c.dlpf.bits(),
        accel_config_2_byte(c.dlpf) == c.dlpf.bits(),
        gyro_config_byte(c.gyro.scale) == 8 * c.gyro.scale.bits(),
        accel_config_1_byte(c.accel.scale) == 8 * c.accel.scale.bits(),
        int_pin_cfg_byte(c.ak8963_enable) == (if c.ak8963_enable {
            2int
        } else {
            0int
        }),
        user_ctrl_byte() == 0,
{
    let k: u8 = c.clock_source.bits();
    let d: u8 = c.dlpf.bits();
    let g: u8 = c.gyro.scale.bits();
    let a: u8 = c.accel.scale.bits();
    assert(with_bit(with_field(0, 2, 0, k), 6, true) == k + 64 && with_bit(
        with_field(0, 2, 0, k),
        6,
        false,
    ) == k) by (bit_vector)
        requires
            k < 8,
    ;
    assert(with_field(0, 2, 0, d) == d && with_bit(with_field(0, 2, 0, d), 3, false) == d)
        by (bit_vector)
        requires
            d < 8,
    ;
    assert(with_field(0, 4, 3, g) == 8 * g && with_field(0, 4, 3, a) == 8 * a) by (bit_vector)
        requires
            g < 4,
            a < 4,
    ;
    assert(with_bit(0, 1, true) == 2 && with_bit(0, 1, false) == 0 && with_bit(0, 5, false) == 0)
        by (bit_vector);
}

/// The sensitivities are the datasheet's: 16384, 8192, 4096 and 2048 counts
/// per g for ±2, ±4, ±8 and ±16 g, so that the full range spans the signed
/// 16-bit words; 131, 65.5, 32.8 and 16.4 counts per dps for ±250, ±500,
/// ±1000 and ±2000 dps.
pub proof fn lemma_sensitivities()
    ensures
        accel_counts_per_g(AccelScale::G2) * 2 == 32768,
        accel_counts_per_g(AccelScale::G4) * 4 == 32768,
        accel_counts_per_g(AccelScale::G8) * 8 == 32768,
        accel_counts_per_g(AccelScale::G16) * 16 == 32768,
        gyro_counts_per_10_dps(GyroScale::Dps250) == 1310,
        gyro_counts_per_10_dps(GyroScale::Dps500) == 655,
        gyro_counts_per_10_dps(GyroScale::Dps1000) == 328,
        gyro_counts_per_10_dps(GyroScale::Dps2000) == 164,
{
}

/// The default settings in datasheet codes: clock source 0 (internal 20 MHz),
/// filter code 2 (92 Hz), divider 1, gyroscope range code 3 (±2000 dps),
/// accelerometer range code 2 (±8 g), awake, bypass off.
pub proof fn lemma_default_config_codes()
    ensures
        MpuConfig::spec_default().clock_source.bits() == 0,
        MpuConfig::spec_default().dlpf.bits() == 2,
        MpuConfig::spec_default().sample_rate_div == 1,
        MpuConfig::spec_default().gyro.scale.bits() == 3,
        MpuConfig::spec_default().accel.scale.bits() == 2,
        !MpuConfig::spec_default().sleep,
        !MpuConfig::spec_default().ak8963_enable,
{
}

/// Accelerometer counts per g for a full-scale range.
pub open spec fn accel_counts_per_g(scale: AccelScale) -> u16 {
    match scale {
        AccelScale::G2 => 16384,
        AccelScale::G4 => 8192,
        AccelScale::G8 => 4096,
        AccelScale::G16 => 2048,
    }
}

/// Gyroscope counts per ten degrees per second for a full-scale range.
pub open spec fn gyro_counts_per_10_dps(scale: GyroScale) -> u16 {
    match scale {
        GyroScale::Dps250 => 1310,
        GyroScale::Dps500 => 655,
        GyroScale::Dps1000 => 328,
        GyroScale::Dps2000 => 164,
    }
}

impl MpuConfig {
    /// The default settings: internal 20 MHz clock, 92 Hz filter, divider 1,
    /// ±2000 dps, ±8 g, awake, no bypass.
    pub open spec fn spec_default() -> MpuConfig {
        MpuConfig {
            clock_source: ClkSel::Internal20M1,
            dlpf: Dlpf::Hz92,
            sample_rate_div: 1,
            gyro: GyroConfig { scale: GyroScale::Dps2000 },
            accel: AccelConfig { scale: AccelScale::G8 },
            sleep: false,
            ak8963_enable: false,
        }
    }

    /// The default settings.
    pub fn new() -> (r: MpuConfig)
        ensures
            r == MpuConfig::spec_default(),
    {
        MpuConfig {
            clock_source: ClkSel::Internal20M1,
            dlpf: Dlpf::Hz92,
            sample_rate_div: 1,
            gyro: GyroConfig { scale: GyroScale::Dps2000 },
            accel: AccelConfig { scale: AccelScale::G8 },
            sleep: false,
            ak8963_enable: false,
        }
    }

    /// The settings with clock source `clock_source`.
    pub fn clock_source(self, clock_source: ClkSel) -> (r: MpuConfig)
        ensures
            r == (MpuConfig { clock_source, ..self }),
    {
        MpuConfig { clock_source, ..self }
    }

    /// The settings with gyroscope range `scale`.
    pub fn gyro_scale(self, scale: GyroScale) -> (r: MpuConfig)
        ensures
            r == (MpuConfig { gyro: GyroConfig { scale }, ..self }),
    {
        MpuConfig { gyro: GyroConfig { scale }, ..self }
    }

    /// The settings with accelerometer range `scale`.
    pub fn accel_scale(self, scale: AccelScale) -> (r: MpuConfig)
        ensures
            r == (MpuConfig { accel: AccelConfig { scale }, ..self }),
    {
        MpuConfig { accel: AccelConfig { scale }, ..self }
    }

    /// The settings with low-pass filter `dlpf`.
    pub fn dlpf(self, dlpf: Dlpf) -> (r: MpuConfig)
        ensures
            r == (MpuConfig { dlpf, ..self }),
    {
        MpuConfig { dlpf, ..self }
    }

    /// The settings with sample-rate divider `sample_rate_div`.
    pub fn sample_rate_div(self, sample_rate_div: u8) -> (r: MpuConfig)
        ensures
            r == (MpuConfig { sample_rate_div, ..self }),
    {
        MpuConfig { sample_rate_div, ..self }
    }

    /// The settings with the magnetometer bypass on or off.
    pub fn ak8963_enable(self, ak8963_enable: bool) -> (r: MpuConfig)
        ensures
            r == (MpuConfig { ak8963_enable, ..self }),
    {
        MpuConfig { ak8963_enable, ..self }
    }

    /// The settings with the auxiliary bus bypassed to the host or not; the
    /// same switch as [`MpuConfig::ak8963_enable`].
    pub fn bypass_i2c(self, bypass: bool) -> (r: MpuConfig)
        ensures
            r == (MpuConfig { ak8963_enable: bypass, ..self }),
    {
        MpuConfig { ak8963_enable: bypass, ..self }
    }

    /// The settings with the sleep flag `sleep`.
    pub fn sleep(self, sleep: bool) -> (r: MpuConfig)
        ensures
            r == (MpuConfig { sleep, ..self }),
    {
        MpuConfig { sleep, ..self }
    }

    /// Accelerometer counts per g in the configured range: the divisor that
    /// turns a raw accelerometer word into g.
    pub fn accel_sensitivity(&self) -> (r: u16)
        ensures
            r == accel_counts_per_g(self.accel.scale),
    {
        match self.accel.scale {
            AccelScale::G2 => 16384,
            AccelScale::G4 => 8192,
            AccelScale::G8 => 4096,
            AccelScale::G16 => 2048,
        }
    }

    /// Gyroscope counts per ten degrees per second in the configured range: ten
    /// times the divisor that turns a raw gyroscope word into degrees per
    /// second.
    pub fn gyro_sensitivity_x10(&self) -> (r: u16)
        ensures
            r == gyro_counts_per_10_dps(self.gyro.scale),
    {
        match self.gyro.scale {
            GyroScale::Dps250 => 1310,
            GyroScale::Dps500 => 655,
            GyroScale::Dps1000 => 328,
            GyroScale::Dps2000 => 164,
        }
    }
}

impl Default for MpuConfig {
    fn default() -> (r: MpuConfig)
        ensures
            r == MpuConfig::spec_default(),
    {
        MpuConfig::new()
    }
}

/// Builder state: the sensor has just powered up.
pub struct PowerOn;

/// Builder state: the sensor has been reset.
pub struct Normal;

/// Brings the sensor up in order: reset first, then initialisation.
pub struct Mpu9250Builder<I2C, S = PowerOn> {
    mpu: Mpu9250<I2C>,
    config: MpuConfig,
    _state: PhantomData<S>,
}

impl<I2C, S> Mpu9250Builder<I2C, S> {
    /// The driver being built.
    pub closed spec fn spec_mpu(&self) -> &Mpu9250<I2C> {
        &self.mpu
    }

    /// The settings that initialisation will apply.
    pub closed spec fn spec_config(&self) -> MpuConfig {
        self.config
    }

    /// The bus, to perform the builder's transfers over.
    pub fn bus(&mut self) -> (r: &mut I2C)
        ensures
            *r == old(self).spec_mpu().i2c,
            final(self).spec_mpu().i2c == *final(r),
            final(self).spec_mpu().addr == old(self).spec_mpu().addr,
            final(self).spec_mpu().config == old(self).spec_mpu().config,
            final(self).spec_config() == old(self).spec_config(),
    {
        &mut self.mpu.i2c
    }
}

impl<I2C> Mpu9250Builder<I2C, PowerOn> {
    /// A builder for the sensor at `addr` on `i2c` that will apply `config`, or
    /// the default settings when there is none.
    pub fn new(i2c: I2C, addr: u8, config: Option<MpuConfig>) -> (r: Self)
        ensures
            r.spec_mpu().i2c == i2c,
            r.spec_mpu().addr == addr,
            r.spec_mpu().config == MpuConfig::spec_default(),
            r.spec_config() == match config {
                Some(c) => c,
                None => MpuConfig::spec_default(),
            },
    {
        let config = match config {
            Some(c) => c,
            None => MpuConfig::new(),
        };
        Mpu9250Builder { mpu: Mpu9250::new(i2c, addr), config, _state: PhantomData }
    }

    /// Resets the device: the write to perform, and the builder to continue
    /// with once it succeeded.
    pub fn reset(self) -> (r: (Transaction, Mpu9250Builder<I2C, Normal>))
        ensures
            r.0.is_write_of(self.spec_mpu().addr, seq![REG_PWR_MGMT_1, 0x80u8]),
            r.1.spec_mpu() == self.spec_mpu(),
            r.1.spec_config() == self.spec_config(),
    {
        let t = self.mpu.reset();
        (t, Mpu9250Builder { mpu: self.mpu, config: self.config, _state: PhantomData })
    }
}

impl<I2C> Mpu9250Builder<I2C, Normal> {
    /// Wakes the sensor and configures clock, filters, sample rate and
    /// full-scale ranges, in this order: the writes to perform, and the driver,
    /// with the settings recorded, to use once all of them succeeded.
    pub fn init(self) -> (r: (Vec<Transaction>, Mpu9250<I2C>))
        ensures
            ({
                let addr: u8 = self.spec_mpu().addr;
                let c = self.spec_config();
                &&& r.0@.len() == 6
                &&& r.0@[0].is_write_of(
                    addr,
                    seq![REG_PWR_MGMT_1, pwr_mgmt_1_byte(c.clock_source, false)],
                )
                &&& r.0@[1].is_write_of(addr, seq![REG_CONFIG, config_byte(c.dlpf)])
                &&& r.0@[2].is_write_of(addr, seq![REG_ACCEL_CONFIG_2, accel_config_2_byte(c.dlpf)])
                &&& r.0@[3].is_write_of(addr, seq![REG_SMPLRT_DIV, c.sample_rate_div])
                &&& r.0@[4].is_write_of(addr, seq![REG_GYRO_CONFIG, gyro_config_byte(c.gyro.scale)])
                &&& r.0@[5].is_write_of(
                    addr,
                    seq![REG_ACCEL_CONFIG_1, accel_config_1_byte(c.accel.scale)],
                )
            }),
            r.1.i2c == self.spec_mpu().i2c,
            r.1.addr == self.spec_mpu().addr,
            r.1.config == self.spec_config(),
    {
        let mut writes: Vec<Transaction> = Vec::new();

        let mut pwr_mgmt_1 = PwrMGMT1(0);
        pwr_mgmt_1.set_clksel(self.config.clock_source);
        pwr_mgmt_1.set_sleep(false);
        writes.push(self.mpu.write_register(pwr_mgmt_1));

        let mut reg_config = Config(0);
        reg_config.set_dlpf_cfg(self.config.dlpf.bits());
        writes.push(self.mpu.write_register(reg_config));

        let mut accel_config_2 = AccelConfig2(0);
        accel_config_2.set_a_dlpf_cfg(self.config.dlpf.bits());
        accel_config_2.set_accel_fchoice_b(false);
        writes.push(self.mpu.write_register(accel_config_2));

        let smplrt_div = SmplrtDiv(self.config.sample_rate_div);
        writes.push(self.mpu.write_register(smplrt_div));

        let mut gyro_config = crate::regs::GyroConfig(0);
        gyro_config.set_gyro_fs_sel(self.config.gyro.scale.bits());
        writes.push(self.mpu.write_register(gyro_config));

        let mut accel_config_1 = crate::regs::AccelConfig1(0);
        accel_config_1.set_accel_fs_sel(self.config.accel.scale.bits());
        writes.push(self.mpu.write_register(accel_config_1));

        let mut mpu = self.mpu;
        mpu.config = self.config;
        (writes, mpu)
    }
}

} // verus!
