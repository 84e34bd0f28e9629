use mpu9250::builder::{AccelConfig, GyroConfig, Mpu9250Builder, MpuConfig};
use mpu9250::bus::Transaction;
use mpu9250::regs::ClkSel;
use mpu9250::sensor::{AccelScale, Dlpf, GyroScale};

fn w(bytes: Vec<u8>) -> Transaction {
    Transaction::Write { addr: 0x69, bytes }
}

#[test]
fn default_config_values() {
    let c = MpuConfig::default();
    assert_eq!(c.clock_source, ClkSel::Internal20M1);
    assert_eq!(c.dlpf, Dlpf::Hz92);
    assert_eq!(c.sample_rate_div, 1);
    assert_eq!(c.gyro, GyroConfig { scale: GyroScale::Dps2000 });
    assert_eq!(c.accel, AccelConfig { scale: AccelScale::G8 });
    assert!(!c.sleep);
    assert!(!c.ak8963_enable);
    assert_eq!(MpuConfig::new(), c);
}

#[test]
fn sensitivities_per_range() {
    let c = MpuConfig::new();
    assert_eq!(c.accel_scale(AccelScale::G2).accel_sensitivity(), 16384);
    assert_eq!(c.accel_scale(AccelScale::G4).accel_sensitivity(), 8192);
    assert_eq!(c.accel_scale(AccelScale::G8).accel_sensitivity(), 4096);
    assert_eq!(c.accel_scale(AccelScale::G16).accel_sensitivity(), 2048);
    assert_eq!(c.gyro_scale(GyroScale::Dps250).gyro_sensitivity_x10(), 1310);
    assert_eq!(c.gyro_scale(GyroScale::Dps500).gyro_sensitivity_x10(), 655);
    assert_eq!(c.gyro_scale(GyroScale::Dps1000).gyro_sensitivity_x10(), 328);
    assert_eq!(c.gyro_scale(GyroScale::Dps2000).gyro_sensitivity_x10(), 164);
}

#[test]
fn builder_reset_then_init_with_default_config() {
    let b = Mpu9250Builder::new((), 0x69, None);
    let (reset, b) = b.reset();
    assert_eq!(reset, w(vec![0x6b, 0x80]));
    let (writes, mpu) = b.init();
    assert_eq!(
        writes,
        vec![
            w(vec![0x6b, 0x00]),
            w(vec![0x1a, 0x02]),
            w(vec![0x1d, 0x02]),
            w(vec![0x19, 0x01]),
            w(vec![0x1b, 0x18]),
            w(vec![0x1c, 0x10]),
        ]
    );
    assert_eq!(mpu.addr, 0x69);
    assert_eq!(mpu.config, MpuConfig::default());
}

#[test]
fn builder_init_applies_given_config_and_wakes_sensor() {
    let config = MpuConfig::new()
        .clock_source(ClkSel::AutoSelect1)
        .dlpf(Dlpf::Hz20)
        .sample_rate_div(4)
        .gyro_scale(GyroScale::Dps250)
        .accel_scale(AccelScale::G2)
        .sleep(true);
    let mut b = Mpu9250Builder::new(5u8, 0x69, Some(config));
    assert_eq!(*b.bus(), 5);
    *b.bus() = 6;
    let (_, b) = b.reset();
    let (writes, mpu) = b.init();
    assert_eq!(
        writes,
        vec![
            w(vec![0x6b, 0x01]),
            w(vec![0x1a, 0x04]),
            w(vec![0x1d, 0x04]),
            w(vec![0x19, 0x04]),
            w(vec![0x1b, 0x00]),
            w(vec![0x1c, 0x00]),
        ]
    );
    assert_eq!(mpu.i2c, 6);
    assert_eq!(mpu.config, config);
}
