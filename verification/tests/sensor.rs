use mpu9250::builder::MpuConfig;
use mpu9250::bus::Transaction;
use mpu9250::error::Error;
use mpu9250::regs::{ClkSel, Config, GravityOffset, AccelOffset, Register, SmplrtDiv};
use mpu9250::sensor::{AccelScale, Dlpf, GyroScale, Mpu9250};

const ADDR: u8 = 0x68;

fn write(bytes: Vec<u8>) -> Transaction {
    Transaction::Write { addr: ADDR, bytes }
}

fn read(reg: u8, read_len: usize) -> Transaction {
    Transaction::WriteRead { addr: ADDR, bytes: vec![reg], read_len }
}

fn expected_config_writes() -> Vec<Transaction> {
    vec![
        write(vec![0x6b, 0x01]), // ClkSel::AutoSelect1
        write(vec![0x19, 10]),   // sample_rate_div = 10
        write(vec![0x1a, 0x02]), // Dlpf::Hz92
        write(vec![0x1d, 0x02]), // AccelConfig2
        write(vec![0x1b, 0x08]), // GyroConfig
        write(vec![0x1c, 0x08]), // AccelConfig1
        write(vec![0x37, 0x02]), // IntPinCfg
        write(vec![0x6a, 0x00]), // UserCtrl
    ]
}

#[test]
fn test_read_reg() {
    let sensor = Mpu9250::new((), ADDR);
    let t = sensor.read_reg(0x75);
    assert_eq!(t, read(0x75, 1));
}

#[test]
fn test_write_reg() {
    let sensor = Mpu9250::new((), ADDR);
    assert_eq!(sensor.write_reg(0x6b, 0x01), write(vec![0x6b, 0x01]));
}

#[test]
fn test_register_trait() {
    let sensor = Mpu9250::new((), ADDR);
    assert_eq!(sensor.read_register::<Config>(), read(0x1a, 1));
    let mut config = Config::from_u8(0x00);
    assert_eq!(config.to_u8(), 0x00);
    config.set_fifo_mode(true); // Bit 6 = 1 -> 0x40
    assert_eq!(sensor.write_register(config), write(vec![0x1a, 0x40]));
}

#[test]
fn test_apply_config() {
    let config = MpuConfig::new()
        .clock_source(ClkSel::AutoSelect1)
        .gyro_scale(GyroScale::Dps500)
        .accel_scale(AccelScale::G4)
        .dlpf(Dlpf::Hz92)
        .sample_rate_div(10)
        .ak8963_enable(true)
        .sleep(false);
    let sensor = Mpu9250::new((), ADDR);
    assert_eq!(sensor.apply_config(&config), expected_config_writes());
}

#[test]
fn test_read_reg_async() {
    let sensor = Mpu9250::new((), ADDR);
    assert_eq!(sensor.read_reg(0x75), read(0x75, 1));
}

#[test]
fn test_register_trait_async() {
    let sensor = Mpu9250::new((), ADDR);
    assert_eq!(sensor.read_register::<Config>(), read(0x1a, 1));
    let mut config = Config::from_u8(0x00);
    assert_eq!(config.to_u8(), 0x00);
    config.set_fifo_mode(true);
    assert_eq!(sensor.write_register(config), write(vec![0x1a, 0x40]));
}

#[test]
fn test_apply_config_async() {
    let config = MpuConfig::new()
        .clock_source(ClkSel::AutoSelect1)
        .gyro_scale(GyroScale::Dps500)
        .accel_scale(AccelScale::G4)
        .dlpf(Dlpf::Hz92)
        .sample_rate_div(10)
        .bypass_i2c(true)
        .sleep(false);
    let sensor = Mpu9250::new((), ADDR);
    assert_eq!(sensor.apply_config(&config), expected_config_writes());
}

#[test]
fn apply_config_sleeping_with_other_settings() {
    let config = MpuConfig::new()
        .clock_source(ClkSel::Stop)
        .gyro_scale(GyroScale::Dps2000)
        .accel_scale(AccelScale::G16)
        .dlpf(Dlpf::Hz5)
        .sample_rate_div(0xff)
        .ak8963_enable(false)
        .sleep(true);
    let sensor = Mpu9250::new((), 0x69);
    let w = |bytes: Vec<u8>| Transaction::Write { addr: 0x69, bytes };
    assert_eq!(
        sensor.apply_config(&config),
        vec![
            w(vec![0x6b, 0x47]),
            w(vec![0x19, 0xff]),
            w(vec![0x1a, 0x06]),
            w(vec![0x1d, 0x06]),
            w(vec![0x1b, 0x18]),
            w(vec![0x1c, 0x18]),
            w(vec![0x37, 0x00]),
            w(vec![0x6a, 0x00]),
        ]
    );
}

#[test]
fn config_applied_records_config_only() {
    let config = MpuConfig::new().dlpf(Dlpf::Hz41).sleep(true);
    let mut sensor = Mpu9250::new(3u8, 0x69);
    let writes = sensor.apply_config(&config);
    assert_eq!(writes.len(), 8);
    assert_eq!(sensor.config, MpuConfig::default());
    sensor.config_applied(config);
    assert_eq!(sensor.config, config);
    assert_eq!(sensor.i2c, 3);
    assert_eq!(sensor.addr, 0x69);
}

#[test]
fn register_written_is_read_back() {
    let sensor = Mpu9250::new((), ADDR);
    let mut c = Config::from_u8(0);
    c.set_dlpf_cfg(3);
    c.set_fifo_mode(true);
    let w = sensor.write_register(c);
    let r = sensor.read_register::<Config>();
    match (w, r) {
        (
            Transaction::Write { addr: wa, bytes },
            Transaction::WriteRead { addr: ra, bytes: rb, read_len: 1 },
        ) => {
            assert_eq!(wa, ra);
            assert_eq!(bytes[0], rb[0]);
            assert_eq!(Config::from_u8(bytes[1]), c);
        }
        other => panic!("unexpected {:?}", other),
    }
}

#[test]
fn new_driver_records_address_and_default_config() {
    let sensor = Mpu9250::new(7u32, 0x69);
    assert_eq!(sensor.i2c, 7);
    assert_eq!(sensor.addr, 0x69);
    assert_eq!(sensor.config, MpuConfig::default());
}

#[test]
fn who_am_i_and_reset_transfers() {
    let sensor = Mpu9250::new((), ADDR);
    assert_eq!(sensor.who_am_i(), read(0x75, 1));
    assert_eq!(sensor.reset(), write(vec![0x6b, 0x80]));
    assert_eq!(sensor.read_register::<SmplrtDiv>(), read(0x19, 1));
    assert_eq!(sensor.write_register(SmplrtDiv(9)), write(vec![0x19, 9]));
}

#[test]
fn block_reads_select_start_register_and_length() {
    let sensor = Mpu9250::new((), ADDR);
    assert_eq!(sensor.self_test_gyro(), read(0x00, 3));
    assert_eq!(sensor.self_test_accel(), read(0x0d, 3));
    assert_eq!(sensor.gravity_offset(), read(0x13, 6));
    assert_eq!(sensor.accel_offset(), read(0x77, 6));
    assert_eq!(sensor.fifo_count(), read(0x72, 2));
    assert_eq!(sensor.agt_data_raw(), read(0x3b, 14));
    assert_eq!(sensor.accel_out(), read(0x3b, 6));
    assert_eq!(sensor.temp_out(), read(0x41, 2));
    assert_eq!(sensor.gyro_out(), read(0x43, 6));
    assert_eq!(sensor.ext_sens_data(), read(0x49, 24));
    assert_eq!(sensor.read_bytes(0x20, 5), read(0x20, 5));
    assert_eq!(
        sensor.read_gat_data(),
        (read(0x43, 6), read(0x3b, 6), read(0x41, 2))
    );
}

#[test]
fn offset_writes_frame_register_and_bytes() {
    let sensor = Mpu9250::new((), ADDR);
    let g = GravityOffset([1, 2, 3, 4, 5, 6]);
    assert_eq!(
        sensor.set_gravity_offset(g),
        Ok(write(vec![0x13, 1, 2, 3, 4, 5, 6]))
    );
    let a = AccelOffset([0xff, 0xfe, 0, 2, 0x80, 0]);
    assert_eq!(
        sensor.set_accel_offset(a),
        Ok(write(vec![0x77, 0xff, 0xfe, 0, 2, 0x80, 0]))
    );
}

#[test]
fn write_bytes_accepts_up_to_31_data_bytes() {
    let sensor = Mpu9250::new((), ADDR);
    let data: Vec<u8> = (0..31).collect();
    let mut frame = vec![0x40u8];
    frame.extend_from_slice(&data);
    assert_eq!(sensor.write_bytes(0x40, &data), Ok(write(frame)));
    assert_eq!(sensor.write_bytes(0x40, &[]), Ok(write(vec![0x40])));
}

#[test]
fn write_bytes_rejects_32_data_bytes() {
    let sensor = Mpu9250::new((), ADDR);
    let data = [0u8; 32];
    assert_eq!(sensor.write_bytes(0x40, &data), Err(Error::I2CWriteError));
}

#[test]
fn slave_data_out_registers() {
    let sensor = Mpu9250::new((), ADDR);
    assert_eq!(sensor.set_slave_data_out(0, 0xaa), Ok(write(vec![0x63, 0xaa])));
    assert_eq!(sensor.set_slave_data_out(3, 0x55), Ok(write(vec![0x66, 0x55])));
    assert_eq!(sensor.slave_data_out(1), Ok(read(0x64, 1)));
    assert_eq!(sensor.slave_data_out(2), Ok(read(0x65, 1)));
}

#[test]
fn slave_data_out_rejects_slave_4() {
    let sensor = Mpu9250::new((), ADDR);
    assert_eq!(sensor.set_slave_data_out(4, 1), Err(Error::I2CWriteError));
    assert_eq!(sensor.slave_data_out(4), Err(Error::I2CReadError));
    assert_eq!(sensor.slave_data_out(255), Err(Error::I2CReadError));
}

#[test]
fn scale_and_filter_codes() {
    assert_eq!(GyroScale::Dps250.bits(), 0);
    assert_eq!(GyroScale::Dps2000.bits(), 3);
    assert_eq!(AccelScale::G2.bits(), 0);
    assert_eq!(AccelScale::G16.bits(), 3);
    assert_eq!(Dlpf::Hz250.bits(), 0);
    assert_eq!(Dlpf::Hz5.bits(), 6);
    assert_eq!(GyroScale::default(), GyroScale::Dps2000);
    assert_eq!(AccelScale::default(), AccelScale::G8);
    assert_eq!(Dlpf::default(), Dlpf::Hz92);
}
