use bitfield::{Bit, BitRange};
use mpu9250::bits::{decode_be_i16, get_bit, get_field, set_bit, set_field};
use mpu9250::regs::{
    AccelConfig1, AccelOffset, AccelOut, AgtDataOut, ClkSel, Config, ExtSensData, FifoCount,
    FifoRW, GravityOffset, GyroConfig, GyroOut, I2CMstStatus, IntPinCfg, PwrMGMT1, Register,
    SelfTestAccel, SelfTestGyro, TempOut, UserCtrl,
};

#[test]
fn self_test_codes_are_signed_bytes() {
    assert_eq!(SelfTestGyro([0x00, 0x7f, 0x80]).self_test_gyro(), (0, 127, -128));
    assert_eq!(SelfTestAccel([0xff, 0x01, 0xfe]).self_test_accel(), (-1, 1, -2));
}

#[test]
fn gravity_offset_words_are_big_endian() {
    let g = GravityOffset([0x12, 0x34, 0xff, 0xff, 0x80, 0x00]);
    assert_eq!(g.gravity_offset(), (0x1234, -1, -32768));
}

#[test]
fn agt_sample_decodes_seven_words_in_register_order() {
    let raw = AgtDataOut([
        0x00, 0x01, 0x7f, 0xff, 0x80, 0x00, 0xff, 0xfe, 0x12, 0x34, 0xab, 0xcd, 0x00, 0x00,
    ]);
    assert_eq!(raw.agt_out(), (1, 32767, -32768, -2, 0x1234, -21555, 0));
}

#[test]
fn combined_sample_matches_separate_samples() {
    let bytes: [u8; 14] = [3, 200, 17, 5, 250, 1, 0x81, 0x10, 9, 9, 0xc0, 0, 0x7f, 0x80];
    let (ax, ay, az, t, gx, gy, gz) = AgtDataOut(bytes).agt_out();
    let a = AccelOut([bytes[0], bytes[1], bytes[2], bytes[3], bytes[4], bytes[5]]);
    let tt = TempOut([bytes[6], bytes[7]]);
    let g = GyroOut([bytes[8], bytes[9], bytes[10], bytes[11], bytes[12], bytes[13]]);
    assert_eq!(a.accel_out(), (ax, ay, az));
    assert_eq!(tt.temp_out(), t);
    assert_eq!(g.gyro_out(), (gx, gy, gz));
}

#[test]
fn temp_and_axes_words() {
    assert_eq!(TempOut([0xf0, 0x60]).temp_out(), -4000);
    assert_eq!(AccelOut([0x10, 0x00, 0xf0, 0x00, 0, 0]).accel_out(), (4096, -4096, 0));
    assert_eq!(GyroOut([0, 164, 0xff, 0x5c, 0x7f, 0xff]).gyro_out(), (164, -164, 32767));
}

#[test]
fn decode_matches_std_big_endian() {
    for hi in [0u8, 1, 0x7f, 0x80, 0xc3, 0xff] {
        for lo in [0u8, 1, 0x55, 0x80, 0xff] {
            assert_eq!(decode_be_i16(hi, lo), i16::from_be_bytes([hi, lo]));
        }
    }
}

#[test]
fn ext_sens_data_is_unchanged() {
    let mut bytes = [0u8; 24];
    for (i, b) in bytes.iter_mut().enumerate() {
        *b = (i * 11) as u8;
    }
    assert_eq!(ExtSensData(bytes).ext_sens_data(), bytes);
}

#[test]
fn fifo_count_ignores_top_three_bits() {
    assert_eq!(FifoCount([0x01, 0x02]).fifo_count(), 0x0102);
    assert_eq!(FifoCount([0xff, 0xff]).fifo_count(), 0x1fff);
    assert_eq!(FifoCount([0xe0, 0x07]).fifo_count(), 7);
}

#[test]
fn accel_offset_halves_rounding_down() {
    let a = AccelOffset([0x00, 0x07, 0xff, 0xff, 0x80, 0x01]);
    assert_eq!(a.accel_offset(), (3, -1, -16384));
    let b = AccelOffset([0xff, 0xfd, 0x7f, 0xff, 0x00, 0x00]);
    assert_eq!(b.accel_offset(), (-2, 16383, 0));
}

#[test]
fn field_helpers_agree_with_bitfield_crate() {
    for v in 0..=255u8 {
        for lsb in 0..8u8 {
            for msb in lsb..8u8 {
                let expected: u8 = BitRange::<u8>::bit_range(&v, msb as usize, lsb as usize);
                assert_eq!(get_field(v, msb, lsb), expected);
                for x in [0u8, 1, 2, 5, 0x55, 0xff] {
                    let mut w = v;
                    bitfield::BitRangeMut::<u8>::set_bit_range(&mut w, msb as usize, lsb as usize, x);
                    assert_eq!(set_field(v, msb, lsb, x), w);
                }
            }
            assert_eq!(get_bit(v, lsb), Bit::bit(&v, lsb as usize));
            for b in [false, true] {
                let mut w = v;
                bitfield::BitMut::set_bit(&mut w, lsb as usize, b);
                assert_eq!(set_bit(v, lsb, b), w);
            }
        }
    }
}

#[test]
fn config_register_fields() {
    let mut c = Config::default();
    c.set_fifo_mode(true);
    assert_eq!(c.to_u8(), 0x40);
    c.set_ext_sync_set(5);
    assert_eq!(c.to_u8(), 0x68);
    c.set_dlpf_cfg(0x0f);
    assert_eq!(c.to_u8(), 0x6f);
    assert_eq!(c.dlpf_cfg(), 7);
    assert_eq!(c.ext_sync_set(), 5);
    assert!(c.fifo_mode());
    c.set_fifo_mode(false);
    assert_eq!(c.to_u8(), 0x2f);
}

#[test]
fn gyro_and_accel_config_fields() {
    let mut g = GyroConfig(0);
    g.set_gyro_fs_sel(3);
    g.set_xgyro_ct_en(true);
    g.set_fchoice_b(2);
    assert_eq!(g.0, 0x9a);
    assert_eq!(g.gyro_fs_sel(), 3);
    assert_eq!(g.fchoice_b(), 2);
    assert!(g.xgyro_ct_en());
    assert!(!g.ygyro_ct_en());
    let mut a = AccelConfig1(0xff);
    a.set_accel_fs_sel(1);
    assert_eq!(a.0, 0xef);
    assert_eq!(a.accel_fs_sel(), 1);
}

#[test]
fn pwr_mgmt_1_clock_source_field() {
    let mut p = PwrMGMT1(0x80);
    p.set_clksel(ClkSel::Internal20M2);
    assert_eq!(p.0, 0x86);
    assert_eq!(p.clksel(), ClkSel::Internal20M2);
    assert!(p.h_reset());
    p.set_sleep(true);
    assert_eq!(p.0, 0xc6);
    assert_eq!(PwrMGMT1(0x3f).clksel(), ClkSel::Stop);
}

#[test]
fn status_register_reads_bits() {
    let s = I2CMstStatus(0b1010_0001);
    assert!(s.pass_through());
    assert!(!s.i2c_slv4_done());
    assert!(s.i2c_lost_arb());
    assert!(s.i2c_slv0_nack());
    assert!(!s.i2c_slv1_nack());
}

#[test]
fn int_pin_and_user_ctrl_fields() {
    let mut i = IntPinCfg(0);
    i.set_bypass_en(true);
    i.set_actl(true);
    assert_eq!(i.0, 0x82);
    let mut u = UserCtrl(0xff);
    u.set_i2c_mst_en(false);
    assert_eq!(u.0, 0xdf);
}

#[test]
fn register_addresses_and_round_trip() {
    assert_eq!(Config::address(), 0x1a);
    assert_eq!(PwrMGMT1::address(), 0x6b);
    assert_eq!(FifoRW::address(), 0x74);
    assert_eq!(I2CMstStatus::address(), 0x36);
    for v in [0u8, 0x5a, 0xff] {
        assert_eq!(UserCtrl::from_u8(v).to_u8(), v);
        assert_eq!(FifoRW::from_u8(v), FifoRW(v));
    }
}

#[test]
fn clk_sel_codes_round_trip() {
    let all = [
        ClkSel::Internal20M1,
        ClkSel::AutoSelect1,
        ClkSel::AutoSelect2,
        ClkSel::AutoSelect3,
        ClkSel::AutoSelect4,
        ClkSel::AutoSelect5,
        ClkSel::Internal20M2,
        ClkSel::Stop,
    ];
    for (i, c) in all.iter().enumerate() {
        assert_eq!(c.bits(), i as u8);
        assert_eq!(ClkSel::from_u8(i as u8), *c);
        let b: u8 = (*c).into();
        assert_eq!(b, i as u8);
    }
}

#[test]
fn fields_agree_with_division_and_remainder() {
    for v in 0..=255u8 {
        for lsb in 0..8u32 {
            for msb in lsb..8u32 {
                let p = 1u32 << lsb;
                let q = 1u32 << (msb - lsb + 1);
                let f = (v as u32 / p) % q;
                assert_eq!(get_field(v, msb as u8, lsb as u8) as u32, f);
                for x in [0u8, 3, 0x80, 0xff] {
                    let expected = v as u32 - f * p + (x as u32 % q) * p;
                    assert_eq!(set_field(v, msb as u8, lsb as u8, x) as u32, expected);
                }
            }
        }
    }
}
