use drogue_board::hts221::{
    i16_from_le_bytes, read_t1_t0_msb, temperature_terms, Hts221, Register, SetI2c, TakeReading,
    TemperatureTerms, T0_DEGC_X8, T0_OUT, T1_DEGC_X8, T1_OUT, T1_T0_MSB, T_OUT,
};

#[test]
fn le_bytes_positive() {
    assert_eq!(i16_from_le_bytes([0x34, 0x12]), 0x1234);
    assert_eq!(i16_from_le_bytes([0x34, 0x12]), i16::from_le_bytes([0x34, 0x12]));
}

#[test]
fn le_bytes_negative() {
    assert_eq!(i16_from_le_bytes([0xff, 0xff]), -1);
    assert_eq!(i16_from_le_bytes([0x00, 0x80]), i16::MIN);
    assert_eq!(i16_from_le_bytes([0xff, 0x7f]), i16::MAX);
}

#[test]
fn le_bytes_agrees_with_std_everywhere() {
    for hi in 0..=255u8 {
        for lo in 0..=255u8 {
            assert_eq!(i16_from_le_bytes([lo, hi]), i16::from_le_bytes([lo, hi]));
        }
    }
}

#[test]
fn msb_split() {
    assert_eq!(read_t1_t0_msb(0b0000_1111), (3, 0));
    assert_eq!(read_t1_t0_msb(0b0000_0100), (1, 0));
    assert_eq!(read_t1_t0_msb(0b0000_0011), (0, 0));
    assert_eq!(read_t1_t0_msb(0b1111_0000), (0, 0));
    assert_eq!(read_t1_t0_msb(0xff), (3, 0));
}

#[test]
fn t0_msb_is_always_zero() {
    for reg in 0..=255u8 {
        let (t1, t0) = read_t1_t0_msb(reg);
        assert_eq!(t0, 0);
        assert_eq!(t1, (reg >> 2) & 0b11);
    }
}

#[test]
fn register_commands() {
    assert_eq!(Register::TOut.command(), T_OUT);
    assert_eq!(Register::T0Out.command(), T0_OUT);
    assert_eq!(Register::T1Out.command(), T1_OUT);
    assert_eq!(Register::T0DegcX8.command(), T0_DEGC_X8);
    assert_eq!(Register::T1DegcX8.command(), T1_DEGC_X8);
    assert_eq!(Register::T1T0Msb.command(), T1_T0_MSB);
    assert_eq!(T_OUT, 0xAA);
    assert_eq!(T0_OUT, 0xBC);
    assert_eq!(T1_OUT, 0xBE);
}

#[test]
fn register_widths() {
    assert_eq!(Register::TOut.width(), 2);
    assert_eq!(Register::T0Out.width(), 2);
    assert_eq!(Register::T1Out.width(), 2);
    assert_eq!(Register::T0DegcX8.width(), 1);
    assert_eq!(Register::T1DegcX8.width(), 1);
    assert_eq!(Register::T1T0Msb.width(), 1);
}

#[test]
fn terms_of_a_reading() {
    let t = temperature_terms(100, 50, 300, 160, 200, 0b0000_0100);
    assert_eq!(
        t,
        TemperatureTerms { t0_degc_x8: 160, t1_degc_x8: 456, out_span: 250, out_offset: 50 }
    );
}

#[test]
fn terms_ignore_t0_msb_bits() {
    // The low two bits of the register do not reach the first calibration point.
    let t = temperature_terms(-10, -20, 20, 0xff, 0xff, 0b0000_1111);
    assert_eq!(t.t0_degc_x8, 0xff);
    assert_eq!(t.t1_degc_x8, 0x3ff);
    assert_eq!(t.out_span, 40);
    assert_eq!(t.out_offset, 10);
}

#[test]
fn actor_reads_only_with_a_bus() {
    let mut h: Hts221<u32> = Hts221::new();
    assert!(h.on_take_reading(TakeReading).is_none());
    h.on_set_i2c(SetI2c(7));
    assert_eq!(h.on_take_reading(TakeReading), Some(&7));
    h.on_set_i2c(SetI2c(9));
    assert_eq!(h.on_take_reading(TakeReading), Some(&9));
}
