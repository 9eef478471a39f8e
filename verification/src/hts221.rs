//! The HTS221 humidity and temperature sensor: its register map, the decoding
//! of what its registers hold, and the state of the actor that drives it.
//!
//! The bus transfers themselves (write the register's address, read its bytes)
//! are done by the caller; this module says which register to ask for and what
//! the bytes that come back mean.
use vstd::prelude::*;

verus! {

/// Control register 1.
pub const CTRL_REG1: u8 = 0x20;

/// The sensor's 7-bit I2C address.
pub const ADDR: u8 = 0x5F;

/// The address byte of a write to the sensor.
pub const WRITE: u8 = 0xBE;

/// The address byte of a read from the sensor.
pub const READ: u8 = 0xBF;

/// The identification register.
pub const WHO_AM_I: u8 = 0x0F;

/// Raw temperature, low byte.
pub const T_OUT_L: u8 = 0x2A;

/// Raw temperature, high byte.
pub const T_OUT_H: u8 = 0x2B;

/// Raw temperature, both bytes (auto-increment form of `T_OUT_L`).
pub const T_OUT: u8 = 0xAA;

/// Raw output at the first calibration point, low byte.
pub const T0_OUT_L: u8 = 0x3C;

/// Raw output at the first calibration point, high byte.
pub const T0_OUT_H: u8 = 0x3D;

/// Raw output at the first calibration point, both bytes (auto-increment form).
pub const T0_OUT: u8 = 0xBC;

/// First calibration temperature in eighths of a degree, low eight bits.
pub const T0_DEGC_X8: u8 = 0x32;

/// Raw output at the second calibration point, low byte.
pub const T1_OUT_L: u8 = 0x3E;

/// Raw output at the second calibration point, high byte.
pub const T1_OUT_H: u8 = 0x3F;

/// Raw output at the second calibration point, both bytes (auto-increment form).
pub const T1_OUT: u8 = 0xBE;

/// Second calibration temperature in eighths of a degree, low eight bits.
pub const T1_DEGC_X8: u8 = 0x33;

/// The two high bits of both calibration temperatures.
pub const T1_T0_MSB: u8 = 0x35;

/// The value of two bytes read as a little-endian two's complement `i16`.
pub open spec fn le_i16(lo: u8, hi: u8) -> int {
    let u = lo + 256 * hi;
    if u < 0x8000 {
        u
    } else {
        u - 0x10000
    }
}

/// Reads two bytes as a little-endian `i16`, as `i16::from_le_bytes` does.
pub fn i16_from_le_bytes(buf: [u8; 2]) -> (v: i16)
    ensures
        v == le_i16(buf@[0], buf@[1]),
{
    let lo: u8 = buf[0];
    let hi: u8 = buf[1];
    let u: u16 = lo as u16 + (hi as u16) * 256;
    if u < 0x8000 {
        u as i16
    } else {
        (u as i32 - 0x10000) as i16
    }
}

/// The quantities that the driver reads from the sensor, one register each.
#[derive(Clone, Copy, Debug, PartialEq, Eq)]
pub enum Register {
    TOut,
    T0Out,
    T1Out,
    T0DegcX8,
    T1DegcX8,
    T1T0Msb,
}

impl Register {
    /// The register address that is written before the quantity is read.
    pub fn command(&self) -> (c: u8)
        ensures
            c == match *self {
                Register::TOut => T_OUT,
                Register::T0Out => T0_OUT,
                Register::T1Out => T1_OUT,
                Register::T0DegcX8 => T0_DEGC_X8,
                Register::T1DegcX8 => T1_DEGC_X8,
                Register::T1T0Msb => T1_T0_MSB,
            },
    {
        match self {
            Register::TOut => T_OUT,
            Register::T0Out => T0_OUT,
            Register::T1Out => T1_OUT,
            Register::T0DegcX8 => T0_DEGC_X8,
            Register::T1DegcX8 => T1_DEGC_X8,
            Register::T1T0Msb => T1_T0_MSB,
        }
    }

    /// How many bytes the quantity takes: two for the raw outputs, one otherwise.
    pub fn width(&self) -> (n: usize)
        ensures
            n == match *self {
                Register::TOut | Register::T0Out | Register::T1Out => 2usize,
                _ => 1usize,
            },
    {
        match self {
            Register::TOut | Register::T0Out | Register::T1Out => 2,
            _ => 1,
        }
    }
}

/// Splits the `T1_T0_MSB` register into the high bits of the two calibration
/// temperatures, `(t1_msb, t0_msb)`.
///
/// Each is the register masked and shifted right by two: `t1_msb` keeps bits
/// two and three, and `t0_msb` is always zero, since the mask `0b11` leaves
/// nothing above the two bits that the shift drops.
pub fn read_t1_t0_msb(reg: u8) -> (r: (u8, u8))
    ensures
        r.0 == (reg & 0b00001100u8) >> 2u8,
        r.1 == (reg & 0b00000011u8) >> 2u8,
        r.0 == (reg / 4) % 4,
        r.1 == 0,
{
    let t0_msb: u8 = (reg & 0b00000011u8) >> 2u8;
    let t1_msb: u8 = (reg & 0b00001100u8) >> 2u8;
    assert(t1_msb == (reg / 4) % 4 && t0_msb == 0) by (bit_vector)
        requires
            t0_msb == (reg & 0b00000011u8) >> 2u8,
            t1_msb == (reg & 0b00001100u8) >> 2u8,
    ;
    (t1_msb, t0_msb)
}

/// The integer inputs of the linear calibration of a temperature reading.
///
/// The temperature in degrees is
/// `t0_degc_x8 / 8 + (t1_degc_x8 - t0_degc_x8) / 8 / out_span * out_offset`.
#[derive(Clone, Copy, Debug, PartialEq, Eq)]
pub struct TemperatureTerms {
    /// First calibration temperature, in eighths of a degree.
    pub t0_degc_x8: i16,
    /// Second calibration temperature, in eighths of a degree.
    pub t1_degc_x8: i16,
    /// Raw output at the second calibration point minus that at the first.
    pub out_span: i16,
    /// Raw reading minus the raw output at the first calibration point.
    pub out_offset: i16,
}

/// Whether the two raw differences of a calibration fit in an `i16`.
pub open spec fn terms_fit(t_out: i16, t0_out: i16, t1_out: i16) -> bool {
    &&& i16::MIN <= t1_out - t0_out <= i16::MAX
    &&& i16::MIN <= t_out - t0_out <= i16::MAX
}

/// Combines the six readings of the sensor into the calibration terms.
///
/// The calibration temperatures are the low byte read from `T0_DEGC_X8` or
/// `T1_DEGC_X8` with the bits that `read_t1_t0_msb` extracts as high byte.
/// The two differences are `i16` subtractions, which must not overflow.
pub fn temperature_terms(
    t_out: i16,
    t0_out: i16,
    t1_out: i16,
    t0_degc_lsb: u8,
    t1_degc_lsb: u8,
    t1_t0_msb: u8,
) -> (terms: TemperatureTerms)
    requires
        terms_fit(t_out, t0_out, t1_out),
    ensures
        terms.t0_degc_x8 == le_i16(t0_degc_lsb, 0),
        terms.t1_degc_x8 == le_i16(t1_degc_lsb, ((t1_t0_msb / 4) % 4) as u8),
        terms.t0_degc_x8 == t0_degc_lsb,
        terms.t1_degc_x8 == t1_degc_lsb + 256 * ((t1_t0_msb / 4) % 4),
        0 <= terms.t0_degc_x8 < 256,
        0 <= terms.t1_degc_x8 < 1024,
        terms.out_span == t1_out - t0_out,
        terms.out_offset == t_out - t0_out,
{
    let (t1_msb, t0_msb) = read_t1_t0_msb(t1_t0_msb);
    let t0_degc_x8 = i16_from_le_bytes([t0_degc_lsb, t0_msb]);
    let t1_degc_x8 = i16_from_le_bytes([t1_degc_lsb, t1_msb]);
    TemperatureTerms {
        t0_degc_x8,
        t1_degc_x8,
        out_span: t1_out - t0_out,
        out_offset: t_out - t0_out,
    }
}

/// A request to the actor that gives it the bus to reach the sensor through.
pub struct SetI2c<A>(pub A);

/// A request to the actor to read the temperature.
pub struct TakeReading;

/// The actor that drives the sensor; it holds the bus once one was given.
pub struct Hts221<A> {
    i2c: Option<A>,
}

impl<A> Hts221<A> {
    /// The bus the actor reads through, if it was given one.
    pub closed spec fn bus(&self) -> Option<A> {
        self.i2c
    }

    /// The actor as it stands after it was given `bus`.
    pub closed spec fn with_bus(self, bus: A) -> Self {
        Hts221 { i2c: Some(bus) }
    }

    /// An actor that has no bus yet.
    pub fn new() -> (h: Self)
        ensures
            h.bus() is None,
    {
        Hts221 { i2c: None }
    }

    /// Takes the bus that the message carries, in place of any earlier one.
    pub fn on_set_i2c(&mut self, message: SetI2c<A>)
        ensures
            *final(self) == old(self).with_bus(message.0),
    {
        self.i2c = Some(message.0);
    }

    /// The bus that a reading goes through; `None` while no bus was given,
    /// and then the request does nothing.
    pub fn on_take_reading(&self, message: TakeReading) -> (bus: Option<&A>)
        ensures
            bus is Some <==> self.bus() is Some,
            bus matches Some(b) ==> self.bus() == Some(*b),
    {
        match &self.i2c {
            Some(b) => Some(b),
            None => None,
        }
    }

    /// A reading goes through the bus given last, whatever was given before.
    pub proof fn lemma_reading_uses_last_bus(h: Self, bus: A)
        ensures
            h.with_bus(bus).bus() == Some(bus),
    {
    }

    /// Giving a bus twice leaves the actor as giving it the second alone.
    pub proof fn lemma_last_bus_wins(h: Self, first: A, second: A)
        ensures
            h.with_bus(first).with_bus(second) == h.with_bus(second),
    {
    }
}

} // verus!
