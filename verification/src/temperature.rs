//! A temperature in degrees Celsius, held as a whole number of sixteenths of a
//! degree, as the sensor reports it.

use vstd::prelude::*;

verus! {

/// A temperature in sixteenths of a degree Celsius.
///
/// Every value of the sensor's 16-bit register is a temperature: nothing is
/// filtered out, so a reading far outside the sensor's range is passed on as
/// it came.
#[derive(Clone, Copy, Debug, PartialEq, Eq, Structural)]
pub struct Temperature {
    pub raw: i16,
}

/// The signed 16-bit number whose low byte is `lo` and whose high byte is `hi`.
pub open spec fn le_i16(lo: u8, hi: u8) -> int {
    let unsigned = lo as int + 256 * (hi as int);
    if unsigned >= 32768 {
        unsigned - 65536
    } else {
        unsigned
    }
}

impl Temperature {
    /// The temperature as a number of sixteenths of a degree.
    pub open spec fn sixteenths(self) -> int {
        self.raw as int
    }

    /// Sixteenths of a degree, without the sign.
    pub open spec fn magnitude(self) -> nat {
        if self.sixteenths() < 0 {
            (-self.sixteenths()) as nat
        } else {
            self.sixteenths() as nat
        }
    }

    /// The temperature of `raw` sixteenths of a degree.
    pub fn from_raw(raw: i16) -> (t: Temperature)
        ensures
            t.sixteenths() == raw,
    {
        Temperature { raw }
    }

    /// The temperature in the sensor's register pair, low byte first.
    pub fn from_le_bytes(lo: u8, hi: u8) -> (t: Temperature)
        ensures
            t.sixteenths() == le_i16(lo, hi),
    {
        let raw: i16 = if hi >= 128 {
            ((hi as i32 - 256) * 256 + lo as i32) as i16
        } else {
            (hi as i16) * 256 + lo as i16
        };
        Temperature { raw }
    }

    /// The number of sixteenths of a degree.
    pub fn raw(&self) -> (r: i16)
        ensures
            r == self.sixteenths(),
    {
        self.raw
    }

    /// Whether the temperature is below zero.
    pub fn is_negative(&self) -> (b: bool)
        ensures
            b == (self.sixteenths() < 0),
    {
        self.raw < 0
    }

    /// The whole degrees of the temperature, without the sign.
    pub fn whole_degrees(&self) -> (d: u16)
        ensures
            d == self.magnitude() / 16,
            d <= 2048,
    {
        self.abs_sixteenths() / 16
    }

    /// What is left over the whole degrees, in sixteenths.
    pub fn fraction_sixteenths(&self) -> (f: u8)
        ensures
            f == self.magnitude() % 16,
            f < 16,
    {
        (self.abs_sixteenths() % 16) as u8
    }

    /// Sixteenths of a degree, without the sign.
    pub fn abs_sixteenths(&self) -> (m: u16)
        ensures
            m == self.magnitude(),
            m <= 32768,
    {
        if self.raw < 0 {
            (-(self.raw as i32)) as u16
        } else {
            self.raw as u16
        }
    }
}

} // verus!
