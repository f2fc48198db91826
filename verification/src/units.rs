//! Measurement-unit selection: five independent axes packed into the single
//! byte the unit-selection register expects.
//!
//! Packing layout, least-significant bit first: accelerometer (bit 0),
//! gyroscope (bit 1), Euler angles (bit 2), reserved (bit 3), temperature
//! (bit 4), reserved (bits 5 and 6), orientation convention (bit 7).

use vstd::prelude::*;

verus! {

/// Orientation convention of the fusion output.
#[derive(Debug, Clone, Copy, PartialEq, Eq, Structural)]
pub enum Orientation {
    Windows,
    Android,
}

/// Unit of the temperature register.
#[derive(Debug, Clone, Copy, PartialEq, Eq, Structural)]
pub enum TempUnit {
    Celcius,
    Fahrenheit,
}

/// Unit of the Euler-angle registers.
#[derive(Debug, Clone, Copy, PartialEq, Eq, Structural)]
pub enum EulerUnit {
    Degrees,
    Radians,
}

/// Unit of the gyroscope registers.
#[derive(Debug, Clone, Copy, PartialEq, Eq, Structural)]
pub enum GyroUnit {
    DegreesPerSecond,
    RadiansPerSecons,
}

/// Unit of the accelerometer registers.
#[derive(Debug, Clone, Copy, PartialEq, Eq, Structural)]
pub enum AccUnit {
    MetersPerSecond,
    MilliG,
}

/// Bit value of the orientation axis (bit 7).
pub open spec fn orientation_code(o: Orientation) -> u8 {
    match o {
        Orientation::Windows => 0,
        Orientation::Android => 1,
    }
}

/// Bit value of the temperature axis (bit 4).
pub open spec fn temp_unit_code(t: TempUnit) -> u8 {
    match t {
        TempUnit::Celcius => 0,
        TempUnit::Fahrenheit => 1,
    }
}

/// Bit value of the Euler-angle axis (bit 2).
pub open spec fn euler_code(e: EulerUnit) -> u8 {
    match e {
        EulerUnit::Degrees => 0,
        EulerUnit::Radians => 1,
    }
}

/// Bit value of the gyroscope axis (bit 1).
pub open spec fn gyro_code(g: GyroUnit) -> u8 {
    match g {
        GyroUnit::DegreesPerSecond => 0,
        GyroUnit::RadiansPerSecons => 1,
    }
}

/// Bit value of the accelerometer axis (bit 0).
pub open spec fn acc_code(a: AccUnit) -> u8 {
    match a {
        AccUnit::MetersPerSecond => 0,
        AccUnit::MilliG => 1,
    }
}

/// A choice of unit for each of the five axes.
#[derive(Debug, Clone, Copy, PartialEq, Eq, Structural)]
pub struct Unit {
    pub orientation: Orientation,
    pub temperature: TempUnit,
    pub euler: EulerUnit,
    pub gyro: GyroUnit,
    pub acc: AccUnit,
}

/// The packed byte written to the unit-selection register: each axis at its
/// bit position of the layout above.
pub open spec fn unit_byte(u: Unit) -> u8 {
    acc_code(u.acc) | (gyro_code(u.gyro) << 1) | (euler_code(u.euler) << 2) | (temp_unit_code(
        u.temperature,
    ) << 4) | (orientation_code(u.orientation) << 7)
}

impl Orientation {
    /// The bit written at position 7 of the unit-selection byte.
    pub fn code(&self) -> (r: u8)
        ensures
            r == orientation_code(*self),
    {
        match self {
            Orientation::Windows => 0,
            Orientation::Android => 1,
        }
    }
}

impl TempUnit {
    /// The bit written at position 4 of the unit-selection byte.
    pub fn code(&self) -> (r: u8)
        ensures
            r == temp_unit_code(*self),
    {
        match self {
            TempUnit::Celcius => 0,
            TempUnit::Fahrenheit => 1,
        }
    }
}

impl EulerUnit {
    /// The bit written at position 2 of the unit-selection byte.
    pub fn code(&self) -> (r: u8)
        ensures
            r == euler_code(*self),
    {
        match self {
            EulerUnit::Degrees => 0,
            EulerUnit::Radians => 1,
        }
    }
}

impl GyroUnit {
    /// The bit written at position 1 of the unit-selection byte.
    pub fn code(&self) -> (r: u8)
        ensures
            r == gyro_code(*self),
    {
        match self {
            GyroUnit::DegreesPerSecond => 0,
            GyroUnit::RadiansPerSecons => 1,
        }
    }
}

impl AccUnit {
    /// The bit written at position 0 of the unit-selection byte.
    pub fn code(&self) -> (r: u8)
        ensures
            r == acc_code(*self),
    {
        match self {
            AccUnit::MetersPerSecond => 0,
            AccUnit::MilliG => 1,
        }
    }
}

impl Unit {
    /// The packed unit-selection byte for this choice of units.
    pub fn byte(&self) -> (r: u8)
        ensures
            r == unit_byte(*self),
    {
        self.acc.code() | (self.gyro.code() << 1) | (self.euler.code() << 2) | (
        self.temperature.code() << 4) | (self.orientation.code() << 7)
    }
}

} // verus!
