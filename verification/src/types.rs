//! Enumerations of the device's operating modes, register pages, power
//! modes and temperature sources, with the numeric codes the device expects
//! in its registers.
//!
//! No variant carries its wire code directly; each enumeration has one
//! encoding function, so the wire encoding lives in exactly one place.

use vstd::prelude::*;

verus! {

/// Failure of a driver operation.
#[derive(Debug)]
pub enum Error<E> {
    /// A bus transaction failed at the transport layer.
    I2c(E),
    /// The identity byte read during `init` did not match the configured
    /// address.
    InvalidChipId(u8),
}

/// Operating mode of the device: `Config`, or one of the twelve fusion and
/// non-fusion measurement modes. `Config` is the power-on default and the
/// only mode in which configuration registers accept writes.
#[derive(Debug, Clone, Copy, PartialEq, Eq, Structural)]
pub enum OperationMode {
    Config,
    Acc,
    Mag,
    Gyro,
    AccMag,
    Accgyro,
    MagGyro,
    Amg,
    Imu,
    Compass,
    M4g,
    NdofFmcOff,
    Ndof,
}

/// Code written to the operating-mode register for each mode.
pub open spec fn mode_code(m: OperationMode) -> u8 {
    match m {
        OperationMode::Config => 0x0,
        OperationMode::Acc => 0x1,
        OperationMode::Mag => 0x2,
        OperationMode::Gyro => 0x3,
        OperationMode::AccMag => 0x4,
        OperationMode::Accgyro => 0x5,
        OperationMode::MagGyro => 0x6,
        OperationMode::Amg => 0x7,
        OperationMode::Imu => 0x8,
        OperationMode::Compass => 0x9,
        OperationMode::M4g => 0xA,
        OperationMode::NdofFmcOff => 0xB,
        OperationMode::Ndof => 0xC,
    }
}

impl OperationMode {
    /// The code written to the operating-mode register.
    pub fn code(&self) -> (r: u8)
        ensures
            r == mode_code(*self),
    {
        match self {
            OperationMode::Config => 0x0,
            OperationMode::Acc => 0x1,
            OperationMode::Mag => 0x2,
            OperationMode::Gyro => 0x3,
            OperationMode::AccMag => 0x4,
            OperationMode::Accgyro => 0x5,
            OperationMode::MagGyro => 0x6,
            OperationMode::Amg => 0x7,
            OperationMode::Imu => 0x8,
            OperationMode::Compass => 0x9,
            OperationMode::M4g => 0xA,
            OperationMode::NdofFmcOff => 0xB,
            OperationMode::Ndof => 0xC,
        }
    }
}

/// Power mode of the device.
#[derive(Debug, Clone, Copy, PartialEq, Eq, Structural)]
pub enum PowerMode {
    Normal,
    LowPower,
    Suspend,
}

/// Code written to the power-mode register for each power mode.
pub open spec fn power_code(p: PowerMode) -> u8 {
    match p {
        PowerMode::Normal => 0b00,
        PowerMode::LowPower => 0b01,
        PowerMode::Suspend => 0b10,
    }
}

impl PowerMode {
    /// The code written to the power-mode register.
    pub fn code(&self) -> (r: u8)
        ensures
            r == power_code(*self),
    {
        match self {
            PowerMode::Normal => 0b00,
            PowerMode::LowPower => 0b01,
            PowerMode::Suspend => 0b10,
        }
    }
}

/// Register page: the address space is banked into exactly two pages, and
/// the active page is itself selected through a register write.
#[derive(Debug, Clone, Copy, PartialEq, Eq, Structural)]
pub enum RegisterPage {
    Page0,
    Page1,
}

/// Code written to the page-select register for each page.
pub open spec fn page_code(p: RegisterPage) -> u8 {
    match p {
        RegisterPage::Page0 => 0,
        RegisterPage::Page1 => 1,
    }
}

impl RegisterPage {
    /// The code written to the page-select register.
    pub fn code(&self) -> (r: u8)
        ensures
            r == page_code(*self),
    {
        match self {
            RegisterPage::Page0 => 0,
            RegisterPage::Page1 => 1,
        }
    }
}

/// Which internal sensor feeds the temperature register.
#[derive(Debug, Clone, Copy, PartialEq, Eq, Structural)]
pub enum TempSource {
    Accelerometer,
    Gyroscope,
}

/// Code written to the temperature-source register for each source.
pub open spec fn source_code(s: TempSource) -> u8 {
    match s {
        TempSource::Accelerometer => 0b00,
        TempSource::Gyroscope => 0b01,
    }
}

impl TempSource {
    /// The code written to the temperature-source register.
    pub fn code(&self) -> (r: u8)
        ensures
            r == source_code(*self),
    {
        match self {
            TempSource::Accelerometer => 0b00,
            TempSource::Gyroscope => 0b01,
        }
    }
}

} // verus!
