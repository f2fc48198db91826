//! Driver for the BNO055 nine-axis absolute orientation sensor.
//!
//! The driver brings the device from power-on into a known configuration and
//! moves it between operating modes, register pages, measurement units and
//! temperature sources, honouring the settle delays and ordering constraints
//! of the device's internal state machine.
//!
//! The physical bus and the delay source are consumed through the capability
//! traits in [`bus`]; every register transaction the driver performs is
//! recorded in a ghost history, and each public method states exactly which
//! transactions and delays it appends.

pub mod bus;
pub mod driver;
pub mod protocol;
pub mod reg_map;
pub mod sim;
pub mod types;
pub mod units;

pub use driver::Bno055;
pub use driver::DriverState;
pub use types::Error;
pub use types::OperationMode;
pub use types::PowerMode;
pub use types::RegisterPage;
pub use types::TempSource;
pub use units::AccUnit;
pub use units::EulerUnit;
pub use units::GyroUnit;
pub use units::Orientation;
pub use units::TempUnit;
pub use units::Unit;
