//! Register model and sans-I/O driver core for the InvenSense MPU9250
//! nine-axis inertial measurement unit.

pub mod bits;
pub mod regs;
pub mod error;
pub mod bus;
pub mod sensor;
pub mod builder;
