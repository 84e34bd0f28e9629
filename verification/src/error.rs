//! Errors reported by the driver.
use vstd::prelude::*;

verus! {

/// Why an operation on the sensor failed.
#[derive(Debug, Clone, Copy, PartialEq, Eq)]
pub enum Error {
    /// A transfer that reads from the sensor failed, or its request was invalid.
    I2CReadError,
    /// A transfer that writes to the sensor failed, or its request was invalid.
    I2CWriteError,
    /// The bus kept failing with an unclassified error until the retries ran out.
    Timeout,
}

} // verus!
