//! The requesting side: the socket that applications hold and its driver.

pub mod correlation;
pub mod driver;
pub mod socket;
