//! Sessions with a USB Test-and-Measurement-Class instrument that the operating
//! system exposes as a character device.
//!
//! The crate makes no system call. The caller performs each call and hands its
//! outcome to the session, which decides what the operation returns; the
//! contracts of [`UsbTmcDevice`] state that decision for every outcome.

pub mod device;
pub mod error;

pub use device::{UsbTmcDevice, USBTMC_IOCTL_API_VERSION, USBTMC_IOC_NR};
pub use error::Error;
