//! Register-level driver for the NCT3933 three-channel sink/source current DAC.
//!
//! `codec` holds the bit layout of the device registers as pure functions;
//! `device` holds the handle and its single-register bus transactions over an
//! `embedded_hal` I2C bus; `nct3933` builds the device's operations on them.
pub mod codec;
pub mod device;
pub mod errors;
pub mod nct3933;

pub use errors::NCT3933Error;
pub use device::NCT3933;
pub use device::NCT3933 as NCT3933Sync;
