//! A safety-oriented binding layer for device drivers.
//!
//! Independently compiled driver modules register themselves with a host
//! device subsystem, are matched against discovered hardware by identifier,
//! and manage the hardware resources (address regions, interrupt vectors)
//! and lifetime (reference-counted handles) of the devices they control.
//!
//! The host subsystem itself is out of scope; it is represented by the
//! explicit state in [`host`], and every operation of this layer states in
//! its contract exactly how it reads or changes that state.

pub mod device;
pub mod driver;
pub mod error;
pub mod host;
pub mod pci;
