//! Register map and wire codec of the Orbita three-disk actuator.
//!
//! Every quantity that the actuator exposes is a register: a name, a place in
//! the device's register space, an access mode and a value type with a fixed
//! little-endian layout. This crate states which bytes, at which address,
//! mean which value. It performs no bus traffic of its own.

pub mod accessor;
mod bytes;
pub mod composite;
pub mod register;
pub mod scalar;
pub mod value;
