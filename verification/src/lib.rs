//! A type-safety layer over a stateful native graphics driver whose calls
//! exchange opaque 32-bit object names and numeric constants.
//!
//! The library provides:
//! - sentinel-free object names: the raw value 0 is reserved to mean
//!   "absent", so an optional name occupies exactly the storage of a
//!   present one (`name`);
//! - bulk, checked conversion between sequences of required names and
//!   sequences of optional names (`name`);
//! - a dual compile-time/run-time encoding of the closed enumerations of
//!   driver constants (`symbols`, `enums`);
//! - a resource lifecycle state machine for shader compilation and
//!   program linking, whose status requeries are driven by values read
//!   back from the driver (`shader`, `program`).
//!
//! The driver itself is an external collaborator: every function here is
//! pure computation over plain values, and the caller performs the actual
//! driver calls between them.

pub mod attribute_format;
pub mod buffer_target;
pub mod convert;
pub mod enums;
pub mod framebuffer_attachment;
pub mod framebuffer_status;
pub mod framebuffer_target;
pub mod gl;
pub mod info_log;
pub mod locations;
pub mod matrix;
pub mod name;
pub mod num;
pub mod param;
pub mod program;
pub mod shader;
pub mod symbols;
pub mod texture_filter;
pub mod texture_parameter;
pub mod texture_target;
pub mod texture_unit;
pub mod texture_wrap;
pub mod traits;
pub mod uniform_location;
pub mod viewport;
