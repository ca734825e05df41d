//! Taking ownership of what a native hardware-monitoring layer hands out.
//!
//! The native layer hands out opaque handles, texts and category tags, one
//! record per array slot. This crate turns such records into owned
//! [`Hardware`] and [`Sensor`] values, all or nothing, and empties every slot
//! it takes from, so that nothing the native side handed over is owned twice.

pub mod category;
pub mod computer;
pub mod convert;
pub mod error;
pub mod handle;
pub mod hardware;
pub mod helpers;
pub mod native;
pub mod sensor;

pub use category::{FFIHardwareType, FFISensorType};
pub use computer::Computer;
pub use error::ComputerError;
pub use handle::FFIGCHandle;
pub use hardware::Hardware;
pub use native::{FFIHardware, FFISensor};
pub use sensor::Sensor;
