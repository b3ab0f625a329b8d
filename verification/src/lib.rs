//! A single-slot, system-wide registry for the thread-local-storage (TLS)
//! data image used during early system bring-up, before a tasking subsystem
//! exists.
//!
//! The registry holds at most one image at a time. A privileged early-boot
//! caller installs an image with [`EarlyTlsRegistry::insert`], any processor
//! re-activates the installed image on itself with
//! [`EarlyTlsRegistry::reload`], and the caller that brings up full per-task
//! TLS finally retires the registry with [`EarlyTlsRegistry::drop_image`].
//! The slot is guarded by a spin-wait lock, the only kind of mutual
//! exclusion available before a scheduler exists.

pub mod cpu;
pub mod image;
pub mod model;
pub mod registry;
mod slot;

pub use cpu::TlsBaseRegister;
pub use image::base_of;
pub use image::TlsImage;
pub use registry::EarlyTlsRegistry;
