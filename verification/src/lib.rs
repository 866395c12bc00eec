//! A small rendering resource layer: shader programs, textures, framebuffers
//! and meshes, together with a decoder for the binary `.mdl` mesh format.
//!
//! Nothing in this crate talks to a graphics device. Every operation returns
//! the ordered list of [`device::DeviceCall`]s that the caller has to issue on
//! the thread that owns the device context, and takes as arguments whatever
//! the device answered before (object handles, compile and link status,
//! uniform locations). What each operation emits, and how it changes the
//! resource it is called on, is stated in its contract.

pub mod binding;
pub mod bytes;
pub mod device;
pub mod framebuffer;
pub mod glconst;
pub mod mdl_laws;
pub mod mesh;
pub mod program;
pub mod shader;
pub mod texture;
