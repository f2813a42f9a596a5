//! The decisions of a small boot loader for devices with several image slots.
//!
//! The loader keeps a [`state::State`] in non volatile memory. From it, it decides which
//! slot to boot, what to store before it does so, and where to fall back when an image
//! does not start. An image is admitted only after its root keys have been held against
//! the device's and the boot ROM has authenticated it.
pub mod application;
pub mod application_laws;
pub mod boot;
pub mod boot_laws;
pub mod check;
pub mod check_laws;
pub mod error;
pub mod fuses;
pub mod image;
pub mod image_laws;
pub mod plan;
pub mod policy;
pub mod rkh;
pub mod rkh_laws;
pub mod state;
