//! Host-side preparation of what a guest virtual machine needs before it
//! boots: which APEX modules its payload disk carries and how that disk is
//! laid out, and the hand-over of platform devices to the VFIO driver together
//! with the device-tree overlay that describes them.

pub mod apex;
pub mod bus;
pub mod classpath;
pub mod config;
pub mod dtbo;
pub mod error;
pub mod handler;
pub mod metadata;
pub mod order;
pub mod package_manager;
pub mod path;
pub mod payload;
pub mod select;
pub mod text;
pub mod vfio;
