//! A minimal single-host container launcher: resolve an image through a
//! registry, materialise its layers into a private root, and run a command
//! inside it. The decisions of every stage live here and are verified; the
//! network, disk and process work is carried out by the caller.

pub mod error;
pub mod text;
pub mod image_ref;
pub mod platform;
pub mod manifest;
pub mod registry;
pub mod layer;
pub mod rootfs;
pub mod pull;
pub mod exec;
