//! GPU resource lifecycle and transfer synchronisation.
//!
//! Native handles are plain `u64`s and device memory is modelled as a map from
//! handle to bytes. Buffers, images and textures record their uploads as
//! [`command::Command`]s into a [`command_buffer::CommandBuffer`], whose
//! meaning on memory is [`command::run`], and hand back the resources that
//! the caller must free, so that nothing is freed twice or while the GPU may
//! still read it.

pub mod buffer;
pub mod command;
pub mod command_buffer;
pub mod device;
pub mod image;
pub mod renderer;
pub mod texture;
pub mod transfer;
pub mod types;
