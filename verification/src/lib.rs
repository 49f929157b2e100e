//! Typed buffers of device memory.
//!
//! A buffer owns one block of memory on a graphics device and keeps count of
//! the elements written to it. The element type fixes how many bytes an
//! element occupies and what they are, so that what reaches the device is the
//! host's representation of the data, byte for byte.
//!
//! Nothing here talks to a device. Every operation of a buffer returns the
//! commands that carry it out, and the caller issues them, in order, on the
//! thread that owns the device. `device` says what the commands do, as a
//! model and as a device in host memory; `laws` says what the commands of a
//! buffer achieve there.

pub mod bounding_box;
pub mod buffer;
pub mod byte_order;
pub mod command;
pub mod data_type;
pub mod device;
pub mod element_buffer;
pub mod instance_buffer;
pub mod laws;
mod sealed;
pub mod uniform_buffer;
pub mod vertex_buffer;

pub use bounding_box::{Axis, BoundingBox, Corner, Edge};
pub use buffer::{Buffer, BufferView};
pub use byte_order::ByteOrder;
pub use command::{Call, Command, Handle, Target, Usage};
pub use data_type::{
    BufferDataType, ElementBufferDataType, Float16, Float32, PrimitiveDataType,
};
pub use device::{Device, DeviceState};
pub use element_buffer::ElementBuffer;
pub use instance_buffer::InstanceBuffer;
pub use uniform_buffer::UniformBuffer;
pub use vertex_buffer::VertexBuffer;
