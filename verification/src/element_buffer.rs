//! A buffer of indices into vertex buffers.

use crate::buffer::{fill_calls, fill_subset_calls, initial_calls, max_count, Buffer, BufferView};
use crate::byte_order::ByteOrder;
use crate::command::{calls_of, Call, Command, Handle, Target};
use crate::data_type::{bytes_of, ElementBufferDataType};
use vstd::prelude::*;

verus! {

/// A buffer that holds the indices of the vertices of each triangle of a
/// mesh, three for each triangle. Its elements are unsigned integers, and it
/// is bound to the slot for indices, and to no other.
pub struct ElementBuffer<T: ElementBufferDataType> {
    buffer: Buffer<T>,
}

impl<T: ElementBufferDataType> View for ElementBuffer<T> {
    type V = BufferView;

    closed spec fn view(&self) -> BufferView {
        self.buffer@
    }
}

impl<T: ElementBufferDataType> ElementBuffer<T> {
    /// An empty buffer over the handle `id`, with elements laid out in
    /// `order`.
    pub fn with_byte_order(id: Handle, order: ByteOrder) -> (buffer: Self)
        ensures
            buffer@ == (BufferView { id, order, count: 0 }),
    {
        ElementBuffer { buffer: Buffer::with_byte_order(id, order) }
    }

    /// An empty buffer over the handle `id`, with elements laid out as the
    /// machine lays out its memory.
    pub fn new(id: Handle) -> (buffer: Self)
        ensures
            buffer@.id == id,
            buffer@.count == 0,
    {
        ElementBuffer { buffer: Buffer::new(id) }
    }

    /// A buffer over the handle `id` that holds `data`, with the commands
    /// that upload it. For no data there is nothing to upload.
    pub fn new_with_data(id: Handle, data: &[T]) -> (result: (Self, Vec<Command>))
        requires
            data@.len() <= u32::MAX,
        ensures
            result.0@.id == id,
            result.0@.count == data@.len(),
            data@.len() == 0 ==> result.1@.len() == 0,
            calls_of(result.1@) == initial_calls(
                Target::ElementArrayBuffer,
                result.0@,
                data@.len(),
                bytes_of(data@, result.0@.order),
            ),
    {
        let (buffer, commands) = Buffer::new_with_data_in(Target::ElementArrayBuffer, id, data);
        (ElementBuffer { buffer }, commands)
    }

    /// Replaces the contents of the buffer by `data`, whatever it held: the
    /// buffer then holds `data.len()` indices.
    pub fn fill(&mut self, data: &[T]) -> (commands: Vec<Command>)
        requires
            data@.len() <= u32::MAX,
        ensures
            final(self)@ == (BufferView { count: data@.len(), ..old(self)@ }),
            calls_of(commands@) == fill_calls(
                Target::ElementArrayBuffer,
                old(self)@,
                bytes_of(data@, old(self)@.order),
            ),
    {
        self.buffer.fill_in(Target::ElementArrayBuffer, data)
    }

    /// Overwrites the indices from `offset` on by `data` and leaves the
    /// others as they are. The buffer then holds `offset + data.len()`
    /// indices, unless it held more.
    ///
    /// Whether the store of the buffer is that large is for the caller to
    /// see to: a write past its end is left to the device to refuse.
    pub fn fill_subset(&mut self, offset: u32, data: &[T]) -> (commands: Vec<Command>)
        requires
            offset + data@.len() <= u32::MAX,
        ensures
            final(self)@ == (BufferView {
                count: max_count(old(self)@.count, offset as nat + data@.len()),
                ..old(self)@
            }),
            final(self)@.count >= old(self)@.count,
            calls_of(commands@) == fill_subset_calls(
                Target::ElementArrayBuffer,
                old(self)@,
                offset as nat * T::stride(),
                bytes_of(data@, old(self)@.order),
            ),
    {
        self.buffer.fill_subset_in(Target::ElementArrayBuffer, offset, data)
    }

    /// The number of indices that the buffer holds.
    pub fn count(&self) -> (count: u32)
        ensures
            count == self@.count,
    {
        self.buffer.attribute_count()
    }

    /// The number of whole triangles that the indices describe.
    pub fn triangle_count(&self) -> (count: u32)
        ensures
            count == self@.count / 3,
    {
        self.buffer.attribute_count() / 3
    }

    /// The command that puts the buffer into the slot for indices.
    /// Whatever was bound there before no longer is.
    pub fn bind(&self) -> (command: Command)
        ensures
            command@ == (Call::BindBuffer {
                target: Target::ElementArrayBuffer,
                buffer: Some(self@.id),
            }),
    {
        self.buffer.bind_in(Target::ElementArrayBuffer)
    }

    /// Ends the buffer: the command that releases its handle, and no other.
    pub fn release(self) -> (command: Command)
        ensures
            command@ == (Call::DeleteBuffer { buffer: self@.id }),
    {
        self.buffer.release()
    }

    /// The handle that the buffer owns.
    pub fn id(&self) -> (id: Handle)
        ensures
            id == self@.id,
    {
        self.buffer.id()
    }

    /// The byte order in which the indices are laid out.
    pub fn byte_order(&self) -> (order: ByteOrder)
        ensures
            order == self@.order,
    {
        self.buffer.byte_order()
    }
}

} // verus!
