//! A buffer of per-instance attributes.

use crate::buffer::{fill_calls, fill_subset_calls, initial_calls, max_count, Buffer, BufferView};
use crate::byte_order::ByteOrder;
use crate::command::{calls_of, Call, Command, Handle, Target};
use crate::data_type::{bytes_of, BufferDataType};
use vstd::prelude::*;

verus! {

/// A buffer that holds one element for each instance of a mesh that is drawn
/// many times: a row of its transformation, a colour. It is bound to the slot
/// for vertex attributes, and to no other.
pub struct InstanceBuffer<T: BufferDataType> {
    buffer: Buffer<T>,
}

impl<T: BufferDataType> View for InstanceBuffer<T> {
    type V = BufferView;

    closed spec fn view(&self) -> BufferView {
        self.buffer@
    }
}

impl<T: BufferDataType> InstanceBuffer<T> {
    /// An empty buffer over the handle `id`, with elements laid out in
    /// `order`.
    pub fn with_byte_order(id: Handle, order: ByteOrder) -> (buffer: Self)
        ensures
            buffer@ == (BufferView { id, order, count: 0 }),
    {
        InstanceBuffer { buffer: Buffer::with_byte_order(id, order) }
    }

    /// An empty buffer over the handle `id`, with elements laid out as the
    /// machine lays out its memory.
    pub fn new(id: Handle) -> (buffer: Self)
        ensures
            buffer@.id == id,
            buffer@.count == 0,
    {
        InstanceBuffer { buffer: Buffer::new(id) }
    }

    /// A buffer over the handle `id` that holds `data`, with the commands
    /// that upload it. For no data there is nothing to upload.
    pub fn new_with_data(id: Handle, data: &[T]) -> (result: (Self, Vec<Command>))
        requires
            data@.len() <= u32::MAX,
        ensures
            result.0@.id == id,
            result.0@.count == data@.len(),
            data@.len() == 0 ==> result.1@.len() == 0,
            calls_of(result.1@) == initial_calls(
                Target::ArrayBuffer,
                result.0@,
                data@.len(),
                bytes_of(data@, result.0@.order),
            ),
    {
        let (buffer, commands) = Buffer::new_with_data_in(Target::ArrayBuffer, id, data);
        (InstanceBuffer { buffer }, commands)
    }

    /// Replaces the contents of the buffer by `data`, whatever it held: the
    /// buffer then holds `data.len()` instances.
    pub fn fill(&mut self, data: &[T]) -> (commands: Vec<Command>)
        requires
            data@.len() <= u32::MAX,
        ensures
            final(self)@ == (BufferView { count: data@.len(), ..old(self)@ }),
            calls_of(commands@) == fill_calls(
                Target::ArrayBuffer,
                old(self)@,
                bytes_of(data@, old(self)@.order),
            ),
    {
        self.buffer.fill_in(Target::ArrayBuffer, data)
    }

    /// Overwrites the instances from `offset` on by `data` and leaves the
    /// others as they are. The buffer then holds `offset + data.len()`
    /// instances, unless it held more.
    ///
    /// Whether the store of the buffer is that large is for the caller to
    /// see to: a write past its end is left to the device to refuse.
    pub fn fill_subset(&mut self, offset: u32, data: &[T]) -> (commands: Vec<Command>)
        requires
            offset + data@.len() <= u32::MAX,
        ensures
            final(self)@ == (BufferView {
                count: max_count(old(self)@.count, offset as nat + data@.len()),
                ..old(self)@
            }),
            final(self)@.count >= old(self)@.count,
            calls_of(commands@) == fill_subset_calls(
                Target::ArrayBuffer,
                old(self)@,
                offset as nat * T::stride(),
                bytes_of(data@, old(self)@.order),
            ),
    {
        self.buffer.fill_subset_in(Target::ArrayBuffer, offset, data)
    }

    /// The number of instances that the buffer holds.
    pub fn instance_count(&self) -> (count: u32)
        ensures
            count == self@.count,
    {
        self.buffer.attribute_count()
    }

    /// The command that puts the buffer into the slot for vertex attributes.
    /// Whatever was bound there before no longer is.
    pub fn bind(&self) -> (command: Command)
        ensures
            command@ == (Call::BindBuffer {
                target: Target::ArrayBuffer,
                buffer: Some(self@.id),
            }),
    {
        self.buffer.bind_in(Target::ArrayBuffer)
    }

    /// Ends the buffer: the command that releases its handle, and no other.
    pub fn release(self) -> (command: Command)
        ensures
            command@ == (Call::DeleteBuffer { buffer: self@.id }),
    {
        self.buffer.release()
    }

    /// The handle that the buffer owns.
    pub fn id(&self) -> (id: Handle)
        ensures
            id == self@.id,
    {
        self.buffer.id()
    }

    /// The byte order in which the instances are laid out.
    pub fn byte_order(&self) -> (order: ByteOrder)
        ensures
            order == self@.order,
    {
        self.buffer.byte_order()
    }
}

} // verus!
