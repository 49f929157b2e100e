//! The typed buffer: one block of device memory, the number of elements last
//! written to it, and the commands by which it is filled, bound and released.

use crate::byte_order::ByteOrder;
use crate::command::{calls_of, Call, Command, Handle, Target, Usage};
use crate::data_type::{bytes_of, to_bytes, BufferDataType};
use std::marker::PhantomData;
use vstd::prelude::*;

verus! {

/// What a buffer is, apart from the type of its elements.
pub struct BufferView {
    /// The block of device memory that the buffer owns.
    pub id: Handle,
    /// The byte order in which elements are laid out.
    pub order: ByteOrder,
    /// The number of elements that the buffer is taken to hold.
    pub count: nat,
}

/// The advice that goes with a full fill: a buffer that holds nothing yet is
/// expected to keep what it is given, one that is filled again to be filled
/// often.
pub open spec fn fill_usage(count: nat) -> Usage {
    if count > 0 {
        Usage::DynamicDraw
    } else {
        Usage::StaticDraw
    }
}

/// The calls of a full fill through the slot `target`: bind, replace the
/// whole store by `bytes`, unbind.
pub open spec fn fill_calls(target: Target, buffer: BufferView, bytes: Seq<u8>) -> Seq<Call> {
    seq![
        Call::BindBuffer { target, buffer: Some(buffer.id) },
        Call::BufferData { target, data: bytes, usage: fill_usage(buffer.count) },
        Call::BindBuffer { target, buffer: None },
    ]
}

/// The calls of a partial fill through the slot `target`: bind, overwrite
/// the store from the byte `offset` on by `bytes`, unbind.
pub open spec fn fill_subset_calls(
    target: Target,
    buffer: BufferView,
    offset: nat,
    bytes: Seq<u8>,
) -> Seq<Call> {
    seq![
        Call::BindBuffer { target, buffer: Some(buffer.id) },
        Call::BufferSubData { target, offset, data: bytes },
        Call::BindBuffer { target, buffer: None },
    ]
}

/// The calls that give a new buffer its first `elements` elements: none for
/// no elements, else those of a full fill.
pub open spec fn initial_calls(
    target: Target,
    buffer: BufferView,
    elements: nat,
    bytes: Seq<u8>,
) -> Seq<Call> {
    if elements == 0 {
        Seq::empty()
    } else {
        fill_calls(target, BufferView { count: 0, ..buffer }, bytes)
    }
}

/// The larger of two counts.
pub open spec fn max_count(a: nat, b: nat) -> nat {
    if a >= b {
        a
    } else {
        b
    }
}

/// A buffer of elements of type `T` in device memory.
///
/// The buffer owns its handle from construction to `release`. It does not
/// talk to the device: each operation returns the commands to issue, in
/// order, and leaves it to the caller to issue them before any other command
/// that touches the same slot.
pub struct Buffer<T: BufferDataType> {
    id: Handle,
    order: ByteOrder,
    attribute_count: u32,
    _d: PhantomData<T>,
}

impl<T: BufferDataType> View for Buffer<T> {
    type V = BufferView;

    closed spec fn view(&self) -> BufferView {
        BufferView { id: self.id, order: self.order, count: self.attribute_count as nat }
    }
}

impl<T: BufferDataType> Buffer<T> {
    /// An empty buffer over the handle `id`, with elements laid out in
    /// `order`.
    pub fn with_byte_order(id: Handle, order: ByteOrder) -> (buffer: Self)
        ensures
            buffer@ == (BufferView { id, order, count: 0 }),
    {
        Buffer { id, order, attribute_count: 0, _d: PhantomData }
    }

    /// An empty buffer over the handle `id`, with elements laid out as the
    /// machine lays out its memory.
    pub fn new(id: Handle) -> (buffer: Self)
        ensures
            buffer@.id == id,
            buffer@.count == 0,
    {
        Self::with_byte_order(id, ByteOrder::native())
    }

    /// A buffer over the handle `id` that holds `data`, with the commands
    /// that upload it. For no data there is nothing to upload.
    pub fn new_with_data(id: Handle, data: &[T]) -> (result: (Self, Vec<Command>))
        requires
            data@.len() <= u32::MAX,
        ensures
            result.0@.id == id,
            result.0@.count == data@.len(),
            data@.len() == 0 ==> result.1@.len() == 0,
            calls_of(result.1@) == initial_calls(
                Target::ArrayBuffer,
                result.0@,
                data@.len(),
                bytes_of(data@, result.0@.order),
            ),
    {
        Self::new_with_data_in(Target::ArrayBuffer, id, data)
    }

    /// Replaces the contents of the buffer by `data`, whatever it held: the
    /// buffer then holds `data.len()` elements.
    pub fn fill(&mut self, data: &[T]) -> (commands: Vec<Command>)
        requires
            data@.len() <= u32::MAX,
        ensures
            final(self)@ == (BufferView { count: data@.len(), ..old(self)@ }),
            calls_of(commands@) == fill_calls(
                Target::ArrayBuffer,
                old(self)@,
                bytes_of(data@, old(self)@.order),
            ),
    {
        self.fill_in(Target::ArrayBuffer, data)
    }

    /// Overwrites the elements from `offset` on by `data` and leaves the
    /// others as they are. The buffer then holds `offset + data.len()`
    /// elements, unless it held more.
    ///
    /// Whether the store of the buffer is that large is for the caller to
    /// see to: a write past its end is left to the device to refuse.
    pub fn fill_subset(&mut self, offset: u32, data: &[T]) -> (commands: Vec<Command>)
        requires
            offset + data@.len() <= u32::MAX,
        ensures
            final(self)@ == (BufferView {
                count: max_count(old(self)@.count, offset as nat + data@.len()),
                ..old(self)@
            }),
            final(self)@.count >= old(self)@.count,
            calls_of(commands@) == fill_subset_calls(
                Target::ArrayBuffer,
                old(self)@,
                offset as nat * T::stride(),
                bytes_of(data@, old(self)@.order),
            ),
    {
        self.fill_subset_in(Target::ArrayBuffer, offset, data)
    }

    /// The number of elements that the buffer holds.
    pub fn attribute_count(&self) -> (count: u32)
        ensures
            count == self@.count,
    {
        self.attribute_count
    }

    /// The command that puts the buffer into the slot for vertex attributes.
    /// Whatever was bound there before no longer is.
    pub fn bind(&self) -> (command: Command)
        ensures
            command@ == (Call::BindBuffer { target: Target::ArrayBuffer, buffer: Some(self@.id) }),
    {
        self.bind_in(Target::ArrayBuffer)
    }

    /// Ends the buffer: the command that releases its handle, and no other.
    pub fn release(self) -> (command: Command)
        ensures
            command@ == (Call::DeleteBuffer { buffer: self@.id }),
    {
        Command::DeleteBuffer { buffer: self.id }
    }

    /// The handle that the buffer owns.
    pub fn id(&self) -> (id: Handle)
        ensures
            id == self@.id,
    {
        self.id
    }

    /// The byte order in which the elements are laid out.
    pub fn byte_order(&self) -> (order: ByteOrder)
        ensures
            order == self@.order,
    {
        self.order
    }

    /// `new_with_data` for a buffer that is bound to `target`.
    pub(crate) fn new_with_data_in(target: Target, id: Handle, data: &[T]) -> (result: (
        Self,
        Vec<Command>,
    ))
        requires
            data@.len() <= u32::MAX,
        ensures
            result.0@.id == id,
            result.0@.count == data@.len(),
            data@.len() == 0 ==> result.1@.len() == 0,
            calls_of(result.1@) == initial_calls(
                target,
                result.0@,
                data@.len(),
                bytes_of(data@, result.0@.order),
            ),
    {
        let mut buffer = Self::new(id);
        let commands = if data.len() > 0 {
            buffer.fill_in(target, data)
        } else {
            Vec::new()
        };
        (buffer, commands)
    }

    /// `fill` for a buffer that is bound to `target`.
    pub(crate) fn fill_in(&mut self, target: Target, data: &[T]) -> (commands: Vec<Command>)
        requires
            data@.len() <= u32::MAX,
        ensures
            final(self)@ == (BufferView { count: data@.len(), ..old(self)@ }),
            calls_of(commands@) == fill_calls(
                target,
                old(self)@,
                bytes_of(data@, old(self)@.order),
            ),
    {
        let usage = if self.attribute_count > 0 {
            Usage::DynamicDraw
        } else {
            Usage::StaticDraw
        };
        let mut commands: Vec<Command> = Vec::new();
        commands.push(self.bind_in(target));
        commands.push(Command::BufferData { target, data: to_bytes(data, self.order), usage });
        commands.push(Command::BindBuffer { target, buffer: None });
        self.attribute_count = data.len() as u32;
        commands
    }

    /// `fill_subset` for a buffer that is bound to `target`.
    pub(crate) fn fill_subset_in(&mut self, target: Target, offset: u32, data: &[T]) -> (commands:
        Vec<Command>)
        requires
            offset + data@.len() <= u32::MAX,
        ensures
            final(self)@ == (BufferView {
                count: max_count(old(self)@.count, offset as nat + data@.len()),
                ..old(self)@
            }),
            final(self)@.count >= old(self)@.count,
            calls_of(commands@) == fill_subset_calls(
                target,
                old(self)@,
                offset as nat * T::stride(),
                bytes_of(data@, old(self)@.order),
            ),
    {
        proof {
            T::lemma_stride();
            assert(offset * T::stride() <= u32::MAX * 16) by (nonlinear_arith)
                requires
                    0 <= offset <= u32::MAX,
                    0 <= T::stride() <= 16,
            ;
        }
        let byte_offset: u64 = offset as u64 * T::size() as u64;
        let mut commands: Vec<Command> = Vec::new();
        commands.push(self.bind_in(target));
        commands.push(
            Command::BufferSubData { target, offset: byte_offset, data: to_bytes(data, self.order) },
        );
        commands.push(Command::BindBuffer { target, buffer: None });
        let end: u32 = offset + data.len() as u32;
        if end > self.attribute_count {
            self.attribute_count = end;
        }
        commands
    }

    /// `bind` for a buffer that is bound to `target`.
    pub(crate) fn bind_in(&self, target: Target) -> (command: Command)
        ensures
            command@ == (Call::BindBuffer { target, buffer: Some(self@.id) }),
    {
        Command::BindBuffer { target, buffer: Some(self.id) }
    }
}

} // verus!
