//! The commands that a buffer asks of the graphics device.

use vstd::prelude::*;

verus! {

/// Identifier of a block of device memory, issued by the device.
#[derive(Clone, Copy, Debug, PartialEq, Eq, Hash, Structural)]
pub struct Handle(pub u32);

/// A binding slot of the device. Each slot holds at most one buffer at a time.
#[derive(Clone, Copy, Debug, PartialEq, Eq, Hash, Structural)]
pub enum Target {
    /// The slot for per-vertex and per-instance attributes.
    ArrayBuffer,
    /// The slot for indices.
    ElementArrayBuffer,
    /// The slot for uniform blocks.
    UniformBuffer,
}

/// How often the contents of a buffer are expected to be replaced. The device
/// takes it as advice on where to place the buffer.
#[derive(Clone, Copy, Debug, PartialEq, Eq, Hash, Structural)]
pub enum Usage {
    /// The contents are set once and used many times.
    StaticDraw,
    /// The contents are replaced again and again.
    DynamicDraw,
}

/// One call on the graphics device.
#[allow(inconsistent_fields)]
#[derive(Debug, PartialEq, Eq)]
pub enum Command {
    /// Put `buffer` into the slot `target`, or empty the slot.
    BindBuffer { target: Target, buffer: Option<Handle> },
    /// Replace the whole store of the buffer in the slot `target` by `data`.
    BufferData { target: Target, data: Vec<u8>, usage: Usage },
    /// Overwrite the bytes from `offset` on, in the store of the buffer in the
    /// slot `target`, by `data`.
    BufferSubData { target: Target, offset: u64, data: Vec<u8> },
    /// Release `buffer` and its store.
    DeleteBuffer { buffer: Handle },
}

/// What a `Command` says, with its payload as a sequence of bytes.
#[allow(inconsistent_fields)]
pub enum Call {
    /// Put `buffer` into the slot `target`, or empty the slot.
    BindBuffer { target: Target, buffer: Option<Handle> },
    /// Replace the whole store of the buffer in the slot `target` by `data`.
    BufferData { target: Target, data: Seq<u8>, usage: Usage },
    /// Overwrite the bytes from `offset` on, in the store of the buffer in the
    /// slot `target`, by `data`.
    BufferSubData { target: Target, offset: nat, data: Seq<u8> },
    /// Release `buffer` and its store.
    DeleteBuffer { buffer: Handle },
}

impl View for Command {
    type V = Call;

    open spec fn view(&self) -> Call {
        match *self {
            Command::BindBuffer { target, buffer } => Call::BindBuffer { target, buffer },
            Command::BufferData { target, data, usage } => Call::BufferData {
                target,
                data: data@,
                usage,
            },
            Command::BufferSubData { target, offset, data } => Call::BufferSubData {
                target,
                offset: offset as nat,
                data: data@,
            },
            Command::DeleteBuffer { buffer } => Call::DeleteBuffer { buffer },
        }
    }
}

/// A copy of `data`.
pub(crate) fn copy_of(data: &Vec<u8>) -> (copy: Vec<u8>)
    ensures
        copy@ == data@,
{
    let copy = data.clone();
    copy
}

impl Clone for Command {
    fn clone(&self) -> (copy: Self)
        ensures
            copy@ == self@,
    {
        match self {
            Command::BindBuffer { target, buffer } => Command::BindBuffer {
                target: *target,
                buffer: *buffer,
            },
            Command::BufferData { target, data, usage } => Command::BufferData {
                target: *target,
                data: copy_of(data),
                usage: *usage,
            },
            Command::BufferSubData { target, offset, data } => Command::BufferSubData {
                target: *target,
                offset: *offset,
                data: copy_of(data),
            },
            Command::DeleteBuffer { buffer } => Command::DeleteBuffer { buffer: *buffer },
        }
    }
}

/// What a list of commands says, call by call.
pub open spec fn calls_of(commands: Seq<Command>) -> Seq<Call> {
    commands.map_values(|command: Command| command@)
}

} // verus!
