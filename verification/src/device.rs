//! What the commands do to a device: the stores of its buffers and its
//! binding slots, as a model to state laws over, and as a device in host
//! memory to run commands on.

use crate::command::{calls_of, copy_of, Call, Command, Handle, Target};
use vstd::prelude::*;

verus! {

/// The buffers of a device and its binding slots.
pub struct DeviceState {
    /// The buffers that were created and not released, each with its store.
    pub stores: Map<Handle, Seq<u8>>,
    /// The buffer in the slot for vertex attributes.
    pub array_buffer: Option<Handle>,
    /// The buffer in the slot for indices.
    pub element_array_buffer: Option<Handle>,
    /// The buffer in the slot for uniform blocks.
    pub uniform_buffer: Option<Handle>,
    /// The number of handles issued so far. Handles are numbered from one and
    /// never issued twice.
    pub issued: nat,
}

/// `store` with the bytes from `offset` on replaced by `data`.
pub open spec fn overwrite(store: Seq<u8>, offset: nat, data: Seq<u8>) -> Seq<u8> {
    Seq::new(
        store.len(),
        |i: int|
            if offset <= i < offset + data.len() {
                data[i - offset]
            } else {
                store[i]
            },
    )
}

/// What a slot holds once `buffer` is released.
pub open spec fn without(slot: Option<Handle>, buffer: Handle) -> Option<Handle> {
    if slot == Some(buffer) {
        None
    } else {
        slot
    }
}

impl DeviceState {
    /// Whether `buffer` was created and not released.
    pub open spec fn is_live(self, buffer: Handle) -> bool {
        self.stores.dom().contains(buffer)
    }

    /// The buffer in the slot `target`.
    pub open spec fn bound(self, target: Target) -> Option<Handle> {
        match target {
            Target::ArrayBuffer => self.array_buffer,
            Target::ElementArrayBuffer => self.element_array_buffer,
            Target::UniformBuffer => self.uniform_buffer,
        }
    }

    /// The state with `buffer` in the slot `target`.
    pub open spec fn with_bound(self, target: Target, buffer: Option<Handle>) -> DeviceState {
        match target {
            Target::ArrayBuffer => DeviceState { array_buffer: buffer, ..self },
            Target::ElementArrayBuffer => DeviceState { element_array_buffer: buffer, ..self },
            Target::UniformBuffer => DeviceState { uniform_buffer: buffer, ..self },
        }
    }

    /// The state with `data` as the store of `buffer`.
    pub open spec fn with_store(self, buffer: Handle, data: Seq<u8>) -> DeviceState {
        DeviceState { stores: self.stores.insert(buffer, data), ..self }
    }

    /// Whether the state is one that a device gets into: the live buffers
    /// are among those issued, and what is bound is live.
    pub open spec fn valid(self) -> bool {
        &&& self.issued <= u32::MAX
        &&& forall|buffer: Handle| #[trigger] self.is_live(buffer) ==> 0 < buffer.0 <= self.issued
        &&& forall|target: Target|
            (#[trigger] self.bound(target)) is Some ==> self.is_live(self.bound(target).unwrap())
    }

    /// Whether the device carries out `call`. It refuses to bind a buffer
    /// that is not live, to upload where no buffer is bound, and to write
    /// past the end of a store; a call that it refuses changes nothing.
    pub open spec fn accepts(self, call: Call) -> bool {
        match call {
            Call::BindBuffer { target, buffer } => buffer matches Some(b) ==> self.is_live(b),
            Call::BufferData { target, data, usage } => self.bound(target) matches Some(b)
                && self.is_live(b),
            Call::BufferSubData { target, offset, data } => self.bound(target) matches Some(b)
                && self.is_live(b) && offset + data.len() <= self.stores[b].len(),
            Call::DeleteBuffer { buffer } => true,
        }
    }

    /// The state after `call`.
    pub open spec fn apply(self, call: Call) -> DeviceState {
        if !self.accepts(call) {
            self
        } else {
            match call {
                Call::BindBuffer { target, buffer } => self.with_bound(target, buffer),
                Call::BufferData { target, data, usage } => self.with_store(
                    self.bound(target).unwrap(),
                    data,
                ),
                Call::BufferSubData { target, offset, data } => {
                    let b = self.bound(target).unwrap();
                    self.with_store(b, overwrite(self.stores[b], offset, data))
                },
                Call::DeleteBuffer { buffer } => DeviceState {
                    stores: self.stores.remove(buffer),
                    array_buffer: without(self.array_buffer, buffer),
                    element_array_buffer: without(self.element_array_buffer, buffer),
                    uniform_buffer: without(self.uniform_buffer, buffer),
                    ..self
                },
            }
        }
    }

    /// Whether the device carries out each of `calls`, in order.
    pub open spec fn accepts_all(self, calls: Seq<Call>) -> bool
        decreases calls.len(),
    {
        calls.len() == 0 || (self.accepts(calls.first()) && self.apply(calls.first()).accepts_all(
            calls.drop_first(),
        ))
    }

    /// The handle that the device issues next, if it has one left.
    pub open spec fn next_handle(self) -> Option<Handle> {
        if self.issued < u32::MAX {
            Some(Handle((self.issued + 1) as u32))
        } else {
            None
        }
    }

    /// The state after a buffer was asked for: with a new, empty buffer under
    /// the next handle, if there is one left.
    pub open spec fn create(self) -> DeviceState {
        match self.next_handle() {
            Some(buffer) => DeviceState {
                stores: self.stores.insert(buffer, Seq::empty()),
                issued: self.issued + 1,
                ..self
            },
            None => self,
        }
    }

    /// A device that has issued no handle.
    pub open spec fn initial() -> DeviceState {
        DeviceState {
            stores: Map::empty(),
            array_buffer: None,
            element_array_buffer: None,
            uniform_buffer: None,
            issued: 0,
        }
    }

    /// The state after `calls`, carried out in order.
    pub open spec fn run(self, calls: Seq<Call>) -> DeviceState
        decreases calls.len(),
    {
        if calls.len() == 0 {
            self
        } else {
            self.apply(calls.first()).run(calls.drop_first())
        }
    }
}

/// A device that has issued no handle is in a valid state.
pub proof fn lemma_initial_is_valid()
    ensures
        DeviceState::initial().valid(),
{
    let device = DeviceState::initial();
    assert forall|target: Target| (#[trigger] device.bound(target)) is None by {}
}

/// No call leads out of the valid states.
pub proof fn lemma_apply_keeps_valid(device: DeviceState, call: Call)
    requires
        device.valid(),
    ensures
        device.apply(call).valid(),
{
    let after = device.apply(call);
    assert forall|buffer: Handle| #[trigger] after.is_live(buffer) implies 0 < buffer.0
        <= after.issued by {
        assert(device.is_live(buffer));
    }
    assert forall|target: Target| (#[trigger] after.bound(target)) is Some implies after.is_live(
        after.bound(target).unwrap(),
    ) by {
        let _ = device.bound(target);
    }
}

/// A buffer that the device creates is new: its handle is that of no live
/// buffer, every other buffer stays as it is, and the state stays valid.
pub proof fn lemma_create_is_fresh(device: DeviceState)
    requires
        device.valid(),
    ensures
        device.create().valid(),
        device.next_handle() matches Some(buffer) ==> {
            &&& !device.is_live(buffer)
            &&& device.create().stores == device.stores.insert(buffer, Seq::empty())
        },
        device.next_handle() is None ==> device.create() == device,
{
    let after = device.create();
    if let Some(created) = device.next_handle() {
        assert forall|buffer: Handle| #[trigger] after.is_live(buffer) implies 0 < buffer.0
            <= after.issued by {
            if buffer != created {
                assert(device.is_live(buffer));
            }
        }
        assert forall|target: Target|
            (#[trigger] after.bound(target)) is Some implies after.is_live(
            after.bound(target).unwrap(),
        ) by {
            let _ = device.bound(target);
        }
    }
}

/// No list of calls leads out of the valid states.
pub proof fn lemma_run_keeps_valid(device: DeviceState, calls: Seq<Call>)
    requires
        device.valid(),
    ensures
        device.run(calls).valid(),
    decreases calls.len(),
{
    if calls.len() > 0 {
        lemma_apply_keeps_valid(device, calls.first());
        lemma_run_keeps_valid(device.apply(calls.first()), calls.drop_first());
    }
}

/// The stores of a device that keeps the store of handle `n` at index `n - 1`.
spec fn stores_of(slots: Seq<Option<Vec<u8>>>) -> Map<Handle, Seq<u8>> {
    Map::new(
        |buffer: Handle| 0 < buffer.0 <= slots.len() && slots[buffer.0 - 1] is Some,
        |buffer: Handle| slots[buffer.0 - 1].unwrap()@,
    )
}

/// A device in host memory. It does to its stores and slots what
/// `DeviceState` says, so that what a list of commands leaves behind can be
/// read back.
pub struct Device {
    slots: Vec<Option<Vec<u8>>>,
    array_buffer: Option<Handle>,
    element_array_buffer: Option<Handle>,
    uniform_buffer: Option<Handle>,
}

impl View for Device {
    type V = DeviceState;

    closed spec fn view(&self) -> DeviceState {
        DeviceState {
            stores: stores_of(self.slots@),
            array_buffer: self.array_buffer,
            element_array_buffer: self.element_array_buffer,
            uniform_buffer: self.uniform_buffer,
            issued: self.slots@.len(),
        }
    }
}

fn overwritten(store: &Vec<u8>, offset: usize, data: &Vec<u8>) -> (result: Vec<u8>)
    requires
        offset + data@.len() <= store@.len(),
    ensures
        result@ == overwrite(store@, offset as nat, data@),
{
    let mut result: Vec<u8> = Vec::new();
    let mut i: usize = 0;
    while i < store.len()
        invariant
            i <= store@.len(),
            offset + data@.len() <= store@.len(),
            result@ == overwrite(store@, offset as nat, data@).subrange(0, i as int),
        decreases store@.len() - i,
    {
        let byte = if offset <= i && i - offset < data.len() {
            data[i - offset]
        } else {
            store[i]
        };
        result.push(byte);
        i += 1;
    }
    result
}

impl Device {
    /// A device that has issued no handle.
    pub fn new() -> (device: Self)
        ensures
            device@ == DeviceState::initial(),
            device@.valid(),
    {
        proof {
            lemma_initial_is_valid();
        }
        let device = Device {
            slots: Vec::new(),
            array_buffer: None,
            element_array_buffer: None,
            uniform_buffer: None,
        };
        assert(device@.stores =~= Map::empty());
        device
    }

    /// Creates an empty buffer under a handle that no buffer had before, or
    /// none if the handles have run out.
    pub fn create_buffer(&mut self) -> (buffer: Option<Handle>)
        ensures
            buffer == old(self)@.next_handle(),
            final(self)@ == old(self)@.create(),
            buffer matches Some(b) ==> !old(self)@.is_live(b) && final(self)@.is_live(b),
            old(self)@.valid() ==> final(self)@.valid(),
    {
        proof {
            if self@.valid() {
                lemma_create_is_fresh(self@);
            }
        }
        let issued: usize = self.slots.len();
        if issued < u32::MAX as usize {
            self.slots.push(Some(Vec::new()));
            let buffer = Handle((issued + 1) as u32);
            assert(self@.stores =~= old(self)@.stores.insert(buffer, Seq::empty()));
            Some(buffer)
        } else {
            None
        }
    }

    /// Whether `buffer` was created and not released.
    pub fn is_buffer(&self, buffer: Handle) -> (live: bool)
        ensures
            live == self@.is_live(buffer),
    {
        let n: usize = buffer.0 as usize;
        0 < n && n <= self.slots.len() && self.slots[n - 1].is_some()
    }

    /// The buffer in the slot `target`.
    pub fn bound(&self, target: Target) -> (buffer: Option<Handle>)
        ensures
            buffer == self@.bound(target),
    {
        match target {
            Target::ArrayBuffer => self.array_buffer,
            Target::ElementArrayBuffer => self.element_array_buffer,
            Target::UniformBuffer => self.uniform_buffer,
        }
    }

    /// The store of `buffer`, if the buffer is live.
    pub fn contents(&self, buffer: Handle) -> (store: Option<Vec<u8>>)
        ensures
            match store {
                Some(bytes) => self@.is_live(buffer) && bytes@ == self@.stores[buffer],
                None => !self@.is_live(buffer),
            },
    {
        if self.is_buffer(buffer) {
            match &self.slots[buffer.0 as usize - 1] {
                Some(bytes) => Some(copy_of(bytes)),
                None => None,
            }
        } else {
            None
        }
    }

    fn set_bound(&mut self, target: Target, buffer: Option<Handle>)
        ensures
            final(self)@ == old(self)@.with_bound(target, buffer),
    {
        match target {
            Target::ArrayBuffer => {
                self.array_buffer = buffer;
            },
            Target::ElementArrayBuffer => {
                self.element_array_buffer = buffer;
            },
            Target::UniformBuffer => {
                self.uniform_buffer = buffer;
            },
        }
    }

    fn set_store(&mut self, buffer: Handle, store: Vec<u8>)
        requires
            old(self)@.is_live(buffer),
        ensures
            final(self)@ == old(self)@.with_store(buffer, store@),
    {
        self.slots.set(buffer.0 as usize - 1, Some(store));
        assert(self@.stores =~= old(self)@.stores.insert(buffer, store@));
    }

    /// Carries out `command`, or refuses it and changes nothing. Tells
    /// whether it was carried out.
    pub fn execute(&mut self, command: &Command) -> (accepted: bool)
        ensures
            accepted == old(self)@.accepts(command@),
            final(self)@ == old(self)@.apply(command@),
            old(self)@.valid() ==> final(self)@.valid(),
    {
        proof {
            if self@.valid() {
                lemma_apply_keeps_valid(self@, command@);
            }
        }
        match command {
            Command::BindBuffer { target, buffer } => {
                let accepted = match buffer {
                    Some(b) => self.is_buffer(*b),
                    None => true,
                };
                if accepted {
                    self.set_bound(*target, *buffer);
                }
                accepted
            },
            Command::BufferData { target, data, usage } => {
                match self.bound(*target) {
                    Some(b) => {
                        if self.is_buffer(b) {
                            self.set_store(b, copy_of(data));
                            true
                        } else {
                            false
                        }
                    },
                    None => false,
                }
            },
            Command::BufferSubData { target, offset, data } => {
                match self.bound(*target) {
                    Some(b) => {
                        if self.is_buffer(b) {
                            let store = self.slots[b.0 as usize - 1].as_ref().unwrap();
                            if *offset <= store.len() as u64 {
                                let first: usize = *offset as usize;
                                if data.len() <= store.len() - first {
                                    let written = overwritten(store, first, data);
                                    self.set_store(b, written);
                                    true
                                } else {
                                    false
                                }
                            } else {
                                false
                            }
                        } else {
                            false
                        }
                    },
                    None => false,
                }
            },
            Command::DeleteBuffer { buffer } => {
                if self.is_buffer(*buffer) {
                    self.slots.set(buffer.0 as usize - 1, None);
                }
                if self.array_buffer == Some(*buffer) {
                    self.array_buffer = None;
                }
                if self.element_array_buffer == Some(*buffer) {
                    self.element_array_buffer = None;
                }
                if self.uniform_buffer == Some(*buffer) {
                    self.uniform_buffer = None;
                }
                assert(self@.stores =~= old(self)@.stores.remove(*buffer));
                true
            },
        }
    }

    /// Carries out `commands` in order, skipping those that it refuses.
    /// Tells whether all were carried out.
    pub fn run(&mut self, commands: &Vec<Command>) -> (accepted: bool)
        ensures
            accepted == old(self)@.accepts_all(calls_of(commands@)),
            final(self)@ == old(self)@.run(calls_of(commands@)),
            old(self)@.valid() ==> final(self)@.valid(),
    {
        proof {
            if self@.valid() {
                lemma_run_keeps_valid(self@, calls_of(commands@));
            }
        }
        let ghost calls = calls_of(commands@);
        let mut accepted = true;
        let mut i: usize = 0;
        assert(calls.subrange(0, calls.len() as int) =~= calls);
        while i < commands.len()
            invariant
                i <= commands@.len(),
                calls == calls_of(commands@),
                old(self)@.run(calls) == self@.run(calls.subrange(i as int, calls.len() as int)),
                old(self)@.accepts_all(calls) == (accepted && self@.accepts_all(
                    calls.subrange(i as int, calls.len() as int),
                )),
            decreases commands@.len() - i,
        {
            let ghost rest = calls.subrange(i as int, calls.len() as int);
            assert(rest.drop_first() =~= calls.subrange(i + 1, calls.len() as int));
            let done = self.execute(&commands[i]);
            accepted = accepted && done;
            i += 1;
        }
        accepted
    }
}

} // verus!
