//! What the commands of a buffer achieve on a device.

use crate::buffer::{fill_calls, fill_subset_calls, max_count, BufferView};
use crate::command::{Call, Handle, Target};
use crate::data_type::{bytes_of, lemma_bytes_of_concat, lemma_bytes_of_len, BufferDataType};
use crate::device::{overwrite, DeviceState};
use vstd::prelude::*;

verus! {

/// Binding changes no store and no other slot: it puts a live buffer into
/// the slot, or empties the slot, and is refused for a buffer that is not
/// live.
pub proof fn lemma_bind_keeps_stores(device: DeviceState, call: Call)
    requires
        call is BindBuffer,
    ensures
        device.apply(call).stores == device.stores,
        device.accepts(call) <==> (call->BindBuffer_buffer matches Some(buffer)
            ==> device.is_live(buffer)),
        device.accepts(call) ==> device.apply(call) == device.with_bound(
            call->BindBuffer_target,
            call->BindBuffer_buffer,
        ),
        !device.accepts(call) ==> device.apply(call) == device,
{
}

/// A full fill of a live buffer makes `bytes` its store, whatever the store
/// was, leaves every other buffer as it is, and leaves the slot of the buffer
/// empty.
pub proof fn lemma_fill_replaces_store(
    device: DeviceState,
    target: Target,
    buffer: BufferView,
    bytes: Seq<u8>,
)
    requires
        device.is_live(buffer.id),
    ensures
        device.run(fill_calls(target, buffer, bytes)) == device.with_store(
            buffer.id,
            bytes,
        ).with_bound(target, None),
{
    let calls = fill_calls(target, buffer, bytes);
    let bound = device.apply(calls[0]);
    let filled = bound.apply(calls[1]);
    let after = filled.apply(calls[2]);
    assert(device.run(calls) == after) by {
        reveal_with_fuel(DeviceState::run, 4);
    }
}

/// A partial fill of a live buffer whose store is large enough overwrites
/// the bytes of the elements from `offset` on by those of `data`, and leaves
/// every other byte of the store, every other buffer and every other slot as
/// it is.
pub proof fn lemma_fill_subset_overwrites_range<T: BufferDataType>(
    device: DeviceState,
    target: Target,
    buffer: BufferView,
    offset: nat,
    data: Seq<T>,
)
    requires
        device.is_live(buffer.id),
        (offset + data.len()) * T::stride() <= device.stores[buffer.id].len(),
    ensures
        ({
            let first = offset * T::stride();
            let end = (offset + data.len()) * T::stride();
            let bytes = bytes_of(data, buffer.order);
            let before = device.stores[buffer.id];
            let after = device.run(fill_subset_calls(target, buffer, first, bytes));
            &&& end == first + bytes.len()
            &&& after == device.with_store(buffer.id, overwrite(before, first, bytes)).with_bound(
                target,
                None,
            )
            &&& after.stores[buffer.id].len() == before.len()
            &&& forall|i: int|
                0 <= i < first || end <= i < before.len() ==> after.stores[buffer.id][i]
                    == before[i]
            &&& forall|i: int| first <= i < end ==> after.stores[buffer.id][i] == bytes[i - first]
            &&& forall|other: Handle|
                other != buffer.id ==> after.is_live(other) == device.is_live(other)
                    && after.stores[other] == device.stores[other]
        }),
{
    let first = offset * T::stride();
    let end = (offset + data.len()) * T::stride();
    let bytes = bytes_of(data, buffer.order);
    lemma_bytes_of_len(data, buffer.order);
    assert(end == first + data.len() * T::stride()) by (nonlinear_arith)
        requires
            first == offset * T::stride(),
            end == (offset + data.len()) * T::stride(),
    ;
    let calls = fill_subset_calls(target, buffer, first, bytes);
    let bound = device.apply(calls[0]);
    let written = bound.apply(calls[1]);
    let after = written.apply(calls[2]);
    assert(device.run(calls) == after) by {
        reveal_with_fuel(DeviceState::run, 4);
    }
}

/// After a full fill with `filled`, a partial fill that stays within it
/// leaves the buffer with the elements of `filled`, those from `offset` on
/// replaced by `data`; and the buffer still holds `filled.len()` elements.
pub proof fn lemma_fill_then_fill_subset<T: BufferDataType>(
    device: DeviceState,
    target: Target,
    buffer: BufferView,
    filled: Seq<T>,
    offset: nat,
    data: Seq<T>,
)
    requires
        device.is_live(buffer.id),
        offset + data.len() <= filled.len(),
    ensures
        ({
            let order = buffer.order;
            let full = BufferView { count: filled.len(), ..buffer };
            let after = device.run(fill_calls(target, buffer, bytes_of(filled, order))).run(
                fill_subset_calls(target, full, offset * T::stride(), bytes_of(data, order)),
            );
            let end = (offset + data.len()) as int;
            &&& after.stores[buffer.id] == bytes_of(
                filled.subrange(0, offset as int) + data + filled.subrange(
                    end,
                    filled.len() as int,
                ),
                order,
            )
            &&& max_count(full.count, offset + data.len()) == filled.len()
        }),
{
    let order = buffer.order;
    let stride = T::stride();
    let full = BufferView { count: filled.len(), ..buffer };
    let end = (offset + data.len()) as int;
    let head = filled.subrange(0, offset as int);
    let middle = filled.subrange(offset as int, end);
    let tail = filled.subrange(end, filled.len() as int);
    let store = bytes_of(filled, order);
    let bytes = bytes_of(data, order);

    let once = device.run(fill_calls(target, buffer, store));
    lemma_fill_replaces_store(device, target, buffer, store);

    lemma_bytes_of_len(filled, order);
    assert((offset + data.len()) * stride <= filled.len() * stride) by (nonlinear_arith)
        requires
            offset + data.len() <= filled.len(),
            0 <= stride,
    ;
    lemma_fill_subset_overwrites_range(once, target, full, offset, data);

    assert(filled =~= head + middle + tail);
    lemma_bytes_of_concat(head, middle, order);
    lemma_bytes_of_concat(head + middle, tail, order);
    lemma_bytes_of_concat(head, data, order);
    lemma_bytes_of_concat(head + data, tail, order);
    lemma_bytes_of_len(head, order);
    lemma_bytes_of_len(middle, order);
    lemma_bytes_of_len(data, order);
}

/// Releasing a buffer ends that buffer and no other: every other buffer is
/// as live as before and keeps its store, and a slot that held another buffer
/// still holds it.
pub proof fn lemma_release_leaves_others(device: DeviceState, released: Handle, other: Handle)
    requires
        released != other,
    ensures
        ({
            let after = device.apply(Call::DeleteBuffer { buffer: released });
            &&& !after.is_live(released)
            &&& after.is_live(other) == device.is_live(other)
            &&& after.stores[other] == device.stores[other]
            &&& forall|target|
                device.bound(target) == Some(other) ==> after.bound(target) == Some(other)
        }),
{
}

/// After one buffer is released, another that shares the device is bound
/// and filled as if nothing had happened.
pub proof fn lemma_release_then_fill_other(
    device: DeviceState,
    released: Handle,
    target: Target,
    buffer: BufferView,
    bytes: Seq<u8>,
)
    requires
        released != buffer.id,
        device.is_live(buffer.id),
    ensures
        ({
            let after = device.apply(Call::DeleteBuffer { buffer: released });
            &&& after.accepts(Call::BindBuffer { target, buffer: Some(buffer.id) })
            &&& after.run(fill_calls(target, buffer, bytes)).stores[buffer.id] == bytes
        }),
{
    let after = device.apply(Call::DeleteBuffer { buffer: released });
    lemma_release_leaves_others(device, released, buffer.id);
    lemma_fill_replaces_store(after, target, buffer, bytes);
}

} // verus!
