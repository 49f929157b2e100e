//! The element types that a buffer may hold, and their layout in device memory.

use crate::byte_order::{bytes_of_u16, bytes_of_u32, ByteOrder};
use crate::sealed::Sealed;
use vstd::prelude::*;

verus! {

/// Width in bytes of the widest element: four components of 32 bits.
pub const MAX_STRIDE: usize = 16;

/// Width in bytes of the widest scalar.
pub const MAX_SCALAR_STRIDE: usize = 4;

/// A type whose values may be the elements of a buffer. Every value occupies
/// the same number of bytes, and its bytes in device memory are those of its
/// representation in host memory.
///
/// The list is closed. It holds the integers of 8, 16 and 32 bits, signed and
/// unsigned, the floating-point numbers of 16 and 32 bits, and the arrays of
/// two, three and four of one of these. A vector or a quaternion goes in as
/// the array of its components.
pub trait BufferDataType: Copy + Sealed {
    /// Number of bytes that one element occupies.
    spec fn stride() -> nat;

    /// The bytes of the element on a machine of byte order `order`.
    spec fn bytes(&self, order: ByteOrder) -> Seq<u8>;

    /// An element is at least one byte wide and at most `MAX_STRIDE`.
    proof fn lemma_stride()
        ensures
            0 < Self::stride() <= MAX_STRIDE,
    ;

    /// Every element occupies exactly `stride()` bytes.
    proof fn lemma_layout(value: Self, order: ByteOrder)
        ensures
            value.bytes(order).len() == Self::stride(),
    ;

    /// Number of bytes that one element occupies.
    fn size() -> (size: usize)
        ensures
            size == Self::stride(),
    ;

    /// Appends the bytes of the element to `out`.
    fn write_bytes(&self, order: ByteOrder, out: &mut Vec<u8>)
        ensures
            final(out)@ == old(out)@ + self.bytes(order),
    ;
}

/// A buffer element that is a single scalar.
pub trait PrimitiveDataType: BufferDataType {
    /// A scalar is at most `MAX_SCALAR_STRIDE` bytes wide.
    proof fn lemma_scalar()
        ensures
            Self::stride() <= MAX_SCALAR_STRIDE,
    ;
}

/// A buffer element that may index other buffers: an unsigned integer.
pub trait ElementBufferDataType: PrimitiveDataType {
}

/// The bytes of a sequence of elements: those of each element in turn, with
/// nothing between them.
pub open spec fn bytes_of<T: BufferDataType>(data: Seq<T>, order: ByteOrder) -> Seq<u8>
    decreases data.len(),
{
    if data.len() == 0 {
        Seq::empty()
    } else {
        bytes_of(data.drop_last(), order) + data.last().bytes(order)
    }
}

/// A sequence of elements occupies `stride()` bytes for each of them.
pub proof fn lemma_bytes_of_len<T: BufferDataType>(data: Seq<T>, order: ByteOrder)
    ensures
        bytes_of(data, order).len() == data.len() * T::stride(),
    decreases data.len(),
{
    if data.len() > 0 {
        lemma_bytes_of_len(data.drop_last(), order);
        T::lemma_layout(data.last(), order);
        assert((data.len() - 1) * T::stride() + T::stride() == data.len() * T::stride())
            by (nonlinear_arith);
    }
}

/// The bytes of two sequences of elements, one after the other, are the bytes
/// of the one followed by the bytes of the other.
pub proof fn lemma_bytes_of_concat<T: BufferDataType>(a: Seq<T>, b: Seq<T>, order: ByteOrder)
    ensures
        bytes_of(a + b, order) == bytes_of(a, order) + bytes_of(b, order),
    decreases b.len(),
{
    if b.len() > 0 {
        lemma_bytes_of_concat(a, b.drop_last(), order);
        assert((a + b).drop_last() =~= a + b.drop_last());
    }
}

/// The bytes of `data` as the device receives them.
pub fn to_bytes<T: BufferDataType>(data: &[T], order: ByteOrder) -> (bytes: Vec<u8>)
    ensures
        bytes@ == bytes_of(data@, order),
{
    let mut bytes: Vec<u8> = Vec::new();
    let mut i: usize = 0;
    while i < data.len()
        invariant
            i <= data.len(),
            bytes@ == bytes_of(data@.subrange(0, i as int), order),
        decreases data.len() - i,
    {
        data[i].write_bytes(order, &mut bytes);
        proof {
            let next = data@.subrange(0, i + 1);
            assert(next.drop_last() =~= data@.subrange(0, i as int));
        }
        i += 1;
    }
    assert(data@.subrange(0, data.len() as int) =~= data@);
    bytes
}

/// The unsigned 16-bit value with the bits of `value` in two's complement.
pub open spec fn bits_of_i16(value: i16) -> u16 {
    if value >= 0 {
        value as u16
    } else {
        (value + 65536) as u16
    }
}

/// The unsigned 32-bit value with the bits of `value` in two's complement.
pub open spec fn bits_of_i32(value: i32) -> u32 {
    if value >= 0 {
        value as u32
    } else {
        (value + 4294967296) as u32
    }
}

/// The unsigned 8-bit value with the bits of `value` in two's complement.
pub open spec fn bits_of_i8(value: i8) -> u8 {
    if value >= 0 {
        value as u8
    } else {
        (value + 256) as u8
    }
}

fn push_u16(value: u16, order: ByteOrder, out: &mut Vec<u8>)
    ensures
        final(out)@ == old(out)@ + bytes_of_u16(value, order),
{
    let low: u8 = (value % 256) as u8;
    let high: u8 = (value / 256) as u8;
    match order {
        ByteOrder::LittleEndian => {
            out.push(low);
            out.push(high);
        },
        ByteOrder::BigEndian => {
            out.push(high);
            out.push(low);
        },
    }
}

fn push_u32(value: u32, order: ByteOrder, out: &mut Vec<u8>)
    ensures
        final(out)@ == old(out)@ + bytes_of_u32(value, order),
{
    let b0: u8 = (value % 256) as u8;
    let b1: u8 = (value / 256 % 256) as u8;
    let b2: u8 = (value / 65536 % 256) as u8;
    let b3: u8 = (value / 16777216) as u8;
    match order {
        ByteOrder::LittleEndian => {
            out.push(b0);
            out.push(b1);
            out.push(b2);
            out.push(b3);
        },
        ByteOrder::BigEndian => {
            out.push(b3);
            out.push(b2);
            out.push(b1);
            out.push(b0);
        },
    }
}

impl BufferDataType for u8 {
    open spec fn stride() -> nat {
        1
    }

    open spec fn bytes(&self, order: ByteOrder) -> Seq<u8> {
        seq![*self]
    }

    proof fn lemma_stride() {
    }

    proof fn lemma_layout(value: Self, order: ByteOrder) {
    }

    fn size() -> (size: usize) {
        1
    }

    fn write_bytes(&self, order: ByteOrder, out: &mut Vec<u8>) {
        out.push(*self);
    }
}

impl PrimitiveDataType for u8 {
    proof fn lemma_scalar() {
    }
}

impl ElementBufferDataType for u8 {
}

impl BufferDataType for u16 {
    open spec fn stride() -> nat {
        2
    }

    open spec fn bytes(&self, order: ByteOrder) -> Seq<u8> {
        bytes_of_u16(*self, order)
    }

    proof fn lemma_stride() {
    }

    proof fn lemma_layout(value: Self, order: ByteOrder) {
    }

    fn size() -> (size: usize) {
        2
    }

    fn write_bytes(&self, order: ByteOrder, out: &mut Vec<u8>) {
        push_u16(*self, order, out);
    }
}

impl PrimitiveDataType for u16 {
    proof fn lemma_scalar() {
    }
}

impl ElementBufferDataType for u16 {
}

impl BufferDataType for u32 {
    open spec fn stride() -> nat {
        4
    }

    open spec fn bytes(&self, order: ByteOrder) -> Seq<u8> {
        bytes_of_u32(*self, order)
    }

    proof fn lemma_stride() {
    }

    proof fn lemma_layout(value: Self, order: ByteOrder) {
    }

    fn size() -> (size: usize) {
        4
    }

    fn write_bytes(&self, order: ByteOrder, out: &mut Vec<u8>) {
        push_u32(*self, order, out);
    }
}

impl PrimitiveDataType for u32 {
    proof fn lemma_scalar() {
    }
}

impl ElementBufferDataType for u32 {
}

impl BufferDataType for i8 {
    open spec fn stride() -> nat {
        1
    }

    open spec fn bytes(&self, order: ByteOrder) -> Seq<u8> {
        seq![bits_of_i8(*self)]
    }

    proof fn lemma_stride() {
    }

    proof fn lemma_layout(value: Self, order: ByteOrder) {
    }

    fn size() -> (size: usize) {
        1
    }

    fn write_bytes(&self, order: ByteOrder, out: &mut Vec<u8>) {
        let bits: u8 = if *self >= 0 {
            *self as u8
        } else {
            (*self as i16 + 256) as u8
        };
        out.push(bits);
    }
}

impl PrimitiveDataType for i8 {
    proof fn lemma_scalar() {
    }
}

impl BufferDataType for i16 {
    open spec fn stride() -> nat {
        2
    }

    open spec fn bytes(&self, order: ByteOrder) -> Seq<u8> {
        bytes_of_u16(bits_of_i16(*self), order)
    }

    proof fn lemma_stride() {
    }

    proof fn lemma_layout(value: Self, order: ByteOrder) {
    }

    fn size() -> (size: usize) {
        2
    }

    fn write_bytes(&self, order: ByteOrder, out: &mut Vec<u8>) {
        let bits: u16 = if *self >= 0 {
            *self as u16
        } else {
            (*self as i32 + 65536) as u16
        };
        push_u16(bits, order, out);
    }
}

impl PrimitiveDataType for i16 {
    proof fn lemma_scalar() {
    }
}

impl BufferDataType for i32 {
    open spec fn stride() -> nat {
        4
    }

    open spec fn bytes(&self, order: ByteOrder) -> Seq<u8> {
        bytes_of_u32(bits_of_i32(*self), order)
    }

    proof fn lemma_stride() {
    }

    proof fn lemma_layout(value: Self, order: ByteOrder) {
    }

    fn size() -> (size: usize) {
        4
    }

    fn write_bytes(&self, order: ByteOrder, out: &mut Vec<u8>) {
        let bits: u32 = if *self >= 0 {
            *self as u32
        } else {
            (*self as i64 + 4294967296) as u32
        };
        push_u32(bits, order, out);
    }
}

impl PrimitiveDataType for i32 {
    proof fn lemma_scalar() {
    }
}

/// A 16-bit floating-point number, held as its bits.
#[derive(Clone, Copy, Debug, PartialEq, Eq, Hash, Structural)]
pub struct Float16 {
    /// The bits of the number: sign, five bits of exponent, ten of mantissa.
    pub bits: u16,
}

/// A 32-bit floating-point number, held as its bits.
#[derive(Clone, Copy, Debug, PartialEq, Eq, Hash, Structural)]
pub struct Float32 {
    /// The bits of the number: sign, eight bits of exponent, 23 of
    /// mantissa.
    pub bits: u32,
}

impl Float16 {
    /// The number with the bits `bits`.
    pub fn from_bits(bits: u16) -> (value: Self)
        ensures
            value.bits == bits,
    {
        Float16 { bits }
    }

    /// The bits of the number.
    pub fn to_bits(&self) -> (bits: u16)
        ensures
            bits == self.bits,
    {
        self.bits
    }
}

impl Float32 {
    /// The number with the bits `bits`.
    pub fn from_bits(bits: u32) -> (value: Self)
        ensures
            value.bits == bits,
    {
        Float32 { bits }
    }

    /// The bits of the number.
    pub fn to_bits(&self) -> (bits: u32)
        ensures
            bits == self.bits,
    {
        self.bits
    }
}

impl BufferDataType for Float16 {
    open spec fn stride() -> nat {
        2
    }

    open spec fn bytes(&self, order: ByteOrder) -> Seq<u8> {
        bytes_of_u16(self.bits, order)
    }

    proof fn lemma_stride() {
    }

    proof fn lemma_layout(value: Self, order: ByteOrder) {
    }

    fn size() -> (size: usize) {
        2
    }

    fn write_bytes(&self, order: ByteOrder, out: &mut Vec<u8>) {
        push_u16(self.bits, order, out);
    }
}

impl PrimitiveDataType for Float16 {
    proof fn lemma_scalar() {
    }
}

impl BufferDataType for Float32 {
    open spec fn stride() -> nat {
        4
    }

    open spec fn bytes(&self, order: ByteOrder) -> Seq<u8> {
        bytes_of_u32(self.bits, order)
    }

    proof fn lemma_stride() {
    }

    proof fn lemma_layout(value: Self, order: ByteOrder) {
    }

    fn size() -> (size: usize) {
        4
    }

    fn write_bytes(&self, order: ByteOrder, out: &mut Vec<u8>) {
        push_u32(self.bits, order, out);
    }
}

impl PrimitiveDataType for Float32 {
    proof fn lemma_scalar() {
    }
}

impl<T: PrimitiveDataType> BufferDataType for [T; 2] {
    open spec fn stride() -> nat {
        2 * T::stride()
    }

    open spec fn bytes(&self, order: ByteOrder) -> Seq<u8> {
        self@[0].bytes(order) + self@[1].bytes(order)
    }

    proof fn lemma_stride() {
        T::lemma_stride();
        T::lemma_scalar();
    }

    proof fn lemma_layout(value: Self, order: ByteOrder) {
        T::lemma_layout(value@[0], order);
        T::lemma_layout(value@[1], order);
    }

    fn size() -> (size: usize) {
        proof {
            T::lemma_scalar();
        }
        2 * T::size()
    }

    fn write_bytes(&self, order: ByteOrder, out: &mut Vec<u8>) {
        self[0].write_bytes(order, out);
        self[1].write_bytes(order, out);
    }
}

impl<T: PrimitiveDataType> BufferDataType for [T; 3] {
    open spec fn stride() -> nat {
        3 * T::stride()
    }

    open spec fn bytes(&self, order: ByteOrder) -> Seq<u8> {
        self@[0].bytes(order) + self@[1].bytes(order) + self@[2].bytes(order)
    }

    proof fn lemma_stride() {
        T::lemma_stride();
        T::lemma_scalar();
    }

    proof fn lemma_layout(value: Self, order: ByteOrder) {
        T::lemma_layout(value@[0], order);
        T::lemma_layout(value@[1], order);
        T::lemma_layout(value@[2], order);
    }

    fn size() -> (size: usize) {
        proof {
            T::lemma_scalar();
        }
        3 * T::size()
    }

    fn write_bytes(&self, order: ByteOrder, out: &mut Vec<u8>) {
        self[0].write_bytes(order, out);
        self[1].write_bytes(order, out);
        self[2].write_bytes(order, out);
    }
}

impl<T: PrimitiveDataType> BufferDataType for [T; 4] {
    open spec fn stride() -> nat {
        4 * T::stride()
    }

    open spec fn bytes(&self, order: ByteOrder) -> Seq<u8> {
        self@[0].bytes(order) + self@[1].bytes(order) + self@[2].bytes(order) + self@[3].bytes(
            order,
        )
    }

    proof fn lemma_stride() {
        T::lemma_stride();
        T::lemma_scalar();
    }

    proof fn lemma_layout(value: Self, order: ByteOrder) {
        T::lemma_layout(value@[0], order);
        T::lemma_layout(value@[1], order);
        T::lemma_layout(value@[2], order);
        T::lemma_layout(value@[3], order);
    }

    fn size() -> (size: usize) {
        proof {
            T::lemma_scalar();
        }
        4 * T::size()
    }

    fn write_bytes(&self, order: ByteOrder, out: &mut Vec<u8>) {
        self[0].write_bytes(order, out);
        self[1].write_bytes(order, out);
        self[2].write_bytes(order, out);
        self[3].write_bytes(order, out);
    }
}

} // verus!
