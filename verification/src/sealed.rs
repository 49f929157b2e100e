//! Closes the list of element types: no type outside this crate can be one.

use crate::data_type::{Float16, Float32};
use vstd::prelude::*;

verus! {

/// Implemented for the element types of this crate, and for no other: the
/// trait cannot be named from outside.
pub trait Sealed {
}

impl Sealed for u8 {
}

impl Sealed for u16 {
}

impl Sealed for u32 {
}

impl Sealed for i8 {
}

impl Sealed for i16 {
}

impl Sealed for i32 {
}

impl Sealed for Float16 {
}

impl Sealed for Float32 {
}

impl<T: Sealed> Sealed for [T; 2] {
}

impl<T: Sealed> Sealed for [T; 3] {
}

impl<T: Sealed> Sealed for [T; 4] {
}

} // verus!
