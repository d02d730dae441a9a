//! The traits that describe how a value crosses the wasm boundary, and the
//! shapes of the words that may cross it.

use vstd::prelude::*;

use crate::stack::Stack;

verus! {

/// A four-byte type descriptor, as emitted for the binding generator.
#[derive(PartialEq, Eq, Copy, Clone)]
pub struct Descriptor {
    pub __x: [u8; 4],
}

/// Types that may be passed directly as wasm arguments or results.
pub trait WasmAbi {}

impl WasmAbi for u32 {}

impl WasmAbi for i32 {}

/// A pair of 32-bit words passed together: a pointer and a length, or the
/// low and high halves of a 64-bit integer.
pub struct WasmSlice {
    pub ptr: u32,
    pub len: u32,
}

impl WasmAbi for WasmSlice {}

/// A Rust value that can be turned into its wasm representation.
pub trait IntoWasmAbi: Sized {
    type Abi: WasmAbi;

    /// The representation that `into_abi` hands out for `self`.
    spec fn spec_into_abi(self) -> Self::Abi;

    /// Converts `self` into the words that cross the boundary; `extra` is the
    /// stack through which any further words are passed.
    fn into_abi<S: Stack>(self, extra: &mut S) -> (r: Self::Abi)
        ensures
            r == self.spec_into_abi(),
    ;
}

/// A Rust value that can be rebuilt from its wasm representation.
pub trait FromWasmAbi: Sized {
    type Abi: WasmAbi;

    /// The value that `from_abi` rebuilds from `js`.
    spec fn spec_from_abi(js: Self::Abi) -> Self;

    /// Rebuilds a value from the words that crossed the boundary.
    fn from_abi<S: Stack>(js: Self::Abi, extra: &mut S) -> (r: Self)
        ensures
            r == Self::spec_from_abi(js),
    ;
}

/// A type of which a shared borrow can be rebuilt from its wasm
/// representation; `Anchor` keeps the borrowed value alive.
pub trait RefFromWasmAbi {
    type Abi: WasmAbi;

    type Anchor: core::ops::Deref<Target = Self>;

    fn ref_from_abi<S: Stack>(js: Self::Abi, extra: &mut S) -> Self::Anchor;
}

/// A type of which a unique borrow can be rebuilt from its wasm
/// representation; `Anchor` keeps the borrowed value alive.
pub trait RefMutFromWasmAbi {
    type Abi: WasmAbi;

    type Anchor: core::ops::DerefMut<Target = Self>;

    fn ref_mut_from_abi<S: Stack>(js: Self::Abi, extra: &mut S) -> Self::Anchor;
}

} // verus!
