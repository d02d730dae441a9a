//! Handles to values that live on the JavaScript side.

use vstd::prelude::*;

use core::mem::ManuallyDrop;

use crate::abi::{FromWasmAbi, IntoWasmAbi, RefFromWasmAbi};
use crate::stack::Stack;

verus! {

/// A handle to a JavaScript value: the index of its slot in the host's
/// table of values. Crossing the boundary, a handle is its index.
#[derive(Debug)]
pub struct JsValue {
    idx: u32,
}

impl View for JsValue {
    type V = u32;

    /// The slot index that the handle names.
    closed spec fn view(&self) -> u32 {
        self.idx
    }
}

/// Two handles with the same index are the same handle.
pub proof fn lemma_js_value_view_injective(a: JsValue, b: JsValue)
    ensures
        a@ == b@ ==> a == b,
{
}

/// The handle rebuilt from a word names the slot with that index.
pub proof fn lemma_js_value_from_index(js: u32)
    ensures
        <JsValue as FromWasmAbi>::spec_from_abi(js)@ == js,
{
}

impl IntoWasmAbi for JsValue {
    type Abi = u32;

    open spec fn spec_into_abi(self) -> u32 {
        self@
    }

    /// Hands out the handle's index; the slot now belongs to the host.
    fn into_abi<S: Stack>(self, extra: &mut S) -> (r: u32)
        ensures
            *final(extra) == *old(extra),
    {
        self.idx
    }
}

impl FromWasmAbi for JsValue {
    type Abi = u32;

    closed spec fn spec_from_abi(js: u32) -> JsValue {
        JsValue { idx: js }
    }

    /// Takes ownership of the slot with index `js`.
    fn from_abi<S: Stack>(js: u32, extra: &mut S) -> (r: JsValue)
        ensures
            r@ == js,
            *final(extra) == *old(extra),
    {
        JsValue { idx: js }
    }
}

impl<'a> IntoWasmAbi for &'a JsValue {
    type Abi = u32;

    open spec fn spec_into_abi(self) -> u32 {
        self@
    }

    /// Lends the handle's index; the slot still belongs to the borrowed handle.
    fn into_abi<S: Stack>(self, extra: &mut S) -> (r: u32)
        ensures
            *final(extra) == *old(extra),
    {
        self.idx
    }
}

impl RefFromWasmAbi for JsValue {
    type Abi = u32;

    type Anchor = ManuallyDrop<JsValue>;

    /// A borrowed handle to the slot with index `js`, which the anchor never
    /// releases.
    fn ref_from_abi<S: Stack>(js: u32, extra: &mut S) -> (r: ManuallyDrop<JsValue>)
        ensures
            r@@ == js,
            *final(extra) == *old(extra),
    {
        ManuallyDrop::new(JsValue { idx: js })
    }
}

} // verus!
