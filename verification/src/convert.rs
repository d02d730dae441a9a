//! The wasm representations of Rust's integers and booleans.

use vstd::prelude::*;

use crate::abi::{FromWasmAbi, IntoWasmAbi, WasmSlice};
use crate::stack::Stack;
use crate::words::{
    bits_of_i64, high_word, i64_of_bits, join_words, low_word, signed_wrap, word_modulus,
    wrap_to_word,
};

verus! {

// 32-bit integers are passed as they are.

impl IntoWasmAbi for u32 {
    type Abi = u32;

    open spec fn spec_into_abi(self) -> u32 {
        self
    }

    fn into_abi<S: Stack>(self, extra: &mut S) -> (r: u32)
        ensures
            *final(extra) == *old(extra),
    {
        self
    }
}

impl FromWasmAbi for u32 {
    type Abi = u32;

    open spec fn spec_from_abi(js: u32) -> u32 {
        js
    }

    fn from_abi<S: Stack>(js: u32, extra: &mut S) -> (r: u32)
        ensures
            *final(extra) == *old(extra),
    {
        js
    }
}

impl IntoWasmAbi for i32 {
    type Abi = i32;

    open spec fn spec_into_abi(self) -> i32 {
        self
    }

    fn into_abi<S: Stack>(self, extra: &mut S) -> (r: i32)
        ensures
            *final(extra) == *old(extra),
    {
        self
    }
}

impl FromWasmAbi for i32 {
    type Abi = i32;

    open spec fn spec_from_abi(js: i32) -> i32 {
        js
    }

    fn from_abi<S: Stack>(js: i32, extra: &mut S) -> (r: i32)
        ensures
            *final(extra) == *old(extra),
    {
        js
    }
}

// 64-bit integers are passed as two words: `ptr` holds the low half of the
// bit pattern and `len` the high half.

impl IntoWasmAbi for u64 {
    type Abi = WasmSlice;

    open spec fn spec_into_abi(self) -> WasmSlice {
        WasmSlice { ptr: low_word(self), len: high_word(self) }
    }

    fn into_abi<S: Stack>(self, extra: &mut S) -> (r: WasmSlice)
        ensures
            *final(extra) == *old(extra),
    {
        let x = self;
        assert(x as u32 == (x as u64 % 0x1_0000_0000) as u32) by (bit_vector);
        assert((x >> 32u64) as u32 == (x / 0x1_0000_0000) as u32) by (bit_vector);
        WasmSlice { ptr: x as u32, len: (x >> 32u64) as u32 }
    }
}

impl FromWasmAbi for u64 {
    type Abi = WasmSlice;

    open spec fn spec_from_abi(js: WasmSlice) -> u64 {
        join_words(js.ptr, js.len)
    }

    fn from_abi<S: Stack>(js: WasmSlice, extra: &mut S) -> (r: u64)
        ensures
            *final(extra) == *old(extra),
    {
        let low = js.ptr;
        let high = js.len;
        assert((low as u64) | ((high as u64) << 32u64) == (high * 0x1_0000_0000 + low) as u64)
            by (bit_vector);
        (low as u64) | ((high as u64) << 32u64)
    }
}

impl IntoWasmAbi for i64 {
    type Abi = WasmSlice;

    open spec fn spec_into_abi(self) -> WasmSlice {
        WasmSlice { ptr: low_word(bits_of_i64(self)), len: high_word(bits_of_i64(self)) }
    }

    fn into_abi<S: Stack>(self, extra: &mut S) -> (r: WasmSlice)
        ensures
            *final(extra) == *old(extra),
    {
        let x = self;
        assert(x as u32 == ((if x >= 0 { x as int } else { x + 0x1_0000_0000_0000_0000 })
            % 0x1_0000_0000) as u32) by (bit_vector);
        assert((x >> 32u64) as u32 == ((if x >= 0 { x as int } else { x
            + 0x1_0000_0000_0000_0000 }) / 0x1_0000_0000) as u32) by (bit_vector);
        WasmSlice { ptr: x as u32, len: (x >> 32u64) as u32 }
    }
}

impl FromWasmAbi for i64 {
    type Abi = WasmSlice;

    open spec fn spec_from_abi(js: WasmSlice) -> i64 {
        i64_of_bits(join_words(js.ptr, js.len))
    }

    fn from_abi<S: Stack>(js: WasmSlice, extra: &mut S) -> (r: i64)
        ensures
            *final(extra) == *old(extra),
    {
        let low = js.ptr;
        let high = js.len;
        assert((low as i64) | ((high as i64) << 32u64) == (if high * 0x1_0000_0000 + low
            < 0x8000_0000_0000_0000 { high * 0x1_0000_0000 + low } else { high * 0x1_0000_0000
            + low - 0x1_0000_0000_0000_0000 }) as i64) by (bit_vector);
        (low as i64) | ((high as i64) << 32u64)
    }
}

// Narrower integers, and pointer-sized ones, are passed as one word: the
// integer modulo 2^32 on the way out, its low bits on the way in.

impl IntoWasmAbi for u8 {
    type Abi = u32;

    open spec fn spec_into_abi(self) -> u32 {
        wrap_to_word(self as int)
    }

    fn into_abi<S: Stack>(self, extra: &mut S) -> (r: u32)
        ensures
            *final(extra) == *old(extra),
    {
        let x = self;
        assert(x as u32 == (x as u64 % 0x1_0000_0000) as u32) by (bit_vector);
        x as u32
    }
}

impl FromWasmAbi for u8 {
    type Abi = u32;

    open spec fn spec_from_abi(js: u32) -> u8 {
        (js % 0x100) as u8
    }

    fn from_abi<S: Stack>(js: u32, extra: &mut S) -> (r: u8)
        ensures
            *final(extra) == *old(extra),
    {
        assert(js as u8 == (js % 0x100) as u8) by (bit_vector);
        js as u8
    }
}

impl IntoWasmAbi for i8 {
    type Abi = u32;

    open spec fn spec_into_abi(self) -> u32 {
        wrap_to_word(self as int)
    }

    fn into_abi<S: Stack>(self, extra: &mut S) -> (r: u32)
        ensures
            *final(extra) == *old(extra),
    {
        let x = self;
        assert(x as u32 == ((if x >= 0 { x as int } else { x + 0x1_0000_0000 })
            % 0x1_0000_0000) as u32) by (bit_vector);
        x as u32
    }
}

impl FromWasmAbi for i8 {
    type Abi = u32;

    open spec fn spec_from_abi(js: u32) -> i8 {
        signed_wrap(js as int, 0x100) as i8
    }

    fn from_abi<S: Stack>(js: u32, extra: &mut S) -> (r: i8)
        ensures
            *final(extra) == *old(extra),
    {
        assert(js as i8 == (if js % 0x100 < 0x80 { (js % 0x100) as int } else { js % 0x100
            - 0x100 }) as i8) by (bit_vector);
        js as i8
    }
}

impl IntoWasmAbi for u16 {
    type Abi = u32;

    open spec fn spec_into_abi(self) -> u32 {
        wrap_to_word(self as int)
    }

    fn into_abi<S: Stack>(self, extra: &mut S) -> (r: u32)
        ensures
            *final(extra) == *old(extra),
    {
        let x = self;
        assert(x as u32 == (x as u64 % 0x1_0000_0000) as u32) by (bit_vector);
        x as u32
    }
}

impl FromWasmAbi for u16 {
    type Abi = u32;

    open spec fn spec_from_abi(js: u32) -> u16 {
        (js % 0x1_0000) as u16
    }

    fn from_abi<S: Stack>(js: u32, extra: &mut S) -> (r: u16)
        ensures
            *final(extra) == *old(extra),
    {
        assert(js as u16 == (js % 0x1_0000) as u16) by (bit_vector);
        js as u16
    }
}

impl IntoWasmAbi for i16 {
    type Abi = u32;

    open spec fn spec_into_abi(self) -> u32 {
        wrap_to_word(self as int)
    }

    fn into_abi<S: Stack>(self, extra: &mut S) -> (r: u32)
        ensures
            *final(extra) == *old(extra),
    {
        let x = self;
        assert(x as u32 == ((if x >= 0 { x as int } else { x + 0x1_0000_0000 })
            % 0x1_0000_0000) as u32) by (bit_vector);
        x as u32
    }
}

impl FromWasmAbi for i16 {
    type Abi = u32;

    open spec fn spec_from_abi(js: u32) -> i16 {
        signed_wrap(js as int, 0x1_0000) as i16
    }

    fn from_abi<S: Stack>(js: u32, extra: &mut S) -> (r: i16)
        ensures
            *final(extra) == *old(extra),
    {
        assert(js as i16 == (if js % 0x1_0000 < 0x8000 { (js % 0x1_0000) as int } else { js
            % 0x1_0000 - 0x1_0000 }) as i16) by (bit_vector);
        js as i16
    }
}

impl IntoWasmAbi for usize {
    type Abi = u32;

    open spec fn spec_into_abi(self) -> u32 {
        wrap_to_word(self as int)
    }

    fn into_abi<S: Stack>(self, extra: &mut S) -> (r: u32)
        ensures
            *final(extra) == *old(extra),
    {
        let x = self;
        assert(x as u32 == (x as u64 % 0x1_0000_0000) as u32) by (bit_vector);
        x as u32
    }
}

impl FromWasmAbi for usize {
    type Abi = u32;

    open spec fn spec_from_abi(js: u32) -> usize {
        js as usize
    }

    fn from_abi<S: Stack>(js: u32, extra: &mut S) -> (r: usize)
        ensures
            *final(extra) == *old(extra),
    {
        js as usize
    }
}

impl IntoWasmAbi for isize {
    type Abi = u32;

    open spec fn spec_into_abi(self) -> u32 {
        wrap_to_word(self as int)
    }

    fn into_abi<S: Stack>(self, extra: &mut S) -> (r: u32)
        ensures
            *final(extra) == *old(extra),
    {
        let x = self;
        assert(x as u32 == ((if x >= 0 { x as int } else { x + 0x1_0000_0000_0000_0000 })
            % 0x1_0000_0000) as u32) by (bit_vector);
        x as u32
    }
}

impl FromWasmAbi for isize {
    type Abi = u32;

    open spec fn spec_from_abi(js: u32) -> isize {
        (if js as int <= isize::MAX as int { js as int } else { js - word_modulus() }) as isize
    }

    fn from_abi<S: Stack>(js: u32, extra: &mut S) -> (r: isize)
        ensures
            *final(extra) == *old(extra),
    {
        assert(js as isize == (if usize::BITS == 64 || js < 0x8000_0000 { js as int } else { js
            - 0x1_0000_0000 }) as isize) by (bit_vector);
        assert(usize::BITS == 32 ==> isize::MAX == 0x7fff_ffff);
        assert(usize::BITS == 64 ==> isize::MAX > 0x1_0000_0000);
        js as isize
    }
}

// Booleans are passed as one word: 1 for true and 0 for false on the way
// out; any nonzero word reads as true on the way in.

impl IntoWasmAbi for bool {
    type Abi = u32;

    open spec fn spec_into_abi(self) -> u32 {
        if self {
            1
        } else {
            0
        }
    }

    fn into_abi<S: Stack>(self, extra: &mut S) -> (r: u32)
        ensures
            *final(extra) == *old(extra),
    {
        if self {
            1
        } else {
            0
        }
    }
}

impl FromWasmAbi for bool {
    type Abi = u32;

    open spec fn spec_from_abi(js: u32) -> bool {
        js != 0
    }

    fn from_abi<S: Stack>(js: u32, extra: &mut S) -> (r: bool)
        ensures
            *final(extra) == *old(extra),
    {
        js != 0
    }
}

} // verus!
