//! What holds across the conversions: a value that goes out and comes back
//! in is the value that went out, and which words survive the opposite trip.

use vstd::prelude::*;

use crate::abi::{FromWasmAbi, IntoWasmAbi, WasmSlice};
use crate::value::{lemma_js_value_from_index, lemma_js_value_view_injective, JsValue};
use crate::words::{bits_of_i64, lemma_i64_bits, lemma_join_split, lemma_split_join};

verus! {

/// Every `u8` that is converted to its wasm representation and back is
/// unchanged.
pub proof fn law_round_trip_u8(x: u8)
    ensures
        <u8 as FromWasmAbi>::spec_from_abi(<u8 as IntoWasmAbi>::spec_into_abi(x)) == x,
{
}

/// Every `i8` that is converted to its wasm representation and back is
/// unchanged.
pub proof fn law_round_trip_i8(x: i8)
    ensures
        <i8 as FromWasmAbi>::spec_from_abi(<i8 as IntoWasmAbi>::spec_into_abi(x)) == x,
{
}

/// Every `u16` that is converted to its wasm representation and back is
/// unchanged.
pub proof fn law_round_trip_u16(x: u16)
    ensures
        <u16 as FromWasmAbi>::spec_from_abi(<u16 as IntoWasmAbi>::spec_into_abi(x)) == x,
{
}

/// Every `i16` that is converted to its wasm representation and back is
/// unchanged.
pub proof fn law_round_trip_i16(x: i16)
    ensures
        <i16 as FromWasmAbi>::spec_from_abi(<i16 as IntoWasmAbi>::spec_into_abi(x)) == x,
{
}

/// Every `u32` that is converted to its wasm representation and back is
/// unchanged.
pub proof fn law_round_trip_u32(x: u32)
    ensures
        <u32 as FromWasmAbi>::spec_from_abi(<u32 as IntoWasmAbi>::spec_into_abi(x)) == x,
{
}

/// Every `i32` that is converted to its wasm representation and back is
/// unchanged.
pub proof fn law_round_trip_i32(x: i32)
    ensures
        <i32 as FromWasmAbi>::spec_from_abi(<i32 as IntoWasmAbi>::spec_into_abi(x)) == x,
{
}

/// Every `u64` that is converted to its wasm representation and back is
/// unchanged.
pub proof fn law_round_trip_u64(x: u64)
    ensures
        <u64 as FromWasmAbi>::spec_from_abi(<u64 as IntoWasmAbi>::spec_into_abi(x)) == x,
{
    lemma_join_split(x);
}

/// Every `i64` that is converted to its wasm representation and back is
/// unchanged.
pub proof fn law_round_trip_i64(x: i64)
    ensures
        <i64 as FromWasmAbi>::spec_from_abi(<i64 as IntoWasmAbi>::spec_into_abi(x)) == x,
{
    lemma_join_split(bits_of_i64(x));
    lemma_i64_bits(x, 0);
}

/// Every `bool` that is converted to its wasm representation and back is
/// unchanged.
pub proof fn law_round_trip_bool(x: bool)
    ensures
        <bool as FromWasmAbi>::spec_from_abi(<bool as IntoWasmAbi>::spec_into_abi(x)) == x,
{
}

/// A `usize` comes back unchanged exactly when it fits in 32 bits, which on
/// a 32-bit target is always.
pub proof fn law_round_trip_usize(x: usize)
    ensures
        <usize as FromWasmAbi>::spec_from_abi(<usize as IntoWasmAbi>::spec_into_abi(x)) == x
            <==> x < 0x1_0000_0000,
        usize::BITS == 32 ==> <usize as FromWasmAbi>::spec_from_abi(
            <usize as IntoWasmAbi>::spec_into_abi(x),
        ) == x,
{
}

/// An `isize` comes back unchanged on a 32-bit target always, and on a 64-bit
/// target exactly when it lies in `[0, 2^32)`.
pub proof fn law_round_trip_isize(x: isize)
    ensures
        usize::BITS == 32 ==> <isize as FromWasmAbi>::spec_from_abi(
            <isize as IntoWasmAbi>::spec_into_abi(x),
        ) == x,
        usize::BITS == 64 ==> (<isize as FromWasmAbi>::spec_from_abi(
            <isize as IntoWasmAbi>::spec_into_abi(x),
        ) == x <==> 0 <= x < 0x1_0000_0000),
{
    assert(usize::BITS == 32 ==> isize::MAX == 0x7fff_ffff && isize::MIN == -0x8000_0000);
    assert(usize::BITS == 64 ==> isize::MAX > 0x1_0000_0000);
}

/// Words that are read as a `u32`, `i32`, `u64`, `i64`, `usize` or `isize`
/// and converted back are the words that were read.
pub proof fn law_abi_round_trip_exact(e: u32, f: i32, g: WasmSlice, h: WasmSlice, m: u32, n: u32)
    ensures
        <u32 as IntoWasmAbi>::spec_into_abi(<u32 as FromWasmAbi>::spec_from_abi(e)) == e,
        <i32 as IntoWasmAbi>::spec_into_abi(<i32 as FromWasmAbi>::spec_from_abi(f)) == f,
        <u64 as IntoWasmAbi>::spec_into_abi(<u64 as FromWasmAbi>::spec_from_abi(g)) == g,
        <i64 as IntoWasmAbi>::spec_into_abi(<i64 as FromWasmAbi>::spec_from_abi(h)) == h,
        <usize as IntoWasmAbi>::spec_into_abi(<usize as FromWasmAbi>::spec_from_abi(m)) == m,
        <isize as IntoWasmAbi>::spec_into_abi(<isize as FromWasmAbi>::spec_from_abi(n)) == n,
{
    lemma_split_join(g.ptr, g.len);
    lemma_split_join(h.ptr, h.len);
    lemma_i64_bits(0, crate::words::join_words(h.ptr, h.len));
    assert(usize::BITS == 32 ==> isize::MAX == 0x7fff_ffff);
    assert(usize::BITS == 64 ==> isize::MAX > 0x1_0000_0000);
}

/// A word read as a narrower integer or a boolean comes back unchanged
/// exactly when it is the representation of some value of that type.
pub proof fn law_abi_round_trip_narrow(js: u32)
    ensures
        <u8 as IntoWasmAbi>::spec_into_abi(<u8 as FromWasmAbi>::spec_from_abi(js)) == js
            <==> js < 0x100,
        <u16 as IntoWasmAbi>::spec_into_abi(<u16 as FromWasmAbi>::spec_from_abi(js)) == js
            <==> js < 0x1_0000,
        <i8 as IntoWasmAbi>::spec_into_abi(<i8 as FromWasmAbi>::spec_from_abi(js)) == js
            <==> (js < 0x80 || js >= 0xffff_ff80),
        <i16 as IntoWasmAbi>::spec_into_abi(<i16 as FromWasmAbi>::spec_from_abi(js)) == js
            <==> (js < 0x8000 || js >= 0xffff_8000),
        <bool as IntoWasmAbi>::spec_into_abi(<bool as FromWasmAbi>::spec_from_abi(js)) == js
            <==> js <= 1,
{
}

/// An `i64` crosses the boundary as the same two words as its
/// two's-complement bit pattern does as a `u64`.
pub proof fn law_i64_shares_u64_layout(x: i64)
    ensures
        <i64 as IntoWasmAbi>::spec_into_abi(x) == <u64 as IntoWasmAbi>::spec_into_abi(
            bits_of_i64(x),
        ),
{
}

/// A handle that goes out and comes back in names the same slot, an index
/// read as a handle goes back out as the same index, and lending a handle
/// hands out the same index as giving it away.
pub proof fn law_js_value_round_trip(v: JsValue, js: u32)
    ensures
        <&JsValue as IntoWasmAbi>::spec_into_abi(&v) == <JsValue as IntoWasmAbi>::spec_into_abi(v),
        <JsValue as FromWasmAbi>::spec_from_abi(<JsValue as IntoWasmAbi>::spec_into_abi(v)) == v,
        <JsValue as IntoWasmAbi>::spec_into_abi(<JsValue as FromWasmAbi>::spec_from_abi(js))
            == js,
{
    lemma_js_value_from_index(v@);
    lemma_js_value_view_injective(<JsValue as FromWasmAbi>::spec_from_abi(v@), v);
    lemma_js_value_from_index(js);
}

/// A `u32` or an `i32` crosses the boundary as itself, in both directions.
pub proof fn law_32_bit_words_pass_unchanged(x: u32, y: i32)
    ensures
        <u32 as IntoWasmAbi>::spec_into_abi(x) == x,
        <u32 as FromWasmAbi>::spec_from_abi(x) == x,
        <i32 as IntoWasmAbi>::spec_into_abi(y) == y,
        <i32 as FromWasmAbi>::spec_from_abi(y) == y,
{
}

/// A `u64` goes out with its value modulo 2^32 in `ptr` and its value divided
/// by 2^32 in `len`; two words come in as `len * 2^32 + ptr`.
pub proof fn law_u64_word_layout(x: u64, w: WasmSlice)
    ensures
        <u64 as IntoWasmAbi>::spec_into_abi(x).ptr == x % 0x1_0000_0000,
        <u64 as IntoWasmAbi>::spec_into_abi(x).len == x / 0x1_0000_0000,
        <u64 as FromWasmAbi>::spec_from_abi(w) == w.len * 0x1_0000_0000 + w.ptr,
{
}

/// An `i64` goes out as the words of its two's-complement pattern (the
/// value itself if nonnegative, the value plus 2^64 otherwise): the pattern
/// modulo 2^32 in `ptr`, the pattern divided by 2^32 in `len`. Two words come
/// in as the pattern `len * 2^32 + ptr`, read as two's complement.
pub proof fn law_i64_word_layout(x: i64, w: WasmSlice)
    ensures
        <i64 as IntoWasmAbi>::spec_into_abi(x).ptr == (if x >= 0 {
            x as int
        } else {
            x + 0x1_0000_0000_0000_0000
        }) % 0x1_0000_0000,
        <i64 as IntoWasmAbi>::spec_into_abi(x).len == (if x >= 0 {
            x as int
        } else {
            x + 0x1_0000_0000_0000_0000
        }) / 0x1_0000_0000,
        <i64 as FromWasmAbi>::spec_from_abi(w) == (if w.len < 0x8000_0000 {
            w.len * 0x1_0000_0000 + w.ptr
        } else {
            w.len * 0x1_0000_0000 + w.ptr - 0x1_0000_0000_0000_0000
        }),
{
}

/// A `u8` or a `u16` goes out zero-extended, as its own value; a word comes
/// in as its value modulo 2^8 or 2^16.
pub proof fn law_narrow_unsigned_word(a: u8, b: u16, js: u32)
    ensures
        <u8 as IntoWasmAbi>::spec_into_abi(a) == a,
        <u16 as IntoWasmAbi>::spec_into_abi(b) == b,
        <u8 as FromWasmAbi>::spec_from_abi(js) == js % 0x100,
        <u16 as FromWasmAbi>::spec_from_abi(js) == js % 0x1_0000,
{
}

/// An `i8` or an `i16` goes out sign-extended: a nonnegative value as
/// itself, a negative one as the value plus 2^32. A word comes in as its low
/// 8 or 16 bits read as two's complement.
pub proof fn law_narrow_signed_word(a: i8, b: i16, js: u32)
    ensures
        <i8 as IntoWasmAbi>::spec_into_abi(a) == (if a >= 0 {
            a as int
        } else {
            a + 0x1_0000_0000
        }),
        <i16 as IntoWasmAbi>::spec_into_abi(b) == (if b >= 0 {
            b as int
        } else {
            b + 0x1_0000_0000
        }),
        <i8 as FromWasmAbi>::spec_from_abi(js) == (if js % 0x100 < 0x80 {
            (js % 0x100) as int
        } else {
            js % 0x100 - 0x100
        }),
        <i16 as FromWasmAbi>::spec_from_abi(js) == (if js % 0x1_0000 < 0x8000 {
            (js % 0x1_0000) as int
        } else {
            js % 0x1_0000 - 0x1_0000
        }),
{
}

/// A `usize` goes out as its value modulo 2^32, and a word comes in as its
/// own value. An `isize` goes out as its value modulo 2^32 (nonnegative);
/// a word comes in as itself when `isize` can hold it, and otherwise as the
/// word minus 2^32.
pub proof fn law_pointer_sized_word(a: usize, b: isize, js: u32)
    ensures
        <usize as IntoWasmAbi>::spec_into_abi(a) == (a as int) % 0x1_0000_0000,
        <usize as FromWasmAbi>::spec_from_abi(js) == js,
        <isize as IntoWasmAbi>::spec_into_abi(b) == (b as int) % 0x1_0000_0000,
        <isize as FromWasmAbi>::spec_from_abi(js) == (if js <= isize::MAX {
            js as int
        } else {
            js - 0x1_0000_0000
        }),
{
    assert(usize::BITS == 32 ==> isize::MIN == -0x8000_0000);
}

/// `true` goes out as 1 and `false` as 0; a word comes in as `true` exactly
/// when it is nonzero.
pub proof fn law_bool_word(k: bool, js: u32)
    ensures
        <bool as IntoWasmAbi>::spec_into_abi(k) == (if k {
            1u32
        } else {
            0u32
        }),
        <bool as FromWasmAbi>::spec_from_abi(js) <==> js != 0,
{
}

} // verus!
