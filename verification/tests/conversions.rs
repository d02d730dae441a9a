use lib::abi::{Descriptor, FromWasmAbi, IntoWasmAbi, RefFromWasmAbi, WasmSlice};
use lib::stack::GlobalStack;
use lib::value::JsValue;

fn words(w: WasmSlice) -> (u32, u32) {
    (w.ptr, w.len)
}

fn slice(ptr: u32, len: u32) -> WasmSlice {
    WasmSlice { ptr, len }
}

fn into<T: IntoWasmAbi>(x: T) -> T::Abi {
    let mut buf = [0u32; 16];
    let mut stack = GlobalStack::new(&mut buf);
    let r = x.into_abi(&mut stack);
    assert_eq!(stack.next, 0);
    r
}

fn from<T: FromWasmAbi>(js: T::Abi) -> T {
    let mut buf = [0u32; 16];
    let mut stack = GlobalStack::new(&mut buf);
    let r = T::from_abi(js, &mut stack);
    assert_eq!(stack.next, 0);
    r
}

#[test]
fn u32_and_i32_pass_unchanged() {
    assert_eq!(into(0u32), 0);
    assert_eq!(into(u32::MAX), u32::MAX);
    assert_eq!(from::<u32>(123_456), 123_456);
    assert_eq!(into(-5i32), -5);
    assert_eq!(into(i32::MIN), i32::MIN);
    assert_eq!(from::<i32>(i32::MAX), i32::MAX);
}

#[test]
fn u64_splits_into_low_and_high_words() {
    assert_eq!(
        words(into(0x1234_5678_9abc_def0u64)), (0x9abc_def0, 0x1234_5678)
    );
    assert_eq!(words(into(u64::MAX)), (u32::MAX, u32::MAX));
    assert_eq!(words(into(0x1_0000_0000u64)), (0, 1));
    assert_eq!(from::<u64>(slice(0x9abc_def0, 0x1234_5678)), 0x1234_5678_9abc_def0);
    assert_eq!(from::<u64>(slice(7, 0)), 7);
}

#[test]
fn i64_splits_its_twos_complement_pattern() {
    assert_eq!(words(into(-1i64)), (u32::MAX, u32::MAX));
    assert_eq!(words(into(-2i64)), (0xffff_fffe, 0xffff_ffff));
    assert_eq!(words(into(i64::MIN)), (0, 0x8000_0000));
    assert_eq!(words(into(i64::MAX)), (u32::MAX, 0x7fff_ffff));
    assert_eq!(from::<i64>(slice(0, 0x8000_0000)), i64::MIN);
    assert_eq!(from::<i64>(slice(0xffff_fffe, 0xffff_ffff)), -2);
    assert_eq!(from::<i64>(slice(5, 1)), 0x1_0000_0005);
}

#[test]
fn i64_and_u64_share_a_layout() {
    for x in [0i64, 1, -1, 42, -42, i64::MIN, i64::MAX, 0x1234_5678_9abc_def0] {
        assert_eq!(words(into(x)), words(into(x as u64)));
    }
}

#[test]
fn narrow_unsigned_integers_pass_as_one_word() {
    assert_eq!(into(255u8), 255);
    assert_eq!(into(0xffffu16), 0xffff);
    assert_eq!(from::<u8>(0x1ff), 0xff);
    assert_eq!(from::<u8>(0x100), 0);
    assert_eq!(from::<u16>(0x1_2345), 0x2345);
    assert_eq!(from::<u16>(u32::MAX), 0xffff);
}

#[test]
fn narrow_signed_integers_are_sign_extended_and_truncated() {
    assert_eq!(into(-1i8), 0xffff_ffff);
    assert_eq!(into(-128i8), 0xffff_ff80);
    assert_eq!(into(127i8), 0x7f);
    assert_eq!(into(-1i16), 0xffff_ffff);
    assert_eq!(into(i16::MIN), 0xffff_8000);
    assert_eq!(from::<i8>(0xffff_ff80), -128);
    assert_eq!(from::<i8>(0x80), -128);
    assert_eq!(from::<i8>(0x7f), 127);
    assert_eq!(from::<i8>(0x1ff), -1);
    assert_eq!(from::<i16>(0x8000), i16::MIN);
    assert_eq!(from::<i16>(0x1_7fff), i16::MAX);
}

#[test]
fn pointer_sized_integers_pass_as_one_word() {
    assert_eq!(into(7usize), 7);
    assert_eq!(into(u32::MAX as usize), u32::MAX);
    assert_eq!(from::<usize>(u32::MAX), u32::MAX as usize);
    assert_eq!(into(-1isize), 0xffff_ffff);
    assert_eq!(into(5isize), 5);
    if usize::BITS == 64 {
        assert_eq!(into(0x1_0000_0005usize), 5);
        assert_eq!(from::<isize>(0xffff_ffff), 0xffff_ffff_i64 as isize);
    } else {
        assert_eq!(from::<isize>(0xffff_ffff), -1);
    }
    assert_eq!(from::<isize>(0x7fff_ffff), 0x7fff_ffff);
}

#[test]
fn booleans_pass_as_zero_or_one() {
    assert_eq!(into(true), 1);
    assert_eq!(into(false), 0);
    assert!(!from::<bool>(0));
    assert!(from::<bool>(1));
    assert!(from::<bool>(2));
    assert!(from::<bool>(u32::MAX));
}

#[test]
fn values_survive_the_round_trip() {
    for x in [0u8, 1, 127, 128, 255] {
        assert_eq!(from::<u8>(into(x)), x);
    }
    for x in [i8::MIN, -1, 0, 1, i8::MAX] {
        assert_eq!(from::<i8>(into(x)), x);
    }
    for x in [0u16, 0x8000, u16::MAX] {
        assert_eq!(from::<u16>(into(x)), x);
    }
    for x in [i16::MIN, -1, 0, i16::MAX] {
        assert_eq!(from::<i16>(into(x)), x);
    }
    for x in [0u64, 1, u64::MAX, 0xdead_beef_0000_0001] {
        assert_eq!(from::<u64>(into(x)), x);
    }
    for x in [i64::MIN, -1, 0, i64::MAX, -0x1_0000_0000] {
        assert_eq!(from::<i64>(into(x)), x);
    }
    for x in [true, false] {
        assert_eq!(from::<bool>(into(x)), x);
    }
    assert_eq!(from::<usize>(into(0xffff_ffffusize)), 0xffff_ffff);
    assert_eq!(from::<isize>(into(0x7fff_ffffisize)), 0x7fff_ffff);
}

#[test]
fn pointer_sized_integers_survive_only_when_they_fit_the_word() {
    if usize::BITS == 64 {
        assert_ne!(from::<usize>(into(0x1_0000_0000usize)), 0x1_0000_0000);
        assert_ne!(from::<isize>(into(-1isize)), -1);
        assert_eq!(from::<isize>(into(0xffff_ffffisize)), 0xffff_ffff);
    } else {
        assert_eq!(from::<isize>(into(-1isize)), -1);
        assert_eq!(from::<isize>(into(isize::MIN)), isize::MIN);
    }
}

#[test]
fn words_survive_the_opposite_trip_only_when_they_represent_a_value() {
    assert_eq!(into(from::<u8>(0xff)), 0xff);
    assert_ne!(into(from::<u8>(0x100)), 0x100);
    assert_eq!(into(from::<i8>(0xffff_ff80)), 0xffff_ff80);
    assert_ne!(into(from::<i8>(0x80)), 0x80);
    assert_eq!(into(from::<i16>(0xffff_8000)), 0xffff_8000);
    assert_ne!(into(from::<i16>(0x8000)), 0x8000);
    assert_eq!(into(from::<bool>(1)), 1);
    assert_ne!(into(from::<bool>(2)), 2);
    let w = (0x8000_0000, 0xffff_ffff);
    assert_eq!(words(into(from::<i64>(slice(w.0, w.1)))), w);
    assert_eq!(words(into(from::<u64>(slice(w.0, w.1)))), w);
    assert_eq!(into(from::<isize>(0xffff_ffff)), 0xffff_ffff);
}

#[test]
fn js_value_handles_pass_as_their_index() {
    let v: JsValue = from(42);
    assert_eq!(into(&v), 42);
    assert_eq!(into(v), 42);
    let mut buf = [0u32; 16];
    let mut stack = GlobalStack::new(&mut buf);
    let anchor = JsValue::ref_from_abi(7, &mut stack);
    let borrowed: &JsValue = &anchor;
    assert_eq!(borrowed.into_abi(&mut stack), 7);
    assert_eq!(stack.next, 0);
}

#[test]
fn descriptors_compare_by_bytes() {
    let a = Descriptor { __x: [1, 2, 3, 4] };
    let b = a;
    assert!(a == b);
    assert!(a != Descriptor { __x: [1, 2, 3, 5] });
}
