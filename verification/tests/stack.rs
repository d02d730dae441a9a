use lib::stack::{GlobalStack, Stack, GLOBAL_STACK_CAP};

#[test]
fn pushed_words_are_popped_in_order_from_a_fresh_cursor() {
    let mut buf = [0u32; 16];
    {
        let mut out = GlobalStack::new(&mut buf);
        out.push(10);
        out.push(20);
        out.push(30);
        assert_eq!(out.next, 3);
    }
    let mut inn = GlobalStack::new(&mut buf);
    assert_eq!(inn.pop(), 10);
    assert_eq!(inn.pop(), 20);
    assert_eq!(inn.pop(), 30);
    assert_eq!(inn.pop(), 0);
    assert_eq!(inn.next, 4);
}

#[test]
fn push_writes_only_the_slot_under_the_cursor() {
    let mut buf = [9u32; 16];
    {
        let mut s = GlobalStack::new(&mut buf);
        s.push(1);
        s.push(2);
    }
    assert_eq!(buf[0], 1);
    assert_eq!(buf[1], 2);
    assert!(buf[2..].iter().all(|&w| w == 9));
}

#[test]
fn pop_reads_without_writing() {
    let mut buf = [0u32; 16];
    buf[0] = 5;
    buf[1] = 6;
    {
        let mut s = GlobalStack::new(&mut buf);
        assert_eq!(s.pop(), 5);
        assert_eq!(s.pop(), 6);
    }
    assert_eq!(buf[0], 5);
    assert_eq!(buf[1], 6);
}

#[test]
fn the_stack_holds_sixteen_words() {
    assert_eq!(GLOBAL_STACK_CAP, 16);
    let mut buf = [0u32; 16];
    {
        let mut s = GlobalStack::new(&mut buf);
        for i in 0..16u32 {
            s.push(i * 3);
        }
        assert_eq!(s.next, GLOBAL_STACK_CAP);
    }
    let mut s = GlobalStack::new(&mut buf);
    for i in 0..16u32 {
        assert_eq!(s.pop(), i * 3);
    }
}
