use h8bit_vm::util::{high_and_low_value, wide_value};

#[test]
fn high_and_low_value_success() {
    let value = 0x0102;
    let (high, low) = high_and_low_value(value);
    assert_eq!(0x01, high);
    assert_eq!(0x02, low);
}

#[test]
fn wide_value_success() {
    let (high, low) = (0x01, 0x02);
    let actual = wide_value(high, low);
    assert_eq!(0x0102, actual);
}

#[test]
fn split_then_join_gives_the_value_back() {
    for value in [0x0000u16, 0x0001, 0x00ff, 0x0100, 0x1234, 0xab12, 0x8000, 0xff00, 0xffff] {
        let (high, low) = high_and_low_value(value);
        assert_eq!(value, wide_value(high, low));
    }
}

#[test]
fn split_and_join_over_the_whole_range() {
    let mut value: u16 = 0;
    loop {
        let (high, low) = high_and_low_value(value);
        assert_eq!((value >> 8) as u8, high);
        assert_eq!((value & 0xff) as u8, low);
        assert_eq!(value, wide_value(high, low));
        if value == u16::MAX {
            break;
        }
        value += 1;
    }
}

#[test]
fn join_puts_the_first_byte_on_top() {
    assert_eq!(0xab12, wide_value(0xab, 0x12));
    assert_eq!(0x00ff, wide_value(0x00, 0xff));
    assert_eq!(0xff00, wide_value(0xff, 0x00));
    assert_eq!(0xffff, wide_value(0xff, 0xff));
    assert_eq!(0x0000, wide_value(0x00, 0x00));
}

#[test]
fn split_at_the_ends_of_the_range() {
    assert_eq!((0x00, 0x00), high_and_low_value(0x0000));
    assert_eq!((0xff, 0xff), high_and_low_value(0xffff));
    assert_eq!((0xab, 0x12), high_and_low_value(0xab12));
}
