use c_boundary::operations::GREETING_LEN;
use c_boundary::{fill_buffer, fill_struct, handle_enum, TestEnum, TestStruct, SOME_CONSTANT};

#[test]
fn some_constant_has_its_value() {
    assert_eq!(SOME_CONSTANT, 12345678u64);
}

#[test]
fn greeting_length_is_twelve() {
    assert_eq!(GREETING_LEN, 12);
    assert_eq!(GREETING_LEN, b"hello world\0".len());
}

#[test]
fn fill_buffer_writes_greeting_and_terminator() {
    let mut buf = [0xAAu8; 12];
    fill_buffer(&mut buf);
    assert_eq!(&buf, b"hello world\0");
    assert_eq!(buf, [104, 101, 108, 108, 111, 32, 119, 111, 114, 108, 100, 0]);
}

#[test]
fn fill_buffer_leaves_the_tail_untouched() {
    let mut buf: Vec<u8> = (0u8..40).map(|i| 200 + i).collect();
    let before = buf.clone();
    fill_buffer(&mut buf);
    assert_eq!(buf.len(), 40);
    assert_eq!(&buf[..12], b"hello world\0");
    assert_eq!(&buf[12..], &before[12..]);
}

#[test]
fn fill_buffer_of_thirteen_bytes_keeps_the_last() {
    let mut buf = [0x5Au8; 13];
    fill_buffer(&mut buf);
    assert_eq!(&buf[..12], b"hello world\0");
    assert_eq!(buf[11], 0);
    assert_eq!(buf[12], 0x5A);
}

#[test]
fn fill_buffer_twice_is_as_once() {
    let mut once = vec![9u8; 20];
    let mut twice = vec![9u8; 20];
    fill_buffer(&mut once);
    fill_buffer(&mut twice);
    fill_buffer(&mut twice);
    assert_eq!(once, twice);
}

#[test]
fn fill_buffer_on_a_window_leaves_the_rest_of_the_array() {
    let mut memory = [1u8; 32];
    fill_buffer(&mut memory[4..20]);
    assert_eq!(&memory[..4], &[1u8; 4]);
    assert_eq!(&memory[4..16], b"hello world\0");
    assert_eq!(&memory[16..], &[1u8; 16]);
}

#[test]
fn fill_struct_overwrites_both_fields() {
    let mut record = TestStruct { x: 0, y: 0 };
    fill_struct(&mut record);
    assert_eq!(record.x, 42);
    assert_eq!(record.y, 12345678);
}

#[test]
fn fill_struct_ignores_prior_contents() {
    let mut low = TestStruct { x: 0, y: 0 };
    let mut high = TestStruct { x: u8::MAX, y: u64::MAX };
    fill_struct(&mut low);
    fill_struct(&mut high);
    assert_eq!(low, high);
    assert_eq!(high, TestStruct { x: 42, y: 12345678 });
}

#[test]
fn fill_struct_twice_is_as_once() {
    let mut once = TestStruct { x: 3, y: 4 };
    let mut twice = TestStruct { x: 3, y: 4 };
    fill_struct(&mut once);
    fill_struct(&mut twice);
    fill_struct(&mut twice);
    assert_eq!(once, twice);
}

#[test]
fn fill_struct_writes_the_constant_into_the_wide_field() {
    let mut record = TestStruct { x: 1, y: 1 };
    fill_struct(&mut record);
    assert_eq!(record.y, SOME_CONSTANT);
}

#[test]
fn handle_enum_accepts_the_second_variant() {
    assert!(handle_enum(TestEnum::Two));
}

#[test]
fn handle_enum_rejects_the_other_variants() {
    assert!(!handle_enum(TestEnum::One));
    assert!(!handle_enum(TestEnum::Three));
}

#[test]
fn handle_enum_accepts_exactly_one_variant() {
    let all = [TestEnum::One, TestEnum::Two, TestEnum::Three];
    let accepted = all.iter().filter(|v| handle_enum(**v)).count();
    assert_eq!(accepted, 1);
}

#[test]
fn handle_enum_agrees_with_the_discriminant() {
    for v in [TestEnum::One, TestEnum::Two, TestEnum::Three] {
        assert_eq!(handle_enum(v), v.discriminant() == 2);
    }
}

#[test]
fn discriminants_are_one_two_three() {
    assert_eq!(TestEnum::One.discriminant(), 1);
    assert_eq!(TestEnum::Two.discriminant(), 2);
    assert_eq!(TestEnum::Three.discriminant(), 3);
}

#[test]
fn enum_equality_is_discriminant_equality() {
    let all = [TestEnum::One, TestEnum::Two, TestEnum::Three];
    for a in all {
        for b in all {
            assert_eq!(a == b, a.discriminant() == b.discriminant());
        }
    }
}
