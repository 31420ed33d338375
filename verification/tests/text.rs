use minilibx::text::{create_c_str, i32_to_string};
use minilibx::MlxError;

#[test]
fn decimal_of_small_numbers() {
    assert_eq!(i32_to_string(0), "0");
    assert_eq!(i32_to_string(7), "7");
    assert_eq!(i32_to_string(10), "10");
    assert_eq!(i32_to_string(1080), "1080");
}

#[test]
fn decimal_of_negative_numbers() {
    assert_eq!(i32_to_string(-1), "-1");
    assert_eq!(i32_to_string(-720), "-720");
}

#[test]
fn decimal_at_the_limits() {
    assert_eq!(i32_to_string(i32::MAX), "2147483647");
    assert_eq!(i32_to_string(i32::MIN), "-2147483648");
}

#[test]
fn decimal_agrees_with_the_standard_rendering() {
    let samples = [0, 1, -1, 9, 10, 99, 100, 101, -100, 65535, -65536, 1_000_000_000];
    for n in samples {
        assert_eq!(i32_to_string(n), format!("{}", n));
    }
}

#[test]
fn c_string_is_terminated() {
    assert_eq!(create_c_str("Fractol"), Ok(b"Fractol\0".to_vec()));
}

#[test]
fn c_string_of_the_empty_string() {
    assert_eq!(create_c_str(""), Ok(vec![0u8]));
}

#[test]
fn c_string_keeps_the_encoding() {
    assert_eq!(create_c_str("é€"), Ok(vec![0xc3, 0xa9, 0xe2, 0x82, 0xac, 0]));
}

#[test]
fn c_string_refuses_a_zero_byte_inside() {
    assert_eq!(
        create_c_str("a\0b"),
        Err(MlxError::Any("Error creating string a\0b".to_string()))
    );
}

#[test]
fn c_string_refuses_a_zero_byte_at_either_end() {
    assert_eq!(
        create_c_str("\0"),
        Err(MlxError::Any("Error creating string \0".to_string()))
    );
    assert_eq!(
        create_c_str("title\0"),
        Err(MlxError::Any("Error creating string title\0".to_string()))
    );
}
