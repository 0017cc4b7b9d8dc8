use mlx_rs::error::Exception;
use mlx_rs::text::{check_c_string, find_nul, push_decimal};

#[test]
fn decimal_rendering() {
    for n in [0usize, 7, 10, 42, 1000, 90817, usize::MAX] {
        let mut s = String::from("x=");
        push_decimal(&mut s, n);
        assert_eq!(s, format!("x={}", n));
    }
}

#[test]
fn nul_detection_reports_the_first_byte_position() {
    assert_eq!(find_nul(""), None);
    assert_eq!(find_nul("abc"), None);
    assert_eq!(find_nul("\0"), Some(0));
    assert_eq!(find_nul("a\0b\0"), Some(1));
    assert!(check_c_string("fine").is_ok());
    assert_eq!(
        check_c_string("ab\0").unwrap_err().what(),
        "nul byte found in provided data at position: 2"
    );
}

#[test]
fn exceptions_carry_their_message() {
    assert_eq!(Exception::custom("boom").what(), "boom");
    assert_eq!(Exception::from_string("bang".to_string()).what(), "bang");
}
