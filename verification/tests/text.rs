use rusty_live2d::text::{push_decimal, push_signed_decimal};

#[test]
fn writes_decimal_text() {
    let mut text = String::from("n=");
    push_decimal(&mut text, 0);
    assert_eq!(text, "n=0");
    let mut text = String::new();
    push_decimal(&mut text, 1_234_567_890_123);
    assert_eq!(text, "1234567890123");
    let mut text = String::new();
    push_decimal(&mut text, u64::MAX);
    assert_eq!(text, u64::MAX.to_string());
}

#[test]
fn writes_signed_decimal_text() {
    for value in [0i64, 7, -7, 10, -100, i64::MAX, i64::MIN] {
        let mut text = String::new();
        push_signed_decimal(&mut text, value);
        assert_eq!(text, value.to_string());
    }
}
