use websocket_bridge::text::{push_decimal, reads_as};

fn written(number: u32) -> String {
    let mut text = String::new();
    push_decimal(&mut text, number);
    text
}

#[test]
fn decimal_of_zero_is_one_digit() {
    assert_eq!(written(0), "0");
}

#[test]
fn decimal_has_no_leading_zeros() {
    assert_eq!(written(7), "7");
    assert_eq!(written(10), "10");
    assert_eq!(written(443), "443");
    assert_eq!(written(65535), "65535");
    assert_eq!(written(1000000), "1000000");
}

#[test]
fn decimal_of_the_largest_number() {
    assert_eq!(written(u32::MAX), "4294967295");
}

#[test]
fn decimal_is_appended() {
    let mut text = String::from("host:");
    push_decimal(&mut text, 8080);
    assert_eq!(text, "host:8080");
}

#[test]
fn reads_as_compares_whole_texts() {
    assert!(reads_as("wss", "wss"));
    assert!(!reads_as("ws", "wss"));
    assert!(!reads_as("WSS", "wss"));
    assert!(reads_as("", ""));
}
