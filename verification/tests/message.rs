use mqtt_thread::message::{format_payload, Message, QualityOfService, MAX_PAYLOAD};

#[test]
fn the_payload_is_the_decimal_text() {
    assert_eq!(format_payload(123456), b"123456".to_vec());
    assert_eq!(format_payload(0), b"0".to_vec());
    assert_eq!(format_payload(7), b"7".to_vec());
    assert_eq!(format_payload(10), b"10".to_vec());
    assert_eq!(format_payload(909), b"909".to_vec());
    assert_eq!(format_payload(u32::MAX), b"4294967295".to_vec());
}

#[test]
fn the_telemetry_message_is_retained_and_delivered_at_least_once() {
    let message = Message::telemetry(123456);
    assert_eq!(message.topic, "random/1");
    assert_eq!(message.payload, b"123456".to_vec());
    assert_eq!(message.qos, QualityOfService::AtLeastOnce);
    assert!(message.retain);
    assert!(message.payload.len() <= MAX_PAYLOAD);
    assert_eq!(MAX_PAYLOAD, 32);
}
