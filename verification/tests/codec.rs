use framehost::{decode_frame_payload, FrameDriver, StreamEvent, TimeSource, FRAME_LEN};

const PATTERN_GUEST: &str = r#"
(module
  (memory (export "memory") 1)
  (data (i32.const 100) "framehost pattern")
  (func (export "is_done") (param i32) (result i32)
    local.get 0
    i32.const 1
    i32.ge_u)
  (func (export "next_frame") (param i32) (result i32) i32.const 100))
"#;

fn first_update_payload(source: &str) -> String {
    let mut driver = FrameDriver::load(source, TimeSource::System).unwrap();
    let (events, fault) = driver.collect_events();
    assert!(fault.is_none());
    match &events[0] {
        StreamEvent::ScreenUpdate(payload) => payload.clone(),
        StreamEvent::End => panic!("expected a data event first"),
    }
}

#[test]
fn payload_decodes_to_exactly_456_bytes() {
    let payload = first_update_payload(PATTERN_GUEST);
    let bytes = decode_frame_payload(&payload).unwrap();
    assert_eq!(bytes.len(), FRAME_LEN);
    assert_eq!(bytes.len(), 456);
}

#[test]
fn payload_decodes_with_an_independent_decoder() {
    let payload = first_update_payload(PATTERN_GUEST);
    let bytes =
        base64::Engine::decode(&base64::engine::general_purpose::STANDARD, &payload).unwrap();
    assert_eq!(bytes.len(), 456);
}

#[test]
fn payload_carries_the_guest_memory_window() {
    let payload = first_update_payload(PATTERN_GUEST);
    let bytes = decode_frame_payload(&payload).unwrap();
    assert_eq!(&bytes[..17], b"framehost pattern");
    for b in &bytes[17..] {
        assert_eq!(*b, 0u8);
    }
}

#[test]
fn payload_is_the_standard_base64_encoding_not_the_raw_bytes() {
    let payload = first_update_payload(PATTERN_GUEST);
    let mut expected_frame = vec![0u8; 456];
    expected_frame[..17].copy_from_slice(b"framehost pattern");
    let expected =
        base64::Engine::encode(&base64::engine::general_purpose::STANDARD, &expected_frame);
    assert_eq!(payload, expected);
    assert_ne!(payload.as_bytes(), &expected_frame[..]);
    assert_eq!(payload.len(), 608);
}

#[test]
fn garbage_payload_does_not_decode() {
    assert!(decode_frame_payload("!!! not base64 !!!").is_none());
}
