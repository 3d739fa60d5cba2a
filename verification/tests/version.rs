use cybulous::{MIN_PROTOCOL_VERSION, PROTOCOL_VERSION, VERSION};

#[test]
fn test_version_constants() {
    assert!(!VERSION.is_empty());
    assert!(PROTOCOL_VERSION >= MIN_PROTOCOL_VERSION);
}
