use arsa_backend::ids::{container_server_id, uuid_from_field, uuid_text};

#[test]
fn uuid_texts() {
    assert_eq!(
        uuid_text(0xa1a2a3a4_b1b2_c1c2_d1d2_d3d4d5d6d7d8),
        "a1a2a3a4-b1b2-c1c2-d1d2-d3d4d5d6d7d8"
    );
    assert_eq!(uuid_text(0), "00000000-0000-0000-0000-000000000000");
}

#[test]
fn container_names_read_back() {
    let id = 0xf30b8424_28d6_4b0a_9348_9f05327fa886;
    let name = format!("/{}", uuid_text(id));
    assert_eq!(container_server_id(&name), Some(id));
    assert_eq!(container_server_id("f30b8424-28d6-4b0a-9348-9f05327fa886"), Some(id));
    assert_eq!(container_server_id("/list-scenarios-stable-x"), None);
    assert_eq!(container_server_id(""), None);
}

#[test]
fn identifier_fields() {
    assert_eq!(
        uuid_from_field("f30b8424-28d6-4b0a-9348-9f05327fa886"),
        Some(0xf30b8424_28d6_4b0a_9348_9f05327fa886)
    );
    assert_eq!(uuid_from_field("not a uuid"), None);
    let a = uuid_from_field("").unwrap();
    let b = uuid_from_field("").unwrap();
    assert_ne!(a, b);
}

#[test]
fn empty_identifier_fields_get_a_version_4_uuid() {
    for _ in 0..16 {
        let u = uuid_from_field("").unwrap();
        assert_eq!((u >> 76) & 0xf, 4);
        assert_eq!((u >> 62) & 0x3, 2);
    }
}
