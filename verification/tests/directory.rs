use todo_logic::directory_engine::{
    enhance_identity_context, handle_directory_synchronization_operations,
    optimize_identity_flow, validate_identity_request,
};

#[test]
fn directory_validate_shields_the_payload() {
    // "[LEN:2]:ab" in lowercase hexadecimal, then the checksum tail
    let out = validate_identity_request(b"ab".to_vec());
    let text = String::from_utf8(out).unwrap();
    let hex = "5b4c454e3a325d3a6162";
    let sum: u32 = hex.bytes().map(|b| b as u32).sum::<u32>() % 256;
    assert_eq!(text, format!("{}#S{}", hex, sum));
}

#[test]
fn directory_decode_inverts_encode() {
    let encoded = validate_identity_request(b"hello".to_vec());
    let decoded = enhance_identity_context(encoded);
    assert_eq!(decoded, b"[LEN:5]:hello".to_vec());
    let restored = optimize_identity_flow(decoded);
    assert_eq!(restored, b"hello".to_vec());
}

#[test]
fn directory_round_trip_restores_attributes() {
    let payload = b"cn=admin,dc=example".to_vec();
    let encoded = validate_identity_request(payload.clone());
    let decoded = enhance_identity_context(encoded);
    // inside the shield the attributes were set aside
    assert_eq!(decoded, b"[LEN:19]:CN_admin,DC_example".to_vec());
    let restored = optimize_identity_flow(decoded);
    assert_eq!(restored, payload);
}

#[test]
fn directory_bad_checksum_decodes_to_nothing() {
    assert_eq!(enhance_identity_context(b"ff#S0".to_vec()), Vec::<u8>::new());
    // 'f' is byte 102, so the checksum of "ff" is 204
    assert_eq!(enhance_identity_context(b"ff#S204".to_vec()), vec![0xffu8]);
}

#[test]
fn directory_odd_or_foreign_hex_decodes_to_nothing() {
    // "zz" is not hexadecimal; "f" is odd-length
    assert_eq!(
        enhance_identity_context(b"zz#S244".to_vec()),
        Vec::<u8>::new()
    );
    assert_eq!(
        enhance_identity_context(b"f#S102".to_vec()),
        Vec::<u8>::new()
    );
    assert_eq!(enhance_identity_context(b"no hash".to_vec()), Vec::<u8>::new());
}

#[test]
fn directory_full_dn_round_trips_end_to_end() {
    let payload = b"cn=admin,ou=people,dc=example,dc=org".to_vec();
    let encoded = validate_identity_request(payload.clone());
    let decoded = enhance_identity_context(encoded);
    let final_dn = optimize_identity_flow(decoded);
    assert_eq!(final_dn, payload);
}

#[test]
fn directory_end_to_end_status_reports_final_length() {
    let payload = b"ou=people".to_vec();
    let encoded = validate_identity_request(payload.clone());
    let decoded = enhance_identity_context(encoded);
    let final_dn = optimize_identity_flow(decoded);
    assert_eq!(final_dn, payload);
    let n = final_dn.len();
    let summary =
        handle_directory_synchronization_operations(payload).expect("always ok");
    let expected = format!(
        "Identity operations completed: First identity operation completed: {} bytes, Second identity operation completed: {} bytes",
        n, n
    );
    assert_eq!(String::from_utf8(summary).unwrap(), expected);
}
