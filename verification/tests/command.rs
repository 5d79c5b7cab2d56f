use todo_logic::command_engine::{
    enrich_command_context, first_command_status, handle_command_operations,
    handle_command_operations_at, parse_command_request, prepare_command_execution,
};

fn contains(haystack: &[u8], needle: &[u8]) -> bool {
    haystack.windows(needle.len().max(1)).any(|w| w == needle) || needle.is_empty()
}

#[test]
fn command_parse_classifies_listing() {
    let out = parse_command_request(b"ls -la".to_vec());
    assert_eq!(
        out,
        b"ls -la -- CMD_TYPE=LISTING -- PRIORITY=NORMAL -- LENGTH=6".to_vec()
    );
}

#[test]
fn command_parse_classifies_deletion_and_priority() {
    let out = parse_command_request(b"rm -rf /tmp/scratch/one/two/three/four".to_vec());
    // 38 bytes plus the deletion tag pushes the tagged form past 50
    assert_eq!(
        out,
        b"rm -rf /tmp/scratch/one/two/three/four -- CMD_TYPE=DELETION -- PRIORITY=HIGH -- LENGTH=38"
            .to_vec()
    );
}

#[test]
fn command_parse_default_is_execution() {
    let out = parse_command_request(b"echo hi".to_vec());
    assert_eq!(
        out,
        b"echo hi -- CMD_TYPE=EXECUTION -- PRIORITY=NORMAL -- LENGTH=7".to_vec()
    );
}

#[test]
fn command_enrich_stamps_session() {
    let out = enrich_command_context(b"x".to_vec(), 12345);
    assert_eq!(
        out,
        b"x -- TIMESTAMP=12345 -- SESSION=SESS_2345 -- USER_AGENT=Rust-Todo-Client/1.0 -- OS=Linux"
            .to_vec()
    );
}

#[test]
fn command_enrich_handles_negative_clock() {
    let out = enrich_command_context(b"x".to_vec(), -7);
    assert_eq!(
        out,
        b"x -- TIMESTAMP=-7 -- SESSION=SESS_0 -- USER_AGENT=Rust-Todo-Client/1.0 -- OS=Linux"
            .to_vec()
    );
}

#[test]
fn command_prepare_rewrites_connectives() {
    let out = prepare_command_execution(b"a && b || c".to_vec());
    assert_eq!(out, b"a  ;  b  ;  c -- EXEC_WRAPPER=ENABLED".to_vec());
}

#[test]
fn command_end_to_end_listing() {
    // the end-to-end scenario: a listing command flows through intact
    let ts = 1000;
    let parsed = parse_command_request(b"ls -la".to_vec());
    let enriched = enrich_command_context(parsed, ts);
    let final_data = prepare_command_execution(enriched);
    assert!(contains(&final_data, b"CMD_TYPE=LISTING"));
    assert!(contains(&final_data, b"PRIORITY=NORMAL"));
    assert!(contains(&final_data, b"ls -la"));
    let n = final_data.len();
    let summary = handle_command_operations_at(b"ls -la".to_vec(), ts).expect("always ok");
    let expected = format!(
        "Command operations completed: First command operation completed: {} bytes, Second command operation completed: {} bytes",
        n, n
    );
    assert_eq!(String::from_utf8(summary).unwrap(), expected);
}

#[test]
fn command_status_reports_final_length_not_input_length() {
    let input = b"ls".to_vec();
    let parsed = parse_command_request(input.clone());
    let enriched = enrich_command_context(parsed, 0);
    let final_data = prepare_command_execution(enriched);
    assert_ne!(final_data.len(), input.len());
    let status = first_command_status(final_data.len());
    let text = String::from_utf8(status).unwrap();
    assert_eq!(
        text,
        format!("First command operation completed: {} bytes", final_data.len())
    );
    assert!(!text.contains(&format!(" {} bytes", input.len())));
}

#[test]
fn command_handle_reads_clock() {
    let summary = handle_command_operations(b"cat notes.txt".to_vec()).expect("always ok");
    let text = String::from_utf8(summary).unwrap();
    assert!(text.starts_with("Command operations completed: First command operation completed: "));
    assert!(text.contains(", Second command operation completed: "));
    assert!(text.ends_with(" bytes"));
}
