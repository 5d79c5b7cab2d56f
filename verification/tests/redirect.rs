use todo_logic::redirect_engine::{
    enrich_todo_redirect_context, execute_first_redirect_operation,
    execute_second_redirect_operation, handle_redirect_operations, parse_todo_redirect_request,
    prepare_todo_redirect_execution,
};

#[test]
fn redirect_parse_cleans_edges_and_control_bytes() {
    let out = parse_todo_redirect_request(b"\0  http://a\r\n\t \0\0".to_vec());
    assert_eq!(out, b"http://a".to_vec());
}

#[test]
fn redirect_enrich_passes_through() {
    let out = enrich_todo_redirect_context(b"example.com".to_vec());
    assert_eq!(out, b"example.com".to_vec());
}

#[test]
fn redirect_prepare_defaults_the_scheme() {
    let out = prepare_todo_redirect_execution(b"example.com/a".to_vec());
    assert_eq!(out, b"http://example.com/a".to_vec());
}

#[test]
fn redirect_prepare_keeps_existing_scheme() {
    let out = prepare_todo_redirect_execution(b"HTTPS://example.com".to_vec());
    assert_eq!(out, b"HTTPS://example.com".to_vec());
}

#[test]
fn redirect_prepare_normalizes_backslashes() {
    let out = prepare_todo_redirect_execution(b"example.com\\a\\b".to_vec());
    assert_eq!(out, b"http://example.com/a/b".to_vec());
}

#[test]
fn redirect_sink_builds_for_valid_target() {
    let (status, built) = execute_first_redirect_operation(b"http://example.com/ok");
    assert!(built);
    assert_eq!(
        String::from_utf8(status).unwrap(),
        "First todo redirect operation completed: 21 bytes"
    );
}

#[test]
fn redirect_sink_swallows_unparsable_target() {
    // an embedded space fails the URI grammar: no redirect, no error
    let (status, built) = execute_second_redirect_operation(b"http://exa mple.com");
    assert!(!built);
    assert_eq!(
        String::from_utf8(status).unwrap(),
        "Second todo redirect operation completed: 19 bytes"
    );
}

#[test]
fn redirect_end_to_end_is_silent_on_bad_targets() {
    // the pipeline still reports success for a target the parser rejects
    let payload = b"exa mple".to_vec();
    let summary = handle_redirect_operations(payload).expect("never fails");
    let text = String::from_utf8(summary).unwrap();
    // final target is "http://exa mple", fifteen bytes
    assert_eq!(
        text,
        "Todo redirect operations completed: First todo redirect operation completed: 15 bytes, Second todo redirect operation completed: 15 bytes"
    );
}

#[test]
fn redirect_end_to_end_scheme_and_length() {
    let summary = handle_redirect_operations(b" example.com ".to_vec()).expect("never fails");
    // trimmed to "example.com", prefixed to "http://example.com": 18 bytes
    assert_eq!(
        String::from_utf8(summary).unwrap(),
        "Todo redirect operations completed: First todo redirect operation completed: 18 bytes, Second todo redirect operation completed: 18 bytes"
    );
}
