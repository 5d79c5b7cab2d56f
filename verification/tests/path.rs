use todo_logic::path_engine::{
    enrich_path_context, handle_path_operations, handle_path_operations_at, parse_path_request,
    prepare_path_execution,
};

#[test]
fn path_parse_rewrites_the_word_path() {
    let out = parse_path_request(b"path/to/data".to_vec());
    assert_eq!(
        out,
        b"processed_path/to/data -- TYPE=PATH_OPERATION -- LENGTH=12".to_vec()
    );
}

#[test]
fn path_parse_leaves_other_words() {
    let out = parse_path_request(b"var/log".to_vec());
    assert_eq!(out, b"var/log -- TYPE=PATH_OPERATION -- LENGTH=7".to_vec());
}

#[test]
fn path_enrich_stamps_clock() {
    let out = enrich_path_context(b"p".to_vec(), 42);
    assert_eq!(out, b"p -- TIMESTAMP=42 -- SYSTEM=LOCAL".to_vec());
}

#[test]
fn path_prepare_secures_ordinary_targets() {
    let out = prepare_path_execution(b"var/log".to_vec());
    assert_eq!(out, b"secure_var/log".to_vec());
}

#[test]
fn path_prepare_rewrites_unsafe_targets() {
    let out = prepare_path_execution(b"an unsafe spot".to_vec());
    assert_eq!(out, b"an optimized spot".to_vec());
}

#[test]
fn path_prepare_spots_unsafe_case_insensitively() {
    // the check lowercases, the rewrite only hits the lowercase spelling
    let out = prepare_path_execution(b"UNSAFE here and unsafe there".to_vec());
    assert_eq!(out, b"UNSAFE here and optimized there".to_vec());
}

#[test]
fn path_end_to_end_keeps_payload() {
    let ts = 5;
    let parsed = parse_path_request(b"var/log".to_vec());
    let enriched = enrich_path_context(parsed, ts);
    let final_data = prepare_path_execution(enriched);
    let text = String::from_utf8(final_data.clone()).unwrap();
    assert!(text.contains("var/log"));
    let n = final_data.len();
    let summary = handle_path_operations_at(b"var/log".to_vec(), ts).expect("always ok");
    let expected = format!(
        "Path operations completed: First path operation completed: {} bytes, Second path operation completed: {} bytes",
        n, n
    );
    assert_eq!(String::from_utf8(summary).unwrap(), expected);
}

#[test]
fn path_handle_reads_clock() {
    let summary = handle_path_operations(b"var/log".to_vec()).expect("always ok");
    let text = String::from_utf8(summary).unwrap();
    assert!(text.starts_with("Path operations completed: First path operation completed: "));
    assert!(text.ends_with(" bytes"));
}
