use todo_logic::stream_processor::{
    enhance_data_processing, handle_system_integration_operations,
    handle_system_integration_operations_at, optimize_data_flow, process_data_stream,
};

#[test]
fn stream_parse_classifies_and_counts() {
    let out = process_data_stream(b"stream|parallel=1".to_vec());
    assert_eq!(
        String::from_utf8(out).unwrap(),
        "stream|parallel=1 -- PATTERN=STREAM_PROCESSING -- PRIORITY=STREAM_OPERATION -- TYPE=CONTINUOUS_PROCESSING -- FORMAT=PARALLEL -- COMPLEXITY=1 -- FLAGS=PARALLEL_FLAG -- LENGTH=17"
    );
}

#[test]
fn stream_parse_generic_without_known_pattern() {
    let out = process_data_stream(b"zzz job".to_vec());
    assert_eq!(
        String::from_utf8(out).unwrap(),
        "zzz job -- PATTERN=GENERIC_PROCESSING -- PRIORITY=NORMAL -- TYPE=GENERAL -- FORMAT=STANDARD -- COMPLEXITY=0 -- FLAGS= -- LENGTH=7"
    );
}

#[test]
fn stream_enrich_stamps_processing_metadata() {
    let out = enhance_data_processing(b"xy".to_vec(), 0);
    assert_eq!(
        String::from_utf8(out).unwrap(),
        "xy -- PROCESSING=PROC_0 -- VERSION=v2.1 -- HASH=DATA_0 -- REQUEST=REQ_0 -- CORRELATION=CORR_0 -- SIZE=2 -- TIME=0 -- MEMORY=6 -- CPU=0 -- CONTEXT=CONTEXT=GENERAL_PROCESSING -- SECURITY=SECURITY=STANDARD_DATA -- BUSINESS=BUSINESS=STANDARD_PROCESSING -- DURATION=0 -- COUNT=1 -- LATENCY=0 -- LOAD=0 -- CACHE=0"
    );
}

#[test]
fn stream_prepare_tags_and_validates() {
    let out = optimize_data_flow(b"//data run".to_vec());
    assert_eq!(
        String::from_utf8(out).unwrap(),
        "//data run -- PROCESSING_TYPE=DATA_STREAM -- PROCESSING_VERSION=2.1 -- STREAM_SUPPORT=ENABLED -- REAL_TIME_SUPPORT=ENABLED -- PROCESSING_VALIDATION=SKIPPED"
    );
}

#[test]
fn stream_prepare_rewrites_safety_check_and_flags_threats() {
    let out = optimize_data_flow(b"injection -- SAFETY_CHECK".to_vec());
    assert_eq!(
        String::from_utf8(out).unwrap(),
        "injection -- PROCESSING_VALIDATION=ENABLED -- THREAT_DETECTED=INJECTION_ATTEMPT -- MITIGATION=ENABLED -- SANITIZATION=ENABLED"
    );
}

#[test]
fn stream_end_to_end_status_reports_final_length() {
    let ts = 3;
    let parsed = process_data_stream(b"batch job".to_vec());
    let enriched = enhance_data_processing(parsed, ts);
    let final_data = optimize_data_flow(enriched);
    let text = String::from_utf8(final_data.clone()).unwrap();
    assert!(text.contains("batch job"));
    let n = final_data.len();
    let summary =
        handle_system_integration_operations_at(b"batch job".to_vec(), ts).expect("always ok");
    let expected = format!(
        "Integration operations completed: First configuration operation completed: {} bytes, Second configuration operation completed: {} bytes, Third configuration operation completed: {} bytes",
        n, n, n
    );
    assert_eq!(String::from_utf8(summary).unwrap(), expected);
}

#[test]
fn stream_handle_reads_clock() {
    let summary = handle_system_integration_operations(b"monitoring".to_vec()).expect("ok");
    let text = String::from_utf8(summary).unwrap();
    assert!(text.starts_with("Integration operations completed: "));
    assert!(text.ends_with(" bytes"));
}
