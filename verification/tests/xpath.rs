use todo_logic::xpath_engine::{
    enrich_todo_context as enrich_xpath_context, handle_todo_item_operations,
    handle_todo_item_operations_at, parse_todo_request, prepare_todo_execution as
    prepare_xpath_execution,
};

#[test]
fn xpath_parse_classifies_and_counts() {
    let out = parse_todo_request(b"//todo|recursive=1&deep=2".to_vec());
    assert_eq!(
        String::from_utf8(out).unwrap(),
        "//todo|recursive=1&deep=2 -- OPERATION=TODO_NODE_SELECTION -- PRIORITY=NODE_QUERY -- CATEGORY=SELECTION_OPERATION -- TYPE=RECURSIVE -- COMPLEXITY=4 -- FLAGS=RECURSIVE_FLAG,DEEP_SEARCH_FLAG -- LENGTH=25"
    );
}

#[test]
fn xpath_parse_duplicate_parameters_count_once() {
    let out = parse_todo_request(b"//sort|wildcard=a&wildcard=b".to_vec());
    assert_eq!(
        String::from_utf8(out).unwrap(),
        "//sort|wildcard=a&wildcard=b -- OPERATION=SORT_NODE_SELECTION -- PRIORITY=SORT_QUERY -- CATEGORY=SORT_OPERATION -- TYPE=WILDCARD -- COMPLEXITY=3 -- FLAGS=WILDCARD_FLAG -- LENGTH=28"
    );
}

#[test]
fn xpath_parse_generic_query() {
    let out = parse_todo_request(b"count(x)".to_vec());
    assert_eq!(
        String::from_utf8(out).unwrap(),
        "count(x) -- OPERATION=XPATH_GENERIC_QUERY -- PRIORITY=STANDARD -- CATEGORY=GENERAL -- TYPE=STANDARD -- COMPLEXITY=0 -- FLAGS= -- LENGTH=8"
    );
}

#[test]
fn xpath_enrich_stamps_session_and_context() {
    let out = enrich_xpath_context(b"plain".to_vec(), 0);
    assert_eq!(
        String::from_utf8(out).unwrap(),
        "plain -- TIMESTAMP=0 -- SESSION=SESS_0 -- VERSION=v1.0 -- CONTEXT=GENERAL_QUERY -- QUERY_HASH=QUERY_0 -- REQUEST_ID=REQ_0 -- CORRELATION_ID=CORR_0 -- PERFORMANCE[SIZE=5,TIME=0,MEMORY=10,CPU=0] -- SESSION_DURATION=0 -- QUERY_COUNT=1 -- NETWORK[LATENCY=0,LOAD=0,CACHE=0] -- SECURITY=STANDARD_ACCESS -- BUSINESS=STANDARD_QUERY"
    );
}

#[test]
fn xpath_prepare_tags_environment_and_validation() {
    let out = prepare_xpath_execution(b"//todo on localhost".to_vec());
    assert_eq!(
        String::from_utf8(out).unwrap(),
        "//todo on localhost -- XML_TYPE=TODO_SELECTION -- XML_VERSION=1.0 -- NAMESPACE_SUPPORT=ENABLED -- WILDCARD_SUPPORT=ENABLED -- ENVIRONMENT=LOCAL -- DEBUG_MODE=ENABLED -- CACHE_DISABLED=TRUE -- LOG_LEVEL=DEBUG -- XML_VALIDATION=SKIPPED"
    );
}

#[test]
fn xpath_prepare_rewrites_safety_check() {
    let out = prepare_xpath_execution(b"q -- SAFETY_CHECK".to_vec());
    assert_eq!(String::from_utf8(out).unwrap(), "q -- XML_VALIDATION=ENABLED");
}

#[test]
fn xpath_end_to_end_status_reports_final_length() {
    let ts = 77;
    let parsed = parse_todo_request(b"//user".to_vec());
    let enriched = enrich_xpath_context(parsed, ts);
    let final_data = prepare_xpath_execution(enriched);
    let text = String::from_utf8(final_data.clone()).unwrap();
    assert!(text.contains("//user"));
    let n = final_data.len();
    let summary = handle_todo_item_operations_at(b"//user".to_vec(), ts).expect("always ok");
    let expected = format!(
        "Todo item operations completed: First task validation operation completed: {} bytes, Second task validation operation completed: {} bytes, Third task validation operation completed: {} bytes",
        n, n, n
    );
    assert_eq!(String::from_utf8(summary).unwrap(), expected);
}

#[test]
fn xpath_handle_reads_clock() {
    let summary = handle_todo_item_operations(b"//status".to_vec()).expect("always ok");
    let text = String::from_utf8(summary).unwrap();
    assert!(text.starts_with("Todo item operations completed: "));
    assert!(text.ends_with(" bytes"));
}
