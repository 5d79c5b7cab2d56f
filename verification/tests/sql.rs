use todo_logic::sql_engine::{
    enrich_todo_context, handle_sql_operations, handle_sql_operations_at, parse_todo_sql_request,
    prepare_todo_execution,
};

#[test]
fn sql_parse_classifies_query() {
    let out = parse_todo_sql_request(b"SELECT * FROM todo".to_vec());
    assert_eq!(
        out,
        b"SELECT * FROM todo -- OPERATION=TODO_QUERY -- PRIORITY=READ -- LENGTH=18".to_vec()
    );
}

#[test]
fn sql_parse_lowercase_select_is_write_priority() {
    // the priority check is case-sensitive even though classification is not
    let out = parse_todo_sql_request(b"select * from todo".to_vec());
    assert_eq!(
        out,
        b"select * from todo -- OPERATION=TODO_QUERY -- PRIORITY=WRITE -- LENGTH=18".to_vec()
    );
}

#[test]
fn sql_parse_generic_without_todo() {
    let out = parse_todo_sql_request(b"DROP TABLE users".to_vec());
    assert_eq!(
        out,
        b"DROP TABLE users -- OPERATION=TODO_GENERIC -- PRIORITY=WRITE -- LENGTH=16".to_vec()
    );
}

#[test]
fn sql_enrich_picks_context() {
    let out = enrich_todo_context(b"notes only".to_vec(), 2000);
    assert_eq!(
        out,
        b"notes only -- TIMESTAMP=2000 -- USER=USER_0 -- VERSION=v2.1.0 -- CONTEXT=NOTE_PROCESSING"
            .to_vec()
    );
}

#[test]
fn sql_prepare_appends_query_shape_tags() {
    let out = prepare_todo_execution(b"x where y order by z limit 3".to_vec());
    assert_eq!(
        out,
        b"x where y order by z limit 3 -- OPTIMIZATION=INDEXED_QUERY -- SORTING=ENABLED -- PAGINATION=ACTIVE -- TODO_VALIDATION=SKIPPED"
            .to_vec()
    );
}

#[test]
fn sql_prepare_rewrites_safety_check() {
    let out = prepare_todo_execution(b"q -- SAFETY_CHECK".to_vec());
    assert_eq!(out, b"q -- TODO_VALIDATION".to_vec());
}

#[test]
fn sql_end_to_end_status_reports_final_length() {
    let ts = 99;
    let parsed = parse_todo_sql_request(b"delete from todo".to_vec());
    let enriched = enrich_todo_context(parsed, ts);
    let final_data = prepare_todo_execution(enriched);
    let text = String::from_utf8(final_data.clone()).unwrap();
    assert!(text.contains("delete from todo"));
    let n = final_data.len();
    let summary = handle_sql_operations_at(b"delete from todo".to_vec(), ts).expect("always ok");
    let expected = format!(
        "Todo SQL operations completed: First todo SQL operation completed: {} bytes, Second todo SQL operation completed: {} bytes",
        n, n
    );
    assert_eq!(String::from_utf8(summary).unwrap(), expected);
}

#[test]
fn sql_handle_reads_clock() {
    let summary = handle_sql_operations(b"update todo set completed=1".to_vec()).expect("ok");
    let text = String::from_utf8(summary).unwrap();
    assert!(text.starts_with("Todo SQL operations completed: "));
    assert!(text.ends_with(" bytes"));
}
