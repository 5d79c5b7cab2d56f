//! SQL pipeline: classifies a query payload against the todo schema,
//! enriches it with user and version metadata, appends query
//! optimizations, and reports one status line per database sink (the
//! database connections themselves are I/O and live with the caller).

use vstd::prelude::*;

use crate::clock;
use crate::numeral::{dec_digits, dec_int, render_i64, render_u64, render_usize};
use crate::text::{
    ascii_str, contains_lit, contains_seq, lemma_no_match_in_prefix_two, lemma_prefix_contains,
    lemma_replace_clean_prefix, lit, lit_vec, lower_seq, push_lit, replace_bytes, replace_seq,
    to_lower_bytes,
};

verus! {

/// The operation tag chosen by the parse stage from the lowercase form
/// of the payload.
pub open spec fn sql_op_tag(s: Seq<u8>) -> Seq<u8> {
    let low = lower_seq(s);
    if contains_seq(low, lit("select")) && contains_seq(low, lit("todo")) {
        lit(" -- OPERATION=TODO_QUERY")
    } else if contains_seq(low, lit("insert")) && contains_seq(low, lit("todo")) {
        lit(" -- OPERATION=TODO_CREATE")
    } else if contains_seq(low, lit("update")) && contains_seq(low, lit("todo")) {
        lit(" -- OPERATION=TODO_UPDATE")
    } else if contains_seq(low, lit("delete")) && contains_seq(low, lit("todo")) {
        lit(" -- OPERATION=TODO_DELETE")
    } else {
        lit(" -- OPERATION=TODO_GENERIC")
    }
}

/// Parse stage: the payload, its operation tag, a read/write priority
/// tag, and the payload's original byte length.
pub open spec fn spec_parse_sql(s: Seq<u8>) -> Seq<u8> {
    let tagged = s + sql_op_tag(s);
    let pr = if contains_seq(tagged, lit("SELECT")) {
        lit("READ")
    } else {
        lit("WRITE")
    };
    tagged + lit(" -- PRIORITY=") + pr + lit(" -- LENGTH=") + dec_digits(s.len())
}

/// The user number derived from a clock reading.
pub open spec fn user_of(ts: i64) -> nat {
    if ts >= 0 {
        ((ts as int) % 1000) as nat
    } else {
        0
    }
}

/// The context tag chosen by the enrich stage.
pub open spec fn sql_context_tag(d: Seq<u8>) -> Seq<u8> {
    if contains_seq(d, lit("completed")) {
        lit("CONTEXT=COMPLETION_TRACKING")
    } else if contains_seq(d, lit("assigned_to")) {
        lit("CONTEXT=ASSIGNMENT_MANAGEMENT")
    } else if contains_seq(d, lit("notes")) {
        lit("CONTEXT=NOTE_PROCESSING")
    } else {
        lit("CONTEXT=GENERAL_TODO")
    }
}

/// Enrich stage: timestamp, user, version and context tags.
pub open spec fn spec_enrich_sql(d: Seq<u8>, ts: i64) -> Seq<u8> {
    d + lit(" -- TIMESTAMP=") + dec_int(ts as int) + lit(" -- USER=USER_") + dec_digits(
        user_of(ts),
    ) + lit(" -- VERSION=v2.1.0 -- ") + sql_context_tag(d)
}

/// Finalize stage: query-shape tags, then the safety-check marker is
/// either rewritten or noted as skipped.
pub open spec fn spec_prepare_sql(e: Seq<u8>) -> Seq<u8> {
    let a = if contains_seq(lower_seq(e), lit("where")) {
        e + lit(" -- OPTIMIZATION=INDEXED_QUERY")
    } else {
        e
    };
    let b = if contains_seq(lower_seq(a), lit("order by")) {
        a + lit(" -- SORTING=ENABLED")
    } else {
        a
    };
    let c = if contains_seq(lower_seq(b), lit("limit")) {
        b + lit(" -- PAGINATION=ACTIVE")
    } else {
        b
    };
    if contains_seq(c, lit("-- SAFETY_CHECK")) {
        replace_seq(c, lit("-- SAFETY_CHECK"), lit("-- TODO_VALIDATION"))
    } else {
        c + lit(" -- TODO_VALIDATION=SKIPPED")
    }
}

/// The finalized pipeline output for a payload and a clock reading.
pub open spec fn spec_sql_final(s: Seq<u8>, ts: i64) -> Seq<u8> {
    spec_prepare_sql(spec_enrich_sql(spec_parse_sql(s), ts))
}

/// Status line of the first database sink for a final output of `n` bytes.
pub open spec fn spec_first_sql_status(n: nat) -> Seq<u8> {
    lit("First todo SQL operation completed: ") + dec_digits(n) + lit(" bytes")
}

/// Status line of the second database sink for a final output of `n` bytes.
pub open spec fn spec_second_sql_status(n: nat) -> Seq<u8> {
    lit("Second todo SQL operation completed: ") + dec_digits(n) + lit(" bytes")
}

/// The summary a SQL pipeline run returns.
pub open spec fn spec_handle_sql(s: Seq<u8>, ts: i64) -> Seq<u8> {
    lit("Todo SQL operations completed: ") + spec_first_sql_status(spec_sql_final(s, ts).len())
        + lit(", ") + spec_second_sql_status(spec_sql_final(s, ts).len())
}

proof fn sql_tags_ascii()
    ensures
        ascii_str("select"),
        ascii_str("insert"),
        ascii_str("update"),
        ascii_str("delete"),
        ascii_str("todo"),
        ascii_str(" -- OPERATION=TODO_QUERY"),
        ascii_str(" -- OPERATION=TODO_CREATE"),
        ascii_str(" -- OPERATION=TODO_UPDATE"),
        ascii_str(" -- OPERATION=TODO_DELETE"),
        ascii_str(" -- OPERATION=TODO_GENERIC"),
        ascii_str("SELECT"),
        ascii_str("READ"),
        ascii_str("WRITE"),
        ascii_str(" -- PRIORITY="),
        ascii_str(" -- LENGTH="),
        ascii_str(" -- TIMESTAMP="),
        ascii_str(" -- USER=USER_"),
        ascii_str(" -- VERSION=v2.1.0 -- "),
        ascii_str("completed"),
        ascii_str("assigned_to"),
        ascii_str("notes"),
        ascii_str("CONTEXT=COMPLETION_TRACKING"),
        ascii_str("CONTEXT=ASSIGNMENT_MANAGEMENT"),
        ascii_str("CONTEXT=NOTE_PROCESSING"),
        ascii_str("CONTEXT=GENERAL_TODO"),
        ascii_str("where"),
        ascii_str("order by"),
        ascii_str("limit"),
        ascii_str(" -- OPTIMIZATION=INDEXED_QUERY"),
        ascii_str(" -- SORTING=ENABLED"),
        ascii_str(" -- PAGINATION=ACTIVE"),
        ascii_str("-- SAFETY_CHECK"),
        ascii_str("-- TODO_VALIDATION"),
        ascii_str(" -- TODO_VALIDATION=SKIPPED"),
        ascii_str("First todo SQL operation completed: "),
        ascii_str("Second todo SQL operation completed: "),
        ascii_str(" bytes"),
        ascii_str("Todo SQL operations completed: "),
        ascii_str(", "),
{
    reveal_strlit("select");
    reveal_strlit("insert");
    reveal_strlit("update");
    reveal_strlit("delete");
    reveal_strlit("todo");
    reveal_strlit(" -- OPERATION=TODO_QUERY");
    reveal_strlit(" -- OPERATION=TODO_CREATE");
    reveal_strlit(" -- OPERATION=TODO_UPDATE");
    reveal_strlit(" -- OPERATION=TODO_DELETE");
    reveal_strlit(" -- OPERATION=TODO_GENERIC");
    reveal_strlit("SELECT");
    reveal_strlit("READ");
    reveal_strlit("WRITE");
    reveal_strlit(" -- PRIORITY=");
    reveal_strlit(" -- LENGTH=");
    reveal_strlit(" -- TIMESTAMP=");
    reveal_strlit(" -- USER=USER_");
    reveal_strlit(" -- VERSION=v2.1.0 -- ");
    reveal_strlit("completed");
    reveal_strlit("assigned_to");
    reveal_strlit("notes");
    reveal_strlit("CONTEXT=COMPLETION_TRACKING");
    reveal_strlit("CONTEXT=ASSIGNMENT_MANAGEMENT");
    reveal_strlit("CONTEXT=NOTE_PROCESSING");
    reveal_strlit("CONTEXT=GENERAL_TODO");
    reveal_strlit("where");
    reveal_strlit("order by");
    reveal_strlit("limit");
    reveal_strlit(" -- OPTIMIZATION=INDEXED_QUERY");
    reveal_strlit(" -- SORTING=ENABLED");
    reveal_strlit(" -- PAGINATION=ACTIVE");
    reveal_strlit("-- SAFETY_CHECK");
    reveal_strlit("-- TODO_VALIDATION");
    reveal_strlit(" -- TODO_VALIDATION=SKIPPED");
    reveal_strlit("First todo SQL operation completed: ");
    reveal_strlit("Second todo SQL operation completed: ");
    reveal_strlit(" bytes");
    reveal_strlit("Todo SQL operations completed: ");
    reveal_strlit(", ");
}

/// Parse incoming todo SQL request and transform structure.
pub fn parse_todo_sql_request(sql_data: Vec<u8>) -> (out: Vec<u8>)
    ensures
        out@ == spec_parse_sql(sql_data@),
{
    proof {
        sql_tags_ascii();
    }
    let ghost s = sql_data@;
    let n = sql_data.len();
    let low = to_lower_bytes(sql_data.as_slice());
    let has_todo = contains_lit(low.as_slice(), "todo");
    let is_query = contains_lit(low.as_slice(), "select") && has_todo;
    let is_create = contains_lit(low.as_slice(), "insert") && has_todo;
    let is_update = contains_lit(low.as_slice(), "update") && has_todo;
    let is_delete = contains_lit(low.as_slice(), "delete") && has_todo;
    let mut out = sql_data;
    if is_query {
        push_lit(&mut out, " -- OPERATION=TODO_QUERY");
    } else if is_create {
        push_lit(&mut out, " -- OPERATION=TODO_CREATE");
    } else if is_update {
        push_lit(&mut out, " -- OPERATION=TODO_UPDATE");
    } else if is_delete {
        push_lit(&mut out, " -- OPERATION=TODO_DELETE");
    } else {
        push_lit(&mut out, " -- OPERATION=TODO_GENERIC");
    }
    let is_read = contains_lit(out.as_slice(), "SELECT");
    push_lit(&mut out, " -- PRIORITY=");
    if is_read {
        push_lit(&mut out, "READ");
    } else {
        push_lit(&mut out, "WRITE");
    }
    push_lit(&mut out, " -- LENGTH=");
    let mut num = render_usize(n);
    out.append(&mut num);
    proof {
        assert(out@ =~= spec_parse_sql(s));
    }
    out
}

/// Enrich todo context with user and version metadata.
pub fn enrich_todo_context(processed_data: Vec<u8>, timestamp: i64) -> (out: Vec<u8>)
    ensures
        out@ == spec_enrich_sql(processed_data@, timestamp),
{
    proof {
        sql_tags_ascii();
    }
    let ghost d = processed_data@;
    let has_completed = contains_lit(processed_data.as_slice(), "completed");
    let has_assigned = contains_lit(processed_data.as_slice(), "assigned_to");
    let has_notes = contains_lit(processed_data.as_slice(), "notes");
    let mut out = processed_data;
    push_lit(&mut out, " -- TIMESTAMP=");
    let mut ts_digits = render_i64(timestamp);
    out.append(&mut ts_digits);
    push_lit(&mut out, " -- USER=USER_");
    let user: u64 = if timestamp >= 0 {
        (timestamp as u64) % 1000
    } else {
        0
    };
    assert(user as nat == user_of(timestamp));
    let mut user_digits = render_u64(user);
    out.append(&mut user_digits);
    push_lit(&mut out, " -- VERSION=v2.1.0 -- ");
    if has_completed {
        push_lit(&mut out, "CONTEXT=COMPLETION_TRACKING");
    } else if has_assigned {
        push_lit(&mut out, "CONTEXT=ASSIGNMENT_MANAGEMENT");
    } else if has_notes {
        push_lit(&mut out, "CONTEXT=NOTE_PROCESSING");
    } else {
        push_lit(&mut out, "CONTEXT=GENERAL_TODO");
    }
    proof {
        assert(out@ =~= spec_enrich_sql(d, timestamp));
    }
    out
}

/// Prepare todo execution with final optimizations.
pub fn prepare_todo_execution(enriched_data: Vec<u8>) -> (out: Vec<u8>)
    ensures
        out@ == spec_prepare_sql(enriched_data@),
{
    proof {
        sql_tags_ascii();
        reveal_strlit("-- SAFETY_CHECK");
    }
    let ghost e = enriched_data@;
    let mut out = enriched_data;
    let low_a = to_lower_bytes(out.as_slice());
    if contains_lit(low_a.as_slice(), "where") {
        push_lit(&mut out, " -- OPTIMIZATION=INDEXED_QUERY");
    }
    let low_b = to_lower_bytes(out.as_slice());
    if contains_lit(low_b.as_slice(), "order by") {
        push_lit(&mut out, " -- SORTING=ENABLED");
    }
    let low_c = to_lower_bytes(out.as_slice());
    if contains_lit(low_c.as_slice(), "limit") {
        push_lit(&mut out, " -- PAGINATION=ACTIVE");
    }
    if contains_lit(out.as_slice(), "-- SAFETY_CHECK") {
        let pat = lit_vec("-- SAFETY_CHECK");
        let rep = lit_vec("-- TODO_VALIDATION");
        let replaced = replace_bytes(out.as_slice(), pat.as_slice(), rep.as_slice());
        proof {
            assert(replaced@ =~= spec_prepare_sql(e));
        }
        replaced
    } else {
        push_lit(&mut out, " -- TODO_VALIDATION=SKIPPED");
        proof {
            assert(out@ =~= spec_prepare_sql(e));
        }
        out
    }
}

/// Status line of the first database sink.
pub fn first_sql_status(n: usize) -> (st: Vec<u8>)
    ensures
        st@ == spec_first_sql_status(n as nat),
{
    proof {
        sql_tags_ascii();
    }
    let mut st: Vec<u8> = Vec::new();
    push_lit(&mut st, "First todo SQL operation completed: ");
    let mut num = render_usize(n);
    st.append(&mut num);
    push_lit(&mut st, " bytes");
    proof {
        assert(st@ =~= spec_first_sql_status(n as nat));
    }
    st
}

/// Status line of the second database sink.
pub fn second_sql_status(n: usize) -> (st: Vec<u8>)
    ensures
        st@ == spec_second_sql_status(n as nat),
{
    proof {
        sql_tags_ascii();
    }
    let mut st: Vec<u8> = Vec::new();
    push_lit(&mut st, "Second todo SQL operation completed: ");
    let mut num = render_usize(n);
    st.append(&mut num);
    push_lit(&mut st, " bytes");
    proof {
        assert(st@ =~= spec_second_sql_status(n as nat));
    }
    st
}

/// Run the whole SQL pipeline for one given clock reading.
pub fn handle_sql_operations_at(sql_data: Vec<u8>, timestamp: i64) -> (r: Result<
    Vec<u8>,
    Vec<u8>,
>)
    ensures
        r is Ok,
        r->Ok_0@ == spec_handle_sql(sql_data@, timestamp),
{
    proof {
        sql_tags_ascii();
    }
    let ghost s = sql_data@;
    let parsed = parse_todo_sql_request(sql_data);
    let enriched = enrich_todo_context(parsed, timestamp);
    let final_data = prepare_todo_execution(enriched);
    let first = first_sql_status(final_data.len());
    let second = second_sql_status(final_data.len());
    let mut out: Vec<u8> = Vec::new();
    push_lit(&mut out, "Todo SQL operations completed: ");
    out.extend_from_slice(first.as_slice());
    push_lit(&mut out, ", ");
    out.extend_from_slice(second.as_slice());
    proof {
        assert(out@ =~= spec_handle_sql(s, timestamp));
    }
    Ok(out)
}

/// SQL processing entry point: reads the clock, then runs the
/// pipeline; the summary always reports both sink statuses.
pub fn handle_sql_operations(sql_data: Vec<u8>) -> (r: Result<Vec<u8>, Vec<u8>>)
    ensures
        r is Ok,
        exists|ts: i64| r->Ok_0@ == #[trigger] spec_handle_sql(sql_data@, ts),
{
    let ts = clock::unix_timestamp_now();
    handle_sql_operations_at(sql_data, ts)
}

/// Taint preservation: a payload free of the safety-check marker that
/// the finalize stage rewrites survives as a contiguous substring of
/// the final pipeline output.
#[verifier::rlimit(100)]
pub proof fn lemma_sql_taint_preserved(s: Seq<u8>, ts: i64)
    requires
        !contains_seq(s, lit("-- SAFETY_CHECK")),
    ensures
        contains_seq(spec_sql_final(s, ts), s),
{
    sql_tags_ascii();
    reveal_strlit(" -- OPERATION=TODO_QUERY");
    reveal_strlit(" -- OPERATION=TODO_CREATE");
    reveal_strlit(" -- OPERATION=TODO_UPDATE");
    reveal_strlit(" -- OPERATION=TODO_DELETE");
    reveal_strlit(" -- OPERATION=TODO_GENERIC");
    reveal_strlit("-- SAFETY_CHECK");
    let p = spec_parse_sql(s);
    let e = spec_enrich_sql(p, ts);
    let op = sql_op_tag(s);
    assert(op.len() >= 2 && op[0] == 32 && op[1] == 45);
    let tail_p = op + lit(" -- PRIORITY=") + (if contains_seq(s + op, lit("SELECT")) {
        lit("READ")
    } else {
        lit("WRITE")
    }) + lit(" -- LENGTH=") + dec_digits(s.len());
    assert(p =~= s + tail_p);
    let tail_e = tail_p + lit(" -- TIMESTAMP=") + dec_int(ts as int) + lit(" -- USER=USER_")
        + dec_digits(user_of(ts)) + lit(" -- VERSION=v2.1.0 -- ") + sql_context_tag(p);
    assert(e =~= s + tail_e);
    let a = if contains_seq(lower_seq(e), lit("where")) {
        e + lit(" -- OPTIMIZATION=INDEXED_QUERY")
    } else {
        e
    };
    let b = if contains_seq(lower_seq(a), lit("order by")) {
        a + lit(" -- SORTING=ENABLED")
    } else {
        a
    };
    let c = if contains_seq(lower_seq(b), lit("limit")) {
        b + lit(" -- PAGINATION=ACTIVE")
    } else {
        b
    };
    let tail_c = tail_e + (if contains_seq(lower_seq(e), lit("where")) {
        lit(" -- OPTIMIZATION=INDEXED_QUERY")
    } else {
        Seq::<u8>::empty()
    }) + (if contains_seq(lower_seq(a), lit("order by")) {
        lit(" -- SORTING=ENABLED")
    } else {
        Seq::<u8>::empty()
    }) + (if contains_seq(lower_seq(b), lit("limit")) {
        lit(" -- PAGINATION=ACTIVE")
    } else {
        Seq::<u8>::empty()
    });
    assert(c =~= s + tail_c);
    assert(tail_c.len() >= 2 && tail_c[0] == 32 && tail_c[1] == 45);
    let f = spec_sql_final(s, ts);
    if contains_seq(c, lit("-- SAFETY_CHECK")) {
        let pat = lit("-- SAFETY_CHECK");
        assert(pat.len() == 15);
        assert forall|k: int|
            1 <= k < pat.len() implies #[trigger] pat[k] != tail_c[0] || (k + 1 < pat.len()
            && pat[k + 1] != tail_c[1]) by {
            assert(pat[2] == 32 && pat[3] == 83);
        }
        lemma_no_match_in_prefix_two(s, tail_c, pat);
        assert(c == s + tail_c);
        lemma_replace_clean_prefix(c, s.len() as int, pat, lit("-- TODO_VALIDATION"));
        assert(c.take(s.len() as int) =~= s);
        assert(f.take(s.len() as int) =~= s);
        lemma_prefix_contains(f, s);
    } else {
        assert(f =~= s + (tail_c + lit(" -- TODO_VALIDATION=SKIPPED")));
        assert(f.take(s.len() as int) =~= s);
        lemma_prefix_contains(f, s);
    }
}

/// The summary embeds, in each sink status, the byte length of the
/// finalized pipeline output.
pub proof fn lemma_sql_status_reports_final_length(s: Seq<u8>, ts: i64)
    ensures
        spec_handle_sql(s, ts) == lit("Todo SQL operations completed: ") + (lit(
            "First todo SQL operation completed: ",
        ) + dec_digits(spec_sql_final(s, ts).len()) + lit(" bytes")) + lit(", ") + (lit(
            "Second todo SQL operation completed: ",
        ) + dec_digits(spec_sql_final(s, ts).len()) + lit(" bytes")),
{
}

} // verus!
