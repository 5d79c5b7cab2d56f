//! Command pipeline: classifies a command payload, enriches it with
//! session metadata, rewrites shell connectives, and reports one status
//! line per downstream sink.
//!
//! The process-spawning sinks themselves are I/O and live with the
//! caller; this module carries the whole observable computation and its
//! proof of taint preservation.

use vstd::prelude::*;

use crate::clock;
use crate::numeral::{dec_digits, dec_int, render_i64, render_u64, render_usize};
use crate::text::{
    ascii_str, contains_lit, contains_seq, lemma_no_match_in_prefix, lemma_prefix_contains,
    lemma_replace_clean_prefix, lemma_replace_head, lit, push_lit, replace_bytes, replace_seq,
};

verus! {

/// The classification tag appended by the parse stage.
pub open spec fn cmd_type_tag(s: Seq<u8>) -> Seq<u8> {
    if contains_seq(s, lit("ls")) || contains_seq(s, lit("dir")) {
        lit(" -- CMD_TYPE=LISTING")
    } else if contains_seq(s, lit("cat")) || contains_seq(s, lit("type")) {
        lit(" -- CMD_TYPE=READING")
    } else if contains_seq(s, lit("rm")) || contains_seq(s, lit("del")) {
        lit(" -- CMD_TYPE=DELETION")
    } else {
        lit(" -- CMD_TYPE=EXECUTION")
    }
}

/// Parse stage: the payload, its classification tag, a priority tag
/// chosen by length, and the payload's original byte length.
pub open spec fn spec_parse_command(s: Seq<u8>) -> Seq<u8> {
    let tagged = s + cmd_type_tag(s);
    let pr = if tagged.len() > 50 {
        lit("HIGH")
    } else {
        lit("NORMAL")
    };
    tagged + lit(" -- PRIORITY=") + pr + lit(" -- LENGTH=") + dec_digits(s.len())
}

/// The session number derived from a clock reading.
pub open spec fn sess_of(ts: i64) -> nat {
    if ts >= 0 {
        ((ts as int) % 10000) as nat
    } else {
        0
    }
}

/// Enrich stage: timestamp, session, client and platform tags.
pub open spec fn spec_enrich_command(d: Seq<u8>, ts: i64) -> Seq<u8> {
    d + lit(" -- TIMESTAMP=") + dec_int(ts as int) + lit(" -- SESSION=SESS_") + dec_digits(
        sess_of(ts),
    ) + lit(" -- USER_AGENT=Rust-Todo-Client/1.0 -- OS=Linux")
}

/// Finalize stage: shell connectives are rewritten, then a wrapper tag
/// and, for long payloads, an optimization tag are appended.
pub open spec fn spec_prepare_command(e: Seq<u8>) -> Seq<u8> {
    let a = replace_seq(e, lit("&&"), lit(" ; "));
    let b = replace_seq(a, lit("||"), lit(" ; "));
    let c = if contains_seq(b, lit("-- EXEC_WRAPPER")) {
        b
    } else {
        b + lit(" -- EXEC_WRAPPER=ENABLED")
    };
    if c.len() > 100 {
        c + lit(" -- OPTIMIZATION=PERFORMANCE")
    } else {
        c
    }
}

/// The finalized pipeline output for a payload and a clock reading.
pub open spec fn spec_command_final(s: Seq<u8>, ts: i64) -> Seq<u8> {
    spec_prepare_command(spec_enrich_command(spec_parse_command(s), ts))
}

/// Status line of the first command sink for a final output of `n` bytes.
pub open spec fn spec_first_command_status(n: nat) -> Seq<u8> {
    lit("First command operation completed: ") + dec_digits(n) + lit(" bytes")
}

/// Status line of the second command sink for a final output of `n` bytes.
pub open spec fn spec_second_command_status(n: nat) -> Seq<u8> {
    lit("Second command operation completed: ") + dec_digits(n) + lit(" bytes")
}

/// The summary a command pipeline run returns.
pub open spec fn spec_handle_command(s: Seq<u8>, ts: i64) -> Seq<u8> {
    lit("Command operations completed: ") + spec_first_command_status(
        spec_command_final(s, ts).len(),
    ) + lit(", ") + spec_second_command_status(spec_command_final(s, ts).len())
}

proof fn command_tags_ascii()
    ensures
        ascii_str("ls"),
        ascii_str("dir"),
        ascii_str("cat"),
        ascii_str("type"),
        ascii_str("rm"),
        ascii_str("del"),
        ascii_str(" -- CMD_TYPE=LISTING"),
        ascii_str(" -- CMD_TYPE=READING"),
        ascii_str(" -- CMD_TYPE=DELETION"),
        ascii_str(" -- CMD_TYPE=EXECUTION"),
        ascii_str(" -- PRIORITY="),
        ascii_str("HIGH"),
        ascii_str("NORMAL"),
        ascii_str(" -- LENGTH="),
        ascii_str(" -- TIMESTAMP="),
        ascii_str(" -- SESSION=SESS_"),
        ascii_str(" -- USER_AGENT=Rust-Todo-Client/1.0 -- OS=Linux"),
        ascii_str("&&"),
        ascii_str("||"),
        ascii_str(" ; "),
        ascii_str("-- EXEC_WRAPPER"),
        ascii_str(" -- EXEC_WRAPPER=ENABLED"),
        ascii_str(" -- OPTIMIZATION=PERFORMANCE"),
        ascii_str("First command operation completed: "),
        ascii_str("Second command operation completed: "),
        ascii_str(" bytes"),
        ascii_str("Command operations completed: "),
        ascii_str(", "),
{
    reveal_strlit("ls");
    reveal_strlit("dir");
    reveal_strlit("cat");
    reveal_strlit("type");
    reveal_strlit("rm");
    reveal_strlit("del");
    reveal_strlit(" -- CMD_TYPE=LISTING");
    reveal_strlit(" -- CMD_TYPE=READING");
    reveal_strlit(" -- CMD_TYPE=DELETION");
    reveal_strlit(" -- CMD_TYPE=EXECUTION");
    reveal_strlit(" -- PRIORITY=");
    reveal_strlit("HIGH");
    reveal_strlit("NORMAL");
    reveal_strlit(" -- LENGTH=");
    reveal_strlit(" -- TIMESTAMP=");
    reveal_strlit(" -- SESSION=SESS_");
    reveal_strlit(" -- USER_AGENT=Rust-Todo-Client/1.0 -- OS=Linux");
    reveal_strlit("&&");
    reveal_strlit("||");
    reveal_strlit(" ; ");
    reveal_strlit("-- EXEC_WRAPPER");
    reveal_strlit(" -- EXEC_WRAPPER=ENABLED");
    reveal_strlit(" -- OPTIMIZATION=PERFORMANCE");
    reveal_strlit("First command operation completed: ");
    reveal_strlit("Second command operation completed: ");
    reveal_strlit(" bytes");
    reveal_strlit("Command operations completed: ");
    reveal_strlit(", ");
}

/// Parse incoming command request and transform structure.
pub fn parse_command_request(command_data: Vec<u8>) -> (out: Vec<u8>)
    ensures
        out@ == spec_parse_command(command_data@),
{
    proof {
        command_tags_ascii();
    }
    let ghost s = command_data@;
    let n = command_data.len();
    let is_listing = contains_lit(command_data.as_slice(), "ls") || contains_lit(
        command_data.as_slice(),
        "dir",
    );
    let is_reading = contains_lit(command_data.as_slice(), "cat") || contains_lit(
        command_data.as_slice(),
        "type",
    );
    let is_deletion = contains_lit(command_data.as_slice(), "rm") || contains_lit(
        command_data.as_slice(),
        "del",
    );
    let mut out = command_data;
    if is_listing {
        push_lit(&mut out, " -- CMD_TYPE=LISTING");
    } else if is_reading {
        push_lit(&mut out, " -- CMD_TYPE=READING");
    } else if is_deletion {
        push_lit(&mut out, " -- CMD_TYPE=DELETION");
    } else {
        push_lit(&mut out, " -- CMD_TYPE=EXECUTION");
    }
    let hi = out.len() > 50;
    push_lit(&mut out, " -- PRIORITY=");
    if hi {
        push_lit(&mut out, "HIGH");
    } else {
        push_lit(&mut out, "NORMAL");
    }
    push_lit(&mut out, " -- LENGTH=");
    let mut num = render_usize(n);
    out.append(&mut num);
    proof {
        assert(out@ =~= spec_parse_command(s));
    }
    out
}

/// Enrich command context with session metadata for a clock reading.
pub fn enrich_command_context(processed_data: Vec<u8>, timestamp: i64) -> (out: Vec<u8>)
    ensures
        out@ == spec_enrich_command(processed_data@, timestamp),
{
    proof {
        command_tags_ascii();
    }
    let ghost d = processed_data@;
    let mut out = processed_data;
    push_lit(&mut out, " -- TIMESTAMP=");
    let mut ts_digits = render_i64(timestamp);
    out.append(&mut ts_digits);
    push_lit(&mut out, " -- SESSION=SESS_");
    let sess: u64 = if timestamp >= 0 {
        (timestamp as u64) % 10000
    } else {
        0
    };
    assert(sess as nat == sess_of(timestamp));
    let mut sess_digits = render_u64(sess);
    out.append(&mut sess_digits);
    push_lit(&mut out, " -- USER_AGENT=Rust-Todo-Client/1.0 -- OS=Linux");
    proof {
        assert(out@ =~= spec_enrich_command(d, timestamp));
    }
    out
}

/// Prepare command execution with final rewrites and flags.
pub fn prepare_command_execution(enriched_data: Vec<u8>) -> (out: Vec<u8>)
    ensures
        out@ == spec_prepare_command(enriched_data@),
{
    proof {
        command_tags_ascii();
        reveal_strlit("&&");
        reveal_strlit("||");
    }
    let ghost e = enriched_data@;
    let and_pat = crate::text::lit_vec("&&");
    let or_pat = crate::text::lit_vec("||");
    let semi = crate::text::lit_vec(" ; ");
    let step_a = replace_bytes(enriched_data.as_slice(), and_pat.as_slice(), semi.as_slice());
    let step_b = replace_bytes(step_a.as_slice(), or_pat.as_slice(), semi.as_slice());
    let mut out = step_b;
    if !contains_lit(out.as_slice(), "-- EXEC_WRAPPER") {
        push_lit(&mut out, " -- EXEC_WRAPPER=ENABLED");
    }
    if out.len() > 100 {
        push_lit(&mut out, " -- OPTIMIZATION=PERFORMANCE");
    }
    proof {
        assert(out@ =~= spec_prepare_command(e));
    }
    out
}

/// Status line of the first command sink.
pub fn first_command_status(n: usize) -> (st: Vec<u8>)
    ensures
        st@ == spec_first_command_status(n as nat),
{
    proof {
        command_tags_ascii();
    }
    let mut st: Vec<u8> = Vec::new();
    push_lit(&mut st, "First command operation completed: ");
    let mut num = render_usize(n);
    st.append(&mut num);
    push_lit(&mut st, " bytes");
    proof {
        assert(st@ =~= spec_first_command_status(n as nat));
    }
    st
}

/// Status line of the second command sink.
pub fn second_command_status(n: usize) -> (st: Vec<u8>)
    ensures
        st@ == spec_second_command_status(n as nat),
{
    proof {
        command_tags_ascii();
    }
    let mut st: Vec<u8> = Vec::new();
    push_lit(&mut st, "Second command operation completed: ");
    let mut num = render_usize(n);
    st.append(&mut num);
    push_lit(&mut st, " bytes");
    proof {
        assert(st@ =~= spec_second_command_status(n as nat));
    }
    st
}

/// Run the whole command pipeline for one given clock reading.
pub fn handle_command_operations_at(command_data: Vec<u8>, timestamp: i64) -> (r: Result<
    Vec<u8>,
    Vec<u8>,
>)
    ensures
        r is Ok,
        r->Ok_0@ == spec_handle_command(command_data@, timestamp),
{
    proof {
        command_tags_ascii();
    }
    let ghost s = command_data@;
    let parsed = parse_command_request(command_data);
    let enriched = enrich_command_context(parsed, timestamp);
    let final_data = prepare_command_execution(enriched);
    let first = first_command_status(final_data.len());
    let second = second_command_status(final_data.len());
    let mut out: Vec<u8> = Vec::new();
    push_lit(&mut out, "Command operations completed: ");
    out.extend_from_slice(first.as_slice());
    push_lit(&mut out, ", ");
    out.extend_from_slice(second.as_slice());
    proof {
        assert(out@ =~= spec_handle_command(s, timestamp));
    }
    Ok(out)
}

/// Command processing entry point: reads the clock, then runs the
/// pipeline; the summary always reports both sink statuses.
pub fn handle_command_operations(command_data: Vec<u8>) -> (r: Result<Vec<u8>, Vec<u8>>)
    ensures
        r is Ok,
        exists|ts: i64| r->Ok_0@ == #[trigger] spec_handle_command(command_data@, ts),
{
    let ts = clock::unix_timestamp_now();
    handle_command_operations_at(command_data, ts)
}

/// Taint preservation: whatever bytes come in, as long as they hold no
/// shell connective that the finalize stage rewrites, they survive as a
/// contiguous substring of the final pipeline output.
pub proof fn lemma_command_taint_preserved(s: Seq<u8>, ts: i64)
    requires
        !contains_seq(s, lit("&&")),
        !contains_seq(s, lit("||")),
    ensures
        contains_seq(spec_command_final(s, ts), s),
{
    command_tags_ascii();
    reveal_strlit(" -- CMD_TYPE=LISTING");
    reveal_strlit(" -- CMD_TYPE=READING");
    reveal_strlit(" -- CMD_TYPE=DELETION");
    reveal_strlit(" -- CMD_TYPE=EXECUTION");
    reveal_strlit("&&");
    reveal_strlit("||");
    let p = spec_parse_command(s);
    let e = spec_enrich_command(p, ts);
    let tag = cmd_type_tag(s);
    assert(tag[0] == 32 && tag[1] == 45 && tag.len() >= 2);
    let tail = tag + lit(" -- PRIORITY=") + (if (s + tag).len() > 50 {
        lit("HIGH")
    } else {
        lit("NORMAL")
    }) + lit(" -- LENGTH=") + dec_digits(s.len()) + lit(" -- TIMESTAMP=") + dec_int(ts as int)
        + lit(" -- SESSION=SESS_") + dec_digits(sess_of(ts)) + lit(
        " -- USER_AGENT=Rust-Todo-Client/1.0 -- OS=Linux",
    );
    assert(e =~= s + tail);
    assert(tail.len() >= 2 && tail[0] == 32);
    let and_pat = lit("&&");
    assert(and_pat.len() == 2 && and_pat[0] == 38 && and_pat[1] == 38);
    assert forall|k: int|
        1 <= k < and_pat.len() implies !(tail.len() >= and_pat.len() - k
        && #[trigger] tail.take(and_pat.len() - k) == and_pat.skip(k)) by {
        if tail.len() >= 1 && tail.take(1) == and_pat.skip(1) {
            assert(tail.take(1)[0] == tail[0]);
            assert(and_pat.skip(1)[0] == and_pat[1]);
        }
    }
    lemma_no_match_in_prefix(s, tail, and_pat);
    assert(e == s + tail);
    lemma_replace_clean_prefix(e, s.len() as int, and_pat, lit(" ; "));
    let a = replace_seq(e, and_pat, lit(" ; "));
    assert(e.take(s.len() as int) =~= s);
    assert(e.skip(s.len() as int) =~= tail);
    let tail_a = replace_seq(tail, and_pat, lit(" ; "));
    assert(a == s + tail_a);
    lemma_replace_head(tail, and_pat, lit(" ; "));
    assert(tail_a.len() >= 1 && tail_a[0] == 32);
    let or_pat = lit("||");
    assert(or_pat.len() == 2 && or_pat[0] == 124 && or_pat[1] == 124);
    assert forall|k: int|
        1 <= k < or_pat.len() implies !(tail_a.len() >= or_pat.len() - k
        && #[trigger] tail_a.take(or_pat.len() - k) == or_pat.skip(k)) by {
        if tail_a.len() >= 1 && tail_a.take(1) == or_pat.skip(1) {
            assert(tail_a.take(1)[0] == tail_a[0]);
            assert(or_pat.skip(1)[0] == or_pat[1]);
        }
    }
    lemma_no_match_in_prefix(s, tail_a, or_pat);
    assert(a == s + tail_a);
    lemma_replace_clean_prefix(a, s.len() as int, or_pat, lit(" ; "));
    let b = replace_seq(a, or_pat, lit(" ; "));
    assert(a.take(s.len() as int) =~= s);
    assert(a.skip(s.len() as int) =~= tail_a);
    let tail_b = replace_seq(tail_a, or_pat, lit(" ; "));
    assert(b == s + tail_b);
    let f = spec_command_final(s, ts);
    let c = if contains_seq(b, lit("-- EXEC_WRAPPER")) {
        b
    } else {
        b + lit(" -- EXEC_WRAPPER=ENABLED")
    };
    assert(c.take(s.len() as int) =~= s);
    assert(f.take(s.len() as int) =~= s);
    lemma_prefix_contains(f, s);
}

/// The summary embeds, in each sink status, the byte length of the
/// finalized pipeline output, not the length of the raw payload.
pub proof fn lemma_command_status_reports_final_length(s: Seq<u8>, ts: i64)
    ensures
        spec_handle_command(s, ts) == lit("Command operations completed: ") + (lit(
            "First command operation completed: ",
        ) + dec_digits(spec_command_final(s, ts).len()) + lit(" bytes")) + lit(", ") + (lit(
            "Second command operation completed: ",
        ) + dec_digits(spec_command_final(s, ts).len()) + lit(" bytes")),
{
}

} // verus!
