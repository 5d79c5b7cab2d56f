//! Path pipeline: rewrites the word `path`, tags the payload, stamps it
//! with the clock, and hardens the final form before the filesystem
//! sinks (which are I/O and live with the caller) are fed.

use vstd::prelude::*;

use crate::clock;
use crate::numeral::{dec_digits, dec_int, render_i64, render_usize};
use crate::text::{
    ascii_str, contains_bytes, contains_seq, lemma_contains_prepend, lemma_no_match_in_prefix,
    lemma_prefix_contains, lemma_replace_absent_identity, lemma_replace_clean_prefix, lit,
    lit_vec, lower_seq, push_lit, replace_bytes, replace_seq, to_lower_bytes,
};

verus! {

/// Parse stage: the word `path` is rewritten, then a type tag and the
/// payload's original byte length are appended.
pub open spec fn spec_parse_path(s: Seq<u8>) -> Seq<u8> {
    replace_seq(s, lit("path"), lit("processed_path")) + lit(" -- TYPE=PATH_OPERATION -- LENGTH=")
        + dec_digits(s.len())
}

/// Enrich stage: a timestamp and a locality tag.
pub open spec fn spec_enrich_path(d: Seq<u8>, ts: i64) -> Seq<u8> {
    d + lit(" -- TIMESTAMP=") + dec_int(ts as int) + lit(" -- SYSTEM=LOCAL")
}

/// Finalize stage: a payload whose lowercase form holds `unsafe` has
/// that word rewritten; any other payload is prefixed as secured.
pub open spec fn spec_prepare_path(e: Seq<u8>) -> Seq<u8> {
    if contains_seq(lower_seq(e), lit("unsafe")) {
        replace_seq(e, lit("unsafe"), lit("optimized"))
    } else {
        lit("secure_") + e
    }
}

/// The finalized pipeline output for a payload and a clock reading.
pub open spec fn spec_path_final(s: Seq<u8>, ts: i64) -> Seq<u8> {
    spec_prepare_path(spec_enrich_path(spec_parse_path(s), ts))
}

/// Status line of the first path sink for a final output of `n` bytes.
pub open spec fn spec_first_path_status(n: nat) -> Seq<u8> {
    lit("First path operation completed: ") + dec_digits(n) + lit(" bytes")
}

/// Status line of the second path sink for a final output of `n` bytes.
pub open spec fn spec_second_path_status(n: nat) -> Seq<u8> {
    lit("Second path operation completed: ") + dec_digits(n) + lit(" bytes")
}

/// The summary a path pipeline run returns.
pub open spec fn spec_handle_path(s: Seq<u8>, ts: i64) -> Seq<u8> {
    lit("Path operations completed: ") + spec_first_path_status(spec_path_final(s, ts).len())
        + lit(", ") + spec_second_path_status(spec_path_final(s, ts).len())
}

proof fn path_tags_ascii()
    ensures
        ascii_str("path"),
        ascii_str("processed_path"),
        ascii_str(" -- TYPE=PATH_OPERATION -- LENGTH="),
        ascii_str(" -- TIMESTAMP="),
        ascii_str(" -- SYSTEM=LOCAL"),
        ascii_str("unsafe"),
        ascii_str("optimized"),
        ascii_str("secure_"),
        ascii_str("First path operation completed: "),
        ascii_str("Second path operation completed: "),
        ascii_str(" bytes"),
        ascii_str("Path operations completed: "),
        ascii_str(", "),
{
    reveal_strlit("path");
    reveal_strlit("processed_path");
    reveal_strlit(" -- TYPE=PATH_OPERATION -- LENGTH=");
    reveal_strlit(" -- TIMESTAMP=");
    reveal_strlit(" -- SYSTEM=LOCAL");
    reveal_strlit("unsafe");
    reveal_strlit("optimized");
    reveal_strlit("secure_");
    reveal_strlit("First path operation completed: ");
    reveal_strlit("Second path operation completed: ");
    reveal_strlit(" bytes");
    reveal_strlit("Path operations completed: ");
    reveal_strlit(", ");
}

/// Parse incoming path request and transform structure.
pub fn parse_path_request(path_data: Vec<u8>) -> (out: Vec<u8>)
    ensures
        out@ == spec_parse_path(path_data@),
{
    proof {
        path_tags_ascii();
        reveal_strlit("path");
    }
    let ghost s = path_data@;
    let n = path_data.len();
    let pat = lit_vec("path");
    let rep = lit_vec("processed_path");
    let mut out = replace_bytes(path_data.as_slice(), pat.as_slice(), rep.as_slice());
    push_lit(&mut out, " -- TYPE=PATH_OPERATION -- LENGTH=");
    let mut num = render_usize(n);
    out.append(&mut num);
    proof {
        assert(out@ =~= spec_parse_path(s));
    }
    out
}

/// Enrich path context with a clock reading.
pub fn enrich_path_context(processed_data: Vec<u8>, timestamp: i64) -> (out: Vec<u8>)
    ensures
        out@ == spec_enrich_path(processed_data@, timestamp),
{
    proof {
        path_tags_ascii();
    }
    let ghost d = processed_data@;
    let mut out = processed_data;
    push_lit(&mut out, " -- TIMESTAMP=");
    let mut ts_digits = render_i64(timestamp);
    out.append(&mut ts_digits);
    push_lit(&mut out, " -- SYSTEM=LOCAL");
    proof {
        assert(out@ =~= spec_enrich_path(d, timestamp));
    }
    out
}

/// Prepare path execution with the final hardening rewrite.
pub fn prepare_path_execution(enriched_data: Vec<u8>) -> (out: Vec<u8>)
    ensures
        out@ == spec_prepare_path(enriched_data@),
{
    proof {
        path_tags_ascii();
        reveal_strlit("unsafe");
    }
    let ghost e = enriched_data@;
    let lowered = to_lower_bytes(enriched_data.as_slice());
    let pat = lit_vec("unsafe");
    if contains_bytes(lowered.as_slice(), pat.as_slice()) {
        let rep = lit_vec("optimized");
        let out = replace_bytes(enriched_data.as_slice(), pat.as_slice(), rep.as_slice());
        out
    } else {
        let mut out = lit_vec("secure_");
        out.extend_from_slice(enriched_data.as_slice());
        proof {
            assert(out@ =~= spec_prepare_path(e));
        }
        out
    }
}

/// Status line of the first path sink.
pub fn first_path_status(n: usize) -> (st: Vec<u8>)
    ensures
        st@ == spec_first_path_status(n as nat),
{
    proof {
        path_tags_ascii();
    }
    let mut st: Vec<u8> = Vec::new();
    push_lit(&mut st, "First path operation completed: ");
    let mut num = render_usize(n);
    st.append(&mut num);
    push_lit(&mut st, " bytes");
    proof {
        assert(st@ =~= spec_first_path_status(n as nat));
    }
    st
}

/// Status line of the second path sink.
pub fn second_path_status(n: usize) -> (st: Vec<u8>)
    ensures
        st@ == spec_second_path_status(n as nat),
{
    proof {
        path_tags_ascii();
    }
    let mut st: Vec<u8> = Vec::new();
    push_lit(&mut st, "Second path operation completed: ");
    let mut num = render_usize(n);
    st.append(&mut num);
    push_lit(&mut st, " bytes");
    proof {
        assert(st@ =~= spec_second_path_status(n as nat));
    }
    st
}

/// Run the whole path pipeline for one given clock reading.
pub fn handle_path_operations_at(path_data: Vec<u8>, timestamp: i64) -> (r: Result<
    Vec<u8>,
    Vec<u8>,
>)
    ensures
        r is Ok,
        r->Ok_0@ == spec_handle_path(path_data@, timestamp),
{
    proof {
        path_tags_ascii();
    }
    let ghost s = path_data@;
    let parsed = parse_path_request(path_data);
    let enriched = enrich_path_context(parsed, timestamp);
    let final_data = prepare_path_execution(enriched);
    let first = first_path_status(final_data.len());
    let second = second_path_status(final_data.len());
    let mut out: Vec<u8> = Vec::new();
    push_lit(&mut out, "Path operations completed: ");
    out.extend_from_slice(first.as_slice());
    push_lit(&mut out, ", ");
    out.extend_from_slice(second.as_slice());
    proof {
        assert(out@ =~= spec_handle_path(s, timestamp));
    }
    Ok(out)
}

/// Path processing entry point: reads the clock, then runs the
/// pipeline; the summary always reports both sink statuses.
pub fn handle_path_operations(path_data: Vec<u8>) -> (r: Result<Vec<u8>, Vec<u8>>)
    ensures
        r is Ok,
        exists|ts: i64| r->Ok_0@ == #[trigger] spec_handle_path(path_data@, ts),
{
    let ts = clock::unix_timestamp_now();
    handle_path_operations_at(path_data, ts)
}

/// Taint preservation: a payload free of the two words the pipeline
/// rewrites survives as a contiguous substring of the final output.
pub proof fn lemma_path_taint_preserved(s: Seq<u8>, ts: i64)
    requires
        !contains_seq(s, lit("path")),
        !contains_seq(s, lit("unsafe")),
    ensures
        contains_seq(spec_path_final(s, ts), s),
{
    path_tags_ascii();
    reveal_strlit("path");
    reveal_strlit("unsafe");
    reveal_strlit(" -- TYPE=PATH_OPERATION -- LENGTH=");
    let word = lit("path");
    lemma_replace_absent_identity(s, word, lit("processed_path"));
    let p = spec_parse_path(s);
    let e = spec_enrich_path(p, ts);
    let tail = lit(" -- TYPE=PATH_OPERATION -- LENGTH=") + dec_digits(s.len()) + lit(
        " -- TIMESTAMP=",
    ) + dec_int(ts as int) + lit(" -- SYSTEM=LOCAL");
    assert(e =~= s + tail);
    assert(tail.len() >= 1 && tail[0] == 32);
    let pat = lit("unsafe");
    assert(pat.len() == 6);
    assert(pat[1] == 110 && pat[2] == 115 && pat[3] == 97 && pat[4] == 102 && pat[5] == 101);
    if contains_seq(lower_seq(e), pat) {
        assert forall|k: int|
            1 <= k < pat.len() implies !(tail.len() >= pat.len() - k && #[trigger] tail.take(
            pat.len() - k,
        ) == pat.skip(k)) by {
            if tail.len() >= pat.len() - k && tail.take(pat.len() - k) == pat.skip(k) {
                assert(tail.take(pat.len() - k)[0] == tail[0]);
                assert(pat.skip(k)[0] == pat[k]);
            }
        }
        lemma_no_match_in_prefix(s, tail, pat);
        assert(e == s + tail);
        lemma_replace_clean_prefix(e, s.len() as int, pat, lit("optimized"));
        let f = replace_seq(e, pat, lit("optimized"));
        assert(e.take(s.len() as int) =~= s);
        assert(f.take(s.len() as int) =~= s);
        lemma_prefix_contains(f, s);
    } else {
        assert(e.take(s.len() as int) =~= s);
        lemma_prefix_contains(e, s);
        lemma_contains_prepend(lit("secure_"), e, s);
    }
}

/// The summary embeds, in each sink status, the byte length of the
/// finalized pipeline output.
pub proof fn lemma_path_status_reports_final_length(s: Seq<u8>, ts: i64)
    ensures
        spec_handle_path(s, ts) == lit("Path operations completed: ") + (lit(
            "First path operation completed: ",
        ) + dec_digits(spec_path_final(s, ts).len()) + lit(" bytes")) + lit(", ") + (lit(
            "Second path operation completed: ",
        ) + dec_digits(spec_path_final(s, ts).len()) + lit(" bytes")),
{
}

} // verus!
