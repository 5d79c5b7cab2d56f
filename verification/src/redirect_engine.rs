//! Redirect pipeline: cleans up a target payload, defaults its scheme
//! to `http://`, and hands the result to two redirect builders.  A
//! target that the URI grammar rejects is silently dropped: no redirect
//! value is built and no error is raised.

use vstd::prelude::*;

use crate::numeral::{dec_digits, render_usize};
use crate::text::{
    ascii_str, contains_seq, lemma_filter_all_kept, lemma_prefix_contains,
    lemma_replace_absent_identity, lit, lit_vec, lower_seq, match_at, push_lit, replace_bytes,
    replace_seq, starts_with_bytes, starts_with_seq, to_lower_bytes, trim_back, trim_front,
    trim_seq,
};

verus! {

/// A NUL byte, trimmed from both ends first.
pub open spec fn is_nul_byte(b: u8) -> bool {
    b == 0
}

/// An ASCII whitespace byte.
pub open spec fn is_space_byte(b: u8) -> bool {
    b == 9 || b == 10 || b == 11 || b == 12 || b == 13 || b == 32
}

/// The bytes that the cleanup pass deletes outright.
pub open spec fn keeps_byte() -> spec_fn(u8) -> bool {
    |b: u8| !(b == 13 || b == 10 || b == 9)
}

/// Parse stage: NUL bytes and whitespace are trimmed from the ends,
/// then every carriage return, line feed and tab is deleted.
pub open spec fn spec_parse_redirect(s: Seq<u8>) -> Seq<u8> {
    trim_seq(trim_seq(s, |b: u8| is_nul_byte(b)), |b: u8| is_space_byte(b)).filter(keeps_byte())
}

/// Enrich stage: the target itself is passed through unchanged.
pub open spec fn spec_enrich_redirect(d: Seq<u8>) -> Seq<u8> {
    d
}

/// Finalize stage: backslashes become forward slashes and a missing
/// scheme is defaulted to `http://`.
pub open spec fn spec_prepare_redirect(e: Seq<u8>) -> Seq<u8> {
    let w = replace_seq(e, lit("\\"), lit("/"));
    if starts_with_seq(lower_seq(w), lit("http://")) || starts_with_seq(
        lower_seq(w),
        lit("https://"),
    ) {
        w
    } else {
        lit("http://") + w
    }
}

/// The finalized redirect target for a payload.
pub open spec fn spec_redirect_final(s: Seq<u8>) -> Seq<u8> {
    spec_prepare_redirect(spec_enrich_redirect(spec_parse_redirect(s)))
}

/// Whether the bytes, read lossily as text, satisfy the URI grammar of
/// the redirect sinks.  The answer depends on the bytes alone.
pub uninterp spec fn uri_parses(s: Seq<u8>) -> bool;

/// Status line of the first redirect sink for a target of `n` bytes.
pub open spec fn spec_first_redirect_status(n: nat) -> Seq<u8> {
    lit("First todo redirect operation completed: ") + dec_digits(n) + lit(" bytes")
}

/// Status line of the second redirect sink for a target of `n` bytes.
pub open spec fn spec_second_redirect_status(n: nat) -> Seq<u8> {
    lit("Second todo redirect operation completed: ") + dec_digits(n) + lit(" bytes")
}

/// The summary a redirect pipeline run returns.
pub open spec fn spec_handle_redirect(s: Seq<u8>) -> Seq<u8> {
    lit("Todo redirect operations completed: ") + spec_first_redirect_status(
        spec_redirect_final(s).len(),
    ) + lit(", ") + spec_second_redirect_status(spec_redirect_final(s).len())
}

proof fn redirect_tags_ascii()
    ensures
        ascii_str("\\"),
        ascii_str("/"),
        ascii_str("http://"),
        ascii_str("https://"),
        ascii_str("First todo redirect operation completed: "),
        ascii_str("Second todo redirect operation completed: "),
        ascii_str(" bytes"),
        ascii_str("Todo redirect operations completed: "),
        ascii_str(", "),
{
    reveal_strlit("\\");
    reveal_strlit("/");
    reveal_strlit("http://");
    reveal_strlit("https://");
    reveal_strlit("First todo redirect operation completed: ");
    reveal_strlit("Second todo redirect operation completed: ");
    reveal_strlit(" bytes");
    reveal_strlit("Todo redirect operations completed: ");
    reveal_strlit(", ");
}

/// Trim NUL bytes from both ends of the buffer.
fn trim_nul_bytes(h: &[u8]) -> (out: Vec<u8>)
    ensures
        out@ == trim_seq(h@, |b: u8| is_nul_byte(b)),
{
    trim_by(h, true)
}

/// Trim ASCII whitespace from both ends of the buffer.
fn trim_space_bytes(h: &[u8]) -> (out: Vec<u8>)
    ensures
        out@ == trim_seq(h@, |b: u8| is_space_byte(b)),
{
    trim_by(h, false)
}

/// Decide the byte predicate a trim pass uses.
fn byte_hits(b: u8, nul_mode: bool) -> (r: bool)
    ensures
        r == if nul_mode {
            is_nul_byte(b)
        } else {
            is_space_byte(b)
        },
{
    if nul_mode {
        b == 0
    } else {
        b == 9 || b == 10 || b == 11 || b == 12 || b == 13 || b == 32
    }
}

/// Trim the chosen byte class from both ends of the buffer.
#[verifier::loop_isolation(false)]
fn trim_by(h: &[u8], nul_mode: bool) -> (out: Vec<u8>)
    ensures
        out@ == trim_seq(
            h@,
            if nul_mode {
                |b: u8| is_nul_byte(b)
            } else {
                |b: u8| is_space_byte(b)
            },
        ),
{
    let ghost pred: spec_fn(u8) -> bool = if nul_mode {
        |b: u8| is_nul_byte(b)
    } else {
        |b: u8| is_space_byte(b)
    };
    let hl = h.len();
    let mut start: usize = 0;
    proof {
        assert(h@.skip(0) =~= h@);
    }
    while start < hl && byte_hits(h[start], nul_mode)
        invariant
            hl == h@.len(),
            0 <= start <= hl,
            trim_front(h@, pred) == trim_front(h@.skip(start as int), pred),
        decreases hl - start,
    {
        proof {
            assert(h@.skip(start as int)[0] == h@[start as int]);
            assert(h@.skip(start as int).drop_first() =~= h@.skip(start as int + 1));
        }
        start += 1;
    }
    proof {
        if start < hl {
            assert(h@.skip(start as int)[0] == h@[start as int]);
            assert(trim_front(h@.skip(start as int), pred) == h@.skip(start as int));
        } else {
            assert(h@.skip(start as int) =~= Seq::<u8>::empty());
        }
        assert(trim_front(h@, pred) == h@.skip(start as int));
    }
    let mut end: usize = hl;
    while end > start && byte_hits(h[end - 1], nul_mode)
        invariant
            hl == h@.len(),
            start <= end <= hl,
            trim_front(h@, pred) == h@.skip(start as int),
            trim_back(h@.skip(start as int), pred) == trim_back(
                h@.subrange(start as int, end as int),
                pred,
            ),
        decreases end,
    {
        proof {
            let sub = h@.subrange(start as int, end as int);
            assert(sub.last() == h@[end - 1]);
            assert(sub.drop_last() =~= h@.subrange(start as int, end as int - 1));
        }
        end -= 1;
    }
    proof {
        let sub = h@.subrange(start as int, end as int);
        if end > start {
            assert(sub.last() == h@[end - 1]);
            assert(trim_back(sub, pred) == sub);
        } else {
            assert(sub =~= Seq::<u8>::empty());
        }
        assert(trim_seq(h@, pred) == h@.subrange(start as int, end as int));
    }
    let piece: &[u8] = &h[start..end];
    vstd::slice::slice_to_vec(piece)
}

/// Delete every carriage return, line feed and tab.
#[verifier::loop_isolation(false)]
fn strip_crlf_tab(h: &[u8]) -> (out: Vec<u8>)
    ensures
        out@ == h@.filter(keeps_byte()),
{
    let hl = h.len();
    let mut out: Vec<u8> = Vec::new();
    let mut i: usize = 0;
    proof {
        assert(h@.take(0) =~= Seq::<u8>::empty());
    }
    while i < hl
        invariant
            hl == h@.len(),
            0 <= i <= hl,
            out@ == h@.take(i as int).filter(keeps_byte()),
        decreases hl - i,
    {
        let b = h[i];
        proof {
            reveal(Seq::filter);
            assert(h@.take(i as int + 1).drop_last() =~= h@.take(i as int));
            assert(h@.take(i as int + 1).last() == h@[i as int]);
        }
        if !(b == 13 || b == 10 || b == 9) {
            out.push(b);
        }
        i += 1;
    }
    proof {
        assert(h@.take(hl as int) =~= h@);
    }
    out
}

/// Transformer of the parse stage: superficial cleanup only.
pub fn parse_todo_redirect_request(redirect_data: Vec<u8>) -> (out: Vec<u8>)
    ensures
        out@ == spec_parse_redirect(redirect_data@),
{
    let trimmed_nul = trim_nul_bytes(redirect_data.as_slice());
    let trimmed = trim_space_bytes(trimmed_nul.as_slice());
    strip_crlf_tab(trimmed.as_slice())
}

/// Transformer of the enrich stage: the target passes through whole.
pub fn enrich_todo_redirect_context(processed_data: Vec<u8>) -> (out: Vec<u8>)
    ensures
        out@ == spec_enrich_redirect(processed_data@),
{
    processed_data
}

/// Transformer of the finalize stage: slash normalization and the
/// default scheme.
pub fn prepare_todo_redirect_execution(enriched_data: Vec<u8>) -> (out: Vec<u8>)
    ensures
        out@ == spec_prepare_redirect(enriched_data@),
{
    proof {
        redirect_tags_ascii();
        reveal_strlit("\\");
    }
    let ghost e = enriched_data@;
    let back = lit_vec("\\");
    let fwd = lit_vec("/");
    let w = replace_bytes(enriched_data.as_slice(), back.as_slice(), fwd.as_slice());
    let low = to_lower_bytes(w.as_slice());
    let http = lit_vec("http://");
    let https = lit_vec("https://");
    if starts_with_bytes(low.as_slice(), http.as_slice()) || starts_with_bytes(
        low.as_slice(),
        https.as_slice(),
    ) {
        w
    } else {
        let mut out = lit_vec("http://");
        out.extend_from_slice(w.as_slice());
        proof {
            assert(out@ =~= spec_prepare_redirect(e));
        }
        out
    }
}

/// The URI type of the redirect sinks, opaque to verification.
#[verifier::external_type_specification]
#[verifier::external_body]
pub struct ExUri(warp::http::Uri);

/// Relies on `str::parse::<warp::http::Uri>`, the `http` crate's URI
/// grammar: acceptance is a function of the bytes alone.
#[verifier::external_body]
fn parse_redirect_uri(data: &[u8]) -> (r: Option<warp::http::Uri>)
    ensures
        r is Some <==> uri_parses(data@),
{
    String::from_utf8_lossy(data).to_string().parse::<warp::http::Uri>().ok()
}

/// Relies on `tower_http::services::redirect::Redirect::with_status_code`:
/// builds the redirect service value for a parsed target.  A parsed
/// target prints as visible ASCII, so the header conversion inside
/// cannot reject it.
#[verifier::external_body]
fn tower_redirect_sink(uri: warp::http::Uri) {
    let _redirect: tower_http::services::redirect::Redirect<hyper::Body> =
        tower_http::services::redirect::Redirect::with_status_code(
        warp::http::StatusCode::FOUND,
        uri,
    );
}

/// Relies on `warp::redirect`: builds the redirect reply value for a
/// parsed target.
#[verifier::external_body]
fn warp_redirect_sink(uri: warp::http::Uri) {
    let _reply = warp::redirect(uri);
}

/// First redirect sink: a redirect service value is built exactly when
/// the target parses; either way a status line is returned.
pub fn execute_first_redirect_operation(data: &[u8]) -> (r: (Vec<u8>, bool))
    ensures
        r.0@ == spec_first_redirect_status(data@.len()),
        r.1 == uri_parses(data@),
{
    proof {
        redirect_tags_ascii();
    }
    let performed = match parse_redirect_uri(data) {
        Some(uri) => {
            tower_redirect_sink(uri);
            true
        },
        None => false,
    };
    let mut st: Vec<u8> = Vec::new();
    push_lit(&mut st, "First todo redirect operation completed: ");
    let mut num = render_usize(data.len());
    st.append(&mut num);
    push_lit(&mut st, " bytes");
    proof {
        assert(st@ =~= spec_first_redirect_status(data@.len()));
    }
    (st, performed)
}

/// Second redirect sink: a redirect reply value is built exactly when
/// the target parses; either way a status line is returned.
pub fn execute_second_redirect_operation(data: &[u8]) -> (r: (Vec<u8>, bool))
    ensures
        r.0@ == spec_second_redirect_status(data@.len()),
        r.1 == uri_parses(data@),
{
    proof {
        redirect_tags_ascii();
    }
    let performed = match parse_redirect_uri(data) {
        Some(uri) => {
            warp_redirect_sink(uri);
            true
        },
        None => false,
    };
    let mut st: Vec<u8> = Vec::new();
    push_lit(&mut st, "Second todo redirect operation completed: ");
    let mut num = render_usize(data.len());
    st.append(&mut num);
    push_lit(&mut st, " bytes");
    proof {
        assert(st@ =~= spec_second_redirect_status(data@.len()));
    }
    (st, performed)
}

/// Redirect processing entry point.  The run never fails: a target the
/// URI grammar rejects is swallowed silently and only the status lines
/// are reported.
pub fn handle_redirect_operations(redirect_data: Vec<u8>) -> (r: Result<Vec<u8>, Vec<u8>>)
    ensures
        r is Ok,
        r->Ok_0@ == spec_handle_redirect(redirect_data@),
{
    proof {
        redirect_tags_ascii();
    }
    let ghost s = redirect_data@;
    let processed = parse_todo_redirect_request(redirect_data);
    let enriched = enrich_todo_redirect_context(processed);
    let final_data = prepare_todo_redirect_execution(enriched);
    let (first, _first_built) = execute_first_redirect_operation(final_data.as_slice());
    let (second, _second_built) = execute_second_redirect_operation(final_data.as_slice());
    let mut out: Vec<u8> = Vec::new();
    push_lit(&mut out, "Todo redirect operations completed: ");
    out.extend_from_slice(first.as_slice());
    push_lit(&mut out, ", ");
    out.extend_from_slice(second.as_slice());
    proof {
        assert(out@ =~= spec_handle_redirect(s));
    }
    Ok(out)
}

/// The summary embeds, in each sink status, the byte length of the
/// finalized redirect target.
pub proof fn lemma_redirect_status_reports_final_length(s: Seq<u8>)
    ensures
        spec_handle_redirect(s) == lit("Todo redirect operations completed: ") + (lit(
            "First todo redirect operation completed: ",
        ) + dec_digits(spec_redirect_final(s).len()) + lit(" bytes")) + lit(", ") + (lit(
            "Second todo redirect operation completed: ",
        ) + dec_digits(spec_redirect_final(s).len()) + lit(" bytes")),
{
}

/// A cleaned-up target without a scheme is handed to the URI parser
/// with `http://` prepended; one that already carries a scheme is
/// handed over as it stands.
pub proof fn lemma_redirect_scheme_default(s: Seq<u8>)
    ensures
        ({
            let w = replace_seq(spec_parse_redirect(s), lit("\\"), lit("/"));
            if starts_with_seq(lower_seq(w), lit("http://")) || starts_with_seq(
                lower_seq(w),
                lit("https://"),
            ) {
                spec_redirect_final(s) == w
            } else {
                spec_redirect_final(s) == lit("http://") + w
            }
        }),
{
}

/// Taint preservation: a payload that the cleanup pass leaves whole
/// (no edge NULs or whitespace, no carriage returns, line feeds, tabs
/// or backslashes) survives as a contiguous substring of the final
/// redirect target.
pub proof fn lemma_redirect_taint_preserved(s: Seq<u8>)
    requires
        forall|i: int|
            0 <= i < s.len() ==> #[trigger] s[i] != 13 && s[i] != 10 && s[i] != 9 && s[i] != 92,
        s.len() > 0 ==> !is_nul_byte(s[0]) && !is_space_byte(s[0]) && !is_nul_byte(
            s[s.len() - 1],
        ) && !is_space_byte(s[s.len() - 1]),
    ensures
        contains_seq(spec_redirect_final(s), s),
{
    redirect_tags_ascii();
    reveal_strlit("\\");
    let nul_pred: spec_fn(u8) -> bool = |b: u8| is_nul_byte(b);
    let ws_pred: spec_fn(u8) -> bool = |b: u8| is_space_byte(b);
    assert(trim_seq(s, nul_pred) == s);
    assert(trim_seq(s, ws_pred) == s);
    lemma_filter_all_kept(s, keeps_byte());
    assert(spec_parse_redirect(s) == s);
    let pat = lit("\\");
    assert(pat.len() == 1 && pat[0] == 92);
    assert forall|i: int| !match_at(s, pat, i) by {
        if match_at(s, pat, i) {
            assert(s.subrange(i, i + 1)[0] == s[i]);
        }
    }
    lemma_replace_absent_identity(s, pat, lit("/"));
    let f = spec_redirect_final(s);
    if starts_with_seq(lower_seq(s), lit("http://")) || starts_with_seq(
        lower_seq(s),
        lit("https://"),
    ) {
        assert(f == s);
        assert(f.take(s.len() as int) =~= s);
        lemma_prefix_contains(f, s);
    } else {
        assert(f == lit("http://") + s);
        assert(s.subrange(0, s.len() as int) =~= s);
        assert(match_at(s, s, 0));
        crate::text::lemma_contains_prepend(lit("http://"), s, s);
    }
}

} // verus!
