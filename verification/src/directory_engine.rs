//! Directory-synchronization pipeline: the identity payload is tagged
//! with a length marker, its distinguished-name attributes are set
//! aside, and the whole is shielded as checksummed hexadecimal text;
//! the enrich stage validates the checksum and decodes; the finalize
//! stage strips the marker and restores the attributes.  The decode is
//! proved to invert the encode, so the payload reaches the directory
//! sinks intact, distinguished-name attributes restored.  The
//! directory connections themselves are I/O and live with the caller.

use vstd::prelude::*;

use crate::numeral::{dec_digits, lemma_dec_digits_range, render_u64, render_usize};
use crate::text::{
    ascii_str, contains_seq, eq_bytes, lemma_match_at_shift, lemma_replace_clean_prefix, lit,
    lit_vec, match_at, match_at_exec, never_aligns, overlap_mismatch_at, push_lit,
    replace_bytes, replace_seq, starts_with_bytes, starts_with_seq,
};

verus! {

/// One byte as two lowercase hexadecimal digits, high digit first.
pub open spec fn hex_pair(b: u8) -> Seq<u8> {
    seq![crate::numeral::hex_digit((b / 16) as nat), crate::numeral::hex_digit((b % 16) as nat)]
}

/// The lowercase hexadecimal spelling of a byte sequence.
pub open spec fn hex_of(s: Seq<u8>) -> Seq<u8>
    decreases s.len(),
{
    if s.len() == 0 {
        Seq::<u8>::empty()
    } else {
        hex_of(s.drop_last()) + hex_pair(s.last())
    }
}

/// A lowercase hexadecimal digit byte.
pub open spec fn is_hex_digit(b: u8) -> bool {
    (48 <= b <= 57) || (97 <= b <= 102)
}

/// An even-length string of lowercase hexadecimal digits.
pub open spec fn valid_hex(s: Seq<u8>) -> bool {
    s.len() % 2 == 0 && forall|i: int| 0 <= i < s.len() ==> is_hex_digit(#[trigger] s[i])
}

/// The numeric value of one hexadecimal digit byte.
pub open spec fn hex_val(b: u8) -> nat {
    if 48 <= b <= 57 {
        (b - 48) as nat
    } else {
        (b - 87) as nat
    }
}

/// The bytes spelled by a hexadecimal string.
pub open spec fn hex_decode(s: Seq<u8>) -> Seq<u8>
    decreases s.len(),
{
    if s.len() < 2 {
        Seq::<u8>::empty()
    } else {
        hex_decode(s.take(s.len() - 2)) + seq![
            (16 * hex_val(s[s.len() - 2]) + hex_val(s[s.len() - 1])) as u8,
        ]
    }
}

/// The modular byte sum that the encode stage signs its output with.
pub open spec fn byte_sum(s: Seq<u8>) -> nat
    decreases s.len(),
{
    if s.len() == 0 {
        0
    } else {
        ((byte_sum(s.drop_last()) + s.last()) % 256) as nat
    }
}

/// The position of the last occurrence of a byte, or minus one.
pub open spec fn last_byte_index(s: Seq<u8>, b: u8) -> int
    decreases s.len(),
{
    if s.len() == 0 {
        -1
    } else if s.last() == b {
        s.len() - 1
    } else {
        last_byte_index(s.drop_last(), b)
    }
}

/// The position of the first occurrence of a pattern, or minus one.
pub open spec fn first_match_index(h: Seq<u8>, pat: Seq<u8>) -> int
    decreases h.len(),
{
    if pat.len() == 0 || h.len() < pat.len() {
        -1
    } else if match_at(h, pat, 0) {
        0
    } else {
        let r = first_match_index(h.drop_first(), pat);
        if r < 0 {
            -1
        } else {
            r + 1
        }
    }
}

/// The distinguished-name attributes set aside by the encode stage.
pub open spec fn dn_forward(x: Seq<u8>) -> Seq<u8> {
    replace_seq(
        replace_seq(replace_seq(x, lit("cn="), lit("CN_")), lit("dc="), lit("DC_")),
        lit("ou="),
        lit("OU_"),
    )
}

/// The inverse restoration applied by the finalize stage, undoing the
/// set-aside substitutions innermost-last.
pub open spec fn dn_restore(x: Seq<u8>) -> Seq<u8> {
    replace_seq(
        replace_seq(replace_seq(x, lit("OU_"), lit("ou=")), lit("DC_"), lit("dc=")),
        lit("CN_"),
        lit("cn="),
    )
}

/// The length marker prepended before encoding.
pub open spec fn len_marker(n: nat) -> Seq<u8> {
    lit("[LEN:") + dec_digits(n) + lit("]:")
}

/// Validate stage: marker, attribute set-aside, hexadecimal shield and
/// checksum.
pub open spec fn spec_validate_identity(s: Seq<u8>) -> Seq<u8> {
    let t = dn_forward(len_marker(s.len()) + s);
    hex_of(t) + lit("#S") + dec_digits(byte_sum(hex_of(t)))
}

/// Enhance stage: the checksum is validated and the hexadecimal text
/// decoded; anything malformed decodes to nothing.
pub open spec fn spec_enhance_identity(e: Seq<u8>) -> Seq<u8> {
    let i = last_byte_index(e, 35);
    if i < 0 {
        Seq::<u8>::empty()
    } else {
        let data = e.take(i);
        let chk = e.skip(i + 1);
        if valid_hex(data) && chk == lit("S") + dec_digits(byte_sum(data)) {
            hex_decode(data)
        } else {
            Seq::<u8>::empty()
        }
    }
}

/// The marker is stripped from a decoded payload.
pub open spec fn strip_marker(d: Seq<u8>) -> Seq<u8> {
    if starts_with_seq(d, lit("[LEN:")) && first_match_index(d, lit("]:")) >= 0 {
        d.skip(first_match_index(d, lit("]:")) + 2)
    } else {
        d
    }
}

/// Optimize stage: marker removal and attribute restoration.
pub open spec fn spec_optimize_identity(d: Seq<u8>) -> Seq<u8> {
    dn_restore(strip_marker(d))
}

/// The finalized directory payload.
pub open spec fn spec_directory_final(s: Seq<u8>) -> Seq<u8> {
    spec_optimize_identity(spec_enhance_identity(spec_validate_identity(s)))
}

/// Status line of the first directory sink.
pub open spec fn spec_first_directory_status(n: nat) -> Seq<u8> {
    lit("First identity operation completed: ") + dec_digits(n) + lit(" bytes")
}

/// Status line of the second directory sink.
pub open spec fn spec_second_directory_status(n: nat) -> Seq<u8> {
    lit("Second identity operation completed: ") + dec_digits(n) + lit(" bytes")
}

/// The summary a directory pipeline run returns.
pub open spec fn spec_handle_directory(s: Seq<u8>) -> Seq<u8> {
    lit("Identity operations completed: ") + spec_first_directory_status(
        spec_directory_final(s).len(),
    ) + lit(", ") + spec_second_directory_status(spec_directory_final(s).len())
}

proof fn directory_tags_ascii()
    ensures
        ascii_str("[LEN:"),
        ascii_str("]:"),
        ascii_str("#S"),
        ascii_str("S"),
        ascii_str("cn="),
        ascii_str("CN_"),
        ascii_str("dc="),
        ascii_str("DC_"),
        ascii_str("ou="),
        ascii_str("OU_"),
        ascii_str("First identity operation completed: "),
        ascii_str("Second identity operation completed: "),
        ascii_str(" bytes"),
        ascii_str("Identity operations completed: "),
        ascii_str(", "),
        lit("[LEN:").len() == 5,
        lit("]:").len() == 2,
        lit("#S").len() == 2,
        lit("S").len() == 1,
        lit("cn=").len() == 3,
        lit("CN_").len() == 3,
        lit("dc=").len() == 3,
        lit("DC_").len() == 3,
        lit("ou=").len() == 3,
        lit("OU_").len() == 3,
{
    reveal_strlit("[LEN:");
    reveal_strlit("]:");
    reveal_strlit("#S");
    reveal_strlit("S");
    reveal_strlit("cn=");
    reveal_strlit("CN_");
    reveal_strlit("dc=");
    reveal_strlit("DC_");
    reveal_strlit("ou=");
    reveal_strlit("OU_");
    reveal_strlit("First identity operation completed: ");
    reveal_strlit("Second identity operation completed: ");
    reveal_strlit(" bytes");
    reveal_strlit("Identity operations completed: ");
    reveal_strlit(", ");
}

/// Spell a byte buffer in lowercase hexadecimal.
#[verifier::loop_isolation(false)]
fn hex_encode_bytes(h: &[u8]) -> (out: Vec<u8>)
    ensures
        out@ == hex_of(h@),
{
    let hl = h.len();
    let mut out: Vec<u8> = Vec::new();
    let mut i: usize = 0;
    proof {
        assert(h@.take(0) =~= Seq::<u8>::empty());
    }
    while i < hl
        invariant
            0 <= i <= hl,
            out@ == hex_of(h@.take(i as int)),
        decreases hl - i,
    {
        let b = h[i];
        let hi = b / 16;
        let lo = b % 16;
        out.push(if hi < 10 {
            48 + hi
        } else {
            87 + hi
        });
        out.push(if lo < 10 {
            48 + lo
        } else {
            87 + lo
        });
        proof {
            assert(h@.take(i as int + 1).drop_last() =~= h@.take(i as int));
            assert(h@.take(i as int + 1).last() == h@[i as int]);
            assert(out@ =~= hex_of(h@.take(i as int)) + hex_pair(h@[i as int]));
        }
        i += 1;
    }
    proof {
        assert(h@.take(hl as int) =~= h@);
    }
    out
}

/// Decide whether a buffer is even-length lowercase hexadecimal.
#[verifier::loop_isolation(false)]
fn check_valid_hex(h: &[u8]) -> (r: bool)
    ensures
        r == valid_hex(h@),
{
    let hl = h.len();
    if hl % 2 != 0 {
        return false;
    }
    let mut i: usize = 0;
    while i < hl
        invariant
            0 <= i <= hl,
            forall|j: int| 0 <= j < i ==> is_hex_digit(#[trigger] h@[j]),
        decreases hl - i,
    {
        let b = h[i];
        if !((48 <= b && b <= 57) || (97 <= b && b <= 102)) {
            return false;
        }
        i += 1;
    }
    true
}

/// Decode an even-length hexadecimal buffer.
#[verifier::loop_isolation(false)]
fn hex_decode_bytes(h: &[u8]) -> (out: Vec<u8>)
    requires
        valid_hex(h@),
    ensures
        out@ == hex_decode(h@),
{
    let hl = h.len();
    let mut out: Vec<u8> = Vec::new();
    let mut i: usize = 0;
    proof {
        assert(h@.take(0) =~= Seq::<u8>::empty());
    }
    while i + 1 < hl
        invariant
            0 <= i <= hl,
            i % 2 == 0,
            out@ == hex_decode(h@.take(i as int)),
        decreases hl - i,
    {
        let b1 = h[i];
        let b2 = h[i + 1];
        let v1: u8 = if b1 >= 97 {
            b1 - 87
        } else {
            b1 - 48
        };
        let v2: u8 = if b2 >= 97 {
            b2 - 87
        } else {
            b2 - 48
        };
        proof {
            assert(is_hex_digit(h@[i as int]) && is_hex_digit(h@[i as int + 1]));
            assert(v1 as nat == hex_val(h@[i as int]));
            assert(v2 as nat == hex_val(h@[i as int + 1]));
        }
        out.push(16 * v1 + v2);
        proof {
            let t = h@.take(i as int + 2);
            assert(t.take(t.len() - 2) =~= h@.take(i as int));
            assert(t[t.len() - 2] == h@[i as int]);
            assert(t[t.len() - 1] == h@[i as int + 1]);
            assert(out@ =~= hex_decode(h@.take(i as int)) + seq![
                (16 * hex_val(h@[i as int]) + hex_val(h@[i as int + 1])) as u8,
            ]);
        }
        i += 2;
    }
    proof {
        assert(i == hl);
        assert(h@.take(hl as int) =~= h@);
    }
    out
}

/// The modular byte sum of a buffer.
#[verifier::loop_isolation(false)]
fn byte_sum_exec(h: &[u8]) -> (r: u64)
    ensures
        r as nat == byte_sum(h@),
        r < 256,
{
    let hl = h.len();
    let mut acc: u64 = 0;
    let mut i: usize = 0;
    proof {
        assert(h@.take(0) =~= Seq::<u8>::empty());
    }
    while i < hl
        invariant
            0 <= i <= hl,
            acc < 256,
            acc as nat == byte_sum(h@.take(i as int)),
        decreases hl - i,
    {
        proof {
            assert(h@.take(i as int + 1).drop_last() =~= h@.take(i as int));
            assert(h@.take(i as int + 1).last() == h@[i as int]);
        }
        acc = (acc + h[i] as u64) % 256;
        i += 1;
    }
    proof {
        assert(h@.take(hl as int) =~= h@);
    }
    acc
}

/// Find the last occurrence of a byte.
#[verifier::loop_isolation(false)]
fn find_last_byte(h: &[u8], b: u8) -> (r: Option<usize>)
    ensures
        r is Some ==> last_byte_index(h@, b) == r->0 as int && r->0 < h@.len(),
        r is None ==> last_byte_index(h@, b) == -1,
{
    let hl = h.len();
    let mut i: usize = hl;
    proof {
        assert(h@.take(hl as int) =~= h@);
    }
    while i > 0
        invariant
            0 <= i <= hl,
            last_byte_index(h@, b) == last_byte_index(h@.take(i as int), b),
        decreases i,
    {
        proof {
            assert(h@.take(i as int).last() == h@[i as int - 1]);
            assert(h@.take(i as int).drop_last() =~= h@.take(i as int - 1));
        }
        if h[i - 1] == b {
            return Some(i - 1);
        }
        i -= 1;
    }
    proof {
        assert(h@.take(0) =~= Seq::<u8>::empty());
    }
    None
}

/// Find the first occurrence of a pattern.
#[verifier::loop_isolation(false)]
fn find_first_match(h: &[u8], pat: &[u8]) -> (r: Option<usize>)
    requires
        pat@.len() >= 1,
    ensures
        r is Some ==> first_match_index(h@, pat@) == r->0 as int && r->0 + pat@.len()
            <= h@.len(),
        r is None ==> first_match_index(h@, pat@) == -1,
{
    let hl = h.len();
    let patl = pat.len();
    if patl > hl {
        proof {
            lemma_first_match_none(h@, pat@);
        }
        return None;
    }
    let last = hl - patl;
    let mut i: usize = 0;
    while i <= last
        invariant
            0 < pat@.len() <= h@.len(),
            last == h@.len() - pat@.len(),
            0 <= i <= last + 1,
            forall|k: int| 0 <= k < i ==> !match_at(h@, pat@, k),
        decreases last + 1 - i,
    {
        if match_at_exec(h, pat, i) {
            proof {
                lemma_first_match_found(h@, pat@, i as int);
            }
            return Some(i);
        }
        i += 1;
    }
    proof {
        lemma_first_match_none(h@, pat@);
    }
    None
}

/// A pattern that occurs nowhere has no first occurrence.
proof fn lemma_first_match_none(h: Seq<u8>, pat: Seq<u8>)
    requires
        forall|i: int| !match_at(h, pat, i),
        pat.len() >= 1,
    ensures
        first_match_index(h, pat) == -1,
    decreases h.len(),
{
    if h.len() >= pat.len() {
        assert forall|i: int| !match_at(h.drop_first(), pat, i) by {
            if 0 <= i {
                assert(h.drop_first() =~= h.skip(1));
                lemma_match_at_shift(h, pat, 1, i);
            }
        }
        lemma_first_match_none(h.drop_first(), pat);
    }
}

/// The earliest occurrence of a pattern is its first occurrence.
proof fn lemma_first_match_found(h: Seq<u8>, pat: Seq<u8>, k: int)
    requires
        pat.len() >= 1,
        match_at(h, pat, k),
        forall|i: int| 0 <= i < k ==> !match_at(h, pat, i),
    ensures
        first_match_index(h, pat) == k,
    decreases k,
{
    if k == 0 {
    } else {
        assert(!match_at(h, pat, 0));
        assert(h.drop_first() =~= h.skip(1));
        lemma_match_at_shift(h, pat, 1, k - 1);
        assert(match_at(h.drop_first(), pat, k - 1));
        assert forall|i: int| 0 <= i < k - 1 implies !match_at(h.drop_first(), pat, i) by {
            lemma_match_at_shift(h, pat, 1, i);
        }
        lemma_first_match_found(h.drop_first(), pat, k - 1);
    }
}

/// Validate incoming identity request and transform structure.
pub fn validate_identity_request(synchronization_data: Vec<u8>) -> (out: Vec<u8>)
    ensures
        out@ == spec_validate_identity(synchronization_data@),
{
    proof {
        directory_tags_ascii();
    }
    let ghost s = synchronization_data@;
    let n = synchronization_data.len();
    let mut marked = lit_vec("[LEN:");
    let mut num = render_usize(n);
    marked.append(&mut num);
    push_lit(&mut marked, "]:");
    marked.extend_from_slice(synchronization_data.as_slice());
    proof {
        assert(marked@ =~= len_marker(s.len()) + s);
    }
    let cn_pat = lit_vec("cn=");
    let cn_rep = lit_vec("CN_");
    let dc_pat = lit_vec("dc=");
    let dc_rep = lit_vec("DC_");
    let ou_pat = lit_vec("ou=");
    let ou_rep = lit_vec("OU_");
    let step1 = replace_bytes(marked.as_slice(), cn_pat.as_slice(), cn_rep.as_slice());
    let step2 = replace_bytes(step1.as_slice(), dc_pat.as_slice(), dc_rep.as_slice());
    let forwarded = replace_bytes(step2.as_slice(), ou_pat.as_slice(), ou_rep.as_slice());
    let mut out = hex_encode_bytes(forwarded.as_slice());
    let sum = byte_sum_exec(out.as_slice());
    push_lit(&mut out, "#S");
    let mut sum_digits = render_u64(sum);
    out.append(&mut sum_digits);
    proof {
        assert(out@ =~= spec_validate_identity(s));
    }
    out
}

/// Enhance identity context: checksum validation and decoding.
pub fn enhance_identity_context(processed_data: Vec<u8>) -> (out: Vec<u8>)
    ensures
        out@ == spec_enhance_identity(processed_data@),
{
    proof {
        directory_tags_ascii();
    }
    let ghost e = processed_data@;
    match find_last_byte(processed_data.as_slice(), 35) {
        None => Vec::new(),
        Some(i) => {
            let n = processed_data.len();
            let data: &[u8] = &processed_data.as_slice()[0..i];
            let chk: &[u8] = &processed_data.as_slice()[i + 1..n];
            proof {
                assert(data@ == e.take(i as int));
                assert(chk@ == e.skip(i as int + 1));
            }
            let sum = byte_sum_exec(data);
            let mut expected = lit_vec("S");
            let mut sum_digits = render_u64(sum);
            expected.append(&mut sum_digits);
            if check_valid_hex(data) && eq_bytes(chk, expected.as_slice()) {
                hex_decode_bytes(data)
            } else {
                Vec::new()
            }
        },
    }
}

/// Optimize identity flow: marker removal and attribute restoration.
pub fn optimize_identity_flow(enriched_data: Vec<u8>) -> (out: Vec<u8>)
    ensures
        out@ == spec_optimize_identity(enriched_data@),
{
    proof {
        directory_tags_ascii();
    }
    let ghost d = enriched_data@;
    let head = lit_vec("[LEN:");
    let sep = lit_vec("]:");
    let stripped: Vec<u8> = if starts_with_bytes(enriched_data.as_slice(), head.as_slice()) {
        match find_first_match(enriched_data.as_slice(), sep.as_slice()) {
            Some(k) => {
                let n = enriched_data.len();
                proof {
                    assert(sep@.len() == 2);
                    assert(k + 2 <= n);
                }
                let piece: &[u8] = &enriched_data.as_slice()[k + 2..n];
                proof {
                    assert(piece@ == d.skip(k as int + 2));
                }
                vstd::slice::slice_to_vec(piece)
            },
            None => enriched_data,
        }
    } else {
        enriched_data
    };
    proof {
        assert(stripped@ == strip_marker(d));
    }
    let ou_pat = lit_vec("OU_");
    let ou_rep = lit_vec("ou=");
    let dc_pat = lit_vec("DC_");
    let dc_rep = lit_vec("dc=");
    let cn_pat = lit_vec("CN_");
    let cn_rep = lit_vec("cn=");
    let step1 = replace_bytes(stripped.as_slice(), ou_pat.as_slice(), ou_rep.as_slice());
    let step2 = replace_bytes(step1.as_slice(), dc_pat.as_slice(), dc_rep.as_slice());
    let out = replace_bytes(step2.as_slice(), cn_pat.as_slice(), cn_rep.as_slice());
    proof {
        assert(out@ == spec_optimize_identity(d));
    }
    out
}

/// First directory sink's status line; the search against the
/// directory server is network I/O and lives with the caller.
pub fn execute_primary_identity_operation(data: &[u8]) -> (st: Vec<u8>)
    ensures
        st@ == spec_first_directory_status(data@.len()),
{
    proof {
        directory_tags_ascii();
    }
    let mut st: Vec<u8> = Vec::new();
    push_lit(&mut st, "First identity operation completed: ");
    let mut num = render_usize(data.len());
    st.append(&mut num);
    push_lit(&mut st, " bytes");
    proof {
        assert(st@ =~= spec_first_directory_status(data@.len()));
    }
    st
}

/// Second directory sink's status line; the delete against the
/// directory server is network I/O and lives with the caller.
pub fn execute_secondary_identity_operation(data: &[u8]) -> (st: Vec<u8>)
    ensures
        st@ == spec_second_directory_status(data@.len()),
{
    proof {
        directory_tags_ascii();
    }
    let mut st: Vec<u8> = Vec::new();
    push_lit(&mut st, "Second identity operation completed: ");
    let mut num = render_usize(data.len());
    st.append(&mut num);
    push_lit(&mut st, " bytes");
    proof {
        assert(st@ =~= spec_second_directory_status(data@.len()));
    }
    st
}

/// Directory-synchronization entry point; the summary always reports
/// both sink statuses.
pub fn handle_directory_synchronization_operations(synchronization_data: Vec<u8>) -> (r: Result<
    Vec<u8>,
    Vec<u8>,
>)
    ensures
        r is Ok,
        r->Ok_0@ == spec_handle_directory(synchronization_data@),
{
    proof {
        directory_tags_ascii();
    }
    let ghost s = synchronization_data@;
    let processed = validate_identity_request(synchronization_data);
    let enhanced = enhance_identity_context(processed);
    let final_dn = optimize_identity_flow(enhanced);
    let first = execute_primary_identity_operation(final_dn.as_slice());
    let second = execute_secondary_identity_operation(final_dn.as_slice());
    let mut out: Vec<u8> = Vec::new();
    push_lit(&mut out, "Identity operations completed: ");
    out.extend_from_slice(first.as_slice());
    push_lit(&mut out, ", ");
    out.extend_from_slice(second.as_slice());
    proof {
        assert(out@ =~= spec_handle_directory(s));
    }
    Ok(out)
}

/// Hexadecimal spelling is injective and self-describing: the
/// spelling is twice as long, is valid hexadecimal text, and decodes
/// back to the original bytes.
pub proof fn lemma_hex_props(x: Seq<u8>)
    ensures
        hex_of(x).len() == 2 * x.len(),
        valid_hex(hex_of(x)),
        hex_decode(hex_of(x)) == x,
    decreases x.len(),
{
    if x.len() == 0 {
        assert(hex_decode(hex_of(x)) =~= x);
    } else {
        lemma_hex_props(x.drop_last());
        let hx = hex_of(x);
        let prev = hex_of(x.drop_last());
        let b = x.last();
        assert(crate::numeral::hex_digit((b / 16) as nat) == hx[hx.len() - 2]);
        assert(crate::numeral::hex_digit((b % 16) as nat) == hx[hx.len() - 1]);
        assert forall|i: int| 0 <= i < hx.len() implies is_hex_digit(#[trigger] hx[i]) by {
            if i < prev.len() {
                assert(hx[i] == prev[i]);
            }
        }
        assert(hx.take(hx.len() - 2) =~= prev);
        assert(hex_val(crate::numeral::hex_digit((b / 16) as nat)) == (b / 16) as nat);
        assert(hex_val(crate::numeral::hex_digit((b % 16) as nat)) == (b % 16) as nat);
        assert(16 * ((b / 16) as nat) + ((b % 16) as nat) == b as nat);
        assert(hex_decode(hx) =~= x.drop_last().push(b));
        assert(x.drop_last().push(b) =~= x);
    }
}

/// The last occurrence of a byte that appears once, between two
/// stretches free of it, is exactly there.
proof fn lemma_last_byte_concat(a: Seq<u8>, b: Seq<u8>, x: u8)
    requires
        forall|i: int| 0 <= i < a.len() ==> #[trigger] a[i] != x,
        forall|i: int| 0 <= i < b.len() ==> #[trigger] b[i] != x,
    ensures
        last_byte_index(a + seq![x] + b, x) == a.len(),
    decreases b.len(),
{
    let s = a + seq![x] + b;
    if b.len() == 0 {
        assert(s.last() == x);
    } else {
        assert(s.last() == b.last());
        assert(s.drop_last() =~= a + seq![x] + b.drop_last());
        lemma_last_byte_concat(a, b.drop_last(), x);
    }
}

/// The codec law: whatever bytes are shielded as checksummed
/// hexadecimal text by the validate stage's encoding come back intact
/// from the enhance stage's decoding.
pub proof fn lemma_identity_codec_round_trip(x: Seq<u8>)
    ensures
        spec_enhance_identity(hex_of(x) + lit("#S") + dec_digits(byte_sum(hex_of(x)))) == x,
{
    directory_tags_ascii();
    reveal_strlit("#S");
    reveal_strlit("S");
    assert(lit("#S")[0] == 35 && lit("#S")[1] == 83);
    assert(lit("S")[0] == 83);
    let hx = hex_of(x);
    lemma_hex_props(x);
    let digits = dec_digits(byte_sum(hx));
    lemma_dec_digits_range(byte_sum(hx));
    let e = hx + lit("#S") + digits;
    let tail = seq![83u8] + digits;
    assert(e =~= hx + seq![35u8] + tail);
    assert forall|i: int| 0 <= i < hx.len() implies #[trigger] hx[i] != 35 by {
        assert(is_hex_digit(hx[i]));
    }
    assert forall|i: int| 0 <= i < tail.len() implies #[trigger] tail[i] != 35 by {
        if i > 0 {
            assert(tail[i] == digits[i - 1]);
            assert(48 <= digits[i - 1] <= 57);
        }
    }
    lemma_last_byte_concat(hx, tail, 35);
    assert(e == hx + seq![35u8] + tail);
    let at = last_byte_index(e, 35);
    assert(at == hx.len());
    assert(e.take(at) =~= hx);
    assert(e.skip(at + 1) =~= tail);
    assert(lit("S") + digits =~= tail);
}

proof fn lemma_marker_shape(n: nat)
    ensures
        len_marker(n).len() == 7 + dec_digits(n).len(),
        len_marker(n)[len_marker(n).len() - 2] == 93,
        len_marker(n)[len_marker(n).len() - 1] == 58,
        forall|i: int| 0 <= i < len_marker(n).len() - 2 ==> #[trigger] len_marker(n)[i] != 93,
        forall|i: int|
            0 <= i < len_marker(n).len() ==> #[trigger] len_marker(n)[i] != 99 && len_marker(
                n,
            )[i] != 100 && len_marker(n)[i] != 111,
        len_marker(n)[0] == 91,
{
    reveal_strlit("[LEN:");
    reveal_strlit("]:");
    let m = len_marker(n);
    let head = lit("[LEN:");
    let digits = dec_digits(n);
    lemma_dec_digits_range(n);
    assert(head.len() == 5);
    assert(head[0] == 91 && head[1] == 76 && head[2] == 69 && head[3] == 78 && head[4] == 58);
    assert(lit("]:")[0] == 93 && lit("]:")[1] == 58);
    assert(m[m.len() - 2] == lit("]:")[0]);
    assert(m[m.len() - 1] == lit("]:")[1]);
    assert forall|i: int| 0 <= i < m.len() - 2 implies #[trigger] m[i] != 93 by {
        if i < 5 {
            assert(m[i] == head[i]);
        } else {
            assert(m[i] == digits[i - 5]);
            assert(48 <= digits[i - 5] <= 57);
        }
    }
    assert forall|i: int|
        0 <= i < m.len() implies #[trigger] m[i] != 99 && m[i] != 100 && m[i] != 111 by {
        if i < 5 {
            assert(m[i] == head[i]);
        } else if i < 5 + digits.len() {
            assert(m[i] == digits[i - 5]);
            assert(48 <= digits[i - 5] <= 57);
        } else {
            assert(m[i] == lit("]:")[i - 5 - digits.len()]);
        }
    }
}

proof fn dn_alignment_facts()
    ensures
        never_aligns(lit("DC_"), lit("CN_")),
        never_aligns(lit("OU_"), lit("CN_")),
        never_aligns(lit("OU_"), lit("DC_")),
        forall|a: int|
            1 - lit("CN_").len() <= a <= -1 ==> #[trigger] overlap_mismatch_at(
                lit("CN_"),
                lit("CN_"),
                a,
            ),
        forall|a: int|
            1 - lit("DC_").len() <= a <= -1 ==> #[trigger] overlap_mismatch_at(
                lit("DC_"),
                lit("DC_"),
                a,
            ),
        forall|a: int|
            1 - lit("OU_").len() <= a <= -1 ==> #[trigger] overlap_mismatch_at(
                lit("OU_"),
                lit("OU_"),
                a,
            ),
{
    reveal_strlit("CN_");
    reveal_strlit("DC_");
    reveal_strlit("OU_");
    assert forall|a: int|
        1 - lit("DC_").len() <= a <= lit("CN_").len() - 1 implies #[trigger] overlap_mismatch_at(
        lit("DC_"),
        lit("CN_"),
        a,
    ) by {
        if a < 0 {
            assert(lit("DC_")[2] != lit("CN_")[a + 2]);
        } else {
            assert(lit("DC_")[0] != lit("CN_")[a + 0]);
        }
    }
    assert forall|a: int|
        1 - lit("OU_").len() <= a <= lit("CN_").len() - 1 implies #[trigger] overlap_mismatch_at(
        lit("OU_"),
        lit("CN_"),
        a,
    ) by {
        if a < 0 {
            assert(lit("OU_")[2] != lit("CN_")[a + 2]);
        } else {
            assert(lit("OU_")[0] != lit("CN_")[a + 0]);
        }
    }
    assert forall|a: int|
        1 - lit("OU_").len() <= a <= lit("DC_").len() - 1 implies #[trigger] overlap_mismatch_at(
        lit("OU_"),
        lit("DC_"),
        a,
    ) by {
        if a < 0 {
            assert(lit("OU_")[2] != lit("DC_")[a + 2]);
        } else {
            assert(lit("OU_")[0] != lit("DC_")[a + 0]);
        }
    }
    assert forall|a: int|
        1 - lit("CN_").len() <= a <= -1 implies #[trigger] overlap_mismatch_at(
        lit("CN_"),
        lit("CN_"),
        a,
    ) by {
        assert(lit("CN_")[2] != lit("CN_")[a + 2]);
    }
    assert forall|a: int|
        1 - lit("DC_").len() <= a <= -1 implies #[trigger] overlap_mismatch_at(
        lit("DC_"),
        lit("DC_"),
        a,
    ) by {
        assert(lit("DC_")[2] != lit("DC_")[a + 2]);
    }
    assert forall|a: int|
        1 - lit("OU_").len() <= a <= -1 implies #[trigger] overlap_mismatch_at(
        lit("OU_"),
        lit("OU_"),
        a,
    ) by {
        assert(lit("OU_")[2] != lit("OU_")[a + 2]);
    }
}

/// Taint preservation, here in its strongest form: a payload holding
/// none of the three set-aside spellings comes out of the whole
/// pipeline unchanged, and so survives as a contiguous substring of
/// the final output.  Distinguished-name attributes themselves
/// (`cn=`, `dc=`, `ou=`) are set aside on the way in and restored on
/// the way out.
pub proof fn lemma_directory_taint_preserved(s: Seq<u8>)
    requires
        !contains_seq(s, lit("CN_")),
        !contains_seq(s, lit("DC_")),
        !contains_seq(s, lit("OU_")),
    ensures
        spec_directory_final(s) == s,
        contains_seq(spec_directory_final(s), s),
{
    directory_tags_ascii();
    dn_alignment_facts();
    reveal_strlit("cn=");
    reveal_strlit("dc=");
    reveal_strlit("ou=");
    reveal_strlit("CN_");
    reveal_strlit("DC_");
    reveal_strlit("OU_");
    reveal_strlit("[LEN:");
    reveal_strlit("]:");
    let marker = len_marker(s.len());
    let mk = marker.len() as int;
    let m = marker + s;
    lemma_marker_shape(s.len());
    assert(lit("cn=")[0] == 99 && lit("dc=")[0] == 100 && lit("ou=")[0] == 111);
    // the substitutions act below the marker, which holds none of the
    // attribute spellings' first bytes
    let s1 = replace_seq(s, lit("cn="), lit("CN_"));
    let s2 = replace_seq(s1, lit("dc="), lit("DC_"));
    let s3 = replace_seq(s2, lit("ou="), lit("OU_"));
    assert forall|i: int| 0 <= i < mk implies !match_at(m, lit("cn="), i) by {
        if match_at(m, lit("cn="), i) {
            assert(m.subrange(i, i + 3)[0] == m[i]);
            assert(m[i] == marker[i]);
        }
    }
    lemma_replace_clean_prefix(m, mk, lit("cn="), lit("CN_"));
    assert(m.take(mk) =~= marker);
    assert(m.skip(mk) =~= s);
    let m1 = replace_seq(m, lit("cn="), lit("CN_"));
    assert(m1 == marker + s1);
    assert forall|i: int| 0 <= i < mk implies !match_at(m1, lit("dc="), i) by {
        if match_at(m1, lit("dc="), i) {
            assert(m1.subrange(i, i + 3)[0] == m1[i]);
            assert(m1[i] == marker[i]);
        }
    }
    lemma_replace_clean_prefix(m1, mk, lit("dc="), lit("DC_"));
    assert(m1.take(mk) =~= marker);
    assert(m1.skip(mk) =~= s1);
    let m2 = replace_seq(m1, lit("dc="), lit("DC_"));
    assert(m2 == marker + s2);
    assert forall|i: int| 0 <= i < mk implies !match_at(m2, lit("ou="), i) by {
        if match_at(m2, lit("ou="), i) {
            assert(m2.subrange(i, i + 3)[0] == m2[i]);
            assert(m2[i] == marker[i]);
        }
    }
    lemma_replace_clean_prefix(m2, mk, lit("ou="), lit("OU_"));
    assert(m2.take(mk) =~= marker);
    assert(m2.skip(mk) =~= s2);
    let m3 = replace_seq(m2, lit("ou="), lit("OU_"));
    assert(m3 == marker + s3);
    assert(dn_forward(m) == m3);
    lemma_identity_codec_round_trip(m3);
    assert(spec_enhance_identity(spec_validate_identity(s)) == m3);
    // the marker is stripped back off
    let sep = lit("]:");
    let at = mk - 2;
    assert(m3.take(5) =~= lit("[LEN:"));
    assert(starts_with_seq(m3, lit("[LEN:")));
    assert(m3.subrange(at, at + 2) =~= sep);
    assert(match_at(m3, sep, at));
    assert forall|i: int| 0 <= i < at implies !match_at(m3, sep, i) by {
        if match_at(m3, sep, i) {
            assert(m3.subrange(i, i + 2)[0] == m3[i]);
            assert(m3[i] == marker[i]);
        }
    }
    lemma_first_match_found(m3, sep, at);
    assert(strip_marker(m3) =~= s3);
    assert(strip_marker(m3) == s3);
    // the set-aside spellings in the decoded payload are exactly the
    // substituted ones, so the reversed substitutions restore the
    // payload
    crate::text::lemma_replace_creates_no_occurrence(s, lit("cn="), lit("CN_"), lit("DC_"));
    crate::text::lemma_replace_creates_no_occurrence(s, lit("cn="), lit("CN_"), lit("OU_"));
    crate::text::lemma_replace_creates_no_occurrence(s1, lit("dc="), lit("DC_"), lit("OU_"));
    crate::text::lemma_replace_inverse(s2, lit("ou="), lit("OU_"));
    assert(replace_seq(s3, lit("OU_"), lit("ou=")) == s2);
    crate::text::lemma_replace_inverse(s1, lit("dc="), lit("DC_"));
    assert(replace_seq(s2, lit("DC_"), lit("dc=")) == s1);
    crate::text::lemma_replace_inverse(s, lit("cn="), lit("CN_"));
    assert(replace_seq(s1, lit("CN_"), lit("cn=")) == s);
    assert(dn_restore(s3) == s);
    assert(s.subrange(0, s.len() as int) =~= s);
    assert(match_at(s, s, 0));
}

/// The summary embeds, in each sink status, the byte length of the
/// finalized pipeline output.
pub proof fn lemma_directory_status_reports_final_length(s: Seq<u8>)
    ensures
        spec_handle_directory(s) == lit("Identity operations completed: ") + (lit(
            "First identity operation completed: ",
        ) + dec_digits(spec_directory_final(s).len()) + lit(" bytes")) + lit(", ") + (lit(
            "Second identity operation completed: ",
        ) + dec_digits(spec_directory_final(s).len()) + lit(" bytes")),
{
}

} // verus!
