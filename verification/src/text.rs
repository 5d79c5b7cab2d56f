//! Byte-sequence vocabulary shared by all pipelines: substring search,
//! pattern replacement, and conversion of ASCII string literals to bytes.

use vstd::prelude::*;

verus! {

/// The pattern `pat` occurs in `h` starting at position `i`.
pub open spec fn match_at(h: Seq<u8>, pat: Seq<u8>, i: int) -> bool {
    0 <= i && i + pat.len() <= h.len() && h.subrange(i, i + pat.len() as int) == pat
}

/// `pat` occurs somewhere in `h` as a contiguous subsequence.
pub open spec fn contains_seq(h: Seq<u8>, pat: Seq<u8>) -> bool {
    exists|i: int| match_at(h, pat, i)
}

/// The bytes of an ASCII string literal, one byte per character.
pub open spec fn lit(s: &str) -> Seq<u8> {
    s@.map_values(|c: char| c as u8)
}

/// Every character of the string is ASCII.
pub open spec fn ascii_str(s: &str) -> bool {
    vstd::utf8::is_ascii_chars(s@)
}

/// An ASCII string literal as a byte vector.
pub fn lit_vec(s: &str) -> (v: Vec<u8>)
    requires
        ascii_str(s),
    ensures
        v@ == lit(s),
{
    let b: &[u8] = s.as_bytes();
    proof {
        vstd::utf8::is_ascii_chars_encode_utf8(s@);
        assert(b@ =~= lit(s));
    }
    vstd::slice::slice_to_vec(b)
}

/// Decide whether `pat` occurs in `h` at position `i`.
pub fn match_at_exec(h: &[u8], pat: &[u8], i: usize) -> (r: bool)
    requires
        i + pat@.len() <= h@.len(),
    ensures
        r == match_at(h@, pat@, i as int),
{
    let hl = h.len();
    let patl = pat.len();
    let mut j: usize = 0;
    while j < patl
        invariant
            hl == h@.len(),
            patl == pat@.len(),
            i + pat@.len() <= h@.len(),
            0 <= j <= pat@.len(),
            forall|k: int| 0 <= k < j ==> h@[i + k] == pat@[k],
        decreases pat@.len() - j,
    {
        if h[i + j] != pat[j] {
            proof {
                if match_at(h@, pat@, i as int) {
                    assert(h@.subrange(i as int, i + pat@.len())[j as int] == h@[i + j]);
                }
            }
            return false;
        }
        j += 1;
    }
    proof {
        assert(h@.subrange(i as int, i + pat@.len()) =~= pat@);
    }
    true
}

/// Decide whether `pat` occurs anywhere in `h`.
pub fn contains_bytes(h: &[u8], pat: &[u8]) -> (r: bool)
    ensures
        r == contains_seq(h@, pat@),
{
    if pat.len() == 0 {
        proof {
            assert(h@.subrange(0, 0) =~= pat@);
            assert(match_at(h@, pat@, 0));
        }
        return true;
    }
    if pat.len() > h.len() {
        return false;
    }
    let hl = h.len();
    let last = hl - pat.len();
    let mut i: usize = 0;
    while i <= last
        invariant
            hl == h@.len(),
            0 < pat@.len() <= h@.len(),
            last == h@.len() - pat@.len(),
            0 <= i <= last + 1,
            forall|k: int| 0 <= k < i ==> !match_at(h@, pat@, k),
        decreases last + 1 - i,
    {
        if match_at_exec(h, pat, i) {
            return true;
        }
        i += 1;
    }
    false
}

/// Append an ASCII string literal to a byte buffer.
pub fn push_lit(out: &mut Vec<u8>, s: &str)
    requires
        ascii_str(s),
    ensures
        final(out)@ == old(out)@ + lit(s),
{
    let b: &[u8] = s.as_bytes();
    proof {
        vstd::utf8::is_ascii_chars_encode_utf8(s@);
        assert(b@ =~= lit(s));
    }
    out.extend_from_slice(b);
}

/// Decide whether the bytes of an ASCII literal occur in `h`.
pub fn contains_lit(h: &[u8], s: &str) -> (r: bool)
    requires
        ascii_str(s),
    ensures
        r == contains_seq(h@, lit(s)),
{
    let b: &[u8] = s.as_bytes();
    proof {
        vstd::utf8::is_ascii_chars_encode_utf8(s@);
        assert(b@ =~= lit(s));
    }
    contains_bytes(h, b)
}

/// Decide whether two byte buffers hold the same bytes.
pub fn eq_bytes(a: &[u8], b: &[u8]) -> (r: bool)
    ensures
        r == (a@ == b@),
{
    let al = a.len();
    if al != b.len() {
        return false;
    }
    let mut i: usize = 0;
    while i < al
        invariant
            al == a@.len() == b@.len(),
            0 <= i <= al,
            forall|j: int| 0 <= j < i ==> a@[j] == b@[j],
        decreases al - i,
    {
        if a[i] != b[i] {
            return false;
        }
        i += 1;
    }
    proof {
        assert(a@ =~= b@);
    }
    true
}

/// The pieces of `h` between occurrences of the separator byte, as
/// `str::split` yields them: always at least one piece, empty pieces
/// where separators touch.
pub open spec fn split_seq(h: Seq<u8>, sep: u8) -> Seq<Seq<u8>>
    decreases h.len(),
{
    if h.len() == 0 {
        seq![Seq::<u8>::empty()]
    } else if h[0] == sep {
        seq![Seq::<u8>::empty()] + split_seq(h.drop_first(), sep)
    } else {
        let rest = split_seq(h.drop_first(), sep);
        seq![seq![h[0]] + rest[0]] + rest.drop_first()
    }
}

/// Splitting yields at least one piece.
pub proof fn lemma_split_len(h: Seq<u8>, sep: u8)
    ensures
        split_seq(h, sep).len() >= 1,
    decreases h.len(),
{
    if h.len() > 0 {
        lemma_split_len(h.drop_first(), sep);
    }
}

/// Split a byte buffer at every occurrence of the separator.
#[verifier::loop_isolation(false)]
pub fn split_bytes(h: &[u8], sep: u8) -> (out: Vec<Vec<u8>>)
    ensures
        out@.map_values(|v: Vec<u8>| v@) == split_seq(h@, sep),
{
    let hl = h.len();
    let mut done: Vec<Vec<u8>> = Vec::new();
    let mut cur: Vec<u8> = Vec::new();
    let mut i: usize = 0;
    proof {
        lemma_split_len(h@, sep);
        assert(h@.skip(0) =~= h@);
        assert(done@.map_values(|v: Vec<u8>| v@) + seq![
            cur@ + split_seq(h@, sep)[0],
        ] + split_seq(h@, sep).drop_first() =~= seq![split_seq(h@, sep)[0]] + split_seq(
            h@,
            sep,
        ).drop_first());
        assert(seq![split_seq(h@, sep)[0]] + split_seq(h@, sep).drop_first() =~= split_seq(
            h@,
            sep,
        ));
    }
    while i < hl
        invariant
            0 <= i <= hl,
            split_seq(h@, sep) == done@.map_values(|v: Vec<u8>| v@) + seq![
                cur@ + split_seq(h@.skip(i as int), sep)[0],
            ] + split_seq(h@.skip(i as int), sep).drop_first(),
        decreases hl - i,
    {
        let ghost rest = h@.skip(i as int);
        let ghost rest1 = h@.skip(i as int + 1);
        proof {
            lemma_split_len(rest1, sep);
            assert(rest[0] == h@[i as int]);
            assert(rest.drop_first() =~= rest1);
        }
        let b = h[i];
        if b == sep {
            done.push(cur);
            cur = Vec::new();
            proof {
                assert(split_seq(rest, sep) == seq![Seq::<u8>::empty()] + split_seq(
                    rest1,
                    sep,
                ));
                assert(done@.map_values(|v: Vec<u8>| v@) + seq![
                    cur@ + split_seq(rest1, sep)[0],
                ] + split_seq(rest1, sep).drop_first() =~= split_seq(h@, sep));
            }
        } else {
            let ghost prev = cur@;
            cur.push(b);
            proof {
                let r1 = split_seq(rest1, sep);
                assert(split_seq(rest, sep) == seq![seq![h@[i as int]] + r1[0]]
                    + r1.drop_first());
                assert(split_seq(rest, sep)[0] == seq![h@[i as int]] + r1[0]);
                assert(split_seq(rest, sep).drop_first() =~= r1.drop_first());
                assert(cur@ + r1[0] =~= prev + split_seq(rest, sep)[0]);
                assert(done@.map_values(|v: Vec<u8>| v@) + seq![cur@ + r1[0]]
                    + r1.drop_first() =~= done@.map_values(|v: Vec<u8>| v@) + seq![
                    prev + split_seq(rest, sep)[0],
                ] + split_seq(rest, sep).drop_first());
            }
        }
        i += 1;
    }
    proof {
        let rest = h@.skip(hl as int);
        assert(rest =~= Seq::<u8>::empty());
        assert(split_seq(rest, sep) == seq![Seq::<u8>::empty()]);
        assert(cur@ + split_seq(rest, sep)[0] =~= cur@);
        assert(split_seq(rest, sep).drop_first() =~= Seq::<Seq<u8>>::empty());
    }
    done.push(cur);
    proof {
        assert(done@.map_values(|v: Vec<u8>| v@) =~= split_seq(h@, sep));
    }
    done
}

/// How often the byte occurs in the sequence.
pub open spec fn count_byte(s: Seq<u8>, b: u8) -> nat
    decreases s.len(),
{
    if s.len() == 0 {
        0
    } else {
        count_byte(s.drop_last(), b) + if s.last() == b {
            1nat
        } else {
            0nat
        }
    }
}

/// Count the occurrences of one byte.
#[verifier::loop_isolation(false)]
pub fn count_byte_exec(h: &[u8], b: u8) -> (n: usize)
    ensures
        n as nat == count_byte(h@, b),
{
    let hl = h.len();
    let mut n: usize = 0;
    let mut i: usize = 0;
    proof {
        assert(h@.take(0) =~= Seq::<u8>::empty());
    }
    while i < hl
        invariant
            0 <= i <= hl,
            n <= i,
            n as nat == count_byte(h@.take(i as int), b),
        decreases hl - i,
    {
        proof {
            assert(h@.take(i as int + 1).drop_last() =~= h@.take(i as int));
            assert(h@.take(i as int + 1).last() == h@[i as int]);
        }
        if h[i] == b {
            n += 1;
        }
        i += 1;
    }
    proof {
        assert(h@.take(hl as int) =~= h@);
    }
    n
}

/// The parts joined by the separator, in order.
pub open spec fn join_with(parts: Seq<Seq<u8>>, sep: Seq<u8>) -> Seq<u8>
    decreases parts.len(),
{
    if parts.len() == 0 {
        Seq::<u8>::empty()
    } else if parts.len() == 1 {
        parts[0]
    } else {
        join_with(parts.drop_last(), sep) + sep + parts.last()
    }
}

/// Join byte pieces with a separator.
#[verifier::loop_isolation(false)]
pub fn join_bytes(parts: &Vec<Vec<u8>>, sep: &[u8]) -> (out: Vec<u8>)
    ensures
        out@ == join_with(parts@.map_values(|v: Vec<u8>| v@), sep@),
{
    let n = parts.len();
    let ghost views = parts@.map_values(|v: Vec<u8>| v@);
    let mut out: Vec<u8> = Vec::new();
    let mut i: usize = 0;
    while i < n
        invariant
            0 <= i <= n,
            out@ == join_with(views.take(i as int), sep@),
        decreases n - i,
    {
        proof {
            assert(views.take(i as int + 1).drop_last() =~= views.take(i as int));
            assert(views.take(i as int + 1).last() == views[i as int]);
        }
        if i > 0 {
            out.extend_from_slice(sep);
        }
        out.extend_from_slice(parts[i].as_slice());
        proof {
            if i == 0 {
                assert(views.take(1).len() == 1);
                assert(out@ =~= join_with(views.take(1), sep@));
            } else {
                assert(out@ =~= join_with(views.take(i as int + 1), sep@));
            }
        }
        i += 1;
    }
    proof {
        assert(views.take(n as int) =~= views);
    }
    out
}

/// The keys among `pairs` that carry exactly one `=`-separated value,
/// in order of first appearance.
pub open spec fn raw_keys(pairs: Seq<Seq<u8>>) -> Seq<Seq<u8>>
    decreases pairs.len(),
{
    if pairs.len() == 0 {
        Seq::<Seq<u8>>::empty()
    } else {
        raw_keys(pairs.drop_last()) + if split_seq(pairs.last(), 61).len() == 2 {
            seq![split_seq(pairs.last(), 61)[0]]
        } else {
            Seq::<Seq<u8>>::empty()
        }
    }
}

/// The sequence with later repetitions of a value removed.
pub open spec fn dedup_seq(ks: Seq<Seq<u8>>) -> Seq<Seq<u8>>
    decreases ks.len(),
{
    if ks.len() == 0 {
        Seq::<Seq<u8>>::empty()
    } else {
        let rest = dedup_seq(ks.drop_last());
        if rest.contains(ks.last()) {
            rest
        } else {
            rest.push(ks.last())
        }
    }
}

/// The distinct parameter keys of a `&`-separated, `=`-keyed parameter
/// string, as a key-value table would hold them.
pub open spec fn param_keys(p: Seq<u8>) -> Seq<Seq<u8>> {
    dedup_seq(raw_keys(split_seq(p, 38)))
}

/// The parameter string carries the key.
pub open spec fn has_param(p: Seq<u8>, key: Seq<u8>) -> bool {
    param_keys(p).contains(key)
}

/// Decide whether one of the collected pieces equals `k`.
fn vec_contains_bytes(keys: &Vec<Vec<u8>>, k: &[u8]) -> (r: bool)
    ensures
        r == keys@.map_values(|v: Vec<u8>| v@).contains(k@),
{
    let n = keys.len();
    let ghost views = keys@.map_values(|v: Vec<u8>| v@);
    let mut i: usize = 0;
    while i < n
        invariant
            n == keys@.len(),
            views == keys@.map_values(|v: Vec<u8>| v@),
            0 <= i <= n,
            forall|j: int| 0 <= j < i ==> views[j] != k@,
        decreases n - i,
    {
        if eq_bytes(keys[i].as_slice(), k) {
            proof {
                assert(views[i as int] == k@);
            }
            return true;
        }
        i += 1;
    }
    false
}

/// Collect the distinct parameter keys of a parameter string.
#[verifier::loop_isolation(false)]
pub fn param_keys_exec(p: &[u8]) -> (keys: Vec<Vec<u8>>)
    ensures
        keys@.map_values(|v: Vec<u8>| v@) == param_keys(p@),
{
    let pairs = split_bytes(p, 38);
    let ghost pair_views = pairs@.map_values(|v: Vec<u8>| v@);
    let n = pairs.len();
    let mut keys: Vec<Vec<u8>> = Vec::new();
    let mut i: usize = 0;
    while i < n
        invariant
            0 <= i <= n,
            keys@.map_values(|v: Vec<u8>| v@) == dedup_seq(raw_keys(pair_views.take(i as int))),
        decreases n - i,
    {
        proof {
            assert(pair_views.take(i as int + 1).drop_last() =~= pair_views.take(i as int));
            assert(pair_views.take(i as int + 1).last() == pair_views[i as int]);
            assert(pair_views[i as int] == pairs@[i as int]@);
        }
        let kv = split_bytes(pairs[i].as_slice(), 61);
        if kv.len() == 2 {
            let ghost old_keys = keys@.map_values(|v: Vec<u8>| v@);
            let key_slice: &[u8] = kv[0].as_slice();
            proof {
                assert(kv@.map_values(|v: Vec<u8>| v@)[0] == key_slice@);
                assert(split_seq(pair_views[i as int], 61)[0] == key_slice@);
            }
            if !vec_contains_bytes(&keys, key_slice) {
                let key_copy = vstd::slice::slice_to_vec(key_slice);
                keys.push(key_copy);
                proof {
                    assert(keys@.map_values(|v: Vec<u8>| v@) =~= old_keys.push(key_slice@));
                }
            }
            proof {
                let rk0 = raw_keys(pair_views.take(i as int));
                let rk1 = raw_keys(pair_views.take(i as int + 1));
                assert(rk1 =~= rk0.push(key_slice@));
                assert(rk1.drop_last() =~= rk0);
                assert(rk1.last() == key_slice@);
                assert(dedup_seq(rk1) == if dedup_seq(rk0).contains(key_slice@) {
                    dedup_seq(rk0)
                } else {
                    dedup_seq(rk0).push(key_slice@)
                });
                assert(dedup_seq(rk1) =~= keys@.map_values(|v: Vec<u8>| v@));
            }
        } else {
            proof {
                assert(raw_keys(pair_views.take(i as int + 1)) =~= raw_keys(
                    pair_views.take(i as int),
                ));
            }
        }
        i += 1;
    }
    proof {
        assert(pair_views.take(n as int) =~= pair_views);
        assert(param_keys(p@) == dedup_seq(raw_keys(pair_views)));
    }
    keys
}

/// Decide whether the parameter string carries an ASCII key.
pub fn has_param_exec(p: &[u8], key: &str) -> (r: bool)
    requires
        ascii_str(key),
    ensures
        r == has_param(p@, lit(key)),
{
    let b: &[u8] = key.as_bytes();
    proof {
        vstd::utf8::is_ascii_chars_encode_utf8(key@);
        assert(b@ =~= lit(key));
    }
    let keys = param_keys_exec(p);
    vec_contains_bytes(&keys, b)
}


/// No byte of the sequence is zero.
pub open spec fn nul_free(x: Seq<u8>) -> bool {
    forall|i: int| 0 <= i < x.len() ==> #[trigger] x[i] != 0
}

/// Concatenation keeps freedom from zero bytes.
pub proof fn lemma_nul_free_concat(a: Seq<u8>, b: Seq<u8>)
    requires
        nul_free(a),
        nul_free(b),
    ensures
        nul_free(a + b),
{
    assert forall|i: int| 0 <= i < (a + b).len() implies #[trigger] (a + b)[i] != 0 by {
        if i < a.len() {
            assert((a + b)[i] == a[i]);
        } else {
            assert((a + b)[i] == b[i - a.len()]);
        }
    }
}

/// Replacement keeps freedom from zero bytes when the replacement text
/// has none.
pub proof fn lemma_nul_free_replace(h: Seq<u8>, pat: Seq<u8>, rep: Seq<u8>)
    requires
        nul_free(h),
        nul_free(rep),
        pat.len() >= 1,
    ensures
        nul_free(replace_seq(h, pat, rep)),
    decreases h.len(),
{
    if h.len() < pat.len() {
    } else if h.subrange(0, pat.len() as int) == pat {
        assert forall|i: int|
            0 <= i < h.skip(pat.len() as int).len() implies #[trigger] h.skip(
            pat.len() as int,
        )[i] != 0 by {
            assert(h.skip(pat.len() as int)[i] == h[i + pat.len()]);
        }
        lemma_nul_free_replace(h.skip(pat.len() as int), pat, rep);
        lemma_nul_free_concat(rep, replace_seq(h.skip(pat.len() as int), pat, rep));
    } else {
        assert forall|i: int|
            0 <= i < h.skip(1).len() implies #[trigger] h.skip(1)[i] != 0 by {
            assert(h.skip(1)[i] == h[i + 1]);
        }
        assert(nul_free(h.take(1))) by {
            assert(h.take(1)[0] == h[0]);
        }
        lemma_nul_free_replace(h.skip(1), pat, rep);
        lemma_nul_free_concat(h.take(1), replace_seq(h.skip(1), pat, rep));
    }
}

/// Joining keeps freedom from zero bytes when every part and the
/// separator have none.
pub proof fn lemma_nul_free_join(parts: Seq<Seq<u8>>, sep: Seq<u8>)
    requires
        forall|k: int| 0 <= k < parts.len() ==> nul_free(#[trigger] parts[k]),
        nul_free(sep),
    ensures
        nul_free(join_with(parts, sep)),
    decreases parts.len(),
{
    if parts.len() == 0 {
    } else if parts.len() == 1 {
        assert(nul_free(parts[0]));
    } else {
        assert forall|k: int|
            0 <= k < parts.drop_last().len() implies nul_free(
            #[trigger] parts.drop_last()[k],
        ) by {
            assert(parts.drop_last()[k] == parts[k]);
        }
        lemma_nul_free_join(parts.drop_last(), sep);
        lemma_nul_free_concat(join_with(parts.drop_last(), sep), sep);
        lemma_nul_free_concat(join_with(parts.drop_last(), sep) + sep, parts.last());
    }
}

/// Replacement of every occurrence of `pat` by `rep`, scanning left to
/// right without overlap, exactly as `str::replace` does.  An empty
/// pattern leaves the sequence unchanged.
pub open spec fn replace_seq(h: Seq<u8>, pat: Seq<u8>, rep: Seq<u8>) -> Seq<u8>
    decreases h.len(),
{
    if pat.len() == 0 || h.len() < pat.len() {
        h
    } else if h.subrange(0, pat.len() as int) == pat {
        rep + replace_seq(h.skip(pat.len() as int), pat, rep)
    } else {
        h.take(1) + replace_seq(h.skip(1), pat, rep)
    }
}

/// Replace every occurrence of `pat` in `h` by `rep`.
pub fn replace_bytes(h: &[u8], pat: &[u8], rep: &[u8]) -> (out: Vec<u8>)
    requires
        pat@.len() > 0,
    ensures
        out@ == replace_seq(h@, pat@, rep@),
{
    let hl = h.len();
    let patl = pat.len();
    let mut out: Vec<u8> = Vec::new();
    let mut i: usize = 0;
    proof {
        assert(h@.skip(0) =~= h@);
        assert(out@ + replace_seq(h@, pat@, rep@) =~= replace_seq(h@, pat@, rep@));
    }
    while i < hl
        invariant
            hl == h@.len(),
            patl == pat@.len(),
            0 < patl,
            0 <= i <= hl,
            replace_seq(h@, pat@, rep@) == out@ + replace_seq(
                h@.skip(i as int),
                pat@,
                rep@,
            ),
        decreases hl - i,
    {
        let ghost pre = out@;
        let ghost rest = h@.skip(i as int);
        if hl - i >= patl && match_at_exec(h, pat, i) {
            out.extend_from_slice(rep);
            proof {
                assert(rest.subrange(0, pat@.len() as int) =~= h@.subrange(
                    i as int,
                    i + pat@.len(),
                ));
                assert(rest.skip(pat@.len() as int) =~= h@.skip(i + pat@.len()));
                assert(out@ =~= pre + rep@);
            }
            i += patl;
        } else {
            out.push(h[i]);
            proof {
                if rest.len() >= pat@.len() {
                    assert(rest.subrange(0, pat@.len() as int) =~= h@.subrange(
                        i as int,
                        i + pat@.len(),
                    ));
                }
                assert(rest.take(1) =~= seq![h@[i as int]]);
                assert(rest.skip(1) =~= h@.skip(i + 1));
                assert(out@ =~= pre + rest.take(1));
            }
            i += 1;
        }
    }
    proof {
        assert(h@.skip(hl as int) =~= Seq::<u8>::empty());
        assert(out@ + Seq::<u8>::empty() =~= out@);
    }
    out
}

/// Occurrences shift by `k` when the first `k` bytes are dropped.
pub proof fn lemma_match_at_shift(h: Seq<u8>, pat: Seq<u8>, k: int, i: int)
    requires
        0 <= k <= h.len(),
        0 <= i,
    ensures
        match_at(h.skip(k), pat, i) == match_at(h, pat, i + k),
{
    if i + pat.len() <= h.len() - k {
        assert(h.skip(k).subrange(i, i + pat.len() as int) =~= h.subrange(
            i + k,
            i + k + pat.len() as int,
        ));
    }
}

/// A sequence whose first bytes equal `s` contains `s`.
pub proof fn lemma_prefix_contains(h: Seq<u8>, s: Seq<u8>)
    requires
        s.len() <= h.len(),
        h.take(s.len() as int) == s,
    ensures
        contains_seq(h, s),
{
    assert(h.subrange(0, s.len() as int) =~= h.take(s.len() as int));
    assert(match_at(h, s, 0));
}

/// Containment survives prepending on the left.
pub proof fn lemma_contains_prepend(t: Seq<u8>, h: Seq<u8>, x: Seq<u8>)
    requires
        contains_seq(h, x),
    ensures
        contains_seq(t + h, x),
{
    let i = choose|i: int| match_at(h, x, i);
    assert((t + h).subrange(t.len() + i, t.len() + i + x.len() as int) =~= h.subrange(
        i,
        i + x.len() as int,
    ));
    assert(match_at(t + h, x, t.len() + i));
}

/// In the concatenation `s + t`, no occurrence of `pat` starts inside
/// `s` when `s` itself is free of `pat` and no proper suffix of `pat`
/// begins `t`.
pub proof fn lemma_no_match_in_prefix(s: Seq<u8>, t: Seq<u8>, pat: Seq<u8>)
    requires
        !contains_seq(s, pat),
        pat.len() >= 1,
        forall|k: int|
            1 <= k < pat.len() ==> !(t.len() >= pat.len() - k && #[trigger] t.take(pat.len() - k)
                == pat.skip(k)),
    ensures
        forall|i: int| 0 <= i < s.len() ==> !match_at(s + t, pat, i),
{
    let h = s + t;
    assert forall|i: int| 0 <= i < s.len() implies !match_at(h, pat, i) by {
        if match_at(h, pat, i) {
            if i + pat.len() <= s.len() {
                assert(s.subrange(i, i + pat.len() as int) =~= h.subrange(
                    i,
                    i + pat.len() as int,
                ));
                assert(match_at(s, pat, i));
            } else {
                let k = s.len() - i;
                assert(1 <= k < pat.len());
                assert(t.len() >= pat.len() - k);
                assert forall|m: int| 0 <= m < pat.len() - k implies t.take(pat.len() - k)[m]
                    == pat.skip(k)[m] by {
                    assert(h.subrange(i, i + pat.len() as int)[k + m] == h[i + k + m]);
                    assert(h[s.len() + m] == t[m]);
                }
                assert(t.take(pat.len() - k) =~= pat.skip(k));
            }
        }
    }
}

/// As `lemma_no_match_in_prefix`, with the suffix condition reduced to
/// the first two bytes of `t`: no occurrence of `pat` starts inside `s`
/// when every proper suffix of `pat` already disagrees with `t` there.
pub proof fn lemma_no_match_in_prefix_two(s: Seq<u8>, t: Seq<u8>, pat: Seq<u8>)
    requires
        !contains_seq(s, pat),
        pat.len() >= 1,
        t.len() >= 2,
        forall|k: int|
            1 <= k < pat.len() ==> #[trigger] pat[k] != t[0] || (k + 1 < pat.len() && pat[k + 1]
                != t[1]),
    ensures
        forall|i: int| 0 <= i < s.len() ==> !match_at(s + t, pat, i),
{
    let h = s + t;
    assert forall|i: int| 0 <= i < s.len() implies !match_at(h, pat, i) by {
        if match_at(h, pat, i) {
            if i + pat.len() <= s.len() {
                assert(s.subrange(i, i + pat.len() as int) =~= h.subrange(
                    i,
                    i + pat.len() as int,
                ));
                assert(match_at(s, pat, i));
            } else {
                let k = s.len() - i;
                assert(1 <= k < pat.len());
                assert(h.subrange(i, i + pat.len() as int)[k] == h[s.len() as int]);
                assert(h[s.len() as int] == t[0]);
                assert(pat[k] == t[0]);
                if k + 1 < pat.len() {
                    assert(h.subrange(i, i + pat.len() as int)[k + 1] == h[s.len() as int + 1]);
                    assert(h[s.len() as int + 1] == t[1]);
                    assert(pat[k + 1] == t[1]);
                }
            }
        }
    }
}


/// Some position shared by `q`, laid over `rep` at shift `a`,
/// disagrees.
pub open spec fn overlap_mismatch_at(q: Seq<u8>, rep: Seq<u8>, a: int) -> bool {
    exists|t: int| 0 <= t < q.len() && 0 <= a + t < rep.len() && q[t] != #[trigger] rep[a + t]
}

/// However `q` is laid over `rep` with at least one position shared,
/// some shared position disagrees.
pub open spec fn never_aligns(q: Seq<u8>, rep: Seq<u8>) -> bool {
    forall|a: int|
        1 - q.len() <= a <= rep.len() - 1 ==> #[trigger] overlap_mismatch_at(q, rep, a)
}

/// An occurrence of `q` in a sequence implies one in any extension on
/// the left of the dropped prefix.
proof fn lemma_contains_skip(x: Seq<u8>, q: Seq<u8>, k: int)
    requires
        0 <= k <= x.len(),
        contains_seq(x.skip(k), q),
    ensures
        contains_seq(x, q),
{
    let i = choose|i: int| match_at(x.skip(k), q, i);
    lemma_match_at_shift(x, q, k, i);
}

/// A prefix of a replaced sequence that spells a proper suffix of `q`
/// was already spelled by the input: a substituted copy of `rep`
/// cannot begin inside such a suffix.
proof fn lemma_replace_prefix_trace(y: Seq<u8>, pat: Seq<u8>, rep: Seq<u8>, q: Seq<u8>, j: int)
    requires
        pat.len() >= 1,
        rep.len() >= 1,
        1 <= j < q.len(),
        forall|a: int| 1 - q.len() <= a <= -1 ==> #[trigger] overlap_mismatch_at(q, rep, a),
        replace_seq(y, pat, rep).len() >= q.len() - j,
        replace_seq(y, pat, rep).take(q.len() - j) == q.skip(j),
    ensures
        y.len() >= q.len() - j,
        y.take(q.len() - j) == q.skip(j),
    decreases q.len() - j,
{
    let f = replace_seq(y, pat, rep);
    let m = q.len() - j;
    if y.len() < pat.len() {
    } else if y.subrange(0, pat.len() as int) == pat {
        let f1 = replace_seq(y.skip(pat.len() as int), pat, rep);
        assert(f == rep + f1);
        assert(overlap_mismatch_at(q, rep, -j));
        let tstar = choose|t: int|
            0 <= t < q.len() && 0 <= (-j) + t < rep.len() && q[t] != rep[(-j) + t];
        let tp = tstar - j;
        assert(0 <= tp < m);
        assert(f[tp] == rep[tp]);
        assert(f.take(m)[tp] == f[tp]);
        assert(f.take(m)[tp] == q.skip(j)[tp]);
        assert(q.skip(j)[tp] == q[tstar]);
        assert(false);
    } else {
        let f1 = replace_seq(y.skip(1), pat, rep);
        assert(f == y.take(1) + f1);
        assert(f[0] == y[0]);
        assert(f.take(m)[0] == f[0]);
        assert(f.take(m)[0] == q.skip(j)[0]);
        assert(y[0] == q[j]);
        if m == 1 {
            assert(y.take(1) =~= q.skip(j));
        } else {
            assert(f1.len() >= m - 1);
            assert forall|t: int| 0 <= t < m - 1 implies #[trigger] f1.take(m - 1)[t] == q.skip(j + 1)[t] by {
                assert(f1[t] == f[t + 1]);
                assert(f.take(m)[t + 1] == f[t + 1]);
                assert(f.take(m)[t + 1] == q.skip(j)[t + 1]);
            }
            assert(f1.take(m - 1) =~= q.skip(j + 1));
            lemma_replace_prefix_trace(y.skip(1), pat, rep, q, j + 1);
            assert forall|t: int| 0 <= t < m implies #[trigger] y.take(m)[t] == q.skip(j)[t] by {
                if t > 0 {
                    assert(y.skip(1).take(m - 1)[t - 1] == q.skip(j + 1)[t - 1]);
                    assert(y.skip(1)[t - 1] == y[t]);
                }
            }
            assert(y.take(m) =~= q.skip(j));
        }
    }
}

/// Replacement creates no occurrence of a pattern the input lacks,
/// when the pattern disagrees with the substituted text on every
/// alignment.
pub proof fn lemma_replace_creates_no_occurrence(
    x: Seq<u8>,
    pat: Seq<u8>,
    rep: Seq<u8>,
    q: Seq<u8>,
)
    requires
        pat.len() >= 1,
        rep.len() >= 1,
        q.len() >= 1,
        !contains_seq(x, q),
        never_aligns(q, rep),
    ensures
        !contains_seq(replace_seq(x, pat, rep), q),
    decreases x.len(),
{
    let f = replace_seq(x, pat, rep);
    if x.len() < pat.len() {
    } else if x.subrange(0, pat.len() as int) == pat {
        let xs = x.skip(pat.len() as int);
        if contains_seq(xs, q) {
            lemma_contains_skip(x, q, pat.len() as int);
        }
        lemma_replace_creates_no_occurrence(xs, pat, rep, q);
        let f1 = replace_seq(xs, pat, rep);
        assert(f == rep + f1);
        assert forall|i: int| !match_at(f, q, i) by {
            if match_at(f, q, i) {
                if i >= rep.len() {
                    assert(f1.subrange(i - rep.len(), i - rep.len() + q.len() as int)
                        =~= f.subrange(i, i + q.len() as int));
                    assert(match_at(f1, q, i - rep.len()));
                } else {
                    assert(overlap_mismatch_at(q, rep, i));
                    let tstar = choose|t: int|
                        0 <= t < q.len() && 0 <= i + t < rep.len() && q[t] != rep[i + t];
                    assert(f.subrange(i, i + q.len() as int)[tstar] == f[i + tstar]);
                    assert(f[i + tstar] == rep[i + tstar]);
                }
            }
        }
    } else {
        let xs = x.skip(1);
        if contains_seq(xs, q) {
            lemma_contains_skip(x, q, 1);
        }
        lemma_replace_creates_no_occurrence(xs, pat, rep, q);
        let f1 = replace_seq(xs, pat, rep);
        assert(f == x.take(1) + f1);
        assert forall|i: int| !match_at(f, q, i) by {
            if match_at(f, q, i) {
                if i >= 1 {
                    assert(f1.subrange(i - 1, i - 1 + q.len() as int) =~= f.subrange(
                        i,
                        i + q.len() as int,
                    ));
                    assert(match_at(f1, q, i - 1));
                } else {
                    assert(f.subrange(0, q.len() as int)[0] == f[0]);
                    assert(f[0] == x[0]);
                    assert(x[0] == q[0]);
                    if q.len() == 1 {
                        assert(x.subrange(0, 1) =~= q);
                        assert(match_at(x, q, 0));
                    } else {
                        assert(f1.len() >= q.len() - 1);
                        assert forall|t: int|
                            0 <= t < q.len() - 1 implies #[trigger] f1.take(q.len() - 1)[t]
                            == q.skip(1)[t] by {
                            assert(f1[t] == f[t + 1]);
                            assert(f.subrange(0, q.len() as int)[t + 1] == f[t + 1]);
                        }
                        assert(f1.take(q.len() - 1) =~= q.skip(1));
                        lemma_replace_prefix_trace(xs, pat, rep, q, 1);
                        assert forall|t: int|
                            0 <= t < q.len() implies #[trigger] x.subrange(0, q.len() as int)[t]
                            == q[t] by {
                            if t > 0 {
                                assert(xs.take(q.len() - 1)[t - 1] == q.skip(1)[t - 1]);
                                assert(xs[t - 1] == x[t]);
                            }
                        }
                        assert(x.subrange(0, q.len() as int) =~= q);
                        assert(match_at(x, q, 0));
                    }
                }
            }
        }
    }
}

/// Substituting `rep` for `pat` and then `pat` for `rep` restores the
/// input exactly, when the input is free of `rep` and `rep` disagrees
/// with itself on every proper self-alignment.
pub proof fn lemma_replace_inverse(x: Seq<u8>, pat: Seq<u8>, rep: Seq<u8>)
    requires
        pat.len() >= 1,
        rep.len() >= 1,
        !contains_seq(x, rep),
        forall|a: int| 1 - rep.len() <= a <= -1 ==> #[trigger] overlap_mismatch_at(rep, rep, a),
    ensures
        replace_seq(replace_seq(x, pat, rep), rep, pat) == x,
    decreases x.len(),
{
    let f = replace_seq(x, pat, rep);
    if x.len() < pat.len() {
        assert forall|i: int| !match_at(x, rep, i) by {
            if match_at(x, rep, i) {
                assert(contains_seq(x, rep));
            }
        }
        lemma_replace_absent_identity(x, rep, pat);
    } else if x.subrange(0, pat.len() as int) == pat {
        let xs = x.skip(pat.len() as int);
        if contains_seq(xs, rep) {
            lemma_contains_skip(x, rep, pat.len() as int);
        }
        lemma_replace_inverse(xs, pat, rep);
        let f1 = replace_seq(xs, pat, rep);
        assert(f == rep + f1);
        assert(f.subrange(0, rep.len() as int) =~= rep);
        assert(replace_seq(f, rep, pat) == pat + replace_seq(
            f.skip(rep.len() as int),
            rep,
            pat,
        ));
        assert(f.skip(rep.len() as int) =~= f1);
        assert(replace_seq(f, rep, pat) == pat + xs);
        assert(pat + xs =~= x);
    } else {
        let xs = x.skip(1);
        if contains_seq(xs, rep) {
            lemma_contains_skip(x, rep, 1);
        }
        lemma_replace_inverse(xs, pat, rep);
        let f1 = replace_seq(xs, pat, rep);
        assert(f == x.take(1) + f1);
        if f.len() < rep.len() {
            assert(f1.len() < rep.len());
            assert(replace_seq(f1, rep, pat) == f1);
            assert(f1 == xs);
            assert(replace_seq(f, rep, pat) == f);
            assert(f =~= x);
        } else {
            assert(!match_at(f, rep, 0)) by {
                if match_at(f, rep, 0) {
                    assert(f.subrange(0, rep.len() as int)[0] == f[0]);
                    assert(f[0] == x[0]);
                    assert(x[0] == rep[0]);
                    if rep.len() == 1 {
                        assert(x.subrange(0, 1) =~= rep);
                        assert(match_at(x, rep, 0));
                    } else {
                        assert(f1.len() >= rep.len() - 1);
                        assert forall|t: int|
                            0 <= t < rep.len() - 1 implies #[trigger] f1.take(rep.len() - 1)[t]
                            == rep.skip(1)[t] by {
                            assert(f1[t] == f[t + 1]);
                            assert(f.subrange(0, rep.len() as int)[t + 1] == f[t + 1]);
                        }
                        assert(f1.take(rep.len() - 1) =~= rep.skip(1));
                        lemma_replace_prefix_trace(xs, pat, rep, rep, 1);
                        assert forall|t: int|
                            0 <= t < rep.len() implies #[trigger] x.subrange(0, rep.len() as int)[t]
                            == rep[t] by {
                            if t > 0 {
                                assert(xs.take(rep.len() - 1)[t - 1] == rep.skip(1)[t - 1]);
                                assert(xs[t - 1] == x[t]);
                            }
                        }
                        assert(x.subrange(0, rep.len() as int) =~= rep);
                        assert(match_at(x, rep, 0));
                    }
                }
            }
            assert(f.subrange(0, rep.len() as int) != rep);
            assert(replace_seq(f, rep, pat) == f.take(1) + replace_seq(f.skip(1), rep, pat));
            assert(f.skip(1) =~= f1);
            assert(f.take(1) =~= x.take(1));
            assert(replace_seq(f, rep, pat) == x.take(1) + xs);
            assert(x.take(1) + xs =~= x);
        }
    }
}

/// Appending on the right keeps any prefix.
pub proof fn lemma_append_keeps_take(x: Seq<u8>, s: Seq<u8>, t: Seq<u8>)
    requires
        x.len() >= s.len(),
        x.take(s.len() as int) == s,
    ensures
        (x + t).len() >= s.len(),
        (x + t).take(s.len() as int) == s,
{
    assert((x + t).take(s.len() as int) =~= x.take(s.len() as int));
}

/// Appending on the right keeps a prefix together with the two tag
/// bytes that follow it.
pub proof fn lemma_append_keeps_tagged_prefix(x: Seq<u8>, s: Seq<u8>, t: Seq<u8>)
    requires
        x.len() >= s.len() + 2,
        x.take(s.len() as int) == s,
        x[s.len() as int] == 32,
        x[s.len() as int + 1] == 45,
    ensures
        (x + t).len() >= s.len() + 2,
        (x + t).take(s.len() as int) == s,
        (x + t)[s.len() as int] == 32,
        (x + t)[s.len() as int + 1] == 45,
{
    assert((x + t).take(s.len() as int) =~= x.take(s.len() as int));
}

/// A replacement pass over a tagged payload keeps the payload prefix:
/// the two tag bytes that follow it disagree with every proper suffix
/// of the pattern, and the payload itself is free of the pattern.
pub proof fn lemma_replace_keeps_tagged_prefix(c: Seq<u8>, s: Seq<u8>, pat: Seq<u8>, rep: Seq<u8>)
    requires
        s.len() + 2 <= c.len(),
        c.take(s.len() as int) == s,
        c[s.len() as int] == 32,
        c[s.len() as int + 1] == 45,
        !contains_seq(s, pat),
        pat.len() >= 1,
        forall|k: int|
            1 <= k < pat.len() ==> #[trigger] pat[k] != 32 || (k + 1 < pat.len() && pat[k + 1]
                != 45),
    ensures
        replace_seq(c, pat, rep).len() >= s.len(),
        replace_seq(c, pat, rep).take(s.len() as int) == s,
{
    let t = c.skip(s.len() as int);
    assert(t.len() >= 2);
    assert(t[0] == 32 && t[1] == 45);
    assert(c =~= s + t);
    lemma_no_match_in_prefix_two(s, t, pat);
    assert(c == s + t);
    lemma_replace_clean_prefix(c, s.len() as int, pat, rep);
    assert(replace_seq(c, pat, rep) == c.take(s.len() as int) + replace_seq(t, pat, rep));
    assert(replace_seq(c, pat, rep).take(s.len() as int) =~= s);
}

/// Replacing leaves a clean prefix untouched: when no occurrence of
/// `pat` starts inside the first `n` bytes, replacement acts only on the
/// remainder.
pub proof fn lemma_replace_clean_prefix(h: Seq<u8>, n: int, pat: Seq<u8>, rep: Seq<u8>)
    requires
        0 <= n <= h.len(),
        pat.len() >= 1,
        forall|i: int| 0 <= i < n ==> !match_at(h, pat, i),
    ensures
        replace_seq(h, pat, rep) == h.take(n) + replace_seq(h.skip(n), pat, rep),
    decreases n,
{
    if n == 0 {
        assert(h.skip(0) =~= h);
        assert(h.take(0) + replace_seq(h, pat, rep) =~= replace_seq(h, pat, rep));
    } else {
        if h.len() < pat.len() {
            assert(replace_seq(h.skip(n), pat, rep) == h.skip(n));
            assert(h.take(n) + h.skip(n) =~= h);
        } else {
            assert(!match_at(h, pat, 0));
            assert(h.subrange(0, pat.len() as int) != pat);
            assert forall|i: int| 0 <= i < n - 1 implies !match_at(h.skip(1), pat, i) by {
                lemma_match_at_shift(h, pat, 1, i);
            }
            lemma_replace_clean_prefix(h.skip(1), n - 1, pat, rep);
            assert(h.skip(1).take(n - 1) =~= h.take(n).skip(1));
            assert(h.skip(1).skip(n - 1) =~= h.skip(n));
            assert(h.take(1) + (h.take(n).skip(1) + replace_seq(h.skip(n), pat, rep)) =~= h.take(
                n,
            ) + replace_seq(h.skip(n), pat, rep));
        }
    }
}

/// `h` begins with the bytes of `p`.
pub open spec fn starts_with_seq(h: Seq<u8>, p: Seq<u8>) -> bool {
    h.len() >= p.len() && h.take(p.len() as int) == p
}

/// Decide whether `h` begins with the bytes of `p`.
pub fn starts_with_bytes(h: &[u8], p: &[u8]) -> (r: bool)
    ensures
        r == starts_with_seq(h@, p@),
{
    if p.len() > h.len() {
        return false;
    }
    let r = match_at_exec(h, p, 0);
    proof {
        assert(h@.take(p@.len() as int) =~= h@.subrange(0, p@.len() as int));
    }
    r
}

/// The sequence with its longest all-`pred` prefix removed.
pub open spec fn trim_front(s: Seq<u8>, pred: spec_fn(u8) -> bool) -> Seq<u8>
    decreases s.len(),
{
    if s.len() > 0 && pred(s[0]) {
        trim_front(s.drop_first(), pred)
    } else {
        s
    }
}

/// The sequence with its longest all-`pred` suffix removed.
pub open spec fn trim_back(s: Seq<u8>, pred: spec_fn(u8) -> bool) -> Seq<u8>
    decreases s.len(),
{
    if s.len() > 0 && pred(s.last()) {
        trim_back(s.drop_last(), pred)
    } else {
        s
    }
}

/// The sequence trimmed of `pred` bytes at both ends.
pub open spec fn trim_seq(s: Seq<u8>, pred: spec_fn(u8) -> bool) -> Seq<u8> {
    trim_back(trim_front(s, pred), pred)
}

/// A sequence every byte of which satisfies `pred` is left whole by
/// `filter`.
pub proof fn lemma_filter_all_kept(s: Seq<u8>, pred: spec_fn(u8) -> bool)
    requires
        forall|i: int| 0 <= i < s.len() ==> pred(#[trigger] s[i]),
    ensures
        s.filter(pred) == s,
    decreases s.len(),
{
    reveal(Seq::filter);
    if s.len() > 0 {
        lemma_filter_all_kept(s.drop_last(), pred);
        assert(pred(s[s.len() - 1]));
        assert(s.filter(pred) == s.drop_last().filter(pred).push(s.last()));
        assert(s.drop_last().push(s.last()) =~= s);
    }
}

/// ASCII lowercase of one byte.
pub open spec fn lower_byte(b: u8) -> u8 {
    if 65 <= b <= 90 {
        (b + 32) as u8
    } else {
        b
    }
}

/// ASCII lowercase of a byte sequence.
pub open spec fn lower_seq(s: Seq<u8>) -> Seq<u8> {
    s.map_values(|b: u8| lower_byte(b))
}

/// Map a byte buffer to its ASCII lowercase form.
pub fn to_lower_bytes(h: &[u8]) -> (v: Vec<u8>)
    ensures
        v@ == lower_seq(h@),
{
    let hl = h.len();
    let mut v: Vec<u8> = Vec::new();
    let mut i: usize = 0;
    while i < hl
        invariant
            hl == h@.len(),
            0 <= i <= hl,
            v@.len() == i,
            forall|j: int| 0 <= j < i ==> v@[j] == lower_byte(h@[j]),
        decreases hl - i,
    {
        let b = h[i];
        if 65 <= b && b <= 90 {
            v.push(b + 32);
        } else {
            v.push(b);
        }
        i += 1;
    }
    proof {
        assert(v@ =~= lower_seq(h@));
    }
    v
}

/// Replacement never disturbs a first byte that differs from the
/// pattern's first byte.
pub proof fn lemma_replace_head(h: Seq<u8>, pat: Seq<u8>, rep: Seq<u8>)
    requires
        pat.len() >= 1,
        h.len() >= 1,
        h[0] != pat[0],
    ensures
        replace_seq(h, pat, rep).len() >= 1,
        replace_seq(h, pat, rep)[0] == h[0],
{
    if h.len() >= pat.len() {
        assert(h.subrange(0, pat.len() as int)[0] == h[0]);
        assert(h.subrange(0, pat.len() as int) != pat);
        assert(replace_seq(h, pat, rep) == h.take(1) + replace_seq(h.skip(1), pat, rep));
        assert((h.take(1) + replace_seq(h.skip(1), pat, rep))[0] == h[0]);
    }
}

/// A sequence free of `pat` everywhere is unchanged by replacement.
pub proof fn lemma_replace_absent_identity(h: Seq<u8>, pat: Seq<u8>, rep: Seq<u8>)
    requires
        pat.len() >= 1,
        forall|i: int| !match_at(h, pat, i),
    ensures
        replace_seq(h, pat, rep) == h,
{
    lemma_replace_clean_prefix(h, h.len() as int, pat, rep);
    assert(h.skip(h.len() as int) =~= Seq::<u8>::empty());
    assert(replace_seq(Seq::<u8>::empty(), pat, rep) == Seq::<u8>::empty());
    assert(h.take(h.len() as int) + Seq::<u8>::empty() =~= h);
}

} // verus!
