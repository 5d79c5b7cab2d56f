//! Decimal rendering of the integers that the pipelines embed in their
//! metadata tags and status lines.

use vstd::prelude::*;

verus! {

/// The usual decimal digit string of `n`, most significant digit first.
pub open spec fn dec_digits(n: nat) -> Seq<u8>
    decreases n,
{
    if n < 10 {
        seq![(48 + n) as u8]
    } else {
        dec_digits(n / 10) + seq![(48 + n % 10) as u8]
    }
}

/// Decimal rendering of a signed value: a leading minus sign for
/// negative values, then the digits of the magnitude.
pub open spec fn dec_int(v: int) -> Seq<u8> {
    if v < 0 {
        seq![45u8] + dec_digits((-v) as nat)
    } else {
        dec_digits(v as nat)
    }
}

/// Render an unsigned value in decimal.
pub fn render_u64(n: u64) -> (v: Vec<u8>)
    ensures
        v@ == dec_digits(n as nat),
    decreases n,
{
    let mut v: Vec<u8> = if n >= 10 {
        render_u64(n / 10)
    } else {
        Vec::new()
    };
    v.push(48 + (n % 10) as u8);
    proof {
        if n >= 10 {
            assert(dec_digits(n as nat) =~= dec_digits((n as nat) / 10) + seq![
                (48 + (n as nat) % 10) as u8,
            ]);
            assert(v@ =~= dec_digits((n as nat) / 10) + seq![(48 + (n as nat) % 10) as u8]);
        } else {
            assert(v@ =~= seq![(48 + n as nat) as u8]);
        }
    }
    v
}

/// Render a machine-word length in decimal.
pub fn render_usize(n: usize) -> (v: Vec<u8>)
    ensures
        v@ == dec_digits(n as nat),
{
    render_u64(n as u64)
}

/// Render a signed value in decimal.
pub fn render_i64(t: i64) -> (v: Vec<u8>)
    ensures
        v@ == dec_int(t as int),
{
    if t >= 0 {
        render_u64(t as u64)
    } else {
        let mag: u64 = ((-(t + 1)) as u64) + 1;
        assert(mag as int == -(t as int));
        let digits = render_u64(mag);
        let mut v: Vec<u8> = Vec::new();
        v.push(45);
        let mut d = digits;
        v.append(&mut d);
        proof {
            assert(v@ =~= seq![45u8] + dec_digits((-(t as int)) as nat));
        }
        v
    }
}

/// Render a wide unsigned value in decimal.
pub fn render_u128(n: u128) -> (v: Vec<u8>)
    ensures
        v@ == dec_digits(n as nat),
    decreases n,
{
    let mut v: Vec<u8> = if n >= 10 {
        render_u128(n / 10)
    } else {
        Vec::new()
    };
    v.push(48 + (n % 10) as u8);
    proof {
        if n >= 10 {
            assert(dec_digits(n as nat) =~= dec_digits((n as nat) / 10) + seq![
                (48 + (n as nat) % 10) as u8,
            ]);
            assert(v@ =~= dec_digits((n as nat) / 10) + seq![(48 + (n as nat) % 10) as u8]);
        } else {
            assert(v@ =~= seq![(48 + n as nat) as u8]);
        }
    }
    v
}

/// One lowercase hexadecimal digit.
pub open spec fn hex_digit(d: nat) -> u8 {
    if d < 10 {
        (48 + d) as u8
    } else {
        (87 + d) as u8
    }
}

/// The lowercase hexadecimal digit string of `n`.
pub open spec fn hex_digits(n: nat) -> Seq<u8>
    decreases n,
{
    if n < 16 {
        seq![hex_digit(n)]
    } else {
        hex_digits(n / 16) + seq![hex_digit(n % 16)]
    }
}

/// Render an unsigned value in lowercase hexadecimal.
pub fn render_hex_u64(n: u64) -> (v: Vec<u8>)
    ensures
        v@ == hex_digits(n as nat),
    decreases n,
{
    let mut v: Vec<u8> = if n >= 16 {
        render_hex_u64(n / 16)
    } else {
        Vec::new()
    };
    let d = (n % 16) as u8;
    let b: u8 = if d < 10 {
        48 + d
    } else {
        87 + d
    };
    v.push(b);
    proof {
        assert(b == hex_digit((n as nat) % 16));
        if n >= 16 {
            assert(hex_digits(n as nat) =~= hex_digits((n as nat) / 16) + seq![
                hex_digit((n as nat) % 16),
            ]);
            assert(v@ =~= hex_digits((n as nat) / 16) + seq![hex_digit((n as nat) % 16)]);
        } else {
            assert(hex_digit(n as nat) == hex_digit((n as nat) % 16));
            assert(v@ =~= seq![hex_digit(n as nat)]);
        }
    }
    v
}


/// Every byte of a hexadecimal digit string is a digit or a lowercase
/// letter.
pub proof fn lemma_hex_digits_range(n: nat)
    ensures
        forall|i: int|
            0 <= i < hex_digits(n).len() ==> (48 <= #[trigger] hex_digits(n)[i] <= 57 || 97
                <= hex_digits(n)[i] <= 102),
    decreases n,
{
    if n < 16 {
        assert(hex_digits(n) =~= seq![hex_digit(n)]);
    } else {
        lemma_hex_digits_range(n / 16);
        assert forall|i: int|
            0 <= i < hex_digits(n).len() implies (48 <= #[trigger] hex_digits(n)[i] <= 57
            || 97 <= hex_digits(n)[i] <= 102) by {
            if i < hex_digits(n / 16).len() {
                assert(hex_digits(n)[i] == hex_digits(n / 16)[i]);
            } else {
                assert(hex_digits(n)[i] == hex_digit(n % 16));
            }
        }
    }
}

/// Every byte of a digit string is an ASCII digit.
pub proof fn lemma_dec_digits_range(n: nat)
    ensures
        forall|i: int| 0 <= i < dec_digits(n).len() ==> 48 <= #[trigger] dec_digits(n)[i] <= 57,
    decreases n,
{
    if n < 10 {
        assert(dec_digits(n) =~= seq![(48 + n) as u8]);
    } else {
        lemma_dec_digits_range(n / 10);
        assert forall|i: int| 0 <= i < dec_digits(n).len() implies 48 <= #[trigger] dec_digits(
            n,
        )[i] <= 57 by {
            if i < dec_digits(n / 10).len() {
                assert(dec_digits(n)[i] == dec_digits(n / 10)[i]);
            } else {
                assert(dec_digits(n)[i] == (48 + n % 10) as u8);
            }
        }
    }
}

} // verus!
