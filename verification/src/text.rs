//! Byte-level helpers shared by the wire codec and the discovery protocol:
//! ASCII classification, decimal rendering and scanning, and small vector
//! utilities, each tied to a spec-level definition.

use vstd::prelude::*;

verus! {

/// ASCII decimal digit.
pub open spec fn is_digit(b: u8) -> bool {
    48 <= b && b <= 57
}

/// JSON insignificant whitespace: space, tab, line feed, carriage return.
pub open spec fn is_ws(b: u8) -> bool {
    b == 32 || b == 9 || b == 10 || b == 13
}

pub open spec fn pow10(k: nat) -> nat
    decreases k,
{
    if k == 0 {
        1
    } else {
        10 * pow10((k - 1) as nat)
    }
}

pub proof fn lemma_pow10_values()
    ensures
        pow10(0) == 1,
        pow10(1) == 10,
        pow10(2) == 100,
        pow10(3) == 1000,
        pow10(4) == 10000,
        pow10(5) == 100000,
        pow10(6) == 1000000,
        pow10(7) == 10000000,
        pow10(8) == 100000000,
        pow10(9) == 1000000000,
        pow10(10) == 10000000000,
{
    assert(pow10(0) == 1);
    assert(pow10(1) == 10);
    assert(pow10(2) == 100);
    assert(pow10(3) == 1000);
    assert(pow10(4) == 10000);
    assert(pow10(5) == 100000);
    assert(pow10(6) == 1000000);
    assert(pow10(7) == 10000000);
    assert(pow10(8) == 100000000);
    assert(pow10(9) == 1000000000);
    assert(pow10(10) == 10000000000);
}

/// Exact powers of ten up to one million, used when scaling fraction digits.
pub fn pow10_u64(k: u64) -> (r: u64)
    requires
        k <= 10,
    ensures
        r == pow10(k as nat),
{
    proof {
        lemma_pow10_values();
    }
    if k == 0 {
        1
    } else if k == 1 {
        10
    } else if k == 2 {
        100
    } else if k == 3 {
        1000
    } else if k == 4 {
        10000
    } else if k == 5 {
        100000
    } else if k == 6 {
        1000000
    } else if k == 7 {
        10000000
    } else if k == 8 {
        100000000
    } else if k == 9 {
        1000000000
    } else {
        10000000000
    }
}

/// The ASCII decimal digits of `n`, most significant first, no leading zeros
/// (the single digit `0` for zero).
pub open spec fn spec_dec_digits(n: nat) -> Seq<u8>
    decreases n,
{
    if n < 10 {
        seq![(48 + n) as u8]
    } else {
        spec_dec_digits(n / 10).push((48 + n % 10) as u8)
    }
}

/// Numeric value of a digit sequence, most significant first.
pub open spec fn seq_dec_val(d: Seq<u8>) -> int
    decreases d.len(),
{
    if d.len() == 0 {
        0
    } else {
        seq_dec_val(d.drop_last()) * 10 + (d.last() - 48)
    }
}

pub proof fn lemma_dec_digits_props(n: nat)
    ensures
        spec_dec_digits(n).len() >= 1,
        forall|i: int|
            0 <= i < spec_dec_digits(n).len() ==> is_digit(#[trigger] spec_dec_digits(n)[i]),
        seq_dec_val(spec_dec_digits(n)) == n,
    decreases n,
{
    if n < 10 {
        let d = spec_dec_digits(n);
        assert(d == seq![(48 + n) as u8]);
        assert(d.len() == 1);
        assert(d.drop_last() =~= Seq::<u8>::empty());
        assert(d.drop_last() == Seq::<u8>::empty());
        assert(seq_dec_val(Seq::<u8>::empty()) == 0);
        assert(seq_dec_val(d) == seq_dec_val(d.drop_last()) * 10 + (d.last() - 48));
        assert(d.last() == (48 + n) as u8);
    } else {
        lemma_dec_digits_props(n / 10);
        let d = spec_dec_digits(n / 10);
        let full = spec_dec_digits(n);
        assert(full == d.push((48 + n % 10) as u8));
        assert(full.drop_last() =~= d);
        assert(full.drop_last() == d);
        assert(full.last() == (48 + n % 10) as u8);
        assert(seq_dec_val(full) == seq_dec_val(d) * 10 + (full.last() - 48));
    }
}

pub proof fn lemma_dec_digits_len(n: nat, k: nat)
    requires
        1 <= k,
        n < pow10(k),
    ensures
        spec_dec_digits(n).len() <= k,
    decreases k,
{
    if n < 10 {
    } else {
        assert(pow10(k) == 10 * pow10((k - 1) as nat));
        assert(n / 10 < pow10((k - 1) as nat));
        if k - 1 == 0 {
            assert(n / 10 < 1);
            assert(false);
        }
        lemma_dec_digits_len(n / 10, (k - 1) as nat);
    }
}

/// Render `n` in decimal ASCII.
pub fn dec_digits(n: u64) -> (r: Vec<u8>)
    ensures
        r@ == spec_dec_digits(n as nat),
    decreases n,
{
    if n < 10 {
        let mut v: Vec<u8> = Vec::new();
        v.push((48 + n) as u8);
        proof {
            assert(v@ =~= spec_dec_digits(n as nat));
        }
        v
    } else {
        let mut v = dec_digits(n / 10);
        v.push((48 + n % 10) as u8);
        proof {
            assert(v@ =~= spec_dec_digits(n as nat));
        }
        v
    }
}

/// First index at or after `i` that does not hold a digit.
pub open spec fn spec_digits_end(s: Seq<u8>, i: int) -> int
    decreases s.len() - i when 0 <= i <= s.len()
{
    if i < s.len() && is_digit(s[i]) {
        spec_digits_end(s, i + 1)
    } else {
        i
    }
}

/// Value of the digit run beginning at `i`, folded onto `acc`.
pub open spec fn spec_digits_value(s: Seq<u8>, i: int, acc: nat) -> nat
    decreases s.len() - i when 0 <= i <= s.len()
{
    if i < s.len() && is_digit(s[i]) {
        spec_digits_value(s, i + 1, acc * 10 + (s[i] - 48) as nat)
    } else {
        acc
    }
}

pub proof fn lemma_digits_end_bounds(s: Seq<u8>, i: int)
    requires
        0 <= i <= s.len(),
    ensures
        i <= spec_digits_end(s, i) <= s.len(),
        forall|j: int| i <= j < spec_digits_end(s, i) ==> is_digit(#[trigger] s[j]),
        spec_digits_end(s, i) == s.len() || !is_digit(s[spec_digits_end(s, i)]),
    decreases s.len() - i,
{
    if i < s.len() && is_digit(s[i]) {
        lemma_digits_end_bounds(s, i + 1);
    }
}

pub proof fn lemma_seqval_cons(d: Seq<u8>)
    requires
        d.len() >= 1,
    ensures
        seq_dec_val(d) == (d[0] - 48) * pow10((d.len() - 1) as nat) + seq_dec_val(
            d.subrange(1, d.len() as int),
        ),
    decreases d.len(),
{
    if d.len() == 1 {
        assert(d.drop_last() =~= Seq::<u8>::empty());
        assert(d.drop_last() == Seq::<u8>::empty());
        assert(d.subrange(1, d.len() as int) =~= Seq::<u8>::empty());
        assert(seq_dec_val(Seq::<u8>::empty()) == 0);
        assert(pow10(0) == 1);
        assert(seq_dec_val(d) == seq_dec_val(d.drop_last()) * 10 + (d.last() - 48));
        assert(d[0] == d.last());
        assert((d[0] - 48) * pow10(0) == d[0] - 48) by (nonlinear_arith)
            requires
                pow10(0) == 1,
        ;
    } else {
        let e = d.drop_last();
        lemma_seqval_cons(e);
        assert(e[0] == d[0]);
        let k = (d.len() - 2) as nat;
        let t = d.subrange(1, d.len() as int);
        assert(e.subrange(1, e.len() as int) =~= t.drop_last());
        assert(e.subrange(1, e.len() as int) == t.drop_last());
        assert(t.last() == d.last());
        assert(t.len() == d.len() - 1);
        assert(seq_dec_val(t) == seq_dec_val(t.drop_last()) * 10 + (t.last() - 48));
        let c = d[0] - 48;
        let v = seq_dec_val(t.drop_last());
        let w = d.last() - 48;
        // from the definition and the induction hypothesis:
        assert(seq_dec_val(d) == seq_dec_val(e) * 10 + w);
        assert(seq_dec_val(e) == c * pow10(k) + v);
        assert((c * pow10(k) + v) * 10 == c * (10 * pow10(k)) + v * 10) by (nonlinear_arith);
        assert(pow10((d.len() - 1) as nat) == 10 * pow10(k));
        assert(seq_dec_val(d) == c * pow10((d.len() - 1) as nat) + (v * 10 + w));
        assert(seq_dec_val(t) == v * 10 + w);
    }
}

pub proof fn lemma_digits_value_forward(s: Seq<u8>, i: int, l: int, acc: nat)
    requires
        0 <= i,
        0 <= l,
        i + l <= s.len(),
        forall|j: int| i <= j < i + l ==> is_digit(#[trigger] s[j]),
        i + l == s.len() || !is_digit(s[i + l]),
    ensures
        spec_digits_end(s, i) == i + l,
        spec_digits_value(s, i, acc) == acc * pow10(l as nat) + seq_dec_val(
            s.subrange(i, i + l),
        ),
    decreases l,
{
    if l == 0 {
        assert(s.subrange(i, i) =~= Seq::<u8>::empty());
        assert(pow10(0) == 1);
        assert(spec_digits_value(s, i, acc) == acc);
        assert(seq_dec_val(Seq::<u8>::empty()) == 0);
        assert(acc * pow10(0) == acc) by (nonlinear_arith)
            requires
                pow10(0) == 1,
        ;
    } else {
        assert(is_digit(s[i]));
        let d0 = (s[i] - 48) as nat;
        assert(d0 == s[i] - 48);
        assert(spec_digits_value(s, i, acc) == spec_digits_value(s, i + 1, acc * 10 + d0));
        lemma_digits_value_forward(s, i + 1, l - 1, acc * 10 + d0);
        let sub = s.subrange(i, i + l);
        lemma_seqval_cons(sub);
        assert(sub.subrange(1, sub.len() as int) =~= s.subrange(i + 1, i + l));
        assert(sub[0] == s[i]);
        let p = pow10((l - 1) as nat);
        let v = seq_dec_val(s.subrange(i + 1, i + l));
        assert(spec_digits_value(s, i + 1, acc * 10 + d0) == (acc * 10 + d0) * p + v);
        assert((acc * 10 + d0) * p == acc * (10 * p) + d0 * p) by (nonlinear_arith);
        assert(pow10(l as nat) == 10 * p);
        assert(seq_dec_val(sub) == d0 * p + v);
    }
}

/// Scan the end of the digit run starting at `i`.
pub fn digits_end(s: &[u8], i: usize) -> (r: usize)
    requires
        i <= s@.len(),
    ensures
        r == spec_digits_end(s@, i as int),
        i <= r <= s@.len(),
    decreases s@.len() - i,
{
    if i < s.len() && 48 <= s[i] && s[i] <= 57 {
        digits_end(s, i + 1)
    } else {
        i
    }
}

/// Numeric value of the digit run `s[i..e]`, which must hold at most 10
/// digits so that the value fits comfortably in a `u64`.
pub fn digits_value_u64(s: &[u8], i: usize, e: usize) -> (r: u64)
    requires
        i <= e <= s@.len(),
        e == spec_digits_end(s@, i as int),
        e - i <= 10,
    ensures
        r == spec_digits_value(s@, i as int, 0),
        r < pow10((e - i) as nat),
{
    proof {
        lemma_digits_end_bounds(s@, i as int);
        lemma_pow10_values();
    }
    let ghost gs = s@;
    let mut acc: u64 = 0;
    let mut j: usize = i;
    while j < e
        invariant
            i <= j <= e <= gs.len(),
            gs == s@,
            e == spec_digits_end(gs, i as int),
            e - i <= 10,
            forall|q: int| i <= q < e ==> is_digit(#[trigger] gs[q]),
            e == gs.len() || !is_digit(gs[e as int]),
            acc < pow10((j - i) as nat),
            pow10(10) == 10000000000,
            spec_digits_value(gs, i as int, 0) == spec_digits_value(gs, j as int, acc as nat),
        decreases e - j,
    {
        let d = s[j] - 48;
        proof {
            assert(pow10((j - i) as nat) <= pow10(9)) by {
                lemma_pow10_mono((j - i) as nat, 9);
            }
            lemma_pow10_values();
            assert(acc < 1000000000);
            assert(pow10((j + 1 - i) as nat) == 10 * pow10((j - i) as nat));
        }
        acc = acc * 10 + (d as u64);
        j = j + 1;
    }
    proof {
        assert(spec_digits_value(gs, j as int, acc as nat) == acc as nat);
    }
    acc
}

pub proof fn lemma_pow10_mono(a: nat, b: nat)
    requires
        a <= b,
    ensures
        pow10(a) <= pow10(b),
    decreases b,
{
    if a < b {
        lemma_pow10_mono(a, (b - 1) as nat);
        assert(pow10(b) == 10 * pow10((b - 1) as nat));
    }
}

/// Byte-wise equality of two slices.
pub fn bytes_eq(a: &[u8], b: &[u8]) -> (r: bool)
    ensures
        r == (a@ == b@),
{
    if a.len() != b.len() {
        return false;
    }
    let mut i: usize = 0;
    while i < a.len()
        invariant
            i <= a@.len(),
            a@.len() == b@.len(),
            forall|j: int| 0 <= j < i ==> a@[j] == b@[j],
        decreases a@.len() - i,
    {
        if a[i] != b[i] {
            return false;
        }
        i = i + 1;
    }
    proof {
        assert(a@ =~= b@);
    }
    true
}

/// Append a copy of `src` to `out`.
pub fn push_bytes(out: &mut Vec<u8>, src: &[u8])
    ensures
        final(out)@ == old(out)@ + src@,
{
    let mut i: usize = 0;
    while i < src.len()
        invariant
            i <= src@.len(),
            out@ == old(out)@ + src@.subrange(0, i as int),
        decreases src@.len() - i,
    {
        out.push(src[i]);
        proof {
            assert(old(out)@ + src@.subrange(0, i as int) + seq![src@[i as int]] =~= old(out)@
                + src@.subrange(0, i + 1));
        }
        i = i + 1;
    }
    proof {
        assert(src@.subrange(0, src@.len() as int) =~= src@);
    }
}

/// A fresh copy of a byte vector.
pub fn copy_bytes(v: &[u8]) -> (r: Vec<u8>)
    ensures
        r@ == v@,
{
    let mut out: Vec<u8> = Vec::new();
    push_bytes(&mut out, v);
    proof {
        assert(Seq::<u8>::empty() + v@ =~= v@);
    }
    out
}

/// The characters an ASCII byte sequence decodes to, one per byte.
pub open spec fn chars_of(b: Seq<u8>) -> Seq<char> {
    Seq::new(b.len(), |i: int| b[i] as char)
}

/// Relies on `String::from_utf8`: a buffer of ASCII bytes is valid UTF-8 and
/// decodes to exactly one char per byte, each with the byte's code point.
#[verifier::external_body]
pub fn ascii_to_string(b: &Vec<u8>) -> (r: String)
    requires
        forall|i: int| 0 <= i < b@.len() ==> b@[i] < 128,
    ensures
        r@ == chars_of(b@),
{
    String::from_utf8(b.clone()).unwrap_or_default()
}

} // verus!
