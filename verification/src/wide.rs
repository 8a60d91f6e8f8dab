//! Exact arithmetic on numbers wider than 128 bits.
//!
//! A wide number is a little-endian sequence of 64-bit limbs. Products of up to
//! three `u128` factors are formed limb by limb, and divided by a `u128` with a
//! bit-serial long division whose quotient must fit in `u128`.
use vstd::prelude::*;
use vstd::arithmetic::div_mod::{
    lemma_fundamental_div_mod, lemma_fundamental_div_mod_converse, lemma_div_is_ordered,
};
use vstd::arithmetic::mul::{lemma_mul_inequality, lemma_mul_is_distributive_add};

verus! {

/// The base of one limb, 2^64.
pub open spec fn limb_base() -> int {
    0x1_0000_0000_0000_0000int
}

/// `limb_base()` raised to the power `k`.
pub open spec fn base_pow(k: nat) -> int
    decreases k,
{
    if k == 0 {
        1
    } else {
        limb_base() * base_pow((k - 1) as nat)
    }
}

/// 2 raised to the power `k`.
pub open spec fn two_pow(k: nat) -> int
    decreases k,
{
    if k == 0 {
        1
    } else {
        2 * two_pow((k - 1) as nat)
    }
}

/// The number that little-endian limbs stand for.
pub open spec fn limbs_value(s: Seq<u64>) -> int
    decreases s.len(),
{
    if s.len() == 0 {
        0
    } else {
        limbs_value(s.drop_last()) + (s.last() as int) * base_pow((s.len() - 1) as nat)
    }
}

/// The number that bits stand for, the most significant bit first.
pub open spec fn bits_value(s: Seq<bool>) -> int
    decreases s.len(),
{
    if s.len() == 0 {
        0
    } else {
        2 * bits_value(s.drop_last()) + if s.last() { 1int } else { 0int }
    }
}

proof fn lemma_base_pow_adds(a: nat, b: nat)
    ensures
        base_pow(a) * base_pow(b) == base_pow(a + b),
    decreases a,
{
    if a > 0 {
        lemma_base_pow_adds((a - 1) as nat, b);
        assert(base_pow(a + b) == limb_base() * base_pow((a - 1 + b) as nat));
        assert(base_pow(a) * base_pow(b) == limb_base() * (base_pow((a - 1) as nat) * base_pow(b)))
            by (nonlinear_arith)
            requires
                base_pow(a) == limb_base() * base_pow((a - 1) as nat),
        ;
    }
}

proof fn lemma_base_pow_positive(a: nat)
    ensures
        base_pow(a) >= 1,
    decreases a,
{
    if a > 0 {
        lemma_base_pow_positive((a - 1) as nat);
    }
}

proof fn lemma_two_pow_64()
    ensures
        two_pow(64) == limb_base(),
{
    reveal_with_fuel(two_pow, 65);
}

proof fn lemma_limbs_push(s: Seq<u64>, x: u64)
    ensures
        limbs_value(s.push(x)) == limbs_value(s) + x * base_pow(s.len()),
{
    assert(s.push(x).drop_last() =~= s);
}

proof fn lemma_limbs_prefix_step(s: Seq<u64>, i: int)
    requires
        0 <= i < s.len(),
    ensures
        limbs_value(s.subrange(0, i + 1)) == limbs_value(s.subrange(0, i)) + s[i] * base_pow(
            i as nat,
        ),
{
    assert(s.subrange(0, i + 1).drop_last() =~= s.subrange(0, i));
}

proof fn lemma_limbs_bound(s: Seq<u64>)
    ensures
        0 <= limbs_value(s) < base_pow(s.len()),
    decreases s.len(),
{
    if s.len() > 0 {
        let k = (s.len() - 1) as nat;
        lemma_limbs_bound(s.drop_last());
        lemma_base_pow_positive(k);
        assert(0 <= limbs_value(s.drop_last()) + s.last() * base_pow(k) < base_pow(s.len()))
            by (nonlinear_arith)
            requires
                0 <= limbs_value(s.drop_last()) < base_pow(k),
                base_pow(k) >= 1,
                s.last() < limb_base(),
                base_pow(s.len()) == limb_base() * base_pow(k),
        ;
    }
}

/// A number's lowest limb, and the rest shifted down by one limb.
proof fn lemma_limbs_cons(s: Seq<u64>)
    requires
        s.len() >= 1,
    ensures
        limbs_value(s) == s[0] + limb_base() * limbs_value(s.drop_first()),
    decreases s.len(),
{
    if s.len() == 1 {
        assert(s.drop_first() =~= Seq::<u64>::empty());
        assert(s.drop_last() =~= Seq::<u64>::empty());
    } else {
        let dl = s.drop_last();
        let n = s.len();
        lemma_limbs_cons(dl);
        assert(s.drop_first().drop_last() =~= dl.drop_first());
        let x = limbs_value(dl.drop_first());
        let bp = base_pow((n - 2) as nat);
        assert(dl[0] == s[0]);
        assert(s.drop_first().last() == s.last());
        assert(limbs_value(s.drop_first()) == x + s.last() * bp);
        assert(base_pow((n - 1) as nat) == limb_base() * bp);
        assert(limb_base() * (x + s.last() * bp) == limb_base() * x + s.last() * (limb_base()
            * bp)) by (nonlinear_arith);
    }
}

/// A number is its low `k` limbs plus its high limbs shifted up by `k` limbs.
proof fn lemma_limbs_split(s: Seq<u64>, k: int)
    requires
        0 <= k <= s.len(),
    ensures
        limbs_value(s) == limbs_value(s.subrange(0, k)) + base_pow(k as nat) * limbs_value(
            s.subrange(k, s.len() as int),
        ),
    decreases s.len(),
{
    if k == s.len() {
        assert(s.subrange(0, k) =~= s);
        assert(s.subrange(k, s.len() as int) =~= Seq::<u64>::empty());
    } else {
        let n = s.len() as int;
        let dl = s.drop_last();
        lemma_limbs_split(dl, k);
        assert(dl.subrange(0, k) =~= s.subrange(0, k));
        let hi = s.subrange(k, n);
        assert(hi.drop_last() =~= dl.subrange(k, n - 1));
        assert(hi.last() == s.last());
        assert(limbs_value(hi) == limbs_value(dl.subrange(k, n - 1)) + (s.last() as int) * base_pow((n - 1 - k) as nat));
        lemma_base_pow_adds(k as nat, (n - 1 - k) as nat);
        let a = limbs_value(dl.subrange(k, n - 1));
        let bk = base_pow(k as nat);
        let bh = base_pow((n - 1 - k) as nat);
        assert(bk * (a + s.last() * bh) == bk * a + s.last() * (bk * bh)) by (nonlinear_arith);
    }
}

proof fn lemma_bits_push(s: Seq<bool>, b: bool)
    ensures
        bits_value(s.push(b)) == 2 * bits_value(s) + if b { 1int } else { 0int },
{
    assert(s.push(b).drop_last() =~= s);
}

proof fn lemma_bits_nonneg(s: Seq<bool>)
    ensures
        bits_value(s) >= 0,
    decreases s.len(),
{
    if s.len() > 0 {
        lemma_bits_nonneg(s.drop_last());
    }
}

proof fn lemma_bits_prefix_le(s: Seq<bool>, i: int)
    requires
        0 <= i <= s.len(),
    ensures
        bits_value(s.subrange(0, i)) <= bits_value(s),
    decreases s.len() - i,
{
    if i < s.len() {
        lemma_bits_prefix_le(s, i + 1);
        assert(s.subrange(0, i + 1).drop_last() =~= s.subrange(0, i));
        lemma_bits_nonneg(s.subrange(0, i));
    } else {
        assert(s.subrange(0, i) =~= s);
    }
}

/// Splits a `u128` into its two 64-bit limbs.
pub fn u128_to_limbs(x: u128) -> (res: Vec<u64>)
    ensures
        res@.len() == 2,
        limbs_value(res@) == x,
{
    let lo = (x % 0x1_0000_0000_0000_0000u128) as u64;
    let hi = (x / 0x1_0000_0000_0000_0000u128) as u64;
    let mut res: Vec<u64> = Vec::new();
    res.push(lo);
    res.push(hi);
    proof {
        lemma_fundamental_div_mod(x as int, limb_base() as int);
        lemma_limbs_push(Seq::<u64>::empty(), lo);
        assert(Seq::<u64>::empty().push(lo).push(hi) =~= res@);
        lemma_limbs_push(Seq::<u64>::empty().push(lo), hi);
        assert(base_pow(0) == 1);
        assert(base_pow(1) == limb_base() * base_pow(0));
        assert(limbs_value(Seq::<u64>::empty()) == 0);
    }
    res
}

/// Multiplies a wide number by a 64-bit factor.
pub fn mul_small(a: &Vec<u64>, m: u64) -> (res: Vec<u64>)
    requires
        a@.len() < usize::MAX,
    ensures
        res@.len() == a@.len() + 1,
        limbs_value(res@) == limbs_value(a@) * m,
{
    let mut out: Vec<u64> = Vec::new();
    let mut carry: u64 = 0;
    let mut i: usize = 0;
    proof {
        assert(a@.subrange(0, 0) =~= Seq::<u64>::empty());
        assert(out@ =~= Seq::<u64>::empty());
    }
    while i < a.len()
        invariant
            i <= a@.len(),
            out@.len() == i,
            limbs_value(out@) + carry * base_pow(i as nat) == limbs_value(a@.subrange(0, i as int))
                * m,
        decreases a@.len() - i,
    {
        let ai = a[i];
        assert(ai * m + carry <= 0xffff_ffff_ffff_ffff_0000_0000_0000_0000u128) by (nonlinear_arith)
            requires
                ai <= 0xffff_ffff_ffff_ffffu64,
                m <= 0xffff_ffff_ffff_ffffu64,
                carry <= 0xffff_ffff_ffff_ffffu64,
        ;
        let t: u128 = (ai as u128) * (m as u128) + (carry as u128);
        let lo = (t % 0x1_0000_0000_0000_0000u128) as u64;
        let hi = (t / 0x1_0000_0000_0000_0000u128) as u64;
        proof {
            lemma_fundamental_div_mod(t as int, limb_base() as int);
            lemma_limbs_push(out@, lo);
            lemma_limbs_prefix_step(a@, i as int);
            let bp = base_pow(i as nat);
            let v = limbs_value(a@.subrange(0, i as int));
            assert(limbs_value(out@) + lo * bp + hi * (limb_base() * bp) == (v + ai * bp) * m)
                by (nonlinear_arith)
                requires
                    limbs_value(out@) + carry * bp == v * m,
                    t == lo + limb_base() * hi,
                    t == ai * m + carry,
            ;
        }
        out.push(lo);
        carry = hi;
        i = i + 1;
    }
    proof {
        assert(a@.subrange(0, i as int) =~= a@);
        lemma_limbs_push(out@, carry);
    }
    out.push(carry);
    out
}

/// Adds two wide numbers of the same number of limbs.
pub fn add_limbs(a: &Vec<u64>, b: &Vec<u64>) -> (res: Vec<u64>)
    requires
        a@.len() == b@.len(),
        a@.len() < usize::MAX,
    ensures
        res@.len() == a@.len() + 1,
        limbs_value(res@) == limbs_value(a@) + limbs_value(b@),
{
    let mut out: Vec<u64> = Vec::new();
    let mut carry: u64 = 0;
    let mut i: usize = 0;
    proof {
        assert(a@.subrange(0, 0) =~= Seq::<u64>::empty());
        assert(out@ =~= Seq::<u64>::empty());
    }
    while i < a.len()
        invariant
            i <= a@.len(),
            a@.len() == b@.len(),
            out@.len() == i,
            carry <= 1,
            limbs_value(out@) + carry * base_pow(i as nat) == limbs_value(a@.subrange(0, i as int))
                + limbs_value(b@.subrange(0, i as int)),
        decreases a@.len() - i,
    {
        let t: u128 = (a[i] as u128) + (b[i] as u128) + (carry as u128);
        let lo = (t % 0x1_0000_0000_0000_0000u128) as u64;
        let hi = (t / 0x1_0000_0000_0000_0000u128) as u64;
        proof {
            lemma_fundamental_div_mod(t as int, limb_base() as int);
            lemma_limbs_push(out@, lo);
            lemma_limbs_prefix_step(a@, i as int);
            lemma_limbs_prefix_step(b@, i as int);
            let bp = base_pow(i as nat);
            assert(lo * bp + hi * (limb_base() * bp) == (a@[i as int] + b@[i as int] + carry) * bp)
                by (nonlinear_arith)
                requires
                    t == lo + limb_base() * hi,
                    t == a@[i as int] + b@[i as int] + carry,
            ;
            assert((a@[i as int] + b@[i as int] + carry) * bp == a@[i as int] * bp + b@[i as int]
                * bp + carry * bp) by (nonlinear_arith);
        }
        out.push(lo);
        carry = hi;
        i = i + 1;
    }
    proof {
        assert(a@.subrange(0, i as int) =~= a@);
        assert(b@.subrange(0, i as int) =~= b@);
        lemma_limbs_push(out@, carry);
    }
    out.push(carry);
    out
}

/// Multiplies a wide number by a 128-bit factor.
pub fn mul_u128(a: &Vec<u64>, m: u128) -> (res: Vec<u64>)
    requires
        a@.len() + 3 < usize::MAX,
    ensures
        res@.len() == a@.len() + 3,
        limbs_value(res@) == limbs_value(a@) * m,
{
    let m_lo = (m % 0x1_0000_0000_0000_0000u128) as u64;
    let m_hi = (m / 0x1_0000_0000_0000_0000u128) as u64;
    let mut x = mul_small(a, m_lo);
    let y = mul_small(a, m_hi);
    proof {
        lemma_limbs_push(x@, 0);
    }
    x.push(0);
    let mut y_shifted: Vec<u64> = Vec::new();
    y_shifted.push(0);
    let mut j: usize = 0;
    while j < y.len()
        invariant
            j <= y@.len(),
            y_shifted@ == seq![0u64] + y@.subrange(0, j as int),
        decreases y@.len() - j,
    {
        y_shifted.push(y[j]);
        j = j + 1;
        assert(y_shifted@ =~= seq![0u64] + y@.subrange(0, j as int));
    }
    proof {
        assert(y@.subrange(0, j as int) =~= y@);
        assert(y_shifted@.drop_first() =~= y@);
        lemma_limbs_cons(y_shifted@);
        lemma_fundamental_div_mod(m as int, limb_base() as int);
        let va = limbs_value(a@);
        assert(va * m_lo + limb_base() * (va * m_hi) == va * m) by (nonlinear_arith)
            requires
                m == limb_base() * m_hi + m_lo,
        ;
    }
    add_limbs(&x, &y_shifted)
}

/// The bits of a wide number, the most significant first.
pub fn limbs_to_bits(a: &Vec<u64>) -> (res: Vec<bool>)
    ensures
        bits_value(res@) == limbs_value(a@),
        res@.len() == 64 * a@.len(),
{
    let mut bits: Vec<bool> = Vec::new();
    let mut j: usize = a.len();
    proof {
        assert(a@.subrange(j as int, a@.len() as int) =~= Seq::<u64>::empty());
    }
    while j > 0
        invariant
            j <= a@.len(),
            bits@.len() == 64 * (a@.len() - j),
            bits_value(bits@) == limbs_value(a@.subrange(j as int, a@.len() as int)),
        decreases j,
    {
        let x = a[j - 1];
        let ghost start = bits_value(bits@);
        let ghost start_len = bits@.len();
        let mut y: u128 = x as u128;
        let mut pp: u128 = 0x1_0000_0000_0000_0000u128;
        let mut v: u128 = 0;
        let mut t: usize = 0;
        let ghost mut k: nat = 64;
        proof {
            lemma_two_pow_64();
            assert(two_pow(0) == 1);
        }
        while t < 64
            invariant
                t <= 64,
                k == 64 - t,
                pp == two_pow(k),
                v * pp + y == x,
                y < pp,
                bits@.len() == start_len + t,
                bits_value(bits@) == start * two_pow(t as nat) + v,
                v <= x,
                pp >= 1,
            decreases 64 - t,
        {
            let half = pp / 2;
            proof {
                assert(two_pow(k) == 2 * two_pow((k - 1) as nat));
                assert(half == two_pow((k - 1) as nat));
                lemma_fundamental_div_mod(y as int, half as int);
            }
            let b = y / half;
            let rest = y % half;
            proof {
                assert(b <= 1) by (nonlinear_arith)
                    requires
                        y < 2 * half,
                        b == y / half,
                        half > 0,
                        y == half * b + rest,
                        rest >= 0,
                ;
                assert(v * pp + y == (2 * v + b) * half + rest) by (nonlinear_arith)
                    requires
                        pp == 2 * half,
                        y == half * b + rest,
                ;
                assert((2 * v + b) <= x) by (nonlinear_arith)
                    requires
                        x == (2 * v + b) * half + rest,
                        half >= 1,
                        rest >= 0,
                ;
                lemma_bits_push(bits@, b == 1);
                assert(two_pow((t + 1) as nat) == 2 * two_pow(t as nat));
                assert(start * two_pow((t + 1) as nat) == 2 * (start * two_pow(t as nat)))
                    by (nonlinear_arith)
                    requires
                        two_pow((t + 1) as nat) == 2 * two_pow(t as nat),
                ;
            }
            bits.push(b == 1);
            v = 2 * v + b;
            y = rest;
            pp = half;
            t = t + 1;
            proof {
                k = (k - 1) as nat;
            }
        }
        proof {
            assert(two_pow(0) == 1);
            assert(y == 0);
            assert(v == x);
            lemma_two_pow_64();
            let n = a@.len() as int;
            let s = a@.subrange(j - 1, n);
            lemma_limbs_cons(s);
            assert(s.drop_first() =~= a@.subrange(j as int, n));
        }
        j = j - 1;
    }
    proof {
        assert(a@.subrange(0, a@.len() as int) =~= a@);
    }
    bits
}

/// Long division of a number given by its bits by a positive `u128`.
/// Returns the quotient and the remainder, or `None` when the quotient does
/// not fit in `u128`.
pub fn div_bits(bits: &Vec<bool>, d: u128) -> (res: Option<(u128, u128)>)
    requires
        d > 0,
    ensures
        res is Some <==> bits_value(bits@) / (d as int) <= u128::MAX,
        res matches Some(qr) ==> qr.0 == bits_value(bits@) / (d as int) && qr.1 == bits_value(
            bits@,
        ) % (d as int),
{
    let mut q: u128 = 0;
    let mut r: u128 = 0;
    let mut i: usize = 0;
    while i < bits.len()
        invariant
            d > 0,
            i <= bits@.len(),
            r < d,
            q * d + r == bits_value(bits@.subrange(0, i as int)),
        decreases bits@.len() - i,
    {
        let bit: u128 = if bits[i] {
            1
        } else {
            0
        };
        let ghost prev = bits_value(bits@.subrange(0, i as int));
        proof {
            assert(bits@.subrange(0, i + 1).drop_last() =~= bits@.subrange(0, i as int));
            lemma_bits_prefix_le(bits@, i + 1);
        }
        let ghost next = bits_value(bits@.subrange(0, i + 1));
        assert(next == 2 * prev + bit);
        let mut nq_bit: u128 = 0;
        let mut nr: u128 = 0;
        if r >= d - r {
            nq_bit = 1;
            nr = (r - (d - r)) + bit;
        } else {
            let t = 2 * r + bit;
            if t >= d {
                nq_bit = 1;
                nr = t - d;
            } else {
                nr = t;
            }
        }
        assert(nr < d);
        proof {
            assert(nq_bit * d + nr == 2 * r + bit);
            assert((2 * q + nq_bit) * d + nr == next) by (nonlinear_arith)
                requires
                    q * d + r == prev,
                    nq_bit * d + nr == 2 * r + bit,
                    next == 2 * prev + bit,
            ;
            lemma_fundamental_div_mod_converse(next, d as int, 2 * q + nq_bit, nr as int);
            lemma_div_is_ordered(next, bits_value(bits@), d as int);
        }
        if q > (u128::MAX - nq_bit) / 2 {
            return None;
        }
        q = 2 * q + nq_bit;
        r = nr;
        i = i + 1;
    }
    proof {
        assert(bits@.subrange(0, i as int) =~= bits@);
        lemma_fundamental_div_mod_converse(bits_value(bits@), d as int, q as int, r as int);
    }
    Some((q, r))
}

/// Compares two wide numbers of the same number of limbs: -1, 0 or 1 as the
/// first is less than, equal to or greater than the second.
pub fn compare_limbs(a: &Vec<u64>, b: &Vec<u64>) -> (res: i8)
    requires
        a@.len() == b@.len(),
    ensures
        res == 0 <==> limbs_value(a@) == limbs_value(b@),
        res == -1 <==> limbs_value(a@) < limbs_value(b@),
        res == 1 <==> limbs_value(a@) > limbs_value(b@),
{
    let n = a.len();
    let mut i: usize = n;
    while i > 0
        invariant
            i <= n,
            n == a@.len(),
            a@.len() == b@.len(),
            a@.subrange(i as int, n as int) == b@.subrange(i as int, n as int),
        decreases i,
    {
        if a[i - 1] != b[i - 1] {
            proof {
                lemma_limbs_split(a@, i as int);
                lemma_limbs_split(b@, i as int);
                let ga = a@.subrange(0, i as int);
                let gb = b@.subrange(0, i as int);
                lemma_limbs_prefix_step(a@, i - 1);
                lemma_limbs_prefix_step(b@, i - 1);
                assert(a@.subrange(0, i as int) =~= ga);
                lemma_limbs_bound(a@.subrange(0, i - 1));
                lemma_limbs_bound(b@.subrange(0, i - 1));
                let bp = base_pow((i - 1) as nat);
                let x = a@[i - 1];
                let y = b@[i - 1];
                if x < y {
                    lemma_mul_inequality(x + 1, y as int, bp as int);
                    assert((x + 1) * bp == x * bp + bp) by (nonlinear_arith);
                } else {
                    lemma_mul_inequality(y + 1, x as int, bp as int);
                    assert((y + 1) * bp == y * bp + bp) by (nonlinear_arith);
                }
            }
            if a[i - 1] < b[i - 1] {
                return -1;
            } else {
                return 1;
            }
        }
        proof {
            assert(a@.subrange(i - 1, n as int) =~= seq![a@[i - 1]] + a@.subrange(
                i as int,
                n as int,
            ));
            assert(b@.subrange(i - 1, n as int) =~= seq![b@[i - 1]] + b@.subrange(
                i as int,
                n as int,
            ));
        }
        i = i - 1;
    }
    proof {
        assert(a@ =~= a@.subrange(0, n as int));
        assert(b@ =~= b@.subrange(0, n as int));
    }
    0
}

/// `x * y * z / d`, computed exactly, or `None` when it does not fit in
/// `u128`.
pub fn mul3_div(x: u128, y: u128, z: u128, d: u128) -> (res: Option<u128>)
    requires
        d > 0,
    ensures
        res is Some <==> x * y * z / (d as int) <= u128::MAX,
        res matches Some(q) ==> q == x * y * z / (d as int),
{
    let l0 = u128_to_limbs(x);
    let l1 = mul_u128(&l0, y);
    let l2 = mul_u128(&l1, z);
    let bits = limbs_to_bits(&l2);
    match div_bits(&bits, d) {
        Some((q, _r)) => Some(q),
        None => None,
    }
}

/// `x * y / d`, computed exactly, or `None` when it does not fit in `u128`.
pub fn mul2_div(x: u128, y: u128, d: u128) -> (res: Option<u128>)
    requires
        d > 0,
    ensures
        res is Some <==> x * y / (d as int) <= u128::MAX,
        res matches Some(q) ==> q == x * y / (d as int),
{
    let l0 = u128_to_limbs(x);
    let l1 = mul_u128(&l0, y);
    let bits = limbs_to_bits(&l1);
    match div_bits(&bits, d) {
        Some((q, _r)) => Some(q),
        None => None,
    }
}

/// Compares `a * b` with `c * e`: -1, 0 or 1 as the first product is less
/// than, equal to or greater than the second.
pub fn compare_products(a: u128, b: u128, c: u128, e: u128) -> (res: i8)
    ensures
        res == 0 <==> a * b == c * e,
        res == -1 <==> a * b < c * e,
        res == 1 <==> a * b > c * e,
{
    let la = u128_to_limbs(a);
    let lab = mul_u128(&la, b);
    let lc = u128_to_limbs(c);
    let lce = mul_u128(&lc, e);
    compare_limbs(&lab, &lce)
}

} // verus!
