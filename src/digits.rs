use vstd::arithmetic::div_mod::{
    lemma_div_denominator, lemma_fundamental_div_mod, lemma_fundamental_div_mod_converse,
};
use vstd::arithmetic::power::pow;
use vstd::prelude::*;

verus! {

/// The number written by `s` in base 10000, least significant digit first.
pub open spec fn digits_val(s: Seq<u64>) -> nat
    decreases s.len(),
{
    if s.len() == 0 {
        0
    } else {
        s[0] as nat + 10000 * digits_val(s.drop_first())
    }
}

/// Every digit of `s` is below the base.
pub open spec fn proper_digits(s: Seq<u64>) -> bool {
    forall|j: int| 0 <= j < s.len() ==> #[trigger] s[j] < 10000
}

/// `x`, capped at the largest `u128`.
pub open spec fn cap_u128(x: nat) -> nat {
    if x > u128::MAX {
        u128::MAX as nat
    } else {
        x
    }
}

proof fn lemma_pow_step(n: nat)
    ensures
        pow(10000, n + 1) == 10000 * pow(10000, n),
        pow(10000, n) > 0,
    decreases n,
{
    reveal(pow);
    if n > 0 {
        lemma_pow_step((n - 1) as nat);
    }
    assert(pow(10000, (n + 1) as nat) == 10000 * pow(10000, n));
    assert(10000 * pow(10000, n) > 0 || pow(10000, n) <= 0) by (nonlinear_arith);
}

/// Appending a digit adds it at the next power of the base.
proof fn lemma_val_push(s: Seq<u64>, y: u64)
    ensures
        digits_val(s.push(y)) == digits_val(s) + pow(10000, s.len()) * (y as nat),
    decreases s.len(),
{
    reveal(pow);
    if s.len() == 0 {
        assert(s.push(y).drop_first() =~= Seq::<u64>::empty());
        assert(digits_val(Seq::<u64>::empty()) == 0);
        assert(pow(10000, 0) == 1);
        assert(s.push(y)[0] == y);
        assert(1 * (y as nat) == y as nat);
    } else {
        let rest = s.drop_first();
        assert(s.push(y).drop_first() =~= rest.push(y));
        assert(s.push(y)[0] == s[0]);
        assert(s.push(y).len() > 0);
        lemma_val_push(rest, y);
        lemma_pow_step(rest.len());
        let p = pow(10000, rest.len());
        let vr = digits_val(rest);
        assert(10000 * (vr + p * (y as nat)) == 10000 * vr + (10000 * p) * (y as nat)) by (nonlinear_arith);
        assert(s.len() == rest.len() + 1);
        assert(digits_val(s.push(y)) == s[0] as nat + 10000 * digits_val(rest.push(y)));
        assert(digits_val(s) == s[0] as nat + 10000 * vr);
    }
}

/// Dropping the `k` lowest digits divides by `10000^k`.
proof fn lemma_val_skip(s: Seq<u64>, k: nat)
    requires
        k <= s.len(),
        proper_digits(s),
    ensures
        digits_val(s) as int / pow(10000, k) == digits_val(s.skip(k as int)) as int,
    decreases k,
{
    reveal(pow);
    if k == 0 {
        assert(s.skip(0) =~= s);
        assert(pow(10000, 0) == 1);
    } else {
        let rest = s.drop_first();
        assert(s[0] < 10000);
        assert(proper_digits(rest)) by {
            assert forall|j: int| 0 <= j < rest.len() implies #[trigger] rest[j] < 10000 by {
                assert(rest[j] == s[j + 1]);
            }
        }
        lemma_val_skip(rest, (k - 1) as nat);
        assert(rest.skip(k - 1) =~= s.skip(k as int));
        lemma_pow_step((k - 1) as nat);
        let x = digits_val(s) as int;
        lemma_fundamental_div_mod_converse(x, 10000, digits_val(rest) as int, s[0] as int);
        lemma_div_denominator(x, 10000, pow(10000, (k - 1) as nat));
    }
}

/// Appends the base-10000 digits of `c` to `t`.
fn push_digits(t: &mut Vec<u64>, c: u128)
    requires
        proper_digits(old(t)@),
    ensures
        proper_digits(final(t)@),
        digits_val(final(t)@) == digits_val(old(t)@) + pow(10000, old(t)@.len()) * (c as nat),
{
    let mut c: u128 = c;
    let ghost c0 = c;
    proof {
        lemma_pow_step(t@.len());
    }
    while c > 0
        invariant
            proper_digits(t@),
            t@.len() >= old(t)@.len(),
            digits_val(t@) + pow(10000, t@.len()) * (c as nat) == digits_val(old(t)@) + pow(
                10000,
                old(t)@.len(),
            ) * (c0 as nat),
        decreases c,
    {
        let d: u64 = (c % 10_000) as u64;
        let ghost before = t@;
        proof {
            lemma_val_push(before, d);
            lemma_pow_step(before.len());
            lemma_fundamental_div_mod(c as int, 10000);
            let p = pow(10000, before.len());
            assert(p * (c as nat) == p * (d as nat) + (10000 * p) * ((c / 10000) as nat)) by (nonlinear_arith)
                requires
                    c as int == 10000 * (c as int / 10000) + c as int % 10000,
                    d as int == c as int % 10000,
            ;
        }
        t.push(d);
        c = c / 10_000;
    }
    assert(pow(10000, t@.len()) * 0 == 0) by (nonlinear_arith);
}

/// The digits of `s` times `v`.
fn mul_digits(s: &Vec<u64>, v: u16) -> (r: Vec<u64>)
    requires
        proper_digits(s@),
    ensures
        proper_digits(r@),
        digits_val(r@) == digits_val(s@) * (v as nat),
{
    let mut t: Vec<u64> = Vec::new();
    let mut carry: u64 = 0;
    let mut j: usize = 0;
    assert(s@.take(0) =~= Seq::<u64>::empty());
    proof {
        reveal(pow);
        assert(digits_val(Seq::<u64>::empty()) == 0);
        assert(pow(10000, 0) * 0 == 0) by (nonlinear_arith);
        assert(0 * (v as nat) == 0);
    }
    while j < s.len()
        invariant
            j <= s.len(),
            t@.len() == j,
            carry < 70000,
            proper_digits(s@),
            proper_digits(t@),
            digits_val(t@) + pow(10000, j as nat) * (carry as nat) == digits_val(s@.take(j as int)) * (v as nat),
        decreases s.len() - j,
    {
        let d = s[j];
        assert(d < 10000);
        assert((d as nat) * (v as nat) <= 9999 * 65535) by (nonlinear_arith)
            requires
                d < 10000,
                v <= 65535,
        ;
        let x: u64 = d * (v as u64) + carry;
        let digit: u64 = x % 10_000;
        let ghost before = t@;
        proof {
            lemma_val_push(before, digit);
            lemma_val_push(s@.take(j as int), d);
            assert(s@.take(j as int).push(d) =~= s@.take(j + 1));
            lemma_pow_step(j as nat);
            lemma_fundamental_div_mod(x as int, 10000);
            let p = pow(10000, j as nat);
            assert(p * (digit as nat) + (10000 * p) * ((x / 10000) as nat) == p * (carry as nat) + p * ((d as nat)
                * (v as nat))) by (nonlinear_arith)
                requires
                    x as int == 10000 * (x as int / 10000) + x as int % 10000,
                    digit as int == x as int % 10000,
                    x as int == (d as int) * (v as int) + carry as int,
            ;
            assert((digits_val(s@.take(j as int)) + p * (d as nat)) * (v as nat) == digits_val(s@.take(j as int))
                * (v as nat) + p * ((d as nat) * (v as nat))) by (nonlinear_arith);
        }
        t.push(digit);
        carry = x / 10_000;
        j = j + 1;
    }
    assert(s@.take(s.len() as int) =~= s@);
    push_digits(&mut t, carry as u128);
    t
}

/// `cap(base * product of vs / 10000^len(vs))`, computed exactly.
pub fn scale_exact(base: u128, vs: &Vec<u16>) -> (r: u128)
    ensures
        r as nat == cap_u128((((base as nat) * product(vs@)) as int / pow(10000, vs@.len())) as nat),
{
    let mut t: Vec<u64> = Vec::new();
    assert(digits_val(Seq::<u64>::empty()) == 0);
    proof {
        reveal(pow);
        assert(pow(10000, 0) == 1);
    }
    push_digits(&mut t, base);
    assert(vs@.take(0) =~= Seq::<u16>::empty());
    assert(product(Seq::<u16>::empty()) == 1);
    assert((base as nat) * 1 == base as nat);
    assert(1 * (base as nat) == base as nat);
    let mut i: usize = 0;
    while i < vs.len()
        invariant
            i <= vs.len(),
            proper_digits(t@),
            digits_val(t@) == (base as nat) * product(vs@.take(i as int)),
        decreases vs.len() - i,
    {
        let v = vs[i];
        t = mul_digits(&t, v);
        proof {
            assert(vs@.take(i + 1).drop_last() =~= vs@.take(i as int));
            assert(vs@.take(i + 1).last() == v);
            assert((base as nat) * product(vs@.take(i as int)) * (v as nat) == (base as nat) * (product(
                vs@.take(i as int),
            ) * (v as nat))) by (nonlinear_arith);
        }
        i = i + 1;
    }
    assert(vs@.take(vs.len() as int) =~= vs@);
    let k = vs.len();
    while t.len() < k
        invariant
            proper_digits(t@),
            digits_val(t@) == (base as nat) * product(vs@),
        decreases k - t.len(),
    {
        proof {
            lemma_val_push(t@, 0);
            assert(pow(10000, t@.len()) * 0 == 0) by (nonlinear_arith);
        }
        t.push(0);
    }
    proof {
        lemma_val_skip(t@, k as nat);
    }
    let mut acc: u128 = 0;
    let mut j: usize = t.len();
    assert(t@.skip(t@.len() as int) =~= Seq::<u64>::empty());
    while j > k
        invariant
            k <= j <= t.len(),
            proper_digits(t@),
            acc as nat == cap_u128(digits_val(t@.skip(j as int))),
        decreases j,
    {
        j = j - 1;
        let d = t[j];
        let ghost next = digits_val(t@.skip(j + 1));
        assert(t@.skip(j as int).drop_first() =~= t@.skip(j + 1));
        assert(t@.skip(j as int)[0] == d);
        acc = match acc.checked_mul(10_000) {
            Some(m) => match m.checked_add(d as u128) {
                Some(s) => s,
                None => u128::MAX,
            },
            None => u128::MAX,
        };
        proof {
            if next > u128::MAX {
                assert(d as nat + 10000 * next > u128::MAX) by (nonlinear_arith)
                    requires
                        next > u128::MAX,
                ;
            }
        }
    }
    acc
}

/// Product of the values of `vs`.
pub open spec fn product(vs: Seq<u16>) -> nat
    decreases vs.len(),
{
    if vs.len() == 0 {
        1
    } else {
        product(vs.drop_last()) * (vs.last() as nat)
    }
}

} // verus!
