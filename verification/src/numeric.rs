//! Exact decimal rendering of quotients, the way `{:.N}` renders a binary
//! floating-point value computed from integers.
use vstd::prelude::*;
use crate::text::{decimal, pow10, push_decimal, push_zero_padded, zero_padded};

verus! {

/// `n / d` rounded to the nearest integer, a tie going to the even neighbour.
pub open spec fn round_half_even(n: nat, d: nat) -> nat
    recommends
        d > 0,
{
    let q = n / d;
    let r = n % d;
    if 2 * r < d {
        q
    } else if 2 * r > d {
        q + 1
    } else if q % 2 == 0 {
        q
    } else {
        q + 1
    }
}

/// `n / d` written with exactly `places` digits after the point: the exact
/// quotient rounded to that many places, a tie going to the even last digit.
pub open spec fn fixed_point(n: nat, d: nat, places: nat) -> Seq<char> {
    let q = round_half_even(n * pow10(places), d);
    decimal(q / pow10(places)) + "."@ + zero_padded(q % pow10(places), places)
}

/// Powers of two.
pub open spec fn two_pow(k: nat) -> nat
    decreases k,
{
    if k == 0 {
        1
    } else {
        2 * two_pow((k - 1) as nat)
    }
}

/// The first integer that a 53-bit significand cannot hold exactly: 2^53.
pub open spec fn significand_limit() -> nat {
    9007199254740992
}

/// How many low bits of `n` fall outside a 53-bit significand.
pub open spec fn excess_bits(n: nat) -> nat
    decreases n,
{
    if n < significand_limit() {
        0
    } else {
        1 + excess_bits(n / 2)
    }
}

/// The number nearest to `n` that a 53-bit significand with a binary exponent
/// holds, a tie going to the even significand: the value an unsigned integer
/// takes when converted to a double-precision number.
pub open spec fn nearest_double(n: nat) -> nat {
    let k = excess_bits(n);
    round_half_even(n, two_pow(k)) * two_pow(k)
}

/// Rounds `n / d` to the nearest integer, a tie going to the even neighbour.
fn round_half_even_exec(n: u128, d: u128) -> (q: u128)
    requires
        d > 0,
        n < u128::MAX,
    ensures
        q == round_half_even(n as nat, d as nat),
{
    let q = n / d;
    let r = n % d;
    proof {
        assert(q * d <= n) by (nonlinear_arith)
            requires
                q == n / d,
                d > 0,
        ;
        if d == 1 {
            assert(q == n);
        } else {
            assert(q * 2 <= q * d) by (nonlinear_arith)
                requires
                    d >= 2,
            ;
        }
    }
    if r < d - r {
        q
    } else if r > d - r {
        q + 1
    } else if q % 2 == 0 {
        q
    } else {
        q + 1
    }
}

/// Appends `n / d` written with `places` (1 or 2) digits after the point.
pub fn push_fixed_point(out: &mut String, n: u128, d: u128, places: u8)
    requires
        d > 0,
        places == 1 || places == 2,
        n <= 0x4_0000_0000_0000_0000,
    ensures
        final(out)@ == old(out)@ + fixed_point(n as nat, d as nat, places as nat),
{
    let scale: u128 = if places == 1 {
        10
    } else {
        100
    };
    proof {
        assert(pow10(0) == 1);
        assert(pow10(1) == 10);
        assert(pow10(2) == 100);
        assert(scale == pow10(places as nat));
    }
    let q = round_half_even_exec(n * scale, d);
    push_decimal(out, q / scale);
    proof {
        reveal_strlit(".");
    }
    out.append(".");
    push_zero_padded(out, q % scale, places as usize);
    proof {
        assert(final(out)@ =~= old(out)@ + fixed_point(n as nat, d as nat, places as nat));
    }
}

/// The value `b` takes as a double-precision number.
pub fn nearest_double_exec(b: u64) -> (r: u128)
    ensures
        r == nearest_double(b as nat),
        r <= 0x1_0000_0000_0000_1000,
{
    let limit: u128 = 9007199254740992;
    let mut m: u128 = b as u128;
    let mut pw: u128 = 1;
    let ghost mut k: nat = 0;
    proof {
        assert(two_pow(0) == 1);
    }
    while m >= limit
        invariant
            limit == significand_limit(),
            pw == two_pow(k),
            pw >= 1,
            m == (b as nat) / (pw as nat),
            excess_bits(b as nat) == k + excess_bits(m as nat),
            pw <= 4096,
        decreases m,
    {
        proof {
            assert(pw * m <= b) by (nonlinear_arith)
                requires
                    m == (b as nat) / (pw as nat),
                    pw >= 1,
            ;
            assert(pw * limit <= pw * m) by (nonlinear_arith)
                requires
                    m >= limit,
                    pw >= 1,
            ;
            assert(pw < 2048);
            vstd::arithmetic::div_mod::lemma_div_denominator(b as int, pw as int, 2);
        }
        m = m / 2;
        pw = pw * 2;
        proof {
            k = k + 1;
        }
    }
    let q = round_half_even_exec(b as u128, pw);
    proof {
        assert(q <= m + 1);
        assert(m * pw <= b) by (nonlinear_arith)
            requires
                m == (b as nat) / (pw as nat),
                pw >= 1,
        ;
        assert(q * pw <= m * pw + pw) by (nonlinear_arith)
            requires
                q <= m + 1,
        ;
    }
    q * pw
}

} // verus!
