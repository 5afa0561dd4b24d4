//! Double-precision numbers, read from their bits.

use vstd::prelude::*;

verus! {

/// The eleven bits of the exponent.
pub open spec fn exponent(bits: u64) -> nat {
    ((bits / 0x10_0000_0000_0000) % 2048) as nat
}

/// The fifty-two bits of the fraction.
pub open spec fn fraction(bits: u64) -> nat {
    (bits % 0x10_0000_0000_0000) as nat
}

/// Whether the sign bit is set.
pub open spec fn sign(bits: u64) -> bool {
    bits >= 0x8000_0000_0000_0000
}

/// Whether the bits stand for a number, not for an infinity or for no number.
pub open spec fn is_finite(bits: u64) -> bool {
    exponent(bits) != 2047
}

/// Whether the bits stand for zero, with either sign.
pub open spec fn is_zero(bits: u64) -> bool {
    exponent(bits) == 0 && fraction(bits) == 0
}

/// A finite number's magnitude is its significand times two to the power of `scale`.
pub open spec fn significand(bits: u64) -> nat {
    if exponent(bits) == 0 {
        fraction(bits)
    } else {
        fraction(bits) + 0x10_0000_0000_0000
    }
}

/// A finite number's magnitude is its significand times two to the power of `scale`.
pub open spec fn scale(bits: u64) -> int {
    if exponent(bits) == 0 {
        -1074
    } else {
        exponent(bits) - 1075
    }
}

/// A finite number's magnitude, rounded down.
pub open spec fn whole(bits: u64) -> nat {
    if scale(bits) >= 0 {
        significand(bits) * vstd::arithmetic::power2::pow2(scale(bits) as nat)
    } else {
        significand(bits) / vstd::arithmetic::power2::pow2((-scale(bits)) as nat)
    }
}

/// The whole part of a finite number that is not negative, at most `u64::MAX`.
pub open spec fn whole_part(bits: u64) -> Option<u64> {
    if is_finite(bits) && (!sign(bits) || is_zero(bits)) {
        if whole(bits) <= u64::MAX {
            Some(whole(bits) as u64)
        } else {
            Some(u64::MAX)
        }
    } else {
        None
    }
}

/// The whole part of a finite number that is not negative, at most `u64::MAX`; `None` for an
/// infinity, for no number and for a number below zero.
pub fn to_whole_part(bits: u64) -> (r: Option<u64>)
    ensures
        r == whole_part(bits),
{
    let e: u64 = (bits / 0x10_0000_0000_0000) % 2048;
    let f: u64 = bits % 0x10_0000_0000_0000;
    if e == 2047 {
        return None;
    }
    if bits >= 0x8000_0000_0000_0000 && !(e == 0 && f == 0) {
        return None;
    }
    if e < 1023 {
        proof {
            lemma_below_one(bits);
        }
        return Some(0);
    }
    let m: u64 = f + 0x10_0000_0000_0000;
    if e < 1075 {
        let down: u64 = 1075 - e;
        proof {
            vstd::bits::lemma_u64_shr_is_div(m, down);
        }
        return Some(m >> down);
    }
    let up: u64 = e - 1075;
    proof {
        lemma_scaled_up(bits);
    }
    if up <= 11 {
        proof {
            vstd::bits::lemma_u64_shl_is_mul(m, up);
        }
        return Some(m << up);
    }
    Some(u64::MAX)
}

/// A number whose exponent is below the bias has no whole part.
proof fn lemma_below_one(bits: u64)
    requires
        exponent(bits) < 1023,
    ensures
        whole(bits) == 0,
{
    let down = (-scale(bits)) as nat;
    vstd::arithmetic::power2::lemma2_to64_rest();
    if down > 53 {
        vstd::arithmetic::power2::lemma_pow2_strictly_increases(53, down);
    }
    vstd::arithmetic::div_mod::lemma_basic_div(
        significand(bits) as int,
        vstd::arithmetic::power2::pow2(down) as int,
    );
}

/// A significand with its leading bit fits in `u64` when it is shifted up by eleven places, and
/// by no more.
proof fn lemma_scaled_up(bits: u64)
    requires
        exponent(bits) >= 1075,
    ensures
        scale(bits) <= 11 ==> whole(bits) <= u64::MAX,
        scale(bits) > 11 ==> whole(bits) > u64::MAX,
{
    let up = scale(bits) as nat;
    let p = vstd::arithmetic::power2::pow2(up);
    vstd::arithmetic::power2::lemma2_to64();
    if up <= 11 {
        if up < 11 {
            vstd::arithmetic::power2::lemma_pow2_strictly_increases(up, 11);
        }
        vstd::arithmetic::mul::lemma_mul_upper_bound(
            significand(bits) as int,
            0x1f_ffff_ffff_ffff,
            p as int,
            2048,
        );
    } else {
        if up > 12 {
            vstd::arithmetic::power2::lemma_pow2_strictly_increases(12, up);
        }
        vstd::arithmetic::mul::lemma_mul_inequality(4096, p as int, significand(bits) as int);
        vstd::arithmetic::mul::lemma_mul_is_commutative(p as int, significand(bits) as int);
    }
}

/// The whole part of a number is the number rounded down: a number with a fraction lies between its
/// whole part and the next number, and one without is its whole part, as far as that can be counted.
/// Infinities, what is no number, and numbers below zero have none. The number is given by its
/// sign, its exponent and its fraction, as they stand in the bits.
pub proof fn law_the_whole_part_is_the_number_rounded_down(
    bits: u64,
    negative: bool,
    power: nat,
    rest: nat,
    r: Option<u64>,
)
    requires
        power < 2048,
        rest < 0x10_0000_0000_0000,
        bits == (if negative {
            0x8000_0000_0000_0000int
        } else {
            0int
        }) + power * 0x10_0000_0000_0000 + rest,
        call_ensures(to_whole_part, (bits,), r),
    ensures
        power == 2047 ==> r is None,
        negative && (power > 0 || rest > 0) ==> r is None,
        power == 0 && rest == 0 ==> r == Some(0u64),
        !negative && power < 1023 ==> r == Some(0u64),
        !negative && 1023 <= power <= 1075 ==> (r matches Some(n) && n
            * vstd::arithmetic::power2::pow2((1075 - power) as nat) <= rest + 0x10_0000_0000_0000 < (
        n + 1) * vstd::arithmetic::power2::pow2((1075 - power) as nat)),
        !negative && 1075 <= power < 2047 ==> (r matches Some(n) && ({
            let whole = (rest + 0x10_0000_0000_0000) * vstd::arithmetic::power2::pow2(
                (power - 1075) as nat,
            );
            n == whole || whole > u64::MAX && n == u64::MAX
        })),
{
    assert(exponent(bits) == power);
    assert(fraction(bits) == rest);
    assert(sign(bits) == negative);
    if power < 1023 && !negative {
        lemma_below_one(bits);
    }
    vstd::arithmetic::power2::lemma2_to64();
    if 1023 <= power < 1075 && !negative {
        let by = vstd::arithmetic::power2::pow2((1075 - power) as nat) as int;
        let m = rest + 0x10_0000_0000_0000;
        vstd::arithmetic::power2::lemma_pow2_pos((1075 - power) as nat);
        vstd::arithmetic::div_mod::lemma_fundamental_div_mod(m as int, by);
        let n = m as int / by;
        vstd::arithmetic::mul::lemma_mul_is_commutative(by, n);
        vstd::arithmetic::mul::lemma_mul_is_distributive_add_other_way(by, n, 1);
        assert(n <= m) by {
            vstd::arithmetic::div_mod::lemma_div_is_ordered_by_denominator(m as int, 1, by);
        }
        assert(whole(bits) == n);
    }
    if power == 1075 && !negative {
        let m = rest + 0x10_0000_0000_0000;
        assert(whole(bits) == m * 1);
    }
    if power == 0 && rest == 0 {
        lemma_below_one(bits);
    }
}

} // verus!
