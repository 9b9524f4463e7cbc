use vstd::prelude::*;
use vstd::arithmetic::power2::{
    lemma2_to64, lemma2_to64_rest, lemma_pow2_adds, lemma_pow2_pos, lemma_pow2_strictly_increases,
    lemma_pow2_unfold, pow2,
};

verus! {

// A Lua number is an IEEE-754 binary64 value. The library holds it as its 64-bit pattern
// and works on the pattern with integer arithmetic: the sign is the top bit, the biased
// exponent the next 11 bits, the fraction the low 52 bits.

/// 2^63: the sign bit of a pattern.
pub const SIGN_BIT: u64 = 0x8000_0000_0000_0000;

/// 2^52: the hidden bit of a significand, and the weight of the exponent field.
pub const HIDDEN_BIT: u64 = 0x0010_0000_0000_0000;

/// The pattern of positive infinity; every larger magnitude is a NaN.
pub const INFINITY_BITS: u64 = 0x7ff0_0000_0000_0000;

/// The pattern without its sign bit.
pub open spec fn magnitude(bits: u64) -> int {
    bits as int % 0x8000_0000_0000_0000
}

/// The sign bit is set.
pub open spec fn negative(bits: u64) -> bool {
    bits >= 0x8000_0000_0000_0000
}

/// The pattern is a NaN: all exponent bits set and a fraction that is not zero.
pub open spec fn nan(bits: u64) -> bool {
    magnitude(bits) > 0x7ff0_0000_0000_0000
}

/// An integer that orders the patterns that are no NaN as IEEE-754 orders their values:
/// magnitudes grow with the pattern, negative values mirror them, both zeros give 0.
pub open spec fn order_key(bits: u64) -> int {
    if negative(bits) {
        -magnitude(bits)
    } else {
        magnitude(bits)
    }
}

/// IEEE-754 equality: no NaN equals anything, the two zeros are equal.
pub open spec fn number_eq(a: u64, b: u64) -> bool {
    !nan(a) && !nan(b) && order_key(a) == order_key(b)
}

/// IEEE-754 `<`: false as soon as one side is a NaN.
pub open spec fn number_lt(a: u64, b: u64) -> bool {
    !nan(a) && !nan(b) && order_key(a) < order_key(b)
}

/// IEEE-754 `<=`: false as soon as one side is a NaN.
pub open spec fn number_le(a: u64, b: u64) -> bool {
    !nan(a) && !nan(b) && order_key(a) <= order_key(b)
}

/// The pattern of the negated value: the sign bit flipped.
pub open spec fn negated(bits: u64) -> u64 {
    if negative(bits) {
        (bits - 0x8000_0000_0000_0000) as u64
    } else {
        (bits + 0x8000_0000_0000_0000) as u64
    }
}

/// `m` doubled until it reaches 2^63: the significand of `m` with its leading bit on top.
pub open spec fn normalized(m: nat) -> nat
    decreases (if m < 0x8000_0000_0000_0000 { 0x8000_0000_0000_0000 - m } else { 0 }),
{
    if m == 0 || m >= 0x8000_0000_0000_0000 {
        m
    } else {
        normalized(2 * m)
    }
}

/// How often `m` is doubled on the way to `normalized(m)`.
pub open spec fn doublings(m: nat) -> nat
    decreases (if m < 0x8000_0000_0000_0000 { 0x8000_0000_0000_0000 - m } else { 0 }),
{
    if m == 0 || m >= 0x8000_0000_0000_0000 {
        0
    } else {
        1 + doublings(2 * m)
    }
}

/// The pattern of the binary64 value nearest to the natural number `m`, ties to the even
/// significand, for `1 <= m <= 2^63`; 0 for `m == 0`.
///
/// The normalized significand has 64 bits; its upper 53 are kept and the lower 11 decide
/// the rounding. A carry out of the significand lands in the exponent field, as it must.
pub open spec fn pattern_of_nat(m: nat) -> int {
    if m == 0 {
        0
    } else {
        let n = normalized(m);
        let kept = n / 2048;
        let rest = n % 2048;
        let up: int = if rest > 1024 || (rest == 1024 && kept % 2 == 1) { 1 } else { 0 };
        (1085 - doublings(m)) * 0x0010_0000_0000_0000 + kept + up
    }
}

/// Integer to number: the nearest binary64 value, ties to even.
pub open spec fn number_of_integer(i: i64) -> u64 {
    if i < 0 {
        (pattern_of_nat((-i) as nat) + 0x8000_0000_0000_0000) as u64
    } else {
        pattern_of_nat(i as nat) as u64
    }
}

/// `x` halved `n` times, each time rounding down.
pub open spec fn halved(x: nat, n: nat) -> nat
    decreases n,
{
    if n == 0 {
        x
    } else {
        halved(x / 2, (n - 1) as nat)
    }
}

/// `x` doubled `n` times.
pub open spec fn doubled(x: nat, n: nat) -> nat
    decreases n,
{
    if n == 0 {
        x
    } else {
        doubled(2 * x, (n - 1) as nat)
    }
}

/// The biased exponent of a pattern.
pub open spec fn exponent_field(bits: u64) -> int {
    magnitude(bits) / 0x0010_0000_0000_0000
}

/// The significand of a normal pattern: the fraction with the hidden bit.
pub open spec fn significand(bits: u64) -> int {
    magnitude(bits) % 0x0010_0000_0000_0000 + 0x0010_0000_0000_0000
}

/// The magnitude of a pattern rounded to an integer, halves away from zero, for a pattern
/// that is no NaN and whose magnitude is below 2^63.
///
/// With biased exponent `e` the value is `significand * 2^(e - 1075)`. Below one half
/// (`e < 1022`) it rounds to 0. Up to `e == 1074` the significand is halved `1075 - e`
/// times, the last halving rounding up; from `e == 1075` on it is doubled `e - 1075` times.
pub open spec fn rounded_magnitude(bits: u64) -> int {
    let e = exponent_field(bits);
    let s = significand(bits) as nat;
    if e < 1022 {
        0
    } else if e < 1075 {
        (halved(s, (1074 - e) as nat) as int + 1) / 2
    } else {
        doubled(s, (e - 1075) as nat) as int
    }
}

/// Number to integer: rounded to the nearest integer, halves away from zero; a value
/// beyond the 64-bit range gives the nearest end of the range, a NaN gives 0.
pub open spec fn integer_of_number(bits: u64) -> i64 {
    if nan(bits) {
        0
    } else if exponent_field(bits) >= 1086 {
        if negative(bits) {
            i64::MIN
        } else {
            i64::MAX
        }
    } else if negative(bits) {
        (-rounded_magnitude(bits)) as i64
    } else {
        rounded_magnitude(bits) as i64
    }
}

/// The sign bit, the rest, and the two fields of the rest, as bit operations give them.
pub proof fn lemma_pattern_bits(bits: u64)
    ensures
        (bits & 0x7fff_ffff_ffff_ffff) as int == magnitude(bits),
        (bits ^ 0x8000_0000_0000_0000) == negated(bits),
        ((bits & 0x7fff_ffff_ffff_ffff) >> 52) as int == exponent_field(bits),
        ((bits & 0x000f_ffff_ffff_ffff) | 0x0010_0000_0000_0000) as int == significand(bits),
        0 <= exponent_field(bits) < 2048,
{
    assert((bits & 0x7fff_ffff_ffff_ffff) == bits % 0x8000_0000_0000_0000) by (bit_vector);
    assert((bits ^ 0x8000_0000_0000_0000) == if bits >= 0x8000_0000_0000_0000 {
        (bits - 0x8000_0000_0000_0000) as u64
    } else {
        (bits + 0x8000_0000_0000_0000) as u64
    }) by (bit_vector);
    assert(((bits & 0x7fff_ffff_ffff_ffff) >> 52) == (bits % 0x8000_0000_0000_0000)
        / 0x0010_0000_0000_0000) by (bit_vector);
    assert(((bits & 0x000f_ffff_ffff_ffff) | 0x0010_0000_0000_0000) == (bits
        % 0x8000_0000_0000_0000) % 0x0010_0000_0000_0000 + 0x0010_0000_0000_0000)
        by (bit_vector);
    assert((bits % 0x8000_0000_0000_0000) / 0x0010_0000_0000_0000 < 2048) by (bit_vector);
}

pub fn is_nan(bits: u64) -> (r: bool)
    ensures
        r == nan(bits),
{
    proof {
        lemma_pattern_bits(bits);
    }
    (bits & 0x7fff_ffff_ffff_ffff) > INFINITY_BITS
}

pub fn is_negative(bits: u64) -> (r: bool)
    ensures
        r == negative(bits),
{
    bits >= SIGN_BIT
}

pub fn negate(bits: u64) -> (r: u64)
    ensures
        r == negated(bits),
{
    proof {
        lemma_pattern_bits(bits);
    }
    bits ^ SIGN_BIT
}

/// Whether `a` comes before `b` among the patterns that are no NaN, or beside it
/// (`or_equal`). The caller has excluded NaN.
fn ordered(a: u64, b: u64, or_equal: bool) -> (r: bool)
    ensures
        r == if or_equal {
            order_key(a) <= order_key(b)
        } else {
            order_key(a) < order_key(b)
        },
{
    proof {
        lemma_pattern_bits(a);
        lemma_pattern_bits(b);
    }
    let ma = a & 0x7fff_ffff_ffff_ffff;
    let mb = b & 0x7fff_ffff_ffff_ffff;
    let na = a >= SIGN_BIT;
    let nb = b >= SIGN_BIT;
    if na && nb {
        if or_equal {
            mb <= ma
        } else {
            mb < ma
        }
    } else if na {
        // a <= 0 <= b: equal only where both are zeros
        if or_equal {
            true
        } else {
            ma != 0 || mb != 0
        }
    } else if nb {
        if or_equal {
            ma == 0 && mb == 0
        } else {
            false
        }
    } else {
        if or_equal {
            ma <= mb
        } else {
            ma < mb
        }
    }
}

pub fn equal(a: u64, b: u64) -> (r: bool)
    ensures
        r == number_eq(a, b),
{
    if is_nan(a) || is_nan(b) {
        false
    } else {
        ordered(a, b, true) && ordered(b, a, true)
    }
}

pub fn less(a: u64, b: u64) -> (r: bool)
    ensures
        r == number_lt(a, b),
{
    if is_nan(a) || is_nan(b) {
        false
    } else {
        ordered(a, b, false)
    }
}

pub fn less_equal(a: u64, b: u64) -> (r: bool)
    ensures
        r == number_le(a, b),
{
    if is_nan(a) || is_nan(b) {
        false
    } else {
        ordered(a, b, true)
    }
}

/// The pattern for a magnitude `1 <= m <= 2^63`, or 0 for 0.
fn pattern_from_magnitude(m: u64) -> (r: u64)
    requires
        m <= 0x8000_0000_0000_0000,
    ensures
        r == pattern_of_nat(m as nat),
        r < 0x8000_0000_0000_0000,
{
    if m == 0 {
        return 0;
    }
    let mut n: u64 = m;
    let mut shifts: u64 = 0;
    proof {
        lemma2_to64();
    }
    while n < SIGN_BIT
        invariant
            0 < n,
            shifts <= 63,
            n >= pow2(shifts as nat),
            normalized(m as nat) == normalized(n as nat),
            doublings(m as nat) == shifts + doublings(n as nat),
        decreases (if n < SIGN_BIT { SIGN_BIT - n } else { 0 }),
    {
        proof {
            lemma2_to64_rest();
            lemma_pow2_unfold((shifts + 1) as nat);
            if shifts >= 63 {
                lemma_pow2_strictly_increases(63, (shifts + 1) as nat);
            }
        }
        n = n * 2;
        shifts = shifts + 1;
    }
    let kept = n / 2048;
    let rest = n % 2048;
    let up: u64 = if rest > 1024 || (rest == 1024 && kept % 2 == 1) {
        1
    } else {
        0
    };
    assert(kept < 0x0020_0000_0000_0000);
    (1085 - shifts) * HIDDEN_BIT + kept + up
}

pub fn from_integer(i: i64) -> (r: u64)
    ensures
        r == number_of_integer(i),
{
    if i < 0 {
        let m: u64 = if i == i64::MIN {
            SIGN_BIT
        } else {
            (-i) as u64
        };
        pattern_from_magnitude(m) + SIGN_BIT
    } else {
        pattern_from_magnitude(i as u64)
    }
}

/// Doubling never shrinks, and a number below 2^a doubled `n` times is below 2^(a + n).
proof fn lemma_doubled_bound(x: nat, n: nat, a: nat)
    requires
        x < pow2(a),
    ensures
        x <= doubled(x, n) < pow2(a + n),
    decreases n,
{
    if n > 0 {
        lemma_pow2_unfold(a + 1);
        lemma_doubled_bound(2 * x, (n - 1) as nat, a + 1);
    }
}

pub fn to_integer(bits: u64) -> (r: i64)
    ensures
        r == integer_of_number(bits),
{
    proof {
        lemma_pattern_bits(bits);
        lemma2_to64_rest();
    }
    if is_nan(bits) {
        return 0;
    }
    let neg = bits >= SIGN_BIT;
    let e: u64 = (bits & 0x7fff_ffff_ffff_ffff) >> 52;
    if e >= 1086 {
        return if neg {
            i64::MIN
        } else {
            i64::MAX
        };
    }
    let s: u64 = (bits & 0x000f_ffff_ffff_ffff) | HIDDEN_BIT;
    let m: u64 = if e < 1022 {
        0
    } else if e < 1075 {
        let count: u64 = 1074 - e;
        let mut t: u64 = s;
        let mut k: u64 = 0;
        while k < count
            invariant
                k <= count,
                t <= s,
                halved(s as nat, count as nat) == halved(t as nat, (count - k) as nat),
            decreases count - k,
        {
            t = t / 2;
            k = k + 1;
        }
        (t + 1) / 2
    } else {
        let count: u64 = e - 1075;
        let mut t: u64 = s;
        let mut k: u64 = 0;
        proof {
            lemma_doubled_bound(s as nat, count as nat, 53);
            lemma_pow2_strictly_increases((53 + count) as nat, 64);
            if count < 10 {
                lemma_pow2_strictly_increases((53 + count) as nat, 63);
            }
        }
        while k < count
            invariant
                k <= count,
                doubled(s as nat, count as nat) == doubled(t as nat, (count - k) as nat),
                doubled(s as nat, count as nat) < 0x8000_0000_0000_0000,
                t <= doubled(t as nat, (count - k) as nat),
            decreases count - k,
        {
            proof {
                lemma2_to64_rest();
                lemma_doubled_bound((2 * t) as nat, (count - k - 1) as nat, 64);
            }
            t = t * 2;
            k = k + 1;
        }
        t
    };
    if neg {
        -(m as i64)
    } else {
        m as i64
    }
}

/// A normalized number is the number times a power of two, and has its leading bit on
/// top.
pub proof fn lemma_normalized(m: nat)
    requires
        0 < m < 0x1_0000_0000_0000_0000,
    ensures
        normalized(m) == m * pow2(doublings(m)),
        0x8000_0000_0000_0000 <= normalized(m) < 0x1_0000_0000_0000_0000,
    decreases (if m < 0x8000_0000_0000_0000 {
        0x8000_0000_0000_0000 - m
    } else {
        0
    }),
{
    lemma2_to64();
    if m < 0x8000_0000_0000_0000 {
        lemma_normalized(2 * m);
        let d = doublings(2 * m);
        lemma_pow2_unfold(d + 1);
        assert(2 * m * pow2(d) == m * (2 * pow2(d))) by (nonlinear_arith);
    } else {
        assert(m * pow2(0) == m) by (nonlinear_arith)
            requires
                pow2(0) == 1,
        ;
    }
}

/// Halving undoes doubling.
pub proof fn lemma_halved_doubled(x: nat, k: nat)
    ensures
        halved(x * pow2(k), k) == x,
        doubled(x, k) == x * pow2(k),
    decreases k,
{
    lemma2_to64();
    if k == 0 {
        assert(x * pow2(0) == x) by (nonlinear_arith)
            requires
                pow2(0) == 1,
        ;
    } else {
        lemma_pow2_unfold(k);
        let half = pow2((k - 1) as nat);
        assert(x * (2 * half) == 2 * (x * half)) by (nonlinear_arith);
        assert((x * pow2(k)) / 2 == x * half);
        lemma_halved_doubled(x, (k - 1) as nat);
        lemma_halved_doubled(2 * x, (k - 1) as nat);
        assert(2 * x * half == x * (2 * half)) by (nonlinear_arith);
    }
}

/// An integer of at most 53 bits is a number as it is: it comes back from the number
/// unchanged.
pub proof fn lemma_integer_round_trip(i: i64)
    requires
        -0x20_0000_0000_0000 <= i <= 0x20_0000_0000_0000,
    ensures
        !nan(number_of_integer(i)),
        integer_of_number(number_of_integer(i)) == i,
{
    lemma2_to64();
    lemma2_to64_rest();
    if i != 0 {
        let m: nat = if i < 0 {
            (-i) as nat
        } else {
            i as nat
        };
        let d = doublings(m);
        let n = normalized(m);
        lemma_normalized(m);
        lemma_pow2_pos(d);
        // the number has at most 54 bits, so at least 10 doublings bring it on top
        assert(d >= 10 && d <= 63) by {
            lemma2_to64();
            lemma2_to64_rest();
            if d < 10 {
                lemma_pow2_strictly_increases(d, 10);
                assert(pow2(d) < 1024);
                assert(m * pow2(d) <= 0x20_0000_0000_0000 * 1023) by (nonlinear_arith)
                    requires
                        m <= 0x20_0000_0000_0000,
                        pow2(d) <= 1023,
                ;
            }
            if d > 63 {
                if d > 64 {
                    lemma_pow2_strictly_increases(64, d);
                }
                assert(pow2(d) >= 0x1_0000_0000_0000_0000);
                assert(m * pow2(d) >= pow2(d)) by (nonlinear_arith)
                    requires
                        m >= 1,
                ;
            }
        }
        let kept = n / 2048;
        let p = pattern_of_nat(m);
        if d == 10 {
            assert(m == 0x20_0000_0000_0000) by {
                assert(m * 1024 >= 0x8000_0000_0000_0000);
            }
            assert(n == 0x8000_0000_0000_0000);
            assert(doubled(kept, 1) == doubled(2 * kept, 0));
            assert(exponent_field(p as u64) == 1076);
        } else {
            // the 11 low bits of the normalized number are zeros
            let k = (d - 11) as nat;
            lemma_pow2_adds(11, k);
            assert(n == (m * pow2(k)) * 2048) by (nonlinear_arith)
                requires
                    n == m * pow2(d),
                    pow2(d) == 2048 * pow2(k),
            ;
            assert(kept == m * pow2(k));
            assert(n % 2048 == 0);
            assert(exponent_field(p as u64) == 1086 - d);
            assert(significand(p as u64) == kept);
            if k == 0 {
                lemma_halved_doubled(m, 0);
                assert(doubled(kept, 0) == kept);
            } else {
                let j = (k - 1) as nat;
                lemma_pow2_unfold(k);
                assert(m * (2 * pow2(j)) == (2 * m) * pow2(j)) by (nonlinear_arith);
                lemma_halved_doubled(2 * m, j);
                assert(halved(kept, j) == 2 * m);
            }
        }
    }
}

} // verus!
