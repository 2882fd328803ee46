//! The Pallas base-field modulus is prime: Euclid's lemma, Lucas's primality
//! test, and a Lucas certificate for the modulus and, recursively, for every
//! prime factor that the certificate uses.

use vstd::arithmetic::div_mod::*;
use vstd::arithmetic::mul::*;
use vstd::arithmetic::power::*;
use vstd::prelude::*;
use vstd::set_lib::*;

verus! {

/// `n` is greater than 1 and no number strictly between 1 and `n` divides it.
pub open spec fn is_prime(n: int) -> bool {
    n > 1 && forall|d: int| 1 < d < n ==> #[trigger] (n % d) != 0
}

/// The greatest common divisor, by Euclid's algorithm.
pub open spec fn gcd(x: nat, y: nat) -> nat
    decreases y,
{
    if y == 0 {
        x
    } else {
        gcd(y, x % y)
    }
}

/// A divisor of both `a` and `b` divides `s * a + t * b`.
proof fn lemma_divides_combination(d: int, a: int, b: int, s: int, t: int)
    requires
        d > 0,
        a % d == 0,
        b % d == 0,
    ensures
        (s * a + t * b) % d == 0,
{
    lemma_fundamental_div_mod(a, d);
    lemma_fundamental_div_mod(b, d);
    let k = s * (a / d) + t * (b / d);
    assert(s * a + t * b == k * d) by (nonlinear_arith)
        requires
            a == d * (a / d),
            b == d * (b / d),
            k == s * (a / d) + t * (b / d),
    ;
    lemma_mod_multiples_basic(k, d);
}

/// A positive divisor of a positive number is at most that number.
proof fn lemma_divisor_le(d: int, x: int)
    requires
        d > 0,
        x > 0,
        x % d == 0,
    ensures
        d <= x,
{
    lemma_fundamental_div_mod(x, d);
    assert(x == d * (x / d));
    if x / d <= 0 {
        assert(false) by (nonlinear_arith)
            requires
                d > 0,
                x / d <= 0,
                x == d * (x / d),
                x > 0,
        ;
    }
    assert(d <= d * (x / d)) by (nonlinear_arith)
        requires
            d > 0,
            x / d >= 1,
    ;
}

/// Divisibility is transitive.
proof fn lemma_divides_trans(a: int, b: int, c: int)
    requires
        a > 0,
        b > 0,
        b % a == 0,
        c % b == 0,
    ensures
        c % a == 0,
{
    lemma_fundamental_div_mod(c, b);
    lemma_divides_combination(a, b, 0, c / b, 0);
    assert(c == (c / b) * b + 0 * 0) by (nonlinear_arith)
        requires
            c == b * (c / b) + c % b,
            c % b == 0,
    ;
}

/// The greatest common divisor of two numbers, not both zero, is positive,
/// divides both, and is at most the first when that is positive.
proof fn lemma_gcd_divides(x: nat, y: nat)
    requires
        x > 0 || y > 0,
    ensures
        gcd(x, y) > 0,
        x % gcd(x, y) == 0,
        y % gcd(x, y) == 0,
    decreases y,
{
    if y == 0 {
        lemma_mod_self_0(x as int);
        lemma_small_mod(0, x);
    } else {
        let r = x % y;
        lemma_gcd_divides(y, r);
        let g = gcd(y, r);
        lemma_fundamental_div_mod(x as int, y as int);
        lemma_divides_combination(g as int, y as int, r as int, (x / y) as int, 1);
        assert(x == (x / y) * y + 1 * r) by (nonlinear_arith)
            requires
                x == y * (x / y) + r,
        ;
    }
}

/// If a number divides `s * y` and `t * y`, it divides `gcd(s, t) * y`.
proof fn lemma_gcd_times(r: int, s: nat, t: nat, y: int)
    requires
        r > 0,
        (s * y) % r == 0,
        (t * y) % r == 0,
    ensures
        (gcd(s, t) * y) % r == 0,
    decreases t,
{
    if t > 0 {
        let m = s % t;
        lemma_fundamental_div_mod(s as int, t as int);
        lemma_divides_combination(r, s * y, t * y, 1, -((s / t) as int));
        assert(m * y == 1 * (s * y) + (-((s / t) as int)) * (t * y)) by (nonlinear_arith)
            requires
                s == t * (s / t) + m,
        ;
        lemma_gcd_times(r, t, m, y);
    }
}

/// Euclid's lemma: a prime that divides a product divides one of its factors.
pub proof fn lemma_euclid(r: int, x: int, y: int)
    requires
        is_prime(r),
        x >= 0,
        (x * y) % r == 0,
    ensures
        x % r == 0 || y % r == 0,
{
    if x % r != 0 {
        lemma_mod_multiples_basic(y, r);
        assert((r * y) % r == 0) by {
            lemma_mul_is_commutative(r, y);
        }
        lemma_gcd_times(r, r as nat, x as nat, y);
        lemma_gcd_divides(r as nat, x as nat);
        let g = gcd(r as nat, x as nat) as int;
        lemma_divisor_le(g, r);
        if g == r {
            assert(false);
        } else if g > 1 {
            assert(r % g != 0);
        }
        assert(g == 1);
    }
}

/// The smallest divisor of `m` that is at least `d`.
pub open spec fn least_divisor_from(m: int, d: int) -> int
    decreases m - d,
{
    if d >= m {
        m
    } else if m % d == 0 {
        d
    } else {
        least_divisor_from(m, d + 1)
    }
}

/// The smallest divisor above 1 of a number above 1 is prime and divides it.
proof fn lemma_least_divisor_prime(m: int, d: int)
    requires
        2 <= d <= m,
        forall|e: int| 2 <= e < d ==> #[trigger] (m % e) != 0,
    ensures
        is_prime(least_divisor_from(m, d)),
        m % least_divisor_from(m, d) == 0,
        2 <= least_divisor_from(m, d) <= m,
    decreases m - d,
{
    if d < m && m % d != 0 {
        lemma_least_divisor_prime(m, d + 1);
    } else {
        let r = least_divisor_from(m, d);
        if d >= m {
            lemma_mod_self_0(m);
        }
        assert forall|e: int| 1 < e < r implies #[trigger] (r % e) != 0 by {
            if r % e == 0 {
                lemma_divides_trans(e, r, m);
                assert(m % e != 0);
            }
        }
    }
}

/// A certificate's factorization: the product of each prime raised to its
/// exponent.
pub open spec fn cert_product(c: Seq<(int, nat)>) -> int
    decreases c.len(),
{
    if c.len() == 0 {
        1
    } else {
        pow(c[0].0, c[0].1) * cert_product(c.drop_first())
    }
}

/// Every entry of a certificate is a prime with a positive exponent.
pub open spec fn cert_primes(c: Seq<(int, nat)>) -> bool {
    forall|i: int| 0 <= i < c.len() ==> is_prime(#[trigger] c[i].0) && c[i].1 >= 1
}

/// A prime that divides a prime equals it.
proof fn lemma_prime_divides_prime(r: int, q: int)
    requires
        is_prime(r),
        is_prime(q),
        q % r == 0,
    ensures
        r == q,
{
    lemma_divisor_le(r, q);
    if r < q {
        assert(q % r != 0);
    }
}

/// A prime that divides a power of a prime equals it.
proof fn lemma_prime_divides_pow(r: int, q: int, e: nat)
    requires
        is_prime(r),
        is_prime(q),
        pow(q, e) % r == 0,
    ensures
        r == q,
    decreases e,
{
    reveal(pow);
    if e == 0 {
        lemma_small_mod(1, r as nat);
    } else {
        lemma_pow_positive(q, (e - 1) as nat);
        lemma_euclid(r, q, pow(q, (e - 1) as nat));
        if q % r == 0 {
            lemma_prime_divides_prime(r, q);
        } else {
            lemma_prime_divides_pow(r, q, (e - 1) as nat);
        }
    }
}

/// A prime that divides a certificate's product is one of its primes.
proof fn lemma_prime_divides_cert(r: int, c: Seq<(int, nat)>)
    requires
        is_prime(r),
        cert_primes(c),
        cert_product(c) % r == 0,
    ensures
        exists|i: int| 0 <= i < c.len() && #[trigger] c[i].0 == r,
    decreases c.len(),
{
    if c.len() == 0 {
        lemma_small_mod(1, r as nat);
    } else {
        assert(is_prime(c[0].0));
        let rest = c.drop_first();
        assert(cert_primes(rest)) by {
            assert forall|i: int| 0 <= i < rest.len() implies is_prime(#[trigger] rest[i].0)
                && rest[i].1 >= 1 by {
                assert(rest[i] == c[i + 1]);
            }
        }
        lemma_pow_positive(c[0].0, c[0].1);
        lemma_euclid(r, pow(c[0].0, c[0].1), cert_product(rest));
        if pow(c[0].0, c[0].1) % r == 0 {
            lemma_prime_divides_pow(r, c[0].0, c[0].1);
        } else {
            lemma_prime_divides_cert(r, rest);
            let i = choose|i: int| 0 <= i < rest.len() && #[trigger] rest[i].0 == r;
            assert(c[i + 1].0 == r);
        }
    }
}

/// A certificate's product is positive.
proof fn lemma_cert_product_positive(c: Seq<(int, nat)>)
    requires
        cert_primes(c),
    ensures
        cert_product(c) > 0,
    decreases c.len(),
{
    if c.len() > 0 {
        let rest = c.drop_first();
        assert(cert_primes(rest)) by {
            assert forall|i: int| 0 <= i < rest.len() implies is_prime(#[trigger] rest[i].0)
                && rest[i].1 >= 1 by {
                assert(rest[i] == c[i + 1]);
            }
        }
        assert(is_prime(c[0].0));
        lemma_pow_positive(c[0].0, c[0].1);
        lemma_cert_product_positive(rest);
        lemma_mul_strictly_positive(pow(c[0].0, c[0].1), cert_product(rest));
    }
}

/// If `x % n == 1`, multiplying by `x` does not change a value modulo `n`.
proof fn lemma_mul_one_mod(x: int, y: int, n: int)
    requires
        n > 1,
        x % n == 1,
    ensures
        (x * y) % n == y % n,
{
    lemma_mul_mod_noop_left(x, y, n);
}

/// A power of a number that is 1 modulo `n` is 1 modulo `n`.
proof fn lemma_pow_of_one_mod(x: int, k: nat, n: int)
    requires
        n > 1,
        x % n == 1,
    ensures
        pow(x, k) % n == 1,
{
    lemma_pow_mod_noop(x, k, n);
    lemma1_pow(k);
    lemma_small_mod(1, n as nat);
}

/// If `a^x` and `a^y` are 1 modulo `n`, so is `a^gcd(x, y)`.
proof fn lemma_pow_gcd(a: int, x: nat, y: nat, n: int)
    requires
        n > 1,
        pow(a, x) % n == 1,
        pow(a, y) % n == 1,
    ensures
        pow(a, gcd(x, y)) % n == 1,
    decreases y,
{
    if y > 0 {
        let q = x / y;
        let m = x % y;
        lemma_fundamental_div_mod(x as int, y as int);
        assert(x == y * q + m);
        lemma_pow_adds(a, y * q, m);
        lemma_pow_multiplies(a, y, q);
        lemma_pow_of_one_mod(pow(a, y), q, n);
        lemma_mul_one_mod(pow(pow(a, y), q), pow(a, m), n);
        lemma_pow_gcd(a, y, m, n);
    }
}

/// Lucas's test: if `a^(n-1) = 1` modulo `n`, and `a^((n-1)/q) != 1` modulo `n`
/// for each prime `q` of a factorization of `n - 1`, then `n` is prime.
pub proof fn lemma_lucas(n: int, a: int, c: Seq<(int, nat)>)
    requires
        n >= 2,
        cert_primes(c),
        cert_product(c) == n - 1,
        pow(a, (n - 1) as nat) % n == 1,
        forall|i: int|
            0 <= i < c.len() ==> #[trigger] (pow(a, ((n - 1) / c[i].0) as nat) % n) != 1,
    ensures
        is_prime(n),
{
    let big_n = (n - 1) as nat;
    // No positive exponent below n - 1 gives 1.
    assert forall|k: nat| 0 < k < big_n implies #[trigger] (pow(a, k) % n) != 1 by {
        if pow(a, k) % n == 1 {
            lemma_pow_gcd(a, big_n, k, n);
            lemma_gcd_divides(big_n, k);
            let g = gcd(big_n, k);
            lemma_divisor_le(g as int, k as int);
            lemma_fundamental_div_mod(big_n as int, g as int);
            let m = big_n / g;
            assert(big_n == g * m);
            assert(m >= 2) by (nonlinear_arith)
                requires
                    big_n == g * m,
                    g < big_n,
                    g > 0,
            ;
            lemma_least_divisor_prime(m as int, 2);
            let r = least_divisor_from(m as int, 2);
            lemma_mod_multiples_basic(g as int, m as int);
            lemma_mul_is_commutative(g as int, m as int);
            assert((big_n as int) % (m as int) == 0);
            lemma_divides_trans(r, m as int, big_n as int);
            lemma_prime_divides_cert(r, c);
            let i = choose|i: int| 0 <= i < c.len() && #[trigger] c[i].0 == r;
            lemma_fundamental_div_mod(m as int, r);
            let m2 = m / (r as nat);
            assert(m == r * m2);
            assert(big_n == r * (g * m2)) by (nonlinear_arith)
                requires
                    big_n == g * m,
                    m == r * m2,
            ;
            assert((n - 1) / r == g * m2) by {
                lemma_div_multiples_vanish((g * m2) as int, r);
            }
            lemma_pow_multiplies(a, g, m2);
            lemma_pow_of_one_mod(pow(a, g), m2, n);
            assert(pow(a, ((n - 1) / c[i].0) as nat) % n != 1);
        }
    }
    // Hence the powers a^0 .. a^(n-2) are distinct and nonzero modulo n.
    let f = |i: int| pow(a, i as nat) % n;
    let dom = set_int_range(0, big_n as int);
    let img = set_int_range(1, n);
    assert forall|i: int, j: int| #![trigger f(i), f(j)]
        dom.contains(i) && dom.contains(j) && f(i) == f(j) implies i == j by {
        if i != j {
            let (lo, hi) = if i < j {
                (i as nat, j as nat)
            } else {
                (j as nat, i as nat)
            };
            let k = (hi - lo) as nat;
            lemma_pow_adds(a, lo, k);
            lemma_pow_adds(a, (big_n - lo) as nat, lo);
            lemma_pow_adds(a, (big_n - lo) as nat, hi);
            lemma_pow_adds(a, big_n, k);
            let x = pow(a, (big_n - lo) as nat);
            lemma_mul_mod_noop_right(x, pow(a, lo), n);
            lemma_mul_mod_noop_right(x, pow(a, hi), n);
            assert(x * pow(a, hi) == pow(a, big_n) * pow(a, k)) by {
                assert((big_n - lo) as nat + hi == big_n + k);
            }
            lemma_mul_one_mod(pow(a, big_n), pow(a, k), n);
            assert(pow(a, k) % n == 1);
        }
    }
    lemma_int_range(0, big_n as int);
    lemma_int_range(1, n);
    let image = dom.map(f);
    lemma_map_size(dom, image, f);
    assert(image.subset_of(img)) by {
        assert forall|v: int| image.contains(v) implies img.contains(v) by {
            let i = choose|i: int| dom.contains(i) && f(i) == v;
            lemma_mod_bound(pow(a, i as nat), n);
            if v == 0 {
                lemma_pow_adds(a, i as nat, (big_n - i) as nat);
                lemma_mul_mod_noop_left(pow(a, i as nat), pow(a, (big_n - i) as nat), n);
                lemma_small_mod(0, n as nat);
            }
        }
    }
    lemma_subset_equality(image, img);
    // So every number in 1 .. n-1 has an inverse modulo n, and none divides n.
    assert forall|d: int| 1 < d < n implies #[trigger] (n % d) != 0 by {
        if n % d == 0 {
            assert(img.contains(d));
            assert(image.contains(d));
            let i = choose|i: int| dom.contains(i) && f(i) == d;
            let y = pow(a, (big_n - i) as nat);
            lemma_pow_adds(a, i as nat, (big_n - i) as nat);
            lemma_mul_mod_noop_left(pow(a, i as nat), y, n);
            assert((d * y) % n == 1);
            lemma_fundamental_div_mod(d * y, n);
            lemma_mod_multiples_basic(y, d);
            lemma_mul_is_commutative(y, d);
            lemma_divides_combination(d, d * y, n, 1, -((d * y) / n));
            assert(1 == 1 * (d * y) + (-((d * y) / n)) * n) by (nonlinear_arith)
                requires
                    d * y == n * ((d * y) / n) + 1,
            ;
            lemma_small_mod(1, d as nat);
        }
    }
}

/// One step of square-and-multiply: from `a^e` modulo `n`, the value of
/// `a^(2e + bit)` modulo `n`.
pub proof fn lemma_pow_step(a: int, n: int, e: nat, h: int, bit: nat, e2: nat, r: int)
    requires
        n > 1,
        pow(a, e) % n == h,
        bit <= 1,
        e2 == 2 * e + bit,
        r == (h * h * (if bit == 1 {
            a
        } else {
            1
        })) % n,
    ensures
        pow(a, e2) % n == r,
{
    lemma_pow_adds(a, e, e);
    lemma_pow_adds(a, e + e, bit);
    lemma_pow0(a);
    lemma_pow1(a);
    let x = pow(a, e);
    let y = pow(a, bit);
    assert(pow(a, e2) == x * x * y);
    lemma_mul_mod_noop_left(x * x, y, n);
    lemma_mul_mod_noop_general(x, x, n);
    lemma_mul_mod_noop_left(h * h, y, n);
    assert((x * x) % n == (h * h) % n);
}

/// The first step of square-and-multiply: `a^1` modulo `n`.
pub proof fn lemma_pow_start(a: int, n: int, r: int)
    requires
        n > 1,
        r == a % n,
    ensures
        pow(a, 1) % n == r,
{
    lemma_pow1(a);
}

} // verus!
