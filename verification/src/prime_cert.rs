//! A Lucas certificate that the Pallas base-field modulus is prime: for each
//! prime of the certificate tree, a witness whose powers are computed by
//! square-and-multiply, one step per exponent bit.

use crate::primality::{cert_primes, cert_product, is_prime, lemma_lucas, lemma_pow_start, lemma_pow_step};
use vstd::arithmetic::power::pow;
use vstd::prelude::*;

verus! {

/// 2 is prime.
pub proof fn lemma_prime_2()
    ensures
        is_prime(2),
{
}

/// `2^2` modulo `3`, by square-and-multiply.
proof fn lemma_pow_3_full()
    ensures
        pow(2int, 2nat) % 3int == 1int,
{
    lemma_pow_start(2int, 3int, 2int);
    lemma_pow_step(2int, 3int, 1nat, 2int, 0nat, 2nat, 1int);
}

/// `2^1` modulo `3`, by square-and-multiply.
proof fn lemma_pow_3_by_2()
    ensures
        pow(2int, 1nat) % 3int == 2int,
{
    lemma_pow_start(2int, 3int, 2int);
}

/// 3 is prime: a Lucas certificate with witness 2.
pub proof fn lemma_prime_3()
    ensures
        is_prime(3int),
{
    lemma_prime_2();
    lemma_pow_3_full();
    lemma_pow_3_by_2();
    let c: Seq<(int, nat)> = seq![(2int, 1nat)];
    assert(c[0] == (2int, 1nat));
    assert(cert_product(c.skip(1)) == 1) by {
        assert(c.skip(1) =~= Seq::<(int, nat)>::empty());
    }
    assert(cert_product(c.skip(0)) == 2int) by {
        assert(c.skip(0).drop_first() =~= c.skip(1));
        assert(c.skip(0)[0] == (2int, 1nat));
        assert(pow(2int, 1nat) == 2int) by {
            reveal_with_fuel(pow, 2);
        }
    }
    assert(c.skip(0) =~= c);
    assert forall|i: int| 0 <= i < c.len() implies is_prime(#[trigger] c[i].0) && c[i].1 >= 1 by {
        if i == 0 {
            assert(c[0].0 == 2int);
        }
    }
    assert forall|i: int| 0 <= i < c.len() implies #[trigger] (pow(2int, ((3int - 1) / c[i].0) as nat) % 3int) != 1 by {
        if i == 0 {
            assert(c[0].0 == 2int);
            assert((3int - 1) / 2int == 1int);
        }
    }
    lemma_lucas(3int, 2int, c);
}

/// `2^4` modulo `5`, by square-and-multiply.
proof fn lemma_pow_5_full()
    ensures
        pow(2int, 4nat) % 5int == 1int,
{
    lemma_pow_start(2int, 5int, 2int);
    lemma_pow_step(2int, 5int, 1nat, 2int, 0nat, 2nat, 4int);
    lemma_pow_step(2int, 5int, 2nat, 4int, 0nat, 4nat, 1int);
}

/// `2^2` modulo `5`, by square-and-multiply.
proof fn lemma_pow_5_by_2()
    ensures
        pow(2int, 2nat) % 5int == 4int,
{
    lemma_pow_start(2int, 5int, 2int);
    lemma_pow_step(2int, 5int, 1nat, 2int, 0nat, 2nat, 4int);
}

/// 5 is prime: a Lucas certificate with witness 2.
pub proof fn lemma_prime_5()
    ensures
        is_prime(5int),
{
    lemma_prime_2();
    lemma_pow_5_full();
    lemma_pow_5_by_2();
    let c: Seq<(int, nat)> = seq![(2int, 2nat)];
    assert(c[0] == (2int, 2nat));
    assert(cert_product(c.skip(1)) == 1) by {
        assert(c.skip(1) =~= Seq::<(int, nat)>::empty());
    }
    assert(cert_product(c.skip(0)) == 4int) by {
        assert(c.skip(0).drop_first() =~= c.skip(1));
        assert(c.skip(0)[0] == (2int, 2nat));
        assert(pow(2int, 2nat) == 4int) by {
            reveal_with_fuel(pow, 3);
        }
    }
    assert(c.skip(0) =~= c);
    assert forall|i: int| 0 <= i < c.len() implies is_prime(#[trigger] c[i].0) && c[i].1 >= 1 by {
        if i == 0 {
            assert(c[0].0 == 2int);
        }
    }
    assert forall|i: int| 0 <= i < c.len() implies #[trigger] (pow(2int, ((5int - 1) / c[i].0) as nat) % 5int) != 1 by {
        if i == 0 {
            assert(c[0].0 == 2int);
            assert((5int - 1) / 2int == 2int);
        }
    }
    lemma_lucas(5int, 2int, c);
}

/// `3^6` modulo `7`, by square-and-multiply.
proof fn lemma_pow_7_full()
    ensures
        pow(3int, 6nat) % 7int == 1int,
{
    lemma_pow_start(3int, 7int, 3int);
    lemma_pow_step(3int, 7int, 1nat, 3int, 1nat, 3nat, 6int);
    lemma_pow_step(3int, 7int, 3nat, 6int, 0nat, 6nat, 1int);
}

/// `3^3` modulo `7`, by square-and-multiply.
proof fn lemma_pow_7_by_2()
    ensures
        pow(3int, 3nat) % 7int == 6int,
{
    lemma_pow_start(3int, 7int, 3int);
    lemma_pow_step(3int, 7int, 1nat, 3int, 1nat, 3nat, 6int);
}

/// `3^2` modulo `7`, by square-and-multiply.
proof fn lemma_pow_7_by_3()
    ensures
        pow(3int, 2nat) % 7int == 2int,
{
    lemma_pow_start(3int, 7int, 3int);
    lemma_pow_step(3int, 7int, 1nat, 3int, 0nat, 2nat, 2int);
}

/// 7 is prime: a Lucas certificate with witness 3.
pub proof fn lemma_prime_7()
    ensures
        is_prime(7int),
{
    lemma_prime_2();
    lemma_prime_3();
    lemma_pow_7_full();
    lemma_pow_7_by_2();
    lemma_pow_7_by_3();
    let c: Seq<(int, nat)> = seq![(2int, 1nat), (3int, 1nat)];
    assert(c[0] == (2int, 1nat));
    assert(c[1] == (3int, 1nat));
    assert(cert_product(c.skip(2)) == 1) by {
        assert(c.skip(2) =~= Seq::<(int, nat)>::empty());
    }
    assert(cert_product(c.skip(1)) == 3int) by {
        assert(c.skip(1).drop_first() =~= c.skip(2));
        assert(c.skip(1)[0] == (3int, 1nat));
        assert(pow(3int, 1nat) == 3int) by {
            reveal_with_fuel(pow, 2);
        }
    }
    assert(cert_product(c.skip(0)) == 6int) by {
        assert(c.skip(0).drop_first() =~= c.skip(1));
        assert(c.skip(0)[0] == (2int, 1nat));
        assert(pow(2int, 1nat) == 2int) by {
            reveal_with_fuel(pow, 2);
        }
    }
    assert(c.skip(0) =~= c);
    assert forall|i: int| 0 <= i < c.len() implies is_prime(#[trigger] c[i].0) && c[i].1 >= 1 by {
        if i == 0 {
            assert(c[0].0 == 2int);
        }
        if i == 1 {
            assert(c[1].0 == 3int);
        }
    }
    assert forall|i: int| 0 <= i < c.len() implies #[trigger] (pow(3int, ((7int - 1) / c[i].0) as nat) % 7int) != 1 by {
        if i == 0 {
            assert(c[0].0 == 2int);
            assert((7int - 1) / 2int == 3int);
        }
        if i == 1 {
            assert(c[1].0 == 3int);
            assert((7int - 1) / 3int == 2int);
        }
    }
    lemma_lucas(7int, 3int, c);
}

/// `2^10` modulo `11`, by square-and-multiply.
proof fn lemma_pow_11_full()
    ensures
        pow(2int, 10nat) % 11int == 1int,
{
    lemma_pow_start(2int, 11int, 2int);
    lemma_pow_step(2int, 11int, 1nat, 2int, 0nat, 2nat, 4int);
    lemma_pow_step(2int, 11int, 2nat, 4int, 1nat, 5nat, 10int);
    lemma_pow_step(2int, 11int, 5nat, 10int, 0nat, 10nat, 1int);
}

/// `2^5` modulo `11`, by square-and-multiply.
proof fn lemma_pow_11_by_2()
    ensures
        pow(2int, 5nat) % 11int == 10int,
{
    lemma_pow_start(2int, 11int, 2int);
    lemma_pow_step(2int, 11int, 1nat, 2int, 0nat, 2nat, 4int);
    lemma_pow_step(2int, 11int, 2nat, 4int, 1nat, 5nat, 10int);
}

/// `2^2` modulo `11`, by square-and-multiply.
proof fn lemma_pow_11_by_5()
    ensures
        pow(2int, 2nat) % 11int == 4int,
{
    lemma_pow_start(2int, 11int, 2int);
    lemma_pow_step(2int, 11int, 1nat, 2int, 0nat, 2nat, 4int);
}

/// 11 is prime: a Lucas certificate with witness 2.
pub proof fn lemma_prime_11()
    ensures
        is_prime(11int),
{
    lemma_prime_2();
    lemma_prime_5();
    lemma_pow_11_full();
    lemma_pow_11_by_2();
    lemma_pow_11_by_5();
    let c: Seq<(int, nat)> = seq![(2int, 1nat), (5int, 1nat)];
    assert(c[0] == (2int, 1nat));
    assert(c[1] == (5int, 1nat));
    assert(cert_product(c.skip(2)) == 1) by {
        assert(c.skip(2) =~= Seq::<(int, nat)>::empty());
    }
    assert(cert_product(c.skip(1)) == 5int) by {
        assert(c.skip(1).drop_first() =~= c.skip(2));
        assert(c.skip(1)[0] == (5int, 1nat));
        assert(pow(5int, 1nat) == 5int) by {
            reveal_with_fuel(pow, 2);
        }
    }
    assert(cert_product(c.skip(0)) == 10int) by {
        assert(c.skip(0).drop_first() =~= c.skip(1));
        assert(c.skip(0)[0] == (2int, 1nat));
        assert(pow(2int, 1nat) == 2int) by {
            reveal_with_fuel(pow, 2);
        }
    }
    assert(c.skip(0) =~= c);
    assert forall|i: int| 0 <= i < c.len() implies is_prime(#[trigger] c[i].0) && c[i].1 >= 1 by {
        if i == 0 {
            assert(c[0].0 == 2int);
        }
        if i == 1 {
            assert(c[1].0 == 5int);
        }
    }
    assert forall|i: int| 0 <= i < c.len() implies #[trigger] (pow(2int, ((11int - 1) / c[i].0) as nat) % 11int) != 1 by {
        if i == 0 {
            assert(c[0].0 == 2int);
            assert((11int - 1) / 2int == 5int);
        }
        if i == 1 {
            assert(c[1].0 == 5int);
            assert((11int - 1) / 5int == 2int);
        }
    }
    lemma_lucas(11int, 2int, c);
}

/// `2^12` modulo `13`, by square-and-multiply.
proof fn lemma_pow_13_full()
    ensures
        pow(2int, 12nat) % 13int == 1int,
{
    lemma_pow_start(2int, 13int, 2int);
    lemma_pow_step(2int, 13int, 1nat, 2int, 1nat, 3nat, 8int);
    lemma_pow_step(2int, 13int, 3nat, 8int, 0nat, 6nat, 12int);
    lemma_pow_step(2int, 13int, 6nat, 12int, 0nat, 12nat, 1int);
}

/// `2^6` modulo `13`, by square-and-multiply.
proof fn lemma_pow_13_by_2()
    ensures
        pow(2int, 6nat) % 13int == 12int,
{
    lemma_pow_start(2int, 13int, 2int);
    lemma_pow_step(2int, 13int, 1nat, 2int, 1nat, 3nat, 8int);
    lemma_pow_step(2int, 13int, 3nat, 8int, 0nat, 6nat, 12int);
}

/// `2^4` modulo `13`, by square-and-multiply.
proof fn lemma_pow_13_by_3()
    ensures
        pow(2int, 4nat) % 13int == 3int,
{
    lemma_pow_start(2int, 13int, 2int);
    lemma_pow_step(2int, 13int, 1nat, 2int, 0nat, 2nat, 4int);
    lemma_pow_step(2int, 13int, 2nat, 4int, 0nat, 4nat, 3int);
}

/// 13 is prime: a Lucas certificate with witness 2.
pub proof fn lemma_prime_13()
    ensures
        is_prime(13int),
{
    lemma_prime_2();
    lemma_prime_3();
    lemma_pow_13_full();
    lemma_pow_13_by_2();
    lemma_pow_13_by_3();
    let c: Seq<(int, nat)> = seq![(2int, 2nat), (3int, 1nat)];
    assert(c[0] == (2int, 2nat));
    assert(c[1] == (3int, 1nat));
    assert(cert_product(c.skip(2)) == 1) by {
        assert(c.skip(2) =~= Seq::<(int, nat)>::empty());
    }
    assert(cert_product(c.skip(1)) == 3int) by {
        assert(c.skip(1).drop_first() =~= c.skip(2));
        assert(c.skip(1)[0] == (3int, 1nat));
        assert(pow(3int, 1nat) == 3int) by {
            reveal_with_fuel(pow, 2);
        }
    }
    assert(cert_product(c.skip(0)) == 12int) by {
        assert(c.skip(0).drop_first() =~= c.skip(1));
        assert(c.skip(0)[0] == (2int, 2nat));
        assert(pow(2int, 2nat) == 4int) by {
            reveal_with_fuel(pow, 3);
        }
    }
    assert(c.skip(0) =~= c);
    assert forall|i: int| 0 <= i < c.len() implies is_prime(#[trigger] c[i].0) && c[i].1 >= 1 by {
        if i == 0 {
            assert(c[0].0 == 2int);
        }
        if i == 1 {
            assert(c[1].0 == 3int);
        }
    }
    assert forall|i: int| 0 <= i < c.len() implies #[trigger] (pow(2int, ((13int - 1) / c[i].0) as nat) % 13int) != 1 by {
        if i == 0 {
            assert(c[0].0 == 2int);
            assert((13int - 1) / 2int == 6int);
        }
        if i == 1 {
            assert(c[1].0 == 3int);
            assert((13int - 1) / 3int == 4int);
        }
    }
    lemma_lucas(13int, 2int, c);
}

/// `3^16` modulo `17`, by square-and-multiply.
proof fn lemma_pow_17_full()
    ensures
        pow(3int, 16nat) % 17int == 1int,
{
    lemma_pow_start(3int, 17int, 3int);
    lemma_pow_step(3int, 17int, 1nat, 3int, 0nat, 2nat, 9int);
    lemma_pow_step(3int, 17int, 2nat, 9int, 0nat, 4nat, 13int);
    lemma_pow_step(3int, 17int, 4nat, 13int, 0nat, 8nat, 16int);
    lemma_pow_step(3int, 17int, 8nat, 16int, 0nat, 16nat, 1int);
}

/// `3^8` modulo `17`, by square-and-multiply.
proof fn lemma_pow_17_by_2()
    ensures
        pow(3int, 8nat) % 17int == 16int,
{
    lemma_pow_start(3int, 17int, 3int);
    lemma_pow_step(3int, 17int, 1nat, 3int, 0nat, 2nat, 9int);
    lemma_pow_step(3int, 17int, 2nat, 9int, 0nat, 4nat, 13int);
    lemma_pow_step(3int, 17int, 4nat, 13int, 0nat, 8nat, 16int);
}

/// 17 is prime: a Lucas certificate with witness 3.
pub proof fn lemma_prime_17()
    ensures
        is_prime(17int),
{
    lemma_prime_2();
    lemma_pow_17_full();
    lemma_pow_17_by_2();
    let c: Seq<(int, nat)> = seq![(2int, 4nat)];
    assert(c[0] == (2int, 4nat));
    assert(cert_product(c.skip(1)) == 1) by {
        assert(c.skip(1) =~= Seq::<(int, nat)>::empty());
    }
    assert(cert_product(c.skip(0)) == 16int) by {
        assert(c.skip(0).drop_first() =~= c.skip(1));
        assert(c.skip(0)[0] == (2int, 4nat));
        assert(pow(2int, 4nat) == 16int) by {
            reveal_with_fuel(pow, 5);
        }
    }
    assert(c.skip(0) =~= c);
    assert forall|i: int| 0 <= i < c.len() implies is_prime(#[trigger] c[i].0) && c[i].1 >= 1 by {
        if i == 0 {
            assert(c[0].0 == 2int);
        }
    }
    assert forall|i: int| 0 <= i < c.len() implies #[trigger] (pow(3int, ((17int - 1) / c[i].0) as nat) % 17int) != 1 by {
        if i == 0 {
            assert(c[0].0 == 2int);
            assert((17int - 1) / 2int == 8int);
        }
    }
    lemma_lucas(17int, 3int, c);
}

/// `2^18` modulo `19`, by square-and-multiply.
proof fn lemma_pow_19_full()
    ensures
        pow(2int, 18nat) % 19int == 1int,
{
    lemma_pow_start(2int, 19int, 2int);
    lemma_pow_step(2int, 19int, 1nat, 2int, 0nat, 2nat, 4int);
    lemma_pow_step(2int, 19int, 2nat, 4int, 0nat, 4nat, 16int);
    lemma_pow_step(2int, 19int, 4nat, 16int, 1nat, 9nat, 18int);
    lemma_pow_step(2int, 19int, 9nat, 18int, 0nat, 18nat, 1int);
}

/// `2^9` modulo `19`, by square-and-multiply.
proof fn lemma_pow_19_by_2()
    ensures
        pow(2int, 9nat) % 19int == 18int,
{
    lemma_pow_start(2int, 19int, 2int);
    lemma_pow_step(2int, 19int, 1nat, 2int, 0nat, 2nat, 4int);
    lemma_pow_step(2int, 19int, 2nat, 4int, 0nat, 4nat, 16int);
    lemma_pow_step(2int, 19int, 4nat, 16int, 1nat, 9nat, 18int);
}

/// `2^6` modulo `19`, by square-and-multiply.
proof fn lemma_pow_19_by_3()
    ensures
        pow(2int, 6nat) % 19int == 7int,
{
    lemma_pow_start(2int, 19int, 2int);
    lemma_pow_step(2int, 19int, 1nat, 2int, 1nat, 3nat, 8int);
    lemma_pow_step(2int, 19int, 3nat, 8int, 0nat, 6nat, 7int);
}

/// 19 is prime: a Lucas certificate with witness 2.
pub proof fn lemma_prime_19()
    ensures
        is_prime(19int),
{
    lemma_prime_2();
    lemma_prime_3();
    lemma_pow_19_full();
    lemma_pow_19_by_2();
    lemma_pow_19_by_3();
    let c: Seq<(int, nat)> = seq![(2int, 1nat), (3int, 2nat)];
    assert(c[0] == (2int, 1nat));
    assert(c[1] == (3int, 2nat));
    assert(cert_product(c.skip(2)) == 1) by {
        assert(c.skip(2) =~= Seq::<(int, nat)>::empty());
    }
    assert(cert_product(c.skip(1)) == 9int) by {
        assert(c.skip(1).drop_first() =~= c.skip(2));
        assert(c.skip(1)[0] == (3int, 2nat));
        assert(pow(3int, 2nat) == 9int) by {
            reveal_with_fuel(pow, 3);
        }
    }
    assert(cert_product(c.skip(0)) == 18int) by {
        assert(c.skip(0).drop_first() =~= c.skip(1));
        assert(c.skip(0)[0] == (2int, 1nat));
        assert(pow(2int, 1nat) == 2int) by {
            reveal_with_fuel(pow, 2);
        }
    }
    assert(c.skip(0) =~= c);
    assert forall|i: int| 0 <= i < c.len() implies is_prime(#[trigger] c[i].0) && c[i].1 >= 1 by {
        if i == 0 {
            assert(c[0].0 == 2int);
        }
        if i == 1 {
            assert(c[1].0 == 3int);
        }
    }
    assert forall|i: int| 0 <= i < c.len() implies #[trigger] (pow(2int, ((19int - 1) / c[i].0) as nat) % 19int) != 1 by {
        if i == 0 {
            assert(c[0].0 == 2int);
            assert((19int - 1) / 2int == 9int);
        }
        if i == 1 {
            assert(c[1].0 == 3int);
            assert((19int - 1) / 3int == 6int);
        }
    }
    lemma_lucas(19int, 2int, c);
}

/// `5^22` modulo `23`, by square-and-multiply.
proof fn lemma_pow_23_full()
    ensures
        pow(5int, 22nat) % 23int == 1int,
{
    lemma_pow_start(5int, 23int, 5int);
    lemma_pow_step(5int, 23int, 1nat, 5int, 0nat, 2nat, 2int);
    lemma_pow_step(5int, 23int, 2nat, 2int, 1nat, 5nat, 20int);
    lemma_pow_step(5int, 23int, 5nat, 20int, 1nat, 11nat, 22int);
    lemma_pow_step(5int, 23int, 11nat, 22int, 0nat, 22nat, 1int);
}

/// `5^11` modulo `23`, by square-and-multiply.
proof fn lemma_pow_23_by_2()
    ensures
        pow(5int, 11nat) % 23int == 22int,
{
    lemma_pow_start(5int, 23int, 5int);
    lemma_pow_step(5int, 23int, 1nat, 5int, 0nat, 2nat, 2int);
    lemma_pow_step(5int, 23int, 2nat, 2int, 1nat, 5nat, 20int);
    lemma_pow_step(5int, 23int, 5nat, 20int, 1nat, 11nat, 22int);
}

/// `5^2` modulo `23`, by square-and-multiply.
proof fn lemma_pow_23_by_11()
    ensures
        pow(5int, 2nat) % 23int == 2int,
{
    lemma_pow_start(5int, 23int, 5int);
    lemma_pow_step(5int, 23int, 1nat, 5int, 0nat, 2nat, 2int);
}

/// 23 is prime: a Lucas certificate with witness 5.
pub proof fn lemma_prime_23()
    ensures
        is_prime(23int),
{
    lemma_prime_2();
    lemma_prime_11();
    lemma_pow_23_full();
    lemma_pow_23_by_2();
    lemma_pow_23_by_11();
    let c: Seq<(int, nat)> = seq![(2int, 1nat), (11int, 1nat)];
    assert(c[0] == (2int, 1nat));
    assert(c[1] == (11int, 1nat));
    assert(cert_product(c.skip(2)) == 1) by {
        assert(c.skip(2) =~= Seq::<(int, nat)>::empty());
    }
    assert(cert_product(c.skip(1)) == 11int) by {
        assert(c.skip(1).drop_first() =~= c.skip(2));
        assert(c.skip(1)[0] == (11int, 1nat));
        assert(pow(11int, 1nat) == 11int) by {
            reveal_with_fuel(pow, 2);
        }
    }
    assert(cert_product(c.skip(0)) == 22int) by {
        assert(c.skip(0).drop_first() =~= c.skip(1));
        assert(c.skip(0)[0] == (2int, 1nat));
        assert(pow(2int, 1nat) == 2int) by {
            reveal_with_fuel(pow, 2);
        }
    }
    assert(c.skip(0) =~= c);
    assert forall|i: int| 0 <= i < c.len() implies is_prime(#[trigger] c[i].0) && c[i].1 >= 1 by {
        if i == 0 {
            assert(c[0].0 == 2int);
        }
        if i == 1 {
            assert(c[1].0 == 11int);
        }
    }
    assert forall|i: int| 0 <= i < c.len() implies #[trigger] (pow(5int, ((23int - 1) / c[i].0) as nat) % 23int) != 1 by {
        if i == 0 {
            assert(c[0].0 == 2int);
            assert((23int - 1) / 2int == 11int);
        }
        if i == 1 {
            assert(c[1].0 == 11int);
            assert((23int - 1) / 11int == 2int);
        }
    }
    lemma_lucas(23int, 5int, c);
}

/// `2^28` modulo `29`, by square-and-multiply.
proof fn lemma_pow_29_full()
    ensures
        pow(2int, 28nat) % 29int == 1int,
{
    lemma_pow_start(2int, 29int, 2int);
    lemma_pow_step(2int, 29int, 1nat, 2int, 1nat, 3nat, 8int);
    lemma_pow_step(2int, 29int, 3nat, 8int, 1nat, 7nat, 12int);
    lemma_pow_step(2int, 29int, 7nat, 12int, 0nat, 14nat, 28int);
    lemma_pow_step(2int, 29int, 14nat, 28int, 0nat, 28nat, 1int);
}

/// `2^14` modulo `29`, by square-and-multiply.
proof fn lemma_pow_29_by_2()
    ensures
        pow(2int, 14nat) % 29int == 28int,
{
    lemma_pow_start(2int, 29int, 2int);
    lemma_pow_step(2int, 29int, 1nat, 2int, 1nat, 3nat, 8int);
    lemma_pow_step(2int, 29int, 3nat, 8int, 1nat, 7nat, 12int);
    lemma_pow_step(2int, 29int, 7nat, 12int, 0nat, 14nat, 28int);
}

/// `2^4` modulo `29`, by square-and-multiply.
proof fn lemma_pow_29_by_7()
    ensures
        pow(2int, 4nat) % 29int == 16int,
{
    lemma_pow_start(2int, 29int, 2int);
    lemma_pow_step(2int, 29int, 1nat, 2int, 0nat, 2nat, 4int);
    lemma_pow_step(2int, 29int, 2nat, 4int, 0nat, 4nat, 16int);
}

/// 29 is prime: a Lucas certificate with witness 2.
pub proof fn lemma_prime_29()
    ensures
        is_prime(29int),
{
    lemma_prime_2();
    lemma_prime_7();
    lemma_pow_29_full();
    lemma_pow_29_by_2();
    lemma_pow_29_by_7();
    let c: Seq<(int, nat)> = seq![(2int, 2nat), (7int, 1nat)];
    assert(c[0] == (2int, 2nat));
    assert(c[1] == (7int, 1nat));
    assert(cert_product(c.skip(2)) == 1) by {
        assert(c.skip(2) =~= Seq::<(int, nat)>::empty());
    }
    assert(cert_product(c.skip(1)) == 7int) by {
        assert(c.skip(1).drop_first() =~= c.skip(2));
        assert(c.skip(1)[0] == (7int, 1nat));
        assert(pow(7int, 1nat) == 7int) by {
            reveal_with_fuel(pow, 2);
        }
    }
    assert(cert_product(c.skip(0)) == 28int) by {
        assert(c.skip(0).drop_first() =~= c.skip(1));
        assert(c.skip(0)[0] == (2int, 2nat));
        assert(pow(2int, 2nat) == 4int) by {
            reveal_with_fuel(pow, 3);
        }
    }
    assert(c.skip(0) =~= c);
    assert forall|i: int| 0 <= i < c.len() implies is_prime(#[trigger] c[i].0) && c[i].1 >= 1 by {
        if i == 0 {
            assert(c[0].0 == 2int);
        }
        if i == 1 {
            assert(c[1].0 == 7int);
        }
    }
    assert forall|i: int| 0 <= i < c.len() implies #[trigger] (pow(2int, ((29int - 1) / c[i].0) as nat) % 29int) != 1 by {
        if i == 0 {
            assert(c[0].0 == 2int);
            assert((29int - 1) / 2int == 14int);
        }
        if i == 1 {
            assert(c[1].0 == 7int);
            assert((29int - 1) / 7int == 4int);
        }
    }
    lemma_lucas(29int, 2int, c);
}

/// `6^40` modulo `41`, by square-and-multiply.
proof fn lemma_pow_41_full()
    ensures
        pow(6int, 40nat) % 41int == 1int,
{
    lemma_pow_start(6int, 41int, 6int);
    lemma_pow_step(6int, 41int, 1nat, 6int, 0nat, 2nat, 36int);
    lemma_pow_step(6int, 41int, 2nat, 36int, 1nat, 5nat, 27int);
    lemma_pow_step(6int, 41int, 5nat, 27int, 0nat, 10nat, 32int);
    lemma_pow_step(6int, 41int, 10nat, 32int, 0nat, 20nat, 40int);
    lemma_pow_step(6int, 41int, 20nat, 40int, 0nat, 40nat, 1int);
}

/// `6^20` modulo `41`, by square-and-multiply.
proof fn lemma_pow_41_by_2()
    ensures
        pow(6int, 20nat) % 41int == 40int,
{
    lemma_pow_start(6int, 41int, 6int);
    lemma_pow_step(6int, 41int, 1nat, 6int, 0nat, 2nat, 36int);
    lemma_pow_step(6int, 41int, 2nat, 36int, 1nat, 5nat, 27int);
    lemma_pow_step(6int, 41int, 5nat, 27int, 0nat, 10nat, 32int);
    lemma_pow_step(6int, 41int, 10nat, 32int, 0nat, 20nat, 40int);
}

/// `6^8` modulo `41`, by square-and-multiply.
proof fn lemma_pow_41_by_5()
    ensures
        pow(6int, 8nat) % 41int == 10int,
{
    lemma_pow_start(6int, 41int, 6int);
    lemma_pow_step(6int, 41int, 1nat, 6int, 0nat, 2nat, 36int);
    lemma_pow_step(6int, 41int, 2nat, 36int, 0nat, 4nat, 25int);
    lemma_pow_step(6int, 41int, 4nat, 25int, 0nat, 8nat, 10int);
}

/// 41 is prime: a Lucas certificate with witness 6.
pub proof fn lemma_prime_41()
    ensures
        is_prime(41int),
{
    lemma_prime_2();
    lemma_prime_5();
    lemma_pow_41_full();
    lemma_pow_41_by_2();
    lemma_pow_41_by_5();
    let c: Seq<(int, nat)> = seq![(2int, 3nat), (5int, 1nat)];
    assert(c[0] == (2int, 3nat));
    assert(c[1] == (5int, 1nat));
    assert(cert_product(c.skip(2)) == 1) by {
        assert(c.skip(2) =~= Seq::<(int, nat)>::empty());
    }
    assert(cert_product(c.skip(1)) == 5int) by {
        assert(c.skip(1).drop_first() =~= c.skip(2));
        assert(c.skip(1)[0] == (5int, 1nat));
        assert(pow(5int, 1nat) == 5int) by {
            reveal_with_fuel(pow, 2);
        }
    }
    assert(cert_product(c.skip(0)) == 40int) by {
        assert(c.skip(0).drop_first() =~= c.skip(1));
        assert(c.skip(0)[0] == (2int, 3nat));
        assert(pow(2int, 3nat) == 8int) by {
            reveal_with_fuel(pow, 4);
        }
    }
    assert(c.skip(0) =~= c);
    assert forall|i: int| 0 <= i < c.len() implies is_prime(#[trigger] c[i].0) && c[i].1 >= 1 by {
        if i == 0 {
            assert(c[0].0 == 2int);
        }
        if i == 1 {
            assert(c[1].0 == 5int);
        }
    }
    assert forall|i: int| 0 <= i < c.len() implies #[trigger] (pow(6int, ((41int - 1) / c[i].0) as nat) % 41int) != 1 by {
        if i == 0 {
            assert(c[0].0 == 2int);
            assert((41int - 1) / 2int == 20int);
        }
        if i == 1 {
            assert(c[1].0 == 5int);
            assert((41int - 1) / 5int == 8int);
        }
    }
    lemma_lucas(41int, 6int, c);
}

/// `3^42` modulo `43`, by square-and-multiply.
proof fn lemma_pow_43_full()
    ensures
        pow(3int, 42nat) % 43int == 1int,
{
    lemma_pow_start(3int, 43int, 3int);
    lemma_pow_step(3int, 43int, 1nat, 3int, 0nat, 2nat, 9int);
    lemma_pow_step(3int, 43int, 2nat, 9int, 1nat, 5nat, 28int);
    lemma_pow_step(3int, 43int, 5nat, 28int, 0nat, 10nat, 10int);
    lemma_pow_step(3int, 43int, 10nat, 10int, 1nat, 21nat, 42int);
    lemma_pow_step(3int, 43int, 21nat, 42int, 0nat, 42nat, 1int);
}

/// `3^21` modulo `43`, by square-and-multiply.
proof fn lemma_pow_43_by_2()
    ensures
        pow(3int, 21nat) % 43int == 42int,
{
    lemma_pow_start(3int, 43int, 3int);
    lemma_pow_step(3int, 43int, 1nat, 3int, 0nat, 2nat, 9int);
    lemma_pow_step(3int, 43int, 2nat, 9int, 1nat, 5nat, 28int);
    lemma_pow_step(3int, 43int, 5nat, 28int, 0nat, 10nat, 10int);
    lemma_pow_step(3int, 43int, 10nat, 10int, 1nat, 21nat, 42int);
}

/// `3^14` modulo `43`, by square-and-multiply.
proof fn lemma_pow_43_by_3()
    ensures
        pow(3int, 14nat) % 43int == 36int,
{
    lemma_pow_start(3int, 43int, 3int);
    lemma_pow_step(3int, 43int, 1nat, 3int, 1nat, 3nat, 27int);
    lemma_pow_step(3int, 43int, 3nat, 27int, 1nat, 7nat, 37int);
    lemma_pow_step(3int, 43int, 7nat, 37int, 0nat, 14nat, 36int);
}

/// `3^6` modulo `43`, by square-and-multiply.
proof fn lemma_pow_43_by_7()
    ensures
        pow(3int, 6nat) % 43int == 41int,
{
    lemma_pow_start(3int, 43int, 3int);
    lemma_pow_step(3int, 43int, 1nat, 3int, 1nat, 3nat, 27int);
    lemma_pow_step(3int, 43int, 3nat, 27int, 0nat, 6nat, 41int);
}

/// 43 is prime: a Lucas certificate with witness 3.
pub proof fn lemma_prime_43()
    ensures
        is_prime(43int),
{
    lemma_prime_2();
    lemma_prime_3();
    lemma_prime_7();
    lemma_pow_43_full();
    lemma_pow_43_by_2();
    lemma_pow_43_by_3();
    lemma_pow_43_by_7();
    let c: Seq<(int, nat)> = seq![(2int, 1nat), (3int, 1nat), (7int, 1nat)];
    assert(c[0] == (2int, 1nat));
    assert(c[1] == (3int, 1nat));
    assert(c[2] == (7int, 1nat));
    assert(cert_product(c.skip(3)) == 1) by {
        assert(c.skip(3) =~= Seq::<(int, nat)>::empty());
    }
    assert(cert_product(c.skip(2)) == 7int) by {
        assert(c.skip(2).drop_first() =~= c.skip(3));
        assert(c.skip(2)[0] == (7int, 1nat));
        assert(pow(7int, 1nat) == 7int) by {
            reveal_with_fuel(pow, 2);
        }
    }
    assert(cert_product(c.skip(1)) == 21int) by {
        assert(c.skip(1).drop_first() =~= c.skip(2));
        assert(c.skip(1)[0] == (3int, 1nat));
        assert(pow(3int, 1nat) == 3int) by {
            reveal_with_fuel(pow, 2);
        }
    }
    assert(cert_product(c.skip(0)) == 42int) by {
        assert(c.skip(0).drop_first() =~= c.skip(1));
        assert(c.skip(0)[0] == (2int, 1nat));
        assert(pow(2int, 1nat) == 2int) by {
            reveal_with_fuel(pow, 2);
        }
    }
    assert(c.skip(0) =~= c);
    assert forall|i: int| 0 <= i < c.len() implies is_prime(#[trigger] c[i].0) && c[i].1 >= 1 by {
        if i == 0 {
            assert(c[0].0 == 2int);
        }
        if i == 1 {
            assert(c[1].0 == 3int);
        }
        if i == 2 {
            assert(c[2].0 == 7int);
        }
    }
    assert forall|i: int| 0 <= i < c.len() implies #[trigger] (pow(3int, ((43int - 1) / c[i].0) as nat) % 43int) != 1 by {
        if i == 0 {
            assert(c[0].0 == 2int);
            assert((43int - 1) / 2int == 21int);
        }
        if i == 1 {
            assert(c[1].0 == 3int);
            assert((43int - 1) / 3int == 14int);
        }
        if i == 2 {
            assert(c[2].0 == 7int);
            assert((43int - 1) / 7int == 6int);
        }
    }
    lemma_lucas(43int, 3int, c);
}

/// `2^52` modulo `53`, by square-and-multiply.
proof fn lemma_pow_53_full()
    ensures
        pow(2int, 52nat) % 53int == 1int,
{
    lemma_pow_start(2int, 53int, 2int);
    lemma_pow_step(2int, 53int, 1nat, 2int, 1nat, 3nat, 8int);
    lemma_pow_step(2int, 53int, 3nat, 8int, 0nat, 6nat, 11int);
    lemma_pow_step(2int, 53int, 6nat, 11int, 1nat, 13nat, 30int);
    lemma_pow_step(2int, 53int, 13nat, 30int, 0nat, 26nat, 52int);
    lemma_pow_step(2int, 53int, 26nat, 52int, 0nat, 52nat, 1int);
}

/// `2^26` modulo `53`, by square-and-multiply.
proof fn lemma_pow_53_by_2()
    ensures
        pow(2int, 26nat) % 53int == 52int,
{
    lemma_pow_start(2int, 53int, 2int);
    lemma_pow_step(2int, 53int, 1nat, 2int, 1nat, 3nat, 8int);
    lemma_pow_step(2int, 53int, 3nat, 8int, 0nat, 6nat, 11int);
    lemma_pow_step(2int, 53int, 6nat, 11int, 1nat, 13nat, 30int);
    lemma_pow_step(2int, 53int, 13nat, 30int, 0nat, 26nat, 52int);
}

/// `2^4` modulo `53`, by square-and-multiply.
proof fn lemma_pow_53_by_13()
    ensures
        pow(2int, 4nat) % 53int == 16int,
{
    lemma_pow_start(2int, 53int, 2int);
    lemma_pow_step(2int, 53int, 1nat, 2int, 0nat, 2nat, 4int);
    lemma_pow_step(2int, 53int, 2nat, 4int, 0nat, 4nat, 16int);
}

/// 53 is prime: a Lucas certificate with witness 2.
pub proof fn lemma_prime_53()
    ensures
        is_prime(53int),
{
    lemma_prime_2();
    lemma_prime_13();
    lemma_pow_53_full();
    lemma_pow_53_by_2();
    lemma_pow_53_by_13();
    let c: Seq<(int, nat)> = seq![(2int, 2nat), (13int, 1nat)];
    assert(c[0] == (2int, 2nat));
    assert(c[1] == (13int, 1nat));
    assert(cert_product(c.skip(2)) == 1) by {
        assert(c.skip(2) =~= Seq::<(int, nat)>::empty());
    }
    assert(cert_product(c.skip(1)) == 13int) by {
        assert(c.skip(1).drop_first() =~= c.skip(2));
        assert(c.skip(1)[0] == (13int, 1nat));
        assert(pow(13int, 1nat) == 13int) by {
            reveal_with_fuel(pow, 2);
        }
    }
    assert(cert_product(c.skip(0)) == 52int) by {
        assert(c.skip(0).drop_first() =~= c.skip(1));
        assert(c.skip(0)[0] == (2int, 2nat));
        assert(pow(2int, 2nat) == 4int) by {
            reveal_with_fuel(pow, 3);
        }
    }
    assert(c.skip(0) =~= c);
    assert forall|i: int| 0 <= i < c.len() implies is_prime(#[trigger] c[i].0) && c[i].1 >= 1 by {
        if i == 0 {
            assert(c[0].0 == 2int);
        }
        if i == 1 {
            assert(c[1].0 == 13int);
        }
    }
    assert forall|i: int| 0 <= i < c.len() implies #[trigger] (pow(2int, ((53int - 1) / c[i].0) as nat) % 53int) != 1 by {
        if i == 0 {
            assert(c[0].0 == 2int);
            assert((53int - 1) / 2int == 26int);
        }
        if i == 1 {
            assert(c[1].0 == 13int);
            assert((53int - 1) / 13int == 4int);
        }
    }
    lemma_lucas(53int, 2int, c);
}

/// `2^58` modulo `59`, by square-and-multiply.
proof fn lemma_pow_59_full()
    ensures
        pow(2int, 58nat) % 59int == 1int,
{
    lemma_pow_start(2int, 59int, 2int);
    lemma_pow_step(2int, 59int, 1nat, 2int, 1nat, 3nat, 8int);
    lemma_pow_step(2int, 59int, 3nat, 8int, 1nat, 7nat, 10int);
    lemma_pow_step(2int, 59int, 7nat, 10int, 0nat, 14nat, 41int);
    lemma_pow_step(2int, 59int, 14nat, 41int, 1nat, 29nat, 58int);
    lemma_pow_step(2int, 59int, 29nat, 58int, 0nat, 58nat, 1int);
}

/// `2^29` modulo `59`, by square-and-multiply.
proof fn lemma_pow_59_by_2()
    ensures
        pow(2int, 29nat) % 59int == 58int,
{
    lemma_pow_start(2int, 59int, 2int);
    lemma_pow_step(2int, 59int, 1nat, 2int, 1nat, 3nat, 8int);
    lemma_pow_step(2int, 59int, 3nat, 8int, 1nat, 7nat, 10int);
    lemma_pow_step(2int, 59int, 7nat, 10int, 0nat, 14nat, 41int);
    lemma_pow_step(2int, 59int, 14nat, 41int, 1nat, 29nat, 58int);
}

/// `2^2` modulo `59`, by square-and-multiply.
proof fn lemma_pow_59_by_29()
    ensures
        pow(2int, 2nat) % 59int == 4int,
{
    lemma_pow_start(2int, 59int, 2int);
    lemma_pow_step(2int, 59int, 1nat, 2int, 0nat, 2nat, 4int);
}

/// 59 is prime: a Lucas certificate with witness 2.
pub proof fn lemma_prime_59()
    ensures
        is_prime(59int),
{
    lemma_prime_2();
    lemma_prime_29();
    lemma_pow_59_full();
    lemma_pow_59_by_2();
    lemma_pow_59_by_29();
    let c: Seq<(int, nat)> = seq![(2int, 1nat), (29int, 1nat)];
    assert(c[0] == (2int, 1nat));
    assert(c[1] == (29int, 1nat));
    assert(cert_product(c.skip(2)) == 1) by {
        assert(c.skip(2) =~= Seq::<(int, nat)>::empty());
    }
    assert(cert_product(c.skip(1)) == 29int) by {
        assert(c.skip(1).drop_first() =~= c.skip(2));
        assert(c.skip(1)[0] == (29int, 1nat));
        assert(pow(29int, 1nat) == 29int) by {
            reveal_with_fuel(pow, 2);
        }
    }
    assert(cert_product(c.skip(0)) == 58int) by {
        assert(c.skip(0).drop_first() =~= c.skip(1));
        assert(c.skip(0)[0] == (2int, 1nat));
        assert(pow(2int, 1nat) == 2int) by {
            reveal_with_fuel(pow, 2);
        }
    }
    assert(c.skip(0) =~= c);
    assert forall|i: int| 0 <= i < c.len() implies is_prime(#[trigger] c[i].0) && c[i].1 >= 1 by {
        if i == 0 {
            assert(c[0].0 == 2int);
        }
        if i == 1 {
            assert(c[1].0 == 29int);
        }
    }
    assert forall|i: int| 0 <= i < c.len() implies #[trigger] (pow(2int, ((59int - 1) / c[i].0) as nat) % 59int) != 1 by {
        if i == 0 {
            assert(c[0].0 == 2int);
            assert((59int - 1) / 2int == 29int);
        }
        if i == 1 {
            assert(c[1].0 == 29int);
            assert((59int - 1) / 29int == 2int);
        }
    }
    lemma_lucas(59int, 2int, c);
}

/// `2^60` modulo `61`, by square-and-multiply.
proof fn lemma_pow_61_full()
    ensures
        pow(2int, 60nat) % 61int == 1int,
{
    lemma_pow_start(2int, 61int, 2int);
    lemma_pow_step(2int, 61int, 1nat, 2int, 1nat, 3nat, 8int);
    lemma_pow_step(2int, 61int, 3nat, 8int, 1nat, 7nat, 6int);
    lemma_pow_step(2int, 61int, 7nat, 6int, 1nat, 15nat, 11int);
    lemma_pow_step(2int, 61int, 15nat, 11int, 0nat, 30nat, 60int);
    lemma_pow_step(2int, 61int, 30nat, 60int, 0nat, 60nat, 1int);
}

/// `2^30` modulo `61`, by square-and-multiply.
proof fn lemma_pow_61_by_2()
    ensures
        pow(2int, 30nat) % 61int == 60int,
{
    lemma_pow_start(2int, 61int, 2int);
    lemma_pow_step(2int, 61int, 1nat, 2int, 1nat, 3nat, 8int);
    lemma_pow_step(2int, 61int, 3nat, 8int, 1nat, 7nat, 6int);
    lemma_pow_step(2int, 61int, 7nat, 6int, 1nat, 15nat, 11int);
    lemma_pow_step(2int, 61int, 15nat, 11int, 0nat, 30nat, 60int);
}

/// `2^20` modulo `61`, by square-and-multiply.
proof fn lemma_pow_61_by_3()
    ensures
        pow(2int, 20nat) % 61int == 47int,
{
    lemma_pow_start(2int, 61int, 2int);
    lemma_pow_step(2int, 61int, 1nat, 2int, 0nat, 2nat, 4int);
    lemma_pow_step(2int, 61int, 2nat, 4int, 1nat, 5nat, 32int);
    lemma_pow_step(2int, 61int, 5nat, 32int, 0nat, 10nat, 48int);
    lemma_pow_step(2int, 61int, 10nat, 48int, 0nat, 20nat, 47int);
}

/// `2^12` modulo `61`, by square-and-multiply.
proof fn lemma_pow_61_by_5()
    ensures
        pow(2int, 12nat) % 61int == 9int,
{
    lemma_pow_start(2int, 61int, 2int);
    lemma_pow_step(2int, 61int, 1nat, 2int, 1nat, 3nat, 8int);
    lemma_pow_step(2int, 61int, 3nat, 8int, 0nat, 6nat, 3int);
    lemma_pow_step(2int, 61int, 6nat, 3int, 0nat, 12nat, 9int);
}

/// 61 is prime: a Lucas certificate with witness 2.
pub proof fn lemma_prime_61()
    ensures
        is_prime(61int),
{
    lemma_prime_2();
    lemma_prime_3();
    lemma_prime_5();
    lemma_pow_61_full();
    lemma_pow_61_by_2();
    lemma_pow_61_by_3();
    lemma_pow_61_by_5();
    let c: Seq<(int, nat)> = seq![(2int, 2nat), (3int, 1nat), (5int, 1nat)];
    assert(c[0] == (2int, 2nat));
    assert(c[1] == (3int, 1nat));
    assert(c[2] == (5int, 1nat));
    assert(cert_product(c.skip(3)) == 1) by {
        assert(c.skip(3) =~= Seq::<(int, nat)>::empty());
    }
    assert(cert_product(c.skip(2)) == 5int) by {
        assert(c.skip(2).drop_first() =~= c.skip(3));
        assert(c.skip(2)[0] == (5int, 1nat));
        assert(pow(5int, 1nat) == 5int) by {
            reveal_with_fuel(pow, 2);
        }
    }
    assert(cert_product(c.skip(1)) == 15int) by {
        assert(c.skip(1).drop_first() =~= c.skip(2));
        assert(c.skip(1)[0] == (3int, 1nat));
        assert(pow(3int, 1nat) == 3int) by {
            reveal_with_fuel(pow, 2);
        }
    }
    assert(cert_product(c.skip(0)) == 60int) by {
        assert(c.skip(0).drop_first() =~= c.skip(1));
        assert(c.skip(0)[0] == (2int, 2nat));
        assert(pow(2int, 2nat) == 4int) by {
            reveal_with_fuel(pow, 3);
        }
    }
    assert(c.skip(0) =~= c);
    assert forall|i: int| 0 <= i < c.len() implies is_prime(#[trigger] c[i].0) && c[i].1 >= 1 by {
        if i == 0 {
            assert(c[0].0 == 2int);
        }
        if i == 1 {
            assert(c[1].0 == 3int);
        }
        if i == 2 {
            assert(c[2].0 == 5int);
        }
    }
    assert forall|i: int| 0 <= i < c.len() implies #[trigger] (pow(2int, ((61int - 1) / c[i].0) as nat) % 61int) != 1 by {
        if i == 0 {
            assert(c[0].0 == 2int);
            assert((61int - 1) / 2int == 30int);
        }
        if i == 1 {
            assert(c[1].0 == 3int);
            assert((61int - 1) / 3int == 20int);
        }
        if i == 2 {
            assert(c[2].0 == 5int);
            assert((61int - 1) / 5int == 12int);
        }
    }
    lemma_lucas(61int, 2int, c);
}

/// `2^66` modulo `67`, by square-and-multiply.
proof fn lemma_pow_67_full()
    ensures
        pow(2int, 66nat) % 67int == 1int,
{
    lemma_pow_start(2int, 67int, 2int);
    lemma_pow_step(2int, 67int, 1nat, 2int, 0nat, 2nat, 4int);
    lemma_pow_step(2int, 67int, 2nat, 4int, 0nat, 4nat, 16int);
    lemma_pow_step(2int, 67int, 4nat, 16int, 0nat, 8nat, 55int);
    lemma_pow_step(2int, 67int, 8nat, 55int, 0nat, 16nat, 10int);
    lemma_pow_step(2int, 67int, 16nat, 10int, 1nat, 33nat, 66int);
    lemma_pow_step(2int, 67int, 33nat, 66int, 0nat, 66nat, 1int);
}

/// `2^33` modulo `67`, by square-and-multiply.
proof fn lemma_pow_67_by_2()
    ensures
        pow(2int, 33nat) % 67int == 66int,
{
    lemma_pow_start(2int, 67int, 2int);
    lemma_pow_step(2int, 67int, 1nat, 2int, 0nat, 2nat, 4int);
    lemma_pow_step(2int, 67int, 2nat, 4int, 0nat, 4nat, 16int);
    lemma_pow_step(2int, 67int, 4nat, 16int, 0nat, 8nat, 55int);
    lemma_pow_step(2int, 67int, 8nat, 55int, 0nat, 16nat, 10int);
    lemma_pow_step(2int, 67int, 16nat, 10int, 1nat, 33nat, 66int);
}

/// `2^22` modulo `67`, by square-and-multiply.
proof fn lemma_pow_67_by_3()
    ensures
        pow(2int, 22nat) % 67int == 37int,
{
    lemma_pow_start(2int, 67int, 2int);
    lemma_pow_step(2int, 67int, 1nat, 2int, 0nat, 2nat, 4int);
    lemma_pow_step(2int, 67int, 2nat, 4int, 1nat, 5nat, 32int);
    lemma_pow_step(2int, 67int, 5nat, 32int, 1nat, 11nat, 38int);
    lemma_pow_step(2int, 67int, 11nat, 38int, 0nat, 22nat, 37int);
}

/// `2^6` modulo `67`, by square-and-multiply.
proof fn lemma_pow_67_by_11()
    ensures
        pow(2int, 6nat) % 67int == 64int,
{
    lemma_pow_start(2int, 67int, 2int);
    lemma_pow_step(2int, 67int, 1nat, 2int, 1nat, 3nat, 8int);
    lemma_pow_step(2int, 67int, 3nat, 8int, 0nat, 6nat, 64int);
}

/// 67 is prime: a Lucas certificate with witness 2.
pub proof fn lemma_prime_67()
    ensures
        is_prime(67int),
{
    lemma_prime_2();
    lemma_prime_3();
    lemma_prime_11();
    lemma_pow_67_full();
    lemma_pow_67_by_2();
    lemma_pow_67_by_3();
    lemma_pow_67_by_11();
    let c: Seq<(int, nat)> = seq![(2int, 1nat), (3int, 1nat), (11int, 1nat)];
    assert(c[0] == (2int, 1nat));
    assert(c[1] == (3int, 1nat));
    assert(c[2] == (11int, 1nat));
    assert(cert_product(c.skip(3)) == 1) by {
        assert(c.skip(3) =~= Seq::<(int, nat)>::empty());
    }
    assert(cert_product(c.skip(2)) == 11int) by {
        assert(c.skip(2).drop_first() =~= c.skip(3));
        assert(c.skip(2)[0] == (11int, 1nat));
        assert(pow(11int, 1nat) == 11int) by {
            reveal_with_fuel(pow, 2);
        }
    }
    assert(cert_product(c.skip(1)) == 33int) by {
        assert(c.skip(1).drop_first() =~= c.skip(2));
        assert(c.skip(1)[0] == (3int, 1nat));
        assert(pow(3int, 1nat) == 3int) by {
            reveal_with_fuel(pow, 2);
        }
    }
    assert(cert_product(c.skip(0)) == 66int) by {
        assert(c.skip(0).drop_first() =~= c.skip(1));
        assert(c.skip(0)[0] == (2int, 1nat));
        assert(pow(2int, 1nat) == 2int) by {
            reveal_with_fuel(pow, 2);
        }
    }
    assert(c.skip(0) =~= c);
    assert forall|i: int| 0 <= i < c.len() implies is_prime(#[trigger] c[i].0) && c[i].1 >= 1 by {
        if i == 0 {
            assert(c[0].0 == 2int);
        }
        if i == 1 {
            assert(c[1].0 == 3int);
        }
        if i == 2 {
            assert(c[2].0 == 11int);
        }
    }
    assert forall|i: int| 0 <= i < c.len() implies #[trigger] (pow(2int, ((67int - 1) / c[i].0) as nat) % 67int) != 1 by {
        if i == 0 {
            assert(c[0].0 == 2int);
            assert((67int - 1) / 2int == 33int);
        }
        if i == 1 {
            assert(c[1].0 == 3int);
            assert((67int - 1) / 3int == 22int);
        }
        if i == 2 {
            assert(c[2].0 == 11int);
            assert((67int - 1) / 11int == 6int);
        }
    }
    lemma_lucas(67int, 2int, c);
}

/// `3^88` modulo `89`, by square-and-multiply.
proof fn lemma_pow_89_full()
    ensures
        pow(3int, 88nat) % 89int == 1int,
{
    lemma_pow_start(3int, 89int, 3int);
    lemma_pow_step(3int, 89int, 1nat, 3int, 0nat, 2nat, 9int);
    lemma_pow_step(3int, 89int, 2nat, 9int, 1nat, 5nat, 65int);
    lemma_pow_step(3int, 89int, 5nat, 65int, 1nat, 11nat, 37int);
    lemma_pow_step(3int, 89int, 11nat, 37int, 0nat, 22nat, 34int);
    lemma_pow_step(3int, 89int, 22nat, 34int, 0nat, 44nat, 88int);
    lemma_pow_step(3int, 89int, 44nat, 88int, 0nat, 88nat, 1int);
}

/// `3^44` modulo `89`, by square-and-multiply.
proof fn lemma_pow_89_by_2()
    ensures
        pow(3int, 44nat) % 89int == 88int,
{
    lemma_pow_start(3int, 89int, 3int);
    lemma_pow_step(3int, 89int, 1nat, 3int, 0nat, 2nat, 9int);
    lemma_pow_step(3int, 89int, 2nat, 9int, 1nat, 5nat, 65int);
    lemma_pow_step(3int, 89int, 5nat, 65int, 1nat, 11nat, 37int);
    lemma_pow_step(3int, 89int, 11nat, 37int, 0nat, 22nat, 34int);
    lemma_pow_step(3int, 89int, 22nat, 34int, 0nat, 44nat, 88int);
}

/// `3^8` modulo `89`, by square-and-multiply.
proof fn lemma_pow_89_by_11()
    ensures
        pow(3int, 8nat) % 89int == 64int,
{
    lemma_pow_start(3int, 89int, 3int);
    lemma_pow_step(3int, 89int, 1nat, 3int, 0nat, 2nat, 9int);
    lemma_pow_step(3int, 89int, 2nat, 9int, 0nat, 4nat, 81int);
    lemma_pow_step(3int, 89int, 4nat, 81int, 0nat, 8nat, 64int);
}

/// 89 is prime: a Lucas certificate with witness 3.
pub proof fn lemma_prime_89()
    ensures
        is_prime(89int),
{
    lemma_prime_2();
    lemma_prime_11();
    lemma_pow_89_full();
    lemma_pow_89_by_2();
    lemma_pow_89_by_11();
    let c: Seq<(int, nat)> = seq![(2int, 3nat), (11int, 1nat)];
    assert(c[0] == (2int, 3nat));
    assert(c[1] == (11int, 1nat));
    assert(cert_product(c.skip(2)) == 1) by {
        assert(c.skip(2) =~= Seq::<(int, nat)>::empty());
    }
    assert(cert_product(c.skip(1)) == 11int) by {
        assert(c.skip(1).drop_first() =~= c.skip(2));
        assert(c.skip(1)[0] == (11int, 1nat));
        assert(pow(11int, 1nat) == 11int) by {
            reveal_with_fuel(pow, 2);
        }
    }
    assert(cert_product(c.skip(0)) == 88int) by {
        assert(c.skip(0).drop_first() =~= c.skip(1));
        assert(c.skip(0)[0] == (2int, 3nat));
        assert(pow(2int, 3nat) == 8int) by {
            reveal_with_fuel(pow, 4);
        }
    }
    assert(c.skip(0) =~= c);
    assert forall|i: int| 0 <= i < c.len() implies is_prime(#[trigger] c[i].0) && c[i].1 >= 1 by {
        if i == 0 {
            assert(c[0].0 == 2int);
        }
        if i == 1 {
            assert(c[1].0 == 11int);
        }
    }
    assert forall|i: int| 0 <= i < c.len() implies #[trigger] (pow(3int, ((89int - 1) / c[i].0) as nat) % 89int) != 1 by {
        if i == 0 {
            assert(c[0].0 == 2int);
            assert((89int - 1) / 2int == 44int);
        }
        if i == 1 {
            assert(c[1].0 == 11int);
            assert((89int - 1) / 11int == 8int);
        }
    }
    lemma_lucas(89int, 3int, c);
}

/// `3^126` modulo `127`, by square-and-multiply.
proof fn lemma_pow_127_full()
    ensures
        pow(3int, 126nat) % 127int == 1int,
{
    lemma_pow_start(3int, 127int, 3int);
    lemma_pow_step(3int, 127int, 1nat, 3int, 1nat, 3nat, 27int);
    lemma_pow_step(3int, 127int, 3nat, 27int, 1nat, 7nat, 28int);
    lemma_pow_step(3int, 127int, 7nat, 28int, 1nat, 15nat, 66int);
    lemma_pow_step(3int, 127int, 15nat, 66int, 1nat, 31nat, 114int);
    lemma_pow_step(3int, 127int, 31nat, 114int, 1nat, 63nat, 126int);
    lemma_pow_step(3int, 127int, 63nat, 126int, 0nat, 126nat, 1int);
}

/// `3^63` modulo `127`, by square-and-multiply.
proof fn lemma_pow_127_by_2()
    ensures
        pow(3int, 63nat) % 127int == 126int,
{
    lemma_pow_start(3int, 127int, 3int);
    lemma_pow_step(3int, 127int, 1nat, 3int, 1nat, 3nat, 27int);
    lemma_pow_step(3int, 127int, 3nat, 27int, 1nat, 7nat, 28int);
    lemma_pow_step(3int, 127int, 7nat, 28int, 1nat, 15nat, 66int);
    lemma_pow_step(3int, 127int, 15nat, 66int, 1nat, 31nat, 114int);
    lemma_pow_step(3int, 127int, 31nat, 114int, 1nat, 63nat, 126int);
}

/// `3^42` modulo `127`, by square-and-multiply.
proof fn lemma_pow_127_by_3()
    ensures
        pow(3int, 42nat) % 127int == 107int,
{
    lemma_pow_start(3int, 127int, 3int);
    lemma_pow_step(3int, 127int, 1nat, 3int, 0nat, 2nat, 9int);
    lemma_pow_step(3int, 127int, 2nat, 9int, 1nat, 5nat, 116int);
    lemma_pow_step(3int, 127int, 5nat, 116int, 0nat, 10nat, 121int);
    lemma_pow_step(3int, 127int, 10nat, 121int, 1nat, 21nat, 108int);
    lemma_pow_step(3int, 127int, 21nat, 108int, 0nat, 42nat, 107int);
}

/// `3^18` modulo `127`, by square-and-multiply.
proof fn lemma_pow_127_by_7()
    ensures
        pow(3int, 18nat) % 127int == 4int,
{
    lemma_pow_start(3int, 127int, 3int);
    lemma_pow_step(3int, 127int, 1nat, 3int, 0nat, 2nat, 9int);
    lemma_pow_step(3int, 127int, 2nat, 9int, 0nat, 4nat, 81int);
    lemma_pow_step(3int, 127int, 4nat, 81int, 1nat, 9nat, 125int);
    lemma_pow_step(3int, 127int, 9nat, 125int, 0nat, 18nat, 4int);
}

/// 127 is prime: a Lucas certificate with witness 3.
pub proof fn lemma_prime_127()
    ensures
        is_prime(127int),
{
    lemma_prime_2();
    lemma_prime_3();
    lemma_prime_7();
    lemma_pow_127_full();
    lemma_pow_127_by_2();
    lemma_pow_127_by_3();
    lemma_pow_127_by_7();
    let c: Seq<(int, nat)> = seq![(2int, 1nat), (3int, 2nat), (7int, 1nat)];
    assert(c[0] == (2int, 1nat));
    assert(c[1] == (3int, 2nat));
    assert(c[2] == (7int, 1nat));
    assert(cert_product(c.skip(3)) == 1) by {
        assert(c.skip(3) =~= Seq::<(int, nat)>::empty());
    }
    assert(cert_product(c.skip(2)) == 7int) by {
        assert(c.skip(2).drop_first() =~= c.skip(3));
        assert(c.skip(2)[0] == (7int, 1nat));
        assert(pow(7int, 1nat) == 7int) by {
            reveal_with_fuel(pow, 2);
        }
    }
    assert(cert_product(c.skip(1)) == 63int) by {
        assert(c.skip(1).drop_first() =~= c.skip(2));
        assert(c.skip(1)[0] == (3int, 2nat));
        assert(pow(3int, 2nat) == 9int) by {
            reveal_with_fuel(pow, 3);
        }
    }
    assert(cert_product(c.skip(0)) == 126int) by {
        assert(c.skip(0).drop_first() =~= c.skip(1));
        assert(c.skip(0)[0] == (2int, 1nat));
        assert(pow(2int, 1nat) == 2int) by {
            reveal_with_fuel(pow, 2);
        }
    }
    assert(c.skip(0) =~= c);
    assert forall|i: int| 0 <= i < c.len() implies is_prime(#[trigger] c[i].0) && c[i].1 >= 1 by {
        if i == 0 {
            assert(c[0].0 == 2int);
        }
        if i == 1 {
            assert(c[1].0 == 3int);
        }
        if i == 2 {
            assert(c[2].0 == 7int);
        }
    }
    assert forall|i: int| 0 <= i < c.len() implies #[trigger] (pow(3int, ((127int - 1) / c[i].0) as nat) % 127int) != 1 by {
        if i == 0 {
            assert(c[0].0 == 2int);
            assert((127int - 1) / 2int == 63int);
        }
        if i == 1 {
            assert(c[1].0 == 3int);
            assert((127int - 1) / 3int == 42int);
        }
        if i == 2 {
            assert(c[2].0 == 7int);
            assert((127int - 1) / 7int == 18int);
        }
    }
    lemma_lucas(127int, 3int, c);
}

/// `2^172` modulo `173`, by square-and-multiply.
proof fn lemma_pow_173_full()
    ensures
        pow(2int, 172nat) % 173int == 1int,
{
    lemma_pow_start(2int, 173int, 2int);
    lemma_pow_step(2int, 173int, 1nat, 2int, 0nat, 2nat, 4int);
    lemma_pow_step(2int, 173int, 2nat, 4int, 1nat, 5nat, 32int);
    lemma_pow_step(2int, 173int, 5nat, 32int, 0nat, 10nat, 159int);
    lemma_pow_step(2int, 173int, 10nat, 159int, 1nat, 21nat, 46int);
    lemma_pow_step(2int, 173int, 21nat, 46int, 1nat, 43nat, 80int);
    lemma_pow_step(2int, 173int, 43nat, 80int, 0nat, 86nat, 172int);
    lemma_pow_step(2int, 173int, 86nat, 172int, 0nat, 172nat, 1int);
}

/// `2^86` modulo `173`, by square-and-multiply.
proof fn lemma_pow_173_by_2()
    ensures
        pow(2int, 86nat) % 173int == 172int,
{
    lemma_pow_start(2int, 173int, 2int);
    lemma_pow_step(2int, 173int, 1nat, 2int, 0nat, 2nat, 4int);
    lemma_pow_step(2int, 173int, 2nat, 4int, 1nat, 5nat, 32int);
    lemma_pow_step(2int, 173int, 5nat, 32int, 0nat, 10nat, 159int);
    lemma_pow_step(2int, 173int, 10nat, 159int, 1nat, 21nat, 46int);
    lemma_pow_step(2int, 173int, 21nat, 46int, 1nat, 43nat, 80int);
    lemma_pow_step(2int, 173int, 43nat, 80int, 0nat, 86nat, 172int);
}

/// `2^4` modulo `173`, by square-and-multiply.
proof fn lemma_pow_173_by_43()
    ensures
        pow(2int, 4nat) % 173int == 16int,
{
    lemma_pow_start(2int, 173int, 2int);
    lemma_pow_step(2int, 173int, 1nat, 2int, 0nat, 2nat, 4int);
    lemma_pow_step(2int, 173int, 2nat, 4int, 0nat, 4nat, 16int);
}

/// 173 is prime: a Lucas certificate with witness 2.
pub proof fn lemma_prime_173()
    ensures
        is_prime(173int),
{
    lemma_prime_2();
    lemma_prime_43();
    lemma_pow_173_full();
    lemma_pow_173_by_2();
    lemma_pow_173_by_43();
    let c: Seq<(int, nat)> = seq![(2int, 2nat), (43int, 1nat)];
    assert(c[0] == (2int, 2nat));
    assert(c[1] == (43int, 1nat));
    assert(cert_product(c.skip(2)) == 1) by {
        assert(c.skip(2) =~= Seq::<(int, nat)>::empty());
    }
    assert(cert_product(c.skip(1)) == 43int) by {
        assert(c.skip(1).drop_first() =~= c.skip(2));
        assert(c.skip(1)[0] == (43int, 1nat));
        assert(pow(43int, 1nat) == 43int) by {
            reveal_with_fuel(pow, 2);
        }
    }
    assert(cert_product(c.skip(0)) == 172int) by {
        assert(c.skip(0).drop_first() =~= c.skip(1));
        assert(c.skip(0)[0] == (2int, 2nat));
        assert(pow(2int, 2nat) == 4int) by {
            reveal_with_fuel(pow, 3);
        }
    }
    assert(c.skip(0) =~= c);
    assert forall|i: int| 0 <= i < c.len() implies is_prime(#[trigger] c[i].0) && c[i].1 >= 1 by {
        if i == 0 {
            assert(c[0].0 == 2int);
        }
        if i == 1 {
            assert(c[1].0 == 43int);
        }
    }
    assert forall|i: int| 0 <= i < c.len() implies #[trigger] (pow(2int, ((173int - 1) / c[i].0) as nat) % 173int) != 1 by {
        if i == 0 {
            assert(c[0].0 == 2int);
            assert((173int - 1) / 2int == 86int);
        }
        if i == 1 {
            assert(c[1].0 == 43int);
            assert((173int - 1) / 43int == 4int);
        }
    }
    lemma_lucas(173int, 2int, c);
}

/// `2^268` modulo `269`, by square-and-multiply.
proof fn lemma_pow_269_full()
    ensures
        pow(2int, 268nat) % 269int == 1int,
{
    lemma_pow_start(2int, 269int, 2int);
    lemma_pow_step(2int, 269int, 1nat, 2int, 0nat, 2nat, 4int);
    lemma_pow_step(2int, 269int, 2nat, 4int, 0nat, 4nat, 16int);
    lemma_pow_step(2int, 269int, 4nat, 16int, 0nat, 8nat, 256int);
    lemma_pow_step(2int, 269int, 8nat, 256int, 0nat, 16nat, 169int);
    lemma_pow_step(2int, 269int, 16nat, 169int, 1nat, 33nat, 94int);
    lemma_pow_step(2int, 269int, 33nat, 94int, 1nat, 67nat, 187int);
    lemma_pow_step(2int, 269int, 67nat, 187int, 0nat, 134nat, 268int);
    lemma_pow_step(2int, 269int, 134nat, 268int, 0nat, 268nat, 1int);
}

/// `2^134` modulo `269`, by square-and-multiply.
proof fn lemma_pow_269_by_2()
    ensures
        pow(2int, 134nat) % 269int == 268int,
{
    lemma_pow_start(2int, 269int, 2int);
    lemma_pow_step(2int, 269int, 1nat, 2int, 0nat, 2nat, 4int);
    lemma_pow_step(2int, 269int, 2nat, 4int, 0nat, 4nat, 16int);
    lemma_pow_step(2int, 269int, 4nat, 16int, 0nat, 8nat, 256int);
    lemma_pow_step(2int, 269int, 8nat, 256int, 0nat, 16nat, 169int);
    lemma_pow_step(2int, 269int, 16nat, 169int, 1nat, 33nat, 94int);
    lemma_pow_step(2int, 269int, 33nat, 94int, 1nat, 67nat, 187int);
    lemma_pow_step(2int, 269int, 67nat, 187int, 0nat, 134nat, 268int);
}

/// `2^4` modulo `269`, by square-and-multiply.
proof fn lemma_pow_269_by_67()
    ensures
        pow(2int, 4nat) % 269int == 16int,
{
    lemma_pow_start(2int, 269int, 2int);
    lemma_pow_step(2int, 269int, 1nat, 2int, 0nat, 2nat, 4int);
    lemma_pow_step(2int, 269int, 2nat, 4int, 0nat, 4nat, 16int);
}

/// 269 is prime: a Lucas certificate with witness 2.
pub proof fn lemma_prime_269()
    ensures
        is_prime(269int),
{
    lemma_prime_2();
    lemma_prime_67();
    lemma_pow_269_full();
    lemma_pow_269_by_2();
    lemma_pow_269_by_67();
    let c: Seq<(int, nat)> = seq![(2int, 2nat), (67int, 1nat)];
    assert(c[0] == (2int, 2nat));
    assert(c[1] == (67int, 1nat));
    assert(cert_product(c.skip(2)) == 1) by {
        assert(c.skip(2) =~= Seq::<(int, nat)>::empty());
    }
    assert(cert_product(c.skip(1)) == 67int) by {
        assert(c.skip(1).drop_first() =~= c.skip(2));
        assert(c.skip(1)[0] == (67int, 1nat));
        assert(pow(67int, 1nat) == 67int) by {
            reveal_with_fuel(pow, 2);
        }
    }
    assert(cert_product(c.skip(0)) == 268int) by {
        assert(c.skip(0).drop_first() =~= c.skip(1));
        assert(c.skip(0)[0] == (2int, 2nat));
        assert(pow(2int, 2nat) == 4int) by {
            reveal_with_fuel(pow, 3);
        }
    }
    assert(c.skip(0) =~= c);
    assert forall|i: int| 0 <= i < c.len() implies is_prime(#[trigger] c[i].0) && c[i].1 >= 1 by {
        if i == 0 {
            assert(c[0].0 == 2int);
        }
        if i == 1 {
            assert(c[1].0 == 67int);
        }
    }
    assert forall|i: int| 0 <= i < c.len() implies #[trigger] (pow(2int, ((269int - 1) / c[i].0) as nat) % 269int) != 1 by {
        if i == 0 {
            assert(c[0].0 == 2int);
            assert((269int - 1) / 2int == 134int);
        }
        if i == 1 {
            assert(c[1].0 == 67int);
            assert((269int - 1) / 67int == 4int);
        }
    }
    lemma_lucas(269int, 2int, c);
}

/// `3^462` modulo `463`, by square-and-multiply.
proof fn lemma_pow_463_full()
    ensures
        pow(3int, 462nat) % 463int == 1int,
{
    lemma_pow_start(3int, 463int, 3int);
    lemma_pow_step(3int, 463int, 1nat, 3int, 1nat, 3nat, 27int);
    lemma_pow_step(3int, 463int, 3nat, 27int, 1nat, 7nat, 335int);
    lemma_pow_step(3int, 463int, 7nat, 335int, 0nat, 14nat, 179int);
    lemma_pow_step(3int, 463int, 14nat, 179int, 0nat, 28nat, 94int);
    lemma_pow_step(3int, 463int, 28nat, 94int, 1nat, 57nat, 117int);
    lemma_pow_step(3int, 463int, 57nat, 117int, 1nat, 115nat, 323int);
    lemma_pow_step(3int, 463int, 115nat, 323int, 1nat, 231nat, 462int);
    lemma_pow_step(3int, 463int, 231nat, 462int, 0nat, 462nat, 1int);
}

/// `3^231` modulo `463`, by square-and-multiply.
proof fn lemma_pow_463_by_2()
    ensures
        pow(3int, 231nat) % 463int == 462int,
{
    lemma_pow_start(3int, 463int, 3int);
    lemma_pow_step(3int, 463int, 1nat, 3int, 1nat, 3nat, 27int);
    lemma_pow_step(3int, 463int, 3nat, 27int, 1nat, 7nat, 335int);
    lemma_pow_step(3int, 463int, 7nat, 335int, 0nat, 14nat, 179int);
    lemma_pow_step(3int, 463int, 14nat, 179int, 0nat, 28nat, 94int);
    lemma_pow_step(3int, 463int, 28nat, 94int, 1nat, 57nat, 117int);
    lemma_pow_step(3int, 463int, 57nat, 117int, 1nat, 115nat, 323int);
    lemma_pow_step(3int, 463int, 115nat, 323int, 1nat, 231nat, 462int);
}

/// `3^154` modulo `463`, by square-and-multiply.
proof fn lemma_pow_463_by_3()
    ensures
        pow(3int, 154nat) % 463int == 21int,
{
    lemma_pow_start(3int, 463int, 3int);
    lemma_pow_step(3int, 463int, 1nat, 3int, 0nat, 2nat, 9int);
    lemma_pow_step(3int, 463int, 2nat, 9int, 0nat, 4nat, 81int);
    lemma_pow_step(3int, 463int, 4nat, 81int, 1nat, 9nat, 237int);
    lemma_pow_step(3int, 463int, 9nat, 237int, 1nat, 19nat, 438int);
    lemma_pow_step(3int, 463int, 19nat, 438int, 0nat, 38nat, 162int);
    lemma_pow_step(3int, 463int, 38nat, 162int, 1nat, 77nat, 22int);
    lemma_pow_step(3int, 463int, 77nat, 22int, 0nat, 154nat, 21int);
}

/// `3^66` modulo `463`, by square-and-multiply.
proof fn lemma_pow_463_by_7()
    ensures
        pow(3int, 66nat) % 463int == 412int,
{
    lemma_pow_start(3int, 463int, 3int);
    lemma_pow_step(3int, 463int, 1nat, 3int, 0nat, 2nat, 9int);
    lemma_pow_step(3int, 463int, 2nat, 9int, 0nat, 4nat, 81int);
    lemma_pow_step(3int, 463int, 4nat, 81int, 0nat, 8nat, 79int);
    lemma_pow_step(3int, 463int, 8nat, 79int, 0nat, 16nat, 222int);
    lemma_pow_step(3int, 463int, 16nat, 222int, 1nat, 33nat, 155int);
    lemma_pow_step(3int, 463int, 33nat, 155int, 0nat, 66nat, 412int);
}

/// `3^42` modulo `463`, by square-and-multiply.
proof fn lemma_pow_463_by_11()
    ensures
        pow(3int, 42nat) % 463int == 158int,
{
    lemma_pow_start(3int, 463int, 3int);
    lemma_pow_step(3int, 463int, 1nat, 3int, 0nat, 2nat, 9int);
    lemma_pow_step(3int, 463int, 2nat, 9int, 1nat, 5nat, 243int);
    lemma_pow_step(3int, 463int, 5nat, 243int, 0nat, 10nat, 248int);
    lemma_pow_step(3int, 463int, 10nat, 248int, 1nat, 21nat, 238int);
    lemma_pow_step(3int, 463int, 21nat, 238int, 0nat, 42nat, 158int);
}

/// 463 is prime: a Lucas certificate with witness 3.
pub proof fn lemma_prime_463()
    ensures
        is_prime(463int),
{
    lemma_prime_2();
    lemma_prime_3();
    lemma_prime_7();
    lemma_prime_11();
    lemma_pow_463_full();
    lemma_pow_463_by_2();
    lemma_pow_463_by_3();
    lemma_pow_463_by_7();
    lemma_pow_463_by_11();
    let c: Seq<(int, nat)> = seq![(2int, 1nat), (3int, 1nat), (7int, 1nat), (11int, 1nat)];
    assert(c[0] == (2int, 1nat));
    assert(c[1] == (3int, 1nat));
    assert(c[2] == (7int, 1nat));
    assert(c[3] == (11int, 1nat));
    assert(cert_product(c.skip(4)) == 1) by {
        assert(c.skip(4) =~= Seq::<(int, nat)>::empty());
    }
    assert(cert_product(c.skip(3)) == 11int) by {
        assert(c.skip(3).drop_first() =~= c.skip(4));
        assert(c.skip(3)[0] == (11int, 1nat));
        assert(pow(11int, 1nat) == 11int) by {
            reveal_with_fuel(pow, 2);
        }
    }
    assert(cert_product(c.skip(2)) == 77int) by {
        assert(c.skip(2).drop_first() =~= c.skip(3));
        assert(c.skip(2)[0] == (7int, 1nat));
        assert(pow(7int, 1nat) == 7int) by {
            reveal_with_fuel(pow, 2);
        }
    }
    assert(cert_product(c.skip(1)) == 231int) by {
        assert(c.skip(1).drop_first() =~= c.skip(2));
        assert(c.skip(1)[0] == (3int, 1nat));
        assert(pow(3int, 1nat) == 3int) by {
            reveal_with_fuel(pow, 2);
        }
    }
    assert(cert_product(c.skip(0)) == 462int) by {
        assert(c.skip(0).drop_first() =~= c.skip(1));
        assert(c.skip(0)[0] == (2int, 1nat));
        assert(pow(2int, 1nat) == 2int) by {
            reveal_with_fuel(pow, 2);
        }
    }
    assert(c.skip(0) =~= c);
    assert forall|i: int| 0 <= i < c.len() implies is_prime(#[trigger] c[i].0) && c[i].1 >= 1 by {
        if i == 0 {
            assert(c[0].0 == 2int);
        }
        if i == 1 {
            assert(c[1].0 == 3int);
        }
        if i == 2 {
            assert(c[2].0 == 7int);
        }
        if i == 3 {
            assert(c[3].0 == 11int);
        }
    }
    assert forall|i: int| 0 <= i < c.len() implies #[trigger] (pow(3int, ((463int - 1) / c[i].0) as nat) % 463int) != 1 by {
        if i == 0 {
            assert(c[0].0 == 2int);
            assert((463int - 1) / 2int == 231int);
        }
        if i == 1 {
            assert(c[1].0 == 3int);
            assert((463int - 1) / 3int == 154int);
        }
        if i == 2 {
            assert(c[2].0 == 7int);
            assert((463int - 1) / 7int == 66int);
        }
        if i == 3 {
            assert(c[3].0 == 11int);
            assert((463int - 1) / 11int == 42int);
        }
    }
    lemma_lucas(463int, 3int, c);
}

/// `2^508` modulo `509`, by square-and-multiply.
proof fn lemma_pow_509_full()
    ensures
        pow(2int, 508nat) % 509int == 1int,
{
    lemma_pow_start(2int, 509int, 2int);
    lemma_pow_step(2int, 509int, 1nat, 2int, 1nat, 3nat, 8int);
    lemma_pow_step(2int, 509int, 3nat, 8int, 1nat, 7nat, 128int);
    lemma_pow_step(2int, 509int, 7nat, 128int, 1nat, 15nat, 192int);
    lemma_pow_step(2int, 509int, 15nat, 192int, 1nat, 31nat, 432int);
    lemma_pow_step(2int, 509int, 31nat, 432int, 1nat, 63nat, 151int);
    lemma_pow_step(2int, 509int, 63nat, 151int, 1nat, 127nat, 301int);
    lemma_pow_step(2int, 509int, 127nat, 301int, 0nat, 254nat, 508int);
    lemma_pow_step(2int, 509int, 254nat, 508int, 0nat, 508nat, 1int);
}

/// `2^254` modulo `509`, by square-and-multiply.
proof fn lemma_pow_509_by_2()
    ensures
        pow(2int, 254nat) % 509int == 508int,
{
    lemma_pow_start(2int, 509int, 2int);
    lemma_pow_step(2int, 509int, 1nat, 2int, 1nat, 3nat, 8int);
    lemma_pow_step(2int, 509int, 3nat, 8int, 1nat, 7nat, 128int);
    lemma_pow_step(2int, 509int, 7nat, 128int, 1nat, 15nat, 192int);
    lemma_pow_step(2int, 509int, 15nat, 192int, 1nat, 31nat, 432int);
    lemma_pow_step(2int, 509int, 31nat, 432int, 1nat, 63nat, 151int);
    lemma_pow_step(2int, 509int, 63nat, 151int, 1nat, 127nat, 301int);
    lemma_pow_step(2int, 509int, 127nat, 301int, 0nat, 254nat, 508int);
}

/// `2^4` modulo `509`, by square-and-multiply.
proof fn lemma_pow_509_by_127()
    ensures
        pow(2int, 4nat) % 509int == 16int,
{
    lemma_pow_start(2int, 509int, 2int);
    lemma_pow_step(2int, 509int, 1nat, 2int, 0nat, 2nat, 4int);
    lemma_pow_step(2int, 509int, 2nat, 4int, 0nat, 4nat, 16int);
}

/// 509 is prime: a Lucas certificate with witness 2.
pub proof fn lemma_prime_509()
    ensures
        is_prime(509int),
{
    lemma_prime_2();
    lemma_prime_127();
    lemma_pow_509_full();
    lemma_pow_509_by_2();
    lemma_pow_509_by_127();
    let c: Seq<(int, nat)> = seq![(2int, 2nat), (127int, 1nat)];
    assert(c[0] == (2int, 2nat));
    assert(c[1] == (127int, 1nat));
    assert(cert_product(c.skip(2)) == 1) by {
        assert(c.skip(2) =~= Seq::<(int, nat)>::empty());
    }
    assert(cert_product(c.skip(1)) == 127int) by {
        assert(c.skip(1).drop_first() =~= c.skip(2));
        assert(c.skip(1)[0] == (127int, 1nat));
        assert(pow(127int, 1nat) == 127int) by {
            reveal_with_fuel(pow, 2);
        }
    }
    assert(cert_product(c.skip(0)) == 508int) by {
        assert(c.skip(0).drop_first() =~= c.skip(1));
        assert(c.skip(0)[0] == (2int, 2nat));
        assert(pow(2int, 2nat) == 4int) by {
            reveal_with_fuel(pow, 3);
        }
    }
    assert(c.skip(0) =~= c);
    assert forall|i: int| 0 <= i < c.len() implies is_prime(#[trigger] c[i].0) && c[i].1 >= 1 by {
        if i == 0 {
            assert(c[0].0 == 2int);
        }
        if i == 1 {
            assert(c[1].0 == 127int);
        }
    }
    assert forall|i: int| 0 <= i < c.len() implies #[trigger] (pow(2int, ((509int - 1) / c[i].0) as nat) % 509int) != 1 by {
        if i == 0 {
            assert(c[0].0 == 2int);
            assert((509int - 1) / 2int == 254int);
        }
        if i == 1 {
            assert(c[1].0 == 127int);
            assert((509int - 1) / 127int == 4int);
        }
    }
    lemma_lucas(509int, 2int, c);
}

/// `2^828` modulo `829`, by square-and-multiply.
proof fn lemma_pow_829_full()
    ensures
        pow(2int, 828nat) % 829int == 1int,
{
    lemma_pow_start(2int, 829int, 2int);
    lemma_pow_step(2int, 829int, 1nat, 2int, 1nat, 3nat, 8int);
    lemma_pow_step(2int, 829int, 3nat, 8int, 0nat, 6nat, 64int);
    lemma_pow_step(2int, 829int, 6nat, 64int, 0nat, 12nat, 780int);
    lemma_pow_step(2int, 829int, 12nat, 780int, 1nat, 25nat, 657int);
    lemma_pow_step(2int, 829int, 25nat, 657int, 1nat, 51nat, 309int);
    lemma_pow_step(2int, 829int, 51nat, 309int, 1nat, 103nat, 292int);
    lemma_pow_step(2int, 829int, 103nat, 292int, 1nat, 207nat, 583int);
    lemma_pow_step(2int, 829int, 207nat, 583int, 0nat, 414nat, 828int);
    lemma_pow_step(2int, 829int, 414nat, 828int, 0nat, 828nat, 1int);
}

/// `2^414` modulo `829`, by square-and-multiply.
proof fn lemma_pow_829_by_2()
    ensures
        pow(2int, 414nat) % 829int == 828int,
{
    lemma_pow_start(2int, 829int, 2int);
    lemma_pow_step(2int, 829int, 1nat, 2int, 1nat, 3nat, 8int);
    lemma_pow_step(2int, 829int, 3nat, 8int, 0nat, 6nat, 64int);
    lemma_pow_step(2int, 829int, 6nat, 64int, 0nat, 12nat, 780int);
    lemma_pow_step(2int, 829int, 12nat, 780int, 1nat, 25nat, 657int);
    lemma_pow_step(2int, 829int, 25nat, 657int, 1nat, 51nat, 309int);
    lemma_pow_step(2int, 829int, 51nat, 309int, 1nat, 103nat, 292int);
    lemma_pow_step(2int, 829int, 103nat, 292int, 1nat, 207nat, 583int);
    lemma_pow_step(2int, 829int, 207nat, 583int, 0nat, 414nat, 828int);
}

/// `2^276` modulo `829`, by square-and-multiply.
proof fn lemma_pow_829_by_3()
    ensures
        pow(2int, 276nat) % 829int == 125int,
{
    lemma_pow_start(2int, 829int, 2int);
    lemma_pow_step(2int, 829int, 1nat, 2int, 0nat, 2nat, 4int);
    lemma_pow_step(2int, 829int, 2nat, 4int, 0nat, 4nat, 16int);
    lemma_pow_step(2int, 829int, 4nat, 16int, 0nat, 8nat, 256int);
    lemma_pow_step(2int, 829int, 8nat, 256int, 1nat, 17nat, 90int);
    lemma_pow_step(2int, 829int, 17nat, 90int, 0nat, 34nat, 639int);
    lemma_pow_step(2int, 829int, 34nat, 639int, 1nat, 69nat, 77int);
    lemma_pow_step(2int, 829int, 69nat, 77int, 0nat, 138nat, 126int);
    lemma_pow_step(2int, 829int, 138nat, 126int, 0nat, 276nat, 125int);
}

/// `2^36` modulo `829`, by square-and-multiply.
proof fn lemma_pow_829_by_23()
    ensures
        pow(2int, 36nat) % 829int == 69int,
{
    lemma_pow_start(2int, 829int, 2int);
    lemma_pow_step(2int, 829int, 1nat, 2int, 0nat, 2nat, 4int);
    lemma_pow_step(2int, 829int, 2nat, 4int, 0nat, 4nat, 16int);
    lemma_pow_step(2int, 829int, 4nat, 16int, 1nat, 9nat, 512int);
    lemma_pow_step(2int, 829int, 9nat, 512int, 0nat, 18nat, 180int);
    lemma_pow_step(2int, 829int, 18nat, 180int, 0nat, 36nat, 69int);
}

/// 829 is prime: a Lucas certificate with witness 2.
pub proof fn lemma_prime_829()
    ensures
        is_prime(829int),
{
    lemma_prime_2();
    lemma_prime_3();
    lemma_prime_23();
    lemma_pow_829_full();
    lemma_pow_829_by_2();
    lemma_pow_829_by_3();
    lemma_pow_829_by_23();
    let c: Seq<(int, nat)> = seq![(2int, 2nat), (3int, 2nat), (23int, 1nat)];
    assert(c[0] == (2int, 2nat));
    assert(c[1] == (3int, 2nat));
    assert(c[2] == (23int, 1nat));
    assert(cert_product(c.skip(3)) == 1) by {
        assert(c.skip(3) =~= Seq::<(int, nat)>::empty());
    }
    assert(cert_product(c.skip(2)) == 23int) by {
        assert(c.skip(2).drop_first() =~= c.skip(3));
        assert(c.skip(2)[0] == (23int, 1nat));
        assert(pow(23int, 1nat) == 23int) by {
            reveal_with_fuel(pow, 2);
        }
    }
    assert(cert_product(c.skip(1)) == 207int) by {
        assert(c.skip(1).drop_first() =~= c.skip(2));
        assert(c.skip(1)[0] == (3int, 2nat));
        assert(pow(3int, 2nat) == 9int) by {
            reveal_with_fuel(pow, 3);
        }
    }
    assert(cert_product(c.skip(0)) == 828int) by {
        assert(c.skip(0).drop_first() =~= c.skip(1));
        assert(c.skip(0)[0] == (2int, 2nat));
        assert(pow(2int, 2nat) == 4int) by {
            reveal_with_fuel(pow, 3);
        }
    }
    assert(c.skip(0) =~= c);
    assert forall|i: int| 0 <= i < c.len() implies is_prime(#[trigger] c[i].0) && c[i].1 >= 1 by {
        if i == 0 {
            assert(c[0].0 == 2int);
        }
        if i == 1 {
            assert(c[1].0 == 3int);
        }
        if i == 2 {
            assert(c[2].0 == 23int);
        }
    }
    assert forall|i: int| 0 <= i < c.len() implies #[trigger] (pow(2int, ((829int - 1) / c[i].0) as nat) % 829int) != 1 by {
        if i == 0 {
            assert(c[0].0 == 2int);
            assert((829int - 1) / 2int == 414int);
        }
        if i == 1 {
            assert(c[1].0 == 3int);
            assert((829int - 1) / 3int == 276int);
        }
        if i == 2 {
            assert(c[2].0 == 23int);
            assert((829int - 1) / 23int == 36int);
        }
    }
    lemma_lucas(829int, 2int, c);
}

/// `3^976` modulo `977`, by square-and-multiply.
proof fn lemma_pow_977_full()
    ensures
        pow(3int, 976nat) % 977int == 1int,
{
    lemma_pow_start(3int, 977int, 3int);
    lemma_pow_step(3int, 977int, 1nat, 3int, 1nat, 3nat, 27int);
    lemma_pow_step(3int, 977int, 3nat, 27int, 1nat, 7nat, 233int);
    lemma_pow_step(3int, 977int, 7nat, 233int, 1nat, 15nat, 685int);
    lemma_pow_step(3int, 977int, 15nat, 685int, 0nat, 30nat, 265int);
    lemma_pow_step(3int, 977int, 30nat, 265int, 1nat, 61nat, 620int);
    lemma_pow_step(3int, 977int, 61nat, 620int, 0nat, 122nat, 439int);
    lemma_pow_step(3int, 977int, 122nat, 439int, 0nat, 244nat, 252int);
    lemma_pow_step(3int, 977int, 244nat, 252int, 0nat, 488nat, 976int);
    lemma_pow_step(3int, 977int, 488nat, 976int, 0nat, 976nat, 1int);
}

/// `3^488` modulo `977`, by square-and-multiply.
proof fn lemma_pow_977_by_2()
    ensures
        pow(3int, 488nat) % 977int == 976int,
{
    lemma_pow_start(3int, 977int, 3int);
    lemma_pow_step(3int, 977int, 1nat, 3int, 1nat, 3nat, 27int);
    lemma_pow_step(3int, 977int, 3nat, 27int, 1nat, 7nat, 233int);
    lemma_pow_step(3int, 977int, 7nat, 233int, 1nat, 15nat, 685int);
    lemma_pow_step(3int, 977int, 15nat, 685int, 0nat, 30nat, 265int);
    lemma_pow_step(3int, 977int, 30nat, 265int, 1nat, 61nat, 620int);
    lemma_pow_step(3int, 977int, 61nat, 620int, 0nat, 122nat, 439int);
    lemma_pow_step(3int, 977int, 122nat, 439int, 0nat, 244nat, 252int);
    lemma_pow_step(3int, 977int, 244nat, 252int, 0nat, 488nat, 976int);
}

/// `3^16` modulo `977`, by square-and-multiply.
proof fn lemma_pow_977_by_61()
    ensures
        pow(3int, 16nat) % 977int == 101int,
{
    lemma_pow_start(3int, 977int, 3int);
    lemma_pow_step(3int, 977int, 1nat, 3int, 0nat, 2nat, 9int);
    lemma_pow_step(3int, 977int, 2nat, 9int, 0nat, 4nat, 81int);
    lemma_pow_step(3int, 977int, 4nat, 81int, 0nat, 8nat, 699int);
    lemma_pow_step(3int, 977int, 8nat, 699int, 0nat, 16nat, 101int);
}

/// 977 is prime: a Lucas certificate with witness 3.
pub proof fn lemma_prime_977()
    ensures
        is_prime(977int),
{
    lemma_prime_2();
    lemma_prime_61();
    lemma_pow_977_full();
    lemma_pow_977_by_2();
    lemma_pow_977_by_61();
    let c: Seq<(int, nat)> = seq![(2int, 4nat), (61int, 1nat)];
    assert(c[0] == (2int, 4nat));
    assert(c[1] == (61int, 1nat));
    assert(cert_product(c.skip(2)) == 1) by {
        assert(c.skip(2) =~= Seq::<(int, nat)>::empty());
    }
    assert(cert_product(c.skip(1)) == 61int) by {
        assert(c.skip(1).drop_first() =~= c.skip(2));
        assert(c.skip(1)[0] == (61int, 1nat));
        assert(pow(61int, 1nat) == 61int) by {
            reveal_with_fuel(pow, 2);
        }
    }
    assert(cert_product(c.skip(0)) == 976int) by {
        assert(c.skip(0).drop_first() =~= c.skip(1));
        assert(c.skip(0)[0] == (2int, 4nat));
        assert(pow(2int, 4nat) == 16int) by {
            reveal_with_fuel(pow, 5);
        }
    }
    assert(c.skip(0) =~= c);
    assert forall|i: int| 0 <= i < c.len() implies is_prime(#[trigger] c[i].0) && c[i].1 >= 1 by {
        if i == 0 {
            assert(c[0].0 == 2int);
        }
        if i == 1 {
            assert(c[1].0 == 61int);
        }
    }
    assert forall|i: int| 0 <= i < c.len() implies #[trigger] (pow(3int, ((977int - 1) / c[i].0) as nat) % 977int) != 1 by {
        if i == 0 {
            assert(c[0].0 == 2int);
            assert((977int - 1) / 2int == 488int);
        }
        if i == 1 {
            assert(c[1].0 == 61int);
            assert((977int - 1) / 61int == 16int);
        }
    }
    lemma_lucas(977int, 3int, c);
}

/// `2^1972` modulo `1973`, by square-and-multiply.
proof fn lemma_pow_1973_full()
    ensures
        pow(2int, 1972nat) % 1973int == 1int,
{
    lemma_pow_start(2int, 1973int, 2int);
    lemma_pow_step(2int, 1973int, 1nat, 2int, 1nat, 3nat, 8int);
    lemma_pow_step(2int, 1973int, 3nat, 8int, 1nat, 7nat, 128int);
    lemma_pow_step(2int, 1973int, 7nat, 128int, 1nat, 15nat, 1200int);
    lemma_pow_step(2int, 1973int, 15nat, 1200int, 0nat, 30nat, 1683int);
    lemma_pow_step(2int, 1973int, 30nat, 1683int, 1nat, 61nat, 495int);
    lemma_pow_step(2int, 1973int, 61nat, 495int, 1nat, 123nat, 746int);
    lemma_pow_step(2int, 1973int, 123nat, 746int, 0nat, 246nat, 130int);
    lemma_pow_step(2int, 1973int, 246nat, 130int, 1nat, 493nat, 259int);
    lemma_pow_step(2int, 1973int, 493nat, 259int, 0nat, 986nat, 1972int);
    lemma_pow_step(2int, 1973int, 986nat, 1972int, 0nat, 1972nat, 1int);
}

/// `2^986` modulo `1973`, by square-and-multiply.
proof fn lemma_pow_1973_by_2()
    ensures
        pow(2int, 986nat) % 1973int == 1972int,
{
    lemma_pow_start(2int, 1973int, 2int);
    lemma_pow_step(2int, 1973int, 1nat, 2int, 1nat, 3nat, 8int);
    lemma_pow_step(2int, 1973int, 3nat, 8int, 1nat, 7nat, 128int);
    lemma_pow_step(2int, 1973int, 7nat, 128int, 1nat, 15nat, 1200int);
    lemma_pow_step(2int, 1973int, 15nat, 1200int, 0nat, 30nat, 1683int);
    lemma_pow_step(2int, 1973int, 30nat, 1683int, 1nat, 61nat, 495int);
    lemma_pow_step(2int, 1973int, 61nat, 495int, 1nat, 123nat, 746int);
    lemma_pow_step(2int, 1973int, 123nat, 746int, 0nat, 246nat, 130int);
    lemma_pow_step(2int, 1973int, 246nat, 130int, 1nat, 493nat, 259int);
    lemma_pow_step(2int, 1973int, 493nat, 259int, 0nat, 986nat, 1972int);
}

/// `2^116` modulo `1973`, by square-and-multiply.
proof fn lemma_pow_1973_by_17()
    ensures
        pow(2int, 116nat) % 1973int == 1948int,
{
    lemma_pow_start(2int, 1973int, 2int);
    lemma_pow_step(2int, 1973int, 1nat, 2int, 1nat, 3nat, 8int);
    lemma_pow_step(2int, 1973int, 3nat, 8int, 1nat, 7nat, 128int);
    lemma_pow_step(2int, 1973int, 7nat, 128int, 0nat, 14nat, 600int);
    lemma_pow_step(2int, 1973int, 14nat, 600int, 1nat, 29nat, 1828int);
    lemma_pow_step(2int, 1973int, 29nat, 1828int, 0nat, 58nat, 1295int);
    lemma_pow_step(2int, 1973int, 58nat, 1295int, 0nat, 116nat, 1948int);
}

/// `2^68` modulo `1973`, by square-and-multiply.
proof fn lemma_pow_1973_by_29()
    ensures
        pow(2int, 68nat) % 1973int == 224int,
{
    lemma_pow_start(2int, 1973int, 2int);
    lemma_pow_step(2int, 1973int, 1nat, 2int, 0nat, 2nat, 4int);
    lemma_pow_step(2int, 1973int, 2nat, 4int, 0nat, 4nat, 16int);
    lemma_pow_step(2int, 1973int, 4nat, 16int, 0nat, 8nat, 256int);
    lemma_pow_step(2int, 1973int, 8nat, 256int, 1nat, 17nat, 854int);
    lemma_pow_step(2int, 1973int, 17nat, 854int, 0nat, 34nat, 1279int);
    lemma_pow_step(2int, 1973int, 34nat, 1279int, 0nat, 68nat, 224int);
}

/// 1973 is prime: a Lucas certificate with witness 2.
pub proof fn lemma_prime_1973()
    ensures
        is_prime(1973int),
{
    lemma_prime_2();
    lemma_prime_17();
    lemma_prime_29();
    lemma_pow_1973_full();
    lemma_pow_1973_by_2();
    lemma_pow_1973_by_17();
    lemma_pow_1973_by_29();
    let c: Seq<(int, nat)> = seq![(2int, 2nat), (17int, 1nat), (29int, 1nat)];
    assert(c[0] == (2int, 2nat));
    assert(c[1] == (17int, 1nat));
    assert(c[2] == (29int, 1nat));
    assert(cert_product(c.skip(3)) == 1) by {
        assert(c.skip(3) =~= Seq::<(int, nat)>::empty());
    }
    assert(cert_product(c.skip(2)) == 29int) by {
        assert(c.skip(2).drop_first() =~= c.skip(3));
        assert(c.skip(2)[0] == (29int, 1nat));
        assert(pow(29int, 1nat) == 29int) by {
            reveal_with_fuel(pow, 2);
        }
    }
    assert(cert_product(c.skip(1)) == 493int) by {
        assert(c.skip(1).drop_first() =~= c.skip(2));
        assert(c.skip(1)[0] == (17int, 1nat));
        assert(pow(17int, 1nat) == 17int) by {
            reveal_with_fuel(pow, 2);
        }
    }
    assert(cert_product(c.skip(0)) == 1972int) by {
        assert(c.skip(0).drop_first() =~= c.skip(1));
        assert(c.skip(0)[0] == (2int, 2nat));
        assert(pow(2int, 2nat) == 4int) by {
            reveal_with_fuel(pow, 3);
        }
    }
    assert(c.skip(0) =~= c);
    assert forall|i: int| 0 <= i < c.len() implies is_prime(#[trigger] c[i].0) && c[i].1 >= 1 by {
        if i == 0 {
            assert(c[0].0 == 2int);
        }
        if i == 1 {
            assert(c[1].0 == 17int);
        }
        if i == 2 {
            assert(c[2].0 == 29int);
        }
    }
    assert forall|i: int| 0 <= i < c.len() implies #[trigger] (pow(2int, ((1973int - 1) / c[i].0) as nat) % 1973int) != 1 by {
        if i == 0 {
            assert(c[0].0 == 2int);
            assert((1973int - 1) / 2int == 986int);
        }
        if i == 1 {
            assert(c[1].0 == 17int);
            assert((1973int - 1) / 17int == 116int);
        }
        if i == 2 {
            assert(c[2].0 == 29int);
            assert((1973int - 1) / 29int == 68int);
        }
    }
    lemma_lucas(1973int, 2int, c);
}

/// `2^2530` modulo `2531`, by square-and-multiply.
proof fn lemma_pow_2531_full()
    ensures
        pow(2int, 2530nat) % 2531int == 1int,
{
    lemma_pow_start(2int, 2531int, 2int);
    lemma_pow_step(2int, 2531int, 1nat, 2int, 0nat, 2nat, 4int);
    lemma_pow_step(2int, 2531int, 2nat, 4int, 0nat, 4nat, 16int);
    lemma_pow_step(2int, 2531int, 4nat, 16int, 1nat, 9nat, 512int);
    lemma_pow_step(2int, 2531int, 9nat, 512int, 1nat, 19nat, 371int);
    lemma_pow_step(2int, 2531int, 19nat, 371int, 1nat, 39nat, 1934int);
    lemma_pow_step(2int, 2531int, 39nat, 1934int, 1nat, 79nat, 1607int);
    lemma_pow_step(2int, 2531int, 79nat, 1607int, 0nat, 158nat, 829int);
    lemma_pow_step(2int, 2531int, 158nat, 829int, 0nat, 316nat, 1340int);
    lemma_pow_step(2int, 2531int, 316nat, 1340int, 0nat, 632nat, 1121int);
    lemma_pow_step(2int, 2531int, 632nat, 1121int, 1nat, 1265nat, 2530int);
    lemma_pow_step(2int, 2531int, 1265nat, 2530int, 0nat, 2530nat, 1int);
}

/// `2^1265` modulo `2531`, by square-and-multiply.
proof fn lemma_pow_2531_by_2()
    ensures
        pow(2int, 1265nat) % 2531int == 2530int,
{
    lemma_pow_start(2int, 2531int, 2int);
    lemma_pow_step(2int, 2531int, 1nat, 2int, 0nat, 2nat, 4int);
    lemma_pow_step(2int, 2531int, 2nat, 4int, 0nat, 4nat, 16int);
    lemma_pow_step(2int, 2531int, 4nat, 16int, 1nat, 9nat, 512int);
    lemma_pow_step(2int, 2531int, 9nat, 512int, 1nat, 19nat, 371int);
    lemma_pow_step(2int, 2531int, 19nat, 371int, 1nat, 39nat, 1934int);
    lemma_pow_step(2int, 2531int, 39nat, 1934int, 1nat, 79nat, 1607int);
    lemma_pow_step(2int, 2531int, 79nat, 1607int, 0nat, 158nat, 829int);
    lemma_pow_step(2int, 2531int, 158nat, 829int, 0nat, 316nat, 1340int);
    lemma_pow_step(2int, 2531int, 316nat, 1340int, 0nat, 632nat, 1121int);
    lemma_pow_step(2int, 2531int, 632nat, 1121int, 1nat, 1265nat, 2530int);
}

/// `2^506` modulo `2531`, by square-and-multiply.
proof fn lemma_pow_2531_by_5()
    ensures
        pow(2int, 506nat) % 2531int == 232int,
{
    lemma_pow_start(2int, 2531int, 2int);
    lemma_pow_step(2int, 2531int, 1nat, 2int, 1nat, 3nat, 8int);
    lemma_pow_step(2int, 2531int, 3nat, 8int, 1nat, 7nat, 128int);
    lemma_pow_step(2int, 2531int, 7nat, 128int, 1nat, 15nat, 2396int);
    lemma_pow_step(2int, 2531int, 15nat, 2396int, 1nat, 31nat, 1016int);
    lemma_pow_step(2int, 2531int, 31nat, 1016int, 1nat, 63nat, 1747int);
    lemma_pow_step(2int, 2531int, 63nat, 1747int, 0nat, 126nat, 2154int);
    lemma_pow_step(2int, 2531int, 126nat, 2154int, 1nat, 253nat, 786int);
    lemma_pow_step(2int, 2531int, 253nat, 786int, 0nat, 506nat, 232int);
}

/// `2^230` modulo `2531`, by square-and-multiply.
proof fn lemma_pow_2531_by_11()
    ensures
        pow(2int, 230nat) % 2531int == 1055int,
{
    lemma_pow_start(2int, 2531int, 2int);
    lemma_pow_step(2int, 2531int, 1nat, 2int, 1nat, 3nat, 8int);
    lemma_pow_step(2int, 2531int, 3nat, 8int, 1nat, 7nat, 128int);
    lemma_pow_step(2int, 2531int, 7nat, 128int, 0nat, 14nat, 1198int);
    lemma_pow_step(2int, 2531int, 14nat, 1198int, 0nat, 28nat, 127int);
    lemma_pow_step(2int, 2531int, 28nat, 127int, 1nat, 57nat, 1886int);
    lemma_pow_step(2int, 2531int, 57nat, 1886int, 1nat, 115nat, 1882int);
    lemma_pow_step(2int, 2531int, 115nat, 1882int, 0nat, 230nat, 1055int);
}

/// `2^110` modulo `2531`, by square-and-multiply.
proof fn lemma_pow_2531_by_23()
    ensures
        pow(2int, 110nat) % 2531int == 217int,
{
    lemma_pow_start(2int, 2531int, 2int);
    lemma_pow_step(2int, 2531int, 1nat, 2int, 1nat, 3nat, 8int);
    lemma_pow_step(2int, 2531int, 3nat, 8int, 0nat, 6nat, 64int);
    lemma_pow_step(2int, 2531int, 6nat, 64int, 1nat, 13nat, 599int);
    lemma_pow_step(2int, 2531int, 13nat, 599int, 1nat, 27nat, 1329int);
    lemma_pow_step(2int, 2531int, 27nat, 1329int, 1nat, 55nat, 1737int);
    lemma_pow_step(2int, 2531int, 55nat, 1737int, 0nat, 110nat, 217int);
}

/// 2531 is prime: a Lucas certificate with witness 2.
pub proof fn lemma_prime_2531()
    ensures
        is_prime(2531int),
{
    lemma_prime_2();
    lemma_prime_5();
    lemma_prime_11();
    lemma_prime_23();
    lemma_pow_2531_full();
    lemma_pow_2531_by_2();
    lemma_pow_2531_by_5();
    lemma_pow_2531_by_11();
    lemma_pow_2531_by_23();
    let c: Seq<(int, nat)> = seq![(2int, 1nat), (5int, 1nat), (11int, 1nat), (23int, 1nat)];
    assert(c[0] == (2int, 1nat));
    assert(c[1] == (5int, 1nat));
    assert(c[2] == (11int, 1nat));
    assert(c[3] == (23int, 1nat));
    assert(cert_product(c.skip(4)) == 1) by {
        assert(c.skip(4) =~= Seq::<(int, nat)>::empty());
    }
    assert(cert_product(c.skip(3)) == 23int) by {
        assert(c.skip(3).drop_first() =~= c.skip(4));
        assert(c.skip(3)[0] == (23int, 1nat));
        assert(pow(23int, 1nat) == 23int) by {
            reveal_with_fuel(pow, 2);
        }
    }
    assert(cert_product(c.skip(2)) == 253int) by {
        assert(c.skip(2).drop_first() =~= c.skip(3));
        assert(c.skip(2)[0] == (11int, 1nat));
        assert(pow(11int, 1nat) == 11int) by {
            reveal_with_fuel(pow, 2);
        }
    }
    assert(cert_product(c.skip(1)) == 1265int) by {
        assert(c.skip(1).drop_first() =~= c.skip(2));
        assert(c.skip(1)[0] == (5int, 1nat));
        assert(pow(5int, 1nat) == 5int) by {
            reveal_with_fuel(pow, 2);
        }
    }
    assert(cert_product(c.skip(0)) == 2530int) by {
        assert(c.skip(0).drop_first() =~= c.skip(1));
        assert(c.skip(0)[0] == (2int, 1nat));
        assert(pow(2int, 1nat) == 2int) by {
            reveal_with_fuel(pow, 2);
        }
    }
    assert(c.skip(0) =~= c);
    assert forall|i: int| 0 <= i < c.len() implies is_prime(#[trigger] c[i].0) && c[i].1 >= 1 by {
        if i == 0 {
            assert(c[0].0 == 2int);
        }
        if i == 1 {
            assert(c[1].0 == 5int);
        }
        if i == 2 {
            assert(c[2].0 == 11int);
        }
        if i == 3 {
            assert(c[3].0 == 23int);
        }
    }
    assert forall|i: int| 0 <= i < c.len() implies #[trigger] (pow(2int, ((2531int - 1) / c[i].0) as nat) % 2531int) != 1 by {
        if i == 0 {
            assert(c[0].0 == 2int);
            assert((2531int - 1) / 2int == 1265int);
        }
        if i == 1 {
            assert(c[1].0 == 5int);
            assert((2531int - 1) / 5int == 506int);
        }
        if i == 2 {
            assert(c[2].0 == 11int);
            assert((2531int - 1) / 11int == 230int);
        }
        if i == 3 {
            assert(c[3].0 == 23int);
            assert((2531int - 1) / 23int == 110int);
        }
    }
    lemma_lucas(2531int, 2int, c);
}

/// `5^3766` modulo `3767`, by square-and-multiply.
proof fn lemma_pow_3767_full()
    ensures
        pow(5int, 3766nat) % 3767int == 1int,
{
    lemma_pow_start(5int, 3767int, 5int);
    lemma_pow_step(5int, 3767int, 1nat, 5int, 1nat, 3nat, 125int);
    lemma_pow_step(5int, 3767int, 3nat, 125int, 1nat, 7nat, 2785int);
    lemma_pow_step(5int, 3767int, 7nat, 2785int, 0nat, 14nat, 3739int);
    lemma_pow_step(5int, 3767int, 14nat, 3739int, 1nat, 29nat, 153int);
    lemma_pow_step(5int, 3767int, 29nat, 153int, 0nat, 58nat, 807int);
    lemma_pow_step(5int, 3767int, 58nat, 807int, 1nat, 117nat, 1557int);
    lemma_pow_step(5int, 3767int, 117nat, 1557int, 1nat, 235nat, 2806int);
    lemma_pow_step(5int, 3767int, 235nat, 2806int, 0nat, 470nat, 606int);
    lemma_pow_step(5int, 3767int, 470nat, 606int, 1nat, 941nat, 1651int);
    lemma_pow_step(5int, 3767int, 941nat, 1651int, 1nat, 1883nat, 3766int);
    lemma_pow_step(5int, 3767int, 1883nat, 3766int, 0nat, 3766nat, 1int);
}

/// `5^1883` modulo `3767`, by square-and-multiply.
proof fn lemma_pow_3767_by_2()
    ensures
        pow(5int, 1883nat) % 3767int == 3766int,
{
    lemma_pow_start(5int, 3767int, 5int);
    lemma_pow_step(5int, 3767int, 1nat, 5int, 1nat, 3nat, 125int);
    lemma_pow_step(5int, 3767int, 3nat, 125int, 1nat, 7nat, 2785int);
    lemma_pow_step(5int, 3767int, 7nat, 2785int, 0nat, 14nat, 3739int);
    lemma_pow_step(5int, 3767int, 14nat, 3739int, 1nat, 29nat, 153int);
    lemma_pow_step(5int, 3767int, 29nat, 153int, 0nat, 58nat, 807int);
    lemma_pow_step(5int, 3767int, 58nat, 807int, 1nat, 117nat, 1557int);
    lemma_pow_step(5int, 3767int, 117nat, 1557int, 1nat, 235nat, 2806int);
    lemma_pow_step(5int, 3767int, 235nat, 2806int, 0nat, 470nat, 606int);
    lemma_pow_step(5int, 3767int, 470nat, 606int, 1nat, 941nat, 1651int);
    lemma_pow_step(5int, 3767int, 941nat, 1651int, 1nat, 1883nat, 3766int);
}

/// `5^538` modulo `3767`, by square-and-multiply.
proof fn lemma_pow_3767_by_7()
    ensures
        pow(5int, 538nat) % 3767int == 711int,
{
    lemma_pow_start(5int, 3767int, 5int);
    lemma_pow_step(5int, 3767int, 1nat, 5int, 0nat, 2nat, 25int);
    lemma_pow_step(5int, 3767int, 2nat, 25int, 0nat, 4nat, 625int);
    lemma_pow_step(5int, 3767int, 4nat, 625int, 0nat, 8nat, 2624int);
    lemma_pow_step(5int, 3767int, 8nat, 2624int, 0nat, 16nat, 3067int);
    lemma_pow_step(5int, 3767int, 16nat, 3067int, 1nat, 33nat, 1450int);
    lemma_pow_step(5int, 3767int, 33nat, 1450int, 1nat, 67nat, 2570int);
    lemma_pow_step(5int, 3767int, 67nat, 2570int, 0nat, 134nat, 1349int);
    lemma_pow_step(5int, 3767int, 134nat, 1349int, 1nat, 269nat, 1700int);
    lemma_pow_step(5int, 3767int, 269nat, 1700int, 0nat, 538nat, 711int);
}

/// `5^14` modulo `3767`, by square-and-multiply.
proof fn lemma_pow_3767_by_269()
    ensures
        pow(5int, 14nat) % 3767int == 3739int,
{
    lemma_pow_start(5int, 3767int, 5int);
    lemma_pow_step(5int, 3767int, 1nat, 5int, 1nat, 3nat, 125int);
    lemma_pow_step(5int, 3767int, 3nat, 125int, 1nat, 7nat, 2785int);
    lemma_pow_step(5int, 3767int, 7nat, 2785int, 0nat, 14nat, 3739int);
}

/// 3767 is prime: a Lucas certificate with witness 5.
pub proof fn lemma_prime_3767()
    ensures
        is_prime(3767int),
{
    lemma_prime_2();
    lemma_prime_7();
    lemma_prime_269();
    lemma_pow_3767_full();
    lemma_pow_3767_by_2();
    lemma_pow_3767_by_7();
    lemma_pow_3767_by_269();
    let c: Seq<(int, nat)> = seq![(2int, 1nat), (7int, 1nat), (269int, 1nat)];
    assert(c[0] == (2int, 1nat));
    assert(c[1] == (7int, 1nat));
    assert(c[2] == (269int, 1nat));
    assert(cert_product(c.skip(3)) == 1) by {
        assert(c.skip(3) =~= Seq::<(int, nat)>::empty());
    }
    assert(cert_product(c.skip(2)) == 269int) by {
        assert(c.skip(2).drop_first() =~= c.skip(3));
        assert(c.skip(2)[0] == (269int, 1nat));
        assert(pow(269int, 1nat) == 269int) by {
            reveal_with_fuel(pow, 2);
        }
    }
    assert(cert_product(c.skip(1)) == 1883int) by {
        assert(c.skip(1).drop_first() =~= c.skip(2));
        assert(c.skip(1)[0] == (7int, 1nat));
        assert(pow(7int, 1nat) == 7int) by {
            reveal_with_fuel(pow, 2);
        }
    }
    assert(cert_product(c.skip(0)) == 3766int) by {
        assert(c.skip(0).drop_first() =~= c.skip(1));
        assert(c.skip(0)[0] == (2int, 1nat));
        assert(pow(2int, 1nat) == 2int) by {
            reveal_with_fuel(pow, 2);
        }
    }
    assert(c.skip(0) =~= c);
    assert forall|i: int| 0 <= i < c.len() implies is_prime(#[trigger] c[i].0) && c[i].1 >= 1 by {
        if i == 0 {
            assert(c[0].0 == 2int);
        }
        if i == 1 {
            assert(c[1].0 == 7int);
        }
        if i == 2 {
            assert(c[2].0 == 269int);
        }
    }
    assert forall|i: int| 0 <= i < c.len() implies #[trigger] (pow(5int, ((3767int - 1) / c[i].0) as nat) % 3767int) != 1 by {
        if i == 0 {
            assert(c[0].0 == 2int);
            assert((3767int - 1) / 2int == 1883int);
        }
        if i == 1 {
            assert(c[1].0 == 7int);
            assert((3767int - 1) / 7int == 538int);
        }
        if i == 2 {
            assert(c[2].0 == 269int);
            assert((3767int - 1) / 269int == 14int);
        }
    }
    lemma_lucas(3767int, 5int, c);
}

/// `2^6228` modulo `6229`, by square-and-multiply.
proof fn lemma_pow_6229_full()
    ensures
        pow(2int, 6228nat) % 6229int == 1int,
{
    lemma_pow_start(2int, 6229int, 2int);
    lemma_pow_step(2int, 6229int, 1nat, 2int, 1nat, 3nat, 8int);
    lemma_pow_step(2int, 6229int, 3nat, 8int, 0nat, 6nat, 64int);
    lemma_pow_step(2int, 6229int, 6nat, 64int, 0nat, 12nat, 4096int);
    lemma_pow_step(2int, 6229int, 12nat, 4096int, 0nat, 24nat, 2519int);
    lemma_pow_step(2int, 6229int, 24nat, 2519int, 0nat, 48nat, 4239int);
    lemma_pow_step(2int, 6229int, 48nat, 4239int, 1nat, 97nat, 3141int);
    lemma_pow_step(2int, 6229int, 97nat, 3141int, 0nat, 194nat, 5374int);
    lemma_pow_step(2int, 6229int, 194nat, 5374int, 1nat, 389nat, 4464int);
    lemma_pow_step(2int, 6229int, 389nat, 4464int, 0nat, 778nat, 725int);
    lemma_pow_step(2int, 6229int, 778nat, 725int, 1nat, 1557nat, 4778int);
    lemma_pow_step(2int, 6229int, 1557nat, 4778int, 0nat, 3114nat, 6228int);
    lemma_pow_step(2int, 6229int, 3114nat, 6228int, 0nat, 6228nat, 1int);
}

/// `2^3114` modulo `6229`, by square-and-multiply.
proof fn lemma_pow_6229_by_2()
    ensures
        pow(2int, 3114nat) % 6229int == 6228int,
{
    lemma_pow_start(2int, 6229int, 2int);
    lemma_pow_step(2int, 6229int, 1nat, 2int, 1nat, 3nat, 8int);
    lemma_pow_step(2int, 6229int, 3nat, 8int, 0nat, 6nat, 64int);
    lemma_pow_step(2int, 6229int, 6nat, 64int, 0nat, 12nat, 4096int);
    lemma_pow_step(2int, 6229int, 12nat, 4096int, 0nat, 24nat, 2519int);
    lemma_pow_step(2int, 6229int, 24nat, 2519int, 0nat, 48nat, 4239int);
    lemma_pow_step(2int, 6229int, 48nat, 4239int, 1nat, 97nat, 3141int);
    lemma_pow_step(2int, 6229int, 97nat, 3141int, 0nat, 194nat, 5374int);
    lemma_pow_step(2int, 6229int, 194nat, 5374int, 1nat, 389nat, 4464int);
    lemma_pow_step(2int, 6229int, 389nat, 4464int, 0nat, 778nat, 725int);
    lemma_pow_step(2int, 6229int, 778nat, 725int, 1nat, 1557nat, 4778int);
    lemma_pow_step(2int, 6229int, 1557nat, 4778int, 0nat, 3114nat, 6228int);
}

/// `2^2076` modulo `6229`, by square-and-multiply.
proof fn lemma_pow_6229_by_3()
    ensures
        pow(2int, 2076nat) % 6229int == 5298int,
{
    lemma_pow_start(2int, 6229int, 2int);
    lemma_pow_step(2int, 6229int, 1nat, 2int, 0nat, 2nat, 4int);
    lemma_pow_step(2int, 6229int, 2nat, 4int, 0nat, 4nat, 16int);
    lemma_pow_step(2int, 6229int, 4nat, 16int, 0nat, 8nat, 256int);
    lemma_pow_step(2int, 6229int, 8nat, 256int, 0nat, 16nat, 3246int);
    lemma_pow_step(2int, 6229int, 16nat, 3246int, 0nat, 32nat, 3277int);
    lemma_pow_step(2int, 6229int, 32nat, 3277int, 0nat, 64nat, 6162int);
    lemma_pow_step(2int, 6229int, 64nat, 6162int, 1nat, 129nat, 2749int);
    lemma_pow_step(2int, 6229int, 129nat, 2749int, 1nat, 259nat, 2448int);
    lemma_pow_step(2int, 6229int, 259nat, 2448int, 1nat, 519nat, 812int);
    lemma_pow_step(2int, 6229int, 519nat, 812int, 0nat, 1038nat, 5299int);
    lemma_pow_step(2int, 6229int, 1038nat, 5299int, 0nat, 2076nat, 5298int);
}

/// `2^36` modulo `6229`, by square-and-multiply.
proof fn lemma_pow_6229_by_173()
    ensures
        pow(2int, 36nat) % 6229int == 2600int,
{
    lemma_pow_start(2int, 6229int, 2int);
    lemma_pow_step(2int, 6229int, 1nat, 2int, 0nat, 2nat, 4int);
    lemma_pow_step(2int, 6229int, 2nat, 4int, 0nat, 4nat, 16int);
    lemma_pow_step(2int, 6229int, 4nat, 16int, 1nat, 9nat, 512int);
    lemma_pow_step(2int, 6229int, 9nat, 512int, 0nat, 18nat, 526int);
    lemma_pow_step(2int, 6229int, 18nat, 526int, 0nat, 36nat, 2600int);
}

/// 6229 is prime: a Lucas certificate with witness 2.
pub proof fn lemma_prime_6229()
    ensures
        is_prime(6229int),
{
    lemma_prime_2();
    lemma_prime_3();
    lemma_prime_173();
    lemma_pow_6229_full();
    lemma_pow_6229_by_2();
    lemma_pow_6229_by_3();
    lemma_pow_6229_by_173();
    let c: Seq<(int, nat)> = seq![(2int, 2nat), (3int, 2nat), (173int, 1nat)];
    assert(c[0] == (2int, 2nat));
    assert(c[1] == (3int, 2nat));
    assert(c[2] == (173int, 1nat));
    assert(cert_product(c.skip(3)) == 1) by {
        assert(c.skip(3) =~= Seq::<(int, nat)>::empty());
    }
    assert(cert_product(c.skip(2)) == 173int) by {
        assert(c.skip(2).drop_first() =~= c.skip(3));
        assert(c.skip(2)[0] == (173int, 1nat));
        assert(pow(173int, 1nat) == 173int) by {
            reveal_with_fuel(pow, 2);
        }
    }
    assert(cert_product(c.skip(1)) == 1557int) by {
        assert(c.skip(1).drop_first() =~= c.skip(2));
        assert(c.skip(1)[0] == (3int, 2nat));
        assert(pow(3int, 2nat) == 9int) by {
            reveal_with_fuel(pow, 3);
        }
    }
    assert(cert_product(c.skip(0)) == 6228int) by {
        assert(c.skip(0).drop_first() =~= c.skip(1));
        assert(c.skip(0)[0] == (2int, 2nat));
        assert(pow(2int, 2nat) == 4int) by {
            reveal_with_fuel(pow, 3);
        }
    }
    assert(c.skip(0) =~= c);
    assert forall|i: int| 0 <= i < c.len() implies is_prime(#[trigger] c[i].0) && c[i].1 >= 1 by {
        if i == 0 {
            assert(c[0].0 == 2int);
        }
        if i == 1 {
            assert(c[1].0 == 3int);
        }
        if i == 2 {
            assert(c[2].0 == 173int);
        }
    }
    assert forall|i: int| 0 <= i < c.len() implies #[trigger] (pow(2int, ((6229int - 1) / c[i].0) as nat) % 6229int) != 1 by {
        if i == 0 {
            assert(c[0].0 == 2int);
            assert((6229int - 1) / 2int == 3114int);
        }
        if i == 1 {
            assert(c[1].0 == 3int);
            assert((6229int - 1) / 3int == 2076int);
        }
        if i == 2 {
            assert(c[2].0 == 173int);
            assert((6229int - 1) / 173int == 36int);
        }
    }
    lemma_lucas(6229int, 2int, c);
}

/// `2^14922` modulo `14923`, by square-and-multiply.
proof fn lemma_pow_14923_full()
    ensures
        pow(2int, 14922nat) % 14923int == 1int,
{
    lemma_pow_start(2int, 14923int, 2int);
    lemma_pow_step(2int, 14923int, 1nat, 2int, 1nat, 3nat, 8int);
    lemma_pow_step(2int, 14923int, 3nat, 8int, 1nat, 7nat, 128int);
    lemma_pow_step(2int, 14923int, 7nat, 128int, 0nat, 14nat, 1461int);
    lemma_pow_step(2int, 14923int, 14nat, 1461int, 1nat, 29nat, 1064int);
    lemma_pow_step(2int, 14923int, 29nat, 1064int, 0nat, 58nat, 12871int);
    lemma_pow_step(2int, 14923int, 58nat, 12871int, 0nat, 116nat, 2418int);
    lemma_pow_step(2int, 14923int, 116nat, 2418int, 1nat, 233nat, 8739int);
    lemma_pow_step(2int, 14923int, 233nat, 8739int, 0nat, 466nat, 9130int);
    lemma_pow_step(2int, 14923int, 466nat, 9130int, 0nat, 932nat, 11945int);
    lemma_pow_step(2int, 14923int, 932nat, 11945int, 1nat, 1865nat, 8444int);
    lemma_pow_step(2int, 14923int, 1865nat, 8444int, 0nat, 3730nat, 13965int);
    lemma_pow_step(2int, 14923int, 3730nat, 13965int, 1nat, 7461nat, 14922int);
    lemma_pow_step(2int, 14923int, 7461nat, 14922int, 0nat, 14922nat, 1int);
}

/// `2^7461` modulo `14923`, by square-and-multiply.
proof fn lemma_pow_14923_by_2()
    ensures
        pow(2int, 7461nat) % 14923int == 14922int,
{
    lemma_pow_start(2int, 14923int, 2int);
    lemma_pow_step(2int, 14923int, 1nat, 2int, 1nat, 3nat, 8int);
    lemma_pow_step(2int, 14923int, 3nat, 8int, 1nat, 7nat, 128int);
    lemma_pow_step(2int, 14923int, 7nat, 128int, 0nat, 14nat, 1461int);
    lemma_pow_step(2int, 14923int, 14nat, 1461int, 1nat, 29nat, 1064int);
    lemma_pow_step(2int, 14923int, 29nat, 1064int, 0nat, 58nat, 12871int);
    lemma_pow_step(2int, 14923int, 58nat, 12871int, 0nat, 116nat, 2418int);
    lemma_pow_step(2int, 14923int, 116nat, 2418int, 1nat, 233nat, 8739int);
    lemma_pow_step(2int, 14923int, 233nat, 8739int, 0nat, 466nat, 9130int);
    lemma_pow_step(2int, 14923int, 466nat, 9130int, 0nat, 932nat, 11945int);
    lemma_pow_step(2int, 14923int, 932nat, 11945int, 1nat, 1865nat, 8444int);
    lemma_pow_step(2int, 14923int, 1865nat, 8444int, 0nat, 3730nat, 13965int);
    lemma_pow_step(2int, 14923int, 3730nat, 13965int, 1nat, 7461nat, 14922int);
}

/// `2^4974` modulo `14923`, by square-and-multiply.
proof fn lemma_pow_14923_by_3()
    ensures
        pow(2int, 4974nat) % 14923int == 10689int,
{
    lemma_pow_start(2int, 14923int, 2int);
    lemma_pow_step(2int, 14923int, 1nat, 2int, 0nat, 2nat, 4int);
    lemma_pow_step(2int, 14923int, 2nat, 4int, 0nat, 4nat, 16int);
    lemma_pow_step(2int, 14923int, 4nat, 16int, 1nat, 9nat, 512int);
    lemma_pow_step(2int, 14923int, 9nat, 512int, 1nat, 19nat, 1983int);
    lemma_pow_step(2int, 14923int, 19nat, 1983int, 0nat, 38nat, 7540int);
    lemma_pow_step(2int, 14923int, 38nat, 7540int, 1nat, 77nat, 4863int);
    lemma_pow_step(2int, 14923int, 77nat, 4863int, 1nat, 155nat, 6551int);
    lemma_pow_step(2int, 14923int, 155nat, 6551int, 0nat, 310nat, 11976int);
    lemma_pow_step(2int, 14923int, 310nat, 11976int, 1nat, 621nat, 14169int);
    lemma_pow_step(2int, 14923int, 621nat, 14169int, 1nat, 1243nat, 2884int);
    lemma_pow_step(2int, 14923int, 1243nat, 2884int, 1nat, 2487nat, 10690int);
    lemma_pow_step(2int, 14923int, 2487nat, 10690int, 0nat, 4974nat, 10689int);
}

/// `2^18` modulo `14923`, by square-and-multiply.
proof fn lemma_pow_14923_by_829()
    ensures
        pow(2int, 18nat) % 14923int == 8453int,
{
    lemma_pow_start(2int, 14923int, 2int);
    lemma_pow_step(2int, 14923int, 1nat, 2int, 0nat, 2nat, 4int);
    lemma_pow_step(2int, 14923int, 2nat, 4int, 0nat, 4nat, 16int);
    lemma_pow_step(2int, 14923int, 4nat, 16int, 1nat, 9nat, 512int);
    lemma_pow_step(2int, 14923int, 9nat, 512int, 0nat, 18nat, 8453int);
}

/// 14923 is prime: a Lucas certificate with witness 2.
pub proof fn lemma_prime_14923()
    ensures
        is_prime(14923int),
{
    lemma_prime_2();
    lemma_prime_3();
    lemma_prime_829();
    lemma_pow_14923_full();
    lemma_pow_14923_by_2();
    lemma_pow_14923_by_3();
    lemma_pow_14923_by_829();
    let c: Seq<(int, nat)> = seq![(2int, 1nat), (3int, 2nat), (829int, 1nat)];
    assert(c[0] == (2int, 1nat));
    assert(c[1] == (3int, 2nat));
    assert(c[2] == (829int, 1nat));
    assert(cert_product(c.skip(3)) == 1) by {
        assert(c.skip(3) =~= Seq::<(int, nat)>::empty());
    }
    assert(cert_product(c.skip(2)) == 829int) by {
        assert(c.skip(2).drop_first() =~= c.skip(3));
        assert(c.skip(2)[0] == (829int, 1nat));
        assert(pow(829int, 1nat) == 829int) by {
            reveal_with_fuel(pow, 2);
        }
    }
    assert(cert_product(c.skip(1)) == 7461int) by {
        assert(c.skip(1).drop_first() =~= c.skip(2));
        assert(c.skip(1)[0] == (3int, 2nat));
        assert(pow(3int, 2nat) == 9int) by {
            reveal_with_fuel(pow, 3);
        }
    }
    assert(cert_product(c.skip(0)) == 14922int) by {
        assert(c.skip(0).drop_first() =~= c.skip(1));
        assert(c.skip(0)[0] == (2int, 1nat));
        assert(pow(2int, 1nat) == 2int) by {
            reveal_with_fuel(pow, 2);
        }
    }
    assert(c.skip(0) =~= c);
    assert forall|i: int| 0 <= i < c.len() implies is_prime(#[trigger] c[i].0) && c[i].1 >= 1 by {
        if i == 0 {
            assert(c[0].0 == 2int);
        }
        if i == 1 {
            assert(c[1].0 == 3int);
        }
        if i == 2 {
            assert(c[2].0 == 829int);
        }
    }
    assert forall|i: int| 0 <= i < c.len() implies #[trigger] (pow(2int, ((14923int - 1) / c[i].0) as nat) % 14923int) != 1 by {
        if i == 0 {
            assert(c[0].0 == 2int);
            assert((14923int - 1) / 2int == 7461int);
        }
        if i == 1 {
            assert(c[1].0 == 3int);
            assert((14923int - 1) / 3int == 4974int);
        }
        if i == 2 {
            assert(c[2].0 == 829int);
            assert((14923int - 1) / 829int == 18int);
        }
    }
    lemma_lucas(14923int, 2int, c);
}

/// `3^19266` modulo `19267`, by square-and-multiply.
proof fn lemma_pow_19267_full()
    ensures
        pow(3int, 19266nat) % 19267int == 1int,
{
    lemma_pow_start(3int, 19267int, 3int);
    lemma_pow_step(3int, 19267int, 1nat, 3int, 0nat, 2nat, 9int);
    lemma_pow_step(3int, 19267int, 2nat, 9int, 0nat, 4nat, 81int);
    lemma_pow_step(3int, 19267int, 4nat, 81int, 1nat, 9nat, 416int);
    lemma_pow_step(3int, 19267int, 9nat, 416int, 0nat, 18nat, 18920int);
    lemma_pow_step(3int, 19267int, 18nat, 18920int, 1nat, 37nat, 14421int);
    lemma_pow_step(3int, 19267int, 37nat, 14421int, 1nat, 75nat, 10996int);
    lemma_pow_step(3int, 19267int, 75nat, 10996int, 0nat, 150nat, 11591int);
    lemma_pow_step(3int, 19267int, 150nat, 11591int, 1nat, 301nat, 7470int);
    lemma_pow_step(3int, 19267int, 301nat, 7470int, 0nat, 602nat, 3668int);
    lemma_pow_step(3int, 19267int, 602nat, 3668int, 0nat, 1204nat, 5858int);
    lemma_pow_step(3int, 19267int, 1204nat, 5858int, 0nat, 2408nat, 1637int);
    lemma_pow_step(3int, 19267int, 2408nat, 1637int, 0nat, 4816nat, 1656int);
    lemma_pow_step(3int, 19267int, 4816nat, 1656int, 1nat, 9633nat, 19266int);
    lemma_pow_step(3int, 19267int, 9633nat, 19266int, 0nat, 19266nat, 1int);
}

/// `3^9633` modulo `19267`, by square-and-multiply.
proof fn lemma_pow_19267_by_2()
    ensures
        pow(3int, 9633nat) % 19267int == 19266int,
{
    lemma_pow_start(3int, 19267int, 3int);
    lemma_pow_step(3int, 19267int, 1nat, 3int, 0nat, 2nat, 9int);
    lemma_pow_step(3int, 19267int, 2nat, 9int, 0nat, 4nat, 81int);
    lemma_pow_step(3int, 19267int, 4nat, 81int, 1nat, 9nat, 416int);
    lemma_pow_step(3int, 19267int, 9nat, 416int, 0nat, 18nat, 18920int);
    lemma_pow_step(3int, 19267int, 18nat, 18920int, 1nat, 37nat, 14421int);
    lemma_pow_step(3int, 19267int, 37nat, 14421int, 1nat, 75nat, 10996int);
    lemma_pow_step(3int, 19267int, 75nat, 10996int, 0nat, 150nat, 11591int);
    lemma_pow_step(3int, 19267int, 150nat, 11591int, 1nat, 301nat, 7470int);
    lemma_pow_step(3int, 19267int, 301nat, 7470int, 0nat, 602nat, 3668int);
    lemma_pow_step(3int, 19267int, 602nat, 3668int, 0nat, 1204nat, 5858int);
    lemma_pow_step(3int, 19267int, 1204nat, 5858int, 0nat, 2408nat, 1637int);
    lemma_pow_step(3int, 19267int, 2408nat, 1637int, 0nat, 4816nat, 1656int);
    lemma_pow_step(3int, 19267int, 4816nat, 1656int, 1nat, 9633nat, 19266int);
}

/// `3^6422` modulo `19267`, by square-and-multiply.
proof fn lemma_pow_19267_by_3()
    ensures
        pow(3int, 6422nat) % 19267int == 7149int,
{
    lemma_pow_start(3int, 19267int, 3int);
    lemma_pow_step(3int, 19267int, 1nat, 3int, 1nat, 3nat, 27int);
    lemma_pow_step(3int, 19267int, 3nat, 27int, 0nat, 6nat, 729int);
    lemma_pow_step(3int, 19267int, 6nat, 729int, 0nat, 12nat, 11232int);
    lemma_pow_step(3int, 19267int, 12nat, 11232int, 1nat, 25nat, 11791int);
    lemma_pow_step(3int, 19267int, 25nat, 11791int, 0nat, 50nat, 16276int);
    lemma_pow_step(3int, 19267int, 50nat, 16276int, 0nat, 100nat, 6193int);
    lemma_pow_step(3int, 19267int, 100nat, 6193int, 0nat, 200nat, 11919int);
    lemma_pow_step(3int, 19267int, 200nat, 11919int, 1nat, 401nat, 1643int);
    lemma_pow_step(3int, 19267int, 401nat, 1643int, 0nat, 802nat, 2069int);
    lemma_pow_step(3int, 19267int, 802nat, 2069int, 1nat, 1605nat, 10461int);
    lemma_pow_step(3int, 19267int, 1605nat, 10461int, 1nat, 3211nat, 7150int);
    lemma_pow_step(3int, 19267int, 3211nat, 7150int, 0nat, 6422nat, 7149int);
}

/// `3^1482` modulo `19267`, by square-and-multiply.
proof fn lemma_pow_19267_by_13()
    ensures
        pow(3int, 1482nat) % 19267int == 17399int,
{
    lemma_pow_start(3int, 19267int, 3int);
    lemma_pow_step(3int, 19267int, 1nat, 3int, 0nat, 2nat, 9int);
    lemma_pow_step(3int, 19267int, 2nat, 9int, 1nat, 5nat, 243int);
    lemma_pow_step(3int, 19267int, 5nat, 243int, 1nat, 11nat, 3744int);
    lemma_pow_step(3int, 19267int, 11nat, 3744int, 1nat, 23nat, 12014int);
    lemma_pow_step(3int, 19267int, 23nat, 12014int, 0nat, 46nat, 7099int);
    lemma_pow_step(3int, 19267int, 46nat, 7099int, 0nat, 92nat, 12596int);
    lemma_pow_step(3int, 19267int, 92nat, 12596int, 1nat, 185nat, 5680int);
    lemma_pow_step(3int, 19267int, 185nat, 5680int, 0nat, 370nat, 9442int);
    lemma_pow_step(3int, 19267int, 370nat, 9442int, 1nat, 741nat, 8865int);
    lemma_pow_step(3int, 19267int, 741nat, 8865int, 0nat, 1482nat, 17399int);
}

/// `3^1014` modulo `19267`, by square-and-multiply.
proof fn lemma_pow_19267_by_19()
    ensures
        pow(3int, 1014nat) % 19267int == 11161int,
{
    lemma_pow_start(3int, 19267int, 3int);
    lemma_pow_step(3int, 19267int, 1nat, 3int, 1nat, 3nat, 27int);
    lemma_pow_step(3int, 19267int, 3nat, 27int, 1nat, 7nat, 2187int);
    lemma_pow_step(3int, 19267int, 7nat, 2187int, 1nat, 15nat, 14259int);
    lemma_pow_step(3int, 19267int, 15nat, 14259int, 1nat, 31nat, 2557int);
    lemma_pow_step(3int, 19267int, 31nat, 2557int, 1nat, 63nat, 941int);
    lemma_pow_step(3int, 19267int, 63nat, 941int, 0nat, 126nat, 18466int);
    lemma_pow_step(3int, 19267int, 126nat, 18466int, 1nat, 253nat, 17370int);
    lemma_pow_step(3int, 19267int, 253nat, 17370int, 1nat, 507nat, 6307int);
    lemma_pow_step(3int, 19267int, 507nat, 6307int, 0nat, 1014nat, 11161int);
}

/// 19267 is prime: a Lucas certificate with witness 3.
pub proof fn lemma_prime_19267()
    ensures
        is_prime(19267int),
{
    lemma_prime_2();
    lemma_prime_3();
    lemma_prime_13();
    lemma_prime_19();
    lemma_pow_19267_full();
    lemma_pow_19267_by_2();
    lemma_pow_19267_by_3();
    lemma_pow_19267_by_13();
    lemma_pow_19267_by_19();
    let c: Seq<(int, nat)> = seq![(2int, 1nat), (3int, 1nat), (13int, 2nat), (19int, 1nat)];
    assert(c[0] == (2int, 1nat));
    assert(c[1] == (3int, 1nat));
    assert(c[2] == (13int, 2nat));
    assert(c[3] == (19int, 1nat));
    assert(cert_product(c.skip(4)) == 1) by {
        assert(c.skip(4) =~= Seq::<(int, nat)>::empty());
    }
    assert(cert_product(c.skip(3)) == 19int) by {
        assert(c.skip(3).drop_first() =~= c.skip(4));
        assert(c.skip(3)[0] == (19int, 1nat));
        assert(pow(19int, 1nat) == 19int) by {
            reveal_with_fuel(pow, 2);
        }
    }
    assert(cert_product(c.skip(2)) == 3211int) by {
        assert(c.skip(2).drop_first() =~= c.skip(3));
        assert(c.skip(2)[0] == (13int, 2nat));
        assert(pow(13int, 2nat) == 169int) by {
            reveal_with_fuel(pow, 3);
        }
    }
    assert(cert_product(c.skip(1)) == 9633int) by {
        assert(c.skip(1).drop_first() =~= c.skip(2));
        assert(c.skip(1)[0] == (3int, 1nat));
        assert(pow(3int, 1nat) == 3int) by {
            reveal_with_fuel(pow, 2);
        }
    }
    assert(cert_product(c.skip(0)) == 19266int) by {
        assert(c.skip(0).drop_first() =~= c.skip(1));
        assert(c.skip(0)[0] == (2int, 1nat));
        assert(pow(2int, 1nat) == 2int) by {
            reveal_with_fuel(pow, 2);
        }
    }
    assert(c.skip(0) =~= c);
    assert forall|i: int| 0 <= i < c.len() implies is_prime(#[trigger] c[i].0) && c[i].1 >= 1 by {
        if i == 0 {
            assert(c[0].0 == 2int);
        }
        if i == 1 {
            assert(c[1].0 == 3int);
        }
        if i == 2 {
            assert(c[2].0 == 13int);
        }
        if i == 3 {
            assert(c[3].0 == 19int);
        }
    }
    assert forall|i: int| 0 <= i < c.len() implies #[trigger] (pow(3int, ((19267int - 1) / c[i].0) as nat) % 19267int) != 1 by {
        if i == 0 {
            assert(c[0].0 == 2int);
            assert((19267int - 1) / 2int == 9633int);
        }
        if i == 1 {
            assert(c[1].0 == 3int);
            assert((19267int - 1) / 3int == 6422int);
        }
        if i == 2 {
            assert(c[2].0 == 13int);
            assert((19267int - 1) / 13int == 1482int);
        }
        if i == 3 {
            assert(c[3].0 == 19int);
            assert((19267int - 1) / 19int == 1014int);
        }
    }
    lemma_lucas(19267int, 3int, c);
}

/// `2^24916` modulo `24917`, by square-and-multiply.
proof fn lemma_pow_24917_full()
    ensures
        pow(2int, 24916nat) % 24917int == 1int,
{
    lemma_pow_start(2int, 24917int, 2int);
    lemma_pow_step(2int, 24917int, 1nat, 2int, 1nat, 3nat, 8int);
    lemma_pow_step(2int, 24917int, 3nat, 8int, 0nat, 6nat, 64int);
    lemma_pow_step(2int, 24917int, 6nat, 64int, 0nat, 12nat, 4096int);
    lemma_pow_step(2int, 24917int, 12nat, 4096int, 0nat, 24nat, 8075int);
    lemma_pow_step(2int, 24917int, 24nat, 8075int, 0nat, 48nat, 22753int);
    lemma_pow_step(2int, 24917int, 48nat, 22753int, 1nat, 97nat, 21917int);
    lemma_pow_step(2int, 24917int, 97nat, 21917int, 0nat, 194nat, 4963int);
    lemma_pow_step(2int, 24917int, 194nat, 4963int, 1nat, 389nat, 1829int);
    lemma_pow_step(2int, 24917int, 389nat, 1829int, 0nat, 778nat, 6363int);
    lemma_pow_step(2int, 24917int, 778nat, 6363int, 1nat, 1557nat, 20205int);
    lemma_pow_step(2int, 24917int, 1557nat, 20205int, 0nat, 3114nat, 1897int);
    lemma_pow_step(2int, 24917int, 3114nat, 1897int, 1nat, 6229nat, 21122int);
    lemma_pow_step(2int, 24917int, 6229nat, 21122int, 0nat, 12458nat, 24916int);
    lemma_pow_step(2int, 24917int, 12458nat, 24916int, 0nat, 24916nat, 1int);
}

/// `2^12458` modulo `24917`, by square-and-multiply.
proof fn lemma_pow_24917_by_2()
    ensures
        pow(2int, 12458nat) % 24917int == 24916int,
{
    lemma_pow_start(2int, 24917int, 2int);
    lemma_pow_step(2int, 24917int, 1nat, 2int, 1nat, 3nat, 8int);
    lemma_pow_step(2int, 24917int, 3nat, 8int, 0nat, 6nat, 64int);
    lemma_pow_step(2int, 24917int, 6nat, 64int, 0nat, 12nat, 4096int);
    lemma_pow_step(2int, 24917int, 12nat, 4096int, 0nat, 24nat, 8075int);
    lemma_pow_step(2int, 24917int, 24nat, 8075int, 0nat, 48nat, 22753int);
    lemma_pow_step(2int, 24917int, 48nat, 22753int, 1nat, 97nat, 21917int);
    lemma_pow_step(2int, 24917int, 97nat, 21917int, 0nat, 194nat, 4963int);
    lemma_pow_step(2int, 24917int, 194nat, 4963int, 1nat, 389nat, 1829int);
    lemma_pow_step(2int, 24917int, 389nat, 1829int, 0nat, 778nat, 6363int);
    lemma_pow_step(2int, 24917int, 778nat, 6363int, 1nat, 1557nat, 20205int);
    lemma_pow_step(2int, 24917int, 1557nat, 20205int, 0nat, 3114nat, 1897int);
    lemma_pow_step(2int, 24917int, 3114nat, 1897int, 1nat, 6229nat, 21122int);
    lemma_pow_step(2int, 24917int, 6229nat, 21122int, 0nat, 12458nat, 24916int);
}

/// `2^4` modulo `24917`, by square-and-multiply.
proof fn lemma_pow_24917_by_6229()
    ensures
        pow(2int, 4nat) % 24917int == 16int,
{
    lemma_pow_start(2int, 24917int, 2int);
    lemma_pow_step(2int, 24917int, 1nat, 2int, 0nat, 2nat, 4int);
    lemma_pow_step(2int, 24917int, 2nat, 4int, 0nat, 4nat, 16int);
}

/// 24917 is prime: a Lucas certificate with witness 2.
pub proof fn lemma_prime_24917()
    ensures
        is_prime(24917int),
{
    lemma_prime_2();
    lemma_prime_6229();
    lemma_pow_24917_full();
    lemma_pow_24917_by_2();
    lemma_pow_24917_by_6229();
    let c: Seq<(int, nat)> = seq![(2int, 2nat), (6229int, 1nat)];
    assert(c[0] == (2int, 2nat));
    assert(c[1] == (6229int, 1nat));
    assert(cert_product(c.skip(2)) == 1) by {
        assert(c.skip(2) =~= Seq::<(int, nat)>::empty());
    }
    assert(cert_product(c.skip(1)) == 6229int) by {
        assert(c.skip(1).drop_first() =~= c.skip(2));
        assert(c.skip(1)[0] == (6229int, 1nat));
        assert(pow(6229int, 1nat) == 6229int) by {
            reveal_with_fuel(pow, 2);
        }
    }
    assert(cert_product(c.skip(0)) == 24916int) by {
        assert(c.skip(0).drop_first() =~= c.skip(1));
        assert(c.skip(0)[0] == (2int, 2nat));
        assert(pow(2int, 2nat) == 4int) by {
            reveal_with_fuel(pow, 3);
        }
    }
    assert(c.skip(0) =~= c);
    assert forall|i: int| 0 <= i < c.len() implies is_prime(#[trigger] c[i].0) && c[i].1 >= 1 by {
        if i == 0 {
            assert(c[0].0 == 2int);
        }
        if i == 1 {
            assert(c[1].0 == 6229int);
        }
    }
    assert forall|i: int| 0 <= i < c.len() implies #[trigger] (pow(2int, ((24917int - 1) / c[i].0) as nat) % 24917int) != 1 by {
        if i == 0 {
            assert(c[0].0 == 2int);
            assert((24917int - 1) / 2int == 12458int);
        }
        if i == 1 {
            assert(c[1].0 == 6229int);
            assert((24917int - 1) / 6229int == 4int);
        }
    }
    lemma_lucas(24917int, 2int, c);
}

/// `6^25740` modulo `25741`, by square-and-multiply.
proof fn lemma_pow_25741_full()
    ensures
        pow(6int, 25740nat) % 25741int == 1int,
{
    lemma_pow_start(6int, 25741int, 6int);
    lemma_pow_step(6int, 25741int, 1nat, 6int, 1nat, 3nat, 216int);
    lemma_pow_step(6int, 25741int, 3nat, 216int, 0nat, 6nat, 20915int);
    lemma_pow_step(6int, 25741int, 6nat, 20915int, 0nat, 12nat, 20412int);
    lemma_pow_step(6int, 25741int, 12nat, 20412int, 1nat, 25nat, 9767int);
    lemma_pow_step(6int, 25741int, 25nat, 9767int, 0nat, 50nat, 23884int);
    lemma_pow_step(6int, 25741int, 50nat, 23884int, 0nat, 100nat, 24896int);
    lemma_pow_step(6int, 25741int, 100nat, 24896int, 1nat, 201nat, 11144int);
    lemma_pow_step(6int, 25741int, 201nat, 11144int, 0nat, 402nat, 14152int);
    lemma_pow_step(6int, 25741int, 402nat, 14152int, 0nat, 804nat, 14124int);
    lemma_pow_step(6int, 25741int, 804nat, 14124int, 0nat, 1608nat, 20367int);
    lemma_pow_step(6int, 25741int, 1608nat, 20367int, 1nat, 3217nat, 16585int);
    lemma_pow_step(6int, 25741int, 3217nat, 16585int, 1nat, 6435nat, 14876int);
    lemma_pow_step(6int, 25741int, 6435nat, 14876int, 0nat, 12870nat, 25740int);
    lemma_pow_step(6int, 25741int, 12870nat, 25740int, 0nat, 25740nat, 1int);
}

/// `6^12870` modulo `25741`, by square-and-multiply.
proof fn lemma_pow_25741_by_2()
    ensures
        pow(6int, 12870nat) % 25741int == 25740int,
{
    lemma_pow_start(6int, 25741int, 6int);
    lemma_pow_step(6int, 25741int, 1nat, 6int, 1nat, 3nat, 216int);
    lemma_pow_step(6int, 25741int, 3nat, 216int, 0nat, 6nat, 20915int);
    lemma_pow_step(6int, 25741int, 6nat, 20915int, 0nat, 12nat, 20412int);
    lemma_pow_step(6int, 25741int, 12nat, 20412int, 1nat, 25nat, 9767int);
    lemma_pow_step(6int, 25741int, 25nat, 9767int, 0nat, 50nat, 23884int);
    lemma_pow_step(6int, 25741int, 50nat, 23884int, 0nat, 100nat, 24896int);
    lemma_pow_step(6int, 25741int, 100nat, 24896int, 1nat, 201nat, 11144int);
    lemma_pow_step(6int, 25741int, 201nat, 11144int, 0nat, 402nat, 14152int);
    lemma_pow_step(6int, 25741int, 402nat, 14152int, 0nat, 804nat, 14124int);
    lemma_pow_step(6int, 25741int, 804nat, 14124int, 0nat, 1608nat, 20367int);
    lemma_pow_step(6int, 25741int, 1608nat, 20367int, 1nat, 3217nat, 16585int);
    lemma_pow_step(6int, 25741int, 3217nat, 16585int, 1nat, 6435nat, 14876int);
    lemma_pow_step(6int, 25741int, 6435nat, 14876int, 0nat, 12870nat, 25740int);
}

/// `6^8580` modulo `25741`, by square-and-multiply.
proof fn lemma_pow_25741_by_3()
    ensures
        pow(6int, 8580nat) % 25741int == 24210int,
{
    lemma_pow_start(6int, 25741int, 6int);
    lemma_pow_step(6int, 25741int, 1nat, 6int, 0nat, 2nat, 36int);
    lemma_pow_step(6int, 25741int, 2nat, 36int, 0nat, 4nat, 1296int);
    lemma_pow_step(6int, 25741int, 4nat, 1296int, 0nat, 8nat, 6451int);
    lemma_pow_step(6int, 25741int, 8nat, 6451int, 0nat, 16nat, 17945int);
    lemma_pow_step(6int, 25741int, 16nat, 17945int, 1nat, 33nat, 18690int);
    lemma_pow_step(6int, 25741int, 33nat, 18690int, 1nat, 67nat, 12898int);
    lemma_pow_step(6int, 25741int, 67nat, 12898int, 0nat, 134nat, 20062int);
    lemma_pow_step(6int, 25741int, 134nat, 20062int, 0nat, 268nat, 23309int);
    lemma_pow_step(6int, 25741int, 268nat, 23309int, 0nat, 536nat, 19935int);
    lemma_pow_step(6int, 25741int, 536nat, 19935int, 0nat, 1072nat, 14667int);
    lemma_pow_step(6int, 25741int, 1072nat, 14667int, 1nat, 2145nat, 20112int);
    lemma_pow_step(6int, 25741int, 2145nat, 20112int, 0nat, 4290nat, 24211int);
    lemma_pow_step(6int, 25741int, 4290nat, 24211int, 0nat, 8580nat, 24210int);
}

/// `6^5148` modulo `25741`, by square-and-multiply.
proof fn lemma_pow_25741_by_5()
    ensures
        pow(6int, 5148nat) % 25741int == 2525int,
{
    lemma_pow_start(6int, 25741int, 6int);
    lemma_pow_step(6int, 25741int, 1nat, 6int, 0nat, 2nat, 36int);
    lemma_pow_step(6int, 25741int, 2nat, 36int, 1nat, 5nat, 7776int);
    lemma_pow_step(6int, 25741int, 5nat, 7776int, 0nat, 10nat, 567int);
    lemma_pow_step(6int, 25741int, 10nat, 567int, 0nat, 20nat, 12597int);
    lemma_pow_step(6int, 25741int, 20nat, 12597int, 0nat, 40nat, 16885int);
    lemma_pow_step(6int, 25741int, 40nat, 16885int, 0nat, 80nat, 21650int);
    lemma_pow_step(6int, 25741int, 80nat, 21650int, 0nat, 160nat, 4631int);
    lemma_pow_step(6int, 25741int, 160nat, 4631int, 1nat, 321nat, 23448int);
    lemma_pow_step(6int, 25741int, 321nat, 23448int, 1nat, 643nat, 14369int);
    lemma_pow_step(6int, 25741int, 643nat, 14369int, 1nat, 1287nat, 23341int);
    lemma_pow_step(6int, 25741int, 1287nat, 23341int, 0nat, 2574nat, 19757int);
    lemma_pow_step(6int, 25741int, 2574nat, 19757int, 0nat, 5148nat, 2525int);
}

/// `6^2340` modulo `25741`, by square-and-multiply.
proof fn lemma_pow_25741_by_11()
    ensures
        pow(6int, 2340nat) % 25741int == 21223int,
{
    lemma_pow_start(6int, 25741int, 6int);
    lemma_pow_step(6int, 25741int, 1nat, 6int, 0nat, 2nat, 36int);
    lemma_pow_step(6int, 25741int, 2nat, 36int, 0nat, 4nat, 1296int);
    lemma_pow_step(6int, 25741int, 4nat, 1296int, 1nat, 9nat, 12965int);
    lemma_pow_step(6int, 25741int, 9nat, 12965int, 0nat, 18nat, 2495int);
    lemma_pow_step(6int, 25741int, 18nat, 2495int, 0nat, 36nat, 21444int);
    lemma_pow_step(6int, 25741int, 36nat, 21444int, 1nat, 73nat, 21731int);
    lemma_pow_step(6int, 25741int, 73nat, 21731int, 0nat, 146nat, 17716int);
    lemma_pow_step(6int, 25741int, 146nat, 17716int, 0nat, 292nat, 22384int);
    lemma_pow_step(6int, 25741int, 292nat, 22384int, 1nat, 585nat, 20828int);
    lemma_pow_step(6int, 25741int, 585nat, 20828int, 0nat, 1170nat, 18252int);
    lemma_pow_step(6int, 25741int, 1170nat, 18252int, 0nat, 2340nat, 21223int);
}

/// `6^1980` modulo `25741`, by square-and-multiply.
proof fn lemma_pow_25741_by_13()
    ensures
        pow(6int, 1980nat) % 25741int == 12350int,
{
    lemma_pow_start(6int, 25741int, 6int);
    lemma_pow_step(6int, 25741int, 1nat, 6int, 1nat, 3nat, 216int);
    lemma_pow_step(6int, 25741int, 3nat, 216int, 1nat, 7nat, 22526int);
    lemma_pow_step(6int, 25741int, 7nat, 22526int, 1nat, 15nat, 7281int);
    lemma_pow_step(6int, 25741int, 15nat, 7281int, 0nat, 30nat, 12242int);
    lemma_pow_step(6int, 25741int, 30nat, 12242int, 1nat, 61nat, 14772int);
    lemma_pow_step(6int, 25741int, 61nat, 14772int, 1nat, 123nat, 7421int);
    lemma_pow_step(6int, 25741int, 123nat, 7421int, 1nat, 247nat, 15970int);
    lemma_pow_step(6int, 25741int, 247nat, 15970int, 1nat, 495nat, 20173int);
    lemma_pow_step(6int, 25741int, 495nat, 20173int, 0nat, 990nat, 10460int);
    lemma_pow_step(6int, 25741int, 990nat, 10460int, 0nat, 1980nat, 12350int);
}

/// 25741 is prime: a Lucas certificate with witness 6.
pub proof fn lemma_prime_25741()
    ensures
        is_prime(25741int),
{
    lemma_prime_2();
    lemma_prime_3();
    lemma_prime_5();
    lemma_prime_11();
    lemma_prime_13();
    lemma_pow_25741_full();
    lemma_pow_25741_by_2();
    lemma_pow_25741_by_3();
    lemma_pow_25741_by_5();
    lemma_pow_25741_by_11();
    lemma_pow_25741_by_13();
    let c: Seq<(int, nat)> = seq![(2int, 2nat), (3int, 2nat), (5int, 1nat), (11int, 1nat), (13int, 1nat)];
    assert(c[0] == (2int, 2nat));
    assert(c[1] == (3int, 2nat));
    assert(c[2] == (5int, 1nat));
    assert(c[3] == (11int, 1nat));
    assert(c[4] == (13int, 1nat));
    assert(cert_product(c.skip(5)) == 1) by {
        assert(c.skip(5) =~= Seq::<(int, nat)>::empty());
    }
    assert(cert_product(c.skip(4)) == 13int) by {
        assert(c.skip(4).drop_first() =~= c.skip(5));
        assert(c.skip(4)[0] == (13int, 1nat));
        assert(pow(13int, 1nat) == 13int) by {
            reveal_with_fuel(pow, 2);
        }
    }
    assert(cert_product(c.skip(3)) == 143int) by {
        assert(c.skip(3).drop_first() =~= c.skip(4));
        assert(c.skip(3)[0] == (11int, 1nat));
        assert(pow(11int, 1nat) == 11int) by {
            reveal_with_fuel(pow, 2);
        }
    }
    assert(cert_product(c.skip(2)) == 715int) by {
        assert(c.skip(2).drop_first() =~= c.skip(3));
        assert(c.skip(2)[0] == (5int, 1nat));
        assert(pow(5int, 1nat) == 5int) by {
            reveal_with_fuel(pow, 2);
        }
    }
    assert(cert_product(c.skip(1)) == 6435int) by {
        assert(c.skip(1).drop_first() =~= c.skip(2));
        assert(c.skip(1)[0] == (3int, 2nat));
        assert(pow(3int, 2nat) == 9int) by {
            reveal_with_fuel(pow, 3);
        }
    }
    assert(cert_product(c.skip(0)) == 25740int) by {
        assert(c.skip(0).drop_first() =~= c.skip(1));
        assert(c.skip(0)[0] == (2int, 2nat));
        assert(pow(2int, 2nat) == 4int) by {
            reveal_with_fuel(pow, 3);
        }
    }
    assert(c.skip(0) =~= c);
    assert forall|i: int| 0 <= i < c.len() implies is_prime(#[trigger] c[i].0) && c[i].1 >= 1 by {
        if i == 0 {
            assert(c[0].0 == 2int);
        }
        if i == 1 {
            assert(c[1].0 == 3int);
        }
        if i == 2 {
            assert(c[2].0 == 5int);
        }
        if i == 3 {
            assert(c[3].0 == 11int);
        }
        if i == 4 {
            assert(c[4].0 == 13int);
        }
    }
    assert forall|i: int| 0 <= i < c.len() implies #[trigger] (pow(6int, ((25741int - 1) / c[i].0) as nat) % 25741int) != 1 by {
        if i == 0 {
            assert(c[0].0 == 2int);
            assert((25741int - 1) / 2int == 12870int);
        }
        if i == 1 {
            assert(c[1].0 == 3int);
            assert((25741int - 1) / 3int == 8580int);
        }
        if i == 2 {
            assert(c[2].0 == 5int);
            assert((25741int - 1) / 5int == 5148int);
        }
        if i == 3 {
            assert(c[3].0 == 11int);
            assert((25741int - 1) / 11int == 2340int);
        }
        if i == 4 {
            assert(c[4].0 == 13int);
            assert((25741int - 1) / 13int == 1980int);
        }
    }
    lemma_lucas(25741int, 6int, c);
}

/// `2^115602` modulo `115603`, by square-and-multiply.
proof fn lemma_pow_115603_full()
    ensures
        pow(2int, 115602nat) % 115603int == 1int,
{
    lemma_pow_start(2int, 115603int, 2int);
    lemma_pow_step(2int, 115603int, 1nat, 2int, 1nat, 3nat, 8int);
    lemma_pow_step(2int, 115603int, 3nat, 8int, 1nat, 7nat, 128int);
    lemma_pow_step(2int, 115603int, 7nat, 128int, 0nat, 14nat, 16384int);
    lemma_pow_step(2int, 115603int, 14nat, 16384int, 0nat, 28nat, 5290int);
    lemma_pow_step(2int, 115603int, 28nat, 5290int, 0nat, 56nat, 8174int);
    lemma_pow_step(2int, 115603int, 56nat, 8174int, 0nat, 112nat, 111345int);
    lemma_pow_step(2int, 115603int, 112nat, 111345int, 1nat, 225nat, 77389int);
    lemma_pow_step(2int, 115603int, 225nat, 77389int, 1nat, 451nat, 25400int);
    lemma_pow_step(2int, 115603int, 451nat, 25400int, 1nat, 903nat, 74917int);
    lemma_pow_step(2int, 115603int, 903nat, 74917int, 0nat, 1806nat, 31239int);
    lemma_pow_step(2int, 115603int, 1806nat, 31239int, 0nat, 3612nat, 70198int);
    lemma_pow_step(2int, 115603int, 3612nat, 70198int, 1nat, 7225nat, 15849int);
    lemma_pow_step(2int, 115603int, 7225nat, 15849int, 0nat, 14450nat, 101085int);
    lemma_pow_step(2int, 115603int, 14450nat, 101085int, 0nat, 28900nat, 28055int);
    lemma_pow_step(2int, 115603int, 28900nat, 28055int, 1nat, 57801nat, 115602int);
    lemma_pow_step(2int, 115603int, 57801nat, 115602int, 0nat, 115602nat, 1int);
}

/// `2^57801` modulo `115603`, by square-and-multiply.
proof fn lemma_pow_115603_by_2()
    ensures
        pow(2int, 57801nat) % 115603int == 115602int,
{
    lemma_pow_start(2int, 115603int, 2int);
    lemma_pow_step(2int, 115603int, 1nat, 2int, 1nat, 3nat, 8int);
    lemma_pow_step(2int, 115603int, 3nat, 8int, 1nat, 7nat, 128int);
    lemma_pow_step(2int, 115603int, 7nat, 128int, 0nat, 14nat, 16384int);
    lemma_pow_step(2int, 115603int, 14nat, 16384int, 0nat, 28nat, 5290int);
    lemma_pow_step(2int, 115603int, 28nat, 5290int, 0nat, 56nat, 8174int);
    lemma_pow_step(2int, 115603int, 56nat, 8174int, 0nat, 112nat, 111345int);
    lemma_pow_step(2int, 115603int, 112nat, 111345int, 1nat, 225nat, 77389int);
    lemma_pow_step(2int, 115603int, 225nat, 77389int, 1nat, 451nat, 25400int);
    lemma_pow_step(2int, 115603int, 451nat, 25400int, 1nat, 903nat, 74917int);
    lemma_pow_step(2int, 115603int, 903nat, 74917int, 0nat, 1806nat, 31239int);
    lemma_pow_step(2int, 115603int, 1806nat, 31239int, 0nat, 3612nat, 70198int);
    lemma_pow_step(2int, 115603int, 3612nat, 70198int, 1nat, 7225nat, 15849int);
    lemma_pow_step(2int, 115603int, 7225nat, 15849int, 0nat, 14450nat, 101085int);
    lemma_pow_step(2int, 115603int, 14450nat, 101085int, 0nat, 28900nat, 28055int);
    lemma_pow_step(2int, 115603int, 28900nat, 28055int, 1nat, 57801nat, 115602int);
}

/// `2^38534` modulo `115603`, by square-and-multiply.
proof fn lemma_pow_115603_by_3()
    ensures
        pow(2int, 38534nat) % 115603int == 57631int,
{
    lemma_pow_start(2int, 115603int, 2int);
    lemma_pow_step(2int, 115603int, 1nat, 2int, 0nat, 2nat, 4int);
    lemma_pow_step(2int, 115603int, 2nat, 4int, 0nat, 4nat, 16int);
    lemma_pow_step(2int, 115603int, 4nat, 16int, 1nat, 9nat, 512int);
    lemma_pow_step(2int, 115603int, 9nat, 512int, 0nat, 18nat, 30938int);
    lemma_pow_step(2int, 115603int, 18nat, 30938int, 1nat, 37nat, 49611int);
    lemma_pow_step(2int, 115603int, 37nat, 49611int, 1nat, 75nat, 11299int);
    lemma_pow_step(2int, 115603int, 75nat, 11299int, 0nat, 150nat, 41689int);
    lemma_pow_step(2int, 115603int, 150nat, 41689int, 1nat, 301nat, 110041int);
    lemma_pow_step(2int, 115603int, 301nat, 110041int, 0nat, 602nat, 69843int);
    lemma_pow_step(2int, 115603int, 602nat, 69843int, 0nat, 1204nat, 60461int);
    lemma_pow_step(2int, 115603int, 1204nat, 60461int, 0nat, 2408nat, 50058int);
    lemma_pow_step(2int, 115603int, 2408nat, 50058int, 0nat, 4816nat, 108339int);
    lemma_pow_step(2int, 115603int, 4816nat, 108339int, 1nat, 9633nat, 101456int);
    lemma_pow_step(2int, 115603int, 9633nat, 101456int, 1nat, 19267nat, 57632int);
    lemma_pow_step(2int, 115603int, 19267nat, 57632int, 0nat, 38534nat, 57631int);
}

/// `2^6` modulo `115603`, by square-and-multiply.
proof fn lemma_pow_115603_by_19267()
    ensures
        pow(2int, 6nat) % 115603int == 64int,
{
    lemma_pow_start(2int, 115603int, 2int);
    lemma_pow_step(2int, 115603int, 1nat, 2int, 1nat, 3nat, 8int);
    lemma_pow_step(2int, 115603int, 3nat, 8int, 0nat, 6nat, 64int);
}

/// 115603 is prime: a Lucas certificate with witness 2.
pub proof fn lemma_prime_115603()
    ensures
        is_prime(115603int),
{
    lemma_prime_2();
    lemma_prime_3();
    lemma_prime_19267();
    lemma_pow_115603_full();
    lemma_pow_115603_by_2();
    lemma_pow_115603_by_3();
    lemma_pow_115603_by_19267();
    let c: Seq<(int, nat)> = seq![(2int, 1nat), (3int, 1nat), (19267int, 1nat)];
    assert(c[0] == (2int, 1nat));
    assert(c[1] == (3int, 1nat));
    assert(c[2] == (19267int, 1nat));
    assert(cert_product(c.skip(3)) == 1) by {
        assert(c.skip(3) =~= Seq::<(int, nat)>::empty());
    }
    assert(cert_product(c.skip(2)) == 19267int) by {
        assert(c.skip(2).drop_first() =~= c.skip(3));
        assert(c.skip(2)[0] == (19267int, 1nat));
        assert(pow(19267int, 1nat) == 19267int) by {
            reveal_with_fuel(pow, 2);
        }
    }
    assert(cert_product(c.skip(1)) == 57801int) by {
        assert(c.skip(1).drop_first() =~= c.skip(2));
        assert(c.skip(1)[0] == (3int, 1nat));
        assert(pow(3int, 1nat) == 3int) by {
            reveal_with_fuel(pow, 2);
        }
    }
    assert(cert_product(c.skip(0)) == 115602int) by {
        assert(c.skip(0).drop_first() =~= c.skip(1));
        assert(c.skip(0)[0] == (2int, 1nat));
        assert(pow(2int, 1nat) == 2int) by {
            reveal_with_fuel(pow, 2);
        }
    }
    assert(c.skip(0) =~= c);
    assert forall|i: int| 0 <= i < c.len() implies is_prime(#[trigger] c[i].0) && c[i].1 >= 1 by {
        if i == 0 {
            assert(c[0].0 == 2int);
        }
        if i == 1 {
            assert(c[1].0 == 3int);
        }
        if i == 2 {
            assert(c[2].0 == 19267int);
        }
    }
    assert forall|i: int| 0 <= i < c.len() implies #[trigger] (pow(2int, ((115603int - 1) / c[i].0) as nat) % 115603int) != 1 by {
        if i == 0 {
            assert(c[0].0 == 2int);
            assert((115603int - 1) / 2int == 57801int);
        }
        if i == 1 {
            assert(c[1].0 == 3int);
            assert((115603int - 1) / 3int == 38534int);
        }
        if i == 2 {
            assert(c[2].0 == 19267int);
            assert((115603int - 1) / 19267int == 6int);
        }
    }
    lemma_lucas(115603int, 2int, c);
}

/// `3^149502` modulo `149503`, by square-and-multiply.
proof fn lemma_pow_149503_full()
    ensures
        pow(3int, 149502nat) % 149503int == 1int,
{
    lemma_pow_start(3int, 149503int, 3int);
    lemma_pow_step(3int, 149503int, 1nat, 3int, 0nat, 2nat, 9int);
    lemma_pow_step(3int, 149503int, 2nat, 9int, 0nat, 4nat, 81int);
    lemma_pow_step(3int, 149503int, 4nat, 81int, 1nat, 9nat, 19683int);
    lemma_pow_step(3int, 149503int, 9nat, 19683int, 0nat, 18nat, 58216int);
    lemma_pow_step(3int, 149503int, 18nat, 58216int, 0nat, 36nat, 19149int);
    lemma_pow_step(3int, 149503int, 36nat, 19149int, 0nat, 72nat, 102845int);
    lemma_pow_step(3int, 149503int, 72nat, 102845int, 1nat, 145nat, 17840int);
    lemma_pow_step(3int, 149503int, 145nat, 17840int, 1nat, 291nat, 70642int);
    lemma_pow_step(3int, 149503int, 291nat, 70642int, 1nat, 583nat, 94581int);
    lemma_pow_step(3int, 149503int, 583nat, 94581int, 1nat, 1167nat, 11165int);
    lemma_pow_step(3int, 149503int, 1167nat, 11165int, 1nat, 2335nat, 64672int);
    lemma_pow_step(3int, 149503int, 2335nat, 64672int, 1nat, 4671nat, 64471int);
    lemma_pow_step(3int, 149503int, 4671nat, 64471int, 1nat, 9343nat, 82305int);
    lemma_pow_step(3int, 149503int, 9343nat, 82305int, 1nat, 18687nat, 97279int);
    lemma_pow_step(3int, 149503int, 18687nat, 97279int, 1nat, 37375nat, 38344int);
    lemma_pow_step(3int, 149503int, 37375nat, 38344int, 1nat, 74751nat, 149502int);
    lemma_pow_step(3int, 149503int, 74751nat, 149502int, 0nat, 149502nat, 1int);
}

/// `3^74751` modulo `149503`, by square-and-multiply.
proof fn lemma_pow_149503_by_2()
    ensures
        pow(3int, 74751nat) % 149503int == 149502int,
{
    lemma_pow_start(3int, 149503int, 3int);
    lemma_pow_step(3int, 149503int, 1nat, 3int, 0nat, 2nat, 9int);
    lemma_pow_step(3int, 149503int, 2nat, 9int, 0nat, 4nat, 81int);
    lemma_pow_step(3int, 149503int, 4nat, 81int, 1nat, 9nat, 19683int);
    lemma_pow_step(3int, 149503int, 9nat, 19683int, 0nat, 18nat, 58216int);
    lemma_pow_step(3int, 149503int, 18nat, 58216int, 0nat, 36nat, 19149int);
    lemma_pow_step(3int, 149503int, 36nat, 19149int, 0nat, 72nat, 102845int);
    lemma_pow_step(3int, 149503int, 72nat, 102845int, 1nat, 145nat, 17840int);
    lemma_pow_step(3int, 149503int, 145nat, 17840int, 1nat, 291nat, 70642int);
    lemma_pow_step(3int, 149503int, 291nat, 70642int, 1nat, 583nat, 94581int);
    lemma_pow_step(3int, 149503int, 583nat, 94581int, 1nat, 1167nat, 11165int);
    lemma_pow_step(3int, 149503int, 1167nat, 11165int, 1nat, 2335nat, 64672int);
    lemma_pow_step(3int, 149503int, 2335nat, 64672int, 1nat, 4671nat, 64471int);
    lemma_pow_step(3int, 149503int, 4671nat, 64471int, 1nat, 9343nat, 82305int);
    lemma_pow_step(3int, 149503int, 9343nat, 82305int, 1nat, 18687nat, 97279int);
    lemma_pow_step(3int, 149503int, 18687nat, 97279int, 1nat, 37375nat, 38344int);
    lemma_pow_step(3int, 149503int, 37375nat, 38344int, 1nat, 74751nat, 149502int);
}

/// `3^49834` modulo `149503`, by square-and-multiply.
proof fn lemma_pow_149503_by_3()
    ensures
        pow(3int, 49834nat) % 149503int == 17235int,
{
    lemma_pow_start(3int, 149503int, 3int);
    lemma_pow_step(3int, 149503int, 1nat, 3int, 1nat, 3nat, 27int);
    lemma_pow_step(3int, 149503int, 3nat, 27int, 0nat, 6nat, 729int);
    lemma_pow_step(3int, 149503int, 6nat, 729int, 0nat, 12nat, 82932int);
    lemma_pow_step(3int, 149503int, 12nat, 82932int, 0nat, 24nat, 130115int);
    lemma_pow_step(3int, 149503int, 24nat, 130115int, 0nat, 48nat, 44002int);
    lemma_pow_step(3int, 149503int, 48nat, 44002int, 1nat, 97nat, 37456int);
    lemma_pow_step(3int, 149503int, 97nat, 37456int, 0nat, 194nat, 15784int);
    lemma_pow_step(3int, 149503int, 194nat, 15784int, 1nat, 389nat, 38471int);
    lemma_pow_step(3int, 149503int, 389nat, 38471int, 0nat, 778nat, 87644int);
    lemma_pow_step(3int, 149503int, 778nat, 87644int, 1nat, 1557nat, 19788int);
    lemma_pow_step(3int, 149503int, 1557nat, 19788int, 0nat, 3114nat, 16587int);
    lemma_pow_step(3int, 149503int, 3114nat, 16587int, 1nat, 6229nat, 129147int);
    lemma_pow_step(3int, 149503int, 6229nat, 129147int, 0nat, 12458nat, 93923int);
    lemma_pow_step(3int, 149503int, 12458nat, 93923int, 1nat, 24917nat, 17236int);
    lemma_pow_step(3int, 149503int, 24917nat, 17236int, 0nat, 49834nat, 17235int);
}

/// `3^6` modulo `149503`, by square-and-multiply.
proof fn lemma_pow_149503_by_24917()
    ensures
        pow(3int, 6nat) % 149503int == 729int,
{
    lemma_pow_start(3int, 149503int, 3int);
    lemma_pow_step(3int, 149503int, 1nat, 3int, 1nat, 3nat, 27int);
    lemma_pow_step(3int, 149503int, 3nat, 27int, 0nat, 6nat, 729int);
}

/// 149503 is prime: a Lucas certificate with witness 3.
pub proof fn lemma_prime_149503()
    ensures
        is_prime(149503int),
{
    lemma_prime_2();
    lemma_prime_3();
    lemma_prime_24917();
    lemma_pow_149503_full();
    lemma_pow_149503_by_2();
    lemma_pow_149503_by_3();
    lemma_pow_149503_by_24917();
    let c: Seq<(int, nat)> = seq![(2int, 1nat), (3int, 1nat), (24917int, 1nat)];
    assert(c[0] == (2int, 1nat));
    assert(c[1] == (3int, 1nat));
    assert(c[2] == (24917int, 1nat));
    assert(cert_product(c.skip(3)) == 1) by {
        assert(c.skip(3) =~= Seq::<(int, nat)>::empty());
    }
    assert(cert_product(c.skip(2)) == 24917int) by {
        assert(c.skip(2).drop_first() =~= c.skip(3));
        assert(c.skip(2)[0] == (24917int, 1nat));
        assert(pow(24917int, 1nat) == 24917int) by {
            reveal_with_fuel(pow, 2);
        }
    }
    assert(cert_product(c.skip(1)) == 74751int) by {
        assert(c.skip(1).drop_first() =~= c.skip(2));
        assert(c.skip(1)[0] == (3int, 1nat));
        assert(pow(3int, 1nat) == 3int) by {
            reveal_with_fuel(pow, 2);
        }
    }
    assert(cert_product(c.skip(0)) == 149502int) by {
        assert(c.skip(0).drop_first() =~= c.skip(1));
        assert(c.skip(0)[0] == (2int, 1nat));
        assert(pow(2int, 1nat) == 2int) by {
            reveal_with_fuel(pow, 2);
        }
    }
    assert(c.skip(0) =~= c);
    assert forall|i: int| 0 <= i < c.len() implies is_prime(#[trigger] c[i].0) && c[i].1 >= 1 by {
        if i == 0 {
            assert(c[0].0 == 2int);
        }
        if i == 1 {
            assert(c[1].0 == 3int);
        }
        if i == 2 {
            assert(c[2].0 == 24917int);
        }
    }
    assert forall|i: int| 0 <= i < c.len() implies #[trigger] (pow(3int, ((149503int - 1) / c[i].0) as nat) % 149503int) != 1 by {
        if i == 0 {
            assert(c[0].0 == 2int);
            assert((149503int - 1) / 2int == 74751int);
        }
        if i == 1 {
            assert(c[1].0 == 3int);
            assert((149503int - 1) / 3int == 49834int);
        }
        if i == 2 {
            assert(c[2].0 == 24917int);
            assert((149503int - 1) / 24917int == 6int);
        }
    }
    lemma_lucas(149503int, 3int, c);
}

/// `3^413526` modulo `413527`, by square-and-multiply.
proof fn lemma_pow_413527_full()
    ensures
        pow(3int, 413526nat) % 413527int == 1int,
{
    lemma_pow_start(3int, 413527int, 3int);
    lemma_pow_step(3int, 413527int, 1nat, 3int, 1nat, 3nat, 27int);
    lemma_pow_step(3int, 413527int, 3nat, 27int, 0nat, 6nat, 729int);
    lemma_pow_step(3int, 413527int, 6nat, 729int, 0nat, 12nat, 117914int);
    lemma_pow_step(3int, 413527int, 12nat, 117914int, 1nat, 25nat, 319806int);
    lemma_pow_step(3int, 413527int, 25nat, 319806int, 0nat, 50nat, 312361int);
    lemma_pow_step(3int, 413527int, 50nat, 312361int, 0nat, 100nat, 179833int);
    lemma_pow_step(3int, 413527int, 100nat, 179833int, 1nat, 201nat, 86562int);
    lemma_pow_step(3int, 413527int, 201nat, 86562int, 1nat, 403nat, 25339int);
    lemma_pow_step(3int, 413527int, 403nat, 25339int, 1nat, 807nat, 399524int);
    lemma_pow_step(3int, 413527int, 807nat, 399524int, 1nat, 1615nat, 216633int);
    lemma_pow_step(3int, 413527int, 1615nat, 216633int, 0nat, 3230nat, 331567int);
    lemma_pow_step(3int, 413527int, 3230nat, 331567int, 1nat, 6461nat, 327036int);
    lemma_pow_step(3int, 413527int, 6461nat, 327036int, 0nat, 12922nat, 403178int);
    lemma_pow_step(3int, 413527int, 12922nat, 403178int, 1nat, 25845nat, 408451int);
    lemma_pow_step(3int, 413527int, 25845nat, 408451int, 0nat, 51690nat, 127102int);
    lemma_pow_step(3int, 413527int, 51690nat, 127102int, 1nat, 103381nat, 217866int);
    lemma_pow_step(3int, 413527int, 103381nat, 217866int, 1nat, 206763nat, 413526int);
    lemma_pow_step(3int, 413527int, 206763nat, 413526int, 0nat, 413526nat, 1int);
}

/// `3^206763` modulo `413527`, by square-and-multiply.
proof fn lemma_pow_413527_by_2()
    ensures
        pow(3int, 206763nat) % 413527int == 413526int,
{
    lemma_pow_start(3int, 413527int, 3int);
    lemma_pow_step(3int, 413527int, 1nat, 3int, 1nat, 3nat, 27int);
    lemma_pow_step(3int, 413527int, 3nat, 27int, 0nat, 6nat, 729int);
    lemma_pow_step(3int, 413527int, 6nat, 729int, 0nat, 12nat, 117914int);
    lemma_pow_step(3int, 413527int, 12nat, 117914int, 1nat, 25nat, 319806int);
    lemma_pow_step(3int, 413527int, 25nat, 319806int, 0nat, 50nat, 312361int);
    lemma_pow_step(3int, 413527int, 50nat, 312361int, 0nat, 100nat, 179833int);
    lemma_pow_step(3int, 413527int, 100nat, 179833int, 1nat, 201nat, 86562int);
    lemma_pow_step(3int, 413527int, 201nat, 86562int, 1nat, 403nat, 25339int);
    lemma_pow_step(3int, 413527int, 403nat, 25339int, 1nat, 807nat, 399524int);
    lemma_pow_step(3int, 413527int, 807nat, 399524int, 1nat, 1615nat, 216633int);
    lemma_pow_step(3int, 413527int, 1615nat, 216633int, 0nat, 3230nat, 331567int);
    lemma_pow_step(3int, 413527int, 3230nat, 331567int, 1nat, 6461nat, 327036int);
    lemma_pow_step(3int, 413527int, 6461nat, 327036int, 0nat, 12922nat, 403178int);
    lemma_pow_step(3int, 413527int, 12922nat, 403178int, 1nat, 25845nat, 408451int);
    lemma_pow_step(3int, 413527int, 25845nat, 408451int, 0nat, 51690nat, 127102int);
    lemma_pow_step(3int, 413527int, 51690nat, 127102int, 1nat, 103381nat, 217866int);
    lemma_pow_step(3int, 413527int, 103381nat, 217866int, 1nat, 206763nat, 413526int);
}

/// `3^137842` modulo `413527`, by square-and-multiply.
proof fn lemma_pow_413527_by_3()
    ensures
        pow(3int, 137842nat) % 413527int == 120035int,
{
    lemma_pow_start(3int, 413527int, 3int);
    lemma_pow_step(3int, 413527int, 1nat, 3int, 0nat, 2nat, 9int);
    lemma_pow_step(3int, 413527int, 2nat, 9int, 0nat, 4nat, 81int);
    lemma_pow_step(3int, 413527int, 4nat, 81int, 0nat, 8nat, 6561int);
    lemma_pow_step(3int, 413527int, 8nat, 6561int, 0nat, 16nat, 39913int);
    lemma_pow_step(3int, 413527int, 16nat, 39913int, 1nat, 33nat, 11168int);
    lemma_pow_step(3int, 413527int, 33nat, 11168int, 1nat, 67nat, 344264int);
    lemma_pow_step(3int, 413527int, 67nat, 344264int, 0nat, 134nat, 36442int);
    lemma_pow_step(3int, 413527int, 134nat, 36442int, 1nat, 269nat, 138974int);
    lemma_pow_step(3int, 413527int, 269nat, 138974int, 0nat, 538nat, 407668int);
    lemma_pow_step(3int, 413527int, 538nat, 407668int, 0nat, 1076nat, 5140int);
    lemma_pow_step(3int, 413527int, 1076nat, 5140int, 1nat, 2153nat, 275143int);
    lemma_pow_step(3int, 413527int, 2153nat, 275143int, 1nat, 4307nat, 328839int);
    lemma_pow_step(3int, 413527int, 4307nat, 328839int, 1nat, 8615nat, 362222int);
    lemma_pow_step(3int, 413527int, 8615nat, 362222int, 0nat, 17230nat, 103670int);
    lemma_pow_step(3int, 413527int, 17230nat, 103670int, 0nat, 34460nat, 315697int);
    lemma_pow_step(3int, 413527int, 34460nat, 315697int, 1nat, 68921nat, 120036int);
    lemma_pow_step(3int, 413527int, 68921nat, 120036int, 0nat, 137842nat, 120035int);
}

/// `3^10086` modulo `413527`, by square-and-multiply.
proof fn lemma_pow_413527_by_41()
    ensures
        pow(3int, 10086nat) % 413527int == 362589int,
{
    lemma_pow_start(3int, 413527int, 3int);
    lemma_pow_step(3int, 413527int, 1nat, 3int, 0nat, 2nat, 9int);
    lemma_pow_step(3int, 413527int, 2nat, 9int, 0nat, 4nat, 81int);
    lemma_pow_step(3int, 413527int, 4nat, 81int, 1nat, 9nat, 19683int);
    lemma_pow_step(3int, 413527int, 9nat, 19683int, 1nat, 19nat, 250597int);
    lemma_pow_step(3int, 413527int, 19nat, 250597int, 1nat, 39nat, 284459int);
    lemma_pow_step(3int, 413527int, 39nat, 284459int, 0nat, 78nat, 26956int);
    lemma_pow_step(3int, 413527int, 78nat, 26956int, 1nat, 157nat, 176991int);
    lemma_pow_step(3int, 413527int, 157nat, 176991int, 1nat, 315nat, 123277int);
    lemma_pow_step(3int, 413527int, 315nat, 123277int, 0nat, 630nat, 101479int);
    lemma_pow_step(3int, 413527int, 630nat, 101479int, 0nat, 1260nat, 338087int);
    lemma_pow_step(3int, 413527int, 1260nat, 338087int, 1nat, 2521nat, 291551int);
    lemma_pow_step(3int, 413527int, 2521nat, 291551int, 1nat, 5043nat, 396983int);
    lemma_pow_step(3int, 413527int, 5043nat, 396983int, 0nat, 10086nat, 362589int);
}

/// 413527 is prime: a Lucas certificate with witness 3.
pub proof fn lemma_prime_413527()
    ensures
        is_prime(413527int),
{
    lemma_prime_2();
    lemma_prime_3();
    lemma_prime_41();
    lemma_pow_413527_full();
    lemma_pow_413527_by_2();
    lemma_pow_413527_by_3();
    lemma_pow_413527_by_41();
    let c: Seq<(int, nat)> = seq![(2int, 1nat), (3int, 1nat), (41int, 3nat)];
    assert(c[0] == (2int, 1nat));
    assert(c[1] == (3int, 1nat));
    assert(c[2] == (41int, 3nat));
    assert(cert_product(c.skip(3)) == 1) by {
        assert(c.skip(3) =~= Seq::<(int, nat)>::empty());
    }
    assert(cert_product(c.skip(2)) == 68921int) by {
        assert(c.skip(2).drop_first() =~= c.skip(3));
        assert(c.skip(2)[0] == (41int, 3nat));
        assert(pow(41int, 3nat) == 68921int) by {
            reveal_with_fuel(pow, 4);
        }
    }
    assert(cert_product(c.skip(1)) == 206763int) by {
        assert(c.skip(1).drop_first() =~= c.skip(2));
        assert(c.skip(1)[0] == (3int, 1nat));
        assert(pow(3int, 1nat) == 3int) by {
            reveal_with_fuel(pow, 2);
        }
    }
    assert(cert_product(c.skip(0)) == 413526int) by {
        assert(c.skip(0).drop_first() =~= c.skip(1));
        assert(c.skip(0)[0] == (2int, 1nat));
        assert(pow(2int, 1nat) == 2int) by {
            reveal_with_fuel(pow, 2);
        }
    }
    assert(c.skip(0) =~= c);
    assert forall|i: int| 0 <= i < c.len() implies is_prime(#[trigger] c[i].0) && c[i].1 >= 1 by {
        if i == 0 {
            assert(c[0].0 == 2int);
        }
        if i == 1 {
            assert(c[1].0 == 3int);
        }
        if i == 2 {
            assert(c[2].0 == 41int);
        }
    }
    assert forall|i: int| 0 <= i < c.len() implies #[trigger] (pow(3int, ((413527int - 1) / c[i].0) as nat) % 413527int) != 1 by {
        if i == 0 {
            assert(c[0].0 == 2int);
            assert((413527int - 1) / 2int == 206763int);
        }
        if i == 1 {
            assert(c[1].0 == 3int);
            assert((413527int - 1) / 3int == 137842int);
        }
        if i == 2 {
            assert(c[2].0 == 41int);
            assert((413527int - 1) / 41int == 10086int);
        }
    }
    lemma_lucas(413527int, 3int, c);
}

/// `6^772230` modulo `772231`, by square-and-multiply.
proof fn lemma_pow_772231_full()
    ensures
        pow(6int, 772230nat) % 772231int == 1int,
{
    lemma_pow_start(6int, 772231int, 6int);
    lemma_pow_step(6int, 772231int, 1nat, 6int, 0nat, 2nat, 36int);
    lemma_pow_step(6int, 772231int, 2nat, 36int, 1nat, 5nat, 7776int);
    lemma_pow_step(6int, 772231int, 5nat, 7776int, 1nat, 11nat, 620717int);
    lemma_pow_step(6int, 772231int, 11nat, 620717int, 1nat, 23nat, 743092int);
    lemma_pow_step(6int, 772231int, 23nat, 743092int, 1nat, 47nat, 80019int);
    lemma_pow_step(6int, 772231int, 47nat, 80019int, 0nat, 94nat, 473140int);
    lemma_pow_step(6int, 772231int, 94nat, 473140int, 0nat, 188nat, 187241int);
    lemma_pow_step(6int, 772231int, 188nat, 187241int, 1nat, 377nat, 200317int);
    lemma_pow_step(6int, 772231int, 377nat, 200317int, 0nat, 754nat, 233267int);
    lemma_pow_step(6int, 772231int, 754nat, 233267int, 0nat, 1508nat, 552567int);
    lemma_pow_step(6int, 772231int, 1508nat, 552567int, 0nat, 3016nat, 191092int);
    lemma_pow_step(6int, 772231int, 3016nat, 191092int, 1nat, 6033nat, 307695int);
    lemma_pow_step(6int, 772231int, 6033nat, 307695int, 0nat, 12066nat, 692425int);
    lemma_pow_step(6int, 772231int, 12066nat, 692425int, 0nat, 24132nat, 408579int);
    lemma_pow_step(6int, 772231int, 24132nat, 408579int, 0nat, 48264nat, 535047int);
    lemma_pow_step(6int, 772231int, 48264nat, 535047int, 0nat, 96528nat, 765968int);
    lemma_pow_step(6int, 772231int, 96528nat, 765968int, 1nat, 193057nat, 592790int);
    lemma_pow_step(6int, 772231int, 193057nat, 592790int, 1nat, 386115nat, 772230int);
    lemma_pow_step(6int, 772231int, 386115nat, 772230int, 0nat, 772230nat, 1int);
}

/// `6^386115` modulo `772231`, by square-and-multiply.
proof fn lemma_pow_772231_by_2()
    ensures
        pow(6int, 386115nat) % 772231int == 772230int,
{
    lemma_pow_start(6int, 772231int, 6int);
    lemma_pow_step(6int, 772231int, 1nat, 6int, 0nat, 2nat, 36int);
    lemma_pow_step(6int, 772231int, 2nat, 36int, 1nat, 5nat, 7776int);
    lemma_pow_step(6int, 772231int, 5nat, 7776int, 1nat, 11nat, 620717int);
    lemma_pow_step(6int, 772231int, 11nat, 620717int, 1nat, 23nat, 743092int);
    lemma_pow_step(6int, 772231int, 23nat, 743092int, 1nat, 47nat, 80019int);
    lemma_pow_step(6int, 772231int, 47nat, 80019int, 0nat, 94nat, 473140int);
    lemma_pow_step(6int, 772231int, 94nat, 473140int, 0nat, 188nat, 187241int);
    lemma_pow_step(6int, 772231int, 188nat, 187241int, 1nat, 377nat, 200317int);
    lemma_pow_step(6int, 772231int, 377nat, 200317int, 0nat, 754nat, 233267int);
    lemma_pow_step(6int, 772231int, 754nat, 233267int, 0nat, 1508nat, 552567int);
    lemma_pow_step(6int, 772231int, 1508nat, 552567int, 0nat, 3016nat, 191092int);
    lemma_pow_step(6int, 772231int, 3016nat, 191092int, 1nat, 6033nat, 307695int);
    lemma_pow_step(6int, 772231int, 6033nat, 307695int, 0nat, 12066nat, 692425int);
    lemma_pow_step(6int, 772231int, 12066nat, 692425int, 0nat, 24132nat, 408579int);
    lemma_pow_step(6int, 772231int, 24132nat, 408579int, 0nat, 48264nat, 535047int);
    lemma_pow_step(6int, 772231int, 48264nat, 535047int, 0nat, 96528nat, 765968int);
    lemma_pow_step(6int, 772231int, 96528nat, 765968int, 1nat, 193057nat, 592790int);
    lemma_pow_step(6int, 772231int, 193057nat, 592790int, 1nat, 386115nat, 772230int);
}

/// `6^257410` modulo `772231`, by square-and-multiply.
proof fn lemma_pow_772231_by_3()
    ensures
        pow(6int, 257410nat) % 772231int == 339746int,
{
    lemma_pow_start(6int, 772231int, 6int);
    lemma_pow_step(6int, 772231int, 1nat, 6int, 1nat, 3nat, 216int);
    lemma_pow_step(6int, 772231int, 3nat, 216int, 1nat, 7nat, 279936int);
    lemma_pow_step(6int, 772231int, 7nat, 279936int, 1nat, 15nat, 556761int);
    lemma_pow_step(6int, 772231int, 15nat, 556761int, 1nat, 31nat, 125694int);
    lemma_pow_step(6int, 772231int, 31nat, 125694int, 0nat, 62nat, 679838int);
    lemma_pow_step(6int, 772231int, 62nat, 679838int, 1nat, 125nat, 577619int);
    lemma_pow_step(6int, 772231int, 125nat, 577619int, 1nat, 251nat, 111356int);
    lemma_pow_step(6int, 772231int, 251nat, 111356int, 0nat, 502nat, 445569int);
    lemma_pow_step(6int, 772231int, 502nat, 445569int, 1nat, 1005nat, 145905int);
    lemma_pow_step(6int, 772231int, 1005nat, 145905int, 1nat, 2011nat, 290057int);
    lemma_pow_step(6int, 772231int, 2011nat, 290057int, 0nat, 4022nat, 40261int);
    lemma_pow_step(6int, 772231int, 4022nat, 40261int, 0nat, 8044nat, 35252int);
    lemma_pow_step(6int, 772231int, 8044nat, 35252int, 0nat, 16088nat, 183825int);
    lemma_pow_step(6int, 772231int, 16088nat, 183825int, 0nat, 32176nat, 346527int);
    lemma_pow_step(6int, 772231int, 32176nat, 346527int, 0nat, 64352nat, 585691int);
    lemma_pow_step(6int, 772231int, 64352nat, 585691int, 1nat, 128705nat, 339747int);
    lemma_pow_step(6int, 772231int, 128705nat, 339747int, 0nat, 257410nat, 339746int);
}

/// `6^154446` modulo `772231`, by square-and-multiply.
proof fn lemma_pow_772231_by_5()
    ensures
        pow(6int, 154446nat) % 772231int == 516799int,
{
    lemma_pow_start(6int, 772231int, 6int);
    lemma_pow_step(6int, 772231int, 1nat, 6int, 0nat, 2nat, 36int);
    lemma_pow_step(6int, 772231int, 2nat, 36int, 0nat, 4nat, 1296int);
    lemma_pow_step(6int, 772231int, 4nat, 1296int, 1nat, 9nat, 38693int);
    lemma_pow_step(6int, 772231int, 9nat, 38693int, 0nat, 18nat, 564571int);
    lemma_pow_step(6int, 772231int, 18nat, 564571int, 1nat, 37nat, 57050int);
    lemma_pow_step(6int, 772231int, 37nat, 57050int, 1nat, 75nat, 37472int);
    lemma_pow_step(6int, 772231int, 75nat, 37472int, 0nat, 150nat, 234826int);
    lemma_pow_step(6int, 772231int, 150nat, 234826int, 1nat, 301nat, 218630int);
    lemma_pow_step(6int, 772231int, 301nat, 218630int, 1nat, 603nat, 223696int);
    lemma_pow_step(6int, 772231int, 603nat, 223696int, 0nat, 1206nat, 103847int);
    lemma_pow_step(6int, 772231int, 1206nat, 103847int, 1nat, 2413nat, 733195int);
    lemma_pow_step(6int, 772231int, 2413nat, 733195int, 0nat, 4826nat, 197533int);
    lemma_pow_step(6int, 772231int, 4826nat, 197533int, 0nat, 9652nat, 770352int);
    lemma_pow_step(6int, 772231int, 9652nat, 770352int, 1nat, 19305nat, 333609int);
    lemma_pow_step(6int, 772231int, 19305nat, 333609int, 1nat, 38611nat, 21118int);
    lemma_pow_step(6int, 772231int, 38611nat, 21118int, 1nat, 77223nat, 39129int);
    lemma_pow_step(6int, 772231int, 77223nat, 39129int, 0nat, 154446nat, 516799int);
}

/// `6^30` modulo `772231`, by square-and-multiply.
proof fn lemma_pow_772231_by_25741()
    ensures
        pow(6int, 30nat) % 772231int == 20949int,
{
    lemma_pow_start(6int, 772231int, 6int);
    lemma_pow_step(6int, 772231int, 1nat, 6int, 1nat, 3nat, 216int);
    lemma_pow_step(6int, 772231int, 3nat, 216int, 1nat, 7nat, 279936int);
    lemma_pow_step(6int, 772231int, 7nat, 279936int, 1nat, 15nat, 556761int);
    lemma_pow_step(6int, 772231int, 15nat, 556761int, 0nat, 30nat, 20949int);
}

/// 772231 is prime: a Lucas certificate with witness 6.
pub proof fn lemma_prime_772231()
    ensures
        is_prime(772231int),
{
    lemma_prime_2();
    lemma_prime_3();
    lemma_prime_5();
    lemma_prime_25741();
    lemma_pow_772231_full();
    lemma_pow_772231_by_2();
    lemma_pow_772231_by_3();
    lemma_pow_772231_by_5();
    lemma_pow_772231_by_25741();
    let c: Seq<(int, nat)> = seq![(2int, 1nat), (3int, 1nat), (5int, 1nat), (25741int, 1nat)];
    assert(c[0] == (2int, 1nat));
    assert(c[1] == (3int, 1nat));
    assert(c[2] == (5int, 1nat));
    assert(c[3] == (25741int, 1nat));
    assert(cert_product(c.skip(4)) == 1) by {
        assert(c.skip(4) =~= Seq::<(int, nat)>::empty());
    }
    assert(cert_product(c.skip(3)) == 25741int) by {
        assert(c.skip(3).drop_first() =~= c.skip(4));
        assert(c.skip(3)[0] == (25741int, 1nat));
        assert(pow(25741int, 1nat) == 25741int) by {
            reveal_with_fuel(pow, 2);
        }
    }
    assert(cert_product(c.skip(2)) == 128705int) by {
        assert(c.skip(2).drop_first() =~= c.skip(3));
        assert(c.skip(2)[0] == (5int, 1nat));
        assert(pow(5int, 1nat) == 5int) by {
            reveal_with_fuel(pow, 2);
        }
    }
    assert(cert_product(c.skip(1)) == 386115int) by {
        assert(c.skip(1).drop_first() =~= c.skip(2));
        assert(c.skip(1)[0] == (3int, 1nat));
        assert(pow(3int, 1nat) == 3int) by {
            reveal_with_fuel(pow, 2);
        }
    }
    assert(cert_product(c.skip(0)) == 772230int) by {
        assert(c.skip(0).drop_first() =~= c.skip(1));
        assert(c.skip(0)[0] == (2int, 1nat));
        assert(pow(2int, 1nat) == 2int) by {
            reveal_with_fuel(pow, 2);
        }
    }
    assert(c.skip(0) =~= c);
    assert forall|i: int| 0 <= i < c.len() implies is_prime(#[trigger] c[i].0) && c[i].1 >= 1 by {
        if i == 0 {
            assert(c[0].0 == 2int);
        }
        if i == 1 {
            assert(c[1].0 == 3int);
        }
        if i == 2 {
            assert(c[2].0 == 5int);
        }
        if i == 3 {
            assert(c[3].0 == 25741int);
        }
    }
    assert forall|i: int| 0 <= i < c.len() implies #[trigger] (pow(6int, ((772231int - 1) / c[i].0) as nat) % 772231int) != 1 by {
        if i == 0 {
            assert(c[0].0 == 2int);
            assert((772231int - 1) / 2int == 386115int);
        }
        if i == 1 {
            assert(c[1].0 == 3int);
            assert((772231int - 1) / 3int == 257410int);
        }
        if i == 2 {
            assert(c[2].0 == 5int);
            assert((772231int - 1) / 5int == 154446int);
        }
        if i == 3 {
            assert(c[3].0 == 25741int);
            assert((772231int - 1) / 25741int == 30int);
        }
    }
    lemma_lucas(772231int, 6int, c);
}

/// `2^897018` modulo `897019`, by square-and-multiply.
proof fn lemma_pow_897019_full()
    ensures
        pow(2int, 897018nat) % 897019int == 1int,
{
    lemma_pow_start(2int, 897019int, 2int);
    lemma_pow_step(2int, 897019int, 1nat, 2int, 1nat, 3nat, 8int);
    lemma_pow_step(2int, 897019int, 3nat, 8int, 0nat, 6nat, 64int);
    lemma_pow_step(2int, 897019int, 6nat, 64int, 1nat, 13nat, 8192int);
    lemma_pow_step(2int, 897019int, 13nat, 8192int, 1nat, 27nat, 561897int);
    lemma_pow_step(2int, 897019int, 27nat, 561897int, 0nat, 54nat, 873103int);
    lemma_pow_step(2int, 897019int, 54nat, 873103int, 1nat, 109nat, 250887int);
    lemma_pow_step(2int, 897019int, 109nat, 250887int, 0nat, 218nat, 463539int);
    lemma_pow_step(2int, 897019int, 218nat, 463539int, 1nat, 437nat, 122674int);
    lemma_pow_step(2int, 897019int, 437nat, 122674int, 1nat, 875nat, 142045int);
    lemma_pow_step(2int, 897019int, 875nat, 142045int, 1nat, 1751nat, 267316int);
    lemma_pow_step(2int, 897019int, 1751nat, 267316int, 1nat, 3503nat, 826594int);
    lemma_pow_step(2int, 897019int, 3503nat, 826594int, 1nat, 7007nat, 125148int);
    lemma_pow_step(2int, 897019int, 7007nat, 125148int, 1nat, 14015nat, 140328int);
    lemma_pow_step(2int, 897019int, 14015nat, 140328int, 1nat, 28031nat, 275973int);
    lemma_pow_step(2int, 897019int, 28031nat, 275973int, 1nat, 56063nat, 294087int);
    lemma_pow_step(2int, 897019int, 56063nat, 294087int, 1nat, 112127nat, 359330int);
    lemma_pow_step(2int, 897019int, 112127nat, 359330int, 0nat, 224254nat, 237021int);
    lemma_pow_step(2int, 897019int, 224254nat, 237021int, 1nat, 448509nat, 897018int);
    lemma_pow_step(2int, 897019int, 448509nat, 897018int, 0nat, 897018nat, 1int);
}

/// `2^448509` modulo `897019`, by square-and-multiply.
proof fn lemma_pow_897019_by_2()
    ensures
        pow(2int, 448509nat) % 897019int == 897018int,
{
    lemma_pow_start(2int, 897019int, 2int);
    lemma_pow_step(2int, 897019int, 1nat, 2int, 1nat, 3nat, 8int);
    lemma_pow_step(2int, 897019int, 3nat, 8int, 0nat, 6nat, 64int);
    lemma_pow_step(2int, 897019int, 6nat, 64int, 1nat, 13nat, 8192int);
    lemma_pow_step(2int, 897019int, 13nat, 8192int, 1nat, 27nat, 561897int);
    lemma_pow_step(2int, 897019int, 27nat, 561897int, 0nat, 54nat, 873103int);
    lemma_pow_step(2int, 897019int, 54nat, 873103int, 1nat, 109nat, 250887int);
    lemma_pow_step(2int, 897019int, 109nat, 250887int, 0nat, 218nat, 463539int);
    lemma_pow_step(2int, 897019int, 218nat, 463539int, 1nat, 437nat, 122674int);
    lemma_pow_step(2int, 897019int, 437nat, 122674int, 1nat, 875nat, 142045int);
    lemma_pow_step(2int, 897019int, 875nat, 142045int, 1nat, 1751nat, 267316int);
    lemma_pow_step(2int, 897019int, 1751nat, 267316int, 1nat, 3503nat, 826594int);
    lemma_pow_step(2int, 897019int, 3503nat, 826594int, 1nat, 7007nat, 125148int);
    lemma_pow_step(2int, 897019int, 7007nat, 125148int, 1nat, 14015nat, 140328int);
    lemma_pow_step(2int, 897019int, 14015nat, 140328int, 1nat, 28031nat, 275973int);
    lemma_pow_step(2int, 897019int, 28031nat, 275973int, 1nat, 56063nat, 294087int);
    lemma_pow_step(2int, 897019int, 56063nat, 294087int, 1nat, 112127nat, 359330int);
    lemma_pow_step(2int, 897019int, 112127nat, 359330int, 0nat, 224254nat, 237021int);
    lemma_pow_step(2int, 897019int, 224254nat, 237021int, 1nat, 448509nat, 897018int);
}

/// `2^299006` modulo `897019`, by square-and-multiply.
proof fn lemma_pow_897019_by_3()
    ensures
        pow(2int, 299006nat) % 897019int == 125837int,
{
    lemma_pow_start(2int, 897019int, 2int);
    lemma_pow_step(2int, 897019int, 1nat, 2int, 0nat, 2nat, 4int);
    lemma_pow_step(2int, 897019int, 2nat, 4int, 0nat, 4nat, 16int);
    lemma_pow_step(2int, 897019int, 4nat, 16int, 1nat, 9nat, 512int);
    lemma_pow_step(2int, 897019int, 9nat, 512int, 0nat, 18nat, 262144int);
    lemma_pow_step(2int, 897019int, 18nat, 262144int, 0nat, 36nat, 645184int);
    lemma_pow_step(2int, 897019int, 36nat, 645184int, 0nat, 72nat, 726906int);
    lemma_pow_step(2int, 897019int, 72nat, 726906int, 1nat, 145nat, 302639int);
    lemma_pow_step(2int, 897019int, 145nat, 302639int, 1nat, 291nat, 478652int);
    lemma_pow_step(2int, 897019int, 291nat, 478652int, 1nat, 583nat, 228628int);
    lemma_pow_step(2int, 897019int, 583nat, 228628int, 1nat, 1167nat, 239451int);
    lemma_pow_step(2int, 897019int, 1167nat, 239451int, 1nat, 2335nat, 447880int);
    lemma_pow_step(2int, 897019int, 2335nat, 447880int, 1nat, 4671nat, 344031int);
    lemma_pow_step(2int, 897019int, 4671nat, 344031int, 1nat, 9343nat, 314012int);
    lemma_pow_step(2int, 897019int, 9343nat, 314012int, 1nat, 18687nat, 136195int);
    lemma_pow_step(2int, 897019int, 18687nat, 136195int, 1nat, 37375nat, 141267int);
    lemma_pow_step(2int, 897019int, 37375nat, 141267int, 1nat, 74751nat, 767192int);
    lemma_pow_step(2int, 897019int, 74751nat, 767192int, 1nat, 149503nat, 125838int);
    lemma_pow_step(2int, 897019int, 149503nat, 125838int, 0nat, 299006nat, 125837int);
}

/// `2^6` modulo `897019`, by square-and-multiply.
proof fn lemma_pow_897019_by_149503()
    ensures
        pow(2int, 6nat) % 897019int == 64int,
{
    lemma_pow_start(2int, 897019int, 2int);
    lemma_pow_step(2int, 897019int, 1nat, 2int, 1nat, 3nat, 8int);
    lemma_pow_step(2int, 897019int, 3nat, 8int, 0nat, 6nat, 64int);
}

/// 897019 is prime: a Lucas certificate with witness 2.
pub proof fn lemma_prime_897019()
    ensures
        is_prime(897019int),
{
    lemma_prime_2();
    lemma_prime_3();
    lemma_prime_149503();
    lemma_pow_897019_full();
    lemma_pow_897019_by_2();
    lemma_pow_897019_by_3();
    lemma_pow_897019_by_149503();
    let c: Seq<(int, nat)> = seq![(2int, 1nat), (3int, 1nat), (149503int, 1nat)];
    assert(c[0] == (2int, 1nat));
    assert(c[1] == (3int, 1nat));
    assert(c[2] == (149503int, 1nat));
    assert(cert_product(c.skip(3)) == 1) by {
        assert(c.skip(3) =~= Seq::<(int, nat)>::empty());
    }
    assert(cert_product(c.skip(2)) == 149503int) by {
        assert(c.skip(2).drop_first() =~= c.skip(3));
        assert(c.skip(2)[0] == (149503int, 1nat));
        assert(pow(149503int, 1nat) == 149503int) by {
            reveal_with_fuel(pow, 2);
        }
    }
    assert(cert_product(c.skip(1)) == 448509int) by {
        assert(c.skip(1).drop_first() =~= c.skip(2));
        assert(c.skip(1)[0] == (3int, 1nat));
        assert(pow(3int, 1nat) == 3int) by {
            reveal_with_fuel(pow, 2);
        }
    }
    assert(cert_product(c.skip(0)) == 897018int) by {
        assert(c.skip(0).drop_first() =~= c.skip(1));
        assert(c.skip(0)[0] == (2int, 1nat));
        assert(pow(2int, 1nat) == 2int) by {
            reveal_with_fuel(pow, 2);
        }
    }
    assert(c.skip(0) =~= c);
    assert forall|i: int| 0 <= i < c.len() implies is_prime(#[trigger] c[i].0) && c[i].1 >= 1 by {
        if i == 0 {
            assert(c[0].0 == 2int);
        }
        if i == 1 {
            assert(c[1].0 == 3int);
        }
        if i == 2 {
            assert(c[2].0 == 149503int);
        }
    }
    assert forall|i: int| 0 <= i < c.len() implies #[trigger] (pow(2int, ((897019int - 1) / c[i].0) as nat) % 897019int) != 1 by {
        if i == 0 {
            assert(c[0].0 == 2int);
            assert((897019int - 1) / 2int == 448509int);
        }
        if i == 1 {
            assert(c[1].0 == 3int);
            assert((897019int - 1) / 3int == 299006int);
        }
        if i == 2 {
            assert(c[2].0 == 149503int);
            assert((897019int - 1) / 149503int == 6int);
        }
    }
    lemma_lucas(897019int, 2int, c);
}

/// `3^1197906` modulo `1197907`, by square-and-multiply.
proof fn lemma_pow_1197907_full()
    ensures
        pow(3int, 1197906nat) % 1197907int == 1int,
{
    lemma_pow_start(3int, 1197907int, 3int);
    lemma_pow_step(3int, 1197907int, 1nat, 3int, 0nat, 2nat, 9int);
    lemma_pow_step(3int, 1197907int, 2nat, 9int, 0nat, 4nat, 81int);
    lemma_pow_step(3int, 1197907int, 4nat, 81int, 1nat, 9nat, 19683int);
    lemma_pow_step(3int, 1197907int, 9nat, 19683int, 0nat, 18nat, 496528int);
    lemma_pow_step(3int, 1197907int, 18nat, 496528int, 0nat, 36nat, 13021int);
    lemma_pow_step(3int, 1197907int, 36nat, 13021int, 1nat, 73nat, 726755int);
    lemma_pow_step(3int, 1197907int, 73nat, 726755int, 0nat, 146nat, 60934int);
    lemma_pow_step(3int, 1197907int, 146nat, 60934int, 0nat, 292nat, 638563int);
    lemma_pow_step(3int, 1197907int, 292nat, 638563int, 0nat, 584nat, 1151704int);
    lemma_pow_step(3int, 1197907int, 584nat, 1151704int, 1nat, 1169nat, 140805int);
    lemma_pow_step(3int, 1197907int, 1169nat, 140805int, 1nat, 2339nat, 863618int);
    lemma_pow_step(3int, 1197907int, 2339nat, 863618int, 1nat, 4679nat, 1153543int);
    lemma_pow_step(3int, 1197907int, 4679nat, 1153543int, 0nat, 9358nat, 3295int);
    lemma_pow_step(3int, 1197907int, 9358nat, 3295int, 1nat, 18717nat, 227586int);
    lemma_pow_step(3int, 1197907int, 18717nat, 227586int, 0nat, 37434nat, 284530int);
    lemma_pow_step(3int, 1197907int, 37434nat, 284530int, 1nat, 74869nat, 1110078int);
    lemma_pow_step(3int, 1197907int, 74869nat, 1110078int, 0nat, 149738nat, 610068int);
    lemma_pow_step(3int, 1197907int, 149738nat, 610068int, 0nat, 299476nat, 447166int);
    lemma_pow_step(3int, 1197907int, 299476nat, 447166int, 1nat, 598953nat, 1197906int);
    lemma_pow_step(3int, 1197907int, 598953nat, 1197906int, 0nat, 1197906nat, 1int);
}

/// `3^598953` modulo `1197907`, by square-and-multiply.
proof fn lemma_pow_1197907_by_2()
    ensures
        pow(3int, 598953nat) % 1197907int == 1197906int,
{
    lemma_pow_start(3int, 1197907int, 3int);
    lemma_pow_step(3int, 1197907int, 1nat, 3int, 0nat, 2nat, 9int);
    lemma_pow_step(3int, 1197907int, 2nat, 9int, 0nat, 4nat, 81int);
    lemma_pow_step(3int, 1197907int, 4nat, 81int, 1nat, 9nat, 19683int);
    lemma_pow_step(3int, 1197907int, 9nat, 19683int, 0nat, 18nat, 496528int);
    lemma_pow_step(3int, 1197907int, 18nat, 496528int, 0nat, 36nat, 13021int);
    lemma_pow_step(3int, 1197907int, 36nat, 13021int, 1nat, 73nat, 726755int);
    lemma_pow_step(3int, 1197907int, 73nat, 726755int, 0nat, 146nat, 60934int);
    lemma_pow_step(3int, 1197907int, 146nat, 60934int, 0nat, 292nat, 638563int);
    lemma_pow_step(3int, 1197907int, 292nat, 638563int, 0nat, 584nat, 1151704int);
    lemma_pow_step(3int, 1197907int, 584nat, 1151704int, 1nat, 1169nat, 140805int);
    lemma_pow_step(3int, 1197907int, 1169nat, 140805int, 1nat, 2339nat, 863618int);
    lemma_pow_step(3int, 1197907int, 2339nat, 863618int, 1nat, 4679nat, 1153543int);
    lemma_pow_step(3int, 1197907int, 4679nat, 1153543int, 0nat, 9358nat, 3295int);
    lemma_pow_step(3int, 1197907int, 9358nat, 3295int, 1nat, 18717nat, 227586int);
    lemma_pow_step(3int, 1197907int, 18717nat, 227586int, 0nat, 37434nat, 284530int);
    lemma_pow_step(3int, 1197907int, 37434nat, 284530int, 1nat, 74869nat, 1110078int);
    lemma_pow_step(3int, 1197907int, 74869nat, 1110078int, 0nat, 149738nat, 610068int);
    lemma_pow_step(3int, 1197907int, 149738nat, 610068int, 0nat, 299476nat, 447166int);
    lemma_pow_step(3int, 1197907int, 299476nat, 447166int, 1nat, 598953nat, 1197906int);
}

/// `3^399302` modulo `1197907`, by square-and-multiply.
proof fn lemma_pow_1197907_by_3()
    ensures
        pow(3int, 399302nat) % 1197907int == 71795int,
{
    lemma_pow_start(3int, 1197907int, 3int);
    lemma_pow_step(3int, 1197907int, 1nat, 3int, 1nat, 3nat, 27int);
    lemma_pow_step(3int, 1197907int, 3nat, 27int, 0nat, 6nat, 729int);
    lemma_pow_step(3int, 1197907int, 6nat, 729int, 0nat, 12nat, 531441int);
    lemma_pow_step(3int, 1197907int, 12nat, 531441int, 0nat, 24nat, 200998int);
    lemma_pow_step(3int, 1197907int, 24nat, 200998int, 0nat, 48nat, 782429int);
    lemma_pow_step(3int, 1197907int, 48nat, 782429int, 1nat, 97nat, 1126096int);
    lemma_pow_step(3int, 1197907int, 97nat, 1126096int, 0nat, 194nat, 1027993int);
    lemma_pow_step(3int, 1197907int, 194nat, 1027993int, 1nat, 389nat, 32367int);
    lemma_pow_step(3int, 1197907int, 389nat, 32367int, 1nat, 779nat, 758006int);
    lemma_pow_step(3int, 1197907int, 779nat, 758006int, 1nat, 1559nat, 593714int);
    lemma_pow_step(3int, 1197907int, 1559nat, 593714int, 1nat, 3119nat, 599928int);
    lemma_pow_step(3int, 1197907int, 3119nat, 599928int, 1nat, 6239nat, 153660int);
    lemma_pow_step(3int, 1197907int, 6239nat, 153660int, 0nat, 12478nat, 648630int);
    lemma_pow_step(3int, 1197907int, 12478nat, 648630int, 0nat, 24956nat, 365709int);
    lemma_pow_step(3int, 1197907int, 24956nat, 365709int, 0nat, 49912nat, 349852int);
    lemma_pow_step(3int, 1197907int, 49912nat, 349852int, 1nat, 99825nat, 822537int);
    lemma_pow_step(3int, 1197907int, 99825nat, 822537int, 1nat, 199651nat, 71796int);
    lemma_pow_step(3int, 1197907int, 199651nat, 71796int, 0nat, 399302nat, 71795int);
}

/// `3^22602` modulo `1197907`, by square-and-multiply.
proof fn lemma_pow_1197907_by_53()
    ensures
        pow(3int, 22602nat) % 1197907int == 596032int,
{
    lemma_pow_start(3int, 1197907int, 3int);
    lemma_pow_step(3int, 1197907int, 1nat, 3int, 0nat, 2nat, 9int);
    lemma_pow_step(3int, 1197907int, 2nat, 9int, 1nat, 5nat, 243int);
    lemma_pow_step(3int, 1197907int, 5nat, 243int, 1nat, 11nat, 177147int);
    lemma_pow_step(3int, 1197907int, 11nat, 177147int, 0nat, 22nat, 687837int);
    lemma_pow_step(3int, 1197907int, 22nat, 687837int, 0nat, 44nat, 379384int);
    lemma_pow_step(3int, 1197907int, 44nat, 379384int, 0nat, 88nat, 99685int);
    lemma_pow_step(3int, 1197907int, 88nat, 99685int, 0nat, 176nat, 460660int);
    lemma_pow_step(3int, 1197907int, 176nat, 460660int, 1nat, 353nat, 23278int);
    lemma_pow_step(3int, 1197907int, 353nat, 23278int, 0nat, 706nat, 411320int);
    lemma_pow_step(3int, 1197907int, 706nat, 411320int, 0nat, 1412nat, 143069int);
    lemma_pow_step(3int, 1197907int, 1412nat, 143069int, 1nat, 2825nat, 305556int);
    lemma_pow_step(3int, 1197907int, 2825nat, 305556int, 0nat, 5650nat, 795463int);
    lemma_pow_step(3int, 1197907int, 5650nat, 795463int, 1nat, 11301nat, 461138int);
    lemma_pow_step(3int, 1197907int, 11301nat, 461138int, 0nat, 22602nat, 596032int);
}

/// `3^318` modulo `1197907`, by square-and-multiply.
proof fn lemma_pow_1197907_by_3767()
    ensures
        pow(3int, 318nat) % 1197907int == 65324int,
{
    lemma_pow_start(3int, 1197907int, 3int);
    lemma_pow_step(3int, 1197907int, 1nat, 3int, 0nat, 2nat, 9int);
    lemma_pow_step(3int, 1197907int, 2nat, 9int, 0nat, 4nat, 81int);
    lemma_pow_step(3int, 1197907int, 4nat, 81int, 1nat, 9nat, 19683int);
    lemma_pow_step(3int, 1197907int, 9nat, 19683int, 1nat, 19nat, 291677int);
    lemma_pow_step(3int, 1197907int, 19nat, 291677int, 1nat, 39nat, 351567int);
    lemma_pow_step(3int, 1197907int, 39nat, 351567int, 1nat, 79nat, 329501int);
    lemma_pow_step(3int, 1197907int, 79nat, 329501int, 1nat, 159nat, 615796int);
    lemma_pow_step(3int, 1197907int, 159nat, 615796int, 0nat, 318nat, 65324int);
}

/// 1197907 is prime: a Lucas certificate with witness 3.
pub proof fn lemma_prime_1197907()
    ensures
        is_prime(1197907int),
{
    lemma_prime_2();
    lemma_prime_3();
    lemma_prime_53();
    lemma_prime_3767();
    lemma_pow_1197907_full();
    lemma_pow_1197907_by_2();
    lemma_pow_1197907_by_3();
    lemma_pow_1197907_by_53();
    lemma_pow_1197907_by_3767();
    let c: Seq<(int, nat)> = seq![(2int, 1nat), (3int, 1nat), (53int, 1nat), (3767int, 1nat)];
    assert(c[0] == (2int, 1nat));
    assert(c[1] == (3int, 1nat));
    assert(c[2] == (53int, 1nat));
    assert(c[3] == (3767int, 1nat));
    assert(cert_product(c.skip(4)) == 1) by {
        assert(c.skip(4) =~= Seq::<(int, nat)>::empty());
    }
    assert(cert_product(c.skip(3)) == 3767int) by {
        assert(c.skip(3).drop_first() =~= c.skip(4));
        assert(c.skip(3)[0] == (3767int, 1nat));
        assert(pow(3767int, 1nat) == 3767int) by {
            reveal_with_fuel(pow, 2);
        }
    }
    assert(cert_product(c.skip(2)) == 199651int) by {
        assert(c.skip(2).drop_first() =~= c.skip(3));
        assert(c.skip(2)[0] == (53int, 1nat));
        assert(pow(53int, 1nat) == 53int) by {
            reveal_with_fuel(pow, 2);
        }
    }
    assert(cert_product(c.skip(1)) == 598953int) by {
        assert(c.skip(1).drop_first() =~= c.skip(2));
        assert(c.skip(1)[0] == (3int, 1nat));
        assert(pow(3int, 1nat) == 3int) by {
            reveal_with_fuel(pow, 2);
        }
    }
    assert(cert_product(c.skip(0)) == 1197906int) by {
        assert(c.skip(0).drop_first() =~= c.skip(1));
        assert(c.skip(0)[0] == (2int, 1nat));
        assert(pow(2int, 1nat) == 2int) by {
            reveal_with_fuel(pow, 2);
        }
    }
    assert(c.skip(0) =~= c);
    assert forall|i: int| 0 <= i < c.len() implies is_prime(#[trigger] c[i].0) && c[i].1 >= 1 by {
        if i == 0 {
            assert(c[0].0 == 2int);
        }
        if i == 1 {
            assert(c[1].0 == 3int);
        }
        if i == 2 {
            assert(c[2].0 == 53int);
        }
        if i == 3 {
            assert(c[3].0 == 3767int);
        }
    }
    assert forall|i: int| 0 <= i < c.len() implies #[trigger] (pow(3int, ((1197907int - 1) / c[i].0) as nat) % 1197907int) != 1 by {
        if i == 0 {
            assert(c[0].0 == 2int);
            assert((1197907int - 1) / 2int == 598953int);
        }
        if i == 1 {
            assert(c[1].0 == 3int);
            assert((1197907int - 1) / 3int == 399302int);
        }
        if i == 2 {
            assert(c[2].0 == 53int);
            assert((1197907int - 1) / 53int == 22602int);
        }
        if i == 3 {
            assert(c[3].0 == 3767int);
            assert((1197907int - 1) / 3767int == 318int);
        }
    }
    lemma_lucas(1197907int, 3int, c);
}

/// `2^6942562` modulo `6942563`, by square-and-multiply.
proof fn lemma_pow_6942563_full()
    ensures
        pow(2int, 6942562nat) % 6942563int == 1int,
{
    lemma_pow_start(2int, 6942563int, 2int);
    lemma_pow_step(2int, 6942563int, 1nat, 2int, 1nat, 3nat, 8int);
    lemma_pow_step(2int, 6942563int, 3nat, 8int, 0nat, 6nat, 64int);
    lemma_pow_step(2int, 6942563int, 6nat, 64int, 1nat, 13nat, 8192int);
    lemma_pow_step(2int, 6942563int, 13nat, 8192int, 0nat, 26nat, 4625797int);
    lemma_pow_step(2int, 6942563int, 26nat, 4625797int, 0nat, 52nat, 5105011int);
    lemma_pow_step(2int, 6942563int, 52nat, 5105011int, 1nat, 105nat, 3996359int);
    lemma_pow_step(2int, 6942563int, 105nat, 3996359int, 1nat, 211nat, 3167019int);
    lemma_pow_step(2int, 6942563int, 211nat, 3167019int, 1nat, 423nat, 3596447int);
    lemma_pow_step(2int, 6942563int, 423nat, 3596447int, 1nat, 847nat, 4489243int);
    lemma_pow_step(2int, 6942563int, 847nat, 4489243int, 0nat, 1694nat, 397743int);
    lemma_pow_step(2int, 6942563int, 1694nat, 397743int, 1nat, 3389nat, 5564499int);
    lemma_pow_step(2int, 6942563int, 3389nat, 5564499int, 1nat, 6779nat, 4237841int);
    lemma_pow_step(2int, 6942563int, 6779nat, 4237841int, 1nat, 13559nat, 283285int);
    lemma_pow_step(2int, 6942563int, 13559nat, 283285int, 1nat, 27119nat, 2611016int);
    lemma_pow_step(2int, 6942563int, 27119nat, 2611016int, 0nat, 54238nat, 2078020int);
    lemma_pow_step(2int, 6942563int, 54238nat, 2078020int, 1nat, 108477nat, 1088253int);
    lemma_pow_step(2int, 6942563int, 108477nat, 1088253int, 1nat, 216955nat, 1907871int);
    lemma_pow_step(2int, 6942563int, 216955nat, 1907871int, 0nat, 433910nat, 6799430int);
    lemma_pow_step(2int, 6942563int, 433910nat, 6799430int, 0nat, 867820nat, 6494839int);
    lemma_pow_step(2int, 6942563int, 867820nat, 6494839int, 0nat, 1735640nat, 4158677int);
    lemma_pow_step(2int, 6942563int, 1735640nat, 4158677int, 1nat, 3471281nat, 6942562int);
    lemma_pow_step(2int, 6942563int, 3471281nat, 6942562int, 0nat, 6942562nat, 1int);
}

/// `2^3471281` modulo `6942563`, by square-and-multiply.
proof fn lemma_pow_6942563_by_2()
    ensures
        pow(2int, 3471281nat) % 6942563int == 6942562int,
{
    lemma_pow_start(2int, 6942563int, 2int);
    lemma_pow_step(2int, 6942563int, 1nat, 2int, 1nat, 3nat, 8int);
    lemma_pow_step(2int, 6942563int, 3nat, 8int, 0nat, 6nat, 64int);
    lemma_pow_step(2int, 6942563int, 6nat, 64int, 1nat, 13nat, 8192int);
    lemma_pow_step(2int, 6942563int, 13nat, 8192int, 0nat, 26nat, 4625797int);
    lemma_pow_step(2int, 6942563int, 26nat, 4625797int, 0nat, 52nat, 5105011int);
    lemma_pow_step(2int, 6942563int, 52nat, 5105011int, 1nat, 105nat, 3996359int);
    lemma_pow_step(2int, 6942563int, 105nat, 3996359int, 1nat, 211nat, 3167019int);
    lemma_pow_step(2int, 6942563int, 211nat, 3167019int, 1nat, 423nat, 3596447int);
    lemma_pow_step(2int, 6942563int, 423nat, 3596447int, 1nat, 847nat, 4489243int);
    lemma_pow_step(2int, 6942563int, 847nat, 4489243int, 0nat, 1694nat, 397743int);
    lemma_pow_step(2int, 6942563int, 1694nat, 397743int, 1nat, 3389nat, 5564499int);
    lemma_pow_step(2int, 6942563int, 3389nat, 5564499int, 1nat, 6779nat, 4237841int);
    lemma_pow_step(2int, 6942563int, 6779nat, 4237841int, 1nat, 13559nat, 283285int);
    lemma_pow_step(2int, 6942563int, 13559nat, 283285int, 1nat, 27119nat, 2611016int);
    lemma_pow_step(2int, 6942563int, 27119nat, 2611016int, 0nat, 54238nat, 2078020int);
    lemma_pow_step(2int, 6942563int, 54238nat, 2078020int, 1nat, 108477nat, 1088253int);
    lemma_pow_step(2int, 6942563int, 108477nat, 1088253int, 1nat, 216955nat, 1907871int);
    lemma_pow_step(2int, 6942563int, 216955nat, 1907871int, 0nat, 433910nat, 6799430int);
    lemma_pow_step(2int, 6942563int, 433910nat, 6799430int, 0nat, 867820nat, 6494839int);
    lemma_pow_step(2int, 6942563int, 867820nat, 6494839int, 0nat, 1735640nat, 4158677int);
    lemma_pow_step(2int, 6942563int, 1735640nat, 4158677int, 1nat, 3471281nat, 6942562int);
}

/// `2^631142` modulo `6942563`, by square-and-multiply.
proof fn lemma_pow_6942563_by_11()
    ensures
        pow(2int, 631142nat) % 6942563int == 1142703int,
{
    lemma_pow_start(2int, 6942563int, 2int);
    lemma_pow_step(2int, 6942563int, 1nat, 2int, 0nat, 2nat, 4int);
    lemma_pow_step(2int, 6942563int, 2nat, 4int, 0nat, 4nat, 16int);
    lemma_pow_step(2int, 6942563int, 4nat, 16int, 1nat, 9nat, 512int);
    lemma_pow_step(2int, 6942563int, 9nat, 512int, 1nat, 19nat, 524288int);
    lemma_pow_step(2int, 6942563int, 19nat, 524288int, 0nat, 38nat, 1010085int);
    lemma_pow_step(2int, 6942563int, 38nat, 1010085int, 1nat, 77nat, 6125179int);
    lemma_pow_step(2int, 6942563int, 77nat, 6125179int, 0nat, 154nat, 5995714int);
    lemma_pow_step(2int, 6942563int, 154nat, 5995714int, 0nat, 308nat, 2098359int);
    lemma_pow_step(2int, 6942563int, 308nat, 2098359int, 0nat, 616nat, 5129584int);
    lemma_pow_step(2int, 6942563int, 616nat, 5129584int, 0nat, 1232nat, 5827721int);
    lemma_pow_step(2int, 6942563int, 1232nat, 5827721int, 1nat, 2465nat, 2343156int);
    lemma_pow_step(2int, 6942563int, 2465nat, 2343156int, 0nat, 4930nat, 6828172int);
    lemma_pow_step(2int, 6942563int, 4930nat, 6828172int, 1nat, 9861nat, 4081815int);
    lemma_pow_step(2int, 6942563int, 9861nat, 4081815int, 1nat, 19723nat, 6423023int);
    lemma_pow_step(2int, 6942563int, 19723nat, 6423023int, 0nat, 39446nat, 1904723int);
    lemma_pow_step(2int, 6942563int, 39446nat, 1904723int, 0nat, 78892nat, 1502382int);
    lemma_pow_step(2int, 6942563int, 78892nat, 1502382int, 1nat, 157785nat, 5895543int);
    lemma_pow_step(2int, 6942563int, 157785nat, 5895543int, 1nat, 315571nat, 5652585int);
    lemma_pow_step(2int, 6942563int, 315571nat, 5652585int, 0nat, 631142nat, 1142703int);
}

/// `2^408386` modulo `6942563`, by square-and-multiply.
proof fn lemma_pow_6942563_by_17()
    ensures
        pow(2int, 408386nat) % 6942563int == 6280446int,
{
    lemma_pow_start(2int, 6942563int, 2int);
    lemma_pow_step(2int, 6942563int, 1nat, 2int, 1nat, 3nat, 8int);
    lemma_pow_step(2int, 6942563int, 3nat, 8int, 0nat, 6nat, 64int);
    lemma_pow_step(2int, 6942563int, 6nat, 64int, 0nat, 12nat, 4096int);
    lemma_pow_step(2int, 6942563int, 12nat, 4096int, 0nat, 24nat, 2892090int);
    lemma_pow_step(2int, 6942563int, 24nat, 2892090int, 1nat, 49nat, 6712869int);
    lemma_pow_step(2int, 6942563int, 49nat, 6712869int, 1nat, 99nat, 5594798int);
    lemma_pow_step(2int, 6942563int, 99nat, 5594798int, 1nat, 199nat, 1910995int);
    lemma_pow_step(2int, 6942563int, 199nat, 1910995int, 0nat, 398nat, 2671017int);
    lemma_pow_step(2int, 6942563int, 398nat, 2671017int, 1nat, 797nat, 2678206int);
    lemma_pow_step(2int, 6942563int, 797nat, 2678206int, 1nat, 1595nat, 4093586int);
    lemma_pow_step(2int, 6942563int, 1595nat, 4093586int, 0nat, 3190nat, 1519658int);
    lemma_pow_step(2int, 6942563int, 3190nat, 1519658int, 1nat, 6381nat, 331540int);
    lemma_pow_step(2int, 6942563int, 6381nat, 331540int, 0nat, 12762nat, 4114184int);
    lemma_pow_step(2int, 6942563int, 12762nat, 4114184int, 0nat, 25524nat, 6814505int);
    lemma_pow_step(2int, 6942563int, 25524nat, 6814505int, 0nat, 51048nat, 517558int);
    lemma_pow_step(2int, 6942563int, 51048nat, 517558int, 0nat, 102096nat, 1375135int);
    lemma_pow_step(2int, 6942563int, 102096nat, 1375135int, 1nat, 204193nat, 3571948int);
    lemma_pow_step(2int, 6942563int, 204193nat, 3571948int, 0nat, 408386nat, 6280446int);
}

/// `2^365398` modulo `6942563`, by square-and-multiply.
proof fn lemma_pow_6942563_by_19()
    ensures
        pow(2int, 365398nat) % 6942563int == 1534969int,
{
    lemma_pow_start(2int, 6942563int, 2int);
    lemma_pow_step(2int, 6942563int, 1nat, 2int, 0nat, 2nat, 4int);
    lemma_pow_step(2int, 6942563int, 2nat, 4int, 1nat, 5nat, 32int);
    lemma_pow_step(2int, 6942563int, 5nat, 32int, 1nat, 11nat, 2048int);
    lemma_pow_step(2int, 6942563int, 11nat, 2048int, 0nat, 22nat, 4194304int);
    lemma_pow_step(2int, 6942563int, 22nat, 4194304int, 0nat, 44nat, 2162373int);
    lemma_pow_step(2int, 6942563int, 44nat, 2162373int, 1nat, 89nat, 5253065int);
    lemma_pow_step(2int, 6942563int, 89nat, 5253065int, 0nat, 178nat, 3427369int);
    lemma_pow_step(2int, 6942563int, 178nat, 3427369int, 0nat, 356nat, 10783int);
    lemma_pow_step(2int, 6942563int, 356nat, 10783int, 1nat, 713nat, 3441599int);
    lemma_pow_step(2int, 6942563int, 713nat, 3441599int, 1nat, 1427nat, 2161892int);
    lemma_pow_step(2int, 6942563int, 1427nat, 2161892int, 0nat, 2854nat, 1952686int);
    lemma_pow_step(2int, 6942563int, 2854nat, 1952686int, 1nat, 5709nat, 4097724int);
    lemma_pow_step(2int, 6942563int, 5709nat, 4097724int, 0nat, 11418nat, 3567872int);
    lemma_pow_step(2int, 6942563int, 11418nat, 3567872int, 1nat, 22837nat, 1311318int);
    lemma_pow_step(2int, 6942563int, 22837nat, 1311318int, 0nat, 45674nat, 65595int);
    lemma_pow_step(2int, 6942563int, 45674nat, 65595int, 1nat, 91349nat, 3572493int);
    lemma_pow_step(2int, 6942563int, 91349nat, 3572493int, 1nat, 182699nat, 3503333int);
    lemma_pow_step(2int, 6942563int, 182699nat, 3503333int, 0nat, 365398nat, 1534969int);
}

/// `2^7106` modulo `6942563`, by square-and-multiply.
proof fn lemma_pow_6942563_by_977()
    ensures
        pow(2int, 7106nat) % 6942563int == 5061822int,
{
    lemma_pow_start(2int, 6942563int, 2int);
    lemma_pow_step(2int, 6942563int, 1nat, 2int, 1nat, 3nat, 8int);
    lemma_pow_step(2int, 6942563int, 3nat, 8int, 0nat, 6nat, 64int);
    lemma_pow_step(2int, 6942563int, 6nat, 64int, 1nat, 13nat, 8192int);
    lemma_pow_step(2int, 6942563int, 13nat, 8192int, 1nat, 27nat, 2309031int);
    lemma_pow_step(2int, 6942563int, 27nat, 2309031int, 1nat, 55nat, 6127273int);
    lemma_pow_step(2int, 6942563int, 55nat, 6127273int, 1nat, 111nat, 5834708int);
    lemma_pow_step(2int, 6942563int, 111nat, 5834708int, 0nat, 222nat, 1701070int);
    lemma_pow_step(2int, 6942563int, 222nat, 1701070int, 0nat, 444nat, 6656752int);
    lemma_pow_step(2int, 6942563int, 444nat, 6656752int, 0nat, 888nat, 1731463int);
    lemma_pow_step(2int, 6942563int, 888nat, 1731463int, 0nat, 1776nat, 5738020int);
    lemma_pow_step(2int, 6942563int, 1776nat, 5738020int, 1nat, 3553nat, 2137521int);
    lemma_pow_step(2int, 6942563int, 3553nat, 2137521int, 0nat, 7106nat, 5061822int);
}

/// 6942563 is prime: a Lucas certificate with witness 2.
pub proof fn lemma_prime_6942563()
    ensures
        is_prime(6942563int),
{
    lemma_prime_2();
    lemma_prime_11();
    lemma_prime_17();
    lemma_prime_19();
    lemma_prime_977();
    lemma_pow_6942563_full();
    lemma_pow_6942563_by_2();
    lemma_pow_6942563_by_11();
    lemma_pow_6942563_by_17();
    lemma_pow_6942563_by_19();
    lemma_pow_6942563_by_977();
    let c: Seq<(int, nat)> = seq![(2int, 1nat), (11int, 1nat), (17int, 1nat), (19int, 1nat), (977int, 1nat)];
    assert(c[0] == (2int, 1nat));
    assert(c[1] == (11int, 1nat));
    assert(c[2] == (17int, 1nat));
    assert(c[3] == (19int, 1nat));
    assert(c[4] == (977int, 1nat));
    assert(cert_product(c.skip(5)) == 1) by {
        assert(c.skip(5) =~= Seq::<(int, nat)>::empty());
    }
    assert(cert_product(c.skip(4)) == 977int) by {
        assert(c.skip(4).drop_first() =~= c.skip(5));
        assert(c.skip(4)[0] == (977int, 1nat));
        assert(pow(977int, 1nat) == 977int) by {
            reveal_with_fuel(pow, 2);
        }
    }
    assert(cert_product(c.skip(3)) == 18563int) by {
        assert(c.skip(3).drop_first() =~= c.skip(4));
        assert(c.skip(3)[0] == (19int, 1nat));
        assert(pow(19int, 1nat) == 19int) by {
            reveal_with_fuel(pow, 2);
        }
    }
    assert(cert_product(c.skip(2)) == 315571int) by {
        assert(c.skip(2).drop_first() =~= c.skip(3));
        assert(c.skip(2)[0] == (17int, 1nat));
        assert(pow(17int, 1nat) == 17int) by {
            reveal_with_fuel(pow, 2);
        }
    }
    assert(cert_product(c.skip(1)) == 3471281int) by {
        assert(c.skip(1).drop_first() =~= c.skip(2));
        assert(c.skip(1)[0] == (11int, 1nat));
        assert(pow(11int, 1nat) == 11int) by {
            reveal_with_fuel(pow, 2);
        }
    }
    assert(cert_product(c.skip(0)) == 6942562int) by {
        assert(c.skip(0).drop_first() =~= c.skip(1));
        assert(c.skip(0)[0] == (2int, 1nat));
        assert(pow(2int, 1nat) == 2int) by {
            reveal_with_fuel(pow, 2);
        }
    }
    assert(c.skip(0) =~= c);
    assert forall|i: int| 0 <= i < c.len() implies is_prime(#[trigger] c[i].0) && c[i].1 >= 1 by {
        if i == 0 {
            assert(c[0].0 == 2int);
        }
        if i == 1 {
            assert(c[1].0 == 11int);
        }
        if i == 2 {
            assert(c[2].0 == 17int);
        }
        if i == 3 {
            assert(c[3].0 == 19int);
        }
        if i == 4 {
            assert(c[4].0 == 977int);
        }
    }
    assert forall|i: int| 0 <= i < c.len() implies #[trigger] (pow(2int, ((6942563int - 1) / c[i].0) as nat) % 6942563int) != 1 by {
        if i == 0 {
            assert(c[0].0 == 2int);
            assert((6942563int - 1) / 2int == 3471281int);
        }
        if i == 1 {
            assert(c[1].0 == 11int);
            assert((6942563int - 1) / 11int == 631142int);
        }
        if i == 2 {
            assert(c[2].0 == 17int);
            assert((6942563int - 1) / 17int == 408386int);
        }
        if i == 3 {
            assert(c[3].0 == 19int);
            assert((6942563int - 1) / 19int == 365398int);
        }
        if i == 4 {
            assert(c[4].0 == 977int);
            assert((6942563int - 1) / 977int == 7106int);
        }
    }
    lemma_lucas(6942563int, 2int, c);
}

/// `2^41655378` modulo `41655379`, by square-and-multiply.
proof fn lemma_pow_41655379_full()
    ensures
        pow(2int, 41655378nat) % 41655379int == 1int,
{
    lemma_pow_start(2int, 41655379int, 2int);
    lemma_pow_step(2int, 41655379int, 1nat, 2int, 0nat, 2nat, 4int);
    lemma_pow_step(2int, 41655379int, 2nat, 4int, 0nat, 4nat, 16int);
    lemma_pow_step(2int, 41655379int, 4nat, 16int, 1nat, 9nat, 512int);
    lemma_pow_step(2int, 41655379int, 9nat, 512int, 1nat, 19nat, 524288int);
    lemma_pow_step(2int, 41655379int, 19nat, 524288int, 1nat, 39nat, 29777225int);
    lemma_pow_step(2int, 41655379int, 39nat, 29777225int, 1nat, 79nat, 7925833int);
    lemma_pow_step(2int, 41655379int, 79nat, 7925833int, 0nat, 158nat, 17889149int);
    lemma_pow_step(2int, 41655379int, 158nat, 17889149int, 1nat, 317nat, 32822223int);
    lemma_pow_step(2int, 41655379int, 317nat, 32822223int, 1nat, 635nat, 33997009int);
    lemma_pow_step(2int, 41655379int, 635nat, 33997009int, 1nat, 1271nat, 6437453int);
    lemma_pow_step(2int, 41655379int, 1271nat, 6437453int, 0nat, 2542nat, 30639817int);
    lemma_pow_step(2int, 41655379int, 2542nat, 30639817int, 0nat, 5084nat, 28939675int);
    lemma_pow_step(2int, 41655379int, 5084nat, 28939675int, 1nat, 10169nat, 9630633int);
    lemma_pow_step(2int, 41655379int, 10169nat, 9630633int, 1nat, 20339nat, 33102980int);
    lemma_pow_step(2int, 41655379int, 20339nat, 33102980int, 1nat, 40679nat, 31123042int);
    lemma_pow_step(2int, 41655379int, 40679nat, 31123042int, 0nat, 81358nat, 15567893int);
    lemma_pow_step(2int, 41655379int, 81358nat, 15567893int, 0nat, 162716nat, 8017028int);
    lemma_pow_step(2int, 41655379int, 162716nat, 8017028int, 0nat, 325432nat, 29404807int);
    lemma_pow_step(2int, 41655379int, 325432nat, 29404807int, 1nat, 650865nat, 30002872int);
    lemma_pow_step(2int, 41655379int, 650865nat, 30002872int, 0nat, 1301730nat, 4612174int);
    lemma_pow_step(2int, 41655379int, 1301730nat, 4612174int, 1nat, 2603461nat, 34880071int);
    lemma_pow_step(2int, 41655379int, 2603461nat, 34880071int, 0nat, 5206922nat, 29316937int);
    lemma_pow_step(2int, 41655379int, 5206922nat, 29316937int, 0nat, 10413844nat, 28808265int);
    lemma_pow_step(2int, 41655379int, 10413844nat, 28808265int, 1nat, 20827689nat, 41655378int);
    lemma_pow_step(2int, 41655379int, 20827689nat, 41655378int, 0nat, 41655378nat, 1int);
}

/// `2^20827689` modulo `41655379`, by square-and-multiply.
proof fn lemma_pow_41655379_by_2()
    ensures
        pow(2int, 20827689nat) % 41655379int == 41655378int,
{
    lemma_pow_start(2int, 41655379int, 2int);
    lemma_pow_step(2int, 41655379int, 1nat, 2int, 0nat, 2nat, 4int);
    lemma_pow_step(2int, 41655379int, 2nat, 4int, 0nat, 4nat, 16int);
    lemma_pow_step(2int, 41655379int, 4nat, 16int, 1nat, 9nat, 512int);
    lemma_pow_step(2int, 41655379int, 9nat, 512int, 1nat, 19nat, 524288int);
    lemma_pow_step(2int, 41655379int, 19nat, 524288int, 1nat, 39nat, 29777225int);
    lemma_pow_step(2int, 41655379int, 39nat, 29777225int, 1nat, 79nat, 7925833int);
    lemma_pow_step(2int, 41655379int, 79nat, 7925833int, 0nat, 158nat, 17889149int);
    lemma_pow_step(2int, 41655379int, 158nat, 17889149int, 1nat, 317nat, 32822223int);
    lemma_pow_step(2int, 41655379int, 317nat, 32822223int, 1nat, 635nat, 33997009int);
    lemma_pow_step(2int, 41655379int, 635nat, 33997009int, 1nat, 1271nat, 6437453int);
    lemma_pow_step(2int, 41655379int, 1271nat, 6437453int, 0nat, 2542nat, 30639817int);
    lemma_pow_step(2int, 41655379int, 2542nat, 30639817int, 0nat, 5084nat, 28939675int);
    lemma_pow_step(2int, 41655379int, 5084nat, 28939675int, 1nat, 10169nat, 9630633int);
    lemma_pow_step(2int, 41655379int, 10169nat, 9630633int, 1nat, 20339nat, 33102980int);
    lemma_pow_step(2int, 41655379int, 20339nat, 33102980int, 1nat, 40679nat, 31123042int);
    lemma_pow_step(2int, 41655379int, 40679nat, 31123042int, 0nat, 81358nat, 15567893int);
    lemma_pow_step(2int, 41655379int, 81358nat, 15567893int, 0nat, 162716nat, 8017028int);
    lemma_pow_step(2int, 41655379int, 162716nat, 8017028int, 0nat, 325432nat, 29404807int);
    lemma_pow_step(2int, 41655379int, 325432nat, 29404807int, 1nat, 650865nat, 30002872int);
    lemma_pow_step(2int, 41655379int, 650865nat, 30002872int, 0nat, 1301730nat, 4612174int);
    lemma_pow_step(2int, 41655379int, 1301730nat, 4612174int, 1nat, 2603461nat, 34880071int);
    lemma_pow_step(2int, 41655379int, 2603461nat, 34880071int, 0nat, 5206922nat, 29316937int);
    lemma_pow_step(2int, 41655379int, 5206922nat, 29316937int, 0nat, 10413844nat, 28808265int);
    lemma_pow_step(2int, 41655379int, 10413844nat, 28808265int, 1nat, 20827689nat, 41655378int);
}

/// `2^13885126` modulo `41655379`, by square-and-multiply.
proof fn lemma_pow_41655379_by_3()
    ensures
        pow(2int, 13885126nat) % 41655379int == 18196789int,
{
    lemma_pow_start(2int, 41655379int, 2int);
    lemma_pow_step(2int, 41655379int, 1nat, 2int, 1nat, 3nat, 8int);
    lemma_pow_step(2int, 41655379int, 3nat, 8int, 0nat, 6nat, 64int);
    lemma_pow_step(2int, 41655379int, 6nat, 64int, 1nat, 13nat, 8192int);
    lemma_pow_step(2int, 41655379int, 13nat, 8192int, 0nat, 26nat, 25453485int);
    lemma_pow_step(2int, 41655379int, 26nat, 25453485int, 0nat, 52nat, 1127776int);
    lemma_pow_step(2int, 41655379int, 52nat, 1127776int, 1nat, 105nat, 30038338int);
    lemma_pow_step(2int, 41655379int, 105nat, 30038338int, 1nat, 211nat, 6383108int);
    lemma_pow_step(2int, 41655379int, 211nat, 6383108int, 1nat, 423nat, 8587473int);
    lemma_pow_step(2int, 41655379int, 423nat, 8587473int, 1nat, 847nat, 18004642int);
    lemma_pow_step(2int, 41655379int, 847nat, 18004642int, 0nat, 1694nat, 17180063int);
    lemma_pow_step(2int, 41655379int, 1694nat, 17180063int, 1nat, 3389nat, 6471156int);
    lemma_pow_step(2int, 41655379int, 3389nat, 6471156int, 1nat, 6779nat, 39765957int);
    lemma_pow_step(2int, 41655379int, 6779nat, 39765957int, 1nat, 13559nat, 15716810int);
    lemma_pow_step(2int, 41655379int, 13559nat, 15716810int, 1nat, 27119nat, 22471122int);
    lemma_pow_step(2int, 41655379int, 27119nat, 22471122int, 0nat, 54238nat, 29332299int);
    lemma_pow_step(2int, 41655379int, 54238nat, 29332299int, 1nat, 108477nat, 26703233int);
    lemma_pow_step(2int, 41655379int, 108477nat, 26703233int, 1nat, 216955nat, 3043700int);
    lemma_pow_step(2int, 41655379int, 216955nat, 3043700int, 0nat, 433910nat, 36711158int);
    lemma_pow_step(2int, 41655379int, 433910nat, 36711158int, 0nat, 867820nat, 28752207int);
    lemma_pow_step(2int, 41655379int, 867820nat, 28752207int, 0nat, 1735640nat, 4856411int);
    lemma_pow_step(2int, 41655379int, 1735640nat, 4856411int, 1nat, 3471281nat, 29117475int);
    lemma_pow_step(2int, 41655379int, 3471281nat, 29117475int, 1nat, 6942563nat, 18196790int);
    lemma_pow_step(2int, 41655379int, 6942563nat, 18196790int, 0nat, 13885126nat, 18196789int);
}

/// `2^6` modulo `41655379`, by square-and-multiply.
proof fn lemma_pow_41655379_by_6942563()
    ensures
        pow(2int, 6nat) % 41655379int == 64int,
{
    lemma_pow_start(2int, 41655379int, 2int);
    lemma_pow_step(2int, 41655379int, 1nat, 2int, 1nat, 3nat, 8int);
    lemma_pow_step(2int, 41655379int, 3nat, 8int, 0nat, 6nat, 64int);
}

/// 41655379 is prime: a Lucas certificate with witness 2.
pub proof fn lemma_prime_41655379()
    ensures
        is_prime(41655379int),
{
    lemma_prime_2();
    lemma_prime_3();
    lemma_prime_6942563();
    lemma_pow_41655379_full();
    lemma_pow_41655379_by_2();
    lemma_pow_41655379_by_3();
    lemma_pow_41655379_by_6942563();
    let c: Seq<(int, nat)> = seq![(2int, 1nat), (3int, 1nat), (6942563int, 1nat)];
    assert(c[0] == (2int, 1nat));
    assert(c[1] == (3int, 1nat));
    assert(c[2] == (6942563int, 1nat));
    assert(cert_product(c.skip(3)) == 1) by {
        assert(c.skip(3) =~= Seq::<(int, nat)>::empty());
    }
    assert(cert_product(c.skip(2)) == 6942563int) by {
        assert(c.skip(2).drop_first() =~= c.skip(3));
        assert(c.skip(2)[0] == (6942563int, 1nat));
        assert(pow(6942563int, 1nat) == 6942563int) by {
            reveal_with_fuel(pow, 2);
        }
    }
    assert(cert_product(c.skip(1)) == 20827689int) by {
        assert(c.skip(1).drop_first() =~= c.skip(2));
        assert(c.skip(1)[0] == (3int, 1nat));
        assert(pow(3int, 1nat) == 3int) by {
            reveal_with_fuel(pow, 2);
        }
    }
    assert(cert_product(c.skip(0)) == 41655378int) by {
        assert(c.skip(0).drop_first() =~= c.skip(1));
        assert(c.skip(0)[0] == (2int, 1nat));
        assert(pow(2int, 1nat) == 2int) by {
            reveal_with_fuel(pow, 2);
        }
    }
    assert(c.skip(0) =~= c);
    assert forall|i: int| 0 <= i < c.len() implies is_prime(#[trigger] c[i].0) && c[i].1 >= 1 by {
        if i == 0 {
            assert(c[0].0 == 2int);
        }
        if i == 1 {
            assert(c[1].0 == 3int);
        }
        if i == 2 {
            assert(c[2].0 == 6942563int);
        }
    }
    assert forall|i: int| 0 <= i < c.len() implies #[trigger] (pow(2int, ((41655379int - 1) / c[i].0) as nat) % 41655379int) != 1 by {
        if i == 0 {
            assert(c[0].0 == 2int);
            assert((41655379int - 1) / 2int == 20827689int);
        }
        if i == 1 {
            assert(c[1].0 == 3int);
            assert((41655379int - 1) / 3int == 13885126int);
        }
        if i == 2 {
            assert(c[2].0 == 6942563int);
            assert((41655379int - 1) / 6942563int == 6int);
        }
    }
    lemma_lucas(41655379int, 2int, c);
}

/// `3^22160661628` modulo `22160661629`, by square-and-multiply.
proof fn lemma_pow_22160661629_full()
    ensures
        pow(3int, 22160661628nat) % 22160661629int == 1int,
{
    lemma_pow_start(3int, 22160661629int, 3int);
    lemma_pow_step(3int, 22160661629int, 1nat, 3int, 0nat, 2nat, 9int);
    lemma_pow_step(3int, 22160661629int, 2nat, 9int, 1nat, 5nat, 243int);
    lemma_pow_step(3int, 22160661629int, 5nat, 243int, 0nat, 10nat, 59049int);
    lemma_pow_step(3int, 22160661629int, 10nat, 59049int, 0nat, 20nat, 3486784401int);
    lemma_pow_step(3int, 22160661629int, 20nat, 3486784401int, 1nat, 41nat, 11239907861int);
    lemma_pow_step(3int, 22160661629int, 41nat, 11239907861int, 0nat, 82nat, 11951613855int);
    lemma_pow_step(3int, 22160661629int, 82nat, 11951613855int, 1nat, 165nat, 17693516386int);
    lemma_pow_step(3int, 22160661629int, 165nat, 17693516386int, 0nat, 330nat, 21777287499int);
    lemma_pow_step(3int, 22160661629int, 330nat, 21777287499int, 0nat, 660nat, 10644472780int);
    lemma_pow_step(3int, 22160661629int, 660nat, 10644472780int, 0nat, 1320nat, 15365420170int);
    lemma_pow_step(3int, 22160661629int, 1320nat, 15365420170int, 1nat, 2641nat, 14296114608int);
    lemma_pow_step(3int, 22160661629int, 2641nat, 14296114608int, 1nat, 5283nat, 5331026560int);
    lemma_pow_step(3int, 22160661629int, 5283nat, 5331026560int, 1nat, 10567nat, 6970792960int);
    lemma_pow_step(3int, 22160661629int, 10567nat, 6970792960int, 0nat, 21134nat, 3244366802int);
    lemma_pow_step(3int, 22160661629int, 21134nat, 3244366802int, 0nat, 42268nat, 10037488479int);
    lemma_pow_step(3int, 22160661629int, 42268nat, 10037488479int, 0nat, 84536nat, 21836489745int);
    lemma_pow_step(3int, 22160661629int, 84536nat, 21836489745int, 0nat, 169072nat, 1685077426int);
    lemma_pow_step(3int, 22160661629int, 169072nat, 1685077426int, 0nat, 338144nat, 2526189067int);
    lemma_pow_step(3int, 22160661629int, 338144nat, 2526189067int, 1nat, 676289nat, 8820304675int);
    lemma_pow_step(3int, 22160661629int, 676289nat, 8820304675int, 1nat, 1352579nat, 11872769512int);
    lemma_pow_step(3int, 22160661629int, 1352579nat, 11872769512int, 0nat, 2705158nat, 16281296846int);
    lemma_pow_step(3int, 22160661629int, 2705158nat, 16281296846int, 1nat, 5410317nat, 13633314843int);
    lemma_pow_step(3int, 22160661629int, 5410317nat, 13633314843int, 1nat, 10820635nat, 18003876924int);
    lemma_pow_step(3int, 22160661629int, 10820635nat, 18003876924int, 1nat, 21641271nat, 6045644410int);
    lemma_pow_step(3int, 22160661629int, 21641271nat, 6045644410int, 0nat, 43282542nat, 10535779429int);
    lemma_pow_step(3int, 22160661629int, 43282542nat, 10535779429int, 0nat, 86565084nat, 4841152661int);
    lemma_pow_step(3int, 22160661629int, 86565084nat, 4841152661int, 0nat, 173130168nat, 1965238047int);
    lemma_pow_step(3int, 22160661629int, 173130168nat, 1965238047int, 1nat, 346260337nat, 21901080000int);
    lemma_pow_step(3int, 22160661629int, 346260337nat, 21901080000int, 1nat, 692520675nat, 17334088356int);
    lemma_pow_step(3int, 22160661629int, 692520675nat, 17334088356int, 1nat, 1385041351nat, 5260091270int);
    lemma_pow_step(3int, 22160661629int, 1385041351nat, 5260091270int, 1nat, 2770082703nat, 4000799212int);
    lemma_pow_step(3int, 22160661629int, 2770082703nat, 4000799212int, 1nat, 5540165407nat, 1671138427int);
    lemma_pow_step(3int, 22160661629int, 5540165407nat, 1671138427int, 0nat, 11080330814nat, 22160661628int);
    lemma_pow_step(3int, 22160661629int, 11080330814nat, 22160661628int, 0nat, 22160661628nat, 1int);
}

/// `3^11080330814` modulo `22160661629`, by square-and-multiply.
proof fn lemma_pow_22160661629_by_2()
    ensures
        pow(3int, 11080330814nat) % 22160661629int == 22160661628int,
{
    lemma_pow_start(3int, 22160661629int, 3int);
    lemma_pow_step(3int, 22160661629int, 1nat, 3int, 0nat, 2nat, 9int);
    lemma_pow_step(3int, 22160661629int, 2nat, 9int, 1nat, 5nat, 243int);
    lemma_pow_step(3int, 22160661629int, 5nat, 243int, 0nat, 10nat, 59049int);
    lemma_pow_step(3int, 22160661629int, 10nat, 59049int, 0nat, 20nat, 3486784401int);
    lemma_pow_step(3int, 22160661629int, 20nat, 3486784401int, 1nat, 41nat, 11239907861int);
    lemma_pow_step(3int, 22160661629int, 41nat, 11239907861int, 0nat, 82nat, 11951613855int);
    lemma_pow_step(3int, 22160661629int, 82nat, 11951613855int, 1nat, 165nat, 17693516386int);
    lemma_pow_step(3int, 22160661629int, 165nat, 17693516386int, 0nat, 330nat, 21777287499int);
    lemma_pow_step(3int, 22160661629int, 330nat, 21777287499int, 0nat, 660nat, 10644472780int);
    lemma_pow_step(3int, 22160661629int, 660nat, 10644472780int, 0nat, 1320nat, 15365420170int);
    lemma_pow_step(3int, 22160661629int, 1320nat, 15365420170int, 1nat, 2641nat, 14296114608int);
    lemma_pow_step(3int, 22160661629int, 2641nat, 14296114608int, 1nat, 5283nat, 5331026560int);
    lemma_pow_step(3int, 22160661629int, 5283nat, 5331026560int, 1nat, 10567nat, 6970792960int);
    lemma_pow_step(3int, 22160661629int, 10567nat, 6970792960int, 0nat, 21134nat, 3244366802int);
    lemma_pow_step(3int, 22160661629int, 21134nat, 3244366802int, 0nat, 42268nat, 10037488479int);
    lemma_pow_step(3int, 22160661629int, 42268nat, 10037488479int, 0nat, 84536nat, 21836489745int);
    lemma_pow_step(3int, 22160661629int, 84536nat, 21836489745int, 0nat, 169072nat, 1685077426int);
    lemma_pow_step(3int, 22160661629int, 169072nat, 1685077426int, 0nat, 338144nat, 2526189067int);
    lemma_pow_step(3int, 22160661629int, 338144nat, 2526189067int, 1nat, 676289nat, 8820304675int);
    lemma_pow_step(3int, 22160661629int, 676289nat, 8820304675int, 1nat, 1352579nat, 11872769512int);
    lemma_pow_step(3int, 22160661629int, 1352579nat, 11872769512int, 0nat, 2705158nat, 16281296846int);
    lemma_pow_step(3int, 22160661629int, 2705158nat, 16281296846int, 1nat, 5410317nat, 13633314843int);
    lemma_pow_step(3int, 22160661629int, 5410317nat, 13633314843int, 1nat, 10820635nat, 18003876924int);
    lemma_pow_step(3int, 22160661629int, 10820635nat, 18003876924int, 1nat, 21641271nat, 6045644410int);
    lemma_pow_step(3int, 22160661629int, 21641271nat, 6045644410int, 0nat, 43282542nat, 10535779429int);
    lemma_pow_step(3int, 22160661629int, 43282542nat, 10535779429int, 0nat, 86565084nat, 4841152661int);
    lemma_pow_step(3int, 22160661629int, 86565084nat, 4841152661int, 0nat, 173130168nat, 1965238047int);
    lemma_pow_step(3int, 22160661629int, 173130168nat, 1965238047int, 1nat, 346260337nat, 21901080000int);
    lemma_pow_step(3int, 22160661629int, 346260337nat, 21901080000int, 1nat, 692520675nat, 17334088356int);
    lemma_pow_step(3int, 22160661629int, 692520675nat, 17334088356int, 1nat, 1385041351nat, 5260091270int);
    lemma_pow_step(3int, 22160661629int, 1385041351nat, 5260091270int, 1nat, 2770082703nat, 4000799212int);
    lemma_pow_step(3int, 22160661629int, 2770082703nat, 4000799212int, 1nat, 5540165407nat, 1671138427int);
    lemma_pow_step(3int, 22160661629int, 5540165407nat, 1671138427int, 0nat, 11080330814nat, 22160661628int);
}

/// `3^3165808804` modulo `22160661629`, by square-and-multiply.
proof fn lemma_pow_22160661629_by_7()
    ensures
        pow(3int, 3165808804nat) % 22160661629int == 4941799706int,
{
    lemma_pow_start(3int, 22160661629int, 3int);
    lemma_pow_step(3int, 22160661629int, 1nat, 3int, 0nat, 2nat, 9int);
    lemma_pow_step(3int, 22160661629int, 2nat, 9int, 1nat, 5nat, 243int);
    lemma_pow_step(3int, 22160661629int, 5nat, 243int, 1nat, 11nat, 177147int);
    lemma_pow_step(3int, 22160661629int, 11nat, 177147int, 1nat, 23nat, 5500532311int);
    lemma_pow_step(3int, 22160661629int, 23nat, 5500532311int, 1nat, 47nat, 16608689568int);
    lemma_pow_step(3int, 22160661629int, 47nat, 16608689568int, 0nat, 94nat, 21746580849int);
    lemma_pow_step(3int, 22160661629int, 94nat, 21746580849int, 0nat, 188nat, 2927165344int);
    lemma_pow_step(3int, 22160661629int, 188nat, 2927165344int, 1nat, 377nat, 17230901794int);
    lemma_pow_step(3int, 22160661629int, 377nat, 17230901794int, 0nat, 754nat, 17669357690int);
    lemma_pow_step(3int, 22160661629int, 754nat, 17669357690int, 1nat, 1509nat, 3154599770int);
    lemma_pow_step(3int, 22160661629int, 1509nat, 3154599770int, 1nat, 3019nat, 1620441957int);
    lemma_pow_step(3int, 22160661629int, 3019nat, 1620441957int, 0nat, 6038nat, 4407932581int);
    lemma_pow_step(3int, 22160661629int, 6038nat, 4407932581int, 0nat, 12076nat, 15322735964int);
    lemma_pow_step(3int, 22160661629int, 12076nat, 15322735964int, 1nat, 24153nat, 15840908145int);
    lemma_pow_step(3int, 22160661629int, 24153nat, 15840908145int, 0nat, 48306nat, 10108218690int);
    lemma_pow_step(3int, 22160661629int, 48306nat, 10108218690int, 0nat, 96612nat, 7868732713int);
    lemma_pow_step(3int, 22160661629int, 96612nat, 7868732713int, 1nat, 193225nat, 12047305540int);
    lemma_pow_step(3int, 22160661629int, 193225nat, 12047305540int, 1nat, 386451nat, 15258156912int);
    lemma_pow_step(3int, 22160661629int, 386451nat, 15258156912int, 0nat, 772902nat, 12549096721int);
    lemma_pow_step(3int, 22160661629int, 772902nat, 12549096721int, 1nat, 1545805nat, 15013238357int);
    lemma_pow_step(3int, 22160661629int, 1545805nat, 15013238357int, 0nat, 3091610nat, 14939484507int);
    lemma_pow_step(3int, 22160661629int, 3091610nat, 14939484507int, 0nat, 6183220nat, 20549529883int);
    lemma_pow_step(3int, 22160661629int, 6183220nat, 20549529883int, 0nat, 12366440nat, 15238179388int);
    lemma_pow_step(3int, 22160661629int, 12366440nat, 15238179388int, 1nat, 24732881nat, 3157812013int);
    lemma_pow_step(3int, 22160661629int, 24732881nat, 3157812013int, 0nat, 49465762nat, 17873333217int);
    lemma_pow_step(3int, 22160661629int, 49465762nat, 17873333217int, 1nat, 98931525nat, 17944956547int);
    lemma_pow_step(3int, 22160661629int, 98931525nat, 17944956547int, 0nat, 197863050nat, 19323748700int);
    lemma_pow_step(3int, 22160661629int, 197863050nat, 19323748700int, 0nat, 395726100nat, 3697249426int);
    lemma_pow_step(3int, 22160661629int, 395726100nat, 3697249426int, 1nat, 791452201nat, 8693856092int);
    lemma_pow_step(3int, 22160661629int, 791452201nat, 8693856092int, 0nat, 1582904402nat, 11227818235int);
    lemma_pow_step(3int, 22160661629int, 1582904402nat, 11227818235int, 0nat, 3165808804nat, 4941799706int);
}

/// `3^1166350612` modulo `22160661629`, by square-and-multiply.
proof fn lemma_pow_22160661629_by_19()
    ensures
        pow(3int, 1166350612nat) % 22160661629int == 17941852505int,
{
    lemma_pow_start(3int, 22160661629int, 3int);
    lemma_pow_step(3int, 22160661629int, 1nat, 3int, 0nat, 2nat, 9int);
    lemma_pow_step(3int, 22160661629int, 2nat, 9int, 0nat, 4nat, 81int);
    lemma_pow_step(3int, 22160661629int, 4nat, 81int, 0nat, 8nat, 6561int);
    lemma_pow_step(3int, 22160661629int, 8nat, 6561int, 1nat, 17nat, 129140163int);
    lemma_pow_step(3int, 22160661629int, 17nat, 129140163int, 0nat, 34nat, 20666131216int);
    lemma_pow_step(3int, 22160661629int, 34nat, 20666131216int, 1nat, 69nat, 9959901804int);
    lemma_pow_step(3int, 22160661629int, 69nat, 9959901804int, 1nat, 139nat, 17292813820int);
    lemma_pow_step(3int, 22160661629int, 139nat, 17292813820int, 0nat, 278nat, 19387375160int);
    lemma_pow_step(3int, 22160661629int, 278nat, 19387375160int, 0nat, 556nat, 10305190243int);
    lemma_pow_step(3int, 22160661629int, 556nat, 10305190243int, 0nat, 1112nat, 17032300674int);
    lemma_pow_step(3int, 22160661629int, 1112nat, 17032300674int, 0nat, 2224nat, 10258768930int);
    lemma_pow_step(3int, 22160661629int, 2224nat, 10258768930int, 1nat, 4449nat, 9734407033int);
    lemma_pow_step(3int, 22160661629int, 4449nat, 9734407033int, 0nat, 8898nat, 11656986462int);
    lemma_pow_step(3int, 22160661629int, 8898nat, 11656986462int, 1nat, 17797nat, 10305835966int);
    lemma_pow_step(3int, 22160661629int, 17797nat, 10305835966int, 0nat, 35594nat, 2154526251int);
    lemma_pow_step(3int, 22160661629int, 35594nat, 2154526251int, 0nat, 71188nat, 12493112260int);
    lemma_pow_step(3int, 22160661629int, 71188nat, 12493112260int, 0nat, 142376nat, 4858039783int);
    lemma_pow_step(3int, 22160661629int, 142376nat, 4858039783int, 1nat, 284753nat, 10527175815int);
    lemma_pow_step(3int, 22160661629int, 284753nat, 10527175815int, 1nat, 569507nat, 2286483218int);
    lemma_pow_step(3int, 22160661629int, 569507nat, 2286483218int, 0nat, 1139014nat, 9675964646int);
    lemma_pow_step(3int, 22160661629int, 1139014nat, 9675964646int, 0nat, 2278028nat, 4255135583int);
    lemma_pow_step(3int, 22160661629int, 2278028nat, 4255135583int, 1nat, 4556057nat, 290825419int);
    lemma_pow_step(3int, 22160661629int, 4556057nat, 290825419int, 0nat, 9112114nat, 1612187598int);
    lemma_pow_step(3int, 22160661629int, 9112114nat, 1612187598int, 0nat, 18224228nat, 17643845172int);
    lemma_pow_step(3int, 22160661629int, 18224228nat, 17643845172int, 0nat, 36448456nat, 4550161566int);
    lemma_pow_step(3int, 22160661629int, 36448456nat, 4550161566int, 1nat, 72896913nat, 17458759677int);
    lemma_pow_step(3int, 22160661629int, 72896913nat, 17458759677int, 0nat, 145793826nat, 8291951911int);
    lemma_pow_step(3int, 22160661629int, 145793826nat, 8291951911int, 1nat, 291587653nat, 20593478424int);
    lemma_pow_step(3int, 22160661629int, 291587653nat, 20593478424int, 0nat, 583175306nat, 17059998682int);
    lemma_pow_step(3int, 22160661629int, 583175306nat, 17059998682int, 0nat, 1166350612nat, 17941852505int);
}

/// `3^532` modulo `22160661629`, by square-and-multiply.
proof fn lemma_pow_22160661629_by_41655379()
    ensures
        pow(3int, 532nat) % 22160661629int == 10852739022int,
{
    lemma_pow_start(3int, 22160661629int, 3int);
    lemma_pow_step(3int, 22160661629int, 1nat, 3int, 0nat, 2nat, 9int);
    lemma_pow_step(3int, 22160661629int, 2nat, 9int, 0nat, 4nat, 81int);
    lemma_pow_step(3int, 22160661629int, 4nat, 81int, 0nat, 8nat, 6561int);
    lemma_pow_step(3int, 22160661629int, 8nat, 6561int, 0nat, 16nat, 43046721int);
    lemma_pow_step(3int, 22160661629int, 16nat, 43046721int, 1nat, 33nat, 14275597615int);
    lemma_pow_step(3int, 22160661629int, 33nat, 14275597615int, 0nat, 66nat, 368885252int);
    lemma_pow_step(3int, 22160661629int, 66nat, 368885252int, 1nat, 133nat, 15739855797int);
    lemma_pow_step(3int, 22160661629int, 133nat, 15739855797int, 0nat, 266nat, 5938251974int);
    lemma_pow_step(3int, 22160661629int, 266nat, 5938251974int, 0nat, 532nat, 10852739022int);
}

/// 22160661629 is prime: a Lucas certificate with witness 3.
pub proof fn lemma_prime_22160661629()
    ensures
        is_prime(22160661629int),
{
    lemma_prime_2();
    lemma_prime_7();
    lemma_prime_19();
    lemma_prime_41655379();
    lemma_pow_22160661629_full();
    lemma_pow_22160661629_by_2();
    lemma_pow_22160661629_by_7();
    lemma_pow_22160661629_by_19();
    lemma_pow_22160661629_by_41655379();
    let c: Seq<(int, nat)> = seq![(2int, 2nat), (7int, 1nat), (19int, 1nat), (41655379int, 1nat)];
    assert(c[0] == (2int, 2nat));
    assert(c[1] == (7int, 1nat));
    assert(c[2] == (19int, 1nat));
    assert(c[3] == (41655379int, 1nat));
    assert(cert_product(c.skip(4)) == 1) by {
        assert(c.skip(4) =~= Seq::<(int, nat)>::empty());
    }
    assert(cert_product(c.skip(3)) == 41655379int) by {
        assert(c.skip(3).drop_first() =~= c.skip(4));
        assert(c.skip(3)[0] == (41655379int, 1nat));
        assert(pow(41655379int, 1nat) == 41655379int) by {
            reveal_with_fuel(pow, 2);
        }
    }
    assert(cert_product(c.skip(2)) == 791452201int) by {
        assert(c.skip(2).drop_first() =~= c.skip(3));
        assert(c.skip(2)[0] == (19int, 1nat));
        assert(pow(19int, 1nat) == 19int) by {
            reveal_with_fuel(pow, 2);
        }
    }
    assert(cert_product(c.skip(1)) == 5540165407int) by {
        assert(c.skip(1).drop_first() =~= c.skip(2));
        assert(c.skip(1)[0] == (7int, 1nat));
        assert(pow(7int, 1nat) == 7int) by {
            reveal_with_fuel(pow, 2);
        }
    }
    assert(cert_product(c.skip(0)) == 22160661628int) by {
        assert(c.skip(0).drop_first() =~= c.skip(1));
        assert(c.skip(0)[0] == (2int, 2nat));
        assert(pow(2int, 2nat) == 4int) by {
            reveal_with_fuel(pow, 3);
        }
    }
    assert(c.skip(0) =~= c);
    assert forall|i: int| 0 <= i < c.len() implies is_prime(#[trigger] c[i].0) && c[i].1 >= 1 by {
        if i == 0 {
            assert(c[0].0 == 2int);
        }
        if i == 1 {
            assert(c[1].0 == 7int);
        }
        if i == 2 {
            assert(c[2].0 == 19int);
        }
        if i == 3 {
            assert(c[3].0 == 41655379int);
        }
    }
    assert forall|i: int| 0 <= i < c.len() implies #[trigger] (pow(3int, ((22160661629int - 1) / c[i].0) as nat) % 22160661629int) != 1 by {
        if i == 0 {
            assert(c[0].0 == 2int);
            assert((22160661629int - 1) / 2int == 11080330814int);
        }
        if i == 1 {
            assert(c[1].0 == 7int);
            assert((22160661629int - 1) / 7int == 3165808804int);
        }
        if i == 2 {
            assert(c[2].0 == 19int);
            assert((22160661629int - 1) / 19int == 1166350612int);
        }
        if i == 3 {
            assert(c[3].0 == 41655379int);
            assert((22160661629int - 1) / 41655379int == 532int);
        }
    }
    lemma_lucas(22160661629int, 3int, c);
}

/// `2^417677162932` modulo `417677162933`, by square-and-multiply.
proof fn lemma_pow_417677162933_full()
    ensures
        pow(2int, 417677162932nat) % 417677162933int == 1int,
{
    lemma_pow_start(2int, 417677162933int, 2int);
    lemma_pow_step(2int, 417677162933int, 1nat, 2int, 1nat, 3nat, 8int);
    lemma_pow_step(2int, 417677162933int, 3nat, 8int, 0nat, 6nat, 64int);
    lemma_pow_step(2int, 417677162933int, 6nat, 64int, 0nat, 12nat, 4096int);
    lemma_pow_step(2int, 417677162933int, 12nat, 4096int, 0nat, 24nat, 16777216int);
    lemma_pow_step(2int, 417677162933int, 24nat, 16777216int, 0nat, 48nat, 378246056747int);
    lemma_pow_step(2int, 417677162933int, 48nat, 378246056747int, 1nat, 97nat, 272920476191int);
    lemma_pow_step(2int, 417677162933int, 97nat, 272920476191int, 0nat, 194nat, 3076619344int);
    lemma_pow_step(2int, 417677162933int, 194nat, 3076619344int, 0nat, 388nat, 19795513285int);
    lemma_pow_step(2int, 417677162933int, 388nat, 19795513285int, 1nat, 777nat, 364769442670int);
    lemma_pow_step(2int, 417677162933int, 777nat, 364769442670int, 1nat, 1555nat, 393427593475int);
    lemma_pow_step(2int, 417677162933int, 1555nat, 393427593475int, 1nat, 3111nat, 59842439724int);
    lemma_pow_step(2int, 417677162933int, 3111nat, 59842439724int, 1nat, 6223nat, 43280290287int);
    lemma_pow_step(2int, 417677162933int, 6223nat, 43280290287int, 1nat, 12447nat, 403702375175int);
    lemma_pow_step(2int, 417677162933int, 12447nat, 403702375175int, 1nat, 24895nat, 265017748400int);
    lemma_pow_step(2int, 417677162933int, 24895nat, 265017748400int, 0nat, 49790nat, 64442298827int);
    lemma_pow_step(2int, 417677162933int, 49790nat, 64442298827int, 1nat, 99581nat, 22849168210int);
    lemma_pow_step(2int, 417677162933int, 99581nat, 22849168210int, 1nat, 199163nat, 93653780301int);
    lemma_pow_step(2int, 417677162933int, 199163nat, 93653780301int, 1nat, 398327nat, 217868157899int);
    lemma_pow_step(2int, 417677162933int, 398327nat, 217868157899int, 1nat, 796655nat, 239403440638int);
    lemma_pow_step(2int, 417677162933int, 796655nat, 239403440638int, 1nat, 1593311nat, 88370581691int);
    lemma_pow_step(2int, 417677162933int, 1593311nat, 88370581691int, 1nat, 3186623nat, 164203049638int);
    lemma_pow_step(2int, 417677162933int, 3186623nat, 164203049638int, 1nat, 6373247nat, 97600814065int);
    lemma_pow_step(2int, 417677162933int, 6373247nat, 97600814065int, 1nat, 12746495nat, 63140010516int);
    lemma_pow_step(2int, 417677162933int, 12746495nat, 63140010516int, 0nat, 25492990nat, 42705870713int);
    lemma_pow_step(2int, 417677162933int, 25492990nat, 42705870713int, 1nat, 50985981nat, 249265698687int);
    lemma_pow_step(2int, 417677162933int, 50985981nat, 249265698687int, 1nat, 101971963nat, 303127237956int);
    lemma_pow_step(2int, 417677162933int, 101971963nat, 303127237956int, 1nat, 203943927nat, 90385200057int);
    lemma_pow_step(2int, 417677162933int, 203943927nat, 90385200057int, 0nat, 407887854nat, 339260976925int);
    lemma_pow_step(2int, 417677162933int, 407887854nat, 339260976925int, 0nat, 815775708nat, 110255109319int);
    lemma_pow_step(2int, 417677162933int, 815775708nat, 110255109319int, 1nat, 1631551417nat, 210779186254int);
    lemma_pow_step(2int, 417677162933int, 1631551417nat, 210779186254int, 1nat, 3263102835nat, 335510264183int);
    lemma_pow_step(2int, 417677162933int, 3263102835nat, 335510264183int, 0nat, 6526205670nat, 281167030577int);
    lemma_pow_step(2int, 417677162933int, 6526205670nat, 281167030577int, 1nat, 13052411341nat, 297149159497int);
    lemma_pow_step(2int, 417677162933int, 13052411341nat, 297149159497int, 1nat, 26104822683nat, 139554005948int);
    lemma_pow_step(2int, 417677162933int, 26104822683nat, 139554005948int, 0nat, 52209645366nat, 335866706814int);
    lemma_pow_step(2int, 417677162933int, 52209645366nat, 335866706814int, 1nat, 104419290733nat, 254056250694int);
    lemma_pow_step(2int, 417677162933int, 104419290733nat, 254056250694int, 0nat, 208838581466nat, 417677162932int);
    lemma_pow_step(2int, 417677162933int, 208838581466nat, 417677162932int, 0nat, 417677162932nat, 1int);
}

/// `2^208838581466` modulo `417677162933`, by square-and-multiply.
proof fn lemma_pow_417677162933_by_2()
    ensures
        pow(2int, 208838581466nat) % 417677162933int == 417677162932int,
{
    lemma_pow_start(2int, 417677162933int, 2int);
    lemma_pow_step(2int, 417677162933int, 1nat, 2int, 1nat, 3nat, 8int);
    lemma_pow_step(2int, 417677162933int, 3nat, 8int, 0nat, 6nat, 64int);
    lemma_pow_step(2int, 417677162933int, 6nat, 64int, 0nat, 12nat, 4096int);
    lemma_pow_step(2int, 417677162933int, 12nat, 4096int, 0nat, 24nat, 16777216int);
    lemma_pow_step(2int, 417677162933int, 24nat, 16777216int, 0nat, 48nat, 378246056747int);
    lemma_pow_step(2int, 417677162933int, 48nat, 378246056747int, 1nat, 97nat, 272920476191int);
    lemma_pow_step(2int, 417677162933int, 97nat, 272920476191int, 0nat, 194nat, 3076619344int);
    lemma_pow_step(2int, 417677162933int, 194nat, 3076619344int, 0nat, 388nat, 19795513285int);
    lemma_pow_step(2int, 417677162933int, 388nat, 19795513285int, 1nat, 777nat, 364769442670int);
    lemma_pow_step(2int, 417677162933int, 777nat, 364769442670int, 1nat, 1555nat, 393427593475int);
    lemma_pow_step(2int, 417677162933int, 1555nat, 393427593475int, 1nat, 3111nat, 59842439724int);
    lemma_pow_step(2int, 417677162933int, 3111nat, 59842439724int, 1nat, 6223nat, 43280290287int);
    lemma_pow_step(2int, 417677162933int, 6223nat, 43280290287int, 1nat, 12447nat, 403702375175int);
    lemma_pow_step(2int, 417677162933int, 12447nat, 403702375175int, 1nat, 24895nat, 265017748400int);
    lemma_pow_step(2int, 417677162933int, 24895nat, 265017748400int, 0nat, 49790nat, 64442298827int);
    lemma_pow_step(2int, 417677162933int, 49790nat, 64442298827int, 1nat, 99581nat, 22849168210int);
    lemma_pow_step(2int, 417677162933int, 99581nat, 22849168210int, 1nat, 199163nat, 93653780301int);
    lemma_pow_step(2int, 417677162933int, 199163nat, 93653780301int, 1nat, 398327nat, 217868157899int);
    lemma_pow_step(2int, 417677162933int, 398327nat, 217868157899int, 1nat, 796655nat, 239403440638int);
    lemma_pow_step(2int, 417677162933int, 796655nat, 239403440638int, 1nat, 1593311nat, 88370581691int);
    lemma_pow_step(2int, 417677162933int, 1593311nat, 88370581691int, 1nat, 3186623nat, 164203049638int);
    lemma_pow_step(2int, 417677162933int, 3186623nat, 164203049638int, 1nat, 6373247nat, 97600814065int);
    lemma_pow_step(2int, 417677162933int, 6373247nat, 97600814065int, 1nat, 12746495nat, 63140010516int);
    lemma_pow_step(2int, 417677162933int, 12746495nat, 63140010516int, 0nat, 25492990nat, 42705870713int);
    lemma_pow_step(2int, 417677162933int, 25492990nat, 42705870713int, 1nat, 50985981nat, 249265698687int);
    lemma_pow_step(2int, 417677162933int, 50985981nat, 249265698687int, 1nat, 101971963nat, 303127237956int);
    lemma_pow_step(2int, 417677162933int, 101971963nat, 303127237956int, 1nat, 203943927nat, 90385200057int);
    lemma_pow_step(2int, 417677162933int, 203943927nat, 90385200057int, 0nat, 407887854nat, 339260976925int);
    lemma_pow_step(2int, 417677162933int, 407887854nat, 339260976925int, 0nat, 815775708nat, 110255109319int);
    lemma_pow_step(2int, 417677162933int, 815775708nat, 110255109319int, 1nat, 1631551417nat, 210779186254int);
    lemma_pow_step(2int, 417677162933int, 1631551417nat, 210779186254int, 1nat, 3263102835nat, 335510264183int);
    lemma_pow_step(2int, 417677162933int, 3263102835nat, 335510264183int, 0nat, 6526205670nat, 281167030577int);
    lemma_pow_step(2int, 417677162933int, 6526205670nat, 281167030577int, 1nat, 13052411341nat, 297149159497int);
    lemma_pow_step(2int, 417677162933int, 13052411341nat, 297149159497int, 1nat, 26104822683nat, 139554005948int);
    lemma_pow_step(2int, 417677162933int, 26104822683nat, 139554005948int, 0nat, 52209645366nat, 335866706814int);
    lemma_pow_step(2int, 417677162933int, 52209645366nat, 335866706814int, 1nat, 104419290733nat, 254056250694int);
    lemma_pow_step(2int, 417677162933int, 104419290733nat, 254056250694int, 0nat, 208838581466nat, 417677162932int);
}

/// `2^7079273948` modulo `417677162933`, by square-and-multiply.
proof fn lemma_pow_417677162933_by_59()
    ensures
        pow(2int, 7079273948nat) % 417677162933int == 217323280587int,
{
    lemma_pow_start(2int, 417677162933int, 2int);
    lemma_pow_step(2int, 417677162933int, 1nat, 2int, 1nat, 3nat, 8int);
    lemma_pow_step(2int, 417677162933int, 3nat, 8int, 0nat, 6nat, 64int);
    lemma_pow_step(2int, 417677162933int, 6nat, 64int, 1nat, 13nat, 8192int);
    lemma_pow_step(2int, 417677162933int, 13nat, 8192int, 0nat, 26nat, 67108864int);
    lemma_pow_step(2int, 417677162933int, 26nat, 67108864int, 0nat, 52nat, 204456626890int);
    lemma_pow_step(2int, 417677162933int, 52nat, 204456626890int, 1nat, 105nat, 115555695085int);
    lemma_pow_step(2int, 417677162933int, 105nat, 115555695085int, 0nat, 210nat, 308932794678int);
    lemma_pow_step(2int, 417677162933int, 210nat, 308932794678int, 1nat, 421nat, 209328688675int);
    lemma_pow_step(2int, 417677162933int, 421nat, 209328688675int, 1nat, 843nat, 176066184476int);
    lemma_pow_step(2int, 417677162933int, 843nat, 176066184476int, 1nat, 1687nat, 22259003239int);
    lemma_pow_step(2int, 417677162933int, 1687nat, 22259003239int, 1nat, 3375nat, 191529014038int);
    lemma_pow_step(2int, 417677162933int, 3375nat, 191529014038int, 1nat, 6751nat, 13074382815int);
    lemma_pow_step(2int, 417677162933int, 6751nat, 13074382815int, 0nat, 13502nat, 124165892434int);
    lemma_pow_step(2int, 417677162933int, 13502nat, 124165892434int, 1nat, 27005nat, 63884759200int);
    lemma_pow_step(2int, 417677162933int, 27005nat, 63884759200int, 0nat, 54010nat, 65431107917int);
    lemma_pow_step(2int, 417677162933int, 54010nat, 65431107917int, 1nat, 108021nat, 337411747968int);
    lemma_pow_step(2int, 417677162933int, 108021nat, 337411747968int, 0nat, 216042nat, 247449981564int);
    lemma_pow_step(2int, 417677162933int, 216042nat, 247449981564int, 0nat, 432084nat, 205790865220int);
    lemma_pow_step(2int, 417677162933int, 432084nat, 205790865220int, 1nat, 864169nat, 127373224488int);
    lemma_pow_step(2int, 417677162933int, 864169nat, 127373224488int, 0nat, 1728338nat, 218780335230int);
    lemma_pow_step(2int, 417677162933int, 1728338nat, 218780335230int, 0nat, 3456676nat, 124004970942int);
    lemma_pow_step(2int, 417677162933int, 3456676nat, 124004970942int, 1nat, 6913353nat, 201248679764int);
    lemma_pow_step(2int, 417677162933int, 6913353nat, 201248679764int, 0nat, 13826706nat, 384406203697int);
    lemma_pow_step(2int, 417677162933int, 13826706nat, 384406203697int, 1nat, 27653413nat, 300714178552int);
    lemma_pow_step(2int, 417677162933int, 27653413nat, 300714178552int, 1nat, 55306827nat, 377931063727int);
    lemma_pow_step(2int, 417677162933int, 55306827nat, 377931063727int, 1nat, 110613655nat, 113249497890int);
    lemma_pow_step(2int, 417677162933int, 110613655nat, 113249497890int, 0nat, 221227310nat, 358557096521int);
    lemma_pow_step(2int, 417677162933int, 221227310nat, 358557096521int, 1nat, 442454621nat, 64357554595int);
    lemma_pow_step(2int, 417677162933int, 442454621nat, 64357554595int, 1nat, 884909243nat, 172794601515int);
    lemma_pow_step(2int, 417677162933int, 884909243nat, 172794601515int, 1nat, 1769818487nat, 79385612915int);
    lemma_pow_step(2int, 417677162933int, 1769818487nat, 79385612915int, 0nat, 3539636974nat, 409391432513int);
    lemma_pow_step(2int, 417677162933int, 3539636974nat, 409391432513int, 0nat, 7079273948nat, 217323280587int);
}

/// `2^211696484` modulo `417677162933`, by square-and-multiply.
proof fn lemma_pow_417677162933_by_1973()
    ensures
        pow(2int, 211696484nat) % 417677162933int == 138627498251int,
{
    lemma_pow_start(2int, 417677162933int, 2int);
    lemma_pow_step(2int, 417677162933int, 1nat, 2int, 1nat, 3nat, 8int);
    lemma_pow_step(2int, 417677162933int, 3nat, 8int, 0nat, 6nat, 64int);
    lemma_pow_step(2int, 417677162933int, 6nat, 64int, 0nat, 12nat, 4096int);
    lemma_pow_step(2int, 417677162933int, 12nat, 4096int, 1nat, 25nat, 33554432int);
    lemma_pow_step(2int, 417677162933int, 25nat, 33554432int, 0nat, 50nat, 259952738189int);
    lemma_pow_step(2int, 417677162933int, 50nat, 259952738189int, 0nat, 100nat, 94977994863int);
    lemma_pow_step(2int, 417677162933int, 100nat, 94977994863int, 1nat, 201nat, 393807276032int);
    lemma_pow_step(2int, 417677162933int, 201nat, 393807276032int, 1nat, 403nat, 6745287931int);
    lemma_pow_step(2int, 417677162933int, 403nat, 6745287931int, 1nat, 807nat, 364471022054int);
    lemma_pow_step(2int, 417677162933int, 807nat, 364471022054int, 1nat, 1615nat, 87909456076int);
    lemma_pow_step(2int, 417677162933int, 1615nat, 87909456076int, 0nat, 3230nat, 237904279716int);
    lemma_pow_step(2int, 417677162933int, 3230nat, 237904279716int, 0nat, 6460nat, 359939356664int);
    lemma_pow_step(2int, 417677162933int, 6460nat, 359939356664int, 0nat, 12920nat, 160603862028int);
    lemma_pow_step(2int, 417677162933int, 12920nat, 160603862028int, 1nat, 25841nat, 253539384654int);
    lemma_pow_step(2int, 417677162933int, 25841nat, 253539384654int, 1nat, 51683nat, 97032581681int);
    lemma_pow_step(2int, 417677162933int, 51683nat, 97032581681int, 1nat, 103367nat, 87861880369int);
    lemma_pow_step(2int, 417677162933int, 103367nat, 87861880369int, 0nat, 206734nat, 265909292063int);
    lemma_pow_step(2int, 417677162933int, 206734nat, 265909292063int, 1nat, 413469nat, 22037327402int);
    lemma_pow_step(2int, 417677162933int, 413469nat, 22037327402int, 1nat, 826939nat, 174320928599int);
    lemma_pow_step(2int, 417677162933int, 826939nat, 174320928599int, 0nat, 1653878nat, 50370756339int);
    lemma_pow_step(2int, 417677162933int, 1653878nat, 50370756339int, 1nat, 3307757nat, 365783346782int);
    lemma_pow_step(2int, 417677162933int, 3307757nat, 365783346782int, 1nat, 6615515nat, 142936534124int);
    lemma_pow_step(2int, 417677162933int, 6615515nat, 142936534124int, 0nat, 13231030nat, 258314925995int);
    lemma_pow_step(2int, 417677162933int, 13231030nat, 258314925995int, 0nat, 26462060nat, 135016521153int);
    lemma_pow_step(2int, 417677162933int, 26462060nat, 135016521153int, 1nat, 52924121nat, 152654634045int);
    lemma_pow_step(2int, 417677162933int, 52924121nat, 152654634045int, 0nat, 105848242nat, 210286322881int);
    lemma_pow_step(2int, 417677162933int, 105848242nat, 210286322881int, 0nat, 211696484nat, 138627498251int);
}

/// `2^465628` modulo `417677162933`, by square-and-multiply.
proof fn lemma_pow_417677162933_by_897019()
    ensures
        pow(2int, 465628nat) % 417677162933int == 379604725915int,
{
    lemma_pow_start(2int, 417677162933int, 2int);
    lemma_pow_step(2int, 417677162933int, 1nat, 2int, 1nat, 3nat, 8int);
    lemma_pow_step(2int, 417677162933int, 3nat, 8int, 1nat, 7nat, 128int);
    lemma_pow_step(2int, 417677162933int, 7nat, 128int, 0nat, 14nat, 16384int);
    lemma_pow_step(2int, 417677162933int, 14nat, 16384int, 0nat, 28nat, 268435456int);
    lemma_pow_step(2int, 417677162933int, 28nat, 268435456int, 0nat, 56nat, 347565889709int);
    lemma_pow_step(2int, 417677162933int, 56nat, 347565889709int, 1nat, 113nat, 344856536450int);
    lemma_pow_step(2int, 417677162933int, 113nat, 344856536450int, 1nat, 227nat, 309026332198int);
    lemma_pow_step(2int, 417677162933int, 227nat, 309026332198int, 0nat, 454nat, 205338970808int);
    lemma_pow_step(2int, 417677162933int, 454nat, 205338970808int, 1nat, 909nat, 320018261209int);
    lemma_pow_step(2int, 417677162933int, 909nat, 320018261209int, 0nat, 1818nat, 248053801267int);
    lemma_pow_step(2int, 417677162933int, 1818nat, 248053801267int, 1nat, 3637nat, 100452026849int);
    lemma_pow_step(2int, 417677162933int, 3637nat, 100452026849int, 1nat, 7275nat, 88228980130int);
    lemma_pow_step(2int, 417677162933int, 7275nat, 88228980130int, 0nat, 14550nat, 103569015352int);
    lemma_pow_step(2int, 417677162933int, 14550nat, 103569015352int, 1nat, 29101nat, 82694669887int);
    lemma_pow_step(2int, 417677162933int, 29101nat, 82694669887int, 1nat, 58203nat, 132022744371int);
    lemma_pow_step(2int, 417677162933int, 58203nat, 132022744371int, 1nat, 116407nat, 48520399346int);
    lemma_pow_step(2int, 417677162933int, 116407nat, 48520399346int, 0nat, 232814nat, 271604304124int);
    lemma_pow_step(2int, 417677162933int, 232814nat, 271604304124int, 0nat, 465628nat, 379604725915int);
}

/// 417677162933 is prime: a Lucas certificate with witness 2.
pub proof fn lemma_prime_417677162933()
    ensures
        is_prime(417677162933int),
{
    lemma_prime_2();
    lemma_prime_59();
    lemma_prime_1973();
    lemma_prime_897019();
    lemma_pow_417677162933_full();
    lemma_pow_417677162933_by_2();
    lemma_pow_417677162933_by_59();
    lemma_pow_417677162933_by_1973();
    lemma_pow_417677162933_by_897019();
    let c: Seq<(int, nat)> = seq![(2int, 2nat), (59int, 1nat), (1973int, 1nat), (897019int, 1nat)];
    assert(c[0] == (2int, 2nat));
    assert(c[1] == (59int, 1nat));
    assert(c[2] == (1973int, 1nat));
    assert(c[3] == (897019int, 1nat));
    assert(cert_product(c.skip(4)) == 1) by {
        assert(c.skip(4) =~= Seq::<(int, nat)>::empty());
    }
    assert(cert_product(c.skip(3)) == 897019int) by {
        assert(c.skip(3).drop_first() =~= c.skip(4));
        assert(c.skip(3)[0] == (897019int, 1nat));
        assert(pow(897019int, 1nat) == 897019int) by {
            reveal_with_fuel(pow, 2);
        }
    }
    assert(cert_product(c.skip(2)) == 1769818487int) by {
        assert(c.skip(2).drop_first() =~= c.skip(3));
        assert(c.skip(2)[0] == (1973int, 1nat));
        assert(pow(1973int, 1nat) == 1973int) by {
            reveal_with_fuel(pow, 2);
        }
    }
    assert(cert_product(c.skip(1)) == 104419290733int) by {
        assert(c.skip(1).drop_first() =~= c.skip(2));
        assert(c.skip(1)[0] == (59int, 1nat));
        assert(pow(59int, 1nat) == 59int) by {
            reveal_with_fuel(pow, 2);
        }
    }
    assert(cert_product(c.skip(0)) == 417677162932int) by {
        assert(c.skip(0).drop_first() =~= c.skip(1));
        assert(c.skip(0)[0] == (2int, 2nat));
        assert(pow(2int, 2nat) == 4int) by {
            reveal_with_fuel(pow, 3);
        }
    }
    assert(c.skip(0) =~= c);
    assert forall|i: int| 0 <= i < c.len() implies is_prime(#[trigger] c[i].0) && c[i].1 >= 1 by {
        if i == 0 {
            assert(c[0].0 == 2int);
        }
        if i == 1 {
            assert(c[1].0 == 59int);
        }
        if i == 2 {
            assert(c[2].0 == 1973int);
        }
        if i == 3 {
            assert(c[3].0 == 897019int);
        }
    }
    assert forall|i: int| 0 <= i < c.len() implies #[trigger] (pow(2int, ((417677162933int - 1) / c[i].0) as nat) % 417677162933int) != 1 by {
        if i == 0 {
            assert(c[0].0 == 2int);
            assert((417677162933int - 1) / 2int == 208838581466int);
        }
        if i == 1 {
            assert(c[1].0 == 59int);
            assert((417677162933int - 1) / 59int == 7079273948int);
        }
        if i == 2 {
            assert(c[2].0 == 1973int);
            assert((417677162933int - 1) / 1973int == 211696484int);
        }
        if i == 3 {
            assert(c[3].0 == 897019int);
            assert((417677162933int - 1) / 897019int == 465628int);
        }
    }
    lemma_lucas(417677162933int, 2int, c);
}

/// `2^325086459374266` modulo `325086459374267`, by square-and-multiply.
proof fn lemma_pow_325086459374267_full()
    ensures
        pow(2int, 325086459374266nat) % 325086459374267int == 1int,
{
    lemma_pow_start(2int, 325086459374267int, 2int);
    lemma_pow_step(2int, 325086459374267int, 1nat, 2int, 0nat, 2nat, 4int);
    lemma_pow_step(2int, 325086459374267int, 2nat, 4int, 0nat, 4nat, 16int);
    lemma_pow_step(2int, 325086459374267int, 4nat, 16int, 1nat, 9nat, 512int);
    lemma_pow_step(2int, 325086459374267int, 9nat, 512int, 0nat, 18nat, 262144int);
    lemma_pow_step(2int, 325086459374267int, 18nat, 262144int, 0nat, 36nat, 68719476736int);
    lemma_pow_step(2int, 325086459374267int, 36nat, 68719476736int, 1nat, 73nat, 287662683141863int);
    lemma_pow_step(2int, 325086459374267int, 73nat, 287662683141863int, 1nat, 147nat, 71893289106901int);
    lemma_pow_step(2int, 325086459374267int, 147nat, 71893289106901int, 1nat, 295nat, 288201169793655int);
    lemma_pow_step(2int, 325086459374267int, 295nat, 288201169793655int, 1nat, 591nat, 192114191851205int);
    lemma_pow_step(2int, 325086459374267int, 591nat, 192114191851205int, 0nat, 1182nat, 28005164171278int);
    lemma_pow_step(2int, 325086459374267int, 1182nat, 28005164171278int, 1nat, 2365nat, 128390346083653int);
    lemma_pow_step(2int, 325086459374267int, 2365nat, 128390346083653int, 0nat, 4730nat, 136128196349724int);
    lemma_pow_step(2int, 325086459374267int, 4730nat, 136128196349724int, 1nat, 9461nat, 201393110410395int);
    lemma_pow_step(2int, 325086459374267int, 9461nat, 201393110410395int, 0nat, 18922nat, 300948575156985int);
    lemma_pow_step(2int, 325086459374267int, 18922nat, 300948575156985int, 1nat, 37845nat, 5217088904932int);
    lemma_pow_step(2int, 325086459374267int, 37845nat, 5217088904932int, 0nat, 75690nat, 232529950399783int);
    lemma_pow_step(2int, 325086459374267int, 75690nat, 232529950399783int, 0nat, 151380nat, 271598491714270int);
    lemma_pow_step(2int, 325086459374267int, 151380nat, 271598491714270int, 0nat, 302760nat, 148016616590797int);
    lemma_pow_step(2int, 325086459374267int, 302760nat, 148016616590797int, 0nat, 605520nat, 27240807102181int);
    lemma_pow_step(2int, 325086459374267int, 605520nat, 27240807102181int, 1nat, 1211041nat, 275500630556509int);
    lemma_pow_step(2int, 325086459374267int, 1211041nat, 275500630556509int, 0nat, 2422082nat, 18248938183660int);
    lemma_pow_step(2int, 325086459374267int, 2422082nat, 18248938183660int, 1nat, 4844165nat, 147354875962633int);
    lemma_pow_step(2int, 325086459374267int, 4844165nat, 147354875962633int, 1nat, 9688331nat, 58757875768670int);
    lemma_pow_step(2int, 325086459374267int, 9688331nat, 58757875768670int, 0nat, 19376662nat, 6811264666493int);
    lemma_pow_step(2int, 325086459374267int, 19376662nat, 6811264666493int, 1nat, 38753325nat, 171154065941490int);
    lemma_pow_step(2int, 325086459374267int, 38753325nat, 171154065941490int, 1nat, 77506651nat, 67253938676318int);
    lemma_pow_step(2int, 325086459374267int, 77506651nat, 67253938676318int, 1nat, 155013303nat, 242447945325548int);
    lemma_pow_step(2int, 325086459374267int, 155013303nat, 242447945325548int, 0nat, 310026606nat, 288376120113326int);
    lemma_pow_step(2int, 325086459374267int, 310026606nat, 288376120113326int, 1nat, 620053213nat, 2984916921618int);
    lemma_pow_step(2int, 325086459374267int, 620053213nat, 2984916921618int, 1nat, 1240106427nat, 143573244874557int);
    lemma_pow_step(2int, 325086459374267int, 1240106427nat, 143573244874557int, 1nat, 2480212855nat, 275562167606434int);
    lemma_pow_step(2int, 325086459374267int, 2480212855nat, 275562167606434int, 0nat, 4960425710nat, 67256156598426int);
    lemma_pow_step(2int, 325086459374267int, 4960425710nat, 67256156598426int, 1nat, 9920851421nat, 130665417258057int);
    lemma_pow_step(2int, 325086459374267int, 9920851421nat, 130665417258057int, 0nat, 19841702842nat, 102566377916562int);
    lemma_pow_step(2int, 325086459374267int, 19841702842nat, 102566377916562int, 1nat, 39683405685nat, 267685031211091int);
    lemma_pow_step(2int, 325086459374267int, 39683405685nat, 267685031211091int, 0nat, 79366811370nat, 286924862993401int);
    lemma_pow_step(2int, 325086459374267int, 79366811370nat, 286924862993401int, 1nat, 158733622741nat, 315207151867329int);
    lemma_pow_step(2int, 325086459374267int, 158733622741nat, 315207151867329int, 0nat, 317467245482nat, 30154059946494int);
    lemma_pow_step(2int, 325086459374267int, 317467245482nat, 30154059946494int, 1nat, 634934490965nat, 16304754101974int);
    lemma_pow_step(2int, 325086459374267int, 634934490965nat, 16304754101974int, 0nat, 1269868981930nat, 154055364160004int);
    lemma_pow_step(2int, 325086459374267int, 1269868981930nat, 154055364160004int, 1nat, 2539737963861nat, 85625546342902int);
    lemma_pow_step(2int, 325086459374267int, 2539737963861nat, 85625546342902int, 0nat, 5079475927722nat, 18075918560353int);
    lemma_pow_step(2int, 325086459374267int, 5079475927722nat, 18075918560353int, 1nat, 10158951855445nat, 185743279731045int);
    lemma_pow_step(2int, 325086459374267int, 10158951855445nat, 185743279731045int, 1nat, 20317903710891nat, 299674890539979int);
    lemma_pow_step(2int, 325086459374267int, 20317903710891nat, 299674890539979int, 1nat, 40635807421783nat, 307238431853613int);
    lemma_pow_step(2int, 325086459374267int, 40635807421783nat, 307238431853613int, 0nat, 81271614843566nat, 983432449641int);
    lemma_pow_step(2int, 325086459374267int, 81271614843566nat, 983432449641int, 1nat, 162543229687133nat, 325086459374266int);
    lemma_pow_step(2int, 325086459374267int, 162543229687133nat, 325086459374266int, 0nat, 325086459374266nat, 1int);
}

/// `2^162543229687133` modulo `325086459374267`, by square-and-multiply.
proof fn lemma_pow_325086459374267_by_2()
    ensures
        pow(2int, 162543229687133nat) % 325086459374267int == 325086459374266int,
{
    lemma_pow_start(2int, 325086459374267int, 2int);
    lemma_pow_step(2int, 325086459374267int, 1nat, 2int, 0nat, 2nat, 4int);
    lemma_pow_step(2int, 325086459374267int, 2nat, 4int, 0nat, 4nat, 16int);
    lemma_pow_step(2int, 325086459374267int, 4nat, 16int, 1nat, 9nat, 512int);
    lemma_pow_step(2int, 325086459374267int, 9nat, 512int, 0nat, 18nat, 262144int);
    lemma_pow_step(2int, 325086459374267int, 18nat, 262144int, 0nat, 36nat, 68719476736int);
    lemma_pow_step(2int, 325086459374267int, 36nat, 68719476736int, 1nat, 73nat, 287662683141863int);
    lemma_pow_step(2int, 325086459374267int, 73nat, 287662683141863int, 1nat, 147nat, 71893289106901int);
    lemma_pow_step(2int, 325086459374267int, 147nat, 71893289106901int, 1nat, 295nat, 288201169793655int);
    lemma_pow_step(2int, 325086459374267int, 295nat, 288201169793655int, 1nat, 591nat, 192114191851205int);
    lemma_pow_step(2int, 325086459374267int, 591nat, 192114191851205int, 0nat, 1182nat, 28005164171278int);
    lemma_pow_step(2int, 325086459374267int, 1182nat, 28005164171278int, 1nat, 2365nat, 128390346083653int);
    lemma_pow_step(2int, 325086459374267int, 2365nat, 128390346083653int, 0nat, 4730nat, 136128196349724int);
    lemma_pow_step(2int, 325086459374267int, 4730nat, 136128196349724int, 1nat, 9461nat, 201393110410395int);
    lemma_pow_step(2int, 325086459374267int, 9461nat, 201393110410395int, 0nat, 18922nat, 300948575156985int);
    lemma_pow_step(2int, 325086459374267int, 18922nat, 300948575156985int, 1nat, 37845nat, 5217088904932int);
    lemma_pow_step(2int, 325086459374267int, 37845nat, 5217088904932int, 0nat, 75690nat, 232529950399783int);
    lemma_pow_step(2int, 325086459374267int, 75690nat, 232529950399783int, 0nat, 151380nat, 271598491714270int);
    lemma_pow_step(2int, 325086459374267int, 151380nat, 271598491714270int, 0nat, 302760nat, 148016616590797int);
    lemma_pow_step(2int, 325086459374267int, 302760nat, 148016616590797int, 0nat, 605520nat, 27240807102181int);
    lemma_pow_step(2int, 325086459374267int, 605520nat, 27240807102181int, 1nat, 1211041nat, 275500630556509int);
    lemma_pow_step(2int, 325086459374267int, 1211041nat, 275500630556509int, 0nat, 2422082nat, 18248938183660int);
    lemma_pow_step(2int, 325086459374267int, 2422082nat, 18248938183660int, 1nat, 4844165nat, 147354875962633int);
    lemma_pow_step(2int, 325086459374267int, 4844165nat, 147354875962633int, 1nat, 9688331nat, 58757875768670int);
    lemma_pow_step(2int, 325086459374267int, 9688331nat, 58757875768670int, 0nat, 19376662nat, 6811264666493int);
    lemma_pow_step(2int, 325086459374267int, 19376662nat, 6811264666493int, 1nat, 38753325nat, 171154065941490int);
    lemma_pow_step(2int, 325086459374267int, 38753325nat, 171154065941490int, 1nat, 77506651nat, 67253938676318int);
    lemma_pow_step(2int, 325086459374267int, 77506651nat, 67253938676318int, 1nat, 155013303nat, 242447945325548int);
    lemma_pow_step(2int, 325086459374267int, 155013303nat, 242447945325548int, 0nat, 310026606nat, 288376120113326int);
    lemma_pow_step(2int, 325086459374267int, 310026606nat, 288376120113326int, 1nat, 620053213nat, 2984916921618int);
    lemma_pow_step(2int, 325086459374267int, 620053213nat, 2984916921618int, 1nat, 1240106427nat, 143573244874557int);
    lemma_pow_step(2int, 325086459374267int, 1240106427nat, 143573244874557int, 1nat, 2480212855nat, 275562167606434int);
    lemma_pow_step(2int, 325086459374267int, 2480212855nat, 275562167606434int, 0nat, 4960425710nat, 67256156598426int);
    lemma_pow_step(2int, 325086459374267int, 4960425710nat, 67256156598426int, 1nat, 9920851421nat, 130665417258057int);
    lemma_pow_step(2int, 325086459374267int, 9920851421nat, 130665417258057int, 0nat, 19841702842nat, 102566377916562int);
    lemma_pow_step(2int, 325086459374267int, 19841702842nat, 102566377916562int, 1nat, 39683405685nat, 267685031211091int);
    lemma_pow_step(2int, 325086459374267int, 39683405685nat, 267685031211091int, 0nat, 79366811370nat, 286924862993401int);
    lemma_pow_step(2int, 325086459374267int, 79366811370nat, 286924862993401int, 1nat, 158733622741nat, 315207151867329int);
    lemma_pow_step(2int, 325086459374267int, 158733622741nat, 315207151867329int, 0nat, 317467245482nat, 30154059946494int);
    lemma_pow_step(2int, 325086459374267int, 317467245482nat, 30154059946494int, 1nat, 634934490965nat, 16304754101974int);
    lemma_pow_step(2int, 325086459374267int, 634934490965nat, 16304754101974int, 0nat, 1269868981930nat, 154055364160004int);
    lemma_pow_step(2int, 325086459374267int, 1269868981930nat, 154055364160004int, 1nat, 2539737963861nat, 85625546342902int);
    lemma_pow_step(2int, 325086459374267int, 2539737963861nat, 85625546342902int, 0nat, 5079475927722nat, 18075918560353int);
    lemma_pow_step(2int, 325086459374267int, 5079475927722nat, 18075918560353int, 1nat, 10158951855445nat, 185743279731045int);
    lemma_pow_step(2int, 325086459374267int, 10158951855445nat, 185743279731045int, 1nat, 20317903710891nat, 299674890539979int);
    lemma_pow_step(2int, 325086459374267int, 20317903710891nat, 299674890539979int, 1nat, 40635807421783nat, 307238431853613int);
    lemma_pow_step(2int, 325086459374267int, 40635807421783nat, 307238431853613int, 0nat, 81271614843566nat, 983432449641int);
    lemma_pow_step(2int, 325086459374267int, 81271614843566nat, 983432449641int, 1nat, 162543229687133nat, 325086459374266int);
}

/// `2^638676737474` modulo `325086459374267`, by square-and-multiply.
proof fn lemma_pow_325086459374267_by_509()
    ensures
        pow(2int, 638676737474nat) % 325086459374267int == 129472211388361int,
{
    lemma_pow_start(2int, 325086459374267int, 2int);
    lemma_pow_step(2int, 325086459374267int, 1nat, 2int, 0nat, 2nat, 4int);
    lemma_pow_step(2int, 325086459374267int, 2nat, 4int, 0nat, 4nat, 16int);
    lemma_pow_step(2int, 325086459374267int, 4nat, 16int, 1nat, 9nat, 512int);
    lemma_pow_step(2int, 325086459374267int, 9nat, 512int, 0nat, 18nat, 262144int);
    lemma_pow_step(2int, 325086459374267int, 18nat, 262144int, 1nat, 37nat, 137438953472int);
    lemma_pow_step(2int, 325086459374267int, 37nat, 137438953472int, 0nat, 74nat, 250238906909459int);
    lemma_pow_step(2int, 325086459374267int, 74nat, 250238906909459int, 0nat, 148nat, 143786578213802int);
    lemma_pow_step(2int, 325086459374267int, 148nat, 143786578213802int, 1nat, 297nat, 177545301051819int);
    lemma_pow_step(2int, 325086459374267int, 297nat, 177545301051819int, 0nat, 594nat, 236567697312572int);
    lemma_pow_step(2int, 325086459374267int, 594nat, 236567697312572int, 1nat, 1189nat, 8709960806647int);
    lemma_pow_step(2int, 325086459374267int, 1189nat, 8709960806647int, 1nat, 2379nat, 238038083063262int);
    lemma_pow_step(2int, 325086459374267int, 2379nat, 238038083063262int, 0nat, 4758nat, 43250075310179int);
    lemma_pow_step(2int, 325086459374267int, 4758nat, 43250075310179int, 1nat, 9517nat, 34558024963546int);
    lemma_pow_step(2int, 325086459374267int, 9517nat, 34558024963546int, 0nat, 19034nat, 290874418942183int);
    lemma_pow_step(2int, 325086459374267int, 19034nat, 290874418942183int, 0nat, 38068nat, 250225651932449int);
    lemma_pow_step(2int, 325086459374267int, 38068nat, 250225651932449int, 0nat, 76136nat, 137500134782927int);
    lemma_pow_step(2int, 325086459374267int, 76136nat, 137500134782927int, 0nat, 152272nat, 87405702081534int);
    lemma_pow_step(2int, 325086459374267int, 152272nat, 87405702081534int, 0nat, 304544nat, 185598647590284int);
    lemma_pow_step(2int, 325086459374267int, 304544nat, 185598647590284int, 1nat, 609089nat, 39896973586331int);
    lemma_pow_step(2int, 325086459374267int, 609089nat, 39896973586331int, 1nat, 1218179nat, 53438052055469int);
    lemma_pow_step(2int, 325086459374267int, 1218179nat, 53438052055469int, 0nat, 2436358nat, 283873011496228int);
    lemma_pow_step(2int, 325086459374267int, 2436358nat, 283873011496228int, 0nat, 4872716nat, 185861562761977int);
    lemma_pow_step(2int, 325086459374267int, 4872716nat, 185861562761977int, 1nat, 9745433nat, 319097324423117int);
    lemma_pow_step(2int, 325086459374267int, 9745433nat, 319097324423117int, 1nat, 19490867nat, 145462873661008int);
    lemma_pow_step(2int, 325086459374267int, 19490867nat, 145462873661008int, 0nat, 38981734nat, 233551312598714int);
    lemma_pow_step(2int, 325086459374267int, 38981734nat, 233551312598714int, 0nat, 77963468nat, 165529760996314int);
    lemma_pow_step(2int, 325086459374267int, 77963468nat, 165529760996314int, 1nat, 155926937nat, 68605397295161int);
    lemma_pow_step(2int, 325086459374267int, 155926937nat, 68605397295161int, 1nat, 311853875nat, 310018600357319int);
    lemma_pow_step(2int, 325086459374267int, 311853875nat, 310018600357319int, 1nat, 623707751nat, 178639176343019int);
    lemma_pow_step(2int, 325086459374267int, 623707751nat, 178639176343019int, 0nat, 1247415502nat, 41195195349723int);
    lemma_pow_step(2int, 325086459374267int, 1247415502nat, 41195195349723int, 1nat, 2494831005nat, 37840227408675int);
    lemma_pow_step(2int, 325086459374267int, 2494831005nat, 37840227408675int, 1nat, 4989662011nat, 156252271126838int);
    lemma_pow_step(2int, 325086459374267int, 4989662011nat, 156252271126838int, 1nat, 9979324023nat, 301800245383287int);
    lemma_pow_step(2int, 325086459374267int, 9979324023nat, 301800245383287int, 0nat, 19958648046nat, 169954233379668int);
    lemma_pow_step(2int, 325086459374267int, 19958648046nat, 169954233379668int, 0nat, 39917296092nat, 193313021745051int);
    lemma_pow_step(2int, 325086459374267int, 39917296092nat, 193313021745051int, 0nat, 79834592184nat, 42062941404785int);
    lemma_pow_step(2int, 325086459374267int, 79834592184nat, 42062941404785int, 0nat, 159669184368nat, 141689005425195int);
    lemma_pow_step(2int, 325086459374267int, 159669184368nat, 141689005425195int, 1nat, 319338368737nat, 87119439742591int);
    lemma_pow_step(2int, 325086459374267int, 319338368737nat, 87119439742591int, 0nat, 638676737474nat, 129472211388361int);
}

/// `2^786131158` modulo `325086459374267`, by square-and-multiply.
proof fn lemma_pow_325086459374267_by_413527()
    ensures
        pow(2int, 786131158nat) % 325086459374267int == 102008102706872int,
{
    lemma_pow_start(2int, 325086459374267int, 2int);
    lemma_pow_step(2int, 325086459374267int, 1nat, 2int, 0nat, 2nat, 4int);
    lemma_pow_step(2int, 325086459374267int, 2nat, 4int, 1nat, 5nat, 32int);
    lemma_pow_step(2int, 325086459374267int, 5nat, 32int, 1nat, 11nat, 2048int);
    lemma_pow_step(2int, 325086459374267int, 11nat, 2048int, 1nat, 23nat, 8388608int);
    lemma_pow_step(2int, 325086459374267int, 23nat, 8388608int, 0nat, 46nat, 70368744177664int);
    lemma_pow_step(2int, 325086459374267int, 46nat, 70368744177664int, 1nat, 93nat, 163097317261400int);
    lemma_pow_step(2int, 325086459374267int, 93nat, 163097317261400int, 1nat, 187nat, 21305888621532int);
    lemma_pow_step(2int, 325086459374267int, 187nat, 21305888621532int, 0nat, 374nat, 37805692622080int);
    lemma_pow_step(2int, 325086459374267int, 374nat, 37805692622080int, 1nat, 749nat, 181722386714351int);
    lemma_pow_step(2int, 325086459374267int, 749nat, 181722386714351int, 1nat, 1499nat, 168956465680365int);
    lemma_pow_step(2int, 325086459374267int, 1499nat, 168956465680365int, 0nat, 2998nat, 260461299785794int);
    lemma_pow_step(2int, 325086459374267int, 2998nat, 260461299785794int, 1nat, 5997nat, 237919997690350int);
    lemma_pow_step(2int, 325086459374267int, 5997nat, 237919997690350int, 1nat, 11995nat, 209567468986359int);
    lemma_pow_step(2int, 325086459374267int, 11995nat, 209567468986359int, 0nat, 23990nat, 296885670862959int);
    lemma_pow_step(2int, 325086459374267int, 23990nat, 296885670862959int, 1nat, 47981nat, 195397077115166int);
    lemma_pow_step(2int, 325086459374267int, 47981nat, 195397077115166int, 1nat, 95963nat, 288243750959498int);
    lemma_pow_step(2int, 325086459374267int, 95963nat, 288243750959498int, 0nat, 191926nat, 264200856573086int);
    lemma_pow_step(2int, 325086459374267int, 191926nat, 264200856573086int, 1nat, 383853nat, 159923734836768int);
    lemma_pow_step(2int, 325086459374267int, 383853nat, 159923734836768int, 0nat, 767706nat, 294236636524960int);
    lemma_pow_step(2int, 325086459374267int, 767706nat, 294236636524960int, 0nat, 1535412nat, 322004871953315int);
    lemma_pow_step(2int, 325086459374267int, 1535412nat, 322004871953315int, 0nat, 3070824nat, 186769518024328int);
    lemma_pow_step(2int, 325086459374267int, 3070824nat, 186769518024328int, 1nat, 6141649nat, 58162216053495int);
    lemma_pow_step(2int, 325086459374267int, 6141649nat, 58162216053495int, 1nat, 12283299nat, 200951793596695int);
    lemma_pow_step(2int, 325086459374267int, 12283299nat, 200951793596695int, 0nat, 24566598nat, 146198919796219int);
    lemma_pow_step(2int, 325086459374267int, 24566598nat, 146198919796219int, 1nat, 49133197nat, 211614391654645int);
    lemma_pow_step(2int, 325086459374267int, 49133197nat, 211614391654645int, 0nat, 98266394nat, 14999610411307int);
    lemma_pow_step(2int, 325086459374267int, 98266394nat, 14999610411307int, 1nat, 196532789nat, 185228052429916int);
    lemma_pow_step(2int, 325086459374267int, 196532789nat, 185228052429916int, 1nat, 393065579nat, 105313137465832int);
    lemma_pow_step(2int, 325086459374267int, 393065579nat, 105313137465832int, 0nat, 786131158nat, 102008102706872int);
}

/// `2^420970486` modulo `325086459374267`, by square-and-multiply.
proof fn lemma_pow_325086459374267_by_772231()
    ensures
        pow(2int, 420970486nat) % 325086459374267int == 156180095894647int,
{
    lemma_pow_start(2int, 325086459374267int, 2int);
    lemma_pow_step(2int, 325086459374267int, 1nat, 2int, 1nat, 3nat, 8int);
    lemma_pow_step(2int, 325086459374267int, 3nat, 8int, 0nat, 6nat, 64int);
    lemma_pow_step(2int, 325086459374267int, 6nat, 64int, 0nat, 12nat, 4096int);
    lemma_pow_step(2int, 325086459374267int, 12nat, 4096int, 1nat, 25nat, 33554432int);
    lemma_pow_step(2int, 325086459374267int, 25nat, 33554432int, 0nat, 50nat, 150640528719823int);
    lemma_pow_step(2int, 325086459374267int, 50nat, 150640528719823int, 0nat, 100nat, 70923209506112int);
    lemma_pow_step(2int, 325086459374267int, 100nat, 70923209506112int, 0nat, 200nat, 291497362983032int);
    lemma_pow_step(2int, 325086459374267int, 200nat, 291497362983032int, 1nat, 401nat, 246270931449456int);
    lemma_pow_step(2int, 325086459374267int, 401nat, 246270931449456int, 0nat, 802nat, 159896135778184int);
    lemma_pow_step(2int, 325086459374267int, 802nat, 159896135778184int, 1nat, 1605nat, 120381914071093int);
    lemma_pow_step(2int, 325086459374267int, 1605nat, 120381914071093int, 1nat, 3211nat, 109862549629936int);
    lemma_pow_step(2int, 325086459374267int, 3211nat, 109862549629936int, 1nat, 6423nat, 27900228541211int);
    lemma_pow_step(2int, 325086459374267int, 6423nat, 27900228541211int, 0nat, 12846nat, 301905139185278int);
    lemma_pow_step(2int, 325086459374267int, 12846nat, 301905139185278int, 1nat, 25693nat, 251297449483184int);
    lemma_pow_step(2int, 325086459374267int, 25693nat, 251297449483184int, 1nat, 51387nat, 74976513941720int);
    lemma_pow_step(2int, 325086459374267int, 51387nat, 74976513941720int, 1nat, 102775nat, 142564112154701int);
    lemma_pow_step(2int, 325086459374267int, 102775nat, 142564112154701int, 1nat, 205551nat, 31756243796545int);
    lemma_pow_step(2int, 325086459374267int, 205551nat, 31756243796545int, 1nat, 411103nat, 292794114921990int);
    lemma_pow_step(2int, 325086459374267int, 411103nat, 292794114921990int, 1nat, 822207nat, 23061371170810int);
    lemma_pow_step(2int, 325086459374267int, 822207nat, 23061371170810int, 1nat, 1644415nat, 18708138414238int);
    lemma_pow_step(2int, 325086459374267int, 1644415nat, 18708138414238int, 1nat, 3288831nat, 110062896548504int);
    lemma_pow_step(2int, 325086459374267int, 3288831nat, 110062896548504int, 1nat, 6577663nat, 230214181128088int);
    lemma_pow_step(2int, 325086459374267int, 6577663nat, 230214181128088int, 1nat, 13155327nat, 181413121178087int);
    lemma_pow_step(2int, 325086459374267int, 13155327nat, 181413121178087int, 1nat, 26310655nat, 78160860936644int);
    lemma_pow_step(2int, 325086459374267int, 26310655nat, 78160860936644int, 0nat, 52621310nat, 197457364297317int);
    lemma_pow_step(2int, 325086459374267int, 52621310nat, 197457364297317int, 1nat, 105242621nat, 1114308212474int);
    lemma_pow_step(2int, 325086459374267int, 105242621nat, 1114308212474int, 1nat, 210485243nat, 77910403943933int);
    lemma_pow_step(2int, 325086459374267int, 210485243nat, 77910403943933int, 0nat, 420970486nat, 156180095894647int);
}

/// 325086459374267 is prime: a Lucas certificate with witness 2.
pub proof fn lemma_prime_325086459374267()
    ensures
        is_prime(325086459374267int),
{
    lemma_prime_2();
    lemma_prime_509();
    lemma_prime_413527();
    lemma_prime_772231();
    lemma_pow_325086459374267_full();
    lemma_pow_325086459374267_by_2();
    lemma_pow_325086459374267_by_509();
    lemma_pow_325086459374267_by_413527();
    lemma_pow_325086459374267_by_772231();
    let c: Seq<(int, nat)> = seq![(2int, 1nat), (509int, 1nat), (413527int, 1nat), (772231int, 1nat)];
    assert(c[0] == (2int, 1nat));
    assert(c[1] == (509int, 1nat));
    assert(c[2] == (413527int, 1nat));
    assert(c[3] == (772231int, 1nat));
    assert(cert_product(c.skip(4)) == 1) by {
        assert(c.skip(4) =~= Seq::<(int, nat)>::empty());
    }
    assert(cert_product(c.skip(3)) == 772231int) by {
        assert(c.skip(3).drop_first() =~= c.skip(4));
        assert(c.skip(3)[0] == (772231int, 1nat));
        assert(pow(772231int, 1nat) == 772231int) by {
            reveal_with_fuel(pow, 2);
        }
    }
    assert(cert_product(c.skip(2)) == 319338368737int) by {
        assert(c.skip(2).drop_first() =~= c.skip(3));
        assert(c.skip(2)[0] == (413527int, 1nat));
        assert(pow(413527int, 1nat) == 413527int) by {
            reveal_with_fuel(pow, 2);
        }
    }
    assert(cert_product(c.skip(1)) == 162543229687133int) by {
        assert(c.skip(1).drop_first() =~= c.skip(2));
        assert(c.skip(1)[0] == (509int, 1nat));
        assert(pow(509int, 1nat) == 509int) by {
            reveal_with_fuel(pow, 2);
        }
    }
    assert(cert_product(c.skip(0)) == 325086459374266int) by {
        assert(c.skip(0).drop_first() =~= c.skip(1));
        assert(c.skip(0)[0] == (2int, 1nat));
        assert(pow(2int, 1nat) == 2int) by {
            reveal_with_fuel(pow, 2);
        }
    }
    assert(c.skip(0) =~= c);
    assert forall|i: int| 0 <= i < c.len() implies is_prime(#[trigger] c[i].0) && c[i].1 >= 1 by {
        if i == 0 {
            assert(c[0].0 == 2int);
        }
        if i == 1 {
            assert(c[1].0 == 509int);
        }
        if i == 2 {
            assert(c[2].0 == 413527int);
        }
        if i == 3 {
            assert(c[3].0 == 772231int);
        }
    }
    assert forall|i: int| 0 <= i < c.len() implies #[trigger] (pow(2int, ((325086459374267int - 1) / c[i].0) as nat) % 325086459374267int) != 1 by {
        if i == 0 {
            assert(c[0].0 == 2int);
            assert((325086459374267int - 1) / 2int == 162543229687133int);
        }
        if i == 1 {
            assert(c[1].0 == 509int);
            assert((325086459374267int - 1) / 509int == 638676737474int);
        }
        if i == 2 {
            assert(c[2].0 == 413527int);
            assert((325086459374267int - 1) / 413527int == 786131158int);
        }
        if i == 3 {
            assert(c[3].0 == 772231int);
            assert((325086459374267int - 1) / 772231int == 420970486int);
        }
    }
    lemma_lucas(325086459374267int, 2int, c);
}

/// `5^539204044132271846772` modulo `539204044132271846773`, by square-and-multiply.
proof fn lemma_pow_539204044132271846773_full()
    ensures
        pow(5int, 539204044132271846772nat) % 539204044132271846773int == 1int,
{
    lemma_pow_start(5int, 539204044132271846773int, 5int);
    lemma_pow_step(5int, 539204044132271846773int, 1nat, 5int, 1nat, 3nat, 125int);
    lemma_pow_step(5int, 539204044132271846773int, 3nat, 125int, 1nat, 7nat, 78125int);
    lemma_pow_step(5int, 539204044132271846773int, 7nat, 78125int, 0nat, 14nat, 6103515625int);
    lemma_pow_step(5int, 539204044132271846773int, 14nat, 6103515625int, 1nat, 29nat, 186264514923095703125int);
    lemma_pow_step(5int, 539204044132271846773int, 29nat, 186264514923095703125int, 0nat, 58nat, 43857968791646467494int);
    lemma_pow_step(5int, 539204044132271846773int, 58nat, 43857968791646467494int, 0nat, 116nat, 507273827152998917677int);
    lemma_pow_step(5int, 539204044132271846773int, 116nat, 507273827152998917677int, 1nat, 233nat, 181646777738778654311int);
    lemma_pow_step(5int, 539204044132271846773int, 233nat, 181646777738778654311int, 1nat, 467nat, 425382397235900932378int);
    lemma_pow_step(5int, 539204044132271846773int, 467nat, 425382397235900932378int, 1nat, 935nat, 288833611791658369110int);
    lemma_pow_step(5int, 539204044132271846773int, 935nat, 288833611791658369110int, 0nat, 1870nat, 459830496830753179951int);
    lemma_pow_step(5int, 539204044132271846773int, 1870nat, 459830496830753179951int, 1nat, 3741nat, 423565622361542136468int);
    lemma_pow_step(5int, 539204044132271846773int, 3741nat, 423565622361542136468int, 0nat, 7482nat, 460119744078955243603int);
    lemma_pow_step(5int, 539204044132271846773int, 7482nat, 460119744078955243603int, 1nat, 14965nat, 51317058761879792015int);
    lemma_pow_step(5int, 539204044132271846773int, 14965nat, 51317058761879792015int, 1nat, 29931nat, 349646051011710902374int);
    lemma_pow_step(5int, 539204044132271846773int, 29931nat, 349646051011710902374int, 1nat, 59863nat, 89479687621867993289int);
    lemma_pow_step(5int, 539204044132271846773int, 59863nat, 89479687621867993289int, 1nat, 119727nat, 530832248187447523305int);
    lemma_pow_step(5int, 539204044132271846773int, 119727nat, 530832248187447523305int, 0nat, 239454nat, 173147259639583981414int);
    lemma_pow_step(5int, 539204044132271846773int, 239454nat, 173147259639583981414int, 1nat, 478909nat, 438870826931125676811int);
    lemma_pow_step(5int, 539204044132271846773int, 478909nat, 438870826931125676811int, 0nat, 957818nat, 96939044679227575077int);
    lemma_pow_step(5int, 539204044132271846773int, 957818nat, 96939044679227575077int, 1nat, 1915637nat, 358262708832645477689int);
    lemma_pow_step(5int, 539204044132271846773int, 1915637nat, 358262708832645477689int, 1nat, 3831275nat, 22629730307077614624int);
    lemma_pow_step(5int, 539204044132271846773int, 3831275nat, 22629730307077614624int, 0nat, 7662550nat, 119920435582957182095int);
    lemma_pow_step(5int, 539204044132271846773int, 7662550nat, 119920435582957182095int, 0nat, 15325100nat, 142840610121919361797int);
    lemma_pow_step(5int, 539204044132271846773int, 15325100nat, 142840610121919361797int, 1nat, 30650201nat, 256923519594680086237int);
    lemma_pow_step(5int, 539204044132271846773int, 30650201nat, 256923519594680086237int, 0nat, 61300402nat, 4512334109857691398int);
    lemma_pow_step(5int, 539204044132271846773int, 61300402nat, 4512334109857691398int, 1nat, 122600805nat, 172263184480389862937int);
    lemma_pow_step(5int, 539204044132271846773int, 122600805nat, 172263184480389862937int, 0nat, 245201610nat, 118506356050979912517int);
    lemma_pow_step(5int, 539204044132271846773int, 245201610nat, 118506356050979912517int, 1nat, 490403221nat, 260059247962284876082int);
    lemma_pow_step(5int, 539204044132271846773int, 490403221nat, 260059247962284876082int, 0nat, 980806442nat, 429588010937127869779int);
    lemma_pow_step(5int, 539204044132271846773int, 980806442nat, 429588010937127869779int, 1nat, 1961612885nat, 124400994429949454948int);
    lemma_pow_step(5int, 539204044132271846773int, 1961612885nat, 124400994429949454948int, 0nat, 3923225770nat, 291329999343632674758int);
    lemma_pow_step(5int, 539204044132271846773int, 3923225770nat, 291329999343632674758int, 1nat, 7846451541nat, 12886216311442340757int);
    lemma_pow_step(5int, 539204044132271846773int, 7846451541nat, 12886216311442340757int, 0nat, 15692903082nat, 480991241776251648960int);
    lemma_pow_step(5int, 539204044132271846773int, 15692903082nat, 480991241776251648960int, 0nat, 31385806164nat, 7142022507462705404int);
    lemma_pow_step(5int, 539204044132271846773int, 31385806164nat, 7142022507462705404int, 0nat, 62771612328nat, 123600642223911490846int);
    lemma_pow_step(5int, 539204044132271846773int, 62771612328nat, 123600642223911490846int, 0nat, 125543224656nat, 83533608308012453599int);
    lemma_pow_step(5int, 539204044132271846773int, 125543224656nat, 83533608308012453599int, 0nat, 251086449312nat, 222691475156313056318int);
    lemma_pow_step(5int, 539204044132271846773int, 251086449312nat, 222691475156313056318int, 0nat, 502172898624nat, 444144480379842967292int);
    lemma_pow_step(5int, 539204044132271846773int, 502172898624nat, 444144480379842967292int, 0nat, 1004345797248nat, 171452065131446171044int);
    lemma_pow_step(5int, 539204044132271846773int, 1004345797248nat, 171452065131446171044int, 1nat, 2008691594497nat, 333847882871122567804int);
    lemma_pow_step(5int, 539204044132271846773int, 2008691594497nat, 333847882871122567804int, 0nat, 4017383188994nat, 304056446460802795825int);
    lemma_pow_step(5int, 539204044132271846773int, 4017383188994nat, 304056446460802795825int, 1nat, 8034766377989nat, 261261604873560670125int);
    lemma_pow_step(5int, 539204044132271846773int, 8034766377989nat, 261261604873560670125int, 1nat, 16069532755979nat, 62192143910747154532int);
    lemma_pow_step(5int, 539204044132271846773int, 16069532755979nat, 62192143910747154532int, 0nat, 32139065511958nat, 448058412948994498705int);
    lemma_pow_step(5int, 539204044132271846773int, 32139065511958nat, 448058412948994498705int, 0nat, 64278131023916nat, 397181734079657921643int);
    lemma_pow_step(5int, 539204044132271846773int, 64278131023916nat, 397181734079657921643int, 0nat, 128556262047832nat, 438061446727755520806int);
    lemma_pow_step(5int, 539204044132271846773int, 128556262047832nat, 438061446727755520806int, 0nat, 257112524095664nat, 247999540035029224310int);
    lemma_pow_step(5int, 539204044132271846773int, 257112524095664nat, 247999540035029224310int, 1nat, 514225048191329nat, 58767185304810760680int);
    lemma_pow_step(5int, 539204044132271846773int, 514225048191329nat, 58767185304810760680int, 1nat, 1028450096382659nat, 493530951094882963827int);
    lemma_pow_step(5int, 539204044132271846773int, 1028450096382659nat, 493530951094882963827int, 1nat, 2056900192765319nat, 498295441749336724840int);
    lemma_pow_step(5int, 539204044132271846773int, 2056900192765319nat, 498295441749336724840int, 0nat, 4113800385530638nat, 244370406252518514847int);
    lemma_pow_step(5int, 539204044132271846773int, 4113800385530638nat, 244370406252518514847int, 0nat, 8227600771061276nat, 372930628826666479595int);
    lemma_pow_step(5int, 539204044132271846773int, 8227600771061276nat, 372930628826666479595int, 1nat, 16455201542122553nat, 429042340381789950292int);
    lemma_pow_step(5int, 539204044132271846773int, 16455201542122553nat, 429042340381789950292int, 1nat, 32910403084245107nat, 136796266414383464511int);
    lemma_pow_step(5int, 539204044132271846773int, 32910403084245107nat, 136796266414383464511int, 1nat, 65820806168490215nat, 160543619009240964194int);
    lemma_pow_step(5int, 539204044132271846773int, 65820806168490215nat, 160543619009240964194int, 1nat, 131641612336980431nat, 134184950287454410523int);
    lemma_pow_step(5int, 539204044132271846773int, 131641612336980431nat, 134184950287454410523int, 0nat, 263283224673960862nat, 437688818685968533123int);
    lemma_pow_step(5int, 539204044132271846773int, 263283224673960862nat, 437688818685968533123int, 1nat, 526566449347921725nat, 356317396982541910770int);
    lemma_pow_step(5int, 539204044132271846773int, 526566449347921725nat, 356317396982541910770int, 0nat, 1053132898695843450nat, 250491388524276223622int);
    lemma_pow_step(5int, 539204044132271846773int, 1053132898695843450nat, 250491388524276223622int, 1nat, 2106265797391686901nat, 264218067439709176812int);
    lemma_pow_step(5int, 539204044132271846773int, 2106265797391686901nat, 264218067439709176812int, 0nat, 4212531594783373802nat, 267088823271850888480int);
    lemma_pow_step(5int, 539204044132271846773int, 4212531594783373802nat, 267088823271850888480int, 1nat, 8425063189566747605nat, 397984884658687729715int);
    lemma_pow_step(5int, 539204044132271846773int, 8425063189566747605nat, 397984884658687729715int, 1nat, 16850126379133495211nat, 460754592834780397691int);
    lemma_pow_step(5int, 539204044132271846773int, 16850126379133495211nat, 460754592834780397691int, 1nat, 33700252758266990423nat, 488019537464378241210int);
    lemma_pow_step(5int, 539204044132271846773int, 33700252758266990423nat, 488019537464378241210int, 0nat, 67400505516533980846nat, 114427154002586671878int);
    lemma_pow_step(5int, 539204044132271846773int, 67400505516533980846nat, 114427154002586671878int, 1nat, 134801011033067961693nat, 135576291067765000696int);
    lemma_pow_step(5int, 539204044132271846773int, 134801011033067961693nat, 135576291067765000696int, 0nat, 269602022066135923386nat, 539204044132271846772int);
    lemma_pow_step(5int, 539204044132271846773int, 269602022066135923386nat, 539204044132271846772int, 0nat, 539204044132271846772nat, 1int);
}

/// `5^269602022066135923386` modulo `539204044132271846773`, by square-and-multiply.
proof fn lemma_pow_539204044132271846773_by_2()
    ensures
        pow(5int, 269602022066135923386nat) % 539204044132271846773int == 539204044132271846772int,
{
    lemma_pow_start(5int, 539204044132271846773int, 5int);
    lemma_pow_step(5int, 539204044132271846773int, 1nat, 5int, 1nat, 3nat, 125int);
    lemma_pow_step(5int, 539204044132271846773int, 3nat, 125int, 1nat, 7nat, 78125int);
    lemma_pow_step(5int, 539204044132271846773int, 7nat, 78125int, 0nat, 14nat, 6103515625int);
    lemma_pow_step(5int, 539204044132271846773int, 14nat, 6103515625int, 1nat, 29nat, 186264514923095703125int);
    lemma_pow_step(5int, 539204044132271846773int, 29nat, 186264514923095703125int, 0nat, 58nat, 43857968791646467494int);
    lemma_pow_step(5int, 539204044132271846773int, 58nat, 43857968791646467494int, 0nat, 116nat, 507273827152998917677int);
    lemma_pow_step(5int, 539204044132271846773int, 116nat, 507273827152998917677int, 1nat, 233nat, 181646777738778654311int);
    lemma_pow_step(5int, 539204044132271846773int, 233nat, 181646777738778654311int, 1nat, 467nat, 425382397235900932378int);
    lemma_pow_step(5int, 539204044132271846773int, 467nat, 425382397235900932378int, 1nat, 935nat, 288833611791658369110int);
    lemma_pow_step(5int, 539204044132271846773int, 935nat, 288833611791658369110int, 0nat, 1870nat, 459830496830753179951int);
    lemma_pow_step(5int, 539204044132271846773int, 1870nat, 459830496830753179951int, 1nat, 3741nat, 423565622361542136468int);
    lemma_pow_step(5int, 539204044132271846773int, 3741nat, 423565622361542136468int, 0nat, 7482nat, 460119744078955243603int);
    lemma_pow_step(5int, 539204044132271846773int, 7482nat, 460119744078955243603int, 1nat, 14965nat, 51317058761879792015int);
    lemma_pow_step(5int, 539204044132271846773int, 14965nat, 51317058761879792015int, 1nat, 29931nat, 349646051011710902374int);
    lemma_pow_step(5int, 539204044132271846773int, 29931nat, 349646051011710902374int, 1nat, 59863nat, 89479687621867993289int);
    lemma_pow_step(5int, 539204044132271846773int, 59863nat, 89479687621867993289int, 1nat, 119727nat, 530832248187447523305int);
    lemma_pow_step(5int, 539204044132271846773int, 119727nat, 530832248187447523305int, 0nat, 239454nat, 173147259639583981414int);
    lemma_pow_step(5int, 539204044132271846773int, 239454nat, 173147259639583981414int, 1nat, 478909nat, 438870826931125676811int);
    lemma_pow_step(5int, 539204044132271846773int, 478909nat, 438870826931125676811int, 0nat, 957818nat, 96939044679227575077int);
    lemma_pow_step(5int, 539204044132271846773int, 957818nat, 96939044679227575077int, 1nat, 1915637nat, 358262708832645477689int);
    lemma_pow_step(5int, 539204044132271846773int, 1915637nat, 358262708832645477689int, 1nat, 3831275nat, 22629730307077614624int);
    lemma_pow_step(5int, 539204044132271846773int, 3831275nat, 22629730307077614624int, 0nat, 7662550nat, 119920435582957182095int);
    lemma_pow_step(5int, 539204044132271846773int, 7662550nat, 119920435582957182095int, 0nat, 15325100nat, 142840610121919361797int);
    lemma_pow_step(5int, 539204044132271846773int, 15325100nat, 142840610121919361797int, 1nat, 30650201nat, 256923519594680086237int);
    lemma_pow_step(5int, 539204044132271846773int, 30650201nat, 256923519594680086237int, 0nat, 61300402nat, 4512334109857691398int);
    lemma_pow_step(5int, 539204044132271846773int, 61300402nat, 4512334109857691398int, 1nat, 122600805nat, 172263184480389862937int);
    lemma_pow_step(5int, 539204044132271846773int, 122600805nat, 172263184480389862937int, 0nat, 245201610nat, 118506356050979912517int);
    lemma_pow_step(5int, 539204044132271846773int, 245201610nat, 118506356050979912517int, 1nat, 490403221nat, 260059247962284876082int);
    lemma_pow_step(5int, 539204044132271846773int, 490403221nat, 260059247962284876082int, 0nat, 980806442nat, 429588010937127869779int);
    lemma_pow_step(5int, 539204044132271846773int, 980806442nat, 429588010937127869779int, 1nat, 1961612885nat, 124400994429949454948int);
    lemma_pow_step(5int, 539204044132271846773int, 1961612885nat, 124400994429949454948int, 0nat, 3923225770nat, 291329999343632674758int);
    lemma_pow_step(5int, 539204044132271846773int, 3923225770nat, 291329999343632674758int, 1nat, 7846451541nat, 12886216311442340757int);
    lemma_pow_step(5int, 539204044132271846773int, 7846451541nat, 12886216311442340757int, 0nat, 15692903082nat, 480991241776251648960int);
    lemma_pow_step(5int, 539204044132271846773int, 15692903082nat, 480991241776251648960int, 0nat, 31385806164nat, 7142022507462705404int);
    lemma_pow_step(5int, 539204044132271846773int, 31385806164nat, 7142022507462705404int, 0nat, 62771612328nat, 123600642223911490846int);
    lemma_pow_step(5int, 539204044132271846773int, 62771612328nat, 123600642223911490846int, 0nat, 125543224656nat, 83533608308012453599int);
    lemma_pow_step(5int, 539204044132271846773int, 125543224656nat, 83533608308012453599int, 0nat, 251086449312nat, 222691475156313056318int);
    lemma_pow_step(5int, 539204044132271846773int, 251086449312nat, 222691475156313056318int, 0nat, 502172898624nat, 444144480379842967292int);
    lemma_pow_step(5int, 539204044132271846773int, 502172898624nat, 444144480379842967292int, 0nat, 1004345797248nat, 171452065131446171044int);
    lemma_pow_step(5int, 539204044132271846773int, 1004345797248nat, 171452065131446171044int, 1nat, 2008691594497nat, 333847882871122567804int);
    lemma_pow_step(5int, 539204044132271846773int, 2008691594497nat, 333847882871122567804int, 0nat, 4017383188994nat, 304056446460802795825int);
    lemma_pow_step(5int, 539204044132271846773int, 4017383188994nat, 304056446460802795825int, 1nat, 8034766377989nat, 261261604873560670125int);
    lemma_pow_step(5int, 539204044132271846773int, 8034766377989nat, 261261604873560670125int, 1nat, 16069532755979nat, 62192143910747154532int);
    lemma_pow_step(5int, 539204044132271846773int, 16069532755979nat, 62192143910747154532int, 0nat, 32139065511958nat, 448058412948994498705int);
    lemma_pow_step(5int, 539204044132271846773int, 32139065511958nat, 448058412948994498705int, 0nat, 64278131023916nat, 397181734079657921643int);
    lemma_pow_step(5int, 539204044132271846773int, 64278131023916nat, 397181734079657921643int, 0nat, 128556262047832nat, 438061446727755520806int);
    lemma_pow_step(5int, 539204044132271846773int, 128556262047832nat, 438061446727755520806int, 0nat, 257112524095664nat, 247999540035029224310int);
    lemma_pow_step(5int, 539204044132271846773int, 257112524095664nat, 247999540035029224310int, 1nat, 514225048191329nat, 58767185304810760680int);
    lemma_pow_step(5int, 539204044132271846773int, 514225048191329nat, 58767185304810760680int, 1nat, 1028450096382659nat, 493530951094882963827int);
    lemma_pow_step(5int, 539204044132271846773int, 1028450096382659nat, 493530951094882963827int, 1nat, 2056900192765319nat, 498295441749336724840int);
    lemma_pow_step(5int, 539204044132271846773int, 2056900192765319nat, 498295441749336724840int, 0nat, 4113800385530638nat, 244370406252518514847int);
    lemma_pow_step(5int, 539204044132271846773int, 4113800385530638nat, 244370406252518514847int, 0nat, 8227600771061276nat, 372930628826666479595int);
    lemma_pow_step(5int, 539204044132271846773int, 8227600771061276nat, 372930628826666479595int, 1nat, 16455201542122553nat, 429042340381789950292int);
    lemma_pow_step(5int, 539204044132271846773int, 16455201542122553nat, 429042340381789950292int, 1nat, 32910403084245107nat, 136796266414383464511int);
    lemma_pow_step(5int, 539204044132271846773int, 32910403084245107nat, 136796266414383464511int, 1nat, 65820806168490215nat, 160543619009240964194int);
    lemma_pow_step(5int, 539204044132271846773int, 65820806168490215nat, 160543619009240964194int, 1nat, 131641612336980431nat, 134184950287454410523int);
    lemma_pow_step(5int, 539204044132271846773int, 131641612336980431nat, 134184950287454410523int, 0nat, 263283224673960862nat, 437688818685968533123int);
    lemma_pow_step(5int, 539204044132271846773int, 263283224673960862nat, 437688818685968533123int, 1nat, 526566449347921725nat, 356317396982541910770int);
    lemma_pow_step(5int, 539204044132271846773int, 526566449347921725nat, 356317396982541910770int, 0nat, 1053132898695843450nat, 250491388524276223622int);
    lemma_pow_step(5int, 539204044132271846773int, 1053132898695843450nat, 250491388524276223622int, 1nat, 2106265797391686901nat, 264218067439709176812int);
    lemma_pow_step(5int, 539204044132271846773int, 2106265797391686901nat, 264218067439709176812int, 0nat, 4212531594783373802nat, 267088823271850888480int);
    lemma_pow_step(5int, 539204044132271846773int, 4212531594783373802nat, 267088823271850888480int, 1nat, 8425063189566747605nat, 397984884658687729715int);
    lemma_pow_step(5int, 539204044132271846773int, 8425063189566747605nat, 397984884658687729715int, 1nat, 16850126379133495211nat, 460754592834780397691int);
    lemma_pow_step(5int, 539204044132271846773int, 16850126379133495211nat, 460754592834780397691int, 1nat, 33700252758266990423nat, 488019537464378241210int);
    lemma_pow_step(5int, 539204044132271846773int, 33700252758266990423nat, 488019537464378241210int, 0nat, 67400505516533980846nat, 114427154002586671878int);
    lemma_pow_step(5int, 539204044132271846773int, 67400505516533980846nat, 114427154002586671878int, 1nat, 134801011033067961693nat, 135576291067765000696int);
    lemma_pow_step(5int, 539204044132271846773int, 134801011033067961693nat, 135576291067765000696int, 0nat, 269602022066135923386nat, 539204044132271846772int);
}

/// `5^179734681377423948924` modulo `539204044132271846773`, by square-and-multiply.
proof fn lemma_pow_539204044132271846773_by_3()
    ensures
        pow(5int, 179734681377423948924nat) % 539204044132271846773int == 72181157461130002303int,
{
    lemma_pow_start(5int, 539204044132271846773int, 5int);
    lemma_pow_step(5int, 539204044132271846773int, 1nat, 5int, 0nat, 2nat, 25int);
    lemma_pow_step(5int, 539204044132271846773int, 2nat, 25int, 0nat, 4nat, 625int);
    lemma_pow_step(5int, 539204044132271846773int, 4nat, 625int, 1nat, 9nat, 1953125int);
    lemma_pow_step(5int, 539204044132271846773int, 9nat, 1953125int, 1nat, 19nat, 19073486328125int);
    lemma_pow_step(5int, 539204044132271846773int, 19nat, 19073486328125int, 0nat, 38nat, 147357392273779353163int);
    lemma_pow_step(5int, 539204044132271846773int, 38nat, 147357392273779353163int, 1nat, 77nat, 28423976350650155773int);
    lemma_pow_step(5int, 539204044132271846773int, 77nat, 28423976350650155773int, 1nat, 155nat, 502081833042664974830int);
    lemma_pow_step(5int, 539204044132271846773int, 155nat, 502081833042664974830int, 1nat, 311nat, 401205738291697248223int);
    lemma_pow_step(5int, 539204044132271846773int, 311nat, 401205738291697248223int, 1nat, 623nat, 389658062685528249022int);
    lemma_pow_step(5int, 539204044132271846773int, 623nat, 389658062685528249022int, 1nat, 1247nat, 298618574567944975352int);
    lemma_pow_step(5int, 539204044132271846773int, 1247nat, 298618574567944975352int, 0nat, 2494nat, 371955690702928614748int);
    lemma_pow_step(5int, 539204044132271846773int, 2494nat, 371955690702928614748int, 0nat, 4988nat, 430782486251930301520int);
    lemma_pow_step(5int, 539204044132271846773int, 4988nat, 430782486251930301520int, 1nat, 9977nat, 424323874124896236350int);
    lemma_pow_step(5int, 539204044132271846773int, 9977nat, 424323874124896236350int, 0nat, 19954nat, 248820248775845853902int);
    lemma_pow_step(5int, 539204044132271846773int, 19954nat, 248820248775845853902int, 1nat, 39909nat, 465347751179750314221int);
    lemma_pow_step(5int, 539204044132271846773int, 39909nat, 465347751179750314221int, 0nat, 79818nat, 175038224809154557518int);
    lemma_pow_step(5int, 539204044132271846773int, 79818nat, 175038224809154557518int, 0nat, 159636nat, 125271232648932124821int);
    lemma_pow_step(5int, 539204044132271846773int, 159636nat, 125271232648932124821int, 0nat, 319272nat, 45020202089495547514int);
    lemma_pow_step(5int, 539204044132271846773int, 319272nat, 45020202089495547514int, 1nat, 638545nat, 474127099994000953964int);
    lemma_pow_step(5int, 539204044132271846773int, 638545nat, 474127099994000953964int, 1nat, 1277091nat, 398425683417474558143int);
    lemma_pow_step(5int, 539204044132271846773int, 1277091nat, 398425683417474558143int, 1nat, 2554183nat, 426416967814429470619int);
    lemma_pow_step(5int, 539204044132271846773int, 2554183nat, 426416967814429470619int, 0nat, 5108366nat, 54046156615514969105int);
    lemma_pow_step(5int, 539204044132271846773int, 5108366nat, 54046156615514969105int, 1nat, 10216733nat, 483982820142986243193int);
    lemma_pow_step(5int, 539204044132271846773int, 10216733nat, 483982820142986243193int, 1nat, 20433467nat, 305856950413640299847int);
    lemma_pow_step(5int, 539204044132271846773int, 20433467nat, 305856950413640299847int, 1nat, 40866935nat, 91651948008211885505int);
    lemma_pow_step(5int, 539204044132271846773int, 40866935nat, 91651948008211885505int, 0nat, 81733870nat, 345004295705525505075int);
    lemma_pow_step(5int, 539204044132271846773int, 81733870nat, 345004295705525505075int, 0nat, 163467740nat, 109363659565257278516int);
    lemma_pow_step(5int, 539204044132271846773int, 163467740nat, 109363659565257278516int, 0nat, 326935480nat, 488021326298480934888int);
    lemma_pow_step(5int, 539204044132271846773int, 326935480nat, 488021326298480934888int, 1nat, 653870961nat, 201701765247835790561int);
    lemma_pow_step(5int, 539204044132271846773int, 653870961nat, 201701765247835790561int, 1nat, 1307741923nat, 96582597746755221453int);
    lemma_pow_step(5int, 539204044132271846773int, 1307741923nat, 96582597746755221453int, 1nat, 2615483847nat, 493947083221156782892int);
    lemma_pow_step(5int, 539204044132271846773int, 2615483847nat, 493947083221156782892int, 0nat, 5230967694nat, 27873913415461361111int);
    lemma_pow_step(5int, 539204044132271846773int, 5230967694nat, 27873913415461361111int, 0nat, 10461935388nat, 57508237932715290140int);
    lemma_pow_step(5int, 539204044132271846773int, 10461935388nat, 57508237932715290140int, 0nat, 20923870776nat, 18060569772674414776int);
    lemma_pow_step(5int, 539204044132271846773int, 20923870776nat, 18060569772674414776int, 0nat, 41847741552nat, 458330487676077513355int);
    lemma_pow_step(5int, 539204044132271846773int, 41847741552nat, 458330487676077513355int, 0nat, 83695483104nat, 342830895180076972187int);
    lemma_pow_step(5int, 539204044132271846773int, 83695483104nat, 342830895180076972187int, 0nat, 167390966208nat, 501615279383907558485int);
    lemma_pow_step(5int, 539204044132271846773int, 167390966208nat, 501615279383907558485int, 0nat, 334781932416nat, 290720866856400604845int);
    lemma_pow_step(5int, 539204044132271846773int, 334781932416nat, 290720866856400604845int, 0nat, 669563864832nat, 240531070586603680691int);
    lemma_pow_step(5int, 539204044132271846773int, 669563864832nat, 240531070586603680691int, 0nat, 1339127729664nat, 335262705438760747859int);
    lemma_pow_step(5int, 539204044132271846773int, 1339127729664nat, 335262705438760747859int, 1nat, 2678255459329nat, 74882739572166033895int);
    lemma_pow_step(5int, 539204044132271846773int, 2678255459329nat, 74882739572166033895int, 1nat, 5356510918659nat, 92944690698874366835int);
    lemma_pow_step(5int, 539204044132271846773int, 5356510918659nat, 92944690698874366835int, 1nat, 10713021837319nat, 366975663519638935088int);
    lemma_pow_step(5int, 539204044132271846773int, 10713021837319nat, 366975663519638935088int, 0nat, 21426043674638nat, 381057249638197167783int);
    lemma_pow_step(5int, 539204044132271846773int, 21426043674638nat, 381057249638197167783int, 1nat, 42852087349277nat, 11588831564359497852int);
    lemma_pow_step(5int, 539204044132271846773int, 42852087349277nat, 11588831564359497852int, 0nat, 85704174698554nat, 243878542102074339736int);
    lemma_pow_step(5int, 539204044132271846773int, 85704174698554nat, 243878542102074339736int, 1nat, 171408349397109nat, 138590352126383630072int);
    lemma_pow_step(5int, 539204044132271846773int, 171408349397109nat, 138590352126383630072int, 1nat, 342816698794219nat, 534028575274447410308int);
    lemma_pow_step(5int, 539204044132271846773int, 342816698794219nat, 534028575274447410308int, 1nat, 685633397588439nat, 141477473160555437083int);
    lemma_pow_step(5int, 539204044132271846773int, 685633397588439nat, 141477473160555437083int, 1nat, 1371266795176879nat, 363671150741506731952int);
    lemma_pow_step(5int, 539204044132271846773int, 1371266795176879nat, 363671150741506731952int, 0nat, 2742533590353758nat, 279592204309302053595int);
    lemma_pow_step(5int, 539204044132271846773int, 2742533590353758nat, 279592204309302053595int, 1nat, 5485067180707517nat, 441354829051260900363int);
    lemma_pow_step(5int, 539204044132271846773int, 5485067180707517nat, 441354829051260900363int, 1nat, 10970134361415035nat, 347293879690662224716int);
    lemma_pow_step(5int, 539204044132271846773int, 10970134361415035nat, 347293879690662224716int, 1nat, 21940268722830071nat, 160768432064526074077int);
    lemma_pow_step(5int, 539204044132271846773int, 21940268722830071nat, 160768432064526074077int, 1nat, 43880537445660143nat, 57976746860563717738int);
    lemma_pow_step(5int, 539204044132271846773int, 43880537445660143nat, 57976746860563717738int, 1nat, 87761074891320287nat, 327780065656860671663int);
    lemma_pow_step(5int, 539204044132271846773int, 87761074891320287nat, 327780065656860671663int, 1nat, 175522149782640575nat, 425765124672939007748int);
    lemma_pow_step(5int, 539204044132271846773int, 175522149782640575nat, 425765124672939007748int, 0nat, 351044299565281150nat, 202648344570987825581int);
    lemma_pow_step(5int, 539204044132271846773int, 351044299565281150nat, 202648344570987825581int, 0nat, 702088599130562300nat, 264269904601668665885int);
    lemma_pow_step(5int, 539204044132271846773int, 702088599130562300nat, 264269904601668665885int, 0nat, 1404177198261124600nat, 252044518831038426721int);
    lemma_pow_step(5int, 539204044132271846773int, 1404177198261124600nat, 252044518831038426721int, 1nat, 2808354396522249201nat, 240405434976200569419int);
    lemma_pow_step(5int, 539204044132271846773int, 2808354396522249201nat, 240405434976200569419int, 1nat, 5616708793044498403nat, 269162161912711423996int);
    lemma_pow_step(5int, 539204044132271846773int, 5616708793044498403nat, 269162161912711423996int, 1nat, 11233417586088996807nat, 517943097558754692325int);
    lemma_pow_step(5int, 539204044132271846773int, 11233417586088996807nat, 517943097558754692325int, 1nat, 22466835172177993615nat, 235114028448346995033int);
    lemma_pow_step(5int, 539204044132271846773int, 22466835172177993615nat, 235114028448346995033int, 1nat, 44933670344355987231nat, 183068397113993577593int);
    lemma_pow_step(5int, 539204044132271846773int, 44933670344355987231nat, 183068397113993577593int, 0nat, 89867340688711974462nat, 72181157461130002304int);
    lemma_pow_step(5int, 539204044132271846773int, 89867340688711974462nat, 72181157461130002304int, 0nat, 179734681377423948924nat, 72181157461130002303int);
}

/// `5^6058472405980582548` modulo `539204044132271846773`, by square-and-multiply.
proof fn lemma_pow_539204044132271846773_by_89()
    ensures
        pow(5int, 6058472405980582548nat) % 539204044132271846773int == 438828511890509762189int,
{
    lemma_pow_start(5int, 539204044132271846773int, 5int);
    lemma_pow_step(5int, 539204044132271846773int, 1nat, 5int, 0nat, 2nat, 25int);
    lemma_pow_step(5int, 539204044132271846773int, 2nat, 25int, 1nat, 5nat, 3125int);
    lemma_pow_step(5int, 539204044132271846773int, 5nat, 3125int, 0nat, 10nat, 9765625int);
    lemma_pow_step(5int, 539204044132271846773int, 10nat, 9765625int, 1nat, 21nat, 476837158203125int);
    lemma_pow_step(5int, 539204044132271846773int, 21nat, 476837158203125int, 0nat, 42nat, 433682668625881775465int);
    lemma_pow_step(5int, 539204044132271846773int, 42nat, 433682668625881775465int, 0nat, 84nat, 180898657847954754411int);
    lemma_pow_step(5int, 539204044132271846773int, 84nat, 180898657847954754411int, 0nat, 168nat, 538971611032432255101int);
    lemma_pow_step(5int, 539204044132271846773int, 168nat, 538971611032432255101int, 0nat, 336nat, 265437247334996542211int);
    lemma_pow_step(5int, 539204044132271846773int, 336nat, 265437247334996542211int, 0nat, 672nat, 383600245614950300985int);
    lemma_pow_step(5int, 539204044132271846773int, 672nat, 383600245614950300985int, 1nat, 1345nat, 416940519552738112470int);
    lemma_pow_step(5int, 539204044132271846773int, 1345nat, 416940519552738112470int, 0nat, 2690nat, 417783146513737222601int);
    lemma_pow_step(5int, 539204044132271846773int, 2690nat, 417783146513737222601int, 1nat, 5381nat, 338316411900928559862int);
    lemma_pow_step(5int, 539204044132271846773int, 5381nat, 338316411900928559862int, 0nat, 10762nat, 497853034856187817247int);
    lemma_pow_step(5int, 539204044132271846773int, 10762nat, 497853034856187817247int, 0nat, 21524nat, 35555066325819262886int);
    lemma_pow_step(5int, 539204044132271846773int, 21524nat, 35555066325819262886int, 0nat, 43048nat, 56320867048391068109int);
    lemma_pow_step(5int, 539204044132271846773int, 43048nat, 56320867048391068109int, 0nat, 86096nat, 79202774622193760567int);
    lemma_pow_step(5int, 539204044132271846773int, 86096nat, 79202774622193760567int, 0nat, 172192nat, 92084223605501994985int);
    lemma_pow_step(5int, 539204044132271846773int, 172192nat, 92084223605501994985int, 0nat, 344384nat, 137187843806789776681int);
    lemma_pow_step(5int, 539204044132271846773int, 344384nat, 137187843806789776681int, 0nat, 688768nat, 118728208908625215156int);
    lemma_pow_step(5int, 539204044132271846773int, 688768nat, 118728208908625215156int, 1nat, 1377537nat, 198773263804267872108int);
    lemma_pow_step(5int, 539204044132271846773int, 1377537nat, 198773263804267872108int, 0nat, 2755074nat, 294018799623591433857int);
    lemma_pow_step(5int, 539204044132271846773int, 2755074nat, 294018799623591433857int, 0nat, 5510148nat, 159607408817107711659int);
    lemma_pow_step(5int, 539204044132271846773int, 5510148nat, 159607408817107711659int, 1nat, 11020297nat, 212756018502068833465int);
    lemma_pow_step(5int, 539204044132271846773int, 11020297nat, 212756018502068833465int, 0nat, 22040594nat, 262884281587042850808int);
    lemma_pow_step(5int, 539204044132271846773int, 22040594nat, 262884281587042850808int, 0nat, 44081188nat, 200670663132979021951int);
    lemma_pow_step(5int, 539204044132271846773int, 44081188nat, 200670663132979021951int, 0nat, 88162376nat, 85399667600404397447int);
    lemma_pow_step(5int, 539204044132271846773int, 88162376nat, 85399667600404397447int, 1nat, 176324753nat, 77192566434848296743int);
    lemma_pow_step(5int, 539204044132271846773int, 176324753nat, 77192566434848296743int, 1nat, 352649507nat, 412726497408451690868int);
    lemma_pow_step(5int, 539204044132271846773int, 352649507nat, 412726497408451690868int, 0nat, 705299014nat, 431296351031660213382int);
    lemma_pow_step(5int, 539204044132271846773int, 705299014nat, 431296351031660213382int, 1nat, 1410598029nat, 487218292970105635738int);
    lemma_pow_step(5int, 539204044132271846773int, 1410598029nat, 487218292970105635738int, 1nat, 2821196059nat, 349174487735384194739int);
    lemma_pow_step(5int, 539204044132271846773int, 2821196059nat, 349174487735384194739int, 1nat, 5642392119nat, 162118665831227307649int);
    lemma_pow_step(5int, 539204044132271846773int, 5642392119nat, 162118665831227307649int, 0nat, 11284784238nat, 383127748824428541424int);
    lemma_pow_step(5int, 539204044132271846773int, 11284784238nat, 383127748824428541424int, 1nat, 22569568477nat, 432995602217145964804int);
    lemma_pow_step(5int, 539204044132271846773int, 22569568477nat, 432995602217145964804int, 0nat, 45139136954nat, 532979014718901859682int);
    lemma_pow_step(5int, 539204044132271846773int, 45139136954nat, 532979014718901859682int, 1nat, 90278273909nat, 154828860622635901467int);
    lemma_pow_step(5int, 539204044132271846773int, 90278273909nat, 154828860622635901467int, 1nat, 180556547819nat, 380760939096085903468int);
    lemma_pow_step(5int, 539204044132271846773int, 180556547819nat, 380760939096085903468int, 1nat, 361113095639nat, 127061694237371035985int);
    lemma_pow_step(5int, 539204044132271846773int, 361113095639nat, 127061694237371035985int, 1nat, 722226191279nat, 451225677665522346599int);
    lemma_pow_step(5int, 539204044132271846773int, 722226191279nat, 451225677665522346599int, 1nat, 1444452382559nat, 280577955274807989298int);
    lemma_pow_step(5int, 539204044132271846773int, 1444452382559nat, 280577955274807989298int, 1nat, 2888904765119nat, 306287974757817664158int);
    lemma_pow_step(5int, 539204044132271846773int, 2888904765119nat, 306287974757817664158int, 1nat, 5777809530239nat, 290208094106563239290int);
    lemma_pow_step(5int, 539204044132271846773int, 5777809530239nat, 290208094106563239290int, 1nat, 11555619060479nat, 30041349866509169405int);
    lemma_pow_step(5int, 539204044132271846773int, 11555619060479nat, 30041349866509169405int, 0nat, 23111238120958nat, 471005050622297846955int);
    lemma_pow_step(5int, 539204044132271846773int, 23111238120958nat, 471005050622297846955int, 1nat, 46222476241917nat, 478959617013692905592int);
    lemma_pow_step(5int, 539204044132271846773int, 46222476241917nat, 478959617013692905592int, 0nat, 92444952483834nat, 300855658377530720828int);
    lemma_pow_step(5int, 539204044132271846773int, 92444952483834nat, 300855658377530720828int, 1nat, 184889904967669nat, 285625218426526917362int);
    lemma_pow_step(5int, 539204044132271846773int, 184889904967669nat, 285625218426526917362int, 0nat, 369779809935338nat, 436672442597320885973int);
    lemma_pow_step(5int, 539204044132271846773int, 369779809935338nat, 436672442597320885973int, 0nat, 739559619870676nat, 4752792159470335928int);
    lemma_pow_step(5int, 539204044132271846773int, 739559619870676nat, 4752792159470335928int, 1nat, 1479119239741353nat, 148694165009755303805int);
    lemma_pow_step(5int, 539204044132271846773int, 1479119239741353nat, 148694165009755303805int, 0nat, 2958238479482706nat, 193361734735429245706int);
    lemma_pow_step(5int, 539204044132271846773int, 2958238479482706nat, 193361734735429245706int, 0nat, 5916476958965412nat, 160400936629453705393int);
    lemma_pow_step(5int, 539204044132271846773int, 5916476958965412nat, 160400936629453705393int, 1nat, 11832953917930825nat, 275297561557557820174int);
    lemma_pow_step(5int, 539204044132271846773int, 11832953917930825nat, 275297561557557820174int, 0nat, 23665907835861650nat, 414817289073691346574int);
    lemma_pow_step(5int, 539204044132271846773int, 23665907835861650nat, 414817289073691346574int, 1nat, 47331815671723301nat, 152918124354941075805int);
    lemma_pow_step(5int, 539204044132271846773int, 47331815671723301nat, 152918124354941075805int, 0nat, 94663631343446602nat, 408510078659176715516int);
    lemma_pow_step(5int, 539204044132271846773int, 94663631343446602nat, 408510078659176715516int, 0nat, 189327262686893204nat, 132179394290635955559int);
    lemma_pow_step(5int, 539204044132271846773int, 189327262686893204nat, 132179394290635955559int, 1nat, 378654525373786409nat, 109229080816752698559int);
    lemma_pow_step(5int, 539204044132271846773int, 378654525373786409nat, 109229080816752698559int, 0nat, 757309050747572818nat, 334815782902755203683int);
    lemma_pow_step(5int, 539204044132271846773int, 757309050747572818nat, 334815782902755203683int, 1nat, 1514618101495145637nat, 358966523713308382417int);
    lemma_pow_step(5int, 539204044132271846773int, 1514618101495145637nat, 358966523713308382417int, 0nat, 3029236202990291274nat, 415954800506756435023int);
    lemma_pow_step(5int, 539204044132271846773int, 3029236202990291274nat, 415954800506756435023int, 0nat, 6058472405980582548nat, 438828511890509762189int);
}

/// `5^36132416011007964` modulo `539204044132271846773`, by square-and-multiply.
proof fn lemma_pow_539204044132271846773_by_14923()
    ensures
        pow(5int, 36132416011007964nat) % 539204044132271846773int == 294085405607369123303int,
{
    lemma_pow_start(5int, 539204044132271846773int, 5int);
    lemma_pow_step(5int, 539204044132271846773int, 1nat, 5int, 0nat, 2nat, 25int);
    lemma_pow_step(5int, 539204044132271846773int, 2nat, 25int, 0nat, 4nat, 625int);
    lemma_pow_step(5int, 539204044132271846773int, 4nat, 625int, 0nat, 8nat, 390625int);
    lemma_pow_step(5int, 539204044132271846773int, 8nat, 390625int, 0nat, 16nat, 152587890625int);
    lemma_pow_step(5int, 539204044132271846773int, 16nat, 152587890625int, 0nat, 32nat, 97290467699273479386int);
    lemma_pow_step(5int, 539204044132271846773int, 32nat, 97290467699273479386int, 0nat, 64nat, 491626321490809192040int);
    lemma_pow_step(5int, 539204044132271846773int, 64nat, 491626321490809192040int, 0nat, 128nat, 75342527825681046869int);
    lemma_pow_step(5int, 539204044132271846773int, 128nat, 75342527825681046869int, 0nat, 256nat, 475659550661480344976int);
    lemma_pow_step(5int, 539204044132271846773int, 256nat, 475659550661480344976int, 1nat, 513nat, 123466682247279431051int);
    lemma_pow_step(5int, 539204044132271846773int, 513nat, 123466682247279431051int, 0nat, 1026nat, 449676490191622026996int);
    lemma_pow_step(5int, 539204044132271846773int, 1026nat, 449676490191622026996int, 1nat, 2053nat, 177956544663843163488int);
    lemma_pow_step(5int, 539204044132271846773int, 2053nat, 177956544663843163488int, 1nat, 4107nat, 390634545526047351318int);
    lemma_pow_step(5int, 539204044132271846773int, 4107nat, 390634545526047351318int, 1nat, 8215nat, 30563191460204252207int);
    lemma_pow_step(5int, 539204044132271846773int, 8215nat, 30563191460204252207int, 1nat, 16431nat, 189367292723491251287int);
    lemma_pow_step(5int, 539204044132271846773int, 16431nat, 189367292723491251287int, 0nat, 32862nat, 209550386532973906696int);
    lemma_pow_step(5int, 539204044132271846773int, 32862nat, 209550386532973906696int, 0nat, 65724nat, 465069591225973674391int);
    lemma_pow_step(5int, 539204044132271846773int, 65724nat, 465069591225973674391int, 0nat, 131448nat, 529776413908055077497int);
    lemma_pow_step(5int, 539204044132271846773int, 131448nat, 529776413908055077497int, 1nat, 262897nat, 194987266196572796116int);
    lemma_pow_step(5int, 539204044132271846773int, 262897nat, 194987266196572796116int, 1nat, 525795nat, 180074662539462171931int);
    lemma_pow_step(5int, 539204044132271846773int, 525795nat, 180074662539462171931int, 1nat, 1051591nat, 67841054966151726333int);
    lemma_pow_step(5int, 539204044132271846773int, 1051591nat, 67841054966151726333int, 1nat, 2103183nat, 273739173507225197336int);
    lemma_pow_step(5int, 539204044132271846773int, 2103183nat, 273739173507225197336int, 0nat, 4206366nat, 491235738126148177787int);
    lemma_pow_step(5int, 539204044132271846773int, 4206366nat, 491235738126148177787int, 1nat, 8412733nat, 501347985086753135745int);
    lemma_pow_step(5int, 539204044132271846773int, 8412733nat, 501347985086753135745int, 1nat, 16825467nat, 153556459702324203733int);
    lemma_pow_step(5int, 539204044132271846773int, 16825467nat, 153556459702324203733int, 0nat, 33650934nat, 130171711557769808422int);
    lemma_pow_step(5int, 539204044132271846773int, 33650934nat, 130171711557769808422int, 1nat, 67301869nat, 111565752354714296679int);
    lemma_pow_step(5int, 539204044132271846773int, 67301869nat, 111565752354714296679int, 0nat, 134603738nat, 38786200965616403662int);
    lemma_pow_step(5int, 539204044132271846773int, 134603738nat, 38786200965616403662int, 1nat, 269207477nat, 24634361183909300818int);
    lemma_pow_step(5int, 539204044132271846773int, 269207477nat, 24634361183909300818int, 1nat, 538414955nat, 73354383895989900346int);
    lemma_pow_step(5int, 539204044132271846773int, 538414955nat, 73354383895989900346int, 0nat, 1076829910nat, 324151770607715480434int);
    lemma_pow_step(5int, 539204044132271846773int, 1076829910nat, 324151770607715480434int, 1nat, 2153659821nat, 5390794242500504425int);
    lemma_pow_step(5int, 539204044132271846773int, 2153659821nat, 5390794242500504425int, 0nat, 4307319642nat, 121775079137299970757int);
    lemma_pow_step(5int, 539204044132271846773int, 4307319642nat, 121775079137299970757int, 0nat, 8614639284nat, 314229710009996564921int);
    lemma_pow_step(5int, 539204044132271846773int, 8614639284nat, 314229710009996564921int, 1nat, 17229278569nat, 36189846991002510895int);
    lemma_pow_step(5int, 539204044132271846773int, 17229278569nat, 36189846991002510895int, 1nat, 34458557139nat, 188777761579904236984int);
    lemma_pow_step(5int, 539204044132271846773int, 34458557139nat, 188777761579904236984int, 0nat, 68917114278nat, 11721938366360035464int);
    lemma_pow_step(5int, 539204044132271846773int, 68917114278nat, 11721938366360035464int, 1nat, 137834228557nat, 138429669689171484045int);
    lemma_pow_step(5int, 539204044132271846773int, 137834228557nat, 138429669689171484045int, 1nat, 275668457115nat, 377337815878152600612int);
    lemma_pow_step(5int, 539204044132271846773int, 275668457115nat, 377337815878152600612int, 0nat, 551336914230nat, 223447160569013373625int);
    lemma_pow_step(5int, 539204044132271846773int, 551336914230nat, 223447160569013373625int, 0nat, 1102673828460nat, 93942894700013229093int);
    lemma_pow_step(5int, 539204044132271846773int, 1102673828460nat, 93942894700013229093int, 1nat, 2205347656921nat, 166136515786242478119int);
    lemma_pow_step(5int, 539204044132271846773int, 2205347656921nat, 166136515786242478119int, 1nat, 4410695313843nat, 211896376281471481526int);
    lemma_pow_step(5int, 539204044132271846773int, 4410695313843nat, 211896376281471481526int, 1nat, 8821390627687nat, 424638404271784154722int);
    lemma_pow_step(5int, 539204044132271846773int, 8821390627687nat, 424638404271784154722int, 0nat, 17642781255374nat, 48650800770229507410int);
    lemma_pow_step(5int, 539204044132271846773int, 17642781255374nat, 48650800770229507410int, 1nat, 35285562510749nat, 19913500421189834467int);
    lemma_pow_step(5int, 539204044132271846773int, 35285562510749nat, 19913500421189834467int, 1nat, 70571125021499nat, 363521752799318378455int);
    lemma_pow_step(5int, 539204044132271846773int, 70571125021499nat, 363521752799318378455int, 1nat, 141142250042999nat, 151335843327862676824int);
    lemma_pow_step(5int, 539204044132271846773int, 141142250042999nat, 151335843327862676824int, 1nat, 282284500085999nat, 395755938544623234578int);
    lemma_pow_step(5int, 539204044132271846773int, 282284500085999nat, 395755938544623234578int, 1nat, 564569000171999nat, 271353180695212564845int);
    lemma_pow_step(5int, 539204044132271846773int, 564569000171999nat, 271353180695212564845int, 0nat, 1129138000343998nat, 458621312266561708261int);
    lemma_pow_step(5int, 539204044132271846773int, 1129138000343998nat, 458621312266561708261int, 1nat, 2258276000687997nat, 460629988547639808111int);
    lemma_pow_step(5int, 539204044132271846773int, 2258276000687997nat, 460629988547639808111int, 1nat, 4516552001375995nat, 198916007944438363802int);
    lemma_pow_step(5int, 539204044132271846773int, 4516552001375995nat, 198916007944438363802int, 1nat, 9033104002751991nat, 533628821360194175618int);
    lemma_pow_step(5int, 539204044132271846773int, 9033104002751991nat, 533628821360194175618int, 0nat, 18066208005503982nat, 266657140092197162993int);
    lemma_pow_step(5int, 539204044132271846773int, 18066208005503982nat, 266657140092197162993int, 0nat, 36132416011007964nat, 294085405607369123303int);
}

/// `5^1290958884` modulo `539204044132271846773`, by square-and-multiply.
proof fn lemma_pow_539204044132271846773_by_417677162933()
    ensures
        pow(5int, 1290958884nat) % 539204044132271846773int == 355094899067762221197int,
{
    lemma_pow_start(5int, 539204044132271846773int, 5int);
    lemma_pow_step(5int, 539204044132271846773int, 1nat, 5int, 0nat, 2nat, 25int);
    lemma_pow_step(5int, 539204044132271846773int, 2nat, 25int, 0nat, 4nat, 625int);
    lemma_pow_step(5int, 539204044132271846773int, 4nat, 625int, 1nat, 9nat, 1953125int);
    lemma_pow_step(5int, 539204044132271846773int, 9nat, 1953125int, 1nat, 19nat, 19073486328125int);
    lemma_pow_step(5int, 539204044132271846773int, 19nat, 19073486328125int, 0nat, 38nat, 147357392273779353163int);
    lemma_pow_step(5int, 539204044132271846773int, 38nat, 147357392273779353163int, 0nat, 76nat, 437048030575947508573int);
    lemma_pow_step(5int, 539204044132271846773int, 76nat, 437048030575947508573int, 1nat, 153nat, 343605699801069707057int);
    lemma_pow_step(5int, 539204044132271846773int, 153nat, 343605699801069707057int, 1nat, 307nat, 86051849771818576126int);
    lemma_pow_step(5int, 539204044132271846773int, 307nat, 86051849771818576126int, 1nat, 615nat, 148681206926320175145int);
    lemma_pow_step(5int, 539204044132271846773int, 615nat, 148681206926320175145int, 1nat, 1231nat, 183156438135148562252int);
    lemma_pow_step(5int, 539204044132271846773int, 1231nat, 183156438135148562252int, 0nat, 2462nat, 306539835872858505439int);
    lemma_pow_step(5int, 539204044132271846773int, 2462nat, 306539835872858505439int, 0nat, 4924nat, 89552035085775829030int);
    lemma_pow_step(5int, 539204044132271846773int, 4924nat, 89552035085775829030int, 1nat, 9849nat, 379777921676569461463int);
    lemma_pow_step(5int, 539204044132271846773int, 9849nat, 379777921676569461463int, 0nat, 19698nat, 427564505634036008503int);
    lemma_pow_step(5int, 539204044132271846773int, 19698nat, 427564505634036008503int, 0nat, 39396nat, 71014744874901850275int);
    lemma_pow_step(5int, 539204044132271846773int, 39396nat, 71014744874901850275int, 1nat, 78793nat, 79545974140225098926int);
    lemma_pow_step(5int, 539204044132271846773int, 78793nat, 79545974140225098926int, 1nat, 157587nat, 137666955731188955971int);
    lemma_pow_step(5int, 539204044132271846773int, 157587nat, 137666955731188955971int, 1nat, 315175nat, 35464595431415143248int);
    lemma_pow_step(5int, 539204044132271846773int, 315175nat, 35464595431415143248int, 1nat, 630351nat, 92328142754892701860int);
    lemma_pow_step(5int, 539204044132271846773int, 630351nat, 92328142754892701860int, 0nat, 1260702nat, 102340743227365850310int);
    lemma_pow_step(5int, 539204044132271846773int, 1260702nat, 102340743227365850310int, 0nat, 2521404nat, 414194331341292474319int);
    lemma_pow_step(5int, 539204044132271846773int, 2521404nat, 414194331341292474319int, 0nat, 5042808nat, 295027239388370275357int);
    lemma_pow_step(5int, 539204044132271846773int, 5042808nat, 295027239388370275357int, 0nat, 10085616nat, 492483077588894649171int);
    lemma_pow_step(5int, 539204044132271846773int, 10085616nat, 492483077588894649171int, 0nat, 20171232nat, 183087061821050716354int);
    lemma_pow_step(5int, 539204044132271846773int, 20171232nat, 183087061821050716354int, 1nat, 40342465nat, 241559619188829846327int);
    lemma_pow_step(5int, 539204044132271846773int, 40342465nat, 241559619188829846327int, 0nat, 80684930nat, 257308819789853838123int);
    lemma_pow_step(5int, 539204044132271846773int, 80684930nat, 257308819789853838123int, 0nat, 161369860nat, 159606764851427638054int);
    lemma_pow_step(5int, 539204044132271846773int, 161369860nat, 159606764851427638054int, 1nat, 322739721nat, 323568037844377826950int);
    lemma_pow_step(5int, 539204044132271846773int, 322739721nat, 323568037844377826950int, 0nat, 645479442nat, 58124171988883880583int);
    lemma_pow_step(5int, 539204044132271846773int, 645479442nat, 58124171988883880583int, 0nat, 1290958884nat, 355094899067762221197int);
}

/// 539204044132271846773 is prime: a Lucas certificate with witness 5.
pub proof fn lemma_prime_539204044132271846773()
    ensures
        is_prime(539204044132271846773int),
{
    lemma_prime_2();
    lemma_prime_3();
    lemma_prime_89();
    lemma_prime_14923();
    lemma_prime_417677162933();
    lemma_pow_539204044132271846773_full();
    lemma_pow_539204044132271846773_by_2();
    lemma_pow_539204044132271846773_by_3();
    lemma_pow_539204044132271846773_by_89();
    lemma_pow_539204044132271846773_by_14923();
    lemma_pow_539204044132271846773_by_417677162933();
    let c: Seq<(int, nat)> = seq![(2int, 2nat), (3int, 5nat), (89int, 1nat), (14923int, 1nat), (417677162933int, 1nat)];
    assert(c[0] == (2int, 2nat));
    assert(c[1] == (3int, 5nat));
    assert(c[2] == (89int, 1nat));
    assert(c[3] == (14923int, 1nat));
    assert(c[4] == (417677162933int, 1nat));
    assert(cert_product(c.skip(5)) == 1) by {
        assert(c.skip(5) =~= Seq::<(int, nat)>::empty());
    }
    assert(cert_product(c.skip(4)) == 417677162933int) by {
        assert(c.skip(4).drop_first() =~= c.skip(5));
        assert(c.skip(4)[0] == (417677162933int, 1nat));
        assert(pow(417677162933int, 1nat) == 417677162933int) by {
            reveal_with_fuel(pow, 2);
        }
    }
    assert(cert_product(c.skip(3)) == 6232996302449159int) by {
        assert(c.skip(3).drop_first() =~= c.skip(4));
        assert(c.skip(3)[0] == (14923int, 1nat));
        assert(pow(14923int, 1nat) == 14923int) by {
            reveal_with_fuel(pow, 2);
        }
    }
    assert(cert_product(c.skip(2)) == 554736670917975151int) by {
        assert(c.skip(2).drop_first() =~= c.skip(3));
        assert(c.skip(2)[0] == (89int, 1nat));
        assert(pow(89int, 1nat) == 89int) by {
            reveal_with_fuel(pow, 2);
        }
    }
    assert(cert_product(c.skip(1)) == 134801011033067961693int) by {
        assert(c.skip(1).drop_first() =~= c.skip(2));
        assert(c.skip(1)[0] == (3int, 5nat));
        assert(pow(3int, 5nat) == 243int) by {
            reveal_with_fuel(pow, 6);
        }
    }
    assert(cert_product(c.skip(0)) == 539204044132271846772int) by {
        assert(c.skip(0).drop_first() =~= c.skip(1));
        assert(c.skip(0)[0] == (2int, 2nat));
        assert(pow(2int, 2nat) == 4int) by {
            reveal_with_fuel(pow, 3);
        }
    }
    assert(c.skip(0) =~= c);
    assert forall|i: int| 0 <= i < c.len() implies is_prime(#[trigger] c[i].0) && c[i].1 >= 1 by {
        if i == 0 {
            assert(c[0].0 == 2int);
        }
        if i == 1 {
            assert(c[1].0 == 3int);
        }
        if i == 2 {
            assert(c[2].0 == 89int);
        }
        if i == 3 {
            assert(c[3].0 == 14923int);
        }
        if i == 4 {
            assert(c[4].0 == 417677162933int);
        }
    }
    assert forall|i: int| 0 <= i < c.len() implies #[trigger] (pow(5int, ((539204044132271846773int - 1) / c[i].0) as nat) % 539204044132271846773int) != 1 by {
        if i == 0 {
            assert(c[0].0 == 2int);
            assert((539204044132271846773int - 1) / 2int == 269602022066135923386int);
        }
        if i == 1 {
            assert(c[1].0 == 3int);
            assert((539204044132271846773int - 1) / 3int == 179734681377423948924int);
        }
        if i == 2 {
            assert(c[2].0 == 89int);
            assert((539204044132271846773int - 1) / 89int == 6058472405980582548int);
        }
        if i == 3 {
            assert(c[3].0 == 14923int);
            assert((539204044132271846773int - 1) / 14923int == 36132416011007964int);
        }
        if i == 4 {
            assert(c[4].0 == 417677162933int);
            assert((539204044132271846773int - 1) / 417677162933int == 1290958884int);
        }
    }
    lemma_lucas(539204044132271846773int, 5int, c);
}

/// `2^8999194758858563409123804352480028797519452` modulo `8999194758858563409123804352480028797519453`, by square-and-multiply.
proof fn lemma_pow_8999194758858563409123804352480028797519453_full()
    ensures
        pow(2int, 8999194758858563409123804352480028797519452nat) % 8999194758858563409123804352480028797519453int == 1int,
{
    lemma_pow_start(2int, 8999194758858563409123804352480028797519453int, 2int);
    lemma_pow_step(2int, 8999194758858563409123804352480028797519453int, 1nat, 2int, 1nat, 3nat, 8int);
    lemma_pow_step(2int, 8999194758858563409123804352480028797519453int, 3nat, 8int, 0nat, 6nat, 64int);
    lemma_pow_step(2int, 8999194758858563409123804352480028797519453int, 6nat, 64int, 0nat, 12nat, 4096int);
    lemma_pow_step(2int, 8999194758858563409123804352480028797519453int, 12nat, 4096int, 1nat, 25nat, 33554432int);
    lemma_pow_step(2int, 8999194758858563409123804352480028797519453int, 25nat, 33554432int, 1nat, 51nat, 2251799813685248int);
    lemma_pow_step(2int, 8999194758858563409123804352480028797519453int, 51nat, 2251799813685248int, 1nat, 103nat, 10141204801825835211973625643008int);
    lemma_pow_step(2int, 8999194758858563409123804352480028797519453int, 103nat, 10141204801825835211973625643008int, 0nat, 206nat, 7164779433181202132984083589311166673079229int);
    lemma_pow_step(2int, 8999194758858563409123804352480028797519453int, 206nat, 7164779433181202132984083589311166673079229int, 1nat, 413nat, 2459981178477193296520569386428594541524152int);
    lemma_pow_step(2int, 8999194758858563409123804352480028797519453int, 413nat, 2459981178477193296520569386428594541524152int, 0nat, 826nat, 1308107620358511851410016461971016128436287int);
    lemma_pow_step(2int, 8999194758858563409123804352480028797519453int, 826nat, 1308107620358511851410016461971016128436287int, 0nat, 1652nat, 1695853774343622292716505020150505751333709int);
    lemma_pow_step(2int, 8999194758858563409123804352480028797519453int, 1652nat, 1695853774343622292716505020150505751333709int, 1nat, 3305nat, 1534263023659581408032911728436503038803543int);
    lemma_pow_step(2int, 8999194758858563409123804352480028797519453int, 3305nat, 1534263023659581408032911728436503038803543int, 1nat, 6611nat, 240631900803225875881617280673289815721462int);
    lemma_pow_step(2int, 8999194758858563409123804352480028797519453int, 6611nat, 240631900803225875881617280673289815721462int, 1nat, 13223nat, 2702430857426408894077315896973461923687003int);
    lemma_pow_step(2int, 8999194758858563409123804352480028797519453int, 13223nat, 2702430857426408894077315896973461923687003int, 0nat, 26446nat, 1573975102500301266025239562487581874475310int);
    lemma_pow_step(2int, 8999194758858563409123804352480028797519453int, 26446nat, 1573975102500301266025239562487581874475310int, 0nat, 52892nat, 199786165578073055702281549034437664869765int);
    lemma_pow_step(2int, 8999194758858563409123804352480028797519453int, 52892nat, 199786165578073055702281549034437664869765int, 1nat, 105785nat, 4650111059079371959858171194054193344627830int);
    lemma_pow_step(2int, 8999194758858563409123804352480028797519453int, 105785nat, 4650111059079371959858171194054193344627830int, 0nat, 211570nat, 7746295218290841931374542428056613111331429int);
    lemma_pow_step(2int, 8999194758858563409123804352480028797519453int, 211570nat, 7746295218290841931374542428056613111331429int, 0nat, 423140nat, 2464007142118378785351983688072735125273515int);
    lemma_pow_step(2int, 8999194758858563409123804352480028797519453int, 423140nat, 2464007142118378785351983688072735125273515int, 0nat, 846280nat, 7339047416268902400009321075595028582823630int);
    lemma_pow_step(2int, 8999194758858563409123804352480028797519453int, 846280nat, 7339047416268902400009321075595028582823630int, 0nat, 1692560nat, 6189933497996905254522426892532496539332000int);
    lemma_pow_step(2int, 8999194758858563409123804352480028797519453int, 1692560nat, 6189933497996905254522426892532496539332000int, 0nat, 3385120nat, 1566915189858695986268821444678748642450084int);
    lemma_pow_step(2int, 8999194758858563409123804352480028797519453int, 3385120nat, 1566915189858695986268821444678748642450084int, 1nat, 6770241nat, 3606087258654208999163034359452440223977818int);
    lemma_pow_step(2int, 8999194758858563409123804352480028797519453int, 6770241nat, 3606087258654208999163034359452440223977818int, 1nat, 13540483nat, 8221095272271032214487271964704387838963359int);
    lemma_pow_step(2int, 8999194758858563409123804352480028797519453int, 13540483nat, 8221095272271032214487271964704387838963359int, 0nat, 27080966nat, 4055211683610503885472672500064972243070281int);
    lemma_pow_step(2int, 8999194758858563409123804352480028797519453int, 27080966nat, 4055211683610503885472672500064972243070281int, 1nat, 54161933nat, 1431334360408409268552604298403229290375018int);
    lemma_pow_step(2int, 8999194758858563409123804352480028797519453int, 54161933nat, 1431334360408409268552604298403229290375018int, 0nat, 108323866nat, 3639651947646228585299704463256319463304719int);
    lemma_pow_step(2int, 8999194758858563409123804352480028797519453int, 108323866nat, 3639651947646228585299704463256319463304719int, 1nat, 216647733nat, 5358763975395108000917687285986923365630875int);
    lemma_pow_step(2int, 8999194758858563409123804352480028797519453int, 216647733nat, 5358763975395108000917687285986923365630875int, 0nat, 433295466nat, 4040882098996242807794631523410899885074808int);
    lemma_pow_step(2int, 8999194758858563409123804352480028797519453int, 433295466nat, 4040882098996242807794631523410899885074808int, 1nat, 866590933nat, 6904328357513493228425127162150344448253572int);
    lemma_pow_step(2int, 8999194758858563409123804352480028797519453int, 866590933nat, 6904328357513493228425127162150344448253572int, 0nat, 1733181866nat, 8427359699468330561604119204164169338202036int);
    lemma_pow_step(2int, 8999194758858563409123804352480028797519453int, 1733181866nat, 8427359699468330561604119204164169338202036int, 0nat, 3466363732nat, 2961281692069712385347152213773073143116151int);
    lemma_pow_step(2int, 8999194758858563409123804352480028797519453int, 3466363732nat, 2961281692069712385347152213773073143116151int, 0nat, 6932727464nat, 7783140961557550526619203431361160520203778int);
    lemma_pow_step(2int, 8999194758858563409123804352480028797519453int, 6932727464nat, 7783140961557550526619203431361160520203778int, 1nat, 13865454929nat, 5698685479677321145373949810675749407471075int);
    lemma_pow_step(2int, 8999194758858563409123804352480028797519453int, 13865454929nat, 5698685479677321145373949810675749407471075int, 0nat, 27730909858nat, 108580318754175017979138856899336629664675int);
    lemma_pow_step(2int, 8999194758858563409123804352480028797519453int, 27730909858nat, 108580318754175017979138856899336629664675int, 0nat, 55461819716nat, 5948607912723465853152155599608302004187151int);
    lemma_pow_step(2int, 8999194758858563409123804352480028797519453int, 55461819716nat, 5948607912723465853152155599608302004187151int, 1nat, 110923639433nat, 945252160041078767982488697146037075294284int);
    lemma_pow_step(2int, 8999194758858563409123804352480028797519453int, 110923639433nat, 945252160041078767982488697146037075294284int, 0nat, 221847278866nat, 3267799151747815130886524040286775421108575int);
    lemma_pow_step(2int, 8999194758858563409123804352480028797519453int, 221847278866nat, 3267799151747815130886524040286775421108575int, 1nat, 443694557733nat, 304083634690657532383713718921091330083807int);
    lemma_pow_step(2int, 8999194758858563409123804352480028797519453int, 443694557733nat, 304083634690657532383713718921091330083807int, 0nat, 887389115466nat, 8996731265234546691093844162226785692570835int);
    lemma_pow_step(2int, 8999194758858563409123804352480028797519453int, 887389115466nat, 8996731265234546691093844162226785692570835int, 1nat, 1774778230933nat, 5141787104711494679592623093872947220537421int);
    lemma_pow_step(2int, 8999194758858563409123804352480028797519453int, 1774778230933nat, 5141787104711494679592623093872947220537421int, 0nat, 3549556461866nat, 7122178197123875993252810983716428553119799int);
    lemma_pow_step(2int, 8999194758858563409123804352480028797519453int, 3549556461866nat, 7122178197123875993252810983716428553119799int, 1nat, 7099112923733nat, 2503832835669752933977395445201710963734335int);
    lemma_pow_step(2int, 8999194758858563409123804352480028797519453int, 7099112923733nat, 2503832835669752933977395445201710963734335int, 0nat, 14198225847466nat, 8628134469233516088100292086349344447489528int);
    lemma_pow_step(2int, 8999194758858563409123804352480028797519453int, 14198225847466nat, 8628134469233516088100292086349344447489528int, 1nat, 28396451694933nat, 268541234558032675187908159737225035077332int);
    lemma_pow_step(2int, 8999194758858563409123804352480028797519453int, 28396451694933nat, 268541234558032675187908159737225035077332int, 0nat, 56792903389866nat, 6881424111629893903934089152535019741142178int);
    lemma_pow_step(2int, 8999194758858563409123804352480028797519453int, 56792903389866nat, 6881424111629893903934089152535019741142178int, 1nat, 113585806779733nat, 8621808592695214779284385676131924053766254int);
    lemma_pow_step(2int, 8999194758858563409123804352480028797519453int, 113585806779733nat, 8621808592695214779284385676131924053766254int, 1nat, 227171613559467nat, 4306438393594496017788401966883269785858512int);
    lemma_pow_step(2int, 8999194758858563409123804352480028797519453int, 227171613559467nat, 4306438393594496017788401966883269785858512int, 0nat, 454343227118934nat, 7182804498059981656030673234255109961192112int);
    lemma_pow_step(2int, 8999194758858563409123804352480028797519453int, 454343227118934nat, 7182804498059981656030673234255109961192112int, 0nat, 908686454237868nat, 7855358458767583545995117163309232340342615int);
    lemma_pow_step(2int, 8999194758858563409123804352480028797519453int, 908686454237868nat, 7855358458767583545995117163309232340342615int, 1nat, 1817372908475737nat, 7651637675740726662217515786144837335465120int);
    lemma_pow_step(2int, 8999194758858563409123804352480028797519453int, 1817372908475737nat, 7651637675740726662217515786144837335465120int, 1nat, 3634745816951475nat, 4083796334606668435717011096347036343836395int);
    lemma_pow_step(2int, 8999194758858563409123804352480028797519453int, 3634745816951475nat, 4083796334606668435717011096347036343836395int, 1nat, 7269491633902951nat, 5398996117972909256946357177551842388222134int);
    lemma_pow_step(2int, 8999194758858563409123804352480028797519453int, 7269491633902951nat, 5398996117972909256946357177551842388222134int, 1nat, 14538983267805903nat, 1921334209740528314330727874420380093912648int);
    lemma_pow_step(2int, 8999194758858563409123804352480028797519453int, 14538983267805903nat, 1921334209740528314330727874420380093912648int, 1nat, 29077966535611807nat, 6339518589379865845211344185094362151725963int);
    lemma_pow_step(2int, 8999194758858563409123804352480028797519453int, 29077966535611807nat, 6339518589379865845211344185094362151725963int, 0nat, 58155933071223614nat, 6703925239942273373766167036869106065795865int);
    lemma_pow_step(2int, 8999194758858563409123804352480028797519453int, 58155933071223614nat, 6703925239942273373766167036869106065795865int, 0nat, 116311866142447228nat, 6115859989733457976912640457446520730231618int);
    lemma_pow_step(2int, 8999194758858563409123804352480028797519453int, 116311866142447228nat, 6115859989733457976912640457446520730231618int, 1nat, 232623732284894457nat, 4222996865945022968528752199290763986455322int);
    lemma_pow_step(2int, 8999194758858563409123804352480028797519453int, 232623732284894457nat, 4222996865945022968528752199290763986455322int, 1nat, 465247464569788915nat, 2194628787268659897303424144172776649912406int);
    lemma_pow_step(2int, 8999194758858563409123804352480028797519453int, 465247464569788915nat, 2194628787268659897303424144172776649912406int, 1nat, 930494929139577831nat, 434312882450395253690086312814479303023712int);
    lemma_pow_step(2int, 8999194758858563409123804352480028797519453int, 930494929139577831nat, 434312882450395253690086312814479303023712int, 1nat, 1860989858279155663nat, 7352868016799835485703326746980530681234197int);
    lemma_pow_step(2int, 8999194758858563409123804352480028797519453int, 1860989858279155663nat, 7352868016799835485703326746980530681234197int, 1nat, 3721979716558311327nat, 1466864426144165258900057789898924731285551int);
    lemma_pow_step(2int, 8999194758858563409123804352480028797519453int, 3721979716558311327nat, 1466864426144165258900057789898924731285551int, 1nat, 7443959433116622655nat, 4332714645171512506351418944160617034883622int);
    lemma_pow_step(2int, 8999194758858563409123804352480028797519453int, 7443959433116622655nat, 4332714645171512506351418944160617034883622int, 0nat, 14887918866233245310nat, 6217559018270090937806435134420125815021655int);
    lemma_pow_step(2int, 8999194758858563409123804352480028797519453int, 14887918866233245310nat, 6217559018270090937806435134420125815021655int, 1nat, 29775837732466490621nat, 8083048483733157693358821142877693900486823int);
    lemma_pow_step(2int, 8999194758858563409123804352480028797519453int, 29775837732466490621nat, 8083048483733157693358821142877693900486823int, 1nat, 59551675464932981243nat, 2560952135844810738130996496116707386235832int);
    lemma_pow_step(2int, 8999194758858563409123804352480028797519453int, 59551675464932981243nat, 2560952135844810738130996496116707386235832int, 0nat, 119103350929865962486nat, 2638390852556970753285640488673071762895828int);
    lemma_pow_step(2int, 8999194758858563409123804352480028797519453int, 119103350929865962486nat, 2638390852556970753285640488673071762895828int, 1nat, 238206701859731924973nat, 7519217574331387137130406416991530193519716int);
    lemma_pow_step(2int, 8999194758858563409123804352480028797519453int, 238206701859731924973nat, 7519217574331387137130406416991530193519716int, 0nat, 476413403719463849946nat, 5945763187120442848929643305204437482264136int);
    lemma_pow_step(2int, 8999194758858563409123804352480028797519453int, 476413403719463849946nat, 5945763187120442848929643305204437482264136int, 0nat, 952826807438927699892nat, 1961036732250323749144610183494989283413363int);
    lemma_pow_step(2int, 8999194758858563409123804352480028797519453int, 952826807438927699892nat, 1961036732250323749144610183494989283413363int, 0nat, 1905653614877855399784nat, 1158186157088624321333567136292370463838614int);
    lemma_pow_step(2int, 8999194758858563409123804352480028797519453int, 1905653614877855399784nat, 1158186157088624321333567136292370463838614int, 0nat, 3811307229755710799568nat, 8046015692504255437187526517300084254836170int);
    lemma_pow_step(2int, 8999194758858563409123804352480028797519453int, 3811307229755710799568nat, 8046015692504255437187526517300084254836170int, 0nat, 7622614459511421599136nat, 7342110444132866063943659042925870548405633int);
    lemma_pow_step(2int, 8999194758858563409123804352480028797519453int, 7622614459511421599136nat, 7342110444132866063943659042925870548405633int, 0nat, 15245228919022843198272nat, 5320142962480225473846124788406213724605468int);
    lemma_pow_step(2int, 8999194758858563409123804352480028797519453int, 15245228919022843198272nat, 5320142962480225473846124788406213724605468int, 0nat, 30490457838045686396544nat, 3058946465560470327925119566273965440498877int);
    lemma_pow_step(2int, 8999194758858563409123804352480028797519453int, 30490457838045686396544nat, 3058946465560470327925119566273965440498877int, 0nat, 60980915676091372793088nat, 6035614143856530407767922883570548326582036int);
    lemma_pow_step(2int, 8999194758858563409123804352480028797519453int, 60980915676091372793088nat, 6035614143856530407767922883570548326582036int, 1nat, 121961831352182745586177nat, 3115895060213872032445693971252984929711580int);
    lemma_pow_step(2int, 8999194758858563409123804352480028797519453int, 121961831352182745586177nat, 3115895060213872032445693971252984929711580int, 1nat, 243923662704365491172355nat, 8932526457508417708609299191014873350234706int);
    lemma_pow_step(2int, 8999194758858563409123804352480028797519453int, 243923662704365491172355nat, 8932526457508417708609299191014873350234706int, 0nat, 487847325408730982344710nat, 3388186970111534692810730901259542046228670int);
    lemma_pow_step(2int, 8999194758858563409123804352480028797519453int, 487847325408730982344710nat, 3388186970111534692810730901259542046228670int, 1nat, 975694650817461964689421nat, 2653768579091920557877692044269467468643225int);
    lemma_pow_step(2int, 8999194758858563409123804352480028797519453int, 975694650817461964689421nat, 2653768579091920557877692044269467468643225int, 1nat, 1951389301634923929378843nat, 7831889134936381214995509794261847435748804int);
    lemma_pow_step(2int, 8999194758858563409123804352480028797519453int, 1951389301634923929378843nat, 7831889134936381214995509794261847435748804int, 0nat, 3902778603269847858757686nat, 2262807017720388276871882164874239488893997int);
    lemma_pow_step(2int, 8999194758858563409123804352480028797519453int, 3902778603269847858757686nat, 2262807017720388276871882164874239488893997int, 0nat, 7805557206539695717515372nat, 4055013518210208808041292867929312093080694int);
    lemma_pow_step(2int, 8999194758858563409123804352480028797519453int, 7805557206539695717515372nat, 4055013518210208808041292867929312093080694int, 1nat, 15611114413079391435030745nat, 7452665395523594864474549927861253501282670int);
    lemma_pow_step(2int, 8999194758858563409123804352480028797519453int, 15611114413079391435030745nat, 7452665395523594864474549927861253501282670int, 0nat, 31222228826158782870061490nat, 6367556665518818992554240478881144858153423int);
    lemma_pow_step(2int, 8999194758858563409123804352480028797519453int, 31222228826158782870061490nat, 6367556665518818992554240478881144858153423int, 1nat, 62444457652317565740122981nat, 6615749807889939421990290322670374363373844int);
    lemma_pow_step(2int, 8999194758858563409123804352480028797519453int, 62444457652317565740122981nat, 6615749807889939421990290322670374363373844int, 0nat, 124888915304635131480245962nat, 4196566223050456584061975431033940242608221int);
    lemma_pow_step(2int, 8999194758858563409123804352480028797519453int, 124888915304635131480245962nat, 4196566223050456584061975431033940242608221int, 0nat, 249777830609270262960491924nat, 318033712081037875792198416296947725092665int);
    lemma_pow_step(2int, 8999194758858563409123804352480028797519453int, 249777830609270262960491924nat, 318033712081037875792198416296947725092665int, 1nat, 499555661218540525920983849nat, 3603549952642175135504835658245543672314905int);
    lemma_pow_step(2int, 8999194758858563409123804352480028797519453int, 499555661218540525920983849nat, 3603549952642175135504835658245543672314905int, 1nat, 999111322437081051841967699nat, 3763725717523345470718625789248078864977945int);
    lemma_pow_step(2int, 8999194758858563409123804352480028797519453int, 999111322437081051841967699nat, 3763725717523345470718625789248078864977945int, 1nat, 1998222644874162103683935399nat, 3177944516490153305175385395553464154884756int);
    lemma_pow_step(2int, 8999194758858563409123804352480028797519453int, 1998222644874162103683935399nat, 3177944516490153305175385395553464154884756int, 0nat, 3996445289748324207367870798nat, 8399865981502051091268971512793077983926235int);
    lemma_pow_step(2int, 8999194758858563409123804352480028797519453int, 3996445289748324207367870798nat, 8399865981502051091268971512793077983926235int, 0nat, 7992890579496648414735741596nat, 283334509243272145148348782998085416669186int);
    lemma_pow_step(2int, 8999194758858563409123804352480028797519453int, 7992890579496648414735741596nat, 283334509243272145148348782998085416669186int, 1nat, 15985781158993296829471483193nat, 4236120866234455303384800310161037181961434int);
    lemma_pow_step(2int, 8999194758858563409123804352480028797519453int, 15985781158993296829471483193nat, 4236120866234455303384800310161037181961434int, 1nat, 31971562317986593658942966387nat, 4384052705183122746389261843888294195710755int);
    lemma_pow_step(2int, 8999194758858563409123804352480028797519453int, 31971562317986593658942966387nat, 4384052705183122746389261843888294195710755int, 0nat, 63943124635973187317885932774nat, 7700793961066711869987632597809424362898830int);
    lemma_pow_step(2int, 8999194758858563409123804352480028797519453int, 63943124635973187317885932774nat, 7700793961066711869987632597809424362898830int, 0nat, 127886249271946374635771865548nat, 4989808176094434970792706401219407388081266int);
    lemma_pow_step(2int, 8999194758858563409123804352480028797519453int, 127886249271946374635771865548nat, 4989808176094434970792706401219407388081266int, 1nat, 255772498543892749271543731097nat, 7793778198993794304206512710953401360438880int);
    lemma_pow_step(2int, 8999194758858563409123804352480028797519453int, 255772498543892749271543731097nat, 7793778198993794304206512710953401360438880int, 0nat, 511544997087785498543087462194nat, 1776600030151572702683494285744354956008741int);
    lemma_pow_step(2int, 8999194758858563409123804352480028797519453int, 511544997087785498543087462194nat, 1776600030151572702683494285744354956008741int, 0nat, 1023089994175570997086174924388nat, 5854367633938663113455747179031753485460988int);
    lemma_pow_step(2int, 8999194758858563409123804352480028797519453int, 1023089994175570997086174924388nat, 5854367633938663113455747179031753485460988int, 1nat, 2046179988351141994172349848777nat, 1713755164170912737212673422802924770239751int);
    lemma_pow_step(2int, 8999194758858563409123804352480028797519453int, 2046179988351141994172349848777nat, 1713755164170912737212673422802924770239751int, 0nat, 4092359976702283988344699697554nat, 2417217662470797782626681585060478922606245int);
    lemma_pow_step(2int, 8999194758858563409123804352480028797519453int, 4092359976702283988344699697554nat, 2417217662470797782626681585060478922606245int, 0nat, 8184719953404567976689399395108nat, 2595934829232773500803421559383305858152863int);
    lemma_pow_step(2int, 8999194758858563409123804352480028797519453int, 8184719953404567976689399395108nat, 2595934829232773500803421559383305858152863int, 1nat, 16369439906809135953378798790217nat, 7528974757760639080950213142991458676369424int);
    lemma_pow_step(2int, 8999194758858563409123804352480028797519453int, 16369439906809135953378798790217nat, 7528974757760639080950213142991458676369424int, 1nat, 32738879813618271906757597580435nat, 4575303409973613042364096685713056209637189int);
    lemma_pow_step(2int, 8999194758858563409123804352480028797519453int, 32738879813618271906757597580435nat, 4575303409973613042364096685713056209637189int, 1nat, 65477759627236543813515195160871nat, 6135864546140243881625099863438400061900788int);
    lemma_pow_step(2int, 8999194758858563409123804352480028797519453int, 65477759627236543813515195160871nat, 6135864546140243881625099863438400061900788int, 1nat, 130955519254473087627030390321743nat, 6209961490824965256889834761547903014953359int);
    lemma_pow_step(2int, 8999194758858563409123804352480028797519453int, 130955519254473087627030390321743nat, 6209961490824965256889834761547903014953359int, 0nat, 261911038508946175254060780643486nat, 4797038448746477474546087862696109233926442int);
    lemma_pow_step(2int, 8999194758858563409123804352480028797519453int, 261911038508946175254060780643486nat, 4797038448746477474546087862696109233926442int, 0nat, 523822077017892350508121561286972nat, 7060550253400634379792582303321615396053493int);
    lemma_pow_step(2int, 8999194758858563409123804352480028797519453int, 523822077017892350508121561286972nat, 7060550253400634379792582303321615396053493int, 1nat, 1047644154035784701016243122573945nat, 3586554893248446881566139284211651907410352int);
    lemma_pow_step(2int, 8999194758858563409123804352480028797519453int, 1047644154035784701016243122573945nat, 3586554893248446881566139284211651907410352int, 0nat, 2095288308071569402032486245147890nat, 5212928196240823485544112593118186760343950int);
    lemma_pow_step(2int, 8999194758858563409123804352480028797519453int, 2095288308071569402032486245147890nat, 5212928196240823485544112593118186760343950int, 1nat, 4190576616143138804064972490295781nat, 7247155113005047451439604650305535484053283int);
    lemma_pow_step(2int, 8999194758858563409123804352480028797519453int, 4190576616143138804064972490295781nat, 7247155113005047451439604650305535484053283int, 0nat, 8381153232286277608129944980591562nat, 6475604194336744869505793779631185088830148int);
    lemma_pow_step(2int, 8999194758858563409123804352480028797519453int, 8381153232286277608129944980591562nat, 6475604194336744869505793779631185088830148int, 0nat, 16762306464572555216259889961183124nat, 3817459604493073495857791303402170324298662int);
    lemma_pow_step(2int, 8999194758858563409123804352480028797519453int, 16762306464572555216259889961183124nat, 3817459604493073495857791303402170324298662int, 1nat, 33524612929145110432519779922366249nat, 565041525024883412217207018324279866583984int);
    lemma_pow_step(2int, 8999194758858563409123804352480028797519453int, 33524612929145110432519779922366249nat, 565041525024883412217207018324279866583984int, 1nat, 67049225858290220865039559844732499nat, 383133720139996778243619889271338559215062int);
    lemma_pow_step(2int, 8999194758858563409123804352480028797519453int, 67049225858290220865039559844732499nat, 383133720139996778243619889271338559215062int, 0nat, 134098451716580441730079119689464998nat, 6013554364960079164389145236048122045378396int);
    lemma_pow_step(2int, 8999194758858563409123804352480028797519453int, 134098451716580441730079119689464998nat, 6013554364960079164389145236048122045378396int, 0nat, 268196903433160883460158239378929996nat, 8082926129800110735695321987296228243890186int);
    lemma_pow_step(2int, 8999194758858563409123804352480028797519453int, 268196903433160883460158239378929996nat, 8082926129800110735695321987296228243890186int, 0nat, 536393806866321766920316478757859992nat, 5177923967369040443006992028812463969199318int);
    lemma_pow_step(2int, 8999194758858563409123804352480028797519453int, 536393806866321766920316478757859992nat, 5177923967369040443006992028812463969199318int, 1nat, 1072787613732643533840632957515719985nat, 8094403997166394421025581951243092515420673int);
    lemma_pow_step(2int, 8999194758858563409123804352480028797519453int, 1072787613732643533840632957515719985nat, 8094403997166394421025581951243092515420673int, 1nat, 2145575227465287067681265915031439971nat, 6116187861409368478872639709536217827527516int);
    lemma_pow_step(2int, 8999194758858563409123804352480028797519453int, 2145575227465287067681265915031439971nat, 6116187861409368478872639709536217827527516int, 0nat, 4291150454930574135362531830062879942nat, 882542801450764830079248244034154245837703int);
    lemma_pow_step(2int, 8999194758858563409123804352480028797519453int, 4291150454930574135362531830062879942nat, 882542801450764830079248244034154245837703int, 1nat, 8582300909861148270725063660125759885nat, 3779511554941210732375391907409258323950851int);
    lemma_pow_step(2int, 8999194758858563409123804352480028797519453int, 8582300909861148270725063660125759885nat, 3779511554941210732375391907409258323950851int, 0nat, 17164601819722296541450127320251519770nat, 3082867903382292244920187481631791143458169int);
    lemma_pow_step(2int, 8999194758858563409123804352480028797519453int, 17164601819722296541450127320251519770nat, 3082867903382292244920187481631791143458169int, 1nat, 34329203639444593082900254640503039541nat, 8886412411701869602521719583387802864905374int);
    lemma_pow_step(2int, 8999194758858563409123804352480028797519453int, 34329203639444593082900254640503039541nat, 8886412411701869602521719583387802864905374int, 0nat, 68658407278889186165800509281006079082nat, 5335427808663415434631802318374780638064597int);
    lemma_pow_step(2int, 8999194758858563409123804352480028797519453int, 68658407278889186165800509281006079082nat, 5335427808663415434631802318374780638064597int, 1nat, 137316814557778372331601018562012158165nat, 8890839365666414139601500094970471456886106int);
    lemma_pow_step(2int, 8999194758858563409123804352480028797519453int, 137316814557778372331601018562012158165nat, 8890839365666414139601500094970471456886106int, 0nat, 274633629115556744663202037124024316330nat, 3803793386098449867597963078870411795496374int);
    lemma_pow_step(2int, 8999194758858563409123804352480028797519453int, 274633629115556744663202037124024316330nat, 3803793386098449867597963078870411795496374int, 1nat, 549267258231113489326404074248048632661nat, 6635180604161992162244440564772168422695983int);
    lemma_pow_step(2int, 8999194758858563409123804352480028797519453int, 549267258231113489326404074248048632661nat, 6635180604161992162244440564772168422695983int, 0nat, 1098534516462226978652808148496097265322nat, 7829329186959376398384018632354293006714062int);
    lemma_pow_step(2int, 8999194758858563409123804352480028797519453int, 1098534516462226978652808148496097265322nat, 7829329186959376398384018632354293006714062int, 0nat, 2197069032924453957305616296992194530644nat, 2500521856348211860536856880779884347615222int);
    lemma_pow_step(2int, 8999194758858563409123804352480028797519453int, 2197069032924453957305616296992194530644nat, 2500521856348211860536856880779884347615222int, 0nat, 4394138065848907914611232593984389061288nat, 5290805280091859767664854688260208825139248int);
    lemma_pow_step(2int, 8999194758858563409123804352480028797519453int, 4394138065848907914611232593984389061288nat, 5290805280091859767664854688260208825139248int, 1nat, 8788276131697815829222465187968778122577nat, 1818872030855439674655952459215294152773653int);
    lemma_pow_step(2int, 8999194758858563409123804352480028797519453int, 8788276131697815829222465187968778122577nat, 1818872030855439674655952459215294152773653int, 1nat, 17576552263395631658444930375937556245155nat, 259504401667409016488741717199400531095629int);
    lemma_pow_step(2int, 8999194758858563409123804352480028797519453int, 17576552263395631658444930375937556245155nat, 259504401667409016488741717199400531095629int, 0nat, 35153104526791263316889860751875112490310nat, 2589773800772394210768683292353091132495243int);
    lemma_pow_step(2int, 8999194758858563409123804352480028797519453int, 35153104526791263316889860751875112490310nat, 2589773800772394210768683292353091132495243int, 0nat, 70306209053582526633779721503750224980620nat, 6116318975208107201873488613055444618782595int);
    lemma_pow_step(2int, 8999194758858563409123804352480028797519453int, 70306209053582526633779721503750224980620nat, 6116318975208107201873488613055444618782595int, 1nat, 140612418107165053267559443007500449961241nat, 4015746265519310685288771613313225257976431int);
    lemma_pow_step(2int, 8999194758858563409123804352480028797519453int, 140612418107165053267559443007500449961241nat, 4015746265519310685288771613313225257976431int, 0nat, 281224836214330106535118886015000899922482nat, 7351102255527464935749443109884466266057003int);
    lemma_pow_step(2int, 8999194758858563409123804352480028797519453int, 281224836214330106535118886015000899922482nat, 7351102255527464935749443109884466266057003int, 1nat, 562449672428660213070237772030001799844965nat, 525803144300442167649739652909651052733851int);
    lemma_pow_step(2int, 8999194758858563409123804352480028797519453int, 562449672428660213070237772030001799844965nat, 525803144300442167649739652909651052733851int, 1nat, 1124899344857320426140475544060003599689931nat, 7293817588728300193236654986933533586298411int);
    lemma_pow_step(2int, 8999194758858563409123804352480028797519453int, 1124899344857320426140475544060003599689931nat, 7293817588728300193236654986933533586298411int, 1nat, 2249798689714640852280951088120007199379863nat, 5588440418598036977349505621387038375077368int);
    lemma_pow_step(2int, 8999194758858563409123804352480028797519453int, 2249798689714640852280951088120007199379863nat, 5588440418598036977349505621387038375077368int, 0nat, 4499597379429281704561902176240014398759726nat, 8999194758858563409123804352480028797519452int);
    lemma_pow_step(2int, 8999194758858563409123804352480028797519453int, 4499597379429281704561902176240014398759726nat, 8999194758858563409123804352480028797519452int, 0nat, 8999194758858563409123804352480028797519452nat, 1int);
}

/// `2^4499597379429281704561902176240014398759726` modulo `8999194758858563409123804352480028797519453`, by square-and-multiply.
proof fn lemma_pow_8999194758858563409123804352480028797519453_by_2()
    ensures
        pow(2int, 4499597379429281704561902176240014398759726nat) % 8999194758858563409123804352480028797519453int == 8999194758858563409123804352480028797519452int,
{
    lemma_pow_start(2int, 8999194758858563409123804352480028797519453int, 2int);
    lemma_pow_step(2int, 8999194758858563409123804352480028797519453int, 1nat, 2int, 1nat, 3nat, 8int);
    lemma_pow_step(2int, 8999194758858563409123804352480028797519453int, 3nat, 8int, 0nat, 6nat, 64int);
    lemma_pow_step(2int, 8999194758858563409123804352480028797519453int, 6nat, 64int, 0nat, 12nat, 4096int);
    lemma_pow_step(2int, 8999194758858563409123804352480028797519453int, 12nat, 4096int, 1nat, 25nat, 33554432int);
    lemma_pow_step(2int, 8999194758858563409123804352480028797519453int, 25nat, 33554432int, 1nat, 51nat, 2251799813685248int);
    lemma_pow_step(2int, 8999194758858563409123804352480028797519453int, 51nat, 2251799813685248int, 1nat, 103nat, 10141204801825835211973625643008int);
    lemma_pow_step(2int, 8999194758858563409123804352480028797519453int, 103nat, 10141204801825835211973625643008int, 0nat, 206nat, 7164779433181202132984083589311166673079229int);
    lemma_pow_step(2int, 8999194758858563409123804352480028797519453int, 206nat, 7164779433181202132984083589311166673079229int, 1nat, 413nat, 2459981178477193296520569386428594541524152int);
    lemma_pow_step(2int, 8999194758858563409123804352480028797519453int, 413nat, 2459981178477193296520569386428594541524152int, 0nat, 826nat, 1308107620358511851410016461971016128436287int);
    lemma_pow_step(2int, 8999194758858563409123804352480028797519453int, 826nat, 1308107620358511851410016461971016128436287int, 0nat, 1652nat, 1695853774343622292716505020150505751333709int);
    lemma_pow_step(2int, 8999194758858563409123804352480028797519453int, 1652nat, 1695853774343622292716505020150505751333709int, 1nat, 3305nat, 1534263023659581408032911728436503038803543int);
    lemma_pow_step(2int, 8999194758858563409123804352480028797519453int, 3305nat, 1534263023659581408032911728436503038803543int, 1nat, 6611nat, 240631900803225875881617280673289815721462int);
    lemma_pow_step(2int, 8999194758858563409123804352480028797519453int, 6611nat, 240631900803225875881617280673289815721462int, 1nat, 13223nat, 2702430857426408894077315896973461923687003int);
    lemma_pow_step(2int, 8999194758858563409123804352480028797519453int, 13223nat, 2702430857426408894077315896973461923687003int, 0nat, 26446nat, 1573975102500301266025239562487581874475310int);
    lemma_pow_step(2int, 8999194758858563409123804352480028797519453int, 26446nat, 1573975102500301266025239562487581874475310int, 0nat, 52892nat, 199786165578073055702281549034437664869765int);
    lemma_pow_step(2int, 8999194758858563409123804352480028797519453int, 52892nat, 199786165578073055702281549034437664869765int, 1nat, 105785nat, 4650111059079371959858171194054193344627830int);
    lemma_pow_step(2int, 8999194758858563409123804352480028797519453int, 105785nat, 4650111059079371959858171194054193344627830int, 0nat, 211570nat, 7746295218290841931374542428056613111331429int);
    lemma_pow_step(2int, 8999194758858563409123804352480028797519453int, 211570nat, 7746295218290841931374542428056613111331429int, 0nat, 423140nat, 2464007142118378785351983688072735125273515int);
    lemma_pow_step(2int, 8999194758858563409123804352480028797519453int, 423140nat, 2464007142118378785351983688072735125273515int, 0nat, 846280nat, 7339047416268902400009321075595028582823630int);
    lemma_pow_step(2int, 8999194758858563409123804352480028797519453int, 846280nat, 7339047416268902400009321075595028582823630int, 0nat, 1692560nat, 6189933497996905254522426892532496539332000int);
    lemma_pow_step(2int, 8999194758858563409123804352480028797519453int, 1692560nat, 6189933497996905254522426892532496539332000int, 0nat, 3385120nat, 1566915189858695986268821444678748642450084int);
    lemma_pow_step(2int, 8999194758858563409123804352480028797519453int, 3385120nat, 1566915189858695986268821444678748642450084int, 1nat, 6770241nat, 3606087258654208999163034359452440223977818int);
    lemma_pow_step(2int, 8999194758858563409123804352480028797519453int, 6770241nat, 3606087258654208999163034359452440223977818int, 1nat, 13540483nat, 8221095272271032214487271964704387838963359int);
    lemma_pow_step(2int, 8999194758858563409123804352480028797519453int, 13540483nat, 8221095272271032214487271964704387838963359int, 0nat, 27080966nat, 4055211683610503885472672500064972243070281int);
    lemma_pow_step(2int, 8999194758858563409123804352480028797519453int, 27080966nat, 4055211683610503885472672500064972243070281int, 1nat, 54161933nat, 1431334360408409268552604298403229290375018int);
    lemma_pow_step(2int, 8999194758858563409123804352480028797519453int, 54161933nat, 1431334360408409268552604298403229290375018int, 0nat, 108323866nat, 3639651947646228585299704463256319463304719int);
    lemma_pow_step(2int, 8999194758858563409123804352480028797519453int, 108323866nat, 3639651947646228585299704463256319463304719int, 1nat, 216647733nat, 5358763975395108000917687285986923365630875int);
    lemma_pow_step(2int, 8999194758858563409123804352480028797519453int, 216647733nat, 5358763975395108000917687285986923365630875int, 0nat, 433295466nat, 4040882098996242807794631523410899885074808int);
    lemma_pow_step(2int, 8999194758858563409123804352480028797519453int, 433295466nat, 4040882098996242807794631523410899885074808int, 1nat, 866590933nat, 6904328357513493228425127162150344448253572int);
    lemma_pow_step(2int, 8999194758858563409123804352480028797519453int, 866590933nat, 6904328357513493228425127162150344448253572int, 0nat, 1733181866nat, 8427359699468330561604119204164169338202036int);
    lemma_pow_step(2int, 8999194758858563409123804352480028797519453int, 1733181866nat, 8427359699468330561604119204164169338202036int, 0nat, 3466363732nat, 2961281692069712385347152213773073143116151int);
    lemma_pow_step(2int, 8999194758858563409123804352480028797519453int, 3466363732nat, 2961281692069712385347152213773073143116151int, 0nat, 6932727464nat, 7783140961557550526619203431361160520203778int);
    lemma_pow_step(2int, 8999194758858563409123804352480028797519453int, 6932727464nat, 7783140961557550526619203431361160520203778int, 1nat, 13865454929nat, 5698685479677321145373949810675749407471075int);
    lemma_pow_step(2int, 8999194758858563409123804352480028797519453int, 13865454929nat, 5698685479677321145373949810675749407471075int, 0nat, 27730909858nat, 108580318754175017979138856899336629664675int);
    lemma_pow_step(2int, 8999194758858563409123804352480028797519453int, 27730909858nat, 108580318754175017979138856899336629664675int, 0nat, 55461819716nat, 5948607912723465853152155599608302004187151int);
    lemma_pow_step(2int, 8999194758858563409123804352480028797519453int, 55461819716nat, 5948607912723465853152155599608302004187151int, 1nat, 110923639433nat, 945252160041078767982488697146037075294284int);
    lemma_pow_step(2int, 8999194758858563409123804352480028797519453int, 110923639433nat, 945252160041078767982488697146037075294284int, 0nat, 221847278866nat, 3267799151747815130886524040286775421108575int);
    lemma_pow_step(2int, 8999194758858563409123804352480028797519453int, 221847278866nat, 3267799151747815130886524040286775421108575int, 1nat, 443694557733nat, 304083634690657532383713718921091330083807int);
    lemma_pow_step(2int, 8999194758858563409123804352480028797519453int, 443694557733nat, 304083634690657532383713718921091330083807int, 0nat, 887389115466nat, 8996731265234546691093844162226785692570835int);
    lemma_pow_step(2int, 8999194758858563409123804352480028797519453int, 887389115466nat, 8996731265234546691093844162226785692570835int, 1nat, 1774778230933nat, 5141787104711494679592623093872947220537421int);
    lemma_pow_step(2int, 8999194758858563409123804352480028797519453int, 1774778230933nat, 5141787104711494679592623093872947220537421int, 0nat, 3549556461866nat, 7122178197123875993252810983716428553119799int);
    lemma_pow_step(2int, 8999194758858563409123804352480028797519453int, 3549556461866nat, 7122178197123875993252810983716428553119799int, 1nat, 7099112923733nat, 2503832835669752933977395445201710963734335int);
    lemma_pow_step(2int, 8999194758858563409123804352480028797519453int, 7099112923733nat, 2503832835669752933977395445201710963734335int, 0nat, 14198225847466nat, 8628134469233516088100292086349344447489528int);
    lemma_pow_step(2int, 8999194758858563409123804352480028797519453int, 14198225847466nat, 8628134469233516088100292086349344447489528int, 1nat, 28396451694933nat, 268541234558032675187908159737225035077332int);
    lemma_pow_step(2int, 8999194758858563409123804352480028797519453int, 28396451694933nat, 268541234558032675187908159737225035077332int, 0nat, 56792903389866nat, 6881424111629893903934089152535019741142178int);
    lemma_pow_step(2int, 8999194758858563409123804352480028797519453int, 56792903389866nat, 6881424111629893903934089152535019741142178int, 1nat, 113585806779733nat, 8621808592695214779284385676131924053766254int);
    lemma_pow_step(2int, 8999194758858563409123804352480028797519453int, 113585806779733nat, 8621808592695214779284385676131924053766254int, 1nat, 227171613559467nat, 4306438393594496017788401966883269785858512int);
    lemma_pow_step(2int, 8999194758858563409123804352480028797519453int, 227171613559467nat, 4306438393594496017788401966883269785858512int, 0nat, 454343227118934nat, 7182804498059981656030673234255109961192112int);
    lemma_pow_step(2int, 8999194758858563409123804352480028797519453int, 454343227118934nat, 7182804498059981656030673234255109961192112int, 0nat, 908686454237868nat, 7855358458767583545995117163309232340342615int);
    lemma_pow_step(2int, 8999194758858563409123804352480028797519453int, 908686454237868nat, 7855358458767583545995117163309232340342615int, 1nat, 1817372908475737nat, 7651637675740726662217515786144837335465120int);
    lemma_pow_step(2int, 8999194758858563409123804352480028797519453int, 1817372908475737nat, 7651637675740726662217515786144837335465120int, 1nat, 3634745816951475nat, 4083796334606668435717011096347036343836395int);
    lemma_pow_step(2int, 8999194758858563409123804352480028797519453int, 3634745816951475nat, 4083796334606668435717011096347036343836395int, 1nat, 7269491633902951nat, 5398996117972909256946357177551842388222134int);
    lemma_pow_step(2int, 8999194758858563409123804352480028797519453int, 7269491633902951nat, 5398996117972909256946357177551842388222134int, 1nat, 14538983267805903nat, 1921334209740528314330727874420380093912648int);
    lemma_pow_step(2int, 8999194758858563409123804352480028797519453int, 14538983267805903nat, 1921334209740528314330727874420380093912648int, 1nat, 29077966535611807nat, 6339518589379865845211344185094362151725963int);
    lemma_pow_step(2int, 8999194758858563409123804352480028797519453int, 29077966535611807nat, 6339518589379865845211344185094362151725963int, 0nat, 58155933071223614nat, 6703925239942273373766167036869106065795865int);
    lemma_pow_step(2int, 8999194758858563409123804352480028797519453int, 58155933071223614nat, 6703925239942273373766167036869106065795865int, 0nat, 116311866142447228nat, 6115859989733457976912640457446520730231618int);
    lemma_pow_step(2int, 8999194758858563409123804352480028797519453int, 116311866142447228nat, 6115859989733457976912640457446520730231618int, 1nat, 232623732284894457nat, 4222996865945022968528752199290763986455322int);
    lemma_pow_step(2int, 8999194758858563409123804352480028797519453int, 232623732284894457nat, 4222996865945022968528752199290763986455322int, 1nat, 465247464569788915nat, 2194628787268659897303424144172776649912406int);
    lemma_pow_step(2int, 8999194758858563409123804352480028797519453int, 465247464569788915nat, 2194628787268659897303424144172776649912406int, 1nat, 930494929139577831nat, 434312882450395253690086312814479303023712int);
    lemma_pow_step(2int, 8999194758858563409123804352480028797519453int, 930494929139577831nat, 434312882450395253690086312814479303023712int, 1nat, 1860989858279155663nat, 7352868016799835485703326746980530681234197int);
    lemma_pow_step(2int, 8999194758858563409123804352480028797519453int, 1860989858279155663nat, 7352868016799835485703326746980530681234197int, 1nat, 3721979716558311327nat, 1466864426144165258900057789898924731285551int);
    lemma_pow_step(2int, 8999194758858563409123804352480028797519453int, 3721979716558311327nat, 1466864426144165258900057789898924731285551int, 1nat, 7443959433116622655nat, 4332714645171512506351418944160617034883622int);
    lemma_pow_step(2int, 8999194758858563409123804352480028797519453int, 7443959433116622655nat, 4332714645171512506351418944160617034883622int, 0nat, 14887918866233245310nat, 6217559018270090937806435134420125815021655int);
    lemma_pow_step(2int, 8999194758858563409123804352480028797519453int, 14887918866233245310nat, 6217559018270090937806435134420125815021655int, 1nat, 29775837732466490621nat, 8083048483733157693358821142877693900486823int);
    lemma_pow_step(2int, 8999194758858563409123804352480028797519453int, 29775837732466490621nat, 8083048483733157693358821142877693900486823int, 1nat, 59551675464932981243nat, 2560952135844810738130996496116707386235832int);
    lemma_pow_step(2int, 8999194758858563409123804352480028797519453int, 59551675464932981243nat, 2560952135844810738130996496116707386235832int, 0nat, 119103350929865962486nat, 2638390852556970753285640488673071762895828int);
    lemma_pow_step(2int, 8999194758858563409123804352480028797519453int, 119103350929865962486nat, 2638390852556970753285640488673071762895828int, 1nat, 238206701859731924973nat, 7519217574331387137130406416991530193519716int);
    lemma_pow_step(2int, 8999194758858563409123804352480028797519453int, 238206701859731924973nat, 7519217574331387137130406416991530193519716int, 0nat, 476413403719463849946nat, 5945763187120442848929643305204437482264136int);
    lemma_pow_step(2int, 8999194758858563409123804352480028797519453int, 476413403719463849946nat, 5945763187120442848929643305204437482264136int, 0nat, 952826807438927699892nat, 1961036732250323749144610183494989283413363int);
    lemma_pow_step(2int, 8999194758858563409123804352480028797519453int, 952826807438927699892nat, 1961036732250323749144610183494989283413363int, 0nat, 1905653614877855399784nat, 1158186157088624321333567136292370463838614int);
    lemma_pow_step(2int, 8999194758858563409123804352480028797519453int, 1905653614877855399784nat, 1158186157088624321333567136292370463838614int, 0nat, 3811307229755710799568nat, 8046015692504255437187526517300084254836170int);
    lemma_pow_step(2int, 8999194758858563409123804352480028797519453int, 3811307229755710799568nat, 8046015692504255437187526517300084254836170int, 0nat, 7622614459511421599136nat, 7342110444132866063943659042925870548405633int);
    lemma_pow_step(2int, 8999194758858563409123804352480028797519453int, 7622614459511421599136nat, 7342110444132866063943659042925870548405633int, 0nat, 15245228919022843198272nat, 5320142962480225473846124788406213724605468int);
    lemma_pow_step(2int, 8999194758858563409123804352480028797519453int, 15245228919022843198272nat, 5320142962480225473846124788406213724605468int, 0nat, 30490457838045686396544nat, 3058946465560470327925119566273965440498877int);
    lemma_pow_step(2int, 8999194758858563409123804352480028797519453int, 30490457838045686396544nat, 3058946465560470327925119566273965440498877int, 0nat, 60980915676091372793088nat, 6035614143856530407767922883570548326582036int);
    lemma_pow_step(2int, 8999194758858563409123804352480028797519453int, 60980915676091372793088nat, 6035614143856530407767922883570548326582036int, 1nat, 121961831352182745586177nat, 3115895060213872032445693971252984929711580int);
    lemma_pow_step(2int, 8999194758858563409123804352480028797519453int, 121961831352182745586177nat, 3115895060213872032445693971252984929711580int, 1nat, 243923662704365491172355nat, 8932526457508417708609299191014873350234706int);
    lemma_pow_step(2int, 8999194758858563409123804352480028797519453int, 243923662704365491172355nat, 8932526457508417708609299191014873350234706int, 0nat, 487847325408730982344710nat, 3388186970111534692810730901259542046228670int);
    lemma_pow_step(2int, 8999194758858563409123804352480028797519453int, 487847325408730982344710nat, 3388186970111534692810730901259542046228670int, 1nat, 975694650817461964689421nat, 2653768579091920557877692044269467468643225int);
    lemma_pow_step(2int, 8999194758858563409123804352480028797519453int, 975694650817461964689421nat, 2653768579091920557877692044269467468643225int, 1nat, 1951389301634923929378843nat, 7831889134936381214995509794261847435748804int);
    lemma_pow_step(2int, 8999194758858563409123804352480028797519453int, 1951389301634923929378843nat, 7831889134936381214995509794261847435748804int, 0nat, 3902778603269847858757686nat, 2262807017720388276871882164874239488893997int);
    lemma_pow_step(2int, 8999194758858563409123804352480028797519453int, 3902778603269847858757686nat, 2262807017720388276871882164874239488893997int, 0nat, 7805557206539695717515372nat, 4055013518210208808041292867929312093080694int);
    lemma_pow_step(2int, 8999194758858563409123804352480028797519453int, 7805557206539695717515372nat, 4055013518210208808041292867929312093080694int, 1nat, 15611114413079391435030745nat, 7452665395523594864474549927861253501282670int);
    lemma_pow_step(2int, 8999194758858563409123804352480028797519453int, 15611114413079391435030745nat, 7452665395523594864474549927861253501282670int, 0nat, 31222228826158782870061490nat, 6367556665518818992554240478881144858153423int);
    lemma_pow_step(2int, 8999194758858563409123804352480028797519453int, 31222228826158782870061490nat, 6367556665518818992554240478881144858153423int, 1nat, 62444457652317565740122981nat, 6615749807889939421990290322670374363373844int);
    lemma_pow_step(2int, 8999194758858563409123804352480028797519453int, 62444457652317565740122981nat, 6615749807889939421990290322670374363373844int, 0nat, 124888915304635131480245962nat, 4196566223050456584061975431033940242608221int);
    lemma_pow_step(2int, 8999194758858563409123804352480028797519453int, 124888915304635131480245962nat, 4196566223050456584061975431033940242608221int, 0nat, 249777830609270262960491924nat, 318033712081037875792198416296947725092665int);
    lemma_pow_step(2int, 8999194758858563409123804352480028797519453int, 249777830609270262960491924nat, 318033712081037875792198416296947725092665int, 1nat, 499555661218540525920983849nat, 3603549952642175135504835658245543672314905int);
    lemma_pow_step(2int, 8999194758858563409123804352480028797519453int, 499555661218540525920983849nat, 3603549952642175135504835658245543672314905int, 1nat, 999111322437081051841967699nat, 3763725717523345470718625789248078864977945int);
    lemma_pow_step(2int, 8999194758858563409123804352480028797519453int, 999111322437081051841967699nat, 3763725717523345470718625789248078864977945int, 1nat, 1998222644874162103683935399nat, 3177944516490153305175385395553464154884756int);
    lemma_pow_step(2int, 8999194758858563409123804352480028797519453int, 1998222644874162103683935399nat, 3177944516490153305175385395553464154884756int, 0nat, 3996445289748324207367870798nat, 8399865981502051091268971512793077983926235int);
    lemma_pow_step(2int, 8999194758858563409123804352480028797519453int, 3996445289748324207367870798nat, 8399865981502051091268971512793077983926235int, 0nat, 7992890579496648414735741596nat, 283334509243272145148348782998085416669186int);
    lemma_pow_step(2int, 8999194758858563409123804352480028797519453int, 7992890579496648414735741596nat, 283334509243272145148348782998085416669186int, 1nat, 15985781158993296829471483193nat, 4236120866234455303384800310161037181961434int);
    lemma_pow_step(2int, 8999194758858563409123804352480028797519453int, 15985781158993296829471483193nat, 4236120866234455303384800310161037181961434int, 1nat, 31971562317986593658942966387nat, 4384052705183122746389261843888294195710755int);
    lemma_pow_step(2int, 8999194758858563409123804352480028797519453int, 31971562317986593658942966387nat, 4384052705183122746389261843888294195710755int, 0nat, 63943124635973187317885932774nat, 7700793961066711869987632597809424362898830int);
    lemma_pow_step(2int, 8999194758858563409123804352480028797519453int, 63943124635973187317885932774nat, 7700793961066711869987632597809424362898830int, 0nat, 127886249271946374635771865548nat, 4989808176094434970792706401219407388081266int);
    lemma_pow_step(2int, 8999194758858563409123804352480028797519453int, 127886249271946374635771865548nat, 4989808176094434970792706401219407388081266int, 1nat, 255772498543892749271543731097nat, 7793778198993794304206512710953401360438880int);
    lemma_pow_step(2int, 8999194758858563409123804352480028797519453int, 255772498543892749271543731097nat, 7793778198993794304206512710953401360438880int, 0nat, 511544997087785498543087462194nat, 1776600030151572702683494285744354956008741int);
    lemma_pow_step(2int, 8999194758858563409123804352480028797519453int, 511544997087785498543087462194nat, 1776600030151572702683494285744354956008741int, 0nat, 1023089994175570997086174924388nat, 5854367633938663113455747179031753485460988int);
    lemma_pow_step(2int, 8999194758858563409123804352480028797519453int, 1023089994175570997086174924388nat, 5854367633938663113455747179031753485460988int, 1nat, 2046179988351141994172349848777nat, 1713755164170912737212673422802924770239751int);
    lemma_pow_step(2int, 8999194758858563409123804352480028797519453int, 2046179988351141994172349848777nat, 1713755164170912737212673422802924770239751int, 0nat, 4092359976702283988344699697554nat, 2417217662470797782626681585060478922606245int);
    lemma_pow_step(2int, 8999194758858563409123804352480028797519453int, 4092359976702283988344699697554nat, 2417217662470797782626681585060478922606245int, 0nat, 8184719953404567976689399395108nat, 2595934829232773500803421559383305858152863int);
    lemma_pow_step(2int, 8999194758858563409123804352480028797519453int, 8184719953404567976689399395108nat, 2595934829232773500803421559383305858152863int, 1nat, 16369439906809135953378798790217nat, 7528974757760639080950213142991458676369424int);
    lemma_pow_step(2int, 8999194758858563409123804352480028797519453int, 16369439906809135953378798790217nat, 7528974757760639080950213142991458676369424int, 1nat, 32738879813618271906757597580435nat, 4575303409973613042364096685713056209637189int);
    lemma_pow_step(2int, 8999194758858563409123804352480028797519453int, 32738879813618271906757597580435nat, 4575303409973613042364096685713056209637189int, 1nat, 65477759627236543813515195160871nat, 6135864546140243881625099863438400061900788int);
    lemma_pow_step(2int, 8999194758858563409123804352480028797519453int, 65477759627236543813515195160871nat, 6135864546140243881625099863438400061900788int, 1nat, 130955519254473087627030390321743nat, 6209961490824965256889834761547903014953359int);
    lemma_pow_step(2int, 8999194758858563409123804352480028797519453int, 130955519254473087627030390321743nat, 6209961490824965256889834761547903014953359int, 0nat, 261911038508946175254060780643486nat, 4797038448746477474546087862696109233926442int);
    lemma_pow_step(2int, 8999194758858563409123804352480028797519453int, 261911038508946175254060780643486nat, 4797038448746477474546087862696109233926442int, 0nat, 523822077017892350508121561286972nat, 7060550253400634379792582303321615396053493int);
    lemma_pow_step(2int, 8999194758858563409123804352480028797519453int, 523822077017892350508121561286972nat, 7060550253400634379792582303321615396053493int, 1nat, 1047644154035784701016243122573945nat, 3586554893248446881566139284211651907410352int);
    lemma_pow_step(2int, 8999194758858563409123804352480028797519453int, 1047644154035784701016243122573945nat, 3586554893248446881566139284211651907410352int, 0nat, 2095288308071569402032486245147890nat, 5212928196240823485544112593118186760343950int);
    lemma_pow_step(2int, 8999194758858563409123804352480028797519453int, 2095288308071569402032486245147890nat, 5212928196240823485544112593118186760343950int, 1nat, 4190576616143138804064972490295781nat, 7247155113005047451439604650305535484053283int);
    lemma_pow_step(2int, 8999194758858563409123804352480028797519453int, 4190576616143138804064972490295781nat, 7247155113005047451439604650305535484053283int, 0nat, 8381153232286277608129944980591562nat, 6475604194336744869505793779631185088830148int);
    lemma_pow_step(2int, 8999194758858563409123804352480028797519453int, 8381153232286277608129944980591562nat, 6475604194336744869505793779631185088830148int, 0nat, 16762306464572555216259889961183124nat, 3817459604493073495857791303402170324298662int);
    lemma_pow_step(2int, 8999194758858563409123804352480028797519453int, 16762306464572555216259889961183124nat, 3817459604493073495857791303402170324298662int, 1nat, 33524612929145110432519779922366249nat, 565041525024883412217207018324279866583984int);
    lemma_pow_step(2int, 8999194758858563409123804352480028797519453int, 33524612929145110432519779922366249nat, 565041525024883412217207018324279866583984int, 1nat, 67049225858290220865039559844732499nat, 383133720139996778243619889271338559215062int);
    lemma_pow_step(2int, 8999194758858563409123804352480028797519453int, 67049225858290220865039559844732499nat, 383133720139996778243619889271338559215062int, 0nat, 134098451716580441730079119689464998nat, 6013554364960079164389145236048122045378396int);
    lemma_pow_step(2int, 8999194758858563409123804352480028797519453int, 134098451716580441730079119689464998nat, 6013554364960079164389145236048122045378396int, 0nat, 268196903433160883460158239378929996nat, 8082926129800110735695321987296228243890186int);
    lemma_pow_step(2int, 8999194758858563409123804352480028797519453int, 268196903433160883460158239378929996nat, 8082926129800110735695321987296228243890186int, 0nat, 536393806866321766920316478757859992nat, 5177923967369040443006992028812463969199318int);
    lemma_pow_step(2int, 8999194758858563409123804352480028797519453int, 536393806866321766920316478757859992nat, 5177923967369040443006992028812463969199318int, 1nat, 1072787613732643533840632957515719985nat, 8094403997166394421025581951243092515420673int);
    lemma_pow_step(2int, 8999194758858563409123804352480028797519453int, 1072787613732643533840632957515719985nat, 8094403997166394421025581951243092515420673int, 1nat, 2145575227465287067681265915031439971nat, 6116187861409368478872639709536217827527516int);
    lemma_pow_step(2int, 8999194758858563409123804352480028797519453int, 2145575227465287067681265915031439971nat, 6116187861409368478872639709536217827527516int, 0nat, 4291150454930574135362531830062879942nat, 882542801450764830079248244034154245837703int);
    lemma_pow_step(2int, 8999194758858563409123804352480028797519453int, 4291150454930574135362531830062879942nat, 882542801450764830079248244034154245837703int, 1nat, 8582300909861148270725063660125759885nat, 3779511554941210732375391907409258323950851int);
    lemma_pow_step(2int, 8999194758858563409123804352480028797519453int, 8582300909861148270725063660125759885nat, 3779511554941210732375391907409258323950851int, 0nat, 17164601819722296541450127320251519770nat, 3082867903382292244920187481631791143458169int);
    lemma_pow_step(2int, 8999194758858563409123804352480028797519453int, 17164601819722296541450127320251519770nat, 3082867903382292244920187481631791143458169int, 1nat, 34329203639444593082900254640503039541nat, 8886412411701869602521719583387802864905374int);
    lemma_pow_step(2int, 8999194758858563409123804352480028797519453int, 34329203639444593082900254640503039541nat, 8886412411701869602521719583387802864905374int, 0nat, 68658407278889186165800509281006079082nat, 5335427808663415434631802318374780638064597int);
    lemma_pow_step(2int, 8999194758858563409123804352480028797519453int, 68658407278889186165800509281006079082nat, 5335427808663415434631802318374780638064597int, 1nat, 137316814557778372331601018562012158165nat, 8890839365666414139601500094970471456886106int);
    lemma_pow_step(2int, 8999194758858563409123804352480028797519453int, 137316814557778372331601018562012158165nat, 8890839365666414139601500094970471456886106int, 0nat, 274633629115556744663202037124024316330nat, 3803793386098449867597963078870411795496374int);
    lemma_pow_step(2int, 8999194758858563409123804352480028797519453int, 274633629115556744663202037124024316330nat, 3803793386098449867597963078870411795496374int, 1nat, 549267258231113489326404074248048632661nat, 6635180604161992162244440564772168422695983int);
    lemma_pow_step(2int, 8999194758858563409123804352480028797519453int, 549267258231113489326404074248048632661nat, 6635180604161992162244440564772168422695983int, 0nat, 1098534516462226978652808148496097265322nat, 7829329186959376398384018632354293006714062int);
    lemma_pow_step(2int, 8999194758858563409123804352480028797519453int, 1098534516462226978652808148496097265322nat, 7829329186959376398384018632354293006714062int, 0nat, 2197069032924453957305616296992194530644nat, 2500521856348211860536856880779884347615222int);
    lemma_pow_step(2int, 8999194758858563409123804352480028797519453int, 2197069032924453957305616296992194530644nat, 2500521856348211860536856880779884347615222int, 0nat, 4394138065848907914611232593984389061288nat, 5290805280091859767664854688260208825139248int);
    lemma_pow_step(2int, 8999194758858563409123804352480028797519453int, 4394138065848907914611232593984389061288nat, 5290805280091859767664854688260208825139248int, 1nat, 8788276131697815829222465187968778122577nat, 1818872030855439674655952459215294152773653int);
    lemma_pow_step(2int, 8999194758858563409123804352480028797519453int, 8788276131697815829222465187968778122577nat, 1818872030855439674655952459215294152773653int, 1nat, 17576552263395631658444930375937556245155nat, 259504401667409016488741717199400531095629int);
    lemma_pow_step(2int, 8999194758858563409123804352480028797519453int, 17576552263395631658444930375937556245155nat, 259504401667409016488741717199400531095629int, 0nat, 35153104526791263316889860751875112490310nat, 2589773800772394210768683292353091132495243int);
    lemma_pow_step(2int, 8999194758858563409123804352480028797519453int, 35153104526791263316889860751875112490310nat, 2589773800772394210768683292353091132495243int, 0nat, 70306209053582526633779721503750224980620nat, 6116318975208107201873488613055444618782595int);
    lemma_pow_step(2int, 8999194758858563409123804352480028797519453int, 70306209053582526633779721503750224980620nat, 6116318975208107201873488613055444618782595int, 1nat, 140612418107165053267559443007500449961241nat, 4015746265519310685288771613313225257976431int);
    lemma_pow_step(2int, 8999194758858563409123804352480028797519453int, 140612418107165053267559443007500449961241nat, 4015746265519310685288771613313225257976431int, 0nat, 281224836214330106535118886015000899922482nat, 7351102255527464935749443109884466266057003int);
    lemma_pow_step(2int, 8999194758858563409123804352480028797519453int, 281224836214330106535118886015000899922482nat, 7351102255527464935749443109884466266057003int, 1nat, 562449672428660213070237772030001799844965nat, 525803144300442167649739652909651052733851int);
    lemma_pow_step(2int, 8999194758858563409123804352480028797519453int, 562449672428660213070237772030001799844965nat, 525803144300442167649739652909651052733851int, 1nat, 1124899344857320426140475544060003599689931nat, 7293817588728300193236654986933533586298411int);
    lemma_pow_step(2int, 8999194758858563409123804352480028797519453int, 1124899344857320426140475544060003599689931nat, 7293817588728300193236654986933533586298411int, 1nat, 2249798689714640852280951088120007199379863nat, 5588440418598036977349505621387038375077368int);
    lemma_pow_step(2int, 8999194758858563409123804352480028797519453int, 2249798689714640852280951088120007199379863nat, 5588440418598036977349505621387038375077368int, 0nat, 4499597379429281704561902176240014398759726nat, 8999194758858563409123804352480028797519452int);
}

/// `2^2999731586286187803041268117493342932506484` modulo `8999194758858563409123804352480028797519453`, by square-and-multiply.
proof fn lemma_pow_8999194758858563409123804352480028797519453_by_3()
    ensures
        pow(2int, 2999731586286187803041268117493342932506484nat) % 8999194758858563409123804352480028797519453int == 6517330866429466181348555905887869997045656int,
{
    lemma_pow_start(2int, 8999194758858563409123804352480028797519453int, 2int);
    lemma_pow_step(2int, 8999194758858563409123804352480028797519453int, 1nat, 2int, 0nat, 2nat, 4int);
    lemma_pow_step(2int, 8999194758858563409123804352480028797519453int, 2nat, 4int, 0nat, 4nat, 16int);
    lemma_pow_step(2int, 8999194758858563409123804352480028797519453int, 4nat, 16int, 0nat, 8nat, 256int);
    lemma_pow_step(2int, 8999194758858563409123804352480028797519453int, 8nat, 256int, 1nat, 17nat, 131072int);
    lemma_pow_step(2int, 8999194758858563409123804352480028797519453int, 17nat, 131072int, 0nat, 34nat, 17179869184int);
    lemma_pow_step(2int, 8999194758858563409123804352480028797519453int, 34nat, 17179869184int, 0nat, 68nat, 295147905179352825856int);
    lemma_pow_step(2int, 8999194758858563409123804352480028797519453int, 68nat, 295147905179352825856int, 1nat, 137nat, 174224571863520493293247799005065324265472int);
    lemma_pow_step(2int, 8999194758858563409123804352480028797519453int, 137nat, 174224571863520493293247799005065324265472int, 1nat, 275nat, 3444235510096298033717366507975913541076479int);
    lemma_pow_step(2int, 8999194758858563409123804352480028797519453int, 275nat, 3444235510096298033717366507975913541076479int, 0nat, 550nat, 6926440220617539441933837646933587705886052int);
    lemma_pow_step(2int, 8999194758858563409123804352480028797519453int, 550nat, 6926440220617539441933837646933587705886052int, 1nat, 1101nat, 6015979901822788902569612337479556415851698int);
    lemma_pow_step(2int, 8999194758858563409123804352480028797519453int, 1101nat, 6015979901822788902569612337479556415851698int, 1nat, 2203nat, 3537628830598482374487258008747277117899930int);
    lemma_pow_step(2int, 8999194758858563409123804352480028797519453int, 2203nat, 3537628830598482374487258008747277117899930int, 1nat, 4407nat, 8948289446126589559048721707792857099658190int);
    lemma_pow_step(2int, 8999194758858563409123804352480028797519453int, 4407nat, 8948289446126589559048721707792857099658190int, 1nat, 8815nat, 5454212014378312511253524284755114134875164int);
    lemma_pow_step(2int, 8999194758858563409123804352480028797519453int, 8815nat, 5454212014378312511253524284755114134875164int, 0nat, 17630nat, 8778459857865889485759313868056139093818133int);
    lemma_pow_step(2int, 8999194758858563409123804352480028797519453int, 17630nat, 8778459857865889485759313868056139093818133int, 1nat, 35261nat, 5577803496375841237174895221285822576228596int);
    lemma_pow_step(2int, 8999194758858563409123804352480028797519453int, 35261nat, 5577803496375841237174895221285822576228596int, 1nat, 70523nat, 562047895496788095654791456105539786574839int);
    lemma_pow_step(2int, 8999194758858563409123804352480028797519453int, 70523nat, 562047895496788095654791456105539786574839int, 0nat, 141046nat, 4475386102831271511069152521317877583892731int);
    lemma_pow_step(2int, 8999194758858563409123804352480028797519453int, 141046nat, 4475386102831271511069152521317877583892731int, 1nat, 282093nat, 8862396291252620166782498240624656229446377int);
    lemma_pow_step(2int, 8999194758858563409123804352480028797519453int, 282093nat, 8862396291252620166782498240624656229446377int, 0nat, 564186nat, 8744487643541762163496756189699009411158685int);
    lemma_pow_step(2int, 8999194758858563409123804352480028797519453int, 564186nat, 8744487643541762163496756189699009411158685int, 1nat, 1128373nat, 1542004319793463108510057926514535729279112int);
    lemma_pow_step(2int, 8999194758858563409123804352480028797519453int, 1128373nat, 1542004319793463108510057926514535729279112int, 1nat, 2256747nat, 7869866815693982933844864990530092295480887int);
    lemma_pow_step(2int, 8999194758858563409123804352480028797519453int, 2256747nat, 7869866815693982933844864990530092295480887int, 0nat, 4513494nat, 2803061539779230228214329118695131574992157int);
    lemma_pow_step(2int, 8999194758858563409123804352480028797519453int, 4513494nat, 2803061539779230228214329118695131574992157int, 0nat, 9026988nat, 4947894267829087017504159688823490401504701int);
    lemma_pow_step(2int, 8999194758858563409123804352480028797519453int, 9026988nat, 4947894267829087017504159688823490401504701int, 1nat, 18053977nat, 6096471119602107813980013619450419084465247int);
    lemma_pow_step(2int, 8999194758858563409123804352480028797519453int, 18053977nat, 6096471119602107813980013619450419084465247int, 1nat, 36107955nat, 108648819303735399034518597417581503879710int);
    lemma_pow_step(2int, 8999194758858563409123804352480028797519453int, 36107955nat, 108648819303735399034518597417581503879710int, 1nat, 72215911nat, 3049008308336070942938653125316494313565709int);
    lemma_pow_step(2int, 8999194758858563409123804352480028797519453int, 72215911nat, 3049008308336070942938653125316494313565709int, 0nat, 144431822nat, 1887895982272217516557898684913855868859924int);
    lemma_pow_step(2int, 8999194758858563409123804352480028797519453int, 144431822nat, 1887895982272217516557898684913855868859924int, 0nat, 288863644nat, 656433550028851644926586246657311168701200int);
    lemma_pow_step(2int, 8999194758858563409123804352480028797519453int, 288863644nat, 656433550028851644926586246657311168701200int, 0nat, 577727288nat, 7915159455859553627680722680883624501575217int);
    lemma_pow_step(2int, 8999194758858563409123804352480028797519453int, 577727288nat, 7915159455859553627680722680883624501575217int, 1nat, 1155454577nat, 6972527829827921935430351471127784918928505int);
    lemma_pow_step(2int, 8999194758858563409123804352480028797519453int, 1155454577nat, 6972527829827921935430351471127784918928505int, 0nat, 2310909154nat, 6567619437226288023018988957474846904957761int);
    lemma_pow_step(2int, 8999194758858563409123804352480028797519453int, 2310909154nat, 6567619437226288023018988957474846904957761int, 1nat, 4621818309nat, 7527508442009521895534665828793216555144229int);
    lemma_pow_step(2int, 8999194758858563409123804352480028797519453int, 4621818309nat, 7527508442009521895534665828793216555144229int, 1nat, 9243636619nat, 7891571546177390495911833047028278086742986int);
    lemma_pow_step(2int, 8999194758858563409123804352480028797519453int, 9243636619nat, 7891571546177390495911833047028278086742986int, 0nat, 18487273238nat, 7239367511542892533362172370585136640819765int);
    lemma_pow_step(2int, 8999194758858563409123804352480028797519453int, 18487273238nat, 7239367511542892533362172370585136640819765int, 1nat, 36974546477nat, 2577822126956101897467687667755261746502291int);
    lemma_pow_step(2int, 8999194758858563409123804352480028797519453int, 36974546477nat, 2577822126956101897467687667755261746502291int, 1nat, 73949092955nat, 3282309158096653573877840505276859481523682int);
    lemma_pow_step(2int, 8999194758858563409123804352480028797519453int, 73949092955nat, 3282309158096653573877840505276859481523682int, 1nat, 147898185911nat, 679171401113836843943028134842851740601917int);
    lemma_pow_step(2int, 8999194758858563409123804352480028797519453int, 147898185911nat, 679171401113836843943028134842851740601917int, 0nat, 295796371822nat, 3096229916436421726217885341907679045559528int);
    lemma_pow_step(2int, 8999194758858563409123804352480028797519453int, 295796371822nat, 3096229916436421726217885341907679045559528int, 0nat, 591592743644nat, 4348794097615925158102038344727360535646369int);
    lemma_pow_step(2int, 8999194758858563409123804352480028797519453int, 591592743644nat, 4348794097615925158102038344727360535646369int, 0nat, 1183185487288nat, 2681269208506429921350946714378346674631707int);
    lemma_pow_step(2int, 8999194758858563409123804352480028797519453int, 1183185487288nat, 2681269208506429921350946714378346674631707int, 1nat, 2366370974577nat, 8938192401745610122956976591714965586617212int);
    lemma_pow_step(2int, 8999194758858563409123804352480028797519453int, 2366370974577nat, 8938192401745610122956976591714965586617212int, 1nat, 4732741949155nat, 2487592771331283861338156139175630835989267int);
    lemma_pow_step(2int, 8999194758858563409123804352480028797519453int, 4732741949155nat, 2487592771331283861338156139175630835989267int, 1nat, 9465483898311nat, 4801878807326514658715474839766530888244604int);
    lemma_pow_step(2int, 8999194758858563409123804352480028797519453int, 9465483898311nat, 4801878807326514658715474839766530888244604int, 0nat, 18930967796622nat, 832496865206848570201139302556150418636376int);
    lemma_pow_step(2int, 8999194758858563409123804352480028797519453int, 18930967796622nat, 832496865206848570201139302556150418636376int, 0nat, 37861935593244nat, 821591557499861380081010301026066640347932int);
    lemma_pow_step(2int, 8999194758858563409123804352480028797519453int, 37861935593244nat, 821591557499861380081010301026066640347932int, 1nat, 75723871186489nat, 8968783187686072664972508400275289631905701int);
    lemma_pow_step(2int, 8999194758858563409123804352480028797519453int, 75723871186489nat, 8968783187686072664972508400275289631905701int, 0nat, 151447742372978nat, 5548510799920501130473684202688724855282214int);
    lemma_pow_step(2int, 8999194758858563409123804352480028797519453int, 151447742372978nat, 5548510799920501130473684202688724855282214int, 0nat, 302895484745956nat, 1083185121806856358768578368296894244573984int);
    lemma_pow_step(2int, 8999194758858563409123804352480028797519453int, 302895484745956nat, 1083185121806856358768578368296894244573984int, 0nat, 605790969491912nat, 5635040135875174663856789961871652368516295int);
    lemma_pow_step(2int, 8999194758858563409123804352480028797519453int, 605790969491912nat, 5635040135875174663856789961871652368516295int, 1nat, 1211581938983825nat, 8893278616641324613663230820715143323596592int);
    lemma_pow_step(2int, 8999194758858563409123804352480028797519453int, 1211581938983825nat, 8893278616641324613663230820715143323596592int, 0nat, 2423163877967650nat, 7161506492315201116801831364218699229223320int);
    lemma_pow_step(2int, 8999194758858563409123804352480028797519453int, 2423163877967650nat, 7161506492315201116801831364218699229223320int, 1nat, 4846327755935301nat, 4290674064880450469800230415550261518890937int);
    lemma_pow_step(2int, 8999194758858563409123804352480028797519453int, 4846327755935301nat, 4290674064880450469800230415550261518890937int, 0nat, 9692655511870602nat, 2643258326570848706035757418194662375898533int);
    lemma_pow_step(2int, 8999194758858563409123804352480028797519453int, 9692655511870602nat, 2643258326570848706035757418194662375898533int, 0nat, 19385311023741204nat, 3498062956372039599469853722536047599836526int);
    lemma_pow_step(2int, 8999194758858563409123804352480028797519453int, 19385311023741204nat, 3498062956372039599469853722536047599836526int, 1nat, 38770622047482409nat, 4029392282223149525383001964691167115115786int);
    lemma_pow_step(2int, 8999194758858563409123804352480028797519453int, 38770622047482409nat, 4029392282223149525383001964691167115115786int, 1nat, 77541244094964819nat, 4930326344259447296341116917289629698857354int);
    lemma_pow_step(2int, 8999194758858563409123804352480028797519453int, 77541244094964819nat, 4930326344259447296341116917289629698857354int, 0nat, 155082488189929638nat, 1016875830818887730063076483562267177290949int);
    lemma_pow_step(2int, 8999194758858563409123804352480028797519453int, 155082488189929638nat, 1016875830818887730063076483562267177290949int, 1nat, 310164976379859277nat, 3539693259839525746812319896627968151403273int);
    lemma_pow_step(2int, 8999194758858563409123804352480028797519453int, 310164976379859277nat, 3539693259839525746812319896627968151403273int, 0nat, 620329952759718554nat, 2102168957242875653171890194660854195958524int);
    lemma_pow_step(2int, 8999194758858563409123804352480028797519453int, 620329952759718554nat, 2102168957242875653171890194660854195958524int, 1nat, 1240659905519437109nat, 6757629695486978321550806453637408518956855int);
    lemma_pow_step(2int, 8999194758858563409123804352480028797519453int, 1240659905519437109nat, 6757629695486978321550806453637408518956855int, 0nat, 2481319811038874218nat, 3655109825007136876352578517364801816885743int);
    lemma_pow_step(2int, 8999194758858563409123804352480028797519453int, 2481319811038874218nat, 3655109825007136876352578517364801816885743int, 0nat, 4962639622077748436nat, 4459143903281506859746189452973565875123374int);
    lemma_pow_step(2int, 8999194758858563409123804352480028797519453int, 4962639622077748436nat, 4459143903281506859746189452973565875123374int, 1nat, 9925279244155496873nat, 6334430362251823556190388049359759251091479int);
    lemma_pow_step(2int, 8999194758858563409123804352480028797519453int, 9925279244155496873nat, 6334430362251823556190388049359759251091479int, 1nat, 19850558488310993747nat, 806634375176339046863675475357592081231547int);
    lemma_pow_step(2int, 8999194758858563409123804352480028797519453int, 19850558488310993747nat, 806634375176339046863675475357592081231547int, 1nat, 39701116976621987495nat, 5966397983299569384725560918874482369960036int);
    lemma_pow_step(2int, 8999194758858563409123804352480028797519453int, 39701116976621987495nat, 5966397983299569384725560918874482369960036int, 1nat, 79402233953243974991nat, 7863988600552707450704087061966526191999112int);
    lemma_pow_step(2int, 8999194758858563409123804352480028797519453int, 79402233953243974991nat, 7863988600552707450704087061966526191999112int, 0nat, 158804467906487949982nat, 7640127812283120580552667395615167182714266int);
    lemma_pow_step(2int, 8999194758858563409123804352480028797519453int, 158804467906487949982nat, 7640127812283120580552667395615167182714266int, 0nat, 317608935812975899964nat, 494286150669860185107414743646646594476180int);
    lemma_pow_step(2int, 8999194758858563409123804352480028797519453int, 317608935812975899964nat, 494286150669860185107414743646646594476180int, 0nat, 635217871625951799928nat, 1369399955159180132668117076245472147286306int);
    lemma_pow_step(2int, 8999194758858563409123804352480028797519453int, 635217871625951799928nat, 1369399955159180132668117076245472147286306int, 0nat, 1270435743251903599856nat, 4196166979772278934917634394821878906481464int);
    lemma_pow_step(2int, 8999194758858563409123804352480028797519453int, 1270435743251903599856nat, 4196166979772278934917634394821878906481464int, 0nat, 2540871486503807199712nat, 6519139403371937000435319317504359404486111int);
    lemma_pow_step(2int, 8999194758858563409123804352480028797519453int, 2540871486503807199712nat, 6519139403371937000435319317504359404486111int, 0nat, 5081742973007614399424nat, 6527000720673706250111281875859896728616291int);
    lemma_pow_step(2int, 8999194758858563409123804352480028797519453int, 5081742973007614399424nat, 6527000720673706250111281875859896728616291int, 0nat, 10163485946015228798848nat, 4899415275396729053592383418339251283670807int);
    lemma_pow_step(2int, 8999194758858563409123804352480028797519453int, 10163485946015228798848nat, 4899415275396729053592383418339251283670807int, 0nat, 20326971892030457597696nat, 6881825824211010519919115637486266369076180int);
    lemma_pow_step(2int, 8999194758858563409123804352480028797519453int, 20326971892030457597696nat, 6881825824211010519919115637486266369076180int, 0nat, 40653943784060915195392nat, 3265072136441998045355918679198794574685077int);
    lemma_pow_step(2int, 8999194758858563409123804352480028797519453int, 40653943784060915195392nat, 3265072136441998045355918679198794574685077int, 1nat, 81307887568121830390785nat, 1370060446645006223521824973151211085958796int);
    lemma_pow_step(2int, 8999194758858563409123804352480028797519453int, 81307887568121830390785nat, 1370060446645006223521824973151211085958796int, 0nat, 162615775136243660781570nat, 789730353069136546993443684752508162371178int);
    lemma_pow_step(2int, 8999194758858563409123804352480028797519453int, 162615775136243660781570nat, 789730353069136546993443684752508162371178int, 0nat, 325231550272487321563140nat, 7519436701762109074375760558672310776359811int);
    lemma_pow_step(2int, 8999194758858563409123804352480028797519453int, 325231550272487321563140nat, 7519436701762109074375760558672310776359811int, 1nat, 650463100544974643126281nat, 1782498012945370346914012427771641295783042int);
    lemma_pow_step(2int, 8999194758858563409123804352480028797519453int, 650463100544974643126281nat, 1782498012945370346914012427771641295783042int, 0nat, 1300926201089949286252562nat, 1107611064042711029877549901763337478337688int);
    lemma_pow_step(2int, 8999194758858563409123804352480028797519453int, 1300926201089949286252562nat, 1107611064042711029877549901763337478337688int, 0nat, 2601852402179898572505124nat, 5248901800281261442550693461428004241298537int);
    lemma_pow_step(2int, 8999194758858563409123804352480028797519453int, 2601852402179898572505124nat, 5248901800281261442550693461428004241298537int, 0nat, 5203704804359797145010248nat, 4058435549541465226731577492633877127500333int);
    lemma_pow_step(2int, 8999194758858563409123804352480028797519453int, 5203704804359797145010248nat, 4058435549541465226731577492633877127500333int, 0nat, 10407409608719594290020496nat, 7071323770664280898828151450359897016604177int);
    lemma_pow_step(2int, 8999194758858563409123804352480028797519453int, 10407409608719594290020496nat, 7071323770664280898828151450359897016604177int, 1nat, 20814819217439188580040993nat, 1843787317486540683851023211708511258579953int);
    lemma_pow_step(2int, 8999194758858563409123804352480028797519453int, 20814819217439188580040993nat, 1843787317486540683851023211708511258579953int, 1nat, 41629638434878377160081987nat, 3055487772220422192769958318458942302394649int);
    lemma_pow_step(2int, 8999194758858563409123804352480028797519453int, 41629638434878377160081987nat, 3055487772220422192769958318458942302394649int, 0nat, 83259276869756754320163974nat, 5404863003554027049935780465416408809046268int);
    lemma_pow_step(2int, 8999194758858563409123804352480028797519453int, 83259276869756754320163974nat, 5404863003554027049935780465416408809046268int, 1nat, 166518553739513508640327949nat, 2731474281541052459433217142095257868669963int);
    lemma_pow_step(2int, 8999194758858563409123804352480028797519453int, 166518553739513508640327949nat, 2731474281541052459433217142095257868669963int, 1nat, 333037107479027017280655899nat, 2932662541727012798932759020833413118950209int);
    lemma_pow_step(2int, 8999194758858563409123804352480028797519453int, 333037107479027017280655899nat, 2932662541727012798932759020833413118950209int, 1nat, 666074214958054034561311799nat, 4894747177161939877908581196978560389512832int);
    lemma_pow_step(2int, 8999194758858563409123804352480028797519453int, 666074214958054034561311799nat, 4894747177161939877908581196978560389512832int, 1nat, 1332148429916108069122623599nat, 3450992291770215435794337677590437232534998int);
    lemma_pow_step(2int, 8999194758858563409123804352480028797519453int, 1332148429916108069122623599nat, 3450992291770215435794337677590437232534998int, 0nat, 2664296859832216138245247198nat, 2943108997079124443296371016227388492112477int);
    lemma_pow_step(2int, 8999194758858563409123804352480028797519453int, 2664296859832216138245247198nat, 2943108997079124443296371016227388492112477int, 1nat, 5328593719664432276490494397nat, 7369805813164639888162253072605762213646465int);
    lemma_pow_step(2int, 8999194758858563409123804352480028797519453int, 5328593719664432276490494397nat, 7369805813164639888162253072605762213646465int, 1nat, 10657187439328864552980988795nat, 7693915021091321420359610260980525037455765int);
    lemma_pow_step(2int, 8999194758858563409123804352480028797519453int, 10657187439328864552980988795nat, 7693915021091321420359610260980525037455765int, 1nat, 21314374878657729105961977591nat, 5308402567425964496451084499520842640800837int);
    lemma_pow_step(2int, 8999194758858563409123804352480028797519453int, 21314374878657729105961977591nat, 5308402567425964496451084499520842640800837int, 0nat, 42628749757315458211923955182nat, 7912427157594802727266204402285734654731243int);
    lemma_pow_step(2int, 8999194758858563409123804352480028797519453int, 42628749757315458211923955182nat, 7912427157594802727266204402285734654731243int, 1nat, 85257499514630916423847910365nat, 5016340524766999984811079703441258244479763int);
    lemma_pow_step(2int, 8999194758858563409123804352480028797519453int, 85257499514630916423847910365nat, 5016340524766999984811079703441258244479763int, 1nat, 170514999029261832847695820731nat, 8074816565533546262155060030554570184659148int);
    lemma_pow_step(2int, 8999194758858563409123804352480028797519453int, 170514999029261832847695820731nat, 8074816565533546262155060030554570184659148int, 0nat, 341029998058523665695391641462nat, 6685563530694194633450225122903655014209419int);
    lemma_pow_step(2int, 8999194758858563409123804352480028797519453int, 341029998058523665695391641462nat, 6685563530694194633450225122903655014209419int, 1nat, 682059996117047331390783282925nat, 2354394431939304044107847060019457746523815int);
    lemma_pow_step(2int, 8999194758858563409123804352480028797519453int, 682059996117047331390783282925nat, 2354394431939304044107847060019457746523815int, 1nat, 1364119992234094662781566565851nat, 1278333254504011401052211013127194853000660int);
    lemma_pow_step(2int, 8999194758858563409123804352480028797519453int, 1364119992234094662781566565851nat, 1278333254504011401052211013127194853000660int, 0nat, 2728239984468189325563133131702nat, 2806354676421199327500821587424364538721101int);
    lemma_pow_step(2int, 8999194758858563409123804352480028797519453int, 2728239984468189325563133131702nat, 2806354676421199327500821587424364538721101int, 1nat, 5456479968936378651126266263405nat, 6992245990094547193120778864866559442786258int);
    lemma_pow_step(2int, 8999194758858563409123804352480028797519453int, 5456479968936378651126266263405nat, 6992245990094547193120778864866559442786258int, 1nat, 10912959937872757302252532526811nat, 4619016191696508216114128985066929069341939int);
    lemma_pow_step(2int, 8999194758858563409123804352480028797519453int, 10912959937872757302252532526811nat, 4619016191696508216114128985066929069341939int, 1nat, 21825919875745514604505065053623nat, 900431748352419923238645860449998978132727int);
    lemma_pow_step(2int, 8999194758858563409123804352480028797519453int, 21825919875745514604505065053623nat, 900431748352419923238645860449998978132727int, 1nat, 43651839751491029209010130107247nat, 1718790295525122307510194319671627839685509int);
    lemma_pow_step(2int, 8999194758858563409123804352480028797519453int, 43651839751491029209010130107247nat, 1718790295525122307510194319671627839685509int, 1nat, 87303679502982058418020260214495nat, 3141191799109145549831604863316581531749247int);
    lemma_pow_step(2int, 8999194758858563409123804352480028797519453int, 87303679502982058418020260214495nat, 3141191799109145549831604863316581531749247int, 0nat, 174607359005964116836040520428990nat, 2602674344600193160673570116541526113342680int);
    lemma_pow_step(2int, 8999194758858563409123804352480028797519453int, 174607359005964116836040520428990nat, 2602674344600193160673570116541526113342680int, 1nat, 349214718011928233672081040857981nat, 332123806012974649469618000729757143985159int);
    lemma_pow_step(2int, 8999194758858563409123804352480028797519453int, 349214718011928233672081040857981nat, 332123806012974649469618000729757143985159int, 1nat, 698429436023856467344162081715963nat, 2783429753493744323791085352297039607573026int);
    lemma_pow_step(2int, 8999194758858563409123804352480028797519453int, 698429436023856467344162081715963nat, 2783429753493744323791085352297039607573026int, 1nat, 1396858872047712934688324163431927nat, 2446723520595684831319314228921084504858226int);
    lemma_pow_step(2int, 8999194758858563409123804352480028797519453int, 1396858872047712934688324163431927nat, 2446723520595684831319314228921084504858226int, 0nat, 2793717744095425869376648326863854nat, 7713933631930578295135747756913044973948845int);
    lemma_pow_step(2int, 8999194758858563409123804352480028797519453int, 2793717744095425869376648326863854nat, 7713933631930578295135747756913044973948845int, 0nat, 5587435488190851738753296653727708nat, 3197325521821923312532711949342966929398162int);
    lemma_pow_step(2int, 8999194758858563409123804352480028797519453int, 5587435488190851738753296653727708nat, 3197325521821923312532711949342966929398162int, 0nat, 11174870976381703477506593307455416nat, 2208511797561485746316922297007684573455275int);
    lemma_pow_step(2int, 8999194758858563409123804352480028797519453int, 11174870976381703477506593307455416nat, 2208511797561485746316922297007684573455275int, 1nat, 22349741952763406955013186614910833nat, 2202846276217824496056721775899753206203229int);
    lemma_pow_step(2int, 8999194758858563409123804352480028797519453int, 22349741952763406955013186614910833nat, 2202846276217824496056721775899753206203229int, 0nat, 44699483905526813910026373229821666nat, 6546099473812385207935971098803439493124460int);
    lemma_pow_step(2int, 8999194758858563409123804352480028797519453int, 44699483905526813910026373229821666nat, 6546099473812385207935971098803439493124460int, 0nat, 89398967811053627820052746459643332nat, 3304860290906813846187482390995422626460662int);
    lemma_pow_step(2int, 8999194758858563409123804352480028797519453int, 89398967811053627820052746459643332nat, 3304860290906813846187482390995422626460662int, 0nat, 178797935622107255640105492919286664nat, 4476407540970964765298697556809213998034646int);
    lemma_pow_step(2int, 8999194758858563409123804352480028797519453int, 178797935622107255640105492919286664nat, 4476407540970964765298697556809213998034646int, 0nat, 357595871244214511280210985838573328nat, 7359954840703343401032672148646506466257248int);
    lemma_pow_step(2int, 8999194758858563409123804352480028797519453int, 357595871244214511280210985838573328nat, 7359954840703343401032672148646506466257248int, 1nat, 715191742488429022560421971677146657nat, 3451752441429948746838992559425285015567406int);
    lemma_pow_step(2int, 8999194758858563409123804352480028797519453int, 715191742488429022560421971677146657nat, 3451752441429948746838992559425285015567406int, 0nat, 1430383484976858045120843943354293314nat, 8447370836339685278008803483687369861079189int);
    lemma_pow_step(2int, 8999194758858563409123804352480028797519453int, 1430383484976858045120843943354293314nat, 8447370836339685278008803483687369861079189int, 0nat, 2860766969953716090241687886708586628nat, 7564978833549955105354812858235727499481349int);
    lemma_pow_step(2int, 8999194758858563409123804352480028797519453int, 2860766969953716090241687886708586628nat, 7564978833549955105354812858235727499481349int, 0nat, 5721533939907432180483375773417173256nat, 5491277468468786695723779942415037470559686int);
    lemma_pow_step(2int, 8999194758858563409123804352480028797519453int, 5721533939907432180483375773417173256nat, 5491277468468786695723779942415037470559686int, 1nat, 11443067879814864360966751546834346513nat, 8594141439344175926135132500984337103338066int);
    lemma_pow_step(2int, 8999194758858563409123804352480028797519453int, 11443067879814864360966751546834346513nat, 8594141439344175926135132500984337103338066int, 1nat, 22886135759629728721933503093668693027nat, 7159111741583087958577768443479509188898976int);
    lemma_pow_step(2int, 8999194758858563409123804352480028797519453int, 22886135759629728721933503093668693027nat, 7159111741583087958577768443479509188898976int, 1nat, 45772271519259457443867006187337386055nat, 8566323387494579600313694309369144959639276int);
    lemma_pow_step(2int, 8999194758858563409123804352480028797519453int, 45772271519259457443867006187337386055nat, 8566323387494579600313694309369144959639276int, 0nat, 91544543038518914887734012374674772110nat, 5704966336254946676118058498226221126476062int);
    lemma_pow_step(2int, 8999194758858563409123804352480028797519453int, 91544543038518914887734012374674772110nat, 5704966336254946676118058498226221126476062int, 0nat, 183089086077037829775468024749349544220nat, 1435151409391679217436017531169937860255627int);
    lemma_pow_step(2int, 8999194758858563409123804352480028797519453int, 183089086077037829775468024749349544220nat, 1435151409391679217436017531169937860255627int, 0nat, 366178172154075659550936049498699088440nat, 2871281089317460039825089080011278307012540int);
    lemma_pow_step(2int, 8999194758858563409123804352480028797519453int, 366178172154075659550936049498699088440nat, 2871281089317460039825089080011278307012540int, 1nat, 732356344308151319101872098997398176881nat, 4721746417594527249410540743954110119778851int);
    lemma_pow_step(2int, 8999194758858563409123804352480028797519453int, 732356344308151319101872098997398176881nat, 4721746417594527249410540743954110119778851int, 0nat, 1464712688616302638203744197994796353762nat, 5250247904293484012004763246355028963573985int);
    lemma_pow_step(2int, 8999194758858563409123804352480028797519453int, 1464712688616302638203744197994796353762nat, 5250247904293484012004763246355028963573985int, 1nat, 2929425377232605276407488395989592707525nat, 8145943949243757846398685538269528227072572int);
    lemma_pow_step(2int, 8999194758858563409123804352480028797519453int, 2929425377232605276407488395989592707525nat, 8145943949243757846398685538269528227072572int, 1nat, 5858850754465210552814976791979185415051nat, 2812015642715043956418245361229013551183101int);
    lemma_pow_step(2int, 8999194758858563409123804352480028797519453int, 5858850754465210552814976791979185415051nat, 2812015642715043956418245361229013551183101int, 1nat, 11717701508930421105629953583958370830103nat, 499233600879229978921318469957335644165179int);
    lemma_pow_step(2int, 8999194758858563409123804352480028797519453int, 11717701508930421105629953583958370830103nat, 499233600879229978921318469957335644165179int, 0nat, 23435403017860842211259907167916741660206nat, 4303357582888570005485805029575345827062674int);
    lemma_pow_step(2int, 8999194758858563409123804352480028797519453int, 23435403017860842211259907167916741660206nat, 4303357582888570005485805029575345827062674int, 1nat, 46870806035721684422519814335833483320413nat, 489918905787183759483091317295743804768216int);
    lemma_pow_step(2int, 8999194758858563409123804352480028797519453int, 46870806035721684422519814335833483320413nat, 489918905787183759483091317295743804768216int, 1nat, 93741612071443368845039628671666966640827nat, 6626716595964745661934754850406530873203360int);
    lemma_pow_step(2int, 8999194758858563409123804352480028797519453int, 93741612071443368845039628671666966640827nat, 6626716595964745661934754850406530873203360int, 1nat, 187483224142886737690079257343333933281655nat, 8110230799430151366274607408178528385276807int);
    lemma_pow_step(2int, 8999194758858563409123804352480028797519453int, 187483224142886737690079257343333933281655nat, 8110230799430151366274607408178528385276807int, 0nat, 374966448285773475380158514686667866563310nat, 49298496792169570042582409774553778525469int);
    lemma_pow_step(2int, 8999194758858563409123804352480028797519453int, 374966448285773475380158514686667866563310nat, 49298496792169570042582409774553778525469int, 1nat, 749932896571546950760317029373335733126621nat, 8168901304611473345209918887528304732602102int);
    lemma_pow_step(2int, 8999194758858563409123804352480028797519453int, 749932896571546950760317029373335733126621nat, 8168901304611473345209918887528304732602102int, 0nat, 1499865793143093901520634058746671466253242nat, 6517330866429466181348555905887869997045657int);
    lemma_pow_step(2int, 8999194758858563409123804352480028797519453int, 1499865793143093901520634058746671466253242nat, 6517330866429466181348555905887869997045657int, 0nat, 2999731586286187803041268117493342932506484nat, 6517330866429466181348555905887869997045656int);
}

/// `2^818108614441687582647618577498184436138132` modulo `8999194758858563409123804352480028797519453`, by square-and-multiply.
proof fn lemma_pow_8999194758858563409123804352480028797519453_by_11()
    ensures
        pow(2int, 818108614441687582647618577498184436138132nat) % 8999194758858563409123804352480028797519453int == 813623623551915197479703713311836623485267int,
{
    lemma_pow_start(2int, 8999194758858563409123804352480028797519453int, 2int);
    lemma_pow_step(2int, 8999194758858563409123804352480028797519453int, 1nat, 2int, 0nat, 2nat, 4int);
    lemma_pow_step(2int, 8999194758858563409123804352480028797519453int, 2nat, 4int, 0nat, 4nat, 16int);
    lemma_pow_step(2int, 8999194758858563409123804352480028797519453int, 4nat, 16int, 1nat, 9nat, 512int);
    lemma_pow_step(2int, 8999194758858563409123804352480028797519453int, 9nat, 512int, 0nat, 18nat, 262144int);
    lemma_pow_step(2int, 8999194758858563409123804352480028797519453int, 18nat, 262144int, 1nat, 37nat, 137438953472int);
    lemma_pow_step(2int, 8999194758858563409123804352480028797519453int, 37nat, 137438953472int, 1nat, 75nat, 37778931862957161709568int);
    lemma_pow_step(2int, 8999194758858563409123804352480028797519453int, 75nat, 37778931862957161709568int, 0nat, 150nat, 5374920806306862416724881757650586374673050int);
    lemma_pow_step(2int, 8999194758858563409123804352480028797519453int, 150nat, 5374920806306862416724881757650586374673050int, 0nat, 300nat, 6274440450255650861817384100008742374802311int);
    lemma_pow_step(2int, 8999194758858563409123804352480028797519453int, 300nat, 6274440450255650861817384100008742374802311int, 1nat, 601nat, 4910613065803106954024424641775408270916334int);
    lemma_pow_step(2int, 8999194758858563409123804352480028797519453int, 601nat, 4910613065803106954024424641775408270916334int, 0nat, 1202nat, 6875000865573486595953482206397304436855644int);
    lemma_pow_step(2int, 8999194758858563409123804352480028797519453int, 1202nat, 6875000865573486595953482206397304436855644int, 0nat, 2404nat, 635663853481016323857152759837591463240551int);
    lemma_pow_step(2int, 8999194758858563409123804352480028797519453int, 2404nat, 635663853481016323857152759837591463240551int, 0nat, 4808nat, 8342439704876504570063084476075137200731914int);
    lemma_pow_step(2int, 8999194758858563409123804352480028797519453int, 4808nat, 8342439704876504570063084476075137200731914int, 0nat, 9616nat, 5837373061012769188237288585999695636743332int);
    lemma_pow_step(2int, 8999194758858563409123804352480028797519453int, 9616nat, 5837373061012769188237288585999695636743332int, 1nat, 19233nat, 378609714777941908775243440663535345224688int);
    lemma_pow_step(2int, 8999194758858563409123804352480028797519453int, 19233nat, 378609714777941908775243440663535345224688int, 1nat, 38467nat, 6126810003419723429831765840545060360801552int);
    lemma_pow_step(2int, 8999194758858563409123804352480028797519453int, 38467nat, 6126810003419723429831765840545060360801552int, 0nat, 76934nat, 3294514398906980879481534644239458962721501int);
    lemma_pow_step(2int, 8999194758858563409123804352480028797519453int, 76934nat, 3294514398906980879481534644239458962721501int, 1nat, 153869nat, 6670282041129197022796047290631477002308814int);
    lemma_pow_step(2int, 8999194758858563409123804352480028797519453int, 153869nat, 6670282041129197022796047290631477002308814int, 0nat, 307738nat, 6438066508095332396989268694197457278321246int);
    lemma_pow_step(2int, 8999194758858563409123804352480028797519453int, 307738nat, 6438066508095332396989268694197457278321246int, 0nat, 615476nat, 7185415852025577976885218566397606780409500int);
    lemma_pow_step(2int, 8999194758858563409123804352480028797519453int, 615476nat, 7185415852025577976885218566397606780409500int, 1nat, 1230953nat, 6136028010075359350125621213734349442041427int);
    lemma_pow_step(2int, 8999194758858563409123804352480028797519453int, 1230953nat, 6136028010075359350125621213734349442041427int, 0nat, 2461906nat, 1367540413591516269480088410704642085312709int);
    lemma_pow_step(2int, 8999194758858563409123804352480028797519453int, 2461906nat, 1367540413591516269480088410704642085312709int, 0nat, 4923812nat, 2247816148473340531624931252444359441403672int);
    lemma_pow_step(2int, 8999194758858563409123804352480028797519453int, 4923812nat, 2247816148473340531624931252444359441403672int, 0nat, 9847624nat, 5552632329437472776904511646967675197579723int);
    lemma_pow_step(2int, 8999194758858563409123804352480028797519453int, 9847624nat, 5552632329437472776904511646967675197579723int, 0nat, 19695248nat, 3186207093495873380729316732276516820881014int);
    lemma_pow_step(2int, 8999194758858563409123804352480028797519453int, 19695248nat, 3186207093495873380729316732276516820881014int, 0nat, 39390496nat, 5310442186898611712922160952090261264988804int);
    lemma_pow_step(2int, 8999194758858563409123804352480028797519453int, 39390496nat, 5310442186898611712922160952090261264988804int, 1nat, 78780993nat, 2221397221711906032622153511489838709834451int);
    lemma_pow_step(2int, 8999194758858563409123804352480028797519453int, 78780993nat, 2221397221711906032622153511489838709834451int, 1nat, 157561987nat, 8104526095138449000404744568682710420361707int);
    lemma_pow_step(2int, 8999194758858563409123804352480028797519453int, 157561987nat, 8104526095138449000404744568682710420361707int, 1nat, 315123975nat, 5279154701916132845948785590493941466001357int);
    lemma_pow_step(2int, 8999194758858563409123804352480028797519453int, 315123975nat, 5279154701916132845948785590493941466001357int, 1nat, 630247951nat, 224751632603033647596314262781608385381767int);
    lemma_pow_step(2int, 8999194758858563409123804352480028797519453int, 630247951nat, 224751632603033647596314262781608385381767int, 0nat, 1260495902nat, 8314614213701824184096111641733974388311361int);
    lemma_pow_step(2int, 8999194758858563409123804352480028797519453int, 1260495902nat, 8314614213701824184096111641733974388311361int, 1nat, 2520991805nat, 898000947229904609382490487706012618978200int);
    lemma_pow_step(2int, 8999194758858563409123804352480028797519453int, 2520991805nat, 898000947229904609382490487706012618978200int, 0nat, 5041983610nat, 4011057951321241177035361943415635465308565int);
    lemma_pow_step(2int, 8999194758858563409123804352480028797519453int, 5041983610nat, 4011057951321241177035361943415635465308565int, 1nat, 10083967221nat, 576611518529141603624608144443456598315980int);
    lemma_pow_step(2int, 8999194758858563409123804352480028797519453int, 10083967221nat, 576611518529141603624608144443456598315980int, 0nat, 20167934442nat, 5695483166703789997865748476713944015950391int);
    lemma_pow_step(2int, 8999194758858563409123804352480028797519453int, 20167934442nat, 5695483166703789997865748476713944015950391int, 0nat, 40335868884nat, 5030594829504847028763017172729679662912916int);
    lemma_pow_step(2int, 8999194758858563409123804352480028797519453int, 40335868884nat, 5030594829504847028763017172729679662912916int, 1nat, 80671737769nat, 5006165693039121843587767647284921853400978int);
    lemma_pow_step(2int, 8999194758858563409123804352480028797519453int, 80671737769nat, 5006165693039121843587767647284921853400978int, 1nat, 161343475539nat, 1361511561892854687724418110698220571793704int);
    lemma_pow_step(2int, 8999194758858563409123804352480028797519453int, 161343475539nat, 1361511561892854687724418110698220571793704int, 0nat, 322686951078nat, 1239808595085922513830022397582765442817970int);
    lemma_pow_step(2int, 8999194758858563409123804352480028797519453int, 322686951078nat, 1239808595085922513830022397582765442817970int, 1nat, 645373902157nat, 8361283900643010772338065793978744740798592int);
    lemma_pow_step(2int, 8999194758858563409123804352480028797519453int, 645373902157nat, 8361283900643010772338065793978744740798592int, 1nat, 1290747804315nat, 6353500356348477616506678680681188864664528int);
    lemma_pow_step(2int, 8999194758858563409123804352480028797519453int, 1290747804315nat, 6353500356348477616506678680681188864664528int, 0nat, 2581495608630nat, 5505612014844808373801462843659856160786474int);
    lemma_pow_step(2int, 8999194758858563409123804352480028797519453int, 2581495608630nat, 5505612014844808373801462843659856160786474int, 0nat, 5162991217260nat, 1999807598773322641592673115199222890386650int);
    lemma_pow_step(2int, 8999194758858563409123804352480028797519453int, 5162991217260nat, 1999807598773322641592673115199222890386650int, 1nat, 10325982434521nat, 1888019054506475563575486261616424843954961int);
    lemma_pow_step(2int, 8999194758858563409123804352480028797519453int, 10325982434521nat, 1888019054506475563575486261616424843954961int, 0nat, 20651964869042nat, 5267203385896568292352447577195528013703841int);
    lemma_pow_step(2int, 8999194758858563409123804352480028797519453int, 20651964869042nat, 5267203385896568292352447577195528013703841int, 0nat, 41303929738084nat, 8544508035888159909573875793425648672512406int);
    lemma_pow_step(2int, 8999194758858563409123804352480028797519453int, 41303929738084nat, 8544508035888159909573875793425648672512406int, 1nat, 82607859476169nat, 3367644539310506868624858382188004010757885int);
    lemma_pow_step(2int, 8999194758858563409123804352480028797519453int, 82607859476169nat, 3367644539310506868624858382188004010757885int, 1nat, 165215718952339nat, 1259845786010052801088608469863154722361114int);
    lemma_pow_step(2int, 8999194758858563409123804352480028797519453int, 165215718952339nat, 1259845786010052801088608469863154722361114int, 1nat, 330431437904679nat, 3522188878071966372348945878816448124096077int);
    lemma_pow_step(2int, 8999194758858563409123804352480028797519453int, 330431437904679nat, 3522188878071966372348945878816448124096077int, 1nat, 660862875809359nat, 2479406699894399790019277013004710732703595int);
    lemma_pow_step(2int, 8999194758858563409123804352480028797519453int, 660862875809359nat, 2479406699894399790019277013004710732703595int, 0nat, 1321725751618718nat, 2004655066505887371760426595732625613365769int);
    lemma_pow_step(2int, 8999194758858563409123804352480028797519453int, 1321725751618718nat, 2004655066505887371760426595732625613365769int, 1nat, 2643451503237437nat, 3405434116423863701246250192173383997784601int);
    lemma_pow_step(2int, 8999194758858563409123804352480028797519453int, 2643451503237437nat, 3405434116423863701246250192173383997784601int, 0nat, 5286903006474874nat, 8342549710357742460412316838633088716561444int);
    lemma_pow_step(2int, 8999194758858563409123804352480028797519453int, 5286903006474874nat, 8342549710357742460412316838633088716561444int, 0nat, 10573806012949748nat, 8457207657980423608799614462894290824889014int);
    lemma_pow_step(2int, 8999194758858563409123804352480028797519453int, 10573806012949748nat, 8457207657980423608799614462894290824889014int, 0nat, 21147612025899496nat, 7350408109470079343314712682581015683731832int);
    lemma_pow_step(2int, 8999194758858563409123804352480028797519453int, 21147612025899496nat, 7350408109470079343314712682581015683731832int, 0nat, 42295224051798992nat, 4691431890093060813351173896236941831536306int);
    lemma_pow_step(2int, 8999194758858563409123804352480028797519453int, 42295224051798992nat, 4691431890093060813351173896236941831536306int, 0nat, 84590448103597984nat, 4911370832593443057340361150360342366655881int);
    lemma_pow_step(2int, 8999194758858563409123804352480028797519453int, 84590448103597984nat, 4911370832593443057340361150360342366655881int, 1nat, 169180896207195969nat, 6001554532132182345906840033325318476023221int);
    lemma_pow_step(2int, 8999194758858563409123804352480028797519453int, 169180896207195969nat, 6001554532132182345906840033325318476023221int, 0nat, 338361792414391938nat, 2300403916085918777841487032568122115017884int);
    lemma_pow_step(2int, 8999194758858563409123804352480028797519453int, 338361792414391938nat, 2300403916085918777841487032568122115017884int, 1nat, 676723584828783877nat, 8461001209863434902171359366222181010976895int);
    lemma_pow_step(2int, 8999194758858563409123804352480028797519453int, 676723584828783877nat, 8461001209863434902171359366222181010976895int, 1nat, 1353447169657567755nat, 2211826729688443655770602171709976066670729int);
    lemma_pow_step(2int, 8999194758858563409123804352480028797519453int, 1353447169657567755nat, 2211826729688443655770602171709976066670729int, 1nat, 2706894339315135511nat, 3631045360250272607245496992295710592482246int);
    lemma_pow_step(2int, 8999194758858563409123804352480028797519453int, 2706894339315135511nat, 3631045360250272607245496992295710592482246int, 0nat, 5413788678630271022nat, 4168318731442831489248349738038120921312060int);
    lemma_pow_step(2int, 8999194758858563409123804352480028797519453int, 5413788678630271022nat, 4168318731442831489248349738038120921312060int, 0nat, 10827577357260542044nat, 1931068243904292337191771336323615462820165int);
    lemma_pow_step(2int, 8999194758858563409123804352480028797519453int, 10827577357260542044nat, 1931068243904292337191771336323615462820165int, 0nat, 21655154714521084088nat, 3512330127383733576187461345407088290734255int);
    lemma_pow_step(2int, 8999194758858563409123804352480028797519453int, 21655154714521084088nat, 3512330127383733576187461345407088290734255int, 0nat, 43310309429042168176nat, 6662132311719778383101410493291494475613489int);
    lemma_pow_step(2int, 8999194758858563409123804352480028797519453int, 43310309429042168176nat, 6662132311719778383101410493291494475613489int, 1nat, 86620618858084336353nat, 2292390178626834148172569257509924702671442int);
    lemma_pow_step(2int, 8999194758858563409123804352480028797519453int, 86620618858084336353nat, 2292390178626834148172569257509924702671442int, 1nat, 173241237716168672707nat, 1482121843601041245146402382057769951681218int);
    lemma_pow_step(2int, 8999194758858563409123804352480028797519453int, 173241237716168672707nat, 1482121843601041245146402382057769951681218int, 1nat, 346482475432337345415nat, 7124467756751938412417827287810125635985786int);
    lemma_pow_step(2int, 8999194758858563409123804352480028797519453int, 346482475432337345415nat, 7124467756751938412417827287810125635985786int, 0nat, 692964950864674690830nat, 2854970035403475946596199217554720062999466int);
    lemma_pow_step(2int, 8999194758858563409123804352480028797519453int, 692964950864674690830nat, 2854970035403475946596199217554720062999466int, 1nat, 1385929901729349381661nat, 8935221321758949802006808101646379758451194int);
    lemma_pow_step(2int, 8999194758858563409123804352480028797519453int, 1385929901729349381661nat, 8935221321758949802006808101646379758451194int, 0nat, 2771859803458698763322nat, 1662226209972960244676295153316668102708177int);
    lemma_pow_step(2int, 8999194758858563409123804352480028797519453int, 2771859803458698763322nat, 1662226209972960244676295153316668102708177int, 0nat, 5543719606917397526644nat, 2776365098179224834172898718767076660247250int);
    lemma_pow_step(2int, 8999194758858563409123804352480028797519453int, 5543719606917397526644nat, 2776365098179224834172898718767076660247250int, 0nat, 11087439213834795053288nat, 6812313449934496140236962473459362930664598int);
    lemma_pow_step(2int, 8999194758858563409123804352480028797519453int, 11087439213834795053288nat, 6812313449934496140236962473459362930664598int, 1nat, 22174878427669590106577nat, 5552289672686569033406748085916408383247818int);
    lemma_pow_step(2int, 8999194758858563409123804352480028797519453int, 22174878427669590106577nat, 5552289672686569033406748085916408383247818int, 1nat, 44349756855339180213155nat, 2608697914904138339301708317539357194049116int);
    lemma_pow_step(2int, 8999194758858563409123804352480028797519453int, 44349756855339180213155nat, 2608697914904138339301708317539357194049116int, 1nat, 88699513710678360426311nat, 257966744799359865284877123915163443422616int);
    lemma_pow_step(2int, 8999194758858563409123804352480028797519453int, 88699513710678360426311nat, 257966744799359865284877123915163443422616int, 0nat, 177399027421356720852622nat, 678098939057543680502645368972104706324535int);
    lemma_pow_step(2int, 8999194758858563409123804352480028797519453int, 177399027421356720852622nat, 678098939057543680502645368972104706324535int, 0nat, 354798054842713441705244nat, 2473280212661534458901528989173133508407573int);
    lemma_pow_step(2int, 8999194758858563409123804352480028797519453int, 354798054842713441705244nat, 2473280212661534458901528989173133508407573int, 0nat, 709596109685426883410488nat, 1261540534399389831334512979425464874353295int);
    lemma_pow_step(2int, 8999194758858563409123804352480028797519453int, 709596109685426883410488nat, 1261540534399389831334512979425464874353295int, 0nat, 1419192219370853766820976nat, 7364634572455845022818411315481864146891971int);
    lemma_pow_step(2int, 8999194758858563409123804352480028797519453int, 1419192219370853766820976nat, 7364634572455845022818411315481864146891971int, 1nat, 2838384438741707533641953nat, 1231013663616411101610430482204847625201369int);
    lemma_pow_step(2int, 8999194758858563409123804352480028797519453int, 2838384438741707533641953nat, 1231013663616411101610430482204847625201369int, 1nat, 5676768877483415067283907nat, 4396942149840696744971440484485146985647334int);
    lemma_pow_step(2int, 8999194758858563409123804352480028797519453int, 5676768877483415067283907nat, 4396942149840696744971440484485146985647334int, 0nat, 11353537754966830134567814nat, 7018091772644173854242831598602479273672914int);
    lemma_pow_step(2int, 8999194758858563409123804352480028797519453int, 11353537754966830134567814nat, 7018091772644173854242831598602479273672914int, 1nat, 22707075509933660269135629nat, 1821741094253055054430311848528892798567534int);
    lemma_pow_step(2int, 8999194758858563409123804352480028797519453int, 22707075509933660269135629nat, 1821741094253055054430311848528892798567534int, 1nat, 45414151019867320538271259nat, 8619472454433171938494705348505965031861144int);
    lemma_pow_step(2int, 8999194758858563409123804352480028797519453int, 45414151019867320538271259nat, 8619472454433171938494705348505965031861144int, 0nat, 90828302039734641076542518nat, 1341068094115097118213470190749925037298349int);
    lemma_pow_step(2int, 8999194758858563409123804352480028797519453int, 90828302039734641076542518nat, 1341068094115097118213470190749925037298349int, 0nat, 181656604079469282153085036nat, 4366542361171112910536856613345671527901330int);
    lemma_pow_step(2int, 8999194758858563409123804352480028797519453int, 181656604079469282153085036nat, 4366542361171112910536856613345671527901330int, 0nat, 363313208158938564306170072nat, 3710677836190803779716930971632178366576095int);
    lemma_pow_step(2int, 8999194758858563409123804352480028797519453int, 363313208158938564306170072nat, 3710677836190803779716930971632178366576095int, 1nat, 726626416317877128612340145nat, 2728988904968380544261394706486041655514172int);
    lemma_pow_step(2int, 8999194758858563409123804352480028797519453int, 726626416317877128612340145nat, 2728988904968380544261394706486041655514172int, 0nat, 1453252832635754257224680290nat, 6988896754354631016622784982912865188801753int);
    lemma_pow_step(2int, 8999194758858563409123804352480028797519453int, 1453252832635754257224680290nat, 6988896754354631016622784982912865188801753int, 0nat, 2906505665271508514449360580nat, 5848141752843073969285711097627213846216052int);
    lemma_pow_step(2int, 8999194758858563409123804352480028797519453int, 2906505665271508514449360580nat, 5848141752843073969285711097627213846216052int, 1nat, 5813011330543017028898721161nat, 8981225044251020501325947366440165941928508int);
    lemma_pow_step(2int, 8999194758858563409123804352480028797519453int, 5813011330543017028898721161nat, 8981225044251020501325947366440165941928508int, 0nat, 11626022661086034057797442322nat, 4299730731456003217779938744161143897514962int);
    lemma_pow_step(2int, 8999194758858563409123804352480028797519453int, 11626022661086034057797442322nat, 4299730731456003217779938744161143897514962int, 1nat, 23252045322172068115594884645nat, 1232629250716405138613014370518140536610515int);
    lemma_pow_step(2int, 8999194758858563409123804352480028797519453int, 23252045322172068115594884645nat, 1232629250716405138613014370518140536610515int, 0nat, 46504090644344136231189769290nat, 592386483410432025250350948600862103842337int);
    lemma_pow_step(2int, 8999194758858563409123804352480028797519453int, 46504090644344136231189769290nat, 592386483410432025250350948600862103842337int, 0nat, 93008181288688272462379538580nat, 7609177687176100279622829657617198298465669int);
    lemma_pow_step(2int, 8999194758858563409123804352480028797519453int, 93008181288688272462379538580nat, 7609177687176100279622829657617198298465669int, 1nat, 186016362577376544924759077161nat, 7101801921128499217042294401906544513931263int);
    lemma_pow_step(2int, 8999194758858563409123804352480028797519453int, 186016362577376544924759077161nat, 7101801921128499217042294401906544513931263int, 1nat, 372032725154753089849518154323nat, 8823020806985882960667518856351846965092221int);
    lemma_pow_step(2int, 8999194758858563409123804352480028797519453int, 372032725154753089849518154323nat, 8823020806985882960667518856351846965092221int, 0nat, 744065450309506179699036308646nat, 39523091583970201801556970362660410252120int);
    lemma_pow_step(2int, 8999194758858563409123804352480028797519453int, 744065450309506179699036308646nat, 39523091583970201801556970362660410252120int, 0nat, 1488130900619012359398072617292nat, 7483969964838372555157673809602950784071461int);
    lemma_pow_step(2int, 8999194758858563409123804352480028797519453int, 1488130900619012359398072617292nat, 7483969964838372555157673809602950784071461int, 1nat, 2976261801238024718796145234585nat, 2309098659598715872493099343835975165084345int);
    lemma_pow_step(2int, 8999194758858563409123804352480028797519453int, 2976261801238024718796145234585nat, 2309098659598715872493099343835975165084345int, 0nat, 5952523602476049437592290469170nat, 8927722506415746823334899873949558042403339int);
    lemma_pow_step(2int, 8999194758858563409123804352480028797519453int, 5952523602476049437592290469170nat, 8927722506415746823334899873949558042403339int, 0nat, 11905047204952098875184580938340nat, 161138930631695101020057619476887553963639int);
    lemma_pow_step(2int, 8999194758858563409123804352480028797519453int, 11905047204952098875184580938340nat, 161138930631695101020057619476887553963639int, 0nat, 23810094409904197750369161876680nat, 1885469940969897118613950550851008889769055int);
    lemma_pow_step(2int, 8999194758858563409123804352480028797519453int, 23810094409904197750369161876680nat, 1885469940969897118613950550851008889769055int, 1nat, 47620188819808395500738323753361nat, 5861626050537137710053560803622713076384175int);
    lemma_pow_step(2int, 8999194758858563409123804352480028797519453int, 47620188819808395500738323753361nat, 5861626050537137710053560803622713076384175int, 0nat, 95240377639616791001476647506722nat, 1649205173038497366062617609196854938265529int);
    lemma_pow_step(2int, 8999194758858563409123804352480028797519453int, 95240377639616791001476647506722nat, 1649205173038497366062617609196854938265529int, 0nat, 190480755279233582002953295013444nat, 1818691083034831333937727865540113650100710int);
    lemma_pow_step(2int, 8999194758858563409123804352480028797519453int, 190480755279233582002953295013444nat, 1818691083034831333937727865540113650100710int, 1nat, 380961510558467164005906590026889nat, 1291312825433363512389307572604634083764098int);
    lemma_pow_step(2int, 8999194758858563409123804352480028797519453int, 380961510558467164005906590026889nat, 1291312825433363512389307572604634083764098int, 0nat, 761923021116934328011813180053778nat, 5624861527588418819374032179344295398732615int);
    lemma_pow_step(2int, 8999194758858563409123804352480028797519453int, 761923021116934328011813180053778nat, 5624861527588418819374032179344295398732615int, 0nat, 1523846042233868656023626360107556nat, 3691420277035984796114571272853498516504832int);
    lemma_pow_step(2int, 8999194758858563409123804352480028797519453int, 1523846042233868656023626360107556nat, 3691420277035984796114571272853498516504832int, 1nat, 3047692084467737312047252720215113nat, 4933697195315149300626441085881658212218570int);
    lemma_pow_step(2int, 8999194758858563409123804352480028797519453int, 3047692084467737312047252720215113nat, 4933697195315149300626441085881658212218570int, 1nat, 6095384168935474624094505440430227nat, 8458621003182801728467551436322448042096083int);
    lemma_pow_step(2int, 8999194758858563409123804352480028797519453int, 6095384168935474624094505440430227nat, 8458621003182801728467551436322448042096083int, 0nat, 12190768337870949248189010880860454nat, 3139563096522060408697939041494605917071856int);
    lemma_pow_step(2int, 8999194758858563409123804352480028797519453int, 12190768337870949248189010880860454nat, 3139563096522060408697939041494605917071856int, 0nat, 24381536675741898496378021761720908nat, 4215162702613766249733473116973053507929591int);
    lemma_pow_step(2int, 8999194758858563409123804352480028797519453int, 24381536675741898496378021761720908nat, 4215162702613766249733473116973053507929591int, 1nat, 48763073351483796992756043523441817nat, 457773269956506973465824169902942319941578int);
    lemma_pow_step(2int, 8999194758858563409123804352480028797519453int, 48763073351483796992756043523441817nat, 457773269956506973465824169902942319941578int, 1nat, 97526146702967593985512087046883635nat, 6243734396749582869192322194420229145551094int);
    lemma_pow_step(2int, 8999194758858563409123804352480028797519453int, 97526146702967593985512087046883635nat, 6243734396749582869192322194420229145551094int, 0nat, 195052293405935187971024174093767270nat, 591033484936267701487419995818178371435071int);
    lemma_pow_step(2int, 8999194758858563409123804352480028797519453int, 195052293405935187971024174093767270nat, 591033484936267701487419995818178371435071int, 0nat, 390104586811870375942048348187534540nat, 982187834382331003589368425688791618085385int);
    lemma_pow_step(2int, 8999194758858563409123804352480028797519453int, 390104586811870375942048348187534540nat, 982187834382331003589368425688791618085385int, 0nat, 780209173623740751884096696375069080nat, 6996891917026168866653711921299541432940863int);
    lemma_pow_step(2int, 8999194758858563409123804352480028797519453int, 780209173623740751884096696375069080nat, 6996891917026168866653711921299541432940863int, 0nat, 1560418347247481503768193392750138160nat, 3439719050002578069489737254445142121478623int);
    lemma_pow_step(2int, 8999194758858563409123804352480028797519453int, 1560418347247481503768193392750138160nat, 3439719050002578069489737254445142121478623int, 1nat, 3120836694494963007536386785500276321nat, 568679242818596693106559770104244354259078int);
    lemma_pow_step(2int, 8999194758858563409123804352480028797519453int, 3120836694494963007536386785500276321nat, 568679242818596693106559770104244354259078int, 1nat, 6241673388989926015072773571000552643nat, 3110121003926849902619472603378837414760641int);
    lemma_pow_step(2int, 8999194758858563409123804352480028797519453int, 6241673388989926015072773571000552643nat, 3110121003926849902619472603378837414760641int, 1nat, 12483346777979852030145547142001105287nat, 6345936539904911066001092941460685854639032int);
    lemma_pow_step(2int, 8999194758858563409123804352480028797519453int, 12483346777979852030145547142001105287nat, 6345936539904911066001092941460685854639032int, 1nat, 24966693555959704060291094284002210575nat, 5366410626744940735966000799036256737846086int);
    lemma_pow_step(2int, 8999194758858563409123804352480028797519453int, 24966693555959704060291094284002210575nat, 5366410626744940735966000799036256737846086int, 1nat, 49933387111919408120582188568004421151nat, 5313892873690310849062690045587225288413203int);
    lemma_pow_step(2int, 8999194758858563409123804352480028797519453int, 49933387111919408120582188568004421151nat, 5313892873690310849062690045587225288413203int, 0nat, 99866774223838816241164377136008842302nat, 3496724405928908773730013903536679712722299int);
    lemma_pow_step(2int, 8999194758858563409123804352480028797519453int, 99866774223838816241164377136008842302nat, 3496724405928908773730013903536679712722299int, 0nat, 199733548447677632482328754272017684604nat, 8206451843957453089273373415626695120547955int);
    lemma_pow_step(2int, 8999194758858563409123804352480028797519453int, 199733548447677632482328754272017684604nat, 8206451843957453089273373415626695120547955int, 0nat, 399467096895355264964657508544035369208nat, 2365948787583466432829231740581483615255340int);
    lemma_pow_step(2int, 8999194758858563409123804352480028797519453int, 399467096895355264964657508544035369208nat, 2365948787583466432829231740581483615255340int, 0nat, 798934193790710529929315017088070738416nat, 7278886969803989755663491762768664433119599int);
    lemma_pow_step(2int, 8999194758858563409123804352480028797519453int, 798934193790710529929315017088070738416nat, 7278886969803989755663491762768664433119599int, 0nat, 1597868387581421059858630034176141476832nat, 6981494201683043968951906812650877653776655int);
    lemma_pow_step(2int, 8999194758858563409123804352480028797519453int, 1597868387581421059858630034176141476832nat, 6981494201683043968951906812650877653776655int, 0nat, 3195736775162842119717260068352282953664nat, 5070293790639595561568092742568169774949835int);
    lemma_pow_step(2int, 8999194758858563409123804352480028797519453int, 3195736775162842119717260068352282953664nat, 5070293790639595561568092742568169774949835int, 1nat, 6391473550325684239434520136704565907329nat, 2258875105684056664485261430873271719314231int);
    lemma_pow_step(2int, 8999194758858563409123804352480028797519453int, 6391473550325684239434520136704565907329nat, 2258875105684056664485261430873271719314231int, 0nat, 12782947100651368478869040273409131814658nat, 253870224401152241013256309638661633096056int);
    lemma_pow_step(2int, 8999194758858563409123804352480028797519453int, 12782947100651368478869040273409131814658nat, 253870224401152241013256309638661633096056int, 0nat, 25565894201302736957738080546818263629316nat, 3531199791232951088508198333088325765164193int);
    lemma_pow_step(2int, 8999194758858563409123804352480028797519453int, 25565894201302736957738080546818263629316nat, 3531199791232951088508198333088325765164193int, 1nat, 51131788402605473915476161093636527258633nat, 952074235626960124072543135951603544824922int);
    lemma_pow_step(2int, 8999194758858563409123804352480028797519453int, 51131788402605473915476161093636527258633nat, 952074235626960124072543135951603544824922int, 0nat, 102263576805210947830952322187273054517266nat, 538359714531110078260033858419159801484441int);
    lemma_pow_step(2int, 8999194758858563409123804352480028797519453int, 102263576805210947830952322187273054517266nat, 538359714531110078260033858419159801484441int, 1nat, 204527153610421895661904644374546109034533nat, 899678889619438412408825361073336490410600int);
    lemma_pow_step(2int, 8999194758858563409123804352480028797519453int, 204527153610421895661904644374546109034533nat, 899678889619438412408825361073336490410600int, 0nat, 409054307220843791323809288749092218069066nat, 4237506165136315439698991055565485383582918int);
    lemma_pow_step(2int, 8999194758858563409123804352480028797519453int, 409054307220843791323809288749092218069066nat, 4237506165136315439698991055565485383582918int, 0nat, 818108614441687582647618577498184436138132nat, 813623623551915197479703713311836623485267int);
}

/// `2^3555588604843367605343265251868837928692` modulo `8999194758858563409123804352480028797519453`, by square-and-multiply.
proof fn lemma_pow_8999194758858563409123804352480028797519453_by_2531()
    ensures
        pow(2int, 3555588604843367605343265251868837928692nat) % 8999194758858563409123804352480028797519453int == 1833280879400548462489020109479889992188016int,
{
    lemma_pow_start(2int, 8999194758858563409123804352480028797519453int, 2int);
    lemma_pow_step(2int, 8999194758858563409123804352480028797519453int, 1nat, 2int, 0nat, 2nat, 4int);
    lemma_pow_step(2int, 8999194758858563409123804352480028797519453int, 2nat, 4int, 1nat, 5nat, 32int);
    lemma_pow_step(2int, 8999194758858563409123804352480028797519453int, 5nat, 32int, 0nat, 10nat, 1024int);
    lemma_pow_step(2int, 8999194758858563409123804352480028797519453int, 10nat, 1024int, 0nat, 20nat, 1048576int);
    lemma_pow_step(2int, 8999194758858563409123804352480028797519453int, 20nat, 1048576int, 1nat, 41nat, 2199023255552int);
    lemma_pow_step(2int, 8999194758858563409123804352480028797519453int, 41nat, 2199023255552int, 1nat, 83nat, 9671406556917033397649408int);
    lemma_pow_step(2int, 8999194758858563409123804352480028797519453int, 83nat, 9671406556917033397649408int, 1nat, 167nat, 8657421769292765115801809231082916133150948int);
    lemma_pow_step(2int, 8999194758858563409123804352480028797519453int, 167nat, 8657421769292765115801809231082916133150948int, 0nat, 334nat, 2709339827321021591218901659056970115143385int);
    lemma_pow_step(2int, 8999194758858563409123804352480028797519453int, 334nat, 2709339827321021591218901659056970115143385int, 0nat, 668nat, 7197464923434673328719169994531024603973123int);
    lemma_pow_step(2int, 8999194758858563409123804352480028797519453int, 668nat, 7197464923434673328719169994531024603973123int, 1nat, 1337nat, 5937593196096433463824477151594523505745456int);
    lemma_pow_step(2int, 8999194758858563409123804352480028797519453int, 1337nat, 5937593196096433463824477151594523505745456int, 0nat, 2674nat, 5466596717425602665269071983481923661319088int);
    lemma_pow_step(2int, 8999194758858563409123804352480028797519453int, 2674nat, 5466596717425602665269071983481923661319088int, 1nat, 5349nat, 6702028378193935192904611658169407471805424int);
    lemma_pow_step(2int, 8999194758858563409123804352480028797519453int, 5349nat, 6702028378193935192904611658169407471805424int, 1nat, 10699nat, 7058569364648476266852679407421468478240119int);
    lemma_pow_step(2int, 8999194758858563409123804352480028797519453int, 10699nat, 7058569364648476266852679407421468478240119int, 1nat, 21399nat, 6724236832860294241489897332588779000266572int);
    lemma_pow_step(2int, 8999194758858563409123804352480028797519453int, 21399nat, 6724236832860294241489897332588779000266572int, 0nat, 42798nat, 6290146882673527271793259244944389022009233int);
    lemma_pow_step(2int, 8999194758858563409123804352480028797519453int, 42798nat, 6290146882673527271793259244944389022009233int, 1nat, 85597nat, 2365122704499676311486118846108122227805247int);
    lemma_pow_step(2int, 8999194758858563409123804352480028797519453int, 85597nat, 2365122704499676311486118846108122227805247int, 1nat, 171195nat, 6107495730587106127047991107709612282761901int);
    lemma_pow_step(2int, 8999194758858563409123804352480028797519453int, 171195nat, 6107495730587106127047991107709612282761901int, 0nat, 342390nat, 6073367235864525412796875674538173618611908int);
    lemma_pow_step(2int, 8999194758858563409123804352480028797519453int, 342390nat, 6073367235864525412796875674538173618611908int, 1nat, 684781nat, 3416263713703151744312147134302785122716039int);
    lemma_pow_step(2int, 8999194758858563409123804352480028797519453int, 684781nat, 3416263713703151744312147134302785122716039int, 0nat, 1369562nat, 2024461497299940843135173363475887087827883int);
    lemma_pow_step(2int, 8999194758858563409123804352480028797519453int, 1369562nat, 2024461497299940843135173363475887087827883int, 1nat, 2739125nat, 489439314034350154370731155094123928150398int);
    lemma_pow_step(2int, 8999194758858563409123804352480028797519453int, 2739125nat, 489439314034350154370731155094123928150398int, 1nat, 5478251nat, 6563982058914540824054285860509093660251447int);
    lemma_pow_step(2int, 8999194758858563409123804352480028797519453int, 5478251nat, 6563982058914540824054285860509093660251447int, 1nat, 10956503nat, 3774761732337128997678991163679046724975911int);
    lemma_pow_step(2int, 8999194758858563409123804352480028797519453int, 10956503nat, 3774761732337128997678991163679046724975911int, 0nat, 21913006nat, 8879552718436384101871044402242170735259113int);
    lemma_pow_step(2int, 8999194758858563409123804352480028797519453int, 21913006nat, 8879552718436384101871044402242170735259113int, 1nat, 43826013nat, 3408342780558395561172569289343340459031292int);
    lemma_pow_step(2int, 8999194758858563409123804352480028797519453int, 43826013nat, 3408342780558395561172569289343340459031292int, 0nat, 87652026nat, 3415026036797999377991317872550995671558792int);
    lemma_pow_step(2int, 8999194758858563409123804352480028797519453int, 87652026nat, 3415026036797999377991317872550995671558792int, 0nat, 175304052nat, 8541881728193182335375309397358254776787842int);
    lemma_pow_step(2int, 8999194758858563409123804352480028797519453int, 175304052nat, 8541881728193182335375309397358254776787842int, 1nat, 350608105nat, 4827763284053164770948817644313024639437018int);
    lemma_pow_step(2int, 8999194758858563409123804352480028797519453int, 350608105nat, 4827763284053164770948817644313024639437018int, 1nat, 701216211nat, 4161596251588176201343524939233663369919397int);
    lemma_pow_step(2int, 8999194758858563409123804352480028797519453int, 701216211nat, 4161596251588176201343524939233663369919397int, 0nat, 1402432422nat, 5764671239775238781283459570591609627555588int);
    lemma_pow_step(2int, 8999194758858563409123804352480028797519453int, 1402432422nat, 5764671239775238781283459570591609627555588int, 1nat, 2804864845nat, 657406037151176921444302420648928385762171int);
    lemma_pow_step(2int, 8999194758858563409123804352480028797519453int, 2804864845nat, 657406037151176921444302420648928385762171int, 0nat, 5609729690nat, 2341767072119032660527761930175555237595441int);
    lemma_pow_step(2int, 8999194758858563409123804352480028797519453int, 5609729690nat, 2341767072119032660527761930175555237595441int, 1nat, 11219459381nat, 1160256317145194109451319222759873378487523int);
    lemma_pow_step(2int, 8999194758858563409123804352480028797519453int, 11219459381nat, 1160256317145194109451319222759873378487523int, 1nat, 22438918763nat, 8950142507095173273123358736400216609415886int);
    lemma_pow_step(2int, 8999194758858563409123804352480028797519453int, 22438918763nat, 8950142507095173273123358736400216609415886int, 0nat, 44877837526nat, 6728400732639654075846048293914123319371109int);
    lemma_pow_step(2int, 8999194758858563409123804352480028797519453int, 44877837526nat, 6728400732639654075846048293914123319371109int, 1nat, 89755675053nat, 5507620338592194530012847222656763323661418int);
    lemma_pow_step(2int, 8999194758858563409123804352480028797519453int, 89755675053nat, 5507620338592194530012847222656763323661418int, 0nat, 179511350106nat, 1440984213327491207207753851910894921805362int);
    lemma_pow_step(2int, 8999194758858563409123804352480028797519453int, 179511350106nat, 1440984213327491207207753851910894921805362int, 0nat, 359022700212nat, 7709563170596908374905451046609530639377753int);
    lemma_pow_step(2int, 8999194758858563409123804352480028797519453int, 359022700212nat, 7709563170596908374905451046609530639377753int, 1nat, 718045400425nat, 6886011956439498894865266412214762407708770int);
    lemma_pow_step(2int, 8999194758858563409123804352480028797519453int, 718045400425nat, 6886011956439498894865266412214762407708770int, 0nat, 1436090800850nat, 4039927983464150066218642602846347297947254int);
    lemma_pow_step(2int, 8999194758858563409123804352480028797519453int, 1436090800850nat, 4039927983464150066218642602846347297947254int, 0nat, 2872181601700nat, 3675029460247062803251226840690954864416383int);
    lemma_pow_step(2int, 8999194758858563409123804352480028797519453int, 2872181601700nat, 3675029460247062803251226840690954864416383int, 0nat, 5744363203400nat, 5309624613792053650013713501198502737619183int);
    lemma_pow_step(2int, 8999194758858563409123804352480028797519453int, 5744363203400nat, 5309624613792053650013713501198502737619183int, 0nat, 11488726406800nat, 7818525364304326669447960146127542076008070int);
    lemma_pow_step(2int, 8999194758858563409123804352480028797519453int, 11488726406800nat, 7818525364304326669447960146127542076008070int, 0nat, 22977452813600nat, 5578961581902866988193127865957458487742338int);
    lemma_pow_step(2int, 8999194758858563409123804352480028797519453int, 22977452813600nat, 5578961581902866988193127865957458487742338int, 1nat, 45954905627201nat, 2062124191424171411651504517341662790879749int);
    lemma_pow_step(2int, 8999194758858563409123804352480028797519453int, 45954905627201nat, 2062124191424171411651504517341662790879749int, 1nat, 91909811254403nat, 3394544138815307501614260460991120457073729int);
    lemma_pow_step(2int, 8999194758858563409123804352480028797519453int, 91909811254403nat, 3394544138815307501614260460991120457073729int, 0nat, 183819622508806nat, 2234339144741960551693886089778894533178794int);
    lemma_pow_step(2int, 8999194758858563409123804352480028797519453int, 183819622508806nat, 2234339144741960551693886089778894533178794int, 0nat, 367639245017612nat, 6316871415047194971534640396353015014583904int);
    lemma_pow_step(2int, 8999194758858563409123804352480028797519453int, 367639245017612nat, 6316871415047194971534640396353015014583904int, 1nat, 735278490035225nat, 6071065799346326837239392837407121842118275int);
    lemma_pow_step(2int, 8999194758858563409123804352480028797519453int, 735278490035225nat, 6071065799346326837239392837407121842118275int, 0nat, 1470556980070450nat, 5318638450036495141914040442378650520622005int);
    lemma_pow_step(2int, 8999194758858563409123804352480028797519453int, 1470556980070450nat, 5318638450036495141914040442378650520622005int, 1nat, 2941113960140901nat, 2118187416969827457926183607193564704342601int);
    lemma_pow_step(2int, 8999194758858563409123804352480028797519453int, 2941113960140901nat, 2118187416969827457926183607193564704342601int, 1nat, 5882227920281803nat, 7148191956517161127736160414803346925071586int);
    lemma_pow_step(2int, 8999194758858563409123804352480028797519453int, 5882227920281803nat, 7148191956517161127736160414803346925071586int, 1nat, 11764455840563607nat, 7422539606073339364381632514343341615759177int);
    lemma_pow_step(2int, 8999194758858563409123804352480028797519453int, 11764455840563607nat, 7422539606073339364381632514343341615759177int, 1nat, 23528911681127215nat, 4793807746398644355467835670090319058587928int);
    lemma_pow_step(2int, 8999194758858563409123804352480028797519453int, 23528911681127215nat, 4793807746398644355467835670090319058587928int, 0nat, 47057823362254430nat, 389907485708196816707158301456394117931184int);
    lemma_pow_step(2int, 8999194758858563409123804352480028797519453int, 47057823362254430nat, 389907485708196816707158301456394117931184int, 0nat, 94115646724508860nat, 6722042059599849377953703331005650682538813int);
    lemma_pow_step(2int, 8999194758858563409123804352480028797519453int, 94115646724508860nat, 6722042059599849377953703331005650682538813int, 0nat, 188231293449017720nat, 7262115799370223386273241376806569401608999int);
    lemma_pow_step(2int, 8999194758858563409123804352480028797519453int, 188231293449017720nat, 7262115799370223386273241376806569401608999int, 0nat, 376462586898035440nat, 7295900818037872817179521270692601836923583int);
    lemma_pow_step(2int, 8999194758858563409123804352480028797519453int, 376462586898035440nat, 7295900818037872817179521270692601836923583int, 0nat, 752925173796070880nat, 5170243143993095456778455252533468441317112int);
    lemma_pow_step(2int, 8999194758858563409123804352480028797519453int, 752925173796070880nat, 5170243143993095456778455252533468441317112int, 1nat, 1505850347592141761nat, 6318295337963567006410277803294770415911794int);
    lemma_pow_step(2int, 8999194758858563409123804352480028797519453int, 1505850347592141761nat, 6318295337963567006410277803294770415911794int, 1nat, 3011700695184283523nat, 3082182626883467816788700260232830843275192int);
    lemma_pow_step(2int, 8999194758858563409123804352480028797519453int, 3011700695184283523nat, 3082182626883467816788700260232830843275192int, 1nat, 6023401390368567047nat, 2548910107829657165216383570664336454823062int);
    lemma_pow_step(2int, 8999194758858563409123804352480028797519453int, 6023401390368567047nat, 2548910107829657165216383570664336454823062int, 1nat, 12046802780737134095nat, 1563075115670100156011831846362613358369254int);
    lemma_pow_step(2int, 8999194758858563409123804352480028797519453int, 12046802780737134095nat, 1563075115670100156011831846362613358369254int, 1nat, 24093605561474268191nat, 1977273634624105995883773833275433524706092int);
    lemma_pow_step(2int, 8999194758858563409123804352480028797519453int, 24093605561474268191nat, 1977273634624105995883773833275433524706092int, 1nat, 48187211122948536383nat, 1072244043731385985787044294289062571423771int);
    lemma_pow_step(2int, 8999194758858563409123804352480028797519453int, 48187211122948536383nat, 1072244043731385985787044294289062571423771int, 0nat, 96374422245897072766nat, 5668431047301901943791518087965550370409500int);
    lemma_pow_step(2int, 8999194758858563409123804352480028797519453int, 96374422245897072766nat, 5668431047301901943791518087965550370409500int, 1nat, 192748844491794145533nat, 2395769248034604204484815000536967644369845int);
    lemma_pow_step(2int, 8999194758858563409123804352480028797519453int, 192748844491794145533nat, 2395769248034604204484815000536967644369845int, 0nat, 385497688983588291066nat, 3523172432104949606508995649581880032997442int);
    lemma_pow_step(2int, 8999194758858563409123804352480028797519453int, 385497688983588291066nat, 3523172432104949606508995649581880032997442int, 1nat, 770995377967176582133nat, 2261367008106478651407900457474573046240501int);
    lemma_pow_step(2int, 8999194758858563409123804352480028797519453int, 770995377967176582133nat, 2261367008106478651407900457474573046240501int, 0nat, 1541990755934353164266nat, 1272322366860046783672808735237239574255925int);
    lemma_pow_step(2int, 8999194758858563409123804352480028797519453int, 1541990755934353164266nat, 1272322366860046783672808735237239574255925int, 0nat, 3083981511868706328532nat, 6551558671001315023188635798517981985695597int);
    lemma_pow_step(2int, 8999194758858563409123804352480028797519453int, 3083981511868706328532nat, 6551558671001315023188635798517981985695597int, 0nat, 6167963023737412657064nat, 8449657563097064890548083140568729425473621int);
    lemma_pow_step(2int, 8999194758858563409123804352480028797519453int, 6167963023737412657064nat, 8449657563097064890548083140568729425473621int, 1nat, 12335926047474825314129nat, 5362317887265376611277598584336799174583745int);
    lemma_pow_step(2int, 8999194758858563409123804352480028797519453int, 12335926047474825314129nat, 5362317887265376611277598584336799174583745int, 0nat, 24671852094949650628258nat, 3066571899312690740598363610848952686370007int);
    lemma_pow_step(2int, 8999194758858563409123804352480028797519453int, 24671852094949650628258nat, 3066571899312690740598363610848952686370007int, 1nat, 49343704189899301256517nat, 3691813094473362523680412573014350755118688int);
    lemma_pow_step(2int, 8999194758858563409123804352480028797519453int, 49343704189899301256517nat, 3691813094473362523680412573014350755118688int, 1nat, 98687408379798602513035nat, 2619880684087865081272878864617598144172914int);
    lemma_pow_step(2int, 8999194758858563409123804352480028797519453int, 98687408379798602513035nat, 2619880684087865081272878864617598144172914int, 0nat, 197374816759597205026070nat, 4178567686014808034211394935961806061822873int);
    lemma_pow_step(2int, 8999194758858563409123804352480028797519453int, 197374816759597205026070nat, 4178567686014808034211394935961806061822873int, 0nat, 394749633519194410052140nat, 2004054392523606105035714071989494879012126int);
    lemma_pow_step(2int, 8999194758858563409123804352480028797519453int, 394749633519194410052140nat, 2004054392523606105035714071989494879012126int, 1nat, 789499267038388820104281nat, 5368799020292945064130714345195877484512144int);
    lemma_pow_step(2int, 8999194758858563409123804352480028797519453int, 789499267038388820104281nat, 5368799020292945064130714345195877484512144int, 0nat, 1578998534076777640208562nat, 8588159841258094684538568086865759308300105int);
    lemma_pow_step(2int, 8999194758858563409123804352480028797519453int, 1578998534076777640208562nat, 8588159841258094684538568086865759308300105int, 0nat, 3157997068153555280417124nat, 3399523337621844295538266163462305666276851int);
    lemma_pow_step(2int, 8999194758858563409123804352480028797519453int, 3157997068153555280417124nat, 3399523337621844295538266163462305666276851int, 0nat, 6315994136307110560834248nat, 2803378243574621162299988365185212613767229int);
    lemma_pow_step(2int, 8999194758858563409123804352480028797519453int, 6315994136307110560834248nat, 2803378243574621162299988365185212613767229int, 1nat, 12631988272614221121668497nat, 2658683678533903673136510156805367270230806int);
    lemma_pow_step(2int, 8999194758858563409123804352480028797519453int, 12631988272614221121668497nat, 2658683678533903673136510156805367270230806int, 0nat, 25263976545228442243336994nat, 8290480776177142845019290604850604352660135int);
    lemma_pow_step(2int, 8999194758858563409123804352480028797519453int, 25263976545228442243336994nat, 8290480776177142845019290604850604352660135int, 0nat, 50527953090456884486673988nat, 3594540306644722838502147901356447083755295int);
    lemma_pow_step(2int, 8999194758858563409123804352480028797519453int, 50527953090456884486673988nat, 3594540306644722838502147901356447083755295int, 1nat, 101055906180913768973347977nat, 1078148372915322410020895566902520179923579int);
    lemma_pow_step(2int, 8999194758858563409123804352480028797519453int, 101055906180913768973347977nat, 1078148372915322410020895566902520179923579int, 1nat, 202111812361827537946695955nat, 6414372187522664483559300266189727285384255int);
    lemma_pow_step(2int, 8999194758858563409123804352480028797519453int, 202111812361827537946695955nat, 6414372187522664483559300266189727285384255int, 0nat, 404223624723655075893391910nat, 5518642618140535378592255117239215591547599int);
    lemma_pow_step(2int, 8999194758858563409123804352480028797519453int, 404223624723655075893391910nat, 5518642618140535378592255117239215591547599int, 0nat, 808447249447310151786783820nat, 4979465333078551735507043210521151090338159int);
    lemma_pow_step(2int, 8999194758858563409123804352480028797519453int, 808447249447310151786783820nat, 4979465333078551735507043210521151090338159int, 0nat, 1616894498894620303573567640nat, 239616574100635237351324922502858169026159int);
    lemma_pow_step(2int, 8999194758858563409123804352480028797519453int, 1616894498894620303573567640nat, 239616574100635237351324922502858169026159int, 0nat, 3233788997789240607147135280nat, 7587363340338935791036817636035401929930497int);
    lemma_pow_step(2int, 8999194758858563409123804352480028797519453int, 3233788997789240607147135280nat, 7587363340338935791036817636035401929930497int, 1nat, 6467577995578481214294270561nat, 2288827714013442266969480112335650559323831int);
    lemma_pow_step(2int, 8999194758858563409123804352480028797519453int, 6467577995578481214294270561nat, 2288827714013442266969480112335650559323831int, 0nat, 12935155991156962428588541122nat, 4284809290752046697700774190880164745098874int);
    lemma_pow_step(2int, 8999194758858563409123804352480028797519453int, 12935155991156962428588541122nat, 4284809290752046697700774190880164745098874int, 0nat, 25870311982313924857177082244nat, 7855012230363776574354404623813898833060206int);
    lemma_pow_step(2int, 8999194758858563409123804352480028797519453int, 25870311982313924857177082244nat, 7855012230363776574354404623813898833060206int, 1nat, 51740623964627849714354164489nat, 4591132141217005150543002207008402593498409int);
    lemma_pow_step(2int, 8999194758858563409123804352480028797519453int, 51740623964627849714354164489nat, 4591132141217005150543002207008402593498409int, 0nat, 103481247929255699428708328978nat, 2113466429590134125057632414413291055377112int);
    lemma_pow_step(2int, 8999194758858563409123804352480028797519453int, 103481247929255699428708328978nat, 2113466429590134125057632414413291055377112int, 0nat, 206962495858511398857416657956nat, 7746324416515337358123508946322334671063769int);
    lemma_pow_step(2int, 8999194758858563409123804352480028797519453int, 206962495858511398857416657956nat, 7746324416515337358123508946322334671063769int, 0nat, 413924991717022797714833315912nat, 8201678349091818867969510425277975392211946int);
    lemma_pow_step(2int, 8999194758858563409123804352480028797519453int, 413924991717022797714833315912nat, 8201678349091818867969510425277975392211946int, 0nat, 827849983434045595429666631824nat, 7481099267196490171005735080278996132246585int);
    lemma_pow_step(2int, 8999194758858563409123804352480028797519453int, 827849983434045595429666631824nat, 7481099267196490171005735080278996132246585int, 1nat, 1655699966868091190859333263649nat, 7572077023880165996626204223286932944851503int);
    lemma_pow_step(2int, 8999194758858563409123804352480028797519453int, 1655699966868091190859333263649nat, 7572077023880165996626204223286932944851503int, 0nat, 3311399933736182381718666527298nat, 1875356296208703956139088794753488434671063int);
    lemma_pow_step(2int, 8999194758858563409123804352480028797519453int, 3311399933736182381718666527298nat, 1875356296208703956139088794753488434671063int, 0nat, 6622799867472364763437333054596nat, 3773258154049183115341695830554250213047885int);
    lemma_pow_step(2int, 8999194758858563409123804352480028797519453int, 6622799867472364763437333054596nat, 3773258154049183115341695830554250213047885int, 0nat, 13245599734944729526874666109192nat, 6306195991385839745793999560329181676115124int);
    lemma_pow_step(2int, 8999194758858563409123804352480028797519453int, 13245599734944729526874666109192nat, 6306195991385839745793999560329181676115124int, 1nat, 26491199469889459053749332218385nat, 7695360158666924121578141603939482526061479int);
    lemma_pow_step(2int, 8999194758858563409123804352480028797519453int, 26491199469889459053749332218385nat, 7695360158666924121578141603939482526061479int, 0nat, 52982398939778918107498664436770nat, 1836892313118791100661565213422844457397542int);
    lemma_pow_step(2int, 8999194758858563409123804352480028797519453int, 52982398939778918107498664436770nat, 1836892313118791100661565213422844457397542int, 0nat, 105964797879557836214997328873540nat, 3713042261798657372868482907161438622107330int);
    lemma_pow_step(2int, 8999194758858563409123804352480028797519453int, 105964797879557836214997328873540nat, 3713042261798657372868482907161438622107330int, 0nat, 211929595759115672429994657747080nat, 3624793501453335926266574524859725124471933int);
    lemma_pow_step(2int, 8999194758858563409123804352480028797519453int, 211929595759115672429994657747080nat, 3624793501453335926266574524859725124471933int, 0nat, 423859191518231344859989315494160nat, 7360163909990858740247209032077423335494379int);
    lemma_pow_step(2int, 8999194758858563409123804352480028797519453int, 423859191518231344859989315494160nat, 7360163909990858740247209032077423335494379int, 0nat, 847718383036462689719978630988320nat, 551217085876085674021258223374377065148192int);
    lemma_pow_step(2int, 8999194758858563409123804352480028797519453int, 847718383036462689719978630988320nat, 551217085876085674021258223374377065148192int, 1nat, 1695436766072925379439957261976641nat, 228945268376740612274885783659100629228672int);
    lemma_pow_step(2int, 8999194758858563409123804352480028797519453int, 1695436766072925379439957261976641nat, 228945268376740612274885783659100629228672int, 1nat, 3390873532145850758879914523953283nat, 8266729038527574006727736814647980996340515int);
    lemma_pow_step(2int, 8999194758858563409123804352480028797519453int, 3390873532145850758879914523953283nat, 8266729038527574006727736814647980996340515int, 0nat, 6781747064291701517759829047906566nat, 8017383494115463560489196923503101089499870int);
    lemma_pow_step(2int, 8999194758858563409123804352480028797519453int, 6781747064291701517759829047906566nat, 8017383494115463560489196923503101089499870int, 0nat, 13563494128583403035519658095813132nat, 888086111144599204375385315847188276168426int);
    lemma_pow_step(2int, 8999194758858563409123804352480028797519453int, 13563494128583403035519658095813132nat, 888086111144599204375385315847188276168426int, 1nat, 27126988257166806071039316191626265nat, 3916043569392152607633700933248276629076972int);
    lemma_pow_step(2int, 8999194758858563409123804352480028797519453int, 27126988257166806071039316191626265nat, 3916043569392152607633700933248276629076972int, 1nat, 54253976514333612142078632383252531nat, 6683312711710953532870848733749206080639905int);
    lemma_pow_step(2int, 8999194758858563409123804352480028797519453int, 54253976514333612142078632383252531nat, 6683312711710953532870848733749206080639905int, 1nat, 108507953028667224284157264766505063nat, 1141066845907129758155545378177275876896152int);
    lemma_pow_step(2int, 8999194758858563409123804352480028797519453int, 108507953028667224284157264766505063nat, 1141066845907129758155545378177275876896152int, 1nat, 217015906057334448568314529533010127nat, 144793571406868866054256426024279303611672int);
    lemma_pow_step(2int, 8999194758858563409123804352480028797519453int, 217015906057334448568314529533010127nat, 144793571406868866054256426024279303611672int, 0nat, 434031812114668897136629059066020254nat, 6888756859830077858352114964046400077875028int);
    lemma_pow_step(2int, 8999194758858563409123804352480028797519453int, 434031812114668897136629059066020254nat, 6888756859830077858352114964046400077875028int, 1nat, 868063624229337794273258118132040509nat, 5054683251219062369027767886621134938890779int);
    lemma_pow_step(2int, 8999194758858563409123804352480028797519453int, 868063624229337794273258118132040509nat, 5054683251219062369027767886621134938890779int, 1nat, 1736127248458675588546516236264081019nat, 3249380999002904128216702307708796762469208int);
    lemma_pow_step(2int, 8999194758858563409123804352480028797519453int, 1736127248458675588546516236264081019nat, 3249380999002904128216702307708796762469208int, 1nat, 3472254496917351177093032472528162039nat, 2675735292190585490378696239225266102813802int);
    lemma_pow_step(2int, 8999194758858563409123804352480028797519453int, 3472254496917351177093032472528162039nat, 2675735292190585490378696239225266102813802int, 1nat, 6944508993834702354186064945056324079nat, 7896659146734191182060104915057996472517279int);
    lemma_pow_step(2int, 8999194758858563409123804352480028797519453int, 6944508993834702354186064945056324079nat, 7896659146734191182060104915057996472517279int, 0nat, 13889017987669404708372129890112648158nat, 5696851667469421646958677449250427348057899int);
    lemma_pow_step(2int, 8999194758858563409123804352480028797519453int, 13889017987669404708372129890112648158nat, 5696851667469421646958677449250427348057899int, 1nat, 27778035975338809416744259780225296317nat, 150126378258396351078424440065598377302394int);
    lemma_pow_step(2int, 8999194758858563409123804352480028797519453int, 27778035975338809416744259780225296317nat, 150126378258396351078424440065598377302394int, 1nat, 55556071950677618833488519560450592635nat, 8456023782920034866057882790239776078169054int);
    lemma_pow_step(2int, 8999194758858563409123804352480028797519453int, 55556071950677618833488519560450592635nat, 8456023782920034866057882790239776078169054int, 1nat, 111112143901355237666977039120901185271nat, 73813197594232723530204222749396475352392int);
    lemma_pow_step(2int, 8999194758858563409123804352480028797519453int, 111112143901355237666977039120901185271nat, 73813197594232723530204222749396475352392int, 1nat, 222224287802710475333954078241802370543nat, 1870163920579731115620992249572823741728454int);
    lemma_pow_step(2int, 8999194758858563409123804352480028797519453int, 222224287802710475333954078241802370543nat, 1870163920579731115620992249572823741728454int, 0nat, 444448575605420950667908156483604741086nat, 6604462669576083378952828701337328398688785int);
    lemma_pow_step(2int, 8999194758858563409123804352480028797519453int, 444448575605420950667908156483604741086nat, 6604462669576083378952828701337328398688785int, 1nat, 888897151210841901335816312967209482173nat, 7216713467929604326052330946229804155121966int);
    lemma_pow_step(2int, 8999194758858563409123804352480028797519453int, 888897151210841901335816312967209482173nat, 7216713467929604326052330946229804155121966int, 0nat, 1777794302421683802671632625934418964346nat, 4223807136382020455889995139169198884456266int);
    lemma_pow_step(2int, 8999194758858563409123804352480028797519453int, 1777794302421683802671632625934418964346nat, 4223807136382020455889995139169198884456266int, 0nat, 3555588604843367605343265251868837928692nat, 1833280879400548462489020109479889992188016int);
}

/// `2^77845685309711369161040841089591349684` modulo `8999194758858563409123804352480028797519453`, by square-and-multiply.
proof fn lemma_pow_8999194758858563409123804352480028797519453_by_115603()
    ensures
        pow(2int, 77845685309711369161040841089591349684nat) % 8999194758858563409123804352480028797519453int == 5381518379154031554051565032301077920065244int,
{
    lemma_pow_start(2int, 8999194758858563409123804352480028797519453int, 2int);
    lemma_pow_step(2int, 8999194758858563409123804352480028797519453int, 1nat, 2int, 1nat, 3nat, 8int);
    lemma_pow_step(2int, 8999194758858563409123804352480028797519453int, 3nat, 8int, 1nat, 7nat, 128int);
    lemma_pow_step(2int, 8999194758858563409123804352480028797519453int, 7nat, 128int, 0nat, 14nat, 16384int);
    lemma_pow_step(2int, 8999194758858563409123804352480028797519453int, 14nat, 16384int, 1nat, 29nat, 536870912int);
    lemma_pow_step(2int, 8999194758858563409123804352480028797519453int, 29nat, 536870912int, 0nat, 58nat, 288230376151711744int);
    lemma_pow_step(2int, 8999194758858563409123804352480028797519453int, 58nat, 288230376151711744int, 1nat, 117nat, 166153499473114484112975882535043072int);
    lemma_pow_step(2int, 8999194758858563409123804352480028797519453int, 117nat, 166153499473114484112975882535043072int, 0nat, 234nat, 8999194758815113706354124609580820001617501int);
    lemma_pow_step(2int, 8999194758858563409123804352480028797519453int, 234nat, 8999194758815113706354124609580820001617501int, 0nat, 468nat, 5125055396084442855875523665606533343443051int);
    lemma_pow_step(2int, 8999194758858563409123804352480028797519453int, 468nat, 5125055396084442855875523665606533343443051int, 1nat, 937nat, 2595026120204208865483909780068758900842200int);
    lemma_pow_step(2int, 8999194758858563409123804352480028797519453int, 937nat, 2595026120204208865483909780068758900842200int, 0nat, 1874nat, 814490146119583831145712277021899443640int);
    lemma_pow_step(2int, 8999194758858563409123804352480028797519453int, 1874nat, 814490146119583831145712277021899443640int, 0nat, 3748nat, 6319910617385926448251472506898336563728929int);
    lemma_pow_step(2int, 8999194758858563409123804352480028797519453int, 3748nat, 6319910617385926448251472506898336563728929int, 0nat, 7496nat, 6184059185649395175835585954805046170659385int);
    lemma_pow_step(2int, 8999194758858563409123804352480028797519453int, 7496nat, 6184059185649395175835585954805046170659385int, 0nat, 14992nat, 8738719505438840370201447929005409737585795int);
    lemma_pow_step(2int, 8999194758858563409123804352480028797519453int, 14992nat, 8738719505438840370201447929005409737585795int, 1nat, 29985nat, 1218729180112173010961907624782152817553865int);
    lemma_pow_step(2int, 8999194758858563409123804352480028797519453int, 29985nat, 1218729180112173010961907624782152817553865int, 0nat, 59970nat, 2369605724524948901795239873057847271866076int);
    lemma_pow_step(2int, 8999194758858563409123804352480028797519453int, 59970nat, 2369605724524948901795239873057847271866076int, 0nat, 119940nat, 5605645907447659687815225956888338282935545int);
    lemma_pow_step(2int, 8999194758858563409123804352480028797519453int, 119940nat, 5605645907447659687815225956888338282935545int, 0nat, 239880nat, 5424267529104308613045997326247212075616938int);
    lemma_pow_step(2int, 8999194758858563409123804352480028797519453int, 239880nat, 5424267529104308613045997326247212075616938int, 1nat, 479761nat, 8042564637676925616485814527183814683839185int);
    lemma_pow_step(2int, 8999194758858563409123804352480028797519453int, 479761nat, 8042564637676925616485814527183814683839185int, 0nat, 959522nat, 904471995868609356753600293428805883926314int);
    lemma_pow_step(2int, 8999194758858563409123804352480028797519453int, 959522nat, 904471995868609356753600293428805883926314int, 0nat, 1919044nat, 295584539619187085599340918075202721397330int);
    lemma_pow_step(2int, 8999194758858563409123804352480028797519453int, 1919044nat, 295584539619187085599340918075202721397330int, 0nat, 3838088nat, 6846569705452358280770687065863632681901994int);
    lemma_pow_step(2int, 8999194758858563409123804352480028797519453int, 3838088nat, 6846569705452358280770687065863632681901994int, 1nat, 7676177nat, 2258542361087652096154120819663069741786289int);
    lemma_pow_step(2int, 8999194758858563409123804352480028797519453int, 7676177nat, 2258542361087652096154120819663069741786289int, 0nat, 15352354nat, 2533189885737463662853398943695487483177487int);
    lemma_pow_step(2int, 8999194758858563409123804352480028797519453int, 15352354nat, 2533189885737463662853398943695487483177487int, 0nat, 30704708nat, 1345167714656373989925029833982242068489491int);
    lemma_pow_step(2int, 8999194758858563409123804352480028797519453int, 30704708nat, 1345167714656373989925029833982242068489491int, 1nat, 61409417nat, 2841837744564491154670025898646270159053271int);
    lemma_pow_step(2int, 8999194758858563409123804352480028797519453int, 61409417nat, 2841837744564491154670025898646270159053271int, 1nat, 122818835nat, 3984685469937706735818109975279397967634877int);
    lemma_pow_step(2int, 8999194758858563409123804352480028797519453int, 122818835nat, 3984685469937706735818109975279397967634877int, 1nat, 245637671nat, 8645415622928981501967430666616962158191324int);
    lemma_pow_step(2int, 8999194758858563409123804352480028797519453int, 245637671nat, 8645415622928981501967430666616962158191324int, 0nat, 491275342nat, 1746963301720569113294556719445554535344600int);
    lemma_pow_step(2int, 8999194758858563409123804352480028797519453int, 491275342nat, 1746963301720569113294556719445554535344600int, 0nat, 982550684nat, 8847294777546886616712724216975227784197889int);
    lemma_pow_step(2int, 8999194758858563409123804352480028797519453int, 982550684nat, 8847294777546886616712724216975227784197889int, 0nat, 1965101368nat, 2512936638079845065680331101611228593788194int);
    lemma_pow_step(2int, 8999194758858563409123804352480028797519453int, 1965101368nat, 2512936638079845065680331101611228593788194int, 1nat, 3930202737nat, 2041979342344002716109969360469102458315098int);
    lemma_pow_step(2int, 8999194758858563409123804352480028797519453int, 3930202737nat, 2041979342344002716109969360469102458315098int, 1nat, 7860405475nat, 4230387819503641460429715050410049929855898int);
    lemma_pow_step(2int, 8999194758858563409123804352480028797519453int, 7860405475nat, 4230387819503641460429715050410049929855898int, 1nat, 15720810951nat, 4370367920812290960181648511514085310497282int);
    lemma_pow_step(2int, 8999194758858563409123804352480028797519453int, 15720810951nat, 4370367920812290960181648511514085310497282int, 1nat, 31441621903nat, 988470259601516797203649910387217186164738int);
    lemma_pow_step(2int, 8999194758858563409123804352480028797519453int, 31441621903nat, 988470259601516797203649910387217186164738int, 1nat, 62883243807nat, 8491635128902117964003237049599509159653880int);
    lemma_pow_step(2int, 8999194758858563409123804352480028797519453int, 62883243807nat, 8491635128902117964003237049599509159653880int, 1nat, 125766487615nat, 3526286501741158914288482758661336176318100int);
    lemma_pow_step(2int, 8999194758858563409123804352480028797519453int, 125766487615nat, 3526286501741158914288482758661336176318100int, 0nat, 251532975230nat, 58262445828673351374962121010078734232502int);
    lemma_pow_step(2int, 8999194758858563409123804352480028797519453int, 251532975230nat, 58262445828673351374962121010078734232502int, 1nat, 503065950461nat, 3252847596105005954944447207464620899195737int);
    lemma_pow_step(2int, 8999194758858563409123804352480028797519453int, 503065950461nat, 3252847596105005954944447207464620899195737int, 1nat, 1006131900923nat, 2977869272942485603272994516221447976477829int);
    lemma_pow_step(2int, 8999194758858563409123804352480028797519453int, 1006131900923nat, 2977869272942485603272994516221447976477829int, 0nat, 2012263801846nat, 3022999984997908841662923515108488412844543int);
    lemma_pow_step(2int, 8999194758858563409123804352480028797519453int, 2012263801846nat, 3022999984997908841662923515108488412844543int, 1nat, 4024527603693nat, 5361818999253002209197895776723477969091023int);
    lemma_pow_step(2int, 8999194758858563409123804352480028797519453int, 4024527603693nat, 5361818999253002209197895776723477969091023int, 1nat, 8049055207387nat, 5300018822478658025112673620216124236456190int);
    lemma_pow_step(2int, 8999194758858563409123804352480028797519453int, 8049055207387nat, 5300018822478658025112673620216124236456190int, 0nat, 16098110414774nat, 4005443538206002460342564199878147289610074int);
    lemma_pow_step(2int, 8999194758858563409123804352480028797519453int, 16098110414774nat, 4005443538206002460342564199878147289610074int, 0nat, 32196220829548nat, 7954677857437761764705417232908771589744609int);
    lemma_pow_step(2int, 8999194758858563409123804352480028797519453int, 32196220829548nat, 7954677857437761764705417232908771589744609int, 1nat, 64392441659097nat, 1339323661139964094120530449070451758132793int);
    lemma_pow_step(2int, 8999194758858563409123804352480028797519453int, 64392441659097nat, 1339323661139964094120530449070451758132793int, 0nat, 128784883318194nat, 317422832271519135598959639658523349286355int);
    lemma_pow_step(2int, 8999194758858563409123804352480028797519453int, 128784883318194nat, 317422832271519135598959639658523349286355int, 1nat, 257569766636389nat, 4960625457174066472881640515646526239511388int);
    lemma_pow_step(2int, 8999194758858563409123804352480028797519453int, 257569766636389nat, 4960625457174066472881640515646526239511388int, 0nat, 515139533272778nat, 8281254231349417029729086215461647462584225int);
    lemma_pow_step(2int, 8999194758858563409123804352480028797519453int, 515139533272778nat, 8281254231349417029729086215461647462584225int, 0nat, 1030279066545556nat, 300679124291789672278109868778000723833882int);
    lemma_pow_step(2int, 8999194758858563409123804352480028797519453int, 1030279066545556nat, 300679124291789672278109868778000723833882int, 0nat, 2060558133091112nat, 4138790536955830596123806981467411621611457int);
    lemma_pow_step(2int, 8999194758858563409123804352480028797519453int, 2060558133091112nat, 4138790536955830596123806981467411621611457int, 1nat, 4121116266182225nat, 2836124784881630601974948440309056643163888int);
    lemma_pow_step(2int, 8999194758858563409123804352480028797519453int, 4121116266182225nat, 2836124784881630601974948440309056643163888int, 1nat, 8242232532364451nat, 7675730882414200059444421776082230690454819int);
    lemma_pow_step(2int, 8999194758858563409123804352480028797519453int, 8242232532364451nat, 7675730882414200059444421776082230690454819int, 1nat, 16484465064728903nat, 1457716565733763247907936454998135548691809int);
    lemma_pow_step(2int, 8999194758858563409123804352480028797519453int, 16484465064728903nat, 1457716565733763247907936454998135548691809int, 0nat, 32968930129457806nat, 8562941557849738979513155848205326393450443int);
    lemma_pow_step(2int, 8999194758858563409123804352480028797519453int, 32968930129457806nat, 8562941557849738979513155848205326393450443int, 0nat, 65937860258915612nat, 8569321308685870877048352658880427521178841int);
    lemma_pow_step(2int, 8999194758858563409123804352480028797519453int, 65937860258915612nat, 8569321308685870877048352658880427521178841int, 1nat, 131875720517831225nat, 2280940153142685470188860628135643540789546int);
    lemma_pow_step(2int, 8999194758858563409123804352480028797519453int, 131875720517831225nat, 2280940153142685470188860628135643540789546int, 1nat, 263751441035662451nat, 8531414525160109485206902128065543569986945int);
    lemma_pow_step(2int, 8999194758858563409123804352480028797519453int, 263751441035662451nat, 8531414525160109485206902128065543569986945int, 1nat, 527502882071324903nat, 8659482952110546173695924471580569331378323int);
    lemma_pow_step(2int, 8999194758858563409123804352480028797519453int, 527502882071324903nat, 8659482952110546173695924471580569331378323int, 0nat, 1055005764142649806nat, 6318449953945220387988398728944746984658356int);
    lemma_pow_step(2int, 8999194758858563409123804352480028797519453int, 1055005764142649806nat, 6318449953945220387988398728944746984658356int, 1nat, 2110011528285299613nat, 6470960862488423065215302022428315700457565int);
    lemma_pow_step(2int, 8999194758858563409123804352480028797519453int, 2110011528285299613nat, 6470960862488423065215302022428315700457565int, 0nat, 4220023056570599226nat, 5923700488508467238065771892127316104385185int);
    lemma_pow_step(2int, 8999194758858563409123804352480028797519453int, 4220023056570599226nat, 5923700488508467238065771892127316104385185int, 0nat, 8440046113141198452nat, 1226815311797961892903116847033186010193480int);
    lemma_pow_step(2int, 8999194758858563409123804352480028797519453int, 8440046113141198452nat, 1226815311797961892903116847033186010193480int, 0nat, 16880092226282396904nat, 8781359019824039717117555772005660475715562int);
    lemma_pow_step(2int, 8999194758858563409123804352480028797519453int, 16880092226282396904nat, 8781359019824039717117555772005660475715562int, 1nat, 33760184452564793809nat, 5946426797449603200429696111924801622889383int);
    lemma_pow_step(2int, 8999194758858563409123804352480028797519453int, 33760184452564793809nat, 5946426797449603200429696111924801622889383int, 0nat, 67520368905129587618nat, 5391015055404373697832845221995802473317344int);
    lemma_pow_step(2int, 8999194758858563409123804352480028797519453int, 67520368905129587618nat, 5391015055404373697832845221995802473317344int, 1nat, 135040737810259175237nat, 8032347067774558429892902076235992764097274int);
    lemma_pow_step(2int, 8999194758858563409123804352480028797519453int, 135040737810259175237nat, 8032347067774558429892902076235992764097274int, 1nat, 270081475620518350475nat, 1744861381518148005351907742521881630661498int);
    lemma_pow_step(2int, 8999194758858563409123804352480028797519453int, 270081475620518350475nat, 1744861381518148005351907742521881630661498int, 1nat, 540162951241036700951nat, 8214769590066818720521357130244444789516029int);
    lemma_pow_step(2int, 8999194758858563409123804352480028797519453int, 540162951241036700951nat, 8214769590066818720521357130244444789516029int, 1nat, 1080325902482073401903nat, 2121586219286837035039021555531960437533217int);
    lemma_pow_step(2int, 8999194758858563409123804352480028797519453int, 1080325902482073401903nat, 2121586219286837035039021555531960437533217int, 0nat, 2160651804964146803806nat, 971175209263904179146212559113518115484742int);
    lemma_pow_step(2int, 8999194758858563409123804352480028797519453int, 2160651804964146803806nat, 971175209263904179146212559113518115484742int, 1nat, 4321303609928293607613nat, 7271800007958604718388779555793711662989037int);
    lemma_pow_step(2int, 8999194758858563409123804352480028797519453int, 4321303609928293607613nat, 7271800007958604718388779555793711662989037int, 1nat, 8642607219856587215227nat, 675300661945732637759386047073221694343980int);
    lemma_pow_step(2int, 8999194758858563409123804352480028797519453int, 8642607219856587215227nat, 675300661945732637759386047073221694343980int, 1nat, 17285214439713174430455nat, 5075289695077200802199488458652310540740462int);
    lemma_pow_step(2int, 8999194758858563409123804352480028797519453int, 17285214439713174430455nat, 5075289695077200802199488458652310540740462int, 0nat, 34570428879426348860910nat, 6880946497186768381687959671660522067254555int);
    lemma_pow_step(2int, 8999194758858563409123804352480028797519453int, 34570428879426348860910nat, 6880946497186768381687959671660522067254555int, 1nat, 69140857758852697721821nat, 8124767902117091389764028486540212708035564int);
    lemma_pow_step(2int, 8999194758858563409123804352480028797519453int, 69140857758852697721821nat, 8124767902117091389764028486540212708035564int, 1nat, 138281715517705395443643nat, 5164175648307980822014112107438385835987633int);
    lemma_pow_step(2int, 8999194758858563409123804352480028797519453int, 138281715517705395443643nat, 5164175648307980822014112107438385835987633int, 0nat, 276563431035410790887286nat, 2757298046226829088929545155845845800002031int);
    lemma_pow_step(2int, 8999194758858563409123804352480028797519453int, 276563431035410790887286nat, 2757298046226829088929545155845845800002031int, 0nat, 553126862070821581774572nat, 4717510896860978691105615908976996521629487int);
    lemma_pow_step(2int, 8999194758858563409123804352480028797519453int, 553126862070821581774572nat, 4717510896860978691105615908976996521629487int, 1nat, 1106253724141643163549145nat, 7899349572329835142674455568485246108768695int);
    lemma_pow_step(2int, 8999194758858563409123804352480028797519453int, 1106253724141643163549145nat, 7899349572329835142674455568485246108768695int, 0nat, 2212507448283286327098290nat, 4338620234090404270014859205953432328764821int);
    lemma_pow_step(2int, 8999194758858563409123804352480028797519453int, 2212507448283286327098290nat, 4338620234090404270014859205953432328764821int, 1nat, 4425014896566572654196581nat, 5797833516150876462754803471629551252068730int);
    lemma_pow_step(2int, 8999194758858563409123804352480028797519453int, 4425014896566572654196581nat, 5797833516150876462754803471629551252068730int, 1nat, 8850029793133145308393163nat, 7567354751585014240158639703469721388753351int);
    lemma_pow_step(2int, 8999194758858563409123804352480028797519453int, 8850029793133145308393163nat, 7567354751585014240158639703469721388753351int, 1nat, 17700059586266290616786327nat, 707944586700397399775303222865606871278202int);
    lemma_pow_step(2int, 8999194758858563409123804352480028797519453int, 17700059586266290616786327nat, 707944586700397399775303222865606871278202int, 1nat, 35400119172532581233572655nat, 6731209234819574303119891620482075096773091int);
    lemma_pow_step(2int, 8999194758858563409123804352480028797519453int, 35400119172532581233572655nat, 6731209234819574303119891620482075096773091int, 1nat, 70800238345065162467145311nat, 2870021467715363709658768887807040004678403int);
    lemma_pow_step(2int, 8999194758858563409123804352480028797519453int, 70800238345065162467145311nat, 2870021467715363709658768887807040004678403int, 0nat, 141600476690130324934290622nat, 3506106225130610039579778291976688134330141int);
    lemma_pow_step(2int, 8999194758858563409123804352480028797519453int, 141600476690130324934290622nat, 3506106225130610039579778291976688134330141int, 0nat, 283200953380260649868581244nat, 23466507844862892039794698167479555417632int);
    lemma_pow_step(2int, 8999194758858563409123804352480028797519453int, 283200953380260649868581244nat, 23466507844862892039794698167479555417632int, 0nat, 566401906760521299737162488nat, 3063480309374561767026753046106806035739508int);
    lemma_pow_step(2int, 8999194758858563409123804352480028797519453int, 566401906760521299737162488nat, 3063480309374561767026753046106806035739508int, 1nat, 1132803813521042599474324977nat, 4796700345477680774540005882742199698039162int);
    lemma_pow_step(2int, 8999194758858563409123804352480028797519453int, 1132803813521042599474324977nat, 4796700345477680774540005882742199698039162int, 0nat, 2265607627042085198948649954nat, 8123784465086265350900591483843851251998727int);
    lemma_pow_step(2int, 8999194758858563409123804352480028797519453int, 2265607627042085198948649954nat, 8123784465086265350900591483843851251998727int, 0nat, 4531215254084170397897299908nat, 5558755353267429841962766964061585194908492int);
    lemma_pow_step(2int, 8999194758858563409123804352480028797519453int, 4531215254084170397897299908nat, 5558755353267429841962766964061585194908492int, 0nat, 9062430508168340795794599816nat, 7321942519473383296913036958785616803097743int);
    lemma_pow_step(2int, 8999194758858563409123804352480028797519453int, 9062430508168340795794599816nat, 7321942519473383296913036958785616803097743int, 0nat, 18124861016336681591589199632nat, 4752340045731856973056861935224796228881218int);
    lemma_pow_step(2int, 8999194758858563409123804352480028797519453int, 18124861016336681591589199632nat, 4752340045731856973056861935224796228881218int, 1nat, 36249722032673363183178399265nat, 1728603746573511233402474241612493687726692int);
    lemma_pow_step(2int, 8999194758858563409123804352480028797519453int, 36249722032673363183178399265nat, 1728603746573511233402474241612493687726692int, 1nat, 72499444065346726366356798531nat, 6705236107953305168749796069011503888770771int);
    lemma_pow_step(2int, 8999194758858563409123804352480028797519453int, 72499444065346726366356798531nat, 6705236107953305168749796069011503888770771int, 0nat, 144998888130693452732713597062nat, 5961971810535507532203643458552481122606623int);
    lemma_pow_step(2int, 8999194758858563409123804352480028797519453int, 144998888130693452732713597062nat, 5961971810535507532203643458552481122606623int, 0nat, 289997776261386905465427194124nat, 8496302391523627975950101886900100942304073int);
    lemma_pow_step(2int, 8999194758858563409123804352480028797519453int, 289997776261386905465427194124nat, 8496302391523627975950101886900100942304073int, 0nat, 579995552522773810930854388248nat, 1420424254908579438640730712822608550195250int);
    lemma_pow_step(2int, 8999194758858563409123804352480028797519453int, 579995552522773810930854388248nat, 1420424254908579438640730712822608550195250int, 1nat, 1159991105045547621861708776497nat, 6246817105014688051032424164224868077475333int);
    lemma_pow_step(2int, 8999194758858563409123804352480028797519453int, 1159991105045547621861708776497nat, 6246817105014688051032424164224868077475333int, 1nat, 2319982210091095243723417552995nat, 7614361723218263267596878220078159137289807int);
    lemma_pow_step(2int, 8999194758858563409123804352480028797519453int, 2319982210091095243723417552995nat, 7614361723218263267596878220078159137289807int, 0nat, 4639964420182190487446835105990nat, 5772155735759679143244141878776482450878931int);
    lemma_pow_step(2int, 8999194758858563409123804352480028797519453int, 4639964420182190487446835105990nat, 5772155735759679143244141878776482450878931int, 1nat, 9279928840364380974893670211981nat, 3577569627289712006290443556655246033376375int);
    lemma_pow_step(2int, 8999194758858563409123804352480028797519453int, 9279928840364380974893670211981nat, 3577569627289712006290443556655246033376375int, 1nat, 18559857680728761949787340423963nat, 604484251358900455819446679146297623278649int);
    lemma_pow_step(2int, 8999194758858563409123804352480028797519453int, 18559857680728761949787340423963nat, 604484251358900455819446679146297623278649int, 0nat, 37119715361457523899574680847926nat, 595257727570960770707143007741188897320650int);
    lemma_pow_step(2int, 8999194758858563409123804352480028797519453int, 37119715361457523899574680847926nat, 595257727570960770707143007741188897320650int, 1nat, 74239430722915047799149361695853nat, 4459955475425485635307083137674643431197074int);
    lemma_pow_step(2int, 8999194758858563409123804352480028797519453int, 74239430722915047799149361695853nat, 4459955475425485635307083137674643431197074int, 1nat, 148478861445830095598298723391707nat, 8066740023142623184348472299229890026704456int);
    lemma_pow_step(2int, 8999194758858563409123804352480028797519453int, 148478861445830095598298723391707nat, 8066740023142623184348472299229890026704456int, 0nat, 296957722891660191196597446783414nat, 3678117668412733286631821055344767275161940int);
    lemma_pow_step(2int, 8999194758858563409123804352480028797519453int, 296957722891660191196597446783414nat, 3678117668412733286631821055344767275161940int, 0nat, 593915445783320382393194893566828nat, 906647025348774146620841126104243365538845int);
    lemma_pow_step(2int, 8999194758858563409123804352480028797519453int, 593915445783320382393194893566828nat, 906647025348774146620841126104243365538845int, 1nat, 1187830891566640764786389787133657nat, 5905763834597115935470616758716594445916633int);
    lemma_pow_step(2int, 8999194758858563409123804352480028797519453int, 1187830891566640764786389787133657nat, 5905763834597115935470616758716594445916633int, 0nat, 2375661783133281529572779574267314nat, 1836873550601770803259925953449799048272924int);
    lemma_pow_step(2int, 8999194758858563409123804352480028797519453int, 2375661783133281529572779574267314nat, 1836873550601770803259925953449799048272924int, 0nat, 4751323566266563059145559148534628nat, 7962256920097126607301163861603465753352227int);
    lemma_pow_step(2int, 8999194758858563409123804352480028797519453int, 4751323566266563059145559148534628nat, 7962256920097126607301163861603465753352227int, 0nat, 9502647132533126118291118297069256nat, 786180104518189245272575590620049256614026int);
    lemma_pow_step(2int, 8999194758858563409123804352480028797519453int, 9502647132533126118291118297069256nat, 786180104518189245272575590620049256614026int, 1nat, 19005294265066252236582236594138513nat, 780908806761247091428345876603730861951819int);
    lemma_pow_step(2int, 8999194758858563409123804352480028797519453int, 19005294265066252236582236594138513nat, 780908806761247091428345876603730861951819int, 0nat, 38010588530132504473164473188277026nat, 3221055541830650324557559892070087304205561int);
    lemma_pow_step(2int, 8999194758858563409123804352480028797519453int, 38010588530132504473164473188277026nat, 3221055541830650324557559892070087304205561int, 0nat, 76021177060265008946328946376554052nat, 7908619485398236657369001971332075706538143int);
    lemma_pow_step(2int, 8999194758858563409123804352480028797519453int, 76021177060265008946328946376554052nat, 7908619485398236657369001971332075706538143int, 0nat, 152042354120530017892657892753108104nat, 1883654365317065724454529170440568281690229int);
    lemma_pow_step(2int, 8999194758858563409123804352480028797519453int, 152042354120530017892657892753108104nat, 1883654365317065724454529170440568281690229int, 1nat, 304084708241060035785315785506216209nat, 2942407530515594369248573269888122175909817int);
    lemma_pow_step(2int, 8999194758858563409123804352480028797519453int, 304084708241060035785315785506216209nat, 2942407530515594369248573269888122175909817int, 1nat, 608169416482120071570631571012432419nat, 7188009613356579415277778337069627809001946int);
    lemma_pow_step(2int, 8999194758858563409123804352480028797519453int, 608169416482120071570631571012432419nat, 7188009613356579415277778337069627809001946int, 0nat, 1216338832964240143141263142024864838nat, 1562519248555310749323974983270701476010451int);
    lemma_pow_step(2int, 8999194758858563409123804352480028797519453int, 1216338832964240143141263142024864838nat, 1562519248555310749323974983270701476010451int, 1nat, 2432677665928480286282526284049729677nat, 7984668277937496193790686776642477568443637int);
    lemma_pow_step(2int, 8999194758858563409123804352480028797519453int, 2432677665928480286282526284049729677nat, 7984668277937496193790686776642477568443637int, 1nat, 4865355331856960572565052568099459355nat, 7296440263252584378103470429645110536281958int);
    lemma_pow_step(2int, 8999194758858563409123804352480028797519453int, 4865355331856960572565052568099459355nat, 7296440263252584378103470429645110536281958int, 0nat, 9730710663713921145130105136198918710nat, 4811163631708722573249559435774905024255005int);
    lemma_pow_step(2int, 8999194758858563409123804352480028797519453int, 9730710663713921145130105136198918710nat, 4811163631708722573249559435774905024255005int, 1nat, 19461421327427842290260210272397837421nat, 4018796710491188271629893697679212816084655int);
    lemma_pow_step(2int, 8999194758858563409123804352480028797519453int, 19461421327427842290260210272397837421nat, 4018796710491188271629893697679212816084655int, 0nat, 38922842654855684580520420544795674842nat, 2096622198885440945175669328724742481119960int);
    lemma_pow_step(2int, 8999194758858563409123804352480028797519453int, 38922842654855684580520420544795674842nat, 2096622198885440945175669328724742481119960int, 0nat, 77845685309711369161040841089591349684nat, 5381518379154031554051565032301077920065244int);
}

/// `2^7512431899019342410657759202074976436` modulo `8999194758858563409123804352480028797519453`, by square-and-multiply.
proof fn lemma_pow_8999194758858563409123804352480028797519453_by_1197907()
    ensures
        pow(2int, 7512431899019342410657759202074976436nat) % 8999194758858563409123804352480028797519453int == 3201522544944086055076342566780970077300245int,
{
    lemma_pow_start(2int, 8999194758858563409123804352480028797519453int, 2int);
    lemma_pow_step(2int, 8999194758858563409123804352480028797519453int, 1nat, 2int, 0nat, 2nat, 4int);
    lemma_pow_step(2int, 8999194758858563409123804352480028797519453int, 2nat, 4int, 1nat, 5nat, 32int);
    lemma_pow_step(2int, 8999194758858563409123804352480028797519453int, 5nat, 32int, 1nat, 11nat, 2048int);
    lemma_pow_step(2int, 8999194758858563409123804352480028797519453int, 11nat, 2048int, 0nat, 22nat, 4194304int);
    lemma_pow_step(2int, 8999194758858563409123804352480028797519453int, 22nat, 4194304int, 1nat, 45nat, 35184372088832int);
    lemma_pow_step(2int, 8999194758858563409123804352480028797519453int, 45nat, 35184372088832int, 0nat, 90nat, 1237940039285380274899124224int);
    lemma_pow_step(2int, 8999194758858563409123804352480028797519453int, 90nat, 1237940039285380274899124224int, 0nat, 180nat, 7944434240852164752842923488622038319276376int);
    lemma_pow_step(2int, 8999194758858563409123804352480028797519453int, 180nat, 7944434240852164752842923488622038319276376int, 1nat, 361nat, 3363330824351084446945890954641970815345073int);
    lemma_pow_step(2int, 8999194758858563409123804352480028797519453int, 361nat, 3363330824351084446945890954641970815345073int, 1nat, 723nat, 6652735665988803177906898770913717790750625int);
    lemma_pow_step(2int, 8999194758858563409123804352480028797519453int, 723nat, 6652735665988803177906898770913717790750625int, 0nat, 1446nat, 6279022211652825374554387461720624251460102int);
    lemma_pow_step(2int, 8999194758858563409123804352480028797519453int, 1446nat, 6279022211652825374554387461720624251460102int, 1nat, 2893nat, 3484053136430799174717932992186203433420int);
    lemma_pow_step(2int, 8999194758858563409123804352480028797519453int, 2893nat, 3484053136430799174717932992186203433420int, 1nat, 5787nat, 7609475062470756036058976061819215099550258int);
    lemma_pow_step(2int, 8999194758858563409123804352480028797519453int, 5787nat, 7609475062470756036058976061819215099550258int, 0nat, 11574nat, 3377544508707336405034957805953235365486124int);
    lemma_pow_step(2int, 8999194758858563409123804352480028797519453int, 11574nat, 3377544508707336405034957805953235365486124int, 1nat, 23149nat, 5227698130900811692534951280471712262793213int);
    lemma_pow_step(2int, 8999194758858563409123804352480028797519453int, 23149nat, 5227698130900811692534951280471712262793213int, 0nat, 46298nat, 2605805938873174187673129452299873649056589int);
    lemma_pow_step(2int, 8999194758858563409123804352480028797519453int, 46298nat, 2605805938873174187673129452299873649056589int, 1nat, 92597nat, 2640268357357553643527390510819894412302206int);
    lemma_pow_step(2int, 8999194758858563409123804352480028797519453int, 92597nat, 2640268357357553643527390510819894412302206int, 1nat, 185195nat, 5276574278239620285725087526002400371765629int);
    lemma_pow_step(2int, 8999194758858563409123804352480028797519453int, 185195nat, 5276574278239620285725087526002400371765629int, 1nat, 370391nat, 557104846422950409362551585504716370064966int);
    lemma_pow_step(2int, 8999194758858563409123804352480028797519453int, 370391nat, 557104846422950409362551585504716370064966int, 0nat, 740782nat, 3920310545413160717809271839095159749641984int);
    lemma_pow_step(2int, 8999194758858563409123804352480028797519453int, 740782nat, 3920310545413160717809271839095159749641984int, 1nat, 1481565nat, 2286743082163844967450087574183212833380340int);
    lemma_pow_step(2int, 8999194758858563409123804352480028797519453int, 1481565nat, 2286743082163844967450087574183212833380340int, 1nat, 2963131nat, 2326219674326876904951662069830644131025699int);
    lemma_pow_step(2int, 8999194758858563409123804352480028797519453int, 2963131nat, 2326219674326876904951662069830644131025699int, 1nat, 5926263nat, 2528478636913990630168736931683639333300671int);
    lemma_pow_step(2int, 8999194758858563409123804352480028797519453int, 5926263nat, 2528478636913990630168736931683639333300671int, 1nat, 11852527nat, 1121868366586126476585605314985246990905274int);
    lemma_pow_step(2int, 8999194758858563409123804352480028797519453int, 11852527nat, 1121868366586126476585605314985246990905274int, 1nat, 23705055nat, 6522345005468826030696568737313189472302651int);
    lemma_pow_step(2int, 8999194758858563409123804352480028797519453int, 23705055nat, 6522345005468826030696568737313189472302651int, 0nat, 47410110nat, 1618216914792195846215573695338522026106417int);
    lemma_pow_step(2int, 8999194758858563409123804352480028797519453int, 47410110nat, 1618216914792195846215573695338522026106417int, 1nat, 94820221nat, 7861158158196013255035494784379492302691439int);
    lemma_pow_step(2int, 8999194758858563409123804352480028797519453int, 94820221nat, 7861158158196013255035494784379492302691439int, 0nat, 189640442nat, 5603582728549222924331866605022723478405312int);
    lemma_pow_step(2int, 8999194758858563409123804352480028797519453int, 189640442nat, 5603582728549222924331866605022723478405312int, 1nat, 379280885nat, 883124633446901144966351244629804519419479int);
    lemma_pow_step(2int, 8999194758858563409123804352480028797519453int, 379280885nat, 883124633446901144966351244629804519419479int, 0nat, 758561770nat, 3298546561028244993511473764171912692562853int);
    lemma_pow_step(2int, 8999194758858563409123804352480028797519453int, 758561770nat, 3298546561028244993511473764171912692562853int, 0nat, 1517123540nat, 4206940167942149071383674538895682561687795int);
    lemma_pow_step(2int, 8999194758858563409123804352480028797519453int, 1517123540nat, 4206940167942149071383674538895682561687795int, 0nat, 3034247080nat, 7135262834282298022453948700550259073395245int);
    lemma_pow_step(2int, 8999194758858563409123804352480028797519453int, 3034247080nat, 7135262834282298022453948700550259073395245int, 0nat, 6068494160nat, 3286899843667385150265323615265984043852694int);
    lemma_pow_step(2int, 8999194758858563409123804352480028797519453int, 6068494160nat, 3286899843667385150265323615265984043852694int, 0nat, 12136988320nat, 1528534336510320536396560576157269729767132int);
    lemma_pow_step(2int, 8999194758858563409123804352480028797519453int, 12136988320nat, 1528534336510320536396560576157269729767132int, 0nat, 24273976640nat, 5679469184079095637357134192479975746257073int);
    lemma_pow_step(2int, 8999194758858563409123804352480028797519453int, 24273976640nat, 5679469184079095637357134192479975746257073int, 1nat, 48547953281nat, 2907556093813316928406439909321082707826733int);
    lemma_pow_step(2int, 8999194758858563409123804352480028797519453int, 48547953281nat, 2907556093813316928406439909321082707826733int, 0nat, 97095906562nat, 64893378490609982910309134411846073028322int);
    lemma_pow_step(2int, 8999194758858563409123804352480028797519453int, 97095906562nat, 64893378490609982910309134411846073028322int, 0nat, 194191813124nat, 8962803116242452790981480070571934580879926int);
    lemma_pow_step(2int, 8999194758858563409123804352480028797519453int, 194191813124nat, 8962803116242452790981480070571934580879926int, 1nat, 388383626249nat, 4841658491641555651591853357766739733989747int);
    lemma_pow_step(2int, 8999194758858563409123804352480028797519453int, 388383626249nat, 4841658491641555651591853357766739733989747int, 1nat, 776767252499nat, 1679337359851616716360080481457857444536531int);
    lemma_pow_step(2int, 8999194758858563409123804352480028797519453int, 776767252499nat, 1679337359851616716360080481457857444536531int, 0nat, 1553534504998nat, 6495204159318815109157078317484794677149023int);
    lemma_pow_step(2int, 8999194758858563409123804352480028797519453int, 1553534504998nat, 6495204159318815109157078317484794677149023int, 0nat, 3107069009996nat, 464403133547615107738015431175313952057162int);
    lemma_pow_step(2int, 8999194758858563409123804352480028797519453int, 3107069009996nat, 464403133547615107738015431175313952057162int, 1nat, 6214138019993nat, 4546029711839041312982041547589984223480241int);
    lemma_pow_step(2int, 8999194758858563409123804352480028797519453int, 6214138019993nat, 4546029711839041312982041547589984223480241int, 1nat, 12428276039987nat, 7112678344950548149687722626876748862929888int);
    lemma_pow_step(2int, 8999194758858563409123804352480028797519453int, 12428276039987nat, 7112678344950548149687722626876748862929888int, 0nat, 24856552079974nat, 4136934648916237687759437346413729600778197int);
    lemma_pow_step(2int, 8999194758858563409123804352480028797519453int, 24856552079974nat, 4136934648916237687759437346413729600778197int, 1nat, 49713104159949nat, 7528979457915953763502212308942207487094919int);
    lemma_pow_step(2int, 8999194758858563409123804352480028797519453int, 49713104159949nat, 7528979457915953763502212308942207487094919int, 1nat, 99426208319899nat, 611801089111742642694565393633501066725942int);
    lemma_pow_step(2int, 8999194758858563409123804352480028797519453int, 99426208319899nat, 611801089111742642694565393633501066725942int, 1nat, 198852416639799nat, 5248062132969550565199939150962441170015944int);
    lemma_pow_step(2int, 8999194758858563409123804352480028797519453int, 198852416639799nat, 5248062132969550565199939150962441170015944int, 0nat, 397704833279598nat, 6781885159082066097800883794498230965887676int);
    lemma_pow_step(2int, 8999194758858563409123804352480028797519453int, 397704833279598nat, 6781885159082066097800883794498230965887676int, 0nat, 795409666559196nat, 5168756682371442883026006772519598435522315int);
    lemma_pow_step(2int, 8999194758858563409123804352480028797519453int, 795409666559196nat, 5168756682371442883026006772519598435522315int, 1nat, 1590819333118393nat, 8645365481153837518006354307020611252456697int);
    lemma_pow_step(2int, 8999194758858563409123804352480028797519453int, 1590819333118393nat, 8645365481153837518006354307020611252456697int, 0nat, 3181638666236786nat, 5948623672940618636661316022895729453360044int);
    lemma_pow_step(2int, 8999194758858563409123804352480028797519453int, 3181638666236786nat, 5948623672940618636661316022895729453360044int, 1nat, 6363277332473573nat, 2212422685294521124023379401421669316145121int);
    lemma_pow_step(2int, 8999194758858563409123804352480028797519453int, 6363277332473573nat, 2212422685294521124023379401421669316145121int, 1nat, 12726554664947147nat, 6631509765662422323223633464553448871304585int);
    lemma_pow_step(2int, 8999194758858563409123804352480028797519453int, 12726554664947147nat, 6631509765662422323223633464553448871304585int, 1nat, 25453109329894295nat, 4227292657011938409281900225358754793134008int);
    lemma_pow_step(2int, 8999194758858563409123804352480028797519453int, 25453109329894295nat, 4227292657011938409281900225358754793134008int, 1nat, 50906218659788591nat, 173282770502342748420448020956086148499447int);
    lemma_pow_step(2int, 8999194758858563409123804352480028797519453int, 50906218659788591nat, 173282770502342748420448020956086148499447int, 1nat, 101812437319577183nat, 1884062733432308944540482339389818102762384int);
    lemma_pow_step(2int, 8999194758858563409123804352480028797519453int, 101812437319577183nat, 1884062733432308944540482339389818102762384int, 1nat, 203624874639154367nat, 4751591105473610940993046677913184034985737int);
    lemma_pow_step(2int, 8999194758858563409123804352480028797519453int, 203624874639154367nat, 4751591105473610940993046677913184034985737int, 1nat, 407249749278308735nat, 4577261959265487547211292632043912798390024int);
    lemma_pow_step(2int, 8999194758858563409123804352480028797519453int, 407249749278308735nat, 4577261959265487547211292632043912798390024int, 0nat, 814499498556617470nat, 3214185018863239330244632658869990195971926int);
    lemma_pow_step(2int, 8999194758858563409123804352480028797519453int, 814499498556617470nat, 3214185018863239330244632658869990195971926int, 1nat, 1628998997113234941nat, 4201223930369861532162108194455450927869448int);
    lemma_pow_step(2int, 8999194758858563409123804352480028797519453int, 1628998997113234941nat, 4201223930369861532162108194455450927869448int, 1nat, 3257997994226469883nat, 7799781758131799818627709955968307571422992int);
    lemma_pow_step(2int, 8999194758858563409123804352480028797519453int, 3257997994226469883nat, 7799781758131799818627709955968307571422992int, 1nat, 6515995988452939767nat, 8652296630559884152718276968198765600752343int);
    lemma_pow_step(2int, 8999194758858563409123804352480028797519453int, 6515995988452939767nat, 8652296630559884152718276968198765600752343int, 0nat, 13031991976905879534nat, 7886585156624620815505690972561419749896848int);
    lemma_pow_step(2int, 8999194758858563409123804352480028797519453int, 13031991976905879534nat, 7886585156624620815505690972561419749896848int, 0nat, 26063983953811759068nat, 2273224874466802308078639583359298648262792int);
    lemma_pow_step(2int, 8999194758858563409123804352480028797519453int, 26063983953811759068nat, 2273224874466802308078639583359298648262792int, 0nat, 52127967907623518136nat, 8813439216995920775853002112278574867651117int);
    lemma_pow_step(2int, 8999194758858563409123804352480028797519453int, 52127967907623518136nat, 8813439216995920775853002112278574867651117int, 0nat, 104255935815247036272nat, 4142817971588713724686281788033142296596958int);
    lemma_pow_step(2int, 8999194758858563409123804352480028797519453int, 104255935815247036272nat, 4142817971588713724686281788033142296596958int, 1nat, 208511871630494072545nat, 191177594114266016800500554938780167031981int);
    lemma_pow_step(2int, 8999194758858563409123804352480028797519453int, 208511871630494072545nat, 191177594114266016800500554938780167031981int, 0nat, 417023743260988145090nat, 8147176106934845111322676784956561540925210int);
    lemma_pow_step(2int, 8999194758858563409123804352480028797519453int, 417023743260988145090nat, 8147176106934845111322676784956561540925210int, 1nat, 834047486521976290181nat, 7141845296597390987842110560310606770355209int);
    lemma_pow_step(2int, 8999194758858563409123804352480028797519453int, 834047486521976290181nat, 7141845296597390987842110560310606770355209int, 0nat, 1668094973043952580362nat, 7069826478000943628634033514121888769353382int);
    lemma_pow_step(2int, 8999194758858563409123804352480028797519453int, 1668094973043952580362nat, 7069826478000943628634033514121888769353382int, 0nat, 3336189946087905160724nat, 3563225474000498958114532989126243361065781int);
    lemma_pow_step(2int, 8999194758858563409123804352480028797519453int, 3336189946087905160724nat, 3563225474000498958114532989126243361065781int, 0nat, 6672379892175810321448nat, 4042286843161887511739589025460671755105198int);
    lemma_pow_step(2int, 8999194758858563409123804352480028797519453int, 6672379892175810321448nat, 4042286843161887511739589025460671755105198int, 1nat, 13344759784351620642897nat, 1816832691834939330368003101962389961572840int);
    lemma_pow_step(2int, 8999194758858563409123804352480028797519453int, 13344759784351620642897nat, 1816832691834939330368003101962389961572840int, 1nat, 26689519568703241285795nat, 1256054928494447713035330855860651988865447int);
    lemma_pow_step(2int, 8999194758858563409123804352480028797519453int, 26689519568703241285795nat, 1256054928494447713035330855860651988865447int, 0nat, 53379039137406482571590nat, 4137270167797739128305308075003384642854659int);
    lemma_pow_step(2int, 8999194758858563409123804352480028797519453int, 53379039137406482571590nat, 4137270167797739128305308075003384642854659int, 0nat, 106758078274812965143180nat, 3996772376889251909111378047314695421995494int);
    lemma_pow_step(2int, 8999194758858563409123804352480028797519453int, 106758078274812965143180nat, 3996772376889251909111378047314695421995494int, 0nat, 213516156549625930286360nat, 4995307582455378713470533621501466228459990int);
    lemma_pow_step(2int, 8999194758858563409123804352480028797519453int, 213516156549625930286360nat, 4995307582455378713470533621501466228459990int, 1nat, 427032313099251860572721nat, 1114903514688573092934519585730474796624970int);
    lemma_pow_step(2int, 8999194758858563409123804352480028797519453int, 427032313099251860572721nat, 1114903514688573092934519585730474796624970int, 1nat, 854064626198503721145443nat, 2148137321840693977549669322881105999670434int);
    lemma_pow_step(2int, 8999194758858563409123804352480028797519453int, 854064626198503721145443nat, 2148137321840693977549669322881105999670434int, 1nat, 1708129252397007442290887nat, 2598353072686802806727182936069770316252078int);
    lemma_pow_step(2int, 8999194758858563409123804352480028797519453int, 1708129252397007442290887nat, 2598353072686802806727182936069770316252078int, 0nat, 3416258504794014884581774nat, 4619982684457923321318755649816706780858372int);
    lemma_pow_step(2int, 8999194758858563409123804352480028797519453int, 3416258504794014884581774nat, 4619982684457923321318755649816706780858372int, 0nat, 6832517009588029769163548nat, 6005880646271579399906000168767575862033705int);
    lemma_pow_step(2int, 8999194758858563409123804352480028797519453int, 6832517009588029769163548nat, 6005880646271579399906000168767575862033705int, 1nat, 13665034019176059538327097nat, 4772878941872922877890958948865232611748357int);
    lemma_pow_step(2int, 8999194758858563409123804352480028797519453int, 13665034019176059538327097nat, 4772878941872922877890958948865232611748357int, 1nat, 27330068038352119076654195nat, 1720904532292788286848299689227708459047259int);
    lemma_pow_step(2int, 8999194758858563409123804352480028797519453int, 27330068038352119076654195nat, 1720904532292788286848299689227708459047259int, 1nat, 54660136076704238153308391nat, 3259966190711185409458101962408638869786148int);
    lemma_pow_step(2int, 8999194758858563409123804352480028797519453int, 54660136076704238153308391nat, 3259966190711185409458101962408638869786148int, 0nat, 109320272153408476306616782nat, 4631634328038741670568880592294474537683610int);
    lemma_pow_step(2int, 8999194758858563409123804352480028797519453int, 109320272153408476306616782nat, 4631634328038741670568880592294474537683610int, 1nat, 218640544306816952613233565nat, 5709934488982135201579775218028152483955886int);
    lemma_pow_step(2int, 8999194758858563409123804352480028797519453int, 218640544306816952613233565nat, 5709934488982135201579775218028152483955886int, 0nat, 437281088613633905226467130nat, 2970451779697362875230245441779447592755694int);
    lemma_pow_step(2int, 8999194758858563409123804352480028797519453int, 437281088613633905226467130nat, 2970451779697362875230245441779447592755694int, 1nat, 874562177227267810452934261nat, 6140336230360455734058896821301358083352785int);
    lemma_pow_step(2int, 8999194758858563409123804352480028797519453int, 874562177227267810452934261nat, 6140336230360455734058896821301358083352785int, 1nat, 1749124354454535620905868523nat, 1941756891801559294037989199504632137464865int);
    lemma_pow_step(2int, 8999194758858563409123804352480028797519453int, 1749124354454535620905868523nat, 1941756891801559294037989199504632137464865int, 0nat, 3498248708909071241811737046nat, 3116063014345446521533320850914036689382529int);
    lemma_pow_step(2int, 8999194758858563409123804352480028797519453int, 3498248708909071241811737046nat, 3116063014345446521533320850914036689382529int, 1nat, 6996497417818142483623474093nat, 6706162488216459221082931045076513811503306int);
    lemma_pow_step(2int, 8999194758858563409123804352480028797519453int, 6996497417818142483623474093nat, 6706162488216459221082931045076513811503306int, 0nat, 13992994835636284967246948186nat, 4594184503490717082605697205752275601306868int);
    lemma_pow_step(2int, 8999194758858563409123804352480028797519453int, 13992994835636284967246948186nat, 4594184503490717082605697205752275601306868int, 0nat, 27985989671272569934493896372nat, 4187334140463101070973902664655025530526589int);
    lemma_pow_step(2int, 8999194758858563409123804352480028797519453int, 27985989671272569934493896372nat, 4187334140463101070973902664655025530526589int, 1nat, 55971979342545139868987792745nat, 1234730213498865596918633021055902068092170int);
    lemma_pow_step(2int, 8999194758858563409123804352480028797519453int, 55971979342545139868987792745nat, 1234730213498865596918633021055902068092170int, 1nat, 111943958685090279737975585491nat, 2586917842095714945652642041582244433438925int);
    lemma_pow_step(2int, 8999194758858563409123804352480028797519453int, 111943958685090279737975585491nat, 2586917842095714945652642041582244433438925int, 1nat, 223887917370180559475951170983nat, 6941318530632321833762529751460696452503655int);
    lemma_pow_step(2int, 8999194758858563409123804352480028797519453int, 223887917370180559475951170983nat, 6941318530632321833762529751460696452503655int, 0nat, 447775834740361118951902341966nat, 4900198886630940776122748405699762286219172int);
    lemma_pow_step(2int, 8999194758858563409123804352480028797519453int, 447775834740361118951902341966nat, 4900198886630940776122748405699762286219172int, 0nat, 895551669480722237903804683932nat, 3427959934478994018417173505013015231110465int);
    lemma_pow_step(2int, 8999194758858563409123804352480028797519453int, 895551669480722237903804683932nat, 3427959934478994018417173505013015231110465int, 1nat, 1791103338961444475807609367865nat, 6835297027195394708662012520286468360246813int);
    lemma_pow_step(2int, 8999194758858563409123804352480028797519453int, 1791103338961444475807609367865nat, 6835297027195394708662012520286468360246813int, 0nat, 3582206677922888951615218735730nat, 866228094517635730493163668248492587403190int);
    lemma_pow_step(2int, 8999194758858563409123804352480028797519453int, 3582206677922888951615218735730nat, 866228094517635730493163668248492587403190int, 1nat, 7164413355845777903230437471461nat, 7566601579855559925883209834453414841116120int);
    lemma_pow_step(2int, 8999194758858563409123804352480028797519453int, 7164413355845777903230437471461nat, 7566601579855559925883209834453414841116120int, 0nat, 14328826711691555806460874942922nat, 2215126372439446777219264965597703326749443int);
    lemma_pow_step(2int, 8999194758858563409123804352480028797519453int, 14328826711691555806460874942922nat, 2215126372439446777219264965597703326749443int, 1nat, 28657653423383111612921749885845nat, 5432323859252227376795068758068119161063872int);
    lemma_pow_step(2int, 8999194758858563409123804352480028797519453int, 28657653423383111612921749885845nat, 5432323859252227376795068758068119161063872int, 0nat, 57315306846766223225843499771690nat, 6677992734792298201725603906808526589877197int);
    lemma_pow_step(2int, 8999194758858563409123804352480028797519453int, 57315306846766223225843499771690nat, 6677992734792298201725603906808526589877197int, 0nat, 114630613693532446451686999543380nat, 5026441308189081977377719303442423872447001int);
    lemma_pow_step(2int, 8999194758858563409123804352480028797519453int, 114630613693532446451686999543380nat, 5026441308189081977377719303442423872447001int, 0nat, 229261227387064892903373999086760nat, 3159127377660192899192121602735325970368847int);
    lemma_pow_step(2int, 8999194758858563409123804352480028797519453int, 229261227387064892903373999086760nat, 3159127377660192899192121602735325970368847int, 1nat, 458522454774129785806747998173521nat, 4365061845909744183134899158268241813313321int);
    lemma_pow_step(2int, 8999194758858563409123804352480028797519453int, 458522454774129785806747998173521nat, 4365061845909744183134899158268241813313321int, 1nat, 917044909548259571613495996347043nat, 7897881321640114565530234727701893991649031int);
    lemma_pow_step(2int, 8999194758858563409123804352480028797519453int, 917044909548259571613495996347043nat, 7897881321640114565530234727701893991649031int, 0nat, 1834089819096519143226991992694086nat, 5578720104323388309454525723753873071767218int);
    lemma_pow_step(2int, 8999194758858563409123804352480028797519453int, 1834089819096519143226991992694086nat, 5578720104323388309454525723753873071767218int, 0nat, 3668179638193038286453983985388172nat, 6002538332947152188949487943462843658884351int);
    lemma_pow_step(2int, 8999194758858563409123804352480028797519453int, 3668179638193038286453983985388172nat, 6002538332947152188949487943462843658884351int, 0nat, 7336359276386076572907967970776344nat, 2033021968023958345524841212546659950854392int);
    lemma_pow_step(2int, 8999194758858563409123804352480028797519453int, 7336359276386076572907967970776344nat, 2033021968023958345524841212546659950854392int, 0nat, 14672718552772153145815935941552688nat, 2766981128787214290001784945322146417527810int);
    lemma_pow_step(2int, 8999194758858563409123804352480028797519453int, 14672718552772153145815935941552688nat, 2766981128787214290001784945322146417527810int, 0nat, 29345437105544306291631871883105376nat, 6534636809953013408809568098138737300959179int);
    lemma_pow_step(2int, 8999194758858563409123804352480028797519453int, 29345437105544306291631871883105376nat, 6534636809953013408809568098138737300959179int, 1nat, 58690874211088612583263743766210753nat, 8819386710704961887333125657750817646571425int);
    lemma_pow_step(2int, 8999194758858563409123804352480028797519453int, 58690874211088612583263743766210753nat, 8819386710704961887333125657750817646571425int, 0nat, 117381748422177225166527487532421506nat, 6513861335740023731185423190129530093518228int);
    lemma_pow_step(2int, 8999194758858563409123804352480028797519453int, 117381748422177225166527487532421506nat, 6513861335740023731185423190129530093518228int, 1nat, 234763496844354450333054975064843013nat, 6903596679902923392497806298569747976284602int);
    lemma_pow_step(2int, 8999194758858563409123804352480028797519453int, 234763496844354450333054975064843013nat, 6903596679902923392497806298569747976284602int, 1nat, 469526993688708900666109950129686027nat, 3217646447471411881417251319123732144965316int);
    lemma_pow_step(2int, 8999194758858563409123804352480028797519453int, 469526993688708900666109950129686027nat, 3217646447471411881417251319123732144965316int, 0nat, 939053987377417801332219900259372054nat, 6791701993750400456992559376512236983427383int);
    lemma_pow_step(2int, 8999194758858563409123804352480028797519453int, 939053987377417801332219900259372054nat, 6791701993750400456992559376512236983427383int, 1nat, 1878107974754835602664439800518744109nat, 7657258884657143152032033207820336291813377int);
    lemma_pow_step(2int, 8999194758858563409123804352480028797519453int, 1878107974754835602664439800518744109nat, 7657258884657143152032033207820336291813377int, 0nat, 3756215949509671205328879601037488218nat, 3167800527976097042343219064413778594949928int);
    lemma_pow_step(2int, 8999194758858563409123804352480028797519453int, 3756215949509671205328879601037488218nat, 3167800527976097042343219064413778594949928int, 0nat, 7512431899019342410657759202074976436nat, 3201522544944086055076342566780970077300245int);
}

/// `2^406088721966766121824069856270988` modulo `8999194758858563409123804352480028797519453`, by square-and-multiply.
proof fn lemma_pow_8999194758858563409123804352480028797519453_by_22160661629()
    ensures
        pow(2int, 406088721966766121824069856270988nat) % 8999194758858563409123804352480028797519453int == 7468371576130240648439236849311461678235198int,
{
    lemma_pow_start(2int, 8999194758858563409123804352480028797519453int, 2int);
    lemma_pow_step(2int, 8999194758858563409123804352480028797519453int, 1nat, 2int, 0nat, 2nat, 4int);
    lemma_pow_step(2int, 8999194758858563409123804352480028797519453int, 2nat, 4int, 1nat, 5nat, 32int);
    lemma_pow_step(2int, 8999194758858563409123804352480028797519453int, 5nat, 32int, 0nat, 10nat, 1024int);
    lemma_pow_step(2int, 8999194758858563409123804352480028797519453int, 10nat, 1024int, 0nat, 20nat, 1048576int);
    lemma_pow_step(2int, 8999194758858563409123804352480028797519453int, 20nat, 1048576int, 0nat, 40nat, 1099511627776int);
    lemma_pow_step(2int, 8999194758858563409123804352480028797519453int, 40nat, 1099511627776int, 0nat, 80nat, 1208925819614629174706176int);
    lemma_pow_step(2int, 8999194758858563409123804352480028797519453int, 80nat, 1208925819614629174706176int, 0nat, 160nat, 5410907995644871751634460468902852380817417int);
    lemma_pow_step(2int, 8999194758858563409123804352480028797519453int, 160nat, 5410907995644871751634460468902852380817417int, 0nat, 320nat, 6373313362235304703225996142790822211165366int);
    lemma_pow_step(2int, 8999194758858563409123804352480028797519453int, 320nat, 6373313362235304703225996142790822211165366int, 0nat, 640nat, 2687085218798758993550690455645322513011625int);
    lemma_pow_step(2int, 8999194758858563409123804352480028797519453int, 640nat, 2687085218798758993550690455645322513011625int, 1nat, 1281nat, 1351516801842520799928028410168857886453474int);
    lemma_pow_step(2int, 8999194758858563409123804352480028797519453int, 1281nat, 1351516801842520799928028410168857886453474int, 0nat, 2562nat, 6695854923847754377473674752434860727557960int);
    lemma_pow_step(2int, 8999194758858563409123804352480028797519453int, 2562nat, 6695854923847754377473674752434860727557960int, 1nat, 5125nat, 5706785771964886382358179549744963367613855int);
    lemma_pow_step(2int, 8999194758858563409123804352480028797519453int, 5125nat, 5706785771964886382358179549744963367613855int, 1nat, 10251nat, 6637157079957247289176111837881290755503226int);
    lemma_pow_step(2int, 8999194758858563409123804352480028797519453int, 10251nat, 6637157079957247289176111837881290755503226int, 0nat, 20502nat, 7530072678331515697983945875726662549695865int);
    lemma_pow_step(2int, 8999194758858563409123804352480028797519453int, 20502nat, 7530072678331515697983945875726662549695865int, 0nat, 41004nat, 5165537084286653820500618336868253651390689int);
    lemma_pow_step(2int, 8999194758858563409123804352480028797519453int, 41004nat, 5165537084286653820500618336868253651390689int, 0nat, 82008nat, 465595596319138267961089388124052793348838int);
    lemma_pow_step(2int, 8999194758858563409123804352480028797519453int, 82008nat, 465595596319138267961089388124052793348838int, 1nat, 164017nat, 8220854842580847420224386398143948841543465int);
    lemma_pow_step(2int, 8999194758858563409123804352480028797519453int, 164017nat, 8220854842580847420224386398143948841543465int, 1nat, 328035nat, 7600414991866947412745688687907578798718138int);
    lemma_pow_step(2int, 8999194758858563409123804352480028797519453int, 328035nat, 7600414991866947412745688687907578798718138int, 1nat, 656071nat, 5774832853246375059277729178681429954766082int);
    lemma_pow_step(2int, 8999194758858563409123804352480028797519453int, 656071nat, 5774832853246375059277729178681429954766082int, 1nat, 1312143nat, 3938766573327338603490723637542677788769286int);
    lemma_pow_step(2int, 8999194758858563409123804352480028797519453int, 1312143nat, 3938766573327338603490723637542677788769286int, 0nat, 2624286nat, 7503022067640654208777090546989422276366436int);
    lemma_pow_step(2int, 8999194758858563409123804352480028797519453int, 2624286nat, 7503022067640654208777090546989422276366436int, 1nat, 5248573nat, 6838390110461978832837970802694415594987782int);
    lemma_pow_step(2int, 8999194758858563409123804352480028797519453int, 5248573nat, 6838390110461978832837970802694415594987782int, 1nat, 10497147nat, 6185547924678276281126311522977063699876590int);
    lemma_pow_step(2int, 8999194758858563409123804352480028797519453int, 10497147nat, 6185547924678276281126311522977063699876590int, 0nat, 20994294nat, 2524817909296590807112490346575195593095339int);
    lemma_pow_step(2int, 8999194758858563409123804352480028797519453int, 20994294nat, 2524817909296590807112490346575195593095339int, 1nat, 41988589nat, 7380800807636780944148303941071626937641548int);
    lemma_pow_step(2int, 8999194758858563409123804352480028797519453int, 41988589nat, 7380800807636780944148303941071626937641548int, 1nat, 83977179nat, 4911421579780238406605237792328060281293258int);
    lemma_pow_step(2int, 8999194758858563409123804352480028797519453int, 83977179nat, 4911421579780238406605237792328060281293258int, 0nat, 167954358nat, 462188357544225061871997398703528955559684int);
    lemma_pow_step(2int, 8999194758858563409123804352480028797519453int, 167954358nat, 462188357544225061871997398703528955559684int, 1nat, 335908717nat, 7570975644812105057391363946432197005081097int);
    lemma_pow_step(2int, 8999194758858563409123804352480028797519453int, 335908717nat, 7570975644812105057391363946432197005081097int, 1nat, 671817435nat, 8171292988758812660686631261967897137929047int);
    lemma_pow_step(2int, 8999194758858563409123804352480028797519453int, 671817435nat, 8171292988758812660686631261967897137929047int, 1nat, 1343634871nat, 2819851062938648905993627574111204483708158int);
    lemma_pow_step(2int, 8999194758858563409123804352480028797519453int, 1343634871nat, 2819851062938648905993627574111204483708158int, 0nat, 2687269742nat, 4794594867817189238500691357827333974224765int);
    lemma_pow_step(2int, 8999194758858563409123804352480028797519453int, 2687269742nat, 4794594867817189238500691357827333974224765int, 0nat, 5374539484nat, 3630807706482843734700750754511303040744402int);
    lemma_pow_step(2int, 8999194758858563409123804352480028797519453int, 5374539484nat, 3630807706482843734700750754511303040744402int, 1nat, 10749078969nat, 4487096231018905103788775153448320280304031int);
    lemma_pow_step(2int, 8999194758858563409123804352480028797519453int, 10749078969nat, 4487096231018905103788775153448320280304031int, 0nat, 21498157938nat, 5207412661595706437400735008801672007933213int);
    lemma_pow_step(2int, 8999194758858563409123804352480028797519453int, 21498157938nat, 5207412661595706437400735008801672007933213int, 0nat, 42996315876nat, 8444669609039095975003430717879176180075018int);
    lemma_pow_step(2int, 8999194758858563409123804352480028797519453int, 42996315876nat, 8444669609039095975003430717879176180075018int, 1nat, 85992631753nat, 1427922806564540635602149465518533573246832int);
    lemma_pow_step(2int, 8999194758858563409123804352480028797519453int, 85992631753nat, 1427922806564540635602149465518533573246832int, 1nat, 171985263507nat, 6352672456885855420319900573968421013714393int);
    lemma_pow_step(2int, 8999194758858563409123804352480028797519453int, 171985263507nat, 6352672456885855420319900573968421013714393int, 0nat, 343970527014nat, 1407234895552515517518758388161370425956123int);
    lemma_pow_step(2int, 8999194758858563409123804352480028797519453int, 343970527014nat, 1407234895552515517518758388161370425956123int, 0nat, 687941054028nat, 654994909093000560659402062345269022731758int);
    lemma_pow_step(2int, 8999194758858563409123804352480028797519453int, 687941054028nat, 654994909093000560659402062345269022731758int, 0nat, 1375882108056nat, 3177325779146776867559511094489287630744516int);
    lemma_pow_step(2int, 8999194758858563409123804352480028797519453int, 1375882108056nat, 3177325779146776867559511094489287630744516int, 1nat, 2751764216113nat, 3740609820266818981114515815476215905946537int);
    lemma_pow_step(2int, 8999194758858563409123804352480028797519453int, 2751764216113nat, 3740609820266818981114515815476215905946537int, 1nat, 5503528432227nat, 4020976525589898476837974519629343930171995int);
    lemma_pow_step(2int, 8999194758858563409123804352480028797519453int, 5503528432227nat, 4020976525589898476837974519629343930171995int, 1nat, 11007056864455nat, 5334787742489619875153133578327335516458372int);
    lemma_pow_step(2int, 8999194758858563409123804352480028797519453int, 11007056864455nat, 5334787742489619875153133578327335516458372int, 1nat, 22014113728911nat, 7959329620733071424255095628634331747361300int);
    lemma_pow_step(2int, 8999194758858563409123804352480028797519453int, 22014113728911nat, 7959329620733071424255095628634331747361300int, 0nat, 44028227457822nat, 6119598890825683204253019830021075799825975int);
    lemma_pow_step(2int, 8999194758858563409123804352480028797519453int, 44028227457822nat, 6119598890825683204253019830021075799825975int, 1nat, 88056454915645nat, 8461915000403339871490373154806467357100774int);
    lemma_pow_step(2int, 8999194758858563409123804352480028797519453int, 88056454915645nat, 8461915000403339871490373154806467357100774int, 1nat, 176112909831291nat, 8471852254563072888434515554139367497760771int);
    lemma_pow_step(2int, 8999194758858563409123804352480028797519453int, 176112909831291nat, 8471852254563072888434515554139367497760771int, 1nat, 352225819662583nat, 630098106863048584710090359035412478560029int);
    lemma_pow_step(2int, 8999194758858563409123804352480028797519453int, 352225819662583nat, 630098106863048584710090359035412478560029int, 1nat, 704451639325167nat, 6407374411092012230887509346023300454404192int);
    lemma_pow_step(2int, 8999194758858563409123804352480028797519453int, 704451639325167nat, 6407374411092012230887509346023300454404192int, 1nat, 1408903278650335nat, 1990658793646839200497118515750134100305642int);
    lemma_pow_step(2int, 8999194758858563409123804352480028797519453int, 1408903278650335nat, 1990658793646839200497118515750134100305642int, 0nat, 2817806557300670nat, 8903874275708414136212133889175613503460098int);
    lemma_pow_step(2int, 8999194758858563409123804352480028797519453int, 2817806557300670nat, 8903874275708414136212133889175613503460098int, 1nat, 5635613114601341nat, 4853074086172045179432118726420067812361198int);
    lemma_pow_step(2int, 8999194758858563409123804352480028797519453int, 5635613114601341nat, 4853074086172045179432118726420067812361198int, 1nat, 11271226229202683nat, 8112442701851271114272789697940143140315854int);
    lemma_pow_step(2int, 8999194758858563409123804352480028797519453int, 11271226229202683nat, 8112442701851271114272789697940143140315854int, 0nat, 22542452458405366nat, 6349112443757939366928592056857087508977510int);
    lemma_pow_step(2int, 8999194758858563409123804352480028797519453int, 22542452458405366nat, 6349112443757939366928592056857087508977510int, 1nat, 45084904916810733nat, 8443660449115873196660420088595191215004949int);
    lemma_pow_step(2int, 8999194758858563409123804352480028797519453int, 45084904916810733nat, 8443660449115873196660420088595191215004949int, 0nat, 90169809833621466nat, 5999629036920400499540321549042536696889065int);
    lemma_pow_step(2int, 8999194758858563409123804352480028797519453int, 90169809833621466nat, 5999629036920400499540321549042536696889065int, 0nat, 180339619667242932nat, 7371323325049383150014262189862594833153924int);
    lemma_pow_step(2int, 8999194758858563409123804352480028797519453int, 180339619667242932nat, 7371323325049383150014262189862594833153924int, 1nat, 360679239334485865nat, 8334467362225557130166842835760394642339789int);
    lemma_pow_step(2int, 8999194758858563409123804352480028797519453int, 360679239334485865nat, 8334467362225557130166842835760394642339789int, 0nat, 721358478668971730nat, 3872405654350757750533103463647175274422486int);
    lemma_pow_step(2int, 8999194758858563409123804352480028797519453int, 721358478668971730nat, 3872405654350757750533103463647175274422486int, 1nat, 1442716957337943461nat, 8303969938652842583316355548952109598148570int);
    lemma_pow_step(2int, 8999194758858563409123804352480028797519453int, 1442716957337943461nat, 8303969938652842583316355548952109598148570int, 1nat, 2885433914675886923nat, 6530545179444943696382978121260290463626584int);
    lemma_pow_step(2int, 8999194758858563409123804352480028797519453int, 2885433914675886923nat, 6530545179444943696382978121260290463626584int, 1nat, 5770867829351773847nat, 4850541849999561523347440668340575760910796int);
    lemma_pow_step(2int, 8999194758858563409123804352480028797519453int, 5770867829351773847nat, 4850541849999561523347440668340575760910796int, 0nat, 11541735658703547694nat, 2623760098071950286609774799540851753127694int);
    lemma_pow_step(2int, 8999194758858563409123804352480028797519453int, 11541735658703547694nat, 2623760098071950286609774799540851753127694int, 0nat, 23083471317407095388nat, 7985522674358020720124525179356173201090884int);
    lemma_pow_step(2int, 8999194758858563409123804352480028797519453int, 23083471317407095388nat, 7985522674358020720124525179356173201090884int, 0nat, 46166942634814190776nat, 8819618807898335484463484928839949984819886int);
    lemma_pow_step(2int, 8999194758858563409123804352480028797519453int, 46166942634814190776nat, 8819618807898335484463484928839949984819886int, 1nat, 92333885269628381553nat, 4307173701400958831223482716526917199813239int);
    lemma_pow_step(2int, 8999194758858563409123804352480028797519453int, 92333885269628381553nat, 4307173701400958831223482716526917199813239int, 0nat, 184667770539256763106nat, 2840408468732159279275029238609964671067766int);
    lemma_pow_step(2int, 8999194758858563409123804352480028797519453int, 184667770539256763106nat, 2840408468732159279275029238609964671067766int, 0nat, 369335541078513526212nat, 46371314780530658208789302944549721484680int);
    lemma_pow_step(2int, 8999194758858563409123804352480028797519453int, 369335541078513526212nat, 46371314780530658208789302944549721484680int, 0nat, 738671082157027052424nat, 3462058431088251759603413228102779965033413int);
    lemma_pow_step(2int, 8999194758858563409123804352480028797519453int, 738671082157027052424nat, 3462058431088251759603413228102779965033413int, 1nat, 1477342164314054104849nat, 2109785360170761481347720918242590579464354int);
    lemma_pow_step(2int, 8999194758858563409123804352480028797519453int, 1477342164314054104849nat, 2109785360170761481347720918242590579464354int, 0nat, 2954684328628108209698nat, 4591156409178410674631948776382318890252302int);
    lemma_pow_step(2int, 8999194758858563409123804352480028797519453int, 2954684328628108209698nat, 4591156409178410674631948776382318890252302int, 0nat, 5909368657256216419396nat, 1506684675267027103513954417877340456789600int);
    lemma_pow_step(2int, 8999194758858563409123804352480028797519453int, 5909368657256216419396nat, 1506684675267027103513954417877340456789600int, 0nat, 11818737314512432838792nat, 4669517599126543969598894812394758778067786int);
    lemma_pow_step(2int, 8999194758858563409123804352480028797519453int, 11818737314512432838792nat, 4669517599126543969598894812394758778067786int, 0nat, 23637474629024865677584nat, 4898600242319893668633588827291278996495175int);
    lemma_pow_step(2int, 8999194758858563409123804352480028797519453int, 23637474629024865677584nat, 4898600242319893668633588827291278996495175int, 0nat, 47274949258049731355168nat, 7392362463308638120520165993210854993092956int);
    lemma_pow_step(2int, 8999194758858563409123804352480028797519453int, 47274949258049731355168nat, 7392362463308638120520165993210854993092956int, 1nat, 94549898516099462710337nat, 6307221129897207295609682239057381378047336int);
    lemma_pow_step(2int, 8999194758858563409123804352480028797519453int, 94549898516099462710337nat, 6307221129897207295609682239057381378047336int, 0nat, 189099797032198925420674nat, 8271703315745258547931783474872206408694170int);
    lemma_pow_step(2int, 8999194758858563409123804352480028797519453int, 189099797032198925420674nat, 8271703315745258547931783474872206408694170int, 0nat, 378199594064397850841348nat, 5335991000103790323386436589262277494037010int);
    lemma_pow_step(2int, 8999194758858563409123804352480028797519453int, 378199594064397850841348nat, 5335991000103790323386436589262277494037010int, 1nat, 756399188128795701682697nat, 4941398746576582557911048116469624203498638int);
    lemma_pow_step(2int, 8999194758858563409123804352480028797519453int, 756399188128795701682697nat, 4941398746576582557911048116469624203498638int, 1nat, 1512798376257591403365395nat, 7441864804670061813452241486411626953904738int);
    lemma_pow_step(2int, 8999194758858563409123804352480028797519453int, 1512798376257591403365395nat, 7441864804670061813452241486411626953904738int, 0nat, 3025596752515182806730790nat, 7438826254585073399374621393425213870950410int);
    lemma_pow_step(2int, 8999194758858563409123804352480028797519453int, 3025596752515182806730790nat, 7438826254585073399374621393425213870950410int, 1nat, 6051193505030365613461581nat, 3747048198715947139797907619946446478054955int);
    lemma_pow_step(2int, 8999194758858563409123804352480028797519453int, 6051193505030365613461581nat, 3747048198715947139797907619946446478054955int, 1nat, 12102387010060731226923163nat, 1706102830391804263010799662893335311065390int);
    lemma_pow_step(2int, 8999194758858563409123804352480028797519453int, 12102387010060731226923163nat, 1706102830391804263010799662893335311065390int, 0nat, 24204774020121462453846326nat, 1572397293442564840840534542244062093183508int);
    lemma_pow_step(2int, 8999194758858563409123804352480028797519453int, 24204774020121462453846326nat, 1572397293442564840840534542244062093183508int, 1nat, 48409548040242924907692653nat, 7101365568162894398680769134562493895167669int);
    lemma_pow_step(2int, 8999194758858563409123804352480028797519453int, 48409548040242924907692653nat, 7101365568162894398680769134562493895167669int, 1nat, 96819096080485849815385307nat, 5657721512429323591902661287405554140211012int);
    lemma_pow_step(2int, 8999194758858563409123804352480028797519453int, 96819096080485849815385307nat, 5657721512429323591902661287405554140211012int, 0nat, 193638192160971699630770614nat, 7544076429936418417704113689278189329425304int);
    lemma_pow_step(2int, 8999194758858563409123804352480028797519453int, 193638192160971699630770614nat, 7544076429936418417704113689278189329425304int, 1nat, 387276384321943399261541229nat, 830500192203472252998245059401339335712690int);
    lemma_pow_step(2int, 8999194758858563409123804352480028797519453int, 387276384321943399261541229nat, 830500192203472252998245059401339335712690int, 1nat, 774552768643886798523082459nat, 331272891281157239928705861698869254744824int);
    lemma_pow_step(2int, 8999194758858563409123804352480028797519453int, 774552768643886798523082459nat, 331272891281157239928705861698869254744824int, 0nat, 1549105537287773597046164918nat, 7331301600720218091361205189465182351979497int);
    lemma_pow_step(2int, 8999194758858563409123804352480028797519453int, 1549105537287773597046164918nat, 7331301600720218091361205189465182351979497int, 0nat, 3098211074575547194092329836nat, 7888192938106613151537873174685604835783890int);
    lemma_pow_step(2int, 8999194758858563409123804352480028797519453int, 3098211074575547194092329836nat, 7888192938106613151537873174685604835783890int, 0nat, 6196422149151094388184659672nat, 8210099812543471108674734839088256773662847int);
    lemma_pow_step(2int, 8999194758858563409123804352480028797519453int, 6196422149151094388184659672nat, 8210099812543471108674734839088256773662847int, 0nat, 12392844298302188776369319344nat, 4653115817664165184878954867596669178058902int);
    lemma_pow_step(2int, 8999194758858563409123804352480028797519453int, 12392844298302188776369319344nat, 4653115817664165184878954867596669178058902int, 0nat, 24785688596604377552738638688nat, 6885733211637869630463368871783761089372540int);
    lemma_pow_step(2int, 8999194758858563409123804352480028797519453int, 24785688596604377552738638688nat, 6885733211637869630463368871783761089372540int, 0nat, 49571377193208755105477277376nat, 7439461524737392155863898224968980327199167int);
    lemma_pow_step(2int, 8999194758858563409123804352480028797519453int, 49571377193208755105477277376nat, 7439461524737392155863898224968980327199167int, 1nat, 99142754386417510210954554753nat, 482131842082622850747065149088964541672197int);
    lemma_pow_step(2int, 8999194758858563409123804352480028797519453int, 99142754386417510210954554753nat, 482131842082622850747065149088964541672197int, 1nat, 198285508772835020421909109507nat, 6170823610739066646845679373043537421439359int);
    lemma_pow_step(2int, 8999194758858563409123804352480028797519453int, 198285508772835020421909109507nat, 6170823610739066646845679373043537421439359int, 0nat, 396571017545670040843818219014nat, 1257901296413663258989930484945201765662361int);
    lemma_pow_step(2int, 8999194758858563409123804352480028797519453int, 396571017545670040843818219014nat, 1257901296413663258989930484945201765662361int, 1nat, 793142035091340081687636438029nat, 7295105555226736811387818255140248006490036int);
    lemma_pow_step(2int, 8999194758858563409123804352480028797519453int, 793142035091340081687636438029nat, 7295105555226736811387818255140248006490036int, 0nat, 1586284070182680163375272876058nat, 5045199295985020582358954295074385433334467int);
    lemma_pow_step(2int, 8999194758858563409123804352480028797519453int, 1586284070182680163375272876058nat, 5045199295985020582358954295074385433334467int, 1nat, 3172568140365360326750545752117nat, 8603052425720497287562619516919925301207037int);
    lemma_pow_step(2int, 8999194758858563409123804352480028797519453int, 3172568140365360326750545752117nat, 8603052425720497287562619516919925301207037int, 0nat, 6345136280730720653501091504234nat, 7992302613290800573582635184675184591494193int);
    lemma_pow_step(2int, 8999194758858563409123804352480028797519453int, 6345136280730720653501091504234nat, 7992302613290800573582635184675184591494193int, 0nat, 12690272561461441307002183008468nat, 7058610481230892515156705717801339943789555int);
    lemma_pow_step(2int, 8999194758858563409123804352480028797519453int, 12690272561461441307002183008468nat, 7058610481230892515156705717801339943789555int, 0nat, 25380545122922882614004366016936nat, 4044059794252128647224239943535005091883636int);
    lemma_pow_step(2int, 8999194758858563409123804352480028797519453int, 25380545122922882614004366016936nat, 4044059794252128647224239943535005091883636int, 1nat, 50761090245845765228008732033873nat, 2825652370475664792528684305386088295004172int);
    lemma_pow_step(2int, 8999194758858563409123804352480028797519453int, 50761090245845765228008732033873nat, 2825652370475664792528684305386088295004172int, 1nat, 101522180491691530456017464067747nat, 3002194596175911083984905078496072037794003int);
    lemma_pow_step(2int, 8999194758858563409123804352480028797519453int, 101522180491691530456017464067747nat, 3002194596175911083984905078496072037794003int, 0nat, 203044360983383060912034928135494nat, 2028447632249086940340679900271366816120342int);
    lemma_pow_step(2int, 8999194758858563409123804352480028797519453int, 203044360983383060912034928135494nat, 2028447632249086940340679900271366816120342int, 0nat, 406088721966766121824069856270988nat, 7468371576130240648439236849311461678235198int);
}

/// `2^27682465692912573825889481556` modulo `8999194758858563409123804352480028797519453`, by square-and-multiply.
proof fn lemma_pow_8999194758858563409123804352480028797519453_by_325086459374267()
    ensures
        pow(2int, 27682465692912573825889481556nat) % 8999194758858563409123804352480028797519453int == 1923835525255145170976080895073905971702885int,
{
    lemma_pow_start(2int, 8999194758858563409123804352480028797519453int, 2int);
    lemma_pow_step(2int, 8999194758858563409123804352480028797519453int, 1nat, 2int, 0nat, 2nat, 4int);
    lemma_pow_step(2int, 8999194758858563409123804352480028797519453int, 2nat, 4int, 1nat, 5nat, 32int);
    lemma_pow_step(2int, 8999194758858563409123804352480028797519453int, 5nat, 32int, 1nat, 11nat, 2048int);
    lemma_pow_step(2int, 8999194758858563409123804352480028797519453int, 11nat, 2048int, 0nat, 22nat, 4194304int);
    lemma_pow_step(2int, 8999194758858563409123804352480028797519453int, 22nat, 4194304int, 0nat, 44nat, 17592186044416int);
    lemma_pow_step(2int, 8999194758858563409123804352480028797519453int, 44nat, 17592186044416int, 1nat, 89nat, 618970019642690137449562112int);
    lemma_pow_step(2int, 8999194758858563409123804352480028797519453int, 89nat, 618970019642690137449562112int, 0nat, 178nat, 1986108560213041188210730872155509579819094int);
    lemma_pow_step(2int, 8999194758858563409123804352480028797519453int, 178nat, 1986108560213041188210730872155509579819094int, 1nat, 357nat, 6397154573237205121706733676995142974253691int);
    lemma_pow_step(2int, 8999194758858563409123804352480028797519453int, 357nat, 6397154573237205121706733676995142974253691int, 1nat, 715nat, 8286966812491215641882816100014533145343055int);
    lemma_pow_step(2int, 8999194758858563409123804352480028797519453int, 715nat, 8286966812491215641882816100014533145343055int, 1nat, 1431nat, 7470775599752267293712166759754134032421131int);
    lemma_pow_step(2int, 8999194758858563409123804352480028797519453int, 1431nat, 7470775599752267293712166759754134032421131int, 0nat, 2862nat, 2719597881237920459274807123965294158118296int);
    lemma_pow_step(2int, 8999194758858563409123804352480028797519453int, 2862nat, 2719597881237920459274807123965294158118296int, 0nat, 5724nat, 5131388399022896558166558859286576254386072int);
    lemma_pow_step(2int, 8999194758858563409123804352480028797519453int, 5724nat, 5131388399022896558166558859286576254386072int, 1nat, 11449nat, 4147827286477527108907218031171946663046162int);
    lemma_pow_step(2int, 8999194758858563409123804352480028797519453int, 11449nat, 4147827286477527108907218031171946663046162int, 0nat, 22898nat, 1086720467609630808317049549082137209674451int);
    lemma_pow_step(2int, 8999194758858563409123804352480028797519453int, 22898nat, 1086720467609630808317049549082137209674451int, 0nat, 45796nat, 4645496501153501384767537148399459176450657int);
    lemma_pow_step(2int, 8999194758858563409123804352480028797519453int, 45796nat, 4645496501153501384767537148399459176450657int, 1nat, 91593nat, 6039191803960171378084844742315887799650424int);
    lemma_pow_step(2int, 8999194758858563409123804352480028797519453int, 91593nat, 6039191803960171378084844742315887799650424int, 1nat, 183187nat, 6848643230024610368507479826515532075911750int);
    lemma_pow_step(2int, 8999194758858563409123804352480028797519453int, 183187nat, 6848643230024610368507479826515532075911750int, 0nat, 366374nat, 2245982271252827369341006790195237496891756int);
    lemma_pow_step(2int, 8999194758858563409123804352480028797519453int, 366374nat, 2245982271252827369341006790195237496891756int, 0nat, 732748nat, 8854542642110216772745363375140681614673201int);
    lemma_pow_step(2int, 8999194758858563409123804352480028797519453int, 732748nat, 8854542642110216772745363375140681614673201int, 1nat, 1465497nat, 1313988944916879103892826125725579227882776int);
    lemma_pow_step(2int, 8999194758858563409123804352480028797519453int, 1465497nat, 1313988944916879103892826125725579227882776int, 1nat, 2930995nat, 8865660547835393828570677834367962539434996int);
    lemma_pow_step(2int, 8999194758858563409123804352480028797519453int, 2930995nat, 8865660547835393828570677834367962539434996int, 0nat, 5861990nat, 383080750922654015943909856515387474083417int);
    lemma_pow_step(2int, 8999194758858563409123804352480028797519453int, 5861990nat, 383080750922654015943909856515387474083417int, 0nat, 11723980nat, 5349728804139153225430581502361241688428578int);
    lemma_pow_step(2int, 8999194758858563409123804352480028797519453int, 11723980nat, 5349728804139153225430581502361241688428578int, 0nat, 23447960nat, 6326635594856988692226416728721372098588090int);
    lemma_pow_step(2int, 8999194758858563409123804352480028797519453int, 23447960nat, 6326635594856988692226416728721372098588090int, 1nat, 46895921nat, 4905269375052152061749373043283930135436489int);
    lemma_pow_step(2int, 8999194758858563409123804352480028797519453int, 46895921nat, 4905269375052152061749373043283930135436489int, 0nat, 93791842nat, 2194085653165745585365635256526884303187541int);
    lemma_pow_step(2int, 8999194758858563409123804352480028797519453int, 93791842nat, 2194085653165745585365635256526884303187541int, 0nat, 187583684nat, 8641876319251144817758781366951527176693551int);
    lemma_pow_step(2int, 8999194758858563409123804352480028797519453int, 187583684nat, 8641876319251144817758781366951527176693551int, 0nat, 375167368nat, 6387588979686005172525176900790060349588561int);
    lemma_pow_step(2int, 8999194758858563409123804352480028797519453int, 375167368nat, 6387588979686005172525176900790060349588561int, 0nat, 750334736nat, 2671336908100062502220542814686055064649522int);
    lemma_pow_step(2int, 8999194758858563409123804352480028797519453int, 750334736nat, 2671336908100062502220542814686055064649522int, 0nat, 1500669472nat, 2045681004394892444636498523334947554352535int);
    lemma_pow_step(2int, 8999194758858563409123804352480028797519453int, 1500669472nat, 2045681004394892444636498523334947554352535int, 0nat, 3001338944nat, 3694793935304781653671725351677311126991185int);
    lemma_pow_step(2int, 8999194758858563409123804352480028797519453int, 3001338944nat, 3694793935304781653671725351677311126991185int, 0nat, 6002677888nat, 4882828620147056796771405868177578330588233int);
    lemma_pow_step(2int, 8999194758858563409123804352480028797519453int, 6002677888nat, 4882828620147056796771405868177578330588233int, 1nat, 12005355777nat, 7837241016384306668381398421269066040046604int);
    lemma_pow_step(2int, 8999194758858563409123804352480028797519453int, 12005355777nat, 7837241016384306668381398421269066040046604int, 1nat, 24010711555nat, 6053660366204249443219266705971820539149570int);
    lemma_pow_step(2int, 8999194758858563409123804352480028797519453int, 24010711555nat, 6053660366204249443219266705971820539149570int, 0nat, 48021423110nat, 4911624404628220714840616565051171034503121int);
    lemma_pow_step(2int, 8999194758858563409123804352480028797519453int, 48021423110nat, 4911624404628220714840616565051171034503121int, 0nat, 96042846220nat, 3139326155674153866929240074215761058513412int);
    lemma_pow_step(2int, 8999194758858563409123804352480028797519453int, 96042846220nat, 3139326155674153866929240074215761058513412int, 1nat, 192085692441nat, 6787971914553276899342927639362664824250676int);
    lemma_pow_step(2int, 8999194758858563409123804352480028797519453int, 192085692441nat, 6787971914553276899342927639362664824250676int, 1nat, 384171384883nat, 2917392148006531300830288436783075623982817int);
    lemma_pow_step(2int, 8999194758858563409123804352480028797519453int, 384171384883nat, 2917392148006531300830288436783075623982817int, 0nat, 768342769766nat, 3418605811452892931012194754959955558995573int);
    lemma_pow_step(2int, 8999194758858563409123804352480028797519453int, 768342769766nat, 3418605811452892931012194754959955558995573int, 1nat, 1536685539533nat, 7809008058491709841065138257696356707652874int);
    lemma_pow_step(2int, 8999194758858563409123804352480028797519453int, 1536685539533nat, 7809008058491709841065138257696356707652874int, 0nat, 3073371079066nat, 4710652446091927501251415928215112621102390int);
    lemma_pow_step(2int, 8999194758858563409123804352480028797519453int, 3073371079066nat, 4710652446091927501251415928215112621102390int, 1nat, 6146742158133nat, 6697377128668969983659750089675435855609666int);
    lemma_pow_step(2int, 8999194758858563409123804352480028797519453int, 6146742158133nat, 6697377128668969983659750089675435855609666int, 1nat, 12293484316267nat, 8366653508640979608336988183876494698804757int);
    lemma_pow_step(2int, 8999194758858563409123804352480028797519453int, 12293484316267nat, 8366653508640979608336988183876494698804757int, 0nat, 24586968632534nat, 5093425502523775548325973874051428859940139int);
    lemma_pow_step(2int, 8999194758858563409123804352480028797519453int, 24586968632534nat, 5093425502523775548325973874051428859940139int, 0nat, 49173937265068nat, 1656469210040989463679633341490595896362486int);
    lemma_pow_step(2int, 8999194758858563409123804352480028797519453int, 49173937265068nat, 1656469210040989463679633341490595896362486int, 0nat, 98347874530136nat, 5356231028242132272898129452258192516754946int);
    lemma_pow_step(2int, 8999194758858563409123804352480028797519453int, 98347874530136nat, 5356231028242132272898129452258192516754946int, 0nat, 196695749060272nat, 2522623919750189417415390589969134454650942int);
    lemma_pow_step(2int, 8999194758858563409123804352480028797519453int, 196695749060272nat, 2522623919750189417415390589969134454650942int, 0nat, 393391498120544nat, 1894058976292430933413388931658707072009148int);
    lemma_pow_step(2int, 8999194758858563409123804352480028797519453int, 393391498120544nat, 1894058976292430933413388931658707072009148int, 0nat, 786782996241088nat, 2568909685507004875107507756210779407983725int);
    lemma_pow_step(2int, 8999194758858563409123804352480028797519453int, 786782996241088nat, 2568909685507004875107507756210779407983725int, 1nat, 1573565992482177nat, 5943737105212810128232958097841636284678320int);
    lemma_pow_step(2int, 8999194758858563409123804352480028797519453int, 1573565992482177nat, 5943737105212810128232958097841636284678320int, 0nat, 3147131984964354nat, 8526879298855526516292351622262717071655188int);
    lemma_pow_step(2int, 8999194758858563409123804352480028797519453int, 3147131984964354nat, 8526879298855526516292351622262717071655188int, 1nat, 6294263969928709nat, 2620064561838872618613788828940512757029128int);
    lemma_pow_step(2int, 8999194758858563409123804352480028797519453int, 6294263969928709nat, 2620064561838872618613788828940512757029128int, 1nat, 12588527939857419nat, 4736891361936827067081206087278339564928758int);
    lemma_pow_step(2int, 8999194758858563409123804352480028797519453int, 12588527939857419nat, 4736891361936827067081206087278339564928758int, 0nat, 25177055879714838nat, 1656542213546603913269352729247443284824474int);
    lemma_pow_step(2int, 8999194758858563409123804352480028797519453int, 25177055879714838nat, 1656542213546603913269352729247443284824474int, 1nat, 50354111759429677nat, 105305598453243283520487215762804470016234int);
    lemma_pow_step(2int, 8999194758858563409123804352480028797519453int, 50354111759429677nat, 105305598453243283520487215762804470016234int, 0nat, 100708223518859354nat, 2409415063012899073220558368222990424745087int);
    lemma_pow_step(2int, 8999194758858563409123804352480028797519453int, 100708223518859354nat, 2409415063012899073220558368222990424745087int, 0nat, 201416447037718708nat, 4690560856070864756159782170371096924557841int);
    lemma_pow_step(2int, 8999194758858563409123804352480028797519453int, 201416447037718708nat, 4690560856070864756159782170371096924557841int, 1nat, 402832894075437417nat, 5092391161802949859487183723156121663766325int);
    lemma_pow_step(2int, 8999194758858563409123804352480028797519453int, 402832894075437417nat, 5092391161802949859487183723156121663766325int, 0nat, 805665788150874834nat, 1906966209210558855487722734245285848127030int);
    lemma_pow_step(2int, 8999194758858563409123804352480028797519453int, 805665788150874834nat, 1906966209210558855487722734245285848127030int, 1nat, 1611331576301749669nat, 1088241634946216071312788619548899319827913int);
    lemma_pow_step(2int, 8999194758858563409123804352480028797519453int, 1611331576301749669nat, 1088241634946216071312788619548899319827913int, 0nat, 3222663152603499338nat, 2062667290602565871414845570207713955589326int);
    lemma_pow_step(2int, 8999194758858563409123804352480028797519453int, 3222663152603499338nat, 2062667290602565871414845570207713955589326int, 0nat, 6445326305206998676nat, 148545848579309921817416857630181091321972int);
    lemma_pow_step(2int, 8999194758858563409123804352480028797519453int, 6445326305206998676nat, 148545848579309921817416857630181091321972int, 1nat, 12890652610413997353nat, 5584750742751963347523244973404950901889839int);
    lemma_pow_step(2int, 8999194758858563409123804352480028797519453int, 12890652610413997353nat, 5584750742751963347523244973404950901889839int, 0nat, 25781305220827994706nat, 209065032902447887804408368108170585223382int);
    lemma_pow_step(2int, 8999194758858563409123804352480028797519453int, 25781305220827994706nat, 209065032902447887804408368108170585223382int, 0nat, 51562610441655989412nat, 8552179837571934857944842738681464440175368int);
    lemma_pow_step(2int, 8999194758858563409123804352480028797519453int, 51562610441655989412nat, 8552179837571934857944842738681464440175368int, 0nat, 103125220883311978824nat, 6135510828960438989036370751837459302268999int);
    lemma_pow_step(2int, 8999194758858563409123804352480028797519453int, 103125220883311978824nat, 6135510828960438989036370751837459302268999int, 0nat, 206250441766623957648nat, 5527800482062722956864829064757042520581914int);
    lemma_pow_step(2int, 8999194758858563409123804352480028797519453int, 206250441766623957648nat, 5527800482062722956864829064757042520581914int, 0nat, 412500883533247915296nat, 8204944599008705340304969017915678941758202int);
    lemma_pow_step(2int, 8999194758858563409123804352480028797519453int, 412500883533247915296nat, 8204944599008705340304969017915678941758202int, 0nat, 825001767066495830592nat, 1435865829980872689067155258811649197359389int);
    lemma_pow_step(2int, 8999194758858563409123804352480028797519453int, 825001767066495830592nat, 1435865829980872689067155258811649197359389int, 0nat, 1650003534132991661184nat, 1310280180327102424301221711199279320098878int);
    lemma_pow_step(2int, 8999194758858563409123804352480028797519453int, 1650003534132991661184nat, 1310280180327102424301221711199279320098878int, 0nat, 3300007068265983322368nat, 4948663692416882476976589852361587391589385int);
    lemma_pow_step(2int, 8999194758858563409123804352480028797519453int, 3300007068265983322368nat, 4948663692416882476976589852361587391589385int, 1nat, 6600014136531966644737nat, 4975932572509448612548547112016042585067433int);
    lemma_pow_step(2int, 8999194758858563409123804352480028797519453int, 6600014136531966644737nat, 4975932572509448612548547112016042585067433int, 1nat, 13200028273063933289475nat, 1738182317143411936965860830302505737232048int);
    lemma_pow_step(2int, 8999194758858563409123804352480028797519453int, 13200028273063933289475nat, 1738182317143411936965860830302505737232048int, 0nat, 26400056546127866578950nat, 4488913777650742771409546755475379584780246int);
    lemma_pow_step(2int, 8999194758858563409123804352480028797519453int, 26400056546127866578950nat, 4488913777650742771409546755475379584780246int, 0nat, 52800113092255733157900nat, 8303658795524319546906083856351468708278719int);
    lemma_pow_step(2int, 8999194758858563409123804352480028797519453int, 52800113092255733157900nat, 8303658795524319546906083856351468708278719int, 1nat, 105600226184511466315801nat, 7605257788076654945415276500117497604898388int);
    lemma_pow_step(2int, 8999194758858563409123804352480028797519453int, 105600226184511466315801nat, 7605257788076654945415276500117497604898388int, 1nat, 211200452369022932631603nat, 5577461199960392269089511943483306930006537int);
    lemma_pow_step(2int, 8999194758858563409123804352480028797519453int, 211200452369022932631603nat, 5577461199960392269089511943483306930006537int, 0nat, 422400904738045865263206nat, 452369453886561631468836954496530322845177int);
    lemma_pow_step(2int, 8999194758858563409123804352480028797519453int, 422400904738045865263206nat, 452369453886561631468836954496530322845177int, 0nat, 844801809476091730526412nat, 7163369579189833078587263597122986329400126int);
    lemma_pow_step(2int, 8999194758858563409123804352480028797519453int, 844801809476091730526412nat, 7163369579189833078587263597122986329400126int, 0nat, 1689603618952183461052824nat, 4744094490247707048363445555174825919218811int);
    lemma_pow_step(2int, 8999194758858563409123804352480028797519453int, 1689603618952183461052824nat, 4744094490247707048363445555174825919218811int, 1nat, 3379207237904366922105649nat, 3909142063508635363553939986318052338748872int);
    lemma_pow_step(2int, 8999194758858563409123804352480028797519453int, 3379207237904366922105649nat, 3909142063508635363553939986318052338748872int, 1nat, 6758414475808733844211299nat, 1470816608575325851389111039160629976411848int);
    lemma_pow_step(2int, 8999194758858563409123804352480028797519453int, 6758414475808733844211299nat, 1470816608575325851389111039160629976411848int, 0nat, 13516828951617467688422598nat, 3849855163743076887372227632066843782534032int);
    lemma_pow_step(2int, 8999194758858563409123804352480028797519453int, 13516828951617467688422598nat, 3849855163743076887372227632066843782534032int, 0nat, 27033657903234935376845196nat, 2893780725804738594702238684268026881597933int);
    lemma_pow_step(2int, 8999194758858563409123804352480028797519453int, 27033657903234935376845196nat, 2893780725804738594702238684268026881597933int, 1nat, 54067315806469870753690393nat, 4792833465997899928361655082442963562748559int);
    lemma_pow_step(2int, 8999194758858563409123804352480028797519453int, 54067315806469870753690393nat, 4792833465997899928361655082442963562748559int, 1nat, 108134631612939741507380787nat, 5846898281532892684082643389120380069840387int);
    lemma_pow_step(2int, 8999194758858563409123804352480028797519453int, 108134631612939741507380787nat, 5846898281532892684082643389120380069840387int, 0nat, 216269263225879483014761574nat, 8949617751106484446683360395223673695631924int);
    lemma_pow_step(2int, 8999194758858563409123804352480028797519453int, 216269263225879483014761574nat, 8949617751106484446683360395223673695631924int, 1nat, 432538526451758966029523149nat, 7931259852573917774665804367498295709878874int);
    lemma_pow_step(2int, 8999194758858563409123804352480028797519453int, 432538526451758966029523149nat, 7931259852573917774665804367498295709878874int, 0nat, 865077052903517932059046298nat, 4844769526307997717656047195578890109063853int);
    lemma_pow_step(2int, 8999194758858563409123804352480028797519453int, 865077052903517932059046298nat, 4844769526307997717656047195578890109063853int, 1nat, 1730154105807035864118092597nat, 6906176155510564589959842060242453253782654int);
    lemma_pow_step(2int, 8999194758858563409123804352480028797519453int, 1730154105807035864118092597nat, 6906176155510564589959842060242453253782654int, 0nat, 3460308211614071728236185194nat, 7638726973203931916949195733645281294316519int);
    lemma_pow_step(2int, 8999194758858563409123804352480028797519453int, 3460308211614071728236185194nat, 7638726973203931916949195733645281294316519int, 1nat, 6920616423228143456472370389nat, 2239676957466509164771660599636231497565066int);
    lemma_pow_step(2int, 8999194758858563409123804352480028797519453int, 6920616423228143456472370389nat, 2239676957466509164771660599636231497565066int, 0nat, 13841232846456286912944740778nat, 6516658197335264215155927829540369675678361int);
    lemma_pow_step(2int, 8999194758858563409123804352480028797519453int, 13841232846456286912944740778nat, 6516658197335264215155927829540369675678361int, 0nat, 27682465692912573825889481556nat, 1923835525255145170976080895073905971702885int);
}

/// 8999194758858563409123804352480028797519453 is prime: a Lucas certificate with witness 2.
pub proof fn lemma_prime_8999194758858563409123804352480028797519453()
    ensures
        is_prime(8999194758858563409123804352480028797519453int),
{
    lemma_prime_2();
    lemma_prime_3();
    lemma_prime_11();
    lemma_prime_2531();
    lemma_prime_115603();
    lemma_prime_1197907();
    lemma_prime_22160661629();
    lemma_prime_325086459374267();
    lemma_pow_8999194758858563409123804352480028797519453_full();
    lemma_pow_8999194758858563409123804352480028797519453_by_2();
    lemma_pow_8999194758858563409123804352480028797519453_by_3();
    lemma_pow_8999194758858563409123804352480028797519453_by_11();
    lemma_pow_8999194758858563409123804352480028797519453_by_2531();
    lemma_pow_8999194758858563409123804352480028797519453_by_115603();
    lemma_pow_8999194758858563409123804352480028797519453_by_1197907();
    lemma_pow_8999194758858563409123804352480028797519453_by_22160661629();
    lemma_pow_8999194758858563409123804352480028797519453_by_325086459374267();
    let c: Seq<(int, nat)> = seq![(2int, 2nat), (3int, 4nat), (11int, 1nat), (2531int, 1nat), (115603int, 1nat), (1197907int, 1nat), (22160661629int, 1nat), (325086459374267int, 1nat)];
    assert(c[0] == (2int, 2nat));
    assert(c[1] == (3int, 4nat));
    assert(c[2] == (11int, 1nat));
    assert(c[3] == (2531int, 1nat));
    assert(c[4] == (115603int, 1nat));
    assert(c[5] == (1197907int, 1nat));
    assert(c[6] == (22160661629int, 1nat));
    assert(c[7] == (325086459374267int, 1nat));
    assert(cert_product(c.skip(8)) == 1) by {
        assert(c.skip(8) =~= Seq::<(int, nat)>::empty());
    }
    assert(cert_product(c.skip(7)) == 325086459374267int) by {
        assert(c.skip(7).drop_first() =~= c.skip(8));
        assert(c.skip(7)[0] == (325086459374267int, 1nat));
        assert(pow(325086459374267int, 1nat) == 325086459374267int) by {
            reveal_with_fuel(pow, 2);
        }
    }
    assert(cert_product(c.skip(6)) == 7204131026362786056900943int) by {
        assert(c.skip(6).drop_first() =~= c.skip(7));
        assert(c.skip(6)[0] == (22160661629int, 1nat));
        assert(pow(22160661629int, 1nat) == 22160661629int) by {
            reveal_with_fuel(pow, 2);
        }
    }
    assert(cert_product(c.skip(5)) == 8629878985397165957064037926301int) by {
        assert(c.skip(5).drop_first() =~= c.skip(6));
        assert(c.skip(5)[0] == (1197907int, 1nat));
        assert(pow(1197907int, 1nat) == 1197907int) by {
            reveal_with_fuel(pow, 2);
        }
    }
    assert(cert_product(c.skip(4)) == 997639900348868576134473976394174503int) by {
        assert(c.skip(4).drop_first() =~= c.skip(5));
        assert(c.skip(4)[0] == (115603int, 1nat));
        assert(pow(115603int, 1nat) == 115603int) by {
            reveal_with_fuel(pow, 2);
        }
    }
    assert(cert_product(c.skip(3)) == 2525026587782986366196353634253655667093int) by {
        assert(c.skip(3).drop_first() =~= c.skip(4));
        assert(c.skip(3)[0] == (2531int, 1nat));
        assert(pow(2531int, 1nat) == 2531int) by {
            reveal_with_fuel(pow, 2);
        }
    }
    assert(cert_product(c.skip(2)) == 27775292465612850028159889976790212338023int) by {
        assert(c.skip(2).drop_first() =~= c.skip(3));
        assert(c.skip(2)[0] == (11int, 1nat));
        assert(pow(11int, 1nat) == 11int) by {
            reveal_with_fuel(pow, 2);
        }
    }
    assert(cert_product(c.skip(1)) == 2249798689714640852280951088120007199379863int) by {
        assert(c.skip(1).drop_first() =~= c.skip(2));
        assert(c.skip(1)[0] == (3int, 4nat));
        assert(pow(3int, 4nat) == 81int) by {
            reveal_with_fuel(pow, 5);
        }
    }
    assert(cert_product(c.skip(0)) == 8999194758858563409123804352480028797519452int) by {
        assert(c.skip(0).drop_first() =~= c.skip(1));
        assert(c.skip(0)[0] == (2int, 2nat));
        assert(pow(2int, 2nat) == 4int) by {
            reveal_with_fuel(pow, 3);
        }
    }
    assert(c.skip(0) =~= c);
    assert forall|i: int| 0 <= i < c.len() implies is_prime(#[trigger] c[i].0) && c[i].1 >= 1 by {
        if i == 0 {
            assert(c[0].0 == 2int);
        }
        if i == 1 {
            assert(c[1].0 == 3int);
        }
        if i == 2 {
            assert(c[2].0 == 11int);
        }
        if i == 3 {
            assert(c[3].0 == 2531int);
        }
        if i == 4 {
            assert(c[4].0 == 115603int);
        }
        if i == 5 {
            assert(c[5].0 == 1197907int);
        }
        if i == 6 {
            assert(c[6].0 == 22160661629int);
        }
        if i == 7 {
            assert(c[7].0 == 325086459374267int);
        }
    }
    assert forall|i: int| 0 <= i < c.len() implies #[trigger] (pow(2int, ((8999194758858563409123804352480028797519453int - 1) / c[i].0) as nat) % 8999194758858563409123804352480028797519453int) != 1 by {
        if i == 0 {
            assert(c[0].0 == 2int);
            assert((8999194758858563409123804352480028797519453int - 1) / 2int == 4499597379429281704561902176240014398759726int);
        }
        if i == 1 {
            assert(c[1].0 == 3int);
            assert((8999194758858563409123804352480028797519453int - 1) / 3int == 2999731586286187803041268117493342932506484int);
        }
        if i == 2 {
            assert(c[2].0 == 11int);
            assert((8999194758858563409123804352480028797519453int - 1) / 11int == 818108614441687582647618577498184436138132int);
        }
        if i == 3 {
            assert(c[3].0 == 2531int);
            assert((8999194758858563409123804352480028797519453int - 1) / 2531int == 3555588604843367605343265251868837928692int);
        }
        if i == 4 {
            assert(c[4].0 == 115603int);
            assert((8999194758858563409123804352480028797519453int - 1) / 115603int == 77845685309711369161040841089591349684int);
        }
        if i == 5 {
            assert(c[5].0 == 1197907int);
            assert((8999194758858563409123804352480028797519453int - 1) / 1197907int == 7512431899019342410657759202074976436int);
        }
        if i == 6 {
            assert(c[6].0 == 22160661629int);
            assert((8999194758858563409123804352480028797519453int - 1) / 22160661629int == 406088721966766121824069856270988int);
        }
        if i == 7 {
            assert(c[7].0 == 325086459374267int);
            assert((8999194758858563409123804352480028797519453int - 1) / 325086459374267int == 27682465692912573825889481556int);
        }
    }
    lemma_lucas(8999194758858563409123804352480028797519453int, 2int, c);
}

/// `5^28948022309329048855892746252171976963363056481941560715954676764349967630336` modulo `28948022309329048855892746252171976963363056481941560715954676764349967630337`, by square-and-multiply.
proof fn lemma_pow_28948022309329048855892746252171976963363056481941560715954676764349967630337_full()
    ensures
        pow(5int, 28948022309329048855892746252171976963363056481941560715954676764349967630336nat) % 28948022309329048855892746252171976963363056481941560715954676764349967630337int == 1int,
{
    lemma_pow_start(5int, 28948022309329048855892746252171976963363056481941560715954676764349967630337int, 5int);
    lemma_pow_step(5int, 28948022309329048855892746252171976963363056481941560715954676764349967630337int, 1nat, 5int, 0nat, 2nat, 25int);
    lemma_pow_step(5int, 28948022309329048855892746252171976963363056481941560715954676764349967630337int, 2nat, 25int, 0nat, 4nat, 625int);
    lemma_pow_step(5int, 28948022309329048855892746252171976963363056481941560715954676764349967630337int, 4nat, 625int, 0nat, 8nat, 390625int);
    lemma_pow_step(5int, 28948022309329048855892746252171976963363056481941560715954676764349967630337int, 8nat, 390625int, 0nat, 16nat, 152587890625int);
    lemma_pow_step(5int, 28948022309329048855892746252171976963363056481941560715954676764349967630337int, 16nat, 152587890625int, 0nat, 32nat, 23283064365386962890625int);
    lemma_pow_step(5int, 28948022309329048855892746252171976963363056481941560715954676764349967630337int, 32nat, 23283064365386962890625int, 0nat, 64nat, 542101086242752217003726400434970855712890625int);
    lemma_pow_step(5int, 28948022309329048855892746252171976963363056481941560715954676764349967630337int, 64nat, 542101086242752217003726400434970855712890625int, 0nat, 128nat, 17278874662135856575923867148085202403615376589486721847220952560043227129331int);
    lemma_pow_step(5int, 28948022309329048855892746252171976963363056481941560715954676764349967630337int, 128nat, 17278874662135856575923867148085202403615376589486721847220952560043227129331int, 0nat, 256nat, 22703375178469715999379307296351761133287575658814818450528772333818805442619int);
    lemma_pow_step(5int, 28948022309329048855892746252171976963363056481941560715954676764349967630337int, 256nat, 22703375178469715999379307296351761133287575658814818450528772333818805442619int, 0nat, 512nat, 2748719896906588311079145943294605566542475104143952271957859765193125706073int);
    lemma_pow_step(5int, 28948022309329048855892746252171976963363056481941560715954676764349967630337int, 512nat, 2748719896906588311079145943294605566542475104143952271957859765193125706073int, 0nat, 1024nat, 20945356592596337452079289648641464615574500433482226757804802299819988813465int);
    lemma_pow_step(5int, 28948022309329048855892746252171976963363056481941560715954676764349967630337int, 1024nat, 20945356592596337452079289648641464615574500433482226757804802299819988813465int, 0nat, 2048nat, 8656415661544447216155834789051149061785957853670652448621518154678682718921int);
    lemma_pow_step(5int, 28948022309329048855892746252171976963363056481941560715954676764349967630337int, 2048nat, 8656415661544447216155834789051149061785957853670652448621518154678682718921int, 0nat, 4096nat, 16804606605124066720401205216205410056836979584670110393563423341662167636903int);
    lemma_pow_step(5int, 28948022309329048855892746252171976963363056481941560715954676764349967630337int, 4096nat, 16804606605124066720401205216205410056836979584670110393563423341662167636903int, 0nat, 8192nat, 15525007507654427689043848681557990594388972733360676507531307264786445561985int);
    lemma_pow_step(5int, 28948022309329048855892746252171976963363056481941560715954676764349967630337int, 8192nat, 15525007507654427689043848681557990594388972733360676507531307264786445561985int, 0nat, 16384nat, 21603040592232831737666295271430268673290076542399121594475937661250347394625int);
    lemma_pow_step(5int, 28948022309329048855892746252171976963363056481941560715954676764349967630337int, 16384nat, 21603040592232831737666295271430268673290076542399121594475937661250347394625int, 0nat, 32768nat, 11731568952769229660081805251845857122966876075048602621272128428440858106348int);
    lemma_pow_step(5int, 28948022309329048855892746252171976963363056481941560715954676764349967630337int, 32768nat, 11731568952769229660081805251845857122966876075048602621272128428440858106348int, 0nat, 65536nat, 8624988833082606101191705389749003964146681985034109593156165810844943991041int);
    lemma_pow_step(5int, 28948022309329048855892746252171976963363056481941560715954676764349967630337int, 65536nat, 8624988833082606101191705389749003964146681985034109593156165810844943991041int, 0nat, 131072nat, 10663082214872107623691573471892167457413658162070443233756153958947582615114int);
    lemma_pow_step(5int, 28948022309329048855892746252171976963363056481941560715954676764349967630337int, 131072nat, 10663082214872107623691573471892167457413658162070443233756153958947582615114int, 0nat, 262144nat, 23245410702310214124029298820597220854981856610998867187672161930437827915291int);
    lemma_pow_step(5int, 28948022309329048855892746252171976963363056481941560715954676764349967630337int, 262144nat, 23245410702310214124029298820597220854981856610998867187672161930437827915291int, 0nat, 524288nat, 13811367183254920098522542226913251696190115086860649036613513262755030855581int);
    lemma_pow_step(5int, 28948022309329048855892746252171976963363056481941560715954676764349967630337int, 524288nat, 13811367183254920098522542226913251696190115086860649036613513262755030855581int, 0nat, 1048576nat, 28729415068806607397667817329939291851152042017677616272251939736071333415998int);
    lemma_pow_step(5int, 28948022309329048855892746252171976963363056481941560715954676764349967630337int, 1048576nat, 28729415068806607397667817329939291851152042017677616272251939736071333415998int, 0nat, 2097152nat, 5178090956815396210819305399736164531975832348291425214638162210076965810622int);
    lemma_pow_step(5int, 28948022309329048855892746252171976963363056481941560715954676764349967630337int, 2097152nat, 5178090956815396210819305399736164531975832348291425214638162210076965810622int, 0nat, 4194304nat, 17748362068074767758116087267877801931210526348258373776156712475998988515206int);
    lemma_pow_step(5int, 28948022309329048855892746252171976963363056481941560715954676764349967630337int, 4194304nat, 17748362068074767758116087267877801931210526348258373776156712475998988515206int, 0nat, 8388608nat, 25479409351279526947445825382834444587406071175899720427612577454666290516127int);
    lemma_pow_step(5int, 28948022309329048855892746252171976963363056481941560715954676764349967630337int, 8388608nat, 25479409351279526947445825382834444587406071175899720427612577454666290516127int, 0nat, 16777216nat, 3670118313512520317481079879526743018797897099852492317811952976349872182841int);
    lemma_pow_step(5int, 28948022309329048855892746252171976963363056481941560715954676764349967630337int, 16777216nat, 3670118313512520317481079879526743018797897099852492317811952976349872182841int, 0nat, 33554432nat, 3210042662356938277984098202324076448777172827047796982755383482261592569662int);
    lemma_pow_step(5int, 28948022309329048855892746252171976963363056481941560715954676764349967630337int, 33554432nat, 3210042662356938277984098202324076448777172827047796982755383482261592569662int, 0nat, 67108864nat, 24784009215230830967977629887403136564010859444969516572528599187187206680946int);
    lemma_pow_step(5int, 28948022309329048855892746252171976963363056481941560715954676764349967630337int, 67108864nat, 24784009215230830967977629887403136564010859444969516572528599187187206680946int, 0nat, 134217728nat, 2050760101742723440550724309735898766311849904016542651073929742927505509519int);
    lemma_pow_step(5int, 28948022309329048855892746252171976963363056481941560715954676764349967630337int, 134217728nat, 2050760101742723440550724309735898766311849904016542651073929742927505509519int, 0nat, 268435456nat, 20645539444280524710271987635177383938629396563832395434856117233931935059042int);
    lemma_pow_step(5int, 28948022309329048855892746252171976963363056481941560715954676764349967630337int, 268435456nat, 20645539444280524710271987635177383938629396563832395434856117233931935059042int, 0nat, 536870912nat, 16784537503625536032693397000326268991041340743175650856677395551467291441405int);
    lemma_pow_step(5int, 28948022309329048855892746252171976963363056481941560715954676764349967630337int, 536870912nat, 16784537503625536032693397000326268991041340743175650856677395551467291441405int, 0nat, 1073741824nat, 9465142131323257054559995429896367690263875351173239093370621298186994058554int);
    lemma_pow_step(5int, 28948022309329048855892746252171976963363056481941560715954676764349967630337int, 1073741824nat, 9465142131323257054559995429896367690263875351173239093370621298186994058554int, 0nat, 2147483648nat, 1360680845275067906110538964825591148559883922369757508931560721295388411453int);
    lemma_pow_step(5int, 28948022309329048855892746252171976963363056481941560715954676764349967630337int, 2147483648nat, 1360680845275067906110538964825591148559883922369757508931560721295388411453int, 0nat, 4294967296nat, 4730712715107027403836960807135378615419710616093490380467347787225654598562int);
    lemma_pow_step(5int, 28948022309329048855892746252171976963363056481941560715954676764349967630337int, 4294967296nat, 4730712715107027403836960807135378615419710616093490380467347787225654598562int, 0nat, 8589934592nat, 15185339917907277049574560850502955916634869035013432073132443178314543692329int);
    lemma_pow_step(5int, 28948022309329048855892746252171976963363056481941560715954676764349967630337int, 8589934592nat, 15185339917907277049574560850502955916634869035013432073132443178314543692329int, 0nat, 17179869184nat, 9946965445177310190204885788114360237891054853705860939661728697746618643413int);
    lemma_pow_step(5int, 28948022309329048855892746252171976963363056481941560715954676764349967630337int, 17179869184nat, 9946965445177310190204885788114360237891054853705860939661728697746618643413int, 0nat, 34359738368nat, 17841882138629563351083068003923306064669625849350437037432239693483518909726int);
    lemma_pow_step(5int, 28948022309329048855892746252171976963363056481941560715954676764349967630337int, 34359738368nat, 17841882138629563351083068003923306064669625849350437037432239693483518909726int, 0nat, 68719476736nat, 15640576224676317767144025332067263807668593636570354168476693957827498031055int);
    lemma_pow_step(5int, 28948022309329048855892746252171976963363056481941560715954676764349967630337int, 68719476736nat, 15640576224676317767144025332067263807668593636570354168476693957827498031055int, 0nat, 137438953472nat, 288886652411983487413680337083883369838519904281019748668030200547238153149int);
    lemma_pow_step(5int, 28948022309329048855892746252171976963363056481941560715954676764349967630337int, 137438953472nat, 288886652411983487413680337083883369838519904281019748668030200547238153149int, 0nat, 274877906944nat, 15452565513906914883150279806487253731925902718626542846423916678519183197049int);
    lemma_pow_step(5int, 28948022309329048855892746252171976963363056481941560715954676764349967630337int, 274877906944nat, 15452565513906914883150279806487253731925902718626542846423916678519183197049int, 0nat, 549755813888nat, 27152977135881719658002526165078919774774660676575992521863919065575962540591int);
    lemma_pow_step(5int, 28948022309329048855892746252171976963363056481941560715954676764349967630337int, 549755813888nat, 27152977135881719658002526165078919774774660676575992521863919065575962540591int, 0nat, 1099511627776nat, 10222071874600401501539954099353142449467762004873804282282394047893650688458int);
    lemma_pow_step(5int, 28948022309329048855892746252171976963363056481941560715954676764349967630337int, 1099511627776nat, 10222071874600401501539954099353142449467762004873804282282394047893650688458int, 0nat, 2199023255552nat, 9512081422422724664385340439806673719139580417836446760404834639003689049934int);
    lemma_pow_step(5int, 28948022309329048855892746252171976963363056481941560715954676764349967630337int, 2199023255552nat, 9512081422422724664385340439806673719139580417836446760404834639003689049934int, 0nat, 4398046511104nat, 13239443949270906693112089120628182433015862551999131886777073847252264208918int);
    lemma_pow_step(5int, 28948022309329048855892746252171976963363056481941560715954676764349967630337int, 4398046511104nat, 13239443949270906693112089120628182433015862551999131886777073847252264208918int, 0nat, 8796093022208nat, 5822787926165540697001801250180819822214095555008329988944003234048551192624int);
    lemma_pow_step(5int, 28948022309329048855892746252171976963363056481941560715954676764349967630337int, 8796093022208nat, 5822787926165540697001801250180819822214095555008329988944003234048551192624int, 0nat, 17592186044416nat, 1620215846944971556322622768385020392842297087043639449683378106148544761792int);
    lemma_pow_step(5int, 28948022309329048855892746252171976963363056481941560715954676764349967630337int, 17592186044416nat, 1620215846944971556322622768385020392842297087043639449683378106148544761792int, 0nat, 35184372088832nat, 19516812097719859488771136306688954747034419555096865490564852966229538787852int);
    lemma_pow_step(5int, 28948022309329048855892746252171976963363056481941560715954676764349967630337int, 35184372088832nat, 19516812097719859488771136306688954747034419555096865490564852966229538787852int, 0nat, 70368744177664nat, 6970136328859748113336459026948184950952316239745106890898535120516817124248int);
    lemma_pow_step(5int, 28948022309329048855892746252171976963363056481941560715954676764349967630337int, 70368744177664nat, 6970136328859748113336459026948184950952316239745106890898535120516817124248int, 0nat, 140737488355328nat, 193756035066998181530840967066327152479913250944944978604678108192345179172int);
    lemma_pow_step(5int, 28948022309329048855892746252171976963363056481941560715954676764349967630337int, 140737488355328nat, 193756035066998181530840967066327152479913250944944978604678108192345179172int, 0nat, 281474976710656nat, 8428934171105881873536931159074469452194498404608633877651849383204996762102int);
    lemma_pow_step(5int, 28948022309329048855892746252171976963363056481941560715954676764349967630337int, 281474976710656nat, 8428934171105881873536931159074469452194498404608633877651849383204996762102int, 0nat, 562949953421312nat, 1448828463842024350186467039376986243992147765310831628735369694375466565943int);
    lemma_pow_step(5int, 28948022309329048855892746252171976963363056481941560715954676764349967630337int, 562949953421312nat, 1448828463842024350186467039376986243992147765310831628735369694375466565943int, 0nat, 1125899906842624nat, 5114691243789272623926512650303454916185394751641661624971679646580375205759int);
    lemma_pow_step(5int, 28948022309329048855892746252171976963363056481941560715954676764349967630337int, 1125899906842624nat, 5114691243789272623926512650303454916185394751641661624971679646580375205759int, 0nat, 2251799813685248nat, 4576573831006338797547703696488708436375487446850741925247245187413619023190int);
    lemma_pow_step(5int, 28948022309329048855892746252171976963363056481941560715954676764349967630337int, 2251799813685248nat, 4576573831006338797547703696488708436375487446850741925247245187413619023190int, 0nat, 4503599627370496nat, 22712244689592173544869631924507863811595243106724462273228692087313170534035int);
    lemma_pow_step(5int, 28948022309329048855892746252171976963363056481941560715954676764349967630337int, 4503599627370496nat, 22712244689592173544869631924507863811595243106724462273228692087313170534035int, 0nat, 9007199254740992nat, 15012898801782225224890795272652001802866397536377985574944288898465914340008int);
    lemma_pow_step(5int, 28948022309329048855892746252171976963363056481941560715954676764349967630337int, 9007199254740992nat, 15012898801782225224890795272652001802866397536377985574944288898465914340008int, 0nat, 18014398509481984nat, 4294758054666360836644055154809068985921164145514344330276000309191016541947int);
    lemma_pow_step(5int, 28948022309329048855892746252171976963363056481941560715954676764349967630337int, 18014398509481984nat, 4294758054666360836644055154809068985921164145514344330276000309191016541947int, 0nat, 36028797018963968nat, 17509134141238860392703108923678781505205076757492026350717549455870318919769int);
    lemma_pow_step(5int, 28948022309329048855892746252171976963363056481941560715954676764349967630337int, 36028797018963968nat, 17509134141238860392703108923678781505205076757492026350717549455870318919769int, 0nat, 72057594037927936nat, 3559479079499116285869037380249311412840510310356869305502028759764366911497int);
    lemma_pow_step(5int, 28948022309329048855892746252171976963363056481941560715954676764349967630337int, 72057594037927936nat, 3559479079499116285869037380249311412840510310356869305502028759764366911497int, 0nat, 144115188075855872nat, 11240076720965529722054058346578467737068989917381810744677699525081830555813int);
    lemma_pow_step(5int, 28948022309329048855892746252171976963363056481941560715954676764349967630337int, 144115188075855872nat, 11240076720965529722054058346578467737068989917381810744677699525081830555813int, 0nat, 288230376151711744nat, 1074031571585529807587147974772616452042503164330194258286924676216538479056int);
    lemma_pow_step(5int, 28948022309329048855892746252171976963363056481941560715954676764349967630337int, 288230376151711744nat, 1074031571585529807587147974772616452042503164330194258286924676216538479056int, 0nat, 576460752303423488nat, 2214366784650888146779835431707848043900329633690144378390144600475304097290int);
    lemma_pow_step(5int, 28948022309329048855892746252171976963363056481941560715954676764349967630337int, 576460752303423488nat, 2214366784650888146779835431707848043900329633690144378390144600475304097290int, 0nat, 1152921504606846976nat, 27454990153546125639026276981833916446447237610821078941809149047115249188290int);
    lemma_pow_step(5int, 28948022309329048855892746252171976963363056481941560715954676764349967630337int, 1152921504606846976nat, 27454990153546125639026276981833916446447237610821078941809149047115249188290int, 0nat, 2305843009213693952nat, 863461282638972052479808579252072660876820342813854532554145528497739529894int);
    lemma_pow_step(5int, 28948022309329048855892746252171976963363056481941560715954676764349967630337int, 2305843009213693952nat, 863461282638972052479808579252072660876820342813854532554145528497739529894int, 0nat, 4611686018427387904nat, 8307798723809753800969523370858875299448579084308817647464364848562173681411int);
    lemma_pow_step(5int, 28948022309329048855892746252171976963363056481941560715954676764349967630337int, 4611686018427387904nat, 8307798723809753800969523370858875299448579084308817647464364848562173681411int, 0nat, 9223372036854775808nat, 13536655174013407162524856136236216585717369666007240958651952752302726344358int);
    lemma_pow_step(5int, 28948022309329048855892746252171976963363056481941560715954676764349967630337int, 9223372036854775808nat, 13536655174013407162524856136236216585717369666007240958651952752302726344358int, 0nat, 18446744073709551616nat, 10484564585826065987806476001841531069151418883841180356627059756321852018388int);
    lemma_pow_step(5int, 28948022309329048855892746252171976963363056481941560715954676764349967630337int, 18446744073709551616nat, 10484564585826065987806476001841531069151418883841180356627059756321852018388int, 0nat, 36893488147419103232nat, 2669406348491692400193810198192634359119264265548329110140391427679343255510int);
    lemma_pow_step(5int, 28948022309329048855892746252171976963363056481941560715954676764349967630337int, 36893488147419103232nat, 2669406348491692400193810198192634359119264265548329110140391427679343255510int, 0nat, 73786976294838206464nat, 11650891725507268129357612448606599913868110533824980480838151656253976347263int);
    lemma_pow_step(5int, 28948022309329048855892746252171976963363056481941560715954676764349967630337int, 73786976294838206464nat, 11650891725507268129357612448606599913868110533824980480838151656253976347263int, 0nat, 147573952589676412928nat, 20446478555344607204971484744088275570637861504198686722148439135087988025323int);
    lemma_pow_step(5int, 28948022309329048855892746252171976963363056481941560715954676764349967630337int, 147573952589676412928nat, 20446478555344607204971484744088275570637861504198686722148439135087988025323int, 0nat, 295147905179352825856nat, 20279671288326946906188797354967269877932911844195616884722707848360562221699int);
    lemma_pow_step(5int, 28948022309329048855892746252171976963363056481941560715954676764349967630337int, 295147905179352825856nat, 20279671288326946906188797354967269877932911844195616884722707848360562221699int, 0nat, 590295810358705651712nat, 1963756748257675387311815022507261965402345487433249471744880528679116060608int);
    lemma_pow_step(5int, 28948022309329048855892746252171976963363056481941560715954676764349967630337int, 590295810358705651712nat, 1963756748257675387311815022507261965402345487433249471744880528679116060608int, 0nat, 1180591620717411303424nat, 1824763416231490297395554605643449094299230266393989797409092899921029221697int);
    lemma_pow_step(5int, 28948022309329048855892746252171976963363056481941560715954676764349967630337int, 1180591620717411303424nat, 1824763416231490297395554605643449094299230266393989797409092899921029221697int, 0nat, 2361183241434822606848nat, 28344743646175877245222725389936933593741304958108448774621101763413063443046int);
    lemma_pow_step(5int, 28948022309329048855892746252171976963363056481941560715954676764349967630337int, 2361183241434822606848nat, 28344743646175877245222725389936933593741304958108448774621101763413063443046int, 0nat, 4722366482869645213696nat, 23503278528734760200251630824800787624299187732075791152369033197176846664051int);
    lemma_pow_step(5int, 28948022309329048855892746252171976963363056481941560715954676764349967630337int, 4722366482869645213696nat, 23503278528734760200251630824800787624299187732075791152369033197176846664051int, 0nat, 9444732965739290427392nat, 25254452224846377160305340083401979856862951734060075134631709863487246306078int);
    lemma_pow_step(5int, 28948022309329048855892746252171976963363056481941560715954676764349967630337int, 9444732965739290427392nat, 25254452224846377160305340083401979856862951734060075134631709863487246306078int, 0nat, 18889465931478580854784nat, 25378907380151705572525777640208158563935469836098488645018896280602430075778int);
    lemma_pow_step(5int, 28948022309329048855892746252171976963363056481941560715954676764349967630337int, 18889465931478580854784nat, 25378907380151705572525777640208158563935469836098488645018896280602430075778int, 0nat, 37778931862957161709568nat, 701442692187943653435593848542371209561574068616323811999651520177753089733int);
    lemma_pow_step(5int, 28948022309329048855892746252171976963363056481941560715954676764349967630337int, 37778931862957161709568nat, 701442692187943653435593848542371209561574068616323811999651520177753089733int, 0nat, 75557863725914323419136nat, 7663510564385787013344136650051245321040392319678933080828521020368737552679int);
    lemma_pow_step(5int, 28948022309329048855892746252171976963363056481941560715954676764349967630337int, 75557863725914323419136nat, 7663510564385787013344136650051245321040392319678933080828521020368737552679int, 0nat, 151115727451828646838272nat, 25615983544316011237067095756839239171177633244733865265042789705008292518755int);
    lemma_pow_step(5int, 28948022309329048855892746252171976963363056481941560715954676764349967630337int, 151115727451828646838272nat, 25615983544316011237067095756839239171177633244733865265042789705008292518755int, 0nat, 302231454903657293676544nat, 8347494515063796779999045628748821860940870132104971226319956697400034653840int);
    lemma_pow_step(5int, 28948022309329048855892746252171976963363056481941560715954676764349967630337int, 302231454903657293676544nat, 8347494515063796779999045628748821860940870132104971226319956697400034653840int, 0nat, 604462909807314587353088nat, 28921438386701814889974113544893120412277594388052141437220034402039289774603int);
    lemma_pow_step(5int, 28948022309329048855892746252171976963363056481941560715954676764349967630337int, 604462909807314587353088nat, 28921438386701814889974113544893120412277594388052141437220034402039289774603int, 0nat, 1208925819614629174706176nat, 27687191171989516044926188578052884893477030058244760507095316462877881317000int);
    lemma_pow_step(5int, 28948022309329048855892746252171976963363056481941560715954676764349967630337int, 1208925819614629174706176nat, 27687191171989516044926188578052884893477030058244760507095316462877881317000int, 0nat, 2417851639229258349412352nat, 1869085804769785362093570272324341962281362851360662714042485188274735175467int);
    lemma_pow_step(5int, 28948022309329048855892746252171976963363056481941560715954676764349967630337int, 2417851639229258349412352nat, 1869085804769785362093570272324341962281362851360662714042485188274735175467int, 0nat, 4835703278458516698824704nat, 13886964664030916490347157494107074077567257034677966080862830160829229772341int);
    lemma_pow_step(5int, 28948022309329048855892746252171976963363056481941560715954676764349967630337int, 4835703278458516698824704nat, 13886964664030916490347157494107074077567257034677966080862830160829229772341int, 0nat, 9671406556917033397649408nat, 22393127167957458314404366905187550456069070839603049744923880784463376830444int);
    lemma_pow_step(5int, 28948022309329048855892746252171976963363056481941560715954676764349967630337int, 9671406556917033397649408nat, 22393127167957458314404366905187550456069070839603049744923880784463376830444int, 0nat, 19342813113834066795298816nat, 4360845897618066045555286875401703674379556893973713988826684635958951733265int);
    lemma_pow_step(5int, 28948022309329048855892746252171976963363056481941560715954676764349967630337int, 19342813113834066795298816nat, 4360845897618066045555286875401703674379556893973713988826684635958951733265int, 0nat, 38685626227668133590597632nat, 4570109203390529033851823865178418878952444397041305961830408729209317553962int);
    lemma_pow_step(5int, 28948022309329048855892746252171976963363056481941560715954676764349967630337int, 38685626227668133590597632nat, 4570109203390529033851823865178418878952444397041305961830408729209317553962int, 0nat, 77371252455336267181195264nat, 5280488036390211251090057835661360267687296965878723438542815741884048592645int);
    lemma_pow_step(5int, 28948022309329048855892746252171976963363056481941560715954676764349967630337int, 77371252455336267181195264nat, 5280488036390211251090057835661360267687296965878723438542815741884048592645int, 0nat, 154742504910672534362390528nat, 8928475642939642637368826367854854000714532714841891979175377944074115217878int);
    lemma_pow_step(5int, 28948022309329048855892746252171976963363056481941560715954676764349967630337int, 154742504910672534362390528nat, 8928475642939642637368826367854854000714532714841891979175377944074115217878int, 0nat, 309485009821345068724781056nat, 6013053228127918412602469977800831410593488291815132783624802612342914362870int);
    lemma_pow_step(5int, 28948022309329048855892746252171976963363056481941560715954676764349967630337int, 309485009821345068724781056nat, 6013053228127918412602469977800831410593488291815132783624802612342914362870int, 0nat, 618970019642690137449562112nat, 10131720455210404389484419898792624168990374681118080422927094630419885603082int);
    lemma_pow_step(5int, 28948022309329048855892746252171976963363056481941560715954676764349967630337int, 618970019642690137449562112nat, 10131720455210404389484419898792624168990374681118080422927094630419885603082int, 0nat, 1237940039285380274899124224nat, 23028216398537859707091482273573219412092919718638601480772219762010519638940int);
    lemma_pow_step(5int, 28948022309329048855892746252171976963363056481941560715954676764349967630337int, 1237940039285380274899124224nat, 23028216398537859707091482273573219412092919718638601480772219762010519638940int, 0nat, 2475880078570760549798248448nat, 24703021241558881088223016425408057275967201042195635835795275900501736985194int);
    lemma_pow_step(5int, 28948022309329048855892746252171976963363056481941560715954676764349967630337int, 2475880078570760549798248448nat, 24703021241558881088223016425408057275967201042195635835795275900501736985194int, 0nat, 4951760157141521099596496896nat, 16802087073888988588776699392338342410802007979073483728456600823018474379475int);
    lemma_pow_step(5int, 28948022309329048855892746252171976963363056481941560715954676764349967630337int, 4951760157141521099596496896nat, 16802087073888988588776699392338342410802007979073483728456600823018474379475int, 0nat, 9903520314283042199192993792nat, 24351142681250673762378466284892314429043765450474997126572400912206115615226int);
    lemma_pow_step(5int, 28948022309329048855892746252171976963363056481941560715954676764349967630337int, 9903520314283042199192993792nat, 24351142681250673762378466284892314429043765450474997126572400912206115615226int, 0nat, 19807040628566084398385987584nat, 26432941076834709101464167503132302112963307910575227749734665597296005632068int);
    lemma_pow_step(5int, 28948022309329048855892746252171976963363056481941560715954676764349967630337int, 19807040628566084398385987584nat, 26432941076834709101464167503132302112963307910575227749734665597296005632068int, 0nat, 39614081257132168796771975168nat, 6010835453563598744565161520167969707590530576307421599764254284052262345969int);
    lemma_pow_step(5int, 28948022309329048855892746252171976963363056481941560715954676764349967630337int, 39614081257132168796771975168nat, 6010835453563598744565161520167969707590530576307421599764254284052262345969int, 0nat, 79228162514264337593543950336nat, 19591223670418009319184716890205917866748220082499749731601207021807237918546int);
    lemma_pow_step(5int, 28948022309329048855892746252171976963363056481941560715954676764349967630337int, 79228162514264337593543950336nat, 19591223670418009319184716890205917866748220082499749731601207021807237918546int, 0nat, 158456325028528675187087900672nat, 18978838102498208422979616228746223858289018802898193712629375123729427479062int);
    lemma_pow_step(5int, 28948022309329048855892746252171976963363056481941560715954676764349967630337int, 158456325028528675187087900672nat, 18978838102498208422979616228746223858289018802898193712629375123729427479062int, 0nat, 316912650057057350374175801344nat, 24205579540195384190457376924066062975750847101906132260338408449636837447093int);
    lemma_pow_step(5int, 28948022309329048855892746252171976963363056481941560715954676764349967630337int, 316912650057057350374175801344nat, 24205579540195384190457376924066062975750847101906132260338408449636837447093int, 0nat, 633825300114114700748351602688nat, 1164535737745234765204323587447048435144711562086499991098357419468441688802int);
    lemma_pow_step(5int, 28948022309329048855892746252171976963363056481941560715954676764349967630337int, 633825300114114700748351602688nat, 1164535737745234765204323587447048435144711562086499991098357419468441688802int, 0nat, 1267650600228229401496703205376nat, 25487581234785578637820596737596690815100409160384837456745666251142023422052int);
    lemma_pow_step(5int, 28948022309329048855892746252171976963363056481941560715954676764349967630337int, 1267650600228229401496703205376nat, 25487581234785578637820596737596690815100409160384837456745666251142023422052int, 0nat, 2535301200456458802993406410752nat, 15283076629086718622913039236797100833288422072325145342658440829887105409819int);
    lemma_pow_step(5int, 28948022309329048855892746252171976963363056481941560715954676764349967630337int, 2535301200456458802993406410752nat, 15283076629086718622913039236797100833288422072325145342658440829887105409819int, 0nat, 5070602400912917605986812821504nat, 12961517927268718832495931564362714334488659119459639641286275960199718075273int);
    lemma_pow_step(5int, 28948022309329048855892746252171976963363056481941560715954676764349967630337int, 5070602400912917605986812821504nat, 12961517927268718832495931564362714334488659119459639641286275960199718075273int, 0nat, 10141204801825835211973625643008nat, 20088653145028773546174009261326407945679707203024781361796980803315508182527int);
    lemma_pow_step(5int, 28948022309329048855892746252171976963363056481941560715954676764349967630337int, 10141204801825835211973625643008nat, 20088653145028773546174009261326407945679707203024781361796980803315508182527int, 0nat, 20282409603651670423947251286016nat, 18311401419311979303243275605622079786029122794481809344206457661578191130721int);
    lemma_pow_step(5int, 28948022309329048855892746252171976963363056481941560715954676764349967630337int, 20282409603651670423947251286016nat, 18311401419311979303243275605622079786029122794481809344206457661578191130721int, 0nat, 40564819207303340847894502572032nat, 16288172664762523627173830034289793926763537548276077284983686039823741988118int);
    lemma_pow_step(5int, 28948022309329048855892746252171976963363056481941560715954676764349967630337int, 40564819207303340847894502572032nat, 16288172664762523627173830034289793926763537548276077284983686039823741988118int, 0nat, 81129638414606681695789005144064nat, 10647443964285311696593812299403620710937568641139178927559356082081404015035int);
    lemma_pow_step(5int, 28948022309329048855892746252171976963363056481941560715954676764349967630337int, 81129638414606681695789005144064nat, 10647443964285311696593812299403620710937568641139178927559356082081404015035int, 0nat, 162259276829213363391578010288128nat, 12176080079739320113586337756648850064948026571975360666444752264448592048144int);
    lemma_pow_step(5int, 28948022309329048855892746252171976963363056481941560715954676764349967630337int, 162259276829213363391578010288128nat, 12176080079739320113586337756648850064948026571975360666444752264448592048144int, 0nat, 324518553658426726783156020576256nat, 22459324173539723929197138876714322308917227481905557374976711066836920795447int);
    lemma_pow_step(5int, 28948022309329048855892746252171976963363056481941560715954676764349967630337int, 324518553658426726783156020576256nat, 22459324173539723929197138876714322308917227481905557374976711066836920795447int, 0nat, 649037107316853453566312041152512nat, 1586194913433591511298410625111124823975523493452607085140659550389980066035int);
    lemma_pow_step(5int, 28948022309329048855892746252171976963363056481941560715954676764349967630337int, 649037107316853453566312041152512nat, 1586194913433591511298410625111124823975523493452607085140659550389980066035int, 0nat, 1298074214633706907132624082305024nat, 14703035153918924703703866689390565388566372740591680262134594482122488970894int);
    lemma_pow_step(5int, 28948022309329048855892746252171976963363056481941560715954676764349967630337int, 1298074214633706907132624082305024nat, 14703035153918924703703866689390565388566372740591680262134594482122488970894int, 0nat, 2596148429267413814265248164610048nat, 10008145733494355223625521524199741099976486851703264387941753935097941460733int);
    lemma_pow_step(5int, 28948022309329048855892746252171976963363056481941560715954676764349967630337int, 2596148429267413814265248164610048nat, 10008145733494355223625521524199741099976486851703264387941753935097941460733int, 0nat, 5192296858534827628530496329220096nat, 27783536694766062303619481018383666361635467583600323230349696998931411718037int);
    lemma_pow_step(5int, 28948022309329048855892746252171976963363056481941560715954676764349967630337int, 5192296858534827628530496329220096nat, 27783536694766062303619481018383666361635467583600323230349696998931411718037int, 0nat, 10384593717069655257060992658440192nat, 3402260013454113224844028254298340106554392887163926034554743690600977991393int);
    lemma_pow_step(5int, 28948022309329048855892746252171976963363056481941560715954676764349967630337int, 10384593717069655257060992658440192nat, 3402260013454113224844028254298340106554392887163926034554743690600977991393int, 0nat, 20769187434139310514121985316880384nat, 9465244757261833393067247044576558558419747115576290053617525567288772785438int);
    lemma_pow_step(5int, 28948022309329048855892746252171976963363056481941560715954676764349967630337int, 20769187434139310514121985316880384nat, 9465244757261833393067247044576558558419747115576290053617525567288772785438int, 0nat, 41538374868278621028243970633760768nat, 9323090415186133682398703218259081693766179071628680636267245209808042390863int);
    lemma_pow_step(5int, 28948022309329048855892746252171976963363056481941560715954676764349967630337int, 41538374868278621028243970633760768nat, 9323090415186133682398703218259081693766179071628680636267245209808042390863int, 0nat, 83076749736557242056487941267521536nat, 9578033967819069506181083047553003840806357542249487187984726892460456552230int);
    lemma_pow_step(5int, 28948022309329048855892746252171976963363056481941560715954676764349967630337int, 83076749736557242056487941267521536nat, 9578033967819069506181083047553003840806357542249487187984726892460456552230int, 0nat, 166153499473114484112975882535043072nat, 16375578862744116469979162665768663671501154848476699353973306715389125318957int);
    lemma_pow_step(5int, 28948022309329048855892746252171976963363056481941560715954676764349967630337int, 166153499473114484112975882535043072nat, 16375578862744116469979162665768663671501154848476699353973306715389125318957int, 0nat, 332306998946228968225951765070086144nat, 18578620584182554069578482318654755007183009951323265460286930174826812255077int);
    lemma_pow_step(5int, 28948022309329048855892746252171976963363056481941560715954676764349967630337int, 332306998946228968225951765070086144nat, 18578620584182554069578482318654755007183009951323265460286930174826812255077int, 0nat, 664613997892457936451903530140172288nat, 18058674664051197568903991128079796021357996556330189615186251725723142437395int);
    lemma_pow_step(5int, 28948022309329048855892746252171976963363056481941560715954676764349967630337int, 664613997892457936451903530140172288nat, 18058674664051197568903991128079796021357996556330189615186251725723142437395int, 0nat, 1329227995784915872903807060280344576nat, 5798542757738894188017790626204397780487585598386498854873542886613202587060int);
    lemma_pow_step(5int, 28948022309329048855892746252171976963363056481941560715954676764349967630337int, 1329227995784915872903807060280344576nat, 5798542757738894188017790626204397780487585598386498854873542886613202587060int, 0nat, 2658455991569831745807614120560689152nat, 19605373842764495052545525720555354181489099488683504836227061228501446951552int);
    lemma_pow_step(5int, 28948022309329048855892746252171976963363056481941560715954676764349967630337int, 2658455991569831745807614120560689152nat, 19605373842764495052545525720555354181489099488683504836227061228501446951552int, 0nat, 5316911983139663491615228241121378304nat, 22576755413268362949340817894364298592591086318413408454976734253902418435239int);
    lemma_pow_step(5int, 28948022309329048855892746252171976963363056481941560715954676764349967630337int, 5316911983139663491615228241121378304nat, 22576755413268362949340817894364298592591086318413408454976734253902418435239int, 0nat, 10633823966279326983230456482242756608nat, 11922377557062990952838003966721824949687161449529190310022615494182280375544int);
    lemma_pow_step(5int, 28948022309329048855892746252171976963363056481941560715954676764349967630337int, 10633823966279326983230456482242756608nat, 11922377557062990952838003966721824949687161449529190310022615494182280375544int, 0nat, 21267647932558653966460912964485513216nat, 603241327518073359457610264913069621233580849536591547190859315333134613145int);
    lemma_pow_step(5int, 28948022309329048855892746252171976963363056481941560715954676764349967630337int, 21267647932558653966460912964485513216nat, 603241327518073359457610264913069621233580849536591547190859315333134613145int, 0nat, 42535295865117307932921825928971026432nat, 9658676037409423277623116711855980929368813189471990529296664247471497519464int);
    lemma_pow_step(5int, 28948022309329048855892746252171976963363056481941560715954676764349967630337int, 42535295865117307932921825928971026432nat, 9658676037409423277623116711855980929368813189471990529296664247471497519464int, 0nat, 85070591730234615865843651857942052864nat, 1118414768069579273392392209687540894965442242242520512202844381353646643585int);
    lemma_pow_step(5int, 28948022309329048855892746252171976963363056481941560715954676764349967630337int, 85070591730234615865843651857942052864nat, 1118414768069579273392392209687540894965442242242520512202844381353646643585int, 0nat, 170141183460469231731687303715884105728nat, 28578393185017654159067086472997548421629025083932675183830752524839310043740int);
    lemma_pow_step(5int, 28948022309329048855892746252171976963363056481941560715954676764349967630337int, 170141183460469231731687303715884105728nat, 28578393185017654159067086472997548421629025083932675183830752524839310043740int, 0nat, 340282366920938463463374607431768211456nat, 15507953943004201903124284602456029129711174324011890365127429264059604392893int);
    lemma_pow_step(5int, 28948022309329048855892746252171976963363056481941560715954676764349967630337int, 340282366920938463463374607431768211456nat, 15507953943004201903124284602456029129711174324011890365127429264059604392893int, 1nat, 680564733841876926926749214863536422913nat, 10522411923199231699357538294022482000065037555575978647740503376014255705553int);
    lemma_pow_step(5int, 28948022309329048855892746252171976963363056481941560715954676764349967630337int, 680564733841876926926749214863536422913nat, 10522411923199231699357538294022482000065037555575978647740503376014255705553int, 0nat, 1361129467683753853853498429727072845826nat, 25884609553620000545889599201237766168554179234106100224409825513690147215491int);
    lemma_pow_step(5int, 28948022309329048855892746252171976963363056481941560715954676764349967630337int, 1361129467683753853853498429727072845826nat, 25884609553620000545889599201237766168554179234106100224409825513690147215491int, 0nat, 2722258935367507707706996859454145691652nat, 22757816389868886800049504297077852764442312288321889581173920693335422944701int);
    lemma_pow_step(5int, 28948022309329048855892746252171976963363056481941560715954676764349967630337int, 2722258935367507707706996859454145691652nat, 22757816389868886800049504297077852764442312288321889581173920693335422944701int, 0nat, 5444517870735015415413993718908291383304nat, 2474844135377174027691710875094210536989807195385074661220681207380752580637int);
    lemma_pow_step(5int, 28948022309329048855892746252171976963363056481941560715954676764349967630337int, 5444517870735015415413993718908291383304nat, 2474844135377174027691710875094210536989807195385074661220681207380752580637int, 1nat, 10889035741470030830827987437816582766609nat, 23815172143319031906646071162184841694616547066367022390048300813193080178147int);
    lemma_pow_step(5int, 28948022309329048855892746252171976963363056481941560715954676764349967630337int, 10889035741470030830827987437816582766609nat, 23815172143319031906646071162184841694616547066367022390048300813193080178147int, 0nat, 21778071482940061661655974875633165533218nat, 8582486851253676339356671831023125450712076263190676670406917507098054753613int);
    lemma_pow_step(5int, 28948022309329048855892746252171976963363056481941560715954676764349967630337int, 21778071482940061661655974875633165533218nat, 8582486851253676339356671831023125450712076263190676670406917507098054753613int, 0nat, 43556142965880123323311949751266331066436nat, 2044701533377035236861626365476204336795964819203047405143453764060128460475int);
    lemma_pow_step(5int, 28948022309329048855892746252171976963363056481941560715954676764349967630337int, 43556142965880123323311949751266331066436nat, 2044701533377035236861626365476204336795964819203047405143453764060128460475int, 1nat, 87112285931760246646623899502532662132873nat, 6951440362615753729205186071195641969299336278147217633166941229954349958562int);
    lemma_pow_step(5int, 28948022309329048855892746252171976963363056481941560715954676764349967630337int, 87112285931760246646623899502532662132873nat, 6951440362615753729205186071195641969299336278147217633166941229954349958562int, 0nat, 174224571863520493293247799005065324265746nat, 27862864250120142255740795292478713201706591973008451841204956743182376931009int);
    lemma_pow_step(5int, 28948022309329048855892746252171976963363056481941560715954676764349967630337int, 174224571863520493293247799005065324265746nat, 27862864250120142255740795292478713201706591973008451841204956743182376931009int, 0nat, 348449143727040986586495598010130648531492nat, 14078153700113423098779985664387705851560540987792843135841502660327415032484int);
    lemma_pow_step(5int, 28948022309329048855892746252171976963363056481941560715954676764349967630337int, 348449143727040986586495598010130648531492nat, 14078153700113423098779985664387705851560540987792843135841502660327415032484int, 0nat, 696898287454081973172991196020261297062984nat, 12818626116519041182365161621889043846939307890718857808572973998954990484840int);
    lemma_pow_step(5int, 28948022309329048855892746252171976963363056481941560715954676764349967630337int, 696898287454081973172991196020261297062984nat, 12818626116519041182365161621889043846939307890718857808572973998954990484840int, 1nat, 1393796574908163946345982392040522594125969nat, 7505144210254709874656081460475040008445162862729123349893673029273394271410int);
    lemma_pow_step(5int, 28948022309329048855892746252171976963363056481941560715954676764349967630337int, 1393796574908163946345982392040522594125969nat, 7505144210254709874656081460475040008445162862729123349893673029273394271410int, 1nat, 2787593149816327892691964784081045188251939nat, 17654615097413767453568939097356706039636655021653275066821548050652724203168int);
    lemma_pow_step(5int, 28948022309329048855892746252171976963363056481941560715954676764349967630337int, 2787593149816327892691964784081045188251939nat, 17654615097413767453568939097356706039636655021653275066821548050652724203168int, 0nat, 5575186299632655785383929568162090376503878nat, 26101823692908157687446613987145148843383065860546987573184269222287425411972int);
    lemma_pow_step(5int, 28948022309329048855892746252171976963363056481941560715954676764349967630337int, 5575186299632655785383929568162090376503878nat, 26101823692908157687446613987145148843383065860546987573184269222287425411972int, 1nat, 11150372599265311570767859136324180753007757nat, 5554613203861738091993763898249669246131460345575613365541971597700275656327int);
    lemma_pow_step(5int, 28948022309329048855892746252171976963363056481941560715954676764349967630337int, 11150372599265311570767859136324180753007757nat, 5554613203861738091993763898249669246131460345575613365541971597700275656327int, 0nat, 22300745198530623141535718272648361506015514nat, 24847261170809320811495068345237272044757010656476974743258129614091000168685int);
    lemma_pow_step(5int, 28948022309329048855892746252171976963363056481941560715954676764349967630337int, 22300745198530623141535718272648361506015514nat, 24847261170809320811495068345237272044757010656476974743258129614091000168685int, 0nat, 44601490397061246283071436545296723012031028nat, 16057753013287655877854618710340478519284330150480978033179572780351555999654int);
    lemma_pow_step(5int, 28948022309329048855892746252171976963363056481941560715954676764349967630337int, 44601490397061246283071436545296723012031028nat, 16057753013287655877854618710340478519284330150480978033179572780351555999654int, 1nat, 89202980794122492566142873090593446024062057nat, 12925361606795497366868877251983141070814722874536330209422067931082880822659int);
    lemma_pow_step(5int, 28948022309329048855892746252171976963363056481941560715954676764349967630337int, 89202980794122492566142873090593446024062057nat, 12925361606795497366868877251983141070814722874536330209422067931082880822659int, 1nat, 178405961588244985132285746181186892048124115nat, 1843406991018277121388992637478833474116309768058013139339321464789584729556int);
    lemma_pow_step(5int, 28948022309329048855892746252171976963363056481941560715954676764349967630337int, 178405961588244985132285746181186892048124115nat, 1843406991018277121388992637478833474116309768058013139339321464789584729556int, 0nat, 356811923176489970264571492362373784096248230nat, 25360629057477321919294616306509109382990900990850045674373919656862034998376int);
    lemma_pow_step(5int, 28948022309329048855892746252171976963363056481941560715954676764349967630337int, 356811923176489970264571492362373784096248230nat, 25360629057477321919294616306509109382990900990850045674373919656862034998376int, 0nat, 713623846352979940529142984724747568192496460nat, 23511631077736493855151861343414654015992872513686297524828491599833015284820int);
    lemma_pow_step(5int, 28948022309329048855892746252171976963363056481941560715954676764349967630337int, 713623846352979940529142984724747568192496460nat, 23511631077736493855151861343414654015992872513686297524828491599833015284820int, 0nat, 1427247692705959881058285969449495136384992920nat, 22861007446041990604643858947795663121534622977205710769940626881093993858911int);
    lemma_pow_step(5int, 28948022309329048855892746252171976963363056481941560715954676764349967630337int, 1427247692705959881058285969449495136384992920nat, 22861007446041990604643858947795663121534622977205710769940626881093993858911int, 1nat, 2854495385411919762116571938898990272769985841nat, 5833735251786499451350877578230389752378210907705930185368153161109995027758int);
    lemma_pow_step(5int, 28948022309329048855892746252171976963363056481941560715954676764349967630337int, 2854495385411919762116571938898990272769985841nat, 5833735251786499451350877578230389752378210907705930185368153161109995027758int, 1nat, 5708990770823839524233143877797980545539971683nat, 341338445364191008473389580001998975102474296849497386225291730497557225824int);
    lemma_pow_step(5int, 28948022309329048855892746252171976963363056481941560715954676764349967630337int, 5708990770823839524233143877797980545539971683nat, 341338445364191008473389580001998975102474296849497386225291730497557225824int, 1nat, 11417981541647679048466287755595961091079943367nat, 23981427061135774952813019935715054598754383717617759045053160395781753642595int);
    lemma_pow_step(5int, 28948022309329048855892746252171976963363056481941560715954676764349967630337int, 11417981541647679048466287755595961091079943367nat, 23981427061135774952813019935715054598754383717617759045053160395781753642595int, 1nat, 22835963083295358096932575511191922182159886735nat, 23001940023742193468783045427705444458259211934971854152801625707893300208656int);
    lemma_pow_step(5int, 28948022309329048855892746252171976963363056481941560715954676764349967630337int, 22835963083295358096932575511191922182159886735nat, 23001940023742193468783045427705444458259211934971854152801625707893300208656int, 1nat, 45671926166590716193865151022383844364319773471nat, 4412041712092390182929050546229000142780979252436107015166209120392419957155int);
    lemma_pow_step(5int, 28948022309329048855892746252171976963363056481941560715954676764349967630337int, 45671926166590716193865151022383844364319773471nat, 4412041712092390182929050546229000142780979252436107015166209120392419957155int, 1nat, 91343852333181432387730302044767688728639546943nat, 1729138511849888660005861103148213895138488889415135900599697224967428407293int);
    lemma_pow_step(5int, 28948022309329048855892746252171976963363056481941560715954676764349967630337int, 91343852333181432387730302044767688728639546943nat, 1729138511849888660005861103148213895138488889415135900599697224967428407293int, 0nat, 182687704666362864775460604089535377457279093886nat, 23925531510165895091395604775364678413650361588449823758517204029079383803840int);
    lemma_pow_step(5int, 28948022309329048855892746252171976963363056481941560715954676764349967630337int, 182687704666362864775460604089535377457279093886nat, 23925531510165895091395604775364678413650361588449823758517204029079383803840int, 0nat, 365375409332725729550921208179070754914558187772nat, 14528130933841236226617042134729313903873931973336820418661591882352202793035int);
    lemma_pow_step(5int, 28948022309329048855892746252171976963363056481941560715954676764349967630337int, 365375409332725729550921208179070754914558187772nat, 14528130933841236226617042134729313903873931973336820418661591882352202793035int, 0nat, 730750818665451459101842416358141509829116375544nat, 11514680944620227372513514908404346941163837421562000776495972063555388740711int);
    lemma_pow_step(5int, 28948022309329048855892746252171976963363056481941560715954676764349967630337int, 730750818665451459101842416358141509829116375544nat, 11514680944620227372513514908404346941163837421562000776495972063555388740711int, 0nat, 1461501637330902918203684832716283019658232751088nat, 28323559501975135907991437229620385709654458318406325465876562807943385859105int);
    lemma_pow_step(5int, 28948022309329048855892746252171976963363056481941560715954676764349967630337int, 1461501637330902918203684832716283019658232751088nat, 28323559501975135907991437229620385709654458318406325465876562807943385859105int, 0nat, 2923003274661805836407369665432566039316465502176nat, 5500549156396388525320310358231399925064139121600563256561855147635217727623int);
    lemma_pow_step(5int, 28948022309329048855892746252171976963363056481941560715954676764349967630337int, 2923003274661805836407369665432566039316465502176nat, 5500549156396388525320310358231399925064139121600563256561855147635217727623int, 0nat, 5846006549323611672814739330865132078632931004352nat, 26486844785532725841696670768365655048494220561115283848055628094526024268870int);
    lemma_pow_step(5int, 28948022309329048855892746252171976963363056481941560715954676764349967630337int, 5846006549323611672814739330865132078632931004352nat, 26486844785532725841696670768365655048494220561115283848055628094526024268870int, 1nat, 11692013098647223345629478661730264157265862008705nat, 4235027614656741633854242178288617922881360378017675794814955125438358894965int);
    lemma_pow_step(5int, 28948022309329048855892746252171976963363056481941560715954676764349967630337int, 11692013098647223345629478661730264157265862008705nat, 4235027614656741633854242178288617922881360378017675794814955125438358894965int, 0nat, 23384026197294446691258957323460528314531724017410nat, 10357694292020708828915035780015079218043860439455525363934634064869662541361int);
    lemma_pow_step(5int, 28948022309329048855892746252171976963363056481941560715954676764349967630337int, 23384026197294446691258957323460528314531724017410nat, 10357694292020708828915035780015079218043860439455525363934634064869662541361int, 0nat, 46768052394588893382517914646921056629063448034820nat, 8997086239123888875302064003986172517165755645782968374934668584943461836382int);
    lemma_pow_step(5int, 28948022309329048855892746252171976963363056481941560715954676764349967630337int, 46768052394588893382517914646921056629063448034820nat, 8997086239123888875302064003986172517165755645782968374934668584943461836382int, 1nat, 93536104789177786765035829293842113258126896069641nat, 1528476945650753642491723585283705350846200750353305360366164067067183824699int);
    lemma_pow_step(5int, 28948022309329048855892746252171976963363056481941560715954676764349967630337int, 93536104789177786765035829293842113258126896069641nat, 1528476945650753642491723585283705350846200750353305360366164067067183824699int, 0nat, 187072209578355573530071658587684226516253792139282nat, 18304486094331297034283992842092127985270991284058239072105224745968674431872int);
    lemma_pow_step(5int, 28948022309329048855892746252171976963363056481941560715954676764349967630337int, 187072209578355573530071658587684226516253792139282nat, 18304486094331297034283992842092127985270991284058239072105224745968674431872int, 1nat, 374144419156711147060143317175368453032507584278565nat, 20793456111181836699868102307130627627890442761131609482578586334745230085095int);
    lemma_pow_step(5int, 28948022309329048855892746252171976963363056481941560715954676764349967630337int, 374144419156711147060143317175368453032507584278565nat, 20793456111181836699868102307130627627890442761131609482578586334745230085095int, 0nat, 748288838313422294120286634350736906065015168557130nat, 10687028468082808802711269216574174903091899181181209513071577443021669453206int);
    lemma_pow_step(5int, 28948022309329048855892746252171976963363056481941560715954676764349967630337int, 748288838313422294120286634350736906065015168557130nat, 10687028468082808802711269216574174903091899181181209513071577443021669453206int, 0nat, 1496577676626844588240573268701473812130030337114260nat, 9261016371642984917773221277406096705346490324281616096323095288390802443767int);
    lemma_pow_step(5int, 28948022309329048855892746252171976963363056481941560715954676764349967630337int, 1496577676626844588240573268701473812130030337114260nat, 9261016371642984917773221277406096705346490324281616096323095288390802443767int, 1nat, 2993155353253689176481146537402947624260060674228521nat, 5274334770673021526020022879867371947254208562805635047408695241752555012068int);
    lemma_pow_step(5int, 28948022309329048855892746252171976963363056481941560715954676764349967630337int, 2993155353253689176481146537402947624260060674228521nat, 5274334770673021526020022879867371947254208562805635047408695241752555012068int, 1nat, 5986310706507378352962293074805895248520121348457043nat, 16878494706040521461141846425780325277421095285052183867630144528172274883150int);
    lemma_pow_step(5int, 28948022309329048855892746252171976963363056481941560715954676764349967630337int, 5986310706507378352962293074805895248520121348457043nat, 16878494706040521461141846425780325277421095285052183867630144528172274883150int, 0nat, 11972621413014756705924586149611790497040242696914086nat, 1413679552879716615492406597460435447225917846523433351299284784199315387531int);
    lemma_pow_step(5int, 28948022309329048855892746252171976963363056481941560715954676764349967630337int, 11972621413014756705924586149611790497040242696914086nat, 1413679552879716615492406597460435447225917846523433351299284784199315387531int, 0nat, 23945242826029513411849172299223580994080485393828172nat, 13575080221640793413156923480173839592682019325396744296807497652627388047050int);
    lemma_pow_step(5int, 28948022309329048855892746252171976963363056481941560715954676764349967630337int, 23945242826029513411849172299223580994080485393828172nat, 13575080221640793413156923480173839592682019325396744296807497652627388047050int, 1nat, 47890485652059026823698344598447161988160970787656345nat, 18014506483316263452486380186647911582916061536188515130393136336091833130813int);
    lemma_pow_step(5int, 28948022309329048855892746252171976963363056481941560715954676764349967630337int, 47890485652059026823698344598447161988160970787656345nat, 18014506483316263452486380186647911582916061536188515130393136336091833130813int, 1nat, 95780971304118053647396689196894323976321941575312691nat, 11454310409241863410057277750707767869129719002330456364785402318527478638956int);
    lemma_pow_step(5int, 28948022309329048855892746252171976963363056481941560715954676764349967630337int, 95780971304118053647396689196894323976321941575312691nat, 11454310409241863410057277750707767869129719002330456364785402318527478638956int, 1nat, 191561942608236107294793378393788647952643883150625383nat, 16943825549457836307296121794279452468925592802929155565299238084397611889483int);
    lemma_pow_step(5int, 28948022309329048855892746252171976963363056481941560715954676764349967630337int, 191561942608236107294793378393788647952643883150625383nat, 16943825549457836307296121794279452468925592802929155565299238084397611889483int, 1nat, 383123885216472214589586756787577295905287766301250767nat, 26308798077043380116335128018890928144941554236726424161578172087894644505894int);
    lemma_pow_step(5int, 28948022309329048855892746252171976963363056481941560715954676764349967630337int, 383123885216472214589586756787577295905287766301250767nat, 26308798077043380116335128018890928144941554236726424161578172087894644505894int, 1nat, 766247770432944429179173513575154591810575532602501535nat, 2394732764311740575838213481530573754352862844628739158630368687944373260241int);
    lemma_pow_step(5int, 28948022309329048855892746252171976963363056481941560715954676764349967630337int, 766247770432944429179173513575154591810575532602501535nat, 2394732764311740575838213481530573754352862844628739158630368687944373260241int, 0nat, 1532495540865888858358347027150309183621151065205003070nat, 1974355004969481580557897821157655072202310752451126148746612298503808066078int);
    lemma_pow_step(5int, 28948022309329048855892746252171976963363056481941560715954676764349967630337int, 1532495540865888858358347027150309183621151065205003070nat, 1974355004969481580557897821157655072202310752451126148746612298503808066078int, 0nat, 3064991081731777716716694054300618367242302130410006140nat, 1181945976029370138745607974396381321804477968516866985204702652641225204496int);
    lemma_pow_step(5int, 28948022309329048855892746252171976963363056481941560715954676764349967630337int, 3064991081731777716716694054300618367242302130410006140nat, 1181945976029370138745607974396381321804477968516866985204702652641225204496int, 1nat, 6129982163463555433433388108601236734484604260820012281nat, 3399228125413610301582480154700978677383796328951231952474924307772363025484int);
    lemma_pow_step(5int, 28948022309329048855892746252171976963363056481941560715954676764349967630337int, 6129982163463555433433388108601236734484604260820012281nat, 3399228125413610301582480154700978677383796328951231952474924307772363025484int, 0nat, 12259964326927110866866776217202473468969208521640024562nat, 21198920842256465924802508084532886083815097695919446990451614098795513589173int);
    lemma_pow_step(5int, 28948022309329048855892746252171976963363056481941560715954676764349967630337int, 12259964326927110866866776217202473468969208521640024562nat, 21198920842256465924802508084532886083815097695919446990451614098795513589173int, 0nat, 24519928653854221733733552434404946937938417043280049124nat, 11099602306595586423320933640843905701117124680266708701813946867651165298095int);
    lemma_pow_step(5int, 28948022309329048855892746252171976963363056481941560715954676764349967630337int, 24519928653854221733733552434404946937938417043280049124nat, 11099602306595586423320933640843905701117124680266708701813946867651165298095int, 0nat, 49039857307708443467467104868809893875876834086560098248nat, 18786566233148674737253309590702444023874961500280150756259994632392012692876int);
    lemma_pow_step(5int, 28948022309329048855892746252171976963363056481941560715954676764349967630337int, 49039857307708443467467104868809893875876834086560098248nat, 18786566233148674737253309590702444023874961500280150756259994632392012692876int, 1nat, 98079714615416886934934209737619787751753668173120196497nat, 19195000825058695228562751219207155488063851726526500325338049484070201179884int);
    lemma_pow_step(5int, 28948022309329048855892746252171976963363056481941560715954676764349967630337int, 98079714615416886934934209737619787751753668173120196497nat, 19195000825058695228562751219207155488063851726526500325338049484070201179884int, 1nat, 196159429230833773869868419475239575503507336346240392995nat, 10207522866495316101625650446327209890050299256869120843229738032433704634714int);
    lemma_pow_step(5int, 28948022309329048855892746252171976963363056481941560715954676764349967630337int, 196159429230833773869868419475239575503507336346240392995nat, 10207522866495316101625650446327209890050299256869120843229738032433704634714int, 0nat, 392318858461667547739736838950479151007014672692480785990nat, 24127052153571291247247346536242677578838611634449374967052126165053845814471int);
    lemma_pow_step(5int, 28948022309329048855892746252171976963363056481941560715954676764349967630337int, 392318858461667547739736838950479151007014672692480785990nat, 24127052153571291247247346536242677578838611634449374967052126165053845814471int, 1nat, 784637716923335095479473677900958302014029345384961571981nat, 18222293315967722589518879471361689305044536298668228259628012584361622734644int);
    lemma_pow_step(5int, 28948022309329048855892746252171976963363056481941560715954676764349967630337int, 784637716923335095479473677900958302014029345384961571981nat, 18222293315967722589518879471361689305044536298668228259628012584361622734644int, 1nat, 1569275433846670190958947355801916604028058690769923143963nat, 3910815589102830805457225530536669014660854488111164904274929023521074135032int);
    lemma_pow_step(5int, 28948022309329048855892746252171976963363056481941560715954676764349967630337int, 1569275433846670190958947355801916604028058690769923143963nat, 3910815589102830805457225530536669014660854488111164904274929023521074135032int, 1nat, 3138550867693340381917894711603833208056117381539846287927nat, 7267331378196717117619743385689484434709789452049057437006079480667786885311int);
    lemma_pow_step(5int, 28948022309329048855892746252171976963363056481941560715954676764349967630337int, 3138550867693340381917894711603833208056117381539846287927nat, 7267331378196717117619743385689484434709789452049057437006079480667786885311int, 0nat, 6277101735386680763835789423207666416112234763079692575854nat, 11873757767020656734867393925475343230668922406659471732973133836980780322659int);
    lemma_pow_step(5int, 28948022309329048855892746252171976963363056481941560715954676764349967630337int, 6277101735386680763835789423207666416112234763079692575854nat, 11873757767020656734867393925475343230668922406659471732973133836980780322659int, 0nat, 12554203470773361527671578846415332832224469526159385151708nat, 19627749694775441012439444591247732873122076891923640079068008581518743485900int);
    lemma_pow_step(5int, 28948022309329048855892746252171976963363056481941560715954676764349967630337int, 12554203470773361527671578846415332832224469526159385151708nat, 19627749694775441012439444591247732873122076891923640079068008581518743485900int, 1nat, 25108406941546723055343157692830665664448939052318770303417nat, 11313647593967617780398128874775274540032012997613991722080051566037965164153int);
    lemma_pow_step(5int, 28948022309329048855892746252171976963363056481941560715954676764349967630337int, 25108406941546723055343157692830665664448939052318770303417nat, 11313647593967617780398128874775274540032012997613991722080051566037965164153int, 1nat, 50216813883093446110686315385661331328897878104637540606835nat, 2949844982682243947392642443676381424157584632954097737414552573727653779826int);
    lemma_pow_step(5int, 28948022309329048855892746252171976963363056481941560715954676764349967630337int, 50216813883093446110686315385661331328897878104637540606835nat, 2949844982682243947392642443676381424157584632954097737414552573727653779826int, 0nat, 100433627766186892221372630771322662657795756209275081213670nat, 21175804907253020319382427440217711897720158899131194347625184859714360574161int);
    lemma_pow_step(5int, 28948022309329048855892746252171976963363056481941560715954676764349967630337int, 100433627766186892221372630771322662657795756209275081213670nat, 21175804907253020319382427440217711897720158899131194347625184859714360574161int, 0nat, 200867255532373784442745261542645325315591512418550162427340nat, 4735946389827896319239873628845773049863260668786500113191319365492606243603int);
    lemma_pow_step(5int, 28948022309329048855892746252171976963363056481941560715954676764349967630337int, 200867255532373784442745261542645325315591512418550162427340nat, 4735946389827896319239873628845773049863260668786500113191319365492606243603int, 1nat, 401734511064747568885490523085290650631183024837100324854681nat, 20177854627962372325131268894866753046159321205208492888965992780785371494096int);
    lemma_pow_step(5int, 28948022309329048855892746252171976963363056481941560715954676764349967630337int, 401734511064747568885490523085290650631183024837100324854681nat, 20177854627962372325131268894866753046159321205208492888965992780785371494096int, 0nat, 803469022129495137770981046170581301262366049674200649709362nat, 13812405290955617412698327879339689342062154995241853210732667199935649577188int);
    lemma_pow_step(5int, 28948022309329048855892746252171976963363056481941560715954676764349967630337int, 803469022129495137770981046170581301262366049674200649709362nat, 13812405290955617412698327879339689342062154995241853210732667199935649577188int, 0nat, 1606938044258990275541962092341162602524732099348401299418724nat, 23105826777185725418775461772820692020120060136048701161902147006327311615920int);
    lemma_pow_step(5int, 28948022309329048855892746252171976963363056481941560715954676764349967630337int, 1606938044258990275541962092341162602524732099348401299418724nat, 23105826777185725418775461772820692020120060136048701161902147006327311615920int, 1nat, 3213876088517980551083924184682325205049464198696802598837449nat, 20014810159008301596449435195964953142542870563156083118580506459470993194654int);
    lemma_pow_step(5int, 28948022309329048855892746252171976963363056481941560715954676764349967630337int, 3213876088517980551083924184682325205049464198696802598837449nat, 20014810159008301596449435195964953142542870563156083118580506459470993194654int, 0nat, 6427752177035961102167848369364650410098928397393605197674898nat, 14971733647768936709653738962462762913881491323897418138972464822230964157800int);
    lemma_pow_step(5int, 28948022309329048855892746252171976963363056481941560715954676764349967630337int, 6427752177035961102167848369364650410098928397393605197674898nat, 14971733647768936709653738962462762913881491323897418138972464822230964157800int, 1nat, 12855504354071922204335696738729300820197856794787210395349797nat, 19723813696994015759654339467523895482641921204757686422148011701504682435212int);
    lemma_pow_step(5int, 28948022309329048855892746252171976963363056481941560715954676764349967630337int, 12855504354071922204335696738729300820197856794787210395349797nat, 19723813696994015759654339467523895482641921204757686422148011701504682435212int, 1nat, 25711008708143844408671393477458601640395713589574420790699595nat, 28057419194354385238063572627500564143481075045106825075604793956650890876495int);
    lemma_pow_step(5int, 28948022309329048855892746252171976963363056481941560715954676764349967630337int, 25711008708143844408671393477458601640395713589574420790699595nat, 28057419194354385238063572627500564143481075045106825075604793956650890876495int, 0nat, 51422017416287688817342786954917203280791427179148841581399190nat, 25886822929126978287150838687115055488845111387803382827549455543911764578468int);
    lemma_pow_step(5int, 28948022309329048855892746252171976963363056481941560715954676764349967630337int, 51422017416287688817342786954917203280791427179148841581399190nat, 25886822929126978287150838687115055488845111387803382827549455543911764578468int, 1nat, 102844034832575377634685573909834406561582854358297683162798381nat, 11106731623332128425086384201421990038689554536415697666144883397614421719298int);
    lemma_pow_step(5int, 28948022309329048855892746252171976963363056481941560715954676764349967630337int, 102844034832575377634685573909834406561582854358297683162798381nat, 11106731623332128425086384201421990038689554536415697666144883397614421719298int, 0nat, 205688069665150755269371147819668813123165708716595366325596762nat, 14020292778097399059310662087556167839695717492205530068324662163141797259625int);
    lemma_pow_step(5int, 28948022309329048855892746252171976963363056481941560715954676764349967630337int, 205688069665150755269371147819668813123165708716595366325596762nat, 14020292778097399059310662087556167839695717492205530068324662163141797259625int, 0nat, 411376139330301510538742295639337626246331417433190732651193524nat, 21268344986427015927896951661817458455885023026151904969075076454801501565547int);
    lemma_pow_step(5int, 28948022309329048855892746252171976963363056481941560715954676764349967630337int, 411376139330301510538742295639337626246331417433190732651193524nat, 21268344986427015927896951661817458455885023026151904969075076454801501565547int, 1nat, 822752278660603021077484591278675252492662834866381465302387049nat, 11744002279347602061151561275062061010195913585485350181470731335987052297665int);
    lemma_pow_step(5int, 28948022309329048855892746252171976963363056481941560715954676764349967630337int, 822752278660603021077484591278675252492662834866381465302387049nat, 11744002279347602061151561275062061010195913585485350181470731335987052297665int, 1nat, 1645504557321206042154969182557350504985325669732762930604774099nat, 12039840501858056587487415191283110526408194813349217579476917472866053948902int);
    lemma_pow_step(5int, 28948022309329048855892746252171976963363056481941560715954676764349967630337int, 1645504557321206042154969182557350504985325669732762930604774099nat, 12039840501858056587487415191283110526408194813349217579476917472866053948902int, 0nat, 3291009114642412084309938365114701009970651339465525861209548198nat, 23388989872785831363534614232013236071380909919576602815211318068110327705467int);
    lemma_pow_step(5int, 28948022309329048855892746252171976963363056481941560715954676764349967630337int, 3291009114642412084309938365114701009970651339465525861209548198nat, 23388989872785831363534614232013236071380909919576602815211318068110327705467int, 0nat, 6582018229284824168619876730229402019941302678931051722419096396nat, 24906345686980257906872603420942106255826182939585906984547182765416212031796int);
    lemma_pow_step(5int, 28948022309329048855892746252171976963363056481941560715954676764349967630337int, 6582018229284824168619876730229402019941302678931051722419096396nat, 24906345686980257906872603420942106255826182939585906984547182765416212031796int, 0nat, 13164036458569648337239753460458804039882605357862103444838192792nat, 16884942539420030109335572953212965952756408163452089790199606855932178212425int);
    lemma_pow_step(5int, 28948022309329048855892746252171976963363056481941560715954676764349967630337int, 13164036458569648337239753460458804039882605357862103444838192792nat, 16884942539420030109335572953212965952756408163452089790199606855932178212425int, 0nat, 26328072917139296674479506920917608079765210715724206889676385584nat, 8050256513928122437723760319716637861055967999238967352531094853972791145952int);
    lemma_pow_step(5int, 28948022309329048855892746252171976963363056481941560715954676764349967630337int, 26328072917139296674479506920917608079765210715724206889676385584nat, 8050256513928122437723760319716637861055967999238967352531094853972791145952int, 1nat, 52656145834278593348959013841835216159530421431448413779352771169nat, 24921210645726388154891623068962286032792194715690305770339650743804924912620int);
    lemma_pow_step(5int, 28948022309329048855892746252171976963363056481941560715954676764349967630337int, 52656145834278593348959013841835216159530421431448413779352771169nat, 24921210645726388154891623068962286032792194715690305770339650743804924912620int, 1nat, 105312291668557186697918027683670432319060842862896827558705542339nat, 26994697339185656991633777316560437747924529386642311595266734892325808934666int);
    lemma_pow_step(5int, 28948022309329048855892746252171976963363056481941560715954676764349967630337int, 105312291668557186697918027683670432319060842862896827558705542339nat, 26994697339185656991633777316560437747924529386642311595266734892325808934666int, 1nat, 210624583337114373395836055367340864638121685725793655117411084679nat, 14198338012305143478924596081793115363913123326255004253724134723476583258171int);
    lemma_pow_step(5int, 28948022309329048855892746252171976963363056481941560715954676764349967630337int, 210624583337114373395836055367340864638121685725793655117411084679nat, 14198338012305143478924596081793115363913123326255004253724134723476583258171int, 0nat, 421249166674228746791672110734681729276243371451587310234822169358nat, 25294301414544828350209955661937369780399847219065902008123199781285475123069int);
    lemma_pow_step(5int, 28948022309329048855892746252171976963363056481941560715954676764349967630337int, 421249166674228746791672110734681729276243371451587310234822169358nat, 25294301414544828350209955661937369780399847219065902008123199781285475123069int, 1nat, 842498333348457493583344221469363458552486742903174620469644338717nat, 1916611328365974672336205130397386087274545183252447049123386398964395508187int);
    lemma_pow_step(5int, 28948022309329048855892746252171976963363056481941560715954676764349967630337int, 842498333348457493583344221469363458552486742903174620469644338717nat, 1916611328365974672336205130397386087274545183252447049123386398964395508187int, 1nat, 1684996666696914987166688442938726917104973485806349240939288677435nat, 17709244061775971144131252163262319062779100805526020529594540003072031072290int);
    lemma_pow_step(5int, 28948022309329048855892746252171976963363056481941560715954676764349967630337int, 1684996666696914987166688442938726917104973485806349240939288677435nat, 17709244061775971144131252163262319062779100805526020529594540003072031072290int, 0nat, 3369993333393829974333376885877453834209946971612698481878577354870nat, 26710357564423290132374975209919286066684979085874909418265827922616067651375int);
    lemma_pow_step(5int, 28948022309329048855892746252171976963363056481941560715954676764349967630337int, 3369993333393829974333376885877453834209946971612698481878577354870nat, 26710357564423290132374975209919286066684979085874909418265827922616067651375int, 1nat, 6739986666787659948666753771754907668419893943225396963757154709741nat, 19814229590243028906643993866117402072516588566294623396325693409366934201135int);
    lemma_pow_step(5int, 28948022309329048855892746252171976963363056481941560715954676764349967630337int, 6739986666787659948666753771754907668419893943225396963757154709741nat, 19814229590243028906643993866117402072516588566294623396325693409366934201135int, 0nat, 13479973333575319897333507543509815336839787886450793927514309419482nat, 20019177140809064856865169274912835413481202136612124135236710364734458304827int);
    lemma_pow_step(5int, 28948022309329048855892746252171976963363056481941560715954676764349967630337int, 13479973333575319897333507543509815336839787886450793927514309419482nat, 20019177140809064856865169274912835413481202136612124135236710364734458304827int, 0nat, 26959946667150639794667015087019630673679575772901587855028618838964nat, 21078271063022430028696728003872866149171842417899417285171528540187692932029int);
    lemma_pow_step(5int, 28948022309329048855892746252171976963363056481941560715954676764349967630337int, 26959946667150639794667015087019630673679575772901587855028618838964nat, 21078271063022430028696728003872866149171842417899417285171528540187692932029int, 0nat, 53919893334301279589334030174039261347359151545803175710057237677928nat, 15482997364772194801093354052371644584317737593254729763616822834061572187373int);
    lemma_pow_step(5int, 28948022309329048855892746252171976963363056481941560715954676764349967630337int, 53919893334301279589334030174039261347359151545803175710057237677928nat, 15482997364772194801093354052371644584317737593254729763616822834061572187373int, 0nat, 107839786668602559178668060348078522694718303091606351420114475355856nat, 3871080950800814625523412335787101644253574632347917159652859787415357107205int);
    lemma_pow_step(5int, 28948022309329048855892746252171976963363056481941560715954676764349967630337int, 107839786668602559178668060348078522694718303091606351420114475355856nat, 3871080950800814625523412335787101644253574632347917159652859787415357107205int, 0nat, 215679573337205118357336120696157045389436606183212702840228950711712nat, 1603855361858706592844816436429150474566938456649022744208671126049801197523int);
    lemma_pow_step(5int, 28948022309329048855892746252171976963363056481941560715954676764349967630337int, 215679573337205118357336120696157045389436606183212702840228950711712nat, 1603855361858706592844816436429150474566938456649022744208671126049801197523int, 0nat, 431359146674410236714672241392314090778873212366425405680457901423424nat, 19539024977649559784260714624876575250810510507969145056159375673016375986401int);
    lemma_pow_step(5int, 28948022309329048855892746252171976963363056481941560715954676764349967630337int, 431359146674410236714672241392314090778873212366425405680457901423424nat, 19539024977649559784260714624876575250810510507969145056159375673016375986401int, 0nat, 862718293348820473429344482784628181557746424732850811360915802846848nat, 24587127671840133213791902490924627443001969603097575553283109427075701688787int);
    lemma_pow_step(5int, 28948022309329048855892746252171976963363056481941560715954676764349967630337int, 862718293348820473429344482784628181557746424732850811360915802846848nat, 24587127671840133213791902490924627443001969603097575553283109427075701688787int, 0nat, 1725436586697640946858688965569256363115492849465701622721831605693696nat, 22426793038789574175596682555510011126446827461592694588596954912018649138537int);
    lemma_pow_step(5int, 28948022309329048855892746252171976963363056481941560715954676764349967630337int, 1725436586697640946858688965569256363115492849465701622721831605693696nat, 22426793038789574175596682555510011126446827461592694588596954912018649138537int, 0nat, 3450873173395281893717377931138512726230985698931403245443663211387392nat, 12852111537791153370818599713791219374604951663217502622770936290355990203569int);
    lemma_pow_step(5int, 28948022309329048855892746252171976963363056481941560715954676764349967630337int, 3450873173395281893717377931138512726230985698931403245443663211387392nat, 12852111537791153370818599713791219374604951663217502622770936290355990203569int, 0nat, 6901746346790563787434755862277025452461971397862806490887326422774784nat, 6127652191210016876084848799392911130047036598987912435258055609820060102924int);
    lemma_pow_step(5int, 28948022309329048855892746252171976963363056481941560715954676764349967630337int, 6901746346790563787434755862277025452461971397862806490887326422774784nat, 6127652191210016876084848799392911130047036598987912435258055609820060102924int, 0nat, 13803492693581127574869511724554050904923942795725612981774652845549568nat, 1933957670562101914585955443663740425677241861165284373991835618452614157454int);
    lemma_pow_step(5int, 28948022309329048855892746252171976963363056481941560715954676764349967630337int, 13803492693581127574869511724554050904923942795725612981774652845549568nat, 1933957670562101914585955443663740425677241861165284373991835618452614157454int, 0nat, 27606985387162255149739023449108101809847885591451225963549305691099136nat, 26364943572312187422331641474781443956155564383082617186147261935296699093787int);
    lemma_pow_step(5int, 28948022309329048855892746252171976963363056481941560715954676764349967630337int, 27606985387162255149739023449108101809847885591451225963549305691099136nat, 26364943572312187422331641474781443956155564383082617186147261935296699093787int, 0nat, 55213970774324510299478046898216203619695771182902451927098611382198272nat, 12848565923572960245609794472388991153395081762360797542600869404653966990207int);
    lemma_pow_step(5int, 28948022309329048855892746252171976963363056481941560715954676764349967630337int, 55213970774324510299478046898216203619695771182902451927098611382198272nat, 12848565923572960245609794472388991153395081762360797542600869404653966990207int, 0nat, 110427941548649020598956093796432407239391542365804903854197222764396544nat, 9059609500058202843104638863342248746504599822352244150423200420585762349764int);
    lemma_pow_step(5int, 28948022309329048855892746252171976963363056481941560715954676764349967630337int, 110427941548649020598956093796432407239391542365804903854197222764396544nat, 9059609500058202843104638863342248746504599822352244150423200420585762349764int, 0nat, 220855883097298041197912187592864814478783084731609807708394445528793088nat, 7051704889939846324003508128306593720494677068301380723225854977337514624816int);
    lemma_pow_step(5int, 28948022309329048855892746252171976963363056481941560715954676764349967630337int, 220855883097298041197912187592864814478783084731609807708394445528793088nat, 7051704889939846324003508128306593720494677068301380723225854977337514624816int, 0nat, 441711766194596082395824375185729628957566169463219615416788891057586176nat, 15891333241237338948802440868534957611422987089162911289567511717843897011994int);
    lemma_pow_step(5int, 28948022309329048855892746252171976963363056481941560715954676764349967630337int, 441711766194596082395824375185729628957566169463219615416788891057586176nat, 15891333241237338948802440868534957611422987089162911289567511717843897011994int, 0nat, 883423532389192164791648750371459257915132338926439230833577782115172352nat, 21627025687819550616493670481423056333531177319425453730855097519004345700158int);
    lemma_pow_step(5int, 28948022309329048855892746252171976963363056481941560715954676764349967630337int, 883423532389192164791648750371459257915132338926439230833577782115172352nat, 21627025687819550616493670481423056333531177319425453730855097519004345700158int, 0nat, 1766847064778384329583297500742918515830264677852878461667155564230344704nat, 12043652267913829104424453152065363373444247972138387934002476851683108699844int);
    lemma_pow_step(5int, 28948022309329048855892746252171976963363056481941560715954676764349967630337int, 1766847064778384329583297500742918515830264677852878461667155564230344704nat, 12043652267913829104424453152065363373444247972138387934002476851683108699844int, 0nat, 3533694129556768659166595001485837031660529355705756923334311128460689408nat, 1674990072596474548996780762090548712788842389735467493870383261050817303250int);
    lemma_pow_step(5int, 28948022309329048855892746252171976963363056481941560715954676764349967630337int, 3533694129556768659166595001485837031660529355705756923334311128460689408nat, 1674990072596474548996780762090548712788842389735467493870383261050817303250int, 0nat, 7067388259113537318333190002971674063321058711411513846668622256921378816nat, 1147358278881152226139897583034437610548207651353113727904064508220574543873int);
    lemma_pow_step(5int, 28948022309329048855892746252171976963363056481941560715954676764349967630337int, 7067388259113537318333190002971674063321058711411513846668622256921378816nat, 1147358278881152226139897583034437610548207651353113727904064508220574543873int, 0nat, 14134776518227074636666380005943348126642117422823027693337244513842757632nat, 10903770050551191186451481744535548418731134600017891582826719412432433936403int);
    lemma_pow_step(5int, 28948022309329048855892746252171976963363056481941560715954676764349967630337int, 14134776518227074636666380005943348126642117422823027693337244513842757632nat, 10903770050551191186451481744535548418731134600017891582826719412432433936403int, 0nat, 28269553036454149273332760011886696253284234845646055386674489027685515264nat, 9106099894445439554041483310221810032050718587061999431783437374285003063682int);
    lemma_pow_step(5int, 28948022309329048855892746252171976963363056481941560715954676764349967630337int, 28269553036454149273332760011886696253284234845646055386674489027685515264nat, 9106099894445439554041483310221810032050718587061999431783437374285003063682int, 0nat, 56539106072908298546665520023773392506568469691292110773348978055371030528nat, 5752965684179714134970464751995402357640113293282967639033716269094137333220int);
    lemma_pow_step(5int, 28948022309329048855892746252171976963363056481941560715954676764349967630337int, 56539106072908298546665520023773392506568469691292110773348978055371030528nat, 5752965684179714134970464751995402357640113293282967639033716269094137333220int, 0nat, 113078212145816597093331040047546785013136939382584221546697956110742061056nat, 15295047314588049363205688878885713081714252101405780765746130714907616084937int);
    lemma_pow_step(5int, 28948022309329048855892746252171976963363056481941560715954676764349967630337int, 113078212145816597093331040047546785013136939382584221546697956110742061056nat, 15295047314588049363205688878885713081714252101405780765746130714907616084937int, 0nat, 226156424291633194186662080095093570026273878765168443093395912221484122112nat, 288195195989970865595953050291169946180633938140535531749119684549404807107int);
    lemma_pow_step(5int, 28948022309329048855892746252171976963363056481941560715954676764349967630337int, 226156424291633194186662080095093570026273878765168443093395912221484122112nat, 288195195989970865595953050291169946180633938140535531749119684549404807107int, 0nat, 452312848583266388373324160190187140052547757530336886186791824442968244224nat, 11040656779064531051815708477879237280965365687019251452313259605788299423418int);
    lemma_pow_step(5int, 28948022309329048855892746252171976963363056481941560715954676764349967630337int, 452312848583266388373324160190187140052547757530336886186791824442968244224nat, 11040656779064531051815708477879237280965365687019251452313259605788299423418int, 0nat, 904625697166532776746648320380374280105095515060673772373583648885936488448nat, 5772676229766982871441818714777438643955918462675337216809979342233538361548int);
    lemma_pow_step(5int, 28948022309329048855892746252171976963363056481941560715954676764349967630337int, 904625697166532776746648320380374280105095515060673772373583648885936488448nat, 5772676229766982871441818714777438643955918462675337216809979342233538361548int, 0nat, 1809251394333065553493296640760748560210191030121347544747167297771872976896nat, 10810933018019022645195840712901647754980539521123437677405037345586003209325int);
    lemma_pow_step(5int, 28948022309329048855892746252171976963363056481941560715954676764349967630337int, 1809251394333065553493296640760748560210191030121347544747167297771872976896nat, 10810933018019022645195840712901647754980539521123437677405037345586003209325int, 0nat, 3618502788666131106986593281521497120420382060242695089494334595543745953792nat, 28748567179285097778645480393348152976133485958885051689470484605533749429678int);
    lemma_pow_step(5int, 28948022309329048855892746252171976963363056481941560715954676764349967630337int, 3618502788666131106986593281521497120420382060242695089494334595543745953792nat, 28748567179285097778645480393348152976133485958885051689470484605533749429678int, 0nat, 7237005577332262213973186563042994240840764120485390178988669191087491907584nat, 24760239192664116622385963963284001971067308018068707868888628426778644166363int);
    lemma_pow_step(5int, 28948022309329048855892746252171976963363056481941560715954676764349967630337int, 7237005577332262213973186563042994240840764120485390178988669191087491907584nat, 24760239192664116622385963963284001971067308018068707868888628426778644166363int, 0nat, 14474011154664524427946373126085988481681528240970780357977338382174983815168nat, 28948022309329048855892746252171976963363056481941560715954676764349967630336int);
    lemma_pow_step(5int, 28948022309329048855892746252171976963363056481941560715954676764349967630337int, 14474011154664524427946373126085988481681528240970780357977338382174983815168nat, 28948022309329048855892746252171976963363056481941560715954676764349967630336int, 0nat, 28948022309329048855892746252171976963363056481941560715954676764349967630336nat, 1int);
}

/// `5^14474011154664524427946373126085988481681528240970780357977338382174983815168` modulo `28948022309329048855892746252171976963363056481941560715954676764349967630337`, by square-and-multiply.
proof fn lemma_pow_28948022309329048855892746252171976963363056481941560715954676764349967630337_by_2()
    ensures
        pow(5int, 14474011154664524427946373126085988481681528240970780357977338382174983815168nat) % 28948022309329048855892746252171976963363056481941560715954676764349967630337int == 28948022309329048855892746252171976963363056481941560715954676764349967630336int,
{
    lemma_pow_start(5int, 28948022309329048855892746252171976963363056481941560715954676764349967630337int, 5int);
    lemma_pow_step(5int, 28948022309329048855892746252171976963363056481941560715954676764349967630337int, 1nat, 5int, 0nat, 2nat, 25int);
    lemma_pow_step(5int, 28948022309329048855892746252171976963363056481941560715954676764349967630337int, 2nat, 25int, 0nat, 4nat, 625int);
    lemma_pow_step(5int, 28948022309329048855892746252171976963363056481941560715954676764349967630337int, 4nat, 625int, 0nat, 8nat, 390625int);
    lemma_pow_step(5int, 28948022309329048855892746252171976963363056481941560715954676764349967630337int, 8nat, 390625int, 0nat, 16nat, 152587890625int);
    lemma_pow_step(5int, 28948022309329048855892746252171976963363056481941560715954676764349967630337int, 16nat, 152587890625int, 0nat, 32nat, 23283064365386962890625int);
    lemma_pow_step(5int, 28948022309329048855892746252171976963363056481941560715954676764349967630337int, 32nat, 23283064365386962890625int, 0nat, 64nat, 542101086242752217003726400434970855712890625int);
    lemma_pow_step(5int, 28948022309329048855892746252171976963363056481941560715954676764349967630337int, 64nat, 542101086242752217003726400434970855712890625int, 0nat, 128nat, 17278874662135856575923867148085202403615376589486721847220952560043227129331int);
    lemma_pow_step(5int, 28948022309329048855892746252171976963363056481941560715954676764349967630337int, 128nat, 17278874662135856575923867148085202403615376589486721847220952560043227129331int, 0nat, 256nat, 22703375178469715999379307296351761133287575658814818450528772333818805442619int);
    lemma_pow_step(5int, 28948022309329048855892746252171976963363056481941560715954676764349967630337int, 256nat, 22703375178469715999379307296351761133287575658814818450528772333818805442619int, 0nat, 512nat, 2748719896906588311079145943294605566542475104143952271957859765193125706073int);
    lemma_pow_step(5int, 28948022309329048855892746252171976963363056481941560715954676764349967630337int, 512nat, 2748719896906588311079145943294605566542475104143952271957859765193125706073int, 0nat, 1024nat, 20945356592596337452079289648641464615574500433482226757804802299819988813465int);
    lemma_pow_step(5int, 28948022309329048855892746252171976963363056481941560715954676764349967630337int, 1024nat, 20945356592596337452079289648641464615574500433482226757804802299819988813465int, 0nat, 2048nat, 8656415661544447216155834789051149061785957853670652448621518154678682718921int);
    lemma_pow_step(5int, 28948022309329048855892746252171976963363056481941560715954676764349967630337int, 2048nat, 8656415661544447216155834789051149061785957853670652448621518154678682718921int, 0nat, 4096nat, 16804606605124066720401205216205410056836979584670110393563423341662167636903int);
    lemma_pow_step(5int, 28948022309329048855892746252171976963363056481941560715954676764349967630337int, 4096nat, 16804606605124066720401205216205410056836979584670110393563423341662167636903int, 0nat, 8192nat, 15525007507654427689043848681557990594388972733360676507531307264786445561985int);
    lemma_pow_step(5int, 28948022309329048855892746252171976963363056481941560715954676764349967630337int, 8192nat, 15525007507654427689043848681557990594388972733360676507531307264786445561985int, 0nat, 16384nat, 21603040592232831737666295271430268673290076542399121594475937661250347394625int);
    lemma_pow_step(5int, 28948022309329048855892746252171976963363056481941560715954676764349967630337int, 16384nat, 21603040592232831737666295271430268673290076542399121594475937661250347394625int, 0nat, 32768nat, 11731568952769229660081805251845857122966876075048602621272128428440858106348int);
    lemma_pow_step(5int, 28948022309329048855892746252171976963363056481941560715954676764349967630337int, 32768nat, 11731568952769229660081805251845857122966876075048602621272128428440858106348int, 0nat, 65536nat, 8624988833082606101191705389749003964146681985034109593156165810844943991041int);
    lemma_pow_step(5int, 28948022309329048855892746252171976963363056481941560715954676764349967630337int, 65536nat, 8624988833082606101191705389749003964146681985034109593156165810844943991041int, 0nat, 131072nat, 10663082214872107623691573471892167457413658162070443233756153958947582615114int);
    lemma_pow_step(5int, 28948022309329048855892746252171976963363056481941560715954676764349967630337int, 131072nat, 10663082214872107623691573471892167457413658162070443233756153958947582615114int, 0nat, 262144nat, 23245410702310214124029298820597220854981856610998867187672161930437827915291int);
    lemma_pow_step(5int, 28948022309329048855892746252171976963363056481941560715954676764349967630337int, 262144nat, 23245410702310214124029298820597220854981856610998867187672161930437827915291int, 0nat, 524288nat, 13811367183254920098522542226913251696190115086860649036613513262755030855581int);
    lemma_pow_step(5int, 28948022309329048855892746252171976963363056481941560715954676764349967630337int, 524288nat, 13811367183254920098522542226913251696190115086860649036613513262755030855581int, 0nat, 1048576nat, 28729415068806607397667817329939291851152042017677616272251939736071333415998int);
    lemma_pow_step(5int, 28948022309329048855892746252171976963363056481941560715954676764349967630337int, 1048576nat, 28729415068806607397667817329939291851152042017677616272251939736071333415998int, 0nat, 2097152nat, 5178090956815396210819305399736164531975832348291425214638162210076965810622int);
    lemma_pow_step(5int, 28948022309329048855892746252171976963363056481941560715954676764349967630337int, 2097152nat, 5178090956815396210819305399736164531975832348291425214638162210076965810622int, 0nat, 4194304nat, 17748362068074767758116087267877801931210526348258373776156712475998988515206int);
    lemma_pow_step(5int, 28948022309329048855892746252171976963363056481941560715954676764349967630337int, 4194304nat, 17748362068074767758116087267877801931210526348258373776156712475998988515206int, 0nat, 8388608nat, 25479409351279526947445825382834444587406071175899720427612577454666290516127int);
    lemma_pow_step(5int, 28948022309329048855892746252171976963363056481941560715954676764349967630337int, 8388608nat, 25479409351279526947445825382834444587406071175899720427612577454666290516127int, 0nat, 16777216nat, 3670118313512520317481079879526743018797897099852492317811952976349872182841int);
    lemma_pow_step(5int, 28948022309329048855892746252171976963363056481941560715954676764349967630337int, 16777216nat, 3670118313512520317481079879526743018797897099852492317811952976349872182841int, 0nat, 33554432nat, 3210042662356938277984098202324076448777172827047796982755383482261592569662int);
    lemma_pow_step(5int, 28948022309329048855892746252171976963363056481941560715954676764349967630337int, 33554432nat, 3210042662356938277984098202324076448777172827047796982755383482261592569662int, 0nat, 67108864nat, 24784009215230830967977629887403136564010859444969516572528599187187206680946int);
    lemma_pow_step(5int, 28948022309329048855892746252171976963363056481941560715954676764349967630337int, 67108864nat, 24784009215230830967977629887403136564010859444969516572528599187187206680946int, 0nat, 134217728nat, 2050760101742723440550724309735898766311849904016542651073929742927505509519int);
    lemma_pow_step(5int, 28948022309329048855892746252171976963363056481941560715954676764349967630337int, 134217728nat, 2050760101742723440550724309735898766311849904016542651073929742927505509519int, 0nat, 268435456nat, 20645539444280524710271987635177383938629396563832395434856117233931935059042int);
    lemma_pow_step(5int, 28948022309329048855892746252171976963363056481941560715954676764349967630337int, 268435456nat, 20645539444280524710271987635177383938629396563832395434856117233931935059042int, 0nat, 536870912nat, 16784537503625536032693397000326268991041340743175650856677395551467291441405int);
    lemma_pow_step(5int, 28948022309329048855892746252171976963363056481941560715954676764349967630337int, 536870912nat, 16784537503625536032693397000326268991041340743175650856677395551467291441405int, 0nat, 1073741824nat, 9465142131323257054559995429896367690263875351173239093370621298186994058554int);
    lemma_pow_step(5int, 28948022309329048855892746252171976963363056481941560715954676764349967630337int, 1073741824nat, 9465142131323257054559995429896367690263875351173239093370621298186994058554int, 0nat, 2147483648nat, 1360680845275067906110538964825591148559883922369757508931560721295388411453int);
    lemma_pow_step(5int, 28948022309329048855892746252171976963363056481941560715954676764349967630337int, 2147483648nat, 1360680845275067906110538964825591148559883922369757508931560721295388411453int, 0nat, 4294967296nat, 4730712715107027403836960807135378615419710616093490380467347787225654598562int);
    lemma_pow_step(5int, 28948022309329048855892746252171976963363056481941560715954676764349967630337int, 4294967296nat, 4730712715107027403836960807135378615419710616093490380467347787225654598562int, 0nat, 8589934592nat, 15185339917907277049574560850502955916634869035013432073132443178314543692329int);
    lemma_pow_step(5int, 28948022309329048855892746252171976963363056481941560715954676764349967630337int, 8589934592nat, 15185339917907277049574560850502955916634869035013432073132443178314543692329int, 0nat, 17179869184nat, 9946965445177310190204885788114360237891054853705860939661728697746618643413int);
    lemma_pow_step(5int, 28948022309329048855892746252171976963363056481941560715954676764349967630337int, 17179869184nat, 9946965445177310190204885788114360237891054853705860939661728697746618643413int, 0nat, 34359738368nat, 17841882138629563351083068003923306064669625849350437037432239693483518909726int);
    lemma_pow_step(5int, 28948022309329048855892746252171976963363056481941560715954676764349967630337int, 34359738368nat, 17841882138629563351083068003923306064669625849350437037432239693483518909726int, 0nat, 68719476736nat, 15640576224676317767144025332067263807668593636570354168476693957827498031055int);
    lemma_pow_step(5int, 28948022309329048855892746252171976963363056481941560715954676764349967630337int, 68719476736nat, 15640576224676317767144025332067263807668593636570354168476693957827498031055int, 0nat, 137438953472nat, 288886652411983487413680337083883369838519904281019748668030200547238153149int);
    lemma_pow_step(5int, 28948022309329048855892746252171976963363056481941560715954676764349967630337int, 137438953472nat, 288886652411983487413680337083883369838519904281019748668030200547238153149int, 0nat, 274877906944nat, 15452565513906914883150279806487253731925902718626542846423916678519183197049int);
    lemma_pow_step(5int, 28948022309329048855892746252171976963363056481941560715954676764349967630337int, 274877906944nat, 15452565513906914883150279806487253731925902718626542846423916678519183197049int, 0nat, 549755813888nat, 27152977135881719658002526165078919774774660676575992521863919065575962540591int);
    lemma_pow_step(5int, 28948022309329048855892746252171976963363056481941560715954676764349967630337int, 549755813888nat, 27152977135881719658002526165078919774774660676575992521863919065575962540591int, 0nat, 1099511627776nat, 10222071874600401501539954099353142449467762004873804282282394047893650688458int);
    lemma_pow_step(5int, 28948022309329048855892746252171976963363056481941560715954676764349967630337int, 1099511627776nat, 10222071874600401501539954099353142449467762004873804282282394047893650688458int, 0nat, 2199023255552nat, 9512081422422724664385340439806673719139580417836446760404834639003689049934int);
    lemma_pow_step(5int, 28948022309329048855892746252171976963363056481941560715954676764349967630337int, 2199023255552nat, 9512081422422724664385340439806673719139580417836446760404834639003689049934int, 0nat, 4398046511104nat, 13239443949270906693112089120628182433015862551999131886777073847252264208918int);
    lemma_pow_step(5int, 28948022309329048855892746252171976963363056481941560715954676764349967630337int, 4398046511104nat, 13239443949270906693112089120628182433015862551999131886777073847252264208918int, 0nat, 8796093022208nat, 5822787926165540697001801250180819822214095555008329988944003234048551192624int);
    lemma_pow_step(5int, 28948022309329048855892746252171976963363056481941560715954676764349967630337int, 8796093022208nat, 5822787926165540697001801250180819822214095555008329988944003234048551192624int, 0nat, 17592186044416nat, 1620215846944971556322622768385020392842297087043639449683378106148544761792int);
    lemma_pow_step(5int, 28948022309329048855892746252171976963363056481941560715954676764349967630337int, 17592186044416nat, 1620215846944971556322622768385020392842297087043639449683378106148544761792int, 0nat, 35184372088832nat, 19516812097719859488771136306688954747034419555096865490564852966229538787852int);
    lemma_pow_step(5int, 28948022309329048855892746252171976963363056481941560715954676764349967630337int, 35184372088832nat, 19516812097719859488771136306688954747034419555096865490564852966229538787852int, 0nat, 70368744177664nat, 6970136328859748113336459026948184950952316239745106890898535120516817124248int);
    lemma_pow_step(5int, 28948022309329048855892746252171976963363056481941560715954676764349967630337int, 70368744177664nat, 6970136328859748113336459026948184950952316239745106890898535120516817124248int, 0nat, 140737488355328nat, 193756035066998181530840967066327152479913250944944978604678108192345179172int);
    lemma_pow_step(5int, 28948022309329048855892746252171976963363056481941560715954676764349967630337int, 140737488355328nat, 193756035066998181530840967066327152479913250944944978604678108192345179172int, 0nat, 281474976710656nat, 8428934171105881873536931159074469452194498404608633877651849383204996762102int);
    lemma_pow_step(5int, 28948022309329048855892746252171976963363056481941560715954676764349967630337int, 281474976710656nat, 8428934171105881873536931159074469452194498404608633877651849383204996762102int, 0nat, 562949953421312nat, 1448828463842024350186467039376986243992147765310831628735369694375466565943int);
    lemma_pow_step(5int, 28948022309329048855892746252171976963363056481941560715954676764349967630337int, 562949953421312nat, 1448828463842024350186467039376986243992147765310831628735369694375466565943int, 0nat, 1125899906842624nat, 5114691243789272623926512650303454916185394751641661624971679646580375205759int);
    lemma_pow_step(5int, 28948022309329048855892746252171976963363056481941560715954676764349967630337int, 1125899906842624nat, 5114691243789272623926512650303454916185394751641661624971679646580375205759int, 0nat, 2251799813685248nat, 4576573831006338797547703696488708436375487446850741925247245187413619023190int);
    lemma_pow_step(5int, 28948022309329048855892746252171976963363056481941560715954676764349967630337int, 2251799813685248nat, 4576573831006338797547703696488708436375487446850741925247245187413619023190int, 0nat, 4503599627370496nat, 22712244689592173544869631924507863811595243106724462273228692087313170534035int);
    lemma_pow_step(5int, 28948022309329048855892746252171976963363056481941560715954676764349967630337int, 4503599627370496nat, 22712244689592173544869631924507863811595243106724462273228692087313170534035int, 0nat, 9007199254740992nat, 15012898801782225224890795272652001802866397536377985574944288898465914340008int);
    lemma_pow_step(5int, 28948022309329048855892746252171976963363056481941560715954676764349967630337int, 9007199254740992nat, 15012898801782225224890795272652001802866397536377985574944288898465914340008int, 0nat, 18014398509481984nat, 4294758054666360836644055154809068985921164145514344330276000309191016541947int);
    lemma_pow_step(5int, 28948022309329048855892746252171976963363056481941560715954676764349967630337int, 18014398509481984nat, 4294758054666360836644055154809068985921164145514344330276000309191016541947int, 0nat, 36028797018963968nat, 17509134141238860392703108923678781505205076757492026350717549455870318919769int);
    lemma_pow_step(5int, 28948022309329048855892746252171976963363056481941560715954676764349967630337int, 36028797018963968nat, 17509134141238860392703108923678781505205076757492026350717549455870318919769int, 0nat, 72057594037927936nat, 3559479079499116285869037380249311412840510310356869305502028759764366911497int);
    lemma_pow_step(5int, 28948022309329048855892746252171976963363056481941560715954676764349967630337int, 72057594037927936nat, 3559479079499116285869037380249311412840510310356869305502028759764366911497int, 0nat, 144115188075855872nat, 11240076720965529722054058346578467737068989917381810744677699525081830555813int);
    lemma_pow_step(5int, 28948022309329048855892746252171976963363056481941560715954676764349967630337int, 144115188075855872nat, 11240076720965529722054058346578467737068989917381810744677699525081830555813int, 0nat, 288230376151711744nat, 1074031571585529807587147974772616452042503164330194258286924676216538479056int);
    lemma_pow_step(5int, 28948022309329048855892746252171976963363056481941560715954676764349967630337int, 288230376151711744nat, 1074031571585529807587147974772616452042503164330194258286924676216538479056int, 0nat, 576460752303423488nat, 2214366784650888146779835431707848043900329633690144378390144600475304097290int);
    lemma_pow_step(5int, 28948022309329048855892746252171976963363056481941560715954676764349967630337int, 576460752303423488nat, 2214366784650888146779835431707848043900329633690144378390144600475304097290int, 0nat, 1152921504606846976nat, 27454990153546125639026276981833916446447237610821078941809149047115249188290int);
    lemma_pow_step(5int, 28948022309329048855892746252171976963363056481941560715954676764349967630337int, 1152921504606846976nat, 27454990153546125639026276981833916446447237610821078941809149047115249188290int, 0nat, 2305843009213693952nat, 863461282638972052479808579252072660876820342813854532554145528497739529894int);
    lemma_pow_step(5int, 28948022309329048855892746252171976963363056481941560715954676764349967630337int, 2305843009213693952nat, 863461282638972052479808579252072660876820342813854532554145528497739529894int, 0nat, 4611686018427387904nat, 8307798723809753800969523370858875299448579084308817647464364848562173681411int);
    lemma_pow_step(5int, 28948022309329048855892746252171976963363056481941560715954676764349967630337int, 4611686018427387904nat, 8307798723809753800969523370858875299448579084308817647464364848562173681411int, 0nat, 9223372036854775808nat, 13536655174013407162524856136236216585717369666007240958651952752302726344358int);
    lemma_pow_step(5int, 28948022309329048855892746252171976963363056481941560715954676764349967630337int, 9223372036854775808nat, 13536655174013407162524856136236216585717369666007240958651952752302726344358int, 0nat, 18446744073709551616nat, 10484564585826065987806476001841531069151418883841180356627059756321852018388int);
    lemma_pow_step(5int, 28948022309329048855892746252171976963363056481941560715954676764349967630337int, 18446744073709551616nat, 10484564585826065987806476001841531069151418883841180356627059756321852018388int, 0nat, 36893488147419103232nat, 2669406348491692400193810198192634359119264265548329110140391427679343255510int);
    lemma_pow_step(5int, 28948022309329048855892746252171976963363056481941560715954676764349967630337int, 36893488147419103232nat, 2669406348491692400193810198192634359119264265548329110140391427679343255510int, 0nat, 73786976294838206464nat, 11650891725507268129357612448606599913868110533824980480838151656253976347263int);
    lemma_pow_step(5int, 28948022309329048855892746252171976963363056481941560715954676764349967630337int, 73786976294838206464nat, 11650891725507268129357612448606599913868110533824980480838151656253976347263int, 0nat, 147573952589676412928nat, 20446478555344607204971484744088275570637861504198686722148439135087988025323int);
    lemma_pow_step(5int, 28948022309329048855892746252171976963363056481941560715954676764349967630337int, 147573952589676412928nat, 20446478555344607204971484744088275570637861504198686722148439135087988025323int, 0nat, 295147905179352825856nat, 20279671288326946906188797354967269877932911844195616884722707848360562221699int);
    lemma_pow_step(5int, 28948022309329048855892746252171976963363056481941560715954676764349967630337int, 295147905179352825856nat, 20279671288326946906188797354967269877932911844195616884722707848360562221699int, 0nat, 590295810358705651712nat, 1963756748257675387311815022507261965402345487433249471744880528679116060608int);
    lemma_pow_step(5int, 28948022309329048855892746252171976963363056481941560715954676764349967630337int, 590295810358705651712nat, 1963756748257675387311815022507261965402345487433249471744880528679116060608int, 0nat, 1180591620717411303424nat, 1824763416231490297395554605643449094299230266393989797409092899921029221697int);
    lemma_pow_step(5int, 28948022309329048855892746252171976963363056481941560715954676764349967630337int, 1180591620717411303424nat, 1824763416231490297395554605643449094299230266393989797409092899921029221697int, 0nat, 2361183241434822606848nat, 28344743646175877245222725389936933593741304958108448774621101763413063443046int);
    lemma_pow_step(5int, 28948022309329048855892746252171976963363056481941560715954676764349967630337int, 2361183241434822606848nat, 28344743646175877245222725389936933593741304958108448774621101763413063443046int, 0nat, 4722366482869645213696nat, 23503278528734760200251630824800787624299187732075791152369033197176846664051int);
    lemma_pow_step(5int, 28948022309329048855892746252171976963363056481941560715954676764349967630337int, 4722366482869645213696nat, 23503278528734760200251630824800787624299187732075791152369033197176846664051int, 0nat, 9444732965739290427392nat, 25254452224846377160305340083401979856862951734060075134631709863487246306078int);
    lemma_pow_step(5int, 28948022309329048855892746252171976963363056481941560715954676764349967630337int, 9444732965739290427392nat, 25254452224846377160305340083401979856862951734060075134631709863487246306078int, 0nat, 18889465931478580854784nat, 25378907380151705572525777640208158563935469836098488645018896280602430075778int);
    lemma_pow_step(5int, 28948022309329048855892746252171976963363056481941560715954676764349967630337int, 18889465931478580854784nat, 25378907380151705572525777640208158563935469836098488645018896280602430075778int, 0nat, 37778931862957161709568nat, 701442692187943653435593848542371209561574068616323811999651520177753089733int);
    lemma_pow_step(5int, 28948022309329048855892746252171976963363056481941560715954676764349967630337int, 37778931862957161709568nat, 701442692187943653435593848542371209561574068616323811999651520177753089733int, 0nat, 75557863725914323419136nat, 7663510564385787013344136650051245321040392319678933080828521020368737552679int);
    lemma_pow_step(5int, 28948022309329048855892746252171976963363056481941560715954676764349967630337int, 75557863725914323419136nat, 7663510564385787013344136650051245321040392319678933080828521020368737552679int, 0nat, 151115727451828646838272nat, 25615983544316011237067095756839239171177633244733865265042789705008292518755int);
    lemma_pow_step(5int, 28948022309329048855892746252171976963363056481941560715954676764349967630337int, 151115727451828646838272nat, 25615983544316011237067095756839239171177633244733865265042789705008292518755int, 0nat, 302231454903657293676544nat, 8347494515063796779999045628748821860940870132104971226319956697400034653840int);
    lemma_pow_step(5int, 28948022309329048855892746252171976963363056481941560715954676764349967630337int, 302231454903657293676544nat, 8347494515063796779999045628748821860940870132104971226319956697400034653840int, 0nat, 604462909807314587353088nat, 28921438386701814889974113544893120412277594388052141437220034402039289774603int);
    lemma_pow_step(5int, 28948022309329048855892746252171976963363056481941560715954676764349967630337int, 604462909807314587353088nat, 28921438386701814889974113544893120412277594388052141437220034402039289774603int, 0nat, 1208925819614629174706176nat, 27687191171989516044926188578052884893477030058244760507095316462877881317000int);
    lemma_pow_step(5int, 28948022309329048855892746252171976963363056481941560715954676764349967630337int, 1208925819614629174706176nat, 27687191171989516044926188578052884893477030058244760507095316462877881317000int, 0nat, 2417851639229258349412352nat, 1869085804769785362093570272324341962281362851360662714042485188274735175467int);
    lemma_pow_step(5int, 28948022309329048855892746252171976963363056481941560715954676764349967630337int, 2417851639229258349412352nat, 1869085804769785362093570272324341962281362851360662714042485188274735175467int, 0nat, 4835703278458516698824704nat, 13886964664030916490347157494107074077567257034677966080862830160829229772341int);
    lemma_pow_step(5int, 28948022309329048855892746252171976963363056481941560715954676764349967630337int, 4835703278458516698824704nat, 13886964664030916490347157494107074077567257034677966080862830160829229772341int, 0nat, 9671406556917033397649408nat, 22393127167957458314404366905187550456069070839603049744923880784463376830444int);
    lemma_pow_step(5int, 28948022309329048855892746252171976963363056481941560715954676764349967630337int, 9671406556917033397649408nat, 22393127167957458314404366905187550456069070839603049744923880784463376830444int, 0nat, 19342813113834066795298816nat, 4360845897618066045555286875401703674379556893973713988826684635958951733265int);
    lemma_pow_step(5int, 28948022309329048855892746252171976963363056481941560715954676764349967630337int, 19342813113834066795298816nat, 4360845897618066045555286875401703674379556893973713988826684635958951733265int, 0nat, 38685626227668133590597632nat, 4570109203390529033851823865178418878952444397041305961830408729209317553962int);
    lemma_pow_step(5int, 28948022309329048855892746252171976963363056481941560715954676764349967630337int, 38685626227668133590597632nat, 4570109203390529033851823865178418878952444397041305961830408729209317553962int, 0nat, 77371252455336267181195264nat, 5280488036390211251090057835661360267687296965878723438542815741884048592645int);
    lemma_pow_step(5int, 28948022309329048855892746252171976963363056481941560715954676764349967630337int, 77371252455336267181195264nat, 5280488036390211251090057835661360267687296965878723438542815741884048592645int, 0nat, 154742504910672534362390528nat, 8928475642939642637368826367854854000714532714841891979175377944074115217878int);
    lemma_pow_step(5int, 28948022309329048855892746252171976963363056481941560715954676764349967630337int, 154742504910672534362390528nat, 8928475642939642637368826367854854000714532714841891979175377944074115217878int, 0nat, 309485009821345068724781056nat, 6013053228127918412602469977800831410593488291815132783624802612342914362870int);
    lemma_pow_step(5int, 28948022309329048855892746252171976963363056481941560715954676764349967630337int, 309485009821345068724781056nat, 6013053228127918412602469977800831410593488291815132783624802612342914362870int, 0nat, 618970019642690137449562112nat, 10131720455210404389484419898792624168990374681118080422927094630419885603082int);
    lemma_pow_step(5int, 28948022309329048855892746252171976963363056481941560715954676764349967630337int, 618970019642690137449562112nat, 10131720455210404389484419898792624168990374681118080422927094630419885603082int, 0nat, 1237940039285380274899124224nat, 23028216398537859707091482273573219412092919718638601480772219762010519638940int);
    lemma_pow_step(5int, 28948022309329048855892746252171976963363056481941560715954676764349967630337int, 1237940039285380274899124224nat, 23028216398537859707091482273573219412092919718638601480772219762010519638940int, 0nat, 2475880078570760549798248448nat, 24703021241558881088223016425408057275967201042195635835795275900501736985194int);
    lemma_pow_step(5int, 28948022309329048855892746252171976963363056481941560715954676764349967630337int, 2475880078570760549798248448nat, 24703021241558881088223016425408057275967201042195635835795275900501736985194int, 0nat, 4951760157141521099596496896nat, 16802087073888988588776699392338342410802007979073483728456600823018474379475int);
    lemma_pow_step(5int, 28948022309329048855892746252171976963363056481941560715954676764349967630337int, 4951760157141521099596496896nat, 16802087073888988588776699392338342410802007979073483728456600823018474379475int, 0nat, 9903520314283042199192993792nat, 24351142681250673762378466284892314429043765450474997126572400912206115615226int);
    lemma_pow_step(5int, 28948022309329048855892746252171976963363056481941560715954676764349967630337int, 9903520314283042199192993792nat, 24351142681250673762378466284892314429043765450474997126572400912206115615226int, 0nat, 19807040628566084398385987584nat, 26432941076834709101464167503132302112963307910575227749734665597296005632068int);
    lemma_pow_step(5int, 28948022309329048855892746252171976963363056481941560715954676764349967630337int, 19807040628566084398385987584nat, 26432941076834709101464167503132302112963307910575227749734665597296005632068int, 0nat, 39614081257132168796771975168nat, 6010835453563598744565161520167969707590530576307421599764254284052262345969int);
    lemma_pow_step(5int, 28948022309329048855892746252171976963363056481941560715954676764349967630337int, 39614081257132168796771975168nat, 6010835453563598744565161520167969707590530576307421599764254284052262345969int, 0nat, 79228162514264337593543950336nat, 19591223670418009319184716890205917866748220082499749731601207021807237918546int);
    lemma_pow_step(5int, 28948022309329048855892746252171976963363056481941560715954676764349967630337int, 79228162514264337593543950336nat, 19591223670418009319184716890205917866748220082499749731601207021807237918546int, 0nat, 158456325028528675187087900672nat, 18978838102498208422979616228746223858289018802898193712629375123729427479062int);
    lemma_pow_step(5int, 28948022309329048855892746252171976963363056481941560715954676764349967630337int, 158456325028528675187087900672nat, 18978838102498208422979616228746223858289018802898193712629375123729427479062int, 0nat, 316912650057057350374175801344nat, 24205579540195384190457376924066062975750847101906132260338408449636837447093int);
    lemma_pow_step(5int, 28948022309329048855892746252171976963363056481941560715954676764349967630337int, 316912650057057350374175801344nat, 24205579540195384190457376924066062975750847101906132260338408449636837447093int, 0nat, 633825300114114700748351602688nat, 1164535737745234765204323587447048435144711562086499991098357419468441688802int);
    lemma_pow_step(5int, 28948022309329048855892746252171976963363056481941560715954676764349967630337int, 633825300114114700748351602688nat, 1164535737745234765204323587447048435144711562086499991098357419468441688802int, 0nat, 1267650600228229401496703205376nat, 25487581234785578637820596737596690815100409160384837456745666251142023422052int);
    lemma_pow_step(5int, 28948022309329048855892746252171976963363056481941560715954676764349967630337int, 1267650600228229401496703205376nat, 25487581234785578637820596737596690815100409160384837456745666251142023422052int, 0nat, 2535301200456458802993406410752nat, 15283076629086718622913039236797100833288422072325145342658440829887105409819int);
    lemma_pow_step(5int, 28948022309329048855892746252171976963363056481941560715954676764349967630337int, 2535301200456458802993406410752nat, 15283076629086718622913039236797100833288422072325145342658440829887105409819int, 0nat, 5070602400912917605986812821504nat, 12961517927268718832495931564362714334488659119459639641286275960199718075273int);
    lemma_pow_step(5int, 28948022309329048855892746252171976963363056481941560715954676764349967630337int, 5070602400912917605986812821504nat, 12961517927268718832495931564362714334488659119459639641286275960199718075273int, 0nat, 10141204801825835211973625643008nat, 20088653145028773546174009261326407945679707203024781361796980803315508182527int);
    lemma_pow_step(5int, 28948022309329048855892746252171976963363056481941560715954676764349967630337int, 10141204801825835211973625643008nat, 20088653145028773546174009261326407945679707203024781361796980803315508182527int, 0nat, 20282409603651670423947251286016nat, 18311401419311979303243275605622079786029122794481809344206457661578191130721int);
    lemma_pow_step(5int, 28948022309329048855892746252171976963363056481941560715954676764349967630337int, 20282409603651670423947251286016nat, 18311401419311979303243275605622079786029122794481809344206457661578191130721int, 0nat, 40564819207303340847894502572032nat, 16288172664762523627173830034289793926763537548276077284983686039823741988118int);
    lemma_pow_step(5int, 28948022309329048855892746252171976963363056481941560715954676764349967630337int, 40564819207303340847894502572032nat, 16288172664762523627173830034289793926763537548276077284983686039823741988118int, 0nat, 81129638414606681695789005144064nat, 10647443964285311696593812299403620710937568641139178927559356082081404015035int);
    lemma_pow_step(5int, 28948022309329048855892746252171976963363056481941560715954676764349967630337int, 81129638414606681695789005144064nat, 10647443964285311696593812299403620710937568641139178927559356082081404015035int, 0nat, 162259276829213363391578010288128nat, 12176080079739320113586337756648850064948026571975360666444752264448592048144int);
    lemma_pow_step(5int, 28948022309329048855892746252171976963363056481941560715954676764349967630337int, 162259276829213363391578010288128nat, 12176080079739320113586337756648850064948026571975360666444752264448592048144int, 0nat, 324518553658426726783156020576256nat, 22459324173539723929197138876714322308917227481905557374976711066836920795447int);
    lemma_pow_step(5int, 28948022309329048855892746252171976963363056481941560715954676764349967630337int, 324518553658426726783156020576256nat, 22459324173539723929197138876714322308917227481905557374976711066836920795447int, 0nat, 649037107316853453566312041152512nat, 1586194913433591511298410625111124823975523493452607085140659550389980066035int);
    lemma_pow_step(5int, 28948022309329048855892746252171976963363056481941560715954676764349967630337int, 649037107316853453566312041152512nat, 1586194913433591511298410625111124823975523493452607085140659550389980066035int, 0nat, 1298074214633706907132624082305024nat, 14703035153918924703703866689390565388566372740591680262134594482122488970894int);
    lemma_pow_step(5int, 28948022309329048855892746252171976963363056481941560715954676764349967630337int, 1298074214633706907132624082305024nat, 14703035153918924703703866689390565388566372740591680262134594482122488970894int, 0nat, 2596148429267413814265248164610048nat, 10008145733494355223625521524199741099976486851703264387941753935097941460733int);
    lemma_pow_step(5int, 28948022309329048855892746252171976963363056481941560715954676764349967630337int, 2596148429267413814265248164610048nat, 10008145733494355223625521524199741099976486851703264387941753935097941460733int, 0nat, 5192296858534827628530496329220096nat, 27783536694766062303619481018383666361635467583600323230349696998931411718037int);
    lemma_pow_step(5int, 28948022309329048855892746252171976963363056481941560715954676764349967630337int, 5192296858534827628530496329220096nat, 27783536694766062303619481018383666361635467583600323230349696998931411718037int, 0nat, 10384593717069655257060992658440192nat, 3402260013454113224844028254298340106554392887163926034554743690600977991393int);
    lemma_pow_step(5int, 28948022309329048855892746252171976963363056481941560715954676764349967630337int, 10384593717069655257060992658440192nat, 3402260013454113224844028254298340106554392887163926034554743690600977991393int, 0nat, 20769187434139310514121985316880384nat, 9465244757261833393067247044576558558419747115576290053617525567288772785438int);
    lemma_pow_step(5int, 28948022309329048855892746252171976963363056481941560715954676764349967630337int, 20769187434139310514121985316880384nat, 9465244757261833393067247044576558558419747115576290053617525567288772785438int, 0nat, 41538374868278621028243970633760768nat, 9323090415186133682398703218259081693766179071628680636267245209808042390863int);
    lemma_pow_step(5int, 28948022309329048855892746252171976963363056481941560715954676764349967630337int, 41538374868278621028243970633760768nat, 9323090415186133682398703218259081693766179071628680636267245209808042390863int, 0nat, 83076749736557242056487941267521536nat, 9578033967819069506181083047553003840806357542249487187984726892460456552230int);
    lemma_pow_step(5int, 28948022309329048855892746252171976963363056481941560715954676764349967630337int, 83076749736557242056487941267521536nat, 9578033967819069506181083047553003840806357542249487187984726892460456552230int, 0nat, 166153499473114484112975882535043072nat, 16375578862744116469979162665768663671501154848476699353973306715389125318957int);
    lemma_pow_step(5int, 28948022309329048855892746252171976963363056481941560715954676764349967630337int, 166153499473114484112975882535043072nat, 16375578862744116469979162665768663671501154848476699353973306715389125318957int, 0nat, 332306998946228968225951765070086144nat, 18578620584182554069578482318654755007183009951323265460286930174826812255077int);
    lemma_pow_step(5int, 28948022309329048855892746252171976963363056481941560715954676764349967630337int, 332306998946228968225951765070086144nat, 18578620584182554069578482318654755007183009951323265460286930174826812255077int, 0nat, 664613997892457936451903530140172288nat, 18058674664051197568903991128079796021357996556330189615186251725723142437395int);
    lemma_pow_step(5int, 28948022309329048855892746252171976963363056481941560715954676764349967630337int, 664613997892457936451903530140172288nat, 18058674664051197568903991128079796021357996556330189615186251725723142437395int, 0nat, 1329227995784915872903807060280344576nat, 5798542757738894188017790626204397780487585598386498854873542886613202587060int);
    lemma_pow_step(5int, 28948022309329048855892746252171976963363056481941560715954676764349967630337int, 1329227995784915872903807060280344576nat, 5798542757738894188017790626204397780487585598386498854873542886613202587060int, 0nat, 2658455991569831745807614120560689152nat, 19605373842764495052545525720555354181489099488683504836227061228501446951552int);
    lemma_pow_step(5int, 28948022309329048855892746252171976963363056481941560715954676764349967630337int, 2658455991569831745807614120560689152nat, 19605373842764495052545525720555354181489099488683504836227061228501446951552int, 0nat, 5316911983139663491615228241121378304nat, 22576755413268362949340817894364298592591086318413408454976734253902418435239int);
    lemma_pow_step(5int, 28948022309329048855892746252171976963363056481941560715954676764349967630337int, 5316911983139663491615228241121378304nat, 22576755413268362949340817894364298592591086318413408454976734253902418435239int, 0nat, 10633823966279326983230456482242756608nat, 11922377557062990952838003966721824949687161449529190310022615494182280375544int);
    lemma_pow_step(5int, 28948022309329048855892746252171976963363056481941560715954676764349967630337int, 10633823966279326983230456482242756608nat, 11922377557062990952838003966721824949687161449529190310022615494182280375544int, 0nat, 21267647932558653966460912964485513216nat, 603241327518073359457610264913069621233580849536591547190859315333134613145int);
    lemma_pow_step(5int, 28948022309329048855892746252171976963363056481941560715954676764349967630337int, 21267647932558653966460912964485513216nat, 603241327518073359457610264913069621233580849536591547190859315333134613145int, 0nat, 42535295865117307932921825928971026432nat, 9658676037409423277623116711855980929368813189471990529296664247471497519464int);
    lemma_pow_step(5int, 28948022309329048855892746252171976963363056481941560715954676764349967630337int, 42535295865117307932921825928971026432nat, 9658676037409423277623116711855980929368813189471990529296664247471497519464int, 0nat, 85070591730234615865843651857942052864nat, 1118414768069579273392392209687540894965442242242520512202844381353646643585int);
    lemma_pow_step(5int, 28948022309329048855892746252171976963363056481941560715954676764349967630337int, 85070591730234615865843651857942052864nat, 1118414768069579273392392209687540894965442242242520512202844381353646643585int, 0nat, 170141183460469231731687303715884105728nat, 28578393185017654159067086472997548421629025083932675183830752524839310043740int);
    lemma_pow_step(5int, 28948022309329048855892746252171976963363056481941560715954676764349967630337int, 170141183460469231731687303715884105728nat, 28578393185017654159067086472997548421629025083932675183830752524839310043740int, 0nat, 340282366920938463463374607431768211456nat, 15507953943004201903124284602456029129711174324011890365127429264059604392893int);
    lemma_pow_step(5int, 28948022309329048855892746252171976963363056481941560715954676764349967630337int, 340282366920938463463374607431768211456nat, 15507953943004201903124284602456029129711174324011890365127429264059604392893int, 1nat, 680564733841876926926749214863536422913nat, 10522411923199231699357538294022482000065037555575978647740503376014255705553int);
    lemma_pow_step(5int, 28948022309329048855892746252171976963363056481941560715954676764349967630337int, 680564733841876926926749214863536422913nat, 10522411923199231699357538294022482000065037555575978647740503376014255705553int, 0nat, 1361129467683753853853498429727072845826nat, 25884609553620000545889599201237766168554179234106100224409825513690147215491int);
    lemma_pow_step(5int, 28948022309329048855892746252171976963363056481941560715954676764349967630337int, 1361129467683753853853498429727072845826nat, 25884609553620000545889599201237766168554179234106100224409825513690147215491int, 0nat, 2722258935367507707706996859454145691652nat, 22757816389868886800049504297077852764442312288321889581173920693335422944701int);
    lemma_pow_step(5int, 28948022309329048855892746252171976963363056481941560715954676764349967630337int, 2722258935367507707706996859454145691652nat, 22757816389868886800049504297077852764442312288321889581173920693335422944701int, 0nat, 5444517870735015415413993718908291383304nat, 2474844135377174027691710875094210536989807195385074661220681207380752580637int);
    lemma_pow_step(5int, 28948022309329048855892746252171976963363056481941560715954676764349967630337int, 5444517870735015415413993718908291383304nat, 2474844135377174027691710875094210536989807195385074661220681207380752580637int, 1nat, 10889035741470030830827987437816582766609nat, 23815172143319031906646071162184841694616547066367022390048300813193080178147int);
    lemma_pow_step(5int, 28948022309329048855892746252171976963363056481941560715954676764349967630337int, 10889035741470030830827987437816582766609nat, 23815172143319031906646071162184841694616547066367022390048300813193080178147int, 0nat, 21778071482940061661655974875633165533218nat, 8582486851253676339356671831023125450712076263190676670406917507098054753613int);
    lemma_pow_step(5int, 28948022309329048855892746252171976963363056481941560715954676764349967630337int, 21778071482940061661655974875633165533218nat, 8582486851253676339356671831023125450712076263190676670406917507098054753613int, 0nat, 43556142965880123323311949751266331066436nat, 2044701533377035236861626365476204336795964819203047405143453764060128460475int);
    lemma_pow_step(5int, 28948022309329048855892746252171976963363056481941560715954676764349967630337int, 43556142965880123323311949751266331066436nat, 2044701533377035236861626365476204336795964819203047405143453764060128460475int, 1nat, 87112285931760246646623899502532662132873nat, 6951440362615753729205186071195641969299336278147217633166941229954349958562int);
    lemma_pow_step(5int, 28948022309329048855892746252171976963363056481941560715954676764349967630337int, 87112285931760246646623899502532662132873nat, 6951440362615753729205186071195641969299336278147217633166941229954349958562int, 0nat, 174224571863520493293247799005065324265746nat, 27862864250120142255740795292478713201706591973008451841204956743182376931009int);
    lemma_pow_step(5int, 28948022309329048855892746252171976963363056481941560715954676764349967630337int, 174224571863520493293247799005065324265746nat, 27862864250120142255740795292478713201706591973008451841204956743182376931009int, 0nat, 348449143727040986586495598010130648531492nat, 14078153700113423098779985664387705851560540987792843135841502660327415032484int);
    lemma_pow_step(5int, 28948022309329048855892746252171976963363056481941560715954676764349967630337int, 348449143727040986586495598010130648531492nat, 14078153700113423098779985664387705851560540987792843135841502660327415032484int, 0nat, 696898287454081973172991196020261297062984nat, 12818626116519041182365161621889043846939307890718857808572973998954990484840int);
    lemma_pow_step(5int, 28948022309329048855892746252171976963363056481941560715954676764349967630337int, 696898287454081973172991196020261297062984nat, 12818626116519041182365161621889043846939307890718857808572973998954990484840int, 1nat, 1393796574908163946345982392040522594125969nat, 7505144210254709874656081460475040008445162862729123349893673029273394271410int);
    lemma_pow_step(5int, 28948022309329048855892746252171976963363056481941560715954676764349967630337int, 1393796574908163946345982392040522594125969nat, 7505144210254709874656081460475040008445162862729123349893673029273394271410int, 1nat, 2787593149816327892691964784081045188251939nat, 17654615097413767453568939097356706039636655021653275066821548050652724203168int);
    lemma_pow_step(5int, 28948022309329048855892746252171976963363056481941560715954676764349967630337int, 2787593149816327892691964784081045188251939nat, 17654615097413767453568939097356706039636655021653275066821548050652724203168int, 0nat, 5575186299632655785383929568162090376503878nat, 26101823692908157687446613987145148843383065860546987573184269222287425411972int);
    lemma_pow_step(5int, 28948022309329048855892746252171976963363056481941560715954676764349967630337int, 5575186299632655785383929568162090376503878nat, 26101823692908157687446613987145148843383065860546987573184269222287425411972int, 1nat, 11150372599265311570767859136324180753007757nat, 5554613203861738091993763898249669246131460345575613365541971597700275656327int);
    lemma_pow_step(5int, 28948022309329048855892746252171976963363056481941560715954676764349967630337int, 11150372599265311570767859136324180753007757nat, 5554613203861738091993763898249669246131460345575613365541971597700275656327int, 0nat, 22300745198530623141535718272648361506015514nat, 24847261170809320811495068345237272044757010656476974743258129614091000168685int);
    lemma_pow_step(5int, 28948022309329048855892746252171976963363056481941560715954676764349967630337int, 22300745198530623141535718272648361506015514nat, 24847261170809320811495068345237272044757010656476974743258129614091000168685int, 0nat, 44601490397061246283071436545296723012031028nat, 16057753013287655877854618710340478519284330150480978033179572780351555999654int);
    lemma_pow_step(5int, 28948022309329048855892746252171976963363056481941560715954676764349967630337int, 44601490397061246283071436545296723012031028nat, 16057753013287655877854618710340478519284330150480978033179572780351555999654int, 1nat, 89202980794122492566142873090593446024062057nat, 12925361606795497366868877251983141070814722874536330209422067931082880822659int);
    lemma_pow_step(5int, 28948022309329048855892746252171976963363056481941560715954676764349967630337int, 89202980794122492566142873090593446024062057nat, 12925361606795497366868877251983141070814722874536330209422067931082880822659int, 1nat, 178405961588244985132285746181186892048124115nat, 1843406991018277121388992637478833474116309768058013139339321464789584729556int);
    lemma_pow_step(5int, 28948022309329048855892746252171976963363056481941560715954676764349967630337int, 178405961588244985132285746181186892048124115nat, 1843406991018277121388992637478833474116309768058013139339321464789584729556int, 0nat, 356811923176489970264571492362373784096248230nat, 25360629057477321919294616306509109382990900990850045674373919656862034998376int);
    lemma_pow_step(5int, 28948022309329048855892746252171976963363056481941560715954676764349967630337int, 356811923176489970264571492362373784096248230nat, 25360629057477321919294616306509109382990900990850045674373919656862034998376int, 0nat, 713623846352979940529142984724747568192496460nat, 23511631077736493855151861343414654015992872513686297524828491599833015284820int);
    lemma_pow_step(5int, 28948022309329048855892746252171976963363056481941560715954676764349967630337int, 713623846352979940529142984724747568192496460nat, 23511631077736493855151861343414654015992872513686297524828491599833015284820int, 0nat, 1427247692705959881058285969449495136384992920nat, 22861007446041990604643858947795663121534622977205710769940626881093993858911int);
    lemma_pow_step(5int, 28948022309329048855892746252171976963363056481941560715954676764349967630337int, 1427247692705959881058285969449495136384992920nat, 22861007446041990604643858947795663121534622977205710769940626881093993858911int, 1nat, 2854495385411919762116571938898990272769985841nat, 5833735251786499451350877578230389752378210907705930185368153161109995027758int);
    lemma_pow_step(5int, 28948022309329048855892746252171976963363056481941560715954676764349967630337int, 2854495385411919762116571938898990272769985841nat, 5833735251786499451350877578230389752378210907705930185368153161109995027758int, 1nat, 5708990770823839524233143877797980545539971683nat, 341338445364191008473389580001998975102474296849497386225291730497557225824int);
    lemma_pow_step(5int, 28948022309329048855892746252171976963363056481941560715954676764349967630337int, 5708990770823839524233143877797980545539971683nat, 341338445364191008473389580001998975102474296849497386225291730497557225824int, 1nat, 11417981541647679048466287755595961091079943367nat, 23981427061135774952813019935715054598754383717617759045053160395781753642595int);
    lemma_pow_step(5int, 28948022309329048855892746252171976963363056481941560715954676764349967630337int, 11417981541647679048466287755595961091079943367nat, 23981427061135774952813019935715054598754383717617759045053160395781753642595int, 1nat, 22835963083295358096932575511191922182159886735nat, 23001940023742193468783045427705444458259211934971854152801625707893300208656int);
    lemma_pow_step(5int, 28948022309329048855892746252171976963363056481941560715954676764349967630337int, 22835963083295358096932575511191922182159886735nat, 23001940023742193468783045427705444458259211934971854152801625707893300208656int, 1nat, 45671926166590716193865151022383844364319773471nat, 4412041712092390182929050546229000142780979252436107015166209120392419957155int);
    lemma_pow_step(5int, 28948022309329048855892746252171976963363056481941560715954676764349967630337int, 45671926166590716193865151022383844364319773471nat, 4412041712092390182929050546229000142780979252436107015166209120392419957155int, 1nat, 91343852333181432387730302044767688728639546943nat, 1729138511849888660005861103148213895138488889415135900599697224967428407293int);
    lemma_pow_step(5int, 28948022309329048855892746252171976963363056481941560715954676764349967630337int, 91343852333181432387730302044767688728639546943nat, 1729138511849888660005861103148213895138488889415135900599697224967428407293int, 0nat, 182687704666362864775460604089535377457279093886nat, 23925531510165895091395604775364678413650361588449823758517204029079383803840int);
    lemma_pow_step(5int, 28948022309329048855892746252171976963363056481941560715954676764349967630337int, 182687704666362864775460604089535377457279093886nat, 23925531510165895091395604775364678413650361588449823758517204029079383803840int, 0nat, 365375409332725729550921208179070754914558187772nat, 14528130933841236226617042134729313903873931973336820418661591882352202793035int);
    lemma_pow_step(5int, 28948022309329048855892746252171976963363056481941560715954676764349967630337int, 365375409332725729550921208179070754914558187772nat, 14528130933841236226617042134729313903873931973336820418661591882352202793035int, 0nat, 730750818665451459101842416358141509829116375544nat, 11514680944620227372513514908404346941163837421562000776495972063555388740711int);
    lemma_pow_step(5int, 28948022309329048855892746252171976963363056481941560715954676764349967630337int, 730750818665451459101842416358141509829116375544nat, 11514680944620227372513514908404346941163837421562000776495972063555388740711int, 0nat, 1461501637330902918203684832716283019658232751088nat, 28323559501975135907991437229620385709654458318406325465876562807943385859105int);
    lemma_pow_step(5int, 28948022309329048855892746252171976963363056481941560715954676764349967630337int, 1461501637330902918203684832716283019658232751088nat, 28323559501975135907991437229620385709654458318406325465876562807943385859105int, 0nat, 2923003274661805836407369665432566039316465502176nat, 5500549156396388525320310358231399925064139121600563256561855147635217727623int);
    lemma_pow_step(5int, 28948022309329048855892746252171976963363056481941560715954676764349967630337int, 2923003274661805836407369665432566039316465502176nat, 5500549156396388525320310358231399925064139121600563256561855147635217727623int, 0nat, 5846006549323611672814739330865132078632931004352nat, 26486844785532725841696670768365655048494220561115283848055628094526024268870int);
    lemma_pow_step(5int, 28948022309329048855892746252171976963363056481941560715954676764349967630337int, 5846006549323611672814739330865132078632931004352nat, 26486844785532725841696670768365655048494220561115283848055628094526024268870int, 1nat, 11692013098647223345629478661730264157265862008705nat, 4235027614656741633854242178288617922881360378017675794814955125438358894965int);
    lemma_pow_step(5int, 28948022309329048855892746252171976963363056481941560715954676764349967630337int, 11692013098647223345629478661730264157265862008705nat, 4235027614656741633854242178288617922881360378017675794814955125438358894965int, 0nat, 23384026197294446691258957323460528314531724017410nat, 10357694292020708828915035780015079218043860439455525363934634064869662541361int);
    lemma_pow_step(5int, 28948022309329048855892746252171976963363056481941560715954676764349967630337int, 23384026197294446691258957323460528314531724017410nat, 10357694292020708828915035780015079218043860439455525363934634064869662541361int, 0nat, 46768052394588893382517914646921056629063448034820nat, 8997086239123888875302064003986172517165755645782968374934668584943461836382int);
    lemma_pow_step(5int, 28948022309329048855892746252171976963363056481941560715954676764349967630337int, 46768052394588893382517914646921056629063448034820nat, 8997086239123888875302064003986172517165755645782968374934668584943461836382int, 1nat, 93536104789177786765035829293842113258126896069641nat, 1528476945650753642491723585283705350846200750353305360366164067067183824699int);
    lemma_pow_step(5int, 28948022309329048855892746252171976963363056481941560715954676764349967630337int, 93536104789177786765035829293842113258126896069641nat, 1528476945650753642491723585283705350846200750353305360366164067067183824699int, 0nat, 187072209578355573530071658587684226516253792139282nat, 18304486094331297034283992842092127985270991284058239072105224745968674431872int);
    lemma_pow_step(5int, 28948022309329048855892746252171976963363056481941560715954676764349967630337int, 187072209578355573530071658587684226516253792139282nat, 18304486094331297034283992842092127985270991284058239072105224745968674431872int, 1nat, 374144419156711147060143317175368453032507584278565nat, 20793456111181836699868102307130627627890442761131609482578586334745230085095int);
    lemma_pow_step(5int, 28948022309329048855892746252171976963363056481941560715954676764349967630337int, 374144419156711147060143317175368453032507584278565nat, 20793456111181836699868102307130627627890442761131609482578586334745230085095int, 0nat, 748288838313422294120286634350736906065015168557130nat, 10687028468082808802711269216574174903091899181181209513071577443021669453206int);
    lemma_pow_step(5int, 28948022309329048855892746252171976963363056481941560715954676764349967630337int, 748288838313422294120286634350736906065015168557130nat, 10687028468082808802711269216574174903091899181181209513071577443021669453206int, 0nat, 1496577676626844588240573268701473812130030337114260nat, 9261016371642984917773221277406096705346490324281616096323095288390802443767int);
    lemma_pow_step(5int, 28948022309329048855892746252171976963363056481941560715954676764349967630337int, 1496577676626844588240573268701473812130030337114260nat, 9261016371642984917773221277406096705346490324281616096323095288390802443767int, 1nat, 2993155353253689176481146537402947624260060674228521nat, 5274334770673021526020022879867371947254208562805635047408695241752555012068int);
    lemma_pow_step(5int, 28948022309329048855892746252171976963363056481941560715954676764349967630337int, 2993155353253689176481146537402947624260060674228521nat, 5274334770673021526020022879867371947254208562805635047408695241752555012068int, 1nat, 5986310706507378352962293074805895248520121348457043nat, 16878494706040521461141846425780325277421095285052183867630144528172274883150int);
    lemma_pow_step(5int, 28948022309329048855892746252171976963363056481941560715954676764349967630337int, 5986310706507378352962293074805895248520121348457043nat, 16878494706040521461141846425780325277421095285052183867630144528172274883150int, 0nat, 11972621413014756705924586149611790497040242696914086nat, 1413679552879716615492406597460435447225917846523433351299284784199315387531int);
    lemma_pow_step(5int, 28948022309329048855892746252171976963363056481941560715954676764349967630337int, 11972621413014756705924586149611790497040242696914086nat, 1413679552879716615492406597460435447225917846523433351299284784199315387531int, 0nat, 23945242826029513411849172299223580994080485393828172nat, 13575080221640793413156923480173839592682019325396744296807497652627388047050int);
    lemma_pow_step(5int, 28948022309329048855892746252171976963363056481941560715954676764349967630337int, 23945242826029513411849172299223580994080485393828172nat, 13575080221640793413156923480173839592682019325396744296807497652627388047050int, 1nat, 47890485652059026823698344598447161988160970787656345nat, 18014506483316263452486380186647911582916061536188515130393136336091833130813int);
    lemma_pow_step(5int, 28948022309329048855892746252171976963363056481941560715954676764349967630337int, 47890485652059026823698344598447161988160970787656345nat, 18014506483316263452486380186647911582916061536188515130393136336091833130813int, 1nat, 95780971304118053647396689196894323976321941575312691nat, 11454310409241863410057277750707767869129719002330456364785402318527478638956int);
    lemma_pow_step(5int, 28948022309329048855892746252171976963363056481941560715954676764349967630337int, 95780971304118053647396689196894323976321941575312691nat, 11454310409241863410057277750707767869129719002330456364785402318527478638956int, 1nat, 191561942608236107294793378393788647952643883150625383nat, 16943825549457836307296121794279452468925592802929155565299238084397611889483int);
    lemma_pow_step(5int, 28948022309329048855892746252171976963363056481941560715954676764349967630337int, 191561942608236107294793378393788647952643883150625383nat, 16943825549457836307296121794279452468925592802929155565299238084397611889483int, 1nat, 383123885216472214589586756787577295905287766301250767nat, 26308798077043380116335128018890928144941554236726424161578172087894644505894int);
    lemma_pow_step(5int, 28948022309329048855892746252171976963363056481941560715954676764349967630337int, 383123885216472214589586756787577295905287766301250767nat, 26308798077043380116335128018890928144941554236726424161578172087894644505894int, 1nat, 766247770432944429179173513575154591810575532602501535nat, 2394732764311740575838213481530573754352862844628739158630368687944373260241int);
    lemma_pow_step(5int, 28948022309329048855892746252171976963363056481941560715954676764349967630337int, 766247770432944429179173513575154591810575532602501535nat, 2394732764311740575838213481530573754352862844628739158630368687944373260241int, 0nat, 1532495540865888858358347027150309183621151065205003070nat, 1974355004969481580557897821157655072202310752451126148746612298503808066078int);
    lemma_pow_step(5int, 28948022309329048855892746252171976963363056481941560715954676764349967630337int, 1532495540865888858358347027150309183621151065205003070nat, 1974355004969481580557897821157655072202310752451126148746612298503808066078int, 0nat, 3064991081731777716716694054300618367242302130410006140nat, 1181945976029370138745607974396381321804477968516866985204702652641225204496int);
    lemma_pow_step(5int, 28948022309329048855892746252171976963363056481941560715954676764349967630337int, 3064991081731777716716694054300618367242302130410006140nat, 1181945976029370138745607974396381321804477968516866985204702652641225204496int, 1nat, 6129982163463555433433388108601236734484604260820012281nat, 3399228125413610301582480154700978677383796328951231952474924307772363025484int);
    lemma_pow_step(5int, 28948022309329048855892746252171976963363056481941560715954676764349967630337int, 6129982163463555433433388108601236734484604260820012281nat, 3399228125413610301582480154700978677383796328951231952474924307772363025484int, 0nat, 12259964326927110866866776217202473468969208521640024562nat, 21198920842256465924802508084532886083815097695919446990451614098795513589173int);
    lemma_pow_step(5int, 28948022309329048855892746252171976963363056481941560715954676764349967630337int, 12259964326927110866866776217202473468969208521640024562nat, 21198920842256465924802508084532886083815097695919446990451614098795513589173int, 0nat, 24519928653854221733733552434404946937938417043280049124nat, 11099602306595586423320933640843905701117124680266708701813946867651165298095int);
    lemma_pow_step(5int, 28948022309329048855892746252171976963363056481941560715954676764349967630337int, 24519928653854221733733552434404946937938417043280049124nat, 11099602306595586423320933640843905701117124680266708701813946867651165298095int, 0nat, 49039857307708443467467104868809893875876834086560098248nat, 18786566233148674737253309590702444023874961500280150756259994632392012692876int);
    lemma_pow_step(5int, 28948022309329048855892746252171976963363056481941560715954676764349967630337int, 49039857307708443467467104868809893875876834086560098248nat, 18786566233148674737253309590702444023874961500280150756259994632392012692876int, 1nat, 98079714615416886934934209737619787751753668173120196497nat, 19195000825058695228562751219207155488063851726526500325338049484070201179884int);
    lemma_pow_step(5int, 28948022309329048855892746252171976963363056481941560715954676764349967630337int, 98079714615416886934934209737619787751753668173120196497nat, 19195000825058695228562751219207155488063851726526500325338049484070201179884int, 1nat, 196159429230833773869868419475239575503507336346240392995nat, 10207522866495316101625650446327209890050299256869120843229738032433704634714int);
    lemma_pow_step(5int, 28948022309329048855892746252171976963363056481941560715954676764349967630337int, 196159429230833773869868419475239575503507336346240392995nat, 10207522866495316101625650446327209890050299256869120843229738032433704634714int, 0nat, 392318858461667547739736838950479151007014672692480785990nat, 24127052153571291247247346536242677578838611634449374967052126165053845814471int);
    lemma_pow_step(5int, 28948022309329048855892746252171976963363056481941560715954676764349967630337int, 392318858461667547739736838950479151007014672692480785990nat, 24127052153571291247247346536242677578838611634449374967052126165053845814471int, 1nat, 784637716923335095479473677900958302014029345384961571981nat, 18222293315967722589518879471361689305044536298668228259628012584361622734644int);
    lemma_pow_step(5int, 28948022309329048855892746252171976963363056481941560715954676764349967630337int, 784637716923335095479473677900958302014029345384961571981nat, 18222293315967722589518879471361689305044536298668228259628012584361622734644int, 1nat, 1569275433846670190958947355801916604028058690769923143963nat, 3910815589102830805457225530536669014660854488111164904274929023521074135032int);
    lemma_pow_step(5int, 28948022309329048855892746252171976963363056481941560715954676764349967630337int, 1569275433846670190958947355801916604028058690769923143963nat, 3910815589102830805457225530536669014660854488111164904274929023521074135032int, 1nat, 3138550867693340381917894711603833208056117381539846287927nat, 7267331378196717117619743385689484434709789452049057437006079480667786885311int);
    lemma_pow_step(5int, 28948022309329048855892746252171976963363056481941560715954676764349967630337int, 3138550867693340381917894711603833208056117381539846287927nat, 7267331378196717117619743385689484434709789452049057437006079480667786885311int, 0nat, 6277101735386680763835789423207666416112234763079692575854nat, 11873757767020656734867393925475343230668922406659471732973133836980780322659int);
    lemma_pow_step(5int, 28948022309329048855892746252171976963363056481941560715954676764349967630337int, 6277101735386680763835789423207666416112234763079692575854nat, 11873757767020656734867393925475343230668922406659471732973133836980780322659int, 0nat, 12554203470773361527671578846415332832224469526159385151708nat, 19627749694775441012439444591247732873122076891923640079068008581518743485900int);
    lemma_pow_step(5int, 28948022309329048855892746252171976963363056481941560715954676764349967630337int, 12554203470773361527671578846415332832224469526159385151708nat, 19627749694775441012439444591247732873122076891923640079068008581518743485900int, 1nat, 25108406941546723055343157692830665664448939052318770303417nat, 11313647593967617780398128874775274540032012997613991722080051566037965164153int);
    lemma_pow_step(5int, 28948022309329048855892746252171976963363056481941560715954676764349967630337int, 25108406941546723055343157692830665664448939052318770303417nat, 11313647593967617780398128874775274540032012997613991722080051566037965164153int, 1nat, 50216813883093446110686315385661331328897878104637540606835nat, 2949844982682243947392642443676381424157584632954097737414552573727653779826int);
    lemma_pow_step(5int, 28948022309329048855892746252171976963363056481941560715954676764349967630337int, 50216813883093446110686315385661331328897878104637540606835nat, 2949844982682243947392642443676381424157584632954097737414552573727653779826int, 0nat, 100433627766186892221372630771322662657795756209275081213670nat, 21175804907253020319382427440217711897720158899131194347625184859714360574161int);
    lemma_pow_step(5int, 28948022309329048855892746252171976963363056481941560715954676764349967630337int, 100433627766186892221372630771322662657795756209275081213670nat, 21175804907253020319382427440217711897720158899131194347625184859714360574161int, 0nat, 200867255532373784442745261542645325315591512418550162427340nat, 4735946389827896319239873628845773049863260668786500113191319365492606243603int);
    lemma_pow_step(5int, 28948022309329048855892746252171976963363056481941560715954676764349967630337int, 200867255532373784442745261542645325315591512418550162427340nat, 4735946389827896319239873628845773049863260668786500113191319365492606243603int, 1nat, 401734511064747568885490523085290650631183024837100324854681nat, 20177854627962372325131268894866753046159321205208492888965992780785371494096int);
    lemma_pow_step(5int, 28948022309329048855892746252171976963363056481941560715954676764349967630337int, 401734511064747568885490523085290650631183024837100324854681nat, 20177854627962372325131268894866753046159321205208492888965992780785371494096int, 0nat, 803469022129495137770981046170581301262366049674200649709362nat, 13812405290955617412698327879339689342062154995241853210732667199935649577188int);
    lemma_pow_step(5int, 28948022309329048855892746252171976963363056481941560715954676764349967630337int, 803469022129495137770981046170581301262366049674200649709362nat, 13812405290955617412698327879339689342062154995241853210732667199935649577188int, 0nat, 1606938044258990275541962092341162602524732099348401299418724nat, 23105826777185725418775461772820692020120060136048701161902147006327311615920int);
    lemma_pow_step(5int, 28948022309329048855892746252171976963363056481941560715954676764349967630337int, 1606938044258990275541962092341162602524732099348401299418724nat, 23105826777185725418775461772820692020120060136048701161902147006327311615920int, 1nat, 3213876088517980551083924184682325205049464198696802598837449nat, 20014810159008301596449435195964953142542870563156083118580506459470993194654int);
    lemma_pow_step(5int, 28948022309329048855892746252171976963363056481941560715954676764349967630337int, 3213876088517980551083924184682325205049464198696802598837449nat, 20014810159008301596449435195964953142542870563156083118580506459470993194654int, 0nat, 6427752177035961102167848369364650410098928397393605197674898nat, 14971733647768936709653738962462762913881491323897418138972464822230964157800int);
    lemma_pow_step(5int, 28948022309329048855892746252171976963363056481941560715954676764349967630337int, 6427752177035961102167848369364650410098928397393605197674898nat, 14971733647768936709653738962462762913881491323897418138972464822230964157800int, 1nat, 12855504354071922204335696738729300820197856794787210395349797nat, 19723813696994015759654339467523895482641921204757686422148011701504682435212int);
    lemma_pow_step(5int, 28948022309329048855892746252171976963363056481941560715954676764349967630337int, 12855504354071922204335696738729300820197856794787210395349797nat, 19723813696994015759654339467523895482641921204757686422148011701504682435212int, 1nat, 25711008708143844408671393477458601640395713589574420790699595nat, 28057419194354385238063572627500564143481075045106825075604793956650890876495int);
    lemma_pow_step(5int, 28948022309329048855892746252171976963363056481941560715954676764349967630337int, 25711008708143844408671393477458601640395713589574420790699595nat, 28057419194354385238063572627500564143481075045106825075604793956650890876495int, 0nat, 51422017416287688817342786954917203280791427179148841581399190nat, 25886822929126978287150838687115055488845111387803382827549455543911764578468int);
    lemma_pow_step(5int, 28948022309329048855892746252171976963363056481941560715954676764349967630337int, 51422017416287688817342786954917203280791427179148841581399190nat, 25886822929126978287150838687115055488845111387803382827549455543911764578468int, 1nat, 102844034832575377634685573909834406561582854358297683162798381nat, 11106731623332128425086384201421990038689554536415697666144883397614421719298int);
    lemma_pow_step(5int, 28948022309329048855892746252171976963363056481941560715954676764349967630337int, 102844034832575377634685573909834406561582854358297683162798381nat, 11106731623332128425086384201421990038689554536415697666144883397614421719298int, 0nat, 205688069665150755269371147819668813123165708716595366325596762nat, 14020292778097399059310662087556167839695717492205530068324662163141797259625int);
    lemma_pow_step(5int, 28948022309329048855892746252171976963363056481941560715954676764349967630337int, 205688069665150755269371147819668813123165708716595366325596762nat, 14020292778097399059310662087556167839695717492205530068324662163141797259625int, 0nat, 411376139330301510538742295639337626246331417433190732651193524nat, 21268344986427015927896951661817458455885023026151904969075076454801501565547int);
    lemma_pow_step(5int, 28948022309329048855892746252171976963363056481941560715954676764349967630337int, 411376139330301510538742295639337626246331417433190732651193524nat, 21268344986427015927896951661817458455885023026151904969075076454801501565547int, 1nat, 822752278660603021077484591278675252492662834866381465302387049nat, 11744002279347602061151561275062061010195913585485350181470731335987052297665int);
    lemma_pow_step(5int, 28948022309329048855892746252171976963363056481941560715954676764349967630337int, 822752278660603021077484591278675252492662834866381465302387049nat, 11744002279347602061151561275062061010195913585485350181470731335987052297665int, 1nat, 1645504557321206042154969182557350504985325669732762930604774099nat, 12039840501858056587487415191283110526408194813349217579476917472866053948902int);
    lemma_pow_step(5int, 28948022309329048855892746252171976963363056481941560715954676764349967630337int, 1645504557321206042154969182557350504985325669732762930604774099nat, 12039840501858056587487415191283110526408194813349217579476917472866053948902int, 0nat, 3291009114642412084309938365114701009970651339465525861209548198nat, 23388989872785831363534614232013236071380909919576602815211318068110327705467int);
    lemma_pow_step(5int, 28948022309329048855892746252171976963363056481941560715954676764349967630337int, 3291009114642412084309938365114701009970651339465525861209548198nat, 23388989872785831363534614232013236071380909919576602815211318068110327705467int, 0nat, 6582018229284824168619876730229402019941302678931051722419096396nat, 24906345686980257906872603420942106255826182939585906984547182765416212031796int);
    lemma_pow_step(5int, 28948022309329048855892746252171976963363056481941560715954676764349967630337int, 6582018229284824168619876730229402019941302678931051722419096396nat, 24906345686980257906872603420942106255826182939585906984547182765416212031796int, 0nat, 13164036458569648337239753460458804039882605357862103444838192792nat, 16884942539420030109335572953212965952756408163452089790199606855932178212425int);
    lemma_pow_step(5int, 28948022309329048855892746252171976963363056481941560715954676764349967630337int, 13164036458569648337239753460458804039882605357862103444838192792nat, 16884942539420030109335572953212965952756408163452089790199606855932178212425int, 0nat, 26328072917139296674479506920917608079765210715724206889676385584nat, 8050256513928122437723760319716637861055967999238967352531094853972791145952int);
    lemma_pow_step(5int, 28948022309329048855892746252171976963363056481941560715954676764349967630337int, 26328072917139296674479506920917608079765210715724206889676385584nat, 8050256513928122437723760319716637861055967999238967352531094853972791145952int, 1nat, 52656145834278593348959013841835216159530421431448413779352771169nat, 24921210645726388154891623068962286032792194715690305770339650743804924912620int);
    lemma_pow_step(5int, 28948022309329048855892746252171976963363056481941560715954676764349967630337int, 52656145834278593348959013841835216159530421431448413779352771169nat, 24921210645726388154891623068962286032792194715690305770339650743804924912620int, 1nat, 105312291668557186697918027683670432319060842862896827558705542339nat, 26994697339185656991633777316560437747924529386642311595266734892325808934666int);
    lemma_pow_step(5int, 28948022309329048855892746252171976963363056481941560715954676764349967630337int, 105312291668557186697918027683670432319060842862896827558705542339nat, 26994697339185656991633777316560437747924529386642311595266734892325808934666int, 1nat, 210624583337114373395836055367340864638121685725793655117411084679nat, 14198338012305143478924596081793115363913123326255004253724134723476583258171int);
    lemma_pow_step(5int, 28948022309329048855892746252171976963363056481941560715954676764349967630337int, 210624583337114373395836055367340864638121685725793655117411084679nat, 14198338012305143478924596081793115363913123326255004253724134723476583258171int, 0nat, 421249166674228746791672110734681729276243371451587310234822169358nat, 25294301414544828350209955661937369780399847219065902008123199781285475123069int);
    lemma_pow_step(5int, 28948022309329048855892746252171976963363056481941560715954676764349967630337int, 421249166674228746791672110734681729276243371451587310234822169358nat, 25294301414544828350209955661937369780399847219065902008123199781285475123069int, 1nat, 842498333348457493583344221469363458552486742903174620469644338717nat, 1916611328365974672336205130397386087274545183252447049123386398964395508187int);
    lemma_pow_step(5int, 28948022309329048855892746252171976963363056481941560715954676764349967630337int, 842498333348457493583344221469363458552486742903174620469644338717nat, 1916611328365974672336205130397386087274545183252447049123386398964395508187int, 1nat, 1684996666696914987166688442938726917104973485806349240939288677435nat, 17709244061775971144131252163262319062779100805526020529594540003072031072290int);
    lemma_pow_step(5int, 28948022309329048855892746252171976963363056481941560715954676764349967630337int, 1684996666696914987166688442938726917104973485806349240939288677435nat, 17709244061775971144131252163262319062779100805526020529594540003072031072290int, 0nat, 3369993333393829974333376885877453834209946971612698481878577354870nat, 26710357564423290132374975209919286066684979085874909418265827922616067651375int);
    lemma_pow_step(5int, 28948022309329048855892746252171976963363056481941560715954676764349967630337int, 3369993333393829974333376885877453834209946971612698481878577354870nat, 26710357564423290132374975209919286066684979085874909418265827922616067651375int, 1nat, 6739986666787659948666753771754907668419893943225396963757154709741nat, 19814229590243028906643993866117402072516588566294623396325693409366934201135int);
    lemma_pow_step(5int, 28948022309329048855892746252171976963363056481941560715954676764349967630337int, 6739986666787659948666753771754907668419893943225396963757154709741nat, 19814229590243028906643993866117402072516588566294623396325693409366934201135int, 0nat, 13479973333575319897333507543509815336839787886450793927514309419482nat, 20019177140809064856865169274912835413481202136612124135236710364734458304827int);
    lemma_pow_step(5int, 28948022309329048855892746252171976963363056481941560715954676764349967630337int, 13479973333575319897333507543509815336839787886450793927514309419482nat, 20019177140809064856865169274912835413481202136612124135236710364734458304827int, 0nat, 26959946667150639794667015087019630673679575772901587855028618838964nat, 21078271063022430028696728003872866149171842417899417285171528540187692932029int);
    lemma_pow_step(5int, 28948022309329048855892746252171976963363056481941560715954676764349967630337int, 26959946667150639794667015087019630673679575772901587855028618838964nat, 21078271063022430028696728003872866149171842417899417285171528540187692932029int, 0nat, 53919893334301279589334030174039261347359151545803175710057237677928nat, 15482997364772194801093354052371644584317737593254729763616822834061572187373int);
    lemma_pow_step(5int, 28948022309329048855892746252171976963363056481941560715954676764349967630337int, 53919893334301279589334030174039261347359151545803175710057237677928nat, 15482997364772194801093354052371644584317737593254729763616822834061572187373int, 0nat, 107839786668602559178668060348078522694718303091606351420114475355856nat, 3871080950800814625523412335787101644253574632347917159652859787415357107205int);
    lemma_pow_step(5int, 28948022309329048855892746252171976963363056481941560715954676764349967630337int, 107839786668602559178668060348078522694718303091606351420114475355856nat, 3871080950800814625523412335787101644253574632347917159652859787415357107205int, 0nat, 215679573337205118357336120696157045389436606183212702840228950711712nat, 1603855361858706592844816436429150474566938456649022744208671126049801197523int);
    lemma_pow_step(5int, 28948022309329048855892746252171976963363056481941560715954676764349967630337int, 215679573337205118357336120696157045389436606183212702840228950711712nat, 1603855361858706592844816436429150474566938456649022744208671126049801197523int, 0nat, 431359146674410236714672241392314090778873212366425405680457901423424nat, 19539024977649559784260714624876575250810510507969145056159375673016375986401int);
    lemma_pow_step(5int, 28948022309329048855892746252171976963363056481941560715954676764349967630337int, 431359146674410236714672241392314090778873212366425405680457901423424nat, 19539024977649559784260714624876575250810510507969145056159375673016375986401int, 0nat, 862718293348820473429344482784628181557746424732850811360915802846848nat, 24587127671840133213791902490924627443001969603097575553283109427075701688787int);
    lemma_pow_step(5int, 28948022309329048855892746252171976963363056481941560715954676764349967630337int, 862718293348820473429344482784628181557746424732850811360915802846848nat, 24587127671840133213791902490924627443001969603097575553283109427075701688787int, 0nat, 1725436586697640946858688965569256363115492849465701622721831605693696nat, 22426793038789574175596682555510011126446827461592694588596954912018649138537int);
    lemma_pow_step(5int, 28948022309329048855892746252171976963363056481941560715954676764349967630337int, 1725436586697640946858688965569256363115492849465701622721831605693696nat, 22426793038789574175596682555510011126446827461592694588596954912018649138537int, 0nat, 3450873173395281893717377931138512726230985698931403245443663211387392nat, 12852111537791153370818599713791219374604951663217502622770936290355990203569int);
    lemma_pow_step(5int, 28948022309329048855892746252171976963363056481941560715954676764349967630337int, 3450873173395281893717377931138512726230985698931403245443663211387392nat, 12852111537791153370818599713791219374604951663217502622770936290355990203569int, 0nat, 6901746346790563787434755862277025452461971397862806490887326422774784nat, 6127652191210016876084848799392911130047036598987912435258055609820060102924int);
    lemma_pow_step(5int, 28948022309329048855892746252171976963363056481941560715954676764349967630337int, 6901746346790563787434755862277025452461971397862806490887326422774784nat, 6127652191210016876084848799392911130047036598987912435258055609820060102924int, 0nat, 13803492693581127574869511724554050904923942795725612981774652845549568nat, 1933957670562101914585955443663740425677241861165284373991835618452614157454int);
    lemma_pow_step(5int, 28948022309329048855892746252171976963363056481941560715954676764349967630337int, 13803492693581127574869511724554050904923942795725612981774652845549568nat, 1933957670562101914585955443663740425677241861165284373991835618452614157454int, 0nat, 27606985387162255149739023449108101809847885591451225963549305691099136nat, 26364943572312187422331641474781443956155564383082617186147261935296699093787int);
    lemma_pow_step(5int, 28948022309329048855892746252171976963363056481941560715954676764349967630337int, 27606985387162255149739023449108101809847885591451225963549305691099136nat, 26364943572312187422331641474781443956155564383082617186147261935296699093787int, 0nat, 55213970774324510299478046898216203619695771182902451927098611382198272nat, 12848565923572960245609794472388991153395081762360797542600869404653966990207int);
    lemma_pow_step(5int, 28948022309329048855892746252171976963363056481941560715954676764349967630337int, 55213970774324510299478046898216203619695771182902451927098611382198272nat, 12848565923572960245609794472388991153395081762360797542600869404653966990207int, 0nat, 110427941548649020598956093796432407239391542365804903854197222764396544nat, 9059609500058202843104638863342248746504599822352244150423200420585762349764int);
    lemma_pow_step(5int, 28948022309329048855892746252171976963363056481941560715954676764349967630337int, 110427941548649020598956093796432407239391542365804903854197222764396544nat, 9059609500058202843104638863342248746504599822352244150423200420585762349764int, 0nat, 220855883097298041197912187592864814478783084731609807708394445528793088nat, 7051704889939846324003508128306593720494677068301380723225854977337514624816int);
    lemma_pow_step(5int, 28948022309329048855892746252171976963363056481941560715954676764349967630337int, 220855883097298041197912187592864814478783084731609807708394445528793088nat, 7051704889939846324003508128306593720494677068301380723225854977337514624816int, 0nat, 441711766194596082395824375185729628957566169463219615416788891057586176nat, 15891333241237338948802440868534957611422987089162911289567511717843897011994int);
    lemma_pow_step(5int, 28948022309329048855892746252171976963363056481941560715954676764349967630337int, 441711766194596082395824375185729628957566169463219615416788891057586176nat, 15891333241237338948802440868534957611422987089162911289567511717843897011994int, 0nat, 883423532389192164791648750371459257915132338926439230833577782115172352nat, 21627025687819550616493670481423056333531177319425453730855097519004345700158int);
    lemma_pow_step(5int, 28948022309329048855892746252171976963363056481941560715954676764349967630337int, 883423532389192164791648750371459257915132338926439230833577782115172352nat, 21627025687819550616493670481423056333531177319425453730855097519004345700158int, 0nat, 1766847064778384329583297500742918515830264677852878461667155564230344704nat, 12043652267913829104424453152065363373444247972138387934002476851683108699844int);
    lemma_pow_step(5int, 28948022309329048855892746252171976963363056481941560715954676764349967630337int, 1766847064778384329583297500742918515830264677852878461667155564230344704nat, 12043652267913829104424453152065363373444247972138387934002476851683108699844int, 0nat, 3533694129556768659166595001485837031660529355705756923334311128460689408nat, 1674990072596474548996780762090548712788842389735467493870383261050817303250int);
    lemma_pow_step(5int, 28948022309329048855892746252171976963363056481941560715954676764349967630337int, 3533694129556768659166595001485837031660529355705756923334311128460689408nat, 1674990072596474548996780762090548712788842389735467493870383261050817303250int, 0nat, 7067388259113537318333190002971674063321058711411513846668622256921378816nat, 1147358278881152226139897583034437610548207651353113727904064508220574543873int);
    lemma_pow_step(5int, 28948022309329048855892746252171976963363056481941560715954676764349967630337int, 7067388259113537318333190002971674063321058711411513846668622256921378816nat, 1147358278881152226139897583034437610548207651353113727904064508220574543873int, 0nat, 14134776518227074636666380005943348126642117422823027693337244513842757632nat, 10903770050551191186451481744535548418731134600017891582826719412432433936403int);
    lemma_pow_step(5int, 28948022309329048855892746252171976963363056481941560715954676764349967630337int, 14134776518227074636666380005943348126642117422823027693337244513842757632nat, 10903770050551191186451481744535548418731134600017891582826719412432433936403int, 0nat, 28269553036454149273332760011886696253284234845646055386674489027685515264nat, 9106099894445439554041483310221810032050718587061999431783437374285003063682int);
    lemma_pow_step(5int, 28948022309329048855892746252171976963363056481941560715954676764349967630337int, 28269553036454149273332760011886696253284234845646055386674489027685515264nat, 9106099894445439554041483310221810032050718587061999431783437374285003063682int, 0nat, 56539106072908298546665520023773392506568469691292110773348978055371030528nat, 5752965684179714134970464751995402357640113293282967639033716269094137333220int);
    lemma_pow_step(5int, 28948022309329048855892746252171976963363056481941560715954676764349967630337int, 56539106072908298546665520023773392506568469691292110773348978055371030528nat, 5752965684179714134970464751995402357640113293282967639033716269094137333220int, 0nat, 113078212145816597093331040047546785013136939382584221546697956110742061056nat, 15295047314588049363205688878885713081714252101405780765746130714907616084937int);
    lemma_pow_step(5int, 28948022309329048855892746252171976963363056481941560715954676764349967630337int, 113078212145816597093331040047546785013136939382584221546697956110742061056nat, 15295047314588049363205688878885713081714252101405780765746130714907616084937int, 0nat, 226156424291633194186662080095093570026273878765168443093395912221484122112nat, 288195195989970865595953050291169946180633938140535531749119684549404807107int);
    lemma_pow_step(5int, 28948022309329048855892746252171976963363056481941560715954676764349967630337int, 226156424291633194186662080095093570026273878765168443093395912221484122112nat, 288195195989970865595953050291169946180633938140535531749119684549404807107int, 0nat, 452312848583266388373324160190187140052547757530336886186791824442968244224nat, 11040656779064531051815708477879237280965365687019251452313259605788299423418int);
    lemma_pow_step(5int, 28948022309329048855892746252171976963363056481941560715954676764349967630337int, 452312848583266388373324160190187140052547757530336886186791824442968244224nat, 11040656779064531051815708477879237280965365687019251452313259605788299423418int, 0nat, 904625697166532776746648320380374280105095515060673772373583648885936488448nat, 5772676229766982871441818714777438643955918462675337216809979342233538361548int);
    lemma_pow_step(5int, 28948022309329048855892746252171976963363056481941560715954676764349967630337int, 904625697166532776746648320380374280105095515060673772373583648885936488448nat, 5772676229766982871441818714777438643955918462675337216809979342233538361548int, 0nat, 1809251394333065553493296640760748560210191030121347544747167297771872976896nat, 10810933018019022645195840712901647754980539521123437677405037345586003209325int);
    lemma_pow_step(5int, 28948022309329048855892746252171976963363056481941560715954676764349967630337int, 1809251394333065553493296640760748560210191030121347544747167297771872976896nat, 10810933018019022645195840712901647754980539521123437677405037345586003209325int, 0nat, 3618502788666131106986593281521497120420382060242695089494334595543745953792nat, 28748567179285097778645480393348152976133485958885051689470484605533749429678int);
    lemma_pow_step(5int, 28948022309329048855892746252171976963363056481941560715954676764349967630337int, 3618502788666131106986593281521497120420382060242695089494334595543745953792nat, 28748567179285097778645480393348152976133485958885051689470484605533749429678int, 0nat, 7237005577332262213973186563042994240840764120485390178988669191087491907584nat, 24760239192664116622385963963284001971067308018068707868888628426778644166363int);
    lemma_pow_step(5int, 28948022309329048855892746252171976963363056481941560715954676764349967630337int, 7237005577332262213973186563042994240840764120485390178988669191087491907584nat, 24760239192664116622385963963284001971067308018068707868888628426778644166363int, 0nat, 14474011154664524427946373126085988481681528240970780357977338382174983815168nat, 28948022309329048855892746252171976963363056481941560715954676764349967630336int);
}

/// `5^9649340769776349618630915417390658987787685493980520238651558921449989210112` modulo `28948022309329048855892746252171976963363056481941560715954676764349967630337`, by square-and-multiply.
proof fn lemma_pow_28948022309329048855892746252171976963363056481941560715954676764349967630337_by_3()
    ensures
        pow(5int, 9649340769776349618630915417390658987787685493980520238651558921449989210112nat) % 28948022309329048855892746252171976963363056481941560715954676764349967630337int == 20444556541222657078399132219657928148671392403212669005631716460534733845831int,
{
    lemma_pow_start(5int, 28948022309329048855892746252171976963363056481941560715954676764349967630337int, 5int);
    lemma_pow_step(5int, 28948022309329048855892746252171976963363056481941560715954676764349967630337int, 1nat, 5int, 0nat, 2nat, 25int);
    lemma_pow_step(5int, 28948022309329048855892746252171976963363056481941560715954676764349967630337int, 2nat, 25int, 1nat, 5nat, 3125int);
    lemma_pow_step(5int, 28948022309329048855892746252171976963363056481941560715954676764349967630337int, 5nat, 3125int, 0nat, 10nat, 9765625int);
    lemma_pow_step(5int, 28948022309329048855892746252171976963363056481941560715954676764349967630337int, 10nat, 9765625int, 1nat, 21nat, 476837158203125int);
    lemma_pow_step(5int, 28948022309329048855892746252171976963363056481941560715954676764349967630337int, 21nat, 476837158203125int, 0nat, 42nat, 227373675443232059478759765625int);
    lemma_pow_step(5int, 28948022309329048855892746252171976963363056481941560715954676764349967630337int, 42nat, 227373675443232059478759765625int, 1nat, 85nat, 258493941422821148397315216271863391739316284656524658203125int);
    lemma_pow_step(5int, 28948022309329048855892746252171976963363056481941560715954676764349967630337int, 85nat, 258493941422821148397315216271863391739316284656524658203125int, 0nat, 170nat, 16258328070982186133855947204445276548941445413968671985200974581808914644385int);
    lemma_pow_step(5int, 28948022309329048855892746252171976963363056481941560715954676764349967630337int, 170nat, 16258328070982186133855947204445276548941445413968671985200974581808914644385int, 1nat, 341nat, 24391888598609695014019233893471604943878982449989767726344667948154370627614int);
    lemma_pow_step(5int, 28948022309329048855892746252171976963363056481941560715954676764349967630337int, 341nat, 24391888598609695014019233893471604943878982449989767726344667948154370627614int, 0nat, 682nat, 25916325459966980240445088604520493979022664168671268929337176588946997809183int);
    lemma_pow_step(5int, 28948022309329048855892746252171976963363056481941560715954676764349967630337int, 682nat, 25916325459966980240445088604520493979022664168671268929337176588946997809183int, 1nat, 1365nat, 25174291029372998258936352097630450239271417390285484576181699737648521189366int);
    lemma_pow_step(5int, 28948022309329048855892746252171976963363056481941560715954676764349967630337int, 1365nat, 25174291029372998258936352097630450239271417390285484576181699737648521189366int, 0nat, 2730nat, 10774363562856601843333067853537226441314095251342040031083059736872034867633int);
    lemma_pow_step(5int, 28948022309329048855892746252171976963363056481941560715954676764349967630337int, 2730nat, 10774363562856601843333067853537226441314095251342040031083059736872034867633int, 1nat, 5461nat, 3753683749144174430774453974631058524664358426331750198546781003736396690882int);
    lemma_pow_step(5int, 28948022309329048855892746252171976963363056481941560715954676764349967630337int, 5461nat, 3753683749144174430774453974631058524664358426331750198546781003736396690882int, 0nat, 10922nat, 17074246786777363379550108869330361854344056681590282025397608712307025185585int);
    lemma_pow_step(5int, 28948022309329048855892746252171976963363056481941560715954676764349967630337int, 10922nat, 17074246786777363379550108869330361854344056681590282025397608712307025185585int, 1nat, 21845nat, 5826781933736712365274390402486223685026016783115910439631137635419604078564int);
    lemma_pow_step(5int, 28948022309329048855892746252171976963363056481941560715954676764349967630337int, 21845nat, 5826781933736712365274390402486223685026016783115910439631137635419604078564int, 0nat, 43690nat, 23559477769463403958826821015584454476221113184691746282021653587071308761581int);
    lemma_pow_step(5int, 28948022309329048855892746252171976963363056481941560715954676764349967630337int, 43690nat, 23559477769463403958826821015584454476221113184691746282021653587071308761581int, 1nat, 87381nat, 28570916731853565579695338205874993424558186939255264648042762625683986408186int);
    lemma_pow_step(5int, 28948022309329048855892746252171976963363056481941560715954676764349967630337int, 87381nat, 28570916731853565579695338205874993424558186939255264648042762625683986408186int, 0nat, 174762nat, 11519618664505685313635551664764672024493538623900944148045286399456320456969int);
    lemma_pow_step(5int, 28948022309329048855892746252171976963363056481941560715954676764349967630337int, 174762nat, 11519618664505685313635551664764672024493538623900944148045286399456320456969int, 1nat, 349525nat, 23510792324175875804707249823719425446828925270326649677377281051389992880752int);
    lemma_pow_step(5int, 28948022309329048855892746252171976963363056481941560715954676764349967630337int, 349525nat, 23510792324175875804707249823719425446828925270326649677377281051389992880752int, 0nat, 699050nat, 10435283871445293766642506828548485884013727857848071351391894771137543300812int);
    lemma_pow_step(5int, 28948022309329048855892746252171976963363056481941560715954676764349967630337int, 699050nat, 10435283871445293766642506828548485884013727857848071351391894771137543300812int, 1nat, 1398101nat, 10520648472880435158544434470950193007294377945119291107353481359089837359536int);
    lemma_pow_step(5int, 28948022309329048855892746252171976963363056481941560715954676764349967630337int, 1398101nat, 10520648472880435158544434470950193007294377945119291107353481359089837359536int, 0nat, 2796202nat, 21154318991269703141132396883911086876144689184626459879271459215228869935311int);
    lemma_pow_step(5int, 28948022309329048855892746252171976963363056481941560715954676764349967630337int, 2796202nat, 21154318991269703141132396883911086876144689184626459879271459215228869935311int, 1nat, 5592405nat, 1267741554168968280362292090015810061373088804260978042440139796651878249100int);
    lemma_pow_step(5int, 28948022309329048855892746252171976963363056481941560715954676764349967630337int, 5592405nat, 1267741554168968280362292090015810061373088804260978042440139796651878249100int, 0nat, 11184810nat, 20556886784483645409124723451881172962478585423314093534016092840558031874990int);
    lemma_pow_step(5int, 28948022309329048855892746252171976963363056481941560715954676764349967630337int, 11184810nat, 20556886784483645409124723451881172962478585423314093534016092840558031874990int, 1nat, 22369621nat, 21432302797971438758151039644130558789096999978091599524315226364003412654109int);
    lemma_pow_step(5int, 28948022309329048855892746252171976963363056481941560715954676764349967630337int, 22369621nat, 21432302797971438758151039644130558789096999978091599524315226364003412654109int, 0nat, 44739242nat, 5041384852777530460462556010704994938416941385167406297185922799026660524898int);
    lemma_pow_step(5int, 28948022309329048855892746252171976963363056481941560715954676764349967630337int, 44739242nat, 5041384852777530460462556010704994938416941385167406297185922799026660524898int, 1nat, 89478485nat, 6899588714232351128940926850135816770751929301997390184476417406628707552291int);
    lemma_pow_step(5int, 28948022309329048855892746252171976963363056481941560715954676764349967630337int, 89478485nat, 6899588714232351128940926850135816770751929301997390184476417406628707552291int, 0nat, 178956970nat, 14679367666446640455284052733803478678533151204874187031704652372113382344179int);
    lemma_pow_step(5int, 28948022309329048855892746252171976963363056481941560715954676764349967630337int, 178956970nat, 14679367666446640455284052733803478678533151204874187031704652372113382344179int, 1nat, 357913941nat, 28355439519104314342602157616207651006635689790947081980110606372877005746897int);
    lemma_pow_step(5int, 28948022309329048855892746252171976963363056481941560715954676764349967630337int, 357913941nat, 28355439519104314342602157616207651006635689790947081980110606372877005746897int, 0nat, 715827882nat, 6718961890808295939909346305149277825163041058062773680325243434872853521286int);
    lemma_pow_step(5int, 28948022309329048855892746252171976963363056481941560715954676764349967630337int, 715827882nat, 6718961890808295939909346305149277825163041058062773680325243434872853521286int, 1nat, 1431655765nat, 3652754366443808195333488392978156592617641408135214180961647503292707563088int);
    lemma_pow_step(5int, 28948022309329048855892746252171976963363056481941560715954676764349967630337int, 1431655765nat, 3652754366443808195333488392978156592617641408135214180961647503292707563088int, 0nat, 2863311530nat, 6054777734202649877387686395259812680946801191806771306662630160252744244481int);
    lemma_pow_step(5int, 28948022309329048855892746252171976963363056481941560715954676764349967630337int, 2863311530nat, 6054777734202649877387686395259812680946801191806771306662630160252744244481int, 1nat, 5726623061nat, 4123294755153087640931784974760677448409740038519376921685380273135198210711int);
    lemma_pow_step(5int, 28948022309329048855892746252171976963363056481941560715954676764349967630337int, 5726623061nat, 4123294755153087640931784974760677448409740038519376921685380273135198210711int, 0nat, 11453246122nat, 22243345710282427341391718214343450415727171342625132897384296386279674084863int);
    lemma_pow_step(5int, 28948022309329048855892746252171976963363056481941560715954676764349967630337int, 11453246122nat, 22243345710282427341391718214343450415727171342625132897384296386279674084863int, 1nat, 22906492245nat, 1366169792208622387106200996249723523614201162175259801390316729664182933926int);
    lemma_pow_step(5int, 28948022309329048855892746252171976963363056481941560715954676764349967630337int, 22906492245nat, 1366169792208622387106200996249723523614201162175259801390316729664182933926int, 0nat, 45812984490nat, 6073843808058661681453390125482603332264776502200701837210336806789080363759int);
    lemma_pow_step(5int, 28948022309329048855892746252171976963363056481941560715954676764349967630337int, 45812984490nat, 6073843808058661681453390125482603332264776502200701837210336806789080363759int, 1nat, 91625968981nat, 8461623892667915857149026899665797110897868140646075418565003830895840077980int);
    lemma_pow_step(5int, 28948022309329048855892746252171976963363056481941560715954676764349967630337int, 91625968981nat, 8461623892667915857149026899665797110897868140646075418565003830895840077980int, 0nat, 183251937962nat, 26402674542817285069945828727645504822076938596759241041266341045660874954402int);
    lemma_pow_step(5int, 28948022309329048855892746252171976963363056481941560715954676764349967630337int, 183251937962nat, 26402674542817285069945828727645504822076938596759241041266341045660874954402int, 1nat, 366503875925nat, 26741637028123047930795430001485550969880005414202027464018645623145281201876int);
    lemma_pow_step(5int, 28948022309329048855892746252171976963363056481941560715954676764349967630337int, 366503875925nat, 26741637028123047930795430001485550969880005414202027464018645623145281201876int, 0nat, 733007751850nat, 1050685824754753412698136796560187806126614727578326951971587922781296559746int);
    lemma_pow_step(5int, 28948022309329048855892746252171976963363056481941560715954676764349967630337int, 733007751850nat, 1050685824754753412698136796560187806126614727578326951971587922781296559746int, 1nat, 1466015503701nat, 4108506320860471566493325916746182738075577074505463012213773696759427157732int);
    lemma_pow_step(5int, 28948022309329048855892746252171976963363056481941560715954676764349967630337int, 1466015503701nat, 4108506320860471566493325916746182738075577074505463012213773696759427157732int, 0nat, 2932031007402nat, 28158862252950960092896201020446101738435516476883705618302911155682993886418int);
    lemma_pow_step(5int, 28948022309329048855892746252171976963363056481941560715954676764349967630337int, 2932031007402nat, 28158862252950960092896201020446101738435516476883705618302911155682993886418int, 1nat, 5864062014805nat, 20893020816099661176780718732566242056620389507036125300693231522878472676211int);
    lemma_pow_step(5int, 28948022309329048855892746252171976963363056481941560715954676764349967630337int, 5864062014805nat, 20893020816099661176780718732566242056620389507036125300693231522878472676211int, 0nat, 11728124029610nat, 23328750335774363083586176258780991654239922339398428045956283351688927955909int);
    lemma_pow_step(5int, 28948022309329048855892746252171976963363056481941560715954676764349967630337int, 11728124029610nat, 23328750335774363083586176258780991654239922339398428045956283351688927955909int, 1nat, 23456248059221nat, 11775960703739809840611560529398525725247526462049212289418178101540900690623int);
    lemma_pow_step(5int, 28948022309329048855892746252171976963363056481941560715954676764349967630337int, 23456248059221nat, 11775960703739809840611560529398525725247526462049212289418178101540900690623int, 0nat, 46912496118442nat, 15004919465277316958249852525603035760911835657562151221426375294924474745179int);
    lemma_pow_step(5int, 28948022309329048855892746252171976963363056481941560715954676764349967630337int, 46912496118442nat, 15004919465277316958249852525603035760911835657562151221426375294924474745179int, 1nat, 93824992236885nat, 16540495354683559958521932970126251536241616142592772394085651932664770397527int);
    lemma_pow_step(5int, 28948022309329048855892746252171976963363056481941560715954676764349967630337int, 93824992236885nat, 16540495354683559958521932970126251536241616142592772394085651932664770397527int, 0nat, 187649984473770nat, 239632502971064310775442497146267482954399298772724747057394582735333959440int);
    lemma_pow_step(5int, 28948022309329048855892746252171976963363056481941560715954676764349967630337int, 187649984473770nat, 239632502971064310775442497146267482954399298772724747057394582735333959440int, 1nat, 375299968947541nat, 13429607633954388652899115961982389067629888750030049315255254784925848715666int);
    lemma_pow_step(5int, 28948022309329048855892746252171976963363056481941560715954676764349967630337int, 375299968947541nat, 13429607633954388652899115961982389067629888750030049315255254784925848715666int, 0nat, 750599937895082nat, 16709234877158127753253406011018285599053424128302435814315293189882796801353int);
    lemma_pow_step(5int, 28948022309329048855892746252171976963363056481941560715954676764349967630337int, 750599937895082nat, 16709234877158127753253406011018285599053424128302435814315293189882796801353int, 1nat, 1501199875790165nat, 9447565311711475288917702625019911348917547404993405211212459958491457385929int);
    lemma_pow_step(5int, 28948022309329048855892746252171976963363056481941560715954676764349967630337int, 1501199875790165nat, 9447565311711475288917702625019911348917547404993405211212459958491457385929int, 0nat, 3002399751580330nat, 1885032082107575811305725140156125165146582827002781386564430912734782562866int);
    lemma_pow_step(5int, 28948022309329048855892746252171976963363056481941560715954676764349967630337int, 3002399751580330nat, 1885032082107575811305725140156125165146582827002781386564430912734782562866int, 1nat, 6004799503160661nat, 21198369275930348918674636280664899898195833836525995530737713669800588292780int);
    lemma_pow_step(5int, 28948022309329048855892746252171976963363056481941560715954676764349967630337int, 6004799503160661nat, 21198369275930348918674636280664899898195833836525995530737713669800588292780int, 0nat, 12009599006321322nat, 9876993626130072207430296340236658361723347801212074997062430159552192474289int);
    lemma_pow_step(5int, 28948022309329048855892746252171976963363056481941560715954676764349967630337int, 12009599006321322nat, 9876993626130072207430296340236658361723347801212074997062430159552192474289int, 1nat, 24019198012642645nat, 5114997759552518064545982982438532862751311772647296342100470251282262962263int);
    lemma_pow_step(5int, 28948022309329048855892746252171976963363056481941560715954676764349967630337int, 24019198012642645nat, 5114997759552518064545982982438532862751311772647296342100470251282262962263int, 0nat, 48038396025285290nat, 19221526748457031780598344577997731687001259838391926832127023602888507288522int);
    lemma_pow_step(5int, 28948022309329048855892746252171976963363056481941560715954676764349967630337int, 48038396025285290nat, 19221526748457031780598344577997731687001259838391926832127023602888507288522int, 1nat, 96076792050570581nat, 19305384202062654597685319616156533189943110713868946423474833455823326886642int);
    lemma_pow_step(5int, 28948022309329048855892746252171976963363056481941560715954676764349967630337int, 96076792050570581nat, 19305384202062654597685319616156533189943110713868946423474833455823326886642int, 0nat, 192153584101141162nat, 5036404819421828377386710364044787929429005056987322948618028824425998540426int);
    lemma_pow_step(5int, 28948022309329048855892746252171976963363056481941560715954676764349967630337int, 192153584101141162nat, 5036404819421828377386710364044787929429005056987322948618028824425998540426int, 1nat, 384307168202282325nat, 4878398402865956883057369440733720877873395609923403147290189109473774570495int);
    lemma_pow_step(5int, 28948022309329048855892746252171976963363056481941560715954676764349967630337int, 384307168202282325nat, 4878398402865956883057369440733720877873395609923403147290189109473774570495int, 0nat, 768614336404564650nat, 9569348054273957499348119976619766122832139490288555898198248723767323695228int);
    lemma_pow_step(5int, 28948022309329048855892746252171976963363056481941560715954676764349967630337int, 768614336404564650nat, 9569348054273957499348119976619766122832139490288555898198248723767323695228int, 1nat, 1537228672809129301nat, 13442860116542399481497794974567382772534453665327705895668739361608894172550int);
    lemma_pow_step(5int, 28948022309329048855892746252171976963363056481941560715954676764349967630337int, 1537228672809129301nat, 13442860116542399481497794974567382772534453665327705895668739361608894172550int, 0nat, 3074457345618258602nat, 7954265420020605904955849660249723700763678894231956399828779450824191270297int);
    lemma_pow_step(5int, 28948022309329048855892746252171976963363056481941560715954676764349967630337int, 3074457345618258602nat, 7954265420020605904955849660249723700763678894231956399828779450824191270297int, 1nat, 6148914691236517205nat, 4362936071608540112172218457582300522011939923979376913819235426053182373013int);
    lemma_pow_step(5int, 28948022309329048855892746252171976963363056481941560715954676764349967630337int, 6148914691236517205nat, 4362936071608540112172218457582300522011939923979376913819235426053182373013int, 0nat, 12297829382473034410nat, 9600729832486974952756556675673467594219760032507669697299913377939161163062int);
    lemma_pow_step(5int, 28948022309329048855892746252171976963363056481941560715954676764349967630337int, 12297829382473034410nat, 9600729832486974952756556675673467594219760032507669697299913377939161163062int, 1nat, 24595658764946068821nat, 16994480834937024458907970716274833454556870389176626323258907611052225057676int);
    lemma_pow_step(5int, 28948022309329048855892746252171976963363056481941560715954676764349967630337int, 24595658764946068821nat, 16994480834937024458907970716274833454556870389176626323258907611052225057676int, 0nat, 49191317529892137642nat, 10250653267408495836247543503571760974297502476975402468326136240107857880857int);
    lemma_pow_step(5int, 28948022309329048855892746252171976963363056481941560715954676764349967630337int, 49191317529892137642nat, 10250653267408495836247543503571760974297502476975402468326136240107857880857int, 1nat, 98382635059784275285nat, 1413762985223660883490381295427907827855853602085872176653498210334044373308int);
    lemma_pow_step(5int, 28948022309329048855892746252171976963363056481941560715954676764349967630337int, 98382635059784275285nat, 1413762985223660883490381295427907827855853602085872176653498210334044373308int, 0nat, 196765270119568550570nat, 3678275842391219714533796839859387302397664421068878642469368800119811027638int);
    lemma_pow_step(5int, 28948022309329048855892746252171976963363056481941560715954676764349967630337int, 196765270119568550570nat, 3678275842391219714533796839859387302397664421068878642469368800119811027638int, 1nat, 393530540239137101141nat, 4602949809558104897149551212670038131310782729509682983610551577735597018850int);
    lemma_pow_step(5int, 28948022309329048855892746252171976963363056481941560715954676764349967630337int, 393530540239137101141nat, 4602949809558104897149551212670038131310782729509682983610551577735597018850int, 0nat, 787061080478274202282nat, 7606890223315925398312320010313558436583046821960331310032328434417765612357int);
    lemma_pow_step(5int, 28948022309329048855892746252171976963363056481941560715954676764349967630337int, 787061080478274202282nat, 7606890223315925398312320010313558436583046821960331310032328434417765612357int, 1nat, 1574122160956548404565nat, 15900271016378307776189623984123146685053229353087595500032541726101110717692int);
    lemma_pow_step(5int, 28948022309329048855892746252171976963363056481941560715954676764349967630337int, 1574122160956548404565nat, 15900271016378307776189623984123146685053229353087595500032541726101110717692int, 0nat, 3148244321913096809130nat, 6469699797164709640574914793528981498340056223494905759398961811325622324843int);
    lemma_pow_step(5int, 28948022309329048855892746252171976963363056481941560715954676764349967630337int, 3148244321913096809130nat, 6469699797164709640574914793528981498340056223494905759398961811325622324843int, 1nat, 6296488643826193618261nat, 10697181648711235854755149178335104808787311192512417018231773673202311410021int);
    lemma_pow_step(5int, 28948022309329048855892746252171976963363056481941560715954676764349967630337int, 6296488643826193618261nat, 10697181648711235854755149178335104808787311192512417018231773673202311410021int, 0nat, 12592977287652387236522nat, 4974252382322094715628272124133099024674448873719597191514797259975730498481int);
    lemma_pow_step(5int, 28948022309329048855892746252171976963363056481941560715954676764349967630337int, 12592977287652387236522nat, 4974252382322094715628272124133099024674448873719597191514797259975730498481int, 1nat, 25185954575304774473045nat, 277406441298348326723127541793772961313089884613546773466089583823550903247int);
    lemma_pow_step(5int, 28948022309329048855892746252171976963363056481941560715954676764349967630337int, 25185954575304774473045nat, 277406441298348326723127541793772961313089884613546773466089583823550903247int, 0nat, 50371909150609548946090nat, 2912664805777749137132827455532935536034502391200514665183598841096216282709int);
    lemma_pow_step(5int, 28948022309329048855892746252171976963363056481941560715954676764349967630337int, 50371909150609548946090nat, 2912664805777749137132827455532935536034502391200514665183598841096216282709int, 1nat, 100743818301219097892181nat, 14930735321087456487095743066635689990265152897627479887197160211552594845764int);
    lemma_pow_step(5int, 28948022309329048855892746252171976963363056481941560715954676764349967630337int, 100743818301219097892181nat, 14930735321087456487095743066635689990265152897627479887197160211552594845764int, 0nat, 201487636602438195784362nat, 1502104400881864237520838005818339746673676123414339496829599717347004190945int);
    lemma_pow_step(5int, 28948022309329048855892746252171976963363056481941560715954676764349967630337int, 201487636602438195784362nat, 1502104400881864237520838005818339746673676123414339496829599717347004190945int, 1nat, 402975273204876391568725nat, 19594100652903138322049998044764833690269177995155834669393186426701003439077int);
    lemma_pow_step(5int, 28948022309329048855892746252171976963363056481941560715954676764349967630337int, 402975273204876391568725nat, 19594100652903138322049998044764833690269177995155834669393186426701003439077int, 0nat, 805950546409752783137450nat, 8765524639922984929108260318102098254147593742843599454936316673902348234564int);
    lemma_pow_step(5int, 28948022309329048855892746252171976963363056481941560715954676764349967630337int, 805950546409752783137450nat, 8765524639922984929108260318102098254147593742843599454936316673902348234564int, 1nat, 1611901092819505566274901nat, 16338262173226196648415888865453098239761334897187022723988205544880335667308int);
    lemma_pow_step(5int, 28948022309329048855892746252171976963363056481941560715954676764349967630337int, 1611901092819505566274901nat, 16338262173226196648415888865453098239761334897187022723988205544880335667308int, 0nat, 3223802185639011132549802nat, 26825600744121496289575784752954289228507885832006782893866079892263362430402int);
    lemma_pow_step(5int, 28948022309329048855892746252171976963363056481941560715954676764349967630337int, 3223802185639011132549802nat, 26825600744121496289575784752954289228507885832006782893866079892263362430402int, 1nat, 6447604371278022265099605nat, 24618210284012840311225151362760234419656549737205137735245384590366222161014int);
    lemma_pow_step(5int, 28948022309329048855892746252171976963363056481941560715954676764349967630337int, 6447604371278022265099605nat, 24618210284012840311225151362760234419656549737205137735245384590366222161014int, 0nat, 12895208742556044530199210nat, 15605147009473854751227983640041501629680969083102189484752395633746529865754int);
    lemma_pow_step(5int, 28948022309329048855892746252171976963363056481941560715954676764349967630337int, 12895208742556044530199210nat, 15605147009473854751227983640041501629680969083102189484752395633746529865754int, 1nat, 25790417485112089060398421nat, 11682338641806316672921004643331848821462861250260834735804817921426967416679int);
    lemma_pow_step(5int, 28948022309329048855892746252171976963363056481941560715954676764349967630337int, 25790417485112089060398421nat, 11682338641806316672921004643331848821462861250260834735804817921426967416679int, 0nat, 51580834970224178120796842nat, 24713917504668768268050507378564311760766209430050405383496045142533880974174int);
    lemma_pow_step(5int, 28948022309329048855892746252171976963363056481941560715954676764349967630337int, 51580834970224178120796842nat, 24713917504668768268050507378564311760766209430050405383496045142533880974174int, 1nat, 103161669940448356241593685nat, 5829279261617771256842073482641358903982561610416995029761357031327073159301int);
    lemma_pow_step(5int, 28948022309329048855892746252171976963363056481941560715954676764349967630337int, 103161669940448356241593685nat, 5829279261617771256842073482641358903982561610416995029761357031327073159301int, 0nat, 206323339880896712483187370nat, 18638379557826077672788772688031072595231896938821647867438004539412857560102int);
    lemma_pow_step(5int, 28948022309329048855892746252171976963363056481941560715954676764349967630337int, 206323339880896712483187370nat, 18638379557826077672788772688031072595231896938821647867438004539412857560102int, 1nat, 412646679761793424966374741nat, 21375525861690488506653900838032457454407987774703930142381113411711669131983int);
    lemma_pow_step(5int, 28948022309329048855892746252171976963363056481941560715954676764349967630337int, 412646679761793424966374741nat, 21375525861690488506653900838032457454407987774703930142381113411711669131983int, 0nat, 825293359523586849932749482nat, 11719861631635067590617252250982318193843242307911040562381043909915903303402int);
    lemma_pow_step(5int, 28948022309329048855892746252171976963363056481941560715954676764349967630337int, 825293359523586849932749482nat, 11719861631635067590617252250982318193843242307911040562381043909915903303402int, 1nat, 1650586719047173699865498965nat, 3017370921999724967289778581544053353496472468261365558321700658270062728535int);
    lemma_pow_step(5int, 28948022309329048855892746252171976963363056481941560715954676764349967630337int, 1650586719047173699865498965nat, 3017370921999724967289778581544053353496472468261365558321700658270062728535int, 0nat, 3301173438094347399730997930nat, 27721033605033820895992202264746099631397024099091053250243647740961497569500int);
    lemma_pow_step(5int, 28948022309329048855892746252171976963363056481941560715954676764349967630337int, 3301173438094347399730997930nat, 27721033605033820895992202264746099631397024099091053250243647740961497569500int, 1nat, 6602346876188694799461995861nat, 12460634454079218292502185634207690755668812482950042456549309458231147220244int);
    lemma_pow_step(5int, 28948022309329048855892746252171976963363056481941560715954676764349967630337int, 6602346876188694799461995861nat, 12460634454079218292502185634207690755668812482950042456549309458231147220244int, 0nat, 13204693752377389598923991722nat, 22817639345450744028501920781916223479509670382525847328530187386795511722190int);
    lemma_pow_step(5int, 28948022309329048855892746252171976963363056481941560715954676764349967630337int, 13204693752377389598923991722nat, 22817639345450744028501920781916223479509670382525847328530187386795511722190int, 1nat, 26409387504754779197847983445nat, 19089824918832439669687659744801922279469807148639585562124958549752082141537int);
    lemma_pow_step(5int, 28948022309329048855892746252171976963363056481941560715954676764349967630337int, 26409387504754779197847983445nat, 19089824918832439669687659744801922279469807148639585562124958549752082141537int, 0nat, 52818775009509558395695966890nat, 28556784053515723377814028639450469828673617252734793077877574012952395421384int);
    lemma_pow_step(5int, 28948022309329048855892746252171976963363056481941560715954676764349967630337int, 52818775009509558395695966890nat, 28556784053515723377814028639450469828673617252734793077877574012952395421384int, 1nat, 105637550019019116791391933781nat, 28116618787928206356629578616104528947662623141351087311858221914767974283015int);
    lemma_pow_step(5int, 28948022309329048855892746252171976963363056481941560715954676764349967630337int, 105637550019019116791391933781nat, 28116618787928206356629578616104528947662623141351087311858221914767974283015int, 0nat, 211275100038038233582783867562nat, 16473877586645330999748262308887356657144359975596182459868120637486637706067int);
    lemma_pow_step(5int, 28948022309329048855892746252171976963363056481941560715954676764349967630337int, 211275100038038233582783867562nat, 16473877586645330999748262308887356657144359975596182459868120637486637706067int, 1nat, 422550200076076467165567735125nat, 20574315036676696149705278531772673780276217480680285248732115825522349187853int);
    lemma_pow_step(5int, 28948022309329048855892746252171976963363056481941560715954676764349967630337int, 422550200076076467165567735125nat, 20574315036676696149705278531772673780276217480680285248732115825522349187853int, 0nat, 845100400152152934331135470250nat, 4920822435783238355330979757644385565757077893085483481113978629434104027649int);
    lemma_pow_step(5int, 28948022309329048855892746252171976963363056481941560715954676764349967630337int, 845100400152152934331135470250nat, 4920822435783238355330979757644385565757077893085483481113978629434104027649int, 1nat, 1690200800304305868662270940501nat, 1625134386032513354182101769858385454749307601560739138618137338127557944843int);
    lemma_pow_step(5int, 28948022309329048855892746252171976963363056481941560715954676764349967630337int, 1690200800304305868662270940501nat, 1625134386032513354182101769858385454749307601560739138618137338127557944843int, 0nat, 3380401600608611737324541881002nat, 7717268103563482214864017133014572575680430370180510151164871631236726893892int);
    lemma_pow_step(5int, 28948022309329048855892746252171976963363056481941560715954676764349967630337int, 3380401600608611737324541881002nat, 7717268103563482214864017133014572575680430370180510151164871631236726893892int, 1nat, 6760803201217223474649083762005nat, 2663700332237511903098001744025333786414396086812200835890535170833485139285int);
    lemma_pow_step(5int, 28948022309329048855892746252171976963363056481941560715954676764349967630337int, 6760803201217223474649083762005nat, 2663700332237511903098001744025333786414396086812200835890535170833485139285int, 0nat, 13521606402434446949298167524010nat, 8835157578034949562883120488265078169364301998996224092288927375619878644167int);
    lemma_pow_step(5int, 28948022309329048855892746252171976963363056481941560715954676764349967630337int, 13521606402434446949298167524010nat, 8835157578034949562883120488265078169364301998996224092288927375619878644167int, 1nat, 27043212804868893898596335048021nat, 7792109015053443974818924422345176149645934852344643633246448403099282217206int);
    lemma_pow_step(5int, 28948022309329048855892746252171976963363056481941560715954676764349967630337int, 27043212804868893898596335048021nat, 7792109015053443974818924422345176149645934852344643633246448403099282217206int, 0nat, 54086425609737787797192670096042nat, 26134705531658074882132391264597284402164168532672974892904730612638162419661int);
    lemma_pow_step(5int, 28948022309329048855892746252171976963363056481941560715954676764349967630337int, 54086425609737787797192670096042nat, 26134705531658074882132391264597284402164168532672974892904730612638162419661int, 1nat, 108172851219475575594385340192085nat, 11269603829698066988517858079297441302635750230224757419833884649865418993599int);
    lemma_pow_step(5int, 28948022309329048855892746252171976963363056481941560715954676764349967630337int, 108172851219475575594385340192085nat, 11269603829698066988517858079297441302635750230224757419833884649865418993599int, 0nat, 216345702438951151188770680384170nat, 4980934201232503866327487547934482157931140114004006004591606044309297123986int);
    lemma_pow_step(5int, 28948022309329048855892746252171976963363056481941560715954676764349967630337int, 216345702438951151188770680384170nat, 4980934201232503866327487547934482157931140114004006004591606044309297123986int, 1nat, 432691404877902302377541360768341nat, 1918182707906992611577249930090139806551967817457677220359764297321575878315int);
    lemma_pow_step(5int, 28948022309329048855892746252171976963363056481941560715954676764349967630337int, 432691404877902302377541360768341nat, 1918182707906992611577249930090139806551967817457677220359764297321575878315int, 0nat, 865382809755804604755082721536682nat, 8811529258353564116853298052016785856207530059835704868090240397715797016355int);
    lemma_pow_step(5int, 28948022309329048855892746252171976963363056481941560715954676764349967630337int, 865382809755804604755082721536682nat, 8811529258353564116853298052016785856207530059835704868090240397715797016355int, 1nat, 1730765619511609209510165443073365nat, 26239605397806607289829322043624472642375179924114465006018704441203675689299int);
    lemma_pow_step(5int, 28948022309329048855892746252171976963363056481941560715954676764349967630337int, 1730765619511609209510165443073365nat, 26239605397806607289829322043624472642375179924114465006018704441203675689299int, 0nat, 3461531239023218419020330886146730nat, 28187784175696542227945060380654250434593837659082687625487085736343678647807int);
    lemma_pow_step(5int, 28948022309329048855892746252171976963363056481941560715954676764349967630337int, 3461531239023218419020330886146730nat, 28187784175696542227945060380654250434593837659082687625487085736343678647807int, 1nat, 6923062478046436838040661772293461nat, 23760742714407231841309912392274394900484557795990942082584557857197152946960int);
    lemma_pow_step(5int, 28948022309329048855892746252171976963363056481941560715954676764349967630337int, 6923062478046436838040661772293461nat, 23760742714407231841309912392274394900484557795990942082584557857197152946960int, 0nat, 13846124956092873676081323544586922nat, 24073744933876041510407704372585303222659283709997110647458895432850507958976int);
    lemma_pow_step(5int, 28948022309329048855892746252171976963363056481941560715954676764349967630337int, 13846124956092873676081323544586922nat, 24073744933876041510407704372585303222659283709997110647458895432850507958976int, 1nat, 27692249912185747352162647089173845nat, 5788148542226800013632462503146336163423928112518498130091666177116636830605int);
    lemma_pow_step(5int, 28948022309329048855892746252171976963363056481941560715954676764349967630337int, 27692249912185747352162647089173845nat, 5788148542226800013632462503146336163423928112518498130091666177116636830605int, 0nat, 55384499824371494704325294178347690nat, 24459974872617647476069582847826003781508709770596968840140721843658849092818int);
    lemma_pow_step(5int, 28948022309329048855892746252171976963363056481941560715954676764349967630337int, 55384499824371494704325294178347690nat, 24459974872617647476069582847826003781508709770596968840140721843658849092818int, 1nat, 110768999648742989408650588356695381nat, 26204797478245175502520521733538975383385546338712777530794944241519863314108int);
    lemma_pow_step(5int, 28948022309329048855892746252171976963363056481941560715954676764349967630337int, 110768999648742989408650588356695381nat, 26204797478245175502520521733538975383385546338712777530794944241519863314108int, 0nat, 221537999297485978817301176713390762nat, 2409010604056877107560400380457604727149740866998546489362580194717534039298int);
    lemma_pow_step(5int, 28948022309329048855892746252171976963363056481941560715954676764349967630337int, 221537999297485978817301176713390762nat, 2409010604056877107560400380457604727149740866998546489362580194717534039298int, 1nat, 443075998594971957634602353426781525nat, 15029554856730965707783537458151558168235292935860587882586500809254233577497int);
    lemma_pow_step(5int, 28948022309329048855892746252171976963363056481941560715954676764349967630337int, 443075998594971957634602353426781525nat, 15029554856730965707783537458151558168235292935860587882586500809254233577497int, 0nat, 886151997189943915269204706853563050nat, 6384981522551812776775831400979765897566839887876115350552724787790196288497int);
    lemma_pow_step(5int, 28948022309329048855892746252171976963363056481941560715954676764349967630337int, 886151997189943915269204706853563050nat, 6384981522551812776775831400979765897566839887876115350552724787790196288497int, 1nat, 1772303994379887830538409413707126101nat, 13460628021910792588948317835510385987662597673377328887513009248575383998826int);
    lemma_pow_step(5int, 28948022309329048855892746252171976963363056481941560715954676764349967630337int, 1772303994379887830538409413707126101nat, 13460628021910792588948317835510385987662597673377328887513009248575383998826int, 0nat, 3544607988759775661076818827414252202nat, 3813337173501343057703232258626336445403754677693827176873601734626843693833int);
    lemma_pow_step(5int, 28948022309329048855892746252171976963363056481941560715954676764349967630337int, 3544607988759775661076818827414252202nat, 3813337173501343057703232258626336445403754677693827176873601734626843693833int, 1nat, 7089215977519551322153637654828504405nat, 16980411321274902376464647131773870548205209975501724424425866864654037521599int);
    lemma_pow_step(5int, 28948022309329048855892746252171976963363056481941560715954676764349967630337int, 7089215977519551322153637654828504405nat, 16980411321274902376464647131773870548205209975501724424425866864654037521599int, 0nat, 14178431955039102644307275309657008810nat, 10850332264193023480318707036052303656174394161815665182454511477103432018806int);
    lemma_pow_step(5int, 28948022309329048855892746252171976963363056481941560715954676764349967630337int, 14178431955039102644307275309657008810nat, 10850332264193023480318707036052303656174394161815665182454511477103432018806int, 1nat, 28356863910078205288614550619314017621nat, 15082773591845428410996669513770540370218223700983241573588230492768211204449int);
    lemma_pow_step(5int, 28948022309329048855892746252171976963363056481941560715954676764349967630337int, 28356863910078205288614550619314017621nat, 15082773591845428410996669513770540370218223700983241573588230492768211204449int, 0nat, 56713727820156410577229101238628035242nat, 14014196443064277669336713858273047635936554525429179539253479520265187979591int);
    lemma_pow_step(5int, 28948022309329048855892746252171976963363056481941560715954676764349967630337int, 56713727820156410577229101238628035242nat, 14014196443064277669336713858273047635936554525429179539253479520265187979591int, 1nat, 113427455640312821154458202477256070485nat, 23809070398161161987487414642374275631156385737567282828985270950198233945614int);
    lemma_pow_step(5int, 28948022309329048855892746252171976963363056481941560715954676764349967630337int, 113427455640312821154458202477256070485nat, 23809070398161161987487414642374275631156385737567282828985270950198233945614int, 1nat, 226854911280625642308916404954512140971nat, 21807607336848798034099839696709918059552322952763324571677395521323357658657int);
    lemma_pow_step(5int, 28948022309329048855892746252171976963363056481941560715954676764349967630337int, 226854911280625642308916404954512140971nat, 21807607336848798034099839696709918059552322952763324571677395521323357658657int, 0nat, 453709822561251284617832809909024281942nat, 16727974014334824751227872558230061937059634600178257509226901789285369345129int);
    lemma_pow_step(5int, 28948022309329048855892746252171976963363056481941560715954676764349967630337int, 453709822561251284617832809909024281942nat, 16727974014334824751227872558230061937059634600178257509226901789285369345129int, 0nat, 907419645122502569235665619818048563884nat, 7912375287574937244722030581986562656071816277253677771107936877428358125534int);
    lemma_pow_step(5int, 28948022309329048855892746252171976963363056481941560715954676764349967630337int, 907419645122502569235665619818048563884nat, 7912375287574937244722030581986562656071816277253677771107936877428358125534int, 0nat, 1814839290245005138471331239636097127768nat, 11288080950041553951666515317184117095636145683202359744346224496566998043496int);
    lemma_pow_step(5int, 28948022309329048855892746252171976963363056481941560715954676764349967630337int, 1814839290245005138471331239636097127768nat, 11288080950041553951666515317184117095636145683202359744346224496566998043496int, 0nat, 3629678580490010276942662479272194255536nat, 2016041948700859952226770334516032715574493760583894339552065552763118864015int);
    lemma_pow_step(5int, 28948022309329048855892746252171976963363056481941560715954676764349967630337int, 3629678580490010276942662479272194255536nat, 2016041948700859952226770334516032715574493760583894339552065552763118864015int, 0nat, 7259357160980020553885324958544388511072nat, 24789959537105910776452205763615723784080951180992120590360808391564597419164int);
    lemma_pow_step(5int, 28948022309329048855892746252171976963363056481941560715954676764349967630337int, 7259357160980020553885324958544388511072nat, 24789959537105910776452205763615723784080951180992120590360808391564597419164int, 1nat, 14518714321960041107770649917088777022145nat, 8961000066419205622163867986346939691417997624144169352428142100487412987880int);
    lemma_pow_step(5int, 28948022309329048855892746252171976963363056481941560715954676764349967630337int, 14518714321960041107770649917088777022145nat, 8961000066419205622163867986346939691417997624144169352428142100487412987880int, 1nat, 29037428643920082215541299834177554044291nat, 6965411883752907454688432415347654482988244832468198469120714592700826161763int);
    lemma_pow_step(5int, 28948022309329048855892746252171976963363056481941560715954676764349967630337int, 29037428643920082215541299834177554044291nat, 6965411883752907454688432415347654482988244832468198469120714592700826161763int, 0nat, 58074857287840164431082599668355108088582nat, 24454134014599131430702517717839798568749879556529543961529844063473444462773int);
    lemma_pow_step(5int, 28948022309329048855892746252171976963363056481941560715954676764349967630337int, 58074857287840164431082599668355108088582nat, 24454134014599131430702517717839798568749879556529543961529844063473444462773int, 0nat, 116149714575680328862165199336710216177164nat, 4809908650825363459825816322535264810588354242715907089526664990016819850236int);
    lemma_pow_step(5int, 28948022309329048855892746252171976963363056481941560715954676764349967630337int, 116149714575680328862165199336710216177164nat, 4809908650825363459825816322535264810588354242715907089526664990016819850236int, 0nat, 232299429151360657724330398673420432354328nat, 13822077395374440329282916385882659439032552433686245799410763892731781614272int);
    lemma_pow_step(5int, 28948022309329048855892746252171976963363056481941560715954676764349967630337int, 232299429151360657724330398673420432354328nat, 13822077395374440329282916385882659439032552433686245799410763892731781614272int, 0nat, 464598858302721315448660797346840864708656nat, 15802431698393253192452363731807367756465241560212980016313058098391027854496int);
    lemma_pow_step(5int, 28948022309329048855892746252171976963363056481941560715954676764349967630337int, 464598858302721315448660797346840864708656nat, 15802431698393253192452363731807367756465241560212980016313058098391027854496int, 1nat, 929197716605442630897321594693681729417313nat, 19667651853583266006722063482222518399130315140535773688975710425899652027891int);
    lemma_pow_step(5int, 28948022309329048855892746252171976963363056481941560715954676764349967630337int, 929197716605442630897321594693681729417313nat, 19667651853583266006722063482222518399130315140535773688975710425899652027891int, 0nat, 1858395433210885261794643189387363458834626nat, 15351409772579553434684742854896206140991176290966121071038673541920022617094int);
    lemma_pow_step(5int, 28948022309329048855892746252171976963363056481941560715954676764349967630337int, 1858395433210885261794643189387363458834626nat, 15351409772579553434684742854896206140991176290966121071038673541920022617094int, 0nat, 3716790866421770523589286378774726917669252nat, 15079474625108487327976893943805755600736455654356511993242922627523890582173int);
    lemma_pow_step(5int, 28948022309329048855892746252171976963363056481941560715954676764349967630337int, 3716790866421770523589286378774726917669252nat, 15079474625108487327976893943805755600736455654356511993242922627523890582173int, 0nat, 7433581732843541047178572757549453835338504nat, 13723242969610784785725857403359381196125564113361550446428244954668966553983int);
    lemma_pow_step(5int, 28948022309329048855892746252171976963363056481941560715954676764349967630337int, 7433581732843541047178572757549453835338504nat, 13723242969610784785725857403359381196125564113361550446428244954668966553983int, 1nat, 14867163465687082094357145515098907670677009nat, 19987617420291796766866611995484616045772828050682404455440678604272194895384int);
    lemma_pow_step(5int, 28948022309329048855892746252171976963363056481941560715954676764349967630337int, 14867163465687082094357145515098907670677009nat, 19987617420291796766866611995484616045772828050682404455440678604272194895384int, 1nat, 29734326931374164188714291030197815341354019nat, 26514846734484158786685337721923525862973078101700665840286020129466597890696int);
    lemma_pow_step(5int, 28948022309329048855892746252171976963363056481941560715954676764349967630337int, 29734326931374164188714291030197815341354019nat, 26514846734484158786685337721923525862973078101700665840286020129466597890696int, 0nat, 59468653862748328377428582060395630682708038nat, 5617616930330000224238450168002338390389505625198878071728818710756303942294int);
    lemma_pow_step(5int, 28948022309329048855892746252171976963363056481941560715954676764349967630337int, 59468653862748328377428582060395630682708038nat, 5617616930330000224238450168002338390389505625198878071728818710756303942294int, 0nat, 118937307725496656754857164120791261365416076nat, 10371215254104829279777337464299127162085530501885692389634160514297537439582int);
    lemma_pow_step(5int, 28948022309329048855892746252171976963363056481941560715954676764349967630337int, 118937307725496656754857164120791261365416076nat, 10371215254104829279777337464299127162085530501885692389634160514297537439582int, 1nat, 237874615450993313509714328241582522730832153nat, 19873541243704914915726685613296859804498314559570293651315738084952655133721int);
    lemma_pow_step(5int, 28948022309329048855892746252171976963363056481941560715954676764349967630337int, 237874615450993313509714328241582522730832153nat, 19873541243704914915726685613296859804498314559570293651315738084952655133721int, 0nat, 475749230901986627019428656483165045461664306nat, 6373264594875814364695415426180601060738909209422048009071625025713052784276int);
    lemma_pow_step(5int, 28948022309329048855892746252171976963363056481941560715954676764349967630337int, 475749230901986627019428656483165045461664306nat, 6373264594875814364695415426180601060738909209422048009071625025713052784276int, 1nat, 951498461803973254038857312966330090923328613nat, 4912230633961502781130816396118615478982348853745808821007975997721654870188int);
    lemma_pow_step(5int, 28948022309329048855892746252171976963363056481941560715954676764349967630337int, 951498461803973254038857312966330090923328613nat, 4912230633961502781130816396118615478982348853745808821007975997721654870188int, 1nat, 1902996923607946508077714625932660181846657227nat, 5920210999915366092910466047024835169308982160149285146747036054739066220233int);
    lemma_pow_step(5int, 28948022309329048855892746252171976963363056481941560715954676764349967630337int, 1902996923607946508077714625932660181846657227nat, 5920210999915366092910466047024835169308982160149285146747036054739066220233int, 1nat, 3805993847215893016155429251865320363693314455nat, 27967715103195060311093554950017182383767869950008378746236411523987907390387int);
    lemma_pow_step(5int, 28948022309329048855892746252171976963363056481941560715954676764349967630337int, 3805993847215893016155429251865320363693314455nat, 27967715103195060311093554950017182383767869950008378746236411523987907390387int, 1nat, 7611987694431786032310858503730640727386628911nat, 5216326696045239025565913699510835599693094873284172185734774627995601539549int);
    lemma_pow_step(5int, 28948022309329048855892746252171976963363056481941560715954676764349967630337int, 7611987694431786032310858503730640727386628911nat, 5216326696045239025565913699510835599693094873284172185734774627995601539549int, 1nat, 15223975388863572064621717007461281454773257823nat, 16972874961962121604427394701770106334884966960869759671751501856700827541012int);
    lemma_pow_step(5int, 28948022309329048855892746252171976963363056481941560715954676764349967630337int, 15223975388863572064621717007461281454773257823nat, 16972874961962121604427394701770106334884966960869759671751501856700827541012int, 1nat, 30447950777727144129243434014922562909546515647nat, 26343451960810418106901540088798325782422484205047218260885376335385189772161int);
    lemma_pow_step(5int, 28948022309329048855892746252171976963363056481941560715954676764349967630337int, 30447950777727144129243434014922562909546515647nat, 26343451960810418106901540088798325782422484205047218260885376335385189772161int, 1nat, 60895901555454288258486868029845125819093031295nat, 7888354516186164841835861220734923187106572581640231948472509519325716174336int);
    lemma_pow_step(5int, 28948022309329048855892746252171976963363056481941560715954676764349967630337int, 60895901555454288258486868029845125819093031295nat, 7888354516186164841835861220734923187106572581640231948472509519325716174336int, 0nat, 121791803110908576516973736059690251638186062590nat, 9655967591633529562248989656527179348297855289875089439103792134755755364958int);
    lemma_pow_step(5int, 28948022309329048855892746252171976963363056481941560715954676764349967630337int, 121791803110908576516973736059690251638186062590nat, 9655967591633529562248989656527179348297855289875089439103792134755755364958int, 1nat, 243583606221817153033947472119380503276372125181nat, 18782966453393569421496024178363188551125898197638079644231789778411239617053int);
    lemma_pow_step(5int, 28948022309329048855892746252171976963363056481941560715954676764349967630337int, 243583606221817153033947472119380503276372125181nat, 18782966453393569421496024178363188551125898197638079644231789778411239617053int, 0nat, 487167212443634306067894944238761006552744250362nat, 21774225741508742767037790106914579226405177855032195707122873024976637985455int);
    lemma_pow_step(5int, 28948022309329048855892746252171976963363056481941560715954676764349967630337int, 487167212443634306067894944238761006552744250362nat, 21774225741508742767037790106914579226405177855032195707122873024976637985455int, 1nat, 974334424887268612135789888477522013105488500725nat, 10657561762531971372706923285816175531779321836974814714672170472659213287093int);
    lemma_pow_step(5int, 28948022309329048855892746252171976963363056481941560715954676764349967630337int, 974334424887268612135789888477522013105488500725nat, 10657561762531971372706923285816175531779321836974814714672170472659213287093int, 0nat, 1948668849774537224271579776955044026210977001450nat, 28806176108420471874791329276912144929665060211163051224369089509297941668997int);
    lemma_pow_step(5int, 28948022309329048855892746252171976963363056481941560715954676764349967630337int, 1948668849774537224271579776955044026210977001450nat, 28806176108420471874791329276912144929665060211163051224369089509297941668997int, 1nat, 3897337699549074448543159553910088052421954002901nat, 2269223490685441337440572202698324700693311197067174220916647077459588759244int);
    lemma_pow_step(5int, 28948022309329048855892746252171976963363056481941560715954676764349967630337int, 3897337699549074448543159553910088052421954002901nat, 2269223490685441337440572202698324700693311197067174220916647077459588759244int, 1nat, 7794675399098148897086319107820176104843908005803nat, 15030106244447462327206793984895777992137602882521904494109408865076477556592int);
    lemma_pow_step(5int, 28948022309329048855892746252171976963363056481941560715954676764349967630337int, 7794675399098148897086319107820176104843908005803nat, 15030106244447462327206793984895777992137602882521904494109408865076477556592int, 0nat, 15589350798196297794172638215640352209687816011606nat, 8216300325199688239573249573126557527770068089193330369421042055213418785158int);
    lemma_pow_step(5int, 28948022309329048855892746252171976963363056481941560715954676764349967630337int, 15589350798196297794172638215640352209687816011606nat, 8216300325199688239573249573126557527770068089193330369421042055213418785158int, 1nat, 31178701596392595588345276431280704419375632023213nat, 22256473365032832105173360048733520889847630632105915489521302431527570341170int);
    lemma_pow_step(5int, 28948022309329048855892746252171976963363056481941560715954676764349967630337int, 31178701596392595588345276431280704419375632023213nat, 22256473365032832105173360048733520889847630632105915489521302431527570341170int, 1nat, 62357403192785191176690552862561408838751264046427nat, 3573219334162967073615017623797238685212048888199247912140205729949632012297int);
    lemma_pow_step(5int, 28948022309329048855892746252171976963363056481941560715954676764349967630337int, 62357403192785191176690552862561408838751264046427nat, 3573219334162967073615017623797238685212048888199247912140205729949632012297int, 1nat, 124714806385570382353381105725122817677502528092855nat, 5058344609059650720847612342338271339092907170069870585273506106764647872148int);
    lemma_pow_step(5int, 28948022309329048855892746252171976963363056481941560715954676764349967630337int, 124714806385570382353381105725122817677502528092855nat, 5058344609059650720847612342338271339092907170069870585273506106764647872148int, 0nat, 249429612771140764706762211450245635355005056185710nat, 10679781180216269441142632088309906670867332754452403807959875897926297662034int);
    lemma_pow_step(5int, 28948022309329048855892746252171976963363056481941560715954676764349967630337int, 249429612771140764706762211450245635355005056185710nat, 10679781180216269441142632088309906670867332754452403807959875897926297662034int, 0nat, 498859225542281529413524422900491270710010112371420nat, 12952724184859661791397366543670031074275122576574987947983708989370582819011int);
    lemma_pow_step(5int, 28948022309329048855892746252171976963363056481941560715954676764349967630337int, 498859225542281529413524422900491270710010112371420nat, 12952724184859661791397366543670031074275122576574987947983708989370582819011int, 0nat, 997718451084563058827048845800982541420020224742840nat, 3849462686447892114890160717900836996116400122108433318626579956701964493037int);
    lemma_pow_step(5int, 28948022309329048855892746252171976963363056481941560715954676764349967630337int, 997718451084563058827048845800982541420020224742840nat, 3849462686447892114890160717900836996116400122108433318626579956701964493037int, 1nat, 1995436902169126117654097691601965082840040449485681nat, 24298533038240995380312775721300071133204427398401040996485207156679267375601int);
    lemma_pow_step(5int, 28948022309329048855892746252171976963363056481941560715954676764349967630337int, 1995436902169126117654097691601965082840040449485681nat, 24298533038240995380312775721300071133204427398401040996485207156679267375601int, 0nat, 3990873804338252235308195383203930165680080898971362nat, 22358721905691336920346800914107478195836748025178008403457855310777178529026int);
    lemma_pow_step(5int, 28948022309329048855892746252171976963363056481941560715954676764349967630337int, 3990873804338252235308195383203930165680080898971362nat, 22358721905691336920346800914107478195836748025178008403457855310777178529026int, 0nat, 7981747608676504470616390766407860331360161797942724nat, 20237721711193578601233843383835712420483939142399013568824111836589394317284int);
    lemma_pow_step(5int, 28948022309329048855892746252171976963363056481941560715954676764349967630337int, 7981747608676504470616390766407860331360161797942724nat, 20237721711193578601233843383835712420483939142399013568824111836589394317284int, 0nat, 15963495217353008941232781532815720662720323595885448nat, 26680197788850216236728887455649777798333686923217425080419115083015666054398int);
    lemma_pow_step(5int, 28948022309329048855892746252171976963363056481941560715954676764349967630337int, 15963495217353008941232781532815720662720323595885448nat, 26680197788850216236728887455649777798333686923217425080419115083015666054398int, 1nat, 31926990434706017882465563065631441325440647191770897nat, 13143412195910833696886461625247800175783231466324444105136107564214895879288int);
    lemma_pow_step(5int, 28948022309329048855892746252171976963363056481941560715954676764349967630337int, 31926990434706017882465563065631441325440647191770897nat, 13143412195910833696886461625247800175783231466324444105136107564214895879288int, 0nat, 63853980869412035764931126131262882650881294383541794nat, 21395208084648993197122155881900902920738613855424492002265441340214015849691int);
    lemma_pow_step(5int, 28948022309329048855892746252171976963363056481941560715954676764349967630337int, 63853980869412035764931126131262882650881294383541794nat, 21395208084648993197122155881900902920738613855424492002265441340214015849691int, 1nat, 127707961738824071529862252262525765301762588767083589nat, 1184711722534601922318095375487849270657045470216426687944174522456389208382int);
    lemma_pow_step(5int, 28948022309329048855892746252171976963363056481941560715954676764349967630337int, 127707961738824071529862252262525765301762588767083589nat, 1184711722534601922318095375487849270657045470216426687944174522456389208382int, 0nat, 255415923477648143059724504525051530603525177534167178nat, 26359870170163907410096768062548114655210357284566953067831028720896717186473int);
    lemma_pow_step(5int, 28948022309329048855892746252171976963363056481941560715954676764349967630337int, 255415923477648143059724504525051530603525177534167178nat, 26359870170163907410096768062548114655210357284566953067831028720896717186473int, 0nat, 510831846955296286119449009050103061207050355068334356nat, 22352211072379456215709324802681016339898281244694454801641122736128304333802int);
    lemma_pow_step(5int, 28948022309329048855892746252171976963363056481941560715954676764349967630337int, 510831846955296286119449009050103061207050355068334356nat, 22352211072379456215709324802681016339898281244694454801641122736128304333802int, 1nat, 1021663693910592572238898018100206122414100710136668713nat, 10078614084591329497489638664556044517724875894293567573091672998303219008360int);
    lemma_pow_step(5int, 28948022309329048855892746252171976963363056481941560715954676764349967630337int, 1021663693910592572238898018100206122414100710136668713nat, 10078614084591329497489638664556044517724875894293567573091672998303219008360int, 1nat, 2043327387821185144477796036200412244828201420273337427nat, 27515876061844630859980851058341896954169539013865985561318578593993941603797int);
    lemma_pow_step(5int, 28948022309329048855892746252171976963363056481941560715954676764349967630337int, 2043327387821185144477796036200412244828201420273337427nat, 27515876061844630859980851058341896954169539013865985561318578593993941603797int, 0nat, 4086654775642370288955592072400824489656402840546674854nat, 7891766224685120418014294877935871540483206653951548524835043448705644114343int);
    lemma_pow_step(5int, 28948022309329048855892746252171976963363056481941560715954676764349967630337int, 4086654775642370288955592072400824489656402840546674854nat, 7891766224685120418014294877935871540483206653951548524835043448705644114343int, 0nat, 8173309551284740577911184144801648979312805681093349708nat, 15855853109525781098636338208671428399965185563533474984975319860683807612015int);
    lemma_pow_step(5int, 28948022309329048855892746252171976963363056481941560715954676764349967630337int, 8173309551284740577911184144801648979312805681093349708nat, 15855853109525781098636338208671428399965185563533474984975319860683807612015int, 0nat, 16346619102569481155822368289603297958625611362186699416nat, 895290593947860683623768207103213789794537303520148151817643880174234602727int);
    lemma_pow_step(5int, 28948022309329048855892746252171976963363056481941560715954676764349967630337int, 16346619102569481155822368289603297958625611362186699416nat, 895290593947860683623768207103213789794537303520148151817643880174234602727int, 0nat, 32693238205138962311644736579206595917251222724373398832nat, 20594464494084349656816188027881058102961487048020227038154963937102917015162int);
    lemma_pow_step(5int, 28948022309329048855892746252171976963363056481941560715954676764349967630337int, 32693238205138962311644736579206595917251222724373398832nat, 20594464494084349656816188027881058102961487048020227038154963937102917015162int, 1nat, 65386476410277924623289473158413191834502445448746797665nat, 19878089100916188058168352501769392872638753964581183365930251029571657404420int);
    lemma_pow_step(5int, 28948022309329048855892746252171976963363056481941560715954676764349967630337int, 65386476410277924623289473158413191834502445448746797665nat, 19878089100916188058168352501769392872638753964581183365930251029571657404420int, 0nat, 130772952820555849246578946316826383669004890897493595330nat, 20702383934376149023605803735175704028815060051861383265364817205059066952573int);
    lemma_pow_step(5int, 28948022309329048855892746252171976963363056481941560715954676764349967630337int, 130772952820555849246578946316826383669004890897493595330nat, 20702383934376149023605803735175704028815060051861383265364817205059066952573int, 0nat, 261545905641111698493157892633652767338009781794987190660nat, 4653014009660286987186785286933105768701072184789317218253335038673865727433int);
    lemma_pow_step(5int, 28948022309329048855892746252171976963363056481941560715954676764349967630337int, 261545905641111698493157892633652767338009781794987190660nat, 4653014009660286987186785286933105768701072184789317218253335038673865727433int, 1nat, 523091811282223396986315785267305534676019563589974381321nat, 27797085269625323042258789791615731165331270989131462340901452832029989453893int);
    lemma_pow_step(5int, 28948022309329048855892746252171976963363056481941560715954676764349967630337int, 523091811282223396986315785267305534676019563589974381321nat, 27797085269625323042258789791615731165331270989131462340901452832029989453893int, 0nat, 1046183622564446793972631570534611069352039127179948762642nat, 7751458417997119924740003649418985889409429927808921323405979550418114054841int);
    lemma_pow_step(5int, 28948022309329048855892746252171976963363056481941560715954676764349967630337int, 1046183622564446793972631570534611069352039127179948762642nat, 7751458417997119924740003649418985889409429927808921323405979550418114054841int, 0nat, 2092367245128893587945263141069222138704078254359897525284nat, 27718834174147724666900713606641444605817873304407591381492979955838347020867int);
    lemma_pow_step(5int, 28948022309329048855892746252171976963363056481941560715954676764349967630337int, 2092367245128893587945263141069222138704078254359897525284nat, 27718834174147724666900713606641444605817873304407591381492979955838347020867int, 1nat, 4184734490257787175890526282138444277408156508719795050569nat, 3883427126433042955910733797598223282008789025897216713627554327726883496617int);
    lemma_pow_step(5int, 28948022309329048855892746252171976963363056481941560715954676764349967630337int, 4184734490257787175890526282138444277408156508719795050569nat, 3883427126433042955910733797598223282008789025897216713627554327726883496617int, 1nat, 8369468980515574351781052564276888554816313017439590101139nat, 13503221860690332868400969526139044037595394320946577263581427207116283538095int);
    lemma_pow_step(5int, 28948022309329048855892746252171976963363056481941560715954676764349967630337int, 8369468980515574351781052564276888554816313017439590101139nat, 13503221860690332868400969526139044037595394320946577263581427207116283538095int, 0nat, 16738937961031148703562105128553777109632626034879180202278nat, 27741816667277925053535890996738864419454219207499968340141423668718535807767int);
    lemma_pow_step(5int, 28948022309329048855892746252171976963363056481941560715954676764349967630337int, 16738937961031148703562105128553777109632626034879180202278nat, 27741816667277925053535890996738864419454219207499968340141423668718535807767int, 0nat, 33477875922062297407124210257107554219265252069758360404556nat, 25125400208603141640192376212209531984564194412277727233561021892542610364308int);
    lemma_pow_step(5int, 28948022309329048855892746252171976963363056481941560715954676764349967630337int, 33477875922062297407124210257107554219265252069758360404556nat, 25125400208603141640192376212209531984564194412277727233561021892542610364308int, 1nat, 66955751844124594814248420514215108438530504139516720809113nat, 12835979249724449880174928547017069932358693523976918676982984558727373049012int);
    lemma_pow_step(5int, 28948022309329048855892746252171976963363056481941560715954676764349967630337int, 66955751844124594814248420514215108438530504139516720809113nat, 12835979249724449880174928547017069932358693523976918676982984558727373049012int, 1nat, 133911503688249189628496841028430216877061008279033441618227nat, 27887676883833641063469703758034928542255444371027976763526835162976412197530int);
    lemma_pow_step(5int, 28948022309329048855892746252171976963363056481941560715954676764349967630337int, 133911503688249189628496841028430216877061008279033441618227nat, 27887676883833641063469703758034928542255444371027976763526835162976412197530int, 0nat, 267823007376498379256993682056860433754122016558066883236454nat, 9560629864457426576078676613223849007480765800880337180277117045428444953160int);
    lemma_pow_step(5int, 28948022309329048855892746252171976963363056481941560715954676764349967630337int, 267823007376498379256993682056860433754122016558066883236454nat, 9560629864457426576078676613223849007480765800880337180277117045428444953160int, 0nat, 535646014752996758513987364113720867508244033116133766472908nat, 5120617788285113510628498570046123459096257616540172510681700333784321744926int);
    lemma_pow_step(5int, 28948022309329048855892746252171976963363056481941560715954676764349967630337int, 535646014752996758513987364113720867508244033116133766472908nat, 5120617788285113510628498570046123459096257616540172510681700333784321744926int, 0nat, 1071292029505993517027974728227441735016488066232267532945816nat, 1816578502637936185946353658145433014805613588574245211616039624991275348679int);
    lemma_pow_step(5int, 28948022309329048855892746252171976963363056481941560715954676764349967630337int, 1071292029505993517027974728227441735016488066232267532945816nat, 1816578502637936185946353658145433014805613588574245211616039624991275348679int, 0nat, 2142584059011987034055949456454883470032976132464535065891632nat, 21212785396783515066168040757746631669167714813449569682326909447178417370235int);
    lemma_pow_step(5int, 28948022309329048855892746252171976963363056481941560715954676764349967630337int, 2142584059011987034055949456454883470032976132464535065891632nat, 21212785396783515066168040757746631669167714813449569682326909447178417370235int, 1nat, 4285168118023974068111898912909766940065952264929070131783265nat, 19065897935881358475029402116580052763525376082048383176929421500250678562749int);
    lemma_pow_step(5int, 28948022309329048855892746252171976963363056481941560715954676764349967630337int, 4285168118023974068111898912909766940065952264929070131783265nat, 19065897935881358475029402116580052763525376082048383176929421500250678562749int, 1nat, 8570336236047948136223797825819533880131904529858140263566531nat, 13570487120179545576926896012248810315291382910473345433319908725840555993833int);
    lemma_pow_step(5int, 28948022309329048855892746252171976963363056481941560715954676764349967630337int, 8570336236047948136223797825819533880131904529858140263566531nat, 13570487120179545576926896012248810315291382910473345433319908725840555993833int, 1nat, 17140672472095896272447595651639067760263809059716280527133063nat, 8306005128826500491856297453433065813262440402424926564675029360473239017536int);
    lemma_pow_step(5int, 28948022309329048855892746252171976963363056481941560715954676764349967630337int, 17140672472095896272447595651639067760263809059716280527133063nat, 8306005128826500491856297453433065813262440402424926564675029360473239017536int, 1nat, 34281344944191792544895191303278135520527618119432561054266127nat, 13465791923418595902985166652819097663146246452770966017440187895214892002615int);
    lemma_pow_step(5int, 28948022309329048855892746252171976963363056481941560715954676764349967630337int, 34281344944191792544895191303278135520527618119432561054266127nat, 13465791923418595902985166652819097663146246452770966017440187895214892002615int, 0nat, 68562689888383585089790382606556271041055236238865122108532254nat, 21846103547469368784529663884367084327792863027773516956200818416403061839838int);
    lemma_pow_step(5int, 28948022309329048855892746252171976963363056481941560715954676764349967630337int, 68562689888383585089790382606556271041055236238865122108532254nat, 21846103547469368784529663884367084327792863027773516956200818416403061839838int, 0nat, 137125379776767170179580765213112542082110472477730244217064508nat, 23349353685961483763773476950561942250229404891181938084374995398506286469864int);
    lemma_pow_step(5int, 28948022309329048855892746252171976963363056481941560715954676764349967630337int, 137125379776767170179580765213112542082110472477730244217064508nat, 23349353685961483763773476950561942250229404891181938084374995398506286469864int, 0nat, 274250759553534340359161530426225084164220944955460488434129016nat, 26034828462086192831567470648428517375799982443576027115772333428085967616032int);
    lemma_pow_step(5int, 28948022309329048855892746252171976963363056481941560715954676764349967630337int, 274250759553534340359161530426225084164220944955460488434129016nat, 26034828462086192831567470648428517375799982443576027115772333428085967616032int, 1nat, 548501519107068680718323060852450168328441889910920976868258033nat, 16218836731521563133619827216673447820122787560559749253425709848131311906913int);
    lemma_pow_step(5int, 28948022309329048855892746252171976963363056481941560715954676764349967630337int, 548501519107068680718323060852450168328441889910920976868258033nat, 16218836731521563133619827216673447820122787560559749253425709848131311906913int, 0nat, 1097003038214137361436646121704900336656883779821841953736516066nat, 27845560737762705167544441640695666720827134702001212376159870565194297595726int);
    lemma_pow_step(5int, 28948022309329048855892746252171976963363056481941560715954676764349967630337int, 1097003038214137361436646121704900336656883779821841953736516066nat, 27845560737762705167544441640695666720827134702001212376159870565194297595726int, 0nat, 2194006076428274722873292243409800673313767559643683907473032132nat, 16590025922654103135523008892443518461985835858253090962710097323637021687468int);
    lemma_pow_step(5int, 28948022309329048855892746252171976963363056481941560715954676764349967630337int, 2194006076428274722873292243409800673313767559643683907473032132nat, 16590025922654103135523008892443518461985835858253090962710097323637021687468int, 0nat, 4388012152856549445746584486819601346627535119287367814946064264nat, 10104226529032577060968303993218775409873058383851981568569649480128250508650int);
    lemma_pow_step(5int, 28948022309329048855892746252171976963363056481941560715954676764349967630337int, 4388012152856549445746584486819601346627535119287367814946064264nat, 10104226529032577060968303993218775409873058383851981568569649480128250508650int, 0nat, 8776024305713098891493168973639202693255070238574735629892128528nat, 5601016021499563039584960853556256192451386840661377069170477145403491608904int);
    lemma_pow_step(5int, 28948022309329048855892746252171976963363056481941560715954676764349967630337int, 8776024305713098891493168973639202693255070238574735629892128528nat, 5601016021499563039584960853556256192451386840661377069170477145403491608904int, 0nat, 17552048611426197782986337947278405386510140477149471259784257056nat, 3633965318152039968351514327182587337288428101473766544542946511993071172386int);
    lemma_pow_step(5int, 28948022309329048855892746252171976963363056481941560715954676764349967630337int, 17552048611426197782986337947278405386510140477149471259784257056nat, 3633965318152039968351514327182587337288428101473766544542946511993071172386int, 1nat, 35104097222852395565972675894556810773020280954298942519568514113nat, 7678527280138568197420701653782463621209208345881587757065781054974931903219int);
    lemma_pow_step(5int, 28948022309329048855892746252171976963363056481941560715954676764349967630337int, 35104097222852395565972675894556810773020280954298942519568514113nat, 7678527280138568197420701653782463621209208345881587757065781054974931903219int, 0nat, 70208194445704791131945351789113621546040561908597885039137028226nat, 12625496397025629762126988801256388693164922708721081931717788265371747745097int);
    lemma_pow_step(5int, 28948022309329048855892746252171976963363056481941560715954676764349967630337int, 70208194445704791131945351789113621546040561908597885039137028226nat, 12625496397025629762126988801256388693164922708721081931717788265371747745097int, 0nat, 140416388891409582263890703578227243092081123817195770078274056452nat, 489373991058230305235387987928521928337848528739454561159052865902534541533int);
    lemma_pow_step(5int, 28948022309329048855892746252171976963363056481941560715954676764349967630337int, 140416388891409582263890703578227243092081123817195770078274056452nat, 489373991058230305235387987928521928337848528739454561159052865902534541533int, 1nat, 280832777782819164527781407156454486184162247634391540156548112905nat, 4992357073625207222010987900210588272596110387740581684053269833036021036232int);
    lemma_pow_step(5int, 28948022309329048855892746252171976963363056481941560715954676764349967630337int, 280832777782819164527781407156454486184162247634391540156548112905nat, 4992357073625207222010987900210588272596110387740581684053269833036021036232int, 1nat, 561665555565638329055562814312908972368324495268783080313096225811nat, 6819684334897675356177244957033256202300142488380016965341170215248944858354int);
    lemma_pow_step(5int, 28948022309329048855892746252171976963363056481941560715954676764349967630337int, 561665555565638329055562814312908972368324495268783080313096225811nat, 6819684334897675356177244957033256202300142488380016965341170215248944858354int, 1nat, 1123331111131276658111125628625817944736648990537566160626192451623nat, 4212015035427882880646596650948787622596778456899701320003539268320248881681int);
    lemma_pow_step(5int, 28948022309329048855892746252171976963363056481941560715954676764349967630337int, 1123331111131276658111125628625817944736648990537566160626192451623nat, 4212015035427882880646596650948787622596778456899701320003539268320248881681int, 1nat, 2246662222262553316222251257251635889473297981075132321252384903247nat, 10377560040039488562397046295209423719619951072922536663082302824132415106143int);
    lemma_pow_step(5int, 28948022309329048855892746252171976963363056481941560715954676764349967630337int, 2246662222262553316222251257251635889473297981075132321252384903247nat, 10377560040039488562397046295209423719619951072922536663082302824132415106143int, 0nat, 4493324444525106632444502514503271778946595962150264642504769806494nat, 19973289605860901489856946075088919855535575160531577458419709549228770083int);
    lemma_pow_step(5int, 28948022309329048855892746252171976963363056481941560715954676764349967630337int, 4493324444525106632444502514503271778946595962150264642504769806494nat, 19973289605860901489856946075088919855535575160531577458419709549228770083int, 0nat, 8986648889050213264889005029006543557893191924300529285009539612988nat, 745565751295099543105552029974640216091778363042732018244779078701746072305int);
    lemma_pow_step(5int, 28948022309329048855892746252171976963363056481941560715954676764349967630337int, 8986648889050213264889005029006543557893191924300529285009539612988nat, 745565751295099543105552029974640216091778363042732018244779078701746072305int, 0nat, 17973297778100426529778010058013087115786383848601058570019079225976nat, 22893095934435372784372564122972369471738779025850793445948620350314402279629int);
    lemma_pow_step(5int, 28948022309329048855892746252171976963363056481941560715954676764349967630337int, 17973297778100426529778010058013087115786383848601058570019079225976nat, 22893095934435372784372564122972369471738779025850793445948620350314402279629int, 0nat, 35946595556200853059556020116026174231572767697202117140038158451952nat, 27603656327215887339636193308019765741538987179407562212390349706704068348177int);
    lemma_pow_step(5int, 28948022309329048855892746252171976963363056481941560715954676764349967630337int, 35946595556200853059556020116026174231572767697202117140038158451952nat, 27603656327215887339636193308019765741538987179407562212390349706704068348177int, 0nat, 71893191112401706119112040232052348463145535394404234280076316903904nat, 2993994053448568690164657168333522043278635090925026750514159889070294710249int);
    lemma_pow_step(5int, 28948022309329048855892746252171976963363056481941560715954676764349967630337int, 71893191112401706119112040232052348463145535394404234280076316903904nat, 2993994053448568690164657168333522043278635090925026750514159889070294710249int, 0nat, 143786382224803412238224080464104696926291070788808468560152633807808nat, 10556815670347636935671391426874953707093652178532755996185910704239537202604int);
    lemma_pow_step(5int, 28948022309329048855892746252171976963363056481941560715954676764349967630337int, 143786382224803412238224080464104696926291070788808468560152633807808nat, 10556815670347636935671391426874953707093652178532755996185910704239537202604int, 0nat, 287572764449606824476448160928209393852582141577616937120305267615616nat, 11547939925398184234367793115837373549848520056286700225678101864218955210177int);
    lemma_pow_step(5int, 28948022309329048855892746252171976963363056481941560715954676764349967630337int, 287572764449606824476448160928209393852582141577616937120305267615616nat, 11547939925398184234367793115837373549848520056286700225678101864218955210177int, 0nat, 575145528899213648952896321856418787705164283155233874240610535231232nat, 919109790325188459426418529982039457044509186541840758875498532489855963721int);
    lemma_pow_step(5int, 28948022309329048855892746252171976963363056481941560715954676764349967630337int, 575145528899213648952896321856418787705164283155233874240610535231232nat, 919109790325188459426418529982039457044509186541840758875498532489855963721int, 0nat, 1150291057798427297905792643712837575410328566310467748481221070462464nat, 21913900658647423694406541919410109186210157250081479258751185338041251887638int);
    lemma_pow_step(5int, 28948022309329048855892746252171976963363056481941560715954676764349967630337int, 1150291057798427297905792643712837575410328566310467748481221070462464nat, 21913900658647423694406541919410109186210157250081479258751185338041251887638int, 0nat, 2300582115596854595811585287425675150820657132620935496962442140924928nat, 24897502333543397432500839077788243794948612006029751674926694858479005673458int);
    lemma_pow_step(5int, 28948022309329048855892746252171976963363056481941560715954676764349967630337int, 2300582115596854595811585287425675150820657132620935496962442140924928nat, 24897502333543397432500839077788243794948612006029751674926694858479005673458int, 0nat, 4601164231193709191623170574851350301641314265241870993924884281849856nat, 23804598820482764500745637075135835970614315673429365865792529784001139825267int);
    lemma_pow_step(5int, 28948022309329048855892746252171976963363056481941560715954676764349967630337int, 4601164231193709191623170574851350301641314265241870993924884281849856nat, 23804598820482764500745637075135835970614315673429365865792529784001139825267int, 0nat, 9202328462387418383246341149702700603282628530483741987849768563699712nat, 15887042111388248265238011493141661537224672636419707967945514772992471200390int);
    lemma_pow_step(5int, 28948022309329048855892746252171976963363056481941560715954676764349967630337int, 9202328462387418383246341149702700603282628530483741987849768563699712nat, 15887042111388248265238011493141661537224672636419707967945514772992471200390int, 0nat, 18404656924774836766492682299405401206565257060967483975699537127399424nat, 1618444962137803850245251870200850118283624028988785980845348510119130501876int);
    lemma_pow_step(5int, 28948022309329048855892746252171976963363056481941560715954676764349967630337int, 18404656924774836766492682299405401206565257060967483975699537127399424nat, 1618444962137803850245251870200850118283624028988785980845348510119130501876int, 0nat, 36809313849549673532985364598810802413130514121934967951399074254798848nat, 14295208582572940850581434130645498064522001532278424553997177064589744184684int);
    lemma_pow_step(5int, 28948022309329048855892746252171976963363056481941560715954676764349967630337int, 36809313849549673532985364598810802413130514121934967951399074254798848nat, 14295208582572940850581434130645498064522001532278424553997177064589744184684int, 0nat, 73618627699099347065970729197621604826261028243869935902798148509597696nat, 25502330128942879744212095189336858831813233166847088049594369345737229712461int);
    lemma_pow_step(5int, 28948022309329048855892746252171976963363056481941560715954676764349967630337int, 73618627699099347065970729197621604826261028243869935902798148509597696nat, 25502330128942879744212095189336858831813233166847088049594369345737229712461int, 0nat, 147237255398198694131941458395243209652522056487739871805596297019195392nat, 10332443811508675398133673564775686121478568736827831472016833455265021900842int);
    lemma_pow_step(5int, 28948022309329048855892746252171976963363056481941560715954676764349967630337int, 147237255398198694131941458395243209652522056487739871805596297019195392nat, 10332443811508675398133673564775686121478568736827831472016833455265021900842int, 0nat, 294474510796397388263882916790486419305044112975479743611192594038390784nat, 4567656654494484962068755868308271593934285615612628263989919486169482349326int);
    lemma_pow_step(5int, 28948022309329048855892746252171976963363056481941560715954676764349967630337int, 294474510796397388263882916790486419305044112975479743611192594038390784nat, 4567656654494484962068755868308271593934285615612628263989919486169482349326int, 0nat, 588949021592794776527765833580972838610088225950959487222385188076781568nat, 25115793953024805399194048741538840647641893197034551874714535964394063032045int);
    lemma_pow_step(5int, 28948022309329048855892746252171976963363056481941560715954676764349967630337int, 588949021592794776527765833580972838610088225950959487222385188076781568nat, 25115793953024805399194048741538840647641893197034551874714535964394063032045int, 0nat, 1177898043185589553055531667161945677220176451901918974444770376153563136nat, 886409610555842840550337702329703609403505334358375651053756809511606909338int);
    lemma_pow_step(5int, 28948022309329048855892746252171976963363056481941560715954676764349967630337int, 1177898043185589553055531667161945677220176451901918974444770376153563136nat, 886409610555842840550337702329703609403505334358375651053756809511606909338int, 0nat, 2355796086371179106111063334323891354440352903803837948889540752307126272nat, 15039918227756944185551107077574244117817118222177622579300344092785694784258int);
    lemma_pow_step(5int, 28948022309329048855892746252171976963363056481941560715954676764349967630337int, 2355796086371179106111063334323891354440352903803837948889540752307126272nat, 15039918227756944185551107077574244117817118222177622579300344092785694784258int, 0nat, 4711592172742358212222126668647782708880705807607675897779081504614252544nat, 17287120368262702918172529673242886721675082961196538063265197773140428576573int);
    lemma_pow_step(5int, 28948022309329048855892746252171976963363056481941560715954676764349967630337int, 4711592172742358212222126668647782708880705807607675897779081504614252544nat, 17287120368262702918172529673242886721675082961196538063265197773140428576573int, 0nat, 9423184345484716424444253337295565417761411615215351795558163009228505088nat, 20420608718827400678681555138577557418178950547039394496326845734255757599603int);
    lemma_pow_step(5int, 28948022309329048855892746252171976963363056481941560715954676764349967630337int, 9423184345484716424444253337295565417761411615215351795558163009228505088nat, 20420608718827400678681555138577557418178950547039394496326845734255757599603int, 0nat, 18846368690969432848888506674591130835522823230430703591116326018457010176nat, 13805038129595078784927313985574562216711693768112708405716367912932244007609int);
    lemma_pow_step(5int, 28948022309329048855892746252171976963363056481941560715954676764349967630337int, 18846368690969432848888506674591130835522823230430703591116326018457010176nat, 13805038129595078784927313985574562216711693768112708405716367912932244007609int, 0nat, 37692737381938865697777013349182261671045646460861407182232652036914020352nat, 18555639741245491940472417826175092868456532178308821825829181983645521655770int);
    lemma_pow_step(5int, 28948022309329048855892746252171976963363056481941560715954676764349967630337int, 37692737381938865697777013349182261671045646460861407182232652036914020352nat, 18555639741245491940472417826175092868456532178308821825829181983645521655770int, 0nat, 75385474763877731395554026698364523342091292921722814364465304073828040704nat, 6468317854031919496705581490800024471350948596822615238241488867504730045638int);
    lemma_pow_step(5int, 28948022309329048855892746252171976963363056481941560715954676764349967630337int, 75385474763877731395554026698364523342091292921722814364465304073828040704nat, 6468317854031919496705581490800024471350948596822615238241488867504730045638int, 0nat, 150770949527755462791108053396729046684182585843445628728930608147656081408nat, 7353025751585296345158582531509699644258350676829266716297807081128103438492int);
    lemma_pow_step(5int, 28948022309329048855892746252171976963363056481941560715954676764349967630337int, 150770949527755462791108053396729046684182585843445628728930608147656081408nat, 7353025751585296345158582531509699644258350676829266716297807081128103438492int, 0nat, 301541899055510925582216106793458093368365171686891257457861216295312162816nat, 28416450245432229221544073046340873010121030694551271266382810226977618191517int);
    lemma_pow_step(5int, 28948022309329048855892746252171976963363056481941560715954676764349967630337int, 301541899055510925582216106793458093368365171686891257457861216295312162816nat, 28416450245432229221544073046340873010121030694551271266382810226977618191517int, 0nat, 603083798111021851164432213586916186736730343373782514915722432590624325632nat, 4378167441100299402363742377973499165302895643212695635919788818640163156137int);
    lemma_pow_step(5int, 28948022309329048855892746252171976963363056481941560715954676764349967630337int, 603083798111021851164432213586916186736730343373782514915722432590624325632nat, 4378167441100299402363742377973499165302895643212695635919788818640163156137int, 0nat, 1206167596222043702328864427173832373473460686747565029831444865181248651264nat, 5647854130552609738368916694749282155490418685116083445176955773903096876101int);
    lemma_pow_step(5int, 28948022309329048855892746252171976963363056481941560715954676764349967630337int, 1206167596222043702328864427173832373473460686747565029831444865181248651264nat, 5647854130552609738368916694749282155490418685116083445176955773903096876101int, 0nat, 2412335192444087404657728854347664746946921373495130059662889730362497302528nat, 20647544976259034003733154185465243616577103824975116179223379638065907015918int);
    lemma_pow_step(5int, 28948022309329048855892746252171976963363056481941560715954676764349967630337int, 2412335192444087404657728854347664746946921373495130059662889730362497302528nat, 20647544976259034003733154185465243616577103824975116179223379638065907015918int, 0nat, 4824670384888174809315457708695329493893842746990260119325779460724994605056nat, 20444556541222657078399132219657928148671392403212669005631716460534733845832int);
    lemma_pow_step(5int, 28948022309329048855892746252171976963363056481941560715954676764349967630337int, 4824670384888174809315457708695329493893842746990260119325779460724994605056nat, 20444556541222657078399132219657928148671392403212669005631716460534733845832int, 0nat, 9649340769776349618630915417390658987787685493980520238651558921449989210112nat, 20444556541222657078399132219657928148671392403212669005631716460534733845831int);
}

/// `5^62522726370041142237349343957174896249164268859485012345474463853887619072` modulo `28948022309329048855892746252171976963363056481941560715954676764349967630337`, by square-and-multiply.
proof fn lemma_pow_28948022309329048855892746252171976963363056481941560715954676764349967630337_by_463()
    ensures
        pow(5int, 62522726370041142237349343957174896249164268859485012345474463853887619072nat) % 28948022309329048855892746252171976963363056481941560715954676764349967630337int == 21130164847715179260305574026050308433852420324783633235003921985597389212508int,
{
    lemma_pow_start(5int, 28948022309329048855892746252171976963363056481941560715954676764349967630337int, 5int);
    lemma_pow_step(5int, 28948022309329048855892746252171976963363056481941560715954676764349967630337int, 1nat, 5int, 0nat, 2nat, 25int);
    lemma_pow_step(5int, 28948022309329048855892746252171976963363056481941560715954676764349967630337int, 2nat, 25int, 0nat, 4nat, 625int);
    lemma_pow_step(5int, 28948022309329048855892746252171976963363056481941560715954676764349967630337int, 4nat, 625int, 0nat, 8nat, 390625int);
    lemma_pow_step(5int, 28948022309329048855892746252171976963363056481941560715954676764349967630337int, 8nat, 390625int, 1nat, 17nat, 762939453125int);
    lemma_pow_step(5int, 28948022309329048855892746252171976963363056481941560715954676764349967630337int, 17nat, 762939453125int, 1nat, 35nat, 2910383045673370361328125int);
    lemma_pow_step(5int, 28948022309329048855892746252171976963363056481941560715954676764349967630337int, 35nat, 2910383045673370361328125int, 0nat, 70nat, 8470329472543003390683225006796419620513916015625int);
    lemma_pow_step(5int, 28948022309329048855892746252171976963363056481941560715954676764349967630337int, 70nat, 8470329472543003390683225006796419620513916015625int, 1nat, 141nat, 20206487167105744057415379607594691801521605383606338019491268845892955586396int);
    lemma_pow_step(5int, 28948022309329048855892746252171976963363056481941560715954676764349967630337int, 141nat, 20206487167105744057415379607594691801521605383606338019491268845892955586396int, 1nat, 283nat, 3128693514747073379983022409074999909729431382760113793475299430482111371153int);
    lemma_pow_step(5int, 28948022309329048855892746252171976963363056481941560715954676764349967630337int, 283nat, 3128693514747073379983022409074999909729431382760113793475299430482111371153int, 0nat, 566nat, 13931341820970031946456360677180277025197151624665975774742088796039380044365int);
    lemma_pow_step(5int, 28948022309329048855892746252171976963363056481941560715954676764349967630337int, 566nat, 13931341820970031946456360677180277025197151624665975774742088796039380044365int, 0nat, 1132nat, 27988200709078772645422160623944755139327092942101672690097029736102343890375int);
    lemma_pow_step(5int, 28948022309329048855892746252171976963363056481941560715954676764349967630337int, 1132nat, 27988200709078772645422160623944755139327092942101672690097029736102343890375int, 0nat, 2264nat, 27363511145359936819415433012122066597675692626716214352814781158536227905381int);
    lemma_pow_step(5int, 28948022309329048855892746252171976963363056481941560715954676764349967630337int, 2264nat, 27363511145359936819415433012122066597675692626716214352814781158536227905381int, 1nat, 4529nat, 11823478452619773575551646806587328299155668735870270471363907957597006331188int);
    lemma_pow_step(5int, 28948022309329048855892746252171976963363056481941560715954676764349967630337int, 4529nat, 11823478452619773575551646806587328299155668735870270471363907957597006331188int, 0nat, 9058nat, 6614018569471179706259920878579232081932490784711790888483393231192104904597int);
    lemma_pow_step(5int, 28948022309329048855892746252171976963363056481941560715954676764349967630337int, 9058nat, 6614018569471179706259920878579232081932490784711790888483393231192104904597int, 1nat, 18117nat, 4873832258434806901651281176144163629938889068314558628352296681665083397785int);
    lemma_pow_step(5int, 28948022309329048855892746252171976963363056481941560715954676764349967630337int, 18117nat, 4873832258434806901651281176144163629938889068314558628352296681665083397785int, 1nat, 36235nat, 10267423080226209367203481260352071621140639428558861048861785084523205937846int);
    lemma_pow_step(5int, 28948022309329048855892746252171976963363056481941560715954676764349967630337int, 36235nat, 10267423080226209367203481260352071621140639428558861048861785084523205937846int, 1nat, 72471nat, 27927082826300095180312574386297248533066290627661262216718144700024336321202int);
    lemma_pow_step(5int, 28948022309329048855892746252171976963363056481941560715954676764349967630337int, 72471nat, 27927082826300095180312574386297248533066290627661262216718144700024336321202int, 1nat, 144943nat, 15598723483299448925543970059602381457829952545991539659741519647330124635908int);
    lemma_pow_step(5int, 28948022309329048855892746252171976963363056481941560715954676764349967630337int, 144943nat, 15598723483299448925543970059602381457829952545991539659741519647330124635908int, 1nat, 289887nat, 17859259089977602267922464810257321942575597611183598856682966091983389457021int);
    lemma_pow_step(5int, 28948022309329048855892746252171976963363056481941560715954676764349967630337int, 289887nat, 17859259089977602267922464810257321942575597611183598856682966091983389457021int, 0nat, 579774nat, 12305833647674641072370403885868235250881946746207315123891542920195574476254int);
    lemma_pow_step(5int, 28948022309329048855892746252171976963363056481941560715954676764349967630337int, 579774nat, 12305833647674641072370403885868235250881946746207315123891542920195574476254int, 0nat, 1159548nat, 18402046318193265892114978236314970760946528023712780685510756829376605392777int);
    lemma_pow_step(5int, 28948022309329048855892746252171976963363056481941560715954676764349967630337int, 1159548nat, 18402046318193265892114978236314970760946528023712780685510756829376605392777int, 0nat, 2319096nat, 26041085404664777797964690552957410734058150703791290050754618418846128057089int);
    lemma_pow_step(5int, 28948022309329048855892746252171976963363056481941560715954676764349967630337int, 2319096nat, 26041085404664777797964690552957410734058150703791290050754618418846128057089int, 1nat, 4638193nat, 11077865188779613179661630482922864590723598468104122378850883693818543360277int);
    lemma_pow_step(5int, 28948022309329048855892746252171976963363056481941560715954676764349967630337int, 4638193nat, 11077865188779613179661630482922864590723598468104122378850883693818543360277int, 1nat, 9276387nat, 2932364026236277352680695053011047935641985524225101860348122294265867938187int);
    lemma_pow_step(5int, 28948022309329048855892746252171976963363056481941560715954676764349967630337int, 9276387nat, 2932364026236277352680695053011047935641985524225101860348122294265867938187int, 0nat, 18552774nat, 7296084021732739372714201900917780220645530039657035008842379968385458676253int);
    lemma_pow_step(5int, 28948022309329048855892746252171976963363056481941560715954676764349967630337int, 18552774nat, 7296084021732739372714201900917780220645530039657035008842379968385458676253int, 0nat, 37105548nat, 8088380078517453918477289629545117788798920690326993850250793895416754763191int);
    lemma_pow_step(5int, 28948022309329048855892746252171976963363056481941560715954676764349967630337int, 37105548nat, 8088380078517453918477289629545117788798920690326993850250793895416754763191int, 1nat, 74211097nat, 18343455594181289377835832097344300493843596781575559608773386111846213090222int);
    lemma_pow_step(5int, 28948022309329048855892746252171976963363056481941560715954676764349967630337int, 74211097nat, 18343455594181289377835832097344300493843596781575559608773386111846213090222int, 1nat, 148422195nat, 7888936498399615177195095957726318941780964908800383384872356306144434380562int);
    lemma_pow_step(5int, 28948022309329048855892746252171976963363056481941560715954676764349967630337int, 148422195nat, 7888936498399615177195095957726318941780964908800383384872356306144434380562int, 1nat, 296844391nat, 9521136239062023951587500234487961715200059058167439573835002723485480192116int);
    lemma_pow_step(5int, 28948022309329048855892746252171976963363056481941560715954676764349967630337int, 296844391nat, 9521136239062023951587500234487961715200059058167439573835002723485480192116int, 1nat, 593688783nat, 4916601881028095417243373820022747344542837258813956383027040732482942685178int);
    lemma_pow_step(5int, 28948022309329048855892746252171976963363056481941560715954676764349967630337int, 593688783nat, 4916601881028095417243373820022747344542837258813956383027040732482942685178int, 1nat, 1187377567nat, 9505191943338829484501624812114848766251264250662694583143497191584385735736int);
    lemma_pow_step(5int, 28948022309329048855892746252171976963363056481941560715954676764349967630337int, 1187377567nat, 9505191943338829484501624812114848766251264250662694583143497191584385735736int, 1nat, 2374755135nat, 24831999457099786891286473741456115229006643190503615893086241117237628870935int);
    lemma_pow_step(5int, 28948022309329048855892746252171976963363056481941560715954676764349967630337int, 2374755135nat, 24831999457099786891286473741456115229006643190503615893086241117237628870935int, 1nat, 4749510271nat, 12578158176781811294095557752051596067461031999356001843088398619694291325636int);
    lemma_pow_step(5int, 28948022309329048855892746252171976963363056481941560715954676764349967630337int, 4749510271nat, 12578158176781811294095557752051596067461031999356001843088398619694291325636int, 0nat, 9499020542nat, 9322783075427048298947231721659664782778482544088953922356458567286923160887int);
    lemma_pow_step(5int, 28948022309329048855892746252171976963363056481941560715954676764349967630337int, 9499020542nat, 9322783075427048298947231721659664782778482544088953922356458567286923160887int, 0nat, 18998041084nat, 19176558978477827940231573766267855818891653959087793333662850484458788738721int);
    lemma_pow_step(5int, 28948022309329048855892746252171976963363056481941560715954676764349967630337int, 18998041084nat, 19176558978477827940231573766267855818891653959087793333662850484458788738721int, 1nat, 37996082169nat, 17029245937690520304102026059598195099978147996669079629797775915661909003830int);
    lemma_pow_step(5int, 28948022309329048855892746252171976963363056481941560715954676764349967630337int, 37996082169nat, 17029245937690520304102026059598195099978147996669079629797775915661909003830int, 0nat, 75992164338nat, 21624561585252184312862103291078915245599057813107741005791123023912243137656int);
    lemma_pow_step(5int, 28948022309329048855892746252171976963363056481941560715954676764349967630337int, 75992164338nat, 21624561585252184312862103291078915245599057813107741005791123023912243137656int, 1nat, 151984328677nat, 23748340458580172198602571489904034590561791826619540418889517912073608728542int);
    lemma_pow_step(5int, 28948022309329048855892746252171976963363056481941560715954676764349967630337int, 151984328677nat, 23748340458580172198602571489904034590561791826619540418889517912073608728542int, 0nat, 303968657354nat, 14173735328507905939137447724436210749165435446282961435517394151250560368815int);
    lemma_pow_step(5int, 28948022309329048855892746252171976963363056481941560715954676764349967630337int, 303968657354nat, 14173735328507905939137447724436210749165435446282961435517394151250560368815int, 1nat, 607937314709nat, 22372397901568211651164836396320480526510277287585595479913389991214987876900int);
    lemma_pow_step(5int, 28948022309329048855892746252171976963363056481941560715954676764349967630337int, 607937314709nat, 22372397901568211651164836396320480526510277287585595479913389991214987876900int, 1nat, 1215874629419nat, 11252591948773124571614607840919482366305744720834236065118040240030054316927int);
    lemma_pow_step(5int, 28948022309329048855892746252171976963363056481941560715954676764349967630337int, 1215874629419nat, 11252591948773124571614607840919482366305744720834236065118040240030054316927int, 1nat, 2431749258839nat, 9519725708435943796049635520316437380255052418590703428653730605577522479551int);
    lemma_pow_step(5int, 28948022309329048855892746252171976963363056481941560715954676764349967630337int, 2431749258839nat, 9519725708435943796049635520316437380255052418590703428653730605577522479551int, 0nat, 4863498517678nat, 4550459443951806898464456781102129887892447318040082222400080375219934648978int);
    lemma_pow_step(5int, 28948022309329048855892746252171976963363056481941560715954676764349967630337int, 4863498517678nat, 4550459443951806898464456781102129887892447318040082222400080375219934648978int, 1nat, 9726997035357nat, 27693303015232889117312479720175171095021343682309517784432319570191788168901int);
    lemma_pow_step(5int, 28948022309329048855892746252171976963363056481941560715954676764349967630337int, 9726997035357nat, 27693303015232889117312479720175171095021343682309517784432319570191788168901int, 0nat, 19453994070714nat, 12665303098202743747761562461188232299314184949907867589325595355110184995676int);
    lemma_pow_step(5int, 28948022309329048855892746252171976963363056481941560715954676764349967630337int, 19453994070714nat, 12665303098202743747761562461188232299314184949907867589325595355110184995676int, 1nat, 38907988141429nat, 13035415122404022123816513403204685358007311601296154141312430677548350236091int);
    lemma_pow_step(5int, 28948022309329048855892746252171976963363056481941560715954676764349967630337int, 38907988141429nat, 13035415122404022123816513403204685358007311601296154141312430677548350236091int, 1nat, 77815976282859nat, 23111083543320608546079728008154903115507853555038706225365618118235337088796int);
    lemma_pow_step(5int, 28948022309329048855892746252171976963363056481941560715954676764349967630337int, 77815976282859nat, 23111083543320608546079728008154903115507853555038706225365618118235337088796int, 1nat, 155631952565719nat, 8637207379819039317622750640818220789527594236668925935210249420904729939813int);
    lemma_pow_step(5int, 28948022309329048855892746252171976963363056481941560715954676764349967630337int, 155631952565719nat, 8637207379819039317622750640818220789527594236668925935210249420904729939813int, 0nat, 311263905131438nat, 24207241547235569033916225512560891658643767461131321152950053027198676568433int);
    lemma_pow_step(5int, 28948022309329048855892746252171976963363056481941560715954676764349967630337int, 311263905131438nat, 24207241547235569033916225512560891658643767461131321152950053027198676568433int, 0nat, 622527810262876nat, 21433031581472720610072502485996360701719112758242164183758273350486424507235int);
    lemma_pow_step(5int, 28948022309329048855892746252171976963363056481941560715954676764349967630337int, 622527810262876nat, 21433031581472720610072502485996360701719112758242164183758273350486424507235int, 0nat, 1245055620525752nat, 17258475605407631283406938932570372285688562938610020687019222234508841334718int);
    lemma_pow_step(5int, 28948022309329048855892746252171976963363056481941560715954676764349967630337int, 1245055620525752nat, 17258475605407631283406938932570372285688562938610020687019222234508841334718int, 1nat, 2490111241051505nat, 7183702036848708599661755587128475450443588683606028880795473008048004169877int);
    lemma_pow_step(5int, 28948022309329048855892746252171976963363056481941560715954676764349967630337int, 2490111241051505nat, 7183702036848708599661755587128475450443588683606028880795473008048004169877int, 0nat, 4980222482103010nat, 25005632725935554087860897010168748862284315660661906141044693196494236498105int);
    lemma_pow_step(5int, 28948022309329048855892746252171976963363056481941560715954676764349967630337int, 4980222482103010nat, 25005632725935554087860897010168748862284315660661906141044693196494236498105int, 1nat, 9960444964206021nat, 19833654938519882485361328040640029342159585726550108474409597869956973826362int);
    lemma_pow_step(5int, 28948022309329048855892746252171976963363056481941560715954676764349967630337int, 9960444964206021nat, 19833654938519882485361328040640029342159585726550108474409597869956973826362int, 0nat, 19920889928412042nat, 5671540515544231775594681362824787826556915946972314448735981670828491760683int);
    lemma_pow_step(5int, 28948022309329048855892746252171976963363056481941560715954676764349967630337int, 19920889928412042nat, 5671540515544231775594681362824787826556915946972314448735981670828491760683int, 1nat, 39841779856824085nat, 1650595137305201776927973420314192156178183668178409873241424844938626776718int);
    lemma_pow_step(5int, 28948022309329048855892746252171976963363056481941560715954676764349967630337int, 39841779856824085nat, 1650595137305201776927973420314192156178183668178409873241424844938626776718int, 1nat, 79683559713648171nat, 28684123296676518200032168243694325953554410351049333181453435369329318369973int);
    lemma_pow_step(5int, 28948022309329048855892746252171976963363056481941560715954676764349967630337int, 79683559713648171nat, 28684123296676518200032168243694325953554410351049333181453435369329318369973int, 0nat, 159367119427296342nat, 7809452142693777846472046622252347640814118012411837436278162626196403753667int);
    lemma_pow_step(5int, 28948022309329048855892746252171976963363056481941560715954676764349967630337int, 159367119427296342nat, 7809452142693777846472046622252347640814118012411837436278162626196403753667int, 0nat, 318734238854592684nat, 23159221982496566084205874047674187625009470903508006920787727166077671546463int);
    lemma_pow_step(5int, 28948022309329048855892746252171976963363056481941560715954676764349967630337int, 318734238854592684nat, 23159221982496566084205874047674187625009470903508006920787727166077671546463int, 1nat, 637468477709185369nat, 26681922760893140100594252527782329951631870644192097803020464141899277809844int);
    lemma_pow_step(5int, 28948022309329048855892746252171976963363056481941560715954676764349967630337int, 637468477709185369nat, 26681922760893140100594252527782329951631870644192097803020464141899277809844int, 0nat, 1274936955418370738nat, 9039015390109671207931343815476594255527831983388145425130987678817219817450int);
    lemma_pow_step(5int, 28948022309329048855892746252171976963363056481941560715954676764349967630337int, 1274936955418370738nat, 9039015390109671207931343815476594255527831983388145425130987678817219817450int, 0nat, 2549873910836741476nat, 3654484614971301658640328203210671011856879003540767963704408213356079917268int);
    lemma_pow_step(5int, 28948022309329048855892746252171976963363056481941560715954676764349967630337int, 2549873910836741476nat, 3654484614971301658640328203210671011856879003540767963704408213356079917268int, 0nat, 5099747821673482952nat, 14109988312066133062798212246414780885602941866787133277699822476907662228837int);
    lemma_pow_step(5int, 28948022309329048855892746252171976963363056481941560715954676764349967630337int, 5099747821673482952nat, 14109988312066133062798212246414780885602941866787133277699822476907662228837int, 0nat, 10199495643346965904nat, 17845733456930553518739357214439323519896604043468748418245653815853297908794int);
    lemma_pow_step(5int, 28948022309329048855892746252171976963363056481941560715954676764349967630337int, 10199495643346965904nat, 17845733456930553518739357214439323519896604043468748418245653815853297908794int, 0nat, 20398991286693931808nat, 939520400217511544993853304395135531750748389152118270465337967682215199484int);
    lemma_pow_step(5int, 28948022309329048855892746252171976963363056481941560715954676764349967630337int, 20398991286693931808nat, 939520400217511544993853304395135531750748389152118270465337967682215199484int, 1nat, 40797982573387863617nat, 2669481687780467969561277740930951753220534288129594392452495161200030504275int);
    lemma_pow_step(5int, 28948022309329048855892746252171976963363056481941560715954676764349967630337int, 40797982573387863617nat, 2669481687780467969561277740930951753220534288129594392452495161200030504275int, 0nat, 81595965146775727234nat, 25149896068483282286750177082548090099218027971288229387059442429453606477240int);
    lemma_pow_step(5int, 28948022309329048855892746252171976963363056481941560715954676764349967630337int, 81595965146775727234nat, 25149896068483282286750177082548090099218027971288229387059442429453606477240int, 0nat, 163191930293551454468nat, 27504008848039924296644031807839012925810892184126637417059087827255036829702int);
    lemma_pow_step(5int, 28948022309329048855892746252171976963363056481941560715954676764349967630337int, 163191930293551454468nat, 27504008848039924296644031807839012925810892184126637417059087827255036829702int, 1nat, 326383860587102908937nat, 4543301183941558995351397767983804255751515633458768238425123398807307253288int);
    lemma_pow_step(5int, 28948022309329048855892746252171976963363056481941560715954676764349967630337int, 326383860587102908937nat, 4543301183941558995351397767983804255751515633458768238425123398807307253288int, 1nat, 652767721174205817875nat, 2578761944937663136546827206460346428467991279270526468125753037986525056779int);
    lemma_pow_step(5int, 28948022309329048855892746252171976963363056481941560715954676764349967630337int, 652767721174205817875nat, 2578761944937663136546827206460346428467991279270526468125753037986525056779int, 1nat, 1305535442348411635751nat, 17891930204348784333255796932637756716131644433768399759751140607008117982149int);
    lemma_pow_step(5int, 28948022309329048855892746252171976963363056481941560715954676764349967630337int, 1305535442348411635751nat, 17891930204348784333255796932637756716131644433768399759751140607008117982149int, 1nat, 2611070884696823271503nat, 4696232781789884313757144963279476740864871391456214272487566935377821688604int);
    lemma_pow_step(5int, 28948022309329048855892746252171976963363056481941560715954676764349967630337int, 2611070884696823271503nat, 4696232781789884313757144963279476740864871391456214272487566935377821688604int, 1nat, 5222141769393646543007nat, 18067380835755643472078573112077319044054673257325783014720529008649362294032int);
    lemma_pow_step(5int, 28948022309329048855892746252171976963363056481941560715954676764349967630337int, 5222141769393646543007nat, 18067380835755643472078573112077319044054673257325783014720529008649362294032int, 0nat, 10444283538787293086014nat, 9147929274173526467411269317235213640976064219517525801055485687558691208214int);
    lemma_pow_step(5int, 28948022309329048855892746252171976963363056481941560715954676764349967630337int, 10444283538787293086014nat, 9147929274173526467411269317235213640976064219517525801055485687558691208214int, 0nat, 20888567077574586172028nat, 5675740928027503807751883438077006257089965034336332763622276538171927717540int);
    lemma_pow_step(5int, 28948022309329048855892746252171976963363056481941560715954676764349967630337int, 20888567077574586172028nat, 5675740928027503807751883438077006257089965034336332763622276538171927717540int, 1nat, 41777134155149172344057nat, 12785520260837625174620964221634577494684644387008305709122633138219480472518int);
    lemma_pow_step(5int, 28948022309329048855892746252171976963363056481941560715954676764349967630337int, 41777134155149172344057nat, 12785520260837625174620964221634577494684644387008305709122633138219480472518int, 1nat, 83554268310298344688115nat, 22633987780269545821002950500238609926858717851730324173418481661790838529678int);
    lemma_pow_step(5int, 28948022309329048855892746252171976963363056481941560715954676764349967630337int, 83554268310298344688115nat, 22633987780269545821002950500238609926858717851730324173418481661790838529678int, 1nat, 167108536620596689376231nat, 27356734637087078101833487502359733920161417543268411720836032275946433733672int);
    lemma_pow_step(5int, 28948022309329048855892746252171976963363056481941560715954676764349967630337int, 167108536620596689376231nat, 27356734637087078101833487502359733920161417543268411720836032275946433733672int, 1nat, 334217073241193378752463nat, 21491481319185019534490278383959394432103952872617202098511295755236952912864int);
    lemma_pow_step(5int, 28948022309329048855892746252171976963363056481941560715954676764349967630337int, 334217073241193378752463nat, 21491481319185019534490278383959394432103952872617202098511295755236952912864int, 0nat, 668434146482386757504926nat, 8207812994808278012402342179086140993039667275309368173557465247403142320181int);
    lemma_pow_step(5int, 28948022309329048855892746252171976963363056481941560715954676764349967630337int, 668434146482386757504926nat, 8207812994808278012402342179086140993039667275309368173557465247403142320181int, 1nat, 1336868292964773515009853nat, 15494842407431713001694197168381762577284187627718654887718999127218773334534int);
    lemma_pow_step(5int, 28948022309329048855892746252171976963363056481941560715954676764349967630337int, 1336868292964773515009853nat, 15494842407431713001694197168381762577284187627718654887718999127218773334534int, 0nat, 2673736585929547030019706nat, 18118425389957884286369960659780329505829535404813682713386697677357541951734int);
    lemma_pow_step(5int, 28948022309329048855892746252171976963363056481941560715954676764349967630337int, 2673736585929547030019706nat, 18118425389957884286369960659780329505829535404813682713386697677357541951734int, 1nat, 5347473171859094060039413nat, 22644854334032705574887357943634813799498592618372735717040443151096855568437int);
    lemma_pow_step(5int, 28948022309329048855892746252171976963363056481941560715954676764349967630337int, 5347473171859094060039413nat, 22644854334032705574887357943634813799498592618372735717040443151096855568437int, 0nat, 10694946343718188120078826nat, 11804203715855361696900952819371349369977757860007622256170029162057802599655int);
    lemma_pow_step(5int, 28948022309329048855892746252171976963363056481941560715954676764349967630337int, 10694946343718188120078826nat, 11804203715855361696900952819371349369977757860007622256170029162057802599655int, 1nat, 21389892687436376240157653nat, 23713093505660732347595590959931631472997420388777320514032978206921270912308int);
    lemma_pow_step(5int, 28948022309329048855892746252171976963363056481941560715954676764349967630337int, 21389892687436376240157653nat, 23713093505660732347595590959931631472997420388777320514032978206921270912308int, 1nat, 42779785374872752480315307nat, 1478749144353533042132901283596032650084561272423497376301858409552263817356int);
    lemma_pow_step(5int, 28948022309329048855892746252171976963363056481941560715954676764349967630337int, 42779785374872752480315307nat, 1478749144353533042132901283596032650084561272423497376301858409552263817356int, 1nat, 85559570749745504960630615nat, 1538227965085739471705804872583199956958334296798769064199628188727264591580int);
    lemma_pow_step(5int, 28948022309329048855892746252171976963363056481941560715954676764349967630337int, 85559570749745504960630615nat, 1538227965085739471705804872583199956958334296798769064199628188727264591580int, 1nat, 171119141499491009921261231nat, 16765349761296716092779964314036532656550088992236947851727402071453732673397int);
    lemma_pow_step(5int, 28948022309329048855892746252171976963363056481941560715954676764349967630337int, 171119141499491009921261231nat, 16765349761296716092779964314036532656550088992236947851727402071453732673397int, 1nat, 342238282998982019842522463nat, 3872138514791249534150906995633389507195177549259682569070393903424840202822int);
    lemma_pow_step(5int, 28948022309329048855892746252171976963363056481941560715954676764349967630337int, 342238282998982019842522463nat, 3872138514791249534150906995633389507195177549259682569070393903424840202822int, 1nat, 684476565997964039685044927nat, 5907168358068084357619033309298222695885475662826706104948834887224441506940int);
    lemma_pow_step(5int, 28948022309329048855892746252171976963363056481941560715954676764349967630337int, 684476565997964039685044927nat, 5907168358068084357619033309298222695885475662826706104948834887224441506940int, 0nat, 1368953131995928079370089854nat, 20073009235826122818352760869217435520962889504298032504899753920805098881186int);
    lemma_pow_step(5int, 28948022309329048855892746252171976963363056481941560715954676764349967630337int, 1368953131995928079370089854nat, 20073009235826122818352760869217435520962889504298032504899753920805098881186int, 1nat, 2737906263991856158740179709nat, 13809586372873741409793885123629321539556167170239115794006688033100351767983int);
    lemma_pow_step(5int, 28948022309329048855892746252171976963363056481941560715954676764349967630337int, 2737906263991856158740179709nat, 13809586372873741409793885123629321539556167170239115794006688033100351767983int, 0nat, 5475812527983712317480359418nat, 14834702117578142454616695183196616610937694477673365183517913971477307894715int);
    lemma_pow_step(5int, 28948022309329048855892746252171976963363056481941560715954676764349967630337int, 5475812527983712317480359418nat, 14834702117578142454616695183196616610937694477673365183517913971477307894715int, 0nat, 10951625055967424634960718836nat, 11213402514805343959816380021607425797567444410186666521532922088220602669925int);
    lemma_pow_step(5int, 28948022309329048855892746252171976963363056481941560715954676764349967630337int, 10951625055967424634960718836nat, 11213402514805343959816380021607425797567444410186666521532922088220602669925int, 1nat, 21903250111934849269921437673nat, 28466731005375250706075033332807078365285599513654696300991259803320757594919int);
    lemma_pow_step(5int, 28948022309329048855892746252171976963363056481941560715954676764349967630337int, 21903250111934849269921437673nat, 28466731005375250706075033332807078365285599513654696300991259803320757594919int, 1nat, 43806500223869698539842875347nat, 11658109165234997401077375519307787927164067572121799732816916824542761863501int);
    lemma_pow_step(5int, 28948022309329048855892746252171976963363056481941560715954676764349967630337int, 43806500223869698539842875347nat, 11658109165234997401077375519307787927164067572121799732816916824542761863501int, 1nat, 87613000447739397079685750695nat, 26238570127781597516801038892421113376366785401357739736177669311567012982497int);
    lemma_pow_step(5int, 28948022309329048855892746252171976963363056481941560715954676764349967630337int, 87613000447739397079685750695nat, 26238570127781597516801038892421113376366785401357739736177669311567012982497int, 1nat, 175226000895478794159371501391nat, 25123125425215077283359181490295894101920810239733216291488607953699859312875int);
    lemma_pow_step(5int, 28948022309329048855892746252171976963363056481941560715954676764349967630337int, 175226000895478794159371501391nat, 25123125425215077283359181490295894101920810239733216291488607953699859312875int, 0nat, 350452001790957588318743002782nat, 28150810106864233960846147490405944122751106808936072809181459072409448477742int);
    lemma_pow_step(5int, 28948022309329048855892746252171976963363056481941560715954676764349967630337int, 350452001790957588318743002782nat, 28150810106864233960846147490405944122751106808936072809181459072409448477742int, 0nat, 700904003581915176637486005564nat, 25239765292594099502650322491664764300286822396428586169022547572627125021733int);
    lemma_pow_step(5int, 28948022309329048855892746252171976963363056481941560715954676764349967630337int, 700904003581915176637486005564nat, 25239765292594099502650322491664764300286822396428586169022547572627125021733int, 0nat, 1401808007163830353274972011128nat, 209836334734984010733146361326112850940882419953300787805747554251834114178int);
    lemma_pow_step(5int, 28948022309329048855892746252171976963363056481941560715954676764349967630337int, 1401808007163830353274972011128nat, 209836334734984010733146361326112850940882419953300787805747554251834114178int, 1nat, 2803616014327660706549944022257nat, 10568024991804403339487123496143884897135639323961465553903398278211874748096int);
    lemma_pow_step(5int, 28948022309329048855892746252171976963363056481941560715954676764349967630337int, 2803616014327660706549944022257nat, 10568024991804403339487123496143884897135639323961465553903398278211874748096int, 0nat, 5607232028655321413099888044514nat, 9525869730888375082405672958769170900448959087568914982546863406309636685349int);
    lemma_pow_step(5int, 28948022309329048855892746252171976963363056481941560715954676764349967630337int, 5607232028655321413099888044514nat, 9525869730888375082405672958769170900448959087568914982546863406309636685349int, 0nat, 11214464057310642826199776089028nat, 27455399923810794846292078970146971067962221785367568369004792819289631426911int);
    lemma_pow_step(5int, 28948022309329048855892746252171976963363056481941560715954676764349967630337int, 11214464057310642826199776089028nat, 27455399923810794846292078970146971067962221785367568369004792819289631426911int, 0nat, 22428928114621285652399552178056nat, 21980853918841165136560530242856178235735318725465206565855389445446790377875int);
    lemma_pow_step(5int, 28948022309329048855892746252171976963363056481941560715954676764349967630337int, 22428928114621285652399552178056nat, 21980853918841165136560530242856178235735318725465206565855389445446790377875int, 1nat, 44857856229242571304799104356113nat, 8845817032510323979294810593406044747025524447672565761470958317745413930340int);
    lemma_pow_step(5int, 28948022309329048855892746252171976963363056481941560715954676764349967630337int, 44857856229242571304799104356113nat, 8845817032510323979294810593406044747025524447672565761470958317745413930340int, 0nat, 89715712458485142609598208712226nat, 14577313451995221972354778573225789639612751221552545401857518736704528128722int);
    lemma_pow_step(5int, 28948022309329048855892746252171976963363056481941560715954676764349967630337int, 89715712458485142609598208712226nat, 14577313451995221972354778573225789639612751221552545401857518736704528128722int, 0nat, 179431424916970285219196417424452nat, 21889606900169884784618875151924731653989884582101343467353077707890498202727int);
    lemma_pow_step(5int, 28948022309329048855892746252171976963363056481941560715954676764349967630337int, 179431424916970285219196417424452nat, 21889606900169884784618875151924731653989884582101343467353077707890498202727int, 1nat, 358862849833940570438392834848905nat, 12064803339382821475123912397782139399316787140745325848545462794740854409370int);
    lemma_pow_step(5int, 28948022309329048855892746252171976963363056481941560715954676764349967630337int, 358862849833940570438392834848905nat, 12064803339382821475123912397782139399316787140745325848545462794740854409370int, 0nat, 717725699667881140876785669697810nat, 10887961675755934092331142116118069253114588558550727167814562931620226506155int);
    lemma_pow_step(5int, 28948022309329048855892746252171976963363056481941560715954676764349967630337int, 717725699667881140876785669697810nat, 10887961675755934092331142116118069253114588558550727167814562931620226506155int, 0nat, 1435451399335762281753571339395620nat, 19804138196838698676400236815634196831045888361640857664507616380663906577693int);
    lemma_pow_step(5int, 28948022309329048855892746252171976963363056481941560715954676764349967630337int, 1435451399335762281753571339395620nat, 19804138196838698676400236815634196831045888361640857664507616380663906577693int, 0nat, 2870902798671524563507142678791240nat, 22101949760105300524476179873656830962261916709062764057425025066380395214579int);
    lemma_pow_step(5int, 28948022309329048855892746252171976963363056481941560715954676764349967630337int, 2870902798671524563507142678791240nat, 22101949760105300524476179873656830962261916709062764057425025066380395214579int, 1nat, 5741805597343049127014285357582481nat, 5209616175941761199389554839890531937307390472099387871403579633459154193724int);
    lemma_pow_step(5int, 28948022309329048855892746252171976963363056481941560715954676764349967630337int, 5741805597343049127014285357582481nat, 5209616175941761199389554839890531937307390472099387871403579633459154193724int, 1nat, 11483611194686098254028570715164963nat, 21063226389827268937081404781013231679161733082249764184872566849521803875025int);
    lemma_pow_step(5int, 28948022309329048855892746252171976963363056481941560715954676764349967630337int, 11483611194686098254028570715164963nat, 21063226389827268937081404781013231679161733082249764184872566849521803875025int, 1nat, 22967222389372196508057141430329927nat, 18666984080610141563219374782168239047843911200100922123972053936746307409int);
    lemma_pow_step(5int, 28948022309329048855892746252171976963363056481941560715954676764349967630337int, 22967222389372196508057141430329927nat, 18666984080610141563219374782168239047843911200100922123972053936746307409int, 1nat, 45934444778744393016114282860659855nat, 3264176997414710342701389581465237015653167792766817070233556197164394446721int);
    lemma_pow_step(5int, 28948022309329048855892746252171976963363056481941560715954676764349967630337int, 45934444778744393016114282860659855nat, 3264176997414710342701389581465237015653167792766817070233556197164394446721int, 1nat, 91868889557488786032228565721319711nat, 11376475026177289581037168687920691674967968899399307525389405269064094097687int);
    lemma_pow_step(5int, 28948022309329048855892746252171976963363056481941560715954676764349967630337int, 91868889557488786032228565721319711nat, 11376475026177289581037168687920691674967968899399307525389405269064094097687int, 1nat, 183737779114977572064457131442639423nat, 12538463468096752883947672034708508372079614469134951481221706820608292176296int);
    lemma_pow_step(5int, 28948022309329048855892746252171976963363056481941560715954676764349967630337int, 183737779114977572064457131442639423nat, 12538463468096752883947672034708508372079614469134951481221706820608292176296int, 0nat, 367475558229955144128914262885278846nat, 21240436371637070371923451443071360554013008350685777569750155441370722441951int);
    lemma_pow_step(5int, 28948022309329048855892746252171976963363056481941560715954676764349967630337int, 367475558229955144128914262885278846nat, 21240436371637070371923451443071360554013008350685777569750155441370722441951int, 0nat, 734951116459910288257828525770557692nat, 6102783466630317237990778589250232858068717053960201725985356135863437466825int);
    lemma_pow_step(5int, 28948022309329048855892746252171976963363056481941560715954676764349967630337int, 734951116459910288257828525770557692nat, 6102783466630317237990778589250232858068717053960201725985356135863437466825int, 0nat, 1469902232919820576515657051541115384nat, 5785454341745303697547938787398379335699652045597656349764218319474043960651int);
    lemma_pow_step(5int, 28948022309329048855892746252171976963363056481941560715954676764349967630337int, 1469902232919820576515657051541115384nat, 5785454341745303697547938787398379335699652045597656349764218319474043960651int, 0nat, 2939804465839641153031314103082230768nat, 882525269776423628966647723932854572497879124544168827951366154674761025773int);
    lemma_pow_step(5int, 28948022309329048855892746252171976963363056481941560715954676764349967630337int, 2939804465839641153031314103082230768nat, 882525269776423628966647723932854572497879124544168827951366154674761025773int, 1nat, 5879608931679282306062628206164461537nat, 6862293669924408671844279893502274957959790895808620067816948689649493194235int);
    lemma_pow_step(5int, 28948022309329048855892746252171976963363056481941560715954676764349967630337int, 5879608931679282306062628206164461537nat, 6862293669924408671844279893502274957959790895808620067816948689649493194235int, 0nat, 11759217863358564612125256412328923074nat, 11672619059637700481230737103721356268435244839817813188649366222354753632933int);
    lemma_pow_step(5int, 28948022309329048855892746252171976963363056481941560715954676764349967630337int, 11759217863358564612125256412328923074nat, 11672619059637700481230737103721356268435244839817813188649366222354753632933int, 0nat, 23518435726717129224250512824657846148nat, 4485013165583636481826164839333361105545327381221886518584028435709076482431int);
    lemma_pow_step(5int, 28948022309329048855892746252171976963363056481941560715954676764349967630337int, 23518435726717129224250512824657846148nat, 4485013165583636481826164839333361105545327381221886518584028435709076482431int, 0nat, 47036871453434258448501025649315692296nat, 14929413335272931610280864468953261817348125856020517512395082792440569118532int);
    lemma_pow_step(5int, 28948022309329048855892746252171976963363056481941560715954676764349967630337int, 47036871453434258448501025649315692296nat, 14929413335272931610280864468953261817348125856020517512395082792440569118532int, 0nat, 94073742906868516897002051298631384592nat, 7478346554235498090597734318320824602809877522702153659662165667132674083429int);
    lemma_pow_step(5int, 28948022309329048855892746252171976963363056481941560715954676764349967630337int, 94073742906868516897002051298631384592nat, 7478346554235498090597734318320824602809877522702153659662165667132674083429int, 1nat, 188147485813737033794004102597262769185nat, 1187583038551852027375309363869831533342730501326441020508176736272718941346int);
    lemma_pow_step(5int, 28948022309329048855892746252171976963363056481941560715954676764349967630337int, 188147485813737033794004102597262769185nat, 1187583038551852027375309363869831533342730501326441020508176736272718941346int, 0nat, 376294971627474067588008205194525538370nat, 7923844119975899009672576490903615998607371419036764235597978983601127309587int);
    lemma_pow_step(5int, 28948022309329048855892746252171976963363056481941560715954676764349967630337int, 376294971627474067588008205194525538370nat, 7923844119975899009672576490903615998607371419036764235597978983601127309587int, 1nat, 752589943254948135176016410389051076741nat, 11912649224969714572173316917120093427861656234523720954344341942674364376389int);
    lemma_pow_step(5int, 28948022309329048855892746252171976963363056481941560715954676764349967630337int, 752589943254948135176016410389051076741nat, 11912649224969714572173316917120093427861656234523720954344341942674364376389int, 1nat, 1505179886509896270352032820778102153483nat, 2807609319110824699880053437672099690840530835441169467670337938836131562243int);
    lemma_pow_step(5int, 28948022309329048855892746252171976963363056481941560715954676764349967630337int, 1505179886509896270352032820778102153483nat, 2807609319110824699880053437672099690840530835441169467670337938836131562243int, 1nat, 3010359773019792540704065641556204306967nat, 21472145653768864751828062718240390280751192729443809531283978235038032871245int);
    lemma_pow_step(5int, 28948022309329048855892746252171976963363056481941560715954676764349967630337int, 3010359773019792540704065641556204306967nat, 21472145653768864751828062718240390280751192729443809531283978235038032871245int, 1nat, 6020719546039585081408131283112408613935nat, 21921519228109379798545669329028649813008349810797837019187654011160387673681int);
    lemma_pow_step(5int, 28948022309329048855892746252171976963363056481941560715954676764349967630337int, 6020719546039585081408131283112408613935nat, 21921519228109379798545669329028649813008349810797837019187654011160387673681int, 0nat, 12041439092079170162816262566224817227870nat, 1009559670177696091167281733345159791997934299035804245310227972467433492168int);
    lemma_pow_step(5int, 28948022309329048855892746252171976963363056481941560715954676764349967630337int, 12041439092079170162816262566224817227870nat, 1009559670177696091167281733345159791997934299035804245310227972467433492168int, 0nat, 24082878184158340325632525132449634455740nat, 5286611498587676010459115451405267469708101360449511572903250670820529900517int);
    lemma_pow_step(5int, 28948022309329048855892746252171976963363056481941560715954676764349967630337int, 24082878184158340325632525132449634455740nat, 5286611498587676010459115451405267469708101360449511572903250670820529900517int, 0nat, 48165756368316680651265050264899268911480nat, 1940951562897291958715114748361100481962422710666097386595090505461178900260int);
    lemma_pow_step(5int, 28948022309329048855892746252171976963363056481941560715954676764349967630337int, 48165756368316680651265050264899268911480nat, 1940951562897291958715114748361100481962422710666097386595090505461178900260int, 1nat, 96331512736633361302530100529798537822961nat, 24496976776685886709571547248755738522075702025938800910787917824642597124523int);
    lemma_pow_step(5int, 28948022309329048855892746252171976963363056481941560715954676764349967630337int, 96331512736633361302530100529798537822961nat, 24496976776685886709571547248755738522075702025938800910787917824642597124523int, 0nat, 192663025473266722605060201059597075645922nat, 26839058601964543696189871479328272113607929430934814106937198838260242834470int);
    lemma_pow_step(5int, 28948022309329048855892746252171976963363056481941560715954676764349967630337int, 192663025473266722605060201059597075645922nat, 26839058601964543696189871479328272113607929430934814106937198838260242834470int, 0nat, 385326050946533445210120402119194151291844nat, 5110244111414985538324329301475892724598084816656083717465508826128964004237int);
    lemma_pow_step(5int, 28948022309329048855892746252171976963363056481941560715954676764349967630337int, 385326050946533445210120402119194151291844nat, 5110244111414985538324329301475892724598084816656083717465508826128964004237int, 1nat, 770652101893066890420240804238388302583689nat, 23976379790391683568889287343519881418921586368814439000454413210077165607819int);
    lemma_pow_step(5int, 28948022309329048855892746252171976963363056481941560715954676764349967630337int, 770652101893066890420240804238388302583689nat, 23976379790391683568889287343519881418921586368814439000454413210077165607819int, 0nat, 1541304203786133780840481608476776605167378nat, 756211449687543965561895767513756633615751244079393492048836498090746069274int);
    lemma_pow_step(5int, 28948022309329048855892746252171976963363056481941560715954676764349967630337int, 1541304203786133780840481608476776605167378nat, 756211449687543965561895767513756633615751244079393492048836498090746069274int, 1nat, 3082608407572267561680963216953553210334757nat, 2600356242701266681408256628866911417456526178548413524945345551790694630118int);
    lemma_pow_step(5int, 28948022309329048855892746252171976963363056481941560715954676764349967630337int, 3082608407572267561680963216953553210334757nat, 2600356242701266681408256628866911417456526178548413524945345551790694630118int, 1nat, 6165216815144535123361926433907106420669515nat, 21861205921196620480873310779044394728954901320280280671975813272622467437334int);
    lemma_pow_step(5int, 28948022309329048855892746252171976963363056481941560715954676764349967630337int, 6165216815144535123361926433907106420669515nat, 21861205921196620480873310779044394728954901320280280671975813272622467437334int, 1nat, 12330433630289070246723852867814212841339031nat, 5535341801793041657189586271996185904726886518077300604005381285663565967351int);
    lemma_pow_step(5int, 28948022309329048855892746252171976963363056481941560715954676764349967630337int, 12330433630289070246723852867814212841339031nat, 5535341801793041657189586271996185904726886518077300604005381285663565967351int, 1nat, 24660867260578140493447705735628425682678063nat, 12836009229387890200029134448321392882051344911203429607107743341945330895464int);
    lemma_pow_step(5int, 28948022309329048855892746252171976963363056481941560715954676764349967630337int, 24660867260578140493447705735628425682678063nat, 12836009229387890200029134448321392882051344911203429607107743341945330895464int, 0nat, 49321734521156280986895411471256851365356126nat, 21131591120444547940230529885631539054994173778021861327636029789950426166147int);
    lemma_pow_step(5int, 28948022309329048855892746252171976963363056481941560715954676764349967630337int, 49321734521156280986895411471256851365356126nat, 21131591120444547940230529885631539054994173778021861327636029789950426166147int, 1nat, 98643469042312561973790822942513702730712253nat, 28440893258774687021058365601236345839966641355154481925176768951803808428180int);
    lemma_pow_step(5int, 28948022309329048855892746252171976963363056481941560715954676764349967630337int, 98643469042312561973790822942513702730712253nat, 28440893258774687021058365601236345839966641355154481925176768951803808428180int, 1nat, 197286938084625123947581645885027405461424507nat, 13153422763116991572178670458391692125648450844127640837885329645083616690898int);
    lemma_pow_step(5int, 28948022309329048855892746252171976963363056481941560715954676764349967630337int, 197286938084625123947581645885027405461424507nat, 13153422763116991572178670458391692125648450844127640837885329645083616690898int, 0nat, 394573876169250247895163291770054810922849014nat, 3013891634370987603650528316393793123458003406804275276121493519926193263446int);
    lemma_pow_step(5int, 28948022309329048855892746252171976963363056481941560715954676764349967630337int, 394573876169250247895163291770054810922849014nat, 3013891634370987603650528316393793123458003406804275276121493519926193263446int, 1nat, 789147752338500495790326583540109621845698029nat, 24707016896119053991826436313977630766586567728156716595237218279084222034775int);
    lemma_pow_step(5int, 28948022309329048855892746252171976963363056481941560715954676764349967630337int, 789147752338500495790326583540109621845698029nat, 24707016896119053991826436313977630766586567728156716595237218279084222034775int, 1nat, 1578295504677000991580653167080219243691396059nat, 2804464045043559504455314968585720283679966970335604919608607157125909929577int);
    lemma_pow_step(5int, 28948022309329048855892746252171976963363056481941560715954676764349967630337int, 1578295504677000991580653167080219243691396059nat, 2804464045043559504455314968585720283679966970335604919608607157125909929577int, 0nat, 3156591009354001983161306334160438487382792118nat, 2049450170042960685077033034997520371694949113228403768899092378834651067274int);
    lemma_pow_step(5int, 28948022309329048855892746252171976963363056481941560715954676764349967630337int, 3156591009354001983161306334160438487382792118nat, 2049450170042960685077033034997520371694949113228403768899092378834651067274int, 1nat, 6313182018708003966322612668320876974765584237nat, 15819103003448823968818647289641200495278000288453356867431980188009560028455int);
    lemma_pow_step(5int, 28948022309329048855892746252171976963363056481941560715954676764349967630337int, 6313182018708003966322612668320876974765584237nat, 15819103003448823968818647289641200495278000288453356867431980188009560028455int, 1nat, 12626364037416007932645225336641753949531168475nat, 19778248079249112105103852969590510047897445549085560001194042739756482593063int);
    lemma_pow_step(5int, 28948022309329048855892746252171976963363056481941560715954676764349967630337int, 12626364037416007932645225336641753949531168475nat, 19778248079249112105103852969590510047897445549085560001194042739756482593063int, 1nat, 25252728074832015865290450673283507899062336951nat, 11441608082444614767992285887955153423840573154313817114277463824609036952835int);
    lemma_pow_step(5int, 28948022309329048855892746252171976963363056481941560715954676764349967630337int, 25252728074832015865290450673283507899062336951nat, 11441608082444614767992285887955153423840573154313817114277463824609036952835int, 1nat, 50505456149664031730580901346567015798124673903nat, 22852433244823196183794015702254490926583568725787240349352712995557415568989int);
    lemma_pow_step(5int, 28948022309329048855892746252171976963363056481941560715954676764349967630337int, 50505456149664031730580901346567015798124673903nat, 22852433244823196183794015702254490926583568725787240349352712995557415568989int, 1nat, 101010912299328063461161802693134031596249347807nat, 21154208329432299520160317286515725505119721409925323031887864267974744605507int);
    lemma_pow_step(5int, 28948022309329048855892746252171976963363056481941560715954676764349967630337int, 101010912299328063461161802693134031596249347807nat, 21154208329432299520160317286515725505119721409925323031887864267974744605507int, 0nat, 202021824598656126922323605386268063192498695614nat, 11999516132291946961524248195793576102400734783928682468003418592906520620451int);
    lemma_pow_step(5int, 28948022309329048855892746252171976963363056481941560715954676764349967630337int, 202021824598656126922323605386268063192498695614nat, 11999516132291946961524248195793576102400734783928682468003418592906520620451int, 1nat, 404043649197312253844647210772536126384997391229nat, 21805920337225535436748459176922418688527697427548789313710604866069301068300int);
    lemma_pow_step(5int, 28948022309329048855892746252171976963363056481941560715954676764349967630337int, 404043649197312253844647210772536126384997391229nat, 21805920337225535436748459176922418688527697427548789313710604866069301068300int, 1nat, 808087298394624507689294421545072252769994782459nat, 25133354287280531138337925685025821893459118826875697455793110843765845573303int);
    lemma_pow_step(5int, 28948022309329048855892746252171976963363056481941560715954676764349967630337int, 808087298394624507689294421545072252769994782459nat, 25133354287280531138337925685025821893459118826875697455793110843765845573303int, 0nat, 1616174596789249015378588843090144505539989564918nat, 1162645818711657346506372588488421783441290106786559249594636768241516880781int);
    lemma_pow_step(5int, 28948022309329048855892746252171976963363056481941560715954676764349967630337int, 1616174596789249015378588843090144505539989564918nat, 1162645818711657346506372588488421783441290106786559249594636768241516880781int, 0nat, 3232349193578498030757177686180289011079979129836nat, 15264316432379527527116151086440962378409224328509729351746103250064009542059int);
    lemma_pow_step(5int, 28948022309329048855892746252171976963363056481941560715954676764349967630337int, 3232349193578498030757177686180289011079979129836nat, 15264316432379527527116151086440962378409224328509729351746103250064009542059int, 0nat, 6464698387156996061514355372360578022159958259672nat, 10559117555459368500304677000685021462692840377269942122243702380295008768605int);
    lemma_pow_step(5int, 28948022309329048855892746252171976963363056481941560715954676764349967630337int, 6464698387156996061514355372360578022159958259672nat, 10559117555459368500304677000685021462692840377269942122243702380295008768605int, 1nat, 12929396774313992123028710744721156044319916519345nat, 10160990114064832552014225005814990497487722335290562985239940657527711675765int);
    lemma_pow_step(5int, 28948022309329048855892746252171976963363056481941560715954676764349967630337int, 12929396774313992123028710744721156044319916519345nat, 10160990114064832552014225005814990497487722335290562985239940657527711675765int, 1nat, 25858793548627984246057421489442312088639833038691nat, 10640994820450757987047745169340870203174332974924876786661549081647259150415int);
    lemma_pow_step(5int, 28948022309329048855892746252171976963363056481941560715954676764349967630337int, 25858793548627984246057421489442312088639833038691nat, 10640994820450757987047745169340870203174332974924876786661549081647259150415int, 0nat, 51717587097255968492114842978884624177279666077382nat, 779531439466302333189696109140487482005488271481656445827042754775694143686int);
    lemma_pow_step(5int, 28948022309329048855892746252171976963363056481941560715954676764349967630337int, 51717587097255968492114842978884624177279666077382nat, 779531439466302333189696109140487482005488271481656445827042754775694143686int, 1nat, 103435174194511936984229685957769248354559332154765nat, 14957868393054057701737021402305210137071323526809309382285249139492968091491int);
    lemma_pow_step(5int, 28948022309329048855892746252171976963363056481941560715954676764349967630337int, 103435174194511936984229685957769248354559332154765nat, 14957868393054057701737021402305210137071323526809309382285249139492968091491int, 0nat, 206870348389023873968459371915538496709118664309530nat, 7778203164038389659506119713487235538829146387232405908233568866517764513571int);
    lemma_pow_step(5int, 28948022309329048855892746252171976963363056481941560715954676764349967630337int, 206870348389023873968459371915538496709118664309530nat, 7778203164038389659506119713487235538829146387232405908233568866517764513571int, 1nat, 413740696778047747936918743831076993418237328619061nat, 3065693809190818088410209654885591833306906742544258583004245058450857106701int);
    lemma_pow_step(5int, 28948022309329048855892746252171976963363056481941560715954676764349967630337int, 413740696778047747936918743831076993418237328619061nat, 3065693809190818088410209654885591833306906742544258583004245058450857106701int, 0nat, 827481393556095495873837487662153986836474657238122nat, 28354031816544620362236712325318552500660894831753836519938163441893673362939int);
    lemma_pow_step(5int, 28948022309329048855892746252171976963363056481941560715954676764349967630337int, 827481393556095495873837487662153986836474657238122nat, 28354031816544620362236712325318552500660894831753836519938163441893673362939int, 1nat, 1654962787112190991747674975324307973672949314476245nat, 2982003089284123071505385646382336511686423844720900180809892100757112129955int);
    lemma_pow_step(5int, 28948022309329048855892746252171976963363056481941560715954676764349967630337int, 1654962787112190991747674975324307973672949314476245nat, 2982003089284123071505385646382336511686423844720900180809892100757112129955int, 0nat, 3309925574224381983495349950648615947345898628952490nat, 22256385799374844620487383205894058265955413628680500996978941151737893030305int);
    lemma_pow_step(5int, 28948022309329048855892746252171976963363056481941560715954676764349967630337int, 3309925574224381983495349950648615947345898628952490nat, 22256385799374844620487383205894058265955413628680500996978941151737893030305int, 0nat, 6619851148448763966990699901297231894691797257904980nat, 17981849555871462312597254482433564683873748545408487566973352527878625557487int);
    lemma_pow_step(5int, 28948022309329048855892746252171976963363056481941560715954676764349967630337int, 6619851148448763966990699901297231894691797257904980nat, 17981849555871462312597254482433564683873748545408487566973352527878625557487int, 1nat, 13239702296897527933981399802594463789383594515809961nat, 24596105266416284969599610651327811449158266667421476941747170886718306341791int);
    lemma_pow_step(5int, 28948022309329048855892746252171976963363056481941560715954676764349967630337int, 13239702296897527933981399802594463789383594515809961nat, 24596105266416284969599610651327811449158266667421476941747170886718306341791int, 1nat, 26479404593795055867962799605188927578767189031619923nat, 19873648218049764572387607479779112126761718621830427994769894811226620605308int);
    lemma_pow_step(5int, 28948022309329048855892746252171976963363056481941560715954676764349967630337int, 26479404593795055867962799605188927578767189031619923nat, 19873648218049764572387607479779112126761718621830427994769894811226620605308int, 0nat, 52958809187590111735925599210377855157534378063239846nat, 21002941013460578500225743857180199120991903077715114599006817931968746559786int);
    lemma_pow_step(5int, 28948022309329048855892746252171976963363056481941560715954676764349967630337int, 52958809187590111735925599210377855157534378063239846nat, 21002941013460578500225743857180199120991903077715114599006817931968746559786int, 1nat, 105917618375180223471851198420755710315068756126479693nat, 17322510946128929977223477034406846977322872958091775252300010356400835041485int);
    lemma_pow_step(5int, 28948022309329048855892746252171976963363056481941560715954676764349967630337int, 105917618375180223471851198420755710315068756126479693nat, 17322510946128929977223477034406846977322872958091775252300010356400835041485int, 1nat, 211835236750360446943702396841511420630137512252959387nat, 17851907845618336717831389816457115919317569211385357451727377261770201500517int);
    lemma_pow_step(5int, 28948022309329048855892746252171976963363056481941560715954676764349967630337int, 211835236750360446943702396841511420630137512252959387nat, 17851907845618336717831389816457115919317569211385357451727377261770201500517int, 1nat, 423670473500720893887404793683022841260275024505918775nat, 26209234638243725728177719141162891244019382803847657761426954894463558339153int);
    lemma_pow_step(5int, 28948022309329048855892746252171976963363056481941560715954676764349967630337int, 423670473500720893887404793683022841260275024505918775nat, 26209234638243725728177719141162891244019382803847657761426954894463558339153int, 0nat, 847340947001441787774809587366045682520550049011837550nat, 8517615482209418078780476381707823678268630146257625044536764815760931005557int);
    lemma_pow_step(5int, 28948022309329048855892746252171976963363056481941560715954676764349967630337int, 847340947001441787774809587366045682520550049011837550nat, 8517615482209418078780476381707823678268630146257625044536764815760931005557int, 1nat, 1694681894002883575549619174732091365041100098023675101nat, 16598102250358208670654303655942564055396645988781283716401188902327726344297int);
    lemma_pow_step(5int, 28948022309329048855892746252171976963363056481941560715954676764349967630337int, 1694681894002883575549619174732091365041100098023675101nat, 16598102250358208670654303655942564055396645988781283716401188902327726344297int, 0nat, 3389363788005767151099238349464182730082200196047350202nat, 21012927052784200481148051449933855675082879640757000377017934504932847995611int);
    lemma_pow_step(5int, 28948022309329048855892746252171976963363056481941560715954676764349967630337int, 3389363788005767151099238349464182730082200196047350202nat, 21012927052784200481148051449933855675082879640757000377017934504932847995611int, 1nat, 6778727576011534302198476698928365460164400392094700405nat, 14154458719843384226152992110821911926466732891437352403547638862978492374498int);
    lemma_pow_step(5int, 28948022309329048855892746252171976963363056481941560715954676764349967630337int, 6778727576011534302198476698928365460164400392094700405nat, 14154458719843384226152992110821911926466732891437352403547638862978492374498int, 1nat, 13557455152023068604396953397856730920328800784189400811nat, 17494260153932074391672257892688065773231671329332880564811127565392901469811int);
    lemma_pow_step(5int, 28948022309329048855892746252171976963363056481941560715954676764349967630337int, 13557455152023068604396953397856730920328800784189400811nat, 17494260153932074391672257892688065773231671329332880564811127565392901469811int, 1nat, 27114910304046137208793906795713461840657601568378801623nat, 6369624140204555858978352549474884989687775426835022465965041704403329070922int);
    lemma_pow_step(5int, 28948022309329048855892746252171976963363056481941560715954676764349967630337int, 27114910304046137208793906795713461840657601568378801623nat, 6369624140204555858978352549474884989687775426835022465965041704403329070922int, 1nat, 54229820608092274417587813591426923681315203136757603247nat, 19844919131303838409941152367816608798630994563897390667536972947646763737135int);
    lemma_pow_step(5int, 28948022309329048855892746252171976963363056481941560715954676764349967630337int, 54229820608092274417587813591426923681315203136757603247nat, 19844919131303838409941152367816608798630994563897390667536972947646763737135int, 0nat, 108459641216184548835175627182853847362630406273515206494nat, 28022190010286479836583224936748018474462649750714553602431948624558383332886int);
    lemma_pow_step(5int, 28948022309329048855892746252171976963363056481941560715954676764349967630337int, 108459641216184548835175627182853847362630406273515206494nat, 28022190010286479836583224936748018474462649750714553602431948624558383332886int, 0nat, 216919282432369097670351254365707694725260812547030412988nat, 18214030017693428424582368700197062614732088895261964110629788178479011977803int);
    lemma_pow_step(5int, 28948022309329048855892746252171976963363056481941560715954676764349967630337int, 216919282432369097670351254365707694725260812547030412988nat, 18214030017693428424582368700197062614732088895261964110629788178479011977803int, 0nat, 433838564864738195340702508731415389450521625094060825976nat, 9616462535078002161823583780469893341276187091612126842271752290547888120927int);
    lemma_pow_step(5int, 28948022309329048855892746252171976963363056481941560715954676764349967630337int, 433838564864738195340702508731415389450521625094060825976nat, 9616462535078002161823583780469893341276187091612126842271752290547888120927int, 1nat, 867677129729476390681405017462830778901043250188121651953nat, 310308138868112170324983206604381584432880951540503974750613230939442846420int);
    lemma_pow_step(5int, 28948022309329048855892746252171976963363056481941560715954676764349967630337int, 867677129729476390681405017462830778901043250188121651953nat, 310308138868112170324983206604381584432880951540503974750613230939442846420int, 1nat, 1735354259458952781362810034925661557802086500376243303907nat, 23374616610262709639161908039645495467598289865939326454985015752728605255759int);
    lemma_pow_step(5int, 28948022309329048855892746252171976963363056481941560715954676764349967630337int, 1735354259458952781362810034925661557802086500376243303907nat, 23374616610262709639161908039645495467598289865939326454985015752728605255759int, 1nat, 3470708518917905562725620069851323115604173000752486607815nat, 16901346744834393680359171045109308084148639472235125913431794346934173667437int);
    lemma_pow_step(5int, 28948022309329048855892746252171976963363056481941560715954676764349967630337int, 3470708518917905562725620069851323115604173000752486607815nat, 16901346744834393680359171045109308084148639472235125913431794346934173667437int, 1nat, 6941417037835811125451240139702646231208346001504973215631nat, 13260782613090425649736312777725870878501940206612605128755634936978680594439int);
    lemma_pow_step(5int, 28948022309329048855892746252171976963363056481941560715954676764349967630337int, 6941417037835811125451240139702646231208346001504973215631nat, 13260782613090425649736312777725870878501940206612605128755634936978680594439int, 1nat, 13882834075671622250902480279405292462416692003009946431263nat, 11100423838163332241759932940938370253085443298717975472040663361889985887103int);
    lemma_pow_step(5int, 28948022309329048855892746252171976963363056481941560715954676764349967630337int, 13882834075671622250902480279405292462416692003009946431263nat, 11100423838163332241759932940938370253085443298717975472040663361889985887103int, 0nat, 27765668151343244501804960558810584924833384006019892862526nat, 23166293592228937009617756665247406192667172803457985714443169787509089490084int);
    lemma_pow_step(5int, 28948022309329048855892746252171976963363056481941560715954676764349967630337int, 27765668151343244501804960558810584924833384006019892862526nat, 23166293592228937009617756665247406192667172803457985714443169787509089490084int, 1nat, 55531336302686489003609921117621169849666768012039785725053nat, 1159748738463518481968735344483226358906216518637565198938037855752088792362int);
    lemma_pow_step(5int, 28948022309329048855892746252171976963363056481941560715954676764349967630337int, 55531336302686489003609921117621169849666768012039785725053nat, 1159748738463518481968735344483226358906216518637565198938037855752088792362int, 0nat, 111062672605372978007219842235242339699333536024079571450106nat, 3526209072012187040022616518185426993080356298931227276059802755978372589035int);
    lemma_pow_step(5int, 28948022309329048855892746252171976963363056481941560715954676764349967630337int, 111062672605372978007219842235242339699333536024079571450106nat, 3526209072012187040022616518185426993080356298931227276059802755978372589035int, 0nat, 222125345210745956014439684470484679398667072048159142900212nat, 1818473176445186830598707552023803920761730938428813406205824935699890268341int);
    lemma_pow_step(5int, 28948022309329048855892746252171976963363056481941560715954676764349967630337int, 222125345210745956014439684470484679398667072048159142900212nat, 1818473176445186830598707552023803920761730938428813406205824935699890268341int, 0nat, 444250690421491912028879368940969358797334144096318285800424nat, 4104934926886511486385627983452036914654226897930870001358561620308202992593int);
    lemma_pow_step(5int, 28948022309329048855892746252171976963363056481941560715954676764349967630337int, 444250690421491912028879368940969358797334144096318285800424nat, 4104934926886511486385627983452036914654226897930870001358561620308202992593int, 1nat, 888501380842983824057758737881938717594668288192636571600849nat, 9656754363323374678981431516105339161642641029375612610773237282644305459627int);
    lemma_pow_step(5int, 28948022309329048855892746252171976963363056481941560715954676764349967630337int, 888501380842983824057758737881938717594668288192636571600849nat, 9656754363323374678981431516105339161642641029375612610773237282644305459627int, 1nat, 1777002761685967648115517475763877435189336576385273143201699nat, 9565446664527227540559876378929761694560474447238696842799515171967736746439int);
    lemma_pow_step(5int, 28948022309329048855892746252171976963363056481941560715954676764349967630337int, 1777002761685967648115517475763877435189336576385273143201699nat, 9565446664527227540559876378929761694560474447238696842799515171967736746439int, 1nat, 3554005523371935296231034951527754870378673152770546286403399nat, 20974941183036856272188163904567474820163023150069253865477791850184012041149int);
    lemma_pow_step(5int, 28948022309329048855892746252171976963363056481941560715954676764349967630337int, 3554005523371935296231034951527754870378673152770546286403399nat, 20974941183036856272188163904567474820163023150069253865477791850184012041149int, 1nat, 7108011046743870592462069903055509740757346305541092572806799nat, 14828616261546569163823823439716848501080548480341336832613867080545134372149int);
    lemma_pow_step(5int, 28948022309329048855892746252171976963363056481941560715954676764349967630337int, 7108011046743870592462069903055509740757346305541092572806799nat, 14828616261546569163823823439716848501080548480341336832613867080545134372149int, 1nat, 14216022093487741184924139806111019481514692611082185145613599nat, 10450387723864992657063113649517696519919075892564231082902466648624681514460int);
    lemma_pow_step(5int, 28948022309329048855892746252171976963363056481941560715954676764349967630337int, 14216022093487741184924139806111019481514692611082185145613599nat, 10450387723864992657063113649517696519919075892564231082902466648624681514460int, 0nat, 28432044186975482369848279612222038963029385222164370291227198nat, 17976002058345078582043470327907972459596998274176026479922698833081423369698int);
    lemma_pow_step(5int, 28948022309329048855892746252171976963363056481941560715954676764349967630337int, 28432044186975482369848279612222038963029385222164370291227198nat, 17976002058345078582043470327907972459596998274176026479922698833081423369698int, 0nat, 56864088373950964739696559224444077926058770444328740582454396nat, 492923914122877172480025658152345317401254805135228226493750742441509770063int);
    lemma_pow_step(5int, 28948022309329048855892746252171976963363056481941560715954676764349967630337int, 56864088373950964739696559224444077926058770444328740582454396nat, 492923914122877172480025658152345317401254805135228226493750742441509770063int, 1nat, 113728176747901929479393118448888155852117540888657481164908793nat, 20162836683315527376695949627387458258727761538545316664643251824584557424256int);
    lemma_pow_step(5int, 28948022309329048855892746252171976963363056481941560715954676764349967630337int, 113728176747901929479393118448888155852117540888657481164908793nat, 20162836683315527376695949627387458258727761538545316664643251824584557424256int, 0nat, 227456353495803858958786236897776311704235081777314962329817586nat, 3000941217464697345102002338125925618600816774205941648635395676116566981882int);
    lemma_pow_step(5int, 28948022309329048855892746252171976963363056481941560715954676764349967630337int, 227456353495803858958786236897776311704235081777314962329817586nat, 3000941217464697345102002338125925618600816774205941648635395676116566981882int, 0nat, 454912706991607717917572473795552623408470163554629924659635172nat, 6464486109953211712291972062137867176871441156153548146851041447068771246896int);
    lemma_pow_step(5int, 28948022309329048855892746252171976963363056481941560715954676764349967630337int, 454912706991607717917572473795552623408470163554629924659635172nat, 6464486109953211712291972062137867176871441156153548146851041447068771246896int, 0nat, 909825413983215435835144947591105246816940327109259849319270344nat, 28072928483560675135498115955846308872549934943089659286482129148913284238578int);
    lemma_pow_step(5int, 28948022309329048855892746252171976963363056481941560715954676764349967630337int, 909825413983215435835144947591105246816940327109259849319270344nat, 28072928483560675135498115955846308872549934943089659286482129148913284238578int, 0nat, 1819650827966430871670289895182210493633880654218519698638540688nat, 26570814746072083635403288659363820211357813439740489576034475748984614363962int);
    lemma_pow_step(5int, 28948022309329048855892746252171976963363056481941560715954676764349967630337int, 1819650827966430871670289895182210493633880654218519698638540688nat, 26570814746072083635403288659363820211357813439740489576034475748984614363962int, 0nat, 3639301655932861743340579790364420987267761308437039397277081376nat, 27376409652829982458390693505347069714561840220766097582026950866404222657524int);
    lemma_pow_step(5int, 28948022309329048855892746252171976963363056481941560715954676764349967630337int, 3639301655932861743340579790364420987267761308437039397277081376nat, 27376409652829982458390693505347069714561840220766097582026950866404222657524int, 1nat, 7278603311865723486681159580728841974535522616874078794554162753nat, 28943702340540119954814049320826652749017028985589501760770656004338786409337int);
    lemma_pow_step(5int, 28948022309329048855892746252171976963363056481941560715954676764349967630337int, 7278603311865723486681159580728841974535522616874078794554162753nat, 28943702340540119954814049320826652749017028985589501760770656004338786409337int, 1nat, 14557206623731446973362319161457683949071045233748157589108325507nat, 4984836448926441346596283977269280738496830455913627834368089483390897721126int);
    lemma_pow_step(5int, 28948022309329048855892746252171976963363056481941560715954676764349967630337int, 14557206623731446973362319161457683949071045233748157589108325507nat, 4984836448926441346596283977269280738496830455913627834368089483390897721126int, 0nat, 29114413247462893946724638322915367898142090467496315178216651014nat, 4288353973968785215333134050876004955798896002482707970144133841572475143475int);
    lemma_pow_step(5int, 28948022309329048855892746252171976963363056481941560715954676764349967630337int, 29114413247462893946724638322915367898142090467496315178216651014nat, 4288353973968785215333134050876004955798896002482707970144133841572475143475int, 0nat, 58228826494925787893449276645830735796284180934992630356433302028nat, 13070946868703862882028593213675554853255505046168051446727540377010576472485int);
    lemma_pow_step(5int, 28948022309329048855892746252171976963363056481941560715954676764349967630337int, 58228826494925787893449276645830735796284180934992630356433302028nat, 13070946868703862882028593213675554853255505046168051446727540377010576472485int, 0nat, 116457652989851575786898553291661471592568361869985260712866604056nat, 7971057058721445459494535092366795491641013411161021661063557311931995649573int);
    lemma_pow_step(5int, 28948022309329048855892746252171976963363056481941560715954676764349967630337int, 116457652989851575786898553291661471592568361869985260712866604056nat, 7971057058721445459494535092366795491641013411161021661063557311931995649573int, 0nat, 232915305979703151573797106583322943185136723739970521425733208112nat, 9299244292097195521062111549338696966404274599507158401374935517545064322444int);
    lemma_pow_step(5int, 28948022309329048855892746252171976963363056481941560715954676764349967630337int, 232915305979703151573797106583322943185136723739970521425733208112nat, 9299244292097195521062111549338696966404274599507158401374935517545064322444int, 0nat, 465830611959406303147594213166645886370273447479941042851466416224nat, 19386473104494070876223753799170955675872624573322700388979048278168437270398int);
    lemma_pow_step(5int, 28948022309329048855892746252171976963363056481941560715954676764349967630337int, 465830611959406303147594213166645886370273447479941042851466416224nat, 19386473104494070876223753799170955675872624573322700388979048278168437270398int, 0nat, 931661223918812606295188426333291772740546894959882085702932832448nat, 11069437544336737068369046524123732190304081040943594553698214940958477374199int);
    lemma_pow_step(5int, 28948022309329048855892746252171976963363056481941560715954676764349967630337int, 931661223918812606295188426333291772740546894959882085702932832448nat, 11069437544336737068369046524123732190304081040943594553698214940958477374199int, 0nat, 1863322447837625212590376852666583545481093789919764171405865664896nat, 6037046009948429829266986917508731711310444476840319408478849278400922326796int);
    lemma_pow_step(5int, 28948022309329048855892746252171976963363056481941560715954676764349967630337int, 1863322447837625212590376852666583545481093789919764171405865664896nat, 6037046009948429829266986917508731711310444476840319408478849278400922326796int, 0nat, 3726644895675250425180753705333167090962187579839528342811731329792nat, 19762408662892757549465974980449944081743759472116667835523663440293389249175int);
    lemma_pow_step(5int, 28948022309329048855892746252171976963363056481941560715954676764349967630337int, 3726644895675250425180753705333167090962187579839528342811731329792nat, 19762408662892757549465974980449944081743759472116667835523663440293389249175int, 0nat, 7453289791350500850361507410666334181924375159679056685623462659584nat, 24129216439394190722799746998015609895076463195497067062715585822974971673272int);
    lemma_pow_step(5int, 28948022309329048855892746252171976963363056481941560715954676764349967630337int, 7453289791350500850361507410666334181924375159679056685623462659584nat, 24129216439394190722799746998015609895076463195497067062715585822974971673272int, 0nat, 14906579582701001700723014821332668363848750319358113371246925319168nat, 13759147153410160799411216628104877727151344845432948658253046283169779629708int);
    lemma_pow_step(5int, 28948022309329048855892746252171976963363056481941560715954676764349967630337int, 14906579582701001700723014821332668363848750319358113371246925319168nat, 13759147153410160799411216628104877727151344845432948658253046283169779629708int, 0nat, 29813159165402003401446029642665336727697500638716226742493850638336nat, 4966342749769411866305884933100293957828896289889097173170208965530269627198int);
    lemma_pow_step(5int, 28948022309329048855892746252171976963363056481941560715954676764349967630337int, 29813159165402003401446029642665336727697500638716226742493850638336nat, 4966342749769411866305884933100293957828896289889097173170208965530269627198int, 0nat, 59626318330804006802892059285330673455395001277432453484987701276672nat, 10362095521477295543456547440234578989769898632093174152475126026313306364182int);
    lemma_pow_step(5int, 28948022309329048855892746252171976963363056481941560715954676764349967630337int, 59626318330804006802892059285330673455395001277432453484987701276672nat, 10362095521477295543456547440234578989769898632093174152475126026313306364182int, 0nat, 119252636661608013605784118570661346910790002554864906969975402553344nat, 16080391585909836387178079680465503245942703114539360798382394721508071484377int);
    lemma_pow_step(5int, 28948022309329048855892746252171976963363056481941560715954676764349967630337int, 119252636661608013605784118570661346910790002554864906969975402553344nat, 16080391585909836387178079680465503245942703114539360798382394721508071484377int, 0nat, 238505273323216027211568237141322693821580005109729813939950805106688nat, 10156380045873657849798153618763057195425679272932277380109658986940350177734int);
    lemma_pow_step(5int, 28948022309329048855892746252171976963363056481941560715954676764349967630337int, 238505273323216027211568237141322693821580005109729813939950805106688nat, 10156380045873657849798153618763057195425679272932277380109658986940350177734int, 0nat, 477010546646432054423136474282645387643160010219459627879901610213376nat, 3444521704517496266702153328409619433488933795630035772503405873467676086258int);
    lemma_pow_step(5int, 28948022309329048855892746252171976963363056481941560715954676764349967630337int, 477010546646432054423136474282645387643160010219459627879901610213376nat, 3444521704517496266702153328409619433488933795630035772503405873467676086258int, 0nat, 954021093292864108846272948565290775286320020438919255759803220426752nat, 23009607503470637983005578123540583127633677092842087042900861852531524633708int);
    lemma_pow_step(5int, 28948022309329048855892746252171976963363056481941560715954676764349967630337int, 954021093292864108846272948565290775286320020438919255759803220426752nat, 23009607503470637983005578123540583127633677092842087042900861852531524633708int, 0nat, 1908042186585728217692545897130581550572640040877838511519606440853504nat, 23642447244420600370991394853075482170851500916951497672432896656631115543353int);
    lemma_pow_step(5int, 28948022309329048855892746252171976963363056481941560715954676764349967630337int, 1908042186585728217692545897130581550572640040877838511519606440853504nat, 23642447244420600370991394853075482170851500916951497672432896656631115543353int, 0nat, 3816084373171456435385091794261163101145280081755677023039212881707008nat, 19808196344269675890245942821380110982714438640384046979398624188124575626206int);
    lemma_pow_step(5int, 28948022309329048855892746252171976963363056481941560715954676764349967630337int, 3816084373171456435385091794261163101145280081755677023039212881707008nat, 19808196344269675890245942821380110982714438640384046979398624188124575626206int, 0nat, 7632168746342912870770183588522326202290560163511354046078425763414016nat, 21629419324530226462157071301524043871855073555123916751315821385706110274355int);
    lemma_pow_step(5int, 28948022309329048855892746252171976963363056481941560715954676764349967630337int, 7632168746342912870770183588522326202290560163511354046078425763414016nat, 21629419324530226462157071301524043871855073555123916751315821385706110274355int, 0nat, 15264337492685825741540367177044652404581120327022708092156851526828032nat, 5518832938838036465383251802453135567383688726065550898973992866927306202842int);
    lemma_pow_step(5int, 28948022309329048855892746252171976963363056481941560715954676764349967630337int, 15264337492685825741540367177044652404581120327022708092156851526828032nat, 5518832938838036465383251802453135567383688726065550898973992866927306202842int, 0nat, 30528674985371651483080734354089304809162240654045416184313703053656064nat, 11107621456296102165325319424205025579142878038718304044599490850531145993651int);
    lemma_pow_step(5int, 28948022309329048855892746252171976963363056481941560715954676764349967630337int, 30528674985371651483080734354089304809162240654045416184313703053656064nat, 11107621456296102165325319424205025579142878038718304044599490850531145993651int, 0nat, 61057349970743302966161468708178609618324481308090832368627406107312128nat, 17962433571180607874219782370979742968202925040022107761177060815575935519043int);
    lemma_pow_step(5int, 28948022309329048855892746252171976963363056481941560715954676764349967630337int, 61057349970743302966161468708178609618324481308090832368627406107312128nat, 17962433571180607874219782370979742968202925040022107761177060815575935519043int, 0nat, 122114699941486605932322937416357219236648962616181664737254812214624256nat, 19290039321272872306818666124473891133986619334294001190821152181233618645065int);
    lemma_pow_step(5int, 28948022309329048855892746252171976963363056481941560715954676764349967630337int, 122114699941486605932322937416357219236648962616181664737254812214624256nat, 19290039321272872306818666124473891133986619334294001190821152181233618645065int, 0nat, 244229399882973211864645874832714438473297925232363329474509624429248512nat, 15265241973626348312583446839439967514281456762370262891065917059277335042075int);
    lemma_pow_step(5int, 28948022309329048855892746252171976963363056481941560715954676764349967630337int, 244229399882973211864645874832714438473297925232363329474509624429248512nat, 15265241973626348312583446839439967514281456762370262891065917059277335042075int, 0nat, 488458799765946423729291749665428876946595850464726658949019248858497024nat, 18830784180041664763853702962862630062337640906069443815290499107870307321017int);
    lemma_pow_step(5int, 28948022309329048855892746252171976963363056481941560715954676764349967630337int, 488458799765946423729291749665428876946595850464726658949019248858497024nat, 18830784180041664763853702962862630062337640906069443815290499107870307321017int, 0nat, 976917599531892847458583499330857753893191700929453317898038497716994048nat, 910641907335080463837883397713365250741863051706341470301355054794045076388int);
    lemma_pow_step(5int, 28948022309329048855892746252171976963363056481941560715954676764349967630337int, 976917599531892847458583499330857753893191700929453317898038497716994048nat, 910641907335080463837883397713365250741863051706341470301355054794045076388int, 0nat, 1953835199063785694917166998661715507786383401858906635796076995433988096nat, 8829595423733674263071060927344373030536296214052939099277023544269659928686int);
    lemma_pow_step(5int, 28948022309329048855892746252171976963363056481941560715954676764349967630337int, 1953835199063785694917166998661715507786383401858906635796076995433988096nat, 8829595423733674263071060927344373030536296214052939099277023544269659928686int, 0nat, 3907670398127571389834333997323431015572766803717813271592153990867976192nat, 21690243645673620379097652959599919755153590943309406414748986125997655519686int);
    lemma_pow_step(5int, 28948022309329048855892746252171976963363056481941560715954676764349967630337int, 3907670398127571389834333997323431015572766803717813271592153990867976192nat, 21690243645673620379097652959599919755153590943309406414748986125997655519686int, 0nat, 7815340796255142779668667994646862031145533607435626543184307981735952384nat, 28843367392828554366914059971139406050484102767871534455016916553193575337760int);
    lemma_pow_step(5int, 28948022309329048855892746252171976963363056481941560715954676764349967630337int, 7815340796255142779668667994646862031145533607435626543184307981735952384nat, 28843367392828554366914059971139406050484102767871534455016916553193575337760int, 0nat, 15630681592510285559337335989293724062291067214871253086368615963471904768nat, 8405083907991941584696891983468485534885630101740666163952268367289078198065int);
    lemma_pow_step(5int, 28948022309329048855892746252171976963363056481941560715954676764349967630337int, 15630681592510285559337335989293724062291067214871253086368615963471904768nat, 8405083907991941584696891983468485534885630101740666163952268367289078198065int, 0nat, 31261363185020571118674671978587448124582134429742506172737231926943809536nat, 13164247178047164253263640336310380548588921440718339733852818562927395081081int);
    lemma_pow_step(5int, 28948022309329048855892746252171976963363056481941560715954676764349967630337int, 31261363185020571118674671978587448124582134429742506172737231926943809536nat, 13164247178047164253263640336310380548588921440718339733852818562927395081081int, 0nat, 62522726370041142237349343957174896249164268859485012345474463853887619072nat, 21130164847715179260305574026050308433852420324783633235003921985597389212508int);
}

/// `5^53686582332509037086971591707806806267914632360185823232` modulo `28948022309329048855892746252171976963363056481941560715954676764349967630337`, by square-and-multiply.
proof fn lemma_pow_28948022309329048855892746252171976963363056481941560715954676764349967630337_by_539204044132271846773()
    ensures
        pow(5int, 53686582332509037086971591707806806267914632360185823232nat) % 28948022309329048855892746252171976963363056481941560715954676764349967630337int == 12708223814453757661368674774463026954997156495664362173913458310178886824313int,
{
    lemma_pow_start(5int, 28948022309329048855892746252171976963363056481941560715954676764349967630337int, 5int);
    lemma_pow_step(5int, 28948022309329048855892746252171976963363056481941560715954676764349967630337int, 1nat, 5int, 0nat, 2nat, 25int);
    lemma_pow_step(5int, 28948022309329048855892746252171976963363056481941560715954676764349967630337int, 2nat, 25int, 0nat, 4nat, 625int);
    lemma_pow_step(5int, 28948022309329048855892746252171976963363056481941560715954676764349967630337int, 4nat, 625int, 0nat, 8nat, 390625int);
    lemma_pow_step(5int, 28948022309329048855892746252171976963363056481941560715954676764349967630337int, 8nat, 390625int, 1nat, 17nat, 762939453125int);
    lemma_pow_step(5int, 28948022309329048855892746252171976963363056481941560715954676764349967630337int, 17nat, 762939453125int, 1nat, 35nat, 2910383045673370361328125int);
    lemma_pow_step(5int, 28948022309329048855892746252171976963363056481941560715954676764349967630337int, 35nat, 2910383045673370361328125int, 0nat, 70nat, 8470329472543003390683225006796419620513916015625int);
    lemma_pow_step(5int, 28948022309329048855892746252171976963363056481941560715954676764349967630337int, 70nat, 8470329472543003390683225006796419620513916015625int, 0nat, 140nat, 15620506357152768353840174422387729145649543669497891890280124474918578169414int);
    lemma_pow_step(5int, 28948022309329048855892746252171976963363056481941560715954676764349967630337int, 140nat, 15620506357152768353840174422387729145649543669497891890280124474918578169414int, 0nat, 280nat, 24572952466429010016836913001114436464209707347748524397477368291612629441495int);
    lemma_pow_step(5int, 28948022309329048855892746252171976963363056481941560715954676764349967630337int, 280nat, 24572952466429010016836913001114436464209707347748524397477368291612629441495int, 0nat, 560nat, 23585424341733104765917511433652892609320761994671406968952177747134152148111int);
    lemma_pow_step(5int, 28948022309329048855892746252171976963363056481941560715954676764349967630337int, 560nat, 23585424341733104765917511433652892609320761994671406968952177747134152148111int, 1nat, 1121nat, 18493090301720147195962348594231790476435042323095890552926738658848550172413int);
    lemma_pow_step(5int, 28948022309329048855892746252171976963363056481941560715954676764349967630337int, 1121nat, 18493090301720147195962348594231790476435042323095890552926738658848550172413int, 0nat, 2242nat, 3911866292293984577369444165370458427078465666615422929122640244625832689757int);
    lemma_pow_step(5int, 28948022309329048855892746252171976963363056481941560715954676764349967630337int, 2242nat, 3911866292293984577369444165370458427078465666615422929122640244625832689757int, 0nat, 4484nat, 1561627410445044471517495729481278986273962898999974267268275081492429866051int);
    lemma_pow_step(5int, 28948022309329048855892746252171976963363056481941560715954676764349967630337int, 4484nat, 1561627410445044471517495729481278986273962898999974267268275081492429866051int, 0nat, 8968nat, 21412181716868822648087179024630851929449197237331565863017485092555404502470int);
    lemma_pow_step(5int, 28948022309329048855892746252171976963363056481941560715954676764349967630337int, 8968nat, 21412181716868822648087179024630851929449197237331565863017485092555404502470int, 0nat, 17936nat, 20419120738704571930676750010419956992031369790393648790520264843389294401996int);
    lemma_pow_step(5int, 28948022309329048855892746252171976963363056481941560715954676764349967630337int, 17936nat, 20419120738704571930676750010419956992031369790393648790520264843389294401996int, 0nat, 35872nat, 10217671510297395734009327059460417766165108329149153038773239829726160692085int);
    lemma_pow_step(5int, 28948022309329048855892746252171976963363056481941560715954676764349967630337int, 35872nat, 10217671510297395734009327059460417766165108329149153038773239829726160692085int, 1nat, 71745nat, 13679692647944177241199328206895656792926482786400960308221200990242268440995int);
    lemma_pow_step(5int, 28948022309329048855892746252171976963363056481941560715954676764349967630337int, 71745nat, 13679692647944177241199328206895656792926482786400960308221200990242268440995int, 1nat, 143491nat, 18944163369401010777900659734330688663344569068278636120440153563412622037084int);
    lemma_pow_step(5int, 28948022309329048855892746252171976963363056481941560715954676764349967630337int, 143491nat, 18944163369401010777900659734330688663344569068278636120440153563412622037084int, 1nat, 286983nat, 5741241789500110769421479587025336476431440143628481868493898995236561803642int);
    lemma_pow_step(5int, 28948022309329048855892746252171976963363056481941560715954676764349967630337int, 286983nat, 5741241789500110769421479587025336476431440143628481868493898995236561803642int, 0nat, 573966nat, 9311039904502690423578406440321033106019081795057248926417247551566674752432int);
    lemma_pow_step(5int, 28948022309329048855892746252171976963363056481941560715954676764349967630337int, 573966nat, 9311039904502690423578406440321033106019081795057248926417247551566674752432int, 0nat, 1147932nat, 18883622238407718487863069873123061440910600815113401172746523162433814047528int);
    lemma_pow_step(5int, 28948022309329048855892746252171976963363056481941560715954676764349967630337int, 1147932nat, 18883622238407718487863069873123061440910600815113401172746523162433814047528int, 1nat, 2295865nat, 11773550956218813100058097840592520707621640857309009113309131084686196627696int);
    lemma_pow_step(5int, 28948022309329048855892746252171976963363056481941560715954676764349967630337int, 2295865nat, 11773550956218813100058097840592520707621640857309009113309131084686196627696int, 1nat, 4591731nat, 3874691417777175930840141118809873218791334587829149627505144926430271040529int);
    lemma_pow_step(5int, 28948022309329048855892746252171976963363056481941560715954676764349967630337int, 4591731nat, 3874691417777175930840141118809873218791334587829149627505144926430271040529int, 0nat, 9183462nat, 21461332486900926034636492567671752356197604393685036167321724088559482795408int);
    lemma_pow_step(5int, 28948022309329048855892746252171976963363056481941560715954676764349967630337int, 9183462nat, 21461332486900926034636492567671752356197604393685036167321724088559482795408int, 1nat, 18366925nat, 28259638021783636592396959147462783267293518721751162401699531266458953553041int);
    lemma_pow_step(5int, 28948022309329048855892746252171976963363056481941560715954676764349967630337int, 18366925nat, 28259638021783636592396959147462783267293518721751162401699531266458953553041int, 0nat, 36733850nat, 26958762153707957514785490848875289420477176844536128379246402880430368043025int);
    lemma_pow_step(5int, 28948022309329048855892746252171976963363056481941560715954676764349967630337int, 36733850nat, 26958762153707957514785490848875289420477176844536128379246402880430368043025int, 0nat, 73467700nat, 10400869393800501449648086105354613133780519166331803628262720274795192721313int);
    lemma_pow_step(5int, 28948022309329048855892746252171976963363056481941560715954676764349967630337int, 73467700nat, 10400869393800501449648086105354613133780519166331803628262720274795192721313int, 1nat, 146935401nat, 23349546434280961751425815184982398987446642563147366654613593114959733931831int);
    lemma_pow_step(5int, 28948022309329048855892746252171976963363056481941560715954676764349967630337int, 146935401nat, 23349546434280961751425815184982398987446642563147366654613593114959733931831int, 0nat, 293870802nat, 4365961111333790004322381986544597194416315953551019169233119177398381166582int);
    lemma_pow_step(5int, 28948022309329048855892746252171976963363056481941560715954676764349967630337int, 293870802nat, 4365961111333790004322381986544597194416315953551019169233119177398381166582int, 0nat, 587741604nat, 14078935526823329735063778644214890130161152772775111927495062343860756387564int);
    lemma_pow_step(5int, 28948022309329048855892746252171976963363056481941560715954676764349967630337int, 587741604nat, 14078935526823329735063778644214890130161152772775111927495062343860756387564int, 1nat, 1175483209nat, 14077554965737740200014630954490456103402422270525511941016542050199219083563int);
    lemma_pow_step(5int, 28948022309329048855892746252171976963363056481941560715954676764349967630337int, 1175483209nat, 14077554965737740200014630954490456103402422270525511941016542050199219083563int, 0nat, 2350966418nat, 16782327966642244592754089518704305900632191945381429177746602313579962551362int);
    lemma_pow_step(5int, 28948022309329048855892746252171976963363056481941560715954676764349967630337int, 2350966418nat, 16782327966642244592754089518704305900632191945381429177746602313579962551362int, 0nat, 4701932836nat, 12081913471589348291210126420049814459598205715079116750290972222353501306849int);
    lemma_pow_step(5int, 28948022309329048855892746252171976963363056481941560715954676764349967630337int, 4701932836nat, 12081913471589348291210126420049814459598205715079116750290972222353501306849int, 0nat, 9403865672nat, 25056732727911125059172071010874040294927059828245336573824143527123345461594int);
    lemma_pow_step(5int, 28948022309329048855892746252171976963363056481941560715954676764349967630337int, 9403865672nat, 25056732727911125059172071010874040294927059828245336573824143527123345461594int, 0nat, 18807731344nat, 12235212836902580917619851133544956985493976996808666686910333378682156078995int);
    lemma_pow_step(5int, 28948022309329048855892746252171976963363056481941560715954676764349967630337int, 18807731344nat, 12235212836902580917619851133544956985493976996808666686910333378682156078995int, 0nat, 37615462688nat, 23836980695889610832176056177212211548119813780205937449692391425391751161774int);
    lemma_pow_step(5int, 28948022309329048855892746252171976963363056481941560715954676764349967630337int, 37615462688nat, 23836980695889610832176056177212211548119813780205937449692391425391751161774int, 1nat, 75230925377nat, 9340821876882429295551948312961396138239066611415728599610826621826392123284int);
    lemma_pow_step(5int, 28948022309329048855892746252171976963363056481941560715954676764349967630337int, 75230925377nat, 9340821876882429295551948312961396138239066611415728599610826621826392123284int, 0nat, 150461850754nat, 7050230009435612280861552475093097844582219952616395312149151660815134612534int);
    lemma_pow_step(5int, 28948022309329048855892746252171976963363056481941560715954676764349967630337int, 150461850754nat, 7050230009435612280861552475093097844582219952616395312149151660815134612534int, 1nat, 300923701509nat, 14549025313687666359730504012656409363222705630147008412299116653048593544841int);
    lemma_pow_step(5int, 28948022309329048855892746252171976963363056481941560715954676764349967630337int, 300923701509nat, 14549025313687666359730504012656409363222705630147008412299116653048593544841int, 1nat, 601847403019nat, 17678104195083567522337392656930404235127047775779194322688752147764506177116int);
    lemma_pow_step(5int, 28948022309329048855892746252171976963363056481941560715954676764349967630337int, 601847403019nat, 17678104195083567522337392656930404235127047775779194322688752147764506177116int, 0nat, 1203694806038nat, 18050065351317239310168878437413553727350869140650357335746093899898961526505int);
    lemma_pow_step(5int, 28948022309329048855892746252171976963363056481941560715954676764349967630337int, 1203694806038nat, 18050065351317239310168878437413553727350869140650357335746093899898961526505int, 0nat, 2407389612076nat, 6035745832254359967382118631299966294920590699400231465984512815519239774648int);
    lemma_pow_step(5int, 28948022309329048855892746252171976963363056481941560715954676764349967630337int, 2407389612076nat, 6035745832254359967382118631299966294920590699400231465984512815519239774648int, 1nat, 4814779224153nat, 11421894811013472964118167129824847286322494743896430981550585874877280413229int);
    lemma_pow_step(5int, 28948022309329048855892746252171976963363056481941560715954676764349967630337int, 4814779224153nat, 11421894811013472964118167129824847286322494743896430981550585874877280413229int, 0nat, 9629558448306nat, 5211981877316179102849390814779310067455811881713751008431704357286820227488int);
    lemma_pow_step(5int, 28948022309329048855892746252171976963363056481941560715954676764349967630337int, 9629558448306nat, 5211981877316179102849390814779310067455811881713751008431704357286820227488int, 0nat, 19259116896612nat, 22636055385725751269410982714430450430836403352951865102445091359633258709721int);
    lemma_pow_step(5int, 28948022309329048855892746252171976963363056481941560715954676764349967630337int, 19259116896612nat, 22636055385725751269410982714430450430836403352951865102445091359633258709721int, 1nat, 38518233793225nat, 25028018959101382898091065835263733609938839123205419054755230630828281722769int);
    lemma_pow_step(5int, 28948022309329048855892746252171976963363056481941560715954676764349967630337int, 38518233793225nat, 25028018959101382898091065835263733609938839123205419054755230630828281722769int, 0nat, 77036467586450nat, 11293235699904290928283131398589309249517101982519965800443997923432835862707int);
    lemma_pow_step(5int, 28948022309329048855892746252171976963363056481941560715954676764349967630337int, 77036467586450nat, 11293235699904290928283131398589309249517101982519965800443997923432835862707int, 0nat, 154072935172900nat, 742797518845693064279923674335081872183265607357355119295449200678731240929int);
    lemma_pow_step(5int, 28948022309329048855892746252171976963363056481941560715954676764349967630337int, 154072935172900nat, 742797518845693064279923674335081872183265607357355119295449200678731240929int, 0nat, 308145870345800nat, 11964783110886305638644023967592595885587540866371688383542171965666413504702int);
    lemma_pow_step(5int, 28948022309329048855892746252171976963363056481941560715954676764349967630337int, 308145870345800nat, 11964783110886305638644023967592595885587540866371688383542171965666413504702int, 1nat, 616291740691601nat, 7507448717013487169087606956907886515340648175413900019087313505132918722074int);
    lemma_pow_step(5int, 28948022309329048855892746252171976963363056481941560715954676764349967630337int, 616291740691601nat, 7507448717013487169087606956907886515340648175413900019087313505132918722074int, 1nat, 1232583481383203nat, 3859746276622756427118157857396154314683061028225681559530441450495493943047int);
    lemma_pow_step(5int, 28948022309329048855892746252171976963363056481941560715954676764349967630337int, 1232583481383203nat, 3859746276622756427118157857396154314683061028225681559530441450495493943047int, 0nat, 2465166962766406nat, 21267787380429428604995664405953648982094800085937291620578223532432302783510int);
    lemma_pow_step(5int, 28948022309329048855892746252171976963363056481941560715954676764349967630337int, 2465166962766406nat, 21267787380429428604995664405953648982094800085937291620578223532432302783510int, 0nat, 4930333925532812nat, 22840537838507817006703591394107576367412106092739619095399028486827883894503int);
    lemma_pow_step(5int, 28948022309329048855892746252171976963363056481941560715954676764349967630337int, 4930333925532812nat, 22840537838507817006703591394107576367412106092739619095399028486827883894503int, 1nat, 9860667851065625nat, 7791916394517514922228824328546678990964133440304588331068728501524142519308int);
    lemma_pow_step(5int, 28948022309329048855892746252171976963363056481941560715954676764349967630337int, 9860667851065625nat, 7791916394517514922228824328546678990964133440304588331068728501524142519308int, 0nat, 19721335702131250nat, 7542868733082457953800268103933908745771768414142316868064512963757892651108int);
    lemma_pow_step(5int, 28948022309329048855892746252171976963363056481941560715954676764349967630337int, 19721335702131250nat, 7542868733082457953800268103933908745771768414142316868064512963757892651108int, 0nat, 39442671404262500nat, 4679559289610207683871048279706433691605120273616707535278326992820014768060int);
    lemma_pow_step(5int, 28948022309329048855892746252171976963363056481941560715954676764349967630337int, 39442671404262500nat, 4679559289610207683871048279706433691605120273616707535278326992820014768060int, 0nat, 78885342808525000nat, 21538446328481903647423007577523914919665041689674075256133873155624675893200int);
    lemma_pow_step(5int, 28948022309329048855892746252171976963363056481941560715954676764349967630337int, 78885342808525000nat, 21538446328481903647423007577523914919665041689674075256133873155624675893200int, 1nat, 157770685617050001nat, 19130371509767719042486772134839266331838131547654425450290867235403400810962int);
    lemma_pow_step(5int, 28948022309329048855892746252171976963363056481941560715954676764349967630337int, 157770685617050001nat, 19130371509767719042486772134839266331838131547654425450290867235403400810962int, 0nat, 315541371234100002nat, 11635479347108660823379273623631644971447278232602673460181979234854419431098int);
    lemma_pow_step(5int, 28948022309329048855892746252171976963363056481941560715954676764349967630337int, 315541371234100002nat, 11635479347108660823379273623631644971447278232602673460181979234854419431098int, 0nat, 631082742468200004nat, 20423497169351977658673134629654880176101726746666643049862733890364989703885int);
    lemma_pow_step(5int, 28948022309329048855892746252171976963363056481941560715954676764349967630337int, 631082742468200004nat, 20423497169351977658673134629654880176101726746666643049862733890364989703885int, 0nat, 1262165484936400008nat, 24984079564306077182422191048742086162836515146097327454566424517768401817184int);
    lemma_pow_step(5int, 28948022309329048855892746252171976963363056481941560715954676764349967630337int, 1262165484936400008nat, 24984079564306077182422191048742086162836515146097327454566424517768401817184int, 0nat, 2524330969872800016nat, 11645174048453198820489685118906258655521490914063782850482516814317290478794int);
    lemma_pow_step(5int, 28948022309329048855892746252171976963363056481941560715954676764349967630337int, 2524330969872800016nat, 11645174048453198820489685118906258655521490914063782850482516814317290478794int, 1nat, 5048661939745600033nat, 19423464586131397188425842759786700518608444626082273253099559502493946454964int);
    lemma_pow_step(5int, 28948022309329048855892746252171976963363056481941560715954676764349967630337int, 5048661939745600033nat, 19423464586131397188425842759786700518608444626082273253099559502493946454964int, 0nat, 10097323879491200066nat, 24269120368357525576940767308965346107854697262258463608439415611982617358023int);
    lemma_pow_step(5int, 28948022309329048855892746252171976963363056481941560715954676764349967630337int, 10097323879491200066nat, 24269120368357525576940767308965346107854697262258463608439415611982617358023int, 1nat, 20194647758982400133nat, 15753512280071331700159850512538478092594858494772395897708786509870318127568int);
    lemma_pow_step(5int, 28948022309329048855892746252171976963363056481941560715954676764349967630337int, 20194647758982400133nat, 15753512280071331700159850512538478092594858494772395897708786509870318127568int, 1nat, 40389295517964800267nat, 12333232425415554247847281397459458258375393039826194469415435477015467390373int);
    lemma_pow_step(5int, 28948022309329048855892746252171976963363056481941560715954676764349967630337int, 40389295517964800267nat, 12333232425415554247847281397459458258375393039826194469415435477015467390373int, 0nat, 80778591035929600534nat, 5208712757450047790895334697539698296099244359483091736242110408424805516549int);
    lemma_pow_step(5int, 28948022309329048855892746252171976963363056481941560715954676764349967630337int, 80778591035929600534nat, 5208712757450047790895334697539698296099244359483091736242110408424805516549int, 0nat, 161557182071859201068nat, 22085153500155907761927805540520808101643512093665503824747460621405684125447int);
    lemma_pow_step(5int, 28948022309329048855892746252171976963363056481941560715954676764349967630337int, 161557182071859201068nat, 22085153500155907761927805540520808101643512093665503824747460621405684125447int, 0nat, 323114364143718402136nat, 6925803998661003943451895408772715246831011948289978971603723318838441049927int);
    lemma_pow_step(5int, 28948022309329048855892746252171976963363056481941560715954676764349967630337int, 323114364143718402136nat, 6925803998661003943451895408772715246831011948289978971603723318838441049927int, 0nat, 646228728287436804272nat, 17978436578754968314014865264389966688149991382240133518651933896069931843318int);
    lemma_pow_step(5int, 28948022309329048855892746252171976963363056481941560715954676764349967630337int, 646228728287436804272nat, 17978436578754968314014865264389966688149991382240133518651933896069931843318int, 0nat, 1292457456574873608544nat, 10018703946784080678446125665585486814510570050376208548124004858590345797684int);
    lemma_pow_step(5int, 28948022309329048855892746252171976963363056481941560715954676764349967630337int, 1292457456574873608544nat, 10018703946784080678446125665585486814510570050376208548124004858590345797684int, 1nat, 2584914913149747217089nat, 18740536142871912108919890964823973244190468225878534901122132944440757387033int);
    lemma_pow_step(5int, 28948022309329048855892746252171976963363056481941560715954676764349967630337int, 2584914913149747217089nat, 18740536142871912108919890964823973244190468225878534901122132944440757387033int, 1nat, 5169829826299494434179nat, 20262405951327370411721071393865475684808196979942262814541973221701988048914int);
    lemma_pow_step(5int, 28948022309329048855892746252171976963363056481941560715954676764349967630337int, 5169829826299494434179nat, 20262405951327370411721071393865475684808196979942262814541973221701988048914int, 1nat, 10339659652598988868359nat, 23141332307981529104392332996070741756260702416170434980582477699367291612550int);
    lemma_pow_step(5int, 28948022309329048855892746252171976963363056481941560715954676764349967630337int, 10339659652598988868359nat, 23141332307981529104392332996070741756260702416170434980582477699367291612550int, 0nat, 20679319305197977736718nat, 19809460109079196870733180968997627917367327769532975130766608855365535600677int);
    lemma_pow_step(5int, 28948022309329048855892746252171976963363056481941560715954676764349967630337int, 20679319305197977736718nat, 19809460109079196870733180968997627917367327769532975130766608855365535600677int, 1nat, 41358638610395955473437nat, 12074727911694228393334975671838196028566564269106238599808899947938912948814int);
    lemma_pow_step(5int, 28948022309329048855892746252171976963363056481941560715954676764349967630337int, 41358638610395955473437nat, 12074727911694228393334975671838196028566564269106238599808899947938912948814int, 1nat, 82717277220791910946875nat, 13432970793080466105920973595287706345788892645375194003243284482161781031221int);
    lemma_pow_step(5int, 28948022309329048855892746252171976963363056481941560715954676764349967630337int, 82717277220791910946875nat, 13432970793080466105920973595287706345788892645375194003243284482161781031221int, 0nat, 165434554441583821893750nat, 14739627237615157836982396609270071069190101479349032002358010546462194813567int);
    lemma_pow_step(5int, 28948022309329048855892746252171976963363056481941560715954676764349967630337int, 165434554441583821893750nat, 14739627237615157836982396609270071069190101479349032002358010546462194813567int, 1nat, 330869108883167643787501nat, 14496643948743229657405425026520188905003044594842532670965343001858646605853int);
    lemma_pow_step(5int, 28948022309329048855892746252171976963363056481941560715954676764349967630337int, 330869108883167643787501nat, 14496643948743229657405425026520188905003044594842532670965343001858646605853int, 1nat, 661738217766335287575003nat, 21558302716310450952935606220973241011509956657951837096668151258311410171751int);
    lemma_pow_step(5int, 28948022309329048855892746252171976963363056481941560715954676764349967630337int, 661738217766335287575003nat, 21558302716310450952935606220973241011509956657951837096668151258311410171751int, 0nat, 1323476435532670575150006nat, 10129757658339175177787031410913496564231513607172748524340386601963841984826int);
    lemma_pow_step(5int, 28948022309329048855892746252171976963363056481941560715954676764349967630337int, 1323476435532670575150006nat, 10129757658339175177787031410913496564231513607172748524340386601963841984826int, 0nat, 2646952871065341150300012nat, 6815847535950072141906101880336838883464729599674360719513867145020753797553int);
    lemma_pow_step(5int, 28948022309329048855892746252171976963363056481941560715954676764349967630337int, 2646952871065341150300012nat, 6815847535950072141906101880336838883464729599674360719513867145020753797553int, 1nat, 5293905742130682300600025nat, 4220328040115157384384114842145590962915746467784495997916297330978589524445int);
    lemma_pow_step(5int, 28948022309329048855892746252171976963363056481941560715954676764349967630337int, 5293905742130682300600025nat, 4220328040115157384384114842145590962915746467784495997916297330978589524445int, 1nat, 10587811484261364601200051nat, 10788158630073914103605509324605283750383378043607847203979657944612143543296int);
    lemma_pow_step(5int, 28948022309329048855892746252171976963363056481941560715954676764349967630337int, 10587811484261364601200051nat, 10788158630073914103605509324605283750383378043607847203979657944612143543296int, 0nat, 21175622968522729202400102nat, 17794501011647403877620582900036225609987147387632273993195135841631062572562int);
    lemma_pow_step(5int, 28948022309329048855892746252171976963363056481941560715954676764349967630337int, 21175622968522729202400102nat, 17794501011647403877620582900036225609987147387632273993195135841631062572562int, 1nat, 42351245937045458404800205nat, 2022625551900043212442570647938813823050892874015463003213801871359634019736int);
    lemma_pow_step(5int, 28948022309329048855892746252171976963363056481941560715954676764349967630337int, 42351245937045458404800205nat, 2022625551900043212442570647938813823050892874015463003213801871359634019736int, 1nat, 84702491874090916809600411nat, 26385308423199679319241315013682494739185255093762743197615995021953860896683int);
    lemma_pow_step(5int, 28948022309329048855892746252171976963363056481941560715954676764349967630337int, 84702491874090916809600411nat, 26385308423199679319241315013682494739185255093762743197615995021953860896683int, 0nat, 169404983748181833619200822nat, 22800857726333331401436260798314584770372412381829645246428482391156930966080int);
    lemma_pow_step(5int, 28948022309329048855892746252171976963363056481941560715954676764349967630337int, 169404983748181833619200822nat, 22800857726333331401436260798314584770372412381829645246428482391156930966080int, 0nat, 338809967496363667238401644nat, 1742062906479867341651394402474857534104032700805074071807339748297316065856int);
    lemma_pow_step(5int, 28948022309329048855892746252171976963363056481941560715954676764349967630337int, 338809967496363667238401644nat, 1742062906479867341651394402474857534104032700805074071807339748297316065856int, 0nat, 677619934992727334476803288nat, 16072199282034598037794965966501045346466558485522660484835635808097334782442int);
    lemma_pow_step(5int, 28948022309329048855892746252171976963363056481941560715954676764349967630337int, 677619934992727334476803288nat, 16072199282034598037794965966501045346466558485522660484835635808097334782442int, 0nat, 1355239869985454668953606576nat, 7909935813726952049423660397587167611871385321444347408078609315458172497009int);
    lemma_pow_step(5int, 28948022309329048855892746252171976963363056481941560715954676764349967630337int, 1355239869985454668953606576nat, 7909935813726952049423660397587167611871385321444347408078609315458172497009int, 1nat, 2710479739970909337907213153nat, 26866216109032409475901505288369567621080346550874148332091476321286449699122int);
    lemma_pow_step(5int, 28948022309329048855892746252171976963363056481941560715954676764349967630337int, 2710479739970909337907213153nat, 26866216109032409475901505288369567621080346550874148332091476321286449699122int, 1nat, 5420959479941818675814426307nat, 6241946228378557502531914194707196677957301710396916244087473929888536877709int);
    lemma_pow_step(5int, 28948022309329048855892746252171976963363056481941560715954676764349967630337int, 5420959479941818675814426307nat, 6241946228378557502531914194707196677957301710396916244087473929888536877709int, 1nat, 10841918959883637351628852615nat, 26079548694328534897959563125731339692217533683670998393736604238574918381710int);
    lemma_pow_step(5int, 28948022309329048855892746252171976963363056481941560715954676764349967630337int, 10841918959883637351628852615nat, 26079548694328534897959563125731339692217533683670998393736604238574918381710int, 0nat, 21683837919767274703257705230nat, 22754278664712280824878510775019947474986646628931018332466746243757447385823int);
    lemma_pow_step(5int, 28948022309329048855892746252171976963363056481941560715954676764349967630337int, 21683837919767274703257705230nat, 22754278664712280824878510775019947474986646628931018332466746243757447385823int, 0nat, 43367675839534549406515410460nat, 6123594133064590249691176383167554565206328941687969774196249061169479674993int);
    lemma_pow_step(5int, 28948022309329048855892746252171976963363056481941560715954676764349967630337int, 43367675839534549406515410460nat, 6123594133064590249691176383167554565206328941687969774196249061169479674993int, 1nat, 86735351679069098813030820921nat, 10223232293928023518619572314525734076993408141800973149674831717050026085217int);
    lemma_pow_step(5int, 28948022309329048855892746252171976963363056481941560715954676764349967630337int, 86735351679069098813030820921nat, 10223232293928023518619572314525734076993408141800973149674831717050026085217int, 0nat, 173470703358138197626061641842nat, 1813610939876560061637910953516901233754173636605851517863212250310727728571int);
    lemma_pow_step(5int, 28948022309329048855892746252171976963363056481941560715954676764349967630337int, 173470703358138197626061641842nat, 1813610939876560061637910953516901233754173636605851517863212250310727728571int, 1nat, 346941406716276395252123283685nat, 2202603127147582009578969829695967407071924879179553463605074341083409249215int);
    lemma_pow_step(5int, 28948022309329048855892746252171976963363056481941560715954676764349967630337int, 346941406716276395252123283685nat, 2202603127147582009578969829695967407071924879179553463605074341083409249215int, 0nat, 693882813432552790504246567370nat, 2420741253204310948060777906193854386505159615909576389045865657619236149608int);
    lemma_pow_step(5int, 28948022309329048855892746252171976963363056481941560715954676764349967630337int, 693882813432552790504246567370nat, 2420741253204310948060777906193854386505159615909576389045865657619236149608int, 1nat, 1387765626865105581008493134741nat, 10701455276257379392791617884612412674683336924838251324426233342439020558715int);
    lemma_pow_step(5int, 28948022309329048855892746252171976963363056481941560715954676764349967630337int, 1387765626865105581008493134741nat, 10701455276257379392791617884612412674683336924838251324426233342439020558715int, 1nat, 2775531253730211162016986269483nat, 2052815356205176825912036295482756540976918770489318671897503038806232084400int);
    lemma_pow_step(5int, 28948022309329048855892746252171976963363056481941560715954676764349967630337int, 2775531253730211162016986269483nat, 2052815356205176825912036295482756540976918770489318671897503038806232084400int, 1nat, 5551062507460422324033972538967nat, 7335598456250273780156868745515721091483427693666321629677425851518536879110int);
    lemma_pow_step(5int, 28948022309329048855892746252171976963363056481941560715954676764349967630337int, 5551062507460422324033972538967nat, 7335598456250273780156868745515721091483427693666321629677425851518536879110int, 1nat, 11102125014920844648067945077935nat, 27583406687634361980730657350749388213255663400859149566471882074718364297953int);
    lemma_pow_step(5int, 28948022309329048855892746252171976963363056481941560715954676764349967630337int, 11102125014920844648067945077935nat, 27583406687634361980730657350749388213255663400859149566471882074718364297953int, 1nat, 22204250029841689296135890155871nat, 22030772256502020159842846675927914046270691749558176588126492064833035814608int);
    lemma_pow_step(5int, 28948022309329048855892746252171976963363056481941560715954676764349967630337int, 22204250029841689296135890155871nat, 22030772256502020159842846675927914046270691749558176588126492064833035814608int, 1nat, 44408500059683378592271780311743nat, 706397507329873011880452555817951482937656755808976470504460259803235350561int);
    lemma_pow_step(5int, 28948022309329048855892746252171976963363056481941560715954676764349967630337int, 44408500059683378592271780311743nat, 706397507329873011880452555817951482937656755808976470504460259803235350561int, 0nat, 88817000119366757184543560623486nat, 17733940652575289265803383042812471585463075898058879431133340313898582267515int);
    lemma_pow_step(5int, 28948022309329048855892746252171976963363056481941560715954676764349967630337int, 88817000119366757184543560623486nat, 17733940652575289265803383042812471585463075898058879431133340313898582267515int, 1nat, 177634000238733514369087121246973nat, 19747745746512072188085471313646739986594231721532144685029717709367874747269int);
    lemma_pow_step(5int, 28948022309329048855892746252171976963363056481941560715954676764349967630337int, 177634000238733514369087121246973nat, 19747745746512072188085471313646739986594231721532144685029717709367874747269int, 1nat, 355268000477467028738174242493947nat, 20316775761100926815328563757875503016512052824315721468751166847470653065549int);
    lemma_pow_step(5int, 28948022309329048855892746252171976963363056481941560715954676764349967630337int, 355268000477467028738174242493947nat, 20316775761100926815328563757875503016512052824315721468751166847470653065549int, 1nat, 710536000954934057476348484987895nat, 28373671567675713598733295469764512620319183478675303203829430510907084476008int);
    lemma_pow_step(5int, 28948022309329048855892746252171976963363056481941560715954676764349967630337int, 710536000954934057476348484987895nat, 28373671567675713598733295469764512620319183478675303203829430510907084476008int, 1nat, 1421072001909868114952696969975791nat, 25970713575467699813190430938044192252043815364352145379938319665723974791282int);
    lemma_pow_step(5int, 28948022309329048855892746252171976963363056481941560715954676764349967630337int, 1421072001909868114952696969975791nat, 25970713575467699813190430938044192252043815364352145379938319665723974791282int, 0nat, 2842144003819736229905393939951582nat, 6261442956774095742537935869063992048511444149530105643189706002659844036106int);
    lemma_pow_step(5int, 28948022309329048855892746252171976963363056481941560715954676764349967630337int, 2842144003819736229905393939951582nat, 6261442956774095742537935869063992048511444149530105643189706002659844036106int, 0nat, 5684288007639472459810787879903164nat, 8309579814795018896067403325052318037173559613742654565932798596487579311750int);
    lemma_pow_step(5int, 28948022309329048855892746252171976963363056481941560715954676764349967630337int, 5684288007639472459810787879903164nat, 8309579814795018896067403325052318037173559613742654565932798596487579311750int, 0nat, 11368576015278944919621575759806328nat, 14943493719593351191218423538396530301519738675853032112677095578893234563113int);
    lemma_pow_step(5int, 28948022309329048855892746252171976963363056481941560715954676764349967630337int, 11368576015278944919621575759806328nat, 14943493719593351191218423538396530301519738675853032112677095578893234563113int, 0nat, 22737152030557889839243151519612656nat, 23807906120715757741418369438655738487123392834040394343064142885040242807766int);
    lemma_pow_step(5int, 28948022309329048855892746252171976963363056481941560715954676764349967630337int, 22737152030557889839243151519612656nat, 23807906120715757741418369438655738487123392834040394343064142885040242807766int, 1nat, 45474304061115779678486303039225313nat, 26382881353376551723077132836162032833027817936041495933025273362389852267222int);
    lemma_pow_step(5int, 28948022309329048855892746252171976963363056481941560715954676764349967630337int, 45474304061115779678486303039225313nat, 26382881353376551723077132836162032833027817936041495933025273362389852267222int, 0nat, 90948608122231559356972606078450626nat, 14053036138255660041188369974327698240871281539698574256633065489289527112440int);
    lemma_pow_step(5int, 28948022309329048855892746252171976963363056481941560715954676764349967630337int, 90948608122231559356972606078450626nat, 14053036138255660041188369974327698240871281539698574256633065489289527112440int, 0nat, 181897216244463118713945212156901252nat, 21868882122873446650105506291637074798376702220098394379486516981222555682334int);
    lemma_pow_step(5int, 28948022309329048855892746252171976963363056481941560715954676764349967630337int, 181897216244463118713945212156901252nat, 21868882122873446650105506291637074798376702220098394379486516981222555682334int, 0nat, 363794432488926237427890424313802504nat, 13787380978967307359858755098425238039010235618576248055477453819857993964176int);
    lemma_pow_step(5int, 28948022309329048855892746252171976963363056481941560715954676764349967630337int, 363794432488926237427890424313802504nat, 13787380978967307359858755098425238039010235618576248055477453819857993964176int, 1nat, 727588864977852474855780848627605009nat, 5142146122813504205705825961854664380764677183664395827782412054916507268064int);
    lemma_pow_step(5int, 28948022309329048855892746252171976963363056481941560715954676764349967630337int, 727588864977852474855780848627605009nat, 5142146122813504205705825961854664380764677183664395827782412054916507268064int, 1nat, 1455177729955704949711561697255210019nat, 26734051890224234230269030901259717259923047830687030344386953248213345999719int);
    lemma_pow_step(5int, 28948022309329048855892746252171976963363056481941560715954676764349967630337int, 1455177729955704949711561697255210019nat, 26734051890224234230269030901259717259923047830687030344386953248213345999719int, 1nat, 2910355459911409899423123394510420039nat, 14272751221044277003512639090376879949275587140900827973996744539680874630071int);
    lemma_pow_step(5int, 28948022309329048855892746252171976963363056481941560715954676764349967630337int, 2910355459911409899423123394510420039nat, 14272751221044277003512639090376879949275587140900827973996744539680874630071int, 0nat, 5820710919822819798846246789020840078nat, 4676444909087510049729792431945050856905299314257749073456068176010082655163int);
    lemma_pow_step(5int, 28948022309329048855892746252171976963363056481941560715954676764349967630337int, 5820710919822819798846246789020840078nat, 4676444909087510049729792431945050856905299314257749073456068176010082655163int, 0nat, 11641421839645639597692493578041680156nat, 22740616271984759062175369351675207089139952136550163964241064093489908792694int);
    lemma_pow_step(5int, 28948022309329048855892746252171976963363056481941560715954676764349967630337int, 11641421839645639597692493578041680156nat, 22740616271984759062175369351675207089139952136550163964241064093489908792694int, 1nat, 23282843679291279195384987156083360313nat, 26698532043510977533667548566128805454625503943037181773839542547897952957787int);
    lemma_pow_step(5int, 28948022309329048855892746252171976963363056481941560715954676764349967630337int, 23282843679291279195384987156083360313nat, 26698532043510977533667548566128805454625503943037181773839542547897952957787int, 1nat, 46565687358582558390769974312166720627nat, 18828234597600270007081285121359695561644161100909538579569754421221199887173int);
    lemma_pow_step(5int, 28948022309329048855892746252171976963363056481941560715954676764349967630337int, 46565687358582558390769974312166720627nat, 18828234597600270007081285121359695561644161100909538579569754421221199887173int, 1nat, 93131374717165116781539948624333441255nat, 10067755961805469796949607570053929605639887816783218618148518309020084876278int);
    lemma_pow_step(5int, 28948022309329048855892746252171976963363056481941560715954676764349967630337int, 93131374717165116781539948624333441255nat, 10067755961805469796949607570053929605639887816783218618148518309020084876278int, 1nat, 186262749434330233563079897248666882511nat, 21214516123474485035080832469439361838933566603185448710221876483113142896344int);
    lemma_pow_step(5int, 28948022309329048855892746252171976963363056481941560715954676764349967630337int, 186262749434330233563079897248666882511nat, 21214516123474485035080832469439361838933566603185448710221876483113142896344int, 0nat, 372525498868660467126159794497333765022nat, 15442938498334579500113208973807063512304402152133609344329782461558535630690int);
    lemma_pow_step(5int, 28948022309329048855892746252171976963363056481941560715954676764349967630337int, 372525498868660467126159794497333765022nat, 15442938498334579500113208973807063512304402152133609344329782461558535630690int, 1nat, 745050997737320934252319588994667530045nat, 2160932672416585574003856339708298506507252496924262116597435237348374920850int);
    lemma_pow_step(5int, 28948022309329048855892746252171976963363056481941560715954676764349967630337int, 745050997737320934252319588994667530045nat, 2160932672416585574003856339708298506507252496924262116597435237348374920850int, 0nat, 1490101995474641868504639177989335060090nat, 24777841604411064122459114248248410396536165349141956085572201108106970803838int);
    lemma_pow_step(5int, 28948022309329048855892746252171976963363056481941560715954676764349967630337int, 1490101995474641868504639177989335060090nat, 24777841604411064122459114248248410396536165349141956085572201108106970803838int, 0nat, 2980203990949283737009278355978670120180nat, 5679832556040389196457798789377703579811393367187259107065310622826544466559int);
    lemma_pow_step(5int, 28948022309329048855892746252171976963363056481941560715954676764349967630337int, 2980203990949283737009278355978670120180nat, 5679832556040389196457798789377703579811393367187259107065310622826544466559int, 1nat, 5960407981898567474018556711957340240361nat, 26880905092476321641624104919334301287345737732659031523928673051433656819218int);
    lemma_pow_step(5int, 28948022309329048855892746252171976963363056481941560715954676764349967630337int, 5960407981898567474018556711957340240361nat, 26880905092476321641624104919334301287345737732659031523928673051433656819218int, 0nat, 11920815963797134948037113423914680480722nat, 28076886961405649605330175530990862626537565971979487722571238828547362899055int);
    lemma_pow_step(5int, 28948022309329048855892746252171976963363056481941560715954676764349967630337int, 11920815963797134948037113423914680480722nat, 28076886961405649605330175530990862626537565971979487722571238828547362899055int, 1nat, 23841631927594269896074226847829360961445nat, 102999412811219362905901290973721973351054022356828374940456510683665006235int);
    lemma_pow_step(5int, 28948022309329048855892746252171976963363056481941560715954676764349967630337int, 23841631927594269896074226847829360961445nat, 102999412811219362905901290973721973351054022356828374940456510683665006235int, 1nat, 47683263855188539792148453695658721922891nat, 20399675939597200888977085966036087857311819420708155421426579837833667292542int);
    lemma_pow_step(5int, 28948022309329048855892746252171976963363056481941560715954676764349967630337int, 47683263855188539792148453695658721922891nat, 20399675939597200888977085966036087857311819420708155421426579837833667292542int, 1nat, 95366527710377079584296907391317443845783nat, 6490269657993792223984326018655653635859793742293854059143494333549764943660int);
    lemma_pow_step(5int, 28948022309329048855892746252171976963363056481941560715954676764349967630337int, 95366527710377079584296907391317443845783nat, 6490269657993792223984326018655653635859793742293854059143494333549764943660int, 0nat, 190733055420754159168593814782634887691566nat, 7939580963901322946201186730576192009825880074394882925918220389695122671022int);
    lemma_pow_step(5int, 28948022309329048855892746252171976963363056481941560715954676764349967630337int, 190733055420754159168593814782634887691566nat, 7939580963901322946201186730576192009825880074394882925918220389695122671022int, 1nat, 381466110841508318337187629565269775383133nat, 16311533351721037457243514278795409725633969782200529019641252840011617094284int);
    lemma_pow_step(5int, 28948022309329048855892746252171976963363056481941560715954676764349967630337int, 381466110841508318337187629565269775383133nat, 16311533351721037457243514278795409725633969782200529019641252840011617094284int, 1nat, 762932221683016636674375259130539550766267nat, 22089120520891107325118483018115694716148339223616047760211147549750856788480int);
    lemma_pow_step(5int, 28948022309329048855892746252171976963363056481941560715954676764349967630337int, 762932221683016636674375259130539550766267nat, 22089120520891107325118483018115694716148339223616047760211147549750856788480int, 0nat, 1525864443366033273348750518261079101532534nat, 8044949397080135775773308876828008855664998752043214539904657288440511015408int);
    lemma_pow_step(5int, 28948022309329048855892746252171976963363056481941560715954676764349967630337int, 1525864443366033273348750518261079101532534nat, 8044949397080135775773308876828008855664998752043214539904657288440511015408int, 0nat, 3051728886732066546697501036522158203065068nat, 4246939790262529816083053259514441023507133027715327411794490964965255857334int);
    lemma_pow_step(5int, 28948022309329048855892746252171976963363056481941560715954676764349967630337int, 3051728886732066546697501036522158203065068nat, 4246939790262529816083053259514441023507133027715327411794490964965255857334int, 0nat, 6103457773464133093395002073044316406130136nat, 8268534564608415715289016606271878763353557625844859737503150833115182062018int);
    lemma_pow_step(5int, 28948022309329048855892746252171976963363056481941560715954676764349967630337int, 6103457773464133093395002073044316406130136nat, 8268534564608415715289016606271878763353557625844859737503150833115182062018int, 1nat, 12206915546928266186790004146088632812260273nat, 11692932055789569572572944109186227121695665842596964774984220521958293216547int);
    lemma_pow_step(5int, 28948022309329048855892746252171976963363056481941560715954676764349967630337int, 12206915546928266186790004146088632812260273nat, 11692932055789569572572944109186227121695665842596964774984220521958293216547int, 1nat, 24413831093856532373580008292177265624520547nat, 12628994938033683097690726451604024915303772197409462768710217090362648891107int);
    lemma_pow_step(5int, 28948022309329048855892746252171976963363056481941560715954676764349967630337int, 24413831093856532373580008292177265624520547nat, 12628994938033683097690726451604024915303772197409462768710217090362648891107int, 0nat, 48827662187713064747160016584354531249041094nat, 10769808555152854942997755701271866557248065260685157469920612405894750861331int);
    lemma_pow_step(5int, 28948022309329048855892746252171976963363056481941560715954676764349967630337int, 48827662187713064747160016584354531249041094nat, 10769808555152854942997755701271866557248065260685157469920612405894750861331int, 1nat, 97655324375426129494320033168709062498082189nat, 20094496075643334060541801988812189181034645243748824357797049949637869488493int);
    lemma_pow_step(5int, 28948022309329048855892746252171976963363056481941560715954676764349967630337int, 97655324375426129494320033168709062498082189nat, 20094496075643334060541801988812189181034645243748824357797049949637869488493int, 0nat, 195310648750852258988640066337418124996164378nat, 15553291680923142825090714817736011575046553776691850481941408827726044586539int);
    lemma_pow_step(5int, 28948022309329048855892746252171976963363056481941560715954676764349967630337int, 195310648750852258988640066337418124996164378nat, 15553291680923142825090714817736011575046553776691850481941408827726044586539int, 0nat, 390621297501704517977280132674836249992328756nat, 25678228457124864939197861499397087284938935623999261771970089131341284778457int);
    lemma_pow_step(5int, 28948022309329048855892746252171976963363056481941560715954676764349967630337int, 390621297501704517977280132674836249992328756nat, 25678228457124864939197861499397087284938935623999261771970089131341284778457int, 1nat, 781242595003409035954560265349672499984657513nat, 9800906403474465515983324507598220158182737029580338806068231923219332353980int);
    lemma_pow_step(5int, 28948022309329048855892746252171976963363056481941560715954676764349967630337int, 781242595003409035954560265349672499984657513nat, 9800906403474465515983324507598220158182737029580338806068231923219332353980int, 1nat, 1562485190006818071909120530699344999969315027nat, 15945460171721051995833655445966660174717087193065052648883285085357646678036int);
    lemma_pow_step(5int, 28948022309329048855892746252171976963363056481941560715954676764349967630337int, 1562485190006818071909120530699344999969315027nat, 15945460171721051995833655445966660174717087193065052648883285085357646678036int, 0nat, 3124970380013636143818241061398689999938630054nat, 17261588735387056677244339835741648496448200602669961227705478536284246484720int);
    lemma_pow_step(5int, 28948022309329048855892746252171976963363056481941560715954676764349967630337int, 3124970380013636143818241061398689999938630054nat, 17261588735387056677244339835741648496448200602669961227705478536284246484720int, 0nat, 6249940760027272287636482122797379999877260108nat, 21863512762527781401398366397755332883185101700537472907382171914518848346694int);
    lemma_pow_step(5int, 28948022309329048855892746252171976963363056481941560715954676764349967630337int, 6249940760027272287636482122797379999877260108nat, 21863512762527781401398366397755332883185101700537472907382171914518848346694int, 1nat, 12499881520054544575272964245594759999754520217nat, 24149715582198109559878489600683890239538674028503937673224667431382943588374int);
    lemma_pow_step(5int, 28948022309329048855892746252171976963363056481941560715954676764349967630337int, 12499881520054544575272964245594759999754520217nat, 24149715582198109559878489600683890239538674028503937673224667431382943588374int, 0nat, 24999763040109089150545928491189519999509040434nat, 19386158790192624162942286219806541549123751288247450734200789248213452441815int);
    lemma_pow_step(5int, 28948022309329048855892746252171976963363056481941560715954676764349967630337int, 24999763040109089150545928491189519999509040434nat, 19386158790192624162942286219806541549123751288247450734200789248213452441815int, 0nat, 49999526080218178301091856982379039999018080868nat, 7108698654222563097923381360561623544350910708609024432721529662883923953107int);
    lemma_pow_step(5int, 28948022309329048855892746252171976963363056481941560715954676764349967630337int, 49999526080218178301091856982379039999018080868nat, 7108698654222563097923381360561623544350910708609024432721529662883923953107int, 0nat, 99999052160436356602183713964758079998036161736nat, 16443041321135666568302503627434705769480152517929500717280410597311291660480int);
    lemma_pow_step(5int, 28948022309329048855892746252171976963363056481941560715954676764349967630337int, 99999052160436356602183713964758079998036161736nat, 16443041321135666568302503627434705769480152517929500717280410597311291660480int, 0nat, 199998104320872713204367427929516159996072323472nat, 8094077683941265025476546758310961818272024541951227499271473219190336904891int);
    lemma_pow_step(5int, 28948022309329048855892746252171976963363056481941560715954676764349967630337int, 199998104320872713204367427929516159996072323472nat, 8094077683941265025476546758310961818272024541951227499271473219190336904891int, 0nat, 399996208641745426408734855859032319992144646944nat, 18829942914619648446157822051948427220886165855354992063401109035392062256355int);
    lemma_pow_step(5int, 28948022309329048855892746252171976963363056481941560715954676764349967630337int, 399996208641745426408734855859032319992144646944nat, 18829942914619648446157822051948427220886165855354992063401109035392062256355int, 0nat, 799992417283490852817469711718064639984289293888nat, 24000221575231002037203344282143006078829359752295573364752940682451835411327int);
    lemma_pow_step(5int, 28948022309329048855892746252171976963363056481941560715954676764349967630337int, 799992417283490852817469711718064639984289293888nat, 24000221575231002037203344282143006078829359752295573364752940682451835411327int, 0nat, 1599984834566981705634939423436129279968578587776nat, 13149404779146870026031927331237136851541259388091234078554470119130075450183int);
    lemma_pow_step(5int, 28948022309329048855892746252171976963363056481941560715954676764349967630337int, 1599984834566981705634939423436129279968578587776nat, 13149404779146870026031927331237136851541259388091234078554470119130075450183int, 0nat, 3199969669133963411269878846872258559937157175552nat, 21353027311828668284092149223923296285105264775369393113931889480418975186894int);
    lemma_pow_step(5int, 28948022309329048855892746252171976963363056481941560715954676764349967630337int, 3199969669133963411269878846872258559937157175552nat, 21353027311828668284092149223923296285105264775369393113931889480418975186894int, 0nat, 6399939338267926822539757693744517119874314351104nat, 11486082120302460423969022306547179767513360638867306016927749695366920712715int);
    lemma_pow_step(5int, 28948022309329048855892746252171976963363056481941560715954676764349967630337int, 6399939338267926822539757693744517119874314351104nat, 11486082120302460423969022306547179767513360638867306016927749695366920712715int, 0nat, 12799878676535853645079515387489034239748628702208nat, 11681671888474988112130716813456122603050358410735722482496518125879137133002int);
    lemma_pow_step(5int, 28948022309329048855892746252171976963363056481941560715954676764349967630337int, 12799878676535853645079515387489034239748628702208nat, 11681671888474988112130716813456122603050358410735722482496518125879137133002int, 0nat, 25599757353071707290159030774978068479497257404416nat, 18194676148329760646888487308304464740375737587866315030412500049886892863268int);
    lemma_pow_step(5int, 28948022309329048855892746252171976963363056481941560715954676764349967630337int, 25599757353071707290159030774978068479497257404416nat, 18194676148329760646888487308304464740375737587866315030412500049886892863268int, 0nat, 51199514706143414580318061549956136958994514808832nat, 597793804242482089424211093578616512835407926440771630558951016975017147621int);
    lemma_pow_step(5int, 28948022309329048855892746252171976963363056481941560715954676764349967630337int, 51199514706143414580318061549956136958994514808832nat, 597793804242482089424211093578616512835407926440771630558951016975017147621int, 0nat, 102399029412286829160636123099912273917989029617664nat, 11152390626215182518010926304640083377961991971054542574685174057108716103580int);
    lemma_pow_step(5int, 28948022309329048855892746252171976963363056481941560715954676764349967630337int, 102399029412286829160636123099912273917989029617664nat, 11152390626215182518010926304640083377961991971054542574685174057108716103580int, 0nat, 204798058824573658321272246199824547835978059235328nat, 20705364558820777300533615232017328206535916155767378427449214767535677704007int);
    lemma_pow_step(5int, 28948022309329048855892746252171976963363056481941560715954676764349967630337int, 204798058824573658321272246199824547835978059235328nat, 20705364558820777300533615232017328206535916155767378427449214767535677704007int, 0nat, 409596117649147316642544492399649095671956118470656nat, 6243125784555003724818192164679624586846438976839960074392375885474973268498int);
    lemma_pow_step(5int, 28948022309329048855892746252171976963363056481941560715954676764349967630337int, 409596117649147316642544492399649095671956118470656nat, 6243125784555003724818192164679624586846438976839960074392375885474973268498int, 0nat, 819192235298294633285088984799298191343912236941312nat, 28620896836676498663938163131181999433056251207444056183060855174541406893989int);
    lemma_pow_step(5int, 28948022309329048855892746252171976963363056481941560715954676764349967630337int, 819192235298294633285088984799298191343912236941312nat, 28620896836676498663938163131181999433056251207444056183060855174541406893989int, 0nat, 1638384470596589266570177969598596382687824473882624nat, 16972527835903913685785370221647310963938923093479523193799960829964972739249int);
    lemma_pow_step(5int, 28948022309329048855892746252171976963363056481941560715954676764349967630337int, 1638384470596589266570177969598596382687824473882624nat, 16972527835903913685785370221647310963938923093479523193799960829964972739249int, 0nat, 3276768941193178533140355939197192765375648947765248nat, 22073686564534989311331612963722394392045542325889087102237634331204487613040int);
    lemma_pow_step(5int, 28948022309329048855892746252171976963363056481941560715954676764349967630337int, 3276768941193178533140355939197192765375648947765248nat, 22073686564534989311331612963722394392045542325889087102237634331204487613040int, 0nat, 6553537882386357066280711878394385530751297895530496nat, 26253105165015874063211077931564351177561328414842908218298261305855944765679int);
    lemma_pow_step(5int, 28948022309329048855892746252171976963363056481941560715954676764349967630337int, 6553537882386357066280711878394385530751297895530496nat, 26253105165015874063211077931564351177561328414842908218298261305855944765679int, 0nat, 13107075764772714132561423756788771061502595791060992nat, 17828535504026270002934409377585537331962964982178434702891367475231847654554int);
    lemma_pow_step(5int, 28948022309329048855892746252171976963363056481941560715954676764349967630337int, 13107075764772714132561423756788771061502595791060992nat, 17828535504026270002934409377585537331962964982178434702891367475231847654554int, 0nat, 26214151529545428265122847513577542123005191582121984nat, 3180189248559869903569347170320237356665699013838495929117553049371977554815int);
    lemma_pow_step(5int, 28948022309329048855892746252171976963363056481941560715954676764349967630337int, 26214151529545428265122847513577542123005191582121984nat, 3180189248559869903569347170320237356665699013838495929117553049371977554815int, 0nat, 52428303059090856530245695027155084246010383164243968nat, 8010045224645697602067290602939531499257763511683596737825096363307768160068int);
    lemma_pow_step(5int, 28948022309329048855892746252171976963363056481941560715954676764349967630337int, 52428303059090856530245695027155084246010383164243968nat, 8010045224645697602067290602939531499257763511683596737825096363307768160068int, 0nat, 104856606118181713060491390054310168492020766328487936nat, 11523396874822143309806607972551644376422070892955998590114248653229197546909int);
    lemma_pow_step(5int, 28948022309329048855892746252171976963363056481941560715954676764349967630337int, 104856606118181713060491390054310168492020766328487936nat, 11523396874822143309806607972551644376422070892955998590114248653229197546909int, 0nat, 209713212236363426120982780108620336984041532656975872nat, 11394780944218789889385273489694763574132446393488813405328326419432761626050int);
    lemma_pow_step(5int, 28948022309329048855892746252171976963363056481941560715954676764349967630337int, 209713212236363426120982780108620336984041532656975872nat, 11394780944218789889385273489694763574132446393488813405328326419432761626050int, 0nat, 419426424472726852241965560217240673968083065313951744nat, 16558249190949305303488842421298317089137701141232133395152011529730820847816int);
    lemma_pow_step(5int, 28948022309329048855892746252171976963363056481941560715954676764349967630337int, 419426424472726852241965560217240673968083065313951744nat, 16558249190949305303488842421298317089137701141232133395152011529730820847816int, 0nat, 838852848945453704483931120434481347936166130627903488nat, 13885436817939770635604054258047941060795768269564485157873890643863627778757int);
    lemma_pow_step(5int, 28948022309329048855892746252171976963363056481941560715954676764349967630337int, 838852848945453704483931120434481347936166130627903488nat, 13885436817939770635604054258047941060795768269564485157873890643863627778757int, 0nat, 1677705697890907408967862240868962695872332261255806976nat, 26608365764536784250691034832611688104294411006200742014889649642516265511895int);
    lemma_pow_step(5int, 28948022309329048855892746252171976963363056481941560715954676764349967630337int, 1677705697890907408967862240868962695872332261255806976nat, 26608365764536784250691034832611688104294411006200742014889649642516265511895int, 0nat, 3355411395781814817935724481737925391744664522511613952nat, 6589524679741825686495501338528971784023754245202578605042106993226063430858int);
    lemma_pow_step(5int, 28948022309329048855892746252171976963363056481941560715954676764349967630337int, 3355411395781814817935724481737925391744664522511613952nat, 6589524679741825686495501338528971784023754245202578605042106993226063430858int, 0nat, 6710822791563629635871448963475850783489329045023227904nat, 17792985882025085253167995255973338461403150904953807443979649555815206378237int);
    lemma_pow_step(5int, 28948022309329048855892746252171976963363056481941560715954676764349967630337int, 6710822791563629635871448963475850783489329045023227904nat, 17792985882025085253167995255973338461403150904953807443979649555815206378237int, 0nat, 13421645583127259271742897926951701566978658090046455808nat, 18346686775441960024313800638431071095815254706925790704202572352103640346992int);
    lemma_pow_step(5int, 28948022309329048855892746252171976963363056481941560715954676764349967630337int, 13421645583127259271742897926951701566978658090046455808nat, 18346686775441960024313800638431071095815254706925790704202572352103640346992int, 0nat, 26843291166254518543485795853903403133957316180092911616nat, 17678863970684658653618585690570769248701867005613958326061907992412824180014int);
    lemma_pow_step(5int, 28948022309329048855892746252171976963363056481941560715954676764349967630337int, 26843291166254518543485795853903403133957316180092911616nat, 17678863970684658653618585690570769248701867005613958326061907992412824180014int, 0nat, 53686582332509037086971591707806806267914632360185823232nat, 12708223814453757661368674774463026954997156495664362173913458310178886824313int);
}

/// `5^3216734728497058061019394250637312` modulo `28948022309329048855892746252171976963363056481941560715954676764349967630337`, by square-and-multiply.
proof fn lemma_pow_28948022309329048855892746252171976963363056481941560715954676764349967630337_by_8999194758858563409123804352480028797519453()
    ensures
        pow(5int, 3216734728497058061019394250637312nat) % 28948022309329048855892746252171976963363056481941560715954676764349967630337int == 26481904113327098742228215817454532048648008744346411596057084665402439738326int,
{
    lemma_pow_start(5int, 28948022309329048855892746252171976963363056481941560715954676764349967630337int, 5int);
    lemma_pow_step(5int, 28948022309329048855892746252171976963363056481941560715954676764349967630337int, 1nat, 5int, 0nat, 2nat, 25int);
    lemma_pow_step(5int, 28948022309329048855892746252171976963363056481941560715954676764349967630337int, 2nat, 25int, 0nat, 4nat, 625int);
    lemma_pow_step(5int, 28948022309329048855892746252171976963363056481941560715954676764349967630337int, 4nat, 625int, 1nat, 9nat, 1953125int);
    lemma_pow_step(5int, 28948022309329048855892746252171976963363056481941560715954676764349967630337int, 9nat, 1953125int, 1nat, 19nat, 19073486328125int);
    lemma_pow_step(5int, 28948022309329048855892746252171976963363056481941560715954676764349967630337int, 19nat, 19073486328125int, 1nat, 39nat, 1818989403545856475830078125int);
    lemma_pow_step(5int, 28948022309329048855892746252171976963363056481941560715954676764349967630337int, 39nat, 1818989403545856475830078125int, 1nat, 79nat, 16543612251060553497428173841399257071316242218017578125int);
    lemma_pow_step(5int, 28948022309329048855892746252171976963363056481941560715954676764349967630337int, 79nat, 16543612251060553497428173841399257071316242218017578125int, 0nat, 158nat, 12747032940919028339545022043465585442089052014345761856118220033432534098516int);
    lemma_pow_step(5int, 28948022309329048855892746252171976963363056481941560715954676764349967630337int, 158nat, 12747032940919028339545022043465585442089052014345761856118220033432534098516int, 1nat, 317nat, 22192129698702522112267243847462981658401060741505595233528576455801585603185int);
    lemma_pow_step(5int, 28948022309329048855892746252171976963363056481941560715954676764349967630337int, 317nat, 22192129698702522112267243847462981658401060741505595233528576455801585603185int, 0nat, 634nat, 17663041979079903217359999807937520246420213727038664734065036007705960502597int);
    lemma_pow_step(5int, 28948022309329048855892746252171976963363056481941560715954676764349967630337int, 634nat, 17663041979079903217359999807937520246420213727038664734065036007705960502597int, 0nat, 1268nat, 15411776367613846996824461576849988277624467724528345616423196171585298938239int);
    lemma_pow_step(5int, 28948022309329048855892746252171976963363056481941560715954676764349967630337int, 1268nat, 15411776367613846996824461576849988277624467724528345616423196171585298938239int, 1nat, 2537nat, 24183977600596818711799492206035379509692843175536809333778211590406273209604int);
    lemma_pow_step(5int, 28948022309329048855892746252171976963363056481941560715954676764349967630337int, 2537nat, 24183977600596818711799492206035379509692843175536809333778211590406273209604int, 1nat, 5075nat, 3435697937629147859673420644527880990021468304153863019671248915863024745409int);
    lemma_pow_step(5int, 28948022309329048855892746252171976963363056481941560715954676764349967630337int, 5075nat, 3435697937629147859673420644527880990021468304153863019671248915863024745409int, 0nat, 10150nat, 3210821653285064055224584054941859053050195920085508223045144450540520986391int);
    lemma_pow_step(5int, 28948022309329048855892746252171976963363056481941560715954676764349967630337int, 10150nat, 3210821653285064055224584054941859053050195920085508223045144450540520986391int, 0nat, 20300nat, 28628524839380814275904995795307208753083328916975360827805451548833576312038int);
    lemma_pow_step(5int, 28948022309329048855892746252171976963363056481941560715954676764349967630337int, 20300nat, 28628524839380814275904995795307208753083328916975360827805451548833576312038int, 0nat, 40600nat, 20621624722496932094858091403780129182759068205210487003411993968531169019651int);
    lemma_pow_step(5int, 28948022309329048855892746252171976963363056481941560715954676764349967630337int, 40600nat, 20621624722496932094858091403780129182759068205210487003411993968531169019651int, 1nat, 81201nat, 17927496947516290759311775308959845223853313618748649091841169583347216419673int);
    lemma_pow_step(5int, 28948022309329048855892746252171976963363056481941560715954676764349967630337int, 81201nat, 17927496947516290759311775308959845223853313618748649091841169583347216419673int, 1nat, 162403nat, 9853563210809776718260053002747588692073032169804655264433329777259428888694int);
    lemma_pow_step(5int, 28948022309329048855892746252171976963363056481941560715954676764349967630337int, 162403nat, 9853563210809776718260053002747588692073032169804655264433329777259428888694int, 1nat, 324807nat, 20543668195275645095220795858286555735549393532083718967370686544561085427092int);
    lemma_pow_step(5int, 28948022309329048855892746252171976963363056481941560715954676764349967630337int, 324807nat, 20543668195275645095220795858286555735549393532083718967370686544561085427092int, 0nat, 649614nat, 21181420418927176116855434692046576402325002964706529253443037262828209831435int);
    lemma_pow_step(5int, 28948022309329048855892746252171976963363056481941560715954676764349967630337int, 649614nat, 21181420418927176116855434692046576402325002964706529253443037262828209831435int, 0nat, 1299228nat, 3048005767843193297131500648134581663740355176221464451808019482530790732555int);
    lemma_pow_step(5int, 28948022309329048855892746252171976963363056481941560715954676764349967630337int, 1299228nat, 3048005767843193297131500648134581663740355176221464451808019482530790732555int, 1nat, 2598457nat, 24813789848532766079519090034353618774160737073564920017723284910524309419412int);
    lemma_pow_step(5int, 28948022309329048855892746252171976963363056481941560715954676764349967630337int, 2598457nat, 24813789848532766079519090034353618774160737073564920017723284910524309419412int, 1nat, 5196915nat, 9190421473935932811203020059516284061234126006401859925656418635734728430150int);
    lemma_pow_step(5int, 28948022309329048855892746252171976963363056481941560715954676764349967630337int, 5196915nat, 9190421473935932811203020059516284061234126006401859925656418635734728430150int, 0nat, 10393830nat, 24072358566145951034833086188075690646551699710060024506768307975038882668859int);
    lemma_pow_step(5int, 28948022309329048855892746252171976963363056481941560715954676764349967630337int, 10393830nat, 24072358566145951034833086188075690646551699710060024506768307975038882668859int, 0nat, 20787660nat, 17346290378964591343738058912962254467496491383033475936418489767414534226314int);
    lemma_pow_step(5int, 28948022309329048855892746252171976963363056481941560715954676764349967630337int, 20787660nat, 17346290378964591343738058912962254467496491383033475936418489767414534226314int, 1nat, 41575321nat, 2525578620531024158247887843583732490454869969983744166364324911504173351202int);
    lemma_pow_step(5int, 28948022309329048855892746252171976963363056481941560715954676764349967630337int, 41575321nat, 2525578620531024158247887843583732490454869969983744166364324911504173351202int, 1nat, 83150643nat, 2633045855629363541217383610550291206384251213469206769001483338955916205205int);
    lemma_pow_step(5int, 28948022309329048855892746252171976963363056481941560715954676764349967630337int, 83150643nat, 2633045855629363541217383610550291206384251213469206769001483338955916205205int, 1nat, 166301287nat, 4751347948012068663728098775020967558387962449044559480546275262184427358165int);
    lemma_pow_step(5int, 28948022309329048855892746252171976963363056481941560715954676764349967630337int, 166301287nat, 4751347948012068663728098775020967558387962449044559480546275262184427358165int, 1nat, 332602575nat, 1802682214292405918738127392224068140595008296583584957706551807863357324874int);
    lemma_pow_step(5int, 28948022309329048855892746252171976963363056481941560715954676764349967630337int, 332602575nat, 1802682214292405918738127392224068140595008296583584957706551807863357324874int, 0nat, 665205150nat, 6478964785198538031805558746573426437081208580857094927801867805904007870710int);
    lemma_pow_step(5int, 28948022309329048855892746252171976963363056481941560715954676764349967630337int, 665205150nat, 6478964785198538031805558746573426437081208580857094927801867805904007870710int, 1nat, 1330410301nat, 24834069702496495330133502256838481721694508877343577204482067259118842508312int);
    lemma_pow_step(5int, 28948022309329048855892746252171976963363056481941560715954676764349967630337int, 1330410301nat, 24834069702496495330133502256838481721694508877343577204482067259118842508312int, 1nat, 2660820603nat, 19904414550555888084775731138920945703705249533215015508631716291176570023863int);
    lemma_pow_step(5int, 28948022309329048855892746252171976963363056481941560715954676764349967630337int, 2660820603nat, 19904414550555888084775731138920945703705249533215015508631716291176570023863int, 0nat, 5321641206nat, 15434224177084874039773066077692701919961500842125608977546241280558439639026int);
    lemma_pow_step(5int, 28948022309329048855892746252171976963363056481941560715954676764349967630337int, 5321641206nat, 15434224177084874039773066077692701919961500842125608977546241280558439639026int, 0nat, 10643282412nat, 10604630901157143341444103896216305036704272816174488579490315126065653065457int);
    lemma_pow_step(5int, 28948022309329048855892746252171976963363056481941560715954676764349967630337int, 10643282412nat, 10604630901157143341444103896216305036704272816174488579490315126065653065457int, 1nat, 21286564825nat, 21426973830453320194051076124739362541855598852506432643025236671859964547705int);
    lemma_pow_step(5int, 28948022309329048855892746252171976963363056481941560715954676764349967630337int, 21286564825nat, 21426973830453320194051076124739362541855598852506432643025236671859964547705int, 0nat, 42573129650nat, 3829820148855638024238744564704104499609312404066110028867442061016541983078int);
    lemma_pow_step(5int, 28948022309329048855892746252171976963363056481941560715954676764349967630337int, 42573129650nat, 3829820148855638024238744564704104499609312404066110028867442061016541983078int, 0nat, 85146259300nat, 7636981838028543986308473678523114753819033757604387128450448556982734340815int);
    lemma_pow_step(5int, 28948022309329048855892746252171976963363056481941560715954676764349967630337int, 85146259300nat, 7636981838028543986308473678523114753819033757604387128450448556982734340815int, 0nat, 170292518600nat, 10064467259011299468668558003839137079965715580180520722754225541390706574301int);
    lemma_pow_step(5int, 28948022309329048855892746252171976963363056481941560715954676764349967630337int, 170292518600nat, 10064467259011299468668558003839137079965715580180520722754225541390706574301int, 1nat, 340585037201nat, 380802343470319519678275980842307561820729593909466539319106504838895280723int);
    lemma_pow_step(5int, 28948022309329048855892746252171976963363056481941560715954676764349967630337int, 340585037201nat, 380802343470319519678275980842307561820729593909466539319106504838895280723int, 1nat, 681170074403nat, 4482288239280895136295961559531257799458036201284881756842373355672606418252int);
    lemma_pow_step(5int, 28948022309329048855892746252171976963363056481941560715954676764349967630337int, 681170074403nat, 4482288239280895136295961559531257799458036201284881756842373355672606418252int, 1nat, 1362340148807nat, 15151960099985437662193028687200359710926945075474875034181799017152638712367int);
    lemma_pow_step(5int, 28948022309329048855892746252171976963363056481941560715954676764349967630337int, 1362340148807nat, 15151960099985437662193028687200359710926945075474875034181799017152638712367int, 0nat, 2724680297614nat, 15011977570125769705659750057151980754106299397450212407472450103199515643046int);
    lemma_pow_step(5int, 28948022309329048855892746252171976963363056481941560715954676764349967630337int, 2724680297614nat, 15011977570125769705659750057151980754106299397450212407472450103199515643046int, 0nat, 5449360595228nat, 24673128786937512720748688370901544856560411300581414967480467133219056127829int);
    lemma_pow_step(5int, 28948022309329048855892746252171976963363056481941560715954676764349967630337int, 5449360595228nat, 24673128786937512720748688370901544856560411300581414967480467133219056127829int, 0nat, 10898721190456nat, 15648988401988487592128777517270338936991959740103471292131550131553662264090int);
    lemma_pow_step(5int, 28948022309329048855892746252171976963363056481941560715954676764349967630337int, 10898721190456nat, 15648988401988487592128777517270338936991959740103471292131550131553662264090int, 0nat, 21797442380912nat, 13523669348696748350936368070916845399731048645728758304365610918843270581594int);
    lemma_pow_step(5int, 28948022309329048855892746252171976963363056481941560715954676764349967630337int, 21797442380912nat, 13523669348696748350936368070916845399731048645728758304365610918843270581594int, 1nat, 43594884761825nat, 27065895941303611604255454412055774395677437636823407216600433799164298993476int);
    lemma_pow_step(5int, 28948022309329048855892746252171976963363056481941560715954676764349967630337int, 43594884761825nat, 27065895941303611604255454412055774395677437636823407216600433799164298993476int, 1nat, 87189769523651nat, 4015713268613453187866923862737944203620665093085278804528124617757814073574int);
    lemma_pow_step(5int, 28948022309329048855892746252171976963363056481941560715954676764349967630337int, 87189769523651nat, 4015713268613453187866923862737944203620665093085278804528124617757814073574int, 1nat, 174379539047303nat, 127667561958078586183213791582933151679226328189025207289957096597143393667int);
    lemma_pow_step(5int, 28948022309329048855892746252171976963363056481941560715954676764349967630337int, 174379539047303nat, 127667561958078586183213791582933151679226328189025207289957096597143393667int, 1nat, 348759078094607nat, 17672515601574240856898899437852562209564463028111532009780147594139084682377int);
    lemma_pow_step(5int, 28948022309329048855892746252171976963363056481941560715954676764349967630337int, 348759078094607nat, 17672515601574240856898899437852562209564463028111532009780147594139084682377int, 1nat, 697518156189215nat, 7344874936674738898775569852691172812216576314485867738567774878278881562250int);
    lemma_pow_step(5int, 28948022309329048855892746252171976963363056481941560715954676764349967630337int, 697518156189215nat, 7344874936674738898775569852691172812216576314485867738567774878278881562250int, 1nat, 1395036312378431nat, 20912690067247253927237018646741838673558037741670607754090701382198609038330int);
    lemma_pow_step(5int, 28948022309329048855892746252171976963363056481941560715954676764349967630337int, 1395036312378431nat, 20912690067247253927237018646741838673558037741670607754090701382198609038330int, 1nat, 2790072624756863nat, 14465118126702792715979008918967949246886193389714189255508194295070837378836int);
    lemma_pow_step(5int, 28948022309329048855892746252171976963363056481941560715954676764349967630337int, 2790072624756863nat, 14465118126702792715979008918967949246886193389714189255508194295070837378836int, 1nat, 5580145249513727nat, 4483647089879215793555066873929728205755701658856294825918472005281369801664int);
    lemma_pow_step(5int, 28948022309329048855892746252171976963363056481941560715954676764349967630337int, 5580145249513727nat, 4483647089879215793555066873929728205755701658856294825918472005281369801664int, 0nat, 11160290499027454nat, 17319256814960575722296418181104468647523067563984084691411756406518203851109int);
    lemma_pow_step(5int, 28948022309329048855892746252171976963363056481941560715954676764349967630337int, 11160290499027454nat, 17319256814960575722296418181104468647523067563984084691411756406518203851109int, 1nat, 22320580998054909nat, 13965633749332918657028536319093787471302101972798750798682567062086317329645int);
    lemma_pow_step(5int, 28948022309329048855892746252171976963363056481941560715954676764349967630337int, 22320580998054909nat, 13965633749332918657028536319093787471302101972798750798682567062086317329645int, 1nat, 44641161996109819nat, 17342047252604240879058671444011720062206524204216769980096499592114433354406int);
    lemma_pow_step(5int, 28948022309329048855892746252171976963363056481941560715954676764349967630337int, 44641161996109819nat, 17342047252604240879058671444011720062206524204216769980096499592114433354406int, 0nat, 89282323992219638nat, 24748063916787977417082566104079038049836597598093766586867320197258176779257int);
    lemma_pow_step(5int, 28948022309329048855892746252171976963363056481941560715954676764349967630337int, 89282323992219638nat, 24748063916787977417082566104079038049836597598093766586867320197258176779257int, 0nat, 178564647984439276nat, 77076033971004948092638409230494897806434310605822923850096473786675567758int);
    lemma_pow_step(5int, 28948022309329048855892746252171976963363056481941560715954676764349967630337int, 178564647984439276nat, 77076033971004948092638409230494897806434310605822923850096473786675567758int, 0nat, 357129295968878552nat, 26452239993002353338567744773100135005313678251929714893581720277137540058660int);
    lemma_pow_step(5int, 28948022309329048855892746252171976963363056481941560715954676764349967630337int, 357129295968878552nat, 26452239993002353338567744773100135005313678251929714893581720277137540058660int, 1nat, 714258591937757105nat, 28378607971197226386748754308868459834794167173495476025989638309209029197719int);
    lemma_pow_step(5int, 28948022309329048855892746252171976963363056481941560715954676764349967630337int, 714258591937757105nat, 28378607971197226386748754308868459834794167173495476025989638309209029197719int, 1nat, 1428517183875514211nat, 383909508028203159211004094546739706736521148255826977629901202898265792974int);
    lemma_pow_step(5int, 28948022309329048855892746252171976963363056481941560715954676764349967630337int, 1428517183875514211nat, 383909508028203159211004094546739706736521148255826977629901202898265792974int, 1nat, 2857034367751028423nat, 27866939123398147611337012268860175385749018523817601036367323664373140650831int);
    lemma_pow_step(5int, 28948022309329048855892746252171976963363056481941560715954676764349967630337int, 2857034367751028423nat, 27866939123398147611337012268860175385749018523817601036367323664373140650831int, 1nat, 5714068735502056847nat, 16764909720433482749674194363401652571246977240201324377728445021962545469783int);
    lemma_pow_step(5int, 28948022309329048855892746252171976963363056481941560715954676764349967630337int, 5714068735502056847nat, 16764909720433482749674194363401652571246977240201324377728445021962545469783int, 1nat, 11428137471004113695nat, 28544799051193175505885414016437869581806759311739096987595355836765585975474int);
    lemma_pow_step(5int, 28948022309329048855892746252171976963363056481941560715954676764349967630337int, 11428137471004113695nat, 28544799051193175505885414016437869581806759311739096987595355836765585975474int, 1nat, 22856274942008227391nat, 3485536782297439687352279585932279332199820220556544873988211801793538230829int);
    lemma_pow_step(5int, 28948022309329048855892746252171976963363056481941560715954676764349967630337int, 22856274942008227391nat, 3485536782297439687352279585932279332199820220556544873988211801793538230829int, 1nat, 45712549884016454783nat, 22547000188828965626378993884402745467299009198959548770502784258579279023572int);
    lemma_pow_step(5int, 28948022309329048855892746252171976963363056481941560715954676764349967630337int, 45712549884016454783nat, 22547000188828965626378993884402745467299009198959548770502784258579279023572int, 0nat, 91425099768032909566nat, 18373453332107468394241621597531303439591722921880103961320234635777928971516int);
    lemma_pow_step(5int, 28948022309329048855892746252171976963363056481941560715954676764349967630337int, 91425099768032909566nat, 18373453332107468394241621597531303439591722921880103961320234635777928971516int, 0nat, 182850199536065819132nat, 27606245535001020765416411067150987429705226598258676363767844165648423041620int);
    lemma_pow_step(5int, 28948022309329048855892746252171976963363056481941560715954676764349967630337int, 182850199536065819132nat, 27606245535001020765416411067150987429705226598258676363767844165648423041620int, 1nat, 365700399072131638265nat, 25511846105890048195990064944509976959638668363543053252151946588007637347819int);
    lemma_pow_step(5int, 28948022309329048855892746252171976963363056481941560715954676764349967630337int, 365700399072131638265nat, 25511846105890048195990064944509976959638668363543053252151946588007637347819int, 0nat, 731400798144263276530nat, 19108604992868032195518172068206261241776222371784831299898092039780369450061int);
    lemma_pow_step(5int, 28948022309329048855892746252171976963363056481941560715954676764349967630337int, 731400798144263276530nat, 19108604992868032195518172068206261241776222371784831299898092039780369450061int, 1nat, 1462801596288526553061nat, 23084812329842303623534583614521487844495223198395819545547387770608504216649int);
    lemma_pow_step(5int, 28948022309329048855892746252171976963363056481941560715954676764349967630337int, 1462801596288526553061nat, 23084812329842303623534583614521487844495223198395819545547387770608504216649int, 1nat, 2925603192577053106123nat, 21667842110010638320053926440313706528508902203661224470946952298147087815410int);
    lemma_pow_step(5int, 28948022309329048855892746252171976963363056481941560715954676764349967630337int, 2925603192577053106123nat, 21667842110010638320053926440313706528508902203661224470946952298147087815410int, 1nat, 5851206385154106212247nat, 14568987080483101208258033017095536461422620826052234748661353148497297389290int);
    lemma_pow_step(5int, 28948022309329048855892746252171976963363056481941560715954676764349967630337int, 5851206385154106212247nat, 14568987080483101208258033017095536461422620826052234748661353148497297389290int, 1nat, 11702412770308212424495nat, 7785922806678567076780257332723286154164178629493217120383528983834503977901int);
    lemma_pow_step(5int, 28948022309329048855892746252171976963363056481941560715954676764349967630337int, 11702412770308212424495nat, 7785922806678567076780257332723286154164178629493217120383528983834503977901int, 0nat, 23404825540616424848990nat, 11745352881091250918755236934608456187296025002334552206679435044815232861161int);
    lemma_pow_step(5int, 28948022309329048855892746252171976963363056481941560715954676764349967630337int, 23404825540616424848990nat, 11745352881091250918755236934608456187296025002334552206679435044815232861161int, 1nat, 46809651081232849697981nat, 4913936717620700150732890505633682095706113439233759314179067501097660310416int);
    lemma_pow_step(5int, 28948022309329048855892746252171976963363056481941560715954676764349967630337int, 46809651081232849697981nat, 4913936717620700150732890505633682095706113439233759314179067501097660310416int, 0nat, 93619302162465699395962nat, 25860641506012867237524984805963367956549184975988477151325708726045000343788int);
    lemma_pow_step(5int, 28948022309329048855892746252171976963363056481941560715954676764349967630337int, 93619302162465699395962nat, 25860641506012867237524984805963367956549184975988477151325708726045000343788int, 0nat, 187238604324931398791924nat, 8922990698985092792011624999761906853413530833457057278513407321706232418993int);
    lemma_pow_step(5int, 28948022309329048855892746252171976963363056481941560715954676764349967630337int, 187238604324931398791924nat, 8922990698985092792011624999761906853413530833457057278513407321706232418993int, 0nat, 374477208649862797583848nat, 1285007682369717918874861875955355090415363118217224298426250652317164856757int);
    lemma_pow_step(5int, 28948022309329048855892746252171976963363056481941560715954676764349967630337int, 374477208649862797583848nat, 1285007682369717918874861875955355090415363118217224298426250652317164856757int, 1nat, 748954417299725595167697nat, 8095930984436810754775322938844453910429954563960751097663717310944648674042int);
    lemma_pow_step(5int, 28948022309329048855892746252171976963363056481941560715954676764349967630337int, 748954417299725595167697nat, 8095930984436810754775322938844453910429954563960751097663717310944648674042int, 0nat, 1497908834599451190335394nat, 18656791192728791079338324372791573415227572612212208844330215143382648025410int);
    lemma_pow_step(5int, 28948022309329048855892746252171976963363056481941560715954676764349967630337int, 1497908834599451190335394nat, 18656791192728791079338324372791573415227572612212208844330215143382648025410int, 0nat, 2995817669198902380670788nat, 14515622916329501605598147255563755782706353977210263064035214338916295059895int);
    lemma_pow_step(5int, 28948022309329048855892746252171976963363056481941560715954676764349967630337int, 2995817669198902380670788nat, 14515622916329501605598147255563755782706353977210263064035214338916295059895int, 0nat, 5991635338397804761341576nat, 18308896492599240106719719564564568804735399031692551759900776396732938000107int);
    lemma_pow_step(5int, 28948022309329048855892746252171976963363056481941560715954676764349967630337int, 5991635338397804761341576nat, 18308896492599240106719719564564568804735399031692551759900776396732938000107int, 0nat, 11983270676795609522683152nat, 11265285914504945693994167383475043299128875079758269934499870350521398577363int);
    lemma_pow_step(5int, 28948022309329048855892746252171976963363056481941560715954676764349967630337int, 11983270676795609522683152nat, 11265285914504945693994167383475043299128875079758269934499870350521398577363int, 0nat, 23966541353591219045366304nat, 16587956397824970485409289658346903833548652919000091628955117445779604114387int);
    lemma_pow_step(5int, 28948022309329048855892746252171976963363056481941560715954676764349967630337int, 23966541353591219045366304nat, 16587956397824970485409289658346903833548652919000091628955117445779604114387int, 0nat, 47933082707182438090732608nat, 18031571102562740596640630477131117760774446068829149710057813528650674802320int);
    lemma_pow_step(5int, 28948022309329048855892746252171976963363056481941560715954676764349967630337int, 47933082707182438090732608nat, 18031571102562740596640630477131117760774446068829149710057813528650674802320int, 0nat, 95866165414364876181465216nat, 14508861417686597206425078317425328119624413416251315886558148326488215936000int);
    lemma_pow_step(5int, 28948022309329048855892746252171976963363056481941560715954676764349967630337int, 95866165414364876181465216nat, 14508861417686597206425078317425328119624413416251315886558148326488215936000int, 0nat, 191732330828729752362930432nat, 22961916518471163366741330648899367549741556561210496193928205992268215950876int);
    lemma_pow_step(5int, 28948022309329048855892746252171976963363056481941560715954676764349967630337int, 191732330828729752362930432nat, 22961916518471163366741330648899367549741556561210496193928205992268215950876int, 0nat, 383464661657459504725860864nat, 16932931984264640109574743732503971588314287621330141752882818097311059590544int);
    lemma_pow_step(5int, 28948022309329048855892746252171976963363056481941560715954676764349967630337int, 383464661657459504725860864nat, 16932931984264640109574743732503971588314287621330141752882818097311059590544int, 0nat, 766929323314919009451721728nat, 13943018011334191442257370485680821099880455935203708738389755544574399704388int);
    lemma_pow_step(5int, 28948022309329048855892746252171976963363056481941560715954676764349967630337int, 766929323314919009451721728nat, 13943018011334191442257370485680821099880455935203708738389755544574399704388int, 0nat, 1533858646629838018903443456nat, 23935135825409306994096459885507527747990334797533720698827645441372063329001int);
    lemma_pow_step(5int, 28948022309329048855892746252171976963363056481941560715954676764349967630337int, 1533858646629838018903443456nat, 23935135825409306994096459885507527747990334797533720698827645441372063329001int, 0nat, 3067717293259676037806886912nat, 5050197276465920067845673546801860326084698289264942677637334224641189573989int);
    lemma_pow_step(5int, 28948022309329048855892746252171976963363056481941560715954676764349967630337int, 3067717293259676037806886912nat, 5050197276465920067845673546801860326084698289264942677637334224641189573989int, 0nat, 6135434586519352075613773824nat, 10229702163458277989555421889888286159020169996770838775532145932899244899928int);
    lemma_pow_step(5int, 28948022309329048855892746252171976963363056481941560715954676764349967630337int, 6135434586519352075613773824nat, 10229702163458277989555421889888286159020169996770838775532145932899244899928int, 0nat, 12270869173038704151227547648nat, 25824917595767596739639290784002299916268417850716725676224502925175728249013int);
    lemma_pow_step(5int, 28948022309329048855892746252171976963363056481941560715954676764349967630337int, 12270869173038704151227547648nat, 25824917595767596739639290784002299916268417850716725676224502925175728249013int, 0nat, 24541738346077408302455095296nat, 28151205459327263554373635117243008387230627524755056738784066633450088834027int);
    lemma_pow_step(5int, 28948022309329048855892746252171976963363056481941560715954676764349967630337int, 24541738346077408302455095296nat, 28151205459327263554373635117243008387230627524755056738784066633450088834027int, 0nat, 49083476692154816604910190592nat, 3764513900940370702671276472563925975706852565694483570069653631018276174878int);
    lemma_pow_step(5int, 28948022309329048855892746252171976963363056481941560715954676764349967630337int, 49083476692154816604910190592nat, 3764513900940370702671276472563925975706852565694483570069653631018276174878int, 0nat, 98166953384309633209820381184nat, 690052421861783785578949893920757152647160595533515608209100442734265457266int);
    lemma_pow_step(5int, 28948022309329048855892746252171976963363056481941560715954676764349967630337int, 98166953384309633209820381184nat, 690052421861783785578949893920757152647160595533515608209100442734265457266int, 0nat, 196333906768619266419640762368nat, 28625611152384873345670008230649326012741231412524854771645442321316572688868int);
    lemma_pow_step(5int, 28948022309329048855892746252171976963363056481941560715954676764349967630337int, 196333906768619266419640762368nat, 28625611152384873345670008230649326012741231412524854771645442321316572688868int, 0nat, 392667813537238532839281524736nat, 5384268364832028574532981523990829709889660418450150243939790355742488521095int);
    lemma_pow_step(5int, 28948022309329048855892746252171976963363056481941560715954676764349967630337int, 392667813537238532839281524736nat, 5384268364832028574532981523990829709889660418450150243939790355742488521095int, 0nat, 785335627074477065678563049472nat, 25895443929856673720741214592688155776600246959676642939098360118684759730962int);
    lemma_pow_step(5int, 28948022309329048855892746252171976963363056481941560715954676764349967630337int, 785335627074477065678563049472nat, 25895443929856673720741214592688155776600246959676642939098360118684759730962int, 0nat, 1570671254148954131357126098944nat, 6937351368220127804149413796500285385088529611699417698013056744002882695677int);
    lemma_pow_step(5int, 28948022309329048855892746252171976963363056481941560715954676764349967630337int, 1570671254148954131357126098944nat, 6937351368220127804149413796500285385088529611699417698013056744002882695677int, 0nat, 3141342508297908262714252197888nat, 5361219911740023317323480462428544965849762586331289545499432676891609441904int);
    lemma_pow_step(5int, 28948022309329048855892746252171976963363056481941560715954676764349967630337int, 3141342508297908262714252197888nat, 5361219911740023317323480462428544965849762586331289545499432676891609441904int, 0nat, 6282685016595816525428504395776nat, 15951115354056854506602355399060547377166410333465748869269558376786377360568int);
    lemma_pow_step(5int, 28948022309329048855892746252171976963363056481941560715954676764349967630337int, 6282685016595816525428504395776nat, 15951115354056854506602355399060547377166410333465748869269558376786377360568int, 0nat, 12565370033191633050857008791552nat, 22747764609370729278849384694171742936036804314582071351991792124525024163001int);
    lemma_pow_step(5int, 28948022309329048855892746252171976963363056481941560715954676764349967630337int, 12565370033191633050857008791552nat, 22747764609370729278849384694171742936036804314582071351991792124525024163001int, 0nat, 25130740066383266101714017583104nat, 17672878591510971603231345819246086238991064308581158454978079091131269301679int);
    lemma_pow_step(5int, 28948022309329048855892746252171976963363056481941560715954676764349967630337int, 25130740066383266101714017583104nat, 17672878591510971603231345819246086238991064308581158454978079091131269301679int, 0nat, 50261480132766532203428035166208nat, 16600491168660049423831046752061605867037103784538443738031861801392118769397int);
    lemma_pow_step(5int, 28948022309329048855892746252171976963363056481941560715954676764349967630337int, 50261480132766532203428035166208nat, 16600491168660049423831046752061605867037103784538443738031861801392118769397int, 0nat, 100522960265533064406856070332416nat, 20561952464968178792185409131552768699973490507285536345733194448877406629507int);
    lemma_pow_step(5int, 28948022309329048855892746252171976963363056481941560715954676764349967630337int, 100522960265533064406856070332416nat, 20561952464968178792185409131552768699973490507285536345733194448877406629507int, 0nat, 201045920531066128813712140664832nat, 13589854839084526114145832958909779417289896751672737817028485884711829326418int);
    lemma_pow_step(5int, 28948022309329048855892746252171976963363056481941560715954676764349967630337int, 201045920531066128813712140664832nat, 13589854839084526114145832958909779417289896751672737817028485884711829326418int, 0nat, 402091841062132257627424281329664nat, 15748172101380178578551809763851161470189290672159898419088864072155237902716int);
    lemma_pow_step(5int, 28948022309329048855892746252171976963363056481941560715954676764349967630337int, 402091841062132257627424281329664nat, 15748172101380178578551809763851161470189290672159898419088864072155237902716int, 0nat, 804183682124264515254848562659328nat, 4659569089822582398271669603281310516338819399698936993369252522139750926329int);
    lemma_pow_step(5int, 28948022309329048855892746252171976963363056481941560715954676764349967630337int, 804183682124264515254848562659328nat, 4659569089822582398271669603281310516338819399698936993369252522139750926329int, 0nat, 1608367364248529030509697125318656nat, 5774281299474064820978260426596367843480518283432011283507220100068598538394int);
    lemma_pow_step(5int, 28948022309329048855892746252171976963363056481941560715954676764349967630337int, 1608367364248529030509697125318656nat, 5774281299474064820978260426596367843480518283432011283507220100068598538394int, 0nat, 3216734728497058061019394250637312nat, 26481904113327098742228215817454532048648008744346411596057084665402439738326int);
}

/// 28948022309329048855892746252171976963363056481941560715954676764349967630337 is prime: a Lucas certificate with witness 5.
pub proof fn lemma_pallas_modulus_prime()
    ensures
        is_prime(28948022309329048855892746252171976963363056481941560715954676764349967630337int),
{
    lemma_prime_2();
    lemma_prime_3();
    lemma_prime_463();
    lemma_prime_539204044132271846773();
    lemma_prime_8999194758858563409123804352480028797519453();
    lemma_pow_28948022309329048855892746252171976963363056481941560715954676764349967630337_full();
    lemma_pow_28948022309329048855892746252171976963363056481941560715954676764349967630337_by_2();
    lemma_pow_28948022309329048855892746252171976963363056481941560715954676764349967630337_by_3();
    lemma_pow_28948022309329048855892746252171976963363056481941560715954676764349967630337_by_463();
    lemma_pow_28948022309329048855892746252171976963363056481941560715954676764349967630337_by_539204044132271846773();
    lemma_pow_28948022309329048855892746252171976963363056481941560715954676764349967630337_by_8999194758858563409123804352480028797519453();
    let c: Seq<(int, nat)> = seq![(2int, 32nat), (3int, 1nat), (463int, 1nat), (539204044132271846773int, 1nat), (8999194758858563409123804352480028797519453int, 1nat)];
    assert(c[0] == (2int, 32nat));
    assert(c[1] == (3int, 1nat));
    assert(c[2] == (463int, 1nat));
    assert(c[3] == (539204044132271846773int, 1nat));
    assert(c[4] == (8999194758858563409123804352480028797519453int, 1nat));
    assert(cert_product(c.skip(5)) == 1) by {
        assert(c.skip(5) =~= Seq::<(int, nat)>::empty());
    }
    assert(cert_product(c.skip(4)) == 8999194758858563409123804352480028797519453int) by {
        assert(c.skip(4).drop_first() =~= c.skip(5));
        assert(c.skip(4)[0] == (8999194758858563409123804352480028797519453int, 1nat));
        assert(pow(8999194758858563409123804352480028797519453int, 1nat) == 8999194758858563409123804352480028797519453int) by {
            reveal_with_fuel(pow, 2);
        }
    }
    assert(cert_product(c.skip(3)) == 4852402207910482324454106387152561316357015077916052529702775169int) by {
        assert(c.skip(3).drop_first() =~= c.skip(4));
        assert(c.skip(3)[0] == (539204044132271846773int, 1nat));
        assert(pow(539204044132271846773int, 1nat) == 539204044132271846773int) by {
            reveal_with_fuel(pow, 2);
        }
    }
    assert(cert_product(c.skip(2)) == 2246662222262553316222251257251635889473297981075132321252384903247int) by {
        assert(c.skip(2).drop_first() =~= c.skip(3));
        assert(c.skip(2)[0] == (463int, 1nat));
        assert(pow(463int, 1nat) == 463int) by {
            reveal_with_fuel(pow, 2);
        }
    }
    assert(cert_product(c.skip(1)) == 6739986666787659948666753771754907668419893943225396963757154709741int) by {
        assert(c.skip(1).drop_first() =~= c.skip(2));
        assert(c.skip(1)[0] == (3int, 1nat));
        assert(pow(3int, 1nat) == 3int) by {
            reveal_with_fuel(pow, 2);
        }
    }
    assert(cert_product(c.skip(0)) == 28948022309329048855892746252171976963363056481941560715954676764349967630336int) by {
        assert(c.skip(0).drop_first() =~= c.skip(1));
        assert(c.skip(0)[0] == (2int, 32nat));
        assert(pow(2int, 32nat) == 4294967296int) by {
            reveal_with_fuel(pow, 33);
        }
    }
    assert(c.skip(0) =~= c);
    assert forall|i: int| 0 <= i < c.len() implies is_prime(#[trigger] c[i].0) && c[i].1 >= 1 by {
        if i == 0 {
            assert(c[0].0 == 2int);
        }
        if i == 1 {
            assert(c[1].0 == 3int);
        }
        if i == 2 {
            assert(c[2].0 == 463int);
        }
        if i == 3 {
            assert(c[3].0 == 539204044132271846773int);
        }
        if i == 4 {
            assert(c[4].0 == 8999194758858563409123804352480028797519453int);
        }
    }
    assert forall|i: int| 0 <= i < c.len() implies #[trigger] (pow(5int, ((28948022309329048855892746252171976963363056481941560715954676764349967630337int - 1) / c[i].0) as nat) % 28948022309329048855892746252171976963363056481941560715954676764349967630337int) != 1 by {
        if i == 0 {
            assert(c[0].0 == 2int);
            assert((28948022309329048855892746252171976963363056481941560715954676764349967630337int - 1) / 2int == 14474011154664524427946373126085988481681528240970780357977338382174983815168int);
        }
        if i == 1 {
            assert(c[1].0 == 3int);
            assert((28948022309329048855892746252171976963363056481941560715954676764349967630337int - 1) / 3int == 9649340769776349618630915417390658987787685493980520238651558921449989210112int);
        }
        if i == 2 {
            assert(c[2].0 == 463int);
            assert((28948022309329048855892746252171976963363056481941560715954676764349967630337int - 1) / 463int == 62522726370041142237349343957174896249164268859485012345474463853887619072int);
        }
        if i == 3 {
            assert(c[3].0 == 539204044132271846773int);
            assert((28948022309329048855892746252171976963363056481941560715954676764349967630337int - 1) / 539204044132271846773int == 53686582332509037086971591707806806267914632360185823232int);
        }
        if i == 4 {
            assert(c[4].0 == 8999194758858563409123804352480028797519453int);
            assert((28948022309329048855892746252171976963363056481941560715954676764349967630337int - 1) / 8999194758858563409123804352480028797519453int == 3216734728497058061019394250637312int);
        }
    }
    lemma_lucas(28948022309329048855892746252171976963363056481941560715954676764349967630337int, 5int, c);
}

} // verus!
