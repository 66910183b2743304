use vstd::prelude::*;

use crate::fmt::{dec_rep, u128_to_decimal};

verus! {

/// The Fibonacci sequence.
pub open spec fn spec_fib(n: nat) -> nat
    decreases n,
{
    if n == 0 {
        0
    } else if n == 1 {
        1
    } else {
        spec_fib((n - 1) as nat) + spec_fib((n - 2) as nat)
    }
}

/// The Fibonacci recurrence in tail form: from the pair `(a, b)`, `k` more
/// steps of the recurrence.
spec fn fib_iter(a: nat, b: nat, k: nat) -> nat
    decreases k,
{
    if k == 0 {
        a
    } else {
        fib_iter(b, a + b, (k - 1) as nat)
    }
}

/// Stepping the tail form from two consecutive Fibonacci numbers lands `k`
/// places further along the sequence.
proof fn lemma_fib_iter_shift(i: nat, k: nat)
    ensures
        fib_iter(spec_fib(i), spec_fib(i + 1), k) == spec_fib(i + k),
    decreases k,
{
    if k > 0 {
        assert(spec_fib(i + 2) == spec_fib(i) + spec_fib(i + 1));
        lemma_fib_iter_shift(i + 1, (k - 1) as nat);
    }
}

/// The largest Fibonacci numbers the eight-byte result type can hold.
#[verifier::rlimit(100)]
proof fn lemma_fib_91_92()
    ensures
        spec_fib(91) == 4660046610375530309,
        spec_fib(92) == 7540113804746346429,
{
    lemma_fib_iter_shift(0, 91);
    lemma_fib_iter_shift(0, 92);
    assert(fib_iter(0, 1, 91) == fib_iter(832040, 1346269, 61)) by {
        reveal_with_fuel(fib_iter, 31);
    }
    assert(fib_iter(832040, 1346269, 61) == fib_iter(1548008755920, 2504730781961, 31)) by {
        reveal_with_fuel(fib_iter, 31);
    }
    assert(fib_iter(1548008755920, 2504730781961, 31) == fib_iter(
        2880067194370816120,
        4660046610375530309,
        1,
    )) by {
        reveal_with_fuel(fib_iter, 31);
    }
    assert(fib_iter(2880067194370816120, 4660046610375530309, 1) == 4660046610375530309) by {
        reveal_with_fuel(fib_iter, 2);
    }
    assert(fib_iter(0, 1, 92) == fib_iter(832040, 1346269, 62)) by {
        reveal_with_fuel(fib_iter, 31);
    }
    assert(fib_iter(832040, 1346269, 62) == fib_iter(1548008755920, 2504730781961, 32)) by {
        reveal_with_fuel(fib_iter, 31);
    }
    assert(fib_iter(1548008755920, 2504730781961, 32) == fib_iter(
        2880067194370816120,
        4660046610375530309,
        2,
    )) by {
        reveal_with_fuel(fib_iter, 31);
    }
    assert(fib_iter(2880067194370816120, 4660046610375530309, 2) == 7540113804746346429) by {
        reveal_with_fuel(fib_iter, 3);
    }
}

/// The Fibonacci sequence never decreases.
proof fn lemma_fib_mono(i: nat, j: nat)
    requires
        i <= j,
    ensures
        spec_fib(i) <= spec_fib(j),
    decreases j - i,
{
    if i < j && j >= 2 {
        lemma_fib_mono(i, (j - 1) as nat);
        assert(spec_fib(j) == spec_fib((j - 1) as nat) + spec_fib((j - 2) as nat));
    }
}

/// The `n`-th Fibonacci number, by iterating the recurrence; zero for a
/// non-positive `n`. Arguments above 91 are excluded: the next Fibonacci
/// number no longer fits the result type.
pub fn fib(n: i64) -> (r: i64)
    requires
        n <= 91,
    ensures
        n <= 0 ==> r == 0,
        n > 0 ==> r == spec_fib(n as nat),
{
    if n <= 0 {
        return 0;
    }
    let mut a: i64 = 0;
    let mut b: i64 = 1;
    let mut i: i64 = 0;
    while i < n
        invariant
            0 < n <= 91,
            0 <= i <= n,
            a == spec_fib(i as nat),
            b == spec_fib((i + 1) as nat),
        decreases n - i,
    {
        proof {
            lemma_fib_91_92();
            lemma_fib_mono((i + 2) as nat, 92);
            assert(spec_fib((i + 2) as nat) == spec_fib(i as nat) + spec_fib((i + 1) as nat));
        }
        let next = a + b;
        a = b;
        b = next;
        i = i + 1;
    }
    a
}

/// Primality of an integer: greater than one, with no divisor strictly
/// between one and itself.
pub open spec fn spec_is_prime(n: int) -> bool {
    n > 1 && forall|d: int| 2 <= d < n ==> #[trigger] (n % d) != 0
}

/// Trial-division primality test: one for a prime, zero otherwise.
pub fn is_prime(n: i64) -> (r: i64)
    ensures
        r == (if spec_is_prime(n as int) {
            1int
        } else {
            0int
        }),
{
    if n <= 1 {
        return 0;
    }
    let mut i: i64 = 2;
    while i < n
        invariant
            1 < n,
            2 <= i <= n,
            forall|d: int| 2 <= d < i ==> #[trigger] ((n as int) % d) != 0,
        decreases n - i,
    {
        if n % i == 0 {
            return 0;
        }
        i = i + 1;
    }
    1
}

/// The sum of two numbers, rendered in decimal.
pub fn sum_as_string(a: usize, b: usize) -> (r: String)
    requires
        a + b <= usize::MAX,
    ensures
        r@ == dec_rep((a + b) as nat),
{
    let sum = a + b;
    u128_to_decimal(sum as u128)
}

} // verus!
