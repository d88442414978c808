//! The tutorial's example program: a Fibonacci function, with the loop
//! running the `n - 1` steps that the exercise asks for.

use vstd::prelude::*;

verus! {

/// The Fibonacci numbers: 0, 1, 1, 2, 3, 5, ...
pub open spec fn fib(n: nat) -> nat
    decreases n,
{
    if n == 0 {
        0
    } else if n == 1 {
        1
    } else {
        fib((n - 2) as nat) + fib((n - 1) as nat)
    }
}

proof fn lemma_fib_monotonic(i: nat, j: nat)
    requires
        i <= j,
    ensures
        fib(i) <= fib(j),
    decreases j - i,
{
    if j < 2 || i == j {
    } else if i == j - 1 {
        assert(fib(j) == fib((j - 2) as nat) + fib((j - 1) as nat));
    } else {
        lemma_fib_monotonic(i, (j - 1) as nat);
        lemma_fib_monotonic(i, (j - 2) as nat);
    }
}

/// The tutorial's Fibonacci function: the `n`-th Fibonacci number, so
/// `fibonacci(10)` is 55.
pub fn fibonacci(n: u64) -> (r: u64)
    requires
        fib(n as nat) <= u64::MAX,
    ensures
        r == fib(n as nat),
{
    if n == 0 {
        return 0;
    }
    if n == 1 {
        return 1;
    }
    let mut prev: u64 = 0;
    let mut curr: u64 = 1;
    let mut i: u64 = 1;
    while i < n
        invariant
            2 <= n,
            1 <= i <= n,
            fib(n as nat) <= u64::MAX,
            prev == fib((i - 1) as nat),
            curr == fib(i as nat),
        decreases n - i,
    {
        proof {
            lemma_fib_monotonic((i + 1) as nat, n as nat);
            assert(fib((i + 1) as nat) == fib((i - 1) as nat) + fib(i as nat));
        }
        let next = prev + curr;
        prev = curr;
        curr = next;
        i = i + 1;
    }
    curr
}

} // verus!
