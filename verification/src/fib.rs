use vstd::prelude::*;

verus! {

/// The standard Fibonacci sequence: 0, 1, 1, 2, 3, 5, ...
pub open spec fn fib(n: nat) -> nat
    decreases n,
{
    if n == 0 {
        0
    } else if n == 1 {
        1
    } else {
        fib((n - 1) as nat) + fib((n - 2) as nat)
    }
}

/// The Fibonacci sequence never decreases.
pub proof fn lemma_fib_monotonic(i: nat, j: nat)
    requires
        i <= j,
    ensures
        fib(i) <= fib(j),
    decreases j - i,
{
    if i < j {
        if j == 1 {
            assert(fib(0) == 0);
        } else {
            lemma_fib_monotonic(i, (j - 1) as nat);
            assert(fib(j) == fib((j - 1) as nat) + fib((j - 2) as nat));
        }
    }
}

/// Computes the sequence with the shifted indexing the original exercise
/// uses: position 0 yields 1, position 1 yields 0, and every later
/// position yields the standard Fibonacci value at that index.
pub fn fibonacci(pos: u32) -> (r: u32)
    requires
        fib(pos as nat) <= u32::MAX,
    ensures
        pos == 0 ==> r == 1,
        pos == 1 ==> r == 0,
        pos >= 2 ==> r == fib(pos as nat),
{
    if pos == 0 {
        1
    } else if pos == 1 {
        0
    } else {
        let mut a: u32 = 0;
        let mut b: u32 = 1;
        let mut k: u32 = 0;
        while k < pos - 1
            invariant
                pos >= 2,
                k <= pos - 1,
                a == fib(k as nat),
                b == fib((k + 1) as nat),
                fib(pos as nat) <= u32::MAX,
            decreases pos - 1 - k,
        {
            proof {
                lemma_fib_monotonic((k + 2) as nat, pos as nat);
            }
            let c = a + b;
            a = b;
            b = c;
            k = k + 1;
        }
        b
    }
}

} // verus!
