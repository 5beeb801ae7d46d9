//! Numeric routines: the Fibonacci sequence.
use vstd::prelude::*;

verus! {

/// The n-th Fibonacci number: `fib(0) == 0`, `fib(1) == 1`, and each later
/// term is the sum of the two before it.
pub open spec fn fib(n: nat) -> nat
    decreases n,
{
    if n == 0 {
        0
    } else if n == 1 {
        1
    } else {
        fib((n - 1) as nat) + fib((n - 2) as nat)
    }
}

/// Why `fibonacci` gives no value.
#[derive(Clone, Copy, Debug, PartialEq, Eq, Structural)]
pub enum FibError {
    /// The index was negative: the sequence starts at index 0.
    InvalidArgument,
    /// The term exists but does not fit in an `i32`.
    Overflow,
}

/// Each term is at least as large as every earlier one.
pub proof fn lemma_fib_monotone(i: nat, j: nat)
    requires
        i <= j,
    ensures
        fib(i) <= fib(j),
    decreases j - i,
{
    if i < j {
        lemma_fib_monotone(i, (j - 1) as nat);
        assert(fib((j - 1) as nat) <= fib(j));
    }
}

/// The recurrence: for every `n >= 2`, the n-th term is the sum of the two
/// terms before it.
pub proof fn lemma_fibonacci_recurrence(n: nat)
    requires
        n >= 2,
    ensures
        fib(n) == fib((n - 1) as nat) + fib((n - 2) as nat),
{
}

/// The n-th Fibonacci number.
///
/// A negative `n` is rejected with `InvalidArgument`; an `n` whose term
/// exceeds `i32::MAX` gives `Overflow`.
pub fn fibonacci(n: i32) -> (r: Result<i32, FibError>)
    ensures
        n < 0 ==> r == Err::<i32, FibError>(FibError::InvalidArgument),
        n >= 0 && fib(n as nat) > i32::MAX ==> r == Err::<i32, FibError>(FibError::Overflow),
        n >= 0 && fib(n as nat) <= i32::MAX ==> r == Ok::<i32, FibError>(fib(n as nat) as i32),
{
    if n < 0 {
        return Err(FibError::InvalidArgument);
    }
    if n == 0 {
        return Ok(0);
    }
    let mut prev: i32 = 0;
    let mut cur: i32 = 1;
    let mut i: i32 = 1;
    while i < n
        invariant
            1 <= i <= n,
            prev == fib((i - 1) as nat),
            cur == fib(i as nat),
        decreases n - i,
    {
        match prev.checked_add(cur) {
            None => {
                proof {
                    assert(fib((i + 1) as nat) == fib(i as nat) + fib((i - 1) as nat));
                    lemma_fib_monotone((i + 1) as nat, n as nat);
                }
                return Err(FibError::Overflow);
            },
            Some(next) => {
                assert(fib((i + 1) as nat) == fib(i as nat) + fib((i - 1) as nat));
                prev = cur;
                cur = next;
                i = i + 1;
            },
        }
    }
    Ok(cur)
}

} // verus!
