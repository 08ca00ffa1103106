use vstd::prelude::*;

verus! {

/// The Fibonacci numbers: `fib(0) = 0`, `fib(1) = 1`, `fib(n) = fib(n - 2) + fib(n - 1)`.
pub open spec fn spec_fib(n: nat) -> nat
    decreases n,
{
    if n == 0 {
        0
    } else if n == 1 {
        1
    } else {
        spec_fib((n - 2) as nat) + spec_fib((n - 1) as nat)
    }
}

/// The argument values on which `fibonacci` returns: non-negative, with a result that fits in `i64`.
pub open spec fn fib_fits_i64(n: int) -> bool {
    0 <= n && spec_fib(n as nat) <= i64::MAX
}

/// The Fibonacci numbers start with 0 and 1, and each further one is the sum of
/// the two before it.
pub proof fn lemma_fib_recurrence(n: nat)
    ensures
        spec_fib(0) == 0,
        spec_fib(1) == 1,
        spec_fib(n + 2) == spec_fib(n) + spec_fib(n + 1),
{
}

/// Fibonacci numbers never decrease.
pub proof fn lemma_fib_monotonic(i: nat, j: nat)
    requires
        i <= j,
    ensures
        spec_fib(i) <= spec_fib(j),
    decreases j - i,
{
    if i < j {
        lemma_fib_monotonic(i, (j - 1) as nat);
        if j >= 2 {
            assert(spec_fib(j) == spec_fib((j - 2) as nat) + spec_fib((j - 1) as nat));
        }
    }
}

/// The Fibonacci number of `num`, or `None` where `num` is negative or that number
/// does not fit in `i64`.
pub fn checked_fibonacci(num: i64) -> (r: Option<i64>)
    ensures
        r == (if fib_fits_i64(num as int) { Some(spec_fib(num as nat) as i64) } else { None::<i64> }),
{
    if num < 0 {
        return None;
    }
    if num == 0 {
        return Some(0);
    }
    let mut prev: i64 = 0;
    let mut cur: i64 = 1;
    let mut i: i64 = 1;
    while i < num
        invariant
            1 <= i <= num,
            prev == spec_fib((i - 1) as nat),
            cur == spec_fib(i as nat),
        decreases num - i,
    {
        match prev.checked_add(cur) {
            Some(next) => {
                prev = cur;
                cur = next;
                i = i + 1;
            },
            None => {
                proof {
                    lemma_fib_monotonic((i + 1) as nat, num as nat);
                }
                return None;
            },
        }
    }
    Some(cur)
}

/// The Fibonacci number of `num`.
pub fn fibonacci(num: i64) -> (r: i64)
    requires
        fib_fits_i64(num as int),
    ensures
        r == spec_fib(num as nat),
{
    if num == 0 {
        return 0;
    }
    let mut prev: i64 = 0;
    let mut cur: i64 = 1;
    let mut i: i64 = 1;
    while i < num
        invariant
            1 <= i <= num,
            fib_fits_i64(num as int),
            prev == spec_fib((i - 1) as nat),
            cur == spec_fib(i as nat),
        decreases num - i,
    {
        proof {
            lemma_fib_monotonic((i + 1) as nat, num as nat);
        }
        let next = prev + cur;
        prev = cur;
        cur = next;
        i = i + 1;
    }
    cur
}

} // verus!
