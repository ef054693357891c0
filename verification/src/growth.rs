use vstd::prelude::*;

verus! {

/// The capacity after one push into an array of `len` live values in `cap`
/// slots: unchanged while a vacant slot remains, one slot when nothing was
/// allocated yet, and doubled otherwise.
pub open spec fn grown_capacity(len: nat, cap: nat) -> nat {
    if len < cap {
        cap
    } else if cap == 0 {
        1
    } else {
        2 * cap
    }
}

/// The capacity of a fresh array after `n` pushes: the `n`th push finds
/// `n - 1` live values in place and grows the capacity by `grown_capacity`,
/// exactly as `Vec::push` ensures.
pub open spec fn capacity_after_pushes(n: nat) -> nat
    decreases n,
{
    if n == 0 {
        0
    } else {
        grown_capacity((n - 1) as nat, capacity_after_pushes((n - 1) as nat))
    }
}

/// Whether `m` is a power of two.
pub open spec fn is_power_of_two(m: nat) -> bool
    decreases m,
{
    if m == 0 {
        false
    } else if m == 1 {
        true
    } else {
        m % 2 == 0 && is_power_of_two(m / 2)
    }
}

/// Two powers of two within a factor of two of one another are equal.
proof fn lemma_power_of_two_unique(p: nat, q: nat)
    requires
        is_power_of_two(p),
        is_power_of_two(q),
        p <= q < 2 * p,
    ensures
        p == q,
    decreases p,
{
    if p > 1 {
        lemma_power_of_two_unique(p / 2, q / 2);
    }
}

/// Growth doubling: after `n` pushes into a fresh array the capacity is the
/// least power of two that is at least `n` (it is zero while nothing has
/// been pushed), so the `n`th push reallocates exactly at the first push
/// and whenever `n - 1` is a power of two.
pub proof fn lemma_growth_doubling(n: nat)
    requires
        n >= 1,
    ensures
        n <= capacity_after_pushes(n) < 2 * n,
        is_power_of_two(capacity_after_pushes(n)),
        capacity_after_pushes(n) != capacity_after_pushes((n - 1) as nat) <==> (n == 1
            || is_power_of_two((n - 1) as nat)),
    decreases n,
{
    if n > 1 {
        lemma_growth_doubling((n - 1) as nat);
        let c = capacity_after_pushes((n - 1) as nat);
        assert(capacity_after_pushes(n) == grown_capacity((n - 1) as nat, c));
        if n - 1 < c {
            assert(capacity_after_pushes(n) == c);
            if is_power_of_two((n - 1) as nat) {
                lemma_power_of_two_unique((n - 1) as nat, c);
            }
        } else {
            assert(n - 1 == c);
            assert(capacity_after_pushes(n) == 2 * c);
            assert((2 * c) % 2 == 0 && (2 * c) / 2 == c);
            assert(is_power_of_two(2 * c));
        }
    } else {
        assert(capacity_after_pushes(0nat) == 0);
        assert(capacity_after_pushes(1nat) == grown_capacity(0nat, 0nat) == 1);
        assert(is_power_of_two(1nat));
    }
}

} // verus!
