use vstd::prelude::*;

use crate::endpoint::Endpoint;
use crate::error::LoadBalancerError;
use crate::strategy::LoadBalancingStrategy;
use crate::strategy::has_healthy;
use crate::strategy::healthy_index_list;
use crate::strategy::healthy_indices;
use crate::strategy::lemma_healthy_indices;
use vstd::arithmetic::div_mod::lemma_add_mod_noop_right;
use vstd::arithmetic::div_mod::lemma_div_of0;
use vstd::arithmetic::div_mod::lemma_fundamental_div_mod;
use vstd::arithmetic::div_mod::lemma_fundamental_div_mod_converse_div;
use vstd::arithmetic::div_mod::lemma_fundamental_div_mod_converse_mod;
use vstd::arithmetic::div_mod::lemma_mod_division_less_than_divisor;
use vstd::arithmetic::div_mod::lemma_small_mod;

verus! {

/// Round-robin selection: a counter that only ever steps forward, read modulo
/// the number of healthy endpoints at the moment of selection.
#[derive(Clone, Copy)]
pub struct RoundRobin {
    pub current: u64,
}

/// The counter after one pick: one more, wrapping at the top of `u64`.
pub open spec fn next_counter(c: u64) -> u64 {
    if c == u64::MAX {
        0
    } else {
        (c + 1) as u64
    }
}

impl RoundRobin {
    pub fn new() -> (s: RoundRobin)
        ensures
            s == (RoundRobin { current: 0 }),
    {
        RoundRobin { current: 0 }
    }
}

impl LoadBalancingStrategy for RoundRobin {
    fn next_endpoint(&mut self, endpoints: &Vec<Endpoint>) -> (r: Result<
        usize,
        LoadBalancerError,
    >)
        ensures
            ({
                let hs = healthy_indices(endpoints@);
                if hs.len() > 0 {
                    r == Ok::<usize, LoadBalancerError>(
                        hs[old(self).current as int % hs.len() as int],
                    ) && final(self).current == next_counter(old(self).current)
                } else {
                    r == Err::<usize, LoadBalancerError>(LoadBalancerError::NoHealthyEndpoints)
                        && final(self).current == old(self).current
                }
            }),
    {
        let total = endpoints.len();
        let healthy: Vec<usize> = healthy_index_list(endpoints);
        proof {
            assert(endpoints@.len() == total);
            lemma_healthy_indices(endpoints@);
        }
        if healthy.len() == 0 {
            return Err(LoadBalancerError::NoHealthyEndpoints);
        }
        let c = self.current;
        if c == u64::MAX {
            self.current = 0;
        } else {
            self.current = c + 1;
        }
        let n = healthy.len();
        let idx = (c % (n as u64)) as usize;
        proof {
            assert(c % (n as u64) < (n as u64));
            assert(c % (n as u64) == c as int % n as int);
        }
        Ok(healthy[idx])
    }
}


/// How often the round-robin picks land on healthy slot `j`: over the `k`
/// picks made at counter values `c`, `c + 1`, ..., `c + k - 1`, with `n`
/// healthy endpoints, the pick at counter value `x` lands on slot `x % n`.
pub open spec fn rr_count(c: int, k: nat, n: int, j: int) -> nat
    decreases k,
{
    if k == 0 {
        0nat
    } else {
        rr_count(c, (k - 1) as nat, n, j) + (if (c + k - 1) % n == j {
            1nat
        } else {
            0nat
        })
    }
}

/// A pick at counter `c + i` lands on slot `j` exactly when `i` is at `j`'s
/// offset from `c` modulo `n`.
proof fn lemma_hit_condition(c: int, i: int, n: int, j: int)
    requires
        0 < n,
        0 <= j < n,
        0 <= i,
        0 <= c,
    ensures
        ((c + i) % n == j) <==> (i % n == (j - c) % n),
{
    let p = (j - c) % n;
    lemma_mod_division_less_than_divisor(j - c, n);
    lemma_mod_division_less_than_divisor(i, n);
    lemma_add_mod_noop_right(c, j - c, n);
    lemma_small_mod(j as nat, n as nat);
    assert((c + p) % n == j);
    lemma_add_mod_noop_right(c, i, n);
    if (c + i) % n == j {
        let a = i % n;
        lemma_fundamental_div_mod(c + a, n);
        lemma_fundamental_div_mod(c + p, n);
        let q1 = (c + a) / n;
        let q2 = (c + p) / n;
        assert(a - p == n * (q1 - q2)) by (nonlinear_arith)
            requires
                c + a == n * q1 + (c + a) % n,
                c + p == n * q2 + (c + p) % n,
                (c + a) % n == (c + p) % n,
        ;
        assert(q1 - q2 == 0) by (nonlinear_arith)
            requires
                a - p == n * (q1 - q2),
                -n < a - p < n,
                n > 0,
        ;
    }
}

/// Stepping the pick count from `k` to `k + 1` steps the quotient and the
/// remainder of `k` by `n` in the familiar way.
proof fn lemma_div_mod_step(k: int, n: int)
    requires
        0 <= k,
        0 < n,
    ensures
        k % n == n - 1 ==> ((k + 1) % n == 0 && (k + 1) / n == k / n + 1),
        k % n < n - 1 ==> ((k + 1) % n == k % n + 1 && (k + 1) / n == k / n),
{
    lemma_fundamental_div_mod(k, n);
    lemma_mod_division_less_than_divisor(k, n);
    let q = k / n;
    let r = k % n;
    if r == n - 1 {
        assert(k + 1 == (q + 1) * n + 0) by (nonlinear_arith)
            requires
                k == n * q + r,
                r == n - 1,
        ;
        lemma_fundamental_div_mod_converse_mod(k + 1, n, q + 1, 0);
        lemma_fundamental_div_mod_converse_div(k + 1, n, q + 1, 0);
    } else {
        assert(k + 1 == q * n + (r + 1)) by (nonlinear_arith)
            requires
                k == n * q + r,
        ;
        lemma_fundamental_div_mod_converse_mod(k + 1, n, q, r + 1);
        lemma_fundamental_div_mod_converse_div(k + 1, n, q, r + 1);
    }
}

/// The closed form of `rr_count`: slot `j` is picked `k / n` times, plus one
/// more when `j`'s offset from `c` falls inside the last partial cycle.
proof fn lemma_rr_count_closed(c: int, k: nat, n: int, j: int)
    requires
        0 < n,
        0 <= j < n,
        0 <= c,
    ensures
        rr_count(c, k, n, j) as int == (k as int) / n + (if (j - c) % n < (k as int) % n {
            1int
        } else {
            0int
        }),
    decreases k,
{
    let p = (j - c) % n;
    lemma_mod_division_less_than_divisor(j - c, n);
    if k == 0 {
        lemma_div_of0(n);
        lemma_small_mod(0nat, n as nat);
    } else {
        let km1 = (k - 1) as nat;
        lemma_rr_count_closed(c, km1, n, j);
        lemma_hit_condition(c, k as int - 1, n, j);
        lemma_div_mod_step(k as int - 1, n);
        lemma_mod_division_less_than_divisor(k as int - 1, n);
    }
}

/// Round-robin is fair: over any `k` consecutive picks against a fixed set
/// of `n` healthy endpoints, each healthy slot is picked either `k / n`
/// times or one more, and exactly `k / n` times when `n` divides `k`.
pub proof fn lemma_round_robin_fair(c: nat, k: nat, n: int, j: int)
    requires
        0 < n,
        0 <= j < n,
    ensures
        rr_count(c as int, k, n, j) as int == (k as int) / n || rr_count(c as int, k, n, j) as int
            == (k as int) / n + 1,
        (k as int) % n == 0 ==> rr_count(c as int, k, n, j) as int == (k as int) / n,
{
    lemma_rr_count_closed(c as int, k, n, j);
    lemma_mod_division_less_than_divisor(j - c, n);
}

} // verus!
