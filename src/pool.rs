use vstd::prelude::*;

verus! {

/// How benchmark workers get their channels.
#[derive(Clone, Copy, Debug, PartialEq, Eq, Structural)]
pub enum ChannelMode {
    /// A fixed pool of multiplexed connections shared by all workers.
    Pooled(usize),
    /// One multiplexed connection per worker.
    PerWorkerMultiplex,
    /// One simplex connection per worker.
    PerWorkerSimplex,
}

#[derive(Clone, Copy, Debug, PartialEq, Eq, Structural)]
pub enum PoolConfigError {
    /// A pool size was given together with disabling multiplexing.
    PoolWithoutMultiplex,
}

pub open spec fn plan_spec(pool_size: Option<usize>, no_multiplex: bool) -> Result<
    ChannelMode,
    PoolConfigError,
> {
    match pool_size {
        Some(n) => if no_multiplex {
            Err(PoolConfigError::PoolWithoutMultiplex)
        } else if n > 0 {
            Ok(ChannelMode::Pooled(n))
        } else {
            Ok(ChannelMode::PerWorkerMultiplex)
        },
        None => if no_multiplex {
            Ok(ChannelMode::PerWorkerSimplex)
        } else {
            Ok(ChannelMode::PerWorkerMultiplex)
        },
    }
}

/// Decides the channel layout: a pool size excludes disabling multiplexing,
/// and a pool size of zero means no pool.
pub fn plan_channels(pool_size: Option<usize>, no_multiplex: bool) -> (r: Result<
    ChannelMode,
    PoolConfigError,
>)
    ensures
        r == plan_spec(pool_size, no_multiplex),
{
    match pool_size {
        Some(n) => {
            if no_multiplex {
                Err(PoolConfigError::PoolWithoutMultiplex)
            } else if n > 0 {
                Ok(ChannelMode::Pooled(n))
            } else {
                Ok(ChannelMode::PerWorkerMultiplex)
            }
        },
        None => {
            if no_multiplex {
                Ok(ChannelMode::PerWorkerSimplex)
            } else {
                Ok(ChannelMode::PerWorkerMultiplex)
            }
        },
    }
}

/// Round-robin cursor over a fixed, non-empty set of pooled connections.
pub struct RoundRobin {
    size: usize,
    next: usize,
}

impl RoundRobin {
    pub closed spec fn spec_size(&self) -> nat {
        self.size as nat
    }

    pub closed spec fn spec_next(&self) -> nat {
        self.next as nat
    }

    pub open spec fn wf(&self) -> bool {
        self.spec_size() > 0 && self.spec_next() < self.spec_size()
    }

    /// A cursor over `size` connections, starting at the first; `None` for an
    /// empty pool.
    pub fn new(size: usize) -> (r: Option<Self>)
        ensures
            size == 0 <==> r is None,
            r matches Some(c) ==> c.wf() && c.spec_size() == size && c.spec_next() == 0,
    {
        if size == 0 {
            None
        } else {
            Some(RoundRobin { size, next: 0 })
        }
    }

    pub fn size(&self) -> (r: usize)
        ensures
            r == self.spec_size(),
    {
        self.size
    }

    /// The connection for the next request; the cursor moves on by one.
    pub fn select(&mut self) -> (r: usize)
        requires
            old(self).wf(),
        ensures
            final(self).wf(),
            r == old(self).spec_next(),
            final(self).spec_size() == old(self).spec_size(),
            final(self).spec_next() == (old(self).spec_next() + 1) % old(self).spec_size(),
    {
        let r = self.next;
        proof {
            vstd::arithmetic::div_mod::lemma_mod_self_0(self.size as int);
            if self.next + 1 < self.size {
                vstd::arithmetic::div_mod::lemma_small_mod((self.next + 1) as nat, self.size as nat);
            }
        }
        self.next = if self.next + 1 == self.size {
            0
        } else {
            self.next + 1
        };
        r
    }
}

/// Starting from the first connection, the k-th selection (from zero) goes
/// to connection k mod n, so n consecutive selections visit each connection
/// once.
pub proof fn lemma_round_robin_order(n: nat, k: nat)
    requires
        n > 0,
    ensures
        (k + 1) % n == ((k % n) + 1) % n,
{
    vstd::arithmetic::div_mod::lemma_add_mod_noop(k as int, 1, n as int);
    if n == 1 {
        assert((k + 1) % 1 == 0 && ((k % 1) + 1) % 1 == 0);
    } else {
        vstd::arithmetic::div_mod::lemma_small_mod(1, n);
    }
}

/// How many of the first `k` selections, from connection 0 of `n`, go to
/// connection `i`.
pub open spec fn picks(n: nat, k: nat, i: nat) -> nat
    decreases k,
{
    if k == 0 || n == 0 {
        0
    } else {
        picks(n, (k - 1) as nat, i) + if (k - 1) % (n as int) == i {
            1nat
        } else {
            0nat
        }
    }
}

proof fn lemma_picks_block(n: nat, m: nat, t: nat, i: nat)
    requires
        n > 0,
        t <= n,
        i < n,
    ensures
        picks(n, n * m + t, i) == picks(n, n * m, i) + if i < t {
            1nat
        } else {
            0nat
        },
    decreases t,
{
    if t > 0 {
        lemma_picks_block(n, m, (t - 1) as nat, i);
        vstd::arithmetic::div_mod::lemma_mod_multiples_vanish(m as int, (t - 1) as int, n as int);
        vstd::arithmetic::div_mod::lemma_small_mod((t - 1) as nat, n);
        assert((n * m + t - 1) as int == n as int * m as int + (t - 1) as int) by (nonlinear_arith);
        assert(((n * m + t) - 1) as nat == (n * m + (t - 1)) as nat);
    }
}

/// Round-robin selection is balanced: of `n * m` requests spread from
/// connection 0 over `n` connections, each connection gets exactly `m`, so
/// none carries more than `m` at once.
pub proof fn lemma_round_robin_balanced(n: nat, m: nat, i: nat)
    requires
        n > 0,
        i < n,
    ensures
        picks(n, n * m, i) == m,
    decreases m,
{
    if m > 0 {
        lemma_round_robin_balanced(n, (m - 1) as nat, i);
        lemma_picks_block(n, (m - 1) as nat, n, i);
        assert(n * (m - 1) as nat + n == n * m) by (nonlinear_arith)
            requires m > 0;
    } else {
        assert(n * m == 0) by (nonlinear_arith)
            requires m == 0;
    }
}

} // verus!
