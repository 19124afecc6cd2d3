//! How a device is used: the shape of its launches, and how many candidates each thread tries.
use vstd::arithmetic::div_mod::*;
use vstd::arithmetic::mul::*;
use vstd::arithmetic::power2::*;
use vstd::prelude::*;

verus! {

/// The limits of a kernel on a device.
pub struct DeviceLimits {
    /// The most threads of a block that the kernel can run with.
    pub fn_max_threads: u32,
    /// The registers that a thread of the kernel uses.
    pub fn_registers: u32,
    /// The most threads of a block that the device can run.
    pub gpu_max_threads: u32,
    /// The registers that a block of the device has.
    pub gpu_max_registers: u32,
    /// The multiprocessors of the device.
    pub gpu_cores: u32,
}

/// The shape of a launch.
pub struct Geometry {
    /// The threads of a block.
    pub threads: u32,
    /// The blocks.
    pub blocks: u32,
    /// All threads.
    pub grid: u64,
}

/// The smaller of two numbers.
pub open spec fn smaller(a: int, b: int) -> int {
    if a < b {
        a
    } else {
        b
    }
}

/// The larger of two numbers.
pub open spec fn larger(a: int, b: int) -> int {
    if a > b {
        a
    } else {
        b
    }
}

/// How many threads nine tenths of the registers suffice for, in whole warps of 32.
pub open spec fn register_threads(l: DeviceLimits) -> int {
    (l.gpu_max_registers * 9 / 10) / larger(l.fn_registers as int, 1) / 32 * 32
}

/// The threads of a block: as many as the kernel, the device and the registers allow, and no more
/// than 256.
pub open spec fn block_threads(l: DeviceLimits) -> int {
    smaller(
        smaller(l.fn_max_threads as int, l.gpu_max_threads as int),
        smaller(larger(register_threads(l), 32), 256),
    )
}

/// The shape of the launches on a device: blocks of as many threads as fit, and as many blocks as
/// fill the multiprocessors.
pub fn geometry(l: &DeviceLimits) -> (r: Geometry)
    requires
        l.fn_max_threads > 0,
        l.gpu_max_threads > 0,
        l.gpu_cores * l.gpu_max_threads <= u32::MAX,
    ensures
        r.threads == block_threads(*l),
        r.blocks == (l.gpu_cores * l.gpu_max_threads) / block_threads(*l),
        r.grid == r.threads * r.blocks,
        0 < r.threads <= 256,
        ({
            let registers = if l.fn_registers > 1 {
                l.fn_registers as int
            } else {
                1
            };
            let warps = (l.gpu_max_registers * 9 / 10) / registers / 32;
            let most = if warps > 1 {
                32 * warps
            } else {
                32
            };
            &&& r.threads <= l.fn_max_threads && r.threads <= l.gpu_max_threads && r.threads <= most
            &&& r.threads == l.fn_max_threads || r.threads == l.gpu_max_threads || r.threads == most
                || r.threads == 256
            &&& r.blocks * r.threads <= l.gpu_cores * l.gpu_max_threads < (r.blocks + 1) * r.threads
        }),
{
    let usable: u64 = l.gpu_max_registers as u64 * 9 / 10;
    let registers: u64 = if l.fn_registers > 1 {
        l.fn_registers as u64
    } else {
        1
    };
    let reg_threads: u64 = usable / registers / 32 * 32;
    let by_registers: u64 = if reg_threads > 32 {
        reg_threads
    } else {
        32
    };
    let capped: u32 = if by_registers < 256 {
        by_registers as u32
    } else {
        256
    };
    let both: u32 = if l.fn_max_threads < l.gpu_max_threads {
        l.fn_max_threads
    } else {
        l.gpu_max_threads
    };
    let threads: u32 = if both < capped {
        both
    } else {
        capped
    };
    let blocks: u32 = l.gpu_cores * l.gpu_max_threads / threads;
    proof {
        lemma_mul_upper_bound(threads as int, 256, blocks as int, u32::MAX as int);
        lemma_whole_blocks((l.gpu_cores * l.gpu_max_threads) as int, threads as int);
    }
    Geometry { threads, blocks, grid: threads as u64 * blocks as u64 }
}

/// As many whole blocks as fit.
proof fn lemma_whole_blocks(all: int, threads: int)
    requires
        threads > 0,
    ensures
        all / threads * threads <= all < (all / threads + 1) * threads,
{
    lemma_fundamental_div_mod(all, threads);
    lemma_mod_bound(all, threads);
    lemma_mul_is_commutative(threads, all / threads);
    lemma_mul_is_distributive_add_other_way(threads, all / threads, 1);
    lemma_mul_basics(threads);
}

/// The candidates of a thread that tuning starts with.
pub const START_ITERS: u64 = 16;

/// The launches of the first measurement.
pub const START_ROUNDS: u32 = 3;

/// The launches of every other measurement.
pub const ROUNDS: u32 = 2;

/// The number of candidates that tuning stays below: `2^22`.
pub const CEILING: u64 = 4194304;

/// How a measurement compares with the best one before it.
pub struct Measured {
    /// A launch took longer than the limit.
    pub over_cap: bool,
    /// The rate was higher.
    pub faster: bool,
    /// The rate was higher by more than two percent.
    pub clearly_faster: bool,
}

/// The search for the number of candidates with which a device is fastest: it is doubled as long
/// as that pays.
pub struct Autotune {
    /// The best number so far.
    pub cur: u64,
    /// Whether the search is over.
    pub done: bool,
}

impl Autotune {
    /// The number is a doubling of the first one, below the ceiling.
    pub open spec fn wf(self) -> bool {
        &&& self.cur < CEILING
        &&& exists|k: nat| self.cur == START_ITERS * #[trigger] pow2(k)
    }

    /// The next number to measure.
    pub open spec fn next(self) -> Option<u64> {
        if self.done || 2 * self.cur >= CEILING {
            None
        } else {
            Some((2 * self.cur) as u64)
        }
    }

    /// The state after a measurement of the next number: it is taken if it was faster, and the
    /// search goes on only if it was clearly faster and within the limit.
    pub open spec fn after(self, m: Measured) -> Autotune {
        let better = if m.over_cap {
            m.faster
        } else {
            m.clearly_faster || m.faster
        };
        Autotune {
            cur: if better {
                (2 * self.cur) as u64
            } else {
                self.cur
            },
            done: m.over_cap || !m.clearly_faster,
        }
    }

    /// The search before any comparison.
    pub fn new() -> (r: Autotune)
        ensures
            r.wf(),
            r.cur == START_ITERS,
            r.cur == 16,
            !r.done,
    {
        proof {
            lemma2_to64();
            assert(START_ITERS == START_ITERS * pow2(0));
        }
        Autotune { cur: START_ITERS, done: false }
    }

    /// The next number to measure, or none if the search is over.
    pub fn candidate(&self) -> (r: Option<u64>)
        requires
            self.wf(),
        ensures
            r == self.next(),
            r is Some <==> !self.done && 2 * self.cur < 4194304,
            r matches Some(n) ==> n == 2 * self.cur,
    {
        if self.done {
            return None;
        }
        let cand: u64 = self.cur * 2;
        if cand >= CEILING {
            None
        } else {
            Some(cand)
        }
    }

    /// Takes a measurement of the next number into account.
    pub fn observe(&mut self, m: Measured)
        requires
            old(self).wf(),
            old(self).next() is Some,
        ensures
            final(self).wf(),
            *final(self) == old(self).after(m),
            final(self).cur == (if m.faster || (m.clearly_faster && !m.over_cap) {
                2 * old(self).cur
            } else {
                old(self).cur as int
            }),
            final(self).done <==> m.over_cap || !m.clearly_faster,
    {
        let cand: u64 = self.cur * 2;
        proof {
            let k = choose|k: nat| self.cur == START_ITERS * #[trigger] pow2(k);
            lemma_pow2_unfold(k + 1);
            assert(cand == START_ITERS * pow2(k + 1));
        }
        if m.over_cap {
            if m.faster {
                self.cur = cand;
            }
            self.done = true;
        } else if m.clearly_faster {
            self.cur = cand;
        } else {
            if m.faster {
                self.cur = cand;
            }
            self.done = true;
        }
    }
}

/// Tuning ends: every measurement ends it or doubles the number, which stays below the ceiling.
pub proof fn lemma_tuning_ends(t: Autotune, m: Measured)
    requires
        t.wf(),
        t.next() is Some,
    ensures
        t.after(m).done || t.after(m).cur == 2 * t.cur,
        t.after(m).cur < CEILING,
{
}

impl Geometry {
    /// The keys that a launch tries.
    pub fn keys_per_launch(&self, iters: u64) -> (r: u64)
        requires
            self.grid * iters <= u64::MAX,
        ensures
            r == self.grid * iters,
    {
        self.grid * iters
    }
}

} // verus!
