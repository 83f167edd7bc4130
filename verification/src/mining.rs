//! Block-production (mining) mode: the policy deciding when pending
//! transactions are assembled into a new block, and its selection from a
//! resolved configuration.

use vstd::prelude::*;
use crate::pool::Pool;

verus! {

/// How and when blocks are produced.
#[derive(Clone, Copy, PartialEq, Eq, Structural, Debug)]
pub enum MiningMode {
    /// A block is produced on a fixed timer, whether or not transactions
    /// are pending.
    Interval { period_millis: u64 },
    /// No automatic block production; blocks must be requested out of band.
    Disabled,
    /// A block is produced as soon as the pool signals ready transactions,
    /// with at most `max_transactions` of them per block. `listener` is the
    /// identifier of the pool subscription that delivers the signal.
    Instant { max_transactions: usize, listener: usize },
}

/// The mode that a configuration selects, in priority order: a fixed block
/// interval wins; otherwise disabling mining wins; otherwise mining is
/// instant, with the ready listener installed at selection time.
pub open spec fn chosen_mode(
    block_time: Option<u64>,
    no_mining: bool,
    max_transactions: usize,
    next_listener: usize,
) -> MiningMode {
    match block_time {
        Some(period) => MiningMode::Interval { period_millis: period },
        None => if no_mining {
            MiningMode::Disabled
        } else {
            MiningMode::Instant { max_transactions, listener: next_listener }
        },
    }
}

/// A mode is wired to the pool when, if it reacts to pool insertions, the
/// subscription it reacts through is actually installed there.
pub open spec fn mode_wired(mode: MiningMode, pool: Pool) -> bool {
    match mode {
        MiningMode::Instant { max_transactions: _, listener } => listener
            < pool.listener_count(),
        _ => true,
    }
}

/// Select the mining mode for a configuration. Selection is total: every
/// input yields exactly one of the three modes. Selecting instant mining
/// installs the ready-listener subscription on `pool` at selection time,
/// before any transaction can be submitted; the other modes leave the pool
/// untouched.
pub fn select_mining_mode(
    block_time: Option<u64>,
    no_mining: bool,
    max_transactions: usize,
    pool: &mut Pool,
) -> (mode: MiningMode)
    requires
        old(pool).listener_count() < usize::MAX,
    ensures
        mode == chosen_mode(block_time, no_mining, max_transactions, old(pool).listener_count()),
        final(pool).pending_view() == old(pool).pending_view(),
        final(pool).listener_count() == if block_time is None && !no_mining {
            old(pool).listener_count() + 1
        } else {
            old(pool).listener_count() as int
        },
        mode_wired(mode, *final(pool)),
{
    match block_time {
        Some(period) => MiningMode::Interval { period_millis: period },
        None => {
            if no_mining {
                MiningMode::Disabled
            } else {
                let listener = pool.add_ready_listener();
                MiningMode::Instant { max_transactions, listener }
            }
        },
    }
}

/// Drives block production according to a mode fixed at construction;
/// switching modes means discarding the miner and building a new one.
#[derive(Clone, Copy, PartialEq, Eq, Structural, Debug)]
pub struct Miner {
    pub mode: MiningMode,
}

impl Miner {
    /// A miner that produces blocks according to `mode`, forever.
    pub fn new(mode: MiningMode) -> (m: Miner)
        ensures
            m.mode == mode,
    {
        Miner { mode }
    }
}

} // verus!
