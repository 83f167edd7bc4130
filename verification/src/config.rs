//! Resolved node configuration: the value the node assembly consumes.

use vstd::prelude::*;

verus! {

/// Policy deciding in which order pending transactions are drawn from the
/// pool when a block is produced.
#[derive(Clone, Copy, PartialEq, Eq, Structural, Debug)]
pub enum TransactionOrder {
    /// Highest-paying transactions first.
    Fees,
    /// First-in, first-out.
    Fifo,
}

/// A fully resolved node configuration. Immutable once consumed by the
/// node assembly.
///
/// Accounts are abstract identifiers here; the signing keys they stand for
/// live with the (external) signer implementation.
#[derive(Clone, Debug)]
pub struct NodeConfig {
    /// Accounts whose transactions the built-in signer set can sign.
    pub signer_accounts: Vec<u64>,
    /// Fixed block interval in milliseconds, if periodic mining is wanted.
    pub block_time: Option<u64>,
    /// Network port the surrounding server would listen on.
    pub port: u16,
    /// Upper bound on transactions included in one produced block.
    pub max_transactions: usize,
    /// When set, no block is produced automatically.
    pub no_mining: bool,
    /// Ordering policy for pending transactions.
    pub transaction_order: TransactionOrder,
}

/// Number of development accounts a default configuration carries.
pub const DEFAULT_ACCOUNTS: usize = 10;

/// Default port of the development node.
pub const DEFAULT_PORT: u16 = 8545;

impl NodeConfig {
    /// Produce the default development configuration: ten dev accounts,
    /// no fixed block interval, mining enabled, no per-block transaction cap.
    pub fn test_defaults() -> (c: NodeConfig)
        ensures
            c.signer_accounts@.len() == DEFAULT_ACCOUNTS,
            forall|i: int| 0 <= i < c.signer_accounts@.len() ==> c.signer_accounts@[i] == i,
            c.block_time is None,
            c.port == DEFAULT_PORT,
            c.max_transactions == usize::MAX,
            !c.no_mining,
            c.transaction_order == TransactionOrder::Fees,
    {
        let mut accounts: Vec<u64> = Vec::new();
        let mut i: usize = 0;
        while i < DEFAULT_ACCOUNTS
            invariant
                i <= DEFAULT_ACCOUNTS,
                accounts@.len() == i,
                forall|j: int| 0 <= j < i ==> accounts@[j] == j,
            decreases DEFAULT_ACCOUNTS - i,
        {
            accounts.push(i as u64);
            i = i + 1;
        }
        NodeConfig {
            signer_accounts: accounts,
            block_time: None,
            port: DEFAULT_PORT,
            max_transactions: usize::MAX,
            no_mining: false,
            transaction_order: TransactionOrder::Fees,
        }
    }
}

} // verus!
