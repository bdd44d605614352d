//! Network-wide configuration: the fee table per transaction kind, the
//! treasury account, the balance a fresh wallet is seeded with, and the
//! mining reward.  The core never mutates configuration; the host
//! supplies an immutable snapshot per block.

use vstd::prelude::*;

use crate::keys::PublicKey;

verus! {

/// The balance a freshly created wallet is seeded with.
pub const INIT_BALANCE: u64 = 100;

/// Flat fees per transaction kind, paid to the treasury.
#[derive(Clone, Copy, Debug)]
pub struct TransactionFees {
    /// Flat fee of an issuance transaction.
    pub add_assets: u64,
    /// Additional issuance cost per issued unit.
    pub add_assets_per_entry: u64,
    /// Flat fee of a retirement transaction.
    pub del_assets: u64,
    /// Flat fee of a two-party exchange.
    pub exchange: u64,
    /// Flat fee of a trade.
    pub trade: u64,
    /// Flat fee of a transfer.
    pub transfer: u64,
}

impl TransactionFees {
    /// A fee table, one flat fee per transaction kind.
    pub fn with_default_key(
        add_assets: u64,
        add_assets_per_entry: u64,
        del_assets: u64,
        exchange: u64,
        trade: u64,
        transfer: u64,
    ) -> (r: TransactionFees)
        ensures
            r == (TransactionFees {
                add_assets,
                add_assets_per_entry,
                del_assets,
                exchange,
                trade,
                transfer,
            }),
    {
        TransactionFees { add_assets, add_assets_per_entry, del_assets, exchange, trade, transfer }
    }
}

/// The immutable per-block configuration snapshot.
#[derive(Clone, Copy, Debug)]
pub struct Configuration {
    /// The fee table.
    pub fees: TransactionFees,
    /// The distinguished treasury account that accumulates flat fees.
    pub genesis_wallet: PublicKey,
    /// The balance a `CreateWallet` transaction seeds.
    pub initial_balance: u64,
    /// The amount a `Mining` transaction credits.
    pub mining_reward: u64,
}

impl Configuration {
    /// A configuration with the given fee table, the all-zero treasury
    /// key, and default seeding and reward amounts.
    pub fn new(fees: TransactionFees) -> (r: Configuration)
        ensures
            r.fees == fees,
            r.genesis_wallet@ =~= Seq::new(32, |i: int| 0u8),
            r.initial_balance == INIT_BALANCE,
            r.mining_reward == INIT_BALANCE,
    {
        Configuration {
            fees,
            genesis_wallet: PublicKey::new([0u8; 32]),
            initial_balance: INIT_BALANCE,
            mining_reward: INIT_BALANCE,
        }
    }

    /// A fully explicit configuration.
    pub fn with_params(
        fees: TransactionFees,
        genesis_wallet: PublicKey,
        initial_balance: u64,
        mining_reward: u64,
    ) -> (r: Configuration)
        ensures
            r.fees == fees,
            r.genesis_wallet == genesis_wallet,
            r.initial_balance == initial_balance,
            r.mining_reward == mining_reward,
    {
        Configuration { fees, genesis_wallet, initial_balance, mining_reward }
    }
}

} // verus!
