//! Transaction-processing core of a multi-asset ledger.
//!
//! The crate models accounts (wallets holding a currency balance and
//! per-asset amounts), an asset registry, and the deterministic state
//! transitions that move value between accounts: fee collection, asset
//! issuance and retirement, transfers, exchanges and trades.  Every
//! transition is specified by a contract and verified: a transaction
//! either applies in full or leaves the ledger unchanged apart from its
//! status record.

pub mod assetid;
pub mod assets;
pub mod assoc;
pub mod builders;
pub mod config;
pub mod crypto;
pub mod encode;
pub mod error;
pub mod fees;
pub mod keys;
pub mod laws;
pub mod ledger;
pub mod stores;
pub mod transactions;
pub mod wallet;

pub use assetid::{AssetID, AssetIDBytes, ParseError};
pub use assets::{AssetBundle, AssetFees, AssetInfo, MetaAsset, TradeAsset};
pub use config::{Configuration, TransactionFees, INIT_BALANCE};
pub use error::{Error, TxStatus};
pub use fees::FeeStrategy;
pub use keys::{PublicKey, SecretKey};
pub use ledger::Ledger;
pub use stores::{Registry, Statuses, Wallets};
pub use wallet::{move_assets, move_coins, Wallet};
