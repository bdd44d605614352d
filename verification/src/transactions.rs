//! The transaction types: each is a two-phase object with a stateless
//! `verify` over its signed fields and a stateful `execute` against a
//! ledger fork that always records a status under the transaction's
//! hash and otherwise applies everything or nothing.

pub mod add_assets;
pub mod create_wallet;
pub mod del_assets;
pub mod exchange;
pub mod exchange_intermediary;
pub mod mining;
pub mod trade;
pub mod trade_intermediary;
pub mod transfer;

use vstd::prelude::*;

use crate::config::Configuration;
use crate::ledger::{sum_bal, Ledger, LedgerV};
use crate::stores::bal;

use add_assets::{add_assets_execute_spec, add_assets_valid, AddAssets, AddAssetsV};
use create_wallet::{create_wallet_execute_spec, create_wallet_valid, CreateWallet, CreateWalletV};
use del_assets::{del_assets_execute_spec, del_assets_valid, DeleteAssets, DeleteAssetsV};
use exchange::{exchange_execute_spec, exchange_valid, Exchange, ExchangeV};
use exchange_intermediary::{exchange_intermediary_execute_spec, exchange_intermediary_valid,
    ExchangeIntermediary, ExchangeIntermediaryV};
use mining::{mining_execute_spec, mining_valid, Mining, MiningV};
use trade::{trade_execute_spec, trade_valid, Trade, TradeV};
use trade_intermediary::{trade_intermediary_execute_spec, trade_intermediary_valid,
    TradeIntermediary, TradeIntermediaryV};
use transfer::{transfer_execute_spec, transfer_valid, Transfer, TransferV};

verus! {

/// Any transaction the ledger core executes.
#[derive(Debug)]
pub enum Transaction {
    AddAssets(AddAssets),
    CreateWallet(CreateWallet),
    DeleteAssets(DeleteAssets),
    Exchange(Exchange),
    ExchangeIntermediary(ExchangeIntermediary),
    Mining(Mining),
    Trade(Trade),
    TradeIntermediary(TradeIntermediary),
    Transfer(Transfer),
}

/// The mathematical value of any transaction.
pub ghost enum TransactionV {
    AddAssets(AddAssetsV),
    CreateWallet(CreateWalletV),
    DeleteAssets(DeleteAssetsV),
    Exchange(ExchangeV),
    ExchangeIntermediary(ExchangeIntermediaryV),
    Mining(MiningV),
    Trade(TradeV),
    TradeIntermediary(TradeIntermediaryV),
    Transfer(TransferV),
}

impl View for Transaction {
    type V = TransactionV;

    open spec fn view(&self) -> TransactionV {
        match self {
            Transaction::AddAssets(t) => TransactionV::AddAssets(t@),
            Transaction::CreateWallet(t) => TransactionV::CreateWallet(t@),
            Transaction::DeleteAssets(t) => TransactionV::DeleteAssets(t@),
            Transaction::Exchange(t) => TransactionV::Exchange(t@),
            Transaction::ExchangeIntermediary(t) => TransactionV::ExchangeIntermediary(t@),
            Transaction::Mining(t) => TransactionV::Mining(t@),
            Transaction::Trade(t) => TransactionV::Trade(t@),
            Transaction::TradeIntermediary(t) => TransactionV::TradeIntermediary(t@),
            Transaction::Transfer(t) => TransactionV::Transfer(t@),
        }
    }
}

/// Structural and cryptographic validity of any transaction.
pub open spec fn tx_valid(t: TransactionV) -> bool {
    match t {
        TransactionV::AddAssets(t) => add_assets_valid(t),
        TransactionV::CreateWallet(t) => create_wallet_valid(t),
        TransactionV::DeleteAssets(t) => del_assets_valid(t),
        TransactionV::Exchange(t) => exchange_valid(t),
        TransactionV::ExchangeIntermediary(t) => exchange_intermediary_valid(t),
        TransactionV::Mining(t) => mining_valid(t),
        TransactionV::Trade(t) => trade_valid(t),
        TransactionV::TradeIntermediary(t) => trade_intermediary_valid(t),
        TransactionV::Transfer(t) => transfer_valid(t),
    }
}

/// What executing any transaction leaves behind.
pub open spec fn apply_tx(t: TransactionV, l: LedgerV, cfg: Configuration) -> LedgerV {
    match t {
        TransactionV::AddAssets(t) => add_assets_execute_spec(t, l, cfg),
        TransactionV::CreateWallet(t) => create_wallet_execute_spec(t, l, cfg),
        TransactionV::DeleteAssets(t) => del_assets_execute_spec(t, l, cfg),
        TransactionV::Exchange(t) => exchange_execute_spec(t, l, cfg),
        TransactionV::ExchangeIntermediary(t) => exchange_intermediary_execute_spec(t, l, cfg),
        TransactionV::Mining(t) => mining_execute_spec(t, l, cfg),
        TransactionV::Trade(t) => trade_execute_spec(t, l, cfg),
        TransactionV::TradeIntermediary(t) => trade_intermediary_execute_spec(t, l, cfg),
        TransactionV::Transfer(t) => transfer_execute_spec(t, l, cfg),
    }
}

/// What a transaction demands of the state it executes against: only
/// the emission kinds carry a machine-limit headroom on the coin
/// total, checked by the host against `total_coins`.
pub open spec fn tx_requires(t: TransactionV, l: LedgerV, cfg: Configuration) -> bool {
    match t {
        TransactionV::CreateWallet(t) => sum_bal(l.wallets) - bal(l.wallets, t.pub_key)
            + cfg.initial_balance <= u64::MAX,
        TransactionV::Mining(_) => sum_bal(l.wallets) + cfg.mining_reward <= u64::MAX,
        _ => true,
    }
}

impl Transaction {
    /// Stateless validity of the wrapped transaction.
    pub fn verify(&self) -> (r: bool)
        ensures
            r == tx_valid(self@),
    {
        match self {
            Transaction::AddAssets(t) => t.verify(),
            Transaction::CreateWallet(t) => t.verify(),
            Transaction::DeleteAssets(t) => t.verify(),
            Transaction::Exchange(t) => t.verify(),
            Transaction::ExchangeIntermediary(t) => t.verify(),
            Transaction::Mining(t) => t.verify(),
            Transaction::Trade(t) => t.verify(),
            Transaction::TradeIntermediary(t) => t.verify(),
            Transaction::Transfer(t) => t.verify(),
        }
    }

    /// Execute the wrapped transaction against a fork.
    pub fn execute(&self, l: &mut Ledger, cfg: &Configuration)
        requires
            old(l).wf(),
            tx_requires(self@, old(l)@, *cfg),
        ensures
            final(l)@ == apply_tx(self@, old(l)@, *cfg),
            final(l).wf(),
    {
        match self {
            Transaction::AddAssets(t) => t.execute(l, cfg),
            Transaction::CreateWallet(t) => t.execute(l, cfg),
            Transaction::DeleteAssets(t) => t.execute(l, cfg),
            Transaction::Exchange(t) => t.execute(l, cfg),
            Transaction::ExchangeIntermediary(t) => t.execute(l, cfg),
            Transaction::Mining(t) => t.execute(l, cfg),
            Transaction::Trade(t) => t.execute(l, cfg),
            Transaction::TradeIntermediary(t) => t.execute(l, cfg),
            Transaction::Transfer(t) => t.execute(l, cfg),
        }
    }
}

} // verus!
