//! Builders assembling signed transactions for tests and tooling.
//!
//! A builder starts from a keypair and common metadata, then each
//! transaction kind gets its own builder collecting that kind's
//! fields; `build` signs with the held secret key.

use vstd::prelude::*;

use crate::assets::{AssetBundle, AssetFees, MetaAsset, TradeAsset};
use crate::assetid::AssetID;
use crate::crypto::sign;
use crate::keys::{PublicKey, SecretKey};
use crate::transactions::add_assets::AddAssets;
use crate::transactions::create_wallet::CreateWallet;
use crate::transactions::del_assets::DeleteAssets;
use crate::transactions::exchange::{Exchange, ExchangeOffer};
use crate::transactions::mining::Mining;
use crate::transactions::trade::{Trade, TradeOffer};
use crate::transactions::transfer::Transfer;

verus! {

/// The service identifier carried in transaction metadata.
pub const SERVICE_ID: u16 = 2;

/// Common transaction metadata: the signing keypair and the network
/// coordinates.
#[derive(Debug)]
pub struct TransactionBuilder {
    pub public_key: Option<PublicKey>,
    pub secret_key: Option<SecretKey>,
    pub network_id: u32,
    pub protocol_version: u32,
    pub service_id: u16,
}

impl TransactionBuilder {
    /// A builder with no keypair and default network coordinates.
    pub fn new() -> (r: TransactionBuilder)
        ensures
            r.public_key is None,
            r.secret_key is None,
            r.network_id == 0,
            r.protocol_version == 0,
            r.service_id == SERVICE_ID,
    {
        TransactionBuilder {
            public_key: None,
            secret_key: None,
            network_id: 0,
            protocol_version: 0,
            service_id: SERVICE_ID,
        }
    }

    /// Set the signing keypair.
    pub fn keypair(self, public_key: PublicKey, secret_key: SecretKey) -> (r: TransactionBuilder)
        ensures
            r.public_key == Some(public_key),
            r.secret_key == Some(secret_key),
            r.network_id == self.network_id,
            r.protocol_version == self.protocol_version,
            r.service_id == self.service_id,
    {
        TransactionBuilder { public_key: Some(public_key), secret_key: Some(secret_key), ..self }
    }

    /// Set the network identifier.
    pub fn network_id(self, network_id: u32) -> (r: TransactionBuilder)
        ensures
            r.network_id == network_id,
            r.public_key == self.public_key,
            r.secret_key == self.secret_key,
            r.protocol_version == self.protocol_version,
            r.service_id == self.service_id,
    {
        TransactionBuilder { network_id, ..self }
    }

    /// Set the protocol version.
    pub fn protocol_version(self, protocol_version: u32) -> (r: TransactionBuilder)
        ensures
            r.protocol_version == protocol_version,
            r.public_key == self.public_key,
            r.secret_key == self.secret_key,
            r.network_id == self.network_id,
            r.service_id == self.service_id,
    {
        TransactionBuilder { protocol_version, ..self }
    }

    /// Set the service identifier.
    pub fn service_id(self, service_id: u16) -> (r: TransactionBuilder)
        ensures
            r.service_id == service_id,
            r.public_key == self.public_key,
            r.secret_key == self.secret_key,
            r.network_id == self.network_id,
            r.protocol_version == self.protocol_version,
    {
        TransactionBuilder { service_id, ..self }
    }

    /// Start an issuance.  The keypair must be set.
    pub fn tx_add_assets(self) -> (r: TxAddAssetBuilder)
        requires
            self.public_key is Some,
            self.secret_key is Some,
        ensures
            r.public_key == self.public_key->0,
            r.secret_key == self.secret_key->0,
            r.assets@.len() == 0,
            r.seed == 0,
    {
        TxAddAssetBuilder {
            public_key: self.public_key.unwrap(),
            secret_key: self.secret_key.unwrap(),
            assets: Vec::new(),
            seed: 0,
        }
    }

    /// Start a wallet creation.  The keypair must be set.
    pub fn tx_create_wallet(self) -> (r: TxCreateWalletBuilder)
        requires
            self.public_key is Some,
            self.secret_key is Some,
        ensures
            r.public_key == self.public_key->0,
            r.secret_key == self.secret_key->0,
    {
        TxCreateWalletBuilder {
            public_key: self.public_key.unwrap(),
            secret_key: self.secret_key.unwrap(),
        }
    }

    /// Start a retirement.  The keypair must be set.
    pub fn tx_del_assets(self) -> (r: TxDelAssetBuilder)
        requires
            self.public_key is Some,
            self.secret_key is Some,
        ensures
            r.public_key == self.public_key->0,
            r.secret_key == self.secret_key->0,
            r.assets@.len() == 0,
            r.seed == 0,
    {
        TxDelAssetBuilder {
            public_key: self.public_key.unwrap(),
            secret_key: self.secret_key.unwrap(),
            assets: Vec::new(),
            seed: 0,
        }
    }

    /// Start an exchange.  The keypair must be set.
    pub fn tx_exchange(self) -> (r: TxExchangeBuilder)
        requires
            self.public_key is Some,
            self.secret_key is Some,
        ensures
            r.public_key == self.public_key->0,
            r.secret_key == self.secret_key->0,
            r.recipient is None,
            r.fee_strategy == 1,
    {
        TxExchangeBuilder {
            public_key: self.public_key.unwrap(),
            secret_key: self.secret_key.unwrap(),
            sender_assets: Vec::new(),
            sender_value: 0,
            recipient: None,
            recipient_assets: Vec::new(),
            recipient_value: 0,
            fee_strategy: 1,
            seed: 0,
        }
    }

    /// Start an emission.  The keypair must be set.
    pub fn tx_mining(self) -> (r: TxMiningBuilder)
        requires
            self.public_key is Some,
            self.secret_key is Some,
        ensures
            r.public_key == self.public_key->0,
            r.secret_key == self.secret_key->0,
            r.seed == 0,
    {
        TxMiningBuilder {
            public_key: self.public_key.unwrap(),
            secret_key: self.secret_key.unwrap(),
            seed: 0,
        }
    }

    /// Start a trade.  The keypair must be set.
    pub fn tx_trade_assets(self) -> (r: TxTradeBuilder)
        requires
            self.public_key is Some,
            self.secret_key is Some,
        ensures
            r.public_key == self.public_key->0,
            r.secret_key == self.secret_key->0,
            r.buyer is None,
            r.price == 0,
    {
        TxTradeBuilder {
            public_key: self.public_key.unwrap(),
            secret_key: self.secret_key.unwrap(),
            buyer: None,
            assets: Vec::new(),
            price: 0,
            seed: 0,
        }
    }

    /// Start a transfer.  The keypair must be set.
    pub fn tx_transfer(self) -> (r: TxTransferBuilder)
        requires
            self.public_key is Some,
            self.secret_key is Some,
        ensures
            r.public_key == self.public_key->0,
            r.secret_key == self.secret_key->0,
            r.recipient is None,
            r.amount == 0,
    {
        TxTransferBuilder {
            public_key: self.public_key.unwrap(),
            secret_key: self.secret_key.unwrap(),
            recipient: None,
            amount: 0,
            assets: Vec::new(),
            seed: 0,
        }
    }
}

/// Builds an issuance: each added asset is issued by the builder's key
/// to the builder's key, with a free schedule.
#[derive(Debug)]
pub struct TxAddAssetBuilder {
    pub public_key: PublicKey,
    pub secret_key: SecretKey,
    pub assets: Vec<MetaAsset>,
    pub seed: u64,
}

impl TxAddAssetBuilder {
    /// Add an issuance request for `amount` units of `data`.
    pub fn add_asset(self, data: &str, amount: u64) -> (r: TxAddAssetBuilder)
        ensures
            r.assets@.len() == self.assets@.len() + 1,
            r.public_key == self.public_key,
            r.seed == self.seed,
    {
        let meta = MetaAsset::new(String::from_str(data), amount, AssetFees::new(0),
            &self.public_key);
        let mut assets = self.assets;
        assets.push(meta);
        TxAddAssetBuilder { assets, ..self }
    }

    /// Set the anti-replay seed.
    pub fn seed(self, seed: u64) -> (r: TxAddAssetBuilder)
        ensures
            r.seed == seed,
            r.public_key == self.public_key,
            r.assets == self.assets,
    {
        TxAddAssetBuilder { seed, ..self }
    }

    /// Sign and assemble the issuance.
    pub fn build(self) -> (r: AddAssets)
        ensures
            r@.pub_key == self.public_key@,
            r@.seed == self.seed,
    {
        AddAssets::new(&self.public_key, self.assets, self.seed, &self.secret_key)
    }
}

/// Builds a wallet creation for the builder's key.
#[derive(Debug)]
pub struct TxCreateWalletBuilder {
    pub public_key: PublicKey,
    pub secret_key: SecretKey,
}

impl TxCreateWalletBuilder {
    /// Sign and assemble the wallet creation.
    pub fn build(self) -> (r: CreateWallet)
        ensures
            r@.pub_key == self.public_key@,
    {
        CreateWallet::new(&self.public_key, 0, &self.secret_key)
    }
}

/// Builds a retirement: each added asset names units of an asset the
/// builder's key issued.
#[derive(Debug)]
pub struct TxDelAssetBuilder {
    pub public_key: PublicKey,
    pub secret_key: SecretKey,
    pub assets: Vec<AssetBundle>,
    pub seed: u64,
}

impl TxDelAssetBuilder {
    /// Add `amount` units of the asset derived from `data` under the
    /// builder's key.
    pub fn add_asset(self, data: &str, amount: u64) -> (r: TxDelAssetBuilder)
        ensures
            r.assets@.len() == self.assets@.len() + 1,
            r.public_key == self.public_key,
            r.seed == self.seed,
    {
        let bundle = AssetBundle::from_data(data, amount, &self.public_key);
        let mut assets = self.assets;
        assets.push(bundle);
        TxDelAssetBuilder { assets, ..self }
    }

    /// Set the anti-replay seed.
    pub fn seed(self, seed: u64) -> (r: TxDelAssetBuilder)
        ensures
            r.seed == seed,
            r.public_key == self.public_key,
            r.assets == self.assets,
    {
        TxDelAssetBuilder { seed, ..self }
    }

    /// Sign and assemble the retirement.
    pub fn build(self) -> (r: DeleteAssets)
        ensures
            r@.pub_key == self.public_key@,
            r@.seed == self.seed,
    {
        DeleteAssets::new(&self.public_key, self.assets, self.seed, &self.secret_key)
    }
}

/// Builds a two-party exchange offered by the builder's key.
#[derive(Debug)]
pub struct TxExchangeBuilder {
    pub public_key: PublicKey,
    pub secret_key: SecretKey,
    pub sender_assets: Vec<AssetBundle>,
    pub sender_value: u64,
    pub recipient: Option<PublicKey>,
    pub recipient_assets: Vec<AssetBundle>,
    pub recipient_value: u64,
    pub fee_strategy: u8,
    pub seed: u64,
}

impl TxExchangeBuilder {
    /// Add `amount` units of the sender's asset derived from `data`.
    pub fn sender_add_asset(self, data: &str, amount: u64) -> (r: TxExchangeBuilder)
        ensures
            r.sender_assets@.len() == self.sender_assets@.len() + 1,
            r.recipient == self.recipient,
    {
        let bundle = AssetBundle::from_data(data, amount, &self.public_key);
        let mut sender_assets = self.sender_assets;
        sender_assets.push(bundle);
        TxExchangeBuilder { sender_assets, ..self }
    }

    /// Set the coins the sender gives.
    pub fn sender_value(self, sender_value: u64) -> (r: TxExchangeBuilder)
        ensures
            r.sender_value == sender_value,
            r.recipient == self.recipient,
    {
        TxExchangeBuilder { sender_value, ..self }
    }

    /// Set the counter-party.
    pub fn recipient(self, pub_key: PublicKey) -> (r: TxExchangeBuilder)
        ensures
            r.recipient == Some(pub_key),
    {
        TxExchangeBuilder { recipient: Some(pub_key), ..self }
    }

    /// Add `amount` units of the recipient's asset derived from
    /// `data`.  The recipient must be set first.
    pub fn recipient_add_asset(self, data: &str, amount: u64) -> (r: TxExchangeBuilder)
        requires
            self.recipient is Some,
        ensures
            r.recipient_assets@.len() == self.recipient_assets@.len() + 1,
            r.recipient == self.recipient,
    {
        let bundle = AssetBundle::from_data(data, amount, self.recipient.as_ref().unwrap());
        let mut recipient_assets = self.recipient_assets;
        recipient_assets.push(bundle);
        TxExchangeBuilder { recipient_assets, ..self }
    }

    /// Set the coins the recipient gives.
    pub fn recipient_value(self, recipient_value: u64) -> (r: TxExchangeBuilder)
        ensures
            r.recipient_value == recipient_value,
            r.recipient == self.recipient,
    {
        TxExchangeBuilder { recipient_value, ..self }
    }

    /// Set the fee strategy's wire value.
    pub fn fee_strategy(self, fee_strategy: u8) -> (r: TxExchangeBuilder)
        ensures
            r.fee_strategy == fee_strategy,
            r.recipient == self.recipient,
    {
        TxExchangeBuilder { fee_strategy, ..self }
    }

    /// Set the anti-replay seed.
    pub fn seed(self, seed: u64) -> (r: TxExchangeBuilder)
        ensures
            r.seed == seed,
            r.recipient == self.recipient,
    {
        TxExchangeBuilder { seed, ..self }
    }

    /// Sign and assemble the exchange.  The recipient must be set.
    pub fn build(self) -> (r: Exchange)
        requires
            self.recipient is Some,
        ensures
            r@.offer.sender == self.public_key@,
            r@.offer.recipient == self.recipient->0@,
            r@.seed == self.seed,
    {
        let offer = ExchangeOffer::new(
            &self.public_key,
            self.sender_assets,
            self.sender_value,
            self.recipient.as_ref().unwrap(),
            self.recipient_assets,
            self.recipient_value,
            self.fee_strategy,
        );
        let offer_raw = offer.to_bytes();
        let signature = sign(&self.secret_key, &offer_raw);
        Exchange::new(offer, self.seed, &signature, String::new(), &self.secret_key)
    }
}

/// Builds an emission for the builder's key.
#[derive(Debug)]
pub struct TxMiningBuilder {
    pub public_key: PublicKey,
    pub secret_key: SecretKey,
    pub seed: u64,
}

impl TxMiningBuilder {
    /// Set the anti-replay seed.
    pub fn seed(self, seed: u64) -> (r: TxMiningBuilder)
        ensures
            r.seed == seed,
            r.public_key == self.public_key,
    {
        TxMiningBuilder { seed, ..self }
    }

    /// Sign and assemble the emission.
    pub fn build(self) -> (r: Mining)
        ensures
            r@.pub_key == self.public_key@,
            r@.seed == self.seed,
    {
        Mining::new(&self.public_key, self.seed, &self.secret_key)
    }
}

/// Builds a trade offered by the builder's key.
#[derive(Debug)]
pub struct TxTradeBuilder {
    pub public_key: PublicKey,
    pub secret_key: SecretKey,
    pub buyer: Option<PublicKey>,
    pub assets: Vec<TradeAsset>,
    pub price: u64,
    pub seed: u64,
}

impl TxTradeBuilder {
    /// Set the buying party.
    pub fn buyer(self, pub_key: PublicKey) -> (r: TxTradeBuilder)
        ensures
            r.buyer == Some(pub_key),
    {
        TxTradeBuilder { buyer: Some(pub_key), ..self }
    }

    /// Add `amount` units of the seller's asset derived from `data`.
    pub fn add_asset(self, data: &str, amount: u64) -> (r: TxTradeBuilder)
        ensures
            r.assets@.len() == self.assets@.len() + 1,
            r.buyer == self.buyer,
    {
        let id = AssetID::from_data(data, &self.public_key);
        let mut assets = self.assets;
        assets.push(TradeAsset::new(id, amount, 0));
        TxTradeBuilder { assets, ..self }
    }

    /// Set the asking price for the whole offer.
    pub fn price(self, price: u64) -> (r: TxTradeBuilder)
        ensures
            r.price == price,
            r.buyer == self.buyer,
    {
        TxTradeBuilder { price, ..self }
    }

    /// Set the anti-replay seed.
    pub fn seed(self, seed: u64) -> (r: TxTradeBuilder)
        ensures
            r.seed == seed,
            r.buyer == self.buyer,
    {
        TxTradeBuilder { seed, ..self }
    }

    /// Sign and assemble the trade.  The buyer must be set.
    pub fn build(self) -> (r: Trade)
        requires
            self.buyer is Some,
        ensures
            r@.offer.seller == self.public_key@,
            r@.buyer == self.buyer->0@,
            r@.seed == self.seed,
    {
        let offer = TradeOffer::new(&self.public_key, self.assets, self.price);
        let offer_raw = offer.to_bytes();
        let signature = sign(&self.secret_key, &offer_raw);
        Trade::new(self.buyer.as_ref().unwrap(), offer, self.seed, &signature, &self.secret_key)
    }
}

/// Builds a transfer from the builder's key.
#[derive(Debug)]
pub struct TxTransferBuilder {
    pub public_key: PublicKey,
    pub secret_key: SecretKey,
    pub recipient: Option<PublicKey>,
    pub amount: u64,
    pub assets: Vec<AssetBundle>,
    pub seed: u64,
}

impl TxTransferBuilder {
    /// Set the receiving party.
    pub fn recipient(self, pub_key: PublicKey) -> (r: TxTransferBuilder)
        ensures
            r.recipient == Some(pub_key),
    {
        TxTransferBuilder { recipient: Some(pub_key), ..self }
    }

    /// Set the coin amount moved.
    pub fn amount(self, amount: u64) -> (r: TxTransferBuilder)
        ensures
            r.amount == amount,
            r.recipient == self.recipient,
    {
        TxTransferBuilder { amount, ..self }
    }

    /// Add `amount` units of the sender's asset derived from `data`.
    pub fn add_asset(self, data: &str, amount: u64) -> (r: TxTransferBuilder)
        ensures
            r.assets@.len() == self.assets@.len() + 1,
            r.recipient == self.recipient,
    {
        let bundle = AssetBundle::from_data(data, amount, &self.public_key);
        let mut assets = self.assets;
        assets.push(bundle);
        TxTransferBuilder { assets, ..self }
    }

    /// Set the anti-replay seed.
    pub fn seed(self, seed: u64) -> (r: TxTransferBuilder)
        ensures
            r.seed == seed,
            r.recipient == self.recipient,
    {
        TxTransferBuilder { seed, ..self }
    }

    /// Sign and assemble the transfer.  The recipient must be set.
    pub fn build(self) -> (r: Transfer)
        requires
            self.recipient is Some,
        ensures
            r@.from == self.public_key@,
            r@.to == self.recipient->0@,
            r@.amount == self.amount,
            r@.seed == self.seed,
    {
        Transfer::new(
            &self.public_key,
            self.recipient.as_ref().unwrap(),
            self.amount,
            self.assets,
            self.seed,
            String::new(),
            &self.secret_key,
        )
    }
}

} // verus!
