use dmbc::builders::TransactionBuilder;
use dmbc::crypto::public_key_of;
use dmbc::transactions::add_assets::AddAssets;
use dmbc::transactions::exchange_intermediary::{
    ExchangeIntermediary, ExchangeOfferIntermediary, Intermediary,
};
use dmbc::{
    AssetFees, AssetInfo, AssetID, Configuration, Error, Ledger, MetaAsset, PublicKey, SecretKey,
    TradeAsset, TransactionFees, TxStatus, Wallet,
};

fn keypair(seed: u8) -> (PublicKey, SecretKey) {
    let secret = SecretKey::new([seed; 32]);
    (public_key_of(&secret), secret)
}

fn wallet_with(balance: u64, assets: &[(AssetID, u64)]) -> Wallet {
    let mut w = Wallet::with_balance(balance);
    for (id, amount) in assets {
        w.credit(id, *amount);
    }
    w
}

/// Conservation: a sequence of transactions never changes the coin
/// total except for the coins mining emits.
#[test]
fn conservation_over_sequence() {
    let (alice, alice_secret) = keypair(41);
    let (bob, _) = keypair(42);

    let cfg = Configuration::new(TransactionFees::with_default_key(5, 1, 3, 4, 2, 10));
    let mut fork = Ledger::new();
    fork.put_wallet(&alice, wallet_with(10_000, &[]));
    fork.put_wallet(&bob, wallet_with(500, &[]));

    let before = fork.total_coins();

    let issue = TransactionBuilder::new()
        .keypair(alice, alice_secret)
        .tx_add_assets()
        .add_asset("metal", 40)
        .seed(1)
        .build();
    issue.execute(&mut fork, &cfg);

    let transfer = TransactionBuilder::new()
        .keypair(alice, alice_secret)
        .tx_transfer()
        .recipient(bob)
        .amount(700)
        .add_asset("metal", 15)
        .seed(2)
        .build();
    transfer.execute(&mut fork, &cfg);

    let retire = TransactionBuilder::new()
        .keypair(alice, alice_secret)
        .tx_del_assets()
        .add_asset("metal", 25)
        .seed(3)
        .build();
    retire.execute(&mut fork, &cfg);

    assert_eq!(before, fork.total_coins());

    let mine = TransactionBuilder::new()
        .keypair(alice, alice_secret)
        .tx_mining()
        .seed(4)
        .build();
    mine.execute(&mut fork, &cfg);

    assert_eq!(before + cfg.mining_reward, fork.total_coins());
}

/// Fee ordering: funds cover the principal transfer but not the flat
/// fee, so the transaction fails and moves nothing.
#[test]
fn fee_collected_before_principal() {
    let (sender, sender_secret) = keypair(43);
    let (recipient, _) = keypair(44);

    let data = "ore";
    let id = AssetID::from_data(data, &sender);

    let tx = TransactionBuilder::new()
        .keypair(sender, sender_secret)
        .tx_transfer()
        .recipient(recipient)
        .amount(30)
        .add_asset(data, 5)
        .seed(7)
        .build();

    // Flat fee 100 exceeds the balance of 40; the principal alone
    // would have fit.
    let cfg = Configuration::new(TransactionFees::with_default_key(0, 0, 0, 0, 0, 100));
    let mut fork = Ledger::new();
    fork.add_asset(&id, &sender, 5);
    fork.put_wallet(&sender, wallet_with(40, &[(id, 5)]));
    fork.put_wallet(&recipient, wallet_with(0, &[]));

    tx.execute(&mut fork, &cfg);

    assert_eq!(
        Some(TxStatus::Fail(Error::InsufficientFunds)),
        fork.get_status(&tx.hash())
    );
    assert_eq!(40, fork.get_wallet(&sender).balance());
    assert_eq!(Some(5), fork.get_wallet(&sender).asset(id).map(|a| a.amount()));
    assert_eq!(0, fork.get_wallet(&recipient).balance());
    assert_eq!(None, fork.get_wallet(&recipient).asset(id));
}

/// Atomicity: an exchange that fails at the asset step leaves every
/// balance untouched, the already-computed fee included.
#[test]
fn exchange_failure_leaves_fork_unchanged() {
    let (sender, sender_secret) = keypair(45);
    let (recipient, _) = keypair(46);

    let data = "scarce";
    let id = AssetID::from_data(data, &recipient);

    let tx = TransactionBuilder::new()
        .keypair(sender, sender_secret)
        .tx_exchange()
        .sender_value(10)
        .recipient(recipient)
        .recipient_add_asset(data, 10)
        .fee_strategy(2)
        .seed(8)
        .build();

    let cfg = Configuration::new(TransactionFees::with_default_key(0, 0, 0, 6, 0, 0));
    let mut fork = Ledger::new();
    // The recipient holds less of the asset than the offer moves.
    fork.add_asset(&id, &recipient, 4);
    fork.put_wallet(&sender, wallet_with(1000, &[]));
    fork.put_wallet(&recipient, wallet_with(1000, &[(id, 4)]));

    tx.execute(&mut fork, &cfg);

    assert_eq!(
        Some(TxStatus::Fail(Error::InsufficientAssets)),
        fork.get_status(&tx.hash())
    );
    assert_eq!(1000, fork.get_wallet(&sender).balance());
    assert_eq!(1000, fork.get_wallet(&recipient).balance());
    assert_eq!(0, fork.get_wallet(&cfg.genesis_wallet).balance());
    assert_eq!(Some(4), fork.get_wallet(&recipient).asset(id).map(|a| a.amount()));
}

/// Exchange with split fee: treasury gains the whole fee, each party
/// pays half.
#[test]
fn exchange_split_fee() {
    let (sender, sender_secret) = keypair(47);
    let (recipient, _) = keypair(48);

    let tx = TransactionBuilder::new()
        .keypair(sender, sender_secret)
        .tx_exchange()
        .sender_value(0)
        .recipient(recipient)
        .fee_strategy(3)
        .seed(9)
        .build();

    let cfg = Configuration::new(TransactionFees::with_default_key(0, 0, 0, 20, 0, 0));
    let mut fork = Ledger::new();
    fork.put_wallet(&sender, wallet_with(1000, &[]));
    fork.put_wallet(&recipient, wallet_with(1000, &[]));

    tx.execute(&mut fork, &cfg);

    assert_eq!(Some(TxStatus::Success), fork.get_status(&tx.hash()));
    assert_eq!(20, fork.get_wallet(&cfg.genesis_wallet).balance());
    assert_eq!(990, fork.get_wallet(&sender).balance());
    assert_eq!(990, fork.get_wallet(&recipient).balance());
}

/// Over-retirement: retiring more than the wallet holds fails with
/// `InsufficientAssets` and changes neither the registry total nor the
/// holding.
#[test]
fn delete_over_retirement() {
    let (owner, owner_secret) = keypair(49);

    let data = "limited";
    let id = AssetID::from_data(data, &owner);

    let tx = TransactionBuilder::new()
        .keypair(owner, owner_secret)
        .tx_del_assets()
        .add_asset(data, 30)
        .seed(10)
        .build();

    let cfg = Configuration::new(TransactionFees::with_default_key(0, 0, 0, 0, 0, 0));
    let mut fork = Ledger::new();
    fork.add_asset(&id, &owner, 20);
    fork.put_wallet(&owner, wallet_with(100, &[(id, 20)]));

    tx.execute(&mut fork, &cfg);

    assert_eq!(
        Some(TxStatus::Fail(Error::InsufficientAssets)),
        fork.get_status(&tx.hash())
    );
    assert_eq!(Some(20), fork.assets.fetch(&id).map(|a| a.amount()));
    assert_eq!(Some(20), fork.get_wallet(&owner).asset(id).map(|a| a.amount()));
}

/// Re-issuance merge: the same (data, creator) pair keeps a single
/// identifier, circulation accumulates, and each receiver holds its
/// own credited amount.
#[test]
fn add_assets_reissuance_merge() {
    let (creator, creator_secret) = keypair(50);
    let (w1, _) = keypair(51);
    let (w2, _) = keypair(52);

    let data = "X";
    let id = AssetID::from_data(data, &creator);

    let cfg = Configuration::new(TransactionFees::with_default_key(0, 0, 0, 0, 0, 0));
    let mut fork = Ledger::new();
    fork.put_wallet(&creator, wallet_with(1000, &[]));

    let first = AddAssets::new(
        &creator,
        vec![MetaAsset::new(String::from(data), 10, AssetFees::new(0), &w1)],
        1,
        &creator_secret,
    );
    first.execute(&mut fork, &cfg);

    let second = AddAssets::new(
        &creator,
        vec![MetaAsset::new(String::from(data), 5, AssetFees::new(0), &w2)],
        2,
        &creator_secret,
    );
    second.execute(&mut fork, &cfg);

    assert_eq!(Some(TxStatus::Success), fork.get_status(&first.hash()));
    assert_eq!(Some(TxStatus::Success), fork.get_status(&second.hash()));
    assert_eq!(Some(15), fork.assets.fetch(&id).map(|a| a.amount()));
    assert_eq!(Some(10), fork.get_wallet(&w1).asset(id).map(|a| a.amount()));
    assert_eq!(Some(5), fork.get_wallet(&w2).asset(id).map(|a| a.amount()));
}

/// A merge against a conflicting fee schedule is a hard failure that
/// changes nothing.
#[test]
fn add_assets_merge_conflict() {
    let (creator, creator_secret) = keypair(53);
    let (receiver, _) = keypair(54);

    let data = "conflicted";
    let id = AssetID::from_data(data, &creator);

    let cfg = Configuration::new(TransactionFees::with_default_key(0, 0, 0, 0, 0, 0));
    let mut fork = Ledger::new();
    fork.put_wallet(&creator, wallet_with(1000, &[]));
    fork.put_asset_info(&id, AssetInfo::new(&creator, 10, AssetFees::new(1)));

    let tx = AddAssets::new(
        &creator,
        vec![MetaAsset::new(String::from(data), 5, AssetFees::new(2), &receiver)],
        3,
        &creator_secret,
    );
    tx.execute(&mut fork, &cfg);

    assert_eq!(
        Some(TxStatus::Fail(Error::InvalidAssetInfo)),
        fork.get_status(&tx.hash())
    );
    assert_eq!(Some(10), fork.assets.fetch(&id).map(|a| a.amount()));
    assert_eq!(None, fork.get_wallet(&receiver).asset(id));
}

/// The intermediary fee strategy is rejected on a plain two-party
/// exchange.
#[test]
fn exchange_rejects_intermediary_strategy() {
    let (sender, sender_secret) = keypair(55);
    let (recipient, _) = keypair(56);

    let tx = TransactionBuilder::new()
        .keypair(sender, sender_secret)
        .tx_exchange()
        .recipient(recipient)
        .fee_strategy(4)
        .seed(11)
        .build();

    assert!(!tx.verify());

    let cfg = Configuration::new(TransactionFees::with_default_key(0, 0, 0, 0, 0, 0));
    let mut fork = Ledger::new();
    fork.put_wallet(&sender, wallet_with(100, &[]));
    tx.execute(&mut fork, &cfg);

    assert_eq!(
        Some(TxStatus::Fail(Error::InvalidTransaction)),
        fork.get_status(&tx.hash())
    );
}

/// A brokered exchange under the intermediary strategy: the broker
/// pays the flat fee and earns its commission from the sender.
#[test]
fn exchange_intermediary_flow() {
    let (sender, sender_secret) = keypair(57);
    let (recipient, recipient_secret) = keypair(58);
    let (broker, broker_secret) = keypair(59);

    let cfg = Configuration::new(TransactionFees::with_default_key(0, 0, 0, 12, 0, 0));
    let mut fork = Ledger::new();
    fork.put_wallet(&sender, wallet_with(1000, &[]));
    fork.put_wallet(&recipient, wallet_with(1000, &[]));
    fork.put_wallet(&broker, wallet_with(1000, &[]));

    let offer = ExchangeOfferIntermediary::new(
        Intermediary::new(&broker, 25),
        &sender,
        Vec::new(),
        40,
        &recipient,
        Vec::new(),
        0,
        4,
    );
    let offer_raw = offer.to_bytes();
    let sender_signature = dmbc::crypto::sign(&sender_secret, &offer_raw);
    let broker_signature = dmbc::crypto::sign(&broker_secret, &offer_raw);
    let tx = ExchangeIntermediary::new(
        offer,
        12,
        &sender_signature,
        &broker_signature,
        String::new(),
        &recipient_secret,
    );

    assert!(tx.verify());
    tx.execute(&mut fork, &cfg);

    assert_eq!(Some(TxStatus::Success), fork.get_status(&tx.hash()));
    assert_eq!(12, fork.get_wallet(&cfg.genesis_wallet).balance());
    // Broker: -12 fee, +25 commission.
    assert_eq!(1000 - 12 + 25, fork.get_wallet(&broker).balance());
    // Sender: -25 commission, -40 value.
    assert_eq!(1000 - 25 - 40, fork.get_wallet(&sender).balance());
    assert_eq!(1000 + 40, fork.get_wallet(&recipient).balance());
}

/// Identifier derivation is stable for one creator and distinguishes
/// creators and data strings.
#[test]
fn derivation_stable_and_creator_dependent() {
    let (alice, _) = keypair(60);
    let (bob, _) = keypair(61);

    let a1 = AssetID::from_data("coal", &alice);
    let a2 = AssetID::from_data("coal", &alice);
    let b = AssetID::from_data("coal", &bob);
    let c = AssetID::from_data("iron", &alice);

    assert_eq!(a1, a2);
    assert_ne!(a1, b);
    assert_ne!(a1, c);
}

/// Signatures verify for the built transaction and fail once the
/// message or signer changes.
#[test]
fn signature_checked_against_signer() {
    let (sender, sender_secret) = keypair(62);
    let (recipient, _) = keypair(63);
    let (stranger, stranger_secret) = keypair(64);

    let tx = TransactionBuilder::new()
        .keypair(sender, sender_secret)
        .tx_transfer()
        .recipient(recipient)
        .amount(1)
        .seed(13)
        .build();
    assert!(tx.verify());

    // The same fields signed by a different key must not verify as the
    // sender's transfer.
    let forged = TransactionBuilder::new()
        .keypair(sender, stranger_secret)
        .tx_transfer()
        .recipient(recipient)
        .amount(1)
        .seed(13)
        .build();
    assert!(!forged.verify());

    // A transfer from the stranger signed by the stranger is fine.
    let own = TransactionBuilder::new()
        .keypair(stranger, stranger_secret)
        .tx_transfer()
        .recipient(recipient)
        .amount(1)
        .seed(13)
        .build();
    assert!(own.verify());
}

/// Mining credits exactly the configured reward and records success.
#[test]
fn mining_credits_reward() {
    let (miner, miner_secret) = keypair(65);

    let cfg = Configuration::new(TransactionFees::with_default_key(0, 0, 0, 0, 0, 0));
    let mut fork = Ledger::new();
    fork.put_wallet(&miner, wallet_with(7, &[]));

    let tx = TransactionBuilder::new()
        .keypair(miner, miner_secret)
        .tx_mining()
        .seed(14)
        .build();
    tx.execute(&mut fork, &cfg);

    assert_eq!(Some(TxStatus::Success), fork.get_status(&tx.hash()));
    assert_eq!(7 + cfg.mining_reward, fork.get_wallet(&miner).balance());
}

/// The wallet accessors expose the stored state.
#[test]
fn wallet_accessors() {
    let (alice, _) = keypair(66);
    let (bob, _) = keypair(67);
    let id = AssetID::from_data("gold", &alice);

    let mut fork = Ledger::new();
    fork.add_asset(&id, &alice, 9);
    fork.put_wallet(&alice, wallet_with(11, &[(id, 9)]));
    fork.put_wallet(&bob, wallet_with(22, &[]));

    assert_eq!(2, fork.get_wallets().len());
    assert_eq!(11, fork.get_wallet(&alice).balance());
    let assets = fork.get_assets(&alice);
    assert_eq!(1, assets.len());
    assert_eq!(9, assets[0].amount());
    assert_eq!(33, fork.total_coins());
    assert_eq!(0, fork.get_wallet(&bob).assets().len());
}

/// Transfer scenario: flat fee 50 and zero tax; the sender ends at
/// 2000-50-100, the asset leaves the sender whole, and the recipient
/// gains both coins and asset.
#[test]
fn transfer_with_flat_fee() {
    let (sender, sender_secret) = keypair(68);
    let (recipient, _) = keypair(69);

    let data = "A";
    let id = AssetID::from_data(data, &sender);

    let tx = TransactionBuilder::new()
        .keypair(sender, sender_secret)
        .tx_transfer()
        .recipient(recipient)
        .amount(100)
        .add_asset(data, 20)
        .seed(15)
        .build();

    let cfg = Configuration::new(TransactionFees::with_default_key(0, 0, 0, 0, 0, 50));
    let mut fork = Ledger::new();
    fork.add_asset(&id, &sender, 20);
    fork.put_wallet(&sender, wallet_with(2000, &[(id, 20)]));
    fork.put_wallet(&recipient, wallet_with(2000, &[]));

    tx.execute(&mut fork, &cfg);

    assert_eq!(Some(TxStatus::Success), fork.get_status(&tx.hash()));
    assert_eq!(2000 - 50 - 100, fork.get_wallet(&sender).balance());
    assert_eq!(None, fork.get_wallet(&sender).asset(id));
    assert_eq!(2000 + 100, fork.get_wallet(&recipient).balance());
    assert_eq!(
        Some(20),
        fork.get_wallet(&recipient).asset(id).map(|a| a.amount())
    );
    assert_eq!(50, fork.get_wallet(&cfg.genesis_wallet).balance());
}

/// Atomicity at the tax step: the flat fee is affordable but the
/// third-party tax is not, so nothing moves, the flat fee included.
#[test]
fn transfer_fails_at_tax_step() {
    let (creator, _) = keypair(70);
    let (sender, sender_secret) = keypair(71);
    let (recipient, _) = keypair(72);

    let data = "taxed";
    let id = AssetID::from_data(data, &creator);

    let tx = TransactionBuilder::new()
        .keypair(sender, sender_secret)
        .tx_transfer()
        .recipient(recipient)
        .amount(0)
        .seed(16)
        .build();
    // The builder derives from the sender; the taxed asset must carry
    // the creator's identifier, so attach the bundle explicitly.
    let tx = dmbc::transactions::transfer::Transfer::new(
        tx.pub_key(),
        &recipient,
        0,
        vec![dmbc::AssetBundle::new(id, 4)],
        16,
        String::new(),
        &sender_secret,
    );

    // Tax owed: 4 units at 30 each = 120; balance 100 covers only the
    // flat fee of 10.
    let cfg = Configuration::new(TransactionFees::with_default_key(0, 0, 0, 0, 0, 10));
    let mut fork = Ledger::new();
    fork.put_asset_info(&id, AssetInfo::new(&creator, 10, AssetFees::new(30)));
    fork.put_wallet(&sender, wallet_with(100, &[(id, 4)]));

    tx.execute(&mut fork, &cfg);

    assert_eq!(
        Some(TxStatus::Fail(Error::InsufficientFunds)),
        fork.get_status(&tx.hash())
    );
    assert_eq!(100, fork.get_wallet(&sender).balance());
    assert_eq!(0, fork.get_wallet(&cfg.genesis_wallet).balance());
    assert_eq!(0, fork.get_wallet(&creator).balance());
    assert_eq!(Some(4), fork.get_wallet(&sender).asset(id).map(|a| a.amount()));
}

/// Each error kind names itself.
#[test]
fn error_descriptions() {
    assert_eq!("insufficient funds", Error::InsufficientFunds.describe());
    assert_eq!("asset not found", Error::AssetNotFound.describe());
}

/// A brokered trade under the intermediary strategy: the broker pays
/// the flat fee, earns its commission from the seller, the buyer pays
/// the price, and the assets change hands.
#[test]
fn trade_intermediary_flow() {
    let (seller, seller_secret) = keypair(80);
    let (buyer, buyer_secret) = keypair(81);
    let (broker, broker_secret) = keypair(82);
    let _ = buyer_secret;

    let data = "brokered";
    let id = AssetID::from_data(data, &seller);

    let cfg = Configuration::new(TransactionFees::with_default_key(0, 0, 0, 0, 9, 0));
    let mut fork = Ledger::new();
    fork.add_asset(&id, &seller, 6);
    fork.put_wallet(&seller, wallet_with(1000, &[(id, 6)]));
    fork.put_wallet(&buyer, wallet_with(1000, &[]));
    fork.put_wallet(&broker, wallet_with(1000, &[]));

    let offer = dmbc::transactions::trade_intermediary::TradeOfferIntermediary::new(
        dmbc::transactions::exchange_intermediary::Intermediary::new(&broker, 15),
        &seller,
        vec![TradeAsset::new(id, 6, 0)],
        70,
        4,
    );
    let offer_raw = offer.to_bytes();
    let seller_signature = dmbc::crypto::sign(&seller_secret, &offer_raw);
    let broker_signature = dmbc::crypto::sign(&broker_secret, &offer_raw);
    let tx = dmbc::transactions::trade_intermediary::TradeIntermediary::new(
        &buyer,
        offer,
        17,
        &seller_signature,
        &broker_signature,
        &seller_secret,
    );

    assert!(tx.verify());
    tx.execute(&mut fork, &cfg);

    assert_eq!(Some(TxStatus::Success), fork.get_status(&tx.hash()));
    assert_eq!(9, fork.get_wallet(&cfg.genesis_wallet).balance());
    // Broker: -9 fee, +15 commission.
    assert_eq!(1000 - 9 + 15, fork.get_wallet(&broker).balance());
    // Seller: -15 commission, +70 price.
    assert_eq!(1000 - 15 + 70, fork.get_wallet(&seller).balance());
    assert_eq!(1000 - 70, fork.get_wallet(&buyer).balance());
    assert_eq!(None, fork.get_wallet(&seller).asset(id));
    assert_eq!(Some(6), fork.get_wallet(&buyer).asset(id).map(|a| a.amount()));
}
