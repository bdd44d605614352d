use dmbc::builders::TransactionBuilder;
use dmbc::crypto::public_key_of;
use dmbc::transactions::add_assets::AddAssets;
use dmbc::{
    AssetBundle, AssetFees, AssetInfo, AssetID, Configuration, Ledger, MetaAsset, PublicKey,
    SecretKey, TransactionFees, TxStatus, Wallet, INIT_BALANCE,
};

fn keypair(seed: u8) -> (PublicKey, SecretKey) {
    let secret = SecretKey::new([seed; 32]);
    (public_key_of(&secret), secret)
}

fn wallet_with(balance: u64, assets: &[(AssetID, u64)]) -> Wallet {
    let mut w = Wallet::with_balance(balance);
    for (id, amount) in assets {
        w.credit(id, *amount);
    }
    w
}

#[test]
fn add_assets() {
    let (public_key, secret_key) = keypair(11);

    let absent_data = "a8d5c97d-9978-4b0b-9947-7a95dcb31d0f";
    let existing_data = "a8d5c97d-9978-4111-9947-7a95dcb31d0f";

    let absent_id = AssetID::from_data(absent_data, &public_key);
    let existing_id = AssetID::from_data(existing_data, &public_key);

    let tx = TransactionBuilder::new()
        .keypair(public_key, secret_key)
        .tx_add_assets()
        .add_asset(absent_data, 45)
        .add_asset(existing_data, 17)
        .seed(85)
        .build();

    let cfg = Configuration::new(TransactionFees::with_default_key(10, 1, 0, 0, 0, 0));
    let mut fork = Ledger::new();

    fork.put_asset_info(
        &existing_id,
        AssetInfo::new(&public_key, 3, AssetFees::new(0)),
    );
    fork.put_wallet(&public_key, wallet_with(2000, &[(existing_id, 3)]));

    let (flat, per_assets) = tx.fees(&cfg).unwrap();
    let fee = flat + per_assets;

    tx.execute(&mut fork, &cfg);

    let existing_info = fork.assets.fetch(&existing_id).unwrap();
    assert_eq!(20, existing_info.amount());

    let wallet = fork.get_wallet(tx.pub_key());
    assert_eq!(2000 - fee, wallet.balance());
    assert_eq!(20, wallet.asset(existing_id).unwrap().amount());
    assert_eq!(45, wallet.asset(absent_id).unwrap().amount());
}

#[test]
fn create_wallet() {
    let (public_key, secret_key) = keypair(12);
    let tx = TransactionBuilder::new()
        .keypair(public_key, secret_key)
        .tx_create_wallet()
        .build();

    let cfg = Configuration::new(TransactionFees::with_default_key(0, 0, 0, 0, 0, 0));
    let mut fork = Ledger::new();

    tx.execute(&mut fork, &cfg);

    let wallet = fork.get_wallet(tx.pub_key());
    assert_eq!(INIT_BALANCE, wallet.balance());
    assert!(wallet.assets().is_empty());
}

#[test]
fn delete_assets() {
    let (public_key, secret_key) = keypair(13);

    let data_1 = "deleted";
    let data_2 = "removed from wallet";
    let data_3 = "removed from network";

    let tx = TransactionBuilder::new()
        .keypair(public_key, secret_key)
        .tx_del_assets()
        .add_asset(data_1, 10)
        .add_asset(data_2, 20)
        .add_asset(data_3, 30)
        .seed(113)
        .build();

    let id_1 = AssetID::from_data(data_1, &public_key);
    let id_2 = AssetID::from_data(data_2, &public_key);
    let id_3 = AssetID::from_data(data_3, &public_key);

    let cfg = Configuration::new(TransactionFees::with_default_key(0, 0, 0, 0, 0, 0));
    let mut fork = Ledger::new();

    fork.add_asset(&id_1, &public_key, 30);
    fork.add_asset(&id_2, &public_key, 30);
    fork.add_asset(&id_3, &public_key, 30);

    fork.put_wallet(
        &public_key,
        wallet_with(2000, &[(id_1, 20), (id_2, 20), (id_3, 30)]),
    );

    tx.execute(&mut fork, &cfg);

    assert_eq!(Some(20), fork.assets.fetch(&id_1).map(|a| a.amount()));
    assert_eq!(Some(10), fork.assets.fetch(&id_2).map(|a| a.amount()));
    assert_eq!(None, fork.assets.fetch(&id_3).map(|a| a.amount()));

    let wallet = fork.get_wallet(&public_key);
    assert_eq!(Some(10), wallet.asset(id_1).map(|a| a.amount()));
    assert_eq!(None, wallet.asset(id_2));
    assert_eq!(None, wallet.asset(id_3));
}

#[test]
fn delete_assets_fails() {
    let (public_key, secret_key) = keypair(14);

    let data = "asset";
    let id = AssetID::from_data(data, &public_key);

    let tx_too_many = TransactionBuilder::new()
        .keypair(public_key, secret_key)
        .tx_del_assets()
        .add_asset(data, 30)
        .seed(9)
        .build();

    let tx_doesnt_exist = TransactionBuilder::new()
        .keypair(public_key, secret_key)
        .tx_del_assets()
        .add_asset("absent", 999)
        .seed(9)
        .build();

    let cfg = Configuration::new(TransactionFees::with_default_key(0, 0, 0, 0, 0, 0));
    let mut fork = Ledger::new();

    fork.add_asset(&id, &public_key, 20);
    fork.put_wallet(&public_key, wallet_with(2000, &[(id, 20)]));

    tx_too_many.execute(&mut fork, &cfg);

    assert_eq!(Some(20), fork.assets.fetch(&id).map(|a| a.amount()));
    assert_eq!(
        Some(20),
        fork.get_wallet(&public_key).asset(id).map(|a| a.amount())
    );

    tx_doesnt_exist.execute(&mut fork, &cfg);

    let status = fork.get_status(&tx_doesnt_exist.hash());
    assert!(matches!(status, Some(TxStatus::Fail(_))));
}

#[test]
fn exchange() {
    let (sender_public, sender_secret) = keypair(15);
    let (recipient_public, _) = keypair(16);

    let sender_data_1 = "sender asset 1";
    let sender_id_1 = AssetID::from_data(sender_data_1, &sender_public);

    let sender_data_2 = "sender asset 2";
    let sender_id_2 = AssetID::from_data(sender_data_2, &sender_public);

    let recipient_data_1 = "recipient asset 1";
    let recipient_id_1 = AssetID::from_data(recipient_data_1, &recipient_public);

    let recipient_data_2 = "recipient asset 2";
    let recipient_id_2 = AssetID::from_data(recipient_data_2, &recipient_public);

    let tx = TransactionBuilder::new()
        .keypair(sender_public, sender_secret)
        .tx_exchange()
        .sender_add_asset(sender_data_1, 10)
        .sender_add_asset(sender_data_2, 15)
        .sender_value(50)
        .recipient(recipient_public)
        .recipient_add_asset(recipient_data_1, 30)
        .recipient_add_asset(recipient_data_2, 25)
        .recipient_value(0)
        .fee_strategy(1)
        .build();

    let cfg = Configuration::new(TransactionFees::with_default_key(0, 0, 0, 0, 0, 0));
    let mut fork = Ledger::new();

    fork.add_asset(&sender_id_1, &sender_public, 10);
    fork.add_asset(&sender_id_2, &sender_public, 30);
    fork.add_asset(&recipient_id_1, &recipient_public, 30);
    fork.add_asset(&recipient_id_2, &recipient_public, 50);

    fork.put_wallet(
        &sender_public,
        wallet_with(100, &[(sender_id_1, 10), (sender_id_2, 30)]),
    );
    fork.put_wallet(
        &recipient_public,
        wallet_with(100, &[(recipient_id_1, 30), (recipient_id_2, 50)]),
    );

    tx.execute(&mut fork, &cfg);

    let sender = fork.get_wallet(&sender_public);
    let recipient = fork.get_wallet(&recipient_public);

    assert_eq!(None, sender.asset(sender_id_1).map(|a| a.amount()));
    assert_eq!(Some(15), sender.asset(sender_id_2).map(|a| a.amount()));
    assert_eq!(Some(30), sender.asset(recipient_id_1).map(|a| a.amount()));
    assert_eq!(Some(25), sender.asset(recipient_id_2).map(|a| a.amount()));

    assert_eq!(None, recipient.asset(recipient_id_1).map(|a| a.amount()));
    assert_eq!(Some(25), recipient.asset(recipient_id_2).map(|a| a.amount()));
    assert_eq!(Some(10), recipient.asset(sender_id_1).map(|a| a.amount()));
    assert_eq!(Some(15), recipient.asset(sender_id_2).map(|a| a.amount()));
}

#[test]
fn trade_assets() {
    let (seller_public, seller_secret) = keypair(17);
    let (buyer_public, _) = keypair(18);

    let full_data = "fully transferred asset";
    let full_id = AssetID::from_data(full_data, &seller_public);

    let half_data = "partially transferred asset";
    let half_id = AssetID::from_data(half_data, &seller_public);

    let tx = TransactionBuilder::new()
        .keypair(seller_public, seller_secret)
        .tx_trade_assets()
        .buyer(buyer_public)
        .add_asset(full_data, 20)
        .add_asset(half_data, 10)
        .price(88)
        .seed(4)
        .build();

    let trade_fee = 7;
    let cfg = Configuration::new(TransactionFees::with_default_key(0, 0, 0, 0, trade_fee, 0));
    let mut fork = Ledger::new();

    fork.put_asset_info(&full_id, AssetInfo::new(&seller_public, 20, AssetFees::new(0)));
    fork.put_asset_info(&half_id, AssetInfo::new(&seller_public, 20, AssetFees::new(0)));

    fork.put_wallet(
        &seller_public,
        wallet_with(2000, &[(full_id, 20), (half_id, 20)]),
    );
    fork.put_wallet(&buyer_public, wallet_with(2000, &[]));

    tx.execute(&mut fork, &cfg);

    let seller = fork.get_wallet(&seller_public);
    let buyer = fork.get_wallet(&buyer_public);

    assert_eq!(None, seller.asset(full_id).map(|a| a.amount()));
    assert_eq!(Some(10), seller.asset(half_id).map(|a| a.amount()));

    assert_eq!(Some(20), buyer.asset(full_id).map(|a| a.amount()));
    assert_eq!(Some(10), buyer.asset(half_id).map(|a| a.amount()));

    assert_eq!(2000 - trade_fee + 88, seller.balance());
    assert_eq!(2000 - 88, buyer.balance());
}

#[test]
fn transfer() {
    let (sender_public, sender_secret) = keypair(19);
    let (recipient_public, _) = keypair(20);

    let full_data = "fully transferred asset";
    let full_id = AssetID::from_data(full_data, &sender_public);

    let half_data = "partially transferred asset";
    let half_id = AssetID::from_data(half_data, &sender_public);

    let tx = TransactionBuilder::new()
        .keypair(sender_public, sender_secret)
        .tx_transfer()
        .recipient(recipient_public)
        .amount(100)
        .add_asset(full_data, 20)
        .add_asset(half_data, 10)
        .seed(123)
        .build();

    let transfer_fee = 10;
    let cfg = Configuration::new(TransactionFees::with_default_key(0, 0, 0, 0, 0, transfer_fee));
    let mut fork = Ledger::new();

    fork.put_asset_info(&full_id, AssetInfo::new(&sender_public, 20, AssetFees::new(0)));
    fork.put_asset_info(&half_id, AssetInfo::new(&sender_public, 20, AssetFees::new(0)));

    fork.put_wallet(
        &sender_public,
        wallet_with(2000, &[(full_id, 20), (half_id, 20)]),
    );
    fork.put_wallet(&recipient_public, wallet_with(2000, &[]));

    tx.execute(&mut fork, &cfg);

    let sender = fork.get_wallet(&sender_public);
    let recipient = fork.get_wallet(&recipient_public);

    assert_eq!(None, sender.asset(full_id).map(|a| a.amount()));
    assert_eq!(Some(10), sender.asset(half_id).map(|a| a.amount()));

    assert_eq!(Some(20), recipient.asset(full_id).map(|a| a.amount()));
    assert_eq!(Some(10), recipient.asset(half_id).map(|a| a.amount()));

    assert_eq!(2000 - transfer_fee - 100, sender.balance());
    assert_eq!(2000 + 100, recipient.balance());
}

#[test]
fn transaction_add_assets() {
    let (public_key, secret_key) = keypair(21);
    let transaction = TransactionBuilder::new()
        .keypair(public_key, secret_key)
        .tx_add_assets()
        .add_asset("foobar", 9)
        .add_asset("bazqux", 13)
        .build();

    let assets = vec![
        MetaAsset::new(String::from("foobar"), 9, AssetFees::new(0), &public_key),
        MetaAsset::new(String::from("bazqux"), 13, AssetFees::new(0), &public_key),
    ];
    let equivalent = AddAssets::new(&public_key, assets, 0, &secret_key);

    assert!(transaction == equivalent);
}
