use dmbc::crypto::public_key_of;
use dmbc::transactions::transfer::Transfer;
use dmbc::{
    AssetBundle, AssetFees, AssetInfo, Configuration, Error, Ledger, PublicKey, SecretKey,
    TransactionFees,
};

fn keypair(seed: u8) -> (PublicKey, SecretKey) {
    let secret = SecretKey::new([seed; 32]);
    (public_key_of(&secret), secret)
}

fn asset_fees(tax: u64, _ratio: u64) -> AssetFees {
    AssetFees::new(tax)
}

fn create_asset(
    meta_data: &str,
    amount: u64,
    fees: AssetFees,
    creator_key: &PublicKey,
) -> (AssetBundle, AssetInfo) {
    let asset = AssetBundle::from_data(meta_data, amount, creator_key);
    let info = AssetInfo::new(creator_key, amount, fees);
    (asset, info)
}

#[test]
fn fees_for_transfer() {
    let transaction_fee = 1000;
    let amount = 2;
    let tax = 10;
    let meta_data = "asset";
    let config_fees = TransactionFees::with_default_key(0, 0, 0, 0, 0, transaction_fee);
    let cfg = Configuration::new(config_fees);

    let (creator_key, _) = keypair(31);
    let (recipient_key, _) = keypair(32);
    let (sender_pub_key, sender_sec_key) = keypair(33);

    let (asset, info) = create_asset(meta_data, amount, asset_fees(tax, 0), &creator_key);
    let mut fork = Ledger::new();
    fork.put_asset_info(&asset.id(), info);

    let tx_transfer = Transfer::new(
        &sender_pub_key,
        &recipient_key,
        0,
        vec![asset],
        42,
        String::new(),
        &sender_sec_key,
    );

    let response = tx_transfer.fees(&fork.assets, &cfg);

    let expected_fee = transaction_fee + amount * tax;
    assert_eq!(response, Ok(vec![(sender_pub_key, expected_fee)]));
}

#[test]
fn fees_for_transfer_sender_is_creator() {
    let transaction_fee = 1000;
    let amount = 2;
    let tax = 10;
    let meta_data = "asset";
    let config_fees = TransactionFees::with_default_key(0, 0, 0, 0, 0, transaction_fee);
    let cfg = Configuration::new(config_fees);

    let (recipient_key, _) = keypair(34);
    let (sender_pub_key, sender_sec_key) = keypair(35);

    let (asset, info) = create_asset(meta_data, amount, asset_fees(tax, 0), &sender_pub_key);
    let mut fork = Ledger::new();
    fork.put_asset_info(&asset.id(), info);

    let tx_transfer = Transfer::new(
        &sender_pub_key,
        &recipient_key,
        0,
        vec![asset],
        42,
        String::new(),
        &sender_sec_key,
    );

    let response = tx_transfer.fees(&fork.assets, &cfg);

    assert_eq!(response, Ok(vec![(sender_pub_key, transaction_fee)]));
}

#[test]
fn fees_for_transfer_asset_not_found() {
    let transaction_fee = 1000;
    let amount = 2;
    let tax = 10;
    let meta_data = "asset";
    let config_fees = TransactionFees::with_default_key(0, 0, 0, 0, 0, transaction_fee);
    let cfg = Configuration::new(config_fees);

    let (creator_key, _) = keypair(36);
    let (recipient_key, _) = keypair(37);
    let (sender_pub_key, sender_sec_key) = keypair(38);

    let (asset, _) = create_asset(meta_data, amount, asset_fees(tax, 0), &creator_key);
    let fork = Ledger::new();

    let tx_transfer = Transfer::new(
        &sender_pub_key,
        &recipient_key,
        0,
        vec![asset],
        42,
        String::new(),
        &sender_sec_key,
    );

    let response = tx_transfer.fees(&fork.assets, &cfg);

    assert_eq!(response, Err(Error::AssetNotFound));
}
