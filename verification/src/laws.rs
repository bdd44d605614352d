//! The ledger's global laws, proved over the specification transitions:
//! conservation of coins and of asset totals, atomicity of every
//! handler, fee ordering, and purity of identifier derivation.

use vstd::prelude::*;

use crate::assetid::derived_id;
use crate::assoc::{keys_distinct, lemma_sput_distinct, sput};
use crate::config::Configuration;
use crate::error::{Error, TxStatus};
use crate::fees::{half_payments, lemma_pay_list_props, pay_list, rest_payments, strategy_of,
    tp_fees, FeeStrategy};
use crate::ledger::{coins_moved, ledger_wf, lemma_amove_pre,
    lemma_assets_moved_props, lemma_coins_moved_props, lemma_registry_ok_del,
    lemma_registry_ok_put, lemma_sum_bal_put, lemma_sum_hold_put, lemma_sum_hold_single,
    lemma_wallets_ok_put, registry_consistent, registry_ok, sum_bal, sum_hold, wallets_ok,
    LedgerV};
use crate::stores::{bal, fetched, reg_amount, whold};
use crate::transactions::add_assets::{add_assets_apply, add_assets_hash, issue_all, issue_units};
use crate::transactions::create_wallet::{create_wallet_apply, create_wallet_hash};
use crate::transactions::del_assets::{del_assets_apply, del_assets_hash, retire_all};
use crate::transactions::exchange::{exchange_apply, exchange_fee_phase, exchange_hash,
    exchange_tax_phase, lemma_swap_phase_props};
use crate::transactions::exchange_intermediary::{exchange_intermediary_apply,
    exchange_intermediary_hash, fee_phase, tax_phase};
use crate::transactions::mining::mining_hash;
use crate::transactions::trade::{trade_apply, trade_bundles, trade_hash};
use crate::transactions::trade_intermediary::{trade_fee_phase, trade_intermediary_apply,
    trade_intermediary_hash, trade_tax_phase};
use crate::transactions::transfer::{transfer_apply, transfer_hash, TransferV};
use crate::transactions::{apply_tx, tx_requires, TransactionV};
use crate::assets::InfoV;
use crate::wallet::{credit_spec, debit_spec, hold, lemma_credit_wf, lemma_debit_wf,
    lemma_hold_credit, lemma_hold_debit, WalletV};

verus! {

/// The coins a transaction mints: the mining reward, or the seeded
/// balance net of what the overwritten wallet held; every other kind
/// only moves coins that already exist.
pub open spec fn coin_issuance(t: TransactionV, l: LedgerV, cfg: Configuration) -> int {
    match t {
        TransactionV::CreateWallet(t) => cfg.initial_balance - bal(l.wallets, t.pub_key),
        TransactionV::Mining(_) => cfg.mining_reward as int,
        _ => 0,
    }
}

/// The hash under which a transaction's status is recorded.
pub open spec fn tx_hash_key(t: TransactionV) -> Seq<u8> {
    match t {
        TransactionV::AddAssets(t) => add_assets_hash(t),
        TransactionV::CreateWallet(t) => create_wallet_hash(t),
        TransactionV::DeleteAssets(t) => del_assets_hash(t),
        TransactionV::Exchange(t) => exchange_hash(t),
        TransactionV::ExchangeIntermediary(t) => exchange_intermediary_hash(t),
        TransactionV::Mining(t) => mining_hash(t),
        TransactionV::Trade(t) => trade_hash(t),
        TransactionV::TradeIntermediary(t) => trade_intermediary_hash(t),
        TransactionV::Transfer(t) => transfer_hash(t),
    }
}

/// The status a transaction's execution records.
pub open spec fn tx_status_of(t: TransactionV, l: LedgerV, cfg: Configuration) -> TxStatus {
    match t {
        TransactionV::AddAssets(t) => match add_assets_apply(t, l, cfg) {
            Ok(_) => TxStatus::Success,
            Err(e) => TxStatus::Fail(e),
        },
        TransactionV::CreateWallet(_) => TxStatus::Success,
        TransactionV::DeleteAssets(t) => match del_assets_apply(t, l, cfg) {
            Ok(_) => TxStatus::Success,
            Err(e) => TxStatus::Fail(e),
        },
        TransactionV::Exchange(t) => match exchange_apply(t, l, cfg) {
            Ok(_) => TxStatus::Success,
            Err(e) => TxStatus::Fail(e),
        },
        TransactionV::ExchangeIntermediary(t) => match exchange_intermediary_apply(t, l, cfg) {
            Ok(_) => TxStatus::Success,
            Err(e) => TxStatus::Fail(e),
        },
        TransactionV::Mining(_) => TxStatus::Success,
        TransactionV::Trade(t) => match trade_apply(t, l, cfg) {
            Ok(_) => TxStatus::Success,
            Err(e) => TxStatus::Fail(e),
        },
        TransactionV::TradeIntermediary(t) => match trade_intermediary_apply(t, l, cfg) {
            Ok(_) => TxStatus::Success,
            Err(e) => TxStatus::Fail(e),
        },
        TransactionV::Transfer(t) => match transfer_apply(t, l, cfg) {
            Ok(_) => TxStatus::Success,
            Err(e) => TxStatus::Fail(e),
        },
    }
}

/// Atomicity: executing a transaction either applies it in full or
/// leaves the fork exactly as it was — whenever the recorded status is
/// a failure, the wallets and the registry are untouched, and in every
/// case the only status change is the one record under the
/// transaction's own hash.
pub proof fn lemma_execute_atomic(t: TransactionV, l: LedgerV, cfg: Configuration)
    ensures
        tx_status_of(t, l, cfg) matches TxStatus::Fail(_) ==> apply_tx(t, l, cfg).wallets
            == l.wallets && apply_tx(t, l, cfg).assets == l.assets,
        apply_tx(t, l, cfg).statuses == sput(l.statuses, tx_hash_key(t), tx_status_of(t, l, cfg)),
{
}

/// Idempotent identifier derivation: deriving twice from identical
/// data and creator yields the identical identifier — the derived
/// identifier is a pure function of the pair.
pub proof fn lemma_derivation_pure(d1: Seq<char>, c1: Seq<u8>, d2: Seq<char>, c2: Seq<u8>)
    requires
        d1 == d2,
        c1 == c2,
    ensures
        derived_id(d1, c1) == derived_id(d2, c2),
{
}

/// Fee ordering: when the sender cannot afford the flat fee, the
/// transfer fails with `InsufficientFunds` before any other effect is
/// attempted — no coin and no asset moves, whatever else the wallet
/// could have afforded.
pub proof fn lemma_fee_precedes_principal(t: TransferV, l: LedgerV, cfg: Configuration)
    requires
        bal(l.wallets, t.from) < cfg.fees.transfer,
    ensures
        transfer_apply(t, l, cfg) == Err::<Seq<(Seq<u8>, WalletV)>, Error>(
            Error::InsufficientFunds,
        ),
        apply_tx(TransactionV::Transfer(t), l, cfg).wallets == l.wallets,
        apply_tx(TransactionV::Transfer(t), l, cfg).assets == l.assets,
{
}

/// What issuing preserves: store shape, the balance total, and for
/// every asset the equality between the change of total holdings and
/// the change of registry circulation.
pub proof fn lemma_issue_all_props(
    w: Seq<(Seq<u8>, WalletV)>,
    reg: Seq<(Seq<u8>, InfoV)>,
    issuer: Seq<u8>,
    ms: Seq<crate::assets::MetaAssetV>,
)
    requires
        wallets_ok(w),
        registry_ok(reg),
        forall|id: Seq<u8>| #[trigger] sum_hold(w, id) <= reg_amount(reg, id),
    ensures
        match issue_all(w, reg, issuer, ms) {
            Ok(p) => {
                &&& wallets_ok(p.0)
                &&& registry_ok(p.1)
                &&& sum_bal(p.0) == sum_bal(w)
                &&& forall|id: Seq<u8>| #[trigger] sum_hold(p.0, id) - sum_hold(w, id)
                    == reg_amount(p.1, id) - reg_amount(reg, id)
                &&& forall|id: Seq<u8>| #[trigger] sum_hold(p.0, id) <= reg_amount(p.1, id)
            },
            Err(_) => true,
        },
    decreases ms.len(),
{
    if ms.len() > 0 {
        let m = ms.first();
        if m.amount > 0 {
            let id = derived_id(m.data, issuer);
            let entry = match sget_entry(reg, id, issuer, m) {
                Some(entry) => entry,
                None => {
                    return ;
                },
            };
            if crate::assoc::sget(reg, id) is Some {
                let cur = crate::assoc::sget(reg, id)->Some_0;
                if cur.creator != issuer || cur.tax != m.tax || cur.amount + m.amount
                    > u64::MAX {
                    return ;
                }
            }
            let wv = credit_spec(fetched(w, m.receiver), id, m.amount);
            let w2 = sput(w, m.receiver, wv);
            let reg2 = sput(reg, id, entry);
            lemma_sum_hold_single(w, m.receiver, id);
            crate::ledger::lemma_fetched_wf(w, m.receiver);
            lemma_credit_wf(fetched(w, m.receiver), id, m.amount);
            lemma_wallets_ok_put(w, m.receiver, wv);
            lemma_registry_ok_put(reg, id, entry);
            lemma_sum_bal_put(w, m.receiver, wv);
            assert forall|id2: Seq<u8>| #[trigger] sum_hold(w2, id2) - sum_hold(w, id2)
                == reg_amount(reg2, id2) - reg_amount(reg, id2) by {
                lemma_sum_hold_put(w, m.receiver, wv, id2);
                lemma_hold_credit(fetched(w, m.receiver), id, m.amount, id2);
                crate::assoc::lemma_sget_put(reg, id, entry, id2);
            }
            assert forall|id2: Seq<u8>| #[trigger] sum_hold(w2, id2) <= reg_amount(
                reg2,
                id2,
            ) by {
                assert(sum_hold(w2, id2) - sum_hold(w, id2) == reg_amount(reg2, id2)
                    - reg_amount(reg, id2));
                assert(sum_hold(w, id2) <= reg_amount(reg, id2));
            }
            lemma_issue_all_props(w2, reg2, issuer, ms.drop_first());
        }
    }
}

/// The registry entry an issuance request writes, if the merge is
/// accepted.
pub open spec fn sget_entry(
    reg: Seq<(Seq<u8>, InfoV)>,
    id: Seq<u8>,
    issuer: Seq<u8>,
    m: crate::assets::MetaAssetV,
) -> Option<InfoV> {
    match crate::assoc::sget(reg, id) {
        None => Some(InfoV { creator: issuer, amount: m.amount, tax: m.tax }),
        Some(cur) => {
            if cur.creator != issuer || cur.tax != m.tax || cur.amount + m.amount > u64::MAX {
                None
            } else {
                Some(InfoV { creator: issuer, amount: (cur.amount + m.amount) as u64, tax: m.tax })
            }
        },
    }
}

/// What retiring preserves: store shape, the balance total, and for
/// every asset the equality between the change of total holdings and
/// the change of registry circulation.
pub proof fn lemma_retire_all_props(
    w: Seq<(Seq<u8>, WalletV)>,
    reg: Seq<(Seq<u8>, InfoV)>,
    owner: Seq<u8>,
    bs: Seq<(Seq<u8>, u64)>,
)
    requires
        wallets_ok(w),
        registry_ok(reg),
        forall|id: Seq<u8>| #[trigger] sum_hold(w, id) <= reg_amount(reg, id),
    ensures
        match retire_all(w, reg, owner, bs) {
            Ok(p) => {
                &&& wallets_ok(p.0)
                &&& registry_ok(p.1)
                &&& sum_bal(p.0) == sum_bal(w)
                &&& forall|id: Seq<u8>| #[trigger] sum_hold(p.0, id) - sum_hold(w, id)
                    == reg_amount(p.1, id) - reg_amount(reg, id)
                &&& forall|id: Seq<u8>| #[trigger] sum_hold(p.0, id) <= reg_amount(p.1, id)
            },
            Err(_) => true,
        },
    decreases bs.len(),
{
    if bs.len() > 0 {
        let id = bs.first().0;
        let amt = bs.first().1;
        if amt == 0 {
            lemma_retire_all_props(w, reg, owner, bs.drop_first());
        } else if whold(w, owner, id) == 0 || whold(w, owner, id) < amt {
        } else {
            match crate::assoc::sget(reg, id) {
                None => {},
                Some(info) => {
                    if info.amount >= amt {
                        let wv = debit_spec(fetched(w, owner), id, amt);
                        let w2 = sput(w, owner, wv);
                        let reg2 = if info.amount == amt {
                            crate::assoc::sdel(reg, id)
                        } else {
                            sput(
                                reg,
                                id,
                                InfoV {
                                    creator: info.creator,
                                    amount: (info.amount - amt) as u64,
                                    tax: info.tax,
                                },
                            )
                        };
                        crate::ledger::lemma_fetched_wf(w, owner);
                        lemma_debit_wf(fetched(w, owner), id, amt);
                        lemma_wallets_ok_put(w, owner, wv);
                        lemma_sum_bal_put(w, owner, wv);
                        lemma_sum_hold_single(w, owner, id);
                        if info.amount == amt {
                            lemma_registry_ok_del(reg, id);
                        } else {
                            lemma_registry_ok_put(
                                reg,
                                id,
                                InfoV {
                                    creator: info.creator,
                                    amount: (info.amount - amt) as u64,
                                    tax: info.tax,
                                },
                            );
                        }
                        assert forall|id2: Seq<u8>| #[trigger] sum_hold(w2, id2) - sum_hold(
                            w,
                            id2,
                        ) == reg_amount(reg2, id2) - reg_amount(reg, id2) by {
                            lemma_sum_hold_put(w, owner, wv, id2);
                            lemma_hold_debit(fetched(w, owner), id, amt, id2);
                            if info.amount == amt {
                                crate::assoc::lemma_sget_del(reg, id, id2);
                            } else {
                                crate::assoc::lemma_sget_put(
                                    reg,
                                    id,
                                    InfoV {
                                        creator: info.creator,
                                        amount: (info.amount - amt) as u64,
                                        tax: info.tax,
                                    },
                                    id2,
                                );
                            }
                        }
                        assert forall|id2: Seq<u8>| #[trigger] sum_hold(w2, id2) <= reg_amount(
                            reg2,
                            id2,
                        ) by {
                            assert(sum_hold(w2, id2) - sum_hold(w, id2) == reg_amount(reg2, id2)
                                - reg_amount(reg, id2));
                            assert(sum_hold(w, id2) <= reg_amount(reg, id2));
                        }
                        lemma_retire_all_props(w2, reg2, owner, bs.drop_first());
                    }
                },
            }
        }
    }
}

/// Conservation, one transaction at a time: executing any transaction
/// on a well-formed ledger leaves a well-formed ledger; the balance
/// total changes exactly by the coins the transaction mints (zero for
/// everything but emission); and, for every kind but `CreateWallet`,
/// every asset's total holdings and registry circulation change by the
/// same amount.  `CreateWallet` only discards the overwritten wallet's
/// holdings.
pub proof fn lemma_tx_conserves(t: TransactionV, l: LedgerV, cfg: Configuration)
    requires
        ledger_wf(l),
        tx_requires(t, l, cfg),
    ensures
        ledger_wf(apply_tx(t, l, cfg)),
        sum_bal(apply_tx(t, l, cfg).wallets) == sum_bal(l.wallets) + coin_issuance(t, l, cfg),
        !(t is CreateWallet) ==> forall|id: Seq<u8>| #[trigger] sum_hold(
            apply_tx(t, l, cfg).wallets,
            id,
        ) - sum_hold(l.wallets, id) == reg_amount(apply_tx(t, l, cfg).assets, id) - reg_amount(
            l.assets,
            id,
        ),
        t is CreateWallet ==> forall|id: Seq<u8>| #[trigger] sum_hold(
            apply_tx(t, l, cfg).wallets,
            id,
        ) <= sum_hold(l.wallets, id),
{
    lemma_sput_distinct(l.statuses, tx_hash_key(t), tx_status_of(t, l, cfg));
    assert forall|id: Seq<u8>| #[trigger] sum_hold(l.wallets, id) <= u64::MAX by {
        assert(sum_hold(l.wallets, id) <= reg_amount(l.assets, id));
    }
    match t {
        TransactionV::Transfer(t) => {
            lemma_coins_moved_props(l.wallets, t.from, cfg.genesis_wallet@, cfg.fees.transfer);
            match coins_moved(l.wallets, t.from, cfg.genesis_wallet@, cfg.fees.transfer) {
                Some(w1) => match tp_fees(l.assets, t.assets) {
                    Ok(list) => {
                        lemma_pay_list_props(w1, t.from, list);
                        match pay_list(w1, t.from, list) {
                            Some(w2) => {
                                lemma_coins_moved_props(w2, t.from, t.to, t.amount);
                                match coins_moved(w2, t.from, t.to, t.amount) {
                                    Some(w3) => {
                                        lemma_amove_pre(w3, t.from, t.to);
                                        lemma_assets_moved_props(w3, t.from, t.to, t.assets);
                                    },
                                    None => {},
                                }
                            },
                            None => {},
                        }
                    },
                    Err(_) => {},
                },
                None => {},
            }
        },
        TransactionV::Trade(t) => {
            let o = t.offer;
            lemma_coins_moved_props(l.wallets, o.seller, cfg.genesis_wallet@, cfg.fees.trade);
            match coins_moved(l.wallets, o.seller, cfg.genesis_wallet@, cfg.fees.trade) {
                Some(w1) => match tp_fees(l.assets, trade_bundles(o.assets)) {
                    Ok(list) => {
                        lemma_pay_list_props(w1, o.seller, list);
                        match pay_list(w1, o.seller, list) {
                            Some(w2) => {
                                lemma_coins_moved_props(w2, t.buyer, o.seller, o.price);
                                match coins_moved(w2, t.buyer, o.seller, o.price) {
                                    Some(w3) => {
                                        lemma_amove_pre(w3, o.seller, t.buyer);
                                        lemma_assets_moved_props(
                                            w3,
                                            o.seller,
                                            t.buyer,
                                            trade_bundles(o.assets),
                                        );
                                    },
                                    None => {},
                                }
                            },
                            None => {},
                        }
                    },
                    Err(_) => {},
                },
                None => {},
            }
        },
        TransactionV::Exchange(t) => {
            let o = t.offer;
            match strategy_of(o.fee_strategy) {
                Some(st) => {
                    if st != FeeStrategy::Intermediary {
                        lemma_exchange_fee_phase(l.wallets, o, st, cfg.genesis_wallet@,
                            cfg.fees.exchange);
                        match exchange_fee_phase(
                            l.wallets,
                            o,
                            st,
                            cfg.genesis_wallet@,
                            cfg.fees.exchange,
                        ) {
                            Some(w1) => match tp_fees(
                                l.assets,
                                o.sender_assets + o.recipient_assets,
                            ) {
                                Ok(list) => {
                                    lemma_exchange_tax_phase(w1, o, st, list);
                                    match exchange_tax_phase(w1, o, st, list) {
                                        Some(w2) => {
                                            lemma_swap_phase_props(w2, o.sender, o.sender_assets,
                                                o.sender_value, o.recipient, o.recipient_assets,
                                                o.recipient_value);
                                        },
                                        None => {},
                                    }
                                },
                                Err(_) => {},
                            },
                            None => {},
                        }
                    }
                },
                None => {},
            }
        },
        TransactionV::ExchangeIntermediary(t) => {
            let o = t.offer;
            match strategy_of(o.fee_strategy) {
                Some(st) => {
                    lemma_intermediary_fee_phase(l.wallets, o, st, cfg.genesis_wallet@,
                        cfg.fees.exchange);
                    match fee_phase(l.wallets, o, st, cfg.genesis_wallet@, cfg.fees.exchange) {
                        Some(w1) => {
                            lemma_coins_moved_props(w1, o.sender, o.intermediary.0,
                                o.intermediary.1);
                            match coins_moved(w1, o.sender, o.intermediary.0, o.intermediary.1) {
                                Some(w1c) => match tp_fees(
                                    l.assets,
                                    o.sender_assets + o.recipient_assets,
                                ) {
                                    Ok(list) => {
                                        lemma_intermediary_tax_phase(w1c, o, st, list);
                                        match tax_phase(w1c, o, st, list) {
                                            Some(w2) => {
                                                lemma_swap_phase_props(w2, o.sender,
                                                    o.sender_assets, o.sender_value, o.recipient,
                                                    o.recipient_assets, o.recipient_value);
                                            },
                                            None => {},
                                        }
                                    },
                                    Err(_) => {},
                                },
                                None => {},
                            }
                        },
                        None => {},
                    }
                },
                None => {},
            }
        },
        TransactionV::TradeIntermediary(t) => {
            let o = t.offer;
            match strategy_of(o.fee_strategy) {
                Some(st) => {
                    lemma_trade_fee_phase(l.wallets, t, st, cfg.genesis_wallet@, cfg.fees.trade);
                    match trade_fee_phase(l.wallets, t, st, cfg.genesis_wallet@, cfg.fees.trade) {
                        Some(w1) => {
                            lemma_coins_moved_props(w1, o.seller, o.intermediary.0,
                                o.intermediary.1);
                            match coins_moved(w1, o.seller, o.intermediary.0, o.intermediary.1) {
                                Some(w1c) => match tp_fees(l.assets, trade_bundles(o.assets)) {
                                    Ok(list) => {
                                        lemma_trade_tax_phase(w1c, t, st, list);
                                        match trade_tax_phase(w1c, t, st, list) {
                                            Some(w2) => {
                                                lemma_coins_moved_props(w2, t.buyer, o.seller,
                                                    o.price);
                                                match coins_moved(w2, t.buyer, o.seller, o.price) {
                                                    Some(w3) => {
                                                        lemma_amove_pre(w3, o.seller, t.buyer);
                                                        lemma_assets_moved_props(w3, o.seller,
                                                            t.buyer, trade_bundles(o.assets));
                                                    },
                                                    None => {},
                                                }
                                            },
                                            None => {},
                                        }
                                    },
                                    Err(_) => {},
                                },
                                None => {},
                            }
                        },
                        None => {},
                    }
                },
                None => {},
            }
        },
        TransactionV::AddAssets(t) => {
            if issue_units(t.metas) * cfg.fees.add_assets_per_entry <= u64::MAX {
                lemma_coins_moved_props(l.wallets, t.pub_key, cfg.genesis_wallet@,
                    cfg.fees.add_assets);
                match coins_moved(l.wallets, t.pub_key, cfg.genesis_wallet@, cfg.fees.add_assets) {
                    Some(w1) => {
                        let cost = (issue_units(t.metas) * cfg.fees.add_assets_per_entry) as u64;
                        lemma_coins_moved_props(w1, t.pub_key, cfg.genesis_wallet@, cost);
                        match coins_moved(w1, t.pub_key, cfg.genesis_wallet@, cost) {
                            Some(w2) => {
                                lemma_issue_all_props(w2, l.assets, t.pub_key, t.metas);
                            },
                            None => {},
                        }
                    },
                    None => {},
                }
            }
        },
        TransactionV::DeleteAssets(t) => {
            lemma_coins_moved_props(l.wallets, t.pub_key, cfg.genesis_wallet@,
                cfg.fees.del_assets);
            match coins_moved(l.wallets, t.pub_key, cfg.genesis_wallet@, cfg.fees.del_assets) {
                Some(w1) => {
                    lemma_retire_all_props(w1, l.assets, t.pub_key, t.assets);
                },
                None => {},
            }
        },
        TransactionV::CreateWallet(t) => {
            let seeded = WalletV { balance: cfg.initial_balance, assets: Seq::empty() };
            assert(keys_distinct(seeded.assets)) by {
                assert(seeded.assets.len() == 0);
            }
            lemma_wallets_ok_put(l.wallets, t.pub_key, seeded);
            lemma_sum_bal_put(l.wallets, t.pub_key, seeded);
            assert forall|id: Seq<u8>| #[trigger] sum_hold(
                create_wallet_apply(t, l, cfg),
                id,
            ) <= sum_hold(l.wallets, id) by {
                lemma_sum_hold_put(l.wallets, t.pub_key, seeded, id);
                assert(hold(seeded, id) == 0);
            }
            assert forall|id: Seq<u8>| #[trigger] sum_hold(
                apply_tx(TransactionV::CreateWallet(t), l, cfg).wallets,
                id,
            ) <= reg_amount(apply_tx(TransactionV::CreateWallet(t), l, cfg).assets, id) by {
                lemma_sum_hold_put(l.wallets, t.pub_key, seeded, id);
                assert(hold(seeded, id) == 0);
                assert(sum_hold(l.wallets, id) <= reg_amount(l.assets, id));
            }
        },
        TransactionV::Mining(t) => {
            let w = fetched(l.wallets, t.pub_key);
            let credited = WalletV {
                balance: (w.balance + cfg.mining_reward) as u64,
                assets: w.assets,
            };
            crate::ledger::lemma_fetched_wf(l.wallets, t.pub_key);
            crate::ledger::lemma_sum_bal_single(l.wallets, t.pub_key);
            lemma_wallets_ok_put(l.wallets, t.pub_key, credited);
            lemma_sum_bal_put(l.wallets, t.pub_key, credited);
            assert forall|id: Seq<u8>| #[trigger] sum_hold(
                apply_tx(TransactionV::Mining(t), l, cfg).wallets,
                id,
            ) - sum_hold(l.wallets, id) == reg_amount(
                apply_tx(TransactionV::Mining(t), l, cfg).assets,
                id,
            ) - reg_amount(l.assets, id) by {
                lemma_sum_hold_put(l.wallets, t.pub_key, credited, id);
            }
        },
    }
}

/// The flat-fee phase of a plain exchange preserves shape and totals.
proof fn lemma_exchange_fee_phase(
    w: Seq<(Seq<u8>, WalletV)>,
    o: crate::transactions::exchange::ExchangeOfferV,
    st: FeeStrategy,
    genesis: Seq<u8>,
    fee: u64,
)
    requires
        wallets_ok(w),
        sum_bal(w) <= u64::MAX,
    ensures
        match exchange_fee_phase(w, o, st, genesis, fee) {
            Some(w1) => {
                &&& wallets_ok(w1)
                &&& sum_bal(w1) == sum_bal(w)
                &&& forall|id: Seq<u8>| #[trigger] sum_hold(w1, id) == sum_hold(w, id)
            },
            None => true,
        },
{
    match st {
        FeeStrategy::Recipient => {
            lemma_coins_moved_props(w, o.recipient, genesis, fee);
        },
        FeeStrategy::Sender => {
            lemma_coins_moved_props(w, o.sender, genesis, fee);
        },
        FeeStrategy::SenderAndRecipient => {
            lemma_coins_moved_props(w, o.recipient, genesis, fee / 2);
            match coins_moved(w, o.recipient, genesis, fee / 2) {
                Some(wa) => {
                    lemma_coins_moved_props(wa, o.sender, genesis, (fee - fee / 2) as u64);
                },
                None => {},
            }
        },
        FeeStrategy::Intermediary => {},
    }
}

/// The tax phase of a plain exchange preserves shape and totals.
proof fn lemma_exchange_tax_phase(
    w: Seq<(Seq<u8>, WalletV)>,
    o: crate::transactions::exchange::ExchangeOfferV,
    st: FeeStrategy,
    list: Seq<(Seq<u8>, u64)>,
)
    requires
        wallets_ok(w),
        sum_bal(w) <= u64::MAX,
    ensures
        match exchange_tax_phase(w, o, st, list) {
            Some(w2) => {
                &&& wallets_ok(w2)
                &&& sum_bal(w2) == sum_bal(w)
                &&& forall|id: Seq<u8>| #[trigger] sum_hold(w2, id) == sum_hold(w, id)
            },
            None => true,
        },
{
    match st {
        FeeStrategy::Recipient => {
            lemma_pay_list_props(w, o.recipient, list);
        },
        FeeStrategy::Sender => {
            lemma_pay_list_props(w, o.sender, list);
        },
        FeeStrategy::SenderAndRecipient => {
            lemma_pay_list_props(w, o.recipient, half_payments(list));
            match pay_list(w, o.recipient, half_payments(list)) {
                Some(wa) => {
                    lemma_pay_list_props(wa, o.sender, rest_payments(list));
                },
                None => {},
            }
        },
        FeeStrategy::Intermediary => {},
    }
}

/// The flat-fee phase of a brokered exchange preserves shape and
/// totals.
proof fn lemma_intermediary_fee_phase(
    w: Seq<(Seq<u8>, WalletV)>,
    o: crate::transactions::exchange_intermediary::ExchangeOfferIntermediaryV,
    st: FeeStrategy,
    genesis: Seq<u8>,
    fee: u64,
)
    requires
        wallets_ok(w),
        sum_bal(w) <= u64::MAX,
    ensures
        match fee_phase(w, o, st, genesis, fee) {
            Some(w1) => {
                &&& wallets_ok(w1)
                &&& sum_bal(w1) == sum_bal(w)
                &&& forall|id: Seq<u8>| #[trigger] sum_hold(w1, id) == sum_hold(w, id)
            },
            None => true,
        },
{
    match st {
        FeeStrategy::Recipient => {
            lemma_coins_moved_props(w, o.recipient, genesis, fee);
        },
        FeeStrategy::Sender => {
            lemma_coins_moved_props(w, o.sender, genesis, fee);
        },
        FeeStrategy::SenderAndRecipient => {
            lemma_coins_moved_props(w, o.recipient, genesis, fee / 2);
            match coins_moved(w, o.recipient, genesis, fee / 2) {
                Some(wa) => {
                    lemma_coins_moved_props(wa, o.sender, genesis, (fee - fee / 2) as u64);
                },
                None => {},
            }
        },
        FeeStrategy::Intermediary => {
            lemma_coins_moved_props(w, o.intermediary.0, genesis, fee);
        },
    }
}

/// The tax phase of a brokered exchange preserves shape and totals.
proof fn lemma_intermediary_tax_phase(
    w: Seq<(Seq<u8>, WalletV)>,
    o: crate::transactions::exchange_intermediary::ExchangeOfferIntermediaryV,
    st: FeeStrategy,
    list: Seq<(Seq<u8>, u64)>,
)
    requires
        wallets_ok(w),
        sum_bal(w) <= u64::MAX,
    ensures
        match tax_phase(w, o, st, list) {
            Some(w2) => {
                &&& wallets_ok(w2)
                &&& sum_bal(w2) == sum_bal(w)
                &&& forall|id: Seq<u8>| #[trigger] sum_hold(w2, id) == sum_hold(w, id)
            },
            None => true,
        },
{
    match st {
        FeeStrategy::Recipient => {
            lemma_pay_list_props(w, o.recipient, list);
        },
        FeeStrategy::Sender => {
            lemma_pay_list_props(w, o.sender, list);
        },
        FeeStrategy::SenderAndRecipient => {
            lemma_pay_list_props(w, o.recipient, half_payments(list));
            match pay_list(w, o.recipient, half_payments(list)) {
                Some(wa) => {
                    lemma_pay_list_props(wa, o.sender, rest_payments(list));
                },
                None => {},
            }
        },
        FeeStrategy::Intermediary => {
            lemma_pay_list_props(w, o.intermediary.0, list);
        },
    }
}

/// The flat-fee phase of a brokered trade preserves shape and totals.
proof fn lemma_trade_fee_phase(
    w: Seq<(Seq<u8>, WalletV)>,
    t: crate::transactions::trade_intermediary::TradeIntermediaryV,
    st: FeeStrategy,
    genesis: Seq<u8>,
    fee: u64,
)
    requires
        wallets_ok(w),
        sum_bal(w) <= u64::MAX,
    ensures
        match trade_fee_phase(w, t, st, genesis, fee) {
            Some(w1) => {
                &&& wallets_ok(w1)
                &&& sum_bal(w1) == sum_bal(w)
                &&& forall|id: Seq<u8>| #[trigger] sum_hold(w1, id) == sum_hold(w, id)
            },
            None => true,
        },
{
    match st {
        FeeStrategy::Recipient => {
            lemma_coins_moved_props(w, t.buyer, genesis, fee);
        },
        FeeStrategy::Sender => {
            lemma_coins_moved_props(w, t.offer.seller, genesis, fee);
        },
        FeeStrategy::SenderAndRecipient => {
            lemma_coins_moved_props(w, t.buyer, genesis, fee / 2);
            match coins_moved(w, t.buyer, genesis, fee / 2) {
                Some(wa) => {
                    lemma_coins_moved_props(wa, t.offer.seller, genesis, (fee - fee / 2) as u64);
                },
                None => {},
            }
        },
        FeeStrategy::Intermediary => {
            lemma_coins_moved_props(w, t.offer.intermediary.0, genesis, fee);
        },
    }
}

/// The tax phase of a brokered trade preserves shape and totals.
proof fn lemma_trade_tax_phase(
    w: Seq<(Seq<u8>, WalletV)>,
    t: crate::transactions::trade_intermediary::TradeIntermediaryV,
    st: FeeStrategy,
    list: Seq<(Seq<u8>, u64)>,
)
    requires
        wallets_ok(w),
        sum_bal(w) <= u64::MAX,
    ensures
        match trade_tax_phase(w, t, st, list) {
            Some(w2) => {
                &&& wallets_ok(w2)
                &&& sum_bal(w2) == sum_bal(w)
                &&& forall|id: Seq<u8>| #[trigger] sum_hold(w2, id) == sum_hold(w, id)
            },
            None => true,
        },
{
    match st {
        FeeStrategy::Recipient => {
            lemma_pay_list_props(w, t.buyer, list);
        },
        FeeStrategy::Sender => {
            lemma_pay_list_props(w, t.offer.seller, list);
        },
        FeeStrategy::SenderAndRecipient => {
            lemma_pay_list_props(w, t.buyer, half_payments(list));
            match pay_list(w, t.buyer, half_payments(list)) {
                Some(wa) => {
                    lemma_pay_list_props(wa, t.offer.seller, rest_payments(list));
                },
                None => {},
            }
        },
        FeeStrategy::Intermediary => {
            lemma_pay_list_props(w, t.offer.intermediary.0, list);
        },
    }
}

/// Conservation of asset totals: on a consistent ledger — registry
/// circulation equal to the holdings across all wallets, for every
/// asset — any transaction that is not a `CreateWallet` overwrite of a
/// wallet still holding assets leaves the ledger consistent.
pub proof fn lemma_tx_preserves_asset_totals(t: TransactionV, l: LedgerV, cfg: Configuration)
    requires
        ledger_wf(l),
        tx_requires(t, l, cfg),
        registry_consistent(l),
        t matches TransactionV::CreateWallet(c) ==> fetched(l.wallets, c.pub_key).assets.len()
            == 0,
    ensures
        registry_consistent(apply_tx(t, l, cfg)),
{
    lemma_tx_conserves(t, l, cfg);
    match t {
        TransactionV::CreateWallet(c) => {
            let seeded = WalletV { balance: cfg.initial_balance, assets: Seq::empty() };
            assert forall|id: Seq<u8>| #[trigger] sum_hold(
                apply_tx(t, l, cfg).wallets,
                id,
            ) == reg_amount(apply_tx(t, l, cfg).assets, id) by {
                lemma_sum_hold_put(l.wallets, c.pub_key, seeded, id);
                assert(hold(seeded, id) == 0);
                assert(hold(fetched(l.wallets, c.pub_key), id) == 0);
                assert(sum_hold(l.wallets, id) == reg_amount(l.assets, id));
            }
        },
        _ => {
            assert forall|id: Seq<u8>| #[trigger] sum_hold(
                apply_tx(t, l, cfg).wallets,
                id,
            ) == reg_amount(apply_tx(t, l, cfg).assets, id) by {
                assert(sum_hold(apply_tx(t, l, cfg).wallets, id) - sum_hold(l.wallets, id)
                    == reg_amount(apply_tx(t, l, cfg).assets, id) - reg_amount(l.assets, id));
                assert(sum_hold(l.wallets, id) == reg_amount(l.assets, id));
            }
        },
    }
}

/// The state after replaying a sequence of transactions in order.
pub open spec fn apply_all(txs: Seq<TransactionV>, l: LedgerV, cfg: Configuration) -> LedgerV
    decreases txs.len(),
{
    if txs.len() == 0 {
        l
    } else {
        apply_all(txs.drop_first(), apply_tx(txs.first(), l, cfg), cfg)
    }
}

/// Whether every step of a replay meets its machine-limit headroom at
/// the state it executes against.
pub open spec fn all_admissible(txs: Seq<TransactionV>, l: LedgerV, cfg: Configuration) -> bool
    decreases txs.len(),
{
    txs.len() == 0 || (tx_requires(txs.first(), l, cfg) && all_admissible(
        txs.drop_first(),
        apply_tx(txs.first(), l, cfg),
        cfg,
    ))
}

/// The coins a replay mints in total.
pub open spec fn total_issuance(txs: Seq<TransactionV>, l: LedgerV, cfg: Configuration) -> int
    decreases txs.len(),
{
    if txs.len() == 0 {
        0
    } else {
        coin_issuance(txs.first(), l, cfg) + total_issuance(
            txs.drop_first(),
            apply_tx(txs.first(), l, cfg),
            cfg,
        )
    }
}

/// Conservation over any sequence of transactions: replaying it on a
/// well-formed ledger leaves a well-formed ledger whose balance total
/// is the original total plus exactly the minted coins — no coin is
/// destroyed and none appears outside emission.
pub proof fn lemma_replay_conserves(txs: Seq<TransactionV>, l: LedgerV, cfg: Configuration)
    requires
        ledger_wf(l),
        all_admissible(txs, l, cfg),
    ensures
        ledger_wf(apply_all(txs, l, cfg)),
        sum_bal(apply_all(txs, l, cfg).wallets) == sum_bal(l.wallets) + total_issuance(
            txs,
            l,
            cfg,
        ),
    decreases txs.len(),
{
    if txs.len() > 0 {
        lemma_tx_conserves(txs.first(), l, cfg);
        lemma_replay_conserves(txs.drop_first(), apply_tx(txs.first(), l, cfg), cfg);
    }
}

} // verus!
