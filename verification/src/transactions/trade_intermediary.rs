//! TradeIntermediary: a trade brokered by a third signing party who
//! earns a commission and may bear the fees under the intermediary
//! strategy.
//!
//! The intermediary's signature covers the full offer, the other two
//! parties' identities included.  For the fee strategy, the buyer
//! stands as the recipient and the seller as the sender.

use vstd::prelude::*;

use crate::assets::TradeAsset;
use crate::assoc::sput;
use crate::config::Configuration;
use crate::crypto::{ed25519_sig_of, ed25519_valid, sha256, sha256_of, sign, verify_signature};
use crate::encode::{push_key, push_slice, push_u64, u64_le};
use crate::error::{Error, TxStatus};
use crate::fees::{collect_payments, half_of, half_payments, pay_list, rest_of, rest_payments,
    strategy_of, third_party_fees, tp_fees, FeeStrategy};
use crate::keys::{PublicKey, SecretKey};
use crate::ledger::{assets_moved, coins_moved, lemma_amove_pre, lemma_assets_moved_props,
    lemma_coins_moved_props, lemma_move_pre, sum_hold, Ledger, LedgerV};
use crate::stores::reg_amount;
use crate::transactions::exchange_intermediary::Intermediary;
use crate::transactions::trade::{trade_bundles, trade_items_bytes};
use crate::transactions::transfer::record;
use crate::wallet::WalletV;

verus! {

/// The tag separating brokered-trade bytes from every other kind's.
pub const TRADE_INTERMEDIARY_TAG: u8 = 9;

/// A brokered seller's offer: amounts of assets at an asking price,
/// with the brokering party and the fee strategy bound in.
#[derive(Debug)]
pub struct TradeOfferIntermediary {
    intermediary: Intermediary,
    seller: PublicKey,
    assets: Vec<TradeAsset>,
    price: u64,
    fee_strategy: u8,
}

/// The mathematical value of a brokered trade offer.
pub ghost struct TradeOfferIntermediaryV {
    pub intermediary: (Seq<u8>, u64),
    pub seller: Seq<u8>,
    pub assets: Seq<(Seq<u8>, u64, u64)>,
    pub price: u64,
    pub fee_strategy: u8,
}

impl View for TradeOfferIntermediary {
    type V = TradeOfferIntermediaryV;

    closed spec fn view(&self) -> TradeOfferIntermediaryV {
        TradeOfferIntermediaryV {
            intermediary: self.intermediary@,
            seller: self.seller@,
            assets: self.assets@.map_values(|a: TradeAsset| a@),
            price: self.price,
            fee_strategy: self.fee_strategy,
        }
    }
}

/// The canonical bytes of a brokered trade offer, signed by the seller
/// and the intermediary.
pub open spec fn trade_offer_intermediary_bytes(o: TradeOfferIntermediaryV) -> Seq<u8> {
    o.intermediary.0 + u64_le(o.intermediary.1) + o.seller + u64_le(o.assets.len() as u64)
        + trade_items_bytes(o.assets) + u64_le(o.price) + seq![o.fee_strategy]
}

impl TradeOfferIntermediary {
    /// Assemble an offer.
    pub fn new(
        intermediary: Intermediary,
        seller: &PublicKey,
        assets: Vec<TradeAsset>,
        price: u64,
        fee_strategy: u8,
    ) -> (r: TradeOfferIntermediary)
        ensures
            r@ == (TradeOfferIntermediaryV {
                intermediary: intermediary@,
                seller: seller@,
                assets: assets@.map_values(|a: TradeAsset| a@),
                price: price,
                fee_strategy: fee_strategy,
            }),
    {
        TradeOfferIntermediary { intermediary, seller: *seller, assets, price, fee_strategy }
    }

    /// The brokering party.
    pub fn intermediary(&self) -> (r: &Intermediary)
        ensures
            r@ == self@.intermediary,
    {
        &self.intermediary
    }

    /// The selling party.
    pub fn seller(&self) -> (r: &PublicKey)
        ensures
            r@ == self@.seller,
    {
        &self.seller
    }

    /// The asking price for the whole offer.
    pub fn price(&self) -> (r: u64)
        ensures
            r == self@.price,
    {
        self.price
    }

    /// The wire value of the fee strategy.
    pub fn fee_strategy(&self) -> (r: u8)
        ensures
            r == self@.fee_strategy,
    {
        self.fee_strategy
    }

    /// The canonical offer bytes.
    #[verifier::loop_isolation(false)]
    pub fn to_bytes(&self) -> (r: Vec<u8>)
        ensures
            r@ == trade_offer_intermediary_bytes(self@),
    {
        let ghost items = self@.assets;
        let mut v: Vec<u8> = Vec::new();
        push_key(&mut v, self.intermediary.wallet());
        push_u64(&mut v, self.intermediary.commission());
        push_key(&mut v, &self.seller);
        push_u64(&mut v, self.assets.len() as u64);
        let ghost base = v@;
        assert(trade_items_bytes(items.take(0)) =~= Seq::<u8>::empty());
        assert(v@ =~= base + trade_items_bytes(items.take(0)));
        let mut i: usize = 0;
        while i < self.assets.len()
            invariant
                i <= self.assets@.len(),
                v@ =~= base + trade_items_bytes(items.take(i as int)),
            decreases self.assets@.len() - i,
        {
            let a = self.assets[i];
            push_slice(&mut v, a.id().as_bytes());
            push_u64(&mut v, a.amount());
            push_u64(&mut v, a.price());
            proof {
                assert(items.take(i + 1).drop_last() =~= items.take(i as int));
                assert(items.take(i + 1).last() == a@);
            }
            assert(v@ =~= base + trade_items_bytes(items.take(i + 1)));
            i = i + 1;
        }
        assert(items.take(items.len() as int) =~= items);
        push_u64(&mut v, self.price);
        v.push(self.fee_strategy);
        assert(v@ =~= trade_offer_intermediary_bytes(self@));
        v
    }

    /// The offered amounts as plain bundles.
    #[verifier::loop_isolation(false)]
    pub fn bundles(&self) -> (r: Vec<crate::assets::AssetBundle>)
        ensures
            crate::assets::bundles_view(r@) == trade_bundles(self@.assets),
    {
        let mut out: Vec<crate::assets::AssetBundle> = Vec::new();
        let mut i: usize = 0;
        while i < self.assets.len()
            invariant
                i <= self.assets@.len(),
                crate::assets::bundles_view(out@) =~= trade_bundles(self@.assets).take(i as int),
            decreases self.assets@.len() - i,
        {
            let a = self.assets[i];
            out.push(crate::assets::AssetBundle::new(a.id(), a.amount()));
            assert(crate::assets::bundles_view(out@) =~= trade_bundles(self@.assets).take(i + 1));
            i = i + 1;
        }
        assert(crate::assets::bundles_view(out@) =~= trade_bundles(self@.assets));
        out
    }
}

/// A brokered trade: the buyer, the offer signed by the seller and the
/// intermediary, and the seller's signature over the whole message.
#[derive(Debug)]
pub struct TradeIntermediary {
    buyer: PublicKey,
    offer: TradeOfferIntermediary,
    seed: u64,
    seller_signature: [u8; 64],
    intermediary_signature: [u8; 64],
    signature: [u8; 64],
}

/// The mathematical value of a brokered trade.
pub ghost struct TradeIntermediaryV {
    pub buyer: Seq<u8>,
    pub offer: TradeOfferIntermediaryV,
    pub seed: u64,
    pub seller_signature: Seq<u8>,
    pub intermediary_signature: Seq<u8>,
    pub signature: Seq<u8>,
}

impl View for TradeIntermediary {
    type V = TradeIntermediaryV;

    closed spec fn view(&self) -> TradeIntermediaryV {
        TradeIntermediaryV {
            buyer: self.buyer@,
            offer: self.offer@,
            seed: self.seed,
            seller_signature: self.seller_signature@,
            intermediary_signature: self.intermediary_signature@,
            signature: self.signature@,
        }
    }
}

/// The canonical bytes of the whole brokered trade message.
pub open spec fn trade_intermediary_signed_bytes(t: TradeIntermediaryV) -> Seq<u8> {
    seq![TRADE_INTERMEDIARY_TAG] + t.buyer + trade_offer_intermediary_bytes(t.offer) + u64_le(
        t.seed,
    ) + t.seller_signature + t.intermediary_signature
}

/// The transaction hash that keys the status record.
pub open spec fn trade_intermediary_hash(t: TradeIntermediaryV) -> Seq<u8> {
    sha256_of(trade_intermediary_signed_bytes(t))
}

/// Validity: three pairwise-distinct parties, a known fee strategy,
/// positive amounts, and all three signatures, the seller's and the
/// intermediary's over the full offer.
pub open spec fn trade_intermediary_valid(t: TradeIntermediaryV) -> bool {
    &&& t.buyer != t.offer.seller
    &&& t.offer.intermediary.0 != t.buyer
    &&& t.offer.intermediary.0 != t.offer.seller
    &&& strategy_of(t.offer.fee_strategy) is Some
    &&& forall|i: int| 0 <= i < t.offer.assets.len() ==> (#[trigger] t.offer.assets[i]).1 > 0
    &&& ed25519_valid(
        t.offer.seller,
        trade_offer_intermediary_bytes(t.offer),
        t.seller_signature,
    )
    &&& ed25519_valid(
        t.offer.intermediary.0,
        trade_offer_intermediary_bytes(t.offer),
        t.intermediary_signature,
    )
    &&& ed25519_valid(t.offer.seller, trade_intermediary_signed_bytes(t), t.signature)
}

/// The flat-fee phase of a brokered trade: the buyer stands as the
/// recipient, the seller as the sender.
pub open spec fn trade_fee_phase(
    w: Seq<(Seq<u8>, WalletV)>,
    t: TradeIntermediaryV,
    st: FeeStrategy,
    genesis: Seq<u8>,
    fee: u64,
) -> Option<Seq<(Seq<u8>, WalletV)>> {
    match st {
        FeeStrategy::Recipient => coins_moved(w, t.buyer, genesis, fee),
        FeeStrategy::Sender => coins_moved(w, t.offer.seller, genesis, fee),
        FeeStrategy::SenderAndRecipient => match coins_moved(w, t.buyer, genesis, fee / 2) {
            None => None,
            Some(wa) => coins_moved(wa, t.offer.seller, genesis, (fee - fee / 2) as u64),
        },
        FeeStrategy::Intermediary => coins_moved(w, t.offer.intermediary.0, genesis, fee),
    }
}

/// The tax phase of a brokered trade.
pub open spec fn trade_tax_phase(
    w: Seq<(Seq<u8>, WalletV)>,
    t: TradeIntermediaryV,
    st: FeeStrategy,
    list: Seq<(Seq<u8>, u64)>,
) -> Option<Seq<(Seq<u8>, WalletV)>> {
    match st {
        FeeStrategy::Recipient => pay_list(w, t.buyer, list),
        FeeStrategy::Sender => pay_list(w, t.offer.seller, list),
        FeeStrategy::SenderAndRecipient => match pay_list(w, t.buyer, half_payments(list)) {
            None => None,
            Some(wa) => pay_list(wa, t.offer.seller, rest_payments(list)),
        },
        FeeStrategy::Intermediary => pay_list(w, t.offer.intermediary.0, list),
    }
}

/// The wallet store after a brokered trade's fee, commission, tax,
/// price and asset steps, or the error of the first step that fails.
/// The seller pays the intermediary's commission right after the flat
/// fee.
pub open spec fn trade_intermediary_apply(
    t: TradeIntermediaryV,
    l: LedgerV,
    cfg: Configuration,
) -> Result<Seq<(Seq<u8>, WalletV)>, Error> {
    let o = t.offer;
    match strategy_of(o.fee_strategy) {
        None => Err(Error::InvalidTransaction),
        Some(st) => match trade_fee_phase(l.wallets, t, st, cfg.genesis_wallet@, cfg.fees.trade) {
            None => Err(Error::InsufficientFunds),
            Some(w1) => match coins_moved(w1, o.seller, o.intermediary.0, o.intermediary.1) {
                None => Err(Error::InsufficientFunds),
                Some(w1c) => match tp_fees(l.assets, trade_bundles(o.assets)) {
                    Err(e) => Err(e),
                    Ok(list) => match trade_tax_phase(w1c, t, st, list) {
                        None => Err(Error::InsufficientFunds),
                        Some(w2) => match coins_moved(w2, t.buyer, o.seller, o.price) {
                            None => Err(Error::InsufficientFunds),
                            Some(w3) => match assets_moved(
                                w3,
                                o.seller,
                                t.buyer,
                                trade_bundles(o.assets),
                            ) {
                                None => Err(Error::InsufficientAssets),
                                Some(w4) => Ok(w4),
                            },
                        },
                    },
                },
            },
        },
    }
}

/// What executing a brokered trade leaves behind.
pub open spec fn trade_intermediary_execute_spec(
    t: TradeIntermediaryV,
    l: LedgerV,
    cfg: Configuration,
) -> LedgerV {
    match trade_intermediary_apply(t, l, cfg) {
        Ok(w) => LedgerV {
            wallets: w,
            assets: l.assets,
            statuses: sput(l.statuses, trade_intermediary_hash(t), TxStatus::Success),
        },
        Err(e) => LedgerV {
            wallets: l.wallets,
            assets: l.assets,
            statuses: sput(l.statuses, trade_intermediary_hash(t), TxStatus::Fail(e)),
        },
    }
}

impl TradeIntermediary {
    /// Assemble a brokered trade from an offer already signed by the
    /// seller and the intermediary, and sign the whole message.
    pub fn new(
        buyer: &PublicKey,
        offer: TradeOfferIntermediary,
        seed: u64,
        seller_signature: &[u8; 64],
        intermediary_signature: &[u8; 64],
        secret: &SecretKey,
    ) -> (r: TradeIntermediary)
        ensures
            r@.buyer == buyer@,
            r@.offer == offer@,
            r@.seed == seed,
            r@.seller_signature == seller_signature@,
            r@.intermediary_signature == intermediary_signature@,
            r@.signature == ed25519_sig_of(secret@, trade_intermediary_signed_bytes(r@)),
    {
        let mut tx = TradeIntermediary {
            buyer: *buyer,
            offer,
            seed,
            seller_signature: *seller_signature,
            intermediary_signature: *intermediary_signature,
            signature: [0u8; 64],
        };
        let msg = tx.signed_bytes();
        tx.signature = sign(secret, &msg);
        tx
    }

    /// The buying party.
    pub fn buyer(&self) -> (r: &PublicKey)
        ensures
            r@ == self@.buyer,
    {
        &self.buyer
    }

    /// The offer.
    pub fn offer(&self) -> (r: &TradeOfferIntermediary)
        ensures
            r@ == self@.offer,
    {
        &self.offer
    }

    /// Get raw bytes of the offer.
    pub fn offer_raw(&self) -> (r: Vec<u8>)
        ensures
            r@ == trade_offer_intermediary_bytes(self@.offer),
    {
        self.offer.to_bytes()
    }

    /// The canonical bytes of the whole brokered trade message.
    pub fn signed_bytes(&self) -> (r: Vec<u8>)
        ensures
            r@ == trade_intermediary_signed_bytes(self@),
    {
        let mut v: Vec<u8> = Vec::new();
        v.push(TRADE_INTERMEDIARY_TAG);
        assert(v@ =~= seq![TRADE_INTERMEDIARY_TAG]);
        push_key(&mut v, &self.buyer);
        let offer = self.offer.to_bytes();
        push_slice(&mut v, offer.as_slice());
        push_u64(&mut v, self.seed);
        push_slice(&mut v, self.seller_signature.as_slice());
        push_slice(&mut v, self.intermediary_signature.as_slice());
        assert(v@ =~= trade_intermediary_signed_bytes(self@));
        v
    }

    /// The transaction hash that keys the status record.
    pub fn hash(&self) -> (r: Vec<u8>)
        ensures
            r@ == trade_intermediary_hash(self@),
    {
        let bytes = self.signed_bytes();
        sha256(&bytes)
    }

    /// Stateless validity: structure and all three signatures.
    #[verifier::loop_isolation(false)]
    pub fn verify(&self) -> (r: bool)
        ensures
            r == trade_intermediary_valid(self@),
    {
        if self.buyer.equals(self.offer.seller()) {
            return false;
        }
        if self.offer.intermediary().wallet().equals(&self.buyer) {
            return false;
        }
        if self.offer.intermediary().wallet().equals(self.offer.seller()) {
            return false;
        }
        if FeeStrategy::try_from(self.offer.fee_strategy()).is_none() {
            return false;
        }
        let mut i: usize = 0;
        while i < self.offer.assets.len()
            invariant
                i <= self.offer.assets@.len(),
                forall|j: int| 0 <= j < i ==> (#[trigger] self@.offer.assets[j]).1 > 0,
            decreases self.offer.assets@.len() - i,
        {
            if self.offer.assets[i].amount() == 0 {
                assert(self@.offer.assets[i as int].1 == 0);
                return false;
            }
            i = i + 1;
        }
        let offer_raw = self.offer.to_bytes();
        if !verify_signature(self.offer.seller(), &offer_raw, &self.seller_signature) {
            return false;
        }
        if !verify_signature(
            self.offer.intermediary().wallet(),
            &offer_raw,
            &self.intermediary_signature,
        ) {
            return false;
        }
        let msg = self.signed_bytes();
        verify_signature(self.offer.seller(), &msg, &self.signature)
    }

    /// Apply the brokered trade's fee, commission, tax, price and
    /// asset steps against the fork, committing only when every step
    /// succeeds.
    #[verifier::loop_isolation(false)]
    #[verifier::rlimit(100)]
    pub fn process(&self, l: &mut Ledger, cfg: &Configuration) -> (r: Result<(), Error>)
        requires
            old(l).wf(),
        ensures
            match r {
                Ok(_) => trade_intermediary_apply(self@, old(l)@, *cfg) == Ok::<_, Error>(
                    final(l)@.wallets,
                ) && final(l)@.assets == old(l)@.assets && final(l)@.statuses == old(
                    l,
                )@.statuses && final(l).wf(),
                Err(e) => trade_intermediary_apply(self@, old(l)@, *cfg) == Err::<
                    Seq<(Seq<u8>, WalletV)>,
                    _,
                >(e) && *final(l) == *old(l),
            },
    {
        let ghost t = self@;
        let ghost o = self@.offer;
        let ghost w0 = old(l)@.wallets;
        proof {
            assert forall|id: Seq<u8>| #[trigger] sum_hold(w0, id) <= u64::MAX by {
                assert(sum_hold(w0, id) <= reg_amount(old(l)@.assets, id));
            }
        }
        let st = match FeeStrategy::try_from(self.offer.fee_strategy()) {
            Some(st) => st,
            None => {
                return Err(Error::InvalidTransaction);
            },
        };
        let fee = cfg.fees.trade;
        let mut ws = l.wallets.duplicate();

        match st {
            FeeStrategy::Recipient => {
                proof {
                    lemma_move_pre(w0, t.buyer, cfg.genesis_wallet@, fee);
                }
                match ws.move_coins_between(&self.buyer, &cfg.genesis_wallet, fee) {
                    Ok(()) => {},
                    Err(e) => {
                        return Err(e);
                    },
                }
                proof {
                    lemma_coins_moved_props(w0, t.buyer, cfg.genesis_wallet@, fee);
                }
            },
            FeeStrategy::Sender => {
                proof {
                    lemma_move_pre(w0, o.seller, cfg.genesis_wallet@, fee);
                }
                match ws.move_coins_between(self.offer.seller(), &cfg.genesis_wallet, fee) {
                    Ok(()) => {},
                    Err(e) => {
                        return Err(e);
                    },
                }
                proof {
                    lemma_coins_moved_props(w0, o.seller, cfg.genesis_wallet@, fee);
                }
            },
            FeeStrategy::SenderAndRecipient => {
                proof {
                    lemma_move_pre(w0, t.buyer, cfg.genesis_wallet@, fee / 2);
                }
                match ws.move_coins_between(&self.buyer, &cfg.genesis_wallet, fee / 2) {
                    Ok(()) => {},
                    Err(e) => {
                        return Err(e);
                    },
                }
                proof {
                    lemma_coins_moved_props(w0, t.buyer, cfg.genesis_wallet@, fee / 2);
                }
                let ghost wa = ws@;
                proof {
                    lemma_move_pre(wa, o.seller, cfg.genesis_wallet@, (fee - fee / 2) as u64);
                }
                match ws.move_coins_between(
                    self.offer.seller(),
                    &cfg.genesis_wallet,
                    fee - fee / 2,
                ) {
                    Ok(()) => {},
                    Err(e) => {
                        return Err(e);
                    },
                }
                proof {
                    lemma_coins_moved_props(wa, o.seller, cfg.genesis_wallet@, (fee - fee
                        / 2) as u64);
                }
            },
            FeeStrategy::Intermediary => {
                proof {
                    lemma_move_pre(w0, o.intermediary.0, cfg.genesis_wallet@, fee);
                }
                match ws.move_coins_between(
                    self.offer.intermediary().wallet(),
                    &cfg.genesis_wallet,
                    fee,
                ) {
                    Ok(()) => {},
                    Err(e) => {
                        return Err(e);
                    },
                }
                proof {
                    lemma_coins_moved_props(w0, o.intermediary.0, cfg.genesis_wallet@, fee);
                }
            },
        }
        let ghost w1 = ws@;
        assert(trade_fee_phase(w0, t, st, cfg.genesis_wallet@, fee) == Some(w1));

        proof {
            lemma_move_pre(w1, o.seller, o.intermediary.0, o.intermediary.1);
        }
        match ws.move_coins_between(
            self.offer.seller(),
            self.offer.intermediary().wallet(),
            self.offer.intermediary().commission(),
        ) {
            Ok(()) => {},
            Err(e) => {
                return Err(e);
            },
        }
        proof {
            lemma_coins_moved_props(w1, o.seller, o.intermediary.0, o.intermediary.1);
        }

        let bundles = self.offer.bundles();
        let list = match third_party_fees(&l.assets, &bundles) {
            Ok(list) => list,
            Err(e) => {
                return Err(e);
            },
        };

        match st {
            FeeStrategy::Recipient => {
                match collect_payments(&mut ws, &self.buyer, &list) {
                    Ok(()) => {},
                    Err(e) => {
                        return Err(e);
                    },
                }
            },
            FeeStrategy::Sender => {
                match collect_payments(&mut ws, self.offer.seller(), &list) {
                    Ok(()) => {},
                    Err(e) => {
                        return Err(e);
                    },
                }
            },
            FeeStrategy::SenderAndRecipient => {
                let halves = half_of(&list);
                let rests = rest_of(&list);
                match collect_payments(&mut ws, &self.buyer, &halves) {
                    Ok(()) => {},
                    Err(e) => {
                        return Err(e);
                    },
                }
                match collect_payments(&mut ws, self.offer.seller(), &rests) {
                    Ok(()) => {},
                    Err(e) => {
                        return Err(e);
                    },
                }
            },
            FeeStrategy::Intermediary => {
                match collect_payments(&mut ws, self.offer.intermediary().wallet(), &list) {
                    Ok(()) => {},
                    Err(e) => {
                        return Err(e);
                    },
                }
            },
        }
        let ghost w2 = ws@;

        proof {
            lemma_move_pre(w2, t.buyer, o.seller, o.price);
        }
        match ws.move_coins_between(&self.buyer, self.offer.seller(), self.offer.price()) {
            Ok(()) => {},
            Err(e) => {
                return Err(e);
            },
        }
        proof {
            lemma_coins_moved_props(w2, t.buyer, o.seller, o.price);
        }

        let ghost w3 = ws@;
        proof {
            lemma_amove_pre(w3, o.seller, t.buyer);
        }
        match ws.move_assets_between(self.offer.seller(), &self.buyer, &bundles) {
            Ok(()) => {},
            Err(e) => {
                return Err(e);
            },
        }
        proof {
            lemma_assets_moved_props(w3, o.seller, t.buyer, trade_bundles(o.assets));
        }

        l.wallets = ws;
        Ok(())
    }

    /// Execute against a fork: apply everything or nothing, then record
    /// the outcome under the transaction's hash.
    pub fn execute(&self, l: &mut Ledger, cfg: &Configuration)
        requires
            old(l).wf(),
        ensures
            final(l)@ == trade_intermediary_execute_spec(self@, old(l)@, *cfg),
            final(l).wf(),
    {
        let h = self.hash();
        match self.process(l, cfg) {
            Ok(()) => {
                record(l, &h, TxStatus::Success);
            },
            Err(e) => {
                record(l, &h, TxStatus::Fail(e));
            },
        }
        assert(l@ == trade_intermediary_execute_spec(self@, old(l)@, *cfg));
        assert(l.wf());
    }
}

} // verus!
