//! Trade: a buyer purchases asset amounts from a seller at the offer's
//! asking price.
//!
//! The seller pays the flat fee and any third-party taxes, the buyer
//! pays the price to the seller, and the offered amounts move from the
//! seller to the buyer, all in one atomic step.

use vstd::prelude::*;

use crate::assets::{bundles_view, AssetBundle, TradeAsset};
use crate::assoc::sput;
use crate::config::Configuration;
use crate::crypto::{ed25519_sig_of, ed25519_valid, sha256, sha256_of, sign, verify_signature};
use crate::encode::{push_key, push_slice, push_u64, u64_le};
use crate::error::{Error, TxStatus};
use crate::fees::{collect_payments, pay_list, third_party_fees, tp_fees};
use crate::keys::{PublicKey, SecretKey};
use crate::ledger::{assets_moved, coins_moved, lemma_amove_pre, lemma_assets_moved_props,
    lemma_coins_moved_props, lemma_move_pre, sum_hold, Ledger, LedgerV};
use crate::stores::reg_amount;
use crate::transactions::transfer::record;
use crate::wallet::WalletV;

verus! {

/// The tag separating trade bytes from every other kind's.
pub const TRADE_TAG: u8 = 7;

/// A seller's offer: amounts of assets at an asking price.
#[derive(Debug)]
pub struct TradeOffer {
    seller: PublicKey,
    assets: Vec<TradeAsset>,
    price: u64,
}

/// The mathematical value of a trade offer.
pub ghost struct TradeOfferV {
    pub seller: Seq<u8>,
    pub assets: Seq<(Seq<u8>, u64, u64)>,
    pub price: u64,
}

impl View for TradeOffer {
    type V = TradeOfferV;

    closed spec fn view(&self) -> TradeOfferV {
        TradeOfferV {
            seller: self.seller@,
            assets: self.assets@.map_values(|a: TradeAsset| a@),
            price: self.price,
        }
    }
}

/// The bundles a trade moves: each offered asset with its amount.
pub open spec fn trade_bundles(s: Seq<(Seq<u8>, u64, u64)>) -> Seq<(Seq<u8>, u64)> {
    s.map_values(|a: (Seq<u8>, u64, u64)| (a.0, a.1))
}

/// The items of a trade-asset list: identifier, amount and price.
pub open spec fn trade_items_bytes(s: Seq<(Seq<u8>, u64, u64)>) -> Seq<u8>
    decreases s.len(),
{
    if s.len() == 0 {
        Seq::empty()
    } else {
        trade_items_bytes(s.drop_last()) + s.last().0 + u64_le(s.last().1) + u64_le(s.last().2)
    }
}

/// The canonical bytes of a trade offer, signed by the seller.
pub open spec fn trade_offer_bytes(o: TradeOfferV) -> Seq<u8> {
    o.seller + u64_le(o.assets.len() as u64) + trade_items_bytes(o.assets) + u64_le(o.price)
}

impl TradeOffer {
    /// Assemble an offer.
    pub fn new(seller: &PublicKey, assets: Vec<TradeAsset>, price: u64) -> (r: TradeOffer)
        ensures
            r@ == (TradeOfferV {
                seller: seller@,
                assets: assets@.map_values(|a: TradeAsset| a@),
                price: price,
            }),
    {
        TradeOffer { seller: *seller, assets, price }
    }

    /// The selling party.
    pub fn seller(&self) -> (r: &PublicKey)
        ensures
            r@ == self@.seller,
    {
        &self.seller
    }

    /// The asking price for the whole offer.
    pub fn price(&self) -> (r: u64)
        ensures
            r == self@.price,
    {
        self.price
    }

    /// The canonical offer bytes.
    #[verifier::loop_isolation(false)]
    pub fn to_bytes(&self) -> (r: Vec<u8>)
        ensures
            r@ == trade_offer_bytes(self@),
    {
        let ghost items = self@.assets;
        let mut v: Vec<u8> = Vec::new();
        push_key(&mut v, &self.seller);
        push_u64(&mut v, self.assets.len() as u64);
        let ghost base = v@;
        assert(trade_items_bytes(items.take(0)) =~= Seq::<u8>::empty());
        assert(v@ =~= base + trade_items_bytes(items.take(0)));
        let mut i: usize = 0;
        while i < self.assets.len()
            invariant
                i <= self.assets@.len(),
                v@ =~= base + trade_items_bytes(items.take(i as int)),
            decreases self.assets@.len() - i,
        {
            let a = self.assets[i];
            push_slice(&mut v, a.id().as_bytes());
            push_u64(&mut v, a.amount());
            push_u64(&mut v, a.price());
            proof {
                assert(items.take(i + 1).drop_last() =~= items.take(i as int));
                assert(items.take(i + 1).last() == a@);
            }
            assert(v@ =~= base + trade_items_bytes(items.take(i + 1)));
            i = i + 1;
        }
        assert(items.take(items.len() as int) =~= items);
        push_u64(&mut v, self.price);
        assert(v@ =~= trade_offer_bytes(self@));
        v
    }

    /// The offered amounts as plain bundles.
    #[verifier::loop_isolation(false)]
    pub fn bundles(&self) -> (r: Vec<AssetBundle>)
        ensures
            bundles_view(r@) == trade_bundles(self@.assets),
    {
        let mut out: Vec<AssetBundle> = Vec::new();
        let mut i: usize = 0;
        while i < self.assets.len()
            invariant
                i <= self.assets@.len(),
                bundles_view(out@) =~= trade_bundles(self@.assets).take(i as int),
            decreases self.assets@.len() - i,
        {
            let a = self.assets[i];
            out.push(AssetBundle::new(a.id(), a.amount()));
            assert(bundles_view(out@) =~= trade_bundles(self@.assets).take(i + 1));
            i = i + 1;
        }
        assert(bundles_view(out@) =~= trade_bundles(self@.assets));
        out
    }
}

/// A trade: the buyer, the seller's signed offer, and the seller's
/// signature over the whole message.
#[derive(Debug)]
pub struct Trade {
    buyer: PublicKey,
    offer: TradeOffer,
    seed: u64,
    seller_signature: [u8; 64],
    signature: [u8; 64],
}

/// The mathematical value of a trade.
pub ghost struct TradeV {
    pub buyer: Seq<u8>,
    pub offer: TradeOfferV,
    pub seed: u64,
    pub seller_signature: Seq<u8>,
    pub signature: Seq<u8>,
}

impl View for Trade {
    type V = TradeV;

    closed spec fn view(&self) -> TradeV {
        TradeV {
            buyer: self.buyer@,
            offer: self.offer@,
            seed: self.seed,
            seller_signature: self.seller_signature@,
            signature: self.signature@,
        }
    }
}

/// The canonical bytes of the whole trade message.
pub open spec fn trade_signed_bytes(t: TradeV) -> Seq<u8> {
    seq![TRADE_TAG] + t.buyer + trade_offer_bytes(t.offer) + u64_le(t.seed) + t.seller_signature
}

/// The transaction hash that keys the status record.
pub open spec fn trade_hash(t: TradeV) -> Seq<u8> {
    sha256_of(trade_signed_bytes(t))
}

/// Validity: distinct parties, positive amounts, the seller's
/// signature over the offer and over the whole message.
pub open spec fn trade_valid(t: TradeV) -> bool {
    &&& t.buyer != t.offer.seller
    &&& forall|i: int| 0 <= i < t.offer.assets.len() ==> (#[trigger] t.offer.assets[i]).1 > 0
    &&& ed25519_valid(t.offer.seller, trade_offer_bytes(t.offer), t.seller_signature)
    &&& ed25519_valid(t.offer.seller, trade_signed_bytes(t), t.signature)
}

/// The wallet store after a trade's fee, tax, price and asset steps,
/// or the error of the first step that fails.
pub open spec fn trade_apply(t: TradeV, l: LedgerV, cfg: Configuration) -> Result<
    Seq<(Seq<u8>, WalletV)>,
    Error,
> {
    let o = t.offer;
    match coins_moved(l.wallets, o.seller, cfg.genesis_wallet@, cfg.fees.trade) {
        None => Err(Error::InsufficientFunds),
        Some(w1) => match tp_fees(l.assets, trade_bundles(o.assets)) {
            Err(e) => Err(e),
            Ok(list) => match pay_list(w1, o.seller, list) {
                None => Err(Error::InsufficientFunds),
                Some(w2) => match coins_moved(w2, t.buyer, o.seller, o.price) {
                    None => Err(Error::InsufficientFunds),
                    Some(w3) => match assets_moved(w3, o.seller, t.buyer, trade_bundles(o.assets)) {
                        None => Err(Error::InsufficientAssets),
                        Some(w4) => Ok(w4),
                    },
                },
            },
        },
    }
}

/// What executing a trade leaves behind.
pub open spec fn trade_execute_spec(t: TradeV, l: LedgerV, cfg: Configuration) -> LedgerV {
    match trade_apply(t, l, cfg) {
        Ok(w) => LedgerV {
            wallets: w,
            assets: l.assets,
            statuses: sput(l.statuses, trade_hash(t), TxStatus::Success),
        },
        Err(e) => LedgerV {
            wallets: l.wallets,
            assets: l.assets,
            statuses: sput(l.statuses, trade_hash(t), TxStatus::Fail(e)),
        },
    }
}

impl Trade {
    /// Assemble a trade from an offer already signed by the seller and
    /// sign the whole message.
    pub fn new(
        buyer: &PublicKey,
        offer: TradeOffer,
        seed: u64,
        seller_signature: &[u8; 64],
        secret: &SecretKey,
    ) -> (r: Trade)
        ensures
            r@.buyer == buyer@,
            r@.offer == offer@,
            r@.seed == seed,
            r@.seller_signature == seller_signature@,
            r@.signature == ed25519_sig_of(secret@, trade_signed_bytes(r@)),
    {
        let mut tx = Trade {
            buyer: *buyer,
            offer,
            seed,
            seller_signature: *seller_signature,
            signature: [0u8; 64],
        };
        let msg = tx.signed_bytes();
        tx.signature = sign(secret, &msg);
        tx
    }

    /// The buying party.
    pub fn buyer(&self) -> (r: &PublicKey)
        ensures
            r@ == self@.buyer,
    {
        &self.buyer
    }

    /// The offer.
    pub fn offer(&self) -> (r: &TradeOffer)
        ensures
            r@ == self@.offer,
    {
        &self.offer
    }

    /// The canonical bytes of the whole trade message.
    pub fn signed_bytes(&self) -> (r: Vec<u8>)
        ensures
            r@ == trade_signed_bytes(self@),
    {
        let mut v: Vec<u8> = Vec::new();
        v.push(TRADE_TAG);
        assert(v@ =~= seq![TRADE_TAG]);
        push_key(&mut v, &self.buyer);
        let offer = self.offer.to_bytes();
        push_slice(&mut v, offer.as_slice());
        push_u64(&mut v, self.seed);
        push_slice(&mut v, self.seller_signature.as_slice());
        assert(v@ =~= trade_signed_bytes(self@));
        v
    }

    /// The transaction hash that keys the status record.
    pub fn hash(&self) -> (r: Vec<u8>)
        ensures
            r@ == trade_hash(self@),
    {
        let bytes = self.signed_bytes();
        sha256(&bytes)
    }

    /// Stateless validity: structure and both signatures.
    #[verifier::loop_isolation(false)]
    pub fn verify(&self) -> (r: bool)
        ensures
            r == trade_valid(self@),
    {
        if self.buyer.equals(&self.offer.seller) {
            return false;
        }
        let mut i: usize = 0;
        while i < self.offer.assets.len()
            invariant
                i <= self.offer.assets@.len(),
                forall|j: int| 0 <= j < i ==> (#[trigger] self@.offer.assets[j]).1 > 0,
            decreases self.offer.assets@.len() - i,
        {
            if self.offer.assets[i].amount() == 0 {
                assert(self@.offer.assets[i as int].1 == 0);
                return false;
            }
            i = i + 1;
        }
        let offer_raw = self.offer.to_bytes();
        if !verify_signature(&self.offer.seller, &offer_raw, &self.seller_signature) {
            return false;
        }
        let msg = self.signed_bytes();
        verify_signature(&self.offer.seller, &msg, &self.signature)
    }

    /// Apply the trade's fee, tax, price and asset steps against the
    /// fork, committing only when every step succeeds.
    #[verifier::loop_isolation(false)]
    pub fn process(&self, l: &mut Ledger, cfg: &Configuration) -> (r: Result<(), Error>)
        requires
            old(l).wf(),
        ensures
            match r {
                Ok(_) => trade_apply(self@, old(l)@, *cfg) == Ok::<_, Error>(final(l)@.wallets)
                    && final(l)@.assets == old(l)@.assets && final(l)@.statuses == old(
                    l,
                )@.statuses && final(l).wf(),
                Err(e) => trade_apply(self@, old(l)@, *cfg) == Err::<Seq<(Seq<u8>, WalletV)>, _>(
                    e,
                ) && *final(l) == *old(l),
            },
    {
        let ghost o = self@.offer;
        let ghost w0 = old(l)@.wallets;
        proof {
            assert forall|id: Seq<u8>| #[trigger] sum_hold(w0, id) <= u64::MAX by {
                assert(sum_hold(w0, id) <= reg_amount(old(l)@.assets, id));
            }
        }
        let mut ws = l.wallets.duplicate();

        proof {
            lemma_move_pre(w0, o.seller, cfg.genesis_wallet@, cfg.fees.trade);
        }
        match ws.move_coins_between(&self.offer.seller, &cfg.genesis_wallet, cfg.fees.trade) {
            Ok(()) => {},
            Err(e) => {
                return Err(e);
            },
        }
        proof {
            lemma_coins_moved_props(w0, o.seller, cfg.genesis_wallet@, cfg.fees.trade);
        }

        let bundles = self.offer.bundles();
        let list = match third_party_fees(&l.assets, &bundles) {
            Ok(list) => list,
            Err(e) => {
                return Err(e);
            },
        };
        match collect_payments(&mut ws, &self.offer.seller, &list) {
            Ok(()) => {},
            Err(e) => {
                return Err(e);
            },
        }

        let ghost w2 = ws@;
        proof {
            lemma_move_pre(w2, self@.buyer, o.seller, o.price);
        }
        match ws.move_coins_between(&self.buyer, &self.offer.seller, self.offer.price) {
            Ok(()) => {},
            Err(e) => {
                return Err(e);
            },
        }
        proof {
            lemma_coins_moved_props(w2, self@.buyer, o.seller, o.price);
        }

        let ghost w3 = ws@;
        proof {
            lemma_amove_pre(w3, o.seller, self@.buyer);
        }
        match ws.move_assets_between(&self.offer.seller, &self.buyer, &bundles) {
            Ok(()) => {},
            Err(e) => {
                return Err(e);
            },
        }
        proof {
            lemma_assets_moved_props(w3, o.seller, self@.buyer, trade_bundles(o.assets));
        }

        l.wallets = ws;
        Ok(())
    }

    /// Execute against a fork: apply everything or nothing, then record
    /// the outcome under the transaction's hash.
    pub fn execute(&self, l: &mut Ledger, cfg: &Configuration)
        requires
            old(l).wf(),
        ensures
            final(l)@ == trade_execute_spec(self@, old(l)@, *cfg),
            final(l).wf(),
    {
        let h = self.hash();
        match self.process(l, cfg) {
            Ok(()) => {
                record(l, &h, TxStatus::Success);
            },
            Err(e) => {
                record(l, &h, TxStatus::Fail(e));
            },
        }
        assert(l@ == trade_execute_spec(self@, old(l)@, *cfg));
        assert(l.wf());
    }
}

} // verus!
