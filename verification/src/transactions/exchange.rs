//! Exchange: two independently-signed parties swap coin value and
//! asset bundles in both directions within a single atomic step.
//!
//! The offer's initiator chooses who bears the flat fee and the
//! third-party taxes: sender, recipient, or both in halves with the
//! sender losing the remainder.  The intermediary strategy is rejected
//! for this two-party variant.

use vstd::prelude::*;

use crate::assets::{bundles_view, copy_bundles, AssetBundle};
use crate::assoc::sput;
use crate::config::Configuration;
use crate::crypto::{ed25519_sig_of, ed25519_valid, sha256, sha256_of, sign, verify_signature};
use crate::encode::{bundles_bytes, framed_str, push_bundles, push_key, push_slice, push_str,
    push_u64, u64_le};
use crate::error::{Error, TxStatus};
use crate::fees::{collect_payments, half_of, half_payments, pay_list, rest_of, rest_payments,
    strategy_of, third_party_fees, tp_fees, FeeStrategy};
use crate::keys::{PublicKey, SecretKey};
use crate::ledger::{assets_moved, coins_moved, lemma_amove_pre, lemma_assets_moved_props,
    lemma_coins_moved_props, lemma_move_pre, sum_bal, sum_hold, wallets_ok, Ledger, LedgerV};
use crate::stores::{reg_amount, Wallets};
use crate::wallet::WalletV;

verus! {

/// The tag separating exchange bytes from every other kind's.
pub const EXCHANGE_TAG: u8 = 6;

/// The two-party offer both signatures bind: who gives what to whom,
/// and who bears the fees.
#[derive(Debug)]
pub struct ExchangeOffer {
    sender: PublicKey,
    sender_assets: Vec<AssetBundle>,
    sender_value: u64,
    recipient: PublicKey,
    recipient_assets: Vec<AssetBundle>,
    recipient_value: u64,
    fee_strategy: u8,
}

/// The mathematical value of a two-party offer.
pub ghost struct ExchangeOfferV {
    pub sender: Seq<u8>,
    pub sender_assets: Seq<(Seq<u8>, u64)>,
    pub sender_value: u64,
    pub recipient: Seq<u8>,
    pub recipient_assets: Seq<(Seq<u8>, u64)>,
    pub recipient_value: u64,
    pub fee_strategy: u8,
}

impl View for ExchangeOffer {
    type V = ExchangeOfferV;

    closed spec fn view(&self) -> ExchangeOfferV {
        ExchangeOfferV {
            sender: self.sender@,
            sender_assets: bundles_view(self.sender_assets@),
            sender_value: self.sender_value,
            recipient: self.recipient@,
            recipient_assets: bundles_view(self.recipient_assets@),
            recipient_value: self.recipient_value,
            fee_strategy: self.fee_strategy,
        }
    }
}

/// The canonical bytes of an offer, signed by the sender.
pub open spec fn offer_bytes(o: ExchangeOfferV) -> Seq<u8> {
    o.sender + bundles_bytes(o.sender_assets) + u64_le(o.sender_value) + o.recipient
        + bundles_bytes(o.recipient_assets) + u64_le(o.recipient_value) + seq![o.fee_strategy]
}

impl ExchangeOffer {
    /// Assemble an offer.
    pub fn new(
        sender: &PublicKey,
        sender_assets: Vec<AssetBundle>,
        sender_value: u64,
        recipient: &PublicKey,
        recipient_assets: Vec<AssetBundle>,
        recipient_value: u64,
        fee_strategy: u8,
    ) -> (r: ExchangeOffer)
        ensures
            r@ == (ExchangeOfferV {
                sender: sender@,
                sender_assets: bundles_view(sender_assets@),
                sender_value: sender_value,
                recipient: recipient@,
                recipient_assets: bundles_view(recipient_assets@),
                recipient_value: recipient_value,
                fee_strategy: fee_strategy,
            }),
    {
        ExchangeOffer {
            sender: *sender,
            sender_assets,
            sender_value,
            recipient: *recipient,
            recipient_assets,
            recipient_value,
            fee_strategy,
        }
    }

    /// The offering party.
    pub fn sender(&self) -> (r: &PublicKey)
        ensures
            r@ == self@.sender,
    {
        &self.sender
    }

    /// The bundles the sender gives.
    pub fn sender_assets(&self) -> (r: Vec<AssetBundle>)
        ensures
            bundles_view(r@) == self@.sender_assets,
    {
        copy_bundles(&self.sender_assets)
    }

    /// The coins the sender gives.
    pub fn sender_value(&self) -> (r: u64)
        ensures
            r == self@.sender_value,
    {
        self.sender_value
    }

    /// The counter-party.
    pub fn recipient(&self) -> (r: &PublicKey)
        ensures
            r@ == self@.recipient,
    {
        &self.recipient
    }

    /// The bundles the recipient gives.
    pub fn recipient_assets(&self) -> (r: Vec<AssetBundle>)
        ensures
            bundles_view(r@) == self@.recipient_assets,
    {
        copy_bundles(&self.recipient_assets)
    }

    /// The coins the recipient gives.
    pub fn recipient_value(&self) -> (r: u64)
        ensures
            r == self@.recipient_value,
    {
        self.recipient_value
    }

    /// The wire value of the fee strategy.
    pub fn fee_strategy(&self) -> (r: u8)
        ensures
            r == self@.fee_strategy,
    {
        self.fee_strategy
    }

    /// The canonical offer bytes.
    pub fn to_bytes(&self) -> (r: Vec<u8>)
        ensures
            r@ == offer_bytes(self@),
    {
        let mut v: Vec<u8> = Vec::new();
        push_key(&mut v, &self.sender);
        push_bundles(&mut v, &self.sender_assets);
        push_u64(&mut v, self.sender_value);
        push_key(&mut v, &self.recipient);
        push_bundles(&mut v, &self.recipient_assets);
        push_u64(&mut v, self.recipient_value);
        v.push(self.fee_strategy);
        assert(v@ =~= offer_bytes(self@));
        v
    }
}

/// An `exchange` transaction: the offer, the sender's signature over
/// it, and the recipient's signature over the whole message.
#[derive(Debug)]
pub struct Exchange {
    offer: ExchangeOffer,
    seed: u64,
    sender_signature: [u8; 64],
    data_info: String,
    signature: [u8; 64],
}

/// The mathematical value of an exchange.
pub ghost struct ExchangeV {
    pub offer: ExchangeOfferV,
    pub seed: u64,
    pub sender_signature: Seq<u8>,
    pub data_info: Seq<char>,
    pub signature: Seq<u8>,
}

impl View for Exchange {
    type V = ExchangeV;

    closed spec fn view(&self) -> ExchangeV {
        ExchangeV {
            offer: self.offer@,
            seed: self.seed,
            sender_signature: self.sender_signature@,
            data_info: self.data_info@,
            signature: self.signature@,
        }
    }
}

/// The canonical bytes the recipient signs: offer, seed, the sender's
/// signature over the offer, and the annotation.
pub open spec fn exchange_signed_bytes(t: ExchangeV) -> Seq<u8> {
    seq![EXCHANGE_TAG] + offer_bytes(t.offer) + u64_le(t.seed) + t.sender_signature + framed_str(
        t.data_info,
    )
}

/// The transaction hash that keys the status record.
pub open spec fn exchange_hash(t: ExchangeV) -> Seq<u8> {
    sha256_of(exchange_signed_bytes(t))
}

/// Validity: distinct parties, a two-party fee strategy, positive
/// bundle amounts, the sender's signature over the offer, and the
/// recipient's signature over the whole message.
pub open spec fn exchange_valid(t: ExchangeV) -> bool {
    &&& t.offer.sender != t.offer.recipient
    &&& (strategy_of(t.offer.fee_strategy) matches Some(st) && st != FeeStrategy::Intermediary)
    &&& forall|i: int|
        0 <= i < t.offer.sender_assets.len() ==> (#[trigger] t.offer.sender_assets[i]).1 > 0
    &&& forall|i: int|
        0 <= i < t.offer.recipient_assets.len() ==> (#[trigger] t.offer.recipient_assets[i]).1
            > 0
    &&& ed25519_valid(t.offer.sender, offer_bytes(t.offer), t.sender_signature)
    &&& ed25519_valid(t.offer.recipient, exchange_signed_bytes(t), t.signature)
}

/// The flat-fee phase: who pays the treasury what, under a strategy.
pub open spec fn exchange_fee_phase(
    w: Seq<(Seq<u8>, WalletV)>,
    o: ExchangeOfferV,
    st: FeeStrategy,
    genesis: Seq<u8>,
    fee: u64,
) -> Option<Seq<(Seq<u8>, WalletV)>> {
    match st {
        FeeStrategy::Recipient => coins_moved(w, o.recipient, genesis, fee),
        FeeStrategy::Sender => coins_moved(w, o.sender, genesis, fee),
        FeeStrategy::SenderAndRecipient => match coins_moved(w, o.recipient, genesis, fee / 2) {
            None => None,
            Some(wa) => coins_moved(wa, o.sender, genesis, (fee - fee / 2) as u64),
        },
        FeeStrategy::Intermediary => None,
    }
}

/// The tax phase: the computed per-creator taxes settled by whichever
/// party or parties the strategy designates.
pub open spec fn exchange_tax_phase(
    w: Seq<(Seq<u8>, WalletV)>,
    o: ExchangeOfferV,
    st: FeeStrategy,
    list: Seq<(Seq<u8>, u64)>,
) -> Option<Seq<(Seq<u8>, WalletV)>> {
    match st {
        FeeStrategy::Recipient => pay_list(w, o.recipient, list),
        FeeStrategy::Sender => pay_list(w, o.sender, list),
        FeeStrategy::SenderAndRecipient => match pay_list(w, o.recipient, half_payments(list)) {
            None => None,
            Some(wa) => pay_list(wa, o.sender, rest_payments(list)),
        },
        FeeStrategy::Intermediary => None,
    }
}

/// The principal phase every exchange variant shares: coin value in
/// both directions, then asset bundles in both directions, one atomic
/// step.
pub open spec fn swap_phase(
    w: Seq<(Seq<u8>, WalletV)>,
    sender: Seq<u8>,
    sender_assets: Seq<(Seq<u8>, u64)>,
    sender_value: u64,
    recipient: Seq<u8>,
    recipient_assets: Seq<(Seq<u8>, u64)>,
    recipient_value: u64,
) -> Result<Seq<(Seq<u8>, WalletV)>, Error> {
    match coins_moved(w, sender, recipient, sender_value) {
        None => Err(Error::InsufficientFunds),
        Some(w3) => match coins_moved(w3, recipient, sender, recipient_value) {
            None => Err(Error::InsufficientFunds),
            Some(w4) => match assets_moved(w4, sender, recipient, sender_assets) {
                None => Err(Error::InsufficientAssets),
                Some(w5) => match assets_moved(w5, recipient, sender, recipient_assets) {
                    None => Err(Error::InsufficientAssets),
                    Some(w6) => Ok(w6),
                },
            },
        },
    }
}

/// A successful principal phase keeps the store well-formed and
/// conserves the balance total and every asset's holding total.
pub proof fn lemma_swap_phase_props(
    w: Seq<(Seq<u8>, WalletV)>,
    sender: Seq<u8>,
    sender_assets: Seq<(Seq<u8>, u64)>,
    sender_value: u64,
    recipient: Seq<u8>,
    recipient_assets: Seq<(Seq<u8>, u64)>,
    recipient_value: u64,
)
    requires
        wallets_ok(w),
        sum_bal(w) <= u64::MAX,
        forall|id: Seq<u8>| #[trigger] sum_hold(w, id) <= u64::MAX,
    ensures
        match swap_phase(w, sender, sender_assets, sender_value, recipient, recipient_assets,
            recipient_value) {
            Ok(w6) => {
                &&& wallets_ok(w6)
                &&& sum_bal(w6) == sum_bal(w)
                &&& forall|id: Seq<u8>| #[trigger] sum_hold(w6, id) == sum_hold(w, id)
            },
            Err(_) => true,
        },
{
    lemma_coins_moved_props(w, sender, recipient, sender_value);
    match coins_moved(w, sender, recipient, sender_value) {
        Some(w3) => {
            lemma_coins_moved_props(w3, recipient, sender, recipient_value);
            match coins_moved(w3, recipient, sender, recipient_value) {
                Some(w4) => {
                    lemma_amove_pre(w4, sender, recipient);
                    lemma_assets_moved_props(w4, sender, recipient, sender_assets);
                    match assets_moved(w4, sender, recipient, sender_assets) {
                        Some(w5) => {
                            lemma_amove_pre(w5, recipient, sender);
                            lemma_assets_moved_props(w5, recipient, sender, recipient_assets);
                        },
                        None => {},
                    }
                },
                None => {},
            }
        },
        None => {},
    }
}

/// Settle the principal phase against the working store.  On failure
/// the store may hold a partial prefix; callers work on a duplicate
/// they discard.
#[verifier::loop_isolation(false)]
pub fn settle_swap(
    ws: &mut Wallets,
    sender: &PublicKey,
    sender_assets: &Vec<AssetBundle>,
    sender_value: u64,
    recipient: &PublicKey,
    recipient_assets: &Vec<AssetBundle>,
    recipient_value: u64,
) -> (r: Result<(), Error>)
    requires
        wallets_ok(old(ws)@),
        sum_bal(old(ws)@) <= u64::MAX,
        forall|id: Seq<u8>| #[trigger] sum_hold(old(ws)@, id) <= u64::MAX,
    ensures
        match r {
            Ok(_) => swap_phase(
                old(ws)@,
                sender@,
                bundles_view(sender_assets@),
                sender_value,
                recipient@,
                bundles_view(recipient_assets@),
                recipient_value,
            ) == Ok::<_, Error>(final(ws)@),
            Err(e) => swap_phase(
                old(ws)@,
                sender@,
                bundles_view(sender_assets@),
                sender_value,
                recipient@,
                bundles_view(recipient_assets@),
                recipient_value,
            ) == Err::<Seq<(Seq<u8>, WalletV)>, _>(e),
        },
{
    let ghost w0 = old(ws)@;
    proof {
        lemma_move_pre(w0, sender@, recipient@, sender_value);
    }
    match ws.move_coins_between(sender, recipient, sender_value) {
        Ok(()) => {},
        Err(e) => {
            return Err(e);
        },
    }
    proof {
        lemma_coins_moved_props(w0, sender@, recipient@, sender_value);
    }
    let ghost w3 = ws@;
    proof {
        lemma_move_pre(w3, recipient@, sender@, recipient_value);
    }
    match ws.move_coins_between(recipient, sender, recipient_value) {
        Ok(()) => {},
        Err(e) => {
            return Err(e);
        },
    }
    proof {
        lemma_coins_moved_props(w3, recipient@, sender@, recipient_value);
    }
    let ghost w4 = ws@;
    proof {
        lemma_amove_pre(w4, sender@, recipient@);
    }
    match ws.move_assets_between(sender, recipient, sender_assets) {
        Ok(()) => {},
        Err(e) => {
            return Err(e);
        },
    }
    proof {
        lemma_assets_moved_props(w4, sender@, recipient@, bundles_view(sender_assets@));
    }
    let ghost w5 = ws@;
    proof {
        lemma_amove_pre(w5, recipient@, sender@);
    }
    match ws.move_assets_between(recipient, sender, recipient_assets) {
        Ok(()) => {},
        Err(e) => {
            return Err(e);
        },
    }
    Ok(())
}

/// The wallet store after an exchange's fee, tax, value and asset
/// steps, or the error of the first step that fails.
pub open spec fn exchange_apply(t: ExchangeV, l: LedgerV, cfg: Configuration) -> Result<
    Seq<(Seq<u8>, WalletV)>,
    Error,
> {
    let o = t.offer;
    match strategy_of(o.fee_strategy) {
        None => Err(Error::InvalidTransaction),
        Some(FeeStrategy::Intermediary) => Err(Error::InvalidTransaction),
        Some(st) => match exchange_fee_phase(
            l.wallets,
            o,
            st,
            cfg.genesis_wallet@,
            cfg.fees.exchange,
        ) {
            None => Err(Error::InsufficientFunds),
            Some(w1) => match tp_fees(l.assets, o.sender_assets + o.recipient_assets) {
                Err(e) => Err(e),
                Ok(list) => match exchange_tax_phase(w1, o, st, list) {
                    None => Err(Error::InsufficientFunds),
                    Some(w2) => swap_phase(
                        w2,
                        o.sender,
                        o.sender_assets,
                        o.sender_value,
                        o.recipient,
                        o.recipient_assets,
                        o.recipient_value,
                    ),
                },
            },
        },
    }
}

/// What executing an exchange leaves behind.
pub open spec fn exchange_execute_spec(t: ExchangeV, l: LedgerV, cfg: Configuration) -> LedgerV {
    match exchange_apply(t, l, cfg) {
        Ok(w) => LedgerV {
            wallets: w,
            assets: l.assets,
            statuses: sput(l.statuses, exchange_hash(t), TxStatus::Success),
        },
        Err(e) => LedgerV {
            wallets: l.wallets,
            assets: l.assets,
            statuses: sput(l.statuses, exchange_hash(t), TxStatus::Fail(e)),
        },
    }
}

impl Exchange {
    /// Assemble an exchange from an offer already signed by the
    /// sender, and sign the whole message as the recipient.
    pub fn new(
        offer: ExchangeOffer,
        seed: u64,
        sender_signature: &[u8; 64],
        data_info: String,
        secret: &SecretKey,
    ) -> (r: Exchange)
        ensures
            r@.offer == offer@,
            r@.seed == seed,
            r@.sender_signature == sender_signature@,
            r@.data_info == data_info@,
            r@.signature == ed25519_sig_of(secret@, exchange_signed_bytes(r@)),
    {
        let mut tx = Exchange {
            offer,
            seed,
            sender_signature: *sender_signature,
            data_info,
            signature: [0u8; 64],
        };
        let msg = tx.signed_bytes();
        tx.signature = sign(secret, &msg);
        tx
    }

    /// The offer.
    pub fn offer(&self) -> (r: &ExchangeOffer)
        ensures
            r@ == self@.offer,
    {
        &self.offer
    }

    /// Get raw bytes of the offer.
    pub fn offer_raw(&self) -> (r: Vec<u8>)
        ensures
            r@ == offer_bytes(self@.offer),
    {
        self.offer.to_bytes()
    }

    /// The canonical bytes the recipient signs.
    pub fn signed_bytes(&self) -> (r: Vec<u8>)
        ensures
            r@ == exchange_signed_bytes(self@),
    {
        let mut v: Vec<u8> = Vec::new();
        v.push(EXCHANGE_TAG);
        assert(v@ =~= seq![EXCHANGE_TAG]);
        let offer = self.offer.to_bytes();
        push_slice(&mut v, offer.as_slice());
        push_u64(&mut v, self.seed);
        push_slice(&mut v, self.sender_signature.as_slice());
        push_str(&mut v, self.data_info.as_str());
        assert(v@ =~= exchange_signed_bytes(self@));
        v
    }

    /// The transaction hash that keys the status record.
    pub fn hash(&self) -> (r: Vec<u8>)
        ensures
            r@ == exchange_hash(self@),
    {
        let bytes = self.signed_bytes();
        sha256(&bytes)
    }

    /// Stateless validity: structure and both signatures.
    #[verifier::loop_isolation(false)]
    pub fn verify(&self) -> (r: bool)
        ensures
            r == exchange_valid(self@),
    {
        if self.offer.sender.equals(&self.offer.recipient) {
            return false;
        }
        let strategy_ok = match FeeStrategy::try_from(self.offer.fee_strategy) {
            Some(FeeStrategy::Intermediary) => false,
            Some(_) => true,
            None => false,
        };
        if !strategy_ok {
            return false;
        }
        let mut i: usize = 0;
        while i < self.offer.sender_assets.len()
            invariant
                i <= self.offer.sender_assets@.len(),
                forall|j: int|
                    0 <= j < i ==> (#[trigger] self@.offer.sender_assets[j]).1 > 0,
            decreases self.offer.sender_assets@.len() - i,
        {
            if self.offer.sender_assets[i].amount() == 0 {
                assert(self@.offer.sender_assets[i as int].1 == 0);
                return false;
            }
            i = i + 1;
        }
        let mut k: usize = 0;
        while k < self.offer.recipient_assets.len()
            invariant
                k <= self.offer.recipient_assets@.len(),
                forall|j: int|
                    0 <= j < k ==> (#[trigger] self@.offer.recipient_assets[j]).1 > 0,
            decreases self.offer.recipient_assets@.len() - k,
        {
            if self.offer.recipient_assets[k].amount() == 0 {
                assert(self@.offer.recipient_assets[k as int].1 == 0);
                return false;
            }
            k = k + 1;
        }
        let offer_raw = self.offer.to_bytes();
        let sender_ok = verify_signature(&self.offer.sender, &offer_raw, &self.sender_signature);
        if !sender_ok {
            return false;
        }
        let msg = self.signed_bytes();
        verify_signature(&self.offer.recipient, &msg, &self.signature)
    }

    /// Apply the exchange's fee, tax, value and asset steps against the
    /// fork, committing only when every step succeeds.
    #[verifier::loop_isolation(false)]
    #[verifier::rlimit(100)]
    pub fn process(&self, l: &mut Ledger, cfg: &Configuration) -> (r: Result<(), Error>)
        requires
            old(l).wf(),
        ensures
            match r {
                Ok(_) => exchange_apply(self@, old(l)@, *cfg) == Ok::<_, Error>(
                    final(l)@.wallets,
                ) && final(l)@.assets == old(l)@.assets && final(l)@.statuses == old(
                    l,
                )@.statuses && final(l).wf(),
                Err(e) => exchange_apply(self@, old(l)@, *cfg) == Err::<Seq<(Seq<u8>, WalletV)>,
                    _,
                >(e) && *final(l) == *old(l),
            },
    {
        let ghost o = self@.offer;
        let ghost w0 = old(l)@.wallets;
        proof {
            assert forall|id: Seq<u8>| #[trigger] sum_hold(w0, id) <= u64::MAX by {
                assert(sum_hold(w0, id) <= reg_amount(old(l)@.assets, id));
            }
        }
        let st = match FeeStrategy::try_from(self.offer.fee_strategy) {
            Some(FeeStrategy::Intermediary) => {
                return Err(Error::InvalidTransaction);
            },
            Some(st) => st,
            None => {
                return Err(Error::InvalidTransaction);
            },
        };
        let fee = cfg.fees.exchange;
        let mut ws = l.wallets.duplicate();

        match st {
            FeeStrategy::Recipient => {
                proof {
                    lemma_move_pre(w0, o.recipient, cfg.genesis_wallet@, fee);
                }
                match ws.move_coins_between(&self.offer.recipient, &cfg.genesis_wallet, fee) {
                    Ok(()) => {},
                    Err(e) => {
                        return Err(e);
                    },
                }
                proof {
                    lemma_coins_moved_props(w0, o.recipient, cfg.genesis_wallet@, fee);
                }
            },
            FeeStrategy::Sender => {
                proof {
                    lemma_move_pre(w0, o.sender, cfg.genesis_wallet@, fee);
                }
                match ws.move_coins_between(&self.offer.sender, &cfg.genesis_wallet, fee) {
                    Ok(()) => {},
                    Err(e) => {
                        return Err(e);
                    },
                }
                proof {
                    lemma_coins_moved_props(w0, o.sender, cfg.genesis_wallet@, fee);
                }
            },
            FeeStrategy::SenderAndRecipient => {
                proof {
                    lemma_move_pre(w0, o.recipient, cfg.genesis_wallet@, fee / 2);
                }
                match ws.move_coins_between(&self.offer.recipient, &cfg.genesis_wallet, fee / 2) {
                    Ok(()) => {},
                    Err(e) => {
                        return Err(e);
                    },
                }
                proof {
                    lemma_coins_moved_props(w0, o.recipient, cfg.genesis_wallet@, fee / 2);
                }
                let ghost wa = ws@;
                proof {
                    lemma_move_pre(wa, o.sender, cfg.genesis_wallet@, (fee - fee / 2) as u64);
                }
                match ws.move_coins_between(
                    &self.offer.sender,
                    &cfg.genesis_wallet,
                    fee - fee / 2,
                ) {
                    Ok(()) => {},
                    Err(e) => {
                        return Err(e);
                    },
                }
                proof {
                    lemma_coins_moved_props(wa, o.sender, cfg.genesis_wallet@, (fee - fee
                        / 2) as u64);
                }
            },
            FeeStrategy::Intermediary => {
                return Err(Error::InvalidTransaction);
            },
        }
        let ghost w1 = ws@;
        assert(exchange_fee_phase(w0, o, st, cfg.genesis_wallet@, fee) == Some(w1));

        let mut union: Vec<AssetBundle> = Vec::new();
        let mut i: usize = 0;
        while i < self.offer.sender_assets.len()
            invariant
                i <= self.offer.sender_assets@.len(),
                union@ =~= self.offer.sender_assets@.take(i as int),
            decreases self.offer.sender_assets@.len() - i,
        {
            union.push(self.offer.sender_assets[i]);
            i = i + 1;
        }
        assert(union@ =~= self.offer.sender_assets@);
        let mut k: usize = 0;
        while k < self.offer.recipient_assets.len()
            invariant
                k <= self.offer.recipient_assets@.len(),
                union@ =~= self.offer.sender_assets@ + self.offer.recipient_assets@.take(
                    k as int,
                ),
            decreases self.offer.recipient_assets@.len() - k,
        {
            union.push(self.offer.recipient_assets[k]);
            k = k + 1;
        }
        assert(union@ =~= self.offer.sender_assets@ + self.offer.recipient_assets@);
        assert(bundles_view(union@) =~= o.sender_assets + o.recipient_assets);

        let list = match third_party_fees(&l.assets, &union) {
            Ok(list) => list,
            Err(e) => {
                return Err(e);
            },
        };

        match st {
            FeeStrategy::Recipient => {
                match collect_payments(&mut ws, &self.offer.recipient, &list) {
                    Ok(()) => {},
                    Err(e) => {
                        return Err(e);
                    },
                }
            },
            FeeStrategy::Sender => {
                match collect_payments(&mut ws, &self.offer.sender, &list) {
                    Ok(()) => {},
                    Err(e) => {
                        return Err(e);
                    },
                }
            },
            FeeStrategy::SenderAndRecipient => {
                let halves = half_of(&list);
                let rests = rest_of(&list);
                match collect_payments(&mut ws, &self.offer.recipient, &halves) {
                    Ok(()) => {},
                    Err(e) => {
                        return Err(e);
                    },
                }
                match collect_payments(&mut ws, &self.offer.sender, &rests) {
                    Ok(()) => {},
                    Err(e) => {
                        return Err(e);
                    },
                }
            },
            FeeStrategy::Intermediary => {
                return Err(Error::InvalidTransaction);
            },
        }
        let ghost w2 = ws@;
        proof {
            lemma_swap_phase_props(w2, o.sender, o.sender_assets, o.sender_value, o.recipient,
                o.recipient_assets, o.recipient_value);
        }
        match settle_swap(
            &mut ws,
            &self.offer.sender,
            &self.offer.sender_assets,
            self.offer.sender_value,
            &self.offer.recipient,
            &self.offer.recipient_assets,
            self.offer.recipient_value,
        ) {
            Ok(()) => {},
            Err(e) => {
                return Err(e);
            },
        }

        l.wallets = ws;
        Ok(())
    }

    /// Execute against a fork: apply everything or nothing, then record
    /// the outcome under the transaction's hash.
    pub fn execute(&self, l: &mut Ledger, cfg: &Configuration)
        requires
            old(l).wf(),
        ensures
            final(l)@ == exchange_execute_spec(self@, old(l)@, *cfg),
            final(l).wf(),
    {
        let h = self.hash();
        match self.process(l, cfg) {
            Ok(()) => {
                crate::transactions::transfer::record(l, &h, TxStatus::Success);
            },
            Err(e) => {
                crate::transactions::transfer::record(l, &h, TxStatus::Fail(e));
            },
        }
        assert(l@ == exchange_execute_spec(self@, old(l)@, *cfg));
        assert(l.wf());
    }
}

} // verus!
