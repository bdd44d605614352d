//! ExchangeIntermediary: a two-party exchange brokered by a third
//! signing party who earns a commission and may bear the fees under
//! the intermediary strategy.
//!
//! The intermediary's signature covers the full offer, the other two
//! parties' identities included, so no party can rebind the offer to a
//! different counterpart after signing.  Atomicity and fee ordering
//! are the same as for the plain exchange.

use vstd::prelude::*;

use crate::assets::{bundles_view, AssetBundle};
use crate::assoc::sput;
use crate::config::Configuration;
use crate::crypto::{ed25519_sig_of, ed25519_valid, sha256, sha256_of, sign, verify_signature};
use crate::encode::{bundles_bytes, framed_str, push_bundles, push_key, push_slice, push_str,
    push_u64, u64_le};
use crate::error::{Error, TxStatus};
use crate::fees::{collect_payments, half_of, half_payments, pay_list, rest_of, rest_payments,
    strategy_of, third_party_fees, tp_fees, FeeStrategy};
use crate::keys::{PublicKey, SecretKey};
use crate::ledger::{coins_moved, lemma_coins_moved_props, lemma_move_pre, sum_hold, Ledger,
    LedgerV};
use crate::stores::reg_amount;
use crate::transactions::exchange::{lemma_swap_phase_props, settle_swap, swap_phase};
use crate::transactions::transfer::record;
use crate::wallet::WalletV;

verus! {

/// The tag separating brokered-exchange bytes from every other kind's.
pub const EXCHANGE_INTERMEDIARY_TAG: u8 = 8;

/// The brokering party and the commission it charges.
#[derive(Clone, Copy, Debug)]
pub struct Intermediary {
    wallet: PublicKey,
    commission: u64,
}

impl View for Intermediary {
    type V = (Seq<u8>, u64);

    closed spec fn view(&self) -> (Seq<u8>, u64) {
        (self.wallet@, self.commission)
    }
}

impl Intermediary {
    /// A broker charging `commission` coins into `wallet`.
    pub fn new(wallet: &PublicKey, commission: u64) -> (r: Intermediary)
        ensures
            r@ == (wallet@, commission),
    {
        Intermediary { wallet: *wallet, commission }
    }

    /// The broker's wallet.
    pub fn wallet(&self) -> (r: &PublicKey)
        ensures
            r@ == self@.0,
    {
        &self.wallet
    }

    /// The commission in coins.
    pub fn commission(&self) -> (r: u64)
        ensures
            r == self@.1,
    {
        self.commission
    }
}

/// The three-party offer all three signatures bind.
#[derive(Debug)]
pub struct ExchangeOfferIntermediary {
    intermediary: Intermediary,
    sender: PublicKey,
    sender_assets: Vec<AssetBundle>,
    sender_value: u64,
    recipient: PublicKey,
    recipient_assets: Vec<AssetBundle>,
    recipient_value: u64,
    fee_strategy: u8,
}

/// The mathematical value of a three-party offer.
pub ghost struct ExchangeOfferIntermediaryV {
    pub intermediary: (Seq<u8>, u64),
    pub sender: Seq<u8>,
    pub sender_assets: Seq<(Seq<u8>, u64)>,
    pub sender_value: u64,
    pub recipient: Seq<u8>,
    pub recipient_assets: Seq<(Seq<u8>, u64)>,
    pub recipient_value: u64,
    pub fee_strategy: u8,
}

impl View for ExchangeOfferIntermediary {
    type V = ExchangeOfferIntermediaryV;

    closed spec fn view(&self) -> ExchangeOfferIntermediaryV {
        ExchangeOfferIntermediaryV {
            intermediary: self.intermediary@,
            sender: self.sender@,
            sender_assets: bundles_view(self.sender_assets@),
            sender_value: self.sender_value,
            recipient: self.recipient@,
            recipient_assets: bundles_view(self.recipient_assets@),
            recipient_value: self.recipient_value,
            fee_strategy: self.fee_strategy,
        }
    }
}

/// The canonical bytes of a three-party offer, signed by the sender
/// and the intermediary.
pub open spec fn offer_intermediary_bytes(o: ExchangeOfferIntermediaryV) -> Seq<u8> {
    o.intermediary.0 + u64_le(o.intermediary.1) + o.sender + bundles_bytes(o.sender_assets)
        + u64_le(o.sender_value) + o.recipient + bundles_bytes(o.recipient_assets) + u64_le(
        o.recipient_value,
    ) + seq![o.fee_strategy]
}

impl ExchangeOfferIntermediary {
    /// Assemble an offer.
    pub fn new(
        intermediary: Intermediary,
        sender: &PublicKey,
        sender_assets: Vec<AssetBundle>,
        sender_value: u64,
        recipient: &PublicKey,
        recipient_assets: Vec<AssetBundle>,
        recipient_value: u64,
        fee_strategy: u8,
    ) -> (r: ExchangeOfferIntermediary)
        ensures
            r@ == (ExchangeOfferIntermediaryV {
                intermediary: intermediary@,
                sender: sender@,
                sender_assets: bundles_view(sender_assets@),
                sender_value: sender_value,
                recipient: recipient@,
                recipient_assets: bundles_view(recipient_assets@),
                recipient_value: recipient_value,
                fee_strategy: fee_strategy,
            }),
    {
        ExchangeOfferIntermediary {
            intermediary,
            sender: *sender,
            sender_assets,
            sender_value,
            recipient: *recipient,
            recipient_assets,
            recipient_value,
            fee_strategy,
        }
    }

    /// The brokering party.
    pub fn intermediary(&self) -> (r: &Intermediary)
        ensures
            r@ == self@.intermediary,
    {
        &self.intermediary
    }

    /// The offering party.
    pub fn sender(&self) -> (r: &PublicKey)
        ensures
            r@ == self@.sender,
    {
        &self.sender
    }

    /// The counter-party.
    pub fn recipient(&self) -> (r: &PublicKey)
        ensures
            r@ == self@.recipient,
    {
        &self.recipient
    }

    /// The wire value of the fee strategy.
    pub fn fee_strategy(&self) -> (r: u8)
        ensures
            r == self@.fee_strategy,
    {
        self.fee_strategy
    }

    /// The canonical offer bytes.
    pub fn to_bytes(&self) -> (r: Vec<u8>)
        ensures
            r@ == offer_intermediary_bytes(self@),
    {
        let mut v: Vec<u8> = Vec::new();
        push_key(&mut v, &self.intermediary.wallet);
        push_u64(&mut v, self.intermediary.commission);
        push_key(&mut v, &self.sender);
        push_bundles(&mut v, &self.sender_assets);
        push_u64(&mut v, self.sender_value);
        push_key(&mut v, &self.recipient);
        push_bundles(&mut v, &self.recipient_assets);
        push_u64(&mut v, self.recipient_value);
        v.push(self.fee_strategy);
        assert(v@ =~= offer_intermediary_bytes(self@));
        v
    }
}

/// A brokered exchange: the offer, the sender's and the intermediary's
/// signatures over it, and the recipient's signature over the whole
/// message.
#[derive(Debug)]
pub struct ExchangeIntermediary {
    offer: ExchangeOfferIntermediary,
    seed: u64,
    sender_signature: [u8; 64],
    intermediary_signature: [u8; 64],
    data_info: String,
    signature: [u8; 64],
}

/// The mathematical value of a brokered exchange.
pub ghost struct ExchangeIntermediaryV {
    pub offer: ExchangeOfferIntermediaryV,
    pub seed: u64,
    pub sender_signature: Seq<u8>,
    pub intermediary_signature: Seq<u8>,
    pub data_info: Seq<char>,
    pub signature: Seq<u8>,
}

impl View for ExchangeIntermediary {
    type V = ExchangeIntermediaryV;

    closed spec fn view(&self) -> ExchangeIntermediaryV {
        ExchangeIntermediaryV {
            offer: self.offer@,
            seed: self.seed,
            sender_signature: self.sender_signature@,
            intermediary_signature: self.intermediary_signature@,
            data_info: self.data_info@,
            signature: self.signature@,
        }
    }
}

/// The canonical bytes the recipient signs.
pub open spec fn exchange_intermediary_signed_bytes(t: ExchangeIntermediaryV) -> Seq<u8> {
    seq![EXCHANGE_INTERMEDIARY_TAG] + offer_intermediary_bytes(t.offer) + u64_le(t.seed)
        + t.sender_signature + t.intermediary_signature + framed_str(t.data_info)
}

/// The transaction hash that keys the status record.
pub open spec fn exchange_intermediary_hash(t: ExchangeIntermediaryV) -> Seq<u8> {
    sha256_of(exchange_intermediary_signed_bytes(t))
}

/// Validity: three pairwise-distinct parties, a known fee strategy,
/// positive amounts, and all three signatures, the sender's and the
/// intermediary's over the full offer.
pub open spec fn exchange_intermediary_valid(t: ExchangeIntermediaryV) -> bool {
    &&& t.offer.sender != t.offer.recipient
    &&& t.offer.intermediary.0 != t.offer.sender
    &&& t.offer.intermediary.0 != t.offer.recipient
    &&& strategy_of(t.offer.fee_strategy) is Some
    &&& forall|i: int|
        0 <= i < t.offer.sender_assets.len() ==> (#[trigger] t.offer.sender_assets[i]).1 > 0
    &&& forall|i: int|
        0 <= i < t.offer.recipient_assets.len() ==> (#[trigger] t.offer.recipient_assets[i]).1
            > 0
    &&& ed25519_valid(t.offer.sender, offer_intermediary_bytes(t.offer), t.sender_signature)
    &&& ed25519_valid(
        t.offer.intermediary.0,
        offer_intermediary_bytes(t.offer),
        t.intermediary_signature,
    )
    &&& ed25519_valid(t.offer.recipient, exchange_intermediary_signed_bytes(t), t.signature)
}

/// The flat-fee phase under any strategy, the intermediary included.
pub open spec fn fee_phase(
    w: Seq<(Seq<u8>, WalletV)>,
    o: ExchangeOfferIntermediaryV,
    st: FeeStrategy,
    genesis: Seq<u8>,
    fee: u64,
) -> Option<Seq<(Seq<u8>, WalletV)>> {
    match st {
        FeeStrategy::Recipient => coins_moved(w, o.recipient, genesis, fee),
        FeeStrategy::Sender => coins_moved(w, o.sender, genesis, fee),
        FeeStrategy::SenderAndRecipient => match coins_moved(w, o.recipient, genesis, fee / 2) {
            None => None,
            Some(wa) => coins_moved(wa, o.sender, genesis, (fee - fee / 2) as u64),
        },
        FeeStrategy::Intermediary => coins_moved(w, o.intermediary.0, genesis, fee),
    }
}

/// The tax phase under any strategy, the intermediary included.
pub open spec fn tax_phase(
    w: Seq<(Seq<u8>, WalletV)>,
    o: ExchangeOfferIntermediaryV,
    st: FeeStrategy,
    list: Seq<(Seq<u8>, u64)>,
) -> Option<Seq<(Seq<u8>, WalletV)>> {
    match st {
        FeeStrategy::Recipient => pay_list(w, o.recipient, list),
        FeeStrategy::Sender => pay_list(w, o.sender, list),
        FeeStrategy::SenderAndRecipient => match pay_list(w, o.recipient, half_payments(list)) {
            None => None,
            Some(wa) => pay_list(wa, o.sender, rest_payments(list)),
        },
        FeeStrategy::Intermediary => pay_list(w, o.intermediary.0, list),
    }
}

/// The wallet store after a brokered exchange's fee, commission, tax,
/// value and asset steps, or the error of the first step that fails.
/// The sender pays the intermediary's commission right after the flat
/// fee.
pub open spec fn exchange_intermediary_apply(
    t: ExchangeIntermediaryV,
    l: LedgerV,
    cfg: Configuration,
) -> Result<Seq<(Seq<u8>, WalletV)>, Error> {
    let o = t.offer;
    match strategy_of(o.fee_strategy) {
        None => Err(Error::InvalidTransaction),
        Some(st) => match fee_phase(l.wallets, o, st, cfg.genesis_wallet@, cfg.fees.exchange) {
            None => Err(Error::InsufficientFunds),
            Some(w1) => match coins_moved(w1, o.sender, o.intermediary.0, o.intermediary.1) {
                None => Err(Error::InsufficientFunds),
                Some(w1c) => match tp_fees(l.assets, o.sender_assets + o.recipient_assets) {
                    Err(e) => Err(e),
                    Ok(list) => match tax_phase(w1c, o, st, list) {
                        None => Err(Error::InsufficientFunds),
                        Some(w2) => swap_phase(
                            w2,
                            o.sender,
                            o.sender_assets,
                            o.sender_value,
                            o.recipient,
                            o.recipient_assets,
                            o.recipient_value,
                        ),
                    },
                },
            },
        },
    }
}

/// What executing a brokered exchange leaves behind.
pub open spec fn exchange_intermediary_execute_spec(
    t: ExchangeIntermediaryV,
    l: LedgerV,
    cfg: Configuration,
) -> LedgerV {
    match exchange_intermediary_apply(t, l, cfg) {
        Ok(w) => LedgerV {
            wallets: w,
            assets: l.assets,
            statuses: sput(l.statuses, exchange_intermediary_hash(t), TxStatus::Success),
        },
        Err(e) => LedgerV {
            wallets: l.wallets,
            assets: l.assets,
            statuses: sput(l.statuses, exchange_intermediary_hash(t), TxStatus::Fail(e)),
        },
    }
}

impl ExchangeIntermediary {
    /// Assemble a brokered exchange from an offer already signed by the
    /// sender and the intermediary, and sign the whole message as the
    /// recipient.
    pub fn new(
        offer: ExchangeOfferIntermediary,
        seed: u64,
        sender_signature: &[u8; 64],
        intermediary_signature: &[u8; 64],
        data_info: String,
        secret: &SecretKey,
    ) -> (r: ExchangeIntermediary)
        ensures
            r@.offer == offer@,
            r@.seed == seed,
            r@.sender_signature == sender_signature@,
            r@.intermediary_signature == intermediary_signature@,
            r@.data_info == data_info@,
            r@.signature == ed25519_sig_of(secret@, exchange_intermediary_signed_bytes(r@)),
    {
        let mut tx = ExchangeIntermediary {
            offer,
            seed,
            sender_signature: *sender_signature,
            intermediary_signature: *intermediary_signature,
            data_info,
            signature: [0u8; 64],
        };
        let msg = tx.signed_bytes();
        tx.signature = sign(secret, &msg);
        tx
    }

    /// The offer.
    pub fn offer(&self) -> (r: &ExchangeOfferIntermediary)
        ensures
            r@ == self@.offer,
    {
        &self.offer
    }

    /// Get raw bytes of the offer.
    pub fn offer_raw(&self) -> (r: Vec<u8>)
        ensures
            r@ == offer_intermediary_bytes(self@.offer),
    {
        self.offer.to_bytes()
    }

    /// The canonical bytes the recipient signs.
    pub fn signed_bytes(&self) -> (r: Vec<u8>)
        ensures
            r@ == exchange_intermediary_signed_bytes(self@),
    {
        let mut v: Vec<u8> = Vec::new();
        v.push(EXCHANGE_INTERMEDIARY_TAG);
        assert(v@ =~= seq![EXCHANGE_INTERMEDIARY_TAG]);
        let offer = self.offer.to_bytes();
        push_slice(&mut v, offer.as_slice());
        push_u64(&mut v, self.seed);
        push_slice(&mut v, self.sender_signature.as_slice());
        push_slice(&mut v, self.intermediary_signature.as_slice());
        push_str(&mut v, self.data_info.as_str());
        assert(v@ =~= exchange_intermediary_signed_bytes(self@));
        v
    }

    /// The transaction hash that keys the status record.
    pub fn hash(&self) -> (r: Vec<u8>)
        ensures
            r@ == exchange_intermediary_hash(self@),
    {
        let bytes = self.signed_bytes();
        sha256(&bytes)
    }

    /// Stateless validity: structure and all three signatures.
    #[verifier::loop_isolation(false)]
    pub fn verify(&self) -> (r: bool)
        ensures
            r == exchange_intermediary_valid(self@),
    {
        if self.offer.sender.equals(&self.offer.recipient) {
            return false;
        }
        if self.offer.intermediary.wallet.equals(&self.offer.sender) {
            return false;
        }
        if self.offer.intermediary.wallet.equals(&self.offer.recipient) {
            return false;
        }
        if FeeStrategy::try_from(self.offer.fee_strategy).is_none() {
            return false;
        }
        let mut i: usize = 0;
        while i < self.offer.sender_assets.len()
            invariant
                i <= self.offer.sender_assets@.len(),
                forall|j: int|
                    0 <= j < i ==> (#[trigger] self@.offer.sender_assets[j]).1 > 0,
            decreases self.offer.sender_assets@.len() - i,
        {
            if self.offer.sender_assets[i].amount() == 0 {
                assert(self@.offer.sender_assets[i as int].1 == 0);
                return false;
            }
            i = i + 1;
        }
        let mut k: usize = 0;
        while k < self.offer.recipient_assets.len()
            invariant
                k <= self.offer.recipient_assets@.len(),
                forall|j: int|
                    0 <= j < k ==> (#[trigger] self@.offer.recipient_assets[j]).1 > 0,
            decreases self.offer.recipient_assets@.len() - k,
        {
            if self.offer.recipient_assets[k].amount() == 0 {
                assert(self@.offer.recipient_assets[k as int].1 == 0);
                return false;
            }
            k = k + 1;
        }
        let offer_raw = self.offer.to_bytes();
        if !verify_signature(&self.offer.sender, &offer_raw, &self.sender_signature) {
            return false;
        }
        if !verify_signature(
            &self.offer.intermediary.wallet,
            &offer_raw,
            &self.intermediary_signature,
        ) {
            return false;
        }
        let msg = self.signed_bytes();
        verify_signature(&self.offer.recipient, &msg, &self.signature)
    }

    /// Apply the brokered exchange's fee, commission, tax, value and
    /// asset steps against the fork, committing only when every step
    /// succeeds.
    #[verifier::loop_isolation(false)]
    #[verifier::rlimit(100)]
    pub fn process(&self, l: &mut Ledger, cfg: &Configuration) -> (r: Result<(), Error>)
        requires
            old(l).wf(),
        ensures
            match r {
                Ok(_) => exchange_intermediary_apply(self@, old(l)@, *cfg) == Ok::<_, Error>(
                    final(l)@.wallets,
                ) && final(l)@.assets == old(l)@.assets && final(l)@.statuses == old(
                    l,
                )@.statuses && final(l).wf(),
                Err(e) => exchange_intermediary_apply(self@, old(l)@, *cfg) == Err::<
                    Seq<(Seq<u8>, WalletV)>,
                    _,
                >(e) && *final(l) == *old(l),
            },
    {
        let ghost o = self@.offer;
        let ghost w0 = old(l)@.wallets;
        proof {
            assert forall|id: Seq<u8>| #[trigger] sum_hold(w0, id) <= u64::MAX by {
                assert(sum_hold(w0, id) <= reg_amount(old(l)@.assets, id));
            }
        }
        let st = match FeeStrategy::try_from(self.offer.fee_strategy) {
            Some(st) => st,
            None => {
                return Err(Error::InvalidTransaction);
            },
        };
        let fee = cfg.fees.exchange;
        let mut ws = l.wallets.duplicate();

        match st {
            FeeStrategy::Recipient => {
                proof {
                    lemma_move_pre(w0, o.recipient, cfg.genesis_wallet@, fee);
                }
                match ws.move_coins_between(&self.offer.recipient, &cfg.genesis_wallet, fee) {
                    Ok(()) => {},
                    Err(e) => {
                        return Err(e);
                    },
                }
                proof {
                    lemma_coins_moved_props(w0, o.recipient, cfg.genesis_wallet@, fee);
                }
            },
            FeeStrategy::Sender => {
                proof {
                    lemma_move_pre(w0, o.sender, cfg.genesis_wallet@, fee);
                }
                match ws.move_coins_between(&self.offer.sender, &cfg.genesis_wallet, fee) {
                    Ok(()) => {},
                    Err(e) => {
                        return Err(e);
                    },
                }
                proof {
                    lemma_coins_moved_props(w0, o.sender, cfg.genesis_wallet@, fee);
                }
            },
            FeeStrategy::SenderAndRecipient => {
                proof {
                    lemma_move_pre(w0, o.recipient, cfg.genesis_wallet@, fee / 2);
                }
                match ws.move_coins_between(&self.offer.recipient, &cfg.genesis_wallet, fee / 2) {
                    Ok(()) => {},
                    Err(e) => {
                        return Err(e);
                    },
                }
                proof {
                    lemma_coins_moved_props(w0, o.recipient, cfg.genesis_wallet@, fee / 2);
                }
                let ghost wa = ws@;
                proof {
                    lemma_move_pre(wa, o.sender, cfg.genesis_wallet@, (fee - fee / 2) as u64);
                }
                match ws.move_coins_between(
                    &self.offer.sender,
                    &cfg.genesis_wallet,
                    fee - fee / 2,
                ) {
                    Ok(()) => {},
                    Err(e) => {
                        return Err(e);
                    },
                }
                proof {
                    lemma_coins_moved_props(wa, o.sender, cfg.genesis_wallet@, (fee - fee
                        / 2) as u64);
                }
            },
            FeeStrategy::Intermediary => {
                proof {
                    lemma_move_pre(w0, o.intermediary.0, cfg.genesis_wallet@, fee);
                }
                match ws.move_coins_between(
                    &self.offer.intermediary.wallet,
                    &cfg.genesis_wallet,
                    fee,
                ) {
                    Ok(()) => {},
                    Err(e) => {
                        return Err(e);
                    },
                }
                proof {
                    lemma_coins_moved_props(w0, o.intermediary.0, cfg.genesis_wallet@, fee);
                }
            },
        }
        let ghost w1 = ws@;
        assert(fee_phase(w0, o, st, cfg.genesis_wallet@, fee) == Some(w1));

        proof {
            lemma_move_pre(w1, o.sender, o.intermediary.0, o.intermediary.1);
        }
        match ws.move_coins_between(
            &self.offer.sender,
            &self.offer.intermediary.wallet,
            self.offer.intermediary.commission,
        ) {
            Ok(()) => {},
            Err(e) => {
                return Err(e);
            },
        }
        proof {
            lemma_coins_moved_props(w1, o.sender, o.intermediary.0, o.intermediary.1);
        }

        let mut union: Vec<AssetBundle> = Vec::new();
        let mut i: usize = 0;
        while i < self.offer.sender_assets.len()
            invariant
                i <= self.offer.sender_assets@.len(),
                union@ =~= self.offer.sender_assets@.take(i as int),
            decreases self.offer.sender_assets@.len() - i,
        {
            union.push(self.offer.sender_assets[i]);
            i = i + 1;
        }
        assert(union@ =~= self.offer.sender_assets@);
        let mut k: usize = 0;
        while k < self.offer.recipient_assets.len()
            invariant
                k <= self.offer.recipient_assets@.len(),
                union@ =~= self.offer.sender_assets@ + self.offer.recipient_assets@.take(
                    k as int,
                ),
            decreases self.offer.recipient_assets@.len() - k,
        {
            union.push(self.offer.recipient_assets[k]);
            k = k + 1;
        }
        assert(union@ =~= self.offer.sender_assets@ + self.offer.recipient_assets@);
        assert(bundles_view(union@) =~= o.sender_assets + o.recipient_assets);

        let list = match third_party_fees(&l.assets, &union) {
            Ok(list) => list,
            Err(e) => {
                return Err(e);
            },
        };

        match st {
            FeeStrategy::Recipient => {
                match collect_payments(&mut ws, &self.offer.recipient, &list) {
                    Ok(()) => {},
                    Err(e) => {
                        return Err(e);
                    },
                }
            },
            FeeStrategy::Sender => {
                match collect_payments(&mut ws, &self.offer.sender, &list) {
                    Ok(()) => {},
                    Err(e) => {
                        return Err(e);
                    },
                }
            },
            FeeStrategy::SenderAndRecipient => {
                let halves = half_of(&list);
                let rests = rest_of(&list);
                match collect_payments(&mut ws, &self.offer.recipient, &halves) {
                    Ok(()) => {},
                    Err(e) => {
                        return Err(e);
                    },
                }
                match collect_payments(&mut ws, &self.offer.sender, &rests) {
                    Ok(()) => {},
                    Err(e) => {
                        return Err(e);
                    },
                }
            },
            FeeStrategy::Intermediary => {
                match collect_payments(&mut ws, &self.offer.intermediary.wallet, &list) {
                    Ok(()) => {},
                    Err(e) => {
                        return Err(e);
                    },
                }
            },
        }
        let ghost w2 = ws@;
        proof {
            lemma_swap_phase_props(w2, o.sender, o.sender_assets, o.sender_value, o.recipient,
                o.recipient_assets, o.recipient_value);
        }
        match settle_swap(
            &mut ws,
            &self.offer.sender,
            &self.offer.sender_assets,
            self.offer.sender_value,
            &self.offer.recipient,
            &self.offer.recipient_assets,
            self.offer.recipient_value,
        ) {
            Ok(()) => {},
            Err(e) => {
                return Err(e);
            },
        }

        l.wallets = ws;
        Ok(())
    }

    /// Execute against a fork: apply everything or nothing, then record
    /// the outcome under the transaction's hash.
    pub fn execute(&self, l: &mut Ledger, cfg: &Configuration)
        requires
            old(l).wf(),
        ensures
            final(l)@ == exchange_intermediary_execute_spec(self@, old(l)@, *cfg),
            final(l).wf(),
    {
        let h = self.hash();
        match self.process(l, cfg) {
            Ok(()) => {
                record(l, &h, TxStatus::Success);
            },
            Err(e) => {
                record(l, &h, TxStatus::Fail(e));
            },
        }
        assert(l@ == exchange_intermediary_execute_spec(self@, old(l)@, *cfg));
        assert(l.wf());
    }
}

} // verus!
