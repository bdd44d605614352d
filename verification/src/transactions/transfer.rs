//! Transfer: sender sends coins and asset bundles to a recipient, with
//! a message annotation.
//!
//! Execution order is fixed: the flat fee to the treasury first, then
//! each asset's tax to its creator, then the principal coin amount,
//! then the bundles.  A failure at any step leaves the fork unchanged
//! apart from the status record.

use vstd::prelude::*;

use crate::assets::{bundles_view, copy_bundles, AssetBundle};
use crate::assoc::{lemma_sput_distinct, sput};
use crate::config::Configuration;
use crate::crypto::{ed25519_sig_of, ed25519_valid, sha256, sha256_of, sign, verify_signature};
use crate::encode::{bundles_bytes, framed_str, push_bundles, push_key, push_str, push_u64, u64_le};
use crate::error::{Error, TxStatus};
use crate::fees::{collect_payments, pay_list, sum_others, sum_owed_others, third_party_fees,
    tp_fees};
use crate::keys::{PublicKey, SecretKey};
use crate::ledger::{assets_moved, coins_moved, lemma_amove_pre, lemma_assets_moved_props,
    lemma_coins_moved_props, lemma_move_pre, sum_hold, Ledger, LedgerV};
use crate::wallet::WalletV;

verus! {

/// The tag separating transfer bytes from every other kind's.
pub const TRANSFER_TAG: u8 = 1;

/// A transfer of coins and asset bundles from a sender to a recipient.
#[derive(Debug)]
pub struct Transfer {
    from: PublicKey,
    to: PublicKey,
    amount: u64,
    assets: Vec<AssetBundle>,
    seed: u64,
    data_info: String,
    signature: [u8; 64],
}

/// The mathematical value of a transfer.
pub ghost struct TransferV {
    pub from: Seq<u8>,
    pub to: Seq<u8>,
    pub amount: u64,
    pub assets: Seq<(Seq<u8>, u64)>,
    pub seed: u64,
    pub data_info: Seq<char>,
    pub signature: Seq<u8>,
}

impl View for Transfer {
    type V = TransferV;

    closed spec fn view(&self) -> TransferV {
        TransferV {
            from: self.from@,
            to: self.to@,
            amount: self.amount,
            assets: bundles_view(self.assets@),
            seed: self.seed,
            data_info: self.data_info@,
            signature: self.signature@,
        }
    }
}

/// The canonical bytes the sender signs: every field but the signature.
pub open spec fn transfer_signed_bytes(t: TransferV) -> Seq<u8> {
    seq![TRANSFER_TAG] + t.from + t.to + u64_le(t.amount) + bundles_bytes(t.assets) + u64_le(
        t.seed,
    ) + framed_str(t.data_info)
}

/// The transaction hash that keys the status record.
pub open spec fn transfer_hash(t: TransferV) -> Seq<u8> {
    sha256_of(transfer_signed_bytes(t))
}

/// Structural and cryptographic validity: distinct parties, positive
/// bundle amounts, and the sender's signature over the signed bytes.
pub open spec fn transfer_valid(t: TransferV) -> bool {
    &&& t.from != t.to
    &&& forall|i: int| 0 <= i < t.assets.len() ==> (#[trigger] t.assets[i]).1 > 0
    &&& ed25519_valid(t.from, transfer_signed_bytes(t), t.signature)
}

/// The wallet store after a transfer's fee, tax, coin and asset steps,
/// or the error of the first step that fails.
pub open spec fn transfer_apply(t: TransferV, l: LedgerV, cfg: Configuration) -> Result<
    Seq<(Seq<u8>, WalletV)>,
    Error,
> {
    match coins_moved(l.wallets, t.from, cfg.genesis_wallet@, cfg.fees.transfer) {
        None => Err(Error::InsufficientFunds),
        Some(w1) => match tp_fees(l.assets, t.assets) {
            Err(e) => Err(e),
            Ok(list) => match pay_list(w1, t.from, list) {
                None => Err(Error::InsufficientFunds),
                Some(w2) => match coins_moved(w2, t.from, t.to, t.amount) {
                    None => Err(Error::InsufficientFunds),
                    Some(w3) => match assets_moved(w3, t.from, t.to, t.assets) {
                        None => Err(Error::InsufficientAssets),
                        Some(w4) => Ok(w4),
                    },
                },
            },
        },
    }
}

/// What executing a transfer leaves behind: the applied wallet store on
/// success, the untouched ledger on failure, and in either case the
/// status recorded under the transaction's hash.
pub open spec fn transfer_execute_spec(t: TransferV, l: LedgerV, cfg: Configuration) -> LedgerV {
    match transfer_apply(t, l, cfg) {
        Ok(w) => LedgerV {
            wallets: w,
            assets: l.assets,
            statuses: sput(l.statuses, transfer_hash(t), TxStatus::Success),
        },
        Err(e) => LedgerV {
            wallets: l.wallets,
            assets: l.assets,
            statuses: sput(l.statuses, transfer_hash(t), TxStatus::Fail(e)),
        },
    }
}

impl Transfer {
    /// Build and sign a transfer.
    pub fn new(
        from: &PublicKey,
        to: &PublicKey,
        amount: u64,
        assets: Vec<AssetBundle>,
        seed: u64,
        data_info: String,
        secret: &SecretKey,
    ) -> (r: Transfer)
        ensures
            r@.from == from@,
            r@.to == to@,
            r@.amount == amount,
            r@.assets == bundles_view(assets@),
            r@.seed == seed,
            r@.data_info == data_info@,
            r@.signature == ed25519_sig_of(secret@, transfer_signed_bytes(r@)),
    {
        let mut tx = Transfer {
            from: *from,
            to: *to,
            amount,
            assets,
            seed,
            data_info,
            signature: [0u8; 64],
        };
        let msg = tx.signed_bytes();
        tx.signature = sign(secret, &msg);
        tx
    }

    /// The sender's public key.
    pub fn pub_key(&self) -> (r: &PublicKey)
        ensures
            r@ == self@.from,
    {
        &self.from
    }

    /// The recipient's public key.
    pub fn recipient(&self) -> (r: &PublicKey)
        ensures
            r@ == self@.to,
    {
        &self.to
    }

    /// The coin amount moved.
    pub fn amount(&self) -> (r: u64)
        ensures
            r == self@.amount,
    {
        self.amount
    }

    /// The bundles moved.
    pub fn assets(&self) -> (r: Vec<AssetBundle>)
        ensures
            bundles_view(r@) == self@.assets,
    {
        copy_bundles(&self.assets)
    }

    /// The fee map this transfer would owe, by payer: the flat fee
    /// plus every third-party tax the sender owes, computed purely
    /// from the registry without touching any wallet.
    pub fn fees(&self, reg: &crate::stores::Registry, cfg: &Configuration) -> (r: Result<
        Vec<(PublicKey, u64)>,
        Error,
    >)
        ensures
            match r {
                Ok(list) => tp_fees(reg@, self@.assets) matches Ok(tp)
                    && cfg.fees.transfer + sum_owed_others(tp, self@.from) <= u64::MAX
                    && crate::fees::payments_view(list@) =~= seq![
                    (
                        self@.from,
                        (cfg.fees.transfer + sum_owed_others(tp, self@.from)) as u64,
                    ),
                ],
                Err(e) => (tp_fees(reg@, self@.assets) == Err::<Seq<(Seq<u8>, u64)>, _>(e)) || (
                tp_fees(reg@, self@.assets) matches Ok(tp) && cfg.fees.transfer
                    + sum_owed_others(tp, self@.from) > u64::MAX && e
                    == Error::InvalidTransaction),
            },
    {
        let list = match third_party_fees(reg, &self.assets) {
            Ok(list) => list,
            Err(e) => {
                return Err(e);
            },
        };
        let taxes = match sum_others(&list, &self.from) {
            Some(t) => t,
            None => {
                return Err(Error::InvalidTransaction);
            },
        };
        let total = match cfg.fees.transfer.checked_add(taxes) {
            Some(t) => t,
            None => {
                return Err(Error::InvalidTransaction);
            },
        };
        let mut out: Vec<(PublicKey, u64)> = Vec::new();
        out.push((self.from, total));
        proof {
            crate::fees::lemma_sum_owed_nonneg(
                tp_fees(reg@, self@.assets)->Ok_0,
                self@.from,
            );
        }
        Ok(out)
    }

    /// The canonical bytes the sender signs.
    pub fn signed_bytes(&self) -> (r: Vec<u8>)
        ensures
            r@ == transfer_signed_bytes(self@),
    {
        let mut v: Vec<u8> = Vec::new();
        v.push(TRANSFER_TAG);
        assert(v@ =~= seq![TRANSFER_TAG]);
        push_key(&mut v, &self.from);
        push_key(&mut v, &self.to);
        push_u64(&mut v, self.amount);
        push_bundles(&mut v, &self.assets);
        push_u64(&mut v, self.seed);
        push_str(&mut v, self.data_info.as_str());
        assert(v@ =~= transfer_signed_bytes(self@));
        v
    }

    /// The transaction hash that keys the status record.
    pub fn hash(&self) -> (r: Vec<u8>)
        ensures
            r@ == transfer_hash(self@),
    {
        let bytes = self.signed_bytes();
        sha256(&bytes)
    }

    /// Stateless validity: structure and signature, no store access.
    #[verifier::loop_isolation(false)]
    pub fn verify(&self) -> (r: bool)
        ensures
            r == transfer_valid(self@),
    {
        if self.from.equals(&self.to) {
            return false;
        }
        let mut i: usize = 0;
        while i < self.assets.len()
            invariant
                i <= self.assets@.len(),
                forall|j: int| 0 <= j < i ==> (#[trigger] self@.assets[j]).1 > 0,
            decreases self.assets@.len() - i,
        {
            if self.assets[i].amount() == 0 {
                assert(self@.assets[i as int].1 == 0);
                return false;
            }
            i = i + 1;
        }
        let msg = self.signed_bytes();
        verify_signature(&self.from, &msg, &self.signature)
    }

    /// Apply the transfer's fee, tax, coin and asset steps against the
    /// fork, committing only when every step succeeds.
    #[verifier::loop_isolation(false)]
    pub fn process(&self, l: &mut Ledger, cfg: &Configuration) -> (r: Result<(), Error>)
        requires
            old(l).wf(),
        ensures
            match r {
                Ok(_) => transfer_apply(self@, old(l)@, *cfg) == Ok::<_, Error>(
                    final(l)@.wallets,
                ) && final(l)@.assets == old(l)@.assets && final(l)@.statuses == old(
                    l,
                )@.statuses && final(l).wf(),
                Err(e) => transfer_apply(self@, old(l)@, *cfg) == Err::<Seq<(Seq<u8>, WalletV)>,
                    _,
                >(e) && *final(l) == *old(l),
            },
    {
        let ghost w0 = old(l)@.wallets;
        proof {
            assert forall|id: Seq<u8>| #[trigger] sum_hold(w0, id) <= u64::MAX by {
                assert(sum_hold(w0, id) <= crate::stores::reg_amount(old(l)@.assets, id));
            }
        }
        let mut ws = l.wallets.duplicate();

        proof {
            lemma_move_pre(w0, self@.from, cfg.genesis_wallet@, cfg.fees.transfer);
        }
        match ws.move_coins_between(&self.from, &cfg.genesis_wallet, cfg.fees.transfer) {
            Ok(()) => {},
            Err(e) => {
                return Err(e);
            },
        }
        proof {
            lemma_coins_moved_props(w0, self@.from, cfg.genesis_wallet@, cfg.fees.transfer);
        }

        let list = match third_party_fees(&l.assets, &self.assets) {
            Ok(list) => list,
            Err(e) => {
                return Err(e);
            },
        };
        let ghost w1 = ws@;
        match collect_payments(&mut ws, &self.from, &list) {
            Ok(()) => {},
            Err(e) => {
                return Err(e);
            },
        }

        let ghost w2 = ws@;
        proof {
            lemma_move_pre(w2, self@.from, self@.to, self@.amount);
        }
        match ws.move_coins_between(&self.from, &self.to, self.amount) {
            Ok(()) => {},
            Err(e) => {
                return Err(e);
            },
        }
        proof {
            lemma_coins_moved_props(w2, self@.from, self@.to, self@.amount);
        }

        let ghost w3 = ws@;
        proof {
            lemma_amove_pre(w3, self@.from, self@.to);
        }
        match ws.move_assets_between(&self.from, &self.to, &self.assets) {
            Ok(()) => {},
            Err(e) => {
                return Err(e);
            },
        }
        proof {
            lemma_assets_moved_props(w3, self@.from, self@.to, self@.assets);
        }

        l.wallets = ws;
        Ok(())
    }

    /// Execute against a fork: apply everything or nothing, then record
    /// the outcome under the transaction's hash.
    pub fn execute(&self, l: &mut Ledger, cfg: &Configuration)
        requires
            old(l).wf(),
        ensures
            final(l)@ == transfer_execute_spec(self@, old(l)@, *cfg),
            final(l).wf(),
    {
        let h = self.hash();
        match self.process(l, cfg) {
            Ok(()) => {
                record(l, &h, TxStatus::Success);
            },
            Err(e) => {
                record(l, &h, TxStatus::Fail(e));
            },
        }
    }
}

/// Record a status, keeping the status keys distinct.
pub fn record(l: &mut Ledger, h: &Vec<u8>, st: TxStatus)
    ensures
        final(l)@.statuses == sput(old(l)@.statuses, h@, st),
        final(l)@.wallets == old(l)@.wallets,
        final(l)@.assets == old(l)@.assets,
        crate::assoc::keys_distinct(old(l)@.statuses) ==> crate::assoc::keys_distinct(
            final(l)@.statuses,
        ),
{
    proof {
        if crate::assoc::keys_distinct(l@.statuses) {
            lemma_sput_distinct(l@.statuses, h@, st);
        }
    }
    l.statuses.set_status(h, st);
}

} // verus!
