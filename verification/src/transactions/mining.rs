//! Mining: a privileged emission transaction crediting the configured
//! reward to the signer's account.  It models coin issuance and still
//! records a status on every execution.

use vstd::prelude::*;

use crate::assoc::sput;
use crate::config::Configuration;
use crate::crypto::{ed25519_sig_of, ed25519_valid, sha256, sha256_of, sign, verify_signature};
use crate::encode::u64_le;
use crate::error::TxStatus;
use crate::keys::{PublicKey, SecretKey};
use crate::ledger::{lemma_fetched_wf, lemma_sum_bal_put, lemma_sum_bal_single, lemma_sum_hold_put,
    lemma_wallets_ok_put, sum_bal, sum_hold, Ledger, LedgerV};
use crate::stores::{fetched, reg_amount};
use crate::transactions::transfer::record;
use crate::wallet::WalletV;

verus! {

/// The tag separating mining bytes from every other kind's.
pub const MINING_TAG: u8 = 3;

/// An emission request by a miner.
#[derive(Debug)]
pub struct Mining {
    pub_key: PublicKey,
    seed: u64,
    signature: [u8; 64],
}

/// The mathematical value of an emission request.
pub ghost struct MiningV {
    pub pub_key: Seq<u8>,
    pub seed: u64,
    pub signature: Seq<u8>,
}

impl View for Mining {
    type V = MiningV;

    closed spec fn view(&self) -> MiningV {
        MiningV { pub_key: self.pub_key@, seed: self.seed, signature: self.signature@ }
    }
}

/// The canonical bytes the miner signs.
pub open spec fn mining_signed_bytes(t: MiningV) -> Seq<u8> {
    seq![MINING_TAG] + t.pub_key + u64_le(t.seed)
}

/// The transaction hash that keys the status record.
pub open spec fn mining_hash(t: MiningV) -> Seq<u8> {
    sha256_of(mining_signed_bytes(t))
}

/// Validity: the miner's signature over the signed bytes.
pub open spec fn mining_valid(t: MiningV) -> bool {
    ed25519_valid(t.pub_key, mining_signed_bytes(t), t.signature)
}

/// The wallet store after emission: the miner's balance grown by the
/// configured reward.
pub open spec fn mining_apply(t: MiningV, l: LedgerV, cfg: Configuration) -> Seq<
    (Seq<u8>, WalletV),
> {
    let w = fetched(l.wallets, t.pub_key);
    sput(
        l.wallets,
        t.pub_key,
        WalletV { balance: (w.balance + cfg.mining_reward) as u64, assets: w.assets },
    )
}

/// What executing an emission leaves behind: the credited wallet and a
/// success status; the operation has no failing step.
pub open spec fn mining_execute_spec(t: MiningV, l: LedgerV, cfg: Configuration) -> LedgerV {
    LedgerV {
        wallets: mining_apply(t, l, cfg),
        assets: l.assets,
        statuses: sput(l.statuses, mining_hash(t), TxStatus::Success),
    }
}

impl Mining {
    /// Build and sign an emission request.
    pub fn new(pub_key: &PublicKey, seed: u64, secret: &SecretKey) -> (r: Mining)
        ensures
            r@.pub_key == pub_key@,
            r@.seed == seed,
            r@.signature == ed25519_sig_of(secret@, mining_signed_bytes(r@)),
    {
        let mut tx = Mining { pub_key: *pub_key, seed, signature: [0u8; 64] };
        let msg = tx.signed_bytes();
        tx.signature = sign(secret, &msg);
        tx
    }

    /// The miner's public key.
    pub fn pub_key(&self) -> (r: &PublicKey)
        ensures
            r@ == self@.pub_key,
    {
        &self.pub_key
    }

    /// The canonical bytes the miner signs.
    pub fn signed_bytes(&self) -> (r: Vec<u8>)
        ensures
            r@ == mining_signed_bytes(self@),
    {
        let mut v: Vec<u8> = Vec::new();
        v.push(MINING_TAG);
        assert(v@ =~= seq![MINING_TAG]);
        crate::encode::push_key(&mut v, &self.pub_key);
        crate::encode::push_u64(&mut v, self.seed);
        assert(v@ =~= mining_signed_bytes(self@));
        v
    }

    /// The transaction hash that keys the status record.
    pub fn hash(&self) -> (r: Vec<u8>)
        ensures
            r@ == mining_hash(self@),
    {
        let bytes = self.signed_bytes();
        sha256(&bytes)
    }

    /// Stateless validity: the miner's signature.
    pub fn verify(&self) -> (r: bool)
        ensures
            r == mining_valid(self@),
    {
        let msg = self.signed_bytes();
        verify_signature(&self.pub_key, &msg, &self.signature)
    }

    /// Execute against a fork: credit the reward and record success.
    /// Emission grows the coin total, so the machine limit on the total
    /// is a precondition the host checks against `total_coins`.
    pub fn execute(&self, l: &mut Ledger, cfg: &Configuration)
        requires
            old(l).wf(),
            sum_bal(old(l)@.wallets) + cfg.mining_reward <= u64::MAX,
        ensures
            final(l)@ == mining_execute_spec(self@, old(l)@, *cfg),
            final(l).wf(),
    {
        let mut w = l.wallets.fetch(&self.pub_key);
        proof {
            lemma_sum_bal_single(l@.wallets, self@.pub_key);
            lemma_fetched_wf(l@.wallets, self@.pub_key);
        }
        let ghost w0 = w@;
        let ghost credited = WalletV {
            balance: (w0.balance + cfg.mining_reward) as u64,
            assets: w0.assets,
        };
        let reward = cfg.mining_reward;
        let new_balance = w.balance() + reward;
        w.set_balance(new_balance);
        proof {
            lemma_wallets_ok_put(old(l)@.wallets, self@.pub_key, credited);
            lemma_sum_bal_put(old(l)@.wallets, self@.pub_key, credited);
            assert forall|id: Seq<u8>| #[trigger] sum_hold(
                mining_apply(self@, old(l)@, *cfg),
                id,
            ) <= reg_amount(old(l)@.assets, id) by {
                lemma_sum_hold_put(old(l)@.wallets, self@.pub_key, credited, id);
            }
        }
        let h = self.hash();
        l.wallets.store(&self.pub_key, w);
        record(l, &h, TxStatus::Success);
        assert(l@ == mining_execute_spec(self@, old(l)@, *cfg));
        assert(l.wf());
    }
}

} // verus!
