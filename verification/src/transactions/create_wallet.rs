//! CreateWallet: seed a wallet at the signer's key with the configured
//! initial balance.
//!
//! Re-invocation for an existing key overwrites the balance and assets
//! to the same initial state: the operation is idempotent by design,
//! not additive.

use vstd::prelude::*;

use crate::assoc::sput;
use crate::config::Configuration;
use crate::crypto::{ed25519_sig_of, ed25519_valid, sha256, sha256_of, sign, verify_signature};
use crate::encode::u64_le;
use crate::error::TxStatus;
use crate::keys::{PublicKey, SecretKey};
use crate::ledger::{lemma_sum_bal_put, lemma_sum_hold_put, lemma_wallets_ok_put, sum_bal,
    sum_hold, Ledger, LedgerV};
use crate::stores::{bal, reg_amount};
use crate::transactions::transfer::record;
use crate::wallet::{hold, Wallet, WalletV};

verus! {

/// The tag separating wallet-creation bytes from every other kind's.
pub const CREATE_WALLET_TAG: u8 = 2;

/// A request to seed a fresh externally-owned account.
#[derive(Debug)]
pub struct CreateWallet {
    pub_key: PublicKey,
    seed: u64,
    signature: [u8; 64],
}

/// The mathematical value of a wallet-creation request.
pub ghost struct CreateWalletV {
    pub pub_key: Seq<u8>,
    pub seed: u64,
    pub signature: Seq<u8>,
}

impl View for CreateWallet {
    type V = CreateWalletV;

    closed spec fn view(&self) -> CreateWalletV {
        CreateWalletV { pub_key: self.pub_key@, seed: self.seed, signature: self.signature@ }
    }
}

/// The canonical bytes the signer signs.
pub open spec fn create_wallet_signed_bytes(t: CreateWalletV) -> Seq<u8> {
    seq![CREATE_WALLET_TAG] + t.pub_key + u64_le(t.seed)
}

/// The transaction hash that keys the status record.
pub open spec fn create_wallet_hash(t: CreateWalletV) -> Seq<u8> {
    sha256_of(create_wallet_signed_bytes(t))
}

/// Validity: the signer's signature over the signed bytes.
pub open spec fn create_wallet_valid(t: CreateWalletV) -> bool {
    ed25519_valid(t.pub_key, create_wallet_signed_bytes(t), t.signature)
}

/// The wallet store after seeding: the signer's wallet overwritten with
/// the configured initial balance and no assets.
pub open spec fn create_wallet_apply(t: CreateWalletV, l: LedgerV, cfg: Configuration) -> Seq<
    (Seq<u8>, WalletV),
> {
    sput(
        l.wallets,
        t.pub_key,
        WalletV { balance: cfg.initial_balance, assets: Seq::empty() },
    )
}

/// What executing a wallet creation leaves behind: the seeded wallet
/// and a success status; the operation has no failing step.
pub open spec fn create_wallet_execute_spec(
    t: CreateWalletV,
    l: LedgerV,
    cfg: Configuration,
) -> LedgerV {
    LedgerV {
        wallets: create_wallet_apply(t, l, cfg),
        assets: l.assets,
        statuses: sput(l.statuses, create_wallet_hash(t), TxStatus::Success),
    }
}

impl CreateWallet {
    /// Build and sign a wallet-creation request.
    pub fn new(pub_key: &PublicKey, seed: u64, secret: &SecretKey) -> (r: CreateWallet)
        ensures
            r@.pub_key == pub_key@,
            r@.seed == seed,
            r@.signature == ed25519_sig_of(secret@, create_wallet_signed_bytes(r@)),
    {
        let mut tx = CreateWallet { pub_key: *pub_key, seed, signature: [0u8; 64] };
        let msg = tx.signed_bytes();
        tx.signature = sign(secret, &msg);
        tx
    }

    /// The signer's public key, where the wallet is seeded.
    pub fn pub_key(&self) -> (r: &PublicKey)
        ensures
            r@ == self@.pub_key,
    {
        &self.pub_key
    }

    /// The canonical bytes the signer signs.
    pub fn signed_bytes(&self) -> (r: Vec<u8>)
        ensures
            r@ == create_wallet_signed_bytes(self@),
    {
        let mut v: Vec<u8> = Vec::new();
        v.push(CREATE_WALLET_TAG);
        assert(v@ =~= seq![CREATE_WALLET_TAG]);
        crate::encode::push_key(&mut v, &self.pub_key);
        crate::encode::push_u64(&mut v, self.seed);
        assert(v@ =~= create_wallet_signed_bytes(self@));
        v
    }

    /// The transaction hash that keys the status record.
    pub fn hash(&self) -> (r: Vec<u8>)
        ensures
            r@ == create_wallet_hash(self@),
    {
        let bytes = self.signed_bytes();
        sha256(&bytes)
    }

    /// Stateless validity: the signer's signature.
    pub fn verify(&self) -> (r: bool)
        ensures
            r == create_wallet_valid(self@),
    {
        let msg = self.signed_bytes();
        verify_signature(&self.pub_key, &msg, &self.signature)
    }

    /// Execute against a fork: overwrite the signer's wallet with the
    /// initial state and record success.  Seeding mints coins, so the
    /// machine limit on the coin total is a precondition the host
    /// checks against `total_coins`.
    pub fn execute(&self, l: &mut Ledger, cfg: &Configuration)
        requires
            old(l).wf(),
            sum_bal(old(l)@.wallets) - bal(old(l)@.wallets, self@.pub_key)
                + cfg.initial_balance <= u64::MAX,
        ensures
            final(l)@ == create_wallet_execute_spec(self@, old(l)@, *cfg),
            final(l).wf(),
    {
        let ghost seeded = WalletV { balance: cfg.initial_balance, assets: Seq::empty() };
        proof {
            assert(crate::assoc::keys_distinct(seeded.assets)) by {
                assert(seeded.assets.len() == 0);
            }
            lemma_wallets_ok_put(l@.wallets, self@.pub_key, seeded);
            lemma_sum_bal_put(l@.wallets, self@.pub_key, seeded);
            assert forall|id: Seq<u8>| #[trigger] sum_hold(
                create_wallet_apply(self@, old(l)@, *cfg),
                id,
            ) <= reg_amount(old(l)@.assets, id) by {
                lemma_sum_hold_put(old(l)@.wallets, self@.pub_key, seeded, id);
                assert(hold(seeded, id) == 0);
            }
        }
        let w = Wallet::with_balance(cfg.initial_balance);
        let ghost wv = w@;
        assert(wv =~= seeded);
        let h = self.hash();
        l.wallets.store(&self.pub_key, w);
        record(l, &h, TxStatus::Success);
        assert(l@ == create_wallet_execute_spec(self@, old(l)@, *cfg));
        assert(l.wf());
    }
}

} // verus!
