//! DeleteAssets: retire amounts of assets the signer's wallet holds,
//! decrementing both the wallet holding and the registry total, and
//! removing either entry when it reaches zero.
//!
//! A requested amount beyond the held amount fails the whole
//! transaction with `InsufficientAssets`; an asset the wallet does not
//! hold at all fails it with `AssetNotFound`.  Nothing is retired
//! partially.

use vstd::prelude::*;

use crate::assets::{bundles_view, copy_bundles, AssetBundle, AssetInfo, InfoV};
use crate::assoc::{sdel, sget, sput};
use crate::config::Configuration;
use crate::crypto::{ed25519_sig_of, ed25519_valid, sha256, sha256_of, sign, verify_signature};
use crate::encode::{bundles_bytes, push_bundles, push_key, push_u64, u64_le};
use crate::error::{Error, TxStatus};
use crate::keys::{PublicKey, SecretKey};
use crate::ledger::{coins_moved, lemma_coins_moved_props, lemma_fetched_wf, lemma_move_pre,
    lemma_registry_ok_del, lemma_registry_ok_put, lemma_sum_bal_put, lemma_sum_hold_put,
    lemma_sum_hold_single, lemma_wallets_ok_put, registry_ok, sum_bal, sum_hold, wallets_ok,
    Ledger, LedgerV};
use crate::stores::{fetched, reg_amount, whold};
use crate::transactions::transfer::record;
use crate::wallet::{debit_spec, hold, lemma_hold_debit, WalletV};

verus! {

/// The tag separating retirement bytes from every other kind's.
pub const DEL_ASSETS_TAG: u8 = 4;

/// A retirement of asset amounts held by the signer.
#[derive(Debug)]
pub struct DeleteAssets {
    pub_key: PublicKey,
    assets: Vec<AssetBundle>,
    seed: u64,
    signature: [u8; 64],
}

/// The mathematical value of a retirement.
pub ghost struct DeleteAssetsV {
    pub pub_key: Seq<u8>,
    pub assets: Seq<(Seq<u8>, u64)>,
    pub seed: u64,
    pub signature: Seq<u8>,
}

impl View for DeleteAssets {
    type V = DeleteAssetsV;

    closed spec fn view(&self) -> DeleteAssetsV {
        DeleteAssetsV {
            pub_key: self.pub_key@,
            assets: bundles_view(self.assets@),
            seed: self.seed,
            signature: self.signature@,
        }
    }
}

/// The canonical bytes the signer signs.
pub open spec fn del_assets_signed_bytes(t: DeleteAssetsV) -> Seq<u8> {
    seq![DEL_ASSETS_TAG] + t.pub_key + bundles_bytes(t.assets) + u64_le(t.seed)
}

/// The transaction hash that keys the status record.
pub open spec fn del_assets_hash(t: DeleteAssetsV) -> Seq<u8> {
    sha256_of(del_assets_signed_bytes(t))
}

/// Validity: positive amounts and the signer's signature.
pub open spec fn del_assets_valid(t: DeleteAssetsV) -> bool {
    &&& forall|i: int| 0 <= i < t.assets.len() ==> (#[trigger] t.assets[i]).1 > 0
    &&& ed25519_valid(t.pub_key, del_assets_signed_bytes(t), t.signature)
}

/// Retire each bundle in turn from the owner's wallet and the
/// registry, or the error of the first bundle that fails: the owner
/// holds none of the asset (`AssetNotFound`), or less than requested
/// (`InsufficientAssets`).  A zero amount retires nothing.
pub open spec fn retire_all(
    w: Seq<(Seq<u8>, WalletV)>,
    reg: Seq<(Seq<u8>, InfoV)>,
    owner: Seq<u8>,
    bs: Seq<(Seq<u8>, u64)>,
) -> Result<(Seq<(Seq<u8>, WalletV)>, Seq<(Seq<u8>, InfoV)>), Error>
    decreases bs.len(),
{
    if bs.len() == 0 {
        Ok((w, reg))
    } else {
        let id = bs.first().0;
        let amt = bs.first().1;
        if amt == 0 {
            retire_all(w, reg, owner, bs.drop_first())
        } else if whold(w, owner, id) == 0 {
            Err(Error::AssetNotFound)
        } else if whold(w, owner, id) < amt {
            Err(Error::InsufficientAssets)
        } else {
            match sget(reg, id) {
                None => Err(Error::AssetNotFound),
                Some(info) => {
                    if info.amount < amt {
                        Err(Error::InsufficientAssets)
                    } else {
                        let w2 = sput(w, owner, debit_spec(fetched(w, owner), id, amt));
                        let reg2 = if info.amount == amt {
                            sdel(reg, id)
                        } else {
                            sput(
                                reg,
                                id,
                                InfoV {
                                    creator: info.creator,
                                    amount: (info.amount - amt) as u64,
                                    tax: info.tax,
                                },
                            )
                        };
                        retire_all(w2, reg2, owner, bs.drop_first())
                    }
                },
            }
        }
    }
}

/// The ledger stores after a retirement's fee and per-bundle steps, or
/// the error of the first step that fails.
pub open spec fn del_assets_apply(t: DeleteAssetsV, l: LedgerV, cfg: Configuration) -> Result<
    (Seq<(Seq<u8>, WalletV)>, Seq<(Seq<u8>, InfoV)>),
    Error,
> {
    match coins_moved(l.wallets, t.pub_key, cfg.genesis_wallet@, cfg.fees.del_assets) {
        None => Err(Error::InsufficientFunds),
        Some(w1) => retire_all(w1, l.assets, t.pub_key, t.assets),
    }
}

/// What executing a retirement leaves behind.
pub open spec fn del_assets_execute_spec(t: DeleteAssetsV, l: LedgerV, cfg: Configuration)
    -> LedgerV {
    match del_assets_apply(t, l, cfg) {
        Ok(p) => LedgerV {
            wallets: p.0,
            assets: p.1,
            statuses: sput(l.statuses, del_assets_hash(t), TxStatus::Success),
        },
        Err(e) => LedgerV {
            wallets: l.wallets,
            assets: l.assets,
            statuses: sput(l.statuses, del_assets_hash(t), TxStatus::Fail(e)),
        },
    }
}

impl DeleteAssets {
    /// Build and sign a retirement.
    pub fn new(
        pub_key: &PublicKey,
        assets: Vec<AssetBundle>,
        seed: u64,
        secret: &SecretKey,
    ) -> (r: DeleteAssets)
        ensures
            r@.pub_key == pub_key@,
            r@.assets == bundles_view(assets@),
            r@.seed == seed,
            r@.signature == ed25519_sig_of(secret@, del_assets_signed_bytes(r@)),
    {
        let mut tx = DeleteAssets { pub_key: *pub_key, assets, seed, signature: [0u8; 64] };
        let msg = tx.signed_bytes();
        tx.signature = sign(secret, &msg);
        tx
    }

    /// The signer's public key.
    pub fn pub_key(&self) -> (r: &PublicKey)
        ensures
            r@ == self@.pub_key,
    {
        &self.pub_key
    }

    /// The bundles to retire.
    pub fn assets(&self) -> (r: Vec<AssetBundle>)
        ensures
            bundles_view(r@) == self@.assets,
    {
        copy_bundles(&self.assets)
    }

    /// The canonical bytes the signer signs.
    pub fn signed_bytes(&self) -> (r: Vec<u8>)
        ensures
            r@ == del_assets_signed_bytes(self@),
    {
        let mut v: Vec<u8> = Vec::new();
        v.push(DEL_ASSETS_TAG);
        assert(v@ =~= seq![DEL_ASSETS_TAG]);
        push_key(&mut v, &self.pub_key);
        push_bundles(&mut v, &self.assets);
        push_u64(&mut v, self.seed);
        assert(v@ =~= del_assets_signed_bytes(self@));
        v
    }

    /// The transaction hash that keys the status record.
    pub fn hash(&self) -> (r: Vec<u8>)
        ensures
            r@ == del_assets_hash(self@),
    {
        let bytes = self.signed_bytes();
        sha256(&bytes)
    }

    /// Stateless validity: structure and signature, no store access.
    #[verifier::loop_isolation(false)]
    pub fn verify(&self) -> (r: bool)
        ensures
            r == del_assets_valid(self@),
    {
        let mut i: usize = 0;
        while i < self.assets.len()
            invariant
                i <= self.assets@.len(),
                forall|j: int| 0 <= j < i ==> (#[trigger] self@.assets[j]).1 > 0,
            decreases self.assets@.len() - i,
        {
            if self.assets[i].amount() == 0 {
                assert(self@.assets[i as int].1 == 0);
                return false;
            }
            i = i + 1;
        }
        let msg = self.signed_bytes();
        verify_signature(&self.pub_key, &msg, &self.signature)
    }

    /// Apply the retirement's fee and per-bundle steps against the
    /// fork, committing only when every step succeeds.
    #[verifier::loop_isolation(false)]
    pub fn process(&self, l: &mut Ledger, cfg: &Configuration) -> (r: Result<(), Error>)
        requires
            old(l).wf(),
        ensures
            match r {
                Ok(_) => del_assets_apply(self@, old(l)@, *cfg) == Ok::<_, Error>(
                    (final(l)@.wallets, final(l)@.assets),
                ) && final(l)@.statuses == old(l)@.statuses && final(l).wf(),
                Err(e) => del_assets_apply(self@, old(l)@, *cfg) == Err::<
                    (Seq<(Seq<u8>, WalletV)>, Seq<(Seq<u8>, InfoV)>),
                    _,
                >(e) && *final(l) == *old(l),
            },
    {
        let ghost w0 = old(l)@.wallets;
        let ghost reg0 = old(l)@.assets;
        proof {
            assert forall|id: Seq<u8>| #[trigger] sum_hold(w0, id) <= u64::MAX by {
                assert(sum_hold(w0, id) <= reg_amount(reg0, id));
            }
        }
        let mut ws = l.wallets.duplicate();
        let mut rg = l.assets.duplicate();

        proof {
            lemma_move_pre(w0, self@.pub_key, cfg.genesis_wallet@, cfg.fees.del_assets);
        }
        match ws.move_coins_between(&self.pub_key, &cfg.genesis_wallet, cfg.fees.del_assets) {
            Ok(()) => {},
            Err(e) => {
                return Err(e);
            },
        }
        proof {
            lemma_coins_moved_props(w0, self@.pub_key, cfg.genesis_wallet@, cfg.fees.del_assets);
        }
        let ghost w1 = ws@;
        let ghost bs = bundles_view(self.assets@);
        assert(bs.skip(0) =~= bs);

        let mut i: usize = 0;
        while i < self.assets.len()
            invariant
                i <= self.assets@.len(),
                wallets_ok(ws@),
                registry_ok(rg@),
                sum_bal(ws@) == sum_bal(w0),
                forall|id: Seq<u8>| #[trigger] sum_hold(ws@, id) <= reg_amount(rg@, id),
                retire_all(ws@, rg@, self@.pub_key, bs.skip(i as int)) == retire_all(
                    w1,
                    reg0,
                    self@.pub_key,
                    bs,
                ),
            decreases self.assets@.len() - i,
        {
            let b = self.assets[i];
            let id = b.id();
            let amt = b.amount();
            assert(bs.skip(i as int).first() == b@);
            assert(bs.skip(i as int).drop_first() =~= bs.skip(i + 1));
            if amt > 0 {
                let mut w = ws.fetch(&self.pub_key);
                let held = w.amount_of(&id);
                if held == 0 {
                    return Err(Error::AssetNotFound);
                }
                if held < amt {
                    return Err(Error::InsufficientAssets);
                }
                let info = match rg.fetch(&id) {
                    Some(info) => info,
                    None => {
                        return Err(Error::AssetNotFound);
                    },
                };
                if info.amount() < amt {
                    return Err(Error::InsufficientAssets);
                }
                let ghost ws_before = ws@;
                let ghost rg_before = rg@;
                proof {
                    lemma_fetched_wf(ws@, self@.pub_key);
                    lemma_sum_hold_single(ws@, self@.pub_key, id@);
                }
                w.debit(&id, amt);
                ws.store(&self.pub_key, w);
                if info.amount() == amt {
                    rg.remove(&id);
                } else {
                    rg.store(
                        &id,
                        AssetInfo::new(&info.creator(), info.amount() - amt, info.fees()),
                    );
                }
                proof {
                    let wv = debit_spec(fetched(ws_before, self@.pub_key), id@, amt);
                    lemma_wallets_ok_put(ws_before, self@.pub_key, wv);
                    lemma_sum_bal_put(ws_before, self@.pub_key, wv);
                    if info@.amount == amt {
                        lemma_registry_ok_del(rg_before, id@);
                    } else {
                        lemma_registry_ok_put(
                            rg_before,
                            id@,
                            InfoV {
                                creator: info@.creator,
                                amount: (info@.amount - amt) as u64,
                                tax: info@.tax,
                            },
                        );
                    }
                    assert forall|id2: Seq<u8>| #[trigger] sum_hold(ws@, id2) <= reg_amount(
                        rg@,
                        id2,
                    ) by {
                        lemma_sum_hold_put(ws_before, self@.pub_key, wv, id2);
                        lemma_hold_debit(fetched(ws_before, self@.pub_key), id@, amt, id2);
                        if info@.amount == amt {
                            crate::assoc::lemma_sget_del(rg_before, id@, id2);
                        } else {
                            crate::assoc::lemma_sget_put(
                                rg_before,
                                id@,
                                InfoV {
                                    creator: info@.creator,
                                    amount: (info@.amount - amt) as u64,
                                    tax: info@.tax,
                                },
                                id2,
                            );
                        }
                        assert(sum_hold(ws_before, id2) <= reg_amount(rg_before, id2));
                    }
                }
            }
            i = i + 1;
        }
        assert(bs.skip(self.assets@.len() as int) =~= Seq::<(Seq<u8>, u64)>::empty());
        l.wallets = ws;
        l.assets = rg;
        Ok(())
    }

    /// Execute against a fork: apply everything or nothing, then record
    /// the outcome under the transaction's hash.
    pub fn execute(&self, l: &mut Ledger, cfg: &Configuration)
        requires
            old(l).wf(),
        ensures
            final(l)@ == del_assets_execute_spec(self@, old(l)@, *cfg),
            final(l).wf(),
    {
        let h = self.hash();
        match self.process(l, cfg) {
            Ok(()) => {
                record(l, &h, TxStatus::Success);
            },
            Err(e) => {
                record(l, &h, TxStatus::Fail(e));
            },
        }
        assert(l@ == del_assets_execute_spec(self@, old(l)@, *cfg));
        assert(l.wf());
    }
}

} // verus!
