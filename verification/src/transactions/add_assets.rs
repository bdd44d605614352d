//! AddAssets: an issuer registers one or more asset definitions,
//! paying the flat fee and the per-unit issuance cost to the treasury,
//! merging each asset into the registry under its deterministically
//! derived identifier, and crediting each stated receiver wallet.
//!
//! Re-issuance under the same identifier merges: circulation grows,
//! and a conflicting creator or fee schedule is a hard failure.  All
//! assets in one transaction are merged and credited, or none are.

use vstd::prelude::*;

use crate::assetid::{derived_id, AssetID};
use crate::assets::{InfoV, MetaAsset, MetaAssetV};
use crate::assoc::{lemma_sget_put, sget, sput};
use crate::config::Configuration;
use crate::crypto::{ed25519_sig_of, ed25519_valid, sha256, sha256_of, sign, verify_signature};
use crate::encode::{framed_str, push_key, push_str, push_u64, u64_le};
use crate::error::{Error, TxStatus};
use crate::keys::{PublicKey, SecretKey};
use crate::ledger::{coins_moved, lemma_coins_moved_props, lemma_fetched_wf, lemma_move_pre,
    lemma_registry_ok_put, lemma_sum_bal_put, lemma_sum_hold_put, lemma_sum_hold_single,
    lemma_wallets_ok_put, registry_ok, sum_bal, sum_hold, wallets_ok, Ledger, LedgerV};
use crate::stores::{fetched, reg_amount};
use crate::transactions::transfer::record;
use crate::wallet::{credit_spec, lemma_hold_credit, WalletV};

verus! {

/// The tag separating issuance bytes from every other kind's.
pub const ADD_ASSETS_TAG: u8 = 5;

/// An issuance of one or more asset definitions.
#[derive(PartialEq, Debug)]
pub struct AddAssets {
    pub_key: PublicKey,
    meta_assets: Vec<MetaAsset>,
    seed: u64,
    signature: [u8; 64],
}

/// The mathematical value of an issuance.
pub ghost struct AddAssetsV {
    pub pub_key: Seq<u8>,
    pub metas: Seq<MetaAssetV>,
    pub seed: u64,
    pub signature: Seq<u8>,
}

/// The mathematical value of an issuance request list.
pub open spec fn metas_view(s: Seq<MetaAsset>) -> Seq<MetaAssetV> {
    s.map_values(|m: MetaAsset| m@)
}

impl View for AddAssets {
    type V = AddAssetsV;

    closed spec fn view(&self) -> AddAssetsV {
        AddAssetsV {
            pub_key: self.pub_key@,
            metas: metas_view(self.meta_assets@),
            seed: self.seed,
            signature: self.signature@,
        }
    }
}

/// The bytes of one issuance request.
pub open spec fn meta_bytes(m: MetaAssetV) -> Seq<u8> {
    framed_str(m.data) + u64_le(m.amount) + u64_le(m.tax) + m.receiver
}

/// The bytes of an issuance request list.
pub open spec fn metas_items_bytes(ms: Seq<MetaAssetV>) -> Seq<u8>
    decreases ms.len(),
{
    if ms.len() == 0 {
        Seq::empty()
    } else {
        metas_items_bytes(ms.drop_last()) + meta_bytes(ms.last())
    }
}

/// The canonical bytes the issuer signs.
pub open spec fn add_assets_signed_bytes(t: AddAssetsV) -> Seq<u8> {
    seq![ADD_ASSETS_TAG] + t.pub_key + u64_le(t.metas.len() as u64) + metas_items_bytes(t.metas)
        + u64_le(t.seed)
}

/// The transaction hash that keys the status record.
pub open spec fn add_assets_hash(t: AddAssetsV) -> Seq<u8> {
    sha256_of(add_assets_signed_bytes(t))
}

/// Validity: positive issuance amounts and the issuer's signature.
pub open spec fn add_assets_valid(t: AddAssetsV) -> bool {
    &&& forall|i: int| 0 <= i < t.metas.len() ==> (#[trigger] t.metas[i]).amount > 0
    &&& ed25519_valid(t.pub_key, add_assets_signed_bytes(t), t.signature)
}

/// The units a request list issues in total.
pub open spec fn issue_units(ms: Seq<MetaAssetV>) -> int
    decreases ms.len(),
{
    if ms.len() == 0 {
        0
    } else {
        ms.first().amount + issue_units(ms.drop_first())
    }
}

/// Merge each request into the registry under its derived identifier
/// and credit its receiver, or the error of the first request that
/// fails: a zero or unrepresentable amount, or a merge against a
/// conflicting creator or fee schedule.
pub open spec fn issue_all(
    w: Seq<(Seq<u8>, WalletV)>,
    reg: Seq<(Seq<u8>, InfoV)>,
    issuer: Seq<u8>,
    ms: Seq<MetaAssetV>,
) -> Result<(Seq<(Seq<u8>, WalletV)>, Seq<(Seq<u8>, InfoV)>), Error>
    decreases ms.len(),
{
    if ms.len() == 0 {
        Ok((w, reg))
    } else {
        let m = ms.first();
        if m.amount == 0 {
            Err(Error::InvalidTransaction)
        } else {
            let id = derived_id(m.data, issuer);
            match sget(reg, id) {
                None => {
                    let entry = InfoV { creator: issuer, amount: m.amount, tax: m.tax };
                    issue_all(
                        sput(w, m.receiver, credit_spec(fetched(w, m.receiver), id, m.amount)),
                        sput(reg, id, entry),
                        issuer,
                        ms.drop_first(),
                    )
                },
                Some(cur) => {
                    if cur.creator != issuer || cur.tax != m.tax {
                        Err(Error::InvalidAssetInfo)
                    } else if cur.amount + m.amount > u64::MAX {
                        Err(Error::InvalidTransaction)
                    } else {
                        let entry = InfoV {
                            creator: issuer,
                            amount: (cur.amount + m.amount) as u64,
                            tax: m.tax,
                        };
                        issue_all(
                            sput(
                                w,
                                m.receiver,
                                credit_spec(fetched(w, m.receiver), id, m.amount),
                            ),
                            sput(reg, id, entry),
                            issuer,
                            ms.drop_first(),
                        )
                    }
                },
            }
        }
    }
}

/// The ledger stores after an issuance's fee and per-request steps, or
/// the error of the first step that fails.
pub open spec fn add_assets_apply(t: AddAssetsV, l: LedgerV, cfg: Configuration) -> Result<
    (Seq<(Seq<u8>, WalletV)>, Seq<(Seq<u8>, InfoV)>),
    Error,
> {
    if issue_units(t.metas) * cfg.fees.add_assets_per_entry > u64::MAX {
        Err(Error::InvalidTransaction)
    } else {
        match coins_moved(l.wallets, t.pub_key, cfg.genesis_wallet@, cfg.fees.add_assets) {
            None => Err(Error::InsufficientFunds),
            Some(w1) => match coins_moved(
                w1,
                t.pub_key,
                cfg.genesis_wallet@,
                (issue_units(t.metas) * cfg.fees.add_assets_per_entry) as u64,
            ) {
                None => Err(Error::InsufficientFunds),
                Some(w2) => issue_all(w2, l.assets, t.pub_key, t.metas),
            },
        }
    }
}

/// What executing an issuance leaves behind.
pub open spec fn add_assets_execute_spec(t: AddAssetsV, l: LedgerV, cfg: Configuration)
    -> LedgerV {
    match add_assets_apply(t, l, cfg) {
        Ok(p) => LedgerV {
            wallets: p.0,
            assets: p.1,
            statuses: sput(l.statuses, add_assets_hash(t), TxStatus::Success),
        },
        Err(e) => LedgerV {
            wallets: l.wallets,
            assets: l.assets,
            statuses: sput(l.statuses, add_assets_hash(t), TxStatus::Fail(e)),
        },
    }
}

impl AddAssets {
    /// Build and sign an issuance.
    pub fn new(
        pub_key: &PublicKey,
        meta_assets: Vec<MetaAsset>,
        seed: u64,
        secret: &SecretKey,
    ) -> (r: AddAssets)
        ensures
            r@.pub_key == pub_key@,
            r@.metas == metas_view(meta_assets@),
            r@.seed == seed,
            r@.signature == ed25519_sig_of(secret@, add_assets_signed_bytes(r@)),
    {
        let mut tx = AddAssets { pub_key: *pub_key, meta_assets, seed, signature: [0u8; 64] };
        let msg = tx.signed_bytes();
        tx.signature = sign(secret, &msg);
        tx
    }

    /// The issuer's public key.
    pub fn pub_key(&self) -> (r: &PublicKey)
        ensures
            r@ == self@.pub_key,
    {
        &self.pub_key
    }

    /// The canonical bytes the issuer signs.
    #[verifier::loop_isolation(false)]
    pub fn signed_bytes(&self) -> (r: Vec<u8>)
        ensures
            r@ == add_assets_signed_bytes(self@),
    {
        let ghost ms = metas_view(self.meta_assets@);
        let mut v: Vec<u8> = Vec::new();
        v.push(ADD_ASSETS_TAG);
        assert(v@ =~= seq![ADD_ASSETS_TAG]);
        push_key(&mut v, &self.pub_key);
        push_u64(&mut v, self.meta_assets.len() as u64);
        let ghost base = v@;
        assert(metas_items_bytes(ms.take(0)) =~= Seq::<u8>::empty());
        assert(v@ =~= base + metas_items_bytes(ms.take(0)));
        let mut i: usize = 0;
        while i < self.meta_assets.len()
            invariant
                i <= self.meta_assets@.len(),
                v@ =~= base + metas_items_bytes(ms.take(i as int)),
            decreases self.meta_assets@.len() - i,
        {
            let m = &self.meta_assets[i];
            push_str(&mut v, m.data().as_str());
            push_u64(&mut v, m.amount());
            push_u64(&mut v, m.fees().tax());
            push_key(&mut v, m.receiver());
            proof {
                assert(ms.take(i + 1).drop_last() =~= ms.take(i as int));
                assert(ms.take(i + 1).last() == m@);
            }
            assert(v@ =~= base + metas_items_bytes(ms.take(i + 1)));
            i = i + 1;
        }
        assert(ms.take(ms.len() as int) =~= ms);
        push_u64(&mut v, self.seed);
        assert(v@ =~= add_assets_signed_bytes(self@));
        v
    }

    /// The transaction hash that keys the status record.
    pub fn hash(&self) -> (r: Vec<u8>)
        ensures
            r@ == add_assets_hash(self@),
    {
        let bytes = self.signed_bytes();
        sha256(&bytes)
    }

    /// Stateless validity: structure and signature, no store access.
    #[verifier::loop_isolation(false)]
    pub fn verify(&self) -> (r: bool)
        ensures
            r == add_assets_valid(self@),
    {
        let mut i: usize = 0;
        while i < self.meta_assets.len()
            invariant
                i <= self.meta_assets@.len(),
                forall|j: int| 0 <= j < i ==> (#[trigger] self@.metas[j]).amount > 0,
            decreases self.meta_assets@.len() - i,
        {
            if !self.meta_assets[i].verify() {
                assert(self@.metas[i as int].amount == 0);
                return false;
            }
            i = i + 1;
        }
        let msg = self.signed_bytes();
        verify_signature(&self.pub_key, &msg, &self.signature)
    }

    /// The flat fee and the per-unit issuance cost of this transaction,
    /// or nothing when the cost exceeds the 64-bit range.
    #[verifier::loop_isolation(false)]
    pub fn fees(&self, cfg: &Configuration) -> (r: Option<(u64, u64)>)
        ensures
            match r {
                Some(p) => p.0 == cfg.fees.add_assets && p.1 == issue_units(self@.metas)
                    * cfg.fees.add_assets_per_entry,
                None => issue_units(self@.metas) * cfg.fees.add_assets_per_entry > u64::MAX,
            },
    {
        let ghost ms = self@.metas;
        if cfg.fees.add_assets_per_entry == 0 {
            return Some((cfg.fees.add_assets, 0));
        }
        assert(ms.skip(0) =~= ms);
        let mut units: u64 = 0;
        let mut i: usize = 0;
        while i < self.meta_assets.len()
            invariant
                i <= self.meta_assets@.len(),
                units + issue_units(ms.skip(i as int)) == issue_units(ms),
            decreases self.meta_assets@.len() - i,
        {
            proof {
                assert(ms.skip(i as int).first() == self.meta_assets@[i as int]@);
                assert(ms.skip(i as int).drop_first() =~= ms.skip(i + 1));
                lemma_issue_units_nonneg(ms.skip(i + 1));
            }
            units = match units.checked_add(self.meta_assets[i].amount()) {
                Some(u) => u,
                None => {
                    proof {
                        lemma_issue_units_nonneg(ms.skip(i + 1));
                        lemma_mul_mono(issue_units(ms), cfg.fees.add_assets_per_entry as int);
                    }
                    return None;
                },
            };
            i = i + 1;
        }
        assert(ms.skip(ms.len() as int) =~= Seq::<MetaAssetV>::empty());
        match units.checked_mul(cfg.fees.add_assets_per_entry) {
            Some(total) => Some((cfg.fees.add_assets, total)),
            None => None,
        }
    }

    /// Apply the issuance's fee and per-request steps against the
    /// fork, committing only when every step succeeds.
    #[verifier::loop_isolation(false)]
    pub fn process(&self, l: &mut Ledger, cfg: &Configuration) -> (r: Result<(), Error>)
        requires
            old(l).wf(),
        ensures
            match r {
                Ok(_) => add_assets_apply(self@, old(l)@, *cfg) == Ok::<_, Error>(
                    (final(l)@.wallets, final(l)@.assets),
                ) && final(l)@.statuses == old(l)@.statuses && final(l).wf(),
                Err(e) => add_assets_apply(self@, old(l)@, *cfg) == Err::<
                    (Seq<(Seq<u8>, WalletV)>, Seq<(Seq<u8>, InfoV)>),
                    _,
                >(e) && *final(l) == *old(l),
            },
    {
        let ghost w0 = old(l)@.wallets;
        let ghost reg0 = old(l)@.assets;
        proof {
            assert forall|id: Seq<u8>| #[trigger] sum_hold(w0, id) <= u64::MAX by {
                assert(sum_hold(w0, id) <= reg_amount(reg0, id));
            }
        }
        let (flat, assets_total) = match self.fees(cfg) {
            Some(p) => p,
            None => {
                return Err(Error::InvalidTransaction);
            },
        };
        let mut ws = l.wallets.duplicate();
        let mut rg = l.assets.duplicate();

        proof {
            lemma_move_pre(w0, self@.pub_key, cfg.genesis_wallet@, flat);
        }
        match ws.move_coins_between(&self.pub_key, &cfg.genesis_wallet, flat) {
            Ok(()) => {},
            Err(e) => {
                return Err(e);
            },
        }
        proof {
            lemma_coins_moved_props(w0, self@.pub_key, cfg.genesis_wallet@, flat);
        }
        let ghost w1 = ws@;
        proof {
            lemma_move_pre(w1, self@.pub_key, cfg.genesis_wallet@, assets_total);
        }
        match ws.move_coins_between(&self.pub_key, &cfg.genesis_wallet, assets_total) {
            Ok(()) => {},
            Err(e) => {
                return Err(e);
            },
        }
        proof {
            lemma_coins_moved_props(w1, self@.pub_key, cfg.genesis_wallet@, assets_total);
        }
        let ghost w2 = ws@;
        let ghost ms = self@.metas;
        assert(ms.skip(0) =~= ms);

        let mut i: usize = 0;
        while i < self.meta_assets.len()
            invariant
                i <= self.meta_assets@.len(),
                wallets_ok(ws@),
                registry_ok(rg@),
                sum_bal(ws@) == sum_bal(w0),
                forall|id: Seq<u8>| #[trigger] sum_hold(ws@, id) <= reg_amount(rg@, id),
                issue_all(ws@, rg@, self@.pub_key, ms.skip(i as int)) == issue_all(
                    w2,
                    reg0,
                    self@.pub_key,
                    ms,
                ),
            decreases self.meta_assets@.len() - i,
        {
            let m = &self.meta_assets[i];
            assert(ms.skip(i as int).first() == m@);
            assert(ms.skip(i as int).drop_first() =~= ms.skip(i + 1));
            if m.amount() == 0 {
                return Err(Error::InvalidTransaction);
            }
            let id = AssetID::from_data(m.data().as_str(), &self.pub_key);
            let entry = match rg.fetch(&id) {
                None => m.to_info(&self.pub_key),
                Some(cur) => {
                    match cur.merge(&m.to_info(&self.pub_key)) {
                        Ok(merged) => merged,
                        Err(e) => {
                            return Err(e);
                        },
                    }
                },
            };
            let receiver = *m.receiver();
            let mut w = ws.fetch(&receiver);
            let ghost ws_before = ws@;
            let ghost rg_before = rg@;
            proof {
                lemma_fetched_wf(ws@, receiver@);
                lemma_sum_hold_single(ws@, receiver@, id@);
            }
            w.credit(&id, m.amount());
            ws.store(&receiver, w);
            rg.store(&id, entry);
            proof {
                let wv = credit_spec(fetched(ws_before, receiver@), id@, m@.amount);
                lemma_wallets_ok_put(ws_before, receiver@, wv);
                lemma_sum_bal_put(ws_before, receiver@, wv);
                lemma_registry_ok_put(rg_before, id@, entry@);
                assert forall|id2: Seq<u8>| #[trigger] sum_hold(ws@, id2) <= reg_amount(
                    rg@,
                    id2,
                ) by {
                    lemma_sum_hold_put(ws_before, receiver@, wv, id2);
                    lemma_hold_credit(fetched(ws_before, receiver@), id@, m@.amount, id2);
                    lemma_sget_put(rg_before, id@, entry@, id2);
                    assert(sum_hold(ws_before, id2) <= reg_amount(rg_before, id2));
                }
            }
            i = i + 1;
        }
        assert(ms.skip(ms.len() as int) =~= Seq::<MetaAssetV>::empty());
        l.wallets = ws;
        l.assets = rg;
        Ok(())
    }

    /// Execute against a fork: apply everything or nothing, then record
    /// the outcome under the transaction's hash.
    pub fn execute(&self, l: &mut Ledger, cfg: &Configuration)
        requires
            old(l).wf(),
        ensures
            final(l)@ == add_assets_execute_spec(self@, old(l)@, *cfg),
            final(l).wf(),
    {
        let h = self.hash();
        match self.process(l, cfg) {
            Ok(()) => {
                record(l, &h, TxStatus::Success);
            },
            Err(e) => {
                record(l, &h, TxStatus::Fail(e));
            },
        }
        assert(l@ == add_assets_execute_spec(self@, old(l)@, *cfg));
        assert(l.wf());
    }
}

/// Issued unit totals are never negative.
pub proof fn lemma_issue_units_nonneg(ms: Seq<MetaAssetV>)
    ensures
        issue_units(ms) >= 0,
    decreases ms.len(),
{
    if ms.len() > 0 {
        lemma_issue_units_nonneg(ms.drop_first());
    }
}

/// A larger factor gives a product at least as large.
pub proof fn lemma_mul_mono(units: int, per: int)
    by (nonlinear_arith)
    requires
        units > u64::MAX,
        per >= 0,
    ensures
        per > 0 ==> units * per > u64::MAX,
{
}

} // verus!
