//! Accounts and the value- and asset-transfer primitives.
//!
//! A wallet holds an unsigned currency balance and a mapping from asset
//! identifier to owned amount.  The invariant of a well-formed wallet:
//! asset identifiers are unique and no entry has amount zero — an
//! amount that reaches zero is removed, never kept.
//!
//! `move_coins` and `move_assets` mutate the caller's in-memory copies
//! and perform no store access, so a multi-step transaction can compose
//! several moves before any write becomes visible.

use vstd::prelude::*;

use crate::assets::{bundles_view, AssetBundle};
use crate::assetid::AssetID;
use crate::assoc::{
    keys_distinct, lemma_sdel_at, lemma_sdel_distinct, lemma_sdel_entries, lemma_sget_absent,
    lemma_sget_at, lemma_sget_del, lemma_sget_put, lemma_sput_absent,
    lemma_sput_at, lemma_sput_distinct, lemma_sput_entries, sdel, sget, sput,
};
use crate::error::Error;

verus! {

/// The mathematical value of a wallet: a balance and a finite map from
/// asset identifier to a positive owned amount.
pub ghost struct WalletV {
    pub balance: u64,
    pub assets: Seq<(Seq<u8>, u64)>,
}

/// A well-formed wallet: asset identifiers unique, no zero amounts.
pub open spec fn wallet_wf(w: WalletV) -> bool {
    &&& keys_distinct(w.assets)
    &&& forall|i: int| 0 <= i < w.assets.len() ==> w.assets[i].1 > 0
}

/// How much of asset `id` the wallet holds; zero when absent.
pub open spec fn hold(w: WalletV, id: Seq<u8>) -> u64 {
    match sget(w.assets, id) {
        Some(a) => a,
        None => 0u64,
    }
}

/// The wallet after crediting `amount` units of `id`.  Crediting zero
/// changes nothing: a zero entry is never created.
pub open spec fn credit_spec(w: WalletV, id: Seq<u8>, amount: u64) -> WalletV {
    if amount == 0 {
        w
    } else {
        WalletV { balance: w.balance, assets: sput(w.assets, id, (hold(w, id) + amount) as u64) }
    }
}

/// The wallet after debiting `amount` units of `id`, removing the entry
/// when it reaches zero.
pub open spec fn debit_spec(w: WalletV, id: Seq<u8>, amount: u64) -> WalletV {
    if amount == 0 {
        w
    } else if hold(w, id) == amount {
        WalletV { balance: w.balance, assets: sdel(w.assets, id) }
    } else {
        WalletV { balance: w.balance, assets: sput(w.assets, id, (hold(w, id) - amount) as u64) }
    }
}

/// Crediting changes only the credited asset.
pub proof fn lemma_hold_credit(w: WalletV, id: Seq<u8>, amount: u64, id2: Seq<u8>)
    requires
        hold(w, id) + amount <= u64::MAX,
    ensures
        hold(credit_spec(w, id, amount), id2) == if id2 == id {
            (hold(w, id) + amount) as u64
        } else {
            hold(w, id2)
        },
{
    if amount != 0 {
        lemma_sget_put(w.assets, id, (hold(w, id) + amount) as u64, id2);
    }
}

/// Debiting changes only the debited asset.
pub proof fn lemma_hold_debit(w: WalletV, id: Seq<u8>, amount: u64, id2: Seq<u8>)
    requires
        wallet_wf(w),
        hold(w, id) >= amount,
    ensures
        hold(debit_spec(w, id, amount), id2) == if id2 == id {
            (hold(w, id) - amount) as u64
        } else {
            hold(w, id2)
        },
{
    if amount != 0 {
        if hold(w, id) == amount {
            lemma_sget_del(w.assets, id, id2);
        } else {
            lemma_sget_put(w.assets, id, (hold(w, id) - amount) as u64, id2);
        }
    }
}

/// Crediting keeps a wallet well-formed and its balance unchanged.
pub proof fn lemma_credit_wf(w: WalletV, id: Seq<u8>, amount: u64)
    requires
        wallet_wf(w),
        hold(w, id) + amount <= u64::MAX,
    ensures
        wallet_wf(credit_spec(w, id, amount)),
        credit_spec(w, id, amount).balance == w.balance,
{
    if amount != 0 {
        let v = (hold(w, id) + amount) as u64;
        lemma_sput_distinct(w.assets, id, v);
        lemma_sput_entries(w.assets, id, v);
        assert forall|i: int| 0 <= i < sput(w.assets, id, v).len() implies sput(
            w.assets,
            id,
            v,
        )[i].1 > 0 by {
            if sput(w.assets, id, v)[i] != (id, v) {
                let j = choose|j: int| 0 <= j < w.assets.len() && w.assets[j] == sput(
                    w.assets,
                    id,
                    v,
                )[i];
                assert(w.assets[j].1 > 0);
            }
        }
    }
}

/// Debiting keeps a wallet well-formed and its balance unchanged.
pub proof fn lemma_debit_wf(w: WalletV, id: Seq<u8>, amount: u64)
    requires
        wallet_wf(w),
        hold(w, id) >= amount,
    ensures
        wallet_wf(debit_spec(w, id, amount)),
        debit_spec(w, id, amount).balance == w.balance,
{
    if amount != 0 {
        if hold(w, id) == amount {
            lemma_sdel_distinct(w.assets, id);
            lemma_sdel_entries(w.assets, id);
            assert forall|i: int| 0 <= i < sdel(w.assets, id).len() implies sdel(
                w.assets,
                id,
            )[i].1 > 0 by {
                let j = choose|j: int| 0 <= j < w.assets.len() && w.assets[j] == sdel(
                    w.assets,
                    id,
                )[i];
                assert(w.assets[j].1 > 0);
            }
        } else {
            let v = (hold(w, id) - amount) as u64;
            lemma_sput_distinct(w.assets, id, v);
            lemma_sput_entries(w.assets, id, v);
            assert forall|i: int| 0 <= i < sput(w.assets, id, v).len() implies sput(
                w.assets,
                id,
                v,
            )[i].1 > 0 by {
                if sput(w.assets, id, v)[i] != (id, v) {
                    let j = choose|j: int| 0 <= j < w.assets.len() && w.assets[j] == sput(
                        w.assets,
                        id,
                        v,
                    )[i];
                    assert(w.assets[j].1 > 0);
                }
            }
        }
    }
}

/// An account: a currency balance and the assets it owns.
#[derive(Debug)]
pub struct Wallet {
    balance: u64,
    assets: Vec<AssetBundle>,
}

impl View for Wallet {
    type V = WalletV;

    closed spec fn view(&self) -> WalletV {
        WalletV { balance: self.balance, assets: bundles_view(self.assets@) }
    }
}

impl Wallet {
    /// Whether the wallet is well-formed.
    pub open spec fn wf(&self) -> bool {
        wallet_wf(self@)
    }

    /// An empty wallet: zero balance, no assets.
    pub fn new() -> (r: Wallet)
        ensures
            r@ == (WalletV { balance: 0u64, assets: Seq::empty() }),
            r.wf(),
    {
        let w = Wallet { balance: 0, assets: Vec::new() };
        proof {
            assert(bundles_view(w.assets@) =~= Seq::<(Seq<u8>, u64)>::empty());
        }
        w
    }

    /// A wallet with a balance and no assets.
    pub fn with_balance(balance: u64) -> (r: Wallet)
        ensures
            r@ == (WalletV { balance: balance, assets: Seq::empty() }),
            r.wf(),
    {
        let w = Wallet { balance, assets: Vec::new() };
        proof {
            assert(bundles_view(w.assets@) =~= Seq::<(Seq<u8>, u64)>::empty());
        }
        w
    }

    /// The currency balance.
    pub fn balance(&self) -> (r: u64)
        ensures
            r == self@.balance,
    {
        self.balance
    }

    /// Replace the currency balance.
    pub fn set_balance(&mut self, balance: u64)
        ensures
            final(self)@ == (WalletV { balance: balance, assets: old(self)@.assets }),
    {
        self.balance = balance;
    }

    /// The owned assets, one bundle per identifier.
    pub fn assets(&self) -> (r: Vec<AssetBundle>)
        ensures
            bundles_view(r@) == self@.assets,
    {
        let mut out: Vec<AssetBundle> = Vec::new();
        let mut i: usize = 0;
        while i < self.assets.len()
            invariant
                i <= self.assets@.len(),
                out@ =~= self.assets@.take(i as int),
            decreases self.assets@.len() - i,
        {
            out.push(self.assets[i]);
            i = i + 1;
        }
        assert(out@ =~= self.assets@);
        assert(bundles_view(out@) =~= bundles_view(self.assets@));
        out
    }

    /// An identical copy of the wallet.
    pub fn duplicate(&self) -> (r: Wallet)
        ensures
            r@ == self@,
    {
        let mut assets: Vec<AssetBundle> = Vec::new();
        let mut i: usize = 0;
        while i < self.assets.len()
            invariant
                i <= self.assets@.len(),
                assets@ =~= self.assets@.take(i as int),
            decreases self.assets@.len() - i,
        {
            assets.push(self.assets[i]);
            i = i + 1;
        }
        assert(assets@ =~= self.assets@);
        let r = Wallet { balance: self.balance, assets };
        assert(r@.assets =~= self@.assets);
        r
    }

    /// The bundle the wallet holds under `id`, if any.
    pub fn asset(&self, id: AssetID) -> (r: Option<AssetBundle>)
        ensures
            match r {
                Some(b) => sget(self@.assets, id@) == Some(b@.1) && b@.0 == id@,
                None => sget(self@.assets, id@) is None,
            },
    {
        let mut i: usize = 0;
        while i < self.assets.len()
            invariant
                i <= self.assets@.len(),
                forall|j: int| 0 <= j < i ==> self@.assets[j].0 != id@,
            decreases self.assets@.len() - i,
        {
            let b = self.assets[i];
            if b.id().equals(&id) {
                proof {
                    lemma_sget_at(self@.assets, id@, i as int);
                }
                return Some(b);
            }
            i = i + 1;
        }
        proof {
            lemma_sget_absent(self@.assets, id@);
        }
        None
    }

    /// How much of `id` the wallet holds; zero when absent.
    pub fn amount_of(&self, id: &AssetID) -> (r: u64)
        ensures
            r == hold(self@, id@),
    {
        match self.asset(*id) {
            Some(b) => b.amount(),
            None => 0,
        }
    }

    /// Credit `amount` units of `id`, creating the entry if absent.
    #[verifier::loop_isolation(false)]
    pub fn credit(&mut self, id: &AssetID, amount: u64)
        requires
            old(self).wf(),
            hold(old(self)@, id@) + amount <= u64::MAX,
        ensures
            final(self)@ == credit_spec(old(self)@, id@, amount),
            final(self).wf(),
    {
        proof {
            lemma_credit_wf(self@, id@, amount);
        }
        if amount == 0 {
            return;
        }
        let ghost target = sput(old(self)@.assets, id@, (hold(old(self)@, id@) + amount) as u64);
        let mut i: usize = 0;
        while i < self.assets.len()
            invariant
                i <= self.assets@.len(),
                *self == *old(self),
                forall|j: int| 0 <= j < i ==> self@.assets[j].0 != id@,
            decreases self.assets@.len() - i,
        {
            let b = self.assets[i];
            if b.id().equals(&id) {
                proof {
                    assert(self@.assets[i as int] == b@);
                    lemma_sget_at(self@.assets, id@, i as int);
                    assert(hold(self@, id@) == b@.1);
                    lemma_sput_at(
                        self@.assets,
                        id@,
                        (hold(self@, id@) + amount) as u64,
                        i as int,
                    );
                }
                let updated = AssetBundle::new(*id, b.amount() + amount);
                self.assets.set(i, updated);
                assert(self@.assets =~= target);
                return;
            }
            i = i + 1;
        }
        proof {
            lemma_sget_absent(self@.assets, id@);
            lemma_sput_absent(self@.assets, id@, (hold(self@, id@) + amount) as u64);
        }
        self.assets.push(AssetBundle::new(*id, amount));
        assert(self@.assets =~= target);
    }

    /// Debit `amount` units of `id`, removing the entry at zero.
    #[verifier::loop_isolation(false)]
    pub fn debit(&mut self, id: &AssetID, amount: u64)
        requires
            old(self).wf(),
            hold(old(self)@, id@) >= amount,
        ensures
            final(self)@ == debit_spec(old(self)@, id@, amount),
            final(self).wf(),
    {
        proof {
            lemma_debit_wf(self@, id@, amount);
        }
        if amount == 0 {
            return;
        }
        let mut i: usize = 0;
        while i < self.assets.len()
            invariant
                i <= self.assets@.len(),
                *self == *old(self),
                forall|j: int| 0 <= j < i ==> self@.assets[j].0 != id@,
            decreases self.assets@.len() - i,
        {
            let b = self.assets[i];
            if b.id().equals(&id) {
                proof {
                    assert(self@.assets[i as int] == b@);
                    lemma_sget_at(self@.assets, id@, i as int);
                    assert(hold(self@, id@) == b@.1);
                }
                let cur = b.amount();
                if cur == amount {
                    proof {
                        lemma_sdel_at(self@.assets, id@, i as int);
                    }
                    let ghost target = sdel(old(self)@.assets, id@);
                    self.assets.remove(i);
                    assert(self@.assets =~= target);
                } else {
                    proof {
                        lemma_sput_at(self@.assets, id@, (cur - amount) as u64, i as int);
                    }
                    let ghost target = sput(
                        old(self)@.assets,
                        id@,
                        (hold(old(self)@, id@) - amount) as u64,
                    );
                    self.assets.set(i, AssetBundle::new(*id, cur - amount));
                    assert(self@.assets =~= target);
                }
                return;
            }
            i = i + 1;
        }
        proof {
            lemma_sget_absent(self@.assets, id@);
            assert(false);
        }
    }
}

/// Move `amount` coins between two distinct in-memory wallets: fails
/// with `InsufficientFunds` when the source balance is smaller than the
/// amount, otherwise debits the source and credits the destination.
/// Moving zero always succeeds.  No store access happens here.
pub fn move_coins(from: &mut Wallet, to: &mut Wallet, amount: u64) -> (r: Result<(), Error>)
    requires
        old(from)@.balance >= amount ==> old(to)@.balance + amount <= u64::MAX,
    ensures
        match r {
            Ok(_) => old(from)@.balance >= amount && final(from)@ == (WalletV {
                balance: (old(from)@.balance - amount) as u64,
                assets: old(from)@.assets,
            }) && final(to)@ == (WalletV {
                balance: (old(to)@.balance + amount) as u64,
                assets: old(to)@.assets,
            }),
            Err(e) => e == Error::InsufficientFunds && old(from)@.balance < amount && *final(from)
                == *old(from) && *final(to) == *old(to),
        },
{
    if from.balance < amount {
        return Err(Error::InsufficientFunds);
    }
    from.balance = from.balance - amount;
    to.balance = to.balance + amount;
    Ok(())
}

/// The pair of wallets after moving each bundle in turn from `f` to
/// `t`, or nothing if some step finds `f` short of the bundle's amount.
pub open spec fn move_assets_spec(f: WalletV, t: WalletV, bs: Seq<(Seq<u8>, u64)>) -> Option<
    (WalletV, WalletV),
>
    decreases bs.len(),
{
    if bs.len() == 0 {
        Some((f, t))
    } else if hold(f, bs.first().0) >= bs.first().1 {
        move_assets_spec(
            debit_spec(f, bs.first().0, bs.first().1),
            credit_spec(t, bs.first().0, bs.first().1),
            bs.drop_first(),
        )
    } else {
        None
    }
}

/// What a successful bundle move guarantees: well-formedness, balances
/// untouched, and for every asset the combined holding of the two
/// wallets unchanged.
pub proof fn lemma_move_assets_spec_props(f: WalletV, t: WalletV, bs: Seq<(Seq<u8>, u64)>)
    requires
        wallet_wf(f),
        wallet_wf(t),
        forall|id: Seq<u8>| #[trigger] hold(f, id) + hold(t, id) <= u64::MAX,
    ensures
        match move_assets_spec(f, t, bs) {
            Some(p) => {
                &&& wallet_wf(p.0)
                &&& wallet_wf(p.1)
                &&& p.0.balance == f.balance
                &&& p.1.balance == t.balance
                &&& forall|id: Seq<u8>| #[trigger] hold(p.0, id) + hold(p.1, id) == hold(f, id)
                    + hold(t, id)
            },
            None => true,
        },
    decreases bs.len(),
{
    if bs.len() > 0 && hold(f, bs.first().0) >= bs.first().1 {
        let id = bs.first().0;
        let amt = bs.first().1;
        let f2 = debit_spec(f, id, amt);
        let t2 = credit_spec(t, id, amt);
        lemma_debit_wf(f, id, amt);
        lemma_credit_wf(t, id, amt);
        assert forall|id2: Seq<u8>| #[trigger] hold(f2, id2) + hold(t2, id2) == hold(f, id2)
            + hold(t, id2) by {
            lemma_hold_debit(f, id, amt, id2);
            lemma_hold_credit(t, id, amt, id2);
        }
        lemma_move_assets_spec_props(f2, t2, bs.drop_first());
    }
}

/// Move every bundle from `from` to `to`, all-or-nothing: if any bundle
/// exceeds what `from` holds at that step, nothing moves and the call
/// fails with `InsufficientAssets`.
#[verifier::loop_isolation(false)]
pub fn move_assets(from: &mut Wallet, to: &mut Wallet, bundles: &Vec<AssetBundle>) -> (r: Result<
    (),
    Error,
>)
    requires
        old(from).wf(),
        old(to).wf(),
        forall|id: Seq<u8>| #[trigger] hold(old(from)@, id) + hold(old(to)@, id) <= u64::MAX,
    ensures
        match r {
            Ok(_) => move_assets_spec(old(from)@, old(to)@, bundles_view(bundles@)) == Some(
                (final(from)@, final(to)@),
            ) && final(from).wf() && final(to).wf(),
            Err(e) => e == Error::InsufficientAssets && move_assets_spec(
                old(from)@,
                old(to)@,
                bundles_view(bundles@),
            ) is None && *final(from) == *old(from) && *final(to) == *old(to),
        },
{
    let ghost bs = bundles_view(bundles@);
    let mut f = from.duplicate();
    let mut t = to.duplicate();
    assert(bs.skip(0) =~= bs);
    let mut i: usize = 0;
    while i < bundles.len()
        invariant
            i <= bundles@.len(),
            bs == bundles_view(bundles@),
            f.wf(),
            t.wf(),
            forall|id: Seq<u8>| #[trigger] hold(f@, id) + hold(t@, id) <= u64::MAX,
            move_assets_spec(old(from)@, old(to)@, bs) == move_assets_spec(
                f@,
                t@,
                bs.skip(i as int),
            ),
            *from == *old(from),
            *to == *old(to),
        decreases bundles@.len() - i,
    {
        let b = bundles[i];
        let id = b.id();
        let amount = b.amount();
        assert(bs.skip(i as int).first() == (id@, amount));
        if f.amount_of(&id) < amount {
            assert(move_assets_spec(f@, t@, bs.skip(i as int)) is None);
            return Err(Error::InsufficientAssets);
        }
        let ghost f_old = f@;
        let ghost t_old = t@;
        f.debit(&id, amount);
        t.credit(&id, amount);
        proof {
            assert forall|id2: Seq<u8>| #[trigger] hold(f@, id2) + hold(t@, id2) <= u64::MAX by {
                lemma_hold_debit(f_old, id@, amount, id2);
                lemma_hold_credit(t_old, id@, amount, id2);
            }
            assert(bs.skip(i as int).drop_first() =~= bs.skip(i + 1));
        }
        i = i + 1;
    }
    assert(bs.skip(bundles@.len() as int) =~= Seq::<(Seq<u8>, u64)>::empty());
    *from = f;
    *to = t;
    Ok(())
}

} // verus!
