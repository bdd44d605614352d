//! The ledger state: wallets, asset registry and status records, with
//! the invariants every transaction preserves and the store-level move
//! operations the handlers compose.
//!
//! Well-formedness of a ledger:
//! - all store keys are distinct and every wallet is well-formed;
//! - every registry amount is positive (a retired asset is removed);
//! - the total of all balances fits the 64-bit currency range;
//! - for every asset, the holdings across all wallets total at most the
//!   registry's circulation amount.
//!
//! The last two bounds are what make every internal move free of
//! overflow: nothing a transaction moves can exceed what the ledger
//! already accounts for.

use vstd::prelude::*;

use crate::assets::{AssetFees, AssetInfo, InfoV};
use crate::assetid::AssetID;
use crate::assoc::{keys_distinct, lemma_sget_index, lemma_sget_put, lemma_sput_distinct,
    lemma_sput_entries, lemma_sdel_distinct, lemma_sdel_entries, sdel, sget, sput};
use crate::error::Error;
use crate::error::TxStatus;
use crate::keys::PublicKey;
use crate::stores::{bal, empty_wallet, fetched, reg_amount, whold, Registry, Statuses, Wallets};
use crate::wallet::{hold, move_assets, move_assets_spec, move_coins, wallet_wf,
    lemma_move_assets_spec_props, Wallet, WalletV};
use crate::assets::AssetBundle;
use crate::assets::bundles_view;

verus! {

/// The total of all wallet balances.
pub open spec fn sum_bal(s: Seq<(Seq<u8>, WalletV)>) -> int
    decreases s.len(),
{
    if s.len() == 0 {
        0
    } else {
        s.first().1.balance + sum_bal(s.drop_first())
    }
}

/// The total holding of asset `id` across all wallets.
pub open spec fn sum_hold(s: Seq<(Seq<u8>, WalletV)>, id: Seq<u8>) -> int
    decreases s.len(),
{
    if s.len() == 0 {
        0
    } else {
        hold(s.first().1, id) + sum_hold(s.drop_first(), id)
    }
}

/// Balance totals are never negative.
pub proof fn lemma_sum_bal_nonneg(s: Seq<(Seq<u8>, WalletV)>)
    ensures
        sum_bal(s) >= 0,
    decreases s.len(),
{
    if s.len() > 0 {
        lemma_sum_bal_nonneg(s.drop_first());
    }
}

/// Holding totals are never negative.
pub proof fn lemma_sum_hold_nonneg(s: Seq<(Seq<u8>, WalletV)>, id: Seq<u8>)
    ensures
        sum_hold(s, id) >= 0,
    decreases s.len(),
{
    if s.len() > 0 {
        lemma_sum_hold_nonneg(s.drop_first(), id);
    }
}

/// One balance is at most the total.
pub proof fn lemma_sum_bal_single(s: Seq<(Seq<u8>, WalletV)>, k: Seq<u8>)
    ensures
        bal(s, k) <= sum_bal(s),
    decreases s.len(),
{
    if s.len() == 0 {
    } else if s.first().0 == k {
        lemma_sum_bal_nonneg(s.drop_first());
    } else {
        lemma_sum_bal_single(s.drop_first(), k);
    }
}

/// Two distinct keys' balances together are at most the total.
pub proof fn lemma_sum_bal_pair(s: Seq<(Seq<u8>, WalletV)>, k1: Seq<u8>, k2: Seq<u8>)
    requires
        k1 != k2,
    ensures
        bal(s, k1) + bal(s, k2) <= sum_bal(s),
    decreases s.len(),
{
    if s.len() == 0 {
    } else if s.first().0 == k1 {
        lemma_sum_bal_single(s.drop_first(), k2);
    } else if s.first().0 == k2 {
        lemma_sum_bal_single(s.drop_first(), k1);
    } else {
        lemma_sum_bal_pair(s.drop_first(), k1, k2);
    }
}

/// One wallet's holding of an asset is at most the total holding.
pub proof fn lemma_sum_hold_single(s: Seq<(Seq<u8>, WalletV)>, k: Seq<u8>, id: Seq<u8>)
    ensures
        whold(s, k, id) <= sum_hold(s, id),
    decreases s.len(),
{
    if s.len() == 0 {
        assert(hold(empty_wallet(), id) == 0);
    } else if s.first().0 == k {
        lemma_sum_hold_nonneg(s.drop_first(), id);
    } else {
        lemma_sum_hold_single(s.drop_first(), k, id);
    }
}

/// Two distinct wallets' holdings together are at most the total.
pub proof fn lemma_sum_hold_pair(s: Seq<(Seq<u8>, WalletV)>, k1: Seq<u8>, k2: Seq<u8>, id: Seq<u8>)
    requires
        k1 != k2,
    ensures
        whold(s, k1, id) + whold(s, k2, id) <= sum_hold(s, id),
    decreases s.len(),
{
    if s.len() == 0 {
        assert(hold(empty_wallet(), id) == 0);
    } else if s.first().0 == k1 {
        lemma_sum_hold_single(s.drop_first(), k2, id);
    } else if s.first().0 == k2 {
        lemma_sum_hold_single(s.drop_first(), k1, id);
    } else {
        lemma_sum_hold_pair(s.drop_first(), k1, k2, id);
    }
}

/// How a write changes the balance total: the old balance under the key
/// leaves, the new one enters.
pub proof fn lemma_sum_bal_put(s: Seq<(Seq<u8>, WalletV)>, k: Seq<u8>, w: WalletV)
    ensures
        sum_bal(sput(s, k, w)) == sum_bal(s) - bal(s, k) + w.balance,
    decreases s.len(),
{
    if s.len() == 0 {
        let e = Seq::<(Seq<u8>, WalletV)>::empty();
        assert(sput(s, k, w).drop_first() =~= e);
        assert(sum_bal(e) == 0);
        assert(bal(s, k) == 0);
    } else if s.first().0 == k {
        assert(sput(s, k, w).first() == (k, w));
        assert(sput(s, k, w).drop_first() =~= s.drop_first());
    } else {
        assert(sput(s, k, w).first() == s.first());
        assert(sput(s, k, w).drop_first() =~= sput(s.drop_first(), k, w));
        lemma_sum_bal_put(s.drop_first(), k, w);
    }
}

/// How a write changes an asset's holding total.
pub proof fn lemma_sum_hold_put(s: Seq<(Seq<u8>, WalletV)>, k: Seq<u8>, w: WalletV, id: Seq<u8>)
    ensures
        sum_hold(sput(s, k, w), id) == sum_hold(s, id) - hold(fetched(s, k), id) + hold(w, id),
    decreases s.len(),
{
    if s.len() == 0 {
        let e = Seq::<(Seq<u8>, WalletV)>::empty();
        assert(sput(s, k, w).drop_first() =~= e);
        assert(sum_hold(e, id) == 0);
        assert(hold(empty_wallet(), id) == 0);
        assert(hold(fetched(s, k), id) == 0);
    } else if s.first().0 == k {
        assert(sput(s, k, w).first() == (k, w));
        assert(sput(s, k, w).drop_first() =~= s.drop_first());
    } else {
        assert(sput(s, k, w).first() == s.first());
        assert(sput(s, k, w).drop_first() =~= sput(s.drop_first(), k, w));
        lemma_sum_hold_put(s.drop_first(), k, w, id);
    }
}

/// The total equals the total of a prefix plus the total of the rest.
pub proof fn lemma_sum_bal_split(s: Seq<(Seq<u8>, WalletV)>, i: int)
    requires
        0 <= i <= s.len(),
    ensures
        sum_bal(s) == sum_bal(s.take(i)) + sum_bal(s.skip(i)),
    decreases i,
{
    if i == 0 {
        assert(s.take(0) =~= Seq::<(Seq<u8>, WalletV)>::empty());
        assert(s.skip(0) =~= s);
    } else {
        lemma_sum_bal_split(s.drop_first(), i - 1);
        assert(s.take(i).drop_first() =~= s.drop_first().take(i - 1));
        assert(s.take(i).first() == s.first());
        assert(s.skip(i) =~= s.drop_first().skip(i - 1));
    }
}

/// A well-formed wallet store: distinct keys, well-formed wallets.
pub open spec fn wallets_ok(s: Seq<(Seq<u8>, WalletV)>) -> bool {
    &&& keys_distinct(s)
    &&& forall|i: int| 0 <= i < s.len() ==> wallet_wf(#[trigger] s[i].1)
}

/// What a store hands out is well-formed.
pub proof fn lemma_fetched_wf(s: Seq<(Seq<u8>, WalletV)>, k: Seq<u8>)
    requires
        wallets_ok(s),
    ensures
        wallet_wf(fetched(s, k)),
{
    if sget(s, k) is Some {
        lemma_sget_index(s, k);
    } else {
        assert(keys_distinct(Seq::<(Seq<u8>, u64)>::empty()));
    }
}

/// Writing a well-formed wallet keeps the store well-formed.
pub proof fn lemma_wallets_ok_put(s: Seq<(Seq<u8>, WalletV)>, k: Seq<u8>, w: WalletV)
    requires
        wallets_ok(s),
        wallet_wf(w),
    ensures
        wallets_ok(sput(s, k, w)),
{
    lemma_sput_distinct(s, k, w);
    lemma_sput_entries(s, k, w);
    assert forall|i: int| 0 <= i < sput(s, k, w).len() implies wallet_wf(
        #[trigger] sput(s, k, w)[i].1,
    ) by {
        if sput(s, k, w)[i] != (k, w) {
            let j = choose|j: int| 0 <= j < s.len() && s[j] == sput(s, k, w)[i];
            assert(wallet_wf(s[j].1));
        }
    }
}

/// A well-formed registry: distinct identifiers, positive amounts.
pub open spec fn registry_ok(s: Seq<(Seq<u8>, InfoV)>) -> bool {
    &&& keys_distinct(s)
    &&& forall|i: int| 0 <= i < s.len() ==> (#[trigger] s[i].1).amount > 0
}

/// Writing a positive-amount entry keeps the registry well-formed.
pub proof fn lemma_registry_ok_put(s: Seq<(Seq<u8>, InfoV)>, id: Seq<u8>, info: InfoV)
    requires
        registry_ok(s),
        info.amount > 0,
    ensures
        registry_ok(sput(s, id, info)),
{
    lemma_sput_distinct(s, id, info);
    lemma_sput_entries(s, id, info);
    assert forall|i: int| 0 <= i < sput(s, id, info).len() implies (#[trigger] sput(
        s,
        id,
        info,
    )[i].1).amount > 0 by {
        if sput(s, id, info)[i] != (id, info) {
            let j = choose|j: int| 0 <= j < s.len() && s[j] == sput(s, id, info)[i];
            assert(s[j].1.amount > 0);
        }
    }
}

/// Removing an entry keeps the registry well-formed.
pub proof fn lemma_registry_ok_del(s: Seq<(Seq<u8>, InfoV)>, id: Seq<u8>)
    requires
        registry_ok(s),
    ensures
        registry_ok(sdel(s, id)),
{
    lemma_sdel_distinct(s, id);
    lemma_sdel_entries(s, id);
    assert forall|i: int| 0 <= i < sdel(s, id).len() implies (#[trigger] sdel(
        s,
        id,
    )[i].1).amount > 0 by {
        let j = choose|j: int| 0 <= j < s.len() && s[j] == sdel(s, id)[i];
        assert(s[j].1.amount > 0);
    }
}

/// What discharges a coin move's overflow side condition: two distinct
/// balances never sum past the store's total.
pub proof fn lemma_move_pre(s: Seq<(Seq<u8>, WalletV)>, from: Seq<u8>, to: Seq<u8>, amount: u64)
    requires
        sum_bal(s) <= u64::MAX,
    ensures
        (from != to && bal(s, from) >= amount) ==> bal(s, to) + amount <= u64::MAX,
{
    if from != to && bal(s, from) >= amount {
        lemma_sum_bal_pair(s, from, to);
    }
}

/// What discharges an asset move's overflow side condition: two
/// distinct wallets' holdings never sum past the total holding.
pub proof fn lemma_amove_pre(s: Seq<(Seq<u8>, WalletV)>, from: Seq<u8>, to: Seq<u8>)
    requires
        forall|id: Seq<u8>| #[trigger] sum_hold(s, id) <= u64::MAX,
    ensures
        from != to ==> forall|id: Seq<u8>| #[trigger] whold(s, from, id) + whold(s, to, id)
            <= u64::MAX,
{
    if from != to {
        assert forall|id: Seq<u8>| #[trigger] whold(s, from, id) + whold(s, to, id)
            <= u64::MAX by {
            lemma_sum_hold_pair(s, from, to, id);
            assert(sum_hold(s, id) <= u64::MAX);
        }
    }
}

/// The wallet store after moving `amount` coins from one key to the
/// other, or nothing when the source balance is short.  A move from a
/// key to itself is read-modify-write coherent: it succeeds exactly
/// when the single wallet could pay, and changes nothing.
pub open spec fn coins_moved(
    s: Seq<(Seq<u8>, WalletV)>,
    from: Seq<u8>,
    to: Seq<u8>,
    amount: u64,
) -> Option<Seq<(Seq<u8>, WalletV)>> {
    if bal(s, from) < amount {
        None
    } else if from == to {
        Some(s)
    } else {
        let f = fetched(s, from);
        let t = fetched(s, to);
        Some(
            sput(
                sput(s, from, WalletV { balance: (f.balance - amount) as u64, assets: f.assets }),
                to,
                WalletV { balance: (t.balance + amount) as u64, assets: t.assets },
            ),
        )
    }
}

/// A successful coin move keeps the store well-formed, the balance
/// total unchanged and every asset's holding total unchanged.
pub proof fn lemma_coins_moved_props(
    s: Seq<(Seq<u8>, WalletV)>,
    from: Seq<u8>,
    to: Seq<u8>,
    amount: u64,
)
    requires
        wallets_ok(s),
        sum_bal(s) <= u64::MAX,
    ensures
        match coins_moved(s, from, to, amount) {
            Some(s2) => {
                &&& wallets_ok(s2)
                &&& sum_bal(s2) == sum_bal(s)
                &&& forall|id: Seq<u8>| #[trigger] sum_hold(s2, id) == sum_hold(s, id)
            },
            None => true,
        },
{
    if bal(s, from) >= amount && from != to {
        let f = fetched(s, from);
        let t = fetched(s, to);
        let f2 = WalletV { balance: (f.balance - amount) as u64, assets: f.assets };
        let t2 = WalletV { balance: (t.balance + amount) as u64, assets: t.assets };
        let s1 = sput(s, from, f2);
        lemma_fetched_wf(s, from);
        lemma_fetched_wf(s, to);
        lemma_sum_bal_pair(s, from, to);
        lemma_wallets_ok_put(s, from, f2);
        lemma_wallets_ok_put(s1, to, t2);
        lemma_sum_bal_put(s, from, f2);
        lemma_sget_put(s, from, f2, to);
        lemma_sum_bal_put(s1, to, t2);
        assert forall|id: Seq<u8>| #[trigger] sum_hold(sput(s1, to, t2), id) == sum_hold(
            s,
            id,
        ) by {
            lemma_sum_hold_put(s, from, f2, id);
            lemma_sum_hold_put(s1, to, t2, id);
        }
    }
}

/// Whether a wallet holds at least each listed bundle, bundle by
/// bundle: the condition for a self-directed asset move, whose debits
/// and credits cancel step by step.
pub open spec fn all_held(w: WalletV, bs: Seq<(Seq<u8>, u64)>) -> bool
    decreases bs.len(),
{
    bs.len() == 0 || (hold(w, bs.first().0) >= bs.first().1 && all_held(w, bs.drop_first()))
}

/// The wallet store after moving a list of bundles from one key to the
/// other, or nothing when some step finds the source short.
pub open spec fn assets_moved(
    s: Seq<(Seq<u8>, WalletV)>,
    from: Seq<u8>,
    to: Seq<u8>,
    bs: Seq<(Seq<u8>, u64)>,
) -> Option<Seq<(Seq<u8>, WalletV)>> {
    if from == to {
        if all_held(fetched(s, from), bs) {
            Some(s)
        } else {
            None
        }
    } else {
        match move_assets_spec(fetched(s, from), fetched(s, to), bs) {
            Some(p) => Some(sput(sput(s, from, p.0), to, p.1)),
            None => None,
        }
    }
}

/// A successful asset move keeps the store well-formed, the balance
/// total unchanged and every asset's holding total unchanged.
pub proof fn lemma_assets_moved_props(
    s: Seq<(Seq<u8>, WalletV)>,
    from: Seq<u8>,
    to: Seq<u8>,
    bs: Seq<(Seq<u8>, u64)>,
)
    requires
        wallets_ok(s),
        from != to ==> forall|id: Seq<u8>| #[trigger] whold(s, from, id) + whold(s, to, id)
            <= u64::MAX,
    ensures
        match assets_moved(s, from, to, bs) {
            Some(s2) => {
                &&& wallets_ok(s2)
                &&& sum_bal(s2) == sum_bal(s)
                &&& forall|id: Seq<u8>| #[trigger] sum_hold(s2, id) == sum_hold(s, id)
            },
            None => true,
        },
{
    if from != to {
        let f = fetched(s, from);
        let t = fetched(s, to);
        lemma_fetched_wf(s, from);
        lemma_fetched_wf(s, to);
        assert forall|id: Seq<u8>| #[trigger] hold(f, id) + hold(t, id) <= u64::MAX by {
            assert(whold(s, from, id) + whold(s, to, id) <= u64::MAX);
        }
        lemma_move_assets_spec_props(f, t, bs);
        match move_assets_spec(f, t, bs) {
            Some(p) => {
                let s1 = sput(s, from, p.0);
                lemma_wallets_ok_put(s, from, p.0);
                lemma_wallets_ok_put(s1, to, p.1);
                lemma_sum_bal_put(s, from, p.0);
                lemma_sget_put(s, from, p.0, to);
                lemma_sum_bal_put(s1, to, p.1);
                assert forall|id: Seq<u8>| #[trigger] sum_hold(sput(s1, to, p.1), id) == sum_hold(
                    s,
                    id,
                ) by {
                    lemma_sum_hold_put(s, from, p.0, id);
                    lemma_sum_hold_put(s1, to, p.1, id);
                }
            },
            None => {},
        }
    }
}

impl Wallets {
    /// Move `amount` coins between two keys, reading the freshest
    /// in-store wallets and writing both back.
    #[verifier::loop_isolation(false)]
    pub fn move_coins_between(&mut self, from: &PublicKey, to: &PublicKey, amount: u64) -> (r:
        Result<(), Error>)
        requires
            (from@ != to@ && bal(old(self)@, from@) >= amount) ==> bal(old(self)@, to@) + amount
                <= u64::MAX,
        ensures
            match r {
                Ok(_) => coins_moved(old(self)@, from@, to@, amount) == Some(final(self)@),
                Err(e) => e == Error::InsufficientFunds && coins_moved(
                    old(self)@,
                    from@,
                    to@,
                    amount,
                ) is None && *final(self) == *old(self),
            },
    {
        if from.equals(to) {
            let w = self.fetch(from);
            if w.balance() >= amount {
                return Ok(());
            } else {
                return Err(Error::InsufficientFunds);
            }
        }
        let mut f = self.fetch(from);
        let mut t = self.fetch(to);
        match move_coins(&mut f, &mut t, amount) {
            Ok(()) => {
                self.store(from, f);
                self.store(to, t);
                Ok(())
            },
            Err(e) => Err(e),
        }
    }

    /// Move a list of bundles between two keys, all-or-nothing.
    #[verifier::loop_isolation(false)]
    pub fn move_assets_between(
        &mut self,
        from: &PublicKey,
        to: &PublicKey,
        bundles: &Vec<AssetBundle>,
    ) -> (r: Result<(), Error>)
        requires
            wallets_ok(old(self)@),
            from@ != to@ ==> forall|id: Seq<u8>| #[trigger] whold(old(self)@, from@, id) + whold(
                old(self)@,
                to@,
                id,
            ) <= u64::MAX,
        ensures
            match r {
                Ok(_) => assets_moved(old(self)@, from@, to@, bundles_view(bundles@)) == Some(
                    final(self)@,
                ),
                Err(e) => e == Error::InsufficientAssets && assets_moved(
                    old(self)@,
                    from@,
                    to@,
                    bundles_view(bundles@),
                ) is None && *final(self) == *old(self),
            },
    {
        let ghost bs = bundles_view(bundles@);
        if from.equals(to) {
            let w = self.fetch(from);
            assert(bs.skip(0) =~= bs);
            let mut i: usize = 0;
            while i < bundles.len()
                invariant
                    i <= bundles@.len(),
                    all_held(w@, bs) == all_held(w@, bs.skip(i as int)),
                decreases bundles@.len() - i,
            {
                let b = bundles[i];
                assert(bs.skip(i as int).first() == b@);
                if w.amount_of(&b.id()) < b.amount() {
                    assert(!all_held(w@, bs.skip(i as int)));
                    return Err(Error::InsufficientAssets);
                }
                assert(bs.skip(i as int).drop_first() =~= bs.skip(i + 1));
                i = i + 1;
            }
            assert(bs.skip(bundles@.len() as int) =~= Seq::<(Seq<u8>, u64)>::empty());
            return Ok(());
        }
        let mut f = self.fetch(from);
        let mut t = self.fetch(to);
        proof {
            lemma_fetched_wf(self@, from@);
            lemma_fetched_wf(self@, to@);
            assert forall|id: Seq<u8>| #[trigger] hold(f@, id) + hold(t@, id) <= u64::MAX by {
                assert(whold(old(self)@, from@, id) + whold(old(self)@, to@, id) <= u64::MAX);
            }
        }
        match move_assets(&mut f, &mut t, bundles) {
            Ok(()) => {
                self.store(from, f);
                self.store(to, t);
                Ok(())
            },
            Err(e) => Err(e),
        }
    }
}

/// The mathematical value of a whole ledger state.
pub ghost struct LedgerV {
    pub wallets: Seq<(Seq<u8>, WalletV)>,
    pub assets: Seq<(Seq<u8>, InfoV)>,
    pub statuses: Seq<(Seq<u8>, TxStatus)>,
}

/// A well-formed ledger.
pub open spec fn ledger_wf(l: LedgerV) -> bool {
    &&& wallets_ok(l.wallets)
    &&& registry_ok(l.assets)
    &&& keys_distinct(l.statuses)
    &&& sum_bal(l.wallets) <= u64::MAX
    &&& forall|id: Seq<u8>| #[trigger] sum_hold(l.wallets, id) <= reg_amount(l.assets, id)
}

/// Registry consistency: for every asset, the registry's circulation
/// amount equals the holdings across all wallets exactly.
pub open spec fn registry_consistent(l: LedgerV) -> bool {
    forall|id: Seq<u8>| #[trigger] sum_hold(l.wallets, id) == reg_amount(l.assets, id)
}

/// An isolated, mutable view of the ledger store: the wallets, the
/// asset registry and the status records a block's transactions read
/// and write.  The host commits or discards it as a whole.
#[derive(Debug)]
pub struct Ledger {
    pub wallets: Wallets,
    pub assets: Registry,
    pub statuses: Statuses,
}

impl View for Ledger {
    type V = LedgerV;

    open spec fn view(&self) -> LedgerV {
        LedgerV { wallets: self.wallets@, assets: self.assets@, statuses: self.statuses@ }
    }
}

impl Ledger {
    /// Whether the ledger is well-formed.
    pub open spec fn wf(&self) -> bool {
        ledger_wf(self@)
    }

    /// An empty ledger.
    pub fn new() -> (r: Ledger)
        ensures
            r@.wallets =~= Seq::<(Seq<u8>, WalletV)>::empty(),
            r@.assets =~= Seq::<(Seq<u8>, InfoV)>::empty(),
            r@.statuses =~= Seq::<(Seq<u8>, TxStatus)>::empty(),
            r.wf(),
    {
        let l = Ledger { wallets: Wallets::new(), assets: Registry::new(), statuses: Statuses::new() };
        proof {
            assert forall|id: Seq<u8>| #[trigger] sum_hold(l@.wallets, id) <= reg_amount(
                l@.assets,
                id,
            ) by {
                assert(sum_hold(l@.wallets, id) == 0);
            }
        }
        l
    }

    /// The wallet under a key, empty when never written.
    pub fn get_wallet(&self, pub_key: &PublicKey) -> (r: Wallet)
        ensures
            r@ == fetched(self@.wallets, pub_key@),
    {
        self.wallets.fetch(pub_key)
    }

    /// All stored wallets, in store order.
    pub fn get_wallets(&self) -> (r: Vec<Wallet>)
        ensures
            r@.len() == self@.wallets.len(),
            forall|i: int| 0 <= i < r@.len() ==> (#[trigger] r@[i])@ == self@.wallets[i].1,
    {
        let mut out: Vec<Wallet> = Vec::new();
        let mut i: usize = 0;
        while i < self.wallets.len()
            invariant
                i <= self@.wallets.len(),
                out@.len() == i,
                forall|j: int| 0 <= j < i ==> (#[trigger] out@[j])@ == self@.wallets[j].1,
            decreases self@.wallets.len() - i,
        {
            let (_, w) = self.wallets.entry_at(i);
            out.push(w);
            i = i + 1;
        }
        out
    }

    /// The assets a wallet owns.
    pub fn get_assets(&self, pub_key: &PublicKey) -> (r: Vec<AssetBundle>)
        ensures
            bundles_view(r@) == fetched(self@.wallets, pub_key@).assets,
    {
        self.get_wallet(pub_key).assets()
    }

    /// Write a wallet directly: host-side state set-up, not a
    /// transaction.
    pub fn put_wallet(&mut self, pub_key: &PublicKey, w: Wallet)
        ensures
            final(self)@.wallets == sput(old(self)@.wallets, pub_key@, w@),
            final(self)@.assets == old(self)@.assets,
            final(self)@.statuses == old(self)@.statuses,
    {
        self.wallets.store(pub_key, w);
    }

    /// Write a registry entry directly: host-side state set-up.
    pub fn put_asset_info(&mut self, id: &AssetID, info: AssetInfo)
        ensures
            final(self)@.assets == sput(old(self)@.assets, id@, info@),
            final(self)@.wallets == old(self)@.wallets,
            final(self)@.statuses == old(self)@.statuses,
    {
        self.assets.store(id, info);
    }

    /// Register `amount` of `id` under a creator with a free schedule:
    /// host-side state set-up matching first issuance.
    pub fn add_asset(&mut self, id: &AssetID, creator: &PublicKey, amount: u64)
        ensures
            final(self)@.assets == sput(
                old(self)@.assets,
                id@,
                InfoV { creator: creator@, amount: amount, tax: 0u64 },
            ),
            final(self)@.wallets == old(self)@.wallets,
            final(self)@.statuses == old(self)@.statuses,
    {
        let info = AssetInfo::new(creator, amount, AssetFees::new(0));
        self.assets.store(id, info);
    }

    /// The recorded status of a transaction hash, if any.
    pub fn get_status(&self, h: &Vec<u8>) -> (r: Option<TxStatus>)
        ensures
            r == sget(self@.statuses, h@),
    {
        self.statuses.get_status(h)
    }

    /// The total of all wallet balances.  Well-formedness keeps it
    /// within the 64-bit range.
    #[verifier::loop_isolation(false)]
    pub fn total_coins(&self) -> (r: u64)
        requires
            self.wf(),
        ensures
            r == sum_bal(self@.wallets),
    {
        let ghost s = self@.wallets;
        let mut acc: u64 = 0;
        let mut i: usize = 0;
        assert(s.take(0) =~= Seq::<(Seq<u8>, WalletV)>::empty());
        while i < self.wallets.len()
            invariant
                i <= s.len(),
                acc == sum_bal(s.take(i as int)),
            decreases s.len() - i,
        {
            let (_, w) = self.wallets.entry_at(i);
            proof {
                lemma_sum_bal_split(s, i as int);
                lemma_sum_bal_split(s.skip(i as int), 1);
                assert(s.skip(i as int).take(1).first() == s[i as int]);
                assert(sum_bal(s.skip(i as int).take(1)) == s[i as int].1.balance) by {
                    assert(s.skip(i as int).take(1).drop_first() =~= Seq::<(
                        Seq<u8>,
                        WalletV,
                    )>::empty());
                }
                assert(s.skip(i as int).skip(1) =~= s.skip(i + 1));
                lemma_sum_bal_nonneg(s.skip(i + 1));
                assert(s.take(i + 1).drop_last() =~= s.take(i as int));
                assert(sum_bal(s.take(i + 1)) == acc + s[i as int].1.balance) by {
                    lemma_sum_bal_split(s.take(i + 1), i as int);
                    assert(s.take(i + 1).take(i as int) =~= s.take(i as int));
                    assert(s.take(i + 1).skip(i as int).first() == s[i as int]);
                    assert(s.take(i + 1).skip(i as int).drop_first() =~= Seq::<(
                        Seq<u8>,
                        WalletV,
                    )>::empty());
                }
            }
            acc = acc + w.balance();
            i = i + 1;
        }
        assert(s.take(s.len() as int) =~= s);
        acc
    }
}

} // verus!
