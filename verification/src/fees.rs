//! Fee policy: who pays, how much, and the all-or-nothing collection of
//! third-party taxes.
//!
//! Fee computation is a pure function of the registry and a
//! transaction's bundles; collection applies the computed list of
//! payments in order, each following the same all-or-nothing rule as
//! every other move.

use vstd::prelude::*;

use crate::assets::{bundles_view, AssetBundle};
use crate::assoc::{lemma_sget_absent, lemma_sget_at, lemma_sput_absent, lemma_sput_at, sget, sput};
use crate::error::Error;
use crate::keys::PublicKey;
use crate::ledger::{coins_moved, lemma_coins_moved_props, lemma_sum_bal_pair, sum_bal, sum_hold,
    wallets_ok};
use crate::stores::{bal, Registry, Wallets};
use crate::assets::InfoV;
use crate::wallet::WalletV;

verus! {

/// Which transacting party bears a network fee.
#[derive(Clone, Copy, PartialEq, Eq, Structural, Debug)]
pub enum FeeStrategy {
    /// The recipient pays the whole fee.
    Recipient,
    /// The sender pays the whole fee.
    Sender,
    /// The fee is split: the recipient pays half, the sender pays the
    /// rest, losing the remainder on an odd fee.
    SenderAndRecipient,
    /// A third party distinct from sender and recipient pays; only the
    /// intermediary-brokered variants accept it.
    Intermediary,
}

/// The strategy a wire value denotes, if any.
pub open spec fn strategy_of(value: u8) -> Option<FeeStrategy> {
    if value == 1 {
        Some(FeeStrategy::Recipient)
    } else if value == 2 {
        Some(FeeStrategy::Sender)
    } else if value == 3 {
        Some(FeeStrategy::SenderAndRecipient)
    } else if value == 4 {
        Some(FeeStrategy::Intermediary)
    } else {
        None
    }
}

impl FeeStrategy {
    /// Decode a wire value; out-of-range values are a verification
    /// failure, not an execution failure.
    pub fn try_from(value: u8) -> (r: Option<FeeStrategy>)
        ensures
            r == strategy_of(value),
    {
        match value {
            1 => Some(FeeStrategy::Recipient),
            2 => Some(FeeStrategy::Sender),
            3 => Some(FeeStrategy::SenderAndRecipient),
            4 => Some(FeeStrategy::Intermediary),
            _ => None,
        }
    }
}

/// The association-sequence value of a payment list.
pub open spec fn payments_view(s: Seq<(PublicKey, u64)>) -> Seq<(Seq<u8>, u64)> {
    s.map_values(|e: (PublicKey, u64)| (e.0@, e.1))
}

/// The amount accumulated for a creator so far; zero when absent.
pub open spec fn owed(acc: Seq<(Seq<u8>, u64)>, creator: Seq<u8>) -> u64 {
    match sget(acc, creator) {
        Some(a) => a,
        None => 0u64,
    }
}

/// Accumulate the per-creator taxes of a bundle list into `acc`: for
/// each bundle, its registry entry's tax per unit times its amount,
/// owed to the entry's creator.  An unregistered asset fails the whole
/// computation; an amount beyond the 64-bit range cannot be collected
/// and is rejected.
pub open spec fn tp_fees_acc(
    reg: Seq<(Seq<u8>, InfoV)>,
    bs: Seq<(Seq<u8>, u64)>,
    acc: Seq<(Seq<u8>, u64)>,
) -> Result<Seq<(Seq<u8>, u64)>, Error>
    decreases bs.len(),
{
    if bs.len() == 0 {
        Ok(acc)
    } else {
        match sget(reg, bs.first().0) {
            None => Err(Error::AssetNotFound),
            Some(info) => {
                if info.tax * bs.first().1 > u64::MAX {
                    Err(Error::InvalidTransaction)
                } else if owed(acc, info.creator) + info.tax * bs.first().1 > u64::MAX {
                    Err(Error::InvalidTransaction)
                } else {
                    tp_fees_acc(
                        reg,
                        bs.drop_first(),
                        sput(
                            acc,
                            info.creator,
                            (owed(acc, info.creator) + info.tax * bs.first().1) as u64,
                        ),
                    )
                }
            },
        }
    }
}

/// The per-creator taxes a bundle list owes, from an empty accumulator.
pub open spec fn tp_fees(reg: Seq<(Seq<u8>, InfoV)>, bs: Seq<(Seq<u8>, u64)>) -> Result<
    Seq<(Seq<u8>, u64)>,
    Error,
> {
    tp_fees_acc(reg, bs, Seq::empty())
}

/// The amount accumulated for `k` in an executable payment list.
fn payments_get(v: &Vec<(PublicKey, u64)>, k: &PublicKey) -> (r: u64)
    ensures
        r == owed(payments_view(v@), k@),
{
    let mut i: usize = 0;
    while i < v.len()
        invariant
            i <= v@.len(),
            forall|j: int| 0 <= j < i ==> payments_view(v@)[j].0 != k@,
        decreases v@.len() - i,
    {
        if v[i].0.equals(k) {
            proof {
                lemma_sget_at(payments_view(v@), k@, i as int);
            }
            return v[i].1;
        }
        i = i + 1;
    }
    proof {
        lemma_sget_absent(payments_view(v@), k@);
    }
    0
}

/// Set the amount accumulated for `k` in an executable payment list.
#[verifier::loop_isolation(false)]
fn payments_put(v: &mut Vec<(PublicKey, u64)>, k: &PublicKey, amount: u64)
    ensures
        payments_view(final(v)@) == sput(payments_view(old(v)@), k@, amount),
{
    let ghost target = sput(payments_view(old(v)@), k@, amount);
    let mut i: usize = 0;
    while i < v.len()
        invariant
            i <= v@.len(),
            *v == *old(v),
            forall|j: int| 0 <= j < i ==> payments_view(v@)[j].0 != k@,
        decreases v@.len() - i,
    {
        if v[i].0.equals(k) {
            proof {
                lemma_sput_at(payments_view(v@), k@, amount, i as int);
            }
            v.set(i, (*k, amount));
            assert(payments_view(v@) =~= target);
            return;
        }
        i = i + 1;
    }
    proof {
        lemma_sput_absent(payments_view(v@), k@, amount);
    }
    v.push((*k, amount));
    assert(payments_view(v@) =~= target);
}

/// Compute the per-creator taxes a bundle list owes: pure, reads the
/// registry only.
#[verifier::loop_isolation(false)]
pub fn third_party_fees(reg: &Registry, bundles: &Vec<AssetBundle>) -> (r: Result<
    Vec<(PublicKey, u64)>,
    Error,
>)
    ensures
        match r {
            Ok(list) => tp_fees(reg@, bundles_view(bundles@)) == Ok::<_, Error>(
                payments_view(list@),
            ),
            Err(e) => tp_fees(reg@, bundles_view(bundles@)) == Err::<Seq<(Seq<u8>, u64)>, _>(e),
        },
{
    let ghost bs = bundles_view(bundles@);
    let mut acc: Vec<(PublicKey, u64)> = Vec::new();
    assert(payments_view(acc@) =~= Seq::<(Seq<u8>, u64)>::empty());
    assert(bs.skip(0) =~= bs);
    let mut i: usize = 0;
    while i < bundles.len()
        invariant
            i <= bundles@.len(),
            tp_fees_acc(reg@, bs.skip(i as int), payments_view(acc@)) == tp_fees(reg@, bs),
        decreases bundles@.len() - i,
    {
        let b = bundles[i];
        assert(bs.skip(i as int).first() == b@);
        let info = match reg.fetch(&b.id()) {
            Some(info) => info,
            None => {
                return Err(Error::AssetNotFound);
            },
        };
        let tax = match info.fees().tax().checked_mul(b.amount()) {
            Some(t) => t,
            None => {
                return Err(Error::InvalidTransaction);
            },
        };
        let creator = info.creator();
        let prev = payments_get(&acc, &creator);
        let total = match prev.checked_add(tax) {
            Some(t) => t,
            None => {
                return Err(Error::InvalidTransaction);
            },
        };
        payments_put(&mut acc, &creator, total);
        assert(bs.skip(i as int).drop_first() =~= bs.skip(i + 1));
        i = i + 1;
    }
    assert(bs.skip(bundles@.len() as int) =~= Seq::<(Seq<u8>, u64)>::empty());
    Ok(acc)
}

/// The wallet store after the payer settles each listed payment in
/// order, or nothing when the payer's balance runs short.  A payment
/// the payer owes itself is skipped: the asset's creator pays no tax to
/// move its own asset.
pub open spec fn pay_list(
    w: Seq<(Seq<u8>, WalletV)>,
    payer: Seq<u8>,
    list: Seq<(Seq<u8>, u64)>,
) -> Option<Seq<(Seq<u8>, WalletV)>>
    decreases list.len(),
{
    if list.len() == 0 {
        Some(w)
    } else if list.first().0 == payer {
        pay_list(w, payer, list.drop_first())
    } else {
        match coins_moved(w, payer, list.first().0, list.first().1) {
            None => None,
            Some(w2) => pay_list(w2, payer, list.drop_first()),
        }
    }
}

/// A successful payment run keeps the store well-formed and conserves
/// both the balance total and every asset's holding total.
pub proof fn lemma_pay_list_props(
    w: Seq<(Seq<u8>, WalletV)>,
    payer: Seq<u8>,
    list: Seq<(Seq<u8>, u64)>,
)
    requires
        wallets_ok(w),
        sum_bal(w) <= u64::MAX,
    ensures
        match pay_list(w, payer, list) {
            Some(w2) => {
                &&& wallets_ok(w2)
                &&& sum_bal(w2) == sum_bal(w)
                &&& forall|id: Seq<u8>| #[trigger] sum_hold(w2, id) == sum_hold(w, id)
            },
            None => true,
        },
    decreases list.len(),
{
    if list.len() > 0 {
        if list.first().0 == payer {
            lemma_pay_list_props(w, payer, list.drop_first());
        } else {
            lemma_coins_moved_props(w, payer, list.first().0, list.first().1);
            match coins_moved(w, payer, list.first().0, list.first().1) {
                Some(w2) => {
                    lemma_pay_list_props(w2, payer, list.drop_first());
                },
                None => {},
            }
        }
    }
}

/// Settle each listed payment from the payer's wallet, in order,
/// writing through the store so repeated payers stay coherent.
#[verifier::loop_isolation(false)]
pub fn collect_payments(ws: &mut Wallets, payer: &PublicKey, list: &Vec<(PublicKey, u64)>) -> (r:
    Result<(), Error>)
    requires
        wallets_ok(old(ws)@),
        sum_bal(old(ws)@) <= u64::MAX,
    ensures
        match r {
            Ok(_) => pay_list(old(ws)@, payer@, payments_view(list@)) == Some(final(ws)@)
                && wallets_ok(final(ws)@) && sum_bal(final(ws)@) == sum_bal(old(ws)@) && (forall|
                id: Seq<u8>,
            | #[trigger] sum_hold(final(ws)@, id) == sum_hold(old(ws)@, id)),
            Err(e) => e == Error::InsufficientFunds && pay_list(
                old(ws)@,
                payer@,
                payments_view(list@),
            ) is None,
        },
{
    let ghost lv = payments_view(list@);
    assert(lv.skip(0) =~= lv);
    let mut i: usize = 0;
    while i < list.len()
        invariant
            i <= list@.len(),
            wallets_ok(ws@),
            sum_bal(ws@) == sum_bal(old(ws)@),
            forall|id: Seq<u8>| #[trigger] sum_hold(ws@, id) == sum_hold(old(ws)@, id),
            pay_list(old(ws)@, payer@, lv) == pay_list(ws@, payer@, lv.skip(i as int)),
        decreases list@.len() - i,
    {
        let (creator, amount) = list[i];
        assert(lv.skip(i as int).first() == (creator@, amount));
        if !payer.equals(&creator) {
            proof {
                if bal(ws@, payer@) >= amount {
                    lemma_sum_bal_pair(ws@, payer@, creator@);
                }
            }
            let ghost before = ws@;
            match ws.move_coins_between(payer, &creator, amount) {
                Ok(()) => {
                    proof {
                        lemma_coins_moved_props(before, payer@, creator@, amount);
                    }
                },
                Err(e) => {
                    return Err(e);
                },
            }
        }
        assert(lv.skip(i as int).drop_first() =~= lv.skip(i + 1));
        i = i + 1;
    }
    assert(lv.skip(list@.len() as int) =~= Seq::<(Seq<u8>, u64)>::empty());
    Ok(())
}

/// Halve each payment: what the recipient's side owes under a split
/// strategy.
pub open spec fn half_payments(list: Seq<(Seq<u8>, u64)>) -> Seq<(Seq<u8>, u64)> {
    list.map_values(|e: (Seq<u8>, u64)| (e.0, e.1 / 2))
}

/// The other half of each payment, remainder included: what the
/// sender's side owes under a split strategy.
pub open spec fn rest_payments(list: Seq<(Seq<u8>, u64)>) -> Seq<(Seq<u8>, u64)> {
    list.map_values(|e: (Seq<u8>, u64)| (e.0, (e.1 - e.1 / 2) as u64))
}

/// The recipient's halves of an executable payment list.
#[verifier::loop_isolation(false)]
pub fn half_of(list: &Vec<(PublicKey, u64)>) -> (r: Vec<(PublicKey, u64)>)
    ensures
        payments_view(r@) == half_payments(payments_view(list@)),
{
    let mut out: Vec<(PublicKey, u64)> = Vec::new();
    let mut i: usize = 0;
    while i < list.len()
        invariant
            i <= list@.len(),
            payments_view(out@) =~= half_payments(payments_view(list@)).take(i as int),
        decreases list@.len() - i,
    {
        let (k, a) = list[i];
        out.push((k, a / 2));
        assert(payments_view(out@) =~= half_payments(payments_view(list@)).take(i + 1));
        i = i + 1;
    }
    assert(payments_view(out@) =~= half_payments(payments_view(list@)));
    out
}

/// The sender's halves, remainders included, of an executable payment
/// list.
#[verifier::loop_isolation(false)]
pub fn rest_of(list: &Vec<(PublicKey, u64)>) -> (r: Vec<(PublicKey, u64)>)
    ensures
        payments_view(r@) == rest_payments(payments_view(list@)),
{
    let mut out: Vec<(PublicKey, u64)> = Vec::new();
    let mut i: usize = 0;
    while i < list.len()
        invariant
            i <= list@.len(),
            payments_view(out@) =~= rest_payments(payments_view(list@)).take(i as int),
        decreases list@.len() - i,
    {
        let (k, a) = list[i];
        out.push((k, a - a / 2));
        assert(payments_view(out@) =~= rest_payments(payments_view(list@)).take(i + 1));
        i = i + 1;
    }
    assert(payments_view(out@) =~= rest_payments(payments_view(list@)));
    out
}

/// The taxes a payer owes third parties out of a computed list: every
/// payment not owed to the payer itself.
pub open spec fn sum_owed_others(list: Seq<(Seq<u8>, u64)>, payer: Seq<u8>) -> int
    decreases list.len(),
{
    if list.len() == 0 {
        0
    } else if list.first().0 == payer {
        sum_owed_others(list.drop_first(), payer)
    } else {
        list.first().1 + sum_owed_others(list.drop_first(), payer)
    }
}

/// Sum the payments not owed to the payer itself, or nothing when the
/// total exceeds the 64-bit range.
#[verifier::loop_isolation(false)]
pub fn sum_others(list: &Vec<(PublicKey, u64)>, payer: &PublicKey) -> (r: Option<u64>)
    ensures
        match r {
            Some(t) => t == sum_owed_others(payments_view(list@), payer@),
            None => sum_owed_others(payments_view(list@), payer@) > u64::MAX,
        },
{
    let ghost lv = payments_view(list@);
    let ghost whole = sum_owed_others(lv, payer@);
    assert(lv.skip(0) =~= lv);
    let mut acc: u64 = 0;
    let mut i: usize = 0;
    while i < list.len()
        invariant
            i <= list@.len(),
            acc + sum_owed_others(lv.skip(i as int), payer@) == whole,
        decreases list@.len() - i,
    {
        let (k, a) = list[i];
        assert(lv.skip(i as int).first() == (k@, a));
        assert(lv.skip(i as int).drop_first() =~= lv.skip(i + 1));
        if !payer.equals(&k) {
            proof {
                lemma_sum_owed_nonneg(lv.skip(i + 1), payer@);
            }
            acc = match acc.checked_add(a) {
                Some(t) => t,
                None => {
                    return None;
                },
            };
        }
        i = i + 1;
    }
    assert(lv.skip(list@.len() as int) =~= Seq::<(Seq<u8>, u64)>::empty());
    Some(acc)
}

/// Owed totals are never negative.
pub proof fn lemma_sum_owed_nonneg(list: Seq<(Seq<u8>, u64)>, payer: Seq<u8>)
    ensures
        sum_owed_others(list, payer) >= 0,
    decreases list.len(),
{
    if list.len() > 0 {
        lemma_sum_owed_nonneg(list.drop_first(), payer);
    }
}

} // verus!
