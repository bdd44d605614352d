//! Association sequences: the mathematical model behind every store in
//! the ledger (wallets by public key, registry entries by asset
//! identifier, holdings by asset identifier, statuses by transaction
//! hash).
//!
//! A store is modelled as a sequence of key-value pairs with distinct
//! byte-sequence keys.  `sget`, `sput` and `sdel` are the lookup, the
//! insert-or-replace and the removal on that model; the lemmas here
//! relate them to each other and to the positional operations the
//! executable stores perform.

use vstd::prelude::*;

verus! {

/// Every key occurs at most once.
pub open spec fn keys_distinct<V>(s: Seq<(Seq<u8>, V)>) -> bool
    decreases s.len(),
{
    s.len() == 0 || (sget(s.drop_first(), s.first().0) is None && keys_distinct(s.drop_first()))
}

/// The value at `k`, taking the first occurrence.
pub open spec fn sget<V>(s: Seq<(Seq<u8>, V)>, k: Seq<u8>) -> Option<V>
    decreases s.len(),
{
    if s.len() == 0 {
        None
    } else if s.first().0 == k {
        Some(s.first().1)
    } else {
        sget(s.drop_first(), k)
    }
}

/// Replace the value at `k`, or append the pair if `k` is absent.
pub open spec fn sput<V>(s: Seq<(Seq<u8>, V)>, k: Seq<u8>, v: V) -> Seq<(Seq<u8>, V)>
    decreases s.len(),
{
    if s.len() == 0 {
        seq![(k, v)]
    } else if s.first().0 == k {
        seq![(k, v)] + s.drop_first()
    } else {
        seq![s.first()] + sput(s.drop_first(), k, v)
    }
}

/// Remove the first pair keyed `k`, if any.
pub open spec fn sdel<V>(s: Seq<(Seq<u8>, V)>, k: Seq<u8>) -> Seq<(Seq<u8>, V)>
    decreases s.len(),
{
    if s.len() == 0 {
        s
    } else if s.first().0 == k {
        s.drop_first()
    } else {
        seq![s.first()] + sdel(s.drop_first(), k)
    }
}

/// Lookup after insert-or-replace: the new value at the written key,
/// the old value elsewhere.
pub proof fn lemma_sget_put<V>(s: Seq<(Seq<u8>, V)>, k: Seq<u8>, v: V, k2: Seq<u8>)
    ensures
        sget(sput(s, k, v), k2) == if k2 == k {
            Some(v)
        } else {
            sget(s, k2)
        },
    decreases s.len(),
{
    if s.len() == 0 {
        let e = sput(s, k, v).drop_first();
        assert(e =~= Seq::<(Seq<u8>, V)>::empty());
        assert(sget(e, k2) is None);
        assert(sput(s, k, v).first() == (k, v));
    } else if s.first().0 == k {
        assert(sput(s, k, v).first() == (k, v));
        assert(sput(s, k, v).drop_first() =~= s.drop_first());
    } else {
        assert(sput(s, k, v).first() == s.first());
        assert(sput(s, k, v).drop_first() =~= sput(s.drop_first(), k, v));
        lemma_sget_put(s.drop_first(), k, v, k2);
    }
}

/// Insert-or-replace keeps keys distinct.
pub proof fn lemma_sput_distinct<V>(s: Seq<(Seq<u8>, V)>, k: Seq<u8>, v: V)
    requires
        keys_distinct(s),
    ensures
        keys_distinct(sput(s, k, v)),
    decreases s.len(),
{
    if s.len() == 0 {
        let e = Seq::<(Seq<u8>, V)>::empty();
        assert(sput(s, k, v).drop_first() =~= e);
        assert(keys_distinct(e));
        assert(sget(e, k) is None);
    } else if s.first().0 == k {
        assert(sput(s, k, v).first() == (k, v));
        assert(sput(s, k, v).drop_first() =~= s.drop_first());
    } else {
        assert(sput(s, k, v).first() == s.first());
        assert(sput(s, k, v).drop_first() =~= sput(s.drop_first(), k, v));
        lemma_sput_distinct(s.drop_first(), k, v);
        lemma_sget_put(s.drop_first(), k, v, s.first().0);
    }
}

/// Lookup after removal: nothing at the removed key, the old value
/// elsewhere.
pub proof fn lemma_sget_del<V>(s: Seq<(Seq<u8>, V)>, k: Seq<u8>, k2: Seq<u8>)
    requires
        keys_distinct(s),
    ensures
        sget(sdel(s, k), k2) == if k2 == k {
            None::<V>
        } else {
            sget(s, k2)
        },
    decreases s.len(),
{
    if s.len() == 0 {
    } else if s.first().0 == k {
    } else {
        assert(sdel(s, k).drop_first() =~= sdel(s.drop_first(), k));
        lemma_sget_del(s.drop_first(), k, k2);
    }
}

/// Removal keeps keys distinct.
pub proof fn lemma_sdel_distinct<V>(s: Seq<(Seq<u8>, V)>, k: Seq<u8>)
    requires
        keys_distinct(s),
    ensures
        keys_distinct(sdel(s, k)),
    decreases s.len(),
{
    if s.len() == 0 {
    } else if s.first().0 == k {
    } else {
        assert(sdel(s, k).drop_first() =~= sdel(s.drop_first(), k));
        lemma_sdel_distinct(s.drop_first(), k);
        lemma_sget_del(s.drop_first(), k, s.first().0);
    }
}

/// A key found at position `i`, with no earlier occurrence, is what
/// lookup returns.
pub proof fn lemma_sget_at<V>(s: Seq<(Seq<u8>, V)>, k: Seq<u8>, i: int)
    requires
        0 <= i < s.len(),
        s[i].0 == k,
        forall|j: int| 0 <= j < i ==> s[j].0 != k,
    ensures
        sget(s, k) == Some(s[i].1),
    decreases s.len(),
{
    if i == 0 {
    } else {
        lemma_sget_at(s.drop_first(), k, i - 1);
    }
}

/// A key occurring nowhere is absent from lookup.
pub proof fn lemma_sget_absent<V>(s: Seq<(Seq<u8>, V)>, k: Seq<u8>)
    requires
        forall|j: int| 0 <= j < s.len() ==> s[j].0 != k,
    ensures
        sget(s, k) is None,
    decreases s.len(),
{
    if s.len() > 0 {
        lemma_sget_absent(s.drop_first(), k);
    }
}

/// Insert-or-replace at a present key is a positional update.
pub proof fn lemma_sput_at<V>(s: Seq<(Seq<u8>, V)>, k: Seq<u8>, v: V, i: int)
    requires
        0 <= i < s.len(),
        s[i].0 == k,
        forall|j: int| 0 <= j < i ==> s[j].0 != k,
    ensures
        sput(s, k, v) == s.update(i, (k, v)),
    decreases s.len(),
{
    if i == 0 {
        assert(sput(s, k, v) =~= s.update(0, (k, v)));
    } else {
        lemma_sput_at(s.drop_first(), k, v, i - 1);
        assert(sput(s, k, v) =~= s.update(i, (k, v)));
    }
}

/// Insert-or-replace at an absent key is an append.
pub proof fn lemma_sput_absent<V>(s: Seq<(Seq<u8>, V)>, k: Seq<u8>, v: V)
    requires
        forall|j: int| 0 <= j < s.len() ==> s[j].0 != k,
    ensures
        sput(s, k, v) == s.push((k, v)),
    decreases s.len(),
{
    if s.len() == 0 {
        assert(sput(s, k, v) =~= s.push((k, v)));
    } else {
        lemma_sput_absent(s.drop_first(), k, v);
        assert(sput(s, k, v) =~= s.push((k, v)));
    }
}

/// Removal of a key present at position `i` is a positional removal.
pub proof fn lemma_sdel_at<V>(s: Seq<(Seq<u8>, V)>, k: Seq<u8>, i: int)
    requires
        0 <= i < s.len(),
        s[i].0 == k,
        forall|j: int| 0 <= j < i ==> s[j].0 != k,
    ensures
        sdel(s, k) == s.remove(i),
    decreases s.len(),
{
    if i == 0 {
        assert(sdel(s, k) =~= s.remove(0));
    } else {
        lemma_sdel_at(s.drop_first(), k, i - 1);
        assert(sdel(s, k) =~= s.remove(i));
    }
}

/// Removal of an absent key changes nothing.
pub proof fn lemma_sdel_absent<V>(s: Seq<(Seq<u8>, V)>, k: Seq<u8>)
    requires
        forall|j: int| 0 <= j < s.len() ==> s[j].0 != k,
    ensures
        sdel(s, k) == s,
    decreases s.len(),
{
    if s.len() > 0 {
        lemma_sdel_absent(s.drop_first(), k);
        assert(sdel(s, k) =~= s);
    }
}

/// A found value sits at some position.
pub proof fn lemma_sget_index<V>(s: Seq<(Seq<u8>, V)>, k: Seq<u8>)
    requires
        sget(s, k) is Some,
    ensures
        exists|i: int| 0 <= i < s.len() && s[i].0 == k && s[i].1 == sget(s, k)->Some_0,
    decreases s.len(),
{
    if s.first().0 == k {
        assert(s[0].0 == k && s[0].1 == sget(s, k)->Some_0);
    } else {
        lemma_sget_index(s.drop_first(), k);
        let i = choose|i: int|
            0 <= i < s.drop_first().len() && s.drop_first()[i].0 == k && s.drop_first()[i].1
                == sget(s.drop_first(), k)->Some_0;
        assert(s[i + 1].0 == k && s[i + 1].1 == sget(s, k)->Some_0);
    }
}

/// Every pair of an insert-or-replace is the written pair or a pair of
/// the original.
pub proof fn lemma_sput_entries<V>(s: Seq<(Seq<u8>, V)>, k: Seq<u8>, v: V)
    ensures
        forall|m: int|
            0 <= m < sput(s, k, v).len() ==> (sput(s, k, v)[m] == (k, v) || s.contains(
                sput(s, k, v)[m],
            )),
    decreases s.len(),
{
    if s.len() == 0 {
    } else if s.first().0 == k {
        assert forall|m: int| 0 <= m < sput(s, k, v).len() implies (sput(s, k, v)[m] == (k, v)
            || s.contains(sput(s, k, v)[m])) by {
            if m > 0 {
                assert(sput(s, k, v)[m] == s[m]);
            }
        }
    } else {
        lemma_sput_entries(s.drop_first(), k, v);
        assert forall|m: int| 0 <= m < sput(s, k, v).len() implies (sput(s, k, v)[m] == (k, v)
            || s.contains(sput(s, k, v)[m])) by {
            if m > 0 {
                let inner = sput(s.drop_first(), k, v);
                assert(sput(s, k, v)[m] == inner[m - 1]);
                if inner[m - 1] != (k, v) {
                    let i = choose|i: int| 0 <= i < s.drop_first().len() && s.drop_first()[i]
                        == inner[m - 1];
                    assert(s[i + 1] == inner[m - 1]);
                }
            } else {
                assert(s[0] == sput(s, k, v)[0]);
            }
        }
    }
}

/// Every pair of a removal is a pair of the original.
pub proof fn lemma_sdel_entries<V>(s: Seq<(Seq<u8>, V)>, k: Seq<u8>)
    ensures
        forall|m: int| 0 <= m < sdel(s, k).len() ==> s.contains(sdel(s, k)[m]),
    decreases s.len(),
{
    if s.len() == 0 {
    } else if s.first().0 == k {
        assert forall|m: int| 0 <= m < sdel(s, k).len() implies s.contains(sdel(s, k)[m]) by {
            assert(sdel(s, k)[m] == s[m + 1]);
        }
    } else {
        lemma_sdel_entries(s.drop_first(), k);
        assert forall|m: int| 0 <= m < sdel(s, k).len() implies s.contains(sdel(s, k)[m]) by {
            if m > 0 {
                let inner = sdel(s.drop_first(), k);
                assert(sdel(s, k)[m] == inner[m - 1]);
                let i = choose|i: int| 0 <= i < s.drop_first().len() && s.drop_first()[i] == inner[
                    m - 1];
                assert(s[i + 1] == inner[m - 1]);
            } else {
                assert(s[0] == sdel(s, k)[0]);
            }
        }
    }
}

} // verus!
