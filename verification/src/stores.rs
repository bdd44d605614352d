//! The executable stores a fork holds: wallets keyed by public key, the
//! asset registry keyed by identifier, and execution statuses keyed by
//! transaction hash.  Each store refines an association sequence.

use vstd::prelude::*;

use crate::assetid::AssetID;
use crate::assets::AssetInfo;
use crate::assets::InfoV;
use crate::assoc::{
    lemma_sdel_at, lemma_sdel_absent, lemma_sget_absent, lemma_sget_at,
    lemma_sput_absent, lemma_sput_at, sdel, sget, sput,
};
use crate::error::TxStatus;
use crate::keys::PublicKey;
use crate::wallet::{hold, Wallet, WalletV};

verus! {

/// Byte-for-byte equality of two byte vectors.
pub fn bytes_eq(a: &Vec<u8>, b: &Vec<u8>) -> (r: bool)
    ensures
        r == (a@ == b@),
{
    if a.len() != b.len() {
        assert(a@ != b@);
        return false;
    }
    let mut i: usize = 0;
    while i < a.len()
        invariant
            i <= a@.len(),
            a@.len() == b@.len(),
            forall|j: int| 0 <= j < i ==> a@[j] == b@[j],
        decreases a@.len() - i,
    {
        if a[i] != b[i] {
            assert(a@ != b@);
            return false;
        }
        i = i + 1;
    }
    assert(a@ =~= b@);
    true
}

/// The wallet an absent key denotes: empty, never stored.
pub open spec fn empty_wallet() -> WalletV {
    WalletV { balance: 0u64, assets: Seq::empty() }
}

/// The wallet a store hands out for a key: the stored one, or an empty
/// wallet when the key was never written.
pub open spec fn fetched(s: Seq<(Seq<u8>, WalletV)>, k: Seq<u8>) -> WalletV {
    match sget(s, k) {
        Some(w) => w,
        None => empty_wallet(),
    }
}

/// The balance under a key; zero when absent.
pub open spec fn bal(s: Seq<(Seq<u8>, WalletV)>, k: Seq<u8>) -> u64 {
    fetched(s, k).balance
}

/// The holding of asset `id` under a key; zero when absent.
pub open spec fn whold(s: Seq<(Seq<u8>, WalletV)>, k: Seq<u8>, id: Seq<u8>) -> u64 {
    hold(fetched(s, k), id)
}

/// The wallet store of a fork.
#[derive(Debug)]
pub struct Wallets {
    entries: Vec<(PublicKey, Wallet)>,
}

impl View for Wallets {
    type V = Seq<(Seq<u8>, WalletV)>;

    closed spec fn view(&self) -> Seq<(Seq<u8>, WalletV)> {
        self.entries@.map_values(|e: (PublicKey, Wallet)| (e.0@, e.1@))
    }
}

impl Wallets {
    /// An empty store.
    pub fn new() -> (r: Wallets)
        ensures
            r@ =~= Seq::<(Seq<u8>, WalletV)>::empty(),
    {
        Wallets { entries: Vec::new() }
    }

    /// The stored wallet under `k`, or an empty wallet: accounts exist
    /// implicitly and are created on first write.
    pub fn fetch(&self, k: &PublicKey) -> (r: Wallet)
        ensures
            r@ == fetched(self@, k@),
    {
        let mut i: usize = 0;
        while i < self.entries.len()
            invariant
                i <= self.entries@.len(),
                forall|j: int| 0 <= j < i ==> self@[j].0 != k@,
            decreases self.entries@.len() - i,
        {
            if self.entries[i].0.equals(k) {
                proof {
                    lemma_sget_at(self@, k@, i as int);
                }
                return self.entries[i].1.duplicate();
            }
            i = i + 1;
        }
        proof {
            lemma_sget_absent(self@, k@);
        }
        let w = Wallet::new();
        assert(w@ =~= empty_wallet());
        w
    }

    /// Write `w` under `k`, replacing any previous wallet.
    #[verifier::loop_isolation(false)]
    pub fn store(&mut self, k: &PublicKey, w: Wallet)
        ensures
            final(self)@ == sput(old(self)@, k@, w@),
    {
        let ghost target = sput(old(self)@, k@, w@);
        let mut i: usize = 0;
        while i < self.entries.len()
            invariant
                i <= self.entries@.len(),
                *self == *old(self),
                forall|j: int| 0 <= j < i ==> self@[j].0 != k@,
            decreases self.entries@.len() - i,
        {
            if self.entries[i].0.equals(k) {
                proof {
                    lemma_sput_at(self@, k@, w@, i as int);
                }
                self.entries.set(i, (*k, w));
                assert(self@ =~= target);
                return;
            }
            i = i + 1;
        }
        proof {
            lemma_sput_absent(self@, k@, w@);
        }
        self.entries.push((*k, w));
        assert(self@ =~= target);
    }

    /// The number of stored wallets.
    pub fn len(&self) -> (r: usize)
        ensures
            r == self@.len(),
    {
        self.entries.len()
    }

    /// The stored wallet at position `i`, with its key.
    pub fn entry_at(&self, i: usize) -> (r: (PublicKey, Wallet))
        requires
            i < self@.len(),
        ensures
            r.0@ == self@[i as int].0,
            r.1@ == self@[i as int].1,
    {
        let k = self.entries[i].0;
        let w = self.entries[i].1.duplicate();
        (k, w)
    }

    /// An identical copy of the store.
    #[verifier::loop_isolation(false)]
    pub fn duplicate(&self) -> (r: Wallets)
        ensures
            r@ == self@,
    {
        let mut entries: Vec<(PublicKey, Wallet)> = Vec::new();
        let mut i: usize = 0;
        while i < self.entries.len()
            invariant
                i <= self.entries@.len(),
                entries@.len() == i,
                forall|j: int| 0 <= j < i ==> entries@[j].0 == self.entries@[j].0
                    && entries@[j].1@ == self.entries@[j].1@,
            decreases self.entries@.len() - i,
        {
            let k = self.entries[i].0;
            let w = self.entries[i].1.duplicate();
            entries.push((k, w));
            i = i + 1;
        }
        let r = Wallets { entries };
        assert(r@ =~= self@);
        r
    }
}

/// The amount of `id` in circulation according to the registry; zero
/// when the asset is unknown.
pub open spec fn reg_amount(s: Seq<(Seq<u8>, InfoV)>, id: Seq<u8>) -> u64 {
    match sget(s, id) {
        Some(info) => info.amount,
        None => 0u64,
    }
}

/// The asset registry of a fork.
#[derive(Debug)]
pub struct Registry {
    entries: Vec<(AssetID, AssetInfo)>,
}

impl View for Registry {
    type V = Seq<(Seq<u8>, InfoV)>;

    closed spec fn view(&self) -> Seq<(Seq<u8>, InfoV)> {
        self.entries@.map_values(|e: (AssetID, AssetInfo)| (e.0@, e.1@))
    }
}

impl Registry {
    /// An empty registry.
    pub fn new() -> (r: Registry)
        ensures
            r@ =~= Seq::<(Seq<u8>, InfoV)>::empty(),
    {
        Registry { entries: Vec::new() }
    }

    /// The registry entry for `id`, if the asset is known.
    pub fn fetch(&self, id: &AssetID) -> (r: Option<AssetInfo>)
        ensures
            match r {
                Some(info) => sget(self@, id@) == Some(info@),
                None => sget(self@, id@) is None,
            },
    {
        let mut i: usize = 0;
        while i < self.entries.len()
            invariant
                i <= self.entries@.len(),
                forall|j: int| 0 <= j < i ==> self@[j].0 != id@,
            decreases self.entries@.len() - i,
        {
            if self.entries[i].0.equals(id) {
                proof {
                    lemma_sget_at(self@, id@, i as int);
                }
                return Some(self.entries[i].1);
            }
            i = i + 1;
        }
        proof {
            lemma_sget_absent(self@, id@);
        }
        None
    }

    /// Write `info` under `id`, replacing any previous entry.
    #[verifier::loop_isolation(false)]
    pub fn store(&mut self, id: &AssetID, info: AssetInfo)
        ensures
            final(self)@ == sput(old(self)@, id@, info@),
    {
        let ghost target = sput(old(self)@, id@, info@);
        let mut i: usize = 0;
        while i < self.entries.len()
            invariant
                i <= self.entries@.len(),
                *self == *old(self),
                forall|j: int| 0 <= j < i ==> self@[j].0 != id@,
            decreases self.entries@.len() - i,
        {
            if self.entries[i].0.equals(id) {
                proof {
                    lemma_sput_at(self@, id@, info@, i as int);
                }
                self.entries.set(i, (*id, info));
                assert(self@ =~= target);
                return;
            }
            i = i + 1;
        }
        proof {
            lemma_sput_absent(self@, id@, info@);
        }
        self.entries.push((*id, info));
        assert(self@ =~= target);
    }

    /// Remove the entry for `id`: retirement of the last unit.
    #[verifier::loop_isolation(false)]
    pub fn remove(&mut self, id: &AssetID)
        ensures
            final(self)@ == sdel(old(self)@, id@),
    {
        let ghost target = sdel(old(self)@, id@);
        let mut i: usize = 0;
        while i < self.entries.len()
            invariant
                i <= self.entries@.len(),
                *self == *old(self),
                forall|j: int| 0 <= j < i ==> self@[j].0 != id@,
            decreases self.entries@.len() - i,
        {
            if self.entries[i].0.equals(id) {
                proof {
                    lemma_sdel_at(self@, id@, i as int);
                }
                self.entries.remove(i);
                assert(self@ =~= target);
                return;
            }
            i = i + 1;
        }
        proof {
            lemma_sdel_absent(self@, id@);
        }
        assert(self@ =~= target);
    }

    /// An identical copy of the registry.
    #[verifier::loop_isolation(false)]
    pub fn duplicate(&self) -> (r: Registry)
        ensures
            r@ == self@,
    {
        let mut entries: Vec<(AssetID, AssetInfo)> = Vec::new();
        let mut i: usize = 0;
        while i < self.entries.len()
            invariant
                i <= self.entries@.len(),
                entries@ =~= self.entries@.take(i as int),
            decreases self.entries@.len() - i,
        {
            entries.push(self.entries[i]);
            i = i + 1;
        }
        assert(entries@ =~= self.entries@);
        let r = Registry { entries };
        assert(r@ =~= self@);
        r
    }
}

/// The status store of a fork: one outcome per executed transaction,
/// keyed by the transaction's hash.
#[derive(Debug)]
pub struct Statuses {
    entries: Vec<(Vec<u8>, TxStatus)>,
}

impl View for Statuses {
    type V = Seq<(Seq<u8>, TxStatus)>;

    closed spec fn view(&self) -> Seq<(Seq<u8>, TxStatus)> {
        self.entries@.map_values(|e: (Vec<u8>, TxStatus)| (e.0@, e.1))
    }
}

impl Statuses {
    /// An empty status store.
    pub fn new() -> (r: Statuses)
        ensures
            r@ =~= Seq::<(Seq<u8>, TxStatus)>::empty(),
    {
        Statuses { entries: Vec::new() }
    }

    /// The recorded status under a transaction hash, if any.
    pub fn get_status(&self, h: &Vec<u8>) -> (r: Option<TxStatus>)
        ensures
            r == sget(self@, h@),
    {
        let mut i: usize = 0;
        while i < self.entries.len()
            invariant
                i <= self.entries@.len(),
                forall|j: int| 0 <= j < i ==> self@[j].0 != h@,
            decreases self.entries@.len() - i,
        {
            if bytes_eq(&self.entries[i].0, h) {
                proof {
                    lemma_sget_at(self@, h@, i as int);
                }
                return Some(self.entries[i].1);
            }
            i = i + 1;
        }
        proof {
            lemma_sget_absent(self@, h@);
        }
        None
    }

    /// Record a status under a transaction hash.  Write-once per hash
    /// under a correct host; a re-execution overwrites, never merges.
    #[verifier::loop_isolation(false)]
    pub fn set_status(&mut self, h: &Vec<u8>, st: TxStatus)
        ensures
            final(self)@ == sput(old(self)@, h@, st),
    {
        let ghost target = sput(old(self)@, h@, st);
        let mut i: usize = 0;
        while i < self.entries.len()
            invariant
                i <= self.entries@.len(),
                *self == *old(self),
                forall|j: int| 0 <= j < i ==> self@[j].0 != h@,
            decreases self.entries@.len() - i,
        {
            if bytes_eq(&self.entries[i].0, h) {
                proof {
                    lemma_sput_at(self@, h@, st, i as int);
                }
                let mut key: Vec<u8> = Vec::new();
                let mut m: usize = 0;
                while m < h.len()
                    invariant
                        m <= h@.len(),
                        key@ =~= h@.take(m as int),
                    decreases h@.len() - m,
                {
                    key.push(h[m]);
                    m = m + 1;
                }
                assert(key@ =~= h@);
                self.entries.set(i, (key, st));
                assert(self@ =~= target);
                return;
            }
            i = i + 1;
        }
        proof {
            lemma_sput_absent(self@, h@, st);
        }
        let mut key: Vec<u8> = Vec::new();
        let mut m: usize = 0;
        while m < h.len()
            invariant
                m <= h@.len(),
                key@ =~= h@.take(m as int),
            decreases h@.len() - m,
        {
            key.push(h[m]);
            m = m + 1;
        }
        assert(key@ =~= h@);
        self.entries.push((key, st));
        assert(self@ =~= target);
    }
}

} // verus!
