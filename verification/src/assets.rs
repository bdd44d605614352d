//! Asset data: fee schedules, registry entries, bundles moved by
//! transactions, and the issuance requests that create them.

use vstd::prelude::*;

use crate::assetid::{derived_id, AssetID};
use crate::error::Error;
use crate::keys::PublicKey;

verus! {

/// The fee schedule of one asset: the tax, per unit moved, paid to the
/// asset's creator whenever a third party moves the asset.
#[derive(Clone, Copy, PartialEq, Eq, Structural, Debug)]
pub struct AssetFees {
    tax: u64,
}

impl View for AssetFees {
    type V = u64;

    closed spec fn view(&self) -> u64 {
        self.tax
    }
}

impl AssetFees {
    /// A schedule taxing each moved unit at `tax`.
    pub fn new(tax: u64) -> (r: AssetFees)
        ensures
            r@ == tax,
    {
        AssetFees { tax }
    }

    /// The tax per unit moved.
    pub fn tax(&self) -> (r: u64)
        ensures
            r == self@,
    {
        self.tax
    }
}

/// A registry entry: who issued the asset, how much of it is in
/// circulation, and its fee schedule.
#[derive(Clone, Copy, Debug)]
pub struct AssetInfo {
    creator: PublicKey,
    amount: u64,
    fees: AssetFees,
}

/// The mathematical value of a registry entry.
pub ghost struct InfoV {
    pub creator: Seq<u8>,
    pub amount: u64,
    pub tax: u64,
}

impl View for AssetInfo {
    type V = InfoV;

    closed spec fn view(&self) -> InfoV {
        InfoV { creator: self.creator@, amount: self.amount, tax: self.fees.tax }
    }
}

impl AssetInfo {
    /// A fresh registry entry.
    pub fn new(creator: &PublicKey, amount: u64, fees: AssetFees) -> (r: AssetInfo)
        ensures
            r@ == (InfoV { creator: creator@, amount: amount, tax: fees@ }),
    {
        AssetInfo { creator: *creator, amount, fees }
    }

    /// The issuing creator's key.
    pub fn creator(&self) -> (r: PublicKey)
        ensures
            r@ == self@.creator,
    {
        self.creator
    }

    /// The amount currently in circulation.
    pub fn amount(&self) -> (r: u64)
        ensures
            r == self@.amount,
    {
        self.amount
    }

    /// The fee schedule.
    pub fn fees(&self) -> (r: AssetFees)
        ensures
            r@ == self@.tax,
    {
        self.fees
    }

    /// Merge a re-issuance into this entry: circulation grows by the
    /// incoming amount.  A different creator or fee schedule is a hard
    /// failure, never silently overwritten; an amount beyond the 64-bit
    /// range cannot be represented and is rejected.
    pub fn merge(&self, other: &AssetInfo) -> (r: Result<AssetInfo, Error>)
        ensures
            match r {
                Ok(m) => self@.creator == other@.creator && self@.tax == other@.tax
                    && self@.amount + other@.amount <= u64::MAX
                    && m@ == (InfoV {
                        creator: self@.creator,
                        amount: (self@.amount + other@.amount) as u64,
                        tax: self@.tax,
                    }),
                Err(Error::InvalidAssetInfo) => self@.creator != other@.creator
                    || self@.tax != other@.tax,
                Err(Error::InvalidTransaction) => self@.creator == other@.creator
                    && self@.tax == other@.tax && self@.amount + other@.amount > u64::MAX,
                Err(_) => false,
            },
    {
        if !self.creator.equals(&other.creator) {
            return Err(Error::InvalidAssetInfo);
        }
        if self.fees.tax() != other.fees.tax() {
            return Err(Error::InvalidAssetInfo);
        }
        match self.amount.checked_add(other.amount) {
            Some(total) => Ok(AssetInfo { creator: self.creator, amount: total, fees: self.fees }),
            None => Err(Error::InvalidTransaction),
        }
    }
}

/// A bundle of assets with the same id: the unit moved by transfer
/// primitives.
#[derive(Clone, Copy, PartialEq, Debug)]
pub struct AssetBundle {
    pub id: AssetID,
    pub amount: u64,
}

impl View for AssetBundle {
    type V = (Seq<u8>, u64);

    closed spec fn view(&self) -> (Seq<u8>, u64) {
        (self.id@, self.amount)
    }
}

impl AssetBundle {
    /// A bundle of `amount` units of the asset `id`.
    pub fn new(id: AssetID, amount: u64) -> (r: AssetBundle)
        ensures
            r@ == (id@, amount),
    {
        AssetBundle { id, amount }
    }

    /// Create a new `AssetBundle` from a data string and the creator's
    /// public key, deriving the identifier.
    pub fn from_data(data: &str, amount: u64, pub_key: &PublicKey) -> (r: AssetBundle)
        ensures
            r@ == (derived_id(data@, pub_key@), amount),
    {
        let id = AssetID::from_data(data, pub_key);
        AssetBundle { id, amount }
    }

    /// The asset identifier.
    pub fn id(&self) -> (r: AssetID)
        ensures
            r@ == self@.0,
    {
        self.id
    }

    /// The number of units.
    pub fn amount(&self) -> (r: u64)
        ensures
            r == self@.1,
    {
        self.amount
    }
}

/// The association-sequence value of a list of bundles.
pub open spec fn bundles_view(s: Seq<AssetBundle>) -> Seq<(Seq<u8>, u64)> {
    s.map_values(|b: AssetBundle| b@)
}

/// An identical copy of a bundle list.
#[verifier::loop_isolation(false)]
pub fn copy_bundles(v: &Vec<AssetBundle>) -> (r: Vec<AssetBundle>)
    ensures
        r@ == v@,
{
    let mut out: Vec<AssetBundle> = Vec::new();
    let mut i: usize = 0;
    while i < v.len()
        invariant
            i <= v@.len(),
            out@ =~= v@.take(i as int),
        decreases v@.len() - i,
    {
        out.push(v[i]);
        i = i + 1;
    }
    assert(out@ =~= v@);
    out
}

/// An amount of an asset offered at a price, the unit of a trade offer.
#[derive(Clone, Copy, Debug)]
pub struct TradeAsset {
    pub id: AssetID,
    pub amount: u64,
    pub price: u64,
}

impl View for TradeAsset {
    type V = (Seq<u8>, u64, u64);

    closed spec fn view(&self) -> (Seq<u8>, u64, u64) {
        (self.id@, self.amount, self.price)
    }
}

impl TradeAsset {
    /// `amount` units of `id` offered for `price` coins in total.
    pub fn new(id: AssetID, amount: u64, price: u64) -> (r: TradeAsset)
        ensures
            r@ == (id@, amount, price),
    {
        TradeAsset { id, amount, price }
    }

    /// The asset identifier.
    pub fn id(&self) -> (r: AssetID)
        ensures
            r@ == self@.0,
    {
        self.id
    }

    /// The number of units offered.
    pub fn amount(&self) -> (r: u64)
        ensures
            r == self@.1,
    {
        self.amount
    }

    /// The asking price for the whole amount.
    pub fn price(&self) -> (r: u64)
        ensures
            r == self@.2,
    {
        self.price
    }
}

impl From<TradeAsset> for AssetBundle {
    /// Forget the price: the bundle a trade offer moves.
    fn from(ta: TradeAsset) -> (r: AssetBundle) {
        AssetBundle { id: ta.id, amount: ta.amount }
    }
}

impl vstd::std_specs::convert::FromSpecImpl<TradeAsset> for AssetBundle {
    open spec fn obeys_from_spec() -> bool {
        true
    }

    open spec fn from_spec(ta: TradeAsset) -> AssetBundle {
        AssetBundle { id: ta.id, amount: ta.amount }
    }
}

/// An issuance request: the data string naming the asset, the amount to
/// issue, the fee schedule to register, and the wallet to credit.
#[derive(Clone, PartialEq, Debug)]
pub struct MetaAsset {
    data: String,
    amount: u64,
    fees: AssetFees,
    receiver: PublicKey,
}

/// The mathematical value of an issuance request.
pub ghost struct MetaAssetV {
    pub data: Seq<char>,
    pub amount: u64,
    pub tax: u64,
    pub receiver: Seq<u8>,
}

impl View for MetaAsset {
    type V = MetaAssetV;

    closed spec fn view(&self) -> MetaAssetV {
        MetaAssetV {
            data: self.data@,
            amount: self.amount,
            tax: self.fees.tax,
            receiver: self.receiver@,
        }
    }
}

impl MetaAsset {
    /// An issuance request.
    pub fn new(data: String, amount: u64, fees: AssetFees, receiver: &PublicKey) -> (r: MetaAsset)
        ensures
            r@ == (MetaAssetV {
                data: data@,
                amount: amount,
                tax: fees@,
                receiver: receiver@,
            }),
    {
        MetaAsset { data, amount, fees, receiver: *receiver }
    }

    /// The data string the identifier is derived from.
    pub fn data(&self) -> (r: &String)
        ensures
            r@ == self@.data,
    {
        &self.data
    }

    /// The amount to issue.
    pub fn amount(&self) -> (r: u64)
        ensures
            r == self@.amount,
    {
        self.amount
    }

    /// The fee schedule to register.
    pub fn fees(&self) -> (r: AssetFees)
        ensures
            r@ == self@.tax,
    {
        self.fees
    }

    /// The wallet credited with the issued amount.
    pub fn receiver(&self) -> (r: &PublicKey)
        ensures
            r@ == self@.receiver,
    {
        &self.receiver
    }

    /// Structural validity: an issuance must move a positive amount.
    pub fn verify(&self) -> (r: bool)
        ensures
            r == (self@.amount > 0),
    {
        self.amount > 0
    }

    /// The registry entry this request creates when the registry has
    /// none yet.
    pub fn to_info(&self, creator: &PublicKey) -> (r: AssetInfo)
        ensures
            r@ == (InfoV { creator: creator@, amount: self@.amount, tax: self@.tax }),
    {
        AssetInfo::new(creator, self.amount, self.fees)
    }

    /// The bundle credited to the receiver.
    pub fn to_bundle(&self, id: AssetID) -> (r: AssetBundle)
        ensures
            r@ == (id@, self@.amount),
    {
        AssetBundle::new(id, self.amount)
    }
}

} // verus!
