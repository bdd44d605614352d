//! Canonical byte encodings.
//!
//! Hashing and signing operate over a canonical byte representation of
//! each transaction's signed fields.  The exact layout is this crate's
//! own: little-endian 64-bit integers, raw 32-byte keys and 16-byte
//! identifiers, and length-prefixed variable-size fields, concatenated
//! in field order behind a one-byte type tag.

use vstd::prelude::*;

use crate::assets::{bundles_view, AssetBundle};
use crate::keys::PublicKey;

verus! {

/// The eight little-endian bytes of a 64-bit integer.
pub open spec fn u64_le(x: u64) -> Seq<u8> {
    seq![
        x as u8,
        (x >> 8) as u8,
        (x >> 16) as u8,
        (x >> 24) as u8,
        (x >> 32) as u8,
        (x >> 40) as u8,
        (x >> 48) as u8,
        (x >> 56) as u8,
    ]
}

/// A variable-size field: its length, then its bytes.
pub open spec fn framed(b: Seq<u8>) -> Seq<u8> {
    u64_le(b.len() as u64) + b
}

/// A string field: its UTF-8 bytes, framed.
pub open spec fn framed_str(s: Seq<char>) -> Seq<u8> {
    framed(vstd::utf8::encode_utf8(s))
}

/// The items of a bundle list: each identifier and amount in order.
pub open spec fn bundle_items_bytes(bs: Seq<(Seq<u8>, u64)>) -> Seq<u8>
    decreases bs.len(),
{
    if bs.len() == 0 {
        Seq::empty()
    } else {
        bundle_items_bytes(bs.drop_last()) + bs.last().0 + u64_le(bs.last().1)
    }
}

/// A bundle list: its length, then each identifier and amount.
pub open spec fn bundles_bytes(bs: Seq<(Seq<u8>, u64)>) -> Seq<u8> {
    u64_le(bs.len() as u64) + bundle_items_bytes(bs)
}

/// Append the eight little-endian bytes of `x`.
pub fn push_u64(v: &mut Vec<u8>, x: u64)
    ensures
        final(v)@ == old(v)@ + u64_le(x),
{
    v.push(#[verifier::truncate] (x as u8));
    v.push(#[verifier::truncate] ((x >> 8) as u8));
    v.push(#[verifier::truncate] ((x >> 16) as u8));
    v.push(#[verifier::truncate] ((x >> 24) as u8));
    v.push(#[verifier::truncate] ((x >> 32) as u8));
    v.push(#[verifier::truncate] ((x >> 40) as u8));
    v.push(#[verifier::truncate] ((x >> 48) as u8));
    v.push(#[verifier::truncate] ((x >> 56) as u8));
    assert(final(v)@ =~= old(v)@ + u64_le(x));
}

/// Append raw bytes from a slice.
#[verifier::loop_isolation(false)]
pub fn push_slice(v: &mut Vec<u8>, b: &[u8])
    ensures
        final(v)@ == old(v)@ + b@,
{
    let mut i: usize = 0;
    while i < b.len()
        invariant
            i <= b@.len(),
            v@ =~= old(v)@ + b@.take(i as int),
        decreases b@.len() - i,
    {
        v.push(b[i]);
        assert(v@ =~= old(v)@ + b@.take(i + 1));
        i = i + 1;
    }
    assert(v@ =~= old(v)@ + b@);
}

/// Append a public key's 32 raw bytes.
pub fn push_key(v: &mut Vec<u8>, k: &PublicKey)
    ensures
        final(v)@ == old(v)@ + k@,
{
    push_slice(v, k.as_bytes());
}

/// Append a string field, framed.
pub fn push_str(v: &mut Vec<u8>, s: &str)
    ensures
        final(v)@ == old(v)@ + framed_str(s@),
{
    let b = s.as_bytes();
    push_u64(v, b.len() as u64);
    push_slice(v, b);
    assert(final(v)@ =~= old(v)@ + framed_str(s@));
}

/// Append a bundle list: its length, then each identifier and amount.
#[verifier::loop_isolation(false)]
pub fn push_bundles(v: &mut Vec<u8>, bs: &Vec<AssetBundle>)
    ensures
        final(v)@ == old(v)@ + bundles_bytes(bundles_view(bs@)),
{
    push_u64(v, bs.len() as u64);
    let ghost bsv = bundles_view(bs@);
    let ghost base = old(v)@ + u64_le(bs@.len() as u64);
    assert(bundle_items_bytes(bsv.take(0)) =~= Seq::<u8>::empty());
    assert(v@ =~= base + bundle_items_bytes(bsv.take(0)));
    let mut i: usize = 0;
    while i < bs.len()
        invariant
            i <= bs@.len(),
            v@ =~= base + bundle_items_bytes(bsv.take(i as int)),
        decreases bs@.len() - i,
    {
        let b = bs[i];
        push_slice(v, b.id().as_bytes());
        push_u64(v, b.amount());
        proof {
            assert(bsv.take(i + 1).drop_last() =~= bsv.take(i as int));
            assert(bsv.take(i + 1).last() == b@);
        }
        assert(v@ =~= base + bundle_items_bytes(bsv.take(i + 1)));
        i = i + 1;
    }
    assert(bsv.take(bsv.len() as int) =~= bsv);
    assert(v@ =~= old(v)@ + bundles_bytes(bsv));
}

} // verus!
