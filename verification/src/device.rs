//! Recognizing the dock from a device's identifying attributes.

use vstd::prelude::*;

verus! {

/// The vendor code of the dock model, as the bytes of `"413c"`.
pub open spec fn dock_vendor_code() -> Seq<u8> {
    seq![0x34u8, 0x31u8, 0x33u8, 0x63u8]
}

/// The product code of the dock model, as the bytes of `"b06f"`.
pub open spec fn dock_product_code() -> Seq<u8> {
    seq![0x62u8, 0x30u8, 0x36u8, 0x66u8]
}

/// The attribute pair used for matching a device model. Either code may be
/// absent on a given device or event; an absent code never matches.
pub struct DeviceDescriptor {
    pub vendor: Option<Vec<u8>>,
    pub product: Option<Vec<u8>>,
}

/// What it means for a descriptor to identify the dock: both codes are
/// present and each equals its fixed constant exactly.
pub open spec fn spec_is_dock(d: DeviceDescriptor) -> bool {
    &&& d.vendor matches Some(v) && v@ == dock_vendor_code()
    &&& d.product matches Some(p) && p@ == dock_product_code()
}

/// The vendor code as a byte vector, for exact comparison.
pub fn dock_vendor_id() -> (r: Vec<u8>)
    ensures
        r@ == dock_vendor_code(),
{
    let mut v: Vec<u8> = Vec::new();
    v.push(0x34);
    v.push(0x31);
    v.push(0x33);
    v.push(0x63);
    proof {
        assert(v@ =~= dock_vendor_code());
    }
    v
}

/// The product code as a byte vector, for exact comparison.
pub fn dock_product_id() -> (r: Vec<u8>)
    ensures
        r@ == dock_product_code(),
{
    let mut v: Vec<u8> = Vec::new();
    v.push(0x62);
    v.push(0x30);
    v.push(0x36);
    v.push(0x66);
    proof {
        assert(v@ =~= dock_product_code());
    }
    v
}

/// Exact byte-for-byte equality of two byte strings.
pub fn bytes_eq(a: &Vec<u8>, b: &Vec<u8>) -> (r: bool)
    ensures
        r == (a@ == b@),
{
    if a.len() != b.len() {
        return false;
    }
    let mut i: usize = 0;
    while i < a.len()
        invariant
            i <= a@.len(),
            a@.len() == b@.len(),
            forall|j: int| 0 <= j < i ==> a@[j] == b@[j],
        decreases a@.len() - i,
    {
        if a[i] != b[i] {
            return false;
        }
        i += 1;
    }
    proof {
        assert(a@ =~= b@);
    }
    true
}

/// A fresh copy of a byte string.
pub fn copy_bytes(src: &Vec<u8>) -> (r: Vec<u8>)
    ensures
        r@ == src@,
{
    let mut out: Vec<u8> = Vec::new();
    let mut i: usize = 0;
    while i < src.len()
        invariant
            i <= src@.len(),
            out@ == src@.take(i as int),
        decreases src@.len() - i,
    {
        out.push(src[i]);
        proof {
            assert(out@ =~= src@.take(i as int + 1));
        }
        i += 1;
    }
    proof {
        assert(src@.take(src@.len() as int) =~= src@);
    }
    out
}

/// The sole definition of "the dock": true exactly when the descriptor's
/// vendor and product codes are both present and equal the fixed constants.
/// Total: a missing or differing code is a non-match, never an error.
pub fn is_dock(d: &DeviceDescriptor) -> (r: bool)
    ensures
        r == spec_is_dock(*d),
{
    let vendor_ok: bool = match &d.vendor {
        Some(v) => bytes_eq(v, &dock_vendor_id()),
        None => false,
    };
    let product_ok: bool = match &d.product {
        Some(p) => bytes_eq(p, &dock_product_id()),
        None => false,
    };
    vendor_ok && product_ok
}

} // verus!
