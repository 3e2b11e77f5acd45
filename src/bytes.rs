//! Fixed-width little-endian scalars and how they are read from bytes.
use vstd::prelude::*;

verus! {

/// The unsigned value of four little-endian bytes.
pub open spec fn le_u32(b: Seq<u8>) -> u32
    recommends
        b.len() == 4,
{
    (b[0] as int + b[1] as int * 0x100 + b[2] as int * 0x1_0000 + b[3] as int * 0x100_0000) as u32
}

/// The unsigned value of eight little-endian bytes.
pub open spec fn le_u64(b: Seq<u8>) -> u64
    recommends
        b.len() == 8,
{
    (le_u32(b.subrange(0, 4)) as int + le_u32(b.subrange(4, 8)) as int * 0x1_0000_0000) as u64
}

/// A scalar type that the format stores as a fixed number of little-endian bytes.
pub trait FromData: Sized {
    /// How many bytes one value takes.
    spec fn spec_size() -> nat;

    /// The value that `spec_size()` bytes encode.
    spec fn spec_decode(b: Seq<u8>) -> Self;

    fn size() -> (r: usize)
        ensures
            r == Self::spec_size(),
            1 <= r <= 8,
    ;

    fn decode(b: &[u8]) -> (r: Self)
        requires
            b@.len() == Self::spec_size(),
        ensures
            r == Self::spec_decode(b@),
    ;
}

fn four(b: &[u8], at: usize) -> (r: u32)
    requires
        at + 4 <= b@.len(),
    ensures
        r == le_u32(b@.subrange(at as int, at + 4)),
{
    let v: u64 = b[at] as u64 + b[at + 1] as u64 * 0x100 + b[at + 2] as u64 * 0x1_0000
        + b[at + 3] as u64 * 0x100_0000;
    proof {
        let s = b@.subrange(at as int, at + 4);
        assert(s[0] == b@[at as int] && s[1] == b@[at + 1] && s[2] == b@[at + 2] && s[3]
            == b@[at + 3]);
    }
    v as u32
}

impl FromData for u8 {
    open spec fn spec_size() -> nat {
        1
    }

    open spec fn spec_decode(b: Seq<u8>) -> u8 {
        b[0]
    }

    fn size() -> (r: usize) {
        1
    }

    fn decode(b: &[u8]) -> (r: u8) {
        b[0]
    }
}

impl FromData for u32 {
    open spec fn spec_size() -> nat {
        4
    }

    open spec fn spec_decode(b: Seq<u8>) -> u32 {
        le_u32(b)
    }

    fn size() -> (r: usize) {
        4
    }

    fn decode(b: &[u8]) -> (r: u32) {
        let r = four(b, 0);
        assert(b@.subrange(0, 4) =~= b@);
        r
    }
}

impl FromData for i32 {
    open spec fn spec_size() -> nat {
        4
    }

    open spec fn spec_decode(b: Seq<u8>) -> i32 {
        le_u32(b) as i32
    }

    fn size() -> (r: usize) {
        4
    }

    fn decode(b: &[u8]) -> (r: i32) {
        let u = four(b, 0);
        assert(b@.subrange(0, 4) =~= b@);
        #[verifier::truncate]
        (u as i32)
    }
}

impl FromData for u64 {
    open spec fn spec_size() -> nat {
        8
    }

    open spec fn spec_decode(b: Seq<u8>) -> u64 {
        le_u64(b)
    }

    fn size() -> (r: usize) {
        8
    }

    fn decode(b: &[u8]) -> (r: u64) {
        let lo = four(b, 0);
        let hi = four(b, 4);
        lo as u64 + hi as u64 * 0x1_0000_0000
    }
}

impl FromData for i64 {
    open spec fn spec_size() -> nat {
        8
    }

    open spec fn spec_decode(b: Seq<u8>) -> i64 {
        le_u64(b) as i64
    }

    fn size() -> (r: usize) {
        8
    }

    fn decode(b: &[u8]) -> (r: i64) {
        let u = u64::decode(b);
        #[verifier::truncate]
        (u as i64)
    }
}

} // verus!
