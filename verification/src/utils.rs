//! Big-endian byte conversions for the wire format, and a general-purpose
//! error type carrying a plain message.

use core::convert::TryInto;
use vstd::prelude::*;
use vstd::slice::slice_subrange;
use vstd::string::StringSliceAdditionalSpecFns;

verus! {

/// The 32-bit unsigned value denoted by four bytes in big-endian (network) order.
pub open spec fn spec_u32_from_be_bytes(s: Seq<u8>) -> u32
    recommends
        s.len() == 4,
{
    ((s[0] as u32) << 24) | ((s[1] as u32) << 16) | ((s[2] as u32) << 8) | (s[3] as u32)
}

/// The four big-endian bytes of a 32-bit unsigned value.
pub open spec fn spec_u32_to_be_bytes(x: u32) -> Seq<u8> {
    seq![
        ((x >> 24) & 0xff) as u8,
        ((x >> 16) & 0xff) as u8,
        ((x >> 8) & 0xff) as u8,
        (x & 0xff) as u8,
    ]
}

/// Big-endian encoding and decoding of a `u32` invert each other.
pub proof fn lemma_u32_be_bytes_round_trip(x: u32)
    ensures
        spec_u32_to_be_bytes(x).len() == 4,
        spec_u32_from_be_bytes(spec_u32_to_be_bytes(x)) == x,
{
    assert(((((x >> 24) & 0xff) as u8) as u32) << 24 | ((((x >> 16) & 0xff) as u8) as u32) << 16
        | ((((x >> 8) & 0xff) as u8) as u32) << 8 | (((x & 0xff) as u8) as u32) == x)
        by (bit_vector);
}

/// Relies on `<&[u8] as TryInto<[u8; N]>>::try_into`: a slice whose length is
/// exactly `N` converts to an array holding the same bytes.
#[verifier::external_body]
pub(crate) fn bytes_to_array<const N: usize>(bytes: &[u8]) -> (r: [u8; N])
    requires
        bytes@.len() == N,
    ensures
        r@ == bytes@,
{
    bytes.try_into().unwrap()
}

/// Reads the first four bytes of `vec` as a big-endian 32-bit unsigned integer.
pub fn vec_as_u32_be(vec: &Vec<u8>) -> (r: u32)
    requires
        vec@.len() >= 4,
    ensures
        r == spec_u32_from_be_bytes(vec@.subrange(0, 4)),
{
    let arr: [u8; 4] = bytes_to_array(slice_subrange(vec.as_slice(), 0, 4));
    as_u32_be(&arr)
}

/// Reads four bytes as a big-endian 32-bit unsigned integer.
pub fn as_u32_be(array: &[u8; 4]) -> (r: u32)
    ensures
        r == spec_u32_from_be_bytes(array@),
{
    let b0 = array[0] as u32;
    let b1 = array[1] as u32;
    let b2 = array[2] as u32;
    let b3 = array[3] as u32;
    proof {
        assert(b0 < 256 && b1 < 256 && b2 < 256 && b3 < 256 ==> (b0 << 24) + (b1 << 16) + (b2
            << 8) + b3 == (b0 << 24) | (b1 << 16) | (b2 << 8) | b3) by (bit_vector);
        assert(b0 < 256 && b1 < 256 && b2 < 256 && b3 < 256 ==> (b0 << 24) <= 0xff000000 && (b1
            << 16) <= 0xff0000 && (b2 << 8) <= 0xff00) by (bit_vector);
    }
    (b0 << 24) + (b1 << 16) + (b2 << 8) + b3
}

/// Writes a 32-bit unsigned integer as four bytes in big-endian order.
pub fn transform_u32_to_array_of_u8(x: u32) -> (r: [u8; 4])
    ensures
        r@ == spec_u32_to_be_bytes(x),
{
    let b1: u8 = ((x >> 24) & 0xff) as u8;
    let b2: u8 = ((x >> 16) & 0xff) as u8;
    let b3: u8 = ((x >> 8) & 0xff) as u8;
    let b4: u8 = (x & 0xff) as u8;
    let r = [b1, b2, b3, b4];
    proof {
        assert(r@ =~= spec_u32_to_be_bytes(x));
    }
    r
}

/// Copies the first `N` bytes of a string into a fixed-size array.
pub fn to_array<const N: usize>(s: &str) -> (r: [u8; N])
    requires
        N <= s.spec_bytes().len(),
    ensures
        r@ == s.spec_bytes().subrange(0, N as int),
{
    let bytes = s.as_bytes();
    bytes_to_array(slice_subrange(bytes, 0, N))
}

/// An error holding only a human-readable message.
#[derive(Debug)]
pub struct GeneralError {
    pub message: String,
}

impl GeneralError {
    /// Boxes a new error around the given message.
    pub fn new(message: String) -> (r: Box<GeneralError>)
        ensures
            r.message@ == message@,
    {
        Box::new(GeneralError { message })
    }

    /// The message this error was built from.
    pub fn description(&self) -> (r: &str)
        ensures
            r@ == self.message@,
    {
        self.message.as_str()
    }
}

} // verus!
