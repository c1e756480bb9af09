//! Construct values from the arbitrary random bytes produced by the fuzzer.

use vstd::prelude::*;
use vstd::utf8::{decode_utf8, valid_utf8};
use std::array::TryFromSliceError;

verus! {

#[verifier::external_type_specification]
#[verifier::external_body]
pub struct ExFromUtf8Error(std::string::FromUtf8Error);

#[verifier::external_type_specification]
#[verifier::external_body]
pub struct ExTryFromSliceError(std::array::TryFromSliceError);

/// Construct a type from arbitrary random bytes.
pub trait FromRandomBytes<'a> {
    type Output;
    type Error;

    fn from_random_bytes(bytes: &'a [u8]) -> Result<Self::Output, Self::Error>;
}

/// `256^n`.
pub open spec fn pow256(n: nat) -> nat
    decreases n,
{
    if n == 0 { 1 } else { 256 * pow256((n - 1) as nat) }
}

/// The byte at index `i`, or 0 past the end of the bytes.
pub open spec fn byte_or_zero(bytes: Seq<u8>, i: int) -> nat {
    if 0 <= i < bytes.len() { bytes[i] as nat } else { 0 }
}

/// The big-endian value of the first `n` bytes, missing bytes counting as 0.
pub open spec fn be_prefix(bytes: Seq<u8>, n: nat) -> nat
    decreases n,
{
    if n == 0 { 0 } else { be_prefix(bytes, (n - 1) as nat) * 256 + byte_or_zero(bytes, n - 1) }
}

/// The two's complement reading of an `n`-byte value.
pub open spec fn twos_complement(v: nat, n: nat) -> int {
    if 2 * v >= pow256(n) { v - pow256(n) } else { v as int }
}

proof fn lemma_pow256_values()
    ensures
        pow256(1) == 0x100,
        pow256(2) == 0x1_0000,
        pow256(4) == 0x1_0000_0000,
        pow256(8) == 0x1_0000_0000_0000_0000,
        pow256(15) == 0x0100_0000_0000_0000_0000_0000_0000_0000,
        pow256(16) == 0x1_0000_0000_0000_0000_0000_0000_0000_0000,
{
    reveal_with_fuel(pow256, 17);
}

proof fn lemma_pow256_monotonic(a: nat, b: nat)
    requires
        a <= b,
    ensures
        pow256(a) <= pow256(b),
    decreases b,
{
    if a < b {
        lemma_pow256_monotonic(a, (b - 1) as nat);
    }
}

proof fn lemma_be_prefix_bound(bytes: Seq<u8>, n: nat)
    ensures
        be_prefix(bytes, n) < pow256(n),
    decreases n,
{
    if n > 0 {
        lemma_be_prefix_bound(bytes, (n - 1) as nat);
        let prev = be_prefix(bytes, (n - 1) as nat);
        let p = pow256((n - 1) as nat);
        let b = byte_or_zero(bytes, n - 1);
        assert(prev * 256 + b < p * 256) by (nonlinear_arith)
            requires
                prev < p,
                b < 256,
        ;
    }
}

/// The big-endian value of the first `n` bytes, missing bytes counting as 0.
fn unsigned_prefix(bytes: &[u8], n: usize) -> (v: u128)
    requires
        n <= 16,
    ensures
        v == be_prefix(bytes@, n as nat),
        v < pow256(n as nat),
{
    let mut v: u128 = 0;
    let mut i: usize = 0;
    proof {
        lemma_pow256_values();
    }
    while i < n
        invariant
            i <= n <= 16,
            v == be_prefix(bytes@, i as nat),
            pow256(16) == 0x1_0000_0000_0000_0000_0000_0000_0000_0000,
        decreases n - i,
    {
        let b: u8 = if i < bytes.len() { bytes[i] } else { 0 };
        proof {
            lemma_be_prefix_bound(bytes@, (i + 1) as nat);
            lemma_pow256_monotonic((i + 1) as nat, 16);
        }
        v = v * 256 + b as u128;
        i = i + 1;
    }
    proof {
        lemma_be_prefix_bound(bytes@, n as nat);
    }
    v
}

/// The two's complement reading of the first `n` bytes, missing bytes counting as 0.
fn signed_prefix(bytes: &[u8], n: usize) -> (v: i128)
    requires
        1 <= n <= 16,
    ensures
        v == twos_complement(be_prefix(bytes@, n as nat), n as nat),
{
    let u: u128 = unsigned_prefix(bytes, n);
    proof {
        lemma_pow256_values();
    }
    if n == 16 {
        if u >= 0x8000_0000_0000_0000_0000_0000_0000_0000 {
            ((u - 0x8000_0000_0000_0000_0000_0000_0000_0000) as i128) - 0x7fff_ffff_ffff_ffff_ffff_ffff_ffff_ffff - 1
        } else {
            u as i128
        }
    } else {
        let p: u128 = pow256_exec(n);
        proof {
            lemma_pow256_monotonic(n as nat, 15);
        }
        if u >= p - u {
            (u as i128) - (p as i128)
        } else {
            u as i128
        }
    }
}

/// `256^n`, for `n < 16`.
fn pow256_exec(n: usize) -> (p: u128)
    requires
        n < 16,
    ensures
        p == pow256(n as nat),
{
    let mut p: u128 = 1;
    let mut i: usize = 0;
    proof {
        lemma_pow256_values();
    }
    while i < n
        invariant
            i <= n < 16,
            p == pow256(i as nat),
            pow256(15) == 0x0100_0000_0000_0000_0000_0000_0000_0000,
        decreases n - i,
    {
        proof {
            lemma_pow256_monotonic((i + 1) as nat, 15);
        }
        p = p * 256;
        i = i + 1;
    }
    p
}

impl<'a> FromRandomBytes<'a> for u8 {
    type Output = u8;
    type Error = TryFromSliceError;

    /// The big-endian reading of the first 1 byte(s), missing bytes counting as 0
    fn from_random_bytes(bytes: &'a [u8]) -> (r: Result<u8, TryFromSliceError>)
        ensures
            r matches Ok(v) && v == be_prefix(bytes@, 1),
    {
        proof {
            lemma_pow256_values();
        }
        Ok(unsigned_prefix(bytes, 1) as u8)
    }
}

impl<'a> FromRandomBytes<'a> for u16 {
    type Output = u16;
    type Error = TryFromSliceError;

    /// The big-endian reading of the first 2 byte(s), missing bytes counting as 0
    fn from_random_bytes(bytes: &'a [u8]) -> (r: Result<u16, TryFromSliceError>)
        ensures
            r matches Ok(v) && v == be_prefix(bytes@, 2),
    {
        proof {
            lemma_pow256_values();
        }
        Ok(unsigned_prefix(bytes, 2) as u16)
    }
}

impl<'a> FromRandomBytes<'a> for u32 {
    type Output = u32;
    type Error = TryFromSliceError;

    /// The big-endian reading of the first 4 byte(s), missing bytes counting as 0
    fn from_random_bytes(bytes: &'a [u8]) -> (r: Result<u32, TryFromSliceError>)
        ensures
            r matches Ok(v) && v == be_prefix(bytes@, 4),
    {
        proof {
            lemma_pow256_values();
        }
        Ok(unsigned_prefix(bytes, 4) as u32)
    }
}

impl<'a> FromRandomBytes<'a> for u64 {
    type Output = u64;
    type Error = TryFromSliceError;

    /// The big-endian reading of the first 8 byte(s), missing bytes counting as 0
    fn from_random_bytes(bytes: &'a [u8]) -> (r: Result<u64, TryFromSliceError>)
        ensures
            r matches Ok(v) && v == be_prefix(bytes@, 8),
    {
        proof {
            lemma_pow256_values();
        }
        Ok(unsigned_prefix(bytes, 8) as u64)
    }
}

impl<'a> FromRandomBytes<'a> for u128 {
    type Output = u128;
    type Error = TryFromSliceError;

    /// The big-endian reading of the first 16 byte(s), missing bytes counting as 0
    fn from_random_bytes(bytes: &'a [u8]) -> (r: Result<u128, TryFromSliceError>)
        ensures
            r matches Ok(v) && v == be_prefix(bytes@, 16),
    {
        proof {
            lemma_pow256_values();
        }
        Ok(unsigned_prefix(bytes, 16) as u128)
    }
}

impl<'a> FromRandomBytes<'a> for i8 {
    type Output = i8;
    type Error = TryFromSliceError;

    /// The big-endian two's complement reading of the first 1 byte(s), missing bytes
    /// counting as 0
    fn from_random_bytes(bytes: &'a [u8]) -> (r: Result<i8, TryFromSliceError>)
        ensures
            r matches Ok(v) && v == twos_complement(be_prefix(bytes@, 1), 1),
    {
        proof {
            lemma_pow256_values();
            lemma_be_prefix_bound(bytes@, 1);
        }
        Ok(signed_prefix(bytes, 1) as i8)
    }
}

impl<'a> FromRandomBytes<'a> for i16 {
    type Output = i16;
    type Error = TryFromSliceError;

    /// The big-endian two's complement reading of the first 2 byte(s), missing bytes
    /// counting as 0
    fn from_random_bytes(bytes: &'a [u8]) -> (r: Result<i16, TryFromSliceError>)
        ensures
            r matches Ok(v) && v == twos_complement(be_prefix(bytes@, 2), 2),
    {
        proof {
            lemma_pow256_values();
            lemma_be_prefix_bound(bytes@, 2);
        }
        Ok(signed_prefix(bytes, 2) as i16)
    }
}

impl<'a> FromRandomBytes<'a> for i32 {
    type Output = i32;
    type Error = TryFromSliceError;

    /// The big-endian two's complement reading of the first 4 byte(s), missing bytes
    /// counting as 0
    fn from_random_bytes(bytes: &'a [u8]) -> (r: Result<i32, TryFromSliceError>)
        ensures
            r matches Ok(v) && v == twos_complement(be_prefix(bytes@, 4), 4),
    {
        proof {
            lemma_pow256_values();
            lemma_be_prefix_bound(bytes@, 4);
        }
        Ok(signed_prefix(bytes, 4) as i32)
    }
}

impl<'a> FromRandomBytes<'a> for i64 {
    type Output = i64;
    type Error = TryFromSliceError;

    /// The big-endian two's complement reading of the first 8 byte(s), missing bytes
    /// counting as 0
    fn from_random_bytes(bytes: &'a [u8]) -> (r: Result<i64, TryFromSliceError>)
        ensures
            r matches Ok(v) && v == twos_complement(be_prefix(bytes@, 8), 8),
    {
        proof {
            lemma_pow256_values();
            lemma_be_prefix_bound(bytes@, 8);
        }
        Ok(signed_prefix(bytes, 8) as i64)
    }
}

impl<'a> FromRandomBytes<'a> for i128 {
    type Output = i128;
    type Error = TryFromSliceError;

    /// The big-endian two's complement reading of the first 16 byte(s), missing bytes
    /// counting as 0
    fn from_random_bytes(bytes: &'a [u8]) -> (r: Result<i128, TryFromSliceError>)
        ensures
            r matches Ok(v) && v == twos_complement(be_prefix(bytes@, 16), 16),
    {
        proof {
            lemma_pow256_values();
            lemma_be_prefix_bound(bytes@, 16);
        }
        Ok(signed_prefix(bytes, 16) as i128)
    }
}

/// Number of bytes of a `usize`.
fn usize_bytes() -> (n: usize)
    ensures
        n == 4 || n == 8,
        n as nat == usize_width(),
        pow256(n as nat) == usize::MAX as nat + 1,
{
    proof {
        lemma_pow256_values();
    }
    if usize::BITS == 64 { 8 } else { 4 }
}

/// Number of bytes of a `usize`: 4 or 8, depending on the machine.
pub open spec fn usize_width() -> nat {
    if usize::BITS == 64 { 8 } else { 4 }
}

impl<'a> FromRandomBytes<'a> for usize {
    type Output = usize;
    type Error = TryFromSliceError;

    /// The big-endian reading of the first bytes, as many as a `usize` has, missing bytes
    /// counting as 0
    fn from_random_bytes(bytes: &'a [u8]) -> (r: Result<usize, TryFromSliceError>)
        ensures
            r matches Ok(v) && v == be_prefix(bytes@, usize_width()),
    {
        let n: usize = usize_bytes();
        Ok(unsigned_prefix(bytes, n) as usize)
    }
}

impl<'a> FromRandomBytes<'a> for isize {
    type Output = isize;
    type Error = TryFromSliceError;

    /// The big-endian two's complement reading of the first bytes, as many as an `isize` has,
    /// missing bytes counting as 0
    fn from_random_bytes(bytes: &'a [u8]) -> (r: Result<isize, TryFromSliceError>)
        ensures
            r matches Ok(v) && v == twos_complement(be_prefix(bytes@, usize_width()), usize_width()),
    {
        let n: usize = usize_bytes();
        proof {
            lemma_pow256_values();
            lemma_be_prefix_bound(bytes@, n as nat);
        }
        Ok(signed_prefix(bytes, n) as isize)
    }
}

/// The characters of the bytes decoded as UTF-8, each invalid sequence replaced by
/// `U+FFFD` (`String::from_utf8_lossy`).
pub uninterp spec fn utf8_lossy(bytes: Seq<u8>) -> Seq<char>;

/// Decode bytes as UTF-8, replacing each invalid sequence by `U+FFFD`
/// (`String::from_utf8_lossy`). The result is named; on valid UTF-8 it is the decoded text.
#[verifier::external_body]
fn decode_lossy(bytes: &[u8]) -> (s: String)
    ensures
        s@ == utf8_lossy(bytes@),
        valid_utf8(bytes@) ==> s@ == decode_utf8(bytes@),
{
    String::from_utf8_lossy(bytes).into_owned()
}

/// Decode bytes as UTF-8 (`std::str::from_utf8`): the text when the bytes are valid UTF-8,
/// an error otherwise.
#[verifier::external_body]
fn decode_strict<'a>(bytes: &'a [u8]) -> (r: Result<&'a str, std::str::Utf8Error>)
    ensures
        r is Ok <==> valid_utf8(bytes@),
        r matches Ok(s) ==> s@ == decode_utf8(bytes@),
{
    std::str::from_utf8(bytes)
}

impl<'a> FromRandomBytes<'a> for String {
    type Output = String;
    type Error = std::string::FromUtf8Error;

    /// Random data often produce invalid UTF-8 characters; not to invalidate too many inputs,
    /// the conversion is lossy: each invalid sequence becomes `U+FFFD`
    fn from_random_bytes(bytes: &'a [u8]) -> (r: Result<String, std::string::FromUtf8Error>)
        ensures
            r matches Ok(s) && s@ == utf8_lossy(bytes@),
            valid_utf8(bytes@) ==> (r matches Ok(s) && s@ == decode_utf8(bytes@)),
    {
        Ok(decode_lossy(bytes))
    }
}

impl<'a> FromRandomBytes<'a> for &'a str {
    type Output = &'a str;
    type Error = std::str::Utf8Error;

    /// The bytes as text when they are valid UTF-8, an error otherwise
    fn from_random_bytes(bytes: &'a [u8]) -> (r: Result<&'a str, std::str::Utf8Error>)
        ensures
            r is Ok <==> valid_utf8(bytes@),
            r matches Ok(s) ==> s@ == decode_utf8(bytes@),
    {
        decode_strict(bytes)
    }
}

} // verus!
