//! Numbers as bytes, in both byte orders, and the fixed-width integers of the
//! canonical binary form.

use crate::errors::DecodeError;
use vstd::pervasive::unreached;
use vstd::prelude::*;
use vstd::slice::slice_subrange;

verus! {

/// 256 to the power `n`.
pub open spec fn pow256(n: nat) -> nat
    decreases n,
{
    if n == 0 {
        1
    } else {
        256 * pow256((n - 1) as nat)
    }
}

/// A greater power of 256 is no smaller.
pub proof fn lemma_pow256_monotonic(a: nat, b: nat)
    requires
        a <= b,
    ensures
        pow256(a) <= pow256(b),
    decreases b,
{
    if a < b {
        lemma_pow256_monotonic(a, (b - 1) as nat);
    }
}

/// The number that a sequence of bytes denotes when the first byte is the
/// most significant.
pub open spec fn big_endian(bytes: Seq<u8>) -> nat
    decreases bytes.len(),
{
    if bytes.len() == 0 {
        0
    } else {
        256 * big_endian(bytes.drop_last()) + bytes.last() as nat
    }
}

/// A sequence of `n` bytes denotes a number below 256 to the `n`.
pub proof fn lemma_big_endian_bound(bytes: Seq<u8>)
    ensures
        big_endian(bytes) < pow256(bytes.len()),
    decreases bytes.len(),
{
    if bytes.len() > 0 {
        lemma_big_endian_bound(bytes.drop_last());
    }
}

/// The `n` low bytes of `x`, the least significant first.
pub open spec fn le_bytes(x: nat, n: nat) -> Seq<u8>
    decreases n,
{
    if n == 0 {
        Seq::empty()
    } else {
        seq![(x % 256) as u8] + le_bytes(x / 256, (n - 1) as nat)
    }
}

/// The number that a sequence of bytes denotes when the first byte is the
/// least significant.
pub open spec fn le_value(bytes: Seq<u8>) -> nat
    decreases bytes.len(),
{
    if bytes.len() == 0 {
        0
    } else {
        bytes[0] as nat + 256 * le_value(bytes.drop_first())
    }
}

/// The `n` low bytes of a number are `n` bytes.
pub proof fn lemma_le_bytes_len(x: nat, n: nat)
    ensures
        le_bytes(x, n).len() == n,
    decreases n,
{
    if n > 0 {
        lemma_le_bytes_len(x / 256, (n - 1) as nat);
    }
}

/// Reading back the `n` low bytes of a number below 256 to the `n` gives the
/// number.
pub proof fn lemma_le_round_trip(x: nat, n: nat)
    requires
        x < pow256(n),
    ensures
        le_value(le_bytes(x, n)) == x,
    decreases n,
{
    if n > 0 {
        let rest = le_bytes(x / 256, (n - 1) as nat);
        lemma_le_round_trip(x / 256, (n - 1) as nat);
        assert(le_bytes(x, n).drop_first() =~= rest);
    }
}

/// The result of `bcs::from_bytes` and `bcs::to_bytes` when they fail.
#[verifier::external_type_specification]
#[verifier::external_body]
pub struct ExBcsError(bcs::Error);

/// `bcs::to_bytes` on a `u64`: it cannot fail, and gives the eight bytes of
/// the number, the least significant first.
#[verifier::external_body]
fn u64_to_bytes(x: u64) -> (r: Result<Vec<u8>, bcs::Error>)
    ensures
        r is Ok,
        r->Ok_0@ == le_bytes(x as nat, 8),
{
    bcs::to_bytes(&x)
}

/// `bcs::to_bytes` on a `u128`: it cannot fail, and gives the sixteen bytes
/// of the number, the least significant first.
#[verifier::external_body]
fn u128_to_bytes(x: u128) -> (r: Result<Vec<u8>, bcs::Error>)
    ensures
        r is Ok,
        r->Ok_0@ == le_bytes(x as nat, 16),
{
    bcs::to_bytes(&x)
}

/// `bcs::from_bytes` for a `u64`: it succeeds on exactly eight bytes, and
/// gives the number that they denote, the least significant first.
#[verifier::external_body]
fn u64_from_bytes(bytes: &[u8]) -> (r: Result<u64, bcs::Error>)
    ensures
        r is Ok <==> bytes@.len() == 8,
        r is Ok ==> r->Ok_0 as nat == le_value(bytes@),
{
    bcs::from_bytes::<u64>(bytes)
}

/// `bcs::from_bytes` for a `u128`: it succeeds on exactly sixteen bytes, and
/// gives the number that they denote, the least significant first.
#[verifier::external_body]
fn u128_from_bytes(bytes: &[u8]) -> (r: Result<u128, bcs::Error>)
    ensures
        r is Ok <==> bytes@.len() == 16,
        r is Ok ==> r->Ok_0 as nat == le_value(bytes@),
{
    bcs::from_bytes::<u128>(bytes)
}

/// Appends the eight bytes of `x`.
pub fn write_u64(out: &mut Vec<u8>, x: u64)
    ensures
        final(out)@ == old(out)@ + le_bytes(x as nat, 8),
{
    match u64_to_bytes(x) {
        Ok(mut bytes) => out.append(&mut bytes),
        Err(_) => unreached(),
    }
}

/// Appends the sixteen bytes of `x`.
pub fn write_u128(out: &mut Vec<u8>, x: u128)
    ensures
        final(out)@ == old(out)@ + le_bytes(x as nat, 16),
{
    match u128_to_bytes(x) {
        Ok(mut bytes) => out.append(&mut bytes),
        Err(_) => unreached(),
    }
}

/// Reads a `u64` from the eight bytes at `pos`.
pub(crate) fn read_u64(bytes: &[u8], pos: usize) -> (r: Result<u64, DecodeError>)
    requires
        pos <= bytes@.len(),
    ensures
        bytes@.len() - pos < 8 ==> r == Err::<u64, DecodeError>(DecodeError::UnexpectedEof),
        bytes@.len() - pos >= 8 ==> r is Ok && r->Ok_0 as nat == le_value(
            bytes@.subrange(pos as int, pos + 8),
        ),
{
    if bytes.len() - pos < 8 {
        return Err(DecodeError::UnexpectedEof);
    }
    match u64_from_bytes(slice_subrange(bytes, pos, pos + 8)) {
        Ok(x) => Ok(x),
        Err(_) => unreached(),
    }
}

/// Reads a `u128` from the sixteen bytes at `pos`.
pub(crate) fn read_u128(bytes: &[u8], pos: usize) -> (r: Result<u128, DecodeError>)
    requires
        pos <= bytes@.len(),
    ensures
        bytes@.len() - pos < 16 ==> r == Err::<u128, DecodeError>(DecodeError::UnexpectedEof),
        bytes@.len() - pos >= 16 ==> r is Ok && r->Ok_0 as nat == le_value(
            bytes@.subrange(pos as int, pos + 16),
        ),
{
    if bytes.len() - pos < 16 {
        return Err(DecodeError::UnexpectedEof);
    }
    match u128_from_bytes(slice_subrange(bytes, pos, pos + 16)) {
        Ok(x) => Ok(x),
        Err(_) => unreached(),
    }
}

} // verus!
