//! Account addresses: sixteen opaque bytes.

use crate::endian::{big_endian, lemma_big_endian_bound, lemma_pow256_monotonic, pow256};
use crate::text::{digit, hexadecimal};
use vstd::prelude::*;

verus! {

/// The number of bytes in an address.
pub const ADDRESS_LENGTH: usize = 16;

/// The address of an account. Its view is the sequence of its bytes.
#[derive(Debug, Clone, Copy, PartialEq, Eq, Hash)]
pub struct AccountAddress {
    bytes: [u8; 16],
}

impl View for AccountAddress {
    type V = Seq<u8>;

    closed spec fn view(&self) -> Seq<u8> {
        self.bytes@
    }
}

impl AccountAddress {
    /// Every address has exactly `ADDRESS_LENGTH` bytes.
    pub proof fn lemma_length(&self)
        ensures
            self@.len() == ADDRESS_LENGTH,
    {
    }

    /// The address of the given bytes.
    pub fn new(bytes: [u8; 16]) -> (r: AccountAddress)
        ensures
            r@ == bytes@,
    {
        AccountAddress { bytes }
    }

    /// The address made of the bytes of `bytes`, if there are sixteen of them.
    pub fn from_bytes(bytes: &[u8]) -> (r: Option<AccountAddress>)
        ensures
            r is Some <==> bytes@.len() == ADDRESS_LENGTH,
            r is Some ==> r->Some_0@ == bytes@,
    {
        if bytes.len() != 16 {
            return None;
        }
        let mut out: [u8; 16] = [0u8; 16];
        let mut i: usize = 0;
        while i < 16
            invariant
                i <= 16,
                bytes@.len() == 16,
                forall|j: int| 0 <= j < i ==> out@[j] == bytes@[j],
            decreases 16 - i,
        {
            out[i] = bytes[i];
            i += 1;
        }
        Some(AccountAddress { bytes: out })
    }

    /// The bytes of this address.
    pub fn to_vec(&self) -> (r: Vec<u8>)
        ensures
            r@ == self@,
    {
        let mut out: Vec<u8> = Vec::new();
        let mut i: usize = 0;
        while i < 16
            invariant
                i <= 16,
                out@.len() == i,
                forall|j: int| 0 <= j < i ==> out@[j] == self.bytes@[j],
            decreases 16 - i,
        {
            out.push(self.bytes[i]);
            i += 1;
        }
        out
    }

    /// The bytes of this address.
    pub fn into_bytes(self) -> (r: [u8; 16])
        ensures
            r@ == self@,
    {
        self.bytes
    }

    /// The address as a number, its first byte the most significant.
    pub fn to_u128(&self) -> (r: u128)
        ensures
            r as nat == big_endian(self@),
    {
        let mut acc: u128 = 0;
        let mut i: usize = 0;
        proof {
            reveal_with_fuel(pow256, 17);
        }
        while i < 16
            invariant
                i <= 16,
                self.bytes@.len() == 16,
                acc as nat == big_endian(self.bytes@.take(i as int)),
            decreases 16 - i,
        {
            proof {
                reveal_with_fuel(pow256, 17);
                let next = self.bytes@.take(i + 1);
                assert(next.drop_last() =~= self.bytes@.take(i as int));
                lemma_big_endian_bound(next);
                lemma_pow256_monotonic((i + 1) as nat, 16);
            }
            acc = acc * 256 + self.bytes[i] as u128;
            i += 1;
        }
        assert(self.bytes@.take(16) =~= self.bytes@);
        acc
    }

    /// The address in base sixteen without leading zeros: `1` for the address
    /// whose last byte is one and whose other bytes are zero.
    pub fn short_hex(&self) -> (r: String)
        ensures
            r@ == hexadecimal(big_endian(self@)),
    {
        let mut out = String::new();
        push_hexadecimal(&mut out, self.to_u128());
        out
    }
}

/// Appends `n` in base sixteen.
pub fn push_hexadecimal(out: &mut String, n: u128)
    ensures
        final(out)@ == old(out)@ + hexadecimal(n as nat),
    decreases n,
{
    if n >= 16 {
        push_hexadecimal(out, n / 16);
    }
    let d: u128 = n % 16;
    out.push(digit(d as u8));
}

} // verus!
