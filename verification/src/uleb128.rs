//! The length of a vector on the wire: a number in base 128, the least
//! significant digit first, each byte but the last with its high bit set.

use crate::errors::DecodeError;
use vstd::prelude::*;

verus! {

/// The greatest length of a vector that is written or accepted.
pub const MAX_SEQUENCE_LENGTH: usize = 2147483647;

/// 128 to the power `n`.
pub open spec fn pow128(n: nat) -> nat
    decreases n,
{
    if n == 0 {
        1
    } else {
        128 * pow128((n - 1) as nat)
    }
}

/// The bytes that stand for `n`.
pub open spec fn uleb128(n: nat) -> Seq<u8>
    decreases n,
{
    if n < 128 {
        seq![n as u8]
    } else {
        seq![(n % 128 + 128) as u8] + uleb128(n / 128)
    }
}

/// Reading digits from the byte at `k` on, where `k` digits came before.
///
/// The result is the number that the digits from `k` on denote, and the
/// position after the last of them. At most five digits make a number; the
/// last digit of several is not zero.
pub open spec fn read_digits(bytes: Seq<u8>, k: nat) -> Result<(nat, nat), DecodeError>
    decreases 5 - k,
{
    if k >= 5 {
        Err(DecodeError::Uleb128Overflow)
    } else if bytes.len() <= k {
        Err(DecodeError::UnexpectedEof)
    } else {
        let b = bytes[k as int];
        if b < 128 {
            if k > 0 && b == 0 {
                Err(DecodeError::NonCanonicalUleb128)
            } else {
                Ok((b as nat, k + 1))
            }
        } else {
            match read_digits(bytes, k + 1) {
                Ok((rest, end)) => Ok(((b - 128) as nat + 128 * rest, end)),
                Err(e) => Err(e),
            }
        }
    }
}

/// Reading a length at the start of `bytes`: the length and the number of
/// bytes that it took, or why there is none.
pub open spec fn parsed_length(bytes: Seq<u8>) -> Result<(nat, nat), DecodeError> {
    match read_digits(bytes, 0) {
        Err(e) => Err(e),
        Ok((n, end)) => if n > u32::MAX {
            Err(DecodeError::Uleb128Overflow)
        } else if n > MAX_SEQUENCE_LENGTH {
            Err(DecodeError::ExceededMaxLen(n as usize))
        } else {
            Ok((n, end))
        },
    }
}

/// What `read_digits` accepts is short and small.
pub proof fn lemma_read_digits_bounds(bytes: Seq<u8>, k: nat)
    ensures
        read_digits(bytes, k) matches Ok((n, end)) ==> k < end <= 5 && end <= bytes.len() && n
            < pow128((5 - k) as nat),
    decreases 5 - k,
{
    if k < 5 && bytes.len() > k && bytes[k as int] >= 128 {
        lemma_read_digits_bounds(bytes, k + 1);
    }
    reveal_with_fuel(pow128, 6);
}

/// The bytes that stand for a number are read back as that number.
pub proof fn lemma_read_digits_of_uleb128(bytes: Seq<u8>, k: nat, n: nat)
    requires
        k < 5,
        n < pow128((5 - k) as nat),
        k > 0 ==> n > 0,
        k + uleb128(n).len() <= bytes.len(),
        bytes.subrange(k as int, (k + uleb128(n).len()) as int) == uleb128(n),
    ensures
        read_digits(bytes, k) == Ok::<(nat, nat), DecodeError>((n, k + uleb128(n).len())),
    decreases n,
{
    let code = uleb128(n);
    assert(bytes[k as int] == bytes.subrange(k as int, (k + code.len()) as int)[0]);
    if n >= 128 {
        let tail = uleb128(n / 128);
        assert(bytes.subrange((k + 1) as int, (k + 1 + tail.len()) as int) =~= tail) by {
            assert forall|i: int| 0 <= i < tail.len() implies bytes[k + 1 + i] == tail[i] by {
                assert(bytes[k + 1 + i] == bytes.subrange(k as int, (k + code.len()) as int)[1 + i]);
            }
        }
        reveal_with_fuel(pow128, 6);
        lemma_read_digits_of_uleb128(bytes, k + 1, n / 128);
    }
}

/// A length that is accepted, written and followed by anything, is read back
/// as itself.
pub proof fn lemma_parsed_length_of_uleb128(n: nat, rest: Seq<u8>)
    requires
        n <= MAX_SEQUENCE_LENGTH,
    ensures
        parsed_length(uleb128(n) + rest) == Ok::<(nat, nat), DecodeError>(
            (n, uleb128(n).len()),
        ),
{
    reveal_with_fuel(pow128, 6);
    let bytes = uleb128(n) + rest;
    assert(bytes.subrange(0, uleb128(n).len() as int) =~= uleb128(n));
    lemma_read_digits_of_uleb128(bytes, 0, n);
}

/// Reads digits as `read_digits` does, from `pos + k` on.
fn read_digits_at(bytes: &[u8], pos: usize, k: usize) -> (r: Result<(u64, usize), DecodeError>)
    requires
        pos <= bytes@.len(),
        k <= 5,
    ensures
        match read_digits(bytes@.skip(pos as int), k as nat) {
            Ok((n, end)) => r == Ok::<(u64, usize), DecodeError>((n as u64, end as usize)) && n
                < pow128((5 - k) as nat) && end <= 5 && pos + end <= bytes@.len(),
            Err(e) => r == Err::<(u64, usize), DecodeError>(e),
        },
    decreases 5 - k,
{
    proof {
        reveal_with_fuel(pow128, 6);
    }
    if k >= 5 {
        return Err(DecodeError::Uleb128Overflow);
    }
    if bytes.len() - pos <= k {
        return Err(DecodeError::UnexpectedEof);
    }
    let b = bytes[pos + k];
    if b < 128 {
        if k > 0 && b == 0 {
            Err(DecodeError::NonCanonicalUleb128)
        } else {
            Ok((b as u64, k + 1))
        }
    } else {
        match read_digits_at(bytes, pos, k + 1) {
            Ok((rest, end)) => Ok(((b - 128) as u64 + 128 * rest, end)),
            Err(e) => Err(e),
        }
    }
}

/// Reads the length of a vector at `pos`: the length and the position after
/// it.
pub(crate) fn parse_length(bytes: &[u8], pos: usize) -> (r: Result<(usize, usize), DecodeError>)
    requires
        pos <= bytes@.len(),
    ensures
        match parsed_length(bytes@.skip(pos as int)) {
            Ok((n, used)) => r == Ok::<(usize, usize), DecodeError>(
                (n as usize, (pos + used) as usize),
            ) && pos + used <= bytes@.len() && n <= MAX_SEQUENCE_LENGTH,
            Err(e) => r == Err::<(usize, usize), DecodeError>(e),
        },
{
    proof {
        reveal_with_fuel(pow128, 6);
        lemma_read_digits_bounds(bytes@.skip(pos as int), 0);
    }
    let total = bytes.len();
    match read_digits_at(bytes, pos, 0) {
        Err(e) => Err(e),
        Ok((n, end)) => {
            if n > 0xffff_ffff {
                Err(DecodeError::Uleb128Overflow)
            } else if n > MAX_SEQUENCE_LENGTH as u64 {
                Err(DecodeError::ExceededMaxLen(n as usize))
            } else {
                assert(pos + end <= total);
                Ok((n as usize, pos + end))
            }
        },
    }
}

/// Appends the bytes that stand for `n`.
pub fn push_uleb128(out: &mut Vec<u8>, n: usize)
    ensures
        final(out)@ == old(out)@ + uleb128(n as nat),
{
    let mut value: usize = n;
    while value >= 128
        invariant
            old(out)@ + uleb128(n as nat) == out@ + uleb128(value as nat),
        decreases value,
    {
        let low: usize = value % 128 + 128;
        out.push(low as u8);
        value = value / 128;
    }
    out.push(value as u8);
}

} // verus!
