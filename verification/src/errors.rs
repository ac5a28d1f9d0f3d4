//! What can go wrong.

use crate::text::{decimal, push_decimal, push_str};
use vstd::prelude::*;

verus! {

/// Why bytes could not be read as a value of a given layout.
#[derive(Debug, Clone, Copy, PartialEq, Eq)]
pub enum DecodeError {
    /// The input ended inside a value.
    UnexpectedEof,
    /// No input was left for the field at this position of a struct.
    InvalidLength(usize),
    /// A byte other than zero and one stood for a boolean.
    ExpectedBoolean,
    /// The length of a vector was not written in the fewest bytes.
    NonCanonicalUleb128,
    /// The length of a vector does not fit in 32 bits.
    Uleb128Overflow,
    /// The length of a vector is above the greatest that is accepted.
    ExceededMaxLen(usize),
    /// Bytes were left after the value.
    RemainingInput,
}

/// A type tag was asked of a layout that does not carry one.
#[derive(Debug, Clone, Copy, PartialEq, Eq)]
pub enum TagError {
    /// Only a fully typed struct layout names its type.
    MissingType,
}

/// What `DecodeError::message` says.
pub open spec fn decode_error_text(e: DecodeError) -> Seq<char> {
    match e {
        DecodeError::UnexpectedEof => "unexpected end of input"@,
        DecodeError::InvalidLength(i) => "invalid length "@ + decimal(i as nat)
            + ", expected Struct"@,
        DecodeError::ExpectedBoolean => "expected boolean"@,
        DecodeError::NonCanonicalUleb128 => "ULEB128 encoding was not minimal in size"@,
        DecodeError::Uleb128Overflow => "ULEB128-encoded integer did not fit in the target size"@,
        DecodeError::ExceededMaxLen(n) => "exceeded max sequence length: "@ + decimal(n as nat),
        DecodeError::RemainingInput => "remaining input"@,
    }
}

/// What `TagError::message` says.
pub open spec fn tag_error_text(e: TagError) -> Seq<char> {
    "Invalid MoveTypeLayout -> StructTag conversion--needed MoveLayoutType::WithTypes"@
}

impl DecodeError {
    /// This error in words.
    pub fn message(&self) -> (r: String)
        ensures
            r@ == decode_error_text(*self),
    {
        let mut out = String::new();
        match self {
            DecodeError::UnexpectedEof => push_str(&mut out, "unexpected end of input"),
            DecodeError::InvalidLength(i) => {
                push_str(&mut out, "invalid length ");
                push_decimal(&mut out, *i);
                push_str(&mut out, ", expected Struct");
            },
            DecodeError::ExpectedBoolean => push_str(&mut out, "expected boolean"),
            DecodeError::NonCanonicalUleb128 => push_str(
                &mut out,
                "ULEB128 encoding was not minimal in size",
            ),
            DecodeError::Uleb128Overflow => push_str(
                &mut out,
                "ULEB128-encoded integer did not fit in the target size",
            ),
            DecodeError::ExceededMaxLen(n) => {
                push_str(&mut out, "exceeded max sequence length: ");
                push_decimal(&mut out, *n);
            },
            DecodeError::RemainingInput => push_str(&mut out, "remaining input"),
        }
        out
    }
}

impl TagError {
    /// This error in words.
    pub fn message(&self) -> (r: String)
        ensures
            r@ == tag_error_text(*self),
    {
        let mut out = String::new();
        push_str(
            &mut out,
            "Invalid MoveTypeLayout -> StructTag conversion--needed MoveLayoutType::WithTypes",
        );
        out
    }
}

} // verus!
