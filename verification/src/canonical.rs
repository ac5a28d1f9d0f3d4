//! What is read was written: the bytes that a value is read from are the
//! canonical binary form of that value, and no others.

use crate::decode::{parsed, parsed_elements, parsed_fields};
use crate::encode::{encodable, encoding, encoding_from};
use crate::endian::{le_bytes, le_value, pow256};
use crate::errors::DecodeError;
use crate::round_trip::{conforms, lemma_parsed_encoding};
use crate::uleb128::{lemma_read_digits_bounds, parsed_length, read_digits, uleb128};
use crate::value::{MoveTypeLayoutView, MoveValueView};
use vstd::prelude::*;

verus! {

/// Bytes are the low bytes of the number that they denote, which is below
/// 256 to their number.
pub proof fn lemma_le_bytes_of_value(s: Seq<u8>)
    ensures
        le_value(s) < pow256(s.len()),
        le_bytes(le_value(s), s.len()) == s,
    decreases s.len(),
{
    if s.len() > 0 {
        let tail = s.drop_first();
        lemma_le_bytes_of_value(tail);
    }
}

/// The digits that are read as a number are the bytes that stand for it.
pub proof fn lemma_read_digits_canonical(bytes: Seq<u8>, k: nat)
    ensures
        read_digits(bytes, k) matches Ok((n, end)) ==> {
            &&& k < end <= bytes.len()
            &&& bytes.subrange(k as int, end as int) == uleb128(n)
            &&& (k > 0 ==> n > 0)
        },
    decreases 5 - k,
{
    if let Ok((n, end)) = read_digits(bytes, k) {
        lemma_read_digits_bounds(bytes, k);
        let b = bytes[k as int];
        if b < 128 {
        } else {
            lemma_read_digits_canonical(bytes, k + 1);
        }
    }
}

/// The values after the first are written after the first.
pub proof fn lemma_encoding_from_shift(v: MoveValueView, vs: Seq<MoveValueView>, i: nat)
    ensures
        encoding_from(seq![v] + vs, i + 1) == encoding_from(vs, i),
    decreases vs.len() - i,
{
    if i < vs.len() {
        lemma_encoding_from_shift(v, vs, i + 1);
    }
}

/// A value and those after it are written one after the other.
pub proof fn lemma_encoding_from_first(v: MoveValueView, vs: Seq<MoveValueView>)
    ensures
        encoding_from(seq![v] + vs, 0) == encoding(v) + encoding_from(vs, 0),
{
    lemma_encoding_from_shift(v, vs, 0);
}

/// A value that is read has the shape of the layout, has a canonical binary
/// form, and that form is the bytes that the reading took.
pub proof fn lemma_parsed_is_encoding(bytes: Seq<u8>, l: MoveTypeLayoutView)
    ensures
        parsed(bytes, l) matches Ok((v, used)) ==> {
            &&& used <= bytes.len()
            &&& conforms(v, l)
            &&& encodable(v)
            &&& encoding(v) == bytes.take(used as int)
        },
    decreases l, 0nat, 0nat,
{
    if let Ok((v, used)) = parsed(bytes, l) {
        match l {
            MoveTypeLayoutView::Bool => {
            },
            MoveTypeLayoutView::U8 => {
            },
            MoveTypeLayoutView::U64 => {
                reveal_with_fuel(pow256, 9);
                lemma_le_bytes_of_value(bytes.take(8));
            },
            MoveTypeLayoutView::U128 => {
                reveal_with_fuel(pow256, 17);
                lemma_le_bytes_of_value(bytes.take(16));
            },
            MoveTypeLayoutView::Address => {},
            MoveTypeLayoutView::Signer => {},
            MoveTypeLayoutView::Vector(t) => {
                lemma_read_digits_canonical(bytes, 0);
                let (n, k) = parsed_length(bytes)->Ok_0;
                let body = bytes.skip(k as int);
                lemma_parsed_elements_is_encoding(body, *t, n);
            },
            MoveTypeLayoutView::Struct(s) => {
                lemma_parsed_fields_is_encoding(bytes, s.layouts, 0);
            },
        }
    }
}

/// The elements of a vector that are read are those whose canonical binary
/// forms, one after the other, are the bytes that the reading took.
pub proof fn lemma_parsed_elements_is_encoding(bytes: Seq<u8>, t: MoveTypeLayoutView, n: nat)
    ensures
        parsed_elements(bytes, t, n) matches Ok((vs, used)) ==> {
            &&& used <= bytes.len()
            &&& vs.len() == n
            &&& forall|j: int| 0 <= j < vs.len() ==> conforms(#[trigger] vs[j], t)
            &&& forall|j: int| 0 <= j < vs.len() ==> encodable(#[trigger] vs[j])
            &&& encoding_from(vs, 0) == bytes.take(used as int)
        },
    decreases t, 1nat, n,
{
    if let Ok((vs, used)) = parsed_elements(bytes, t, n) {
        if n > 0 {
            lemma_parsed_is_encoding(bytes, t);
            let (v, k) = parsed(bytes, t)->Ok_0;
            let next = bytes.skip(k as int);
            lemma_parsed_elements_is_encoding(next, t, (n - 1) as nat);
            let (more, m) = parsed_elements(next, t, (n - 1) as nat)->Ok_0;
            lemma_encoding_from_first(v, more);
        }
    }
}

/// The fields of a struct that are read, from position `i` on, are those
/// whose canonical binary forms, one after the other, are the bytes that the
/// reading took.
pub proof fn lemma_parsed_fields_is_encoding(
    bytes: Seq<u8>,
    layouts: Seq<MoveTypeLayoutView>,
    i: nat,
)
    requires
        i <= layouts.len(),
    ensures
        parsed_fields(bytes, layouts, i) matches Ok((vs, used)) ==> {
            &&& used <= bytes.len()
            &&& vs.len() == layouts.len() - i
            &&& forall|j: int| 0 <= j < vs.len() ==> conforms(#[trigger] vs[j], layouts[i + j])
            &&& forall|j: int| 0 <= j < vs.len() ==> encodable(#[trigger] vs[j])
            &&& encoding_from(vs, 0) == bytes.take(used as int)
        },
    decreases layouts, 1nat, layouts.len() - i,
{
    if let Ok((vs, used)) = parsed_fields(bytes, layouts, i) {
        if i < layouts.len() {
            lemma_parsed_is_encoding(bytes, layouts[i as int]);
            let (v, k) = parsed(bytes, layouts[i as int])->Ok_0;
            let next = bytes.skip(k as int);
            lemma_parsed_fields_is_encoding(next, layouts, i + 1);
            let (more, m) = parsed_fields(next, layouts, i + 1)->Ok_0;
            lemma_encoding_from_first(v, more);
            assert forall|j: int| 0 <= j < vs.len() implies conforms(
                #[trigger] vs[j],
                layouts[i + j],
            ) by {
                if j > 0 {
                }
            }
            assert forall|j: int| 0 <= j < vs.len() implies encodable(#[trigger] vs[j]) by {
                if j > 0 {
                }
            }
        }
    }
}

/// Reading is writing turned round: a layout reads a value from the start of
/// some bytes exactly where the value has the shape of the layout and its
/// canonical binary form is the start of the bytes.
pub proof fn lemma_parsed_exactly(
    bytes: Seq<u8>,
    l: MoveTypeLayoutView,
    v: MoveValueView,
    used: nat,
)
    ensures
        parsed(bytes, l) == Ok::<(MoveValueView, nat), DecodeError>((v, used)) <==> {
            &&& conforms(v, l)
            &&& encodable(v)
            &&& used == encoding(v).len()
            &&& used <= bytes.len()
            &&& bytes.take(used as int) == encoding(v)
        },
{
    lemma_parsed_is_encoding(bytes, l);
    if conforms(v, l) && encodable(v) && used == encoding(v).len() && used <= bytes.len()
        && bytes.take(used as int) == encoding(v) {
        lemma_parsed_encoding(v, l, bytes.skip(used as int));
        assert(encoding(v) + bytes.skip(used as int) =~= bytes);
    }
}

} // verus!
