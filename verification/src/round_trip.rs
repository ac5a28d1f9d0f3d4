//! What is written is read back: the laws that tie the two directions of the
//! canonical binary form together.

use crate::account_address::ADDRESS_LENGTH;
use crate::decode::{parsed, parsed_elements, parsed_fields, parsed_whole};
use crate::encode::{encodable, encoding, encoding_from};
use crate::endian::{lemma_le_bytes_len, lemma_le_round_trip, le_bytes, pow256};
use crate::errors::DecodeError;
use crate::uleb128::{lemma_parsed_length_of_uleb128, uleb128};
use crate::value::{MoveTypeLayoutView, MoveValueView};
use vstd::prelude::*;

verus! {

/// Whether a value has the shape that a layout describes.
///
/// A primitive value has the shape of the layout of its kind; an address and
/// a signer have `ADDRESS_LENGTH` bytes. Every element of a vector has the shape of
/// the element layout. A struct has the decoration and the names of its
/// layout, and one value for each field, of the shape of that field.
pub open spec fn conforms(v: MoveValueView, l: MoveTypeLayoutView) -> bool
    decreases v,
{
    match (v, l) {
        (MoveValueView::U8(_), MoveTypeLayoutView::U8) => true,
        (MoveValueView::U64(_), MoveTypeLayoutView::U64) => true,
        (MoveValueView::U128(_), MoveTypeLayoutView::U128) => true,
        (MoveValueView::Bool(_), MoveTypeLayoutView::Bool) => true,
        (MoveValueView::Address(a), MoveTypeLayoutView::Address) => a.len() == ADDRESS_LENGTH,
        (MoveValueView::Signer(a), MoveTypeLayoutView::Signer) => a.len() == ADDRESS_LENGTH,
        (MoveValueView::Vector(vs), MoveTypeLayoutView::Vector(t)) => forall|i: int|
            0 <= i < vs.len() ==> conforms(#[trigger] vs[i], *t),
        (MoveValueView::Struct(s), MoveTypeLayoutView::Struct(sl)) => {
            &&& s.decoration == sl.decoration
            &&& s.names == sl.names
            &&& s.values.len() == sl.layouts.len()
            &&& forall|i: int|
                0 <= i < s.values.len() ==> conforms(#[trigger] s.values[i], sl.layouts[i])
        },
        _ => false,
    }
}

/// A value of the shape of a layout, written and followed by anything, is
/// read back by that layout as itself, and the reading takes exactly the
/// bytes that were written.
pub proof fn lemma_parsed_encoding(v: MoveValueView, l: MoveTypeLayoutView, rest: Seq<u8>)
    requires
        conforms(v, l),
        encodable(v),
    ensures
        parsed(encoding(v) + rest, l) == Ok::<(MoveValueView, nat), DecodeError>(
            (v, encoding(v).len()),
        ),
    decreases v, 0nat,
{
    let bytes = encoding(v) + rest;
    match (v, l) {
        (MoveValueView::U64(x), MoveTypeLayoutView::U64) => {
            reveal_with_fuel(pow256, 9);
            lemma_le_bytes_len(x as nat, 8);
            lemma_le_round_trip(x as nat, 8);
            assert(bytes.take(8) =~= le_bytes(x as nat, 8));
        },
        (MoveValueView::U128(x), MoveTypeLayoutView::U128) => {
            reveal_with_fuel(pow256, 17);
            lemma_le_bytes_len(x as nat, 16);
            lemma_le_round_trip(x as nat, 16);
            assert(bytes.take(16) =~= le_bytes(x as nat, 16));
        },
        (MoveValueView::Address(a), MoveTypeLayoutView::Address) => {
            assert(bytes.take(16) =~= a);
        },
        (MoveValueView::Signer(a), MoveTypeLayoutView::Signer) => {
            assert(bytes.take(16) =~= a);
        },
        (MoveValueView::Vector(vs), MoveTypeLayoutView::Vector(t)) => {
            let prefix = uleb128(vs.len());
            let body = encoding_from(vs, 0);
            assert(bytes =~= prefix + (body + rest));
            lemma_parsed_length_of_uleb128(vs.len(), body + rest);
            assert(bytes.skip(prefix.len() as int) =~= body + rest);
            lemma_parsed_elements_encoding(vs, *t, 0, rest);
            assert(vs.skip(0) =~= vs);
        },
        (MoveValueView::Struct(s), MoveTypeLayoutView::Struct(sl)) => {
            lemma_parsed_fields_encoding(s.values, sl.layouts, 0, rest);
            assert(s.values.skip(0) =~= s.values);
        },
        _ => {},
    }
}

/// The elements of a vector from position `i` on, written and followed by
/// anything, are read back as themselves.
pub proof fn lemma_parsed_elements_encoding(
    vs: Seq<MoveValueView>,
    t: MoveTypeLayoutView,
    i: nat,
    rest: Seq<u8>,
)
    requires
        i <= vs.len(),
        forall|j: int| 0 <= j < vs.len() ==> conforms(#[trigger] vs[j], t),
        forall|j: int| 0 <= j < vs.len() ==> encodable(#[trigger] vs[j]),
    ensures
        parsed_elements(encoding_from(vs, i) + rest, t, (vs.len() - i) as nat) == Ok::<
            (Seq<MoveValueView>, nat),
            DecodeError,
        >((vs.skip(i as int), encoding_from(vs, i).len())),
    decreases vs, vs.len() - i,
{
    if i < vs.len() {
        let head = encoding(vs[i as int]);
        let tail = encoding_from(vs, i + 1);
        let bytes = encoding_from(vs, i) + rest;
        assert(bytes =~= head + (tail + rest));
        lemma_parsed_encoding(vs[i as int], t, tail + rest);
        assert(bytes.skip(head.len() as int) =~= tail + rest);
        lemma_parsed_elements_encoding(vs, t, i + 1, rest);
        assert(seq![vs[i as int]] + vs.skip((i + 1) as int) =~= vs.skip(i as int));
    } else {
        assert(vs.skip(i as int) =~= Seq::<MoveValueView>::empty());
    }
}

/// The fields of a struct from position `i` on, written and followed by
/// anything, are read back as themselves.
pub proof fn lemma_parsed_fields_encoding(
    vs: Seq<MoveValueView>,
    layouts: Seq<MoveTypeLayoutView>,
    i: nat,
    rest: Seq<u8>,
)
    requires
        i <= vs.len(),
        vs.len() == layouts.len(),
        forall|j: int| 0 <= j < vs.len() ==> conforms(#[trigger] vs[j], layouts[j]),
        forall|j: int| 0 <= j < vs.len() ==> encodable(#[trigger] vs[j]),
    ensures
        parsed_fields(encoding_from(vs, i) + rest, layouts, i) == Ok::<
            (Seq<MoveValueView>, nat),
            DecodeError,
        >((vs.skip(i as int), encoding_from(vs, i).len())),
    decreases vs, vs.len() - i,
{
    if i < vs.len() {
        let head = encoding(vs[i as int]);
        let tail = encoding_from(vs, i + 1);
        let bytes = encoding_from(vs, i) + rest;
        assert(bytes =~= head + (tail + rest));
        lemma_parsed_encoding(vs[i as int], layouts[i as int], tail + rest);
        assert(bytes.skip(head.len() as int) =~= tail + rest);
        lemma_parsed_fields_encoding(vs, layouts, i + 1, rest);
        assert(seq![vs[i as int]] + vs.skip((i + 1) as int) =~= vs.skip(i as int));
    } else {
        assert(vs.skip(i as int) =~= Seq::<MoveValueView>::empty());
    }
}

/// Round trip: a value of the shape of a layout, written and then read by
/// that layout, is the value.
pub proof fn lemma_round_trip(v: MoveValueView, l: MoveTypeLayoutView)
    requires
        conforms(v, l),
        encodable(v),
    ensures
        parsed_whole(encoding(v), l) == Ok::<MoveValueView, DecodeError>(v),
{
    lemma_parsed_encoding(v, l, Seq::empty());
}

} // verus!
