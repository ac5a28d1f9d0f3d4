//! A struct is read whole or not at all.

use crate::decode::{after, parsed, parsed_fields, parsed_struct};
use crate::errors::DecodeError;
use crate::value::{MoveStructLayoutView, MoveStructView, MoveTypeLayoutView, MoveValueView};
use vstd::prelude::*;

verus! {

/// A struct that is read has the decoration and the names of its layout, and
/// one value for each field: never fewer.
pub proof fn lemma_struct_read_whole(bytes: Seq<u8>, layout: MoveStructLayoutView)
    ensures
        parsed_struct(bytes, layout) matches Ok((s, used)) ==> {
            &&& s.decoration == layout.decoration
            &&& s.names == layout.names
            &&& s.values.len() == layout.layouts.len()
            &&& used <= bytes.len()
        },
{
    crate::decode::lemma_parsed_fields_within(bytes, layout.layouts, 0);
}

/// Reading nothing as a value that is not a struct fails for want of input.
pub proof fn lemma_nothing_to_read(layout: MoveTypeLayoutView)
    requires
        !(layout is Struct),
    ensures
        parsed(Seq::<u8>::empty(), layout) == Err::<(MoveValueView, nat), DecodeError>(
            DecodeError::UnexpectedEof,
        ),
{
}

/// Reading the first `k` fields and then the others is reading them all.
pub proof fn lemma_parsed_fields_split(
    bytes: Seq<u8>,
    layouts: Seq<MoveTypeLayoutView>,
    k: nat,
    i: nat,
)
    requires
        i <= k <= layouts.len(),
        parsed_fields(bytes, layouts.take(k as int), i) is Ok,
    ensures
        ({
            let (values, used) = parsed_fields(bytes, layouts.take(k as int), i)->Ok_0;
            parsed_fields(bytes, layouts, i) == after(
                values,
                used,
                parsed_fields(bytes.skip(used as int), layouts, k),
            )
        }),
    decreases k - i,
{
    let first = layouts.take(k as int);
    if i < k {
        let (v, n) = parsed(bytes, layouts[i as int])->Ok_0;
        let next = bytes.skip(n as int);
        lemma_parsed_fields_split(next, layouts, k, i + 1);
        let (values, used) = parsed_fields(next, first, i + 1)->Ok_0;
        let tail = parsed_fields(next.skip(used as int), layouts, k);
        crate::decode::lemma_parsed_within(bytes, layouts[i as int]);
        crate::decode::lemma_parsed_fields_within(next, first, i + 1);
        assert(next.skip(used as int) =~= bytes.skip((n + used) as int));
        assert(after(seq![v], n, after(values, used, tail)) == after(
            seq![v] + values,
            n + used,
            tail,
        )) by {
            if let Ok((more, m)) = tail {
                assert(seq![v] + (values + more) =~= (seq![v] + values) + more);
            }
        }
    } else {
        assert(bytes.skip(0) =~= bytes);
        let tail = parsed_fields(bytes, layouts, k);
        if let Ok((more, m)) = tail {
        }
    }
}

/// Arity: where the input holds the first `k` fields of a struct and nothing
/// more, and the field at position `k` cannot be read from nothing, reading
/// the struct fails with an error that names position `k`. A field that is
/// not itself a struct cannot be read from nothing.
pub proof fn lemma_missing_field(bytes: Seq<u8>, layout: MoveStructLayoutView, k: nat)
    requires
        k < layout.layouts.len(),
        parsed(Seq::<u8>::empty(), layout.layouts[k as int]) is Err,
        parsed_fields(bytes, layout.layouts.take(k as int), 0) matches Ok((values, used)) && used
            == bytes.len(),
    ensures
        parsed_struct(bytes, layout) == Err::<(MoveStructView, nat), DecodeError>(
            DecodeError::InvalidLength(k as usize),
        ),
{
    lemma_parsed_fields_split(bytes, layout.layouts, k, 0);
    let (values, used) = parsed_fields(bytes, layout.layouts.take(k as int), 0)->Ok_0;
    assert(bytes.skip(used as int) =~= Seq::<u8>::empty());
}

} // verus!
