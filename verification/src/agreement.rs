//! Decoration does not touch the canonical binary form: a value and the same
//! value with names and types are written as the same bytes.

use crate::decorate::{decorated, decorated_fields, decorated_struct};
use crate::encode::{encodable, encoding, encoding_from};
use crate::value::{MoveStructLayoutView, MoveStructView, MoveTypeLayoutView, MoveValueView};
use vstd::prelude::*;

verus! {

/// Whether decorating `v` against `l` keeps every value of `v`: wherever a
/// struct takes names from a struct layout, the layout has a field for each
/// value of the struct.
pub open spec fn keeps_every_value(v: MoveValueView, l: MoveTypeLayoutView) -> bool
    decreases v,
{
    match (v, l) {
        (MoveValueView::Struct(s), MoveTypeLayoutView::Struct(sl)) => takes_names(s, sl) ==> {
            &&& s.values.len() <= sl.layouts.len()
            &&& forall|i: int|
                0 <= i < s.values.len() ==> keeps_every_value(
                    #[trigger] s.values[i],
                    sl.layouts[i],
                )
        },
        (MoveValueView::Vector(vs), MoveTypeLayoutView::Vector(t)) => forall|i: int|
            0 <= i < vs.len() ==> keeps_every_value(#[trigger] vs[i], *t),
        _ => true,
    }
}

/// Whether a struct is changed by a struct layout: a bare struct by a layout
/// that has names, and a field-named struct by a fully typed layout.
pub open spec fn takes_names(s: MoveStructView, l: MoveStructLayoutView) -> bool {
    ||| s.decoration is Runtime && !(l.decoration is Runtime)
    ||| s.decoration is WithFields && l.decoration is WithTypes
}

/// Sequences of one length whose values are written alike, position by
/// position, are written alike from any position on.
pub proof fn lemma_encoding_from_alike(a: Seq<MoveValueView>, b: Seq<MoveValueView>, i: nat)
    requires
        a.len() == b.len(),
        forall|j: int| 0 <= j < a.len() ==> encoding(#[trigger] a[j]) == encoding(b[j]),
    ensures
        encoding_from(a, i) == encoding_from(b, i),
    decreases a.len() - i,
{
    if i < a.len() {
        lemma_encoding_from_alike(a, b, i + 1);
    }
}

/// Decoration that keeps every value keeps the canonical binary form, and
/// whether there is one.
pub proof fn lemma_decoration_keeps_encoding(v: MoveValueView, l: MoveTypeLayoutView)
    requires
        keeps_every_value(v, l),
    ensures
        encoding(decorated(v, l)) == encoding(v),
        encodable(decorated(v, l)) == encodable(v),
    decreases v, 1nat,
{
    match (v, l) {
        (MoveValueView::Struct(s), MoveTypeLayoutView::Struct(sl)) => {
            if takes_names(s, sl) {
                let after = decorated_struct(s, sl);
                assert(decorated(v, l) == MoveValueView::Struct(after));
                assert(after.values == decorated_fields(s.values, sl.layouts));
                lemma_fields_keep_encoding(s.values, after.values, sl.layouts);
            } else {
                assert(decorated_struct(s, sl) == s);
            }
        },
        (MoveValueView::Vector(vs), MoveTypeLayoutView::Vector(t)) => {
            let after = decorated(v, l)->Vector_0;
            assert(after.len() == vs.len());
            assert forall|j: int| 0 <= j < vs.len() implies encoding(#[trigger] after[j])
                == encoding(vs[j]) by {
                lemma_decoration_keeps_encoding(vs[j], *t);
            }
            assert forall|j: int| 0 <= j < vs.len() implies encodable(#[trigger] after[j])
                == encodable(vs[j]) by {
                lemma_decoration_keeps_encoding(vs[j], *t);
            }
            lemma_encoding_from_alike(after, vs, 0);
            lemma_encodable_alike(after, vs);
        },
        _ => {},
    }
}

/// The fields of a struct, decorated position by position against layouts
/// that are no fewer, are written as they were.
pub proof fn lemma_fields_keep_encoding(
    values: Seq<MoveValueView>,
    after: Seq<MoveValueView>,
    layouts: Seq<MoveTypeLayoutView>,
)
    requires
        values.len() <= layouts.len(),
        after == decorated_fields(values, layouts),
        forall|i: int|
            0 <= i < values.len() ==> keeps_every_value(#[trigger] values[i], layouts[i]),
    ensures
        after.len() == values.len(),
        encoding_from(after, 0) == encoding_from(values, 0),
        (forall|i: int| 0 <= i < after.len() ==> encodable(#[trigger] after[i])) == (forall|
            i: int,
        |
            0 <= i < values.len() ==> encodable(#[trigger] values[i])),
    decreases values, 0nat,
{
    assert forall|j: int| 0 <= j < values.len() implies encoding(#[trigger] after[j])
        == encoding(values[j]) by {
        lemma_decoration_keeps_encoding(values[j], layouts[j]);
    }
    assert forall|j: int| 0 <= j < values.len() implies encodable(#[trigger] after[j])
        == encodable(values[j]) by {
        lemma_decoration_keeps_encoding(values[j], layouts[j]);
    }
    lemma_encoding_from_alike(after, values, 0);
    lemma_encodable_alike(after, values);
}

/// Sequences of one length whose values have a canonical binary form alike,
/// position by position, have one alike as a whole.
pub proof fn lemma_encodable_alike(a: Seq<MoveValueView>, b: Seq<MoveValueView>)
    requires
        a.len() == b.len(),
        forall|j: int| 0 <= j < a.len() ==> encodable(#[trigger] a[j]) == encodable(b[j]),
    ensures
        (forall|i: int| 0 <= i < a.len() ==> encodable(#[trigger] a[i])) == (forall|i: int|
            0 <= i < b.len() ==> encodable(#[trigger] b[i])),
{
    if forall|i: int| 0 <= i < a.len() ==> encodable(#[trigger] a[i]) {
        assert forall|i: int| 0 <= i < b.len() implies encodable(#[trigger] b[i]) by {
            assert(encodable(a[i]));
        }
    }
    if forall|i: int| 0 <= i < b.len() ==> encodable(#[trigger] b[i]) {
        assert forall|i: int| 0 <= i < a.len() implies encodable(#[trigger] a[i]) by {
            assert(encodable(b[i]));
        }
    }
}

} // verus!
