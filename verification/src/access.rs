//! Building structs and layouts, and reaching their fields by position.

use crate::account_address::AccountAddress;
use crate::identifier::Identifier;
use crate::language_storage::StructTag;
use crate::value::{
    layout_names_of, layout_views_of, layouts_of, names_of, values_of, views_of, Decoration,
    MoveFieldLayout, MoveStruct, MoveStructLayout, MoveStructLayoutView, MoveStructView,
    MoveTypeLayout, MoveValue, MoveValueView,
};
use vstd::pervasive::unreached;
use vstd::prelude::*;

verus! {

impl MoveValue {
    /// The vector of the given bytes.
    pub fn vector_u8(v: Vec<u8>) -> (r: MoveValue)
        ensures
            r@ == MoveValueView::Vector(Seq::new(v@.len(), |i: int| MoveValueView::U8(v@[i]))),
    {
        let mut out: Vec<MoveValue> = Vec::new();
        let mut i: usize = 0;
        while i < v.len()
            invariant
                i <= v.len(),
                out.len() == i,
                forall|j: int| 0 <= j < i ==> out[j]@ == MoveValueView::U8(v@[j]),
            decreases v.len() - i,
        {
            out.push(MoveValue::U8(v[i]));
            i += 1;
        }
        let r = MoveValue::Vector(out);
        assert(r@->Vector_0 =~= Seq::new(v@.len(), |i: int| MoveValueView::U8(v@[i])));
        r
    }

    /// The vector of the given addresses.
    pub fn vector_address(v: Vec<AccountAddress>) -> (r: MoveValue)
        ensures
            r@ == MoveValueView::Vector(
                Seq::new(v@.len(), |i: int| MoveValueView::Address(v@[i]@)),
            ),
    {
        let mut out: Vec<MoveValue> = Vec::new();
        let mut i: usize = 0;
        while i < v.len()
            invariant
                i <= v.len(),
                out.len() == i,
                forall|j: int| 0 <= j < i ==> out[j]@ == MoveValueView::Address(v@[j]@),
            decreases v.len() - i,
        {
            out.push(MoveValue::Address(v[i]));
            i += 1;
        }
        let r = MoveValue::Vector(out);
        assert(r@->Vector_0 =~= Seq::new(v@.len(), |i: int| MoveValueView::Address(v@[i]@)));
        r
    }
}

impl MoveStruct {
    /// The bare struct of the given values.
    pub fn new(value: Vec<MoveValue>) -> (r: MoveStruct)
        ensures
            r == MoveStruct::Runtime(value),
            r@ == (MoveStructView {
                decoration: Decoration::Runtime,
                names: Seq::empty(),
                values: views_of(value@),
            }),
    {
        let r = MoveStruct::Runtime(value);
        assert(r@.values =~= views_of(value@));
        r
    }

    /// The field-named struct of the given names and values.
    pub fn with_fields(values: Vec<(Identifier, MoveValue)>) -> (r: MoveStruct)
        ensures
            r == MoveStruct::WithFields(values),
            r@ == (MoveStructView {
                decoration: Decoration::WithFields,
                names: names_of(values@),
                values: values_of(values@),
            }),
    {
        let r = MoveStruct::WithFields(values);
        assert(r@.values =~= values_of(values@));
        r
    }

    /// The fully typed struct of the given tag, names and values.
    pub fn with_types(type_: StructTag, fields: Vec<(Identifier, MoveValue)>) -> (r: MoveStruct)
        ensures
            r == (MoveStruct::WithTypes { type_, fields }),
            r@ == (MoveStructView {
                decoration: Decoration::WithTypes(type_@),
                names: names_of(fields@),
                values: values_of(fields@),
            }),
    {
        let r = MoveStruct::WithTypes { type_, fields };
        assert(r@.values =~= values_of(r->WithTypes_fields@));
        r
    }

    /// The values of a bare struct. A struct that carries names has no flat
    /// fields to borrow: see `into_fields`.
    pub fn fields(&self) -> (r: &[MoveValue])
        requires
            self is Runtime,
        ensures
            r@ == self->Runtime_0@,
            views_of(r@) == self@.values,
    {
        match self {
            MoveStruct::Runtime(vals) => {
                vals.as_slice()
            },
            _ => unreached(),
        }
    }

    /// The values of the fields in order, whatever the representation: names
    /// and type tag are dropped.
    pub fn into_fields(self) -> (r: Vec<MoveValue>)
        ensures
            views_of(r@) == self@.values,
    {
        match self {
            MoveStruct::Runtime(vals) => {
                vals
            },
            MoveStruct::WithFields(fields) => strip_names(fields),
            MoveStruct::WithTypes { type_, fields } => strip_names(fields),
        }
    }
}

/// The values of `fields`, in order.
fn strip_names(fields: Vec<(Identifier, MoveValue)>) -> (r: Vec<MoveValue>)
    ensures
        views_of(r@) == values_of(fields@),
{
    let mut out: Vec<MoveValue> = Vec::new();
    for pair in it: fields
        invariant
            out.len() == it.index(),
            it.seq() == fields@,
            forall|j: int| 0 <= j < it.index() ==> out[j]@ == fields@[j].1@,
    {
        let (_, value) = pair;
        out.push(value);
    }
    out
}

impl MoveStructLayout {
    /// The bare layout of the given field layouts.
    pub fn new(types: Vec<MoveTypeLayout>) -> (r: MoveStructLayout)
        ensures
            r == MoveStructLayout::Runtime(types),
            r@ == (MoveStructLayoutView {
                decoration: Decoration::Runtime,
                names: Seq::empty(),
                layouts: layout_views_of(types@),
            }),
    {
        let r = MoveStructLayout::Runtime(types);
        assert(r@.layouts =~= layout_views_of(types@));
        r
    }

    /// The field-named layout of the given fields.
    pub fn with_fields(types: Vec<MoveFieldLayout>) -> (r: MoveStructLayout)
        ensures
            r == MoveStructLayout::WithFields(types),
            r@ == (MoveStructLayoutView {
                decoration: Decoration::WithFields,
                names: layout_names_of(types@),
                layouts: layouts_of(types@),
            }),
    {
        let r = MoveStructLayout::WithFields(types);
        assert(r@.layouts =~= layouts_of(types@));
        r
    }

    /// The fully typed layout of the given tag and fields.
    pub fn with_types(type_: StructTag, fields: Vec<MoveFieldLayout>) -> (r: MoveStructLayout)
        ensures
            r == (MoveStructLayout::WithTypes { type_, fields }),
            r@ == (MoveStructLayoutView {
                decoration: Decoration::WithTypes(type_@),
                names: layout_names_of(fields@),
                layouts: layouts_of(fields@),
            }),
    {
        let r = MoveStructLayout::WithTypes { type_, fields };
        assert(r@.layouts =~= layouts_of(r->WithTypes_fields@));
        r
    }

    /// The field layouts of a bare layout. A layout that carries names has no
    /// flat fields to borrow: see `into_fields`.
    pub fn fields(&self) -> (r: &[MoveTypeLayout])
        requires
            self is Runtime,
        ensures
            r@ == self->Runtime_0@,
            layout_views_of(r@) == self@.layouts,
    {
        match self {
            MoveStructLayout::Runtime(vals) => {
                vals.as_slice()
            },
            _ => unreached(),
        }
    }

    /// The layouts of the fields in order, whatever the representation: names
    /// and type tag are dropped.
    pub fn into_fields(self) -> (r: Vec<MoveTypeLayout>)
        ensures
            layout_views_of(r@) == self@.layouts,
    {
        match self {
            MoveStructLayout::Runtime(vals) => {
                vals
            },
            MoveStructLayout::WithFields(fields) => strip_layout_names(fields),
            MoveStructLayout::WithTypes { type_, fields } => strip_layout_names(fields),
        }
    }
}

/// The layouts of `fields`, in order.
fn strip_layout_names(fields: Vec<MoveFieldLayout>) -> (r: Vec<MoveTypeLayout>)
    ensures
        layout_views_of(r@) == layouts_of(fields@),
{
    let mut out: Vec<MoveTypeLayout> = Vec::new();
    for field in it: fields
        invariant
            out.len() == it.index(),
            it.seq() == fields@,
            forall|j: int| 0 <= j < it.index() ==> out[j]@ == fields@[j].layout@,
    {
        out.push(field.layout);
    }
    out
}

} // verus!
