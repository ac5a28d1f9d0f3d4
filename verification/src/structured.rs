//! The structured form of a value: what a tool shows in place of the
//! canonical bytes, with the names and the type that a decorated value has.

use crate::account_address::AccountAddress;
use crate::identifier::Identifier;
use crate::language_storage::struct_tag_text;
use crate::value::{Decoration, MoveStruct, MoveStructView, MoveValue, MoveValueView};
use vstd::prelude::*;

verus! {

/// The name under which a fully typed struct is shown.
pub const MOVE_STRUCT_NAME: &'static str = "struct";

/// The member of a fully typed struct that holds the text of its type tag.
pub const MOVE_STRUCT_TYPE: &'static str = "type";

/// The member of a fully typed struct that holds its fields.
pub const MOVE_STRUCT_FIELDS: &'static str = "fields";

/// The structured form of a value.
#[derive(Debug, PartialEq, Eq)]
pub enum Structured {
    Bool(bool),
    U8(u8),
    U64(u64),
    U128(u128),
    /// An address or a signer.
    Address(AccountAddress),
    /// A vector: its elements in order.
    List(Vec<Structured>),
    /// A bare struct: its fields in order.
    Tuple(Vec<Structured>),
    /// A field-named struct: its fields in order, each under its name.
    Mapping(Vec<(String, Structured)>),
    /// A fully typed struct: the text of its type tag under
    /// `MOVE_STRUCT_TYPE`, and its named fields under `MOVE_STRUCT_FIELDS`.
    Object { type_: String, fields: Vec<(String, Structured)> },
}

/// What a `Structured` stands for. Named fields are two sequences of one
/// length: the names and, in the same order, what stands under each.
pub enum StructuredView {
    Bool(bool),
    U8(u8),
    U64(u64),
    U128(u128),
    Address(Seq<u8>),
    List(Seq<StructuredView>),
    Tuple(Seq<StructuredView>),
    Mapping { names: Seq<Seq<char>>, values: Seq<StructuredView> },
    Object { type_: Seq<char>, names: Seq<Seq<char>>, values: Seq<StructuredView> },
}

impl Structured {
    pub open spec fn model(&self) -> StructuredView
        decreases self,
    {
        match self {
            Structured::Bool(b) => StructuredView::Bool(*b),
            Structured::U8(x) => StructuredView::U8(*x),
            Structured::U64(x) => StructuredView::U64(*x),
            Structured::U128(x) => StructuredView::U128(*x),
            Structured::Address(a) => StructuredView::Address(a@),
            Structured::List(v) => StructuredView::List(
                Seq::new(
                    v.len() as nat,
                    |i: int|
                        if 0 <= i < v.len() {
                            v[i].model()
                        } else {
                            StructuredView::Bool(false)
                        },
                ),
            ),
            Structured::Tuple(v) => StructuredView::Tuple(
                Seq::new(
                    v.len() as nat,
                    |i: int|
                        if 0 <= i < v.len() {
                            v[i].model()
                        } else {
                            StructuredView::Bool(false)
                        },
                ),
            ),
            Structured::Mapping(f) => StructuredView::Mapping {
                names: Seq::new(f.len() as nat, |i: int| f[i].0@),
                values: Seq::new(
                    f.len() as nat,
                    |i: int|
                        if 0 <= i < f.len() {
                            f[i].1.model()
                        } else {
                            StructuredView::Bool(false)
                        },
                ),
            },
            Structured::Object { type_, fields } => StructuredView::Object {
                type_: type_@,
                names: Seq::new(fields.len() as nat, |i: int| fields[i].0@),
                values: Seq::new(
                    fields.len() as nat,
                    |i: int|
                        if 0 <= i < fields.len() {
                            fields[i].1.model()
                        } else {
                            StructuredView::Bool(false)
                        },
                ),
            },
        }
    }
}

impl View for Structured {
    type V = StructuredView;

    open spec fn view(&self) -> StructuredView {
        self.model()
    }
}

/// The structured forms of a sequence of values, in order.
pub open spec fn structured_all(values: Seq<MoveValueView>) -> Seq<StructuredView>
    decreases values, 0nat,
{
    Seq::new(
        values.len(),
        |i: int|
            if 0 <= i < values.len() {
                structured(values[i])
            } else {
                StructuredView::Bool(false)
            },
    )
}

/// The structured form of a value.
///
/// A primitive value is itself; a signer is shown as its address. A vector
/// is the list of its elements. A bare struct is the tuple of its fields, a
/// field-named struct the mapping from its names to its fields, and a fully
/// typed struct an object of the text of its type tag and that mapping.
pub open spec fn structured(v: MoveValueView) -> StructuredView
    decreases v, 1nat,
{
    match v {
        MoveValueView::U8(x) => StructuredView::U8(x),
        MoveValueView::U64(x) => StructuredView::U64(x),
        MoveValueView::U128(x) => StructuredView::U128(x),
        MoveValueView::Bool(b) => StructuredView::Bool(b),
        MoveValueView::Address(a) => StructuredView::Address(a),
        MoveValueView::Signer(a) => StructuredView::Address(a),
        MoveValueView::Vector(vs) => StructuredView::List(structured_all(vs)),
        MoveValueView::Struct(s) => structured_struct(s),
    }
}

/// The structured form of a struct.
pub open spec fn structured_struct(s: MoveStructView) -> StructuredView
    decreases s, 0nat,
{
    match s.decoration {
        Decoration::Runtime => StructuredView::Tuple(structured_all(s.values)),
        Decoration::WithFields => StructuredView::Mapping {
            names: s.names,
            values: structured_all(s.values),
        },
        Decoration::WithTypes(tag) => StructuredView::Object {
            type_: struct_tag_text(tag),
            names: s.names,
            values: structured_all(s.values),
        },
    }
}

impl MoveValue {
    /// The structured form of this value.
    pub fn to_structured(&self) -> (r: Structured)
        ensures
            r@ == structured(self@),
        decreases self, 1nat,
    {
        match self {
            MoveValue::U8(x) => Structured::U8(*x),
            MoveValue::U64(x) => Structured::U64(*x),
            MoveValue::U128(x) => Structured::U128(*x),
            MoveValue::Bool(b) => Structured::Bool(*b),
            MoveValue::Address(a) => Structured::Address(*a),
            MoveValue::Signer(a) => Structured::Address(*a),
            MoveValue::Vector(vals) => {
                let mut out: Vec<Structured> = Vec::new();
                let mut i: usize = 0;
                while i < vals.len()
                    invariant
                        i <= vals.len(),
                        out.len() == i,
                        forall|j: int| 0 <= j < i ==> out[j]@ == structured(vals[j]@),
                        decreases_to!(self => vals),
                    decreases vals.len() - i,
                {
                    out.push(vals[i].to_structured());
                    i += 1;
                }
                let r = Structured::List(out);
                assert(r@->List_0 =~= structured_all(self@->Vector_0));
                r
            },
            MoveValue::Struct(s) => s.to_structured(),
        }
    }
}

impl MoveStruct {
    /// The structured form of this struct.
    pub fn to_structured(&self) -> (r: Structured)
        ensures
            r@ == structured_struct(self@),
        decreases self, 1nat,
    {
        match self {
            MoveStruct::Runtime(vals) => {
                let mut out: Vec<Structured> = Vec::new();
                let mut i: usize = 0;
                while i < vals.len()
                    invariant
                        i <= vals.len(),
                        out.len() == i,
                        forall|j: int| 0 <= j < i ==> out[j]@ == structured(vals[j]@),
                        decreases_to!(self => vals),
                    decreases vals.len() - i,
                {
                    out.push(vals[i].to_structured());
                    i += 1;
                }
                let r = Structured::Tuple(out);
                assert(r@->Tuple_0 =~= structured_all(self@.values));
                r
            },
            MoveStruct::WithFields(fields) => {
                let out = structured_fields(fields, Ghost(*self));
                let r = Structured::Mapping(out);
                assert(r@->Mapping_names =~= self@.names);
                assert(r@->Mapping_values =~= structured_all(self@.values));
                r
            },
            MoveStruct::WithTypes { type_, fields } => {
                let out = structured_fields(fields, Ghost(*self));
                let r = Structured::Object { type_: type_.to_string(), fields: out };
                assert(r@->Object_names =~= self@.names);
                assert(r@->Object_values =~= structured_all(self@.values));
                r
            },
        }
    }
}

/// The structured form of each field, under the name of the field.
fn structured_fields(fields: &Vec<(Identifier, MoveValue)>, Ghost(whole): Ghost<MoveStruct>) -> (r:
    Vec<(String, Structured)>)
    requires
        decreases_to!(whole => fields),
    ensures
        r.len() == fields.len(),
        forall|j: int|
            0 <= j < r.len() ==> (#[trigger] r[j]).0@ == fields[j].0@ && r[j].1@ == structured(
                fields[j].1@,
            ),
    decreases whole, 0nat,
{
    let mut out: Vec<(String, Structured)> = Vec::new();
    let mut i: usize = 0;
    while i < fields.len()
        invariant
            i <= fields.len(),
            out.len() == i,
            forall|j: int|
                0 <= j < i ==> (#[trigger] out[j]).0@ == fields[j].0@ && out[j].1@ == structured(
                    fields[j].1@,
                ),
            decreases_to!(whole => fields),
        decreases fields.len() - i,
    {
        let name = fields[i].0.to_string();
        let value = fields[i].1.to_structured();
        out.push((name, value));
        i += 1;
    }
    out
}

} // verus!
