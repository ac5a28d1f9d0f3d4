//! Copies of values and layouts: a copy stands for the same thing as the
//! value that it was made from.

use crate::identifier::Identifier;
use crate::structured::Structured;
use crate::value::{MoveFieldLayout, MoveStruct, MoveStructLayout, MoveTypeLayout, MoveValue};
use vstd::prelude::*;

verus! {

impl Clone for MoveValue {
    fn clone(&self) -> (r: MoveValue)
        ensures
            r@ == self@,
        decreases self, 1nat,
    {
        match self {
            MoveValue::U8(x) => MoveValue::U8(*x),
            MoveValue::U64(x) => MoveValue::U64(*x),
            MoveValue::U128(x) => MoveValue::U128(*x),
            MoveValue::Bool(b) => MoveValue::Bool(*b),
            MoveValue::Address(a) => MoveValue::Address(*a),
            MoveValue::Signer(a) => MoveValue::Signer(*a),
            MoveValue::Vector(vals) => {
                let mut out: Vec<MoveValue> = Vec::new();
                let mut i: usize = 0;
                while i < vals.len()
                    invariant
                        i <= vals.len(),
                        out.len() == i,
                        forall|j: int| 0 <= j < i ==> out[j]@ == vals[j]@,
                        decreases_to!(self => vals),
                    decreases vals.len() - i,
                {
                    out.push(vals[i].clone());
                    i += 1;
                }
                let r = MoveValue::Vector(out);
                assert(r@->Vector_0 =~= self@->Vector_0);
                r
            },
            MoveValue::Struct(s) => MoveValue::Struct(s.clone()),
        }
    }
}

impl Clone for MoveStruct {
    fn clone(&self) -> (r: MoveStruct)
        ensures
            r@ == self@,
        decreases self, 1nat,
    {
        match self {
            MoveStruct::Runtime(vals) => {
                let mut out: Vec<MoveValue> = Vec::new();
                let mut i: usize = 0;
                while i < vals.len()
                    invariant
                        i <= vals.len(),
                        out.len() == i,
                        forall|j: int| 0 <= j < i ==> out[j]@ == vals[j]@,
                        decreases_to!(self => vals),
                    decreases vals.len() - i,
                {
                    out.push(vals[i].clone());
                    i += 1;
                }
                let r = MoveStruct::Runtime(out);
                assert(r@.values =~= self@.values);
                r
            },
            MoveStruct::WithFields(fields) => {
                let r = MoveStruct::WithFields(clone_fields(fields, Ghost(*self)));
                assert(r@.values =~= self@.values);
                assert(r@.names =~= self@.names);
                r
            },
            MoveStruct::WithTypes { type_, fields } => {
                let r = MoveStruct::WithTypes {
                    type_: type_.clone(),
                    fields: clone_fields(fields, Ghost(*self)),
                };
                assert(r@.values =~= self@.values);
                assert(r@.names =~= self@.names);
                r
            },
        }
    }
}

/// A copy of each named value, in order.
fn clone_fields(fields: &Vec<(Identifier, MoveValue)>, Ghost(whole): Ghost<MoveStruct>) -> (r: Vec<
    (Identifier, MoveValue),
>)
    requires
        decreases_to!(whole => fields),
    ensures
        r.len() == fields.len(),
        forall|j: int|
            0 <= j < r.len() ==> (#[trigger] r[j]).0@ == fields[j].0@ && r[j].1@ == fields[j].1@,
    decreases whole, 0nat,
{
    let mut out: Vec<(Identifier, MoveValue)> = Vec::new();
    let mut i: usize = 0;
    while i < fields.len()
        invariant
            i <= fields.len(),
            out.len() == i,
            forall|j: int|
                0 <= j < i ==> (#[trigger] out[j]).0@ == fields[j].0@ && out[j].1@
                    == fields[j].1@,
            decreases_to!(whole => fields),
        decreases fields.len() - i,
    {
        out.push((fields[i].0.clone(), fields[i].1.clone()));
        i += 1;
    }
    out
}

impl Clone for MoveFieldLayout {
    fn clone(&self) -> (r: MoveFieldLayout)
        ensures
            r.name@ == self.name@,
            r.layout@ == self.layout@,
        decreases self, 1nat,
    {
        MoveFieldLayout { name: self.name.clone(), layout: self.layout.clone() }
    }
}

impl Clone for MoveTypeLayout {
    fn clone(&self) -> (r: MoveTypeLayout)
        ensures
            r@ == self@,
        decreases self, 1nat,
    {
        match self {
            MoveTypeLayout::Bool => MoveTypeLayout::Bool,
            MoveTypeLayout::U8 => MoveTypeLayout::U8,
            MoveTypeLayout::U64 => MoveTypeLayout::U64,
            MoveTypeLayout::U128 => MoveTypeLayout::U128,
            MoveTypeLayout::Address => MoveTypeLayout::Address,
            MoveTypeLayout::Signer => MoveTypeLayout::Signer,
            MoveTypeLayout::Vector(t) => MoveTypeLayout::Vector(Box::new((**t).clone())),
            MoveTypeLayout::Struct(s) => MoveTypeLayout::Struct(s.clone()),
        }
    }
}

impl Clone for MoveStructLayout {
    fn clone(&self) -> (r: MoveStructLayout)
        ensures
            r@ == self@,
        decreases self, 1nat,
    {
        match self {
            MoveStructLayout::Runtime(layouts) => {
                let mut out: Vec<MoveTypeLayout> = Vec::new();
                let mut i: usize = 0;
                while i < layouts.len()
                    invariant
                        i <= layouts.len(),
                        out.len() == i,
                        forall|j: int| 0 <= j < i ==> out[j]@ == layouts[j]@,
                        decreases_to!(self => layouts),
                    decreases layouts.len() - i,
                {
                    out.push(layouts[i].clone());
                    i += 1;
                }
                let r = MoveStructLayout::Runtime(out);
                assert(r@.layouts =~= self@.layouts);
                r
            },
            MoveStructLayout::WithFields(fields) => {
                let r = MoveStructLayout::WithFields(clone_field_layouts(fields, Ghost(*self)));
                assert(r@.layouts =~= self@.layouts);
                assert(r@.names =~= self@.names);
                r
            },
            MoveStructLayout::WithTypes { type_, fields } => {
                let r = MoveStructLayout::WithTypes {
                    type_: type_.clone(),
                    fields: clone_field_layouts(fields, Ghost(*self)),
                };
                assert(r@.layouts =~= self@.layouts);
                assert(r@.names =~= self@.names);
                r
            },
        }
    }
}

/// A copy of each field layout, in order.
fn clone_field_layouts(fields: &Vec<MoveFieldLayout>, Ghost(whole): Ghost<MoveStructLayout>) -> (r:
    Vec<MoveFieldLayout>)
    requires
        decreases_to!(whole => fields),
    ensures
        r.len() == fields.len(),
        forall|j: int|
            0 <= j < r.len() ==> (#[trigger] r[j]).name@ == fields[j].name@ && r[j].layout@
                == fields[j].layout@,
    decreases whole, 0nat,
{
    let mut out: Vec<MoveFieldLayout> = Vec::new();
    let mut i: usize = 0;
    while i < fields.len()
        invariant
            i <= fields.len(),
            out.len() == i,
            forall|j: int|
                0 <= j < i ==> (#[trigger] out[j]).name@ == fields[j].name@ && out[j].layout@
                    == fields[j].layout@,
            decreases_to!(whole => fields),
        decreases fields.len() - i,
    {
        out.push(fields[i].clone());
        i += 1;
    }
    out
}

impl Clone for Structured {
    fn clone(&self) -> (r: Structured)
        ensures
            r@ == self@,
        decreases self, 1nat,
    {
        match self {
            Structured::Bool(b) => Structured::Bool(*b),
            Structured::U8(x) => Structured::U8(*x),
            Structured::U64(x) => Structured::U64(*x),
            Structured::U128(x) => Structured::U128(*x),
            Structured::Address(a) => Structured::Address(*a),
            Structured::List(items) => {
                let r = Structured::List(clone_items(items, Ghost(*self)));
                assert(r@->List_0 =~= self@->List_0);
                r
            },
            Structured::Tuple(items) => {
                let r = Structured::Tuple(clone_items(items, Ghost(*self)));
                assert(r@->Tuple_0 =~= self@->Tuple_0);
                r
            },
            Structured::Mapping(fields) => {
                let r = Structured::Mapping(clone_members(fields, Ghost(*self)));
                assert(r@->Mapping_names =~= self@->Mapping_names);
                assert(r@->Mapping_values =~= self@->Mapping_values);
                r
            },
            Structured::Object { type_, fields } => {
                let r = Structured::Object {
                    type_: type_.clone(),
                    fields: clone_members(fields, Ghost(*self)),
                };
                assert(r@->Object_names =~= self@->Object_names);
                assert(r@->Object_values =~= self@->Object_values);
                r
            },
        }
    }
}

/// A copy of each item, in order.
fn clone_items(items: &Vec<Structured>, Ghost(whole): Ghost<Structured>) -> (r: Vec<Structured>)
    requires
        decreases_to!(whole => items),
    ensures
        r.len() == items.len(),
        forall|j: int| 0 <= j < r.len() ==> (#[trigger] r[j])@ == items[j]@,
    decreases whole, 0nat,
{
    let mut out: Vec<Structured> = Vec::new();
    let mut i: usize = 0;
    while i < items.len()
        invariant
            i <= items.len(),
            out.len() == i,
            forall|j: int| 0 <= j < i ==> (#[trigger] out[j])@ == items[j]@,
            decreases_to!(whole => items),
        decreases items.len() - i,
    {
        out.push(items[i].clone());
        i += 1;
    }
    out
}

/// A copy of each named member, in order.
fn clone_members(fields: &Vec<(String, Structured)>, Ghost(whole): Ghost<Structured>) -> (r: Vec<
    (String, Structured),
>)
    requires
        decreases_to!(whole => fields),
    ensures
        r.len() == fields.len(),
        forall|j: int|
            0 <= j < r.len() ==> (#[trigger] r[j]).0@ == fields[j].0@ && r[j].1@ == fields[j].1@,
    decreases whole, 0nat,
{
    let mut out: Vec<(String, Structured)> = Vec::new();
    let mut i: usize = 0;
    while i < fields.len()
        invariant
            i <= fields.len(),
            out.len() == i,
            forall|j: int|
                0 <= j < i ==> (#[trigger] out[j]).0@ == fields[j].0@ && out[j].1@
                    == fields[j].1@,
            decreases_to!(whole => fields),
        decreases fields.len() - i,
    {
        out.push((fields[i].0.clone(), fields[i].1.clone()));
        i += 1;
    }
    out
}

} // verus!
