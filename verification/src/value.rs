//! Values and the layouts that describe their shape.

use crate::account_address::AccountAddress;
use crate::identifier::Identifier;
use crate::language_storage::{StructTag, StructTagView};
use vstd::prelude::*;

verus! {

/// A struct value, in one of three representations.
#[derive(Debug, PartialEq, Eq)]
pub enum MoveStruct {
    /// Bare: the values of the fields, by position.
    Runtime(Vec<MoveValue>),
    /// Field-named: each value with the name of its field.
    WithFields(Vec<(Identifier, MoveValue)>),
    /// Fully typed: the named fields and the tag of the struct type.
    WithTypes { type_: StructTag, fields: Vec<(Identifier, MoveValue)> },
}

/// A value of the virtual machine.
#[derive(Debug, PartialEq, Eq)]
pub enum MoveValue {
    U8(u8),
    U64(u64),
    U128(u128),
    Bool(bool),
    Address(AccountAddress),
    Vector(Vec<MoveValue>),
    Struct(MoveStruct),
    Signer(AccountAddress),
}

/// The layout of one named field.
#[derive(Debug, PartialEq, Eq)]
pub struct MoveFieldLayout {
    pub name: Identifier,
    pub layout: MoveTypeLayout,
}

/// The layout of a struct, in one of three representations.
#[derive(Debug, PartialEq, Eq)]
pub enum MoveStructLayout {
    /// Bare: the layouts of the fields, by position.
    Runtime(Vec<MoveTypeLayout>),
    /// Field-named: each layout with the name of its field.
    WithFields(Vec<MoveFieldLayout>),
    /// Fully typed: the named fields and the tag of the struct type.
    WithTypes { type_: StructTag, fields: Vec<MoveFieldLayout> },
}

/// The shape of a value.
#[derive(Debug, PartialEq, Eq)]
pub enum MoveTypeLayout {
    Bool,
    U8,
    U64,
    U128,
    Address,
    Vector(Box<MoveTypeLayout>),
    Struct(MoveStructLayout),
    Signer,
}

/// How much a struct, or the layout of one, says beside its fields.
pub enum Decoration {
    /// Nothing: the fields are known by position only.
    Runtime,
    /// The names of the fields.
    WithFields,
    /// The names of the fields and the tag of the struct type.
    WithTypes(StructTagView),
}

/// What a `MoveValue` stands for.
pub enum MoveValueView {
    U8(u8),
    U64(u64),
    U128(u128),
    Bool(bool),
    Address(Seq<u8>),
    Vector(Seq<MoveValueView>),
    Struct(MoveStructView),
    Signer(Seq<u8>),
}

/// What a `MoveStruct` stands for: its decoration, the values of its fields
/// in order and, unless it is bare, the names of the fields in the same
/// order. A bare struct has no names.
pub struct MoveStructView {
    pub decoration: Decoration,
    pub names: Seq<Seq<char>>,
    pub values: Seq<MoveValueView>,
}

/// What a `MoveTypeLayout` stands for.
pub enum MoveTypeLayoutView {
    Bool,
    U8,
    U64,
    U128,
    Address,
    Vector(Box<MoveTypeLayoutView>),
    Struct(MoveStructLayoutView),
    Signer,
}

/// What a `MoveStructLayout` stands for: its decoration, the layouts of its
/// fields in order and, unless it is bare, the names of the fields in the
/// same order. A bare layout has no names.
pub struct MoveStructLayoutView {
    pub decoration: Decoration,
    pub names: Seq<Seq<char>>,
    pub layouts: Seq<MoveTypeLayoutView>,
}

/// The names of a sequence of named values.
pub open spec fn names_of(fields: Seq<(Identifier, MoveValue)>) -> Seq<Seq<char>> {
    Seq::new(fields.len(), |i: int| fields[i].0@)
}

/// The values of a sequence of named values.
pub open spec fn values_of(fields: Seq<(Identifier, MoveValue)>) -> Seq<MoveValueView> {
    Seq::new(fields.len(), |i: int| fields[i].1@)
}

/// The views of a sequence of values.
pub open spec fn views_of(values: Seq<MoveValue>) -> Seq<MoveValueView> {
    Seq::new(values.len(), |i: int| values[i]@)
}

/// The names of a sequence of field layouts.
pub open spec fn layout_names_of(fields: Seq<MoveFieldLayout>) -> Seq<Seq<char>> {
    Seq::new(fields.len(), |i: int| fields[i].name@)
}

/// The layouts of a sequence of field layouts.
pub open spec fn layouts_of(fields: Seq<MoveFieldLayout>) -> Seq<MoveTypeLayoutView> {
    Seq::new(fields.len(), |i: int| fields[i].layout@)
}

/// The views of a sequence of layouts.
pub open spec fn layout_views_of(layouts: Seq<MoveTypeLayout>) -> Seq<MoveTypeLayoutView> {
    Seq::new(layouts.len(), |i: int| layouts[i]@)
}

impl MoveValue {
    pub open spec fn model(&self) -> MoveValueView
        decreases self,
    {
        match self {
            MoveValue::U8(x) => MoveValueView::U8(*x),
            MoveValue::U64(x) => MoveValueView::U64(*x),
            MoveValue::U128(x) => MoveValueView::U128(*x),
            MoveValue::Bool(b) => MoveValueView::Bool(*b),
            MoveValue::Address(a) => MoveValueView::Address(a@),
            MoveValue::Signer(a) => MoveValueView::Signer(a@),
            MoveValue::Vector(v) => MoveValueView::Vector(
                Seq::new(
                    v.len() as nat,
                    |i: int|
                        if 0 <= i < v.len() {
                            v[i].model()
                        } else {
                            MoveValueView::Bool(false)
                        },
                ),
            ),
            MoveValue::Struct(s) => MoveValueView::Struct(s.model()),
        }
    }
}

impl MoveStruct {
    pub open spec fn model(&self) -> MoveStructView
        decreases self,
    {
        match self {
            MoveStruct::Runtime(v) => MoveStructView {
                decoration: Decoration::Runtime,
                names: Seq::empty(),
                values: Seq::new(
                    v.len() as nat,
                    |i: int|
                        if 0 <= i < v.len() {
                            v[i].model()
                        } else {
                            MoveValueView::Bool(false)
                        },
                ),
            },
            MoveStruct::WithFields(f) => MoveStructView {
                decoration: Decoration::WithFields,
                names: Seq::new(f.len() as nat, |i: int| f[i].0@),
                values: Seq::new(
                    f.len() as nat,
                    |i: int|
                        if 0 <= i < f.len() {
                            f[i].1.model()
                        } else {
                            MoveValueView::Bool(false)
                        },
                ),
            },
            MoveStruct::WithTypes { type_, fields } => MoveStructView {
                decoration: Decoration::WithTypes(type_@),
                names: Seq::new(fields.len() as nat, |i: int| fields[i].0@),
                values: Seq::new(
                    fields.len() as nat,
                    |i: int|
                        if 0 <= i < fields.len() {
                            fields[i].1.model()
                        } else {
                            MoveValueView::Bool(false)
                        },
                ),
            },
        }
    }
}

impl MoveTypeLayout {
    pub open spec fn model(&self) -> MoveTypeLayoutView
        decreases self,
    {
        match self {
            MoveTypeLayout::Bool => MoveTypeLayoutView::Bool,
            MoveTypeLayout::U8 => MoveTypeLayoutView::U8,
            MoveTypeLayout::U64 => MoveTypeLayoutView::U64,
            MoveTypeLayout::U128 => MoveTypeLayoutView::U128,
            MoveTypeLayout::Address => MoveTypeLayoutView::Address,
            MoveTypeLayout::Signer => MoveTypeLayoutView::Signer,
            MoveTypeLayout::Vector(t) => MoveTypeLayoutView::Vector(Box::new(t.model())),
            MoveTypeLayout::Struct(s) => MoveTypeLayoutView::Struct(s.model()),
        }
    }
}

impl MoveStructLayout {
    pub open spec fn model(&self) -> MoveStructLayoutView
        decreases self,
    {
        match self {
            MoveStructLayout::Runtime(v) => MoveStructLayoutView {
                decoration: Decoration::Runtime,
                names: Seq::empty(),
                layouts: Seq::new(
                    v.len() as nat,
                    |i: int|
                        if 0 <= i < v.len() {
                            v[i].model()
                        } else {
                            MoveTypeLayoutView::Bool
                        },
                ),
            },
            MoveStructLayout::WithFields(f) => MoveStructLayoutView {
                decoration: Decoration::WithFields,
                names: Seq::new(f.len() as nat, |i: int| f[i].name@),
                layouts: Seq::new(
                    f.len() as nat,
                    |i: int|
                        if 0 <= i < f.len() {
                            f[i].layout.model()
                        } else {
                            MoveTypeLayoutView::Bool
                        },
                ),
            },
            MoveStructLayout::WithTypes { type_, fields } => MoveStructLayoutView {
                decoration: Decoration::WithTypes(type_@),
                names: Seq::new(fields.len() as nat, |i: int| fields[i].name@),
                layouts: Seq::new(
                    fields.len() as nat,
                    |i: int|
                        if 0 <= i < fields.len() {
                            fields[i].layout.model()
                        } else {
                            MoveTypeLayoutView::Bool
                        },
                ),
            },
        }
    }
}

impl View for MoveValue {
    type V = MoveValueView;

    open spec fn view(&self) -> MoveValueView {
        self.model()
    }
}

impl View for MoveStruct {
    type V = MoveStructView;

    open spec fn view(&self) -> MoveStructView {
        self.model()
    }
}

impl View for MoveTypeLayout {
    type V = MoveTypeLayoutView;

    open spec fn view(&self) -> MoveTypeLayoutView {
        self.model()
    }
}

impl View for MoveStructLayout {
    type V = MoveStructLayoutView;

    open spec fn view(&self) -> MoveStructLayoutView {
        self.model()
    }
}

impl MoveStructView {
    /// A bare struct has no names; any other has one name for each value.
    pub open spec fn well_formed(self) -> bool {
        if self.decoration is Runtime {
            self.names.len() == 0
        } else {
            self.names.len() == self.values.len()
        }
    }
}

impl MoveStructLayoutView {
    /// A bare layout has no names; any other has one name for each field.
    pub open spec fn well_formed(self) -> bool {
        if self.decoration is Runtime {
            self.names.len() == 0
        } else {
            self.names.len() == self.layouts.len()
        }
    }
}

impl MoveStruct {
    /// A struct has a name for each value, unless it is bare and has none.
    pub proof fn lemma_well_formed(&self)
        ensures
            self@.well_formed(),
    {
    }
}

impl MoveStructLayout {
    /// A layout has a name for each field, unless it is bare and has none.
    pub proof fn lemma_well_formed(&self)
        ensures
            self@.well_formed(),
    {
    }
}

impl MoveFieldLayout {
    /// The layout of the field `name`.
    pub fn new(name: Identifier, layout: MoveTypeLayout) -> (r: MoveFieldLayout)
        ensures
            r.name@ == name@,
            r.layout@ == layout@,
    {
        MoveFieldLayout { name, layout }
    }
}

} // verus!
