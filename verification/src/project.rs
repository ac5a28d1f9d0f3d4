//! The type tag that a layout names.

use crate::errors::TagError;
use crate::language_storage::{StructTag, StructTagView, TypeTag, TypeTagView};
use crate::value::{
    Decoration, MoveStructLayout, MoveStructLayoutView, MoveTypeLayout, MoveTypeLayoutView,
};
use vstd::prelude::*;

verus! {

/// The tag of a struct layout: the one that a fully typed layout carries. A
/// layout of another representation names no type.
pub open spec fn struct_tag_of(l: MoveStructLayoutView) -> Result<StructTagView, TagError> {
    match l.decoration {
        Decoration::WithTypes(tag) => Ok(tag),
        _ => Err(TagError::MissingType),
    }
}

/// The tag of a layout: that of its kind for a primitive layout, the vector
/// of the tag of the elements for a vector, and the tag of the struct layout
/// for a struct.
pub open spec fn type_tag_of(l: MoveTypeLayoutView) -> Result<TypeTagView, TagError>
    decreases l,
{
    match l {
        MoveTypeLayoutView::Address => Ok(TypeTagView::Address),
        MoveTypeLayoutView::Bool => Ok(TypeTagView::Bool),
        MoveTypeLayoutView::U8 => Ok(TypeTagView::U8),
        MoveTypeLayoutView::U64 => Ok(TypeTagView::U64),
        MoveTypeLayoutView::U128 => Ok(TypeTagView::U128),
        MoveTypeLayoutView::Signer => Ok(TypeTagView::Signer),
        MoveTypeLayoutView::Vector(t) => match type_tag_of(*t) {
            Ok(inner) => Ok(TypeTagView::Vector(Box::new(inner))),
            Err(e) => Err(e),
        },
        MoveTypeLayoutView::Struct(s) => match struct_tag_of(s) {
            Ok(tag) => Ok(TypeTagView::Struct(tag)),
            Err(e) => Err(e),
        },
    }
}

impl MoveStructLayout {
    /// The tag of the struct type, which only a fully typed layout carries.
    pub fn struct_tag(&self) -> (r: Result<StructTag, TagError>)
        ensures
            r is Ok <==> self@.decoration is WithTypes,
            r is Ok ==> Decoration::WithTypes(r->Ok_0@) == self@.decoration,
            match struct_tag_of(self@) {
                Ok(tag) => r is Ok && r->Ok_0@ == tag,
                Err(e) => r == Err::<StructTag, TagError>(e),
            },
    {
        match self {
            MoveStructLayout::WithTypes { type_, fields } => Ok(type_.clone()),
            _ => Err(TagError::MissingType),
        }
    }
}

impl MoveTypeLayout {
    /// The tag of the type that this layout describes, if every struct layout
    /// in it is fully typed.
    pub fn type_tag(&self) -> (r: Result<TypeTag, TagError>)
        ensures
            match type_tag_of(self@) {
                Ok(tag) => r is Ok && r->Ok_0@ == tag,
                Err(e) => r == Err::<TypeTag, TagError>(e),
            },
        decreases self,
    {
        match self {
            MoveTypeLayout::Address => Ok(TypeTag::Address),
            MoveTypeLayout::Bool => Ok(TypeTag::Bool),
            MoveTypeLayout::U8 => Ok(TypeTag::U8),
            MoveTypeLayout::U64 => Ok(TypeTag::U64),
            MoveTypeLayout::U128 => Ok(TypeTag::U128),
            MoveTypeLayout::Signer => Ok(TypeTag::Signer),
            MoveTypeLayout::Vector(t) => match t.type_tag() {
                Ok(inner) => Ok(TypeTag::Vector(Box::new(inner))),
                Err(e) => Err(e),
            },
            MoveTypeLayout::Struct(s) => match s.struct_tag() {
                Ok(tag) => Ok(TypeTag::Struct(tag)),
                Err(e) => Err(e),
            },
        }
    }
}

} // verus!
