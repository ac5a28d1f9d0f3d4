//! Type tags: the nominal names of types.

use crate::account_address::AccountAddress;
use crate::identifier::Identifier;
use crate::endian::big_endian;
use crate::text::{hexadecimal, push_str};
use vstd::prelude::*;

verus! {

/// The name of a type.
#[derive(Debug, PartialEq, Eq, Hash)]
pub enum TypeTag {
    Bool,
    U8,
    U64,
    U128,
    Address,
    Signer,
    Vector(Box<TypeTag>),
    Struct(StructTag),
}

/// The name of a struct type: the address and the name of the module that
/// declares it, its own name, and its type arguments.
#[derive(Debug, PartialEq, Eq, Hash)]
pub struct StructTag {
    pub address: AccountAddress,
    pub module: Identifier,
    pub name: Identifier,
    pub type_params: Vec<TypeTag>,
}

/// What a `TypeTag` stands for.
pub enum TypeTagView {
    Bool,
    U8,
    U64,
    U128,
    Address,
    Signer,
    Vector(Box<TypeTagView>),
    Struct(StructTagView),
}

/// What a `StructTag` stands for.
pub struct StructTagView {
    pub address: Seq<u8>,
    pub module: Seq<char>,
    pub name: Seq<char>,
    pub type_params: Seq<TypeTagView>,
}

impl TypeTag {
    pub open spec fn model(&self) -> TypeTagView
        decreases self,
    {
        match self {
            TypeTag::Bool => TypeTagView::Bool,
            TypeTag::U8 => TypeTagView::U8,
            TypeTag::U64 => TypeTagView::U64,
            TypeTag::U128 => TypeTagView::U128,
            TypeTag::Address => TypeTagView::Address,
            TypeTag::Signer => TypeTagView::Signer,
            TypeTag::Vector(t) => TypeTagView::Vector(Box::new(t.model())),
            TypeTag::Struct(s) => TypeTagView::Struct(s.model()),
        }
    }
}

impl StructTag {
    pub open spec fn model(&self) -> StructTagView
        decreases self,
    {
        StructTagView {
            address: self.address@,
            module: self.module@,
            name: self.name@,
            type_params: Seq::new(
                self.type_params.len() as nat,
                |i: int|
                    if 0 <= i < self.type_params.len() {
                        self.type_params[i].model()
                    } else {
                        TypeTagView::Bool
                    },
            ),
        }
    }
}

impl View for TypeTag {
    type V = TypeTagView;

    open spec fn view(&self) -> TypeTagView {
        self.model()
    }
}

impl View for StructTag {
    type V = StructTagView;

    open spec fn view(&self) -> StructTagView {
        self.model()
    }
}

/// The text of a type tag: a keyword for a primitive type, `vector<T>` for a
/// vector, and the text of the struct tag for a struct.
pub open spec fn type_tag_text(t: TypeTagView) -> Seq<char>
    decreases t, 0nat,
{
    match t {
        TypeTagView::Bool => "bool"@,
        TypeTagView::U8 => "u8"@,
        TypeTagView::U64 => "u64"@,
        TypeTagView::U128 => "u128"@,
        TypeTagView::Address => "address"@,
        TypeTagView::Signer => "signer"@,
        TypeTagView::Vector(e) => "vector<"@ + type_tag_text(*e) + ">"@,
        TypeTagView::Struct(s) => struct_tag_text(s),
    }
}

/// The text of a struct tag: `0x`, the address in base sixteen without
/// leading zeros, `::`, the module, `::`, the name and, where there are type
/// arguments, their texts between `<` and `>`, with commas between them.
pub open spec fn struct_tag_text(s: StructTagView) -> Seq<char>
    decreases s, 0nat,
{
    "0x"@ + hexadecimal(big_endian(s.address)) + "::"@ + s.module + "::"@ + s.name + (
    if s.type_params.len() == 0 {
        Seq::<char>::empty()
    } else {
        "<"@ + type_args_text(s.type_params, s.type_params.len()) + ">"@
    })
}

/// The texts of the first `n` type arguments, with commas between them.
pub open spec fn type_args_text(params: Seq<TypeTagView>, n: nat) -> Seq<char>
    decreases params, n,
{
    if n == 0 || n > params.len() {
        Seq::<char>::empty()
    } else if n == 1 {
        type_tag_text(params[0])
    } else {
        type_args_text(params, (n - 1) as nat) + ","@ + type_tag_text(params[n - 1])
    }
}

impl Clone for TypeTag {
    fn clone(&self) -> (r: TypeTag)
        ensures
            r@ == self@,
        decreases self,
    {
        match self {
            TypeTag::Bool => TypeTag::Bool,
            TypeTag::U8 => TypeTag::U8,
            TypeTag::U64 => TypeTag::U64,
            TypeTag::U128 => TypeTag::U128,
            TypeTag::Address => TypeTag::Address,
            TypeTag::Signer => TypeTag::Signer,
            TypeTag::Vector(t) => TypeTag::Vector(Box::new((**t).clone())),
            TypeTag::Struct(s) => TypeTag::Struct(s.clone()),
        }
    }
}

impl Clone for StructTag {
    fn clone(&self) -> (r: StructTag)
        ensures
            r@ == self@,
        decreases self,
    {
        let mut params: Vec<TypeTag> = Vec::new();
        let mut i: usize = 0;
        while i < self.type_params.len()
            invariant
                i <= self.type_params.len(),
                params.len() == i,
                forall|j: int| 0 <= j < i ==> params[j]@ == self.type_params[j]@,
                decreases_to!(self => self.type_params),
            decreases self.type_params.len() - i,
        {
            params.push(self.type_params[i].clone());
            i += 1;
        }
        let r = StructTag {
            address: self.address,
            module: self.module.clone(),
            name: self.name.clone(),
            type_params: params,
        };
        assert(r@.type_params =~= self@.type_params);
        r
    }
}

impl TypeTag {
    /// Appends the text of this tag.
    pub fn push_text(&self, out: &mut String)
        ensures
            final(out)@ == old(out)@ + type_tag_text(self@),
        decreases self, 0nat,
    {
        match self {
            TypeTag::Bool => push_str(out, "bool"),
            TypeTag::U8 => push_str(out, "u8"),
            TypeTag::U64 => push_str(out, "u64"),
            TypeTag::U128 => push_str(out, "u128"),
            TypeTag::Address => push_str(out, "address"),
            TypeTag::Signer => push_str(out, "signer"),
            TypeTag::Vector(t) => {
                push_str(out, "vector<");
                t.push_text(out);
                push_str(out, ">");
            },
            TypeTag::Struct(s) => s.push_text(out),
        }
    }

    /// The text of this tag.
    pub fn to_string(&self) -> (r: String)
        ensures
            r@ == type_tag_text(self@),
    {
        let mut out = String::new();
        self.push_text(&mut out);
        out
    }
}

impl StructTag {
    /// Appends the text of this tag.
    pub fn push_text(&self, out: &mut String)
        ensures
            final(out)@ == old(out)@ + struct_tag_text(self@),
        decreases self, 0nat,
    {
        let ghost start = out@;
        push_str(out, "0x");
        let hex = self.address.short_hex();
        push_str(out, hex.as_str());
        push_str(out, "::");
        push_str(out, self.module.as_str());
        push_str(out, "::");
        push_str(out, self.name.as_str());
        let ghost head = start + "0x"@ + hexadecimal(big_endian(self@.address)) + "::"@
            + self@.module + "::"@ + self@.name;
        let n = self.type_params.len();
        if n > 0 {
            push_str(out, "<");
            let mut i: usize = 0;
            while i < n
                invariant
                    i <= n,
                    n == self.type_params.len(),
                    n == self@.type_params.len(),
                    out@ == head + "<"@ + type_args_text(self@.type_params, i as nat),
                    decreases_to!(self => self.type_params),
                decreases n - i,
            {
                if i > 0 {
                    push_str(out, ",");
                }
                self.type_params[i].push_text(out);
                i += 1;
            }
            push_str(out, ">");
        }
    }

    /// The text of this tag.
    pub fn to_string(&self) -> (r: String)
        ensures
            r@ == struct_tag_text(self@),
    {
        let mut out = String::new();
        self.push_text(&mut out);
        out
    }
}

} // verus!
