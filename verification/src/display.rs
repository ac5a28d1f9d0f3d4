//! Layouts as text.

use crate::language_storage::struct_tag_text;
use crate::text::{decimal, push_decimal, push_str};
use crate::value::{
    layout_names_of, layout_views_of, layouts_of, Decoration, MoveFieldLayout, MoveStructLayout,
    MoveStructLayoutView, MoveTypeLayout, MoveTypeLayoutView,
};
use vstd::prelude::*;

verus! {

/// The text of a layout: a keyword for a primitive layout, `vector<T>` for a
/// vector of `T`, and the text of the struct layout for a struct.
pub open spec fn layout_text(l: MoveTypeLayoutView) -> Seq<char>
    decreases l, 0nat,
{
    match l {
        MoveTypeLayoutView::Bool => "bool"@,
        MoveTypeLayoutView::U8 => "u8"@,
        MoveTypeLayoutView::U64 => "u64"@,
        MoveTypeLayoutView::U128 => "u128"@,
        MoveTypeLayoutView::Address => "address"@,
        MoveTypeLayoutView::Vector(t) => "vector<"@ + layout_text(*t) + ">"@,
        MoveTypeLayoutView::Struct(s) => struct_layout_text(s),
        MoveTypeLayoutView::Signer => "signer"@,
    }
}

/// The text of a field: its name, a colon and the text of its layout.
pub open spec fn field_text(name: Seq<char>, l: MoveTypeLayoutView) -> Seq<char>
    decreases l, 1nat,
{
    name + ": "@ + layout_text(l)
}

/// The text of a struct layout, between `{ ` and `}`. The fields of a bare
/// layout are written with their positions, those of another with their
/// names, each followed by a comma and a space. Before the fields of a fully
/// typed layout stand `Type: `, the text of the type tag, and `Fields:`.
pub open spec fn struct_layout_text(s: MoveStructLayoutView) -> Seq<char>
    decreases s, 0nat,
{
    "{ "@ + (match s.decoration {
        Decoration::Runtime => positional_text(s.layouts, s.layouts.len()),
        Decoration::WithFields => named_text(s.names, s.layouts, s.layouts.len()),
        Decoration::WithTypes(tag) => "Type: "@ + struct_tag_text(tag) + "Fields:"@ + named_text(
            s.names,
            s.layouts,
            s.layouts.len(),
        ),
    }) + "}"@
}

/// The texts of the first `n` fields of a bare layout.
pub open spec fn positional_text(layouts: Seq<MoveTypeLayoutView>, n: nat) -> Seq<char>
    decreases layouts, n,
{
    if n == 0 || n > layouts.len() {
        Seq::empty()
    } else {
        positional_text(layouts, (n - 1) as nat) + decimal((n - 1) as nat) + ": "@ + layout_text(
            layouts[n - 1],
        ) + ", "@
    }
}

/// The texts of the first `n` fields of a layout that has names.
pub open spec fn named_text(
    names: Seq<Seq<char>>,
    layouts: Seq<MoveTypeLayoutView>,
    n: nat,
) -> Seq<char>
    decreases layouts, n,
{
    if n == 0 || n > layouts.len() {
        Seq::empty()
    } else {
        named_text(names, layouts, (n - 1) as nat) + field_text(names[n - 1], layouts[n - 1])
            + ", "@
    }
}

impl MoveFieldLayout {
    /// Appends the text of this field.
    pub fn push_text(&self, out: &mut String)
        ensures
            final(out)@ == old(out)@ + field_text(self.name@, self.layout@),
        decreases self, 0nat,
    {
        push_str(out, self.name.as_str());
        push_str(out, ": ");
        self.layout.push_text(out);
    }

    /// The text of this field.
    pub fn to_string(&self) -> (r: String)
        ensures
            r@ == field_text(self.name@, self.layout@),
    {
        let mut out = String::new();
        self.push_text(&mut out);
        out
    }
}

impl MoveTypeLayout {
    /// Appends the text of this layout.
    pub fn push_text(&self, out: &mut String)
        ensures
            final(out)@ == old(out)@ + layout_text(self@),
        decreases self, 0nat,
    {
        match self {
            MoveTypeLayout::Bool => push_str(out, "bool"),
            MoveTypeLayout::U8 => push_str(out, "u8"),
            MoveTypeLayout::U64 => push_str(out, "u64"),
            MoveTypeLayout::U128 => push_str(out, "u128"),
            MoveTypeLayout::Address => push_str(out, "address"),
            MoveTypeLayout::Vector(t) => {
                push_str(out, "vector<");
                t.push_text(out);
                push_str(out, ">");
            },
            MoveTypeLayout::Struct(s) => s.push_text(out),
            MoveTypeLayout::Signer => push_str(out, "signer"),
        }
    }

    /// The text of this layout.
    pub fn to_string(&self) -> (r: String)
        ensures
            r@ == layout_text(self@),
    {
        let mut out = String::new();
        self.push_text(&mut out);
        out
    }
}

impl MoveStructLayout {
    /// Appends the text of this layout.
    pub fn push_text(&self, out: &mut String)
        ensures
            final(out)@ == old(out)@ + struct_layout_text(self@),
        decreases self, 1nat,
    {
        let ghost start = out@;
        push_str(out, "{ ");
        match self {
            MoveStructLayout::Runtime(layouts) => {
                let ghost shapes = layout_views_of(layouts@);
                assert(self@.layouts =~= shapes);
                let n = layouts.len();
                let mut i: usize = 0;
                while i < n
                    invariant
                        i <= n,
                        n == layouts.len(),
                        shapes == layout_views_of(layouts@),
                        out@ == start + "{ "@ + positional_text(shapes, i as nat),
                        decreases_to!(self => layouts),
                    decreases n - i,
                {
                    push_decimal(out, i);
                    push_str(out, ": ");
                    layouts[i].push_text(out);
                    push_str(out, ", ");
                    i += 1;
                }
                push_str(out, "}");
            },
            MoveStructLayout::WithFields(fields) => {
                assert(self@.layouts =~= layouts_of(fields@));
                push_named_text(fields, out, Ghost(*self));
                push_str(out, "}");
            },
            MoveStructLayout::WithTypes { type_, fields } => {
                assert(self@.layouts =~= layouts_of(fields@));
                push_str(out, "Type: ");
                type_.push_text(out);
                push_str(out, "Fields:");
                push_named_text(fields, out, Ghost(*self));
                push_str(out, "}");
            },
        }
    }

    /// The text of this layout.
    pub fn to_string(&self) -> (r: String)
        ensures
            r@ == struct_layout_text(self@),
    {
        let mut out = String::new();
        self.push_text(&mut out);
        out
    }
}

/// Appends the text of each field, followed by a comma and a space.
fn push_named_text(
    fields: &Vec<MoveFieldLayout>,
    out: &mut String,
    Ghost(whole): Ghost<MoveStructLayout>,
)
    requires
        decreases_to!(whole => fields),
    ensures
        final(out)@ == old(out)@ + named_text(
            layout_names_of(fields@),
            layouts_of(fields@),
            fields.len() as nat,
        ),
    decreases whole, 0nat,
{
    let ghost names = layout_names_of(fields@);
    let ghost shapes = layouts_of(fields@);
    let n = fields.len();
    let mut i: usize = 0;
    while i < n
        invariant
            i <= n,
            n == fields.len(),
            names == layout_names_of(fields@),
            shapes == layouts_of(fields@),
            out@ == old(out)@ + named_text(names, shapes, i as nat),
            decreases_to!(whole => fields),
        decreases n - i,
    {
        fields[i].push_text(out);
        push_str(out, ", ");
        i += 1;
    }
}

} // verus!
