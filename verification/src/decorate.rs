//! Decoration: giving a bare value the field names and type tags of a layout.

use crate::identifier::Identifier;
use crate::value::{
    Decoration, MoveFieldLayout, MoveStruct, MoveStructLayout, MoveStructLayoutView,
    MoveStructView, MoveTypeLayout, MoveTypeLayoutView, MoveValue, MoveValueView,
};
use vstd::prelude::*;

verus! {

/// The smaller of two lengths.
pub open spec fn shorter(a: nat, b: nat) -> nat {
    if a <= b {
        a
    } else {
        b
    }
}

/// A value decorated against a layout. A struct is decorated against a struct
/// layout, each element of a vector against the element layout of a vector
/// layout; any other pair leaves the value as it is.
pub open spec fn decorated(v: MoveValueView, l: MoveTypeLayoutView) -> MoveValueView
    decreases v, 0nat,
{
    match (v, l) {
        (MoveValueView::Struct(s), MoveTypeLayoutView::Struct(sl)) => MoveValueView::Struct(
            decorated_struct(s, sl),
        ),
        (MoveValueView::Vector(vs), MoveTypeLayoutView::Vector(t)) => MoveValueView::Vector(
            Seq::new(
                vs.len(),
                |i: int|
                    if 0 <= i < vs.len() {
                        decorated(vs[i], *t)
                    } else {
                        MoveValueView::Bool(false)
                    },
            ),
        ),
        _ => v,
    }
}

/// The first values of `values`, each decorated against the layout at its
/// position: as many as the shorter of the two sequences has.
pub open spec fn decorated_fields(
    values: Seq<MoveValueView>,
    layouts: Seq<MoveTypeLayoutView>,
) -> Seq<MoveValueView>
    decreases values, 0nat,
{
    Seq::new(
        shorter(values.len(), layouts.len()),
        |i: int|
            if 0 <= i < values.len() && i < layouts.len() {
                decorated(values[i], layouts[i])
            } else {
                MoveValueView::Bool(false)
            },
    )
}

/// A struct decorated against a struct layout.
///
/// A bare struct takes the decoration and the names of a layout that has
/// names. A field-named struct keeps its names and takes the type tag of a
/// fully typed layout. In both cases the values are decorated against the
/// field layouts, position by position, as far as the shorter of the two
/// goes. Any other pair leaves the struct as it is.
pub open spec fn decorated_struct(s: MoveStructView, l: MoveStructLayoutView) -> MoveStructView
    decreases s, 1nat,
{
    let n = shorter(s.values.len(), l.layouts.len());
    if s.decoration is Runtime && !(l.decoration is Runtime) {
        MoveStructView {
            decoration: l.decoration,
            names: l.names.take(n as int),
            values: decorated_fields(s.values, l.layouts),
        }
    } else if s.decoration is WithFields && l.decoration is WithTypes {
        MoveStructView {
            decoration: l.decoration,
            names: s.names.take(n as int),
            values: decorated_fields(s.values, l.layouts),
        }
    } else {
        s
    }
}

/// A fully typed struct is left as it is by every layout.
pub proof fn lemma_fully_typed_unchanged(s: MoveStructView, l: MoveStructLayoutView)
    requires
        s.decoration is WithTypes,
    ensures
        decorated_struct(s, l) == s,
{
}

/// A bare struct of as many values as a field-named layout has fields
/// becomes a field-named struct: its names are those of the layout, in
/// order, and its value at each position is the value at that position
/// decorated against the layout at that position, which is the value itself
/// where it is neither a struct nor a vector.
pub proof fn lemma_bare_takes_names(s: MoveStructView, l: MoveStructLayoutView)
    requires
        s.decoration is Runtime,
        l.decoration is WithFields,
        l.well_formed(),
        s.values.len() == l.layouts.len(),
    ensures
        decorated_struct(s, l).decoration is WithFields,
        decorated_struct(s, l).names == l.names,
        decorated_struct(s, l).values.len() == s.values.len(),
        forall|i: int|
            0 <= i < s.values.len() ==> #[trigger] decorated_struct(s, l).values[i] == decorated(
                s.values[i],
                l.layouts[i],
            ),
        forall|i: int|
            0 <= i < s.values.len() && !(s.values[i] is Struct) && !(s.values[i] is Vector)
                ==> #[trigger] decorated_struct(s, l).values[i] == s.values[i],
{
}

/// Decorating twice against one layout is decorating once.
pub proof fn lemma_decorated_idempotent(v: MoveValueView, l: MoveTypeLayoutView)
    ensures
        decorated(decorated(v, l), l) == decorated(v, l),
    decreases v, 0nat,
{
    match (v, l) {
        (MoveValueView::Struct(s), MoveTypeLayoutView::Struct(sl)) => {
            lemma_decorated_struct_idempotent(s, sl);
        },
        (MoveValueView::Vector(vs), MoveTypeLayoutView::Vector(t)) => {
            let once = decorated(v, l)->Vector_0;
            let twice = decorated(decorated(v, l), l)->Vector_0;
            assert forall|i: int| 0 <= i < vs.len() implies twice[i] == once[i] by {
                lemma_decorated_idempotent(vs[i], *t);
            }
            assert(twice =~= once);
        },
        _ => {},
    }
}

/// Decorating a struct twice against one layout is decorating it once.
pub proof fn lemma_decorated_struct_idempotent(s: MoveStructView, l: MoveStructLayoutView)
    ensures
        decorated_struct(decorated_struct(s, l), l) == decorated_struct(s, l),
{
}

impl MoveValue {
    /// This value, decorated against `layout`.
    pub fn decorate(self, layout: &MoveTypeLayout) -> (r: MoveValue)
        ensures
            r@ == decorated(self@, layout@),
        decreases self, 0nat,
    {
        match self {
            MoveValue::Struct(s) => match layout {
                MoveTypeLayout::Struct(l) => MoveValue::Struct(s.decorate(l)),
                _ => MoveValue::Struct(s),
            },
            MoveValue::Vector(vals) => match layout {
                MoveTypeLayout::Vector(t) => {
                    let ghost before = vals@;
                    let mut out: Vec<MoveValue> = Vec::new();
                    for v in it: vals
                        invariant
                            it.seq() == before,
                            out.len() == it.index(),
                            forall|j: int|
                                0 <= j < it.index() ==> out[j]@ == decorated(before[j]@, t@),
                            decreases_to!(self => before),
                    {
                        out.push(v.decorate(t));
                    }
                    let r = MoveValue::Vector(out);
                    assert(r@->Vector_0 =~= decorated(self@, layout@)->Vector_0);
                    r
                },
                _ => MoveValue::Vector(vals),
            },
            v => v,
        }
    }
}

impl MoveStruct {
    /// This struct, decorated against `layout`.
    pub fn decorate(self, layout: &MoveStructLayout) -> (r: MoveStruct)
        ensures
            r@ == decorated_struct(self@, layout@),
        decreases self, 1nat,
    {
        match self {
            MoveStruct::Runtime(vals) => match layout {
                MoveStructLayout::WithFields(layouts) => {
                    let fields = name_fields(vals, layouts, Ghost(self));
                    let r = MoveStruct::WithFields(fields);
                    proof {
                        let want = decorated_struct(self@, layout@);
                        assert(r@.names =~= want.names);
                        assert(r@.values =~= want.values);
                    }
                    r
                },
                MoveStructLayout::WithTypes { type_, fields: layouts } => {
                    let fields = name_fields(vals, layouts, Ghost(self));
                    let r = MoveStruct::WithTypes { type_: type_.clone(), fields };
                    proof {
                        let want = decorated_struct(self@, layout@);
                        assert(r@.names =~= want.names);
                        assert(r@.values =~= want.values);
                    }
                    r
                },
                _ => MoveStruct::Runtime(vals),
            },
            MoveStruct::WithFields(vals) => match layout {
                MoveStructLayout::WithTypes { type_, fields: layouts } => {
                    let fields = decorate_named(vals, layouts, Ghost(self));
                    let r = MoveStruct::WithTypes { type_: type_.clone(), fields };
                    proof {
                        let want = decorated_struct(self@, layout@);
                        assert(r@.names =~= want.names);
                        assert(r@.values =~= want.values);
                    }
                    r
                },
                _ => MoveStruct::WithFields(vals),
            },
            v => v,
        }
    }
}

/// Pairs each value with the name of the field layout at its position and
/// decorates it against that layout, as far as the shorter of the two goes.
fn name_fields(
    vals: Vec<MoveValue>,
    layouts: &Vec<MoveFieldLayout>,
    Ghost(whole): Ghost<MoveStruct>,
) -> (r: Vec<(Identifier, MoveValue)>)
    requires
        decreases_to!(whole => vals@),
    ensures
        r.len() == shorter(vals.len() as nat, layouts.len() as nat),
        forall|j: int|
            0 <= j < r.len() ==> (#[trigger] r[j]).0@ == layouts[j].name@ && r[j].1@ == decorated(
                vals[j]@,
                layouts[j].layout@,
            ),
    decreases whole, 0nat,
{
    let ghost before = vals@;
    let n = vals.len();
    let mut out: Vec<(Identifier, MoveValue)> = Vec::new();
    let mut i: usize = 0;
    for v in it: vals
        invariant
            it.seq() == before,
            i == it.index(),
            before.len() == n,
            out.len() == shorter(i as nat, layouts.len() as nat),
            forall|j: int|
                0 <= j < out.len() ==> (#[trigger] out[j]).0@ == layouts[j].name@ && out[j].1@
                    == decorated(before[j]@, layouts[j].layout@),
            decreases_to!(whole => before),
    {
        if i < layouts.len() {
            let name = layouts[i].name.clone();
            let value = v.decorate(&layouts[i].layout);
            out.push((name, value));
        }
        i += 1;
    }
    out
}

/// Decorates each named value against the field layout at its position and
/// keeps its name, as far as the shorter of the two goes.
fn decorate_named(
    vals: Vec<(Identifier, MoveValue)>,
    layouts: &Vec<MoveFieldLayout>,
    Ghost(whole): Ghost<MoveStruct>,
) -> (r: Vec<(Identifier, MoveValue)>)
    requires
        decreases_to!(whole => vals@),
    ensures
        r.len() == shorter(vals.len() as nat, layouts.len() as nat),
        forall|j: int|
            0 <= j < r.len() ==> (#[trigger] r[j]).0@ == vals[j].0@ && r[j].1@ == decorated(
                vals[j].1@,
                layouts[j].layout@,
            ),
    decreases whole, 0nat,
{
    let ghost before = vals@;
    let n = vals.len();
    let mut out: Vec<(Identifier, MoveValue)> = Vec::new();
    let mut i: usize = 0;
    for pair in it: vals
        invariant
            it.seq() == before,
            i == it.index(),
            before.len() == n,
            out.len() == shorter(i as nat, layouts.len() as nat),
            forall|j: int|
                0 <= j < out.len() ==> (#[trigger] out[j]).0@ == before[j].0@ && out[j].1@
                    == decorated(before[j].1@, layouts[j].layout@),
            decreases_to!(whole => before),
    {
        if i < layouts.len() {
            let (name, v) = pair;
            let value = v.decorate(&layouts[i].layout);
            out.push((name, value));
        }
        i += 1;
    }
    out
}

} // verus!
