//! Writing a value in its canonical binary form.

use crate::endian::{le_bytes, write_u128, write_u64};
use crate::identifier::Identifier;
use crate::uleb128::{push_uleb128, uleb128, MAX_SEQUENCE_LENGTH};
use crate::value::{values_of, views_of, MoveStruct, MoveValue, MoveValueView};
use vstd::pervasive::unreached;
use vstd::prelude::*;

verus! {

/// The canonical binary form of a value.
///
/// A boolean is one byte, zero or one. A `u8` is one byte, a `u64` eight and
/// a `u128` sixteen, the least significant first. An address and a signer
/// are their bytes. A vector is its length and then its elements. A struct
/// is its fields in order and nothing else: names and type tag are not
/// written.
pub open spec fn encoding(v: MoveValueView) -> Seq<u8>
    decreases v, 0nat,
{
    match v {
        MoveValueView::U8(x) => seq![x],
        MoveValueView::U64(x) => le_bytes(x as nat, 8),
        MoveValueView::U128(x) => le_bytes(x as nat, 16),
        MoveValueView::Bool(b) => seq![if b { 1u8 } else { 0u8 }],
        MoveValueView::Address(a) => a,
        MoveValueView::Signer(a) => a,
        MoveValueView::Vector(vs) => uleb128(vs.len()) + encoding_from(vs, 0),
        MoveValueView::Struct(s) => encoding_from(s.values, 0),
    }
}

/// The canonical binary forms of the values from position `i` on, one after
/// the other.
pub open spec fn encoding_from(values: Seq<MoveValueView>, i: nat) -> Seq<u8>
    decreases values, values.len() - i,
{
    if i >= values.len() {
        Seq::empty()
    } else {
        encoding(values[i as int]) + encoding_from(values, i + 1)
    }
}

/// Whether a value has a canonical binary form: no vector in it is longer
/// than `MAX_SEQUENCE_LENGTH`.
pub open spec fn encodable(v: MoveValueView) -> bool
    decreases v,
{
    match v {
        MoveValueView::Vector(vs) => vs.len() <= MAX_SEQUENCE_LENGTH && forall|i: int|
            0 <= i < vs.len() ==> encodable(#[trigger] vs[i]),
        MoveValueView::Struct(s) => forall|i: int|
            0 <= i < s.values.len() ==> encodable(#[trigger] s.values[i]),
        _ => true,
    }
}

impl MoveValue {
    /// Appends the canonical binary form of this value, and says whether the
    /// value has one. Where it has none, what was appended means nothing.
    pub fn write(&self, out: &mut Vec<u8>) -> (ok: bool)
        ensures
            ok == encodable(self@),
            ok ==> final(out)@ == old(out)@ + encoding(self@),
        decreases self, 1nat,
    {
        match self {
            MoveValue::U8(x) => {
                out.push(*x);
                true
            },
            MoveValue::U64(x) => {
                write_u64(out, *x);
                true
            },
            MoveValue::U128(x) => {
                write_u128(out, *x);
                true
            },
            MoveValue::Bool(b) => {
                out.push(if *b { 1 } else { 0 });
                true
            },
            MoveValue::Address(a) => {
                let mut bytes = a.to_vec();
                out.append(&mut bytes);
                true
            },
            MoveValue::Signer(a) => {
                let mut bytes = a.to_vec();
                out.append(&mut bytes);
                true
            },
            MoveValue::Vector(vals) => {
                let n = vals.len();
                if n > MAX_SEQUENCE_LENGTH {
                    return false;
                }
                push_uleb128(out, n);
                let ghost views = self@->Vector_0;
                let ghost start = old(out)@ + uleb128(n as nat);
                let mut i: usize = 0;
                while i < n
                    invariant
                        i <= n,
                        n == vals.len(),
                        n <= MAX_SEQUENCE_LENGTH,
                        views == self@->Vector_0,
                        self@ is Vector,
                        views.len() == n,
                        forall|j: int| 0 <= j < n ==> views[j] == vals[j]@,
                        forall|j: int| 0 <= j < i ==> encodable(#[trigger] views[j]),
                        out@ + encoding_from(views, i as nat) == start + encoding_from(views, 0),
                        decreases_to!(self => vals),
                    decreases n - i,
                {
                    if !vals[i].write(out) {
                        return false;
                    }
                    i += 1;
                }
                true
            },
            MoveValue::Struct(s) => s.write(out),
        }
    }

    /// The canonical binary form of this value, if it has one.
    pub fn simple_serialize(&self) -> (r: Option<Vec<u8>>)
        ensures
            r is Some <==> encodable(self@),
            r is Some ==> r->Some_0@ == encoding(self@),
    {
        let mut out: Vec<u8> = Vec::new();
        if self.write(&mut out) {
            Some(out)
        } else {
            None
        }
    }
}

impl MoveStruct {
    /// Appends the canonical binary form of this struct, and says whether the
    /// struct has one. Where it has none, what was appended means nothing.
    pub fn write(&self, out: &mut Vec<u8>) -> (ok: bool)
        ensures
            ok == encodable(MoveValueView::Struct(self@)),
            ok ==> final(out)@ == old(out)@ + encoding(MoveValueView::Struct(self@)),
        decreases self, 1nat,
    {
        match self {
            MoveStruct::Runtime(vals) => {
                assert(self@.values =~= views_of(vals@));
                write_values(vals, out, Ghost(*self))
            },
            MoveStruct::WithFields(fields) => {
                assert(self@.values =~= values_of(fields@));
                write_named_values(fields, out, Ghost(*self))
            },
            MoveStruct::WithTypes { type_, fields } => {
                assert(self@.values =~= values_of(fields@));
                write_named_values(fields, out, Ghost(*self))
            },
        }
    }

    /// The canonical binary form of this struct, if it has one.
    pub fn simple_serialize(&self) -> (r: Option<Vec<u8>>)
        ensures
            r is Some <==> encodable(MoveValueView::Struct(self@)),
            r is Some ==> r->Some_0@ == encoding(MoveValueView::Struct(self@)),
    {
        let mut out: Vec<u8> = Vec::new();
        if self.write(&mut out) {
            Some(out)
        } else {
            None
        }
    }
}

/// Appends the canonical binary forms of `vals`, in order.
fn write_values(vals: &Vec<MoveValue>, out: &mut Vec<u8>, Ghost(whole): Ghost<MoveStruct>) -> (ok:
    bool)
    requires
        decreases_to!(whole => vals),
    ensures
        ok == (forall|j: int| 0 <= j < vals.len() ==> encodable(#[trigger] views_of(vals@)[j])),
        ok ==> final(out)@ == old(out)@ + encoding_from(views_of(vals@), 0),
    decreases whole, 0nat,
{
    let n = vals.len();
    let ghost views = views_of(vals@);
    let mut i: usize = 0;
    while i < n
        invariant
            i <= n,
            n == vals.len(),
            views == views_of(vals@),
            forall|j: int| 0 <= j < i ==> encodable(#[trigger] views[j]),
            out@ + encoding_from(views, i as nat) == old(out)@ + encoding_from(views, 0),
            decreases_to!(whole => vals),
        decreases n - i,
    {
        if !vals[i].write(out) {
            return false;
        }
        i += 1;
    }
    true
}

/// Appends the canonical binary forms of the values of `fields`, in order.
fn write_named_values(
    fields: &Vec<(Identifier, MoveValue)>,
    out: &mut Vec<u8>,
    Ghost(whole): Ghost<MoveStruct>,
) -> (ok: bool)
    requires
        decreases_to!(whole => fields),
    ensures
        ok == (forall|j: int| 0 <= j < fields.len() ==> encodable(#[trigger] values_of(fields@)[j])),
        ok ==> final(out)@ == old(out)@ + encoding_from(values_of(fields@), 0),
    decreases whole, 0nat,
{
    let n = fields.len();
    let ghost views = values_of(fields@);
    let mut i: usize = 0;
    while i < n
        invariant
            i <= n,
            n == fields.len(),
            views == values_of(fields@),
            forall|j: int| 0 <= j < i ==> encodable(#[trigger] views[j]),
            out@ + encoding_from(views, i as nat) == old(out)@ + encoding_from(views, 0),
            decreases_to!(whole => fields),
        decreases n - i,
    {
        if !fields[i].1.write(out) {
            return false;
        }
        i += 1;
    }
    true
}

/// The canonical binary form of each value, in order.
pub fn serialize_values(vals: &[MoveValue]) -> (r: Vec<Vec<u8>>)
    requires
        forall|i: int| 0 <= i < vals@.len() ==> encodable(#[trigger] vals@[i]@),
    ensures
        r@.len() == vals@.len(),
        forall|i: int| 0 <= i < vals@.len() ==> (#[trigger] r@[i])@ == encoding(vals@[i]@),
{
    let mut out: Vec<Vec<u8>> = Vec::new();
    let mut i: usize = 0;
    while i < vals.len()
        invariant
            i <= vals@.len(),
            out@.len() == i,
            forall|j: int| 0 <= j < vals@.len() ==> encodable(#[trigger] vals@[j]@),
            forall|j: int| 0 <= j < i ==> (#[trigger] out@[j])@ == encoding(vals@[j]@),
        decreases vals@.len() - i,
    {
        match vals[i].simple_serialize() {
            Some(bytes) => out.push(bytes),
            None => unreached(),
        }
        i += 1;
    }
    out
}

} // verus!
