//! Reading a value from its canonical binary form. The layout decides how
//! the bytes are read: the bytes carry no type, no field name and no length
//! but that of a vector.

use crate::account_address::{AccountAddress, ADDRESS_LENGTH};
use crate::endian::{le_value, read_u128, read_u64};
use crate::errors::DecodeError;
use crate::identifier::Identifier;
use crate::uleb128::{parse_length, parsed_length};
use crate::value::{
    layout_names_of, layout_views_of, layouts_of, names_of, values_of, views_of,
    MoveFieldLayout, MoveStruct, MoveStructLayout, MoveStructLayoutView, MoveStructView,
    MoveTypeLayout, MoveTypeLayoutView, MoveValue, MoveValueView,
};
use vstd::pervasive::unreached;
use vstd::prelude::*;
use vstd::slice::slice_subrange;

verus! {

/// What a run of values was read as: the values and the number of bytes that
/// they took.
pub type Run = Result<(Seq<MoveValueView>, nat), DecodeError>;

/// Reading one value of layout `layout` at the start of `bytes`: the value
/// and the number of bytes that it took, or why there is none.
///
/// A boolean is one byte, zero or one. A `u8` is one byte, a `u64` eight and
/// a `u128` sixteen, the least significant first. An address and a signer
/// are `ADDRESS_LENGTH` bytes. A vector is its length and then that many elements. A
/// struct is its fields in order, and takes decoration and names from the
/// layout.
pub open spec fn parsed(bytes: Seq<u8>, layout: MoveTypeLayoutView) -> Result<
    (MoveValueView, nat),
    DecodeError,
>
    decreases layout, 0nat, 0nat,
{
    match layout {
        MoveTypeLayoutView::Bool => if bytes.len() < 1 {
            Err(DecodeError::UnexpectedEof)
        } else if bytes[0] == 0 {
            Ok((MoveValueView::Bool(false), 1))
        } else if bytes[0] == 1 {
            Ok((MoveValueView::Bool(true), 1))
        } else {
            Err(DecodeError::ExpectedBoolean)
        },
        MoveTypeLayoutView::U8 => if bytes.len() < 1 {
            Err(DecodeError::UnexpectedEof)
        } else {
            Ok((MoveValueView::U8(bytes[0]), 1))
        },
        MoveTypeLayoutView::U64 => if bytes.len() < 8 {
            Err(DecodeError::UnexpectedEof)
        } else {
            Ok((MoveValueView::U64(le_value(bytes.take(8)) as u64), 8))
        },
        MoveTypeLayoutView::U128 => if bytes.len() < 16 {
            Err(DecodeError::UnexpectedEof)
        } else {
            Ok((MoveValueView::U128(le_value(bytes.take(16)) as u128), 16))
        },
        MoveTypeLayoutView::Address => if bytes.len() < ADDRESS_LENGTH {
            Err(DecodeError::UnexpectedEof)
        } else {
            Ok((MoveValueView::Address(bytes.take(ADDRESS_LENGTH as int)), ADDRESS_LENGTH as nat))
        },
        MoveTypeLayoutView::Signer => if bytes.len() < ADDRESS_LENGTH {
            Err(DecodeError::UnexpectedEof)
        } else {
            Ok((MoveValueView::Signer(bytes.take(ADDRESS_LENGTH as int)), ADDRESS_LENGTH as nat))
        },
        MoveTypeLayoutView::Vector(t) => match parsed_length(bytes) {
            Err(e) => Err(e),
            Ok((n, k)) => match parsed_elements(bytes.skip(k as int), *t, n) {
                Err(e) => Err(e),
                Ok((values, m)) => Ok((MoveValueView::Vector(values), k + m)),
            },
        },
        MoveTypeLayoutView::Struct(s) => match parsed_fields(bytes, s.layouts, 0) {
            Err(e) => Err(e),
            Ok((values, m)) => Ok(
                (
                    MoveValueView::Struct(
                        MoveStructView { decoration: s.decoration, names: s.names, values },
                    ),
                    m,
                ),
            ),
        },
    }
}

/// Reading `n` values of layout `layout`, one after the other.
pub open spec fn parsed_elements(bytes: Seq<u8>, layout: MoveTypeLayoutView, n: nat) -> Run
    decreases layout, 1nat, n,
{
    if n == 0 {
        Ok((Seq::empty(), 0))
    } else {
        match parsed(bytes, layout) {
            Err(e) => Err(e),
            Ok((v, k)) => after(seq![v], k, parsed_elements(bytes.skip(k as int), layout, (n - 1) as nat)),
        }
    }
}

/// Reading the fields of a struct from the one at position `i` on, one value
/// for each layout.
///
/// Where no input is left for the field at position `i`, and that field
/// cannot be read from nothing, the field is missing and the error names `i`.
/// Any other failure of a field is the failure of the struct.
pub open spec fn parsed_fields(bytes: Seq<u8>, layouts: Seq<MoveTypeLayoutView>, i: nat) -> Run
    decreases layouts, 1nat, layouts.len() - i,
{
    if i >= layouts.len() {
        Ok((Seq::empty(), 0))
    } else {
        match parsed(bytes, layouts[i as int]) {
            Err(e) => if bytes.len() == 0 {
                Err(DecodeError::InvalidLength(i as usize))
            } else {
                Err(e)
            },
            Ok((v, k)) => after(seq![v], k, parsed_fields(bytes.skip(k as int), layouts, i + 1)),
        }
    }
}

/// A run that follows values already read, which took `used` bytes.
pub open spec fn after(values: Seq<MoveValueView>, used: nat, rest: Run) -> Run {
    match rest {
        Err(e) => Err(e),
        Ok((more, m)) => Ok((values + more, used + m)),
    }
}

/// Reading a struct of layout `layout` at the start of `bytes`.
pub open spec fn parsed_struct(bytes: Seq<u8>, layout: MoveStructLayoutView) -> Result<
    (MoveStructView, nat),
    DecodeError,
> {
    match parsed_fields(bytes, layout.layouts, 0) {
        Err(e) => Err(e),
        Ok((values, m)) => Ok(
            (MoveStructView { decoration: layout.decoration, names: layout.names, values }, m),
        ),
    }
}

/// Reading a whole input as one value: nothing may be left after it.
pub open spec fn parsed_whole(bytes: Seq<u8>, layout: MoveTypeLayoutView) -> Result<
    MoveValueView,
    DecodeError,
> {
    match parsed(bytes, layout) {
        Err(e) => Err(e),
        Ok((v, k)) => if k == bytes.len() {
            Ok(v)
        } else {
            Err(DecodeError::RemainingInput)
        },
    }
}

/// Reading a whole input as one struct: nothing may be left after it.
pub open spec fn parsed_whole_struct(
    bytes: Seq<u8>,
    layout: MoveStructLayoutView,
) -> Result<MoveStructView, DecodeError> {
    match parsed_struct(bytes, layout) {
        Err(e) => Err(e),
        Ok((s, k)) => if k == bytes.len() {
            Ok(s)
        } else {
            Err(DecodeError::RemainingInput)
        },
    }
}

/// One more value read joins those read before it.
pub proof fn lemma_after_after(
    values: Seq<MoveValueView>,
    used: nat,
    v: MoveValueView,
    k: nat,
    rest: Run,
)
    ensures
        after(values, used, after(seq![v], k, rest)) == after(values.push(v), used + k, rest),
{
    match rest {
        Err(e) => {},
        Ok((more, m)) => {
            assert(values + (seq![v] + more) =~= values.push(v) + more);
        },
    }
}

/// What is read takes no more bytes than there are.
pub proof fn lemma_parsed_within(bytes: Seq<u8>, layout: MoveTypeLayoutView)
    ensures
        parsed(bytes, layout) matches Ok((v, k)) ==> k <= bytes.len(),
    decreases layout, 0nat, 0nat,
{
    match layout {
        MoveTypeLayoutView::Vector(t) => {
            crate::uleb128::lemma_read_digits_bounds(bytes, 0);
            if let Ok((n, k)) = parsed_length(bytes) {
                lemma_parsed_elements_within(bytes.skip(k as int), *t, n);
            }
        },
        MoveTypeLayoutView::Struct(s) => {
            lemma_parsed_fields_within(bytes, s.layouts, 0);
        },
        _ => {},
    }
}

/// The elements that are read are as many as were asked for, and take no
/// more bytes than there are.
pub proof fn lemma_parsed_elements_within(bytes: Seq<u8>, layout: MoveTypeLayoutView, n: nat)
    ensures
        parsed_elements(bytes, layout, n) matches Ok((vs, k)) ==> k <= bytes.len() && vs.len()
            == n,
    decreases layout, 1nat, n,
{
    if n > 0 {
        lemma_parsed_within(bytes, layout);
        if let Ok((v, k)) = parsed(bytes, layout) {
            lemma_parsed_elements_within(bytes.skip(k as int), layout, (n - 1) as nat);
        }
    }
}

/// A struct that is read has one value for each field of its layout, from
/// position `i` on.
pub proof fn lemma_parsed_fields_within(bytes: Seq<u8>, layouts: Seq<MoveTypeLayoutView>, i: nat)
    ensures
        parsed_fields(bytes, layouts, i) matches Ok((vs, k)) ==> k <= bytes.len() && vs.len() == (
        if i <= layouts.len() {
            layouts.len() - i
        } else {
            0
        }),
    decreases layouts, 1nat, layouts.len() - i,
{
    if i < layouts.len() {
        lemma_parsed_within(bytes, layouts[i as int]);
        if let Ok((v, k)) = parsed(bytes, layouts[i as int]) {
            lemma_parsed_fields_within(bytes.skip(k as int), layouts, i + 1);
        }
    }
}

impl MoveTypeLayout {
    /// Reads one value of this layout from the bytes at `pos` on: the value
    /// and the position after it. Bytes after the value are left alone.
    pub(crate) fn read_at(&self, bytes: &[u8], pos: usize) -> (r: Result<
        (MoveValue, usize),
        DecodeError,
    >)
        requires
            pos <= bytes@.len(),
        ensures
            match parsed(bytes@.skip(pos as int), self@) {
                Ok((v, used)) => r is Ok && r->Ok_0.0@ == v && r->Ok_0.1 == pos + used && pos
                    + used <= bytes@.len(),
                Err(e) => r == Err::<(MoveValue, usize), DecodeError>(e),
            },
        decreases self, 1nat,
    {
        let total = bytes.len();
        let ghost input = bytes@.skip(pos as int);
        match self {
            MoveTypeLayout::Bool => {
                if total - pos < 1 {
                    return Err(DecodeError::UnexpectedEof);
                }
                let b = bytes[pos];
                if b == 0 {
                    Ok((MoveValue::Bool(false), pos + 1))
                } else if b == 1 {
                    Ok((MoveValue::Bool(true), pos + 1))
                } else {
                    Err(DecodeError::ExpectedBoolean)
                }
            },
            MoveTypeLayout::U8 => {
                if total - pos < 1 {
                    return Err(DecodeError::UnexpectedEof);
                }
                let b = bytes[pos];
                Ok((MoveValue::U8(b), pos + 1))
            },
            MoveTypeLayout::U64 => match read_u64(bytes, pos) {
                Err(e) => Err(e),
                Ok(x) => {
                    assert(bytes@.subrange(pos as int, pos + 8) =~= input.take(8));
                    Ok((MoveValue::U64(x), pos + 8))
                },
            },
            MoveTypeLayout::U128 => match read_u128(bytes, pos) {
                Err(e) => Err(e),
                Ok(x) => {
                    assert(bytes@.subrange(pos as int, pos + 16) =~= input.take(16));
                    Ok((MoveValue::U128(x), pos + 16))
                },
            },
            MoveTypeLayout::Address => match read_address(bytes, pos) {
                Err(e) => Err(e),
                Ok(a) => Ok((MoveValue::Address(a), pos + ADDRESS_LENGTH)),
            },
            MoveTypeLayout::Signer => match read_address(bytes, pos) {
                Err(e) => Err(e),
                Ok(a) => Ok((MoveValue::Signer(a), pos + ADDRESS_LENGTH)),
            },
            MoveTypeLayout::Vector(t) => match parse_length(bytes, pos) {
                Err(e) => Err(e),
                Ok((n, start)) => {
                    let ghost first = bytes@.skip(start as int);
                    let mut out: Vec<MoveValue> = Vec::new();
                    let mut cur: usize = start;
                    let mut i: usize = 0;
                    while i < n
                        invariant
                            i <= n,
                            start <= cur <= total,
                            total == bytes@.len(),
                            out.len() == i,
                            first == bytes@.skip(start as int),
                            pos <= start,
                            input == bytes@.skip(pos as int),
                            input.skip(start - pos) == first,
                            self@ == MoveTypeLayoutView::Vector(Box::new(t@)),
                            parsed_length(input) == Ok::<(nat, nat), DecodeError>(
                                (n as nat, (start - pos) as nat),
                            ),
                            parsed_elements(first, t@, n as nat) == after(
                                views_of(out@),
                                (cur - start) as nat,
                                parsed_elements(bytes@.skip(cur as int), t@, (n - i) as nat),
                            ),
                            decreases_to!(self => t),
                        decreases n - i,
                    {
                        match t.read_at(bytes, cur) {
                            Err(e) => {
                                return Err(e);
                            },
                            Ok((v, next)) => {
                                proof {
                                    let here = bytes@.skip(cur as int);
                                    assert(here.skip(next - cur) =~= bytes@.skip(next as int));
                                    lemma_after_after(
                                        views_of(out@),
                                        (cur - start) as nat,
                                        v@,
                                        (next - cur) as nat,
                                        parsed_elements(
                                            bytes@.skip(next as int),
                                            t@,
                                            (n - i - 1) as nat,
                                        ),
                                    );
                                    assert(views_of(out@.push(v)) =~= views_of(out@).push(v@));
                                }
                                out.push(v);
                                cur = next;
                                i += 1;
                            },
                        }
                    }
                    let r = MoveValue::Vector(out);
                    proof {
                        assert(r@->Vector_0 =~= views_of(out@));
                    }
                    Ok((r, cur))
                },
            },
            MoveTypeLayout::Struct(s) => match s.read_at(bytes, pos) {
                Err(e) => Err(e),
                Ok((value, next)) => Ok((MoveValue::Struct(value), next)),
            },
        }
    }
}

/// Reads an address from the bytes at `pos`.
fn read_address(bytes: &[u8], pos: usize) -> (r: Result<AccountAddress, DecodeError>)
    requires
        pos <= bytes@.len(),
    ensures
        bytes@.len() - pos < ADDRESS_LENGTH ==> r == Err::<AccountAddress, DecodeError>(
            DecodeError::UnexpectedEof,
        ),
        bytes@.len() - pos >= ADDRESS_LENGTH ==> r is Ok && r->Ok_0@ == bytes@.skip(
            pos as int,
        ).take(ADDRESS_LENGTH as int),
{
    if bytes.len() - pos < ADDRESS_LENGTH {
        return Err(DecodeError::UnexpectedEof);
    }
    match AccountAddress::from_bytes(slice_subrange(bytes, pos, pos + ADDRESS_LENGTH)) {
        Some(a) => Ok(a),
        None => unreached(),
    }
}

impl MoveStructLayout {
    /// Reads one struct of this layout from the bytes at `pos` on: the struct,
    /// in the representation of the layout, and the position after it.
    pub(crate) fn read_at(&self, bytes: &[u8], pos: usize) -> (r: Result<
        (MoveStruct, usize),
        DecodeError,
    >)
        requires
            pos <= bytes@.len(),
        ensures
            match parsed_struct(bytes@.skip(pos as int), self@) {
                Ok((v, used)) => r is Ok && r->Ok_0.0@ == v && r->Ok_0.1 == pos + used && pos
                    + used <= bytes@.len(),
                Err(e) => r == Err::<(MoveStruct, usize), DecodeError>(e),
            },
        decreases self, 1nat,
    {
        match self {
            MoveStructLayout::Runtime(layouts) => {
                assert(self@.layouts =~= layout_views_of(layouts@));
                match read_fields(bytes, pos, layouts, Ghost(*self)) {
                    Err(e) => Err(e),
                    Ok((values, next)) => {
                        let r = MoveStruct::Runtime(values);
                        assert(r@.values =~= views_of(values@));
                        Ok((r, next))
                    },
                }
            },
            MoveStructLayout::WithFields(fields) => {
                assert(self@.layouts =~= layouts_of(fields@));
                match read_named_fields(bytes, pos, fields, Ghost(*self)) {
                    Err(e) => Err(e),
                    Ok((values, next)) => {
                        let r = MoveStruct::WithFields(values);
                        assert(r@.values =~= values_of(values@));
                        Ok((r, next))
                    },
                }
            },
            MoveStructLayout::WithTypes { type_, fields } => {
                assert(self@.layouts =~= layouts_of(fields@));
                match read_named_fields(bytes, pos, fields, Ghost(*self)) {
                    Err(e) => Err(e),
                    Ok((values, next)) => {
                        let r = MoveStruct::WithTypes { type_: type_.clone(), fields: values };
                        assert(r@.values =~= values_of(values@));
                        Ok((r, next))
                    },
                }
            },
        }
    }
}

/// The error of the field at position `i`, where reading it from the bytes
/// at `cur` on gave `e`.
fn field_error(e: DecodeError, i: usize, cur: usize, total: usize) -> (r: DecodeError)
    ensures
        r == if cur == total {
            DecodeError::InvalidLength(i)
        } else {
            e
        },
{
    if cur == total {
        DecodeError::InvalidLength(i)
    } else {
        e
    }
}

/// Reads one value for each layout, in order.
fn read_fields(
    bytes: &[u8],
    pos: usize,
    layouts: &Vec<MoveTypeLayout>,
    Ghost(whole): Ghost<MoveStructLayout>,
) -> (r: Result<(Vec<MoveValue>, usize), DecodeError>)
    requires
        pos <= bytes@.len(),
        decreases_to!(whole => layouts),
    ensures
        match parsed_fields(bytes@.skip(pos as int), layout_views_of(layouts@), 0) {
            Ok((vs, used)) => r is Ok && views_of(r->Ok_0.0@) == vs && r->Ok_0.1 == pos + used
                && pos + used <= bytes@.len(),
            Err(e) => r == Err::<(Vec<MoveValue>, usize), DecodeError>(e),
        },
    decreases whole, 0nat,
{
    let total = bytes.len();
    let n = layouts.len();
    let ghost first = bytes@.skip(pos as int);
    let ghost shapes = layout_views_of(layouts@);
    let mut out: Vec<MoveValue> = Vec::new();
    let mut cur: usize = pos;
    let mut i: usize = 0;
    while i < n
        invariant
            i <= n,
            n == layouts.len(),
            pos <= cur <= total,
            total == bytes@.len(),
            out.len() == i,
            first == bytes@.skip(pos as int),
            shapes == layout_views_of(layouts@),
            parsed_fields(first, shapes, 0) == after(
                views_of(out@),
                (cur - pos) as nat,
                parsed_fields(bytes@.skip(cur as int), shapes, i as nat),
            ),
            decreases_to!(whole => layouts),
        decreases n - i,
    {
        match layouts[i].read_at(bytes, cur) {
            Err(e) => {
                return Err(field_error(e, i, cur, total));
            },
            Ok((v, next)) => {
                proof {
                    let here = bytes@.skip(cur as int);
                    assert(here.skip(next - cur) =~= bytes@.skip(next as int));
                    lemma_after_after(
                        views_of(out@),
                        (cur - pos) as nat,
                        v@,
                        (next - cur) as nat,
                        parsed_fields(bytes@.skip(next as int), shapes, (i + 1) as nat),
                    );
                    assert(views_of(out@.push(v)) =~= views_of(out@).push(v@));
                }
                out.push(v);
                cur = next;
                i += 1;
            },
        }
    }
    Ok((out, cur))
}

/// Reads one value for each field layout, in order, and gives each the name
/// of its field.
fn read_named_fields(
    bytes: &[u8],
    pos: usize,
    fields: &Vec<MoveFieldLayout>,
    Ghost(whole): Ghost<MoveStructLayout>,
) -> (r: Result<(Vec<(Identifier, MoveValue)>, usize), DecodeError>)
    requires
        pos <= bytes@.len(),
        decreases_to!(whole => fields),
    ensures
        match parsed_fields(bytes@.skip(pos as int), layouts_of(fields@), 0) {
            Ok((vs, used)) => r is Ok && values_of(r->Ok_0.0@) == vs && names_of(r->Ok_0.0@)
                == layout_names_of(fields@) && r->Ok_0.1 == pos + used && pos + used
                <= bytes@.len(),
            Err(e) => r == Err::<(Vec<(Identifier, MoveValue)>, usize), DecodeError>(e),
        },
    decreases whole, 0nat,
{
    let total = bytes.len();
    let n = fields.len();
    let ghost first = bytes@.skip(pos as int);
    let ghost shapes = layouts_of(fields@);
    let mut out: Vec<(Identifier, MoveValue)> = Vec::new();
    let mut cur: usize = pos;
    let mut i: usize = 0;
    while i < n
        invariant
            i <= n,
            n == fields.len(),
            pos <= cur <= total,
            total == bytes@.len(),
            out.len() == i,
            first == bytes@.skip(pos as int),
            shapes == layouts_of(fields@),
            forall|j: int| 0 <= j < i ==> (#[trigger] out[j]).0@ == fields[j].name@,
            parsed_fields(first, shapes, 0) == after(
                values_of(out@),
                (cur - pos) as nat,
                parsed_fields(bytes@.skip(cur as int), shapes, i as nat),
            ),
            decreases_to!(whole => fields),
        decreases n - i,
    {
        match fields[i].layout.read_at(bytes, cur) {
            Err(e) => {
                return Err(field_error(e, i, cur, total));
            },
            Ok((v, next)) => {
                let name = fields[i].name.clone();
                proof {
                    let here = bytes@.skip(cur as int);
                    assert(here.skip(next - cur) =~= bytes@.skip(next as int));
                    lemma_after_after(
                        values_of(out@),
                        (cur - pos) as nat,
                        v@,
                        (next - cur) as nat,
                        parsed_fields(bytes@.skip(next as int), shapes, (i + 1) as nat),
                    );
                    assert(values_of(out@.push((name, v))) =~= values_of(out@).push(v@));
                }
                out.push((name, v));
                cur = next;
                i += 1;
            },
        }
    }
    Ok((out, cur))
}

impl MoveValue {
    /// Reads `blob` as one value of layout `ty`. The value must take all of
    /// `blob`.
    pub fn simple_deserialize(blob: &[u8], ty: &MoveTypeLayout) -> (r: Result<
        MoveValue,
        DecodeError,
    >)
        ensures
            match parsed_whole(blob@, ty@) {
                Ok(v) => r is Ok && r->Ok_0@ == v,
                Err(e) => r == Err::<MoveValue, DecodeError>(e),
            },
    {
        assert(blob@.skip(0) =~= blob@);
        match ty.read_at(blob, 0) {
            Err(e) => Err(e),
            Ok((value, end)) => if end == blob.len() {
                Ok(value)
            } else {
                Err(DecodeError::RemainingInput)
            },
        }
    }
}

impl MoveStruct {
    /// Reads `blob` as one struct of layout `ty`. The struct must take all of
    /// `blob`.
    pub fn simple_deserialize(blob: &[u8], ty: &MoveStructLayout) -> (r: Result<
        MoveStruct,
        DecodeError,
    >)
        ensures
            match parsed_whole_struct(blob@, ty@) {
                Ok(v) => r is Ok && r->Ok_0@ == v,
                Err(e) => r == Err::<MoveStruct, DecodeError>(e),
            },
    {
        assert(blob@.skip(0) =~= blob@);
        match ty.read_at(blob, 0) {
            Err(e) => Err(e),
            Ok((value, end)) => if end == blob.len() {
                Ok(value)
            } else {
                Err(DecodeError::RemainingInput)
            },
        }
    }
}

impl MoveTypeLayout {
    /// Reads one value of this layout at the start of `bytes`: the value and
    /// the number of bytes that it took. Bytes after the value are left
    /// alone: whether any may follow is for the caller to say.
    pub fn deserialize(&self, bytes: &[u8]) -> (r: Result<(MoveValue, usize), DecodeError>)
        ensures
            match parsed(bytes@, self@) {
                Ok((v, used)) => r is Ok && r->Ok_0.0@ == v && r->Ok_0.1 == used && used
                    <= bytes@.len(),
                Err(e) => r == Err::<(MoveValue, usize), DecodeError>(e),
            },
    {
        assert(bytes@.skip(0) =~= bytes@);
        self.read_at(bytes, 0)
    }
}

impl MoveStructLayout {
    /// Reads one struct of this layout at the start of `bytes`: the struct,
    /// in the representation of the layout, and the number of bytes that it
    /// took. Bytes after the struct are left alone.
    pub fn deserialize(&self, bytes: &[u8]) -> (r: Result<(MoveStruct, usize), DecodeError>)
        ensures
            match parsed_struct(bytes@, self@) {
                Ok((v, used)) => r is Ok && r->Ok_0.0@ == v && r->Ok_0.1 == used && used
                    <= bytes@.len(),
                Err(e) => r == Err::<(MoveStruct, usize), DecodeError>(e),
            },
    {
        assert(bytes@.skip(0) =~= bytes@);
        self.read_at(bytes, 0)
    }
}

} // verus!
