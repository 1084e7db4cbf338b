//! Field values and the schemas that describe their shape.

use vstd::prelude::*;
use vstd::slice::slice_to_vec;
use crate::key::Duplicate;
use crate::number::Nat;
use crate::principal::Principal;

verus! {

/// A field value: one of a closed set of scalar kinds, or a record of named
/// values.
#[derive(Debug)]
pub enum GenericValue {
    BoolContent(bool),
    TextContent(String),
    BlobContent(Vec<u8>),
    Principal(Principal),
    Nat8Content(u8),
    Nat16Content(u16),
    Nat32Content(u32),
    Nat64Content(u64),
    NatContent(Nat),
    Int8Content(i8),
    Int16Content(i16),
    Int32Content(i32),
    Int64Content(i64),
    /// A 64-bit binary floating-point number, held as its IEEE 754 bit
    /// pattern.
    FloatContent(u64),
    NestedContent(Vec<(String, GenericValue)>),
}

/// The shape that a value is expected to have: the kind of a scalar, or the
/// names and shapes of the fields of a record, in order.
#[derive(Debug)]
pub enum GenericValueSchema {
    BoolContent,
    TextContent,
    BlobContent,
    Principal,
    Nat8Content,
    Nat16Content,
    Nat32Content,
    Nat64Content,
    NatContent,
    Int8Content,
    Int16Content,
    Int32Content,
    Int64Content,
    IntContent,
    FloatContent,
    NestedContent(Vec<(String, GenericValueSchema)>),
}

/// What a [`GenericValue`] denotes.
pub enum ValueView {
    Bool(bool),
    Text(Seq<char>),
    Blob(Seq<u8>),
    Principal(Seq<u8>),
    Nat8(u8),
    Nat16(u16),
    Nat32(u32),
    Nat64(u64),
    Nat(nat),
    Int8(i8),
    Int16(i16),
    Int32(i32),
    Int64(i64),
    Float(u64),
    Nested(Seq<(Seq<char>, ValueView)>),
}

/// What a [`GenericValueSchema`] denotes.
pub enum SchemaView {
    Bool,
    Text,
    Blob,
    Principal,
    Nat8,
    Nat16,
    Nat32,
    Nat64,
    Nat,
    Int8,
    Int16,
    Int32,
    Int64,
    Int,
    Float,
    Nested(Seq<(Seq<char>, SchemaView)>),
}

/// What `value` denotes.
pub open spec fn value_view(value: GenericValue) -> ValueView
    decreases value,
{
    match value {
        GenericValue::BoolContent(b) => ValueView::Bool(b),
        GenericValue::TextContent(s) => ValueView::Text(s@),
        GenericValue::BlobContent(b) => ValueView::Blob(b@),
        GenericValue::Principal(p) => ValueView::Principal(p@),
        GenericValue::Nat8Content(n) => ValueView::Nat8(n),
        GenericValue::Nat16Content(n) => ValueView::Nat16(n),
        GenericValue::Nat32Content(n) => ValueView::Nat32(n),
        GenericValue::Nat64Content(n) => ValueView::Nat64(n),
        GenericValue::NatContent(n) => ValueView::Nat(n@),
        GenericValue::Int8Content(n) => ValueView::Int8(n),
        GenericValue::Int16Content(n) => ValueView::Int16(n),
        GenericValue::Int32Content(n) => ValueView::Int32(n),
        GenericValue::Int64Content(n) => ValueView::Int64(n),
        GenericValue::FloatContent(bits) => ValueView::Float(bits),
        GenericValue::NestedContent(fields) => ValueView::Nested(
            Seq::new(
                fields@.len(),
                |i: int|
                    if 0 <= i < fields@.len() {
                        (fields@[i].0@, value_view(fields@[i].1))
                    } else {
                        (Seq::empty(), ValueView::Bool(false))
                    },
            ),
        ),
    }
}

/// What `schema` denotes.
pub open spec fn schema_view(schema: GenericValueSchema) -> SchemaView
    decreases schema,
{
    match schema {
        GenericValueSchema::BoolContent => SchemaView::Bool,
        GenericValueSchema::TextContent => SchemaView::Text,
        GenericValueSchema::BlobContent => SchemaView::Blob,
        GenericValueSchema::Principal => SchemaView::Principal,
        GenericValueSchema::Nat8Content => SchemaView::Nat8,
        GenericValueSchema::Nat16Content => SchemaView::Nat16,
        GenericValueSchema::Nat32Content => SchemaView::Nat32,
        GenericValueSchema::Nat64Content => SchemaView::Nat64,
        GenericValueSchema::NatContent => SchemaView::Nat,
        GenericValueSchema::Int8Content => SchemaView::Int8,
        GenericValueSchema::Int16Content => SchemaView::Int16,
        GenericValueSchema::Int32Content => SchemaView::Int32,
        GenericValueSchema::Int64Content => SchemaView::Int64,
        GenericValueSchema::IntContent => SchemaView::Int,
        GenericValueSchema::FloatContent => SchemaView::Float,
        GenericValueSchema::NestedContent(fields) => SchemaView::Nested(
            Seq::new(
                fields@.len(),
                |i: int|
                    if 0 <= i < fields@.len() {
                        (fields@[i].0@, schema_view(fields@[i].1))
                    } else {
                        (Seq::empty(), SchemaView::Bool)
                    },
            ),
        ),
    }
}

impl View for GenericValue {
    type V = ValueView;

    open spec fn view(&self) -> ValueView {
        value_view(*self)
    }
}

impl View for GenericValueSchema {
    type V = SchemaView;

    open spec fn view(&self) -> SchemaView {
        schema_view(*self)
    }
}

impl Clone for GenericValue {
    fn clone(&self) -> (r: Self)
        ensures
            r@ == self@,
        decreases self,
    {
        match self {
            GenericValue::BoolContent(b) => GenericValue::BoolContent(*b),
            GenericValue::TextContent(s) => GenericValue::TextContent(s.clone()),
            GenericValue::BlobContent(b) => GenericValue::BlobContent(slice_to_vec(b.as_slice())),
            GenericValue::Principal(p) => GenericValue::Principal(p.clone()),
            GenericValue::Nat8Content(n) => GenericValue::Nat8Content(*n),
            GenericValue::Nat16Content(n) => GenericValue::Nat16Content(*n),
            GenericValue::Nat32Content(n) => GenericValue::Nat32Content(*n),
            GenericValue::Nat64Content(n) => GenericValue::Nat64Content(*n),
            GenericValue::NatContent(n) => GenericValue::NatContent(n.clone()),
            GenericValue::Int8Content(n) => GenericValue::Int8Content(*n),
            GenericValue::Int16Content(n) => GenericValue::Int16Content(*n),
            GenericValue::Int32Content(n) => GenericValue::Int32Content(*n),
            GenericValue::Int64Content(n) => GenericValue::Int64Content(*n),
            GenericValue::FloatContent(bits) => GenericValue::FloatContent(*bits),
            GenericValue::NestedContent(fields) => {
                let mut copy: Vec<(String, GenericValue)> = Vec::new();
                let mut i: usize = 0;
                while i < fields.len()
                    invariant
                        *self == GenericValue::NestedContent(*fields),
                        i <= fields@.len(),
                        copy@.len() == i,
                        forall|j: int|
                            0 <= j < i ==> copy@[j].0@ == fields@[j].0@ && copy@[j].1@
                                == fields@[j].1@,
                    decreases fields@.len() - i,
                {
                    assert(decreases_to!(*self => self->NestedContent_0));
                    let name = fields[i].0.clone();
                    let value = fields[i].1.clone();
                    copy.push((name, value));
                    i += 1;
                }
                let r = GenericValue::NestedContent(copy);
                assert(r@->Nested_0 =~= self@->Nested_0);
                r
            },
        }
    }
}

impl Clone for GenericValueSchema {
    fn clone(&self) -> (r: Self)
        ensures
            r@ == self@,
        decreases self,
    {
        match self {
            GenericValueSchema::BoolContent => GenericValueSchema::BoolContent,
            GenericValueSchema::TextContent => GenericValueSchema::TextContent,
            GenericValueSchema::BlobContent => GenericValueSchema::BlobContent,
            GenericValueSchema::Principal => GenericValueSchema::Principal,
            GenericValueSchema::Nat8Content => GenericValueSchema::Nat8Content,
            GenericValueSchema::Nat16Content => GenericValueSchema::Nat16Content,
            GenericValueSchema::Nat32Content => GenericValueSchema::Nat32Content,
            GenericValueSchema::Nat64Content => GenericValueSchema::Nat64Content,
            GenericValueSchema::NatContent => GenericValueSchema::NatContent,
            GenericValueSchema::Int8Content => GenericValueSchema::Int8Content,
            GenericValueSchema::Int16Content => GenericValueSchema::Int16Content,
            GenericValueSchema::Int32Content => GenericValueSchema::Int32Content,
            GenericValueSchema::Int64Content => GenericValueSchema::Int64Content,
            GenericValueSchema::IntContent => GenericValueSchema::IntContent,
            GenericValueSchema::FloatContent => GenericValueSchema::FloatContent,
            GenericValueSchema::NestedContent(fields) => {
                let mut copy: Vec<(String, GenericValueSchema)> = Vec::new();
                let mut i: usize = 0;
                while i < fields.len()
                    invariant
                        *self == GenericValueSchema::NestedContent(*fields),
                        i <= fields@.len(),
                        copy@.len() == i,
                        forall|j: int|
                            0 <= j < i ==> copy@[j].0@ == fields@[j].0@ && copy@[j].1@
                                == fields@[j].1@,
                    decreases fields@.len() - i,
                {
                    assert(decreases_to!(*self => self->NestedContent_0));
                    let name = fields[i].0.clone();
                    let value = fields[i].1.clone();
                    copy.push((name, value));
                    i += 1;
                }
                let r = GenericValueSchema::NestedContent(copy);
                assert(r@->Nested_0 =~= self@->Nested_0);
                r
            },
        }
    }
}

impl Duplicate for GenericValue {
    fn duplicate(&self) -> (r: Self) {
        self.clone()
    }
}

impl Duplicate for GenericValueSchema {
    fn duplicate(&self) -> (r: Self) {
        self.clone()
    }
}

impl ValueView {
    /// The shape of the value: the one schema that it matches.
    pub open spec fn shape(self) -> SchemaView
        decreases self,
    {
        match self {
            ValueView::Bool(_) => SchemaView::Bool,
            ValueView::Text(_) => SchemaView::Text,
            ValueView::Blob(_) => SchemaView::Blob,
            ValueView::Principal(_) => SchemaView::Principal,
            ValueView::Nat8(_) => SchemaView::Nat8,
            ValueView::Nat16(_) => SchemaView::Nat16,
            ValueView::Nat32(_) => SchemaView::Nat32,
            ValueView::Nat64(_) => SchemaView::Nat64,
            ValueView::Nat(_) => SchemaView::Nat,
            ValueView::Int8(_) => SchemaView::Int8,
            ValueView::Int16(_) => SchemaView::Int16,
            ValueView::Int32(_) => SchemaView::Int32,
            ValueView::Int64(_) => SchemaView::Int64,
            ValueView::Float(_) => SchemaView::Float,
            ValueView::Nested(fields) => SchemaView::Nested(
                Seq::new(
                    fields.len(),
                    |i: int|
                        if 0 <= i < fields.len() {
                            (fields[i].0, fields[i].1.shape())
                        } else {
                            (Seq::empty(), SchemaView::Bool)
                        },
                ),
            ),
        }
    }

    /// Whether the value has the shape that `schema` describes.
    pub open spec fn matches(self, schema: SchemaView) -> bool {
        self.shape() == schema
    }
}

} // verus!
