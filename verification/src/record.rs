//! Descriptions of the type definitions that a decoder is generated for.

use vstd::prelude::*;
use crate::shape::{TypeShape, TypeShapeView};

verus! {

/// One field of a record: its declared name, if it has one, and the spelling
/// of its declared type. Fields of positional records have no name.
#[derive(Clone, Debug, PartialEq, Eq)]
pub struct FieldDescription {
    pub name: Option<String>,
    pub shape: TypeShape,
}

/// A `FieldDescription` with its name as a character sequence.
pub struct FieldDescriptionView {
    pub name: Option<Seq<char>>,
    pub shape: TypeShapeView,
}

impl View for FieldDescription {
    type V = FieldDescriptionView;

    open spec fn view(&self) -> FieldDescriptionView {
        FieldDescriptionView {
            name: match self.name {
                Some(name) => Some(name@),
                None => None,
            },
            shape: self.shape@,
        }
    }
}

/// The views of a sequence of fields, in the same order.
pub open spec fn field_views(fields: Seq<FieldDescription>) -> Seq<FieldDescriptionView> {
    fields.map_values(|field: FieldDescription| field@)
}

/// A product type: how it declares its fields, and the fields in declaration
/// order.
#[derive(Clone, Debug, PartialEq, Eq)]
pub enum RecordDescription {
    /// `struct S { a: A, b: B }`
    Named(Vec<FieldDescription>),
    /// `struct S(A, B);`
    Positional(Vec<FieldDescription>),
    /// `struct S;`
    FieldLess,
}

/// A `RecordDescription` over field views.
pub enum RecordDescriptionView {
    Named(Seq<FieldDescriptionView>),
    Positional(Seq<FieldDescriptionView>),
    FieldLess,
}

impl View for RecordDescription {
    type V = RecordDescriptionView;

    open spec fn view(&self) -> RecordDescriptionView {
        match self {
            RecordDescription::Named(fields) => RecordDescriptionView::Named(field_views(fields@)),
            RecordDescription::Positional(fields) => RecordDescriptionView::Positional(
                field_views(fields@),
            ),
            RecordDescription::FieldLess => RecordDescriptionView::FieldLess,
        }
    }
}

impl RecordDescriptionView {
    /// The fields in declaration order; none for a field-less record.
    pub open spec fn fields(self) -> Seq<FieldDescriptionView> {
        match self {
            RecordDescriptionView::Named(fields) => fields,
            RecordDescriptionView::Positional(fields) => fields,
            RecordDescriptionView::FieldLess => Seq::empty(),
        }
    }

    /// Every field of a named record has a name, and no field of a positional
    /// record has one.
    pub open spec fn well_formed(self) -> bool {
        match self {
            RecordDescriptionView::Named(fields) => forall|i: int|
                0 <= i < fields.len() ==> (#[trigger] fields[i]).name is Some,
            RecordDescriptionView::Positional(fields) => forall|i: int|
                0 <= i < fields.len() ==> (#[trigger] fields[i]).name is None,
            RecordDescriptionView::FieldLess => true,
        }
    }
}

/// Whether each of `fields` has a name (`named`) or each has none (`!named`).
fn names_agree(fields: &Vec<FieldDescription>, named: bool) -> (agree: bool)
    ensures
        agree <==> forall|i: int|
            0 <= i < fields@.len() ==> (#[trigger] field_views(fields@)[i]).name is Some == named,
{
    let mut i: usize = 0;
    while i < fields.len()
        invariant
            i <= fields.len(),
            forall|k: int|
                0 <= k < i ==> (#[trigger] field_views(fields@)[k]).name is Some == named,
        decreases fields.len() - i,
    {
        if fields[i].name.is_some() != named {
            assert(field_views(fields@)[i as int].name is Some != named);
            return false;
        }
        i += 1;
    }
    true
}

impl RecordDescription {
    /// Tells whether the names of the fields fit the kind of the record.
    pub fn is_well_formed(&self) -> (ok: bool)
        ensures
            ok == self@.well_formed(),
    {
        match self {
            RecordDescription::Named(fields) => names_agree(fields, true),
            RecordDescription::Positional(fields) => names_agree(fields, false),
            RecordDescription::FieldLess => true,
        }
    }
}

/// What a type definition declares.
#[derive(Clone, Debug, PartialEq, Eq)]
pub enum TypeBody {
    /// A product type.
    Record(RecordDescription),
    /// A sum type. Its variants play no part here.
    Enumeration,
}

/// A `TypeBody` over field views.
pub enum TypeBodyView {
    Record(RecordDescriptionView),
    Enumeration,
}

impl TypeBodyView {
    /// The fields of a record in declaration order; none for anything else.
    pub open spec fn fields(self) -> Seq<FieldDescriptionView> {
        match self {
            TypeBodyView::Record(record) => record.fields(),
            TypeBodyView::Enumeration => Seq::empty(),
        }
    }
}

impl View for TypeBody {
    type V = TypeBodyView;

    open spec fn view(&self) -> TypeBodyView {
        match self {
            TypeBody::Record(record) => TypeBodyView::Record(record@),
            TypeBody::Enumeration => TypeBodyView::Enumeration,
        }
    }
}

/// A type definition: its identifier and what it declares.
#[derive(Clone, Debug, PartialEq, Eq)]
pub struct TypeDescription {
    pub ident: String,
    pub body: TypeBody,
}

/// A `TypeDescription` with its identifier as a character sequence.
pub struct TypeDescriptionView {
    pub ident: Seq<char>,
    pub body: TypeBodyView,
}

impl View for TypeDescription {
    type V = TypeDescriptionView;

    open spec fn view(&self) -> TypeDescriptionView {
        TypeDescriptionView { ident: self.ident@, body: self.body@ }
    }
}

} // verus!
