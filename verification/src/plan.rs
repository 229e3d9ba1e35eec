//! What is planned for a record: one decode statement per field, in
//! declaration order.

use vstd::prelude::*;
use vstd::string::StringExecFns;
use crate::decimal::{decimal_digits, lemma_decimal_digits_injective};
use crate::record::{FieldDescriptionView, RecordDescriptionView, TypeBodyView, TypeDescriptionView};
use crate::shape::{primitive_for, Primitive};

verus! {

/// The decoding of one field: the constructor slot that receives the value,
/// and the reader primitive that yields it.
#[derive(Clone, Debug, PartialEq, Eq)]
pub struct DecodeStatement {
    pub ident: String,
    pub primitive: Primitive,
}

/// A `DecodeStatement` with its identifier as a character sequence.
pub struct DecodeStatementView {
    pub ident: Seq<char>,
    pub primitive: Primitive,
}

impl View for DecodeStatement {
    type V = DecodeStatementView;

    open spec fn view(&self) -> DecodeStatementView {
        DecodeStatementView { ident: self.ident@, primitive: self.primitive }
    }
}

/// The views of a sequence of statements, in the same order.
pub open spec fn statement_views(statements: Seq<DecodeStatement>) -> Seq<DecodeStatementView> {
    statements.map_values(|statement: DecodeStatement| statement@)
}

/// The plan for a whole record: its identifier and the statements that fill
/// its fields, first field first.
#[derive(Clone, Debug, PartialEq, Eq)]
pub struct GeneratedFragment {
    pub ident: String,
    pub statements: Vec<DecodeStatement>,
}

/// A `GeneratedFragment` over statement views.
pub struct GeneratedFragmentView {
    pub ident: Seq<char>,
    pub statements: Seq<DecodeStatementView>,
}

impl View for GeneratedFragment {
    type V = GeneratedFragmentView;

    open spec fn view(&self) -> GeneratedFragmentView {
        GeneratedFragmentView {
            ident: self.ident@,
            statements: statement_views(self.statements@),
        }
    }
}

/// Why no decoder can be generated for a type definition.
#[derive(Clone, Copy, Debug, PartialEq, Eq, Structural)]
pub enum BuildError {
    /// The definition is not a product type.
    NotAProductType,
    /// The record has no fields: it declares no field list, or an empty one.
    FieldLessRecord,
}

impl BuildError {
    /// The message that reports the error to whoever asked for the decoder.
    pub open spec fn message_text(self) -> Seq<char> {
        match self {
            BuildError::NotAProductType => "#[derive(RawDeserialize)] is only defined for structs."@,
            BuildError::FieldLessRecord => "#[derive(RawDeserialize)] is not defined for Unit structs."@,
        }
    }

    /// The message that reports the error to whoever asked for the decoder.
    pub fn message(&self) -> (text: String)
        ensures
            text@ == self.message_text(),
    {
        match self {
            BuildError::NotAProductType => String::from_str(
                "#[derive(RawDeserialize)] is only defined for structs.",
            ),
            BuildError::FieldLessRecord => String::from_str(
                "#[derive(RawDeserialize)] is not defined for Unit structs.",
            ),
        }
    }
}

/// The constructor slot of a field: its name where it has one, else its
/// position in decimal notation.
pub open spec fn field_ident(index: nat, field: FieldDescriptionView) -> Seq<char> {
    match field.name {
        Some(name) => name,
        None => decimal_digits(index),
    }
}

/// The statement that decodes the field at position `index` of its record.
pub open spec fn planned_statement(index: nat, field: FieldDescriptionView) -> DecodeStatementView {
    DecodeStatementView { ident: field_ident(index, field), primitive: primitive_for(field.shape) }
}

/// The statements that decode `fields`: one for each, in the same order.
pub open spec fn planned_statements(fields: Seq<FieldDescriptionView>) -> Seq<DecodeStatementView> {
    Seq::new(fields.len(), |i: int| planned_statement(i as nat, fields[i]))
}

/// No two fields of a well-formed positional record share a constructor slot.
pub proof fn lemma_positional_slots_differ(fields: Seq<FieldDescriptionView>, i: int, j: int)
    requires
        RecordDescriptionView::Positional(fields).well_formed(),
        0 <= i < fields.len(),
        0 <= j < fields.len(),
        i != j,
    ensures
        planned_statements(fields)[i].ident != planned_statements(fields)[j].ident,
{
    assert(fields[i].name is None && fields[j].name is None);
    if decimal_digits(i as nat) == decimal_digits(j as nat) {
        lemma_decimal_digits_injective(i as nat, j as nat);
    }
}

/// The plan for a type definition, or the reason why there is none. Sum types
/// are turned down, and so are records without fields, whether they declare
/// no field list or an empty one; every other record is planned field by
/// field.
pub open spec fn assembled(ty: TypeDescriptionView) -> Result<GeneratedFragmentView, BuildError> {
    match ty.body {
        TypeBodyView::Enumeration => Err(BuildError::NotAProductType),
        TypeBodyView::Record(record) => if record.fields().len() == 0 {
            Err(BuildError::FieldLessRecord)
        } else {
            Ok(
                GeneratedFragmentView {
                    ident: ty.ident,
                    statements: planned_statements(record.fields()),
                },
            )
        },
    }
}

} // verus!
