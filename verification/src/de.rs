//! The planner and the assembly of a record's decoder.

use vstd::prelude::*;
use crate::decimal::{decimal_digits, decimal_string};
use crate::emit::{decoder_text, decoder_tokens};
use crate::plan::{
    assembled, planned_statement, planned_statements, statement_views, BuildError,
    DecodeStatement, GeneratedFragment, GeneratedFragmentView,
};
use crate::record::{
    field_views, FieldDescription, RecordDescription, TypeBody, TypeBodyView, TypeDescription,
};
use crate::shape::{growable_sequence_name, select_primitive, Primitive, TypeShapeView};
use crate::tokens::tokens_text;

verus! {

/// Plans the decoding of one field. The constructor slot is the field's name,
/// or `index` in decimal notation for a field without one; the primitive
/// follows from the spelling of the field's type alone: a list for arrays,
/// slices and paths headed by the growable sequence's name, one value for
/// everything else.
pub fn deserialize_field(index: usize, field: &FieldDescription) -> (statement: DecodeStatement)
    ensures
        statement@ == planned_statement(index as nat, field@),
        field@.name matches Some(name) ==> statement@.ident == name,
        field@.name is None ==> statement@.ident == decimal_digits(index as nat),
        field@.shape is FixedArray || field@.shape is Slice ==> statement@.primitive
            == Primitive::ReadList,
        field@.shape matches TypeShapeView::NamedPath { head, .. } && head
            == growable_sequence_name() ==> statement@.primitive == Primitive::ReadList,
        field@.shape matches TypeShapeView::NamedPath { head, .. } && head
            != growable_sequence_name() ==> statement@.primitive == Primitive::ReadOne,
        field@.shape is Other ==> statement@.primitive == Primitive::ReadOne,
{
    let ident = match &field.name {
        Some(name) => name.clone(),
        None => decimal_string(index),
    };
    DecodeStatement { ident, primitive: select_primitive(&field.shape) }
}

/// `deserialize_field` on a position paired with the field found there.
pub fn deserialize_field_map(tuple: (usize, &FieldDescription)) -> (statement: DecodeStatement)
    ensures
        statement@ == planned_statement(tuple.0 as nat, tuple.1@),
{
    deserialize_field(tuple.0, tuple.1)
}

/// Plans every field of a list, first to last.
fn plan_fields(fields: &Vec<FieldDescription>) -> (statements: Vec<DecodeStatement>)
    ensures
        statement_views(statements@) == planned_statements(field_views(fields@)),
{
    let mut statements: Vec<DecodeStatement> = Vec::new();
    let mut i: usize = 0;
    while i < fields.len()
        invariant
            i <= fields.len(),
            statements@.len() == i,
            forall|k: int|
                0 <= k < i ==> (#[trigger] statements@[k])@ == planned_statement(
                    k as nat,
                    fields@[k]@,
                ),
        decreases fields.len() - i,
    {
        let statement = deserialize_field_map((i, &fields[i]));
        statements.push(statement);
        i += 1;
    }
    assert(statement_views(statements@) =~= planned_statements(field_views(fields@)));
    statements
}

/// The outcome of `assemble` over views.
pub open spec fn assembly_view(outcome: Result<GeneratedFragment, BuildError>) -> Result<
    GeneratedFragmentView,
    BuildError,
> {
    match outcome {
        Ok(fragment) => Ok(fragment@),
        Err(error) => Err(error),
    }
}

/// Checks that a type definition is a record with at least one field, and
/// plans the decoding of its fields.
///
/// Fails with `NotAProductType` exactly for sum types and with
/// `FieldLessRecord` exactly for records without fields, whether they declare
/// no field list or an empty one. Every other definition gets a plan under
/// its own identifier, with one statement per field at the field's own
/// position; no name and no shape of a field is a reason to fail.
///
/// In the plan of a well-formed positional record the constructor slots are
/// `0`, `1`, `2` and so on; in that of a well-formed named record they are
/// the declared names.
pub fn assemble(ty: &TypeDescription) -> (outcome: Result<GeneratedFragment, BuildError>)
    ensures
        assembly_view(outcome) == assembled(ty@),
        outcome matches Err(error) && error == BuildError::NotAProductType <==> ty@.body
            is Enumeration,
        outcome matches Err(error) && error == BuildError::FieldLessRecord <==> ty@.body is Record
            && ty@.body.fields().len() == 0,
        outcome is Ok <==> ty@.body is Record && ty@.body.fields().len() >= 1,
        outcome matches Ok(fragment) ==> {
            &&& fragment@.ident == ty@.ident
            &&& fragment@.statements.len() == ty@.body.fields().len()
            &&& fragment@.statements.len() >= 1
            &&& forall|i: int|
                0 <= i < ty@.body.fields().len() ==> #[trigger] fragment@.statements[i]
                    == planned_statement(i as nat, ty@.body.fields()[i])
        },
        outcome matches Ok(fragment) ==> (ty@.body matches TypeBodyView::Record(record) ==> {
            &&& record is Positional && record.well_formed() ==> forall|i: int|
                0 <= i < fragment@.statements.len() ==> (#[trigger] fragment@.statements[i]).ident
                    == decimal_digits(i as nat)
            &&& record is Named && record.well_formed() ==> forall|i: int|
                0 <= i < fragment@.statements.len() ==> Some(
                    (#[trigger] fragment@.statements[i]).ident,
                ) == record.fields()[i].name
        }),
{
    let record = match &ty.body {
        TypeBody::Record(record) => record,
        TypeBody::Enumeration => {
            return Err(BuildError::NotAProductType);
        },
    };
    let fields = match record {
        RecordDescription::Named(fields) => fields,
        RecordDescription::Positional(fields) => fields,
        RecordDescription::FieldLess => {
            return Err(BuildError::FieldLessRecord);
        },
    };
    if fields.len() == 0 {
        return Err(BuildError::FieldLessRecord);
    }
    let statements = plan_fields(fields);
    Ok(GeneratedFragment { ident: ty.ident.clone(), statements })
}

/// Generates the decoder of a type definition: the implementation of
/// `serialization::Deserializable` that reads the fields of a record from a
/// stream reader, in declaration order, each with the primitive that its
/// declared type calls for.
///
/// Fails with `NotAProductType` exactly for sum types and with
/// `FieldLessRecord` exactly for records without fields, whether they declare
/// no field list or an empty one; nothing is generated then. For every other
/// definition the text of the result is that of the decoder for the record's
/// plan.
pub fn impl_raw_deserialize(ast: &TypeDescription) -> (outcome: Result<quote::Tokens, BuildError>)
    ensures
        match outcome {
            Ok(tokens) => assembled(ast@) matches Ok(fragment) && tokens_text(tokens)
                == decoder_text(fragment),
            Err(error) => assembled(ast@) == Err::<GeneratedFragmentView, BuildError>(error),
        },
        outcome matches Err(error) && error == BuildError::NotAProductType <==> ast@.body
            is Enumeration,
        outcome matches Err(error) && error == BuildError::FieldLessRecord <==> ast@.body
            is Record && ast@.body.fields().len() == 0,
        outcome is Ok <==> ast@.body is Record && ast@.body.fields().len() >= 1,
{
    match assemble(ast) {
        Ok(fragment) => Ok(decoder_tokens(&fragment)),
        Err(error) => Err(error),
    }
}

} // verus!
