use serialization_derive::de::{assemble, impl_raw_deserialize};
use serialization_derive::plan::{BuildError, DecodeStatement, GeneratedFragment};
use serialization_derive::record::{FieldDescription, RecordDescription, TypeBody, TypeDescription};
use serialization_derive::shape::{Primitive, TypeShape};

fn simple_path(head: &str) -> TypeShape {
    TypeShape::NamedPath { head: head.to_string(), rest: Vec::new() }
}

fn with_name(name: &str, shape: TypeShape) -> FieldDescription {
    FieldDescription { name: Some(name.to_string()), shape }
}

fn without_name(shape: TypeShape) -> FieldDescription {
    FieldDescription { name: None, shape }
}

fn record(ident: &str, record: RecordDescription) -> TypeDescription {
    TypeDescription { ident: ident.to_string(), body: TypeBody::Record(record) }
}

fn statement(ident: &str, primitive: Primitive) -> DecodeStatement {
    DecodeStatement { ident: ident.to_string(), primitive }
}

#[test]
fn record_with_a_scalar_and_a_growable_sequence() {
    let ty = record(
        "Batch",
        RecordDescription::Named(vec![
            with_name("count", simple_path("u32")),
            with_name("items", simple_path("Vec")),
        ]),
    );
    let fragment = assemble(&ty).unwrap();
    assert_eq!(fragment.ident, "Batch");
    assert_eq!(
        fragment.statements,
        vec![statement("count", Primitive::ReadOne), statement("items", Primitive::ReadList)]
    );
}

#[test]
fn positional_record_with_a_scalar_and_an_array() {
    let ty = record(
        "Pair",
        RecordDescription::Positional(vec![
            without_name(simple_path("u8")),
            without_name(TypeShape::FixedArray),
        ]),
    );
    let fragment = assemble(&ty).unwrap();
    assert_eq!(
        fragment,
        GeneratedFragment {
            ident: "Pair".to_string(),
            statements: vec![
                statement("0", Primitive::ReadOne),
                statement("1", Primitive::ReadList),
            ],
        }
    );
}

#[test]
fn a_map_is_not_taken_for_a_sequence() {
    let ty = record(
        "Index",
        RecordDescription::Named(vec![with_name(
            "entries",
            TypeShape::NamedPath {
                head: "HashMap".to_string(),
                rest: Vec::new(),
            },
        )]),
    );
    let fragment = assemble(&ty).unwrap();
    assert_eq!(fragment.statements, vec![statement("entries", Primitive::ReadOne)]);
}

#[test]
fn one_statement_per_field_in_declaration_order() {
    let shapes = [
        TypeShape::Other,
        TypeShape::Slice,
        simple_path("Vec"),
        simple_path("Bytes"),
        TypeShape::FixedArray,
        simple_path("Vec"),
        TypeShape::Other,
    ];
    let names = ["g", "a", "f", "b", "e", "c", "d"];
    let expected = [
        Primitive::ReadOne,
        Primitive::ReadList,
        Primitive::ReadList,
        Primitive::ReadOne,
        Primitive::ReadList,
        Primitive::ReadList,
        Primitive::ReadOne,
    ];
    let fields: Vec<FieldDescription> =
        names.iter().zip(shapes.iter()).map(|(name, shape)| with_name(name, shape.clone())).collect();
    let fragment = assemble(&record("Seven", RecordDescription::Named(fields))).unwrap();
    assert_eq!(fragment.statements.len(), 7);
    for i in 0..7 {
        assert_eq!(fragment.statements[i], statement(names[i], expected[i]));
    }
}

#[test]
fn positional_identifiers_count_from_zero() {
    let fields: Vec<FieldDescription> = (0..12).map(|_| without_name(TypeShape::Other)).collect();
    let fragment = assemble(&record("Dozen", RecordDescription::Positional(fields))).unwrap();
    let idents: Vec<&str> = fragment.statements.iter().map(|s| s.ident.as_str()).collect();
    assert_eq!(idents, vec!["0", "1", "2", "3", "4", "5", "6", "7", "8", "9", "10", "11"]);
}

#[test]
fn repeated_shapes_give_repeated_primitives() {
    let fields = vec![
        without_name(TypeShape::Slice),
        without_name(TypeShape::Slice),
        without_name(TypeShape::Other),
        without_name(TypeShape::Other),
    ];
    let fragment = assemble(&record("Quad", RecordDescription::Positional(fields))).unwrap();
    assert_eq!(
        fragment.statements,
        vec![
            statement("0", Primitive::ReadList),
            statement("1", Primitive::ReadList),
            statement("2", Primitive::ReadOne),
            statement("3", Primitive::ReadOne),
        ]
    );
}

#[test]
fn a_record_with_an_empty_field_list_is_turned_down() {
    let braces = record("Nothing", RecordDescription::Named(Vec::new()));
    assert_eq!(assemble(&braces), Err(BuildError::FieldLessRecord));
    assert_eq!(impl_raw_deserialize(&braces), Err(BuildError::FieldLessRecord));
    let parentheses = record("Nil", RecordDescription::Positional(Vec::new()));
    assert_eq!(assemble(&parentheses), Err(BuildError::FieldLessRecord));
    assert_eq!(impl_raw_deserialize(&parentheses), Err(BuildError::FieldLessRecord));
}

#[test]
fn a_record_with_a_single_field_is_planned() {
    let named = record("One", RecordDescription::Named(vec![with_name("only", TypeShape::Other)]));
    assert_eq!(
        assemble(&named),
        Ok(GeneratedFragment {
            ident: "One".to_string(),
            statements: vec![statement("only", Primitive::ReadOne)],
        })
    );
    let positional =
        record("Wrapper", RecordDescription::Positional(vec![without_name(TypeShape::Slice)]));
    assert_eq!(
        assemble(&positional),
        Ok(GeneratedFragment {
            ident: "Wrapper".to_string(),
            statements: vec![statement("0", Primitive::ReadList)],
        })
    );
    assert!(impl_raw_deserialize(&named).is_ok());
    assert!(impl_raw_deserialize(&positional).is_ok());
}

#[test]
fn no_name_and_no_shape_is_a_reason_to_fail() {
    let shapes = [
        TypeShape::FixedArray,
        TypeShape::Slice,
        TypeShape::Other,
        simple_path("Vec"),
        simple_path("HashMap"),
        simple_path(""),
        TypeShape::NamedPath { head: "a".to_string(), rest: vec!["b".to_string()] },
    ];
    for shape in shapes.iter() {
        for name in [None, Some(""), Some("field"), Some("0"), Some("fn")] {
            let field = FieldDescription { name: name.map(|n| n.to_string()), shape: shape.clone() };
            let named = record("R", RecordDescription::Named(vec![field.clone()]));
            let positional = record("R", RecordDescription::Positional(vec![field]));
            assert!(assemble(&named).is_ok());
            assert!(assemble(&positional).is_ok());
            assert!(impl_raw_deserialize(&named).is_ok());
            assert!(impl_raw_deserialize(&positional).is_ok());
        }
    }
}

#[test]
fn a_field_less_record_is_turned_down() {
    let ty = record("Marker", RecordDescription::FieldLess);
    assert_eq!(assemble(&ty), Err(BuildError::FieldLessRecord));
    assert_eq!(impl_raw_deserialize(&ty), Err(BuildError::FieldLessRecord));
}

#[test]
fn a_sum_type_is_turned_down() {
    let ty = TypeDescription { ident: "Either".to_string(), body: TypeBody::Enumeration };
    assert_eq!(assemble(&ty), Err(BuildError::NotAProductType));
    assert_eq!(impl_raw_deserialize(&ty), Err(BuildError::NotAProductType));
}

#[test]
fn error_messages() {
    assert_eq!(
        BuildError::NotAProductType.message(),
        "#[derive(RawDeserialize)] is only defined for structs."
    );
    assert_eq!(
        BuildError::FieldLessRecord.message(),
        "#[derive(RawDeserialize)] is not defined for Unit structs."
    );
}

#[test]
fn each_field_is_named_on_its_own() {
    let fields = vec![
        without_name(TypeShape::Other),
        with_name("middle", TypeShape::Slice),
        without_name(simple_path("Vec")),
    ];
    let mixed = RecordDescription::Positional(fields);
    assert!(!mixed.is_well_formed());
    let fragment = assemble(&record("Mixed", mixed)).unwrap();
    assert_eq!(
        fragment.statements,
        vec![
            statement("0", Primitive::ReadOne),
            statement("middle", Primitive::ReadList),
            statement("2", Primitive::ReadList),
        ]
    );
}

#[test]
fn well_formed_records() {
    assert!(RecordDescription::FieldLess.is_well_formed());
    assert!(RecordDescription::Named(Vec::new()).is_well_formed());
    assert!(RecordDescription::Positional(Vec::new()).is_well_formed());
    assert!(RecordDescription::Named(vec![
        with_name("a", TypeShape::Other),
        with_name("b", TypeShape::Slice)
    ])
    .is_well_formed());
    assert!(RecordDescription::Positional(vec![
        without_name(TypeShape::Other),
        without_name(TypeShape::Slice)
    ])
    .is_well_formed());
    assert!(!RecordDescription::Named(vec![
        with_name("a", TypeShape::Other),
        without_name(TypeShape::Slice)
    ])
    .is_well_formed());
    assert!(!RecordDescription::Named(vec![without_name(TypeShape::Other)]).is_well_formed());
    assert!(!RecordDescription::Positional(vec![
        without_name(TypeShape::Other),
        with_name("b", TypeShape::Slice)
    ])
    .is_well_formed());
}

#[test]
fn the_plan_does_not_depend_on_the_rest_of_a_path() {
    let short = record(
        "R",
        RecordDescription::Named(vec![with_name("v", simple_path("Vec"))]),
    );
    let long = record(
        "R",
        RecordDescription::Named(vec![with_name(
            "v",
            TypeShape::NamedPath {
                head: "Vec".to_string(),
                rest: vec!["Inner".to_string(), "Deeper".to_string()],
            },
        )]),
    );
    assert_eq!(assemble(&short), assemble(&long));
}
