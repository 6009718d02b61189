use juniper_schema::ast::Definition;
use juniper_schema::ast::EnumTypeDef;
use juniper_schema::ast::FieldDef;
use juniper_schema::ast::ObjectTypeDef;
use juniper_schema::ast::Position;
use juniper_schema::ast::SchemaRootDef;
use juniper_schema::ast::TypeExpr;
use juniper_schema::ast::UnsupportedKind;
use juniper_schema::schema_info::SchemaInfo;
use juniper_schema::CodegenError;

fn pos(line: usize, column: usize) -> Position {
    Position { line, column }
}

fn schema_def(query: Option<&str>, at: Position) -> Definition {
    Definition::Schema(SchemaRootDef {
        query: query.map(|q| q.to_string()),
        mutation: None,
        subscription: None,
        position: at,
    })
}

fn enum_def(name: &str, values: &[&str], at: Position) -> Definition {
    Definition::Enum(EnumTypeDef {
        name: name.to_string(),
        values: values.iter().map(|v| v.to_string()).collect(),
        position: at,
    })
}

fn obj_def(name: &str, fields: &[(&str, TypeExpr)], at: Position) -> Definition {
    Definition::Object(ObjectTypeDef {
        name: name.to_string(),
        fields: fields
            .iter()
            .map(|(n, t)| FieldDef { name: n.to_string(), field_type: clone_expr(t) })
            .collect(),
        position: at,
    })
}

fn clone_expr(t: &TypeExpr) -> TypeExpr {
    match t {
        TypeExpr::Named(n) => TypeExpr::Named(n.clone()),
        TypeExpr::List(i) => TypeExpr::List(Box::new(clone_expr(i))),
        TypeExpr::NonNull(i) => TypeExpr::NonNull(Box::new(clone_expr(i))),
    }
}

fn named(n: &str) -> TypeExpr {
    TypeExpr::Named(n.to_string())
}

#[test]
fn build_collects_all_distinct_names() {
    let defs = vec![
        schema_def(Some("Query"), pos(1, 1)),
        obj_def("Query", &[("me", named("User"))], pos(2, 1)),
        obj_def("User", &[("id", named("ID"))], pos(5, 1)),
        enum_def("Color", &["RED", "GREEN"], pos(8, 1)),
    ];
    let info = SchemaInfo::build(defs).expect("a clean document must build");
    let enum_names: Vec<&str> = info.enum_types.iter().map(|e| e.name.as_str()).collect();
    let obj_names: Vec<&str> = info.obj_types.iter().map(|o| o.name.as_str()).collect();
    assert_eq!(enum_names, vec!["Color"]);
    assert_eq!(obj_names, vec!["Query", "User"]);
    assert_eq!(info.schema_def.query.as_deref(), Some("Query"));
    assert_eq!(info.schema_def.position, pos(1, 1));
}

#[test]
fn build_preserves_enum_values_and_field_order() {
    let defs = vec![
        schema_def(Some("Query"), pos(1, 1)),
        enum_def("Color", &["RED", "GREEN", "BLUE"], pos(2, 1)),
        obj_def("Query", &[("b", named("Int")), ("a", named("Int"))], pos(6, 1)),
    ];
    let info = SchemaInfo::build(defs).expect("a clean document must build");
    assert_eq!(info.enum_types[0].values, vec!["RED", "GREEN", "BLUE"]);
    let field_names: Vec<&str> =
        info.obj_types[0].fields.iter().map(|f| f.name.as_str()).collect();
    assert_eq!(field_names, vec!["b", "a"]);
}

#[test]
fn duplicate_enum_names_are_rejected_in_source_order() {
    let defs = vec![
        schema_def(Some("Query"), pos(1, 1)),
        enum_def("Color", &["RED"], pos(2, 1)),
        enum_def("Color", &["GREEN"], pos(5, 1)),
    ];
    match SchemaInfo::build(defs) {
        Err(CodegenError::MultipleEnumTypeDefinitions { first, second }) => {
            assert_eq!(first, pos(2, 1));
            assert_eq!(second, pos(5, 1));
        },
        other => panic!("expected MultipleEnumTypeDefinitions, got {:?}", other),
    }
}

#[test]
fn duplicate_object_names_are_rejected_in_source_order() {
    let defs = vec![
        obj_def("User", &[], pos(1, 1)),
        obj_def("User", &[], pos(4, 1)),
    ];
    match SchemaInfo::build(defs) {
        Err(CodegenError::MultipleObjectTypeDefinitions { first, second }) => {
            assert_eq!(first, pos(1, 1));
            assert_eq!(second, pos(4, 1));
        },
        other => panic!("expected MultipleObjectTypeDefinitions, got {:?}", other),
    }
}

#[test]
fn duplicate_schema_blocks_are_rejected_in_source_order() {
    let defs = vec![
        schema_def(Some("Query"), pos(1, 1)),
        schema_def(Some("Query"), pos(9, 1)),
    ];
    match SchemaInfo::build(defs) {
        Err(CodegenError::MultipleSchemaDefinitions { first, second }) => {
            assert_eq!(first, pos(1, 1));
            assert_eq!(second, pos(9, 1));
        },
        other => panic!("expected MultipleSchemaDefinitions, got {:?}", other),
    }
}

#[test]
fn missing_schema_block_is_rejected() {
    let defs = vec![obj_def("Query", &[("me", named("User"))], pos(1, 1))];
    match SchemaInfo::build(defs) {
        Err(CodegenError::NoSchemaDefinitionFound) => {},
        other => panic!("expected NoSchemaDefinitionFound, got {:?}", other),
    }
}

#[test]
fn unsupported_definition_kinds_are_rejected_not_skipped() {
    let defs = vec![
        schema_def(Some("Query"), pos(1, 1)),
        Definition::Unsupported(UnsupportedKind::Interface, pos(3, 1)),
        obj_def("Query", &[], pos(6, 1)),
    ];
    match SchemaInfo::build(defs) {
        Err(CodegenError::UnsupportedDefinitionKind(kind, at)) => {
            assert_eq!(kind, UnsupportedKind::Interface);
            assert_eq!(at, pos(3, 1));
        },
        other => panic!("expected UnsupportedDefinitionKind, got {:?}", other),
    }
}

#[test]
fn first_error_wins_over_later_duplicates() {
    let defs = vec![
        schema_def(Some("Query"), pos(1, 1)),
        Definition::Unsupported(UnsupportedKind::Scalar, pos(2, 1)),
        enum_def("Color", &["RED"], pos(3, 1)),
        enum_def("Color", &["GREEN"], pos(4, 1)),
    ];
    match SchemaInfo::build(defs) {
        Err(CodegenError::UnsupportedDefinitionKind(kind, at)) => {
            assert_eq!(kind, UnsupportedKind::Scalar);
            assert_eq!(at, pos(2, 1));
        },
        other => panic!("expected UnsupportedDefinitionKind, got {:?}", other),
    }
}
