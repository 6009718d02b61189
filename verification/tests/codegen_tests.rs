use juniper_schema::ast::Definition;
use juniper_schema::ast::EnumTypeDef;
use juniper_schema::ast::FieldDef;
use juniper_schema::ast::ObjectTypeDef;
use juniper_schema::ast::Position;
use juniper_schema::ast::SchemaRootDef;
use juniper_schema::ast::TypeExpr;
use juniper_schema::ast::UnsupportedKind;
use juniper_schema::codegen::Codegen;
use juniper_schema::options::CodegenOptions;
use juniper_schema::options::ContextType;
use juniper_schema::sample::Context;
use juniper_schema::sample::Query;
use juniper_schema::schema_info::SchemaInfo;
use juniper_schema::CodegenError;

fn at(line: usize) -> Position {
    Position { line, column: 1 }
}

fn schema_block(query: Option<&str>, line: usize) -> Definition {
    Definition::Schema(SchemaRootDef {
        query: query.map(|q| q.to_string()),
        mutation: None,
        subscription: None,
        position: at(line),
    })
}

fn object(name: &str, fields: Vec<(&str, TypeExpr)>, line: usize) -> Definition {
    Definition::Object(ObjectTypeDef {
        name: name.to_string(),
        fields: fields
            .into_iter()
            .map(|(n, t)| FieldDef { name: n.to_string(), field_type: t })
            .collect(),
        position: at(line),
    })
}

fn sample_doc() -> Vec<Definition> {
    vec![
        schema_block(Some("Query"), 1),
        object("Query", vec![("me", TypeExpr::Named("User".to_string()))], 2),
        object(
            "User",
            vec![("id", TypeExpr::NonNull(Box::new(TypeExpr::Named("ID".to_string()))))],
            5,
        ),
    ]
}

fn ctx_options(overrides: Vec<(&str, &str)>) -> CodegenOptions {
    CodegenOptions::new(
        Some(ContextType::new("Context".to_string())),
        overrides.into_iter().map(|(a, b)| (a.to_string(), b.to_string())).collect(),
    )
}

#[test]
fn full_generation_emits_the_expected_source_text() {
    let cg = Codegen::new("MyRootNode".to_string(), sample_doc(), ctx_options(vec![]))
        .expect("construction must succeed");
    let out = cg.generate().expect("generation must succeed");
    let expected = r#"struct __QueryWrapper {
    impl_: Query,
}
impl __QueryWrapper {
    pub fn new(impl_: Query) -> Self {
        __QueryWrapper { impl_ }
    }
}
#[juniper::graphql_object(name="Query", context=Context)]
impl __QueryWrapper {
    pub async fn me(&self, ctx: &Context) -> Option<User> {
        self.impl_.me(ctx).await
    }
}
struct __UserWrapper {
    impl_: User,
}
impl __UserWrapper {
    pub fn new(impl_: User) -> Self {
        __UserWrapper { impl_ }
    }
}
#[juniper::graphql_object(name="User", context=Context)]
impl __UserWrapper {
    pub async fn id(&self, ctx: &Context) -> juniper::ID {
        self.impl_.id(ctx).await
    }
}
pub struct MyRootNode;
impl MyRootNode {
    pub fn new(query: Query) -> juniper::RootNode<'static, __QueryWrapper, juniper::EmptyMutation<Context>, juniper::EmptySubscription<Context>> {
        juniper::RootNode::new(__QueryWrapper::new(query), juniper::EmptyMutation::new(), juniper::EmptySubscription::new())
    }
}
"#;
    assert_eq!(out, expected);
}

#[test]
fn generation_is_idempotent() {
    let cg = Codegen::new("MyRootNode".to_string(), sample_doc(), ctx_options(vec![]))
        .expect("construction must succeed");
    let first = cg.generate().expect("generation must succeed");
    let second = cg.generate().expect("generation must succeed");
    assert_eq!(first, second);

    let other = Codegen::new("MyRootNode".to_string(), sample_doc(), ctx_options(vec![]))
        .expect("construction must succeed");
    let third = other.generate().expect("generation must succeed");
    assert_eq!(first, third);
}

#[test]
fn override_map_renames_the_delegate_return_type() {
    let cg = Codegen::new(
        "MyRootNode".to_string(),
        sample_doc(),
        ctx_options(vec![("User", "MyUser")]),
    )
    .expect("construction must succeed");
    let out = cg.generate().expect("generation must succeed");
    assert!(out.contains("    pub async fn me(&self, ctx: &Context) -> Option<MyUser> {\n"));
    assert!(out.contains("struct __UserWrapper {\n    impl_: MyUser,\n}\n"));
}

#[test]
fn without_a_context_type_no_context_parameter_is_emitted() {
    let cg = Codegen::new(
        "Root".to_string(),
        sample_doc(),
        CodegenOptions::new(None, Vec::new()),
    )
    .expect("construction must succeed");
    let out = cg.generate().expect("generation must succeed");
    assert!(out.contains("    pub async fn me(&self) -> Option<User> {\n"));
    assert!(out.contains("        self.impl_.me().await\n"));
}

#[test]
fn undefined_override_key_is_rejected() {
    match Codegen::new(
        "Root".to_string(),
        sample_doc(),
        ctx_options(vec![("Missing", "X")]),
    ) {
        Err(CodegenError::UndefinedGraphQLType { graphql_name, rust_name }) => {
            assert_eq!(graphql_name, "Missing");
            assert_eq!(rust_name, "X");
        },
        other => panic!("expected UndefinedGraphQLType, got {:?}", other.map(|_| ())),
    }
}

#[test]
fn validate_accepts_override_keys_that_the_document_defines() {
    let info = SchemaInfo::build(sample_doc()).expect("a clean document must build");
    let good = ctx_options(vec![("User", "MyUser"), ("Query", "Query")]);
    assert!(good.validate(&info).is_ok());
    let bad = ctx_options(vec![("User", "MyUser"), ("Ghost", "X")]);
    match bad.validate(&info) {
        Err(CodegenError::UndefinedGraphQLType { graphql_name, .. }) => {
            assert_eq!(graphql_name, "Ghost");
        },
        other => panic!("expected UndefinedGraphQLType, got {:?}", other),
    }
}

#[test]
fn a_schema_without_query_type_fails_generation() {
    let defs = vec![
        schema_block(None, 1),
        object("Query", vec![], 2),
    ];
    let cg = Codegen::new("Root".to_string(), defs, CodegenOptions::new(None, Vec::new()))
        .expect("construction must succeed");
    match cg.generate() {
        Err(CodegenError::NoQueryDefinitionFound) => {},
        other => panic!("expected NoQueryDefinitionFound, got {:?}", other),
    }
}

#[test]
fn a_query_type_that_is_not_an_object_fails_generation() {
    let defs = vec![
        schema_block(Some("Query"), 1),
        Definition::Enum(EnumTypeDef {
            name: "Query".to_string(),
            values: vec!["A".to_string()],
            position: at(2),
        }),
    ];
    let cg = Codegen::new("Root".to_string(), defs, CodegenOptions::new(None, Vec::new()))
        .expect("construction must succeed");
    match cg.generate() {
        Err(CodegenError::NoQueryDefinitionFound) => {},
        other => panic!("expected NoQueryDefinitionFound, got {:?}", other),
    }
}

#[test]
fn wrapper_idents_follow_the_naming_scheme() {
    let cg = Codegen::new("Root".to_string(), sample_doc(), ctx_options(vec![]))
        .expect("construction must succeed");
    assert_eq!(cg.get_wrapper_type_ident(&"Query".to_string()), "__QueryWrapper");
}

#[test]
fn error_messages_name_both_sides_of_a_bad_mapping() {
    let err = CodegenError::UndefinedGraphQLType {
        graphql_name: "Missing".to_string(),
        rust_name: "X".to_string(),
    };
    assert_eq!(
        err.message(),
        "Error mapping GraphQLType(`Missing`) -> RustType(`X`): `Missing` \
         is not a type defined in your GraphQL schema."
    );
}

#[test]
fn error_messages_carry_both_positions_of_a_duplicate() {
    let err = CodegenError::MultipleEnumTypeDefinitions {
        first: Position { line: 12, column: 3 },
        second: Position { line: 47, column: 19 },
    };
    assert_eq!(
        err.message(),
        "multiple enum type definitions with one name: first at line 12, column 3, second at line 47, column 19"
    );
}

#[test]
fn error_messages_exist_for_every_variant() {
    let p = at(3);
    assert_eq!(
        CodegenError::NoSchemaDefinitionFound.message(),
        "no schema definition found in the GraphQL document"
    );
    assert_eq!(
        CodegenError::NoQueryDefinitionFound.message(),
        "no query definition found for the schema"
    );
    assert_eq!(
        CodegenError::IoError("boom".to_string()).message(),
        "error reading the GraphQL schema: boom"
    );
    assert_eq!(
        CodegenError::SchemaParseError("bad token".to_string()).message(),
        "error parsing the GraphQL schema: bad token"
    );
    assert_eq!(
        CodegenError::UnsupportedDefinitionKind(UnsupportedKind::Union, p).message(),
        "unsupported GraphQL definition kind (union) at line 3, column 1"
    );
    assert_eq!(
        CodegenError::MultipleObjectTypeDefinitions { first: at(1), second: at(2) }.message(),
        "multiple object type definitions with one name: first at line 1, column 1, second at line 2, column 1"
    );
    assert_eq!(
        CodegenError::MultipleSchemaDefinitions { first: at(1), second: at(2) }.message(),
        "multiple schema definitions in one document: first at line 1, column 1, second at line 2, column 1"
    );
}

#[test]
fn the_sample_query_resolves_a_user() {
    let q = Query;
    assert!(q.me(&Context).is_some());
}

#[test]
fn an_empty_document_has_no_schema_block() {
    match SchemaInfo::build(Vec::new()) {
        Err(CodegenError::NoSchemaDefinitionFound) => {},
        other => panic!("expected NoSchemaDefinitionFound, got {:?}", other),
    }
}

#[test]
fn a_document_without_object_types_emits_no_wrappers() {
    let defs = vec![schema_block(Some("Query"), 1)];
    let cg = Codegen::new("Root".to_string(), defs, CodegenOptions::new(None, Vec::new()))
        .expect("construction must succeed");
    assert_eq!(cg.generate_object_types(), "");
    match cg.generate_root_node_wrapper() {
        Err(CodegenError::NoQueryDefinitionFound) => {},
        other => panic!("expected NoQueryDefinitionFound, got {:?}", other),
    }
}
