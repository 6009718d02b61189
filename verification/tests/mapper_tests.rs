use juniper_schema::ast::TypeExpr;
use juniper_schema::mapper::map_type;
use juniper_schema::mapper::render_type;
use juniper_schema::options::CodegenOptions;

fn no_options() -> CodegenOptions {
    CodegenOptions::new(None, Vec::new())
}

fn mapped(t: TypeExpr, nullable: bool, options: &CodegenOptions) -> String {
    render_type(&map_type(&t, nullable, options))
}

fn named(n: &str) -> TypeExpr {
    TypeExpr::Named(n.to_string())
}

#[test]
fn bare_int_maps_to_optional_builtin_int() {
    assert_eq!(mapped(named("Int"), true, &no_options()), "Option<i32>");
}

#[test]
fn non_null_int_maps_to_unwrapped_builtin_int() {
    let t = TypeExpr::NonNull(Box::new(named("Int")));
    assert_eq!(mapped(t, true, &no_options()), "i32");
}

#[test]
fn list_of_non_null_string_maps_to_optional_sequence_of_strings() {
    let t = TypeExpr::List(Box::new(TypeExpr::NonNull(Box::new(named("String")))));
    assert_eq!(mapped(t, true, &no_options()), "Option<Vec<String>>");
}

#[test]
fn non_null_list_of_string_maps_to_sequence_of_optional_strings() {
    let t = TypeExpr::NonNull(Box::new(TypeExpr::List(Box::new(named("String")))));
    assert_eq!(mapped(t, true, &no_options()), "Vec<Option<String>>");
}

#[test]
fn every_builtin_scalar_has_its_fixed_target() {
    let opts = no_options();
    assert_eq!(mapped(named("Int"), false, &opts), "i32");
    assert_eq!(mapped(named("Float"), false, &opts), "f64");
    assert_eq!(mapped(named("String"), false, &opts), "String");
    assert_eq!(mapped(named("Boolean"), false, &opts), "bool");
    assert_eq!(mapped(named("ID"), false, &opts), "juniper::ID");
}

#[test]
fn non_null_suppresses_one_optional_layer_only() {
    let t = TypeExpr::NonNull(Box::new(TypeExpr::List(Box::new(TypeExpr::List(Box::new(
        named("Int"),
    ))))));
    assert_eq!(mapped(t, true, &no_options()), "Vec<Option<Vec<Option<i32>>>>");
}

#[test]
fn unmapped_names_pass_through_unchanged() {
    let opts = no_options();
    assert_eq!(opts.graphql_type_name_to_rust_type(&"User".to_string()), "User");
    assert_eq!(mapped(named("User"), true, &opts), "Option<User>");
}

#[test]
fn override_entries_rename_named_types() {
    let opts = CodegenOptions::new(None, vec![("User".to_string(), "MyUser".to_string())]);
    assert_eq!(opts.graphql_type_name_to_rust_type(&"User".to_string()), "MyUser");
    assert_eq!(mapped(named("User"), true, &opts), "Option<MyUser>");
}

#[test]
fn later_override_entries_win() {
    let opts = CodegenOptions::new(
        None,
        vec![
            ("User".to_string(), "FirstUser".to_string()),
            ("User".to_string(), "SecondUser".to_string()),
        ],
    );
    assert_eq!(opts.graphql_type_name_to_rust_type(&"User".to_string()), "SecondUser");
}

#[test]
fn overrides_do_not_touch_builtin_scalars() {
    let opts = CodegenOptions::new(None, vec![("Int".to_string(), "MyInt".to_string())]);
    assert_eq!(mapped(named("Int"), false, &opts), "i32");
}
