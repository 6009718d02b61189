//! A code generator for an IDL schema language: it turns a validated
//! registry of object and enum type definitions into host-language source
//! text, with one delegating wrapper per object type and a root-node
//! construct wired to the schema's declared query type.
//!
//! The pipeline is: definitions (the plain form of a parsed schema
//! document) -> [`schema_info::SchemaInfo`] -> options validation ->
//! generated bindings, and every step is specified over mathematical
//! models of the data it handles.

use vstd::prelude::*;

pub mod ast;
pub mod codegen;
pub mod mapper;
pub mod options;
pub mod sample;
pub mod schema_info;
pub mod text;

use crate::ast::Position;
use crate::ast::UnsupportedKind;
use crate::text::spec_usize_str;
use crate::text::push_usize;

verus! {

/// The diagnostic name of an unsupported definition kind.
pub open spec fn spec_kind_name(k: UnsupportedKind) -> Seq<char> {
    match k {
        UnsupportedKind::Scalar => "scalar"@,
        UnsupportedKind::Interface => "interface"@,
        UnsupportedKind::Union => "union"@,
        UnsupportedKind::InputObject => "input object"@,
        UnsupportedKind::TypeExtension => "type extension"@,
        UnsupportedKind::DirectiveDefinition => "directive definition"@,
    }
}

/// The diagnostic rendering of a source position.
pub open spec fn spec_position_text(p: Position) -> Seq<char> {
    "line "@ + spec_usize_str(p.line as nat) + ", column "@ + spec_usize_str(p.column as nat)
}

/// Everything that can abort one generation run. Every error is terminal:
/// the first error encountered replaces all generated output.
#[derive(Clone, Debug, PartialEq, Eq)]
pub enum CodegenError {
    /// The schema source could not be read; carries the reader's message.
    IoError(String),
    /// The schema source is not syntactically valid IDL; carries the
    /// parser's diagnostic.
    SchemaParseError(String),
    /// A recognised but untranslatable definition kind was encountered.
    UnsupportedDefinitionKind(UnsupportedKind, Position),
    /// Two enum definitions share one name; `first` is where the name was
    /// first defined, `second` where it was defined again.
    MultipleEnumTypeDefinitions { first: Position, second: Position },
    /// Two object definitions share one name, reported as above.
    MultipleObjectTypeDefinitions { first: Position, second: Position },
    /// More than one schema-root block, reported as above.
    MultipleSchemaDefinitions { first: Position, second: Position },
    /// The document has no schema-root block at all.
    NoSchemaDefinitionFound,
    /// The schema-root names no query type, or names one that is not
    /// defined as an object type.
    NoQueryDefinitionFound,
    /// A type-override entry maps an IDL name that the document does not
    /// define; carries both sides of the offending mapping.
    UndefinedGraphQLType { graphql_name: String, rust_name: String },
}

/// The model of a [`CodegenError`].
#[verifier::ext_equal]
pub enum CodegenErrorView {
    IoError(Seq<char>),
    SchemaParseError(Seq<char>),
    UnsupportedDefinitionKind(UnsupportedKind, Position),
    MultipleEnumTypeDefinitions { first: Position, second: Position },
    MultipleObjectTypeDefinitions { first: Position, second: Position },
    MultipleSchemaDefinitions { first: Position, second: Position },
    NoSchemaDefinitionFound,
    NoQueryDefinitionFound,
    UndefinedGraphQLType { graphql_name: Seq<char>, rust_name: Seq<char> },
}

impl DeepView for CodegenError {
    type V = CodegenErrorView;

    open spec fn deep_view(&self) -> CodegenErrorView {
        match self {
            CodegenError::IoError(m) => CodegenErrorView::IoError(m.deep_view()),
            CodegenError::SchemaParseError(m) => CodegenErrorView::SchemaParseError(m.deep_view()),
            CodegenError::UnsupportedDefinitionKind(k, p) => CodegenErrorView::UnsupportedDefinitionKind(*k, *p),
            CodegenError::MultipleEnumTypeDefinitions { first, second } => CodegenErrorView::MultipleEnumTypeDefinitions { first: *first, second: *second },
            CodegenError::MultipleObjectTypeDefinitions { first, second } => CodegenErrorView::MultipleObjectTypeDefinitions { first: *first, second: *second },
            CodegenError::MultipleSchemaDefinitions { first, second } => CodegenErrorView::MultipleSchemaDefinitions { first: *first, second: *second },
            CodegenError::NoSchemaDefinitionFound => CodegenErrorView::NoSchemaDefinitionFound,
            CodegenError::NoQueryDefinitionFound => CodegenErrorView::NoQueryDefinitionFound,
            CodegenError::UndefinedGraphQLType { graphql_name, rust_name } => CodegenErrorView::UndefinedGraphQLType {
                graphql_name: graphql_name.deep_view(),
                rust_name: rust_name.deep_view(),
            },
        }
    }
}

/// The single descriptive line an error surfaces as.
pub open spec fn spec_message(e: CodegenErrorView) -> Seq<char> {
    match e {
        CodegenErrorView::IoError(m) => "error reading the GraphQL schema: "@ + m,
        CodegenErrorView::SchemaParseError(m) => "error parsing the GraphQL schema: "@ + m,
        CodegenErrorView::UnsupportedDefinitionKind(k, p) => "unsupported GraphQL definition kind ("@
            + spec_kind_name(k) + ") at "@ + spec_position_text(p),
        CodegenErrorView::MultipleEnumTypeDefinitions { first, second } => "multiple enum type definitions with one name: first at "@
            + spec_position_text(first) + ", second at "@ + spec_position_text(second),
        CodegenErrorView::MultipleObjectTypeDefinitions { first, second } => "multiple object type definitions with one name: first at "@
            + spec_position_text(first) + ", second at "@ + spec_position_text(second),
        CodegenErrorView::MultipleSchemaDefinitions { first, second } => "multiple schema definitions in one document: first at "@
            + spec_position_text(first) + ", second at "@ + spec_position_text(second),
        CodegenErrorView::NoSchemaDefinitionFound => "no schema definition found in the GraphQL document"@,
        CodegenErrorView::NoQueryDefinitionFound => "no query definition found for the schema"@,
        CodegenErrorView::UndefinedGraphQLType { graphql_name, rust_name } => "Error mapping GraphQLType(`"@
            + graphql_name + "`) -> RustType(`"@ + rust_name + "`): `"@ + graphql_name
            + "` is not a type defined in your GraphQL schema."@,
    }
}

fn kind_name(k: UnsupportedKind) -> (r: &'static str)
    ensures
        r@ == spec_kind_name(k),
{
    match k {
        UnsupportedKind::Scalar => "scalar",
        UnsupportedKind::Interface => "interface",
        UnsupportedKind::Union => "union",
        UnsupportedKind::InputObject => "input object",
        UnsupportedKind::TypeExtension => "type extension",
        UnsupportedKind::DirectiveDefinition => "directive definition",
    }
}

fn push_position(out: &mut String, p: Position)
    ensures
        final(out)@ == old(out)@ + spec_position_text(p),
{
    let ghost base = out@;
    out.append("line ");
    push_usize(out, p.line);
    out.append(", column ");
    push_usize(out, p.column);
    proof {
        assert(out@ =~= base + spec_position_text(p));
    }
}

fn push_position_pair(out: &mut String, first: Position, second: Position)
    ensures
        final(out)@ == old(out)@ + spec_position_text(first) + ", second at "@
            + spec_position_text(second),
{
    let ghost base = out@;
    push_position(out, first);
    out.append(", second at ");
    push_position(out, second);
    proof {
        assert(out@ =~= base + spec_position_text(first) + ", second at "@
            + spec_position_text(second));
    }
}

impl CodegenError {
    /// The single descriptive line this error surfaces as, as
    /// [`spec_message`] lays down.
    pub fn message(&self) -> (r: String)
        ensures
            r@ == spec_message(self.deep_view()),
    {
        match self {
            CodegenError::IoError(m) => {
                let mut out = String::from_str("error reading the GraphQL schema: ");
                out.append(m.as_str());
                proof {
                    assert(out@ =~= spec_message(self.deep_view()));
                }
                out
            },
            CodegenError::SchemaParseError(m) => {
                let mut out = String::from_str("error parsing the GraphQL schema: ");
                out.append(m.as_str());
                proof {
                    assert(out@ =~= spec_message(self.deep_view()));
                }
                out
            },
            CodegenError::UnsupportedDefinitionKind(k, p) => {
                let mut out = String::from_str("unsupported GraphQL definition kind (");
                out.append(kind_name(*k));
                out.append(") at ");
                push_position(&mut out, *p);
                proof {
                    assert(out@ =~= spec_message(self.deep_view()));
                }
                out
            },
            CodegenError::MultipleEnumTypeDefinitions { first, second } => {
                let mut out = String::from_str("multiple enum type definitions with one name: first at ");
                push_position_pair(&mut out, *first, *second);
                proof {
                    assert(out@ =~= spec_message(self.deep_view()));
                }
                out
            },
            CodegenError::MultipleObjectTypeDefinitions { first, second } => {
                let mut out = String::from_str("multiple object type definitions with one name: first at ");
                push_position_pair(&mut out, *first, *second);
                proof {
                    assert(out@ =~= spec_message(self.deep_view()));
                }
                out
            },
            CodegenError::MultipleSchemaDefinitions { first, second } => {
                let mut out = String::from_str("multiple schema definitions in one document: first at ");
                push_position_pair(&mut out, *first, *second);
                proof {
                    assert(out@ =~= spec_message(self.deep_view()));
                }
                out
            },
            CodegenError::NoSchemaDefinitionFound => {
                String::from_str("no schema definition found in the GraphQL document")
            },
            CodegenError::NoQueryDefinitionFound => {
                String::from_str("no query definition found for the schema")
            },
            CodegenError::UndefinedGraphQLType { graphql_name, rust_name } => {
                let mut out = String::from_str("Error mapping GraphQLType(`");
                out.append(graphql_name.as_str());
                out.append("`) -> RustType(`");
                out.append(rust_name.as_str());
                out.append("`): `");
                out.append(graphql_name.as_str());
                out.append("` is not a type defined in your GraphQL schema.");
                proof {
                    assert(out@ =~= spec_message(self.deep_view()));
                }
                out
            },
        }
    }
}

} // verus!
