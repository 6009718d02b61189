//! The data model of an IDL schema document: positions, type expressions,
//! enum/object/schema-root definitions, and the closed set of definition
//! kinds that the generator recognises but does not translate.
//!
//! Every executable type here has a deep view (a mathematical model built
//! from `Seq` and plain values) that the contracts of the rest of the crate
//! are stated over.

use vstd::prelude::*;

verus! {

/// A source location (line and column), attached to every definition.
/// Used solely for diagnostics, never for logic.
#[derive(Clone, Copy, Debug, PartialEq, Eq, Structural)]
pub struct Position {
    pub line: usize,
    pub column: usize,
}

impl DeepView for Position {
    type V = Position;

    open spec fn deep_view(&self) -> Position {
        *self
    }
}

/// A type expression of the IDL: a named type, a list of an inner type
/// expression, or a non-null marker around an inner type expression.
#[derive(Debug)]
pub enum TypeExpr {
    Named(String),
    List(Box<TypeExpr>),
    NonNull(Box<TypeExpr>),
}

/// Which wrapper a non-leaf node of a `TypeExpr` is.
#[derive(Clone, Copy, Debug, PartialEq, Eq, Structural)]
pub enum TypeWrap {
    List,
    NonNull,
}

/// The model of a `TypeExpr`. A type expression is a chain of `List` /
/// `NonNull` wrappers ending in a named type, so its model is the sequence
/// of wrappers (outermost first) together with the name at the leaf.
#[verifier::ext_equal]
pub struct TypeExprView {
    pub wraps: Seq<TypeWrap>,
    pub name: Seq<char>,
}

/// The model of a type expression: the wrapper chain is flattened into a
/// sequence, outermost wrapper first.
pub open spec fn type_expr_view(t: TypeExpr) -> TypeExprView
    decreases t,
{
    match t {
        TypeExpr::Named(n) => TypeExprView { wraps: Seq::empty(), name: n.deep_view() },
        TypeExpr::List(inner) => TypeExprView {
            wraps: seq![TypeWrap::List] + type_expr_view(*inner).wraps,
            name: type_expr_view(*inner).name,
        },
        TypeExpr::NonNull(inner) => TypeExprView {
            wraps: seq![TypeWrap::NonNull] + type_expr_view(*inner).wraps,
            name: type_expr_view(*inner).name,
        },
    }
}

impl DeepView for TypeExpr {
    type V = TypeExprView;

    open spec fn deep_view(&self) -> TypeExprView {
        type_expr_view(*self)
    }
}

/// A field of an object type: its name and its declared type expression.
/// Field arguments are not modelled.
#[derive(Debug)]
pub struct FieldDef {
    pub name: String,
    pub field_type: TypeExpr,
}

#[verifier::ext_equal]
pub struct FieldDefView {
    pub name: Seq<char>,
    pub field_type: TypeExprView,
}

impl DeepView for FieldDef {
    type V = FieldDefView;

    open spec fn deep_view(&self) -> FieldDefView {
        FieldDefView { name: self.name.deep_view(), field_type: self.field_type.deep_view() }
    }
}

/// An enum type definition: a name, the names of its values, and where it
/// was declared.
#[derive(Clone, Debug, PartialEq, Eq)]
pub struct EnumTypeDef {
    pub name: String,
    pub values: Vec<String>,
    pub position: Position,
}

#[verifier::ext_equal]
pub struct EnumTypeDefView {
    pub name: Seq<char>,
    pub values: Seq<Seq<char>>,
    pub position: Position,
}

impl DeepView for EnumTypeDef {
    type V = EnumTypeDefView;

    open spec fn deep_view(&self) -> EnumTypeDefView {
        EnumTypeDefView {
            name: self.name.deep_view(),
            values: self.values.deep_view(),
            position: self.position,
        }
    }
}

/// An object type definition: a name, its fields in declaration order, and
/// where it was declared.
#[derive(Debug)]
pub struct ObjectTypeDef {
    pub name: String,
    pub fields: Vec<FieldDef>,
    pub position: Position,
}

#[verifier::ext_equal]
pub struct ObjectTypeDefView {
    pub name: Seq<char>,
    pub fields: Seq<FieldDefView>,
    pub position: Position,
}

impl DeepView for ObjectTypeDef {
    type V = ObjectTypeDefView;

    open spec fn deep_view(&self) -> ObjectTypeDefView {
        ObjectTypeDefView {
            name: self.name.deep_view(),
            fields: self.fields.deep_view(),
            position: self.position,
        }
    }
}

/// The schema-root definition: the optionally declared query, mutation and
/// subscription type names, and where the block was declared.
#[derive(Clone, Debug, PartialEq, Eq)]
pub struct SchemaRootDef {
    pub query: Option<String>,
    pub mutation: Option<String>,
    pub subscription: Option<String>,
    pub position: Position,
}

#[verifier::ext_equal]
pub struct SchemaRootDefView {
    pub query: Option<Seq<char>>,
    pub mutation: Option<Seq<char>>,
    pub subscription: Option<Seq<char>>,
    pub position: Position,
}

impl DeepView for SchemaRootDef {
    type V = SchemaRootDefView;

    open spec fn deep_view(&self) -> SchemaRootDefView {
        SchemaRootDefView {
            query: self.query.deep_view(),
            mutation: self.mutation.deep_view(),
            subscription: self.subscription.deep_view(),
            position: self.position,
        }
    }
}

/// The definition kinds the registry recognises but cannot translate yet.
/// Meeting one is always a hard error, never a silent skip.
#[derive(Clone, Copy, Debug, PartialEq, Eq, Structural)]
pub enum UnsupportedKind {
    Scalar,
    Interface,
    Union,
    InputObject,
    TypeExtension,
    DirectiveDefinition,
}

/// One top-level definition of an IDL document.
#[derive(Debug)]
pub enum Definition {
    Schema(SchemaRootDef),
    Enum(EnumTypeDef),
    Object(ObjectTypeDef),
    Unsupported(UnsupportedKind, Position),
}

#[verifier::ext_equal]
pub enum DefinitionView {
    Schema(SchemaRootDefView),
    Enum(EnumTypeDefView),
    Object(ObjectTypeDefView),
    Unsupported(UnsupportedKind, Position),
}

impl DeepView for Definition {
    type V = DefinitionView;

    open spec fn deep_view(&self) -> DefinitionView {
        match self {
            Definition::Schema(s) => DefinitionView::Schema(s.deep_view()),
            Definition::Enum(e) => DefinitionView::Enum(e.deep_view()),
            Definition::Object(o) => DefinitionView::Object(o.deep_view()),
            Definition::Unsupported(k, p) => DefinitionView::Unsupported(*k, *p),
        }
    }
}

} // verus!
