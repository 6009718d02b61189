//! The type-mapping engine: a pure, recursive translation of an IDL type
//! expression into a host-language type expression, given the user's
//! name overrides. Nullability is a property of a position in the type
//! expression tree: a bare named type or list is wrapped in an optional
//! container unless the surrounding position is non-null, and a non-null
//! marker suppresses exactly one layer of optional wrapping.

use vstd::prelude::*;

use crate::ast::TypeExpr;
use crate::ast::TypeExprView;
use crate::ast::TypeWrap;
use crate::options::resolve_name;
use crate::options::CodegenOptions;
use crate::text::string_eq_str;

verus! {

/// A host-language type expression, as the generator emits it.
#[derive(Debug)]
pub enum RustType {
    /// An optional value: `Option<inner>`.
    Optional(Box<RustType>),
    /// A growable sequence: `Vec<inner>`.
    Sequence(Box<RustType>),
    /// The builtin 32-bit integer type, for the IDL's `Int`.
    Int32,
    /// The builtin 64-bit floating type name, for the IDL's `Float`.
    Float64,
    /// The builtin owned string type, for the IDL's `String`.
    Str,
    /// The builtin boolean type, for the IDL's `Boolean`.
    Boolean,
    /// The framework's identifier type, for the IDL's `ID`.
    Id,
    /// A host type referred to by name.
    Named(String),
}

/// Which container a non-leaf node of a `RustType` is.
#[derive(Clone, Copy, Debug, PartialEq, Eq, Structural)]
pub enum RustWrap {
    Optional,
    Sequence,
}

/// The leaf of a `RustType`.
#[verifier::ext_equal]
pub enum RustBaseView {
    Int32,
    Float64,
    Str,
    Boolean,
    Id,
    Named(Seq<char>),
}

/// The model of a `RustType`: the container chain is flattened into a
/// sequence, outermost container first, ending in the leaf.
#[verifier::ext_equal]
pub struct RustTypeView {
    pub wraps: Seq<RustWrap>,
    pub base: RustBaseView,
}

/// The model of a host type expression, flattened as for `TypeExprView`.
pub open spec fn rust_type_view(t: RustType) -> RustTypeView
    decreases t,
{
    match t {
        RustType::Optional(inner) => RustTypeView {
            wraps: seq![RustWrap::Optional] + rust_type_view(*inner).wraps,
            base: rust_type_view(*inner).base,
        },
        RustType::Sequence(inner) => RustTypeView {
            wraps: seq![RustWrap::Sequence] + rust_type_view(*inner).wraps,
            base: rust_type_view(*inner).base,
        },
        RustType::Int32 => RustTypeView { wraps: Seq::empty(), base: RustBaseView::Int32 },
        RustType::Float64 => RustTypeView { wraps: Seq::empty(), base: RustBaseView::Float64 },
        RustType::Str => RustTypeView { wraps: Seq::empty(), base: RustBaseView::Str },
        RustType::Boolean => RustTypeView { wraps: Seq::empty(), base: RustBaseView::Boolean },
        RustType::Id => RustTypeView { wraps: Seq::empty(), base: RustBaseView::Id },
        RustType::Named(n) => RustTypeView { wraps: Seq::empty(), base: RustBaseView::Named(n.deep_view()) },
    }
}

impl DeepView for RustType {
    type V = RustTypeView;

    open spec fn deep_view(&self) -> RustTypeView {
        rust_type_view(*self)
    }
}

/// What a bare IDL type name maps to: one of the five builtin scalar
/// names maps to its fixed builtin target, and any other name resolves
/// through the override table, passing through unchanged if unmapped.
pub open spec fn spec_map_base(name: Seq<char>, overrides: Seq<(Seq<char>, Seq<char>)>) -> RustBaseView {
    if name == "Int"@ {
        RustBaseView::Int32
    } else if name == "Float"@ {
        RustBaseView::Float64
    } else if name == "String"@ {
        RustBaseView::Str
    } else if name == "Boolean"@ {
        RustBaseView::Boolean
    } else if name == "ID"@ {
        RustBaseView::Id
    } else {
        RustBaseView::Named(resolve_name(overrides, name))
    }
}

/// The type-mapping rules over models. `nullable` says whether the
/// position the expression stands in admits absence; a list's elements
/// are always mapped in a nullable position, and a non-null marker maps
/// its inner expression with `nullable` false, affecting only the
/// immediate level.
pub open spec fn spec_map_type(t: TypeExprView, nullable: bool, overrides: Seq<(Seq<char>, Seq<char>)>) -> RustTypeView
    decreases t.wraps.len(),
{
    if t.wraps.len() == 0 {
        RustTypeView {
            wraps: if nullable {
                seq![RustWrap::Optional]
            } else {
                Seq::empty()
            },
            base: spec_map_base(t.name, overrides),
        }
    } else {
        let rest = TypeExprView { wraps: t.wraps.drop_first(), name: t.name };
        match t.wraps.first() {
            TypeWrap::List => {
                let inner = spec_map_type(rest, true, overrides);
                RustTypeView {
                    wraps: (if nullable {
                        seq![RustWrap::Optional]
                    } else {
                        Seq::empty()
                    }) + seq![RustWrap::Sequence] + inner.wraps,
                    base: inner.base,
                }
            },
            TypeWrap::NonNull => spec_map_type(rest, false, overrides),
        }
    }
}

/// Maps an IDL type expression onto a host type expression, as
/// [`spec_map_type`] lays down. Pure and total: unknown names fall
/// through the override table unchanged.
pub fn map_type(t: &TypeExpr, nullable: bool, options: &CodegenOptions) -> (r: RustType)
    ensures
        r.deep_view() == spec_map_type(t.deep_view(), nullable, options.rust_types.deep_view()),
    decreases t,
{
    match t {
        TypeExpr::Named(name) => {
            let base = if string_eq_str(name, "Int") {
                RustType::Int32
            } else if string_eq_str(name, "Float") {
                RustType::Float64
            } else if string_eq_str(name, "String") {
                RustType::Str
            } else if string_eq_str(name, "Boolean") {
                RustType::Boolean
            } else if string_eq_str(name, "ID") {
                RustType::Id
            } else {
                RustType::Named(options.graphql_type_name_to_rust_type(name))
            };
            let r = if nullable {
                RustType::Optional(Box::new(base))
            } else {
                base
            };
            proof {
                reveal_with_fuel(rust_type_view, 3);
                assert(r.deep_view() =~~= spec_map_type(t.deep_view(), nullable, options.rust_types.deep_view()));
            }
            r
        },
        TypeExpr::List(inner) => {
            let mapped_inner = map_type(inner, true, options);
            let seq_type = RustType::Sequence(Box::new(mapped_inner));
            let r = if nullable {
                RustType::Optional(Box::new(seq_type))
            } else {
                seq_type
            };
            proof {
                assert(t.deep_view().wraps.drop_first() =~= inner.deep_view().wraps);
                assert((TypeExprView {
                    wraps: t.deep_view().wraps.drop_first(),
                    name: t.deep_view().name,
                }) =~= inner.deep_view());
                reveal_with_fuel(rust_type_view, 3);
                assert(r.deep_view() =~~= spec_map_type(t.deep_view(), nullable, options.rust_types.deep_view()));
            }
            r
        },
        TypeExpr::NonNull(inner) => {
            let r = map_type(inner, false, options);
            proof {
                assert(t.deep_view().wraps.drop_first() =~= inner.deep_view().wraps);
                assert((TypeExprView {
                    wraps: t.deep_view().wraps.drop_first(),
                    name: t.deep_view().name,
                }) =~= inner.deep_view());
            }
            r
        },
    }
}

/// The source text of a host type expression.
pub open spec fn spec_render_base(b: RustBaseView) -> Seq<char> {
    match b {
        RustBaseView::Int32 => "i32"@,
        RustBaseView::Float64 => "f64"@,
        RustBaseView::Str => "String"@,
        RustBaseView::Boolean => "bool"@,
        RustBaseView::Id => "juniper::ID"@,
        RustBaseView::Named(n) => n,
    }
}

/// The source text of a host type expression, containers rendered
/// outside-in.
pub open spec fn spec_render_type(t: RustTypeView) -> Seq<char>
    decreases t.wraps.len(),
{
    if t.wraps.len() == 0 {
        spec_render_base(t.base)
    } else {
        let rest = RustTypeView { wraps: t.wraps.drop_first(), base: t.base };
        match t.wraps.first() {
            RustWrap::Optional => "Option<"@ + spec_render_type(rest) + ">"@,
            RustWrap::Sequence => "Vec<"@ + spec_render_type(rest) + ">"@,
        }
    }
}

/// Renders a host type expression as source text, as
/// [`spec_render_type`] lays down.
pub fn render_type(t: &RustType) -> (r: String)
    ensures
        r@ == spec_render_type(t.deep_view()),
    decreases t,
{
    match t {
        RustType::Optional(inner) => {
            let mut s = String::from_str("Option<");
            let inner_text = render_type(inner);
            s.append(inner_text.as_str());
            s.append(">");
            proof {
                assert(t.deep_view().wraps.drop_first() =~= inner.deep_view().wraps);
                assert((RustTypeView {
                    wraps: t.deep_view().wraps.drop_first(),
                    base: t.deep_view().base,
                }) =~= inner.deep_view());
                assert(s@ =~= spec_render_type(t.deep_view()));
            }
            s
        },
        RustType::Sequence(inner) => {
            let mut s = String::from_str("Vec<");
            let inner_text = render_type(inner);
            s.append(inner_text.as_str());
            s.append(">");
            proof {
                assert(t.deep_view().wraps.drop_first() =~= inner.deep_view().wraps);
                assert((RustTypeView {
                    wraps: t.deep_view().wraps.drop_first(),
                    base: t.deep_view().base,
                }) =~= inner.deep_view());
                assert(s@ =~= spec_render_type(t.deep_view()));
            }
            s
        },
        RustType::Int32 => String::from_str("i32"),
        RustType::Float64 => String::from_str("f64"),
        RustType::Str => String::from_str("String"),
        RustType::Boolean => String::from_str("bool"),
        RustType::Id => String::from_str("juniper::ID"),
        RustType::Named(n) => n.clone(),
    }
}

} // verus!

