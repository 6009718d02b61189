//! User-declared generation options: an optional request-context type and
//! the map from IDL type names to host type names, with its validation
//! against the registry.

use vstd::prelude::*;

use crate::schema_info::find_enum;
use crate::schema_info::find_obj;
use crate::schema_info::find_enum_index;
use crate::schema_info::find_obj_index;
use crate::schema_info::SchemaInfo;
use crate::schema_info::SchemaInfoView;
use crate::CodegenError;
use crate::CodegenErrorView;

verus! {

/// The request-scoped context type threaded into every delegating method.
/// One global context type is the only supported shape.
#[derive(Clone, Debug, PartialEq, Eq)]
pub enum ContextType {
    Global(String),
}

/// The model of a [`ContextType`].
#[verifier::ext_equal]
pub enum ContextTypeView {
    Global(Seq<char>),
}

impl DeepView for ContextType {
    type V = ContextTypeView;

    open spec fn deep_view(&self) -> ContextTypeView {
        match self {
            ContextType::Global(t) => ContextTypeView::Global(t.deep_view()),
        }
    }
}

impl ContextType {
    /// A global context type with the given host type name.
    pub fn new(host_type: String) -> (r: Self)
        ensures
            r.deep_view() == ContextTypeView::Global(host_type.deep_view()),
    {
        ContextType::Global(host_type)
    }
}

/// The options one generation runs under: the optional context type and
/// the IDL-name to host-type-name overrides, kept in declaration order.
/// A later entry for the same IDL name overrides an earlier one.
#[derive(Clone, Debug, PartialEq, Eq)]
pub struct CodegenOptions {
    pub context_type: Option<ContextType>,
    pub rust_types: Vec<(String, String)>,
}

/// The model of a [`CodegenOptions`].
#[verifier::ext_equal]
pub struct CodegenOptionsView {
    pub context_type: Option<ContextTypeView>,
    pub rust_types: Seq<(Seq<char>, Seq<char>)>,
}

impl DeepView for CodegenOptions {
    type V = CodegenOptionsView;

    open spec fn deep_view(&self) -> CodegenOptionsView {
        CodegenOptionsView {
            context_type: self.context_type.deep_view(),
            rust_types: self.rust_types.deep_view(),
        }
    }
}

/// What an IDL type name resolves to under the overrides: the host name
/// of the last entry for it, or the IDL name itself if no entry maps it.
pub open spec fn resolve_name(overrides: Seq<(Seq<char>, Seq<char>)>, name: Seq<char>) -> Seq<char>
    decreases overrides.len(),
{
    if overrides.len() == 0 {
        name
    } else if overrides.last().0 == name {
        overrides.last().1
    } else {
        resolve_name(overrides.drop_last(), name)
    }
}

/// `name` is defined in the registry, as an enum type or an object type.
pub open spec fn known_type_name(reg: SchemaInfoView, name: Seq<char>) -> bool {
    find_enum(reg.enum_types, name) is Some || find_obj(reg.obj_types, name) is Some
}

/// What validating the overrides against a registry returns: the first
/// entry, in declaration order, whose IDL name the registry does not
/// define is reported; with no such entry validation succeeds.
pub open spec fn spec_validate(overrides: Seq<(Seq<char>, Seq<char>)>, reg: SchemaInfoView) -> Result<(), CodegenErrorView>
    decreases overrides.len(),
{
    if overrides.len() == 0 {
        Ok(())
    } else if !known_type_name(reg, overrides.first().0) {
        Err(CodegenErrorView::UndefinedGraphQLType {
            graphql_name: overrides.first().0,
            rust_name: overrides.first().1,
        })
    } else {
        spec_validate(overrides.drop_first(), reg)
    }
}

proof fn lemma_validate_ok_iff(overrides: Seq<(Seq<char>, Seq<char>)>, reg: SchemaInfoView)
    ensures
        spec_validate(overrides, reg) is Ok <==> (forall|k: int|
            0 <= k < overrides.len() ==> known_type_name(reg, (#[trigger] overrides[k]).0)),
    decreases overrides.len(),
{
    if overrides.len() > 0 {
        lemma_validate_ok_iff(overrides.drop_first(), reg);
        if known_type_name(reg, overrides.first().0) {
            assert(forall|k: int|
                1 <= k < overrides.len() ==> overrides.drop_first()[k - 1] == #[trigger] overrides[k]);
        }
    }
}

impl Default for CodegenOptions {
    /// No context type and no overrides.
    fn default() -> (r: CodegenOptions)
        ensures
            r.deep_view() == (CodegenOptionsView {
                context_type: None::<ContextTypeView>,
                rust_types: Seq::<(Seq<char>, Seq<char>)>::empty(),
            }),
    {
        let r = CodegenOptions { context_type: None, rust_types: Vec::new() };
        proof {
            assert(r.deep_view().rust_types =~= Seq::<(Seq<char>, Seq<char>)>::empty());
        }
        r
    }
}

impl CodegenOptions {
    /// Options built from plain values handed over by the invocation
    /// layer.
    pub fn new(context_type: Option<ContextType>, rust_types: Vec<(String, String)>) -> (r: Self)
        ensures
            r.deep_view() == (CodegenOptionsView {
                context_type: context_type.deep_view(),
                rust_types: rust_types.deep_view(),
            }),
    {
        CodegenOptions { context_type, rust_types }
    }

    /// The host type name an IDL type name maps to: the last matching
    /// override entry, or the IDL name unchanged if nothing maps it.
    #[verifier::loop_isolation(false)]
    pub fn graphql_type_name_to_rust_type(&self, graphql_name: &String) -> (r: String)
        ensures
            r.deep_view() == resolve_name(self.rust_types.deep_view(), graphql_name.deep_view()),
    {
        let ghost overs = self.rust_types.deep_view();
        let mut i: usize = self.rust_types.len();
        proof {
            assert(overs.take(i as int) =~= overs);
        }
        while i > 0
            invariant
                i <= self.rust_types.len(),
                resolve_name(overs, graphql_name.deep_view()) == resolve_name(
                    overs.take(i as int),
                    graphql_name.deep_view(),
                ),
            decreases i,
        {
            i -= 1;
            let ghost pre = overs.take(i + 1);
            proof {
                assert(pre.last() == overs[i as int]);
                assert(pre.drop_last() =~= overs.take(i as int));
            }
            if self.rust_types[i].0 == *graphql_name {
                return self.rust_types[i].1.clone();
            }
        }
        proof {
            assert(overs.take(0) =~= Seq::<(Seq<char>, Seq<char>)>::empty());
        }
        graphql_name.clone()
    }

    /// Checks every override entry against the registry, in declaration
    /// order, and reports the first entry whose IDL name the registry
    /// does not define; validation succeeds exactly when every override
    /// key names a defined enum or object type.
    #[verifier::loop_isolation(false)]
    pub fn validate(&self, schema_info: &SchemaInfo) -> (r: Result<(), CodegenError>)
        ensures
            (match r {
                Ok(()) => Ok::<(), CodegenErrorView>(()),
                Err(e) => Err(e.deep_view()),
            }) == spec_validate(self.rust_types.deep_view(), schema_info.deep_view()),
            r is Ok <==> (forall|k: int|
                0 <= k < self.rust_types.deep_view().len() ==> known_type_name(
                    schema_info.deep_view(),
                    (#[trigger] self.rust_types.deep_view()[k]).0,
                )),
    {
        let ghost overs = self.rust_types.deep_view();
        let ghost reg = schema_info.deep_view();
        proof {
            lemma_validate_ok_iff(overs, reg);
        }
        let mut i: usize = 0;
        proof {
            assert(overs.skip(0) =~= overs);
        }
        while i < self.rust_types.len()
            invariant
                i <= self.rust_types.len(),
                spec_validate(overs, reg) == spec_validate(overs.skip(i as int), reg),
            decreases self.rust_types.len() - i,
        {
            let ghost pre = overs.skip(i as int);
            proof {
                assert(pre.first() == overs[i as int]);
                assert(pre.drop_first() =~= overs.skip(i as int + 1));
            }
            let known = match find_enum_index(&schema_info.enum_types, &self.rust_types[i].0) {
                Some(_) => true,
                None => match find_obj_index(&schema_info.obj_types, &self.rust_types[i].0) {
                    Some(_) => true,
                    None => false,
                },
            };
            if !known {
                let err = CodegenError::UndefinedGraphQLType {
                    graphql_name: self.rust_types[i].0.clone(),
                    rust_name: self.rust_types[i].1.clone(),
                };
                return Err(err);
            }
            i += 1;
        }
        proof {
            assert(overs.skip(self.rust_types.len() as int) =~= Seq::<(Seq<char>, Seq<char>)>::empty());
        }
        Ok(())
    }
}

} // verus!
