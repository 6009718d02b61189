//! The binding generator: for every object type in the registry it emits
//! a wrapper construct that owns one instance of the user's host type and
//! delegates each schema field to the identically-named method on it, and
//! one root-entry construct wired to the schema's declared query type.
//! Generation is all-or-nothing: no partial output is returned on any
//! failure.

use vstd::prelude::*;

use crate::ast::Definition;
use crate::ast::DefinitionView;
use crate::ast::FieldDef;
use crate::ast::FieldDefView;
use crate::ast::ObjectTypeDef;
use crate::ast::ObjectTypeDefView;
use crate::mapper::map_type;
use crate::mapper::render_type;
use crate::mapper::spec_map_type;
use crate::mapper::spec_render_type;
use crate::options::resolve_name;
use crate::options::spec_validate;
use crate::options::CodegenOptions;
use crate::options::CodegenOptionsView;
use crate::options::ContextType;
use crate::options::ContextTypeView;
use crate::schema_info::find_obj;
use crate::schema_info::find_obj_index;
use crate::schema_info::spec_build;
use crate::schema_info::SchemaInfo;
use crate::schema_info::SchemaInfoView;
use crate::CodegenError;
use crate::CodegenErrorView;

verus! {

/// A validated generator: the registry built from one document and the
/// options the run was configured with.
#[derive(Debug)]
pub struct Codegen {
    pub options: CodegenOptions,
    pub root_node_ident: String,
    pub schema_info: SchemaInfo,
}

/// The model of a [`Codegen`].
#[verifier::ext_equal]
pub struct CodegenView {
    pub options: CodegenOptionsView,
    pub root_node_ident: Seq<char>,
    pub schema_info: SchemaInfoView,
}

impl DeepView for Codegen {
    type V = CodegenView;

    open spec fn deep_view(&self) -> CodegenView {
        CodegenView {
            options: self.options.deep_view(),
            root_node_ident: self.root_node_ident.deep_view(),
            schema_info: self.schema_info.deep_view(),
        }
    }
}

/// The wrapper type name for an object type: its IDL name between a
/// leading `__` and a trailing `Wrapper`.
pub open spec fn spec_wrapper_ident(name: Seq<char>) -> Seq<char> {
    "__"@ + name + "Wrapper"@
}

/// The context parameter of a delegating method, empty without a
/// configured context type.
pub open spec fn spec_ctx_param(opts: CodegenOptionsView) -> Seq<char> {
    match opts.context_type {
        Some(ContextTypeView::Global(c)) => ", ctx: &"@ + c,
        None => Seq::empty(),
    }
}

/// The argument a delegating method forwards, empty without a configured
/// context type.
pub open spec fn spec_ctx_arg(opts: CodegenOptionsView) -> Seq<char> {
    match opts.context_type {
        Some(ContextTypeView::Global(_)) => "ctx"@,
        None => Seq::empty(),
    }
}

/// The context parameter of the framework attribute, empty without a
/// configured context type.
pub open spec fn spec_ctx_attr(opts: CodegenOptionsView) -> Seq<char> {
    match opts.context_type {
        Some(ContextTypeView::Global(c)) => ", context="@ + c,
        None => Seq::empty(),
    }
}

/// One delegating method: same name as the field, the context parameter
/// if one is configured, the field's type mapped in a nullable position,
/// and a body that forwards to the identically-named method of the owned
/// implementation instance, unchanged.
pub open spec fn spec_method(f: FieldDefView, opts: CodegenOptionsView) -> Seq<char> {
    "    pub async fn "@ + f.name + "(&self"@ + spec_ctx_param(opts) + ") -> "@
        + spec_render_type(spec_map_type(f.field_type, true, opts.rust_types)) + " {\n        self.impl_."@
        + f.name + "("@ + spec_ctx_arg(opts) + ").await\n    }\n"@
}

/// The delegating methods of an object type, in field declaration order.
pub open spec fn spec_methods(fields: Seq<FieldDefView>, opts: CodegenOptionsView) -> Seq<char>
    decreases fields.len(),
{
    if fields.len() == 0 {
        Seq::empty()
    } else {
        spec_methods(fields.drop_last(), opts) + spec_method(fields.last(), opts)
    }
}

/// One object type's wrapper: the struct owning the mapped host type,
/// its constructor, and the attributed impl block holding one delegating
/// method per field.
pub open spec fn spec_object_wrapper(o: ObjectTypeDefView, opts: CodegenOptionsView) -> Seq<char> {
    let w = spec_wrapper_ident(o.name);
    let host = resolve_name(opts.rust_types, o.name);
    "struct "@ + w + " {\n    impl_: "@ + host + ",\n}\nimpl "@ + w
        + " {\n    pub fn new(impl_: "@ + host + ") -> Self {\n        "@ + w
        + " { impl_ }\n    }\n}\n#[juniper::graphql_object(name=\""@ + o.name + "\""@
        + spec_ctx_attr(opts) + ")]\nimpl "@ + w + " {\n"@ + spec_methods(o.fields, opts) + "}\n"@
}

/// Every object type's wrapper, in registry order.
pub open spec fn spec_object_wrappers(objs: Seq<ObjectTypeDefView>, opts: CodegenOptionsView) -> Seq<char>
    decreases objs.len(),
{
    if objs.len() == 0 {
        Seq::empty()
    } else {
        spec_object_wrappers(objs.drop_last(), opts) + spec_object_wrapper(objs.last(), opts)
    }
}

/// The root-entry construct: a unit struct under the caller's chosen
/// name whose constructor takes a query-implementation instance and
/// packages the query wrapper with empty mutation and subscription
/// capabilities.
pub open spec fn spec_root_node(root: Seq<char>, query: Seq<char>) -> Seq<char> {
    let w = spec_wrapper_ident(query);
    "pub struct "@ + root + ";\nimpl "@ + root + " {\n    pub fn new(query: "@ + query
        + ") -> juniper::RootNode<'static, "@ + w
        + ", juniper::EmptyMutation<Context>, juniper::EmptySubscription<Context>> {\n        juniper::RootNode::new("@
        + w
        + "::new(query), juniper::EmptyMutation::new(), juniper::EmptySubscription::new())\n    }\n}\n"@
}

/// What generating the root-entry construct returns: the construct for
/// the schema's declared query type, or `NoQueryDefinitionFound` when no
/// query type is declared or the declared one is not an object type of
/// the registry.
pub open spec fn spec_generate_root(cg: CodegenView) -> Result<Seq<char>, CodegenErrorView> {
    match cg.schema_info.schema_def.query {
        None => Err(CodegenErrorView::NoQueryDefinitionFound),
        Some(q) => if find_obj(cg.schema_info.obj_types, q) is None {
            Err(CodegenErrorView::NoQueryDefinitionFound)
        } else {
            Ok(spec_root_node(cg.root_node_ident, q))
        },
    }
}

/// What one generation run emits: every object wrapper followed by the
/// root-entry construct, or the first error; nothing is emitted on
/// failure.
pub open spec fn spec_generate(cg: CodegenView) -> Result<Seq<char>, CodegenErrorView> {
    match spec_generate_root(cg) {
        Err(e) => Err(e),
        Ok(root) => Ok(spec_object_wrappers(cg.schema_info.obj_types, cg.options) + root),
    }
}

/// What constructing a generator returns: the registry built from the
/// definitions, with the options validated against it, or the first
/// error of either step.
pub open spec fn spec_codegen_new(root: Seq<char>, defs: Seq<DefinitionView>, opts: CodegenOptionsView) -> Result<CodegenView, CodegenErrorView> {
    match spec_build(defs) {
        Err(e) => Err(e),
        Ok(reg) => match spec_validate(opts.rust_types, reg) {
            Err(e) => Err(e),
            Ok(()) => Ok(CodegenView { options: opts, root_node_ident: root, schema_info: reg }),
        },
    }
}

/// Generation is a function of the generator's model alone: two
/// generators with equal models emit byte-identical output, so running
/// the same generator twice, or two generators built from identical
/// inputs, yields the same bytes.
pub proof fn lemma_generate_deterministic(a: CodegenView, b: CodegenView)
    requires
        a == b,
    ensures
        spec_generate(a) == spec_generate(b),
{
}

/// Appends the context parameter fragment.
fn push_ctx_param(out: &mut String, options: &CodegenOptions)
    ensures
        final(out)@ == old(out)@ + spec_ctx_param(options.deep_view()),
{
    let ghost base = out@;
    match &options.context_type {
        Some(ContextType::Global(c)) => {
            out.append(", ctx: &");
            out.append(c.as_str());
            proof {
                assert(out@ =~= base + spec_ctx_param(options.deep_view()));
            }
        },
        None => {
            proof {
                assert(out@ =~= base + spec_ctx_param(options.deep_view()));
            }
        },
    }
}

/// Appends the forwarded context argument fragment.
fn push_ctx_arg(out: &mut String, options: &CodegenOptions)
    ensures
        final(out)@ == old(out)@ + spec_ctx_arg(options.deep_view()),
{
    let ghost base = out@;
    match &options.context_type {
        Some(ContextType::Global(_)) => {
            out.append("ctx");
            proof {
                assert(out@ =~= base + spec_ctx_arg(options.deep_view()));
            }
        },
        None => {
            proof {
                assert(out@ =~= base + spec_ctx_arg(options.deep_view()));
            }
        },
    }
}

/// Appends the attribute context fragment.
fn push_ctx_attr(out: &mut String, options: &CodegenOptions)
    ensures
        final(out)@ == old(out)@ + spec_ctx_attr(options.deep_view()),
{
    let ghost base = out@;
    match &options.context_type {
        Some(ContextType::Global(c)) => {
            out.append(", context=");
            out.append(c.as_str());
            proof {
                assert(out@ =~= base + spec_ctx_attr(options.deep_view()));
            }
        },
        None => {
            proof {
                assert(out@ =~= base + spec_ctx_attr(options.deep_view()));
            }
        },
    }
}

/// Appends one delegating method.
fn push_method(out: &mut String, field: &FieldDef, options: &CodegenOptions)
    ensures
        final(out)@ == old(out)@ + spec_method(field.deep_view(), options.deep_view()),
{
    let ghost base = out@;
    out.append("    pub async fn ");
    out.append(field.name.as_str());
    out.append("(&self");
    push_ctx_param(out, options);
    out.append(") -> ");
    let mapped = map_type(&field.field_type, true, options);
    let rendered = render_type(&mapped);
    out.append(rendered.as_str());
    out.append(" {\n        self.impl_.");
    out.append(field.name.as_str());
    out.append("(");
    push_ctx_arg(out, options);
    out.append(").await\n    }\n");
    proof {
        assert(out@ =~= base + spec_method(field.deep_view(), options.deep_view()));
    }
}

/// Appends one object type's wrapper construct.
#[verifier::loop_isolation(false)]
fn push_object_wrapper(out: &mut String, obj: &ObjectTypeDef, options: &CodegenOptions)
    ensures
        final(out)@ == old(out)@ + spec_object_wrapper(obj.deep_view(), options.deep_view()),
{
    let ghost base = out@;
    let ghost fields_v = obj.fields.deep_view();
    let wrapper = wrapper_type_ident(&obj.name);
    let host = options.graphql_type_name_to_rust_type(&obj.name);
    out.append("struct ");
    out.append(wrapper.as_str());
    out.append(" {\n    impl_: ");
    out.append(host.as_str());
    out.append(",\n}\nimpl ");
    out.append(wrapper.as_str());
    out.append(" {\n    pub fn new(impl_: ");
    out.append(host.as_str());
    out.append(") -> Self {\n        ");
    out.append(wrapper.as_str());
    out.append(" { impl_ }\n    }\n}\n#[juniper::graphql_object(name=\"");
    out.append(obj.name.as_str());
    out.append("\"");
    push_ctx_attr(out, options);
    out.append(")]\nimpl ");
    out.append(wrapper.as_str());
    out.append(" {\n");
    let ghost methods_base = out@;
    let mut i: usize = 0;
    while i < obj.fields.len()
        invariant
            i <= obj.fields.len(),
            out@ == methods_base + spec_methods(fields_v.take(i as int), options.deep_view()),
        decreases obj.fields.len() - i,
    {
        push_method(out, &obj.fields[i], options);
        proof {
            assert(fields_v.take(i + 1 as int).drop_last() =~= fields_v.take(i as int));
            assert(fields_v.take(i + 1 as int).last() == fields_v[i as int]);
            assert(out@ =~= methods_base + spec_methods(fields_v.take(i + 1 as int), options.deep_view()));
        }
        i += 1;
    }
    out.append("}\n");
    proof {
        assert(fields_v.take(obj.fields.len() as int) =~= fields_v);
        assert(out@ =~= base + spec_object_wrapper(obj.deep_view(), options.deep_view()));
    }
}

/// The wrapper type name for an object type's IDL name.
fn wrapper_type_ident(name: &String) -> (r: String)
    ensures
        r@ == spec_wrapper_ident(name.deep_view()),
{
    let mut s = String::from_str("__");
    s.append(name.as_str());
    s.append("Wrapper");
    proof {
        assert(s@ =~= spec_wrapper_ident(name.deep_view()));
    }
    s
}

impl Codegen {
    /// Builds the registry from the document's definitions, validates the
    /// options against it, and returns the generator, or the first error
    /// of either step, exactly as [`spec_codegen_new`] lays down.
    pub fn new(root_node_ident: String, definitions: Vec<Definition>, options: CodegenOptions) -> (r: Result<Codegen, CodegenError>)
        ensures
            (match r {
                Ok(cg) => Ok::<CodegenView, CodegenErrorView>(cg.deep_view()),
                Err(e) => Err(e.deep_view()),
            }) == spec_codegen_new(root_node_ident.deep_view(), definitions.deep_view(), options.deep_view()),
    {
        let schema_info = match SchemaInfo::build(definitions) {
            Ok(info) => info,
            Err(e) => {
                return Err(e);
            },
        };
        match options.validate(&schema_info) {
            Ok(()) => {},
            Err(e) => {
                return Err(e);
            },
        }
        Ok(Codegen { options, root_node_ident, schema_info })
    }

    /// The wrapper type name the generator uses for an object type name.
    pub fn get_wrapper_type_ident(&self, name: &String) -> (r: String)
        ensures
            r@ == spec_wrapper_ident(name.deep_view()),
    {
        wrapper_type_ident(name)
    }

    /// Emits every object type's wrapper construct, in registry order,
    /// as [`spec_object_wrappers`] lays down.
    #[verifier::loop_isolation(false)]
    pub fn generate_object_types(&self) -> (r: String)
        ensures
            r@ == spec_object_wrappers(self.schema_info.obj_types.deep_view(), self.options.deep_view()),
    {
        let ghost objs_v = self.schema_info.obj_types.deep_view();
        let mut out = String::new();
        let mut i: usize = 0;
        while i < self.schema_info.obj_types.len()
            invariant
                i <= self.schema_info.obj_types.len(),
                out@ == spec_object_wrappers(objs_v.take(i as int), self.options.deep_view()),
            decreases self.schema_info.obj_types.len() - i,
        {
            push_object_wrapper(&mut out, &self.schema_info.obj_types[i], &self.options);
            proof {
                assert(objs_v.take(i + 1 as int).drop_last() =~= objs_v.take(i as int));
                assert(objs_v.take(i + 1 as int).last() == objs_v[i as int]);
                assert(out@ =~= spec_object_wrappers(objs_v.take(i + 1 as int), self.options.deep_view()));
            }
            i += 1;
        }
        proof {
            assert(objs_v.take(self.schema_info.obj_types.len() as int) =~= objs_v);
        }
        out
    }

    /// Emits the root-entry construct for the schema's declared query
    /// type, or `NoQueryDefinitionFound` when no query type is declared
    /// or the declared one is not an object type of the registry, as
    /// [`spec_generate_root`] lays down.
    pub fn generate_root_node_wrapper(&self) -> (r: Result<String, CodegenError>)
        ensures
            (match r {
                Ok(s) => Ok::<Seq<char>, CodegenErrorView>(s@),
                Err(e) => Err(e.deep_view()),
            }) == spec_generate_root(self.deep_view()),
    {
        let query = match &self.schema_info.schema_def.query {
            Some(q) => q,
            None => {
                return Err(CodegenError::NoQueryDefinitionFound);
            },
        };
        match find_obj_index(&self.schema_info.obj_types, query) {
            Some(_) => {},
            None => {
                return Err(CodegenError::NoQueryDefinitionFound);
            },
        }
        let wrapper = wrapper_type_ident(query);
        let mut out = String::from_str("pub struct ");
        out.append(self.root_node_ident.as_str());
        out.append(";\nimpl ");
        out.append(self.root_node_ident.as_str());
        out.append(" {\n    pub fn new(query: ");
        out.append(query.as_str());
        out.append(") -> juniper::RootNode<'static, ");
        out.append(wrapper.as_str());
        out.append(", juniper::EmptyMutation<Context>, juniper::EmptySubscription<Context>> {\n        juniper::RootNode::new(");
        out.append(wrapper.as_str());
        out.append("::new(query), juniper::EmptyMutation::new(), juniper::EmptySubscription::new())\n    }\n}\n");
        proof {
            assert(out@ =~= spec_root_node(self.root_node_ident.deep_view(), query.deep_view()));
        }
        Ok(out)
    }

    /// Runs one full generation: every object wrapper followed by the
    /// root-entry construct, or the first error with no partial output,
    /// as [`spec_generate`] lays down. The output is a function of the
    /// generator's model alone, so identical inputs yield byte-identical
    /// output.
    pub fn generate(&self) -> (r: Result<String, CodegenError>)
        ensures
            (match r {
                Ok(s) => Ok::<Seq<char>, CodegenErrorView>(s@),
                Err(e) => Err(e.deep_view()),
            }) == spec_generate(self.deep_view()),
    {
        let mut out = self.generate_object_types();
        match self.generate_root_node_wrapper() {
            Ok(root) => {
                out.append(root.as_str());
                Ok(out)
            },
            Err(e) => Err(e),
        }
    }
}

} // verus!
