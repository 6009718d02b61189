//! The type registry: one pass over a document's top-level definitions,
//! classifying each as enum / object / schema-root, rejecting duplicates
//! and unsupported kinds, and requiring exactly one schema-root block.

use vstd::prelude::*;

use crate::ast::Definition;
use crate::ast::DefinitionView;
use crate::ast::EnumTypeDef;
use crate::ast::EnumTypeDefView;
use crate::ast::ObjectTypeDef;
use crate::ast::ObjectTypeDefView;
use crate::ast::SchemaRootDef;
use crate::ast::SchemaRootDefView;
use crate::CodegenError;
use crate::CodegenErrorView;

verus! {

/// The validated, de-duplicated registry of one IDL document: every enum
/// and object type in source order, and the single schema-root block.
#[derive(Debug)]
pub struct SchemaInfo {
    pub enum_types: Vec<EnumTypeDef>,
    pub obj_types: Vec<ObjectTypeDef>,
    pub schema_def: SchemaRootDef,
}

/// The model of a [`SchemaInfo`].
#[verifier::ext_equal]
pub struct SchemaInfoView {
    pub enum_types: Seq<EnumTypeDefView>,
    pub obj_types: Seq<ObjectTypeDefView>,
    pub schema_def: SchemaRootDefView,
}

impl DeepView for SchemaInfo {
    type V = SchemaInfoView;

    open spec fn deep_view(&self) -> SchemaInfoView {
        SchemaInfoView {
            enum_types: self.enum_types.deep_view(),
            obj_types: self.obj_types.deep_view(),
            schema_def: self.schema_def.deep_view(),
        }
    }
}

impl SchemaInfoView {
    /// Registry keys are unique within each kind.
    pub open spec fn wf(self) -> bool {
        &&& distinct_enum_names(self.enum_types)
        &&& distinct_obj_names(self.obj_types)
    }

    /// The set of enum type names the registry holds.
    pub open spec fn enum_name_set(self) -> Set<Seq<char>> {
        Set::new(|n: Seq<char>| exists|i: int| 0 <= i < self.enum_types.len() && #[trigger] self.enum_types[i].name == n)
    }

    /// The set of object type names the registry holds.
    pub open spec fn obj_name_set(self) -> Set<Seq<char>> {
        Set::new(|n: Seq<char>| exists|i: int| 0 <= i < self.obj_types.len() && #[trigger] self.obj_types[i].name == n)
    }
}

pub open spec fn distinct_enum_names(s: Seq<EnumTypeDefView>) -> bool {
    forall|i: int, j: int| 0 <= i < j < s.len() ==> #[trigger] s[i].name != #[trigger] s[j].name
}

pub open spec fn distinct_obj_names(s: Seq<ObjectTypeDefView>) -> bool {
    forall|i: int, j: int| 0 <= i < j < s.len() ==> #[trigger] s[i].name != #[trigger] s[j].name
}

/// The first enum in `s` named `name`, if any.
pub open spec fn find_enum(s: Seq<EnumTypeDefView>, name: Seq<char>) -> Option<EnumTypeDefView>
    decreases s.len(),
{
    if s.len() == 0 {
        None
    } else if s.first().name == name {
        Some(s.first())
    } else {
        find_enum(s.drop_first(), name)
    }
}

/// The first object in `s` named `name`, if any.
pub open spec fn find_obj(s: Seq<ObjectTypeDefView>, name: Seq<char>) -> Option<ObjectTypeDefView>
    decreases s.len(),
{
    if s.len() == 0 {
        None
    } else if s.first().name == name {
        Some(s.first())
    } else {
        find_obj(s.drop_first(), name)
    }
}

/// The builder's intermediate state: what one pass has recorded so far.
#[verifier::ext_equal]
pub struct BuildState {
    pub enums: Seq<EnumTypeDefView>,
    pub objs: Seq<ObjectTypeDefView>,
    pub schema: Option<SchemaRootDefView>,
}

pub open spec fn build_init() -> BuildState {
    BuildState { enums: Seq::empty(), objs: Seq::empty(), schema: None }
}

/// How one definition changes the builder's state: record it, or abort
/// with the error the definition provokes. The first occurrence of a
/// duplicated name is always reported as `first`, the newly met one as
/// `second`.
pub open spec fn build_step(st: BuildState, d: DefinitionView) -> Result<BuildState, CodegenErrorView> {
    match d {
        DefinitionView::Schema(s) => match st.schema {
            Some(prev) => Err(CodegenErrorView::MultipleSchemaDefinitions {
                first: prev.position,
                second: s.position,
            }),
            None => Ok(BuildState { enums: st.enums, objs: st.objs, schema: Some(s) }),
        },
        DefinitionView::Enum(e) => match find_enum(st.enums, e.name) {
            Some(prev) => Err(CodegenErrorView::MultipleEnumTypeDefinitions {
                first: prev.position,
                second: e.position,
            }),
            None => Ok(BuildState { enums: st.enums.push(e), objs: st.objs, schema: st.schema }),
        },
        DefinitionView::Object(o) => match find_obj(st.objs, o.name) {
            Some(prev) => Err(CodegenErrorView::MultipleObjectTypeDefinitions {
                first: prev.position,
                second: o.position,
            }),
            None => Ok(BuildState { enums: st.enums, objs: st.objs.push(o), schema: st.schema }),
        },
        DefinitionView::Unsupported(k, p) => Err(CodegenErrorView::UnsupportedDefinitionKind(k, p)),
    }
}

/// One pass over the remaining definitions, in source order.
pub open spec fn build_run(st: BuildState, defs: Seq<DefinitionView>) -> Result<BuildState, CodegenErrorView>
    decreases defs.len(),
{
    if defs.len() == 0 {
        Ok(st)
    } else {
        match build_step(st, defs.first()) {
            Ok(st2) => build_run(st2, defs.drop_first()),
            Err(e) => Err(e),
        }
    }
}

/// What building a registry from a document's definitions returns: the
/// registry, or the first error the pass meets; a completed pass that
/// recorded no schema-root block is an error of its own.
pub open spec fn spec_build(defs: Seq<DefinitionView>) -> Result<SchemaInfoView, CodegenErrorView> {
    match build_run(build_init(), defs) {
        Ok(st) => match st.schema {
            Some(s) => Ok(SchemaInfoView { enum_types: st.enums, obj_types: st.objs, schema_def: s }),
            None => Err(CodegenErrorView::NoSchemaDefinitionFound),
        },
        Err(e) => Err(e),
    }
}

/// Lifts an executable build result to its model.
pub open spec fn build_result_view(r: Result<SchemaInfo, CodegenError>) -> Result<SchemaInfoView, CodegenErrorView> {
    match r {
        Ok(info) => Ok(info.deep_view()),
        Err(e) => Err(e.deep_view()),
    }
}

proof fn lemma_find_enum_at(s: Seq<EnumTypeDefView>, name: Seq<char>, i: int)
    requires
        0 <= i < s.len(),
        s[i].name == name,
        forall|j: int| 0 <= j < i ==> #[trigger] s[j].name != name,
    ensures
        find_enum(s, name) == Some(s[i]),
    decreases i,
{
    if i == 0 {
    } else {
        lemma_find_enum_at(s.drop_first(), name, i - 1);
    }
}

proof fn lemma_find_enum_absent(s: Seq<EnumTypeDefView>, name: Seq<char>)
    requires
        forall|j: int| 0 <= j < s.len() ==> #[trigger] s[j].name != name,
    ensures
        find_enum(s, name) is None,
    decreases s.len(),
{
    if s.len() > 0 {
        lemma_find_enum_absent(s.drop_first(), name);
    }
}

proof fn lemma_find_obj_at(s: Seq<ObjectTypeDefView>, name: Seq<char>, i: int)
    requires
        0 <= i < s.len(),
        s[i].name == name,
        forall|j: int| 0 <= j < i ==> #[trigger] s[j].name != name,
    ensures
        find_obj(s, name) == Some(s[i]),
    decreases i,
{
    if i == 0 {
    } else {
        lemma_find_obj_at(s.drop_first(), name, i - 1);
    }
}

proof fn lemma_find_obj_absent(s: Seq<ObjectTypeDefView>, name: Seq<char>)
    requires
        forall|j: int| 0 <= j < s.len() ==> #[trigger] s[j].name != name,
    ensures
        find_obj(s, name) is None,
    decreases s.len(),
{
    if s.len() > 0 {
        lemma_find_obj_absent(s.drop_first(), name);
    }
}

/// The index of the first enum in `enums` whose name is `name`, if any.
pub(crate) fn find_enum_index(enums: &Vec<EnumTypeDef>, name: &String) -> (r: Option<usize>)
    ensures
        match r {
            Some(i) => i < enums.len() && find_enum(enums.deep_view(), name.deep_view()) == Some(enums.deep_view()[i as int]),
            None => find_enum(enums.deep_view(), name.deep_view()) is None,
        },
{
    let mut i: usize = 0;
    while i < enums.len()
        invariant
            i <= enums.len(),
            forall|j: int| 0 <= j < i ==> #[trigger] enums.deep_view()[j].name != name.deep_view(),
        decreases enums.len() - i,
    {
        if enums[i].name == *name {
            proof {
                lemma_find_enum_at(enums.deep_view(), name.deep_view(), i as int);
            }
            return Some(i);
        }
        i += 1;
    }
    proof {
        lemma_find_enum_absent(enums.deep_view(), name.deep_view());
    }
    None
}

/// The index of the first object in `objs` whose name is `name`, if any.
pub(crate) fn find_obj_index(objs: &Vec<ObjectTypeDef>, name: &String) -> (r: Option<usize>)
    ensures
        match r {
            Some(i) => i < objs.len() && find_obj(objs.deep_view(), name.deep_view()) == Some(objs.deep_view()[i as int]),
            None => find_obj(objs.deep_view(), name.deep_view()) is None,
        },
{
    let mut i: usize = 0;
    while i < objs.len()
        invariant
            i <= objs.len(),
            forall|j: int| 0 <= j < i ==> #[trigger] objs.deep_view()[j].name != name.deep_view(),
        decreases objs.len() - i,
    {
        if objs[i].name == *name {
            proof {
                lemma_find_obj_at(objs.deep_view(), name.deep_view(), i as int);
            }
            return Some(i);
        }
        i += 1;
    }
    proof {
        lemma_find_obj_absent(objs.deep_view(), name.deep_view());
    }
    None
}

impl SchemaInfo {
    /// Walks the document's definitions once, in source order, and builds
    /// the registry, or returns the first error the walk meets, exactly as
    /// [`spec_build`] lays down.
    #[verifier::loop_isolation(false)]
    pub fn build(defs: Vec<Definition>) -> (r: Result<SchemaInfo, CodegenError>)
        ensures
            build_result_view(r) == spec_build(defs.deep_view()),
            r matches Ok(info) ==> info.deep_view().wf(),
    {
        let ghost defs0 = defs.deep_view();
        let mut rest = defs;
        let mut enum_types: Vec<EnumTypeDef> = Vec::new();
        let mut obj_types: Vec<ObjectTypeDef> = Vec::new();
        let mut schema_def: Option<SchemaRootDef> = None;

        proof {
            assert(BuildState {
                enums: enum_types.deep_view(),
                objs: obj_types.deep_view(),
                schema: schema_def.deep_view(),
            } =~= build_init());
        }

        while rest.len() > 0
            invariant
                build_run(build_init(), defs0) == build_run(
                    BuildState {
                        enums: enum_types.deep_view(),
                        objs: obj_types.deep_view(),
                        schema: schema_def.deep_view(),
                    },
                    rest.deep_view(),
                ),
                distinct_enum_names(enum_types.deep_view()),
                distinct_obj_names(obj_types.deep_view()),
            decreases rest.len(),
        {
            let ghost pre = rest.deep_view();
            let ghost st_pre = BuildState {
                enums: enum_types.deep_view(),
                objs: obj_types.deep_view(),
                schema: schema_def.deep_view(),
            };
            let d = rest.remove(0);
            proof {
                assert(rest.deep_view() =~= pre.drop_first());
                assert(d.deep_view() == pre.first());
            }
            match d {
                Definition::Schema(s) => {
                    match schema_def {
                        Some(ref prev) => {
                            let err = CodegenError::MultipleSchemaDefinitions {
                                first: prev.position,
                                second: s.position,
                            };
                            proof {
                                assert(build_step(st_pre, pre.first()) == Err::<BuildState, CodegenErrorView>(err.deep_view()));
                            }
                            return Err(err);
                        },
                        None => {
                            schema_def = Some(s);
                        },
                    }
                },
                Definition::Enum(e) => {
                    match find_enum_index(&enum_types, &e.name) {
                        Some(i) => {
                            let err = CodegenError::MultipleEnumTypeDefinitions {
                                first: enum_types[i].position,
                                second: e.position,
                            };
                            proof {
                                assert(build_step(st_pre, pre.first()) == Err::<BuildState, CodegenErrorView>(err.deep_view()));
                            }
                            return Err(err);
                        },
                        None => {
                            proof {
                                lemma_find_enum_absent_means_distinct_push(enum_types.deep_view(), e.deep_view());
                            }
                            enum_types.push(e);
                        },
                    }
                },
                Definition::Object(o) => {
                    match find_obj_index(&obj_types, &o.name) {
                        Some(i) => {
                            let err = CodegenError::MultipleObjectTypeDefinitions {
                                first: obj_types[i].position,
                                second: o.position,
                            };
                            proof {
                                assert(build_step(st_pre, pre.first()) == Err::<BuildState, CodegenErrorView>(err.deep_view()));
                            }
                            return Err(err);
                        },
                        None => {
                            proof {
                                lemma_find_obj_absent_means_distinct_push(obj_types.deep_view(), o.deep_view());
                            }
                            obj_types.push(o);
                        },
                    }
                },
                Definition::Unsupported(k, p) => {
                    let err = CodegenError::UnsupportedDefinitionKind(k, p);
                    proof {
                        assert(build_step(st_pre, pre.first()) == Err::<BuildState, CodegenErrorView>(err.deep_view()));
                    }
                    return Err(err);
                },
            }
            proof {
                let st_post = BuildState {
                    enums: enum_types.deep_view(),
                    objs: obj_types.deep_view(),
                    schema: schema_def.deep_view(),
                };
                assert(build_step(st_pre, pre.first()) is Ok);
                assert(st_post =~= build_step(st_pre, pre.first())->Ok_0);
            }
        }

        match schema_def {
            Some(s) => {
                let info = SchemaInfo { enum_types, obj_types, schema_def: s };
                Ok(info)
            },
            None => Err(CodegenError::NoSchemaDefinitionFound),
        }
    }
}

proof fn lemma_find_enum_absent_means_distinct_push(s: Seq<EnumTypeDefView>, e: EnumTypeDefView)
    requires
        distinct_enum_names(s),
        find_enum(s, e.name) is None,
    ensures
        distinct_enum_names(s.push(e)),
    decreases s.len(),
{
    lemma_find_enum_covers(s, e.name);
}

proof fn lemma_find_obj_absent_means_distinct_push(s: Seq<ObjectTypeDefView>, o: ObjectTypeDefView)
    requires
        distinct_obj_names(s),
        find_obj(s, o.name) is None,
    ensures
        distinct_obj_names(s.push(o)),
{
    lemma_find_obj_covers(s, o.name);
}

/// If the scan finds nothing, no element carries the name.
proof fn lemma_find_enum_covers(s: Seq<EnumTypeDefView>, name: Seq<char>)
    requires
        find_enum(s, name) is None,
    ensures
        forall|j: int| 0 <= j < s.len() ==> #[trigger] s[j].name != name,
    decreases s.len(),
{
    if s.len() > 0 {
        lemma_find_enum_covers(s.drop_first(), name);
        assert(forall|j: int| 1 <= j < s.len() ==> #[trigger] s[j].name == s.drop_first()[j - 1].name);
    }
}

proof fn lemma_find_obj_covers(s: Seq<ObjectTypeDefView>, name: Seq<char>)
    requires
        find_obj(s, name) is None,
    ensures
        forall|j: int| 0 <= j < s.len() ==> #[trigger] s[j].name != name,
    decreases s.len(),
{
    if s.len() > 0 {
        lemma_find_obj_covers(s.drop_first(), name);
        assert(forall|j: int| 1 <= j < s.len() ==> #[trigger] s[j].name == s.drop_first()[j - 1].name);
    }
}

/// No definition in `defs` is of an unsupported kind.
pub open spec fn no_unsupported(defs: Seq<DefinitionView>) -> bool {
    forall|i: int| 0 <= i < defs.len() ==> !(#[trigger] defs[i] is Unsupported)
}

/// The enum definitions of `defs`, in source order.
pub open spec fn enums_of(defs: Seq<DefinitionView>) -> Seq<EnumTypeDefView>
    decreases defs.len(),
{
    if defs.len() == 0 {
        Seq::empty()
    } else {
        match defs.first() {
            DefinitionView::Enum(e) => seq![e] + enums_of(defs.drop_first()),
            _ => enums_of(defs.drop_first()),
        }
    }
}

/// The object definitions of `defs`, in source order.
pub open spec fn objs_of(defs: Seq<DefinitionView>) -> Seq<ObjectTypeDefView>
    decreases defs.len(),
{
    if defs.len() == 0 {
        Seq::empty()
    } else {
        match defs.first() {
            DefinitionView::Object(o) => seq![o] + objs_of(defs.drop_first()),
            _ => objs_of(defs.drop_first()),
        }
    }
}

/// The schema-root definitions of `defs`, in source order.
pub open spec fn schemas_of(defs: Seq<DefinitionView>) -> Seq<SchemaRootDefView>
    decreases defs.len(),
{
    if defs.len() == 0 {
        Seq::empty()
    } else {
        match defs.first() {
            DefinitionView::Schema(s) => seq![s] + schemas_of(defs.drop_first()),
            _ => schemas_of(defs.drop_first()),
        }
    }
}

proof fn lemma_run_complete(st: BuildState, defs: Seq<DefinitionView>)
    requires
        no_unsupported(defs),
        distinct_enum_names(st.enums + enums_of(defs)),
        distinct_obj_names(st.objs + objs_of(defs)),
        st.schema is Some ==> schemas_of(defs).len() == 0,
        st.schema is None ==> schemas_of(defs).len() <= 1,
    ensures
        build_run(st, defs) is Ok,
        build_run(st, defs)->Ok_0.enums == st.enums + enums_of(defs),
        build_run(st, defs)->Ok_0.objs == st.objs + objs_of(defs),
        build_run(st, defs)->Ok_0.schema == if st.schema is Some {
            st.schema
        } else if schemas_of(defs).len() > 0 {
            Some(schemas_of(defs)[0])
        } else {
            None
        },
    decreases defs.len(),
{
    if defs.len() == 0 {
        assert(st.enums + enums_of(defs) =~= st.enums);
        assert(st.objs + objs_of(defs) =~= st.objs);
    } else {
        let d = defs.first();
        let rest = defs.drop_first();
        match d {
            DefinitionView::Schema(s) => {
                assert(schemas_of(defs) == seq![s] + schemas_of(rest));
                let st2 = BuildState { enums: st.enums, objs: st.objs, schema: Some(s) };
                assert(st2.enums + enums_of(rest) =~= st.enums + enums_of(defs));
                assert(st2.objs + objs_of(rest) =~= st.objs + objs_of(defs));
                lemma_run_complete(st2, rest);
            },
            DefinitionView::Enum(e) => {
                assert(enums_of(defs) == seq![e] + enums_of(rest));
                assert((st.enums + enums_of(defs))[st.enums.len() as int] == e);
                assert forall|j: int| 0 <= j < st.enums.len()
                    implies #[trigger] st.enums[j].name != e.name by {
                    assert((st.enums + enums_of(defs))[j] == st.enums[j]);
                    assert((st.enums + enums_of(defs))[j].name
                        != (st.enums + enums_of(defs))[st.enums.len() as int].name);
                }
                lemma_find_enum_absent(st.enums, e.name);
                let st2 = BuildState { enums: st.enums.push(e), objs: st.objs, schema: st.schema };
                assert(st2.enums + enums_of(rest) =~= st.enums + enums_of(defs));
                assert(st2.objs + objs_of(rest) =~= st.objs + objs_of(defs));
                lemma_run_complete(st2, rest);
            },
            DefinitionView::Object(o) => {
                assert(objs_of(defs) == seq![o] + objs_of(rest));
                assert((st.objs + objs_of(defs))[st.objs.len() as int] == o);
                assert forall|j: int| 0 <= j < st.objs.len()
                    implies #[trigger] st.objs[j].name != o.name by {
                    assert((st.objs + objs_of(defs))[j] == st.objs[j]);
                    assert((st.objs + objs_of(defs))[j].name
                        != (st.objs + objs_of(defs))[st.objs.len() as int].name);
                }
                lemma_find_obj_absent(st.objs, o.name);
                let st2 = BuildState { enums: st.enums, objs: st.objs.push(o), schema: st.schema };
                assert(st2.enums + enums_of(rest) =~= st.enums + enums_of(defs));
                assert(st2.objs + objs_of(rest) =~= st.objs + objs_of(defs));
                lemma_run_complete(st2, rest);
            },
            DefinitionView::Unsupported(_k, _p) => {
                assert(defs[0] is Unsupported);
            },
        }
    }
}

/// A document with exactly one schema-root block, no unsupported
/// definition kinds, and no duplicate names within the enum kind or the
/// object kind builds successfully, and the registry holds exactly the
/// document's enum and object definitions, in source order; in
/// particular, the registry's key sets equal the sets of names defined in
/// the document.
pub proof fn lemma_build_complete(defs: Seq<DefinitionView>)
    requires
        no_unsupported(defs),
        schemas_of(defs).len() == 1,
        distinct_enum_names(enums_of(defs)),
        distinct_obj_names(objs_of(defs)),
    ensures
        spec_build(defs) is Ok,
        spec_build(defs)->Ok_0.enum_types == enums_of(defs),
        spec_build(defs)->Ok_0.obj_types == objs_of(defs),
        spec_build(defs)->Ok_0.schema_def == schemas_of(defs)[0],
{
    assert(build_init().enums + enums_of(defs) =~= enums_of(defs));
    assert(build_init().objs + objs_of(defs) =~= objs_of(defs));
    lemma_run_complete(build_init(), defs);
}


/// `err` is the duplicate-enum diagnostic formed from indices `i` and `j`
/// of `defs`: both are enum definitions sharing one name, `i` comes
/// before `j` in source order, and the diagnostic reports the earlier
/// position as `first` and the later as `second`.
pub open spec fn dup_enum_pair_in(defs: Seq<DefinitionView>, i: int, j: int, err: CodegenErrorView) -> bool {
    &&& 0 <= i < j < defs.len()
    &&& defs[i] is Enum
    &&& defs[j] is Enum
    &&& defs[i]->Enum_0.name == defs[j]->Enum_0.name
    &&& err == CodegenErrorView::MultipleEnumTypeDefinitions {
        first: defs[i]->Enum_0.position,
        second: defs[j]->Enum_0.position,
    }
}

spec fn dup_enum_from_state(st: BuildState, defs: Seq<DefinitionView>, j: int, err: CodegenErrorView) -> bool {
    &&& 0 <= j < defs.len()
    &&& defs[j] is Enum
    &&& exists|k: int|
        0 <= k < st.enums.len() && #[trigger] st.enums[k].name == defs[j]->Enum_0.name
            && err == CodegenErrorView::MultipleEnumTypeDefinitions {
            first: st.enums[k].position,
            second: defs[j]->Enum_0.position,
        }
}

proof fn lemma_find_enum_some_index(s: Seq<EnumTypeDefView>, name: Seq<char>)
    requires
        find_enum(s, name) is Some,
    ensures
        exists|k: int|
            0 <= k < s.len() && #[trigger] s[k] == find_enum(s, name)->Some_0 && s[k].name == name,
    decreases s.len(),
{
    if s.len() > 0 {
        if s.first().name == name {
            assert(s[0] == find_enum(s, name)->Some_0 && s[0].name == name);
        } else {
            lemma_find_enum_some_index(s.drop_first(), name);
            let k0 = choose|k: int|
                0 <= k < s.drop_first().len() && #[trigger] s.drop_first()[k] == find_enum(
                    s.drop_first(),
                    name,
                )->Some_0 && s.drop_first()[k].name == name;
            assert(s[k0 + 1] == s.drop_first()[k0]);
        }
    }
}

proof fn lemma_run_dup_enum(st: BuildState, defs: Seq<DefinitionView>)
    requires
        no_unsupported(defs),
        st.schema is Some ==> schemas_of(defs).len() == 0,
        st.schema is None ==> schemas_of(defs).len() <= 1,
        distinct_obj_names(st.objs + objs_of(defs)),
        distinct_enum_names(st.enums),
        !distinct_enum_names(st.enums + enums_of(defs)),
    ensures
        build_run(st, defs) is Err,
        build_run(st, defs)->Err_0 is MultipleEnumTypeDefinitions,
    decreases defs.len(),
{
    if defs.len() == 0 {
        assert(st.enums + enums_of(defs) =~= st.enums);
    } else {
        let d = defs.first();
        let rest = defs.drop_first();
        match d {
            DefinitionView::Schema(s) => {
                assert(schemas_of(defs) == seq![s] + schemas_of(rest));
                let st2 = BuildState { enums: st.enums, objs: st.objs, schema: Some(s) };
                assert(st2.objs + objs_of(rest) =~= st.objs + objs_of(defs));
                assert(st2.enums + enums_of(rest) =~= st.enums + enums_of(defs));
                lemma_run_dup_enum(st2, rest);
            },
            DefinitionView::Enum(e) => {
                assert(enums_of(defs) == seq![e] + enums_of(rest));
                match find_enum(st.enums, e.name) {
                    Some(_prev) => {
                    },
                    None => {
                        lemma_find_enum_absent_means_distinct_push(st.enums, e);
                        let st2 = BuildState {
                            enums: st.enums.push(e),
                            objs: st.objs,
                            schema: st.schema,
                        };
                        assert(st2.objs + objs_of(rest) =~= st.objs + objs_of(defs));
                        assert(st2.enums + enums_of(rest) =~= st.enums + enums_of(defs));
                        lemma_run_dup_enum(st2, rest);
                    },
                }
            },
            DefinitionView::Object(o) => {
                assert(objs_of(defs) == seq![o] + objs_of(rest));
                assert((st.objs + objs_of(defs))[st.objs.len() as int] == o);
                assert forall|j: int| 0 <= j < st.objs.len()
                    implies #[trigger] st.objs[j].name != o.name by {
                    assert((st.objs + objs_of(defs))[j] == st.objs[j]);
                    assert((st.objs + objs_of(defs))[j].name
                        != (st.objs + objs_of(defs))[st.objs.len() as int].name);
                }
                lemma_find_obj_absent(st.objs, o.name);
                let st2 = BuildState { enums: st.enums, objs: st.objs.push(o), schema: st.schema };
                assert(st2.objs + objs_of(rest) =~= st.objs + objs_of(defs));
                assert(st2.enums + enums_of(rest) =~= st.enums + enums_of(defs));
                lemma_run_dup_enum(st2, rest);
            },
            DefinitionView::Unsupported(_k, _p) => {
                assert(defs[0] is Unsupported);
            },
        }
    }
}

proof fn lemma_run_dup_enum_witness(st: BuildState, defs: Seq<DefinitionView>)
    requires
        build_run(st, defs) is Err,
        build_run(st, defs)->Err_0 is MultipleEnumTypeDefinitions,
    ensures
        (exists|i: int, j: int| dup_enum_pair_in(defs, i, j, build_run(st, defs)->Err_0))
            || (exists|j: int| dup_enum_from_state(st, defs, j, build_run(st, defs)->Err_0)),
    decreases defs.len(),
{
    let err = build_run(st, defs)->Err_0;
    assert(defs.len() > 0);
    let d = defs.first();
    let rest = defs.drop_first();
    match build_step(st, d) {
        Ok(st2) => {
            lemma_run_dup_enum_witness(st2, rest);
            if exists|i: int, j: int| dup_enum_pair_in(rest, i, j, err) {
                let (i0, j0) = choose|i: int, j: int| dup_enum_pair_in(rest, i, j, err);
                assert(defs[i0 + 1] == rest[i0] && defs[j0 + 1] == rest[j0]);
                assert(dup_enum_pair_in(defs, i0 + 1, j0 + 1, err));
            } else {
                let j0 = choose|j: int| dup_enum_from_state(st2, rest, j, err);
                let k0 = choose|k: int|
                    0 <= k < st2.enums.len() && #[trigger] st2.enums[k].name == rest[j0]->Enum_0.name
                        && err == CodegenErrorView::MultipleEnumTypeDefinitions {
                        first: st2.enums[k].position,
                        second: rest[j0]->Enum_0.position,
                    };
                assert(defs[j0 + 1] == rest[j0]);
                match d {
                    DefinitionView::Enum(e) => {
                        assert(st2.enums == st.enums.push(e));
                        if k0 < st.enums.len() {
                            assert(st2.enums[k0] == st.enums[k0]);
                            assert(dup_enum_from_state(st, defs, j0 + 1, err));
                        } else {
                            assert(st2.enums[k0] == e);
                            assert(defs[0] == DefinitionView::Enum(e));
                            assert(dup_enum_pair_in(defs, 0, j0 + 1, err));
                        }
                    },
                    _ => {
                        assert(st2.enums == st.enums);
                        assert(st2.enums[k0] == st.enums[k0]);
                        assert(dup_enum_from_state(st, defs, j0 + 1, err));
                    },
                }
            }
        },
        Err(_e) => {
            match d {
                DefinitionView::Enum(e) => {
                    lemma_find_enum_some_index(st.enums, e.name);
                    assert(dup_enum_from_state(st, defs, 0, err));
                },
                _ => {
                },
            }
        },
    }
}

/// A document holding two enum definitions that share one name (and
/// otherwise only supported definition kinds, at most one schema-root
/// block, and no colliding object names) is rejected with
/// `MultipleEnumTypeDefinitions`, and the diagnostic's `first` position
/// belongs to an enum definition standing earlier in source order than
/// the one whose position is reported as `second`.
pub proof fn lemma_duplicate_enums_rejected(defs: Seq<DefinitionView>)
    requires
        no_unsupported(defs),
        schemas_of(defs).len() <= 1,
        distinct_obj_names(objs_of(defs)),
        !distinct_enum_names(enums_of(defs)),
    ensures
        spec_build(defs) is Err,
        spec_build(defs)->Err_0 is MultipleEnumTypeDefinitions,
        exists|i: int, j: int| dup_enum_pair_in(defs, i, j, spec_build(defs)->Err_0),
{
    assert(build_init().enums + enums_of(defs) =~= enums_of(defs));
    assert(build_init().objs + objs_of(defs) =~= objs_of(defs));
    lemma_run_dup_enum(build_init(), defs);
    lemma_run_dup_enum_witness(build_init(), defs);
    let err = build_run(build_init(), defs)->Err_0;
    if exists|j: int| dup_enum_from_state(build_init(), defs, j, err) {
        let j0 = choose|j: int| dup_enum_from_state(build_init(), defs, j, err);
        assert(false);
    }
}


/// The set of enum type names a document defines.
pub open spec fn defs_enum_name_set(defs: Seq<DefinitionView>) -> Set<Seq<char>> {
    Set::new(|n: Seq<char>| exists|i: int|
        0 <= i < defs.len() && ((#[trigger] defs[i]) matches DefinitionView::Enum(e) && e.name == n))
}

/// The set of object type names a document defines.
pub open spec fn defs_obj_name_set(defs: Seq<DefinitionView>) -> Set<Seq<char>> {
    Set::new(|n: Seq<char>| exists|i: int|
        0 <= i < defs.len() && ((#[trigger] defs[i]) matches DefinitionView::Object(o) && o.name == n))
}

proof fn lemma_enums_of_member(defs: Seq<DefinitionView>, j: int)
    requires
        0 <= j < enums_of(defs).len(),
    ensures
        exists|i: int|
            0 <= i < defs.len() && #[trigger] defs[i] == DefinitionView::Enum(enums_of(defs)[j]),
    decreases defs.len(),
{
    let rest = defs.drop_first();
    match defs.first() {
        DefinitionView::Enum(e) => {
            if j == 0 {
                assert(defs[0] == DefinitionView::Enum(enums_of(defs)[0]));
            } else {
                lemma_enums_of_member(rest, j - 1);
                let i0 = choose|i: int|
                    0 <= i < rest.len() && #[trigger] rest[i] == DefinitionView::Enum(
                        enums_of(rest)[j - 1],
                    );
                assert(defs[i0 + 1] == DefinitionView::Enum(enums_of(defs)[j]));
            }
        },
        _ => {
            lemma_enums_of_member(rest, j);
            let i0 = choose|i: int|
                0 <= i < rest.len() && #[trigger] rest[i] == DefinitionView::Enum(
                    enums_of(rest)[j],
                );
            assert(defs[i0 + 1] == DefinitionView::Enum(enums_of(defs)[j]));
        },
    }
}

proof fn lemma_enum_def_in_enums_of(defs: Seq<DefinitionView>, i: int)
    requires
        0 <= i < defs.len(),
        defs[i] is Enum,
    ensures
        exists|j: int|
            0 <= j < enums_of(defs).len() && #[trigger] enums_of(defs)[j] == defs[i]->Enum_0,
    decreases defs.len(),
{
    let rest = defs.drop_first();
    if i == 0 {
        assert(enums_of(defs)[0] == defs[0]->Enum_0);
    } else {
        lemma_enum_def_in_enums_of(rest, i - 1);
        let j0 = choose|j: int|
            0 <= j < enums_of(rest).len() && #[trigger] enums_of(rest)[j] == rest[i - 1]->Enum_0;
        match defs.first() {
            DefinitionView::Enum(_e) => {
                assert(enums_of(defs)[j0 + 1] == defs[i]->Enum_0);
            },
            _ => {
                assert(enums_of(defs)[j0] == defs[i]->Enum_0);
            },
        }
    }
}

proof fn lemma_objs_of_member(defs: Seq<DefinitionView>, j: int)
    requires
        0 <= j < objs_of(defs).len(),
    ensures
        exists|i: int|
            0 <= i < defs.len() && #[trigger] defs[i] == DefinitionView::Object(objs_of(defs)[j]),
    decreases defs.len(),
{
    let rest = defs.drop_first();
    match defs.first() {
        DefinitionView::Object(o) => {
            if j == 0 {
                assert(defs[0] == DefinitionView::Object(objs_of(defs)[0]));
            } else {
                lemma_objs_of_member(rest, j - 1);
                let i0 = choose|i: int|
                    0 <= i < rest.len() && #[trigger] rest[i] == DefinitionView::Object(
                        objs_of(rest)[j - 1],
                    );
                assert(defs[i0 + 1] == DefinitionView::Object(objs_of(defs)[j]));
            }
        },
        _ => {
            lemma_objs_of_member(rest, j);
            let i0 = choose|i: int|
                0 <= i < rest.len() && #[trigger] rest[i] == DefinitionView::Object(
                    objs_of(rest)[j],
                );
            assert(defs[i0 + 1] == DefinitionView::Object(objs_of(defs)[j]));
        },
    }
}

proof fn lemma_obj_def_in_objs_of(defs: Seq<DefinitionView>, i: int)
    requires
        0 <= i < defs.len(),
        defs[i] is Object,
    ensures
        exists|j: int|
            0 <= j < objs_of(defs).len() && #[trigger] objs_of(defs)[j] == defs[i]->Object_0,
    decreases defs.len(),
{
    let rest = defs.drop_first();
    if i == 0 {
        assert(objs_of(defs)[0] == defs[0]->Object_0);
    } else {
        lemma_obj_def_in_objs_of(rest, i - 1);
        let j0 = choose|j: int|
            0 <= j < objs_of(rest).len() && #[trigger] objs_of(rest)[j] == rest[i - 1]->Object_0;
        match defs.first() {
            DefinitionView::Object(_o) => {
                assert(objs_of(defs)[j0 + 1] == defs[i]->Object_0);
            },
            _ => {
                assert(objs_of(defs)[j0] == defs[i]->Object_0);
            },
        }
    }
}

/// The registry a clean document builds keys its enum and object maps by
/// exactly the names the document defines.
pub proof fn lemma_build_key_sets(defs: Seq<DefinitionView>)
    requires
        no_unsupported(defs),
        schemas_of(defs).len() == 1,
        distinct_enum_names(enums_of(defs)),
        distinct_obj_names(objs_of(defs)),
    ensures
        spec_build(defs) is Ok,
        spec_build(defs)->Ok_0.enum_name_set() == defs_enum_name_set(defs),
        spec_build(defs)->Ok_0.obj_name_set() == defs_obj_name_set(defs),
{
    lemma_build_complete(defs);
    let reg = spec_build(defs)->Ok_0;
    assert forall|n: Seq<char>|
        reg.enum_name_set().contains(n) implies defs_enum_name_set(defs).contains(n) by {
        let j0 = choose|j: int| 0 <= j < reg.enum_types.len() && #[trigger] reg.enum_types[j].name == n;
        lemma_enums_of_member(defs, j0);
    }
    assert forall|n: Seq<char>|
        defs_enum_name_set(defs).contains(n) implies reg.enum_name_set().contains(n) by {
        let i0 = choose|i: int|
            0 <= i < defs.len() && ((#[trigger] defs[i]) matches DefinitionView::Enum(e)
                && e.name == n);
        lemma_enum_def_in_enums_of(defs, i0);
        let j0 = choose|j: int|
            0 <= j < enums_of(defs).len() && #[trigger] enums_of(defs)[j] == defs[i0]->Enum_0;
        assert(reg.enum_types[j0].name == n);
    }
    assert(reg.enum_name_set() =~= defs_enum_name_set(defs));
    assert forall|n: Seq<char>|
        reg.obj_name_set().contains(n) implies defs_obj_name_set(defs).contains(n) by {
        let j0 = choose|j: int| 0 <= j < reg.obj_types.len() && #[trigger] reg.obj_types[j].name == n;
        lemma_objs_of_member(defs, j0);
    }
    assert forall|n: Seq<char>|
        defs_obj_name_set(defs).contains(n) implies reg.obj_name_set().contains(n) by {
        let i0 = choose|i: int|
            0 <= i < defs.len() && ((#[trigger] defs[i]) matches DefinitionView::Object(o)
                && o.name == n);
        lemma_obj_def_in_objs_of(defs, i0);
        let j0 = choose|j: int|
            0 <= j < objs_of(defs).len() && #[trigger] objs_of(defs)[j] == defs[i0]->Object_0;
        assert(reg.obj_types[j0].name == n);
    }
    assert(reg.obj_name_set() =~= defs_obj_name_set(defs));
}

} // verus!
