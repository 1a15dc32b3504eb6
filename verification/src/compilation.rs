use vstd::prelude::*;

verus! {

broadcast use vstd::std_specs::vec::axiom_vec_index_decreases,
    crate::util::lemma_seq_concat_assoc,
    crate::util::lemma_seq_empty_concat,
    crate::util::lemma_seq_push_is_concat;

use crate::codegen;
use crate::err::{err_at, err_nowhere, Error, ErrorKind, ErrorV};
use crate::model::{
    Document, DocumentV, Param, ParamLoc, ParamV, PathItemV, RequestBodyV,
};
use crate::parsing::{
    self, lemma_items_dv_is_deep_view, MethodPath, MethodType, PathSeg, PathSegV, Vis,
};
use crate::schema::{
    compile_param, compile_schema, sp_compile_param, sp_compile_schema, strategy_for, strategy_of,
    Decl, DeclV, GenType, GenTypeV, Strategy,
};

/// The framework-style rendering of one path segment: `/:name` for a
/// parameter, `/name` for a literal.
pub open spec fn sp_axum_seg(s: PathSegV) -> Seq<char> {
    if s.is_param {
        "/:"@ + s.name
    } else {
        "/"@ + s.name
    }
}

/// The document-style rendering of one path segment: `/{name}` for a
/// parameter, `/name` for a literal.
pub open spec fn sp_oapi_seg(s: PathSegV) -> Seq<char> {
    if s.is_param {
        "/{"@ + s.name + "}"@
    } else {
        "/"@ + s.name
    }
}

/// The framework-style rendering of a whole path.
pub open spec fn sp_axum_path(segs: Seq<PathSegV>) -> Seq<char>
    decreases segs.len(),
{
    if segs.len() == 0 {
        Seq::empty()
    } else {
        sp_axum_seg(segs[0]) + sp_axum_path(segs.drop_first())
    }
}

/// The document-style rendering of a whole path.
pub open spec fn sp_oapi_path(segs: Seq<PathSegV>) -> Seq<char>
    decreases segs.len(),
{
    if segs.len() == 0 {
        Seq::empty()
    } else {
        sp_oapi_seg(segs[0]) + sp_oapi_path(segs.drop_first())
    }
}

impl MethodPath {
    /// Write this path in the framework's encoding: `/:name` parameters.
    pub fn to_axum_path(&self) -> (r: String)
        ensures
            r@ == sp_axum_path(self.deep_view().segments),
    {
        let segs = &self.segments;
        let ghost dv = self.deep_view().segments;
        let mut out = String::new();
        let mut k: usize = 0;
        proof {
            assert(dv.skip(0) =~= dv);
            assert(Seq::<char>::empty() + sp_axum_path(dv) =~= sp_axum_path(dv));
        }
        while k < segs.len()
            invariant
                k <= segs.len(),
                dv == segs.deep_view(),
                sp_axum_path(dv) == out@ + sp_axum_path(dv.skip(k as int)),
            decreases segs.len() - k,
        {
            proof {
                assert(dv.skip(k as int)[0] == dv[k as int]);
                assert(dv.skip(k as int).drop_first() =~= dv.skip(k as int + 1));
            }
            if segs[k].is_param {
                out.append("/:");
            } else {
                out.append("/");
            }
            out.append(segs[k].name.as_str());
            k = k + 1;
        }
        proof {
            assert(dv.skip(segs.len() as int) =~= Seq::<PathSegV>::empty());
            assert(out@ + Seq::<char>::empty() =~= out@);
        }
        out
    }

    /// Write this path in the document's encoding: `/{name}` parameters.
    pub fn to_oapi_path(&self) -> (r: String)
        ensures
            r@ == sp_oapi_path(self.deep_view().segments),
    {
        let segs = &self.segments;
        let ghost dv = self.deep_view().segments;
        let mut out = String::new();
        let mut k: usize = 0;
        proof {
            assert(dv.skip(0) =~= dv);
            assert(Seq::<char>::empty() + sp_oapi_path(dv) =~= sp_oapi_path(dv));
        }
        while k < segs.len()
            invariant
                k <= segs.len(),
                dv == segs.deep_view(),
                sp_oapi_path(dv) == out@ + sp_oapi_path(dv.skip(k as int)),
            decreases segs.len() - k,
        {
            proof {
                assert(dv.skip(k as int)[0] == dv[k as int]);
                assert(dv.skip(k as int).drop_first() =~= dv.skip(k as int + 1));
            }
            if segs[k].is_param {
                out.append("/{");
                out.append(segs[k].name.as_str());
                out.append("}");
            } else {
                out.append("/");
                out.append(segs[k].name.as_str());
            }
            k = k + 1;
        }
        proof {
            assert(dv.skip(segs.len() as int) =~= Seq::<PathSegV>::empty());
            assert(out@ + Seq::<char>::empty() =~= out@);
        }
        out
    }
}

/// The names of the parameter segments of a path, in order.
pub open spec fn sp_param_names(segs: Seq<PathSegV>, k: int) -> Seq<Seq<char>>
    decreases segs.len() - k,
{
    if k < 0 || k >= segs.len() {
        Seq::empty()
    } else if segs[k].is_param {
        seq![segs[k].name] + sp_param_names(segs, k + 1)
    } else {
        sp_param_names(segs, k + 1)
    }
}

/// Collect the names of the parameter segments of a path.
pub fn path_param_names(segs: &Vec<PathSeg>, k: usize) -> (r: Vec<String>)
    requires
        k <= segs.len(),
    ensures
        r.deep_view() == sp_param_names(segs.deep_view(), k as int),
    decreases segs.len() - k,
{
    if k >= segs.len() {
        let out: Vec<String> = Vec::new();
        proof {
            assert(out.deep_view() =~= Seq::<Seq<char>>::empty());
        }
        out
    } else if segs[k].is_param {
        let rest = path_param_names(segs, k + 1);
        let mut out = rest;
        let name = segs[k].name.clone();
        let ghost rest0 = out;
        let ghost nameg = name;
        out.insert(0, name);
        proof {
            crate::util::lemma_vec_dv_cons(rest0, out, nameg);
            assert(out.deep_view() =~= sp_param_names(segs.deep_view(), k as int));
        }
        out
    } else {
        path_param_names(segs, k + 1)
    }
}

/// The source position a method's errors are reported at: its first path
/// segment when one exists, else its verb token.
pub open spec fn mt_pos(mt: MethodType) -> usize {
    match mt {
        MethodType::Get(p) => p,
        MethodType::Post(p) => p,
        MethodType::Put(p) => p,
        MethodType::Delete(p) => p,
        MethodType::Patch(p) => p,
        MethodType::Head(p) => p,
        MethodType::Options(p) => p,
        MethodType::Trace(p) => p,
    }
}

/// See [`mt_pos`].
pub open spec fn sp_method_pos(m: parsing::MethodItemV) -> usize {
    if m.path.segments.len() > 0 {
        m.path.segments[0].pos
    } else {
        mt_pos(m.method_ty)
    }
}

/// The first path entry whose template equals `tmpl`, as an index;
/// `paths.len()` when none matches.
pub open spec fn sp_lookup_path(paths: Seq<crate::model::PathEntryV>, tmpl: Seq<char>, k: int) -> int
    decreases paths.len() - k,
{
    if k < 0 || k >= paths.len() {
        paths.len() as int
    } else if paths[k].template == tmpl {
        k
    } else {
        sp_lookup_path(paths, tmpl, k + 1)
    }
}

/// The operation a path item holds for a verb.
pub open spec fn sp_op_for(item: PathItemV, mt: MethodType) -> Option<crate::model::OperationV> {
    match mt {
        MethodType::Get(_) => item.get,
        MethodType::Post(_) => item.post,
        MethodType::Put(_) => item.put,
        MethodType::Delete(_) => item.delete,
        MethodType::Patch(_) => item.patch,
        MethodType::Head(_) => item.head,
        MethodType::Options(_) => item.options,
        MethodType::Trace(_) => item.trace,
    }
}

/// The first parameter named `name`, as an index; `params.len()` when none
/// matches.
pub open spec fn sp_find_param(params: Seq<ParamV>, name: Seq<char>, k: int) -> int
    decreases params.len() - k,
{
    if k < 0 || k >= params.len() {
        params.len() as int
    } else if params[k].name == name {
        k
    } else {
        sp_find_param(params, name, k + 1)
    }
}

/// The compiled types of a path's parameter segments from index `k` on:
/// each declared parameter segment must name an operation parameter whose
/// location is `path`.
pub open spec fn sp_compile_path_params(
    segs: Seq<PathSegV>,
    k: int,
    params: Seq<ParamV>,
    depth: usize,
) -> Result<(Seq<GenTypeV>, Seq<DeclV>), ErrorV>
    decreases segs.len() - k,
{
    if k < 0 || k >= segs.len() {
        Ok((Seq::empty(), Seq::empty()))
    } else if !segs[k].is_param {
        sp_compile_path_params(segs, k + 1, params, depth)
    } else {
        let pi = sp_find_param(params, segs[k].name, 0);
        if pi >= params.len() {
            Err(
                err_at(
                    ErrorKind::Resolution,
                    segs[k].pos,
                    "Path parameter not found in OpenAPI spec: "@ + segs[k].name,
                ),
            )
        } else if params[pi].loc != ParamLoc::InPath {
            Err(
                err_at(
                    ErrorKind::Resolution,
                    segs[k].pos,
                    "Path parameter is not in `path` in OpenAPI spec: "@ + segs[k].name,
                ),
            )
        } else {
            match sp_compile_param(params[pi], depth) {
                Ok((ty, ds)) => match sp_compile_path_params(segs, k + 1, params, depth) {
                    Ok((tys, ds2)) => Ok((seq![ty] + tys, ds + ds2)),
                    Err(e) => Err(e),
                },
                Err(e) => Err(e),
            }
        }
    }
}

/// The names and compiled types of an operation's query parameters from
/// index `k` on, in document order; none need be declared.
pub open spec fn sp_compile_query_params(params: Seq<ParamV>, k: int, depth: usize) -> Result<
    (Seq<Seq<char>>, Seq<GenTypeV>, Seq<DeclV>),
    ErrorV,
>
    decreases params.len() - k,
{
    if k < 0 || k >= params.len() {
        Ok((Seq::empty(), Seq::empty(), Seq::empty()))
    } else if params[k].loc != ParamLoc::InQuery {
        sp_compile_query_params(params, k + 1, depth)
    } else {
        match sp_compile_param(params[k], depth) {
            Ok((ty, ds)) => match sp_compile_query_params(params, k + 1, depth) {
                Ok((ns, ts, ds2)) => Ok((seq![params[k].name] + ns, seq![ty] + ts, ds + ds2)),
                Err(e) => Err(e),
            },
            Err(e) => Err(e),
        }
    }
}

/// The body extractor of an operation: a present request body must hold
/// exactly one media-type entry; JSON and form-urlencoded bodies compile
/// their schema, the other strategies bind built-in extractor types.
pub open spec fn sp_compile_body(rb: Option<RequestBodyV>, depth: usize) -> Result<
    (Option<codegen::ExtractorV>, Seq<DeclV>),
    ErrorV,
> {
    match rb {
        None => Ok((None, Seq::empty())),
        Some(b) => if b.content.len() != 1 {
            Err(err_nowhere(ErrorKind::Schema, "Exactly one media type is supported"@))
        } else {
            let entry = b.content[0];
            let strat = strategy_for(entry.name);
            match strat {
                Strategy::Json | Strategy::Form => if entry.schema.len() == 0 {
                    Err(err_nowhere(ErrorKind::Schema, "Schema not found in media type"@))
                } else {
                    match sp_compile_schema(entry.schema[0], None, depth) {
                        Ok((ty, ds)) => Ok(
                            (
                                Some(codegen::ExtractorV { body_ty: ty, strategy: strat }),
                                ds,
                            ),
                        ),
                        Err(e) => Err(e),
                    }
                },
                _ => Ok(
                    (
                        Some(
                            codegen::ExtractorV {
                                body_ty: GenTypeV::BuiltIn(strat),
                                strategy: strat,
                            },
                        ),
                        Seq::empty(),
                    ),
                ),
            }
        },
    }
}

/// What compiling one declared method against the document yields: the
/// compiled method and the named declarations its types generated.
pub open spec fn sp_compile_method(
    m: parsing::MethodItemV,
    doc: DocumentV,
    depth: usize,
) -> Result<(codegen::MethodItemV, Seq<DeclV>), ErrorV> {
    let tmpl = sp_oapi_path(m.path.segments);
    let pi = sp_lookup_path(doc.paths, tmpl, 0);
    if pi >= doc.paths.len() {
        Err(
            err_at(
                ErrorKind::Resolution,
                sp_method_pos(m),
                "Path not found in OpenAPI spec: "@ + tmpl,
            ),
        )
    } else {
        match sp_op_for(doc.paths[pi].item, m.method_ty) {
            None => Err(
                err_at(
                    ErrorKind::Resolution,
                    sp_method_pos(m),
                    "Method not found in OpenAPI spec: "@ + tmpl,
                ),
            ),
            Some(op) => sp_compile_method_given(m, op, depth),
        }
    }
}

/// The part of method compilation that follows operation lookup: parameter
/// and body compilation, and assembly of the compiled method.
pub open spec fn sp_compile_method_given(
    m: parsing::MethodItemV,
    op: crate::model::OperationV,
    depth: usize,
) -> Result<(codegen::MethodItemV, Seq<DeclV>), ErrorV> {
    let tmpl = sp_oapi_path(m.path.segments);
    match sp_compile_path_params(m.path.segments, 0, op.parameters, depth) {
                Ok((ptypes, ds1)) => match sp_compile_query_params(op.parameters, 0, depth) {
                    Ok((qnames, qtypes, ds2)) => match sp_compile_body(op.request_body, depth) {
                        Ok((extractor, ds3)) => Ok(
                            (
                                codegen::MethodItemV {
                                    method_ty: m.method_ty,
                                    axum_path: sp_axum_path(m.path.segments),
                                    oapi_path: tmpl,
                                    struct_name: m.struct_name,
                                    struct_vis: m.struct_vis,
                                    path_param_names: sp_param_names(m.path.segments, 0),
                                    path_param_types: ptypes,
                                    query_param_names: qnames,
                                    query_param_types: qtypes,
                                    extractor,
                                    summary: None,
                                    description: None,
                                },
                                ds1 + ds2 + ds3,
                            ),
                        ),
                        Err(e) => Err(e),
                    },
                    Err(e) => Err(e),
                },
                Err(e) => Err(e),
    }
}

/// What compiling one declared item yields: a compiled method hands its
/// generated declarations up to be hoisted beside it, a compiled module
/// keeps its children's declarations inside itself.
pub open spec fn sp_compile_item(it: parsing::ItemV, doc: DocumentV, depth: usize) -> Result<
    (codegen::ItemV, Seq<DeclV>),
    ErrorV,
>
    decreases it, 0int,
{
    match it {
        parsing::ItemV::Method(m) => match sp_compile_method(m, doc, depth) {
            Ok((cm, ds)) => Ok((codegen::ItemV::Method(cm), ds)),
            Err(e) => Err(e),
        },
        parsing::ItemV::Module(md) => match sp_compile_module(md, doc, depth) {
            Ok(cm) => Ok((codegen::ItemV::Module(cm), Seq::empty())),
            Err(e) => Err(e),
        },
    }
}

/// What compiling a module yields: its children compiled one level deeper,
/// with every declaration they generated appended after them.
pub open spec fn sp_compile_module(md: parsing::ModuleItemV, doc: DocumentV, depth: usize) -> Result<
    codegen::ModuleItemV,
    ErrorV,
>
    decreases md, 1int,
{
    if depth == usize::MAX {
        Err(err_nowhere(ErrorKind::Document, "module nesting exceeds the host's limits"@))
    } else {
        match sp_compile_tree_items(md.items, 0, doc, (depth + 1) as usize) {
            Ok((citems, ds)) => Ok(
                codegen::ModuleItemV {
                    name: md.name,
                    vis: md.vis,
                    items: citems + codegen::decls_as_items(ds),
                },
            ),
            Err(e) => Err(e),
        }
    }
}

/// The items of a module from index `k` on, each compiled at the given
/// depth, with their hoisted declarations concatenated in order.
pub open spec fn sp_compile_tree_items(
    items: Seq<parsing::ItemV>,
    k: int,
    doc: DocumentV,
    depth: usize,
) -> Result<(Seq<codegen::ItemV>, Seq<DeclV>), ErrorV>
    decreases items, items.len() - k,
{
    if k < 0 || k >= items.len() {
        Ok((Seq::empty(), Seq::empty()))
    } else {
        match sp_compile_item(items[k], doc, depth) {
            Ok((ci, ds)) => match sp_compile_tree_items(items, k + 1, doc, depth) {
                Ok((cis, ds2)) => Ok((seq![ci] + cis, ds + ds2)),
                Err(e) => Err(e),
            },
            Err(e) => Err(e),
        }
    }
}

/// The top-level items from index `k` on: each compiled at depth zero, its
/// hoisted declarations flushed right after it.
pub open spec fn sp_compile_top(items: Seq<parsing::ItemV>, k: int, doc: DocumentV) -> Result<
    Seq<codegen::ItemV>,
    ErrorV,
>
    decreases items, items.len() - k,
{
    if k < 0 || k >= items.len() {
        Ok(Seq::empty())
    } else {
        match sp_compile_item(items[k], doc, 0) {
            Ok((ci, ds)) => match sp_compile_top(items, k + 1, doc) {
                Ok(cis) => Ok(seq![ci] + codegen::decls_as_items(ds) + cis),
                Err(e) => Err(e),
            },
            Err(e) => Err(e),
        }
    }
}

/// The declarations of the synthesized `schemas` module: every named
/// component compiled once, in document order, each under its own name.
pub open spec fn sp_compile_components(
    comps: Seq<crate::model::ComponentEntryV>,
    k: int,
) -> Result<Seq<DeclV>, ErrorV>
    decreases comps.len() - k,
{
    if k < 0 || k >= comps.len() {
        Ok(Seq::empty())
    } else {
        match sp_compile_schema(comps[k].schema, Some(comps[k].name), 1) {
            Ok((_, ds)) => match sp_compile_components(comps, k + 1) {
                Ok(ds2) => Ok(ds + ds2),
                Err(e) => Err(e),
            },
            Err(e) => Err(e),
        }
    }
}

/// What compiling the whole declaration tree against the document yields:
/// the synthesized `schemas` module first, then the compiled top-level
/// items.
pub open spec fn sp_compile_root(root: parsing::RootV, doc: DocumentV) -> Result<
    codegen::RootV,
    ErrorV,
> {
    match sp_compile_components(doc.components, 0) {
        Ok(comp_ds) => match sp_compile_top(root.items, 0, doc) {
            Ok(top_items) => Ok(
                codegen::RootV {
                    items: seq![
                        codegen::ItemV::Module(
                            codegen::ModuleItemV {
                                name: "schemas"@,
                                vis: Vis::Public,
                                items: codegen::decls_as_items(comp_ds),
                            },
                        ),
                    ] + top_items,
                },
            ),
            Err(e) => Err(e),
        },
        Err(e) => Err(e),
    }
}

/// The part of method compilation that follows operation lookup.
#[verifier::spinoff_prover]
#[verifier::rlimit(100)]
fn compile_method_given(
    m: &parsing::MethodItem,
    op: &crate::model::Operation,
    depth: usize,
    sink: &mut Vec<Decl>,
) -> (r: Result<codegen::MethodItem, Error>)
    ensures
        match r {
            Ok(cm) => sp_compile_method_given(m.deep_view(), op.deep_view(), depth) matches Ok(p)
                && cm.deep_view() == p.0 && final(sink).deep_view() == old(sink).deep_view() + p.1,
            Err(e) => sp_compile_method_given(m.deep_view(), op.deep_view(), depth) == Err::<
                (codegen::MethodItemV, Seq<DeclV>),
                _,
            >(e.deep_view()),
        },
{
    let tmpl = m.path.to_oapi_path();
    let ptypes = match compile_path_params(&m.path.segments, 0, &op.parameters, depth, sink) {
        Ok(t) => t,
        Err(e) => {
            return Err(e);
        },
    };
    let pnames = path_param_names(&m.path.segments, 0);
    let (qnames, qtypes) = match compile_query_params(&op.parameters, 0, depth, sink) {
        Ok(t) => t,
        Err(e) => {
            return Err(e);
        },
    };
    let extractor = match compile_body(&op.request_body, depth, sink) {
        Ok(t) => t,
        Err(e) => {
            return Err(e);
        },
    };
    Ok(
        codegen::MethodItem {
            method_ty: m.method_ty,
            axum_path: m.path.to_axum_path(),
            oapi_path: tmpl,
            struct_name: m.struct_name.clone(),
            struct_vis: m.struct_vis,
            path_param_names: pnames,
            path_param_types: ptypes,
            query_param_names: qnames,
            query_param_types: qtypes,
            extractor,
            summary: None,
            description: None,
        },
    )
}

impl Compiler {
    /// Compile one declared method against the document: resolve its path
    /// template and verb, then compile its parameters and request body,
    /// appending generated declarations to `sink`.
    #[verifier::spinoff_prover]
    #[verifier::rlimit(100)]
    pub fn compile_method(
        &self,
        m: &parsing::MethodItem,
        depth: usize,
        sink: &mut Vec<Decl>,
    ) -> (r: Result<codegen::MethodItem, Error>)
        ensures
            match r {
                Ok(cm) => sp_compile_method(m.deep_view(), self.doc.deep_view(), depth) matches Ok(
                    p,
                ) && cm.deep_view() == p.0 && final(sink).deep_view() == old(sink).deep_view()
                    + p.1,
                Err(e) => sp_compile_method(m.deep_view(), self.doc.deep_view(), depth) == Err::<
                    (codegen::MethodItemV, Seq<DeclV>),
                    _,
                >(e.deep_view()),
            },
    {
        let tmpl = m.path.to_oapi_path();
        let pos = if m.path.segments.len() > 0 {
            m.path.span()
        } else {
            method_type_pos(&m.method_ty)
        };
        let pi = lookup_path(&self.doc.paths, &tmpl, 0);
        if pi >= self.doc.paths.len() {
            return Err(
                Error::about(
                    ErrorKind::Resolution,
                    Some(pos),
                    "Path not found in OpenAPI spec: ",
                    tmpl.as_str(),
                ),
            );
        }
        let entry = &self.doc.paths[pi];
        let op_opt = match m.method_ty {
            MethodType::Get(_) => &entry.item.get,
            MethodType::Post(_) => &entry.item.post,
            MethodType::Put(_) => &entry.item.put,
            MethodType::Delete(_) => &entry.item.delete,
            MethodType::Patch(_) => &entry.item.patch,
            MethodType::Head(_) => &entry.item.head,
            MethodType::Options(_) => &entry.item.options,
            MethodType::Trace(_) => &entry.item.trace,
        };
        match op_opt {
            Some(op) => compile_method_given(m, op, depth, sink),
            None => Err(
                Error::about(
                    ErrorKind::Resolution,
                    Some(pos),
                    "Method not found in OpenAPI spec: ",
                    tmpl.as_str(),
                ),
            ),
        }
    }
}

} // verus!

verus! {

use crate::model::PathEntry;
use crate::util::lemma_vec_dv_cons;

/// The route compiler: holds the document every declared route is resolved
/// against.
pub struct Compiler {
    pub doc: Document,
}

/// Find the first parameter with the given name, as an index.
fn find_param(params: &Vec<Param>, name: &String, k: usize) -> (r: usize)
    requires
        k <= params.len(),
    ensures
        r as int == sp_find_param(params.deep_view(), name@, k as int),
        k <= r <= params.len(),
    decreases params.len() - k,
{
    if k >= params.len() {
        params.len()
    } else if params[k].name == *name {
        k
    } else {
        find_param(params, name, k + 1)
    }
}

/// Find the first path entry with the given template, as an index.
fn lookup_path(paths: &Vec<PathEntry>, tmpl: &String, k: usize) -> (r: usize)
    requires
        k <= paths.len(),
    ensures
        r as int == sp_lookup_path(paths.deep_view(), tmpl@, k as int),
        k <= r <= paths.len(),
    decreases paths.len() - k,
{
    if k >= paths.len() {
        paths.len()
    } else if paths[k].template == *tmpl {
        k
    } else {
        lookup_path(paths, tmpl, k + 1)
    }
}

/// The source position of a verb token.
fn method_type_pos(mt: &MethodType) -> (r: usize)
    ensures
        r == mt_pos(*mt),
{
    match mt {
        MethodType::Get(p) => *p,
        MethodType::Post(p) => *p,
        MethodType::Put(p) => *p,
        MethodType::Delete(p) => *p,
        MethodType::Patch(p) => *p,
        MethodType::Head(p) => *p,
        MethodType::Options(p) => *p,
        MethodType::Trace(p) => *p,
    }
}

/// Compile the parameter segments of a declared path from index `k` on.
fn compile_path_params(
    segs: &Vec<PathSeg>,
    k: usize,
    params: &Vec<Param>,
    depth: usize,
    sink: &mut Vec<Decl>,
) -> (r: Result<Vec<GenType>, Error>)
    requires
        k <= segs.len(),
    ensures
        match r {
            Ok(tys) => sp_compile_path_params(segs.deep_view(), k as int, params.deep_view(), depth)
                matches Ok(p) && tys.deep_view() == p.0 && final(sink).deep_view() == old(
                sink,
            ).deep_view() + p.1,
            Err(e) => sp_compile_path_params(segs.deep_view(), k as int, params.deep_view(), depth)
                == Err::<(Seq<GenTypeV>, Seq<DeclV>), _>(e.deep_view()),
        },
    decreases segs.len() - k,
{
    if k >= segs.len() {
        let tys: Vec<GenType> = Vec::new();
        proof {
            assert(tys.deep_view() =~= Seq::<GenTypeV>::empty());
            assert(old(sink).deep_view() + Seq::<DeclV>::empty() =~= old(sink).deep_view());
        }
        Ok(tys)
    } else if !segs[k].is_param {
        compile_path_params(segs, k + 1, params, depth, sink)
    } else {
        let pi = find_param(params, &segs[k].name, 0);
        if pi >= params.len() {
            Err(
                Error::about(
                    ErrorKind::Resolution,
                    Some(segs[k].pos),
                    "Path parameter not found in OpenAPI spec: ",
                    segs[k].name.as_str(),
                ),
            )
        } else if params[pi].loc != ParamLoc::InPath {
            Err(
                Error::about(
                    ErrorKind::Resolution,
                    Some(segs[k].pos),
                    "Path parameter is not in `path` in OpenAPI spec: ",
                    segs[k].name.as_str(),
                ),
            )
        } else {
            match compile_param(&params[pi], depth, sink) {
                Ok(ty) => match compile_path_params(segs, k + 1, params, depth, sink) {
                    Ok(rest) => {
                        let mut out = rest;
                        let ghost rest0 = out;
                        let ghost tyg = ty;
                        out.insert(0, ty);
                        proof {
                            lemma_vec_dv_cons(rest0, out, tyg);
                        }
                        Ok(out)
                    },
                    Err(e) => Err(e),
                },
                Err(e) => Err(e),
            }
        }
    }
}

/// Compile the query parameters of an operation from index `k` on.
fn compile_query_params(params: &Vec<Param>, k: usize, depth: usize, sink: &mut Vec<Decl>) -> (r:
    Result<(Vec<String>, Vec<GenType>), Error>)
    requires
        k <= params.len(),
    ensures
        match r {
            Ok(t) => sp_compile_query_params(params.deep_view(), k as int, depth) matches Ok(p)
                && t.0.deep_view() == p.0 && t.1.deep_view() == p.1 && final(sink).deep_view()
                == old(sink).deep_view() + p.2,
            Err(e) => sp_compile_query_params(params.deep_view(), k as int, depth) == Err::<
                (Seq<Seq<char>>, Seq<GenTypeV>, Seq<DeclV>),
                _,
            >(e.deep_view()),
        },
    decreases params.len() - k,
{
    if k >= params.len() {
        let ns: Vec<String> = Vec::new();
        let ts: Vec<GenType> = Vec::new();
        proof {
            assert(ns.deep_view() =~= Seq::<Seq<char>>::empty());
            assert(ts.deep_view() =~= Seq::<GenTypeV>::empty());
            assert(old(sink).deep_view() + Seq::<DeclV>::empty() =~= old(sink).deep_view());
        }
        Ok((ns, ts))
    } else if params[k].loc != ParamLoc::InQuery {
        compile_query_params(params, k + 1, depth, sink)
    } else {
        match compile_param(&params[k], depth, sink) {
            Ok(ty) => match compile_query_params(params, k + 1, depth, sink) {
                Ok((rest_ns, rest_ts)) => {
                    let mut ns = rest_ns;
                    let mut ts = rest_ts;
                    let name = params[k].name.clone();
                    let ghost ns0 = ns;
                    let ghost ts0 = ts;
                    let ghost nameg = name;
                    let ghost tyg = ty;
                    ns.insert(0, name);
                    ts.insert(0, ty);
                    proof {
                        lemma_vec_dv_cons(ns0, ns, nameg);
                        lemma_vec_dv_cons(ts0, ts, tyg);
                    }
                    Ok((ns, ts))
                },
                Err(e) => Err(e),
            },
            Err(e) => Err(e),
        }
    }
}

/// Compile an operation's request body to its extractor, if one is present.
fn compile_body(rb: &Option<crate::model::RequestBody>, depth: usize, sink: &mut Vec<Decl>) -> (r:
    Result<Option<codegen::Extractor>, Error>)
    ensures
        match r {
            Ok(ex) => sp_compile_body(rb.deep_view(), depth) matches Ok(p) && ex.deep_view() == p.0
                && final(sink).deep_view() == old(sink).deep_view() + p.1,
            Err(e) => sp_compile_body(rb.deep_view(), depth) == Err::<
                (Option<codegen::ExtractorV>, Seq<DeclV>),
                _,
            >(e.deep_view()),
        },
{
    match rb {
        None => {
            proof {
                assert(old(sink).deep_view() + Seq::<DeclV>::empty() =~= old(sink).deep_view());
            }
            Ok(None)
        },
        Some(b) => {
            if b.content.len() != 1 {
                Err(Error::nowhere(ErrorKind::Schema, "Exactly one media type is supported"))
            } else {
                let entry = &b.content[0];
                let strat = strategy_of(&entry.name);
                match strat {
                    Strategy::Json | Strategy::Form => {
                        if entry.schema.len() == 0 {
                            Err(Error::nowhere(ErrorKind::Schema, "Schema not found in media type"))
                        } else {
                            match compile_schema(&entry.schema[0], None, depth, sink) {
                                Ok(ty) => Ok(
                                    Some(codegen::Extractor { body_ty: ty, strategy: strat }),
                                ),
                                Err(e) => Err(e),
                            }
                        }
                    },
                    _ => {
                        proof {
                            assert(old(sink).deep_view() + Seq::<DeclV>::empty() =~= old(
                                sink,
                            ).deep_view());
                        }
                        Ok(
                            Some(
                                codegen::Extractor {
                                    body_ty: GenType::BuiltIn(strat),
                                    strategy: strat,
                                },
                            ),
                        )
                    },
                }
            }
        },
    }
}

/// Append named declarations to a compiled item list, each as a schema item.
fn push_schemas(items: &mut Vec<codegen::Item>, ds: Vec<Decl>)
    ensures
        final(items).deep_view() == old(items).deep_view() + codegen::decls_as_items(
            ds.deep_view(),
        ),
    decreases ds@.len(),
{
    let mut rest = ds;
    let ghost ds0 = rest;
    if rest.len() == 0 {
        proof {
            assert(codegen::decls_as_items(ds0.deep_view()) =~= Seq::<codegen::ItemV>::empty());
            assert(items.deep_view() + Seq::<codegen::ItemV>::empty() =~= items.deep_view());
        }
    } else {
        let d = rest.remove(0);
        let ghost items0 = *items;
        let ghost dg = d;
        items.push(codegen::Item::Schema(d));
        proof {
            crate::util::lemma_vec_dv_push(items0, *items, codegen::Item::Schema(dg));
            assert(rest.deep_view() =~= ds0.deep_view().drop_first());
            assert(codegen::decls_as_items(ds0.deep_view()) =~= seq![
                codegen::ItemV::Schema(ds0.deep_view()[0]),
            ] + codegen::decls_as_items(ds0.deep_view().drop_first()));
        }
        push_schemas(items, rest);
    }
}

} // verus!

verus! {

use crate::util::lemma_vec_dv_push;

impl Compiler {
    /// Compile one declared item: a method hands its generated declarations
    /// up through `sink`, a module keeps its children's inside itself.
    pub fn compile_item(&self, it: &parsing::Item, depth: usize, sink: &mut Vec<Decl>) -> (r:
        Result<codegen::Item, Error>)
        ensures
            match r {
                Ok(ci) => sp_compile_item(it.deep_view(), self.doc.deep_view(), depth) matches Ok(
                    p,
                ) && ci.deep_view() == p.0 && final(sink).deep_view() == old(sink).deep_view()
                    + p.1,
                Err(e) => sp_compile_item(it.deep_view(), self.doc.deep_view(), depth) == Err::<
                    (codegen::ItemV, Seq<DeclV>),
                    _,
                >(e.deep_view()),
            },
        decreases *it, 0int,
    {
        match it {
            parsing::Item::Method(m) => match self.compile_method(m, depth, sink) {
                Ok(cm) => Ok(codegen::Item::Method(cm)),
                Err(e) => Err(e),
            },
            parsing::Item::Module(md) => match self.compile_module(md, depth) {
                Ok(cm) => {
                    proof {
                        assert(final(sink).deep_view() == old(sink).deep_view() + Seq::<
                            DeclV,
                        >::empty());
                    }
                    Ok(codegen::Item::Module(cm))
                },
                Err(e) => Err(e),
            },
        }
    }

    /// Compile a declared module: its children one level deeper, with every
    /// declaration they generated appended after them.
    pub fn compile_module(&self, md: &parsing::ModuleItem, depth: usize) -> (r: Result<
        codegen::ModuleItem,
        Error,
    >)
        ensures
            match r {
                Ok(cm) => sp_compile_module(md.deep_view(), self.doc.deep_view(), depth)
                    == Ok::<_, ErrorV>(cm.deep_view()),
                Err(e) => sp_compile_module(md.deep_view(), self.doc.deep_view(), depth) == Err::<
                    codegen::ModuleItemV,
                    _,
                >(e.deep_view()),
            },
        decreases *md, 1int,
    {
        if depth == usize::MAX {
            return Err(
                Error::nowhere(ErrorKind::Document, "module nesting exceeds the host's limits"),
            );
        }
        proof {
            lemma_items_dv_is_deep_view(md.items);
        }
        let mut ds: Vec<Decl> = Vec::new();
        match self.compile_tree_items(&md.items, 0, depth + 1, &mut ds) {
            Ok(citems) => {
                let mut items = citems;
                push_schemas(&mut items, ds);
                let cm = codegen::ModuleItem { name: md.name.clone(), vis: md.vis, items };
                proof {
                    crate::codegen::lemma_citems_dv_is_deep_view(cm.items);
                }
                Ok(cm)
            },
            Err(e) => Err(e),
        }
    }

    /// Compile the items of a module from index `k` on, at the given depth.
    fn compile_tree_items(
        &self,
        items: &Vec<parsing::Item>,
        k: usize,
        depth: usize,
        sink: &mut Vec<Decl>,
    ) -> (r: Result<Vec<codegen::Item>, Error>)
        requires
            k <= items.len(),
        ensures
            match r {
                Ok(cis) => sp_compile_tree_items(
                    items.deep_view(),
                    k as int,
                    self.doc.deep_view(),
                    depth,
                ) matches Ok(p) && cis.deep_view() == p.0 && final(sink).deep_view() == old(
                    sink,
                ).deep_view() + p.1,
                Err(e) => sp_compile_tree_items(
                    items.deep_view(),
                    k as int,
                    self.doc.deep_view(),
                    depth,
                ) == Err::<(Seq<codegen::ItemV>, Seq<DeclV>), _>(e.deep_view()),
            },
        decreases *items, items.len() - k,
    {
        if k >= items.len() {
            let cis: Vec<codegen::Item> = Vec::new();
            proof {
                assert(cis.deep_view() =~= Seq::<codegen::ItemV>::empty());
            }
            Ok(cis)
        } else {
            match self.compile_item(&items[k], depth, sink) {
                Ok(ci) => match self.compile_tree_items(items, k + 1, depth, sink) {
                    Ok(rest) => {
                        let mut out = rest;
                        let ghost rest0 = out;
                        let ghost cig = ci;
                        out.insert(0, ci);
                        proof {
                            lemma_vec_dv_cons(rest0, out, cig);
                        }
                        Ok(out)
                    },
                    Err(e) => Err(e),
                },
                Err(e) => Err(e),
            }
        }
    }

    /// Compile the named component schemas from index `k` on into `sink`.
    fn compile_components(&self, k: usize, sink: &mut Vec<Decl>) -> (r: Result<(), Error>)
        requires
            k <= self.doc.components.len(),
        ensures
            match r {
                Ok(_) => sp_compile_components(self.doc.components.deep_view(), k as int)
                    matches Ok(ds) && final(sink).deep_view() == old(sink).deep_view() + ds,
                Err(e) => sp_compile_components(self.doc.components.deep_view(), k as int)
                    == Err::<Seq<DeclV>, _>(e.deep_view()),
            },
        decreases self.doc.components.len() - k,
    {
        if k >= self.doc.components.len() {
            Ok(())
        } else {
            let comp = &self.doc.components[k];
            match compile_schema(&comp.schema, Some(&comp.name), 1, sink) {
                Ok(_) => self.compile_components(k + 1, sink),
                Err(e) => Err(e),
            }
        }
    }

    /// Compile the top-level items from index `k` on into `out`, flushing
    /// each item's generated declarations right after it.
    fn compile_top(
        &self,
        items: &Vec<parsing::Item>,
        k: usize,
        out: &mut Vec<codegen::Item>,
    ) -> (r: Result<(), Error>)
        requires
            k <= items.len(),
        ensures
            match r {
                Ok(_) => sp_compile_top(items.deep_view(), k as int, self.doc.deep_view())
                    matches Ok(cis) && final(out).deep_view() == old(out).deep_view() + cis,
                Err(e) => sp_compile_top(items.deep_view(), k as int, self.doc.deep_view())
                    == Err::<Seq<codegen::ItemV>, _>(e.deep_view()),
            },
        decreases *items, items.len() - k,
    {
        if k >= items.len() {
            Ok(())
        } else {
            let mut ds: Vec<Decl> = Vec::new();
            match self.compile_item(&items[k], 0, &mut ds) {
                Ok(ci) => {
                    let ghost out0 = *out;
                    let ghost cig = ci;
                    out.push(ci);
                    proof {
                        lemma_vec_dv_push(out0, *out, cig);
                    }
                    push_schemas(out, ds);
                    self.compile_top(items, k + 1, out)
                },
                Err(e) => Err(e),
            }
        }
    }

    /// Compile the whole declaration tree against the document: the
    /// synthesized `schemas` module holding every named component comes
    /// first, then the compiled top-level items.
    pub fn compile(parser: parsing::Root, doc: Document) -> (r: Result<codegen::Root, Error>)
        ensures
            match r {
                Ok(cr) => sp_compile_root(parser.deep_view(), doc.deep_view()) == Ok::<_, ErrorV>(
                    cr.deep_view(),
                ),
                Err(e) => sp_compile_root(parser.deep_view(), doc.deep_view()) == Err::<
                    codegen::RootV,
                    _,
                >(e.deep_view()),
            },
    {
        let this = Compiler { doc };
        let mut comp_ds: Vec<Decl> = Vec::new();
        match this.compile_components(0, &mut comp_ds) {
            Ok(_) => {
                let mut schemas_items: Vec<codegen::Item> = Vec::new();
                push_schemas(&mut schemas_items, comp_ds);
                let schemas_mod = codegen::ModuleItem {
                    name: "schemas".to_owned(),
                    vis: Vis::Public,
                    items: schemas_items,
                };
                proof {
                    crate::codegen::lemma_citems_dv_is_deep_view(schemas_mod.items);
                }
                let mut items: Vec<codegen::Item> = Vec::new();
                let m_item = codegen::Item::Module(schemas_mod);
                let ghost items0 = items;
                let ghost mg = m_item;
                items.push(m_item);
                proof {
                    lemma_vec_dv_push(items0, items, mg);
                }
                match this.compile_top(&parser.items, 0, &mut items) {
                    Ok(_) => Ok(codegen::Root { items }),
                    Err(e) => Err(e),
                }
            },
            Err(e) => Err(e),
        }
    }
}

} // verus!
