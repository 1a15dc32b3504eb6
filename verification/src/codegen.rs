use vstd::prelude::*;

verus! {

broadcast use vstd::std_specs::vec::axiom_vec_index_decreases,
    crate::util::lemma_seq_concat_assoc,
    crate::util::lemma_seq_empty_concat,
    crate::util::lemma_seq_push_is_concat;

use crate::parsing::{MethodType, Vis};
use crate::schema::{gt_dv, Decl, DeclV, GenType, GenTypeV, Strategy};

/// The body extractor of a compiled method: the type the body compiles to
/// and the extraction strategy (which also names the error variant raised on
/// extraction failure). The bound value is always named `body`.
#[derive(Debug)]
pub struct Extractor {
    pub body_ty: GenType,
    pub strategy: Strategy,
}

/// Model of an [`Extractor`].
pub struct ExtractorV {
    pub body_ty: GenTypeV,
    pub strategy: Strategy,
}

impl DeepView for Extractor {
    type V = ExtractorV;

    open spec fn deep_view(&self) -> ExtractorV {
        ExtractorV { body_ty: gt_dv(self.body_ty), strategy: self.strategy }
    }
}

/// A compiled method: its verb, both path encodings, the generated record's
/// name and visibility, the path and query parameters with their compiled
/// types, the optional body extractor, and the reserved summary and
/// description (currently always absent).
#[derive(Debug)]
pub struct MethodItem {
    pub method_ty: MethodType,
    pub axum_path: String,
    pub oapi_path: String,
    pub struct_name: String,
    pub struct_vis: Vis,
    pub path_param_names: Vec<String>,
    pub path_param_types: Vec<GenType>,
    pub query_param_names: Vec<String>,
    pub query_param_types: Vec<GenType>,
    pub extractor: Option<Extractor>,
    pub summary: Option<String>,
    pub description: Option<String>,
}

/// Model of a compiled [`MethodItem`].
pub struct MethodItemV {
    pub method_ty: MethodType,
    pub axum_path: Seq<char>,
    pub oapi_path: Seq<char>,
    pub struct_name: Seq<char>,
    pub struct_vis: Vis,
    pub path_param_names: Seq<Seq<char>>,
    pub path_param_types: Seq<GenTypeV>,
    pub query_param_names: Seq<Seq<char>>,
    pub query_param_types: Seq<GenTypeV>,
    pub extractor: Option<ExtractorV>,
    pub summary: Option<Seq<char>>,
    pub description: Option<Seq<char>>,
}

impl DeepView for MethodItem {
    type V = MethodItemV;

    open spec fn deep_view(&self) -> MethodItemV {
        MethodItemV {
            method_ty: self.method_ty,
            axum_path: self.axum_path@,
            oapi_path: self.oapi_path@,
            struct_name: self.struct_name@,
            struct_vis: self.struct_vis,
            path_param_names: self.path_param_names.deep_view(),
            path_param_types: self.path_param_types.deep_view(),
            query_param_names: self.query_param_names.deep_view(),
            query_param_types: self.query_param_types.deep_view(),
            extractor: self.extractor.deep_view(),
            summary: self.summary.deep_view(),
            description: self.description.deep_view(),
        }
    }
}

/// A compiled item: a module, a method, or a hoisted named type declaration.
#[derive(Debug)]
pub enum Item {
    Module(ModuleItem),
    Method(MethodItem),
    Schema(Decl),
}

/// A compiled module: its name, visibility, and ordered children.
#[derive(Debug)]
pub struct ModuleItem {
    pub name: String,
    pub vis: Vis,
    pub items: Vec<Item>,
}

/// Model of a compiled [`Item`].
pub enum ItemV {
    Module(ModuleItemV),
    Method(MethodItemV),
    Schema(DeclV),
}

/// Model of a compiled [`ModuleItem`].
pub struct ModuleItemV {
    pub name: Seq<char>,
    pub vis: Vis,
    pub items: Seq<ItemV>,
}

/// Model of a compiled [`Item`], defined recursively.
pub open spec fn citem_dv(t: Item) -> ItemV
    decreases t,
{
    match t {
        Item::Module(m) => ItemV::Module(cmodule_dv(m)),
        Item::Method(m) => ItemV::Method(m.deep_view()),
        Item::Schema(d) => ItemV::Schema(d.deep_view()),
    }
}

/// Model of a compiled [`ModuleItem`].
pub open spec fn cmodule_dv(m: ModuleItem) -> ModuleItemV
    decreases m,
{
    ModuleItemV { name: m.name@, vis: m.vis, items: citems_dv(m.items, 0) }
}

/// Models of the compiled items of a vector, from index `i` on.
pub open spec fn citems_dv(v: Vec<Item>, i: int) -> Seq<ItemV>
    decreases v, v@.len() - i,
{
    if i < 0 || i >= v@.len() {
        Seq::empty()
    } else {
        seq![citem_dv(v[i])] + citems_dv(v, i + 1)
    }
}

impl DeepView for Item {
    type V = ItemV;

    open spec fn deep_view(&self) -> ItemV {
        citem_dv(*self)
    }
}

impl DeepView for ModuleItem {
    type V = ModuleItemV;

    open spec fn deep_view(&self) -> ModuleItemV {
        cmodule_dv(*self)
    }
}

/// `citems_dv` lists the model of each compiled item in order.
pub proof fn lemma_citems_dv(v: Vec<Item>, i: int)
    requires
        0 <= i <= v@.len(),
    ensures
        citems_dv(v, i).len() == v@.len() - i,
        forall|k: int| i <= k < v@.len() ==> citems_dv(v, i)[k - i] == citem_dv(v@[k]),
    decreases v@.len() - i,
{
    if i < v@.len() {
        lemma_citems_dv(v, i + 1);
    }
}

/// The model of a whole compiled item vector is its element-wise deep view.
pub proof fn lemma_citems_dv_is_deep_view(v: Vec<Item>)
    ensures
        citems_dv(v, 0) =~= v.deep_view(),
{
    lemma_citems_dv(v, 0);
}

/// The root of the compiled tree: its ordered items, always opening with the
/// synthesized `schemas` module.
#[derive(Debug)]
pub struct Root {
    pub items: Vec<Item>,
}

/// Model of a compiled [`Root`].
pub struct RootV {
    pub items: Seq<ItemV>,
}

impl DeepView for Root {
    type V = RootV;

    open spec fn deep_view(&self) -> RootV {
        RootV { items: self.items.deep_view() }
    }
}

/// Named type declarations recast as compiled schema items.
pub open spec fn decls_as_items(ds: Seq<DeclV>) -> Seq<ItemV> {
    Seq::new(ds.len(), |i: int| ItemV::Schema(ds[i]))
}

} // verus!

// ---------------------------------------------------------------------------
// The code emitter: serializes the compiled tree into source text for the
// host framework, with a model-level mirror for every piece. Emission is
// pure text production and never fails.
// ---------------------------------------------------------------------------

verus! {

use crate::schema::{builtin_path, render_type, FieldV, VariantV};

/// The emitted visibility marker.
pub open spec fn sp_vis(v: Vis) -> Seq<char> {
    match v {
        Vis::Public => "pub "@,
        Vis::Inherited => Seq::empty(),
    }
}

/// The verb's upper-case name, as documentation shows it.
pub open spec fn mt_name(mt: MethodType) -> Seq<char> {
    match mt {
        MethodType::Get(_) => "GET"@,
        MethodType::Post(_) => "POST"@,
        MethodType::Put(_) => "PUT"@,
        MethodType::Delete(_) => "DELETE"@,
        MethodType::Patch(_) => "PATCH"@,
        MethodType::Head(_) => "HEAD"@,
        MethodType::Options(_) => "OPTIONS"@,
        MethodType::Trace(_) => "TRACE"@,
    }
}

/// The router-binding name of a verb: its lower-case form.
pub open spec fn mt_router(mt: MethodType) -> Seq<char> {
    match mt {
        MethodType::Get(_) => "get"@,
        MethodType::Post(_) => "post"@,
        MethodType::Put(_) => "put"@,
        MethodType::Delete(_) => "delete"@,
        MethodType::Patch(_) => "patch"@,
        MethodType::Head(_) => "head"@,
        MethodType::Options(_) => "options"@,
        MethodType::Trace(_) => "trace"@,
    }
}

/// The error variant a strategy reports extraction failures under.
pub open spec fn strategy_var(s: Strategy) -> Seq<char> {
    match s {
        Strategy::Json => "Json"@,
        Strategy::Form => "Form"@,
        Strategy::Multipart => "Multipart"@,
        Strategy::Text => "Text"@,
        Strategy::Bytes => "Bytes"@,
    }
}

/// How an absent-or-present documentation note is shown.
pub open spec fn sp_opt_note(o: Option<Seq<char>>) -> Seq<char> {
    match o {
        None => "None"@,
        Some(s) => "Some("@ + s + ")"@,
    }
}

/// Names joined by `, ` from index `k` on.
pub open spec fn sp_join_from(names: Seq<Seq<char>>, k: int) -> Seq<char>
    decreases names.len() - k,
{
    if k < 0 || k >= names.len() {
        Seq::empty()
    } else if k == names.len() - 1 {
        names[k]
    } else {
        names[k] + ", "@ + sp_join_from(names, k + 1)
    }
}

/// Record fields `pub name: type,` for paired names and types, from `k` on.
pub open spec fn sp_param_fields(names: Seq<Seq<char>>, tys: Seq<GenTypeV>, k: int) -> Seq<char>
    decreases names.len() - k,
{
    if k < 0 || k >= names.len() || k >= tys.len() {
        Seq::empty()
    } else {
        "pub "@ + names[k] + ": "@ + render_type(tys[k]) + ",\n"@ + sp_param_fields(
            names,
            tys,
            k + 1,
        )
    }
}

/// Plain `name,` lines for record assembly, from `k` on.
pub open spec fn sp_self_fields(names: Seq<Seq<char>>, k: int) -> Seq<char>
    decreases names.len() - k,
{
    if k < 0 || k >= names.len() {
        Seq::empty()
    } else {
        names[k] + ",\n"@ + sp_self_fields(names, k + 1)
    }
}

/// The emitted form of one generated field.
pub open spec fn sp_field(f: FieldV) -> Seq<char> {
    if f.optional {
        "pub "@ + f.name + ": Option<"@ + render_type(f.ty) + ">,\n"@
    } else {
        "pub "@ + f.name + ": "@ + render_type(f.ty) + ",\n"@
    }
}

/// The emitted fields of a record declaration, from `k` on.
pub open spec fn sp_decl_fields(fields: Seq<FieldV>, k: int) -> Seq<char>
    decreases fields.len() - k,
{
    if k < 0 || k >= fields.len() {
        Seq::empty()
    } else {
        sp_field(fields[k]) + sp_decl_fields(fields, k + 1)
    }
}

/// The emitted variants of a sum-type declaration, from `k` on.
pub open spec fn sp_decl_variants(variants: Seq<VariantV>, k: int) -> Seq<char>
    decreases variants.len() - k,
{
    if k < 0 || k >= variants.len() {
        Seq::empty()
    } else {
        variants[k].name + "("@ + render_type(variants[k].ty) + "),\n"@ + sp_decl_variants(
            variants,
            k + 1,
        )
    }
}

/// The emitted form of one named type declaration.
pub open spec fn sp_decl(d: DeclV) -> Seq<char> {
    match d {
        DeclV::Record { name, fields } => "/// Generated from OpenAPI schema\n#[derive(serde::Serialize, serde::Deserialize, Debug, Clone)]\npub struct "@
            + name + " {\n"@ + sp_decl_fields(fields, 0) + "}\n"@,
        DeclV::Choice { name, variants } => "/// Generated from OpenAPI schema\n#[derive(serde::Serialize, serde::Deserialize, Debug, Clone)]\npub enum "@
            + name + " {\n"@ + sp_decl_variants(variants, 0) + "}\n"@,
        DeclV::Alias { name, ty } => "/// Generated from OpenAPI schema\npub type "@ + name
            + " = "@ + render_type(ty) + ";\n"@,
    }
}

/// The record type a compiled method generates, with its documentation.
#[verifier::opaque]
pub open spec fn sp_method_struct(m: MethodItemV) -> Seq<char> {
    "/// Generated from OpenAPI spec.\n/// Method: `"@ + mt_name(m.method_ty) + " "@ + m.oapi_path
        + "`\n/// Summary: "@ + sp_opt_note(m.summary) + "\n/// Description: "@ + sp_opt_note(
        m.description,
    ) + "\n#[derive(Debug)]\n"@ + sp_vis(m.struct_vis) + "struct "@ + m.struct_name + " {\n"@
        + sp_param_fields(m.path_param_names, m.path_param_types, 0) + sp_param_fields(
        m.query_param_names,
        m.query_param_types,
        0,
    ) + (match m.extractor {
        Some(ex) => "pub body: "@ + render_type(ex.body_ty) + ",\n"@,
        None => Seq::empty(),
    }) + "}\n"@
}

/// The route-declaration capability impl a compiled method generates.
#[verifier::opaque]
pub open spec fn sp_method_oapi_impl(m: MethodItemV) -> Seq<char> {
    "impl ::axum_open_api::OapiPath for "@ + m.struct_name
        + " {\nfn path() -> &'static str {\n\""@ + m.axum_path
        + "\"\n}\nfn method_router<H, T, S>(handler: H) -> axum::routing::MethodRouter<S>\nwhere\nH: axum::handler::Handler<T, S>,\nT: 'static,\nS: Clone + Send + Sync + 'static,\n{\naxum::routing::MethodRouter::new()."@
        + mt_router(m.method_ty) + "(handler)\n}\n}\n"@
}

/// The body-extraction stanza of the extraction impl, when a body extractor
/// is bound.
pub open spec fn sp_extract_stanza(ex: ExtractorV) -> Seq<char> {
    "let "@ + builtin_path(ex.strategy)
        + "(body) = match req.extract().await {\nOk(body) => body,\nErr(e) => return Err(::axum_open_api::Rejection::"@
        + strategy_var(ex.strategy) + "(e)),\n};\n"@
}

/// The trait the extraction impl implements, by body presence.
pub open spec fn sp_fr_trait(x: Option<ExtractorV>) -> Seq<char> {
    match x {
        Some(_) => "#[axum::async_trait]\nimpl<S: Send + Sync> ::axum::extract::FromRequest<S> for "@,
        None => "#[axum::async_trait]\nimpl<S: Send + Sync> ::axum::extract::FromRequestParts<S> for "@,
    }
}

/// The extraction function's opening, by body presence.
pub open spec fn sp_fr_fn(x: Option<ExtractorV>) -> Seq<char> {
    match x {
        Some(_) => "from_request(\nmut req: ::axum::extract::Request,\n"@,
        None => "from_request_parts(\nmut req: &mut ::axum::http::request::Parts,\n"@,
    }
}

/// The part-extraction call, by body presence.
pub open spec fn sp_fr_extract(x: Option<ExtractorV>) -> Seq<char> {
    match x {
        Some(_) => "extract_parts"@,
        None => "extract"@,
    }
}

/// The body-extraction stanza, empty without a body extractor.
pub open spec fn sp_fr_stanza(x: Option<ExtractorV>) -> Seq<char> {
    match x {
        Some(ex) => sp_extract_stanza(ex),
        None => Seq::empty(),
    }
}

/// The body line of record assembly, empty without a body extractor.
pub open spec fn sp_fr_body_field(x: Option<ExtractorV>) -> Seq<char> {
    match x {
        Some(_) => "body,\n"@,
        None => Seq::empty(),
    }
}

/// The extraction capability impl a compiled method generates: path
/// parameters, structurally validated query parameters, the body extractor
/// when one is bound, and assembly of the final record.
#[verifier::opaque]
pub open spec fn sp_method_extract_impl(m: MethodItemV) -> Seq<char> {
    sp_fr_trait(m.extractor) + m.struct_name
        + " {\ntype Rejection = ::axum_open_api::Rejection;\nasync fn "@ + sp_fr_fn(m.extractor)
        + "_state: &S,\n) -> Result<Self, Self::Rejection> {\nuse axum::{\nextract::{Path, Query},\nRequestPartsExt, RequestExt\n};\nlet Path(("@
        + sp_join_from(m.path_param_names, 0) + ")) = match req."@ + sp_fr_extract(m.extractor)
        + "().await {\nOk(params) => params,\nErr(e) => return Err(::axum_open_api::Rejection::Path(e)),\n};\n#[derive(serde::Deserialize)]\nstruct __QueryGenerated__ {\n"@
        + sp_param_fields(m.query_param_names, m.query_param_types, 0)
        + "}\nlet Query(__QueryGenerated__ { "@ + sp_join_from(m.query_param_names, 0)
        + " }) = match req."@ + sp_fr_extract(m.extractor)
        + "().await {\nOk(query) => query,\nErr(e) => return Err(::axum_open_api::Rejection::Query(e)),\n};\n"@
        + sp_fr_stanza(m.extractor) + "Ok(Self {\n"@ + sp_self_fields(m.path_param_names, 0)
        + sp_self_fields(m.query_param_names, 0) + sp_fr_body_field(m.extractor) + "})\n}\n}\n"@
}

/// Everything a compiled method emits: its record type and its two
/// capability impls.
pub open spec fn sp_method(m: MethodItemV) -> Seq<char> {
    sp_method_struct(m) + sp_method_oapi_impl(m) + sp_method_extract_impl(m)
}

/// The emitted form of one compiled item.
pub open spec fn sp_item(it: ItemV) -> Seq<char>
    decreases it, 0int,
{
    match it {
        ItemV::Module(md) => sp_vis(md.vis) + "mod "@ + md.name + " {\n"@ + sp_items(md.items, 0)
            + "}\n"@,
        ItemV::Method(m) => sp_method(m),
        ItemV::Schema(d) => sp_decl(d),
    }
}

/// The emitted forms of compiled items from index `k` on, in order.
pub open spec fn sp_items(items: Seq<ItemV>, k: int) -> Seq<char>
    decreases items, items.len() - k, 1int,
{
    if k < 0 || k >= items.len() {
        Seq::empty()
    } else {
        sp_item(items[k]) + sp_items(items, k + 1)
    }
}

/// The whole emitted source of a compiled tree.
pub open spec fn sp_root(r: RootV) -> Seq<char> {
    sp_items(r.items, 0)
}

} // verus!

verus! {

/// Append the emitted visibility marker.
fn append_vis(out: &mut String, v: Vis)
    ensures
        final(out)@ == old(out)@ + sp_vis(v),
{
    match v {
        Vis::Public => out.append("pub "),
        Vis::Inherited => {
            proof {
                assert(old(out)@ + Seq::<char>::empty() =~= old(out)@);
            }
        },
    }
}

/// Append the verb's upper-case name.
fn append_mt_name(out: &mut String, mt: &MethodType)
    ensures
        final(out)@ == old(out)@ + mt_name(*mt),
{
    match mt {
        MethodType::Get(_) => out.append("GET"),
        MethodType::Post(_) => out.append("POST"),
        MethodType::Put(_) => out.append("PUT"),
        MethodType::Delete(_) => out.append("DELETE"),
        MethodType::Patch(_) => out.append("PATCH"),
        MethodType::Head(_) => out.append("HEAD"),
        MethodType::Options(_) => out.append("OPTIONS"),
        MethodType::Trace(_) => out.append("TRACE"),
    }
}

/// Append the verb's router-binding name.
fn append_mt_router(out: &mut String, mt: &MethodType)
    ensures
        final(out)@ == old(out)@ + mt_router(*mt),
{
    match mt {
        MethodType::Get(_) => out.append("get"),
        MethodType::Post(_) => out.append("post"),
        MethodType::Put(_) => out.append("put"),
        MethodType::Delete(_) => out.append("delete"),
        MethodType::Patch(_) => out.append("patch"),
        MethodType::Head(_) => out.append("head"),
        MethodType::Options(_) => out.append("options"),
        MethodType::Trace(_) => out.append("trace"),
    }
}

/// Append the error variant a strategy reports under.
fn append_strategy_var(out: &mut String, s: Strategy)
    ensures
        final(out)@ == old(out)@ + strategy_var(s),
{
    match s {
        Strategy::Json => out.append("Json"),
        Strategy::Form => out.append("Form"),
        Strategy::Multipart => out.append("Multipart"),
        Strategy::Text => out.append("Text"),
        Strategy::Bytes => out.append("Bytes"),
    }
}

/// Append an absent-or-present documentation note.
fn append_opt_note(out: &mut String, o: &Option<String>)
    ensures
        final(out)@ == old(out)@ + sp_opt_note(o.deep_view()),
{
    match o {
        None => out.append("None"),
        Some(s) => {
            out.append("Some(");
            out.append(s.as_str());
            out.append(")");
        },
    }
}

/// Append names joined by `, ` from index `k` on.
fn append_join_from(out: &mut String, names: &Vec<String>, k: usize)
    requires
        k <= names.len(),
    ensures
        final(out)@ == old(out)@ + sp_join_from(names.deep_view(), k as int),
    decreases names.len() - k,
{
    if k >= names.len() {
        proof {
            assert(old(out)@ + Seq::<char>::empty() =~= old(out)@);
        }
    } else if k == names.len() - 1 {
        out.append(names[k].as_str());
    } else {
        out.append(names[k].as_str());
        out.append(", ");
        append_join_from(out, names, k + 1);
    }
}

/// Append `pub name: type,` lines for paired names and types from `k` on.
fn append_param_fields(out: &mut String, names: &Vec<String>, tys: &Vec<GenType>, k: usize)
    requires
        k <= names.len(),
    ensures
        final(out)@ == old(out)@ + sp_param_fields(names.deep_view(), tys.deep_view(), k as int),
    decreases names.len() - k,
{
    if k >= names.len() || k >= tys.len() {
        proof {
            assert(old(out)@ + Seq::<char>::empty() =~= old(out)@);
        }
    } else {
        out.append("pub ");
        out.append(names[k].as_str());
        out.append(": ");
        let rendered = tys[k].render();
        out.append(rendered.as_str());
        out.append(",\n");
        append_param_fields(out, names, tys, k + 1);
    }
}

/// Append `name,` lines from index `k` on.
fn append_self_fields(out: &mut String, names: &Vec<String>, k: usize)
    requires
        k <= names.len(),
    ensures
        final(out)@ == old(out)@ + sp_self_fields(names.deep_view(), k as int),
    decreases names.len() - k,
{
    if k >= names.len() {
        proof {
            assert(old(out)@ + Seq::<char>::empty() =~= old(out)@);
        }
    } else {
        out.append(names[k].as_str());
        out.append(",\n");
        append_self_fields(out, names, k + 1);
    }
}

/// Append the emitted fields of a record declaration from `k` on.
fn append_decl_fields(out: &mut String, fields: &Vec<crate::schema::Field>, k: usize)
    requires
        k <= fields.len(),
    ensures
        final(out)@ == old(out)@ + sp_decl_fields(fields.deep_view(), k as int),
    decreases fields.len() - k,
{
    if k >= fields.len() {
        proof {
            assert(old(out)@ + Seq::<char>::empty() =~= old(out)@);
        }
    } else {
        let f = &fields[k];
        out.append("pub ");
        out.append(f.name.as_str());
        if f.optional {
            out.append(": Option<");
            let rendered = f.ty.render();
            out.append(rendered.as_str());
            out.append(">,\n");
        } else {
            out.append(": ");
            let rendered = f.ty.render();
            out.append(rendered.as_str());
            out.append(",\n");
        }
        append_decl_fields(out, fields, k + 1);
    }
}

/// Append the emitted variants of a sum-type declaration from `k` on.
fn append_decl_variants(out: &mut String, variants: &Vec<crate::schema::Variant>, k: usize)
    requires
        k <= variants.len(),
    ensures
        final(out)@ == old(out)@ + sp_decl_variants(variants.deep_view(), k as int),
    decreases variants.len() - k,
{
    if k >= variants.len() {
        proof {
            assert(old(out)@ + Seq::<char>::empty() =~= old(out)@);
        }
    } else {
        let v = &variants[k];
        out.append(v.name.as_str());
        out.append("(");
        let rendered = v.ty.render();
        out.append(rendered.as_str());
        out.append("),\n");
        append_decl_variants(out, variants, k + 1);
    }
}

impl Decl {
    /// Append this declaration's emitted source.
    pub fn emit(&self, out: &mut String)
        ensures
            final(out)@ == old(out)@ + sp_decl(self.deep_view()),
    {
        match self {
            Decl::Record { name, fields } => {
                out.append(
                    "/// Generated from OpenAPI schema\n#[derive(serde::Serialize, serde::Deserialize, Debug, Clone)]\npub struct ",
                );
                out.append(name.as_str());
                out.append(" {\n");
                append_decl_fields(out, fields, 0);
                out.append("}\n");
            },
            Decl::Choice { name, variants } => {
                out.append(
                    "/// Generated from OpenAPI schema\n#[derive(serde::Serialize, serde::Deserialize, Debug, Clone)]\npub enum ",
                );
                out.append(name.as_str());
                out.append(" {\n");
                append_decl_variants(out, variants, 0);
                out.append("}\n");
            },
            Decl::Alias { name, ty } => {
                out.append("/// Generated from OpenAPI schema\npub type ");
                out.append(name.as_str());
                out.append(" = ");
                let rendered = ty.render();
                out.append(rendered.as_str());
                out.append(";\n");
            },
        }
    }
}

} // verus!

verus! {

/// Append the trait opening of the extraction impl.
fn append_fr_trait(out: &mut String, x: &Option<Extractor>)
    ensures
        final(out)@ == old(out)@ + sp_fr_trait(x.deep_view()),
{
    match x {
        Some(_) => out.append(
            "#[axum::async_trait]\nimpl<S: Send + Sync> ::axum::extract::FromRequest<S> for ",
        ),
        None => out.append(
            "#[axum::async_trait]\nimpl<S: Send + Sync> ::axum::extract::FromRequestParts<S> for ",
        ),
    }
}

/// Append the extraction function's opening.
fn append_fr_fn(out: &mut String, x: &Option<Extractor>)
    ensures
        final(out)@ == old(out)@ + sp_fr_fn(x.deep_view()),
{
    match x {
        Some(_) => out.append("from_request(\nmut req: ::axum::extract::Request,\n"),
        None => out.append("from_request_parts(\nmut req: &mut ::axum::http::request::Parts,\n"),
    }
}

/// Append the part-extraction call name.
fn append_fr_extract(out: &mut String, x: &Option<Extractor>)
    ensures
        final(out)@ == old(out)@ + sp_fr_extract(x.deep_view()),
{
    match x {
        Some(_) => out.append("extract_parts"),
        None => out.append("extract"),
    }
}

/// Append the body-extraction stanza, when a body extractor is bound.
fn append_fr_stanza(out: &mut String, x: &Option<Extractor>)
    ensures
        final(out)@ == old(out)@ + sp_fr_stanza(x.deep_view()),
{
    match x {
        Some(ex) => {
            out.append("let ");
            let path = GenType::BuiltIn(ex.strategy).render();
            out.append(path.as_str());
            out.append(
                "(body) = match req.extract().await {\nOk(body) => body,\nErr(e) => return Err(::axum_open_api::Rejection::",
            );
            append_strategy_var(out, ex.strategy);
            out.append("(e)),\n};\n");
        },
        None => {
            proof {
                assert(old(out)@ + Seq::<char>::empty() =~= old(out)@);
            }
        },
    }
}

/// Append the body line of record assembly, when a body extractor is bound.
fn append_fr_body_field(out: &mut String, x: &Option<Extractor>)
    ensures
        final(out)@ == old(out)@ + sp_fr_body_field(x.deep_view()),
{
    match x {
        Some(_) => out.append("body,\n"),
        None => {
            proof {
                assert(old(out)@ + Seq::<char>::empty() =~= old(out)@);
            }
        },
    }
}

impl MethodItem {
    /// Append the generated record type with its documentation.
    #[verifier::spinoff_prover]
    #[verifier::rlimit(100)]
    fn emit_struct(&self, out: &mut String)
        ensures
            final(out)@ == old(out)@ + sp_method_struct(self.deep_view()),
    {
        proof {
            reveal(sp_method_struct);
        }
        out.append("/// Generated from OpenAPI spec.\n/// Method: `");
        append_mt_name(out, &self.method_ty);
        out.append(" ");
        out.append(self.oapi_path.as_str());
        out.append("`\n/// Summary: ");
        append_opt_note(out, &self.summary);
        out.append("\n/// Description: ");
        append_opt_note(out, &self.description);
        out.append("\n#[derive(Debug)]\n");
        append_vis(out, self.struct_vis);
        out.append("struct ");
        out.append(self.struct_name.as_str());
        out.append(" {\n");
        append_param_fields(out, &self.path_param_names, &self.path_param_types, 0);
        append_param_fields(out, &self.query_param_names, &self.query_param_types, 0);
        match &self.extractor {
            Some(ex) => {
                out.append("pub body: ");
                let rendered = ex.body_ty.render();
                out.append(rendered.as_str());
                out.append(",\n");
            },
            None => {},
        }
        out.append("}\n");
    }

    /// Append the route-declaration capability impl.
    #[verifier::spinoff_prover]
    #[verifier::rlimit(100)]
    fn emit_oapi_impl(&self, out: &mut String)
        ensures
            final(out)@ == old(out)@ + sp_method_oapi_impl(self.deep_view()),
    {
        proof {
            reveal(sp_method_oapi_impl);
        }
        out.append("impl ::axum_open_api::OapiPath for ");
        out.append(self.struct_name.as_str());
        out.append(" {\nfn path() -> &'static str {\n\"");
        out.append(self.axum_path.as_str());
        out.append(
            "\"\n}\nfn method_router<H, T, S>(handler: H) -> axum::routing::MethodRouter<S>\nwhere\nH: axum::handler::Handler<T, S>,\nT: 'static,\nS: Clone + Send + Sync + 'static,\n{\naxum::routing::MethodRouter::new().",
        );
        append_mt_router(out, &self.method_ty);
        out.append("(handler)\n}\n}\n");
    }

    /// Append the extraction capability impl.
    #[verifier::spinoff_prover]
    #[verifier::rlimit(100)]
    fn emit_extract_impl(&self, out: &mut String)
        ensures
            final(out)@ == old(out)@ + sp_method_extract_impl(self.deep_view()),
    {
        proof {
            reveal(sp_method_extract_impl);
        }
        append_fr_trait(out, &self.extractor);
        out.append(self.struct_name.as_str());
        out.append(" {\ntype Rejection = ::axum_open_api::Rejection;\nasync fn ");
        append_fr_fn(out, &self.extractor);
        out.append(
            "_state: &S,\n) -> Result<Self, Self::Rejection> {\nuse axum::{\nextract::{Path, Query},\nRequestPartsExt, RequestExt\n};\nlet Path((",
        );
        append_join_from(out, &self.path_param_names, 0);
        out.append(")) = match req.");
        append_fr_extract(out, &self.extractor);
        out.append(
            "().await {\nOk(params) => params,\nErr(e) => return Err(::axum_open_api::Rejection::Path(e)),\n};\n#[derive(serde::Deserialize)]\nstruct __QueryGenerated__ {\n",
        );
        append_param_fields(out, &self.query_param_names, &self.query_param_types, 0);
        out.append("}\nlet Query(__QueryGenerated__ { ");
        append_join_from(out, &self.query_param_names, 0);
        out.append(" }) = match req.");
        append_fr_extract(out, &self.extractor);
        out.append(
            "().await {\nOk(query) => query,\nErr(e) => return Err(::axum_open_api::Rejection::Query(e)),\n};\n",
        );
        append_fr_stanza(out, &self.extractor);
        out.append("Ok(Self {\n");
        append_self_fields(out, &self.path_param_names, 0);
        append_self_fields(out, &self.query_param_names, 0);
        append_fr_body_field(out, &self.extractor);
        out.append("})\n}\n}\n");
    }

    /// Append everything this compiled method emits.
    pub fn emit(&self, out: &mut String)
        ensures
            final(out)@ == old(out)@ + sp_method(self.deep_view()),
    {
        self.emit_struct(out);
        self.emit_oapi_impl(out);
        self.emit_extract_impl(out);
    }
}

impl Item {
    /// Append this compiled item's emitted source.
    #[verifier::spinoff_prover]
    #[verifier::rlimit(100)]
    pub fn emit(&self, out: &mut String)
        ensures
            final(out)@ == old(out)@ + sp_item(self.deep_view()),
        decreases *self, 0int,
    {
        match self {
            Item::Module(md) => {
                append_vis(out, md.vis);
                out.append("mod ");
                out.append(md.name.as_str());
                out.append(" {\n");
                proof {
                    lemma_citems_dv_is_deep_view(md.items);
                }
                emit_items(out, &md.items, 0);
                out.append("}\n");
            },
            Item::Method(m) => m.emit(out),
            Item::Schema(d) => d.emit(out),
        }
    }
}

/// Append the emitted source of compiled items from index `k` on.
fn emit_items(out: &mut String, items: &Vec<Item>, k: usize)
    requires
        k <= items.len(),
    ensures
        final(out)@ == old(out)@ + sp_items(items.deep_view(), k as int),
    decreases *items, items.len() - k, 1int,
{
    if k >= items.len() {
        proof {
            assert(old(out)@ + Seq::<char>::empty() =~= old(out)@);
        }
    } else {
        items[k].emit(out);
        emit_items(out, items, k + 1);
    }
}

impl Root {
    /// Serialize the whole compiled tree to source text.
    pub fn emit(&self) -> (r: String)
        ensures
            r@ == sp_root(self.deep_view()),
    {
        let mut out = String::new();
        emit_items(&mut out, &self.items, 0);
        out
    }
}

} // verus!
